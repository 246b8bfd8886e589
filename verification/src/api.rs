//! The registrar's API as far as the commands use it: identifiers, the
//! filters of its listings, and the requests that a command can lead to.

use crate::failure::{Failure, Operation};
use vstd::prelude::*;

verus! {

pub type DomainId = i32;

pub type DnsId = i32;

pub type InvoiceId = i32;

/// The kind of a DNS record, as a filter of a listing.
#[derive(Clone, Copy, Debug, PartialEq, Eq, Structural)]
pub enum DnsType {
    A,
    AAAA,
    CNAME,
    MX,
    SRV,
    TXT,
}

/// The status of an invoice, as a filter of a listing.
#[derive(Clone, Copy, Debug, PartialEq, Eq, Structural)]
pub enum InvoiceStatus {
    Unpaid,
    Paid,
    Settled,
}

/// One call of the registrar's API.
#[derive(Debug)]
#[allow(inconsistent_fields)]
pub enum Request {
    ListDomains,
    ListDomainsWithFilter { filter: String },
    GetDomain { id: DomainId },
    ListDnsRecordsWithFilter { domain_id: DomainId, host: Option<String>, record_type: Option<DnsType> },
    GetDnsRecord { domain_id: DomainId, id: DnsId },
    ListForwards { domain_id: DomainId },
    GetForward { domain_id: DomainId, host: String },
    ListInvoices,
    ListInvoicesWithStatus { status: InvoiceStatus },
    GetInvoice { id: InvoiceId },
}

impl Request {
    /// The call that the request makes, as a failure of it is named.
    pub open spec fn names(self) -> Operation {
        match self {
            Request::ListDomains => Operation::ListDomains,
            Request::ListDomainsWithFilter { .. } => Operation::ListDomains,
            Request::GetDomain { .. } => Operation::GetDomain,
            Request::ListDnsRecordsWithFilter { .. } => Operation::ListDns,
            Request::GetDnsRecord { .. } => Operation::GetDns,
            Request::ListForwards { .. } => Operation::ListForwards,
            Request::GetForward { .. } => Operation::GetForward,
            Request::ListInvoices => Operation::ListInvoices,
            Request::ListInvoicesWithStatus { .. } => Operation::ListInvoices,
            Request::GetInvoice { .. } => Operation::GetInvoice,
        }
    }

    pub fn operation(&self) -> (operation: Operation)
        ensures
            operation == self.names(),
    {
        match self {
            Request::ListDomains => Operation::ListDomains,
            Request::ListDomainsWithFilter { .. } => Operation::ListDomains,
            Request::GetDomain { .. } => Operation::GetDomain,
            Request::ListDnsRecordsWithFilter { .. } => Operation::ListDns,
            Request::GetDnsRecord { .. } => Operation::GetDns,
            Request::ListForwards { .. } => Operation::ListForwards,
            Request::GetForward { .. } => Operation::GetForward,
            Request::ListInvoices => Operation::ListInvoices,
            Request::ListInvoicesWithStatus { .. } => Operation::ListInvoices,
            Request::GetInvoice { .. } => Operation::GetInvoice,
        }
    }

    /// The failure of this request, with the error that the registrar or
    /// the transport gave.
    pub fn failed(&self, error: String) -> (failure: Failure)
        ensures
            failure == (Failure::ApiCallFailed { operation: self.names(), error }),
    {
        Failure::ApiCallFailed { operation: self.operation(), error }
    }
}

} // verus!
