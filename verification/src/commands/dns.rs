//! The `dns` command: listing the DNS records of a domain and showing one.

use crate::api::{DnsId, DnsType, DomainId, Request};
use crate::domain_lookup::DomainIdOrHost;
use crate::failure::Failure;
use crate::text::{clone_text, decimal, decimal_text, lines_text, natural, natural_text, push_line};
use vstd::prelude::*;
use vstd::string::*;

verus! {

#[derive(Debug)]
pub struct DnsArgs {
    /// Id or name of the domain to manage DNS for.
    pub domain: DomainIdOrHost,
    pub command: Command,
}

#[derive(Debug)]
pub enum Command {
    List(ListDnsArgs),
    Get(GetDnsArgs),
}

#[derive(Debug)]
pub struct ListDnsArgs {
    /// Filters the listing on the given host.
    pub host: Option<String>,
    /// Filters the listing on the given type.
    pub record_type: Option<DnsTypeArg>,
}

#[derive(Debug)]
pub struct GetDnsArgs {
    pub id: DnsId,
}

/// The record types that the command line knows.
#[derive(Clone, Copy, Debug, PartialEq, Eq, Structural)]
pub enum DnsTypeArg {
    A,
    AAAA,
    CNAME,
    MX,
    SRV,
    TXT,
}

/// A DNS record of a listing; its data is held as the text it is shown with.
#[derive(Debug)]
pub struct DnsRecord {
    pub id: DnsId,
    pub data: String,
}

pub open spec fn dns_type_of(dns_type: DnsTypeArg) -> DnsType {
    match dns_type {
        DnsTypeArg::A => DnsType::A,
        DnsTypeArg::AAAA => DnsType::AAAA,
        DnsTypeArg::CNAME => DnsType::CNAME,
        DnsTypeArg::MX => DnsType::MX,
        DnsTypeArg::SRV => DnsType::SRV,
        DnsTypeArg::TXT => DnsType::TXT,
    }
}

pub fn map_dns_type(dns_type: DnsTypeArg) -> (mapped: DnsType)
    ensures
        mapped == dns_type_of(dns_type),
{
    match dns_type {
        DnsTypeArg::A => DnsType::A,
        DnsTypeArg::AAAA => DnsType::AAAA,
        DnsTypeArg::CNAME => DnsType::CNAME,
        DnsTypeArg::MX => DnsType::MX,
        DnsTypeArg::SRV => DnsType::SRV,
        DnsTypeArg::TXT => DnsType::TXT,
    }
}

/// The request that the command leads to for the domain `domain_id`.
pub open spec fn request_for(args: DnsArgs, domain_id: DomainId) -> Request {
    match args.command {
        Command::List(list) => Request::ListDnsRecordsWithFilter {
            domain_id,
            host: list.host,
            record_type: match list.record_type {
                Some(dns_type) => Some(dns_type_of(dns_type)),
                None => None,
            },
        },
        Command::Get(get) => Request::GetDnsRecord { domain_id, id: get.id },
    }
}

/// The request of the command, or the failure where the domain could not be
/// resolved.
pub fn handle_dns(args: &DnsArgs, domain_id: Option<DomainId>) -> (request: Result<
    Request,
    Failure,
>)
    ensures
        request == match domain_id {
            Some(id) => Ok::<Request, Failure>(request_for(*args, id)),
            None => Err(Failure::DomainResolutionFailed),
        },
{
    match domain_id {
        Some(domain_id) => match &args.command {
            Command::List(list) => Ok(
                Request::ListDnsRecordsWithFilter {
                    domain_id,
                    host: clone_text(&list.host),
                    record_type: match list.record_type {
                        Some(dns_type) => Some(map_dns_type(dns_type)),
                        None => None,
                    },
                },
            ),
            Command::Get(get) => Ok(Request::GetDnsRecord { domain_id, id: get.id }),
        },
        None => Err(Failure::DomainResolutionFailed),
    }
}

/// One record of a listing.
pub open spec fn record_row(record: DnsRecord) -> Seq<char> {
    decimal(record.id as int) + ": "@ + record.data@
}

pub open spec fn record_rows(records: Seq<DnsRecord>) -> Seq<Seq<char>> {
    records.map_values(|record: DnsRecord| record_row(record))
}

/// A listing: how many records there are, then one line for each.
pub open spec fn listing_lines(records: Seq<DnsRecord>) -> Seq<Seq<char>> {
    seq!["Got "@ + natural(records.len() as int) + " dns records."@] + record_rows(records)
}

pub fn list_dns(records: &Vec<DnsRecord>) -> (lines: Vec<String>)
    ensures
        lines_text(lines@) == listing_lines(records@),
{
    let mut lines: Vec<String> = Vec::new();
    let mut header = String::from_str("Got ");
    header.append(natural_text(records.len() as u64).as_str());
    header.append(" dns records.");
    push_line(&mut lines, header);
    let ghost head = lines_text(lines@);
    assert(head =~= seq!["Got "@ + natural(records.len() as int) + " dns records."@]);
    let mut i: usize = 0;
    while i < records.len()
        invariant
            i <= records.len(),
            lines_text(lines@) == head + record_rows(records@.take(i as int)),
        decreases records.len() - i,
    {
        let mut row = decimal_text(records[i].id);
        row.append(": ");
        row.append(records[i].data.as_str());
        push_line(&mut lines, row);
        assert(record_rows(records@.take(i + 1)) =~= record_rows(records@.take(i as int)).push(
            record_row(records@[i as int]),
        ));
        assert(lines_text(lines@) =~= head + record_rows(records@.take(i + 1)));
        i += 1;
    }
    assert(records@.take(i as int) =~= records@);
    lines
}

} // verus!
