//! A domain named by its identifier or by its host name, and how the host
//! name is turned into the identifier.

use crate::api::DomainId;
use crate::commands::domain::Domain;
use crate::text::{decimal, decimal_i32, lemma_decimal_reads_back, parse_i32};
use vstd::prelude::*;
use vstd::string::*;

verus! {

/// The `--domain` argument: a number is an identifier, anything else a host.
#[derive(Debug)]
pub enum DomainIdOrHost {
    DomainId(DomainId),
    Host(String),
}

impl Clone for DomainIdOrHost {
    fn clone(&self) -> (copy: Self)
        ensures
            copy == *self,
    {
        match self {
            DomainIdOrHost::DomainId(id) => DomainIdOrHost::DomainId(*id),
            DomainIdOrHost::Host(host) => DomainIdOrHost::Host(host.clone()),
        }
    }
}

impl DomainIdOrHost {
    /// Whether this is what the text `s` stands for.
    pub open spec fn reads(self, s: Seq<char>) -> bool {
        match decimal_i32(s) {
            Some(id) => self == DomainIdOrHost::DomainId(id),
            None => self matches DomainIdOrHost::Host(host) && host@ == s,
        }
    }

    /// Reads the argument. Every text is accepted.
    pub fn from_str(s: &str) -> (read: Result<DomainIdOrHost, &'static str>)
        ensures
            read is Ok,
            read->Ok_0.reads(s@),
    {
        match parse_i32(s) {
            Some(id) => Ok(DomainIdOrHost::DomainId(id)),
            None => Ok(DomainIdOrHost::Host(String::from_str(s))),
        }
    }

    /// The filter to list the domains with, where a listing is needed to
    /// find the identifier.
    pub open spec fn filter(self) -> Option<String> {
        match self {
            DomainIdOrHost::DomainId(_) => None,
            DomainIdOrHost::Host(host) => Some(host),
        }
    }

    pub fn lookup_filter(&self) -> (filter: Option<String>)
        ensures
            filter == self.filter(),
    {
        match self {
            DomainIdOrHost::DomainId(_) => None,
            DomainIdOrHost::Host(host) => Some(host.clone()),
        }
    }
}

impl std::str::FromStr for DomainIdOrHost {
    type Err = &'static str;

    fn from_str(s: &str) -> (read: Result<Self, Self::Err>)
        ensures
            read is Ok,
            read->Ok_0.reads(s@),
    {
        DomainIdOrHost::from_str(s)
    }
}

/// The identifier that the input stands for: itself where it is one, else
/// that of the first domain that the listing by host name gave. Without a
/// listing, or with an empty one, a host has none.
pub open spec fn domain_id_of(input: DomainIdOrHost, listing: Option<Seq<Domain>>) -> Option<
    DomainId,
> {
    match input {
        DomainIdOrHost::DomainId(id) => Some(id),
        DomainIdOrHost::Host(_) => match listing {
            Some(domains) if domains.len() > 0 => Some(domains[0].id),
            _ => None,
        },
    }
}

pub fn get_domain_id(domain_input: &DomainIdOrHost, listing: Option<&Vec<Domain>>) -> (id: Option<
    DomainId,
>)
    ensures
        id == domain_id_of(
            *domain_input,
            match listing {
                Some(domains) => Some(domains@),
                None => None,
            },
        ),
{
    match domain_input {
        DomainIdOrHost::DomainId(id) => Some(*id),
        DomainIdOrHost::Host(_) => match listing {
            Some(domains) => if domains.len() > 0 {
                Some(domains[0].id)
            } else {
                None
            },
            None => None,
        },
    }
}

/// A host that the registrar knows exactly one domain for has that domain's
/// identifier; a host that it knows none for has no identifier.
pub proof fn lemma_host_has_the_identifier_of_its_domain(host: String, domains: Seq<Domain>)
    ensures
        domains.len() == 1 ==> domain_id_of(DomainIdOrHost::Host(host), Some(domains)) == Some(
            domains[0].id,
        ),
        domains.len() == 0 ==> domain_id_of(DomainIdOrHost::Host(host), Some(domains))
            == None::<DomainId>,
{
}

/// An identifier written in decimal is read as that identifier, never as a
/// host.
pub proof fn lemma_identifier_reads_as_itself(id: DomainId)
    ensures
        DomainIdOrHost::DomainId(id).reads(decimal(id as int)),
{
    lemma_decimal_reads_back(id);
}

} // verus!
