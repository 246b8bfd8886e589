//! The `domains` command: listing the domains and showing one.

use crate::api::{DomainId, Request};
use crate::text::{boolean, boolean_text, decimal, decimal_text, lines_text, natural, natural_text, push_line};
use vstd::prelude::*;
use vstd::string::*;

verus! {

#[derive(Debug)]
pub struct DomainArgs {
    pub command: Command,
}

#[derive(Debug)]
pub enum Command {
    List(ListDomainArgs),
    Get(GetDomainArgs),
}

#[derive(Debug)]
pub struct ListDomainArgs {
    /// Filters the listing on the given value.
    pub filter: Option<String>,
}

#[derive(Debug)]
pub struct GetDomainArgs {
    pub id: DomainId,
}

/// The web hosting that goes with a domain.
#[derive(Clone, Copy, Debug, PartialEq, Eq, Structural)]
pub enum WebhotelType {
    NoWebhotel,
    WebSmall,
    WebMedium,
    WebLarge,
    WebXLarge,
}

#[derive(Clone, Copy, Debug, PartialEq, Eq, Structural)]
pub struct DomainServices {
    pub registrar: bool,
    pub dns: bool,
    pub email: bool,
    pub webhotel: WebhotelType,
}

/// A domain as the registrar describes it. Dates and status are held as
/// the text that they are shown with.
#[derive(Debug)]
pub struct Domain {
    pub id: DomainId,
    pub domain: String,
    pub registrant: String,
    pub registered_date: Option<String>,
    pub expiry_date: String,
    pub status: String,
    pub renew: bool,
    pub nameservers: Vec<String>,
    pub services: DomainServices,
}

/// The request that the command leads to.
pub open spec fn request_for(args: DomainArgs) -> Request {
    match args.command {
        Command::List(ListDomainArgs { filter: Some(filter) }) => Request::ListDomainsWithFilter {
            filter,
        },
        Command::List(ListDomainArgs { filter: None }) => Request::ListDomains,
        Command::Get(get) => Request::GetDomain { id: get.id },
    }
}

pub fn handle_domains(args: &DomainArgs) -> (request: Request)
    ensures
        request == request_for(*args),
{
    match &args.command {
        Command::List(list) => match &list.filter {
            Some(filter) => Request::ListDomainsWithFilter { filter: filter.clone() },
            None => Request::ListDomains,
        },
        Command::Get(get) => Request::GetDomain { id: get.id },
    }
}

/// One domain of a listing.
pub open spec fn domain_row(domain: Domain) -> Seq<char> {
    decimal(domain.id as int) + ": "@ + domain.domain@
}

pub open spec fn domain_rows(domains: Seq<Domain>) -> Seq<Seq<char>> {
    domains.map_values(|domain: Domain| domain_row(domain))
}

/// A listing: how many domains there are, then one line for each.
pub open spec fn listing_lines(domains: Seq<Domain>) -> Seq<Seq<char>> {
    seq!["Got "@ + natural(domains.len() as int) + " domains."@] + domain_rows(domains)
}

pub fn list_domains(domains: &Vec<Domain>) -> (lines: Vec<String>)
    ensures
        lines_text(lines@) == listing_lines(domains@),
{
    let mut lines: Vec<String> = Vec::new();
    let mut header = String::from_str("Got ");
    header.append(natural_text(domains.len() as u64).as_str());
    header.append(" domains.");
    push_line(&mut lines, header);
    let ghost head = lines_text(lines@);
    assert(head =~= seq!["Got "@ + natural(domains.len() as int) + " domains."@]);
    let mut i: usize = 0;
    while i < domains.len()
        invariant
            i <= domains.len(),
            lines_text(lines@) == head + domain_rows(domains@.take(i as int)),
        decreases domains.len() - i,
    {
        let mut row = decimal_text(domains[i].id);
        row.append(": ");
        row.append(domains[i].domain.as_str());
        push_line(&mut lines, row);
        assert(domain_rows(domains@.take(i + 1)) =~= domain_rows(domains@.take(i as int)).push(
            domain_row(domains@[i as int]),
        ));
        assert(lines_text(lines@) =~= head + domain_rows(domains@.take(i + 1)));
        i += 1;
    }
    assert(domains@.take(i as int) =~= domains@);
    lines
}

/// The line of a service that the domain may or may not come with.
pub open spec fn optional_line(present: bool, line: Seq<char>) -> Seq<Seq<char>> {
    if present {
        seq![line]
    } else {
        Seq::empty()
    }
}

pub open spec fn webhotel_lines(webhotel: WebhotelType) -> Seq<Seq<char>> {
    match webhotel {
        WebhotelType::WebXLarge => seq!["Webhotel Extra Large"@],
        WebhotelType::WebLarge => seq!["Webhotel Large"@],
        WebhotelType::WebMedium => seq!["Webhotel Medium"@],
        WebhotelType::WebSmall => seq!["Webhotel Starter"@],
        WebhotelType::NoWebhotel => Seq::empty(),
    }
}

/// The lines up to and including the heading of the name servers.
pub open spec fn domain_head(domain: Domain) -> Seq<Seq<char>> {
    seq![domain.domain@, "Registrant: "@ + domain.registrant@] + (match domain.registered_date {
        Some(date) => seq!["Registered at "@ + date@],
        None => Seq::empty(),
    }) + seq![
        "Expires at "@ + domain.expiry_date@,
        "Status: "@ + domain.status@,
        "Renewal: "@ + boolean(domain.renew),
        "Nameservers"@,
    ]
}

pub open spec fn nameserver_lines(nameservers: Seq<String>) -> Seq<Seq<char>> {
    nameservers.map_values(|nameserver: String| "\t"@ + nameserver@)
}

pub open spec fn service_lines(services: DomainServices) -> Seq<Seq<char>> {
    seq!["Services:"@] + optional_line(services.registrar, "\tRegistrar"@) + optional_line(
        services.dns,
        "\tDNS"@,
    ) + optional_line(services.email, "\tE-Mail"@) + webhotel_lines(services.webhotel)
}

/// Everything that is shown of one domain, line by line.
pub open spec fn domain_lines(domain: Domain) -> Seq<Seq<char>> {
    domain_head(domain) + nameserver_lines(domain.nameservers@) + service_lines(domain.services)
}

fn push_domain_head(lines: &mut Vec<String>, domain: &Domain)
    ensures
        lines_text(final(lines)@) == lines_text(old(lines)@) + domain_head(*domain),
{
    push_line(lines, domain.domain.clone());
    push_line(lines, String::from_str("Registrant: ").concat(domain.registrant.as_str()));
    match &domain.registered_date {
        Some(date) => {
            push_line(lines, String::from_str("Registered at ").concat(date.as_str()));
        },
        None => {},
    }
    push_line(lines, String::from_str("Expires at ").concat(domain.expiry_date.as_str()));
    push_line(lines, String::from_str("Status: ").concat(domain.status.as_str()));
    push_line(lines, String::from_str("Renewal: ").concat(boolean_text(domain.renew)));
    push_line(lines, String::from_str("Nameservers"));
    assert(lines_text(lines@) =~= lines_text(old(lines)@) + domain_head(*domain));
}

fn push_nameservers(lines: &mut Vec<String>, nameservers: &Vec<String>)
    ensures
        lines_text(final(lines)@) == lines_text(old(lines)@) + nameserver_lines(nameservers@),
{
    let ghost before = lines_text(lines@);
    assert(lines_text(lines@) =~= before + nameserver_lines(nameservers@.take(0)));
    let mut i: usize = 0;
    while i < nameservers.len()
        invariant
            i <= nameservers.len(),
            lines_text(lines@) == before + nameserver_lines(nameservers@.take(i as int)),
        decreases nameservers.len() - i,
    {
        push_line(lines, String::from_str("\t").concat(nameservers[i].as_str()));
        assert(nameserver_lines(nameservers@.take(i + 1)) =~= nameserver_lines(
            nameservers@.take(i as int),
        ).push("\t"@ + nameservers@[i as int]@));
        assert(lines_text(lines@) =~= before + nameserver_lines(nameservers@.take(i + 1)));
        i += 1;
    }
    assert(nameservers@.take(i as int) =~= nameservers@);
}

fn push_services(lines: &mut Vec<String>, services: &DomainServices)
    ensures
        lines_text(final(lines)@) == lines_text(old(lines)@) + service_lines(*services),
{
    push_line(lines, String::from_str("Services:"));
    if services.registrar {
        push_line(lines, String::from_str("\tRegistrar"));
    }
    if services.dns {
        push_line(lines, String::from_str("\tDNS"));
    }
    if services.email {
        push_line(lines, String::from_str("\tE-Mail"));
    }
    match services.webhotel {
        WebhotelType::WebXLarge => {
            push_line(lines, String::from_str("Webhotel Extra Large"));
        },
        WebhotelType::WebLarge => {
            push_line(lines, String::from_str("Webhotel Large"));
        },
        WebhotelType::WebMedium => {
            push_line(lines, String::from_str("Webhotel Medium"));
        },
        WebhotelType::WebSmall => {
            push_line(lines, String::from_str("Webhotel Starter"));
        },
        WebhotelType::NoWebhotel => {},
    }
    assert(lines_text(lines@) =~= lines_text(old(lines)@) + service_lines(*services));
}

pub fn print_domain(domain: &Domain) -> (lines: Vec<String>)
    ensures
        lines_text(lines@) == domain_lines(*domain),
{
    let mut lines: Vec<String> = Vec::new();
    assert(lines_text(lines@) =~= Seq::<Seq<char>>::empty());
    push_domain_head(&mut lines, domain);
    push_nameservers(&mut lines, &domain.nameservers);
    push_services(&mut lines, &domain.services);
    assert(lines_text(lines@) =~= domain_lines(*domain));
    lines
}

} // verus!
