//! The `forwards` command: listing the HTTP forwards of a domain and
//! showing one.

use crate::api::{DomainId, Request};
use crate::domain_lookup::DomainIdOrHost;
use crate::failure::Failure;
use crate::text::{boolean, boolean_text, lines_text, natural, natural_text, push_line};
use vstd::prelude::*;
use vstd::string::*;

verus! {

#[derive(Debug)]
pub struct ForwardArgs {
    /// Id or name of the domain to manage forwards for.
    pub domain: DomainIdOrHost,
    pub command: Command,
}

#[derive(Debug)]
pub enum Command {
    List,
    Get(GetForwardArgs),
}

#[derive(Debug)]
pub struct GetForwardArgs {
    pub host: String,
}

/// A forwarding rule: requests for `host` are sent on to `url`.
#[derive(Debug)]
pub struct HttpForward {
    pub host: String,
    pub url: String,
    pub frame: bool,
}

/// The request that the command leads to for the domain `domain_id`.
pub open spec fn request_for(args: ForwardArgs, domain_id: DomainId) -> Request {
    match args.command {
        Command::List => Request::ListForwards { domain_id },
        Command::Get(get) => Request::GetForward { domain_id, host: get.host },
    }
}

/// The request of the command, or the failure where the domain could not be
/// resolved.
pub fn handle_forwards(args: &ForwardArgs, domain_id: Option<DomainId>) -> (request: Result<
    Request,
    Failure,
>)
    ensures
        request == match domain_id {
            Some(id) => Ok::<Request, Failure>(request_for(*args, id)),
            None => Err(Failure::DomainResolutionFailed),
        },
{
    match domain_id {
        Some(domain_id) => match &args.command {
            Command::List => Ok(Request::ListForwards { domain_id }),
            Command::Get(get) => Ok(Request::GetForward { domain_id, host: get.host.clone() }),
        },
        None => Err(Failure::DomainResolutionFailed),
    }
}

/// One forward of a listing.
pub open spec fn forward_row(forward: HttpForward) -> Seq<char> {
    forward.host@ + " -> "@ + forward.url@
}

pub open spec fn forward_rows(forwards: Seq<HttpForward>) -> Seq<Seq<char>> {
    forwards.map_values(|forward: HttpForward| forward_row(forward))
}

/// A listing: how many forwards there are, then one line for each.
pub open spec fn listing_lines(forwards: Seq<HttpForward>) -> Seq<Seq<char>> {
    seq!["Got "@ + natural(forwards.len() as int) + " forwards."@] + forward_rows(forwards)
}

pub fn list_forwards(forwards: &Vec<HttpForward>) -> (lines: Vec<String>)
    ensures
        lines_text(lines@) == listing_lines(forwards@),
{
    let mut lines: Vec<String> = Vec::new();
    let mut header = String::from_str("Got ");
    header.append(natural_text(forwards.len() as u64).as_str());
    header.append(" forwards.");
    push_line(&mut lines, header);
    let ghost head = lines_text(lines@);
    assert(head =~= seq!["Got "@ + natural(forwards.len() as int) + " forwards."@]);
    let mut i: usize = 0;
    while i < forwards.len()
        invariant
            i <= forwards.len(),
            lines_text(lines@) == head + forward_rows(forwards@.take(i as int)),
        decreases forwards.len() - i,
    {
        let mut row = forwards[i].host.clone();
        row.append(" -> ");
        row.append(forwards[i].url.as_str());
        push_line(&mut lines, row);
        assert(forward_rows(forwards@.take(i + 1)) =~= forward_rows(forwards@.take(i as int)).push(
            forward_row(forwards@[i as int]),
        ));
        assert(lines_text(lines@) =~= head + forward_rows(forwards@.take(i + 1)));
        i += 1;
    }
    assert(forwards@.take(i as int) =~= forwards@);
    lines
}

/// What is shown of one forward, or of the lack of one.
pub open spec fn forward_line(forward: Option<HttpForward>) -> Seq<char> {
    match forward {
        Some(forward) => forward.host@ + " -> "@ + forward.url@ + " (frame: "@ + boolean(
            forward.frame,
        ) + ")"@,
        None => "Forward not found"@,
    }
}

pub fn print_forward(forward: &Option<HttpForward>) -> (line: String)
    ensures
        line@ == forward_line(*forward),
{
    match forward {
        Some(forward) => {
            let mut line = forward.host.clone();
            line.append(" -> ");
            line.append(forward.url.as_str());
            line.append(" (frame: ");
            line.append(boolean_text(forward.frame));
            line.append(")");
            line
        },
        None => String::from_str("Forward not found"),
    }
}

} // verus!
