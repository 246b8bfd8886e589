//! The `invoices` command: listing the invoices and showing one.

use crate::api::{InvoiceId, InvoiceStatus, Request};
use crate::text::{decimal, decimal_text, lines_text, natural, natural_text, push_line};
use vstd::prelude::*;
use vstd::string::*;

verus! {

#[derive(Debug)]
pub struct InvoiceArgs {
    pub command: Command,
}

#[derive(Debug)]
pub enum Command {
    List(ListInvoiceArgs),
    Get(GetInvoiceArgs),
}

#[derive(Debug)]
pub struct ListInvoiceArgs {
    /// Filters the listing on the given status.
    pub status: Option<InvoiceStatusInput>,
}

#[derive(Debug)]
pub struct GetInvoiceArgs {
    pub id: InvoiceId,
}

#[derive(Clone, Copy, Debug, PartialEq, Eq, Structural)]
pub enum InvoiceStatusInput {
    Unpaid,
    Paid,
    Settled,
}

/// An invoice as the registrar describes it. Kind, amount, status and dates
/// are held as the text that they are shown with.
#[derive(Debug)]
pub struct Invoice {
    pub id: InvoiceId,
    pub kind: String,
    pub amount: String,
    pub currency: String,
    pub status: String,
    pub issued_date: String,
    pub due_date: Option<String>,
    pub paid_date: Option<String>,
    pub url: String,
}

pub open spec fn status_of(input: InvoiceStatusInput) -> InvoiceStatus {
    match input {
        InvoiceStatusInput::Paid => InvoiceStatus::Paid,
        InvoiceStatusInput::Settled => InvoiceStatus::Settled,
        InvoiceStatusInput::Unpaid => InvoiceStatus::Unpaid,
    }
}

pub fn map_status(input: &InvoiceStatusInput) -> (status: InvoiceStatus)
    ensures
        status == status_of(*input),
{
    match input {
        InvoiceStatusInput::Paid => InvoiceStatus::Paid,
        InvoiceStatusInput::Settled => InvoiceStatus::Settled,
        InvoiceStatusInput::Unpaid => InvoiceStatus::Unpaid,
    }
}

/// The request that the command leads to.
pub open spec fn request_for(args: InvoiceArgs) -> Request {
    match args.command {
        Command::List(ListInvoiceArgs { status: Some(status) }) => Request::ListInvoicesWithStatus {
            status: status_of(status),
        },
        Command::List(ListInvoiceArgs { status: None }) => Request::ListInvoices,
        Command::Get(get) => Request::GetInvoice { id: get.id },
    }
}

pub fn handle_invoices(args: &InvoiceArgs) -> (request: Request)
    ensures
        request == request_for(*args),
{
    match &args.command {
        Command::List(list) => match &list.status {
            Some(status) => Request::ListInvoicesWithStatus { status: map_status(status) },
            None => Request::ListInvoices,
        },
        Command::Get(get) => Request::GetInvoice { id: get.id },
    }
}

/// One invoice of a listing.
pub open spec fn invoice_row(invoice: Invoice) -> Seq<char> {
    decimal(invoice.id as int) + ": "@ + invoice.amount@ + " "@ + invoice.currency@ + " ("@
        + invoice.status@ + ")"@
}

/// The lines of the invoices of a listing: each is followed by an empty line.
pub open spec fn invoice_rows(invoices: Seq<Invoice>) -> Seq<Seq<char>>
    decreases invoices.len(),
{
    if invoices.len() == 0 {
        Seq::empty()
    } else {
        invoice_rows(invoices.drop_last()).push(invoice_row(invoices.last())).push(
            Seq::empty(),
        )
    }
}

/// A listing: how many invoices there are and an empty line, then the
/// invoices.
pub open spec fn listing_lines(invoices: Seq<Invoice>) -> Seq<Seq<char>> {
    seq!["Got "@ + natural(invoices.len() as int) + " invoices."@, Seq::empty()] + invoice_rows(
        invoices,
    )
}

pub fn list_invoices(invoices: &Vec<Invoice>) -> (lines: Vec<String>)
    ensures
        lines_text(lines@) == listing_lines(invoices@),
{
    let mut lines: Vec<String> = Vec::new();
    let mut header = String::from_str("Got ");
    header.append(natural_text(invoices.len() as u64).as_str());
    header.append(" invoices.");
    push_line(&mut lines, header);
    push_line(&mut lines, String::new());
    let ghost head = lines_text(lines@);
    assert(head =~= seq![
        "Got "@ + natural(invoices.len() as int) + " invoices."@,
        Seq::<char>::empty(),
    ]);
    assert(lines_text(lines@) =~= head + invoice_rows(invoices@.take(0)));
    let mut i: usize = 0;
    while i < invoices.len()
        invariant
            i <= invoices.len(),
            lines_text(lines@) == head + invoice_rows(invoices@.take(i as int)),
        decreases invoices.len() - i,
    {
        let invoice = &invoices[i];
        let mut row = decimal_text(invoice.id);
        row.append(": ");
        row.append(invoice.amount.as_str());
        row.append(" ");
        row.append(invoice.currency.as_str());
        row.append(" (");
        row.append(invoice.status.as_str());
        row.append(")");
        push_line(&mut lines, row);
        push_line(&mut lines, String::new());
        assert(invoices@.take(i + 1).drop_last() =~= invoices@.take(i as int));
        assert(lines_text(lines@) =~= head + invoice_rows(invoices@.take(i + 1)));
        i += 1;
    }
    assert(invoices@.take(i as int) =~= invoices@);
    lines
}

pub open spec fn optional_date(label: Seq<char>, date: Option<String>) -> Seq<Seq<char>> {
    match date {
        Some(date) => seq![label + date@],
        None => Seq::empty(),
    }
}

/// Everything that is shown of one invoice, line by line.
pub open spec fn invoice_lines(invoice: Invoice) -> Seq<Seq<char>> {
    seq![
        "Id: "@ + decimal(invoice.id as int),
        "Type: "@ + invoice.kind@,
        "Amount: "@ + invoice.amount@ + " "@ + invoice.currency@,
        "Status: "@ + invoice.status@,
        "Issued at "@ + invoice.issued_date@,
    ] + optional_date("Due at "@, invoice.due_date) + optional_date("Paid at "@, invoice.paid_date)
        + seq!["Url: "@ + invoice.url@]
}

pub fn print_invoice(invoice: &Invoice) -> (lines: Vec<String>)
    ensures
        lines_text(lines@) == invoice_lines(*invoice),
{
    let mut lines: Vec<String> = Vec::new();
    push_line(&mut lines, String::from_str("Id: ").concat(decimal_text(invoice.id).as_str()));
    push_line(&mut lines, String::from_str("Type: ").concat(invoice.kind.as_str()));
    let mut amount = String::from_str("Amount: ");
    amount.append(invoice.amount.as_str());
    amount.append(" ");
    amount.append(invoice.currency.as_str());
    push_line(&mut lines, amount);
    push_line(&mut lines, String::from_str("Status: ").concat(invoice.status.as_str()));
    push_line(&mut lines, String::from_str("Issued at ").concat(invoice.issued_date.as_str()));
    match &invoice.due_date {
        Some(date) => {
            push_line(&mut lines, String::from_str("Due at ").concat(date.as_str()));
        },
        None => {},
    }
    match &invoice.paid_date {
        Some(date) => {
            push_line(&mut lines, String::from_str("Paid at ").concat(date.as_str()));
        },
        None => {},
    }
    push_line(&mut lines, String::from_str("Url: ").concat(invoice.url.as_str()));
    assert(lines_text(lines@) =~= invoice_lines(*invoice));
    lines
}

/// What is shown for the invoice `id`: its lines, or that there is none.
pub open spec fn found_lines(id: InvoiceId, found: Option<Invoice>) -> Seq<Seq<char>> {
    match found {
        Some(invoice) => invoice_lines(invoice),
        None => seq!["Invoice "@ + decimal(id as int) + " not found"@],
    }
}

pub fn get_invoice(id: InvoiceId, found: &Option<Invoice>) -> (lines: Vec<String>)
    ensures
        lines_text(lines@) == found_lines(id, *found),
{
    match found {
        Some(invoice) => print_invoice(invoice),
        None => {
            let mut lines: Vec<String> = Vec::new();
            let mut line = String::from_str("Invoice ");
            line.append(decimal_text(id).as_str());
            line.append(" not found");
            push_line(&mut lines, line);
            assert(lines_text(lines@) =~= found_lines(id, *found));
            lines
        },
    }
}

} // verus!
