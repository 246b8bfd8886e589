//! Why a command fails. Each failure ends the command; none is retried.

use vstd::prelude::*;
use vstd::string::*;

verus! {

/// The calls of the registrar's API, as a failure names them.
#[derive(Clone, Copy, Debug, PartialEq, Eq, Structural)]
pub enum Operation {
    ListDomains,
    GetDomain,
    ListDns,
    GetDns,
    ListForwards,
    GetForward,
    ListInvoices,
    GetInvoice,
    UpdateDyndns,
}

/// What is wrong with the credentials file.
#[derive(Clone, Copy, Debug, PartialEq, Eq, Structural)]
pub enum CredentialsProblem {
    /// The file is absent or could not be read.
    Unreadable,
    /// The file does not hold a token and a secret.
    Malformed,
}

#[derive(Debug)]
pub enum Failure {
    /// No credentials among the arguments and none to be had from the file.
    CredentialsUnavailable { problem: CredentialsProblem, error: String },
    /// The registrar's client did not accept the credentials.
    ClientConstructionFailed { error: String },
    /// The `--domain` argument names no domain.
    DomainResolutionFailed,
    /// A call of the registrar's API came back with an error.
    ApiCallFailed { operation: Operation, error: String },
    /// The public address could not be found out.
    IpResolutionFailed,
}

impl Operation {
    /// What is said to have failed.
    pub open spec fn text(self) -> Seq<char> {
        match self {
            Operation::ListDomains => "Failed to list domains"@,
            Operation::GetDomain => "Failed to get domain"@,
            Operation::ListDns => "Failed to list dns"@,
            Operation::GetDns => "Failed to get dns"@,
            Operation::ListForwards => "Failed to list forwards"@,
            Operation::GetForward => "Failed to get forward"@,
            Operation::ListInvoices => "Failed to list invoices"@,
            Operation::GetInvoice => "Failed to get invoice"@,
            Operation::UpdateDyndns => "Error while updating dns settings"@,
        }
    }

    pub fn description(&self) -> (text: &'static str)
        ensures
            text@ == self.text(),
    {
        match self {
            Operation::ListDomains => "Failed to list domains",
            Operation::GetDomain => "Failed to get domain",
            Operation::ListDns => "Failed to list dns",
            Operation::GetDns => "Failed to get dns",
            Operation::ListForwards => "Failed to list forwards",
            Operation::GetForward => "Failed to get forward",
            Operation::ListInvoices => "Failed to list invoices",
            Operation::GetInvoice => "Failed to get invoice",
            Operation::UpdateDyndns => "Error while updating dns settings",
        }
    }
}

impl CredentialsProblem {
    pub open spec fn text(self) -> Seq<char> {
        match self {
            CredentialsProblem::Unreadable => "Could not find credentials-file"@,
            CredentialsProblem::Malformed => "Error deserializing credentials"@,
        }
    }

    pub fn description(&self) -> (text: &'static str)
        ensures
            text@ == self.text(),
    {
        match self {
            CredentialsProblem::Unreadable => "Could not find credentials-file",
            CredentialsProblem::Malformed => "Error deserializing credentials",
        }
    }
}

/// What failed, then the error behind it.
pub open spec fn failure_text(text: Seq<char>, error: Seq<char>) -> Seq<char> {
    text + ": "@ + error
}

/// The message of a failure that has an error behind it.
pub fn failure_message(text: &str, error: &str) -> (message: String)
    ensures
        message@ == failure_text(text@, error@),
{
    let mut message = String::from_str(text);
    message.append(": ");
    message.append(error);
    message
}

impl Failure {
    /// What the user is told.
    pub open spec fn message_text(self) -> Seq<char> {
        match self {
            Failure::CredentialsUnavailable { problem, error } => failure_text(
                problem.text(),
                error@,
            ),
            Failure::ClientConstructionFailed { error } => failure_text(
                "Failed to create domeneshop client"@,
                error@,
            ),
            Failure::DomainResolutionFailed => "Could not resolve --domain input to a domain"@,
            Failure::ApiCallFailed { operation, error } => failure_text(operation.text(), error@),
            Failure::IpResolutionFailed => "Unable to resolve ip"@,
        }
    }

    pub fn message(&self) -> (message: String)
        ensures
            message@ == self.message_text(),
    {
        match self {
            Failure::CredentialsUnavailable { problem, error } => failure_message(
                problem.description(),
                error.as_str(),
            ),
            Failure::ClientConstructionFailed { error } => failure_message(
                "Failed to create domeneshop client",
                error.as_str(),
            ),
            Failure::DomainResolutionFailed => String::from_str(
                "Could not resolve --domain input to a domain",
            ),
            Failure::ApiCallFailed { operation, error } => failure_message(
                operation.description(),
                error.as_str(),
            ),
            Failure::IpResolutionFailed => String::from_str("Unable to resolve ip"),
        }
    }
}

} // verus!
