//! The decisions of a command-line client for a domain registrar's API:
//! which call a command leads to, how a `--domain` argument becomes an
//! identifier, where the credentials come from, what is shown of an answer,
//! and, above all, when a dynamic DNS run publishes the public address.
//!
//! Nothing here touches the network or the file system. A program around
//! the library performs what it asks for and hands back what came of it;
//! every function says in its contract what it returns for what it is given.

use crate::api::{DomainId, Request};
use crate::commands::dns::DnsArgs;
use crate::commands::domain::DomainArgs;
use crate::commands::dyndns::Reconciliation;
use crate::commands::forwards::ForwardArgs;
use crate::commands::invoices::InvoiceArgs;
use crate::constants::LOG_FILENAME;
use crate::domain_lookup::DomainIdOrHost;
use crate::failure::Failure;
use crate::paths::{path_from, path_of};
use std::path::PathBuf;
use vstd::prelude::*;
use vstd::string::*;

pub mod address;
pub mod api;
pub mod client;
pub mod clock;
pub mod commands;
pub mod constants;
pub mod domain_lookup;
pub mod failure;
pub mod paths;
pub mod text;

verus! {

/// The commands of the program.
#[derive(Debug)]
pub enum Command {
    Dyndns(commands::dyndns::Command),
    Domains(DomainArgs),
    Invoices(InvoiceArgs),
    Dns(DnsArgs),
    Forwards(ForwardArgs),
}

#[derive(Debug)]
pub struct Args {
    pub command: Command,
    pub global_opts: GlobalOpts,
}

/// What a command needs done.
#[derive(Debug)]
pub enum Plan {
    /// One call of the registrar's API, whose answer is shown.
    Call(Request),
    /// A run of the dynamic DNS reconciler, from this state on.
    Reconcile(Reconciliation),
}

impl Command {
    /// The `--domain` argument of the commands that work on one domain; it
    /// has to be resolved to an identifier before such a command can run.
    pub open spec fn domain_argument(self) -> Option<DomainIdOrHost> {
        match self {
            Command::Dns(args) => Some(args.domain),
            Command::Forwards(args) => Some(args.domain),
            _ => None,
        }
    }

    pub fn domain_input(&self) -> (input: Option<&DomainIdOrHost>)
        ensures
            match self.domain_argument() {
                Some(domain) => input == Some(&domain),
                None => input is None,
            },
    {
        match self {
            Command::Dns(args) => Some(&args.domain),
            Command::Forwards(args) => Some(&args.domain),
            _ => None,
        }
    }

    /// What the command needs done, `domain_id` being what its `--domain`
    /// argument was resolved to. A command that works on one domain fails
    /// where that is nothing; the others do not look at it.
    pub open spec fn plan(self, domain_id: Option<DomainId>) -> Result<Plan, Failure> {
        match self {
            Command::Dyndns(command) => Ok(
                Plan::Reconcile(Reconciliation::initial(command.domain)),
            ),
            Command::Domains(args) => Ok(Plan::Call(commands::domain::request_for(args))),
            Command::Invoices(args) => Ok(Plan::Call(commands::invoices::request_for(args))),
            Command::Dns(args) => match domain_id {
                Some(id) => Ok(Plan::Call(commands::dns::request_for(args, id))),
                None => Err(Failure::DomainResolutionFailed),
            },
            Command::Forwards(args) => match domain_id {
                Some(id) => Ok(Plan::Call(commands::forwards::request_for(args, id))),
                None => Err(Failure::DomainResolutionFailed),
            },
        }
    }
}

/// Decides what the command of `args` needs done, or why it fails.
pub fn run_command(args: &Args, domain_id: Option<DomainId>) -> (plan: Result<Plan, Failure>)
    ensures
        plan == args.command.plan(domain_id),
{
    match &args.command {
        Command::Dyndns(command) => Ok(Plan::Reconcile(commands::dyndns::handle_dyndns(command))),
        Command::Domains(domain_args) => Ok(
            Plan::Call(commands::domain::handle_domains(domain_args)),
        ),
        Command::Invoices(invoice_args) => Ok(
            Plan::Call(commands::invoices::handle_invoices(invoice_args)),
        ),
        Command::Dns(dns_args) => match commands::dns::handle_dns(dns_args, domain_id) {
            Ok(request) => Ok(Plan::Call(request)),
            Err(failure) => Err(failure),
        },
        Command::Forwards(forward_args) => match commands::forwards::handle_forwards(
            forward_args,
            domain_id,
        ) {
            Ok(request) => Ok(Plan::Call(request)),
            Err(failure) => Err(failure),
        },
    }
}

/// The options that every command takes.
#[derive(Debug)]
pub struct GlobalOpts {
    pub token: Option<String>,
    pub secret: Option<String>,
    pub debug: bool,
    pub data_directory: Option<String>,
    pub log_directory: Option<String>,
}

#[derive(Clone, Copy, Debug, PartialEq, Eq, Structural)]
pub enum LogLevel {
    Debug,
    Info,
}

/// How the program's log is set up, handed to whatever writes the log.
#[derive(Debug)]
pub struct LogSettings {
    pub path: String,
    pub size: u64,
    pub roll_count: u32,
    pub level: LogLevel,
    pub output_file: bool,
    pub output_console: bool,
}

/// The directory that the log goes to: the one of the arguments, else the
/// current directory.
pub open spec fn log_directory(opts: GlobalOpts, current_dir: Option<&str>) -> Option<Seq<char>> {
    match (opts.log_directory, current_dir) {
        (Some(directory), _) => Some(directory@),
        (None, Some(directory)) => Some(directory@),
        (None, None) => None,
    }
}

impl LogSettings {
    /// The settings for a log under `directory`: a rolling file of ten
    /// parts, with the console beside it and more detail when debugging.
    pub open spec fn matches(self, directory: Seq<char>, debug: bool) -> bool {
        &&& self.path@ == directory + "/"@ + LOG_FILENAME@
        &&& self.size == 100
        &&& self.roll_count == 10
        &&& self.level == if debug {
            LogLevel::Debug
        } else {
            LogLevel::Info
        }
        &&& self.output_file
        &&& self.output_console == debug
    }
}

/// The log settings that the options ask for. There are none only when no
/// directory is given and the current one is unknown.
pub fn initialize_logging(opts: &GlobalOpts, current_dir: Option<&str>) -> (settings: Option<
    LogSettings,
>)
    ensures
        match log_directory(*opts, current_dir) {
            Some(directory) => settings is Some && settings->0.matches(directory, opts.debug),
            None => settings is None,
        },
{
    let mut path = match (&opts.log_directory, current_dir) {
        (Some(directory), _) => directory.clone(),
        (None, Some(directory)) => String::from_str(directory),
        (None, None) => {
            return None;
        },
    };
    path.append("/");
    path.append(LOG_FILENAME);
    Some(
        LogSettings {
            path,
            size: 100,
            roll_count: 10,
            level: if opts.debug {
                LogLevel::Debug
            } else {
                LogLevel::Info
            },
            output_file: true,
            output_console: opts.debug,
        },
    )
}

/// The directory that holds the program's data: the one of the arguments,
/// else the current directory, if there is one.
pub fn get_data_directory(opts: &GlobalOpts, current_dir: Option<PathBuf>) -> (directory: Option<
    PathBuf,
>)
    ensures
        directory == match opts.data_directory {
            Some(given) => Some(path_of(given@)),
            None => current_dir,
        },
{
    match &opts.data_directory {
        Some(given) => Some(path_from(given.as_str())),
        None => current_dir,
    }
}

} // verus!
