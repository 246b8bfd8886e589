//! The credentials of the registrar's API and where they come from.

use crate::constants::CREDENTIALS_FILENAME;
use crate::failure::{CredentialsProblem, Failure};
use crate::paths::{join, joined};
use crate::GlobalOpts;
use std::path::PathBuf;
use vstd::prelude::*;

verus! {

#[derive(Debug)]
pub struct ApiCredentials {
    pub token: String,
    pub secret: String,
}

/// Where the credentials are taken from.
#[derive(Debug)]
pub enum CredentialsSource {
    /// Token and secret were both given as arguments.
    Arguments(ApiCredentials),
    /// They are to be read from this file.
    File(PathBuf),
}

/// What reading the credentials file gave.
#[derive(Debug)]
pub enum CredentialsFile {
    /// The file is absent or unreadable; the text is the error.
    Unreadable(String),
    /// The file does not hold a token and a secret; the text is the error.
    Malformed(String),
    Parsed(ApiCredentials),
}

/// Token and secret of the arguments win over the file whenever both are
/// given; the file is named only where one of them is missing.
pub open spec fn source_of(opts: GlobalOpts, data_dir: PathBuf) -> CredentialsSource {
    match (opts.secret, opts.token) {
        (Some(secret), Some(token)) => CredentialsSource::Arguments(
            ApiCredentials { token, secret },
        ),
        _ => CredentialsSource::File(joined(data_dir, CREDENTIALS_FILENAME@)),
    }
}

pub fn credentials_source(opts: &GlobalOpts, data_dir: &PathBuf) -> (source: CredentialsSource)
    ensures
        source == source_of(*opts, *data_dir),
{
    match (&opts.secret, &opts.token) {
        (Some(secret), Some(token)) => CredentialsSource::Arguments(
            ApiCredentials { token: token.clone(), secret: secret.clone() },
        ),
        _ => CredentialsSource::File(join(data_dir, CREDENTIALS_FILENAME)),
    }
}

impl CredentialsFile {
    /// The credentials in the file, or why there are none.
    pub open spec fn outcome(self) -> Result<ApiCredentials, Failure> {
        match self {
            CredentialsFile::Unreadable(error) => Err(
                Failure::CredentialsUnavailable { problem: CredentialsProblem::Unreadable, error },
            ),
            CredentialsFile::Malformed(error) => Err(
                Failure::CredentialsUnavailable { problem: CredentialsProblem::Malformed, error },
            ),
            CredentialsFile::Parsed(credentials) => Ok(credentials),
        }
    }
}

/// The credentials that the file gave, or the failure that says why there
/// are none.
pub fn credentials_from_file(file: CredentialsFile) -> (found: Result<ApiCredentials, Failure>)
    ensures
        found == file.outcome(),
{
    match file {
        CredentialsFile::Unreadable(error) => Err(
            Failure::CredentialsUnavailable { problem: CredentialsProblem::Unreadable, error },
        ),
        CredentialsFile::Malformed(error) => Err(
            Failure::CredentialsUnavailable { problem: CredentialsProblem::Malformed, error },
        ),
        CredentialsFile::Parsed(credentials) => Ok(credentials),
    }
}

/// The credentials that a start of the program ends up with: those of the
/// source, the file being looked at only where the source names it.
pub open spec fn get_api_credentials(
    opts: GlobalOpts,
    data_dir: PathBuf,
    file: CredentialsFile,
) -> Result<ApiCredentials, Failure> {
    match source_of(opts, data_dir) {
        CredentialsSource::Arguments(credentials) => Ok(credentials),
        CredentialsSource::File(_) => file.outcome(),
    }
}

/// With token and secret both among the arguments, they are the
/// credentials, whatever the credentials file holds and whether or not
/// there is one.
pub proof fn lemma_arguments_take_precedence(
    opts: GlobalOpts,
    data_dir: PathBuf,
    file: CredentialsFile,
    token: String,
    secret: String,
)
    requires
        opts.token == Some(token),
        opts.secret == Some(secret),
    ensures
        source_of(opts, data_dir) == CredentialsSource::Arguments(
            ApiCredentials { token, secret },
        ),
        get_api_credentials(opts, data_dir, file) == Ok::<ApiCredentials, Failure>(
            ApiCredentials { token, secret },
        ),
{
}

} // verus!
