//! The fixed file names under the data and log directories.

use vstd::prelude::*;

verus! {

pub const CREDENTIALS_FILENAME: &'static str = "credentials.json";

pub const LAST_IP_FILENAME: &'static str = "last_ip.txt";

pub const DYNDNS_EXECUTION_LOG_FILENAME: &'static str = "dyndns_execution.log";

pub const LOG_FILENAME: &'static str = "domeneshop_cli.log";

} // verus!
