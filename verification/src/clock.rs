//! The wall clock, as far as the library needs it.

use vstd::prelude::*;

verus! {

/// Calls `chrono::Utc::now` and renders the instant with its `Display`.
///
/// Nothing is promised of the text: it depends on when the call is made.
/// The call itself panics on a machine whose clock stands before 1970.
#[verifier::external_body]
pub(crate) fn utc_timestamp() -> (text: String) {
    chrono::Utc::now().to_string()
}

} // verus!
