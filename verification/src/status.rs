//! HTTP status-code classification shared by the scraper and the
//! download engine.

use vstd::prelude::*;

verus! {

/// The 2xx range: the request succeeded.
pub open spec fn is_success_status(code: u16) -> bool {
    200 <= code < 300
}

/// Decides `is_success_status` for a concrete code.
pub fn status_is_success(code: u16) -> (r: bool)
    ensures
        r == is_success_status(code),
{
    200 <= code && code < 300
}

/// The availability pre-check decision: a resource counts as available
/// exactly when the HEAD request came back with a success status; a
/// failed HEAD (no status at all) counts as "not available" rather
/// than as an error.
pub fn check_file_available(head_status: Option<u16>) -> (r: bool)
    ensures
        r == match head_status {
            Some(code) => is_success_status(code),
            None => false,
        },
{
    match head_status {
        Some(code) => status_is_success(code),
        None => false,
    }
}

} // verus!
