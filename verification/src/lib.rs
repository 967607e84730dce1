//! A clipboard-driven gallery task library: URL validation, metadata
//! scraping, a deduplicated task store, and a chunked download engine
//! with live progress reporting.

pub mod download;
pub mod monitor;
pub mod names;
pub mod scrape;
pub mod status;
pub mod store;
pub mod task;
pub mod text;
pub mod url_match;

use vstd::prelude::*;
use vstd::string::StringExecFns;

verus! {

/// A plain greeting, assembled around the caller's name.
pub fn greet(name: &str) -> (r: String)
    ensures
        r@ == "Hello, "@ + name@ + "! You've been greeted from Rust!"@,
{
    String::from_str("Hello, ").concat(name).concat("! You've been greeted from Rust!")
}

} // verus!
