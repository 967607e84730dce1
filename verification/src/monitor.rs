//! The clipboard monitor's decisions.
//!
//! The poll loop itself (clipboard reads, timers, spawning) lives
//! outside the library; what is verified here is every decision it
//! makes: when a poll result counts as a change, which changes are
//! accepted, and what one accepted URL's scrape outcome does to the
//! store and to the listener.

use crate::scrape::ScrapeError;
use crate::store::{spec_insert, TaskStore};
use crate::task::ClipboardPayload;
use crate::text::str_eq;
use crate::url_match::{accepted_url, is_valid_wnacg_url, url_serialized};
use vstd::prelude::*;

verus! {

/// The fixed poll interval between clipboard reads, in milliseconds.
pub const MONITOR_INTERVAL_MS: u64 = 500;

/// The monitor's only state: the last clipboard content it saw,
/// compared by exact equality against each new poll result.
pub struct ClipboardState {
    last_seen_content: String,
}

impl ClipboardState {
    /// The content remembered from the previous poll tick.
    pub closed spec fn last_seen(&self) -> Seq<char> {
        self.last_seen_content@
    }

    /// A fresh monitor that has seen nothing yet.
    pub fn new() -> (r: Self)
        ensures
            r.last_seen() == Seq::<char>::empty(),
    {
        ClipboardState { last_seen_content: String::new() }
    }

    /// One poll tick: remember `content`, and hand back the canonical
    /// URL exactly when the content changed since the previous tick
    /// and validates. Unchanged content triggers nothing, even if it
    /// would validate; an invalid change is silently swallowed.
    pub fn observe(&mut self, content: String) -> (r: Option<String>)
        ensures
            final(self).last_seen() == content@,
            match r {
                Some(u) => content@ != old(self).last_seen() && accepted_url(content@) && u@
                    == url_serialized(content@),
                None => content@ == old(self).last_seen() || !accepted_url(content@),
            },
    {
        let changed = !str_eq(content.as_str(), self.last_seen_content.as_str());
        if !changed {
            self.last_seen_content = content;
            return None;
        }
        let r = is_valid_wnacg_url(content.as_str());
        self.last_seen_content = content;
        match r {
            Ok(u) => Some(u),
            Err(_) => None,
        }
    }
}

/// The tail of one accepted URL's pipeline: persist a successfully
/// scraped task and hand it back for the "new task" notification. A
/// scrape failure, or a store failure, persists nothing and notifies
/// nothing; either is terminal for this one URL only.
pub fn handle_scrape_outcome(
    store: &mut TaskStore,
    outcome: Result<ClipboardPayload, ScrapeError>,
) -> (notify: Option<ClipboardPayload>)
    requires
        old(store).inv(),
    ensures
        final(store).inv(),
        match outcome {
            Ok(p) => match notify {
                Some(q) => q == p && final(store)@ == spec_insert(old(store)@, p@),
                None => final(store)@ == old(store)@,
            },
            Err(_) => notify is None && final(store)@ == old(store)@,
        },
{
    match outcome {
        Ok(p) => match store.insert_task(&p) {
            Ok(()) => Some(p),
            Err(_) => None,
        },
        Err(_) => None,
    }
}

} // verus!
