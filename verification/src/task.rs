//! The persisted task record: one discovered gallery page and its
//! scraped metadata.

use vstd::prelude::*;

verus! {

/// One discovered task: the validated source page URL (the unique
/// key), the scraped title and thumbnail, and the normalized link to
/// the page that hosts the downloadable asset (empty if unresolved).
#[derive(Clone, Debug, PartialEq, Eq)]
pub struct ClipboardPayload {
    pub url: String,
    pub title: String,
    pub image: String,
    pub download_page_href: String,
}

impl View for ClipboardPayload {
    type V = (Seq<char>, Seq<char>, Seq<char>, Seq<char>);

    open spec fn view(&self) -> Self::V {
        (self.url@, self.title@, self.image@, self.download_page_href@)
    }
}

} // verus!
