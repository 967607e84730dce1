//! Chunked-download progress accounting.
//!
//! A download knows its total size up front (from the remote
//! `Content-Length`); each received chunk advances the downloaded byte
//! count, which never exceeds the total, and yields a progress snapshot
//! whose percentage is exact integer arithmetic (floor of
//! `downloaded * 100 / total`).

use crate::scrape::{first_attr_of, prepend_with_format, select_first_attr, spec_normalize_href};
use crate::status::{is_success_status, status_is_success};
use vstd::arithmetic::div_mod::{lemma_div_is_ordered, lemma_div_multiples_vanish};
use vstd::arithmetic::mul::lemma_mul_inequality;
use vstd::prelude::*;

verus! {

/// Why one download failed; the failure is terminal for that one
/// download and is never retried automatically.
#[derive(Clone, Debug, PartialEq, Eq)]
pub enum DownloadError {
    /// The landing page held no recognizable link to the asset.
    AssetLinkNotFound,
    /// A fetch came back with a non-2xx status.
    HttpStatus(u16),
    /// The asset response carried no Content-Length, so progress
    /// cannot be computed and the download does not proceed.
    SizeUnknown,
    /// An I/O failure while reading the body or writing the file.
    Io(String),
}

/// The structural selector for the asset link on a landing page; the
/// exact path is treated as configuration, this is the current one.
pub fn default_asset_selector() -> (r: &'static str)
    ensures
        r@ == "#adsbox > a:nth-child(1)"@,
{
    "#adsbox > a:nth-child(1)"
}

/// Resolve the true downloadable link out of a fetched landing page:
/// a non-2xx fetch fails with its status, a page without the asset
/// anchor fails with `AssetLinkNotFound`. The resolver absolutizes
/// the extracted link rather than returning the raw attribute: a
/// protocol-relative href gains `https:`, a site-relative one the
/// site origin, so the result can be fetched as it stands.
pub fn resolve_asset_href(status: u16, body: &str, selector: &str) -> (r: Result<
    String,
    DownloadError,
>)
    ensures
        match r {
            Ok(h) => is_success_status(status) && match first_attr_of(body@, selector@, "href"@) {
                Some(raw) => h@ == spec_normalize_href(raw),
                None => false,
            },
            Err(DownloadError::HttpStatus(c)) => c == status && !is_success_status(status),
            Err(DownloadError::AssetLinkNotFound) => is_success_status(status) && first_attr_of(
                body@,
                selector@,
                "href"@,
            ) is None,
            Err(_) => false,
        },
{
    if !status_is_success(status) {
        return Err(DownloadError::HttpStatus(status));
    }
    match select_first_attr(body, selector, "href") {
        Some(raw) => Ok(prepend_with_format(raw)),
        None => Err(DownloadError::AssetLinkNotFound),
    }
}

/// Gate for the asset response before any byte is streamed: a non-2xx
/// status fails with that status; a success response without a
/// Content-Length fails with `SizeUnknown`, since progress could not
/// be computed; otherwise the announced total size comes back.
pub fn validate_stream_response(status: u16, content_length: Option<u64>) -> (r: Result<
    u64,
    DownloadError,
>)
    ensures
        match r {
            Ok(n) => is_success_status(status) && content_length == Some(n),
            Err(DownloadError::HttpStatus(c)) => c == status && !is_success_status(status),
            Err(DownloadError::SizeUnknown) => is_success_status(status) && content_length
                is None,
            Err(_) => false,
        },
{
    if !status_is_success(status) {
        return Err(DownloadError::HttpStatus(status));
    }
    match content_length {
        Some(n) => Ok(n),
        None => Err(DownloadError::SizeUnknown),
    }
}

/// One progress snapshot, emitted after each received chunk.
#[derive(Clone, Copy, Debug, PartialEq, Eq, Structural)]
pub struct ProgressMetrics {
    /// Total size of the remote resource in bytes.
    pub total_size: u64,
    /// Bytes written so far; never exceeds `total_size`.
    pub downloaded_size: u64,
    /// Whole-percent progress: the floor of `downloaded_size * 100 / total_size`.
    pub percentage: u64,
}

/// The percentage reported after `downloaded` of `total` bytes.
pub open spec fn percent_of(downloaded: u64, total: u64) -> int
    recommends
        total > 0,
{
    downloaded * 100 / (total as int)
}

/// Progress percentages never exceed 100 and never decrease as bytes
/// accumulate.
pub proof fn lemma_percent_monotonic_bounded(d1: u64, d2: u64, total: u64)
    requires
        total > 0,
        d1 <= d2 <= total,
    ensures
        percent_of(d1, total) <= percent_of(d2, total) <= 100,
{
    lemma_mul_inequality(d1 as int, d2 as int, 100);
    lemma_div_is_ordered(d1 * 100, d2 * 100, total as int);
    lemma_mul_inequality(d2 as int, total as int, 100);
    lemma_div_is_ordered(d2 * 100, total * 100, total as int);
    lemma_div_multiples_vanish(100, total as int);
}

/// A download that has reached its total size reports exactly 100.
pub proof fn lemma_percent_complete(total: u64)
    requires
        total > 0,
    ensures
        percent_of(total, total) == 100,
{
    lemma_div_multiples_vanish(100, total as int);
}

/// Where one download stands, as reported to a listener.
#[derive(Clone, Debug)]
pub enum DownloadState {
    /// Waiting to start.
    Pending,
    /// In flight, with the latest progress snapshot.
    Downloading(ProgressMetrics),
    /// The whole byte stream was written.
    Completed,
    /// Terminally failed, with a description.
    Failed(String),
}

/// Tracks one in-flight download: its fixed total size and the bytes
/// received so far.
pub struct DownloadManager {
    active: bool,
    total_size: u64,
    downloaded_size: u64,
}

impl DownloadManager {
    /// Whether a download has been started on this manager.
    pub closed spec fn is_active(self) -> bool {
        self.active
    }

    /// The total size recorded at `start_download`.
    pub closed spec fn total(self) -> u64 {
        self.total_size
    }

    /// Bytes recorded so far.
    pub closed spec fn downloaded(self) -> u64 {
        self.downloaded_size
    }

    /// The byte count never runs past the announced total.
    pub closed spec fn inv(self) -> bool {
        self.downloaded_size <= self.total_size
    }

    pub fn new() -> (r: Self)
        ensures
            !r.is_active(),
            r.inv(),
    {
        DownloadManager { active: false, total_size: 0, downloaded_size: 0 }
    }

    /// Begin a download of `total_size` bytes; progress restarts at zero.
    pub fn start_download(&mut self, total_size: u64)
        ensures
            final(self).is_active(),
            final(self).total() == total_size,
            final(self).downloaded() == 0,
            final(self).inv(),
    {
        self.active = true;
        self.total_size = total_size;
        self.downloaded_size = 0;
    }

    /// The snapshot for `downloaded` out of `total` bytes.
    pub fn calculate_metrics(&self, downloaded: u64, total: u64) -> (m: ProgressMetrics)
        requires
            total > 0,
            downloaded <= total,
        ensures
            m.total_size == total,
            m.downloaded_size == downloaded,
            m.percentage == percent_of(downloaded, total),
            m.percentage <= 100,
    {
        proof {
            lemma_percent_monotonic_bounded(downloaded, downloaded, total);
        }
        let percentage: u64 = ((downloaded as u128 * 100) / (total as u128)) as u64;
        ProgressMetrics { total_size: total, downloaded_size: downloaded, percentage }
    }

    /// Account for one received chunk and produce the snapshot to emit.
    pub fn record_chunk(&mut self, chunk_len: u64) -> (m: ProgressMetrics)
        requires
            old(self).is_active(),
            old(self).inv(),
            chunk_len > 0,
            old(self).downloaded() + chunk_len <= old(self).total(),
        ensures
            final(self).is_active(),
            final(self).inv(),
            final(self).total() == old(self).total(),
            final(self).downloaded() == old(self).downloaded() + chunk_len,
            m.total_size == old(self).total(),
            m.downloaded_size == final(self).downloaded(),
            m.percentage == percent_of(final(self).downloaded(), final(self).total()),
            m.percentage <= 100,
            percent_of(old(self).downloaded(), old(self).total()) <= m.percentage,
    {
        proof {
            lemma_percent_monotonic_bounded(
                self.downloaded_size,
                (self.downloaded_size + chunk_len) as u64,
                self.total_size,
            );
        }
        self.downloaded_size = self.downloaded_size + chunk_len;
        self.calculate_metrics(self.downloaded_size, self.total_size)
    }
}

} // verus!
