//! Metadata extraction: turning a fetched gallery page into a task
//! record.
//!
//! The HTTP fetch itself happens outside this library; these functions
//! take the response status and body as plain values. Each field is
//! extracted independently and falls back to its own placeholder when
//! its element is absent, so a page with missing pieces still yields a
//! task.

use crate::status::{is_success_status, status_is_success};
use crate::task::ClipboardPayload;
use crate::text::{seq_starts_with, str_starts_with};
use vstd::prelude::*;
use vstd::string::StringExecFns;

verus! {

/// Why one scrape attempt failed; the failure is terminal for that one
/// pipeline instance only.
#[derive(Clone, Debug, PartialEq, Eq)]
pub enum ScrapeError {
    /// The page fetch came back with a non-2xx status.
    HttpStatus(u16),
    /// A transport-level failure, with its description.
    Network(String),
}

/// The trimmed text content of the first element of `html` matched by
/// `selector`, if any.
pub uninterp spec fn first_text_of(html: Seq<char>, selector: Seq<char>) -> Option<Seq<char>>;

/// The value of attribute `attr` on the first element of `html`
/// matched by `selector`, if any.
pub uninterp spec fn first_attr_of(html: Seq<char>, selector: Seq<char>, attr: Seq<char>) -> Option<
    Seq<char>,
>;

/// Relies on `scraper::Html::parse_document`, `scraper::Selector::parse`
/// and `Html::select`: the first match and its text content are a pure
/// function of the markup and the selector. The text is
/// whitespace-trimmed; an unparsable selector matches nothing.
#[verifier::external_body]
fn select_first_text(html: &str, selector: &str) -> (r: Option<String>)
    ensures
        r is Some <==> first_text_of(html@, selector@) is Some,
        match r {
            Some(t) => first_text_of(html@, selector@) == Some(t@),
            None => true,
        },
{
    let document = scraper::Html::parse_document(html);
    let parsed = match scraper::Selector::parse(selector) {
        Ok(s) => s,
        Err(_) => return None,
    };
    document.select(&parsed).next().map(|element| {
        element.text().collect::<String>().trim().to_string()
    })
}

/// Relies on `scraper::Html::parse_document`, `scraper::Selector::parse`,
/// `Html::select` and `ElementRef::attr`: the attribute value of the
/// first match is a pure function of the markup, the selector and the
/// attribute name; an unparsable selector matches nothing.
#[verifier::external_body]
pub(crate) fn select_first_attr(html: &str, selector: &str, attr: &str) -> (r: Option<String>)
    ensures
        r is Some <==> first_attr_of(html@, selector@, attr@) is Some,
        match r {
            Some(v) => first_attr_of(html@, selector@, attr@) == Some(v@),
            None => true,
        },
{
    let document = scraper::Html::parse_document(html);
    let parsed = match scraper::Selector::parse(selector) {
        Ok(s) => s,
        Err(_) => return None,
    };
    document.select(&parsed).next().and_then(|element| element.attr(attr)).map(|v| v.to_string())
}

/// An extracted href made absolute: already-absolute links stay as
/// they are, protocol-relative links gain `https:`, site-relative
/// links gain the site origin, anything else is left alone.
pub open spec fn spec_normalize_href(h: Seq<char>) -> Seq<char> {
    if seq_starts_with(h, "http"@) {
        h
    } else if seq_starts_with(h, "//"@) {
        "https:"@ + h
    } else if seq_starts_with(h, "/"@) {
        "https://www.wnacg.com"@ + h
    } else {
        h
    }
}

/// Prefix an extracted href with whatever its form still lacks, per
/// `spec_normalize_href`: only protocol-relative links gain `https:`
/// and only site-relative links gain the fixed site origin;
/// already-absolute links and anything else are left alone.
pub fn prepend_with_format(original_url: String) -> (r: String)
    ensures
        r@ == spec_normalize_href(original_url@),
{
    if str_starts_with(original_url.as_str(), "http") {
        original_url
    } else if str_starts_with(original_url.as_str(), "//") {
        String::from_str("https:").concat(original_url.as_str())
    } else if str_starts_with(original_url.as_str(), "/") {
        String::from_str("https://www.wnacg.com").concat(original_url.as_str())
    } else {
        original_url
    }
}

/// The scraped title: the first heading under the content wrapper, or
/// the placeholder when absent.
pub open spec fn spec_title_of(html: Seq<char>) -> Seq<char> {
    match first_text_of(html, "#bodywrap > h2"@) {
        Some(t) => t,
        None => "<title not found>"@,
    }
}

/// The scraped thumbnail source, or the placeholder when absent.
pub open spec fn spec_image_of(html: Seq<char>) -> Seq<char> {
    match first_attr_of(
        html,
        "#bodywrap > div.grid > div > ul > li:nth-child(1) > div.pic_box.tb > a > img"@,
        "src"@,
    ) {
        Some(s) => s,
        None => "placeholder.png"@,
    }
}

/// The normalized link to the asset page, or the empty string when
/// absent.
pub open spec fn spec_asset_href_of(html: Seq<char>) -> Seq<char> {
    match first_attr_of(html, "#ads > a"@, "href"@) {
        Some(h) => spec_normalize_href(h),
        None => Seq::<char>::empty(),
    }
}

/// Extract the three metadata fields from a fetched page body, each
/// independently defaulted when its element is absent.
pub fn payload_from_html(url: String, html: &str) -> (p: ClipboardPayload)
    ensures
        p.url@ == url@,
        p.title@ == spec_title_of(html@),
        p.image@ == spec_image_of(html@),
        p.download_page_href@ == spec_asset_href_of(html@),
{
    let title = match select_first_text(html, "#bodywrap > h2") {
        Some(t) => t,
        None => String::from_str("<title not found>"),
    };
    let image = match select_first_attr(
        html,
        "#bodywrap > div.grid > div > ul > li:nth-child(1) > div.pic_box.tb > a > img",
        "src",
    ) {
        Some(s) => s,
        None => String::from_str("placeholder.png"),
    };
    let download_page_href = match select_first_attr(html, "#ads > a", "href") {
        Some(h) => prepend_with_format(h),
        None => String::new(),
    };
    ClipboardPayload { url, title, image, download_page_href }
}

/// Turn one fetched response into a task record: a non-2xx status is
/// the only scrape-level failure; on success every metadata field is
/// extracted independently with its placeholder default.
pub fn payload_from_response(url: String, status: u16, body: &str) -> (r: Result<
    ClipboardPayload,
    ScrapeError,
>)
    ensures
        r is Ok <==> is_success_status(status),
        match r {
            Ok(p) => {
                &&& p.url@ == url@
                &&& p.title@ == spec_title_of(body@)
                &&& p.image@ == spec_image_of(body@)
                &&& p.download_page_href@ == spec_asset_href_of(body@)
            },
            Err(e) => e == ScrapeError::HttpStatus(status),
        },
{
    if !status_is_success(status) {
        return Err(ScrapeError::HttpStatus(status));
    }
    Ok(payload_from_html(url, body))
}

} // verus!
