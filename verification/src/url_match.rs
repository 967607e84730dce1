//! Validation of candidate gallery URLs.
//!
//! A candidate is accepted exactly when it parses as an absolute URL
//! with scheme `https`, host `www.wnacg.com` and a path of the shape
//! `/photos-index-aid-<digits>.html` with at least one digit. The
//! accepted value is the parser's canonical re-serialization, which
//! callers must use for all subsequent requests.

use crate::text::{is_ascii_digit_char, seq_ends_with, seq_starts_with, str_all_digits_in, str_eq,
    str_ends_with, str_starts_with};
use vstd::prelude::*;
use vstd::string::StrSliceExecFns;

verus! {

/// Why a candidate string was rejected, one variant per rule, checked
/// in this order.
#[derive(Clone, Copy, Debug, PartialEq, Eq, Structural)]
pub enum ValidationError {
    /// The string does not parse as an absolute URL.
    NotAUrl,
    /// The scheme is not exactly `https`.
    WrongScheme,
    /// The host is missing or not the fixed domain.
    WrongHost,
    /// The path is not `/photos-index-aid-<digits>.html`.
    WrongPath,
}

/// Whether `url::Url::parse` accepts `s`.
pub uninterp spec fn url_parse_ok(s: Seq<char>) -> bool;

/// The scheme of the URL parsed from `s`.
pub uninterp spec fn url_scheme(s: Seq<char>) -> Seq<char>;

/// The host string of the URL parsed from `s`, if it has one.
pub uninterp spec fn url_host(s: Seq<char>) -> Option<Seq<char>>;

/// The path of the URL parsed from `s`.
pub uninterp spec fn url_path(s: Seq<char>) -> Seq<char>;

/// The canonical re-serialization of the URL parsed from `s`.
pub uninterp spec fn url_serialized(s: Seq<char>) -> Seq<char>;

/// The components of a parsed absolute URL, as plain strings.
pub struct UrlParts {
    pub scheme: String,
    pub host: Option<String>,
    pub path: String,
    pub serialized: String,
}

/// Relies on `url::Url::parse` and its accessors `scheme`, `host_str`,
/// `path` and `as_str`: parsing either fails or yields components that
/// are a pure function of the input text.
#[verifier::external_body]
fn parse_url(s: &str) -> (r: Option<UrlParts>)
    ensures
        r is Some <==> url_parse_ok(s@),
        match r {
            Some(p) => {
                &&& p.scheme@ == url_scheme(s@)
                &&& match p.host {
                    Some(h) => url_host(s@) == Some(h@),
                    None => url_host(s@) is None,
                }
                &&& p.path@ == url_path(s@)
                &&& p.serialized@ == url_serialized(s@)
            },
            None => true,
        },
{
    match url::Url::parse(s) {
        Ok(u) => Some(UrlParts {
            scheme: u.scheme().to_string(),
            host: u.host_str().map(|h| h.to_string()),
            path: u.path().to_string(),
            serialized: u.as_str().to_string(),
        }),
        Err(_) => None,
    }
}

/// The fixed part of the path before the numeric id.
pub open spec fn spec_path_prefix() -> Seq<char> {
    "/photos-index-aid-"@
}

/// The fixed part of the path after the numeric id.
pub open spec fn spec_path_suffix() -> Seq<char> {
    ".html"@
}

/// The path is `/photos-index-aid-<digits>.html` with at least one
/// digit and nothing else between prefix and suffix.
pub open spec fn path_is_valid(p: Seq<char>) -> bool {
    &&& p.len() > spec_path_prefix().len() + spec_path_suffix().len()
    &&& seq_starts_with(p, spec_path_prefix())
    &&& seq_ends_with(p, spec_path_suffix())
    &&& forall|i: int|
        spec_path_prefix().len() <= i < p.len() - spec_path_suffix().len()
            ==> is_ascii_digit_char(#[trigger] p[i])
}

/// A candidate the validator accepts: it parses as an absolute URL
/// with scheme `https`, host `www.wnacg.com`, and a gallery-page path.
pub open spec fn accepted_url(s: Seq<char>) -> bool {
    &&& url_parse_ok(s)
    &&& url_scheme(s) == "https"@
    &&& url_host(s) == Some("www.wnacg.com"@)
    &&& path_is_valid(url_path(s))
}

/// Decides `path_is_valid` for a concrete path.
fn check_path(path: &str) -> (r: bool)
    ensures
        r == path_is_valid(path@),
{
    proof {
        reveal_strlit("/photos-index-aid-");
        reveal_strlit(".html");
    }
    if !str_starts_with(path, "/photos-index-aid-") {
        return false;
    }
    if !str_ends_with(path, ".html") {
        return false;
    }
    let n: usize = path.unicode_len();
    let lp: usize = "/photos-index-aid-".unicode_len();
    let ls: usize = ".html".unicode_len();
    if n <= lp + ls {
        return false;
    }
    str_all_digits_in(path, lp, n - ls)
}

/// Validate a candidate string against the fixed gallery-page URL
/// shape; on success return the canonical re-serialized URL.
///
/// The result is `Ok` exactly when the candidate parses as an absolute
/// URL with scheme `https`, host `www.wnacg.com`, and a path of the
/// form `/photos-index-aid-<digits>.html`; each error names the first
/// rule that failed.
pub fn is_valid_wnacg_url(content: &str) -> (r: Result<String, ValidationError>)
    ensures
        match r {
            Ok(u) => accepted_url(content@) && u@ == url_serialized(content@),
            Err(ValidationError::NotAUrl) => !url_parse_ok(content@),
            Err(ValidationError::WrongScheme) => url_parse_ok(content@) && url_scheme(content@)
                != "https"@,
            Err(ValidationError::WrongHost) => url_parse_ok(content@) && url_scheme(content@)
                == "https"@ && url_host(content@) != Some("www.wnacg.com"@),
            Err(ValidationError::WrongPath) => url_parse_ok(content@) && url_scheme(content@)
                == "https"@ && url_host(content@) == Some("www.wnacg.com"@) && !path_is_valid(
                url_path(content@),
            ),
        },
{
    let parts = match parse_url(content) {
        Some(p) => p,
        None => {
            return Err(ValidationError::NotAUrl);
        },
    };
    if !str_eq(parts.scheme.as_str(), "https") {
        return Err(ValidationError::WrongScheme);
    }
    let host_ok = match &parts.host {
        Some(h) => str_eq(h.as_str(), "www.wnacg.com"),
        None => false,
    };
    if !host_ok {
        return Err(ValidationError::WrongHost);
    }
    if !check_path(parts.path.as_str()) {
        return Err(ValidationError::WrongPath);
    }
    Ok(parts.serialized)
}

} // verus!
