//! The networking seam: URL parsing and response-status classification.
//!
//! The HTTP requests themselves happen outside the library; what stands here
//! is the logic around them — which URLs are valid, which hosts they name,
//! and how a response status sorts into success or a typed failure.

use vstd::prelude::*;
use crate::error::FetchError;

verus! {

/// The parts of a parsed URL that this library's logic reads.
#[derive(Debug, Clone)]
pub struct UrlParts {
    /// The host component, if the URL has one.
    pub host: Option<String>,

    /// The path component.
    pub path: String,
}

/// Whether a URL text parses; names the verdict of `http::Uri`'s `FromStr`.
pub uninterp spec fn url_is_valid(s: Seq<char>) -> bool;

/// The host component of a URL text; names the result of `http::Uri::host`
/// on the parsed URL.
pub uninterp spec fn url_host_of(s: Seq<char>) -> Option<Seq<char>>;

/// The path component of a URL text; names the result of `http::Uri::path`
/// on the parsed URL.
pub uninterp spec fn url_path_of(s: Seq<char>) -> Seq<char>;

/// Parses a URL text into the parts this library reads.
///
/// Relies on `http::Uri`: its `FromStr` impl decides validity, `Uri::host`
/// yields the host and `Uri::path` the path. Each is a function of the text
/// alone, named by the three spec functions above.
#[verifier::external_body]
pub(crate) fn parse_url(s: &str) -> (r: Option<UrlParts>)
    ensures
        r is Some <==> url_is_valid(s@),
        r matches Some(u) ==> match u.host {
            Some(h) => url_host_of(s@) == Some(h@),
            None => url_host_of(s@) is None,
        },
        r matches Some(u) ==> u.path@ == url_path_of(s@),
{
    match s.parse::<http::Uri>() {
        Ok(uri) => Some(UrlParts {
            host: uri.host().map(|h| h.to_string()),
            path: uri.path().to_string(),
        }),
        Err(_) => None,
    }
}

/// Sorts a download response status: 2xx is success, 404 is the upstream's
/// "not found", and anything else is unexpected.
pub fn classify_status(status: u16) -> (r: Result<(), FetchError>)
    ensures
        r is Ok <==> 200 <= status < 300,
        status == 404 ==> r == Result::<(), FetchError>::Err(FetchError::NotFound),
        !(200 <= status < 300) && status != 404 ==> r == Result::<(), FetchError>::Err(
            FetchError::UnexpectedStatus(status),
        ),
{
    if 200 <= status && status < 300 {
        Ok(())
    } else if status == 404 {
        Err(FetchError::NotFound)
    } else {
        Err(FetchError::UnexpectedStatus(status))
    }
}

/// Sorts an Imgur response status: Imgur answers a missing file with a 302
/// redirect instead of a 404.
pub fn classify_imgur_status(status: u16) -> (r: Result<(), FetchError>)
    ensures
        r is Ok <==> 200 <= status < 300,
        status == 302 ==> r == Result::<(), FetchError>::Err(FetchError::NotFound),
        !(200 <= status < 300) && status != 302 ==> r == Result::<(), FetchError>::Err(
            FetchError::UnexpectedStatus(status),
        ),
{
    if 200 <= status && status < 300 {
        Ok(())
    } else if status == 302 {
        Err(FetchError::NotFound)
    } else {
        Err(FetchError::UnexpectedStatus(status))
    }
}

/// Parses an input and returns the domain.
/// This function automatically detects URL-like input and extracts the host.
pub fn parse_domains(input: &str) -> (r: Result<String, String>)
    ensures
        match r {
            Ok(host) => url_is_valid(input@) && url_host_of(input@) == Some(host@),
            Err(_) => !url_is_valid(input@) || url_host_of(input@) is None,
        },
{
    match parse_url(input) {
        Some(u) => match u.host {
            Some(h) => Ok(h),
            None => Err("No domain found".to_owned()),
        },
        None => Err("Invalid URL".to_owned()),
    }
}

} // verus!
