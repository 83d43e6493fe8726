//! What the pipeline reads out of a URL string: its scheme and its host.
//!
//! Parsing is the `url` crate's work; the library states its result under a
//! single name and builds the validation and naming rules on top of it.

use vstd::prelude::*;
use crate::chars::str_eq;
use crate::errors::PipelineError;

verus! {

#[verifier::external_type_specification]
#[verifier::external_body]
pub struct ExUrlParseError(url::ParseError);

/// What parsing the URL string yields: `None` when the string is not a
/// valid absolute URL, otherwise the scheme and the optional host, both as
/// the `url` crate normalizes them.
pub uninterp spec fn url_parts_of(s: Seq<char>) -> Option<(Seq<char>, Option<Seq<char>>)>;

/// Relies on url::Url::parse, Url::scheme and Url::host_str: whether the
/// string parses, and what its scheme and host are, depend on the string
/// alone.
#[verifier::external_body]
fn parse_url_parts(s: &str) -> (r: Result<(String, Option<String>), url::ParseError>)
    ensures
        r is Ok <==> url_parts_of(s@) is Some,
        r is Ok ==> ({
            let parts = url_parts_of(s@)->Some_0;
            (r->Ok_0).0@ == parts.0 && ((r->Ok_0).1 is Some <==> parts.1 is Some) && ((r->Ok_0).1
                is Some ==> ((r->Ok_0).1->Some_0)@ == parts.1->Some_0)
        }),
{
    match url::Url::parse(s) {
        Ok(u) => Ok((u.scheme().to_string(), u.host_str().map(|h| h.to_string()))),
        Err(e) => Err(e),
    }
}

/// The host component used for naming: the URL's host, `unknown` when the
/// URL parses but has no host, and nothing when it does not parse at all.
pub open spec fn spec_url_host_or_unknown(u: Seq<char>) -> Option<Seq<char>> {
    match url_parts_of(u) {
        Some(parts) => Some(
            match parts.1 {
                Some(h) => h,
                None => "unknown"@,
            },
        ),
        None => None,
    }
}

/// The host component of the URL, or `unknown` for a host-less URL; a URL
/// that does not parse is a validation error.
pub fn url_host_or_unknown(url: &str) -> (r: Result<String, PipelineError>)
    ensures
        r is Ok <==> spec_url_host_or_unknown(url@) is Some,
        r is Ok ==> (r->Ok_0)@ == spec_url_host_or_unknown(url@)->Some_0,
        r is Err ==> r->Err_0 is Validation,
{
    match parse_url_parts(url) {
        Ok((_, Some(h))) => Ok(h),
        Ok((_, None)) => {
            let u = String::from_str("unknown");
            Ok(u)
        },
        Err(_) => Err(PipelineError::Validation(String::from_str("invalid URL"))),
    }
}

/// A URL the text fetcher accepts: it parses and its scheme is `http` or
/// `https`.
pub open spec fn fetch_scheme_ok(u: Seq<char>) -> bool {
    match url_parts_of(u) {
        Some(parts) => parts.0 == "http"@ || parts.0 == "https"@,
        None => false,
    }
}

/// A URL the page-capture renderer accepts: it parses and its scheme is
/// `http`, `https` or `file`.
pub open spec fn render_scheme_ok(u: Seq<char>) -> bool {
    match url_parts_of(u) {
        Some(parts) => parts.0 == "http"@ || parts.0 == "https"@ || parts.0 == "file"@,
        None => false,
    }
}

/// Checks a URL before a text fetch: only HTTP and HTTPS URLs are accepted.
pub fn validate_fetch_url(url: &str) -> (r: Result<(), PipelineError>)
    ensures
        r is Ok <==> fetch_scheme_ok(url@),
        r is Err ==> r->Err_0 is Validation,
{
    match parse_url_parts(url) {
        Ok((scheme, _)) => {
            if str_eq(scheme.as_str(), "http") || str_eq(scheme.as_str(), "https") {
                Ok(())
            } else {
                Err(
                    PipelineError::Validation(
                        String::from_str("Only HTTP and HTTPS URLs are supported"),
                    ),
                )
            }
        },
        Err(_) => Err(PipelineError::Validation(String::from_str("invalid URL"))),
    }
}

/// Checks a URL before a page capture: HTTP, HTTPS and file URLs are
/// accepted.
pub fn validate_render_url(url: &str) -> (r: Result<(), PipelineError>)
    ensures
        r is Ok <==> render_scheme_ok(url@),
        r is Err ==> r->Err_0 is Validation,
{
    match parse_url_parts(url) {
        Ok((scheme, _)) => {
            if str_eq(scheme.as_str(), "http") || str_eq(scheme.as_str(), "https") || str_eq(
                scheme.as_str(),
                "file",
            ) {
                Ok(())
            } else {
                Err(
                    PipelineError::Validation(
                        String::from_str("Only HTTP, HTTPS, and file URLs are supported"),
                    ),
                )
            }
        },
        Err(_) => Err(PipelineError::Validation(String::from_str("invalid URL"))),
    }
}

} // verus!
