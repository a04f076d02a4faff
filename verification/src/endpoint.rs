//! Which addresses a client may be pointed at.
//!
//! A client sends what it is given to its base URL, so the URL is checked
//! before a client is made: it must parse, use `http` or `https`, and name a
//! host. The parsing is `url`'s; the rule is stated and proved here.

use crate::error::{verdict_matches, ShikicrateError};
use vstd::prelude::*;
use vstd::string::StringExecFns;

verus! {

/// `url::ParseError`, carried without a look inside.
#[verifier::external_type_specification]
#[verifier::external_body]
pub struct ExUrlParseError(url::ParseError);

/// What the rule reads of a parsed URL.
#[derive(Debug, Clone)]
pub struct UrlParts {
    /// The scheme as `url` gives it: in lower case and without the colon.
    pub scheme: String,
    /// Whether the URL names a host.
    pub has_host: bool,
}

/// The mathematical value of [`UrlParts`].
pub struct UrlPartsView {
    pub scheme: Seq<char>,
    pub has_host: bool,
}

impl View for UrlParts {
    type V = UrlPartsView;

    open spec fn view(&self) -> UrlPartsView {
        UrlPartsView { scheme: self.scheme@, has_host: self.has_host }
    }
}

/// What `Url::parse` makes of a text: the scheme of the URL and whether it
/// has a host, or the error that says why the text is no absolute URL.
pub uninterp spec fn url_parse(text: Seq<char>) -> Result<UrlPartsView, url::ParseError>;

/// What a `url::ParseError` displays as.
pub uninterp spec fn url_error_message(error: url::ParseError) -> Seq<char>;

/// Calls `Url::parse`, then `Url::scheme` and `Url::has_host` on the URL.
/// Not proved: that the result is the one named by [`url_parse`].
#[verifier::external_body]
pub(crate) fn parse_url(text: &str) -> (parsed: Result<UrlParts, url::ParseError>)
    ensures
        match parsed {
            Ok(parts) => url_parse(text@) == Ok::<UrlPartsView, url::ParseError>(parts@),
            Err(error) => url_parse(text@) == Err::<UrlPartsView, url::ParseError>(error),
        },
{
    match url::Url::parse(text) {
        Ok(parsed) => Ok(
            UrlParts { scheme: parsed.scheme().to_string(), has_host: parsed.has_host() },
        ),
        Err(error) => Err(error),
    }
}

/// Formats a `url::ParseError` through its `Display`. Not proved: that the
/// text is the one named by [`url_error_message`].
#[verifier::external_body]
pub(crate) fn parse_error_message(error: &url::ParseError) -> (message: String)
    ensures
        message@ == url_error_message(*error),
{
    error.to_string()
}

/// Whether a scheme is one that a client may use.
pub open spec fn is_web_scheme(scheme: Seq<char>) -> bool {
    scheme == "http"@ || scheme == "https"@
}

/// Why a base URL is refused, if it is: it did not parse, it uses a scheme
/// other than `http` and `https`, or it names no host. The first of these
/// that holds gives the reason.
pub open spec fn base_url_refusal(parsed: Result<UrlPartsView, url::ParseError>) -> Option<
    Seq<char>,
> {
    match parsed {
        Err(error) => Some("Invalid URL: "@ + url_error_message(error)),
        Ok(parts) => if !is_web_scheme(parts.scheme) {
            Some(
                "Unsafe URL scheme: "@ + parts.scheme + ". Only http:// and https:// are allowed"@,
            )
        } else if !parts.has_host {
            Some("URL must have a host"@)
        } else {
            None
        },
    }
}

/// Applies the rule to a parsed URL.
pub fn check_base_url(parsed: &Result<UrlParts, url::ParseError>) -> (verdict: Result<
    (),
    ShikicrateError,
>)
    ensures
        verdict_matches(
            verdict,
            base_url_refusal(
                match *parsed {
                    Ok(parts) => Ok(parts@),
                    Err(error) => Err(error),
                },
            ),
        ),
{
    match parsed {
        Err(error) => {
            let mut message = String::from_str("Invalid URL: ");
            let cause = parse_error_message(error);
            message.append(cause.as_str());
            Err(ShikicrateError::Validation(message))
        },
        Ok(parts) => {
            let http = String::from_str("http");
            let https = String::from_str("https");
            if !(parts.scheme == http || parts.scheme == https) {
                let mut message = String::from_str("Unsafe URL scheme: ");
                message.append(parts.scheme.as_str());
                message.append(". Only http:// and https:// are allowed");
                Err(ShikicrateError::Validation(message))
            } else if !parts.has_host {
                Err(ShikicrateError::Validation(String::from_str("URL must have a host")))
            } else {
                Ok(())
            }
        },
    }
}

/// Checks that a text is a base URL a client may use.
pub fn validate_base_url(text: &str) -> (verdict: Result<(), ShikicrateError>)
    ensures
        verdict_matches(verdict, base_url_refusal(url_parse(text@))),
{
    let parsed = parse_url(text);
    check_base_url(&parsed)
}

} // verus!
