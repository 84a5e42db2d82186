//! Deciding whether a text is an absolute URL.

use crate::failure::{report_view, OpenFailure, OpenFailureKind, OpenFailureView};
use vstd::prelude::*;
use vstd::string::*;

verus! {

/// What `url::Url::parse` makes of a text: `Ok` when it reads it as an
/// absolute URL, otherwise the text of the error it gives.
pub uninterp spec fn parse_verdict(input: Seq<char>) -> Result<(), Seq<char>>;

/// Whether a text is a well-formed absolute URL.
pub open spec fn is_absolute_url(input: Seq<char>) -> bool {
    parse_verdict(input) is Ok
}

/// Calls `url::Url::parse` on the text and drops the parsed value; a parse
/// error comes back as the message that its `Display` writes.
#[verifier::external_body]
pub(crate) fn parse_check(input: &str) -> (verdict: Result<(), String>)
    ensures
        report_view(verdict) == parse_verdict(input@),
{
    match url::Url::parse(input) {
        Ok(_) => Ok(()),
        Err(e) => Err(e.to_string()),
    }
}

/// What checking an address comes to, given what the URL parser made of
/// it: nothing to object to, or an invalid-URL failure with the parser's
/// message.
pub open spec fn address_failure_of(verdict: Result<(), Seq<char>>) -> Option<OpenFailureView> {
    match verdict {
        Ok(_) => None,
        Err(message) => Some(OpenFailureView { kind: OpenFailureKind::InvalidUrl, message }),
    }
}

/// Checks that `url` is a well-formed absolute URL, so that a caller can
/// refuse a malformed address before it does anything else.
pub fn check_address(url: &str) -> (r: Result<(), OpenFailure>)
    ensures
        r is Ok <==> is_absolute_url(url@),
        match r {
            Ok(_) => address_failure_of(parse_verdict(url@)) is None,
            Err(failure) => address_failure_of(parse_verdict(url@)) == Some(failure@),
        },
{
    match parse_check(url) {
        Ok(_) => Ok(()),
        Err(message) => Err(OpenFailure::new(OpenFailureKind::InvalidUrl, message)),
    }
}

} // verus!
