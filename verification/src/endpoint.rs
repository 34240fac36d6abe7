//! Worker endpoints: URLs, read once and kept in their normal form.

use vstd::prelude::*;

verus! {

/// `url::ParseError`, mapped to `None` as soon as it is seen.
#[verifier::external_type_specification]
#[verifier::external_body]
pub struct ExParseError(url::ParseError);

/// The normal form of the absolute URL that a text denotes, as
/// `url::Url::parse` reads and serializes it; `None` for a text that it
/// refuses. Two texts denote the same URL exactly when their normal forms are
/// the same text.
pub uninterp spec fn parsed_url(input: Seq<char>) -> Option<Seq<char>>;

/// Calls `url::Url::parse` and takes the serialization out of the URL.
/// Claimed: the outcome is a function of the text alone, named
/// [`parsed_url`].
#[verifier::external_body]
fn read_url(input: &str) -> (r: Result<String, url::ParseError>)
    ensures
        match r {
            Ok(normal) => parsed_url(input@) == Some(normal@),
            Err(_) => parsed_url(input@) is None,
        },
{
    url::Url::parse(input).map(String::from)
}

/// Reads an endpoint: the normal form of the URL, or `None` where the text
/// is no absolute URL.
pub fn parse_endpoint(input: &str) -> (r: Option<String>)
    ensures
        match r {
            Some(normal) => parsed_url(input@) == Some(normal@),
            None => parsed_url(input@) is None,
        },
{
    match read_url(input) {
        Ok(normal) => Some(normal),
        Err(_) => None,
    }
}

/// Whether a text is the normal form of some URL.
pub open spec fn is_endpoint(url: Seq<char>) -> bool {
    exists|input: Seq<char>| parsed_url(input) == Some(url)
}

} // verus!
