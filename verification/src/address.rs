//! The address under which the host is told of the server's executable.
//!
//! Addresses are parsed by the `url` crate. Its `Url` and `ParseError` are
//! opaque to the verifier; what parsing returns is given a name, and the
//! contracts of the two calls below are trusted.

use url::{ParseError, Url};
use vstd::prelude::*;

verus! {

/// `url::Url`, declared so that it can stand in signatures and fields.
#[verifier::external_type_specification]
#[verifier::external_body]
pub struct ExUrl(Url);

/// `url::ParseError`, declared so that it can stand in signatures and
/// fields.
#[verifier::external_type_specification]
#[verifier::external_body]
pub struct ExParseError(ParseError);

/// What `url::Url::parse` returns for a text.
pub uninterp spec fn url_parse(text: Seq<char>) -> Result<Url, ParseError>;

/// The message that a parsing error displays.
pub uninterp spec fn parse_error_text(cause: ParseError) -> Seq<char>;

/// Calls `url::Url::parse`. Trusted: the result depends on the text alone,
/// and the call returns for every text.
#[verifier::external_body]
pub(crate) fn parse(text: &str) -> (r: Result<Url, ParseError>)
    ensures
        r == url_parse(text@),
{
    Url::parse(text)
}

/// Calls `to_string` on a `url::ParseError`. Trusted: the message depends on
/// the error alone.
#[verifier::external_body]
pub(crate) fn describe(cause: &ParseError) -> (r: String)
    ensures
        r@ == parse_error_text(*cause),
{
    cause.to_string()
}

/// The text of the address for an executable's path: the path behind the
/// `urn:` scheme.
pub open spec fn server_address(path: Seq<char>) -> Seq<char> {
    "urn:"@ + path
}

/// Writes the address for an executable's path.
pub fn address_text(path: &str) -> (r: String)
    ensures
        r@ == server_address(path@),
{
    "urn:".to_owned().concat(path)
}

/// Parses the address for an executable's path.
pub fn address_of(path: &str) -> (r: Result<Url, ParseError>)
    ensures
        r == url_parse(server_address(path@)),
{
    let written = address_text(path);
    parse(written.as_str())
}

} // verus!
