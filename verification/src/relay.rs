//! The relay's address, parsed the way the node's sessions connect to it.

use url::{ParseError, Url};
use vstd::prelude::*;

verus! {

#[verifier::external_type_specification]
#[verifier::external_body]
pub struct ExUrl(Url);

#[verifier::external_type_specification]
#[verifier::external_body]
pub struct ExUrlParseError(ParseError);

/// What `url::Url::parse` makes of this text: the parsed URL, or why the
/// text is not one.
pub uninterp spec fn relay_url_parsed(url: Seq<char>) -> Result<Url, ParseError>;

/// Whether `url::Url::parse` accepts this text as an absolute URL.
pub open spec fn relay_url_accepted(url: Seq<char>) -> bool {
    relay_url_parsed(url) is Ok
}

/// `url::Url::parse`: a WHATWG URL parse of the text alone. What it makes
/// of a text takes the URL standard to state, so it is named, not spelled out.
#[verifier::external_body]
fn url_parse(url: &str) -> (res: Result<Url, ParseError>)
    ensures
        res == relay_url_parsed(url@),
{
    Url::parse(url)
}

/// Why the relay's address is unusable.
pub enum RelayError {
    /// The configured text is not a URL.
    InvalidUrl(ParseError),
}

/// The relay's URL, parsed from the configured text; an error, carrying the
/// parser's reason, exactly when the text is not a URL.
pub fn parse_relay_url(url: &str) -> (res: Result<Url, RelayError>)
    ensures
        res is Ok <==> relay_url_accepted(url@),
        match relay_url_parsed(url@) {
            Ok(u) => res == Ok::<Url, RelayError>(u),
            Err(e) => res == Err::<Url, RelayError>(RelayError::InvalidUrl(e)),
        },
{
    match url_parse(url) {
        Ok(u) => Ok(u),
        Err(e) => Err(RelayError::InvalidUrl(e)),
    }
}

} // verus!
