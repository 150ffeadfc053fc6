use vstd::prelude::*;

use crate::error::{text_result, Error, ErrorView};

verus! {

/// What the `url` crate's parser makes of a text: the serialization of the
/// absolute URL that it reads there, or its reason for reading none.
pub uninterp spec fn parsed_url(text: Seq<char>) -> Result<Seq<char>, url::ParseError>;

/// The view of a serialization or of the parser's refusal.
pub open spec fn parse_view(r: Result<String, url::ParseError>) -> Result<
    Seq<char>,
    url::ParseError,
> {
    match r {
        Ok(serialization) => Ok(serialization@),
        Err(e) => Err(e),
    }
}

/// `url::Url::parse`, with the URL handed back as its serialization.
///
/// Believed, not proved: the parser returns on every text, and what it
/// returns depends on the text alone, so that it has the name [`parsed_url`].
#[verifier::external_body]
pub(crate) fn parse_url(text: &str) -> (r: Result<String, url::ParseError>)
    ensures
        parse_view(r) == parsed_url(text@),
{
    match url::Url::parse(text) {
        Ok(url) => Ok(String::from(url)),
        Err(e) => Err(e),
    }
}

/// The endpoint that a parser's outcome stands for: the serialization it
/// read, or [`ErrorView::InvalidUrl`] around its refusal.
pub open spec fn spec_endpoint(parsed: Result<Seq<char>, url::ParseError>) -> Result<
    Seq<char>,
    ErrorView,
> {
    match parsed {
        Ok(serialization) => Ok(serialization),
        Err(e) => Err(ErrorView::InvalidUrl(e)),
    }
}

/// Turns the parser's outcome into an endpoint or this library's error.
pub fn endpoint_from(parsed: Result<String, url::ParseError>) -> (r: Result<String, Error>)
    ensures
        text_result(r) == spec_endpoint(parse_view(parsed)),
{
    match parsed {
        Ok(serialization) => Ok(serialization),
        Err(e) => Err(Error::InvalidUrl(e)),
    }
}

} // verus!
