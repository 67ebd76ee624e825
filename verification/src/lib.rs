//! Client-side logic for an HMAC-authenticated translation service:
//! version extraction from fetched documents, token signing, request
//! construction and response parsing.
use vstd::prelude::*;

pub mod extract;
pub mod numfmt;
pub mod request;
pub mod token;

verus! {

/// The stages at which a translation call can fail.
#[derive(Clone, Copy, Debug, PartialEq, Eq, Structural)]
pub enum TranslateError {
    /// A document or the translation endpoint could not be fetched.
    NetworkError,
    /// The expected pattern was absent from a fetched document.
    ExtractionError,
    /// The authentication hash could not be computed.
    SigningError,
    /// The response was not a JSON object with a string `translatedText`.
    ResponseParseError,
}

/// The site origin, under which both documents and the translation
/// endpoint live.
pub open spec fn origin_spec() -> Seq<char> {
    "https://papago.naver.com"@
}

/// The site origin as text.
pub fn origin() -> (r: &'static str)
    ensures
        r@ == origin_spec(),
{
    "https://papago.naver.com"
}

/// The translation endpoint, which is both signed over and posted to.
pub open spec fn endpoint_url_spec() -> Seq<char> {
    "https://papago.naver.com/apis/n2mt/translate"@
}

/// The translation endpoint as text.
pub fn endpoint_url() -> (r: &'static str)
    ensures
        r@ == endpoint_url_spec(),
{
    "https://papago.naver.com/apis/n2mt/translate"
}

} // verus!
