//! Request construction and response parsing for the translation
//! endpoint: the fixed form payload, the two authentication headers, and
//! the extraction of `translatedText` from the JSON response.
use vstd::prelude::*;
use vstd::string::*;

verus! {

use crate::TranslateError;
use crate::endpoint_url;
use crate::endpoint_url_spec;
use crate::numfmt::dec_int;
use crate::numfmt::dec_of_i64;
use crate::origin;
use crate::origin_spec;
use crate::token::AuthToken;

/// Resolves the script bundle's site-relative path against the origin.
pub fn script_url(path: &str) -> (r: String)
    ensures
        r@ == origin_spec() + path@,
{
    String::from_str(origin()).concat(path)
}

/// The form fields of one translation request, in the order sent: the
/// session identifier as device, the fixed policy flags, and the caller's
/// source language, target language and text, each passed on unchanged.
pub open spec fn form_fields_spec(
    text: Seq<char>,
    source: Seq<char>,
    target: Seq<char>,
    session_id: Seq<char>,
) -> Seq<(Seq<char>, Seq<char>)> {
    seq![
        ("deviceId"@, session_id),
        ("locale"@, target),
        ("dict"@, "false"@),
        ("dictDisplay"@, "30"@),
        ("honorific"@, "false"@),
        ("instant"@, "false"@),
        ("paging"@, "false"@),
        ("source"@, source),
        ("target"@, target),
        ("text"@, text),
    ]
}

/// Everything one POST to the endpoint carries: the URL, the two
/// authentication header values, and the form payload.
pub struct PreparedRequest {
    pub url: String,
    pub authorization: String,
    pub timestamp: String,
    pub form: Vec<(String, String)>,
}

/// Builds the authenticated request for the caller's text and languages
/// under an issued token. The `target` and `text` fields carry the
/// caller's values unchanged.
pub fn build_request(text: &str, source: &str, target: &str, token: &AuthToken) -> (r:
    PreparedRequest)
    ensures
        r.url@ == endpoint_url_spec(),
        r.authorization@ == "PPG "@ + token.session_id@ + ":"@ + token.signature_hash@,
        r.timestamp@ == dec_int(token.issued_at_millis as int),
        r.form.deep_view() == form_fields_spec(text@, source@, target@, token.session_id@),
{
    let url = String::from_str(endpoint_url());
    let authorization = String::from_str("PPG ").concat(token.session_id.as_str()).concat(
        ":",
    ).concat(token.signature_hash.as_str());
    let timestamp = dec_of_i64(token.issued_at_millis);
    let mut form: Vec<(String, String)> = Vec::new();
    form.push((String::from_str("deviceId"), token.session_id.clone()));
    form.push((String::from_str("locale"), String::from_str(target)));
    form.push((String::from_str("dict"), String::from_str("false")));
    form.push((String::from_str("dictDisplay"), String::from_str("30")));
    form.push((String::from_str("honorific"), String::from_str("false")));
    form.push((String::from_str("instant"), String::from_str("false")));
    form.push((String::from_str("paging"), String::from_str("false")));
    form.push((String::from_str("source"), String::from_str(source)));
    form.push((String::from_str("target"), String::from_str(target)));
    form.push((String::from_str("text"), String::from_str(text)));
    assert(form.deep_view() =~~= form_fields_spec(text@, source@, target@, token.session_id@));
    PreparedRequest { url, authorization, timestamp, form }
}

/// What serde_json finds in a response body: the value of the string
/// field `translatedText` when the body is a JSON object with such a
/// field, nothing otherwise; a function of the body text alone.
pub uninterp spec fn translated_text_of(body: Seq<char>) -> Option<Seq<char>>;

/// Relies on serde_json's `from_str::<Value>`, `Value`'s `Object` and
/// `String` variants and `Map::get`: parses the body and hands out the
/// root object's string field `translatedText` when each step applies.
/// All of them depend on the body text alone.
#[verifier::external_body]
fn extract_translated_text(body: &str) -> (r: Option<String>)
    ensures
        (r matches Some(t) ==> translated_text_of(body@) == Some(t@)),
        (r is None ==> translated_text_of(body@) is None),
{
    match serde_json::from_str::<serde_json::Value>(body) {
        Ok(serde_json::Value::Object(map)) => match map.get("translatedText") {
            Some(serde_json::Value::String(s)) => Some(s.clone()),
            _ => None,
        },
        _ => None,
    }
}

/// Extracts the translated string from the endpoint's JSON response:
/// the `translatedText` field exactly when the body holds one as a
/// string, and `ResponseParseError` on any other shape.
pub fn parse_response(body: &str) -> (r: Result<String, TranslateError>)
    ensures
        (r is Ok <==> translated_text_of(body@) is Some),
        (r matches Ok(t) ==> translated_text_of(body@) == Some(t@)),
        (r matches Err(e) ==> e == TranslateError::ResponseParseError),
{
    match extract_translated_text(body) {
        Some(t) => Ok(t),
        None => Err(TranslateError::ResponseParseError),
    }
}

} // verus!
