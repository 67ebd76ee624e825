//! Token signing: a fresh session identifier and timestamp, and the
//! HMAC-MD5 signature of the canonical message under the service version,
//! carried Base64-encoded in the Authorization header.
use vstd::prelude::*;
use vstd::string::*;

use base64::Engine;
use hmac::Mac;
use hmac::digest::KeyInit;

verus! {

use crate::TranslateError;
use crate::endpoint_url;
use crate::endpoint_url_spec;
use crate::numfmt::dec_int;
use crate::numfmt::dec_of_i64;

/// What `Hmac<Md5>` returns for a key and a message, both given as the
/// UTF-8 bytes of text: a function of those two values alone.
pub uninterp spec fn hmac_md5_of(key: Seq<char>, msg: Seq<char>) -> Seq<u8>;

/// What `base64`'s standard padded engine produces for a byte string: a
/// function of those bytes alone.
pub uninterp spec fn base64_of(bytes: Seq<u8>) -> Seq<char>;

/// Relies on hmac's `Hmac<Md5>` (`new_from_slice`, `update`, `finalize`):
/// the MAC depends on the key and message bytes alone and is one MD5
/// digest, 16 bytes, long; `new_from_slice` accepts keys of any length,
/// so no input is refused.
#[verifier::external_body]
fn hmac_md5(key: &str, msg: &str) -> (r: Option<Vec<u8>>)
    ensures
        r is Some,
        (r matches Some(v) ==> v@ == hmac_md5_of(key@, msg@) && v@.len() == 16),
{
    match hmac::Hmac::<md5::Md5>::new_from_slice(key.as_bytes()) {
        Ok(mut mac) => {
            mac.update(msg.as_bytes());
            Some(mac.finalize().into_bytes().to_vec())
        },
        Err(_) => None,
    }
}

/// Relies on base64's `STANDARD` engine (`Engine::encode`): the encoding
/// depends on the input bytes alone, and with padding it is four
/// characters for every three input bytes begun.
#[verifier::external_body]
fn b64_encode(bytes: &Vec<u8>) -> (r: String)
    ensures
        r@ == base64_of(bytes@),
        r@.len() == 4 * ((bytes@.len() + 2) / 3),
{
    base64::engine::general_purpose::STANDARD.encode(bytes)
}

/// Relies on uuid's `Uuid::new_v4` and its display form: a fresh random
/// identifier in the hyphenated form, which is 36 characters long. The
/// value itself is random, so nothing more holds of every outcome.
#[verifier::external_body]
fn new_session_id() -> (r: String)
    ensures
        r@.len() == 36,
{
    uuid::Uuid::new_v4().to_string()
}

/// Relies on chrono's `Local::now().timestamp_millis()`: the wall clock
/// at the call, of which nothing is promised.
#[verifier::external_body]
fn now_millis() -> i64 {
    chrono::Local::now().timestamp_millis()
}

/// The canonical message: session identifier, endpoint URL and decimal
/// timestamp, joined by newlines.
pub open spec fn canonical_spec(session_id: Seq<char>, url: Seq<char>, millis: int) -> Seq<char> {
    session_id + seq!['\n'] + url + seq!['\n'] + dec_int(millis)
}

/// Builds the canonical message that is signed.
pub fn canonical_message(session_id: &str, url: &str, millis: i64) -> (r: String)
    ensures
        r@ == canonical_spec(session_id@, url@, millis as int),
{
    proof {
        reveal_strlit("\n");
    }
    let mut r = String::from_str(session_id);
    r.append("\n");
    r.append(url);
    r.append("\n");
    let ts = dec_of_i64(millis);
    r.append(ts.as_str());
    assert(r@ =~= canonical_spec(session_id@, url@, millis as int));
    r
}

/// The authentication hash: the Base64 text of the HMAC-MD5 of the
/// canonical message, keyed by the service version.
pub open spec fn signature_spec(version: Seq<char>, session_id: Seq<char>, millis: int) -> Seq<char> {
    base64_of(hmac_md5_of(version, canonical_spec(session_id, endpoint_url_spec(), millis)))
}

/// Computes the authentication hash for the given version, session
/// identifier and timestamp. The result depends on those three values
/// alone, and the computation always succeeds.
pub fn auth_hash(version: &str, session_id: &str, millis: i64) -> (r: Result<
    String,
    TranslateError,
>)
    ensures
        r is Ok,
        (r matches Ok(h) ==> h@ == signature_spec(version@, session_id@, millis as int)),
        (r matches Err(e) ==> e == TranslateError::SigningError),
{
    let url = endpoint_url();
    let msg = canonical_message(session_id, url, millis);
    match hmac_md5(version, msg.as_str()) {
        Some(mac) => Ok(b64_encode(&mac)),
        None => Err(TranslateError::SigningError),
    }
}

/// One request's authentication data, single-use: a fresh session
/// identifier, the millisecond timestamp it was issued at, and the hash
/// over the two and the endpoint.
pub struct AuthToken {
    pub signature_hash: String,
    pub session_id: String,
    pub issued_at_millis: i64,
}

/// Issues a token for one request: draws a fresh session identifier and
/// the current time, and signs them under the given service version.
pub fn issue_token(version: &str) -> (r: Result<AuthToken, TranslateError>)
    ensures
        r is Ok,
        (r matches Ok(t) ==> t.signature_hash@ == signature_spec(
            version@,
            t.session_id@,
            t.issued_at_millis as int,
        ) && t.session_id@.len() == 36),
        (r matches Err(e) ==> e == TranslateError::SigningError),
{
    let session_id = new_session_id();
    let millis = now_millis();
    match auth_hash(version, session_id.as_str(), millis) {
        Ok(h) => Ok(
            AuthToken { signature_hash: h, session_id, issued_at_millis: millis },
        ),
        Err(e) => Err(e),
    }
}

/// Signing is deterministic: two hashes computed over the same
/// (session identifier, endpoint, timestamp, version) tuple agree.
pub proof fn lemma_signature_deterministic(
    version: Seq<char>,
    session_id: Seq<char>,
    millis: int,
    h1: Seq<char>,
    h2: Seq<char>,
)
    requires
        h1 == signature_spec(version, session_id, millis),
        h2 == signature_spec(version, session_id, millis),
    ensures
        h1 == h2,
{
}

} // verus!
