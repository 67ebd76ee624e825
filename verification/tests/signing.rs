use papago_client::TranslateError;
use papago_client::numfmt::{dec_of_i64, dec_of_u64};
use papago_client::token::{auth_hash, canonical_message, issue_token};

#[test]
fn hash_is_reproducible_with_literal_inputs() {
    // HMAC-MD5 keyed by the version over
    // "<session>\nhttps://papago.naver.com/apis/n2mt/translate\n<millis>",
    // Base64-encoded with the standard padded alphabet.
    let h = auth_hash(
        "v1.abcdef",
        "11111111-1111-1111-1111-111111111111",
        1700000000000,
    )
    .unwrap();
    assert_eq!(h, "XsG7lZe2N/I2VvBNnBLsfQ==");
    let again = auth_hash(
        "v1.abcdef",
        "11111111-1111-1111-1111-111111111111",
        1700000000000,
    )
    .unwrap();
    assert_eq!(h, again);
}

#[test]
fn hash_depends_on_every_input() {
    let base = auth_hash("v1.abcdef", "s", 1).unwrap();
    assert_ne!(base, auth_hash("v1.abcdeg", "s", 1).unwrap());
    assert_ne!(base, auth_hash("v1.abcdef", "t", 1).unwrap());
    assert_ne!(base, auth_hash("v1.abcdef", "s", 2).unwrap());
}

#[test]
fn canonical_message_is_newline_joined() {
    let m = canonical_message("sid", "https://example.test/x", -5);
    assert_eq!(m, "sid\nhttps://example.test/x\n-5");
}

#[test]
fn consecutive_tokens_differ() {
    let a = issue_token("v1.abcdef").unwrap();
    let b = issue_token("v1.abcdef").unwrap();
    assert_ne!(a.session_id, b.session_id);
    assert_eq!(a.session_id.len(), 36);
    assert_eq!(b.session_id.len(), 36);
    assert!(b.issued_at_millis >= a.issued_at_millis);
    assert!(a.issued_at_millis > 0);
}

#[test]
fn decimal_rendering_exact() {
    assert_eq!(dec_of_u64(0), "0");
    assert_eq!(dec_of_u64(1700000000000), "1700000000000");
    assert_eq!(dec_of_u64(u64::MAX), "18446744073709551615");
    assert_eq!(dec_of_i64(0), "0");
    assert_eq!(dec_of_i64(-1), "-1");
    assert_eq!(dec_of_i64(i64::MIN), "-9223372036854775808");
    assert_eq!(dec_of_i64(i64::MAX), "9223372036854775807");
}
