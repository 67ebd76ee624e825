use papago_client::TranslateError;
use papago_client::request::{build_request, parse_response};
use papago_client::token::issue_token;

#[test]
fn mocked_response_round_trip() {
    // A mocked network boundary handing back the expected shape.
    let ok = parse_response("{\"translatedText\": \"hello\"}");
    assert_eq!(ok, Ok(String::from("hello")));
    // The same value under another field name is a parse error.
    let renamed = parse_response("{\"text\": \"hello\"}");
    assert_eq!(renamed, Err(TranslateError::ResponseParseError));
}

#[test]
fn response_other_shapes_are_parse_errors() {
    for body in [
        "",
        "not json at all",
        "[\"translatedText\", \"hello\"]",
        "{\"translatedText\": 7}",
        "{\"translatedText\": null}",
        "\"translatedText\"",
    ] {
        assert_eq!(parse_response(body), Err(TranslateError::ResponseParseError));
    }
}

#[test]
fn response_extra_fields_are_discarded() {
    let body = "{\"srcLangType\": \"en\", \"translatedText\": \"ol\\u00e1\", \"dict\": {\"items\": []}}";
    assert_eq!(parse_response(body), Ok(String::from("olá")));
}

#[test]
fn payload_carries_text_and_target_unchanged() {
    let token = issue_token("v1.zz").unwrap();
    let req = build_request("  Hello, world! ", "auto", "pt", &token);
    assert_eq!(req.url, "https://papago.naver.com/apis/n2mt/translate");
    assert_eq!(
        req.authorization,
        format!("PPG {}:{}", token.session_id, token.signature_hash)
    );
    assert_eq!(req.timestamp, token.issued_at_millis.to_string());
    let keys: Vec<&str> = req.form.iter().map(|p| p.0.as_str()).collect();
    assert_eq!(
        keys,
        vec![
            "deviceId",
            "locale",
            "dict",
            "dictDisplay",
            "honorific",
            "instant",
            "paging",
            "source",
            "target",
            "text"
        ]
    );
    assert_eq!(req.form[0].1, token.session_id);
    assert_eq!(req.form[1].1, "pt");
    assert_eq!(req.form[2].1, "false");
    assert_eq!(req.form[3].1, "30");
    assert_eq!(req.form[4].1, "false");
    assert_eq!(req.form[5].1, "false");
    assert_eq!(req.form[6].1, "false");
    assert_eq!(req.form[7].1, "auto");
    assert_eq!(req.form[8].1, "pt");
    assert_eq!(req.form[9].1, "  Hello, world! ");
}
