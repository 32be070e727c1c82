use astrbot_client::envelope::{
    decode_reply, envelope_from_json, is_success, payload_from_reply, value_to_string, ApiError,
    ApiResponse, HttpReply,
};

fn reply(status: u16, body: &str) -> HttpReply {
    HttpReply { status, body: body.to_string() }
}

fn json(text: &str) -> serde_json::Value {
    serde_json::from_str(text).expect("the test's JSON is valid")
}

fn parser_diagnostic(text: &str) -> String {
    serde_json::from_str::<serde_json::Value>(text).expect_err("the text is no JSON").to_string()
}

#[test]
fn ok_envelope_with_data_decodes() {
    let decoded = decode_reply(&reply(200, r#"{"status":"ok","message":null,"data":{"a":1}}"#))
        .expect("an ok envelope decodes");
    assert!(decoded.is_ok());
    assert_eq!(decoded.status, "ok");
    assert_eq!(decoded.message, "");
    assert_eq!(decoded.data, Some(json(r#"{"a":1}"#)));
}

#[test]
fn ok_envelope_yields_its_data() {
    for status in ["ok", "OK", "Ok", "oK"] {
        let body = format!(r#"{{"status":"{}","data":[1,"two",null]}}"#, status);
        let data = payload_from_reply(&reply(200, &body)).expect("the payload is there");
        assert_eq!(data, json(r#"[1,"two",null]"#));
    }
}

#[test]
fn ok_is_the_only_success_verdict() {
    for status in ["ok", "OK", "Ok", "oK"] {
        let response: ApiResponse<u8> =
            ApiResponse { status: status.to_string(), message: String::new(), data: None };
        assert!(response.is_ok(), "{} is ok", status);
    }
    for status in ["", "o", "okay", "ok ", " ok", "error", "0k", "\u{212A}o", "o\u{212A}", "ko"] {
        let response: ApiResponse<u8> =
            ApiResponse { status: status.to_string(), message: String::new(), data: None };
        assert!(!response.is_ok(), "{:?} is not ok", status);
    }
}

#[test]
fn failed_envelope_is_an_api_error_with_its_message() {
    let body = r#"{"status":"error","message":"no such plugin","data":{"a":1}}"#;
    match payload_from_reply(&reply(200, body)) {
        Err(ApiError::Api(message)) => assert_eq!(message, "no such plugin"),
        other => panic!("unexpected outcome: {:?}", other),
    }
}

#[test]
fn failed_envelope_carries_a_normalized_structured_message() {
    let body = r#"{"status":"fail","message":{"code":7,"why":"x"}}"#;
    match payload_from_reply(&reply(200, body)) {
        Err(ApiError::Api(message)) => assert_eq!(message, r#"{"code":7,"why":"x"}"#),
        other => panic!("unexpected outcome: {:?}", other),
    }
}

#[test]
fn non_success_status_is_a_transport_failure() {
    let body = "x".repeat(300);
    match decode_reply(&reply(500, &body)) {
        Err(ApiError::Transport { status, body_snippet }) => {
            assert_eq!(status, 500);
            assert_eq!(body_snippet, "x".repeat(256));
        }
        other => panic!("unexpected outcome: {:?}", other),
    }
}

#[test]
fn transport_failure_comes_before_any_parsing() {
    match decode_reply(&reply(404, "<html>not json</html>")) {
        Err(ApiError::Transport { status, body_snippet }) => {
            assert_eq!(status, 404);
            assert_eq!(body_snippet, "<html>not json</html>");
        }
        other => panic!("unexpected outcome: {:?}", other),
    }
    let valid = r#"{"status":"ok","data":1}"#;
    for status in [199u16, 300, 301, 400, 503, 0, 999] {
        match decode_reply(&reply(status, valid)) {
            Err(ApiError::Transport { status: got, body_snippet }) => {
                assert_eq!(got, status);
                assert_eq!(body_snippet, valid);
            }
            other => panic!("unexpected outcome: {:?}", other),
        }
    }
}

#[test]
fn snippet_counts_characters_not_bytes() {
    let body = "\u{00e9}".repeat(257);
    match decode_reply(&reply(502, &body)) {
        Err(ApiError::Transport { body_snippet, .. }) => {
            assert_eq!(body_snippet.chars().count(), 256);
            assert_eq!(body_snippet, "\u{00e9}".repeat(256));
        }
        other => panic!("unexpected outcome: {:?}", other),
    }
    let exact = "y".repeat(256);
    match decode_reply(&reply(502, &exact)) {
        Err(ApiError::Transport { body_snippet, .. }) => assert_eq!(body_snippet, exact),
        other => panic!("unexpected outcome: {:?}", other),
    }
}

#[test]
fn success_range_is_200_to_299() {
    assert!(is_success(200));
    assert!(is_success(204));
    assert!(is_success(299));
    assert!(!is_success(199));
    assert!(!is_success(300));
    assert!(!is_success(0));
    assert!(!is_success(u16::MAX));
}

#[test]
fn message_normalization() {
    assert_eq!(value_to_string(Some(&serde_json::Value::Null)), "");
    assert_eq!(value_to_string(Some(&serde_json::Value::String("x".to_string()))), "x");
    assert_eq!(value_to_string(Some(&json(r#"{"a":1}"#))), "{\"a\":1}");
    assert_eq!(value_to_string(None), "");
    assert_eq!(value_to_string(Some(&json("5"))), "5");
    assert_eq!(value_to_string(Some(&json("[1, 2]"))), "[1,2]");
    assert_eq!(value_to_string(Some(&json("false"))), "false");
    assert_eq!(value_to_string(Some(&json(r#""""#))), "");
    assert_eq!(value_to_string(Some(&json(r#""null""#))), "null");
}

#[test]
fn envelope_without_message_or_data() {
    let decoded = decode_reply(&reply(200, r#"{"status":"ok"}"#)).expect("it is an envelope");
    assert_eq!(decoded.message, "");
    assert_eq!(decoded.data, None);
    let decoded =
        decode_reply(&reply(200, r#"{"status":"ok","data":null}"#)).expect("it is an envelope");
    assert_eq!(decoded.data, None);
}

#[test]
fn body_that_is_no_json_is_a_decode_failure() {
    for body in ["not json", "", "<html>", "{", r#"{"status":"ok""#, "{\"status\":\"ok\"} x"] {
        match decode_reply(&reply(200, body)) {
            Err(ApiError::Decode(diagnostic)) => {
                assert_eq!(diagnostic, parser_diagnostic(body));
                assert!(!diagnostic.is_empty());
            }
            other => panic!("unexpected outcome: {:?}", other),
        }
        match payload_from_reply(&reply(299, body)) {
            Err(ApiError::Decode(diagnostic)) => assert_eq!(diagnostic, parser_diagnostic(body)),
            other => panic!("unexpected outcome: {:?}", other),
        }
    }
    match decode_reply(&reply(200, "<html>")) {
        Err(ApiError::Decode(diagnostic)) => {
            assert_eq!(diagnostic, "expected value at line 1 column 1")
        }
        other => panic!("unexpected outcome: {:?}", other),
    }
}

#[test]
fn body_without_a_text_status_is_a_decode_failure() {
    for body in [
        r#"{"message":"m","data":1}"#,
        r#"{"status":null}"#,
        r#"{"status":1}"#,
        r#"["ok"]"#,
        r#""ok""#,
        "null",
    ] {
        match decode_reply(&reply(200, body)) {
            Err(ApiError::Decode(diagnostic)) => {
                assert_eq!(diagnostic, "the reply has no text member `status`", "for {}", body)
            }
            other => panic!("unexpected outcome: {:?}", other),
        }
    }
}

#[test]
fn envelope_from_a_parsed_value() {
    let value = json(r#"{"status":"Nope","message":[1],"data":"d"}"#);
    let response = envelope_from_json(&value).expect("it is an envelope");
    assert_eq!(response.status, "Nope");
    assert_eq!(response.message, "[1]");
    assert_eq!(response.data, Some(serde_json::Value::String("d".to_string())));
    assert!(!response.is_ok());
    match envelope_from_json(&json("{}")) {
        Err(ApiError::Decode(diagnostic)) => {
            assert_eq!(diagnostic, "the reply has no text member `status`")
        }
        other => panic!("unexpected outcome: {:?}", other),
    }
    let (first, second) = response.trace();
    assert_eq!(first, "ApiResponse.status : Nope");
    assert_eq!(second, "ApiResponse.message: [1]");
}

#[test]
fn into_data_and_into_message() {
    let ok: ApiResponse<u8> =
        ApiResponse { status: "ok".to_string(), message: "done".to_string(), data: Some(7) };
    assert_eq!(ok.into_data().expect("data is there"), 7);
    let ok: ApiResponse<u8> =
        ApiResponse { status: "ok".to_string(), message: "done".to_string(), data: Some(7) };
    assert_eq!(ok.into_message().expect("the verdict is ok"), "done");
    let empty: ApiResponse<u8> =
        ApiResponse { status: "OK".to_string(), message: "done".to_string(), data: None };
    assert!(matches!(empty.into_data(), Err(ApiError::MissingData)));
    let failed: ApiResponse<u8> =
        ApiResponse { status: "error".to_string(), message: "bad".to_string(), data: Some(7) };
    match failed.into_data() {
        Err(ApiError::Api(message)) => assert_eq!(message, "bad"),
        other => panic!("unexpected outcome: {:?}", other),
    }
    let failed: ApiResponse<u8> =
        ApiResponse { status: "error".to_string(), message: "bad".to_string(), data: None };
    match failed.into_message() {
        Err(ApiError::Api(message)) => assert_eq!(message, "bad"),
        other => panic!("unexpected outcome: {:?}", other),
    }
}

#[test]
fn payload_must_be_there() {
    assert!(matches!(
        payload_from_reply(&reply(200, r#"{"status":"ok","data":null}"#)),
        Err(ApiError::MissingData)
    ));
    assert!(matches!(
        payload_from_reply(&reply(200, r#"{"status":"ok"}"#)),
        Err(ApiError::MissingData)
    ));
}

#[test]
fn error_messages() {
    let transport = ApiError::Transport { status: 404, body_snippet: "gone".to_string() };
    assert_eq!(transport.message(), "API request failed: HTTP 404. Body: gone");
    let transport = ApiError::Transport { status: 0, body_snippet: String::new() };
    assert_eq!(transport.message(), "API request failed: HTTP 0. Body: ");
    let transport = ApiError::Transport { status: 65535, body_snippet: "x".to_string() };
    assert_eq!(transport.message(), "API request failed: HTTP 65535. Body: x");
    assert_eq!(ApiError::Api("bad".to_string()).message(), "API error: bad");
    assert_eq!(ApiError::MissingData.message(), "No data received");
    assert_eq!(ApiError::Decode("line 1".to_string()).message(), "line 1");
}
