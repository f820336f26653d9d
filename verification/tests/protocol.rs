use edge_coord::gate::TriggerGate;
use edge_coord::protocol::{
    decode_response, exchange_outcome, header_accept, header_content_type, request_body,
    request_url, ExchangeOutcome,
};

fn bytes(s: &str) -> Vec<u8> {
    s.as_bytes().to_vec()
}

const GOOD: &str = r#"{"code":200,"data":{"accessToken":"A","refreshToken":"B","role":"PRODUCER","consumerId":null,"producerId":7},"metadata":{"appName":"x","version":"1.0","timestamp":"t"}}"#;

#[test]
fn round_trip_known_fields() {
    let r = decode_response(&bytes(GOOD)).expect("well-formed response must decode");
    assert_eq!(r.code, 200);
    assert_eq!(r.data.access_token, bytes("A"));
    assert_eq!(r.data.refresh_token, bytes("B"));
    assert_eq!(r.data.role, bytes("PRODUCER"));
    assert_eq!(r.data.consumer_id, None);
    assert_eq!(r.data.producer_id, 7);
    assert_eq!(r.metadata.app_name, bytes("x"));
    assert_eq!(r.metadata.version, bytes("1.0"));
    assert_eq!(r.metadata.timestamp, bytes("t"));
}

#[test]
fn decode_accepts_whitespace_and_field_order() {
    let s = r#"
        { "metadata": { "timestamp": "t", "version": "1.0", "appName": "x" },
          "code": 200,
          "data": { "producerId": 7, "consumerId": 3, "role": "PRODUCER",
                    "refreshToken": "B", "accessToken": "A" } }
    "#;
    let r = decode_response(&bytes(s)).expect("reordered fields must decode");
    assert_eq!(r.code, 200);
    assert_eq!(r.data.consumer_id, Some(3));
    assert_eq!(r.data.producer_id, 7);
    assert_eq!(r.data.access_token, bytes("A"));
}

#[test]
fn decode_tolerates_unknown_fields() {
    let s = r#"{"code":0,"extra":true,"data":{"accessToken":"A","refreshToken":"B","role":"r","consumerId":null,"producerId":1,"other":null},"metadata":{"appName":"x","version":"v","timestamp":"t"},"more":"y"}"#;
    let r = decode_response(&bytes(s)).expect("unknown fields are ignored");
    assert_eq!(r.code, 0);
}

#[test]
fn missing_access_token_fails_decode() {
    let s = r#"{"code":200,"data":{"refreshToken":"B","role":"PRODUCER","consumerId":null,"producerId":7},"metadata":{"appName":"x","version":"1.0","timestamp":"t"}}"#;
    assert!(decode_response(&bytes(s)).is_none());
}

#[test]
fn malformed_response_reported_and_gate_returns_to_idle() {
    let missing = r#"{"code":200,"data":{"refreshToken":"B","role":"PRODUCER","consumerId":null,"producerId":7},"metadata":{"appName":"x","version":"1.0","timestamp":"t"}}"#;
    let mut gate = TriggerGate::new();
    assert!(gate.on_note(true));
    let outcome = exchange_outcome(true, &bytes(missing));
    assert!(matches!(outcome, ExchangeOutcome::DecodeFailure));
    gate.complete();
    assert!(!gate.is_pending());
    // The next rising edge still dispatches.
    assert!(gate.on_note(true));
}

#[test]
fn non_success_status_is_http_failure() {
    let outcome = exchange_outcome(false, &bytes(GOOD));
    assert!(matches!(outcome, ExchangeOutcome::HttpFailure));
}

#[test]
fn successful_exchange_carries_decoded_payload() {
    match exchange_outcome(true, &bytes(GOOD)) {
        ExchangeOutcome::Success(r) => {
            assert_eq!(r.code, 200);
            assert_eq!(r.data.producer_id, 7);
        }
        _ => panic!("expected a successful exchange"),
    }
}

#[test]
fn ill_typed_fields_fail_decode() {
    // code as a string
    let s = r#"{"code":"200","data":{"accessToken":"A","refreshToken":"B","role":"r","consumerId":null,"producerId":1},"metadata":{"appName":"x","version":"v","timestamp":"t"}}"#;
    assert!(decode_response(&bytes(s)).is_none());
    // consumerId as a string
    let s = r#"{"code":200,"data":{"accessToken":"A","refreshToken":"B","role":"r","consumerId":"3","producerId":1},"metadata":{"appName":"x","version":"v","timestamp":"t"}}"#;
    assert!(decode_response(&bytes(s)).is_none());
    // producerId out of 32-bit range
    let s = r#"{"code":200,"data":{"accessToken":"A","refreshToken":"B","role":"r","consumerId":null,"producerId":4294967296},"metadata":{"appName":"x","version":"v","timestamp":"t"}}"#;
    assert!(decode_response(&bytes(s)).is_none());
}

#[test]
fn unparsable_bodies_fail_decode() {
    assert!(decode_response(&bytes("")).is_none());
    assert!(decode_response(&bytes("   ")).is_none());
    assert!(decode_response(&bytes("not json")).is_none());
    // trailing garbage after the object
    let s = format!("{} x", GOOD);
    assert!(decode_response(&bytes(&s)).is_none());
    // unterminated string
    assert!(decode_response(&bytes(r#"{"code":200,"data":{"accessToken":"A"#)).is_none());
    // integer too large for 64 bits
    let s = r#"{"code":99999999999999999999,"data":{"accessToken":"A","refreshToken":"B","role":"r","consumerId":null,"producerId":1},"metadata":{"appName":"x","version":"v","timestamp":"t"}}"#;
    assert!(decode_response(&bytes(s)).is_none());
    // leading zeros are not a number
    let s = r#"{"code":0200,"data":{"accessToken":"A","refreshToken":"B","role":"r","consumerId":null,"producerId":1},"metadata":{"appName":"x","version":"v","timestamp":"t"}}"#;
    assert!(decode_response(&bytes(s)).is_none());
}

#[test]
fn request_line_is_reproduced_verbatim() {
    assert_eq!(
        request_url(),
        "https://auth-platform.apis-staging.devr.com/api/v1/auth/login"
    );
    assert_eq!(header_accept(), "*/*");
    assert_eq!(header_content_type(), "application/json");
    let body = request_body();
    assert!(body.contains(r#""username": "user1@devr.com""#));
    assert!(body.contains(r#""password": "123456""#));
    assert!(body.contains(r#""excelLicenseId": "000-000-000-001""#));
    assert!(body.contains(r#""role": "PRODUCER""#));
    assert_eq!(
        body,
        "\n                {\n                    \"username\": \"user1@devr.com\",\n                    \"password\": \"123456\",\n                    \"excelLicenseId\": \"000-000-000-001\",\n                    \"role\": \"PRODUCER\"\n                }\n            "
    );
}
