use firefox_cli::json::{Json, JsonNumber};
use firefox_cli::protocol::{
    frame_length, frame_message, interpret_response, message_body, FrameError, FrameHeader,
    MarionetteError, MarionetteProtocol, FRAME_SEPARATOR,
};
use firefox_cli::flow::Output;
use firefox_cli::json::{json_quote, json_to_pretty_string, json_to_string, parse_json};
use firefox_cli::text::{decimal_string, parse_u64, parse_usize};

fn s(text: &str) -> Json {
    Json::Str(text.to_string())
}

fn n(value: u64) -> Json {
    Json::Number(JsonNumber::Unsigned(value))
}

fn obj(entries: Vec<(&str, Json)>) -> Json {
    Json::Object(entries.into_iter().map(|(k, v)| (k.to_string(), v)).collect())
}

#[test]
fn frames_carry_the_byte_length() {
    assert_eq!(frame_message(b"[1,2]"), b"5:[1,2]".to_vec());
    assert_eq!(frame_message("é".as_bytes()), b"2:\xc3\xa9".to_vec());
    assert_eq!(frame_message(b""), b"0:".to_vec());
}

#[test]
fn frame_header_round_trip() {
    let message = vec![b'x'; 1234];
    let framed = frame_message(&message);
    let mut header = FrameHeader::new();
    let mut i = 0;
    while !header.feed(framed[i]) {
        i += 1;
    }
    assert_eq!(framed[i], FRAME_SEPARATOR);
    assert_eq!(frame_length(header.bytes).ok(), Some(1234));
    assert_eq!(&framed[i + 1..], message.as_slice());
}

#[test]
fn frame_lengths_are_trimmed_decimal() {
    assert_eq!(frame_length(b" 42\n".to_vec()).ok(), Some(42));
    assert_eq!(frame_length(b"+7".to_vec()).ok(), Some(7));
    assert!(matches!(frame_length(b"".to_vec()), Err(FrameError::InvalidLength)));
    assert!(matches!(frame_length(b"4x".to_vec()), Err(FrameError::InvalidLength)));
    assert!(matches!(frame_length(b"-1".to_vec()), Err(FrameError::InvalidLength)));
    assert!(matches!(frame_length(vec![0xff, b'1']), Err(FrameError::InvalidUtf8)));
    assert!(matches!(
        frame_length(b"99999999999999999999999".to_vec()),
        Err(FrameError::InvalidLength)
    ));
}

#[test]
fn decimal_numbers_read_back() {
    for value in [0u64, 7, 10, 99, 100, 12345, u64::MAX] {
        let text = decimal_string(value);
        assert_eq!(text, value.to_string());
        assert_eq!(parse_u64(&text), Some(value));
    }
    assert_eq!(parse_u64("18446744073709551616"), None);
    assert_eq!(parse_u64("+"), None);
    assert_eq!(parse_u64("1 2"), None);
    assert_eq!(parse_usize("0012"), Some(12));
}

#[test]
fn requests_are_numbered_from_one() {
    let mut protocol = MarionetteProtocol::new();
    let first = protocol.request_message("WebDriver:Back", obj(vec![]));
    let second = protocol.request_message("WebDriver:Forward", obj(vec![]));
    assert_eq!(protocol.message_id, 2);
    match (first, second) {
        (Json::Array(a), Json::Array(b)) => {
            assert!(matches!(a[0], Json::Number(JsonNumber::Unsigned(0))));
            assert!(matches!(a[1], Json::Number(JsonNumber::Unsigned(1))));
            assert!(matches!(&a[2], Json::Str(c) if c == "WebDriver:Back"));
            assert!(matches!(b[1], Json::Number(JsonNumber::Unsigned(2))));
        }
        _ => panic!("expected arrays"),
    }
}

#[test]
fn replies_give_their_result_or_error() {
    let ok = Json::Array(vec![n(1), n(3), Json::Null, obj(vec![("value", s("v"))])]);
    match interpret_response(&ok) {
        Ok(Json::Object(m)) => assert_eq!(m[0].0, "value"),
        _ => panic!("expected the result"),
    }
    let err = Json::Array(vec![
        n(1),
        n(4),
        obj(vec![("error", s("no such element")), ("message", s("missing"))]),
        Json::Null,
    ]);
    match interpret_response(&err) {
        Err(e) => assert_eq!(e.message(), "Marionette error (no such element): missing"),
        Ok(_) => panic!("expected an error"),
    }
    let bare_err = Json::Array(vec![n(1), n(5), obj(vec![]), Json::Null]);
    match interpret_response(&bare_err) {
        Err(MarionetteError::Remote { error_type, message }) => {
            assert_eq!(error_type, "unknown");
            assert_eq!(message, "Unknown error");
        }
        _ => panic!("expected an error"),
    }
    assert!(matches!(interpret_response(&obj(vec![])), Ok(Json::Null)));
    assert!(matches!(interpret_response(&Json::Array(vec![n(1)])), Ok(Json::Null)));
}

#[test]
fn request_packets_are_framed_json_text() {
    let mut protocol = MarionetteProtocol::new();
    let packet = protocol.new_session_packet();
    assert_eq!(packet, br#"48:[0,1,"WebDriver:NewSession",{"capabilities":{}}]"#.to_vec());
    let packet = protocol.request_packet("WebDriver:Navigate", obj(vec![("url", s("https://é.example"))]));
    let text = r#"[0,2,"WebDriver:Navigate",{"url":"https://é.example"}]"#;
    assert_eq!(packet, format!("{}:{}", text.len(), text).into_bytes());
    assert_eq!(protocol.message_id, 2);
}

#[test]
fn message_bodies_parse_as_json() {
    match message_body(br#"[1,3,null,{"value":"x","b":[true,-2,1.5]}]"#) {
        Ok(Json::Array(items)) => {
            assert_eq!(items.len(), 4);
            assert!(matches!(items[0], Json::Number(JsonNumber::Unsigned(1))));
            assert!(matches!(items[2], Json::Null));
            match &items[3] {
                Json::Object(entries) => {
                    assert_eq!(entries[0].0, "b");
                    assert_eq!(entries[1].0, "value");
                    match &entries[0].1 {
                        Json::Array(b) => {
                            assert!(matches!(b[0], Json::Bool(true)));
                            assert!(matches!(b[1], Json::Number(JsonNumber::Negative(-2))));
                            assert!(matches!(&b[2], Json::Number(JsonNumber::Fractional(t)) if t == "1.5"));
                        }
                        _ => panic!("expected an array"),
                    }
                }
                _ => panic!("expected an object"),
            }
        }
        _ => panic!("expected an array"),
    }
    assert!(message_body(b"[1,").is_err());
    assert!(parse_json(b"").is_err());
}

#[test]
fn json_text_is_compact_or_indented() {
    let value = obj(vec![("b", n(1)), ("a", Json::Array(vec![s("x"), Json::Null]))]);
    assert_eq!(json_to_string(&value), r#"{"a":["x",null],"b":1}"#);
    assert_eq!(json_to_pretty_string(&value), "{\n  \"a\": [\n    \"x\",\n    null\n  ],\n  \"b\": 1\n}");
    assert_eq!(json_quote("a\"b\\c\n"), r#""a\"b\\c\n""#);
    assert_eq!(Output::Json { value: s("v"), pretty: false }.text(), "\"v\"");
    assert_eq!(Output::Line("plain".to_string()).text(), "plain");
    let fractional = Json::Number(JsonNumber::Fractional("2.5".to_string()));
    assert_eq!(json_to_string(&fractional), "2.5");
}
