use service_errors::wire::ErrorResponseBody;

#[test]
fn encode_plain_message() {
    let b = ErrorResponseBody {
        message: "email already exists".to_string(),
    };
    assert_eq!(b.encode(), "{\"message\":\"email already exists\"}");
}

#[test]
fn encode_escapes_quotes_and_backslashes() {
    let b = ErrorResponseBody {
        message: "a\"b\\c".to_string(),
    };
    assert_eq!(b.encode(), "{\"message\":\"a\\\"b\\\\c\"}");
}

#[test]
fn encode_empty_message() {
    let b = ErrorResponseBody {
        message: String::new(),
    };
    assert_eq!(b.encode(), "{\"message\":\"\"}");
}

#[test]
fn round_trip_plain() {
    let b = ErrorResponseBody {
        message: "duplicate key value".to_string(),
    };
    let d = ErrorResponseBody::decode(&b.encode()).unwrap();
    assert_eq!(d.message, "duplicate key value");
}

#[test]
fn round_trip_with_escapes() {
    let b = ErrorResponseBody {
        message: "say \"hi\" to c:\\temp".to_string(),
    };
    let d = ErrorResponseBody::decode(&b.encode()).unwrap();
    assert_eq!(d.message, "say \"hi\" to c:\\temp");
}

#[test]
fn round_trip_empty() {
    let b = ErrorResponseBody {
        message: String::new(),
    };
    let d = ErrorResponseBody::decode(&b.encode()).unwrap();
    assert_eq!(d.message, "");
}

#[test]
fn round_trip_non_ascii() {
    let b = ErrorResponseBody {
        message: "café déjà vu ☕".to_string(),
    };
    let d = ErrorResponseBody::decode(&b.encode()).unwrap();
    assert_eq!(d.message, "café déjà vu ☕");
}

#[test]
fn decode_plain_object() {
    let d = ErrorResponseBody::decode("{\"message\":\"Invalid UUID\"}").unwrap();
    assert_eq!(d.message, "Invalid UUID");
}

#[test]
fn decode_rejects_malformed_input() {
    assert!(ErrorResponseBody::decode("").is_none());
    assert!(ErrorResponseBody::decode("{}").is_none());
    assert!(ErrorResponseBody::decode("\"Unauthorized\"").is_none());
    assert!(ErrorResponseBody::decode("{\"msg\":\"x\"}").is_none());
    assert!(ErrorResponseBody::decode("{\"message\":\"x\"").is_none());
    assert!(ErrorResponseBody::decode("{\"message\":\"x}").is_none());
    assert!(ErrorResponseBody::decode("{\"message\":x\"}").is_none());
    assert!(ErrorResponseBody::decode("{\"message\":\"a\\x\"}").is_none());
    assert!(ErrorResponseBody::decode("{\"message\":\"a\"b\"}").is_none());
    assert!(ErrorResponseBody::decode("{\"message\":\"a\\\"}").is_none());
}
