use serde_json::Value;
use vertx_tcp_eventbus_bridge_client_rust::error::BridgeError;
use vertx_tcp_eventbus_bridge_client_rust::response::{
    ErrorType, Response, ResponseFailObject, ResponseMessageObject,
};

fn json(text: &str) -> Value {
    serde_json::from_str(text).unwrap()
}

fn malformed(text: &str) {
    assert!(matches!(Response::from_slice(text.as_bytes()), Err(BridgeError::MalformedFrame)));
}

#[test]
fn known_error_is_classified_as_error() {
    let (response, address) =
        Response::from_slice(b"{\"type\":\"err\",\"address\":\"a\",\"message\":\"unknown_address\"}")
            .unwrap();
    assert!(matches!(response, Response::ERR(ErrorType::UnknownAddress)));
    assert_eq!(address, "a");
}

#[test]
fn each_known_error_has_its_kind() {
    let cases = [
        ("access_denied", ErrorType::AccessDenied),
        ("address_required", ErrorType::AddressRequired),
        ("unknown_address", ErrorType::UnknownAddress),
        ("unknown_type", ErrorType::UnknownType),
    ];
    for (message, kind) in cases {
        let text = format!("{{\"type\":\"err\",\"address\":\"x.y\",\"message\":\"{}\"}}", message);
        let (response, address) = Response::from_slice(text.as_bytes()).unwrap();
        match response {
            Response::ERR(found) => assert_eq!(found, kind),
            _ => panic!("a known error message must give an error"),
        }
        assert_eq!(address, "x.y");
    }
}

#[test]
fn other_error_is_classified_as_failure() {
    let (response, address) = Response::from_slice(
        b"{\"type\":\"err\",\"address\":\"a\",\"failureCode\":1,\"failureType\":\"RECIPIENT_FAILURE\",\"message\":\"boom\",\"sourceAddress\":\"a\"}",
    )
    .unwrap();
    match response {
        Response::MessageFail(f) => {
            assert_eq!(f.failureCode, 1);
            assert_eq!(f.failureType, "RECIPIENT_FAILURE");
            assert_eq!(f.message, "boom");
            assert_eq!(f.sourceAddress, "a");
        }
        _ => panic!("an error with another message must give a failure"),
    }
    assert_eq!(address, "a");
}

#[test]
fn failure_is_routed_by_address_not_by_source() {
    let (response, address) = Response::from_slice(
        b"{\"type\":\"err\",\"address\":\"reply.1\",\"failureCode\":-7,\"failureType\":\"TIMEOUT\",\"message\":\"late\",\"sourceAddress\":\"svc\"}",
    )
    .unwrap();
    match response {
        Response::MessageFail(f) => {
            assert_eq!(f.failureCode, -7);
            assert_eq!(f.sourceAddress, "svc");
        }
        _ => panic!("expected a failure"),
    }
    assert_eq!(address, "reply.1");
}

#[test]
fn pong_is_routed_by_the_empty_address() {
    let (response, address) = Response::from_slice(b"{\"type\":\"pong\"}").unwrap();
    assert!(matches!(response, Response::PONG));
    assert_eq!(address, "");
}

#[test]
fn pong_ignores_an_address() {
    let (response, address) =
        Response::from_slice(b"{\"type\":\"pong\",\"address\":\"a\"}").unwrap();
    assert!(matches!(response, Response::PONG));
    assert_eq!(address, "");
}

#[test]
fn message_with_every_field() {
    let (response, address) = Response::from_slice(
        b"{\"type\":\"message\",\"address\":\"svc\",\"body\":{\"y\":2},\"headers\":{\"h\":\"v\"},\"replyAddress\":\"back\",\"send\":true}",
    )
    .unwrap();
    match response {
        Response::MESSAGE(m) => {
            assert_eq!(m.address, "svc");
            assert_eq!(m.body, json("{\"y\":2}"));
            assert_eq!(m.headers, Some(json("{\"h\":\"v\"}")));
            assert_eq!(m.replyAddress.as_deref(), Some("back"));
            assert!(m.send);
        }
        _ => panic!("expected a message"),
    }
    assert_eq!(address, "svc");
}

#[test]
fn message_without_optional_fields() {
    let (response, address) = Response::from_slice(
        b"{\"type\":\"message\",\"address\":\"svc\",\"body\":null,\"send\":false}",
    )
    .unwrap();
    match response {
        Response::MESSAGE(m) => {
            assert_eq!(m.address, "svc");
            assert_eq!(m.body, Value::Null);
            assert!(m.headers.is_none());
            assert!(m.replyAddress.is_none());
            assert!(!m.send);
        }
        _ => panic!("expected a message"),
    }
    assert_eq!(address, "svc");
}

#[test]
fn null_optional_fields_count_as_absent() {
    let (response, _) = Response::from_slice(
        b"{\"type\":\"message\",\"address\":\"svc\",\"body\":1,\"headers\":null,\"replyAddress\":null,\"send\":true}",
    )
    .unwrap();
    match response {
        Response::MESSAGE(m) => {
            assert!(m.headers.is_none());
            assert!(m.replyAddress.is_none());
        }
        _ => panic!("expected a message"),
    }
}

#[test]
fn unknown_type_is_malformed() {
    malformed("{\"type\":\"hello\",\"address\":\"a\"}");
    malformed("{\"type\":\"PONG\"}");
    malformed("{\"type\":\"\"}");
}

#[test]
fn missing_or_odd_type_is_malformed() {
    malformed("{\"address\":\"a\"}");
    malformed("{\"type\":1}");
    malformed("{\"type\":null}");
    malformed("[\"pong\"]");
    malformed("\"pong\"");
    malformed("null");
}

#[test]
fn text_that_is_not_json_is_malformed() {
    malformed("");
    malformed("{");
    malformed("{\"type\":\"pong\"");
    malformed("{\"type\":\"pong\"} x");
    malformed("pong");
    assert!(matches!(Response::from_slice(&[0xff, 0xfe]), Err(BridgeError::MalformedFrame)));
}

#[test]
fn error_without_address_or_message_is_malformed() {
    malformed("{\"type\":\"err\",\"message\":\"unknown_type\"}");
    malformed("{\"type\":\"err\",\"address\":\"a\"}");
    malformed("{\"type\":\"err\",\"address\":1,\"message\":\"unknown_type\"}");
    malformed("{\"type\":\"err\",\"address\":\"a\",\"message\":5}");
}

#[test]
fn failure_with_missing_or_odd_fields_is_malformed() {
    malformed("{\"type\":\"err\",\"address\":\"a\",\"message\":\"boom\"}");
    malformed("{\"type\":\"err\",\"address\":\"a\",\"failureType\":\"T\",\"message\":\"boom\",\"sourceAddress\":\"a\"}");
    malformed("{\"type\":\"err\",\"address\":\"a\",\"failureCode\":1,\"message\":\"boom\",\"sourceAddress\":\"a\"}");
    malformed("{\"type\":\"err\",\"address\":\"a\",\"failureCode\":1,\"failureType\":\"T\",\"message\":\"boom\"}");
    malformed("{\"type\":\"err\",\"address\":\"a\",\"failureCode\":\"1\",\"failureType\":\"T\",\"message\":\"boom\",\"sourceAddress\":\"a\"}");
    malformed("{\"type\":\"err\",\"address\":\"a\",\"failureCode\":1.5,\"failureType\":\"T\",\"message\":\"boom\",\"sourceAddress\":\"a\"}");
    malformed("{\"type\":\"err\",\"address\":\"a\",\"failureCode\":1,\"failureType\":2,\"message\":\"boom\",\"sourceAddress\":\"a\"}");
}

#[test]
fn failure_code_must_fit_32_bits() {
    let text = |code: &str| {
        format!(
            "{{\"type\":\"err\",\"address\":\"a\",\"failureCode\":{},\"failureType\":\"T\",\"message\":\"boom\",\"sourceAddress\":\"s\"}}",
            code
        )
    };
    let code_of = |code: &str| match Response::from_slice(text(code).as_bytes()) {
        Ok((Response::MessageFail(f), _)) => Some(f.failureCode),
        Ok(_) => panic!("expected a failure"),
        Err(_) => None,
    };
    assert_eq!(code_of("2147483647"), Some(i32::MAX));
    assert_eq!(code_of("-2147483648"), Some(i32::MIN));
    assert_eq!(code_of("0"), Some(0));
    assert_eq!(code_of("2147483648"), None);
    assert_eq!(code_of("-2147483649"), None);
    assert_eq!(code_of("18446744073709551615"), None);
    assert_eq!(code_of("1e2"), None);
}

#[test]
fn message_with_missing_or_odd_fields_is_malformed() {
    malformed("{\"type\":\"message\",\"body\":1,\"send\":true}");
    malformed("{\"type\":\"message\",\"address\":\"a\",\"send\":true}");
    malformed("{\"type\":\"message\",\"address\":\"a\",\"body\":1}");
    malformed("{\"type\":\"message\",\"address\":\"a\",\"body\":1,\"send\":\"true\"}");
    malformed("{\"type\":\"message\",\"address\":\"a\",\"body\":1,\"send\":null}");
    malformed("{\"type\":\"message\",\"address\":7,\"body\":1,\"send\":true}");
    malformed("{\"type\":\"message\",\"address\":\"a\",\"body\":1,\"replyAddress\":3,\"send\":true}");
}

#[test]
fn from_value_agrees_with_from_slice() {
    let value = json("{\"type\":\"err\",\"address\":\"a\",\"message\":\"access_denied\"}");
    let (response, address) = Response::from_value(&value).unwrap();
    assert!(matches!(response, Response::ERR(ErrorType::AccessDenied)));
    assert_eq!(address, "a");
    assert!(matches!(
        Response::from_value(&json("{\"type\":\"nope\"}")),
        Err(BridgeError::MalformedFrame)
    ));
}

#[test]
fn parts_can_be_read_on_their_own() {
    let value = json(
        "{\"failureCode\":3,\"failureType\":\"NO_HANDLERS\",\"message\":\"none\",\"sourceAddress\":\"s\"}",
    );
    let failure = ResponseFailObject::from_value(&value).unwrap();
    assert_eq!(failure.failureCode, 3);
    assert_eq!(failure.failureType, "NO_HANDLERS");
    assert_eq!(failure.message, "none");
    assert_eq!(failure.sourceAddress, "s");
    assert!(ResponseMessageObject::from_value(&value).is_none());

    let value = json("{\"address\":\"a\",\"body\":[1],\"send\":true}");
    let message = ResponseMessageObject::from_value(&value).unwrap();
    assert_eq!(message.address, "a");
    assert_eq!(message.body, json("[1]"));
    assert!(message.send);
    assert!(ResponseFailObject::from_value(&value).is_none());
}
