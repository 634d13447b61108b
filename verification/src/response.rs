//! Inbound messages and how a parsed frame is told apart into one.

use serde_json::Value;
use vstd::prelude::*;

use crate::error::BridgeError;
use crate::json::{bool_of, integer_of, json_model, json_parse, member_of, text_of, Json};
use crate::json::{member, parse};
use crate::request::{optional_model, optional_text};
use crate::text::same_text;

verus! {

/// A message from the bus to this client.
#[derive(Debug, Clone)]
pub enum Response {
    /// The bus refused a request.
    ERR(ErrorType),
    /// A message delivered to an address this client listens on.
    MESSAGE(ResponseMessageObject),
    /// A consumer reported that it could not handle a message.
    MessageFail(ResponseFailObject),
    /// The answer to a ping.
    PONG,
}

/// The reasons for which the bus refuses a request.
#[derive(Debug, Clone, Copy, PartialEq, Eq, Structural)]
pub enum ErrorType {
    AccessDenied,
    AddressRequired,
    UnknownAddress,
    UnknownType,
}

/// A delivered message.
#[derive(Debug, Clone)]
#[allow(non_snake_case)]
pub struct ResponseMessageObject {
    pub address: String,
    pub body: Value,
    pub headers: Option<Value>,
    pub replyAddress: Option<String>,
    pub send: bool,
}

/// A failure reported by a consumer.
#[derive(Debug, Clone)]
#[allow(non_snake_case)]
pub struct ResponseFailObject {
    pub failureCode: i32,
    pub failureType: String,
    pub message: String,
    pub sourceAddress: String,
}

/// What a [`ResponseMessageObject`] says.
pub struct MessageView {
    pub address: Seq<char>,
    pub body: Json,
    pub headers: Option<Json>,
    pub reply_address: Option<Seq<char>>,
    pub send: bool,
}

/// What a [`ResponseFailObject`] says.
pub struct FailView {
    pub failure_code: i32,
    pub failure_type: Seq<char>,
    pub message: Seq<char>,
    pub source_address: Seq<char>,
}

/// What a [`Response`] says.
pub enum ResponseView {
    Rejected(ErrorType),
    Message(MessageView),
    Failure(FailView),
    Pong,
}

impl View for ResponseMessageObject {
    type V = MessageView;

    open spec fn view(&self) -> MessageView {
        MessageView {
            address: self.address@,
            body: json_model(self.body),
            headers: optional_model(self.headers),
            reply_address: optional_text(self.replyAddress),
            send: self.send,
        }
    }
}

impl View for ResponseFailObject {
    type V = FailView;

    open spec fn view(&self) -> FailView {
        FailView {
            failure_code: self.failureCode,
            failure_type: self.failureType@,
            message: self.message@,
            source_address: self.sourceAddress@,
        }
    }
}

impl View for Response {
    type V = ResponseView;

    open spec fn view(&self) -> ResponseView {
        match *self {
            Response::ERR(kind) => ResponseView::Rejected(kind),
            Response::MESSAGE(m) => ResponseView::Message(m@),
            Response::MessageFail(f) => ResponseView::Failure(f@),
            Response::PONG => ResponseView::Pong,
        }
    }
}

/// The text of the member `key` of `doc`, where `doc` is an object whose
/// member `key` is a string.
pub open spec fn string_member(doc: Json, key: Seq<char>) -> Option<Seq<char>> {
    match member_of(doc, key) {
        Some(m) => text_of(m),
        None => None,
    }
}

/// The refusal that a `message` text of an `err` frame names, if it is one
/// of the four that the bus defines.
pub open spec fn error_kind(message: Seq<char>) -> Option<ErrorType> {
    if message == "access_denied"@ {
        Some(ErrorType::AccessDenied)
    } else if message == "address_required"@ {
        Some(ErrorType::AddressRequired)
    } else if message == "unknown_address"@ {
        Some(ErrorType::UnknownAddress)
    } else if message == "unknown_type"@ {
        Some(ErrorType::UnknownType)
    } else {
        None
    }
}

/// `doc` read as a failure report: all four fields must be there, the code an
/// integer that fits 32 bits and the others strings.
pub open spec fn failure_of(doc: Json) -> Option<FailView> {
    match (
        member_of(doc, "failureCode"@),
        string_member(doc, "failureType"@),
        string_member(doc, "message"@),
        string_member(doc, "sourceAddress"@),
    ) {
        (Some(code), Some(failure_type), Some(message), Some(source_address)) => match integer_of(
            code,
        ) {
            Some(n) => if i32::MIN <= n <= i32::MAX {
                Some(FailView { failure_code: n as i32, failure_type, message, source_address })
            } else {
                None
            },
            None => None,
        },
        _ => None,
    }
}

/// An optional member: nothing where `key` is missing or `null`, else the
/// member itself.
pub open spec fn present_member(doc: Json, key: Seq<char>) -> Option<Json> {
    match member_of(doc, key) {
        Some(m) => if m is Null {
            None
        } else {
            Some(m)
        },
        None => None,
    }
}

/// Whether the member `key` of `doc` can be read as an optional string: it is
/// missing, `null` or a string.
pub open spec fn optional_string_ok(doc: Json, key: Seq<char>) -> bool {
    match present_member(doc, key) {
        Some(m) => m is Text,
        None => true,
    }
}

/// `doc` read as a delivered message: `address`, `body` and `send` must be
/// there, `headers` and `replyAddress` may be missing or `null`.
pub open spec fn message_of(doc: Json) -> Option<MessageView> {
    match (string_member(doc, "address"@), member_of(doc, "body"@), member_of(doc, "send"@)) {
        (Some(address), Some(body), Some(send)) => match bool_of(send) {
            Some(send) => if optional_string_ok(doc, "replyAddress"@) {
                Some(
                    MessageView {
                        address,
                        body,
                        headers: present_member(doc, "headers"@),
                        reply_address: string_member(doc, "replyAddress"@),
                        send,
                    },
                )
            } else {
                None
            },
            None => None,
        },
        _ => None,
    }
}

/// `doc` read as an `err` frame. A frame whose `message` is one of the four
/// known refusals is that refusal. Any other `err` frame is a failure report
/// under the same `type`, and is read again as one.
pub open spec fn rejection_of(doc: Json) -> Option<(ResponseView, Seq<char>)> {
    match (string_member(doc, "address"@), string_member(doc, "message"@)) {
        (Some(address), Some(message)) => match error_kind(message) {
            Some(kind) => Some((ResponseView::Rejected(kind), address)),
            None => match failure_of(doc) {
                Some(f) => Some((ResponseView::Failure(f), address)),
                None => None,
            },
        },
        _ => None,
    }
}

/// The response that the document `doc` stands for, with the address it is
/// to be routed by; nothing where `doc` is none of the known shapes.
///
/// The `type` member decides: `pong` has no address and is routed by the
/// empty string; `err` and `message` are routed by their `address`.
pub open spec fn classify(doc: Json) -> Option<(ResponseView, Seq<char>)> {
    match string_member(doc, "type"@) {
        Some(tag) => if tag == "pong"@ {
            Some((ResponseView::Pong, Seq::empty()))
        } else if tag == "err"@ {
            rejection_of(doc)
        } else if tag == "message"@ {
            match message_of(doc) {
                Some(m) => Some((ResponseView::Message(m), m.address)),
                None => None,
            }
        } else {
            None
        },
        None => None,
    }
}

/// The response that the payload `bytes` stands for: the bytes must spell a
/// JSON document, and the document must be one of the known shapes.
pub open spec fn decode_payload(bytes: Seq<u8>) -> Option<(ResponseView, Seq<char>)> {
    match json_parse(bytes) {
        Some(doc) => classify(doc),
        None => None,
    }
}

/// Reads the string member `key` of `v`.
fn string_field<'a>(v: &'a Value, key: &str) -> (r: Option<&'a str>)
    ensures
        match r {
            Some(s) => string_member(json_model(*v), key@) == Some(s@),
            None => string_member(json_model(*v), key@) is None,
        },
{
    match member(v, key) {
        Some(m) => m.as_str(),
        None => None,
    }
}

/// Reads the optional member `key` of `v`.
fn present_field<'a>(v: &'a Value, key: &str) -> (r: Option<&'a Value>)
    ensures
        match r {
            Some(m) => present_member(json_model(*v), key@) == Some(json_model(*m)),
            None => present_member(json_model(*v), key@) is None,
        },
{
    match member(v, key) {
        Some(m) => if m.is_null() {
            None
        } else {
            Some(m)
        },
        None => None,
    }
}

/// Tells which of the four known refusals `message` names.
fn error_kind_of(message: &str) -> (r: Option<ErrorType>)
    ensures
        r == error_kind(message@),
{
    if same_text(message, "access_denied") {
        Some(ErrorType::AccessDenied)
    } else if same_text(message, "address_required") {
        Some(ErrorType::AddressRequired)
    } else if same_text(message, "unknown_address") {
        Some(ErrorType::UnknownAddress)
    } else if same_text(message, "unknown_type") {
        Some(ErrorType::UnknownType)
    } else {
        None
    }
}

impl ResponseFailObject {
    /// Reads a failure report out of a parsed frame.
    pub fn from_value(v: &Value) -> (r: Option<ResponseFailObject>)
        ensures
            match r {
                Some(f) => failure_of(json_model(*v)) == Some(f@),
                None => failure_of(json_model(*v)) is None,
            },
    {
        let code = match member(v, "failureCode") {
            Some(m) => m.as_i64(),
            None => None,
        };
        let failure_type = string_field(v, "failureType");
        let message = string_field(v, "message");
        let source_address = string_field(v, "sourceAddress");
        match (code, failure_type, message, source_address) {
            (Some(n), Some(failure_type), Some(message), Some(source_address)) => {
                if n < -0x8000_0000i64 || n > 0x7fff_ffffi64 {
                    None
                } else {
                    Some(
                        ResponseFailObject {
                            failureCode: n as i32,
                            failureType: failure_type.to_owned(),
                            message: message.to_owned(),
                            sourceAddress: source_address.to_owned(),
                        },
                    )
                }
            },
            _ => None,
        }
    }
}

impl ResponseMessageObject {
    /// Reads a delivered message out of a parsed frame.
    pub fn from_value(v: &Value) -> (r: Option<ResponseMessageObject>)
        ensures
            match r {
                Some(m) => message_of(json_model(*v)) == Some(m@),
                None => message_of(json_model(*v)) is None,
            },
    {
        let address = string_field(v, "address");
        let body = member(v, "body");
        let send = match member(v, "send") {
            Some(m) => m.as_bool(),
            None => None,
        };
        let headers = present_field(v, "headers");
        let reply = present_field(v, "replyAddress");
        match (address, body, send) {
            (Some(address), Some(body), Some(send)) => {
                let reply_address = match reply {
                    Some(r) => match r.as_str() {
                        Some(s) => Some(s.to_owned()),
                        None => { return None; },
                    },
                    None => None,
                };
                let headers = match headers {
                    Some(h) => Some(h.clone()),
                    None => None,
                };
                Some(
                    ResponseMessageObject {
                        address: address.to_owned(),
                        body: body.clone(),
                        headers,
                        replyAddress: reply_address,
                        send,
                    },
                )
            },
            _ => None,
        }
    }
}

impl Response {
    /// Tells a parsed frame apart into a response and the address to route
    /// it by. Fails with `MalformedFrame` exactly where the frame is none of
    /// the known shapes.
    pub fn from_value(v: &Value) -> (r: Result<(Response, String), BridgeError>)
        ensures
            match r {
                Ok((response, address)) => classify(json_model(*v)) == Some(
                    (response@, address@),
                ),
                Err(e) => e == BridgeError::MalformedFrame && classify(json_model(*v)) is None,
            },
    {
        let tag = match string_field(v, "type") {
            Some(tag) => tag,
            None => { return Err(BridgeError::MalformedFrame); },
        };
        if same_text(tag, "pong") {
            Ok((Response::PONG, String::new()))
        } else if same_text(tag, "err") {
            let address = string_field(v, "address");
            let message = string_field(v, "message");
            match (address, message) {
                (Some(address), Some(message)) => match error_kind_of(message) {
                    Some(kind) => Ok((Response::ERR(kind), address.to_owned())),
                    None => match ResponseFailObject::from_value(v) {
                        Some(f) => Ok((Response::MessageFail(f), address.to_owned())),
                        None => Err(BridgeError::MalformedFrame),
                    },
                },
                _ => Err(BridgeError::MalformedFrame),
            }
        } else if same_text(tag, "message") {
            match ResponseMessageObject::from_value(v) {
                Some(m) => {
                    let address = m.address.clone();
                    Ok((Response::MESSAGE(m), address))
                },
                None => Err(BridgeError::MalformedFrame),
            }
        } else {
            Err(BridgeError::MalformedFrame)
        }
    }

    /// Parses one payload: the bytes between two length prefixes. Fails with
    /// `MalformedFrame` exactly where the bytes are not JSON or the document
    /// is none of the known shapes.
    pub fn from_slice(s: &[u8]) -> (r: Result<(Response, String), BridgeError>)
        ensures
            match r {
                Ok((response, address)) => decode_payload(s@) == Some((response@, address@)),
                Err(e) => e == BridgeError::MalformedFrame && decode_payload(s@) is None,
            },
    {
        match parse(s) {
            Ok(v) => Response::from_value(&v),
            Err(_) => Err(BridgeError::MalformedFrame),
        }
    }
}

} // verus!
