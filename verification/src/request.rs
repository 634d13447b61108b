//! Outbound messages and the JSON object each one becomes on the wire.

use serde_json::Value;
use vstd::prelude::*;

use crate::json::{json_model, new_members, object_value, set_member, text_value, Json, Members};
use crate::json::{json_members, member_of, no_members};

verus! {

/// A message from this client to the bus.
///
/// `body` and `headers` are JSON values chosen by the caller; they travel as
/// they are. An optional field that is `None` does not appear on the wire.
#[allow(non_snake_case)]
pub enum Request {
    /// Delivery to one consumer of `address`, who may answer to
    /// `replyAddress`.
    Send { address: String, body: Value, headers: Option<Value>, replyAddress: Option<String> },
    /// Delivery to every consumer of `address`.
    Publish { address: String, body: Value, headers: Option<Value>, replyAddress: Option<String> },
    /// Asks the bus to forward what arrives at `address`.
    Register { address: String, headers: Option<Value> },
    /// Takes a registration back.
    Unregister { address: String, headers: Option<Value> },
    /// Liveness probe.
    Ping,
}

/// What a [`Request`] says, with strings as sequences of characters and JSON
/// values as documents.
pub enum RequestView {
    Send {
        address: Seq<char>,
        body: Json,
        headers: Option<Json>,
        reply_address: Option<Seq<char>>,
    },
    Publish {
        address: Seq<char>,
        body: Json,
        headers: Option<Json>,
        reply_address: Option<Seq<char>>,
    },
    Register { address: Seq<char>, headers: Option<Json> },
    Unregister { address: Seq<char>, headers: Option<Json> },
    Ping,
}

/// The document of an optional JSON value.
pub open spec fn optional_model(v: Option<Value>) -> Option<Json> {
    match v {
        Some(v) => Some(json_model(v)),
        None => None,
    }
}

/// The characters of an optional string.
pub open spec fn optional_text(s: Option<String>) -> Option<Seq<char>> {
    match s {
        Some(s) => Some(s@),
        None => None,
    }
}

impl View for Request {
    type V = RequestView;

    open spec fn view(&self) -> RequestView {
        match *self {
            Request::Send { address, body, headers, replyAddress } => RequestView::Send {
                address: address@,
                body: json_model(body),
                headers: optional_model(headers),
                reply_address: optional_text(replyAddress),
            },
            Request::Publish { address, body, headers, replyAddress } => RequestView::Publish {
                address: address@,
                body: json_model(body),
                headers: optional_model(headers),
                reply_address: optional_text(replyAddress),
            },
            Request::Register { address, headers } => RequestView::Register {
                address: address@,
                headers: optional_model(headers),
            },
            Request::Unregister { address, headers } => RequestView::Unregister {
                address: address@,
                headers: optional_model(headers),
            },
            Request::Ping => RequestView::Ping,
        }
    }
}

/// `members` with `key` set to `value` where there is one, and `members`
/// itself where there is none.
pub open spec fn with_optional(
    members: Map<Seq<char>, Json>,
    key: Seq<char>,
    value: Option<Json>,
) -> Map<Seq<char>, Json> {
    match value {
        Some(v) => members.insert(key, v),
        None => members,
    }
}

/// `text` as an optional JSON string.
pub open spec fn optional_string(text: Option<Seq<char>>) -> Option<Json> {
    match text {
        Some(s) => Some(Json::Text(s)),
        None => None,
    }
}

/// The members of a `send` or `publish` object.
pub open spec fn delivery_members(
    tag: Seq<char>,
    address: Seq<char>,
    body: Json,
    headers: Option<Json>,
    reply_address: Option<Seq<char>>,
) -> Map<Seq<char>, Json> {
    with_optional(
        with_optional(
            no_members().insert("type"@, Json::Text(tag)).insert(
                "address"@,
                Json::Text(address),
            ).insert("body"@, body),
            "headers"@,
            headers,
        ),
        "replyAddress"@,
        optional_string(reply_address),
    )
}

/// The members of a `register` or `unregister` object.
pub open spec fn subscription_members(
    tag: Seq<char>,
    address: Seq<char>,
    headers: Option<Json>,
) -> Map<Seq<char>, Json> {
    with_optional(
        no_members().insert("type"@, Json::Text(tag)).insert("address"@, Json::Text(address)),
        "headers"@,
        headers,
    )
}

/// The value of the `type` member that tells the five kinds apart.
pub open spec fn type_tag(r: RequestView) -> Seq<char> {
    match r {
        RequestView::Send { .. } => "send"@,
        RequestView::Publish { .. } => "publish"@,
        RequestView::Register { .. } => "register"@,
        RequestView::Unregister { .. } => "unregister"@,
        RequestView::Ping => "ping"@,
    }
}

/// The JSON object that stands for a request on the wire: its `type`, and
/// each field that is present under its own name.
pub open spec fn wire_value(r: RequestView) -> Json {
    match r {
        RequestView::Send { address, body, headers, reply_address } => Json::Object(
            delivery_members(type_tag(r), address, body, headers, reply_address),
        ),
        RequestView::Publish { address, body, headers, reply_address } => Json::Object(
            delivery_members(type_tag(r), address, body, headers, reply_address),
        ),
        RequestView::Register { address, headers } => Json::Object(
            subscription_members(type_tag(r), address, headers),
        ),
        RequestView::Unregister { address, headers } => Json::Object(
            subscription_members(type_tag(r), address, headers),
        ),
        RequestView::Ping => Json::Object(no_members().insert("type"@, Json::Text(type_tag(r)))),
    }
}

/// The address that a request names; a ping names none.
pub open spec fn address_of(r: RequestView) -> Option<Seq<char>> {
    match r {
        RequestView::Send { address, .. } => Some(address),
        RequestView::Publish { address, .. } => Some(address),
        RequestView::Register { address, .. } => Some(address),
        RequestView::Unregister { address, .. } => Some(address),
        RequestView::Ping => None,
    }
}

/// The body that a request carries; only deliveries carry one.
pub open spec fn body_of(r: RequestView) -> Option<Json> {
    match r {
        RequestView::Send { body, .. } => Some(body),
        RequestView::Publish { body, .. } => Some(body),
        _ => None,
    }
}

/// The headers that a request carries, if any.
pub open spec fn headers_of(r: RequestView) -> Option<Json> {
    match r {
        RequestView::Send { headers, .. } => headers,
        RequestView::Publish { headers, .. } => headers,
        RequestView::Register { headers, .. } => headers,
        RequestView::Unregister { headers, .. } => headers,
        RequestView::Ping => None,
    }
}

/// The address that a request wants its answer sent to, if any.
pub open spec fn reply_address_of(r: RequestView) -> Option<Seq<char>> {
    match r {
        RequestView::Send { reply_address, .. } => reply_address,
        RequestView::Publish { reply_address, .. } => reply_address,
        _ => None,
    }
}

/// The wire object of a request, member by member: `type` names the kind,
/// every field that is present stands under its own name, a field that is
/// absent has no member at all, and there are no other members.
pub proof fn lemma_wire_members(r: RequestView)
    ensures
        wire_value(r) is Object,
        member_of(wire_value(r), "type"@) == Some(Json::Text(type_tag(r))),
        member_of(wire_value(r), "address"@) == optional_string(address_of(r)),
        member_of(wire_value(r), "body"@) == body_of(r),
        member_of(wire_value(r), "headers"@) == headers_of(r),
        member_of(wire_value(r), "replyAddress"@) == optional_string(reply_address_of(r)),
        forall|key: Seq<char>| #[trigger]
            member_of(wire_value(r), key) is Some ==> key == "type"@ || key == "address"@ || key
                == "body"@ || key == "headers"@ || key == "replyAddress"@,
{
    reveal_strlit("type");
    reveal_strlit("address");
    reveal_strlit("body");
    reveal_strlit("headers");
    reveal_strlit("replyAddress");
    assert("type"@.len() == 4);
    assert("address"@.len() == 7);
    assert("body"@[0] == 'b');
    assert("type"@[0] == 't');
    assert("headers"@[0] == 'h');
    assert("address"@[0] == 'a');
    assert("replyAddress"@.len() == 12);
}

/// Sets `key` in `members` to a copy of `value`, if there is a value.
fn set_optional(members: &mut Members, key: &str, value: &Option<Value>)
    ensures
        json_members(*final(members)) == with_optional(
            json_members(*old(members)),
            key@,
            optional_model(*value),
        ),
{
    if let Some(v) = value {
        set_member(members, key, v.clone());
    }
}

/// Sets `key` in `members` to the JSON string `text`, if there is a text.
fn set_optional_text(members: &mut Members, key: &str, text: &Option<String>)
    ensures
        json_members(*final(members)) == with_optional(
            json_members(*old(members)),
            key@,
            optional_string(optional_text(*text)),
        ),
{
    if let Some(s) = text {
        set_member(members, key, text_value(s.as_str()));
    }
}

/// Builds the object of a `send` or `publish`.
fn delivery_json(
    tag: &str,
    address: &String,
    body: &Value,
    headers: &Option<Value>,
    reply_address: &Option<String>,
) -> (v: Value)
    ensures
        json_model(v) == Json::Object(
            delivery_members(
                tag@,
                address@,
                json_model(*body),
                optional_model(*headers),
                optional_text(*reply_address),
            ),
        ),
{
    let mut members = new_members();
    set_member(&mut members, "type", text_value(tag));
    set_member(&mut members, "address", text_value(address.as_str()));
    set_member(&mut members, "body", body.clone());
    set_optional(&mut members, "headers", headers);
    set_optional_text(&mut members, "replyAddress", reply_address);
    object_value(members)
}

/// Builds the object of a `register` or `unregister`.
fn subscription_json(tag: &str, address: &String, headers: &Option<Value>) -> (v: Value)
    ensures
        json_model(v) == Json::Object(
            subscription_members(tag@, address@, optional_model(*headers)),
        ),
{
    let mut members = new_members();
    set_member(&mut members, "type", text_value(tag));
    set_member(&mut members, "address", text_value(address.as_str()));
    set_optional(&mut members, "headers", headers);
    object_value(members)
}

impl Request {
    /// The JSON object that goes on the wire for this request.
    pub fn to_json(&self) -> (v: Value)
        ensures
            json_model(v) == wire_value(self@),
    {
        match self {
            Request::Send { address, body, headers, replyAddress } => delivery_json(
                "send",
                address,
                body,
                headers,
                replyAddress,
            ),
            Request::Publish { address, body, headers, replyAddress } => delivery_json(
                "publish",
                address,
                body,
                headers,
                replyAddress,
            ),
            Request::Register { address, headers } => subscription_json(
                "register",
                address,
                headers,
            ),
            Request::Unregister { address, headers } => subscription_json(
                "unregister",
                address,
                headers,
            ),
            Request::Ping => {
                let mut members = new_members();
                set_member(&mut members, "type", text_value("ping"));
                object_value(members)
            },
        }
    }
}

} // verus!
