//! Message kinds, the handshake, and the heartbeat.

use crate::json::{
    json_model, lemma_insert_get_other, lemma_insert_get_same, lemma_with_optional,
    value_from_str, value_from_u64, value_insert, value_is_object, value_object, Json,
    JsonNumber,
};
use crate::protocol::fields::{
    insert_optional, lemma_member_names, optional_text, optional_text_view, read_optional_text,
    read_text, read_unsigned, required_text, required_unsigned,
};
use vstd::prelude::*;
use vstd::string::*;

verus! {

/// The kind of a hub message. On the wire a kind is the integer given by
/// [`MessageType::tag`].
#[derive(Debug, Clone, Copy, PartialEq, Eq, Structural)]
pub enum MessageType {
    Invocation,
    StreamItem,
    Completion,
    StreamInvocation,
    CancelInvocation,
    Ping,
    Close,
    Other,
}

impl MessageType {
    /// The wire integer of a kind.
    pub open spec fn tag_of(self) -> u64 {
        match self {
            MessageType::Invocation => 1,
            MessageType::StreamItem => 2,
            MessageType::Completion => 3,
            MessageType::StreamInvocation => 4,
            MessageType::CancelInvocation => 5,
            MessageType::Ping => 6,
            MessageType::Close => 7,
            MessageType::Other => 8,
        }
    }

    /// The kind with the given wire integer; nothing for an integer outside 1
    /// to 8.
    pub open spec fn of_tag(tag: u64) -> Option<MessageType> {
        if tag == 1 {
            Some(MessageType::Invocation)
        } else if tag == 2 {
            Some(MessageType::StreamItem)
        } else if tag == 3 {
            Some(MessageType::Completion)
        } else if tag == 4 {
            Some(MessageType::StreamInvocation)
        } else if tag == 5 {
            Some(MessageType::CancelInvocation)
        } else if tag == 6 {
            Some(MessageType::Ping)
        } else if tag == 7 {
            Some(MessageType::Close)
        } else if tag == 8 {
            Some(MessageType::Other)
        } else {
            None
        }
    }

    /// The wire integer of this kind.
    pub fn tag(self) -> (tag: u64)
        ensures
            tag == self.tag_of(),
            1 <= tag <= 8,
    {
        match self {
            MessageType::Invocation => 1,
            MessageType::StreamItem => 2,
            MessageType::Completion => 3,
            MessageType::StreamInvocation => 4,
            MessageType::CancelInvocation => 5,
            MessageType::Ping => 6,
            MessageType::Close => 7,
            MessageType::Other => 8,
        }
    }

    /// The kind with the given wire integer.
    pub fn from_tag(tag: u64) -> (kind: Option<MessageType>)
        ensures
            kind == MessageType::of_tag(tag),
    {
        if tag == 1 {
            Some(MessageType::Invocation)
        } else if tag == 2 {
            Some(MessageType::StreamItem)
        } else if tag == 3 {
            Some(MessageType::Completion)
        } else if tag == 4 {
            Some(MessageType::StreamInvocation)
        } else if tag == 5 {
            Some(MessageType::CancelInvocation)
        } else if tag == 6 {
            Some(MessageType::Ping)
        } else if tag == 7 {
            Some(MessageType::Close)
        } else if tag == 8 {
            Some(MessageType::Other)
        } else {
            None
        }
    }

    /// The kind that a document declares in its `type` member; nothing where
    /// the member is absent, no integer, or outside 1 to 8.
    pub open spec fn of_document(document: Json) -> Option<MessageType> {
        match required_unsigned(document, "type"@) {
            Some(tag) => MessageType::of_tag(tag),
            None => None,
        }
    }

    /// The object that holds this kind as its only member.
    pub open spec fn envelope(self) -> Json {
        Json::Object(seq![("type"@, Json::Number(JsonNumber::PosInt(self.tag_of())))])
    }

    /// Reads the kind of a document.
    pub fn read(value: &serde_json::Value) -> (kind: Option<MessageType>)
        ensures
            kind == MessageType::of_document(json_model(*value)),
    {
        match read_unsigned(value, "type") {
            Some(tag) => MessageType::from_tag(tag),
            None => None,
        }
    }

    /// Starts the object of a message of this kind.
    pub fn write(self) -> (value: serde_json::Value)
        ensures
            json_model(value) == self.envelope(),
    {
        let value = value_insert(value_object(), "type", value_from_u64(self.tag()));
        assert(json_model(value) == self.envelope()) by {
            reveal_with_fuel(crate::json::object_insert, 2);
            assert(crate::json::object_insert(
                Seq::empty(),
                "type"@,
                Json::Number(JsonNumber::PosInt(self.tag_of())),
            ) =~= seq![("type"@, Json::Number(JsonNumber::PosInt(self.tag_of())))]);
        }
        value
    }
}

/// Every kind is read back from its own wire integer.
pub proof fn lemma_tag_round_trip(kind: MessageType)
    ensures
        MessageType::of_tag(kind.tag_of()) == Some(kind),
        MessageType::of_document(kind.envelope()) == Some(kind),
{
    reveal_with_fuel(crate::json::object_get, 2);
}

/// One transport that a negotiate reply offers.
#[derive(Debug, PartialEq)]
pub struct TransportSpec {
    pub transport: String,
    pub transfer_formats: Vec<String>,
}

/// The reply to a negotiate call.
#[derive(Debug, PartialEq)]
pub struct NegotiateResponseV0 {
    pub connection_id: String,
    pub negotiate_version: u8,
    pub available_transports: Vec<TransportSpec>,
}

/// Sent by the client to agree on the message format.
#[derive(Debug, PartialEq)]
pub struct HandshakeRequest {
    protocol: String,
    version: u8,
}

/// The mathematical value of a [`HandshakeRequest`].
pub struct HandshakeRequestView {
    pub protocol: Seq<char>,
    pub version: u8,
}

impl HandshakeRequestView {
    /// The document of a handshake request: `{"protocol":..,"version":..}`.
    pub open spec fn to_json(self) -> Json {
        Json::Object(Seq::empty()).with_member("protocol"@, Json::Text(self.protocol)).with_member(
            "version"@,
            Json::Number(JsonNumber::PosInt(self.version as u64)),
        )
    }

    /// The handshake request that a document holds; nothing where `protocol`
    /// is no string or `version` no integer up to 255.
    pub open spec fn of_json(document: Json) -> Option<HandshakeRequestView> {
        match (required_text(document, "protocol"@), required_unsigned(document, "version"@)) {
            (Some(protocol), Some(version)) => if version <= 255 {
                Some(HandshakeRequestView { protocol, version: version as u8 })
            } else {
                None
            },
            _ => None,
        }
    }
}

impl View for HandshakeRequest {
    type V = HandshakeRequestView;

    closed spec fn view(&self) -> HandshakeRequestView {
        HandshakeRequestView { protocol: self.protocol@, version: self.version }
    }
}

impl HandshakeRequest {
    /// A request for version 1 of the given protocol.
    pub fn new(protocol: String) -> (request: Self)
        ensures
            request@ == (HandshakeRequestView { protocol: protocol@, version: 1 }),
    {
        HandshakeRequest { protocol, version: 1 }
    }

    /// The document of this request.
    pub fn to_value(&self) -> (value: serde_json::Value)
        ensures
            json_model(value) == self@.to_json(),
    {
        let value = value_insert(value_object(), "protocol", value_from_str(self.protocol.as_str()));
        value_insert(value, "version", value_from_u64(self.version as u64))
    }

    /// Reads a request from its document.
    pub fn from_value(value: &serde_json::Value) -> (request: Option<Self>)
        ensures
            request is Some <==> HandshakeRequestView::of_json(json_model(*value)) is Some,
            request matches Some(r) ==> HandshakeRequestView::of_json(json_model(*value)) == Some(
                r@,
            ),
    {
        let protocol = read_text(value, "protocol");
        let version = read_unsigned(value, "version");
        match (protocol, version) {
            (Some(protocol), Some(version)) => {
                if version <= 255 {
                    Some(HandshakeRequest { protocol, version: version as u8 })
                } else {
                    None
                }
            },
            _ => None,
        }
    }
}

/// A handshake request is read back from its own document.
pub proof fn lemma_handshake_request_round_trip(request: HandshakeRequestView)
    ensures
        HandshakeRequestView::of_json(request.to_json()) == Some(request),
{
    lemma_member_names();
    let empty = Seq::<(Seq<char>, Json)>::empty();
    let protocol = Json::Text(request.protocol);
    let version = Json::Number(JsonNumber::PosInt(request.version as u64));
    let first = crate::json::object_insert(empty, "protocol"@, protocol);
    lemma_insert_get_same(empty, "protocol"@, protocol);
    lemma_insert_get_other(first, "version"@, version, "protocol"@);
    lemma_insert_get_same(first, "version"@, version);
}

/// Sent by the server in reply to a handshake request. It carries an error
/// where the handshake failed.
#[derive(Debug, PartialEq)]
pub struct HandshakeResponse {
    error: Option<String>,
}

/// The mathematical value of a [`HandshakeResponse`].
pub struct HandshakeResponseView {
    pub error: Option<Seq<char>>,
}

impl HandshakeResponseView {
    /// The document of a handshake reply: `{}` or `{"error":..}`.
    pub open spec fn to_json(self) -> Json {
        Json::Object(Seq::empty()).with_optional(
            "error"@,
            match self.error {
                Some(e) => Some(Json::Text(e)),
                None => None,
            },
        )
    }

    /// The handshake reply that a document holds; nothing where the document
    /// is no object, or `error` is given and no string.
    pub open spec fn of_json(document: Json) -> Option<HandshakeResponseView> {
        if document is Object {
            match optional_text(document, "error"@) {
                Some(error) => Some(HandshakeResponseView { error }),
                None => None,
            }
        } else {
            None
        }
    }
}

impl View for HandshakeResponse {
    type V = HandshakeResponseView;

    closed spec fn view(&self) -> HandshakeResponseView {
        HandshakeResponseView { error: optional_text_view(self.error) }
    }
}

impl HandshakeResponse {
    /// A reply with the given error, or a reply of success without one.
    pub fn new(error: Option<String>) -> (response: Self)
        ensures
            response@ == (HandshakeResponseView { error: optional_text_view(error) }),
    {
        HandshakeResponse { error }
    }

    /// The error that the server reported, if any.
    pub fn get_error(&self) -> (error: Option<String>)
        ensures
            optional_text_view(error) == self@.error,
    {
        match &self.error {
            Some(e) => Some(e.clone()),
            None => None,
        }
    }

    /// The document of this reply.
    pub fn to_value(&self) -> (value: serde_json::Value)
        ensures
            json_model(value) == self@.to_json(),
    {
        let error = match &self.error {
            Some(e) => Some(value_from_str(e.as_str())),
            None => None,
        };
        insert_optional(value_object(), "error", error)
    }

    /// Reads a reply from its document.
    pub fn from_value(value: &serde_json::Value) -> (response: Option<Self>)
        ensures
            response is Some <==> HandshakeResponseView::of_json(json_model(*value)) is Some,
            response matches Some(r) ==> HandshakeResponseView::of_json(json_model(*value))
                == Some(r@),
    {
        if !value_is_object(value) {
            return None;
        }
        match read_optional_text(value, "error") {
            Some(error) => Some(HandshakeResponse { error }),
            None => None,
        }
    }
}

/// A handshake reply is read back from its own document.
pub proof fn lemma_handshake_response_round_trip(response: HandshakeResponseView)
    ensures
        HandshakeResponseView::of_json(response.to_json()) == Some(response),
{
    let empty = Json::Object(Seq::empty());
    let member = match response.error {
        Some(e) => Some(Json::Text(e)),
        None => None,
    };
    lemma_with_optional(empty, "error"@, member);
}

/// Sent by either side to check that the connection is alive.
#[derive(Debug, PartialEq)]
pub struct Ping {
    message_type: MessageType,
}

impl Ping {
    /// A heartbeat message.
    pub fn new() -> (ping: Self)
        ensures
            ping.message_type() == MessageType::Ping,
    {
        Ping { message_type: MessageType::Ping }
    }

    /// The kind that this message declares.
    pub closed spec fn spec_message_type(&self) -> MessageType {
        self.message_type
    }

    /// The kind that this message declares.
    #[verifier::when_used_as_spec(spec_message_type)]
    pub fn message_type(&self) -> (kind: MessageType)
        ensures
            kind == self.message_type(),
    {
        self.message_type
    }

    /// The document of this message: `{"type":<kind>}`.
    pub fn to_value(&self) -> (value: serde_json::Value)
        ensures
            json_model(value) == self.message_type().envelope(),
    {
        self.message_type.write()
    }

    /// Reads the envelope of any hub message: the kind it declares. Members
    /// other than `type` are not looked at.
    pub fn from_value(value: &serde_json::Value) -> (ping: Option<Self>)
        ensures
            ping is Some <==> MessageType::of_document(json_model(*value)) is Some,
            ping matches Some(p) ==> MessageType::of_document(json_model(*value)) == Some(
                p.message_type(),
            ),
    {
        match MessageType::read(value) {
            Some(message_type) => Some(Ping { message_type }),
            None => None,
        }
    }
}

impl Default for Ping {
    fn default() -> (ping: Self)
        ensures
            ping.message_type() == MessageType::Ping,
    {
        Ping::new()
    }
}

} // verus!
