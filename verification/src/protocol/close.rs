//! The message that ends a connection.

use crate::json::{
    json_model, lemma_with_optional, value_from_bool, value_from_str, Json,
};
use crate::protocol::fields::{
    insert_optional, lemma_member_names, optional_boolean, optional_text, optional_text_view,
    read_optional_boolean, read_optional_text,
};
use crate::protocol::invoke::optional_string;
use crate::protocol::negotiate::{lemma_tag_round_trip, MessageType};
use vstd::prelude::*;
use vstd::string::*;

verus! {

/// Sent by the server when it closes the connection. It carries an error where
/// the connection was closed because of one.
#[derive(Debug, PartialEq)]
pub struct Close {
    message_type: MessageType,
    error: Option<String>,
    allow_reconnect: Option<bool>,
}

/// The mathematical value of a [`Close`].
pub struct CloseView {
    pub message_type: MessageType,
    pub error: Option<Seq<char>>,
    pub allow_reconnect: Option<bool>,
}

/// The boolean document of an optional flag.
pub open spec fn optional_flag(flag: Option<bool>) -> Option<Json> {
    match flag {
        Some(b) => Some(Json::Bool(b)),
        None => None,
    }
}

impl CloseView {
    /// The document of a close message: `type`, then `error` and
    /// `allowReconnect` where given.
    pub open spec fn to_json(self) -> Json {
        self.message_type.envelope().with_optional(
            "error"@,
            optional_string(self.error),
        ).with_optional("allowReconnect"@, optional_flag(self.allow_reconnect))
    }

    /// The close message that a document holds; nothing where a member is
    /// missing or of the wrong kind.
    pub open spec fn of_json(document: Json) -> Option<CloseView> {
        match (
            MessageType::of_document(document),
            optional_text(document, "error"@),
            optional_boolean(document, "allowReconnect"@),
        ) {
            (Some(message_type), Some(error), Some(allow_reconnect)) => Some(
                CloseView { message_type, error, allow_reconnect },
            ),
            _ => None,
        }
    }
}

impl View for Close {
    type V = CloseView;

    closed spec fn view(&self) -> CloseView {
        CloseView {
            message_type: self.message_type,
            error: optional_text_view(self.error),
            allow_reconnect: self.allow_reconnect,
        }
    }
}

impl Close {
    /// A close message with the given error and reconnect flag.
    pub fn new(error: Option<String>, allow_reconnect: Option<bool>) -> (close: Self)
        ensures
            close@ == (CloseView {
                message_type: MessageType::Close,
                error: optional_text_view(error),
                allow_reconnect,
            }),
    {
        Close { message_type: MessageType::Close, error, allow_reconnect }
    }

    /// The error that closed the connection, if any.
    pub fn get_error(&self) -> (error: Option<String>)
        ensures
            optional_text_view(error) == self@.error,
    {
        match &self.error {
            Some(e) => Some(e.clone()),
            None => None,
        }
    }

    /// Whether the server allows the client to connect again, where it says.
    pub fn get_allow_reconnect(&self) -> (allow_reconnect: Option<bool>)
        ensures
            allow_reconnect == self@.allow_reconnect,
    {
        self.allow_reconnect
    }

    /// The document of this close message.
    pub fn to_value(&self) -> (value: serde_json::Value)
        ensures
            json_model(value) == self@.to_json(),
    {
        let error = match &self.error {
            Some(e) => Some(value_from_str(e.as_str())),
            None => None,
        };
        let allow_reconnect = match self.allow_reconnect {
            Some(b) => Some(value_from_bool(b)),
            None => None,
        };
        let value = self.message_type.write();
        let value = insert_optional(value, "error", error);
        insert_optional(value, "allowReconnect", allow_reconnect)
    }

    /// Reads a close message from its document.
    pub fn from_value(value: &serde_json::Value) -> (close: Option<Self>)
        ensures
            close is Some <==> CloseView::of_json(json_model(*value)) is Some,
            close matches Some(c) ==> CloseView::of_json(json_model(*value)) == Some(c@),
    {
        let message_type = MessageType::read(value);
        let error = read_optional_text(value, "error");
        let allow_reconnect = read_optional_boolean(value, "allowReconnect");
        match (message_type, error, allow_reconnect) {
            (Some(message_type), Some(error), Some(allow_reconnect)) => Some(
                Close { message_type, error, allow_reconnect },
            ),
            _ => None,
        }
    }
}

/// A close message is read back from its own document.
pub proof fn lemma_close_round_trip(close: CloseView)
    ensures
        CloseView::of_json(close.to_json()) == Some(close),
{
    lemma_member_names();
    lemma_tag_round_trip(close.message_type);
    let d0 = close.message_type.envelope();
    let d1 = d0.with_optional("error"@, optional_string(close.error));
    lemma_with_optional(d0, "error"@, optional_string(close.error));
    let d2 = d1.with_optional("allowReconnect"@, optional_flag(close.allow_reconnect));
    lemma_with_optional(d1, "allowReconnect"@, optional_flag(close.allow_reconnect));
    reveal_with_fuel(crate::json::object_get, 2);
    assert(d0.get("error"@) is None);
    assert(d0.get("allowReconnect"@) is None);
    assert(d2.get("type"@) == d0.get("type"@));
    assert(d2.get("error"@) == optional_string(close.error));
}

} // verus!
