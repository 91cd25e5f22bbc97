//! The items of a streamed reply.

use crate::json::{
    json_model, lemma_with_member, lemma_with_optional, value_clone, value_from_str, value_get,
    value_insert, Json,
};
use crate::protocol::fields::{
    insert_optional, lemma_headers_round_trip, lemma_member_names, optional_headers,
    optional_headers_json, optional_headers_value, optional_headers_view, read_optional_headers,
    read_text, required_text, writable_headers,
};
use crate::protocol::negotiate::{lemma_tag_round_trip, MessageType};
use vstd::prelude::*;
use vstd::string::*;

verus! {

/// One item of the streamed reply to a streaming invocation.
#[derive(Debug, PartialEq)]
pub struct StreamItem<I> {
    message_type: MessageType,
    headers: Option<Vec<(String, String)>>,
    invocation_id: String,
    item: I,
}

/// The mathematical value of a [`StreamItem`] whose item is a document.
pub struct StreamItemView {
    pub message_type: MessageType,
    pub headers: Option<Seq<(Seq<char>, Seq<char>)>>,
    pub invocation_id: Seq<char>,
    pub item: Json,
}

impl StreamItemView {
    /// The document of a stream item: `type`, `headers` where given,
    /// `invocationId`, `item`.
    pub open spec fn to_json(self) -> Json {
        self.message_type.envelope().with_optional(
            "headers"@,
            optional_headers_json(self.headers),
        ).with_member(
            "invocationId"@,
            Json::Text(self.invocation_id),
        ).with_member("item"@, self.item)
    }

    /// The stream item that a document holds; nothing where a member is
    /// missing or of the wrong kind. Any document may be the item.
    pub open spec fn of_json(document: Json) -> Option<StreamItemView> {
        match (
            MessageType::of_document(document),
            optional_headers(document, "headers"@),
            required_text(document, "invocationId"@),
            document.get("item"@),
        ) {
            (Some(message_type), Some(headers), Some(invocation_id), Some(item)) => Some(
                StreamItemView { message_type, headers, invocation_id, item },
            ),
            _ => None,
        }
    }
}

impl<I> StreamItem<I> {
    /// The id of the invocation that the item belongs to.
    pub closed spec fn invocation_id_of(&self) -> Seq<char> {
        self.invocation_id@
    }

    /// The item.
    pub closed spec fn item_of(&self) -> I {
        self.item
    }

    /// The kind that the message declares.
    pub closed spec fn message_type_of(&self) -> MessageType {
        self.message_type
    }

    /// The headers, where the message carries them.
    pub closed spec fn headers_of(&self) -> Option<Seq<(Seq<char>, Seq<char>)>> {
        optional_headers_view(self.headers)
    }

    /// The item `item` of the stream of invocation `invocation_id`.
    pub fn new(invocation_id: String, item: I) -> (stream_item: Self)
        ensures
            stream_item.message_type_of() == MessageType::StreamItem,
            stream_item.headers_of() is None,
            stream_item.invocation_id_of() == invocation_id@,
            stream_item.item_of() == item,
    {
        StreamItem { message_type: MessageType::StreamItem, headers: None, invocation_id, item }
    }

    /// The id of the invocation that the item belongs to.
    pub fn get_invocation_id(&self) -> (invocation_id: String)
        ensures
            invocation_id@ == self.invocation_id_of(),
    {
        self.invocation_id.clone()
    }

    /// Takes the item out of the message.
    pub fn into_item(self) -> (item: I)
        ensures
            item == self.item_of(),
    {
        self.item
    }
}

impl View for StreamItem<serde_json::Value> {
    type V = StreamItemView;

    open spec fn view(&self) -> StreamItemView {
        StreamItemView {
            message_type: self.message_type_of(),
            headers: self.headers_of(),
            invocation_id: self.invocation_id_of(),
            item: json_model(self.item_of()),
        }
    }
}

impl StreamItem<serde_json::Value> {
    /// The document of this stream item.
    pub fn to_value(&self) -> (value: serde_json::Value)
        ensures
            json_model(value) == self@.to_json(),
    {
        let headers = optional_headers_value(&self.headers);
        let value = self.message_type.write();
        let value = insert_optional(value, "headers", headers);
        let value = value_insert(value, "invocationId", value_from_str(self.invocation_id.as_str()));
        value_insert(value, "item", value_clone(&self.item))
    }

    /// Reads a stream item from its document.
    pub fn from_value(value: &serde_json::Value) -> (stream_item: Option<Self>)
        ensures
            stream_item is Some <==> StreamItemView::of_json(json_model(*value)) is Some,
            stream_item matches Some(s) ==> StreamItemView::of_json(json_model(*value)) == Some(
                s@,
            ),
    {
        let message_type = MessageType::read(value);
        let headers = read_optional_headers(value, "headers");
        let invocation_id = read_text(value, "invocationId");
        let item = match value_get(value, "item") {
            Some(member) => Some(value_clone(member)),
            None => None,
        };
        match (message_type, headers, invocation_id, item) {
            (Some(message_type), Some(headers), Some(invocation_id), Some(item)) => Some(
                StreamItem { message_type, headers, invocation_id, item },
            ),
            _ => None,
        }
    }
}

/// A stream item is read back from its own document, provided that headers,
/// where given, repeat no name.
pub proof fn lemma_stream_item_round_trip(stream_item: StreamItemView)
    requires
        writable_headers(stream_item.headers),
    ensures
        StreamItemView::of_json(stream_item.to_json()) == Some(stream_item),
{
    lemma_member_names();
    lemma_tag_round_trip(stream_item.message_type);
    let d0 = stream_item.message_type.envelope();
    let d1 = d0.with_optional("headers"@, optional_headers_json(stream_item.headers));
    lemma_with_optional(d0, "headers"@, optional_headers_json(stream_item.headers));
    let d2 = d1.with_member("invocationId"@, Json::Text(stream_item.invocation_id));
    lemma_with_member(d1, "invocationId"@, Json::Text(stream_item.invocation_id));
    let d3 = d2.with_member("item"@, stream_item.item);
    lemma_with_member(d2, "item"@, stream_item.item);
    reveal_with_fuel(crate::json::object_get, 2);
    assert(d0.get("headers"@) is None);
    assert(d3.get("type"@) == d0.get("type"@));
    assert(d3.get("headers"@) == optional_headers_json(stream_item.headers));
    lemma_headers_round_trip(d3, "headers"@, stream_item.headers);
    assert(d3.get("invocationId"@) == Some(Json::Text(stream_item.invocation_id)));
}

} // verus!
