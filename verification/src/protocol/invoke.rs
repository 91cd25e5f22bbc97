//! Invocations and their completions.

use crate::json::{
    error_message, json_model, json_models, lemma_with_member, lemma_with_optional, value_clone,
    value_from_str, value_from_vec, value_insert, Json,
};
use crate::protocol::fields::{
    clone_values, insert_optional, lemma_all_texts_of_documents, lemma_headers_round_trip,
    lemma_member_names, optional_elements, optional_headers, optional_headers_json,
    optional_headers_value, optional_headers_view, optional_json_view, optional_jsons_view,
    optional_member, optional_text, optional_text_view, optional_texts, optional_texts_view,
    read_optional, read_optional_elements, read_optional_headers, read_optional_text,
    read_optional_texts, read_text, required_text, text_documents, texts_view, writable_headers,
};
use crate::protocol::negotiate::{lemma_tag_round_trip, MessageType};
use vstd::prelude::*;
use vstd::string::*;

verus! {

/// The string documents of a list of strings.
pub fn text_values(texts: &Vec<String>) -> (values: Vec<serde_json::Value>)
    ensures
        json_models(values@) == text_documents(texts_view(texts@)),
{
    let mut out: Vec<serde_json::Value> = Vec::new();
    let mut i: usize = 0;
    while i < texts.len()
        invariant
            i <= texts.len(),
            out.len() == i,
            forall|k: int| 0 <= k < i ==> json_model(out[k]) == Json::Text(texts[k]@),
        decreases texts.len() - i,
    {
        out.push(value_from_str(texts[i].as_str()));
        i += 1;
    }
    assert(json_models(out@) =~= text_documents(texts_view(texts@)));
    out
}

/// A request to invoke the method `target` on the other side, with the given
/// positional arguments. A request that carries an invocation id asks for a
/// reply.
#[derive(Debug, Clone, PartialEq)]
pub struct Invocation {
    message_type: MessageType,
    headers: Option<Vec<(String, String)>>,
    invocation_id: Option<String>,
    target: String,
    arguments: Option<Vec<serde_json::Value>>,
    stream_ids: Option<Vec<String>>,
}

/// The mathematical value of an [`Invocation`].
pub struct InvocationView {
    pub message_type: MessageType,
    pub headers: Option<Seq<(Seq<char>, Seq<char>)>>,
    pub invocation_id: Option<Seq<char>>,
    pub target: Seq<char>,
    pub arguments: Option<Seq<Json>>,
    pub stream_ids: Option<Seq<Seq<char>>>,
}

/// The array document of an optional list of documents.
pub open spec fn optional_array(items: Option<Seq<Json>>) -> Option<Json> {
    match items {
        Some(v) => Some(Json::Array(v)),
        None => None,
    }
}

/// The string document of an optional text.
pub open spec fn optional_string(text: Option<Seq<char>>) -> Option<Json> {
    match text {
        Some(s) => Some(Json::Text(s)),
        None => None,
    }
}

/// The array of strings of an optional list of texts.
pub open spec fn optional_strings(texts: Option<Seq<Seq<char>>>) -> Option<Json> {
    match texts {
        Some(v) => Some(Json::Array(text_documents(v))),
        None => None,
    }
}

/// Whether an optional member would be read back as it is written: one that is
/// given is not `null`.
pub open spec fn writable(member: Option<Json>) -> bool {
    member != Some(Json::Null)
}

impl InvocationView {
    /// The document of an invocation. Its members come in the order `type`,
    /// `headers`, `target`, `arguments`, `invocationId`, `streamIds`; an
    /// optional member that is not given is left out.
    pub open spec fn to_json(self) -> Json {
        self.message_type.envelope().with_optional(
            "headers"@,
            optional_headers_json(self.headers),
        ).with_member(
            "target"@,
            Json::Text(self.target),
        ).with_optional("arguments"@, optional_array(self.arguments)).with_optional(
            "invocationId"@,
            optional_string(self.invocation_id),
        ).with_optional("streamIds"@, optional_strings(self.stream_ids))
    }

    /// The invocation that a document holds; nothing where a member is missing
    /// or of the wrong kind.
    pub open spec fn of_json(document: Json) -> Option<InvocationView> {
        match (
            MessageType::of_document(document),
            optional_headers(document, "headers"@),
            optional_text(document, "invocationId"@),
            required_text(document, "target"@),
            optional_elements(document, "arguments"@),
            optional_texts(document, "streamIds"@),
        ) {
            (
                Some(message_type),
                Some(headers),
                Some(invocation_id),
                Some(target),
                Some(arguments),
                Some(stream_ids),
            ) => Some(
                InvocationView {
                    message_type,
                    headers,
                    invocation_id,
                    target,
                    arguments,
                    stream_ids,
                },
            ),
            _ => None,
        }
    }
}

impl View for Invocation {
    type V = InvocationView;

    closed spec fn view(&self) -> InvocationView {
        InvocationView {
            message_type: self.message_type,
            headers: optional_headers_view(self.headers),
            invocation_id: optional_text_view(self.invocation_id),
            target: self.target@,
            arguments: optional_jsons_view(self.arguments),
            stream_ids: optional_texts_view(self.stream_ids),
        }
    }
}

impl Invocation {
    /// A single-result invocation of `target`, with an empty argument list and
    /// no invocation id.
    pub fn create_single(target: String) -> (invocation: Self)
        ensures
            invocation@ == (InvocationView {
                message_type: MessageType::Invocation,
                headers: None,
                invocation_id: None,
                target: target@,
                arguments: Some(Seq::empty()),
                stream_ids: None,
            }),
    {
        let invocation = Invocation {
            message_type: MessageType::Invocation,
            headers: None,
            invocation_id: None,
            target,
            arguments: Some(Vec::new()),
            stream_ids: None,
        };
        assert(json_models(invocation.arguments->Some_0@) =~= Seq::empty());
        invocation
    }

    /// A streaming invocation of `target`, with an empty argument list and no
    /// invocation id.
    pub fn create_multiple(target: String) -> (invocation: Self)
        ensures
            invocation@ == (InvocationView {
                message_type: MessageType::StreamInvocation,
                headers: None,
                invocation_id: None,
                target: target@,
                arguments: Some(Seq::empty()),
                stream_ids: None,
            }),
    {
        let invocation = Invocation {
            message_type: MessageType::StreamInvocation,
            headers: None,
            invocation_id: None,
            target,
            arguments: Some(Vec::new()),
            stream_ids: None,
        };
        assert(json_models(invocation.arguments->Some_0@) =~= Seq::empty());
        invocation
    }

    /// Appends one argument, given as the outcome of turning it into a
    /// document. A document is appended as the new last argument; a failure
    /// leaves the invocation as it is and is reported.
    pub fn with_argument(&mut self, data: Result<serde_json::Value, serde_json::Error>) -> (r:
        Result<(), String>)
        ensures
            data matches Ok(value) ==> r is Ok && final(self)@ == (InvocationView {
                arguments: Some(
                    match old(self)@.arguments {
                        Some(items) => items.push(json_model(value)),
                        None => seq![json_model(value)],
                    },
                ),
                ..old(self)@
            }),
            data is Err ==> r is Err && final(self)@ == old(self)@,
            r matches Err(message) ==> message@.len() >= "Serialization error: "@.len()
                && message@.take("Serialization error: "@.len() as int)
                == "Serialization error: "@,
    {
        match data {
            Ok(json) => {
                let mut items: Vec<serde_json::Value> = match self.arguments.take() {
                    Some(items) => items,
                    None => Vec::new(),
                };
                let ghost before = json_models(items@);
                items.push(json);
                assert(json_models(items@) =~= before.push(json_model(json)));
                assert(old(self)@.arguments is None ==> before =~= Seq::empty());
                self.arguments = Some(items);
                Ok(())
            },
            Err(error) => {
                let mut message = String::from_str("Serialization error: ");
                let detail = error_message(&error);
                message.append(detail.as_str());
                assert(message@.take("Serialization error: "@.len() as int)
                    =~= "Serialization error: "@);
                Err(message)
            },
        }
    }

    /// Sets the invocation id.
    pub fn with_invocation_id(&mut self, invocation_id: String) -> (invocation: &mut Self)
        ensures
            final(invocation)@ == final(self)@,
            invocation@ == (InvocationView { invocation_id: Some(invocation_id@), ..old(self)@ }),
    {
        self.invocation_id = Some(invocation_id);
        self
    }

    /// Sets the stream ids; an empty list leaves the invocation as it is.
    pub fn with_streams(&mut self, stream_ids: Vec<String>) -> (invocation: &mut Self)
        ensures
            final(invocation)@ == final(self)@,
            stream_ids@.len() > 0 ==> invocation@ == (InvocationView {
                stream_ids: Some(texts_view(stream_ids@)),
                ..old(self)@
            }),
            stream_ids@.len() == 0 ==> invocation@ == old(self)@,
    {
        if stream_ids.len() > 0 {
            self.stream_ids = Some(stream_ids);
        }
        self
    }

    /// The invocation id, if the caller wants a reply.
    pub fn get_invocation_id(&self) -> (invocation_id: Option<String>)
        ensures
            optional_text_view(invocation_id) == self@.invocation_id,
    {
        match &self.invocation_id {
            Some(id) => Some(id.clone()),
            None => None,
        }
    }

    /// The name of the method to invoke.
    pub fn get_target(&self) -> (target: String)
        ensures
            target@ == self@.target,
    {
        self.target.clone()
    }

    /// The number of arguments; nothing where the invocation has no argument
    /// list.
    pub fn argument_count(&self) -> (count: Option<usize>)
        ensures
            self@.arguments is None <==> count is None,
            count matches Some(n) ==> self@.arguments->Some_0.len() == n,
    {
        match &self.arguments {
            Some(items) => Some(items.len()),
            None => None,
        }
    }

    /// The argument at `index`, counted from zero.
    pub fn argument_at(&self, index: usize) -> (argument: Option<&serde_json::Value>)
        ensures
            argument is Some <==> (self@.arguments matches Some(items) && index < items.len()),
            argument matches Some(a) ==> json_model(*a) == self@.arguments->Some_0[index as int],
    {
        match &self.arguments {
            Some(items) => {
                if index < items.len() {
                    Some(&items[index])
                } else {
                    None
                }
            },
            None => None,
        }
    }

    /// The kind of this invocation.
    pub fn get_message_type(&self) -> (message_type: MessageType)
        ensures
            message_type == self@.message_type,
    {
        self.message_type
    }

    /// The document of this invocation.
    pub fn to_value(&self) -> (value: serde_json::Value)
        ensures
            json_model(value) == self@.to_json(),
    {
        let headers = optional_headers_value(&self.headers);
        let arguments = match &self.arguments {
            Some(items) => Some(value_from_vec(clone_values(items))),
            None => None,
        };
        let invocation_id = match &self.invocation_id {
            Some(id) => Some(value_from_str(id.as_str())),
            None => None,
        };
        let stream_ids = match &self.stream_ids {
            Some(ids) => Some(value_from_vec(text_values(ids))),
            None => None,
        };
        let value = self.message_type.write();
        let value = insert_optional(value, "headers", headers);
        let value = value_insert(value, "target", value_from_str(self.target.as_str()));
        let value = insert_optional(value, "arguments", arguments);
        let value = insert_optional(value, "invocationId", invocation_id);
        insert_optional(value, "streamIds", stream_ids)
    }

    /// Reads an invocation from its document.
    pub fn from_value(value: &serde_json::Value) -> (invocation: Option<Self>)
        ensures
            invocation is Some <==> InvocationView::of_json(json_model(*value)) is Some,
            invocation matches Some(i) ==> InvocationView::of_json(json_model(*value)) == Some(
                i@,
            ),
    {
        let message_type = MessageType::read(value);
        let headers = read_optional_headers(value, "headers");
        let invocation_id = read_optional_text(value, "invocationId");
        let target = read_text(value, "target");
        let arguments = read_optional_elements(value, "arguments");
        let stream_ids = read_optional_texts(value, "streamIds");
        match (message_type, headers, invocation_id, target, arguments, stream_ids) {
            (
                Some(message_type),
                Some(headers),
                Some(invocation_id),
                Some(target),
                Some(arguments),
                Some(stream_ids),
            ) => Some(
                Invocation { message_type, headers, invocation_id, target, arguments, stream_ids },
            ),
            _ => None,
        }
    }
}

/// An invocation is read back from its own document, provided that headers,
/// where given, repeat no name.
pub proof fn lemma_invocation_round_trip(invocation: InvocationView)
    requires
        writable_headers(invocation.headers),
    ensures
        InvocationView::of_json(invocation.to_json()) == Some(invocation),
{
    lemma_member_names();
    lemma_tag_round_trip(invocation.message_type);
    let d0 = invocation.message_type.envelope();
    let d1 = d0.with_optional("headers"@, optional_headers_json(invocation.headers));
    lemma_with_optional(d0, "headers"@, optional_headers_json(invocation.headers));
    let d2 = d1.with_member("target"@, Json::Text(invocation.target));
    lemma_with_member(d1, "target"@, Json::Text(invocation.target));
    let d3 = d2.with_optional("arguments"@, optional_array(invocation.arguments));
    lemma_with_optional(d2, "arguments"@, optional_array(invocation.arguments));
    let d4 = d3.with_optional("invocationId"@, optional_string(invocation.invocation_id));
    lemma_with_optional(d3, "invocationId"@, optional_string(invocation.invocation_id));
    let d5 = d4.with_optional("streamIds"@, optional_strings(invocation.stream_ids));
    lemma_with_optional(d4, "streamIds"@, optional_strings(invocation.stream_ids));
    reveal_with_fuel(crate::json::object_get, 2);
    assert(d0.get("headers"@) is None);
    assert(d0.get("arguments"@) is None);
    assert(d0.get("invocationId"@) is None);
    assert(d0.get("streamIds"@) is None);
    assert(d5.get("type"@) == d0.get("type"@));
    assert(d5.get("headers"@) == optional_headers_json(invocation.headers));
    lemma_headers_round_trip(d5, "headers"@, invocation.headers);
    assert(d5.get("target"@) == Some(Json::Text(invocation.target)));
    assert(d5.get("arguments"@) == optional_array(invocation.arguments));
    assert(d5.get("invocationId"@) == optional_string(invocation.invocation_id));
    assert(d5.get("streamIds"@) == optional_strings(invocation.stream_ids));
    match invocation.stream_ids {
        Some(ids) => {
            lemma_all_texts_of_documents(ids);
        },
        None => {},
    }
}

/// The reply that ends an invocation. It carries the result of a single-result
/// method, or an error, or neither for a method that returns nothing.
#[derive(Debug, PartialEq)]
pub struct Completion<R> {
    message_type: MessageType,
    headers: Option<Vec<(String, String)>>,
    invocation_id: String,
    result: Option<R>,
    error: Option<String>,
}

/// The mathematical value of a [`Completion`] whose result is a document.
pub struct CompletionView {
    pub message_type: MessageType,
    pub headers: Option<Seq<(Seq<char>, Seq<char>)>>,
    pub invocation_id: Seq<char>,
    pub result: Option<Json>,
    pub error: Option<Seq<char>>,
}

impl CompletionView {
    /// The document of a completion. Its members come in the order `type`,
    /// `headers`, `invocationId`, `result`, `error`; an optional member that
    /// is not given is left out.
    pub open spec fn to_json(self) -> Json {
        self.message_type.envelope().with_optional(
            "headers"@,
            optional_headers_json(self.headers),
        ).with_member(
            "invocationId"@,
            Json::Text(self.invocation_id),
        ).with_optional("result"@, self.result).with_optional(
            "error"@,
            optional_string(self.error),
        )
    }

    /// The completion that a document holds; nothing where a member is missing
    /// or of the wrong kind.
    pub open spec fn of_json(document: Json) -> Option<CompletionView> {
        match (
            MessageType::of_document(document),
            optional_headers(document, "headers"@),
            required_text(document, "invocationId"@),
            optional_text(document, "error"@),
        ) {
            (Some(message_type), Some(headers), Some(invocation_id), Some(error)) => Some(
                CompletionView {
                    message_type,
                    headers,
                    invocation_id,
                    result: optional_member(document, "result"@),
                    error,
                },
            ),
            _ => None,
        }
    }
}

impl<R> Completion<R> {
    /// The id of the invocation that this completion ends.
    pub closed spec fn invocation_id_of(&self) -> Seq<char> {
        self.invocation_id@
    }

    /// The result, where the completion carries one.
    pub closed spec fn result_of(&self) -> Option<R> {
        self.result
    }

    /// The error, where the completion carries one.
    pub closed spec fn error_of(&self) -> Option<Seq<char>> {
        optional_text_view(self.error)
    }

    /// The kind that the completion declares.
    pub closed spec fn message_type_of(&self) -> MessageType {
        self.message_type
    }

    /// The headers, where the completion carries them.
    pub closed spec fn headers_of(&self) -> Option<Seq<(Seq<char>, Seq<char>)>> {
        optional_headers_view(self.headers)
    }

    /// The completion of invocation `invocation_id` with the result `data`.
    pub fn create_result(invocation_id: String, data: R) -> (completion: Self)
        ensures
            completion.message_type_of() == MessageType::Completion,
            completion.headers_of() is None,
            completion.invocation_id_of() == invocation_id@,
            completion.result_of() == Some(data),
            completion.error_of() is None,
    {
        Completion {
            message_type: MessageType::Completion,
            invocation_id,
            result: Some(data),
            error: None,
            headers: None,
        }
    }

    /// Whether the completion carries an error.
    pub fn is_error(&self) -> (b: bool)
        ensures
            b == self.error_of() is Some,
    {
        self.error.is_some()
    }

    /// Whether the completion carries a result.
    pub fn is_result(&self) -> (b: bool)
        ensures
            b == self.result_of() is Some,
    {
        self.result.is_some()
    }

    /// The error of a completion that carries one.
    pub fn unwrap_error(self) -> (error: String)
        requires
            self.error_of() is Some,
        ensures
            Some(error@) == self.error_of(),
    {
        self.error.unwrap()
    }

    /// The result of a completion that carries one.
    pub fn unwrap_result(self) -> (result: R)
        requires
            self.result_of() is Some,
        ensures
            Some(result) == self.result_of(),
    {
        self.result.unwrap()
    }

    /// The id of the invocation that this completion ends.
    pub fn get_invocation_id(&self) -> (invocation_id: String)
        ensures
            invocation_id@ == self.invocation_id_of(),
    {
        self.invocation_id.clone()
    }
}

impl View for Completion<serde_json::Value> {
    type V = CompletionView;

    open spec fn view(&self) -> CompletionView {
        CompletionView {
            message_type: self.message_type_of(),
            headers: self.headers_of(),
            invocation_id: self.invocation_id_of(),
            result: optional_json_view(self.result_of()),
            error: self.error_of(),
        }
    }
}

impl Completion<serde_json::Value> {
    /// The document of this completion.
    pub fn to_value(&self) -> (value: serde_json::Value)
        ensures
            json_model(value) == self@.to_json(),
    {
        let headers = optional_headers_value(&self.headers);
        let result = match &self.result {
            Some(r) => Some(value_clone(r)),
            None => None,
        };
        let error = match &self.error {
            Some(e) => Some(value_from_str(e.as_str())),
            None => None,
        };
        let value = self.message_type.write();
        let value = insert_optional(value, "headers", headers);
        let value = value_insert(value, "invocationId", value_from_str(self.invocation_id.as_str()));
        let value = insert_optional(value, "result", result);
        insert_optional(value, "error", error)
    }

    /// Reads a completion from its document.
    pub fn from_value(value: &serde_json::Value) -> (completion: Option<Self>)
        ensures
            completion is Some <==> CompletionView::of_json(json_model(*value)) is Some,
            completion matches Some(c) ==> CompletionView::of_json(json_model(*value)) == Some(
                c@,
            ),
    {
        let message_type = MessageType::read(value);
        let headers = read_optional_headers(value, "headers");
        let invocation_id = read_text(value, "invocationId");
        let result = read_optional(value, "result");
        let error = read_optional_text(value, "error");
        match (message_type, headers, invocation_id, error) {
            (Some(message_type), Some(headers), Some(invocation_id), Some(error)) => Some(
                Completion { message_type, headers, invocation_id, result, error },
            ),
            _ => None,
        }
    }
}

/// A completion is read back from its own document, provided that headers,
/// where given, repeat no name and the result, where given, is not `null`.
pub proof fn lemma_completion_round_trip(completion: CompletionView)
    requires
        writable_headers(completion.headers),
        writable(completion.result),
    ensures
        CompletionView::of_json(completion.to_json()) == Some(completion),
{
    lemma_member_names();
    lemma_tag_round_trip(completion.message_type);
    let d0 = completion.message_type.envelope();
    let d1 = d0.with_optional("headers"@, optional_headers_json(completion.headers));
    lemma_with_optional(d0, "headers"@, optional_headers_json(completion.headers));
    let d2 = d1.with_member("invocationId"@, Json::Text(completion.invocation_id));
    lemma_with_member(d1, "invocationId"@, Json::Text(completion.invocation_id));
    let d3 = d2.with_optional("result"@, completion.result);
    lemma_with_optional(d2, "result"@, completion.result);
    let d4 = d3.with_optional("error"@, optional_string(completion.error));
    lemma_with_optional(d3, "error"@, optional_string(completion.error));
    reveal_with_fuel(crate::json::object_get, 2);
    assert(d0.get("headers"@) is None);
    assert(d0.get("result"@) is None);
    assert(d0.get("error"@) is None);
    assert(d4.get("type"@) == d0.get("type"@));
    assert(d4.get("headers"@) == optional_headers_json(completion.headers));
    lemma_headers_round_trip(d4, "headers"@, completion.headers);
    assert(d4.get("invocationId"@) == Some(Json::Text(completion.invocation_id)));
    assert(d4.get("result"@) == completion.result);
    assert(d4.get("error"@) == optional_string(completion.error));
}

/// Sent by the client to cancel a streaming invocation on the server.
#[derive(Debug, PartialEq)]
pub struct CancelInvocation {
    message_type: MessageType,
    headers: Option<Vec<(String, String)>>,
    invocation_id: String,
}

/// The mathematical value of a [`CancelInvocation`].
pub struct CancelInvocationView {
    pub message_type: MessageType,
    pub headers: Option<Seq<(Seq<char>, Seq<char>)>>,
    pub invocation_id: Seq<char>,
}

impl CancelInvocationView {
    /// The document of a cancellation: `type`, `headers` where given, then
    /// `invocationId`.
    pub open spec fn to_json(self) -> Json {
        self.message_type.envelope().with_optional(
            "headers"@,
            optional_headers_json(self.headers),
        ).with_member(
            "invocationId"@,
            Json::Text(self.invocation_id),
        )
    }

    /// The cancellation that a document holds; nothing where a member is
    /// missing or of the wrong kind.
    pub open spec fn of_json(document: Json) -> Option<CancelInvocationView> {
        match (
            MessageType::of_document(document),
            optional_headers(document, "headers"@),
            required_text(document, "invocationId"@),
        ) {
            (Some(message_type), Some(headers), Some(invocation_id)) => Some(
                CancelInvocationView { message_type, headers, invocation_id },
            ),
            _ => None,
        }
    }
}

impl View for CancelInvocation {
    type V = CancelInvocationView;

    closed spec fn view(&self) -> CancelInvocationView {
        CancelInvocationView {
            message_type: self.message_type,
            headers: optional_headers_view(self.headers),
            invocation_id: self.invocation_id@,
        }
    }
}

impl CancelInvocation {
    /// The cancellation of the streaming invocation `invocation_id`.
    pub fn new(invocation_id: String) -> (cancel: Self)
        ensures
            cancel@ == (CancelInvocationView {
                message_type: MessageType::CancelInvocation,
                headers: None,
                invocation_id: invocation_id@,
            }),
    {
        CancelInvocation { message_type: MessageType::CancelInvocation, headers: None, invocation_id }
    }

    /// The id of the invocation to cancel.
    pub fn get_invocation_id(&self) -> (invocation_id: String)
        ensures
            invocation_id@ == self@.invocation_id,
    {
        self.invocation_id.clone()
    }

    /// The document of this cancellation.
    pub fn to_value(&self) -> (value: serde_json::Value)
        ensures
            json_model(value) == self@.to_json(),
    {
        let headers = optional_headers_value(&self.headers);
        let value = self.message_type.write();
        let value = insert_optional(value, "headers", headers);
        value_insert(value, "invocationId", value_from_str(self.invocation_id.as_str()))
    }

    /// Reads a cancellation from its document.
    pub fn from_value(value: &serde_json::Value) -> (cancel: Option<Self>)
        ensures
            cancel is Some <==> CancelInvocationView::of_json(json_model(*value)) is Some,
            cancel matches Some(c) ==> CancelInvocationView::of_json(json_model(*value)) == Some(
                c@,
            ),
    {
        let message_type = MessageType::read(value);
        let headers = read_optional_headers(value, "headers");
        let invocation_id = read_text(value, "invocationId");
        match (message_type, headers, invocation_id) {
            (Some(message_type), Some(headers), Some(invocation_id)) => Some(
                CancelInvocation { message_type, headers, invocation_id },
            ),
            _ => None,
        }
    }
}

/// A cancellation is read back from its own document, provided that headers,
/// where given, repeat no name.
pub proof fn lemma_cancel_round_trip(cancel: CancelInvocationView)
    requires
        writable_headers(cancel.headers),
    ensures
        CancelInvocationView::of_json(cancel.to_json()) == Some(cancel),
{
    lemma_member_names();
    lemma_tag_round_trip(cancel.message_type);
    let d0 = cancel.message_type.envelope();
    let d1 = d0.with_optional("headers"@, optional_headers_json(cancel.headers));
    lemma_with_optional(d0, "headers"@, optional_headers_json(cancel.headers));
    let d2 = d1.with_member("invocationId"@, Json::Text(cancel.invocation_id));
    lemma_with_member(d1, "invocationId"@, Json::Text(cancel.invocation_id));
    reveal_with_fuel(crate::json::object_get, 2);
    assert(d0.get("headers"@) is None);
    assert(d2.get("type"@) == d0.get("type"@));
    assert(d2.get("headers"@) == optional_headers_json(cancel.headers));
    lemma_headers_round_trip(d2, "headers"@, cancel.headers);
}

/// What is read of a message to find where it goes: the id and the target that
/// it may carry.
#[derive(Debug, PartialEq)]
pub struct PossibleInvocation {
    message_type: MessageType,
    headers: Option<Vec<(String, String)>>,
    invocation_id: Option<String>,
    target: Option<String>,
}

/// The mathematical value of a [`PossibleInvocation`].
pub struct PossibleInvocationView {
    pub message_type: MessageType,
    pub headers: Option<Seq<(Seq<char>, Seq<char>)>>,
    pub invocation_id: Option<Seq<char>>,
    pub target: Option<Seq<char>>,
}

impl PossibleInvocationView {
    /// What a document holds of an invocation; nothing where `type` is missing
    /// or a member is of the wrong kind.
    pub open spec fn of_json(document: Json) -> Option<PossibleInvocationView> {
        match (
            MessageType::of_document(document),
            optional_headers(document, "headers"@),
            optional_text(document, "invocationId"@),
            optional_text(document, "target"@),
        ) {
            (Some(message_type), Some(headers), Some(invocation_id), Some(target)) => Some(
                PossibleInvocationView { message_type, headers, invocation_id, target },
            ),
            _ => None,
        }
    }
}

impl View for PossibleInvocation {
    type V = PossibleInvocationView;

    closed spec fn view(&self) -> PossibleInvocationView {
        PossibleInvocationView {
            message_type: self.message_type,
            headers: optional_headers_view(self.headers),
            invocation_id: optional_text_view(self.invocation_id),
            target: optional_text_view(self.target),
        }
    }
}

impl PossibleInvocation {
    /// The invocation id, where the message carries one.
    pub fn get_invocation_id(&self) -> (invocation_id: Option<String>)
        ensures
            optional_text_view(invocation_id) == self@.invocation_id,
    {
        match &self.invocation_id {
            Some(id) => Some(id.clone()),
            None => None,
        }
    }

    /// The target, where the message carries one.
    pub fn get_target(&self) -> (target: Option<String>)
        ensures
            optional_text_view(target) == self@.target,
    {
        match &self.target {
            Some(t) => Some(t.clone()),
            None => None,
        }
    }

    /// Reads the routing members of a message from its document.
    pub fn from_value(value: &serde_json::Value) -> (possible: Option<Self>)
        ensures
            possible is Some <==> PossibleInvocationView::of_json(json_model(*value)) is Some,
            possible matches Some(p) ==> PossibleInvocationView::of_json(json_model(*value))
                == Some(p@),
    {
        let message_type = MessageType::read(value);
        let headers = read_optional_headers(value, "headers");
        let invocation_id = read_optional_text(value, "invocationId");
        let target = read_optional_text(value, "target");
        match (message_type, headers, invocation_id, target) {
            (Some(message_type), Some(headers), Some(invocation_id), Some(target)) => Some(
                PossibleInvocation { message_type, headers, invocation_id, target },
            ),
            _ => None,
        }
    }
}

} // verus!
