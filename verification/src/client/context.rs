//! What a callback is handed when the hub invokes it.

use crate::error::{HubError, HubErrorView};
use crate::json::{json_model, json_text, value_text, Json};
use crate::protocol::invoke::{Completion, CompletionView, Invocation, InvocationView};
use crate::protocol::messages::{framed, MessageParser};
use crate::protocol::negotiate::MessageType;
use crate::text::{decimal, usize_text};
use vstd::prelude::*;
use vstd::string::*;

verus! {

/// The invocation that the hub sent to a callback. It gives access to the
/// arguments and builds the reply.
pub struct InvocationContext {
    invocation: Invocation,
}

/// The completion that answers an invocation with the id `invocation_id` by
/// the document `result`.
pub open spec fn reply(invocation_id: Seq<char>, result: Json) -> CompletionView {
    CompletionView {
        message_type: MessageType::Completion,
        headers: None,
        invocation_id,
        result: Some(result),
        error: None,
    }
}

/// What asking for the argument at `index` gives: the JSON text of the
/// argument, or the reason why there is none.
pub open spec fn argument_of(invocation: InvocationView, index: usize) -> Result<
    Seq<char>,
    HubErrorView,
> {
    match invocation.arguments {
        None => Err(HubErrorView::Deserialize("There are no arguments for the invocation"@)),
        Some(items) => if index < items.len() {
            Ok(json_text(items[index as int]))
        } else {
            Err(
                HubErrorView::Deserialize(
                    "The argument count is not greater than the index "@ + decimal(index as nat),
                ),
            )
        },
    }
}

/// The text or the error of a result, over their values.
pub open spec fn text_result_view(r: Result<String, HubError>) -> Result<Seq<char>, HubErrorView> {
    match r {
        Ok(text) => Ok(text@),
        Err(error) => Err(error@),
    }
}

impl View for InvocationContext {
    type V = InvocationView;

    closed spec fn view(&self) -> InvocationView {
        self.invocation@
    }
}

impl InvocationContext {
    /// The context of `invocation`.
    pub fn create(invocation: Invocation) -> (context: Self)
        ensures
            context@ == invocation@,
    {
        InvocationContext { invocation }
    }

    /// The invocation that the hub sent.
    pub fn get_invocation(&self) -> (invocation: &Invocation)
        ensures
            invocation@ == self@,
    {
        &self.invocation
    }

    /// The JSON text of the argument at `index`, counted from zero.
    pub fn argument(&self, index: usize) -> (r: Result<String, HubError>)
        ensures
            text_result_view(r) == argument_of(self@, index),
    {
        match self.invocation.argument_count() {
            Some(count) => {
                if count > index {
                    match self.invocation.argument_at(index) {
                        Some(value) => Ok(value_text(value)),
                        None => Err(HubError::Deserialize(String::new())),
                    }
                } else {
                    let mut message = String::from_str(
                        "The argument count is not greater than the index ",
                    );
                    let digits = usize_text(index);
                    message.append(digits.as_str());
                    Err(HubError::Deserialize(message))
                }
            },
            None => Err(
                HubError::Deserialize(String::from_str("There are no arguments for the invocation")),
            ),
        }
    }

    /// The frame that returns `result` to the hub. Only an invocation that
    /// carried an id can be answered.
    pub fn complete(&self, result: serde_json::Value) -> (r: Result<String, HubError>)
        ensures
            text_result_view(r) == (match self@.invocation_id {
                Some(id) => Ok(framed(json_text(reply(id, json_model(result)).to_json()))),
                None => Err(HubErrorView::NoInvocationId),
            }),
    {
        match self.invocation.get_invocation_id() {
            Some(invocation_id) => {
                let completion = Completion::create_result(invocation_id, result);
                Ok(MessageParser::to_json(&completion.to_value()))
            },
            None => Err(HubError::NoInvocationId),
        }
    }
}

} // verus!
