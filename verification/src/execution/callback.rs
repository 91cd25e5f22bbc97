//! A callback that the hub may invoke.

use crate::client::context::InvocationContext;
use crate::execution::invocation::ActionUpdate;
use crate::json::json_parse;
use crate::protocol::invoke::{Invocation, InvocationView};
use crate::protocol::messages::MessageParser;
use crate::protocol::negotiate::MessageType;
use vstd::prelude::*;

verus! {

/// The invocation that a message holds; nothing where the message is no JSON
/// or no invocation.
pub open spec fn invocation_in(message: Seq<char>) -> Option<InvocationView> {
    match json_parse(message) {
        Some(document) => InvocationView::of_json(document),
        None => None,
    }
}

/// Reads one message as an invocation.
pub fn read_invocation(message: &str) -> (invocation: Option<Invocation>)
    ensures
        invocation is Some <==> invocation_in(message@) is Some,
        invocation matches Some(i) ==> invocation_in(message@) == Some(i@),
{
    match MessageParser::parse_message(message) {
        Ok(value) => Invocation::from_value(&value),
        Err(_) => None,
    }
}

/// The registry entry of a callback: the target under which it is
/// registered. The handler itself stays with the caller, who runs it with the
/// context that an update hands out.
pub struct CallbackAction {
    target: String,
}

impl View for CallbackAction {
    type V = Seq<char>;

    closed spec fn view(&self) -> Seq<char> {
        self.target@
    }
}

impl CallbackAction {
    /// The entry of the callback registered under `target`.
    pub fn create(target: String) -> (action: Self)
        ensures
            action@ == target@,
    {
        CallbackAction { target }
    }

    /// The target under which the callback is registered.
    pub fn get_target(&self) -> (target: String)
        ensures
            target@ == self@,
    {
        self.target.clone()
    }

    /// Takes one message. An invocation that can be read asks for one run of
    /// the callback, with the invocation as its context. Every other message
    /// is dropped.
    pub fn update_with(&self, message: &str, message_type: MessageType) -> (update: ActionUpdate<
        InvocationContext,
    >)
        ensures
            !(update is Updated),
            update is Call <==> (message_type == MessageType::Invocation && invocation_in(message@)
                is Some),
            update matches ActionUpdate::Call(context) ==> invocation_in(message@) == Some(
                context@,
            ),
    {
        match message_type {
            MessageType::Invocation => match read_invocation(message) {
                Some(invocation) => ActionUpdate::Call(InvocationContext::create(invocation)),
                None => ActionUpdate::Ignored,
            },
            _ => ActionUpdate::Ignored,
        }
    }

    /// A callback is never completed: it stays until it is unregistered.
    pub fn is_completed(&self) -> (b: bool)
        ensures
            !b,
    {
        false
    }
}

} // verus!
