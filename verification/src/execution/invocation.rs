//! The pending outcome of a single-result invocation.

use crate::completer::manual_future::{ManualFuture, ManualFutureCompleter, Phase, Progress};
use crate::json::{json_model, json_parse, Json};
use crate::protocol::invoke::{Completion, CompletionView};
use crate::protocol::messages::MessageParser;
use crate::protocol::negotiate::MessageType;
use vstd::prelude::*;

verus! {

/// How an invocation ended.
#[derive(Debug, PartialEq)]
pub enum InvocationOutcome {
    /// The method returned this document.
    Value(serde_json::Value),
    /// The method returned nothing.
    Void,
    /// The server reported this error.
    RemoteError(String),
}

/// The mathematical value of an [`InvocationOutcome`].
pub enum OutcomeView {
    Value(Json),
    Void,
    RemoteError(Seq<char>),
}

impl View for InvocationOutcome {
    type V = OutcomeView;

    open spec fn view(&self) -> OutcomeView {
        match self {
            InvocationOutcome::Value(v) => OutcomeView::Value(json_model(*v)),
            InvocationOutcome::Void => OutcomeView::Void,
            InvocationOutcome::RemoteError(e) => OutcomeView::RemoteError(e@),
        }
    }
}

/// The outcome that a completion carries: its result where it has one, else
/// its error, else nothing.
pub open spec fn outcome_of(completion: CompletionView) -> OutcomeView {
    match completion.result {
        Some(result) => OutcomeView::Value(result),
        None => match completion.error {
            Some(error) => OutcomeView::RemoteError(error),
            None => OutcomeView::Void,
        },
    }
}

/// The completion that a message holds; nothing where the message is no JSON
/// or no completion.
pub open spec fn completion_in(message: Seq<char>) -> Option<CompletionView> {
    match json_parse(message) {
        Some(document) => CompletionView::of_json(document),
        None => None,
    }
}

/// What one message did to an action.
pub enum ActionUpdate<C> {
    /// The message was dropped and the action is as before.
    Ignored,
    /// The action took the message.
    Updated,
    /// The callback is to be run with this context.
    Call(C),
}

/// Reads the outcome out of a completion.
pub fn read_outcome(completion: Completion<serde_json::Value>) -> (outcome: InvocationOutcome)
    ensures
        outcome@ == outcome_of(completion@),
{
    if completion.is_result() {
        InvocationOutcome::Value(completion.unwrap_result())
    } else if completion.is_error() {
        InvocationOutcome::RemoteError(completion.unwrap_error())
    } else {
        InvocationOutcome::Void
    }
}

/// Reads one message as a completion.
pub fn read_completion(message: &str) -> (completion: Option<Completion<serde_json::Value>>)
    ensures
        completion is Some <==> completion_in(message@) is Some,
        completion matches Some(c) ==> completion_in(message@) == Some(c@),
{
    match MessageParser::parse_message(message) {
        Ok(value) => Completion::from_value(&value),
        Err(_) => None,
    }
}

/// The registry entry of a single-result invocation: the future of its
/// outcome, and the right to complete it for as long as it is pending.
pub struct InvocationAction {
    invocation_id: String,
    completer: Option<ManualFutureCompleter<InvocationOutcome>>,
    future: ManualFuture<InvocationOutcome>,
}

/// The mathematical value of an [`InvocationAction`].
pub struct InvocationActionView {
    pub invocation_id: Seq<char>,
    /// What the future of the outcome stands at.
    pub state: Phase<OutcomeView>,
}

/// The phase of a future of outcomes, over the outcome's value.
pub open spec fn phase_view(phase: Phase<InvocationOutcome>) -> Phase<OutcomeView> {
    match phase {
        Phase::Pending => Phase::Pending,
        Phase::Holding(outcome) => Phase::Holding(outcome@),
        Phase::Done => Phase::Done,
    }
}

/// What one poll gives, over the outcome's value.
pub open spec fn progress_view(progress: Progress<InvocationOutcome>) -> Progress<OutcomeView> {
    match progress {
        Progress::Ready(outcome) => Progress::Ready(outcome@),
        Progress::Pending => Progress::Pending,
        Progress::Finished => Progress::Finished,
    }
}

impl View for InvocationAction {
    type V = InvocationActionView;

    closed spec fn view(&self) -> InvocationActionView {
        InvocationActionView {
            invocation_id: self.invocation_id@,
            state: phase_view(self.future.phase()),
        }
    }
}

impl InvocationAction {
    /// The right to complete is held exactly while the future is pending.
    pub closed spec fn well_formed(&self) -> bool {
        self.completer is Some <==> self.future.phase() is Pending
    }

    /// The entry of the invocation `invocation_id`, with its outcome pending.
    pub fn new(invocation_id: String) -> (action: Self)
        ensures
            action.well_formed(),
            action@ == (InvocationActionView {
                invocation_id: invocation_id@,
                state: Phase::Pending,
            }),
    {
        let (future, completer) = ManualFuture::new();
        InvocationAction { invocation_id, completer: Some(completer), future }
    }

    /// Whether the outcome is still pending.
    pub fn completable(&self) -> (b: bool)
        requires
            self.well_formed(),
        ensures
            b == (self@.state is Pending),
    {
        self.completer.is_some()
    }

    /// Whether the outcome was set or the invocation cancelled.
    pub fn is_completed(&self) -> (b: bool)
        requires
            self.well_formed(),
        ensures
            b == !(self@.state is Pending),
    {
        self.completer.is_none()
    }

    /// The id of the invocation.
    pub fn get_invocation_id(&self) -> (invocation_id: String)
        ensures
            invocation_id@ == self@.invocation_id,
    {
        self.invocation_id.clone()
    }

    /// Sets the outcome of a pending invocation. An invocation whose outcome
    /// was set, or that was cancelled, stays as it is.
    pub fn complete(&mut self, result: InvocationOutcome) -> (set: bool)
        requires
            old(self).well_formed(),
        ensures
            final(self).well_formed(),
            set == (old(self)@.state is Pending),
            set ==> final(self)@ == (InvocationActionView {
                state: Phase::Holding(result@),
                ..old(self)@
            }),
            !set ==> final(self)@ == old(self)@,
    {
        match self.completer.take() {
            Some(completer) => {
                completer.complete(&mut self.future, result);
                true
            },
            None => false,
        }
    }

    /// Cancels a pending invocation. An invocation whose outcome was set
    /// keeps it.
    pub fn dispose(&mut self)
        requires
            old(self).well_formed(),
        ensures
            final(self).well_formed(),
            old(self)@.state is Pending ==> final(self)@ == (InvocationActionView {
                state: Phase::Done,
                ..old(self)@
            }),
            !(old(self)@.state is Pending) ==> final(self)@ == old(self)@,
    {
        match self.completer.take() {
            Some(completer) => {
                completer.cancel(&mut self.future);
            },
            None => {},
        }
    }

    /// Takes one message. A completion that can be read sets the outcome of a
    /// pending invocation; every other message is dropped, and so is any
    /// message to an invocation that is no longer pending.
    pub fn update_with(&mut self, message: &str, message_type: MessageType) -> (update:
        ActionUpdate<()>)
        requires
            old(self).well_formed(),
        ensures
            final(self).well_formed(),
            !(update is Call),
            update is Updated <==> (message_type == MessageType::Completion && old(
                self,
            )@.state is Pending && completion_in(message@) is Some),
            update is Updated ==> final(self)@ == (InvocationActionView {
                state: Phase::Holding(outcome_of(completion_in(message@)->Some_0)),
                ..old(self)@
            }),
            update is Ignored ==> final(self)@ == old(self)@,
    {
        match message_type {
            MessageType::Completion => {
                if self.completer.is_none() {
                    return ActionUpdate::Ignored;
                }
                match read_completion(message) {
                    Some(completion) => {
                        self.complete(read_outcome(completion));
                        ActionUpdate::Updated
                    },
                    None => ActionUpdate::Ignored,
                }
            },
            _ => ActionUpdate::Ignored,
        }
    }

    /// Polls for the outcome on behalf of the task behind `waker`.
    pub fn poll(&mut self, waker: &std::task::Waker) -> (progress: Progress<InvocationOutcome>)
        requires
            old(self).well_formed(),
        ensures
            final(self).well_formed(),
            final(self)@.invocation_id == old(self)@.invocation_id,
            old(self)@.state is Pending ==> progress is Pending && final(self)@.state is Pending,
            old(self)@.state matches Phase::Holding(outcome) ==> progress_view(progress)
                == Progress::Ready(outcome) && final(self)@.state is Done,
            old(self)@.state is Done ==> progress is Finished && final(self)@.state is Done,
    {
        self.future.poll(waker)
    }
}

} // verus!
