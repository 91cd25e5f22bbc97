//! The entries of the registry, as one type.

use crate::client::context::InvocationContext;
use crate::completer::manual_future::Phase;
use crate::execution::callback::{invocation_in, CallbackAction};
use crate::execution::enumerable::{stream_item_in, EnumerableAction, EnumerableActionView};
use crate::execution::invocation::{
    completion_in, outcome_of, ActionUpdate, InvocationAction, InvocationActionView,
};
use crate::protocol::negotiate::MessageType;
use vstd::prelude::*;

verus! {

/// An entry of the registry: the pending outcome of a single-result
/// invocation, the pending items of a streaming one, or a callback.
pub enum UpdatableAction {
    Invocation(InvocationAction),
    Stream(EnumerableAction),
    Callback(CallbackAction),
}

/// The mathematical value of an [`UpdatableAction`].
pub enum ActionView {
    Invocation(InvocationActionView),
    Stream(EnumerableActionView),
    Callback(Seq<char>),
}

impl View for UpdatableAction {
    type V = ActionView;

    open spec fn view(&self) -> ActionView {
        match self {
            UpdatableAction::Invocation(action) => ActionView::Invocation(action@),
            UpdatableAction::Stream(action) => ActionView::Stream(action@),
            UpdatableAction::Callback(action) => ActionView::Callback(action@),
        }
    }
}

impl ActionView {
    /// Whether the action takes a message of the given kind and text, rather
    /// than dropping it.
    pub open spec fn accepts(self, message: Seq<char>, message_type: MessageType) -> bool {
        match self {
            ActionView::Invocation(action) => message_type == MessageType::Completion
                && action.state is Pending && completion_in(message) is Some,
            ActionView::Stream(action) => !action.completed && ((message_type
                == MessageType::StreamItem && stream_item_in(message) is Some) || (message_type
                == MessageType::Completion && completion_in(message) is Some)),
            ActionView::Callback(_) => message_type == MessageType::Invocation && invocation_in(
                message,
            ) is Some,
        }
    }

    /// The action after it was offered a message of the given kind and text.
    pub open spec fn updated(self, message: Seq<char>, message_type: MessageType) -> ActionView {
        if !self.accepts(message, message_type) {
            self
        } else {
            match self {
                ActionView::Invocation(action) => ActionView::Invocation(
                    InvocationActionView {
                        state: Phase::Holding(outcome_of(completion_in(message)->Some_0)),
                        ..action
                    },
                ),
                ActionView::Stream(action) => if message_type == MessageType::StreamItem {
                    ActionView::Stream(
                        EnumerableActionView {
                            entries: action.entries.push(
                                Some(stream_item_in(message)->Some_0.item),
                            ),
                            ..action
                        },
                    )
                } else {
                    ActionView::Stream(
                        EnumerableActionView {
                            entries: action.entries.push(None),
                            completed: true,
                            ..action
                        },
                    )
                },
                ActionView::Callback(target) => self,
            }
        }
    }

    /// The action after its disposal: a pending invocation is cancelled and an
    /// open stream is ended.
    pub open spec fn disposed(self) -> ActionView {
        match self {
            ActionView::Invocation(action) => if action.state is Pending {
                ActionView::Invocation(InvocationActionView { state: Phase::Done, ..action })
            } else {
                self
            },
            ActionView::Stream(action) => if action.completed {
                self
            } else {
                ActionView::Stream(
                    EnumerableActionView {
                        entries: action.entries.push(None),
                        completed: true,
                        ..action
                    },
                )
            },
            ActionView::Callback(_) => self,
        }
    }

    /// Whether the action has nothing more to wait for.
    pub open spec fn completed(self) -> bool {
        match self {
            ActionView::Invocation(action) => !(action.state is Pending),
            ActionView::Stream(action) => action.completed,
            ActionView::Callback(_) => false,
        }
    }
}

impl UpdatableAction {
    /// Whether the entry is consistent in itself.
    pub open spec fn well_formed(&self) -> bool {
        match self {
            UpdatableAction::Invocation(action) => action.well_formed(),
            _ => true,
        }
    }

    /// Offers one message to the action. The action takes it or drops it; a
    /// callback that takes it asks for one run, with the invocation as its
    /// context.
    pub fn update_with(&mut self, message: &str, message_type: MessageType) -> (update:
        ActionUpdate<InvocationContext>)
        requires
            old(self).well_formed(),
        ensures
            final(self).well_formed(),
            final(self)@ == old(self)@.updated(message@, message_type),
            update is Ignored <==> !old(self)@.accepts(message@, message_type),
            update is Call <==> old(self)@ is Callback && old(self)@.accepts(
                message@,
                message_type,
            ),
            update matches ActionUpdate::Call(context) ==> invocation_in(message@) == Some(
                context@,
            ),
    {
        match self {
            UpdatableAction::Invocation(action) => match action.update_with(message, message_type) {
                ActionUpdate::Updated => ActionUpdate::Updated,
                _ => ActionUpdate::Ignored,
            },
            UpdatableAction::Stream(action) => match action.update_with(message, message_type) {
                ActionUpdate::Updated => ActionUpdate::Updated,
                _ => ActionUpdate::Ignored,
            },
            UpdatableAction::Callback(action) => action.update_with(message, message_type),
        }
    }

    /// Whether the action has nothing more to wait for.
    pub fn is_completed(&self) -> (b: bool)
        requires
            self.well_formed(),
        ensures
            b == self@.completed(),
    {
        match self {
            UpdatableAction::Invocation(action) => action.is_completed(),
            UpdatableAction::Stream(action) => action.is_completed(),
            UpdatableAction::Callback(action) => action.is_completed(),
        }
    }

    /// Disposes of the action: a pending invocation is cancelled, an open
    /// stream is ended, a callback is left as it is.
    pub fn dispose(&mut self)
        requires
            old(self).well_formed(),
        ensures
            final(self).well_formed(),
            final(self)@ == old(self)@.disposed(),
    {
        match self {
            UpdatableAction::Invocation(action) => action.dispose(),
            UpdatableAction::Stream(action) => action.dispose(),
            UpdatableAction::Callback(_) => {},
        }
    }
}

} // verus!
