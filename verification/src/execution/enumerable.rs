//! The pending items of a streaming invocation.

use crate::completer::manual_stream::{ManualStream, ManualStreamCompleter, StreamProgress};
use crate::execution::invocation::{completion_in, read_completion, ActionUpdate};
use crate::json::{json_model, json_parse, Json};
use crate::protocol::messages::MessageParser;
use crate::protocol::negotiate::MessageType;
use crate::protocol::streaming::{StreamItem, StreamItemView};
use vstd::prelude::*;

verus! {

/// The stream item that a message holds; nothing where the message is no JSON
/// or no stream item.
pub open spec fn stream_item_in(message: Seq<char>) -> Option<StreamItemView> {
    match json_parse(message) {
        Some(document) => StreamItemView::of_json(document),
        None => None,
    }
}

/// Reads one message as a stream item.
pub fn read_stream_item(message: &str) -> (item: Option<StreamItem<serde_json::Value>>)
    ensures
        item is Some <==> stream_item_in(message@) is Some,
        item matches Some(i) ==> stream_item_in(message@) == Some(i@),
{
    match MessageParser::parse_message(message) {
        Ok(value) => StreamItem::from_value(&value),
        Err(_) => None,
    }
}

/// The entries of a stream of documents: an item, or the end mark.
pub open spec fn entries_view(entries: Seq<Option<serde_json::Value>>) -> Seq<Option<Json>> {
    Seq::new(
        entries.len(),
        |i: int|
            match entries[i] {
                Some(item) => Some(json_model(item)),
                None => None,
            },
    )
}

/// What one poll of a stream of documents gives, over the document.
pub open spec fn stream_progress_view(progress: StreamProgress<serde_json::Value>) -> StreamProgress<
    Json,
> {
    match progress {
        StreamProgress::Item(item) => StreamProgress::Item(json_model(item)),
        StreamProgress::End => StreamProgress::End,
        StreamProgress::Pending => StreamProgress::Pending,
    }
}

/// The registry entry of a streaming invocation: the stream of its items and
/// the right to fill it.
pub struct EnumerableAction {
    invocation_id: String,
    completer: ManualStreamCompleter<serde_json::Value>,
    stream: ManualStream<serde_json::Value>,
    completed: bool,
}

/// The mathematical value of an [`EnumerableAction`].
pub struct EnumerableActionView {
    pub invocation_id: Seq<char>,
    /// The entries that the consumer has not yet taken, oldest first.
    pub entries: Seq<Option<Json>>,
    /// Whether the stream was ended.
    pub completed: bool,
}

impl View for EnumerableAction {
    type V = EnumerableActionView;

    closed spec fn view(&self) -> EnumerableActionView {
        EnumerableActionView {
            invocation_id: self.invocation_id@,
            entries: entries_view(self.stream.entries()),
            completed: self.completed,
        }
    }
}

impl EnumerableAction {
    /// The entry of the streaming invocation `invocation_id`, with no item
    /// yet.
    pub fn new(invocation_id: String) -> (action: Self)
        ensures
            action@ == (EnumerableActionView {
                invocation_id: invocation_id@,
                entries: Seq::empty(),
                completed: false,
            }),
    {
        let (stream, completer) = ManualStream::create();
        let action = EnumerableAction { invocation_id, completer, stream, completed: false };
        assert(entries_view(action.stream.entries()) =~= Seq::empty());
        action
    }

    /// Whether the stream was ended.
    pub fn is_completed(&self) -> (b: bool)
        ensures
            b == self@.completed,
    {
        self.completed
    }

    /// The id of the invocation.
    pub fn get_invocation_id(&self) -> (invocation_id: String)
        ensures
            invocation_id@ == self@.invocation_id,
    {
        self.invocation_id.clone()
    }

    fn push(&mut self, item: serde_json::Value)
        ensures
            final(self)@ == (EnumerableActionView {
                entries: old(self)@.entries.push(Some(json_model(item))),
                ..old(self)@
            }),
    {
        self.completer.push(&mut self.stream, item);
        assert(entries_view(self.stream.entries()) =~= entries_view(old(self).stream.entries()).push(
            Some(json_model(item)),
        ));
    }

    /// Ends the stream, once: a stream that was ended stays as it is.
    pub fn dispose(&mut self)
        ensures
            !old(self)@.completed ==> final(self)@ == (EnumerableActionView {
                entries: old(self)@.entries.push(None),
                completed: true,
                ..old(self)@
            }),
            old(self)@.completed ==> final(self)@ == old(self)@,
    {
        if !self.completed {
            self.completed = true;
            self.completer.close(&mut self.stream);
            assert(entries_view(self.stream.entries()) =~= entries_view(
                old(self).stream.entries(),
            ).push(None));
        }
    }

    /// Takes one message. While the stream is open, a stream item that can be
    /// read is appended and a completion that can be read ends the stream.
    /// Every other message is dropped, and so is any message to a stream that
    /// was ended.
    pub fn update_with(&mut self, message: &str, message_type: MessageType) -> (update:
        ActionUpdate<()>)
        ensures
            !(update is Call),
            update is Updated <==> !old(self)@.completed && ((message_type
                == MessageType::StreamItem && stream_item_in(message@) is Some) || (message_type
                == MessageType::Completion && completion_in(message@) is Some)),
            update is Updated && message_type == MessageType::StreamItem ==> final(self)@ == (
            EnumerableActionView {
                entries: old(self)@.entries.push(Some(stream_item_in(message@)->Some_0.item)),
                ..old(self)@
            }),
            update is Updated && message_type == MessageType::Completion ==> final(self)@ == (
            EnumerableActionView {
                entries: old(self)@.entries.push(None),
                completed: true,
                ..old(self)@
            }),
            update is Ignored ==> final(self)@ == old(self)@,
    {
        if self.completed {
            return ActionUpdate::Ignored;
        }
        match message_type {
            MessageType::StreamItem => match read_stream_item(message) {
                Some(item) => {
                    self.push(item.into_item());
                    ActionUpdate::Updated
                },
                None => ActionUpdate::Ignored,
            },
            MessageType::Completion => match read_completion(message) {
                Some(_) => {
                    self.dispose();
                    ActionUpdate::Updated
                },
                None => ActionUpdate::Ignored,
            },
            _ => ActionUpdate::Ignored,
        }
    }

    /// Polls for the next entry on behalf of the task behind `waker`.
    pub fn poll_next(&mut self, waker: &std::task::Waker) -> (progress: StreamProgress<
        serde_json::Value,
    >)
        ensures
            final(self)@.invocation_id == old(self)@.invocation_id,
            final(self)@.completed == old(self)@.completed,
            old(self)@.entries.len() == 0 ==> progress is Pending && final(self)@.entries
                == old(self)@.entries,
            old(self)@.entries.len() > 0 ==> final(self)@.entries == old(self)@.entries.drop_first()
                && stream_progress_view(progress) == (match old(self)@.entries[0] {
                Some(item) => StreamProgress::Item(item),
                None => StreamProgress::End,
            }),
    {
        let progress = self.stream.poll_next(waker);
        assert(old(self)@.entries.len() > 0 ==> entries_view(self.stream.entries()) =~= entries_view(
            old(self).stream.entries(),
        ).drop_first());
        progress
    }
}

} // verus!
