//! Laws of the client core: what a caller can rely on across several calls.

use crate::client::client::{outcome_state, registered, resolved, stream_entries};
use crate::communication::client::{
    all_records, call_of, calls_of, kind_in, received, received_one, settled, settled_one,
};
use crate::completer::manual_future::Phase;
use crate::error::HubErrorView;
use crate::execution::actions::ActionView;
use crate::execution::callback::invocation_in;
use crate::execution::invocation::{completion_in, outcome_of};
use crate::execution::storage::{route, torn_down, Route};
use crate::json::separator_free;
use crate::protocol::messages::{framed, lemma_records_of_frame, lemma_scan_append, records};
use crate::protocol::negotiate::MessageType;
use vstd::prelude::*;

verus! {

/// Receiving one message is receiving the list of that message alone.
pub proof fn lemma_receive_single(
    registry: Map<Seq<char>, ActionView>,
    ended: Map<Seq<char>, ActionView>,
    message: Seq<char>,
)
    ensures
        received(registry, seq![message]) == received_one(registry, message),
        settled(registry, ended, seq![message]) == settled_one(registry, ended, message),
        calls_of(registry, seq![message]) == (match call_of(registry, message) {
            Some(invocation) => seq![invocation],
            None => Seq::empty(),
        }),
{
    let messages = seq![message];
    assert(messages.drop_last() =~= Seq::empty());
    assert(messages.last() == message);
    assert(received(registry, messages.drop_last()) == registry);
    assert(settled(registry, ended, messages.drop_last()) == ended);
    assert(calls_of(registry, messages.drop_last()) =~= Seq::empty());
    match call_of(registry, message) {
        Some(invocation) => {
            assert(Seq::<crate::protocol::invoke::InvocationView>::empty().push(invocation)
                =~= seq![invocation]);
        },
        None => {},
    }
}

/// One read that holds two frames is received as two messages, the first
/// before the second: each is routed on its own, in order.
pub proof fn lemma_two_frames_in_one_read(
    registry: Map<Seq<char>, ActionView>,
    ended: Map<Seq<char>, ActionView>,
    first: Seq<char>,
    second: Seq<char>,
)
    requires
        separator_free(first),
        first.len() > 0,
        separator_free(second),
        second.len() > 0,
    ensures
        all_records(seq![framed(first) + framed(second)]) == seq![first, second],
        received(registry, all_records(seq![framed(first) + framed(second)])) == received_one(
            received_one(registry, first),
            second,
        ),
        settled(registry, ended, all_records(seq![framed(first) + framed(second)]))
            == settled_one(
            received_one(registry, first),
            settled_one(registry, ended, first),
            second,
        ),
{
    let read = framed(first) + framed(second);
    lemma_records_of_frame(first);
    lemma_records_of_frame(second);
    lemma_scan_append(framed(first), framed(second));
    assert(records(read) =~= seq![first, second]);
    let reads = seq![read];
    assert(reads.drop_last() =~= Seq::empty());
    assert(all_records(reads.drop_last()) =~= Seq::empty());
    assert(all_records(reads) =~= seq![first, second]);
    let messages = seq![first, second];
    assert(messages.drop_last() =~= seq![first]);
    assert(messages.last() == second);
    lemma_receive_single(registry, ended, first);
}

/// A completion resolves the pending invocation it is for, and a second
/// completion for the same id changes nothing: the outcome that the caller
/// finds is the one that the first completion carried.
pub proof fn lemma_resolved_once(
    registry: Map<Seq<char>, ActionView>,
    ended: Map<Seq<char>, ActionView>,
    invocation_id: Seq<char>,
    first: Seq<char>,
    second: Seq<char>,
)
    requires
        registry.contains_key(invocation_id),
        registry[invocation_id] matches ActionView::Invocation(action) && action.state is Pending,
        !ended.contains_key(invocation_id),
        kind_in(first) == Some(MessageType::Completion),
        kind_in(second) == Some(MessageType::Completion),
        route(first, MessageType::Completion) == Route::Key(invocation_id),
        route(second, MessageType::Completion) == Route::Key(invocation_id),
        completion_in(first) is Some,
    ensures
        ({
            let registry1 = received_one(registry, first);
            let ended1 = settled_one(registry, ended, first);
            &&& outcome_state(registry1, ended1, invocation_id) == Phase::Holding(
                outcome_of(completion_in(first)->Some_0),
            )
            &&& received_one(registry1, second) == registry1
            &&& settled_one(registry1, ended1, second) == ended1
            &&& call_of(registry1, second) is None
        }),
{
}

/// A completion ends the stream it is for: the end mark comes behind the
/// items that were received before it, and an item that is received later for
/// the same id is never seen by the consumer.
pub proof fn lemma_stream_terminated(
    registry: Map<Seq<char>, ActionView>,
    ended: Map<Seq<char>, ActionView>,
    invocation_id: Seq<char>,
    completion: Seq<char>,
    later: Seq<char>,
)
    requires
        registry.contains_key(invocation_id),
        registry[invocation_id] matches ActionView::Stream(action) && !action.completed,
        !ended.contains_key(invocation_id),
        kind_in(completion) == Some(MessageType::Completion),
        kind_in(later) == Some(MessageType::StreamItem),
        route(completion, MessageType::Completion) == Route::Key(invocation_id),
        route(later, MessageType::StreamItem) == Route::Key(invocation_id),
    ensures
        ({
            let registry1 = received_one(registry, completion);
            let ended1 = settled_one(registry, ended, completion);
            let entries = stream_entries(registry, ended, invocation_id);
            &&& stream_entries(registry1, ended1, invocation_id) == entries.push(None)
            &&& received_one(registry1, later) == registry1
            &&& settled_one(registry1, ended1, later) == ended1
        }),
{
}

/// After a callback is registered under a target, one inbound invocation of
/// that target asks for exactly one run of the callback, with that invocation
/// as its context, and the callback stays registered.
pub proof fn lemma_callback_called_once(
    registry: Map<Seq<char>, ActionView>,
    target: Seq<char>,
    message: Seq<char>,
)
    requires
        registry.contains_key(target) ==> registry[target] is Callback,
        kind_in(message) == Some(MessageType::Invocation),
        invocation_in(message) matches Some(invocation) && invocation.target == target,
    ensures
        ({
            let after = registered(registry, target, ActionView::Callback(target));
            &&& calls_of(after, seq![message]) == seq![invocation_in(message)->Some_0]
            &&& received(after, seq![message]) == after
        }),
{
    let after = registered(registry, target, ActionView::Callback(target));
    lemma_receive_single(after, Map::empty(), message);
    assert(after.insert(target, after[target].updated(message, MessageType::Invocation)) =~= after);
}

/// After the registration under a target is taken back, an inbound message
/// for that target runs no callback and changes nothing.
pub proof fn lemma_unregistered_not_called(
    registry: Map<Seq<char>, ActionView>,
    target: Seq<char>,
    message: Seq<char>,
)
    requires
        kind_in(message) == Some(MessageType::Invocation),
        invocation_in(message) matches Some(invocation) && invocation.target == target,
    ensures
        calls_of(registry.remove(target), seq![message]) == Seq::<
            crate::protocol::invoke::InvocationView,
        >::empty(),
        received(registry.remove(target), seq![message]) == registry.remove(target),
{
    lemma_receive_single(registry.remove(target), Map::empty(), message);
}

/// A close message tears the client down: the registry is emptied, what was
/// pending is cancelled or ended, and no callback is run.
pub proof fn lemma_close_tears_down(
    registry: Map<Seq<char>, ActionView>,
    ended: Map<Seq<char>, ActionView>,
    message: Seq<char>,
)
    requires
        kind_in(message) == Some(MessageType::Close),
    ensures
        received_one(registry, message) == Map::<Seq<char>, ActionView>::empty(),
        settled_one(registry, ended, message) == torn_down(registry, ended),
        call_of(registry, message) is None,
{
}

/// A teardown cancels what is pending: the caller of an invocation that was
/// pending finds `Cancelled`, and the consumer of a stream that was open finds
/// its end behind the items that were received.
pub proof fn lemma_teardown_cancels(
    registry: Map<Seq<char>, ActionView>,
    ended: Map<Seq<char>, ActionView>,
    invocation_id: Seq<char>,
)
    requires
        registry.contains_key(invocation_id),
        !ended.contains_key(invocation_id),
    ensures
        registry[invocation_id] matches ActionView::Invocation(action) && action.state is Pending
            ==> resolved(
            outcome_state(Map::empty(), torn_down(registry, ended), invocation_id),
        ) == Some(Err::<Option<crate::json::Json>, HubErrorView>(HubErrorView::Cancelled)),
        registry[invocation_id] matches ActionView::Stream(action) && !action.completed
            ==> stream_entries(Map::empty(), torn_down(registry, ended), invocation_id)
            == registry[invocation_id]->Stream_0.entries.push(None),
{
}

} // verus!
