//! Laws of the registry: what holds of keys, of completions that come twice,
//! of streams that have ended, and of callbacks.

use crate::execution::actions::ActionView;
use crate::execution::callback::invocation_in;
use crate::execution::storage::{invocation_key, route, routed, Route};
use crate::protocol::negotiate::MessageType;
use crate::text::{decimal, is_digit, lemma_decimal_digits, lemma_decimal_injective};
use vstd::prelude::*;

verus! {

/// Keys made from different counter values are different, whatever their
/// targets. With a counter that only grows, all keys of a session are pairwise
/// different.
pub proof fn lemma_keys_distinct(target: Seq<char>, n: nat, other_target: Seq<char>, m: nat)
    requires
        n != m,
    ensures
        invocation_key(target, n) != invocation_key(other_target, m),
{
    reveal_strlit("_");
    let a = invocation_key(target, n);
    let b = invocation_key(other_target, m);
    let dn = decimal(n);
    let dm = decimal(m);
    lemma_decimal_digits(n);
    lemma_decimal_digits(m);
    if a == b {
        let len = a.len() as int;
        assert(len == target.len() + 1 + dn.len());
        assert(len == other_target.len() + 1 + dm.len());
        if dn.len() == dm.len() {
            assert(dn =~= dm) by {
                assert forall|i: int| 0 <= i < dn.len() implies dn[i] == dm[i] by {
                    assert(a[target.len() + 1 + i] == dn[i]);
                    assert(b[other_target.len() + 1 + i] == dm[i]);
                }
            }
            lemma_decimal_injective(n, m);
        } else if dn.len() < dm.len() {
            let p = target.len() as int;
            assert(a[p] == '_');
            assert(b[p] == dm[p - other_target.len() - 1]);
            assert(is_digit(dm[p - other_target.len() - 1]));
        } else {
            let p = other_target.len() as int;
            assert(b[p] == '_');
            assert(a[p] == dn[p - target.len() - 1]);
            assert(is_digit(dn[p - target.len() - 1]));
        }
    }
}

/// The keys that a session makes for the given targets, one after the other,
/// from a counter that stands at `start`.
pub open spec fn session_keys(targets: Seq<Seq<char>>, start: nat) -> Seq<Seq<char>> {
    Seq::new(targets.len(), |i: int| invocation_key(targets[i], (start + i + 1) as nat))
}

/// The keys of a session are pairwise different, whatever the targets.
pub proof fn lemma_session_keys_distinct(targets: Seq<Seq<char>>, start: nat)
    ensures
        forall|i: int, j: int|
            0 <= i < targets.len() && 0 <= j < targets.len() && i != j ==> session_keys(
                targets,
                start,
            )[i] != session_keys(targets, start)[j],
{
    assert forall|i: int, j: int|
        0 <= i < targets.len() && 0 <= j < targets.len() && i != j implies session_keys(
        targets,
        start,
    )[i] != session_keys(targets, start)[j] by {
        lemma_keys_distinct(targets[i], (start + i + 1) as nat, targets[j], (start + j + 1) as nat);
    }
}

/// An invocation whose outcome was set takes no further message: a second
/// completion leaves the outcome that the first one set.
pub proof fn lemma_outcome_set_once(
    action: ActionView,
    first: Seq<char>,
    second: Seq<char>,
    message_type: MessageType,
)
    requires
        action is Invocation,
        action.accepts(first, MessageType::Completion),
    ensures
        !action.updated(first, MessageType::Completion).accepts(second, message_type),
        action.updated(first, MessageType::Completion).updated(second, message_type)
            == action.updated(first, MessageType::Completion),
{
}

/// A stream that a completion has ended holds the end mark as its last entry
/// and takes no further message: no item that comes later is appended.
pub proof fn lemma_stream_ends_once(
    action: ActionView,
    completion: Seq<char>,
    later: Seq<char>,
    message_type: MessageType,
)
    requires
        action is Stream,
        action.accepts(completion, MessageType::Completion),
    ensures
        action.updated(completion, MessageType::Completion)->Stream_0.completed,
        action.updated(completion, MessageType::Completion)->Stream_0.entries.last() is None,
        !action.updated(completion, MessageType::Completion).accepts(later, message_type),
        action.updated(completion, MessageType::Completion).updated(later, message_type)
            == action.updated(completion, MessageType::Completion),
{
}

/// A completion takes the invocation or stream it is for out of the registry,
/// so every later stream item or completion for the same id is dropped and
/// changes nothing.
pub proof fn lemma_late_message_dropped(
    registry: Map<Seq<char>, ActionView>,
    completion: Seq<char>,
    later: Seq<char>,
    later_type: MessageType,
    key: Seq<char>,
)
    requires
        route(completion, MessageType::Completion) == Route::Key(key),
        route(later, later_type) == Route::Key(key),
        registry.contains_key(key) ==> !(registry[key] is Callback),
    ensures
        !routed(registry, completion, MessageType::Completion).contains_key(key),
        routed(routed(registry, completion, MessageType::Completion), later, later_type) == routed(
            registry,
            completion,
            MessageType::Completion,
        ),
{
}

/// Once a callback is registered under a target, an invocation of that target
/// is routed to it and accepted, and the callback stays registered.
pub proof fn lemma_callback_routed(
    registry: Map<Seq<char>, ActionView>,
    target: Seq<char>,
    message: Seq<char>,
)
    requires
        invocation_in(message) matches Some(invocation) && invocation.target == target,
    ensures
        ({
            let registered = registry.insert(target, ActionView::Callback(target));
            &&& route(message, MessageType::Invocation) == Route::Key(target)
            &&& registered[target].accepts(message, MessageType::Invocation)
            &&& routed(registered, message, MessageType::Invocation) == registered
        }),
{
    let registered = registry.insert(target, ActionView::Callback(target));
    assert(registered.insert(target, registered[target].updated(message, MessageType::Invocation))
        =~= registered);
}

/// Once the callback under a target is unregistered, an invocation of that
/// target is routed to no action and changes nothing.
pub proof fn lemma_unregistered_not_routed(
    registry: Map<Seq<char>, ActionView>,
    target: Seq<char>,
    message: Seq<char>,
    message_type: MessageType,
)
    requires
        route(message, message_type) == Route::Key(target),
    ensures
        !registry.remove(target).contains_key(target),
        routed(registry.remove(target), message, message_type) == registry.remove(target),
{
}

/// Disposing of a pending invocation cancels it; disposing of an open stream
/// ends it. Nothing is pending after a disposal.
pub proof fn lemma_disposed_is_final(action: ActionView)
    ensures
        action matches ActionView::Invocation(invocation) && invocation.state is Pending
            ==> action.disposed()->Invocation_0.state is Done,
        action matches ActionView::Stream(stream) && !stream.completed
            ==> action.disposed()->Stream_0.entries.last() is None,
        !(action is Callback) ==> action.disposed().completed(),
        action.disposed().disposed() == action.disposed(),
{
}

} // verus!
