//! The registry of actions and the routing of inbound messages.

use crate::client::context::InvocationContext;
use crate::completer::manual_future::{ManualFuture, ManualFutureCompleter, Phase, Progress};
use crate::execution::actions::{ActionView, UpdatableAction};
use crate::execution::callback::{invocation_in, read_invocation, CallbackAction};
use crate::execution::enumerable::{EnumerableAction, EnumerableActionView};
use crate::execution::invocation::{ActionUpdate, InvocationAction, InvocationActionView};
use crate::execution::keyed::{
    distinct_keys, has_key, lemma_map_keys, lemma_map_remove, lemma_map_value, lemma_push_distinct,
    map_of,
};
use crate::json::json_parse;
use crate::protocol::invoke::{PossibleInvocation, PossibleInvocationView};
use crate::protocol::messages::MessageParser;
use crate::protocol::negotiate::MessageType;
use crate::text::{decimal, usize_text};
use vstd::prelude::*;
use vstd::string::*;

verus! {

/// The keyed store of the client's actions, with the counter from which the
/// ids of invocations are made.
pub struct UpdatableActionStorage {
    data: Vec<(String, UpdatableAction)>,
    index: usize,
}

/// The values of a list of entries.
pub open spec fn pairs_view(data: Seq<(String, UpdatableAction)>) -> Seq<(Seq<char>, ActionView)> {
    Seq::new(data.len(), |i: int| (data[i].0@, data[i].1@))
}

impl View for UpdatableActionStorage {
    type V = Map<Seq<char>, ActionView>;

    closed spec fn view(&self) -> Map<Seq<char>, ActionView> {
        map_of(pairs_view(self.data@))
    }
}

impl UpdatableActionStorage {
    /// The number of keys made so far.
    pub closed spec fn counter(&self) -> nat {
        self.index as nat
    }

    /// No key is registered twice, and every entry is consistent in itself.
    pub closed spec fn well_formed(&self) -> bool {
        &&& distinct_keys(pairs_view(self.data@))
        &&& forall|i: int| 0 <= i < self.data@.len() ==> (#[trigger] self.data@[i]).1.well_formed()
    }

    /// An empty registry whose counter stands at zero.
    pub fn new() -> (storage: Self)
        ensures
            storage.well_formed(),
            storage@ == Map::<Seq<char>, ActionView>::empty(),
            storage.counter() == 0,
    {
        let storage = UpdatableActionStorage { data: Vec::new(), index: 0 };
        assert(pairs_view(storage.data@) =~= Seq::empty());
        storage
    }

    fn find(&self, key: &String) -> (position: Option<usize>)
        requires
            self.well_formed(),
        ensures
            position is Some <==> self@.contains_key(key@),
            position matches Some(i) ==> i < self.data@.len() && self.data@[i as int].0@ == key@
                && self@[key@] == self.data@[i as int].1@,
    {
        proof {
            lemma_map_keys(pairs_view(self.data@));
        }
        let mut i: usize = 0;
        while i < self.data.len()
            invariant
                self.well_formed(),
                i <= self.data@.len(),
                forall|k: int| 0 <= k < i ==> self.data@[k].0@ != key@,
            decreases self.data@.len() - i,
        {
            if self.data[i].0 == *key {
                proof {
                    let pairs = pairs_view(self.data@);
                    assert(pairs[i as int].0 == key@);
                    lemma_map_value(pairs, i as int);
                }
                return Some(i);
            }
            i += 1;
        }
        proof {
            let pairs = pairs_view(self.data@);
            if has_key(pairs, key@) {
                let k = choose|k: int| 0 <= k < pairs.len() && pairs[k].0 == key@;
                assert(self.data@[k].0@ != key@);
            }
        }
        None
    }

    /// Whether an action is registered under `key`.
    pub fn contains(&self, key: String) -> (b: bool)
        requires
            self.well_formed(),
        ensures
            b == self@.contains_key(key@),
    {
        self.find(&key).is_some()
    }

    /// Registers `action` under `key`. A key that is taken keeps its action,
    /// and the new action is dropped.
    pub fn insert(&mut self, key: String, action: UpdatableAction) -> (inserted: bool)
        requires
            old(self).well_formed(),
            action.well_formed(),
        ensures
            final(self).well_formed(),
            final(self).counter() == old(self).counter(),
            inserted == !old(self)@.contains_key(key@),
            inserted ==> final(self)@ == old(self)@.insert(key@, action@),
            !inserted ==> final(self)@ == old(self)@,
    {
        match self.find(&key) {
            Some(_) => false,
            None => {
                proof {
                    lemma_map_keys(pairs_view(self.data@));
                    lemma_push_distinct(pairs_view(self.data@), key@, action@);
                }
                self.data.push((key, action));
                assert(pairs_view(self.data@) =~= pairs_view(old(self).data@).push((key@, action@)));
                true
            },
        }
    }

    fn take(&mut self, position: usize) -> (entry: (String, UpdatableAction))
        requires
            old(self).well_formed(),
            position < old(self).data@.len(),
        ensures
            final(self).well_formed(),
            final(self).counter() == old(self).counter(),
            entry == old(self).data@[position as int],
            final(self).data@.len() == old(self).data@.len() - 1,
            entry.1.well_formed(),
            final(self)@ == old(self)@.remove(entry.0@),
            old(self)@.contains_key(entry.0@),
            old(self)@[entry.0@] == entry.1@,
    {
        proof {
            lemma_map_remove(pairs_view(self.data@), position as int);
            lemma_map_value(pairs_view(self.data@), position as int);
        }
        let entry = self.data.remove(position);
        assert(pairs_view(self.data@) =~= pairs_view(old(self).data@).remove(position as int));
        entry
    }

    /// Offers one message to the action under `key`. Without such an action
    /// nothing happens.
    pub fn update(&mut self, key: String, message: &str, message_type: MessageType) -> (update:
        ActionUpdate<InvocationContext>)
        requires
            old(self).well_formed(),
        ensures
            final(self).well_formed(),
            final(self).counter() == old(self).counter(),
            !old(self)@.contains_key(key@) ==> update is Ignored && final(self)@ == old(self)@,
            old(self)@.contains_key(key@) ==> {
                let action = old(self)@[key@];
                &&& final(self)@ == old(self)@.insert(key@, action.updated(message@, message_type))
                &&& update is Ignored <==> !action.accepts(message@, message_type)
                &&& update is Call <==> action is Callback && action.accepts(message@, message_type)
                &&& update matches ActionUpdate::Call(context) ==> invocation_in(message@) == Some(
                    context@,
                )
            },
    {
        match self.find(&key) {
            Some(position) => {
                let (name, mut action) = self.take(position);
                let update = action.update_with(message, message_type);
                let inserted = self.insert(name, action);
                assert(final(self)@ =~= old(self)@.insert(
                    key@,
                    old(self)@[key@].updated(message@, message_type),
                ));
                update
            },
            None => ActionUpdate::Ignored,
        }
    }

    /// Takes the action under `key` out of the registry and disposes of it: a
    /// pending invocation is cancelled, an open stream is ended. The action is
    /// handed back, so that what it holds can still be consumed.
    pub fn remove(&mut self, key: String) -> (removed: Option<UpdatableAction>)
        requires
            old(self).well_formed(),
        ensures
            final(self).well_formed(),
            final(self).counter() == old(self).counter(),
            final(self)@ == old(self)@.remove(key@),
            removed is Some <==> old(self)@.contains_key(key@),
            removed matches Some(action) ==> action.well_formed() && action@ == old(
                self,
            )@[key@].disposed(),
    {
        match self.find(&key) {
            Some(position) => {
                let (_, mut action) = self.take(position);
                action.dispose();
                Some(action)
            },
            None => {
                assert(old(self)@.remove(key@) =~= old(self)@);
                None
            },
        }
    }

    /// Abandons the invocation or stream under `key`: it is disposed of where
    /// it stands, so that every further message to it is dropped, and it stays
    /// registered until its completion comes. A callback is left as it is.
    pub fn abandon(&mut self, key: String)
        requires
            old(self).well_formed(),
        ensures
            final(self).well_formed(),
            final(self).counter() == old(self).counter(),
            final(self)@ == (if old(self)@.contains_key(key@) {
                old(self)@.insert(key@, old(self)@[key@].disposed())
            } else {
                old(self)@
            }),
    {
        match self.find(&key) {
            Some(position) => {
                let (name, mut action) = self.take(position);
                action.dispose();
                self.insert(name, action);
                assert(final(self)@ =~= old(self)@.insert(key@, old(self)@[key@].disposed()));
            },
            None => {},
        }
    }

    /// Empties the registry. Every action is disposed of and handed back, in
    /// no particular order.
    pub fn dispose(&mut self) -> (removed: Vec<(String, UpdatableAction)>)
        requires
            old(self).well_formed(),
        ensures
            final(self).well_formed(),
            final(self).counter() == old(self).counter(),
            final(self)@ == Map::<Seq<char>, ActionView>::empty(),
            removed@.len() == old(self)@.dom().len(),
            forall|i: int|
                0 <= i < removed@.len() ==> {
                    let entry = #[trigger] removed@[i];
                    &&& entry.1.well_formed()
                    &&& old(self)@.contains_key(entry.0@)
                    &&& entry.1@ == old(self)@[entry.0@].disposed()
                },
            forall|key: Seq<char>| #[trigger]
                old(self)@.contains_key(key) ==> exists|i: int|
                    0 <= i < removed@.len() && removed@[i].0@ == key,
    {
        let mut removed: Vec<(String, UpdatableAction)> = Vec::new();
        proof {
            lemma_map_keys(pairs_view(self.data@));
        }
        while self.data.len() > 0
            invariant
                self.well_formed(),
                self.index == old(self).index,
                old(self)@.dom().finite(),
                removed@.len() + self@.dom().len() == old(self)@.dom().len(),
                self@.dom().finite(),
                forall|i: int|
                    0 <= i < removed@.len() ==> {
                        let entry = #[trigger] removed@[i];
                        &&& entry.1.well_formed()
                        &&& old(self)@.contains_key(entry.0@)
                        &&& entry.1@ == old(self)@[entry.0@].disposed()
                    },
                forall|key: Seq<char>| #[trigger]
                    old(self)@.contains_key(key) ==> self@.contains_key(key) && self@[key] == old(
                        self,
                    )@[key] || exists|i: int| 0 <= i < removed@.len() && removed@[i].0@ == key,
                forall|key: Seq<char>| #[trigger]
                    self@.contains_key(key) ==> old(self)@.contains_key(key) && self@[key] == old(
                        self,
                    )@[key],
            decreases self.data@.len(),
        {
            let ghost before = self@;
            let ghost taken = removed@;
            let position: usize = self.data.len() - 1;
            let (name, mut action) = self.take(position);
            action.dispose();
            removed.push((name, action));
            proof {
                lemma_map_keys(pairs_view(self.data@));
                assert forall|key: Seq<char>| #[trigger]
                    old(self)@.contains_key(key) implies self@.contains_key(key) && self@[key]
                    == old(self)@[key] || exists|i: int|
                    0 <= i < removed@.len() && removed@[i].0@ == key by {
                    if key == name@ {
                        assert(removed@[removed@.len() - 1].0@ == key);
                    } else if before.contains_key(key) {
                    } else {
                        let i = choose|i: int| 0 <= i < taken.len() && taken[i].0@ == key;
                        assert(removed@[i].0@ == key);
                    }
                }
            }
        }
        proof {
            assert(pairs_view(self.data@) =~= Seq::empty());
            assert(self@ =~= Map::<Seq<char>, ActionView>::empty());
        }
        removed
    }

    /// Whether the counter can advance: it has not reached the largest number
    /// that it can hold.
    pub fn can_allocate(&self) -> (b: bool)
        ensures
            b == (self.counter() < usize::MAX),
    {
        self.index < usize::MAX
    }

    /// Advances the counter by one and gives its new value.
    pub fn increment(&mut self) -> (index: usize)
        requires
            old(self).counter() < usize::MAX,
        ensures
            index == old(self).counter() + 1,
            final(self).counter() == index,
            final(self)@ == old(self)@,
            old(self).well_formed() ==> final(self).well_formed(),
    {
        self.index = self.index + 1;
        self.index
    }

    /// Makes the key of the next invocation of `target`: the target, an
    /// underscore, and the new value of the counter in decimal.
    pub fn create_key(&mut self, target: String) -> (key: String)
        requires
            old(self).counter() < usize::MAX,
        ensures
            key@ == invocation_key(target@, old(self).counter() + 1),
            final(self).counter() == old(self).counter() + 1,
            final(self)@ == old(self)@,
            old(self).well_formed() ==> final(self).well_formed(),
    {
        let index = self.increment();
        let mut key = target;
        key.append("_");
        let digits = usize_text(index);
        key.append(digits.as_str());
        key
    }

    /// Registers a callback under `target`. A target that is taken keeps what
    /// is registered under it.
    pub fn add_callback(&mut self, target: String) -> (added: bool)
        requires
            old(self).well_formed(),
        ensures
            final(self).well_formed(),
            final(self).counter() == old(self).counter(),
            added == !old(self)@.contains_key(target@),
            added ==> final(self)@ == old(self)@.insert(target@, ActionView::Callback(target@)),
            !added ==> final(self)@ == old(self)@,
    {
        let action = UpdatableAction::Callback(CallbackAction::create(target.clone()));
        self.insert(target, action)
    }

    /// Registers the pending outcome of the invocation `invocation_id`.
    pub fn add_invocation(&mut self, invocation_id: String) -> (added: bool)
        requires
            old(self).well_formed(),
        ensures
            final(self).well_formed(),
            final(self).counter() == old(self).counter(),
            added == !old(self)@.contains_key(invocation_id@),
            added ==> final(self)@ == old(self)@.insert(
                invocation_id@,
                ActionView::Invocation(
                    InvocationActionView { invocation_id: invocation_id@, state: Phase::Pending },
                ),
            ),
            !added ==> final(self)@ == old(self)@,
    {
        let action = UpdatableAction::Invocation(InvocationAction::new(invocation_id.clone()));
        self.insert(invocation_id, action)
    }

    /// Registers the pending items of the streaming invocation
    /// `invocation_id`.
    pub fn add_stream(&mut self, invocation_id: String) -> (added: bool)
        requires
            old(self).well_formed(),
        ensures
            final(self).well_formed(),
            final(self).counter() == old(self).counter(),
            added == !old(self)@.contains_key(invocation_id@),
            added ==> final(self)@ == old(self)@.insert(
                invocation_id@,
                ActionView::Stream(
                    EnumerableActionView {
                        invocation_id: invocation_id@,
                        entries: Seq::empty(),
                        completed: false,
                    },
                ),
            ),
            !added ==> final(self)@ == old(self)@,
    {
        let action = UpdatableAction::Stream(EnumerableAction::new(invocation_id.clone()));
        self.insert(invocation_id, action)
    }
}

/// What is read of a message to find where it goes; nothing where the message
/// is no JSON or its members are of the wrong kind.
pub open spec fn possible_in(message: Seq<char>) -> Option<PossibleInvocationView> {
    match json_parse(message) {
        Some(document) => PossibleInvocationView::of_json(document),
        None => None,
    }
}

/// Reads the routing members of one message.
pub fn read_possible(message: &str) -> (possible: Option<PossibleInvocation>)
    ensures
        possible is Some <==> possible_in(message@) is Some,
        possible matches Some(p) ==> possible_in(message@) == Some(p@),
{
    match MessageParser::parse_message(message) {
        Ok(value) => PossibleInvocation::from_value(&value),
        Err(_) => None,
    }
}

/// Where a message goes.
pub enum Route {
    /// The message cannot be read for routing.
    Unreadable,
    /// The message goes to no action.
    Nowhere,
    /// The message goes to the action under this key, if there is one.
    Key(Seq<char>),
}

/// Where a message of the given kind goes: an invocation to the action under
/// its target, a stream item or a completion to the action under its
/// invocation id, any other message nowhere.
pub open spec fn route(message: Seq<char>, message_type: MessageType) -> Route {
    match message_type {
        MessageType::Invocation => match invocation_in(message) {
            Some(invocation) => Route::Key(invocation.target),
            None => Route::Unreadable,
        },
        MessageType::StreamItem | MessageType::Completion => match possible_in(message) {
            Some(possible) => match possible.invocation_id {
                Some(id) => Route::Key(id),
                None => Route::Nowhere,
            },
            None => Route::Unreadable,
        },
        _ => Route::Nowhere,
    }
}

/// Whether routing a message of this kind to this action ends the action's
/// stay in the registry: a completion does, for anything but a callback.
pub open spec fn ends_entry(action: ActionView, message_type: MessageType) -> bool {
    message_type == MessageType::Completion && !(action is Callback)
}

/// The registry after a message was routed.
pub open spec fn routed(
    registry: Map<Seq<char>, ActionView>,
    message: Seq<char>,
    message_type: MessageType,
) -> Map<Seq<char>, ActionView> {
    match route(message, message_type) {
        Route::Key(key) => if registry.contains_key(key) {
            if ends_entry(registry[key], message_type) {
                registry.remove(key)
            } else {
                registry.insert(key, registry[key].updated(message, message_type))
            }
        } else {
            registry
        },
        _ => registry,
    }
}

/// Whether `r` is what routing the message comes to, from the registry as it
/// was before: an error exactly for a message that cannot be read for
/// routing; the finished action for a completion that ends an entry; a call
/// exactly where a callback accepts; and otherwise whether the action took the
/// message.
pub open spec fn dispatched(
    registry: Map<Seq<char>, ActionView>,
    message: Seq<char>,
    message_type: MessageType,
    r: Result<Dispatch, String>,
) -> bool {
    &&& r is Err <==> route(message, message_type) is Unreadable
    &&& r matches Err(text) ==> text@ == report_of(message)
    &&& r matches Ok(dispatch) ==> if message_type == MessageType::Close {
        dispatch is Close
    } else {
        match route(message, message_type) {
            Route::Key(key) => if registry.contains_key(key) {
                let action = registry[key];
                if ends_entry(action, message_type) {
                    if action.completed() {
                        dispatch is Ignored
                    } else {
                        dispatch matches Dispatch::Finished(name, finished) && name@ == key
                            && finished.well_formed() && finished@ == action.updated(
                            message,
                            message_type,
                        ).disposed()
                    }
                } else {
                    &&& dispatch is Ignored <==> !action.accepts(message, message_type)
                    &&& dispatch is Call <==> action is Callback && action.accepts(
                        message,
                        message_type,
                    )
                    &&& dispatch matches Dispatch::Call(context) ==> invocation_in(message)
                        == Some(context@)
                    &&& !(dispatch is Finished)
                    &&& !(dispatch is Close)
                }
            } else {
                dispatch is Ignored
            },
            _ => dispatch is Ignored,
        }
    }
}

/// What routing one message came to.
pub enum Dispatch {
    /// No action took the message.
    Ignored,
    /// An action took the message and stays registered.
    Updated,
    /// A callback took the message and is to be run with this context.
    Call(InvocationContext),
    /// The message ended an invocation that somebody may still wait for. Its
    /// action has left the registry and is handed over with its key, so that
    /// what it holds can still be consumed.
    Finished(String, UpdatableAction),
    /// The server closes the connection: the client is to be torn down.
    Close,
}

impl UpdatableActionStorage {
    /// Routes one inbound message of the given kind to the action it is for.
    ///
    /// An invocation goes to the callback registered under its target. A
    /// stream item goes to the action under its invocation id. A completion
    /// goes there too, and then takes the action out of the registry, unless
    /// it is a callback; the action is handed over, unless it was abandoned. A message for a key that is not registered is
    /// dropped, and so is a message of any other kind. A message that cannot
    /// be read for routing is reported and changes nothing. A close message
    /// changes nothing here and asks for the teardown of the client.
    pub fn process_message(&mut self, message: String, message_type: MessageType) -> (r: Result<
        Dispatch,
        String,
    >)
        requires
            old(self).well_formed(),
        ensures
            final(self).well_formed(),
            final(self).counter() == old(self).counter(),
            final(self)@ == routed(old(self)@, message@, message_type),
            dispatched(old(self)@, message@, message_type, r),
    {
        match message_type {
            MessageType::Invocation => match read_invocation(message.as_str()) {
                Some(invocation) => Ok(
                    self.deliver(invocation.get_target(), message.as_str(), message_type),
                ),
                None => Err(unreadable(message)),
            },
            MessageType::StreamItem => match read_possible(message.as_str()) {
                Some(possible) => match possible.get_invocation_id() {
                    Some(key) => Ok(self.deliver(key, message.as_str(), message_type)),
                    None => Ok(Dispatch::Ignored),
                },
                None => Err(unreadable(message)),
            },
            MessageType::Completion => match read_possible(message.as_str()) {
                Some(possible) => match possible.get_invocation_id() {
                    Some(key) => Ok(self.finish(key, message.as_str())),
                    None => Ok(Dispatch::Ignored),
                },
                None => Err(unreadable(message)),
            },
            MessageType::StreamInvocation => Ok(Dispatch::Ignored),
            MessageType::CancelInvocation => Ok(Dispatch::Ignored),
            MessageType::Ping => Ok(Dispatch::Ignored),
            MessageType::Close => Ok(Dispatch::Close),
            MessageType::Other => Ok(Dispatch::Ignored),
        }
    }

    fn deliver(&mut self, key: String, message: &str, message_type: MessageType) -> (dispatch:
        Dispatch)
        requires
            old(self).well_formed(),
        ensures
            final(self).well_formed(),
            final(self).counter() == old(self).counter(),
            !old(self)@.contains_key(key@) ==> dispatch is Ignored && final(self)@ == old(self)@,
            old(self)@.contains_key(key@) ==> {
                let action = old(self)@[key@];
                &&& final(self)@ == old(self)@.insert(key@, action.updated(message@, message_type))
                &&& dispatch is Ignored <==> !action.accepts(message@, message_type)
                &&& dispatch is Call <==> action is Callback && action.accepts(
                    message@,
                    message_type,
                )
                &&& dispatch matches Dispatch::Call(context) ==> invocation_in(message@) == Some(
                    context@,
                )
                &&& !(dispatch is Finished)
            },
            !(dispatch is Close),
    {
        match self.update(key, message, message_type) {
            ActionUpdate::Ignored => Dispatch::Ignored,
            ActionUpdate::Updated => Dispatch::Updated,
            ActionUpdate::Call(context) => Dispatch::Call(context),
        }
    }

    fn finish(&mut self, key: String, message: &str) -> (dispatch: Dispatch)
        requires
            old(self).well_formed(),
        ensures
            final(self).well_formed(),
            final(self).counter() == old(self).counter(),
            !old(self)@.contains_key(key@) ==> dispatch is Ignored && final(self)@ == old(self)@,
            old(self)@.contains_key(key@) ==> {
                let action = old(self)@[key@];
                if action is Callback {
                    &&& final(self)@ == old(self)@.insert(
                        key@,
                        action.updated(message@, MessageType::Completion),
                    )
                    &&& dispatch is Ignored
                } else if action.completed() {
                    &&& final(self)@ == old(self)@.remove(key@)
                    &&& dispatch is Ignored
                } else {
                    &&& final(self)@ == old(self)@.remove(key@)
                    &&& dispatch matches Dispatch::Finished(name, finished)
                    &&& dispatch->Finished_0@ == key@
                    &&& dispatch->Finished_1.well_formed()
                    &&& dispatch->Finished_1@ == action.updated(
                        message@,
                        MessageType::Completion,
                    ).disposed()
                }
            },
            !(dispatch is Close),
    {
        match self.find(&key) {
            Some(position) => {
                let (name, mut action) = self.take(position);
                match action {
                    UpdatableAction::Callback(_) => {
                        self.insert(name, action);
                        assert(final(self)@ =~= old(self)@.insert(
                            key@,
                            old(self)@[key@].updated(message@, MessageType::Completion),
                        ));
                        Dispatch::Ignored
                    },
                    _ => {
                        if action.is_completed() {
                            Dispatch::Ignored
                        } else {
                            action.update_with(message, MessageType::Completion);
                            action.dispose();
                            Dispatch::Finished(name, action)
                        }
                    },
                }
            },
            None => Dispatch::Ignored,
        }
    }
}

/// The report of a message that cannot be routed.
pub open spec fn report_of(message: Seq<char>) -> Seq<char> {
    "Message could not be parsed: "@ + message
}

/// The report of a message that cannot be routed.
pub fn unreadable(message: String) -> (report: String)
    ensures
        report@ == report_of(message@),
{
    let mut report = String::from_str("Message could not be parsed: ");
    report.append(message.as_str());
    report
}

impl UpdatableActionStorage {
    /// Polls the pending invocation under `key` for its outcome, on behalf of
    /// the task behind `waker`. Nothing is polled where `key` holds no
    /// invocation.
    pub fn poll_invocation(&mut self, key: String, waker: &std::task::Waker) -> (progress: Option<
        Progress<crate::execution::invocation::InvocationOutcome>,
    >)
        requires
            old(self).well_formed(),
        ensures
            final(self).well_formed(),
            final(self).counter() == old(self).counter(),
            final(self)@.dom() == old(self)@.dom(),
            progress is Some <==> old(self)@.contains_key(key@) && old(self)@[key@] is Invocation,
            progress is None ==> final(self)@ == old(self)@,
            progress matches Some(p) ==> {
                let before = old(self)@[key@]->Invocation_0;
                &&& final(self)@[key@] is Invocation
                &&& forall|other: Seq<char>|
                    other != key@ && old(self)@.contains_key(other) ==> final(self)@[other] == old(
                        self,
                    )@[other]
                &&& before.state is Pending ==> p is Pending && final(self)@[key@] == old(
                    self,
                )@[key@]
                &&& before.state matches Phase::Holding(outcome)
                    ==> crate::execution::invocation::progress_view(p) == Progress::Ready(outcome)
                &&& before.state is Done ==> p is Finished
                &&& !(before.state is Pending) ==> final(self)@[key@] == ActionView::Invocation(
                    InvocationActionView { state: Phase::Done, ..before },
                )
            },
    {
        match self.find(&key) {
            Some(position) => {
                let (name, mut action) = self.take(position);
                let progress = match &mut action {
                    UpdatableAction::Invocation(invocation) => Some(invocation.poll(waker)),
                    _ => None,
                };
                self.insert(name, action);
                assert(final(self)@.dom() =~= old(self)@.dom());
                if progress.is_none() {
                    assert(final(self)@ =~= old(self)@);
                }
                progress
            },
            None => None,
        }
    }

    /// Polls the stream under `key` for its next entry, on behalf of the task
    /// behind `waker`. Nothing is polled where `key` holds no stream.
    pub fn poll_stream(&mut self, key: String, waker: &std::task::Waker) -> (progress: Option<
        crate::completer::manual_stream::StreamProgress<serde_json::Value>,
    >)
        requires
            old(self).well_formed(),
        ensures
            final(self).well_formed(),
            final(self).counter() == old(self).counter(),
            final(self)@.dom() == old(self)@.dom(),
            progress is Some <==> old(self)@.contains_key(key@) && old(self)@[key@] is Stream,
            progress is None ==> final(self)@ == old(self)@,
            progress matches Some(p) ==> {
                let before = old(self)@[key@]->Stream_0;
                &&& final(self)@[key@] is Stream
                &&& forall|other: Seq<char>|
                    other != key@ && old(self)@.contains_key(other) ==> final(self)@[other] == old(
                        self,
                    )@[other]
                &&& before.entries.len() == 0 ==> p is Pending && final(self)@[key@] == old(
                    self,
                )@[key@]
                &&& before.entries.len() > 0 ==> final(self)@[key@] == ActionView::Stream(
                    EnumerableActionView { entries: before.entries.drop_first(), ..before },
                ) && crate::execution::enumerable::stream_progress_view(p) == (
                match before.entries[0] {
                    Some(item) => crate::completer::manual_stream::StreamProgress::Item(item),
                    None => crate::completer::manual_stream::StreamProgress::End,
                })
            },
    {
        match self.find(&key) {
            Some(position) => {
                let (name, mut action) = self.take(position);
                let progress = match &mut action {
                    UpdatableAction::Stream(stream) => Some(stream.poll_next(waker)),
                    _ => None,
                };
                self.insert(name, action);
                assert(final(self)@.dom() =~= old(self)@.dom());
                if progress.is_none() {
                    assert(final(self)@ =~= old(self)@);
                }
                progress
            },
            None => None,
        }
    }
}

/// The ended actions after a teardown: every invocation and stream of the
/// registry joins them, disposed of, under its key, unless the key is taken.
pub open spec fn torn_down(
    registry: Map<Seq<char>, ActionView>,
    ended: Map<Seq<char>, ActionView>,
) -> Map<Seq<char>, ActionView> {
    Map::new(
        |key: Seq<char>|
            ended.contains_key(key) || (registry.contains_key(key) && !(registry[key]
                is Callback)),
        |key: Seq<char>|
            if ended.contains_key(key) {
                ended[key]
            } else {
                registry[key].disposed()
            },
    )
}

impl UpdatableActionStorage {
    /// Tears the registry down into `ended`. The registry is emptied. Every
    /// pending invocation is cancelled and every open stream is ended; they
    /// join the ended actions, where their consumers find them. Callbacks are
    /// dropped.
    pub fn tear_down(&mut self, ended: &mut UpdatableActionStorage)
        requires
            old(self).well_formed(),
            old(ended).well_formed(),
        ensures
            final(self).well_formed(),
            final(ended).well_formed(),
            final(self).counter() == old(self).counter(),
            final(ended).counter() == old(ended).counter(),
            final(self)@ == Map::<Seq<char>, ActionView>::empty(),
            final(ended)@ == torn_down(old(self)@, old(ended)@),
    {
        let mut removed = self.dispose();
        let ghost all = removed@;
        let ghost registry = old(self)@;
        let ghost before = old(ended)@;
        while removed.len() > 0
            invariant
                ended.well_formed(),
                ended.counter() == old(ended).counter(),
                removed@.len() <= all.len(),
                removed@ == all.take(removed@.len() as int),
                forall|i: int|
                    0 <= i < all.len() ==> {
                        let entry = #[trigger] all[i];
                        &&& entry.1.well_formed()
                        &&& registry.contains_key(entry.0@)
                        &&& entry.1@ == registry[entry.0@].disposed()
                    },
                forall|key: Seq<char>| #[trigger]
                    ended@.contains_key(key) <==> before.contains_key(key) || exists|i: int|
                        removed@.len() <= i < all.len() && all[i].0@ == key && !(all[i].1@
                            is Callback),
                forall|key: Seq<char>| #[trigger]
                    ended@.contains_key(key) ==> ended@[key] == (if before.contains_key(key) {
                        before[key]
                    } else {
                        registry[key].disposed()
                    }),
            decreases removed@.len(),
        {
            let ghost held = ended@;
            let ghost position = removed@.len() - 1;
            let (key, action) = removed.pop().unwrap();
            assert(all[position] == (key, action));
            match action {
                UpdatableAction::Callback(_) => {
                    assert forall|name: Seq<char>| #[trigger]
                        ended@.contains_key(name) <==> before.contains_key(name) || exists|i: int|
                            removed@.len() <= i < all.len() && all[i].0@ == name && !(all[i].1@
                                is Callback) by {
                        if ended@.contains_key(name) && !before.contains_key(name) {
                            let i = choose|i: int|
                                position < i < all.len() && all[i].0@ == name && !(all[i].1@
                                    is Callback);
                            assert(removed@.len() <= i < all.len());
                        }
                    }
                },
                _ => {
                    ended.insert(key, action);
                    assert forall|name: Seq<char>| #[trigger]
                        ended@.contains_key(name) <==> before.contains_key(name) || exists|i: int|
                            removed@.len() <= i < all.len() && all[i].0@ == name && !(all[i].1@
                                is Callback) by {
                        if ended@.contains_key(name) && !before.contains_key(name) {
                            if held.contains_key(name) {
                                let i = choose|i: int|
                                    position < i < all.len() && all[i].0@ == name && !(all[i].1@
                                        is Callback);
                                assert(removed@.len() <= i < all.len());
                            } else {
                                assert(name == key@);
                                assert(all[position].0@ == name);
                            }
                        }
                        if !ended@.contains_key(name) {
                            assert(name != key@);
                        }
                    }
                },
            }
        }
        proof {
            let target = torn_down(registry, before);
            assert forall|key: Seq<char>| ended@.contains_key(key) <==> target.contains_key(
                key,
            ) by {
                if target.contains_key(key) && !before.contains_key(key) {
                    let i = choose|i: int| 0 <= i < all.len() && all[i].0@ == key;
                    assert(all[i].1@ == registry[key].disposed());
                }
            }
            assert(ended@ =~= target);
        }
    }
}

/// A token for taking a registration back.
pub trait CallbackHandler: Sized {
    /// The key that the token stands for.
    spec fn key(&self) -> Seq<char>;

    /// Takes the registration out of `storage`.
    fn unregister(self, storage: &mut UpdatableActionStorage)
        requires
            old(storage).well_formed(),
        ensures
            final(storage).well_formed(),
            final(storage).counter() == old(storage).counter(),
            final(storage)@ == old(storage)@.remove(self.key()),
    ;
}

/// The token of an action registered in an [`UpdatableActionStorage`].
pub struct StorageUnregistrationHandler {
    key: String,
}

impl StorageUnregistrationHandler {
    /// The token of the action registered under `key`.
    pub fn new(key: String) -> (handler: Self)
        ensures
            handler.key() == key@,
    {
        StorageUnregistrationHandler { key }
    }
}

impl CallbackHandler for StorageUnregistrationHandler {
    closed spec fn key(&self) -> Seq<char> {
        self.key@
    }

    fn unregister(self, storage: &mut UpdatableActionStorage) {
        storage.remove(self.key);
    }
}

/// A yes-or-no answer that is awaited once, such as "the socket is open" or
/// "the handshake was accepted".
pub struct ManualFutureState {
    completer: Option<ManualFutureCompleter<bool>>,
    future: ManualFuture<bool>,
}

impl ManualFutureState {
    /// What the answer stands at.
    pub closed spec fn phase(&self) -> Phase<bool> {
        self.future.phase()
    }

    /// The answer can be given exactly while it is pending.
    pub closed spec fn well_formed(&self) -> bool {
        self.completer is Some <==> self.future.phase() is Pending
    }

    /// A pending answer.
    pub fn new() -> (state: Self)
        ensures
            state.well_formed(),
            state.phase() is Pending,
    {
        let (future, completer) = ManualFuture::new();
        ManualFutureState { completer: Some(completer), future }
    }

    /// Gives the answer. An answer that was given stays as it is.
    pub fn complete(&mut self, value: bool)
        requires
            old(self).well_formed(),
        ensures
            final(self).well_formed(),
            old(self).phase() is Pending ==> final(self).phase() == Phase::Holding(value),
            !(old(self).phase() is Pending) ==> final(self).phase() == old(self).phase(),
    {
        match self.completer.take() {
            Some(completer) => completer.complete(&mut self.future, value),
            None => {},
        }
    }

    /// Polls for the answer on behalf of the task behind `waker`. The answer
    /// is handed over once; a poll after that gives `false`.
    pub fn awaiter(&mut self, waker: &std::task::Waker) -> (answer: Option<bool>)
        requires
            old(self).well_formed(),
        ensures
            final(self).well_formed(),
            old(self).phase() is Pending ==> answer is None && final(self).phase() is Pending,
            old(self).phase() matches Phase::Holding(value) ==> answer == Some(value) && final(self).phase() is Done,
            old(self).phase() is Done ==> answer == Some(false) && final(self).phase() is Done,
    {
        match self.future.poll(waker) {
            Progress::Ready(value) => Some(value),
            Progress::Pending => None,
            Progress::Finished => Some(false),
        }
    }
}

/// The key of the `n`-th invocation, made for `target`.
pub open spec fn invocation_key(target: Seq<char>, n: nat) -> Seq<char> {
    target + "_"@ + decimal(n)
}

} // verus!
