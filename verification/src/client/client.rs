//! The client core: what the hub client does with each call and each inbound
//! read, without the socket and without the tasks that wait.

use crate::client::configuration::ConnectionConfiguration;
use crate::client::context::text_result_view;
use crate::communication::client::{
    all_records, calls_of, closes, contexts_view, processes, received, reports_of, settled,
    turned,
    CommunicationClient, ConnectStep, ConnectionStatus, Received, Stage, stepped,
};
use crate::communication::common::{endpoint_is_uri, uri_accepted, HttpClient};
use crate::completer::manual_future::{Phase, Progress};
use crate::completer::manual_stream::StreamProgress;
use crate::error::{HubError, HubErrorView};
use crate::execution::actions::ActionView;
use crate::execution::arguments::ArgumentConfiguration;
use crate::execution::enumerable::EnumerableActionView;
use crate::execution::invocation::{InvocationActionView, InvocationOutcome, OutcomeView};
use crate::execution::storage::{
    invocation_key, torn_down, CallbackHandler, StorageUnregistrationHandler,
    UpdatableActionStorage,
};
use crate::json::{json_model, json_models, json_text, value_clone, Json};
use crate::protocol::fields::texts_view;
use crate::protocol::invoke::{Invocation, InvocationView};
use crate::protocol::messages::framed;
use crate::protocol::negotiate::MessageType;
use vstd::prelude::*;
use vstd::string::*;

verus! {

/// What an invocation that was started has to go on with.
pub struct Sent {
    /// The id under which the reply will come.
    pub invocation_id: String,
    /// The frame to write to the socket, or the reason why there is none.
    pub frame: Result<String, HubError>,
}

/// The invocation that the client sends: of the given kind, to `target`, with
/// the given id and arguments, and nothing else.
pub open spec fn request(
    message_type: MessageType,
    target: Seq<char>,
    invocation_id: Option<Seq<char>>,
    arguments: Seq<Json>,
) -> InvocationView {
    InvocationView {
        message_type,
        headers: None,
        invocation_id,
        target,
        arguments: Some(arguments),
        stream_ids: None,
    }
}

/// The frame of a request.
pub open spec fn request_frame(
    message_type: MessageType,
    target: Seq<char>,
    invocation_id: Option<Seq<char>>,
    arguments: Seq<Json>,
) -> Seq<char> {
    framed(json_text(request(message_type, target, invocation_id, arguments).to_json()))
}

/// The registry with `action` under `key`, unless the key is taken.
pub open spec fn registered(
    registry: Map<Seq<char>, ActionView>,
    key: Seq<char>,
    action: ActionView,
) -> Map<Seq<char>, ActionView> {
    if registry.contains_key(key) {
        registry
    } else {
        registry.insert(key, action)
    }
}

/// The entry of a single-result invocation that waits for its outcome.
pub open spec fn pending_invocation(invocation_id: Seq<char>) -> ActionView {
    ActionView::Invocation(InvocationActionView { invocation_id, state: Phase::Pending })
}

/// The entry of a streaming invocation that has no item yet.
pub open spec fn empty_stream(invocation_id: Seq<char>) -> ActionView {
    ActionView::Stream(
        EnumerableActionView { invocation_id, entries: Seq::empty(), completed: false },
    )
}

/// What the caller of an invocation learns from the state of its outcome:
/// nothing while it is pending; the document or the absence of one; the error
/// of the server; or that the invocation was cancelled.
pub open spec fn resolved(state: Phase<OutcomeView>) -> Option<Result<Option<Json>, HubErrorView>> {
    match state {
        Phase::Pending => None,
        Phase::Holding(OutcomeView::Value(document)) => Some(Ok(Some(document))),
        Phase::Holding(OutcomeView::Void) => Some(Ok(None)),
        Phase::Holding(OutcomeView::RemoteError(message)) => Some(
            Err(HubErrorView::Remote { message }),
        ),
        Phase::Done => Some(Err(HubErrorView::Cancelled)),
    }
}

/// The value of what the caller of an invocation learns.
pub open spec fn resolution_view(r: Option<Result<Option<serde_json::Value>, HubError>>) -> Option<
    Result<Option<Json>, HubErrorView>,
> {
    match r {
        None => None,
        Some(Ok(Some(document))) => Some(Ok(Some(json_model(document)))),
        Some(Ok(None)) => Some(Ok(None)),
        Some(Err(error)) => Some(Err(error@)),
    }
}

/// The state of the outcome of the invocation `invocation_id`, as the client
/// holds it: in the registry while it is pending, among the ended actions
/// once it has ended, and cancelled where it is in neither.
pub open spec fn outcome_state(
    registry: Map<Seq<char>, ActionView>,
    ended: Map<Seq<char>, ActionView>,
    invocation_id: Seq<char>,
) -> Phase<OutcomeView> {
    if registry.contains_key(invocation_id) && registry[invocation_id] is Invocation {
        registry[invocation_id]->Invocation_0.state
    } else if ended.contains_key(invocation_id) && ended[invocation_id] is Invocation {
        ended[invocation_id]->Invocation_0.state
    } else {
        Phase::Done
    }
}

/// The entries of the stream `invocation_id` that its consumer has not yet
/// taken, as the client holds them. A stream that the client does not hold
/// has ended.
pub open spec fn stream_entries(
    registry: Map<Seq<char>, ActionView>,
    ended: Map<Seq<char>, ActionView>,
    invocation_id: Seq<char>,
) -> Seq<Option<Json>> {
    if registry.contains_key(invocation_id) && registry[invocation_id] is Stream {
        registry[invocation_id]->Stream_0.entries
    } else if ended.contains_key(invocation_id) && ended[invocation_id] is Stream {
        ended[invocation_id]->Stream_0.entries
    } else {
        seq![None]
    }
}

/// The core of a hub client: the registry of its actions, the actions that
/// have ended and wait to be consumed, and the connection.
pub struct SignalRClient {
    actions: UpdatableActionStorage,
    ended: UpdatableActionStorage,
    connection: CommunicationClient,
}

impl SignalRClient {
    /// The registry: the pending invocations, the open streams and the
    /// callbacks, by key.
    pub closed spec fn actions(&self) -> Map<Seq<char>, ActionView> {
        self.actions@
    }

    /// The invocations and streams that have ended and were not yet consumed,
    /// by key.
    pub closed spec fn ended(&self) -> Map<Seq<char>, ActionView> {
        self.ended@
    }

    /// The number of invocation ids made so far.
    pub closed spec fn counter(&self) -> nat {
        self.actions.counter()
    }

    /// The stage of the connection.
    pub closed spec fn stage(&self) -> Stage {
        self.connection.stage()
    }

    /// The answer that the current stage of the connection waits for.
    pub closed spec fn awaited(&self) -> Phase<bool> {
        self.connection.awaited()
    }

    /// The URL of the socket.
    pub closed spec fn endpoint(&self) -> Seq<char> {
        self.connection.endpoint()
    }

    /// Whether the client is consistent in itself.
    pub closed spec fn well_formed(&self) -> bool {
        &&& self.actions.well_formed()
        &&& self.ended.well_formed()
        &&& self.connection.well_formed()
    }

    /// A client for the hub `hub` on `domain`, with the default settings. See
    /// [`SignalRClient::connect_with`].
    pub fn connect(domain: &str, hub: &str) -> (r: Result<Self, HubError>)
        ensures
            connected_as(ConnectionConfiguration::fresh(domain@, hub@).socket_url(), r),
    {
        SignalRClient::connect_with(
            ConnectionConfiguration::new(String::from_str(domain), String::from_str(hub)),
        )
    }

    /// A client for the hub of the given settings. The client starts with an
    /// empty registry and a connection that waits for its socket, which is to
    /// be opened to the socket URL of the settings. Settings whose socket URL
    /// is no URI are refused.
    pub fn connect_with(configuration: ConnectionConfiguration) -> (r: Result<Self, HubError>)
        ensures
            connected_as(configuration@.socket_url(), r),
    {
        let endpoint = configuration.get_socket_url();
        if !endpoint_is_uri(endpoint.as_str()) {
            let mut message = String::from_str("The endpoint Uri is invalid: ");
            message.append(endpoint.as_str());
            return Err(HubError::Config(message));
        }
        match HttpClient::negotiate(configuration) {
            Ok(data) => Ok(
                SignalRClient {
                    actions: UpdatableActionStorage::new(),
                    ended: UpdatableActionStorage::new(),
                    connection: CommunicationClient::create(&data),
                },
            ),
            Err(message) => Err(HubError::Connect(message)),
        }
    }

    /// The stage of the connection.
    pub fn get_stage(&self) -> (stage: Stage)
        ensures
            stage == self.stage(),
    {
        self.connection.get_stage()
    }

    /// The URL of the socket.
    pub fn get_endpoint(&self) -> (endpoint: String)
        ensures
            endpoint@ == self.endpoint(),
    {
        self.connection.get_endpoint()
    }

    /// Whether another invocation id can be made: the counter has not reached
    /// the largest number that it can hold.
    pub fn can_allocate(&self) -> (b: bool)
        ensures
            b == (self.counter() < usize::MAX),
    {
        self.actions.can_allocate()
    }

    /// Whether an action is registered under `key`.
    pub fn is_registered(&self, key: String) -> (b: bool)
        requires
            self.well_formed(),
        ensures
            b == self.actions().contains_key(key@),
    {
        self.actions.contains(key)
    }

    /// The next step of bringing the connection up. See
    /// [`CommunicationClient::connect_internal`].
    pub fn connect_internal(&mut self, waker: &std::task::Waker) -> (step: ConnectStep)
        requires
            old(self).well_formed(),
        ensures
            final(self).well_formed(),
            final(self).endpoint() == old(self).endpoint(),
            final(self).actions() == old(self).actions(),
            final(self).ended() == old(self).ended(),
            final(self).counter() == old(self).counter(),
            stepped(old(self).stage(), old(self).awaited(), step@, final(self).stage()),
            final(self).stage() == Stage::Handshake && old(self).stage() == Stage::Connect
                ==> final(self).awaited() is Pending,
    {
        self.connection.connect_internal(waker)
    }

    /// Registers a callback under `target`, and gives the token that takes the
    /// registration back. A target that is taken keeps what is registered
    /// under it.
    pub fn register(&mut self, target: String) -> (handler: StorageUnregistrationHandler)
        requires
            old(self).well_formed(),
        ensures
            final(self).well_formed(),
            handler.key() == target@,
            final(self).actions() == registered(
                old(self).actions(),
                target@,
                ActionView::Callback(target@),
            ),
            final(self).ended() == old(self).ended(),
            final(self).counter() == old(self).counter(),
            final(self).stage() == old(self).stage(),
            final(self).awaited() == old(self).awaited(),
            final(self).endpoint() == old(self).endpoint(),
    {
        self.actions.add_callback(target.clone());
        StorageUnregistrationHandler::new(target)
    }

    /// Takes back the registration that `handler` stands for.
    pub fn unregister(&mut self, handler: StorageUnregistrationHandler)
        requires
            old(self).well_formed(),
        ensures
            final(self).well_formed(),
            final(self).actions() == old(self).actions().remove(handler.key()),
            final(self).ended() == old(self).ended(),
            final(self).counter() == old(self).counter(),
            final(self).stage() == old(self).stage(),
            final(self).awaited() == old(self).awaited(),
            final(self).endpoint() == old(self).endpoint(),
    {
        handler.unregister(&mut self.actions);
    }

    fn build(invocation: Invocation, arguments: &Vec<serde_json::Value>) -> (built: Invocation)
        requires
            invocation@.arguments == Some(Seq::<Json>::empty()),
        ensures
            built@ == (InvocationView { arguments: Some(json_models(arguments@)), ..invocation@ }),
    {
        let mut configuration = ArgumentConfiguration::new(invocation);
        let mut i: usize = 0;
        let ghost models = json_models(arguments@);
        assert(models.take(0) =~= Seq::empty());
        while i < arguments.len()
            invariant
                i <= arguments.len(),
                models == json_models(arguments@),
                configuration.invocation() == Some(
                    InvocationView { arguments: Some(models.take(i as int)), ..invocation@ },
                ),
            decreases arguments.len() - i,
        {
            configuration.argument(Ok(value_clone(&arguments[i])));
            assert(models.take(i + 1) =~= models.take(i as int).push(json_model(arguments[i as int])));
            i += 1;
        }
        assert(models.take(i as int) =~= models);
        configuration.build_invocation()
    }

    /// Starts a single-result invocation of `target` without arguments. See
    /// [`SignalRClient::invoke_with_args`].
    pub fn invoke(&mut self, target: String) -> (sent: Sent)
        requires
            old(self).well_formed(),
            old(self).counter() < usize::MAX,
        ensures
            final(self).well_formed(),
            started(
                *old(self),
                *final(self),
                MessageType::Invocation,
                target@,
                Seq::empty(),
                pending_invocation(invocation_key(target@, old(self).counter() + 1)),
                sent,
            ),
    {
        let arguments: Vec<serde_json::Value> = Vec::new();
        assert(json_models(arguments@) =~= Seq::empty());
        self.invoke_internal(target, arguments)
    }

    /// Starts a single-result invocation of `target` with the given positional
    /// arguments.
    ///
    /// A fresh invocation id is made from the target and the counter, and the
    /// pending outcome is registered under it. The result is the id, with the
    /// frame to write on a connection that processes and with a send error on
    /// any other.
    pub fn invoke_with_args(&mut self, target: String, arguments: Vec<serde_json::Value>) -> (sent:
        Sent)
        requires
            old(self).well_formed(),
            old(self).counter() < usize::MAX,
        ensures
            final(self).well_formed(),
            started(
                *old(self),
                *final(self),
                MessageType::Invocation,
                target@,
                json_models(arguments@),
                pending_invocation(invocation_key(target@, old(self).counter() + 1)),
                sent,
            ),
    {
        self.invoke_internal(target, arguments)
    }

    fn invoke_internal(&mut self, target: String, arguments: Vec<serde_json::Value>) -> (sent: Sent)
        requires
            old(self).well_formed(),
            old(self).counter() < usize::MAX,
        ensures
            final(self).well_formed(),
            started(
                *old(self),
                *final(self),
                MessageType::Invocation,
                target@,
                json_models(arguments@),
                pending_invocation(invocation_key(target@, old(self).counter() + 1)),
                sent,
            ),
    {
        let invocation_id = self.actions.create_key(target.clone());
        self.actions.add_invocation(invocation_id.clone());
        let mut invocation = Invocation::create_single(target);
        invocation.with_invocation_id(invocation_id.clone());
        let invocation = SignalRClient::build(invocation, &arguments);
        Sent { invocation_id, frame: self.connection.send(&invocation.to_value()) }
    }

    /// The frame of a fire-and-forget call of `target` without arguments. See
    /// [`SignalRClient::send_with_args`].
    pub fn send(&self, target: String) -> (r: Result<String, HubError>)
        ensures
            text_result_view(r) == (if self.stage() == Stage::Process {
                Ok(request_frame(MessageType::Invocation, target@, None, Seq::empty()))
            } else {
                Err(HubErrorView::Send("Client is not connected, cannot send"@))
            }),
    {
        let arguments: Vec<serde_json::Value> = Vec::new();
        assert(json_models(arguments@) =~= Seq::empty());
        self.send_internal(target, arguments)
    }

    /// The frame of a fire-and-forget call of `target` with the given
    /// positional arguments: an invocation without an id, for which no reply
    /// is expected and nothing is registered. On a connection that does not
    /// process, the result is a send error.
    pub fn send_with_args(&self, target: String, arguments: Vec<serde_json::Value>) -> (r: Result<
        String,
        HubError,
    >)
        ensures
            text_result_view(r) == (if self.stage() == Stage::Process {
                Ok(request_frame(MessageType::Invocation, target@, None, json_models(arguments@)))
            } else {
                Err(HubErrorView::Send("Client is not connected, cannot send"@))
            }),
    {
        self.send_internal(target, arguments)
    }

    fn send_internal(&self, target: String, arguments: Vec<serde_json::Value>) -> (r: Result<
        String,
        HubError,
    >)
        ensures
            text_result_view(r) == (if self.stage() == Stage::Process {
                Ok(request_frame(MessageType::Invocation, target@, None, json_models(arguments@)))
            } else {
                Err(HubErrorView::Send("Client is not connected, cannot send"@))
            }),
    {
        let invocation = Invocation::create_single(target);
        let invocation = SignalRClient::build(invocation, &arguments);
        self.connection.send(&invocation.to_value())
    }

    /// The frame that carries `data` as it is.
    pub fn send_direct(&self, data: &serde_json::Value) -> (r: Result<String, HubError>)
        ensures
            text_result_view(r) == (if self.stage() == Stage::Process {
                Ok(framed(json_text(json_model(*data))))
            } else {
                Err(HubErrorView::Send("Client is not connected, cannot send"@))
            }),
    {
        self.connection.send(data)
    }

    /// Starts a streaming invocation of `target` without arguments. See
    /// [`SignalRClient::enumerate_with_args`].
    pub fn enumerate(&mut self, target: String) -> (sent: Sent)
        requires
            old(self).well_formed(),
            old(self).counter() < usize::MAX,
        ensures
            final(self).well_formed(),
            started(
                *old(self),
                *final(self),
                MessageType::StreamInvocation,
                target@,
                Seq::empty(),
                empty_stream(invocation_key(target@, old(self).counter() + 1)),
                sent,
            ),
    {
        let arguments: Vec<serde_json::Value> = Vec::new();
        assert(json_models(arguments@) =~= Seq::empty());
        self.enumerate_internal(target, arguments)
    }

    /// Starts a streaming invocation of `target` with the given positional
    /// arguments.
    ///
    /// A fresh invocation id is made from the target and the counter, and the
    /// stream of items is registered under it. The result is the id, with the
    /// frame to write on a connection that processes and with a send error on
    /// any other.
    pub fn enumerate_with_args(&mut self, target: String, arguments: Vec<serde_json::Value>) -> (sent:
        Sent)
        requires
            old(self).well_formed(),
            old(self).counter() < usize::MAX,
        ensures
            final(self).well_formed(),
            started(
                *old(self),
                *final(self),
                MessageType::StreamInvocation,
                target@,
                json_models(arguments@),
                empty_stream(invocation_key(target@, old(self).counter() + 1)),
                sent,
            ),
    {
        self.enumerate_internal(target, arguments)
    }

    fn enumerate_internal(&mut self, target: String, arguments: Vec<serde_json::Value>) -> (sent:
        Sent)
        requires
            old(self).well_formed(),
            old(self).counter() < usize::MAX,
        ensures
            final(self).well_formed(),
            started(
                *old(self),
                *final(self),
                MessageType::StreamInvocation,
                target@,
                json_models(arguments@),
                empty_stream(invocation_key(target@, old(self).counter() + 1)),
                sent,
            ),
    {
        let invocation_id = self.actions.create_key(target.clone());
        self.actions.add_stream(invocation_id.clone());
        let mut invocation = Invocation::create_multiple(target);
        invocation.with_invocation_id(invocation_id.clone());
        let invocation = SignalRClient::build(invocation, &arguments);
        Sent { invocation_id, frame: self.connection.send(&invocation.to_value()) }
    }

    /// One turn of the client, with what the socket reports and what was read
    /// from it. See [`CommunicationClient::polling_loop`].
    pub fn receive(&mut self, status: ConnectionStatus, reads: &Vec<String>) -> (received_now:
        Received)
        requires
            old(self).well_formed(),
        ensures
            final(self).well_formed(),
            final(self).counter() == old(self).counter(),
            final(self).endpoint() == old(self).endpoint(),
            turned(
                old(self).stage(),
                old(self).awaited(),
                status,
                all_records(texts_view(reads@)),
                final(self).awaited(),
            ),
            ({
                let messages = if processes(old(self).stage(), status) {
                    all_records(texts_view(reads@))
                } else {
                    Seq::empty()
                };
                &&& final(self).stage() == (if closes(messages) {
                    Stage::Closed
                } else {
                    old(self).stage()
                })
                &&& received_now.closed == closes(messages)
                &&& final(self).actions() == received(old(self).actions(), messages)
                &&& final(self).ended() == settled(old(self).actions(), old(self).ended(), messages)
                &&& contexts_view(received_now.calls@) == calls_of(old(self).actions(), messages)
                &&& texts_view(received_now.reports@) == reports_of(messages)
            }),
    {
        self.connection.polling_loop(status, reads, &mut self.actions, &mut self.ended)
    }

    /// Polls for the outcome of the invocation `invocation_id`, on behalf of
    /// the task behind `waker`.
    ///
    /// While the outcome is pending, nothing is learned and the task is noted
    /// as the waiter. An outcome that is there is handed over, once: the
    /// document that the method returned, or nothing for a method that returns
    /// nothing, or the error of the server. An invocation that was cancelled,
    /// whose outcome was handed over before, or that the client does not
    /// know, gives `Cancelled`.
    pub fn poll_invocation(&mut self, invocation_id: String, waker: &std::task::Waker) -> (r: Option<
        Result<Option<serde_json::Value>, HubError>,
    >)
        requires
            old(self).well_formed(),
        ensures
            final(self).well_formed(),
            final(self).counter() == old(self).counter(),
            final(self).stage() == old(self).stage(),
            final(self).awaited() == old(self).awaited(),
            final(self).endpoint() == old(self).endpoint(),
            resolution_view(r) == resolved(
                outcome_state(old(self).actions(), old(self).ended(), invocation_id@),
            ),
            r is None ==> final(self).actions() == old(self).actions() && final(self).ended()
                == old(self).ended(),
            final(self).actions().dom() == old(self).actions().dom(),
            forall|other: Seq<char>|
                other != invocation_id@ && old(self).actions().contains_key(other) ==> final(self).actions()[other] == old(self).actions()[other],
            final(self).ended() == old(self).ended() || final(self).ended() == old(self).ended().remove(invocation_id@),
            r is Some ==> outcome_state(
                final(self).actions(),
                final(self).ended(),
                invocation_id@,
            ) is Done,
    {
        match self.actions.poll_invocation(invocation_id.clone(), waker) {
            Some(progress) => {
                assert(final(self).actions.view().dom() =~= old(self).actions.view().dom());
                resolve(progress)
            },
            None => match self.ended.poll_invocation(invocation_id.clone(), waker) {
                Some(Progress::Pending) => None,
                Some(progress) => {
                    self.ended.remove(invocation_id);
                    assert(self.ended@ =~= old(self).ended@.remove(invocation_id@));
                    resolve(progress)
                },
                None => Some(Err(HubError::Cancelled)),
            },
        }
    }

    /// Polls for the next entry of the stream `invocation_id`, on behalf of
    /// the task behind `waker`: the oldest item that was not yet taken, or the
    /// end of the stream, or nothing yet. A stream that the client does not
    /// know has ended.
    pub fn poll_stream(&mut self, invocation_id: String, waker: &std::task::Waker) -> (progress:
        StreamProgress<serde_json::Value>)
        requires
            old(self).well_formed(),
        ensures
            final(self).well_formed(),
            final(self).counter() == old(self).counter(),
            final(self).stage() == old(self).stage(),
            final(self).awaited() == old(self).awaited(),
            final(self).endpoint() == old(self).endpoint(),
            ({
                let entries = stream_entries(
                    old(self).actions(),
                    old(self).ended(),
                    invocation_id@,
                );
                crate::execution::enumerable::stream_progress_view(progress) == (if entries.len()
                    == 0 {
                    StreamProgress::Pending
                } else {
                    match entries[0] {
                        Some(item) => StreamProgress::Item(item),
                        None => StreamProgress::End,
                    }
                })
            }),
            progress is Pending ==> final(self).actions() == old(self).actions() && final(self).ended() == old(self).ended(),
            final(self).actions().dom() == old(self).actions().dom(),
            forall|other: Seq<char>|
                other != invocation_id@ && old(self).actions().contains_key(other) ==> final(self).actions()[other] == old(self).actions()[other],
            progress is Item ==> stream_entries(
                final(self).actions(),
                final(self).ended(),
                invocation_id@,
            ) == stream_entries(
                old(self).actions(),
                old(self).ended(),
                invocation_id@,
            ).drop_first(),
    {
        match self.actions.poll_stream(invocation_id.clone(), waker) {
            Some(progress) => {
                assert(final(self).actions.view().dom() =~= old(self).actions.view().dom());
                progress
            },
            None => match self.ended.poll_stream(invocation_id.clone(), waker) {
                Some(StreamProgress::End) => {
                    self.ended.remove(invocation_id);
                    StreamProgress::End
                },
                Some(progress) => progress,
                None => StreamProgress::End,
            },
        }
    }

    /// Abandons the invocation or stream `invocation_id`: nobody waits for
    /// it any more. What has ended is dropped. What is still registered is
    /// disposed of where it stands and leaves the registry with its
    /// completion. Callbacks are not touched.
    pub fn abandon(&mut self, invocation_id: String)
        requires
            old(self).well_formed(),
        ensures
            final(self).well_formed(),
            final(self).counter() == old(self).counter(),
            final(self).stage() == old(self).stage(),
            final(self).awaited() == old(self).awaited(),
            final(self).endpoint() == old(self).endpoint(),
            final(self).ended() == old(self).ended().remove(invocation_id@),
            final(self).actions() == (if old(self).actions().contains_key(invocation_id@) {
                old(self).actions().insert(
                    invocation_id@,
                    old(self).actions()[invocation_id@].disposed(),
                )
            } else {
                old(self).actions()
            }),
    {
        self.actions.abandon(invocation_id.clone());
        self.ended.remove(invocation_id);
    }

    /// Disconnects, if this is the last holder of the client: with `holders`
    /// handles to it, this one included, the client is torn down when there
    /// is no other.
    ///
    /// A teardown closes the connection and empties the registry. Every
    /// pending invocation is cancelled and every open stream is ended; they
    /// join the ended actions, where their consumers find them.
    pub fn disconnect(&mut self, holders: usize) -> (closed: bool)
        requires
            old(self).well_formed(),
        ensures
            final(self).well_formed(),
            final(self).counter() == old(self).counter(),
            final(self).endpoint() == old(self).endpoint(),
            closed == (holders <= 1 && old(self).stage() != Stage::Closed),
            closed ==> final(self).stage() == Stage::Closed && final(self).actions() == Map::<
                Seq<char>,
                ActionView,
            >::empty() && final(self).ended() == torn_down(old(self).actions(), old(self).ended()),
            !closed ==> final(self).stage() == old(self).stage() && final(self).awaited() == old(self).awaited() && final(self).actions() == old(self).actions() && final(self).ended()
                == old(self).ended(),
    {
        if !self.connection.disconnect(holders) {
            return false;
        }
        self.actions.tear_down(&mut self.ended);
        true
    }
}

/// What the caller of an invocation learns from one poll.
pub fn resolve(progress: Progress<InvocationOutcome>) -> (r: Option<
    Result<Option<serde_json::Value>, HubError>,
>)
    ensures
        resolution_view(r) == (match crate::execution::invocation::progress_view(progress) {
            Progress::Pending => None,
            Progress::Ready(OutcomeView::Value(document)) => Some(Ok(Some(document))),
            Progress::Ready(OutcomeView::Void) => Some(Ok(None)),
            Progress::Ready(OutcomeView::RemoteError(message)) => Some(
                Err(HubErrorView::Remote { message }),
            ),
            Progress::Finished => Some(Err(HubErrorView::Cancelled)),
        }),
{
    match progress {
        Progress::Pending => None,
        Progress::Ready(InvocationOutcome::Value(document)) => Some(Ok(Some(document))),
        Progress::Ready(InvocationOutcome::Void) => Some(Ok(None)),
        Progress::Ready(InvocationOutcome::RemoteError(message)) => Some(
            Err(HubError::Remote { message }),
        ),
        Progress::Finished => Some(Err(HubError::Cancelled)),
    }
}

/// Whether `r` is what connecting to `endpoint` comes to: a configuration
/// error where the endpoint is no URI, and otherwise a client with an empty
/// registry whose connection waits for the socket to that endpoint.
pub open spec fn connected_as(endpoint: Seq<char>, r: Result<SignalRClient, HubError>) -> bool {
    if uri_accepted(endpoint) {
        r matches Ok(client) && client.well_formed() && client.endpoint() == endpoint
            && client.stage() == Stage::Connect && client.awaited() is Pending && client.actions()
            == Map::<Seq<char>, ActionView>::empty() && client.ended() == Map::<
            Seq<char>,
            ActionView,
        >::empty() && client.counter() == 0
    } else {
        r matches Err(error) && error@ == HubErrorView::Config(
            "The endpoint Uri is invalid: "@ + endpoint,
        )
    }
}

/// Whether `r` and `after` are what starting an invocation comes to, from the
/// client as it was `before`: the counter has advanced by one, the new id is
/// made of the target and the counter, `entry` is registered under the id
/// unless the id is taken, and the result is the id with the frame of the
/// request, or with a send error on a connection that does not process.
pub open spec fn started(
    before: SignalRClient,
    after: SignalRClient,
    message_type: MessageType,
    target: Seq<char>,
    arguments: Seq<Json>,
    entry: ActionView,
    sent: Sent,
) -> bool {
    let invocation_id = invocation_key(target, before.counter() + 1);
    &&& after.counter() == before.counter() + 1
    &&& after.actions() == registered(before.actions(), invocation_id, entry)
    &&& after.ended() == before.ended()
    &&& after.stage() == before.stage()
    &&& after.awaited() == before.awaited()
    &&& after.endpoint() == before.endpoint()
    &&& sent.invocation_id@ == invocation_id
    &&& text_result_view(sent.frame) == (if before.stage() == Stage::Process {
        Ok(request_frame(message_type, target, Some(invocation_id), arguments))
    } else {
        Err(HubErrorView::Send("Client is not connected, cannot send"@))
    })
}

} // verus!
