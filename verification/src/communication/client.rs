//! The connection as a state machine: connect, shake hands, then process.

use crate::client::context::InvocationContext;
use crate::communication::common::ConnectionData;
use crate::completer::manual_future::Phase;
use crate::error::{HubError, HubErrorView};
use crate::execution::actions::ActionView;
use crate::execution::callback::invocation_in;
use crate::execution::storage::{
    ends_entry, report_of, route, routed, torn_down, unreadable as report_unreadable, Dispatch,
    ManualFutureState, Route, UpdatableActionStorage,
};
use crate::json::{json_model, json_parse, json_text};
use crate::protocol::fields::texts_view;
use crate::protocol::invoke::InvocationView;
use crate::protocol::messages::{framed, records, MessageParser};
use crate::protocol::negotiate::{
    HandshakeRequest, HandshakeRequestView, HandshakeResponse, HandshakeResponseView, MessageType,
    Ping,
};
use vstd::prelude::*;
use vstd::string::*;

verus! {

/// What the socket reports of itself.
#[derive(Debug, Clone, Copy, PartialEq, Eq, Structural)]
pub enum ConnectionStatus {
    Connecting,
    Connected,
    Disconnected,
    Error,
}

/// The stage of a connection.
pub enum ConnectionState {
    /// Waiting for the socket to open.
    Connect(ManualFutureState),
    /// The handshake request is out; waiting for the reply.
    Handshake(ManualFutureState),
    /// Shaken hands: inbound messages are routed to the registry.
    Process,
    /// Disconnected for good.
    Closed,
}

/// The stage of a connection without what is awaited in it.
#[derive(Debug, Clone, Copy, PartialEq, Eq, Structural)]
pub enum Stage {
    Connect,
    Handshake,
    Process,
    Closed,
}

/// What the caller has to do next to bring a connection up.
pub enum ConnectStep {
    /// Nothing yet: the awaited answer is pending.
    Wait,
    /// Write this frame, the handshake request, to the socket.
    SendHandshake(String),
    /// The connection is up.
    Done,
    /// The connection cannot be brought up.
    Failed(HubError),
}

/// The mathematical value of a [`ConnectStep`].
pub enum ConnectStepView {
    Wait,
    SendHandshake(Seq<char>),
    Done,
    Failed(HubErrorView),
}

impl View for ConnectStep {
    type V = ConnectStepView;

    open spec fn view(&self) -> ConnectStepView {
        match self {
            ConnectStep::Wait => ConnectStepView::Wait,
            ConnectStep::SendHandshake(frame) => ConnectStepView::SendHandshake(frame@),
            ConnectStep::Done => ConnectStepView::Done,
            ConnectStep::Failed(error) => ConnectStepView::Failed(error@),
        }
    }
}

/// The kind that a message declares; nothing where the message is no JSON or
/// declares no kind.
pub open spec fn kind_in(message: Seq<char>) -> Option<MessageType> {
    match json_parse(message) {
        Some(document) => MessageType::of_document(document),
        None => None,
    }
}

/// The handshake reply that a message holds; nothing where the message is no
/// JSON or no handshake reply.
pub open spec fn handshake_in(message: Seq<char>) -> Option<HandshakeResponseView> {
    match json_parse(message) {
        Some(document) => HandshakeResponseView::of_json(document),
        None => None,
    }
}

/// Whether a message is a handshake reply that reports no error.
pub open spec fn handshake_accepted(message: Seq<char>) -> bool {
    handshake_in(message) matches Some(reply) && reply.error is None
}

/// The frame of the handshake request: `{"protocol":"json","version":1}`
/// and the record separator.
pub open spec fn handshake_frame() -> Seq<char> {
    framed(json_text((HandshakeRequestView { protocol: "json"@, version: 1 }).to_json()))
}

/// The registry after one message was received: emptied by a close message,
/// routed by the kind that any other message declares, and left alone where
/// the message declares none.
pub open spec fn received_one(registry: Map<Seq<char>, ActionView>, message: Seq<char>) -> Map<
    Seq<char>,
    ActionView,
> {
    match kind_in(message) {
        Some(MessageType::Close) => Map::empty(),
        Some(kind) => routed(registry, message, kind),
        None => registry,
    }
}

/// Whether one of the messages is a close message.
pub open spec fn closes(messages: Seq<Seq<char>>) -> bool
    decreases messages.len(),
{
    if messages.len() == 0 {
        false
    } else {
        closes(messages.drop_last()) || kind_in(messages.last()) == Some(MessageType::Close)
    }
}

/// The registry after the messages were received one after the other.
pub open spec fn received(registry: Map<Seq<char>, ActionView>, messages: Seq<Seq<char>>) -> Map<
    Seq<char>,
    ActionView,
>
    decreases messages.len(),
{
    if messages.len() == 0 {
        registry
    } else {
        received_one(received(registry, messages.drop_last()), messages.last())
    }
}

/// Whether a message is reported rather than routed: it declares no kind, or
/// it cannot be read for routing.
pub open spec fn unreadable(message: Seq<char>) -> bool {
    match kind_in(message) {
        Some(kind) => route(message, kind) is Unreadable,
        None => true,
    }
}

/// The reports of the messages that are reported rather than routed, in
/// order.
pub open spec fn reports_of(messages: Seq<Seq<char>>) -> Seq<Seq<char>>
    decreases messages.len(),
{
    if messages.len() == 0 {
        Seq::empty()
    } else if unreadable(messages.last()) {
        reports_of(messages.drop_last()).push(report_of(messages.last()))
    } else {
        reports_of(messages.drop_last())
    }
}

/// The ended actions after one message was received: where the message ends
/// an entry of the registry that was not abandoned, the entry joins them
/// under its key, disposed of; a key that is taken keeps what it holds. A
/// close message tears the whole registry down into them.
pub open spec fn settled_one(
    registry: Map<Seq<char>, ActionView>,
    ended: Map<Seq<char>, ActionView>,
    message: Seq<char>,
) -> Map<Seq<char>, ActionView> {
    match kind_in(message) {
        Some(MessageType::Close) => torn_down(registry, ended),
        Some(kind) => match route(message, kind) {
            Route::Key(key) => if registry.contains_key(key) && ends_entry(registry[key], kind)
                && !registry[key].completed() && !ended.contains_key(key) {
                ended.insert(key, registry[key].updated(message, kind).disposed())
            } else {
                ended
            },
            _ => ended,
        },
        None => ended,
    }
}

/// The ended actions after the messages were received one after the other.
pub open spec fn settled(
    registry: Map<Seq<char>, ActionView>,
    ended: Map<Seq<char>, ActionView>,
    messages: Seq<Seq<char>>,
) -> Map<Seq<char>, ActionView>
    decreases messages.len(),
{
    if messages.len() == 0 {
        ended
    } else {
        settled_one(
            received(registry, messages.drop_last()),
            settled(registry, ended, messages.drop_last()),
            messages.last(),
        )
    }
}

/// The run of a callback that receiving one message asks for: the invocation
/// it holds, where a callback is registered under its target.
pub open spec fn call_of(registry: Map<Seq<char>, ActionView>, message: Seq<char>) -> Option<
    InvocationView,
> {
    match kind_in(message) {
        Some(kind) => match route(message, kind) {
            Route::Key(key) => if registry.contains_key(key) && registry[key] is Callback
                && registry[key].accepts(message, kind) {
                invocation_in(message)
            } else {
                None
            },
            _ => None,
        },
        None => None,
    }
}

/// The runs of callbacks that receiving the messages one after the other asks
/// for, in order.
pub open spec fn calls_of(registry: Map<Seq<char>, ActionView>, messages: Seq<Seq<char>>) -> Seq<
    InvocationView,
>
    decreases messages.len(),
{
    if messages.len() == 0 {
        Seq::empty()
    } else {
        let before = calls_of(registry, messages.drop_last());
        match call_of(received(registry, messages.drop_last()), messages.last()) {
            Some(invocation) => before.push(invocation),
            None => before,
        }
    }
}

/// The invocations of a list of contexts.
pub open spec fn contexts_view(contexts: Seq<InvocationContext>) -> Seq<InvocationView> {
    Seq::new(contexts.len(), |i: int| contexts[i]@)
}

/// What came of receiving some messages.
pub struct Received {
    /// The callbacks to run, in order, each with its context.
    pub calls: Vec<InvocationContext>,
    /// One report for each message that could not be routed.
    pub reports: Vec<String>,
    /// Whether the server closed the connection.
    pub closed: bool,
}

/// What came of receiving one message.
pub enum Delivery {
    /// Nothing for the caller to do.
    Nothing,
    /// The callback is to be run with this context.
    Call(InvocationContext),
    /// The server closed the connection, and the registry was torn down.
    Close,
}

/// The records of several reads, in order.
pub open spec fn all_records(reads: Seq<Seq<char>>) -> Seq<Seq<char>>
    decreases reads.len(),
{
    if reads.len() == 0 {
        Seq::empty()
    } else {
        all_records(reads.drop_last()) + records(reads.last())
    }
}

/// Reads the kind that one message declares.
pub fn read_kind(message: &str) -> (kind: Option<MessageType>)
    ensures
        kind == kind_in(message@),
{
    match MessageParser::parse_message(message) {
        Ok(value) => match Ping::from_value(&value) {
            Some(ping) => Some(ping.message_type()),
            None => None,
        },
        Err(_) => None,
    }
}

/// Reads one message as a handshake reply.
pub fn read_handshake(message: &str) -> (reply: Option<HandshakeResponse>)
    ensures
        reply is Some <==> handshake_in(message@) is Some,
        reply matches Some(r) ==> handshake_in(message@) == Some(r@),
{
    match MessageParser::parse_message(message) {
        Ok(value) => HandshakeResponse::from_value(&value),
        Err(_) => None,
    }
}

/// The transport adapter without its socket: the endpoint and the stage of
/// the connection.
pub struct CommunicationClient {
    endpoint: String,
    state: ConnectionState,
}

impl CommunicationClient {
    /// The URL of the socket.
    pub closed spec fn endpoint(&self) -> Seq<char> {
        self.endpoint@
    }

    /// The stage of the connection.
    pub closed spec fn stage(&self) -> Stage {
        match self.state {
            ConnectionState::Connect(_) => Stage::Connect,
            ConnectionState::Handshake(_) => Stage::Handshake,
            ConnectionState::Process => Stage::Process,
            ConnectionState::Closed => Stage::Closed,
        }
    }

    /// The answer that the current stage waits for: pending, given, or used
    /// up. The last two stages wait for nothing.
    pub closed spec fn awaited(&self) -> Phase<bool> {
        match self.state {
            ConnectionState::Connect(answer) => answer.phase(),
            ConnectionState::Handshake(answer) => answer.phase(),
            _ => Phase::Done,
        }
    }

    /// Whether the connection is consistent in itself.
    pub closed spec fn well_formed(&self) -> bool {
        match self.state {
            ConnectionState::Connect(answer) => answer.well_formed(),
            ConnectionState::Handshake(answer) => answer.well_formed(),
            _ => true,
        }
    }

    /// A connection to the endpoint of `configuration` that waits for its
    /// socket to open.
    pub fn create(configuration: &ConnectionData) -> (client: Self)
        ensures
            client.well_formed(),
            client.endpoint() == configuration@.endpoint,
            client.stage() == Stage::Connect,
            client.awaited() is Pending,
    {
        CommunicationClient {
            endpoint: configuration.get_endpoint(),
            state: ConnectionState::Connect(ManualFutureState::new()),
        }
    }

    /// The URL of the socket.
    pub fn get_endpoint(&self) -> (endpoint: String)
        ensures
            endpoint@ == self.endpoint(),
    {
        self.endpoint.clone()
    }

    /// The stage of the connection.
    pub fn get_stage(&self) -> (stage: Stage)
        ensures
            stage == self.stage(),
    {
        match &self.state {
            ConnectionState::Connect(_) => Stage::Connect,
            ConnectionState::Handshake(_) => Stage::Handshake,
            ConnectionState::Process => Stage::Process,
            ConnectionState::Closed => Stage::Closed,
        }
    }

    /// Whether the registry may be used: the connection has shaken hands and
    /// was not closed.
    pub fn get_storage(&self) -> (r: Result<(), HubError>)
        ensures
            self.stage() == Stage::Process ==> r is Ok,
            self.stage() != Stage::Process ==> (r matches Err(error) && error@
                == HubErrorView::Connect("The connection is in a bad state"@)),
    {
        match &self.state {
            ConnectionState::Process => Ok(()),
            _ => Err(HubError::Connect(String::from_str("The connection is in a bad state"))),
        }
    }

    /// The records of one read: the text cut at every record separator, empty
    /// pieces dropped.
    pub fn get_messages(message: &str) -> (messages: Vec<String>)
        ensures
            texts_view(messages@) == records(message@),
    {
        MessageParser::split_records(message)
    }

    /// The records of several reads, in order.
    pub fn receive_messages(reads: &Vec<String>) -> (messages: Vec<String>)
        ensures
            texts_view(messages@) == all_records(texts_view(reads@)),
    {
        let mut out: Vec<String> = Vec::new();
        let mut i: usize = 0;
        assert(texts_view(out@) =~= Seq::empty());
        while i < reads.len()
            invariant
                i <= reads.len(),
                texts_view(out@) == all_records(texts_view(reads@).take(i as int)),
            decreases reads.len() - i,
        {
            let ghost before = texts_view(out@);
            let mut found = CommunicationClient::get_messages(reads[i].as_str());
            let ghost added = texts_view(found@);
            out.append(&mut found);
            proof {
                let views = texts_view(reads@);
                assert(views.take(i + 1).drop_last() =~= views.take(i as int));
                assert(views.take(i + 1).last() == reads[i as int]@);
                assert(texts_view(out@) =~= before + added);
            }
            i += 1;
        }
        assert(texts_view(reads@).take(i as int) =~= texts_view(reads@));
        out
    }

    /// Receives one message: routes it to the registry by the kind that it
    /// declares. An entry that the message ends moves to `ended`, and a close
    /// message tears the whole registry down into `ended`. The result is the
    /// callback run that the message asks for, if any, or a report where the
    /// message could not be routed.
    pub fn process_one(
        storage: &mut UpdatableActionStorage,
        ended: &mut UpdatableActionStorage,
        message: String,
    ) -> (r: Result<Delivery, String>)
        requires
            old(storage).well_formed(),
            old(ended).well_formed(),
        ensures
            final(storage).well_formed(),
            final(ended).well_formed(),
            final(storage).counter() == old(storage).counter(),
            final(ended).counter() == old(ended).counter(),
            final(storage)@ == received_one(old(storage)@, message@),
            final(ended)@ == settled_one(old(storage)@, old(ended)@, message@),
            r is Err <==> unreadable(message@),
            r matches Err(report) ==> report@ == report_of(message@),
            r matches Ok(delivery) ==> (delivery is Close <==> kind_in(message@) == Some(
                MessageType::Close,
            )),
            r matches Ok(Delivery::Call(context)) ==> call_of(old(storage)@, message@) == Some(
                context@,
            ),
            r matches Ok(delivery) && !(delivery is Call) ==> call_of(old(storage)@, message@)
                is None,
    {
        match read_kind(message.as_str()) {
            Some(kind) => match storage.process_message(message, kind) {
                Ok(Dispatch::Call(context)) => Ok(Delivery::Call(context)),
                Ok(Dispatch::Finished(key, action)) => {
                    ended.insert(key, action);
                    Ok(Delivery::Nothing)
                },
                Ok(Dispatch::Close) => {
                    storage.tear_down(ended);
                    Ok(Delivery::Close)
                },
                Ok(_) => Ok(Delivery::Nothing),
                Err(report) => Err(report),
            },
            None => Err(report_unreadable(message)),
        }
    }

    /// Receives the messages one after the other.
    pub fn process_messages(
        storage: &mut UpdatableActionStorage,
        ended: &mut UpdatableActionStorage,
        messages: Vec<String>,
    ) -> (received_now: Received)
        requires
            old(storage).well_formed(),
            old(ended).well_formed(),
        ensures
            final(storage).well_formed(),
            final(ended).well_formed(),
            final(storage).counter() == old(storage).counter(),
            final(ended).counter() == old(ended).counter(),
            final(storage)@ == received(old(storage)@, texts_view(messages@)),
            final(ended)@ == settled(old(storage)@, old(ended)@, texts_view(messages@)),
            contexts_view(received_now.calls@) == calls_of(old(storage)@, texts_view(messages@)),
            texts_view(received_now.reports@) == reports_of(texts_view(messages@)),
            received_now.closed == closes(texts_view(messages@)),
    {
        let mut calls: Vec<InvocationContext> = Vec::new();
        let mut reports: Vec<String> = Vec::new();
        let mut closed = false;
        let mut i: usize = 0;
        let ghost texts = texts_view(messages@);
        assert(contexts_view(calls@) =~= Seq::empty());
        assert(texts_view(reports@) =~= Seq::empty());
        while i < messages.len()
            invariant
                i <= messages.len(),
                texts == texts_view(messages@),
                storage.well_formed(),
                ended.well_formed(),
                storage.counter() == old(storage).counter(),
                ended.counter() == old(ended).counter(),
                storage@ == received(old(storage)@, texts.take(i as int)),
                ended@ == settled(old(storage)@, old(ended)@, texts.take(i as int)),
                contexts_view(calls@) == calls_of(old(storage)@, texts.take(i as int)),
                texts_view(reports@) == reports_of(texts.take(i as int)),
                closed == closes(texts.take(i as int)),
            decreases messages.len() - i,
        {
            let message = messages[i].clone();
            proof {
                assert(texts.take(i + 1).drop_last() =~= texts.take(i as int));
                assert(texts.take(i + 1).last() == messages@[i as int]@);
            }
            let ghost called = contexts_view(calls@);
            match CommunicationClient::process_one(storage, ended, message) {
                Ok(Delivery::Call(context)) => {
                    calls.push(context);
                    assert(contexts_view(calls@) =~= called.push(context@));
                },
                Ok(Delivery::Close) => {
                    closed = true;
                },
                Ok(Delivery::Nothing) => {},
                Err(report) => {
                    let ghost reported = texts_view(reports@);
                    reports.push(report);
                    assert(texts_view(reports@) =~= reported.push(report@));
                },
            }
            i += 1;
        }
        assert(texts.take(i as int) =~= texts);
        Received { calls, reports, closed }
    }

    /// One turn of the connection, with what the socket reports and what was
    /// read from it.
    ///
    /// While the socket is not open, nothing happens. Once it is open: a
    /// connection that waits for it learns so; a connection that shakes hands
    /// takes a read of exactly one record as the reply, and accepts the
    /// handshake when it is a handshake reply without an error; a connection
    /// that processes receives every record, and is closed when one of them
    /// is a close message.
    pub fn polling_loop(
        &mut self,
        status: ConnectionStatus,
        reads: &Vec<String>,
        storage: &mut UpdatableActionStorage,
        ended: &mut UpdatableActionStorage,
    ) -> (received_now: Received)
        requires
            old(self).well_formed(),
            old(storage).well_formed(),
            old(ended).well_formed(),
        ensures
            final(self).well_formed(),
            final(storage).well_formed(),
            final(ended).well_formed(),
            final(storage).counter() == old(storage).counter(),
            final(ended).counter() == old(ended).counter(),
            final(self).endpoint() == old(self).endpoint(),
            turned(
                old(self).stage(),
                old(self).awaited(),
                status,
                all_records(texts_view(reads@)),
                final(self).awaited(),
            ),
            ({
                let messages = if processes(old(self).stage(), status) {
                    all_records(texts_view(reads@))
                } else {
                    Seq::empty()
                };
                &&& final(self).stage() == (if closes(messages) {
                    Stage::Closed
                } else {
                    old(self).stage()
                })
                &&& received_now.closed == closes(messages)
                &&& final(storage)@ == received(old(storage)@, messages)
                &&& final(ended)@ == settled(old(storage)@, old(ended)@, messages)
                &&& contexts_view(received_now.calls@) == calls_of(old(storage)@, messages)
                &&& texts_view(received_now.reports@) == reports_of(messages)
            }),
    {
        let nothing: Vec<String> = Vec::new();
        assert(texts_view(nothing@) =~= Seq::empty());
        match status {
            ConnectionStatus::Connected => {},
            _ => {
                return CommunicationClient::process_messages(storage, ended, nothing);
            },
        }
        match &mut self.state {
            ConnectionState::Connect(connected) => {
                connected.complete(true);
                CommunicationClient::process_messages(storage, ended, nothing)
            },
            ConnectionState::Handshake(handshake) => {
                let messages = CommunicationClient::receive_messages(reads);
                if messages.len() == 1 {
                    let accepted = match read_handshake(messages[0].as_str()) {
                        Some(reply) => reply.get_error().is_none(),
                        None => false,
                    };
                    handshake.complete(accepted);
                }
                CommunicationClient::process_messages(storage, ended, nothing)
            },
            ConnectionState::Process => {
                let messages = CommunicationClient::receive_messages(reads);
                let received_now = CommunicationClient::process_messages(storage, ended, messages);
                if received_now.closed {
                    self.state = ConnectionState::Closed;
                }
                received_now
            },
            ConnectionState::Closed => CommunicationClient::process_messages(
                storage,
                ended,
                nothing,
            ),
        }
    }

    /// The next step of bringing the connection up, polled on behalf of the
    /// task behind `waker`.
    ///
    /// Once the socket is open, the handshake request is to be sent and the
    /// connection waits for the reply. Once the reply is in, the connection
    /// processes if the handshake was accepted and has failed if not. While an
    /// answer is pending, the caller waits.
    pub fn connect_internal(&mut self, waker: &std::task::Waker) -> (step: ConnectStep)
        requires
            old(self).well_formed(),
        ensures
            final(self).well_formed(),
            final(self).endpoint() == old(self).endpoint(),
            stepped(old(self).stage(), old(self).awaited(), step@, final(self).stage()),
            final(self).stage() == Stage::Handshake && old(self).stage() == Stage::Connect
                ==> final(self).awaited() is Pending,
    {
        let mut state = ConnectionState::Closed;
        std::mem::swap(&mut self.state, &mut state);
        match state {
            ConnectionState::Connect(mut connected) => match connected.awaiter(waker) {
                Some(_) => {
                    self.state = ConnectionState::Handshake(ManualFutureState::new());
                    let request = HandshakeRequest::new(String::from_str("json"));
                    ConnectStep::SendHandshake(MessageParser::to_json(&request.to_value()))
                },
                None => {
                    self.state = ConnectionState::Connect(connected);
                    ConnectStep::Wait
                },
            },
            ConnectionState::Handshake(mut handshake) => match handshake.awaiter(waker) {
                Some(true) => {
                    self.state = ConnectionState::Process;
                    ConnectStep::Done
                },
                Some(false) => {
                    self.state = ConnectionState::Closed;
                    ConnectStep::Failed(
                        HubError::Handshake(String::from_str("Unsuccessfull handshake")),
                    )
                },
                None => {
                    self.state = ConnectionState::Handshake(handshake);
                    ConnectStep::Wait
                },
            },
            ConnectionState::Process => {
                self.state = ConnectionState::Process;
                ConnectStep::Done
            },
            ConnectionState::Closed => ConnectStep::Failed(
                HubError::Connect(
                    String::from_str(
                        "Connection client is not created properly. Connection has failed",
                    ),
                ),
            ),
        }
    }

    /// The frame that carries `data`. Frames are only sent on a connection
    /// that has shaken hands and was not closed.
    pub fn send(&self, data: &serde_json::Value) -> (r: Result<String, HubError>)
        ensures
            self.stage() == Stage::Process ==> (r matches Ok(frame) && frame@ == framed(
                json_text(json_model(*data)),
            )),
            self.stage() != Stage::Process ==> (r matches Err(error) && error@
                == HubErrorView::Send("Client is not connected, cannot send"@)),
    {
        match &self.state {
            ConnectionState::Process => Ok(MessageParser::to_json(data)),
            _ => Err(HubError::Send(String::from_str("Client is not connected, cannot send"))),
        }
    }

    /// Disconnects, if this is the last holder of the connection: with
    /// `holders` handles to it, this one included, the connection is closed
    /// when there is no other.
    pub fn disconnect(&mut self, holders: usize) -> (closed: bool)
        requires
            old(self).well_formed(),
        ensures
            final(self).well_formed(),
            final(self).endpoint() == old(self).endpoint(),
            closed == (holders <= 1 && old(self).stage() != Stage::Closed),
            closed ==> final(self).stage() == Stage::Closed,
            !closed ==> final(self).stage() == old(self).stage() && final(self).awaited() == old(
                self,
            ).awaited(),
    {
        let connected = match &self.state {
            ConnectionState::Closed => false,
            _ => true,
        };
        if connected && holders <= 1 {
            self.state = ConnectionState::Closed;
            true
        } else {
            false
        }
    }
}

/// Whether a turn receives what was read: the socket is open and the
/// connection processes.
pub open spec fn processes(stage: Stage, status: ConnectionStatus) -> bool {
    status == ConnectionStatus::Connected && stage == Stage::Process
}

/// What one turn does to the answer that the stage waits for.
pub open spec fn turned(
    stage: Stage,
    awaited: Phase<bool>,
    status: ConnectionStatus,
    messages: Seq<Seq<char>>,
    after: Phase<bool>,
) -> bool {
    if status != ConnectionStatus::Connected || !(awaited is Pending) {
        after == awaited
    } else if stage == Stage::Connect {
        after == Phase::Holding(true)
    } else if stage == Stage::Handshake && messages.len() == 1 {
        after == Phase::Holding(handshake_accepted(messages[0]))
    } else {
        after == awaited
    }
}

/// What one step of bringing the connection up gives, and the stage after it.
pub open spec fn stepped(stage: Stage, awaited: Phase<bool>, step: ConnectStepView, after: Stage) -> bool {
    match stage {
        Stage::Connect => if awaited is Pending {
            step is Wait && after == Stage::Connect
        } else {
            step == ConnectStepView::SendHandshake(handshake_frame()) && after == Stage::Handshake
        },
        Stage::Handshake => match awaited {
            Phase::Pending => step is Wait && after == Stage::Handshake,
            Phase::Holding(true) => step is Done && after == Stage::Process,
            _ => step == ConnectStepView::Failed(
                HubErrorView::Handshake("Unsuccessfull handshake"@),
            ) && after == Stage::Closed,
        },
        Stage::Process => step is Done && after == Stage::Process,
        Stage::Closed => step == ConnectStepView::Failed(
            HubErrorView::Connect(
                "Connection client is not created properly. Connection has failed"@,
            ),
        ) && after == Stage::Closed,
    }
}

} // verus!
