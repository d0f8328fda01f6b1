//! The decisions of a connection: how it is opened, what is done with events, and
//! how the loop that listens goes on.
use crate::client::backend::{
    events, request_outcome, samples_option, texts_outcome, BackendConfig, Event, HandshakeRequest,
    LiveApiBackend, Request, UnifiedServerEvent,
};
use crate::client::gemini_backend::{
    gemini_address, key_url, lemma_gemini_address, lemma_gemini_address_plain, GeminiBackend,
};
use crate::client::handlers::{Handlers, ServerContentContext, UsageMetadataContext};
use crate::client::openai_backend::{
    lemma_openai_address, openai_address, openai_headers, OpenAiBackend,
};
use crate::client::request::{
    format_status, header_char, header_text, law_plain_request, plain_char, plain_query, request_for, requested,
    status_text, target_limit,
};
use crate::error::{Failure, GeminiError};
use crate::text::join;
use crate::types::{text_option, UsageMetadata};
use vstd::prelude::*;

verus! {

/// The request that opens the connection: for the backend's URL, made ready for
/// the service.
pub open spec fn handshake<B: LiveApiBackend>(
    backend: B,
    api_key: Seq<char>,
    config: BackendConfig,
) -> Result<Request, Failure> {
    match backend.url(api_key) {
        Err(e) => Err(e),
        Ok(url) => match requested(url) {
            Err(e) => Err(Failure::ConfigurationError("Failed to build base request: "@ + e)),
            Ok(request) => backend.configured(api_key, request, config),
        },
    }
}

/// The request that opens the connection, given what the builder made of the
/// backend's URL.
pub fn ready_request<B: LiveApiBackend>(
    backend: &B,
    api_key: &str,
    built: Result<HandshakeRequest, String>,
    config: &BackendConfig,
) -> (r: Result<HandshakeRequest, GeminiError>)
    ensures
        request_outcome(r) == match built {
            Err(e) => Err::<Request, Failure>(
                Failure::ConfigurationError("Failed to build base request: "@ + e@),
            ),
            Ok(request) => backend.configured(api_key@, request@, *config),
        },
{
    match built {
        Ok(request) => backend.configure_websocket_request(api_key, request, config),
        Err(e) => Err(
            GeminiError::ConfigurationError(
                join("Failed to build base request: ", e.as_str()),
            ),
        ),
    }
}

/// The request that opens the connection.
pub fn prepare_handshake<B: LiveApiBackend>(
    backend: &B,
    api_key: &str,
    config: &BackendConfig,
) -> (r: Result<HandshakeRequest, GeminiError>)
    ensures
        request_outcome(r) == handshake(*backend, api_key@, *config),
{
    match backend.get_websocket_url(api_key) {
        Ok(url) => ready_request(backend, api_key, request_for(url.as_str()), config),
        Err(e) => Err(e),
    }
}

/// The handshake with OpenAI: with a key that a header can hold, and a model with
/// nothing in it to escape, there is one. It goes to the service's address, the key
/// in a header and the model in the query.
pub proof fn law_openai_handshake(api_key: Seq<char>, config: BackendConfig)
    requires
        header_text(api_key),
        plain_query(config.model@),
        config.model@.len() + 19 <= target_limit(),
    ensures
        handshake(OpenAiBackend, api_key, config) == Ok::<Request, Failure>(
            Request {
                scheme: Some("wss"@),
                authority: Some("api.openai.com"@),
                target: Some(("/v1/realtime"@, Some("model="@ + config.model@))),
                headers: openai_headers(Seq::empty(), api_key),
            },
        ),
{
    lemma_openai_address();
    law_plain_request(openai_address());
    reveal_strlit("Bearer ");
    reveal_strlit("/v1/realtime");
    reveal_strlit("model=");
    let bearer = "Bearer "@ + api_key;
    assert forall|i: int| 0 <= i < bearer.len() implies header_char(#[trigger] bearer[i]) by {
        if i >= 7 {
            assert(bearer[i] == api_key[i - 7]);
        }
    }
    let query = "model="@ + config.model@;
    assert forall|i: int| 0 <= i < query.len() implies plain_char(#[trigger] query[i]) || query[i]
        == '=' || query[i] == '&' by {
        if i >= 6 {
            assert(query[i] == config.model@[i - 6]);
        }
    }
}

/// The handshake with Gemini: with a key with nothing in it to escape, there is one.
/// It goes to the service's address, the key in the query.
pub proof fn law_gemini_handshake(api_key: Seq<char>, config: BackendConfig)
    requires
        plain_query(api_key),
        key_url(api_key).len() <= target_limit(),
    ensures
        handshake(GeminiBackend, api_key, config) == Ok::<Request, Failure>(
            gemini_address(api_key).request(),
        ),
{
    lemma_gemini_address(api_key);
    lemma_gemini_address_plain(api_key);
    law_plain_request(gemini_address(api_key));
}

/// The status of a handshake that succeeded: success in general, or the switch of
/// protocols that a WebSocket asks for.
pub open spec fn accepted_status(status: u16) -> bool {
    200 <= status < 300 || status == 101
}

/// What is sent first on a new connection.
pub open spec fn opening<B: LiveApiBackend>(
    backend: B,
    status: u16,
    config: BackendConfig,
) -> Result<Seq<Seq<char>>, Failure> {
    if accepted_status(status) {
        backend.initial_messages(config)
    } else {
        Err(Failure::ApiError("WebSocket handshake failed with status "@ + status_text(status)))
    }
}

/// The messages to send first, once the service has answered the handshake.
pub fn after_handshake<B: LiveApiBackend>(backend: &B, status: u16, config: &BackendConfig) -> (r:
    Result<Vec<String>, GeminiError>)
    requires
        100 <= status <= 999,
    ensures
        texts_outcome(r) == opening(*backend, status, *config),
{
    if (200 <= status && status < 300) || status == 101 {
        backend.get_initial_messages(config)
    } else {
        match format_status(status) {
            Ok(text) => Err(
                GeminiError::ApiError(
                    join("WebSocket handshake failed with status ", text.as_str()),
                ),
            ),
            Err(e) => Err(GeminiError::ApiError(e)),
        }
    }
}

/// What is done with an event.
#[derive(Debug, Clone, PartialEq)]
pub enum EventAction {
    /// The content handler is called.
    CallServerContent(ServerContentContext),
    /// The usage handler is called.
    CallUsageMetadata(UsageMetadataContext),
    /// The session goes on.
    Proceed,
    /// The session ends.
    Stop,
}

/// What is done with an event, as mathematics.
#[verifier::ext_equal]
pub enum Action {
    CallServerContent { text: Option<Seq<char>>, audio: Option<Seq<i16>>, is_done: bool },
    CallUsageMetadata(UsageMetadata),
    Proceed,
    Stop,
}

impl View for EventAction {
    type V = Action;

    open spec fn view(&self) -> Action {
        match *self {
            EventAction::CallServerContent(context) => Action::CallServerContent {
                text: text_option(context.text),
                audio: samples_option(context.audio),
                is_done: context.is_done,
            },
            EventAction::CallUsageMetadata(context) => Action::CallUsageMetadata(context.metadata),
            EventAction::Proceed => Action::Proceed,
            EventAction::Stop => Action::Stop,
        }
    }
}

/// What is done with an event, given whether there is a handler for content and
/// one for usage.
pub open spec fn action_for(event: Event, content: bool, usage: bool) -> Action {
    match event {
        Event::ContentUpdate { text, audio, done } if content => Action::CallServerContent {
            text,
            audio,
            is_done: done,
        },
        Event::UsageMetadata(metadata) if usage => Action::CallUsageMetadata(metadata),
        Event::Close => Action::Stop,
        _ => Action::Proceed,
    }
}

/// What is done with an event: a handler is called where there is one for it; the
/// end of the connection ends the session.
pub fn handle_unified_event<C, U, T>(
    event: UnifiedServerEvent,
    handlers: &Handlers<C, U, T>,
) -> (r: EventAction)
    ensures
        r@ == action_for(
            event@,
            handlers.on_server_content is Some,
            handlers.on_usage_metadata is Some,
        ),
{
    match event {
        UnifiedServerEvent::ContentUpdate { text, audio, done } => if handlers.on_server_content.is_some() {
            EventAction::CallServerContent(ServerContentContext { text, audio, is_done: done })
        } else {
            EventAction::Proceed
        },
        UnifiedServerEvent::UsageMetadata(metadata) => if handlers.on_usage_metadata.is_some() {
            EventAction::CallUsageMetadata(UsageMetadataContext { metadata })
        } else {
            EventAction::Proceed
        },
        UnifiedServerEvent::Close => EventAction::Stop,
        _ => EventAction::Proceed,
    }
}

/// Where there is a handler for content, every update of content, done or not,
/// reaches it with its own text, audio and mark of being done; where there is none,
/// nothing is called.
pub proof fn law_content_reaches_its_handler(
    text: Option<Seq<char>>,
    audio: Option<Seq<i16>>,
    done: bool,
    usage: bool,
)
    ensures
        action_for(Event::ContentUpdate { text, audio, done }, true, usage)
            == (Action::CallServerContent { text, audio, is_done: done }),
        action_for(Event::ContentUpdate { text, audio, done }, false, usage) == Action::Proceed,
{
}

/// Where there is a handler for usage, every account of usage reaches it unaltered;
/// where there is none, nothing is called.
pub proof fn law_usage_reaches_its_handler(metadata: UsageMetadata, content: bool)
    ensures
        action_for(Event::UsageMetadata(metadata), content, true) == Action::CallUsageMetadata(
            metadata,
        ),
        action_for(Event::UsageMetadata(metadata), content, false) == Action::Proceed,
{
}

/// The end of the connection, and nothing else, ends the session, whatever handlers
/// there are; no handler is called for any event but those of its own kind.
pub proof fn law_only_a_close_stops(event: Event, content: bool, usage: bool)
    ensures
        action_for(event, content, usage) is Stop <==> event is Close,
        action_for(event, content, usage) is CallServerContent <==> content && event
            is ContentUpdate,
        action_for(event, content, usage) is CallUsageMetadata <==> usage && event
            is UsageMetadata,
{
}

/// The events before the first end of the connection.
pub open spec fn before_close(list: Seq<Event>) -> Seq<Event>
    decreases list.len(),
{
    if list.len() == 0 || list[0] == Event::Close {
        Seq::empty()
    } else {
        seq![list[0]] + before_close(list.drop_first())
    }
}

/// The session ends with these events.
pub open spec fn session_ends(list: Seq<Event>) -> bool {
    list.contains(Event::Close)
}

/// The session ends with events exactly where one of them is the end of the
/// connection.
pub proof fn law_when_the_session_ends(list: Seq<Event>)
    ensures
        session_ends(list) <==> exists|i: int| 0 <= i < list.len() && (#[trigger] list[i]) is Close,
{
    if session_ends(list) {
        let i = choose|i: int| 0 <= i < list.len() && list[i] == Event::Close;
        assert(list[i] is Close);
    }
}

/// What is done with each event of a list.
pub open spec fn actions_for(list: Seq<Event>, content: bool, usage: bool) -> Seq<Action> {
    Seq::new(list.len(), |i: int| action_for(list[i], content, usage))
}

/// The actions of a list.
pub open spec fn actions(list: Seq<EventAction>) -> Seq<Action> {
    Seq::new(list.len(), |i: int| list[i]@)
}

/// Where a prefix has no end of the connection in it, what is before the first end
/// is the prefix and what is before the first end of the rest.
proof fn lemma_before_close_split(list: Seq<Event>, n: int)
    requires
        0 <= n <= list.len(),
        forall|i: int| 0 <= i < n ==> (#[trigger] list[i]) != Event::Close,
    ensures
        before_close(list) == list.take(n) + before_close(list.skip(n)),
    decreases n,
{
    if n == 0 {
        assert(list.take(0) + before_close(list.skip(0)) =~= before_close(list.skip(0)));
        assert(list.skip(0) =~= list);
    } else {
        let rest = list.drop_first();
        assert forall|i: int| 0 <= i < n - 1 implies (#[trigger] rest[i]) != Event::Close by {
            assert(rest[i] == list[i + 1]);
        }
        lemma_before_close_split(rest, n - 1);
        assert(rest.skip(n - 1) =~= list.skip(n));
        assert(seq![list[0]] + rest.take(n - 1) =~= list.take(n));
        assert(before_close(list) =~= list.take(n) + before_close(list.skip(n)));
    }
}

/// What is done with the events of a message, in order, and whether the session
/// ends with them. Events after the end of the connection are not acted on.
pub fn dispatch<C, U, T>(list: Vec<UnifiedServerEvent>, handlers: &Handlers<C, U, T>) -> (r: (
    Vec<EventAction>,
    bool,
))
    ensures
        actions(r.0@) == actions_for(
            before_close(events(list@)),
            handlers.on_server_content is Some,
            handlers.on_usage_metadata is Some,
        ),
        r.1 == session_ends(events(list@)),
{
    let ghost all = events(list@);
    let ghost source = list@;
    let ghost content = handlers.on_server_content is Some;
    let ghost usage = handlers.on_usage_metadata is Some;
    let mut done: Vec<EventAction> = Vec::new();
    assert(actions(done@) =~= actions_for(all.take(0), content, usage));
    for event in it: list
        invariant
            it.seq() == source,
            all == events(source),
            content == (handlers.on_server_content is Some),
            usage == (handlers.on_usage_metadata is Some),
            actions(done@) == actions_for(all.take(it.index() as int), content, usage),
            forall|i: int| 0 <= i < it.index() ==> (#[trigger] all[i]) != Event::Close,
    {
        let ghost i = it.index() as int;
        assert(all[i] == event@);
        let action = handle_unified_event(event, handlers);
        if let EventAction::Stop = action {
            proof {
                assert(all[i] == Event::Close);
                lemma_before_close_split(all, i);
                assert(all.skip(i)[0] == Event::Close);
                assert(before_close(all) =~= all.take(i));
            }
            return (done, true);
        }
        let ghost before = done@;
        done.push(action);
        assert(actions(done@) =~= actions(before).push(action_for(all[i], content, usage)));
        assert(all.take(i + 1) =~= all.take(i).push(all[i]));
        assert(actions_for(all.take(i + 1), content, usage) =~= actions_for(
            all.take(i),
            content,
            usage,
        ).push(action_for(all[i], content, usage)));
    }
    proof {
        lemma_before_close_split(all, all.len() as int);
        assert(all.take(all.len() as int) =~= all);
        assert(before_close(all) =~= all);
    }
    (done, false)
}

/// Whatever comes after the first end of the connection makes no difference.
pub proof fn law_nothing_after_close(first: Seq<Event>, others: Seq<Event>)
    requires
        !first.contains(Event::Close),
    ensures
        before_close(first.push(Event::Close) + others) == first,
{
    let all = first.push(Event::Close) + others;
    let n = first.len() as int;
    assert forall|i: int| 0 <= i < n implies (#[trigger] all[i]) != Event::Close by {
        assert(first[i] == all[i]);
        assert(first.contains(first[i]));
    }
    lemma_before_close_split(all, n);
    assert(all.take(n) =~= first);
    assert(all.skip(n)[0] == Event::Close);
    assert(first + Seq::<Event>::empty() =~= first);
}

/// Without an end of the connection, every event is acted on.
pub proof fn law_all_events_acted_on(list: Seq<Event>)
    requires
        !list.contains(Event::Close),
    ensures
        before_close(list) == list,
{
    assert forall|i: int| 0 <= i < list.len() implies (#[trigger] list[i]) != Event::Close by {
        assert(list.contains(list[i]));
    }
    lemma_before_close_split(list, list.len() as int);
    assert(list.take(list.len() as int) =~= list);
    assert(before_close(list) =~= list);
}

/// The loop that listens on a connection. It takes messages to send until their
/// queue is closed.
#[derive(Debug, Clone, PartialEq)]
pub struct Listener {
    outgoing_open: bool,
}

/// What happens to the loop.
#[derive(Debug, Clone, PartialEq)]
pub enum LoopEvent {
    /// The application shuts the session down.
    Shutdown,
    /// There is a message to send.
    Outgoing(String),
    /// The queue of messages to send is closed.
    OutgoingClosed,
    /// The message is sent.
    Sent,
    /// The message could not be sent; perhaps because the connection is closed.
    SendFailed { connection_closed: bool },
    /// A frame has arrived.
    Received,
    /// The frame's events are acted on; perhaps the session ends with them.
    Processed { stop: bool },
    /// The frame could not be read.
    ProcessingFailed,
    /// Reading from the connection failed, with this display text.
    ReadFailed(String),
    /// The server has closed the connection.
    StreamEnded,
}

/// What the loop does next.
#[derive(Debug, PartialEq)]
pub enum LoopAction {
    /// Wait for a shutdown, for a frame, and for messages while their queue is
    /// open; a shutdown comes first.
    Wait,
    /// Send the message.
    Send(String),
    /// Read the frame, and act on its events.
    Process,
    /// Say goodbye, close the connection, and end well.
    Goodbye,
    /// Close the connection, and end well.
    Close,
    /// End.
    Finish(Result<(), GeminiError>),
}

/// What the loop does next, as mathematics.
pub enum Next {
    Wait,
    Send(Seq<char>),
    Process,
    Goodbye,
    Close,
    Finish(Result<(), Failure>),
}

impl View for LoopAction {
    type V = Next;

    open spec fn view(&self) -> Next {
        match *self {
            LoopAction::Wait => Next::Wait,
            LoopAction::Send(message) => Next::Send(message@),
            LoopAction::Process => Next::Process,
            LoopAction::Goodbye => Next::Goodbye,
            LoopAction::Close => Next::Close,
            LoopAction::Finish(outcome) => Next::Finish(crate::error::unit_outcome(outcome)),
        }
    }
}

/// What the loop does upon an event.
pub open spec fn next_action(event: LoopEvent) -> Next {
    match event {
        LoopEvent::Shutdown => Next::Goodbye,
        LoopEvent::Outgoing(message) => Next::Send(message@),
        LoopEvent::Received => Next::Process,
        LoopEvent::SendFailed { connection_closed } => if connection_closed {
            Next::Finish(Err(Failure::ConnectionClosed))
        } else {
            Next::Wait
        },
        LoopEvent::Processed { stop } => if stop {
            Next::Close
        } else {
            Next::Wait
        },
        LoopEvent::ReadFailed(text) => Next::Finish(Err(Failure::WebSocketError(text@))),
        LoopEvent::StreamEnded => Next::Finish(Ok(())),
        LoopEvent::OutgoingClosed | LoopEvent::Sent | LoopEvent::ProcessingFailed => Next::Wait,
    }
}

/// Whether messages to send are still waited for after an event.
pub open spec fn still_takes_messages(before: bool, event: LoopEvent) -> bool {
    before && !(event is OutgoingClosed)
}

impl Listener {
    /// Whether messages to send are still waited for.
    pub closed spec fn takes_messages(&self) -> bool {
        self.outgoing_open
    }

    /// The loop at its start: it takes messages to send.
    pub fn new() -> (r: Listener)
        ensures
            r.takes_messages(),
    {
        Listener { outgoing_open: true }
    }

    /// Whether messages to send are still waited for.
    pub fn waits_for_messages(&self) -> (r: bool)
        ensures
            r == self.takes_messages(),
    {
        self.outgoing_open
    }

    /// What the loop does upon an event. Once the queue of messages is closed, it
    /// goes on without it.
    pub fn step(&mut self, event: LoopEvent) -> (r: LoopAction)
        ensures
            r@ == next_action(event),
            final(self).takes_messages() == still_takes_messages(
                old(self).takes_messages(),
                event,
            ),
    {
        match event {
            LoopEvent::Shutdown => LoopAction::Goodbye,
            LoopEvent::Outgoing(message) => LoopAction::Send(message),
            LoopEvent::OutgoingClosed => {
                self.outgoing_open = false;
                LoopAction::Wait
            },
            LoopEvent::Sent => LoopAction::Wait,
            LoopEvent::SendFailed { connection_closed } => if connection_closed {
                LoopAction::Finish(Err(GeminiError::ConnectionClosed))
            } else {
                LoopAction::Wait
            },
            LoopEvent::Received => LoopAction::Process,
            LoopEvent::Processed { stop } => if stop {
                LoopAction::Close
            } else {
                LoopAction::Wait
            },
            LoopEvent::ProcessingFailed => LoopAction::Wait,
            LoopEvent::ReadFailed(text) => LoopAction::Finish(
                Err(GeminiError::WebSocketError(text)),
            ),
            LoopEvent::StreamEnded => LoopAction::Finish(Ok(())),
        }
    }
}

/// The loop ends.
pub open spec fn ends(next: Next) -> bool {
    next is Goodbye || next is Close || next is Finish
}

/// The loop ends upon a shutdown, upon an event that closes the session, upon the
/// end of the stream, and upon the two failures that it cannot go on from; and
/// upon nothing else.
pub proof fn law_when_the_loop_ends(event: LoopEvent)
    ensures
        ends(next_action(event)) <==> (event is Shutdown || event is ReadFailed || event
            is StreamEnded || (event matches LoopEvent::Processed { stop } && stop) || (
        event matches LoopEvent::SendFailed { connection_closed } && connection_closed)),
{
}

/// A frame that cannot be read, and a message that cannot be sent on a connection
/// that is not closed, do not end the loop.
pub proof fn law_loop_survives_bad_messages(event: LoopEvent)
    requires
        event is ProcessingFailed || event == (LoopEvent::SendFailed { connection_closed: false }),
    ensures
        next_action(event) == Next::Wait,
{
}

/// The events that the loop gets to: those up to the first that ends it.
pub open spec fn reached(list: Seq<LoopEvent>) -> Seq<LoopEvent>
    decreases list.len(),
{
    if list.len() == 0 {
        Seq::empty()
    } else if ends(next_action(list[0])) {
        seq![list[0]]
    } else {
        seq![list[0]] + reached(list.drop_first())
    }
}

/// The messages that events take from the queue, in order.
pub open spec fn outgoing(list: Seq<LoopEvent>) -> Seq<Seq<char>>
    decreases list.len(),
{
    if list.len() == 0 {
        Seq::empty()
    } else {
        let rest = outgoing(list.drop_first());
        match list[0] {
            LoopEvent::Outgoing(message) => seq![message@] + rest,
            _ => rest,
        }
    }
}

/// The messages that the loop sends upon events, in order.
pub open spec fn sent(list: Seq<LoopEvent>) -> Seq<Seq<char>>
    decreases list.len(),
{
    if list.len() == 0 {
        Seq::empty()
    } else {
        let rest = sent(list.drop_first());
        match next_action(list[0]) {
            Next::Send(message) => seq![message] + rest,
            _ => rest,
        }
    }
}

/// The messages that a connection writes over a whole run: those that open it, and
/// then those that its loop sends. Answers to tool calls are not among them.
pub open spec fn written<B: LiveApiBackend>(
    backend: B,
    status: u16,
    config: BackendConfig,
    list: Seq<LoopEvent>,
) -> Result<Seq<Seq<char>>, Failure> {
    match opening(backend, status, config) {
        Ok(initial) => Ok(initial + sent(reached(list))),
        Err(e) => Err(e),
    }
}

/// The loop sends what is taken from the queue, and nothing else.
proof fn lemma_sent_is_outgoing(list: Seq<LoopEvent>)
    ensures
        sent(list) == outgoing(list),
    decreases list.len(),
{
    if list.len() > 0 {
        lemma_sent_is_outgoing(list.drop_first());
    }
}

/// What is taken from the queue before the loop ends comes first of all that events
/// take from it.
proof fn lemma_reached_outgoing(list: Seq<LoopEvent>)
    ensures
        outgoing(reached(list)).is_prefix_of(outgoing(list)),
    decreases list.len(),
{
    if list.len() > 0 {
        let rest = list.drop_first();
        let got = reached(list);
        assert(got[0] == list[0]);
        if ends(next_action(list[0])) {
            assert(got.drop_first() =~= Seq::empty());
            assert(outgoing(got.drop_first()) =~= Seq::empty());
            assert(outgoing(got) =~= Seq::empty());
        } else {
            assert(got.drop_first() =~= reached(rest));
            lemma_reached_outgoing(rest);
            let part = outgoing(reached(rest));
            let all = outgoing(rest);
            assert(all == part + all.skip(part.len() as int)) by {
                assert(all.take(part.len() as int) == part);
                assert(all =~= all.take(part.len() as int) + all.skip(part.len() as int));
            }
            assert(outgoing(list) =~= outgoing(got) + all.skip(part.len() as int));
            assert(outgoing(list).subrange(0, outgoing(got).len() as int) =~= outgoing(got));
        }
    } else {
        assert(reached(list) =~= list);
    }
}

/// Over a whole run, a connection writes the messages that open it and then a
/// prefix of the queue: each once, in order and unaltered, and none of the queue
/// before one that opens it.
pub proof fn law_written_in_order<B: LiveApiBackend>(
    backend: B,
    status: u16,
    config: BackendConfig,
    list: Seq<LoopEvent>,
    queue: Seq<Seq<char>>,
)
    requires
        outgoing(list).is_prefix_of(queue),
    ensures
        match opening(backend, status, config) {
            Ok(initial) => written(backend, status, config, list) == Ok::<Seq<Seq<char>>, Failure>(
                initial + outgoing(reached(list)),
            ),
            Err(e) => written(backend, status, config, list) == Err::<Seq<Seq<char>>, Failure>(e),
        },
        outgoing(reached(list)).is_prefix_of(queue),
        !(exists|i: int| 0 <= i < list.len() && ends(#[trigger] next_action(list[i])))
            ==> reached(list) == list,
{
    lemma_sent_is_outgoing(reached(list));
    lemma_reached_outgoing(list);
    if !(exists|i: int| 0 <= i < list.len() && ends(#[trigger] next_action(list[i]))) {
        lemma_reached_all(list);
    }
}

/// A loop that nothing ends gets to every event.
proof fn lemma_reached_all(list: Seq<LoopEvent>)
    requires
        forall|i: int| 0 <= i < list.len() ==> !ends(#[trigger] next_action(list[i])),
    ensures
        reached(list) == list,
    decreases list.len(),
{
    if list.len() > 0 {
        let rest = list.drop_first();
        assert(!ends(next_action(list[0])));
        assert forall|i: int| 0 <= i < rest.len() implies !ends(
            #[trigger] next_action(rest[i]),
        ) by {
            assert(!ends(next_action(list[i + 1])));
        }
        lemma_reached_all(rest);
        assert(seq![list[0]] + rest =~= list);
    }
}

/// Of events without an end of the connection, each is acted on in its own place;
/// where there is a handler for content, every update of content is handed to it.
pub proof fn law_events_are_dispatched_in_order(
    list: Seq<Event>,
    content: bool,
    usage: bool,
    i: int,
)
    requires
        !list.contains(Event::Close),
        0 <= i < list.len(),
    ensures
        actions_for(before_close(list), content, usage).len() == list.len(),
        content ==> (list[i] matches Event::ContentUpdate { text, audio, done } ==> actions_for(
            before_close(list),
            content,
            usage,
        )[i] == (Action::CallServerContent { text, audio, is_done: done })),
        usage ==> (list[i] matches Event::UsageMetadata(metadata) ==> actions_for(
            before_close(list),
            content,
            usage,
        )[i] == Action::CallUsageMetadata(metadata)),
        !(list[i] is ContentUpdate) && !(list[i] is UsageMetadata) ==> actions_for(
            before_close(list),
            content,
            usage,
        )[i] == Action::Proceed,
{
    law_all_events_acted_on(list);
    assert(list.contains(list[i]));
}

/// What the loop does upon each event: a shutdown is followed by a goodbye, a message
/// is sent as it is, a frame is read; a failure to read and a closed connection are
/// reported, each as itself; the end of the stream is no failure.
pub proof fn law_loop_actions(message: String, text: String, stop: bool)
    ensures
        next_action(LoopEvent::Shutdown) == Next::Goodbye,
        next_action(LoopEvent::Outgoing(message)) == Next::Send(message@),
        next_action(LoopEvent::Received) == Next::Process,
        next_action(LoopEvent::Sent) == Next::Wait,
        next_action(LoopEvent::OutgoingClosed) == Next::Wait,
        next_action(LoopEvent::Processed { stop }) is Close <==> stop,
        next_action(LoopEvent::Processed { stop }) is Wait <==> !stop,
        next_action(LoopEvent::SendFailed { connection_closed: true }) == Next::Finish(
            Err(Failure::ConnectionClosed),
        ),
        next_action(LoopEvent::ReadFailed(text)) == Next::Finish(
            Err(Failure::WebSocketError(text@)),
        ),
        next_action(LoopEvent::StreamEnded) == Next::Finish(Ok(())),
{
}

/// Messages are waited for until their queue is closed, and never again.
pub proof fn law_queue_closes_once(before: bool, event: LoopEvent)
    ensures
        still_takes_messages(before, event) ==> before,
        before && !still_takes_messages(before, event) ==> event is OutgoingClosed,
        event is OutgoingClosed ==> !still_takes_messages(before, event),
{
}

/// A handshake succeeds with a switch of protocols or any other success, and then
/// the backend's own first messages are sent; otherwise the status is reported.
pub proof fn law_opening<B: LiveApiBackend>(backend: B, status: u16, config: BackendConfig)
    ensures
        status == 101 || status / 100 == 2 ==> opening(backend, status, config)
            == backend.initial_messages(config),
        status != 101 && status / 100 != 2 ==> opening(backend, status, config) == Err::<
            Seq<Seq<char>>,
            Failure,
        >(
            Failure::ApiError(
                "WebSocket handshake failed with status "@ + status_text(status),
            ),
        ),
{
}

/// The handshake with Gemini goes to the service's host and path, with the key and
/// nothing else in the query, and without headers.
pub proof fn law_gemini_handshake_target(api_key: Seq<char>, config: BackendConfig)
    requires
        plain_query(api_key),
        api_key.len() <= 65000,
    ensures
        handshake(GeminiBackend, api_key, config) == Ok::<Request, Failure>(
            Request {
                scheme: Some("wss"@),
                authority: Some("generativelanguage.googleapis.com"@),
                target: Some(
                    (
                        "/ws/google.ai.generativelanguage.v1beta.GenerativeService.BidiGenerateContent"@,
                        Some("key="@ + api_key),
                    ),
                ),
                headers: Seq::empty(),
            },
        ),
{
    reveal_strlit("wss://generativelanguage.googleapis.com/ws/google.ai.generativelanguage.v1beta.GenerativeService.BidiGenerateContent?key=");
    law_gemini_handshake(api_key, config);
}

/// A backend whose URL cannot be had, or whose URL gives no request, gives no
/// handshake; otherwise the request for the URL is what the backend makes ready.
pub proof fn law_handshake_steps<B: LiveApiBackend>(
    backend: B,
    api_key: Seq<char>,
    config: BackendConfig,
)
    ensures
        backend.url(api_key) matches Err(e) ==> handshake(backend, api_key, config) == Err::<
            Request,
            Failure,
        >(e),
        backend.url(api_key) matches Ok(url) ==> (requested(url) matches Err(e) ==> handshake(
            backend,
            api_key,
            config,
        ) == Err::<Request, Failure>(
            Failure::ConfigurationError("Failed to build base request: "@ + e),
        )),
        backend.url(api_key) matches Ok(url) ==> (requested(url) matches Ok(request) ==> handshake(
            backend,
            api_key,
            config,
        ) == backend.configured(api_key, request, config)),
{
}

/// An action stands for the same action, with what it hands over.
pub proof fn law_views_of_actions(
    context: ServerContentContext,
    usage: UsageMetadataContext,
    list: Seq<EventAction>,
    i: int,
    message: String,
    outcome: Result<(), GeminiError>,
)
    ensures
        EventAction::CallServerContent(context)@ == (Action::CallServerContent {
            text: text_option(context.text),
            audio: samples_option(context.audio),
            is_done: context.is_done,
        }),
        EventAction::CallUsageMetadata(usage)@ == Action::CallUsageMetadata(usage.metadata),
        EventAction::Proceed@ is Proceed,
        EventAction::Stop@ is Stop,
        actions(list).len() == list.len(),
        0 <= i < list.len() ==> actions(list)[i] == list[i]@,
        LoopAction::Wait@ is Wait,
        LoopAction::Send(message)@ == Next::Send(message@),
        LoopAction::Process@ is Process,
        LoopAction::Goodbye@ is Goodbye,
        LoopAction::Close@ is Close,
        LoopAction::Finish(outcome)@ == Next::Finish(crate::error::unit_outcome(outcome)),
{
}

} // verus!
