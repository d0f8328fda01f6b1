//! What the backends have in common: the session's configuration, the events that
//! every service's messages are turned into, and the operations of a backend.
use crate::audio::fits_audio_message;
use crate::error::{text_outcome, Failure, GeminiError};
use crate::json::{
    json_text, lemma_members_with, parses_to, reads_back, Json, JsonObject, JsonValue,
};
use crate::text::{join, text_from_utf8, utf8_error_text};
use crate::types::{
    text_option, AudioTranscriptionConfig, Content, FunctionDeclaration, FunctionResponse,
    GenerationConfig, InputAudioNoiseReduction, RealtimeInputConfig, UsageMetadata,
};
use vstd::prelude::*;
use vstd::utf8::{
    decode_utf8, encode_utf8, encode_utf8_decode_utf8, encode_utf8_valid_utf8, valid_utf8,
};

verus! {

/// The services that a session can be held with.
#[derive(Debug, Clone, Copy, PartialEq, Eq, Structural)]
pub enum ApiProvider {
    Gemini,
    OpenAi,
}

/// An error that a service reports, or that its message gives rise to.
#[derive(Debug, Clone, PartialEq)]
pub struct ApiError {
    pub code: String,
    pub message: String,
    /// The client event that the error refers to.
    pub event_id: Option<String>,
}

/// Something that happens in a session, in the same form for every service.
#[derive(Debug, Clone, PartialEq)]
pub enum UnifiedServerEvent {
    /// The session is set up.
    SetupComplete,
    /// The model produced text or audio, or is done with a piece of it.
    ContentUpdate { text: Option<String>, audio: Option<Vec<i16>>, done: bool },
    /// A transcription of audio.
    TranscriptionUpdate { text: String, done: bool },
    /// The model wants a function called.
    ToolCall { id: Option<String>, name: String, args: JsonValue },
    /// The model's turn is over.
    ModelTurnComplete,
    /// The model has generated all of its output.
    ModelGenerationComplete,
    /// How many tokens were used.
    UsageMetadata(UsageMetadata),
    /// An error.
    Error(ApiError),
    /// A message that only this service has.
    ProviderSpecific(JsonValue),
    /// The server closes the connection.
    Close,
}

/// An event as mathematics: what a [`UnifiedServerEvent`] stands for.
#[verifier::ext_equal]
pub enum Event {
    SetupComplete,
    ContentUpdate { text: Option<Seq<char>>, audio: Option<Seq<i16>>, done: bool },
    TranscriptionUpdate { text: Seq<char>, done: bool },
    ToolCall { id: Option<Seq<char>>, name: Seq<char>, args: Json },
    ModelTurnComplete,
    ModelGenerationComplete,
    UsageMetadata(UsageMetadata),
    Error { code: Seq<char>, message: Seq<char>, event_id: Option<Seq<char>> },
    ProviderSpecific(Json),
    Close,
}

/// The view of samples that may be absent.
pub open spec fn samples_option(samples: Option<Vec<i16>>) -> Option<Seq<i16>> {
    match samples {
        Some(samples) => Some(samples@),
        None => None,
    }
}

impl View for UnifiedServerEvent {
    type V = Event;

    open spec fn view(&self) -> Event {
        match *self {
            UnifiedServerEvent::SetupComplete => Event::SetupComplete,
            UnifiedServerEvent::ContentUpdate { text, audio, done } => Event::ContentUpdate {
                text: text_option(text),
                audio: samples_option(audio),
                done,
            },
            UnifiedServerEvent::TranscriptionUpdate { text, done } => Event::TranscriptionUpdate {
                text: text@,
                done,
            },
            UnifiedServerEvent::ToolCall { id, name, args } => Event::ToolCall {
                id: text_option(id),
                name: name@,
                args: args@,
            },
            UnifiedServerEvent::ModelTurnComplete => Event::ModelTurnComplete,
            UnifiedServerEvent::ModelGenerationComplete => Event::ModelGenerationComplete,
            UnifiedServerEvent::UsageMetadata(metadata) => Event::UsageMetadata(metadata),
            UnifiedServerEvent::Error(error) => Event::Error {
                code: error.code@,
                message: error.message@,
                event_id: text_option(error.event_id),
            },
            UnifiedServerEvent::ProviderSpecific(value) => Event::ProviderSpecific(value@),
            UnifiedServerEvent::Close => Event::Close,
        }
    }
}

/// The events of a list.
pub open spec fn events(list: Seq<UnifiedServerEvent>) -> Seq<Event> {
    Seq::new(list.len(), |i: int| list[i]@)
}

/// The event list with one more event.
pub fn push_event(list: &mut Vec<UnifiedServerEvent>, event: UnifiedServerEvent)
    ensures
        events(final(list)@) == events(old(list)@).push(event@),
{
    list.push(event);
    assert(events(list@) =~= events(old(list)@).push(event@));
}

/// A function that the model may call, in the form of each service.
#[derive(Debug, Clone, PartialEq)]
pub struct ToolDefinition {
    pub name: String,
    pub gemini_declaration: FunctionDeclaration,
    pub openai_definition: JsonValue,
}

/// How a session is set up.
#[derive(Debug, Clone, PartialEq)]
pub struct BackendConfig {
    pub model: String,
    pub system_instruction: Option<Content>,
    pub generation_config: Option<GenerationConfig>,
    pub tools: Vec<ToolDefinition>,
    pub realtime_input_config: Option<RealtimeInputConfig>,
    pub output_audio_transcription: Option<AudioTranscriptionConfig>,
    pub voice: Option<String>,
    pub input_audio_format: Option<String>,
    pub output_audio_format: Option<String>,
    pub transcription_model: Option<String>,
    pub transcription_language: Option<String>,
    pub transcription_prompt: Option<String>,
    pub include_logprobs: bool,
    pub input_audio_noise_reduction: Option<InputAudioNoiseReduction>,
}

impl BackendConfig {
    /// Nothing is set but, perhaps, the model.
    pub open spec fn only_model(self) -> bool {
        &&& self.system_instruction is None
        &&& self.generation_config is None
        &&& self.tools@.len() == 0
        &&& self.realtime_input_config is None
        &&& self.output_audio_transcription is None
        &&& self.voice is None
        &&& self.input_audio_format is None
        &&& self.output_audio_format is None
        &&& self.transcription_model is None
        &&& self.transcription_language is None
        &&& self.transcription_prompt is None
        &&& !self.include_logprobs
        &&& self.input_audio_noise_reduction is None
    }

    /// The configuration with this model and nothing else set.
    pub fn for_model(model: String) -> (r: BackendConfig)
        ensures
            r.model == model,
            r.only_model(),
    {
        BackendConfig {
            model,
            system_instruction: None,
            generation_config: None,
            tools: Vec::new(),
            realtime_input_config: None,
            output_audio_transcription: None,
            voice: None,
            input_audio_format: None,
            output_audio_format: None,
            transcription_model: None,
            transcription_language: None,
            transcription_prompt: None,
            include_logprobs: false,
            input_audio_noise_reduction: None,
        }
    }
}

impl Default for BackendConfig {
    fn default() -> (r: BackendConfig)
        ensures
            r.model@ == Seq::<char>::empty(),
            r.only_model(),
    {
        BackendConfig::for_model(String::new())
    }
}

/// The path of a request, and what follows the `?`.
#[derive(Debug, Clone, PartialEq)]
pub struct Target {
    pub path: String,
    pub query: Option<String>,
}

/// The request that opens a WebSocket connection: the parts of its URI, and its
/// headers, whose names are in lower case.
#[derive(Debug, Clone, PartialEq)]
pub struct HandshakeRequest {
    pub scheme: Option<String>,
    pub authority: Option<String>,
    pub target: Option<Target>,
    pub headers: Vec<(String, String)>,
}

/// A request as mathematics: what a [`HandshakeRequest`] stands for.
#[verifier::ext_equal]
pub struct Request {
    pub scheme: Option<Seq<char>>,
    pub authority: Option<Seq<char>>,
    pub target: Option<(Seq<char>, Option<Seq<char>>)>,
    pub headers: Seq<(Seq<char>, Seq<char>)>,
}

impl View for Target {
    type V = (Seq<char>, Option<Seq<char>>);

    open spec fn view(&self) -> (Seq<char>, Option<Seq<char>>) {
        (self.path@, text_option(self.query))
    }
}

/// The headers of a list.
pub open spec fn header_list(headers: Seq<(String, String)>) -> Seq<(Seq<char>, Seq<char>)> {
    Seq::new(headers.len(), |i: int| (headers[i].0@, headers[i].1@))
}

impl View for HandshakeRequest {
    type V = Request;

    open spec fn view(&self) -> Request {
        Request {
            scheme: text_option(self.scheme),
            authority: text_option(self.authority),
            target: match self.target {
                Some(target) => Some(target@),
                None => None,
            },
            headers: header_list(self.headers@),
        }
    }
}

/// The outcome of preparing a request, as mathematics.
pub open spec fn request_outcome(r: Result<HandshakeRequest, GeminiError>) -> Result<
    Request,
    Failure,
> {
    match r {
        Ok(request) => Ok(request@),
        Err(e) => Err(e@),
    }
}

/// The texts of a list of messages.
pub open spec fn texts(messages: Seq<String>) -> Seq<Seq<char>> {
    Seq::new(messages.len(), |i: int| messages[i]@)
}

/// The message that carries a payload: its JSON text. A payload that [`reads_back`]
/// covers is what the text parses to.
pub fn message_of(payload: &JsonValue) -> (r: Result<String, GeminiError>)
    ensures
        r is Ok,
        r->Ok_0@ == json_text(payload@),
        reads_back(payload@) ==> parses_to(r->Ok_0@, payload@),
{
    match payload.to_text() {
        Ok(text) => Ok(text),
        Err(e) => Err(GeminiError::SerdeError(e)),
    }
}

/// The outcome of building messages, as mathematics.
pub open spec fn texts_outcome(r: Result<Vec<String>, GeminiError>) -> Result<
    Seq<Seq<char>>,
    Failure,
> {
    match r {
        Ok(messages) => Ok(texts(messages@)),
        Err(e) => Err(e@),
    }
}

/// A frame that arrives on the connection.
#[derive(Debug, Clone, PartialEq)]
pub enum Frame {
    Text(String),
    Binary(Vec<u8>),
    Ping,
    Pong,
    Raw,
    Close,
}

/// What a frame brings.
#[derive(Debug, Clone, PartialEq)]
pub enum Delivery {
    /// A message of the service.
    Message(String),
    /// Nothing to act on.
    Nothing,
    /// The end of the connection.
    Close,
}

/// A delivery as mathematics: what a [`Delivery`] stands for.
pub enum Arrival {
    Message(Seq<char>),
    Nothing,
    Close,
}

impl View for Delivery {
    type V = Arrival;

    open spec fn view(&self) -> Arrival {
        match *self {
            Delivery::Message(text) => Arrival::Message(text@),
            Delivery::Nothing => Arrival::Nothing,
            Delivery::Close => Arrival::Close,
        }
    }
}

/// What a frame brings: its text, where its bytes are text; nothing for control
/// frames other than a close.
pub open spec fn arrival(frame: Frame) -> Result<Arrival, Failure> {
    match frame {
        Frame::Text(text) => Ok(Arrival::Message(text@)),
        Frame::Binary(bytes) => if valid_utf8(bytes@) {
            Ok(Arrival::Message(decode_utf8(bytes@)))
        } else {
            Err(
                Failure::DeserializationError(
                    "Invalid UTF-8 in binary message: "@ + utf8_error_text(bytes@),
                ),
            )
        },
        Frame::Ping | Frame::Pong | Frame::Raw => Ok(Arrival::Nothing),
        Frame::Close => Ok(Arrival::Close),
    }
}

/// A text and its UTF-8 bytes in a binary frame bring the same.
pub proof fn law_bytes_arrive_as_text(text: String, bytes: Vec<u8>)
    requires
        bytes@ == encode_utf8(text@),
    ensures
        arrival(Frame::Binary(bytes)) == arrival(Frame::Text(text)),
{
    encode_utf8_valid_utf8(text@);
    encode_utf8_decode_utf8(text@);
}

/// What a frame brings.
pub fn deliver(frame: Frame) -> (r: Result<Delivery, GeminiError>)
    ensures
        match r {
            Ok(delivery) => arrival(frame) == Ok::<Arrival, Failure>(delivery@),
            Err(e) => arrival(frame) == Err::<Arrival, Failure>(e@),
        },
{
    match frame {
        Frame::Text(text) => Ok(Delivery::Message(text)),
        Frame::Binary(bytes) => match text_from_utf8(bytes) {
            Ok(text) => Ok(Delivery::Message(text)),
            Err(e) => Err(
                GeminiError::DeserializationError(
                    join("Invalid UTF-8 in binary message: ", e.as_str()),
                ),
            ),
        },
        Frame::Ping | Frame::Pong | Frame::Raw => Ok(Delivery::Nothing),
        Frame::Close => Ok(Delivery::Close),
    }
}

/// A call to make on the model's behalf.
#[derive(Debug, Clone, PartialEq)]
pub struct ToolRequest {
    pub id: Option<String>,
    pub name: String,
    pub args: JsonValue,
}

/// A call as mathematics: what a [`ToolRequest`] stands for.
#[verifier::ext_equal]
pub struct Call {
    pub id: Option<Seq<char>>,
    pub name: Seq<char>,
    pub args: Json,
}

impl View for ToolRequest {
    type V = Call;

    open spec fn view(&self) -> Call {
        Call { id: text_option(self.id), name: self.name@, args: self.args@ }
    }
}

/// The calls of a list.
pub open spec fn calls(list: Seq<ToolRequest>) -> Seq<Call> {
    Seq::new(list.len(), |i: int| list[i]@)
}

/// What came of a call.
#[derive(Debug, Clone, PartialEq)]
pub enum ToolOutcome {
    /// The handler returned a value.
    Returned(JsonValue),
    /// The handler failed, for the reason given.
    Failed(String),
    /// There is no handler under the call's name.
    NotRegistered,
}

/// The JSON of an error that a call's result reports.
pub open spec fn error_json(message: Seq<char>) -> Json {
    Json::object().with("error"@, Json::String(message))
}

/// What is answered to a call: the value that came of it, or an object that says
/// why there is none.
pub open spec fn answer(outcome: ToolOutcome) -> Json {
    match outcome {
        ToolOutcome::Returned(value) => value@,
        ToolOutcome::Failed(reason) => error_json(reason@),
        ToolOutcome::NotRegistered => error_json("Function not implemented by client."@),
    }
}

/// The response to a call.
pub fn respond(call: ToolRequest, outcome: ToolOutcome) -> (r: FunctionResponse)
    ensures
        r.name@ == call.name@,
        r.id == call.id,
        r.response@ == answer(outcome),
{
    let response = match outcome {
        ToolOutcome::Returned(value) => value,
        ToolOutcome::Failed(reason) => JsonValue::Object(
            JsonObject::new().with_text("error", reason.as_str()),
        ),
        ToolOutcome::NotRegistered => JsonValue::Object(
            JsonObject::new().with_text("error", "Function not implemented by client."),
        ),
    };
    FunctionResponse { name: call.name, response, id: call.id }
}

/// The calls that events announce, in order.
pub open spec fn announced(list: Seq<Event>) -> Seq<Call>
    decreases list.len(),
{
    if list.len() == 0 {
        Seq::empty()
    } else {
        let before = announced(list.drop_last());
        match list.last() {
            Event::ToolCall { id, name, args } => before.push(Call { id, name, args }),
            _ => before,
        }
    }
}

/// What is announced by one list of events after another.
pub proof fn lemma_announced_concat(a: Seq<Event>, b: Seq<Event>)
    ensures
        announced(a + b) == announced(a) + announced(b),
    decreases b.len(),
{
    if b.len() == 0 {
        assert(a + b =~= a);
        assert(announced(a) + announced(b) =~= announced(a));
    } else {
        assert((a + b).drop_last() =~= a + b.drop_last());
        lemma_announced_concat(a, b.drop_last());
        assert(announced(a + b) =~= announced(a) + announced(b));
    }
}

/// Events without a tool call announce nothing.
pub proof fn lemma_announced_none(list: Seq<Event>)
    requires
        forall|i: int| 0 <= i < list.len() ==> !((#[trigger] list[i]) is ToolCall),
    ensures
        announced(list) == Seq::<Call>::empty(),
    decreases list.len(),
{
    if list.len() > 0 {
        lemma_announced_none(list.drop_last());
    }
}

/// What a message of the service comes to: events, in order; the calls to make
/// before the events are handed on; and an account of token usage that is still
/// JSON.
#[derive(Debug, Clone, PartialEq)]
pub struct Batch {
    pub events: Vec<UnifiedServerEvent>,
    pub calls: Vec<ToolRequest>,
    pub usage: Option<JsonValue>,
}

/// A batch as mathematics: what a [`Batch`] stands for.
#[verifier::ext_equal]
pub struct Outcome {
    pub events: Seq<Event>,
    pub calls: Seq<Call>,
    pub usage: Option<Json>,
}

impl View for Batch {
    type V = Outcome;

    open spec fn view(&self) -> Outcome {
        Outcome {
            events: events(self.events@),
            calls: calls(self.calls@),
            usage: match self.usage {
                Some(usage) => Some(usage@),
                None => None,
            },
        }
    }
}

impl Outcome {
    /// Nothing comes of the message.
    pub open spec fn nothing() -> Outcome {
        Outcome { events: Seq::empty(), calls: Seq::empty(), usage: None }
    }

    /// Just these events come of the message.
    pub open spec fn just(events: Seq<Event>) -> Outcome {
        Outcome { events, calls: Seq::empty(), usage: None }
    }
}

impl Batch {
    /// The batch of nothing.
    pub fn nothing() -> (r: Batch)
        ensures
            r@ == Outcome::nothing(),
    {
        Batch::just(Vec::new())
    }

    /// The batch of these events.
    pub fn just(list: Vec<UnifiedServerEvent>) -> (r: Batch)
        ensures
            r@ == Outcome::just(events(list@)),
    {
        let r = Batch { events: list, calls: Vec::new(), usage: None };
        assert(r@ =~= Outcome::just(events(list@)));
        r
    }

    /// The batch of one event.
    pub fn one(event: UnifiedServerEvent) -> (r: Batch)
        ensures
            r@ == Outcome::just(seq![event@]),
    {
        let mut list: Vec<UnifiedServerEvent> = Vec::new();
        push_event(&mut list, event);
        assert(events(list@) =~= seq![event@]);
        Batch::just(list)
    }
}

/// Events, and the account of token usage where there is one.
pub open spec fn with_usage(list: Seq<Event>, usage: Option<UsageMetadata>) -> Seq<Event> {
    match usage {
        Some(metadata) => list.push(Event::UsageMetadata(metadata)),
        None => list,
    }
}

/// The account of token usage comes last, after all the other events; without one
/// the events are as they were.
pub proof fn law_usage_comes_last(list: Seq<Event>, metadata: UsageMetadata)
    ensures
        with_usage(list, None) == list,
        with_usage(list, Some(metadata)).len() == list.len() + 1,
        with_usage(list, Some(metadata)).last() == Event::UsageMetadata(metadata),
        forall|i: int|
            0 <= i < list.len() ==> (#[trigger] with_usage(list, Some(metadata))[i]) == list[i],
{
}

/// The events of a batch, once its account of token usage is read; where it could
/// not be read, nothing is reported of it.
pub fn complete_usage(batch: Batch, usage: Option<UsageMetadata>) -> (r: Vec<UnifiedServerEvent>)
    ensures
        events(r@) == with_usage(batch@.events, usage),
{
    let Batch { events: mut list, calls: _, usage: _ } = batch;
    if let Some(metadata) = usage {
        push_event(&mut list, UnifiedServerEvent::UsageMetadata(metadata));
    }
    list
}

/// The outcome of reading a message, as mathematics.
pub open spec fn batch_outcome(r: Result<Batch, GeminiError>) -> Result<Outcome, Failure> {
    match r {
        Ok(batch) => Ok(batch@),
        Err(e) => Err(e@),
    }
}

/// A service that a session can be held with: where it is reached, how the
/// connection is opened, and the messages that it takes.
pub trait LiveApiBackend {
    /// The service.
    spec fn provider(&self) -> ApiProvider;

    /// The URL of the service.
    spec fn url(&self, api_key: Seq<char>) -> Result<Seq<char>, Failure>;

    /// The request, made ready for the service.
    spec fn configured(
        &self,
        api_key: Seq<char>,
        request: Request,
        config: BackendConfig,
    ) -> Result<Request, Failure>;

    /// The messages that set the session up.
    spec fn initial_messages(&self, config: BackendConfig) -> Result<Seq<Seq<char>>, Failure>;

    /// The message that changes the session's setup.
    spec fn session_update(&self, config: BackendConfig) -> Result<Seq<char>, Failure>;

    /// The message that carries a turn of text.
    spec fn text_turn(&self, text: Seq<char>) -> Result<Seq<char>, Failure>;

    /// The message that carries a chunk of audio.
    spec fn audio_chunk(
        &self,
        samples: Seq<i16>,
        sample_rate: u32,
        config: BackendConfig,
    ) -> Result<Seq<char>, Failure>;

    /// The message that ends the audio stream.
    spec fn audio_stream_end(&self) -> Result<Seq<char>, Failure>;

    /// The message that carries the results of calls.
    spec fn tool_response(&self, responses: Seq<FunctionResponse>) -> Result<Seq<char>, Failure>;

    /// The message that asks for a response.
    spec fn request_response(&self) -> Result<Seq<char>, Failure>;

    fn provider_type(&self) -> (r: ApiProvider)
        ensures
            r == self.provider(),
    ;

    fn get_websocket_url(&self, api_key: &str) -> (r: Result<String, GeminiError>)
        ensures
            text_outcome(r) == self.url(api_key@),
    ;

    fn configure_websocket_request(
        &self,
        api_key: &str,
        request: HandshakeRequest,
        config: &BackendConfig,
    ) -> (r: Result<HandshakeRequest, GeminiError>)
        ensures
            request_outcome(r) == self.configured(api_key@, request@, *config),
    ;

    fn get_initial_messages(&self, config: &BackendConfig) -> (r: Result<
        Vec<String>,
        GeminiError,
    >)
        ensures
            texts_outcome(r) == self.initial_messages(*config),
    ;

    fn build_session_update_message(&self, config: &BackendConfig) -> (r: Result<
        String,
        GeminiError,
    >)
        ensures
            text_outcome(r) == self.session_update(*config),
    ;

    fn build_text_turn_message(&self, text: String) -> (r: Result<String, GeminiError>)
        ensures
            text_outcome(r) == self.text_turn(text@),
    ;

    fn build_audio_chunk_message(
        &self,
        audio_samples: &[i16],
        sample_rate: u32,
        config: &BackendConfig,
    ) -> (r: Result<String, GeminiError>)
        requires
            fits_audio_message(audio_samples@.len()),
        ensures
            text_outcome(r) == self.audio_chunk(audio_samples@, sample_rate, *config),
    ;

    fn build_audio_stream_end_message(&self) -> (r: Result<String, GeminiError>)
        ensures
            text_outcome(r) == self.audio_stream_end(),
    ;

    fn build_tool_response_message(&self, responses: Vec<FunctionResponse>) -> (r: Result<
        String,
        GeminiError,
    >)
        ensures
            text_outcome(r) == self.tool_response(responses@),
    ;

    fn build_request_response_message(&self) -> (r: Result<String, GeminiError>)
        ensures
            text_outcome(r) == self.request_response(),
    ;
}

/// A text arrives as it is, and bytes as the text that they encode; other bytes are
/// refused. Only a close frame closes, and the remaining frames bring nothing.
pub proof fn law_arrivals(text: String, bytes: Vec<u8>)
    ensures
        arrival(Frame::Text(text)) == Ok::<Arrival, Failure>(Arrival::Message(text@)),
        valid_utf8(bytes@) ==> arrival(Frame::Binary(bytes)) == Ok::<Arrival, Failure>(
            Arrival::Message(decode_utf8(bytes@)),
        ),
        !valid_utf8(bytes@) ==> arrival(Frame::Binary(bytes)) == Err::<Arrival, Failure>(
            Failure::DeserializationError(
                "Invalid UTF-8 in binary message: "@ + utf8_error_text(bytes@),
            ),
        ),
        arrival(Frame::Ping) == Ok::<Arrival, Failure>(Arrival::Nothing),
        arrival(Frame::Pong) == Ok::<Arrival, Failure>(Arrival::Nothing),
        arrival(Frame::Raw) == Ok::<Arrival, Failure>(Arrival::Nothing),
        arrival(Frame::Close) == Ok::<Arrival, Failure>(Arrival::Close),
{
}

/// An error is an object that says why, under `error`, and nothing else.
proof fn lemma_error_json(message: Seq<char>)
    ensures
        error_json(message).member("error"@) == Some(Json::String(message)),
        forall|other: Seq<char>|
            other != "error"@ ==> (#[trigger] error_json(message).member(other)) is None,
{
    let w0 = Json::object();
    assert forall|key: Seq<char>| #[trigger] w0.member(key) is None by {}
    let w1 = w0.with_optional("error"@, Some(Json::String(message)));
    lemma_members_with(w0, "error"@, Some(Json::String(message)));
    assert(error_json(message) == w1);
}

/// A call is answered with the very value that its handler returned; with the reason
/// where the handler failed; and with a remark where there is no handler.
pub proof fn law_answers(value: JsonValue, reason: String, other: Seq<char>)
    ensures
        answer(ToolOutcome::Returned(value)) == value@,
        answer(ToolOutcome::Failed(reason)).member("error"@) == Some(Json::String(reason@)),
        answer(ToolOutcome::NotRegistered).member("error"@) == Some(
            Json::String("Function not implemented by client."@),
        ),
        other != "error"@ ==> answer(ToolOutcome::Failed(reason)).member(other) is None && answer(
            ToolOutcome::NotRegistered,
        ).member(other) is None,
{
    lemma_error_json(reason@);
    lemma_error_json("Function not implemented by client."@);
}

/// A tool call among events announces its call, after those before it; no other
/// event announces anything.
pub proof fn law_announced_one_by_one(list: Seq<Event>, event: Event)
    ensures
        announced(Seq::empty()) == Seq::<Call>::empty(),
        event matches Event::ToolCall { id, name, args } ==> announced(list.push(event))
            == announced(list).push(Call { id, name, args }),
        !(event is ToolCall) ==> announced(list.push(event)) == announced(list),
{
    assert(list.push(event).drop_last() =~= list);
}

/// What is in one list of events after another is in one of them.
pub proof fn lemma_contains_concat(a: Seq<Event>, b: Seq<Event>, event: Event)
    ensures
        (a + b).contains(event) <==> a.contains(event) || b.contains(event),
{
    if a.contains(event) {
        let i = choose|i: int| 0 <= i < a.len() && a[i] == event;
        assert((a + b)[i] == event);
    }
    if b.contains(event) {
        let i = choose|i: int| 0 <= i < b.len() && b[i] == event;
        assert((a + b)[a.len() + i] == event);
    }
    if (a + b).contains(event) {
        let i = choose|i: int| 0 <= i < (a + b).len() && (a + b)[i] == event;
        if i < a.len() {
            assert(a[i] == event);
        } else {
            assert(b[i - a.len()] == event);
        }
    }
}

/// A new configuration has its model and no other setting.
pub proof fn law_only_model(config: BackendConfig)
    requires
        config.only_model(),
    ensures
        config.system_instruction is None && config.generation_config is None
            && config.tools@.len() == 0 && config.realtime_input_config is None
            && config.output_audio_transcription is None && config.voice is None
            && config.input_audio_format is None && config.output_audio_format is None
            && config.transcription_model is None && config.transcription_language is None
            && config.transcription_prompt is None && !config.include_logprobs
            && config.input_audio_noise_reduction is None,
{
}

/// An event stands for the same event, with what it holds.
pub proof fn law_views_of_events(
    text: String,
    samples: Vec<i16>,
    flag: bool,
    args: JsonValue,
    metadata: UsageMetadata,
    error: ApiError,
)
    ensures
        UnifiedServerEvent::SetupComplete@ == Event::SetupComplete,
        UnifiedServerEvent::ModelTurnComplete@ == Event::ModelTurnComplete,
        UnifiedServerEvent::ModelGenerationComplete@ == Event::ModelGenerationComplete,
        UnifiedServerEvent::Close@ == Event::Close,
        (UnifiedServerEvent::ContentUpdate {
            text: Some(text),
            audio: Some(samples),
            done: flag,
        })@ == (Event::ContentUpdate { text: Some(text@), audio: Some(samples@), done: flag }),
        (UnifiedServerEvent::ContentUpdate { text: None, audio: None, done: flag })@ == (
        Event::ContentUpdate { text: None, audio: None, done: flag }),
        (UnifiedServerEvent::TranscriptionUpdate { text, done: flag })@ == (
        Event::TranscriptionUpdate { text: text@, done: flag }),
        (UnifiedServerEvent::ToolCall { id: Some(text), name: text, args })@ == (Event::ToolCall {
            id: Some(text@),
            name: text@,
            args: args@,
        }),
        (UnifiedServerEvent::ToolCall { id: None, name: text, args })@ == (Event::ToolCall {
            id: None,
            name: text@,
            args: args@,
        }),
        UnifiedServerEvent::UsageMetadata(metadata)@ == Event::UsageMetadata(metadata),
        UnifiedServerEvent::Error(error)@ == (Event::Error {
            code: error.code@,
            message: error.message@,
            event_id: text_option(error.event_id),
        }),
        UnifiedServerEvent::ProviderSpecific(args)@ == Event::ProviderSpecific(args@),
        samples_option(Some(samples)) == Some(samples@),
        samples_option(None) is None,
{
}

/// Lists stand for what is in them, each in its place.
pub proof fn law_views_of_lists(
    list: Seq<UnifiedServerEvent>,
    requests: Seq<ToolRequest>,
    messages: Seq<String>,
    headers: Seq<(String, String)>,
    i: int,
)
    ensures
        events(list).len() == list.len(),
        0 <= i < list.len() ==> events(list)[i] == list[i]@,
        calls(requests).len() == requests.len(),
        0 <= i < requests.len() ==> calls(requests)[i] == requests[i]@,
        texts(messages).len() == messages.len(),
        0 <= i < messages.len() ==> texts(messages)[i] == messages[i]@,
        header_list(headers).len() == headers.len(),
        0 <= i < headers.len() ==> header_list(headers)[i] == (headers[i].0@, headers[i].1@),
{
}

/// Requests, calls, batches and deliveries stand for what they hold, and outcomes for the
/// same outcomes.
pub proof fn law_views_of_messages(
    request: HandshakeRequest,
    call: ToolRequest,
    batch: Batch,
    messages: Vec<String>,
    text: String,
    error: GeminiError,
)
    ensures
        request@.scheme == text_option(request.scheme),
        request@.authority == text_option(request.authority),
        request@.headers == header_list(request.headers@),
        request.target is None ==> request@.target is None,
        request.target matches Some(target) ==> request@.target == Some(
            (target.path@, text_option(target.query)),
        ),
        call@.id == text_option(call.id) && call@.name == call.name@ && call@.args == call.args@,
        batch@.events == events(batch.events@) && batch@.calls == calls(batch.calls@),
        batch.usage is None ==> batch@.usage is None,
        batch.usage matches Some(usage) ==> batch@.usage == Some(usage@),
        Delivery::Message(text)@ == Arrival::Message(text@),
        Delivery::Nothing@ == Arrival::Nothing,
        Delivery::Close@ == Arrival::Close,
        request_outcome(Ok(request)) == Ok::<Request, Failure>(request@),
        request_outcome(Err(error)) == Err::<Request, Failure>(error@),
        texts_outcome(Ok(messages)) == Ok::<Seq<Seq<char>>, Failure>(texts(messages@)),
        texts_outcome(Err(error)) == Err::<Seq<Seq<char>>, Failure>(error@),
        batch_outcome(Ok(batch)) == Ok::<Outcome, Failure>(batch@),
        batch_outcome(Err(error)) == Err::<Outcome, Failure>(error@),
{
}

} // verus!
