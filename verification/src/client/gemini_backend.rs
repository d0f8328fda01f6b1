//! Gemini Live: its messages, and what its events come to.
use crate::audio::{
    audio_of, base64_decoded, base64_text, decode_audio, encode_audio, pcm_bytes, pcm_samples,
    samples_outcome,
};
use crate::client::backend::{
    announced, answer, arrival, batch_outcome, calls, events, law_bytes_arrive_as_text,
    lemma_announced_concat, lemma_announced_none, lemma_contains_concat, message_of, push_event,
    respond, texts, ApiError, ApiProvider, Arrival, BackendConfig, Batch, Call, Event, Frame,
    HandshakeRequest, LiveApiBackend, Outcome, Request, ToolOutcome, ToolRequest,
    UnifiedServerEvent,
};
use crate::client::request::{
    no_dot_segment, parse_url, parsed_url, plain_char, plain_host, plain_path, plain_query,
    target_limit, Address,
};
use crate::error::{Failure, GeminiError};
use crate::json::{
    json_text, lemma_members_with, lemma_plain_reads_back, lemma_plain_with, parses_to, reads_back,
    Json, JsonObject, JsonValue,
};
use crate::text::{
    decimal, decimal_text, join, lemma_trimmed_push_space, starts_with, trim, trimmed,
};
use crate::types::{
    contents, contents_json, function_responses, function_responses_json, law_response_wire,
    optional_audio_transcription_config, optional_audio_transcription_config_json, optional_content,
    optional_content_json, optional_generation_config, optional_generation_config_json,
    optional_realtime_input_config, optional_realtime_input_config_json, text_json, text_option,
    BidiGenerateContentServerContent, Blob, Content, FunctionCall, FunctionResponse, Part, Role,
    ServerMessage, UsageMetadata,
};
use vstd::prelude::*;
use vstd::utf8::encode_utf8;

verus! {

/// Gemini Live.
pub struct GeminiBackend;

/// The declarations of the tools, as one group; nothing where there are none.
pub open spec fn declared_tools(config: BackendConfig) -> Option<Json> {
    if config.tools@.len() == 0 {
        None
    } else {
        let declarations = Seq::new(
            config.tools@.len(),
            |i: int| config.tools@[i].gemini_declaration.wire(),
        );
        let group = Json::object().with("functionDeclarations"@, Json::Array(declarations));
        Some(Json::Array(seq![group]))
    }
}

/// The payload that sets the session up.
pub open spec fn setup_json(config: BackendConfig) -> Json {
    let setup = Json::object()
        .with("model"@, Json::String(config.model@))
        .with_optional("generationConfig"@, optional_generation_config(config.generation_config))
        .with_optional("systemInstruction"@, optional_content(config.system_instruction))
        .with_optional("tools"@, declared_tools(config))
        .with_optional(
            "realtimeInputConfig"@,
            optional_realtime_input_config(config.realtime_input_config),
        )
        .with_optional(
            "outputAudioTranscription"@,
            optional_audio_transcription_config(config.output_audio_transcription),
        );
    Json::object().with("setup"@, setup)
}

/// The declarations of the tools, as one group; nothing where there are none.
fn declared_tools_payload(config: &BackendConfig) -> (r: Option<JsonValue>)
    ensures
        crate::json::tree_option(r) == declared_tools(*config),
{
    if config.tools.len() == 0 {
        return None;
    }
    let mut items: Vec<JsonValue> = Vec::new();
    for i in 0..config.tools.len()
        invariant
            items.len() == i,
            forall|j: int|
                0 <= j < i ==> (#[trigger] items@[j])@
                    == config.tools@[j].gemini_declaration.wire(),
    {
        items.push(config.tools[i].gemini_declaration.to_json());
    }
    let declarations = JsonValue::Array(items);
    assert(declarations@->Array_0 =~= Seq::new(
        config.tools@.len(),
        |i: int| config.tools@[i].gemini_declaration.wire(),
    ));
    let group = JsonValue::Object(
        JsonObject::new().with_value("functionDeclarations", declarations),
    );
    let ghost group_json = group@;
    let mut groups: Vec<JsonValue> = Vec::new();
    groups.push(group);
    let r = JsonValue::Array(groups);
    assert(r@->Array_0 =~= seq![group_json]);
    Some(r)
}

/// The payload that sets the session up.
pub fn setup_payload(config: &BackendConfig) -> (r: JsonValue)
    ensures
        r@ == setup_json(*config),
{
    let setup = JsonObject::new().with_text("model", config.model.as_str());
    let setup = setup.with_optional(
        "generationConfig",
        optional_generation_config_json(&config.generation_config),
    );
    let setup = setup.with_optional(
        "systemInstruction",
        optional_content_json(&config.system_instruction),
    );
    let setup = setup.with_optional("tools", declared_tools_payload(config));
    let setup = setup.with_optional(
        "realtimeInputConfig",
        optional_realtime_input_config_json(&config.realtime_input_config),
    );
    let setup = setup.with_optional(
        "outputAudioTranscription",
        optional_audio_transcription_config_json(&config.output_audio_transcription),
    );
    JsonValue::Object(JsonObject::new().with_value("setup", JsonValue::Object(setup)))
}

/// The payload of a complete turn of text by the user.
pub open spec fn text_turn_json(text: Seq<char>) -> Json {
    let part = Json::object().with("text"@, Json::String(text));
    let turn = Json::object()
        .with("parts"@, Json::Array(seq![part]))
        .with("role"@, Json::String("user"@));
    let content = Json::object()
        .with("turns"@, Json::Array(seq![turn]))
        .with("turnComplete"@, Json::Bool(true));
    Json::object().with("clientContent"@, content)
}

/// The payload of a complete turn of text by the user.
pub fn text_turn_payload(text: String) -> (r: JsonValue)
    ensures
        r@ == text_turn_json(text@),
{
    let part = Part { text: Some(text), inline_data: None };
    let ghost part_wire = part.wire();
    let mut parts: Vec<Part> = Vec::new();
    parts.push(part);
    assert(crate::types::parts(parts@)->Array_0 =~= seq![part_wire]);
    let turn = Content { parts, role: Some(Role::User) };
    let ghost turn_wire = turn.wire();
    let mut turns: Vec<Content> = Vec::new();
    turns.push(turn);
    assert(contents(turns@)->Array_0 =~= seq![turn_wire]);
    let content = JsonObject::new().with_value("turns", contents_json(&turns)).with_value(
        "turnComplete",
        JsonValue::Bool(true),
    );
    JsonValue::Object(
        JsonObject::new().with_value("clientContent", JsonValue::Object(content)),
    )
}

/// The payload of a text turn has no numbers and little nesting.
proof fn lemma_text_turn_plain(text: Seq<char>)
    ensures
        text_turn_json(text).plain_within(6),
{
    let part = Json::object().with("text"@, Json::String(text));
    lemma_plain_with(Json::object(), "text"@, Json::String(text), 1);
    let parts = Json::Array(seq![part]);
    assert(parts.plain_within(2));
    let turn = Json::object().with("parts"@, parts);
    lemma_plain_with(Json::object(), "parts"@, parts, 3);
    lemma_plain_with(turn, "role"@, Json::String("user"@), 3);
    let turn = turn.with("role"@, Json::String("user"@));
    let turns = Json::Array(seq![turn]);
    assert(turns.plain_within(4));
    let content = Json::object().with("turns"@, turns);
    lemma_plain_with(Json::object(), "turns"@, turns, 5);
    lemma_plain_with(content, "turnComplete"@, Json::Bool(true), 5);
    let content = content.with("turnComplete"@, Json::Bool(true));
    lemma_plain_with(Json::object(), "clientContent"@, content, 6);
}

/// The kind of data that a chunk of audio is.
pub open spec fn audio_mime_type(sample_rate: u32) -> Seq<char> {
    "audio/pcm;rate="@ + decimal_text(sample_rate as nat)
}

/// The payload of a chunk of audio in base64.
pub open spec fn audio_chunk_json(audio: Seq<char>, sample_rate: u32) -> Json {
    let blob = Json::object()
        .with("mimeType"@, Json::String(audio_mime_type(sample_rate)))
        .with("data"@, Json::String(audio));
    Json::object().with("realtimeInput"@, Json::object().with("audio"@, blob))
}

/// The payload that ends the audio stream.
pub open spec fn audio_stream_end_json() -> Json {
    Json::object().with(
        "realtimeInput"@,
        Json::object().with("audioStreamEnd"@, Json::Bool(true)),
    )
}

/// The payload that carries the results of calls.
pub open spec fn tool_response_json(responses: Json) -> Json {
    Json::object().with(
        "toolResponse"@,
        Json::object().with("functionResponses"@, responses),
    )
}

/// The URL that the service is reached at; the key goes into its query.
pub open spec fn key_url(api_key: Seq<char>) -> Seq<char> {
    "wss://generativelanguage.googleapis.com/ws/google.ai.generativelanguage.v1beta.GenerativeService.BidiGenerateContent?key="@
        + api_key
}

/// Where the service is reached; the key goes into the query.
pub open spec fn gemini_address(api_key: Seq<char>) -> Address {
    Address {
        host: "generativelanguage.googleapis.com"@,
        path: "/ws/google.ai.generativelanguage.v1beta.GenerativeService.BidiGenerateContent"@,
        query: Some("key="@ + api_key),
    }
}

/// The URL that the service is reached at: as it is written, where the key has
/// nothing in it to escape, and otherwise what the URL parser makes of it.
pub open spec fn gemini_url(api_key: Seq<char>) -> Result<Seq<char>, Failure> {
    if gemini_address(api_key).plain() {
        Ok(key_url(api_key))
    } else {
        match parsed_url(key_url(api_key)) {
            Ok(url) => Ok(url),
            Err(e) => Err(Failure::ConfigurationError("Invalid Gemini URL: "@ + e)),
        }
    }
}

/// The written URL is that of the address.
pub proof fn lemma_gemini_address(api_key: Seq<char>)
    ensures
        gemini_address(api_key).text() == key_url(api_key),
{
    reveal_strlit("wss://generativelanguage.googleapis.com/ws/google.ai.generativelanguage.v1beta.GenerativeService.BidiGenerateContent?key=");
    reveal_strlit("wss://");
    reveal_strlit("generativelanguage.googleapis.com");
    reveal_strlit("/ws/google.ai.generativelanguage.v1beta.GenerativeService.BidiGenerateContent");
    reveal_strlit("?");
    reveal_strlit("key=");
    assert("wss://"@ + "generativelanguage.googleapis.com"@
        + "/ws/google.ai.generativelanguage.v1beta.GenerativeService.BidiGenerateContent"@
        + "?"@ + "key="@
        =~= "wss://generativelanguage.googleapis.com/ws/google.ai.generativelanguage.v1beta.GenerativeService.BidiGenerateContent?key="@);
    assert(gemini_address(api_key).text() =~= key_url(api_key));
}

/// The address is plain where the key is plain and not too long.
pub proof fn lemma_gemini_address_plain(api_key: Seq<char>)
    requires
        plain_query(api_key),
        key_url(api_key).len() <= target_limit(),
    ensures
        gemini_address(api_key).plain(),
{
    lemma_gemini_address(api_key);
    reveal_strlit("generativelanguage.googleapis.com");
    reveal_strlit("/ws/google.ai.generativelanguage.v1beta.GenerativeService.BidiGenerateContent");
    reveal_strlit("key=");
    let host = seq![
        'g', 'e', 'n', 'e', 'r', 'a', 't', 'i', 'v', 'e', 'l', 'a', 'n', 'g', 'u', 'a', 'g', 'e',
        '.', 'g', 'o', 'o', 'g', 'l', 'e', 'a', 'p', 'i', 's', '.', 'c', 'o', 'm',
    ];
    let path = seq![
        '/', 'w', 's', '/', 'g', 'o', 'o', 'g', 'l', 'e', '.', 'a', 'i', '.', 'g', 'e', 'n', 'e',
        'r', 'a', 't', 'i', 'v', 'e', 'l', 'a', 'n', 'g', 'u', 'a', 'g', 'e', '.', 'v', '1', 'b',
        'e', 't', 'a', '.', 'G', 'e', 'n', 'e', 'r', 'a', 't', 'i', 'v', 'e', 'S', 'e', 'r', 'v',
        'i', 'c', 'e', '.', 'B', 'i', 'd', 'i', 'G', 'e', 'n', 'e', 'r', 'a', 't', 'e', 'C', 'o',
        'n', 't', 'e', 'n', 't',
    ];
    assert("generativelanguage.googleapis.com"@ =~= host);
    assert("/ws/google.ai.generativelanguage.v1beta.GenerativeService.BidiGenerateContent"@ =~= path);
    assert(plain_host(host));
    assert(plain_path(path));
    assert(no_dot_segment(path));
    let query = "key="@ + api_key;
    assert forall|i: int| 0 <= i < query.len() implies plain_char(#[trigger] query[i]) || query[i]
        == '=' || query[i] == '&' by {
        if i >= 4 {
            assert(query[i] == api_key[i - 4]);
        }
    }
}

impl LiveApiBackend for GeminiBackend {
    open spec fn provider(&self) -> ApiProvider {
        ApiProvider::Gemini
    }

    open spec fn url(&self, api_key: Seq<char>) -> Result<Seq<char>, Failure> {
        gemini_url(api_key)
    }

    open spec fn configured(
        &self,
        api_key: Seq<char>,
        request: Request,
        config: BackendConfig,
    ) -> Result<Request, Failure> {
        Ok(request)
    }

    open spec fn initial_messages(&self, config: BackendConfig) -> Result<
        Seq<Seq<char>>,
        Failure,
    > {
        Ok(seq![json_text(setup_json(config))])
    }

    open spec fn session_update(&self, config: BackendConfig) -> Result<Seq<char>, Failure> {
        Err(Failure::UnsupportedOperation("Session update message not applicable for Gemini"@))
    }

    open spec fn text_turn(&self, text: Seq<char>) -> Result<Seq<char>, Failure> {
        Ok(json_text(text_turn_json(text)))
    }

    open spec fn audio_chunk(
        &self,
        samples: Seq<i16>,
        sample_rate: u32,
        config: BackendConfig,
    ) -> Result<Seq<char>, Failure> {
        if samples.len() == 0 {
            Err(Failure::ConfigurationError("Audio samples cannot be empty"@))
        } else {
            Ok(json_text(audio_chunk_json(base64_text(pcm_bytes(samples)), sample_rate)))
        }
    }

    open spec fn audio_stream_end(&self) -> Result<Seq<char>, Failure> {
        Ok(json_text(audio_stream_end_json()))
    }

    open spec fn tool_response(&self, responses: Seq<FunctionResponse>) -> Result<
        Seq<char>,
        Failure,
    > {
        Ok(json_text(tool_response_json(function_responses(responses))))
    }

    open spec fn request_response(&self) -> Result<Seq<char>, Failure> {
        Err(
            Failure::UnsupportedOperation(
                "Explicit response request not applicable for Gemini"@,
            ),
        )
    }

    fn provider_type(&self) -> (r: ApiProvider) {
        ApiProvider::Gemini
    }

    fn get_websocket_url(&self, api_key: &str) -> (r: Result<String, GeminiError>) {
        let url = join(
            "wss://generativelanguage.googleapis.com/ws/google.ai.generativelanguage.v1beta.GenerativeService.BidiGenerateContent?key=",
            api_key,
        );
        proof {
            lemma_gemini_address(api_key@);
        }
        match parse_url(url.as_str()) {
            Ok(url) => Ok(url),
            Err(e) => Err(
                GeminiError::ConfigurationError(join("Invalid Gemini URL: ", e.as_str())),
            ),
        }
    }

    fn configure_websocket_request(
        &self,
        api_key: &str,
        request: HandshakeRequest,
        config: &BackendConfig,
    ) -> (r: Result<HandshakeRequest, GeminiError>)
        ensures
            r == Ok::<HandshakeRequest, GeminiError>(request),
    {
        Ok(request)
    }

    /// One message: the setup. Where [`reads_back`] covers the setup's payload, the
    /// message parses to it.
    fn get_initial_messages(&self, config: &BackendConfig) -> (r: Result<
        Vec<String>,
        GeminiError,
    >)
        ensures
            r matches Ok(messages) && messages@.len() == 1 && (reads_back(setup_json(*config))
                ==> parses_to(messages@[0]@, setup_json(*config))),
    {
        match message_of(&setup_payload(config)) {
            Ok(message) => {
                let mut messages: Vec<String> = Vec::new();
                messages.push(message);
                assert(texts(messages@) =~= seq![json_text(setup_json(*config))]);
                Ok(messages)
            },
            Err(e) => Err(e),
        }
    }

    fn build_session_update_message(&self, config: &BackendConfig) -> (r: Result<
        String,
        GeminiError,
    >) {
        Err(
            GeminiError::UnsupportedOperation(
                "Session update message not applicable for Gemini".to_owned(),
            ),
        )
    }

    /// The message parses to the payload of the turn.
    fn build_text_turn_message(&self, text: String) -> (r: Result<String, GeminiError>)
        ensures
            r is Ok,
            parses_to(r->Ok_0@, text_turn_json(text@)),
    {
        proof {
            lemma_text_turn_plain(text@);
            lemma_plain_reads_back(text_turn_json(text@), 6);
        }
        message_of(&text_turn_payload(text))
    }

    /// A message parses to a payload whose audio decodes to the samples.
    fn build_audio_chunk_message(
        &self,
        audio_samples: &[i16],
        sample_rate: u32,
        config: &BackendConfig,
    ) -> (r: Result<String, GeminiError>)
        ensures
            r matches Ok(message) ==> parses_to(
                message@,
                audio_chunk_json(base64_text(pcm_bytes(audio_samples@)), sample_rate),
            ) && audio_of(base64_decoded(base64_text(pcm_bytes(audio_samples@)))) == Ok::<
                Seq<i16>,
                Failure,
            >(audio_samples@),
    {
        if audio_samples.len() == 0 {
            return Err(
                GeminiError::ConfigurationError("Audio samples cannot be empty".to_owned()),
            );
        }
        let audio = encode_audio(audio_samples);
        let mime_type = join("audio/pcm;rate=", decimal(sample_rate).as_str());
        proof {
            let blob = Json::object().with("mimeType"@, Json::String(mime_type@));
            lemma_plain_with(Json::object(), "mimeType"@, Json::String(mime_type@), 1);
            lemma_plain_with(blob, "data"@, Json::String(audio@), 1);
            let blob = blob.with("data"@, Json::String(audio@));
            lemma_plain_with(Json::object(), "audio"@, blob, 2);
            lemma_plain_with(
                Json::object(),
                "realtimeInput"@,
                Json::object().with("audio"@, blob),
                3,
            );
            lemma_plain_reads_back(audio_chunk_json(audio@, sample_rate), 3);
        }
        let blob = Blob { mime_type, data: audio };
        let input = JsonObject::new().with_value("audio", blob.to_json());
        message_of(
            &JsonValue::Object(
                JsonObject::new().with_value("realtimeInput", JsonValue::Object(input)),
            ),
        )
    }

    /// The message parses to the payload that ends the stream.
    fn build_audio_stream_end_message(&self) -> (r: Result<String, GeminiError>)
        ensures
            r is Ok,
            parses_to(r->Ok_0@, audio_stream_end_json()),
    {
        proof {
            lemma_plain_with(Json::object(), "audioStreamEnd"@, Json::Bool(true), 1);
            lemma_plain_with(
                Json::object(),
                "realtimeInput"@,
                Json::object().with("audioStreamEnd"@, Json::Bool(true)),
                2,
            );
            lemma_plain_reads_back(audio_stream_end_json(), 2);
        }
        let input = JsonObject::new().with_value("audioStreamEnd", JsonValue::Bool(true));
        message_of(
            &JsonValue::Object(
                JsonObject::new().with_value("realtimeInput", JsonValue::Object(input)),
            ),
        )
    }

    /// One message for all responses. Where [`reads_back`] covers the payload that
    /// carries them, the message parses to it.
    fn build_tool_response_message(&self, responses: Vec<FunctionResponse>) -> (r: Result<
        String,
        GeminiError,
    >)
        ensures
            r is Ok,
            reads_back(tool_response_json(function_responses(responses@))) ==> parses_to(
                r->Ok_0@,
                tool_response_json(function_responses(responses@)),
            ),
    {
        let response = JsonObject::new().with_value(
            "functionResponses",
            function_responses_json(&responses),
        );
        message_of(
            &JsonValue::Object(
                JsonObject::new().with_value("toolResponse", JsonValue::Object(response)),
            ),
        )
    }

    fn build_request_response_message(&self) -> (r: Result<String, GeminiError>) {
        Err(
            GeminiError::UnsupportedOperation(
                "Explicit response request not applicable for Gemini".to_owned(),
            ),
        )
    }
}

/// What the parts of a turn come to, taken together.
#[verifier::ext_equal]
pub struct Scan {
    /// The texts, each followed by a space.
    pub text: Seq<char>,
    /// The samples of the audio, where any part has audio that decodes.
    pub audio: Option<Seq<i16>>,
    /// Reports of audio that does not decode.
    pub errors: Seq<Event>,
}

/// The part carries audio.
pub open spec fn carries_audio(part: Part) -> bool {
    match part.inline_data {
        Some(blob) => "audio/"@.is_prefix_of(blob.mime_type@),
        None => false,
    }
}

/// The samples of a part's audio, or what stands in the way of them.
pub open spec fn part_audio(part: Part) -> Result<Seq<i16>, Failure> {
    audio_of(base64_decoded(part.inline_data->0.data@))
}

/// What one more part adds.
pub open spec fn scan_part(before: Scan, part: Part) -> Scan {
    let text = match part.text {
        Some(text) => before.text + text@ + " "@,
        None => before.text,
    };
    if carries_audio(part) {
        match part_audio(part) {
            Ok(samples) => Scan {
                text,
                audio: Some(
                    match before.audio {
                        Some(earlier) => earlier + samples,
                        None => samples,
                    },
                ),
                errors: before.errors,
            },
            Err(e) => Scan {
                text,
                audio: before.audio,
                errors: before.errors.push(
                    Event::Error {
                        code: "audio_decode_error"@,
                        message: e.text(),
                        event_id: None,
                    },
                ),
            },
        }
    } else {
        Scan { text, audio: before.audio, errors: before.errors }
    }
}

/// What the parts of a turn come to, taken together.
pub open spec fn scan(parts: Seq<Part>) -> Scan
    decreases parts.len(),
{
    if parts.len() == 0 {
        Scan { text: Seq::empty(), audio: None, errors: Seq::empty() }
    } else {
        scan_part(scan(parts.drop_last()), parts.last())
    }
}

/// The parts of the model's turn.
pub open spec fn turn_parts(turn: Option<Content>) -> Seq<Part> {
    match turn {
        Some(content) => content.parts@,
        None => Seq::empty(),
    }
}

/// The update that a scan comes to, where it found text or audio. The text is
/// without the white space around it.
pub open spec fn scan_update(found: Scan) -> Seq<Event> {
    let text = trimmed(found.text);
    if text.len() == 0 && found.audio is None {
        Seq::empty()
    } else {
        seq![
            Event::ContentUpdate {
                text: if text.len() == 0 {
                    None
                } else {
                    Some(text)
                },
                audio: found.audio,
                done: false,
            },
        ]
    }
}

/// The event, on a condition.
pub open spec fn when(condition: bool, event: Event) -> Seq<Event> {
    if condition {
        seq![event]
    } else {
        Seq::empty()
    }
}

/// What the server's content comes to: reports of audio that does not decode, the
/// model's output, its transcription, and the ends of turn and generation.
pub open spec fn content_events(content: BidiGenerateContentServerContent) -> Seq<Event> {
    let found = scan(turn_parts(content.model_turn));
    let transcription = match content.output_transcription {
        Some(transcription) => seq![
            Event::TranscriptionUpdate { text: transcription.text@, done: true },
        ],
        None => Seq::empty(),
    };
    found.errors + scan_update(found) + transcription + when(
        content.turn_complete,
        Event::ModelTurnComplete,
    ) + when(content.generation_complete, Event::ModelGenerationComplete)
}

/// What the server's content comes to, where the message has any.
pub open spec fn message_content(message: ServerMessage) -> Seq<Event> {
    match message.server_content {
        Some(content) => content_events(content),
        None => Seq::empty(),
    }
}

/// A call of the model; its arguments are null where it gives none.
pub open spec fn call_of(call: FunctionCall) -> Call {
    Call {
        id: text_option(call.id),
        name: call.name@,
        args: match call.args {
            Some(args) => args@,
            None => Json::Null,
        },
    }
}

/// The calls of a list, in order.
pub open spec fn listed_calls(list: Seq<FunctionCall>) -> Seq<Call> {
    Seq::new(list.len(), |i: int| call_of(list[i]))
}

/// The calls of a message.
pub open spec fn message_calls(message: ServerMessage) -> Seq<Call> {
    match message.tool_call {
        Some(tool_call) => listed_calls(tool_call.function_calls@),
        None => Seq::empty(),
    }
}

/// The events that announce calls.
pub open spec fn announcements(list: Seq<Call>) -> Seq<Event> {
    Seq::new(
        list.len(),
        |i: int| Event::ToolCall { id: list[i].id, name: list[i].name, args: list[i].args },
    )
}

/// What a message of the service comes to.
pub open spec fn gemini_outcome(message: ServerMessage) -> Outcome {
    let usage = match message.usage_metadata {
        Some(metadata) => seq![Event::UsageMetadata(metadata)],
        None => Seq::empty(),
    };
    Outcome {
        events: when(message.setup_complete, Event::SetupComplete) + message_content(message)
            + announcements(message_calls(message)) + usage + when(message.go_away, Event::Close),
        calls: message_calls(message),
        usage: None,
    }
}

/// What a message of the service comes to, given what its text parses to.
pub open spec fn gemini_message(parsed: Result<ServerMessage, String>) -> Result<
    Outcome,
    Failure,
> {
    match parsed {
        Ok(message) => Ok(gemini_outcome(message)),
        Err(e) => Err(Failure::DeserializationError(e@)),
    }
}

impl GeminiBackend {
    /// The samples of inline audio.
    pub fn decode_gemini_audio(blob: &Blob) -> (r: Result<Vec<i16>, GeminiError>)
        ensures
            samples_outcome(r) == audio_of(base64_decoded(blob.data@)),
    {
        decode_audio(blob.data.as_str())
    }

    /// Scans the parts of a turn: the update that they come to goes to the end of
    /// the list, after reports of audio that does not decode.
    fn scan_parts(parts: &Vec<Part>, list: &mut Vec<UnifiedServerEvent>)
        ensures
            events(final(list)@) == events(old(list)@) + scan(parts@).errors + scan_update(
                scan(parts@),
            ),
    {
        let ghost start = events(list@);
        let mut text = String::new();
        let mut audio: Option<Vec<i16>> = None;
        assert(parts@.take(0) =~= Seq::empty());
        assert(events(list@) =~= start + scan(parts@.take(0)).errors);
        assert(text@ =~= scan(parts@.take(0)).text);
        for i in 0..parts.len()
            invariant
                text@ == scan(parts@.take(i as int)).text,
                crate::client::backend::samples_option(audio) == scan(
                    parts@.take(i as int),
                ).audio,
                events(list@) == start + scan(parts@.take(i as int)).errors,
        {
            assert(parts@.take(i + 1).drop_last() =~= parts@.take(i as int));
            assert(parts@.take(i + 1).last() == parts@[i as int]);
            let part = &parts[i];
            if let Some(piece) = &part.text {
                text.append(piece.as_str());
                text.append(" ");
            }
            if let Some(blob) = &part.inline_data {
                if starts_with(blob.mime_type.as_str(), "audio/") {
                    match GeminiBackend::decode_gemini_audio(blob) {
                        Ok(samples) => {
                            let ghost new = samples@;
                            match audio {
                                Some(earlier) => {
                                    let ghost old_samples = earlier@;
                                    let mut together = earlier;
                                    let mut samples = samples;
                                    together.append(&mut samples);
                                    assert(together@ =~= old_samples + new);
                                    audio = Some(together);
                                },
                                None => {
                                    audio = Some(samples);
                                },
                            }
                        },
                        Err(e) => {
                            push_event(
                                list,
                                UnifiedServerEvent::Error(
                                    ApiError {
                                        code: "audio_decode_error".to_owned(),
                                        message: e.message(),
                                        event_id: None,
                                    },
                                ),
                            );
                            assert(events(list@) =~= start + scan(parts@.take(i + 1)).errors);
                        },
                    }
                }
            }
        }
        assert(parts@.take(parts@.len() as int) =~= parts@);
        let text = trim(text.as_str());
        let has_text = text.unicode_len() > 0;
        if has_text || audio.is_some() {
            push_event(
                list,
                UnifiedServerEvent::ContentUpdate {
                    text: if has_text {
                        Some(text.to_owned())
                    } else {
                        None
                    },
                    audio,
                    done: false,
                },
            );
        }
        assert(events(list@) =~= start + scan(parts@).errors + scan_update(scan(parts@)));
    }

    /// Adds to the list what the server's content comes to.
    fn push_content(
        content: BidiGenerateContentServerContent,
        list: &mut Vec<UnifiedServerEvent>,
    )
        ensures
            events(final(list)@) == events(old(list)@) + content_events(content),
    {
        let ghost start = events(list@);
        let parts = match content.model_turn {
            Some(turn) => turn.parts,
            None => Vec::new(),
        };
        assert(parts@ =~= turn_parts(content.model_turn));
        GeminiBackend::scan_parts(&parts, list);
        if let Some(transcription) = content.output_transcription {
            push_event(
                list,
                UnifiedServerEvent::TranscriptionUpdate { text: transcription.text, done: true },
            );
        }
        if content.turn_complete {
            push_event(list, UnifiedServerEvent::ModelTurnComplete);
        }
        if content.generation_complete {
            push_event(list, UnifiedServerEvent::ModelGenerationComplete);
        }
        assert(events(list@) =~= start + content_events(content));
    }

    /// Adds to the list the announcements of the calls, and gives the calls to
    /// make.
    fn push_calls(
        function_calls: Vec<FunctionCall>,
        list: &mut Vec<UnifiedServerEvent>,
    ) -> (r: Vec<ToolRequest>)
        ensures
            calls(r@) == listed_calls(function_calls@),
            events(final(list)@) == events(old(list)@) + announcements(
                listed_calls(function_calls@),
            ),
    {
        let ghost start = events(list@);
        let ghost source = function_calls@;
        let ghost all = listed_calls(source);
        let mut requests: Vec<ToolRequest> = Vec::new();
        assert(calls(requests@) =~= all.take(0));
        assert(events(list@) =~= start + announcements(all.take(0)));
        for call in it: function_calls
            invariant
                it.seq() == source,
                all == listed_calls(source),
                calls(requests@) == all.take(it.index() as int),
                events(list@) == start + announcements(all.take(it.index() as int)),
        {
            let ghost i = it.index() as int;
            assert(all[i] == call_of(call));
            let FunctionCall { name, args, id } = call;
            let args = match args {
                Some(args) => args,
                None => JsonValue::Null,
            };
            requests.push(
                ToolRequest { id: id.clone(), name: name.clone(), args: args.clone() },
            );
            assert(requests@.last()@ == all[i]);
            assert(calls(requests@) =~= all.take(i + 1));
            push_event(list, UnifiedServerEvent::ToolCall { id, name, args });
            assert(events(list@) =~= start + announcements(all.take(i + 1)));
        }
        assert(all.take(all.len() as int) =~= all);
        requests
    }

    /// What a message of the service comes to.
    pub fn interpret(message: ServerMessage) -> (r: Batch)
        ensures
            r@ == gemini_outcome(message),
    {
        let mut list: Vec<UnifiedServerEvent> = Vec::new();
        if message.setup_complete {
            push_event(&mut list, UnifiedServerEvent::SetupComplete);
        }
        assert(events(list@) =~= when(message.setup_complete, Event::SetupComplete));
        if let Some(content) = message.server_content {
            GeminiBackend::push_content(content, &mut list);
        }
        assert(events(list@) =~= when(message.setup_complete, Event::SetupComplete)
            + message_content(message));
        let requests = match message.tool_call {
            Some(tool_call) => GeminiBackend::push_calls(tool_call.function_calls, &mut list),
            None => Vec::new(),
        };
        assert(calls(requests@) =~= message_calls(message));
        if let Some(metadata) = message.usage_metadata {
            push_event(&mut list, UnifiedServerEvent::UsageMetadata(metadata));
        }
        if message.go_away {
            push_event(&mut list, UnifiedServerEvent::Close);
        }
        let r = Batch { events: list, calls: requests, usage: None };
        assert(r@.events =~= gemini_outcome(message).events);
        r
    }

    /// What a message of the service comes to, given what its text parses to.
    pub fn interpret_message(parsed: Result<ServerMessage, String>) -> (r: Result<
        Batch,
        GeminiError,
    >)
        ensures
            batch_outcome(r) == gemini_message(parsed),
    {
        match parsed {
            Ok(message) => Ok(GeminiBackend::interpret(message)),
            Err(e) => Err(GeminiError::DeserializationError(e)),
        }
    }
}

/// A frame from the service, its message read.
#[derive(Debug, PartialEq)]
pub enum GeminiFrame {
    /// A message, or the display text of the error that reading it ended with.
    Message(Result<ServerMessage, String>),
    /// Nothing to act on.
    Nothing,
    /// The end of the connection.
    Close,
}

/// What a frame from the service comes to.
pub open spec fn gemini_frame(frame: GeminiFrame) -> Result<Outcome, Failure> {
    match frame {
        GeminiFrame::Message(parsed) => gemini_message(parsed),
        GeminiFrame::Nothing => Ok(Outcome::nothing()),
        GeminiFrame::Close => Ok(Outcome::just(seq![Event::Close])),
    }
}

/// The response to a call, as it goes over the wire.
pub open spec fn answered(call: ToolRequest, outcome: ToolOutcome) -> Json {
    Json::object()
        .with("name"@, Json::String(call.name@))
        .with("response"@, answer(outcome))
        .with_optional("id"@, text_json(call.id))
}

/// The responses to calls, as they go over the wire.
pub open spec fn answers_json(answers: Seq<(ToolRequest, ToolOutcome)>) -> Json {
    Json::Array(Seq::new(answers.len(), |i: int| answered(answers[i].0, answers[i].1)))
}

/// The message that answers the calls of a message; none where there were none.
pub open spec fn gemini_reply(answers: Seq<(ToolRequest, ToolOutcome)>) -> Option<Seq<char>> {
    if answers.len() == 0 {
        None
    } else {
        Some(json_text(tool_response_json(answers_json(answers))))
    }
}

impl GeminiBackend {
    /// What a frame from the service comes to.
    pub fn parse_server_message(&self, message: GeminiFrame) -> (r: Result<Batch, GeminiError>)
        ensures
            batch_outcome(r) == gemini_frame(message),
    {
        match message {
            GeminiFrame::Message(parsed) => GeminiBackend::interpret_message(parsed),
            GeminiFrame::Nothing => Ok(Batch::nothing()),
            GeminiFrame::Close => Ok(Batch::one(UnifiedServerEvent::Close)),
        }
    }

    /// The message that answers the calls of a message, all in one, in the order
    /// of the calls; none where there were none. Where [`reads_back`] covers the
    /// payload that carries the answers, the message parses to it.
    pub fn tool_reply(&self, answers: Vec<(ToolRequest, ToolOutcome)>) -> (r: Result<
        Option<String>,
        GeminiError,
    >)
        ensures
            r matches Ok(message) && text_option(message) == gemini_reply(answers@) && (
            message matches Some(text) ==> reads_back(tool_response_json(answers_json(answers@)))
                ==> parses_to(text@, tool_response_json(answers_json(answers@)))),
    {
        if answers.len() == 0 {
            return Ok(None);
        }
        let ghost source = answers@;
        let mut responses: Vec<FunctionResponse> = Vec::new();
        for entry in it: answers
            invariant
                it.seq() == source,
                responses.len() == it.index(),
                forall|j: int|
                    0 <= j < responses.len() ==> (#[trigger] responses@[j]).wire() == answered(
                        source[j].0,
                        source[j].1,
                    ),
        {
            let (call, outcome) = entry;
            responses.push(respond(call, outcome));
        }
        assert(function_responses(responses@)->Array_0 =~= answers_json(source)->Array_0);
        match self.build_tool_response_message(responses) {
            Ok(message) => Ok(Some(message)),
            Err(e) => Err(e),
        }
    }
}

/// A message announces exactly the calls to make for it, in order.
pub proof fn law_gemini_calls_are_announced(message: ServerMessage)
    ensures
        announced(gemini_outcome(message).events) == gemini_outcome(message).calls,
{
    let setup = when(message.setup_complete, Event::SetupComplete);
    let content = message_content(message);
    let told = announcements(message_calls(message));
    let usage = match message.usage_metadata {
        Some(metadata) => seq![Event::UsageMetadata(metadata)],
        None => Seq::empty(),
    };
    let close = when(message.go_away, Event::Close);
    lemma_announced_concat(setup + content + told + usage, close);
    lemma_announced_concat(setup + content + told, usage);
    lemma_announced_concat(setup + content, told);
    lemma_announced_concat(setup, content);
    lemma_announced_none(setup);
    lemma_announced_none(usage);
    lemma_announced_none(close);
    match message.server_content {
        Some(body) => {
            lemma_content_announces_nothing(body);
        },
        None => {
            lemma_announced_none(content);
        },
    }
    lemma_announcements(message_calls(message));
    assert(announced(gemini_outcome(message).events) =~= message_calls(message));
}

/// Content announces no calls.
proof fn lemma_content_announces_nothing(content: BidiGenerateContentServerContent)
    ensures
        announced(content_events(content)) == Seq::<Call>::empty(),
{
    lemma_scan_errors(turn_parts(content.model_turn));
    lemma_announced_none(content_events(content));
}

/// Announcements announce what they are made of.
proof fn lemma_announcements(list: Seq<Call>)
    ensures
        announced(announcements(list)) == list,
    decreases list.len(),
{
    if list.len() > 0 {
        lemma_announcements(list.drop_last());
        assert(announcements(list).drop_last() =~= announcements(list.drop_last()));
        assert(announced(announcements(list)) =~= list);
    } else {
        assert(announced(announcements(list)) =~= list);
    }
}

/// The reports of a scan are errors.
proof fn lemma_scan_errors(parts: Seq<Part>)
    ensures
        forall|i: int| 0 <= i < scan(parts).errors.len() ==> (#[trigger] scan(parts).errors[i])
            is Error,
    decreases parts.len(),
{
    if parts.len() > 0 {
        lemma_scan_errors(parts.drop_last());
    }
}

/// The connection ends with a message exactly where the message says that the
/// server goes away, and then the end is the last event.
pub proof fn law_gemini_go_away_closes_last(message: ServerMessage)
    ensures
        gemini_outcome(message).events.contains(Event::Close) <==> message.go_away,
        message.go_away ==> gemini_outcome(message).events.last() == Event::Close,
{
    let all = gemini_outcome(message).events;
    if let Some(body) = message.server_content {
        lemma_scan_errors(turn_parts(body.model_turn));
    }
    if message.go_away {
        assert(all[all.len() - 1] == Event::Close);
    } else {
        assert forall|i: int| 0 <= i < all.len() implies all[i] != Event::Close by {}
    }
}

/// The samples of two stretches of audio, one after the other.
pub open spec fn joined(a: Option<Seq<i16>>, b: Option<Seq<i16>>) -> Option<Seq<i16>> {
    match (a, b) {
        (Some(a), Some(b)) => Some(a + b),
        (Some(a), None) => Some(a),
        (None, b) => b,
    }
}

/// Parts are taken in order: what the first ones bring comes before what the
/// others bring.
pub proof fn law_scan_in_order(first: Seq<Part>, others: Seq<Part>)
    ensures
        scan(first + others).text == scan(first).text + scan(others).text,
        scan(first + others).audio == joined(scan(first).audio, scan(others).audio),
        scan(first).audio is None ==> scan(first + others).audio == scan(others).audio,
        scan(others).audio is None ==> scan(first + others).audio == scan(first).audio,
        scan(first).audio is Some && scan(others).audio is Some ==> scan(first + others).audio
            == Some(scan(first).audio->0 + scan(others).audio->0),
        scan(first + others).errors == scan(first).errors + scan(others).errors,
    decreases others.len(),
{
    if others.len() == 0 {
        assert(first + others =~= first);
        assert(scan(first).text + scan(others).text =~= scan(first).text);
        assert(scan(first).errors + scan(others).errors =~= scan(first).errors);
    } else {
        law_scan_in_order(first, others.drop_last());
        assert((first + others).drop_last() =~= first + others.drop_last());
        let whole = scan(first + others);
        assert(whole.text =~= scan(first).text + scan(others).text);
        assert(whole.errors =~= scan(first).errors + scan(others).errors);
        match joined(scan(first).audio, scan(others).audio) {
            Some(samples) => {
                assert(whole.audio is Some);
                assert(whole.audio->0 =~= samples);
            },
            None => {},
        }
    }
}

/// A turn of one part of text, with more than white space in it, comes to an
/// update with that text, without the white space around it.
pub proof fn law_single_text(part: Part)
    requires
        part.text is Some,
        part.inline_data is None,
        trimmed(part.text->0@).len() > 0,
    ensures
        scan_update(scan(seq![part])) == seq![
            Event::ContentUpdate { text: Some(trimmed(part.text->0@)), audio: None, done: false },
        ],
{
    let parts = seq![part];
    let text = part.text->0@;
    assert(parts.drop_last() =~= Seq::empty());
    reveal_with_fuel(scan, 2);
    reveal_strlit(" ");
    assert(scan(parts).text =~= text.push(' '));
    lemma_trimmed_push_space(text);
}

/// The setup says of each setting what the configuration says, and nothing of
/// anything else.
pub proof fn law_setup_says_what_is_configured(config: BackendConfig, other: Seq<char>)
    ensures
        setup_json(config).member("setup"@) matches Some(setup) && {
            &&& setup.member("model"@) == Some(Json::String(config.model@))
            &&& setup.member("generationConfig"@) == optional_generation_config(
                config.generation_config,
            )
            &&& setup.member("systemInstruction"@) == optional_content(config.system_instruction)
            &&& setup.member("tools"@) == declared_tools(config)
            &&& setup.member("realtimeInputConfig"@) == optional_realtime_input_config(
                config.realtime_input_config,
            )
            &&& setup.member("outputAudioTranscription"@) == optional_audio_transcription_config(
                config.output_audio_transcription,
            )
            &&& other != "model"@ && other != "generationConfig"@ && other != "systemInstruction"@
                && other != "tools"@ && other != "realtimeInputConfig"@ && other
                != "outputAudioTranscription"@ ==> setup.member(other) is None
        },
{
    reveal_strlit("model");
    reveal_strlit("generationConfig");
    reveal_strlit("systemInstruction");
    reveal_strlit("tools");
    reveal_strlit("realtimeInputConfig");
    reveal_strlit("outputAudioTranscription");
    assert("model"@[0] != "tools"@[0]);
    assert("model"@.len() == 5);
    assert("generationConfig"@.len() == 16);
    assert("systemInstruction"@.len() == 17);
    assert("tools"@.len() == 5);
    assert("realtimeInputConfig"@.len() == 19);
    assert("outputAudioTranscription"@.len() == 24);
    let s0 = Json::object();
    let v1 = Some(Json::String(config.model@));
    let s1 = s0.with_optional("model"@, v1);
    let v2 = optional_generation_config(config.generation_config);
    let s2 = s1.with_optional("generationConfig"@, v2);
    let v3 = optional_content(config.system_instruction);
    let s3 = s2.with_optional("systemInstruction"@, v3);
    let v4 = declared_tools(config);
    let s4 = s3.with_optional("tools"@, v4);
    let v5 = optional_realtime_input_config(config.realtime_input_config);
    let s5 = s4.with_optional("realtimeInputConfig"@, v5);
    let v6 = optional_audio_transcription_config(config.output_audio_transcription);
    let s6 = s5.with_optional("outputAudioTranscription"@, v6);
    lemma_members_with(s0, "model"@, v1);
    lemma_members_with(s1, "generationConfig"@, v2);
    lemma_members_with(s2, "systemInstruction"@, v3);
    lemma_members_with(s3, "tools"@, v4);
    lemma_members_with(s4, "realtimeInputConfig"@, v5);
    lemma_members_with(s5, "outputAudioTranscription"@, v6);
    lemma_members_with(s0, "setup"@, Some(s6));
    assert(setup_json(config) == s0.with_optional("setup"@, Some(s6)));
    assert(s0.with_optional("setup"@, Some(s6)).member("setup"@) == Some(s6));
    assert forall|key: Seq<char>| #[trigger] s0.member(key) is None by {}
}

/// What a frame comes to, where `reading` is how the text of a message is read.
pub open spec fn gemini_reads(
    frame: Frame,
    reading: spec_fn(Seq<char>) -> Result<ServerMessage, String>,
) -> Result<Outcome, Failure> {
    match arrival(frame) {
        Ok(Arrival::Message(text)) => gemini_frame(GeminiFrame::Message(reading(text))),
        Ok(Arrival::Nothing) => gemini_frame(GeminiFrame::Nothing),
        Ok(Arrival::Close) => gemini_frame(GeminiFrame::Close),
        Err(e) => Err(e),
    }
}

/// However the text of a message is read, a text and its UTF-8 bytes in a binary
/// frame come to the same.
pub proof fn law_gemini_reads_bytes_as_text(
    text: String,
    bytes: Vec<u8>,
    reading: spec_fn(Seq<char>) -> Result<ServerMessage, String>,
)
    requires
        bytes@ == encode_utf8(text@),
    ensures
        gemini_reads(Frame::Binary(bytes), reading) == gemini_reads(Frame::Text(text), reading),
{
    law_bytes_arrive_as_text(text, bytes);
}

/// Where each kind of event stands among the events of a message.
pub open spec fn turn_order(event: Event) -> int {
    match event {
        Event::SetupComplete => 0,
        Event::Error { .. } => 1,
        Event::ContentUpdate { .. } => 2,
        Event::TranscriptionUpdate { .. } => 3,
        Event::ModelTurnComplete => 4,
        Event::ModelGenerationComplete => 5,
        Event::ToolCall { .. } => 6,
        Event::UsageMetadata(_) => 7,
        Event::Close => 8,
        Event::ProviderSpecific(_) => 9,
    }
}

/// The one event may come before the other: its kind stands before the other's, or both
/// are reports, or both are calls.
pub open spec fn may_precede(first: Event, second: Event) -> bool {
    turn_order(first) < turn_order(second) || (first is Error && second is Error) || (first
        is ToolCall && second is ToolCall)
}

/// Each event may come before those after it, and all kinds are in the range.
spec fn ordered_within(list: Seq<Event>, low: int, high: int) -> bool {
    &&& forall|i: int, j: int|
        0 <= i < j < list.len() ==> may_precede(#[trigger] list[i], #[trigger] list[j])
    &&& forall|i: int| 0 <= i < list.len() ==> low <= turn_order(#[trigger] list[i]) <= high
}

/// Events of later kinds, put behind others, leave them in order.
proof fn lemma_ordered_concat(a: Seq<Event>, b: Seq<Event>, low: int, middle: int, high: int)
    requires
        low <= middle < high,
        ordered_within(a, low, middle),
        ordered_within(b, middle + 1, high),
    ensures
        ordered_within(a + b, low, high),
{
    let both = a + b;
    assert forall|i: int, j: int| 0 <= i < j < both.len() implies may_precede(
        #[trigger] both[i],
        #[trigger] both[j],
    ) by {
        if j < a.len() {
            assert(both[i] == a[i] && both[j] == a[j]);
        } else if i < a.len() {
            assert(both[i] == a[i] && both[j] == b[j - a.len()]);
        } else {
            assert(both[i] == b[i - a.len()] && both[j] == b[j - a.len()]);
        }
    }
    assert forall|i: int| 0 <= i < both.len() implies low <= turn_order(#[trigger] both[i])
        <= high by {
        if i < a.len() {
            assert(both[i] == a[i]);
        } else {
            assert(both[i] == b[i - a.len()]);
        }
    }
}

/// The events of content are in order.
proof fn lemma_content_ordered(content: BidiGenerateContentServerContent)
    ensures
        ordered_within(content_events(content), 1, 5),
{
    let found = scan(turn_parts(content.model_turn));
    let update = scan_update(found);
    let transcription = match content.output_transcription {
        Some(transcription) => seq![
            Event::TranscriptionUpdate { text: transcription.text@, done: true },
        ],
        None => Seq::empty(),
    };
    let turn = when(content.turn_complete, Event::ModelTurnComplete);
    let generation = when(content.generation_complete, Event::ModelGenerationComplete);
    lemma_scan_errors(turn_parts(content.model_turn));
    assert(ordered_within(found.errors, 1, 1));
    assert(ordered_within(update, 2, 2));
    assert(ordered_within(transcription, 3, 3));
    assert(ordered_within(turn, 4, 4));
    assert(ordered_within(generation, 5, 5));
    lemma_ordered_concat(found.errors, update, 1, 1, 2);
    lemma_ordered_concat(found.errors + update, transcription, 1, 2, 3);
    lemma_ordered_concat(found.errors + update + transcription, turn, 1, 3, 4);
    lemma_ordered_concat(found.errors + update + transcription + turn, generation, 1, 4, 5);
}

/// The events of a message come in a fixed order: the setup, reports of audio that does
/// not decode, content, its transcription, the ends of turn and generation, calls,
/// usage, and the end of the connection. Only reports and calls can be several.
pub proof fn law_gemini_events_in_order(message: ServerMessage, i: int, j: int)
    requires
        0 <= i < j < gemini_outcome(message).events.len(),
    ensures
        may_precede(gemini_outcome(message).events[i], gemini_outcome(message).events[j]),
        !(gemini_outcome(message).events[j] is SetupComplete),
        gemini_outcome(message).events[j] is Error ==> gemini_outcome(message).events[i]
            is SetupComplete || gemini_outcome(message).events[i] is Error,
        gemini_outcome(message).events[i] is ContentUpdate ==> !(gemini_outcome(message).events[j]
            is ContentUpdate),
        gemini_outcome(message).events[i] is TranscriptionUpdate ==> !(gemini_outcome(
            message,
        ).events[j] is TranscriptionUpdate || gemini_outcome(message).events[j] is ContentUpdate),
        gemini_outcome(message).events[i] is ModelTurnComplete ==> gemini_outcome(message).events[j]
            is ModelGenerationComplete || gemini_outcome(message).events[j] is ToolCall
            || gemini_outcome(message).events[j] is UsageMetadata || gemini_outcome(
            message,
        ).events[j] is Close,
        gemini_outcome(message).events[i] is ModelGenerationComplete ==> gemini_outcome(
            message,
        ).events[j] is ToolCall || gemini_outcome(message).events[j] is UsageMetadata
            || gemini_outcome(message).events[j] is Close,
        gemini_outcome(message).events[i] is ToolCall ==> gemini_outcome(message).events[j]
            is ToolCall || gemini_outcome(message).events[j] is UsageMetadata || gemini_outcome(
            message,
        ).events[j] is Close,
        gemini_outcome(message).events[i] is UsageMetadata ==> gemini_outcome(message).events[j]
            is Close,
        !(gemini_outcome(message).events[i] is Close),
{
    let setup = when(message.setup_complete, Event::SetupComplete);
    let content = message_content(message);
    let told = announcements(message_calls(message));
    let usage = match message.usage_metadata {
        Some(metadata) => seq![Event::UsageMetadata(metadata)],
        None => Seq::empty(),
    };
    let close = when(message.go_away, Event::Close);
    assert(ordered_within(setup, 0, 0));
    if let Some(body) = message.server_content {
        lemma_content_ordered(body);
    }
    assert(ordered_within(content, 1, 5));
    assert(ordered_within(told, 6, 6));
    assert(ordered_within(usage, 7, 7));
    assert(ordered_within(close, 8, 8));
    lemma_ordered_concat(setup, content, 0, 0, 5);
    lemma_ordered_concat(setup + content, told, 0, 5, 6);
    lemma_ordered_concat(setup + content + told, usage, 0, 6, 7);
    lemma_ordered_concat(setup + content + told + usage, close, 0, 7, 8);
    let all = gemini_outcome(message).events;
    assert(may_precede(all[i], all[j]));
    assert(0 <= turn_order(all[i]) <= 8);
    assert(0 <= turn_order(all[j]) <= 8);
}

/// What is among the events of a message is among the events of one of its parts.
proof fn lemma_gemini_contains(message: ServerMessage, event: Event)
    ensures
        gemini_outcome(message).events.contains(event) <==> (event == Event::SetupComplete
            && message.setup_complete) || message_content(message).contains(event)
            || announcements(message_calls(message)).contains(event) || (
        message.usage_metadata matches Some(metadata) && event == Event::UsageMetadata(metadata))
            || (event == Event::Close && message.go_away),
{
    let setup = when(message.setup_complete, Event::SetupComplete);
    let content = message_content(message);
    let told = announcements(message_calls(message));
    let usage = match message.usage_metadata {
        Some(metadata) => seq![Event::UsageMetadata(metadata)],
        None => Seq::empty(),
    };
    let close = when(message.go_away, Event::Close);
    lemma_contains_concat(setup + content + told + usage, close, event);
    lemma_contains_concat(setup + content + told, usage, event);
    lemma_contains_concat(setup + content, told, event);
    lemma_contains_concat(setup, content, event);
    lemma_when_contains(message.setup_complete, Event::SetupComplete, event);
    lemma_when_contains(message.go_away, Event::Close, event);
    if let Some(metadata) = message.usage_metadata {
        assert(usage[0] == Event::UsageMetadata(metadata));
    }
}

/// An event on a condition is there where the condition holds, and is the only one.
proof fn lemma_when_contains(condition: bool, event: Event, other: Event)
    ensures
        condition && other == event <==> when(condition, event).contains(other),
{
    if condition {
        assert(when(condition, event)[0] == event);
    }
}

/// What is among the events of content is among the events of one of its pieces.
proof fn lemma_content_contains(content: BidiGenerateContentServerContent, event: Event)
    ensures
        content_events(content).contains(event) <==> scan(
            turn_parts(content.model_turn),
        ).errors.contains(event) || scan_update(scan(turn_parts(content.model_turn))).contains(
            event,
        ) || (content.output_transcription matches Some(transcription) && event == (
        Event::TranscriptionUpdate { text: transcription.text@, done: true })) || (event
            == Event::ModelTurnComplete && content.turn_complete) || (event
            == Event::ModelGenerationComplete && content.generation_complete),
{
    let found = scan(turn_parts(content.model_turn));
    let update = scan_update(found);
    let transcription = match content.output_transcription {
        Some(transcription) => seq![
            Event::TranscriptionUpdate { text: transcription.text@, done: true },
        ],
        None => Seq::empty(),
    };
    let turn = when(content.turn_complete, Event::ModelTurnComplete);
    let generation = when(content.generation_complete, Event::ModelGenerationComplete);
    lemma_contains_concat(found.errors + update + transcription + turn, generation, event);
    lemma_contains_concat(found.errors + update + transcription, turn, event);
    lemma_contains_concat(found.errors + update, transcription, event);
    lemma_contains_concat(found.errors, update, event);
    lemma_when_contains(content.turn_complete, Event::ModelTurnComplete, event);
    lemma_when_contains(content.generation_complete, Event::ModelGenerationComplete, event);
    if let Some(text) = content.output_transcription {
        assert(transcription[0] == (Event::TranscriptionUpdate { text: text.text@, done: true }));
    }
}

/// A scan's reports hold no events but errors, and its update none but content.
proof fn lemma_scan_kinds(parts: Seq<Part>, event: Event)
    ensures
        scan(parts).errors.contains(event) ==> event is Error,
        scan_update(scan(parts)).contains(event) ==> event is ContentUpdate,
{
    lemma_scan_errors(parts);
    if scan(parts).errors.contains(event) {
        let errors = scan(parts).errors;
        let i = choose|i: int| 0 <= i < errors.len() && errors[i] == event;
        assert(errors[i] is Error);
    }
}

/// The end of the turn and the end of the generation are reported exactly where the
/// content says so, each for itself; that the setup is complete, exactly where the
/// message says so.
pub proof fn law_gemini_ends_are_reported(message: ServerMessage)
    ensures
        gemini_outcome(message).events.contains(Event::ModelTurnComplete) <==> (
        message.server_content matches Some(content) && content.turn_complete),
        gemini_outcome(message).events.contains(Event::ModelGenerationComplete) <==> (
        message.server_content matches Some(content) && content.generation_complete),
        gemini_outcome(message).events.contains(Event::SetupComplete) <==> message.setup_complete,
{
    lemma_gemini_kind(message, Event::ModelTurnComplete);
    lemma_gemini_kind(message, Event::ModelGenerationComplete);
    lemma_gemini_kind(message, Event::SetupComplete);
}

/// What an event's being reported comes down to, by its kind.
proof fn lemma_gemini_kind(message: ServerMessage, event: Event)
    ensures
        event is SetupComplete ==> (gemini_outcome(message).events.contains(event)
            <==> message.setup_complete),
        event is ModelTurnComplete ==> (gemini_outcome(message).events.contains(event) <==> (
        message.server_content matches Some(content) && content.turn_complete)),
        event is ModelGenerationComplete ==> (gemini_outcome(message).events.contains(event) <==> (
        message.server_content matches Some(content) && content.generation_complete)),
        event matches Event::TranscriptionUpdate { text, done } ==> (gemini_outcome(
            message,
        ).events.contains(event) <==> done && (message.server_content matches Some(content)
            && (content.output_transcription matches Some(transcription) && transcription.text@
            == text))),
        event matches Event::UsageMetadata(metadata) ==> (gemini_outcome(message).events.contains(
            event,
        ) <==> message.usage_metadata == Some(metadata)),
        event is ContentUpdate ==> (gemini_outcome(message).events.contains(event) <==> (
        message.server_content matches Some(content) && scan_update(
            scan(turn_parts(content.model_turn)),
        ).contains(event))),
        event is Error ==> (gemini_outcome(message).events.contains(event) <==> (
        message.server_content matches Some(content) && scan(
            turn_parts(content.model_turn),
        ).errors.contains(event))),
        !(event is ProviderSpecific) || !gemini_outcome(message).events.contains(event),
{
    lemma_gemini_contains(message, event);
    let told = announcements(message_calls(message));
    if told.contains(event) {
        let i = choose|i: int| 0 <= i < told.len() && told[i] == event;
        assert(told[i] is ToolCall);
    }
    match message.server_content {
        Some(content) => {
            lemma_content_contains(content, event);
            lemma_scan_kinds(turn_parts(content.model_turn), event);
        },
        None => {
            assert(!message_content(message).contains(event));
        },
    }
}

/// A transcription is reported with its own text, as done, exactly where the content
/// has one; usage exactly as the message accounts for it.
pub proof fn law_gemini_transcription_and_usage(
    message: ServerMessage,
    text: Seq<char>,
    done: bool,
    metadata: UsageMetadata,
)
    ensures
        gemini_outcome(message).events.contains(Event::TranscriptionUpdate { text, done }) <==> done
            && (message.server_content matches Some(content) && (
        content.output_transcription matches Some(transcription) && transcription.text@ == text)),
        gemini_outcome(message).events.contains(Event::UsageMetadata(metadata))
            <==> message.usage_metadata == Some(metadata),
{
    lemma_gemini_kind(message, Event::TranscriptionUpdate { text, done });
    lemma_gemini_kind(message, Event::UsageMetadata(metadata));
}

/// Text and audio of the model's turn are reported together: the text of all parts
/// without the white space around it, none where there is nothing else, and the audio
/// of all parts. They are reported exactly where there is text or audio.
pub proof fn law_gemini_content_is_reported(
    message: ServerMessage,
    text: Option<Seq<char>>,
    audio: Option<Seq<i16>>,
    done: bool,
)
    ensures
        gemini_outcome(message).events.contains(Event::ContentUpdate { text, audio, done }) <==> {
            &&& !done
            &&& text is Some || audio is Some
            &&& message.server_content matches Some(content)
            &&& content.model_turn matches Some(turn)
            &&& audio == scan(turn.parts@).audio
            &&& text is None <==> trimmed(scan(turn.parts@).text).len() == 0
            &&& text matches Some(said) ==> said == trimmed(scan(turn.parts@).text)
        },
{
    let event = Event::ContentUpdate { text, audio, done };
    lemma_gemini_kind(message, event);
    if let Some(content) = message.server_content {
        let found = scan(turn_parts(content.model_turn));
        let update = scan_update(found);
        if update.len() > 0 {
            assert(update[0] is ContentUpdate);
            assert(update.contains(update[0]));
            assert(update.contains(event) <==> update[0] == event);
        }
        if content.model_turn is None {
            assert(turn_parts(content.model_turn) =~= Seq::empty());
            assert(trimmed(Seq::<char>::empty()).len() == 0);
            assert(update.len() == 0);
        }
    }
}

/// What one part of a turn says and sounds like: its text, followed by a space; the
/// samples of its audio, where it is audio that decodes; a report where it is audio
/// that does not.
pub proof fn law_scan_of_one_part(part: Part)
    ensures
        scan(Seq::empty()).text.len() == 0,
        scan(Seq::empty()).audio is None,
        scan(Seq::empty()).errors.len() == 0,
        part.text matches Some(text) ==> scan(seq![part]).text == text@.push(' '),
        part.text is None ==> scan(seq![part]).text.len() == 0,
        part.inline_data is None ==> scan(seq![part]).audio is None && scan(
            seq![part],
        ).errors.len() == 0,
        part.inline_data matches Some(blob) ==> {
            &&& !"audio/"@.is_prefix_of(blob.mime_type@) ==> scan(seq![part]).audio is None && scan(
                seq![part],
            ).errors.len() == 0
            &&& "audio/"@.is_prefix_of(blob.mime_type@) ==> match base64_decoded(blob.data@) {
                Ok(bytes) => scan(seq![part]).audio == Some(pcm_samples(bytes)) && scan(
                    seq![part],
                ).errors.len() == 0,
                Err(e) => scan(seq![part]).audio is None && scan(seq![part]).errors == seq![
                    Event::Error {
                        code: "audio_decode_error"@,
                        message: "Error during message deserialization: "@ + (
                        "Base64 decode failed: "@ + e),
                        event_id: None,
                    },
                ],
            }
        },
{
    let parts = seq![part];
    assert(parts.drop_last() =~= Seq::empty());
    reveal_with_fuel(scan, 2);
    reveal_strlit(" ");
    if let Some(text) = part.text {
        assert(scan(parts).text =~= text@.push(' '));
    }
}

/// The calls to make are those of the message, each with its own id, name and
/// arguments, in order; a call without arguments has null.
pub proof fn law_gemini_calls(message: ServerMessage, i: int)
    ensures
        message.tool_call is None ==> gemini_outcome(message).calls.len() == 0,
        message.tool_call matches Some(tool_call) ==> {
            let list = tool_call.function_calls@;
            &&& gemini_outcome(message).calls.len() == list.len()
            &&& 0 <= i < list.len() ==> {
                let call = gemini_outcome(message).calls[i];
                &&& call.name == list[i].name@
                &&& list[i].id matches Some(id) ==> call.id == Some(id@)
                &&& list[i].id is None ==> call.id is None
                &&& list[i].args matches Some(args) ==> call.args == args@
                &&& list[i].args is None ==> call.args == Json::Null
            }
        },
        gemini_outcome(message).usage is None,
{
}

/// Nothing is reported beyond what the message says: as many events come of it as it
/// has things to report.
pub proof fn law_gemini_event_count(message: ServerMessage)
    ensures
        gemini_outcome(message).events.len() == one_if(message.setup_complete) + (
        match message.server_content {
            Some(content) => scan(turn_parts(content.model_turn)).errors.len() + one_if(
                trimmed(scan(turn_parts(content.model_turn)).text).len() > 0 || scan(
                    turn_parts(content.model_turn),
                ).audio is Some,
            ) + one_if(content.output_transcription is Some) + one_if(content.turn_complete)
                + one_if(content.generation_complete),
            None => 0,
        }) + gemini_outcome(message).calls.len() + one_if(message.usage_metadata is Some) + one_if(
            message.go_away,
        ),
        one_if(true) == 1,
        one_if(false) == 0,
{
}

/// One, on a condition.
pub open spec fn one_if(condition: bool) -> nat {
    if condition {
        1
    } else {
        0
    }
}

/// Reports of audio that does not decode come in the order of the parts, right after
/// the setup.
pub proof fn law_gemini_reports_in_order(message: ServerMessage, i: int)
    requires
        message.server_content is Some,
        0 <= i < scan(turn_parts(message.server_content->0.model_turn)).errors.len(),
    ensures
        gemini_outcome(message).events[one_if(message.setup_complete) + i] == scan(
            turn_parts(message.server_content->0.model_turn),
        ).errors[i],
{
}

/// A message that does not parse is reported with the parser's own words; one that does
/// comes to its outcome. A close frame closes, and nothing comes of the others.
pub proof fn law_gemini_frames(message: ServerMessage, error: String)
    ensures
        gemini_frame(GeminiFrame::Message(Ok(message))) == Ok::<Outcome, Failure>(
            gemini_outcome(message),
        ),
        gemini_frame(GeminiFrame::Message(Err(error))) == Err::<Outcome, Failure>(
            Failure::DeserializationError(error@),
        ),
        gemini_frame(GeminiFrame::Nothing) matches Ok(outcome) && outcome.events.len() == 0
            && outcome.calls.len() == 0 && outcome.usage is None,
        gemini_frame(GeminiFrame::Close) matches Ok(outcome) && outcome.events == seq![Event::Close]
            && outcome.calls.len() == 0 && outcome.usage is None,
{
}

/// The setup declares every tool, each in its own place, in one group; without tools it
/// declares nothing. Of everything else it says what the configuration says, in the
/// form that the service takes.
pub proof fn law_setup_in_full(config: BackendConfig)
    ensures
        GeminiBackend.initial_messages(config) == Ok::<Seq<Seq<char>>, Failure>(
            seq![json_text(setup_json(config))],
        ),
        setup_json(config).member("setup"@) matches Some(setup) && {
            &&& setup.member("model"@) == Some(Json::String(config.model@))
            &&& config.tools@.len() == 0 ==> setup.member("tools"@) is None
            &&& config.tools@.len() > 0 ==> {
                &&& setup.member("tools"@) matches Some(Json::Array(groups))
                &&& groups.len() == 1
                &&& groups[0].member("functionDeclarations"@) matches Some(Json::Array(declared))
                &&& declared.len() == config.tools@.len()
                &&& forall|i: int|
                    0 <= i < declared.len() ==> (#[trigger] declared[i])
                        == config.tools@[i].gemini_declaration.wire()
            }
            &&& config.generation_config matches Some(v) ==> setup.member("generationConfig"@) == Some(v.wire())
            &&& config.generation_config is None ==> setup.member("generationConfig"@) is None
            &&& config.system_instruction matches Some(v) ==> setup.member("systemInstruction"@) == Some(v.wire())
            &&& config.system_instruction is None ==> setup.member("systemInstruction"@) is None
            &&& config.realtime_input_config matches Some(v) ==> setup.member("realtimeInputConfig"@) == Some(v.wire())
            &&& config.realtime_input_config is None ==> setup.member("realtimeInputConfig"@) is None
            &&& config.output_audio_transcription matches Some(v) ==> setup.member("outputAudioTranscription"@) == Some(Json::object())
            &&& config.output_audio_transcription is None ==> setup.member("outputAudioTranscription"@) is None
            &&& forall|other: Seq<char>| other != "model"@ && other != "generationConfig"@
                && other != "systemInstruction"@ && other != "tools"@
                && other != "realtimeInputConfig"@
                && other != "outputAudioTranscription"@ ==> (#[trigger] setup.member(other)) is None
        },
        forall|other: Seq<char>|
            other != "setup"@ ==> (#[trigger] setup_json(config).member(other)) is None,
{
    reveal_strlit("model");
    reveal_strlit("generationConfig");
    reveal_strlit("systemInstruction");
    reveal_strlit("tools");
    reveal_strlit("realtimeInputConfig");
    reveal_strlit("outputAudioTranscription");
    assert("model"@.len() == 5);
    assert("generationConfig"@.len() == 16);
    assert("systemInstruction"@.len() == 17);
    assert("tools"@.len() == 5);
    assert("realtimeInputConfig"@.len() == 19);
    assert("outputAudioTranscription"@.len() == 24);
    assert("model"@[0] != "tools"@[0]);
    let s0 = Json::object();
    assert forall|key: Seq<char>| #[trigger] s0.member(key) is None by {}
    let s1 = s0.with_optional("model"@, Some(Json::String(config.model@)));
    lemma_members_with(s0, "model"@, Some(Json::String(config.model@)));
    let s2 = s1.with_optional("generationConfig"@, optional_generation_config(config.generation_config));
    lemma_members_with(s1, "generationConfig"@, optional_generation_config(config.generation_config));
    let s3 = s2.with_optional("systemInstruction"@, optional_content(config.system_instruction));
    lemma_members_with(s2, "systemInstruction"@, optional_content(config.system_instruction));
    let s4 = s3.with_optional("tools"@, declared_tools(config));
    lemma_members_with(s3, "tools"@, declared_tools(config));
    let s5 = s4.with_optional("realtimeInputConfig"@, optional_realtime_input_config(config.realtime_input_config));
    lemma_members_with(s4, "realtimeInputConfig"@, optional_realtime_input_config(config.realtime_input_config));
    let s6 = s5.with_optional("outputAudioTranscription"@, optional_audio_transcription_config(config.output_audio_transcription));
    lemma_members_with(s5, "outputAudioTranscription"@, optional_audio_transcription_config(config.output_audio_transcription));
    let w0 = Json::object();
    assert forall|key: Seq<char>| #[trigger] w0.member(key) is None by {}
    let w1 = w0.with_optional("setup"@, Some(s6));
    lemma_members_with(w0, "setup"@, Some(s6));
    assert(setup_json(config) == w1);
    let declarations = Seq::new(
        config.tools@.len(),
        |i: int| config.tools@[i].gemini_declaration.wire(),
    );
    let g0 = Json::object();
    assert forall|key: Seq<char>| #[trigger] g0.member(key) is None by {}
    let g1 = g0.with_optional("functionDeclarations"@, Some(Json::Array(declarations)));
    lemma_members_with(g0, "functionDeclarations"@, Some(Json::Array(declarations)));
    if config.tools@.len() > 0 {
        assert(declared_tools(config) == Some(Json::Array(seq![g1])));
    }
}

/// A text turn is one complete turn by the user, of one part, which is the text.
pub proof fn law_gemini_text_turn(text: Seq<char>)
    ensures
        GeminiBackend.text_turn(text) == Ok::<Seq<char>, Failure>(
            json_text(text_turn_json(text)),
        ),
        text_turn_json(text).member("clientContent"@) matches Some(content) && {
            &&& content.member("turnComplete"@) == Some(Json::Bool(true))
            &&& content.member("turns"@) matches Some(Json::Array(turns)) && turns.len() == 1 && {
                &&& turns[0].member("role"@) == Some(Json::String("user"@))
                &&& turns[0].member("parts"@) matches Some(Json::Array(parts)) && parts.len() == 1
                    && parts[0].member("text"@) == Some(Json::String(text))
            }
        },
        forall|other: Seq<char>|
            other != "clientContent"@ ==> (#[trigger] text_turn_json(text).member(other)) is None,
{
    reveal_strlit("parts");
    reveal_strlit("role");
    reveal_strlit("turns");
    reveal_strlit("turnComplete");
    assert("parts"@.len() == 5);
    assert("role"@.len() == 4);
    assert("turns"@.len() == 5);
    assert("turnComplete"@.len() == 12);
    assert("parts"@[0] != "turns"@[0]);
    let p0 = Json::object();
    assert forall|key: Seq<char>| #[trigger] p0.member(key) is None by {}
    let p1 = p0.with_optional("text"@, Some(Json::String(text)));
    lemma_members_with(p0, "text"@, Some(Json::String(text)));
    let t0 = Json::object();
    assert forall|key: Seq<char>| #[trigger] t0.member(key) is None by {}
    let t1 = t0.with_optional("parts"@, Some(Json::Array(seq![p1])));
    lemma_members_with(t0, "parts"@, Some(Json::Array(seq![p1])));
    let t2 = t1.with_optional("role"@, Some(Json::String("user"@)));
    lemma_members_with(t1, "role"@, Some(Json::String("user"@)));
    let c0 = Json::object();
    assert forall|key: Seq<char>| #[trigger] c0.member(key) is None by {}
    let c1 = c0.with_optional("turns"@, Some(Json::Array(seq![t2])));
    lemma_members_with(c0, "turns"@, Some(Json::Array(seq![t2])));
    let c2 = c1.with_optional("turnComplete"@, Some(Json::Bool(true)));
    lemma_members_with(c1, "turnComplete"@, Some(Json::Bool(true)));
    let w0 = Json::object();
    assert forall|key: Seq<char>| #[trigger] w0.member(key) is None by {}
    let w1 = w0.with_optional("clientContent"@, Some(c2));
    lemma_members_with(w0, "clientContent"@, Some(c2));
    assert(text_turn_json(text) == w1);
}

/// A chunk of audio is sent as the base64 text of its samples, with its sample rate; an
/// empty one cannot be sent.
pub proof fn law_gemini_audio_chunk(samples: Seq<i16>, sample_rate: u32, config: BackendConfig)
    ensures
        samples.len() == 0 ==> GeminiBackend.audio_chunk(samples, sample_rate, config) == Err::<
            Seq<char>,
            Failure,
        >(Failure::ConfigurationError("Audio samples cannot be empty"@)),
        samples.len() > 0 ==> ({
            let payload = audio_chunk_json(base64_text(pcm_bytes(samples)), sample_rate);
            &&& GeminiBackend.audio_chunk(samples, sample_rate, config) == Ok::<Seq<char>, Failure>(
                json_text(payload),
            )
            &&& payload.member("realtimeInput"@) matches Some(input)
            &&& input.member("audio"@) matches Some(blob)
            &&& blob.member("mimeType"@) == Some(
                Json::String("audio/pcm;rate="@ + decimal_text(sample_rate as nat)),
            )
            &&& blob.member("data"@) == Some(Json::String(base64_text(pcm_bytes(samples))))
        }),
{
    reveal_strlit("mimeType");
    reveal_strlit("data");
    assert("mimeType"@.len() == 8);
    assert("data"@.len() == 4);
    let audio = base64_text(pcm_bytes(samples));
    let b0 = Json::object();
    assert forall|key: Seq<char>| #[trigger] b0.member(key) is None by {}
    let b1 = b0.with_optional("mimeType"@, Some(Json::String(audio_mime_type(sample_rate))));
    lemma_members_with(b0, "mimeType"@, Some(Json::String(audio_mime_type(sample_rate))));
    let b2 = b1.with_optional("data"@, Some(Json::String(audio)));
    lemma_members_with(b1, "data"@, Some(Json::String(audio)));
    let i0 = Json::object();
    assert forall|key: Seq<char>| #[trigger] i0.member(key) is None by {}
    let i1 = i0.with_optional("audio"@, Some(b2));
    lemma_members_with(i0, "audio"@, Some(b2));
    let w0 = Json::object();
    assert forall|key: Seq<char>| #[trigger] w0.member(key) is None by {}
    let w1 = w0.with_optional("realtimeInput"@, Some(i1));
    lemma_members_with(w0, "realtimeInput"@, Some(i1));
    assert(audio_chunk_json(audio, sample_rate) == w1);
}

/// The end of the audio stream is marked as such.
pub proof fn law_gemini_audio_stream_end()
    ensures
        GeminiBackend.audio_stream_end() == Ok::<Seq<char>, Failure>(
            json_text(audio_stream_end_json()),
        ),
        audio_stream_end_json().member("realtimeInput"@) matches Some(input) && input.member(
            "audioStreamEnd"@,
        ) == Some(Json::Bool(true)),
{
    let i0 = Json::object();
    assert forall|key: Seq<char>| #[trigger] i0.member(key) is None by {}
    let i1 = i0.with_optional("audioStreamEnd"@, Some(Json::Bool(true)));
    lemma_members_with(i0, "audioStreamEnd"@, Some(Json::Bool(true)));
    let w0 = Json::object();
    assert forall|key: Seq<char>| #[trigger] w0.member(key) is None by {}
    let w1 = w0.with_optional("realtimeInput"@, Some(i1));
    lemma_members_with(w0, "realtimeInput"@, Some(i1));
    assert(audio_stream_end_json() == w1);
}

/// All results of calls go out in one message, each in its own place with the name, the
/// result and the id of its call.
pub proof fn law_gemini_tool_responses(responses: Seq<FunctionResponse>, i: int)
    ensures
        GeminiBackend.tool_response(responses) == Ok::<Seq<char>, Failure>(
            json_text(tool_response_json(function_responses(responses))),
        ),
        ({
            &&& tool_response_json(function_responses(responses)).member("toolResponse"@) matches Some(body)
            &&& body.member("functionResponses"@) matches Some(Json::Array(items))
            &&& items.len() == responses.len()
            &&& 0 <= i < items.len() ==> {
                &&& items[i].member("name"@) == Some(Json::String(responses[i].name@))
                &&& items[i].member("response"@) == Some(responses[i].response@)
                &&& responses[i].id matches Some(id) ==> items[i].member("id"@) == Some(
                    Json::String(id@),
                )
                &&& responses[i].id is None ==> items[i].member("id"@) is None
            }
        }),
{
    let b0 = Json::object();
    assert forall|key: Seq<char>| #[trigger] b0.member(key) is None by {}
    let b1 = b0.with_optional("functionResponses"@, Some(function_responses(responses)));
    lemma_members_with(b0, "functionResponses"@, Some(function_responses(responses)));
    let w0 = Json::object();
    assert forall|key: Seq<char>| #[trigger] w0.member(key) is None by {}
    let w1 = w0.with_optional("toolResponse"@, Some(b1));
    lemma_members_with(w0, "toolResponse"@, Some(b1));
    assert(tool_response_json(function_responses(responses)) == w1);
    if 0 <= i < responses.len() {
        law_response_wire(responses[i]);
    }
}

/// Calls are answered in one message, each in its own place under its own name and id,
/// with the value that came of it or the reason that there is none. Without calls there
/// is no answer.
pub proof fn law_gemini_answers(answers: Seq<(ToolRequest, ToolOutcome)>, i: int)
    ensures
        gemini_reply(answers) is None <==> answers.len() == 0,
        answers.len() > 0 ==> gemini_reply(answers) == Some(
            json_text(tool_response_json(answers_json(answers))),
        ),
        ({
            &&& tool_response_json(answers_json(answers)).member("toolResponse"@) matches Some(body)
            &&& body.member("functionResponses"@) matches Some(Json::Array(items))
            &&& items.len() == answers.len()
            &&& 0 <= i < items.len() ==> {
                &&& items[i].member("name"@) == Some(Json::String(answers[i].0.name@))
                &&& items[i].member("response"@) == Some(answer(answers[i].1))
                &&& answers[i].0.id matches Some(id) ==> items[i].member("id"@) == Some(
                    Json::String(id@),
                )
                &&& answers[i].0.id is None ==> items[i].member("id"@) is None
            }
        }),
{
    let b0 = Json::object();
    assert forall|key: Seq<char>| #[trigger] b0.member(key) is None by {}
    let b1 = b0.with_optional("functionResponses"@, Some(answers_json(answers)));
    lemma_members_with(b0, "functionResponses"@, Some(answers_json(answers)));
    let w0 = Json::object();
    assert forall|key: Seq<char>| #[trigger] w0.member(key) is None by {}
    let w1 = w0.with_optional("toolResponse"@, Some(b1));
    lemma_members_with(w0, "toolResponse"@, Some(b1));
    assert(tool_response_json(answers_json(answers)) == w1);
    if 0 <= i < answers.len() {
        let call = answers[i].0;
        let came = answer(answers[i].1);
        reveal_strlit("name");
        reveal_strlit("response");
        reveal_strlit("id");
        assert("name"@.len() == 4);
        assert("response"@.len() == 8);
        assert("id"@.len() == 2);
        let r0 = Json::object();
        assert forall|key: Seq<char>| #[trigger] r0.member(key) is None by {}
        let r1 = r0.with_optional("name"@, Some(Json::String(call.name@)));
        lemma_members_with(r0, "name"@, Some(Json::String(call.name@)));
        let r2 = r1.with_optional("response"@, Some(came));
        lemma_members_with(r1, "response"@, Some(came));
        let r3 = r2.with_optional("id"@, text_json(call.id));
        lemma_members_with(r2, "id"@, text_json(call.id));
        assert(answered(call, answers[i].1) == r3);
    }
}

/// Gemini is itself, takes a request as it is, and has no message to update a session
/// or to ask for a response.
pub proof fn law_gemini_has_no_such_messages(
    api_key: Seq<char>,
    request: Request,
    config: BackendConfig,
)
    ensures
        GeminiBackend.provider() == ApiProvider::Gemini,
        GeminiBackend.configured(api_key, request, config) == Ok::<Request, Failure>(request),
        GeminiBackend.session_update(config) == Err::<Seq<char>, Failure>(
            Failure::UnsupportedOperation("Session update message not applicable for Gemini"@),
        ),
        GeminiBackend.request_response() == Err::<Seq<char>, Failure>(
            Failure::UnsupportedOperation(
                "Explicit response request not applicable for Gemini"@,
            ),
        ),
{
}

/// The service is reached at its own URL, with the key at the end; a key with something
/// in it to escape goes through the URL parser, whose failure is reported.
pub proof fn law_gemini_url(api_key: Seq<char>)
    ensures
        plain_query(api_key) && api_key.len() <= 65000 ==> GeminiBackend.url(api_key) == Ok::<
            Seq<char>,
            Failure,
        >(
            "wss://generativelanguage.googleapis.com/ws/google.ai.generativelanguage.v1beta.GenerativeService.BidiGenerateContent?key="@
                + api_key,
        ),
        !plain_query(api_key) ==> match parsed_url(
            "wss://generativelanguage.googleapis.com/ws/google.ai.generativelanguage.v1beta.GenerativeService.BidiGenerateContent?key="@
                + api_key,
        ) {
            Ok(url) => GeminiBackend.url(api_key) == Ok::<Seq<char>, Failure>(url),
            Err(e) => GeminiBackend.url(api_key) == Err::<Seq<char>, Failure>(
                Failure::ConfigurationError("Invalid Gemini URL: "@ + e),
            ),
        },
{
    reveal_strlit("wss://generativelanguage.googleapis.com/ws/google.ai.generativelanguage.v1beta.GenerativeService.BidiGenerateContent?key=");
    if plain_query(api_key) && api_key.len() <= 65000 {
        lemma_gemini_address_plain(api_key);
    }
    if !plain_query(api_key) {
        reveal_strlit("key=");
        let query = "key="@ + api_key;
        let i = choose|i: int|
            0 <= i < api_key.len() && !(plain_char(#[trigger] api_key[i]) || api_key[i] == '='
                || api_key[i] == '&');
        assert(query[i + 4] == api_key[i]);
        assert(!plain_query(query));
    }
}

} // verus!
