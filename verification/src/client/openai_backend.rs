//! The OpenAI Realtime API: its messages, and what its events come to.
use crate::audio::{
    audio_of, base64_decoded, base64_text, decode_audio, decodes_to, encode_audio,
    law_samples_survive_bytes, pcm_bytes, pcm_samples, samples_outcome,
};
use crate::client::backend::{
    announced, answer, arrival, batch_outcome, calls, deliver, events, law_bytes_arrive_as_text,
    lemma_announced_concat, lemma_announced_none, message_of, push_event, respond, texts, ApiError,
    ApiProvider, Arrival, BackendConfig, Batch, Call, Delivery, Event, Frame, HandshakeRequest,
    LiveApiBackend, Outcome, Request, ToolOutcome, ToolRequest, UnifiedServerEvent,
};
use crate::client::request::{
    check_header_value, header_text, insert_header, join_target, law_set_header, missing_part,
    no_dot_segment, parse_url, parsed_target, plain_char, plain_host, plain_path, plain_query, plain_target,
    set_header, target_of, Address,
};
use crate::error::{Failure, GeminiError};
use crate::json::{
    json_text, lemma_members_with, lemma_plain_reads_back, lemma_plain_with, parse_outcome,
    parsed_json, parses_to, reads_back, trees, Json, JsonObject, JsonValue,
};
use crate::text::{join, join3, same_text};
use crate::types::{optional_temperature, text_json, text_option, text_to_json, FunctionResponse};
use vstd::prelude::*;
use vstd::utf8::encode_utf8;

verus! {

/// The OpenAI Realtime API.
pub struct OpenAiBackend;

/// The format that audio is in: the one that is named, or else 16-bit PCM.
pub open spec fn format_or_pcm16(format: Option<Seq<char>>) -> Seq<char> {
    match format {
        Some(format) => format,
        None => "pcm16"@,
    }
}

/// The format that audio is in.
fn audio_format(format: &Option<String>) -> (r: &str)
    ensures
        r@ == format_or_pcm16(text_option(*format)),
{
    match format {
        Some(format) => format.as_str(),
        None => "pcm16",
    }
}

/// What the audio of an event means: samples, where the format is 16-bit PCM.
pub open spec fn event_audio(
    decoded: Result<Seq<u8>, Seq<char>>,
    format: Option<Seq<char>>,
) -> Result<Seq<i16>, Failure> {
    if format_or_pcm16(format) == "pcm16"@ {
        audio_of(decoded)
    } else {
        Err(
            Failure::UnsupportedOperation(
                "Audio decoding for format '"@ + format_or_pcm16(format)
                    + "' not yet implemented for OpenAI"@,
            ),
        )
    }
}

/// The text of the system instruction's first part, where there is one.
pub open spec fn instructions(config: BackendConfig) -> Option<Json> {
    match config.system_instruction {
        Some(content) => if content.parts@.len() > 0 {
            text_json(content.parts@[0].text)
        } else {
            None
        },
        None => None,
    }
}

/// The definitions of the tools.
pub open spec fn tool_definitions(config: BackendConfig) -> Json {
    Json::Array(Seq::new(config.tools@.len(), |i: int| config.tools@[i].openai_definition@))
}

/// How input audio is to be transcribed, if it is.
pub open spec fn transcription(config: BackendConfig) -> Option<Json> {
    if config.output_audio_transcription is Some || config.transcription_model is Some {
        let model = match config.transcription_model {
            Some(model) => model@,
            None => "gpt-4o-transcribe"@,
        };
        Some(
            Json::object()
                .with("model"@, Json::String(model))
                .with_optional("language"@, text_json(config.transcription_language))
                .with_optional("prompt"@, text_json(config.transcription_prompt)),
        )
    } else {
        None
    }
}

/// The sampling temperature, if one is set.
pub open spec fn temperature(config: BackendConfig) -> Option<Json> {
    match config.generation_config {
        Some(generation) => optional_temperature(generation.temperature),
        None => None,
    }
}

/// The value, on a condition.
pub open spec fn on_condition(condition: bool, value: Json) -> Option<Json> {
    if condition {
        Some(value)
    } else {
        None
    }
}

/// The session as the service is told to set it up.
pub open spec fn session_json(config: BackendConfig) -> Json {
    let has_tools = config.tools@.len() > 0;
    Json::object()
        .with_optional("instructions"@, instructions(config))
        .with_optional("tools"@, on_condition(has_tools, tool_definitions(config)))
        .with_optional("tool_choice"@, on_condition(has_tools, Json::String("auto"@)))
        .with_optional("voice"@, text_json(config.voice))
        .with_optional("input_audio_format"@, text_json(config.input_audio_format))
        .with_optional("output_audio_format"@, text_json(config.output_audio_format))
        .with_optional("input_audio_transcription"@, transcription(config))
        .with_optional(
            "include"@,
            on_condition(
                config.include_logprobs,
                Json::Array(seq![Json::String("item.input_audio_transcription.logprobs"@)]),
            ),
        )
        .with_optional("temperature"@, temperature(config))
}

/// The payload that sets the session up.
pub open spec fn session_update_json(config: BackendConfig) -> Json {
    Json::object()
        .with("type"@, Json::String("session.update"@))
        .with("session"@, session_json(config))
}

/// The payload that sets the session up.
pub fn session_update_payload(config: &BackendConfig) -> (r: JsonValue)
    ensures
        r@ == session_update_json(*config),
{
    let session = JsonObject::new();
    let instructions = match &config.system_instruction {
        Some(content) => if content.parts.len() > 0 {
            text_to_json(&content.parts[0].text)
        } else {
            None
        },
        None => None,
    };
    let session = session.with_optional("instructions", instructions);
    let has_tools = config.tools.len() > 0;
    let session = if has_tools {
        session.with_value("tools", tool_definitions_payload(config)).with_text(
            "tool_choice",
            "auto",
        )
    } else {
        session
    };
    let session = session.with_optional("voice", text_to_json(&config.voice));
    let session = session.with_optional(
        "input_audio_format",
        text_to_json(&config.input_audio_format),
    );
    let session = session.with_optional(
        "output_audio_format",
        text_to_json(&config.output_audio_format),
    );
    let session = session.with_optional(
        "input_audio_transcription",
        transcription_payload(config),
    );
    let session = if config.include_logprobs {
        let mut included: Vec<JsonValue> = Vec::new();
        included.push(JsonValue::string("item.input_audio_transcription.logprobs"));
        let included = JsonValue::Array(included);
        assert(included@->Array_0 =~= seq![
            Json::String("item.input_audio_transcription.logprobs"@),
        ]);
        session.with_value("include", included)
    } else {
        session
    };
    let temperature = match &config.generation_config {
        Some(generation) => match &generation.temperature {
            Some(temperature) => Some(temperature.to_json()),
            None => None,
        },
        None => None,
    };
    let session = session.with_optional("temperature", temperature);
    let update = JsonObject::new().with_text("type", "session.update").with_value(
        "session",
        JsonValue::Object(session),
    );
    JsonValue::Object(update)
}

/// The definitions of the tools.
fn tool_definitions_payload(config: &BackendConfig) -> (r: JsonValue)
    ensures
        r@ == tool_definitions(*config),
{
    let mut definitions: Vec<JsonValue> = Vec::new();
    for i in 0..config.tools.len()
        invariant
            definitions.len() == i,
            forall|j: int|
                0 <= j < i ==> (#[trigger] definitions@[j])@
                    == config.tools@[j].openai_definition@,
    {
        definitions.push(config.tools[i].openai_definition.clone());
    }
    let r = JsonValue::Array(definitions);
    assert(r@->Array_0 =~= tool_definitions(*config)->Array_0);
    r
}

/// How input audio is to be transcribed, if it is.
fn transcription_payload(config: &BackendConfig) -> (r: Option<JsonValue>)
    ensures
        crate::json::tree_option(r) == transcription(*config),
{
    if config.output_audio_transcription.is_some() || config.transcription_model.is_some() {
        let model = match &config.transcription_model {
            Some(model) => model.as_str(),
            None => "gpt-4o-transcribe",
        };
        let object = JsonObject::new().with_text("model", model);
        let object = object.with_optional(
            "language",
            text_to_json(&config.transcription_language),
        );
        let object = object.with_optional("prompt", text_to_json(&config.transcription_prompt));
        Some(JsonValue::Object(object))
    } else {
        None
    }
}

/// The payload of a turn of text.
pub open spec fn text_turn_json(text: Seq<char>) -> Json {
    let part = Json::object()
        .with("type"@, Json::String("input_text"@))
        .with("text"@, Json::String(text));
    let item = Json::object()
        .with("type"@, Json::String("message"@))
        .with("role"@, Json::String("user"@))
        .with("content"@, Json::Array(seq![part]));
    Json::object()
        .with("type"@, Json::String("conversation.item.create"@))
        .with("item"@, item)
}

/// The payload of a turn of text.
pub fn text_turn_payload(text: &str) -> (r: JsonValue)
    ensures
        r@ == text_turn_json(text@),
{
    let part = JsonValue::Object(
        JsonObject::new().with_text("type", "input_text").with_text("text", text),
    );
    let ghost part_json = part@;
    let mut parts: Vec<JsonValue> = Vec::new();
    parts.push(part);
    let content = JsonValue::Array(parts);
    assert(content@->Array_0 =~= seq![part_json]);
    let item = JsonObject::new().with_text("type", "message").with_text("role", "user").with_value(
        "content",
        content,
    );
    JsonValue::Object(
        JsonObject::new().with_text("type", "conversation.item.create").with_value(
            "item",
            JsonValue::Object(item),
        ),
    )
}

/// The payload of a chunk of audio in base64.
pub open spec fn audio_chunk_json(audio: Seq<char>) -> Json {
    Json::object()
        .with("type"@, Json::String("input_audio_buffer.append"@))
        .with("audio"@, Json::String(audio))
}

/// The payload that ends the audio stream: a commit of what was appended.
pub open spec fn audio_stream_end_json() -> Json {
    Json::object().with("type"@, Json::String("input_audio_buffer.commit"@))
}

/// The payload that asks for a response.
pub open spec fn request_response_json() -> Json {
    Json::object()
        .with("type"@, Json::String("response.create"@))
        .with("response"@, Json::object())
}

/// The JSON of an id that may be absent.
pub open spec fn id_json(id: Option<Seq<char>>) -> Json {
    match id {
        Some(id) => Json::String(id),
        None => Json::Null,
    }
}

/// The payload that carries the output of a call.
pub open spec fn tool_output_json(id: Option<Seq<char>>, output: Seq<char>) -> Json {
    let item = Json::object()
        .with("type"@, Json::String("function_call_output"@))
        .with("call_id"@, id_json(id))
        .with("output"@, Json::String(output));
    Json::object()
        .with("type"@, Json::String("conversation.item.create"@))
        .with("item"@, item)
}

/// The payload that carries the result of a call. The service takes the result as
/// a string: the result's own JSON text.
pub open spec fn tool_response_json(id: Option<Seq<char>>, response: Json) -> Json {
    tool_output_json(id, json_text(response))
}

/// The payload that carries the output of a call.
pub fn tool_output_payload(id: &Option<String>, output: &str) -> (r: JsonValue)
    ensures
        r@ == tool_output_json(text_option(*id), output@),
        r@.plain_within(2),
{
    let call_id = match id {
        Some(id) => JsonValue::string(id.as_str()),
        None => JsonValue::Null,
    };
    proof {
        let item = Json::object().with("type"@, Json::String("function_call_output"@));
        lemma_plain_with(Json::object(), "type"@, Json::String("function_call_output"@), 1);
        lemma_plain_with(item, "call_id"@, call_id@, 1);
        lemma_plain_with(item.with("call_id"@, call_id@), "output"@, Json::String(output@), 1);
        let whole = Json::object().with("type"@, Json::String("conversation.item.create"@));
        lemma_plain_with(Json::object(), "type"@, Json::String("conversation.item.create"@), 2);
        lemma_plain_with(
            whole,
            "item"@,
            item.with("call_id"@, call_id@).with("output"@, Json::String(output@)),
            2,
        );
    }
    let item = JsonObject::new().with_text("type", "function_call_output").with_value(
        "call_id",
        call_id,
    ).with_text("output", output);
    JsonValue::Object(
        JsonObject::new().with_text("type", "conversation.item.create").with_value(
            "item",
            JsonValue::Object(item),
        ),
    )
}

/// The payload of a text turn has no numbers and little nesting.
proof fn lemma_text_turn_plain(text: Seq<char>)
    ensures
        text_turn_json(text).plain_within(4),
{
    let part = Json::object().with("type"@, Json::String("input_text"@));
    lemma_plain_with(Json::object(), "type"@, Json::String("input_text"@), 1);
    lemma_plain_with(part, "text"@, Json::String(text), 1);
    let part = part.with("text"@, Json::String(text));
    let content = Json::Array(seq![part]);
    assert(content.plain_within(2));
    let item = Json::object().with("type"@, Json::String("message"@));
    lemma_plain_with(Json::object(), "type"@, Json::String("message"@), 3);
    lemma_plain_with(item, "role"@, Json::String("user"@), 3);
    let item = item.with("role"@, Json::String("user"@));
    lemma_plain_with(item, "content"@, content, 3);
    let item = item.with("content"@, content);
    let whole = Json::object().with("type"@, Json::String("conversation.item.create"@));
    lemma_plain_with(Json::object(), "type"@, Json::String("conversation.item.create"@), 4);
    lemma_plain_with(whole, "item"@, item, 4);
}

/// The URL that the service is reached at. The key does not enter it.
pub open spec fn openai_url() -> Seq<char> {
    "wss://api.openai.com/v1/realtime"@
}

/// Where the service is reached.
pub open spec fn openai_address() -> Address {
    Address { host: "api.openai.com"@, path: "/v1/realtime"@, query: None }
}

/// The service is reached at a plain address.
pub proof fn lemma_openai_address()
    ensures
        openai_address().plain(),
        openai_address().text() == openai_url(),
{
    reveal_strlit("wss://api.openai.com/v1/realtime");
    reveal_strlit("wss://");
    reveal_strlit("api.openai.com");
    reveal_strlit("/v1/realtime");
    let host = seq!['a', 'p', 'i', '.', 'o', 'p', 'e', 'n', 'a', 'i', '.', 'c', 'o', 'm'];
    let path = seq!['/', 'v', '1', '/', 'r', 'e', 'a', 'l', 't', 'i', 'm', 'e'];
    assert("api.openai.com"@ =~= host);
    assert("/v1/realtime"@ =~= path);
    assert(plain_host(host));
    assert(plain_path(path));
    assert(no_dot_segment(path));
    assert(openai_address().text() =~= openai_url());
}

/// The key does not enter the URL: with any two keys the service is reached at the
/// same.
pub proof fn law_openai_url_without_key(one: Seq<char>, other: Seq<char>)
    ensures
        OpenAiBackend.url(one) == Ok::<Seq<char>, Failure>(openai_url()),
        OpenAiBackend.url(other) == OpenAiBackend.url(one),
        OpenAiBackend.url(one) == Ok::<Seq<char>, Failure>("wss://api.openai.com/v1/realtime"@),
{
}

/// The query of the request, with the model added at the end.
pub open spec fn query_with_model(
    target: Option<(Seq<char>, Option<Seq<char>>)>,
    model: Seq<char>,
) -> Seq<char> {
    match target {
        Some((_, Some(query))) => query + "&"@ + ("model="@ + model),
        _ => "model="@ + model,
    }
}

/// The path of the request: the root where it has none.
pub open spec fn path_or_root(target: Option<(Seq<char>, Option<Seq<char>>)>) -> Seq<char> {
    match target {
        Some((path, _)) => path,
        None => "/"@,
    }
}

/// The headers of the request, with the key and the mark of the beta.
pub open spec fn openai_headers(
    headers: Seq<(Seq<char>, Seq<char>)>,
    api_key: Seq<char>,
) -> Seq<(Seq<char>, Seq<char>)> {
    set_header(
        set_header(headers, "authorization"@, "Bearer "@ + api_key),
        "openai-beta"@,
        "realtime=v1"@,
    )
}

/// The request, made ready for the service: the key goes into a header, the model
/// into the query.
pub open spec fn openai_request(
    api_key: Seq<char>,
    request: Request,
    model: Seq<char>,
) -> Result<Request, Failure> {
    if !header_text("Bearer "@ + api_key) {
        Err(
            Failure::ConfigurationError(
                "Invalid API key format: "@ + "failed to parse header value"@,
            ),
        )
    } else {
        match target_of(
            path_or_root(request.target),
            query_with_model(request.target, model),
        ) {
            Err(e) => Err(Failure::ConfigurationError("Failed to build query string: "@ + e)),
            Ok(target) => match missing_part(request.scheme is Some, request.authority is Some) {
                Some(e) => Err(Failure::ConfigurationError("Failed to reconstruct URI: "@ + e)),
                None => Ok(
                    Request {
                        scheme: request.scheme,
                        authority: request.authority,
                        target: Some(target),
                        headers: openai_headers(request.headers, api_key),
                    },
                ),
            },
        }
    }
}

impl LiveApiBackend for OpenAiBackend {
    open spec fn provider(&self) -> ApiProvider {
        ApiProvider::OpenAi
    }

    open spec fn url(&self, api_key: Seq<char>) -> Result<Seq<char>, Failure> {
        Ok(openai_url())
    }

    open spec fn configured(
        &self,
        api_key: Seq<char>,
        request: Request,
        config: BackendConfig,
    ) -> Result<Request, Failure> {
        openai_request(api_key, request, config.model@)
    }

    open spec fn initial_messages(&self, config: BackendConfig) -> Result<
        Seq<Seq<char>>,
        Failure,
    > {
        Ok(seq![json_text(session_update_json(config))])
    }

    open spec fn session_update(&self, config: BackendConfig) -> Result<Seq<char>, Failure> {
        Ok(json_text(session_update_json(config)))
    }

    open spec fn text_turn(&self, text: Seq<char>) -> Result<Seq<char>, Failure> {
        Ok(json_text(text_turn_json(text)))
    }

    open spec fn audio_chunk(
        &self,
        samples: Seq<i16>,
        sample_rate: u32,
        config: BackendConfig,
    ) -> Result<Seq<char>, Failure> {
        let format = format_or_pcm16(text_option(config.input_audio_format));
        if samples.len() == 0 {
            Err(Failure::ConfigurationError("Audio samples cannot be empty"@))
        } else if format != "pcm16"@ {
            Err(
                Failure::UnsupportedOperation(
                    "Audio encoding for format '"@ + format
                        + "' not yet implemented for OpenAI"@,
                ),
            )
        } else {
            Ok(json_text(audio_chunk_json(base64_text(pcm_bytes(samples)))))
        }
    }

    open spec fn audio_stream_end(&self) -> Result<Seq<char>, Failure> {
        Ok(json_text(audio_stream_end_json()))
    }

    open spec fn tool_response(&self, responses: Seq<FunctionResponse>) -> Result<
        Seq<char>,
        Failure,
    > {
        if responses.len() > 0 {
            Ok(
                json_text(
                    tool_response_json(text_option(responses[0].id), responses[0].response@),
                ),
            )
        } else {
            Err(Failure::ConfigurationError("No tool responses provided for OpenAI"@))
        }
    }

    open spec fn request_response(&self) -> Result<Seq<char>, Failure> {
        Ok(json_text(request_response_json()))
    }

    fn provider_type(&self) -> (r: ApiProvider) {
        ApiProvider::OpenAi
    }

    fn get_websocket_url(&self, api_key: &str) -> (r: Result<String, GeminiError>) {
        proof {
            lemma_openai_address();
        }
        match parse_url("wss://api.openai.com/v1/realtime") {
            Ok(url) => Ok(url),
            Err(e) => Err(
                GeminiError::ConfigurationError(join("Invalid OpenAI URL: ", e.as_str())),
            ),
        }
    }

    /// The key goes into the `authorization` header, the model into the query. On
    /// a request with scheme and authority, with a key that a header can hold and
    /// nothing in path, query and model to escape, this succeeds, and the query
    /// ends with the model.
    fn configure_websocket_request(
        &self,
        api_key: &str,
        request: HandshakeRequest,
        config: &BackendConfig,
    ) -> (r: Result<HandshakeRequest, GeminiError>)
        ensures
            header_text("Bearer "@ + api_key@) && request@.scheme is Some && request@.authority
                is Some && plain_target(
                path_or_root(request@.target),
                query_with_model(request@.target, config.model@),
            ) ==> (r matches Ok(ready) && ready@.target == Some(
                (
                    path_or_root(request@.target),
                    Some(query_with_model(request@.target, config.model@)),
                ),
            )),
    {
        let bearer = join("Bearer ", api_key);
        if let Err(e) = check_header_value(bearer.as_str()) {
            return Err(
                GeminiError::ConfigurationError(join("Invalid API key format: ", e.as_str())),
            );
        }
        let HandshakeRequest { scheme, authority, target, headers } = request;
        let headers = insert_header(headers, "authorization", bearer);
        let headers = insert_header(headers, "openai-beta", "realtime=v1".to_owned());
        let model = join("model=", config.model.as_str());
        let (path, query) = match target {
            Some(target) => {
                let query = match &target.query {
                    Some(query) => join3(query.as_str(), "&", model.as_str()),
                    None => model,
                };
                (target.path, query)
            },
            None => ("/".to_owned(), model),
        };
        let target = match join_target(path.as_str(), query.as_str()) {
            Ok(target) => target,
            Err(e) => {
                return Err(
                    GeminiError::ConfigurationError(
                        join("Failed to build query string: ", e.as_str()),
                    ),
                );
            },
        };
        if scheme.is_some() && authority.is_none() {
            return Err(
                GeminiError::ConfigurationError(
                    join("Failed to reconstruct URI: ", "authority missing"),
                ),
            );
        }
        if scheme.is_none() && authority.is_some() {
            return Err(
                GeminiError::ConfigurationError(
                    join("Failed to reconstruct URI: ", "scheme missing"),
                ),
            );
        }
        Ok(HandshakeRequest { scheme, authority, target: Some(target), headers })
    }

    /// One message: the session update. Where [`reads_back`] covers the payload that
    /// sets the session up, the message parses to it.
    fn get_initial_messages(&self, config: &BackendConfig) -> (r: Result<
        Vec<String>,
        GeminiError,
    >)
        ensures
            r matches Ok(messages) && messages@.len() == 1 && (reads_back(
                session_update_json(*config),
            ) ==> parses_to(messages@[0]@, session_update_json(*config))),
    {
        match self.build_session_update_message(config) {
            Ok(message) => {
                let mut messages: Vec<String> = Vec::new();
                messages.push(message);
                assert(texts(messages@) =~= seq![json_text(session_update_json(*config))]);
                Ok(messages)
            },
            Err(e) => Err(e),
        }
    }

    /// Where [`reads_back`] covers the payload that sets the session up, the message
    /// parses to it.
    fn build_session_update_message(&self, config: &BackendConfig) -> (r: Result<
        String,
        GeminiError,
    >)
        ensures
            r is Ok,
            reads_back(session_update_json(*config)) ==> parses_to(
                r->Ok_0@,
                session_update_json(*config),
            ),
    {
        message_of(&session_update_payload(config))
    }

    /// The message parses to the payload of the turn.
    fn build_text_turn_message(&self, text: String) -> (r: Result<String, GeminiError>)
        ensures
            r is Ok,
            parses_to(r->Ok_0@, text_turn_json(text@)),
    {
        proof {
            lemma_text_turn_plain(text@);
            lemma_plain_reads_back(text_turn_json(text@), 4);
        }
        message_of(&text_turn_payload(text.as_str()))
    }

    /// A message parses to a payload whose audio decodes to the samples.
    fn build_audio_chunk_message(
        &self,
        audio_samples: &[i16],
        sample_rate: u32,
        config: &BackendConfig,
    ) -> (r: Result<String, GeminiError>)
        ensures
            r matches Ok(message) ==> parses_to(
                message@,
                audio_chunk_json(base64_text(pcm_bytes(audio_samples@))),
            ) && audio_of(base64_decoded(base64_text(pcm_bytes(audio_samples@)))) == Ok::<
                Seq<i16>,
                Failure,
            >(audio_samples@),
    {
        if audio_samples.len() == 0 {
            return Err(
                GeminiError::ConfigurationError("Audio samples cannot be empty".to_owned()),
            );
        }
        let format = audio_format(&config.input_audio_format);
        if !same_text(format, "pcm16") {
            return Err(
                GeminiError::UnsupportedOperation(
                    join3(
                        "Audio encoding for format '",
                        format,
                        "' not yet implemented for OpenAI",
                    ),
                ),
            );
        }
        let audio = encode_audio(audio_samples);
        proof {
            let whole = Json::object().with("type"@, Json::String("input_audio_buffer.append"@));
            lemma_plain_with(
                Json::object(),
                "type"@,
                Json::String("input_audio_buffer.append"@),
                1,
            );
            lemma_plain_with(whole, "audio"@, Json::String(audio@), 1);
            lemma_plain_reads_back(audio_chunk_json(audio@), 1);
        }
        let payload = JsonObject::new().with_text("type", "input_audio_buffer.append").with_text(
            "audio",
            audio.as_str(),
        );
        message_of(&JsonValue::Object(payload))
    }

    /// The message parses to the payload of a commit.
    fn build_audio_stream_end_message(&self) -> (r: Result<String, GeminiError>)
        ensures
            r is Ok,
            parses_to(r->Ok_0@, audio_stream_end_json()),
    {
        proof {
            lemma_plain_with(
                Json::object(),
                "type"@,
                Json::String("input_audio_buffer.commit"@),
                1,
            );
            lemma_plain_reads_back(audio_stream_end_json(), 1);
        }
        message_of(
            &JsonValue::Object(JsonObject::new().with_text("type", "input_audio_buffer.commit")),
        )
    }

    /// The first response is the one that is sent; its message parses to the
    /// payload that carries it. The output in it is JSON text, which parses to the
    /// response where [`reads_back`] covers that.
    fn build_tool_response_message(&self, responses: Vec<FunctionResponse>) -> (r: Result<
        String,
        GeminiError,
    >)
        ensures
            r matches Ok(message) ==> parses_to(
                message@,
                tool_response_json(text_option(responses@[0].id), responses@[0].response@),
            ),
            responses@.len() > 0 && reads_back(responses@[0].response@) ==> parses_to(
                json_text(responses@[0].response@),
                responses@[0].response@,
            ),
    {
        if responses.len() > 0 {
            let output = match responses[0].response.to_text() {
                Ok(output) => output,
                Err(e) => return Err(GeminiError::SerdeError(e)),
            };
            let payload = tool_output_payload(&responses[0].id, output.as_str());
            proof {
                lemma_plain_reads_back(payload@, 2);
            }
            message_of(&payload)
        } else {
            Err(
                GeminiError::ConfigurationError(
                    "No tool responses provided for OpenAI".to_owned(),
                ),
            )
        }
    }

    /// The message parses to the payload that asks for a response.
    fn build_request_response_message(&self) -> (r: Result<String, GeminiError>)
        ensures
            r is Ok,
            parses_to(r->Ok_0@, request_response_json()),
    {
        proof {
            let whole = Json::object().with("type"@, Json::String("response.create"@));
            lemma_plain_with(Json::object(), "type"@, Json::String("response.create"@), 2);
            lemma_plain_with(whole, "response"@, Json::object(), 2);
            lemma_plain_reads_back(request_response_json(), 2);
        }
        message_of(
            &JsonValue::Object(
                JsonObject::new().with_text("type", "response.create").with_value(
                    "response",
                    JsonValue::Object(JsonObject::new()),
                ),
            ),
        )
    }
}

/// Events that are not surfaced: the model is busy, or says again what another
/// event says.
pub open spec fn is_intermediate(kind: Seq<char>) -> bool {
    ||| kind == "response.created"@
    ||| kind == "input_audio_buffer.speech_started"@
    ||| kind == "input_audio_buffer.speech_stopped"@
    ||| kind == "input_audio_buffer.committed"@
    ||| kind == "input_audio_buffer.cleared"@
    ||| kind == "response.audio.done"@
    ||| kind == "response.text.done"@
    ||| kind == "response.content_part.added"@
    ||| kind == "response.content_part.done"@
    ||| kind == "response.output_item.added"@
    ||| kind == "response.output_item.done"@
    ||| kind == "conversation.item.created"@
    ||| kind == "conversation.item.updated"@
    ||| kind == "conversation.item.deleted"@
}

fn intermediate(kind: &str) -> (r: bool)
    ensures
        r == is_intermediate(kind@),
{
    same_text(kind, "response.created") || same_text(kind, "input_audio_buffer.speech_started")
        || same_text(kind, "input_audio_buffer.speech_stopped") || same_text(
        kind,
        "input_audio_buffer.committed",
    ) || same_text(kind, "input_audio_buffer.cleared") || same_text(kind, "response.audio.done")
        || same_text(kind, "response.text.done") || same_text(kind, "response.content_part.added")
        || same_text(kind, "response.content_part.done") || same_text(
        kind,
        "response.output_item.added",
    ) || same_text(kind, "response.output_item.done") || same_text(
        kind,
        "conversation.item.created",
    ) || same_text(kind, "conversation.item.updated") || same_text(
        kind,
        "conversation.item.deleted",
    )
}

/// The text of a member, or `default` where the member is no text.
pub open spec fn text_or(event: Json, key: Seq<char>, default: Seq<char>) -> Seq<char> {
    match event.text_member(key) {
        Some(text) => text,
        None => default,
    }
}

fn member_text(event: &JsonValue, key: &str, default: &str) -> (r: String)
    ensures
        r@ == text_or(event@, key@, default@),
{
    match event.get_str(key) {
        Some(text) => text.to_owned(),
        None => default.to_owned(),
    }
}

fn optional_text(event: &JsonValue, key: &str) -> (r: Option<String>)
    ensures
        text_option(r) == event@.text_member(key@),
{
    match event.get_str(key) {
        Some(text) => Some(text.to_owned()),
        None => None,
    }
}

/// The member of a member.
pub open spec fn inner_member(event: Json, outer: Seq<char>, inner: Seq<char>) -> Option<Json> {
    match event.member(outer) {
        Some(v) => v.member(inner),
        None => None,
    }
}

/// An output of the model that asks for a function to be called.
pub open spec fn is_function_call(output: Json) -> bool {
    output.text_member("type"@) == Some("function_call"@)
}

/// What a call comes to, given what its arguments parse to: the call, or the
/// report that they do not parse.
pub open spec fn call_event(
    id: Option<Seq<char>>,
    name: Seq<char>,
    args: Result<Json, Seq<char>>,
) -> Event {
    match args {
        Ok(args) => Event::ToolCall { id, name, args },
        Err(e) => Event::Error {
            code: "tool_args_parse_error"@,
            message: "Failed to parse args for "@ + name + ": "@ + e,
            event_id: None,
        },
    }
}

/// The arguments of a call, as `serde_json` reads them.
pub open spec fn call_arguments(output: Json) -> Result<Json, Seq<char>> {
    parsed_json(text_or(output, "arguments"@, "{}"@))
}

/// What the outputs of a response come to, in order.
pub open spec fn output_events(outputs: Seq<Json>) -> Seq<Event>
    decreases outputs.len(),
{
    if outputs.len() == 0 {
        Seq::empty()
    } else {
        let before = output_events(outputs.drop_last());
        let output = outputs.last();
        if is_function_call(output) {
            before.push(
                call_event(
                    output.text_member("call_id"@),
                    text_or(output, "name"@, ""@),
                    call_arguments(output),
                ),
            )
        } else {
            before
        }
    }
}

/// The calls to make for the outputs of a response, in order: those whose
/// arguments parse.
pub open spec fn output_calls(outputs: Seq<Json>) -> Seq<Call>
    decreases outputs.len(),
{
    if outputs.len() == 0 {
        Seq::empty()
    } else {
        let before = output_calls(outputs.drop_last());
        let output = outputs.last();
        match call_arguments(output) {
            Ok(args) if is_function_call(output) => before.push(
                Call {
                    id: output.text_member("call_id"@),
                    name: text_or(output, "name"@, ""@),
                    args,
                },
            ),
            _ => before,
        }
    }
}

/// The outputs of a finished response.
pub open spec fn response_outputs(event: Json) -> Seq<Json> {
    match inner_member(event, "response"@, "output"@) {
        Some(Json::Array(outputs)) => outputs,
        _ => Seq::empty(),
    }
}

/// What a finished response comes to: what its outputs come to, and then the end
/// of the content, of the turn and of the generation.
pub open spec fn response_done(event: Json) -> Outcome {
    let outputs = response_outputs(event);
    Outcome {
        events: output_events(outputs) + seq![
            Event::ContentUpdate { text: None, audio: None, done: true },
            Event::ModelTurnComplete,
            Event::ModelGenerationComplete,
        ],
        calls: output_calls(outputs),
        usage: None,
    }
}

/// The event of a piece of audio, or the report that it does not decode.
pub open spec fn audio_event(
    audio: Result<Seq<i16>, Failure>,
    event_id: Option<Seq<char>>,
) -> Event {
    match audio {
        Ok(samples) => Event::ContentUpdate { text: None, audio: Some(samples), done: false },
        Err(e) => Event::Error { code: "audio_decode_error"@, message: e.text(), event_id },
    }
}

/// What an event of the service comes to.
pub open spec fn openai_outcome(event: Json, format: Option<Seq<char>>) -> Outcome {
    match event.text_member("type"@) {
        None => Outcome::nothing(),
        Some(kind) => if kind == "session.created"@ || kind == "session.updated"@ {
            Outcome::just(seq![Event::SetupComplete])
        } else if kind == "response.text.delta"@ {
            let delta = text_or(event, "delta"@, ""@);
            if delta.len() == 0 {
                Outcome::nothing()
            } else {
                Outcome::just(
                    seq![Event::ContentUpdate { text: Some(delta), audio: None, done: false }],
                )
            }
        } else if kind == "response.audio.delta"@ {
            match event.text_member("delta"@) {
                Some(delta) => Outcome::just(
                    seq![
                        audio_event(
                            event_audio(base64_decoded(delta), format),
                            event.text_member("event_id"@),
                        ),
                    ],
                ),
                None => Outcome::nothing(),
            }
        } else if kind == "conversation.item.input_audio_transcription.delta"@ {
            let delta = text_or(event, "delta"@, ""@);
            if delta.len() == 0 {
                Outcome::nothing()
            } else {
                Outcome::just(seq![Event::TranscriptionUpdate { text: delta, done: false }])
            }
        } else if kind == "conversation.item.input_audio_transcription.completed"@ {
            Outcome::just(
                seq![
                    Event::TranscriptionUpdate {
                        text: text_or(event, "transcript"@, ""@),
                        done: true,
                    },
                ],
            )
        } else if kind == "response.done"@ {
            response_done(event)
        } else if kind == "error"@ {
            Outcome::just(
                seq![
                    Event::Error {
                        code: text_or(event, "code"@, "unknown"@),
                        message: text_or(event, "message"@, ""@),
                        event_id: event.text_member("event_id"@),
                    },
                ],
            )
        } else if kind == "rate_limits.updated"@ {
            Outcome {
                events: Seq::empty(),
                calls: Seq::empty(),
                usage: inner_member(event, "response"@, "usage"@),
            }
        } else if is_intermediate(kind) {
            Outcome::nothing()
        } else {
            Outcome::just(seq![Event::ProviderSpecific(event)])
        },
    }
}

/// What a message of the service comes to, given what its text parses to.
pub open spec fn openai_message(
    parsed: Result<Json, Seq<char>>,
    format: Option<Seq<char>>,
) -> Result<Outcome, Failure> {
    match parsed {
        Ok(event) => Ok(openai_outcome(event, format)),
        Err(e) => Err(Failure::DeserializationError(e)),
    }
}

/// What a frame from the service comes to.
pub open spec fn openai_frame(frame: Frame, format: Option<Seq<char>>) -> Result<
    Outcome,
    Failure,
> {
    match arrival(frame) {
        Ok(Arrival::Message(text)) => openai_message(parsed_json(text), format),
        Ok(Arrival::Nothing) => Ok(Outcome::nothing()),
        Ok(Arrival::Close) => Ok(Outcome::just(seq![Event::Close])),
        Err(e) => Err(e),
    }
}

/// What a call comes to, given what its arguments parse to: the event, and the
/// call to make.
pub fn interpret_call(
    id: Option<String>,
    name: String,
    args: Result<JsonValue, String>,
) -> (r: (UnifiedServerEvent, Option<ToolRequest>))
    ensures
        r.0@ == call_event(text_option(id), name@, parse_outcome(args)),
        match r.1 {
            Some(call) => args is Ok && call@ == (Call {
                id: text_option(id),
                name: name@,
                args: args->Ok_0@,
            }),
            None => args is Err,
        },
{
    match args {
        Ok(args) => {
            let call = ToolRequest { id: id.clone(), name: name.clone(), args: args.clone() };
            (UnifiedServerEvent::ToolCall { id, name, args }, Some(call))
        },
        Err(e) => {
            let mut message = join("Failed to parse args for ", name.as_str());
            message.append(": ");
            message.append(e.as_str());
            let error = ApiError {
                code: "tool_args_parse_error".to_owned(),
                message,
                event_id: None,
            };
            (UnifiedServerEvent::Error(error), None)
        },
    }
}

/// The event of a piece of audio, or the report that it does not decode.
pub fn interpret_audio(
    audio: Result<Vec<i16>, GeminiError>,
    event_id: Option<String>,
) -> (r: UnifiedServerEvent)
    ensures
        r@ == audio_event(samples_outcome(audio), text_option(event_id)),
{
    match audio {
        Ok(samples) => UnifiedServerEvent::ContentUpdate {
            text: None,
            audio: Some(samples),
            done: false,
        },
        Err(e) => UnifiedServerEvent::Error(
            ApiError { code: "audio_decode_error".to_owned(), message: e.message(), event_id },
        ),
    }
}

impl OpenAiBackend {
    /// The samples of a piece of audio in base64, where its format is 16-bit PCM.
    pub fn decode_openai_audio(b64_data: &str, format: &Option<String>) -> (r: Result<
        Vec<i16>,
        GeminiError,
    >)
        ensures
            samples_outcome(r) == event_audio(base64_decoded(b64_data@), text_option(*format)),
    {
        let format = audio_format(format);
        if !same_text(format, "pcm16") {
            return Err(
                GeminiError::UnsupportedOperation(
                    join3(
                        "Audio decoding for format '",
                        format,
                        "' not yet implemented for OpenAI",
                    ),
                ),
            );
        }
        decode_audio(b64_data)
    }

    /// What a finished response comes to.
    fn finish_response(event: &JsonValue) -> (r: Batch)
        ensures
            r@ == response_done(event@),
    {
        let mut list: Vec<UnifiedServerEvent> = Vec::new();
        let mut requests: Vec<ToolRequest> = Vec::new();
        let ghost outputs = response_outputs(event@);
        let found = match event.get("response") {
            Some(response) => match response.get("output") {
                Some(output) => output.as_array(),
                None => None,
            },
            None => None,
        };
        assert(events(list@) =~= output_events(Seq::empty()));
        assert(calls(requests@) =~= output_calls(Seq::empty()));
        if let Some(items) = found {
            assert(outputs == trees(items@));
            assert(outputs.take(0) =~= Seq::empty());
            for i in 0..items.len()
                invariant
                    outputs == trees(items@),
                    events(list@) == output_events(outputs.take(i as int)),
                    calls(requests@) == output_calls(outputs.take(i as int)),
            {
                let output = &items[i];
                assert(outputs.take(i + 1).drop_last() =~= outputs.take(i as int));
                assert(outputs.take(i + 1).last() == output@);
                let is_call = match output.get_str("type") {
                    Some(kind) => same_text(kind, "function_call"),
                    None => false,
                };
                if is_call {
                    let name = member_text(output, "name", "");
                    let id = optional_text(output, "call_id");
                    let args_text = member_text(output, "arguments", "{}");
                    let args = JsonValue::parse(args_text.as_str());
                    let (event, request) = interpret_call(id, name, args);
                    push_event(&mut list, event);
                    if let Some(request) = request {
                        let ghost before = requests@;
                        requests.push(request);
                        assert(calls(requests@) =~= calls(before).push(request@));
                    }
                }
            }
            assert(outputs.take(outputs.len() as int) =~= outputs);
        } else {
            assert(outputs =~= Seq::empty());
        }
        push_event(
            &mut list,
            UnifiedServerEvent::ContentUpdate { text: None, audio: None, done: true },
        );
        push_event(&mut list, UnifiedServerEvent::ModelTurnComplete);
        push_event(&mut list, UnifiedServerEvent::ModelGenerationComplete);
        let r = Batch { events: list, calls: requests, usage: None };
        assert(r@.events =~= response_done(event@).events);
        r
    }

    /// What an event of the service comes to.
    pub fn interpret_event(event: &JsonValue, output_audio_format: &Option<String>) -> (r: Batch)
        ensures
            r@ == openai_outcome(event@, text_option(*output_audio_format)),
    {
        let kind = match event.get_str("type") {
            Some(kind) => kind,
            None => return Batch::nothing(),
        };
        if same_text(kind, "session.created") || same_text(kind, "session.updated") {
            Batch::one(UnifiedServerEvent::SetupComplete)
        } else if same_text(kind, "response.text.delta") {
            let delta = member_text(event, "delta", "");
            if delta.as_str().unicode_len() == 0 {
                Batch::nothing()
            } else {
                Batch::one(
                    UnifiedServerEvent::ContentUpdate {
                        text: Some(delta),
                        audio: None,
                        done: false,
                    },
                )
            }
        } else if same_text(kind, "response.audio.delta") {
            match event.get_str("delta") {
                Some(delta) => Batch::one(
                    interpret_audio(
                        OpenAiBackend::decode_openai_audio(delta, output_audio_format),
                        optional_text(event, "event_id"),
                    ),
                ),
                None => Batch::nothing(),
            }
        } else if same_text(kind, "conversation.item.input_audio_transcription.delta") {
            let delta = member_text(event, "delta", "");
            if delta.as_str().unicode_len() == 0 {
                Batch::nothing()
            } else {
                Batch::one(UnifiedServerEvent::TranscriptionUpdate { text: delta, done: false })
            }
        } else if same_text(kind, "conversation.item.input_audio_transcription.completed") {
            Batch::one(
                UnifiedServerEvent::TranscriptionUpdate {
                    text: member_text(event, "transcript", ""),
                    done: true,
                },
            )
        } else if same_text(kind, "response.done") {
            OpenAiBackend::finish_response(event)
        } else if same_text(kind, "error") {
            Batch::one(
                UnifiedServerEvent::Error(
                    ApiError {
                        code: member_text(event, "code", "unknown"),
                        message: member_text(event, "message", ""),
                        event_id: optional_text(event, "event_id"),
                    },
                ),
            )
        } else if same_text(kind, "rate_limits.updated") {
            let usage = match event.get("response") {
                Some(response) => match response.get("usage") {
                    Some(usage) => Some(usage.clone()),
                    None => None,
                },
                None => None,
            };
            let nothing = Batch::nothing();
            Batch { events: nothing.events, calls: nothing.calls, usage }
        } else if intermediate(kind) {
            Batch::nothing()
        } else {
            Batch::one(UnifiedServerEvent::ProviderSpecific(event.clone()))
        }
    }

    /// What a message of the service comes to, given what its text parses to.
    pub fn interpret_message(
        parsed: Result<JsonValue, String>,
        output_audio_format: &Option<String>,
    ) -> (r: Result<Batch, GeminiError>)
        ensures
            batch_outcome(r) == openai_message(
                parse_outcome(parsed),
                text_option(*output_audio_format),
            ),
    {
        match parsed {
            Ok(event) => Ok(OpenAiBackend::interpret_event(&event, output_audio_format)),
            Err(e) => Err(GeminiError::DeserializationError(e)),
        }
    }

    /// What a frame from the service comes to.
    pub fn parse_server_message(
        &self,
        message: Frame,
        output_audio_format: &Option<String>,
    ) -> (r: Result<Batch, GeminiError>)
        ensures
            batch_outcome(r) == openai_frame(message, text_option(*output_audio_format)),
    {
        match deliver(message) {
            Ok(Delivery::Message(text)) => OpenAiBackend::interpret_message(
                JsonValue::parse(text.as_str()),
                output_audio_format,
            ),
            Ok(Delivery::Nothing) => Ok(Batch::nothing()),
            Ok(Delivery::Close) => Ok(Batch::one(UnifiedServerEvent::Close)),
            Err(e) => Err(e),
        }
    }
}

/// The messages that answer a call: its result and a request for the next response.
/// A call without a handler is not answered.
pub open spec fn openai_replies(call: ToolRequest, outcome: ToolOutcome) -> Seq<Seq<char>> {
    if outcome is NotRegistered {
        Seq::empty()
    } else {
        seq![
            json_text(tool_response_json(text_option(call.id), answer(outcome))),
            json_text(request_response_json()),
        ]
    }
}

impl OpenAiBackend {
    /// The messages that answer a call, to be sent in order; where one cannot be
    /// sent, those after it are not. They parse to their payloads, and the output in
    /// the first to the answer, where [`reads_back`] covers that.
    pub fn tool_replies(&self, call: ToolRequest, outcome: ToolOutcome) -> (r: Result<
        Vec<String>,
        GeminiError,
    >)
        ensures
            r matches Ok(messages) && texts(messages@) == openai_replies(call, outcome) && (
            messages@.len() > 0 ==> parses_to(
                messages@[0]@,
                tool_response_json(text_option(call.id), answer(outcome)),
            ) && parses_to(messages@[1]@, request_response_json()) && (reads_back(answer(outcome))
                ==> parses_to(json_text(answer(outcome)), answer(outcome)))),
    {
        let mut messages: Vec<String> = Vec::new();
        if let ToolOutcome::NotRegistered = outcome {
            assert(texts(messages@) =~= Seq::empty());
            return Ok(messages);
        }
        let mut responses: Vec<FunctionResponse> = Vec::new();
        responses.push(respond(call, outcome));
        let response = match self.build_tool_response_message(responses) {
            Ok(message) => message,
            Err(e) => return Err(e),
        };
        let request = match self.build_request_response_message() {
            Ok(message) => message,
            Err(e) => return Err(e),
        };
        messages.push(response);
        messages.push(request);
        assert(texts(messages@) =~= openai_replies(call, outcome));
        Ok(messages)
    }
}

/// The outputs of a response announce exactly the calls to make for them.
proof fn lemma_outputs_announced(outputs: Seq<Json>)
    ensures
        announced(output_events(outputs)) == output_calls(outputs),
    decreases outputs.len(),
{
    if outputs.len() > 0 {
        lemma_outputs_announced(outputs.drop_last());
        let all = output_events(outputs);
        if is_function_call(outputs.last()) {
            assert(all.drop_last() =~= output_events(outputs.drop_last()));
        }
    }
}

/// An event announces exactly the calls to make for it, in order.
pub proof fn law_openai_calls_are_announced(event: Json, format: Option<Seq<char>>)
    ensures
        announced(openai_outcome(event, format).events) == openai_outcome(event, format).calls,
{
    let outcome = openai_outcome(event, format);
    let outputs = response_outputs(event);
    lemma_outputs_announced(outputs);
    let ends = seq![
        Event::ContentUpdate { text: None, audio: None, done: true },
        Event::ModelTurnComplete,
        Event::ModelGenerationComplete,
    ];
    lemma_announced_concat(output_events(outputs), ends);
    lemma_announced_none(ends);
    assert(output_calls(outputs) + Seq::<Call>::empty() =~= output_calls(outputs));
    if outcome != response_done(event) {
        lemma_announced_none(outcome.events);
    }
}

/// The outputs of a response come to calls and errors only.
proof fn lemma_output_kinds(outputs: Seq<Json>)
    ensures
        forall|i: int|
            0 <= i < output_events(outputs).len() ==> (#[trigger] output_events(outputs)[i])
                is ToolCall || output_events(outputs)[i] is Error,
    decreases outputs.len(),
{
    if outputs.len() > 0 {
        lemma_output_kinds(outputs.drop_last());
    }
}

/// No event of the service ends the connection: only a close frame does.
pub proof fn law_openai_events_do_not_close(event: Json, format: Option<Seq<char>>)
    ensures
        !openai_outcome(event, format).events.contains(Event::Close),
{
    lemma_output_kinds(response_outputs(event));
    let all = openai_outcome(event, format).events;
    assert forall|i: int| 0 <= i < all.len() implies all[i] != Event::Close by {
        if all == response_done(event).events {
            let outputs = output_events(response_outputs(event));
            if i < outputs.len() {
                assert(all[i] == outputs[i]);
            }
        }
    }
}

/// A finished response ends with the end of the content, of the turn and of the
/// generation.
pub proof fn law_response_done_ends_the_turn(event: Json, format: Option<Seq<char>>)
    requires
        event.text_member("type"@) == Some("response.done"@),
    ensures
        ({
            let all = openai_outcome(event, format).events;
            &&& all.len() >= 3
            &&& all[all.len() - 3] == (Event::ContentUpdate { text: None, audio: None, done: true })
            &&& all[all.len() - 2] == Event::ModelTurnComplete
            &&& all[all.len() - 1] == Event::ModelGenerationComplete
        }),
{
    reveal_strlit("response.done");
    reveal_strlit("session.created");
    reveal_strlit("session.updated");
    reveal_strlit("response.text.delta");
    reveal_strlit("response.audio.delta");
    reveal_strlit("conversation.item.input_audio_transcription.delta");
    reveal_strlit("conversation.item.input_audio_transcription.completed");
    let kind = "response.done"@;
    assert(kind.len() == 13);
    assert(kind != "session.created"@);
    assert(kind != "session.updated"@);
    assert(kind != "response.text.delta"@);
    assert(kind != "response.audio.delta"@);
    assert(kind != "conversation.item.input_audio_transcription.delta"@);
    assert(kind != "conversation.item.input_audio_transcription.completed"@);
    assert(openai_outcome(event, format) == response_done(event));
}

/// An audio event whose audio decodes to the bytes of samples brings those
/// samples, where the format is 16-bit PCM.
pub proof fn law_audio_delta_brings_samples(
    event: Json,
    format: Option<Seq<char>>,
    samples: Seq<i16>,
)
    requires
        event.text_member("type"@) == Some("response.audio.delta"@),
        event.text_member("delta"@) is Some,
        decodes_to(event.text_member("delta"@)->0, pcm_bytes(samples)),
        format_or_pcm16(format) == "pcm16"@,
    ensures
        openai_outcome(event, format) == Outcome::just(
            seq![Event::ContentUpdate { text: None, audio: Some(samples), done: false }],
        ),
{
    reveal_strlit("response.audio.delta");
    reveal_strlit("session.created");
    reveal_strlit("session.updated");
    reveal_strlit("response.text.delta");
    let kind = "response.audio.delta"@;
    assert(kind.len() == 20);
    assert(kind != "session.created"@);
    assert(kind != "session.updated"@);
    assert(kind != "response.text.delta"@);
    law_samples_survive_bytes(samples);
}

/// The session says of each setting what the configuration says, and nothing of
/// anything else.
pub proof fn law_session_says_what_is_configured(config: BackendConfig, other: Seq<char>)
    ensures
        session_json(config).member("instructions"@) == instructions(config),
        session_json(config).member("tools"@) == on_condition(
            config.tools@.len() > 0,
            tool_definitions(config),
        ),
        session_json(config).member("tool_choice"@) == on_condition(
            config.tools@.len() > 0,
            Json::String("auto"@),
        ),
        session_json(config).member("voice"@) == text_json(config.voice),
        session_json(config).member("input_audio_format"@) == text_json(config.input_audio_format),
        session_json(config).member("output_audio_format"@) == text_json(
            config.output_audio_format,
        ),
        session_json(config).member("input_audio_transcription"@) == transcription(config),
        session_json(config).member("include"@) is Some <==> config.include_logprobs,
        session_json(config).member("temperature"@) == temperature(config),
        other != "instructions"@ && other != "tools"@ && other != "tool_choice"@ && other
            != "voice"@ && other != "input_audio_format"@ && other != "output_audio_format"@
            && other != "input_audio_transcription"@ && other != "include"@ && other
            != "temperature"@ ==> session_json(config).member(other) is None,
{
    reveal_strlit("instructions");
    reveal_strlit("tools");
    reveal_strlit("tool_choice");
    reveal_strlit("voice");
    reveal_strlit("input_audio_format");
    reveal_strlit("output_audio_format");
    reveal_strlit("input_audio_transcription");
    reveal_strlit("include");
    reveal_strlit("temperature");
    assert("tools"@[0] != "voice"@[0]);
    assert("tool_choice"@[1] != "temperature"@[1]);
    assert("instructions"@.len() == 12);
    assert("tools"@.len() == 5);
    assert("tool_choice"@.len() == 11);
    assert("voice"@.len() == 5);
    assert("input_audio_format"@.len() == 18);
    assert("output_audio_format"@.len() == 19);
    assert("input_audio_transcription"@.len() == 25);
    assert("include"@.len() == 7);
    assert("temperature"@.len() == 11);
    let has_tools = config.tools@.len() > 0;
    let logprobs = on_condition(
        config.include_logprobs,
        Json::Array(seq![Json::String("item.input_audio_transcription.logprobs"@)]),
    );
    let s0 = Json::object();
    let v1 = instructions(config);
    let s1 = s0.with_optional("instructions"@, v1);
    let v2 = on_condition(has_tools, tool_definitions(config));
    let s2 = s1.with_optional("tools"@, v2);
    let v3 = on_condition(has_tools, Json::String("auto"@));
    let s3 = s2.with_optional("tool_choice"@, v3);
    let v4 = text_json(config.voice);
    let s4 = s3.with_optional("voice"@, v4);
    let v5 = text_json(config.input_audio_format);
    let s5 = s4.with_optional("input_audio_format"@, v5);
    let v6 = text_json(config.output_audio_format);
    let s6 = s5.with_optional("output_audio_format"@, v6);
    let v7 = transcription(config);
    let s7 = s6.with_optional("input_audio_transcription"@, v7);
    let s8 = s7.with_optional("include"@, logprobs);
    let v9 = temperature(config);
    let s9 = s8.with_optional("temperature"@, v9);
    lemma_members_with(s0, "instructions"@, v1);
    lemma_members_with(s1, "tools"@, v2);
    lemma_members_with(s2, "tool_choice"@, v3);
    lemma_members_with(s3, "voice"@, v4);
    lemma_members_with(s4, "input_audio_format"@, v5);
    lemma_members_with(s5, "output_audio_format"@, v6);
    lemma_members_with(s6, "input_audio_transcription"@, v7);
    lemma_members_with(s7, "include"@, logprobs);
    lemma_members_with(s8, "temperature"@, v9);
    assert(session_json(config) == s9);
    assert forall|key: Seq<char>| #[trigger] s0.member(key) is None by {}
}

/// The answer to a call refers to the call by the id that the call came with.
pub proof fn law_answer_refers_to_its_call(id: Option<Seq<char>>, output: Seq<char>)
    ensures
        tool_output_json(id, output).member("item"@) matches Some(item) && item.member(
            "call_id"@,
        ) == Some(id_json(id)) && item.text_member("output"@) == Some(output),
{
    reveal_strlit("type");
    reveal_strlit("item");
    reveal_strlit("call_id");
    reveal_strlit("output");
    assert("type"@[0] != "item"@[0]);
    assert("call_id"@.len() == 7);
    assert("output"@.len() == 6);
    let first = Json::String("function_call_output"@);
    let i1 = Json::object().with_optional("type"@, Some(first));
    let i2 = i1.with_optional("call_id"@, Some(id_json(id)));
    let i3 = i2.with_optional("output"@, Some(Json::String(output)));
    lemma_members_with(Json::object(), "type"@, Some(first));
    lemma_members_with(i1, "call_id"@, Some(id_json(id)));
    lemma_members_with(i2, "output"@, Some(Json::String(output)));
    let kind = Json::String("conversation.item.create"@);
    let w1 = Json::object().with_optional("type"@, Some(kind));
    let w2 = w1.with_optional("item"@, Some(i3));
    lemma_members_with(Json::object(), "type"@, Some(kind));
    lemma_members_with(w1, "item"@, Some(i3));
    assert(tool_output_json(id, output) == w2);
    assert(w2.member("item"@) == Some(i3));
    assert(i3.member("call_id"@) == i2.member("call_id"@));
    assert(i3.member("output"@) == Some(Json::String(output)));
}

/// Of several responses only the first counts, and there is a message exactly where
/// there is a first.
pub proof fn law_first_response_counts(backend: OpenAiBackend, responses: Seq<FunctionResponse>)
    ensures
        backend.tool_response(responses) is Ok <==> responses.len() > 0,
        responses.len() > 0 ==> backend.tool_response(responses) == backend.tool_response(
            seq![responses[0]],
        ),
{
}

/// A text and its UTF-8 bytes in a binary frame come to the same.
pub proof fn law_openai_reads_bytes_as_text(
    text: String,
    bytes: Vec<u8>,
    format: Option<Seq<char>>,
)
    requires
        bytes@ == encode_utf8(text@),
    ensures
        openai_frame(Frame::Binary(bytes), format) == openai_frame(Frame::Text(text), format),
{
    law_bytes_arrive_as_text(text, bytes);
}

/// The kinds of event that something comes of have different names.
proof fn lemma_main_kinds_differ()
    ensures
        "session.created"@ != "session.updated"@,
        "session.created"@ != "response.text.delta"@,
        "session.created"@ != "response.audio.delta"@,
        "session.created"@ != "conversation.item.input_audio_transcription.delta"@,
        "session.created"@ != "conversation.item.input_audio_transcription.completed"@,
        "session.created"@ != "response.done"@,
        "session.created"@ != "error"@,
        "session.created"@ != "rate_limits.updated"@,
        "session.updated"@ != "response.text.delta"@,
        "session.updated"@ != "response.audio.delta"@,
        "session.updated"@ != "conversation.item.input_audio_transcription.delta"@,
        "session.updated"@ != "conversation.item.input_audio_transcription.completed"@,
        "session.updated"@ != "response.done"@,
        "session.updated"@ != "error"@,
        "session.updated"@ != "rate_limits.updated"@,
        "response.text.delta"@ != "response.audio.delta"@,
        "response.text.delta"@ != "conversation.item.input_audio_transcription.delta"@,
        "response.text.delta"@ != "conversation.item.input_audio_transcription.completed"@,
        "response.text.delta"@ != "response.done"@,
        "response.text.delta"@ != "error"@,
        "response.text.delta"@ != "rate_limits.updated"@,
        "response.audio.delta"@ != "conversation.item.input_audio_transcription.delta"@,
        "response.audio.delta"@ != "conversation.item.input_audio_transcription.completed"@,
        "response.audio.delta"@ != "response.done"@,
        "response.audio.delta"@ != "error"@,
        "response.audio.delta"@ != "rate_limits.updated"@,
        "conversation.item.input_audio_transcription.delta"@ != "conversation.item.input_audio_transcription.completed"@,
        "conversation.item.input_audio_transcription.delta"@ != "response.done"@,
        "conversation.item.input_audio_transcription.delta"@ != "error"@,
        "conversation.item.input_audio_transcription.delta"@ != "rate_limits.updated"@,
        "conversation.item.input_audio_transcription.completed"@ != "response.done"@,
        "conversation.item.input_audio_transcription.completed"@ != "error"@,
        "conversation.item.input_audio_transcription.completed"@ != "rate_limits.updated"@,
        "response.done"@ != "error"@,
        "response.done"@ != "rate_limits.updated"@,
        "error"@ != "rate_limits.updated"@,
{
    reveal_strlit("session.created");
    reveal_strlit("session.updated");
    reveal_strlit("response.text.delta");
    reveal_strlit("response.audio.delta");
    reveal_strlit("conversation.item.input_audio_transcription.delta");
    reveal_strlit("conversation.item.input_audio_transcription.completed");
    reveal_strlit("response.done");
    reveal_strlit("error");
    reveal_strlit("rate_limits.updated");
    assert("session.created"@[8] != "session.updated"@[8]);
    assert("session.created"@.len() != "response.text.delta"@.len());
    assert("session.created"@.len() != "response.audio.delta"@.len());
    assert("session.created"@.len() != "conversation.item.input_audio_transcription.delta"@.len());
    assert("session.created"@.len() != "conversation.item.input_audio_transcription.completed"@.len());
    assert("session.created"@.len() != "response.done"@.len());
    assert("session.created"@.len() != "error"@.len());
    assert("session.created"@.len() != "rate_limits.updated"@.len());
    assert("session.updated"@.len() != "response.text.delta"@.len());
    assert("session.updated"@.len() != "response.audio.delta"@.len());
    assert("session.updated"@.len() != "conversation.item.input_audio_transcription.delta"@.len());
    assert("session.updated"@.len() != "conversation.item.input_audio_transcription.completed"@.len());
    assert("session.updated"@.len() != "response.done"@.len());
    assert("session.updated"@.len() != "error"@.len());
    assert("session.updated"@.len() != "rate_limits.updated"@.len());
    assert("response.text.delta"@.len() != "response.audio.delta"@.len());
    assert("response.text.delta"@.len() != "conversation.item.input_audio_transcription.delta"@.len());
    assert("response.text.delta"@.len() != "conversation.item.input_audio_transcription.completed"@.len());
    assert("response.text.delta"@.len() != "response.done"@.len());
    assert("response.text.delta"@.len() != "error"@.len());
    assert("response.text.delta"@[1] != "rate_limits.updated"@[1]);
    assert("response.audio.delta"@.len() != "conversation.item.input_audio_transcription.delta"@.len());
    assert("response.audio.delta"@.len() != "conversation.item.input_audio_transcription.completed"@.len());
    assert("response.audio.delta"@.len() != "response.done"@.len());
    assert("response.audio.delta"@.len() != "error"@.len());
    assert("response.audio.delta"@.len() != "rate_limits.updated"@.len());
    assert("conversation.item.input_audio_transcription.delta"@.len() != "conversation.item.input_audio_transcription.completed"@.len());
    assert("conversation.item.input_audio_transcription.delta"@.len() != "response.done"@.len());
    assert("conversation.item.input_audio_transcription.delta"@.len() != "error"@.len());
    assert("conversation.item.input_audio_transcription.delta"@.len() != "rate_limits.updated"@.len());
    assert("conversation.item.input_audio_transcription.completed"@.len() != "response.done"@.len());
    assert("conversation.item.input_audio_transcription.completed"@.len() != "error"@.len());
    assert("conversation.item.input_audio_transcription.completed"@.len() != "rate_limits.updated"@.len());
    assert("response.done"@.len() != "error"@.len());
    assert("response.done"@.len() != "rate_limits.updated"@.len());
    assert("error"@.len() != "rate_limits.updated"@.len());
}

/// The kinds of event that nothing comes of are none of the others.
proof fn lemma_other_kinds_differ()
    ensures
        "response.created"@ != "session.created"@,
        "response.created"@ != "session.updated"@,
        "response.created"@ != "response.text.delta"@,
        "response.created"@ != "response.audio.delta"@,
        "response.created"@ != "conversation.item.input_audio_transcription.delta"@,
        "response.created"@ != "conversation.item.input_audio_transcription.completed"@,
        "response.created"@ != "response.done"@,
        "response.created"@ != "error"@,
        "response.created"@ != "rate_limits.updated"@,
        "input_audio_buffer.speech_started"@ != "session.created"@,
        "input_audio_buffer.speech_started"@ != "session.updated"@,
        "input_audio_buffer.speech_started"@ != "response.text.delta"@,
        "input_audio_buffer.speech_started"@ != "response.audio.delta"@,
        "input_audio_buffer.speech_started"@ != "conversation.item.input_audio_transcription.delta"@,
        "input_audio_buffer.speech_started"@ != "conversation.item.input_audio_transcription.completed"@,
        "input_audio_buffer.speech_started"@ != "response.done"@,
        "input_audio_buffer.speech_started"@ != "error"@,
        "input_audio_buffer.speech_started"@ != "rate_limits.updated"@,
        "input_audio_buffer.speech_stopped"@ != "session.created"@,
        "input_audio_buffer.speech_stopped"@ != "session.updated"@,
        "input_audio_buffer.speech_stopped"@ != "response.text.delta"@,
        "input_audio_buffer.speech_stopped"@ != "response.audio.delta"@,
        "input_audio_buffer.speech_stopped"@ != "conversation.item.input_audio_transcription.delta"@,
        "input_audio_buffer.speech_stopped"@ != "conversation.item.input_audio_transcription.completed"@,
        "input_audio_buffer.speech_stopped"@ != "response.done"@,
        "input_audio_buffer.speech_stopped"@ != "error"@,
        "input_audio_buffer.speech_stopped"@ != "rate_limits.updated"@,
        "input_audio_buffer.committed"@ != "session.created"@,
        "input_audio_buffer.committed"@ != "session.updated"@,
        "input_audio_buffer.committed"@ != "response.text.delta"@,
        "input_audio_buffer.committed"@ != "response.audio.delta"@,
        "input_audio_buffer.committed"@ != "conversation.item.input_audio_transcription.delta"@,
        "input_audio_buffer.committed"@ != "conversation.item.input_audio_transcription.completed"@,
        "input_audio_buffer.committed"@ != "response.done"@,
        "input_audio_buffer.committed"@ != "error"@,
        "input_audio_buffer.committed"@ != "rate_limits.updated"@,
        "input_audio_buffer.cleared"@ != "session.created"@,
        "input_audio_buffer.cleared"@ != "session.updated"@,
        "input_audio_buffer.cleared"@ != "response.text.delta"@,
        "input_audio_buffer.cleared"@ != "response.audio.delta"@,
        "input_audio_buffer.cleared"@ != "conversation.item.input_audio_transcription.delta"@,
        "input_audio_buffer.cleared"@ != "conversation.item.input_audio_transcription.completed"@,
        "input_audio_buffer.cleared"@ != "response.done"@,
        "input_audio_buffer.cleared"@ != "error"@,
        "input_audio_buffer.cleared"@ != "rate_limits.updated"@,
        "response.audio.done"@ != "session.created"@,
        "response.audio.done"@ != "session.updated"@,
        "response.audio.done"@ != "response.text.delta"@,
        "response.audio.done"@ != "response.audio.delta"@,
        "response.audio.done"@ != "conversation.item.input_audio_transcription.delta"@,
        "response.audio.done"@ != "conversation.item.input_audio_transcription.completed"@,
        "response.audio.done"@ != "response.done"@,
        "response.audio.done"@ != "error"@,
        "response.audio.done"@ != "rate_limits.updated"@,
        "response.text.done"@ != "session.created"@,
        "response.text.done"@ != "session.updated"@,
        "response.text.done"@ != "response.text.delta"@,
        "response.text.done"@ != "response.audio.delta"@,
        "response.text.done"@ != "conversation.item.input_audio_transcription.delta"@,
        "response.text.done"@ != "conversation.item.input_audio_transcription.completed"@,
        "response.text.done"@ != "response.done"@,
        "response.text.done"@ != "error"@,
        "response.text.done"@ != "rate_limits.updated"@,
        "response.content_part.added"@ != "session.created"@,
        "response.content_part.added"@ != "session.updated"@,
        "response.content_part.added"@ != "response.text.delta"@,
        "response.content_part.added"@ != "response.audio.delta"@,
        "response.content_part.added"@ != "conversation.item.input_audio_transcription.delta"@,
        "response.content_part.added"@ != "conversation.item.input_audio_transcription.completed"@,
        "response.content_part.added"@ != "response.done"@,
        "response.content_part.added"@ != "error"@,
        "response.content_part.added"@ != "rate_limits.updated"@,
        "response.content_part.done"@ != "session.created"@,
        "response.content_part.done"@ != "session.updated"@,
        "response.content_part.done"@ != "response.text.delta"@,
        "response.content_part.done"@ != "response.audio.delta"@,
        "response.content_part.done"@ != "conversation.item.input_audio_transcription.delta"@,
        "response.content_part.done"@ != "conversation.item.input_audio_transcription.completed"@,
        "response.content_part.done"@ != "response.done"@,
        "response.content_part.done"@ != "error"@,
        "response.content_part.done"@ != "rate_limits.updated"@,
        "response.output_item.added"@ != "session.created"@,
        "response.output_item.added"@ != "session.updated"@,
        "response.output_item.added"@ != "response.text.delta"@,
        "response.output_item.added"@ != "response.audio.delta"@,
        "response.output_item.added"@ != "conversation.item.input_audio_transcription.delta"@,
        "response.output_item.added"@ != "conversation.item.input_audio_transcription.completed"@,
        "response.output_item.added"@ != "response.done"@,
        "response.output_item.added"@ != "error"@,
        "response.output_item.added"@ != "rate_limits.updated"@,
        "response.output_item.done"@ != "session.created"@,
        "response.output_item.done"@ != "session.updated"@,
        "response.output_item.done"@ != "response.text.delta"@,
        "response.output_item.done"@ != "response.audio.delta"@,
        "response.output_item.done"@ != "conversation.item.input_audio_transcription.delta"@,
        "response.output_item.done"@ != "conversation.item.input_audio_transcription.completed"@,
        "response.output_item.done"@ != "response.done"@,
        "response.output_item.done"@ != "error"@,
        "response.output_item.done"@ != "rate_limits.updated"@,
        "conversation.item.created"@ != "session.created"@,
        "conversation.item.created"@ != "session.updated"@,
        "conversation.item.created"@ != "response.text.delta"@,
        "conversation.item.created"@ != "response.audio.delta"@,
        "conversation.item.created"@ != "conversation.item.input_audio_transcription.delta"@,
        "conversation.item.created"@ != "conversation.item.input_audio_transcription.completed"@,
        "conversation.item.created"@ != "response.done"@,
        "conversation.item.created"@ != "error"@,
        "conversation.item.created"@ != "rate_limits.updated"@,
        "conversation.item.updated"@ != "session.created"@,
        "conversation.item.updated"@ != "session.updated"@,
        "conversation.item.updated"@ != "response.text.delta"@,
        "conversation.item.updated"@ != "response.audio.delta"@,
        "conversation.item.updated"@ != "conversation.item.input_audio_transcription.delta"@,
        "conversation.item.updated"@ != "conversation.item.input_audio_transcription.completed"@,
        "conversation.item.updated"@ != "response.done"@,
        "conversation.item.updated"@ != "error"@,
        "conversation.item.updated"@ != "rate_limits.updated"@,
        "conversation.item.deleted"@ != "session.created"@,
        "conversation.item.deleted"@ != "session.updated"@,
        "conversation.item.deleted"@ != "response.text.delta"@,
        "conversation.item.deleted"@ != "response.audio.delta"@,
        "conversation.item.deleted"@ != "conversation.item.input_audio_transcription.delta"@,
        "conversation.item.deleted"@ != "conversation.item.input_audio_transcription.completed"@,
        "conversation.item.deleted"@ != "response.done"@,
        "conversation.item.deleted"@ != "error"@,
        "conversation.item.deleted"@ != "rate_limits.updated"@,
{
    reveal_strlit("session.created");
    reveal_strlit("session.updated");
    reveal_strlit("response.text.delta");
    reveal_strlit("response.audio.delta");
    reveal_strlit("conversation.item.input_audio_transcription.delta");
    reveal_strlit("conversation.item.input_audio_transcription.completed");
    reveal_strlit("response.done");
    reveal_strlit("error");
    reveal_strlit("rate_limits.updated");
    reveal_strlit("response.created");
    reveal_strlit("input_audio_buffer.speech_started");
    reveal_strlit("input_audio_buffer.speech_stopped");
    reveal_strlit("input_audio_buffer.committed");
    reveal_strlit("input_audio_buffer.cleared");
    reveal_strlit("response.audio.done");
    reveal_strlit("response.text.done");
    reveal_strlit("response.content_part.added");
    reveal_strlit("response.content_part.done");
    reveal_strlit("response.output_item.added");
    reveal_strlit("response.output_item.done");
    reveal_strlit("conversation.item.created");
    reveal_strlit("conversation.item.updated");
    reveal_strlit("conversation.item.deleted");
    assert("response.created"@.len() != "session.created"@.len());
    assert("response.created"@.len() != "session.updated"@.len());
    assert("response.created"@.len() != "response.text.delta"@.len());
    assert("response.created"@.len() != "response.audio.delta"@.len());
    assert("response.created"@.len() != "conversation.item.input_audio_transcription.delta"@.len());
    assert("response.created"@.len() != "conversation.item.input_audio_transcription.completed"@.len());
    assert("response.created"@.len() != "response.done"@.len());
    assert("response.created"@.len() != "error"@.len());
    assert("response.created"@.len() != "rate_limits.updated"@.len());
    assert("input_audio_buffer.speech_started"@.len() != "session.created"@.len());
    assert("input_audio_buffer.speech_started"@.len() != "session.updated"@.len());
    assert("input_audio_buffer.speech_started"@.len() != "response.text.delta"@.len());
    assert("input_audio_buffer.speech_started"@.len() != "response.audio.delta"@.len());
    assert("input_audio_buffer.speech_started"@.len() != "conversation.item.input_audio_transcription.delta"@.len());
    assert("input_audio_buffer.speech_started"@.len() != "conversation.item.input_audio_transcription.completed"@.len());
    assert("input_audio_buffer.speech_started"@.len() != "response.done"@.len());
    assert("input_audio_buffer.speech_started"@.len() != "error"@.len());
    assert("input_audio_buffer.speech_started"@.len() != "rate_limits.updated"@.len());
    assert("input_audio_buffer.speech_stopped"@.len() != "session.created"@.len());
    assert("input_audio_buffer.speech_stopped"@.len() != "session.updated"@.len());
    assert("input_audio_buffer.speech_stopped"@.len() != "response.text.delta"@.len());
    assert("input_audio_buffer.speech_stopped"@.len() != "response.audio.delta"@.len());
    assert("input_audio_buffer.speech_stopped"@.len() != "conversation.item.input_audio_transcription.delta"@.len());
    assert("input_audio_buffer.speech_stopped"@.len() != "conversation.item.input_audio_transcription.completed"@.len());
    assert("input_audio_buffer.speech_stopped"@.len() != "response.done"@.len());
    assert("input_audio_buffer.speech_stopped"@.len() != "error"@.len());
    assert("input_audio_buffer.speech_stopped"@.len() != "rate_limits.updated"@.len());
    assert("input_audio_buffer.committed"@.len() != "session.created"@.len());
    assert("input_audio_buffer.committed"@.len() != "session.updated"@.len());
    assert("input_audio_buffer.committed"@.len() != "response.text.delta"@.len());
    assert("input_audio_buffer.committed"@.len() != "response.audio.delta"@.len());
    assert("input_audio_buffer.committed"@.len() != "conversation.item.input_audio_transcription.delta"@.len());
    assert("input_audio_buffer.committed"@.len() != "conversation.item.input_audio_transcription.completed"@.len());
    assert("input_audio_buffer.committed"@.len() != "response.done"@.len());
    assert("input_audio_buffer.committed"@.len() != "error"@.len());
    assert("input_audio_buffer.committed"@.len() != "rate_limits.updated"@.len());
    assert("input_audio_buffer.cleared"@.len() != "session.created"@.len());
    assert("input_audio_buffer.cleared"@.len() != "session.updated"@.len());
    assert("input_audio_buffer.cleared"@.len() != "response.text.delta"@.len());
    assert("input_audio_buffer.cleared"@.len() != "response.audio.delta"@.len());
    assert("input_audio_buffer.cleared"@.len() != "conversation.item.input_audio_transcription.delta"@.len());
    assert("input_audio_buffer.cleared"@.len() != "conversation.item.input_audio_transcription.completed"@.len());
    assert("input_audio_buffer.cleared"@.len() != "response.done"@.len());
    assert("input_audio_buffer.cleared"@.len() != "error"@.len());
    assert("input_audio_buffer.cleared"@.len() != "rate_limits.updated"@.len());
    assert("response.audio.done"@.len() != "session.created"@.len());
    assert("response.audio.done"@.len() != "session.updated"@.len());
    assert("response.audio.done"@[9] != "response.text.delta"@[9]);
    assert("response.audio.done"@.len() != "response.audio.delta"@.len());
    assert("response.audio.done"@.len() != "conversation.item.input_audio_transcription.delta"@.len());
    assert("response.audio.done"@.len() != "conversation.item.input_audio_transcription.completed"@.len());
    assert("response.audio.done"@.len() != "response.done"@.len());
    assert("response.audio.done"@.len() != "error"@.len());
    assert("response.audio.done"@[1] != "rate_limits.updated"@[1]);
    assert("response.text.done"@.len() != "session.created"@.len());
    assert("response.text.done"@.len() != "session.updated"@.len());
    assert("response.text.done"@.len() != "response.text.delta"@.len());
    assert("response.text.done"@.len() != "response.audio.delta"@.len());
    assert("response.text.done"@.len() != "conversation.item.input_audio_transcription.delta"@.len());
    assert("response.text.done"@.len() != "conversation.item.input_audio_transcription.completed"@.len());
    assert("response.text.done"@.len() != "response.done"@.len());
    assert("response.text.done"@.len() != "error"@.len());
    assert("response.text.done"@.len() != "rate_limits.updated"@.len());
    assert("response.content_part.added"@.len() != "session.created"@.len());
    assert("response.content_part.added"@.len() != "session.updated"@.len());
    assert("response.content_part.added"@.len() != "response.text.delta"@.len());
    assert("response.content_part.added"@.len() != "response.audio.delta"@.len());
    assert("response.content_part.added"@.len() != "conversation.item.input_audio_transcription.delta"@.len());
    assert("response.content_part.added"@.len() != "conversation.item.input_audio_transcription.completed"@.len());
    assert("response.content_part.added"@.len() != "response.done"@.len());
    assert("response.content_part.added"@.len() != "error"@.len());
    assert("response.content_part.added"@.len() != "rate_limits.updated"@.len());
    assert("response.content_part.done"@.len() != "session.created"@.len());
    assert("response.content_part.done"@.len() != "session.updated"@.len());
    assert("response.content_part.done"@.len() != "response.text.delta"@.len());
    assert("response.content_part.done"@.len() != "response.audio.delta"@.len());
    assert("response.content_part.done"@.len() != "conversation.item.input_audio_transcription.delta"@.len());
    assert("response.content_part.done"@.len() != "conversation.item.input_audio_transcription.completed"@.len());
    assert("response.content_part.done"@.len() != "response.done"@.len());
    assert("response.content_part.done"@.len() != "error"@.len());
    assert("response.content_part.done"@.len() != "rate_limits.updated"@.len());
    assert("response.output_item.added"@.len() != "session.created"@.len());
    assert("response.output_item.added"@.len() != "session.updated"@.len());
    assert("response.output_item.added"@.len() != "response.text.delta"@.len());
    assert("response.output_item.added"@.len() != "response.audio.delta"@.len());
    assert("response.output_item.added"@.len() != "conversation.item.input_audio_transcription.delta"@.len());
    assert("response.output_item.added"@.len() != "conversation.item.input_audio_transcription.completed"@.len());
    assert("response.output_item.added"@.len() != "response.done"@.len());
    assert("response.output_item.added"@.len() != "error"@.len());
    assert("response.output_item.added"@.len() != "rate_limits.updated"@.len());
    assert("response.output_item.done"@.len() != "session.created"@.len());
    assert("response.output_item.done"@.len() != "session.updated"@.len());
    assert("response.output_item.done"@.len() != "response.text.delta"@.len());
    assert("response.output_item.done"@.len() != "response.audio.delta"@.len());
    assert("response.output_item.done"@.len() != "conversation.item.input_audio_transcription.delta"@.len());
    assert("response.output_item.done"@.len() != "conversation.item.input_audio_transcription.completed"@.len());
    assert("response.output_item.done"@.len() != "response.done"@.len());
    assert("response.output_item.done"@.len() != "error"@.len());
    assert("response.output_item.done"@.len() != "rate_limits.updated"@.len());
    assert("conversation.item.created"@.len() != "session.created"@.len());
    assert("conversation.item.created"@.len() != "session.updated"@.len());
    assert("conversation.item.created"@.len() != "response.text.delta"@.len());
    assert("conversation.item.created"@.len() != "response.audio.delta"@.len());
    assert("conversation.item.created"@.len() != "conversation.item.input_audio_transcription.delta"@.len());
    assert("conversation.item.created"@.len() != "conversation.item.input_audio_transcription.completed"@.len());
    assert("conversation.item.created"@.len() != "response.done"@.len());
    assert("conversation.item.created"@.len() != "error"@.len());
    assert("conversation.item.created"@.len() != "rate_limits.updated"@.len());
    assert("conversation.item.updated"@.len() != "session.created"@.len());
    assert("conversation.item.updated"@.len() != "session.updated"@.len());
    assert("conversation.item.updated"@.len() != "response.text.delta"@.len());
    assert("conversation.item.updated"@.len() != "response.audio.delta"@.len());
    assert("conversation.item.updated"@.len() != "conversation.item.input_audio_transcription.delta"@.len());
    assert("conversation.item.updated"@.len() != "conversation.item.input_audio_transcription.completed"@.len());
    assert("conversation.item.updated"@.len() != "response.done"@.len());
    assert("conversation.item.updated"@.len() != "error"@.len());
    assert("conversation.item.updated"@.len() != "rate_limits.updated"@.len());
    assert("conversation.item.deleted"@.len() != "session.created"@.len());
    assert("conversation.item.deleted"@.len() != "session.updated"@.len());
    assert("conversation.item.deleted"@.len() != "response.text.delta"@.len());
    assert("conversation.item.deleted"@.len() != "response.audio.delta"@.len());
    assert("conversation.item.deleted"@.len() != "conversation.item.input_audio_transcription.delta"@.len());
    assert("conversation.item.deleted"@.len() != "conversation.item.input_audio_transcription.completed"@.len());
    assert("conversation.item.deleted"@.len() != "response.done"@.len());
    assert("conversation.item.deleted"@.len() != "error"@.len());
    assert("conversation.item.deleted"@.len() != "rate_limits.updated"@.len());
}

/// The service says that the session is set up when it is created and when it is
/// updated.
pub proof fn law_session_events(event: Json, format: Option<Seq<char>>)
    requires
        event.text_member("type"@) == Some("session.created"@)
            || event.text_member("type"@) == Some("session.updated"@),
    ensures
        openai_outcome(event, format) == (Outcome {
            events: seq![Event::SetupComplete],
            calls: Seq::empty(),
            usage: None,
        }),
{
}

/// A piece of text is reported as it is, not done; an empty one, or none, is not.
pub proof fn law_text_deltas(event: Json, format: Option<Seq<char>>)
    requires
        event.text_member("type"@) == Some("response.text.delta"@),
    ensures
        event.text_member("delta"@) matches Some(text) && text.len() > 0 ==> openai_outcome(
            event,
            format,
        ) == (Outcome {
            events: seq![
                Event::ContentUpdate {
                    text: event.text_member("delta"@),
                    audio: None,
                    done: false,
                },
            ],
            calls: Seq::empty(),
            usage: None,
        }),
        !(event.text_member("delta"@) matches Some(text) && text.len() > 0) ==> openai_outcome(
            event,
            format,
        ) == (Outcome { events: Seq::empty(), calls: Seq::empty(), usage: None }),
{
    lemma_main_kinds_differ();
    reveal_strlit("");
}

/// A piece of audio is reported with its samples, where the format is 16-bit PCM or none
/// is named; in another format, and where it does not decode, an error is, with the
/// event's own id. An event without audio is not reported.
pub proof fn law_audio_deltas(event: Json, format: Option<Seq<char>>)
    requires
        event.text_member("type"@) == Some("response.audio.delta"@),
    ensures
        openai_outcome(event, format).calls.len() == 0,
        openai_outcome(event, format).usage is None,
        event.text_member("delta"@) is None ==> openai_outcome(event, format).events.len() == 0,
        event.text_member("delta"@) matches Some(delta) ==> openai_outcome(event, format).events
            == seq![
            match format {
                Some(name) if name != "pcm16"@ => Event::Error {
                    code: "audio_decode_error"@,
                    message: "Feature or operation not supported by the selected backend: "@ + (
                    "Audio decoding for format '"@ + name + "' not yet implemented for OpenAI"@),
                    event_id: event.text_member("event_id"@),
                },
                _ => match base64_decoded(delta) {
                    Ok(bytes) => Event::ContentUpdate {
                        text: None,
                        audio: Some(pcm_samples(bytes)),
                        done: false,
                    },
                    Err(e) => Event::Error {
                        code: "audio_decode_error"@,
                        message: "Error during message deserialization: "@ + (
                        "Base64 decode failed: "@ + e),
                        event_id: event.text_member("event_id"@),
                    },
                },
            },
        ],
{
    lemma_main_kinds_differ();
}

/// A piece of a transcription is reported as it is, not done, unless it is empty; the
/// whole transcription is reported as done.
pub proof fn law_transcriptions(event: Json, format: Option<Seq<char>>)
    ensures
        event.text_member("type"@) == Some("conversation.item.input_audio_transcription.delta"@) ==> (event.text_member("delta"@) matches Some(text) ==> text.len() > 0
            ==> openai_outcome(event, format) == (Outcome {
            events: seq![Event::TranscriptionUpdate { text, done: false }],
            calls: Seq::empty(),
            usage: None,
        })),
        event.text_member("type"@) == Some("conversation.item.input_audio_transcription.delta"@)
            && !(event.text_member("delta"@) matches Some(text) && text.len() > 0)
            ==> openai_outcome(event, format) == (Outcome {
            events: Seq::empty(),
            calls: Seq::empty(),
            usage: None,
        }),
        event.text_member("type"@) == Some("conversation.item.input_audio_transcription.completed"@) ==> (event.text_member("transcript"@) matches Some(text)
            ==> openai_outcome(event, format) == (Outcome {
            events: seq![Event::TranscriptionUpdate { text, done: true }],
            calls: Seq::empty(),
            usage: None,
        })),
        event.text_member("type"@) == Some("conversation.item.input_audio_transcription.completed"@)
            && event.text_member("transcript"@) is None ==> openai_outcome(
            event,
            format,
        ) == (Outcome {
            events: seq![Event::TranscriptionUpdate { text: Seq::empty(), done: true }],
            calls: Seq::empty(),
            usage: None,
        }),
{
    lemma_main_kinds_differ();
    reveal_strlit("");
    assert(""@ =~= Seq::<char>::empty());
}

/// An error is reported with the code, the words and the id that the service gives; a
/// code that is not given is `unknown`, words that are not given are none.
pub proof fn law_errors_are_reported(event: Json, format: Option<Seq<char>>)
    requires
        event.text_member("type"@) == Some("error"@),
    ensures
        openai_outcome(event, format).calls.len() == 0,
        openai_outcome(event, format).usage is None,
        openai_outcome(event, format).events.len() == 1,
        openai_outcome(event, format).events[0] matches Event::Error { code, message, event_id }
            && {
            &&& event.text_member("code"@) matches Some(given) ==> code == given
            &&& event.text_member("code"@) is None ==> code == "unknown"@
            &&& event.text_member("message"@) matches Some(given) ==> message == given
            &&& event.text_member("message"@) is None ==> message.len() == 0
            &&& event_id == event.text_member("event_id"@)
        },
{
    lemma_main_kinds_differ();
    reveal_strlit("");
}

/// An update of rate limits brings the account of usage in its response, where there is
/// one, and nothing else.
pub proof fn law_rate_limits(event: Json, format: Option<Seq<char>>)
    requires
        event.text_member("type"@) == Some("rate_limits.updated"@),
    ensures
        openai_outcome(event, format).events.len() == 0,
        openai_outcome(event, format).calls.len() == 0,
        event.member("response"@) matches Some(response) ==> openai_outcome(event, format).usage
            == response.member("usage"@),
        event.member("response"@) is None ==> openai_outcome(event, format).usage is None,
{
    lemma_main_kinds_differ();
}

/// Nothing comes of the events that merely say how the exchange goes on, nor of what has
/// no kind.
pub proof fn law_nothing_comes_of(event: Json, format: Option<Seq<char>>)
    requires
        event.text_member("type"@) is None
            || event.text_member("type"@) == Some("response.created"@)
            || event.text_member("type"@) == Some("input_audio_buffer.speech_started"@)
            || event.text_member("type"@) == Some("input_audio_buffer.speech_stopped"@)
            || event.text_member("type"@) == Some("input_audio_buffer.committed"@)
            || event.text_member("type"@) == Some("input_audio_buffer.cleared"@)
            || event.text_member("type"@) == Some("response.audio.done"@)
            || event.text_member("type"@) == Some("response.text.done"@)
            || event.text_member("type"@) == Some("response.content_part.added"@)
            || event.text_member("type"@) == Some("response.content_part.done"@)
            || event.text_member("type"@) == Some("response.output_item.added"@)
            || event.text_member("type"@) == Some("response.output_item.done"@)
            || event.text_member("type"@) == Some("conversation.item.created"@)
            || event.text_member("type"@) == Some("conversation.item.updated"@)
            || event.text_member("type"@) == Some("conversation.item.deleted"@),
    ensures
        openai_outcome(event, format) == (Outcome {
            events: Seq::empty(),
            calls: Seq::empty(),
            usage: None,
        }),
{
    lemma_other_kinds_differ();
}

/// An event of any other kind is handed on whole.
pub proof fn law_other_events_are_handed_on(
    event: Json,
    format: Option<Seq<char>>,
    kind: Seq<char>,
)
    requires
        event.text_member("type"@) == Some(kind),
        kind != "session.created"@,
        kind != "session.updated"@,
        kind != "response.text.delta"@,
        kind != "response.audio.delta"@,
        kind != "conversation.item.input_audio_transcription.delta"@,
        kind != "conversation.item.input_audio_transcription.completed"@,
        kind != "response.done"@,
        kind != "error"@,
        kind != "rate_limits.updated"@,
        kind != "response.created"@,
        kind != "input_audio_buffer.speech_started"@,
        kind != "input_audio_buffer.speech_stopped"@,
        kind != "input_audio_buffer.committed"@,
        kind != "input_audio_buffer.cleared"@,
        kind != "response.audio.done"@,
        kind != "response.text.done"@,
        kind != "response.content_part.added"@,
        kind != "response.content_part.done"@,
        kind != "response.output_item.added"@,
        kind != "response.output_item.done"@,
        kind != "conversation.item.created"@,
        kind != "conversation.item.updated"@,
        kind != "conversation.item.deleted"@,
    ensures
        openai_outcome(event, format) == (Outcome {
            events: seq![Event::ProviderSpecific(event)],
            calls: Seq::empty(),
            usage: None,
        }),
{
}

/// A finished response is taken output by output. One more output adds, behind what the
/// outputs before it came to: nothing, unless it is a function call; the call, under the
/// id in its `call_id` and with what its arguments parse to, both to the calls to make
/// and to the events; or a report, where the arguments do not parse. The ends of content,
/// turn and generation stay last.
pub proof fn law_response_output_by_output(
    one: Json,
    more: Json,
    response: Json,
    longer: Json,
    outputs: Seq<Json>,
    next: Json,
    format: Option<Seq<char>>,
)
    requires
        one.text_member("type"@) == Some("response.done"@),
        one.member("response"@) == Some(response),
        response.member("output"@) == Some(Json::Array(outputs)),
        more.text_member("type"@) == Some("response.done"@),
        more.member("response"@) == Some(longer),
        longer.member("output"@) == Some(Json::Array(outputs.push(next))),
    ensures
        ({
            let before = openai_outcome(one, format);
            let after = openai_outcome(more, format);
            let n = before.events.len() - 3;
            let name = match next.text_member("name"@) {
                Some(name) => name,
                None => Seq::empty(),
            };
            let args = match next.text_member("arguments"@) {
                Some(text) => parsed_json(text),
                None => parsed_json("{}"@),
            };
            &&& next.text_member("type"@) != Some("function_call"@) ==> after == before
            &&& next.text_member("type"@) == Some("function_call"@) ==> match args {
                Ok(args) => {
                    &&& after.calls == before.calls.push(
                        Call { id: next.text_member("call_id"@), name, args },
                    )
                    &&& after.events == before.events.take(n).push(
                        Event::ToolCall { id: next.text_member("call_id"@), name, args },
                    ) + before.events.skip(n)
                },
                Err(e) => {
                    &&& after.calls == before.calls
                    &&& after.events == before.events.take(n).push(
                        Event::Error {
                            code: "tool_args_parse_error"@,
                            message: "Failed to parse args for "@ + name + ": "@ + e,
                            event_id: None,
                        },
                    ) + before.events.skip(n)
                },
            }
        }),
{
    lemma_main_kinds_differ();
    reveal_strlit("");
    assert(""@ =~= Seq::<char>::empty());
    assert(outputs.push(next).drop_last() =~= outputs);
    let before = openai_outcome(one, format);
    let after = openai_outcome(more, format);
    let n = before.events.len() - 3;
    let ends = seq![
        Event::ContentUpdate { text: None, audio: None, done: true },
        Event::ModelTurnComplete,
        Event::ModelGenerationComplete,
    ];
    assert(before.events.take(n) =~= output_events(outputs));
    assert(before.events.skip(n) =~= ends);
    assert(after.events =~= output_events(outputs.push(next)) + ends);
}

/// A finished response without outputs comes to the ends of content, turn and
/// generation, and to nothing else.
pub proof fn law_response_without_outputs(event: Json, format: Option<Seq<char>>)
    requires
        event.text_member("type"@) == Some("response.done"@),
        !(event.member("response"@) matches Some(response) && (response.member(
            "output"@,
        ) matches Some(Json::Array(outputs)) && outputs.len() > 0)),
    ensures
        openai_outcome(event, format) == (Outcome {
            events: seq![
                Event::ContentUpdate { text: None, audio: None, done: true },
                Event::ModelTurnComplete,
                Event::ModelGenerationComplete,
            ],
            calls: Seq::empty(),
            usage: None,
        }),
{
    lemma_main_kinds_differ();
    assert(response_outputs(event) =~= Seq::empty());
    assert(openai_outcome(event, format).events =~= seq![
        Event::ContentUpdate { text: None, audio: None, done: true },
        Event::ModelTurnComplete,
        Event::ModelGenerationComplete,
    ]);
}

/// A message that does not parse is reported with the parser's own words; one that does
/// comes to what its event comes to. A close frame closes, and nothing comes of the
/// other control frames.
pub proof fn law_openai_frames(text: String, format: Option<Seq<char>>)
    ensures
        parsed_json(text@) matches Ok(event) ==> openai_frame(Frame::Text(text), format) == Ok::<
            Outcome,
            Failure,
        >(openai_outcome(event, format)),
        parsed_json(text@) matches Err(e) ==> openai_frame(Frame::Text(text), format) == Err::<
            Outcome,
            Failure,
        >(Failure::DeserializationError(e)),
        openai_frame(Frame::Close, format) == Ok::<Outcome, Failure>(
            Outcome { events: seq![Event::Close], calls: Seq::empty(), usage: None },
        ),
        openai_frame(Frame::Ping, format) == Ok::<Outcome, Failure>(
            Outcome { events: Seq::empty(), calls: Seq::empty(), usage: None },
        ),
        openai_frame(Frame::Pong, format) == openai_frame(Frame::Ping, format),
        openai_frame(Frame::Raw, format) == openai_frame(Frame::Ping, format),
{
}

/// The session has as many tools as are configured, each the definition of the tool in
/// the same place, and leaves the choice to the model; without tools it says nothing of
/// them.
pub proof fn law_session_tools(config: BackendConfig)
    ensures
        config.tools@.len() == 0 ==> session_json(config).member("tools"@) is None && session_json(
            config,
        ).member("tool_choice"@) is None,
        config.tools@.len() > 0 ==> session_json(config).member("tool_choice"@) == Some(
            Json::String("auto"@),
        ),
        config.tools@.len() > 0 ==> {
            &&& session_json(config).member("tools"@) matches Some(Json::Array(tools))
            &&& tools.len() == config.tools@.len()
            &&& forall|i: int|
                0 <= i < tools.len() ==> (#[trigger] tools[i])
                    == config.tools@[i].openai_definition@
        },
{
    law_session_says_what_is_configured(config, "tools"@);
}

/// The instructions are the text of the first part of the system instruction; without
/// such a text there are none.
pub proof fn law_session_instructions(config: BackendConfig)
    ensures
        config.system_instruction is None ==> session_json(config).member("instructions"@) is None,
        config.system_instruction matches Some(content) ==> {
            &&& content.parts@.len() == 0 ==> session_json(config).member("instructions"@) is None
            &&& content.parts@.len() > 0 ==> {
                &&& content.parts@[0].text matches Some(text) ==> session_json(config).member(
                    "instructions"@,
                ) == Some(Json::String(text@))
                &&& content.parts@[0].text is None ==> session_json(config).member(
                    "instructions"@,
                ) is None
            }
        },
{
    law_session_says_what_is_configured(config, "instructions"@);
}

/// Voice, formats and temperature are said as they are configured, and log probabilities
/// are asked for exactly where they are wanted.
pub proof fn law_session_settings(config: BackendConfig)
    ensures
        ({
            let w = session_json(config);
            &&& config.voice matches Some(v) ==> w.member("voice"@) == Some(Json::String(v@))
            &&& config.voice is None ==> w.member("voice"@) is None
            &&& config.input_audio_format matches Some(v) ==> w.member("input_audio_format"@) == Some(Json::String(v@))
            &&& config.input_audio_format is None ==> w.member("input_audio_format"@) is None
            &&& config.output_audio_format matches Some(v) ==> w.member("output_audio_format"@) == Some(Json::String(v@))
            &&& config.output_audio_format is None ==> w.member("output_audio_format"@) is None
            &&& config.include_logprobs ==> w.member("include"@) == Some(
                Json::Array(seq![Json::String("item.input_audio_transcription.logprobs"@)]),
            )
            &&& !config.include_logprobs ==> w.member("include"@) is None
            &&& config.generation_config is None ==> w.member("temperature"@) is None
            &&& config.generation_config matches Some(generation) ==> {
                &&& generation.temperature matches Some(t) ==> w.member("temperature"@) == Some(
                    t.wire(),
                )
                &&& generation.temperature is None ==> w.member("temperature"@) is None
            }
        }),
{
    let has_tools = config.tools@.len() > 0;
    let logprobs = on_condition(
        config.include_logprobs,
        Json::Array(seq![Json::String("item.input_audio_transcription.logprobs"@)]),
    );
    reveal_strlit("instructions");
    reveal_strlit("tools");
    reveal_strlit("tool_choice");
    reveal_strlit("voice");
    reveal_strlit("input_audio_format");
    reveal_strlit("output_audio_format");
    reveal_strlit("input_audio_transcription");
    reveal_strlit("include");
    reveal_strlit("temperature");
    assert("instructions"@.len() == 12);
    assert("tools"@.len() == 5);
    assert("tool_choice"@.len() == 11);
    assert("voice"@.len() == 5);
    assert("input_audio_format"@.len() == 18);
    assert("output_audio_format"@.len() == 19);
    assert("input_audio_transcription"@.len() == 25);
    assert("include"@.len() == 7);
    assert("temperature"@.len() == 11);
    assert("tools"@[0] != "voice"@[0]);
    assert("tool_choice"@[1] != "temperature"@[1]);
    let s0 = Json::object();
    assert forall|key: Seq<char>| #[trigger] s0.member(key) is None by {}
    let s1 = s0.with_optional("instructions"@, instructions(config));
    lemma_members_with(s0, "instructions"@, instructions(config));
    let s2 = s1.with_optional("tools"@, on_condition(has_tools, tool_definitions(config)));
    lemma_members_with(s1, "tools"@, on_condition(has_tools, tool_definitions(config)));
    let s3 = s2.with_optional("tool_choice"@, on_condition(has_tools, Json::String("auto"@)));
    lemma_members_with(s2, "tool_choice"@, on_condition(has_tools, Json::String("auto"@)));
    let s4 = s3.with_optional("voice"@, text_json(config.voice));
    lemma_members_with(s3, "voice"@, text_json(config.voice));
    let s5 = s4.with_optional("input_audio_format"@, text_json(config.input_audio_format));
    lemma_members_with(s4, "input_audio_format"@, text_json(config.input_audio_format));
    let s6 = s5.with_optional("output_audio_format"@, text_json(config.output_audio_format));
    lemma_members_with(s5, "output_audio_format"@, text_json(config.output_audio_format));
    let s7 = s6.with_optional("input_audio_transcription"@, transcription(config));
    lemma_members_with(s6, "input_audio_transcription"@, transcription(config));
    let s8 = s7.with_optional("include"@, logprobs);
    lemma_members_with(s7, "include"@, logprobs);
    let s9 = s8.with_optional("temperature"@, temperature(config));
    lemma_members_with(s8, "temperature"@, temperature(config));
    assert(session_json(config) == s9);
}

/// Transcription is asked for exactly where it is configured or a model for it is; with
/// that model, or else the usual one, and with the language and the prompt that are
/// configured.
pub proof fn law_session_transcription(config: BackendConfig)
    ensures
        session_json(config).member("input_audio_transcription"@) is Some
            <==> config.output_audio_transcription is Some || config.transcription_model is Some,
        session_json(config).member("input_audio_transcription"@) matches Some(w) ==> {
            &&& config.transcription_model matches Some(model) ==> w.member("model"@) == Some(
                Json::String(model@),
            )
            &&& config.transcription_model is None ==> w.member("model"@) == Some(
                Json::String("gpt-4o-transcribe"@),
            )
            &&& config.transcription_language matches Some(v) ==> w.member("language"@) == Some(Json::String(v@))
            &&& config.transcription_language is None ==> w.member("language"@) is None
            &&& config.transcription_prompt matches Some(v) ==> w.member("prompt"@) == Some(Json::String(v@))
            &&& config.transcription_prompt is None ==> w.member("prompt"@) is None
            &&& forall|other: Seq<char>| other != "model"@ && other != "language"@
                && other != "prompt"@ ==> (#[trigger] w.member(other)) is None
        },
{
    law_session_says_what_is_configured(config, "model"@);
    let model = match config.transcription_model {
        Some(model) => model@,
        None => "gpt-4o-transcribe"@,
    };
    reveal_strlit("model");
    reveal_strlit("language");
    reveal_strlit("prompt");
    assert("model"@.len() == 5);
    assert("language"@.len() == 8);
    assert("prompt"@.len() == 6);
    let w0 = Json::object();
    assert forall|key: Seq<char>| #[trigger] w0.member(key) is None by {}
    let w1 = w0.with_optional("model"@, Some(Json::String(model)));
    lemma_members_with(w0, "model"@, Some(Json::String(model)));
    let w2 = w1.with_optional("language"@, text_json(config.transcription_language));
    lemma_members_with(w1, "language"@, text_json(config.transcription_language));
    let w3 = w2.with_optional("prompt"@, text_json(config.transcription_prompt));
    lemma_members_with(w2, "prompt"@, text_json(config.transcription_prompt));
    if config.output_audio_transcription is Some || config.transcription_model is Some {
        assert(transcription(config) == Some(w3));
    }
}

/// The session is set up by one message of its kind, which is also the one that updates
/// it.
pub proof fn law_session_update(config: BackendConfig)
    ensures
        OpenAiBackend.session_update(config) == Ok::<Seq<char>, Failure>(
            json_text(session_update_json(config)),
        ),
        OpenAiBackend.initial_messages(config) == Ok::<Seq<Seq<char>>, Failure>(
            seq![json_text(session_update_json(config))],
        ),
        session_update_json(config).member("type"@) == Some(Json::String("session.update"@)),
        session_update_json(config).member("session"@) == Some(session_json(config)),
        forall|other: Seq<char>|
            other != "type"@ && other != "session"@ ==> (#[trigger] session_update_json(
                config,
            ).member(other)) is None,
{
    reveal_strlit("type");
    reveal_strlit("session");
    assert("type"@.len() == 4);
    assert("session"@.len() == 7);
    let w0 = Json::object();
    assert forall|key: Seq<char>| #[trigger] w0.member(key) is None by {}
    let w1 = w0.with_optional("type"@, Some(Json::String("session.update"@)));
    lemma_members_with(w0, "type"@, Some(Json::String("session.update"@)));
    let w2 = w1.with_optional("session"@, Some(session_json(config)));
    lemma_members_with(w1, "session"@, Some(session_json(config)));
    assert(session_update_json(config) == w2);
}

/// A text turn is a message item by the user, of one part of input text, which is the
/// text.
pub proof fn law_openai_text_turn(text: Seq<char>)
    ensures
        OpenAiBackend.text_turn(text) == Ok::<Seq<char>, Failure>(json_text(text_turn_json(text))),
        text_turn_json(text).member("type"@) == Some(Json::String("conversation.item.create"@)),
        ({
            &&& text_turn_json(text).member("item"@) matches Some(item)
            &&& item.member("type"@) == Some(Json::String("message"@))
            &&& item.member("role"@) == Some(Json::String("user"@))
            &&& item.member("content"@) matches Some(Json::Array(parts))
            &&& parts.len() == 1
            &&& parts[0].member("type"@) == Some(Json::String("input_text"@))
            &&& parts[0].member("text"@) == Some(Json::String(text))
        }),
{
    reveal_strlit("type");
    reveal_strlit("text");
    reveal_strlit("role");
    reveal_strlit("content");
    reveal_strlit("item");
    assert("type"@.len() == 4);
    assert("text"@.len() == 4);
    assert("role"@.len() == 4);
    assert("content"@.len() == 7);
    assert("item"@.len() == 4);
    assert("type"@[1] != "text"@[1]);
    assert("type"@[0] != "role"@[0]);
    assert("type"@[0] != "item"@[0]);
    assert("text"@[0] != "role"@[0]);
    assert("text"@[0] != "item"@[0]);
    assert("role"@[0] != "item"@[0]);
    let p0 = Json::object();
    assert forall|key: Seq<char>| #[trigger] p0.member(key) is None by {}
    let p1 = p0.with_optional("type"@, Some(Json::String("input_text"@)));
    lemma_members_with(p0, "type"@, Some(Json::String("input_text"@)));
    let p2 = p1.with_optional("text"@, Some(Json::String(text)));
    lemma_members_with(p1, "text"@, Some(Json::String(text)));
    let i0 = Json::object();
    assert forall|key: Seq<char>| #[trigger] i0.member(key) is None by {}
    let i1 = i0.with_optional("type"@, Some(Json::String("message"@)));
    lemma_members_with(i0, "type"@, Some(Json::String("message"@)));
    let i2 = i1.with_optional("role"@, Some(Json::String("user"@)));
    lemma_members_with(i1, "role"@, Some(Json::String("user"@)));
    let i3 = i2.with_optional("content"@, Some(Json::Array(seq![p2])));
    lemma_members_with(i2, "content"@, Some(Json::Array(seq![p2])));
    let w0 = Json::object();
    assert forall|key: Seq<char>| #[trigger] w0.member(key) is None by {}
    let w1 = w0.with_optional("type"@, Some(Json::String("conversation.item.create"@)));
    lemma_members_with(w0, "type"@, Some(Json::String("conversation.item.create"@)));
    let w2 = w1.with_optional("item"@, Some(i3));
    lemma_members_with(w1, "item"@, Some(i3));
    assert(text_turn_json(text) == w2);
}

/// A chunk of audio is appended as the base64 text of its samples, where the input is
/// 16-bit PCM or no format is named. Other formats, and an empty chunk, are refused.
pub proof fn law_openai_audio_chunk(samples: Seq<i16>, sample_rate: u32, config: BackendConfig)
    ensures
        samples.len() == 0 ==> OpenAiBackend.audio_chunk(samples, sample_rate, config) == Err::<
            Seq<char>,
            Failure,
        >(Failure::ConfigurationError("Audio samples cannot be empty"@)),
        samples.len() > 0 ==> (config.input_audio_format matches Some(name) ==> name@ != "pcm16"@
            ==> OpenAiBackend.audio_chunk(samples, sample_rate, config) == Err::<
            Seq<char>,
            Failure,
        >(
            Failure::UnsupportedOperation(
                "Audio encoding for format '"@ + name@ + "' not yet implemented for OpenAI"@,
            ),
        )),
        samples.len() > 0 && (config.input_audio_format is None || config.input_audio_format->0@
            == "pcm16"@) ==> ({
            let payload = audio_chunk_json(base64_text(pcm_bytes(samples)));
            &&& OpenAiBackend.audio_chunk(samples, sample_rate, config) == Ok::<Seq<char>, Failure>(
                json_text(payload),
            )
            &&& payload.member("type"@) == Some(Json::String("input_audio_buffer.append"@))
            &&& payload.member("audio"@) == Some(Json::String(base64_text(pcm_bytes(samples))))
        }),
{
    let audio = base64_text(pcm_bytes(samples));
    reveal_strlit("type");
    reveal_strlit("audio");
    assert("type"@.len() == 4);
    assert("audio"@.len() == 5);
    let w0 = Json::object();
    assert forall|key: Seq<char>| #[trigger] w0.member(key) is None by {}
    let w1 = w0.with_optional("type"@, Some(Json::String("input_audio_buffer.append"@)));
    lemma_members_with(w0, "type"@, Some(Json::String("input_audio_buffer.append"@)));
    let w2 = w1.with_optional("audio"@, Some(Json::String(audio)));
    lemma_members_with(w1, "audio"@, Some(Json::String(audio)));
    assert(audio_chunk_json(audio) == w2);
}

/// The audio stream ends with a commit, and a response is asked for by an event of its
/// own.
pub proof fn law_openai_commit_and_request()
    ensures
        OpenAiBackend.audio_stream_end() == Ok::<Seq<char>, Failure>(
            json_text(audio_stream_end_json()),
        ),
        audio_stream_end_json().member("type"@) == Some(
            Json::String("input_audio_buffer.commit"@),
        ),
        OpenAiBackend.request_response() == Ok::<Seq<char>, Failure>(
            json_text(request_response_json()),
        ),
        request_response_json().member("type"@) == Some(Json::String("response.create"@)),
        request_response_json().member("response"@) == Some(Json::object()),
        OpenAiBackend.provider() == ApiProvider::OpenAi,
{
    reveal_strlit("type");
    reveal_strlit("response");
    assert("type"@.len() == 4);
    assert("response"@.len() == 8);
    let e0 = Json::object();
    assert forall|key: Seq<char>| #[trigger] e0.member(key) is None by {}
    let e1 = e0.with_optional("type"@, Some(Json::String("input_audio_buffer.commit"@)));
    lemma_members_with(e0, "type"@, Some(Json::String("input_audio_buffer.commit"@)));
    let w0 = Json::object();
    assert forall|key: Seq<char>| #[trigger] w0.member(key) is None by {}
    let w1 = w0.with_optional("type"@, Some(Json::String("response.create"@)));
    lemma_members_with(w0, "type"@, Some(Json::String("response.create"@)));
    let w2 = w1.with_optional("response"@, Some(Json::object()));
    lemma_members_with(w1, "response"@, Some(Json::object()));
    assert(audio_stream_end_json() == e1);
    assert(request_response_json() == w2);
}

/// The result of a call goes out as the output of the call with the same id: the JSON
/// text of what the call returned. A call without an id is answered under null.
pub proof fn law_openai_tool_response(response: FunctionResponse, others: Seq<FunctionResponse>)
    ensures
        ({
            let payload = tool_response_json(text_option(response.id), response.response@);
            &&& OpenAiBackend.tool_response(seq![response] + others) == Ok::<Seq<char>, Failure>(
                json_text(payload),
            )
            &&& payload.member("type"@) == Some(Json::String("conversation.item.create"@))
            &&& payload.member("item"@) matches Some(item)
            &&& item.member("type"@) == Some(Json::String("function_call_output"@))
            &&& response.id matches Some(id) ==> item.member("call_id"@) == Some(Json::String(id@))
            &&& response.id is None ==> item.member("call_id"@) == Some(Json::Null)
            &&& item.member("output"@) == Some(Json::String(json_text(response.response@)))
        }),
        OpenAiBackend.tool_response(Seq::empty()) == Err::<Seq<char>, Failure>(
            Failure::ConfigurationError("No tool responses provided for OpenAI"@),
        ),
{
    let id = id_json(text_option(response.id));
    let output = Json::String(json_text(response.response@));
    reveal_strlit("type");
    reveal_strlit("call_id");
    reveal_strlit("output");
    reveal_strlit("item");
    assert("type"@.len() == 4);
    assert("call_id"@.len() == 7);
    assert("output"@.len() == 6);
    assert("item"@.len() == 4);
    assert("type"@[0] != "item"@[0]);
    let i0 = Json::object();
    assert forall|key: Seq<char>| #[trigger] i0.member(key) is None by {}
    let i1 = i0.with_optional("type"@, Some(Json::String("function_call_output"@)));
    lemma_members_with(i0, "type"@, Some(Json::String("function_call_output"@)));
    let i2 = i1.with_optional("call_id"@, Some(id));
    lemma_members_with(i1, "call_id"@, Some(id));
    let i3 = i2.with_optional("output"@, Some(output));
    lemma_members_with(i2, "output"@, Some(output));
    let w0 = Json::object();
    assert forall|key: Seq<char>| #[trigger] w0.member(key) is None by {}
    let w1 = w0.with_optional("type"@, Some(Json::String("conversation.item.create"@)));
    lemma_members_with(w0, "type"@, Some(Json::String("conversation.item.create"@)));
    let w2 = w1.with_optional("item"@, Some(i3));
    lemma_members_with(w1, "item"@, Some(i3));
    assert(tool_response_json(text_option(response.id), response.response@) == w2);
    assert((seq![response] + others)[0] == response);
}

/// A call with a handler is answered by its result, under its own id, and then by a
/// request for the next response; a call without a handler is not answered.
pub proof fn law_openai_replies(call: ToolRequest, outcome: ToolOutcome)
    ensures
        outcome is NotRegistered ==> openai_replies(call, outcome).len() == 0,
        !(outcome is NotRegistered) ==> ({
            let payload = tool_response_json(text_option(call.id), answer(outcome));
            &&& openai_replies(call, outcome) == seq![
                json_text(payload),
                json_text(request_response_json()),
            ]
            &&& payload.member("item"@) matches Some(item)
            &&& call.id matches Some(id) ==> item.member("call_id"@) == Some(Json::String(id@))
            &&& call.id is None ==> item.member("call_id"@) == Some(Json::Null)
            &&& item.member("output"@) == Some(Json::String(json_text(answer(outcome))))
        }),
{
    let id = id_json(text_option(call.id));
    let output = Json::String(json_text(answer(outcome)));
    reveal_strlit("type");
    reveal_strlit("call_id");
    reveal_strlit("output");
    reveal_strlit("item");
    assert("type"@.len() == 4);
    assert("call_id"@.len() == 7);
    assert("output"@.len() == 6);
    assert("item"@.len() == 4);
    assert("type"@[0] != "item"@[0]);
    let i0 = Json::object();
    assert forall|key: Seq<char>| #[trigger] i0.member(key) is None by {}
    let i1 = i0.with_optional("type"@, Some(Json::String("function_call_output"@)));
    lemma_members_with(i0, "type"@, Some(Json::String("function_call_output"@)));
    let i2 = i1.with_optional("call_id"@, Some(id));
    lemma_members_with(i1, "call_id"@, Some(id));
    let i3 = i2.with_optional("output"@, Some(output));
    lemma_members_with(i2, "output"@, Some(output));
    let w0 = Json::object();
    assert forall|key: Seq<char>| #[trigger] w0.member(key) is None by {}
    let w1 = w0.with_optional("type"@, Some(Json::String("conversation.item.create"@)));
    lemma_members_with(w0, "type"@, Some(Json::String("conversation.item.create"@)));
    let w2 = w1.with_optional("item"@, Some(i3));
    lemma_members_with(w1, "item"@, Some(i3));
    assert(tool_response_json(text_option(call.id), answer(outcome)) == w2);
}

/// A request is made ready with the key in its header and the mark of the beta, in place
/// of such headers as it had; all its other headers stay.
pub proof fn law_openai_headers_of_request(
    headers: Seq<(Seq<char>, Seq<char>)>,
    api_key: Seq<char>,
    header: (Seq<char>, Seq<char>),
)
    ensures
        openai_headers(headers, api_key).contains(("authorization"@, "Bearer "@ + api_key)),
        openai_headers(headers, api_key).contains(("openai-beta"@, "realtime=v1"@)),
        header.0 == "authorization"@ && openai_headers(headers, api_key).contains(header)
            ==> header.1 == "Bearer "@ + api_key,
        header.0 == "openai-beta"@ && openai_headers(headers, api_key).contains(header)
            ==> header.1 == "realtime=v1"@,
        header.0 != "authorization"@ && header.0 != "openai-beta"@ ==> (openai_headers(
            headers,
            api_key,
        ).contains(header) <==> headers.contains(header)),
{
    reveal_strlit("authorization");
    reveal_strlit("openai-beta");
    assert("authorization"@.len() == 13);
    assert("openai-beta"@.len() == 11);
    let first = set_header(headers, "authorization"@, "Bearer "@ + api_key);
    law_set_header(
        headers,
        "authorization"@,
        "Bearer "@ + api_key,
        ("authorization"@, "Bearer "@ + api_key),
    );
    law_set_header(
        first,
        "openai-beta"@,
        "realtime=v1"@,
        ("authorization"@, "Bearer "@ + api_key),
    );
    law_set_header(first, "openai-beta"@, "realtime=v1"@, ("openai-beta"@, "realtime=v1"@));
    law_set_header(headers, "authorization"@, "Bearer "@ + api_key, header);
    law_set_header(first, "openai-beta"@, "realtime=v1"@, header);
}

/// A request with scheme and authority, and with nothing to escape, keeps them and its
/// path, and has the model at the end of its query, behind the query that it had.
pub proof fn law_openai_request_target(
    api_key: Seq<char>,
    request: Request,
    config: BackendConfig,
    path: Seq<char>,
    query: Option<Seq<char>>,
)
    requires
        header_text("Bearer "@ + api_key),
        request.scheme is Some,
        request.authority is Some,
        request.target == Some((path, query)),
        plain_path(path),
        plain_query(config.model@),
        query matches Some(query) ==> plain_query(query),
        path.len() + config.model@.len() + 8 + (match query {
            Some(query) => query.len(),
            None => 0,
        }) <= 65534,
    ensures
        OpenAiBackend.configured(api_key, request, config) matches Ok(ready) && {
            &&& ready.scheme == request.scheme
            &&& ready.authority == request.authority
            &&& query matches Some(query) ==> ready.target == Some(
                (path, Some(query + "&model="@ + config.model@)),
            )
            &&& query is None ==> ready.target == Some((path, Some("model="@ + config.model@)))
            &&& ready.headers == openai_headers(request.headers, api_key)
        },
{
    reveal_strlit("model=");
    reveal_strlit("&model=");
    reveal_strlit("&");
    let model = "model="@ + config.model@;
    assert forall|i: int| 0 <= i < model.len() implies plain_char(#[trigger] model[i]) || model[i]
        == '=' || model[i] == '&' by {
        if i >= 6 {
            assert(model[i] == config.model@[i - 6]);
        }
    }
    match query {
        Some(before) => {
            let whole = before + "&"@ + model;
            assert(whole =~= before + "&model="@ + config.model@);
            assert forall|i: int| 0 <= i < whole.len() implies plain_char(#[trigger] whole[i])
                || whole[i] == '=' || whole[i] == '&' by {
                if i < before.len() {
                    assert(whole[i] == before[i]);
                } else if i > before.len() {
                    assert(whole[i] == model[i - before.len() - 1]);
                }
            }
        },
        None => {},
    }
}

/// A key that no header can hold, a target that does not parse, and a URI with scheme or
/// authority alone are refused, each with its reason.
pub proof fn law_openai_request_refused(
    api_key: Seq<char>,
    request: Request,
    config: BackendConfig,
)
    ensures
        !header_text("Bearer "@ + api_key) ==> OpenAiBackend.configured(api_key, request, config)
            == Err::<Request, Failure>(
            Failure::ConfigurationError(
                "Invalid API key format: failed to parse header value"@,
            ),
        ),
        OpenAiBackend.configured(api_key, request, config) is Ok ==> header_text(
            "Bearer "@ + api_key,
        ) && (request.scheme is Some <==> request.authority is Some),
        OpenAiBackend.configured(api_key, request, config) == Err::<Request, Failure>(
            Failure::ConfigurationError("Failed to reconstruct URI: authority missing"@),
        ) <== header_text("Bearer "@ + api_key) && request.scheme is Some && request.authority
            is None && plain_query(config.model@) && request.target is None && config.model@.len()
            <= 65000,
        OpenAiBackend.configured(api_key, request, config) == Err::<Request, Failure>(
            Failure::ConfigurationError("Failed to reconstruct URI: scheme missing"@),
        ) <== header_text("Bearer "@ + api_key) && request.scheme is None && request.authority
            is Some && plain_query(config.model@) && request.target is None && config.model@.len()
            <= 65000,
{
    reveal_strlit("Invalid API key format: ");
    reveal_strlit("failed to parse header value");
    reveal_strlit("Invalid API key format: failed to parse header value");
    assert("Invalid API key format: "@ + "failed to parse header value"@
        =~= "Invalid API key format: failed to parse header value"@);
    reveal_strlit("Failed to reconstruct URI: ");
    reveal_strlit("authority missing");
    reveal_strlit("scheme missing");
    reveal_strlit("Failed to reconstruct URI: authority missing");
    reveal_strlit("Failed to reconstruct URI: scheme missing");
    assert("Failed to reconstruct URI: "@ + "authority missing"@
        =~= "Failed to reconstruct URI: authority missing"@);
    assert("Failed to reconstruct URI: "@ + "scheme missing"@
        =~= "Failed to reconstruct URI: scheme missing"@);
    if request.target is None && plain_query(config.model@) && config.model@.len() <= 65000 {
        reveal_strlit("model=");
        reveal_strlit("/");
        let model = "model="@ + config.model@;
        assert forall|i: int| 0 <= i < model.len() implies plain_char(#[trigger] model[i])
            || model[i] == '=' || model[i] == '&' by {
            if i >= 6 {
                assert(model[i] == config.model@[i - 6]);
            }
        }
        assert(plain_target("/"@, model));
    }
}

/// A request without a target is for the root, with the model in the query. A target with
/// something to escape goes through the parser, whose result is taken and whose failure is
/// reported.
pub proof fn law_openai_request_parsed(
    api_key: Seq<char>,
    request: Request,
    config: BackendConfig,
    path: Seq<char>,
)
    requires
        header_text("Bearer "@ + api_key),
        request.scheme is Some,
        request.authority is Some,
    ensures
        request.target is None && plain_query(config.model@) && config.model@.len() <= 65000 ==> (
        OpenAiBackend.configured(api_key, request, config) matches Ok(ready) && ready.target
            == Some(("/"@, Some("model="@ + config.model@)))),
        request.target == Some((path, None::<Seq<char>>)) && !plain_query(config.model@)
            ==> match parsed_target(path + "?"@ + ("model="@ + config.model@)) {
            Ok(target) => OpenAiBackend.configured(api_key, request, config) matches Ok(ready)
                && ready.target == Some(target) && ready.scheme == request.scheme && ready.authority
                == request.authority,
            Err(e) => OpenAiBackend.configured(api_key, request, config) == Err::<
                Request,
                Failure,
            >(Failure::ConfigurationError("Failed to build query string: "@ + e)),
        },
{
    reveal_strlit("model=");
    reveal_strlit("/");
    let model = "model="@ + config.model@;
    if plain_query(config.model@) {
        assert forall|i: int| 0 <= i < model.len() implies plain_char(#[trigger] model[i])
            || model[i] == '=' || model[i] == '&' by {
            if i >= 6 {
                assert(model[i] == config.model@[i - 6]);
            }
        }
        assert(config.model@.len() <= 65000 ==> plain_target("/"@, model));
    } else {
        let i = choose|i: int|
            0 <= i < config.model@.len() && !(plain_char(#[trigger] config.model@[i])
                || config.model@[i] == '=' || config.model@[i] == '&');
        assert(model[i + 6] == config.model@[i]);
        assert(!plain_query(model));
    }
}

} // verus!
