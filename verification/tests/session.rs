use gemini_live_api::client::backend::{
    ApiProvider, BackendConfig, HandshakeRequest, LiveApiBackend, Target, UnifiedServerEvent,
};
use gemini_live_api::client::builder::{AiClientBuilder, CONNECT_DELAY_MS, OUTGOING_CAPACITY};
use gemini_live_api::client::connection::{
    after_handshake, dispatch, handle_unified_event, prepare_handshake, ready_request, EventAction,
    Listener, LoopAction, LoopEvent,
};
use gemini_live_api::client::gemini_backend::GeminiBackend;
use gemini_live_api::client::handle::{AiLiveClient, Link, SendPlan};
use gemini_live_api::client::handlers::{
    Handlers, ServerContentContext, ToolTable, UsageMetadataContext,
};
use gemini_live_api::client::openai_backend::OpenAiBackend;
use gemini_live_api::error::GeminiError;
use gemini_live_api::json::JsonValue;
use gemini_live_api::types::{
    AudioTranscriptionConfig, Content, FunctionDeclaration, FunctionResponse, GenerationConfig,
    InputAudioNoiseReduction, RealtimeInputConfig, UsageMetadata,
};

type Builder = AiClientBuilder<u32, &'static str, &'static str, &'static str>;

fn link() -> Link<&'static str, &'static str> {
    Link { shutdown: "stop", outgoing: "queue" }
}

fn openai() -> AiLiveClient<u32, OpenAiBackend, &'static str, &'static str> {
    Builder::new("k".to_string(), "m".to_string()).connect_openai(link()).0
}

fn gemini() -> AiLiveClient<u32, GeminiBackend, &'static str, &'static str> {
    Builder::new("k".to_string(), "m".to_string()).connect_gemini(link()).0
}

#[test]
fn builder_collects_the_configuration() {
    let builder = Builder::new_with_model_and_state("k".to_string(), "m".to_string(), 7)
        .input_audio_noise_reduction(InputAudioNoiseReduction {})
        .generation_config(GenerationConfig::default())
        .system_instruction(Content::default())
        .realtime_input_config(RealtimeInputConfig::default())
        .output_audio_transcription(AudioTranscriptionConfig {})
        .voice("v".to_string())
        .input_audio_format("i".to_string())
        .output_audio_format("o".to_string())
        .transcription_model("tm".to_string())
        .transcription_language("tl".to_string())
        .transcription_prompt("tp".to_string())
        .include_logprobs(true)
        .on_server_content("content")
        .on_usage_metadata("usage")
        .add_tool_internal(
            "f".to_string(),
            FunctionDeclaration::default(),
            JsonValue::Null,
            "first",
        )
        .add_tool_internal(
            "f".to_string(),
            FunctionDeclaration::default(),
            JsonValue::Bool(true),
            "second",
        );
    let (client, task) = builder.connect_gemini(link());
    assert_eq!(client.provider(), ApiProvider::Gemini);
    assert_eq!(*client.state(), 7);
    assert_eq!(*task.state, 7);
    assert_eq!(task.api_key, "k");
    assert_eq!(task.handlers.on_server_content, Some("content"));
    assert_eq!(task.handlers.on_usage_metadata, Some("usage"));
    assert_eq!(task.handlers.tool_handlers.get("f"), Some(&"second"));
    assert_eq!(task.handlers.tool_handlers.get("g"), None);
    let config = &task.backend_config;
    assert_eq!(config.model, "m");
    assert_eq!(config.tools.len(), 2);
    assert_eq!(config.tools[0].openai_definition, JsonValue::Null);
    assert_eq!(config.tools[1].name, "f");
    assert_eq!(config.voice.as_deref(), Some("v"));
    assert_eq!(config.input_audio_format.as_deref(), Some("i"));
    assert_eq!(config.output_audio_format.as_deref(), Some("o"));
    assert_eq!(config.transcription_model.as_deref(), Some("tm"));
    assert_eq!(config.transcription_language.as_deref(), Some("tl"));
    assert_eq!(config.transcription_prompt.as_deref(), Some("tp"));
    assert!(config.include_logprobs);
    assert!(config.input_audio_noise_reduction.is_some());
    assert!(config.generation_config.is_some());
    assert!(config.system_instruction.is_some());
    assert!(config.realtime_input_config.is_some());
    assert!(config.output_audio_transcription.is_some());
    assert_eq!(OUTGOING_CAPACITY, 100);
    assert_eq!(CONNECT_DELAY_MS, 200);
}

#[test]
fn builder_starts_with_nothing_but_the_model() {
    let (client, task) = Builder::new("k".to_string(), "m".to_string()).connect_openai(link());
    assert_eq!(*client.state(), 0);
    assert_eq!(*task.backend_config, BackendConfig::for_model("m".to_string()));
    assert_eq!(task.handlers.on_server_content, None);
    assert_eq!(task.backend.provider_type(), ApiProvider::OpenAi);
}

#[test]
fn every_tool_has_its_handler() {
    let mut builder = Builder::new("k".to_string(), "m".to_string());
    for (name, handler) in [("a", "1"), ("b", "2"), ("a", "3"), ("", "4")] {
        builder = builder.voice(name.to_string()).add_tool_internal(
            name.to_string(),
            FunctionDeclaration::default(),
            JsonValue::Null,
            handler,
        );
    }
    let (_, task) = builder.include_logprobs(true).connect_openai(link());
    let names: Vec<&str> = task.backend_config.tools.iter().map(|t| t.name.as_str()).collect();
    assert_eq!(names, vec!["a", "b", "a", ""]);
    for (name, handler) in [("a", Some(&"3")), ("b", Some(&"2")), ("", Some(&"4")), ("c", None)] {
        assert_eq!(task.handlers.tool_handlers.get(name), handler);
        assert_eq!(names.contains(&name), handler.is_some());
    }
}

#[test]
fn closing_gives_the_signal_once() {
    let mut client = openai();
    assert!(!client.is_closed());
    assert_eq!(client.outgoing(), Some(&"queue"));
    assert_eq!(client.close(), Some("stop"));
    assert!(client.is_closed());
    assert_eq!(client.outgoing(), None);
    assert_eq!(client.close(), None);
    assert_eq!(*client.state(), 0);
    assert_eq!(client.provider(), ApiProvider::OpenAi);
}

const ASK: &str = r#"{"type":"response.create","response":{}}"#;

#[test]
fn openai_is_asked_for_a_response() {
    let client = openai();
    let turn = client.send_text_turn("hi".to_string());
    assert_eq!(turn.messages.len(), 2);
    assert!(turn.messages[0].contains("input_text"));
    assert_eq!(turn.messages[1], ASK);
    assert_eq!(turn.outcome, Ok(()));
    let end = client.send_audio_stream_end();
    assert_eq!(end.messages, vec![
        r#"{"type":"input_audio_buffer.commit"}"#.to_string(),
        ASK.to_string()
    ]);
    let tools = client.send_tool_responses(vec![FunctionResponse::default()]);
    assert_eq!(tools.messages.len(), 2);
    assert_eq!(tools.messages[1], ASK);
    assert_eq!(client.request_response().messages, vec![ASK.to_string()]);
    let chunk = client.send_audio_chunk(&[1], 8000);
    assert_eq!(chunk.messages.len(), 1);
}

#[test]
fn gemini_is_not_asked_for_a_response() {
    let client = gemini();
    assert_eq!(client.send_text_turn("hi".to_string()).messages.len(), 1);
    assert_eq!(client.send_audio_stream_end().messages.len(), 1);
    assert_eq!(client.send_tool_responses(vec![]).messages.len(), 1);
    assert_eq!(
        client.request_response(),
        SendPlan { messages: vec![], outcome: Ok(()) }
    );
}

#[test]
fn nothing_to_send_of_empty_audio() {
    for_empty(openai().send_audio_chunk(&[], 1));
    let mut closed = gemini();
    closed.close();
    for_empty(closed.send_audio_chunk(&[], 1));
}

fn for_empty(plan: SendPlan) {
    assert_eq!(plan, SendPlan { messages: vec![], outcome: Ok(()) });
}

#[test]
fn a_message_that_cannot_be_built_is_reported() {
    let plan = openai().send_tool_responses(vec![]);
    assert_eq!(plan, SendPlan {
        messages: vec![],
        outcome: Err(GeminiError::ConfigurationError(
            "No tool responses provided for OpenAI".to_string()
        )),
    });
}

#[test]
fn a_closed_session_sends_nothing() {
    let mut client = openai();
    client.close();
    let not_ready = || SendPlan { messages: vec![], outcome: Err(GeminiError::NotReady) };
    assert_eq!(client.send_text_turn("x".to_string()), not_ready());
    assert_eq!(client.send_audio_chunk(&[1], 1), not_ready());
    assert_eq!(client.send_audio_stream_end(), not_ready());
    assert_eq!(client.send_tool_responses(vec![FunctionResponse::default()]), not_ready());
    assert_eq!(client.request_response(), not_ready());
}

#[test]
fn plans_are_settled() {
    let client = gemini();
    assert_eq!(client.send_text_turn("x".to_string()).settle(true), Ok(()));
    assert_eq!(
        client.send_text_turn("x".to_string()).settle(false),
        Err(GeminiError::SendError)
    );
}

#[test]
fn tool_tables() {
    let table = ToolTable::new().with("a".to_string(), 1).with("b".to_string(), 2);
    let table = table.with("a".to_string(), 3);
    assert_eq!(table.get("a"), Some(&3));
    assert_eq!(table.get("b"), Some(&2));
    assert_eq!(table.get("c"), None);
}

#[test]
fn handshake_for_openai() {
    let config = BackendConfig::for_model("m1".to_string());
    let request = prepare_handshake(&OpenAiBackend, "sk", &config).unwrap();
    assert_eq!(request.scheme.as_deref(), Some("wss"));
    assert_eq!(request.authority.as_deref(), Some("api.openai.com"));
    assert_eq!(
        request.target,
        Some(Target { path: "/v1/realtime".to_string(), query: Some("model=m1".to_string()) })
    );
    assert_eq!(request.headers[0].1, "Bearer sk");
}

#[test]
fn handshake_for_gemini() {
    let config = BackendConfig::default();
    let request = prepare_handshake(&GeminiBackend, "k1", &config).unwrap();
    assert_eq!(request, HandshakeRequest {
        scheme: Some("wss".to_string()),
        authority: Some("generativelanguage.googleapis.com".to_string()),
        target: Some(Target {
            path: "/ws/google.ai.generativelanguage.v1beta.GenerativeService.BidiGenerateContent"
                .to_string(),
            query: Some("key=k1".to_string()),
        }),
        headers: vec![],
    });
}

#[test]
fn handshakes_up_to_the_longest_url() {
    let ends = |request: HandshakeRequest| request.target.unwrap().query.unwrap().len();
    let fits = "k".repeat(65534 - GeminiBackend.get_websocket_url("").unwrap().len());
    let config = BackendConfig::default();
    let request = prepare_handshake(&GeminiBackend, &fits, &config).unwrap();
    assert_eq!(ends(request), 4 + fits.len());
    assert!(prepare_handshake(&GeminiBackend, &(fits + "k"), &config).is_err());
    let model = "m".repeat(65534 - 19);
    let config = BackendConfig::for_model(model.clone());
    let request = prepare_handshake(&OpenAiBackend, "sk", &config).unwrap();
    assert_eq!(ends(request), 6 + model.len());
    let config = BackendConfig::for_model(model + "m");
    assert!(prepare_handshake(&OpenAiBackend, "sk", &config).is_err());
}

#[test]
fn handshake_without_a_request() {
    assert_eq!(
        ready_request(&GeminiBackend, "k", Err("bad".to_string()), &BackendConfig::default())
            .unwrap_err(),
        GeminiError::ConfigurationError("Failed to build base request: bad".to_string())
    );
}

#[test]
fn handshake_status() {
    let config = BackendConfig::for_model("m".to_string());
    let expected = vec![r#"{"setup":{"model":"m"}}"#.to_string()];
    for status in [101, 200, 204, 299] {
        assert_eq!(after_handshake(&GeminiBackend, status, &config).unwrap(), expected);
    }
    assert_eq!(
        after_handshake(&GeminiBackend, 403, &config).unwrap_err(),
        GeminiError::ApiError(
            "WebSocket handshake failed with status 403 Forbidden".to_string()
        )
    );
    for status in [100, 199, 300, 999] {
        assert!(after_handshake(&GeminiBackend, status, &config).is_err());
    }
}

fn handlers(
    content: Option<u8>,
    usage: Option<u8>,
) -> Handlers<u8, u8, u8> {
    Handlers { on_server_content: content, on_usage_metadata: usage, ..Handlers::none() }
}

fn content_event() -> UnifiedServerEvent {
    UnifiedServerEvent::ContentUpdate {
        text: Some("t".to_string()),
        audio: Some(vec![1]),
        done: true,
    }
}

#[test]
fn events_go_to_their_handlers() {
    let both = handlers(Some(1), Some(2));
    assert_eq!(
        handle_unified_event(content_event(), &both),
        EventAction::CallServerContent(ServerContentContext {
            text: Some("t".to_string()),
            audio: Some(vec![1]),
            is_done: true,
        })
    );
    let metadata = UsageMetadata::default();
    assert_eq!(
        handle_unified_event(UnifiedServerEvent::UsageMetadata(metadata.clone()), &both),
        EventAction::CallUsageMetadata(UsageMetadataContext { metadata })
    );
    assert_eq!(handle_unified_event(UnifiedServerEvent::Close, &both), EventAction::Stop);
    for event in [
        UnifiedServerEvent::SetupComplete,
        UnifiedServerEvent::ModelTurnComplete,
        UnifiedServerEvent::ModelGenerationComplete,
        UnifiedServerEvent::ProviderSpecific(JsonValue::Null),
        UnifiedServerEvent::TranscriptionUpdate { text: String::new(), done: true },
    ] {
        assert_eq!(handle_unified_event(event, &both), EventAction::Proceed);
    }
}

#[test]
fn events_without_handlers_are_passed_over() {
    let none = handlers(None, None);
    assert_eq!(handle_unified_event(content_event(), &none), EventAction::Proceed);
    assert_eq!(
        handle_unified_event(UnifiedServerEvent::UsageMetadata(UsageMetadata::default()), &none),
        EventAction::Proceed
    );
    assert_eq!(handle_unified_event(UnifiedServerEvent::Close, &none), EventAction::Stop);
}

#[test]
fn nothing_is_done_after_the_close() {
    let all = handlers(Some(1), Some(2));
    let (actions, stop) = dispatch(
        vec![UnifiedServerEvent::SetupComplete, UnifiedServerEvent::Close, content_event()],
        &all,
    );
    assert_eq!(actions, vec![EventAction::Proceed]);
    assert!(stop);
    let (actions, stop) = dispatch(vec![content_event(), content_event()], &all);
    assert_eq!(actions.len(), 2);
    assert!(!stop);
    assert_eq!(dispatch(vec![], &all), (vec![], false));
}

#[test]
fn the_loop() {
    let mut listener = Listener::new();
    assert_eq!(
        listener.step(LoopEvent::Outgoing("m".to_string())),
        LoopAction::Send("m".to_string())
    );
    assert_eq!(listener.step(LoopEvent::Sent), LoopAction::Wait);
    assert_eq!(
        listener.step(LoopEvent::SendFailed { connection_closed: false }),
        LoopAction::Wait
    );
    assert_eq!(
        listener.step(LoopEvent::SendFailed { connection_closed: true }),
        LoopAction::Finish(Err(GeminiError::ConnectionClosed))
    );
    assert_eq!(listener.step(LoopEvent::Received), LoopAction::Process);
    assert_eq!(listener.step(LoopEvent::Processed { stop: false }), LoopAction::Wait);
    assert_eq!(listener.step(LoopEvent::Processed { stop: true }), LoopAction::Close);
    assert_eq!(listener.step(LoopEvent::ProcessingFailed), LoopAction::Wait);
    assert_eq!(
        listener.step(LoopEvent::ReadFailed("r".to_string())),
        LoopAction::Finish(Err(GeminiError::WebSocketError("r".to_string())))
    );
    assert_eq!(listener.step(LoopEvent::StreamEnded), LoopAction::Finish(Ok(())));
    assert_eq!(listener.step(LoopEvent::Shutdown), LoopAction::Goodbye);
}

#[test]
fn messages_are_written_in_order() {
    let config = BackendConfig::for_model("m".to_string());
    let mut written = after_handshake(&GeminiBackend, 101, &config).unwrap();
    let mut listener = Listener::new();
    for event in [
        LoopEvent::Outgoing("a".to_string()),
        LoopEvent::Sent,
        LoopEvent::Received,
        LoopEvent::Processed { stop: false },
        LoopEvent::Outgoing("b".to_string()),
        LoopEvent::Sent,
        LoopEvent::Shutdown,
        LoopEvent::Outgoing("c".to_string()),
    ] {
        match listener.step(event) {
            LoopAction::Send(message) => written.push(message),
            LoopAction::Goodbye => break,
            _ => {}
        }
    }
    assert_eq!(written, vec![
        r#"{"setup":{"model":"m"}}"#.to_string(),
        "a".to_string(),
        "b".to_string()
    ]);
}

#[test]
fn the_loop_goes_on_without_messages() {
    let mut listener = Listener::new();
    assert!(listener.waits_for_messages());
    assert_eq!(listener.step(LoopEvent::OutgoingClosed), LoopAction::Wait);
    assert!(!listener.waits_for_messages());
    assert_eq!(listener.step(LoopEvent::Received), LoopAction::Process);
    assert!(!listener.waits_for_messages());
}
