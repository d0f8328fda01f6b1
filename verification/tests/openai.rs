use gemini_live_api::client::backend::{
    ApiError, ApiProvider, BackendConfig, Frame, HandshakeRequest, LiveApiBackend, Target,
    ToolDefinition, ToolOutcome, ToolRequest, UnifiedServerEvent, complete_usage,
};
use gemini_live_api::client::openai_backend::{
    OpenAiBackend, interpret_audio, interpret_call, session_update_payload,
};
use gemini_live_api::client::request::insert_header;
use gemini_live_api::error::GeminiError;
use gemini_live_api::json::JsonValue;
use gemini_live_api::types::{
    AudioTranscriptionConfig, Content, FunctionDeclaration, FunctionResponse, GenerationConfig,
    Part, Role, Temperature, UsageMetadata,
};

fn json(text: &str) -> JsonValue {
    JsonValue::parse(text).unwrap()
}

fn parse(text: &str) -> Vec<UnifiedServerEvent> {
    OpenAiBackend
        .parse_server_message(Frame::Text(text.to_string()), &None)
        .unwrap()
        .events
}

fn request() -> HandshakeRequest {
    HandshakeRequest {
        scheme: Some("wss".to_string()),
        authority: Some("api.openai.com".to_string()),
        target: Some(Target { path: "/v1/realtime".to_string(), query: None }),
        headers: vec![],
    }
}

#[test]
fn openai_url() {
    assert_eq!(OpenAiBackend.provider_type(), ApiProvider::OpenAi);
    assert_eq!(
        OpenAiBackend.get_websocket_url("key").unwrap(),
        "wss://api.openai.com/v1/realtime"
    );
    for key in ["", "a b", "é\n", "?key=%"] {
        assert_eq!(
            OpenAiBackend.get_websocket_url(key).unwrap(),
            "wss://api.openai.com/v1/realtime"
        );
    }
}

#[test]
fn openai_request_carries_key_and_model() {
    let config = BackendConfig::for_model("gpt-4o-realtime".to_string());
    let ready = OpenAiBackend.configure_websocket_request("sk", request(), &config).unwrap();
    assert_eq!(
        ready,
        HandshakeRequest {
            scheme: Some("wss".to_string()),
            authority: Some("api.openai.com".to_string()),
            target: Some(Target {
                path: "/v1/realtime".to_string(),
                query: Some("model=gpt-4o-realtime".to_string()),
            }),
            headers: vec![
                ("authorization".to_string(), "Bearer sk".to_string()),
                ("openai-beta".to_string(), "realtime=v1".to_string()),
            ],
        }
    );
}

#[test]
fn openai_request_keeps_query_and_other_headers() {
    let config = BackendConfig::for_model("m".to_string());
    let mut start = request();
    start.target = Some(Target { path: "/p".to_string(), query: Some("a=1".to_string()) });
    start.headers = vec![
        ("authorization".to_string(), "old".to_string()),
        ("x".to_string(), "y".to_string()),
    ];
    let ready = OpenAiBackend.configure_websocket_request("k", start, &config).unwrap();
    assert_eq!(
        ready.target,
        Some(Target { path: "/p".to_string(), query: Some("a=1&model=m".to_string()) })
    );
    assert_eq!(ready.headers, vec![
        ("x".to_string(), "y".to_string()),
        ("authorization".to_string(), "Bearer k".to_string()),
        ("openai-beta".to_string(), "realtime=v1".to_string()),
    ]);
}

#[test]
fn openai_request_without_target_goes_to_the_root() {
    let config = BackendConfig::for_model("m".to_string());
    let mut start = request();
    start.scheme = None;
    start.authority = None;
    start.target = None;
    let ready = OpenAiBackend.configure_websocket_request("k", start, &config).unwrap();
    assert_eq!(
        ready.target,
        Some(Target { path: "/".to_string(), query: Some("model=m".to_string()) })
    );
}

#[test]
fn openai_request_errors() {
    let config = BackendConfig::for_model("m".to_string());
    assert_eq!(
        OpenAiBackend.configure_websocket_request("a\nb", request(), &config).unwrap_err(),
        GeminiError::ConfigurationError(
            "Invalid API key format: failed to parse header value".to_string()
        )
    );
    let spaced = BackendConfig::for_model("a b".to_string());
    assert_eq!(
        OpenAiBackend.configure_websocket_request("k", request(), &spaced).unwrap_err(),
        GeminiError::ConfigurationError(
            "Failed to build query string: invalid uri character".to_string()
        )
    );
    let mut no_authority = request();
    no_authority.authority = None;
    assert_eq!(
        OpenAiBackend.configure_websocket_request("k", no_authority, &config).unwrap_err(),
        GeminiError::ConfigurationError("Failed to reconstruct URI: authority missing".to_string())
    );
    let mut no_scheme = request();
    no_scheme.scheme = None;
    assert_eq!(
        OpenAiBackend.configure_websocket_request("k", no_scheme, &config).unwrap_err(),
        GeminiError::ConfigurationError("Failed to reconstruct URI: scheme missing".to_string())
    );
}

#[test]
fn header_values_may_be_tabs_and_beyond_ascii() {
    let config = BackendConfig::for_model("m".to_string());
    assert!(OpenAiBackend.configure_websocket_request("a\té", request(), &config).is_ok());
    assert!(OpenAiBackend.configure_websocket_request("a\u{7f}", request(), &config).is_err());
}

#[test]
fn headers_are_set_once() {
    let headers = vec![
        ("a".to_string(), "1".to_string()),
        ("b".to_string(), "2".to_string()),
        ("a".to_string(), "3".to_string()),
    ];
    assert_eq!(insert_header(headers, "a", "4".to_string()), vec![
        ("b".to_string(), "2".to_string()),
        ("a".to_string(), "4".to_string()),
    ]);
}

#[test]
fn openai_text_turn() {
    assert_eq!(
        OpenAiBackend.build_text_turn_message("hi \"you\"".to_string()).unwrap(),
        r#"{"type":"conversation.item.create","item":{"type":"message","role":"user","content":[{"type":"input_text","text":"hi \"you\""}]}}"#
    );
}

#[test]
fn openai_audio_chunk() {
    let mut config = BackendConfig::default();
    assert_eq!(
        OpenAiBackend.build_audio_chunk_message(&[1, -2], 16000, &config).unwrap(),
        r#"{"type":"input_audio_buffer.append","audio":"AQD+/w=="}"#
    );
    assert_eq!(
        OpenAiBackend.build_audio_chunk_message(&[], 16000, &config).unwrap_err(),
        GeminiError::ConfigurationError("Audio samples cannot be empty".to_string())
    );
    config.input_audio_format = Some("pcm16".to_string());
    assert!(OpenAiBackend.build_audio_chunk_message(&[1], 16000, &config).is_ok());
    config.input_audio_format = Some("g711_ulaw".to_string());
    assert_eq!(
        OpenAiBackend.build_audio_chunk_message(&[1], 16000, &config).unwrap_err(),
        GeminiError::UnsupportedOperation(
            "Audio encoding for format 'g711_ulaw' not yet implemented for OpenAI".to_string()
        )
    );
}

#[test]
fn openai_fixed_messages() {
    assert_eq!(
        OpenAiBackend.build_audio_stream_end_message().unwrap(),
        r#"{"type":"input_audio_buffer.commit"}"#
    );
    assert_eq!(
        OpenAiBackend.build_request_response_message().unwrap(),
        r#"{"type":"response.create","response":{}}"#
    );
}

#[test]
fn openai_tool_response() {
    let response = FunctionResponse {
        name: "f".to_string(),
        response: json(r#"{"sum":3}"#),
        id: Some("c1".to_string()),
    };
    assert_eq!(
        OpenAiBackend.build_tool_response_message(vec![response]).unwrap(),
        r#"{"type":"conversation.item.create","item":{"type":"function_call_output","call_id":"c1","output":"{\"sum\":3}"}}"#
    );
    let anonymous = FunctionResponse { id: None, ..FunctionResponse::default() };
    assert_eq!(
        OpenAiBackend.build_tool_response_message(vec![anonymous]).unwrap(),
        r#"{"type":"conversation.item.create","item":{"type":"function_call_output","call_id":null,"output":"null"}}"#
    );
    assert_eq!(
        OpenAiBackend.build_tool_response_message(vec![]).unwrap_err(),
        GeminiError::ConfigurationError("No tool responses provided for OpenAI".to_string())
    );
}

#[test]
fn openai_tool_output_reads_back() {
    let response = json(r#"{"sum":3,"low":-9223372036854775808,"list":[18446744073709551615]}"#);
    let first = FunctionResponse {
        name: "f".to_string(),
        response: response.clone(),
        id: Some("c1".to_string()),
    };
    let message = OpenAiBackend.build_tool_response_message(vec![first.clone()]).unwrap();
    assert_eq!(
        OpenAiBackend
            .build_tool_response_message(vec![first, FunctionResponse::default()])
            .unwrap(),
        message
    );
    let parsed = json(&message);
    let item = parsed.get("item").unwrap();
    assert_eq!(item.get_str("call_id"), Some("c1"));
    assert_eq!(json(item.get_str("output").unwrap()), response);
}

#[test]
fn openai_empty_session() {
    let config = BackendConfig::for_model("m".to_string());
    let expected = r#"{"type":"session.update","session":{}}"#;
    assert_eq!(OpenAiBackend.build_session_update_message(&config).unwrap(), expected);
    assert_eq!(OpenAiBackend.get_initial_messages(&config).unwrap(), vec![expected.to_string()]);
}

#[test]
fn openai_full_session() {
    let mut config = BackendConfig::for_model("m".to_string());
    config.system_instruction = Some(Content {
        parts: vec![
            Part { text: Some("Be brief.".to_string()), inline_data: None },
            Part { text: Some("ignored".to_string()), inline_data: None },
        ],
        role: Some(Role::System),
    });
    config.tools = vec![ToolDefinition {
        name: "f".to_string(),
        gemini_declaration: FunctionDeclaration::default(),
        openai_definition: json(r#"{"type":"function","name":"f"}"#),
    }];
    config.voice = Some("alloy".to_string());
    config.input_audio_format = Some("pcm16".to_string());
    config.output_audio_format = Some("pcm16".to_string());
    config.output_audio_transcription = Some(AudioTranscriptionConfig {});
    config.transcription_language = Some("en".to_string());
    config.transcription_prompt = Some("names".to_string());
    config.include_logprobs = true;
    config.generation_config = Some(GenerationConfig {
        response_modalities: None,
        temperature: Some(Temperature::Number(serde_json::Number::from_f64(0.5).unwrap())),
        speech_config: None,
    });
    assert_eq!(
        OpenAiBackend.build_session_update_message(&config).unwrap(),
        format!("{}{}{}{}{}",
            r#"{"type":"session.update","session":{"instructions":"Be brief.","#,
            r#""tools":[{"type":"function","name":"f"}],"tool_choice":"auto","voice":"alloy","#,
            r#""input_audio_format":"pcm16","output_audio_format":"pcm16","#,
            r#""input_audio_transcription":{"model":"gpt-4o-transcribe","language":"en","prompt":"names"},"#,
            r#""include":["item.input_audio_transcription.logprobs"],"temperature":0.5}}"#
        )
    );
}

#[test]
fn openai_transcription_model_alone_turns_it_on() {
    let mut config = BackendConfig::for_model("m".to_string());
    config.transcription_language = Some("en".to_string());
    assert_eq!(session_update_payload(&config), json(r#"{"type":"session.update","session":{}}"#));
    config.transcription_model = Some("whisper-1".to_string());
    assert_eq!(
        session_update_payload(&config),
        json(
            r#"{"type":"session.update","session":{"input_audio_transcription":{"model":"whisper-1","language":"en"}}}"#
        )
    );
}

#[test]
fn openai_temperature_that_is_not_finite_is_null() {
    let mut config = BackendConfig::for_model("m".to_string());
    config.generation_config = Some(GenerationConfig {
        temperature: Some(Temperature::NotFinite),
        ..GenerationConfig::default()
    });
    assert_eq!(
        session_update_payload(&config),
        json(r#"{"type":"session.update","session":{"temperature":null}}"#)
    );
}

#[test]
fn openai_setup_complete() {
    assert_eq!(parse(r#"{"type":"session.created"}"#), vec![UnifiedServerEvent::SetupComplete]);
    assert_eq!(parse(r#"{"type":"session.updated"}"#), vec![UnifiedServerEvent::SetupComplete]);
}

#[test]
fn openai_text_delta() {
    assert_eq!(parse(r#"{"type":"response.text.delta","delta":"He"}"#), vec![
        UnifiedServerEvent::ContentUpdate { text: Some("He".to_string()), audio: None, done: false }
    ]);
    assert_eq!(parse(r#"{"type":"response.text.delta","delta":""}"#), vec![]);
    assert_eq!(parse(r#"{"type":"response.text.delta"}"#), vec![]);
}

#[test]
fn openai_audio_delta() {
    assert_eq!(parse(r#"{"type":"response.audio.delta","delta":"AQD+/w=="}"#), vec![
        UnifiedServerEvent::ContentUpdate { text: None, audio: Some(vec![1, -2]), done: false }
    ]);
    assert_eq!(parse(r#"{"type":"response.audio.delta"}"#), vec![]);
    assert_eq!(parse(r#"{"type":"response.audio.delta","delta":"*","event_id":"e1"}"#), vec![
        UnifiedServerEvent::Error(ApiError {
            code: "audio_decode_error".to_string(),
            message:
                "Error during message deserialization: Base64 decode failed: Invalid symbol 42, offset 0."
                    .to_string(),
            event_id: Some("e1".to_string()),
        })
    ]);
}

#[test]
fn openai_audio_delta_in_another_format() {
    let frame = Frame::Text(r#"{"type":"response.audio.delta","delta":"AQD+/w=="}"#.to_string());
    let batch = OpenAiBackend
        .parse_server_message(frame, &Some("g711_alaw".to_string()))
        .unwrap();
    assert_eq!(batch.events, vec![UnifiedServerEvent::Error(ApiError {
        code: "audio_decode_error".to_string(),
        message: "Feature or operation not supported by the selected backend: \
                  Audio decoding for format 'g711_alaw' not yet implemented for OpenAI"
            .to_string(),
        event_id: None,
    })]);
    assert_eq!(
        OpenAiBackend::decode_openai_audio("AQD+/w==", &Some("pcm16".to_string())).unwrap(),
        vec![1, -2]
    );
    assert_eq!(
        interpret_audio(Ok(vec![7]), None),
        UnifiedServerEvent::ContentUpdate { text: None, audio: Some(vec![7]), done: false }
    );
}

#[test]
fn openai_transcription() {
    let kind = "conversation.item.input_audio_transcription";
    assert_eq!(parse(&format!(r#"{{"type":"{kind}.delta","delta":"a"}}"#)), vec![
        UnifiedServerEvent::TranscriptionUpdate { text: "a".to_string(), done: false }
    ]);
    assert_eq!(parse(&format!(r#"{{"type":"{kind}.delta"}}"#)), vec![]);
    assert_eq!(parse(&format!(r#"{{"type":"{kind}.completed","transcript":"all"}}"#)), vec![
        UnifiedServerEvent::TranscriptionUpdate { text: "all".to_string(), done: true }
    ]);
    assert_eq!(parse(&format!(r#"{{"type":"{kind}.completed"}}"#)), vec![
        UnifiedServerEvent::TranscriptionUpdate { text: String::new(), done: true }
    ]);
}

fn turn_end() -> Vec<UnifiedServerEvent> {
    vec![
        UnifiedServerEvent::ContentUpdate { text: None, audio: None, done: true },
        UnifiedServerEvent::ModelTurnComplete,
        UnifiedServerEvent::ModelGenerationComplete,
    ]
}

#[test]
fn openai_response_done() {
    assert_eq!(parse(r#"{"type":"response.done"}"#), turn_end());
    assert_eq!(parse(r#"{"type":"response.done","response":{"output":7}}"#), turn_end());
}

#[test]
fn openai_function_calls() {
    let event = json(
        r#"{"type":"response.done","response":{"output":[
            {"type":"message"},
            {"type":"function_call","name":"add","call_id":"c1","arguments":"{\"a\":1}"},
            {"type":"function_call","name":"bad","arguments":"{"},
            {"type":"function_call"}
        ]}}"#,
    );
    let batch = OpenAiBackend::interpret_event(&event, &None);
    let mut expected = vec![
        UnifiedServerEvent::ToolCall {
            id: Some("c1".to_string()),
            name: "add".to_string(),
            args: json(r#"{"a":1}"#),
        },
        UnifiedServerEvent::Error(ApiError {
            code: "tool_args_parse_error".to_string(),
            message: "Failed to parse args for bad: EOF while parsing an object at line 1 column 1"
                .to_string(),
            event_id: None,
        }),
        UnifiedServerEvent::ToolCall { id: None, name: String::new(), args: json("{}") },
    ];
    expected.append(&mut turn_end());
    assert_eq!(batch.events, expected);
    assert_eq!(batch.calls, vec![
        ToolRequest {
            id: Some("c1".to_string()),
            name: "add".to_string(),
            args: json(r#"{"a":1}"#),
        },
        ToolRequest { id: None, name: String::new(), args: json("{}") },
    ]);
    let (event, call) = interpret_call(None, "f".to_string(), Err("e".to_string()));
    assert!(matches!(event, UnifiedServerEvent::Error(_)));
    assert_eq!(call, None);
}

#[test]
fn openai_errors() {
    assert_eq!(
        parse(r#"{"type":"error","code":"c","message":"m","event_id":"e"}"#),
        vec![UnifiedServerEvent::Error(ApiError {
            code: "c".to_string(),
            message: "m".to_string(),
            event_id: Some("e".to_string()),
        })]
    );
    assert_eq!(parse(r#"{"type":"error"}"#), vec![UnifiedServerEvent::Error(ApiError {
        code: "unknown".to_string(),
        message: String::new(),
        event_id: None,
    })]);
}

#[test]
fn openai_usage() {
    let event = json(r#"{"type":"rate_limits.updated","response":{"usage":{"totalTokenCount":3}}}"#);
    let batch = OpenAiBackend::interpret_event(&event, &None);
    assert_eq!(batch.events, vec![]);
    assert_eq!(batch.usage, Some(json(r#"{"totalTokenCount":3}"#)));
    let metadata = UsageMetadata { total_token_count: Some(3), ..UsageMetadata::default() };
    assert_eq!(complete_usage(batch.clone(), Some(metadata.clone())), vec![
        UnifiedServerEvent::UsageMetadata(metadata)
    ]);
    assert_eq!(complete_usage(batch, None), vec![]);
    let without = OpenAiBackend::interpret_event(&json(r#"{"type":"rate_limits.updated"}"#), &None);
    assert_eq!(without.usage, None);
}

#[test]
fn openai_intermediate_events() {
    for kind in [
        "response.created",
        "input_audio_buffer.speech_started",
        "input_audio_buffer.speech_stopped",
        "input_audio_buffer.committed",
        "input_audio_buffer.cleared",
        "response.audio.done",
        "response.text.done",
        "response.content_part.added",
        "response.content_part.done",
        "response.output_item.added",
        "response.output_item.done",
        "conversation.item.created",
        "conversation.item.updated",
        "conversation.item.deleted",
    ] {
        assert_eq!(parse(&format!(r#"{{"type":"{kind}"}}"#)), vec![]);
    }
}

#[test]
fn openai_other_events() {
    assert_eq!(parse(r#"{"type":"brand.new","x":[]}"#), vec![
        UnifiedServerEvent::ProviderSpecific(json(r#"{"type":"brand.new","x":[]}"#))
    ]);
    assert_eq!(parse(r#"{"event_id":"e"}"#), vec![]);
    assert_eq!(parse(r#"{"type":7}"#), vec![]);
    assert_eq!(parse("[]"), vec![]);
}

#[test]
fn openai_frames() {
    let backend = OpenAiBackend;
    let read = |frame| backend.parse_server_message(frame, &None);
    assert_eq!(
        read(Frame::Binary(br#"{"type":"session.created"}"#.to_vec())).unwrap().events,
        vec![UnifiedServerEvent::SetupComplete]
    );
    assert_eq!(read(Frame::Ping).unwrap().events, vec![]);
    assert_eq!(read(Frame::Pong).unwrap().events, vec![]);
    assert_eq!(read(Frame::Raw).unwrap().events, vec![]);
    assert_eq!(read(Frame::Close).unwrap().events, vec![UnifiedServerEvent::Close]);
    assert_eq!(
        read(Frame::Text("{".to_string())).unwrap_err(),
        GeminiError::DeserializationError(
            "EOF while parsing an object at line 1 column 1".to_string()
        )
    );
    assert_eq!(
        read(Frame::Binary(vec![0xff])).unwrap_err(),
        GeminiError::DeserializationError(
            "Invalid UTF-8 in binary message: invalid utf-8 sequence of 1 bytes from index 0"
                .to_string()
        )
    );
    assert!(OpenAiBackend::interpret_message(Err("e".to_string()), &None).is_err());
}

#[test]
fn openai_reads_bytes_as_text() {
    for text in [
        r#"{"type":"response.text.delta","delta":"é"}"#,
        r#"{"type":"response.function_call_arguments.done","call_id":"1","name":"f","arguments":"{}"}"#,
        "{",
        "",
    ] {
        assert_eq!(
            OpenAiBackend.parse_server_message(Frame::Binary(text.as_bytes().to_vec()), &None),
            OpenAiBackend.parse_server_message(Frame::Text(text.to_string()), &None)
        );
    }
}

#[test]
fn openai_messages_parse_to_their_payloads() {
    let config = BackendConfig::for_model("m".to_string());
    let messages = OpenAiBackend.get_initial_messages(&config).unwrap();
    assert_eq!(json(&messages[0]), session_update_payload(&config));
    let call = ToolRequest {
        id: Some("c".to_string()),
        name: "f".to_string(),
        args: JsonValue::Null,
    };
    let answer = json(r#"{"n":[1,-2],"s":"\"é"}"#);
    let messages = OpenAiBackend.tool_replies(call, ToolOutcome::Returned(answer.clone())).unwrap();
    let output = json(&messages[0]).get("item").unwrap().get("output").unwrap().as_str().map(json);
    assert_eq!(output, Some(answer));
    assert_eq!(json(&messages[1]), json(r#"{"type":"response.create","response":{}}"#));
}

#[test]
fn openai_tool_replies() {
    let call = |name: &str| ToolRequest {
        id: Some("c1".to_string()),
        name: name.to_string(),
        args: JsonValue::Null,
    };
    let next = r#"{"type":"response.create","response":{}}"#.to_string();
    assert_eq!(
        OpenAiBackend.tool_replies(call("f"), ToolOutcome::Returned(json("[1]"))).unwrap(),
        vec![
            r#"{"type":"conversation.item.create","item":{"type":"function_call_output","call_id":"c1","output":"[1]"}}"#
                .to_string(),
            next.clone(),
        ]
    );
    assert_eq!(
        OpenAiBackend.tool_replies(call("f"), ToolOutcome::Failed("no".to_string())).unwrap(),
        vec![
            r#"{"type":"conversation.item.create","item":{"type":"function_call_output","call_id":"c1","output":"{\"error\":\"no\"}"}}"#
                .to_string(),
            next,
        ]
    );
    assert_eq!(
        OpenAiBackend.tool_replies(call("f"), ToolOutcome::NotRegistered).unwrap(),
        Vec::<String>::new()
    );
}

#[test]
fn openai_events_never_close() {
    for text in [
        r#"{"type":"session.created"}"#,
        r#"{"type":"error","code":"closed"}"#,
        r#"{"type":"close"}"#,
        r#"{"type":"response.done","response":{"output":[{"type":"function_call"}]}}"#,
        "{}",
    ] {
        assert!(!parse(text).contains(&UnifiedServerEvent::Close));
    }
}

#[test]
fn openai_calls_are_announced() {
    let event = json(
        r#"{"type":"response.done","response":{"output":[
            {"type":"function_call","name":"a","call_id":"1"},
            {"type":"function_call","name":"b","arguments":"x"},
            {"type":"function_call","name":"c","arguments":"[]"}
        ]}}"#,
    );
    let batch = OpenAiBackend::interpret_event(&event, &None);
    let announced: Vec<ToolRequest> = batch
        .events
        .into_iter()
        .filter_map(|event| match event {
            UnifiedServerEvent::ToolCall { id, name, args } => Some(ToolRequest { id, name, args }),
            _ => None,
        })
        .collect();
    assert_eq!(announced, batch.calls);
    assert_eq!(announced.len(), 2);
}
