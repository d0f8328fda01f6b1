use gemini_live_api::client::backend::{
    deliver, respond, ApiError, ApiProvider, BackendConfig, Delivery, Frame, HandshakeRequest,
    LiveApiBackend, ToolDefinition, ToolOutcome, ToolRequest, UnifiedServerEvent,
};
use gemini_live_api::client::gemini_backend::{setup_payload, GeminiBackend, GeminiFrame};
use gemini_live_api::error::GeminiError;
use gemini_live_api::json::JsonValue;
use gemini_live_api::types::{
    ActivityHandling, AudioTranscriptionConfig, AutomaticActivityDetection,
    BidiGenerateContentServerContent, BidiGenerateContentToolCall,
    BidiGenerateContentTranscription, Blob, Content, EndSensitivity, FunctionCall,
    FunctionDeclaration, FunctionResponse, GenerationConfig, Part, RealtimeInputConfig,
    ResponseModality, Role, Schema, ServerMessage, SpeechConfig, StartSensitivity, Temperature,
    Tool, TurnCoverage, UsageMetadata,
};

fn json(text: &str) -> JsonValue {
    JsonValue::parse(text).unwrap()
}

fn text_part(text: &str) -> Part {
    Part { text: Some(text.to_string()), inline_data: None }
}

fn audio_part(mime_type: &str, data: &str) -> Part {
    Part {
        text: None,
        inline_data: Some(Blob { mime_type: mime_type.to_string(), data: data.to_string() }),
    }
}

fn turn(parts: Vec<Part>) -> ServerMessage {
    ServerMessage {
        server_content: Some(BidiGenerateContentServerContent {
            model_turn: Some(Content { parts, role: Some(Role::Model) }),
            ..BidiGenerateContentServerContent::default()
        }),
        ..ServerMessage::default()
    }
}

fn events(message: ServerMessage) -> Vec<UnifiedServerEvent> {
    GeminiBackend::interpret(message).events
}

fn update(text: Option<&str>, audio: Option<Vec<i16>>) -> UnifiedServerEvent {
    UnifiedServerEvent::ContentUpdate { text: text.map(|t| t.to_string()), audio, done: false }
}

#[test]
fn gemini_url_carries_the_key() {
    assert_eq!(GeminiBackend.provider_type(), ApiProvider::Gemini);
    assert_eq!(
        GeminiBackend.get_websocket_url("AIza-k_1").unwrap(),
        "wss://generativelanguage.googleapis.com/ws/google.ai.generativelanguage.v1beta.GenerativeService.BidiGenerateContent?key=AIza-k_1"
    );
    assert!(GeminiBackend.get_websocket_url("a b").unwrap().ends_with("?key=a%20b"));
}

#[test]
fn gemini_leaves_the_request_alone() {
    let request = HandshakeRequest {
        scheme: None,
        authority: None,
        target: None,
        headers: vec![("a".to_string(), "b".to_string())],
    };
    let config = BackendConfig::default();
    assert_eq!(
        GeminiBackend.configure_websocket_request("k", request.clone(), &config).unwrap(),
        request
    );
}

#[test]
fn gemini_small_setup() {
    let config = BackendConfig::for_model("models/m".to_string());
    assert_eq!(GeminiBackend.get_initial_messages(&config).unwrap(), vec![
        r#"{"setup":{"model":"models/m"}}"#.to_string()
    ]);
}

#[test]
fn gemini_full_setup() {
    let mut config = BackendConfig::for_model("m".to_string());
    config.generation_config = Some(GenerationConfig {
        response_modalities: Some(vec![ResponseModality::Audio, ResponseModality::Text]),
        temperature: Some(Temperature::Number(serde_json::Number::from_f64(0.5).unwrap())),
        speech_config: Some(SpeechConfig {}),
    });
    config.system_instruction =
        Some(Content { parts: vec![text_part("hi")], role: Some(Role::System) });
    config.tools = vec![ToolDefinition {
        name: "f".to_string(),
        gemini_declaration: FunctionDeclaration {
            name: "f".to_string(),
            description: "d".to_string(),
            parameters: Some(Schema {
                schema_type: "OBJECT".to_string(),
                properties: Some(vec![("a".to_string(), Schema {
                    schema_type: "STRING".to_string(),
                    description: Some("an a".to_string()),
                    ..Schema::default()
                })]),
                required: Some(vec!["a".to_string()]),
                description: None,
            }),
        },
        openai_definition: JsonValue::Null,
    }];
    config.realtime_input_config = Some(RealtimeInputConfig {
        automatic_activity_detection: Some(AutomaticActivityDetection {
            disabled: Some(false),
            start_of_speech_sensitivity: Some(StartSensitivity::Named("S".to_string())),
            prefix_padding_ms: Some(20),
            end_of_speech_sensitivity: Some(EndSensitivity::Named("E".to_string())),
            silence_duration_ms: Some(-1),
        }),
        activity_handling: Some(ActivityHandling::Named("NO_INTERRUPTION".to_string())),
        turn_coverage: Some(TurnCoverage::Named("T".to_string())),
    });
    config.output_audio_transcription = Some(AudioTranscriptionConfig {});
    assert_eq!(
        GeminiBackend.get_initial_messages(&config).unwrap()[0],
        format!(
            "{}{}{}{}{}{}{}",
            r#"{"setup":{"model":"m","generationConfig":{"responseModalities":["AUDIO","TEXT"],"temperature":0.5,"speechConfig":{}},"#,
            r#""systemInstruction":{"parts":[{"text":"hi"}],"role":"system"},"#,
            r#""tools":[{"functionDeclarations":[{"name":"f","description":"d","parameters":{"type":"OBJECT","#,
            r#""properties":{"a":{"type":"STRING","description":"an a"}},"required":["a"]}}]}],"#,
            r#""realtimeInputConfig":{"automaticActivityDetection":{"disabled":false,"startOfSpeechSensitivity":"S","prefixPaddingMs":20,"#,
            r#""endOfSpeechSensitivity":"E","silenceDurationMs":-1},"activityHandling":"NO_INTERRUPTION","turnCoverage":"T"},"#,
            r#""outputAudioTranscription":{}}}"#
        )
    );
    assert_eq!(setup_payload(&config).get("setup").unwrap().get_str("model"), Some("m"));
}

#[test]
fn gemini_messages() {
    let config = BackendConfig::default();
    assert_eq!(
        GeminiBackend.build_text_turn_message("hi".to_string()).unwrap(),
        r#"{"clientContent":{"turns":[{"parts":[{"text":"hi"}],"role":"user"}],"turnComplete":true}}"#
    );
    assert_eq!(
        GeminiBackend.build_audio_chunk_message(&[1, -2], 16000, &config).unwrap(),
        r#"{"realtimeInput":{"audio":{"mimeType":"audio/pcm;rate=16000","data":"AQD+/w=="}}}"#
    );
    assert_eq!(
        GeminiBackend.build_audio_stream_end_message().unwrap(),
        r#"{"realtimeInput":{"audioStreamEnd":true}}"#
    );
    assert_eq!(
        GeminiBackend
            .build_tool_response_message(vec![
                FunctionResponse {
                    name: "f".to_string(),
                    response: json(r#"{"r":1}"#),
                    id: Some("i".to_string()),
                },
                FunctionResponse { name: "g".to_string(), response: json("null"), id: None },
            ])
            .unwrap(),
        r#"{"toolResponse":{"functionResponses":[{"name":"f","response":{"r":1},"id":"i"},{"name":"g","response":null}]}}"#
    );
}

#[test]
fn gemini_refusals() {
    let config = BackendConfig::default();
    assert_eq!(
        GeminiBackend.build_session_update_message(&config).unwrap_err(),
        GeminiError::UnsupportedOperation(
            "Session update message not applicable for Gemini".to_string()
        )
    );
    assert_eq!(
        GeminiBackend.build_request_response_message().unwrap_err(),
        GeminiError::UnsupportedOperation(
            "Explicit response request not applicable for Gemini".to_string()
        )
    );
    assert_eq!(
        GeminiBackend.build_audio_chunk_message(&[], 1, &config).unwrap_err(),
        GeminiError::ConfigurationError("Audio samples cannot be empty".to_string())
    );
}

#[test]
fn wire_forms() {
    assert_eq!(
        Tool { function_declarations: vec![FunctionDeclaration::default()] }.to_json(),
        json(r#"{"functionDeclarations":[{"name":"","description":""}]}"#)
    );
    assert_eq!(
        audio_part("m", "d").to_json(),
        json(r#"{"inlineData":{"mimeType":"m","data":"d"}}"#)
    );
    assert_eq!(Content::default().to_json(), json(r#"{"parts":[]}"#));
    assert_eq!(Role::default(), Role::User);
    let nested = Schema {
        schema_type: "OBJECT".to_string(),
        properties: Some(vec![("o".to_string(), Schema {
            schema_type: "OBJECT".to_string(),
            properties: Some(vec![]),
            ..Schema::default()
        })]),
        ..Schema::default()
    };
    assert_eq!(nested.clone(), nested);
    assert_eq!(
        nested.to_json(),
        json(r#"{"type":"OBJECT","properties":{"o":{"type":"OBJECT","properties":{}}}}"#)
    );
}

#[test]
fn gemini_texts_are_joined_and_trimmed() {
    assert_eq!(events(turn(vec![text_part(" a"), text_part("b\n")])), vec![update(
        Some("a b"),
        None
    )]);
    assert_eq!(events(turn(vec![text_part("\u{3000}one\u{a0}")])), vec![update(Some("one"), None)]);
    assert_eq!(events(turn(vec![text_part("  ")])), vec![]);
    assert_eq!(events(turn(vec![])), vec![]);
}

#[test]
fn gemini_audio_is_joined_in_order() {
    assert_eq!(
        events(turn(vec![
            audio_part("audio/pcm", "AQA="),
            text_part("t"),
            audio_part("audio/pcm;rate=24000", "/v8="),
        ])),
        vec![update(Some("t"), Some(vec![1, -2]))]
    );
    assert_eq!(events(turn(vec![audio_part("image/png", "AQA=")])), vec![]);
    assert_eq!(events(turn(vec![audio_part("audio/pcm", "")])), vec![update(None, Some(vec![]))]);
    assert_eq!(
        GeminiBackend::decode_gemini_audio(&Blob {
            mime_type: String::new(),
            data: "AQAA".to_string()
        })
        .unwrap(),
        vec![1]
    );
}

#[test]
fn gemini_audio_errors_come_first() {
    assert_eq!(
        events(turn(vec![audio_part("audio/pcm", "AQA="), audio_part("audio/pcm", "A")])),
        vec![
            UnifiedServerEvent::Error(ApiError {
                code: "audio_decode_error".to_string(),
                message: "Error during message deserialization: Base64 decode failed: Invalid input length: 1"
                    .to_string(),
                event_id: None,
            }),
            update(None, Some(vec![1])),
        ]
    );
}

#[test]
fn gemini_order_of_events() {
    let metadata = UsageMetadata { total_token_count: Some(9), ..UsageMetadata::default() };
    let message = ServerMessage {
        usage_metadata: Some(metadata.clone()),
        setup_complete: true,
        server_content: Some(BidiGenerateContentServerContent {
            generation_complete: true,
            turn_complete: true,
            interrupted: true,
            grounding_metadata: None,
            output_transcription: Some(BidiGenerateContentTranscription {
                text: "said".to_string(),
            }),
            model_turn: Some(Content { parts: vec![text_part("x")], role: None }),
        }),
        tool_call: Some(BidiGenerateContentToolCall {
            function_calls: vec![
                FunctionCall {
                    name: "f".to_string(),
                    args: Some(json("[1]")),
                    id: Some("i".to_string()),
                },
                FunctionCall { name: "g".to_string(), args: None, id: None },
            ],
        }),
        go_away: true,
    };
    let batch = GeminiBackend.parse_server_message(GeminiFrame::Message(Ok(message))).unwrap();
    assert_eq!(batch.events, vec![
        UnifiedServerEvent::SetupComplete,
        update(Some("x"), None),
        UnifiedServerEvent::TranscriptionUpdate { text: "said".to_string(), done: true },
        UnifiedServerEvent::ModelTurnComplete,
        UnifiedServerEvent::ModelGenerationComplete,
        UnifiedServerEvent::ToolCall {
            id: Some("i".to_string()),
            name: "f".to_string(),
            args: json("[1]"),
        },
        UnifiedServerEvent::ToolCall { id: None, name: "g".to_string(), args: JsonValue::Null },
        UnifiedServerEvent::UsageMetadata(metadata),
        UnifiedServerEvent::Close,
    ]);
    assert_eq!(batch.calls, vec![
        ToolRequest { id: Some("i".to_string()), name: "f".to_string(), args: json("[1]") },
        ToolRequest { id: None, name: "g".to_string(), args: JsonValue::Null },
    ]);
    assert_eq!(batch.usage, None);
}

#[test]
fn gemini_empty_message_and_frames() {
    assert_eq!(events(ServerMessage::default()), vec![]);
    assert_eq!(
        GeminiBackend.parse_server_message(GeminiFrame::Nothing).unwrap().events,
        vec![]
    );
    assert_eq!(GeminiBackend.parse_server_message(GeminiFrame::Close).unwrap().events, vec![
        UnifiedServerEvent::Close
    ]);
    assert_eq!(
        GeminiBackend
            .parse_server_message(GeminiFrame::Message(Err("bad".to_string())))
            .unwrap_err(),
        GeminiError::DeserializationError("bad".to_string())
    );
}

#[test]
fn deliveries() {
    assert_eq!(deliver(Frame::Text("t".to_string())), Ok(Delivery::Message("t".to_string())));
    assert_eq!(
        deliver(Frame::Binary("é".as_bytes().to_vec())),
        Ok(Delivery::Message("é".to_string()))
    );
    assert_eq!(deliver(Frame::Ping), Ok(Delivery::Nothing));
    assert_eq!(deliver(Frame::Close), Ok(Delivery::Close));
    assert!(deliver(Frame::Binary(vec![0xc3])).is_err());
    for text in ["", "{\"setupComplete\":{}}", "é\u{1f600}\0"] {
        assert_eq!(
            deliver(Frame::Binary(text.as_bytes().to_vec())),
            deliver(Frame::Text(text.to_string()))
        );
    }
}

#[test]
fn gemini_answers_in_one_message() {
    let call = |name: &str, id: Option<&str>| ToolRequest {
        id: id.map(|i| i.to_string()),
        name: name.to_string(),
        args: JsonValue::Null,
    };
    assert_eq!(GeminiBackend.tool_reply(vec![]).unwrap(), None);
    assert_eq!(
        GeminiBackend
            .tool_reply(vec![
                (call("f", Some("1")), ToolOutcome::Returned(json("true"))),
                (call("g", None), ToolOutcome::Failed("why".to_string())),
                (call("h", Some("3")), ToolOutcome::NotRegistered),
            ])
            .unwrap(),
        Some(format!(
            "{}{}{}",
            r#"{"toolResponse":{"functionResponses":[{"name":"f","response":true,"id":"1"},"#,
            r#"{"name":"g","response":{"error":"why"}},"#,
            r#"{"name":"h","response":{"error":"Function not implemented by client."},"id":"3"}]}}"#
        ))
    );
    let answer = json(r#"{"n":[1,-2],"s":"\"é"}"#);
    let reply = GeminiBackend
        .tool_reply(vec![(call("f", None), ToolOutcome::Returned(answer.clone()))])
        .unwrap()
        .unwrap();
    assert_eq!(
        json(&reply),
        json(&format!(
            r#"{{"toolResponse":{{"functionResponses":[{{"name":"f","response":{}}}]}}}}"#,
            answer.to_text().unwrap()
        ))
    );
    let response = respond(call("f", Some("1")), ToolOutcome::Failed("e".to_string()));
    assert_eq!(response.response, json(r#"{"error":"e"}"#));
}
