use gemini_live_api::audio::{can_encode, decode_audio, decode_pcm16, decoded_audio, encode_audio, encode_pcm16};
use gemini_live_api::error::GeminiError;
use gemini_live_api::json::{lift, lower, JsonObject, JsonValue};
use gemini_live_api::text::{join, join3, decimal, same_text, starts_with};

#[test]
fn json_text_round_trip() {
    let text = r#"{"b":[true,null,"x\né"],"a":{"n":-12,"f":0.5}}"#;
    let value = JsonValue::parse(text).unwrap();
    assert_eq!(value.to_text().unwrap(), "{\"b\":[true,null,\"x\\né\"],\"a\":{\"n\":-12,\"f\":0.5}}");
    assert_eq!(JsonValue::parse(&value.to_text().unwrap()).unwrap(), value);
}

#[test]
fn json_parse_error_text() {
    assert_eq!(
        JsonValue::parse("{").unwrap_err(),
        "EOF while parsing an object at line 1 column 1"
    );
}

#[test]
fn json_objects_replace_in_place() {
    let object = JsonObject::new().with_text("a", "1").with_text("b", "2").with_text("a", "3");
    assert_eq!(object.get("a"), Some(&JsonValue::string("3")));
    assert_eq!(object.get("b"), Some(&JsonValue::string("2")));
    assert_eq!(object.get("c"), None);
    assert_eq!(JsonValue::Object(object).to_text().unwrap(), r#"{"a":"3","b":"2"}"#);
}

#[test]
fn json_access() {
    let value = JsonValue::parse(r#"{"type":"x","n":1,"list":[1,"two"]}"#).unwrap();
    assert_eq!(value.get_str("type"), Some("x"));
    assert_eq!(value.get_str("n"), None);
    assert_eq!(value.get_str("absent"), None);
    assert_eq!(value.get("list").unwrap().as_array().unwrap().len(), 2);
    assert_eq!(value.get("type").unwrap().get("x"), None);
    assert_eq!(value.as_str(), None);
    assert_eq!(value.clone(), value);
    assert_eq!(JsonValue::default(), JsonValue::Null);
}

#[test]
fn json_debug_is_that_of_serde_json() {
    let value = JsonValue::parse(r#"["a",null]"#).unwrap();
    assert_eq!(value.debug_text(), r#"Array [String("a"), Null]"#);
}

#[test]
fn json_lifts_and_lowers() {
    let mut map = serde_json::Map::new();
    map.insert("k".to_string(), serde_json::Value::Bool(true));
    let outside = serde_json::Value::Object(map);
    let inside = lift(outside.clone());
    assert_eq!(inside.to_text().unwrap(), r#"{"k":true}"#);
    assert_eq!(lower(&inside), outside);
}

#[test]
fn deep_nesting_is_printed_but_not_parsed() {
    let shallow = format!("{}{}", "[".repeat(127), "]".repeat(127));
    let deep = format!("{}{}", "[".repeat(128), "]".repeat(128));
    assert_eq!(JsonValue::parse(&shallow).unwrap().to_text().unwrap(), shallow);
    assert!(JsonValue::parse(&deep).is_err());
}

#[test]
fn integers_read_back() {
    let text = "[0,-1,9223372036854775807,-9223372036854775808,18446744073709551615]";
    let value = JsonValue::parse(text).unwrap();
    assert_eq!(value.to_text().unwrap(), text);
    assert_eq!(JsonValue::parse(&value.to_text().unwrap()).unwrap(), value);
    for n in [0, 7, -7, i64::MIN, i64::MAX] {
        let number = JsonValue::integer(n);
        assert_eq!(number.to_text().unwrap(), n.to_string());
        assert_eq!(JsonValue::parse(&n.to_string()).unwrap(), number);
    }
}

#[test]
fn a_number_reads_back_inside_a_value_as_alone() {
    for text in ["0.5", "-2.25", "1e100", "0.1", "1.7976931348623157e308"] {
        let alone = JsonValue::parse(text).unwrap();
        assert_eq!(JsonValue::parse(&alone.to_text().unwrap()).unwrap(), alone);
        let inside = JsonValue::parse(&format!("{{\"a\":[{},{}]}}", text, text)).unwrap();
        assert_eq!(JsonValue::parse(&inside.to_text().unwrap()).unwrap(), inside);
    }
}

#[test]
fn samples_are_little_endian() {
    assert_eq!(encode_pcm16(&[1, -2, 256, i16::MIN, i16::MAX]), vec![
        1, 0, 254, 255, 0, 1, 0, 128, 255, 127
    ]);
    assert_eq!(decode_pcm16(&[1, 0, 254, 255, 0, 1, 0, 128, 255, 127]), vec![
        1, -2, 256, i16::MIN, i16::MAX
    ]);
}

#[test]
fn every_sample_survives() {
    let samples: Vec<i16> = (i16::MIN..=i16::MAX).collect();
    assert_eq!(decode_pcm16(&encode_pcm16(&samples)), samples);
    for s in [0i16, 1, -1, 255, 256, -256, i16::MIN, i16::MAX] {
        assert_eq!(encode_pcm16(&[s]), s.to_le_bytes().to_vec());
    }
}

#[test]
fn an_odd_byte_is_dropped() {
    assert_eq!(decode_pcm16(&[1, 0, 7]), vec![1]);
    assert_eq!(encode_pcm16(&decode_pcm16(&[1, 2, 3, 4, 5])), vec![1, 2, 3, 4]);
    assert_eq!(decode_pcm16(&[9]), Vec::<i16>::new());
}

#[test]
fn encodable_counts() {
    assert!(can_encode(0));
    assert!(can_encode(1 << 20));
    assert!(!can_encode(usize::MAX));
}

#[test]
fn audio_in_base64() {
    assert_eq!(encode_audio(&[1, -2]), "AQD+/w==");
    assert_eq!(decode_audio("AQD+/w==").unwrap(), vec![1, -2]);
    let samples = vec![0i16, 5, -300, 32767];
    assert_eq!(decode_audio(&encode_audio(&samples)).unwrap(), samples);
}

#[test]
fn audio_that_does_not_decode() {
    assert_eq!(
        decode_audio("AQD+/w=").unwrap_err(),
        GeminiError::DeserializationError("Base64 decode failed: Invalid padding".to_string())
    );
    assert_eq!(
        decoded_audio(Err("why".to_string())).unwrap_err().message(),
        "Error during message deserialization: Base64 decode failed: why"
    );
    assert_eq!(decoded_audio(Ok(vec![1, 0, 2])).unwrap(), vec![1]);
}

#[test]
fn texts() {
    assert!(same_text("ab", "ab"));
    assert!(!same_text("ab", "aB"));
    assert_eq!(join("a", "b"), "ab");
    assert_eq!(join3("a", "", "c"), "ac");
    assert!(starts_with("audio/pcm", "audio/"));
    assert!(!starts_with("aud", "audio/"));
    assert_eq!(decimal(0), "0");
    assert_eq!(decimal(16000), "16000");
    assert_eq!(decimal(u32::MAX), "4294967295");
}

#[test]
fn error_messages() {
    let s = || "x".to_string();
    let cases = vec![
        (GeminiError::WebSocketError(s()), "WebSocket connection error: x"),
        (GeminiError::SerdeError(s()), "JSON serialization/deserialization error: x"),
        (GeminiError::IoError(s()), "I/O error: x"),
        (GeminiError::ApiError(s()), "API communication error: x"),
        (GeminiError::ConfigurationError(s()), "Configuration error: x"),
        (GeminiError::NotReady, "Connection not established or setup not complete"),
        (GeminiError::UnexpectedMessage, "Message from server was not in expected format"),
        (GeminiError::ConnectionClosed, "Attempted to send message on a closed connection"),
        (GeminiError::FunctionHandlerNotFound(s()), "Function call handler not found for: x"),
        (GeminiError::SendError, "Error sending message to internal task: Channel closed"),
        (GeminiError::MissingApiKey, "Missing API key"),
        (
            GeminiError::UnsupportedOperation(s()),
            "Feature or operation not supported by the selected backend: x",
        ),
        (GeminiError::DeserializationError(s()), "Error during message deserialization: x"),
        (GeminiError::HttpError(s()), "HTTP error during connection setup: x"),
        (GeminiError::UrlError(s()), "URL parsing error: x"),
    ];
    for (error, message) in cases {
        assert_eq!(error.message(), message);
    }
}
