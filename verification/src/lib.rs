//! A client library for live (bidirectional, audio and text) model sessions over
//! WebSocket, speaking the wire protocols of Gemini Live and of the OpenAI Realtime
//! API.
//!
//! The library holds the protocols' rules and the decisions of a session; sockets,
//! timers and tasks are the application's.
pub mod audio;
pub mod client;
pub mod error;
pub mod json;
pub mod text;
pub mod tools;
pub mod types;

pub use client::backend::ApiProvider;
pub use client::builder::AiClientBuilder;
pub use client::handle::AiLiveClient;
pub use client::handlers::{ServerContentContext, UsageMetadataContext};
pub use error::GeminiError;
pub use tools::tool_function;
pub use types::{
    Content, FunctionDeclaration, FunctionResponse, GenerationConfig, Part, RealtimeInputConfig,
    ResponseModality, Role, Schema, SpeechConfig, SpeechLanguageCode, Tool, UsageMetadata,
};
