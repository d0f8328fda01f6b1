//! The client: its backends, its builder, the handle that the application holds,
//! and the decisions of the connection.
pub mod backend;
pub mod builder;
pub mod connection;
pub mod gemini_backend;
pub mod handle;
pub mod handlers;
pub mod openai_backend;
pub mod request;
