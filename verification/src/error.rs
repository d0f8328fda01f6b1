//! What can go wrong.
use crate::text::join;
use vstd::prelude::*;

verus! {

/// An error of this library.
#[derive(Debug, Clone, PartialEq)]
pub enum GeminiError {
    /// The WebSocket connection failed; the display text of its error.
    WebSocketError(String),
    /// JSON could not be written or read; the display text of the error.
    SerdeError(String),
    /// Input or output failed; the display text of the error.
    IoError(String),
    /// The exchange with the service failed.
    ApiError(String),
    /// The session is not set up as it has to be.
    ConfigurationError(String),
    /// There is no connection, or its setup is not complete.
    NotReady,
    /// A server message was not in the expected format.
    UnexpectedMessage,
    /// The connection is closed.
    ConnectionClosed,
    /// No handler is registered for a function.
    FunctionHandlerNotFound(String),
    /// The connection task no longer takes messages.
    SendError,
    /// There is no API key.
    MissingApiKey,
    /// The backend has no such operation.
    UnsupportedOperation(String),
    /// A message could not be decoded.
    DeserializationError(String),
    /// The handshake request could not be formed; the display text of the error.
    HttpError(String),
    /// A URL could not be parsed; the display text of the error.
    UrlError(String),
}

/// An error as mathematics: what a [`GeminiError`] stands for.
pub enum Failure {
    WebSocketError(Seq<char>),
    SerdeError(Seq<char>),
    IoError(Seq<char>),
    ApiError(Seq<char>),
    ConfigurationError(Seq<char>),
    NotReady,
    UnexpectedMessage,
    ConnectionClosed,
    FunctionHandlerNotFound(Seq<char>),
    SendError,
    MissingApiKey,
    UnsupportedOperation(Seq<char>),
    DeserializationError(Seq<char>),
    HttpError(Seq<char>),
    UrlError(Seq<char>),
}

impl View for GeminiError {
    type V = Failure;

    open spec fn view(&self) -> Failure {
        match self {
            GeminiError::WebSocketError(s) => Failure::WebSocketError(s@),
            GeminiError::SerdeError(s) => Failure::SerdeError(s@),
            GeminiError::IoError(s) => Failure::IoError(s@),
            GeminiError::ApiError(s) => Failure::ApiError(s@),
            GeminiError::ConfigurationError(s) => Failure::ConfigurationError(s@),
            GeminiError::NotReady => Failure::NotReady,
            GeminiError::UnexpectedMessage => Failure::UnexpectedMessage,
            GeminiError::ConnectionClosed => Failure::ConnectionClosed,
            GeminiError::FunctionHandlerNotFound(s) => Failure::FunctionHandlerNotFound(s@),
            GeminiError::SendError => Failure::SendError,
            GeminiError::MissingApiKey => Failure::MissingApiKey,
            GeminiError::UnsupportedOperation(s) => Failure::UnsupportedOperation(s@),
            GeminiError::DeserializationError(s) => Failure::DeserializationError(s@),
            GeminiError::HttpError(s) => Failure::HttpError(s@),
            GeminiError::UrlError(s) => Failure::UrlError(s@),
        }
    }
}

impl Failure {
    /// The sentence that describes the error.
    pub open spec fn text(self) -> Seq<char> {
        match self {
            Failure::WebSocketError(s) => "WebSocket connection error: "@ + s,
            Failure::SerdeError(s) => "JSON serialization/deserialization error: "@ + s,
            Failure::IoError(s) => "I/O error: "@ + s,
            Failure::ApiError(s) => "API communication error: "@ + s,
            Failure::ConfigurationError(s) => "Configuration error: "@ + s,
            Failure::NotReady => "Connection not established or setup not complete"@,
            Failure::UnexpectedMessage => "Message from server was not in expected format"@,
            Failure::ConnectionClosed => "Attempted to send message on a closed connection"@,
            Failure::FunctionHandlerNotFound(s) => "Function call handler not found for: "@ + s,
            Failure::SendError => "Error sending message to internal task: Channel closed"@,
            Failure::MissingApiKey => "Missing API key"@,
            Failure::UnsupportedOperation(s) => "Feature or operation not supported by the selected backend: "@ + s,
            Failure::DeserializationError(s) => "Error during message deserialization: "@ + s,
            Failure::HttpError(s) => "HTTP error during connection setup: "@ + s,
            Failure::UrlError(s) => "URL parsing error: "@ + s,
        }
    }
}

impl GeminiError {
    /// The sentence that describes the error.
    pub fn message(&self) -> (r: String)
        ensures
            r@ == self@.text(),
    {
        match self {
            GeminiError::WebSocketError(s) => join("WebSocket connection error: ", s.as_str()),
            GeminiError::SerdeError(s) => join("JSON serialization/deserialization error: ", s.as_str()),
            GeminiError::IoError(s) => join("I/O error: ", s.as_str()),
            GeminiError::ApiError(s) => join("API communication error: ", s.as_str()),
            GeminiError::ConfigurationError(s) => join("Configuration error: ", s.as_str()),
            GeminiError::NotReady => "Connection not established or setup not complete".to_owned(),
            GeminiError::UnexpectedMessage => "Message from server was not in expected format".to_owned(),
            GeminiError::ConnectionClosed => "Attempted to send message on a closed connection".to_owned(),
            GeminiError::FunctionHandlerNotFound(s) => join("Function call handler not found for: ", s.as_str()),
            GeminiError::SendError => "Error sending message to internal task: Channel closed".to_owned(),
            GeminiError::MissingApiKey => "Missing API key".to_owned(),
            GeminiError::UnsupportedOperation(s) => join("Feature or operation not supported by the selected backend: ", s.as_str()),
            GeminiError::DeserializationError(s) => join("Error during message deserialization: ", s.as_str()),
            GeminiError::HttpError(s) => join("HTTP error during connection setup: ", s.as_str()),
            GeminiError::UrlError(s) => join("URL parsing error: ", s.as_str()),
        }
    }
}

/// The outcome of an operation that yields a text, as mathematics.
pub open spec fn text_outcome(r: Result<String, GeminiError>) -> Result<Seq<char>, Failure> {
    match r {
        Ok(s) => Ok(s@),
        Err(e) => Err(e@),
    }
}

/// The outcome of an operation that yields nothing, as mathematics.
pub open spec fn unit_outcome(r: Result<(), GeminiError>) -> Result<(), Failure> {
    match r {
        Ok(_) => Ok(()),
        Err(e) => Err(e@),
    }
}

/// Every error is described by a sentence of its own, followed by its detail where
/// it has one.
pub proof fn law_sentences(s: Seq<char>)
    ensures
        Failure::WebSocketError(s).text() == "WebSocket connection error: "@ + s,
        Failure::SerdeError(s).text() == "JSON serialization/deserialization error: "@ + s,
        Failure::IoError(s).text() == "I/O error: "@ + s,
        Failure::ApiError(s).text() == "API communication error: "@ + s,
        Failure::ConfigurationError(s).text() == "Configuration error: "@ + s,
        Failure::FunctionHandlerNotFound(s).text() == "Function call handler not found for: "@ + s,
        Failure::UnsupportedOperation(s).text() == "Feature or operation not supported by the selected backend: "@ + s,
        Failure::DeserializationError(s).text() == "Error during message deserialization: "@ + s,
        Failure::HttpError(s).text() == "HTTP error during connection setup: "@ + s,
        Failure::UrlError(s).text() == "URL parsing error: "@ + s,
        Failure::NotReady.text() == "Connection not established or setup not complete"@,
        Failure::UnexpectedMessage.text() == "Message from server was not in expected format"@,
        Failure::ConnectionClosed.text() == "Attempted to send message on a closed connection"@,
        Failure::SendError.text() == "Error sending message to internal task: Channel closed"@,
        Failure::MissingApiKey.text() == "Missing API key"@,
{
}

/// An error stands for the failure of its own kind, with the same detail.
pub proof fn law_views_of_errors(s: String)
    ensures
        GeminiError::WebSocketError(s)@ == Failure::WebSocketError(s@),
        GeminiError::SerdeError(s)@ == Failure::SerdeError(s@),
        GeminiError::IoError(s)@ == Failure::IoError(s@),
        GeminiError::ApiError(s)@ == Failure::ApiError(s@),
        GeminiError::ConfigurationError(s)@ == Failure::ConfigurationError(s@),
        GeminiError::FunctionHandlerNotFound(s)@ == Failure::FunctionHandlerNotFound(s@),
        GeminiError::UnsupportedOperation(s)@ == Failure::UnsupportedOperation(s@),
        GeminiError::DeserializationError(s)@ == Failure::DeserializationError(s@),
        GeminiError::HttpError(s)@ == Failure::HttpError(s@),
        GeminiError::UrlError(s)@ == Failure::UrlError(s@),
        GeminiError::NotReady@ == Failure::NotReady,
        GeminiError::UnexpectedMessage@ == Failure::UnexpectedMessage,
        GeminiError::ConnectionClosed@ == Failure::ConnectionClosed,
        GeminiError::SendError@ == Failure::SendError,
        GeminiError::MissingApiKey@ == Failure::MissingApiKey,
{
}

/// An outcome stands for the same outcome: the text or the success, or the failure.
pub proof fn law_views_of_outcomes(s: String, error: GeminiError)
    ensures
        text_outcome(Ok(s)) == Ok::<Seq<char>, Failure>(s@),
        text_outcome(Err(error)) == Err::<Seq<char>, Failure>(error@),
        unit_outcome(Ok(())) == Ok::<(), Failure>(()),
        unit_outcome(Err(error)) == Err::<(), Failure>(error@),
{
}

} // verus!
