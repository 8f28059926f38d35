//! Errors reported by the web server's operations.

use vstd::prelude::*;

verus! {

/// Error types for the web server.  Errors that come from the operating
/// system or from serialization carry their message as text.
#[derive(Debug)]
pub enum WebError {
    Server(String),
    Serialization(String),
    WikiGeneration(String),
    RagQuery(String),
    Repository(String),
    Database(String),
    Config(String),
    Internal(String),
    NotFound(String),
}

/// Result type for web operations.
pub type WebResult<T> = Result<T, WebError>;

} // verus!
