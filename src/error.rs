use vstd::prelude::*;

verus! {

/// Every way a session or one of its completions can fail.
#[derive(Debug, Clone, PartialEq, Eq)]
pub enum LlamaError {
    /// The context size was not a positive integer.
    InvalidContextSize,
    /// The engine could not load the model.
    ModelInitFailed,
    /// The request was not a well-formed completion request.
    ParseJsonFailed,
    /// The engine reported a failed completion.
    CompletionFailed,
    /// The engine could not serialize its result.
    SerializeFailed,
    /// The serialized result was not valid UTF-8.
    Utf8Error,
    /// Text that cannot be handed to the engine, and similar failures.
    Other(String),
}

} // verus!
