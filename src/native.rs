use vstd::prelude::*;
use vstd::string::StringSliceAdditionalSpecFns;
use vstd::utf8::{decode_utf8, valid_utf8};
use crate::error::LlamaError;

verus! {

/// A buffer that the engine allocates and the caller must release.
#[derive(Debug, Clone, Copy, PartialEq, Eq, Structural)]
pub enum Buffer {
    /// The prompt copied out of a parsed request.
    Prompt,
    /// The generated text of a completion.
    Text,
    /// The per-token metadata of a completion.
    Tokens,
    /// The serialized response.
    Response,
}

/// The bytes of `s` contain a nul byte, so it cannot cross the boundary as a
/// C string.
pub open spec fn has_nul(bytes: Seq<u8>) -> bool {
    exists|i: int| 0 <= i < bytes.len() && bytes[i] == 0u8
}

/// Whether `s` holds a nul byte.
pub fn contains_nul(s: &str) -> (r: bool)
    ensures
        r == has_nul(s.spec_bytes()),
{
    let b = s.as_bytes();
    let mut i: usize = 0;
    while i < b.len()
        invariant
            b@ == s.spec_bytes(),
            0 <= i <= b@.len(),
            forall|j: int| 0 <= j < i ==> b@[j] != 0u8,
        decreases b@.len() - i,
    {
        if b[i] == 0u8 {
            return true;
        }
        i = i + 1;
    }
    false
}

/// A native call that the caller of the library performs next.
#[derive(Debug, Clone, PartialEq, Eq)]
pub enum NativeCall {
    /// Load a model and create its context; the reply is `Created`.
    MakeLlama { model_path: String, n_ctx: i32 },
    /// Parse a request into call parameters; the reply is `Parsed`.
    Parse { request_json: String },
    /// Run the completion on the parsed parameters; the reply is `Completed`.
    Complete { handle: u64 },
    /// Serialize the completion result; the reply is `Serialized`.
    Serialize,
    /// Release one engine-allocated buffer; the reply is `Freed`.
    Free { buffer: Buffer },
    /// Destroy the model handle; the reply is `Freed`.
    FreeLlama { handle: u64 },
}

/// What a native call reported back, as plain values.
#[derive(Debug, Clone, PartialEq, Eq)]
pub enum NativeReply {
    /// The address of the new model handle, `0` when creation failed.
    Created { handle: u64 },
    /// The parser's status (`0` is success) and whether it set a prompt.
    Parsed { status: i32, prompt: bool },
    /// The engine's status (`0` is success) and which result buffers it set.
    Completed { status: i32, text: bool, tokens: bool },
    /// The bytes of the serialized response, `None` when it was null.
    Serialized { response: Option<Vec<u8>> },
    /// A release has been carried out.
    Freed,
}

/// The library's decision after a reply: another call, or the end of the run.
#[derive(Debug, PartialEq, Eq)]
pub enum Step<T> {
    Call(NativeCall),
    Done(Result<T, LlamaError>),
}

/// The error that text holding a nul byte gives.
pub open spec fn nul_error(e: LlamaError) -> bool {
    e is Other && e->Other_0@ == "nul byte found in text passed to the engine"@
}

/// The error for text holding a nul byte.
pub fn nul_error_value() -> (e: LlamaError)
    ensures
        nul_error(e),
{
    LlamaError::Other("nul byte found in text passed to the engine".to_owned())
}

/// Relies on std::str::from_utf8: it accepts exactly the well-formed UTF-8
/// byte sequences, and the accepted text is what those bytes encode.
#[verifier::external_body]
fn from_utf8(bytes: &[u8]) -> (r: Option<String>)
    ensures
        r is Some <==> valid_utf8(bytes@),
        r matches Some(s) ==> s@ == decode_utf8(bytes@),
{
    match std::str::from_utf8(bytes) {
        Ok(s) => Some(s.to_owned()),
        Err(_) => None,
    }
}

/// What a serialized response gives the caller: its text when it is valid
/// UTF-8, else `Utf8Error`.
pub open spec fn decoded(bytes: Seq<u8>, r: Result<String, LlamaError>) -> bool {
    if valid_utf8(bytes) {
        r matches Ok(s) && s@ == decode_utf8(bytes)
    } else {
        r == Err::<String, LlamaError>(LlamaError::Utf8Error)
    }
}

/// Turns the bytes of a serialized response into its text.
pub fn decode_response(bytes: &Vec<u8>) -> (r: Result<String, LlamaError>)
    ensures
        decoded(bytes@, r),
{
    match from_utf8(bytes.as_slice()) {
        Some(s) => Ok(s),
        None => Err(LlamaError::Utf8Error),
    }
}

} // verus!
