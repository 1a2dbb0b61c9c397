//! The error vocabulary of the adapter boundary.
//!
//! Every interpreter-side failure is converted into one of these types before
//! it leaves the library; the interpreter's own error type never crosses this
//! layer.

use vstd::prelude::*;

verus! {

/// A formatting request failed inside the interpreter.
///
/// By design the underlying cause is not carried along: the native formatting
/// contract has no channel for one.
#[derive(Clone, Copy, Debug, PartialEq, Eq, Structural)]
pub struct FormatError;

/// Construction of a callable handle was refused because the wrapped value is
/// not invocable. Carries a human-readable message that names the offending
/// foreign type when that name was retrievable.
#[derive(Debug)]
pub struct NotCallableError {
    pub message: String,
}

/// The interpreter's own serialization facility failed while a handle was
/// being encoded to or decoded from bytes. The payload is the interpreter's
/// error message.
#[derive(Debug)]
pub enum CodecError {
    /// Failure while dumping a foreign value to bytes.
    Serialize(String),
    /// Failure while loading a foreign value back from bytes.
    Deserialize(String),
}

impl CodecError {
    /// The interpreter message this error carries.
    pub fn message(&self) -> (r: &String)
        ensures
            self matches CodecError::Serialize(m) ==> r == m,
            self matches CodecError::Deserialize(m) ==> r == m,
    {
        match self {
            CodecError::Serialize(m) => m,
            CodecError::Deserialize(m) => m,
        }
    }
}

/// Translates the outcome of a foreign formatting request: the text passes
/// through unchanged, and any failure collapses to the bare [`FormatError`],
/// discarding the cause.
pub fn format_outcome(raw: Result<String, String>) -> (r: Result<String, FormatError>)
    ensures
        raw matches Ok(s) ==> (r matches Ok(t) && t == s),
        raw is Err ==> r == Err::<String, FormatError>(FormatError),
{
    match raw {
        Ok(s) => Ok(s),
        Err(_) => Err(FormatError),
    }
}

/// The interpreter failed while evaluating the rich "equal" comparison of two
/// foreign values, so no boolean verdict exists. Whether a caller treats this
/// as fatal (the infallible native equality contract leaves no error channel)
/// or recovers is the caller's choice; this library reports it as a value.
#[derive(Debug)]
pub struct ComparisonError {
    pub message: String,
}

} // verus!
