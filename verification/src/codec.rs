//! The byte codec: how a handle crosses a process boundary.
//!
//! The wire form of a handle is exactly the byte buffer produced by the
//! interpreter's native object-serialization facility; this layer adds no
//! framing, versioning or length prefix of its own. Within one process,
//! handles travel by the cheap clone path and are never encoded.

use vstd::prelude::*;

use pyo3::types::PyAnyMethods;
use pyo3::types::PyBytesMethods;

use crate::any::TdPyAny;
use crate::err::CodecError;

verus! {

/// Encodes a handle for a boundary crossing. A facility failure — the
/// serialization module failing to import, the dump call raising, or the
/// result not being a byte buffer — is returned as a serialization error
/// carrying the interpreter's message: never a panic, never a silent empty
/// buffer.
pub fn encode(v: &TdPyAny) -> (r: Result<Vec<u8>, CodecError>)
    ensures
        r matches Err(e) ==> e is Serialize,
{
    dump_outcome(dump_raw(v))
}

/// Decodes a byte buffer back into a handle. The buffer is handed to the
/// interpreter's native deserialization facility unchanged, so every
/// protocol layout that facility recognizes is accepted — in particular both
/// historical layouts, whose leading bytes differ; nothing here assumes a
/// fixed prefix. A buffer the facility rejects is returned as a
/// deserialization error carrying the interpreter's message.
pub fn decode(bytes: &[u8]) -> (r: Result<TdPyAny, CodecError>)
    ensures
        r matches Err(e) ==> e is Deserialize,
{
    load_outcome(load_raw(bytes))
}

/// Translates the outcome of the interpreter's dump facility: bytes pass
/// through unchanged, and a failure becomes a serialization error carrying
/// the interpreter's message.
pub fn dump_outcome(raw: Result<Vec<u8>, String>) -> (r: Result<Vec<u8>, CodecError>)
    ensures
        raw matches Ok(b) ==> (r matches Ok(c) && c == b),
        raw matches Err(m) ==> r == Err::<Vec<u8>, CodecError>(CodecError::Serialize(m)),
{
    match raw {
        Ok(b) => Ok(b),
        Err(m) => Err(CodecError::Serialize(m)),
    }
}

/// Translates the outcome of the interpreter's load facility: a rebuilt
/// handle passes through unchanged, and a failure becomes a deserialization
/// error carrying the interpreter's message.
pub fn load_outcome(raw: Result<TdPyAny, String>) -> (r: Result<TdPyAny, CodecError>)
    ensures
        raw matches Ok(v) ==> (r matches Ok(w) && w == v),
        raw matches Err(m) ==> (r matches Err(e) && e == CodecError::Deserialize(m)),
{
    match raw {
        Ok(v) => Ok(v),
        Err(m) => Err(CodecError::Deserialize(m)),
    }
}

/// Relies on `pyo3::Python::attach`, `Python::import` of the interpreter's
/// `pickle` module, a call of its `dumps` entry point, and
/// `PyBytes::as_bytes` (pyo3): the interpreter's own byte serialization of
/// the wrapped object, or the interpreter's error message when importing,
/// dumping, or extracting the buffer failed.
#[verifier::external_body]
fn dump_raw(v: &TdPyAny) -> Result<Vec<u8>, String> {
    let r: Result<Vec<u8>, pyo3::PyErr> = pyo3::Python::attach(|py| {
        let pickle = py.import("pickle")?;
        let blob = pickle.call_method1("dumps", (v.bind(py),))?;
        let bytes = blob.cast_into::<pyo3::types::PyBytes>()?;
        Ok(bytes.as_bytes().to_vec())
    });
    r.map_err(|e| e.to_string())
}

/// Relies on `pyo3::Python::attach`, `Python::import` of the interpreter's
/// `pickle` module, and a call of its `loads` entry point (pyo3): the
/// foreign value rebuilt from the bytes, wrapped into a fresh handle, or the
/// interpreter's error message when importing or loading failed.
#[verifier::external_body]
fn load_raw(bytes: &[u8]) -> Result<TdPyAny, String> {
    let r: Result<TdPyAny, pyo3::PyErr> = pyo3::Python::attach(|py| {
        let obj = py.import("pickle")?.call_method1("loads", (bytes,))?;
        Ok(TdPyAny::from_bound(obj))
    });
    r.map_err(|e| e.to_string())
}

} // verus!
