//! Declarations that make the embedded interpreter's handle types known to
//! the verifier.
//!
//! Every one of these types is opaque here: the library only moves such
//! values around and hands them to the interpreter through trusted calls.

use vstd::prelude::*;

verus! {

/// Declares `pyo3::Python`, the token proving the current thread is attached
/// to the interpreter.
#[verifier::external_type_specification]
#[verifier::external_body]
pub struct ExPython<'py>(pyo3::Python<'py>);

/// Declares `pyo3::PyAny`, the interpreter's "any object" target type.
#[verifier::external_type_specification]
#[verifier::external_body]
pub struct ExPyAny(pyo3::PyAny);

/// Declares `pyo3::Py`, an owned, thread-independent reference to one
/// interpreter object (one reference-count unit).
#[verifier::external_type_specification]
#[verifier::external_body]
#[verifier::reject_recursive_types(T)]
pub struct ExPy<T>(pyo3::Py<T>);

/// Declares `pyo3::Bound`, a reference to an interpreter object bound to the
/// lifetime of an attach token.
#[verifier::external_type_specification]
#[verifier::external_body]
#[verifier::reject_recursive_types(T)]
pub struct ExBound<'py, T>(pyo3::Bound<'py, T>);

/// Declares `pyo3::PyErr`, the interpreter's error type.
#[verifier::external_type_specification]
#[verifier::external_body]
pub struct ExPyErr(pyo3::PyErr);

} // verus!
