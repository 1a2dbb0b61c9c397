//! The opaque value handle: one foreign interpreter object carried as a
//! payload through the dataflow engine.

use vstd::prelude::*;

use pyo3::types::PyAnyMethods;
use pyo3::types::PyStringMethods;

use crate::err::ComparisonError;
use crate::err::FormatError;

verus! {

/// A handle to one foreign interpreter object.
///
/// The handle owns exactly one reference-count unit of the wrapped object;
/// clones share ownership, and the object is released when the last clone is
/// dropped. Outside an attached scope the handle is an inert, movable token:
/// every operation that reads the object attaches to the interpreter for one
/// bounded unit of work and detaches before returning, never holding the
/// interpreter across a point where the engine's scheduler could wait.
pub struct TdPyAny {
    obj: pyo3::Py<pyo3::PyAny>,
}

impl TdPyAny {
    /// The wrapped interpreter reference, as an abstract value.
    pub closed spec fn inner(self) -> pyo3::Py<pyo3::PyAny> {
        self.obj
    }

    /// Wraps an owned interpreter reference. Always succeeds; the handle
    /// takes over the one reference-count unit the argument carries.
    pub fn from_object(obj: pyo3::Py<pyo3::PyAny>) -> (r: TdPyAny)
        ensures
            r.inner() == obj,
    {
        TdPyAny { obj }
    }

    /// Releases the handle back into a raw interpreter reference, handing its
    /// reference-count unit to the caller.
    pub fn into_object(self) -> (r: pyo3::Py<pyo3::PyAny>)
        ensures
            r == self.inner(),
    {
        self.obj
    }

    /// Wraps a reference that is currently bound to an attach scope, claiming
    /// an owned reference that survives the scope.
    ///
    /// Relies on `pyo3::Bound::unbind`: it turns the bound reference into the
    /// owned form of the same object, moving its reference-count unit.
    #[verifier::external_body]
    pub fn from_bound(bound: pyo3::Bound<'_, pyo3::PyAny>) -> (r: TdPyAny) {
        TdPyAny { obj: bound.unbind() }
    }

    /// Grants lock-scoped access to the wrapped object: the returned view is
    /// usable only while the attach token `py` lives, and every foreign
    /// operation on the object passes through such a view.
    ///
    /// Relies on `pyo3::Py::bind`: it reinterprets the owned reference as one
    /// bound to the attach scope, without touching the object.
    #[verifier::external_body]
    pub fn bind<'py>(&self, py: pyo3::Python<'py>) -> &pyo3::Bound<'py, pyo3::PyAny> {
        self.obj.bind(py)
    }

    /// A second handle to the same object.
    ///
    /// Relies on `pyo3::Python::attach` and `pyo3::Py::clone_ref`: the clone
    /// raises the object's reference count by one and wraps the very same
    /// reference, so the result is a handle to the same object.
    #[verifier::external_body]
    fn clone_obj(&self) -> (r: TdPyAny)
        ensures
            r.inner() == self.inner(),
    {
        TdPyAny { obj: pyo3::Python::attach(|py| self.obj.clone_ref(py)) }
    }

    /// The debug form of the handle: the interpreter's human-readable
    /// representation of the wrapped object. An interpreter-side failure is
    /// reported as a bare [`FormatError`]; by design its cause is not carried
    /// along.
    pub fn debug_str(&self) -> (r: Result<String, FormatError>)
        ensures
            r is Err ==> r == Err::<String, FormatError>(FormatError),
    {
        crate::err::format_outcome(repr_raw(self))
    }

    /// The interpreter's equality verdict on the two wrapped values:
    /// structural equality by the foreign rich comparison, never pointer
    /// identity.
    ///
    /// When the interpreter cannot produce a boolean verdict the failure is
    /// returned as a [`ComparisonError`] rather than decided here: the
    /// engine's equality obligation is infallible, so whether such a failure
    /// is fatal is settled by the caller at that boundary, not inside this
    /// library.
    pub fn try_eq(&self, other: &TdPyAny) -> (r: Result<bool, ComparisonError>) {
        eq_verdict(eq_raw(self, other))
    }
}

/// Cloning shares ownership of the wrapped object: the clone is a handle to
/// the same object, and dropping either handle leaves the other valid.
impl Clone for TdPyAny {
    fn clone(&self) -> (r: Self)
        ensures
            r.inner() == self.inner(),
    {
        self.clone_obj()
    }
}

/// Relies on `pyo3::Python::attach`, `Bound::repr` and `PyString::to_str`
/// (pyo3): the interpreter's human-readable representation of the wrapped
/// object, or the interpreter's error message when computing it failed.
#[verifier::external_body]
fn repr_raw(v: &TdPyAny) -> Result<String, String> {
    let r: Result<String, pyo3::PyErr> = pyo3::Python::attach(|py| {
        let repr = v.bind(py).repr()?;
        Ok(repr.to_str()?.to_owned())
    });
    r.map_err(|e| e.to_string())
}

/// Relies on `pyo3::Python::attach`, `Bound::rich_compare` with the equality
/// operator, and `Bound::is_truthy` (pyo3): the interpreter's rich "equal"
/// comparison of the two wrapped objects, coerced to a boolean by the
/// interpreter's truthiness rule, or the interpreter's error message.
#[verifier::external_body]
fn eq_raw(a: &TdPyAny, b: &TdPyAny) -> Result<bool, String> {
    let r: Result<bool, pyo3::PyErr> = pyo3::Python::attach(|py| {
        a.bind(py).rich_compare(b.bind(py), pyo3::pyclass::CompareOp::Eq)?.is_truthy()
    });
    r.map_err(|e| e.to_string())
}

/// Translates the outcome of the foreign equality comparison: a boolean
/// verdict passes through unchanged, and a failure becomes a
/// [`ComparisonError`] carrying the interpreter's message.
pub fn eq_verdict(raw: Result<bool, String>) -> (r: Result<bool, ComparisonError>)
    ensures
        raw matches Ok(b) ==> (r matches Ok(c) && c == b),
        raw matches Err(m) ==> (r matches Err(e) && e.message == m),
{
    match raw {
        Ok(b) => Ok(b),
        Err(m) => Err(ComparisonError { message: m }),
    }
}

} // verus!
