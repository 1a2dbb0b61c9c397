//! The downcast capability: a runtime-checked "try as subtype" contract.

use vstd::prelude::*;

verus! {

/// A capability for wrapper types that can attempt to extract one of a
/// closed set of recognized concrete configuration subtypes `S` from the
/// foreign object they wrap.
///
/// Given a token proving the interpreter lock is held, `downcast` either
/// produces the `S` value or reports the interpreter's type error when the
/// underlying object is not an instance of (or convertible to) `S`. One
/// foreign object answers for at most one `S` at a time; the check is made
/// dynamically, under lock, on every call. The trait exists for the
/// configuration wrappers of the surrounding system to implement; no type of
/// this library does.
pub trait PyConfigClass<S> {
    fn downcast<'py>(&self, py: pyo3::Python<'py>) -> Result<S, pyo3::PyErr>;
}

} // verus!
