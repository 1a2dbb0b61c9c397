//! The callable handle: a foreign interpreter object validated, once, at
//! construction time to be invocable.

use vstd::prelude::*;

use pyo3::types::PyAnyMethods;
use pyo3::types::PyTypeMethods;

use crate::any::TdPyAny;
use crate::err::FormatError;
use crate::err::NotCallableError;

verus! {

/// A handle to one foreign interpreter object known to be invocable.
///
/// Ownership is the same as for the opaque handle: one reference-count unit,
/// released on drop. The invocability of the wrapped object is checked
/// exactly once, when the handle is built; later users bind the handle and
/// invoke it through the bound interface without re-verifying.
pub struct TdPyCallable {
    obj: pyo3::Py<pyo3::PyAny>,
}

impl TdPyCallable {
    /// The wrapped interpreter reference, as an abstract value.
    pub closed spec fn inner(self) -> pyo3::Py<pyo3::PyAny> {
        self.obj
    }

    /// The construction decision, taken on the interpreter's answers alone:
    /// an invocable value is wrapped, claiming a fresh reference-count unit
    /// on the same object; any other value is refused with the message that
    /// names its foreign type when one was retrievable.
    pub fn from_inspection(v: &TdPyAny, invocable: bool, ty_name: Option<&str>) -> (r:
        Result<TdPyCallable, NotCallableError>)
        ensures
            invocable ==> (r matches Ok(c) && c.inner() == v.inner()),
            !invocable ==> (r matches Err(e)
                && (ty_name matches Some(t) ==> e.message@ == "'"@ + t@
                + "' object is not callable"@) && (ty_name is None ==> e.message@
                == "object is not callable"@)),
    {
        if invocable {
            Ok(TdPyCallable { obj: v.clone().into_object() })
        } else {
            match ty_name {
                Some(t) => Err(NotCallableError { message: format_not_callable(t) }),
                None => Err(
                    NotCallableError { message: "object is not callable".to_owned() },
                ),
            }
        }
    }

    /// Builds a callable handle from an opaque one, asking the interpreter
    /// whether the wrapped value is invocable. This is the single validation
    /// point; on refusal the error message names the value's foreign type
    /// when the interpreter could report one. The type name is only looked
    /// up on the refusal path.
    pub fn try_from_any(v: &TdPyAny) -> (r: Result<TdPyCallable, NotCallableError>)
        ensures
            r matches Ok(c) ==> c.inner() == v.inner(),
            r matches Err(e) ==> (e.message@ == "object is not callable"@ || (exists|t: Seq<char>|
                e.message@ == "'"@ + t + "' object is not callable"@)),
    {
        if is_callable_raw(v) {
            Self::from_inspection(v, true, None)
        } else {
            match ty_name_raw(v) {
                Some(name) => {
                    let r = Self::from_inspection(v, false, Some(name.as_str()));
                    proof {
                        let t = name@;
                        assert(r matches Err(e) ==> e.message@ == "'"@ + t
                            + "' object is not callable"@);
                    }
                    r
                },
                None => Self::from_inspection(v, false, None),
            }
        }
    }

    /// Grants lock-scoped access to the wrapped callable, with the same
    /// contract as the opaque handle's bound access; invoking the callable is
    /// the engine's business and happens through the returned view.
    ///
    /// Relies on `pyo3::Py::bind`: it reinterprets the owned reference as one
    /// bound to the attach scope, without touching the object.
    #[verifier::external_body]
    pub fn bind<'py>(&self, py: pyo3::Python<'py>) -> &pyo3::Bound<'py, pyo3::PyAny> {
        self.obj.bind(py)
    }

    /// The debug form of the callable: its declared name attribute. A
    /// missing or unreadable attribute is reported as a bare
    /// [`FormatError`], with the cause discarded by design.
    pub fn debug_str(&self) -> (r: Result<String, FormatError>)
        ensures
            r is Err ==> r == Err::<String, FormatError>(FormatError),
    {
        crate::err::format_outcome(name_attr_raw(self))
    }
}

/// Relies on `pyo3::Python::attach` and `Bound::is_callable` (pyo3): the
/// interpreter's callability check on the wrapped object.
#[verifier::external_body]
fn is_callable_raw(v: &TdPyAny) -> bool {
    pyo3::Python::attach(|py| v.bind(py).is_callable())
}

/// Relies on `pyo3::Python::attach`, `Bound::get_type` and `PyType::name`
/// (pyo3): the name of the wrapped object's foreign type, when the
/// interpreter can produce one.
#[verifier::external_body]
fn ty_name_raw(v: &TdPyAny) -> Option<String> {
    pyo3::Python::attach(|py| match v.bind(py).get_type().name() {
        Ok(name) => Some(name.to_string()),
        Err(_) => None,
    })
}

/// Relies on `pyo3::Python::attach`, `Bound::getattr` for the `__name__`
/// attribute, and extraction of its value to a native string (pyo3): the
/// callable's declared name, or the interpreter's error message.
#[verifier::external_body]
fn name_attr_raw(c: &TdPyCallable) -> Result<String, String> {
    let r: Result<String, pyo3::PyErr> = pyo3::Python::attach(|py| {
        let name: String = c.obj.bind(py).getattr("__name__")?.extract()?;
        Ok(name)
    });
    r.map_err(|e| e.to_string())
}

/// Relies on the `format!` macro of std: the result is exactly the type name
/// in single quotes followed by the fixed suffix.
#[verifier::external_body]
fn format_not_callable(ty_name: &str) -> (r: String)
    ensures
        r@ == "'"@ + ty_name@ + "' object is not callable"@,
{
    format!("'{}' object is not callable", ty_name)
}

} // verus!
