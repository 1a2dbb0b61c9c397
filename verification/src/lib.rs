//! Handles that let values owned by an embedded Python interpreter travel as
//! opaque payloads through a native dataflow engine.
//!
//! The engine needs its record payloads to be cloneable, printable, comparable
//! and convertible to bytes; none of that can be done for a foreign object
//! without re-entering the interpreter. Each operation here attaches to the
//! interpreter for one bounded unit of work, performs the foreign call, and
//! returns a plain native value. Interpreter failures are translated at this
//! boundary into the error vocabulary of [`err`] and never leak the foreign
//! error type.

pub mod any;
pub mod callable;
pub mod codec;
pub mod config;
pub mod err;
mod interp;
