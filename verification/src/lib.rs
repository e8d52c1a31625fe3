//! A minimal, type-safe columnar data core.
//!
//! The crate provides a family of typed, nullable, append-only column
//! containers ("arrays"), a reciprocal builder abstraction that produces
//! them, a single-value abstraction distinguishing owned values from
//! borrowed references to values inside a column, and a vectorized,
//! null-propagating binary-expression evaluator that operates over
//! type-erased columns while dispatching to statically-typed scalar
//! functions.
//!
//! Errors follow one policy throughout: narrowing a type-erased wrapper
//! to the wrong concrete type and passing the wrong number of columns to
//! an expression are typed, recoverable errors ([`TypeMismatch`] and
//! [`expr::ExprError`]); handing two columns of unequal length to a
//! binary evaluation is a fail-fast contract violation, stated as a
//! precondition rather than hardened into an error value.

use vstd::prelude::*;

pub mod array;
pub mod datatype;
pub mod expr;
pub mod scalar;

use crate::array::ArrayKind;

verus! {

/// Error raised whenever a type-erased wrapper is narrowed to a concrete
/// type that does not match its tag. The first field is the kind the caller
/// expected, the second the kind actually held.
#[derive(Clone, Copy, Debug, PartialEq, Eq, Structural)]
pub struct TypeMismatch(pub ArrayKind, pub ArrayKind);

} // verus!
