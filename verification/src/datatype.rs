//! Logical types and their mapping onto physical column variants.
//!
//! A logical type is a named, possibly parameterized, user-facing type.
//! Each logical kind maps to exactly one physical column variant; the
//! mapping is static and total, and it is the only table the evaluation
//! engine consults when a logical type has to be resolved to a column
//! representation.

use vstd::prelude::*;

use crate::array::ArrayKind;

verus! {

/// A logical, user-facing type.
#[derive(Clone, Copy, Debug, PartialEq, Eq, Structural)]
pub enum DataType {
    /// Corresponding to the 16-bit integer physical type.
    SmallInt,
    /// Corresponding to the 32-bit integer physical type.
    Integer,
    /// Corresponding to the 64-bit integer physical type.
    BigInt,
    /// Corresponding to the text physical type.
    Varchar,
    /// Corresponding to the text physical type; carries a fixed width.
    Char { width: u16 },
    /// Corresponding to the boolean physical type.
    Boolean,
    /// Corresponding to the 32-bit floating-point physical type.
    Real,
    /// Corresponding to the 64-bit floating-point physical type.
    Double,
    /// Corresponding to the decimal physical type; carries scale and
    /// precision.
    Decimal { scale: u16, precision: u16 },
}

impl DataType {
    /// The one physical column variant this logical type maps to.
    pub open spec fn spec_physical_kind(self) -> ArrayKind {
        match self {
            DataType::SmallInt => ArrayKind::Int16,
            DataType::Integer => ArrayKind::Int32,
            DataType::BigInt => ArrayKind::Int64,
            DataType::Varchar => ArrayKind::String,
            DataType::Char { .. } => ArrayKind::String,
            DataType::Boolean => ArrayKind::Bool,
            DataType::Real => ArrayKind::Float32,
            DataType::Double => ArrayKind::Float64,
            DataType::Decimal { .. } => ArrayKind::Decimal,
        }
    }

    /// Look up the physical column variant of this logical type. The
    /// mapping is total: every logical kind resolves to exactly one
    /// physical kind.
    pub fn physical_kind(&self) -> (k: ArrayKind)
        ensures
            k == self.spec_physical_kind(),
    {
        match self {
            DataType::SmallInt => ArrayKind::Int16,
            DataType::Integer => ArrayKind::Int32,
            DataType::BigInt => ArrayKind::Int64,
            DataType::Varchar => ArrayKind::String,
            DataType::Char { .. } => ArrayKind::String,
            DataType::Boolean => ArrayKind::Bool,
            DataType::Real => ArrayKind::Float32,
            DataType::Double => ArrayKind::Float64,
            DataType::Decimal { .. } => ArrayKind::Decimal,
        }
    }
}

} // verus!
