//! Text functions over columns.
//!
//! Like the comparisons, a text function is a statically-typed binary
//! scalar function wrapped by [`crate::expr::vectorize::BinaryExpression`];
//! any function satisfying that contract can be registered, and this
//! module provides the substring predicate.

use vstd::prelude::*;

use crate::array::{BoolArray, StringArray};
use crate::expr::vectorize::BinaryExpFunc;

verus! {

/// Whether `needle` occurs as a contiguous subsequence of `hay`. The
/// empty sequence occurs in every sequence.
pub open spec fn has_substring(hay: Seq<char>, needle: Seq<char>) -> bool {
    exists|i: int|
        0 <= i <= hay.len() - needle.len() && #[trigger] hay.subrange(i, i + needle.len())
            == needle
}

/// Relies on str::contains with a `&str` pattern: it returns true exactly
/// when the pattern occurs as a contiguous substring of the receiver.
#[verifier::external_body]
fn str_contains(hay: &str, needle: &str) -> (r: bool)
    ensures
        r == has_substring(hay@, needle@),
{
    hay.contains(needle)
}

/// Checks whether the second text input occurs inside the first.
pub struct ExprStrContains;

impl BinaryExpFunc<StringArray, StringArray, BoolArray> for ExprStrContains {
    open spec fn spec_eval(&self, i1: Seq<char>, i2: Seq<char>) -> bool {
        has_substring(i1, i2)
    }

    fn eval<'a>(&self, i1: &'a str, i2: &'a str) -> (r: bool) {
        str_contains(i1, i2)
    }
}

} // verus!
