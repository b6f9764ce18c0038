//! The comparability relation: which operand types may legally stand on
//! the two sides of a comparison in a query predicate.
//!
//! The relation exists twice, in lock-step.  The marker trait [`Comparable`]
//! states each declared pair at the type level, so that predicate builders
//! reject an undeclared comparison before the program runs.  The value-level
//! relation [`spec_may_compare`] states the same set of facts over operand
//! identities, so that the declared pairs — reflexivity for each kind, and
//! each cross-type direction — can be stated and proved as laws.
//!
//! Symmetry is never assumed: every direction is a fact of its own.

use vstd::prelude::*;

verus! {

/// A declared fact: a value of `Self` may stand on the left of a comparison
/// whose right side has type `Rhs`.
pub trait Comparable<Rhs> {

}

impl Comparable<i64> for i64 {

}

impl Comparable<&i64> for i64 {

}

impl Comparable<String> for String {

}

impl<'a> Comparable<String> for &'a String {

}

impl<'a> Comparable<&'a String> for &'a String {

}

impl Comparable<Vec<u8>> for Vec<u8> {

}

impl<'a> Comparable<&'a Vec<u8>> for &'a Vec<u8> {

}

impl<'a> Comparable<&'a [u8]> for Vec<u8> {

}

impl<'a> Comparable<&'a [u8]> for &'a [u8] {

}

impl<'a> Comparable<&'a str> for String {

}

impl<'a> Comparable<&'a str> for &'a str {

}

/// The identity of a column kind.
#[derive(Clone, Copy, Debug, PartialEq, Eq, Structural)]
pub enum ColumnKind {
    /// 64-bit integer columns.
    Integer,
    /// 64-bit floating-point columns.
    Real,
    /// UTF-8 text columns.
    Text,
    /// Byte-sequence columns.
    Blob,
    /// Columns holding a tagged union of every native type.
    Any,
    /// Columns holding an integer-or-float union.
    Number,
}

/// The identity of one side of a comparison: a native literal, a borrowed
/// form of one, or a column of some kind.
#[derive(Clone, Copy, Debug, PartialEq, Eq, Structural)]
pub enum OperandType {
    /// A 64-bit integer literal.
    IntegerValue,
    /// A borrowed 64-bit integer.
    IntegerRef,
    /// A 64-bit float literal.
    FloatValue,
    /// A borrowed 64-bit float.
    FloatRef,
    /// An owned text value.
    TextValue,
    /// A borrowed owned-text value.
    TextRef,
    /// A string slice.
    TextSlice,
    /// An owned byte sequence.
    BlobValue,
    /// A borrowed owned byte sequence.
    BlobRef,
    /// A byte slice.
    ByteSlice,
    /// A column of the given kind, in any builder state.
    Column(ColumnKind),
    /// A borrowed column of the given kind, in any builder state.
    ColumnRef(ColumnKind),
}

/// The native literal type of each column kind: the operand every kind is
/// comparable against, whatever its builder state.
pub open spec fn native_literal(kind: ColumnKind) -> OperandType {
    match kind {
        ColumnKind::Integer => OperandType::IntegerValue,
        ColumnKind::Real => OperandType::FloatValue,
        ColumnKind::Text => OperandType::TextValue,
        ColumnKind::Blob => OperandType::BlobValue,
        ColumnKind::Any => OperandType::FloatValue,
        ColumnKind::Number => OperandType::FloatValue,
    }
}

/// The declared comparability facts over native literals and their borrowed
/// forms; each direction is declared on its own.
pub open spec fn spec_may_compare_literals(lhs: OperandType, rhs: OperandType) -> bool {
    ||| (lhs == OperandType::IntegerValue && rhs == OperandType::IntegerValue)
    ||| (lhs == OperandType::IntegerValue && rhs == OperandType::IntegerRef)
    ||| (lhs == OperandType::IntegerValue && rhs == OperandType::FloatValue)
    ||| (lhs == OperandType::IntegerValue && rhs == OperandType::FloatRef)
    ||| (lhs == OperandType::FloatValue && rhs == OperandType::FloatValue)
    ||| (lhs == OperandType::FloatValue && rhs == OperandType::FloatRef)
    ||| (lhs == OperandType::FloatValue && rhs == OperandType::IntegerValue)
    ||| (lhs == OperandType::TextValue && rhs == OperandType::TextValue)
    ||| (lhs == OperandType::TextRef && rhs == OperandType::TextValue)
    ||| (lhs == OperandType::TextRef && rhs == OperandType::TextRef)
    ||| (lhs == OperandType::TextValue && rhs == OperandType::TextSlice)
    ||| (lhs == OperandType::TextSlice && rhs == OperandType::TextValue)
    ||| (lhs == OperandType::TextSlice && rhs == OperandType::TextSlice)
    ||| (lhs == OperandType::BlobValue && rhs == OperandType::BlobValue)
    ||| (lhs == OperandType::BlobRef && rhs == OperandType::BlobRef)
    ||| (lhs == OperandType::BlobValue && rhs == OperandType::ByteSlice)
    ||| (lhs == OperandType::ByteSlice && rhs == OperandType::BlobValue)
    ||| (lhs == OperandType::ByteSlice && rhs == OperandType::ByteSlice)
    ||| (lhs == OperandType::BlobValue && rhs == OperandType::Column(ColumnKind::Blob))
}

/// The declared comparability facts for columns: a column of any kind, in
/// any builder state, compares against itself, a borrowed form of itself,
/// and the native literals of its kind.
pub open spec fn spec_may_compare_columns(lhs: OperandType, rhs: OperandType) -> bool {
    match lhs {
        OperandType::Column(kind) => {
            ||| rhs == OperandType::Column(kind)
            ||| rhs == OperandType::ColumnRef(kind)
            ||| spec_kind_literal(kind, rhs)
        },
        OperandType::ColumnRef(kind) => rhs == OperandType::ColumnRef(kind),
        _ => false,
    }
}

/// The literal operands a column of the given kind accepts on the other
/// side of a comparison.
pub open spec fn spec_kind_literal(kind: ColumnKind, rhs: OperandType) -> bool {
    match kind {
        ColumnKind::Integer => rhs == OperandType::IntegerValue || rhs == OperandType::IntegerRef,
        ColumnKind::Real => rhs == OperandType::FloatValue || rhs == OperandType::FloatRef,
        ColumnKind::Text => {
            ||| rhs == OperandType::TextValue
            ||| rhs == OperandType::TextRef
            ||| rhs == OperandType::TextSlice
        },
        ColumnKind::Blob => {
            ||| rhs == OperandType::BlobValue
            ||| rhs == OperandType::BlobRef
            ||| rhs == OperandType::ByteSlice
        },
        ColumnKind::Any => rhs == OperandType::FloatValue || rhs == OperandType::FloatRef,
        ColumnKind::Number => rhs == OperandType::FloatValue || rhs == OperandType::FloatRef,
    }
}

/// The whole declared relation.
pub open spec fn spec_may_compare(lhs: OperandType, rhs: OperandType) -> bool {
    spec_may_compare_literals(lhs, rhs) || spec_may_compare_columns(lhs, rhs)
}

/// Decides whether a comparison between the two operand identities was
/// declared legal.
pub fn may_compare(lhs: OperandType, rhs: OperandType) -> (b: bool)
    ensures
        b == spec_may_compare(lhs, rhs),
{
    match (lhs, rhs) {
        (OperandType::Column(k), OperandType::Column(k2)) => k == k2,
        (OperandType::Column(k), OperandType::ColumnRef(k2)) => k == k2,
        (OperandType::ColumnRef(k), OperandType::ColumnRef(k2)) => k == k2,
        (OperandType::Column(k), r) => kind_literal(k, r),
        (OperandType::ColumnRef(_), _) => false,
        (OperandType::BlobValue, OperandType::Column(k)) => k == ColumnKind::Blob,
        (_, OperandType::Column(_)) => false,
        (_, OperandType::ColumnRef(_)) => false,
        (l, r) => literals_comparable(l, r),
    }
}

/// Decides whether a column of the given kind accepts the operand as a
/// literal comparand.
fn kind_literal(kind: ColumnKind, rhs: OperandType) -> (b: bool)
    ensures
        b == spec_kind_literal(kind, rhs),
{
    match kind {
        ColumnKind::Integer => matches!(rhs, OperandType::IntegerValue | OperandType::IntegerRef),
        ColumnKind::Real => matches!(rhs, OperandType::FloatValue | OperandType::FloatRef),
        ColumnKind::Text => matches!(
            rhs,
            OperandType::TextValue | OperandType::TextRef | OperandType::TextSlice,
        ),
        ColumnKind::Blob => matches!(
            rhs,
            OperandType::BlobValue | OperandType::BlobRef | OperandType::ByteSlice,
        ),
        ColumnKind::Any => matches!(rhs, OperandType::FloatValue | OperandType::FloatRef),
        ColumnKind::Number => matches!(rhs, OperandType::FloatValue | OperandType::FloatRef),
    }
}

/// Decides the literal-against-literal part of the relation.
fn literals_comparable(lhs: OperandType, rhs: OperandType) -> (b: bool)
    ensures
        b == spec_may_compare_literals(lhs, rhs),
{
    match (lhs, rhs) {
        (OperandType::IntegerValue, OperandType::IntegerValue) => true,
        (OperandType::IntegerValue, OperandType::IntegerRef) => true,
        (OperandType::IntegerValue, OperandType::FloatValue) => true,
        (OperandType::IntegerValue, OperandType::FloatRef) => true,
        (OperandType::FloatValue, OperandType::FloatValue) => true,
        (OperandType::FloatValue, OperandType::FloatRef) => true,
        (OperandType::FloatValue, OperandType::IntegerValue) => true,
        (OperandType::TextValue, OperandType::TextValue) => true,
        (OperandType::TextRef, OperandType::TextValue) => true,
        (OperandType::TextRef, OperandType::TextRef) => true,
        (OperandType::TextValue, OperandType::TextSlice) => true,
        (OperandType::TextSlice, OperandType::TextValue) => true,
        (OperandType::TextSlice, OperandType::TextSlice) => true,
        (OperandType::BlobValue, OperandType::BlobValue) => true,
        (OperandType::BlobRef, OperandType::BlobRef) => true,
        (OperandType::BlobValue, OperandType::ByteSlice) => true,
        (OperandType::ByteSlice, OperandType::BlobValue) => true,
        (OperandType::ByteSlice, OperandType::ByteSlice) => true,
        (OperandType::BlobValue, OperandType::Column(ColumnKind::Blob)) => true,
        _ => false,
    }
}

} // verus!
