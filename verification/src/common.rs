//! The logical column types: one zero-sized marker per SQL type keyword.

use vstd::prelude::*;

verus! {

/// A SQL-visible logical type.  Each marker knows the keyword that the
/// renderer emits after the quoted column name.
pub trait LogicalType: Sized {
    spec fn spec_keyword() -> Seq<char>;

    fn keyword() -> (s: &'static str)
        ensures
            s@ == Self::spec_keyword(),
    ;
}

/// The `INTEGER` logical type.
#[derive(Clone, Copy, Debug, Default)]
pub struct Integer;

impl LogicalType for Integer {
    open spec fn spec_keyword() -> Seq<char> {
        "INTEGER"@
    }

    fn keyword() -> &'static str {
        "INTEGER"
    }
}

/// The `REAL` logical type.
#[derive(Clone, Copy, Debug, Default)]
pub struct Real;

impl LogicalType for Real {
    open spec fn spec_keyword() -> Seq<char> {
        "REAL"@
    }

    fn keyword() -> &'static str {
        "REAL"
    }
}

/// The `TEXT` logical type.
#[derive(Clone, Copy, Debug, Default)]
pub struct Text;

impl LogicalType for Text {
    open spec fn spec_keyword() -> Seq<char> {
        "TEXT"@
    }

    fn keyword() -> &'static str {
        "TEXT"
    }
}

/// The `BLOB` logical type.
#[derive(Clone, Copy, Debug, Default)]
pub struct Blob;

impl LogicalType for Blob {
    open spec fn spec_keyword() -> Seq<char> {
        "BLOB"@
    }

    fn keyword() -> &'static str {
        "BLOB"
    }
}

} // verus!
