//! The blob column kind: byte-sequence values, logical type `BLOB`.

use core::marker::PhantomData;
use vstd::prelude::*;

use crate::builders::ColumnBaseBuilder;
use crate::columns::SQLiteColumn;
use crate::common::Blob;
use crate::tags::DefaultFn;
use crate::tags::DefaultFnNotSet;
use crate::tags::DefaultNotSet;
use crate::tags::DefaultValue;
use crate::tags::NotAutoIncremented;
use crate::tags::NotNull;
use crate::tags::NotPrimary;
use crate::tags::NotUnique;
use crate::tags::Nullable;
use crate::tags::PrimaryKey;
use crate::tags::Unique;
use crate::Comparable;

verus! {

/// A blob column builder; the defaults name the all-unset state the kind
/// constructor returns.  Blob columns carry no interpretation mode and
/// never autoincrement.
pub type SQLiteBlobColumn<
    TPrimary = NotPrimary,
    TNotNull = Nullable,
    TUnique = NotUnique,
    TDefault = DefaultNotSet,
    TDefaultFn = DefaultFnNotSet,
    TFunc = (),
> = SQLiteColumn<
    Vec<u8>,
    Blob,
    (),
    TPrimary,
    TNotNull,
    TUnique,
    NotAutoIncremented,
    TDefault,
    TDefaultFn,
    TFunc,
>;

/// Builds a blob column with the given name, with every dimension unset
/// and no accumulated data.
pub fn blob(name: &'static str) -> (c: SQLiteBlobColumn)
    ensures
        c.base.name@ == name@,
        c.unique_name is None,
        c.default is None,
        c.default_fn is None,
        c.wf(),
{
    SQLiteColumn {
        base: ColumnBaseBuilder { name, mode: (), data_type: PhantomData, column_type: PhantomData },
        unique_name: None,
        default: None,
        default_fn: None,
        markers: PhantomData,
    }
}

impl<
    P: PrimaryKey,
    N: NotNull,
    U: Unique,
    D: DefaultValue,
    F: DefaultFn,
    TFunc,
> Comparable<Vec<u8>> for SQLiteBlobColumn<P, N, U, D, F, TFunc> {

}

impl<
    P: PrimaryKey,
    N: NotNull,
    U: Unique,
    D: DefaultValue,
    F: DefaultFn,
    TFunc,
> Comparable<&Vec<u8>> for SQLiteBlobColumn<P, N, U, D, F, TFunc> {

}

impl<
    P: PrimaryKey,
    N: NotNull,
    U: Unique,
    D: DefaultValue,
    F: DefaultFn,
    TFunc,
> Comparable<&[u8]> for SQLiteBlobColumn<P, N, U, D, F, TFunc> {

}

impl<
    P: PrimaryKey,
    N: NotNull,
    U: Unique,
    D: DefaultValue,
    F: DefaultFn,
    TFunc,
> Comparable<SQLiteBlobColumn<P, N, U, D, F, TFunc>> for Vec<u8> {

}

impl<
    P: PrimaryKey,
    N: NotNull,
    U: Unique,
    D: DefaultValue,
    F: DefaultFn,
    TFunc,
> Comparable<Self> for SQLiteBlobColumn<P, N, U, D, F, TFunc> {

}

impl<
    P: PrimaryKey,
    N: NotNull,
    U: Unique,
    D: DefaultValue,
    F: DefaultFn,
    TFunc,
> Comparable<Self> for &SQLiteBlobColumn<P, N, U, D, F, TFunc> {

}

} // verus!
