//! The integer column kind: 64-bit integer values, logical type `INTEGER`,
//! and — alone among the kinds — the autoincrement transition.

use core::marker::PhantomData;
use vstd::prelude::*;

use crate::builders::ColumnBaseBuilder;
use crate::columns::SQLiteColumn;
use crate::common::Integer;
use crate::tags::Autoincrement;
use crate::tags::DefaultFn;
use crate::tags::DefaultFnNotSet;
use crate::tags::DefaultNotSet;
use crate::tags::DefaultValue;
use crate::tags::IsAutoIncremented;
use crate::tags::IsPrimary;
use crate::tags::NotAutoIncremented;
use crate::tags::NotNull;
use crate::tags::NotPrimary;
use crate::tags::NotUnique;
use crate::tags::Nullable;
use crate::tags::PrimaryKey;
use crate::tags::Unique;
use crate::transitions::SQLAutoIncrement;
use crate::Comparable;

verus! {

/// How the stored integer is to be interpreted.
#[derive(Clone, Copy, Debug, Default)]
pub enum SQLiteIntegerMode {
    /// A plain number.
    #[default]
    Number,
    /// A Unix timestamp in seconds.
    Timestamp,
    /// A Unix timestamp in milliseconds.
    TimestampMS,
    /// A boolean stored as 0 or 1.
    Boolean,
}

/// An integer column builder; the defaults name the all-unset state a kind
/// constructor returns.
pub type SQLiteIntegerColumn<
    TPrimary = NotPrimary,
    TNotNull = Nullable,
    TUnique = NotUnique,
    TAutoincrement = NotAutoIncremented,
    TDefault = DefaultNotSet,
    TDefaultFn = DefaultFnNotSet,
    TFunc = (),
> = SQLiteColumn<
    i64,
    Integer,
    SQLiteIntegerMode,
    TPrimary,
    TNotNull,
    TUnique,
    TAutoincrement,
    TDefault,
    TDefaultFn,
    TFunc,
>;

/// Builds an integer column with the given name and interpretation mode,
/// with every dimension unset and no accumulated data.
pub fn integer(name: &'static str, mode: SQLiteIntegerMode) -> (c: SQLiteIntegerColumn)
    ensures
        c.base.name@ == name@,
        c.base.mode == mode,
        c.unique_name is None,
        c.default is None,
        c.default_fn is None,
        c.wf(),
{
    SQLiteColumn {
        base: ColumnBaseBuilder { name, mode, data_type: PhantomData, column_type: PhantomData },
        unique_name: None,
        default: None,
        default_fn: None,
        markers: PhantomData,
    }
}

impl<
    N: NotNull,
    U: Unique,
    D: DefaultValue,
    F: DefaultFn,
    TFunc,
> SQLAutoIncrement for SQLiteIntegerColumn<IsPrimary, N, U, NotAutoIncremented, D, F, TFunc> {
    type Value = SQLiteIntegerColumn<IsPrimary, N, U, IsAutoIncremented, D, F, TFunc>;

    open spec fn spec_autoincrement(self) -> Self::Value {
        (SQLiteColumn {
            base: self.base,
            unique_name: self.unique_name,
            default: self.default,
            default_fn: self.default_fn,
            markers: PhantomData,
        })
    }

    fn autoincrement(self) -> (r: Self::Value) {
        SQLiteColumn {
            base: self.base,
            unique_name: self.unique_name,
            default: self.default,
            default_fn: self.default_fn,
            markers: PhantomData,
        }
    }
}

impl<
    P: PrimaryKey,
    N: NotNull,
    U: Unique,
    A: Autoincrement,
    D: DefaultValue,
    F: DefaultFn,
    TFunc,
> Comparable<i64> for SQLiteIntegerColumn<P, N, U, A, D, F, TFunc> {

}

impl<
    P: PrimaryKey,
    N: NotNull,
    U: Unique,
    A: Autoincrement,
    D: DefaultValue,
    F: DefaultFn,
    TFunc,
> Comparable<&i64> for SQLiteIntegerColumn<P, N, U, A, D, F, TFunc> {

}

impl<
    P: PrimaryKey,
    N: NotNull,
    U: Unique,
    A: Autoincrement,
    D: DefaultValue,
    F: DefaultFn,
    TFunc,
> Comparable<Self> for SQLiteIntegerColumn<P, N, U, A, D, F, TFunc> {

}

impl<
    P: PrimaryKey,
    N: NotNull,
    U: Unique,
    A: Autoincrement,
    D: DefaultValue,
    F: DefaultFn,
    TFunc,
> Comparable<Self> for &SQLiteIntegerColumn<P, N, U, A, D, F, TFunc> {

}

} // verus!
