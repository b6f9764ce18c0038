//! The text column kind: UTF-8 text values, logical type `TEXT`.

use core::marker::PhantomData;
use vstd::prelude::*;

use crate::builders::ColumnBaseBuilder;
use crate::columns::SQLiteColumn;
use crate::common::Text;
use crate::tags::Autoincrement;
use crate::tags::DefaultFn;
use crate::tags::DefaultFnNotSet;
use crate::tags::DefaultNotSet;
use crate::tags::DefaultValue;
use crate::tags::NotAutoIncremented;
use crate::tags::NotNull;
use crate::tags::NotPrimary;
use crate::tags::NotUnique;
use crate::tags::Nullable;
use crate::tags::PrimaryKey;
use crate::tags::Unique;
use crate::Comparable;

verus! {

/// How the stored text is to be interpreted.
#[derive(Clone, Copy, Debug, Default)]
pub enum SQLiteTextMode {
    /// A plain string.
    #[default]
    String,
    /// A value of a closed, enumerated vocabulary.
    Enum,
    /// A JSON-encoded document.
    JSON,
}

/// A text column builder; the defaults name the all-unset state a kind
/// constructor returns.  Text columns never autoincrement.
pub type SQLiteTextColumn<
    TPrimary = NotPrimary,
    TNotNull = Nullable,
    TUnique = NotUnique,
    TDefault = DefaultNotSet,
    TDefaultFn = DefaultFnNotSet,
    TFunc = (),
> = SQLiteColumn<
    String,
    Text,
    SQLiteTextMode,
    TPrimary,
    TNotNull,
    TUnique,
    NotAutoIncremented,
    TDefault,
    TDefaultFn,
    TFunc,
>;

/// Builds a text column with the given name and interpretation mode, with
/// every dimension unset and no accumulated data.
pub fn text(name: &'static str, mode: SQLiteTextMode) -> (c: SQLiteTextColumn)
    ensures
        c.base.name@ == name@,
        c.base.mode == mode,
        c.unique_name is None,
        c.default is None,
        c.default_fn is None,
        c.wf(),
{
    SQLiteColumn {
        base: ColumnBaseBuilder { name, mode, data_type: PhantomData, column_type: PhantomData },
        unique_name: None,
        default: None,
        default_fn: None,
        markers: PhantomData,
    }
}

impl<
    P: PrimaryKey,
    N: NotNull,
    U: Unique,
    D: DefaultValue,
    F: DefaultFn,
    TFunc,
> Comparable<String> for SQLiteTextColumn<P, N, U, D, F, TFunc> {

}

impl<
    P: PrimaryKey,
    N: NotNull,
    U: Unique,
    D: DefaultValue,
    F: DefaultFn,
    TFunc,
> Comparable<&String> for SQLiteTextColumn<P, N, U, D, F, TFunc> {

}

impl<
    P: PrimaryKey,
    N: NotNull,
    U: Unique,
    D: DefaultValue,
    F: DefaultFn,
    TFunc,
> Comparable<&str> for SQLiteTextColumn<P, N, U, D, F, TFunc> {

}

impl<
    P: PrimaryKey,
    N: NotNull,
    U: Unique,
    D: DefaultValue,
    F: DefaultFn,
    TFunc,
> Comparable<Self> for SQLiteTextColumn<P, N, U, D, F, TFunc> {

}

impl<
    P: PrimaryKey,
    N: NotNull,
    U: Unique,
    D: DefaultValue,
    F: DefaultFn,
    TFunc,
> Comparable<Self> for &SQLiteTextColumn<P, N, U, D, F, TFunc> {

}

} // verus!
