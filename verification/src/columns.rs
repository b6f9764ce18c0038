//! The column builder itself, and the transition impls that drive its
//! type-level state machine.

use core::marker::PhantomData;
use vstd::prelude::*;

use crate::builders::ColumnBaseBuilder;
use crate::tags::Autoincrement;
use crate::tags::DefaultFn;
use crate::tags::DefaultFnNotSet;
use crate::tags::DefaultFnSet;
use crate::tags::DefaultNotSet;
use crate::tags::DefaultSet;
use crate::tags::DefaultValue;
use crate::tags::IsPrimary;
use crate::tags::IsUnique;
use crate::tags::NotNull;
use crate::tags::NotNullable;
use crate::tags::NotPrimary;
use crate::tags::NotUnique;
use crate::tags::Nullable;
use crate::tags::PrimaryKey;
use crate::tags::Unique;
use crate::transitions::ColumnBuilder;
use crate::transitions::SQLDefault;
use crate::transitions::SQLDefaultFn;
use crate::transitions::SQLNotNull;
use crate::transitions::SQLPrimary;
use crate::transitions::SQLUnique;

verus! {

/// A column declaration under construction.
///
/// The first three parameters fix the column's kind: its native value type,
/// its SQL-visible logical type and its interpretation mode.  The six marker
/// parameters record, one per dimension, how far the transition chain has
/// progressed; `TFunc` is the type of the stored default-producing function,
/// a placeholder until one is supplied.  The data fields accumulate what the
/// transitions were given, and [`Self::wf`] ties them to the markers.
#[derive(Debug)]
pub struct SQLiteColumn<
    DataType,
    ColumnType,
    DataMode,
    TPrimary,
    TNotNull,
    TUnique,
    TAutoincrement,
    TDefault,
    TDefaultFn,
    TFunc,
> {
    /// The name and the kind-fixed attributes.
    pub base: ColumnBaseBuilder<DataType, ColumnType, DataMode>,
    /// The label of the uniqueness constraint, once one was attached.
    pub unique_name: Option<&'static str>,
    /// The literal default value, once one was supplied.
    pub default: Option<DataType>,
    /// The default-producing function, once one was supplied.
    pub default_fn: Option<TFunc>,
    /// The compile-time record of which dimensions are set.
    pub markers: PhantomData<(TPrimary, TNotNull, TUnique, TAutoincrement, TDefault, TDefaultFn)>,
}

impl<
    DataType,
    ColumnType,
    DataMode,
    TPrimary: PrimaryKey,
    TNotNull: NotNull,
    TUnique: Unique,
    TAutoincrement: Autoincrement,
    TDefault: DefaultValue,
    TDefaultFn: DefaultFn,
    TFunc,
> SQLiteColumn<
    DataType,
    ColumnType,
    DataMode,
    TPrimary,
    TNotNull,
    TUnique,
    TAutoincrement,
    TDefault,
    TDefaultFn,
    TFunc,
> {
    /// A builder is well formed when each data field is present exactly when
    /// the matching type-level tag says the dimension is set, and a literal
    /// and a computed default are never both present.  Kind constructors
    /// establish this, and every transition preserves it.
    pub open spec fn wf(self) -> bool {
        &&& (self.unique_name is Some) <==> TUnique::spec_is_unique()
        &&& (self.default is Some) <==> TDefault::spec_has_default()
        &&& (self.default_fn is Some) <==> TDefaultFn::spec_has_default_fn()
        &&& !(TDefault::spec_has_default() && TDefaultFn::spec_has_default_fn())
    }
}

impl<
    DataType,
    ColumnType,
    DataMode,
    N: NotNull,
    U: Unique,
    A: Autoincrement,
    D: DefaultValue,
    F: DefaultFn,
    TFunc,
> SQLPrimary for SQLiteColumn<DataType, ColumnType, DataMode, NotPrimary, N, U, A, D, F, TFunc> {
    type Value = SQLiteColumn<DataType, ColumnType, DataMode, IsPrimary, N, U, A, D, F, TFunc>;

    open spec fn spec_primary(self) -> Self::Value {
        (SQLiteColumn {
            base: self.base,
            unique_name: self.unique_name,
            default: self.default,
            default_fn: self.default_fn,
            markers: PhantomData,
        })
    }

    fn primary(self) -> (r: Self::Value) {
        SQLiteColumn {
            base: self.base,
            unique_name: self.unique_name,
            default: self.default,
            default_fn: self.default_fn,
            markers: PhantomData,
        }
    }
}

impl<
    DataType,
    ColumnType,
    DataMode,
    P: PrimaryKey,
    U: Unique,
    A: Autoincrement,
    D: DefaultValue,
    F: DefaultFn,
    TFunc,
> SQLNotNull for SQLiteColumn<DataType, ColumnType, DataMode, P, Nullable, U, A, D, F, TFunc> {
    type Value = SQLiteColumn<DataType, ColumnType, DataMode, P, NotNullable, U, A, D, F, TFunc>;

    open spec fn spec_not_null(self) -> Self::Value {
        (SQLiteColumn {
            base: self.base,
            unique_name: self.unique_name,
            default: self.default,
            default_fn: self.default_fn,
            markers: PhantomData,
        })
    }

    fn not_null(self) -> (r: Self::Value) {
        SQLiteColumn {
            base: self.base,
            unique_name: self.unique_name,
            default: self.default,
            default_fn: self.default_fn,
            markers: PhantomData,
        }
    }
}

impl<
    DataType,
    ColumnType,
    DataMode,
    N: NotNull,
    A: Autoincrement,
    D: DefaultValue,
    F: DefaultFn,
    TFunc,
> SQLUnique for SQLiteColumn<DataType, ColumnType, DataMode, NotPrimary, N, NotUnique, A, D, F, TFunc> {
    type Value = SQLiteColumn<DataType, ColumnType, DataMode, NotPrimary, N, IsUnique, A, D, F, TFunc>;

    open spec fn spec_unique(self, name: &'static str) -> Self::Value {
        (SQLiteColumn {
            base: self.base,
            unique_name: Some(name),
            default: self.default,
            default_fn: self.default_fn,
            markers: PhantomData,
        })
    }

    fn unique(self, name: &'static str) -> (r: Self::Value) {
        SQLiteColumn {
            base: self.base,
            unique_name: Some(name),
            default: self.default,
            default_fn: self.default_fn,
            markers: PhantomData,
        }
    }
}

impl<
    DataType,
    ColumnType,
    DataMode,
    P: PrimaryKey,
    N: NotNull,
    U: Unique,
    A: Autoincrement,
    TFunc,
> SQLDefault for SQLiteColumn<
    DataType,
    ColumnType,
    DataMode,
    P,
    N,
    U,
    A,
    DefaultNotSet,
    DefaultFnNotSet,
    TFunc,
> {
    type DataType = DataType;

    type Value = SQLiteColumn<
        DataType,
        ColumnType,
        DataMode,
        P,
        N,
        U,
        A,
        DefaultSet,
        DefaultFnNotSet,
        TFunc,
    >;

    open spec fn spec_default(self, value: DataType) -> Self::Value {
        (SQLiteColumn {
            base: self.base,
            unique_name: self.unique_name,
            default: Some(value),
            default_fn: self.default_fn,
            markers: PhantomData,
        })
    }

    fn default(self, value: DataType) -> (r: Self::Value) {
        SQLiteColumn {
            base: self.base,
            unique_name: self.unique_name,
            default: Some(value),
            default_fn: self.default_fn,
            markers: PhantomData,
        }
    }
}

impl<
    DataType,
    ColumnType,
    DataMode,
    P: PrimaryKey,
    N: NotNull,
    U: Unique,
    A: Autoincrement,
    TFunc,
    Fun,
> SQLDefaultFn<Fun> for SQLiteColumn<
    DataType,
    ColumnType,
    DataMode,
    P,
    N,
    U,
    A,
    DefaultNotSet,
    DefaultFnNotSet,
    TFunc,
> {
    type Value = SQLiteColumn<
        DataType,
        ColumnType,
        DataMode,
        P,
        N,
        U,
        A,
        DefaultNotSet,
        DefaultFnSet,
        Fun,
    >;

    open spec fn spec_default_fn(self, fun: Fun) -> Self::Value {
        (SQLiteColumn {
            base: self.base,
            unique_name: self.unique_name,
            default: None,
            default_fn: Some(fun),
            markers: PhantomData,
        })
    }

    fn default_fn(self, fun: Fun) -> (r: Self::Value) {
        SQLiteColumn {
            base: self.base,
            unique_name: self.unique_name,
            default: None,
            default_fn: Some(fun),
            markers: PhantomData,
        }
    }
}

impl<
    DataType,
    ColumnType,
    DataMode,
    TPrimary: PrimaryKey,
    TNotNull: NotNull,
    TUnique: Unique,
    TAutoincrement: Autoincrement,
    TDefault: DefaultValue,
    TDefaultFn: DefaultFn,
    TFunc,
> ColumnBuilder for SQLiteColumn<
    DataType,
    ColumnType,
    DataMode,
    TPrimary,
    TNotNull,
    TUnique,
    TAutoincrement,
    TDefault,
    TDefaultFn,
    TFunc,
> {
    open spec fn spec_name(&self) -> Seq<char> {
        self.base.name@
    }

    fn name(&self) -> (r: &str) {
        self.base.name
    }

    fn build(self) -> (r: Self) {
        self
    }
}

} // verus!
