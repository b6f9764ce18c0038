//! The base column record: the name and the kind-fixed attributes.

use core::marker::PhantomData;
use vstd::prelude::*;

verus! {

/// The part of a column declaration that is fixed by the kind constructor
/// and never changes across transitions: the column's name, its
/// interpretation mode, and — purely at the type level — its native value
/// type and its SQL-visible logical type.
#[derive(Debug)]
pub struct ColumnBaseBuilder<DataType, ColumnType, DataMode> {
    /// The column's identifier, quoted verbatim into the rendered SQL.
    pub name: &'static str,
    /// An optional refinement of how values of the column are interpreted
    /// (for example, an integer column that stands for a timestamp).
    pub mode: DataMode,
    /// The native in-memory value type, tracked at the type level only.
    pub data_type: PhantomData<DataType>,
    /// The SQL-visible logical type, tracked at the type level only.
    pub column_type: PhantomData<ColumnType>,
}

} // verus!
