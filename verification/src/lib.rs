//! A statically checked builder for SQLite column declarations.
//!
//! A column starts from a kind constructor (`integer`, `text`, `blob`, ...)
//! and is refined by a chain of transition operations (`primary`, `not_null`,
//! `unique`, `autoincrement`, `default`, `default_fn`).  The progress of that
//! chain is carried in the builder's type, one marker parameter per
//! dimension, so that an illegal sequence of calls does not typecheck.  A
//! finished builder renders to a SQL column-definition fragment, and a
//! comparability relation says which operand types may stand on the other
//! side of a comparison against a column of each kind.

use vstd::prelude::*;

mod blob;
mod builders;
mod columns;
mod common;
mod comparable;
mod integer;
mod laws;
mod render;
mod tags;
mod text;
mod transitions;

pub use blob::blob;
pub use blob::SQLiteBlobColumn;
pub use builders::ColumnBaseBuilder;
pub use columns::SQLiteColumn;
pub use comparable::may_compare;
pub use comparable::native_literal;
pub use comparable::spec_kind_literal;
pub use comparable::spec_may_compare;
pub use comparable::spec_may_compare_columns;
pub use comparable::spec_may_compare_literals;
pub use comparable::ColumnKind;
pub use comparable::Comparable;
pub use comparable::OperandType;
pub use common::Blob;
pub use common::Integer;
pub use common::LogicalType;
pub use common::Real;
pub use common::Text;
pub use integer::integer;
pub use integer::SQLiteIntegerColumn;
pub use integer::SQLiteIntegerMode;
pub use laws::count_char;
pub use laws::has_no_char;
pub use laws::lemma_comparable_cross_directions;
pub use laws::lemma_comparable_reflexive;
pub use laws::lemma_comparable_undeclared_pairs;
pub use laws::lemma_default_mutual_exclusion;
pub use laws::lemma_keywords_wellformed;
pub use laws::lemma_rendered_clauses_exact;
pub use laws::lemma_rendered_name_once;
pub use laws::lemma_rendered_no_unique_clause;
pub use laws::lemma_rendered_wellformed;
pub use laws::rendered_parts;
pub use render::autoincrement_clause;
pub use render::col_parts;
pub use render::col_sql;
pub use render::join_spaced;
pub use render::not_null_clause;
pub use render::primary_key_clause;
pub use render::quoted;
pub use render::unique_clause;
pub use text::text;
pub use text::SQLiteTextColumn;
pub use text::SQLiteTextMode;
pub use tags::Autoincrement;
pub use tags::DefaultFn;
pub use tags::DefaultFnNotSet;
pub use tags::DefaultFnSet;
pub use tags::DefaultNotSet;
pub use tags::DefaultSet;
pub use tags::DefaultValue;
pub use tags::IsAutoIncremented;
pub use tags::IsPrimary;
pub use tags::IsUnique;
pub use tags::NotAutoIncremented;
pub use tags::NotNull;
pub use tags::NotNullable;
pub use tags::NotPrimary;
pub use tags::NotUnique;
pub use tags::Nullable;
pub use tags::PrimaryKey;
pub use tags::Unique;
pub use transitions::ColumnBuilder;
pub use transitions::SQLAutoIncrement;
pub use transitions::SQLDefault;
pub use transitions::SQLDefaultFn;
pub use transitions::SQLNotNull;
pub use transitions::SQLPrimary;
pub use transitions::SQLUnique;

verus! {

/// Renders a value to a fragment of SQL text.  `spec_sql` names the exact
/// text, so rendering is deterministic: identical state yields identical
/// text, and it neither consumes nor mutates the value.
pub trait ToSQL {
    spec fn spec_sql(&self) -> Seq<char>;

    fn to_sql(&self) -> (s: String)
        ensures
            s@ == self.spec_sql(),
    ;
}

/// One syntactic piece of a SQL statement under assembly.
pub enum SQLChunk {
    /// A literal run of SQL text.
    Str(&'static str),
    /// A table reference.
    Table,
    /// A view reference.
    View,
    /// A reference to a column of any kind.
    AnyColumn,
    /// An identifier.
    Name,
    /// A bound parameter.
    Param,
    /// A positional placeholder.
    Placeholder,
    /// An already-assembled statement.
    SQL,
}

/// A placeholder entry point for assembling full statements out of rendered
/// fragments; it computes nothing yet.
pub fn sql<T>() {
}

} // verus!
