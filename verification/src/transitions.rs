//! The transition operations, one trait per dimension.
//!
//! Each trait is implemented only by builder types whose corresponding
//! dimension is still unset, so a sequence of calls that would set a
//! dimension twice — or set both a literal and a computed default — does not
//! typecheck.  Each transition consumes the builder and returns a new one
//! whose type records the dimension as set; `spec_*` names the exact value
//! the transition returns, so callers can reason about every field of the
//! result.

use vstd::prelude::*;

verus! {

/// Marks the column as the table's primary key.  This deliberately does
/// not mark the column `NOT NULL`: nullability is an independent
/// dimension, set separately by [`SQLNotNull::not_null`].
pub trait SQLPrimary: Sized {
    type Value;

    spec fn spec_primary(self) -> Self::Value;

    fn primary(self) -> (r: Self::Value)
        ensures
            r == self.spec_primary(),
    ;
}

/// Marks the column `NOT NULL`.
pub trait SQLNotNull: Sized {
    type Value;

    spec fn spec_not_null(self) -> Self::Value;

    fn not_null(self) -> (r: Self::Value)
        ensures
            r == self.spec_not_null(),
    ;
}

/// Attaches a named `UNIQUE` constraint to the column.  The name is an
/// opaque label and is not validated here.
pub trait SQLUnique: Sized {
    type Value;

    spec fn spec_unique(self, name: &'static str) -> Self::Value;

    fn unique(self, name: &'static str) -> (r: Self::Value)
        ensures
            r == self.spec_unique(name),
    ;
}

/// Supplies a literal default value of the column's native type.  The
/// operation exists only while neither a literal nor a computed default has
/// been supplied, so the two stay mutually exclusive.
pub trait SQLDefault: Sized {
    type DataType;

    type Value;

    spec fn spec_default(self, value: Self::DataType) -> Self::Value;

    fn default(self, value: Self::DataType) -> (r: Self::Value)
        ensures
            r == self.spec_default(value),
    ;
}

/// Supplies a default-producing function: a zero-argument, repeatable
/// computation expected to yield the column's native type or a
/// caller-defined error.  The builder only stores the function — it is
/// invoked, and its failure handled, by whatever later consumes the default.
/// As with [`SQLDefault`], the operation exists only while no default of
/// either sort has been supplied.
pub trait SQLDefaultFn<F>: Sized {
    type Value;

    spec fn spec_default_fn(self, fun: F) -> Self::Value;

    fn default_fn(self, fun: F) -> (r: Self::Value)
        ensures
            r == self.spec_default_fn(fun),
    ;
}

/// Marks the column `AUTOINCREMENT`.  Only the integer kind's builder — and
/// only once it is a primary key — implements this trait.
pub trait SQLAutoIncrement: Sized {
    type Value;

    spec fn spec_autoincrement(self) -> Self::Value;

    fn autoincrement(self) -> (r: Self::Value)
        ensures
            r == self.spec_autoincrement(),
    ;
}

/// The narrow capability a table assembler needs from a finished column:
/// its name, and the builder value itself.
pub trait ColumnBuilder: Sized {
    spec fn spec_name(&self) -> Seq<char>;

    fn name(&self) -> (r: &str)
        ensures
            r@ == self.spec_name(),
    ;

    fn build(self) -> (r: Self)
        ensures
            r == self,
    ;
}

} // verus!
