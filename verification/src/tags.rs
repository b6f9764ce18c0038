//! The state-tag vocabulary: one trait per builder dimension, and one
//! zero-sized marker type per value of that dimension.
//!
//! The markers carry no data.  They exist so that a builder's type records
//! which dimensions have been set, and each trait exposes that truth value
//! both to specifications (`spec fn`) and to executable code.

use vstd::prelude::*;

verus! {

/// The primary-key dimension: has the column been marked `PRIMARY KEY`?
pub trait PrimaryKey: Sized {
    spec fn spec_is_primary() -> bool;

    fn is_primary() -> (b: bool)
        ensures
            b == Self::spec_is_primary(),
    ;
}

/// The column was marked as the table's primary key.
#[derive(Clone, Copy, Debug, Default)]
pub struct IsPrimary;

impl PrimaryKey for IsPrimary {
    open spec fn spec_is_primary() -> bool {
        true
    }

    fn is_primary() -> bool {
        true
    }
}

/// The column was not (yet) marked as a primary key.
#[derive(Clone, Copy, Debug, Default)]
pub struct NotPrimary;

impl PrimaryKey for NotPrimary {
    open spec fn spec_is_primary() -> bool {
        false
    }

    fn is_primary() -> bool {
        false
    }
}

/// The nullability dimension: has the column been marked `NOT NULL`?
pub trait NotNull: Sized {
    spec fn spec_is_not_null() -> bool;

    fn is_not_null() -> (b: bool)
        ensures
            b == Self::spec_is_not_null(),
    ;
}

/// The column was marked `NOT NULL`.
#[derive(Clone, Copy, Debug, Default)]
pub struct NotNullable;

impl NotNull for NotNullable {
    open spec fn spec_is_not_null() -> bool {
        true
    }

    fn is_not_null() -> bool {
        true
    }
}

/// The column may hold null values.
#[derive(Clone, Copy, Debug, Default)]
pub struct Nullable;

impl NotNull for Nullable {
    open spec fn spec_is_not_null() -> bool {
        false
    }

    fn is_not_null() -> bool {
        false
    }
}

/// The uniqueness dimension: does the column carry a named `UNIQUE`
/// constraint?
pub trait Unique: Sized {
    spec fn spec_is_unique() -> bool;

    fn is_unique() -> (b: bool)
        ensures
            b == Self::spec_is_unique(),
    ;
}

/// The column carries a named uniqueness constraint.
#[derive(Clone, Copy, Debug, Default)]
pub struct IsUnique;

impl Unique for IsUnique {
    open spec fn spec_is_unique() -> bool {
        true
    }

    fn is_unique() -> bool {
        true
    }
}

/// The column carries no uniqueness constraint.
#[derive(Clone, Copy, Debug, Default)]
pub struct NotUnique;

impl Unique for NotUnique {
    open spec fn spec_is_unique() -> bool {
        false
    }

    fn is_unique() -> bool {
        false
    }
}

/// The autoincrement dimension, meaningful only for integer columns.
pub trait Autoincrement: Sized {
    spec fn spec_is_autoincrement() -> bool;

    fn is_autoincrement() -> (b: bool)
        ensures
            b == Self::spec_is_autoincrement(),
    ;
}

/// The column was marked `AUTOINCREMENT`.
#[derive(Clone, Copy, Debug, Default)]
pub struct IsAutoIncremented;

impl Autoincrement for IsAutoIncremented {
    open spec fn spec_is_autoincrement() -> bool {
        true
    }

    fn is_autoincrement() -> bool {
        true
    }
}

/// The column was not marked `AUTOINCREMENT`.
#[derive(Clone, Copy, Debug, Default)]
pub struct NotAutoIncremented;

impl Autoincrement for NotAutoIncremented {
    open spec fn spec_is_autoincrement() -> bool {
        false
    }

    fn is_autoincrement() -> bool {
        false
    }
}

/// The literal-default dimension: was a default value supplied?
pub trait DefaultValue: Sized {
    spec fn spec_has_default() -> bool;

    fn has_default() -> (b: bool)
        ensures
            b == Self::spec_has_default(),
    ;
}

/// A literal default value was supplied.
#[derive(Clone, Copy, Debug, Default)]
pub struct DefaultSet;

impl DefaultValue for DefaultSet {
    open spec fn spec_has_default() -> bool {
        true
    }

    fn has_default() -> bool {
        true
    }
}

/// No literal default value was supplied.
#[derive(Clone, Copy, Debug, Default)]
pub struct DefaultNotSet;

impl DefaultValue for DefaultNotSet {
    open spec fn spec_has_default() -> bool {
        false
    }

    fn has_default() -> bool {
        false
    }
}

/// The computed-default dimension: was a default-producing function
/// supplied?
pub trait DefaultFn: Sized {
    spec fn spec_has_default_fn() -> bool;

    fn has_default_fn() -> (b: bool)
        ensures
            b == Self::spec_has_default_fn(),
    ;
}

/// A default-producing function was supplied.
#[derive(Clone, Copy, Debug, Default)]
pub struct DefaultFnSet;

impl DefaultFn for DefaultFnSet {
    open spec fn spec_has_default_fn() -> bool {
        true
    }

    fn has_default_fn() -> bool {
        true
    }
}

/// No default-producing function was supplied.
#[derive(Clone, Copy, Debug, Default)]
pub struct DefaultFnNotSet;

impl DefaultFn for DefaultFnNotSet {
    open spec fn spec_has_default_fn() -> bool {
        false
    }

    fn has_default_fn() -> bool {
        false
    }
}

} // verus!
