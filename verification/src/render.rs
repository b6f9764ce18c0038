//! The SQL renderer: the exact text a finished builder renders to, as a
//! specification, and the verified executable rendering.
//!
//! The rendered fragment is `"<name>" <KEYWORD> [PRIMARY KEY]
//! [AUTOINCREMENT] [NOT NULL]`, the parts joined by single spaces.
//! `PRIMARY KEY` is emitted only when the column is a primary key and does
//! not already carry a uniqueness constraint, so a column never carries two
//! constraint clauses at once.  The uniqueness and default dimensions are
//! tracked in the builder for consumers that need them, but deliberately
//! contribute no clause of their own to the rendered text.

use vstd::prelude::*;

use crate::columns::SQLiteColumn;
use crate::common::LogicalType;
use crate::tags::Autoincrement;
use crate::tags::DefaultFn;
use crate::tags::DefaultValue;
use crate::tags::NotNull;
use crate::tags::PrimaryKey;
use crate::tags::Unique;
use crate::ToSQL;

verus! {

/// The column's name between double quotes.
pub open spec fn quoted(name: Seq<char>) -> Seq<char> {
    seq!['"'] + name + seq!['"']
}

/// The text of the primary-key clause.
pub open spec fn primary_key_clause() -> Seq<char> {
    "PRIMARY KEY"@
}

/// The text of the autoincrement clause.
pub open spec fn autoincrement_clause() -> Seq<char> {
    "AUTOINCREMENT"@
}

/// The text of the not-null clause.
pub open spec fn not_null_clause() -> Seq<char> {
    "NOT NULL"@
}

/// The text a uniqueness constraint would render to.  The renderer tracks
/// uniqueness but deliberately emits no such clause, and the laws state
/// that none ever appears.
pub open spec fn unique_clause() -> Seq<char> {
    "UNIQUE"@
}

/// The parts of the rendered fragment, in order: the quoted name, the
/// logical type keyword, then one part per emitted clause.
pub open spec fn col_parts(
    name: Seq<char>,
    keyword: Seq<char>,
    primary: bool,
    unique: bool,
    autoincrement: bool,
    not_null: bool,
) -> Seq<Seq<char>> {
    let with_type = seq![quoted(name), keyword];
    let with_primary = if primary && !unique {
        with_type.push(primary_key_clause())
    } else {
        with_type
    };
    let with_auto = if autoincrement {
        with_primary.push(autoincrement_clause())
    } else {
        with_primary
    };
    if not_null {
        with_auto.push(not_null_clause())
    } else {
        with_auto
    }
}

/// The parts joined by single spaces.
pub open spec fn join_spaced(parts: Seq<Seq<char>>) -> Seq<char>
    decreases parts.len(),
{
    if parts.len() <= 0 {
        Seq::empty()
    } else if parts.len() == 1 {
        parts[0]
    } else {
        parts[0] + seq![' '] + join_spaced(parts.drop_first())
    }
}

/// The whole rendered fragment for a column with the given name, logical
/// type keyword and dimension values.
pub open spec fn col_sql(
    name: Seq<char>,
    keyword: Seq<char>,
    primary: bool,
    unique: bool,
    autoincrement: bool,
    not_null: bool,
) -> Seq<char> {
    join_spaced(col_parts(name, keyword, primary, unique, autoincrement, not_null))
}

/// Appending one more part extends the joined text by a space and that
/// part.
pub proof fn lemma_join_spaced_push(parts: Seq<Seq<char>>, part: Seq<char>)
    requires
        parts.len() >= 1,
    ensures
        join_spaced(parts.push(part)) == join_spaced(parts) + seq![' '] + part,
    decreases parts.len(),
{
    let pushed = parts.push(part);
    if parts.len() == 1 {
        assert(pushed.drop_first() =~= seq![part]);
        assert(join_spaced(seq![part]) == part);
        assert(join_spaced(pushed) == pushed[0] + seq![' '] + join_spaced(pushed.drop_first()));
        assert(join_spaced(pushed) =~= join_spaced(parts) + seq![' '] + part);
    } else {
        assert(pushed.drop_first() =~= parts.drop_first().push(part));
        lemma_join_spaced_push(parts.drop_first(), part);
        assert(join_spaced(pushed) =~= join_spaced(parts) + seq![' '] + part);
    }
}

impl<
    DataType,
    ColumnType: LogicalType,
    DataMode,
    TPrimary: PrimaryKey,
    TNotNull: NotNull,
    TUnique: Unique,
    TAutoincrement: Autoincrement,
    TDefault: DefaultValue,
    TDefaultFn: DefaultFn,
    TFunc,
> ToSQL for SQLiteColumn<
    DataType,
    ColumnType,
    DataMode,
    TPrimary,
    TNotNull,
    TUnique,
    TAutoincrement,
    TDefault,
    TDefaultFn,
    TFunc,
> {
    open spec fn spec_sql(&self) -> Seq<char> {
        col_sql(
            self.base.name@,
            ColumnType::spec_keyword(),
            TPrimary::spec_is_primary(),
            TUnique::spec_is_unique(),
            TAutoincrement::spec_is_autoincrement(),
            TNotNull::spec_is_not_null(),
        )
    }

    fn to_sql(&self) -> (s: String) {
        let ghost with_type: Seq<Seq<char>> = seq![
            quoted(self.base.name@),
            ColumnType::spec_keyword(),
        ];
        let mut s = String::new();
        s.append("\"");
        s.append(self.base.name);
        s.append("\"");
        s.append(" ");
        s.append(ColumnType::keyword());
        proof {
            reveal_strlit("\"");
            reveal_strlit(" ");
            assert(s@ =~= quoted(self.base.name@) + seq![' '] + ColumnType::spec_keyword());
            assert(with_type.drop_first() =~= seq![ColumnType::spec_keyword()]);
            assert(join_spaced(seq![ColumnType::spec_keyword()]) == ColumnType::spec_keyword());
            assert(join_spaced(with_type) == with_type[0] + seq![' '] + join_spaced(
                with_type.drop_first(),
            ));
            assert(s@ =~= join_spaced(with_type));
        }
        if TPrimary::is_primary() && !TUnique::is_unique() {
            s.append(" ");
            s.append("PRIMARY KEY");
        }
        let ghost with_primary = if TPrimary::spec_is_primary() && !TUnique::spec_is_unique() {
            with_type.push(primary_key_clause())
        } else {
            with_type
        };
        proof {
            if TPrimary::spec_is_primary() && !TUnique::spec_is_unique() {
                reveal_strlit(" ");
                lemma_join_spaced_push(with_type, primary_key_clause());
                assert(s@ =~= join_spaced(with_primary));
            }
        }
        if TAutoincrement::is_autoincrement() {
            s.append(" ");
            s.append("AUTOINCREMENT");
        }
        let ghost with_auto = if TAutoincrement::spec_is_autoincrement() {
            with_primary.push(autoincrement_clause())
        } else {
            with_primary
        };
        proof {
            if TAutoincrement::spec_is_autoincrement() {
                reveal_strlit(" ");
                lemma_join_spaced_push(with_primary, autoincrement_clause());
                assert(s@ =~= join_spaced(with_auto));
            }
        }
        if TNotNull::is_not_null() {
            s.append(" ");
            s.append("NOT NULL");
        }
        let ghost with_not_null = if TNotNull::spec_is_not_null() {
            with_auto.push(not_null_clause())
        } else {
            with_auto
        };
        proof {
            if TNotNull::spec_is_not_null() {
                reveal_strlit(" ");
                lemma_join_spaced_push(with_auto, not_null_clause());
                assert(s@ =~= join_spaced(with_not_null));
            }
            assert(with_not_null == col_parts(
                self.base.name@,
                ColumnType::spec_keyword(),
                TPrimary::spec_is_primary(),
                TUnique::spec_is_unique(),
                TAutoincrement::spec_is_autoincrement(),
                TNotNull::spec_is_not_null(),
            ));
        }
        s
    }
}

} // verus!
