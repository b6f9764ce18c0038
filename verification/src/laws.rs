//! The library's laws, stated and proved once for every column kind, every
//! builder state and every legal transition sequence.

use vstd::prelude::*;

use crate::columns::SQLiteColumn;
use crate::common::Blob;
use crate::common::Integer;
use crate::common::LogicalType;
use crate::common::Real;
use crate::common::Text;
use crate::comparable::native_literal;
use crate::comparable::spec_may_compare;
use crate::comparable::ColumnKind;
use crate::comparable::OperandType;
use crate::render::autoincrement_clause;
use crate::render::col_parts;
use crate::render::col_sql;
use crate::render::join_spaced;
use crate::render::not_null_clause;
use crate::render::primary_key_clause;
use crate::render::quoted;
use crate::render::unique_clause;
use crate::tags::Autoincrement;
use crate::ToSQL;
use crate::tags::DefaultFn;
use crate::tags::DefaultValue;
use crate::tags::NotNull;
use crate::tags::PrimaryKey;
use crate::tags::Unique;

verus! {

/// How often a character occurs in a sequence.
pub open spec fn count_char(s: Seq<char>, c: char) -> nat
    decreases s.len(),
{
    if s.len() == 0 {
        0
    } else {
        (if s[0] == c {
            1nat
        } else {
            0nat
        }) + count_char(s.drop_first(), c)
    }
}

/// The character does not occur in the sequence.
pub open spec fn has_no_char(s: Seq<char>, c: char) -> bool {
    forall|i: int| 0 <= i < s.len() ==> s[i] != c
}

/// Occurrence counts add up over concatenation.
pub proof fn lemma_count_char_concat(a: Seq<char>, b: Seq<char>, c: char)
    ensures
        count_char(a + b, c) == count_char(a, c) + count_char(b, c),
    decreases a.len(),
{
    if a.len() == 0 {
        assert(a + b =~= b);
    } else {
        assert((a + b).drop_first() =~= a.drop_first() + b);
        assert((a + b)[0] == a[0]);
        lemma_count_char_concat(a.drop_first(), b, c);
    }
}

/// A sequence without the character has count zero.
pub proof fn lemma_count_char_absent(s: Seq<char>, c: char)
    requires
        has_no_char(s, c),
    ensures
        count_char(s, c) == 0,
    decreases s.len(),
{
    if s.len() > 0 {
        assert(forall|i: int| 0 <= i < s.drop_first().len() ==> s.drop_first()[i] == s[i + 1]);
        lemma_count_char_absent(s.drop_first(), c);
    }
}

/// Concatenation preserves the absence of a character.
pub proof fn lemma_no_char_concat(a: Seq<char>, b: Seq<char>, c: char)
    requires
        has_no_char(a, c),
        has_no_char(b, c),
    ensures
        has_no_char(a + b, c),
{
    assert forall|i: int| 0 <= i < (a + b).len() implies (a + b)[i] != c by {
        if i < a.len() {
            assert((a + b)[i] == a[i]);
        } else {
            assert((a + b)[i] == b[i - a.len()]);
        }
    }
}

/// Joining parts that are all free of a character yields text free of it,
/// as long as the character is not the joining space itself.
pub proof fn lemma_join_no_char(parts: Seq<Seq<char>>, c: char)
    requires
        c != ' ',
        forall|i: int| 0 <= i < parts.len() ==> has_no_char(#[trigger] parts[i], c),
    ensures
        has_no_char(join_spaced(parts), c),
    decreases parts.len(),
{
    if parts.len() > 1 {
        assert(forall|i: int|
            0 <= i < parts.drop_first().len() ==> parts.drop_first()[i] == parts[i + 1]);
        lemma_join_no_char(parts.drop_first(), c);
        assert(has_no_char(seq![' '], c));
        lemma_no_char_concat(parts[0], seq![' '], c);
        lemma_no_char_concat(parts[0] + seq![' '], join_spaced(parts.drop_first()), c);
    }
}

/// The joined text begins with the first part.
pub proof fn lemma_join_prefix(parts: Seq<Seq<char>>)
    requires
        parts.len() >= 1,
    ensures
        join_spaced(parts).len() >= parts[0].len(),
        join_spaced(parts).subrange(0, parts[0].len() as int) == parts[0],
{
    if parts.len() == 1 {
        assert(join_spaced(parts).subrange(0, parts[0].len() as int) =~= parts[0]);
    } else {
        assert(join_spaced(parts) == parts[0] + seq![' '] + join_spaced(parts.drop_first()));
        assert(join_spaced(parts).subrange(0, parts[0].len() as int) =~= parts[0]);
    }
}

/// Membership in a pushed sequence.
pub proof fn lemma_push_contains(parts: Seq<Seq<char>>, part: Seq<char>, x: Seq<char>)
    ensures
        parts.push(part).contains(x) <==> parts.contains(x) || x == part,
{
    let pushed = parts.push(part);
    if pushed.contains(x) {
        let i = choose|i: int| 0 <= i < pushed.len() && pushed[i] == x;
        if i < parts.len() {
            assert(parts[i] == x);
        }
    }
    if parts.contains(x) {
        let i = choose|i: int| 0 <= i < parts.len() && parts[i] == x;
        assert(pushed[i] == x);
    }
    if x == part {
        assert(pushed[parts.len() as int] == x);
    }
}

/// Membership in a two-element sequence.
pub proof fn lemma_two_contains(a: Seq<char>, b: Seq<char>, x: Seq<char>)
    ensures
        seq![a, b].contains(x) <==> x == a || x == b,
{
    let pair = seq![a, b];
    if pair.contains(x) {
        let i = choose|i: int| 0 <= i < pair.len() && pair[i] == x;
        assert(i == 0 || i == 1);
    }
    if x == a {
        assert(pair[0] == x);
    }
    if x == b {
        assert(pair[1] == x);
    }
}

/// The three emitted clause texts, and the never-emitted uniqueness clause,
/// are pairwise distinct, and none of them is a quoted name.
proof fn lemma_clauses_distinct(name: Seq<char>)
    ensures
        quoted(name) != primary_key_clause(),
        quoted(name) != autoincrement_clause(),
        quoted(name) != not_null_clause(),
        quoted(name) != unique_clause(),
        primary_key_clause() != autoincrement_clause(),
        primary_key_clause() != not_null_clause(),
        autoincrement_clause() != not_null_clause(),
        unique_clause() != primary_key_clause(),
        unique_clause() != autoincrement_clause(),
        unique_clause() != not_null_clause(),
{
    reveal_strlit("PRIMARY KEY");
    reveal_strlit("AUTOINCREMENT");
    reveal_strlit("NOT NULL");
    reveal_strlit("UNIQUE");
    assert(quoted(name)[0] == '"');
    assert(primary_key_clause().len() == 11);
    assert(autoincrement_clause().len() == 13);
    assert(not_null_clause().len() == 8);
    assert(unique_clause().len() == 6);
    assert(primary_key_clause()[0] == 'P');
    assert(autoincrement_clause()[0] == 'A');
    assert(not_null_clause()[0] == 'N');
    assert(unique_clause()[0] == 'U');
}

/// Law: the rendered parts start with the quoted name and the logical type
/// keyword, and carry a clause exactly when its dimension is set — never a
/// clause for a dimension that was never transitioned.  `PRIMARY KEY`
/// counts as set only for a primary key without a uniqueness constraint.
pub proof fn lemma_rendered_clauses_exact(
    name: Seq<char>,
    keyword: Seq<char>,
    primary: bool,
    unique: bool,
    autoincrement: bool,
    not_null: bool,
)
    requires
        keyword != primary_key_clause(),
        keyword != autoincrement_clause(),
        keyword != not_null_clause(),
    ensures
        col_parts(name, keyword, primary, unique, autoincrement, not_null)[0] == quoted(name),
        col_parts(name, keyword, primary, unique, autoincrement, not_null)[1] == keyword,
        col_parts(name, keyword, primary, unique, autoincrement, not_null).contains(
            primary_key_clause(),
        ) <==> (primary && !unique),
        col_parts(name, keyword, primary, unique, autoincrement, not_null).contains(
            autoincrement_clause(),
        ) <==> autoincrement,
        col_parts(name, keyword, primary, unique, autoincrement, not_null).contains(
            not_null_clause(),
        ) <==> not_null,
{
    lemma_clauses_distinct(name);
    let with_type = seq![quoted(name), keyword];
    let with_primary = if primary && !unique {
        with_type.push(primary_key_clause())
    } else {
        with_type
    };
    let with_auto = if autoincrement {
        with_primary.push(autoincrement_clause())
    } else {
        with_primary
    };
    lemma_two_contains(quoted(name), keyword, primary_key_clause());
    lemma_two_contains(quoted(name), keyword, autoincrement_clause());
    lemma_two_contains(quoted(name), keyword, not_null_clause());
    if primary && !unique {
        lemma_push_contains(with_type, primary_key_clause(), primary_key_clause());
        lemma_push_contains(with_type, primary_key_clause(), autoincrement_clause());
        lemma_push_contains(with_type, primary_key_clause(), not_null_clause());
    }
    if autoincrement {
        lemma_push_contains(with_primary, autoincrement_clause(), primary_key_clause());
        lemma_push_contains(with_primary, autoincrement_clause(), autoincrement_clause());
        lemma_push_contains(with_primary, autoincrement_clause(), not_null_clause());
    }
    if not_null {
        lemma_push_contains(with_auto, not_null_clause(), primary_key_clause());
        lemma_push_contains(with_auto, not_null_clause(), autoincrement_clause());
        lemma_push_contains(with_auto, not_null_clause(), not_null_clause());
    }
}

/// Law: whatever the builder's state, the rendered parts never carry a
/// uniqueness clause — in particular never more than one.
pub proof fn lemma_rendered_no_unique_clause(
    name: Seq<char>,
    keyword: Seq<char>,
    primary: bool,
    unique: bool,
    autoincrement: bool,
    not_null: bool,
)
    requires
        keyword != unique_clause(),
    ensures
        !col_parts(name, keyword, primary, unique, autoincrement, not_null).contains(
            unique_clause(),
        ),
{
    lemma_clauses_distinct(name);
    let with_type = seq![quoted(name), keyword];
    let with_primary = if primary && !unique {
        with_type.push(primary_key_clause())
    } else {
        with_type
    };
    let with_auto = if autoincrement {
        with_primary.push(autoincrement_clause())
    } else {
        with_primary
    };
    lemma_two_contains(quoted(name), keyword, unique_clause());
    if primary && !unique {
        lemma_push_contains(with_type, primary_key_clause(), unique_clause());
    }
    if autoincrement {
        lemma_push_contains(with_primary, autoincrement_clause(), unique_clause());
    }
    if not_null {
        lemma_push_contains(with_auto, not_null_clause(), unique_clause());
    }
}

/// Every element of the rendered parts is the quoted name, the keyword, or
/// one of the three emitted clause texts.
proof fn lemma_col_parts_elems(
    name: Seq<char>,
    keyword: Seq<char>,
    primary: bool,
    unique: bool,
    autoincrement: bool,
    not_null: bool,
)
    ensures
        forall|i: int|
            0 <= i < col_parts(name, keyword, primary, unique, autoincrement, not_null).len()
                ==> {
                let e = #[trigger] col_parts(
                    name,
                    keyword,
                    primary,
                    unique,
                    autoincrement,
                    not_null,
                )[i];
                e == quoted(name) || e == keyword || e == primary_key_clause() || e
                    == autoincrement_clause() || e == not_null_clause()
            },
{
}

/// Law: the rendered text begins with the quoted name, the keyword follows
/// it after a single space, and — for a name and keyword free of double
/// quotes — the quote character occurs exactly twice, so the quoted name
/// occurs exactly once.
pub proof fn lemma_rendered_name_once(
    name: Seq<char>,
    keyword: Seq<char>,
    primary: bool,
    unique: bool,
    autoincrement: bool,
    not_null: bool,
)
    requires
        has_no_char(name, '"'),
        has_no_char(keyword, '"'),
    ensures
        col_sql(name, keyword, primary, unique, autoincrement, not_null).len() >= name.len() + 2,
        col_sql(name, keyword, primary, unique, autoincrement, not_null).subrange(
            0,
            name.len() as int + 2,
        ) == quoted(name),
        col_sql(name, keyword, primary, unique, autoincrement, not_null).subrange(
            name.len() as int + 3,
            name.len() as int + 3 + keyword.len(),
        ) == keyword,
        count_char(col_sql(name, keyword, primary, unique, autoincrement, not_null), '"') == 2,
{
    let parts = col_parts(name, keyword, primary, unique, autoincrement, not_null);
    let rest = parts.drop_first();
    let sql = col_sql(name, keyword, primary, unique, autoincrement, not_null);
    assert(parts.len() >= 2);
    assert(parts[0] == quoted(name));
    assert(sql == quoted(name) + seq![' '] + join_spaced(rest));

    assert(sql.subrange(0, name.len() as int + 2) =~= quoted(name));

    lemma_join_prefix(rest);
    assert(rest[0] == keyword);
    assert(sql.subrange(name.len() as int + 3, name.len() as int + 3 + keyword.len()) =~= join_spaced(
        rest,
    ).subrange(0, keyword.len() as int));

    reveal_strlit("PRIMARY KEY");
    reveal_strlit("AUTOINCREMENT");
    reveal_strlit("NOT NULL");
    assert(has_no_char(primary_key_clause(), '"'));
    assert(has_no_char(autoincrement_clause(), '"'));
    assert(has_no_char(not_null_clause(), '"'));
    lemma_col_parts_elems(name, keyword, primary, unique, autoincrement, not_null);
    assert(forall|i: int| 0 <= i < rest.len() ==> rest[i] == parts[i + 1]);
    assert(forall|i: int| 0 <= i < rest.len() ==> has_no_char(#[trigger] rest[i], '"'));
    lemma_join_no_char(rest, '"');
    lemma_count_char_absent(join_spaced(rest), '"');

    assert(count_char(seq!['"'], '"') == 1) by {
        assert(seq!['"'].drop_first() =~= Seq::<char>::empty());
        assert(count_char(Seq::<char>::empty(), '"') == 0);
    }
    assert(count_char(seq![' '], '"') == 0) by {
        assert(seq![' '].drop_first() =~= Seq::<char>::empty());
        assert(count_char(Seq::<char>::empty(), '"') == 0);
    }
    lemma_count_char_absent(name, '"');
    lemma_count_char_concat(seq!['"'], name, '"');
    lemma_count_char_concat(seq!['"'] + name, seq!['"'], '"');
    assert(count_char(quoted(name), '"') == 2);
    lemma_count_char_concat(quoted(name), seq![' '], '"');
    lemma_count_char_concat(quoted(name) + seq![' '], join_spaced(rest), '"');
}

/// Law: every kind's logical type keyword is free of double quotes and is
/// none of the clause texts, so the rendering laws above apply to every
/// column of every kind.
pub proof fn lemma_keywords_wellformed()
    ensures
        has_no_char(Integer::spec_keyword(), '"'),
        has_no_char(Real::spec_keyword(), '"'),
        has_no_char(Text::spec_keyword(), '"'),
        has_no_char(Blob::spec_keyword(), '"'),
        Integer::spec_keyword() != primary_key_clause(),
        Integer::spec_keyword() != autoincrement_clause(),
        Integer::spec_keyword() != not_null_clause(),
        Integer::spec_keyword() != unique_clause(),
        Real::spec_keyword() != primary_key_clause(),
        Real::spec_keyword() != autoincrement_clause(),
        Real::spec_keyword() != not_null_clause(),
        Real::spec_keyword() != unique_clause(),
        Text::spec_keyword() != primary_key_clause(),
        Text::spec_keyword() != autoincrement_clause(),
        Text::spec_keyword() != not_null_clause(),
        Text::spec_keyword() != unique_clause(),
        Blob::spec_keyword() != primary_key_clause(),
        Blob::spec_keyword() != autoincrement_clause(),
        Blob::spec_keyword() != not_null_clause(),
        Blob::spec_keyword() != unique_clause(),
{
    reveal_strlit("INTEGER");
    reveal_strlit("REAL");
    reveal_strlit("TEXT");
    reveal_strlit("BLOB");
    reveal_strlit("PRIMARY KEY");
    reveal_strlit("AUTOINCREMENT");
    reveal_strlit("NOT NULL");
    reveal_strlit("UNIQUE");
    assert(Integer::spec_keyword().len() == 7);
    assert(Real::spec_keyword().len() == 4);
    assert(Text::spec_keyword().len() == 4);
    assert(Blob::spec_keyword().len() == 4);
    assert(primary_key_clause().len() == 11);
    assert(autoincrement_clause().len() == 13);
    assert(not_null_clause().len() == 8);
    assert(unique_clause().len() == 6);
    assert(Real::spec_keyword()[0] == 'R');
    assert(Text::spec_keyword()[0] == 'T');
    assert(Blob::spec_keyword()[0] == 'B');
    assert(not_null_clause()[0] == 'N');
}

/// Law: for every kind and every builder state — hence after every legal
/// transition sequence — the rendered text begins with the quoted name,
/// which for a quote-free name occurs exactly once; the kind's logical
/// type keyword follows after a single space; and a clause is rendered
/// exactly for the dimensions that are set, `PRIMARY KEY` counting as set
/// only for a primary key without a uniqueness constraint.
pub proof fn lemma_rendered_wellformed<
    DataType,
    ColumnType: LogicalType,
    DataMode,
    TPrimary: PrimaryKey,
    TNotNull: NotNull,
    TUnique: Unique,
    TAutoincrement: Autoincrement,
    TDefault: DefaultValue,
    TDefaultFn: DefaultFn,
    TFunc,
>(
    c: SQLiteColumn<
        DataType,
        ColumnType,
        DataMode,
        TPrimary,
        TNotNull,
        TUnique,
        TAutoincrement,
        TDefault,
        TDefaultFn,
        TFunc,
    >,
)
    requires
        has_no_char(c.base.name@, '"'),
        has_no_char(ColumnType::spec_keyword(), '"'),
        ColumnType::spec_keyword() != primary_key_clause(),
        ColumnType::spec_keyword() != autoincrement_clause(),
        ColumnType::spec_keyword() != not_null_clause(),
        ColumnType::spec_keyword() != unique_clause(),
    ensures
        c.spec_sql().subrange(0, c.base.name@.len() as int + 2) == quoted(c.base.name@),
        count_char(c.spec_sql(), '"') == 2,
        c.spec_sql().subrange(
            c.base.name@.len() as int + 3,
            c.base.name@.len() as int + 3 + ColumnType::spec_keyword().len(),
        ) == ColumnType::spec_keyword(),
        rendered_parts(c).contains(primary_key_clause()) <==> (TPrimary::spec_is_primary()
            && !TUnique::spec_is_unique()),
        rendered_parts(c).contains(autoincrement_clause())
            <==> TAutoincrement::spec_is_autoincrement(),
        rendered_parts(c).contains(not_null_clause()) <==> TNotNull::spec_is_not_null(),
        !rendered_parts(c).contains(unique_clause()),
{
    lemma_rendered_name_once(
        c.base.name@,
        ColumnType::spec_keyword(),
        TPrimary::spec_is_primary(),
        TUnique::spec_is_unique(),
        TAutoincrement::spec_is_autoincrement(),
        TNotNull::spec_is_not_null(),
    );
    lemma_rendered_clauses_exact(
        c.base.name@,
        ColumnType::spec_keyword(),
        TPrimary::spec_is_primary(),
        TUnique::spec_is_unique(),
        TAutoincrement::spec_is_autoincrement(),
        TNotNull::spec_is_not_null(),
    );
    lemma_rendered_no_unique_clause(
        c.base.name@,
        ColumnType::spec_keyword(),
        TPrimary::spec_is_primary(),
        TUnique::spec_is_unique(),
        TAutoincrement::spec_is_autoincrement(),
        TNotNull::spec_is_not_null(),
    );
}

/// The parts whose space-joined text a builder renders to.
pub open spec fn rendered_parts<
    DataType,
    ColumnType: LogicalType,
    DataMode,
    TPrimary: PrimaryKey,
    TNotNull: NotNull,
    TUnique: Unique,
    TAutoincrement: Autoincrement,
    TDefault: DefaultValue,
    TDefaultFn: DefaultFn,
    TFunc,
>(
    c: SQLiteColumn<
        DataType,
        ColumnType,
        DataMode,
        TPrimary,
        TNotNull,
        TUnique,
        TAutoincrement,
        TDefault,
        TDefaultFn,
        TFunc,
    >,
) -> Seq<Seq<char>> {
    col_parts(
        c.base.name@,
        ColumnType::spec_keyword(),
        TPrimary::spec_is_primary(),
        TUnique::spec_is_unique(),
        TAutoincrement::spec_is_autoincrement(),
        TNotNull::spec_is_not_null(),
    )
}

/// Law: a well-formed builder never holds both a literal default and a
/// computed default — whichever one was supplied, the transition supplying
/// the other is no longer exposed, so the two stay mutually exclusive in
/// every reachable state.
pub proof fn lemma_default_mutual_exclusion<
    DataType,
    ColumnType,
    DataMode,
    TPrimary: PrimaryKey,
    TNotNull: NotNull,
    TUnique: Unique,
    TAutoincrement: Autoincrement,
    TDefault: DefaultValue,
    TDefaultFn: DefaultFn,
    TFunc,
>(
    c: SQLiteColumn<
        DataType,
        ColumnType,
        DataMode,
        TPrimary,
        TNotNull,
        TUnique,
        TAutoincrement,
        TDefault,
        TDefaultFn,
        TFunc,
    >,
)
    requires
        c.wf(),
    ensures
        !(c.default is Some && c.default_fn is Some),
        !(TDefault::spec_has_default() && TDefaultFn::spec_has_default_fn()),
{
}

/// Law: comparability is reflexive for every column kind — against itself,
/// against a borrowed form of itself, and against its own native literal
/// type — whatever builder state the column is in.
pub proof fn lemma_comparable_reflexive(kind: ColumnKind)
    ensures
        spec_may_compare(OperandType::Column(kind), OperandType::Column(kind)),
        spec_may_compare(OperandType::Column(kind), OperandType::ColumnRef(kind)),
        spec_may_compare(OperandType::Column(kind), native_literal(kind)),
        spec_may_compare(native_literal(kind), native_literal(kind)),
{
}

/// Law: each declared cross-type pair holds in both of its declared
/// directions: integer against float, owned text against a string slice,
/// and an owned byte sequence against a byte slice.
pub proof fn lemma_comparable_cross_directions()
    ensures
        spec_may_compare(OperandType::IntegerValue, OperandType::FloatValue),
        spec_may_compare(OperandType::FloatValue, OperandType::IntegerValue),
        spec_may_compare(OperandType::TextValue, OperandType::TextSlice),
        spec_may_compare(OperandType::TextSlice, OperandType::TextValue),
        spec_may_compare(OperandType::BlobValue, OperandType::ByteSlice),
        spec_may_compare(OperandType::ByteSlice, OperandType::BlobValue),
{
}

/// Law: an undeclared pair stays out of the relation; comparing a text
/// column against an integer literal, or a blob column against a text
/// literal, was never declared legal.
pub proof fn lemma_comparable_undeclared_pairs()
    ensures
        !spec_may_compare(OperandType::Column(ColumnKind::Text), OperandType::IntegerValue),
        !spec_may_compare(OperandType::Column(ColumnKind::Blob), OperandType::TextValue),
        !spec_may_compare(OperandType::Column(ColumnKind::Integer), OperandType::TextValue),
{
}

} // verus!
