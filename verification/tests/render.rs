use sqlite_columns::blob;
use sqlite_columns::integer;
use sqlite_columns::text;
use sqlite_columns::ColumnBuilder;
use sqlite_columns::SQLAutoIncrement;
use sqlite_columns::SQLDefault;
use sqlite_columns::SQLNotNull;
use sqlite_columns::SQLPrimary;
use sqlite_columns::SQLUnique;
use sqlite_columns::SQLiteIntegerMode;
use sqlite_columns::SQLiteTextMode;
use sqlite_columns::ToSQL;

#[test]
fn integer_primary_autoincrement_renders() {
    let col = integer("id", SQLiteIntegerMode::Number).primary().autoincrement();
    assert_eq!(col.to_sql(), "\"id\" INTEGER PRIMARY KEY AUTOINCREMENT");
}

#[test]
fn text_not_null_renders() {
    let col = text("name", SQLiteTextMode::String).not_null();
    assert_eq!(col.to_sql(), "\"name\" TEXT NOT NULL");
}

#[test]
fn blob_primary_renders() {
    let col = blob("data").primary();
    assert_eq!(col.to_sql(), "\"data\" BLOB PRIMARY KEY");
}

#[test]
fn unset_dimensions_render_no_clause() {
    let col = integer("n", SQLiteIntegerMode::Number);
    assert_eq!(col.to_sql(), "\"n\" INTEGER");
    let col = text("t", SQLiteTextMode::JSON);
    assert_eq!(col.to_sql(), "\"t\" TEXT");
    let col = blob("b");
    assert_eq!(col.to_sql(), "\"b\" BLOB");
}

#[test]
fn unique_primary_suppresses_primary_key_clause() {
    let col = integer("u", SQLiteIntegerMode::Number).unique("u_constraint").primary();
    assert_eq!(col.unique_name, Some("u_constraint"));
    assert_eq!(col.to_sql(), "\"u\" INTEGER");
}

#[test]
fn unique_emits_no_unique_clause() {
    let col = text("mail", SQLiteTextMode::String).unique("mail_unique").not_null();
    assert_eq!(col.to_sql(), "\"mail\" TEXT NOT NULL");
    assert!(!col.to_sql().contains("UNIQUE"));
}

#[test]
fn default_emits_no_default_clause() {
    let col = integer("d", SQLiteIntegerMode::Number).default(42);
    assert_eq!(col.default, Some(42));
    assert_eq!(col.to_sql(), "\"d\" INTEGER");
}

#[test]
fn full_integer_chain_renders_in_order() {
    let col = integer("id", SQLiteIntegerMode::Number).primary().autoincrement().not_null();
    assert_eq!(col.to_sql(), "\"id\" INTEGER PRIMARY KEY AUTOINCREMENT NOT NULL");
}

#[test]
fn rendering_is_repeatable_and_deterministic() {
    let col = text("name", SQLiteTextMode::Enum).not_null();
    let first = col.to_sql();
    let second = col.to_sql();
    assert_eq!(first, second);
    assert_eq!(col.name(), "name");
}

#[test]
fn name_and_build_keep_the_column() {
    let col = integer("pk", SQLiteIntegerMode::Boolean).primary();
    assert_eq!(col.name(), "pk");
    let built = col.build();
    assert_eq!(built.name(), "pk");
    assert_eq!(built.to_sql(), "\"pk\" INTEGER PRIMARY KEY");
}
