use sqlite_columns::blob;
use sqlite_columns::integer;
use sqlite_columns::sql;
use sqlite_columns::text;
use sqlite_columns::SQLChunk;
use sqlite_columns::SQLDefault;
use sqlite_columns::SQLDefaultFn;
use sqlite_columns::SQLNotNull;
use sqlite_columns::SQLPrimary;
use sqlite_columns::SQLUnique;
use sqlite_columns::SQLiteIntegerMode;
use sqlite_columns::SQLiteTextMode;

#[test]
fn constructors_start_all_unset() {
    let col = integer("id", SQLiteIntegerMode::Number);
    assert_eq!(col.unique_name, None);
    assert_eq!(col.default, None);
    assert!(col.default_fn.is_none());
    let col = text("name", SQLiteTextMode::String);
    assert_eq!(col.unique_name, None);
    assert_eq!(col.default, None);
    assert!(col.default_fn.is_none());
    let col = blob("data");
    assert_eq!(col.unique_name, None);
    assert_eq!(col.default, None);
    assert!(col.default_fn.is_none());
}

#[test]
fn transitions_carry_accumulated_state_forward() {
    let col = integer("id", SQLiteIntegerMode::Number)
        .default(7)
        .primary()
        .not_null();
    assert_eq!(col.base.name, "id");
    assert_eq!(col.default, Some(7));
    assert_eq!(col.unique_name, None);
    let col = text("city", SQLiteTextMode::String).unique("city_unique").not_null();
    assert_eq!(col.unique_name, Some("city_unique"));
    assert_eq!(col.default, None);
}

#[test]
fn literal_default_excludes_computed_default() {
    let col = integer("d", SQLiteIntegerMode::Number).default(42);
    assert_eq!(col.default, Some(42));
    assert!(col.default_fn.is_none());
}

#[test]
fn computed_default_excludes_literal_default() {
    let col = blob("d").default_fn(|| -> Result<Vec<u8>, String> { Ok(vec![1]) });
    assert_eq!(col.default, None);
    assert!(col.default_fn.is_some());
    let fun = col.default_fn.unwrap();
    assert_eq!(fun(), Ok(vec![1]));
}

#[test]
fn sql_chunks_exist() {
    let chunk = SQLChunk::Str("SELECT");
    match chunk {
        SQLChunk::Str(s) => assert_eq!(s, "SELECT"),
        _ => panic!("unexpected chunk"),
    }
    let _ = SQLChunk::Placeholder;
    sql::<i64>();
}
