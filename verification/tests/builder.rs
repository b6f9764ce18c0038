use sqlite_columns::integer;
use sqlite_columns::SQLAutoIncrement;
use sqlite_columns::SQLDefault;
use sqlite_columns::SQLPrimary;
use sqlite_columns::SQLiteIntegerMode;

#[test]
fn builder() {
    let num: i64 = 42;
    let int = integer("id", SQLiteIntegerMode::Number)
        .default(42)
        .primary()
        .autoincrement();
    let _ = num;
    let _ = int;
}
