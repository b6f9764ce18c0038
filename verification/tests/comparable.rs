use sqlite_columns::blob;
use sqlite_columns::integer;
use sqlite_columns::may_compare;
use sqlite_columns::text;
use sqlite_columns::ColumnKind;
use sqlite_columns::Comparable;
use sqlite_columns::OperandType;
use sqlite_columns::SQLNotNull;
use sqlite_columns::SQLPrimary;
use sqlite_columns::SQLiteIntegerMode;
use sqlite_columns::SQLiteTextMode;

fn comparable<Lhs: Comparable<Rhs>, Rhs>(_lhs: &Lhs, _rhs: &Rhs) {}

#[test]
fn declared_comparisons_typecheck() {
    let id = integer("id", SQLiteIntegerMode::Number).primary();
    comparable(&id, &42i64);
    comparable(&id, &id);
    let name = text("name", SQLiteTextMode::String).not_null();
    comparable(&name, &String::from("x"));
    comparable(&name, &"x");
    comparable(&name, &name);
    let data = blob("data").primary();
    let bytes: Vec<u8> = vec![1, 2, 3];
    comparable(&data, &bytes);
    comparable(&data, &data);
    comparable(&bytes, &data);
    comparable(&42i64, &42i64);
    comparable(&String::from("a"), &"b");
    comparable(&"a", &"b");
}

#[test]
fn kind_reflexive_against_itself_and_native_literal() {
    let kinds = vec![
        ColumnKind::Integer,
        ColumnKind::Real,
        ColumnKind::Text,
        ColumnKind::Blob,
        ColumnKind::Any,
        ColumnKind::Number,
    ];
    for kind in kinds {
        assert!(may_compare(OperandType::Column(kind), OperandType::Column(kind)));
        assert!(may_compare(OperandType::Column(kind), OperandType::ColumnRef(kind)));
        assert!(may_compare(OperandType::ColumnRef(kind), OperandType::ColumnRef(kind)));
    }
    assert!(may_compare(
        OperandType::Column(ColumnKind::Integer),
        OperandType::IntegerValue,
    ));
    assert!(may_compare(OperandType::Column(ColumnKind::Real), OperandType::FloatValue));
    assert!(may_compare(OperandType::Column(ColumnKind::Text), OperandType::TextValue));
    assert!(may_compare(OperandType::Column(ColumnKind::Blob), OperandType::BlobValue));
    assert!(may_compare(OperandType::Column(ColumnKind::Any), OperandType::FloatValue));
    assert!(may_compare(OperandType::Column(ColumnKind::Number), OperandType::FloatValue));
}

#[test]
fn cross_type_pairs_hold_in_both_directions() {
    assert!(may_compare(OperandType::IntegerValue, OperandType::FloatValue));
    assert!(may_compare(OperandType::FloatValue, OperandType::IntegerValue));
    assert!(may_compare(OperandType::TextValue, OperandType::TextSlice));
    assert!(may_compare(OperandType::TextSlice, OperandType::TextValue));
    assert!(may_compare(OperandType::BlobValue, OperandType::ByteSlice));
    assert!(may_compare(OperandType::ByteSlice, OperandType::BlobValue));
}

#[test]
fn undeclared_pairs_are_rejected() {
    assert!(!may_compare(OperandType::Column(ColumnKind::Text), OperandType::IntegerValue));
    assert!(!may_compare(OperandType::Column(ColumnKind::Blob), OperandType::TextValue));
    assert!(!may_compare(OperandType::Column(ColumnKind::Integer), OperandType::TextValue));
    assert!(!may_compare(OperandType::TextValue, OperandType::IntegerValue));
    assert!(!may_compare(OperandType::Column(ColumnKind::Integer), OperandType::Column(
        ColumnKind::Text,
    )));
}

#[test]
fn column_state_does_not_change_comparability() {
    let bare = integer("a", SQLiteIntegerMode::Number);
    comparable(&bare, &1i64);
    let constrained = integer("b", SQLiteIntegerMode::Number).primary().not_null();
    comparable(&constrained, &1i64);
}
