//! Tests of the forward-only cursor, the result buffer, and the
//! transaction builder's statement composition.

use pg_core::cursor::Cursor;
use pg_core::error::Error;
use pg_core::result::PgResult;
use pg_core::transaction_builder::TransactionBuilder;

fn three_row_result() -> PgResult {
    PgResult {
        column_types: vec![23, 1043],
        rows: vec![
            vec![Some(b"1".to_vec()), Some(b"one".to_vec())],
            vec![Some(b"2".to_vec()), None],
            vec![Some(b"3".to_vec()), Some(b"three".to_vec())],
        ],
        rows_affected: 3,
    }
}

#[test]
fn cursor_hands_rows_out_in_order_and_only_once() {
    let mut cursor = Cursor::new(three_row_result());
    assert_eq!(3, cursor.remaining_count());
    assert_eq!(2, cursor.column_count());

    let first = cursor.next().unwrap();
    assert_eq!(2, first.field_count());
    assert_eq!(Some(b"1".to_vec()), *first.get(0).unwrap());
    assert_eq!(Some(b"one".to_vec()), *first.get(1).unwrap());

    let second = cursor.next().unwrap();
    assert_eq!(None, *second.get(1).unwrap());

    let third = cursor.next().unwrap();
    assert_eq!(Some(b"3".to_vec()), *third.get(0).unwrap());

    assert!(cursor.next().is_none());
    assert_eq!(0, cursor.remaining_count());
}

#[test]
fn row_indexes_out_of_range_fail_with_a_bounds_error() {
    let mut cursor = Cursor::new(three_row_result());
    let row = cursor.next().unwrap();
    match row.get(2) {
        Err(Error::DeserializationError(message)) => {
            assert_eq!("row index out of range", message)
        }
        _ => unreachable!(),
    }
}

#[test]
fn result_buffer_counts_are_fixed_at_construction() {
    let result = three_row_result();
    assert_eq!(3, result.row_count());
    assert_eq!(2, result.column_count());
    assert_eq!(3, result.rows_affected());
}

#[test]
fn plain_begin_statement() {
    let builder = TransactionBuilder::new();
    assert_eq!("BEGIN TRANSACTION", builder.begin_sql());
}

#[test]
fn fully_configured_begin_statement() {
    let builder = TransactionBuilder::new()
        .serializable()
        .read_only()
        .deferrable();
    assert_eq!(
        "BEGIN TRANSACTION ISOLATION LEVEL SERIALIZABLE READ ONLY DEFERRABLE",
        builder.begin_sql()
    );
}

#[test]
fn explicitly_negated_begin_options() {
    let builder = TransactionBuilder::new()
        .repeatable_read()
        .read_write()
        .not_deferrable();
    assert_eq!(
        "BEGIN TRANSACTION ISOLATION LEVEL REPEATABLE READ READ WRITE NOT DEFERRABLE",
        builder.begin_sql()
    );
}

#[test]
fn read_committed_begin_statement() {
    let builder = TransactionBuilder::new().read_committed();
    assert_eq!(
        "BEGIN TRANSACTION ISOLATION LEVEL READ COMMITTED",
        builder.begin_sql()
    );
}

#[test]
fn later_isolation_choices_replace_earlier_ones() {
    let builder = TransactionBuilder::new().read_committed().serializable();
    assert_eq!(
        "BEGIN TRANSACTION ISOLATION LEVEL SERIALIZABLE",
        builder.begin_sql()
    );
}
