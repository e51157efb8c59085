//! Tests of the commit-error classifier policy and of the
//! transaction-depth bookkeeping it depends on.

use pg_core::commit_error::{classify_commit_error, CommitErrorOutcome};
use pg_core::connection::{PgConnection, TransactionState};
use pg_core::error::{DatabaseErrorInformation, DatabaseErrorKind, Error};
use pg_core::raw::{PgTransactionStatus, ReplyOutcome, ServerReply};

fn db_error(kind: DatabaseErrorKind) -> Error {
    Error::DatabaseError(
        kind,
        DatabaseErrorInformation {
            message: "commit failed".to_string(),
            statement_position: None,
        },
    )
}

#[test]
fn serialization_failure_at_depth_one_rolls_back() {
    let outcome = classify_commit_error(
        Some(1),
        PgTransactionStatus::InTransaction,
        db_error(DatabaseErrorKind::SerializationFailure),
    );
    assert!(matches!(outcome, CommitErrorOutcome::RollbackAndThrow(_)));
}

#[test]
fn read_only_violation_at_depth_one_rolls_back() {
    let outcome = classify_commit_error(
        Some(1),
        PgTransactionStatus::InTransaction,
        db_error(DatabaseErrorKind::ReadOnlyTransaction),
    );
    assert!(matches!(outcome, CommitErrorOutcome::RollbackAndThrow(_)));
}

#[test]
fn generic_error_in_error_status_at_nested_depth_rolls_back() {
    let outcome = classify_commit_error(
        Some(2),
        PgTransactionStatus::InError,
        db_error(DatabaseErrorKind::Unknown),
    );
    assert!(matches!(outcome, CommitErrorOutcome::RollbackAndThrow(_)));
}

#[test]
fn unknown_status_marks_the_connection_broken() {
    for error in [
        db_error(DatabaseErrorKind::SerializationFailure),
        db_error(DatabaseErrorKind::UniqueViolation),
        Error::NotInTransaction,
        Error::RollbackTransaction,
    ] {
        let outcome = classify_commit_error(Some(1), PgTransactionStatus::Unknown, error);
        assert!(matches!(outcome, CommitErrorOutcome::ThrowAndMarkBroken(_)));
    }
}

#[test]
fn closed_connection_is_never_rolled_back() {
    let outcome = classify_commit_error(
        Some(1),
        PgTransactionStatus::InTransaction,
        db_error(DatabaseErrorKind::ClosedConnection),
    );
    assert!(matches!(outcome, CommitErrorOutcome::Throw(_)));
}

#[test]
fn constraint_violations_propagate_without_rollback() {
    for kind in [
        DatabaseErrorKind::UniqueViolation,
        DatabaseErrorKind::ForeignKeyViolation,
        DatabaseErrorKind::NotNullViolation,
        DatabaseErrorKind::CheckViolation,
        DatabaseErrorKind::UnableToSendCommand,
    ] {
        let outcome =
            classify_commit_error(Some(1), PgTransactionStatus::InTransaction, db_error(kind));
        assert!(matches!(outcome, CommitErrorOutcome::Throw(_)));
    }
}

#[test]
fn transaction_protocol_errors_propagate_without_rollback() {
    for error in [
        Error::QueryBuilderError("bad query".to_string()),
        Error::DeserializationError("bad cell".to_string()),
        Error::AlreadyInTransaction,
        Error::NotInTransaction,
        Error::BrokenTransaction,
        Error::RollbackTransaction,
        Error::CommitTransactionFailed,
    ] {
        let outcome =
            classify_commit_error(Some(1), PgTransactionStatus::InTransaction, error.clone());
        assert_eq!(CommitErrorOutcome::Throw(error), outcome);
    }
}

#[test]
fn serialization_failure_at_nested_depth_is_thrown() {
    let outcome = classify_commit_error(
        Some(2),
        PgTransactionStatus::InError,
        db_error(DatabaseErrorKind::SerializationFailure),
    );
    assert!(matches!(outcome, CommitErrorOutcome::Throw(_)));
}

#[test]
fn broken_depth_state_propagates_the_depth_error() {
    let outcome = classify_commit_error(
        None,
        PgTransactionStatus::InTransaction,
        db_error(DatabaseErrorKind::SerializationFailure),
    );
    assert!(matches!(
        outcome,
        CommitErrorOutcome::Throw(Error::BrokenTransaction)
    ));
}

#[test]
fn connection_classifies_from_its_own_state() {
    // the reply to the failed commit leaves the session in-error at depth 2
    let transcript = vec![
        ServerReply {
            outcome: ReplyOutcome::Command { rows_affected: 0 },
            status_after: PgTransactionStatus::Idle,
        };
        5
    ];
    let mut connection = PgConnection::establish("postgres://localhost/test", transcript).unwrap();
    connection.transaction_state.record_begin();
    connection.transaction_state.record_begin();
    connection.raw_connection.status = PgTransactionStatus::InError;

    let outcome = connection.process_commit_error(db_error(DatabaseErrorKind::Unknown));
    assert!(matches!(outcome, CommitErrorOutcome::RollbackAndThrow(_)));
}

#[test]
fn transaction_depth_bookkeeping() {
    let mut state = TransactionState { depth: Some(0) };
    assert_eq!(Some(0), state.transaction_depth());
    state.record_begin();
    state.record_begin();
    assert_eq!(Some(2), state.transaction_depth());
    state.record_commit();
    assert_eq!(Some(1), state.transaction_depth());
    state.record_rollback();
    assert_eq!(Some(0), state.transaction_depth());
    state.mark_broken();
    assert_eq!(None, state.transaction_depth());
}

#[test]
fn broken_connections_fail_the_broken_probe() {
    let transcript = vec![
        ServerReply {
            outcome: ReplyOutcome::Command { rows_affected: 0 },
            status_after: PgTransactionStatus::Idle,
        };
        5
    ];
    let mut connection = PgConnection::establish("postgres://localhost/test", transcript).unwrap();
    assert!(!connection.is_broken());
    assert_eq!(Some(0), connection.transaction_state().transaction_depth());
    connection.transaction_state.mark_broken();
    assert!(connection.is_broken());
    assert_eq!(None, connection.transaction_state().transaction_depth());
}
