//! The commit-error classifier: the policy that decides, after a failed
//! `COMMIT`, whether to surface the error as-is, roll back first, or mark
//! the connection permanently broken.
//!
//! The policy is deliberately closed: only a read-only-transaction
//! violation or a serialization failure at the outermost level, and a
//! generic server error while the session reports an in-error status at a
//! nested level, are eligible for rollback. Every other kind propagates
//! untouched, since a rollback cannot help and may itself fail.

use vstd::prelude::*;

use crate::error::{DatabaseErrorKind, Error};
use crate::raw::PgTransactionStatus;

verus! {

/// The recovery action after a failed commit.
#[derive(Debug, Clone, PartialEq, Eq)]
pub enum CommitErrorOutcome {
    /// Surface the error as-is; the transaction manager leaves its state
    /// untouched.
    Throw(Error),
    /// Attempt a rollback, then surface the original error even if the
    /// rollback itself fails.
    RollbackAndThrow(Error),
    /// Surface the error and mark the connection unusable until the
    /// owning application discards it.
    ThrowAndMarkBroken(Error),
}

/// The rollback-eligible cases: a read-only-transaction violation or a
/// serialization failure at the outermost transaction level, or a generic
/// server error while the session status is in-error at a nested level.
pub open spec fn rollback_eligible(
    depth: u64,
    status: PgTransactionStatus,
    error: Error,
) -> bool {
    ||| (depth == 1 && (error matches Error::DatabaseError(kind, _)
        && (kind == DatabaseErrorKind::ReadOnlyTransaction
            || kind == DatabaseErrorKind::SerializationFailure)))
    ||| (depth > 1 && status == PgTransactionStatus::InError
        && (error matches Error::DatabaseError(kind, _) && kind == DatabaseErrorKind::Unknown))
}

/// The decision policy, in precedence order: an undeterminable depth
/// propagates the depth error; an unknown session status marks the
/// connection broken; a closed connection is never rolled back; then only
/// the rollback-eligible cases trigger a rollback, and everything else is
/// thrown untouched.
pub open spec fn spec_classify_commit_error(
    depth: Option<u64>,
    status: PgTransactionStatus,
    error: Error,
) -> CommitErrorOutcome {
    if depth is None {
        CommitErrorOutcome::Throw(Error::BrokenTransaction)
    } else if status == PgTransactionStatus::Unknown {
        CommitErrorOutcome::ThrowAndMarkBroken(error)
    } else if error matches Error::DatabaseError(DatabaseErrorKind::ClosedConnection, _) {
        CommitErrorOutcome::Throw(error)
    } else if rollback_eligible(depth->0, status, error) {
        CommitErrorOutcome::RollbackAndThrow(error)
    } else {
        CommitErrorOutcome::Throw(error)
    }
}

/// Classifies a failed commit. `depth` is the transaction nesting depth,
/// `None` when the connection state is broken and the depth cannot be
/// determined; `status` is the transaction status the server reported.
/// Calling this with no transaction open (depth zero) is a programming
/// error in the transaction manager, so that input is excluded.
pub fn classify_commit_error(
    depth: Option<u64>,
    status: PgTransactionStatus,
    error: Error,
) -> (r: CommitErrorOutcome)
    requires
        !(depth matches Some(d) && d == 0),
    ensures
        r == spec_classify_commit_error(depth, status, error),
{
    let depth = match depth {
        None => {
            return CommitErrorOutcome::Throw(Error::BrokenTransaction);
        },
        Some(d) => d,
    };
    if status == PgTransactionStatus::Unknown {
        return CommitErrorOutcome::ThrowAndMarkBroken(error);
    }
    if let Error::DatabaseError(DatabaseErrorKind::ClosedConnection, _) = &error {
        return CommitErrorOutcome::Throw(error);
    }
    let eligible: bool = match &error {
        Error::DatabaseError(kind, _) => {
            if depth == 1 {
                *kind == DatabaseErrorKind::ReadOnlyTransaction
                    || *kind == DatabaseErrorKind::SerializationFailure
            } else {
                status == PgTransactionStatus::InError && *kind == DatabaseErrorKind::Unknown
            }
        },
        _ => false,
    };
    if eligible {
        CommitErrorOutcome::RollbackAndThrow(error)
    } else {
        CommitErrorOutcome::Throw(error)
    }
}

} // verus!
