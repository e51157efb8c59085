//! The error taxonomy of the driver core.
//!
//! Failures reported by the server are translated at the connection-handle
//! boundary into `Error::DatabaseError` values carrying a kind and the
//! server's diagnostic information; they are never surfaced as raw codes.
//! Establish-time failures have their own type, `ConnectionError`.

use vstd::prelude::*;

verus! {

/// The closed set of database error kinds the commit-error classifier
/// distinguishes. New kinds require an explicit policy decision; nothing
/// defaults to "safe to roll back".
#[derive(Clone, Copy, Debug, PartialEq, Eq, Structural)]
pub enum DatabaseErrorKind {
    UniqueViolation,
    ForeignKeyViolation,
    NotNullViolation,
    CheckViolation,
    SerializationFailure,
    ReadOnlyTransaction,
    ClosedConnection,
    UnableToSendCommand,
    Unknown,
}

/// Diagnostic information attached to a database error: the server's
/// message and, when the server reported one, the byte offset into the
/// statement text at which the error was located.
#[derive(Clone, Debug, PartialEq, Eq)]
pub struct DatabaseErrorInformation {
    pub message: String,
    pub statement_position: Option<u64>,
}

impl DatabaseErrorInformation {
    /// The offset into the statement text the server reported for this
    /// error, if any.
    pub fn statement_position(&self) -> (r: Option<u64>)
        ensures
            r == self.statement_position,
    {
        self.statement_position
    }

    /// The server's diagnostic message.
    pub fn message(&self) -> (r: &String)
        ensures
            r@ == self.message@,
    {
        &self.message
    }
}

/// A runtime failure of the driver core.
#[derive(Clone, Debug, PartialEq, Eq)]
pub enum Error {
    /// The server rejected a statement, or the connection itself failed.
    DatabaseError(DatabaseErrorKind, DatabaseErrorInformation),
    /// A fetched value could not be read back, including a row or column
    /// index that lies outside the fetched result set.
    DeserializationError(String),
    /// The layer that compiles queries handed over something unusable.
    QueryBuilderError(String),
    /// A transaction was opened while one was already open.
    AlreadyInTransaction,
    /// A transaction operation was issued with no transaction open.
    NotInTransaction,
    /// The connection's transaction state is broken and must be discarded.
    BrokenTransaction,
    /// The active transaction was rolled back.
    RollbackTransaction,
    /// A `COMMIT` failed.
    CommitTransactionFailed,
}

/// A failure while establishing a connection.
#[derive(Clone, Debug, PartialEq, Eq)]
pub enum ConnectionError {
    /// The connection string is not in any accepted form.
    InvalidConnectionUrl(String),
    /// The server could not be reached, or refused the connection.
    BadConnection(String),
    /// The connection came up but the mandatory session setup
    /// (time zone and client encoding) was rejected.
    CouldntSetupConfiguration(Error),
}

/// The error the handle returns when asked for a round trip after the
/// connection is gone: a closed-connection database error with an empty
/// message and no statement position.
pub open spec fn is_closed_connection_error(e: Error) -> bool {
    &&& e matches Error::DatabaseError(kind, info)
    &&& kind == DatabaseErrorKind::ClosedConnection
    &&& info.message@ == Seq::<char>::empty()
    &&& info.statement_position is None
}

/// Builds the closed-connection error `is_closed_connection_error` describes.
pub fn closed_connection_error() -> (e: Error)
    ensures
        is_closed_connection_error(e),
{
    Error::DatabaseError(
        DatabaseErrorKind::ClosedConnection,
        DatabaseErrorInformation { message: String::new(), statement_position: None },
    )
}

} // verus!
