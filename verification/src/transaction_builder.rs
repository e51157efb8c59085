//! Builds the `BEGIN TRANSACTION` statement variant for a transaction
//! with explicitly chosen isolation level, read mode and deferrable
//! property. Each option is a no-op unless set; together they compose
//! into a single statement.

use vstd::prelude::*;
use vstd::string::StringExecFns;

verus! {

/// An explicitly requested transaction isolation level.
#[derive(Clone, Copy, Debug, PartialEq, Eq, Structural)]
pub enum IsolationLevel {
    ReadCommitted,
    RepeatableRead,
    Serializable,
}

/// The clause an isolation level contributes.
pub open spec fn isolation_rep(level: IsolationLevel) -> Seq<char> {
    match level {
        IsolationLevel::ReadCommitted => " ISOLATION LEVEL READ COMMITTED"@,
        IsolationLevel::RepeatableRead => " ISOLATION LEVEL REPEATABLE READ"@,
        IsolationLevel::Serializable => " ISOLATION LEVEL SERIALIZABLE"@,
    }
}

/// The clause a read mode contributes.
pub open spec fn read_mode_rep(read_only: bool) -> Seq<char> {
    if read_only {
        " READ ONLY"@
    } else {
        " READ WRITE"@
    }
}

/// The clause a deferrable choice contributes.
pub open spec fn deferrable_rep(deferrable: bool) -> Seq<char> {
    if deferrable {
        " DEFERRABLE"@
    } else {
        " NOT DEFERRABLE"@
    }
}

/// Configuration of one transaction: isolation level, read mode and
/// deferrable property, each absent unless explicitly chosen.
#[derive(Clone, Copy, Debug, PartialEq, Eq, Structural)]
pub struct TransactionBuilder {
    pub isolation_level: Option<IsolationLevel>,
    pub read_only: Option<bool>,
    pub deferrable: Option<bool>,
}

/// The full statement a configuration composes into.
pub open spec fn begin_sql_rep(b: TransactionBuilder) -> Seq<char> {
    "BEGIN TRANSACTION"@ + (match b.isolation_level {
        Some(level) => isolation_rep(level),
        None => Seq::<char>::empty(),
    }) + (match b.read_only {
        Some(read_only) => read_mode_rep(read_only),
        None => Seq::<char>::empty(),
    }) + (match b.deferrable {
        Some(deferrable) => deferrable_rep(deferrable),
        None => Seq::<char>::empty(),
    })
}

impl TransactionBuilder {
    /// A transaction with no option chosen: a plain `BEGIN TRANSACTION`.
    pub fn new() -> (b: TransactionBuilder)
        ensures
            b.isolation_level is None,
            b.read_only is None,
            b.deferrable is None,
    {
        TransactionBuilder { isolation_level: None, read_only: None, deferrable: None }
    }

    /// Makes the transaction read-only.
    pub fn read_only(self) -> (b: Self)
        ensures
            b == (TransactionBuilder { read_only: Some(true), ..self }),
    {
        TransactionBuilder { read_only: Some(true), ..self }
    }

    /// Makes the transaction explicitly read-write.
    pub fn read_write(self) -> (b: Self)
        ensures
            b == (TransactionBuilder { read_only: Some(false), ..self }),
    {
        TransactionBuilder { read_only: Some(false), ..self }
    }

    /// Makes the transaction deferrable.
    pub fn deferrable(self) -> (b: Self)
        ensures
            b == (TransactionBuilder { deferrable: Some(true), ..self }),
    {
        TransactionBuilder { deferrable: Some(true), ..self }
    }

    /// Makes the transaction explicitly not deferrable.
    pub fn not_deferrable(self) -> (b: Self)
        ensures
            b == (TransactionBuilder { deferrable: Some(false), ..self }),
    {
        TransactionBuilder { deferrable: Some(false), ..self }
    }

    /// Requests the read-committed isolation level.
    pub fn read_committed(self) -> (b: Self)
        ensures
            b == (TransactionBuilder {
                isolation_level: Some(IsolationLevel::ReadCommitted),
                ..self
            }),
    {
        TransactionBuilder { isolation_level: Some(IsolationLevel::ReadCommitted), ..self }
    }

    /// Requests the repeatable-read isolation level.
    pub fn repeatable_read(self) -> (b: Self)
        ensures
            b == (TransactionBuilder {
                isolation_level: Some(IsolationLevel::RepeatableRead),
                ..self
            }),
    {
        TransactionBuilder { isolation_level: Some(IsolationLevel::RepeatableRead), ..self }
    }

    /// Requests the serializable isolation level.
    pub fn serializable(self) -> (b: Self)
        ensures
            b == (TransactionBuilder {
                isolation_level: Some(IsolationLevel::Serializable),
                ..self
            }),
    {
        TransactionBuilder { isolation_level: Some(IsolationLevel::Serializable), ..self }
    }

    /// Composes the configured options into the statement that opens the
    /// transaction.
    pub fn begin_sql(&self) -> (s: String)
        ensures
            s@ == begin_sql_rep(*self),
    {
        let mut s = String::from_str("BEGIN TRANSACTION");
        match self.isolation_level {
            Some(IsolationLevel::ReadCommitted) => s.append(" ISOLATION LEVEL READ COMMITTED"),
            Some(IsolationLevel::RepeatableRead) => s.append(" ISOLATION LEVEL REPEATABLE READ"),
            Some(IsolationLevel::Serializable) => s.append(" ISOLATION LEVEL SERIALIZABLE"),
            None => (),
        }
        match self.read_only {
            Some(true) => s.append(" READ ONLY"),
            Some(false) => s.append(" READ WRITE"),
            None => (),
        }
        match self.deferrable {
            Some(true) => s.append(" DEFERRABLE"),
            Some(false) => s.append(" NOT DEFERRABLE"),
            None => (),
        }
        proof {
            assert(s@ =~= begin_sql_rep(*self));
        }
        s
    }
}

} // verus!
