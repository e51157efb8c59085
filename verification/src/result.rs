//! One fetched result set: column type identifiers, per-cell bytes and
//! the affected-row count, all fixed once fetched.

use vstd::prelude::*;

use crate::raw::ReplyOutcome;

verus! {

/// A fully materialized result set. For a row-producing reply the
/// affected-row count is the number of rows fetched; for a plain command
/// it is the count the server reported.
#[derive(Debug)]
pub struct PgResult {
    pub column_types: Vec<u32>,
    pub rows: Vec<Vec<Option<Vec<u8>>>>,
    pub rows_affected: usize,
}

impl PgResult {
    /// This result set is what the given successful reply outcome
    /// materializes to.
    pub open spec fn is_result_of(self, o: ReplyOutcome) -> bool
        recommends
            !(o is Failure),
    {
        match o {
            ReplyOutcome::Rows { column_types, rows } => {
                &&& self.column_types@ == column_types@
                &&& self.rows@ == rows@
                &&& self.rows_affected == rows@.len()
            },
            ReplyOutcome::Command { rows_affected } => {
                &&& self.column_types@ == Seq::<u32>::empty()
                &&& self.rows@ == Seq::<Vec<Option<Vec<u8>>>>::empty()
                &&& self.rows_affected == rows_affected
            },
            ReplyOutcome::Failure { .. } => false,
        }
    }

    /// Materializes a successful reply outcome. A `Failure` outcome never
    /// reaches this point: the handle turns it into an error first.
    pub fn from_outcome(o: ReplyOutcome) -> (r: PgResult)
        requires
            !(o is Failure),
        ensures
            r.is_result_of(o),
    {
        match o {
            ReplyOutcome::Rows { column_types, rows } => {
                let n = rows.len();
                PgResult { column_types, rows, rows_affected: n }
            },
            ReplyOutcome::Command { rows_affected } => PgResult {
                column_types: Vec::new(),
                rows: Vec::new(),
                rows_affected,
            },
            ReplyOutcome::Failure { .. } => vstd::pervasive::unreached(),
        }
    }

    /// The affected-row count the server reported.
    pub fn rows_affected(&self) -> (r: usize)
        ensures
            r == self.rows_affected,
    {
        self.rows_affected
    }

    /// The number of rows fetched.
    pub fn row_count(&self) -> (r: usize)
        ensures
            r == self.rows@.len(),
    {
        self.rows.len()
    }

    /// The number of columns of the result set.
    pub fn column_count(&self) -> (r: usize)
        ensures
            r == self.column_types@.len(),
    {
        self.column_types.len()
    }
}

} // verus!
