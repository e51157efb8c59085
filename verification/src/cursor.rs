//! A forward-only view over an already-fetched result set.
//!
//! The cursor owns the result buffer it wraps and hands rows out by
//! moving them, one at a time; once consumed, a row cannot be revisited.

use vstd::prelude::*;
use vstd::string::StringExecFns;

use crate::error::Error;
use crate::result::PgResult;

verus! {

/// One logical row: indexed access to column values as raw nullable
/// byte slices. Decoding them into typed values belongs to the layer
/// above this core.
#[derive(Debug, PartialEq, Eq)]
pub struct PgRow {
    pub cells: Vec<Option<Vec<u8>>>,
}

impl PgRow {
    /// The number of column values in this row.
    pub fn field_count(&self) -> (r: usize)
        ensures
            r == self.cells@.len(),
    {
        self.cells.len()
    }

    /// The raw bytes of column `idx`, or a bounds error when the index
    /// lies outside the row. Never undefined behaviour.
    pub fn get(&self, idx: usize) -> (r: Result<&Option<Vec<u8>>, Error>)
        ensures
            idx < self.cells@.len() ==> (r matches Ok(c) && *c == self.cells@[idx as int]),
            idx >= self.cells@.len() ==> (r matches Err(e) && (e matches Error::DeserializationError(m)
                && m@ == "row index out of range"@)),
    {
        if idx < self.cells.len() {
            Ok(&self.cells[idx])
        } else {
            Err(Error::DeserializationError(String::from_str("row index out of range")))
        }
    }
}

/// A lazy, finite, forward-only sequence of rows over one fetched result
/// set. Row and column counts are fixed at construction; the cursor is
/// not restartable.
#[derive(Debug)]
pub struct Cursor {
    pub result: PgResult,
}

impl Cursor {
    /// The rows not yet handed out.
    pub open spec fn remaining(self) -> Seq<Vec<Option<Vec<u8>>>> {
        self.result.rows@
    }

    /// Wraps a fully materialized result set; no incremental fetch
    /// happens afterwards.
    pub fn new(result: PgResult) -> (c: Cursor)
        ensures
            c.remaining() == result.rows@,
            c.result.column_types@ == result.column_types@,
            c.result.rows_affected == result.rows_affected,
    {
        Cursor { result }
    }

    /// The number of rows not yet handed out.
    pub fn remaining_count(&self) -> (r: usize)
        ensures
            r == self.remaining().len(),
    {
        self.result.rows.len()
    }

    /// The number of columns of the underlying result set.
    pub fn column_count(&self) -> (r: usize)
        ensures
            r == self.result.column_types@.len(),
    {
        self.result.column_types.len()
    }

    /// Hands out the next row, or `None` once the result set is consumed.
    pub fn next(&mut self) -> (r: Option<PgRow>)
        ensures
            old(self).remaining().len() == 0 ==> (r is None && *final(self) == *old(self)),
            old(self).remaining().len() > 0 ==> {
                &&& (r matches Some(row) && row.cells == old(self).remaining()[0])
                &&& final(self).remaining() == old(self).remaining().skip(1)
                &&& final(self).result.column_types@ == old(self).result.column_types@
                &&& final(self).result.rows_affected == old(self).result.rows_affected
            },
    {
        if self.result.rows.len() == 0 {
            None
        } else {
            let cells = self.result.rows.remove(0);
            proof {
                assert(final(self).remaining() =~= old(self).remaining().skip(1));
            }
            Some(PgRow { cells })
        }
    }
}

} // verus!
