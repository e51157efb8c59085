//! The connection facade: composes the native handle, the statement
//! cache and the transaction-depth state, and implements the logical
//! query/execute contract consumed by the query-building layer above.

use vstd::prelude::*;

use crate::commit_error::{classify_commit_error, spec_classify_commit_error, CommitErrorOutcome};
use crate::cursor::Cursor;
use crate::error::{is_closed_connection_error, ConnectionError, Error};
use crate::raw::{
    bad_at, connection_url_well_formed, consumed_when_bad_at, ok_prefix, RawConnection,
    ReplyOutcome, ServerReply,
};
use crate::result::PgResult;
use crate::statement_cache::{
    cache_after, distinct_keys, entry_matches, has_key, StatementCache, StatementCacheEntry,
};
use crate::stmt::{same_statement, statement_name, statement_name_rep, Statement};
use crate::transaction_builder::TransactionBuilder;

verus! {

/// A compiled query as the layer above hands it down: the SQL text, the
/// ordered bind-parameter type signature, the encoded bind values (each
/// nullable), and whether the shape is safe to cache. Queries that embed
/// raw literal SQL fragments, or whose bind-value count can vary at
/// runtime, are not cacheable and are always prepared unnamed.
#[derive(Debug)]
pub struct Query {
    pub sql: String,
    pub bind_types: Vec<u32>,
    pub binds: Vec<Option<Vec<u8>>>,
    pub cacheable: bool,
}

/// The affected-row count a successful reply outcome carries: the number
/// of rows for a result set, the reported count for a plain command.
pub open spec fn rows_affected_of(o: ReplyOutcome) -> nat {
    match o {
        ReplyOutcome::Rows { rows, .. } => rows@.len(),
        ReplyOutcome::Command { rows_affected } => rows_affected as nat,
        ReplyOutcome::Failure { .. } => 0,
    }
}

/// The transaction-depth state the facade owns: `None` when the
/// connection state is broken and unusable until the application discards
/// it, `Some(0)` when no transaction is open, `Some(n)` for nesting depth
/// `n`. Mutated only on begin/commit/rollback/savepoint events of the
/// transaction manager.
#[derive(Clone, Copy, Debug, PartialEq, Eq, Structural)]
pub struct TransactionState {
    pub depth: Option<u64>,
}

impl TransactionState {
    /// The current nesting depth, or `None` when broken.
    pub fn transaction_depth(&self) -> (r: Option<u64>)
        ensures
            r == self.depth,
    {
        self.depth
    }

    /// Records that a transaction or savepoint was opened.
    pub fn record_begin(&mut self)
        requires
            old(self).depth matches Some(d) && d < u64::MAX,
        ensures
            final(self).depth matches Some(d2) && d2 == old(self).depth->0 + 1,
    {
        self.depth = Some(self.depth.unwrap() + 1);
    }

    /// Records that the innermost transaction level was committed or its
    /// savepoint released.
    pub fn record_commit(&mut self)
        requires
            old(self).depth matches Some(d) && d >= 1,
        ensures
            final(self).depth matches Some(d2) && d2 == old(self).depth->0 - 1,
    {
        self.depth = Some(self.depth.unwrap() - 1);
    }

    /// Records that the innermost transaction level was rolled back.
    pub fn record_rollback(&mut self)
        requires
            old(self).depth matches Some(d) && d >= 1,
        ensures
            final(self).depth matches Some(d2) && d2 == old(self).depth->0 - 1,
    {
        self.depth = Some(self.depth.unwrap() - 1);
    }

    /// Marks the connection state permanently broken; every further
    /// operation must fail fast until the application discards the
    /// connection.
    pub fn mark_broken(&mut self)
        ensures
            final(self).depth is None,
    {
        self.depth = None;
    }
}

/// A live connection: the owned native handle, the prepared-statement
/// cache and the transaction-depth state.
#[derive(Debug)]
pub struct PgConnection {
    pub raw_connection: RawConnection,
    pub transaction_state: TransactionState,
    pub statement_cache: StatementCache,
}

/// How many round trips serving `q` spends before the execute round trip:
/// none when the statement is already cached, one for the prepare
/// otherwise.
pub open spec fn prepare_trips(c: PgConnection, q: Query) -> int {
    if q.cacheable && has_key(c.statement_cache.entries@, q.sql@, q.bind_types@) {
        0
    } else {
        1
    }
}

/// Serving `q` on this connection files a fresh cache entry: the shape is
/// cacheable, not yet cached, and the prepare round trip succeeds.
pub open spec fn files_new_entry(c: PgConnection, q: Query) -> bool {
    &&& q.cacheable
    &&& !has_key(c.statement_cache.entries@, q.sql@, q.bind_types@)
    &&& c.raw_connection.open
    &&& ok_prefix(c.raw_connection.transcript@, 1)
}

/// The cache after serving `q`: grown by the freshly filed entry `e` on a
/// successful prepare of an uncached cacheable shape, unchanged
/// otherwise.
pub open spec fn cache_entries_after(
    c: PgConnection,
    q: Query,
    post: PgConnection,
) -> bool {
    if files_new_entry(c, q) {
        ({
            let e = post.statement_cache.entries@.last();
            &&& post.statement_cache.entries@ == cache_after(
                c.statement_cache.entries@,
                q.sql@,
                q.bind_types@,
                e,
            )
            &&& entry_matches(e, q.sql@, q.bind_types@)
            &&& (e.statement.name matches Some(nm) && nm@ == statement_name_rep(
                c.statement_cache.entries@.len(),
            ))
        })
    } else {
        post.statement_cache.entries@ == c.statement_cache.entries@
    }
}

impl PgConnection {
    /// Looks the query's statement up in the cache, or prepares it in one
    /// round trip: under a deterministic fresh name when the shape is
    /// cacheable, unnamed otherwise. A failed prepare leaves the cache
    /// unmodified.
    pub fn with_prepared_query(&mut self, source: &Query) -> (r: Result<Statement, Error>)
        ensures
            final(self).transaction_state == old(self).transaction_state,
            cache_entries_after(*old(self), *source, *final(self)),
            distinct_keys(old(self).statement_cache.entries@) ==> distinct_keys(
                final(self).statement_cache.entries@,
            ),
            prepare_trips(*old(self), *source) == 0 ==> {
                &&& final(self).raw_connection == old(self).raw_connection
                &&& (r matches Ok(st) && (exists|i: int|
                    0 <= i < old(self).statement_cache.entries@.len() && entry_matches(
                        #[trigger] old(self).statement_cache.entries@[i],
                        source.sql@,
                        source.bind_types@,
                    ) && (forall|j: int|
                        0 <= j < i ==> !entry_matches(
                            #[trigger] old(self).statement_cache.entries@[j],
                            source.sql@,
                            source.bind_types@,
                        )) && same_statement(old(self).statement_cache.entries@[i].statement, st)))
            },
            prepare_trips(*old(self), *source) == 1 ==> {
                let t = old(self).raw_connection.transcript@;
                &&& !old(self).raw_connection.open ==> (final(self).raw_connection == old(
                    self,
                ).raw_connection && (r matches Err(e) && is_closed_connection_error(e)))
                &&& old(self).raw_connection.open ==> {
                    &&& bad_at(t, 0) ==> ((r matches Err(e) && old(self).raw_connection.reply_error(
                        0,
                        e,
                    )) && RawConnection::served(
                        old(self).raw_connection,
                        final(self).raw_connection,
                        consumed_when_bad_at(t, 0),
                    ))
                    &&& ok_prefix(t, 1) ==> {
                        &&& RawConnection::served(
                            old(self).raw_connection,
                            final(self).raw_connection,
                            1,
                        )
                        &&& (r matches Ok(st) && {
                            &&& st.sql@ == source.sql@
                            &&& st.bind_types@ == source.bind_types@
                            &&& source.cacheable ==> (st.name matches Some(nm) && nm@
                                == statement_name_rep(old(self).statement_cache.entries@.len()))
                            &&& !source.cacheable ==> st.name is None
                            &&& source.cacheable ==> same_statement(
                                final(self).statement_cache.entries@.last().statement,
                                st,
                            )
                        })
                    }
                }
            },
    {
        if !source.cacheable {
            let r = Statement::prepare(
                &mut self.raw_connection,
                source.sql.as_str(),
                None,
                &source.bind_types,
            );
            proof {
                assert(old(self).raw_connection.transcript@.skip(0) =~= old(
                    self,
                ).raw_connection.transcript@);
            }
            return r;
        }
        match self.statement_cache.lookup(&source.sql, &source.bind_types) {
            Some(i) => Ok(self.statement_cache.statement_at(i)),
            None => {
                let cache_len = self.statement_cache.len();
                let fresh_name = statement_name(cache_len as u64);
                match Statement::prepare(
                    &mut self.raw_connection,
                    source.sql.as_str(),
                    Some(fresh_name),
                    &source.bind_types,
                ) {
                    Ok(stmt) => {
                        let handed_out = stmt.duplicate();
                        let entry = StatementCacheEntry {
                            sql: source.sql.clone(),
                            bind_types: source.bind_types.clone(),
                            statement: stmt,
                        };
                        proof {
                            assert(entry.bind_types@ =~= source.bind_types@);
                            if distinct_keys(old(self).statement_cache.entries@) {
                                crate::statement_cache::lemma_cache_after_distinct_keys(
                                    old(self).statement_cache.entries@,
                                    source.sql@,
                                    source.bind_types@,
                                    entry,
                                );
                            }
                        }
                        self.statement_cache.insert(entry);
                        Ok(handed_out)
                    },
                    Err(e) => {
                        proof {
                            assert(old(self).raw_connection.transcript@.skip(0) =~= old(
                                self,
                            ).raw_connection.transcript@);
                        }
                        Err(e)
                    },
                }
            },
        }
    }

    /// Prepares `query` unnamed with no bind parameters and executes it:
    /// two round trips, the cache untouched.
    pub fn execute_inner(&mut self, query: &str) -> (r: Result<PgResult, Error>)
        ensures
            final(self).statement_cache.entries@ == old(self).statement_cache.entries@,
            final(self).transaction_state == old(self).transaction_state,
            !old(self).raw_connection.open ==> (final(self).raw_connection == old(
                self,
            ).raw_connection && (r matches Err(e) && is_closed_connection_error(e))),
            old(self).raw_connection.open ==> {
                let t = old(self).raw_connection.transcript@;
                &&& ok_prefix(t, 2) ==> ((r matches Ok(res) && res.is_result_of(t[1].outcome))
                    && RawConnection::served(
                    old(self).raw_connection,
                    final(self).raw_connection,
                    2,
                ))
                &&& forall|j: int|
                    0 <= j < 2 && bad_at(t, j) ==> ((r matches Err(e)
                        && old(self).raw_connection.reply_error(j, e)) && RawConnection::served(
                        old(self).raw_connection,
                        final(self).raw_connection,
                        consumed_when_bad_at(t, j),
                    ))
            },
    {
        let ghost t = old(self).raw_connection.transcript@;
        let no_types: Vec<u32> = Vec::new();
        let prepared = match Statement::prepare(&mut self.raw_connection, query, None, &no_types) {
            Ok(s) => s,
            Err(e) => {
                proof {
                    assert(t.skip(0) =~= t);
                }
                return Err(e);
            },
        };
        let ghost mid = self.raw_connection;
        let no_binds: Vec<Option<Vec<u8>>> = Vec::new();
        let r = prepared.execute(&mut self.raw_connection, &no_binds);
        proof {
            if old(self).raw_connection.open {
                assert(RawConnection::served(old(self).raw_connection, mid, 1));
                if mid.transcript@.len() > 0 {
                    assert(mid.transcript@[0] == t[1]);
                }
                if ok_prefix(t, 2) {
                    crate::raw::lemma_served_compose(
                        old(self).raw_connection,
                        mid,
                        final(self).raw_connection,
                        1,
                        1,
                    );
                }
                assert forall|j: int| 0 <= j < 2 && bad_at(t, j) implies ((r matches Err(e)
                    && old(self).raw_connection.reply_error(j, e)) && RawConnection::served(
                    old(self).raw_connection,
                    final(self).raw_connection,
                    consumed_when_bad_at(t, j),
                )) by {
                    assert(j == 1);
                    if 1 < t.len() {
                        crate::raw::lemma_served_compose(
                            old(self).raw_connection,
                            mid,
                            final(self).raw_connection,
                            1,
                            1,
                        );
                    }
                }
            }
        }
        r
    }

    /// Executes literal SQL and reports the affected-row count.
    pub fn execute(&mut self, query: &str) -> (r: Result<usize, Error>)
        ensures
            final(self).statement_cache.entries@ == old(self).statement_cache.entries@,
            final(self).transaction_state == old(self).transaction_state,
            !old(self).raw_connection.open ==> (final(self).raw_connection == old(
                self,
            ).raw_connection && (r matches Err(e) && is_closed_connection_error(e))),
            old(self).raw_connection.open ==> {
                let t = old(self).raw_connection.transcript@;
                &&& ok_prefix(t, 2) ==> ((r matches Ok(c) && c == rows_affected_of(t[1].outcome))
                    && RawConnection::served(
                    old(self).raw_connection,
                    final(self).raw_connection,
                    2,
                ))
                &&& forall|j: int|
                    0 <= j < 2 && bad_at(t, j) ==> ((r matches Err(e)
                        && old(self).raw_connection.reply_error(j, e)) && RawConnection::served(
                        old(self).raw_connection,
                        final(self).raw_connection,
                        consumed_when_bad_at(t, j),
                    ))
            },
    {
        match self.execute_inner(query) {
            Ok(res) => Ok(res.rows_affected()),
            Err(e) => Err(e),
        }
    }

    /// Executes a batch of literal SQL in a single round trip.
    pub fn batch_execute(&mut self, query: &str) -> (r: Result<(), Error>)
        ensures
            final(self).statement_cache.entries@ == old(self).statement_cache.entries@,
            final(self).transaction_state == old(self).transaction_state,
            !old(self).raw_connection.open ==> (final(self).raw_connection == old(
                self,
            ).raw_connection && (r matches Err(e) && is_closed_connection_error(e))),
            old(self).raw_connection.open ==> {
                let t = old(self).raw_connection.transcript@;
                &&& ok_prefix(t, 1) ==> (r is Ok && RawConnection::served(
                    old(self).raw_connection,
                    final(self).raw_connection,
                    1,
                ))
                &&& bad_at(t, 0) ==> ((r matches Err(e) && old(self).raw_connection.reply_error(
                    0,
                    e,
                )) && RawConnection::served(
                    old(self).raw_connection,
                    final(self).raw_connection,
                    consumed_when_bad_at(t, 0),
                ))
            },
    {
        let r = self.raw_connection.submit_query(query);
        proof {
            assert(old(self).raw_connection.transcript@.skip(0) =~= old(
                self,
            ).raw_connection.transcript@);
        }
        match r {
            Ok(_) => Ok(()),
            Err(e) => Err(e),
        }
    }

    /// Serves a logical `load`: looks up or prepares the statement, binds
    /// the query's values, executes, and wraps the materialized result in
    /// a forward-only cursor.
    pub fn load(&mut self, source: &Query) -> (r: Result<Cursor, Error>)
        ensures
            final(self).transaction_state == old(self).transaction_state,
            cache_entries_after(*old(self), *source, *final(self)),
            distinct_keys(old(self).statement_cache.entries@) ==> distinct_keys(
                final(self).statement_cache.entries@,
            ),
            !old(self).raw_connection.open ==> (final(self).raw_connection == old(
                self,
            ).raw_connection && (r matches Err(e) && is_closed_connection_error(e))),
            old(self).raw_connection.open ==> {
                let t = old(self).raw_connection.transcript@;
                let n = prepare_trips(*old(self), *source);
                &&& ok_prefix(t, n + 1) ==> ((r matches Ok(c) && c.result.is_result_of(
                    t[n].outcome,
                )) && RawConnection::served(
                    old(self).raw_connection,
                    final(self).raw_connection,
                    n + 1,
                ))
                &&& forall|j: int|
                    0 <= j < n + 1 && bad_at(t, j) ==> ((r matches Err(e)
                        && old(self).raw_connection.reply_error(j, e)) && RawConnection::served(
                        old(self).raw_connection,
                        final(self).raw_connection,
                        consumed_when_bad_at(t, j),
                    ))
            },
    {
        let ghost t = old(self).raw_connection.transcript@;
        let ghost n = prepare_trips(*old(self), *source);
        let prepared = match self.with_prepared_query(source) {
            Ok(s) => s,
            Err(e) => {
                return Err(e);
            },
        };
        let ghost mid = self.raw_connection;
        let r = prepared.execute(&mut self.raw_connection, &source.binds);
        proof {
            if old(self).raw_connection.open {
                if n == 0 {
                    assert(t.skip(0) =~= t);
                } else {
                    assert(!bad_at(t, 0));
                    assert(ok_prefix(t, 1));
                }
                assert(RawConnection::served(old(self).raw_connection, mid, n));
                if mid.transcript@.len() > 0 && n < t.len() {
                    assert(mid.transcript@[0] == t[n]);
                }
                if ok_prefix(t, n + 1) {
                    crate::raw::lemma_served_compose(
                        old(self).raw_connection,
                        mid,
                        final(self).raw_connection,
                        n,
                        1,
                    );
                }
                assert forall|j: int| 0 <= j < n + 1 && bad_at(t, j) implies ((r matches Err(e)
                    && old(self).raw_connection.reply_error(j, e)) && RawConnection::served(
                    old(self).raw_connection,
                    final(self).raw_connection,
                    consumed_when_bad_at(t, j),
                )) by {
                    assert(j == n);
                    if n < t.len() {
                        crate::raw::lemma_served_compose(
                            old(self).raw_connection,
                            mid,
                            final(self).raw_connection,
                            n,
                            1,
                        );
                    }
                }
            }
        }
        match r {
            Ok(res) => Ok(Cursor::new(res)),
            Err(e) => Err(e),
        }
    }

    /// Serves a logical `execute`: looks up or prepares the statement,
    /// executes it, and reports only the affected-row count.
    pub fn execute_returning_count(&mut self, source: &Query) -> (r: Result<usize, Error>)
        ensures
            final(self).transaction_state == old(self).transaction_state,
            cache_entries_after(*old(self), *source, *final(self)),
            distinct_keys(old(self).statement_cache.entries@) ==> distinct_keys(
                final(self).statement_cache.entries@,
            ),
            !old(self).raw_connection.open ==> (final(self).raw_connection == old(
                self,
            ).raw_connection && (r matches Err(e) && is_closed_connection_error(e))),
            old(self).raw_connection.open ==> {
                let t = old(self).raw_connection.transcript@;
                let n = prepare_trips(*old(self), *source);
                &&& ok_prefix(t, n + 1) ==> ((r matches Ok(c) && c == rows_affected_of(
                    t[n].outcome,
                )) && RawConnection::served(
                    old(self).raw_connection,
                    final(self).raw_connection,
                    n + 1,
                ))
                &&& forall|j: int|
                    0 <= j < n + 1 && bad_at(t, j) ==> ((r matches Err(e)
                        && old(self).raw_connection.reply_error(j, e)) && RawConnection::served(
                        old(self).raw_connection,
                        final(self).raw_connection,
                        consumed_when_bad_at(t, j),
                    ))
            },
    {
        let ghost t = old(self).raw_connection.transcript@;
        let ghost n = prepare_trips(*old(self), *source);
        let prepared = match self.with_prepared_query(source) {
            Ok(s) => s,
            Err(e) => {
                return Err(e);
            },
        };
        let ghost mid = self.raw_connection;
        let r = prepared.execute(&mut self.raw_connection, &source.binds);
        proof {
            if old(self).raw_connection.open {
                if n == 0 {
                    assert(t.skip(0) =~= t);
                } else {
                    assert(!bad_at(t, 0));
                    assert(ok_prefix(t, 1));
                }
                assert(RawConnection::served(old(self).raw_connection, mid, n));
                if mid.transcript@.len() > 0 && n < t.len() {
                    assert(mid.transcript@[0] == t[n]);
                }
                if ok_prefix(t, n + 1) {
                    crate::raw::lemma_served_compose(
                        old(self).raw_connection,
                        mid,
                        final(self).raw_connection,
                        n,
                        1,
                    );
                }
                assert forall|j: int| 0 <= j < n + 1 && bad_at(t, j) implies ((r matches Err(e)
                    && old(self).raw_connection.reply_error(j, e)) && RawConnection::served(
                    old(self).raw_connection,
                    final(self).raw_connection,
                    consumed_when_bad_at(t, j),
                )) by {
                    assert(j == n);
                    if n < t.len() {
                        crate::raw::lemma_served_compose(
                            old(self).raw_connection,
                            mid,
                            final(self).raw_connection,
                            n,
                            1,
                        );
                    }
                }
            }
        }
        match r {
            Ok(res) => Ok(res.rows_affected()),
            Err(e) => Err(e),
        }
    }

    /// Runs the mandatory session setup: forces the UTC time zone and the
    /// UTF-8 client encoding (two statements, two round trips each), then
    /// installs the notice-suppressing processor. The first failure is
    /// surfaced, never silently ignored.
    pub fn set_config_options(&mut self) -> (r: Result<(), Error>)
        ensures
            final(self).statement_cache.entries@ == old(self).statement_cache.entries@,
            final(self).transaction_state == old(self).transaction_state,
            !old(self).raw_connection.open ==> (final(self).raw_connection == old(
                self,
            ).raw_connection && (r matches Err(e) && is_closed_connection_error(e))),
            old(self).raw_connection.open ==> {
                let t = old(self).raw_connection.transcript@;
                &&& ok_prefix(t, 4) ==> (r is Ok && {
                    &&& final(self).raw_connection.open
                    &&& final(self).raw_connection.notices_suppressed
                    &&& final(self).raw_connection.status == t[3].status_after
                    &&& final(self).raw_connection.transcript@ == t.skip(4)
                })
                &&& forall|j: int|
                    0 <= j < 4 && bad_at(t, j) ==> ((r matches Err(e)
                        && old(self).raw_connection.reply_error(j, e)) && RawConnection::served(
                        old(self).raw_connection,
                        final(self).raw_connection,
                        consumed_when_bad_at(t, j),
                    ))
            },
    {
        let ghost t = old(self).raw_connection.transcript@;
        match self.execute("SET TIME ZONE 'UTC'") {
            Ok(_) => (),
            Err(e) => {
                return Err(e);
            },
        }
        let ghost mid = self.raw_connection;
        let r2 = self.execute("SET CLIENT_ENCODING TO 'UTF8'");
        let ghost fin2 = self.raw_connection;
        proof {
            if old(self).raw_connection.open {
                assert(!bad_at(t, 0) && !bad_at(t, 1));
                assert(ok_prefix(t, 1));
                assert(ok_prefix(t, 2));
                assert(RawConnection::served(old(self).raw_connection, mid, 2));
                assert(mid.transcript@ == t.skip(2));
                if ok_prefix(t, 4) {
                    crate::raw::lemma_ok_prefix_split(t, 2, 2);
                    assert(ok_prefix(mid.transcript@, 2));
                    crate::raw::lemma_served_compose(
                        old(self).raw_connection,
                        mid,
                        fin2,
                        2,
                        2,
                    );
                    assert(t.skip(2)[1] == t[3]);
                }
                assert forall|j: int| 0 <= j < 4 && bad_at(t, j) implies ((r2 matches Err(e)
                    && old(self).raw_connection.reply_error(j, e)) && RawConnection::served(
                    old(self).raw_connection,
                    fin2,
                    consumed_when_bad_at(t, j),
                )) by {
                    assert(j == 2 || j == 3);
                    crate::raw::lemma_bad_at_shift(t, 2, j);
                    crate::raw::lemma_served_compose(
                        old(self).raw_connection,
                        mid,
                        fin2,
                        2,
                        consumed_when_bad_at(t.skip(2), j - 2),
                    );
                }
            }
        }
        match r2 {
            Ok(_) => {
                self.raw_connection.set_notice_processor_noop();
                Ok(())
            },
            Err(e) => Err(e),
        }
    }

    /// Opens a connection and runs the session setup before handing it
    /// over: a rejected connection string or connection attempt is a
    /// connect error, a rejected setup statement a configuration error,
    /// and in neither case is a usable connection returned.
    pub fn establish(database_url: &str, transcript: Vec<ServerReply>) -> (r: Result<
        PgConnection,
        ConnectionError,
    >)
        ensures
            r is Ok <==> (connection_url_well_formed(database_url@) && ok_prefix(transcript@, 5)),
            r matches Ok(conn) ==> {
                &&& conn.raw_connection.open
                &&& conn.raw_connection.notices_suppressed
                &&& conn.raw_connection.status == transcript@[4].status_after
                &&& conn.raw_connection.transcript@ == transcript@.skip(5)
                &&& conn.statement_cache.entries@ == Seq::<StatementCacheEntry>::empty()
                &&& conn.transaction_state.depth == Some(0u64)
            },
            !connection_url_well_formed(database_url@) ==> (r matches Err(e) && (
            e matches ConnectionError::InvalidConnectionUrl(u) && u@ == database_url@)),
            connection_url_well_formed(database_url@) && transcript@.len() == 0 ==> (r matches Err(
                e,
            ) && (e matches ConnectionError::BadConnection(m) && m@ == Seq::<char>::empty())),
            connection_url_well_formed(database_url@) && transcript@.len() > 0
                && transcript@[0].outcome is Failure ==> (r matches Err(e) && (
            e matches ConnectionError::BadConnection(m) && m@
                == transcript@[0].outcome->Failure_message@)),
            connection_url_well_formed(database_url@) && ok_prefix(transcript@, 1) ==> forall|
                j: int,
            |
                1 <= j < 5 && bad_at(transcript@, j) ==> (r matches Err(e) && (
                e matches ConnectionError::CouldntSetupConfiguration(inner)
                    && crate::raw::transcript_error(transcript@, j, inner))),
    {
        let ghost t = transcript@;
        let raw = match RawConnection::establish(database_url, transcript) {
            Ok(c) => c,
            Err(e) => {
                return Err(e);
            },
        };
        let mut conn = PgConnection {
            raw_connection: raw,
            transaction_state: TransactionState { depth: Some(0) },
            statement_cache: StatementCache::new(),
        };
        let ghost mid = conn.raw_connection;
        let r = conn.set_config_options();
        proof {
            assert(mid.transcript@ == t.skip(1));
            if ok_prefix(t, 5) {
                crate::raw::lemma_ok_prefix_split(t, 1, 4);
                assert(ok_prefix(mid.transcript@, 4));
                assert(t.skip(1)[3] == t[4]);
                crate::raw::lemma_skip_skip(t, 1, 4);
            }
            if r is Ok {
                // a successful setup spends four successful round trips
                assert(!bad_at(mid.transcript@, 0));
                assert(ok_prefix(mid.transcript@, 1));
                assert(!bad_at(mid.transcript@, 1));
                assert(ok_prefix(mid.transcript@, 2));
                assert(!bad_at(mid.transcript@, 2));
                assert(ok_prefix(mid.transcript@, 3));
                assert(!bad_at(mid.transcript@, 3));
                assert(ok_prefix(mid.transcript@, 4));
                crate::raw::lemma_ok_prefix_split(t, 1, 4);
            }
            assert forall|j: int| 1 <= j < 5 && bad_at(t, j) implies (r matches Err(inner)
                && crate::raw::transcript_error(t, j, inner)) by {
                crate::raw::lemma_ok_prefix_split(t, 1, j - 1);
                crate::raw::lemma_bad_at_shift(t, 1, j);
            }
        }
        match r {
            Ok(_) => Ok(conn),
            Err(e) => Err(ConnectionError::CouldntSetupConfiguration(e)),
        }
    }

    /// Executes a trivial query as a liveness probe.
    pub fn ping(&mut self) -> (r: Result<(), Error>)
        ensures
            final(self).statement_cache.entries@ == old(self).statement_cache.entries@,
            final(self).transaction_state == old(self).transaction_state,
            !old(self).raw_connection.open ==> (final(self).raw_connection == old(
                self,
            ).raw_connection && (r matches Err(e) && is_closed_connection_error(e))),
            old(self).raw_connection.open ==> {
                let t = old(self).raw_connection.transcript@;
                &&& ok_prefix(t, 2) ==> (r is Ok && RawConnection::served(
                    old(self).raw_connection,
                    final(self).raw_connection,
                    2,
                ))
                &&& forall|j: int|
                    0 <= j < 2 && bad_at(t, j) ==> ((r matches Err(e)
                        && old(self).raw_connection.reply_error(j, e)) && RawConnection::served(
                        old(self).raw_connection,
                        final(self).raw_connection,
                        consumed_when_bad_at(t, j),
                    ))
            },
    {
        match self.execute("SELECT 1") {
            Ok(_) => Ok(()),
            Err(e) => Err(e),
        }
    }

    /// Whether the connection state is broken: the transaction-depth
    /// state can no longer be determined and the connection must be
    /// discarded rather than retried.
    pub fn is_broken(&self) -> (r: bool)
        ensures
            r == (self.transaction_state.depth is None),
    {
        match self.transaction_state.depth {
            None => true,
            Some(_) => false,
        }
    }

    /// The transaction-depth state the facade owns, for the external
    /// transaction manager to inspect.
    pub fn transaction_state(&self) -> (s: TransactionState)
        ensures
            s == self.transaction_state,
    {
        self.transaction_state
    }

    /// Classifies a failed commit from this connection's transaction
    /// depth and the server-reported transaction status. Calling this
    /// with no transaction open is a programming error in the transaction
    /// manager, so that input is excluded.
    pub fn process_commit_error(&self, error: Error) -> (r: CommitErrorOutcome)
        requires
            !(self.transaction_state.depth matches Some(d) && d == 0),
        ensures
            r == spec_classify_commit_error(
                self.transaction_state.depth,
                self.raw_connection.status,
                error,
            ),
    {
        classify_commit_error(
            self.transaction_state.transaction_depth(),
            self.raw_connection.transaction_status(),
            error,
        )
    }

    /// Starts configuring a transaction with explicitly chosen isolation
    /// level, read mode and deferrable property.
    pub fn build_transaction(&self) -> (b: TransactionBuilder)
        ensures
            b.isolation_level is None,
            b.read_only is None,
            b.deferrable is None,
    {
        TransactionBuilder::new()
    }
}

} // verus!
