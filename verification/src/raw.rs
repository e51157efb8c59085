//! The native connection handle and the wire model beneath it.
//!
//! One round trip with the server is one `ServerReply`: the reply settles
//! the outcome of the submitted work and, as the protocol's ready-for-query
//! message does, reports the session's transaction status afterwards. The
//! handle owns a transcript of the replies still to come and consumes one
//! per round trip; every caller is therefore verified against every reply
//! the server could send. Submitting on a closed handle, or once the
//! transcript is exhausted, fails with a closed-connection error and
//! changes nothing.

use vstd::prelude::*;
use vstd::string::{StrSliceExecFns, StringExecFns};

use crate::error::{
    closed_connection_error, is_closed_connection_error, ConnectionError, DatabaseErrorInformation,
    DatabaseErrorKind, Error,
};
use crate::result::PgResult;

verus! {

/// The transaction status the server reports after each round trip.
#[derive(Clone, Copy, Debug, PartialEq, Eq, Structural)]
pub enum PgTransactionStatus {
    /// No transaction is open.
    Idle,
    /// A transaction is open and healthy.
    InTransaction,
    /// A transaction is open and has failed; only rollback will be accepted.
    InError,
    /// The session state cannot be determined; the connection is not to be
    /// trusted for further transactional work.
    Unknown,
}

/// What the server decided about one submitted piece of work.
#[derive(Debug, Clone, PartialEq, Eq)]
pub enum ReplyOutcome {
    /// A result set: column type identifiers and per-cell bytes, each cell
    /// nullable.
    Rows { column_types: Vec<u32>, rows: Vec<Vec<Option<Vec<u8>>>> },
    /// A command completed without producing rows.
    Command { rows_affected: usize },
    /// The server rejected the work.
    Failure { kind: DatabaseErrorKind, message: String, statement_position: Option<u64> },
}

/// One server round trip: the outcome, and the transaction status the
/// session is in once the reply has been read.
#[derive(Debug, Clone, PartialEq, Eq)]
pub struct ServerReply {
    pub outcome: ReplyOutcome,
    pub status_after: PgTransactionStatus,
}

/// The error a `Failure` outcome is surfaced as.
pub open spec fn failure_error(o: ReplyOutcome) -> Error
    recommends
        o is Failure,
{
    Error::DatabaseError(
        o->Failure_kind,
        DatabaseErrorInformation {
            message: o->Failure_message,
            statement_position: o->Failure_statement_position,
        },
    )
}

/// The first `k` replies of the transcript exist and all succeed.
pub open spec fn ok_prefix(t: Seq<ServerReply>, k: int) -> bool {
    t.len() >= k && forall|i: int| 0 <= i < k ==> !(#[trigger] t[i].outcome is Failure)
}

/// Round trip number `j` (counted from zero) is the first to fail: all
/// before it succeed, and it is either a rejection or past the end of the
/// transcript.
pub open spec fn bad_at(t: Seq<ServerReply>, j: int) -> bool {
    ok_prefix(t, j) && (j >= t.len() || t[j].outcome is Failure)
}

/// How many replies a run of round trips consumes when round trip `j` is
/// the first to fail: the failing reply itself is consumed, but nothing
/// is once the transcript is exhausted.
pub open spec fn consumed_when_bad_at(t: Seq<ServerReply>, j: int) -> int {
    if j < t.len() {
        j + 1
    } else {
        j
    }
}

/// The error round trip number `i` of a transcript fails with, assuming
/// all round trips before it succeeded: the translated server failure, or
/// the closed-connection error once the transcript is exhausted.
pub open spec fn transcript_error(t: Seq<ServerReply>, i: int, e: Error) -> bool {
    if i < t.len() {
        e == failure_error(t[i].outcome)
    } else {
        is_closed_connection_error(e)
    }
}

/// Skipping in two steps is skipping the sum.
pub proof fn lemma_skip_skip(t: Seq<ServerReply>, a: int, b: int)
    requires
        0 <= a,
        0 <= b,
        a + b <= t.len(),
    ensures
        t.skip(a).skip(b) == t.skip(a + b),
{
    assert(t.skip(a).skip(b) =~= t.skip(a + b));
}

/// A successful prefix splits at any point.
pub proof fn lemma_ok_prefix_split(t: Seq<ServerReply>, k: int, m: int)
    requires
        0 <= k,
        0 <= m,
    ensures
        ok_prefix(t, k + m) <==> (ok_prefix(t, k) && ok_prefix(t.skip(k), m)),
{
    if ok_prefix(t, k + m) {
        assert forall|i: int| 0 <= i < m implies !(#[trigger] t.skip(k)[i].outcome is Failure) by {
            assert(t.skip(k)[i] == t[k + i]);
        }
    }
    if ok_prefix(t, k) && ok_prefix(t.skip(k), m) {
        assert forall|i: int| 0 <= i < k + m implies !(#[trigger] t[i].outcome is Failure) by {
            if i >= k {
                assert(t.skip(k)[i - k] == t[i]);
            }
        }
    }
}

/// Against a transcript whose first `k` replies succeed, the first
/// failure past them is the first failure of the rest, shifted.
pub proof fn lemma_bad_at_shift(t: Seq<ServerReply>, k: int, j: int)
    requires
        0 <= k <= j,
        ok_prefix(t, k),
    ensures
        bad_at(t, j) <==> bad_at(t.skip(k), j - k),
        bad_at(t, j) ==> consumed_when_bad_at(t, j) == k + consumed_when_bad_at(t.skip(k), j - k),
        j < t.len() ==> t.skip(k)[j - k] == t[j],
{
    assert(forall|i: int| 0 <= i < t.len() - k ==> #[trigger] t.skip(k)[i] == t[i + k]);
    lemma_ok_prefix_split(t, k, j - k);
}

/// Two runs of round trips, one after the other, are one longer run.
pub proof fn lemma_served_compose(a: RawConnection, b: RawConnection, c: RawConnection, k1: int, k2: int)
    requires
        0 <= k1 <= a.transcript@.len(),
        0 <= k2 <= b.transcript@.len(),
        RawConnection::served(a, b, k1),
        RawConnection::served(b, c, k2),
    ensures
        RawConnection::served(a, c, k1 + k2),
{
    lemma_skip_skip(a.transcript@, k1, k2);
    if k2 > 0 {
        assert(b.transcript@[k2 - 1] == a.transcript@[k1 + k2 - 1]);
    }
}

/// An accepted connection string: empty (all defaults), a URL under one
/// of the two accepted schemes, or a keyword/value list (recognized by a
/// `=` somewhere in it).
pub open spec fn connection_url_well_formed(url: Seq<char>) -> bool {
    ||| url.len() == 0
    ||| url.len() >= 11 && url.subrange(0, 11) == "postgres://"@
    ||| url.len() >= 13 && url.subrange(0, 13) == "postgresql://"@
    ||| exists|i: int| 0 <= i < url.len() && url[i] == '='
}

/// Whether `s` starts with `p`.
fn has_prefix(s: &str, p: &str) -> (r: bool)
    ensures
        r == (s@.len() >= p@.len() && s@.subrange(0, p@.len() as int) == p@),
{
    let n = p.unicode_len();
    if s.unicode_len() < n {
        return false;
    }
    let mut i: usize = 0;
    while i < n
        invariant
            n == p@.len(),
            s@.len() >= n,
            i <= n,
            forall|j: int| 0 <= j < i ==> s@[j] == p@[j],
        decreases n - i,
    {
        if s.get_char(i) != p.get_char(i) {
            return false;
        }
        i = i + 1;
    }
    proof {
        assert(s@.subrange(0, p@.len() as int) =~= p@);
    }
    true
}

/// Whether `s` contains a `=`.
fn contains_equals_sign(s: &str) -> (r: bool)
    ensures
        r == exists|i: int| 0 <= i < s@.len() && s@[i] == '=',
{
    let n = s.unicode_len();
    let mut i: usize = 0;
    while i < n
        invariant
            n == s@.len(),
            i <= n,
            forall|j: int| 0 <= j < i ==> s@[j] != '=',
        decreases n - i,
    {
        if s.get_char(i) == '=' {
            return true;
        }
        i = i + 1;
    }
    false
}

/// Decides `connection_url_well_formed`.
pub fn check_connection_url(url: &str) -> (r: bool)
    ensures
        r == connection_url_well_formed(url@),
{
    if url.unicode_len() == 0 {
        return true;
    }
    if has_prefix(url, "postgres://") {
        proof {
            reveal_strlit("postgres://");
        }
        return true;
    }
    if has_prefix(url, "postgresql://") {
        proof {
            reveal_strlit("postgresql://");
        }
        return true;
    }
    proof {
        reveal_strlit("postgres://");
        reveal_strlit("postgresql://");
    }
    contains_equals_sign(url)
}

/// The owning handle over the native connection: open/closed state, the
/// last reported transaction status, notice suppression, and the
/// transcript of server replies still to be consumed.
#[derive(Debug)]
pub struct RawConnection {
    pub open: bool,
    pub status: PgTransactionStatus,
    pub notices_suppressed: bool,
    pub transcript: Vec<ServerReply>,
}

impl RawConnection {
    /// Opens the connection. A malformed connection string is rejected
    /// outright; otherwise the connection attempt is the first round
    /// trip: a rejection (or an empty transcript, standing for an
    /// unreachable server) surfaces as a bad connection.
    pub fn establish(database_url: &str, transcript: Vec<ServerReply>) -> (r: Result<
        RawConnection,
        ConnectionError,
    >)
        ensures
            !connection_url_well_formed(database_url@) ==> (r matches Err(e)
                && (e matches ConnectionError::InvalidConnectionUrl(u) && u@ == database_url@)),
            connection_url_well_formed(database_url@) && transcript@.len() == 0 ==> (r matches Err(
                e,
            ) && (e matches ConnectionError::BadConnection(m) && m@ == Seq::<char>::empty())),
            connection_url_well_formed(database_url@) && transcript@.len() > 0 ==> {
                if transcript@[0].outcome is Failure {
                    r matches Err(e) && (e matches ConnectionError::BadConnection(m)
                        && m@ == transcript@[0].outcome->Failure_message@)
                } else {
                    r matches Ok(conn) && {
                        &&& conn.open
                        &&& !conn.notices_suppressed
                        &&& conn.status == transcript@[0].status_after
                        &&& conn.transcript@ == transcript@.skip(1)
                    }
                }
            },
    {
        if !check_connection_url(database_url) {
            return Err(ConnectionError::InvalidConnectionUrl(String::from_str(database_url)));
        }
        let mut transcript = transcript;
        if transcript.len() == 0 {
            return Err(ConnectionError::BadConnection(String::new()));
        }
        let ghost t0 = transcript@;
        let reply = transcript.remove(0);
        proof {
            assert(transcript@ =~= t0.skip(1));
        }
        match reply.outcome {
            ReplyOutcome::Failure { message, .. } => Err(ConnectionError::BadConnection(message)),
            _ => Ok(
                RawConnection {
                    open: true,
                    status: reply.status_after,
                    notices_suppressed: false,
                    transcript,
                },
            ),
        }
    }

    /// The handle can perform a round trip: it is open and a reply remains.
    pub open spec fn has_reply(self) -> bool {
        self.open && self.transcript@.len() > 0
    }

    /// The reply the next round trip will consume.
    pub open spec fn head_reply(self) -> ServerReply
        recommends
            self.has_reply(),
    {
        self.transcript@[0]
    }

    /// How one round trip changes the handle: the head reply is consumed
    /// and the reported status is adopted.
    pub open spec fn stepped(pre: Self, post: Self) -> bool {
        &&& post.transcript@ == pre.transcript@.skip(1)
        &&& post.status == pre.transcript@[0].status_after
        &&& post.open == pre.open
        &&& post.notices_suppressed == pre.notices_suppressed
    }

    /// How `k` round trips change the handle.
    pub open spec fn served(pre: Self, post: Self, k: int) -> bool {
        &&& post.transcript@ == pre.transcript@.skip(k)
        &&& k > 0 ==> post.status == pre.transcript@[k - 1].status_after
        &&& k == 0 ==> post.status == pre.status
        &&& post.open == pre.open
        &&& post.notices_suppressed == pre.notices_suppressed
    }

    /// The error round trip number `i` (counted from zero) fails with,
    /// assuming all round trips before it succeeded: the translated server
    /// failure, or the closed-connection error once the transcript is
    /// exhausted.
    pub open spec fn reply_error(self, i: int, e: Error) -> bool {
        transcript_error(self.transcript@, i, e)
    }

    /// Performs one round trip: consumes the head reply, adopts the status
    /// it reports, and translates a rejection into a database error.
    pub fn round_trip(&mut self) -> (r: Result<ReplyOutcome, Error>)
        ensures
            old(self).has_reply() ==> {
                &&& Self::stepped(*old(self), *final(self))
                &&& if old(self).head_reply().outcome is Failure {
                    r matches Err(e) && e == failure_error(old(self).head_reply().outcome)
                } else {
                    r matches Ok(o) && o == old(self).head_reply().outcome
                }
            },
            !old(self).has_reply() ==> {
                &&& *final(self) == *old(self)
                &&& r matches Err(e) && is_closed_connection_error(e)
            },
    {
        if !self.open || self.transcript.len() == 0 {
            return Err(closed_connection_error());
        }
        let reply = self.transcript.remove(0);
        self.status = reply.status_after;
        proof {
            assert(final(self).transcript@ =~= old(self).transcript@.skip(1));
        }
        match reply.outcome {
            ReplyOutcome::Failure { kind, message, statement_position } => Err(
                Error::DatabaseError(
                    kind,
                    DatabaseErrorInformation { message, statement_position },
                ),
            ),
            outcome => Ok(outcome),
        }
    }

    /// Sends literal SQL for execution in one round trip and materializes
    /// the result. The sole blocking point of the driver in deployment.
    pub fn submit_query(&mut self, sql: &str) -> (r: Result<PgResult, Error>)
        ensures
            old(self).has_reply() ==> {
                &&& Self::stepped(*old(self), *final(self))
                &&& if old(self).head_reply().outcome is Failure {
                    r matches Err(e) && e == failure_error(old(self).head_reply().outcome)
                } else {
                    r matches Ok(res) && res.is_result_of(old(self).head_reply().outcome)
                }
            },
            !old(self).has_reply() ==> {
                &&& *final(self) == *old(self)
                &&& r matches Err(e) && is_closed_connection_error(e)
            },
    {
        match self.round_trip() {
            Ok(outcome) => Ok(PgResult::from_outcome(outcome)),
            Err(e) => Err(e),
        }
    }

    /// The transaction status the server reported on the latest round
    /// trip. Read-only probe used by the commit-error path.
    pub fn transaction_status(&self) -> (s: PgTransactionStatus)
        ensures
            s == self.status,
    {
        self.status
    }

    /// Installs the notice processor that drops asynchronous server
    /// notices, so they never surface as spurious errors.
    pub fn set_notice_processor_noop(&mut self)
        ensures
            *final(self) == (RawConnection { notices_suppressed: true, ..*old(self) }),
    {
        self.notices_suppressed = true;
    }
}

} // verus!
