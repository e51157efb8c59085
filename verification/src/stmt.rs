//! Server-side prepared statements.
//!
//! A statement is compiled once under an optional stable name together
//! with its declared bind-parameter type signature, and is immutable from
//! then on. Cached statements carry a name derived deterministically from
//! the cache size at creation time, which keeps server-side names unique
//! within one connection's lifetime.

use vstd::prelude::*;
use vstd::string::StringExecFns;

use crate::error::Error;
use crate::raw::{failure_error, RawConnection};
use crate::result::PgResult;

verus! {

/// The character for one decimal digit.
pub open spec fn digit_char(d: nat) -> char {
    if d == 0 {
        '0'
    } else if d == 1 {
        '1'
    } else if d == 2 {
        '2'
    } else if d == 3 {
        '3'
    } else if d == 4 {
        '4'
    } else if d == 5 {
        '5'
    } else if d == 6 {
        '6'
    } else if d == 7 {
        '7'
    } else if d == 8 {
        '8'
    } else {
        '9'
    }
}

/// The decimal rendering of `n`, most significant digit first.
pub open spec fn dec_rep(n: nat) -> Seq<char>
    decreases n,
{
    if n < 10 {
        seq![digit_char(n)]
    } else {
        dec_rep(n / 10) + seq![digit_char(n % 10)]
    }
}

/// The name a cached statement receives when it is created while the
/// cache holds `n` entries.
pub open spec fn statement_name_rep(n: nat) -> Seq<char> {
    "__stmt_"@ + dec_rep(n)
}

/// The single decimal digit `d` as a string.
fn digit_string(d: u64) -> (s: String)
    requires
        d < 10,
    ensures
        s@ == seq![digit_char(d as nat)],
{
    let lit: &str = if d == 0 {
        "0"
    } else if d == 1 {
        "1"
    } else if d == 2 {
        "2"
    } else if d == 3 {
        "3"
    } else if d == 4 {
        "4"
    } else if d == 5 {
        "5"
    } else if d == 6 {
        "6"
    } else if d == 7 {
        "7"
    } else if d == 8 {
        "8"
    } else {
        "9"
    };
    proof {
        reveal_strlit("0");
        reveal_strlit("1");
        reveal_strlit("2");
        reveal_strlit("3");
        reveal_strlit("4");
        reveal_strlit("5");
        reveal_strlit("6");
        reveal_strlit("7");
        reveal_strlit("8");
        reveal_strlit("9");
        assert(lit@ =~= seq![digit_char(d as nat)]);
    }
    String::from_str(lit)
}

/// Renders `n` in decimal.
fn u64_dec_string(n: u64) -> (s: String)
    ensures
        s@ == dec_rep(n as nat),
{
    let mut acc: String = digit_string(n % 10);
    let mut m: u64 = n / 10;
    proof {
        if m > 0 {
            assert(dec_rep(n as nat) == dec_rep(n as nat / 10) + seq![digit_char(n as nat % 10)]);
        }
    }
    while m > 0
        invariant
            m > 0 ==> dec_rep(n as nat) == dec_rep(m as nat) + acc@,
            m == 0 ==> dec_rep(n as nat) == acc@,
        decreases m,
    {
        let ghost prev = acc@;
        let d = m % 10;
        acc = digit_string(d).concat(acc.as_str());
        proof {
            if m >= 10 {
                assert(dec_rep(m as nat) == dec_rep(m as nat / 10) + seq![
                    digit_char(m as nat % 10),
                ]);
                assert(dec_rep(m as nat) + prev =~= dec_rep(m as nat / 10) + acc@);
            } else {
                assert(dec_rep(m as nat) == seq![digit_char(m as nat)]);
                assert(dec_rep(m as nat) + prev =~= acc@);
            }
            assert(m as nat / 10 < m as nat) by (nonlinear_arith)
                requires
                    m > 0,
            ;
        }
        m = m / 10;
    }
    acc
}

/// The deterministic server-side name for the statement created while the
/// cache holds `n` entries.
pub fn statement_name(n: u64) -> (s: String)
    ensures
        s@ == statement_name_rep(n as nat),
{
    let digits = u64_dec_string(n);
    let s = String::from_str("__stmt_").concat(digits.as_str());
    proof {
        assert(s@ =~= statement_name_rep(n as nat));
    }
    s
}

/// A decimal rendering is never empty.
proof fn lemma_dec_rep_nonempty(n: nat)
    ensures
        dec_rep(n).len() >= 1,
    decreases n,
{
    if n >= 10 {
        lemma_dec_rep_nonempty(n / 10);
    }
}

/// Different values have different decimal renderings.
proof fn lemma_dec_rep_injective(a: nat, b: nat)
    requires
        a != b,
    ensures
        dec_rep(a) != dec_rep(b),
    decreases a + b,
{
    if a < 10 && b < 10 {
        assert(dec_rep(a)[0] != dec_rep(b)[0]);
    } else if a < 10 {
        lemma_dec_rep_nonempty(b / 10);
        assert(dec_rep(b).len() >= 2);
    } else if b < 10 {
        lemma_dec_rep_nonempty(a / 10);
        assert(dec_rep(a).len() >= 2);
    } else {
        lemma_dec_rep_nonempty(a / 10);
        lemma_dec_rep_nonempty(b / 10);
        if a % 10 != b % 10 {
            if dec_rep(a) == dec_rep(b) {
                assert(dec_rep(a).last() == digit_char(a % 10));
                assert(dec_rep(b).last() == digit_char(b % 10));
            }
        } else {
            assert(a / 10 != b / 10) by (nonlinear_arith)
                requires
                    a != b,
                    a % 10 == b % 10,
            ;
            assert(a / 10 + b / 10 < a + b) by (nonlinear_arith)
                requires
                    a >= 10,
                    b >= 10,
            ;
            lemma_dec_rep_injective(a / 10, b / 10);
            if dec_rep(a) == dec_rep(b) {
                assert(dec_rep(a).drop_last() =~= dec_rep(a / 10));
                assert(dec_rep(b).drop_last() =~= dec_rep(b / 10));
            }
        }
    }
}

/// Law: the deterministic naming scheme keeps server-side statement names
/// unique within one connection's lifetime — statements created at
/// different cache sizes never share a name.
pub proof fn law_statement_names_unique(i: nat, j: nat)
    requires
        i != j,
    ensures
        statement_name_rep(i) != statement_name_rep(j),
{
    lemma_dec_rep_injective(i, j);
    if statement_name_rep(i) == statement_name_rep(j) {
        let p = "__stmt_"@;
        assert((p + dec_rep(i)).skip(p.len() as int) =~= dec_rep(i));
        assert((p + dec_rep(j)).skip(p.len() as int) =~= dec_rep(j));
    }
}

/// Two statement values that describe the same server-side statement:
/// the same text, the same type signature, and the same name or both
/// unnamed.
pub open spec fn same_statement(a: Statement, b: Statement) -> bool {
    &&& a.sql@ == b.sql@
    &&& a.bind_types@ == b.bind_types@
    &&& (a.name is Some) == (b.name is Some)
    &&& a.name matches Some(x) ==> (b.name matches Some(y) && x@ == y@)
}

/// A named or unnamed server-side compiled query template, bound to a
/// fixed parameter-type signature.
#[derive(Debug, PartialEq, Eq)]
pub struct Statement {
    pub name: Option<String>,
    pub sql: String,
    pub bind_types: Vec<u32>,
}

impl Statement {
    /// This statement was compiled from the given text under the given
    /// name and type signature.
    pub open spec fn is_compiled_from(
        self,
        sql: Seq<char>,
        name: Option<String>,
        bind_types: Seq<u32>,
    ) -> bool {
        &&& self.sql@ == sql
        &&& match (self.name, name) {
            (Some(own), Some(given)) => own@ == given@,
            (None, None) => true,
            _ => false,
        }
        &&& self.bind_types@ == bind_types
    }

    /// An identical copy of this statement.
    pub fn duplicate(&self) -> (r: Statement)
        ensures
            same_statement(*self, r),
    {
        let name = match &self.name {
            Some(n) => Some(n.clone()),
            None => None,
        };
        Statement { name, sql: self.sql.clone(), bind_types: self.bind_types.clone() }
    }

    /// Compiles `sql` server-side under the optional `name` with the given
    /// parameter-type signature. One round trip: the server either accepts
    /// the statement or rejects it with a database error.
    pub fn prepare(
        conn: &mut RawConnection,
        sql: &str,
        name: Option<String>,
        bind_types: &Vec<u32>,
    ) -> (r: Result<Statement, Error>)
        ensures
            old(conn).has_reply() ==> {
                &&& RawConnection::stepped(*old(conn), *final(conn))
                &&& if old(conn).head_reply().outcome is Failure {
                    r matches Err(e) && e == failure_error(old(conn).head_reply().outcome)
                } else {
                    r matches Ok(st) && st.is_compiled_from(sql@, name, bind_types@)
                }
            },
            !old(conn).has_reply() ==> {
                &&& *final(conn) == *old(conn)
                &&& r matches Err(e) && crate::error::is_closed_connection_error(e)
            },
    {
        match conn.round_trip() {
            Ok(_) => Ok(
                Statement { name, sql: String::from_str(sql), bind_types: bind_types.clone() },
            ),
            Err(e) => Err(e),
        }
    }

    /// Executes this statement with the given positional bind values, each
    /// nullable, in one round trip, and materializes the full result set.
    pub fn execute(&self, conn: &mut RawConnection, binds: &Vec<Option<Vec<u8>>>) -> (r: Result<
        PgResult,
        Error,
    >)
        ensures
            old(conn).has_reply() ==> {
                &&& RawConnection::stepped(*old(conn), *final(conn))
                &&& if old(conn).head_reply().outcome is Failure {
                    r matches Err(e) && e == failure_error(old(conn).head_reply().outcome)
                } else {
                    r matches Ok(res) && res.is_result_of(old(conn).head_reply().outcome)
                }
            },
            !old(conn).has_reply() ==> {
                &&& *final(conn) == *old(conn)
                &&& r matches Err(e) && crate::error::is_closed_connection_error(e)
            },
    {
        conn.submit_query(self.sql.as_str())
    }
}

} // verus!
