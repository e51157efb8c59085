//! The per-connection prepared-statement cache.
//!
//! The key is the pair of SQL text and ordered bind-parameter type
//! signature: two queries with the same text but different bind types, or
//! the same types but different text, must never share an entry. The
//! cache only grows — there is no eviction — bounded by the number of
//! distinct cacheable query shapes an application issues.

use vstd::prelude::*;
use vstd::std_specs::cmp::PartialEqSpec;

use crate::stmt::Statement;

verus! {

/// One cache entry: the key it was filed under and the statement the
/// server compiled for it.
#[derive(Debug)]
pub struct StatementCacheEntry {
    pub sql: String,
    pub bind_types: Vec<u32>,
    pub statement: Statement,
}

/// The entry is filed under exactly this key.
pub open spec fn entry_matches(e: StatementCacheEntry, sql: Seq<char>, bind_types: Seq<u32>) -> bool {
    e.sql@ == sql && e.bind_types@ == bind_types
}

/// Some entry is filed under this key.
pub open spec fn has_key(s: Seq<StatementCacheEntry>, sql: Seq<char>, bind_types: Seq<u32>) -> bool {
    exists|i: int| 0 <= i < s.len() && entry_matches(#[trigger] s[i], sql, bind_types)
}

/// No two entries share a key.
pub open spec fn distinct_keys(s: Seq<StatementCacheEntry>) -> bool {
    forall|i: int, j: int|
        0 <= i < j < s.len() ==> !entry_matches(#[trigger] s[j], (#[trigger] s[i]).sql@, s[i].bind_types@)
}

/// How one cacheable query changes the cache: a query whose key is
/// already present leaves the cache as it is; otherwise the freshly
/// prepared entry is appended. Non-cacheable queries never reach this
/// transition: they bypass the cache entirely.
pub open spec fn cache_after(
    s: Seq<StatementCacheEntry>,
    sql: Seq<char>,
    bind_types: Seq<u32>,
    fresh: StatementCacheEntry,
) -> Seq<StatementCacheEntry> {
    if has_key(s, sql, bind_types) {
        s
    } else {
        s.push(fresh)
    }
}

/// The mapping from cache key to prepared statement.
#[derive(Debug)]
pub struct StatementCache {
    pub entries: Vec<StatementCacheEntry>,
}

impl StatementCache {
    /// An empty cache.
    pub fn new() -> (c: StatementCache)
        ensures
            c.entries@ == Seq::<StatementCacheEntry>::empty(),
    {
        StatementCache { entries: Vec::new() }
    }

    /// The number of distinct cached statements, exposed for diagnostics
    /// and testing.
    pub fn len(&self) -> (r: usize)
        ensures
            r == self.entries@.len(),
    {
        self.entries.len()
    }

    /// The position of the first entry filed under the given key, if any.
    pub fn lookup(&self, sql: &String, bind_types: &Vec<u32>) -> (r: Option<usize>)
        ensures
            match r {
                Some(i) => {
                    &&& i < self.entries@.len()
                    &&& entry_matches(self.entries@[i as int], sql@, bind_types@)
                    &&& forall|j: int|
                        0 <= j < i ==> !entry_matches(#[trigger] self.entries@[j], sql@, bind_types@)
                },
                None => !has_key(self.entries@, sql@, bind_types@),
            },
    {
        let n = self.entries.len();
        let mut i: usize = 0;
        while i < n
            invariant
                n == self.entries@.len(),
                i <= n,
                forall|j: int| 0 <= j < i ==> !entry_matches(#[trigger] self.entries@[j], sql@, bind_types@),
            decreases n - i,
        {
            let e = &self.entries[i];
            if e.sql == *sql && e.bind_types == *bind_types {
                proof {
                    assert(e.bind_types@ =~= bind_types@);
                }
                return Some(i);
            }
            proof {
                if e.sql@ == sql@ && e.bind_types@ == bind_types@ {
                    assert(e.bind_types.eq_spec(bind_types)) by {
                        assert(forall|k: int|
                            0 <= k < e.bind_types@.len() ==> e.bind_types@[k] == bind_types@[k]);
                    }
                    assert(false);
                }
            }
            i = i + 1;
        }
        None
    }

    /// The statement cached at `i`, as an identical copy.
    pub fn statement_at(&self, i: usize) -> (r: Statement)
        requires
            i < self.entries@.len(),
        ensures
            crate::stmt::same_statement(self.entries@[i as int].statement, r),
    {
        self.entries[i].statement.duplicate()
    }

    /// Appends a freshly prepared entry. The caller only does so after a
    /// miss, which keeps the keys distinct.
    pub fn insert(&mut self, entry: StatementCacheEntry)
        ensures
            final(self).entries@ == old(self).entries@.push(entry),
    {
        self.entries.push(entry);
    }
}

/// A key already present after the transition is still the key the
/// transition was taken for.
pub proof fn lemma_cache_after_has_key(
    s: Seq<StatementCacheEntry>,
    sql: Seq<char>,
    bind_types: Seq<u32>,
    fresh: StatementCacheEntry,
)
    requires
        entry_matches(fresh, sql, bind_types),
    ensures
        has_key(cache_after(s, sql, bind_types, fresh), sql, bind_types),
{
    if !has_key(s, sql, bind_types) {
        let s2 = s.push(fresh);
        assert(entry_matches(s2[s.len() as int], sql, bind_types));
    }
}

/// The transition never removes a key.
pub proof fn lemma_cache_after_keeps_keys(
    s: Seq<StatementCacheEntry>,
    sql: Seq<char>,
    bind_types: Seq<u32>,
    fresh: StatementCacheEntry,
    sql0: Seq<char>,
    bind_types0: Seq<u32>,
)
    requires
        has_key(s, sql0, bind_types0),
    ensures
        has_key(cache_after(s, sql, bind_types, fresh), sql0, bind_types0),
{
    if !has_key(s, sql, bind_types) {
        let i = choose|i: int| 0 <= i < s.len() && entry_matches(#[trigger] s[i], sql0, bind_types0);
        assert(entry_matches(s.push(fresh)[i], sql0, bind_types0));
    }
}

/// Law: for all queries with identical SQL text and identical
/// bind-parameter type signatures, repeated execution reuses the same
/// cache entry — the second transition for the same key leaves the cache
/// exactly as the first left it, so the cache size does not grow on the
/// second call.
pub proof fn law_repeated_shape_reuses_entry(
    s: Seq<StatementCacheEntry>,
    sql: Seq<char>,
    bind_types: Seq<u32>,
    fresh1: StatementCacheEntry,
    fresh2: StatementCacheEntry,
)
    requires
        entry_matches(fresh1, sql, bind_types),
        entry_matches(fresh2, sql, bind_types),
    ensures
        cache_after(cache_after(s, sql, bind_types, fresh1), sql, bind_types, fresh2)
            == cache_after(s, sql, bind_types, fresh1),
{
    lemma_cache_after_has_key(s, sql, bind_types, fresh1);
}

/// Law: a cacheable query shape that is not yet cached occupies exactly
/// one new entry, and taking the transition again for the same shape adds
/// nothing more: each distinct shape increases the cache size exactly
/// once.
pub proof fn law_shape_cached_exactly_once(
    s: Seq<StatementCacheEntry>,
    sql: Seq<char>,
    bind_types: Seq<u32>,
    fresh1: StatementCacheEntry,
    fresh2: StatementCacheEntry,
)
    requires
        !has_key(s, sql, bind_types),
        entry_matches(fresh1, sql, bind_types),
        entry_matches(fresh2, sql, bind_types),
    ensures
        cache_after(s, sql, bind_types, fresh1).len() == s.len() + 1,
        cache_after(cache_after(s, sql, bind_types, fresh1), sql, bind_types, fresh2).len()
            == s.len() + 1,
{
    lemma_cache_after_has_key(s, sql, bind_types, fresh1);
}

/// Two different keys are served by two different entries after both
/// transitions have been taken.
proof fn lemma_distinct_keys_distinct_entries(
    s: Seq<StatementCacheEntry>,
    sql1: Seq<char>,
    bind_types1: Seq<u32>,
    fresh1: StatementCacheEntry,
    sql2: Seq<char>,
    bind_types2: Seq<u32>,
    fresh2: StatementCacheEntry,
)
    requires
        entry_matches(fresh1, sql1, bind_types1),
        entry_matches(fresh2, sql2, bind_types2),
        sql1 != sql2 || bind_types1 != bind_types2,
    ensures
        ({
            let s2 = cache_after(
                cache_after(s, sql1, bind_types1, fresh1),
                sql2,
                bind_types2,
                fresh2,
            );
            exists|i: int, j: int|
                0 <= i < s2.len() && 0 <= j < s2.len() && i != j
                    && entry_matches(#[trigger] s2[i], sql1, bind_types1)
                    && entry_matches(#[trigger] s2[j], sql2, bind_types2)
        }),
{
    let s1 = cache_after(s, sql1, bind_types1, fresh1);
    let s2 = cache_after(s1, sql2, bind_types2, fresh2);
    lemma_cache_after_has_key(s, sql1, bind_types1, fresh1);
    lemma_cache_after_keeps_keys(s1, sql2, bind_types2, fresh2, sql1, bind_types1);
    lemma_cache_after_has_key(s1, sql2, bind_types2, fresh2);
    let i = choose|i: int| 0 <= i < s2.len() && entry_matches(#[trigger] s2[i], sql1, bind_types1);
    let j = choose|j: int| 0 <= j < s2.len() && entry_matches(#[trigger] s2[j], sql2, bind_types2);
    assert(i != j);
}

/// Law: for all pairs of queries with identical SQL text but different
/// bind-parameter type signatures, each occupies a distinct cache entry.
pub proof fn law_identical_sql_different_types_cached_separately(
    s: Seq<StatementCacheEntry>,
    sql: Seq<char>,
    bind_types1: Seq<u32>,
    fresh1: StatementCacheEntry,
    bind_types2: Seq<u32>,
    fresh2: StatementCacheEntry,
)
    requires
        entry_matches(fresh1, sql, bind_types1),
        entry_matches(fresh2, sql, bind_types2),
        bind_types1 != bind_types2,
    ensures
        ({
            let s2 = cache_after(cache_after(s, sql, bind_types1, fresh1), sql, bind_types2, fresh2);
            exists|i: int, j: int|
                0 <= i < s2.len() && 0 <= j < s2.len() && i != j
                    && entry_matches(#[trigger] s2[i], sql, bind_types1)
                    && entry_matches(#[trigger] s2[j], sql, bind_types2)
        }),
{
    lemma_distinct_keys_distinct_entries(s, sql, bind_types1, fresh1, sql, bind_types2, fresh2);
}

/// Law: for all pairs of queries with identical bind-parameter type
/// signatures but different SQL text, each occupies a distinct cache
/// entry.
pub proof fn law_identical_types_different_sql_cached_separately(
    s: Seq<StatementCacheEntry>,
    sql1: Seq<char>,
    fresh1: StatementCacheEntry,
    sql2: Seq<char>,
    fresh2: StatementCacheEntry,
    bind_types: Seq<u32>,
)
    requires
        entry_matches(fresh1, sql1, bind_types),
        entry_matches(fresh2, sql2, bind_types),
        sql1 != sql2,
    ensures
        ({
            let s2 = cache_after(cache_after(s, sql1, bind_types, fresh1), sql2, bind_types, fresh2);
            exists|i: int, j: int|
                0 <= i < s2.len() && 0 <= j < s2.len() && i != j
                    && entry_matches(#[trigger] s2[i], sql1, bind_types)
                    && entry_matches(#[trigger] s2[j], sql2, bind_types)
        }),
{
    lemma_distinct_keys_distinct_entries(s, sql1, bind_types, fresh1, sql2, bind_types, fresh2);
}

/// The transition keeps the cache keys distinct: inserting only on a miss
/// never files two entries under one key.
pub proof fn lemma_cache_after_distinct_keys(
    s: Seq<StatementCacheEntry>,
    sql: Seq<char>,
    bind_types: Seq<u32>,
    fresh: StatementCacheEntry,
)
    requires
        distinct_keys(s),
        entry_matches(fresh, sql, bind_types),
    ensures
        distinct_keys(cache_after(s, sql, bind_types, fresh)),
{
    if !has_key(s, sql, bind_types) {
        let s2 = s.push(fresh);
        assert forall|i: int, j: int| 0 <= i < j < s2.len() implies !entry_matches(
            #[trigger] s2[j],
            (#[trigger] s2[i]).sql@,
            s2[i].bind_types@,
        ) by {
            if j == s.len() {
                assert(s2[i] == s[i]);
                if entry_matches(s2[j], s2[i].sql@, s2[i].bind_types@) {
                    assert(entry_matches(s[i], sql, bind_types));
                }
            } else {
                assert(s2[i] == s[i] && s2[j] == s[j]);
            }
        }
    }
}

} // verus!
