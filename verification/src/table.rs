//! The latency table: last-observed round-trip time per endpoint.
//!
//! The table is the single source of truth for selection. Each entry pairs an
//! endpoint identifier with either a measured duration in microseconds or the
//! unreachable sentinel, which compares worse than every real measurement.
//! Entries are inserted or overwritten, never partially updated; the table is
//! empty exactly until the first probe result is recorded, which is the
//! readiness signal.

use vstd::prelude::*;

verus! {

/// Recorded when a probe fails; compares worse than every real measurement,
/// so an unreachable endpoint is selected only when every endpoint is
/// unreachable.
pub const UNREACHABLE_MICROS: u128 = u128::MAX;

/// Maps each endpoint identifier to its last-observed round-trip time in
/// microseconds, or to [`UNREACHABLE_MICROS`] when the most recent probe
/// failed.
pub struct LatencyTable {
    entries: Vec<(String, u128)>,
}

impl View for LatencyTable {
    type V = Seq<(Seq<char>, u128)>;

    closed spec fn view(&self) -> Seq<(Seq<char>, u128)> {
        Seq::new(self.entries@.len(), |i: int| (self.entries@[i].0@, self.entries@[i].1))
    }
}

/// Well-formedness: no endpoint occurs twice.
pub open spec fn table_wf(s: Seq<(Seq<char>, u128)>) -> bool {
    forall|i: int, j: int| 0 <= i < j < s.len() ==> s[i].0 != s[j].0
}

/// True when some entry's endpoint is `k`.
pub open spec fn table_has(s: Seq<(Seq<char>, u128)>, k: Seq<char>) -> bool {
    exists|i: int| 0 <= i < s.len() && s[i].0 == k
}

/// The recorded value for endpoint `k` (well-defined under [`table_wf`]).
pub open spec fn table_value(s: Seq<(Seq<char>, u128)>, k: Seq<char>) -> u128
    recommends
        table_has(s, k),
{
    let i = choose|i: int| 0 <= i < s.len() && s[i].0 == k;
    s[i].1
}

/// Under [`table_wf`], the entry at index `i` is the one [`table_value`]
/// speaks of for its endpoint.
pub proof fn lemma_table_value_at(s: Seq<(Seq<char>, u128)>, i: int)
    requires
        table_wf(s),
        0 <= i < s.len(),
    ensures
        table_has(s, s[i].0),
        table_value(s, s[i].0) == s[i].1,
{
    assert(table_has(s, s[i].0));
    let j = choose|j: int| 0 <= j < s.len() && s[j].0 == s[i].0;
    if i < j {
        assert(s[i].0 != s[j].0);
    } else if j < i {
        assert(s[j].0 != s[i].0);
    }
}

/// The effect of one `record` on a snapshot: an endpoint already present is
/// overwritten in place, a fresh one is appended; nothing is ever removed.
pub open spec fn record_effect(
    pre: Seq<(Seq<char>, u128)>,
    post: Seq<(Seq<char>, u128)>,
    k: Seq<char>,
    v: u128,
) -> bool {
    if table_has(pre, k) {
        exists|i: int| 0 <= i < pre.len() && pre[i].0 == k && post == pre.update(i, (k, v))
    } else {
        post == pre.push((k, v))
    }
}

/// Readiness monotonicity: recording a probe result never empties the table,
/// so once the readiness predicate holds it keeps holding across every
/// further record; only an explicit teardown clears the table.
pub proof fn lemma_readiness_monotone(
    pre: Seq<(Seq<char>, u128)>,
    post: Seq<(Seq<char>, u128)>,
    k: Seq<char>,
    v: u128,
)
    requires
        record_effect(pre, post, k, v),
        pre.len() > 0,
    ensures
        post.len() > 0,
{
    if table_has(pre, k) {
        let i = choose|i: int| 0 <= i < pre.len() && pre[i].0 == k && post == pre.update(i, (k, v));
        assert(post.len() == pre.len());
    } else {
        assert(post.len() == pre.len() + 1);
    }
}

/// The first index among the first `n` entries holding a minimal value.
pub open spec fn min_index_upto(s: Seq<(Seq<char>, u128)>, n: int) -> int
    recommends
        0 < n <= s.len(),
    decreases n,
{
    if n <= 1 {
        0
    } else if s[n - 1].1 < s[min_index_upto(s, n - 1)].1 {
        n - 1
    } else {
        min_index_upto(s, n - 1)
    }
}

/// The first index of an entry with the minimal recorded value.
pub open spec fn min_index(s: Seq<(Seq<char>, u128)>) -> int {
    min_index_upto(s, s.len() as int)
}

/// The endpoint that selection returns for this snapshot: the first entry
/// with the minimal recorded value.
pub open spec fn fastest_key(s: Seq<(Seq<char>, u128)>) -> Seq<char>
    recommends
        s.len() > 0,
{
    s[min_index(s)].0
}

/// [`min_index_upto`] lands inside the prefix, on a value no worse than any
/// other in the prefix, and strictly better than everything before it.
pub proof fn lemma_min_index_upto(s: Seq<(Seq<char>, u128)>, n: int)
    requires
        0 < n <= s.len(),
    ensures
        0 <= min_index_upto(s, n) < n,
        forall|j: int| 0 <= j < n ==> s[min_index_upto(s, n)].1 <= (#[trigger] s[j]).1,
        forall|j: int| 0 <= j < min_index_upto(s, n) ==> s[min_index_upto(s, n)].1 < (#[trigger] s[j]).1,
    decreases n,
{
    if n > 1 {
        lemma_min_index_upto(s, n - 1);
    }
}

/// The entry selection picks carries the minimal value of the snapshot.
pub proof fn lemma_min_index(s: Seq<(Seq<char>, u128)>)
    requires
        s.len() > 0,
    ensures
        0 <= min_index(s) < s.len(),
        forall|j: int| 0 <= j < s.len() ==> s[min_index(s)].1 <= (#[trigger] s[j]).1,
{
    lemma_min_index_upto(s, s.len() as int);
}

impl LatencyTable {
    /// An empty table: nothing has been probed yet, so readiness is false.
    pub fn new() -> (t: LatencyTable)
        ensures
            t@ =~= Seq::<(Seq<char>, u128)>::empty(),
            table_wf(t@),
    {
        LatencyTable { entries: Vec::new() }
    }

    /// Readiness predicate: true once at least one probe result has been
    /// recorded.
    pub fn snapshot_is_nonempty(&self) -> (r: bool)
        ensures
            r == (self@.len() > 0),
    {
        self.entries.len() > 0
    }

    /// Overwrites the entry for `url` with `micros`, or appends one if `url`
    /// was never recorded. Never removes an entry, so readiness is preserved.
    pub fn record(&mut self, url: &String, micros: u128)
        requires
            table_wf(old(self)@),
        ensures
            table_wf(final(self)@),
            table_has(final(self)@, url@),
            table_value(final(self)@, url@) == micros,
            record_effect(old(self)@, final(self)@, url@, micros),
            final(self)@.len() >= old(self)@.len(),
            forall|k: Seq<char>|
                k != url@ ==> (table_has(final(self)@, k) <==> table_has(old(self)@, k)),
            forall|k: Seq<char>|
                k != url@ && table_has(old(self)@, k) ==> table_value(final(self)@, k)
                    == table_value(old(self)@, k),
    {
        let ghost pre = self@;
        let n = self.entries.len();
        let mut i: usize = 0;
        while i < n
            invariant
                pre == old(self)@,
                n == self.entries.len(),
                0 <= i <= n,
                self@ == pre,
                table_wf(pre),
                forall|j: int| 0 <= j < i ==> pre[j].0 != url@,
            decreases n - i,
        {
            if self.entries[i].0.eq(url) {
                assert(pre[i as int].0 == url@);
                assert(table_has(pre, url@));
                self.entries[i] = (url.clone(), micros);
                assert(self@ =~= pre.update(i as int, (url@, micros)));
                proof {
                    self.lemma_record_update_post(pre, i as int, url@, micros);
                }
                assert(exists|j: int|
                    0 <= j < pre.len() && pre[j].0 == url@ && self@ == pre.update(
                        j,
                        (url@, micros),
                    ));
                return ;
            }
            i += 1;
        }
        assert(!table_has(pre, url@));
        self.entries.push((url.clone(), micros));
        assert(self@ =~= pre.push((url@, micros)));
        assert(self@ == pre.push((url@, micros)));
        proof {
            self.lemma_record_push_post(pre, url@, micros);
        }
    }

    /// After overwriting index `i`, every other endpoint keeps its value.
    proof fn lemma_record_update_post(&self, pre: Seq<(Seq<char>, u128)>, i: int, k: Seq<char>, v: u128)
        requires
            table_wf(pre),
            0 <= i < pre.len(),
            pre[i].0 == k,
            self@ == pre.update(i, (k, v)),
        ensures
            table_wf(self@),
            table_has(self@, k),
            table_value(self@, k) == v,
            forall|k2: Seq<char>| k2 != k ==> (table_has(self@, k2) <==> table_has(pre, k2)),
            forall|k2: Seq<char>|
                k2 != k && table_has(pre, k2) ==> table_value(self@, k2) == table_value(pre, k2),
    {
        let s = self@;
        assert forall|a: int, b: int| 0 <= a < b < s.len() implies s[a].0 != s[b].0 by {
            assert(pre[a].0 != pre[b].0);
        }
        lemma_table_value_at(s, i);
        assert forall|k2: Seq<char>| k2 != k && table_has(pre, k2) implies table_has(s, k2)
            && table_value(s, k2) == table_value(pre, k2) by {
            let j = choose|j: int| 0 <= j < pre.len() && pre[j].0 == k2;
            assert(s[j].0 == k2 && s[j].1 == pre[j].1);
            lemma_table_value_at(s, j);
            lemma_table_value_at(pre, j);
        }
        assert forall|k2: Seq<char>| k2 != k && table_has(s, k2) implies table_has(pre, k2) by {
            let j = choose|j: int| 0 <= j < s.len() && s[j].0 == k2;
            assert(pre[j].0 == k2);
        }
    }

    /// After appending a fresh endpoint, every prior endpoint keeps its value.
    proof fn lemma_record_push_post(&self, pre: Seq<(Seq<char>, u128)>, k: Seq<char>, v: u128)
        requires
            table_wf(pre),
            !table_has(pre, k),
            self@ == pre.push((k, v)),
        ensures
            table_wf(self@),
            table_has(self@, k),
            table_value(self@, k) == v,
            forall|k2: Seq<char>| k2 != k ==> (table_has(self@, k2) <==> table_has(pre, k2)),
            forall|k2: Seq<char>|
                k2 != k && table_has(pre, k2) ==> table_value(self@, k2) == table_value(pre, k2),
    {
        let s = self@;
        assert forall|a: int, b: int| 0 <= a < b < s.len() implies s[a].0 != s[b].0 by {
            if b < pre.len() {
                assert(pre[a].0 != pre[b].0);
            } else {
                assert(s[b].0 == k);
                assert(pre[a].0 == s[a].0);
                assert(!(0 <= a < pre.len() && pre[a].0 == k));
            }
        }
        assert(s[pre.len() as int].0 == k);
        lemma_table_value_at(s, pre.len() as int);
        assert forall|k2: Seq<char>| k2 != k && table_has(pre, k2) implies table_has(s, k2)
            && table_value(s, k2) == table_value(pre, k2) by {
            let j = choose|j: int| 0 <= j < pre.len() && pre[j].0 == k2;
            assert(s[j].0 == k2 && s[j].1 == pre[j].1);
            lemma_table_value_at(s, j);
            lemma_table_value_at(pre, j);
        }
        assert forall|k2: Seq<char>| k2 != k && table_has(s, k2) implies table_has(pre, k2) by {
            let j = choose|j: int| 0 <= j < s.len() && s[j].0 == k2;
            assert(j < pre.len() && pre[j].0 == k2);
        }
    }

    /// Selection: the endpoint whose recorded value is minimal; among ties,
    /// the first recorded one, so the choice is a pure function of the
    /// snapshot.
    pub fn fastest(&self) -> (r: String)
        requires
            table_wf(self@),
            self@.len() > 0,
        ensures
            r@ == fastest_key(self@),
            table_has(self@, r@),
            forall|j: int| 0 <= j < self@.len() ==> table_value(self@, r@) <= (#[trigger] self@[j]).1,
    {
        let n = self.entries.len();
        let mut best: usize = 0;
        let mut i: usize = 1;
        while i < n
            invariant
                n == self.entries.len(),
                n == self@.len(),
                n > 0,
                1 <= i <= n,
                0 <= best < i,
                best == min_index_upto(self@, i as int),
            decreases n - i,
        {
            if self.entries[i].1 < self.entries[best].1 {
                best = i;
            }
            i += 1;
            assert(best == min_index_upto(self@, i as int));
        }
        proof {
            lemma_min_index(self@);
            lemma_table_value_at(self@, best as int);
        }
        self.entries[best].0.clone()
    }

    /// Removes every entry, resetting readiness to false.
    pub fn clear(&mut self)
        ensures
            final(self)@ =~= Seq::<(Seq<char>, u128)>::empty(),
            table_wf(final(self)@),
    {
        self.entries.clear();
    }
}

/// Selection correctness: for any snapshot, the selected endpoint's recorded
/// value is less than or equal to every endpoint's recorded value.
pub proof fn lemma_selection_correctness(s: Seq<(Seq<char>, u128)>)
    requires
        table_wf(s),
        s.len() > 0,
    ensures
        table_has(s, fastest_key(s)),
        forall|k: Seq<char>|
            table_has(s, k) ==> table_value(s, fastest_key(s)) <= table_value(s, k),
{
    lemma_min_index(s);
    lemma_table_value_at(s, min_index(s));
    assert forall|k: Seq<char>| table_has(s, k) implies table_value(s, fastest_key(s))
        <= table_value(s, k) by {
        let j = choose|j: int| 0 <= j < s.len() && s[j].0 == k;
        lemma_table_value_at(s, j);
    }
}

/// Sentinel dominance: while any endpoint has a real measurement, selection
/// never returns an endpoint marked unreachable.
pub proof fn lemma_sentinel_dominance(s: Seq<(Seq<char>, u128)>, a: Seq<char>, b: Seq<char>)
    requires
        table_wf(s),
        table_has(s, a),
        table_has(s, b),
        table_value(s, a) < UNREACHABLE_MICROS,
        table_value(s, b) == UNREACHABLE_MICROS,
    ensures
        fastest_key(s) != b,
        table_value(s, fastest_key(s)) < UNREACHABLE_MICROS,
{
    lemma_selection_correctness(s);
    assert(table_value(s, fastest_key(s)) <= table_value(s, a));
}

} // verus!
