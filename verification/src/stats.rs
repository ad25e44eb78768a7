//! The stats aggregator: how often each kind of event was seen.

use crate::display::{push_decimal, stats_text};
use std::collections::BTreeMap;
use vstd::prelude::*;
use vstd::std_specs::btree::{increasing_seq, spec_btree_map_iter};
use vstd::std_specs::cmp::OrdSpec;
use vstd::std_specs::iter::IteratorSpec;
use vstd::string::*;

verus! {

/// Occurrence counter of one kind of event.
#[derive(Clone, Copy, Debug)]
pub struct KindStats {
    pub seen: u64,
}

impl KindStats {
    /// Counts one more occurrence and returns the new total.
    pub fn seen(&mut self) -> (total: u64)
        requires
            old(self).seen < u64::MAX,
        ensures
            final(self).seen == old(self).seen + 1,
            total == final(self).seen,
    {
        self.seen += 1;
        self.seen
    }

    /// The counter as text.
    pub fn to_string(&self) -> (text: String)
        ensures
            text@ == stats_text(*self),
    {
        let mut text = String::from_str("seen: ");
        push_decimal(&mut text, self.seen);
        text
    }
}

impl Default for KindStats {
    /// A counter that has seen nothing.
    fn default() -> (stats: Self)
        ensures
            stats.seen == 0,
    {
        KindStats { seen: 0 }
    }
}

/// How often `kind` occurs in `counts`: zero for a kind that has no entry.
pub open spec fn count_of(counts: Map<u64, nat>, kind: u64) -> nat {
    if counts.contains_key(kind) {
        counts[kind]
    } else {
        0
    }
}

/// `counts` after one more occurrence of `kind`.
pub open spec fn recorded(counts: Map<u64, nat>, kind: u64) -> Map<u64, nat> {
    counts.insert(kind, count_of(counts, kind) + 1)
}

/// The counters after the kinds of `kinds` were recorded one by one, first to last.
pub open spec fn tally(kinds: Seq<u64>) -> Map<u64, nat>
    decreases kinds.len(),
{
    if kinds.len() == 0 {
        Map::empty()
    } else {
        recorded(tally(kinds.drop_last()), kinds.last())
    }
}

/// Whether every counter that `counts` holds is at least one: a kind has no
/// entry before its first occurrence.
pub open spec fn counters_positive(counts: Map<u64, nat>) -> bool {
    forall|kind: u64| #[trigger] counts.contains_key(kind) ==> counts[kind] >= 1
}

/// Whether `entries` lists the counters of `counts`, each once and no other,
/// in strictly ascending order of kind.
pub open spec fn is_snapshot(entries: Seq<(u64, KindStats)>, counts: Map<u64, nat>) -> bool {
    &&& forall|i: int, j: int|
        #![trigger entries[i], entries[j]]
        0 <= i < j < entries.len() ==> entries[i].0 < entries[j].0
    &&& forall|i: int|
        #![trigger entries[i]]
        0 <= i < entries.len() ==> counts.contains_key(entries[i].0) && counts[entries[i].0]
            == entries[i].1.seen
    &&& forall|kind: u64| #[trigger]
        counts.contains_key(kind) ==> exists|i: int|
            #![trigger entries[i]]
            0 <= i < entries.len() && entries[i].0 == kind
}

/// The counters of a session, by kind.
pub struct StatsTable {
    counters: BTreeMap<u64, KindStats>,
}

impl View for StatsTable {
    type V = Map<u64, nat>;

    /// The kinds seen so far, each with the number of its occurrences.
    closed spec fn view(&self) -> Map<u64, nat> {
        Map::new(
            |kind: u64| self.counters@.contains_key(kind),
            |kind: u64| self.counters@[kind].seen as nat,
        )
    }
}

impl StatsTable {
    /// An entry is made at the first occurrence of its kind, so none stands
    /// at zero.
    #[verifier::type_invariant]
    spec fn inv(self) -> bool {
        forall|kind: u64| #[trigger]
            self.counters@.contains_key(kind) ==> self.counters@[kind].seen >= 1
    }

    /// A table without counters.
    pub fn new() -> (table: Self)
        ensures
            table@ == Map::<u64, nat>::empty(),
    {
        StatsTable { counters: BTreeMap::new() }
    }

    /// Counts one occurrence of `kind`, creating its entry on the first.
    pub fn record(&mut self, kind: u64)
        requires
            count_of(old(self)@, kind) < u64::MAX,
        ensures
            final(self)@ == recorded(old(self)@, kind),
            counters_positive(final(self)@),
    {
        proof {
            use_type_invariant(&*self);
        }
        // The map is taken out while it changes: at every point where an
        // insertion could unwind, the table is whole.
        let mut counters = BTreeMap::new();
        core::mem::swap(&mut self.counters, &mut counters);
        let mut stats = match counters.get(&kind) {
            Some(found) => *found,
            None => KindStats::default(),
        };
        stats.seen();
        counters.insert(kind, stats);
        self.counters = counters;
    }

    /// The number of occurrences recorded for `kind`: zero where none was.
    pub fn seen_count(&self, kind: u64) -> (n: u64)
        ensures
            n == count_of(self@, kind),
            counters_positive(self@),
    {
        proof {
            use_type_invariant(self);
        }
        match self.counters.get(&kind) {
            Some(found) => found.seen,
            None => 0,
        }
    }

    /// The counters, each with its kind, in ascending order of kind. The
    /// table stays as it is.
    pub fn snapshot(&self) -> (entries: Vec<(u64, KindStats)>)
        ensures
            is_snapshot(entries@, self@),
            counters_positive(self@),
    {
        proof {
            use_type_invariant(self);
        }
        let mut entries: Vec<(u64, KindStats)> = Vec::new();
        for pair in it: self.counters.iter()
            invariant
                it.seq() == spec_btree_map_iter(&self.counters).remaining(),
                increasing_seq(it.seq().map_values(|kv: (&u64, &KindStats)| *kv.0)),
                entries@.len() == it.index(),
                forall|i: int|
                    #![trigger entries@[i]]
                    0 <= i < it.index() ==> entries@[i] == (*it.seq()[i].0, *it.seq()[i].1),
        {
            let (kind, stats) = pair;
            entries.push((*kind, *stats));
        }
        proof {
            // `entries` holds what the map handed out, pair by pair.
            let all = spec_btree_map_iter(&self.counters).remaining();
            let kinds = all.map_values(|kv: (&u64, &KindStats)| *kv.0);
            lemma_increasing_kinds(kinds);
            assert forall|i: int, j: int| 0 <= i < j < entries@.len() implies entries@[i].0
                < entries@[j].0 by {
                assert(kinds[i] == entries@[i].0);
                assert(kinds[j] == entries@[j].0);
            }
            assert forall|kind: u64| self@.contains_key(kind) implies exists|i: int|
                #![trigger entries@[i]]
                0 <= i < entries@.len() && entries@[i].0 == kind by {
                let pair = (&kind, &self.counters@[kind]);
                assert(all.contains(pair));
                let i = choose|i: int| 0 <= i < all.len() && all[i] == pair;
                assert(entries@[i].0 == kind);
            }
        }
        entries
    }
}

/// On `u64`, the order in which a `BTreeMap` hands out its keys is `<`.
proof fn lemma_increasing_kinds(kinds: Seq<u64>)
    requires
        increasing_seq(kinds),
    ensures
        forall|i: int, j: int| 0 <= i < j < kinds.len() ==> kinds[i] < kinds[j],
{
    assert forall|i: int, j: int| 0 <= i < j < kinds.len() implies kinds[i] < kinds[j] by {
        assert(kinds[i].cmp_spec(&kinds[j]) is Less);
    }
}

/// Recording raises the counter of its kind by one and leaves the others alone.
pub proof fn law_record_counts_one(counts: Map<u64, nat>, kind: u64, other: u64)
    ensures
        count_of(recorded(counts, kind), kind) == count_of(counts, kind) + 1,
        other != kind ==> count_of(recorded(counts, kind), other) == count_of(counts, other),
        recorded(counts, kind).dom() == counts.dom().insert(kind),
{
}

/// Two recordings give the same counters in either order.
pub proof fn law_record_commutes(counts: Map<u64, nat>, a: u64, b: u64)
    ensures
        recorded(recorded(counts, a), b) == recorded(recorded(counts, b), a),
{
}

/// After any sequence of recordings each counter holds the number of
/// occurrences of its kind, and a kind has an entry exactly if it occurred.
pub proof fn law_tally_counts_occurrences(kinds: Seq<u64>, kind: u64)
    ensures
        count_of(tally(kinds), kind) == kinds.to_multiset().count(kind),
        tally(kinds).contains_key(kind) <==> kinds.contains(kind),
    decreases kinds.len(),
{
    broadcast use vstd::seq_lib::group_to_multiset_ensures;

    if kinds.len() > 0 {
        let front = kinds.drop_last();
        law_tally_counts_occurrences(front, kind);
        assert(kinds =~= front.push(kinds.last()));
    }
}

/// The counters depend on how often each kind arrived, not on the order of
/// arrival.
pub proof fn law_arrival_order_is_immaterial(a: Seq<u64>, b: Seq<u64>)
    requires
        a.to_multiset() == b.to_multiset(),
    ensures
        tally(a) == tally(b),
{
    assert forall|kind: u64|
        #![trigger tally(a).dom().contains(kind)]
        #![trigger tally(b).dom().contains(kind)]
        tally(a).dom().contains(kind) == tally(b).dom().contains(kind) && (tally(a).dom().contains(
            kind,
        ) ==> tally(a)[kind] == tally(b)[kind]) by {
        broadcast use vstd::seq_lib::group_to_multiset_ensures;

        law_tally_counts_occurrences(a, kind);
        law_tally_counts_occurrences(b, kind);
    }
    assert(tally(a) =~= tally(b));
}

/// There is one snapshot of given counters, and no other.
pub proof fn law_snapshot_unique(
    a: Seq<(u64, KindStats)>,
    b: Seq<(u64, KindStats)>,
    counts: Map<u64, nat>,
)
    requires
        is_snapshot(a, counts),
        is_snapshot(b, counts),
    ensures
        a == b,
    decreases a.len(),
{
    if a.len() == 0 {
        // Any entry of `b` would be a counter, and `a` lists them all.
        if b.len() > 0 {
            assert(counts.contains_key(b[0].0));
        }
        assert(a =~= b);
    } else {
        // The last entry of each is the counter of the greatest kind.
        let top = a.last().0;
        assert(counts.contains_key(top));
        let j = choose|j: int| 0 <= j < b.len() && b[j].0 == top;
        assert(j == b.len() - 1) by {
            if j < b.len() - 1 {
                let above = b.last().0;
                assert(counts.contains_key(above));
                let i = choose|i: int| 0 <= i < a.len() && a[i].0 == above;
                assert(a[i].0 <= top);
            }
        }
        assert(a.last() == b.last());
        // What stands before it lists the other counters.
        lemma_snapshot_without_last(a, counts);
        lemma_snapshot_without_last(b, counts);
        law_snapshot_unique(a.drop_last(), b.drop_last(), counts.remove(top));
        assert(a =~= a.drop_last().push(a.last()));
        assert(b =~= b.drop_last().push(b.last()));
    }
}

/// A snapshot without its last entry is the snapshot of the counters without
/// that entry's kind.
proof fn lemma_snapshot_without_last(entries: Seq<(u64, KindStats)>, counts: Map<u64, nat>)
    requires
        is_snapshot(entries, counts),
        entries.len() > 0,
    ensures
        is_snapshot(entries.drop_last(), counts.remove(entries.last().0)),
{
    let front = entries.drop_last();
    let rest = counts.remove(entries.last().0);
    assert forall|i: int| 0 <= i < front.len() implies rest.contains_key(front[i].0)
        && rest[front[i].0] == front[i].1.seen by {
        assert(front[i] == entries[i]);
        assert(entries[i].0 < entries[entries.len() - 1].0);
    }
    assert forall|kind: u64| #[trigger] rest.contains_key(kind) implies exists|i: int|
        #![trigger front[i]]
        0 <= i < front.len() && front[i].0 == kind by {
        let i = choose|i: int| 0 <= i < entries.len() && entries[i].0 == kind;
        assert(front[i] == entries[i]);
    }
    assert forall|i: int, j: int| 0 <= i < j < front.len() implies front[i].0 < front[j].0 by {
        assert(front[i] == entries[i]);
        assert(front[j] == entries[j]);
    }
}

} // verus!
