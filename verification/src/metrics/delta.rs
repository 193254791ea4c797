//! The delta tracker: cumulative counters per key, and their increase
//! from one poll to the next.

use crate::text::same_text;
use vstd::prelude::*;
use vstd::string::*;

verus! {

/// The two cumulative counters of one entity, as last seen.
#[derive(Debug, Clone, Copy, PartialEq, Eq, Structural)]
pub struct Counters {
    pub first: u64,
    pub second: u64,
}

/// The counters of one key.
pub struct Entry {
    pub key: String,
    pub counters: Counters,
}

/// The increase from `previous` to `current`, and zero where the counter
/// fell, as after a reset.
pub open spec fn increase(current: u64, previous: u64) -> u64 {
    if current >= previous {
        (current - previous) as u64
    } else {
        0
    }
}

/// The deltas of the counters `current` against what `seen` holds for
/// `key`: the increase of each counter, and zero for a key not seen before.
pub open spec fn deltas(seen: Map<Seq<char>, Counters>, key: Seq<char>, current: Counters)
    -> Counters {
    if seen.contains_key(key) {
        Counters {
            first: increase(current.first, seen[key].first),
            second: increase(current.second, seen[key].second),
        }
    } else {
        Counters { first: 0, second: 0 }
    }
}

/// The map that a list of entries stands for; a later entry of a key
/// would replace an earlier one.
pub open spec fn entries_map(entries: Seq<Entry>) -> Map<Seq<char>, Counters>
    decreases entries.len(),
{
    if entries.len() == 0 {
        Map::empty()
    } else {
        entries_map(entries.drop_last()).insert(entries.last().key@, entries.last().counters)
    }
}

/// Whether no two entries have the same key.
pub open spec fn distinct_keys(entries: Seq<Entry>) -> bool {
    forall|i: int, j: int|
        0 <= i < j < entries.len() ==> (#[trigger] entries[i]).key@ != (#[trigger] entries[j]).key@
}

proof fn lemma_map_keys(entries: Seq<Entry>, key: Seq<char>)
    ensures
        entries_map(entries).contains_key(key) <==> exists|i: int|
            0 <= i < entries.len() && (#[trigger] entries[i]).key@ == key,
    decreases entries.len(),
{
    if entries.len() > 0 {
        let front = entries.drop_last();
        lemma_map_keys(front, key);
        if entries_map(entries).contains_key(key) {
            if entries.last().key@ == key {
                assert(entries[entries.len() - 1].key@ == key);
            } else {
                let i = choose|i: int| 0 <= i < front.len() && (#[trigger] front[i]).key@ == key;
                assert(entries[i].key@ == key);
            }
        }
        if exists|i: int| 0 <= i < entries.len() && (#[trigger] entries[i]).key@ == key {
            let i = choose|i: int| 0 <= i < entries.len() && (#[trigger] entries[i]).key@ == key;
            if i < front.len() {
                assert(front[i].key@ == key);
            }
        }
    }
}

proof fn lemma_map_value(entries: Seq<Entry>, i: int)
    requires
        distinct_keys(entries),
        0 <= i < entries.len(),
    ensures
        entries_map(entries).contains_key(entries[i].key@),
        entries_map(entries)[entries[i].key@] == entries[i].counters,
    decreases entries.len(),
{
    let front = entries.drop_last();
    if i < entries.len() - 1 {
        assert(distinct_keys(front)) by {
            assert forall|a: int, b: int| 0 <= a < b < front.len() implies (#[trigger] front[a]).key@
                != (#[trigger] front[b]).key@ by {
                assert(entries[a].key@ != entries[b].key@);
            }
        }
        lemma_map_value(front, i);
        assert(front[i] == entries[i]);
        assert(entries[i].key@ != entries[entries.len() - 1].key@);
    }
}

proof fn lemma_map_update(entries: Seq<Entry>, i: int, entry: Entry)
    requires
        distinct_keys(entries),
        0 <= i < entries.len(),
        entry.key@ == entries[i].key@,
    ensures
        distinct_keys(entries.update(i, entry)),
        entries_map(entries.update(i, entry)) == entries_map(entries).insert(
            entry.key@,
            entry.counters,
        ),
    decreases entries.len(),
{
    let changed = entries.update(i, entry);
    let front = entries.drop_last();
    assert(distinct_keys(changed)) by {
        assert forall|a: int, b: int| 0 <= a < b < changed.len() implies (
        #[trigger] changed[a]).key@ != (#[trigger] changed[b]).key@ by {
            assert(entries[a].key@ != entries[b].key@);
        }
    }
    if i == entries.len() - 1 {
        assert(changed.drop_last() =~= front);
        assert(entries_map(changed) =~= entries_map(entries).insert(entry.key@, entry.counters));
    } else {
        assert(distinct_keys(front)) by {
            assert forall|a: int, b: int| 0 <= a < b < front.len() implies (#[trigger] front[a]).key@
                != (#[trigger] front[b]).key@ by {
                assert(entries[a].key@ != entries[b].key@);
            }
        }
        lemma_map_update(front, i, entry);
        assert(changed.drop_last() =~= front.update(i, entry));
        assert(changed.last() == entries.last());
        assert(entries[i].key@ != entries[entries.len() - 1].key@);
        assert(entries_map(changed) =~= entries_map(entries).insert(entry.key@, entry.counters));
    }
}

/// Holds, for every key it has seen, the counters of the last poll that
/// had the key. A key that stays away keeps its counters: nothing is ever
/// dropped.
pub struct DeltaTracker {
    entries: Vec<Entry>,
}

impl View for DeltaTracker {
    type V = Map<Seq<char>, Counters>;

    closed spec fn view(&self) -> Map<Seq<char>, Counters> {
        entries_map(self.entries@)
    }
}

impl DeltaTracker {
    #[verifier::type_invariant]
    spec fn well_formed(self) -> bool {
        distinct_keys(self.entries@)
    }

    /// A tracker that has seen no key.
    pub fn new() -> (r: Self)
        ensures
            r@ == Map::<Seq<char>, Counters>::empty(),
    {
        DeltaTracker { entries: Vec::new() }
    }

    /// Position of the entry of `key`.
    fn position(&self, key: &str) -> (r: Option<usize>)
        ensures
            match r {
                Some(i) => i < self.entries@.len() && self.entries@[i as int].key@ == key@,
                None => !self@.contains_key(key@),
            },
    {
        let mut i: usize = 0;
        while i < self.entries.len()
            invariant
                i <= self.entries.len(),
                forall|k: int| 0 <= k < i ==> (#[trigger] self.entries@[k]).key@ != key@,
            decreases self.entries.len() - i,
        {
            if same_text(self.entries[i].key.as_str(), key) {
                return Some(i);
            }
            i += 1;
        }
        proof {
            lemma_map_keys(self.entries@, key@);
        }
        None
    }

    /// The counters last seen for `key`.
    pub fn previous(&self, key: &str) -> (r: Option<Counters>)
        ensures
            r == if self@.contains_key(key@) {
                Some(self@[key@])
            } else {
                None
            },
    {
        proof {
            use_type_invariant(self);
        }
        match self.position(key) {
            Some(i) => {
                proof {
                    lemma_map_value(self.entries@, i as int);
                }
                Some(self.entries[i].counters)
            },
            None => None,
        }
    }

    /// This tracker with `current` stored for `key`.
    fn with(self, key: &str, current: Counters) -> (r: Self)
        ensures
            r@ == self@.insert(key@, current),
    {
        proof {
            use_type_invariant(&self);
        }
        let found = self.position(key);
        let mut entries = self.entries;
        let entry = Entry { key: String::from_str(key), counters: current };
        match found {
            Some(i) => {
                proof {
                    lemma_map_update(entries@, i as int, entry);
                }
                entries.set(i, entry);
            },
            None => {
                proof {
                    lemma_map_keys(entries@, key@);
                    let pushed = entries@.push(entry);
                    assert(pushed.drop_last() =~= entries@);
                    assert(distinct_keys(pushed)) by {
                        assert forall|a: int, b: int| 0 <= a < b < pushed.len() implies (
                        #[trigger] pushed[a]).key@ != (#[trigger] pushed[b]).key@ by {
                            if b < pushed.len() - 1 {
                                assert(entries@[a].key@ != entries@[b].key@);
                            } else {
                                assert(entries@[a].key@ != key@);
                            }
                        }
                    }
                }
                entries.push(entry);
            },
        }
        DeltaTracker { entries }
    }

    /// Stores `current` as the counters last seen for `key`.
    pub fn record(&mut self, key: &str, current: Counters)
        ensures
            final(self)@ == old(self)@.insert(key@, current),
    {
        let mut taken = DeltaTracker::new();
        std::mem::swap(self, &mut taken);
        *self = taken.with(key, current);
    }

    /// Takes the counters of `key` in the current poll and returns their
    /// increase since the last poll that had the key: never negative, zero
    /// for a counter that fell, zero for a key seen for the first time. The
    /// counters of the key are replaced; every other key is left as it is.
    pub fn update(&mut self, key: &str, current: Counters) -> (delta: Counters)
        ensures
            delta == deltas(old(self)@, key@, current),
            final(self)@ == old(self)@.insert(key@, current),
            !old(self)@.contains_key(key@) ==> delta == (Counters { first: 0, second: 0 }),
            old(self)@.contains_key(key@) ==> delta.first == increase(
                current.first,
                old(self)@[key@].first,
            ) && delta.second == increase(current.second, old(self)@[key@].second),
    {
        let delta = match self.previous(key) {
            Some(seen) => Counters {
                first: current.first.saturating_sub(seen.first),
                second: current.second.saturating_sub(seen.second),
            },
            None => Counters { first: 0, second: 0 },
        };
        self.record(key, current);
        delta
    }
}

/// A delta is the whole increase of a rising counter and never more than
/// the counter itself; it is zero where the counter stood still or fell.
pub proof fn lemma_increase(current: u64, previous: u64)
    ensures
        increase(current, previous) >= 0,
        increase(current, previous) <= current,
        current >= previous ==> previous + increase(current, previous) == current,
        current <= previous ==> increase(current, previous) == 0,
{
}

} // verus!
