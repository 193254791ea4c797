//! Stable ordering of lists by a rank.
//!
//! Every item is given a rank, a number and a text, and ranks are compared
//! number first, then text. A list is sorted by insertion, so that items of
//! equal rank keep the order in which they came.

use vstd::prelude::*;

verus! {

/// Whether `a` comes before `b` when texts are compared character by
/// character, by code point; a proper prefix comes first.
pub open spec fn text_lt(a: Seq<char>, b: Seq<char>) -> bool
    decreases a.len(),
{
    if b.len() == 0 {
        false
    } else if a.len() == 0 {
        true
    } else if a[0] != b[0] {
        (a[0] as int) < (b[0] as int)
    } else {
        text_lt(a.drop_first(), b.drop_first())
    }
}

/// What a list is ordered by: a number, and a text where the numbers agree.
pub struct Rank {
    pub number: int,
    pub text: Seq<char>,
}

/// Whether rank `a` is strictly below rank `b`.
pub open spec fn rank_lt(a: Rank, b: Rank) -> bool {
    a.number < b.number || (a.number == b.number && text_lt(a.text, b.text))
}

/// Whether an item of rank `a` must stand before one of rank `b`:
/// ascending, or descending.
pub open spec fn precedes(a: Rank, b: Rank, descending: bool) -> bool {
    if descending {
        rank_lt(b, a)
    } else {
        rank_lt(a, b)
    }
}

/// No text comes before itself.
pub proof fn lemma_text_lt_irreflexive(a: Seq<char>)
    ensures
        !text_lt(a, a),
    decreases a.len(),
{
    if a.len() > 0 {
        lemma_text_lt_irreflexive(a.drop_first());
    }
}

/// What comes before a text comes before everything after it.
pub proof fn lemma_text_lt_transitive(a: Seq<char>, b: Seq<char>, c: Seq<char>)
    requires
        text_lt(a, b),
        text_lt(b, c),
    ensures
        text_lt(a, c),
    decreases a.len(),
{
    if a.len() > 0 && b.len() > 0 && c.len() > 0 {
        if a[0] == b[0] && b[0] == c[0] {
            lemma_text_lt_transitive(a.drop_first(), b.drop_first(), c.drop_first());
        }
    }
}

/// Two different texts are ordered one way or the other.
pub proof fn lemma_text_lt_total(a: Seq<char>, b: Seq<char>)
    ensures
        text_lt(a, b) || text_lt(b, a) || a == b,
    decreases a.len(),
{
    if a.len() > 0 && b.len() > 0 {
        if a[0] == b[0] {
            lemma_text_lt_total(a.drop_first(), b.drop_first());
            if a.drop_first() == b.drop_first() {
                assert(a =~= seq![a[0]] + a.drop_first());
                assert(b =~= seq![b[0]] + b.drop_first());
            }
        } else {
            assert(a[0] as int != b[0] as int);
        }
    } else if a.len() == 0 && b.len() == 0 {
        assert(a =~= b);
    }
}

/// Below is a strict total order on ranks.
pub proof fn lemma_rank_order(a: Rank, b: Rank, c: Rank)
    ensures
        !rank_lt(a, a),
        rank_lt(a, b) && rank_lt(b, c) ==> rank_lt(a, c),
        rank_lt(a, b) || rank_lt(b, a) || a == b,
        !(rank_lt(a, b) && rank_lt(b, a)),
{
    lemma_text_lt_irreflexive(a.text);
    lemma_text_lt_total(a.text, b.text);
    if rank_lt(a, b) && rank_lt(b, c) {
        if a.number == b.number && b.number == c.number {
            lemma_text_lt_transitive(a.text, b.text, c.text);
        }
    }
    if rank_lt(a, b) && rank_lt(b, a) {
        lemma_text_lt_transitive(a.text, b.text, a.text);
    }
}

/// `sorted` with `x` put in from the right: `x` passes every item that it
/// must stand before, and stops at the first that it need not pass.
pub open spec fn inserted<T>(
    sorted: Seq<T>,
    x: T,
    rank: spec_fn(T) -> Rank,
    descending: bool,
) -> Seq<T>
    decreases sorted.len(),
{
    if sorted.len() == 0 {
        seq![x]
    } else if precedes(rank(x), rank(sorted.last()), descending) {
        inserted(sorted.drop_last(), x, rank, descending).push(sorted.last())
    } else {
        sorted.push(x)
    }
}

/// The items of `list` in the order of their ranks, items of equal rank in
/// the order in which `list` has them.
pub open spec fn stable_sorted<T>(list: Seq<T>, rank: spec_fn(T) -> Rank, descending: bool) -> Seq<
    T,
>
    decreases list.len(),
{
    if list.len() == 0 {
        Seq::empty()
    } else {
        inserted(stable_sorted(list.drop_last(), rank, descending), list.last(), rank, descending)
    }
}

/// Whether no item of `list` stands after one that it must stand before.
pub open spec fn ordered<T>(list: Seq<T>, rank: spec_fn(T) -> Rank, descending: bool) -> bool {
    forall|i: int, j: int|
        0 <= i < j < list.len() ==> !precedes(
            #[trigger] rank(list[j]),
            #[trigger] rank(list[i]),
            descending,
        )
}

/// The items of `list` that have the rank `r`, in their order.
pub open spec fn of_rank<T>(list: Seq<T>, rank: spec_fn(T) -> Rank, r: Rank) -> Seq<T> {
    list.filter(has_rank(rank, r))
}

/// The test for the rank `r`.
pub open spec fn has_rank<T>(rank: spec_fn(T) -> Rank, r: Rank) -> spec_fn(T) -> bool {
    |t: T| rank(t) == r
}

proof fn lemma_inserted_len<T>(sorted: Seq<T>, x: T, rank: spec_fn(T) -> Rank, descending: bool)
    ensures
        inserted(sorted, x, rank, descending).len() == sorted.len() + 1,
    decreases sorted.len(),
{
    if sorted.len() > 0 && precedes(rank(x), rank(sorted.last()), descending) {
        lemma_inserted_len(sorted.drop_last(), x, rank, descending);
    }
}

/// Where `x` lands in `sorted`: the items it passed all rank after it, and
/// the one it stopped at does not.
proof fn lemma_inserted_at<T>(sorted: Seq<T>, x: T, rank: spec_fn(T) -> Rank, descending: bool)
    -> (at: int)
    ensures
        0 <= at <= sorted.len(),
        inserted(sorted, x, rank, descending) == sorted.insert(at, x),
        forall|k: int| at <= k < sorted.len() ==> precedes(rank(x), rank(sorted[k]), descending),
        at > 0 ==> !precedes(rank(x), rank(sorted[at - 1]), descending),
    decreases sorted.len(),
{
    if sorted.len() == 0 {
        assert(sorted.insert(0, x) =~= seq![x]);
        0
    } else if precedes(rank(x), rank(sorted.last()), descending) {
        let front = sorted.drop_last();
        let at = lemma_inserted_at(front, x, rank, descending);
        assert(front.insert(at, x).push(sorted.last()) =~= sorted.insert(at, x));
        assert forall|k: int| at <= k < sorted.len() implies precedes(
            rank(x),
            rank(sorted[k]),
            descending,
        ) by {
            if k < front.len() {
                assert(sorted[k] == front[k]);
            }
        }
        if at > 0 {
            assert(sorted[at - 1] == front[at - 1]);
        }
        at
    } else {
        assert(sorted.push(x) =~= sorted.insert(sorted.len() as int, x));
        sorted.len() as int
    }
}

/// Sorting keeps the length.
pub proof fn lemma_sorted_len<T>(list: Seq<T>, rank: spec_fn(T) -> Rank, descending: bool)
    ensures
        stable_sorted(list, rank, descending).len() == list.len(),
    decreases list.len(),
{
    if list.len() > 0 {
        lemma_sorted_len(list.drop_last(), rank, descending);
        lemma_inserted_len(
            stable_sorted(list.drop_last(), rank, descending),
            list.last(),
            rank,
            descending,
        );
    }
}

/// Sorting keeps every item, as often as it occurs.
pub proof fn lemma_sorted_permutes<T>(list: Seq<T>, rank: spec_fn(T) -> Rank, descending: bool)
    ensures
        stable_sorted(list, rank, descending).to_multiset() == list.to_multiset(),
    decreases list.len(),
{
    broadcast use vstd::seq_lib::group_to_multiset_ensures;

    if list.len() > 0 {
        let front = list.drop_last();
        let sorted = stable_sorted(front, rank, descending);
        lemma_sorted_permutes(front, rank, descending);
        let at = lemma_inserted_at(sorted, list.last(), rank, descending);
        vstd::seq_lib::to_multiset_insert(sorted, at, list.last());
        assert(list =~= front.push(list.last()));
        assert(list.to_multiset() =~= front.to_multiset().insert(list.last()));
        assert(stable_sorted(list, rank, descending).to_multiset() =~= list.to_multiset());
    } else {
        assert(stable_sorted(list, rank, descending) =~= list);
    }
}

/// A sorted list is ordered: no item stands after one that it must stand
/// before, whatever the ranks and the direction.
pub proof fn lemma_sorted_ordered<T>(list: Seq<T>, rank: spec_fn(T) -> Rank, descending: bool)
    ensures
        ordered(stable_sorted(list, rank, descending), rank, descending),
    decreases list.len(),
{
    if list.len() > 0 {
        let front = list.drop_last();
        let sorted = stable_sorted(front, rank, descending);
        let x = list.last();
        lemma_sorted_ordered(front, rank, descending);
        let at = lemma_inserted_at(sorted, x, rank, descending);
        let out = sorted.insert(at, x);
        assert forall|i: int, j: int| 0 <= i < j < out.len() implies !precedes(
            #[trigger] rank(out[j]),
            #[trigger] rank(out[i]),
            descending,
        ) by {
            if j == at {
                // out[i] stands before the place of x
                if i == at - 1 {
                } else {
                    // sorted[i] does not come after sorted[at - 1], which x does not pass
                    assert(!precedes(rank(sorted[at - 1]), rank(sorted[i]), descending));
                    lemma_rank_order(rank(x), rank(sorted[at - 1]), rank(sorted[i]));
                    lemma_rank_order(rank(sorted[i]), rank(sorted[at - 1]), rank(x));
                    lemma_rank_order(rank(sorted[at - 1]), rank(x), rank(sorted[i]));
                    lemma_rank_order(rank(x), rank(sorted[i]), rank(sorted[at - 1]));
                }
            } else if i == at {
                // out[j] was passed by x
                assert(out[j] == sorted[j - 1]);
                assert(precedes(rank(x), rank(sorted[j - 1]), descending));
                lemma_rank_order(rank(x), rank(sorted[j - 1]), rank(x));
            } else {
                let si = if i < at {
                    i
                } else {
                    i - 1
                };
                let sj = if j < at {
                    j
                } else {
                    j - 1
                };
                assert(out[i] == sorted[si]);
                assert(out[j] == sorted[sj]);
                assert(!precedes(rank(sorted[sj]), rank(sorted[si]), descending));
            }
        }
    }
}

proof fn lemma_filter_nothing<T>(list: Seq<T>, pred: spec_fn(T) -> bool)
    requires
        forall|k: int| 0 <= k < list.len() ==> !pred(#[trigger] list[k]),
    ensures
        list.filter(pred) == Seq::<T>::empty(),
    decreases list.len(),
{
    reveal(Seq::filter);
    if list.len() > 0 {
        lemma_filter_nothing(list.drop_last(), pred);
    } else {
        assert(list =~= Seq::<T>::empty());
    }
}

/// Sorting is stable: the items of any one rank stand in the sorted list in
/// the order in which the list had them.
pub proof fn lemma_sorted_stable<T>(
    list: Seq<T>,
    rank: spec_fn(T) -> Rank,
    descending: bool,
    r: Rank,
)
    ensures
        of_rank(stable_sorted(list, rank, descending), rank, r) == of_rank(list, rank, r),
    decreases list.len(),
{
    let pred = has_rank(rank, r);
    if list.len() > 0 {
        let front = list.drop_last();
        let sorted = stable_sorted(front, rank, descending);
        let x = list.last();
        lemma_sorted_stable(front, rank, descending, r);
        let at = lemma_inserted_at(sorted, x, rank, descending);
        let head = sorted.take(at);
        let tail = sorted.skip(at);
        assert(sorted =~= head + tail);
        assert(sorted.insert(at, x) =~= head.push(x) + tail);
        assert(list =~= front.push(x));
        Seq::filter_distributes_over_add(head, tail, pred);
        Seq::filter_distributes_over_add(head.push(x), tail, pred);
        head.lemma_filter_push(x, pred);
        front.lemma_filter_push(x, pred);
        if pred(x) {
            assert forall|k: int| 0 <= k < tail.len() implies !pred(#[trigger] tail[k]) by {
                assert(tail[k] == sorted[at + k]);
                assert(precedes(rank(x), rank(sorted[at + k]), descending));
                lemma_rank_order(rank(x), rank(tail[k]), rank(x));
            }
            lemma_filter_nothing(tail, pred);
            assert(head.filter(pred) + Seq::<T>::empty() =~= head.filter(pred));
            assert(head.filter(pred).push(x) + Seq::<T>::empty() =~= head.filter(pred).push(x));
        }
    } else {
        assert(stable_sorted(list, rank, descending) =~= list);
    }
}

proof fn lemma_inserted_mapped<A, B>(
    sorted: Seq<A>,
    x: A,
    f: spec_fn(A) -> B,
    rank_a: spec_fn(A) -> Rank,
    rank_b: spec_fn(B) -> Rank,
    descending: bool,
)
    requires
        forall|a: A| #[trigger] rank_a(a) == rank_b(f(a)),
    ensures
        inserted(sorted.map_values(f), f(x), rank_b, descending) == inserted(
            sorted,
            x,
            rank_a,
            descending,
        ).map_values(f),
    decreases sorted.len(),
{
    let mapped = sorted.map_values(f);
    assert(rank_a(x) == rank_b(f(x)));
    if sorted.len() == 0 {
        assert(seq![f(x)] =~= seq![x].map_values(f));
    } else {
        assert(mapped.last() == f(sorted.last()));
        assert(rank_a(sorted.last()) == rank_b(f(sorted.last())));
        assert(mapped.drop_last() =~= sorted.drop_last().map_values(f));
        if precedes(rank_a(x), rank_a(sorted.last()), descending) {
            lemma_inserted_mapped(sorted.drop_last(), x, f, rank_a, rank_b, descending);
            assert(inserted(sorted.drop_last(), x, rank_a, descending).map_values(f).push(
                f(sorted.last()),
            ) =~= inserted(sorted.drop_last(), x, rank_a, descending).push(
                sorted.last(),
            ).map_values(f));
        } else {
            assert(mapped.push(f(x)) =~= sorted.push(x).map_values(f));
        }
    }
}

/// Sorting and mapping can change places, where the mapping keeps the ranks.
pub proof fn lemma_sorted_mapped<A, B>(
    list: Seq<A>,
    f: spec_fn(A) -> B,
    rank_a: spec_fn(A) -> Rank,
    rank_b: spec_fn(B) -> Rank,
    descending: bool,
)
    requires
        forall|a: A| #[trigger] rank_a(a) == rank_b(f(a)),
    ensures
        stable_sorted(list.map_values(f), rank_b, descending) == stable_sorted(
            list,
            rank_a,
            descending,
        ).map_values(f),
    decreases list.len(),
{
    if list.len() == 0 {
        assert(list.map_values(f) =~= Seq::<B>::empty());
        assert(Seq::<A>::empty().map_values(f) =~= Seq::<B>::empty());
    } else {
        let mapped = list.map_values(f);
        assert(mapped.drop_last() =~= list.drop_last().map_values(f));
        assert(mapped.last() == f(list.last()));
        lemma_sorted_mapped(list.drop_last(), f, rank_a, rank_b, descending);
        lemma_inserted_mapped(
            stable_sorted(list.drop_last(), rank_a, descending),
            list.last(),
            f,
            rank_a,
            rank_b,
            descending,
        );
    }
}

/// A rule that gives every item of a list its rank and compares two items.
pub trait SortRule<T> {
    /// The rank of `item`.
    spec fn rank(&self, item: T) -> Rank;

    /// Whether the list is to descend.
    spec fn descending(&self) -> bool;

    /// The items that the rule can compare.
    spec fn admits(&self, item: T) -> bool;

    /// Whether `a` must stand before `b`.
    fn before(&self, a: &T, b: &T) -> (r: bool)
        requires
            self.admits(*a),
            self.admits(*b),
        ensures
            r == precedes(self.rank(*a), self.rank(*b), self.descending()),
    ;
}

/// The ranks that `rule` gives, as a function.
pub open spec fn ranks<T, R: SortRule<T>>(rule: R) -> spec_fn(T) -> Rank {
    |item: T| rule.rank(item)
}

/// Sorts `items` by `rule`; items of equal rank keep their order.
pub fn sort_by_rule<T, R: SortRule<T>>(items: &mut Vec<T>, rule: &R)
    requires
        forall|k: int| 0 <= k < old(items).len() ==> rule.admits(#[trigger] old(items)[k]),
    ensures
        final(items)@ == stable_sorted(old(items)@, ranks(*rule), rule.descending()),
        final(items).len() == old(items).len(),
        forall|k: int| 0 <= k < final(items).len() ==> rule.admits(#[trigger] final(items)[k]),
{
    let ghost rank = ranks(*rule);
    let ghost descending = rule.descending();
    let ghost input = items@;
    let count = items.len();
    let mut i: usize = 0;
    proof {
        assert(input.take(0) =~= Seq::<T>::empty());
        assert(items@ =~= stable_sorted(input.take(0), rank, descending) + input.skip(0));
    }
    while i < count
        invariant
            i <= count == input.len(),
            rank == ranks(*rule),
            descending == rule.descending(),
            items@ == stable_sorted(input.take(i as int), rank, descending) + input.skip(i as int),
            stable_sorted(input.take(i as int), rank, descending).len() == i,
            forall|k: int| 0 <= k < items.len() ==> rule.admits(#[trigger] items[k]),
        decreases count - i,
    {
        let ghost prefix = stable_sorted(input.take(i as int), rank, descending);
        let ghost whole = items@;
        let x = items.remove(i);
        proof {
            assert(x == whole[i as int]);
            assert forall|k: int| 0 <= k < items.len() implies rule.admits(
                #[trigger] items[k],
            ) by {
                if k < i {
                    assert(items[k] == whole[k]);
                } else {
                    assert(items[k] == whole[k + 1]);
                }
            }
            assert(x == input[i as int]);
            assert(items@ =~= prefix + input.skip(i + 1));
        }
        let mut j: usize = i;
        proof {
            assert(prefix.take(i as int) =~= prefix);
            assert(inserted(prefix, x, rank, descending) + prefix.skip(i as int) =~= inserted(
                prefix,
                x,
                rank,
                descending,
            ));
        }
        while j > 0 && rule.before(&x, &items[j - 1])
            invariant
                j <= i < count,
                items@ == prefix + input.skip(i + 1),
                prefix.len() == i,
                rule.admits(x),
                forall|k: int| 0 <= k < items.len() ==> rule.admits(#[trigger] items[k]),
                rank == ranks(*rule),
                descending == rule.descending(),
                inserted(prefix, x, rank, descending) == inserted(
                    prefix.take(j as int),
                    x,
                    rank,
                    descending,
                ) + prefix.skip(j as int),
            decreases j,
        {
            proof {
                let part = prefix.take(j as int);
                assert(part.last() == prefix[j - 1]);
                assert(items@[j - 1] == prefix[j - 1]);
                assert(part.drop_last() =~= prefix.take(j - 1));
                assert(inserted(part, x, rank, descending) == inserted(
                    prefix.take(j - 1),
                    x,
                    rank,
                    descending,
                ).push(prefix[j - 1]));
                assert(inserted(prefix.take(j - 1), x, rank, descending).push(prefix[j - 1])
                    + prefix.skip(j as int) =~= inserted(
                    prefix.take(j - 1),
                    x,
                    rank,
                    descending,
                ) + prefix.skip(j - 1));
            }
            j -= 1;
        }
        proof {
            let part = prefix.take(j as int);
            if j > 0 {
                assert(part.last() == prefix[j - 1]);
                assert(items@[j - 1] == prefix[j - 1]);
            }
            assert(inserted(part, x, rank, descending) =~= part.push(x));
            assert(input.take(i + 1).drop_last() =~= input.take(i as int));
            assert(input.take(i + 1).last() == x);
            lemma_inserted_len(prefix, x, rank, descending);
        }
        let ghost rest = items@;
        items.insert(j, x);
        proof {
            assert forall|k: int| 0 <= k < items.len() implies rule.admits(
                #[trigger] items[k],
            ) by {
                if k < j {
                    assert(items[k] == rest[k]);
                } else if k > j {
                    assert(items[k] == rest[k - 1]);
                }
            }
            assert(items@ =~= stable_sorted(input.take(i + 1), rank, descending) + input.skip(
                i + 1,
            ));
        }
        i += 1;
    }
    proof {
        assert(input.take(count as int) =~= input);
        assert(input.skip(count as int) =~= Seq::<T>::empty());
        assert(items@ =~= stable_sorted(input, rank, descending));
    }
}

} // verus!
