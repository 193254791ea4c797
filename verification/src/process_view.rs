//! The process list as the table shows it: filtered by a text, ordered by a
//! key, with a selection that stays inside the list and a window that keeps
//! the selection in sight.

use crate::model::{rows, texts, ProcessInfo, ProcessRow, SortKey};
use crate::order::{
    lemma_sorted_mapped, ranks, sort_by_rule, stable_sorted, Rank, SortRule,
};
use crate::text::{
    contains, contains_text, decimal, decimal_string, join, joined, lowercase, text_before,
    to_lowercase,
};
use vstd::prelude::*;

verus! {

/// Whether the lowercase form of `text` contains `needle`.
pub open spec fn mentions(text: Seq<char>, needle: Seq<char>) -> bool {
    contains_text(lowercase(text), needle)
}

/// Whether a process passes the filter whose lowercase form is `needle`:
/// its name, its command line, or its user mentions the needle without
/// regard to case, or its process id in decimal contains it.
pub open spec fn matches_needle(row: ProcessRow, needle: Seq<char>) -> bool {
    ||| mentions(row.name, needle)
    ||| mentions(joined(row.cmd, " "@), needle)
    ||| mentions(row.user, needle)
    ||| contains_text(decimal(row.pid as nat), needle)
}

/// Whether a process passes the filter text: every process passes the empty
/// filter; any other filter is applied in its lowercase form.
pub open spec fn matches_filter(row: ProcessRow, filter: Seq<char>) -> bool {
    filter.len() == 0 || matches_needle(row, lowercase(filter))
}

/// The test of a filter text, as a function.
pub open spec fn filter_test(filter: Seq<char>) -> spec_fn(ProcessRow) -> bool {
    |row: ProcessRow| matches_filter(row, filter)
}

/// The rows that pass the filter text, in their order.
pub open spec fn filtered(list: Seq<ProcessRow>, filter: Seq<char>) -> Seq<ProcessRow> {
    list.filter(filter_test(filter))
}

/// The rank of a process under a sort key: the usage share, the process
/// id, or the name.
pub open spec fn row_rank(row: ProcessRow, key: SortKey) -> Rank {
    match key {
        SortKey::Cpu => Rank { number: row.cpu_percent.thousandths as int, text: Seq::empty() },
        SortKey::Memory => Rank {
            number: row.memory_percent.thousandths as int,
            text: Seq::empty(),
        },
        SortKey::Pid => Rank { number: row.pid as int, text: Seq::empty() },
        SortKey::Name => Rank { number: 0, text: row.name },
    }
}

/// The ranks under a sort key, as a function.
pub open spec fn row_ranks(key: SortKey) -> spec_fn(ProcessRow) -> Rank {
    |row: ProcessRow| row_rank(row, key)
}

/// The rows in the order of a sort key and a direction; rows of equal rank
/// keep their order.
pub open spec fn sorted_rows(list: Seq<ProcessRow>, key: SortKey, reverse: bool) -> Seq<
    ProcessRow,
> {
    stable_sorted(list, row_ranks(key), reverse)
}

/// What the table lists: the rows that pass the filter, ordered by the key.
pub open spec fn listed(list: Seq<ProcessRow>, filter: Seq<char>, key: SortKey, reverse: bool)
    -> Seq<ProcessRow> {
    sorted_rows(filtered(list, filter), key, reverse)
}

/// The selection held inside a list of `count` rows: the last row where it
/// pointed behind it, the first in an empty list.
pub open spec fn clamped_selection(selected: nat, count: nat) -> nat {
    if count == 0 {
        0
    } else if selected > count - 1 {
        (count - 1) as nat
    } else {
        selected
    }
}

/// The start of the window after the least move that shows the selected
/// row `selected` in a window of `visible` rows: unchanged where the row is
/// in sight already. An empty list resets the window.
pub open spec fn scrolled_start(start: nat, selected: nat, count: nat, visible: nat) -> nat {
    if count == 0 {
        0
    } else if selected < start {
        selected
    } else if selected >= start + visible {
        if visible == 0 {
            selected
        } else {
            (selected - (visible - 1)) as nat
        }
    } else {
        start
    }
}

/// Sorting processes is stable and complete. For each of the four keys and
/// both directions, the sorted list holds every row as often as the list
/// did, no row stands after one that it must stand before, and the rows of
/// any one rank stand in the order in which the list had them.
pub proof fn lemma_sort_stable(list: Seq<ProcessRow>, key: SortKey, reverse: bool, rank: Rank)
    ensures
        sorted_rows(list, key, reverse).len() == list.len(),
        sorted_rows(list, key, reverse).to_multiset() == list.to_multiset(),
        crate::order::ordered(sorted_rows(list, key, reverse), row_ranks(key), reverse),
        crate::order::of_rank(sorted_rows(list, key, reverse), row_ranks(key), rank)
            == crate::order::of_rank(list, row_ranks(key), rank),
{
    crate::order::lemma_sorted_len(list, row_ranks(key), reverse);
    crate::order::lemma_sorted_permutes(list, row_ranks(key), reverse);
    crate::order::lemma_sorted_ordered(list, row_ranks(key), reverse);
    crate::order::lemma_sorted_stable(list, row_ranks(key), reverse, rank);
}

proof fn lemma_filter_all<T>(list: Seq<T>, test: spec_fn(T) -> bool)
    requires
        forall|k: int| 0 <= k < list.len() ==> test(#[trigger] list[k]),
    ensures
        list.filter(test) == list,
    decreases list.len(),
{
    reveal(Seq::filter);
    if list.len() > 0 {
        lemma_filter_all(list.drop_last(), test);
        assert(list.drop_last().push(list.last()) =~= list);
    }
}

/// The empty filter keeps every row, in its order.
pub proof fn lemma_empty_filter(list: Seq<ProcessRow>)
    ensures
        filtered(list, Seq::empty()) == list,
{
    lemma_filter_all(list, filter_test(Seq::empty()));
}

/// Filtering an empty list leaves it empty.
pub proof fn lemma_empty_rows(filter: Seq<char>)
    ensures
        filtered(Seq::empty(), filter).len() == 0,
{
    Seq::<ProcessRow>::empty().lemma_filter_len(filter_test(filter));
}

/// Filtering does not see case. Two filter texts with one lowercase form
/// pass the same rows; and a filter passes two rows alike that agree in
/// their process id and in the lowercase forms of name, command line and
/// user.
pub proof fn lemma_filter_ignores_case(
    row: ProcessRow,
    other: ProcessRow,
    filter: Seq<char>,
    same: Seq<char>,
)
    requires
        lowercase(filter) == lowercase(same),
        filter.len() > 0,
        same.len() > 0,
        lowercase(row.name) == lowercase(other.name),
        lowercase(joined(row.cmd, " "@)) == lowercase(joined(other.cmd, " "@)),
        lowercase(row.user) == lowercase(other.user),
        row.pid == other.pid,
    ensures
        matches_filter(row, filter) == matches_filter(row, same),
        matches_filter(row, filter) == matches_filter(other, filter),
{
}

/// Every row that a filter keeps passes it, and the kept rows are rows of
/// the list in their order.
pub proof fn lemma_filtered_rows(list: Seq<ProcessRow>, filter: Seq<char>, i: int)
    requires
        0 <= i < filtered(list, filter).len(),
    ensures
        matches_filter(filtered(list, filter)[i], filter),
        list.contains(filtered(list, filter)[i]),
        filtered(list, filter).len() <= list.len(),
{
    list.lemma_filter_pred(filter_test(filter), i);
    assert(filtered(list, filter).contains(filtered(list, filter)[i]));
    list.lemma_filter_contains_rev(filter_test(filter), filtered(list, filter)[i]);
    list.lemma_filter_len(filter_test(filter));
}

/// The clamped selection is never out of bounds: it points into the list,
/// or at zero where the list is empty, and it never moves forward.
pub proof fn lemma_selection_in_bounds(selected: nat, count: nat)
    ensures
        clamped_selection(selected, count) <= selected,
        count > 0 ==> clamped_selection(selected, count) < count,
        count == 0 ==> clamped_selection(selected, count) == 0,
        selected < count ==> clamped_selection(selected, count) == selected,
        selected >= count && count > 0 ==> clamped_selection(selected, count) == count - 1,
{
}

/// The window follows the selection by the least move: a selection in
/// sight leaves the window where it is, and after the move the selection
/// is in sight wherever the window has a row at all.
pub proof fn lemma_window_shows_selection(start: nat, selected: nat, count: nat, visible: nat)
    requires
        count > 0,
    ensures
        start <= selected < start + visible ==> scrolled_start(start, selected, count, visible)
            == start,
        visible > 0 ==> scrolled_start(start, selected, count, visible) <= selected
            < scrolled_start(start, selected, count, visible) + visible,
        selected < start ==> scrolled_start(start, selected, count, visible) == selected,
        selected >= start + visible && visible > 0 ==> scrolled_start(
            start,
            selected,
            count,
            visible,
        ) + visible - 1 == selected,
{
}

/// A rule that orders processes by a key and a direction.
pub struct ByKey {
    pub key: SortKey,
    pub reverse: bool,
}

impl SortRule<ProcessInfo> for ByKey {
    open spec fn rank(&self, item: ProcessInfo) -> Rank {
        row_rank(item@, self.key)
    }

    open spec fn descending(&self) -> bool {
        self.reverse
    }

    open spec fn admits(&self, item: ProcessInfo) -> bool {
        true
    }

    fn before(&self, a: &ProcessInfo, b: &ProcessInfo) -> (r: bool) {
        let (first, second) = if self.reverse {
            (b, a)
        } else {
            (a, b)
        };
        proof {
            crate::order::lemma_text_lt_irreflexive(Seq::<char>::empty());
        }
        match self.key {
            SortKey::Cpu => first.cpu_percent.thousandths < second.cpu_percent.thousandths,
            SortKey::Memory => first.memory_percent.thousandths
                < second.memory_percent.thousandths,
            SortKey::Pid => first.pid < second.pid,
            SortKey::Name => text_before(first.name.as_str(), second.name.as_str()),
        }
    }
}

/// Whether `process` passes the filter whose lowercase form is `needle`.
pub fn process_matches(process: &ProcessInfo, needle: &str) -> (r: bool)
    ensures
        r == matches_needle(process@, needle@),
{
    if contains(to_lowercase(process.name.as_str()).as_str(), needle) {
        return true;
    }
    let command = join(&process.cmd, " ");
    if contains(to_lowercase(command.as_str()).as_str(), needle) {
        return true;
    }
    if contains(to_lowercase(process.user.as_str()).as_str(), needle) {
        return true;
    }
    contains(decimal_string(process.pid as u64).as_str(), needle)
}

/// Copies of the processes that pass the filter text, in their order.
pub fn filter_processes(processes: &Vec<ProcessInfo>, filter: &str) -> (r: Vec<ProcessInfo>)
    ensures
        rows(r@) == filtered(rows(processes@), filter@),
{
    let ghost list = rows(processes@);
    let ghost test = filter_test(filter@);
    let unfiltered = crate::text::char_count(filter) == 0;
    let needle = to_lowercase(filter);
    let mut r: Vec<ProcessInfo> = Vec::new();
    let mut i: usize = 0;
    proof {
        assert(list.take(0) =~= Seq::<ProcessRow>::empty());
        reveal(Seq::filter);
        assert(rows(r@) =~= list.take(0).filter(test));
    }
    while i < processes.len()
        invariant
            i <= processes.len(),
            list == rows(processes@),
            test == filter_test(filter@),
            unfiltered == (filter@.len() == 0),
            needle@ == lowercase(filter@),
            rows(r@) == list.take(i as int).filter(test),
        decreases processes.len() - i,
    {
        let ghost kept = rows(r@);
        proof {
            assert(list.take(i + 1) =~= list.take(i as int).push(list[i as int]));
            list.take(i as int).lemma_filter_push(list[i as int], test);
            assert(list[i as int] == processes[i as int]@);
        }
        if unfiltered || process_matches(&processes[i], needle.as_str()) {
            r.push(processes[i].clone());
            proof {
                assert(rows(r@) =~= kept.push(processes[i as int]@));
            }
        }
        i += 1;
    }
    proof {
        assert(list.take(processes.len() as int) =~= list);
    }
    r
}

/// Orders `processes` by `key`, descending where `reverse` is set;
/// processes of equal rank keep their order.
pub fn sort_processes(processes: &mut Vec<ProcessInfo>, key: SortKey, reverse: bool)
    ensures
        rows(final(processes)@) == sorted_rows(rows(old(processes)@), key, reverse),
        final(processes).len() == old(processes).len(),
{
    let rule = ByKey { key, reverse };
    sort_by_rule(processes, &rule);
    proof {
        let view = |p: ProcessInfo| p@;
        let by_item = ranks::<ProcessInfo, ByKey>(rule);
        let by_row = row_ranks(key);
        assert forall|p: ProcessInfo| #[trigger] by_item(p) == by_row(view(p)) by {}
        lemma_sorted_mapped(old(processes)@, view, by_item, by_row, reverse);
        assert(old(processes)@.map_values(view) =~= rows(old(processes)@));
        assert(processes@.map_values(view) =~= rows(processes@));
    }
}

/// What the table shows of a process list: the rows of the window, with
/// the selection and the start of the window as they are after settling.
#[derive(Debug, PartialEq, Eq)]
pub struct VisibleRows {
    pub rows: Vec<ProcessInfo>,
    pub selected: usize,
    pub start: usize,
}

/// The rows of `list` that a window of `height` rows shows from `start` on.
pub open spec fn window(list: Seq<ProcessRow>, start: nat, height: nat) -> Seq<ProcessRow> {
    if start >= list.len() {
        Seq::empty()
    } else if list.len() - start < height {
        list.skip(start as int)
    } else {
        list.subrange(start as int, (start + height) as int)
    }
}

/// The processes that a viewport of `viewport_height` rows shows: those
/// that pass the filter, ordered by the key, from the start of the window
/// on; the selection is held inside the list, and the window is moved the
/// least to show it.
pub fn visible_rows(
    processes: &Vec<ProcessInfo>,
    filter: &str,
    key: SortKey,
    reverse: bool,
    selected: usize,
    start: usize,
    viewport_height: usize,
) -> (shown: VisibleRows)
    ensures
        shown.selected == clamped_selection(
            selected as nat,
            listed(rows(processes@), filter@, key, reverse).len(),
        ),
        shown.start == scrolled_start(
            start as nat,
            shown.selected as nat,
            listed(rows(processes@), filter@, key, reverse).len(),
            viewport_height as nat,
        ),
        rows(shown.rows@) == window(
            listed(rows(processes@), filter@, key, reverse),
            shown.start as nat,
            viewport_height as nat,
        ),
{
    let mut all = filter_processes(processes, filter);
    sort_processes(&mut all, key, reverse);
    let ghost list = rows(all@);
    let count = all.len();
    let selected = clamp_index(selected, count);
    let start = scroll_start(start, selected, count, viewport_height);
    let end: usize = if start >= count {
        start
    } else if count - start < viewport_height {
        count
    } else {
        start + viewport_height
    };
    let mut shown: Vec<ProcessInfo> = Vec::new();
    let mut i: usize = start;
    while i < end
        invariant
            start <= i <= end,
            end <= count || end == start,
            count == all.len(),
            list == rows(all@),
            shown.len() == i - start,
            forall|k: int| 0 <= k < shown.len() ==> (#[trigger] shown[k])@ == list[start + k],
        decreases end - i,
    {
        shown.push(all[i].clone());
        i += 1;
    }
    proof {
        assert(rows(shown@) =~= window(list, start as nat, viewport_height as nat));
    }
    VisibleRows { rows: shown, selected, start }
}

/// The selection held inside a list of `count` rows.
pub fn clamp_index(selected: usize, count: usize) -> (r: usize)
    ensures
        r == clamped_selection(selected as nat, count as nat),
{
    if count == 0 {
        0
    } else if selected > count - 1 {
        count - 1
    } else {
        selected
    }
}

/// The start of the window that shows the selected row.
pub fn scroll_start(start: usize, selected: usize, count: usize, visible: usize) -> (r: usize)
    ensures
        r == scrolled_start(start as nat, selected as nat, count as nat, visible as nat),
{
    if count == 0 {
        0
    } else if selected < start {
        selected
    } else if selected - start >= visible {
        if visible == 0 {
            selected
        } else {
            selected - (visible - 1)
        }
    } else {
        start
    }
}

} // verus!
