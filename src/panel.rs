//! Focus regions, keys, and the Filters panel's option rows: the sort
//! orders, the index toggles, the seeder thresholds and the adult-content
//! filter, walked by one cursor in that order.

use vstd::prelude::*;
use crate::search::SortMode;
use crate::text::push_str;

verus! {

/// The three regions that can hold keyboard focus.
#[derive(Clone, Copy, Debug, PartialEq, Eq, Structural)]
pub enum Panel {
    Search,
    Filters,
    Results,
}

/// A key press, as far as the dashboard distinguishes keys.
#[derive(Clone, Copy, Debug, PartialEq, Eq, Structural)]
pub enum Key {
    Char(char),
    Backspace,
    Enter,
    Esc,
    Tab,
    BackTab,
    Up,
    Down,
    Left,
    Right,
    Other,
}

/// The panel that Tab moves to.
pub open spec fn next_panel(p: Panel) -> Panel {
    match p {
        Panel::Search => Panel::Filters,
        Panel::Filters => Panel::Results,
        Panel::Results => Panel::Search,
    }
}

/// The panel that Shift-Tab moves to.
pub open spec fn previous_panel(p: Panel) -> Panel {
    match p {
        Panel::Search => Panel::Results,
        Panel::Filters => Panel::Search,
        Panel::Results => Panel::Filters,
    }
}

pub open spec fn panel_name(p: Panel) -> Seq<char> {
    match p {
        Panel::Search => "Search"@,
        Panel::Filters => "Filters"@,
        Panel::Results => "Results"@,
    }
}

impl Panel {
    pub fn next(self) -> (r: Panel)
        ensures
            r == next_panel(self),
    {
        match self {
            Panel::Search => Panel::Filters,
            Panel::Filters => Panel::Results,
            Panel::Results => Panel::Search,
        }
    }

    pub fn previous(self) -> (r: Panel)
        ensures
            r == previous_panel(self),
    {
        match self {
            Panel::Search => Panel::Results,
            Panel::Filters => Panel::Search,
            Panel::Results => Panel::Filters,
        }
    }

    /// Appends the panel's name.
    pub fn push_name(self, out: &mut String)
        ensures
            final(out)@ == old(out)@ + panel_name(self),
    {
        match self {
            Panel::Search => push_str(out, "Search"),
            Panel::Filters => push_str(out, "Filters"),
            Panel::Results => push_str(out, "Results"),
        }
    }
}

/// Tab three times returns focus to where it was, from every panel; so four
/// presses from Search end on Filters. Shift-Tab undoes Tab.
pub proof fn lemma_tab_cycle(p: Panel)
    ensures
        next_panel(next_panel(next_panel(p))) == p,
        next_panel(next_panel(next_panel(next_panel(Panel::Search)))) == Panel::Filters,
        previous_panel(next_panel(p)) == p,
        next_panel(previous_panel(p)) == p,
{
}

/// Number of selectable indexes, the `all` entry included.
pub const INDEXER_COUNT: usize = 9;
/// Position of the `all` entry, which stands for no narrowing.
pub const ALL_INDEXERS: usize = 0;
pub const SORT_OPTION_COUNT: usize = 3;
pub const MIN_SEEDER_OPTION_COUNT: usize = 4;
pub const ADULT_OPTION_COUNT: usize = 2;
/// Rows of the Filters panel: sort orders, indexes, thresholds, adult filter.
pub const FILTER_ROW_COUNT: usize = SORT_OPTION_COUNT + INDEXER_COUNT + MIN_SEEDER_OPTION_COUNT
    + ADULT_OPTION_COUNT;

/// The name an index is shown under.
pub open spec fn indexer_label(i: int) -> Seq<char> {
    if i == 0 { "all"@ }
    else if i == 1 { "1337x"@ }
    else if i == 2 { "EZTV"@ }
    else if i == 3 { "nyaa.si"@ }
    else if i == 4 { "RUtracker"@ }
    else if i == 5 { "TPB"@ }
    else if i == 6 { "RARBG"@ }
    else if i == 7 { "Uindex"@ }
    else { "YTS"@ }
}

/// The name the search provider knows an index by.
pub open spec fn indexer_api_name(i: int) -> Seq<char> {
    if i == 2 { "eztv"@ }
    else if i == 4 { "rutracker"@ }
    else if i == 5 { "thepiratebay"@ }
    else if i == 6 { "therarbg"@ }
    else if i == 8 { "yts"@ }
    else { indexer_label(i) }
}

pub fn indexer_label_string(i: usize) -> (r: String)
    requires
        i < INDEXER_COUNT,
    ensures
        r@ == indexer_label(i as int),
{
    String::from_str(
        if i == 0 { "all" }
        else if i == 1 { "1337x" }
        else if i == 2 { "EZTV" }
        else if i == 3 { "nyaa.si" }
        else if i == 4 { "RUtracker" }
        else if i == 5 { "TPB" }
        else if i == 6 { "RARBG" }
        else if i == 7 { "Uindex" }
        else { "YTS" }
    )
}

pub fn indexer_api_string(i: usize) -> (r: String)
    requires
        i < INDEXER_COUNT,
    ensures
        r@ == indexer_api_name(i as int),
{
    if i == 2 { String::from_str("eztv") }
    else if i == 4 { String::from_str("rutracker") }
    else if i == 5 { String::from_str("thepiratebay") }
    else if i == 6 { String::from_str("therarbg") }
    else if i == 8 { String::from_str("yts") }
    else { indexer_label_string(i) }
}

/// A well-formed index selection: non-empty, valid, without repeats, and
/// `all` only on its own.
pub open spec fn selection_wf(sel: Seq<usize>) -> bool {
    &&& sel.len() > 0
    &&& forall|k: int| 0 <= k < sel.len() ==> #[trigger] sel[k] < INDEXER_COUNT
    &&& sel.no_duplicates()
    &&& sel.contains(ALL_INDEXERS) ==> sel == seq![ALL_INDEXERS]
}

/// The test that keeps every index but `i`.
pub open spec fn other_than(i: usize) -> spec_fn(usize) -> bool {
    |x: usize| x != i
}

/// The selection after the user activates index `i`: `all` replaces
/// everything; another index is added, or removed if present, and an empty
/// selection falls back to `all`.
pub open spec fn toggled(sel: Seq<usize>, i: usize) -> Seq<usize> {
    if i == ALL_INDEXERS {
        seq![ALL_INDEXERS]
    } else {
        let base = if sel.contains(ALL_INDEXERS) { Seq::empty() } else { sel };
        if base.contains(i) {
            let rest = base.filter(other_than(i));
            if rest.len() == 0 { seq![ALL_INDEXERS] } else { rest }
        } else {
            base.push(i)
        }
    }
}

/// Choosing `all` and then a specific index leaves just that index; taking
/// away the only specific index brings back `all`.
pub proof fn lemma_toggle_all_then_specific(sel: Seq<usize>, j: usize)
    requires
        j != ALL_INDEXERS,
    ensures
        toggled(toggled(sel, ALL_INDEXERS), j) == seq![j],
        toggled(seq![j], j) == seq![ALL_INDEXERS],
{
    let a = seq![ALL_INDEXERS];
    assert(a.contains(ALL_INDEXERS)) by { assert(a[0] == ALL_INDEXERS); }
    let e: Seq<usize> = Seq::empty();
    assert(!e.contains(j));
    assert(e.push(j) =~= seq![j]);
    let s = seq![j];
    assert(s.contains(j)) by { assert(s[0] == j); }
    assert(!s.contains(ALL_INDEXERS)) by {
        if s.contains(ALL_INDEXERS) {
            let k = choose|k: int| 0 <= k < s.len() && s[k] == ALL_INDEXERS;
            assert(s[k] == j);
        }
    }
    let pred = other_than(j);
    assert(s =~= Seq::<usize>::empty().push(j));
    Seq::<usize>::empty().lemma_filter_push(j, pred);
    assert(Seq::<usize>::empty().filter(pred) =~= Seq::<usize>::empty()) by {
        reveal(Seq::filter);
    }
}

fn contains_index(v: &Vec<usize>, x: usize) -> (r: bool)
    ensures
        r == v@.contains(x),
{
    let mut i: usize = 0;
    while i < v.len()
        invariant
            i <= v@.len(),
            forall|k: int| 0 <= k < i ==> v@[k] != x,
        decreases v@.len() - i,
    {
        if v[i] == x {
            assert(v@[i as int] == x);
            return true;
        }
        i = i + 1;
    }
    false
}

fn without_index(v: &Vec<usize>, x: usize) -> (r: Vec<usize>)
    ensures
        r@ == v@.filter(other_than(x)),
{
    let ghost pred = other_than(x);
    let mut out: Vec<usize> = Vec::new();
    let mut i: usize = 0;
    while i < v.len()
        invariant
            pred == other_than(x),
            i <= v@.len(),
            out@ == v@.take(i as int).filter(pred),
        decreases v@.len() - i,
    {
        proof {
            assert(v@.take(i + 1) =~= v@.take(i as int).push(v@[i as int]));
            v@.take(i as int).lemma_filter_push(v@[i as int], pred);
        }
        if v[i] != x {
            out.push(v[i]);
        }
        i = i + 1;
    }
    assert(v@.take(i as int) =~= v@);
    out
}

/// Applies `toggled` to a selection.
pub fn toggle_indexer(sel: &Vec<usize>, i: usize) -> (r: Vec<usize>)
    requires
        selection_wf(sel@),
        i < INDEXER_COUNT,
    ensures
        r@ == toggled(sel@, i),
        selection_wf(r@),
{
    let ghost pred = other_than(i);
    if i == ALL_INDEXERS {
        let r = vec![ALL_INDEXERS];
        proof {
            assert(r@ =~= seq![ALL_INDEXERS]);
            assert(r@.contains(ALL_INDEXERS)) by { assert(r@[0] == ALL_INDEXERS); }
        }
        return r;
    }
    let base: Vec<usize> = if contains_index(sel, ALL_INDEXERS) { Vec::new() } else { vec_copy(sel) };
    assert(base@ == (if sel@.contains(ALL_INDEXERS) { Seq::<usize>::empty() } else { sel@ }));
    assert(base@.no_duplicates());
    assert(!base@.contains(ALL_INDEXERS));
    if contains_index(&base, i) {
        let rest = without_index(&base, i);
        proof {
            base@.lemma_filter_len(pred);
            assert forall|k: int| 0 <= k < rest@.len() implies #[trigger] rest@[k] < INDEXER_COUNT && rest@[k]
                != ALL_INDEXERS by {
                base@.lemma_filter_pred(pred, k);
                assert(rest@.contains(rest@[k]));
                base@.lemma_filter_contains_rev(pred, rest@[k]);
                let j = choose|j: int| 0 <= j < base@.len() && base@[j] == rest@[k];
                assert(base@[j] < INDEXER_COUNT);
            }
            lemma_filter_keeps_no_duplicates(base@, pred);
        }
        if rest.len() == 0 {
            let r = vec![ALL_INDEXERS];
            proof {
                assert(r@ =~= seq![ALL_INDEXERS]);
                assert(r@.contains(ALL_INDEXERS)) by { assert(r@[0] == ALL_INDEXERS); }
            }
            r
        } else {
            proof {
                if rest@.contains(ALL_INDEXERS) {
                    let k = choose|k: int| 0 <= k < rest@.len() && rest@[k] == ALL_INDEXERS;
                }
            }
            rest
        }
    } else {
        let mut r = base;
        r.push(i);
        proof {
            if r@.contains(ALL_INDEXERS) {
                let k = choose|k: int| 0 <= k < r@.len() && r@[k] == ALL_INDEXERS;
                if k < base@.len() {
                    assert(base@[k] == ALL_INDEXERS);
                }
            }
            assert forall|a: int, b: int| 0 <= a < r@.len() && 0 <= b < r@.len() && a != b implies r@[a]
                != r@[b] by {
                if a == base@.len() as int {
                    assert(base@[b] != i);
                } else if b == base@.len() as int {
                    assert(base@[a] != i);
                }
            }
        }
        r
    }
}

fn vec_copy(v: &Vec<usize>) -> (r: Vec<usize>)
    ensures
        r@ == v@,
{
    let mut out: Vec<usize> = Vec::new();
    let mut i: usize = 0;
    while i < v.len()
        invariant
            i <= v@.len(),
            out@ == v@.take(i as int),
        decreases v@.len() - i,
    {
        out.push(v[i]);
        i = i + 1;
        assert(out@ =~= v@.take(i as int));
    }
    assert(v@.take(i as int) =~= v@);
    out
}

proof fn lemma_filter_keeps_no_duplicates(s: Seq<usize>, pred: spec_fn(usize) -> bool)
    requires
        s.no_duplicates(),
    ensures
        s.filter(pred).no_duplicates(),
    decreases s.len(),
{
    reveal(Seq::filter);
    if s.len() > 0 {
        let init = s.drop_last();
        assert(init.no_duplicates()) by {
            assert forall|a: int, b: int| 0 <= a < init.len() && 0 <= b < init.len() && a != b implies init[a]
                != init[b] by {
                assert(init[a] == s[a] && init[b] == s[b]);
            }
        }
        lemma_filter_keeps_no_duplicates(init, pred);
        assert(s =~= init.push(s.last()));
        init.lemma_filter_push(s.last(), pred);
        if pred(s.last()) {
            let f = init.filter(pred);
            assert(!f.contains(s.last())) by {
                if f.contains(s.last()) {
                    init.lemma_filter_contains_rev(pred, s.last());
                    let j = choose|j: int| 0 <= j < init.len() && init[j] == s.last();
                    assert(s[j] == s[s.len() - 1]);
                }
            }
            let g = f.push(s.last());
            assert forall|a: int, b: int| 0 <= a < g.len() && 0 <= b < g.len() && a != b implies g[a] != g[b] by {
                if a == f.len() as int {
                    assert(g[b] == f[b] && f.contains(f[b]));
                } else if b == f.len() as int {
                    assert(g[a] == f[a] && f.contains(f[a]));
                } else {
                    assert(g[a] == f[a] && g[b] == f[b]);
                }
            }
        }
    }
}

/// What the Filters cursor points at.
#[derive(Clone, Copy, Debug, PartialEq, Eq, Structural)]
pub enum FilterRow {
    Sort(usize),
    Indexer(usize),
    MinSeeders(usize),
    Adult(usize),
}

/// The row at cursor position `c`.
pub open spec fn filter_row(c: int) -> FilterRow {
    if c < SORT_OPTION_COUNT {
        FilterRow::Sort(c as usize)
    } else if c < SORT_OPTION_COUNT + INDEXER_COUNT {
        FilterRow::Indexer((c - SORT_OPTION_COUNT) as usize)
    } else if c < SORT_OPTION_COUNT + INDEXER_COUNT + MIN_SEEDER_OPTION_COUNT {
        FilterRow::MinSeeders((c - SORT_OPTION_COUNT - INDEXER_COUNT) as usize)
    } else {
        FilterRow::Adult((c - SORT_OPTION_COUNT - INDEXER_COUNT - MIN_SEEDER_OPTION_COUNT) as usize)
    }
}

pub fn filter_row_at(c: usize) -> (r: FilterRow)
    requires
        c < FILTER_ROW_COUNT,
    ensures
        r == filter_row(c as int),
{
    if c < SORT_OPTION_COUNT {
        FilterRow::Sort(c)
    } else if c < SORT_OPTION_COUNT + INDEXER_COUNT {
        FilterRow::Indexer(c - SORT_OPTION_COUNT)
    } else if c < SORT_OPTION_COUNT + INDEXER_COUNT + MIN_SEEDER_OPTION_COUNT {
        FilterRow::MinSeeders(c - SORT_OPTION_COUNT - INDEXER_COUNT)
    } else {
        FilterRow::Adult(c - SORT_OPTION_COUNT - INDEXER_COUNT - MIN_SEEDER_OPTION_COUNT)
    }
}

/// The sort order of the `i`-th sort row.
pub open spec fn sort_option(i: int) -> SortMode {
    if i == 0 { SortMode::Seeders } else if i == 1 { SortMode::Size } else { SortMode::Name }
}

pub fn sort_option_at(i: usize) -> (r: SortMode)
    ensures
        r == sort_option(i as int),
{
    if i == 0 { SortMode::Seeders } else if i == 1 { SortMode::Size } else { SortMode::Name }
}

/// The seeder threshold of the `i`-th threshold row.
pub open spec fn min_seeder_option(i: int) -> u32 {
    if i == 0 { 0 } else if i == 1 { 5 } else if i == 2 { 10 } else { 100 }
}

pub fn min_seeder_option_at(i: usize) -> (r: u32)
    ensures
        r == min_seeder_option(i as int),
{
    if i == 0 { 0 } else if i == 1 { 5 } else if i == 2 { 10 } else { 100 }
}

} // verus!
