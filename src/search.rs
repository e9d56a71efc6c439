//! Post-processing of search hits: the minimum-seeders filter and the three
//! result orders.

use vstd::prelude::*;
use vstd::string::*;
use crate::models::TorrentResult;

verus! {

/// The order in which results are listed.
#[derive(Clone, Copy, Debug, PartialEq, Eq, Structural)]
pub enum SortMode {
    /// Most seeders first.
    Seeders,
    /// Largest first.
    Size,
    /// Ascending by title text, character by character.
    Name,
}

/// Lexicographic order on character sequences (by code point; a proper
/// prefix comes first).
pub open spec fn text_lt(a: Seq<char>, b: Seq<char>) -> bool
    decreases a.len(),
{
    if a.len() == 0 {
        b.len() > 0
    } else if b.len() == 0 {
        false
    } else if a[0] != b[0] {
        a[0] < b[0]
    } else {
        text_lt(a.drop_first(), b.drop_first())
    }
}

/// `a` must be listed before `b` under `mode`.
pub open spec fn ranks_before(mode: SortMode, a: TorrentResult, b: TorrentResult) -> bool {
    match mode {
        SortMode::Seeders => a.seeders > b.seeders,
        SortMode::Size => a.size > b.size,
        SortMode::Name => text_lt(a.title@, b.title@),
    }
}

/// No entry is preceded by one that ranks after it.
pub open spec fn is_sorted_by(mode: SortMode, s: Seq<TorrentResult>) -> bool {
    forall|i: int, j: int| 0 <= i < j < s.len() ==> !ranks_before(mode, s[j], s[i])
}

/// `r` holds the entries of `s` rearranged by `p` (`r[k]` is `s[p[k]]`), and
/// entries that rank equally keep their relative order from `s`.
pub open spec fn is_stable_arrangement(
    mode: SortMode,
    s: Seq<TorrentResult>,
    r: Seq<TorrentResult>,
    p: Seq<int>,
) -> bool {
    &&& r.len() == s.len()
    &&& p.len() == s.len()
    &&& forall|k: int| 0 <= k < r.len() ==> 0 <= #[trigger] p[k] < s.len() && r[k] == s[p[k]]
    &&& forall|k: int, l: int| 0 <= k < l < r.len() ==> p[k] != p[l]
    &&& forall|k: int, l: int|
        0 <= k < l < r.len() && !ranks_before(mode, r[k], r[l]) ==> p[k] < p[l]
}

/// `r` is `s` stably sorted under `mode`.
pub open spec fn is_stable_sort_of(mode: SortMode, s: Seq<TorrentResult>, r: Seq<TorrentResult>) -> bool {
    &&& is_sorted_by(mode, r)
    &&& exists|p: Seq<int>| is_stable_arrangement(mode, s, r, p)
}

/// The entries with at least `min` seeders, in the order given.
pub open spec fn with_min_seeders(s: Seq<TorrentResult>, min: u32) -> Seq<TorrentResult> {
    s.filter(seeded_enough(min))
}

/// The test that the minimum-seeders filter applies.
pub open spec fn seeded_enough(min: u32) -> spec_fn(TorrentResult) -> bool {
    |e: TorrentResult| e.seeders >= min
}

proof fn lemma_text_lt_irreflexive(a: Seq<char>)
    ensures
        !text_lt(a, a),
    decreases a.len(),
{
    if a.len() > 0 {
        lemma_text_lt_irreflexive(a.drop_first());
    }
}

proof fn lemma_text_lt_asymmetric(a: Seq<char>, b: Seq<char>)
    ensures
        text_lt(a, b) ==> !text_lt(b, a),
    decreases a.len(),
{
    if a.len() > 0 && b.len() > 0 && a[0] == b[0] {
        lemma_text_lt_asymmetric(a.drop_first(), b.drop_first());
    }
}

proof fn lemma_text_lt_transitive(a: Seq<char>, b: Seq<char>, c: Seq<char>)
    ensures
        text_lt(a, b) && text_lt(b, c) ==> text_lt(a, c),
    decreases a.len(),
{
    if a.len() > 0 && b.len() > 0 && c.len() > 0 && a[0] == b[0] && b[0] == c[0] {
        lemma_text_lt_transitive(a.drop_first(), b.drop_first(), c.drop_first());
    }
}

proof fn lemma_text_lt_total(a: Seq<char>, b: Seq<char>)
    ensures
        a != b ==> text_lt(a, b) || text_lt(b, a),
    decreases a.len(),
{
    if a.len() > 0 && b.len() > 0 && a[0] == b[0] {
        lemma_text_lt_total(a.drop_first(), b.drop_first());
        if a != b {
            assert(a =~= seq![a[0]] + a.drop_first());
            assert(b =~= seq![b[0]] + b.drop_first());
        }
    } else if a.len() == 0 && b.len() == 0 {
        assert(a =~= b);
    }
}

/// `ranks_before` is a strict weak order: asymmetric, transitive, and
/// ranking equally is transitive too.
proof fn lemma_ranks_before_order(mode: SortMode, a: TorrentResult, b: TorrentResult, c: TorrentResult)
    ensures
        ranks_before(mode, a, b) ==> !ranks_before(mode, b, a),
        ranks_before(mode, a, b) && ranks_before(mode, b, c) ==> ranks_before(mode, a, c),
        !ranks_before(mode, a, b) && !ranks_before(mode, b, c) ==> !ranks_before(mode, a, c),
{
    if mode == SortMode::Name {
        let (x, y, z) = (a.title@, b.title@, c.title@);
        lemma_text_lt_asymmetric(x, y);
        lemma_text_lt_transitive(x, y, z);
        lemma_text_lt_total(x, y);
        lemma_text_lt_total(y, z);
        lemma_text_lt_transitive(z, y, x);
        lemma_text_lt_asymmetric(z, x);
        lemma_text_lt_irreflexive(x);
    }
}

/// Whether `a` comes before `b` in text order.
pub fn title_less(a: &String, b: &String) -> (r: bool)
    ensures
        r == text_lt(a@, b@),
{
    let sa = a.as_str();
    let sb = b.as_str();
    let la = sa.unicode_len();
    let lb = sb.unicode_len();
    let mut i: usize = 0;
    assert(a@.skip(0) =~= a@ && b@.skip(0) =~= b@);
    while i < la && i < lb
        invariant
            la == a@.len(),
            lb == b@.len(),
            sa@ == a@,
            sb@ == b@,
            i <= la,
            i <= lb,
            text_lt(a@, b@) == text_lt(a@.skip(i as int), b@.skip(i as int)),
        decreases la - i,
    {
        let ca = sa.get_char(i);
        let cb = sb.get_char(i);
        if ca != cb {
            return ca < cb;
        }
        proof {
            let (x, y) = (a@.skip(i as int), b@.skip(i as int));
            assert(x[0] == ca && y[0] == cb);
            assert(x.drop_first() =~= a@.skip(i + 1));
            assert(y.drop_first() =~= b@.skip(i + 1));
        }
        i = i + 1;
    }
    la < lb
}

/// Whether `a` must be listed before `b` under `mode`.
pub fn ranks_before_exec(mode: SortMode, a: &TorrentResult, b: &TorrentResult) -> (r: bool)
    ensures
        r == ranks_before(mode, *a, *b),
{
    match mode {
        SortMode::Seeders => a.seeders > b.seeders,
        SortMode::Size => a.size > b.size,
        SortMode::Name => title_less(&a.title, &b.title),
    }
}

/// Keeps the entries with at least `min` seeders, in their order.
pub fn filter_min_seeders(results: Vec<TorrentResult>, min: u32) -> (r: Vec<TorrentResult>)
    ensures
        r@ == with_min_seeders(results@, min),
{
    let ghost orig = results@;
    let ghost keep = seeded_enough(min);
    let total = results.len();
    let mut rest = results;
    let mut out: Vec<TorrentResult> = Vec::new();
    let mut n: usize = 0;
    while rest.len() > 0
        invariant
            orig.len() == total,
            n <= orig.len(),
            rest@ == orig.skip(n as int),
            keep == seeded_enough(min),
            out@ == orig.take(n as int).filter(keep),
        decreases rest.len(),
    {
        let e = rest.remove(0);
        proof {
            assert(orig.take(n + 1) =~= orig.take(n as int).push(e));
            orig.take(n as int).lemma_filter_push(e, keep);
            assert(rest@ =~= orig.skip(n + 1));
            assert(keep(e) == (e.seeders >= min));
        }
        if e.seeders >= min {
            out.push(e);
        }
        assert(out@ == orig.take(n + 1).filter(keep));
        n = n + 1;
    }
    proof {
        assert(orig.take(n as int) =~= orig);
    }
    out
}

/// The first position in `sorted` whose entry `x` must precede, or its length.
fn insertion_point(sorted: &Vec<TorrentResult>, x: &TorrentResult, mode: SortMode) -> (pos: usize)
    ensures
        pos <= sorted.len(),
        forall|k: int| 0 <= k < pos ==> !ranks_before(mode, *x, #[trigger] sorted@[k]),
        pos < sorted.len() ==> ranks_before(mode, *x, sorted@[pos as int]),
{
    let mut i: usize = 0;
    while i < sorted.len()
        invariant
            i <= sorted.len(),
            forall|k: int| 0 <= k < i ==> !ranks_before(mode, *x, #[trigger] sorted@[k]),
        decreases sorted.len() - i,
    {
        if ranks_before_exec(mode, x, &sorted[i]) {
            return i;
        }
        i = i + 1;
    }
    i
}

/// Sorts stably under `mode`.
pub fn sort_results(results: Vec<TorrentResult>, mode: SortMode) -> (r: Vec<TorrentResult>)
    ensures
        is_stable_sort_of(mode, results@, r@),
{
    let ghost orig = results@;
    let ghost mut p: Seq<int> = Seq::empty();
    let total = results.len();
    let mut rest = results;
    let mut out: Vec<TorrentResult> = Vec::new();
    let mut n: usize = 0;
    while rest.len() > 0
        invariant
            orig.len() == total,
            n <= orig.len(),
            rest@ == orig.skip(n as int),
            is_sorted_by(mode, out@),
            is_stable_arrangement(mode, orig.take(n as int), out@, p),
        decreases rest.len(),
    {
        let x = rest.remove(0);
        let pos = insertion_point(&out, &x, mode);
        let ghost before = out@;
        let ghost old_p = p;
        out.insert(pos, x);
        proof {
            assert(rest@ =~= orig.skip(n + 1));
            p = old_p.insert(pos as int, n as int);
            let s = orig.take(n + 1);
            let r = out@;
            assert(r == before.insert(pos as int, x));
            assert forall|k: int| 0 <= k < r.len() implies 0 <= #[trigger] p[k] < s.len() && r[k] == s[p[k]] by {
                if k > pos {
                    assert(r[k] == before[k - 1] && p[k] == old_p[k - 1]);
                }
            }
            assert forall|i: int, j: int| 0 <= i < j < r.len() implies !ranks_before(mode, r[j], r[i]) by {
                if i < pos && j == pos {
                } else if i == pos && j > pos {
                    assert(ranks_before(mode, x, before[pos as int]));
                    lemma_ranks_before_order(mode, before[j - 1], x, before[pos as int]);
                    if j - 1 > pos {
                        assert(!ranks_before(mode, before[j - 1], before[pos as int]));
                    }
                } else if i < pos && j > pos {
                    assert(!ranks_before(mode, before[j - 1], before[i]));
                } else if i > pos {
                    assert(!ranks_before(mode, before[j - 1], before[i - 1]));
                } else {
                    assert(!ranks_before(mode, before[j], before[i]));
                }
            }
            assert forall|k: int, l: int| 0 <= k < l < r.len() implies p[k] != p[l] by {
                if k < pos && l > pos {
                    assert(old_p[l - 1] != old_p[k]);
                } else if k > pos {
                    assert(old_p[l - 1] != old_p[k - 1]);
                } else if k < pos && l < pos {
                    assert(old_p[l] != old_p[k]);
                }
            }
            assert forall|k: int, l: int|
                0 <= k < l < r.len() && !ranks_before(mode, r[k], r[l]) implies p[k] < p[l] by {
                if k == pos {
                    assert(ranks_before(mode, x, before[pos as int]));
                    if l - 1 > pos {
                        assert(!ranks_before(mode, before[l - 1], before[pos as int]));
                        lemma_ranks_before_order(mode, x, before[l - 1], before[pos as int]);
                    }
                } else if k < pos && l > pos {
                    assert(!ranks_before(mode, before[k], before[l - 1]));
                } else if k > pos {
                    assert(!ranks_before(mode, before[k - 1], before[l - 1]));
                } else if l < pos {
                    assert(!ranks_before(mode, before[k], before[l]));
                }
            }
        }
        n = n + 1;
    }
    proof {
        assert(orig.take(n as int) =~= orig);
    }
    out
}

/// What a search worker does with the provider's answer: drop entries under
/// the seeder threshold, then order the rest.
pub fn process_results(results: Vec<TorrentResult>, min_seeders: u32, mode: SortMode) -> (r: Vec<TorrentResult>)
    ensures
        is_stable_sort_of(mode, with_min_seeders(results@, min_seeders), r@),
{
    let kept = filter_min_seeders(results, min_seeders);
    sort_results(kept, mode)
}

} // verus!
