//! The order of the search result list: hits by score (lower first), then by
//! brightness (brighter first), then by label, and hits equal on all three in
//! the order they were found; the list is cut at the search limit.
//!
//! Brightness comes as a rank per hit, computed by the host from the
//! magnitudes (lower is brighter; equal magnitudes share a rank). A hit with
//! no rank counts as the faintest. Labels compare character by character,
//! which is the byte order of their UTF-8 text.
use vstd::prelude::*;

use crate::ranking::{hit_views, search_limit, SearchHit, SearchHitView, SEARCH_LIMIT_DEFAULT};
use crate::search::SearchId;
use crate::text::{chars_of, string_from_chars};

verus! {

/// `a` sorts before `b` character by character (a proper prefix first).
pub open spec fn chars_lt(a: Seq<char>, b: Seq<char>) -> bool
    decreases a.len(),
{
    if a.len() == 0 {
        b.len() > 0
    } else if b.len() == 0 {
        false
    } else if a[0] != b[0] {
        a[0] < b[0]
    } else {
        chars_lt(a.drop_first(), b.drop_first())
    }
}

proof fn lemma_chars_lt_trans(a: Seq<char>, b: Seq<char>, c: Seq<char>)
    requires
        chars_lt(a, b),
        chars_lt(b, c),
    ensures
        chars_lt(a, c),
    decreases a.len(),
{
    if a.len() > 0 && b.len() > 0 && c.len() > 0 && a[0] == b[0] && b[0] == c[0] {
        lemma_chars_lt_trans(a.drop_first(), b.drop_first(), c.drop_first());
    }
}

proof fn lemma_chars_lt_total(a: Seq<char>, b: Seq<char>)
    ensures
        a == b || chars_lt(a, b) || chars_lt(b, a),
        !(chars_lt(a, b) && chars_lt(b, a)),
    decreases a.len(),
{
    if a.len() > 0 && b.len() > 0 {
        if a[0] == b[0] {
            lemma_chars_lt_total(a.drop_first(), b.drop_first());
            if a.drop_first() == b.drop_first() {
                assert(a =~= seq![a[0]] + a.drop_first());
                assert(b =~= seq![b[0]] + b.drop_first());
            }
        }
    } else if a.len() == 0 && b.len() == 0 {
        assert(a =~= b);
    }
}

/// The brightness rank of hit `i`; a hit past the end of the ranks counts
/// as the faintest.
pub open spec fn rank_at(ranks: Seq<u32>, i: int) -> u32 {
    if 0 <= i < ranks.len() {
        ranks[i]
    } else {
        u32::MAX
    }
}

/// Hit `i` is listed before hit `j`: lower score, then lower brightness
/// rank, then smaller label, then found earlier.
pub open spec fn hit_before(h: Seq<SearchHitView>, ranks: Seq<u32>, i: int, j: int) -> bool {
    let (a, b) = (h[i], h[j]);
    let (ra, rb) = (rank_at(ranks, i), rank_at(ranks, j));
    ||| a.score < b.score
    ||| (a.score == b.score && ra < rb)
    ||| (a.score == b.score && ra == rb && chars_lt(a.display, b.display))
    ||| (a.score == b.score && ra == rb && a.display == b.display && i < j)
}

proof fn lemma_hit_before_total(h: Seq<SearchHitView>, ranks: Seq<u32>, i: int, j: int)
    requires
        i != j,
    ensures
        hit_before(h, ranks, i, j) || hit_before(h, ranks, j, i),
        !(hit_before(h, ranks, i, j) && hit_before(h, ranks, j, i)),
{
    lemma_chars_lt_total(h[i].display, h[j].display);
}

proof fn lemma_hit_before_irrefl(h: Seq<SearchHitView>, ranks: Seq<u32>, i: int)
    ensures
        !hit_before(h, ranks, i, i),
{
    lemma_chars_lt_total(h[i].display, h[i].display);
}

proof fn lemma_hit_before_trans(h: Seq<SearchHitView>, ranks: Seq<u32>, i: int, j: int, k: int)
    requires
        hit_before(h, ranks, i, j),
        hit_before(h, ranks, j, k),
    ensures
        hit_before(h, ranks, i, k),
{
    let (a, b, c) = (h[i].display, h[j].display, h[k].display);
    if chars_lt(a, b) && chars_lt(b, c) {
        lemma_chars_lt_trans(a, b, c);
    }
}

/// `r` lists each hit index of `h` once, in listing order.
pub open spec fn is_hit_order(h: Seq<SearchHitView>, ranks: Seq<u32>, r: Seq<usize>) -> bool {
    &&& forall|i: int| 0 <= i < r.len() ==> #[trigger] r[i] < h.len()
    &&& forall|k: usize| k < h.len() ==> #[trigger] r.contains(k)
    &&& forall|i: int, j: int|
        0 <= i < j < r.len() ==> hit_before(h, ranks, #[trigger] r[i] as int, #[trigger] r[j] as int)
}

/// Law: the listing order of a set of hits is determined by the hits and
/// their brightness ranks alone; two listings of the same hits are equal, so
/// the same search lists the same results in the same order.
pub proof fn lemma_hit_order_unique(h: Seq<SearchHitView>, ranks: Seq<u32>, r1: Seq<usize>, r2: Seq<usize>)
    requires
        is_hit_order(h, ranks, r1),
        is_hit_order(h, ranks, r2),
    ensures
        r1 == r2,
{
    lemma_order_unique_within(h, ranks, Set::new(|k: usize| k < h.len()), r1, r2);
}

proof fn lemma_order_unique_within(
    h: Seq<SearchHitView>,
    ranks: Seq<u32>,
    p: Set<usize>,
    r1: Seq<usize>,
    r2: Seq<usize>,
)
    requires
        forall|i: int| 0 <= i < r1.len() ==> #[trigger] p.contains(r1[i]),
        forall|i: int| 0 <= i < r2.len() ==> #[trigger] p.contains(r2[i]),
        forall|k: usize| #[trigger] p.contains(k) ==> r1.contains(k) && r2.contains(k),
        forall|i: int, j: int|
            0 <= i < j < r1.len() ==> hit_before(h, ranks, #[trigger] r1[i] as int, #[trigger] r1[j] as int),
        forall|i: int, j: int|
            0 <= i < j < r2.len() ==> hit_before(h, ranks, #[trigger] r2[i] as int, #[trigger] r2[j] as int),
    ensures
        r1 == r2,
    decreases r1.len(),
{
    if r1.len() == 0 {
        if r2.len() > 0 {
            assert(p.contains(r2[0]));
            assert(r1.contains(r2[0]));
        }
        assert(r1 =~= r2);
    } else {
        assert(p.contains(r1[0]));
        let b = choose|b: int| 0 <= b < r2.len() && r2[b] == r1[0];
        assert(p.contains(r2[0]));
        let a = choose|a: int| 0 <= a < r1.len() && r1[a] == r2[0];
        if a > 0 && b > 0 {
            assert(hit_before(h, ranks, r1[0] as int, r1[a] as int));
            assert(hit_before(h, ranks, r2[0] as int, r2[b] as int));
            if r1[0] != r2[0] {
                lemma_hit_before_total(h, ranks, r1[0] as int, r2[0] as int);
            } else {
                lemma_hit_before_irrefl(h, ranks, r1[0] as int);
            }
        } else if a > 0 {
            assert(hit_before(h, ranks, r1[0] as int, r1[a] as int));
            lemma_hit_before_irrefl(h, ranks, r1[0] as int);
        } else if b > 0 {
            assert(hit_before(h, ranks, r2[0] as int, r2[b] as int));
            lemma_hit_before_irrefl(h, ranks, r2[0] as int);
        }
        assert(r1[0] == r2[0]);
        let x = r1[0];
        let q = p.remove(x);
        let t1 = r1.drop_first();
        let t2 = r2.drop_first();
        assert forall|i: int| 0 <= i < t1.len() implies #[trigger] q.contains(t1[i]) by {
            assert(t1[i] == r1[i + 1]);
            assert(hit_before(h, ranks, r1[0] as int, r1[i + 1] as int));
            lemma_hit_before_irrefl(h, ranks, r1[0] as int);
            assert(p.contains(r1[i + 1]));
        }
        assert forall|i: int| 0 <= i < t2.len() implies #[trigger] q.contains(t2[i]) by {
            assert(t2[i] == r2[i + 1]);
            assert(hit_before(h, ranks, r2[0] as int, r2[i + 1] as int));
            lemma_hit_before_irrefl(h, ranks, r2[0] as int);
            assert(p.contains(r2[i + 1]));
        }
        assert forall|k: usize| #[trigger] q.contains(k) implies t1.contains(k) && t2.contains(k) by {
            assert(p.contains(k));
            let w1 = choose|w: int| 0 <= w < r1.len() && r1[w] == k;
            let w2 = choose|w: int| 0 <= w < r2.len() && r2[w] == k;
            assert(t1[w1 - 1] == k);
            assert(t2[w2 - 1] == k);
        }
        assert forall|i: int, j: int| 0 <= i < j < t1.len() implies hit_before(
            h,
            ranks,
            #[trigger] t1[i] as int,
            #[trigger] t1[j] as int,
        ) by {
            assert(t1[i] == r1[i + 1] && t1[j] == r1[j + 1]);
        }
        assert forall|i: int, j: int| 0 <= i < j < t2.len() implies hit_before(
            h,
            ranks,
            #[trigger] t2[i] as int,
            #[trigger] t2[j] as int,
        ) by {
            assert(t2[i] == r2[i + 1] && t2[j] == r2[j + 1]);
        }
        lemma_order_unique_within(h, ranks, q, t1, t2);
        assert(r1 =~= seq![x] + t1);
        assert(r2 =~= seq![x] + t2);
    }
}

fn chars_less(a: &[char], b: &[char]) -> (r: bool)
    ensures
        r == chars_lt(a@, b@),
{
    let mut i: usize = 0;
    assert(a@.skip(0) =~= a@ && b@.skip(0) =~= b@);
    while i < a.len() && i < b.len() && a[i] == b[i]
        invariant
            i <= a@.len(),
            i <= b@.len(),
            chars_lt(a@, b@) == chars_lt(a@.skip(i as int), b@.skip(i as int)),
        decreases a@.len() - i,
    {
        proof {
            let (sa, sb) = (a@.skip(i as int), b@.skip(i as int));
            assert(sa.drop_first() =~= a@.skip(i + 1));
            assert(sb.drop_first() =~= b@.skip(i + 1));
        }
        i += 1;
    }
    let ghost (sa, sb) = (a@.skip(i as int), b@.skip(i as int));
    if i == a.len() {
        assert(sa.len() == 0);
        i < b.len()
    } else if i == b.len() {
        false
    } else {
        assert(sa[0] == a@[i as int] && sb[0] == b@[i as int]);
        a[i] < b[i]
    }
}

fn rank_of(ranks: &[u32], i: usize) -> (r: u32)
    ensures
        r == rank_at(ranks@, i as int),
{
    if i < ranks.len() {
        ranks[i]
    } else {
        u32::MAX
    }
}

fn listed_before(hits: &[SearchHit], ranks: &[u32], i: usize, j: usize) -> (r: bool)
    requires
        i < hits@.len(),
        j < hits@.len(),
    ensures
        r == hit_before(hit_views(hits@), ranks@, i as int, j as int),
{
    let ghost h = hit_views(hits@);
    assert(h[i as int] == hits@[i as int]@ && h[j as int] == hits@[j as int]@);
    let (a, b) = (&hits[i], &hits[j]);
    let (ra, rb) = (rank_of(ranks, i), rank_of(ranks, j));
    if a.score != b.score {
        return a.score < b.score;
    }
    if ra != rb {
        return ra < rb;
    }
    let da = chars_of(a.display.as_str());
    let db = chars_of(b.display.as_str());
    if chars_less(&da, &db) {
        return true;
    }
    proof {
        lemma_chars_lt_total(da@, db@);
    }
    if chars_less(&db, &da) {
        return false;
    }
    i < j
}

/// The indices of `hits` in listing order: by score, then brightness rank
/// (`ranks[i]` for hit `i`), then label, then the order found.
pub fn hit_order(hits: &[SearchHit], ranks: &[u32]) -> (r: Vec<usize>)
    ensures
        is_hit_order(hit_views(hits@), ranks@, r@),
{
    let ghost h = hit_views(hits@);
    let mut out: Vec<usize> = Vec::new();
    let mut k: usize = 0;
    while k < hits.len()
        invariant
            k <= hits@.len(),
            h == hit_views(hits@),
            forall|i: int| 0 <= i < out@.len() ==> #[trigger] out@[i] < k,
            forall|j: usize| j < k ==> #[trigger] out@.contains(j),
            forall|i: int, j: int|
                0 <= i < j < out@.len() ==> hit_before(h, ranks@, #[trigger] out@[i] as int, #[trigger] out@[j] as int),
        decreases hits@.len() - k,
    {
        let mut p: usize = 0;
        while p < out.len() && !listed_before(hits, ranks, k, out[p])
            invariant
                p <= out@.len(),
                k < hits@.len(),
                h == hit_views(hits@),
                forall|i: int| 0 <= i < out@.len() ==> #[trigger] out@[i] < k,
                forall|i: int| 0 <= i < p ==> hit_before(h, ranks@, #[trigger] out@[i] as int, k as int),
            decreases out@.len() - p,
        {
            proof {
                lemma_hit_before_total(h, ranks@, k as int, out@[p as int] as int);
            }
            p += 1;
        }
        proof {
            if p < out@.len() {
                assert forall|i: int| p <= i < out@.len() implies hit_before(
                    h,
                    ranks@,
                    k as int,
                    #[trigger] out@[i] as int,
                ) by {
                    if i > p {
                        lemma_hit_before_trans(h, ranks@, k as int, out@[p as int] as int, out@[i] as int);
                    }
                }
            }
        }
        let ghost old_out = out@;
        out.insert(p, k);
        proof {
            let n = out@;
            assert(n == old_out.insert(p as int, k));
            assert forall|i: int| 0 <= i < n.len() implies #[trigger] n[i] < k + 1 by {
                if i < p {
                    assert(n[i] == old_out[i]);
                } else if i > p {
                    assert(n[i] == old_out[i - 1]);
                }
            }
            assert forall|j: usize| j < k + 1 implies #[trigger] n.contains(j) by {
                if j == k {
                    assert(n[p as int] == k);
                } else {
                    assert(old_out.contains(j));
                    let w = choose|w: int| 0 <= w < old_out.len() && old_out[w] == j;
                    if w < p {
                        assert(n[w] == old_out[w]);
                    } else {
                        assert(n[w + 1] == old_out[w]);
                    }
                }
            }
            assert forall|a: int, b: int| 0 <= a < b < n.len() implies hit_before(
                h,
                ranks@,
                #[trigger] n[a] as int,
                #[trigger] n[b] as int,
            ) by {
                if a < p && b < p {
                    assert(n[a] == old_out[a] && n[b] == old_out[b]);
                } else if a < p && b == p {
                    assert(n[a] == old_out[a]);
                } else if a < p && b > p {
                    assert(n[a] == old_out[a] && n[b] == old_out[b - 1]);
                    lemma_hit_before_trans(h, ranks@, old_out[a] as int, k as int, old_out[b - 1] as int);
                } else if a == p {
                    assert(n[b] == old_out[b - 1]);
                } else {
                    assert(n[a] == old_out[a - 1] && n[b] == old_out[b - 1]);
                }
            }
        }
        k += 1;
    }
    out
}

fn copy_search_id(id: &SearchId) -> (r: SearchId)
    ensures
        r@ == id@,
{
    match id {
        SearchId::NamedStar(i) => SearchId::NamedStar(*i),
        SearchId::Messier(n) => SearchId::Messier(*n),
        SearchId::Ngc(n) => SearchId::Ngc(*n),
        SearchId::Ic(n) => SearchId::Ic(*n),
        SearchId::SolarSystem(s) => SearchId::SolarSystem(*s),
    }
}

fn copy_hit(h: &SearchHit) -> (r: SearchHit)
    ensures
        r@ == h@,
{
    SearchHit {
        id: copy_search_id(&h.id),
        kind: h.kind,
        score: h.score,
        display: string_from_chars(&chars_of(h.display.as_str())),
        aka: string_from_chars(&chars_of(h.aka.as_str())),
        kind_hint: h.kind_hint,
        row: h.row,
    }
}

/// The result list of a search: the hits in listing order (see
/// [`hit_order`]), cut at `limit` (`0` meaning the default limit).
pub fn rank_hits(hits: &[SearchHit], ranks: &[u32], limit: usize) -> (r: Vec<SearchHit>)
    ensures
        r@.len() == vstd::math::min(
            (if limit == 0 {
                SEARCH_LIMIT_DEFAULT
            } else {
                limit
            }) as int,
            hits@.len() as int,
        ),
        exists|order: Seq<usize>|
            is_hit_order(hit_views(hits@), ranks@, order) && forall|i: int|
                0 <= i < r@.len() ==> (#[trigger] r@[i])@ == hit_views(hits@)[order[i] as int],
{
    let n = hits.len();
    let order = hit_order(hits, ranks);
    let cap = search_limit(limit);
    let ghost h = hit_views(hits@);
    proof {
        lemma_order_len(h, ranks@, order@);
    }
    let mut out: Vec<SearchHit> = Vec::new();
    let mut i: usize = 0;
    while i < order.len() && i < cap
        invariant
            i <= order@.len(),
            order@.len() == hits@.len(),
            h == hit_views(hits@),
            is_hit_order(h, ranks@, order@),
            out@.len() == i,
            i <= cap,
            cap == (if limit == 0 {
                SEARCH_LIMIT_DEFAULT
            } else {
                limit
            }),
            forall|a: int| 0 <= a < i ==> (#[trigger] out@[a])@ == h[order@[a] as int],
        decreases order@.len() - i,
    {
        let o = order[i];
        assert(h[o as int] == hits@[o as int]@);
        out.push(copy_hit(&hits[o]));
        i += 1;
    }
    out
}

proof fn lemma_order_len(h: Seq<SearchHitView>, ranks: Seq<u32>, r: Seq<usize>)
    requires
        is_hit_order(h, ranks, r),
        h.len() <= usize::MAX,
    ensures
        r.len() == h.len(),
{
    // Distinct entries below `h.len()`, and every such index present.
    let s = r.to_set();
    assert forall|i: int, j: int| 0 <= i < r.len() && 0 <= j < r.len() && i != j implies r[i] != r[j] by {
        lemma_hit_before_irrefl(h, ranks, r[i] as int);
        if i > j {
            assert(hit_before(h, ranks, r[j] as int, r[i] as int));
        }
    }
    r.unique_seq_to_set();
    assert(s =~= Set::new(|k: usize| k < h.len()));
    lemma_index_set_len(h.len());
}

proof fn lemma_index_set_len(n: nat)
    requires
        n <= usize::MAX,
    ensures
        Set::new(|k: usize| k < n).finite(),
        Set::new(|k: usize| k < n).len() == n,
    decreases n,
{
    if n == 0 {
        assert(Set::new(|k: usize| k < 0nat) =~= Set::<usize>::empty());
    } else {
        lemma_index_set_len((n - 1) as nat);
        let prev = Set::new(|k: usize| k < (n - 1) as nat);
        assert(Set::new(|k: usize| k < n) =~= prev.insert((n - 1) as usize));
    }
}

} // verus!
