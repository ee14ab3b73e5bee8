//! Free-text object search: normalising a query and ranking the candidate
//! identifiers of each object against it.
//!
//! A query and every candidate identifier are compared in normalised form:
//! lower-cased, with all whitespace removed. A candidate scores its *exact*
//! bucket when it equals the query, its *prefix* bucket when it starts with
//! the query, and (where the object family allows it) its *substring* bucket
//! when it contains the query; an object's score is the best (lowest) bucket
//! over its candidates, and objects without any match are not hits. Named
//! stars can also match token by token: every whitespace-separated token of
//! a query with at least two tokens occurring in the star's lower-cased
//! Bayer / Flamsteed / constellation string scores 3.
use vstd::prelude::*;

use crate::deepsky::DeepSkyId;
use crate::ingest::{ascii_lower, ascii_lower_char};
use crate::search::{SearchId, SearchIdView, SearchKind};
use crate::tables::{split_char, split_on};
use crate::text::{
    chars_eq, chars_of, dec, is_whitespace, is_ws, trim_end, trim_start, lines_of, parse_bounded, parse_unsigned_chars,
    push_chars, push_dec, push_str, split_lines, starts_with, string_from_chars, trim, trim_chars,
    trim_str,
};

verus! {

// ---------------------------------------------------------------------------
// Normalisation
// ---------------------------------------------------------------------------

/// What `str::to_lowercase` returns for a string: its lower-case mapping by
/// the Unicode `Lowercase` property.
pub uninterp spec fn unicode_lowercase(s: Seq<char>) -> Seq<char>;

/// True when every character of `s` is ASCII.
pub open spec fn is_ascii_text(s: Seq<char>) -> bool {
    forall|i: int| 0 <= i < s.len() ==> (#[trigger] s[i] as u32) < 128
}

/// The lower-case form of a query or a token: for ASCII text the ASCII
/// lower-case mapping, which is what the Unicode mapping does there.
pub open spec fn lower_spec(s: Seq<char>) -> Seq<char> {
    if is_ascii_text(s) {
        ascii_lower(s)
    } else {
        unicode_lowercase(s)
    }
}

/// `str::to_lowercase`: the Unicode lower-case mapping of `s`, which on
/// ASCII text maps `A`..`Z` to `a`..`z` and keeps every other character (the
/// Unicode `Lowercase` mapping of the ASCII range).
#[verifier::external_body]
fn to_lowercase(s: &str) -> (r: String)
    ensures
        r@ == unicode_lowercase(s@),
        is_ascii_text(s@) ==> r@ == ascii_lower(s@),
{
    s.to_lowercase()
}

/// `s` without its whitespace characters.
pub open spec fn strip_ws(s: Seq<char>) -> Seq<char>
    decreases s.len(),
{
    if s.len() == 0 {
        Seq::empty()
    } else if is_ws(s.last()) {
        strip_ws(s.drop_last())
    } else {
        strip_ws(s.drop_last()).push(s.last())
    }
}

/// Normalised form of an identifier or query: lower-cased, whitespace
/// removed.
pub open spec fn norm_spec(s: Seq<char>) -> Seq<char> {
    strip_ws(lower_spec(s))
}

fn strip_ws_exec(v: &[char]) -> (r: Vec<char>)
    ensures
        r@ == strip_ws(v@),
{
    let mut r: Vec<char> = Vec::new();
    let mut i: usize = 0;
    while i < v.len()
        invariant
            i <= v@.len(),
            r@ == strip_ws(v@.take(i as int)),
        decreases v@.len() - i,
    {
        proof {
            assert(v@.take(i + 1).drop_last() =~= v@.take(i as int));
        }
        if !is_whitespace(v[i]) {
            r.push(v[i]);
        }
        i += 1;
    }
    assert(v@.take(v@.len() as int) =~= v@);
    r
}

fn norm_chars(s: &str) -> (r: Vec<char>)
    ensures
        r@ == norm_spec(s@),
{
    let lower = to_lowercase(s);
    let v = chars_of(lower.as_str());
    strip_ws_exec(&v)
}

/// Normalises an identifier or query for comparison.
pub fn norm(s: &str) -> (r: String)
    ensures
        r@ == norm_spec(s@),
{
    let v = norm_chars(s);
    string_from_chars(&v)
}

/// Reading state of `split_whitespace`: the finished tokens and the one
/// being read.
pub open spec fn ws_split_state(s: Seq<char>) -> (Seq<Seq<char>>, Seq<char>)
    decreases s.len(),
{
    if s.len() == 0 {
        (Seq::empty(), Seq::empty())
    } else {
        let (done, cur) = ws_split_state(s.drop_last());
        if is_ws(s.last()) {
            if cur.len() > 0 {
                (done.push(cur), Seq::empty())
            } else {
                (done, cur)
            }
        } else {
            (done, cur.push(s.last()))
        }
    }
}

/// The maximal runs of non-whitespace characters of `s` (what
/// `str::split_whitespace` yields).
pub open spec fn ws_tokens(s: Seq<char>) -> Seq<Seq<char>> {
    let (done, cur) = ws_split_state(s);
    if cur.len() > 0 {
        done.push(cur)
    } else {
        done
    }
}

/// The lower-cased whitespace-separated tokens of a query.
pub open spec fn tokens_spec(s: Seq<char>) -> Seq<Seq<char>> {
    ws_tokens(s).map_values(|t: Seq<char>| lower_spec(t))
}

/// Splits a query into its lower-cased whitespace-separated tokens.
pub fn tokens(s: &str) -> (r: Vec<String>)
    ensures
        r@.len() == tokens_spec(s@).len(),
        forall|i: int| 0 <= i < r@.len() ==> #[trigger] r@[i]@ == tokens_spec(s@)[i],
{
    let v = chars_of(s);
    let mut done: Vec<Vec<char>> = Vec::new();
    let mut cur: Vec<char> = Vec::new();
    let mut i: usize = 0;
    while i < v.len()
        invariant
            i <= v@.len(),
            ws_split_state(v@.take(i as int)).1 == cur@,
            ws_split_state(v@.take(i as int)).0.len() == done@.len(),
            forall|k: int|
                0 <= k < done@.len() ==> #[trigger] done@[k]@ == ws_split_state(
                    v@.take(i as int),
                ).0[k],
        decreases v@.len() - i,
    {
        proof {
            assert(v@.take(i + 1).drop_last() =~= v@.take(i as int));
        }
        if is_whitespace(v[i]) {
            if cur.len() > 0 {
                let t = cur;
                done.push(t);
                cur = Vec::new();
            }
        } else {
            cur.push(v[i]);
        }
        i += 1;
    }
    proof {
        assert(v@.take(v@.len() as int) =~= v@);
    }
    if cur.len() > 0 {
        done.push(cur);
    }
    let ghost toks = ws_tokens(v@);
    assert(done@.len() == toks.len());
    let mut out: Vec<String> = Vec::new();
    let mut j: usize = 0;
    while j < done.len()
        invariant
            j <= done@.len(),
            done@.len() == toks.len(),
            toks == ws_tokens(s@),
            forall|k: int| 0 <= k < done@.len() ==> #[trigger] done@[k]@ == toks[k],
            out@.len() == j,
            forall|k: int|
                0 <= k < j ==> #[trigger] out@[k]@ == lower_spec(toks[k]),
        decreases done@.len() - j,
    {
        let t = string_from_chars(done[j].as_slice());
        out.push(to_lowercase(t.as_str()));
        j += 1;
    }
    out
}

// ---------------------------------------------------------------------------
// Buckets
// ---------------------------------------------------------------------------

/// True when `t` occurs in `s` as a contiguous run.
pub open spec fn contains_seq(s: Seq<char>, t: Seq<char>) -> bool {
    exists|i: int| 0 <= i && i + t.len() <= s.len() && #[trigger] s.subrange(i, i + t.len()) == t
}

/// True when `s` starts with `t`.
pub open spec fn has_prefix(s: Seq<char>, t: Seq<char>) -> bool {
    t.len() <= s.len() && s.take(t.len() as int) == t
}

/// The bucket a normalised candidate `n` falls in for the normalised query
/// `q`: `None` for an empty candidate or no match.
pub open spec fn bucket_spec(n: Seq<char>, q: Seq<char>, exact: u8, prefix: u8, within: Option<u8>) -> Option<
    u8,
> {
    if n.len() == 0 {
        None
    } else if n == q {
        Some(exact)
    } else if has_prefix(n, q) {
        Some(prefix)
    } else if within is Some && contains_seq(n, q) {
        within
    } else {
        None
    }
}

/// The better (lower) of two optional scores.
pub open spec fn best_spec(a: Option<u8>, b: Option<u8>) -> Option<u8> {
    match b {
        None => a,
        Some(y) => match a {
            None => Some(y),
            Some(x) => Some(if x <= y {
                x
            } else {
                y
            }),
        },
    }
}

fn best(a: Option<u8>, b: Option<u8>) -> (r: Option<u8>)
    ensures
        r == best_spec(a, b),
{
    match b {
        None => a,
        Some(y) => match a {
            None => Some(y),
            Some(x) => Some(if x <= y {
                x
            } else {
                y
            }),
        },
    }
}

fn contains_chars(s: &[char], t: &[char]) -> (r: bool)
    ensures
        r == contains_seq(s@, t@),
{
    if t.len() > s.len() {
        proof {
            assert forall|i: int| 0 <= i && i + t@.len() <= s@.len() implies #[trigger] s@.subrange(
                i,
                i + t@.len(),
            ) != t@ by {}
        }
        return false;
    }
    let last = s.len() - t.len();
    let mut i: usize = 0;
    loop
        invariant
            last == s@.len() - t@.len(),
            s@.len() <= usize::MAX,
            i <= last,
            forall|j: int| 0 <= j < i ==> #[trigger] s@.subrange(j, j + t@.len()) != t@,
        decreases last - i,
    {
        let mut k: usize = 0;
        let mut same = true;
        while k < t.len()
            invariant
                k <= t@.len(),
                i <= last,
                last == s@.len() - t@.len(),
                s@.len() <= usize::MAX,
                same <==> forall|m: int| 0 <= m < k ==> s@[i + m] == #[trigger] t@[m],
            decreases t@.len() - k,
        {
            if s[i + k] != t[k] {
                same = false;
            }
            k += 1;
        }
        if same {
            assert(s@.subrange(i as int, i + t@.len()) =~= t@);
            return true;
        }
        proof {
            let m = choose|m: int| 0 <= m < t@.len() && s@[i + m] != #[trigger] t@[m];
            assert(s@.subrange(i as int, i + t@.len())[m] != t@[m]);
        }
        if i == last {
            return false;
        }
        i += 1;
    }
}

fn bucket(n: &[char], q: &[char], exact: u8, prefix: u8, within: Option<u8>) -> (r: Option<u8>)
    ensures
        r == bucket_spec(n@, q@, exact, prefix, within),
{
    if n.len() == 0 {
        None
    } else if chars_eq(n, q) {
        Some(exact)
    } else if starts_with(n, q) {
        Some(prefix)
    } else {
        match within {
            Some(w) => if contains_chars(n, q) {
                Some(w)
            } else {
                None
            },
            None => None,
        }
    }
}

/// The bucket of the candidate text `candidate` for a normalised query.
fn candidate_bucket(candidate: &[char], q: &[char], exact: u8, prefix: u8, within: Option<u8>) -> (r:
    Option<u8>)
    ensures
        r == bucket_spec(norm_spec(candidate@), q@, exact, prefix, within),
{
    let s = string_from_chars(candidate);
    let n = norm_chars(s.as_str());
    bucket(&n, q, exact, prefix, within)
}

// ---------------------------------------------------------------------------
// Hits
// ---------------------------------------------------------------------------

/// Upper bound on the number of hits a search returns when the caller asks
/// for `0`.
pub const SEARCH_LIMIT_DEFAULT: usize = 12;

/// The number of hits a search keeps: `limit`, or the default for `0`.
pub fn search_limit(limit: usize) -> (r: usize)
    ensures
        r == (if limit == 0 {
            SEARCH_LIMIT_DEFAULT
        } else {
            limit
        }),
{
    if limit == 0 {
        SEARCH_LIMIT_DEFAULT
    } else {
        limit
    }
}

/// One search hit, before the host attaches a position and a magnitude.
#[derive(Debug, Clone, PartialEq, Eq)]
pub struct SearchHit {
    pub id: SearchId,
    pub kind: SearchKind,
    /// Lower is better; `0` is an exact identifier match.
    pub score: u8,
    /// Label for the result list.
    pub display: String,
    /// Secondary identifiers shown under the label.
    pub aka: String,
    /// Canonical body key, for solar-system hits.
    pub kind_hint: Option<&'static str>,
    /// Index of the object in the list it was found in.
    pub row: usize,
}

/// A [`SearchHit`] as plain values.
pub ghost struct SearchHitView {
    pub id: SearchIdView,
    pub kind: SearchKind,
    pub score: u8,
    pub display: Seq<char>,
    pub aka: Seq<char>,
    pub kind_hint: Option<Seq<char>>,
    pub row: int,
}

/// The characters of an optional string.
pub open spec fn opt_chars(o: Option<&'static str>) -> Option<Seq<char>> {
    match o {
        Some(s) => Some(s@),
        None => None,
    }
}

impl View for SearchHit {
    type V = SearchHitView;

    open spec fn view(&self) -> SearchHitView {
        SearchHitView {
            id: self.id@,
            kind: self.kind,
            score: self.score,
            display: self.display@,
            aka: self.aka@,
            kind_hint: opt_chars(self.kind_hint),
            row: self.row as int,
        }
    }
}

/// A solar-system body row: its canonical key, the names it is found by,
/// and its English and Japanese display names.
#[derive(Debug, Clone, PartialEq, Eq)]
pub struct SolarSystemBody {
    pub canonical: &'static str,
    pub aliases: Vec<&'static str>,
    pub display_en: &'static str,
    pub display_ja: &'static str,
}

/// A [`SolarSystemBody`] as plain values.
pub ghost struct SolarSystemBodyView {
    pub canonical: Seq<char>,
    pub aliases: Seq<Seq<char>>,
    pub display_en: Seq<char>,
    pub display_ja: Seq<char>,
}

impl View for SolarSystemBody {
    type V = SolarSystemBodyView;

    open spec fn view(&self) -> SolarSystemBodyView {
        SolarSystemBodyView {
            canonical: self.canonical@,
            aliases: self.aliases@.map_values(|a: &'static str| a@),
            display_en: self.display_en@,
            display_ja: self.display_ja@,
        }
    }
}

/// Best bucket over a list of candidate names, with the buckets 0 / 1 / 2.
pub open spec fn names_score(names: Seq<Seq<char>>, q: Seq<char>) -> Option<u8>
    decreases names.len(),
{
    if names.len() == 0 {
        None
    } else {
        best_spec(
            names_score(names.drop_last(), q),
            bucket_spec(norm_spec(names.last()), q, 0, 1, Some(2)),
        )
    }
}

impl SolarSystemBody {
    /// Score of the body: the best bucket over its aliases and its English
    /// name.
    pub open spec fn score_spec(&self, q: Seq<char>) -> Option<u8> {
        names_score(self@.aliases.push(self@.display_en), q)
    }

    /// Scores the body against a normalised query.
    pub fn score(&self, q_norm: &str) -> (r: Option<u8>)
        ensures
            r == self.score_spec(q_norm@),
    {
        let q = chars_of(q_norm);
        let ghost names = self@.aliases.push(self@.display_en);
        let mut s: Option<u8> = None;
        let mut i: usize = 0;
        while i < self.aliases.len()
            invariant
                i <= self.aliases@.len(),
                names == self@.aliases.push(self@.display_en),
                q@ == q_norm@,
                s == names_score(names.take(i as int), q@),
            decreases self.aliases@.len() - i,
        {
            proof {
                assert(names.take(i + 1).drop_last() =~= names.take(i as int));
                assert(names.take(i + 1).last() == self.aliases@[i as int]@);
            }
            let a = chars_of(self.aliases[i]);
            s = best(s, candidate_bucket(&a, &q, 0, 1, Some(2)));
            i += 1;
        }
        proof {
            assert(names.take(i + 1).drop_last() =~= names.take(i as int));
            assert(names.take(i + 1) =~= names);
        }
        let e = chars_of(self.display_en);
        best(s, candidate_bucket(&e, &q, 0, 1, Some(2)))
    }

    /// The hit for this body with the given score.
    pub open spec fn hit_spec(&self, score: u8, row: int) -> SearchHitView {
        SearchHitView {
            id: SearchIdView::SolarSystem(self@.canonical),
            kind: SearchKind::SolarSystem,
            score,
            display: self@.display_en,
            aka: "solar system · "@ + self@.display_ja,
            kind_hint: Some(self@.canonical),
            row,
        }
    }
}

/// The characters of an optional owned string.
pub open spec fn opt_string(o: Option<String>) -> Option<Seq<char>> {
    match o {
        Some(s) => Some(s@),
        None => None,
    }
}

/// The name columns of one row of the named-stars table.
#[derive(Debug, Clone, PartialEq, Eq)]
pub struct StarNames {
    /// Row index in the table; the star's [`SearchId::NamedStar`] value.
    pub index: u32,
    pub proper: Option<String>,
    pub bayer: Option<String>,
    pub flam: Option<String>,
    pub hr: Option<u32>,
    pub hd: Option<u32>,
    pub hip: Option<u32>,
    pub constellation: Option<String>,
}

/// `a`, a space and `b`.
pub open spec fn spaced(a: Seq<char>, b: Seq<char>) -> Seq<char> {
    a + " "@ + b
}

/// The parts of `parts` separated by `" · "`.
pub open spec fn join_dot(parts: Seq<Seq<char>>) -> Seq<char>
    decreases parts.len(),
{
    if parts.len() == 0 {
        Seq::empty()
    } else if parts.len() == 1 {
        parts[0]
    } else {
        join_dot(parts.drop_last()) + " · "@ + parts.last()
    }
}

/// `parts`, with `p` appended when `c` holds.
pub open spec fn push_if(parts: Seq<Seq<char>>, c: bool, p: Seq<char>) -> Seq<Seq<char>> {
    if c {
        parts.push(p)
    } else {
        parts
    }
}

/// The best bucket of `n` and of `n` with a space, as `HR` / `HD` / `HIP`
/// identifiers are written both ways.
pub open spec fn catalogue_number_score(prev: Option<u8>, family: Seq<char>, n: u32, q: Seq<char>) -> Option<
    u8,
> {
    best_spec(
        best_spec(prev, bucket_spec(norm_spec(family + dec(n as nat)), q, 0, 1, Some(2))),
        bucket_spec(norm_spec(spaced(family, dec(n as nat))), q, 0, 1, Some(2)),
    )
}

impl StarNames {
    /// Label of the star: proper name, then Bayer or Flamsteed designation
    /// with constellation, then `HR`, `HD` or `HIP` number, then its row.
    pub open spec fn display_spec(&self) -> Seq<char> {
        if self.proper is Some {
            self.proper->0@
        } else if self.bayer is Some && self.constellation is Some {
            spaced(self.bayer->0@, self.constellation->0@)
        } else if self.flam is Some && self.constellation is Some {
            spaced(self.flam->0@, self.constellation->0@)
        } else if self.hr is Some {
            "HR "@ + dec(self.hr->0 as nat)
        } else if self.hd is Some {
            "HD "@ + dec(self.hd->0 as nat)
        } else if self.hip is Some {
            "HIP "@ + dec(self.hip->0 as nat)
        } else {
            "Star #"@ + dec(self.index as nat)
        }
    }

    /// The secondary designations of the star, in the order Bayer,
    /// Flamsteed, HR, HD, HIP.
    pub open spec fn aka_parts(&self) -> Seq<Seq<char>> {
        let with_con = self.constellation is Some;
        let p0 = push_if(
            Seq::empty(),
            self.bayer is Some && with_con,
            spaced(self.bayer->0@, self.constellation->0@),
        );
        let p1 = push_if(
            p0,
            self.flam is Some && with_con,
            spaced(self.flam->0@, self.constellation->0@),
        );
        let p2 = push_if(p1, self.hr is Some, "HR "@ + dec(self.hr->0 as nat));
        let p3 = push_if(p2, self.hd is Some, "HD "@ + dec(self.hd->0 as nat));
        push_if(p3, self.hip is Some, "HIP "@ + dec(self.hip->0 as nat))
    }

    /// The lower-cased Bayer, Flamsteed and constellation names the query
    /// tokens are looked up in.
    pub open spec fn token_text(&self) -> Seq<char> {
        let b = if self.bayer is Some {
            unicode_lowercase(self.bayer->0@) + " "@
        } else {
            Seq::empty()
        };
        let f = if self.flam is Some {
            unicode_lowercase(self.flam->0@) + " "@
        } else {
            Seq::empty()
        };
        let c = if self.constellation is Some {
            unicode_lowercase(self.constellation->0@)
        } else {
            Seq::empty()
        };
        b + f + c
    }

    /// Score of the star against a normalised query and its tokens.
    pub open spec fn score_spec(&self, q: Seq<char>, toks: Seq<Seq<char>>) -> Option<u8> {
        let with_con = self.constellation is Some;
        let s1 = if self.proper is Some {
            bucket_spec(norm_spec(self.proper->0@), q, 0, 1, Some(2))
        } else {
            None
        };
        let s2 = if self.bayer is Some && with_con {
            best_spec(
                best_spec(
                    s1,
                    bucket_spec(
                        norm_spec(spaced(self.bayer->0@, self.constellation->0@)),
                        q,
                        0,
                        1,
                        Some(2),
                    ),
                ),
                bucket_spec(norm_spec(self.bayer->0@), q, 1, 2, Some(3)),
            )
        } else {
            s1
        };
        let s3 = if self.flam is Some && with_con {
            best_spec(
                s2,
                bucket_spec(
                    norm_spec(spaced(self.flam->0@, self.constellation->0@)),
                    q,
                    0,
                    1,
                    Some(2),
                ),
            )
        } else {
            s2
        };
        let s4 = if self.hr is Some {
            catalogue_number_score(s3, "HR"@, self.hr->0, q)
        } else {
            s3
        };
        let s5 = if self.hd is Some {
            catalogue_number_score(s4, "HD"@, self.hd->0, q)
        } else {
            s4
        };
        let s6 = if self.hip is Some {
            catalogue_number_score(s5, "HIP"@, self.hip->0, q)
        } else {
            s5
        };
        let joined = self.token_text();
        if toks.len() >= 2 && joined.len() > 0 && forall|i: int|
            0 <= i < toks.len() ==> contains_seq(joined, #[trigger] toks[i]) {
            best_spec(s6, Some(3))
        } else {
            s6
        }
    }

    /// The hit for this star with the given score.
    pub open spec fn hit_spec(&self, score: u8, row: int) -> SearchHitView {
        SearchHitView {
            id: SearchIdView::NamedStar(self.index),
            kind: SearchKind::Star,
            score,
            display: self.display_spec(),
            aka: join_dot(self.aka_parts()),
            kind_hint: None,
            row,
        }
    }
}

/// Popular name of Messier object `n`, for the best-known objects.
pub open spec fn messier_nickname_spec(n: u16) -> Option<Seq<char>> {
    if n == 1 {
        Some("Crab Nebula"@)
    } else if n == 8 {
        Some("Lagoon Nebula"@)
    } else if n == 13 {
        Some("Hercules Cluster"@)
    } else if n == 16 {
        Some("Eagle Nebula"@)
    } else if n == 17 {
        Some("Omega Nebula"@)
    } else if n == 20 {
        Some("Trifid Nebula"@)
    } else if n == 27 {
        Some("Dumbbell Nebula"@)
    } else if n == 31 {
        Some("Andromeda Galaxy"@)
    } else if n == 33 {
        Some("Triangulum Galaxy"@)
    } else if n == 42 {
        Some("Orion Nebula"@)
    } else if n == 44 {
        Some("Beehive Cluster"@)
    } else if n == 45 {
        Some("Pleiades"@)
    } else if n == 51 {
        Some("Whirlpool Galaxy"@)
    } else if n == 57 {
        Some("Ring Nebula"@)
    } else if n == 64 {
        Some("Black Eye Galaxy"@)
    } else if n == 81 {
        Some("Bode's Galaxy"@)
    } else if n == 82 {
        Some("Cigar Galaxy"@)
    } else if n == 97 {
        Some("Owl Nebula"@)
    } else if n == 101 {
        Some("Pinwheel Galaxy"@)
    } else if n == 104 {
        Some("Sombrero Galaxy"@)
    } else {
        None
    }
}

/// Popular name of Messier object `n`, for the best-known objects.
pub fn messier_nickname(n: u16) -> (r: Option<&'static str>)
    ensures
        match messier_nickname_spec(n) {
            Some(s) => r is Some && r->0@ == s,
            None => r is None,
        },
{
    if n == 1 {
        Some("Crab Nebula")
    } else if n == 8 {
        Some("Lagoon Nebula")
    } else if n == 13 {
        Some("Hercules Cluster")
    } else if n == 16 {
        Some("Eagle Nebula")
    } else if n == 17 {
        Some("Omega Nebula")
    } else if n == 20 {
        Some("Trifid Nebula")
    } else if n == 27 {
        Some("Dumbbell Nebula")
    } else if n == 31 {
        Some("Andromeda Galaxy")
    } else if n == 33 {
        Some("Triangulum Galaxy")
    } else if n == 42 {
        Some("Orion Nebula")
    } else if n == 44 {
        Some("Beehive Cluster")
    } else if n == 45 {
        Some("Pleiades")
    } else if n == 51 {
        Some("Whirlpool Galaxy")
    } else if n == 57 {
        Some("Ring Nebula")
    } else if n == 64 {
        Some("Black Eye Galaxy")
    } else if n == 81 {
        Some("Bode's Galaxy")
    } else if n == 82 {
        Some("Cigar Galaxy")
    } else if n == 97 {
        Some("Owl Nebula")
    } else if n == 101 {
        Some("Pinwheel Galaxy")
    } else if n == 104 {
        Some("Sombrero Galaxy")
    } else {
        None
    }
}

/// Popular name of NGC object `n`, for the best-known objects.
pub open spec fn ngc_nickname_spec(n: u16) -> Option<Seq<char>> {
    if n == 224 {
        Some("Andromeda Galaxy"@)
    } else if n == 598 {
        Some("Triangulum Galaxy"@)
    } else if n == 869 {
        Some("Double Cluster (h Persei)"@)
    } else if n == 884 {
        Some("Double Cluster (χ Persei)"@)
    } else if n == 1976 {
        Some("Orion Nebula"@)
    } else if n == 1952 {
        Some("Crab Nebula"@)
    } else if n == 2244 {
        Some("Rosette Nebula"@)
    } else if n == 2683 {
        Some("UFO Galaxy"@)
    } else if n == 2632 {
        Some("Beehive Cluster"@)
    } else if n == 3372 {
        Some("Carina Nebula"@)
    } else if n == 5128 {
        Some("Centaurus A"@)
    } else if n == 5139 {
        Some("Omega Centauri"@)
    } else if n == 5194 {
        Some("Whirlpool Galaxy"@)
    } else if n == 6611 {
        Some("Eagle Nebula"@)
    } else if n == 6720 {
        Some("Ring Nebula"@)
    } else if n == 6853 {
        Some("Dumbbell Nebula"@)
    } else if n == 6960 {
        Some("Veil Nebula (Western)"@)
    } else if n == 6992 {
        Some("Veil Nebula (Eastern)"@)
    } else if n == 7000 {
        Some("North America Nebula"@)
    } else {
        None
    }
}

/// Popular name of NGC object `n`, for the best-known objects.
pub fn ngc_nickname(n: u16) -> (r: Option<&'static str>)
    ensures
        match ngc_nickname_spec(n) {
            Some(s) => r is Some && r->0@ == s,
            None => r is None,
        },
{
    if n == 224 {
        Some("Andromeda Galaxy")
    } else if n == 598 {
        Some("Triangulum Galaxy")
    } else if n == 869 {
        Some("Double Cluster (h Persei)")
    } else if n == 884 {
        Some("Double Cluster (χ Persei)")
    } else if n == 1976 {
        Some("Orion Nebula")
    } else if n == 1952 {
        Some("Crab Nebula")
    } else if n == 2244 {
        Some("Rosette Nebula")
    } else if n == 2683 {
        Some("UFO Galaxy")
    } else if n == 2632 {
        Some("Beehive Cluster")
    } else if n == 3372 {
        Some("Carina Nebula")
    } else if n == 5128 {
        Some("Centaurus A")
    } else if n == 5139 {
        Some("Omega Centauri")
    } else if n == 5194 {
        Some("Whirlpool Galaxy")
    } else if n == 6611 {
        Some("Eagle Nebula")
    } else if n == 6720 {
        Some("Ring Nebula")
    } else if n == 6853 {
        Some("Dumbbell Nebula")
    } else if n == 6960 {
        Some("Veil Nebula (Western)")
    } else if n == 6992 {
        Some("Veil Nebula (Eastern)")
    } else if n == 7000 {
        Some("North America Nebula")
    } else {
        None
    }
}

/// The solar-system bodies the search knows, in listing order.
pub open spec fn solar_system_bodies_spec() -> Seq<SolarSystemBodyView> {
    seq![
        SolarSystemBodyView {
            canonical: "sun"@,
            aliases: seq!["sun"@, "sol"@, "soleil"@, "太陽"@, "ひ"@, "sunday"@],
            display_en: "Sun"@,
            display_ja: "太陽"@,
        },
        SolarSystemBodyView {
            canonical: "moon"@,
            aliases: seq!["moon"@, "luna"@, "月"@, "つき"@],
            display_en: "Moon"@,
            display_ja: "月"@,
        },
        SolarSystemBodyView {
            canonical: "mercury"@,
            aliases: seq!["mercury"@, "水星"@, "すいせい"@],
            display_en: "Mercury"@,
            display_ja: "水星"@,
        },
        SolarSystemBodyView {
            canonical: "venus"@,
            aliases: seq!["venus"@, "金星"@, "きんせい"@],
            display_en: "Venus"@,
            display_ja: "金星"@,
        },
        SolarSystemBodyView {
            canonical: "mars"@,
            aliases: seq!["mars"@, "火星"@, "かせい"@],
            display_en: "Mars"@,
            display_ja: "火星"@,
        },
        SolarSystemBodyView {
            canonical: "jupiter"@,
            aliases: seq!["jupiter"@, "木星"@, "もくせい"@],
            display_en: "Jupiter"@,
            display_ja: "木星"@,
        },
        SolarSystemBodyView {
            canonical: "saturn"@,
            aliases: seq!["saturn"@, "土星"@, "どせい"@],
            display_en: "Saturn"@,
            display_ja: "土星"@,
        },
        SolarSystemBodyView {
            canonical: "uranus"@,
            aliases: seq!["uranus"@, "天王星"@, "てんのうせい"@],
            display_en: "Uranus"@,
            display_ja: "天王星"@,
        },
        SolarSystemBodyView {
            canonical: "neptune"@,
            aliases: seq!["neptune"@, "海王星"@, "かいおうせい"@],
            display_en: "Neptune"@,
            display_ja: "海王星"@,
        },
    ]
}

/// The solar-system bodies the search knows, in listing order.
pub fn solar_system_bodies() -> (r: Vec<SolarSystemBody>)
    ensures
        r@.len() == solar_system_bodies_spec().len(),
        forall|i: int| 0 <= i < r@.len() ==> #[trigger] r@[i].view() == solar_system_bodies_spec()[i],
{
    let mut r: Vec<SolarSystemBody> = Vec::new();
    r.push(
        SolarSystemBody {
            canonical: "sun",
            aliases: vec!["sun", "sol", "soleil", "太陽", "ひ", "sunday"],
            display_en: "Sun",
            display_ja: "太陽",
        },
    );
    r.push(
        SolarSystemBody {
            canonical: "moon",
            aliases: vec!["moon", "luna", "月", "つき"],
            display_en: "Moon",
            display_ja: "月",
        },
    );
    r.push(
        SolarSystemBody {
            canonical: "mercury",
            aliases: vec!["mercury", "水星", "すいせい"],
            display_en: "Mercury",
            display_ja: "水星",
        },
    );
    r.push(
        SolarSystemBody {
            canonical: "venus",
            aliases: vec!["venus", "金星", "きんせい"],
            display_en: "Venus",
            display_ja: "金星",
        },
    );
    r.push(
        SolarSystemBody {
            canonical: "mars",
            aliases: vec!["mars", "火星", "かせい"],
            display_en: "Mars",
            display_ja: "火星",
        },
    );
    r.push(
        SolarSystemBody {
            canonical: "jupiter",
            aliases: vec!["jupiter", "木星", "もくせい"],
            display_en: "Jupiter",
            display_ja: "木星",
        },
    );
    r.push(
        SolarSystemBody {
            canonical: "saturn",
            aliases: vec!["saturn", "土星", "どせい"],
            display_en: "Saturn",
            display_ja: "土星",
        },
    );
    r.push(
        SolarSystemBody {
            canonical: "uranus",
            aliases: vec!["uranus", "天王星", "てんのうせい"],
            display_en: "Uranus",
            display_ja: "天王星",
        },
    );
    r.push(
        SolarSystemBody {
            canonical: "neptune",
            aliases: vec!["neptune", "海王星", "かいおうせい"],
            display_en: "Neptune",
            display_ja: "海王星",
        },
    );
    assert(r@[0]@.aliases =~= solar_system_bodies_spec()[0].aliases);
    assert(r@[0]@ == solar_system_bodies_spec()[0]);
    assert(r@[1]@.aliases =~= solar_system_bodies_spec()[1].aliases);
    assert(r@[1]@ == solar_system_bodies_spec()[1]);
    assert(r@[2]@.aliases =~= solar_system_bodies_spec()[2].aliases);
    assert(r@[2]@ == solar_system_bodies_spec()[2]);
    assert(r@[3]@.aliases =~= solar_system_bodies_spec()[3].aliases);
    assert(r@[3]@ == solar_system_bodies_spec()[3]);
    assert(r@[4]@.aliases =~= solar_system_bodies_spec()[4].aliases);
    assert(r@[4]@ == solar_system_bodies_spec()[4]);
    assert(r@[5]@.aliases =~= solar_system_bodies_spec()[5].aliases);
    assert(r@[5]@ == solar_system_bodies_spec()[5]);
    assert(r@[6]@.aliases =~= solar_system_bodies_spec()[6].aliases);
    assert(r@[6]@ == solar_system_bodies_spec()[6]);
    assert(r@[7]@.aliases =~= solar_system_bodies_spec()[7].aliases);
    assert(r@[7]@ == solar_system_bodies_spec()[7]);
    assert(r@[8]@.aliases =~= solar_system_bodies_spec()[8].aliases);
    assert(r@[8]@ == solar_system_bodies_spec()[8]);
    r
}


// ---------------------------------------------------------------------------
// Deep-sky candidates
// ---------------------------------------------------------------------------

/// Score of Messier object `n`: its label `M<n>`, `messier <n>` and its
/// popular name, with the buckets 0 / 1 / 2.
pub open spec fn messier_score_spec(n: u16, q: Seq<char>) -> Option<u8> {
    let s = best_spec(
        bucket_spec(norm_spec("M"@ + dec(n as nat)), q, 0, 1, Some(2)),
        bucket_spec(norm_spec("messier "@ + dec(n as nat)), q, 0, 1, Some(2)),
    );
    match messier_nickname_spec(n) {
        Some(nk) => best_spec(s, bucket_spec(norm_spec(nk), q, 0, 1, Some(2))),
        None => s,
    }
}

/// The hit for Messier object `n` with the given score.
pub open spec fn messier_hit_spec(n: u16, score: u8, row: int) -> SearchHitView {
    SearchHitView {
        id: SearchIdView::Messier(n),
        kind: SearchKind::Messier,
        score,
        display: match messier_nickname_spec(n) {
            Some(nk) => nk,
            None => "M"@ + dec(n as nat),
        },
        aka: match messier_nickname_spec(n) {
            Some(nk) => "Messier "@ + dec(n as nat) + " · "@ + nk,
            None => "Messier "@ + dec(n as nat),
        },
        kind_hint: None,
        row,
    }
}

/// Catalogue prefix of a bright NGC / IC object.
pub open spec fn family_prefix(id: DeepSkyId) -> Seq<char> {
    match id {
        DeepSkyId::Ic(_) => "IC"@,
        _ => "NGC"@,
    }
}

/// Number of a deep-sky identifier.
pub open spec fn deep_sky_number(id: DeepSkyId) -> u16 {
    match id {
        DeepSkyId::Messier(n) => n,
        DeepSkyId::Ngc(n) => n,
        DeepSkyId::Ic(n) => n,
    }
}

/// Popular name of a bright NGC / IC object (only NGC objects have one).
pub open spec fn bright_nickname_spec(id: DeepSkyId) -> Option<Seq<char>> {
    match id {
        DeepSkyId::Ngc(n) => ngc_nickname_spec(n),
        _ => None,
    }
}

/// Score of a bright NGC / IC object: its label with and without a space
/// (buckets 0 / 1) and its popular name (buckets 1 / 2); no substring tier.
pub open spec fn bright_score_spec(id: DeepSkyId, q: Seq<char>) -> Option<u8> {
    let p = family_prefix(id);
    let n = deep_sky_number(id) as nat;
    let s = best_spec(
        bucket_spec(norm_spec(p + dec(n)), q, 0, 1, None),
        bucket_spec(norm_spec(spaced(p, dec(n))), q, 0, 1, None),
    );
    match bright_nickname_spec(id) {
        Some(nk) => best_spec(s, bucket_spec(norm_spec(nk), q, 1, 2, None)),
        None => s,
    }
}

/// The hit for a bright NGC / IC object with the given score.
pub open spec fn bright_hit_spec(id: DeepSkyId, score: u8, row: int) -> SearchHitView {
    let p = family_prefix(id);
    let n = deep_sky_number(id);
    SearchHitView {
        id: match id {
            DeepSkyId::Ic(k) => SearchIdView::Ic(k),
            _ => SearchIdView::Ngc(n),
        },
        kind: match id {
            DeepSkyId::Ic(_) => SearchKind::Ic,
            _ => SearchKind::Ngc,
        },
        score,
        display: match bright_nickname_spec(id) {
            Some(nk) => nk,
            None => p + dec(n as nat),
        },
        aka: match bright_nickname_spec(id) {
            Some(nk) => spaced(p, dec(n as nat)) + " · "@ + nk,
            None => spaced(p, dec(n as nat)),
        },
        kind_hint: None,
        row,
    }
}

// ---------------------------------------------------------------------------
// Sections
// ---------------------------------------------------------------------------

/// Hits among the solar-system bodies, in list order.
pub open spec fn solar_hits_spec(bodies: Seq<SolarSystemBody>, q: Seq<char>) -> Seq<SearchHitView>
    decreases bodies.len(),
{
    if bodies.len() == 0 {
        Seq::empty()
    } else {
        let prev = solar_hits_spec(bodies.drop_last(), q);
        match bodies.last().score_spec(q) {
            Some(s) => prev.push(bodies.last().hit_spec(s, bodies.len() - 1)),
            None => prev,
        }
    }
}

/// Hits among the named stars, in list order.
pub open spec fn star_hits_spec(stars: Seq<StarNames>, q: Seq<char>, toks: Seq<Seq<char>>) -> Seq<
    SearchHitView,
>
    decreases stars.len(),
{
    if stars.len() == 0 {
        Seq::empty()
    } else {
        let prev = star_hits_spec(stars.drop_last(), q, toks);
        match stars.last().score_spec(q, toks) {
            Some(s) => prev.push(stars.last().hit_spec(s, stars.len() - 1)),
            None => prev,
        }
    }
}

/// Hits among the Messier catalogue rows, in list order; rows that are not
/// Messier objects are skipped.
pub open spec fn messier_hits_spec(ids: Seq<DeepSkyId>, q: Seq<char>) -> Seq<SearchHitView>
    decreases ids.len(),
{
    if ids.len() == 0 {
        Seq::empty()
    } else {
        let prev = messier_hits_spec(ids.drop_last(), q);
        match ids.last() {
            DeepSkyId::Messier(n) => match messier_score_spec(n, q) {
                Some(s) => prev.push(messier_hit_spec(n, s, ids.len() - 1)),
                None => prev,
            },
            _ => prev,
        }
    }
}

/// Hits among the bright NGC / IC catalogue rows, in list order; Messier
/// rows are skipped.
pub open spec fn bright_hits_spec(ids: Seq<DeepSkyId>, q: Seq<char>) -> Seq<SearchHitView>
    decreases ids.len(),
{
    if ids.len() == 0 {
        Seq::empty()
    } else {
        let prev = bright_hits_spec(ids.drop_last(), q);
        match ids.last() {
            DeepSkyId::Messier(_) => prev,
            id => match bright_score_spec(id, q) {
                Some(s) => prev.push(bright_hit_spec(id, s, ids.len() - 1)),
                None => prev,
            },
        }
    }
}

/// Every hit of a query, section by section (solar system, named stars,
/// Messier, bright NGC / IC), each in list order; nothing for a blank query.
pub open spec fn search_hits_spec(
    query: Seq<char>,
    bodies: Seq<SolarSystemBody>,
    stars: Seq<StarNames>,
    messier: Seq<DeepSkyId>,
    bright: Seq<DeepSkyId>,
) -> Seq<SearchHitView> {
    let t = trim(query);
    if t.len() == 0 {
        Seq::empty()
    } else {
        let q = norm_spec(t);
        let toks = tokens_spec(t);
        solar_hits_spec(bodies, q) + star_hits_spec(stars, q, toks) + messier_hits_spec(messier, q)
            + bright_hits_spec(bright, q)
    }
}

/// `a` and `b` are ASCII texts that differ at most in the case of letters.
pub open spec fn same_but_case(a: Seq<char>, b: Seq<char>) -> bool {
    &&& a.len() == b.len()
    &&& forall|i: int|
        0 <= i < a.len() ==> (#[trigger] a[i] as u32) < 128 && (b[i] as u32) < 128
            && ascii_lower_char(a[i]) == ascii_lower_char(b[i])
}

proof fn lemma_same_but_case_ws(a: Seq<char>, b: Seq<char>, i: int)
    requires
        same_but_case(a, b),
        0 <= i < a.len(),
    ensures
        is_ws(a[i]) == is_ws(b[i]),
{
    let (x, y) = (a[i] as u32, b[i] as u32);
    assert(x < 128 && y < 128);
    assert(ascii_lower_char(a[i]) == ascii_lower_char(b[i]));
    if 'A' <= a[i] <= 'Z' {
        assert(ascii_lower_char(a[i]) as u32 == x + 32);
    }
    if 'A' <= b[i] <= 'Z' {
        assert(ascii_lower_char(b[i]) as u32 == y + 32);
    }
}

proof fn lemma_same_but_case_ends(a: Seq<char>, b: Seq<char>)
    requires
        same_but_case(a, b),
        a.len() > 0,
    ensures
        same_but_case(a.drop_first(), b.drop_first()),
        same_but_case(a.drop_last(), b.drop_last()),
        is_ws(a[0]) == is_ws(b[0]),
        is_ws(a.last()) == is_ws(b.last()),
{
    lemma_same_but_case_ws(a, b, 0);
    lemma_same_but_case_ws(a, b, a.len() - 1);
    assert forall|i: int| 0 <= i < a.drop_first().len() implies (#[trigger] a.drop_first()[i] as u32)
        < 128 && (b.drop_first()[i] as u32) < 128 && ascii_lower_char(a.drop_first()[i])
        == ascii_lower_char(b.drop_first()[i]) by {
        assert(a.drop_first()[i] == a[i + 1] && b.drop_first()[i] == b[i + 1]);
    }
    assert forall|i: int| 0 <= i < a.drop_last().len() implies (#[trigger] a.drop_last()[i] as u32)
        < 128 && (b.drop_last()[i] as u32) < 128 && ascii_lower_char(a.drop_last()[i])
        == ascii_lower_char(b.drop_last()[i]) by {
        assert(a.drop_last()[i] == a[i] && b.drop_last()[i] == b[i]);
    }
}

proof fn lemma_same_but_case_lower(a: Seq<char>, b: Seq<char>)
    requires
        same_but_case(a, b),
    ensures
        is_ascii_text(a),
        is_ascii_text(b),
        lower_spec(a) == lower_spec(b),
{
    assert forall|i: int| 0 <= i < b.len() implies (#[trigger] b[i] as u32) < 128 by {
        assert((a[i] as u32) < 128);
    }
    assert forall|i: int| 0 <= i < a.len() implies #[trigger] ascii_lower(a)[i] == ascii_lower(b)[i] by {
        assert((a[i] as u32) < 128);
    }
    assert(ascii_lower(a) =~= ascii_lower(b));
}

proof fn lemma_same_but_case_trim(a: Seq<char>, b: Seq<char>)
    requires
        same_but_case(a, b),
    ensures
        same_but_case(trim(a), trim(b)),
{
    lemma_same_but_case_trim_start(a, b);
    lemma_same_but_case_trim_end(trim_start(a), trim_start(b));
}

proof fn lemma_same_but_case_trim_start(a: Seq<char>, b: Seq<char>)
    requires
        same_but_case(a, b),
    ensures
        same_but_case(trim_start(a), trim_start(b)),
    decreases a.len(),
{
    if a.len() > 0 {
        lemma_same_but_case_ends(a, b);
        if is_ws(a[0]) {
            lemma_same_but_case_trim_start(a.drop_first(), b.drop_first());
        }
    }
}

proof fn lemma_same_but_case_trim_end(a: Seq<char>, b: Seq<char>)
    requires
        same_but_case(a, b),
    ensures
        same_but_case(trim_end(a), trim_end(b)),
    decreases a.len(),
{
    if a.len() > 0 {
        lemma_same_but_case_ends(a, b);
        if is_ws(a.last()) {
            lemma_same_but_case_trim_end(a.drop_last(), b.drop_last());
        }
    }
}

proof fn lemma_same_but_case_push(a: Seq<char>, b: Seq<char>, x: char, y: char)
    requires
        same_but_case(a, b),
        same_but_case(seq![x], seq![y]),
    ensures
        same_but_case(a.push(x), b.push(y)),
{
    assert forall|i: int| 0 <= i < a.push(x).len() implies (#[trigger] a.push(x)[i] as u32) < 128
        && (b.push(y)[i] as u32) < 128 && ascii_lower_char(a.push(x)[i]) == ascii_lower_char(
        b.push(y)[i],
    ) by {
        if i == a.len() {
            assert(seq![x][0] == x && seq![y][0] == y);
            assert((seq![x][0] as u32) < 128);
            assert(a.push(x)[i] == x && b.push(y)[i] == y);
        } else {
            assert(a.push(x)[i] == a[i] && b.push(y)[i] == b[i]);
            assert((a[i] as u32) < 128);
        }
    }
}

proof fn lemma_same_but_case_split(a: Seq<char>, b: Seq<char>)
    requires
        same_but_case(a, b),
    ensures
        ws_split_state(a).0.len() == ws_split_state(b).0.len(),
        forall|k: int|
            0 <= k < ws_split_state(a).0.len() ==> same_but_case(
                #[trigger] ws_split_state(a).0[k],
                ws_split_state(b).0[k],
            ),
        same_but_case(ws_split_state(a).1, ws_split_state(b).1),
    decreases a.len(),
{
    if a.len() > 0 {
        lemma_same_but_case_ends(a, b);
        lemma_same_but_case_split(a.drop_last(), b.drop_last());
        let (da, ca) = ws_split_state(a.drop_last());
        let (db, cb) = ws_split_state(b.drop_last());
        if !is_ws(a.last()) {
            assert(same_but_case(seq![a.last()], seq![b.last()])) by {
                assert(seq![a.last()][0] == a.last() && seq![b.last()][0] == b.last());
            }
            lemma_same_but_case_push(ca, cb, a.last(), b.last());
        } else if ca.len() > 0 {
            assert forall|k: int| 0 <= k < da.push(ca).len() implies same_but_case(
                #[trigger] da.push(ca)[k],
                db.push(cb)[k],
            ) by {
                if k < da.len() {
                    assert(da.push(ca)[k] == da[k] && db.push(cb)[k] == db[k]);
                }
            }
            assert(same_but_case(Seq::<char>::empty(), Seq::<char>::empty()));
        }
    } else {
        assert(same_but_case(Seq::<char>::empty(), Seq::<char>::empty()));
    }
}

proof fn lemma_same_but_case_tokens(a: Seq<char>, b: Seq<char>)
    requires
        same_but_case(a, b),
    ensures
        tokens_spec(a) == tokens_spec(b),
{
    lemma_same_but_case_split(a, b);
    let (da, ca) = ws_split_state(a);
    let (db, cb) = ws_split_state(b);
    let (ta, tb) = (ws_tokens(a), ws_tokens(b));
    assert(ta.len() == tb.len());
    assert forall|k: int| 0 <= k < ta.len() implies same_but_case(#[trigger] ta[k], tb[k]) by {
        if k < da.len() {
            assert(ta[k] == da[k] && tb[k] == db[k]);
        }
    }
    assert forall|k: int| 0 <= k < ta.len() implies #[trigger] lower_spec(ta[k]) == lower_spec(tb[k]) by {
        lemma_same_but_case_lower(ta[k], tb[k]);
    }
    assert(tokens_spec(a) =~= tokens_spec(b));
}

/// Law: search ignores the case of an ASCII query: two ASCII queries that
/// differ only in the case of letters (such as `vega`, `VEGA` and `VeGa`)
/// give the same hits, so the same results in the same order.
pub proof fn lemma_search_case_insensitive(
    q1: Seq<char>,
    q2: Seq<char>,
    bodies: Seq<SolarSystemBody>,
    stars: Seq<StarNames>,
    messier: Seq<DeepSkyId>,
    bright: Seq<DeepSkyId>,
)
    requires
        is_ascii_text(q1),
        is_ascii_text(q2),
        ascii_lower(q1) == ascii_lower(q2),
    ensures
        search_hits_spec(q1, bodies, stars, messier, bright) == search_hits_spec(
            q2,
            bodies,
            stars,
            messier,
            bright,
        ),
{
    assert(q1.len() == ascii_lower(q1).len() && q2.len() == ascii_lower(q2).len());
    assert forall|i: int| 0 <= i < q1.len() implies (#[trigger] q1[i] as u32) < 128 && (q2[i] as u32)
        < 128 && ascii_lower_char(q1[i]) == ascii_lower_char(q2[i]) by {
        assert(ascii_lower(q1)[i] == ascii_lower(q2)[i]);
        assert(ascii_lower(q1)[i] == ascii_lower_char(q1[i]));
        assert(ascii_lower(q2)[i] == ascii_lower_char(q2[i]));
        assert((q2[i] as u32) < 128);
    }
    let (t1, t2) = (trim(q1), trim(q2));
    lemma_same_but_case_trim(q1, q2);
    lemma_same_but_case_lower(t1, t2);
    lemma_same_but_case_tokens(t1, t2);
}

proof fn lemma_strip_ws_nonempty(s: Seq<char>, i: int)
    requires
        0 <= i < s.len(),
        !is_ws(s[i]),
    ensures
        strip_ws(s).len() > 0,
    decreases s.len(),
{
    if is_ws(s.last()) {
        assert(i < s.len() - 1);
        assert(s.drop_last()[i] == s[i]);
        lemma_strip_ws_nonempty(s.drop_last(), i);
    }
}

/// A catalogue designation (family letters, an optional space, the number)
/// normalises to a non-empty text.
proof fn lemma_designation_norm_nonempty(family: Seq<char>, sep: Seq<char>, n: nat)
    requires
        family.len() > 0,
        is_ascii_text(family),
        'A' <= family[0] <= 'Z',
        sep.len() <= 1,
        sep.len() == 1 ==> sep[0] == ' ',
    ensures
        norm_spec(family + sep + dec(n)).len() > 0,
{
    let x = family + sep + dec(n);
    crate::text::lemma_dec(n);
    assert forall|i: int| 0 <= i < x.len() implies (#[trigger] x[i] as u32) < 128 by {
        if i < family.len() {
            assert(x[i] == family[i]);
        } else if i < family.len() + sep.len() {
            assert(x[i] == sep[i - family.len()]);
        } else {
            assert(x[i] == dec(n)[i - family.len() - sep.len()]);
            assert(crate::text::is_digit(dec(n)[i - family.len() - sep.len()]));
        }
    }
    assert(x[0] == family[0]);
    let l = ascii_lower(x);
    assert(l[0] == ascii_lower_char(x[0]));
    assert(!is_ws(l[0]));
    lemma_strip_ws_nonempty(l, 0);
}

/// Law: a query that is exactly one of a star's catalogue designations
/// (`HR 7001` or `HR7001`, and likewise for HD and HIP numbers, in any
/// spacing or letter case that normalises the same), or exactly its proper
/// name, or its Bayer or Flamsteed designation with its constellation,
/// makes the star a hit with the exact-match score 0, whatever the star's
/// other names and the query tokens.
pub proof fn lemma_catalogue_designation_exact(star: StarNames, q: Seq<char>, toks: Seq<Seq<char>>)
    ensures
        (star.hr matches Some(n) && (q == norm_spec("HR"@ + dec(n as nat)) || q == norm_spec(
            "HR "@ + dec(n as nat),
        ))) ==> star.score_spec(q, toks) == Some(0u8),
        (star.hd matches Some(n) && (q == norm_spec("HD"@ + dec(n as nat)) || q == norm_spec(
            "HD "@ + dec(n as nat),
        ))) ==> star.score_spec(q, toks) == Some(0u8),
        (star.hip matches Some(n) && (q == norm_spec("HIP"@ + dec(n as nat)) || q == norm_spec(
            "HIP "@ + dec(n as nat),
        ))) ==> star.score_spec(q, toks) == Some(0u8),
        (star.proper matches Some(p) && q.len() > 0 && q == norm_spec(p@)) ==> star.score_spec(q, toks)
            == Some(0u8),
        (star.bayer matches Some(b) && star.constellation matches Some(c) && q.len() > 0 && q
            == norm_spec(spaced(b@, c@))) ==> star.score_spec(q, toks) == Some(0u8),
        (star.flam matches Some(f) && star.constellation matches Some(c) && q.len() > 0 && q
            == norm_spec(spaced(f@, c@))) ==> star.score_spec(q, toks) == Some(0u8),
{
    reveal_strlit("HR");
    reveal_strlit("HD");
    reveal_strlit("HIP");
    reveal_strlit("HR ");
    reveal_strlit("HD ");
    reveal_strlit("HIP ");
    reveal_strlit(" ");
    let e = Seq::<char>::empty();
    let sp = " "@;
    assert forall|fam: Seq<char>, n: nat|
        (fam == "HR"@ || fam == "HD"@ || fam == "HIP"@) implies norm_spec(fam + dec(n)).len() > 0
        && norm_spec(spaced(fam, dec(n))).len() > 0 && (fam + sp) + dec(n) == spaced(fam, dec(n)) by {
        assert(is_ascii_text(fam));
        lemma_designation_norm_nonempty(fam, e, n);
        assert(fam + e =~= fam);
        lemma_designation_norm_nonempty(fam, sp, n);
        assert((fam + sp) + dec(n) =~= spaced(fam, dec(n)));
    }
    assert("HR "@ =~= "HR"@ + sp);
    assert("HD "@ =~= "HD"@ + sp);
    assert("HIP "@ =~= "HIP"@ + sp);
}

proof fn lemma_names_score_exact(names: Seq<Seq<char>>, q: Seq<char>, k: int)
    requires
        0 <= k < names.len(),
        q.len() > 0,
        norm_spec(names[k]) == q,
    ensures
        names_score(names, q) == Some(0u8),
    decreases names.len(),
{
    if k < names.len() - 1 {
        assert(names.drop_last()[k] == names[k]);
        lemma_names_score_exact(names.drop_last(), q, k);
    }
}

/// Law: a query that is exactly one of a solar-system body's names (an
/// alias or its English name, once normalised) makes the body a hit with
/// the exact-match score 0.
pub proof fn lemma_body_name_exact(body: SolarSystemBody, q: Seq<char>, k: int)
    requires
        q.len() > 0,
        0 <= k <= body@.aliases.len(),
        k < body@.aliases.len() ==> norm_spec(body@.aliases[k]) == q,
        k == body@.aliases.len() ==> norm_spec(body@.display_en) == q,
    ensures
        body.score_spec(q) == Some(0u8),
{
    let names = body@.aliases.push(body@.display_en);
    assert(names[k] == if k < body@.aliases.len() { body@.aliases[k] } else { body@.display_en });
    lemma_names_score_exact(names, q, k);
}

// ---------------------------------------------------------------------------
// Executable ranking
// ---------------------------------------------------------------------------

/// The views of a list of hits.
pub open spec fn hit_views(v: Seq<SearchHit>) -> Seq<SearchHitView> {
    v.map_values(|h: SearchHit| h@)
}

/// The characters of a list of strings.
pub open spec fn string_views(v: Seq<String>) -> Seq<Seq<char>> {
    v.map_values(|s: String| s@)
}

fn spaced_exec(a: &str, b: &str) -> (r: Vec<char>)
    ensures
        r@ == spaced(a@, b@),
{
    let mut v: Vec<char> = Vec::new();
    push_str(&mut v, a);
    push_str(&mut v, " ");
    push_str(&mut v, b);
    assert(v@ =~= spaced(a@, b@));
    v
}

fn labelled(prefix: &str, n: u64) -> (r: Vec<char>)
    ensures
        r@ == prefix@ + dec(n as nat),
{
    let mut v: Vec<char> = Vec::new();
    push_str(&mut v, prefix);
    push_dec(&mut v, n);
    assert(v@ =~= prefix@ + dec(n as nat));
    v
}

pub(crate) fn join_dot_exec(parts: &Vec<Vec<char>>) -> (r: Vec<char>)
    ensures
        r@ == join_dot(parts@.map_values(|p: Vec<char>| p@)),
{
    let ghost ps = parts@.map_values(|p: Vec<char>| p@);
    let mut v: Vec<char> = Vec::new();
    let mut i: usize = 0;
    while i < parts.len()
        invariant
            i <= parts@.len(),
            ps == parts@.map_values(|p: Vec<char>| p@),
            v@ == join_dot(ps.take(i as int)),
        decreases parts@.len() - i,
    {
        proof {
            assert(ps.take(i + 1).drop_last() =~= ps.take(i as int));
            assert(ps.take(i + 1).last() == parts@[i as int]@);
        }
        if i > 0 {
            push_str(&mut v, " · ");
        } else {
            assert(ps.take(1) =~= seq![parts@[0]@]);
        }
        push_chars(&mut v, parts[i].as_slice());
        proof {
            if i > 0 {
                assert(v@ =~= join_dot(ps.take(i as int)) + " · "@ + parts@[i as int]@);
            }
        }
        i += 1;
    }
    assert(ps.take(i as int) =~= ps);
    v
}

fn bucket_of_str(candidate: &str, q: &[char], exact: u8, prefix: u8, within: Option<u8>) -> (r: Option<
    u8,
>)
    ensures
        r == bucket_spec(norm_spec(candidate@), q@, exact, prefix, within),
{
    let n = norm_chars(candidate);
    bucket(&n, q, exact, prefix, within)
}

fn number_score(prev: Option<u8>, family: &str, n: u32, q: &[char]) -> (r: Option<u8>)
    ensures
        r == catalogue_number_score(prev, family@, n, q@),
{
    let glued = labelled(family, n as u64);
    let mut spaced_v: Vec<char> = Vec::new();
    push_str(&mut spaced_v, family);
    push_str(&mut spaced_v, " ");
    push_dec(&mut spaced_v, n as u64);
    assert(spaced_v@ =~= spaced(family@, dec(n as nat)));
    let a = best(prev, candidate_bucket(&glued, q, 0, 1, Some(2)));
    best(a, candidate_bucket(&spaced_v, q, 0, 1, Some(2)))
}

fn all_tokens_in(text: &[char], toks: &[String]) -> (r: bool)
    ensures
        r == forall|i: int|
            0 <= i < toks@.len() ==> contains_seq(text@, #[trigger] string_views(toks@)[i]),
{
    let mut i: usize = 0;
    while i < toks.len()
        invariant
            i <= toks@.len(),
            forall|k: int| 0 <= k < i ==> contains_seq(text@, #[trigger] string_views(toks@)[k]),
        decreases toks@.len() - i,
    {
        let t = chars_of(toks[i].as_str());
        if !contains_chars(text, &t) {
            assert(!contains_seq(text@, string_views(toks@)[i as int]));
            return false;
        }
        i += 1;
    }
    true
}

impl StarNames {
    /// Label of the star.
    pub fn display(&self) -> (r: String)
        ensures
            r@ == self.display_spec(),
    {
        if let Some(p) = &self.proper {
            return string_from_chars(&chars_of(p.as_str()));
        }
        if let (Some(b), Some(c)) = (&self.bayer, &self.constellation) {
            return string_from_chars(&spaced_exec(b.as_str(), c.as_str()));
        }
        if let (Some(f), Some(c)) = (&self.flam, &self.constellation) {
            return string_from_chars(&spaced_exec(f.as_str(), c.as_str()));
        }
        if let Some(hr) = self.hr {
            return string_from_chars(&labelled("HR ", hr as u64));
        }
        if let Some(hd) = self.hd {
            return string_from_chars(&labelled("HD ", hd as u64));
        }
        if let Some(hip) = self.hip {
            return string_from_chars(&labelled("HIP ", hip as u64));
        }
        string_from_chars(&labelled("Star #", self.index as u64))
    }

    /// Secondary designations of the star, separated by `" · "`.
    pub fn aka(&self) -> (r: String)
        ensures
            r@ == join_dot(self.aka_parts()),
    {
        let mut parts: Vec<Vec<char>> = Vec::new();
        if let (Some(b), Some(c)) = (&self.bayer, &self.constellation) {
            parts.push(spaced_exec(b.as_str(), c.as_str()));
        }
        if let (Some(f), Some(c)) = (&self.flam, &self.constellation) {
            parts.push(spaced_exec(f.as_str(), c.as_str()));
        }
        if let Some(hr) = self.hr {
            parts.push(labelled("HR ", hr as u64));
        }
        if let Some(hd) = self.hd {
            parts.push(labelled("HD ", hd as u64));
        }
        if let Some(hip) = self.hip {
            parts.push(labelled("HIP ", hip as u64));
        }
        assert(parts@.map_values(|p: Vec<char>| p@) =~= self.aka_parts());
        string_from_chars(&join_dot_exec(&parts))
    }

    fn token_text_exec(&self) -> (r: Vec<char>)
        ensures
            r@ == self.token_text(),
    {
        let mut v: Vec<char> = Vec::new();
        if let Some(b) = &self.bayer {
            let l = to_lowercase(b.as_str());
            push_str(&mut v, l.as_str());
            push_str(&mut v, " ");
        }
        let ghost vb = v@;
        if let Some(f) = &self.flam {
            let l = to_lowercase(f.as_str());
            push_str(&mut v, l.as_str());
            push_str(&mut v, " ");
        }
        let ghost vf = v@;
        if let Some(c) = &self.constellation {
            let l = to_lowercase(c.as_str());
            push_str(&mut v, l.as_str());
        }
        assert(v@ =~= self.token_text());
        v
    }

    /// Scores the star against a normalised query and the query's tokens.
    pub fn score(&self, q_norm: &str, q_tokens: &[String]) -> (r: Option<u8>)
        ensures
            r == self.score_spec(q_norm@, string_views(q_tokens@)),
    {
        let q = chars_of(q_norm);
        let mut s: Option<u8> = None;
        if let Some(p) = &self.proper {
            s = bucket_of_str(p.as_str(), &q, 0, 1, Some(2));
        }
        if let (Some(b), Some(c)) = (&self.bayer, &self.constellation) {
            let bc = spaced_exec(b.as_str(), c.as_str());
            s = best(s, candidate_bucket(&bc, &q, 0, 1, Some(2)));
            s = best(s, bucket_of_str(b.as_str(), &q, 1, 2, Some(3)));
        }
        if let (Some(f), Some(c)) = (&self.flam, &self.constellation) {
            let fc = spaced_exec(f.as_str(), c.as_str());
            s = best(s, candidate_bucket(&fc, &q, 0, 1, Some(2)));
        }
        if let Some(hr) = self.hr {
            s = number_score(s, "HR", hr, &q);
        }
        if let Some(hd) = self.hd {
            s = number_score(s, "HD", hd, &q);
        }
        if let Some(hip) = self.hip {
            s = number_score(s, "HIP", hip, &q);
        }
        if q_tokens.len() >= 2 {
            let joined = self.token_text_exec();
            if joined.len() > 0 && all_tokens_in(&joined, q_tokens) {
                s = best(s, Some(3));
            }
        }
        s
    }

    /// The hit for this star, if it matches.
    pub fn hit(&self, q_norm: &str, q_tokens: &[String], row: usize) -> (r: Option<SearchHit>)
        ensures
            match self.score_spec(q_norm@, string_views(q_tokens@)) {
                Some(s) => r is Some && r->0@ == self.hit_spec(s, row as int),
                None => r is None,
            },
    {
        match self.score(q_norm, q_tokens) {
            Some(s) => Some(
                SearchHit {
                    id: SearchId::NamedStar(self.index),
                    kind: SearchKind::Star,
                    score: s,
                    display: self.display(),
                    aka: self.aka(),
                    kind_hint: None,
                    row,
                },
            ),
            None => None,
        }
    }
}

impl SolarSystemBody {
    /// The hit for this body, if it matches.
    pub fn hit(&self, q_norm: &str, row: usize) -> (r: Option<SearchHit>)
        ensures
            match self.score_spec(q_norm@) {
                Some(s) => r is Some && r->0@ == self.hit_spec(s, row as int),
                None => r is None,
            },
    {
        match self.score(q_norm) {
            Some(s) => {
                let mut aka: Vec<char> = Vec::new();
                push_str(&mut aka, "solar system · ");
                push_str(&mut aka, self.display_ja);
                Some(
                    SearchHit {
                        id: SearchId::SolarSystem(self.canonical),
                        kind: SearchKind::SolarSystem,
                        score: s,
                        display: string_from_chars(&chars_of(self.display_en)),
                        aka: string_from_chars(&aka),
                        kind_hint: Some(self.canonical),
                        row,
                    },
                )
            },
            None => None,
        }
    }
}

/// The hit for Messier object `n`, if it matches.
pub fn messier_hit(n: u16, q_norm: &str, row: usize) -> (r: Option<SearchHit>)
    ensures
        match messier_score_spec(n, q_norm@) {
            Some(s) => r is Some && r->0@ == messier_hit_spec(n, s, row as int),
            None => r is None,
        },
{
    let q = chars_of(q_norm);
    let label = labelled("M", n as u64);
    let long = labelled("messier ", n as u64);
    let nickname = messier_nickname(n);
    let mut s = best(
        candidate_bucket(&label, &q, 0, 1, Some(2)),
        candidate_bucket(&long, &q, 0, 1, Some(2)),
    );
    if let Some(nk) = nickname {
        s = best(s, bucket_of_str(nk, &q, 0, 1, Some(2)));
    }
    match s {
        Some(score) => {
            let mut aka = labelled("Messier ", n as u64);
            let display = match nickname {
                Some(nk) => {
                    push_str(&mut aka, " · ");
                    push_str(&mut aka, nk);
                    string_from_chars(&chars_of(nk))
                },
                None => string_from_chars(&label),
            };
            Some(
                SearchHit {
                    id: SearchId::Messier(n),
                    kind: SearchKind::Messier,
                    score,
                    display,
                    aka: string_from_chars(&aka),
                    kind_hint: None,
                    row,
                },
            )
        },
        None => None,
    }
}

/// The hit for a bright NGC / IC object, if it matches.
pub fn bright_hit(id: DeepSkyId, q_norm: &str, row: usize) -> (r: Option<SearchHit>)
    requires
        !(id is Messier),
    ensures
        match bright_score_spec(id, q_norm@) {
            Some(s) => r is Some && r->0@ == bright_hit_spec(id, s, row as int),
            None => r is None,
        },
{
    let q = chars_of(q_norm);
    let (n, prefix, nickname, kind) = match id {
        DeepSkyId::Ic(k) => (k, "IC", None, SearchKind::Ic),
        DeepSkyId::Ngc(k) => (k, "NGC", ngc_nickname(k), SearchKind::Ngc),
        DeepSkyId::Messier(k) => (k, "NGC", None, SearchKind::Ngc),
    };
    let label = labelled(prefix, n as u64);
    let mut long: Vec<char> = Vec::new();
    push_str(&mut long, prefix);
    push_str(&mut long, " ");
    push_dec(&mut long, n as u64);
    assert(long@ =~= spaced(prefix@, dec(n as nat)));
    let mut s = best(
        candidate_bucket(&label, &q, 0, 1, None),
        candidate_bucket(&long, &q, 0, 1, None),
    );
    if let Some(nk) = nickname {
        s = best(s, bucket_of_str(nk, &q, 1, 2, None));
    }
    match s {
        Some(score) => {
            let mut aka = long;
            let display = match nickname {
                Some(nk) => {
                    push_str(&mut aka, " · ");
                    push_str(&mut aka, nk);
                    string_from_chars(&chars_of(nk))
                },
                None => string_from_chars(&label),
            };
            let sid = match id {
                DeepSkyId::Ic(k) => SearchId::Ic(k),
                _ => SearchId::Ngc(n),
            };
            Some(
                SearchHit {
                    id: sid,
                    kind,
                    score,
                    display,
                    aka: string_from_chars(&aka),
                    kind_hint: None,
                    row,
                },
            )
        },
        None => None,
    }
}

/// Every hit of `query` among the given objects, before ordering: the
/// solar-system bodies, the named stars, the Messier rows and the bright
/// NGC / IC rows, each section in list order. A blank query has no hits.
pub fn search_hits(
    query: &str,
    bodies: &[SolarSystemBody],
    stars: &[StarNames],
    messier: &[DeepSkyId],
    bright: &[DeepSkyId],
) -> (r: Vec<SearchHit>)
    ensures
        hit_views(r@) == search_hits_spec(query@, bodies@, stars@, messier@, bright@),
{
    let t = trim_str(query);
    if t.len() == 0 {
        let empty: Vec<SearchHit> = Vec::new();
        assert(hit_views(empty@) =~= Seq::<SearchHitView>::empty());
        return empty;
    }
    let ts = string_from_chars(&t);
    let qn = norm(ts.as_str());
    let toks = tokens(ts.as_str());
    let ghost q = qn@;
    let ghost tk = string_views(toks@);
    assert(tk =~= tokens_spec(trim(query@)));
    let mut out: Vec<SearchHit> = Vec::new();
    let mut i: usize = 0;
    assert(hit_views(out@) =~= solar_hits_spec(bodies@.take(0), q));
    while i < bodies.len()
        invariant
            i <= bodies@.len(),
            q == qn@,
            hit_views(out@) == solar_hits_spec(bodies@.take(i as int), q),
        decreases bodies@.len() - i,
    {
        proof {
            assert(bodies@.take(i + 1).drop_last() =~= bodies@.take(i as int));
        }
        let ghost before = out@;
        match bodies[i].hit(qn.as_str(), i) {
            Some(h) => {
                out.push(h);
                assert(hit_views(out@) =~= hit_views(before).push(h@));
            },
            None => {},
        }
        i += 1;
    }
    assert(bodies@.take(i as int) =~= bodies@);
    let ghost solar = hit_views(out@);
    let mut j: usize = 0;
    assert(hit_views(out@) =~= solar + star_hits_spec(stars@.take(0), q, tk));
    while j < stars.len()
        invariant
            j <= stars@.len(),
            q == qn@,
            tk == string_views(toks@),
            hit_views(out@) == solar + star_hits_spec(stars@.take(j as int), q, tk),
        decreases stars@.len() - j,
    {
        proof {
            assert(stars@.take(j + 1).drop_last() =~= stars@.take(j as int));
        }
        let ghost before = out@;
        match stars[j].hit(qn.as_str(), toks.as_slice(), j) {
            Some(h) => {
                out.push(h);
                assert(hit_views(out@) =~= hit_views(before).push(h@));
            },
            None => {},
        }
        j += 1;
    }
    assert(stars@.take(j as int) =~= stars@);
    let ghost named = hit_views(out@);
    let mut k: usize = 0;
    assert(hit_views(out@) =~= named + messier_hits_spec(messier@.take(0), q));
    while k < messier.len()
        invariant
            k <= messier@.len(),
            q == qn@,
            hit_views(out@) == named + messier_hits_spec(messier@.take(k as int), q),
        decreases messier@.len() - k,
    {
        proof {
            assert(messier@.take(k + 1).drop_last() =~= messier@.take(k as int));
        }
        let ghost before = out@;
        if let DeepSkyId::Messier(n) = messier[k] {
            match messier_hit(n, qn.as_str(), k) {
                Some(h) => {
                    out.push(h);
                    assert(hit_views(out@) =~= hit_views(before).push(h@));
                },
                None => {},
            }
        }
        k += 1;
    }
    assert(messier@.take(k as int) =~= messier@);
    let ghost with_messier = hit_views(out@);
    let mut m: usize = 0;
    assert(hit_views(out@) =~= with_messier + bright_hits_spec(bright@.take(0), q));
    while m < bright.len()
        invariant
            m <= bright@.len(),
            q == qn@,
            hit_views(out@) == with_messier + bright_hits_spec(bright@.take(m as int), q),
        decreases bright@.len() - m,
    {
        proof {
            assert(bright@.take(m + 1).drop_last() =~= bright@.take(m as int));
        }
        let ghost before = out@;
        let id = bright[m];
        if !matches!(id, DeepSkyId::Messier(_)) {
            match bright_hit(id, qn.as_str(), m) {
                Some(h) => {
                    out.push(h);
                    assert(hit_views(out@) =~= hit_views(before).push(h@));
                },
                None => {},
            }
        }
        m += 1;
    }
    assert(bright@.take(m as int) =~= bright@);
    out
}

// ---------------------------------------------------------------------------
// The named-stars table
// ---------------------------------------------------------------------------

/// A [`StarNames`] row as plain values.
pub ghost struct StarNamesView {
    pub index: u32,
    pub proper: Option<Seq<char>>,
    pub bayer: Option<Seq<char>>,
    pub flam: Option<Seq<char>>,
    pub hr: Option<u32>,
    pub hd: Option<u32>,
    pub hip: Option<u32>,
    pub constellation: Option<Seq<char>>,
}

impl View for StarNames {
    type V = StarNamesView;

    open spec fn view(&self) -> StarNamesView {
        StarNamesView {
            index: self.index,
            proper: opt_string(self.proper),
            bayer: opt_string(self.bayer),
            flam: opt_string(self.flam),
            hr: self.hr,
            hd: self.hd,
            hip: self.hip,
            constellation: opt_string(self.constellation),
        }
    }
}

/// A line of text as `str::lines` yields it: a line that was ended by
/// `'\n'` loses a trailing `'\r'`.
pub open spec fn line_text(seg: Seq<char>, ended: bool) -> Seq<char> {
    if ended && seg.len() > 0 && seg.last() == '\r' {
        seg.drop_last()
    } else {
        seg
    }
}

/// An optional text column: trimmed, blank meaning absent.
pub open spec fn opt_text_spec(col: Seq<char>) -> Option<Seq<char>> {
    if trim(col).len() == 0 {
        None
    } else {
        Some(trim(col))
    }
}

/// An optional number column: trimmed and read as a `u32`.
pub open spec fn opt_u32_spec(col: Seq<char>) -> Option<u32> {
    match parse_bounded(trim(col), u32::MAX as nat) {
        Some(n) => Some(n as u32),
        None => None,
    }
}

/// One row of the named-stars table: the name columns, and the four
/// position / photometry columns (RA, Dec, magnitude, distance) as raw text.
#[derive(Debug, Clone, PartialEq, Eq)]
pub struct NamedStarRow {
    pub names: StarNames,
    pub measurements: Vec<String>,
}

/// How line `i` of the table reads: `None` for a comment, a blank line or a
/// line with fewer than eleven tab-separated columns.
pub open spec fn named_star_row_spec(i: int, line: Seq<char>) -> Option<(StarNamesView, Seq<Seq<char>>)> {
    let cols = split_char(line, '\t');
    if (line.len() > 0 && line[0] == '#') || line.len() == 0 || cols.len() < 11 {
        None
    } else {
        Some(
            (
                StarNamesView {
                    index: i as u32,
                    proper: opt_text_spec(cols[0]),
                    bayer: opt_text_spec(cols[1]),
                    flam: opt_text_spec(cols[2]),
                    hr: opt_u32_spec(cols[3]),
                    hd: opt_u32_spec(cols[4]),
                    hip: opt_u32_spec(cols[5]),
                    constellation: opt_text_spec(cols[6]),
                },
                cols.subrange(7, 11),
            ),
        )
    }
}

/// The rows of the first `n` lines of a table whose lines are `segs`.
pub open spec fn named_star_rows_upto(segs: Seq<Seq<char>>, n: int) -> Seq<(StarNamesView, Seq<Seq<char>>)>
    decreases n,
{
    if n <= 0 {
        Seq::empty()
    } else {
        let prev = named_star_rows_upto(segs, n - 1);
        match named_star_row_spec(n - 1, line_text(segs[n - 1], n < segs.len())) {
            Some(r) => prev.push(r),
            None => prev,
        }
    }
}

/// The rows of a named-stars table text, in file order.
pub open spec fn named_star_rows_spec(text: Seq<char>) -> Seq<(StarNamesView, Seq<Seq<char>>)> {
    let segs = split_lines(text);
    named_star_rows_upto(segs, segs.len() as int)
}

fn opt_text(col: &Vec<char>) -> (r: Option<String>)
    ensures
        opt_string(r) == opt_text_spec(col@),
{
    let t = trim_chars(col.as_slice());
    if t.len() == 0 {
        None
    } else {
        Some(string_from_chars(&t))
    }
}

fn opt_u32(col: &Vec<char>) -> (r: Option<u32>)
    ensures
        r == opt_u32_spec(col@),
{
    let t = trim_chars(col.as_slice());
    match parse_unsigned_chars(&t, u32::MAX as u64) {
        Some(n) => Some(n as u32),
        None => None,
    }
}

/// Reads the name columns of the named-stars table; each row's index is its
/// 0-based line number.
pub fn parse_named_star_rows(text: &str) -> (r: Vec<NamedStarRow>)
    ensures
        r@.len() == named_star_rows_spec(text@).len(),
        forall|i: int|
            0 <= i < r@.len() ==> (#[trigger] r@[i]).names@ == named_star_rows_spec(text@)[i].0
                && r@[i].measurements@.map_values(|m: String| m@) == named_star_rows_spec(
                text@,
            )[i].1,
{
    let v = chars_of(text);
    let lines = lines_of(v.as_slice());
    let ghost segs = split_lines(v@);
    let mut out: Vec<NamedStarRow> = Vec::new();
    let mut i: usize = 0;
    while i < lines.len()
        invariant
            i <= lines@.len(),
            lines@.len() == segs.len(),
            segs == split_lines(text@),
            forall|k: int| 0 <= k < lines@.len() ==> #[trigger] lines@[k]@ == segs[k],
            out@.len() == named_star_rows_upto(segs, i as int).len(),
            forall|k: int|
                0 <= k < out@.len() ==> (#[trigger] out@[k]).names@ == named_star_rows_upto(
                    segs,
                    i as int,
                )[k].0 && out@[k].measurements@.map_values(|m: String| m@)
                    == named_star_rows_upto(segs, i as int)[k].1,
        decreases lines@.len() - i,
    {
        let seg = &lines[i];
        let line: Vec<char> = if i + 1 < lines.len() && seg.len() > 0 && seg[seg.len() - 1] == '\r' {
            crate::text::sub_chars(seg.as_slice(), 0, seg.len() - 1)
        } else {
            crate::text::sub_chars(seg.as_slice(), 0, seg.len())
        };
        assert(line@ =~= line_text(segs[i as int], i + 1 < segs.len()));
        let ghost prev = named_star_rows_upto(segs, i as int);
        if line.len() == 0 || line[0] == '#' {
        } else {
            let cols = split_on(line.as_slice(), '\t');
            if cols.len() >= 11 {
                let names = StarNames {
                    index: i as u32,
                    proper: opt_text(&cols[0]),
                    bayer: opt_text(&cols[1]),
                    flam: opt_text(&cols[2]),
                    hr: opt_u32(&cols[3]),
                    hd: opt_u32(&cols[4]),
                    hip: opt_u32(&cols[5]),
                    constellation: opt_text(&cols[6]),
                };
                let mut measurements: Vec<String> = Vec::new();
                let mut k: usize = 7;
                while k < 11
                    invariant
                        7 <= k <= 11,
                        cols@.len() >= 11,
                        measurements@.len() == k - 7,
                        forall|j: int|
                            0 <= j < k - 7 ==> #[trigger] measurements@[j]@ == cols@[j + 7]@,
                    decreases 11 - k,
                {
                    measurements.push(string_from_chars(cols[k].as_slice()));
                    k += 1;
                }
                proof {
                    let sc = split_char(line@, '\t');
                    assert(measurements@.map_values(|m: String| m@) =~= sc.subrange(7, 11));
                }
                out.push(NamedStarRow { names, measurements });
            }
        }
        i += 1;
    }
    out
}

} // verus!
