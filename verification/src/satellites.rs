//! Two-line element sets: grouping a CelesTrak-style text into records and
//! reading the NORAD catalogue number.
//!
//! Lines are read one by one, each with its trailing whitespace removed.
//! Blank lines and lines starting with `#` are skipped; a line starting with
//! `1 ` is taken as line 1 of an element set, a line starting with `2 `
//! completes the set begun by the last line 1, and any other line names the
//! next set. A set without a name line is called `NORAD <id>`.
use vstd::prelude::*;

use crate::text::{
    chars_of, dec, lines_of, parse_bounded, parse_unsigned_chars, push_chars, push_dec, push_str,
    split_lines, string_from_chars, sub_chars, trim, trim_chars, trim_end, trim_end_chars,
    utf8_width,
};

verus! {

/// Errors from building a propagator from an element set.
#[derive(Debug, Clone, PartialEq, Eq)]
pub enum SatelliteError {
    /// The element set could not be read.
    Parse(String),
    /// The propagator could not be initialised from the elements.
    Propagate(String),
}

impl SatelliteError {
    /// The text a host prints for this error.
    pub open spec fn message_spec(&self) -> Seq<char> {
        match self {
            SatelliteError::Parse(m) => "TLE parse error: "@ + m@,
            SatelliteError::Propagate(m) => "SGP4 propagation error: "@ + m@,
        }
    }

    /// The text a host prints for this error.
    pub fn message(&self) -> (r: String)
        ensures
            r@ == self.message_spec(),
    {
        let mut v: Vec<char> = Vec::new();
        match self {
            SatelliteError::Parse(m) => {
                push_str(&mut v, "TLE parse error: ");
                push_str(&mut v, m.as_str());
            },
            SatelliteError::Propagate(m) => {
                push_str(&mut v, "SGP4 propagation error: ");
                push_str(&mut v, m.as_str());
            },
        }
        string_from_chars(&v)
    }
}

// ---------------------------------------------------------------------------
// Byte offsets of a UTF-8 text
// ---------------------------------------------------------------------------

/// Length in bytes of the UTF-8 encoding of `s`.
pub open spec fn byte_len(s: Seq<char>) -> int
    decreases s.len(),
{
    if s.len() == 0 {
        0
    } else {
        byte_len(s.drop_last()) + utf8_width(s.last())
    }
}

/// True when byte offset `b` of the encoding of `s` starts a character (or
/// is its end).
pub open spec fn is_boundary(s: Seq<char>, b: int) -> bool {
    exists|k: int| 0 <= k <= s.len() && #[trigger] byte_len(s.take(k)) == b
}

/// The index of the character that starts at byte offset `b`.
pub open spec fn boundary_index(s: Seq<char>, b: int) -> int {
    choose|k: int| 0 <= k <= s.len() && #[trigger] byte_len(s.take(k)) == b
}

proof fn lemma_byte_len_step(s: Seq<char>, k: int)
    requires
        0 <= k < s.len(),
    ensures
        byte_len(s.take(k + 1)) == byte_len(s.take(k)) + utf8_width(s[k]),
{
    assert(s.take(k + 1).drop_last() =~= s.take(k));
}

proof fn lemma_byte_len_increasing(s: Seq<char>, i: int, j: int)
    requires
        0 <= i < j <= s.len(),
    ensures
        byte_len(s.take(i)) < byte_len(s.take(j)),
    decreases j - i,
{
    lemma_byte_len_step(s, j - 1);
    if i < j - 1 {
        lemma_byte_len_increasing(s, i, j - 1);
    }
}

proof fn lemma_boundary_index(s: Seq<char>, b: int, k: int)
    requires
        0 <= k <= s.len(),
        byte_len(s.take(k)) == b,
    ensures
        is_boundary(s, b),
        boundary_index(s, b) == k,
{
    let c = boundary_index(s, b);
    if c < k {
        lemma_byte_len_increasing(s, c, k);
    } else if c > k {
        lemma_byte_len_increasing(s, k, c);
    }
}

// ---------------------------------------------------------------------------
// NORAD number
// ---------------------------------------------------------------------------

/// True when the slice `[2, 7)` of the line's bytes that the NORAD number
/// is read from starts and ends on character boundaries, or the line is too
/// short to hold it.
pub open spec fn norad_sliceable(line: Seq<char>) -> bool {
    byte_len(line) < 7 || (is_boundary(line, 2) && is_boundary(line, 7))
}

/// The NORAD number of a TLE line: bytes `[2, 7)` trimmed and read as an
/// unsigned integer, or `None` when the line is shorter than seven bytes or
/// the text is not a number.
pub open spec fn norad_id_spec(line: Seq<char>) -> Option<u64> {
    if byte_len(line) < 7 {
        None
    } else {
        let field = line.subrange(boundary_index(line, 2), boundary_index(line, 7));
        match parse_bounded(trim(field), u64::MAX as nat) {
            Some(n) => Some(n as u64),
            None => None,
        }
    }
}

/// Whether the line is at least seven bytes long, and then the character
/// indices at which bytes 2 and 7 start, when both are boundaries.
fn norad_bounds(v: &Vec<char>) -> (r: (bool, Option<(usize, usize)>))
    ensures
        r.0 == (byte_len(v@) >= 7),
        r.0 ==> match r.1 {
            Some((k2, k7)) => is_boundary(v@, 2) && is_boundary(v@, 7) && boundary_index(v@, 2)
                == k2 && boundary_index(v@, 7) == k7 && k2 <= k7 <= v@.len(),
            None => !(is_boundary(v@, 2) && is_boundary(v@, 7)),
        },
{
    let mut i: usize = 0;
    let mut off: usize = 0;
    let mut k2: usize = 0;
    let mut found2 = false;
    let mut k7: usize = 0;
    let mut found7 = false;
    proof {
        assert(v@.take(0) =~= Seq::<char>::empty());
    }
    while i < v.len() && off < 7
        invariant
            i <= v@.len(),
            off == byte_len(v@.take(i as int)),
            off <= 10,
            found2 ==> (k2 <= i && byte_len(v@.take(k2 as int)) == 2),
            found2 || off <= 2 || !is_boundary(v@, 2),
            found7 ==> (k7 <= i && byte_len(v@.take(k7 as int)) == 7),
            off == 7 ==> found7,
            found7 || off <= 7 || !is_boundary(v@, 7),
        decreases v@.len() - i,
    {
        if off == 2 {
            k2 = i;
            found2 = true;
        }
        let c = v[i];
        let u = c as u32;
        let w: usize = if u < 0x80 {
            1
        } else if u < 0x800 {
            2
        } else if u < 0x1_0000 {
            3
        } else {
            4
        };
        proof {
            lemma_byte_len_step(v@, i as int);
        }
        off = off + w;
        i = i + 1;
        if off == 7 {
            k7 = i;
            found7 = true;
        }
        proof {
            if !found2 && off > 2 && is_boundary(v@, 2) {
                let k = choose|k: int| 0 <= k <= v@.len() && #[trigger] byte_len(v@.take(k)) == 2;
                if k < i {
                    if k < i - 1 {
                        lemma_byte_len_increasing(v@, k, i - 1);
                    }
                } else if k > i {
                    lemma_byte_len_increasing(v@, i as int, k);
                }
            }
            if !found7 && off > 7 && is_boundary(v@, 7) {
                let k = choose|k: int| 0 <= k <= v@.len() && #[trigger] byte_len(v@.take(k)) == 7;
                if k < i {
                    if k < i - 1 {
                        lemma_byte_len_increasing(v@, k, i - 1);
                    }
                } else if k > i {
                    lemma_byte_len_increasing(v@, i as int, k);
                }
            }
        }
    }
    if off < 7 {
        proof {
            assert(v@.take(i as int) =~= v@);
        }
        return (false, None);
    }
    proof {
        if i < v@.len() {
            lemma_byte_len_increasing(v@, i as int, v@.len() as int);
        } else {
            assert(v@.take(i as int) =~= v@);
        }
        assert(byte_len(v@.take(v@.len() as int)) >= 7);
        assert(v@.take(v@.len() as int) =~= v@);
        if !found2 {
            assert(!is_boundary(v@, 2));
        }
        if !found7 {
            assert(off > 7);
            assert(!is_boundary(v@, 7));
        }
    }
    if !found2 || !found7 {
        return (true, None);
    }
    proof {
        lemma_boundary_index(v@, 2, k2 as int);
        lemma_boundary_index(v@, 7, k7 as int);
        if k7 < k2 {
            lemma_byte_len_increasing(v@, k7 as int, k2 as int);
        }
    }
    (true, Some((k2, k7)))
}

fn parse_norad_chars(v: &Vec<char>) -> (r: Option<u64>)
    requires
        norad_sliceable(v@),
    ensures
        r == norad_id_spec(v@),
{
    let (long, bounds) = norad_bounds(v);
    if !long {
        return None;
    }
    let (k2, k7) = match bounds {
        Some(b) => b,
        None => return None,
    };
    let field = sub_chars(v.as_slice(), k2, k7);
    let t = trim_chars(&field);
    match parse_unsigned_chars(&t, u64::MAX) {
        Some(n) => Some(n),
        None => None,
    }
}

/// Parses the NORAD catalogue number from bytes `[2, 7)` of a TLE line.
pub fn parse_norad_id(tle_line: &str) -> (r: Option<u64>)
    requires
        norad_sliceable(tle_line@),
    ensures
        r == norad_id_spec(tle_line@),
{
    let v = chars_of(tle_line);
    parse_norad_chars(&v)
}

/// Whether the NORAD slice `[2, 7)` of a TLE line can be taken.
pub fn is_norad_sliceable(tle_line: &str) -> (r: bool)
    ensures
        r == norad_sliceable(tle_line@),
{
    let v = chars_of(tle_line);
    let (long, bounds) = norad_bounds(&v);
    !long || bounds.is_some()
}

// ---------------------------------------------------------------------------
// Element-set grouping
// ---------------------------------------------------------------------------

/// One element set: its name, its two lines and the NORAD number read from
/// line 1 (0 when line 1 carries none).
#[derive(Debug, Clone, PartialEq, Eq)]
pub struct TleRecord {
    pub name: String,
    pub line1: String,
    pub line2: String,
    pub norad_id: u64,
}

impl TleRecord {
    /// The record as plain values: name, line 1, line 2, NORAD number.
    pub open spec fn view_tuple(&self) -> (Seq<char>, Seq<char>, Seq<char>, u64) {
        (self.name@, self.line1@, self.line2@, self.norad_id)
    }
}

/// Reading state: the pending name, the pending line 1 and the sets read.
pub type TleState = (Option<Seq<char>>, Option<Seq<char>>, Seq<(Seq<char>, Seq<char>, Seq<char>, u64)>);

/// True when `t` starts with the digit `d` and a space.
pub open spec fn starts_with_line_tag(t: Seq<char>, d: char) -> bool {
    t.len() >= 2 && t[0] == d && t[1] == ' '
}

/// Name given to a set that has no name line.
pub open spec fn default_tle_name(id: u64) -> Seq<char> {
    "NORAD "@ + dec(id as nat)
}

/// The state after one more raw line; `None` once a line 1 whose NORAD
/// slice does not fall on character boundaries is completed.
pub open spec fn tle_step(st: Option<TleState>, raw: Seq<char>) -> Option<TleState> {
    match st {
        None => None,
        Some((pending, line1, out)) => {
            let line = trim_end(raw);
            let t = trim(line);
            if t.len() == 0 || t[0] == '#' {
                Some((pending, line1, out))
            } else if starts_with_line_tag(t, '1') {
                Some((pending, Some(line), out))
            } else if starts_with_line_tag(t, '2') {
                match line1 {
                    Some(l1) => if !norad_sliceable(l1) {
                        None
                    } else {
                        let id = match norad_id_spec(l1) {
                            Some(n) => n,
                            None => 0u64,
                        };
                        let name = match pending {
                            Some(n) => n,
                            None => default_tle_name(id),
                        };
                        Some((None, None, out.push((name, l1, line, id))))
                    },
                    None => Some((None, None, out)),
                }
            } else {
                Some((Some(t), None, out))
            }
        },
    }
}

/// The state after the given raw lines.
pub open spec fn tle_fold(lines: Seq<Seq<char>>) -> Option<TleState>
    decreases lines.len(),
{
    if lines.len() == 0 {
        Some((None, None, Seq::empty()))
    } else {
        tle_step(tle_fold(lines.drop_last()), lines.last())
    }
}

/// The element sets of a TLE text, or `None` when reading it would slice a
/// line 1 inside a character.
pub open spec fn tle_records_spec(text: Seq<char>) -> Option<
    Seq<(Seq<char>, Seq<char>, Seq<char>, u64)>,
> {
    match tle_fold(split_lines(text)) {
        Some((_, _, out)) => Some(out),
        None => None,
    }
}

proof fn lemma_tle_fold_prefix(lines: Seq<Seq<char>>, i: int)
    requires
        0 <= i <= lines.len(),
        tle_fold(lines) is Some,
    ensures
        tle_fold(lines.take(i)) is Some,
    decreases lines.len() - i,
{
    if i < lines.len() {
        assert(lines.drop_last().take(i) =~= lines.take(i));
        lemma_tle_fold_prefix(lines.drop_last(), i);
    } else {
        assert(lines.take(i) =~= lines);
    }
}

/// Groups a CelesTrak-style TLE text into element sets.
pub fn parse_tle_set(text: &str) -> (r: Vec<TleRecord>)
    requires
        tle_records_spec(text@) is Some,
    ensures
        r@.len() == tle_records_spec(text@)->0.len(),
        forall|i: int|
            0 <= i < r@.len() ==> #[trigger] r@[i].view_tuple() == tle_records_spec(text@)->0[i],
{
    let v = chars_of(text);
    let lines = lines_of(v.as_slice());
    let ghost ls = split_lines(v@);
    proof {
        assert(lines@.len() == ls.len());
    }
    let mut out: Vec<TleRecord> = Vec::new();
    let mut pending: Option<Vec<char>> = None;
    let mut line1: Option<Vec<char>> = None;
    let mut i: usize = 0;
    proof {
        assert(ls.take(0) =~= Seq::<Seq<char>>::empty());
    }
    while i < lines.len()
        invariant
            i <= lines@.len(),
            lines@.len() == ls.len(),
            forall|k: int| 0 <= k < lines@.len() ==> #[trigger] lines@[k]@ == ls[k],
            tle_fold(ls) is Some,
            ({
                let st = tle_fold(ls.take(i as int));
                &&& st is Some
                &&& (st->0).0 == (match pending {
                    Some(p) => Some(p@),
                    None => None,
                })
                &&& (st->0).1 == (match line1 {
                    Some(p) => Some(p@),
                    None => None,
                })
                &&& (st->0).2.len() == out@.len()
                &&& forall|k: int|
                    0 <= k < out@.len() ==> #[trigger] out@[k].view_tuple() == (st->0).2[k]
            }),
        decreases lines@.len() - i,
    {
        proof {
            lemma_tle_fold_prefix(ls, i + 1);
            assert(ls.take(i + 1).drop_last() =~= ls.take(i as int));
            assert(ls.take(i + 1).last() == ls[i as int]);
        }
        let line = trim_end_chars(lines[i].as_slice());
        let t = trim_chars(&line);
        if t.len() == 0 || t[0] == '#' {
        } else if t.len() >= 2 && t[0] == '1' && t[1] == ' ' {
            line1 = Some(line);
        } else if t.len() >= 2 && t[0] == '2' && t[1] == ' ' {
            match line1 {
                Some(l1) => {
                    let id: u64 = match parse_norad_chars(&l1) {
                        Some(n) => n,
                        None => 0,
                    };
                    let name: Vec<char> = match pending {
                        Some(n) => n,
                        None => {
                            let mut d: Vec<char> = Vec::new();
                            push_str(&mut d, "NORAD ");
                            push_dec(&mut d, id);
                            d
                        },
                    };
                    let rec = TleRecord {
                        name: string_from_chars(&name),
                        line1: string_from_chars(&l1),
                        line2: string_from_chars(&line),
                        norad_id: id,
                    };
                    out.push(rec);
                },
                None => {},
            }
            pending = None;
            line1 = None;
        } else {
            pending = Some(t);
            line1 = None;
        }
        i += 1;
    }
    proof {
        assert(ls.take(i as int) =~= ls);
    }
    out
}

/// Whether grouping a TLE text would take every NORAD slice it needs on
/// character boundaries, that is, whether [`parse_tle_set`] accepts it.
pub fn tle_set_is_sliceable(text: &str) -> (r: bool)
    ensures
        r == (tle_records_spec(text@) is Some),
{
    let v = chars_of(text);
    let lines = lines_of(v.as_slice());
    let ghost ls = split_lines(v@);
    let mut line1: Option<Vec<char>> = None;
    let mut i: usize = 0;
    proof {
        assert(ls.take(0) =~= Seq::<Seq<char>>::empty());
    }
    while i < lines.len()
        invariant
            i <= lines@.len(),
            lines@.len() == ls.len(),
            ls == split_lines(text@),
            forall|k: int| 0 <= k < lines@.len() ==> #[trigger] lines@[k]@ == ls[k],
            tle_fold(ls.take(i as int)) is Some,
            (tle_fold(ls.take(i as int))->0).1 == (match line1 {
                Some(p) => Some(p@),
                None => None,
            }),
        decreases lines@.len() - i,
    {
        proof {
            assert(ls.take(i + 1).drop_last() =~= ls.take(i as int));
            assert(ls.take(i + 1).last() == ls[i as int]);
        }
        let line = trim_end_chars(lines[i].as_slice());
        let t = trim_chars(&line);
        if t.len() == 0 || t[0] == '#' {
        } else if t.len() >= 2 && t[0] == '1' && t[1] == ' ' {
            line1 = Some(line);
        } else if t.len() >= 2 && t[0] == '2' && t[1] == ' ' {
            match line1 {
                Some(l1) => {
                    let (long, bounds) = norad_bounds(&l1);
                    if long && bounds.is_none() {
                        proof {
                            assert(tle_fold(ls.take(i + 1)) is None);
                            if tle_fold(ls) is Some {
                                lemma_tle_fold_prefix(ls, i + 1);
                            }
                            assert(ls =~= split_lines(text@));
                        }
                        return false;
                    }
                },
                None => {},
            }
            line1 = None;
        } else {
            line1 = None;
        }
        i += 1;
    }
    proof {
        assert(ls.take(i as int) =~= ls);
    }
    true
}

} // verus!
