//! Open-cluster membership: the table that joins HYG / Hipparcos stars to the
//! deep-sky identifier of their parent cluster, so the renderer can draw the
//! cluster as a resolved field of stars instead of a marker.
//!
//! The table is read from CSV text whose header is
//! `cluster_id,hyg_id,hip_id,name`. Blank lines and lines starting with `#`
//! are ignored; rows whose cluster identifier is not a Messier / NGC / IC
//! designation (e.g. `Mel25`) are skipped.
use vstd::prelude::*;

use crate::deepsky::DeepSkyId;
use crate::text::{
    chars_eq, chars_of, parse_bounded, parse_unsigned_chars, skip_chars, split_lines, sub_chars,
    trim, trim_chars,
};

verus! {

/// One row of the open-cluster membership table.
#[derive(Debug, Clone, Copy, PartialEq, Eq, Structural)]
pub struct ClusterMember {
    /// HYG v4.2 catalogue `id` of the member star.
    pub hyg_id: u32,
    /// Hipparcos number when HYG carries one.
    pub hip_id: Option<u32>,
}

/// Why a membership table could not be read.
#[derive(Debug, Clone, Copy, PartialEq, Eq, Structural)]
pub enum MembershipError {
    /// The first content line is not `cluster_id,hyg_id,hip_id,name`.
    HeaderMismatch,
    /// A row has fewer than three comma-separated fields.
    MissingColumn,
    /// The `hyg_id` field is not an unsigned 32-bit number.
    InvalidHygId,
    /// The `hip_id` field is neither empty nor an unsigned 32-bit number.
    InvalidHipId,
}

// ---------------------------------------------------------------------------
// Cluster identifiers
// ---------------------------------------------------------------------------

/// The cluster a `cluster_id` field designates: `M<n>` with `n` in 1..=110,
/// `NGC<n>` or `IC<n>` with `n >= 1`, each number read as a `u16`.
pub open spec fn cluster_id_spec(s: Seq<char>) -> Option<DeepSkyId> {
    if s.len() >= 1 && s[0] == 'M' {
        match parse_bounded(s.skip(1), 0xffff) {
            Some(n) => if 1 <= n <= 110 {
                Some(DeepSkyId::Messier(n as u16))
            } else {
                None
            },
            None => None,
        }
    } else if s.len() >= 3 && s[0] == 'N' && s[1] == 'G' && s[2] == 'C' {
        match parse_bounded(s.skip(3), 0xffff) {
            Some(n) => if n >= 1 {
                Some(DeepSkyId::Ngc(n as u16))
            } else {
                None
            },
            None => None,
        }
    } else if s.len() >= 2 && s[0] == 'I' && s[1] == 'C' {
        match parse_bounded(s.skip(2), 0xffff) {
            Some(n) => if n >= 1 {
                Some(DeepSkyId::Ic(n as u16))
            } else {
                None
            },
            None => None,
        }
    } else {
        None
    }
}

fn parse_cluster_id_chars(v: &[char]) -> (r: Option<DeepSkyId>)
    ensures
        r == cluster_id_spec(v@),
{
    if v.len() >= 1 && v[0] == 'M' {
        let rest = skip_chars(v, 1);
        match parse_unsigned_chars(&rest, 0xffff) {
            Some(n) => if 1 <= n && n <= 110 {
                Some(DeepSkyId::Messier(n as u16))
            } else {
                None
            },
            None => None,
        }
    } else if v.len() >= 3 && v[0] == 'N' && v[1] == 'G' && v[2] == 'C' {
        let rest = skip_chars(v, 3);
        match parse_unsigned_chars(&rest, 0xffff) {
            Some(n) => if n >= 1 {
                Some(DeepSkyId::Ngc(n as u16))
            } else {
                None
            },
            None => None,
        }
    } else if v.len() >= 2 && v[0] == 'I' && v[1] == 'C' {
        let rest = skip_chars(v, 2);
        match parse_unsigned_chars(&rest, 0xffff) {
            Some(n) => if n >= 1 {
                Some(DeepSkyId::Ic(n as u16))
            } else {
                None
            },
            None => None,
        }
    } else {
        None
    }
}

/// Parses a cluster designation such as `"M45"`, `"NGC869"` or `"IC434"`.
pub fn parse_cluster_id(value: &str) -> (r: Option<DeepSkyId>)
    ensures
        r == cluster_id_spec(value@),
{
    let v = chars_of(value);
    parse_cluster_id_chars(&v)
}

// ---------------------------------------------------------------------------
// Text splitting
// ---------------------------------------------------------------------------

/// Index of the first `c` in `s`.
pub open spec fn find_char(s: Seq<char>, c: char) -> Option<int>
    decreases s.len(),
{
    if s.len() == 0 {
        None
    } else if s[0] == c {
        Some(0)
    } else {
        match find_char(s.drop_first(), c) {
            Some(i) => Some(i + 1),
            None => None,
        }
    }
}

/// [`find_char`] gives the first position of `c` in `s`, if any.
pub proof fn lemma_find_char(s: Seq<char>, c: char)
    ensures
        match find_char(s, c) {
            Some(i) => 0 <= i < s.len() && s[i] == c && forall|j: int|
                0 <= j < i ==> #[trigger] s[j] != c,
            None => forall|j: int| 0 <= j < s.len() ==> #[trigger] s[j] != c,
        },
    decreases s.len(),
{
    if s.len() > 0 && s[0] != c {
        lemma_find_char(s.drop_first(), c);
        match find_char(s.drop_first(), c) {
            Some(i) => {
                assert forall|j: int| 0 <= j < i + 1 implies #[trigger] s[j] != c by {
                    if j > 0 {
                        assert(s[j] == s.drop_first()[j - 1]);
                    }
                }
            },
            None => {
                assert forall|j: int| 0 <= j < s.len() implies #[trigger] s[j] != c by {
                    if j > 0 {
                        assert(s[j] == s.drop_first()[j - 1]);
                    }
                }
            },
        }
    }
}

pub(crate) fn find_colon(v: &[char]) -> (r: Option<usize>)
    ensures
        match r {
            Some(i) => find_char(v@, ':') == Some(i as int) && i < v@.len(),
            None => find_char(v@, ':') is None,
        },
{
    find_char_exec(v, ':')
}

fn find_char_exec(v: &[char], c: char) -> (r: Option<usize>)
    ensures
        match r {
            Some(i) => find_char(v@, c) == Some(i as int) && i < v@.len(),
            None => find_char(v@, c) is None,
        },
{
    let mut i: usize = 0;
    while i < v.len()
        invariant
            i <= v.len(),
            forall|j: int| 0 <= j < i ==> #[trigger] v@[j] != c,
        decreases v.len() - i,
    {
        if v[i] == c {
            proof {
                lemma_find_char(v@, c);
                match find_char(v@, c) {
                    Some(k) => {
                        if k < i {
                            assert(v@[k] != c);
                        }
                        if k > i {
                            assert(v@[i as int] != c);
                        }
                    },
                    None => {
                        assert(v@[i as int] != c);
                    },
                }
            }
            return Some(i);
        }
        i += 1;
    }
    proof {
        lemma_find_char(v@, c);
        match find_char(v@, c) {
            Some(k) => {
                assert(v@[k] != c);
            },
            None => {},
        }
    }
    None
}

/// The first three comma-separated fields of a row, each trimmed; `None` when
/// the row has fewer than three fields (what `splitn(4, ',')` gives).
pub open spec fn row_fields(t: Seq<char>) -> Option<(Seq<char>, Seq<char>, Seq<char>)> {
    match find_char(t, ',') {
        None => None,
        Some(i1) => {
            let rest1 = t.skip(i1 + 1);
            match find_char(rest1, ',') {
                None => None,
                Some(i2) => {
                    let rest2 = rest1.skip(i2 + 1);
                    let f3 = match find_char(rest2, ',') {
                        Some(i3) => rest2.take(i3),
                        None => rest2,
                    };
                    Some((trim(t.take(i1)), trim(rest1.take(i2)), trim(f3)))
                },
            }
        },
    }
}

fn row_fields_exec(t: &[char]) -> (r: Option<(Vec<char>, Vec<char>, Vec<char>)>)
    ensures
        match row_fields(t@) {
            Some((a, b, c)) => match r {
                Some((x, y, z)) => x@ == a && y@ == b && z@ == c,
                None => false,
            },
            None => r is None,
        },
{
    let i1 = match find_char_exec(t, ',') {
        Some(i) => i,
        None => return None,
    };
    assert(i1 < t.len());
    let rest1 = skip_chars(t, i1 + 1);
    let i2 = match find_char_exec(&rest1, ',') {
        Some(i) => i,
        None => return None,
    };
    assert(i2 < rest1.len());
    let rest2 = skip_chars(&rest1, i2 + 1);
    let f3 = match find_char_exec(&rest2, ',') {
        Some(i3) => sub_chars(&rest2, 0, i3),
        None => rest2.clone(),
    };
    let f1 = sub_chars(t, 0, i1);
    let f2 = sub_chars(&rest1, 0, i2);
    proof {
        assert(f1@ =~= t@.take(i1 as int));
        assert(f2@ =~= rest1@.take(i2 as int));
        match find_char(rest2@, ',') {
            Some(i3) => {
                assert(f3@ =~= rest2@.take(i3));
            },
            None => {},
        }
    }
    Some((trim_chars(&f1), trim_chars(&f2), trim_chars(&f3)))
}

// ---------------------------------------------------------------------------
// Rows and the whole table
// ---------------------------------------------------------------------------

/// The header line a membership table must start with.
pub open spec fn membership_header() -> Seq<char> {
    "cluster_id,hyg_id,hip_id,name"@
}

/// How one trimmed data row reads: an error, a skipped row (`None`) or a
/// member of a cluster.
pub open spec fn row_spec(t: Seq<char>) -> Result<Option<(DeepSkyId, ClusterMember)>, MembershipError> {
    match row_fields(t) {
        None => Err(MembershipError::MissingColumn),
        Some((f1, f2, f3)) => match cluster_id_spec(f1) {
            None => Ok(None),
            Some(id) => match parse_bounded(f2, 0xffff_ffff) {
                None => Err(MembershipError::InvalidHygId),
                Some(hyg) => if f3.len() == 0 {
                    Ok(Some((id, ClusterMember { hyg_id: hyg as u32, hip_id: None })))
                } else {
                    match parse_bounded(f3, 0xffff_ffff) {
                        None => Err(MembershipError::InvalidHipId),
                        Some(hip) => Ok(
                            Some((id, ClusterMember { hyg_id: hyg as u32, hip_id: Some(hip as u32) })),
                        ),
                    }
                },
            },
        },
    }
}

/// Reading state after some lines: whether the header was seen, and the
/// member rows read so far.
pub open spec fn step_spec(
    state: Result<(bool, Seq<(DeepSkyId, ClusterMember)>), MembershipError>,
    line: Seq<char>,
) -> Result<(bool, Seq<(DeepSkyId, ClusterMember)>), MembershipError> {
    match state {
        Err(e) => Err(e),
        Ok((seen, rows)) => {
            let t = trim(line);
            if t.len() == 0 || t[0] == '#' {
                Ok((seen, rows))
            } else if !seen {
                if t == membership_header() {
                    Ok((true, rows))
                } else {
                    Err(MembershipError::HeaderMismatch)
                }
            } else {
                match row_spec(t) {
                    Err(e) => Err(e),
                    Ok(None) => Ok((seen, rows)),
                    Ok(Some(r)) => Ok((seen, rows.push(r))),
                }
            }
        },
    }
}

/// Reading state after the given lines.
pub open spec fn fold_lines(lines: Seq<Seq<char>>) -> Result<
    (bool, Seq<(DeepSkyId, ClusterMember)>),
    MembershipError,
>
    decreases lines.len(),
{
    if lines.len() == 0 {
        Ok((false, Seq::empty()))
    } else {
        step_spec(fold_lines(lines.drop_last()), lines.last())
    }
}

/// The member rows a membership CSV text holds, in file order, or the first
/// error met while reading it.
pub open spec fn membership_rows(text: Seq<char>) -> Result<
    Seq<(DeepSkyId, ClusterMember)>,
    MembershipError,
> {
    match fold_lines(split_lines(text)) {
        Ok((_, rows)) => Ok(rows),
        Err(e) => Err(e),
    }
}

/// The members of cluster `id` among `rows`, in row order.
pub open spec fn members_of(rows: Seq<(DeepSkyId, ClusterMember)>, id: DeepSkyId) -> Seq<
    ClusterMember,
>
    decreases rows.len(),
{
    if rows.len() == 0 {
        Seq::empty()
    } else {
        let p = members_of(rows.drop_last(), id);
        if rows.last().0 == id {
            p.push(rows.last().1)
        } else {
            p
        }
    }
}

/// Total order on identifiers matching [`DeepSkyId::sort_key`].
pub open spec fn id_rank(id: DeepSkyId) -> int {
    let k = id.sort_key_spec();
    k.0 * 0x1_0000 + k.1
}

/// The membership table of the open clusters.
pub struct ClusterTables {
    rows: Vec<(DeepSkyId, ClusterMember)>,
}

impl ClusterTables {
    /// Member rows of the table, in file order.
    pub closed spec fn rows_spec(&self) -> Seq<(DeepSkyId, ClusterMember)> {
        self.rows@
    }

    /// Reads a membership table from its CSV text.
    pub fn parse(text: &str) -> (r: Result<ClusterTables, MembershipError>)
        ensures
            match membership_rows(text@) {
                Ok(rows) => r is Ok && r->Ok_0.rows_spec() == rows,
                Err(e) => r == Err::<ClusterTables, MembershipError>(e),
            },
    {
        let v = chars_of(text);
        let header = chars_of("cluster_id,hyg_id,hip_id,name");
        let mut seen = false;
        let mut rows: Vec<(DeepSkyId, ClusterMember)> = Vec::new();
        let mut line: Vec<char> = Vec::new();
        let mut i: usize = 0;
        proof {
            assert(v@.take(0) =~= Seq::<char>::empty());
        }
        // The lines before the current one have been folded into (seen, rows).
        while i < v.len()
            invariant
                i <= v.len(),
                v@ == text@,
                header@ == membership_header(),
                split_lines(v@.take(i as int)).len() >= 1,
                fold_lines(split_lines(v@.take(i as int)).drop_last()) == Ok::<
                    (bool, Seq<(DeepSkyId, ClusterMember)>),
                    MembershipError,
                >((seen, rows@)),
                line@ == split_lines(v@.take(i as int)).last(),
            decreases v.len() - i,
        {
            let ghost ls = split_lines(v@.take(i as int));
            let ghost a = v@.take(i as int);
            let ghost b = v@.take(i + 1);
            proof {
                assert(b.drop_last() =~= a);
            }
            if v[i] == '\n' {
                match Self::fold_line(&mut seen, &mut rows, &line, &header) {
                    Err(e) => {
                        proof {
                            assert(fold_lines(ls) == step_spec(fold_lines(ls.drop_last()), ls.last()));
                            lemma_error_at_line_end(v@, i as int, e);
                        }
                        return Err(e);
                    },
                    Ok(()) => {},
                }
                proof {
                    assert(split_lines(b) == ls.push(Seq::<char>::empty()));
                    assert(split_lines(b).drop_last() =~= ls);
                }
                line = Vec::new();
            } else {
                let c = v[i];
                proof {
                    assert(split_lines(b) == ls.update(ls.len() - 1, ls.last().push(c)));
                    assert(split_lines(b).drop_last() =~= ls.drop_last());
                }
                line.push(c);
            }
            proof {
                crate::text::lemma_split_lines_nonempty(b);
            }
            i += 1;
        }
        let ghost ls = split_lines(v@);
        proof {
            assert(v@.take(i as int) =~= v@);
            assert(fold_lines(ls) == step_spec(fold_lines(ls.drop_last()), ls.last()));
        }
        match Self::fold_line(&mut seen, &mut rows, &line, &header) {
            Err(e) => {
                proof {
                    lemma_error_at_line_end(v@, i as int, e);
                }
                return Err(e);
            },
            Ok(()) => {},
        }
        Ok(ClusterTables { rows })
    }

    /// Folds one line into the reading state.
    fn fold_line(
        seen: &mut bool,
        rows: &mut Vec<(DeepSkyId, ClusterMember)>,
        line: &Vec<char>,
        header: &Vec<char>,
    ) -> (r: Result<(), MembershipError>)
        requires
            header@ == membership_header(),
        ensures
            match step_spec(
                Ok::<(bool, Seq<(DeepSkyId, ClusterMember)>), MembershipError>(
                    (*old(seen), old(rows)@),
                ),
                line@,
            ) {
                Ok((s2, rows2)) => r is Ok && *final(seen) == s2 && final(rows)@ == rows2,
                Err(e) => r == Err::<(), MembershipError>(e),
            },
    {
        let t = trim_chars(line);
        if t.len() == 0 || t[0] == '#' {
            Ok(())
        } else if !*seen {
            if chars_eq(&t, header) {
                *seen = true;
                Ok(())
            } else {
                Err(MembershipError::HeaderMismatch)
            }
        } else {
            match Self::row_exec(&t) {
                Err(e) => Err(e),
                Ok(None) => Ok(()),
                Ok(Some(r)) => {
                    rows.push(r);
                    Ok(())
                },
            }
        }
    }

    /// Reads one trimmed data row.
    fn row_exec(t: &[char]) -> (r: Result<Option<(DeepSkyId, ClusterMember)>, MembershipError>)
        ensures
            r == row_spec(t@),
    {
        let (f1, f2, f3) = match row_fields_exec(t) {
            Some(f) => f,
            None => return Err(MembershipError::MissingColumn),
        };
        let id = match parse_cluster_id_chars(&f1) {
            Some(id) => id,
            None => return Ok(None),
        };
        let hyg = match parse_unsigned_chars(&f2, 0xffff_ffff) {
            Some(h) => h as u32,
            None => return Err(MembershipError::InvalidHygId),
        };
        if f3.len() == 0 {
            Ok(Some((id, ClusterMember { hyg_id: hyg, hip_id: None })))
        } else {
            match parse_unsigned_chars(&f3, 0xffff_ffff) {
                Some(h) => Ok(Some((id, ClusterMember { hyg_id: hyg, hip_id: Some(h as u32) }))),
                None => Err(MembershipError::InvalidHipId),
            }
        }
    }

    /// Membership list of the cluster `id`, in table order; empty for a
    /// cluster that is not in the table.
    pub fn cluster_members(&self, id: DeepSkyId) -> (r: Vec<ClusterMember>)
        ensures
            r@ == members_of(self.rows_spec(), id),
    {
        let mut out: Vec<ClusterMember> = Vec::new();
        let mut i: usize = 0;
        while i < self.rows.len()
            invariant
                i <= self.rows@.len(),
                out@ == members_of(self.rows@.take(i as int), id),
            decreases self.rows@.len() - i,
        {
            let (rid, m) = self.rows[i];
            proof {
                assert(self.rows@.take(i + 1).drop_last() =~= self.rows@.take(i as int));
            }
            if rid == id {
                out.push(m);
            }
            i += 1;
        }
        proof {
            assert(self.rows@.take(self.rows@.len() as int) =~= self.rows@);
        }
        out
    }

    /// True when the cluster `id` carries a membership list and so should be
    /// drawn as a resolved star field rather than a marker.
    pub fn is_resolved_as_member_field(&self, id: DeepSkyId) -> (r: bool)
        ensures
            r == (members_of(self.rows_spec(), id).len() > 0),
    {
        let members = self.cluster_members(id);
        members.len() > 0
    }

    /// Every cluster that carries a membership list, ordered by
    /// [`DeepSkyId::sort_key`], each once.
    pub fn resolved_cluster_ids(&self) -> (r: Vec<DeepSkyId>)
        ensures
            forall|k: int, l: int| 0 <= k < l < r@.len() ==> id_rank(r@[k]) < id_rank(r@[l]),
            forall|id: DeepSkyId| r@.contains(id) <==> members_of(self.rows_spec(), id).len() > 0,
    {
        let mut out: Vec<DeepSkyId> = Vec::new();
        let mut i: usize = 0;
        while i < self.rows.len()
            invariant
                i <= self.rows@.len(),
                forall|k: int, l: int| 0 <= k < l < out@.len() ==> id_rank(out@[k]) < id_rank(out@[l]),
                forall|id: DeepSkyId| out@.contains(id) <==> members_of(self.rows@.take(i as int), id).len() > 0,
            decreases self.rows@.len() - i,
        {
            let (rid, _m) = self.rows[i];
            proof {
                assert(self.rows@.take(i + 1).drop_last() =~= self.rows@.take(i as int));
            }
            let key = rid.sort_key();
            let rank: u32 = (key.0 as u32) * 0x1_0000 + (key.1 as u32);
            let mut j: usize = 0;
            while j < out.len()
                invariant
                    j <= out@.len(),
                    rank == id_rank(rid),
                    forall|k: int| 0 <= k < j ==> id_rank(#[trigger] out@[k]) < rank,
                ensures
                    j <= out@.len(),
                    forall|k: int| 0 <= k < j ==> id_rank(#[trigger] out@[k]) < rank,
                    j < out@.len() ==> id_rank(out@[j as int]) >= rank,
                decreases out@.len() - j,
            {
                let kj = out[j].sort_key();
                let rj: u32 = (kj.0 as u32) * 0x1_0000 + (kj.1 as u32);
                if rj >= rank {
                    break;
                }
                j += 1;
            }
            let ghost old_out = out@;
            if j < out.len() && out[j] == rid {
                // Already listed.
            } else {
                proof {
                    if j < out@.len() {
                        let other = out@[j as int];
                        assert(id_rank(other) >= id_rank(rid));
                        if id_rank(other) == id_rank(rid) {
                            crate::deepsky::lemma_sort_key_injective(other, rid);
                        }
                        assert(id_rank(other) > id_rank(rid));
                    }
                }
                out.insert(j, rid);
                proof {
                    assert forall|k: int, l: int| 0 <= k < l < out@.len() implies id_rank(out@[k])
                        < id_rank(out@[l]) by {
                        if l < j {
                        } else if k > j {
                            assert(out@[k] == old_out[k - 1]);
                            assert(out@[l] == old_out[l - 1]);
                        } else if k == j {
                            assert(out@[l] == old_out[l - 1]);
                            assert(id_rank(old_out[j as int]) > id_rank(rid));
                            if l - 1 > j {
                                assert(id_rank(old_out[j as int]) < id_rank(old_out[l - 1]));
                            }
                        } else {
                            assert(out@[k] == old_out[k]);
                            if l == j {
                            } else {
                                assert(out@[l] == old_out[l - 1]);
                                assert(id_rank(old_out[k]) < id_rank(rid));
                                if l - 1 > j {
                                    assert(id_rank(old_out[j as int]) < id_rank(old_out[l - 1]));
                                }
                                assert(id_rank(old_out[j as int]) > id_rank(rid));
                            }
                        }
                    }
                }
            }
            proof {
                assert forall|id: DeepSkyId| out@.contains(id) <==> members_of(
                    self.rows@.take(i + 1),
                    id,
                ).len() > 0 by {
                    let p = members_of(self.rows@.take(i as int), id);
                    if id == rid {
                        assert(out@.contains(rid)) by {
                            if j < old_out.len() && old_out[j as int] == rid {
                                assert(out@[j as int] == rid);
                            } else {
                                assert(out@[j as int] == rid);
                            }
                        }
                    } else {
                        if out@.contains(id) {
                            let k = choose|k: int| 0 <= k < out@.len() && out@[k] == id;
                            if !(j < old_out.len() && old_out[j as int] == rid) {
                                if k < j {
                                    assert(old_out[k] == id);
                                } else {
                                    assert(k != j);
                                    assert(old_out[k - 1] == id);
                                }
                            }
                            assert(old_out.contains(id));
                        }
                        if old_out.contains(id) {
                            let k = choose|k: int| 0 <= k < old_out.len() && old_out[k] == id;
                            if !(j < old_out.len() && old_out[j as int] == rid) {
                                if k < j {
                                    assert(out@[k] == id);
                                } else {
                                    assert(out@[k + 1] == id);
                                }
                            }
                        }
                    }
                }
            }
            i += 1;
        }
        proof {
            assert(self.rows@.take(self.rows@.len() as int) =~= self.rows@);
        }
        out
    }
}

/// An error met in a line that is already complete stays the table's error.
proof fn lemma_fold_error_sticks(v: Seq<char>, i: int, e: MembershipError)
    requires
        0 <= i <= v.len(),
        split_lines(v.take(i)).len() >= 1,
        fold_lines(split_lines(v.take(i)).drop_last()) == Err::<
            (bool, Seq<(DeepSkyId, ClusterMember)>),
            MembershipError,
        >(e),
    ensures
        membership_rows(v) == Err::<Seq<(DeepSkyId, ClusterMember)>, MembershipError>(e),
    decreases v.len() - i,
{
    if i == v.len() {
        assert(v.take(i) =~= v);
    } else {
        let a = v.take(i);
        let b = v.take(i + 1);
        assert(b.drop_last() =~= a);
        let la = split_lines(a);
        let lb = split_lines(b);
        if v[i] == '\n' {
            assert(lb == la.push(Seq::<char>::empty()));
            assert(lb.drop_last() =~= la);
        } else {
            assert(lb == la.update(la.len() - 1, la.last().push(v[i])));
            assert(lb.drop_last() =~= la.drop_last());
        }
        crate::text::lemma_split_lines_nonempty(b);
        lemma_fold_error_sticks(v, i + 1, e);
    }
}

/// An error met when a line is folded in, at the end of the text or at a
/// line break, is the table's error.
proof fn lemma_error_at_line_end(v: Seq<char>, i: int, e: MembershipError)
    requires
        0 <= i <= v.len(),
        i == v.len() || v[i] == '\n',
        fold_lines(split_lines(v.take(i))) == Err::<
            (bool, Seq<(DeepSkyId, ClusterMember)>),
            MembershipError,
        >(e),
    ensures
        membership_rows(v) == Err::<Seq<(DeepSkyId, ClusterMember)>, MembershipError>(e),
{
    if i == v.len() {
        assert(v.take(i) =~= v);
    } else {
        let a = v.take(i);
        let b = v.take(i + 1);
        assert(b.drop_last() =~= a);
        assert(split_lines(b) == split_lines(a).push(Seq::<char>::empty()));
        assert(split_lines(b).drop_last() =~= split_lines(a));
        crate::text::lemma_split_lines_nonempty(b);
        lemma_fold_error_sticks(v, i + 1, e);
    }
}

/// True when some row of `rows` belongs to cluster `id`.
pub open spec fn lists_cluster(rows: Seq<(DeepSkyId, ClusterMember)>, id: DeepSkyId) -> bool {
    exists|k: int| 0 <= k < rows.len() && (#[trigger] rows[k]).0 == id
}

/// Law: a cluster has a non-empty membership list (is drawn as a resolved
/// star field) exactly when some table row names it, and every member listed
/// for it comes from such a row.
pub proof fn lemma_members_of(rows: Seq<(DeepSkyId, ClusterMember)>, id: DeepSkyId)
    ensures
        members_of(rows, id).len() > 0 <==> lists_cluster(rows, id),
        forall|m: ClusterMember| #[trigger] members_of(rows, id).contains(m) ==> rows.contains(
            (id, m),
        ),
    decreases rows.len(),
{
    if rows.len() > 0 {
        let p = rows.drop_last();
        lemma_members_of(p, id);
        if lists_cluster(p, id) {
            let k = choose|k: int| 0 <= k < p.len() && (#[trigger] p[k]).0 == id;
            assert(rows[k] == p[k]);
        }
        if lists_cluster(rows, id) && rows.last().0 != id {
            let k = choose|k: int| 0 <= k < rows.len() && (#[trigger] rows[k]).0 == id;
            assert(k < rows.len() - 1);
            assert(p[k] == rows[k]);
        }
        assert forall|m: ClusterMember| #[trigger] members_of(rows, id).contains(m) implies rows.contains(
            (id, m),
        ) by {
            let q = members_of(rows, id);
            let k = choose|k: int| 0 <= k < q.len() && q[k] == m;
            if rows.last().0 == id && k == q.len() - 1 {
                assert(rows[rows.len() - 1] == (id, m));
            } else {
                assert(members_of(p, id).contains(m)) by {
                    assert(members_of(p, id)[k] == m);
                }
                let j = choose|j: int| 0 <= j < p.len() && p[j] == (id, m);
                assert(rows[j] == (id, m));
            }
        }
    }
}

} // verus!
