//! Reading the normalised CSV exports of the large catalogues: header
//! lookup by column name, field extraction, and the identifiers of a row.
//!
//! Column names are matched case-insensitively after trimming, and each
//! catalogue accepts several aliases per column so that one reader handles
//! both the VizieR export labels and the Gaia archive names; the first alias
//! that names some column wins, and among equal names the leftmost column.
//! A field is read trimmed, and an empty field counts as missing.
use vstd::prelude::*;

use crate::ids::{pack_tyc, CatalogIdentifiers, CatalogObjectId, CatalogSource};
use crate::text::{
    chars_of, parse_bounded, parse_unsigned_chars, string_from_chars, trim, trim_str,
};

verus! {

// ---------------------------------------------------------------------------
// CSV records
// ---------------------------------------------------------------------------

#[verifier::external_type_specification]
#[verifier::external_body]
pub struct ExStringRecord(csv::StringRecord);

/// The fields of a CSV record, in order.
pub uninterp spec fn record_fields(r: csv::StringRecord) -> Seq<Seq<char>>;

/// `csv::StringRecord::len`: the number of fields of the record.
#[verifier::external_body]
pub(crate) fn record_len(r: &csv::StringRecord) -> (n: usize)
    ensures
        n == record_fields(*r).len(),
{
    r.len()
}

/// `csv::StringRecord::get`: the field at index `i`, or `None` past the last
/// field.
#[verifier::external_body]
pub(crate) fn record_get(r: &csv::StringRecord, i: usize) -> (f: Option<&str>)
    ensures
        i < record_fields(*r).len() ==> f is Some && f->0@ == record_fields(*r)[i as int],
        i >= record_fields(*r).len() ==> f is None,
{
    r.get(i)
}

// ---------------------------------------------------------------------------
// Header lookup
// ---------------------------------------------------------------------------

/// `c` with `A`..`Z` mapped to `a`..`z`.
pub open spec fn ascii_lower_char(c: char) -> char {
    if 'A' <= c <= 'Z' {
        ((c as u32) + 32) as char
    } else {
        c
    }
}

/// `s` with its ASCII capitals lowered (`str::to_ascii_lowercase`).
pub open spec fn ascii_lower(s: Seq<char>) -> Seq<char> {
    s.map_values(|c: char| ascii_lower_char(c))
}

pub(crate) fn ascii_lower_exec(v: &[char]) -> (r: Vec<char>)
    ensures
        r@ == ascii_lower(v@),
{
    let mut r: Vec<char> = Vec::new();
    let mut i: usize = 0;
    while i < v.len()
        invariant
            i <= v@.len(),
            r@ == ascii_lower(v@.take(i as int)),
        decreases v@.len() - i,
    {
        let c = v[i];
        let l = if 'A' <= c && c <= 'Z' {
            ((c as u32) + 32) as u8 as char
        } else {
            c
        };
        proof {
            if 'A' <= c && c <= 'Z' {
                assert((((c as u32) + 32) as u8 as char) == (((c as u32) + 32) as char));
            }
        }
        r.push(l);
        assert(ascii_lower(v@.take(i + 1)) =~= ascii_lower(v@.take(i as int)).push(
            ascii_lower_char(c),
        ));
        i += 1;
    }
    assert(v@.take(v@.len() as int) =~= v@);
    r
}

/// The normalised name of a header field: trimmed, ASCII-lowercased.
pub open spec fn header_name(field: Seq<char>) -> Seq<char> {
    ascii_lower(trim(field))
}

/// Index of the first entry of `names` equal to `needle`.
pub open spec fn position_of(names: Seq<Seq<char>>, needle: Seq<char>) -> Option<int>
    decreases names.len(),
{
    if names.len() == 0 {
        None
    } else if names[0] == needle {
        Some(0)
    } else {
        match position_of(names.drop_first(), needle) {
            Some(i) => Some(i + 1),
            None => None,
        }
    }
}

/// The column `aliases` select in `names`: the first alias, in order, that
/// (lowercased) names some column gives its leftmost such column.
pub open spec fn index_spec(names: Seq<Seq<char>>, aliases: Seq<Seq<char>>) -> Option<usize>
    decreases aliases.len(),
{
    if aliases.len() == 0 {
        None
    } else {
        match position_of(names, ascii_lower(aliases[0])) {
            Some(i) => Some(i as usize),
            None => index_spec(names, aliases.drop_first()),
        }
    }
}

proof fn lemma_position_of(names: Seq<Seq<char>>, needle: Seq<char>)
    ensures
        match position_of(names, needle) {
            Some(i) => 0 <= i < names.len() && names[i] == needle && forall|j: int|
                0 <= j < i ==> #[trigger] names[j] != needle,
            None => forall|j: int| 0 <= j < names.len() ==> #[trigger] names[j] != needle,
        },
    decreases names.len(),
{
    if names.len() > 0 && names[0] != needle {
        lemma_position_of(names.drop_first(), needle);
        assert forall|j: int| 0 < j < names.len() implies #[trigger] names[j] == names.drop_first()[j
            - 1] by {}
    }
}

/// A header-name to column-index map of a catalogue CSV.
pub struct Columns {
    names: Vec<Vec<char>>,
}

impl Columns {
    /// The normalised header names, in column order.
    pub closed spec fn names_spec(&self) -> Seq<Seq<char>> {
        self.names@.map_values(|n: Vec<char>| n@)
    }

    /// Normalises the fields of a header record.
    pub fn from_header(header: &csv::StringRecord) -> (r: Self)
        ensures
            r.names_spec() == record_fields(*header).map_values(|f: Seq<char>| header_name(f)),
    {
        let n = record_len(header);
        let mut names: Vec<Vec<char>> = Vec::new();
        let mut i: usize = 0;
        while i < n
            invariant
                i <= n,
                n == record_fields(*header).len(),
                names@.len() == i,
                forall|k: int|
                    0 <= k < i ==> #[trigger] names@[k]@ == header_name(record_fields(*header)[k]),
            decreases n - i,
        {
            let field = record_get(header, i);
            let t = trim_str(field.unwrap());
            let l = ascii_lower_exec(&t);
            names.push(l);
            i += 1;
        }
        let r = Columns { names };
        assert(r.names_spec() =~= record_fields(*header).map_values(|f: Seq<char>| header_name(f)));
        r
    }

    fn position(&self, needle: &Vec<char>) -> (r: Option<usize>)
        ensures
            match position_of(self.names_spec(), needle@) {
                Some(i) => r == Some(i as usize),
                None => r is None,
            },
    {
        proof {
            lemma_position_of(self.names_spec(), needle@);
        }
        let mut j: usize = 0;
        while j < self.names.len()
            invariant
                j <= self.names@.len(),
                self.names_spec().len() == self.names@.len(),
                forall|k: int| 0 <= k < j ==> #[trigger] self.names_spec()[k] != needle@,
            decreases self.names@.len() - j,
        {
            if crate::text::chars_eq(self.names[j].as_slice(), needle.as_slice()) {
                proof {
                    assert(self.names_spec()[j as int] == needle@);
                    lemma_position_of(self.names_spec(), needle@);
                    match position_of(self.names_spec(), needle@) {
                        Some(i) => {
                            if i < j {
                                assert(self.names_spec()[i] != needle@);
                            } else if i > j {
                                assert(self.names_spec()[j as int] != needle@);
                            }
                        },
                        None => {
                            assert(self.names_spec()[j as int] != needle@);
                        },
                    }
                }
                return Some(j);
            }
            j += 1;
        }
        None
    }

    /// Index of the first header that matches any of `aliases`, tried in
    /// order (case-insensitively).
    pub fn index(&self, aliases: &[&str]) -> (r: Option<usize>)
        ensures
            r == index_spec(self.names_spec(), aliases@.map_values(|a: &str| a@)),
    {
        let ghost all = aliases@.map_values(|a: &str| a@);
        let mut i: usize = 0;
        assert(all.skip(0) =~= all);
        while i < aliases.len()
            invariant
                i <= aliases@.len(),
                all == aliases@.map_values(|a: &str| a@),
                index_spec(self.names_spec(), all) == index_spec(self.names_spec(), all.skip(i as int)),
            decreases aliases@.len() - i,
        {
            let needle = ascii_lower_exec(&chars_of(aliases[i]));
            proof {
                assert(all.skip(i as int)[0] == aliases@[i as int]@);
                assert(all.skip(i as int).drop_first() =~= all.skip(i + 1));
            }
            match self.position(&needle) {
                Some(j) => {
                    return Some(j);
                },
                None => {},
            }
            i += 1;
        }
        proof {
            assert(all.skip(i as int) =~= Seq::<Seq<char>>::empty());
        }
        None
    }
}


/// Law: a column is looked up by its aliases in priority order. When no
/// earlier alias names any column and alias `k` names column `m` first (case
/// aside), the lookup gives `m`; when no alias names any column, it gives
/// nothing.
pub proof fn lemma_alias_lookup(names: Seq<Seq<char>>, aliases: Seq<Seq<char>>, k: int, m: int)
    requires
        0 <= m < names.len(),
        0 <= k < aliases.len(),
        names[m] == ascii_lower(aliases[k]),
        forall|m2: int| 0 <= m2 < m ==> names[m2] != ascii_lower(aliases[k]),
        forall|j: int, m2: int|
            0 <= j < k && 0 <= m2 < names.len() ==> names[m2] != ascii_lower(aliases[j]),
    ensures
        index_spec(names, aliases) == Some(m as usize),
    decreases k,
{
    lemma_position_of(names, ascii_lower(aliases[0]));
    if k > 0 {
        let rest = aliases.drop_first();
        assert forall|j: int, m2: int|
            0 <= j < k - 1 && 0 <= m2 < names.len() implies names[m2] != ascii_lower(rest[j]) by {
            assert(rest[j] == aliases[j + 1]);
        }
        assert(rest[k - 1] == aliases[k]);
        lemma_alias_lookup(names, rest, k - 1, m);
    } else {
        match position_of(names, ascii_lower(aliases[0])) {
            Some(p) => {
                if p > m {
                    assert(names[m] == ascii_lower(aliases[0]));
                }
            },
            None => {
                assert(names[m] == ascii_lower(aliases[0]));
            },
        }
    }
}

/// Law: a lookup whose aliases name no column gives nothing.
pub proof fn lemma_alias_lookup_none(names: Seq<Seq<char>>, aliases: Seq<Seq<char>>)
    requires
        forall|j: int, m: int|
            0 <= j < aliases.len() && 0 <= m < names.len() ==> names[m] != ascii_lower(aliases[j]),
    ensures
        index_spec(names, aliases) is None,
    decreases aliases.len(),
{
    if aliases.len() > 0 {
        lemma_position_of(names, ascii_lower(aliases[0]));
        if position_of(names, ascii_lower(aliases[0])) is Some {
            let p = position_of(names, ascii_lower(aliases[0]))->0;
            assert(names[p] == ascii_lower(aliases[0]));
        }
        let rest = aliases.drop_first();
        assert forall|j: int, m: int| 0 <= j < rest.len() && 0 <= m < names.len() implies names[m]
            != ascii_lower(rest[j]) by {
            assert(rest[j] == aliases[j + 1]);
        }
        lemma_alias_lookup_none(names, rest);
    }
}


/// The names a Hipparcos (VizieR I/239) export gives each column, in priority order
/// (columns `hip`, `ra`, `dec`, `vmag`, `plx`, `pmra`, `pmde`, `bv`, `hd`, numbered from 0): `hip`: `HIP`; `ra`: `RAICRS`, `RAdeg`, `_RAJ2000`, `ra`; `dec`: `DEICRS`, `DEdeg`, `_DEJ2000`, `dec`; `vmag`: `Vmag`, `V`; `plx`: `Plx`, `parallax`; `pmra`: `pmRA`, `pmra`; `pmde`: `pmDE`, `pmdec`; `bv`: `B-V`, `BV`, `bp_rp`; `hd`: `HD`.
pub open spec fn hipparcos_aliases(col: int) -> Seq<Seq<char>> {
    if col == 0 {
        seq!["HIP"@]
    } else if col == 1 {
        seq!["RAICRS"@, "RAdeg"@, "_RAJ2000"@, "ra"@]
    } else if col == 2 {
        seq!["DEICRS"@, "DEdeg"@, "_DEJ2000"@, "dec"@]
    } else if col == 3 {
        seq!["Vmag"@, "V"@]
    } else if col == 4 {
        seq!["Plx"@, "parallax"@]
    } else if col == 5 {
        seq!["pmRA"@, "pmra"@]
    } else if col == 6 {
        seq!["pmDE"@, "pmdec"@]
    } else if col == 7 {
        seq!["B-V"@, "BV"@, "bp_rp"@]
    } else if col == 8 {
        seq!["HD"@]
    } else {
        Seq::empty()
    }
}

/// Column `col` (numbered as in [`hipparcos_aliases`]) of resolved columns.
pub open spec fn hipparcos_column(c: HipparcosColumns, col: int) -> Option<usize> {
    if col == 0 {
        c.hip
    } else if col == 1 {
        c.ra
    } else if col == 2 {
        c.dec
    } else if col == 3 {
        c.vmag
    } else if col == 4 {
        c.plx
    } else if col == 5 {
        c.pmra
    } else if col == 6 {
        c.pmde
    } else if col == 7 {
        c.bv
    } else if col == 8 {
        c.hd
    } else {
        None
    }
}

/// Law: each column of a Hipparcos (VizieR I/239) export is found under every name the
/// export gives it, in priority order: when no higher-priority name of the
/// column is in the header and name `k` is, first at position `m` (case
/// aside), the column is read from position `m`; when none of its names is
/// in the header, the column is missing.
pub proof fn lemma_hipparcos_columns(names: Seq<Seq<char>>, col: int, k: int, m: int)
    requires
        0 <= col < 9,
    ensures
        (0 <= m < names.len() && 0 <= k < hipparcos_aliases(col).len() && names[m] == ascii_lower(
            hipparcos_aliases(col)[k],
        ) && (forall|m2: int| 0 <= m2 < m ==> names[m2] != ascii_lower(hipparcos_aliases(col)[k]))
            && (forall|j: int, m2: int|
            0 <= j < k && 0 <= m2 < names.len() ==> names[m2] != ascii_lower(hipparcos_aliases(col)[j])))
            ==> hipparcos_column(HipparcosColumns::resolve_spec(names), col) == Some(m as usize),
        (forall|j: int, m2: int|
            0 <= j < hipparcos_aliases(col).len() && 0 <= m2 < names.len() ==> names[m2] != ascii_lower(
                hipparcos_aliases(col)[j],
            )) ==> hipparcos_column(HipparcosColumns::resolve_spec(names), col) is None,
{
    if 0 <= m < names.len() && 0 <= k < hipparcos_aliases(col).len() && names[m] == ascii_lower(
        hipparcos_aliases(col)[k],
    ) && (forall|m2: int| 0 <= m2 < m ==> names[m2] != ascii_lower(hipparcos_aliases(col)[k]))
        && (forall|j: int, m2: int|
        0 <= j < k && 0 <= m2 < names.len() ==> names[m2] != ascii_lower(hipparcos_aliases(col)[j])) {
        lemma_alias_lookup(names, hipparcos_aliases(col), k, m);
    }
    if forall|j: int, m2: int|
        0 <= j < hipparcos_aliases(col).len() && 0 <= m2 < names.len() ==> names[m2] != ascii_lower(
            hipparcos_aliases(col)[j],
        ) {
        lemma_alias_lookup_none(names, hipparcos_aliases(col));
    }
}

/// The names a Tycho-2 (VizieR I/259) export gives each column, in priority order
/// (columns `tyc1`, `tyc2`, `tyc3`, `ra`, `dec`, `vt`, `bt`, `pmra`, `pmde`, `hip`, numbered from 0): `tyc1`: `TYC1`; `tyc2`: `TYC2`; `tyc3`: `TYC3`; `ra`: `RAmdeg`, `RA_ICRS_`, `RAICRS`, `RAdeg`, `_RAJ2000`, `ra`; `dec`: `DEmdeg`, `DE_ICRS_`, `DEICRS`, `DEdeg`, `_DEJ2000`, `dec`; `vt`: `VTmag`, `VT`; `bt`: `BTmag`, `BT`; `pmra`: `pmRA`, `pmra`; `pmde`: `pmDE`, `pmdec`; `hip`: `HIP`.
pub open spec fn tycho2_aliases(col: int) -> Seq<Seq<char>> {
    if col == 0 {
        seq!["TYC1"@]
    } else if col == 1 {
        seq!["TYC2"@]
    } else if col == 2 {
        seq!["TYC3"@]
    } else if col == 3 {
        seq!["RAmdeg"@, "RA_ICRS_"@, "RAICRS"@, "RAdeg"@, "_RAJ2000"@, "ra"@]
    } else if col == 4 {
        seq!["DEmdeg"@, "DE_ICRS_"@, "DEICRS"@, "DEdeg"@, "_DEJ2000"@, "dec"@]
    } else if col == 5 {
        seq!["VTmag"@, "VT"@]
    } else if col == 6 {
        seq!["BTmag"@, "BT"@]
    } else if col == 7 {
        seq!["pmRA"@, "pmra"@]
    } else if col == 8 {
        seq!["pmDE"@, "pmdec"@]
    } else if col == 9 {
        seq!["HIP"@]
    } else {
        Seq::empty()
    }
}

/// Column `col` (numbered as in [`tycho2_aliases`]) of resolved columns.
pub open spec fn tycho2_column(c: Tycho2Columns, col: int) -> Option<usize> {
    if col == 0 {
        c.tyc1
    } else if col == 1 {
        c.tyc2
    } else if col == 2 {
        c.tyc3
    } else if col == 3 {
        c.ra
    } else if col == 4 {
        c.dec
    } else if col == 5 {
        c.vt
    } else if col == 6 {
        c.bt
    } else if col == 7 {
        c.pmra
    } else if col == 8 {
        c.pmde
    } else if col == 9 {
        c.hip
    } else {
        None
    }
}

/// Law: each column of a Tycho-2 (VizieR I/259) export is found under every name the
/// export gives it, in priority order: when no higher-priority name of the
/// column is in the header and name `k` is, first at position `m` (case
/// aside), the column is read from position `m`; when none of its names is
/// in the header, the column is missing.
pub proof fn lemma_tycho2_columns(names: Seq<Seq<char>>, col: int, k: int, m: int)
    requires
        0 <= col < 10,
    ensures
        (0 <= m < names.len() && 0 <= k < tycho2_aliases(col).len() && names[m] == ascii_lower(
            tycho2_aliases(col)[k],
        ) && (forall|m2: int| 0 <= m2 < m ==> names[m2] != ascii_lower(tycho2_aliases(col)[k]))
            && (forall|j: int, m2: int|
            0 <= j < k && 0 <= m2 < names.len() ==> names[m2] != ascii_lower(tycho2_aliases(col)[j])))
            ==> tycho2_column(Tycho2Columns::resolve_spec(names), col) == Some(m as usize),
        (forall|j: int, m2: int|
            0 <= j < tycho2_aliases(col).len() && 0 <= m2 < names.len() ==> names[m2] != ascii_lower(
                tycho2_aliases(col)[j],
            )) ==> tycho2_column(Tycho2Columns::resolve_spec(names), col) is None,
{
    if 0 <= m < names.len() && 0 <= k < tycho2_aliases(col).len() && names[m] == ascii_lower(
        tycho2_aliases(col)[k],
    ) && (forall|m2: int| 0 <= m2 < m ==> names[m2] != ascii_lower(tycho2_aliases(col)[k]))
        && (forall|j: int, m2: int|
        0 <= j < k && 0 <= m2 < names.len() ==> names[m2] != ascii_lower(tycho2_aliases(col)[j])) {
        lemma_alias_lookup(names, tycho2_aliases(col), k, m);
    }
    if forall|j: int, m2: int|
        0 <= j < tycho2_aliases(col).len() && 0 <= m2 < names.len() ==> names[m2] != ascii_lower(
            tycho2_aliases(col)[j],
        ) {
        lemma_alias_lookup_none(names, tycho2_aliases(col));
    }
}

/// The names a Gaia DR3 (archive and VizieR I/355) export gives each column, in priority order
/// (columns `source_id`, `ra`, `dec`, `plx`, `pmra`, `pmde`, `gmag`, `bp_rp`, `hip`, `hd`, numbered from 0): `source_id`: `source_id`, `Source`, `DR3Name`; `ra`: `ra`, `RA_ICRS`, `RAICRS`, `RAdeg`, `_RAJ2000`; `dec`: `dec`, `DE_ICRS`, `DEICRS`, `DEdeg`, `_DEJ2000`; `plx`: `parallax`, `Plx`; `pmra`: `pmra`, `pmRA`; `pmde`: `pmdec`, `pmDE`; `gmag`: `phot_g_mean_mag`, `Gmag`, `Gment`; `bp_rp`: `bp_rp`, `BP-RP`, `BPRP`; `hip`: `HIP`; `hd`: `HD`.
pub open spec fn gaia_aliases(col: int) -> Seq<Seq<char>> {
    if col == 0 {
        seq!["source_id"@, "Source"@, "DR3Name"@]
    } else if col == 1 {
        seq!["ra"@, "RA_ICRS"@, "RAICRS"@, "RAdeg"@, "_RAJ2000"@]
    } else if col == 2 {
        seq!["dec"@, "DE_ICRS"@, "DEICRS"@, "DEdeg"@, "_DEJ2000"@]
    } else if col == 3 {
        seq!["parallax"@, "Plx"@]
    } else if col == 4 {
        seq!["pmra"@, "pmRA"@]
    } else if col == 5 {
        seq!["pmdec"@, "pmDE"@]
    } else if col == 6 {
        seq!["phot_g_mean_mag"@, "Gmag"@, "Gment"@]
    } else if col == 7 {
        seq!["bp_rp"@, "BP-RP"@, "BPRP"@]
    } else if col == 8 {
        seq!["HIP"@]
    } else if col == 9 {
        seq!["HD"@]
    } else {
        Seq::empty()
    }
}

/// Column `col` (numbered as in [`gaia_aliases`]) of resolved columns.
pub open spec fn gaia_column(c: GaiaDr3Columns, col: int) -> Option<usize> {
    if col == 0 {
        c.source_id
    } else if col == 1 {
        c.ra
    } else if col == 2 {
        c.dec
    } else if col == 3 {
        c.plx
    } else if col == 4 {
        c.pmra
    } else if col == 5 {
        c.pmde
    } else if col == 6 {
        c.gmag
    } else if col == 7 {
        c.bp_rp
    } else if col == 8 {
        c.hip
    } else if col == 9 {
        c.hd
    } else {
        None
    }
}

/// Law: each column of a Gaia DR3 (archive and VizieR I/355) export is found under every name the
/// export gives it, in priority order: when no higher-priority name of the
/// column is in the header and name `k` is, first at position `m` (case
/// aside), the column is read from position `m`; when none of its names is
/// in the header, the column is missing.
pub proof fn lemma_gaia_columns(names: Seq<Seq<char>>, col: int, k: int, m: int)
    requires
        0 <= col < 10,
    ensures
        (0 <= m < names.len() && 0 <= k < gaia_aliases(col).len() && names[m] == ascii_lower(
            gaia_aliases(col)[k],
        ) && (forall|m2: int| 0 <= m2 < m ==> names[m2] != ascii_lower(gaia_aliases(col)[k]))
            && (forall|j: int, m2: int|
            0 <= j < k && 0 <= m2 < names.len() ==> names[m2] != ascii_lower(gaia_aliases(col)[j])))
            ==> gaia_column(GaiaDr3Columns::resolve_spec(names), col) == Some(m as usize),
        (forall|j: int, m2: int|
            0 <= j < gaia_aliases(col).len() && 0 <= m2 < names.len() ==> names[m2] != ascii_lower(
                gaia_aliases(col)[j],
            )) ==> gaia_column(GaiaDr3Columns::resolve_spec(names), col) is None,
{
    if 0 <= m < names.len() && 0 <= k < gaia_aliases(col).len() && names[m] == ascii_lower(
        gaia_aliases(col)[k],
    ) && (forall|m2: int| 0 <= m2 < m ==> names[m2] != ascii_lower(gaia_aliases(col)[k]))
        && (forall|j: int, m2: int|
        0 <= j < k && 0 <= m2 < names.len() ==> names[m2] != ascii_lower(gaia_aliases(col)[j])) {
        lemma_alias_lookup(names, gaia_aliases(col), k, m);
    }
    if forall|j: int, m2: int|
        0 <= j < gaia_aliases(col).len() && 0 <= m2 < names.len() ==> names[m2] != ascii_lower(
            gaia_aliases(col)[j],
        ) {
        lemma_alias_lookup_none(names, gaia_aliases(col));
    }
}

// ---------------------------------------------------------------------------
// Fields
// ---------------------------------------------------------------------------

/// The trimmed field at `index` of a record, or `None` when the index is
/// missing, past the last field, or the field is blank.
pub open spec fn field_spec(fields: Seq<Seq<char>>, index: Option<usize>) -> Option<Seq<char>> {
    match index {
        None => None,
        Some(i) => if i < fields.len() && trim(fields[i as int]).len() > 0 {
            Some(trim(fields[i as int]))
        } else {
            None
        },
    }
}

/// The field read as an unsigned integer no larger than `max`.
pub open spec fn unsigned_field_spec(fields: Seq<Seq<char>>, index: Option<usize>, max: nat) -> Option<
    nat,
> {
    match field_spec(fields, index) {
        Some(t) => parse_bounded(t, max),
        None => None,
    }
}

fn field_chars(record: &csv::StringRecord, index: Option<usize>) -> (r: Option<Vec<char>>)
    ensures
        match r {
            Some(v) => field_spec(record_fields(*record), index) == Some(v@),
            None => field_spec(record_fields(*record), index) is None,
        },
{
    let i = match index {
        Some(i) => i,
        None => return None,
    };
    let value = match record_get(record, i) {
        Some(v) => v,
        None => return None,
    };
    let t = trim_str(value);
    if t.len() == 0 {
        None
    } else {
        Some(t)
    }
}

/// Reads a trimmed, non-blank field from a record by column index.
pub fn field(record: &csv::StringRecord, index: Option<usize>) -> (r: Option<String>)
    ensures
        match r {
            Some(s) => field_spec(record_fields(*record), index) == Some(s@),
            None => field_spec(record_fields(*record), index) is None,
        },
{
    match field_chars(record, index) {
        Some(v) => Some(string_from_chars(&v)),
        None => None,
    }
}

/// Reads a field as a `u32`.
pub fn parse_u32(record: &csv::StringRecord, index: Option<usize>) -> (r: Option<u32>)
    ensures
        match r {
            Some(n) => unsigned_field_spec(record_fields(*record), index, u32::MAX as nat) == Some(
                n as nat,
            ),
            None => unsigned_field_spec(record_fields(*record), index, u32::MAX as nat) is None,
        },
{
    match field_chars(record, index) {
        Some(v) => match parse_unsigned_chars(&v, u32::MAX as u64) {
            Some(n) => Some(n as u32),
            None => None,
        },
        None => None,
    }
}

/// Reads a field as a `u64`.
pub fn parse_u64(record: &csv::StringRecord, index: Option<usize>) -> (r: Option<u64>)
    ensures
        match r {
            Some(n) => unsigned_field_spec(record_fields(*record), index, u64::MAX as nat) == Some(
                n as nat,
            ),
            None => unsigned_field_spec(record_fields(*record), index, u64::MAX as nat) is None,
        },
{
    match field_chars(record, index) {
        Some(v) => parse_unsigned_chars(&v, u64::MAX),
        None => None,
    }
}

// ---------------------------------------------------------------------------
// Catalogue columns and row identifiers
// ---------------------------------------------------------------------------

/// Columns of a Hipparcos (VizieR I/239) export.
#[derive(Debug, Clone, Copy, PartialEq, Eq, Structural)]
pub struct HipparcosColumns {
    pub hip: Option<usize>,
    pub ra: Option<usize>,
    pub dec: Option<usize>,
    pub vmag: Option<usize>,
    pub plx: Option<usize>,
    pub pmra: Option<usize>,
    pub pmde: Option<usize>,
    pub bv: Option<usize>,
    pub hd: Option<usize>,
}

impl HipparcosColumns {
    /// The columns of `names` that the fields are read from.
    pub open spec fn resolve_spec(names: Seq<Seq<char>>) -> Self {
        HipparcosColumns {
            hip: index_spec(names, seq!["HIP"@]),
            ra: index_spec(names, seq!["RAICRS"@, "RAdeg"@, "_RAJ2000"@, "ra"@]),
            dec: index_spec(names, seq!["DEICRS"@, "DEdeg"@, "_DEJ2000"@, "dec"@]),
            vmag: index_spec(names, seq!["Vmag"@, "V"@]),
            plx: index_spec(names, seq!["Plx"@, "parallax"@]),
            pmra: index_spec(names, seq!["pmRA"@, "pmra"@]),
            pmde: index_spec(names, seq!["pmDE"@, "pmdec"@]),
            bv: index_spec(names, seq!["B-V"@, "BV"@, "bp_rp"@]),
            hd: index_spec(names, seq!["HD"@]),
        }
    }

    /// Looks the columns up by their aliases.
    pub fn resolve(cols: &Columns) -> (r: Self)
        ensures
            r == Self::resolve_spec(cols.names_spec()),
    {
        let a_hip: [&str; 1] = ["HIP"];
        let hip = cols.index(a_hip.as_slice());
        assert(a_hip@.map_values(|s: &str| s@) =~= seq!["HIP"@]);
        let a_ra: [&str; 4] = ["RAICRS", "RAdeg", "_RAJ2000", "ra"];
        let ra = cols.index(a_ra.as_slice());
        assert(a_ra@.map_values(|s: &str| s@) =~= seq!["RAICRS"@, "RAdeg"@, "_RAJ2000"@, "ra"@]);
        let a_dec: [&str; 4] = ["DEICRS", "DEdeg", "_DEJ2000", "dec"];
        let dec = cols.index(a_dec.as_slice());
        assert(a_dec@.map_values(|s: &str| s@) =~= seq!["DEICRS"@, "DEdeg"@, "_DEJ2000"@, "dec"@]);
        let a_vmag: [&str; 2] = ["Vmag", "V"];
        let vmag = cols.index(a_vmag.as_slice());
        assert(a_vmag@.map_values(|s: &str| s@) =~= seq!["Vmag"@, "V"@]);
        let a_plx: [&str; 2] = ["Plx", "parallax"];
        let plx = cols.index(a_plx.as_slice());
        assert(a_plx@.map_values(|s: &str| s@) =~= seq!["Plx"@, "parallax"@]);
        let a_pmra: [&str; 2] = ["pmRA", "pmra"];
        let pmra = cols.index(a_pmra.as_slice());
        assert(a_pmra@.map_values(|s: &str| s@) =~= seq!["pmRA"@, "pmra"@]);
        let a_pmde: [&str; 2] = ["pmDE", "pmdec"];
        let pmde = cols.index(a_pmde.as_slice());
        assert(a_pmde@.map_values(|s: &str| s@) =~= seq!["pmDE"@, "pmdec"@]);
        let a_bv: [&str; 3] = ["B-V", "BV", "bp_rp"];
        let bv = cols.index(a_bv.as_slice());
        assert(a_bv@.map_values(|s: &str| s@) =~= seq!["B-V"@, "BV"@, "bp_rp"@]);
        let a_hd: [&str; 1] = ["HD"];
        let hd = cols.index(a_hd.as_slice());
        assert(a_hd@.map_values(|s: &str| s@) =~= seq!["HD"@]);
        HipparcosColumns { hip, ra, dec, vmag, plx, pmra, pmde, bv, hd }
    }
}

/// Columns of a Tycho-2 (VizieR I/259) export.
#[derive(Debug, Clone, Copy, PartialEq, Eq, Structural)]
pub struct Tycho2Columns {
    pub tyc1: Option<usize>,
    pub tyc2: Option<usize>,
    pub tyc3: Option<usize>,
    pub ra: Option<usize>,
    pub dec: Option<usize>,
    pub vt: Option<usize>,
    pub bt: Option<usize>,
    pub pmra: Option<usize>,
    pub pmde: Option<usize>,
    pub hip: Option<usize>,
}

impl Tycho2Columns {
    /// The columns of `names` that the fields are read from.
    pub open spec fn resolve_spec(names: Seq<Seq<char>>) -> Self {
        Tycho2Columns {
            tyc1: index_spec(names, seq!["TYC1"@]),
            tyc2: index_spec(names, seq!["TYC2"@]),
            tyc3: index_spec(names, seq!["TYC3"@]),
            ra: index_spec(names, seq!["RAmdeg"@, "RA_ICRS_"@, "RAICRS"@, "RAdeg"@, "_RAJ2000"@, "ra"@]),
            dec: index_spec(names, seq!["DEmdeg"@, "DE_ICRS_"@, "DEICRS"@, "DEdeg"@, "_DEJ2000"@, "dec"@]),
            vt: index_spec(names, seq!["VTmag"@, "VT"@]),
            bt: index_spec(names, seq!["BTmag"@, "BT"@]),
            pmra: index_spec(names, seq!["pmRA"@, "pmra"@]),
            pmde: index_spec(names, seq!["pmDE"@, "pmdec"@]),
            hip: index_spec(names, seq!["HIP"@]),
        }
    }

    /// Looks the columns up by their aliases.
    pub fn resolve(cols: &Columns) -> (r: Self)
        ensures
            r == Self::resolve_spec(cols.names_spec()),
    {
        let a_tyc1: [&str; 1] = ["TYC1"];
        let tyc1 = cols.index(a_tyc1.as_slice());
        assert(a_tyc1@.map_values(|s: &str| s@) =~= seq!["TYC1"@]);
        let a_tyc2: [&str; 1] = ["TYC2"];
        let tyc2 = cols.index(a_tyc2.as_slice());
        assert(a_tyc2@.map_values(|s: &str| s@) =~= seq!["TYC2"@]);
        let a_tyc3: [&str; 1] = ["TYC3"];
        let tyc3 = cols.index(a_tyc3.as_slice());
        assert(a_tyc3@.map_values(|s: &str| s@) =~= seq!["TYC3"@]);
        let a_ra: [&str; 6] = ["RAmdeg", "RA_ICRS_", "RAICRS", "RAdeg", "_RAJ2000", "ra"];
        let ra = cols.index(a_ra.as_slice());
        assert(a_ra@.map_values(|s: &str| s@) =~= seq!["RAmdeg"@, "RA_ICRS_"@, "RAICRS"@, "RAdeg"@, "_RAJ2000"@, "ra"@]);
        let a_dec: [&str; 6] = ["DEmdeg", "DE_ICRS_", "DEICRS", "DEdeg", "_DEJ2000", "dec"];
        let dec = cols.index(a_dec.as_slice());
        assert(a_dec@.map_values(|s: &str| s@) =~= seq!["DEmdeg"@, "DE_ICRS_"@, "DEICRS"@, "DEdeg"@, "_DEJ2000"@, "dec"@]);
        let a_vt: [&str; 2] = ["VTmag", "VT"];
        let vt = cols.index(a_vt.as_slice());
        assert(a_vt@.map_values(|s: &str| s@) =~= seq!["VTmag"@, "VT"@]);
        let a_bt: [&str; 2] = ["BTmag", "BT"];
        let bt = cols.index(a_bt.as_slice());
        assert(a_bt@.map_values(|s: &str| s@) =~= seq!["BTmag"@, "BT"@]);
        let a_pmra: [&str; 2] = ["pmRA", "pmra"];
        let pmra = cols.index(a_pmra.as_slice());
        assert(a_pmra@.map_values(|s: &str| s@) =~= seq!["pmRA"@, "pmra"@]);
        let a_pmde: [&str; 2] = ["pmDE", "pmdec"];
        let pmde = cols.index(a_pmde.as_slice());
        assert(a_pmde@.map_values(|s: &str| s@) =~= seq!["pmDE"@, "pmdec"@]);
        let a_hip: [&str; 1] = ["HIP"];
        let hip = cols.index(a_hip.as_slice());
        assert(a_hip@.map_values(|s: &str| s@) =~= seq!["HIP"@]);
        Tycho2Columns { tyc1, tyc2, tyc3, ra, dec, vt, bt, pmra, pmde, hip }
    }
}

/// Columns of a Gaia DR3 export.
#[derive(Debug, Clone, Copy, PartialEq, Eq, Structural)]
pub struct GaiaDr3Columns {
    pub source_id: Option<usize>,
    pub ra: Option<usize>,
    pub dec: Option<usize>,
    pub plx: Option<usize>,
    pub pmra: Option<usize>,
    pub pmde: Option<usize>,
    pub gmag: Option<usize>,
    pub bp_rp: Option<usize>,
    pub hip: Option<usize>,
    pub hd: Option<usize>,
}

impl GaiaDr3Columns {
    /// The columns of `names` that the fields are read from.
    pub open spec fn resolve_spec(names: Seq<Seq<char>>) -> Self {
        GaiaDr3Columns {
            source_id: index_spec(names, seq!["source_id"@, "Source"@, "DR3Name"@]),
            ra: index_spec(names, seq!["ra"@, "RA_ICRS"@, "RAICRS"@, "RAdeg"@, "_RAJ2000"@]),
            dec: index_spec(names, seq!["dec"@, "DE_ICRS"@, "DEICRS"@, "DEdeg"@, "_DEJ2000"@]),
            plx: index_spec(names, seq!["parallax"@, "Plx"@]),
            pmra: index_spec(names, seq!["pmra"@, "pmRA"@]),
            pmde: index_spec(names, seq!["pmdec"@, "pmDE"@]),
            gmag: index_spec(names, seq!["phot_g_mean_mag"@, "Gmag"@, "Gment"@]),
            bp_rp: index_spec(names, seq!["bp_rp"@, "BP-RP"@, "BPRP"@]),
            hip: index_spec(names, seq!["HIP"@]),
            hd: index_spec(names, seq!["HD"@]),
        }
    }

    /// Looks the columns up by their aliases.
    pub fn resolve(cols: &Columns) -> (r: Self)
        ensures
            r == Self::resolve_spec(cols.names_spec()),
    {
        let a_source_id: [&str; 3] = ["source_id", "Source", "DR3Name"];
        let source_id = cols.index(a_source_id.as_slice());
        assert(a_source_id@.map_values(|s: &str| s@) =~= seq!["source_id"@, "Source"@, "DR3Name"@]);
        let a_ra: [&str; 5] = ["ra", "RA_ICRS", "RAICRS", "RAdeg", "_RAJ2000"];
        let ra = cols.index(a_ra.as_slice());
        assert(a_ra@.map_values(|s: &str| s@) =~= seq!["ra"@, "RA_ICRS"@, "RAICRS"@, "RAdeg"@, "_RAJ2000"@]);
        let a_dec: [&str; 5] = ["dec", "DE_ICRS", "DEICRS", "DEdeg", "_DEJ2000"];
        let dec = cols.index(a_dec.as_slice());
        assert(a_dec@.map_values(|s: &str| s@) =~= seq!["dec"@, "DE_ICRS"@, "DEICRS"@, "DEdeg"@, "_DEJ2000"@]);
        let a_plx: [&str; 2] = ["parallax", "Plx"];
        let plx = cols.index(a_plx.as_slice());
        assert(a_plx@.map_values(|s: &str| s@) =~= seq!["parallax"@, "Plx"@]);
        let a_pmra: [&str; 2] = ["pmra", "pmRA"];
        let pmra = cols.index(a_pmra.as_slice());
        assert(a_pmra@.map_values(|s: &str| s@) =~= seq!["pmra"@, "pmRA"@]);
        let a_pmde: [&str; 2] = ["pmdec", "pmDE"];
        let pmde = cols.index(a_pmde.as_slice());
        assert(a_pmde@.map_values(|s: &str| s@) =~= seq!["pmdec"@, "pmDE"@]);
        let a_gmag: [&str; 3] = ["phot_g_mean_mag", "Gmag", "Gment"];
        let gmag = cols.index(a_gmag.as_slice());
        assert(a_gmag@.map_values(|s: &str| s@) =~= seq!["phot_g_mean_mag"@, "Gmag"@, "Gment"@]);
        let a_bp_rp: [&str; 3] = ["bp_rp", "BP-RP", "BPRP"];
        let bp_rp = cols.index(a_bp_rp.as_slice());
        assert(a_bp_rp@.map_values(|s: &str| s@) =~= seq!["bp_rp"@, "BP-RP"@, "BPRP"@]);
        let a_hip: [&str; 1] = ["HIP"];
        let hip = cols.index(a_hip.as_slice());
        assert(a_hip@.map_values(|s: &str| s@) =~= seq!["HIP"@]);
        let a_hd: [&str; 1] = ["HD"];
        let hd = cols.index(a_hd.as_slice());
        assert(a_hd@.map_values(|s: &str| s@) =~= seq!["HD"@]);
        GaiaDr3Columns { source_id, ra, dec, plx, pmra, pmde, gmag, bp_rp, hip, hd }
    }
}

/// The identifiers a Hipparcos row with fields `f` gives.
pub open spec fn hipparcos_identifiers_spec(f: Seq<Seq<char>>, cols: HipparcosColumns) -> Option<
    CatalogIdentifiers,
> {
    match unsigned_field_spec(f, cols.hip, u32::MAX as nat) {
        None => None,
        Some(hip) => Some(
            CatalogIdentifiers {
                primary: Some(CatalogObjectId::Hipparcos(hip as u32)),
                hyg: None,
                hip: Some(hip as u32),
                hd: match unsigned_field_spec(f, cols.hd, u32::MAX as nat) {
                    Some(n) => Some(n as u32),
                    None => None,
                },
                tycho2: None,
                gaia_dr3: None,
            },
        ),
    }
}

/// The identifiers of a Hipparcos row: `None` without a HIP number,
/// otherwise the HIP number as primary and the HD cross-ID when readable.
pub fn hipparcos_row_identifiers(record: &csv::StringRecord, cols: &HipparcosColumns) -> (r: Option<
    CatalogIdentifiers,
>)
    ensures
        r == hipparcos_identifiers_spec(record_fields(*record), *cols),
{
    match parse_u32(record, cols.hip) {
        Some(hip) => Some(CatalogIdentifiers::from_hipparcos_row(hip, parse_u32(record, cols.hd))),
        None => None,
    }
}

/// The identifiers a Tycho-2 row with fields `f` gives.
pub open spec fn tycho2_identifiers_spec(f: Seq<Seq<char>>, cols: Tycho2Columns) -> Option<
    CatalogIdentifiers,
> {
    let t1 = unsigned_field_spec(f, cols.tyc1, u32::MAX as nat);
    let t2 = unsigned_field_spec(f, cols.tyc2, u32::MAX as nat);
    let t3 = unsigned_field_spec(f, cols.tyc3, u32::MAX as nat);
    if t1 is Some && t2 is Some && t3 is Some {
        let packed = (((t1->0 as u32) as u64) << 24u64) | (((t2->0 as u32) as u64) << 4u64) | (((
        t3->0 as u32) as u64) & 0xFu64);
        Some(
            CatalogIdentifiers {
                primary: Some(CatalogObjectId::Tycho2(packed)),
                hyg: None,
                hip: match unsigned_field_spec(f, cols.hip, u32::MAX as nat) {
                    Some(n) => Some(n as u32),
                    None => None,
                },
                hd: None,
                tycho2: Some(packed),
                gaia_dr3: None,
            },
        )
    } else {
        None
    }
}

/// The identifiers of a Tycho-2 row: `None` unless all three parts of the
/// TYC designation are readable, otherwise the packed designation as
/// primary and the HIP cross-ID when readable.
pub fn tycho2_row_identifiers(record: &csv::StringRecord, cols: &Tycho2Columns) -> (r: Option<
    CatalogIdentifiers,
>)
    ensures
        r == tycho2_identifiers_spec(record_fields(*record), *cols),
{
    let tyc1 = parse_u32(record, cols.tyc1);
    let tyc2 = parse_u32(record, cols.tyc2);
    let tyc3 = parse_u32(record, cols.tyc3);
    match (tyc1, tyc2, tyc3) {
        (Some(a), Some(b), Some(c)) => Some(
            CatalogIdentifiers::from_tycho2_row(pack_tyc(a, b, c), parse_u32(record, cols.hip)),
        ),
        _ => None,
    }
}

/// The identifiers a Gaia DR3 row with fields `f` gives.
pub open spec fn gaia_identifiers_spec(f: Seq<Seq<char>>, cols: GaiaDr3Columns) -> Option<
    CatalogIdentifiers,
> {
    match unsigned_field_spec(f, cols.source_id, u64::MAX as nat) {
        None => None,
        Some(id) => Some(
            CatalogIdentifiers {
                primary: Some(CatalogObjectId::GaiaDr3(id as u64)),
                hyg: None,
                hip: match unsigned_field_spec(f, cols.hip, u32::MAX as nat) {
                    Some(n) => Some(n as u32),
                    None => None,
                },
                hd: match unsigned_field_spec(f, cols.hd, u32::MAX as nat) {
                    Some(n) => Some(n as u32),
                    None => None,
                },
                tycho2: None,
                gaia_dr3: Some(id as u64),
            },
        ),
    }
}

/// The identifiers of a Gaia DR3 row: `None` without a `source_id`,
/// otherwise the source id as primary and the HIP and HD cross-IDs when
/// readable.
pub fn gaia_row_identifiers(record: &csv::StringRecord, cols: &GaiaDr3Columns) -> (r: Option<
    CatalogIdentifiers,
>)
    ensures
        r == gaia_identifiers_spec(record_fields(*record), *cols),
{
    match parse_u64(record, cols.source_id) {
        Some(id) => Some(
            CatalogIdentifiers::from_gaia_row(
                id,
                parse_u32(record, cols.hip),
                parse_u32(record, cols.hd),
            ),
        ),
        None => None,
    }
}

// ---------------------------------------------------------------------------
// Paging
// ---------------------------------------------------------------------------

/// Applies a page's row cap: keeps at most `max_rows` rows and reports
/// whether any were dropped. Without a cap the page is kept whole.
pub fn cap_page<T>(rows: &mut Vec<T>, max_rows: Option<usize>) -> (truncated: bool)
    ensures
        match max_rows {
            Some(m) => {
                &&& truncated == (old(rows)@.len() > m)
                &&& final(rows)@ == (if old(rows)@.len() > m {
                    old(rows)@.take(m as int)
                } else {
                    old(rows)@
                })
            },
            None => !truncated && final(rows)@ == old(rows)@,
        },
{
    match max_rows {
        Some(m) => {
            let truncated = rows.len() > m;
            while rows.len() > m
                invariant
                    rows@.len() >= m ==> rows@ == old(rows)@.take(rows@.len() as int),
                    rows@.len() <= old(rows)@.len(),
                    old(rows)@.len() > m ==> rows@.len() >= m,
                    old(rows)@.len() <= m ==> rows@ == old(rows)@,
                decreases rows@.len(),
            {
                let ghost before = rows@;
                rows.pop();
                assert(rows@ =~= old(rows)@.take(rows@.len() as int));
            }
            truncated
        },
        None => false,
    }
}

// ---------------------------------------------------------------------------
// Backends
// ---------------------------------------------------------------------------

/// Why a catalogue backend failed to load.
#[derive(Debug)]
pub enum CatalogError {
    /// Reading the catalogue file failed.
    Io(std::io::Error),
}

#[verifier::external_type_specification]
#[verifier::external_body]
pub struct ExIoError(std::io::Error);

/// HYG catalogue read from a CSV file.
#[derive(Debug, Clone, PartialEq, Eq)]
pub struct HygCsvBackend {
    path: String,
}

impl HygCsvBackend {
    /// The backend reading the file at `path`.
    pub fn new(path: String) -> (r: Self)
        ensures
            r.path_spec() == path@,
    {
        HygCsvBackend { path }
    }

    /// Path of the catalogue file.
    pub closed spec fn path_spec(&self) -> Seq<char> {
        self.path@
    }

    pub fn path(&self) -> (r: &str)
        ensures
            r@ == self.path_spec(),
    {
        self.path.as_str()
    }

    /// The catalogue this backend serves.
    pub fn source(&self) -> (r: CatalogSource)
        ensures
            r == CatalogSource::hyg_csv_spec(),
    {
        CatalogSource::hyg_csv()
    }
}

/// HYG catalogue compiled into the binary.
#[derive(Debug, Clone, Copy, Default, PartialEq, Eq)]
pub struct HygEmbeddedBackend;

impl HygEmbeddedBackend {
    /// The catalogue this backend serves.
    pub fn source(&self) -> (r: CatalogSource)
        ensures
            r == CatalogSource::hyg_embedded_spec(),
    {
        CatalogSource::hyg_embedded()
    }
}

/// Hipparcos main catalogue read from a CSV export (VizieR I/239).
#[derive(Debug, Clone, PartialEq, Eq)]
pub struct HipparcosCsvBackend {
    path: String,
}

impl HipparcosCsvBackend {
    /// The backend reading the file at `path`.
    pub fn new(path: String) -> (r: Self)
        ensures
            r.path_spec() == path@,
    {
        HipparcosCsvBackend { path }
    }

    /// Path of the catalogue file.
    pub closed spec fn path_spec(&self) -> Seq<char> {
        self.path@
    }

    pub fn path(&self) -> (r: &str)
        ensures
            r@ == self.path_spec(),
    {
        self.path.as_str()
    }

    /// The catalogue this backend serves.
    pub fn source(&self) -> (r: CatalogSource)
        ensures
            r == CatalogSource::hipparcos_spec(),
    {
        CatalogSource::hipparcos()
    }
}

/// Tycho-2 catalogue read from a CSV export (VizieR I/259).
#[derive(Debug, Clone, PartialEq, Eq)]
pub struct Tycho2CsvBackend {
    path: String,
}

impl Tycho2CsvBackend {
    /// The backend reading the file at `path`.
    pub fn new(path: String) -> (r: Self)
        ensures
            r.path_spec() == path@,
    {
        Tycho2CsvBackend { path }
    }

    /// Path of the catalogue file.
    pub closed spec fn path_spec(&self) -> Seq<char> {
        self.path@
    }

    pub fn path(&self) -> (r: &str)
        ensures
            r@ == self.path_spec(),
    {
        self.path.as_str()
    }

    /// The catalogue this backend serves.
    pub fn source(&self) -> (r: CatalogSource)
        ensures
            r == CatalogSource::tycho2_spec(),
    {
        CatalogSource::tycho2()
    }
}

/// Gaia DR3 sources read from a CSV export.
#[derive(Debug, Clone, PartialEq, Eq)]
pub struct GaiaDr3CsvBackend {
    path: String,
}

impl GaiaDr3CsvBackend {
    /// The backend reading the file at `path`.
    pub fn new(path: String) -> (r: Self)
        ensures
            r.path_spec() == path@,
    {
        GaiaDr3CsvBackend { path }
    }

    /// Path of the catalogue file.
    pub closed spec fn path_spec(&self) -> Seq<char> {
        self.path@
    }

    pub fn path(&self) -> (r: &str)
        ensures
            r@ == self.path_spec(),
    {
        self.path.as_str()
    }

    /// The catalogue this backend serves.
    pub fn source(&self) -> (r: CatalogSource)
        ensures
            r == CatalogSource::gaia_dr3_spec(),
    {
        CatalogSource::gaia_dr3()
    }
}


// ---------------------------------------------------------------------------
// Catalogue exports
// ---------------------------------------------------------------------------

/// The header and the records of a CSV text read leniently (records may
/// differ in length), every field trimmed: `None` for a header or a record
/// that the reader rejects.
pub uninterp spec fn flexible_csv_records(text: Seq<char>) -> (Option<Seq<Seq<char>>>, Seq<
    Option<Seq<Seq<char>>>,
>);

/// `csv::ReaderBuilder` with `flexible(true)` and `Trim::All` over the bytes
/// of `text`: its `headers()` (kept, or `None` on an error) and the records
/// its `records()` iterator yields (each kept, or `None` on an error). What
/// the header and records are is named, not stated.
#[verifier::external_body]
fn flexible_trimmed_records(text: &str) -> (r: (Option<csv::StringRecord>, Vec<Option<csv::StringRecord>>))
    ensures
        match flexible_csv_records(text@).0 {
            Some(h) => r.0 matches Some(rec) && record_fields(rec) == h,
            None => r.0 is None,
        },
        r.1@.len() == flexible_csv_records(text@).1.len(),
        forall|i: int|
            0 <= i < r.1@.len() ==> match flexible_csv_records(text@).1[i] {
                Some(f) => #[trigger] r.1@[i] matches Some(rec) && record_fields(rec) == f,
                None => r.1@[i] is None,
            },
{
    let mut reader = csv::ReaderBuilder::new().flexible(true).trim(csv::Trim::All).from_reader(
        text.as_bytes(),
    );
    let header = reader.headers().ok().cloned();
    (header, reader.records().map(|rec| rec.ok()).collect())
}

/// The resolved columns of one of the catalogue exports.
#[derive(Debug, Clone, Copy)]
pub enum ExportColumns {
    Hipparcos(HipparcosColumns),
    Tycho2(Tycho2Columns),
    GaiaDr3(GaiaDr3Columns),
}

impl ExportColumns {
    /// The identifiers a row with fields `f` gives.
    pub open spec fn identifiers_spec(self, f: Seq<Seq<char>>) -> Option<CatalogIdentifiers> {
        match self {
            ExportColumns::Hipparcos(c) => hipparcos_identifiers_spec(f, c),
            ExportColumns::Tycho2(c) => tycho2_identifiers_spec(f, c),
            ExportColumns::GaiaDr3(c) => gaia_identifiers_spec(f, c),
        }
    }

    /// The columns of the numeric values a row carries, in order:
    /// Hipparcos `ra, dec, vmag, plx, pmra, pmde, bv`; Tycho-2
    /// `ra, dec, vt, bt, pmra, pmde`; Gaia DR3
    /// `ra, dec, plx, pmra, pmde, gmag, bp_rp`.
    pub open spec fn value_columns(self) -> Seq<Option<usize>> {
        match self {
            ExportColumns::Hipparcos(c) => seq![c.ra, c.dec, c.vmag, c.plx, c.pmra, c.pmde, c.bv],
            ExportColumns::Tycho2(c) => seq![c.ra, c.dec, c.vt, c.bt, c.pmra, c.pmde],
            ExportColumns::GaiaDr3(c) => seq![c.ra, c.dec, c.plx, c.pmra, c.pmde, c.gmag, c.bp_rp],
        }
    }

    fn identifiers(&self, record: &csv::StringRecord) -> (r: Option<CatalogIdentifiers>)
        ensures
            r == self.identifiers_spec(record_fields(*record)),
    {
        match self {
            ExportColumns::Hipparcos(c) => hipparcos_row_identifiers(record, c),
            ExportColumns::Tycho2(c) => tycho2_row_identifiers(record, c),
            ExportColumns::GaiaDr3(c) => gaia_row_identifiers(record, c),
        }
    }

    fn value_column_list(&self) -> (r: Vec<Option<usize>>)
        ensures
            r@ == self.value_columns(),
    {
        let r = match self {
            ExportColumns::Hipparcos(c) => vec![c.ra, c.dec, c.vmag, c.plx, c.pmra, c.pmde, c.bv],
            ExportColumns::Tycho2(c) => vec![c.ra, c.dec, c.vt, c.bt, c.pmra, c.pmde],
            ExportColumns::GaiaDr3(c) => vec![c.ra, c.dec, c.plx, c.pmra, c.pmde, c.gmag, c.bp_rp],
        };
        assert(r@ =~= self.value_columns());
        r
    }
}

/// One row of a catalogue export: its identifiers and the trimmed text of
/// each numeric column (`None` when missing or blank), for the host to read
/// as numbers.
#[derive(Debug, Clone, PartialEq, Eq)]
pub struct ExportRow {
    pub identifiers: CatalogIdentifiers,
    pub values: Vec<Option<String>>,
}

/// An [`ExportRow`] as plain values.
pub ghost struct ExportRowView {
    pub identifiers: CatalogIdentifiers,
    pub values: Seq<Option<Seq<char>>>,
}

impl View for ExportRow {
    type V = ExportRowView;

    open spec fn view(&self) -> ExportRowView {
        ExportRowView {
            identifiers: self.identifiers,
            values: self.values@.map_values(|v: Option<String>|
                match v {
                    Some(t) => Some(t@),
                    None => None,
                }),
        }
    }
}

/// The row a record with fields `f` gives: none without identifiers.
pub open spec fn export_row_spec(cols: ExportColumns, f: Seq<Seq<char>>) -> Option<ExportRowView> {
    match cols.identifiers_spec(f) {
        None => None,
        Some(ids) => Some(
            ExportRowView {
                identifiers: ids,
                values: cols.value_columns().map_values(|c: Option<usize>| field_spec(f, c)),
            },
        ),
    }
}

/// The rows of a run of records, in order; rejected records and records
/// without identifiers are skipped.
pub open spec fn export_rows_spec(cols: ExportColumns, recs: Seq<Option<Seq<Seq<char>>>>) -> Seq<
    ExportRowView,
>
    decreases recs.len(),
{
    if recs.len() == 0 {
        Seq::empty()
    } else {
        let prev = export_rows_spec(cols, recs.drop_last());
        match recs.last() {
            Some(f) => match export_row_spec(cols, f) {
                Some(r) => prev.push(r),
                None => prev,
            },
            None => prev,
        }
    }
}

/// The views of a list of rows.
pub open spec fn export_views(rows: Seq<ExportRow>) -> Seq<ExportRowView> {
    rows.map_values(|r: ExportRow| r@)
}

fn export_row(cols: &ExportColumns, record: &csv::StringRecord) -> (r: Option<ExportRow>)
    ensures
        match export_row_spec(*cols, record_fields(*record)) {
            Some(v) => r matches Some(row) && row@ == v,
            None => r is None,
        },
{
    let ids = match cols.identifiers(record) {
        Some(i) => i,
        None => return None,
    };
    let columns = cols.value_column_list();
    let ghost f = record_fields(*record);
    let mut values: Vec<Option<String>> = Vec::new();
    let mut k: usize = 0;
    while k < columns.len()
        invariant
            k <= columns@.len(),
            columns@ == cols.value_columns(),
            f == record_fields(*record),
            values@.len() == k,
            forall|j: int|
                0 <= j < k ==> (match #[trigger] values@[j] {
                    Some(t) => Some(t@),
                    None => None,
                }) == field_spec(f, columns@[j]),
        decreases columns@.len() - k,
    {
        values.push(field(record, columns[k]));
        k += 1;
    }
    let row = ExportRow { identifiers: ids, values };
    assert(row@.values =~= cols.value_columns().map_values(|c: Option<usize>| field_spec(f, c)));
    Some(row)
}

fn export_rows(cols: &ExportColumns, records: &[Option<csv::StringRecord>]) -> (r: Vec<ExportRow>)
    ensures
        export_views(r@) == export_rows_spec(*cols, record_views(records@)),
{
    let ghost recs = record_views(records@);
    let mut out: Vec<ExportRow> = Vec::new();
    let mut i: usize = 0;
    while i < records.len()
        invariant
            i <= records@.len(),
            recs == record_views(records@),
            export_views(out@) == export_rows_spec(*cols, recs.take(i as int)),
        decreases records@.len() - i,
    {
        proof {
            assert(recs.take(i + 1).drop_last() =~= recs.take(i as int));
            assert(recs.take(i + 1).last() == recs[i as int]);
        }
        match &records[i] {
            Some(rec) => match export_row(cols, rec) {
                Some(row) => {
                    let ghost before = out@;
                    out.push(row);
                    assert(export_views(out@) =~= export_views(before).push(out@.last()@));
                },
                None => {},
            },
            None => {},
        }
        i += 1;
    }
    proof {
        assert(recs.take(i as int) =~= recs);
    }
    out
}

/// The fields of each record that was read, `None` for one that was not.
pub open spec fn record_views(records: Seq<Option<csv::StringRecord>>) -> Seq<Option<Seq<Seq<char>>>> {
    records.map_values(|o: Option<csv::StringRecord>|
        match o {
            Some(r) => Some(record_fields(r)),
            None => None,
        })
}

/// The rows of an export whose header and records are `csv`; no rows when
/// the header could not be read. `resolve` picks the columns from the
/// normalised header names.
pub open spec fn export_records_spec(
    csv: (Option<Seq<Seq<char>>>, Seq<Option<Seq<Seq<char>>>>),
    which: int,
) -> Seq<ExportRowView> {
    match csv.0 {
        None => Seq::empty(),
        Some(h) => {
            let names = h.map_values(|f: Seq<char>| header_name(f));
            let cols = if which == 0 {
                ExportColumns::Hipparcos(HipparcosColumns::resolve_spec(names))
            } else if which == 1 {
                ExportColumns::Tycho2(Tycho2Columns::resolve_spec(names))
            } else {
                ExportColumns::GaiaDr3(GaiaDr3Columns::resolve_spec(names))
            };
            export_rows_spec(cols, csv.1)
        },
    }
}

fn export_records(text: &str, which: u8) -> (r: Vec<ExportRow>)
    requires
        which <= 2,
    ensures
        export_views(r@) == export_records_spec(flexible_csv_records(text@), which as int),
{
    let (header, records) = flexible_trimmed_records(text);
    let ghost csv = flexible_csv_records(text@);
    proof {
        assert(record_views(records@) =~= csv.1);
    }
    match header {
        None => {
            let empty: Vec<ExportRow> = Vec::new();
            assert(export_views(empty@) =~= Seq::<ExportRowView>::empty());
            empty
        },
        Some(h) => {
            let names = Columns::from_header(&h);
            let cols = if which == 0 {
                ExportColumns::Hipparcos(HipparcosColumns::resolve(&names))
            } else if which == 1 {
                ExportColumns::Tycho2(Tycho2Columns::resolve(&names))
            } else {
                ExportColumns::GaiaDr3(GaiaDr3Columns::resolve(&names))
            };
            export_rows(&cols, &records)
        },
    }
}

/// The rows of a Hipparcos (VizieR I/239) CSV export: rows with a HIP
/// number, with their identifiers and the text of `ra, dec, vmag, plx,
/// pmra, pmde, bv`.
pub fn hipparcos_records(text: &str) -> (r: Vec<ExportRow>)
    ensures
        export_views(r@) == export_records_spec(flexible_csv_records(text@), 0),
{
    export_records(text, 0)
}

/// The rows of a Tycho-2 (VizieR I/259) CSV export: rows with all three
/// TYC parts, with their identifiers and the text of `ra, dec, vt, bt,
/// pmra, pmde`.
pub fn tycho2_records(text: &str) -> (r: Vec<ExportRow>)
    ensures
        export_views(r@) == export_records_spec(flexible_csv_records(text@), 1),
{
    export_records(text, 1)
}

/// The rows of a Gaia DR3 CSV export: rows with a source id, with their
/// identifiers and the text of `ra, dec, plx, pmra, pmde, gmag, bp_rp`.
pub fn gaia_dr3_records(text: &str) -> (r: Vec<ExportRow>)
    ensures
        export_views(r@) == export_records_spec(flexible_csv_records(text@), 2),
{
    export_records(text, 2)
}

} // verus!
