//! Light-curve classes of the variable-star table.
use vstd::prelude::*;

use crate::ingest::{ascii_lower, ascii_lower_exec};
use crate::ranking::has_prefix;
use crate::tables::{lemma_table_row_width, read_table, table_rows_spec, TableError, TableRow};
use crate::text::{chars_eq, chars_of, parse_bounded, parse_unsigned_chars, str_eq, string_from_chars, trim, trim_str};

verus! {

/// Light-curve class of a variable star.
#[derive(Debug, Clone, Copy, PartialEq, Eq, Structural)]
pub enum VariableType {
    /// Long-period (Mira) pulsating giant.
    Mira,
    /// Semiregular pulsating variable.
    SemiRegular,
    /// Classical Cepheid pulsator.
    Cepheid,
    /// RR Lyrae short-period pulsator.
    RrLyrae,
    /// Algol-type (EA) eclipsing binary.
    Algol,
}

impl VariableType {
    /// Stable lower-case identifier used in the data file and host output.
    pub open spec fn as_str_spec(self) -> Seq<char> {
        match self {
            VariableType::Mira => "mira"@,
            VariableType::SemiRegular => "semiregular"@,
            VariableType::Cepheid => "cepheid"@,
            VariableType::RrLyrae => "rrlyrae"@,
            VariableType::Algol => "algol"@,
        }
    }

    /// The class a data-file identifier names.
    pub open spec fn parse_spec(s: Seq<char>) -> Option<VariableType> {
        if s == "mira"@ {
            Some(VariableType::Mira)
        } else if s == "semiregular"@ {
            Some(VariableType::SemiRegular)
        } else if s == "cepheid"@ {
            Some(VariableType::Cepheid)
        } else if s == "rrlyrae"@ {
            Some(VariableType::RrLyrae)
        } else if s == "algol"@ {
            Some(VariableType::Algol)
        } else {
            None
        }
    }

    pub fn as_str(self) -> (r: &'static str)
        ensures
            r@ == self.as_str_spec(),
    {
        match self {
            VariableType::Mira => "mira",
            VariableType::SemiRegular => "semiregular",
            VariableType::Cepheid => "cepheid",
            VariableType::RrLyrae => "rrlyrae",
            VariableType::Algol => "algol",
        }
    }

    /// True when this class uses the eclipsing-binary light-curve model.
    pub fn is_eclipsing(self) -> (r: bool)
        ensures
            r == (self == VariableType::Algol),
    {
        matches!(self, VariableType::Algol)
    }

    /// Parses a data-file identifier.
    pub fn parse(s: &str) -> (r: Option<VariableType>)
        ensures
            r == Self::parse_spec(s@),
    {
        if str_eq(s, "mira") {
            Some(VariableType::Mira)
        } else if str_eq(s, "semiregular") {
            Some(VariableType::SemiRegular)
        } else if str_eq(s, "cepheid") {
            Some(VariableType::Cepheid)
        } else if str_eq(s, "rrlyrae") {
            Some(VariableType::RrLyrae)
        } else if str_eq(s, "algol") {
            Some(VariableType::Algol)
        } else {
            None
        }
    }
}

/// Law: every class parses back from its identifier.
pub proof fn lemma_variable_type_round_trip(t: VariableType)
    ensures
        VariableType::parse_spec(t.as_str_spec()) == Some(t),
{
    reveal_strlit("mira");
    reveal_strlit("semiregular");
    reveal_strlit("cepheid");
    reveal_strlit("rrlyrae");
    reveal_strlit("algol");
    let m = "mira"@;
    let s = "semiregular"@;
    let c = "cepheid"@;
    let r = "rrlyrae"@;
    let a = "algol"@;
    assert(m != s && m != c && m != r && m != a) by {
        assert(m.len() != s.len() && m.len() != c.len() && m[0] != r[0] && m[0] != a[0]);
    }
    assert(s != c && s != r && s != a) by {
        assert(s.len() != c.len() && s.len() != r.len() && s.len() != a.len());
    }
    assert(c != r && c != a) by {
        assert(c[0] != r[0] && c.len() != a.len());
    }
    assert(r != a) by {
        assert(r.len() != a.len());
    }
}

/// Law: each class has its own lower-case identifier, the one the data file
/// and the host output use: `mira` (Mira), `semiregular` (semiregular),
/// `cepheid` (Cepheid), `rrlyrae` (RR Lyrae) and `algol` (Algol-type
/// eclipsing binary); an identifier parses to the class it names and to no
/// other, and only the Algol class is eclipsing.
pub proof fn lemma_variable_type_names(t: VariableType, text: Seq<char>)
    ensures
        t.as_str_spec() == "mira"@ <==> t == VariableType::Mira,
        t.as_str_spec() == "semiregular"@ <==> t == VariableType::SemiRegular,
        t.as_str_spec() == "cepheid"@ <==> t == VariableType::Cepheid,
        t.as_str_spec() == "rrlyrae"@ <==> t == VariableType::RrLyrae,
        t.as_str_spec() == "algol"@ <==> t == VariableType::Algol,
        VariableType::parse_spec(text) == Some(t) <==> text == t.as_str_spec(),
        (t == VariableType::Algol) <==> t.as_str_spec() == "algol"@,
{
    lemma_variable_type_round_trip(t);
    lemma_variable_type_round_trip(VariableType::Mira);
    reveal_strlit("mira");
    reveal_strlit("semiregular");
    reveal_strlit("cepheid");
    reveal_strlit("rrlyrae");
    reveal_strlit("algol");
    let m = "mira"@;
    let s = "semiregular"@;
    let c = "cepheid"@;
    let r = "rrlyrae"@;
    let a = "algol"@;
    assert(m != s && m != c && m != r && m != a) by {
        assert(m.len() != s.len() && m.len() != c.len() && m[0] != r[0] && m[0] != a[0]);
    }
    assert(s != c && s != r && s != a) by {
        assert(s.len() != c.len() && s.len() != r.len() && s.len() != a.len());
    }
    assert(c != r && c != a) by {
        assert(c[0] != r[0] && c.len() != a.len());
    }
    assert(r != a) by {
        assert(r.len() != a.len());
    }
}

// ---------------------------------------------------------------------------
// The variable-star table
// ---------------------------------------------------------------------------

/// Header line of the variable-star table.
pub open spec fn variable_header() -> Seq<char> {
    "name,hip,hd,var_type,period_days,epoch_jd,mag_bright,mag_faint,secondary_depth_mag,eclipse_half_width,reference"@
}

/// Why the variable-star table could not be read.
#[derive(Debug, Clone, Copy, PartialEq, Eq, Structural)]
pub enum VariableTableError {
    /// The table layout is wrong (header or column count).
    Table(TableError),
    /// A row names an unknown light-curve class.
    UnknownVarType { line: usize },
}

/// One row of the variable-star table. The six light-curve elements
/// (period, epoch, bright and faint magnitude, secondary depth, eclipse
/// half-width) are kept as their trimmed text.
#[derive(Debug, Clone, PartialEq, Eq)]
pub struct VariableRow {
    pub line: usize,
    pub name: String,
    pub hip: Option<u32>,
    pub hd: Option<u32>,
    pub var_type: VariableType,
    pub elements: Vec<String>,
    pub reference: String,
}

/// A [`VariableRow`] as plain values.
pub ghost struct VariableRowView {
    pub line: int,
    pub name: Seq<char>,
    pub hip: Option<u32>,
    pub hd: Option<u32>,
    pub var_type: VariableType,
    pub elements: Seq<Seq<char>>,
    pub reference: Seq<char>,
}

impl View for VariableRow {
    type V = VariableRowView;

    open spec fn view(&self) -> VariableRowView {
        VariableRowView {
            line: self.line as int,
            name: self.name@,
            hip: self.hip,
            hd: self.hd,
            var_type: self.var_type,
            elements: self.elements@.map_values(|e: String| e@),
            reference: self.reference@,
        }
    }
}

/// A catalogue number field: a positive `u32`; `0` or anything unreadable
/// means no number.
pub open spec fn catalogue_id_spec(f: Seq<char>) -> Option<u32> {
    match parse_bounded(f, u32::MAX as nat) {
        Some(n) => if n == 0 {
            None
        } else {
            Some(n as u32)
        },
        None => None,
    }
}

/// How one table row reads.
pub open spec fn variable_row_spec(line: int, f: Seq<Seq<char>>) -> Result<VariableRowView, VariableTableError> {
    match VariableType::parse_spec(f[3]) {
        None => Err(VariableTableError::UnknownVarType { line: line as usize }),
        Some(t) => Ok(
            VariableRowView {
                line,
                name: f[0],
                hip: catalogue_id_spec(f[1]),
                hd: catalogue_id_spec(f[2]),
                var_type: t,
                elements: f.subrange(4, 10),
                reference: f[10],
            },
        ),
    }
}

/// The rows read from table rows, or the first row error.
pub open spec fn variable_rows_of(rows: Seq<(int, Seq<Seq<char>>)>) -> Result<Seq<VariableRowView>, VariableTableError>
    decreases rows.len(),
{
    if rows.len() == 0 {
        Ok(Seq::empty())
    } else {
        match variable_rows_of(rows.drop_last()) {
            Err(e) => Err(e),
            Ok(prev) => match variable_row_spec(rows.last().0, rows.last().1) {
                Err(e) => Err(e),
                Ok(r) => Ok(prev.push(r)),
            },
        }
    }
}

/// The rows of a variable-star table text, or the first error met.
pub open spec fn variable_table_spec(text: Seq<char>) -> Result<Seq<VariableRowView>, VariableTableError> {
    match table_rows_spec(text, variable_header(), 11) {
        Err(e) => Err(VariableTableError::Table(e)),
        Ok(rows) => variable_rows_of(rows),
    }
}

fn catalogue_id(f: &String) -> (r: Option<u32>)
    ensures
        r == catalogue_id_spec(f@),
{
    let v = chars_of(f.as_str());
    match parse_unsigned_chars(&v, u32::MAX as u64) {
        Some(n) => if n == 0 {
            None
        } else {
            Some(n as u32)
        },
        None => None,
    }
}

fn copy_string(s: &String) -> (r: String)
    ensures
        r@ == s@,
{
    string_from_chars(&chars_of(s.as_str()))
}

fn variable_row(row: &TableRow) -> (r: Result<VariableRow, VariableTableError>)
    requires
        row.fields@.len() == 11,
    ensures
        match variable_row_spec(row.view_pair().0, row.view_pair().1) {
            Ok(v) => r is Ok && r->Ok_0@ == v,
            Err(e) => r == Err::<VariableRow, VariableTableError>(e),
        },
{
    let f = &row.fields;
    let ghost fv = row.view_pair().1;
    assert(fv[3] == f@[3]@);
    let t = match VariableType::parse(f[3].as_str()) {
        Some(t) => t,
        None => return Err(VariableTableError::UnknownVarType { line: row.line }),
    };
    let mut elements: Vec<String> = Vec::new();
    let mut k: usize = 4;
    while k < 10
        invariant
            4 <= k <= 10,
            f@.len() == 11,
            elements@.len() == k - 4,
            forall|j: int| 0 <= j < k - 4 ==> #[trigger] elements@[j]@ == f@[j + 4]@,
        decreases 10 - k,
    {
        elements.push(copy_string(&f[k]));
        k += 1;
    }
    let r = VariableRow {
        line: row.line,
        name: copy_string(&f[0]),
        hip: catalogue_id(&f[1]),
        hd: catalogue_id(&f[2]),
        var_type: t,
        elements,
        reference: copy_string(&f[10]),
    };
    assert(r@.elements =~= fv.subrange(4, 10));
    Ok(r)
}

/// Reads the variable-star table.
pub fn parse_variable_rows(text: &str) -> (r: Result<Vec<VariableRow>, VariableTableError>)
    ensures
        match variable_table_spec(text@) {
            Ok(rows) => r is Ok && r->Ok_0@.len() == rows.len() && forall|i: int|
                0 <= i < rows.len() ==> #[trigger] r->Ok_0@[i]@ == rows[i],
            Err(e) => r == Err::<Vec<VariableRow>, VariableTableError>(e),
        },
{
    let rows = match read_table(
        text,
        "name,hip,hd,var_type,period_days,epoch_jd,mag_bright,mag_faint,secondary_depth_mag,eclipse_half_width,reference",
        11,
    ) {
        Ok(rows) => rows,
        Err(e) => return Err(VariableTableError::Table(e)),
    };
    let ghost rs = match table_rows_spec(text@, variable_header(), 11) {
        Ok(x) => x,
        Err(_) => Seq::empty(),
    };
    let mut out: Vec<VariableRow> = Vec::new();
    let mut i: usize = 0;
    proof {
        assert(rs.take(0) =~= Seq::<(int, Seq<Seq<char>>)>::empty());
    }
    while i < rows.len()
        invariant
            i <= rows@.len(),
            table_rows_spec(text@, variable_header(), 11) == Ok::<Seq<(int, Seq<Seq<char>>)>, TableError>(rs),
            rows@.len() == rs.len(),
            forall|k: int| 0 <= k < rs.len() ==> #[trigger] rows@[k].view_pair() == rs[k],
            variable_rows_of(rs.take(i as int)) matches Ok(vs) && vs.len() == out@.len()
                && forall|k: int| 0 <= k < out@.len() ==> #[trigger] out@[k]@ == vs[k],
        decreases rows@.len() - i,
    {
        proof {
            assert(rs.take(i + 1).drop_last() =~= rs.take(i as int));
            assert(rs.take(i + 1).last() == rs[i as int]);
            lemma_table_row_width(text@, variable_header(), 11, i as int);
            assert(rows@[i as int].view_pair().1.len() == rows@[i as int].fields@.len());
        }
        match variable_row(&rows[i]) {
            Ok(v) => out.push(v),
            Err(e) => {
                proof {
                    lemma_variable_rows_err(rs, i + 1);
                }
                return Err(e);
            },
        }
        i += 1;
    }
    proof {
        assert(rs.take(i as int) =~= rs);
    }
    Ok(out)
}

proof fn lemma_variable_rows_err(rows: Seq<(int, Seq<Seq<char>>)>, i: int)
    requires
        0 <= i <= rows.len(),
        variable_rows_of(rows.take(i)) is Err,
    ensures
        variable_rows_of(rows) == variable_rows_of(rows.take(i)),
    decreases rows.len() - i,
{
    if i < rows.len() {
        assert(rows.take(i + 1).drop_last() =~= rows.take(i));
        lemma_variable_rows_err(rows, i + 1);
    } else {
        assert(rows.take(i) =~= rows);
    }
}

// ---------------------------------------------------------------------------
// Matching a catalogue star to its variable-star row
// ---------------------------------------------------------------------------

/// Index of the first row satisfying `p`.
pub open spec fn first_index(rows: Seq<VariableRowView>, p: spec_fn(VariableRowView) -> bool) -> Option<int>
    decreases rows.len(),
{
    if rows.len() == 0 {
        None
    } else if p(rows[0]) {
        Some(0)
    } else {
        match first_index(rows.drop_first(), p) {
            Some(i) => Some(i + 1),
            None => None,
        }
    }
}

/// True when the lower-cased label names the star called `needle`: the whole
/// label, or its leading part before a parenthesised alias.
pub open spec fn label_names(label: Seq<char>, needle: Seq<char>) -> bool {
    label == needle || has_prefix(label, needle + " ("@)
}

/// The row a catalogue star matches: first by Hipparcos number, then by
/// Henry Draper number, then by (ASCII case-insensitive, trimmed) proper name.
pub open spec fn variable_index_spec(
    rows: Seq<VariableRowView>,
    hip: Option<u32>,
    hd: Option<u32>,
    name: Option<Seq<char>>,
) -> Option<int> {
    let by_hip = match hip {
        Some(h) => first_index(rows, |r: VariableRowView| r.hip == Some(h)),
        None => None,
    };
    let by_hd = match hd {
        Some(d) => first_index(rows, |r: VariableRowView| r.hd == Some(d)),
        None => None,
    };
    let by_name = match name {
        Some(n) => {
            let needle = ascii_lower(trim(n));
            if needle.len() > 0 {
                first_index(rows, |r: VariableRowView| label_names(ascii_lower(r.name), needle))
            } else {
                None
            }
        },
        None => None,
    };
    if by_hip is Some {
        by_hip
    } else if by_hd is Some {
        by_hd
    } else {
        by_name
    }
}

proof fn lemma_first_index(rows: Seq<VariableRowView>, p: spec_fn(VariableRowView) -> bool)
    ensures
        match first_index(rows, p) {
            Some(i) => 0 <= i < rows.len() && p(rows[i]) && forall|j: int| 0 <= j < i ==> !p(#[trigger] rows[j]),
            None => forall|j: int| 0 <= j < rows.len() ==> !p(#[trigger] rows[j]),
        },
    decreases rows.len(),
{
    if rows.len() > 0 && !p(rows[0]) {
        lemma_first_index(rows.drop_first(), p);
        assert forall|j: int| 0 < j < rows.len() implies #[trigger] rows[j] == rows.drop_first()[j - 1] by {}
    }
}

fn first_matching(
    rows: &[VariableRow],
    Ghost(p): Ghost<spec_fn(VariableRowView) -> bool>,
    kind: u8,
    key: u32,
    needle: &Vec<char>,
) -> (r: Option<usize>)
    requires
        kind == 0 ==> p == (|r: VariableRowView| r.hip == Some(key)),
        kind == 1 ==> p == (|r: VariableRowView| r.hd == Some(key)),
        kind == 2 ==> p == (|r: VariableRowView| label_names(ascii_lower(r.name), needle@)),
        kind <= 2,
    ensures
        match first_index(rows@.map_values(|v: VariableRow| v@), p) {
            Some(i) => r == Some(i as usize),
            None => r is None,
        },
{
    let ghost views = rows@.map_values(|v: VariableRow| v@);
    proof {
        lemma_first_index(views, p);
    }
    let mut suffix: Vec<char> = Vec::new();
    suffix.push(' ');
    suffix.push('(');
    let mut needle_open: Vec<char> = Vec::new();
    crate::text::push_chars(&mut needle_open, needle.as_slice());
    crate::text::push_chars(&mut needle_open, suffix.as_slice());
    assert(needle_open@ =~= needle@ + " ("@) by {
        reveal_strlit(" (");
    }
    let mut i: usize = 0;
    while i < rows.len()
        invariant
            i <= rows@.len(),
            views == rows@.map_values(|v: VariableRow| v@),
            needle_open@ == needle@ + " ("@,
            kind == 0 ==> p == (|r: VariableRowView| r.hip == Some(key)),
            kind == 1 ==> p == (|r: VariableRowView| r.hd == Some(key)),
            kind == 2 ==> p == (|r: VariableRowView| label_names(ascii_lower(r.name), needle@)),
            kind <= 2,
            forall|j: int| 0 <= j < i ==> !p(#[trigger] views[j]),
        decreases rows@.len() - i,
    {
        let hit = if kind == 0 {
            rows[i].hip == Some(key)
        } else if kind == 1 {
            rows[i].hd == Some(key)
        } else {
            let label = ascii_lower_exec(&chars_of(rows[i].name.as_str()));
            chars_eq(&label, needle.as_slice()) || crate::text::starts_with(&label, &needle_open)
        };
        assert(views[i as int] == rows@[i as int]@);
        proof {
            let v = views[i as int];
            if kind == 0 {
                assert(p(v) == (v.hip == Some(key)));
            } else if kind == 1 {
                assert(p(v) == (v.hd == Some(key)));
            } else {
                assert(p(v) == label_names(ascii_lower(v.name), needle@));
            }
        }
        assert(hit == p(views[i as int]));
        if hit {
            proof {
                lemma_first_index(views, p);
                match first_index(views, p) {
                    Some(k) => {
                        if k < i {
                            assert(!p(views[k]));
                        } else if k > i {
                            assert(!p(views[i as int]));
                        }
                    },
                    None => {
                        assert(!p(views[i as int]));
                    },
                }
            }
            return Some(i);
        }
        i += 1;
    }
    proof {
        lemma_first_index(views, p);
        match first_index(views, p) {
            Some(k) => {
                assert(!p(views[k]));
            },
            None => {},
        }
    }
    None
}

/// Index of the variable-star row a catalogue star matches: first by
/// Hipparcos number, then by Henry Draper number, then by proper name.
pub fn variable_index_for(
    rows: &[VariableRow],
    hip: Option<u32>,
    hd: Option<u32>,
    proper_name: Option<&str>,
) -> (r: Option<usize>)
    ensures
        match variable_index_spec(
            rows@.map_values(|v: VariableRow| v@),
            hip,
            hd,
            match proper_name {
                Some(n) => Some(n@),
                None => None,
            },
        ) {
            Some(i) => r == Some(i as usize),
            None => r is None,
        },
{
    let empty: Vec<char> = Vec::new();
    if let Some(h) = hip {
        if let Some(i) = first_matching(rows, Ghost(|r: VariableRowView| r.hip == Some(h)), 0, h, &empty) {
            return Some(i);
        }
    }
    if let Some(d) = hd {
        if let Some(i) = first_matching(rows, Ghost(|r: VariableRowView| r.hd == Some(d)), 1, d, &empty) {
            return Some(i);
        }
    }
    if let Some(name) = proper_name {
        let needle = ascii_lower_exec(&trim_str(name));
        if needle.len() > 0 {
            return first_matching(
                rows,
                Ghost(|r: VariableRowView| label_names(ascii_lower(r.name), needle@)),
                2,
                0,
                &needle,
            );
        }
    }
    None
}

} // verus!
