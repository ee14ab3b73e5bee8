//! The curated double-star table: which HYG row each resolved pair belongs
//! to, with the pair's geometry and photometry kept as text for the host to
//! read as numbers.
use vstd::prelude::*;

use crate::tables::{lemma_table_row_width, read_table, table_rows_spec, TableError, TableRow};
use crate::text::{chars_of, parse_bounded, parse_unsigned_chars, string_from_chars};

verus! {

/// Header line of the double-star table.
pub open spec fn double_header() -> Seq<char> {
    "name,hyg_id,ra_hours,dec_deg,rho_arcsec,theta_deg,m1,m2,bv1,bv2,epoch,wds_id"@
}

/// Why the double-star table could not be read.
#[derive(Debug, Clone, Copy, PartialEq, Eq, Structural)]
pub enum DoubleTableError {
    /// The table layout is wrong (header or column count).
    Table(TableError),
    /// A row's `hyg_id` is not an unsigned 32-bit number.
    InvalidHygId { line: usize },
}

/// One row of the double-star table: its name, the HYG row of the merged
/// pair, and the eight measurements (RA hours, Dec degrees, separation,
/// position angle, both magnitudes, both B−V colours) as trimmed text.
#[derive(Debug, Clone, PartialEq, Eq)]
pub struct DoubleRow {
    pub line: usize,
    pub name: String,
    pub hyg_id: u32,
    pub measurements: Vec<String>,
}

/// A [`DoubleRow`] as plain values.
pub ghost struct DoubleRowView {
    pub line: int,
    pub name: Seq<char>,
    pub hyg_id: u32,
    pub measurements: Seq<Seq<char>>,
}

impl View for DoubleRow {
    type V = DoubleRowView;

    open spec fn view(&self) -> DoubleRowView {
        DoubleRowView {
            line: self.line as int,
            name: self.name@,
            hyg_id: self.hyg_id,
            measurements: self.measurements@.map_values(|m: String| m@),
        }
    }
}

/// How one table row reads.
pub open spec fn double_row_spec(line: int, f: Seq<Seq<char>>) -> Result<DoubleRowView, DoubleTableError> {
    match parse_bounded(f[1], u32::MAX as nat) {
        None => Err(DoubleTableError::InvalidHygId { line: line as usize }),
        Some(h) => Ok(
            DoubleRowView { line, name: f[0], hyg_id: h as u32, measurements: f.subrange(2, 10) },
        ),
    }
}

/// The rows read from table rows, or the first row error.
pub open spec fn double_rows_of(rows: Seq<(int, Seq<Seq<char>>)>) -> Result<Seq<DoubleRowView>, DoubleTableError>
    decreases rows.len(),
{
    if rows.len() == 0 {
        Ok(Seq::empty())
    } else {
        match double_rows_of(rows.drop_last()) {
            Err(e) => Err(e),
            Ok(prev) => match double_row_spec(rows.last().0, rows.last().1) {
                Err(e) => Err(e),
                Ok(r) => Ok(prev.push(r)),
            },
        }
    }
}

/// The rows of a double-star table text, or the first error met.
pub open spec fn double_table_spec(text: Seq<char>) -> Result<Seq<DoubleRowView>, DoubleTableError> {
    match table_rows_spec(text, double_header(), 12) {
        Err(e) => Err(DoubleTableError::Table(e)),
        Ok(rows) => double_rows_of(rows),
    }
}

proof fn lemma_double_rows_err(rows: Seq<(int, Seq<Seq<char>>)>, i: int)
    requires
        0 <= i <= rows.len(),
        double_rows_of(rows.take(i)) is Err,
    ensures
        double_rows_of(rows) == double_rows_of(rows.take(i)),
    decreases rows.len() - i,
{
    if i < rows.len() {
        assert(rows.take(i + 1).drop_last() =~= rows.take(i));
        lemma_double_rows_err(rows, i + 1);
    } else {
        assert(rows.take(i) =~= rows);
    }
}

fn copy_string(s: &String) -> (r: String)
    ensures
        r@ == s@,
{
    string_from_chars(&chars_of(s.as_str()))
}

fn double_row(row: &TableRow) -> (r: Result<DoubleRow, DoubleTableError>)
    requires
        row.fields@.len() == 12,
    ensures
        match double_row_spec(row.view_pair().0, row.view_pair().1) {
            Ok(v) => r is Ok && r->Ok_0@ == v,
            Err(e) => r == Err::<DoubleRow, DoubleTableError>(e),
        },
{
    let f = &row.fields;
    let ghost fv = row.view_pair().1;
    assert(fv[1] == f@[1]@);
    let hyg = match parse_unsigned_chars(&chars_of(f[1].as_str()), u32::MAX as u64) {
        Some(h) => h as u32,
        None => return Err(DoubleTableError::InvalidHygId { line: row.line }),
    };
    let mut measurements: Vec<String> = Vec::new();
    let mut k: usize = 2;
    while k < 10
        invariant
            2 <= k <= 10,
            f@.len() == 12,
            measurements@.len() == k - 2,
            forall|j: int| 0 <= j < k - 2 ==> #[trigger] measurements@[j]@ == f@[j + 2]@,
        decreases 10 - k,
    {
        measurements.push(copy_string(&f[k]));
        k += 1;
    }
    let r = DoubleRow { line: row.line, name: copy_string(&f[0]), hyg_id: hyg, measurements };
    assert(r@.measurements =~= fv.subrange(2, 10));
    Ok(r)
}

/// Reads the double-star table.
pub fn parse_double_rows(text: &str) -> (r: Result<Vec<DoubleRow>, DoubleTableError>)
    ensures
        match double_table_spec(text@) {
            Ok(rows) => r is Ok && r->Ok_0@.len() == rows.len() && forall|i: int|
                0 <= i < rows.len() ==> #[trigger] r->Ok_0@[i]@ == rows[i],
            Err(e) => r == Err::<Vec<DoubleRow>, DoubleTableError>(e),
        },
{
    let rows = match read_table(
        text,
        "name,hyg_id,ra_hours,dec_deg,rho_arcsec,theta_deg,m1,m2,bv1,bv2,epoch,wds_id",
        12,
    ) {
        Ok(rows) => rows,
        Err(e) => return Err(DoubleTableError::Table(e)),
    };
    let ghost rs = match table_rows_spec(text@, double_header(), 12) {
        Ok(x) => x,
        Err(_) => Seq::empty(),
    };
    let mut out: Vec<DoubleRow> = Vec::new();
    let mut i: usize = 0;
    proof {
        assert(rs.take(0) =~= Seq::<(int, Seq<Seq<char>>)>::empty());
    }
    while i < rows.len()
        invariant
            i <= rows@.len(),
            table_rows_spec(text@, double_header(), 12) == Ok::<Seq<(int, Seq<Seq<char>>)>, TableError>(rs),
            rows@.len() == rs.len(),
            forall|k: int| 0 <= k < rs.len() ==> #[trigger] rows@[k].view_pair() == rs[k],
            double_rows_of(rs.take(i as int)) matches Ok(vs) && vs.len() == out@.len()
                && forall|k: int| 0 <= k < out@.len() ==> #[trigger] out@[k]@ == vs[k],
        decreases rows@.len() - i,
    {
        proof {
            assert(rs.take(i + 1).drop_last() =~= rs.take(i as int));
            assert(rs.take(i + 1).last() == rs[i as int]);
            lemma_table_row_width(text@, double_header(), 12, i as int);
            assert(rows@[i as int].view_pair().1.len() == rows@[i as int].fields@.len());
        }
        match double_row(&rows[i]) {
            Ok(v) => out.push(v),
            Err(e) => {
                proof {
                    lemma_double_rows_err(rs, i + 1);
                }
                return Err(e);
            },
        }
        i += 1;
    }
    proof {
        assert(rs.take(i as int) =~= rs);
    }
    Ok(out)
}

} // verus!
