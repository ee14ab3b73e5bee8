//! Reading the small curated CSV tables that ship with the catalogue: blank
//! lines and `#` comments are skipped, the first other line must be the
//! expected header, and every following line is a row with a fixed number of
//! comma-separated, trimmed fields. Lines are numbered from 1.
use vstd::prelude::*;

use crate::text::{chars_eq, chars_of, lines_of, split_lines, string_from_chars, trim, trim_chars};

verus! {

/// The segments of `s` between occurrences of `c` (always at least one).
pub open spec fn split_char(s: Seq<char>, c: char) -> Seq<Seq<char>>
    decreases s.len(),
{
    if s.len() == 0 {
        seq![Seq::<char>::empty()]
    } else {
        let p = split_char(s.drop_last(), c);
        if s.last() == c {
            p.push(Seq::<char>::empty())
        } else {
            p.update(p.len() - 1, p.last().push(s.last()))
        }
    }
}

proof fn lemma_split_char_nonempty(s: Seq<char>, c: char)
    ensures
        split_char(s, c).len() >= 1,
    decreases s.len(),
{
    if s.len() > 0 {
        lemma_split_char_nonempty(s.drop_last(), c);
    }
}

/// The segments of `v` between occurrences of `c`, as `str::split` yields
/// them.
pub fn split_on(v: &[char], c: char) -> (r: Vec<Vec<char>>)
    ensures
        r@.len() == split_char(v@, c).len(),
        forall|i: int| 0 <= i < r@.len() ==> #[trigger] r@[i]@ == split_char(v@, c)[i],
{
    let mut r: Vec<Vec<char>> = Vec::new();
    let mut seg: Vec<char> = Vec::new();
    let mut i: usize = 0;
    proof {
        assert(v@.take(0) =~= Seq::<char>::empty());
    }
    while i < v.len()
        invariant
            i <= v.len(),
            split_char(v@.take(i as int), c).len() == r@.len() + 1,
            forall|k: int|
                0 <= k < r@.len() ==> #[trigger] r@[k]@ == split_char(v@.take(i as int), c)[k],
            seg@ == split_char(v@.take(i as int), c).last(),
        decreases v.len() - i,
    {
        let ghost ls = split_char(v@.take(i as int), c);
        let ghost b = v@.take(i + 1);
        proof {
            assert(b.drop_last() =~= v@.take(i as int));
        }
        if v[i] == c {
            let done = seg;
            r.push(done);
            seg = Vec::new();
            proof {
                assert(split_char(b, c) == ls.push(Seq::<char>::empty()));
            }
        } else {
            seg.push(v[i]);
            proof {
                assert(split_char(b, c) == ls.update(ls.len() - 1, ls.last().push(v@[i as int])));
            }
        }
        i += 1;
    }
    proof {
        assert(v@.take(i as int) =~= v@);
    }
    r.push(seg);
    r
}

/// The trimmed comma-separated fields of a row.
pub open spec fn csv_fields(t: Seq<char>) -> Seq<Seq<char>> {
    split_char(t, ',').map_values(|f: Seq<char>| trim(f))
}

/// Why a curated table could not be read.
#[derive(Debug, Clone, Copy, PartialEq, Eq, Structural)]
pub enum TableError {
    /// The first content line is not the expected header.
    HeaderMismatch { line: usize },
    /// A row has another number of fields than the header.
    ColumnCount { line: usize, found: usize },
}

/// One data row: its line number and its trimmed fields.
#[derive(Debug, Clone, PartialEq, Eq)]
pub struct TableRow {
    pub line: usize,
    pub fields: Vec<String>,
}

impl TableRow {
    /// The row as plain values.
    pub open spec fn view_pair(&self) -> (int, Seq<Seq<char>>) {
        (self.line as int, self.fields@.map_values(|f: String| f@))
    }
}

/// Reading state after some lines: whether the header was seen, and the
/// rows read so far.
pub open spec fn table_step(
    state: Result<(bool, Seq<(int, Seq<Seq<char>>)>), TableError>,
    line_no: int,
    line: Seq<char>,
    header: Seq<char>,
    columns: int,
) -> Result<(bool, Seq<(int, Seq<Seq<char>>)>), TableError> {
    match state {
        Err(e) => Err(e),
        Ok((seen, rows)) => {
            let t = trim(line);
            if t.len() == 0 || t[0] == '#' {
                Ok((seen, rows))
            } else if !seen {
                if t == header {
                    Ok((true, rows))
                } else {
                    Err(TableError::HeaderMismatch { line: line_no as usize })
                }
            } else if csv_fields(t).len() != columns {
                Err(TableError::ColumnCount { line: line_no as usize, found: csv_fields(t).len() as usize })
            } else {
                Ok((seen, rows.push((line_no, csv_fields(t)))))
            }
        },
    }
}

/// Reading state after the given lines.
pub open spec fn table_fold(lines: Seq<Seq<char>>, header: Seq<char>, columns: int) -> Result<
    (bool, Seq<(int, Seq<Seq<char>>)>),
    TableError,
>
    decreases lines.len(),
{
    if lines.len() == 0 {
        Ok((false, Seq::empty()))
    } else {
        table_step(
            table_fold(lines.drop_last(), header, columns),
            lines.len() as int,
            lines.last(),
            header,
            columns,
        )
    }
}

/// The rows of a curated table, in file order, or the first error met.
pub open spec fn table_rows_spec(text: Seq<char>, header: Seq<char>, columns: int) -> Result<
    Seq<(int, Seq<Seq<char>>)>,
    TableError,
> {
    match table_fold(split_lines(text), header, columns) {
        Ok((_, rows)) => Ok(rows),
        Err(e) => Err(e),
    }
}

/// Every row of a table that reads has the header's column count.
pub proof fn lemma_table_row_width(text: Seq<char>, header: Seq<char>, columns: int, i: int)
    requires
        table_rows_spec(text, header, columns) is Ok,
        0 <= i < table_rows_spec(text, header, columns)->Ok_0.len(),
    ensures
        table_rows_spec(text, header, columns)->Ok_0[i].1.len() == columns,
{
    lemma_fold_rows_width(split_lines(text), header, columns);
}

proof fn lemma_fold_rows_width(lines: Seq<Seq<char>>, header: Seq<char>, columns: int)
    ensures
        table_fold(lines, header, columns) matches Ok((_, rows)) ==> forall|i: int|
            0 <= i < rows.len() ==> (#[trigger] rows[i]).1.len() == columns,
    decreases lines.len(),
{
    if lines.len() > 0 {
        lemma_fold_rows_width(lines.drop_last(), header, columns);
    }
}

proof fn lemma_table_fold_err(lines: Seq<Seq<char>>, header: Seq<char>, columns: int, i: int)
    requires
        0 <= i <= lines.len(),
        table_fold(lines.take(i), header, columns) is Err,
    ensures
        table_fold(lines, header, columns) == table_fold(lines.take(i), header, columns),
    decreases lines.len() - i,
{
    if i < lines.len() {
        assert(lines.take(i + 1).drop_last() =~= lines.take(i));
        lemma_table_fold_err(lines, header, columns, i + 1);
    } else {
        assert(lines.take(i) =~= lines);
    }
}

fn strings_of(parts: &Vec<Vec<char>>) -> (r: Vec<String>)
    ensures
        r@.len() == parts@.len(),
        forall|i: int| 0 <= i < r@.len() ==> #[trigger] r@[i]@ == parts@[i]@,
{
    let mut r: Vec<String> = Vec::new();
    let mut i: usize = 0;
    while i < parts.len()
        invariant
            i <= parts@.len(),
            r@.len() == i,
            forall|k: int| 0 <= k < i ==> #[trigger] r@[k]@ == parts@[k]@,
        decreases parts@.len() - i,
    {
        r.push(string_from_chars(parts[i].as_slice()));
        i += 1;
    }
    r
}

fn trimmed_fields(t: &[char]) -> (r: Vec<String>)
    ensures
        r@.map_values(|f: String| f@) == csv_fields(t@),
{
    let raw = split_on(t, ',');
    let mut parts: Vec<Vec<char>> = Vec::new();
    let mut i: usize = 0;
    while i < raw.len()
        invariant
            i <= raw@.len(),
            raw@.len() == split_char(t@, ',').len(),
            forall|k: int| 0 <= k < raw@.len() ==> #[trigger] raw@[k]@ == split_char(t@, ',')[k],
            parts@.len() == i,
            forall|k: int| 0 <= k < i ==> #[trigger] parts@[k]@ == trim(split_char(t@, ',')[k]),
        decreases raw@.len() - i,
    {
        parts.push(trim_chars(raw[i].as_slice()));
        i += 1;
    }
    let r = strings_of(&parts);
    assert(r@.map_values(|f: String| f@) =~= csv_fields(t@));
    r
}

/// Reads a curated CSV table with the given header and column count.
pub fn read_table(text: &str, header: &str, columns: usize) -> (r: Result<Vec<TableRow>, TableError>)
    ensures
        match table_rows_spec(text@, header@, columns as int) {
            Ok(rows) => r is Ok && r->Ok_0@.len() == rows.len() && forall|i: int|
                0 <= i < rows.len() ==> #[trigger] r->Ok_0@[i].view_pair() == rows[i],
            Err(e) => r == Err::<Vec<TableRow>, TableError>(e),
        },
{
    let v = chars_of(text);
    let h = chars_of(header);
    let lines = lines_of(v.as_slice());
    let ghost ls = split_lines(v@);
    let mut seen = false;
    let mut rows: Vec<TableRow> = Vec::new();
    let mut i: usize = 0;
    proof {
        assert(ls.take(0) =~= Seq::<Seq<char>>::empty());
    }
    while i < lines.len()
        invariant
            i <= lines@.len(),
            lines@.len() == ls.len(),
            ls == split_lines(text@),
            h@ == header@,
            forall|k: int| 0 <= k < lines@.len() ==> #[trigger] lines@[k]@ == ls[k],
            table_fold(ls.take(i as int), header@, columns as int) matches Ok((s, rs)) && s == seen
                && rs.len() == rows@.len() && forall|k: int|
                0 <= k < rows@.len() ==> #[trigger] rows@[k].view_pair() == rs[k],
        decreases lines@.len() - i,
    {
        proof {
            assert(ls.take(i + 1).drop_last() =~= ls.take(i as int));
            assert(ls.take(i + 1).last() == ls[i as int]);
        }
        let t = trim_chars(lines[i].as_slice());
        if t.len() == 0 || t[0] == '#' {
        } else if !seen {
            if chars_eq(&t, &h) {
                seen = true;
            } else {
                let e = TableError::HeaderMismatch { line: i + 1 };
                proof {
                    lemma_table_fold_err(ls, header@, columns as int, i + 1);
                }
                return Err(e);
            }
        } else {
            let fields = trimmed_fields(&t);
            if fields.len() != columns {
                let e = TableError::ColumnCount { line: i + 1, found: fields.len() };
                proof {
                    lemma_table_fold_err(ls, header@, columns as int, i + 1);
                }
                return Err(e);
            }
            let ghost before = rows@;
            rows.push(TableRow { line: i + 1, fields });
        }
        i += 1;
    }
    proof {
        assert(ls.take(i as int) =~= ls);
    }
    Ok(rows)
}

} // verus!
