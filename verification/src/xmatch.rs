//! The bright-star HIP ↔ HD cross-identification index: one anchor per
//! naked-eye star, read from a CSV table with the header
//! `hip,hd,vmag,bv,proper`, and looked up by either catalogue number.
//!
//! A row is kept when its first two fields are both unsigned 32-bit numbers;
//! the magnitude and colour are carried as their trimmed text (empty when the
//! field is absent) for the host to read as numbers, and the proper name is
//! the trimmed fifth field, empty when absent.
use vstd::prelude::*;

use crate::ingest::{record_fields, record_get, record_len};
use crate::text::{chars_of, parse_bounded, parse_unsigned_chars, string_from_chars, trim, trim_str};

verus! {

/// The records of a CSV text after its header line, every field trimmed:
/// `Some(fields)` for a record that reads, `None` for one that the reader
/// rejects.
pub uninterp spec fn trimmed_csv_records(text: Seq<char>) -> Seq<Option<Seq<Seq<char>>>>;

/// `csv::ReaderBuilder` with `Trim::All` over the bytes of `text`, and the
/// records its `records()` iterator yields, each kept (`Some`) or, when the
/// reader reports an error for it, dropped to `None`. What the records are is
/// named, not stated: CSV quoting and record splitting are the crate's.
#[verifier::external_body]
fn trimmed_records(text: &str) -> (r: Vec<Option<csv::StringRecord>>)
    ensures
        r@.len() == trimmed_csv_records(text@).len(),
        forall|i: int|
            0 <= i < r@.len() ==> match trimmed_csv_records(text@)[i] {
                Some(f) => #[trigger] r@[i] is Some && record_fields(r@[i]->0) == f,
                None => r@[i] is None,
            },
{
    let mut reader = csv::ReaderBuilder::new().trim(csv::Trim::All).from_reader(text.as_bytes());
    reader.records().map(|rec| rec.ok()).collect()
}

/// One bright-star anchor: Hipparcos and Henry Draper numbers, V magnitude
/// and B−V as text, and the proper name.
#[derive(Debug, Clone, PartialEq, Eq)]
pub struct BrightStarCrossId {
    pub hip: u32,
    pub hd: u32,
    pub vmag: String,
    pub bv: String,
    pub name: String,
}

/// A [`BrightStarCrossId`] as plain values.
pub ghost struct BrightStarCrossIdView {
    pub hip: u32,
    pub hd: u32,
    pub vmag: Seq<char>,
    pub bv: Seq<char>,
    pub name: Seq<char>,
}

impl View for BrightStarCrossId {
    type V = BrightStarCrossIdView;

    open spec fn view(&self) -> BrightStarCrossIdView {
        BrightStarCrossIdView {
            hip: self.hip,
            hd: self.hd,
            vmag: self.vmag@,
            bv: self.bv@,
            name: self.name@,
        }
    }
}

/// The trimmed field `i` of a record, empty past the last field.
pub open spec fn text_field(f: Seq<Seq<char>>, i: int) -> Seq<char> {
    if i < f.len() {
        trim(f[i])
    } else {
        Seq::empty()
    }
}

/// The anchor a record gives, if its HIP and HD fields both read as `u32`.
pub open spec fn cross_id_of(f: Seq<Seq<char>>) -> Option<BrightStarCrossIdView> {
    if f.len() >= 2 {
        match (parse_bounded(trim(f[0]), u32::MAX as nat), parse_bounded(trim(f[1]), u32::MAX as nat)) {
            (Some(hip), Some(hd)) => Some(
                BrightStarCrossIdView {
                    hip: hip as u32,
                    hd: hd as u32,
                    vmag: text_field(f, 2),
                    bv: text_field(f, 3),
                    name: text_field(f, 4),
                },
            ),
            _ => None,
        }
    } else {
        None
    }
}

/// The anchors of a run of records, in order, skipping records that were
/// rejected or lack a HIP or HD number.
pub open spec fn cross_ids_of(recs: Seq<Option<Seq<Seq<char>>>>) -> Seq<BrightStarCrossIdView>
    decreases recs.len(),
{
    if recs.len() == 0 {
        Seq::empty()
    } else {
        let prev = cross_ids_of(recs.drop_last());
        match recs.last() {
            Some(f) => match cross_id_of(f) {
                Some(c) => prev.push(c),
                None => prev,
            },
            None => prev,
        }
    }
}

/// The first anchor of `t` with Hipparcos number `hip`.
pub open spec fn first_by_hip(t: Seq<BrightStarCrossIdView>, hip: u32) -> Option<BrightStarCrossIdView>
    decreases t.len(),
{
    if t.len() == 0 {
        None
    } else if t[0].hip == hip {
        Some(t[0])
    } else {
        first_by_hip(t.drop_first(), hip)
    }
}

/// The first anchor of `t` with Henry Draper number `hd`.
pub open spec fn first_by_hd(t: Seq<BrightStarCrossIdView>, hd: u32) -> Option<BrightStarCrossIdView>
    decreases t.len(),
{
    if t.len() == 0 {
        None
    } else if t[0].hd == hd {
        Some(t[0])
    } else {
        first_by_hd(t.drop_first(), hd)
    }
}

fn text_at(record: &csv::StringRecord, i: usize) -> (r: String)
    ensures
        r@ == text_field(record_fields(*record), i as int),
{
    match record_get(record, i) {
        Some(v) => string_from_chars(&trim_str(v)),
        None => String::new(),
    }
}

fn u32_at(record: &csv::StringRecord, i: usize) -> (r: Option<u32>)
    requires
        i < record_fields(*record).len(),
    ensures
        match parse_bounded(trim(record_fields(*record)[i as int]), u32::MAX as nat) {
            Some(n) => r == Some(n as u32),
            None => r is None,
        },
{
    let v = record_get(record, i).unwrap();
    match parse_unsigned_chars(&trim_str(v), u32::MAX as u64) {
        Some(n) => Some(n as u32),
        None => None,
    }
}

/// The anchor one record of the table gives, or `None` when its first two
/// fields are not both unsigned 32-bit numbers.
pub fn cross_id_from_record(record: &csv::StringRecord) -> (r: Option<BrightStarCrossId>)
    ensures
        match cross_id_of(record_fields(*record)) {
            Some(c) => r is Some && r->0@ == c,
            None => r is None,
        },
{
    if record_len(record) < 2 {
        return None;
    }
    let hip = match u32_at(record, 0) {
        Some(h) => h,
        None => return None,
    };
    let hd = match u32_at(record, 1) {
        Some(h) => h,
        None => return None,
    };
    Some(
        BrightStarCrossId {
            hip,
            hd,
            vmag: text_at(record, 2),
            bv: text_at(record, 3),
            name: text_at(record, 4),
        },
    )
}

/// The anchors of a run of records, in order; rejected records and records
/// without both numbers are skipped.
pub fn cross_ids_from_records(records: &[Option<csv::StringRecord>]) -> (r: Vec<BrightStarCrossId>)
    ensures
        r@.len() == cross_ids_of(records@.map_values(|o: Option<csv::StringRecord>| record_option_fields(o))).len(),
        forall|i: int|
            0 <= i < r@.len() ==> #[trigger] r@[i]@ == cross_ids_of(
                records@.map_values(|o: Option<csv::StringRecord>| record_option_fields(o)),
            )[i],
{
    let ghost recs = records@.map_values(|o: Option<csv::StringRecord>| record_option_fields(o));
    let mut out: Vec<BrightStarCrossId> = Vec::new();
    let mut i: usize = 0;
    while i < records.len()
        invariant
            i <= records@.len(),
            recs == records@.map_values(|o: Option<csv::StringRecord>| record_option_fields(o)),
            out@.len() == cross_ids_of(recs.take(i as int)).len(),
            forall|k: int|
                0 <= k < out@.len() ==> #[trigger] out@[k]@ == cross_ids_of(recs.take(i as int))[k],
        decreases records@.len() - i,
    {
        proof {
            assert(recs.take(i + 1).drop_last() =~= recs.take(i as int));
            assert(recs.take(i + 1).last() == recs[i as int]);
        }
        match &records[i] {
            Some(rec) => match cross_id_from_record(rec) {
                Some(c) => out.push(c),
                None => {},
            },
            None => {},
        }
        i += 1;
    }
    proof {
        assert(recs.take(i as int) =~= recs);
    }
    out
}

/// The fields of a record that was read, or `None` for one that was not.
pub open spec fn record_option_fields(o: Option<csv::StringRecord>) -> Option<Seq<Seq<char>>> {
    match o {
        Some(r) => Some(record_fields(r)),
        None => None,
    }
}

/// Reads the bright-star anchor index from its CSV text.
pub fn bright_star_cross_ids(text: &str) -> (r: Vec<BrightStarCrossId>)
    ensures
        r@.len() == cross_ids_of(trimmed_csv_records(text@)).len(),
        forall|i: int|
            0 <= i < r@.len() ==> #[trigger] r@[i]@ == cross_ids_of(trimmed_csv_records(text@))[i],
{
    let records = trimmed_records(text);
    proof {
        assert(records@.map_values(|o: Option<csv::StringRecord>| record_option_fields(o))
            =~= trimmed_csv_records(text@));
    }
    cross_ids_from_records(&records)
}

fn copy_cross_id(c: &BrightStarCrossId) -> (r: BrightStarCrossId)
    ensures
        r@ == c@,
{
    BrightStarCrossId {
        hip: c.hip,
        hd: c.hd,
        vmag: string_from_chars(&chars_of(c.vmag.as_str())),
        bv: string_from_chars(&chars_of(c.bv.as_str())),
        name: string_from_chars(&chars_of(c.name.as_str())),
    }
}

proof fn lemma_first_by_hip_skip(t: Seq<BrightStarCrossIdView>, hip: u32, i: int)
    requires
        0 <= i <= t.len(),
        forall|k: int| 0 <= k < i ==> #[trigger] t[k].hip != hip,
    ensures
        first_by_hip(t, hip) == first_by_hip(t.skip(i), hip),
    decreases i,
{
    if i > 0 {
        assert(t.skip(1) =~= t.drop_first());
        lemma_first_by_hip_skip(t.drop_first(), hip, i - 1);
        assert(t.drop_first().skip(i - 1) =~= t.skip(i));
    } else {
        assert(t.skip(0) =~= t);
    }
}

proof fn lemma_first_by_hd_skip(t: Seq<BrightStarCrossIdView>, hd: u32, i: int)
    requires
        0 <= i <= t.len(),
        forall|k: int| 0 <= k < i ==> #[trigger] t[k].hd != hd,
    ensures
        first_by_hd(t, hd) == first_by_hd(t.skip(i), hd),
    decreases i,
{
    if i > 0 {
        assert(t.skip(1) =~= t.drop_first());
        lemma_first_by_hd_skip(t.drop_first(), hd, i - 1);
        assert(t.drop_first().skip(i - 1) =~= t.skip(i));
    } else {
        assert(t.skip(0) =~= t);
    }
}

/// The anchors of a table, as plain values.
pub open spec fn table_view(t: Seq<BrightStarCrossId>) -> Seq<BrightStarCrossIdView> {
    t.map_values(|c: BrightStarCrossId| c@)
}

/// Looks up a bright-star anchor by Hipparcos number: the first entry of
/// `table` with that number.
pub fn cross_id_by_hip(table: &[BrightStarCrossId], hip: u32) -> (r: Option<BrightStarCrossId>)
    ensures
        match first_by_hip(table_view(table@), hip) {
            Some(c) => r is Some && r->0@ == c,
            None => r is None,
        },
{
    let ghost t = table_view(table@);
    let mut i: usize = 0;
    while i < table.len()
        invariant
            i <= table@.len(),
            t == table_view(table@),
            forall|k: int| 0 <= k < i ==> #[trigger] t[k].hip != hip,
        decreases table@.len() - i,
    {
        if table[i].hip == hip {
            proof {
                lemma_first_by_hip_skip(t, hip, i as int);
            }
            return Some(copy_cross_id(&table[i]));
        }
        i += 1;
    }
    proof {
        lemma_first_by_hip_skip(t, hip, i as int);
    }
    None
}

/// Looks up a bright-star anchor by Henry Draper number: the first entry of
/// `table` with that number.
pub fn cross_id_by_hd(table: &[BrightStarCrossId], hd: u32) -> (r: Option<BrightStarCrossId>)
    ensures
        match first_by_hd(table_view(table@), hd) {
            Some(c) => r is Some && r->0@ == c,
            None => r is None,
        },
{
    let ghost t = table_view(table@);
    let mut i: usize = 0;
    while i < table.len()
        invariant
            i <= table@.len(),
            t == table_view(table@),
            forall|k: int| 0 <= k < i ==> #[trigger] t[k].hd != hd,
        decreases table@.len() - i,
    {
        if table[i].hd == hd {
            proof {
                lemma_first_by_hd_skip(t, hd, i as int);
            }
            return Some(copy_cross_id(&table[i]));
        }
        i += 1;
    }
    proof {
        lemma_first_by_hd_skip(t, hd, i as int);
    }
    None
}

/// In a table whose Henry Draper numbers are all distinct, looking up an
/// anchor's HD number gives back that anchor, and looking up its Hipparcos
/// number gives an anchor with the same Hipparcos number: every anchor
/// round-trips HIP → HD → HIP.
pub proof fn lemma_cross_id_round_trip(t: Seq<BrightStarCrossIdView>, i: int)
    requires
        0 <= i < t.len(),
        forall|j: int, k: int| 0 <= j < k < t.len() ==> #[trigger] t[j].hd != #[trigger] t[k].hd,
    ensures
        first_by_hd(t, t[i].hd) == Some(t[i]),
        first_by_hip(t, t[i].hip) matches Some(c) && c.hip == t[i].hip,
        first_by_hd(t, t[i].hd) matches Some(c) && first_by_hip(t, c.hip) matches Some(d)
            && d.hip == t[i].hip,
{
    lemma_first_by_hd_skip(t, t[i].hd, i);
    assert(t.skip(i)[0] == t[i]);
    lemma_first_by_hip_found(t, t[i].hip, i);
}

proof fn lemma_first_by_hip_found(t: Seq<BrightStarCrossIdView>, hip: u32, i: int)
    requires
        0 <= i < t.len(),
        t[i].hip == hip,
    ensures
        first_by_hip(t, hip) matches Some(c) && c.hip == hip,
    decreases i,
{
    if i > 0 && t[0].hip != hip {
        lemma_first_by_hip_found(t.drop_first(), hip, i - 1);
    }
}

} // verus!
