//! The integer layer of a DAF/SPK ephemeris kernel: the file record, the
//! 1024-byte physical records and the integer half of a segment summary.
//!
//! A kernel starts with a file record whose first eight bytes are
//! `DAF/SPK ` (or the legacy `NAIF/DAF`), whose bytes `[88, 96)` name the
//! byte order (`LTL-IEEE` or `BIG-IEEE`), and whose 32-bit integers at bytes
//! 8, 12 and 76 give the summary layout `ND`, `NI` (an SPK has 2 and 6) and
//! the number of the first summary record. A summary holds `ND` doubles and
//! then `NI` 32-bit integers: target, center, frame, data type, and the first
//! and last word addresses of the segment.
use vstd::prelude::*;

use crate::text::{dec, push_chars, push_str, string_from_chars, dec_chars};

verus! {

/// Bytes per DAF physical record.
pub const RECORD_BYTES: usize = 1024;

/// Bytes per DAF word (one double).
pub const WORD_BYTES: usize = 8;

/// Why a kernel was refused.
#[derive(Debug, Clone, Copy, PartialEq, Eq, Structural)]
pub enum DafError {
    /// The blob is shorter than a required record or word range.
    Truncated,
    /// The leading ID word is not `DAF/SPK ` or `NAIF/DAF`.
    NotDafSpk,
    /// The byte-order tag is neither `LTL-IEEE` nor `BIG-IEEE`.
    UnknownEndianness,
    /// The summary layout is not the SPK one (`ND = 2`, `NI = 6`).
    BadSummaryLayout { nd: i32, ni: i32 },
    /// A segment has a data type other than 2 or 3 (Chebyshev position,
    /// Chebyshev position and velocity).
    UnsupportedSegmentType(i32),
    /// A body's chain of centers does not reach the solar-system barycenter.
    BrokenCenterChain(i32),
}

/// Decimal rendering of a signed integer.
pub open spec fn dec_signed(n: int) -> Seq<char> {
    if n < 0 {
        seq!['-'] + dec((-n) as nat)
    } else {
        dec(n as nat)
    }
}

fn push_i32(v: &mut Vec<char>, n: i32)
    ensures
        final(v)@ == old(v)@ + dec_signed(n as int),
{
    if n < 0 {
        let m: u64 = (-(n as i64)) as u64;
        v.push('-');
        let d = dec_chars(m);
        push_chars(v, &d);
        assert(final(v)@ =~= old(v)@ + dec_signed(n as int));
    } else {
        let d = dec_chars(n as u64);
        push_chars(v, &d);
    }
}

impl DafError {
    /// The text a host prints for this error.
    pub open spec fn message_spec(self) -> Seq<char> {
        match self {
            DafError::Truncated => "SPK blob is truncated"@,
            DafError::NotDafSpk => "not a DAF/SPK kernel (bad ID word)"@,
            DafError::UnknownEndianness => "unknown DAF LOCFMT endianness tag"@,
            DafError::BadSummaryLayout { nd, ni } => "unsupported DAF summary layout ND="@
                + dec_signed(nd as int) + ", NI="@ + dec_signed(ni as int) + " (SPK needs 2/6)"@,
            DafError::UnsupportedSegmentType(t) => "unsupported SPK segment data type "@
                + dec_signed(t as int) + " (only 2 and 3)"@,
            DafError::BrokenCenterChain(b) => "broken SPK center chain for body "@ + dec_signed(
                b as int,
            ),
        }
    }

    /// The text a host prints for this error.
    pub fn message(&self) -> (r: String)
        ensures
            r@ == self.message_spec(),
    {
        let mut v: Vec<char> = Vec::new();
        match *self {
            DafError::Truncated => push_str(&mut v, "SPK blob is truncated"),
            DafError::NotDafSpk => push_str(&mut v, "not a DAF/SPK kernel (bad ID word)"),
            DafError::UnknownEndianness => push_str(&mut v, "unknown DAF LOCFMT endianness tag"),
            DafError::BadSummaryLayout { nd, ni } => {
                push_str(&mut v, "unsupported DAF summary layout ND=");
                push_i32(&mut v, nd);
                push_str(&mut v, ", NI=");
                push_i32(&mut v, ni);
                push_str(&mut v, " (SPK needs 2/6)");
            },
            DafError::UnsupportedSegmentType(t) => {
                push_str(&mut v, "unsupported SPK segment data type ");
                push_i32(&mut v, t);
                push_str(&mut v, " (only 2 and 3)");
            },
            DafError::BrokenCenterChain(b) => {
                push_str(&mut v, "broken SPK center chain for body ");
                push_i32(&mut v, b);
            },
        }
        assert(v@ =~= self.message_spec());
        string_from_chars(&v)
    }
}

/// Byte order of a kernel.
#[derive(Debug, Clone, Copy, PartialEq, Eq, Structural)]
pub enum Endian {
    Little,
    Big,
}

/// Unsigned value of `b[0..4]`, least significant byte first.
pub open spec fn le_u32(b: Seq<u8>) -> int {
    b[0] + 256 * b[1] + 65536 * b[2] + 16777216 * b[3]
}

/// Unsigned value of `b[0..4]`, most significant byte first.
pub open spec fn be_u32(b: Seq<u8>) -> int {
    b[3] + 256 * b[2] + 65536 * b[1] + 16777216 * b[0]
}

/// Unsigned value of `b[0..8]`, least significant byte first.
pub open spec fn le_u64(b: Seq<u8>) -> int {
    le_u32(b) + 4294967296 * le_u32(b.skip(4))
}

/// Unsigned value of `b[0..8]`, most significant byte first.
pub open spec fn be_u64(b: Seq<u8>) -> int {
    be_u32(b.skip(4)) + 4294967296 * be_u32(b)
}

impl Endian {
    /// The 32-bit two's-complement integer `b` encodes in this byte order.
    pub open spec fn i32_spec(self, b: Seq<u8>) -> i32 {
        match self {
            Endian::Little => le_u32(b) as i32,
            Endian::Big => be_u32(b) as i32,
        }
    }

    /// The 64 bits of the double `b` encodes in this byte order.
    pub open spec fn word_bits_spec(self, b: Seq<u8>) -> u64 {
        match self {
            Endian::Little => le_u64(b) as u64,
            Endian::Big => be_u64(b) as u64,
        }
    }

    /// Reads a 32-bit integer stored in this byte order.
    pub fn i32(self, b: &[u8]) -> (r: i32)
        requires
            b@.len() == 4,
        ensures
            r == self.i32_spec(b@),
    {
        let (b0, b1, b2, b3) = match self {
            Endian::Little => (b[0], b[1], b[2], b[3]),
            Endian::Big => (b[3], b[2], b[1], b[0]),
        };
        let u: u32 = (b0 as u32) + (b1 as u32) * 256 + (b2 as u32) * 65536 + (b3 as u32)
            * 16777216;
        u as i32
    }

    /// Reads the bit pattern of a double stored in this byte order.
    pub fn word_bits(self, b: &[u8]) -> (r: u64)
        requires
            b@.len() == 8,
        ensures
            r == self.word_bits_spec(b@),
    {
        let first: u64 = (b[0] as u64) + (b[1] as u64) * 256 + (b[2] as u64) * 65536 + (b[3] as u64)
            * 16777216;
        let second: u64 = (b[4] as u64) + (b[5] as u64) * 256 + (b[6] as u64) * 65536 + (b[7] as u64)
            * 16777216;
        proof {
            assert(b@.skip(4)[0] == b@[4] && b@.skip(4)[1] == b@[5] && b@.skip(4)[2] == b@[6]
                && b@.skip(4)[3] == b@[7]);
        }
        match self {
            Endian::Little => first + second * 4294967296,
            Endian::Big => {
                let first_be: u64 = (b[3] as u64) + (b[2] as u64) * 256 + (b[1] as u64) * 65536 + (
                b[0] as u64) * 16777216;
                let second_be: u64 = (b[7] as u64) + (b[6] as u64) * 256 + (b[5] as u64) * 65536 + (
                b[4] as u64) * 16777216;
                second_be + first_be * 4294967296
            },
        }
    }
}

/// Law: a 32-bit integer or a double written in one byte order reads back
/// the same from the mirrored bytes in the other, so a big-endian transfer
/// of a kernel reads as the little-endian file it was made from.
pub proof fn lemma_byte_order_mirror(b: Seq<u8>)
    requires
        b.len() == 8,
    ensures
        Endian::Big.i32_spec(seq![b[3], b[2], b[1], b[0]]) == Endian::Little.i32_spec(b.take(4)),
        Endian::Big.word_bits_spec(seq![b[7], b[6], b[5], b[4], b[3], b[2], b[1], b[0]])
            == Endian::Little.word_bits_spec(b),
{
    let m = seq![b[7], b[6], b[5], b[4], b[3], b[2], b[1], b[0]];
    assert(m.skip(4) =~= seq![b[3], b[2], b[1], b[0]]);
    assert(b.skip(4) =~= seq![b[4], b[5], b[6], b[7]]);
    assert(b.take(4) =~= seq![b[0], b[1], b[2], b[3]]);
}

/// `DAF/SPK `.
pub open spec fn daf_spk_id() -> Seq<u8> {
    seq![68u8, 65, 70, 47, 83, 80, 75, 32]
}

/// `NAIF/DAF`.
pub open spec fn naif_daf_id() -> Seq<u8> {
    seq![78u8, 65, 73, 70, 47, 68, 65, 70]
}

/// `LTL-IEEE`.
pub open spec fn little_endian_tag() -> Seq<u8> {
    seq![76u8, 84, 76, 45, 73, 69, 69, 69]
}

/// `BIG-IEEE`.
pub open spec fn big_endian_tag() -> Seq<u8> {
    seq![66u8, 73, 71, 45, 73, 69, 69, 69]
}

/// What the file record of a kernel declares: its byte order and the
/// number of its first summary record.
#[derive(Debug, Clone, Copy, PartialEq, Eq, Structural)]
pub struct DafHeader {
    pub endian: Endian,
    pub first_summary_record: i32,
}

/// The outcome of reading the file record of `bytes`.
pub open spec fn daf_header_spec(bytes: Seq<u8>) -> Result<DafHeader, DafError> {
    if bytes.len() < RECORD_BYTES {
        Err(DafError::Truncated)
    } else if bytes.subrange(0, 8) != daf_spk_id() && bytes.subrange(0, 8) != naif_daf_id() {
        Err(DafError::NotDafSpk)
    } else if bytes.subrange(88, 96) != little_endian_tag() && bytes.subrange(88, 96)
        != big_endian_tag() {
        Err(DafError::UnknownEndianness)
    } else {
        let endian = if bytes.subrange(88, 96) == little_endian_tag() {
            Endian::Little
        } else {
            Endian::Big
        };
        let nd = endian.i32_spec(bytes.subrange(8, 12));
        let ni = endian.i32_spec(bytes.subrange(12, 16));
        let fward = endian.i32_spec(bytes.subrange(76, 80));
        if nd != 2 || ni != 6 {
            Err(DafError::BadSummaryLayout { nd, ni })
        } else if fward <= 0 {
            Err(DafError::Truncated)
        } else {
            Ok(DafHeader { endian, first_summary_record: fward })
        }
    }
}

fn bytes_match(bytes: &[u8], off: usize, pat: &[u8]) -> (r: bool)
    requires
        off + pat@.len() <= bytes@.len(),
    ensures
        r == (bytes@.subrange(off as int, off + pat@.len()) == pat@),
{
    let mut i: usize = 0;
    while i < pat.len()
        invariant
            i <= pat@.len(),
            off + pat@.len() <= bytes@.len(),
            forall|k: int| 0 <= k < i ==> bytes@[off + k] == #[trigger] pat@[k],
        decreases pat@.len() - i,
    {
        assert(bytes@.len() == bytes.len());
        if bytes[off + i] != pat[i] {
            assert(bytes@.subrange(off as int, off + pat@.len())[i as int] != pat@[i as int]);
            return false;
        }
        i += 1;
    }
    assert(bytes@.subrange(off as int, off + pat@.len()) =~= pat@);
    true
}

/// Reads and checks the file record of a kernel.
pub fn parse_daf_header(bytes: &[u8]) -> (r: Result<DafHeader, DafError>)
    ensures
        r == daf_header_spec(bytes@),
{
    if bytes.len() < RECORD_BYTES {
        return Err(DafError::Truncated);
    }
    let spk_id: [u8; 8] = [68u8, 65, 70, 47, 83, 80, 75, 32];
    let naif_id: [u8; 8] = [78u8, 65, 73, 70, 47, 68, 65, 70];
    let ltl: [u8; 8] = [76u8, 84, 76, 45, 73, 69, 69, 69];
    let big: [u8; 8] = [66u8, 73, 71, 45, 73, 69, 69, 69];
    assert(spk_id@ =~= daf_spk_id());
    assert(naif_id@ =~= naif_daf_id());
    assert(ltl@ =~= little_endian_tag());
    assert(big@ =~= big_endian_tag());
    if !bytes_match(bytes, 0, spk_id.as_slice()) && !bytes_match(bytes, 0, naif_id.as_slice()) {
        return Err(DafError::NotDafSpk);
    }
    let endian = if bytes_match(bytes, 88, ltl.as_slice()) {
        Endian::Little
    } else if bytes_match(bytes, 88, big.as_slice()) {
        Endian::Big
    } else {
        return Err(DafError::UnknownEndianness);
    };
    let nd = endian.i32(vstd::slice::slice_subrange(bytes, 8, 12));
    let ni = endian.i32(vstd::slice::slice_subrange(bytes, 12, 16));
    if nd != 2 || ni != 6 {
        return Err(DafError::BadSummaryLayout { nd, ni });
    }
    let fward = endian.i32(vstd::slice::slice_subrange(bytes, 76, 80));
    if fward <= 0 {
        return Err(DafError::Truncated);
    }
    Ok(DafHeader { endian, first_summary_record: fward })
}

/// The bytes of physical record `record_no` (1-based), or `Truncated` when
/// the blob ends before the record does.
pub fn record_slice(bytes: &[u8], record_no: usize) -> (r: Result<&[u8], DafError>)
    requires
        record_no >= 1,
        record_no * RECORD_BYTES <= usize::MAX,
    ensures
        record_no * RECORD_BYTES <= bytes@.len() ==> r is Ok && r->Ok_0@ == bytes@.subrange(
            (record_no - 1) * RECORD_BYTES,
            record_no * RECORD_BYTES,
        ),
        record_no * RECORD_BYTES > bytes@.len() ==> r == Err::<&[u8], DafError>(
            DafError::Truncated,
        ),
{
    let start = (record_no - 1) * RECORD_BYTES;
    let end = start + RECORD_BYTES;
    if end > bytes.len() {
        Err(DafError::Truncated)
    } else {
        Ok(vstd::slice::slice_subrange(bytes, start, end))
    }
}

/// The integer half of a segment summary.
#[derive(Debug, Clone, Copy, PartialEq, Eq, Structural)]
pub struct SegmentSummary {
    pub target: i32,
    pub center: i32,
    pub frame: i32,
    pub data_type: i32,
    pub first_address: i32,
    pub last_address: i32,
}

/// The six integers of the summary whose integer part starts at `base`.
pub open spec fn summary_ints_spec(rec: Seq<u8>, base: int, endian: Endian) -> SegmentSummary {
    SegmentSummary {
        target: endian.i32_spec(rec.subrange(base, base + 4)),
        center: endian.i32_spec(rec.subrange(base + 4, base + 8)),
        frame: endian.i32_spec(rec.subrange(base + 8, base + 12)),
        data_type: endian.i32_spec(rec.subrange(base + 12, base + 16)),
        first_address: endian.i32_spec(rec.subrange(base + 16, base + 20)),
        last_address: endian.i32_spec(rec.subrange(base + 20, base + 24)),
    }
}

/// Reads the six integers of a summary whose integer part starts at byte
/// `base` of a summary record.
pub fn summary_ints(rec: &[u8], base: usize, endian: Endian) -> (r: SegmentSummary)
    requires
        base + 24 <= rec@.len(),
    ensures
        r == summary_ints_spec(rec@, base as int, endian),
{
    assert(rec@.len() == rec.len());
    SegmentSummary {
        target: endian.i32(vstd::slice::slice_subrange(rec, base, base + 4)),
        center: endian.i32(vstd::slice::slice_subrange(rec, base + 4, base + 8)),
        frame: endian.i32(vstd::slice::slice_subrange(rec, base + 8, base + 12)),
        data_type: endian.i32(vstd::slice::slice_subrange(rec, base + 12, base + 16)),
        first_address: endian.i32(vstd::slice::slice_subrange(rec, base + 16, base + 20)),
        last_address: endian.i32(vstd::slice::slice_subrange(rec, base + 20, base + 24)),
    }
}

/// Whether a segment of this data type carries velocity coefficients
/// (type 3) or not (type 2); other types are refused.
pub fn segment_has_velocity(data_type: i32) -> (r: Result<bool, DafError>)
    ensures
        data_type == 2 ==> r == Ok::<bool, DafError>(false),
        data_type == 3 ==> r == Ok::<bool, DafError>(true),
        data_type != 2 && data_type != 3 ==> r == Err::<bool, DafError>(
            DafError::UnsupportedSegmentType(data_type),
        ),
{
    if data_type == 2 {
        Ok(false)
    } else if data_type == 3 {
        Ok(true)
    } else {
        Err(DafError::UnsupportedSegmentType(data_type))
    }
}

} // verus!
