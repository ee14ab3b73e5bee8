//! Decoder of the compact constellation line and boundary tables.
//!
//! A table is an 8-byte magic, a little-endian `u32` segment count and then
//! 12-byte records: the three `i16` unit-vector components of the segment's
//! start and then of its end, each quantised by `i16::MAX`. The decoder
//! yields the quantised integers; scaling them to floating point is left to
//! the host.
use vstd::prelude::*;

use crate::deepsky::{i16_at, read_i16_le, read_u32_le, table_count};

verus! {

/// Length of the table header: magic plus segment count.
pub const SEGMENT_HEADER_LEN: usize = 12;

/// Length of one segment record.
pub const SEGMENT_RECORD_LEN: usize = 12;

/// One segment with quantised endpoints.
#[derive(Debug, Clone, Copy, PartialEq, Eq)]
pub struct QuantisedSegment {
    pub start: (i16, i16, i16),
    pub end: (i16, i16, i16),
}

/// True when `data` is a segment table with the given magic whose length
/// matches the segment count in its header.
pub open spec fn segment_table_well_formed(data: Seq<u8>, magic: Seq<u8>) -> bool {
    &&& magic.len() == 8
    &&& data.len() >= SEGMENT_HEADER_LEN
    &&& data.take(8) == magic
    &&& data.len() == SEGMENT_HEADER_LEN + table_count(data) * SEGMENT_RECORD_LEN
}

/// The segment stored at index `i` of a table.
pub open spec fn segment_spec(data: Seq<u8>, i: int) -> QuantisedSegment {
    let base = SEGMENT_HEADER_LEN + i * SEGMENT_RECORD_LEN;
    QuantisedSegment {
        start: (
            i16_at(data, base) as i16,
            i16_at(data, base + 2) as i16,
            i16_at(data, base + 4) as i16,
        ),
        end: (
            i16_at(data, base + 6) as i16,
            i16_at(data, base + 8) as i16,
            i16_at(data, base + 10) as i16,
        ),
    }
}

/// Checks the table header: the magic and the length the count implies.
pub fn is_well_formed_segment_table(data: &[u8], magic: &[u8]) -> (r: bool)
    ensures
        r == segment_table_well_formed(data@, magic@),
{
    if magic.len() != 8 || data.len() < SEGMENT_HEADER_LEN {
        return false;
    }
    let mut i: usize = 0;
    while i < 8
        invariant
            i <= 8,
            magic@.len() == 8,
            data@.len() >= 12,
            forall|j: int| 0 <= j < i ==> data@[j] == magic@[j],
        decreases 8 - i,
    {
        if data[i] != magic[i] {
            assert(data@.take(8)[i as int] != magic@[i as int]);
            return false;
        }
        i += 1;
    }
    assert(data@.take(8) =~= magic@);
    let count = read_u32_le(data, 8) as u64;
    let expected: u64 = 12 + count * 12;
    expected == data.len() as u64
}

/// Decodes every segment of a table.
pub fn decode_segments(data: &[u8], magic: &[u8]) -> (r: Vec<QuantisedSegment>)
    requires
        segment_table_well_formed(data@, magic@),
    ensures
        r@.len() == table_count(data@),
        forall|i: int| 0 <= i < r@.len() ==> #[trigger] r@[i] == segment_spec(data@, i),
{
    let count = read_u32_le(data, 8) as usize;
    let mut out: Vec<QuantisedSegment> = Vec::new();
    let n = data.len();
    let mut i: usize = 0;
    while i < count
        invariant
            n == data@.len(),
            i <= count,
            count == table_count(data@),
            segment_table_well_formed(data@, magic@),
            out@.len() == i,
            forall|k: int| 0 <= k < i ==> #[trigger] out@[k] == segment_spec(data@, k),
        decreases count - i,
    {
        assert(12 + (i + 1) * 12 <= data@.len()) by (nonlinear_arith)
            requires
                i + 1 <= count,
                data@.len() == 12 + count * 12,
        ;
        let base: usize = 12 + i * 12;
        let seg = QuantisedSegment {
            start: (read_i16_le(data, base), read_i16_le(data, base + 2), read_i16_le(data, base + 4)),
            end: (
                read_i16_le(data, base + 6),
                read_i16_le(data, base + 8),
                read_i16_le(data, base + 10),
            ),
        };
        out.push(seg);
        i += 1;
    }
    out
}

} // verus!
