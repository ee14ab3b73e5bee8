//! Deep-sky object identifiers and the decoder of the compact Messier / NGC
//! catalogue tables.
//!
//! A table is an 8-byte magic, a little-endian `u32` record count and then
//! 14-byte records: three `i16` unit-vector components (quantised by
//! `i16::MAX`), the `i16` primary identifier, the magnitude × 100 (`i16`), the
//! major-axis size in arcminutes × 10 (`i16`), a kind tag byte and a padding
//! byte. The decoder here yields the quantised integers; scaling them to
//! floating point is left to the host.
use vstd::prelude::*;

use crate::text::{dec, push_dec, push_str, string_from_chars};

verus! {

/// Length of the table header: magic plus record count.
pub const DEEP_SKY_HEADER_LEN: usize = 12;

/// Length of one table record.
pub const DEEP_SKY_RECORD_LEN: usize = 14;

/// Coarse object classification carried alongside each catalogue entry.
#[derive(Debug, Clone, Copy, PartialEq, Eq, Structural)]
pub enum DeepSkyKind {
    OpenCluster,
    GlobularCluster,
    Galaxy,
    Nebula,
    PlanetaryNebula,
    SupernovaRemnant,
    Other,
}

impl DeepSkyKind {
    /// The kind a table tag byte stands for (unknown tags are `Other`).
    pub open spec fn from_tag_spec(tag: u8) -> DeepSkyKind {
        if tag == 1 {
            DeepSkyKind::OpenCluster
        } else if tag == 2 {
            DeepSkyKind::GlobularCluster
        } else if tag == 3 {
            DeepSkyKind::Galaxy
        } else if tag == 4 {
            DeepSkyKind::Nebula
        } else if tag == 5 {
            DeepSkyKind::PlanetaryNebula
        } else if tag == 6 {
            DeepSkyKind::SupernovaRemnant
        } else {
            DeepSkyKind::Other
        }
    }

    pub fn from_tag(tag: u8) -> (r: DeepSkyKind)
        ensures
            r == Self::from_tag_spec(tag),
    {
        match tag {
            1 => DeepSkyKind::OpenCluster,
            2 => DeepSkyKind::GlobularCluster,
            3 => DeepSkyKind::Galaxy,
            4 => DeepSkyKind::Nebula,
            5 => DeepSkyKind::PlanetaryNebula,
            6 => DeepSkyKind::SupernovaRemnant,
            _ => DeepSkyKind::Other,
        }
    }
}

/// Primary identifier of a deep-sky object.
#[derive(Debug, Clone, Copy, PartialEq, Eq, Hash, Structural)]
pub enum DeepSkyId {
    Messier(u16),
    Ngc(u16),
    Ic(u16),
}

impl DeepSkyId {
    /// Short label: `"M31"`, `"NGC7000"`, `"IC434"`.
    pub open spec fn label_spec(self) -> Seq<char> {
        match self {
            DeepSkyId::Messier(n) => "M"@ + dec(n as nat),
            DeepSkyId::Ngc(n) => "NGC"@ + dec(n as nat),
            DeepSkyId::Ic(n) => "IC"@ + dec(n as nat),
        }
    }

    /// Sort key: Messier first, then NGC, then IC, numeric within each.
    pub open spec fn sort_key_spec(self) -> (u8, u16) {
        match self {
            DeepSkyId::Messier(n) => (0u8, n),
            DeepSkyId::Ngc(n) => (1u8, n),
            DeepSkyId::Ic(n) => (2u8, n),
        }
    }

    /// Short label string used by the renderer's text overlay.
    pub fn label(self) -> (r: String)
        ensures
            r@ == self.label_spec(),
    {
        let mut v: Vec<char> = Vec::new();
        let ghost e: Seq<char> = Seq::empty();
        match self {
            DeepSkyId::Messier(n) => {
                push_str(&mut v, "M");
                assert(e + "M"@ =~= "M"@);
                push_dec(&mut v, n as u64);
            },
            DeepSkyId::Ngc(n) => {
                push_str(&mut v, "NGC");
                assert(e + "NGC"@ =~= "NGC"@);
                push_dec(&mut v, n as u64);
            },
            DeepSkyId::Ic(n) => {
                push_str(&mut v, "IC");
                assert(e + "IC"@ =~= "IC"@);
                push_dec(&mut v, n as u64);
            },
        }
        string_from_chars(&v)
    }

    /// Stable sort key (Messier first, then NGC, then IC, numeric within each
    /// bucket).
    pub fn sort_key(self) -> (r: (u8, u16))
        ensures
            r == self.sort_key_spec(),
    {
        match self {
            DeepSkyId::Messier(n) => (0, n),
            DeepSkyId::Ngc(n) => (1, n),
            DeepSkyId::Ic(n) => (2, n),
        }
    }
}

/// Law: distinct identifiers have distinct sort keys, so ordering by the key
/// is a total order on identifiers.
pub proof fn lemma_sort_key_injective(a: DeepSkyId, b: DeepSkyId)
    ensures
        a.sort_key_spec() == b.sort_key_spec() ==> a == b,
{
}

/// Identifier of a Messier-table row.
pub fn decode_messier_id(raw: i16) -> (r: DeepSkyId)
    ensures
        r == DeepSkyId::Messier(raw as u16),
{
    DeepSkyId::Messier(raw as u16)
}

/// Identifier of an OpenNGC-table row: non-negative values are NGC numbers,
/// negative values `-(n + 1)` encode IC `n`.
pub open spec fn openngc_id_spec(raw: i16) -> DeepSkyId {
    if raw >= 0 {
        DeepSkyId::Ngc(raw as u16)
    } else {
        DeepSkyId::Ic((-(raw as int) - 1) as u16)
    }
}

pub fn decode_openngc_id(raw: i16) -> (r: DeepSkyId)
    ensures
        r == openngc_id_spec(raw),
{
    if raw >= 0 {
        DeepSkyId::Ngc(raw as u16)
    } else {
        let n: i32 = -(raw as i32) - 1;
        DeepSkyId::Ic(n as u16)
    }
}

/// Which identifier encoding a table uses.
#[derive(Debug, Clone, Copy, PartialEq, Eq, Structural)]
pub enum DeepSkyIdEncoding {
    /// Messier numbers stored directly.
    Messier,
    /// NGC numbers stored directly, IC numbers as `-(n + 1)`.
    OpenNgc,
}

/// Identifier a raw table value stands for under `encoding`.
pub open spec fn id_spec(encoding: DeepSkyIdEncoding, raw: i16) -> DeepSkyId {
    match encoding {
        DeepSkyIdEncoding::Messier => DeepSkyId::Messier(raw as u16),
        DeepSkyIdEncoding::OpenNgc => openngc_id_spec(raw),
    }
}

/// One decoded table record, with its quantised values.
#[derive(Debug, Clone, Copy, PartialEq, Eq, Structural)]
pub struct DeepSkyRecord {
    pub id: DeepSkyId,
    /// J2000 unit-vector components, each scaled by `i16::MAX`.
    pub x_q: i16,
    pub y_q: i16,
    pub z_q: i16,
    /// V magnitude × 100 (`9900` marks "no published photometry").
    pub magnitude_centi: i16,
    /// Major-axis size in arcminutes × 10.
    pub size_deci_arcmin: i16,
    pub kind: DeepSkyKind,
}

/// Little-endian unsigned value of two bytes.
pub open spec fn le_u16(b0: u8, b1: u8) -> int {
    b0 + 256 * b1
}

/// Little-endian two's-complement value of two bytes.
pub open spec fn le_i16(b0: u8, b1: u8) -> int {
    let u = le_u16(b0, b1);
    if u >= 0x8000 {
        u - 0x1_0000
    } else {
        u
    }
}

/// Little-endian unsigned value of four bytes.
pub open spec fn le_u32(b0: u8, b1: u8, b2: u8, b3: u8) -> int {
    b0 + 256 * b1 + 65536 * b2 + 16777216 * b3
}

/// The record count a table header declares.
pub open spec fn table_count(data: Seq<u8>) -> int {
    le_u32(data[8], data[9], data[10], data[11])
}

/// True when `data` is a table with the given magic whose length matches the
/// record count in its header.
pub open spec fn table_well_formed(data: Seq<u8>, magic: Seq<u8>) -> bool {
    &&& magic.len() == 8
    &&& data.len() >= DEEP_SKY_HEADER_LEN
    &&& data.take(8) == magic
    &&& data.len() == DEEP_SKY_HEADER_LEN + table_count(data) * DEEP_SKY_RECORD_LEN
}

/// The `i16` stored at byte `off` of `data`.
pub open spec fn i16_at(data: Seq<u8>, off: int) -> int {
    le_i16(data[off], data[off + 1])
}

/// The record stored at index `i` of a table.
pub open spec fn record_spec(data: Seq<u8>, encoding: DeepSkyIdEncoding, i: int) -> DeepSkyRecord {
    let base = DEEP_SKY_HEADER_LEN + i * DEEP_SKY_RECORD_LEN;
    DeepSkyRecord {
        id: id_spec(encoding, i16_at(data, base + 6) as i16),
        x_q: i16_at(data, base) as i16,
        y_q: i16_at(data, base + 2) as i16,
        z_q: i16_at(data, base + 4) as i16,
        magnitude_centi: i16_at(data, base + 8) as i16,
        size_deci_arcmin: i16_at(data, base + 10) as i16,
        kind: DeepSkyKind::from_tag_spec(data[base + 12]),
    }
}

/// The `i16` stored little-endian at `data[off..off + 2]`.
pub(crate) fn read_i16_le(data: &[u8], off: usize) -> (r: i16)
    requires
        off + 2 <= data@.len(),
    ensures
        r == i16_at(data@, off as int),
{
    let b0 = data[off];
    let b1 = data[off + 1];
    let u: u16 = (b0 as u16) | ((b1 as u16) << 8u16);
    assert((b0 as u16) | ((b1 as u16) << 8u16) == b0 + 256 * b1) by (bit_vector);
    let v: i32 = if u >= 0x8000 {
        u as i32 - 0x1_0000
    } else {
        u as i32
    };
    v as i16
}

/// The `u32` stored little-endian at `data[off..off + 4]`.
pub(crate) fn read_u32_le(data: &[u8], off: usize) -> (r: u32)
    requires
        off + 4 <= data@.len(),
    ensures
        r == le_u32(data@[off as int], data@[off + 1], data@[off + 2], data@[off + 3]),
{
    let b0 = data[off];
    let b1 = data[off + 1];
    let b2 = data[off + 2];
    let b3 = data[off + 3];
    let r: u32 = (b0 as u32) | ((b1 as u32) << 8u32) | ((b2 as u32) << 16u32) | ((b3 as u32)
        << 24u32);
    assert((b0 as u32) | ((b1 as u32) << 8u32) | ((b2 as u32) << 16u32) | ((b3 as u32) << 24u32)
        == b0 + 256 * b1 + 65536 * b2 + 16777216 * b3) by (bit_vector);
    r
}

/// Checks the table header: the magic and the length the record count implies.
pub fn is_well_formed_table(data: &[u8], magic: &[u8]) -> (r: bool)
    ensures
        r == table_well_formed(data@, magic@),
{
    if magic.len() != 8 || data.len() < DEEP_SKY_HEADER_LEN {
        return false;
    }
    let mut i: usize = 0;
    while i < 8
        invariant
            i <= 8,
            magic@.len() == 8,
            data@.len() >= 12,
            forall|j: int| 0 <= j < i ==> data@[j] == magic@[j],
        decreases 8 - i,
    {
        if data[i] != magic[i] {
            assert(data@.take(8)[i as int] != magic@[i as int]);
            return false;
        }
        i += 1;
    }
    assert(data@.take(8) =~= magic@);
    let count = read_u32_le(data, 8) as u64;
    let expected: u64 = 12 + count * 14;
    expected == data.len() as u64
}

/// Decodes every record of a table.
pub fn decode_table(data: &[u8], magic: &[u8], encoding: DeepSkyIdEncoding) -> (r: Vec<DeepSkyRecord>)
    requires
        table_well_formed(data@, magic@),
    ensures
        r@.len() == table_count(data@),
        forall|i: int| 0 <= i < r@.len() ==> #[trigger] r@[i] == record_spec(data@, encoding, i),
{
    let count = read_u32_le(data, 8) as usize;
    let mut out: Vec<DeepSkyRecord> = Vec::new();
    let n = data.len();
    let mut i: usize = 0;
    while i < count
        invariant
            n == data@.len(),
            i <= count,
            count == table_count(data@),
            table_well_formed(data@, magic@),
            out@.len() == i,
            forall|k: int| 0 <= k < i ==> #[trigger] out@[k] == record_spec(data@, encoding, k),
        decreases count - i,
    {
        assert(12 + (i + 1) * 14 <= data@.len()) by (nonlinear_arith)
            requires
                i + 1 <= count,
                data@.len() == 12 + count * 14,
        ;
        let base: usize = 12 + i * 14;
        let x = read_i16_le(data, base);
        let y = read_i16_le(data, base + 2);
        let z = read_i16_le(data, base + 4);
        let raw_id = read_i16_le(data, base + 6);
        let mag = read_i16_le(data, base + 8);
        let size = read_i16_le(data, base + 10);
        let tag = data[base + 12];
        let id = match encoding {
            DeepSkyIdEncoding::Messier => decode_messier_id(raw_id),
            DeepSkyIdEncoding::OpenNgc => decode_openngc_id(raw_id),
        };
        let rec = DeepSkyRecord {
            id,
            x_q: x,
            y_q: y,
            z_q: z,
            magnitude_centi: mag,
            size_deci_arcmin: size,
            kind: DeepSkyKind::from_tag(tag),
        };
        out.push(rec);
        i += 1;
    }
    out
}

/// The embedded Messier catalogue (110 objects).
#[derive(Debug, Clone, Copy, Default)]
pub struct MessierCatalog;

impl MessierCatalog {
    /// Catalogue name used in logs and the validation gallery.
    pub fn name(&self) -> (r: &'static str)
        ensures
            r@ == "Messier"@,
    {
        "Messier"
    }
}

/// The embedded bright NGC / IC subset.
#[derive(Debug, Clone, Copy, Default)]
pub struct NgcBrightCatalog;

impl NgcBrightCatalog {
    /// Catalogue name used in logs and the validation gallery.
    pub fn name(&self) -> (r: &'static str)
        ensures
            r@ == "OpenNGC bright"@,
    {
        "OpenNGC bright"
    }
}

} // verus!
