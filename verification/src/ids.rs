//! Catalogue object identifiers and the cross-identifier set carried by each
//! catalogue row.
use vstd::prelude::*;

use crate::text::{dec, push_dec, push_str, string_from_chars};

verus! {

/// Numeric object identifiers, independent of any one large-catalogue schema.
#[derive(Debug, Clone, Copy, PartialEq, Eq, Hash, Structural)]
pub enum CatalogObjectId {
    Hyg(u32),
    Hipparcos(u32),
    HenryDraper(u32),
    Tycho2(u64),
    GaiaDr3(u64),
}

// ---------------------------------------------------------------------------
// Tycho-2 designation packing
// ---------------------------------------------------------------------------

/// The documented range of a Tycho-2 designation `TYC1-TYC2-TYC3`: TYC2 fits
/// in 20 bits and the component TYC3 in 4 bits.
pub open spec fn tyc_in_range(tyc2: u32, tyc3: u32) -> bool {
    tyc2 < 0x10_0000 && tyc3 < 16
}

/// Packed value of a designation: `TYC1·2²⁴ + TYC2·2⁴ + TYC3` on the
/// documented range.
pub open spec fn tyc_packed_value(tyc1: u32, tyc2: u32, tyc3: u32) -> int {
    tyc1 * 0x100_0000 + tyc2 * 16 + tyc3
}

/// Pack a Tycho-2 designation into one `u64`:
/// `(TYC1 << 24) | (TYC2 << 4) | (TYC3 & 0xF)`.
pub fn pack_tyc(tyc1: u32, tyc2: u32, tyc3: u32) -> (r: u64)
    ensures
        r == ((tyc1 as u64) << 24u64) | ((tyc2 as u64) << 4u64) | ((tyc3 as u64) & 0xFu64),
        tyc_in_range(tyc2, tyc3) ==> r == tyc_packed_value(tyc1, tyc2, tyc3),
{
    let r = ((tyc1 as u64) << 24u64) | ((tyc2 as u64) << 4u64) | ((tyc3 as u64) & 0xFu64);
    proof {
        let a = tyc1 as u64;
        let b = tyc2 as u64;
        let c = tyc3 as u64;
        if tyc_in_range(tyc2, tyc3) {
            assert(b < 0x10_0000 && c < 16 && a < 0x1_0000_0000 ==> (a << 24u64) | (b << 4u64) | (
            c & 0xFu64) == a * 0x100_0000 + b * 16 + c) by (bit_vector);
        }
    }
    r
}

/// Inverse of [`pack_tyc`]: `(packed >> 24, (packed >> 4) & 0xFFFFF,
/// packed & 0xF)`, the first part truncated to 32 bits.
pub fn unpack_tyc(packed: u64) -> (r: (u32, u32, u32))
    ensures
        r.0 == (packed / 0x100_0000) % 0x1_0000_0000,
        r.1 == (packed / 16) % 0x10_0000,
        r.2 == packed % 16,
{
    let t1 = (packed >> 24u64) as u32;
    let t2 = ((packed >> 4u64) & 0xF_FFFFu64) as u32;
    let t3 = (packed & 0xFu64) as u32;
    proof {
        assert((packed >> 24u64) as u32 == (packed / 0x100_0000) % 0x1_0000_0000) by (bit_vector);
        assert(((packed >> 4u64) & 0xF_FFFFu64) as u32 == (packed / 16) % 0x10_0000) by (bit_vector);
        assert((packed & 0xFu64) as u32 == packed % 16) by (bit_vector);
    }
    (t1, t2, t3)
}

/// Law: unpacking a packed designation in the documented range gives the
/// designation back.
pub proof fn lemma_tyc_round_trip(tyc1: u32, tyc2: u32, tyc3: u32)
    requires
        tyc_in_range(tyc2, tyc3),
    ensures
        ({
            let p = tyc_packed_value(tyc1, tyc2, tyc3);
            &&& 0 <= p < 0x1_0000_0000_0000_0000
            &&& (p / 0x100_0000) % 0x1_0000_0000 == tyc1
            &&& (p / 16) % 0x10_0000 == tyc2
            &&& p % 16 == tyc3
        }),
{
    let p = tyc_packed_value(tyc1, tyc2, tyc3);
    let a = tyc1 as int;
    let b = tyc2 as int;
    let c = tyc3 as int;
    assert(0 <= p < 0x1_0000_0000_0000_0000) by (nonlinear_arith)
        requires
            p == a * 0x100_0000 + b * 16 + c,
            0 <= a < 0x1_0000_0000,
            0 <= b < 0x10_0000,
            0 <= c < 16,
    ;
    assert(p % 16 == c && p / 16 == a * 0x10_0000 + b) by (nonlinear_arith)
        requires
            p == a * 0x100_0000 + b * 16 + c,
            0 <= b < 0x10_0000,
            0 <= c < 16,
            0 <= a,
    ;
    assert((a * 0x10_0000 + b) % 0x10_0000 == b) by (nonlinear_arith)
        requires
            0 <= b < 0x10_0000,
            0 <= a,
    ;
    assert(p / 0x100_0000 == a) by (nonlinear_arith)
        requires
            p == a * 0x100_0000 + b * 16 + c,
            0 <= b < 0x10_0000,
            0 <= c < 16,
            0 <= a,
    ;
    assert(a % 0x1_0000_0000 == a);
}

// ---------------------------------------------------------------------------
// CatalogObjectId
// ---------------------------------------------------------------------------

impl CatalogObjectId {
    /// Catalogue family prefix (`"HYG"`, `"HIP"`, `"HD"`, `"TYC2"`, `"Gaia DR3"`).
    pub open spec fn namespace_spec(self) -> Seq<char> {
        match self {
            CatalogObjectId::Hyg(_) => "HYG"@,
            CatalogObjectId::Hipparcos(_) => "HIP"@,
            CatalogObjectId::HenryDraper(_) => "HD"@,
            CatalogObjectId::Tycho2(_) => "TYC2"@,
            CatalogObjectId::GaiaDr3(_) => "Gaia DR3"@,
        }
    }

    /// Family discriminant of the pick handle; `0` is reserved for "no id".
    pub open spec fn kind_tag_spec(self) -> u32 {
        match self {
            CatalogObjectId::Hyg(_) => 1,
            CatalogObjectId::Hipparcos(_) => 2,
            CatalogObjectId::HenryDraper(_) => 3,
            CatalogObjectId::Tycho2(_) => 4,
            CatalogObjectId::GaiaDr3(_) => 5,
        }
    }

    /// Raw numeric value of the identifier, widened to `u64`.
    pub open spec fn numeric_spec(self) -> u64 {
        match self {
            CatalogObjectId::Hyg(v) => v as u64,
            CatalogObjectId::Hipparcos(v) => v as u64,
            CatalogObjectId::HenryDraper(v) => v as u64,
            CatalogObjectId::Tycho2(v) => v,
            CatalogObjectId::GaiaDr3(v) => v,
        }
    }

    /// The identifier a `(kind_tag, value)` pair stands for.
    pub open spec fn from_parts_spec(kind_tag: u32, value: u64) -> Option<CatalogObjectId> {
        if kind_tag == 1 {
            Some(CatalogObjectId::Hyg(value as u32))
        } else if kind_tag == 2 {
            Some(CatalogObjectId::Hipparcos(value as u32))
        } else if kind_tag == 3 {
            Some(CatalogObjectId::HenryDraper(value as u32))
        } else if kind_tag == 4 {
            Some(CatalogObjectId::Tycho2(value))
        } else if kind_tag == 5 {
            Some(CatalogObjectId::GaiaDr3(value))
        } else {
            None
        }
    }

    /// Canonical label: `"HYG n"`, `"HIP n"`, `"HD n"`, `"TYC a-b-c"` (from
    /// the unpacked designation), `"Gaia DR3 n"`.
    pub open spec fn label_spec(self) -> Seq<char> {
        match self {
            CatalogObjectId::Hyg(v) => "HYG "@ + dec(v as nat),
            CatalogObjectId::Hipparcos(v) => "HIP "@ + dec(v as nat),
            CatalogObjectId::HenryDraper(v) => "HD "@ + dec(v as nat),
            CatalogObjectId::Tycho2(v) => "TYC "@ + dec(((v / 0x100_0000) % 0x1_0000_0000) as nat)
                + "-"@ + dec(((v / 16) % 0x10_0000) as nat) + "-"@ + dec((v % 16) as nat),
            CatalogObjectId::GaiaDr3(v) => "Gaia DR3 "@ + dec(v as nat),
        }
    }

    pub fn namespace(self) -> (r: &'static str)
        ensures
            r@ == self.namespace_spec(),
    {
        match self {
            CatalogObjectId::Hyg(_) => "HYG",
            CatalogObjectId::Hipparcos(_) => "HIP",
            CatalogObjectId::HenryDraper(_) => "HD",
            CatalogObjectId::Tycho2(_) => "TYC2",
            CatalogObjectId::GaiaDr3(_) => "Gaia DR3",
        }
    }

    /// Compact family discriminant used by the renderer-instance pick handle
    /// (see [`CatalogIdentifiers::pick_handle`]).
    pub fn kind_tag(self) -> (r: u32)
        ensures
            r == self.kind_tag_spec(),
            r != 0,
    {
        match self {
            CatalogObjectId::Hyg(_) => 1,
            CatalogObjectId::Hipparcos(_) => 2,
            CatalogObjectId::HenryDraper(_) => 3,
            CatalogObjectId::Tycho2(_) => 4,
            CatalogObjectId::GaiaDr3(_) => 5,
        }
    }

    /// Raw numeric value of the identifier, widened to `u64`.
    pub fn numeric(self) -> (r: u64)
        ensures
            r == self.numeric_spec(),
    {
        match self {
            CatalogObjectId::Hyg(v) => v as u64,
            CatalogObjectId::Hipparcos(v) => v as u64,
            CatalogObjectId::HenryDraper(v) => v as u64,
            CatalogObjectId::Tycho2(v) => v,
            CatalogObjectId::GaiaDr3(v) => v,
        }
    }

    /// Reconstruct an id from a kind tag and numeric value, the inverse of the
    /// pick-handle packing. `None` for tag `0` or an unknown tag; the 32-bit
    /// families keep the low 32 bits of `value`.
    pub fn from_parts(kind_tag: u32, value: u64) -> (r: Option<CatalogObjectId>)
        ensures
            r == Self::from_parts_spec(kind_tag, value),
    {
        match kind_tag {
            1 => Some(CatalogObjectId::Hyg(value as u32)),
            2 => Some(CatalogObjectId::Hipparcos(value as u32)),
            3 => Some(CatalogObjectId::HenryDraper(value as u32)),
            4 => Some(CatalogObjectId::Tycho2(value)),
            5 => Some(CatalogObjectId::GaiaDr3(value)),
            _ => None,
        }
    }

    /// Canonical human / SIMBAD-resolvable label, e.g. `"HIP 32349"`,
    /// `"TYC 5949-2777-1"`, `"Gaia DR3 2947050466531873024"`.
    pub fn label(self) -> (r: String)
        ensures
            r@ == self.label_spec(),
    {
        let mut v: Vec<char> = Vec::new();
        match self {
            CatalogObjectId::Hyg(n) => {
                push_str(&mut v, "HYG ");
                push_dec(&mut v, n as u64);
            },
            CatalogObjectId::Hipparcos(n) => {
                push_str(&mut v, "HIP ");
                push_dec(&mut v, n as u64);
            },
            CatalogObjectId::HenryDraper(n) => {
                push_str(&mut v, "HD ");
                push_dec(&mut v, n as u64);
            },
            CatalogObjectId::Tycho2(n) => {
                let (t1, t2, t3) = unpack_tyc(n);
                push_str(&mut v, "TYC ");
                push_dec(&mut v, t1 as u64);
                push_str(&mut v, "-");
                push_dec(&mut v, t2 as u64);
                push_str(&mut v, "-");
                push_dec(&mut v, t3 as u64);
            },
            CatalogObjectId::GaiaDr3(n) => {
                push_str(&mut v, "Gaia DR3 ");
                push_dec(&mut v, n);
            },
        }
        let ghost e: Seq<char> = Seq::empty();
        assert(e + "HYG "@ =~= "HYG "@);
        assert(e + "HIP "@ =~= "HIP "@);
        assert(e + "HD "@ =~= "HD "@);
        assert(e + "TYC "@ =~= "TYC "@);
        assert(e + "Gaia DR3 "@ =~= "Gaia DR3 "@);
        string_from_chars(&v)
    }
}

/// Law: an identifier is recovered exactly from its pick-handle parts, its
/// kind tag and its numeric value.
pub proof fn lemma_from_parts_round_trip(id: CatalogObjectId)
    ensures
        CatalogObjectId::from_parts_spec(id.kind_tag_spec(), id.numeric_spec()) == Some(id),
{
}

/// Law: tag `0` (and any tag above `5`) stands for no identifier.
pub proof fn lemma_from_parts_unknown_tag(kind_tag: u32, value: u64)
    requires
        kind_tag == 0 || kind_tag > 5,
    ensures
        CatalogObjectId::from_parts_spec(kind_tag, value) is None,
{
}

// ---------------------------------------------------------------------------
// CatalogIdentifiers
// ---------------------------------------------------------------------------

/// Known cross-identifiers for one catalogue row.
#[derive(Debug, Clone, Copy, PartialEq, Eq, Hash, Structural)]
pub struct CatalogIdentifiers {
    pub primary: Option<CatalogObjectId>,
    pub hyg: Option<u32>,
    pub hip: Option<u32>,
    pub hd: Option<u32>,
    pub tycho2: Option<u64>,
    pub gaia_dr3: Option<u64>,
}

impl Default for CatalogIdentifiers {
    /// The identifier-less row.
    fn default() -> (r: Self)
        ensures
            r == CatalogIdentifiers::empty_spec(),
    {
        CatalogIdentifiers {
            primary: None,
            hyg: None,
            hip: None,
            hd: None,
            tycho2: None,
            gaia_dr3: None,
        }
    }
}

impl CatalogIdentifiers {
    /// The row that carries no identifier at all.
    pub open spec fn empty_spec() -> CatalogIdentifiers {
        CatalogIdentifiers {
            primary: None,
            hyg: None,
            hip: None,
            hd: None,
            tycho2: None,
            gaia_dr3: None,
        }
    }

    /// The primary identifier of a row: the explicit `primary`, else the first
    /// preserved cross-ID in the order HIP, HD, TYC, Gaia, HYG.
    pub open spec fn resolved_primary_spec(self) -> Option<CatalogObjectId> {
        if self.primary is Some {
            self.primary
        } else if self.hip is Some {
            Some(CatalogObjectId::Hipparcos(self.hip->0))
        } else if self.hd is Some {
            Some(CatalogObjectId::HenryDraper(self.hd->0))
        } else if self.tycho2 is Some {
            Some(CatalogObjectId::Tycho2(self.tycho2->0))
        } else if self.gaia_dr3 is Some {
            Some(CatalogObjectId::GaiaDr3(self.gaia_dr3->0))
        } else if self.hyg is Some {
            Some(CatalogObjectId::Hyg(self.hyg->0))
        } else {
            None
        }
    }

    /// Identifiers of a HYG row: the HYG id is primary when present; HIP and
    /// HD cross-IDs are preserved.
    pub fn from_hyg_row(hyg: Option<u32>, hip: Option<u32>, hd: Option<u32>) -> (r: Self)
        ensures
            r.primary == (match hyg {
                Some(id) => Some(CatalogObjectId::Hyg(id)),
                None => None,
            }),
            r.hyg == hyg,
            r.hip == hip,
            r.hd == hd,
            r.tycho2 is None,
            r.gaia_dr3 is None,
    {
        CatalogIdentifiers {
            primary: match hyg {
                Some(id) => Some(CatalogObjectId::Hyg(id)),
                None => None,
            },
            hyg,
            hip,
            hd,
            tycho2: None,
            gaia_dr3: None,
        }
    }

    /// Identifiers of a Hipparcos row: the HIP number is primary; an HD
    /// cross-ID is preserved.
    pub fn from_hipparcos_row(hip: u32, hd: Option<u32>) -> (r: Self)
        ensures
            r == (CatalogIdentifiers {
                primary: Some(CatalogObjectId::Hipparcos(hip)),
                hyg: None,
                hip: Some(hip),
                hd,
                tycho2: None,
                gaia_dr3: None,
            }),
    {
        CatalogIdentifiers {
            primary: Some(CatalogObjectId::Hipparcos(hip)),
            hyg: None,
            hip: Some(hip),
            hd,
            tycho2: None,
            gaia_dr3: None,
        }
    }

    /// Identifiers of a Tycho-2 row: the packed TYC number is primary; a HIP
    /// cross-ID is preserved.
    pub fn from_tycho2_row(tycho2: u64, hip: Option<u32>) -> (r: Self)
        ensures
            r == (CatalogIdentifiers {
                primary: Some(CatalogObjectId::Tycho2(tycho2)),
                hyg: None,
                hip,
                hd: None,
                tycho2: Some(tycho2),
                gaia_dr3: None,
            }),
    {
        CatalogIdentifiers {
            primary: Some(CatalogObjectId::Tycho2(tycho2)),
            hyg: None,
            hip,
            hd: None,
            tycho2: Some(tycho2),
            gaia_dr3: None,
        }
    }

    /// Identifiers of a Gaia DR3 row: the `source_id` is primary; HIP and HD
    /// cross-IDs are preserved.
    pub fn from_gaia_row(gaia_dr3: u64, hip: Option<u32>, hd: Option<u32>) -> (r: Self)
        ensures
            r == (CatalogIdentifiers {
                primary: Some(CatalogObjectId::GaiaDr3(gaia_dr3)),
                hyg: None,
                hip,
                hd,
                tycho2: None,
                gaia_dr3: Some(gaia_dr3),
            }),
    {
        CatalogIdentifiers {
            primary: Some(CatalogObjectId::GaiaDr3(gaia_dr3)),
            hyg: None,
            hip,
            hd,
            tycho2: None,
            gaia_dr3: Some(gaia_dr3),
        }
    }

    /// The canonical primary identifier of this row (see
    /// [`Self::resolved_primary_spec`]); `None` only for an identifier-less row.
    pub fn resolved_primary(self) -> (r: Option<CatalogObjectId>)
        ensures
            r == self.resolved_primary_spec(),
    {
        if let Some(primary) = self.primary {
            return Some(primary);
        }
        if let Some(hip) = self.hip {
            return Some(CatalogObjectId::Hipparcos(hip));
        }
        if let Some(hd) = self.hd {
            return Some(CatalogObjectId::HenryDraper(hd));
        }
        if let Some(tyc) = self.tycho2 {
            return Some(CatalogObjectId::Tycho2(tyc));
        }
        if let Some(gaia) = self.gaia_dr3 {
            return Some(CatalogObjectId::GaiaDr3(gaia));
        }
        match self.hyg {
            Some(h) => Some(CatalogObjectId::Hyg(h)),
            None => None,
        }
    }

    /// Canonical primary-ID label (e.g. `"HIP 32349"`), or `None` for an
    /// identifier-less row.
    pub fn primary_label(self) -> (r: Option<String>)
        ensures
            match self.resolved_primary_spec() {
                Some(id) => r is Some && r->0@ == id.label_spec(),
                None => r is None,
            },
    {
        match self.resolved_primary() {
            Some(id) => Some(id.label()),
            None => None,
        }
    }

    /// The compact `(kind_tag, value)` pick handle of the resolved primary
    /// identifier; `(0, 0)` means "no identifier".
    pub fn pick_handle(self) -> (r: (u32, u64))
        ensures
            match self.resolved_primary_spec() {
                Some(id) => r == (id.kind_tag_spec(), id.numeric_spec()),
                None => r == (0u32, 0u64),
            },
    {
        match self.resolved_primary() {
            Some(id) => (id.kind_tag(), id.numeric()),
            None => (0, 0),
        }
    }
}

/// Law: the pick handle of a row maps back, through
/// [`CatalogObjectId::from_parts`], to the row's resolved primary identifier
/// (and tag `0` to `None` for an identifier-less row).
pub proof fn lemma_pick_handle_round_trip(ids: CatalogIdentifiers)
    ensures
        ({
            let handle = match ids.resolved_primary_spec() {
                Some(id) => (id.kind_tag_spec(), id.numeric_spec()),
                None => (0u32, 0u64),
            };
            &&& CatalogObjectId::from_parts_spec(handle.0, handle.1) == ids.resolved_primary_spec()
            &&& (handle.0 == 0 <==> ids.resolved_primary_spec() is None)
        }),
{
}

// ---------------------------------------------------------------------------
// Backend identity
// ---------------------------------------------------------------------------

/// Which catalogue backend produced a page of stars.
#[derive(Debug, Clone, Copy, PartialEq, Eq, Structural)]
pub enum CatalogBackendKind {
    HygCsv,
    HygEmbedded,
    Hipparcos,
    Tycho2,
    GaiaDr3,
}

impl CatalogBackendKind {
    /// Session-snapshot name of the backend.
    pub open spec fn kebab_spec(self) -> Seq<char> {
        match self {
            CatalogBackendKind::HygCsv => "hyg-csv"@,
            CatalogBackendKind::HygEmbedded => "hyg-embedded"@,
            CatalogBackendKind::Hipparcos => "hipparcos"@,
            CatalogBackendKind::Tycho2 => "tycho2"@,
            CatalogBackendKind::GaiaDr3 => "gaia-dr3"@,
        }
    }

    pub fn as_kebab_str(self) -> (r: &'static str)
        ensures
            r@ == self.kebab_spec(),
    {
        match self {
            CatalogBackendKind::HygCsv => "hyg-csv",
            CatalogBackendKind::HygEmbedded => "hyg-embedded",
            CatalogBackendKind::Hipparcos => "hipparcos",
            CatalogBackendKind::Tycho2 => "tycho2",
            CatalogBackendKind::GaiaDr3 => "gaia-dr3",
        }
    }
}

/// Stable backend/source identity carried by catalogue snapshots.
#[derive(Debug, Clone, Copy, PartialEq, Eq)]
pub struct CatalogSource {
    pub backend: CatalogBackendKind,
    pub name: &'static str,
    pub version: Option<&'static str>,
}

impl CatalogSource {
    /// HYG v4.2 read from a CSV file.
    pub open spec fn hyg_csv_spec() -> CatalogSource {
        CatalogSource { backend: CatalogBackendKind::HygCsv, name: "HYG", version: Some("4.2") }
    }

    /// HYG v4.2 read from a CSV file.
    pub fn hyg_csv() -> (r: Self)
        ensures
            r == Self::hyg_csv_spec(),
            r.name@ == "HYG"@,
            r.version is Some && r.version->0@ == "4.2"@,
    {
        CatalogSource { backend: CatalogBackendKind::HygCsv, name: "HYG", version: Some("4.2") }
    }

    /// HYG v4.2 compiled into the binary.
    pub open spec fn hyg_embedded_spec() -> CatalogSource {
        CatalogSource { backend: CatalogBackendKind::HygEmbedded, name: "HYG", version: Some("4.2") }
    }

    /// HYG v4.2 compiled into the binary.
    pub fn hyg_embedded() -> (r: Self)
        ensures
            r == Self::hyg_embedded_spec(),
            r.name@ == "HYG"@,
            r.version is Some && r.version->0@ == "4.2"@,
    {
        CatalogSource { backend: CatalogBackendKind::HygEmbedded, name: "HYG", version: Some("4.2") }
    }

    /// Hipparcos main catalogue (VizieR I/239).
    pub open spec fn hipparcos_spec() -> CatalogSource {
        CatalogSource { backend: CatalogBackendKind::Hipparcos, name: "Hipparcos", version: Some("I/239") }
    }

    /// Hipparcos main catalogue (VizieR I/239).
    pub fn hipparcos() -> (r: Self)
        ensures
            r == Self::hipparcos_spec(),
            r.name@ == "Hipparcos"@,
            r.version is Some && r.version->0@ == "I/239"@,
    {
        CatalogSource { backend: CatalogBackendKind::Hipparcos, name: "Hipparcos", version: Some("I/239") }
    }

    /// Tycho-2 catalogue (VizieR I/259).
    pub open spec fn tycho2_spec() -> CatalogSource {
        CatalogSource { backend: CatalogBackendKind::Tycho2, name: "Tycho-2", version: Some("I/259") }
    }

    /// Tycho-2 catalogue (VizieR I/259).
    pub fn tycho2() -> (r: Self)
        ensures
            r == Self::tycho2_spec(),
            r.name@ == "Tycho-2"@,
            r.version is Some && r.version->0@ == "I/259"@,
    {
        CatalogSource { backend: CatalogBackendKind::Tycho2, name: "Tycho-2", version: Some("I/259") }
    }

    /// Gaia DR3 source catalogue (VizieR I/355).
    pub open spec fn gaia_dr3_spec() -> CatalogSource {
        CatalogSource { backend: CatalogBackendKind::GaiaDr3, name: "Gaia DR3", version: Some("I/355") }
    }

    /// Gaia DR3 source catalogue (VizieR I/355).
    pub fn gaia_dr3() -> (r: Self)
        ensures
            r == Self::gaia_dr3_spec(),
            r.name@ == "Gaia DR3"@,
            r.version is Some && r.version->0@ == "I/355"@,
    {
        CatalogSource { backend: CatalogBackendKind::GaiaDr3, name: "Gaia DR3", version: Some("I/355") }
    }

}

/// What a catalogue label names.
#[derive(Debug, Clone, Copy, PartialEq, Eq, Structural)]
pub enum CatalogLabelKind {
    Star,
    Constellation,
    Messier,
    Ngc,
}

} // verus!
