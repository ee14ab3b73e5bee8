//! Level-of-detail tile index and the content-addressable blob stores that
//! hold tile payloads.
//!
//! Faint stars are stored as spatial-magnitude tiles. The [`LodIndex`] maps
//! each populated tile to the content hash of its payload; a [`BlobStore`]
//! returns payload bytes by that hash, so identical payloads dedupe to one
//! blob.
use vstd::prelude::*;

use crate::text::{chars_of, string_from_chars, str_eq, utf8_width};

verus! {

/// Number of latitude (declination) bands in the tile grid.
pub const LAT_BANDS: u16 = 18;

/// Number of longitude (right-ascension) bands in the tile grid.
pub const LON_BANDS: u16 = 36;

/// The bright all-sky base tier that is always streamed in full.
pub const BASE_TIER: u8 = 0;

/// Identifier of one spatial-magnitude tile.
#[derive(Debug, Clone, Copy, PartialEq, Eq, Hash, PartialOrd, Ord, Structural)]
pub struct TileId {
    /// Magnitude tier index (0 = bright base layer).
    pub tier: u8,
    /// Latitude band index in `0..LAT_BANDS` (band 0 is the south pole cap).
    pub lat: u16,
    /// Longitude band index in `0..LON_BANDS`.
    pub lon: u16,
}

/// One row of the LOD index: a populated tile, the content hash of its
/// payload blob, and its row count.
#[derive(Debug, PartialEq, Eq)]
pub struct LodTileEntry {
    pub tile: TileId,
    pub content_hash: String,
    pub rows: u32,
}

/// True when no two entries share a tile.
pub open spec fn tiles_unique(entries: Seq<LodTileEntry>) -> bool {
    forall|i: int, j: int|
        0 <= i < j < entries.len() ==> (#[trigger] entries[i]).tile != (#[trigger] entries[j]).tile
}

/// Index of the entry for `tile`, if any.
pub open spec fn entry_index(entries: Seq<LodTileEntry>, tile: TileId) -> Option<int> {
    if exists|i: int| 0 <= i < entries.len() && (#[trigger] entries[i]).tile == tile {
        Some(choose|i: int| 0 <= i < entries.len() && (#[trigger] entries[i]).tile == tile)
    } else {
        None
    }
}

impl Clone for LodTileEntry {
    fn clone(&self) -> (r: Self)
        ensures
            r == *self,
    {
        LodTileEntry { tile: self.tile, content_hash: self.content_hash.clone(), rows: self.rows }
    }
}

/// The populated tiles of a tiled catalogue, in insertion order, each tile
/// at most once.
#[derive(Debug)]
pub struct LodIndex {
    entries: Vec<LodTileEntry>,
}

impl LodIndex {
    #[verifier::type_invariant]
    spec fn inv(self) -> bool {
        tiles_unique(self.entries@)
    }

    /// The entries of the index, in insertion order.
    pub closed spec fn entries_spec(&self) -> Seq<LodTileEntry> {
        self.entries@
    }

    /// An empty index.
    pub fn new() -> (r: Self)
        ensures
            r.entries_spec() == Seq::<LodTileEntry>::empty(),
            tiles_unique(r.entries_spec()),
    {
        LodIndex { entries: Vec::new() }
    }

    fn find(&self, tile: TileId) -> (r: Option<usize>)
        ensures
            match r {
                Some(i) => i < self.entries@.len() && self.entries@[i as int].tile == tile,
                None => forall|i: int|
                    0 <= i < self.entries@.len() ==> (#[trigger] self.entries@[i]).tile != tile,
            },
    {
        let mut i: usize = 0;
        while i < self.entries.len()
            invariant
                i <= self.entries@.len(),
                forall|k: int| 0 <= k < i ==> (#[trigger] self.entries@[k]).tile != tile,
            decreases self.entries@.len() - i,
        {
            if self.entries[i].tile == tile {
                return Some(i);
            }
            i += 1;
        }
        None
    }

    /// Insert the entry for `tile`, replacing (in place) an existing entry
    /// for the same tile.
    pub fn insert(&mut self, tile: TileId, content_hash: String, rows: u32)
        ensures
            tiles_unique(final(self).entries_spec()),
            ({
                let entry = LodTileEntry { tile, content_hash, rows };
                match entry_index(old(self).entries_spec(), tile) {
                    Some(i) => final(self).entries_spec() == old(self).entries_spec().update(
                        i,
                        entry,
                    ),
                    None => final(self).entries_spec() == old(self).entries_spec().push(entry),
                }
            }),
    {
        proof {
            use_type_invariant(&*self);
        }
        let entry = LodTileEntry { tile, content_hash, rows };
        match self.find(tile) {
            Some(i) => {
                proof {
                    let es = self.entries@;
                    let k = choose|k: int| 0 <= k < es.len() && (#[trigger] es[k]).tile == tile;
                    if k != i {
                        if k < i {
                            assert(es[k].tile != es[i as int].tile);
                        } else {
                            assert(es[i as int].tile != es[k].tile);
                        }
                    }
                    assert(entry_index(es, tile) == Some(i as int));
                    let es2 = es.update(i as int, entry);
                    assert forall|a: int, b: int| 0 <= a < b < es2.len() implies (
                    #[trigger] es2[a]).tile != (#[trigger] es2[b]).tile by {
                        assert(es[a].tile != es[b].tile);
                    }
                }
                let mut entries: Vec<LodTileEntry> = Vec::new();
                std::mem::swap(&mut entries, &mut self.entries);
                entries.set(i, entry);
                self.entries = entries;
            },
            None => {
                proof {
                    let es = self.entries@;
                    let es2 = es.push(entry);
                    assert forall|a: int, b: int| 0 <= a < b < es2.len() implies (
                    #[trigger] es2[a]).tile != (#[trigger] es2[b]).tile by {
                        if b < es.len() {
                            assert(es[a].tile != es[b].tile);
                        } else {
                            assert(es[a].tile != tile);
                        }
                    }
                }
                let mut entries: Vec<LodTileEntry> = Vec::new();
                std::mem::swap(&mut entries, &mut self.entries);
                entries.push(entry);
                self.entries = entries;
            },
        }
    }

    /// All entries, in insertion order.
    pub fn entries(&self) -> (r: &[LodTileEntry])
        ensures
            r@ == self.entries_spec(),
            tiles_unique(self.entries_spec()),
    {
        proof {
            use_type_invariant(self);
        }
        self.entries.as_slice()
    }

    /// The entry for `tile`, if the tile is populated.
    pub fn get(&self, tile: TileId) -> (r: Option<&LodTileEntry>)
        ensures
            match entry_index(self.entries_spec(), tile) {
                Some(i) => r is Some && *r->0 == self.entries_spec()[i],
                None => r is None,
            },
    {
        proof {
            use_type_invariant(self);
        }
        match self.find(tile) {
            Some(i) => {
                proof {
                    let es = self.entries@;
                    let k = choose|k: int| 0 <= k < es.len() && (#[trigger] es[k]).tile == tile;
                    if k != i {
                        if k < i {
                            assert(es[k].tile != es[i as int].tile);
                        } else {
                            assert(es[i as int].tile != es[k].tile);
                        }
                    }
                }
                Some(&self.entries[i])
            },
            None => None,
        }
    }

    /// Total tile count across all tiers.
    pub fn len(&self) -> (r: usize)
        ensures
            r == self.entries_spec().len(),
    {
        self.entries.len()
    }

    /// True when no tile is populated.
    pub fn is_empty(&self) -> (r: bool)
        ensures
            r == (self.entries_spec().len() == 0),
    {
        self.entries.len() == 0
    }
}

impl Clone for LodIndex {
    fn clone(&self) -> (r: Self)
        ensures
            r.entries_spec() == self.entries_spec(),
    {
        proof {
            use_type_invariant(self);
        }
        let mut entries: Vec<LodTileEntry> = Vec::new();
        let mut i: usize = 0;
        while i < self.entries.len()
            invariant
                i <= self.entries@.len(),
                entries@ == self.entries@.take(i as int),
            decreases self.entries@.len() - i,
        {
            entries.push(self.entries[i].clone());
            assert(self.entries@.take(i as int).push(self.entries@[i as int]) =~= self.entries@.take(
                i + 1,
            ));
            i += 1;
        }
        assert(self.entries@.take(self.entries@.len() as int) =~= self.entries@);
        LodIndex { entries }
    }
}

impl Default for LodIndex {
    fn default() -> (r: Self)
        ensures
            r.entries_spec() == Seq::<LodTileEntry>::empty(),
    {
        LodIndex::new()
    }
}

/// Law: after inserting an entry for a tile, looking the tile up finds that
/// entry, and the tile count grows by one exactly when the tile was new.
pub proof fn lemma_insert_then_get(old_entries: Seq<LodTileEntry>, entry: LodTileEntry)
    requires
        tiles_unique(old_entries),
    ensures
        ({
            let new_entries = match entry_index(old_entries, entry.tile) {
                Some(i) => old_entries.update(i, entry),
                None => old_entries.push(entry),
            };
            &&& tiles_unique(new_entries)
            &&& entry_index(new_entries, entry.tile) is Some
            &&& new_entries[entry_index(new_entries, entry.tile)->0] == entry
            &&& new_entries.len() == old_entries.len() + (if entry_index(old_entries, entry.tile)
                is Some {
                0int
            } else {
                1int
            })
        }),
{
    let tile = entry.tile;
    let new_entries = match entry_index(old_entries, tile) {
        Some(i) => old_entries.update(i, entry),
        None => old_entries.push(entry),
    };
    let pos: int = match entry_index(old_entries, tile) {
        Some(i) => i,
        None => old_entries.len() as int,
    };
    assert(new_entries[pos] == entry);
    assert forall|a: int, b: int| 0 <= a < b < new_entries.len() implies (
    #[trigger] new_entries[a]).tile != (#[trigger] new_entries[b]).tile by {
        if a != pos && b != pos {
            assert(old_entries[a].tile != old_entries[b].tile);
        } else if a == pos {
            if entry_index(old_entries, tile) is Some {
                assert(old_entries[a].tile == tile);
                assert(old_entries[a].tile != old_entries[b].tile);
            }
        } else {
            if entry_index(old_entries, tile) is Some {
                assert(old_entries[b].tile == tile);
                assert(old_entries[a].tile != old_entries[b].tile);
            } else {
                assert(old_entries[a].tile != tile);
            }
        }
    }
    assert(new_entries[pos].tile == tile);
    let k = choose|k: int| 0 <= k < new_entries.len() && (#[trigger] new_entries[k]).tile == tile;
    if k != pos {
        if k < pos {
            assert(new_entries[k].tile != new_entries[pos].tile);
        } else {
            assert(new_entries[pos].tile != new_entries[k].tile);
        }
    }
}

// ---------------------------------------------------------------------------
// Content hashing
// ---------------------------------------------------------------------------

/// FNV-1a 64-bit offset basis.
pub const FNV_OFFSET: u64 = 0xcbf2_9ce4_8422_2325;

/// FNV-1a 64-bit prime.
pub const FNV_PRIME: u64 = 0x0000_0100_0000_01b3;

/// FNV-1a (64-bit) hash of a byte string.
pub open spec fn fnv1a(s: Seq<u8>) -> u64
    decreases s.len(),
{
    if s.len() == 0 {
        FNV_OFFSET
    } else {
        (((fnv1a(s.drop_last()) ^ (s.last() as u64)) as nat * FNV_PRIME as nat)
            % 0x1_0000_0000_0000_0000) as u64
    }
}

/// Lower-case hexadecimal digit for `d` in `0..16`.
pub open spec fn hex_lower_char(d: int) -> char {
    if d < 10 {
        (d + ('0' as int)) as char
    } else {
        (d - 10 + ('a' as int)) as char
    }
}

/// The `width` lowest hexadecimal digits of `n`, most significant first
/// (what `format!("{n:016x}")` prints for `width == 16`).
pub open spec fn hex_lower(n: nat, width: nat) -> Seq<char>
    decreases width,
{
    if width == 0 {
        Seq::empty()
    } else {
        hex_lower((n / 16) as nat, (width - 1) as nat).push(hex_lower_char((n % 16) as int))
    }
}

/// The content hash of a payload: its FNV-1a hash as 16 lower-case hex
/// digits.
pub open spec fn content_hash_spec(bytes: Seq<u8>) -> Seq<char> {
    hex_lower(fnv1a(bytes) as nat, 16)
}

fn push_hex(v: &mut Vec<char>, n: u64, width: u8)
    ensures
        final(v)@ == old(v)@ + hex_lower(n as nat, width as nat),
    decreases width,
{
    if width == 0 {
        assert(old(v)@ + hex_lower(n as nat, 0) =~= old(v)@);
    } else {
        push_hex(v, n / 16, width - 1);
        let d = n % 16;
        let c = if d < 10 {
            ((d as u8) + 48u8) as char
        } else {
            ((d as u8) - 10 + 97u8) as char
        };
        v.push(c);
        assert(old(v)@ + hex_lower((n / 16) as nat, (width - 1) as nat) + seq![c] =~= old(v)@
            + hex_lower(n as nat, width as nat));
    }
}

/// Fast, non-cryptographic content hash (FNV-1a, 64-bit, lower-case hex)
/// used as the key of the content-addressable stores.
pub fn content_hash(bytes: &[u8]) -> (r: String)
    ensures
        r@ == content_hash_spec(bytes@),
{
    let mut hash: u64 = FNV_OFFSET;
    let mut i: usize = 0;
    while i < bytes.len()
        invariant
            i <= bytes@.len(),
            hash == fnv1a(bytes@.take(i as int)),
        decreases bytes@.len() - i,
    {
        proof {
            assert(bytes@.take(i + 1).drop_last() =~= bytes@.take(i as int));
        }
        hash = hash ^ (bytes[i] as u64);
        hash = hash.wrapping_mul(FNV_PRIME);
        i += 1;
    }
    proof {
        assert(bytes@.take(bytes@.len() as int) =~= bytes@);
    }
    let mut v: Vec<char> = Vec::new();
    push_hex(&mut v, hash, 16);
    assert(Seq::<char>::empty() + hex_lower(hash as nat, 16) =~= hex_lower(hash as nat, 16));
    string_from_chars(&v)
}

// ---------------------------------------------------------------------------
// Blob stores
// ---------------------------------------------------------------------------

/// The bytes of an optional payload.
pub open spec fn opt_bytes(b: Option<Vec<u8>>) -> Option<Seq<u8>> {
    match b {
        Some(v) => Some(v@),
        None => None,
    }
}

/// A content-addressable blob reader: maps a content hash to the raw tile
/// payload bytes.
pub trait BlobStore {
    /// `answer` is a reply the store may give when asked for
    /// `content_hash`. A store that says nothing of its replies (one backed
    /// by files, say) may give any.
    open spec fn may_answer(&self, content_hash: Seq<char>, answer: Option<Seq<u8>>) -> bool {
        true
    }

    fn get(&self, content_hash: &str) -> (r: Option<Vec<u8>>)
        ensures
            self.may_answer(content_hash@, opt_bytes(r)),
    ;
}

/// The blobs held by a list of `(hash, bytes)` pairs, keyed by hash text.
pub open spec fn blob_map(blobs: Seq<(String, Vec<u8>)>) -> Map<Seq<char>, Seq<u8>>
    decreases blobs.len(),
{
    if blobs.len() == 0 {
        Map::empty()
    } else {
        blob_map(blobs.drop_last()).insert(blobs.last().0@, blobs.last().1@)
    }
}

/// True when no two pairs share a hash.
pub open spec fn keys_unique(blobs: Seq<(String, Vec<u8>)>) -> bool {
    forall|i: int, j: int|
        0 <= i < j < blobs.len() ==> (#[trigger] blobs[i]).0@ != (#[trigger] blobs[j]).0@
}

proof fn lemma_blob_map(blobs: Seq<(String, Vec<u8>)>)
    requires
        keys_unique(blobs),
    ensures
        forall|k: Seq<char>| #[trigger]
            blob_map(blobs).contains_key(k) <==> exists|i: int|
                0 <= i < blobs.len() && (#[trigger] blobs[i]).0@ == k,
        forall|i: int|
            0 <= i < blobs.len() ==> blob_map(blobs)[(#[trigger] blobs[i]).0@] == blobs[i].1@,
    decreases blobs.len(),
{
    if blobs.len() > 0 {
        let p = blobs.drop_last();
        assert(keys_unique(p)) by {
            assert forall|i: int, j: int| 0 <= i < j < p.len() implies (#[trigger] p[i]).0@ != (
            #[trigger] p[j]).0@ by {
                assert(blobs[i] == p[i] && blobs[j] == p[j]);
            }
        }
        lemma_blob_map(p);
        assert forall|k: Seq<char>| #[trigger]
            blob_map(blobs).contains_key(k) <==> exists|i: int|
                0 <= i < blobs.len() && (#[trigger] blobs[i]).0@ == k by {
            if blob_map(p).contains_key(k) {
                let i = choose|i: int| 0 <= i < p.len() && (#[trigger] p[i]).0@ == k;
                assert(blobs[i] == p[i]);
            }
            if exists|i: int| 0 <= i < blobs.len() && (#[trigger] blobs[i]).0@ == k {
                let i = choose|i: int| 0 <= i < blobs.len() && (#[trigger] blobs[i]).0@ == k;
                if i < blobs.len() - 1 {
                    assert(p[i] == blobs[i]);
                }
            }
        }
        assert forall|i: int| 0 <= i < blobs.len() implies blob_map(blobs)[(
        #[trigger] blobs[i]).0@] == blobs[i].1@ by {
            if i < blobs.len() - 1 {
                assert(p[i] == blobs[i]);
                assert(blobs[i].0@ != blobs.last().0@);
            }
        }
    }
}

/// In-memory content-addressable store.
#[derive(Debug)]
pub struct MemoryBlobStore {
    blobs: Vec<(String, Vec<u8>)>,
}

impl View for MemoryBlobStore {
    type V = Map<Seq<char>, Seq<u8>>;

    closed spec fn view(&self) -> Map<Seq<char>, Seq<u8>> {
        blob_map(self.blobs@)
    }
}

impl MemoryBlobStore {
    #[verifier::type_invariant]
    spec fn inv(self) -> bool {
        keys_unique(self.blobs@)
    }

    /// An empty store.
    pub fn new() -> (r: Self)
        ensures
            r@ == Map::<Seq<char>, Seq<u8>>::empty(),
    {
        MemoryBlobStore { blobs: Vec::new() }
    }

    fn find(&self, hash: &str) -> (r: Option<usize>)
        ensures
            match r {
                Some(i) => i < self.blobs@.len() && self.blobs@[i as int].0@ == hash@,
                None => forall|i: int|
                    0 <= i < self.blobs@.len() ==> (#[trigger] self.blobs@[i]).0@ != hash@,
            },
    {
        let mut i: usize = 0;
        while i < self.blobs.len()
            invariant
                i <= self.blobs@.len(),
                forall|k: int| 0 <= k < i ==> (#[trigger] self.blobs@[k]).0@ != hash@,
            decreases self.blobs@.len() - i,
        {
            if str_eq(self.blobs[i].0.as_str(), hash) {
                return Some(i);
            }
            i += 1;
        }
        None
    }

    /// Store `bytes` under their content hash and return that hash.
    pub fn put(&mut self, bytes: Vec<u8>) -> (r: String)
        ensures
            r@ == content_hash_spec(bytes@),
            final(self)@ == old(self)@.insert(r@, bytes@),
    {
        proof {
            use_type_invariant(&*self);
            lemma_blob_map(self.blobs@);
        }
        let hash = content_hash(&bytes);
        let ghost bv = bytes@;
        let key = hash.clone();
        match self.find(hash.as_str()) {
            Some(i) => {
                let mut blobs: Vec<(String, Vec<u8>)> = Vec::new();
                std::mem::swap(&mut blobs, &mut self.blobs);
                let ghost old_blobs = blobs@;
                blobs.set(i, (key, bytes));
                proof {
                    let nb = blobs@;
                    assert(keys_unique(nb)) by {
                        assert forall|a: int, b: int| 0 <= a < b < nb.len() implies (
                        #[trigger] nb[a]).0@ != (#[trigger] nb[b]).0@ by {
                            assert(old_blobs[a].0@ != old_blobs[b].0@);
                        }
                    }
                    lemma_blob_map(nb);
                    assert(blob_map(nb) =~= blob_map(old_blobs).insert(hash@, bv)) by {
                        assert forall|k: Seq<char>| blob_map(nb).contains_key(k) <==> blob_map(
                            old_blobs,
                        ).insert(hash@, bv).contains_key(k) by {
                            if exists|j: int| 0 <= j < old_blobs.len() && (#[trigger] old_blobs[j]).0@ == k {
                                let j = choose|j: int| 0 <= j < old_blobs.len() && (#[trigger] old_blobs[j]).0@ == k;
                                if j == i {
                                    assert(nb[j].0@ == k);
                                } else {
                                    assert(nb[j] == old_blobs[j]);
                                }
                            }
                            if exists|j: int| 0 <= j < nb.len() && (#[trigger] nb[j]).0@ == k {
                                let j = choose|j: int| 0 <= j < nb.len() && (#[trigger] nb[j]).0@ == k;
                                if j != i {
                                    assert(nb[j] == old_blobs[j]);
                                }
                            }
                        }
                        assert forall|k: Seq<char>| blob_map(nb).contains_key(k) implies blob_map(nb)[k]
                            == blob_map(old_blobs).insert(hash@, bv)[k] by {
                            let j = choose|j: int| 0 <= j < nb.len() && (#[trigger] nb[j]).0@ == k;
                            if j != i {
                                assert(nb[j] == old_blobs[j]);
                                assert(k != hash@);
                            }
                        }
                    }
                }
                self.blobs = blobs;
            },
            None => {
                let mut blobs: Vec<(String, Vec<u8>)> = Vec::new();
                std::mem::swap(&mut blobs, &mut self.blobs);
                let ghost old_blobs = blobs@;
                blobs.push((key, bytes));
                proof {
                    let nb = blobs@;
                    assert(nb.drop_last() =~= old_blobs);
                    assert(keys_unique(nb)) by {
                        assert forall|a: int, b: int| 0 <= a < b < nb.len() implies (
                        #[trigger] nb[a]).0@ != (#[trigger] nb[b]).0@ by {
                            if b < old_blobs.len() {
                                assert(old_blobs[a].0@ != old_blobs[b].0@);
                            } else {
                                assert(old_blobs[a].0@ != hash@);
                            }
                        }
                    }
                }
                self.blobs = blobs;
            },
        }
        hash
    }
}

impl Clone for MemoryBlobStore {
    fn clone(&self) -> (r: Self)
        ensures
            r@ == self@,
    {
        proof {
            use_type_invariant(self);
        }
        let mut blobs: Vec<(String, Vec<u8>)> = Vec::new();
        let mut i: usize = 0;
        while i < self.blobs.len()
            invariant
                i <= self.blobs@.len(),
                keys_unique(self.blobs@),
                blobs@.len() == i,
                forall|k: int|
                    0 <= k < i ==> (#[trigger] blobs@[k]).0@ == self.blobs@[k].0@ && blobs@[k].1@
                        == self.blobs@[k].1@,
            decreases self.blobs@.len() - i,
        {
            let key = self.blobs[i].0.clone();
            let bytes = self.blobs[i].1.clone();
            assert(bytes@ =~= self.blobs@[i as int].1@);
            blobs.push((key, bytes));
            i += 1;
        }
        proof {
            assert(keys_unique(blobs@)) by {
                assert forall|a: int, b: int| 0 <= a < b < blobs@.len() implies (
                #[trigger] blobs@[a]).0@ != (#[trigger] blobs@[b]).0@ by {
                    assert(self.blobs@[a].0@ != self.blobs@[b].0@);
                }
            }
            lemma_blob_map(blobs@);
            lemma_blob_map(self.blobs@);
            assert(blob_map(blobs@) =~= blob_map(self.blobs@)) by {
                assert forall|k: Seq<char>| blob_map(blobs@).contains_key(k) <==> blob_map(
                    self.blobs@,
                ).contains_key(k) by {
                    if exists|j: int| 0 <= j < blobs@.len() && (#[trigger] blobs@[j]).0@ == k {
                        let j = choose|j: int| 0 <= j < blobs@.len() && (#[trigger] blobs@[j]).0@ == k;
                        assert(self.blobs@[j].0@ == k);
                    }
                    if exists|j: int| 0 <= j < self.blobs@.len() && (#[trigger] self.blobs@[j]).0@ == k {
                        let j = choose|j: int| 0 <= j < self.blobs@.len() && (#[trigger] self.blobs@[j]).0@ == k;
                        assert(blobs@[j].0@ == k);
                    }
                }
                assert forall|k: Seq<char>| blob_map(blobs@).contains_key(k) implies blob_map(blobs@)[k]
                    == blob_map(self.blobs@)[k] by {
                    let j = choose|j: int| 0 <= j < blobs@.len() && (#[trigger] blobs@[j]).0@ == k;
                    assert(self.blobs@[j].0@ == k);
                }
            }
        }
        MemoryBlobStore { blobs }
    }
}

impl Default for MemoryBlobStore {
    fn default() -> (r: Self)
        ensures
            r@ == Map::<Seq<char>, Seq<u8>>::empty(),
    {
        MemoryBlobStore::new()
    }
}

impl BlobStore for MemoryBlobStore {
    /// The store answers with the blob it holds under the hash, or `None`
    /// when it holds none.
    open spec fn may_answer(&self, content_hash: Seq<char>, answer: Option<Seq<u8>>) -> bool {
        if self@.contains_key(content_hash) {
            answer == Some(self@[content_hash])
        } else {
            answer is None
        }
    }

    fn get(&self, content_hash: &str) -> (r: Option<Vec<u8>>)
        ensures
            match r {
                Some(b) => self@.contains_key(content_hash@) && b@ == self@[content_hash@],
                None => !self@.contains_key(content_hash@),
            },
    {
        proof {
            use_type_invariant(self);
            lemma_blob_map(self.blobs@);
        }
        match self.find(content_hash) {
            Some(i) => Some(self.blobs[i].1.clone()),
            None => None,
        }
    }
}

/// Law: a payload put into a store is read back by the hash `put` returned,
/// and two payloads with equal bytes get the same hash.
pub proof fn lemma_put_then_get(store: Map<Seq<char>, Seq<u8>>, bytes: Seq<u8>, other: Seq<u8>)
    ensures
        ({
            let h = content_hash_spec(bytes);
            let after = store.insert(h, bytes);
            &&& after.contains_key(h)
            &&& after[h] == bytes
            &&& (other == bytes ==> content_hash_spec(other) == h)
        }),
{
}

// ---------------------------------------------------------------------------
// Filesystem store paths
// ---------------------------------------------------------------------------

/// The characters of the first `min(len, 2)` bytes of `s`, when that byte
/// prefix ends on a character boundary (`&s[..min(s.len(), 2)]`).
pub open spec fn two_byte_prefix(s: Seq<char>) -> Option<Seq<char>> {
    if s.len() == 0 {
        Some(Seq::empty())
    } else if utf8_width(s[0]) == 2 {
        Some(s.take(1))
    } else if utf8_width(s[0]) > 2 {
        None
    } else if s.len() == 1 {
        Some(s)
    } else if utf8_width(s[1]) == 1 {
        Some(s.take(2))
    } else {
        None
    }
}

/// `base` joined with the relative-or-absolute path `comp` under Unix rules:
/// an absolute `comp` replaces `base`; otherwise a `/` separates them unless
/// `base` is empty or already ends with one.
pub open spec fn join_path(base: Seq<char>, comp: Seq<char>) -> Seq<char> {
    if comp.len() > 0 && comp[0] == '/' {
        comp
    } else if base.len() > 0 && base.last() != '/' {
        base + seq!['/'] + comp
    } else {
        base + comp
    }
}

fn join_path_exec(base: &Vec<char>, comp: &Vec<char>) -> (r: Vec<char>)
    ensures
        r@ == join_path(base@, comp@),
{
    if comp.len() > 0 && comp[0] == '/' {
        comp.clone()
    } else {
        let mut r = base.clone();
        if base.len() > 0 && base[base.len() - 1] != '/' {
            r.push('/');
        }
        let mut i: usize = 0;
        let ghost start = r@;
        while i < comp.len()
            invariant
                i <= comp@.len(),
                r@ == start + comp@.take(i as int),
            decreases comp@.len() - i,
        {
            r.push(comp[i]);
            assert(comp@.take(i as int).push(comp@[i as int]) =~= comp@.take(i + 1));
            i += 1;
        }
        assert(comp@.take(comp@.len() as int) =~= comp@);
        assert(base@.len() > 0 && base@.last() != '/' ==> start == base@ + seq!['/']);
        r
    }
}

/// Filesystem content-addressable store: blobs live at
/// `<root>/<hash[0..2]>/<hash>`.
#[derive(Debug, Clone)]
pub struct FsCasBlobStore {
    root: String,
}

impl FsCasBlobStore {
    /// The store's root directory.
    pub closed spec fn root_spec(&self) -> Seq<char> {
        self.root@
    }

    /// A store rooted at `root`.
    pub fn new(root: String) -> (r: Self)
        ensures
            r.root_spec() == root@,
    {
        FsCasBlobStore { root }
    }

    /// Path a content hash resolves to under this store's root:
    /// `root`, then the first two bytes of the hash, then the hash.
    pub fn blob_path(&self, content_hash: &str) -> (r: String)
        requires
            two_byte_prefix(content_hash@) is Some,
        ensures
            r@ == join_path(
                join_path(self.root_spec(), two_byte_prefix(content_hash@)->0),
                content_hash@,
            ),
    {
        let h = chars_of(content_hash);
        let prefix: Vec<char> = if h.len() == 0 {
            Vec::new()
        } else if (h[0] as u32) >= 0x80 {
            let mut p = Vec::new();
            p.push(h[0]);
            assert(p@ =~= h@.take(1));
            p
        } else if h.len() == 1 {
            h.clone()
        } else {
            let mut p = Vec::new();
            p.push(h[0]);
            p.push(h[1]);
            assert(p@ =~= h@.take(2));
            p
        };
        assert(two_byte_prefix(h@) == Some(prefix@));
        let root = chars_of(self.root.as_str());
        let dir = join_path_exec(&root, &prefix);
        let full = join_path_exec(&dir, &h);
        string_from_chars(&full)
    }
}

/// A tiled catalogue: a spatial-magnitude [`LodIndex`] backed by a
/// content-addressable [`BlobStore`].
#[derive(Debug, Clone)]
pub struct LodCatalog<S: BlobStore> {
    index: LodIndex,
    store: S,
}

impl<S: BlobStore> LodCatalog<S> {
    /// The catalogue's index.
    pub closed spec fn index_spec(&self) -> LodIndex {
        self.index
    }

    /// The catalogue's blob store.
    pub closed spec fn store_spec(&self) -> S {
        self.store
    }

    pub fn new(index: LodIndex, store: S) -> (r: Self)
        ensures
            r.index_spec() == index,
            r.store_spec() == store,
    {
        LodCatalog { index, store }
    }

    pub fn index(&self) -> (r: &LodIndex)
        ensures
            *r == self.index_spec(),
    {
        &self.index
    }

    pub fn store(&self) -> (r: &S)
        ensures
            *r == self.store_spec(),
    {
        &self.store
    }
}


// ---------------------------------------------------------------------------
// Streaming order
// ---------------------------------------------------------------------------

/// Tile `a` is streamed before tile `b`: by tier, then latitude band, then
/// longitude band.
pub open spec fn tile_before(a: TileId, b: TileId) -> bool {
    ||| a.tier < b.tier
    ||| (a.tier == b.tier && a.lat < b.lat)
    ||| (a.tier == b.tier && a.lat == b.lat && a.lon < b.lon)
}

fn before(a: TileId, b: TileId) -> (r: bool)
    ensures
        r == tile_before(a, b),
{
    a.tier < b.tier || (a.tier == b.tier && a.lat < b.lat) || (a.tier == b.tier && a.lat == b.lat
        && a.lon < b.lon)
}

/// Entry `k` is streamed: its tier passed the faint-limit test and its cell
/// intersects the view (a flag past the end of its list counts as false).
pub open spec fn picked(examined: Seq<bool>, in_view: Seq<bool>, k: int) -> bool {
    &&& 0 <= k < examined.len()
    &&& examined[k]
    &&& k < in_view.len()
    &&& in_view[k]
}

/// Number of the first `n` entries whose tier passed the faint-limit test.
pub open spec fn count_examined(examined: Seq<bool>, n: int) -> nat
    decreases n,
{
    if n <= 0 {
        0
    } else {
        count_examined(examined, n - 1) + if n - 1 < examined.len() && examined[n - 1] {
            1nat
        } else {
            0nat
        }
    }
}

/// Some picked entry of `es` has tile `t`.
pub open spec fn picked_tile(es: Seq<LodTileEntry>, examined: Seq<bool>, in_view: Seq<bool>, t: TileId) -> bool {
    exists|k: int| 0 <= k < es.len() && picked(examined, in_view, k) && (#[trigger] es[k]).tile == t
}

/// The indices of the first `n` entries that are picked.
pub open spec fn picked_set(examined: Seq<bool>, in_view: Seq<bool>, n: nat) -> Set<usize> {
    Set::new(|k: usize| k < n && picked(examined, in_view, k as int))
}

/// `r` lists each index of `p` once, every one naming an entry of `es`, in
/// streaming order of their tiles.
pub open spec fn is_stream_order(es: Seq<LodTileEntry>, p: Set<usize>, r: Seq<usize>) -> bool {
    &&& forall|i: int| 0 <= i < r.len() ==> #[trigger] r[i] < es.len() && p.contains(r[i])
    &&& forall|k: usize| #[trigger] p.contains(k) ==> r.contains(k)
    &&& forall|i: int, j: int|
        0 <= i < j < r.len() ==> tile_before(es[#[trigger] r[i] as int].tile, es[#[trigger] r[j] as int].tile)
}

/// Law: the streaming order is determined by the index and the picked
/// entries alone: two orders of the same picked entries of an index (whose
/// tiles are distinct) are equal, so streaming the same query twice lists
/// the same tiles in the same order.
pub proof fn lemma_stream_order_unique(es: Seq<LodTileEntry>, p: Set<usize>, r1: Seq<usize>, r2: Seq<usize>)
    requires
        tiles_unique(es),
        is_stream_order(es, p, r1),
        is_stream_order(es, p, r2),
    ensures
        r1 == r2,
    decreases r1.len(),
{
    if r1.len() == 0 {
        if r2.len() > 0 {
            assert(p.contains(r2[0]));
            assert(r1.contains(r2[0]));
        }
        assert(r1 =~= r2);
    } else {
        assert(p.contains(r1[0]));
        assert(r2.contains(r1[0]));
        let b = choose|b: int| 0 <= b < r2.len() && r2[b] == r1[0];
        assert(p.contains(r2[0]));
        assert(r1.contains(r2[0]));
        let a = choose|a: int| 0 <= a < r1.len() && r1[a] == r2[0];
        if a > 0 && b > 0 {
            assert(tile_before(es[r1[0] as int].tile, es[r1[a] as int].tile));
            assert(tile_before(es[r2[0] as int].tile, es[r2[b] as int].tile));
        } else if a > 0 {
            assert(tile_before(es[r1[0] as int].tile, es[r1[a] as int].tile));
        } else if b > 0 {
            assert(tile_before(es[r2[0] as int].tile, es[r2[b] as int].tile));
        }
        assert(r1[0] == r2[0]);
        let x = r1[0];
        let q = p.remove(x);
        let t1 = r1.drop_first();
        let t2 = r2.drop_first();
        assert forall|i: int| 0 <= i < t1.len() implies #[trigger] t1[i] < es.len() && q.contains(t1[i]) by {
            assert(t1[i] == r1[i + 1]);
            assert(tile_before(es[r1[0] as int].tile, es[r1[i + 1] as int].tile));
        }
        assert forall|i: int| 0 <= i < t2.len() implies #[trigger] t2[i] < es.len() && q.contains(t2[i]) by {
            assert(t2[i] == r2[i + 1]);
            assert(tile_before(es[r2[0] as int].tile, es[r2[i + 1] as int].tile));
        }
        assert forall|k: usize| #[trigger] q.contains(k) implies t1.contains(k) by {
            assert(p.contains(k));
            assert(r1.contains(k));
            let w = choose|w: int| 0 <= w < r1.len() && r1[w] == k;
            assert(w != 0);
            assert(t1[w - 1] == k);
        }
        assert forall|k: usize| #[trigger] q.contains(k) implies t2.contains(k) by {
            assert(p.contains(k));
            assert(r2.contains(k));
            let w = choose|w: int| 0 <= w < r2.len() && r2[w] == k;
            assert(w != 0);
            assert(t2[w - 1] == k);
        }
        assert forall|i: int, j: int| 0 <= i < j < t1.len() implies tile_before(
            es[#[trigger] t1[i] as int].tile,
            es[#[trigger] t1[j] as int].tile,
        ) by {
            assert(t1[i] == r1[i + 1] && t1[j] == r1[j + 1]);
        }
        assert forall|i: int, j: int| 0 <= i < j < t2.len() implies tile_before(
            es[#[trigger] t2[i] as int].tile,
            es[#[trigger] t2[j] as int].tile,
        ) by {
            assert(t2[i] == r2[i + 1] && t2[j] == r2[j + 1]);
        }
        lemma_stream_order_unique(es, q, t1, t2);
        assert(r1 =~= seq![x] + t1);
        assert(r2 =~= seq![x] + t2);
    }
}

impl LodIndex {
    /// The indices of the picked entries, in streaming order: every picked
    /// entry once, ordered by tier, then latitude band, then longitude band.
    pub fn stream_order(&self, examined: &[bool], in_view: &[bool]) -> (r: Vec<usize>)
        ensures
            tiles_unique(self.entries_spec()),
            is_stream_order(
                self.entries_spec(),
                picked_set(examined@, in_view@, self.entries_spec().len()),
                r@,
            ),
    {
        proof {
            use_type_invariant(self);
        }
        let ghost es = self.entries@;
        let mut out: Vec<usize> = Vec::new();
        let mut k: usize = 0;
        while k < self.entries.len()
            invariant
                k <= es.len(),
                es == self.entries@,
                tiles_unique(es),
                forall|i: int|
                    0 <= i < out@.len() ==> #[trigger] out@[i] < k && picked(
                        examined@,
                        in_view@,
                        out@[i] as int,
                    ),
                forall|j: int|
                    0 <= j < k && picked(examined@, in_view@, j) ==> out@.contains(j as usize),
                forall|i: int, j: int|
                    0 <= i < j < out@.len() ==> tile_before(
                        es[#[trigger] out@[i] as int].tile,
                        es[#[trigger] out@[j] as int].tile,
                    ),
            decreases es.len() - k,
        {
            if k < examined.len() && examined[k] && k < in_view.len() && in_view[k] {
                let t = self.entries[k].tile;
                let mut p: usize = 0;
                while p < out.len() && !before(t, self.entries[out[p]].tile)
                    invariant
                        p <= out@.len(),
                        k < es.len(),
                        es == self.entries@,
                        t == es[k as int].tile,
                        tiles_unique(es),
                        forall|i: int| 0 <= i < out@.len() ==> #[trigger] out@[i] < k,
                        forall|i: int| 0 <= i < p ==> tile_before(es[#[trigger] out@[i] as int].tile, t),
                    decreases out@.len() - p,
                {
                    proof {
                        let o = out@[p as int] as int;
                        assert(es[o].tile != es[k as int].tile);
                    }
                    p += 1;
                }
                proof {
                    if p < out@.len() {
                        assert forall|i: int| p <= i < out@.len() implies tile_before(
                            t,
                            es[#[trigger] out@[i] as int].tile,
                        ) by {
                            if i > p {
                                assert(tile_before(
                                    es[out@[p as int] as int].tile,
                                    es[out@[i] as int].tile,
                                ));
                            }
                        }
                    }
                }
                let ghost old_out = out@;
                out.insert(p, k);
                proof {
                    let n = out@;
                    assert(n == old_out.insert(p as int, k));
                    assert forall|i: int| 0 <= i < n.len() implies #[trigger] n[i] < k + 1 && picked(
                        examined@,
                        in_view@,
                        n[i] as int,
                    ) by {
                        if i < p {
                            assert(n[i] == old_out[i]);
                        } else if i > p {
                            assert(n[i] == old_out[i - 1]);
                        }
                    }
                    assert forall|j: int|
                        0 <= j < k + 1 && picked(examined@, in_view@, j) implies n.contains(
                        j as usize,
                    ) by {
                        if j == k {
                            assert(n[p as int] == k);
                        } else {
                            assert(old_out.contains(j as usize));
                            let w = choose|w: int| 0 <= w < old_out.len() && old_out[w] == j as usize;
                            if w < p {
                                assert(n[w] == old_out[w]);
                            } else {
                                assert(n[w + 1] == old_out[w]);
                            }
                        }
                    }
                    assert forall|a: int, b: int| 0 <= a < b < n.len() implies tile_before(
                        es[#[trigger] n[a] as int].tile,
                        es[#[trigger] n[b] as int].tile,
                    ) by {
                        if a < p && b < p {
                            assert(n[a] == old_out[a] && n[b] == old_out[b]);
                        } else if a < p && b == p {
                            assert(n[a] == old_out[a]);
                        } else if a < p && b > p {
                            assert(n[a] == old_out[a] && n[b] == old_out[b - 1]);
                        } else if a == p {
                            assert(n[b] == old_out[b - 1]);
                        } else {
                            assert(n[a] == old_out[a - 1] && n[b] == old_out[b - 1]);
                        }
                    }
                }
            }
            k += 1;
        }
        proof {
            let ps = picked_set(examined@, in_view@, es.len());
            assert forall|j: usize| ps.contains(j) implies out@.contains(j) by {
                assert(picked(examined@, in_view@, j as int));
            }
        }
        out
    }
}

/// The picked entries of `es`, in streaming order.
pub open spec fn picked_entries_spec(es: Seq<LodTileEntry>, examined: Seq<bool>, in_view: Seq<bool>) -> Seq<
    LodTileEntry,
> {
    let order = choose|r: Seq<usize>| is_stream_order(es, picked_set(examined, in_view, es.len()), r);
    order.map_values(|i: usize| es[i as int])
}

impl LodIndex {
    /// The picked entries, in streaming order (see [`LodIndex::stream_order`]).
    pub fn picked_entries(&self, examined: &[bool], in_view: &[bool]) -> (r: Vec<LodTileEntry>)
        ensures
            r@ == picked_entries_spec(self.entries_spec(), examined@, in_view@),
    {
        let order = self.stream_order(examined, in_view);
        let ghost es = self.entries@;
        let ghost p = picked_set(examined@, in_view@, es.len());
        let mut out: Vec<LodTileEntry> = Vec::new();
        let mut i: usize = 0;
        while i < order.len()
            invariant
                i <= order@.len(),
                es == self.entries@,
                is_stream_order(es, p, order@),
                out@ == order@.take(i as int).map_values(|k: usize| es[k as int]),
            decreases order@.len() - i,
        {
            let k = order[i];
            assert(k < es.len());
            out.push(self.entries[k].clone());
            assert(order@.take(i + 1).map_values(|k: usize| es[k as int]) =~= order@.take(
                i as int,
            ).map_values(|k: usize| es[k as int]).push(es[k as int]));
            i += 1;
        }
        proof {
            assert(order@.take(i as int) =~= order@);
            let chosen = choose|r: Seq<usize>| is_stream_order(es, p, r);
            lemma_stream_order_unique(es, p, order@, chosen);
        }
        out
    }
}

/// The bytes a store answered for a picked tile, as plain values.
pub open spec fn answer_views(answers: Seq<Option<Vec<u8>>>) -> Seq<Option<Seq<u8>>> {
    answers.map_values(|a: Option<Vec<u8>>|
        match a {
            Some(b) => Some(b@),
            None => None,
        })
}

/// Loaded tiles and their payloads, as plain values.
pub open spec fn loaded_views(loaded: Seq<(TileId, Vec<u8>)>) -> Seq<(TileId, Seq<u8>)> {
    loaded.map_values(|l: (TileId, Vec<u8>)| (l.0, l.1@))
}

/// The loaded tiles: in order, each picked tile whose blob the store
/// answered, with the bytes it answered.
pub open spec fn loaded_spec(picked: Seq<LodTileEntry>, answers: Seq<Option<Seq<u8>>>) -> Seq<(TileId, Seq<u8>)>
    decreases picked.len(),
{
    if picked.len() == 0 || answers.len() == 0 {
        Seq::empty()
    } else {
        let prev = loaded_spec(picked.drop_last(), answers.drop_last());
        match answers.last() {
            Some(b) => prev.push((picked.last().tile, b)),
            None => prev,
        }
    }
}

/// Pairs each picked tile with the store's answer for it, keeping the tiles
/// that were answered, in order, with their bytes unchanged.
pub fn assemble_loaded(picked: &[LodTileEntry], answers: Vec<Option<Vec<u8>>>) -> (r: Vec<(TileId, Vec<u8>)>)
    requires
        answers@.len() == picked@.len(),
    ensures
        loaded_views(r@) == loaded_spec(picked@, answer_views(answers@)),
{
    let ghost orig = answers@;
    let mut rest = answers;
    let mut out: Vec<(TileId, Vec<u8>)> = Vec::new();
    let mut i: usize = 0;
    while i < picked.len()
        invariant
            i <= picked@.len(),
            orig.len() == picked@.len(),
            rest@ == orig.skip(i as int),
            loaded_views(out@) == loaded_spec(picked@.take(i as int), answer_views(orig.take(i as int))),
        decreases picked@.len() - i,
    {
        let a = rest.remove(0);
        proof {
            assert(a == orig[i as int]);
            assert(rest@ =~= orig.skip(i + 1));
            assert(picked@.take(i + 1).drop_last() =~= picked@.take(i as int));
            assert(answer_views(orig.take(i + 1)).drop_last() =~= answer_views(orig.take(i as int)));
            assert(answer_views(orig.take(i + 1)).last() == answer_views(orig)[i as int]);
        }
        match a {
            Some(bytes) => {
                let ghost before = out@;
                out.push((picked[i].tile, bytes));
                assert(loaded_views(out@) =~= loaded_views(before).push(
                    (picked@[i as int].tile, out@.last().1@),
                ));
            },
            None => {},
        }
        i += 1;
    }
    proof {
        assert(picked@.take(i as int) =~= picked@);
        assert(orig.take(i as int) =~= orig);
    }
    out
}

/// The tiles a query streamed: how many index entries passed the
/// faint-limit test, and the payload of each loaded tile in streaming order.
pub struct TileStream {
    pub tiles_examined: usize,
    pub loaded: Vec<(TileId, Vec<u8>)>,
}

impl<S: BlobStore> LodCatalog<S> {
    /// Streams a query: the picked entries in streaming order (tier, then
    /// latitude band, then longitude band), the store asked once for each
    /// entry's content hash, in that order, and the answered tiles kept with
    /// their bytes. `examined[k]` says whether entry `k`'s tier passed the
    /// faint-limit test and `in_view[k]` whether its cell intersects the
    /// view. The store decides what it answers; whatever it answers, the
    /// loaded list is [`loaded_spec`] of the picked entries and the answers.
    pub fn stream_tiles(&self, examined: &[bool], in_view: &[bool]) -> (r: TileStream)
        ensures
            r.tiles_examined == count_examined(
                examined@,
                self.index_spec().entries_spec().len() as int,
            ),
            exists|answers: Seq<Option<Seq<u8>>>|
                answers.len() == picked_entries_spec(
                    self.index_spec().entries_spec(),
                    examined@,
                    in_view@,
                ).len() && (forall|i: int|
                    0 <= i < answers.len() ==> self.store_spec().may_answer(
                        picked_entries_spec(self.index_spec().entries_spec(), examined@, in_view@)[i].content_hash@,
                        #[trigger] answers[i],
                    )) && loaded_views(r.loaded@) == loaded_spec(
                    picked_entries_spec(self.index_spec().entries_spec(), examined@, in_view@),
                    answers,
                ),
    {
        let entries = self.index.entries();
        let ghost es = self.index.entries_spec();
        let mut tiles_examined: usize = 0;
        let mut k: usize = 0;
        while k < entries.len()
            invariant
                k <= entries@.len(),
                entries@ == es,
                tiles_examined == count_examined(examined@, k as int),
                tiles_examined <= k,
            decreases entries@.len() - k,
        {
            if k < examined.len() && examined[k] {
                tiles_examined += 1;
            }
            k += 1;
        }
        let picked = self.index.picked_entries(examined, in_view);
        let mut answers: Vec<Option<Vec<u8>>> = Vec::new();
        let mut i: usize = 0;
        while i < picked.len()
            invariant
                i <= picked@.len(),
                answers@.len() == i,
                forall|k: int|
                    0 <= k < i ==> self.store_spec().may_answer(
                        picked@[k].content_hash@,
                        opt_bytes(#[trigger] answers@[k]),
                    ),
            decreases picked@.len() - i,
        {
            let a = self.store.get(picked[i].content_hash.as_str());
            answers.push(a);
            i += 1;
        }
        let ghost av = answer_views(answers@);
        let ghost answers_before = answers;
        let loaded = assemble_loaded(&picked, answers);
        proof {
            let ps = picked_entries_spec(self.index_spec().entries_spec(), examined@, in_view@);
            assert(picked@ == ps);
            assert(av.len() == ps.len() && loaded_views(loaded@) == loaded_spec(ps, av));
            assert forall|i: int| 0 <= i < av.len() implies self.store_spec().may_answer(
                ps[i].content_hash@,
                #[trigger] av[i],
            ) by {
                assert(av[i] == opt_bytes(answers_before@[i]));
            }
        }
        TileStream { tiles_examined, loaded }
    }
}

} // verus!
