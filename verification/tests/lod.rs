use stars::lod::{
    content_hash, BlobStore, FsCasBlobStore, LodCatalog, LodIndex, MemoryBlobStore, TileId,
    BASE_TIER,
};

#[test]
fn content_hash_dedupes_identical_payloads() {
    let mut store = MemoryBlobStore::new();
    let h1 = store.put(b"abc".to_vec());
    let h2 = store.put(b"abc".to_vec());
    let h3 = store.put(b"xyz".to_vec());
    assert_eq!(h1, h2);
    assert_ne!(h1, h3);
    assert_eq!(store.get(&h1).as_deref(), Some(b"abc".as_slice()));
}

#[test]
fn content_hash_is_fnv1a_hex() {
    assert_eq!(content_hash(b""), "cbf29ce484222325");
    assert_eq!(content_hash(b"abc"), "e71fa2190541574b");
    assert_eq!(content_hash(b"abc").len(), 16);
}

#[test]
fn memory_store_misses_unknown_hash() {
    let mut store = MemoryBlobStore::new();
    let _ = store.put(b"payload".to_vec());
    assert_eq!(store.get("0000000000000000"), None);
}

#[test]
fn lod_index_insert_replaces_and_gets() {
    let mut index = LodIndex::new();
    assert!(index.is_empty());
    let a = TileId { tier: BASE_TIER, lat: 3, lon: 7 };
    let b = TileId { tier: 1, lat: 3, lon: 7 };
    index.insert(a, "h1".to_string(), 10);
    index.insert(b, "h2".to_string(), 20);
    index.insert(a, "h3".to_string(), 30);
    assert_eq!(index.len(), 2);
    let entry = index.get(a).expect("tile a present");
    assert_eq!(entry.content_hash, "h3");
    assert_eq!(entry.rows, 30);
    assert_eq!(index.get(b).map(|e| e.rows), Some(20));
    assert!(index.get(TileId { tier: 2, lat: 0, lon: 0 }).is_none());
    assert_eq!(index.entries().len(), 2);
}

#[test]
fn fs_store_paths_shard_by_hash_prefix() {
    let store = FsCasBlobStore::new("/var/cache/tiles".to_string());
    assert_eq!(
        store.blob_path("e71fa2190541574b"),
        "/var/cache/tiles/e7/e71fa2190541574b"
    );
    let rooted = FsCasBlobStore::new("/data/".to_string());
    assert_eq!(rooted.blob_path("ab"), "/data/ab/ab");
    let short = FsCasBlobStore::new("cas".to_string());
    assert_eq!(short.blob_path("a"), "cas/a/a");
}

#[test]
fn lod_catalog_exposes_its_parts() {
    let mut index = LodIndex::new();
    index.insert(TileId { tier: 0, lat: 1, lon: 2 }, "h".to_string(), 1);
    let cat = LodCatalog::new(index, MemoryBlobStore::new());
    assert_eq!(cat.index().len(), 1);
    assert_eq!(cat.store().get("h"), None);
}

fn streaming_catalog() -> LodCatalog<MemoryBlobStore> {
    let mut store = MemoryBlobStore::new();
    let mut index = LodIndex::new();
    // Inserted out of streaming order on purpose.
    let tiles = [
        TileId { tier: 2, lat: 9, lon: 0 },
        TileId { tier: 0, lat: 9, lon: 4 },
        TileId { tier: 2, lat: 8, lon: 35 },
        TileId { tier: 0, lat: 9, lon: 2 },
        TileId { tier: 1, lat: 0, lon: 0 },
    ];
    for (n, tile) in tiles.iter().enumerate() {
        let hash = store.put(format!("payload {n}").into_bytes());
        index.insert(*tile, hash, 1);
    }
    // A tile whose blob is not in the store.
    index.insert(TileId { tier: 0, lat: 0, lon: 0 }, "0000000000000000".to_string(), 1);
    LodCatalog::new(index, store)
}

#[test]
fn stream_order_sorts_by_tier_then_band() {
    let cat = streaming_catalog();
    let all = vec![true; 6];
    let order = cat.index().stream_order(&all, &all);
    let tiles: Vec<(u8, u16, u16)> = order
        .iter()
        .map(|&i| {
            let t = cat.index().entries()[i].tile;
            (t.tier, t.lat, t.lon)
        })
        .collect();
    assert_eq!(
        tiles,
        vec![(0, 0, 0), (0, 9, 2), (0, 9, 4), (1, 0, 0), (2, 8, 35), (2, 9, 0)]
    );
    // Same query, same order.
    assert_eq!(order, cat.index().stream_order(&all, &all));
}

#[test]
fn stream_tiles_skips_unpicked_and_missing_blobs() {
    let cat = streaming_catalog();
    // Entry order: (2,9,0) (0,9,4) (2,8,35) (0,9,2) (1,0,0) (0,0,0).
    let examined = vec![true, true, true, true, false, true];
    let in_view = vec![false, true, true, true, true, true];
    let stream = cat.stream_tiles(&examined, &in_view);
    assert_eq!(stream.tiles_examined, 5);
    let loaded: Vec<(TileId, String)> = stream
        .loaded
        .iter()
        .map(|(t, b)| (*t, String::from_utf8(b.clone()).unwrap()))
        .collect();
    assert_eq!(
        loaded,
        vec![
            (TileId { tier: 0, lat: 9, lon: 2 }, "payload 3".to_string()),
            (TileId { tier: 0, lat: 9, lon: 4 }, "payload 1".to_string()),
            (TileId { tier: 2, lat: 8, lon: 35 }, "payload 2".to_string()),
        ]
    );
}

#[test]
fn stream_tiles_treats_short_flag_lists_as_unpicked() {
    let cat = streaming_catalog();
    let stream = cat.stream_tiles(&[true, true], &[true]);
    assert_eq!(stream.tiles_examined, 2);
    assert_eq!(stream.loaded.len(), 1);
    assert_eq!(stream.loaded[0].0, TileId { tier: 2, lat: 9, lon: 0 });
    let none = cat.stream_tiles(&[], &[]);
    assert_eq!(none.tiles_examined, 0);
    assert!(none.loaded.is_empty());
}

const TIER_BOUNDS: [f32; 4] = [6.0, 9.0, 12.0, 16.0];

/// A base-tier tile in every other longitude band at the equator and a
/// tier-2 tile in every band, each holding a one-row Gaia payload.
fn synthetic_catalog() -> LodCatalog<MemoryBlobStore> {
    let mut store = MemoryBlobStore::new();
    let mut index = LodIndex::new();
    let mut id = 1u64;
    for lon in (0..stars::lod::LON_BANDS).step_by(2) {
        let hash = store.put(format!("source_id,phot_g_mean_mag\n{id},4.0\n").into_bytes());
        index.insert(TileId { tier: BASE_TIER, lat: 9, lon }, hash, 1);
        id += 1;
    }
    for lon in 0..stars::lod::LON_BANDS {
        let hash = store.put(format!("source_id,phot_g_mean_mag\n{id},11.0\n").into_bytes());
        index.insert(TileId { tier: 2, lat: 9, lon }, hash, 1);
        id += 1;
    }
    LodCatalog::new(index, store)
}

/// The faint-limit test of each entry (a tier is skipped when its bright
/// bound exceeds the limit), and an all-sky view.
fn all_sky_flags(cat: &LodCatalog<MemoryBlobStore>, faint_limit: f32) -> (Vec<bool>, Vec<bool>) {
    let entries = cat.index().entries();
    let examined = entries
        .iter()
        .map(|e| e.tile.tier == BASE_TIER || TIER_BOUNDS[e.tile.tier as usize - 1] <= faint_limit)
        .collect();
    (examined, vec![true; entries.len()])
}

#[test]
fn all_sky_query_streams_every_tile() {
    let cat = synthetic_catalog();
    let (examined, in_view) = all_sky_flags(&cat, 12.0);
    let stream = cat.stream_tiles(&examined, &in_view);
    // base (18) + faint (36) tiles.
    assert_eq!(stream.loaded.len(), cat.index().len());
    assert_eq!(stream.tiles_examined, cat.index().len());
    assert_eq!(stream.loaded.len(), 18 + 36);
}

#[test]
fn faint_limit_skips_deep_tiers() {
    let cat = synthetic_catalog();
    // A bright-only query never touches the faint tier-2 tiles.
    let (examined, in_view) = all_sky_flags(&cat, 6.0);
    let stream = cat.stream_tiles(&examined, &in_view);
    assert_eq!(stream.loaded.len(), 18);
    assert!(stream.loaded.iter().all(|(t, _)| t.tier == BASE_TIER));
}

#[test]
fn streaming_is_deterministic_and_preserves_gaia_ids() {
    let cat = synthetic_catalog();
    let (examined, in_view) = all_sky_flags(&cat, 12.0);
    let a = cat.stream_tiles(&examined, &in_view);
    let b = cat.stream_tiles(&examined, &in_view);
    assert_eq!(a.loaded, b.loaded, "streaming must be deterministic");
    // Base tiles first, each band in order; payloads keep their Gaia ids.
    assert_eq!(a.loaded[0].0, TileId { tier: BASE_TIER, lat: 9, lon: 0 });
    assert_eq!(String::from_utf8(a.loaded[0].1.clone()).unwrap(), "source_id,phot_g_mean_mag\n1,4.0\n");
    assert_eq!(a.loaded[18].0, TileId { tier: 2, lat: 9, lon: 0 });
    assert_eq!(String::from_utf8(a.loaded[18].1.clone()).unwrap(), "source_id,phot_g_mean_mag\n19,11.0\n");
}

#[test]
fn faint_limit_compares_the_bright_bound_of_a_tier() {
    let cat = synthetic_catalog();
    // Tier 2 holds magnitudes 9..12: a limit of 10 reaches into it.
    let (examined, in_view) = all_sky_flags(&cat, 10.0);
    let stream = cat.stream_tiles(&examined, &in_view);
    assert_eq!(stream.loaded.len(), 18 + 36);
    let (examined, in_view) = all_sky_flags(&cat, 8.5);
    assert_eq!(cat.stream_tiles(&examined, &in_view).loaded.len(), 18);
}

#[test]
fn picked_entries_follow_streaming_order() {
    let cat = streaming_catalog();
    let all = vec![true; 6];
    let picked = cat.index().picked_entries(&all, &all);
    let tiles: Vec<TileId> = picked.iter().map(|e| e.tile).collect();
    let order = cat.index().stream_order(&all, &all);
    let expected: Vec<TileId> = order.iter().map(|&i| cat.index().entries()[i].tile).collect();
    assert_eq!(tiles, expected);
}

#[test]
fn assemble_loaded_keeps_answered_tiles_with_their_bytes() {
    let cat = streaming_catalog();
    let all = vec![true; 6];
    let picked = cat.index().picked_entries(&all, &all);
    let answers: Vec<Option<Vec<u8>>> =
        (0..picked.len()).map(|i| if i % 2 == 0 { Some(vec![i as u8]) } else { None }).collect();
    let loaded = stars::lod::assemble_loaded(&picked, answers);
    let expected: Vec<(TileId, Vec<u8>)> =
        (0..picked.len()).step_by(2).map(|i| (picked[i].tile, vec![i as u8])).collect();
    assert_eq!(loaded, expected);
}
