use stars::deepsky::DeepSkyId;
use stars::ranking::{
    bright_hit, messier_hit, norm, search_hits, search_limit, solar_system_bodies, tokens,
    SearchHit, StarNames,
};
use stars::results::{hit_order, rank_hits};
use stars::search::{SearchId, SearchKind};

fn star(
    index: u32,
    proper: Option<&str>,
    bayer: Option<&str>,
    con: Option<&str>,
    hr: Option<u32>,
    hd: Option<u32>,
    hip: Option<u32>,
) -> StarNames {
    StarNames {
        index,
        proper: proper.map(str::to_string),
        bayer: bayer.map(str::to_string),
        flam: None,
        hr,
        hd,
        hip,
        constellation: con.map(str::to_string),
    }
}

/// A few bright stars with their V magnitudes, in table order.
fn stars() -> Vec<(StarNames, f32)> {
    vec![
        (star(0, Some("Sirius"), Some("Alp"), Some("CMa"), Some(2491), Some(48915), Some(32349)), -1.46),
        (star(1, Some("Vega"), Some("Alp"), Some("Lyr"), Some(7001), Some(172167), Some(91262)), 0.03),
        (star(2, Some("Rigil Kentaurus"), Some("Alp"), Some("Cen"), Some(5459), Some(128620), Some(71683)), -0.01),
        (star(3, Some("Sheliak"), Some("Bet"), Some("Lyr"), Some(7106), Some(174638), Some(92420)), 3.52),
        (star(4, Some("Rigel"), Some("Bet"), Some("Ori"), Some(1713), Some(34085), Some(24436)), 0.18),
    ]
}

fn messier_ids() -> Vec<DeepSkyId> {
    (1..=110).map(DeepSkyId::Messier).collect()
}

fn bright_ids() -> Vec<DeepSkyId> {
    vec![DeepSkyId::Ngc(869), DeepSkyId::Ngc(884), DeepSkyId::Ngc(7000), DeepSkyId::Ic(434)]
}

/// Brightness rank of each magnitude: the number of strictly brighter ones.
fn ranks_of(magnitudes: &[f32]) -> Vec<u32> {
    magnitudes
        .iter()
        .map(|&m| magnitudes.iter().filter(|&&x| x < m).count() as u32)
        .collect()
}

/// Ranks the hits the way the hosts do: score, then brightness, then label.
fn search(query: &str, limit: usize) -> Vec<SearchHit> {
    let rows = stars();
    let names: Vec<StarNames> = rows.iter().map(|(s, _)| s.clone()).collect();
    let hits = search_hits(query, &solar_system_bodies(), &names, &messier_ids(), &bright_ids());
    let mags: Vec<f32> = hits
        .iter()
        .map(|h| match h.kind {
            SearchKind::Star => rows[h.row].1,
            _ => f32::INFINITY,
        })
        .collect();
    rank_hits(&hits, &ranks_of(&mags), limit)
}

fn top_id(query: &str) -> SearchId {
    let hits = search(query, 5);
    assert!(!hits.is_empty(), "no hits for {query:?}");
    hits[0].id.clone()
}

#[test]
fn proper_name_lookup_finds_sirius() {
    let hits = search("Sirius", 5);
    let top = &hits[0];
    assert_eq!(top.kind, SearchKind::Star);
    assert!(top.display.contains("Sirius"), "display={}", top.display);
    assert_eq!(top.aka, "Alp CMa · HR 2491 · HD 48915 · HIP 32349");
}

#[test]
fn case_insensitive_lookup() {
    let lo = top_id("vega");
    let hi = top_id("VEGA");
    let mixed = top_id("VeGa");
    assert_eq!(lo, hi);
    assert_eq!(lo, mixed);
}

#[test]
fn bayer_designation_lookup() {
    let hits = search("Alp CMa", 5);
    assert!(hits.iter().any(|h| h.display.contains("Sirius")), "top hits = {hits:?}");
}

#[test]
fn token_bayer_lookup() {
    let hits = search("alp cen", 5);
    assert!(
        hits.iter().any(|h| h.display.contains("Rigil") || h.display.contains("Alp Cen")),
        "top hits = {hits:?}"
    );
}

#[test]
fn hd_identifier_lookup() {
    let hits = search("HD 48915", 5);
    assert!(hits.iter().any(|h| h.display.contains("Sirius")), "hits = {hits:?}");
}

#[test]
fn hip_identifier_lookup() {
    let hits = search("HIP 91262", 5);
    assert!(hits.iter().any(|h| h.display.contains("Vega")), "hits = {hits:?}");
}

#[test]
fn messier_lookup() {
    let hits = search("M31", 5);
    assert_eq!(hits[0].kind, SearchKind::Messier);
    assert_eq!(hits[0].id, SearchId::Messier(31));
    assert!(hits[0].display.contains("Andromeda"), "display={}", hits[0].display);
}

#[test]
fn messier_nickname_lookup() {
    let hits = search("Pleiades", 5);
    assert!(hits.iter().any(|h| h.id == SearchId::Messier(45)), "hits = {hits:?}");
}

#[test]
fn ngc_lookup() {
    let hits = search("NGC 869", 5);
    assert!(hits.iter().any(|h| matches!(h.id, SearchId::Ngc(869))), "hits = {hits:?}");
}

#[test]
fn ngc_nickname_lookup() {
    let hits = search("North America", 5);
    assert!(hits.iter().any(|h| matches!(h.id, SearchId::Ngc(7000))), "hits = {hits:?}");
}

#[test]
fn planet_lookup() {
    let hits = search("Jupiter", 3);
    assert_eq!(hits[0].kind, SearchKind::SolarSystem);
    assert_eq!(hits[0].id, SearchId::SolarSystem("jupiter"));
}

#[test]
fn moon_and_sun_lookup() {
    assert_eq!(top_id("moon"), SearchId::SolarSystem("moon"));
    assert_eq!(top_id("sun"), SearchId::SolarSystem("sun"));
}

#[test]
fn japanese_planet_lookup() {
    let hits = search("土星", 3);
    assert_eq!(hits[0].id, SearchId::SolarSystem("saturn"));
}

#[test]
fn empty_query_returns_nothing() {
    assert!(search("", 5).is_empty());
    assert!(search("   ", 5).is_empty());
}

#[test]
fn ranking_prefers_brighter_star_on_score_tie() {
    let hits = search("Bet Ori", 3);
    assert!(
        hits[0].display.contains("Rigel") || hits[0].display.contains("Bet Ori"),
        "first hit = {}",
        hits[0].display
    );
}

#[test]
fn query_normalisation_and_tokens() {
    assert_eq!(norm(" Alp  CMa "), "alpcma");
    assert_eq!(norm("HD 48915"), "hd48915");
    assert_eq!(tokens("  Alp \t CMa "), vec!["alp".to_string(), "cma".to_string()]);
    assert!(tokens("   ").is_empty());
    assert_eq!(search_limit(0), 12);
    assert_eq!(search_limit(3), 3);
}

#[test]
fn buckets_rank_exact_prefix_and_substring() {
    // Exact label, prefix of the label, substring of the popular name.
    assert_eq!(messier_hit(31, &norm("M31"), 30).map(|h| h.score), Some(0));
    assert_eq!(messier_hit(31, &norm("M3"), 30).map(|h| h.score), Some(1));
    assert_eq!(messier_hit(31, &norm("galaxy"), 30).map(|h| h.score), Some(2));
    assert_eq!(messier_hit(31, &norm("xyz"), 30), None);
    let m45 = messier_hit(45, "pleiades", 44).expect("nickname match");
    assert_eq!(m45.display, "Pleiades");
    assert_eq!(m45.aka, "Messier 45 · Pleiades");
    assert_eq!(m45.row, 44);
    // NGC names have no substring tier; nicknames start one bucket lower.
    assert_eq!(bright_hit(DeepSkyId::Ngc(7000), "america", 0), None);
    let na = bright_hit(DeepSkyId::Ngc(7000), "northamerica", 2).expect("prefix of nickname");
    assert_eq!(na.score, 2);
    assert_eq!(na.aka, "NGC 7000 · North America Nebula");
    let ic = bright_hit(DeepSkyId::Ic(434), "ic434", 3).expect("exact IC label");
    assert_eq!((ic.id, ic.kind, ic.score), (SearchId::Ic(434), SearchKind::Ic, 0));
    assert_eq!(ic.display, "IC434");
}

#[test]
fn star_labels_fall_back_through_designations() {
    let s = star(9, None, None, None, None, Some(1234), None);
    assert_eq!(s.display(), "HD 1234");
    assert_eq!(s.aka(), "HD 1234");
    let bare = star(17, None, None, None, None, None, None);
    assert_eq!(bare.display(), "Star #17");
    assert_eq!(bare.aka(), "");
    let bayer_only = star(3, None, Some("Bet"), None, None, None, None);
    // A Bayer letter without a constellation is no designation.
    assert_eq!(bayer_only.display(), "Star #3");
    let toks = vec!["bet".to_string()];
    assert_eq!(bayer_only.score("bet", &toks), None);
}

#[test]
fn solar_bodies_match_any_alias() {
    let bodies = solar_system_bodies();
    assert_eq!(bodies.len(), 9);
    let sun = &bodies[0];
    assert_eq!(sun.score("sol"), Some(0));
    assert_eq!(sun.score("sunda"), Some(1));
    assert_eq!(sun.score("und"), Some(2));
    let hit = sun.hit("太陽", 0).expect("Japanese name");
    assert_eq!(hit.aka, "solar system · 太陽");
    assert_eq!(hit.kind_hint, Some("sun"));
}

fn plain_hit(score: u8, display: &str, row: usize) -> SearchHit {
    SearchHit {
        id: SearchId::NamedStar(row as u32),
        kind: SearchKind::Star,
        score,
        display: display.to_string(),
        aka: String::new(),
        kind_hint: None,
        row,
    }
}

#[test]
fn results_order_by_score_brightness_label_then_found_order() {
    let hits = vec![
        plain_hit(2, "Zeta", 0),
        plain_hit(1, "Beta", 1),
        plain_hit(1, "Alpha", 2),
        plain_hit(1, "Alpha", 3),
        plain_hit(0, "Omega", 4),
        plain_hit(1, "Gamma", 5),
    ];
    // Hit 5 is the brightest of the score-1 hits; hits 1..=3 tie on brightness.
    let ranks = vec![0, 3, 3, 3, 9, 1];
    assert_eq!(hit_order(&hits, &ranks), vec![4, 5, 2, 3, 1, 0]);
    let rows: Vec<usize> = rank_hits(&hits, &ranks, 4).iter().map(|h| h.row).collect();
    assert_eq!(rows, vec![4, 5, 2, 3]);
}

#[test]
fn results_missing_rank_counts_as_faintest_and_zero_limit_is_default() {
    let hits: Vec<SearchHit> = (0..20).map(|i| plain_hit(1, "Same", i)).collect();
    // Only the first two hits have a rank; the rest tie as the faintest.
    let ranked = rank_hits(&hits, &[5, 4], 0);
    assert_eq!(ranked.len(), 12);
    let rows: Vec<usize> = ranked.iter().map(|h| h.row).collect();
    assert_eq!(rows, vec![1, 0, 2, 3, 4, 5, 6, 7, 8, 9, 10, 11]);
    assert!(rank_hits(&[], &[], 3).is_empty());
}

#[test]
fn results_labels_compare_by_character() {
    let hits = vec![plain_hit(0, "b", 0), plain_hit(0, "ab", 1), plain_hit(0, "a", 2), plain_hit(0, "Z", 3), plain_hit(0, "é", 4)];
    assert_eq!(hit_order(&hits, &[0, 0, 0, 0, 0]), vec![3, 2, 1, 0, 4]);
}
