use stars::deepsky::DeepSkyId;
use stars::goto::{format_dec_dm, format_ra_hm, resolve_goto_subject, GotoBody};
use stars::planning::Planet;
use stars::ranking::{search_hits, solar_system_bodies, StarNames};
use stars::results::rank_hits;
use stars::search::{SearchId, SearchKind};

fn named(index: u32, proper: Option<&str>, bayer: Option<&str>, con: Option<&str>) -> StarNames {
    StarNames {
        index,
        proper: proper.map(str::to_string),
        bayer: bayer.map(str::to_string),
        flam: None,
        hr: None,
        hd: None,
        hip: None,
        constellation: con.map(str::to_string),
    }
}

fn stars() -> Vec<StarNames> {
    vec![
        named(7, Some("Sirius"), Some("Alp"), Some("CMa")),
        named(3, Some("Vega"), Some("Alp"), Some("Lyr")),
        named(9, None, Some("Bet"), None),
    ]
}

fn messier() -> Vec<DeepSkyId> {
    (1..=110).map(DeepSkyId::Messier).collect()
}

fn bright() -> Vec<DeepSkyId> {
    vec![DeepSkyId::Ngc(869), DeepSkyId::Ic(434), DeepSkyId::Ngc(7000)]
}

fn top_id(query: &str) -> Option<SearchId> {
    let hits = search_hits(query, &solar_system_bodies(), &stars(), &messier(), &bright());
    let ranks = vec![0; hits.len()];
    rank_hits(&hits, &ranks, 1).into_iter().next().map(|h| h.id)
}

#[test]
fn query_resolves_named_star() {
    let id = top_id("Vega").expect("Vega found");
    let subject = resolve_goto_subject(&id, &stars(), &messier(), &bright(), &solar_system_bodies())
        .expect("Vega resolves");
    assert_eq!(subject.kind, SearchKind::Star);
    assert!(subject.display.contains("Vega"), "display={}", subject.display);
    assert_eq!(subject.aka, "Alp Lyr");
    assert_eq!(subject.body, GotoBody::Star(1));
    assert!(id.encode().starts_with("star:"), "id={}", id.encode());
}

#[test]
fn query_resolves_messier() {
    let id = top_id("M31").expect("M31 found");
    let subject = resolve_goto_subject(&id, &stars(), &messier(), &bright(), &solar_system_bodies())
        .expect("M31 resolves");
    assert_eq!(subject.kind, SearchKind::Messier);
    assert_eq!(id.encode(), "m:31");
    assert_eq!(subject.display, "M31");
    assert_eq!(subject.body, GotoBody::DeepSky(30));
}

#[test]
fn query_resolves_planet() {
    let id = top_id("Saturn").expect("Saturn found");
    let subject = resolve_goto_subject(&id, &stars(), &messier(), &bright(), &solar_system_bodies())
        .expect("Saturn resolves");
    assert_eq!(subject.kind, SearchKind::SolarSystem);
    assert_eq!(id.encode(), "ss:saturn");
    assert_eq!(subject.body, GotoBody::Planet(Planet::Saturn));
    assert_eq!(subject.display, "Saturn");
}

#[test]
fn query_resolves_japanese_alias() {
    let id = top_id("土星").expect("土星 found");
    assert_eq!(id.encode(), "ss:saturn");
    let subject = resolve_goto_subject(&id, &stars(), &messier(), &bright(), &solar_system_bodies())
        .expect("土星 resolves");
    assert_eq!(subject.aka, "土星");
}

#[test]
fn unknown_query_errors() {
    assert!(top_id("definitely-not-a-real-object").is_none());
}

#[test]
fn empty_query_errors() {
    assert!(top_id("   ").is_none());
}

#[test]
fn goto_ids_without_rows_do_not_resolve() {
    let bodies = solar_system_bodies();
    assert!(resolve_goto_subject(&SearchId::NamedStar(4), &stars(), &messier(), &bright(), &bodies).is_none());
    assert!(resolve_goto_subject(&SearchId::Messier(111), &stars(), &messier(), &bright(), &bodies).is_none());
    assert!(resolve_goto_subject(&SearchId::Ic(869), &stars(), &messier(), &bright(), &bodies).is_none());
    assert!(resolve_goto_subject(&SearchId::SolarSystem("pluto"), &stars(), &messier(), &bright(), &bodies).is_none());
    // A known key with no body row.
    assert!(resolve_goto_subject(&SearchId::SolarSystem("moon"), &stars(), &messier(), &bright(), &[]).is_none());
}

#[test]
fn goto_deep_sky_labels_and_rows() {
    let bodies = solar_system_bodies();
    let ic = resolve_goto_subject(&SearchId::Ic(434), &stars(), &messier(), &bright(), &bodies).unwrap();
    assert_eq!((ic.kind, ic.display.as_str(), ic.aka.as_str(), ic.body), (SearchKind::Ic, "IC 434", "IC 434", GotoBody::DeepSky(1)));
    let ngc = resolve_goto_subject(&SearchId::Ngc(7000), &stars(), &messier(), &bright(), &bodies).unwrap();
    assert_eq!((ngc.kind, ngc.display.as_str(), ngc.body), (SearchKind::Ngc, "NGC 7000", GotoBody::DeepSky(2)));
    let star = resolve_goto_subject(&SearchId::NamedStar(9), &stars(), &messier(), &bright(), &bodies).unwrap();
    assert_eq!(star.aka, "");
    let sun = resolve_goto_subject(&SearchId::SolarSystem("sun"), &stars(), &messier(), &bright(), &bodies).unwrap();
    assert_eq!(sun.body, GotoBody::Sun);
}

#[test]
fn ra_dec_formatting_bounds() {
    assert_eq!(format_ra_hm(0, 0), "00h00m");
    // 12h = π radians.
    assert_eq!(format_ra_hm(12, 0), "12h00m");
    assert_eq!(format_dec_dm(false, 0, 0), "+00°00′");
    assert_eq!(format_dec_dm(false, 90, 0), "+90°00′");
    assert_eq!(format_dec_dm(true, 90, 0), "-90°00′");
}

#[test]
fn sexagesimal_minutes_carry() {
    assert_eq!(format_ra_hm(23, 60), "00h00m");
    assert_eq!(format_ra_hm(5, 7), "05h07m");
    assert_eq!(format_ra_hm(24, 0), "00h00m");
    assert_eq!(format_dec_dm(true, 16, 60), "-17°00′");
    assert_eq!(format_dec_dm(false, 123, 5), "+123°05′");
}

#[test]
fn info_summary_is_nonempty_and_structured() {
    let summary = stars::goto::info_summary(
        "Sirius",
        "Alp CMa",
        SearchKind::Star,
        Some("-1.46"),
        "06h45m",
        "-16°43′",
        "12.3",
        "140.0",
        Some("2.640 pc"),
    );
    assert!(summary.contains("Sirius"), "summary={summary}");
    assert!(summary.contains("mag"), "summary={summary}");
    assert!(summary.contains("RA"), "summary={summary}");
    assert!(summary.contains("alt"), "summary={summary}");
    assert_eq!(
        summary,
        "Sirius · (Alp CMa) · star · mag -1.46 · RA 06h45m Dec -16°43′ · alt 12.3° az 140.0° · 2.640 pc"
    );
}

#[test]
fn info_summary_drops_missing_and_repeated_parts() {
    let summary = stars::goto::info_summary(
        "M31", "M31", SearchKind::Messier, None, "00h43m", "+41°16′", "-5.0", "10.0", None,
    );
    assert_eq!(summary, "M31 · messier · RA 00h43m Dec +41°16′ · alt -5.0° az 10.0°");
    let empty_aka = stars::goto::info_summary(
        "Moon", "", SearchKind::SolarSystem, None, "01h00m", "+00°00′", "1.0", "2.0", Some("384400.000 km"),
    );
    assert_eq!(empty_aka, "Moon · solar-system · RA 01h00m Dec +00°00′ · alt 1.0° az 2.0° · 384400.000 km");
}
