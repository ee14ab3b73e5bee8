use stars::ids::{
    pack_tyc, unpack_tyc, CatalogBackendKind, CatalogIdentifiers, CatalogObjectId, CatalogSource,
};

#[test]
fn catalog_backend_kind_uses_session_snapshot_names() {
    assert_eq!(CatalogBackendKind::HygCsv.as_kebab_str(), "hyg-csv");
    assert_eq!(CatalogSource::hyg_csv().name, "HYG");
    assert_eq!(CatalogSource::hyg_csv().version, Some("4.2"));
}

#[test]
fn identifiers_preserve_hyg_cross_ids() {
    let ids = CatalogIdentifiers::from_hyg_row(Some(42), Some(123), Some(456));
    assert_eq!(ids.primary, Some(CatalogObjectId::Hyg(42)));
    assert_eq!(ids.hyg, Some(42));
    assert_eq!(ids.hip, Some(123));
    assert_eq!(ids.hd, Some(456));
}

#[test]
fn l18_primary_label_formats_each_family() {
    assert_eq!(CatalogObjectId::Hipparcos(32349).label(), "HIP 32349");
    assert_eq!(CatalogObjectId::HenryDraper(48915).label(), "HD 48915");
    assert_eq!(CatalogObjectId::Hyg(32263).label(), "HYG 32263");
    assert_eq!(CatalogObjectId::GaiaDr3(42).label(), "Gaia DR3 42");
    let tyc = pack_tyc(5949, 2777, 1);
    assert_eq!(CatalogObjectId::Tycho2(tyc).label(), "TYC 5949-2777-1");
}

#[test]
fn l18_resolved_primary_priority_and_label() {
    // Explicit primary wins.
    let hyg = CatalogIdentifiers::from_hyg_row(Some(7), Some(32349), Some(48915));
    assert_eq!(hyg.primary_label().as_deref(), Some("HYG 7"));
    // No explicit primary -> HIP before HD.
    let embedded = CatalogIdentifiers::from_hyg_row(None, Some(32349), Some(48915));
    assert_eq!(embedded.primary_label().as_deref(), Some("HIP 32349"));
    assert_eq!(
        embedded.resolved_primary(),
        Some(CatalogObjectId::Hipparcos(32349))
    );
    // HD only.
    let hd_only = CatalogIdentifiers::from_hyg_row(None, None, Some(48915));
    assert_eq!(hd_only.primary_label().as_deref(), Some("HD 48915"));
    // Identifier-less row.
    assert_eq!(CatalogIdentifiers::default().primary_label(), None);
}

#[test]
fn l18_pick_handle_round_trips_through_kind_and_value() {
    for id in [
        CatalogObjectId::Hipparcos(32349),
        CatalogObjectId::HenryDraper(48915),
        CatalogObjectId::Hyg(32263),
        CatalogObjectId::Tycho2(pack_tyc(5949, 2777, 1)),
        CatalogObjectId::GaiaDr3(2_947_050_466_531_873_024),
    ] {
        let ids = CatalogIdentifiers {
            primary: Some(id),
            ..Default::default()
        };
        let (kind, value) = ids.pick_handle();
        assert_ne!(kind, 0);
        assert_eq!(CatalogObjectId::from_parts(kind, value), Some(id));
    }
    // No id -> tag 0 -> None.
    let (kind, value) = CatalogIdentifiers::default().pick_handle();
    assert_eq!(kind, 0);
    assert_eq!(CatalogObjectId::from_parts(kind, value), None);
}

#[test]
fn tyc_pack_round_trips() {
    for (a, b, c) in [(1u32, 8u32, 1u32), (9537, 12000, 3), (4711, 1, 2)] {
        assert_eq!(unpack_tyc(pack_tyc(a, b, c)), (a, b, c));
    }
}

#[test]
fn tyc_packed_value_is_positional() {
    assert_eq!(pack_tyc(5949, 2777, 1), (5949u64 << 24) | (2777u64 << 4) | 1);
    assert_eq!(pack_tyc(1, 0, 0), 1 << 24);
    // The component keeps only its low four bits.
    assert_eq!(pack_tyc(0, 0, 0x13), 3);
}

#[test]
fn identifier_namespaces_and_tags() {
    assert_eq!(CatalogObjectId::Hyg(1).namespace(), "HYG");
    assert_eq!(CatalogObjectId::Tycho2(1).namespace(), "TYC2");
    assert_eq!(CatalogObjectId::GaiaDr3(1).numeric(), 1);
    assert_eq!(CatalogObjectId::from_parts(0, 5), None);
    assert_eq!(CatalogObjectId::from_parts(6, 5), None);
    assert_eq!(
        CatalogObjectId::from_parts(CatalogObjectId::HenryDraper(9).kind_tag(), 9),
        Some(CatalogObjectId::HenryDraper(9))
    );
}

#[test]
fn resolved_primary_falls_through_cross_ids() {
    let tyc = CatalogIdentifiers::from_tycho2_row(77, None);
    assert_eq!(tyc.resolved_primary(), Some(CatalogObjectId::Tycho2(77)));
    let gaia = CatalogIdentifiers::from_gaia_row(99, Some(5), Some(6));
    assert_eq!(gaia.resolved_primary(), Some(CatalogObjectId::GaiaDr3(99)));
    let hip = CatalogIdentifiers::from_hipparcos_row(11, Some(12));
    assert_eq!(hip.primary_label().as_deref(), Some("HIP 11"));
    let bare = CatalogIdentifiers {
        gaia_dr3: Some(3),
        hyg: Some(4),
        ..Default::default()
    };
    assert_eq!(bare.resolved_primary(), Some(CatalogObjectId::GaiaDr3(3)));
}

#[test]
fn catalog_sources_name_their_backends() {
    assert_eq!(CatalogSource::hipparcos().backend.as_kebab_str(), "hipparcos");
    assert_eq!(CatalogSource::tycho2().name, "Tycho-2");
    assert_eq!(CatalogSource::gaia_dr3().version, Some("I/355"));
    assert_eq!(CatalogSource::hyg_embedded().backend, CatalogBackendKind::HygEmbedded);
}
