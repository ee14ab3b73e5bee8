use csv::StringRecord;
use stars::ids::{pack_tyc, CatalogObjectId, CatalogSource};
use stars::ingest::{
    cap_page, field, gaia_row_identifiers, hipparcos_row_identifiers, parse_u32, parse_u64,
    tycho2_row_identifiers, Columns, GaiaDr3Columns, GaiaDr3CsvBackend, HipparcosColumns,
    HipparcosCsvBackend, HygCsvBackend, HygEmbeddedBackend, Tycho2Columns, Tycho2CsvBackend,
};

fn record(fields: &[&str]) -> StringRecord {
    StringRecord::from(fields.to_vec())
}

#[test]
fn columns_match_aliases_case_insensitively() {
    let cols = Columns::from_header(&record(&[" HIP ", "RAdeg", "DEdeg", "Vmag", "HD"]));
    assert_eq!(cols.index(&["hip"]), Some(0));
    assert_eq!(cols.index(&["RAICRS", "RAdeg", "ra"]), Some(1));
    assert_eq!(cols.index(&["dec", "DEDEG"]), Some(2));
    assert_eq!(cols.index(&["Plx", "parallax"]), None);
    let h = HipparcosColumns::resolve(&cols);
    assert_eq!((h.hip, h.ra, h.dec, h.vmag, h.hd), (Some(0), Some(1), Some(2), Some(3), Some(4)));
    assert_eq!((h.plx, h.pmra, h.bv), (None, None, None));
}

#[test]
fn fields_are_trimmed_and_blank_is_missing() {
    let r = record(&["  42 ", "", "x", "+7"]);
    assert_eq!(field(&r, Some(0)).as_deref(), Some("42"));
    assert_eq!(field(&r, Some(1)), None);
    assert_eq!(field(&r, Some(9)), None);
    assert_eq!(field(&r, None), None);
    assert_eq!(parse_u32(&r, Some(0)), Some(42));
    assert_eq!(parse_u32(&r, Some(2)), None);
    assert_eq!(parse_u32(&r, Some(3)), Some(7));
    assert_eq!(parse_u64(&record(&["2947050466531873024"]), Some(0)), Some(2947050466531873024));
    assert_eq!(parse_u32(&record(&["4294967296"]), Some(0)), None);
}

#[test]
fn row_identifiers_cover_hip_tyc_gaia() {
    let gaia_cols = GaiaDr3Columns::resolve(&Columns::from_header(&record(&[
        "source_id", "ra", "dec", "parallax", "pmra", "pmdec", "phot_g_mean_mag", "bp_rp", "HIP",
        "HD",
    ])));
    let row = record(&[
        "2947050466531873024", "101.287", "-16.716", "379.21", "-546.0", "-1223.0", "-1.46", "0.0",
        "32349", "48915",
    ]);
    let ids = gaia_row_identifiers(&row, &gaia_cols).expect("gaia row has a source id");
    assert_eq!(ids.gaia_dr3, Some(2947050466531873024));
    assert_eq!(ids.hip, Some(32349));
    assert_eq!(ids.hd, Some(48915));
    assert_eq!(ids.primary, Some(CatalogObjectId::GaiaDr3(2947050466531873024)));

    let tyc_cols = Tycho2Columns::resolve(&Columns::from_header(&record(&[
        "TYC1", "TYC2", "TYC3", "RAmdeg", "DEmdeg", "VTmag", "BTmag", "HIP",
    ])));
    let row = record(&["5949", "2777", "1", "101.28", "-16.71", "-1.08", "-1.03", "32349"]);
    let ids = tycho2_row_identifiers(&row, &tyc_cols).expect("tycho row has a designation");
    assert_eq!(ids.tycho2, Some(pack_tyc(5949, 2777, 1)));
    assert_eq!(ids.hip, Some(32349));
    let missing = record(&["5949", "", "1", "101.28", "-16.71", "-1.08", "-1.03", "32349"]);
    assert!(tycho2_row_identifiers(&missing, &tyc_cols).is_none());

    let hip_cols = HipparcosColumns::resolve(&Columns::from_header(&record(&[
        "HIP", "RAICRS", "DEICRS", "Vmag", "HD",
    ])));
    let ids = hipparcos_row_identifiers(&record(&["32349", "1", "2", "3", "48915"]), &hip_cols)
        .expect("hip row");
    assert_eq!(ids.primary, Some(CatalogObjectId::Hipparcos(32349)));
    assert_eq!(ids.hd, Some(48915));
    assert!(hipparcos_row_identifiers(&record(&["", "1", "2", "3", "48915"]), &hip_cols).is_none());
}

#[test]
fn backends_keep_their_paths_and_sources() {
    let hyg = HygCsvBackend::new("data/hyg_v42.csv".to_string());
    assert_eq!(hyg.path(), "data/hyg_v42.csv");
    assert_eq!(hyg.source(), CatalogSource::hyg_csv());
    assert_eq!(HygEmbeddedBackend.source(), CatalogSource::hyg_embedded());
    assert_eq!(HipparcosCsvBackend::new("hip.csv".to_string()).path(), "hip.csv");
    assert_eq!(Tycho2CsvBackend::new("tyc.csv".to_string()).source(), CatalogSource::tycho2());
    assert_eq!(GaiaDr3CsvBackend::new("gaia.csv".to_string()).source().name, "Gaia DR3");
}

#[test]
fn page_caps_drop_trailing_rows() {
    let mut rows = vec![1, 2, 3];
    assert!(cap_page(&mut rows, Some(1)));
    assert_eq!(rows, vec![1]);
    let mut rows = vec![1, 2, 3];
    assert!(!cap_page(&mut rows, Some(3)));
    assert_eq!(rows.len(), 3);
    let mut rows = vec![1, 2];
    assert!(!cap_page(&mut rows, None));
    assert_eq!(rows, vec![1, 2]);
}

fn texts(values: &[Option<String>]) -> Vec<Option<&str>> {
    values.iter().map(|v| v.as_deref()).collect()
}

#[test]
fn parses_hipparcos_sirius_row() {
    // Hipparcos main catalogue values for Sirius (HIP 32349 = HD 48915).
    let csv = "HIP,RAICRS,DEICRS,Vmag,Plx,pmRA,pmDE,B-V,HD\n\
               32349,101.287155,-16.716116,-1.44,379.21,-546.01,-1223.07,0.009,48915\n";
    let rows = stars::ingest::hipparcos_records(csv);
    assert_eq!(rows.len(), 1);
    let sirius = &rows[0];
    assert_eq!(sirius.identifiers.primary, Some(CatalogObjectId::Hipparcos(32349)));
    assert_eq!(sirius.identifiers.hip, Some(32349));
    assert_eq!(sirius.identifiers.hd, Some(48915));
    assert_eq!(
        texts(&sirius.values),
        vec![
            Some("101.287155"),
            Some("-16.716116"),
            Some("-1.44"),
            Some("379.21"),
            Some("-546.01"),
            Some("-1223.07"),
            Some("0.009")
        ]
    );
}

#[test]
fn parses_tycho2_row_with_vt_bt_transform() {
    let csv = "TYC1,TYC2,TYC3,RAmdeg,DEmdeg,BTmag,VTmag,pmRA,pmDE,HIP\n\
               1,8,1,83.5,-5.4,10.5,9.5,1.5,-2.0,12345\n";
    let rows = stars::ingest::tycho2_records(csv);
    assert_eq!(rows.len(), 1);
    let star = &rows[0];
    match star.identifiers.primary {
        Some(CatalogObjectId::Tycho2(packed)) => {
            assert_eq!(stars::ids::unpack_tyc(packed), (1, 8, 1));
        }
        other => panic!("expected Tycho2 primary, got {other:?}"),
    }
    assert_eq!(star.identifiers.hip, Some(12345));
    // ra, dec, vt, bt, pmra, pmde.
    assert_eq!(
        texts(&star.values),
        vec![Some("83.5"), Some("-5.4"), Some("9.5"), Some("10.5"), Some("1.5"), Some("-2.0")]
    );
}

#[test]
fn parses_gaia_dr3_row() {
    let csv = "source_id,ra,dec,parallax,pmra,pmdec,phot_g_mean_mag,bp_rp\n\
               4472832130942575872,259.2,-2.5,4.0,10.0,-5.0,8.2,0.82\n";
    let rows = stars::ingest::gaia_dr3_records(csv);
    assert_eq!(rows.len(), 1);
    let star = &rows[0];
    assert_eq!(star.identifiers.primary, Some(CatalogObjectId::GaiaDr3(4472832130942575872)));
    // ra, dec, plx, pmra, pmde, gmag, bp_rp.
    assert_eq!(
        texts(&star.values),
        vec![Some("259.2"), Some("-2.5"), Some("4.0"), Some("10.0"), Some("-5.0"), Some("8.2"), Some("0.82")]
    );
}

#[test]
fn export_rows_without_identifiers_or_columns() {
    // Short rows are read (the reader is lenient); a row without a HIP
    // number is dropped, and a missing or blank column reads as `None`.
    let csv = "HIP, Vmag ,ra\n7,  ,12.5\n,3.0,1.0\n9\n";
    let rows = stars::ingest::hipparcos_records(csv);
    assert_eq!(rows.len(), 2);
    assert_eq!(rows[0].identifiers.hip, Some(7));
    assert_eq!(texts(&rows[0].values), vec![Some("12.5"), None, None, None, None, None, None]);
    assert_eq!(rows[1].identifiers.hip, Some(9));
    assert_eq!(texts(&rows[1].values), vec![None; 7]);
    assert!(stars::ingest::gaia_dr3_records("").is_empty());
    assert!(stars::ingest::tycho2_records("TYC1,TYC2\n1,2\n").is_empty());
}
