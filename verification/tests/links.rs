use stars::links::{encode_query_value, hex_digit, simbad_identifier_url, CdsIdentifiers};

fn ids() -> CdsIdentifiers {
    CdsIdentifiers { hip: None, hd: None, hr: None, proper_name: None, catalog_designation: None }
}

#[test]
fn hip_identifier_takes_priority() {
    let all = CdsIdentifiers {
        hip: Some(32349),
        hd: Some(48915),
        hr: Some(2491),
        proper_name: Some("Sirius".to_string()),
        ..ids()
    };
    let id = all.preferred_identifier().unwrap();
    assert_eq!(
        simbad_identifier_url(&id),
        "https://simbad.cds.unistra.fr/simbad/sim-id?Ident=HIP+32349"
    );
}

#[test]
fn identifier_priority_falls_through() {
    let hd = CdsIdentifiers { hd: Some(48915), hr: Some(2491), ..ids() };
    assert_eq!(hd.preferred_identifier().as_deref(), Some("HD 48915"));
    let hr = CdsIdentifiers { hr: Some(2491), proper_name: Some("Sirius".to_string()), ..ids() };
    assert_eq!(hr.preferred_identifier().as_deref(), Some("HR 2491"));
    let name = CdsIdentifiers {
        proper_name: Some("Sirius".to_string()),
        catalog_designation: Some("M 31".to_string()),
        ..ids()
    };
    assert_eq!(name.preferred_identifier().as_deref(), Some("Sirius"));
    let desig = CdsIdentifiers { catalog_designation: Some("NGC 224".to_string()), ..ids() };
    assert_eq!(desig.preferred_identifier().as_deref(), Some("NGC 224"));
}

#[test]
fn blank_names_are_skipped() {
    let blank = CdsIdentifiers {
        proper_name: Some("   ".to_string()),
        catalog_designation: Some("  M 31 ".to_string()),
        ..ids()
    };
    assert_eq!(blank.preferred_identifier().as_deref(), Some("M 31"));
    assert_eq!(ids().preferred_identifier(), None);
}

#[test]
fn query_values_are_percent_encoded() {
    assert_eq!(encode_query_value("M 31"), "M+31");
    assert_eq!(encode_query_value("a-b_c.d~e"), "a-b_c.d~e");
    assert_eq!(encode_query_value("alf+CMa/x"), "alf%2BCMa%2Fx");
    assert_eq!(encode_query_value("101.287 -16.716"), "101.287+-16.716");
    assert_eq!(encode_query_value("χ"), "%CF%87");
    assert_eq!(encode_query_value(""), "");
}

#[test]
fn hex_digits_are_upper_case() {
    assert_eq!(hex_digit(0), '0');
    assert_eq!(hex_digit(9), '9');
    assert_eq!(hex_digit(10), 'A');
    assert_eq!(hex_digit(15), 'F');
}

#[test]
fn deepsky_designation_is_encoded() {
    let ids = CdsIdentifiers { catalog_designation: Some("M 31".to_string()), ..ids() };
    let id = ids.preferred_identifier().unwrap();
    assert_eq!(
        simbad_identifier_url(&id),
        "https://simbad.cds.unistra.fr/simbad/sim-id?Ident=M+31"
    );
}
