use stars::satellites::{
    is_norad_sliceable, parse_norad_id, parse_tle_set, tle_set_is_sliceable, SatelliteError,
};

const ISS_L1: &str = "1 25544U 98067A   24001.00000000  .00016717  00000-0  10270-3 0  9005";
const ISS_L2: &str = "2 25544  51.6416 247.4627 0006703 130.5360 325.0288 15.72125391563537";

#[test]
fn norad_id_is_read_from_columns_three_to_seven() {
    assert_eq!(parse_norad_id(ISS_L1), Some(25544));
    assert_eq!(parse_norad_id("1 00005U"), Some(5));
    assert_eq!(parse_norad_id("1    42"), Some(42));
    assert_eq!(parse_norad_id("1 2554"), None);
    assert_eq!(parse_norad_id("1 ABCDE"), None);
    assert_eq!(parse_norad_id("1      "), None);
}

#[test]
fn tle_text_groups_into_named_sets() {
    let text = format!(
        "# curated\n\nISS (ZARYA)\n{ISS_L1}\n{ISS_L2}\n{ISS_L1}\r\n{ISS_L2}\r\n2 orphan line two\n"
    );
    let sets = parse_tle_set(&text);
    assert_eq!(sets.len(), 2);
    assert_eq!(sets[0].name, "ISS (ZARYA)");
    assert_eq!(sets[0].line1, ISS_L1);
    assert_eq!(sets[0].line2, ISS_L2);
    assert_eq!(sets[0].norad_id, 25544);
    // A set without a name line is named after its catalogue number.
    assert_eq!(sets[1].name, "NORAD 25544");
    assert_eq!(sets[1].line2, ISS_L2);
}

#[test]
fn tle_name_line_resets_pending_line_one() {
    let text = format!("{ISS_L1}\nHUBBLE\n{ISS_L2}\n");
    assert!(parse_tle_set(&text).is_empty());
    let unnumbered = "OBJECT\n1 ABCDE\n2 ABCDE\n";
    let sets = parse_tle_set(unnumbered);
    assert_eq!(sets.len(), 1);
    assert_eq!(sets[0].name, "OBJECT");
    assert_eq!(sets[0].norad_id, 0);
}

#[test]
fn satellite_error_messages() {
    assert_eq!(SatelliteError::Parse("bad".to_string()).message(), "TLE parse error: bad");
    assert_eq!(
        SatelliteError::Propagate("decayed".to_string()).message(),
        "SGP4 propagation error: decayed"
    );
}

#[test]
fn norad_slice_must_fall_on_character_boundaries() {
    assert!(is_norad_sliceable(ISS_L1));
    assert!(is_norad_sliceable("1 é"));
    // Byte 2 falls inside the two-byte `é`.
    assert!(!is_norad_sliceable("1é 25544U"));
    // Byte 7 falls inside the three-byte `€`.
    assert!(!is_norad_sliceable("1 2554€U"));
    assert!(tle_set_is_sliceable(&format!("{ISS_L1}\n{ISS_L2}\n")));
    assert!(!tle_set_is_sliceable("1 2554€U\n2 25544\n"));
    // A line 1 that is never completed is not sliced.
    assert!(tle_set_is_sliceable("1 2554€U\nNAME\n"));
}
