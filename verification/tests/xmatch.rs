use stars::xmatch::{
    bright_star_cross_ids, cross_id_by_hd, cross_id_by_hip, cross_id_from_record,
    cross_ids_from_records, BrightStarCrossId,
};

const TABLE: &str = "hip,hd,vmag,bv,proper\n\
32349,48915,-1.44,0.009,Sirius\n\
30438,45348,-0.62,0.164,Canopus\n\
91262, 172167 ,0.03,-0.001, Vega \n\
69673,124897,-0.05,1.239,Arcturus\n\
,12345,3.0,0.1,NoHip\n\
x,1,2,3,Bad\n\
24608,34029,0.08\n";

#[test]
fn bright_star_xmatch_round_trips_hip_hd() {
    let table = bright_star_cross_ids(TABLE);
    assert!(
        !table.is_empty(),
        "committed bright-star anchor index is non-empty"
    );
    // Sirius is the canonical bright anchor: HIP 32349 ↔ HD 48915.
    let sirius = cross_id_by_hip(&table, 32349).expect("Sirius HIP 32349 present");
    assert_eq!(sirius.hd, 48915);
    assert_eq!(cross_id_by_hd(&table, 48915).map(|c| c.hip), Some(32349));
    // Every anchor round-trips HIP → HD → HIP.
    for anchor in &table {
        assert_eq!(cross_id_by_hd(&table, anchor.hd).map(|c| c.hip), Some(anchor.hip));
    }
}

#[test]
fn xmatch_rows_without_both_numbers_are_skipped() {
    let table = bright_star_cross_ids(TABLE);
    let hips: Vec<u32> = table.iter().map(|c| c.hip).collect();
    // The row with a different field count is rejected by the reader.
    assert_eq!(hips, vec![32349, 30438, 91262, 69673]);
    let vega = cross_id_by_hip(&table, 91262).unwrap();
    assert_eq!(
        vega,
        BrightStarCrossId {
            hip: 91262,
            hd: 172167,
            vmag: "0.03".to_string(),
            bv: "-0.001".to_string(),
            name: "Vega".to_string(),
        }
    );
}

#[test]
fn xmatch_lookup_misses_return_none() {
    let table = bright_star_cross_ids(TABLE);
    assert!(cross_id_by_hip(&table, 1).is_none());
    assert!(cross_id_by_hd(&table, 12345).is_none());
    assert!(cross_id_by_hip(&[], 32349).is_none());
}

#[test]
fn xmatch_record_with_short_fields() {
    let rec = csv::StringRecord::from(vec![" 7 ", "+8"]);
    let c = cross_id_from_record(&rec).unwrap();
    assert_eq!((c.hip, c.hd), (7, 8));
    assert_eq!((c.vmag.as_str(), c.bv.as_str(), c.name.as_str()), ("", "", ""));
    assert!(cross_id_from_record(&csv::StringRecord::from(vec!["7"])).is_none());
    assert!(cross_id_from_record(&csv::StringRecord::from(vec!["4294967296", "1"])).is_none());
    let rows = cross_ids_from_records(&[
        None,
        Some(csv::StringRecord::from(vec!["1", "2", "3.5", "0.5", "A"])),
        Some(csv::StringRecord::from(vec!["-1", "2"])),
    ]);
    assert_eq!(rows.len(), 1);
    assert_eq!(rows[0].name, "A");
}

#[test]
fn xmatch_first_entry_wins_on_duplicates() {
    let table = bright_star_cross_ids("hip,hd,vmag,bv,proper\n1,10,1,1,First\n1,11,2,2,Second\n2,10,3,3,Third\n");
    assert_eq!(cross_id_by_hip(&table, 1).unwrap().name, "First");
    assert_eq!(cross_id_by_hd(&table, 10).unwrap().name, "First");
}
