use stars::constellations::{decode_segments, is_well_formed_segment_table};

#[test]
fn segment_tables_decode_quantised_endpoints() {
    let magic = b"CNLIN1\0\0";
    let mut data = magic.to_vec();
    data.extend_from_slice(&2u32.to_le_bytes());
    for v in [32767i16, 0, 0, 0, -32767, 5, 1, 2, 3, -4, -5, -6] {
        data.extend_from_slice(&v.to_le_bytes());
    }
    assert!(is_well_formed_segment_table(&data, magic));
    let segs = decode_segments(&data, magic);
    assert_eq!(segs.len(), 2);
    assert_eq!(segs[0].start, (32767, 0, 0));
    assert_eq!(segs[0].end, (0, -32767, 5));
    assert_eq!(segs[1].end, (-4, -5, -6));
    assert!(!is_well_formed_segment_table(&data[..data.len() - 2], magic));
    assert!(!is_well_formed_segment_table(&data, b"CNBND1\0\0"));
}
