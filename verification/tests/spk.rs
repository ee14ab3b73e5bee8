use stars::spk::{
    parse_daf_header, record_slice, segment_has_velocity, summary_ints, DafError, Endian,
};

fn file_record(id: &[u8; 8], tag: &[u8; 8], nd: i32, ni: i32, fward: i32, big: bool) -> Vec<u8> {
    let mut b = vec![0u8; 1024];
    b[0..8].copy_from_slice(id);
    let put = |b: &mut Vec<u8>, off: usize, v: i32| {
        let bytes = if big { v.to_be_bytes() } else { v.to_le_bytes() };
        b[off..off + 4].copy_from_slice(&bytes);
    };
    put(&mut b, 8, nd);
    put(&mut b, 12, ni);
    put(&mut b, 76, fward);
    b[88..96].copy_from_slice(tag);
    b
}

#[test]
fn daf_header_accepts_both_byte_orders() {
    let le = file_record(b"DAF/SPK ", b"LTL-IEEE", 2, 6, 4, false);
    let h = parse_daf_header(&le).unwrap();
    assert_eq!(h.endian, Endian::Little);
    assert_eq!(h.first_summary_record, 4);
    let be = file_record(b"NAIF/DAF", b"BIG-IEEE", 2, 6, 7, true);
    let h = parse_daf_header(&be).unwrap();
    assert_eq!(h.endian, Endian::Big);
    assert_eq!(h.first_summary_record, 7);
}

#[test]
fn daf_header_errors() {
    assert_eq!(parse_daf_header(&[0u8; 100]), Err(DafError::Truncated));
    let bad_id = file_record(b"DAF/PCK ", b"LTL-IEEE", 2, 6, 4, false);
    assert_eq!(parse_daf_header(&bad_id), Err(DafError::NotDafSpk));
    let bad_tag = file_record(b"DAF/SPK ", b"VAX-GFLT", 2, 6, 4, false);
    assert_eq!(parse_daf_header(&bad_tag), Err(DafError::UnknownEndianness));
    let bad_layout = file_record(b"DAF/SPK ", b"LTL-IEEE", 2, 5, 4, false);
    assert_eq!(
        parse_daf_header(&bad_layout),
        Err(DafError::BadSummaryLayout { nd: 2, ni: 5 })
    );
    let no_summary = file_record(b"DAF/SPK ", b"LTL-IEEE", 2, 6, 0, false);
    assert_eq!(parse_daf_header(&no_summary), Err(DafError::Truncated));
}

#[test]
fn records_are_one_based_kilobyte_slices() {
    let mut bytes = vec![0u8; 2048];
    bytes[1024] = 9;
    let rec = record_slice(&bytes, 2).unwrap();
    assert_eq!(rec.len(), 1024);
    assert_eq!(rec[0], 9);
    assert_eq!(record_slice(&bytes, 3), Err(DafError::Truncated));
}

#[test]
fn endian_reads_integers_and_words() {
    assert_eq!(Endian::Little.i32(&[1, 0, 0, 0]), 1);
    assert_eq!(Endian::Big.i32(&[0, 0, 0, 1]), 1);
    assert_eq!(Endian::Little.i32(&(-399i32).to_le_bytes()), -399);
    assert_eq!(Endian::Big.i32(&(-399i32).to_be_bytes()), -399);
    let w = 2451545.0f64;
    assert_eq!(f64::from_bits(Endian::Little.word_bits(&w.to_le_bytes())), w);
    assert_eq!(f64::from_bits(Endian::Big.word_bits(&w.to_be_bytes())), w);
}

#[test]
fn summary_integers_and_segment_types() {
    let mut rec = vec![0u8; 64];
    for (k, v) in [499i32, 4, 1, 3, 641, 1000].iter().enumerate() {
        rec[16 + 4 * k..20 + 4 * k].copy_from_slice(&v.to_le_bytes());
    }
    let s = summary_ints(&rec, 16, Endian::Little);
    assert_eq!((s.target, s.center, s.frame), (499, 4, 1));
    assert_eq!((s.data_type, s.first_address, s.last_address), (3, 641, 1000));
    assert_eq!(segment_has_velocity(2), Ok(false));
    assert_eq!(segment_has_velocity(3), Ok(true));
    assert_eq!(segment_has_velocity(13), Err(DafError::UnsupportedSegmentType(13)));
}

#[test]
fn daf_error_messages() {
    assert_eq!(DafError::Truncated.message(), "SPK blob is truncated");
    assert_eq!(
        DafError::BadSummaryLayout { nd: 2, ni: -5 }.message(),
        "unsupported DAF summary layout ND=2, NI=-5 (SPK needs 2/6)"
    );
    assert_eq!(
        DafError::UnsupportedSegmentType(13).message(),
        "unsupported SPK segment data type 13 (only 2 and 3)"
    );
    assert_eq!(
        DafError::BrokenCenterChain(301).message(),
        "broken SPK center chain for body 301"
    );
}

#[test]
fn rejects_non_daf_and_truncated_blobs() {
    assert_eq!(parse_daf_header(b"short").unwrap_err(), DafError::Truncated);
    let mut not_spk = vec![0u8; 1024];
    not_spk[0..8].copy_from_slice(b"NOTADAF!");
    assert_eq!(parse_daf_header(&not_spk).unwrap_err(), DafError::NotDafSpk);
}
