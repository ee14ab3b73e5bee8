use stars::encode::{encode_png, PngColourTag, PngEncodeError};
use stars::instant::parse_utc_instant;
use stars::render::RenderError;

#[test]
fn encode_png_writes_a_png_stream() {
    let pixels = vec![255u8; 16 * 16 * 4];
    let bytes = encode_png(16, 16, &pixels, PngColourTag::Srgb).expect("encodes");
    assert_eq!(&bytes[..8], &[137, 80, 78, 71, 13, 10, 26, 10]);
    assert_eq!(&bytes[12..16], b"IHDR");
    assert_eq!(&bytes[16..24], &[0, 0, 0, 16, 0, 0, 0, 16]);
    assert_eq!(&bytes[bytes.len() - 8..bytes.len() - 4], b"IEND");
    // The sRGB stream carries an sRGB chunk; the tagged one gAMA and cHRM.
    assert!(bytes.windows(4).any(|w| w == b"sRGB"));
    let tagged = encode_png(
        16,
        16,
        &pixels,
        PngColourTag::Primaries([31270, 32900, 68000, 32000, 26500, 69000, 15000, 6000]),
    )
    .expect("encodes");
    assert!(tagged.windows(4).any(|w| w == b"gAMA"));
    assert!(tagged.windows(4).any(|w| w == b"cHRM"));
    assert!(!tagged.windows(4).any(|w| w == b"sRGB"));
}

#[test]
fn encode_png_rejects_bad_sizes() {
    match encode_png(8, 16, &[0; 8 * 16 * 4], PngColourTag::Srgb) {
        Err(PngEncodeError::Dimensions(RenderError::DimensionsOutOfRange { width: 8, height: 16 })) => {}
        other => panic!("unexpected {other:?}"),
    }
    match encode_png(16, 16, &[0; 10], PngColourTag::Srgb) {
        Err(PngEncodeError::BufferSizeMismatch { expected: 1024, actual: 10 }) => {}
        other => panic!("unexpected {other:?}"),
    }
}

#[test]
fn rfc3339_instants_read_as_unix_seconds() {
    assert_eq!(parse_utc_instant("1970-01-01T00:00:00Z"), Ok((0, 0)));
    assert_eq!(parse_utc_instant("2026-08-13T12:00:00Z"), Ok((1_786_622_400, 0)));
    assert_eq!(parse_utc_instant("1996-12-19T16:39:57.5-08:00"), Ok((851_042_397, 500_000_000)));
    let err = parse_utc_instant("yesterday").unwrap_err();
    assert_eq!(err.message(), "Invalid RFC3339 time: yesterday");
}
