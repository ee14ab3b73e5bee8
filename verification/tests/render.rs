use stars::render::{render_layout, validate_render_dimensions, RenderError, RenderOptions};

#[test]
fn render_dimensions_enforce_bounds_and_pixel_budget() {
    assert!(validate_render_dimensions(1280, 720).is_ok());
    assert!(validate_render_dimensions(8192, 2048).is_ok());
    assert!(validate_render_dimensions(0, 720).is_err());
    assert!(validate_render_dimensions(8193, 720).is_err());
    assert!(validate_render_dimensions(8192, 8192).is_err());
}

#[test]
fn render_layout_accounts_for_row_padding_with_checked_sizes() {
    let layout = render_layout(17, 16).unwrap();
    assert_eq!(layout.unpadded_bytes_per_row, 68);
    assert_eq!(layout.padded_bytes_per_row, 256);
    assert_eq!(layout.readback_bytes, 4096);
    assert_eq!(layout.pixel_bytes, 17 * 16 * 4);
}

#[test]
fn render_errors_name_the_rejected_size() {
    let e = validate_render_dimensions(8193, 720).unwrap_err();
    assert_eq!(e, RenderError::DimensionsOutOfRange { width: 8193, height: 720 });
    assert_eq!(
        e.message(),
        "render dimensions must each be in 16..=8192; got 8193x720"
    );
    let e = validate_render_dimensions(8192, 8192).unwrap_err();
    assert_eq!(
        e,
        RenderError::PixelBudgetExceeded { width: 8192, height: 8192, pixel_count: 67_108_864 }
    );
    assert_eq!(
        e.message(),
        "render pixel count 67108864 exceeds budget 16777216 (8192x8192)"
    );
    // Exactly on the budget is accepted.
    assert!(validate_render_dimensions(4096, 4096).is_ok());
    assert!(validate_render_dimensions(16, 16).is_ok());
    assert!(validate_render_dimensions(15, 16).is_err());
}

#[test]
fn render_layout_of_aligned_rows() {
    let layout = render_layout(1280, 720).unwrap();
    assert_eq!(layout.unpadded_bytes_per_row, 5120);
    assert_eq!(layout.padded_bytes_per_row, 5120);
    assert_eq!(layout.readback_bytes, 5120 * 720);
    assert_eq!(layout.pixel_bytes, 1280 * 720 * 4);
}

#[test]
fn render_options_default() {
    let o = RenderOptions::default();
    assert_eq!((o.width, o.height), (1280, 720));
    assert!(o.skyglow_enabled);
    assert!(!o.variable_magnitudes);
}

#[test]
fn unpad_rows_drops_row_padding() {
    let layout = stars::render::render_layout(16, 16).unwrap();
    assert_eq!(layout.unpadded_bytes_per_row, 64);
    assert_eq!(layout.padded_bytes_per_row, 256);
    let data: Vec<u8> = (0..256 * 16).map(|i| (i % 256) as u8 ^ (i / 256) as u8).collect();
    let pixels = stars::render::unpad_rows(&data, &layout, 16);
    assert_eq!(pixels.len(), layout.pixel_bytes);
    for row in 0..16usize {
        assert_eq!(&pixels[row * 64..(row + 1) * 64], &data[row * 256..row * 256 + 64]);
    }
}
