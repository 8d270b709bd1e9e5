use pdf2png::geometry::scaled_pixels;

// A native width of 10.1 units is 10100 thousandths; the scales below
// straddle the truncation boundary the pipeline must honour.

#[test]
fn native_10_1_at_scale_1_truncates_to_10() {
    assert_eq!(scaled_pixels(10100, 1000), 10);
}

#[test]
fn native_10_1_at_scale_10_is_exactly_101() {
    assert_eq!(scaled_pixels(10100, 10000), 101);
}

#[test]
fn native_10_1_at_scale_0_5_truncates_to_5() {
    // 10.1 * 0.5 = 5.05
    assert_eq!(scaled_pixels(10100, 500), 5);
}

#[test]
fn doubling_the_scale_does_not_double_truncated_pixels() {
    // 10.1 at scale 0.5 gives 5; at scale 1.0 it gives 10, not 2 * 5 + 1.
    let half = scaled_pixels(10100, 500);
    let full = scaled_pixels(10100, 1000);
    assert_eq!(half, 5);
    assert_eq!(full, 10);
    assert_ne!(full, 11);
}

#[test]
fn just_below_a_whole_pixel_truncates_down() {
    // 10.1 * 0.99 = 9.999: still 9 pixels.
    assert_eq!(scaled_pixels(10100, 990), 9);
}

#[test]
fn zero_extent_stays_zero() {
    assert_eq!(scaled_pixels(0, 1000), 0);
    assert_eq!(scaled_pixels(10100, 0), 0);
}

#[test]
fn tiny_page_at_tiny_scale_collapses_to_zero_pixels() {
    // 0.001 * 0.001 rounds far below one pixel.
    assert_eq!(scaled_pixels(1, 1), 0);
}

#[test]
fn oversized_product_is_pinned_to_the_rasterizer_maximum() {
    assert_eq!(scaled_pixels(u64::MAX, u64::MAX), i32::MAX);
}
