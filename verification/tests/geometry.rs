use ipoc_rust::geometry::resized_height;
use ipoc_rust::processor::ImageProcessor;

#[test]
fn rounds_to_nearest_pixel() {
    // 1024 * 3279 / 4928 = 681.35..., rounds down to 681.
    assert_eq!(resized_height(1024, 4928, 3279), Some(681));
    // 1024 * 200 / 300 = 682.67, rounds up to 683.
    assert_eq!(resized_height(1024, 300, 200), Some(683));
    // A square stays square.
    assert_eq!(resized_height(1024, 512, 512), Some(1024));
}

#[test]
fn zero_source_dimension_is_rejected() {
    assert_eq!(resized_height(1024, 0, 100), None);
    assert_eq!(resized_height(1024, 100, 0), None);
    assert_eq!(resized_height(1024, 0, 0), None);
}

#[test]
fn unrepresentable_heights_are_rejected() {
    // So wide that the scaled height rounds to zero.
    assert_eq!(resized_height(1024, 4_000_000, 1), None);
    // So tall that the scaled height leaves u32.
    assert_eq!(resized_height(1024, 1, u32::MAX), None);
}

#[test]
fn aspect_ratio_within_half_pixel() {
    // |h / 1024 - src_h / src_w| <= 1 / (2 * 1024) for a few sources.
    let cases: Vec<(u32, u32)> = vec![(4928, 3279), (300, 200), (512, 512), (1, 1), (7, 3)];
    for (src_w, src_h) in cases {
        let h = resized_height(1024, src_w, src_h).unwrap() as i64;
        let diff = 2 * (h * src_w as i64 - 1024 * src_h as i64);
        assert!(-(src_w as i64) <= diff && diff <= src_w as i64);
    }
}

#[test]
fn resized_dimensions_fix_the_width() {
    assert_eq!(ImageProcessor::get_resized_dimensions(4928, 3279), Some((1024, 681)));
    assert_eq!(ImageProcessor::get_resized_dimensions(512, 512), Some((1024, 1024)));
    assert_eq!(ImageProcessor::get_resized_dimensions(0, 10), None);
}
