use mutti::visualizer::{band_range, has_full_window, FFT_SIZE};

#[test]
fn window_must_end_before_the_samples_do() {
    assert!(has_full_window(0, FFT_SIZE + 1));
    assert!(!has_full_window(0, FFT_SIZE));
    assert!(!has_full_window(0, 0));
    assert!(has_full_window(100, 100 + FFT_SIZE + 1));
    assert!(!has_full_window(441_000, 44_100));
}

#[test]
fn band_range_is_non_empty_and_inside_bins() {
    assert_eq!(band_range(2, 10, 1023), (2, 10));
    assert_eq!(band_range(5, 5, 1023), (5, 6));
    assert_eq!(band_range(5, 3, 1023), (5, 6));
    assert_eq!(band_range(1000, 5000, 1023), (1000, 1023));
    assert_eq!(band_range(1022, 1022, 1023), (1022, 1023));
}
