use esp32c3_fm::level::Level;
use esp32c3_fm::level::classify_level;
use esp32c3_fm::level::count_low_reads;
use esp32c3_fm::level::sample_level;

#[test]
fn all_low_readings_classify_low() {
    // Encoder-style pass: 10 reads, thresholds 8/8.
    assert_eq!(classify_level(10, 10, 8, 8), Level::Low);
    assert_eq!(classify_level(9, 10, 8, 8), Level::Low);
}

#[test]
fn all_high_readings_classify_high() {
    assert_eq!(classify_level(0, 10, 8, 8), Level::High);
    assert_eq!(classify_level(1, 10, 8, 8), Level::High);
}

#[test]
fn boundary_counts_classify_indeterminate() {
    // Not past the low threshold, not under the high one.
    assert_eq!(classify_level(8, 10, 8, 8), Level::Indeterminate);
    assert_eq!(classify_level(5, 10, 8, 8), Level::Indeterminate);
    assert_eq!(classify_level(2, 10, 8, 8), Level::Indeterminate);
}

#[test]
fn button_pass_thresholds() {
    // Button-style pass: 100 reads, pressed when more than 80 are low,
    // released when fewer than 2 are.
    assert_eq!(classify_level(100, 100, 80, 98), Level::Low);
    assert_eq!(classify_level(81, 100, 80, 98), Level::Low);
    assert_eq!(classify_level(80, 100, 80, 98), Level::Indeterminate);
    assert_eq!(classify_level(2, 100, 80, 98), Level::Indeterminate);
    assert_eq!(classify_level(1, 100, 80, 98), Level::High);
    assert_eq!(classify_level(0, 100, 80, 98), Level::High);
}

#[test]
fn counting_low_reads() {
    let reads = vec![true, false, true, true, false];
    assert_eq!(count_low_reads(&reads), 3);
    let none: Vec<bool> = Vec::new();
    assert_eq!(count_low_reads(&none), 0);
}

#[test]
fn sampling_a_recorded_pass() {
    let held_low = vec![true; 10];
    assert_eq!(sample_level(&held_low, 8, 8), Level::Low);
    let held_high = vec![false; 10];
    assert_eq!(sample_level(&held_high, 8, 8), Level::High);
    let mut bouncing = vec![true; 5];
    bouncing.extend(vec![false; 5]);
    assert_eq!(sample_level(&bouncing, 8, 8), Level::Indeterminate);
}
