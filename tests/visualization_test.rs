use penny::visualization::{band_ranges, BarChartData};

#[test]
fn bands_skip_the_first_two_and_drop_the_remainder() {
    // 22 bins, 11 usable, 4 bands of width 2: bands 2 and 3 are shown.
    let raw: Vec<u64> = (1..=22).collect();
    let mut chart = BarChartData::new(4);
    chart.update_spectrum(raw);
    assert_eq!(chart.audio_spectrum, vec![("", 5 + 6), ("", 7 + 8)]);
    assert_eq!(chart.audio_spectrum_band_count, 4);
}

#[test]
fn band_count_is_band_count_less_two() {
    let ranges = band_ranges(200, 8);
    assert_eq!(ranges.len(), 6);
    assert_eq!(ranges[0], (24, 36));
    assert_eq!(ranges[5], (84, 96));
}

#[test]
fn square_case_gives_quotient_less_two_bands() {
    // usable length 16, 4 bands: 16 / 4 - 2 = 2 bands.
    assert_eq!(band_ranges(32, 4).len(), 2);
}

#[test]
fn short_spectrum_gives_no_bars() {
    let mut chart = BarChartData::new(4);
    chart.update_spectrum(vec![1, 2, 3, 4, 5, 6, 7, 8]);
    assert!(chart.audio_spectrum.is_empty());
    chart.update_spectrum(vec![]);
    assert!(chart.audio_spectrum.is_empty());
}

#[test]
fn no_bands_for_zero_or_few_band_counts() {
    assert!(band_ranges(100, 0).is_empty());
    assert!(band_ranges(100, 1).is_empty());
    assert!(band_ranges(100, 2).is_empty());
    assert_eq!(band_ranges(100, 3).len(), 1);
}

#[test]
fn band_sums_saturate() {
    let raw = vec![u64::MAX; 40];
    let mut chart = BarChartData::new(4);
    chart.update_spectrum(raw);
    assert_eq!(chart.audio_spectrum, vec![("", u64::MAX), ("", u64::MAX)]);
}
