use telephony_core::resample::SampleRateConverter;

#[test]
fn test_resampler_downsample_count() {
    // 44100 inputs at 44100 -> 8000 give exactly floor(44100 * 8000 / 44100)
    // = 8000 outputs.
    let mut converter = SampleRateConverter::new(44100, 8000);
    let mut emitted: u64 = 0;
    for _ in 0..44100 {
        if converter.process_step() {
            emitted += 1;
        }
    }
    assert_eq!(emitted, 8000);

    // A partial second: floor(10000 * 8000 / 44100) = 1814.
    let mut converter = SampleRateConverter::new(44100, 8000);
    let mut emitted: u64 = 0;
    for _ in 0..10000 {
        if converter.process_step() {
            emitted += 1;
        }
    }
    assert_eq!(emitted, 10000u64 * 8000 / 44100);
}

#[test]
fn test_resampler_equal_rates() {
    // With equal rates every input is owed one output.
    let mut converter = SampleRateConverter::new(8000, 8000);
    for _ in 0..100 {
        assert!(converter.process_step());
    }
}

#[test]
fn test_resampler_emission_pattern() {
    // Halving the rate emits on every second input, starting with the second.
    let mut converter = SampleRateConverter::new(2, 1);
    let pattern: Vec<bool> = (0..6).map(|_| converter.process_step()).collect();
    assert_eq!(pattern, vec![false, true, false, true, false, true]);
}
