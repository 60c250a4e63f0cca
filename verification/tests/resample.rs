use voicepipe::resample::resample_linear;
use voicepipe::sample::SAMPLE_UNIT;

#[test]
fn identity_when_rates_equal() {
    let input = vec![1i64, -5, 42, SAMPLE_UNIT, -SAMPLE_UNIT];
    let out = resample_linear(&input, 44100, 44100);
    assert_eq!(out, input);
}

#[test]
fn identity_when_rates_equal_single_sample() {
    let input = vec![-77i64];
    let out = resample_linear(&input, 16000, 16000);
    assert_eq!(out, input);
}

#[test]
fn length_is_ceiling_when_downsampling() {
    // ceil(5 * 16000 / 44100) == ceil(1.81..) == 2
    let input = vec![0i64; 5];
    let out = resample_linear(&input, 44100, 16000);
    assert_eq!(out.len(), 2);
}

#[test]
fn length_is_ceiling_when_upsampling() {
    // ceil(5 * 16000 / 8000) == 10
    let input = vec![0i64; 5];
    let out = resample_linear(&input, 8000, 16000);
    assert_eq!(out.len(), 10);
    // ceil(3 * 3 / 2) == 5
    let out2 = resample_linear(&vec![7i64, 7, 7], 2, 3);
    assert_eq!(out2.len(), 5);
}

#[test]
fn empty_input_gives_empty_output() {
    let empty: Vec<i64> = Vec::new();
    assert_eq!(resample_linear(&empty, 8000, 16000).len(), 0);
    assert_eq!(resample_linear(&empty, 44100, 16000).len(), 0);
}

#[test]
fn constant_input_stays_constant_downsampling() {
    let input = vec![123456i64; 7];
    let out = resample_linear(&input, 44100, 16000);
    assert!(!out.is_empty());
    for v in out {
        assert_eq!(v, 123456);
    }
}

#[test]
fn constant_input_stays_constant_upsampling() {
    let input = vec![-98765i64; 7];
    let out = resample_linear(&input, 16000, 44100);
    assert!(!out.is_empty());
    for v in out {
        assert_eq!(v, -98765);
    }
}

#[test]
fn upsampling_interpolates_midpoints() {
    let input = vec![0i64, SAMPLE_UNIT];
    let out = resample_linear(&input, 1, 2);
    // exact source positions 0, 1/2, 1, 3/2 (the last clamps to the
    // final sample)
    assert_eq!(out, vec![0, SAMPLE_UNIT / 2, SAMPLE_UNIT, SAMPLE_UNIT]);
}

#[test]
fn interpolation_handles_negative_samples() {
    let input = vec![-SAMPLE_UNIT, SAMPLE_UNIT];
    let out = resample_linear(&input, 1, 2);
    assert_eq!(out[0], -SAMPLE_UNIT);
    assert_eq!(out[1], 0);
    assert_eq!(out[2], SAMPLE_UNIT);
}
