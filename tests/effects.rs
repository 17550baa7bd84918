use piper_synth::effects::{
    finish_apply, percent_to_param, ApplyPlan, AudioOutputConfig, PITCH_MAX, PITCH_MIN,
    RATE_MAX, RATE_MIN, VOLUME_MAX, VOLUME_MIN,
};
use piper_synth::error::PiperError;

#[test]
fn rate_percent_maps_linearly() {
    assert_eq!(percent_to_param(0, RATE_MIN, RATE_MAX), 0);
    assert_eq!(percent_to_param(20, RATE_MIN, RATE_MAX), 1000);
    assert_eq!(percent_to_param(50, RATE_MIN, RATE_MAX), 2500);
    assert_eq!(percent_to_param(100, RATE_MIN, RATE_MAX), 5000);
}

#[test]
fn volume_percent_maps_linearly() {
    assert_eq!(percent_to_param(0, VOLUME_MIN, VOLUME_MAX), 100);
    assert_eq!(percent_to_param(75, VOLUME_MIN, VOLUME_MAX), 1450);
    assert_eq!(percent_to_param(100, VOLUME_MIN, VOLUME_MAX), 1900);
}

#[test]
fn pitch_percent_maps_linearly() {
    assert_eq!(percent_to_param(0, PITCH_MIN, PITCH_MAX), 500);
    assert_eq!(percent_to_param(50, PITCH_MIN, PITCH_MAX), 1000);
    assert_eq!(percent_to_param(100, PITCH_MIN, PITCH_MAX), 1500);
}

#[test]
fn percent_above_hundred_is_clamped() {
    assert_eq!(percent_to_param(101, RATE_MIN, RATE_MAX), 5000);
    assert_eq!(percent_to_param(255, PITCH_MIN, PITCH_MAX), 1500);
}

#[test]
fn mapping_is_monotonic_over_percent_domain() {
    let mut prev = percent_to_param(0, VOLUME_MIN, VOLUME_MAX);
    for p in 1..=100u8 {
        let cur = percent_to_param(p, VOLUME_MIN, VOLUME_MAX);
        assert!(cur >= prev);
        assert!(cur >= VOLUME_MIN && cur <= VOLUME_MAX);
        prev = cur;
    }
}

#[test]
fn has_any_option_set_reports_each_option() {
    assert!(!AudioOutputConfig::new(None, None, None).has_any_option_set());
    assert!(AudioOutputConfig::new(Some(10), None, None).has_any_option_set());
    assert!(AudioOutputConfig::new(None, Some(10), None).has_any_option_set());
    assert!(AudioOutputConfig::new(None, None, Some(0)).has_any_option_set());
}

#[test]
fn apply_on_empty_buffer_needs_no_engine() {
    let config = AudioOutputConfig::new(Some(50), Some(50), Some(50));
    match config.apply(Vec::new(), 22050) {
        ApplyPlan::Unchanged(a) => assert!(a.is_empty()),
        ApplyPlan::Run(_) => panic!("engine job for an empty buffer"),
    }
}

#[test]
fn apply_on_samples_sets_up_engine() {
    let config = AudioOutputConfig::new(Some(20), None, Some(50));
    match config.apply(vec![1, -2, 3], 16000) {
        ApplyPlan::Run(job) => {
            assert_eq!(job.samples, vec![1, -2, 3]);
            assert_eq!(job.settings.sample_rate, 16000);
            assert_eq!(job.settings.channels, 1);
            assert_eq!(job.settings.speed, Some(1000));
            assert_eq!(job.settings.volume, None);
            assert_eq!(job.settings.pitch, Some(1000));
        }
        ApplyPlan::Unchanged(_) => panic!("no engine job for samples"),
    }
}

#[test]
fn finish_apply_fails_without_samples_available() {
    assert!(matches!(finish_apply(0, Vec::new()), Err(PiperError::OperationError(_))));
    assert!(matches!(finish_apply(-1, vec![5]), Err(PiperError::OperationError(_))));
}

#[test]
fn finish_apply_returns_what_was_read() {
    match finish_apply(2, vec![7, 8]) {
        Ok(v) => assert_eq!(v, vec![7, 8]),
        Err(e) => panic!("unexpected error {:?}", e),
    }
}
