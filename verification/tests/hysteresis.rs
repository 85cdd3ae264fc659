use fall_detector::detector::{FallDetector, FallState, Thresholds};
use fall_detector::sample::{AccelerationSample, Magnitude};

fn milli_g(values: &[u32]) -> Vec<Magnitude> {
    values.iter().map(|mg| Magnitude::from_milli_g(*mg)).collect()
}

#[test]
fn hysteresis_follows_a_fall_and_its_end() {
    let detector = FallDetector::new(Thresholds::new(500, 1000).unwrap());
    let states = detector.classify(FallState::Stable, &milli_g(&[1000, 600, 400, 400, 900, 1100]));
    assert_eq!(
        states,
        vec![
            FallState::Stable,
            FallState::Stable,
            FallState::Falling,
            FallState::Falling,
            FallState::Falling,
            FallState::Stable,
        ]
    );
}

#[test]
fn next_moves_only_across_the_right_threshold() {
    let t = FallDetector::new(Thresholds::new(500, 1000).unwrap());
    assert_eq!(t.next(FallState::Stable, Magnitude::from_milli_g(499)), FallState::Falling);
    assert_eq!(t.next(FallState::Stable, Magnitude::from_milli_g(500)), FallState::Stable);
    assert_eq!(t.next(FallState::Stable, Magnitude::from_milli_g(5000)), FallState::Stable);
    assert_eq!(t.next(FallState::Falling, Magnitude::from_milli_g(1001)), FallState::Stable);
    assert_eq!(t.next(FallState::Falling, Magnitude::from_milli_g(1000)), FallState::Falling);
    assert_eq!(t.next(FallState::Falling, Magnitude::from_milli_g(0)), FallState::Falling);
}

#[test]
fn next_sees_a_fraction_of_a_milli_g() {
    let t = FallDetector::new(Thresholds::new(500, 1000).unwrap());
    let a_hair_over_one_g = AccelerationSample::new(1000, 1, 0).magnitude();
    assert_eq!(t.next(FallState::Falling, a_hair_over_one_g), FallState::Stable);
    let a_hair_under_half_a_g = AccelerationSample::new(499, 31, 5).magnitude();
    assert_eq!(t.next(FallState::Stable, a_hair_under_half_a_g), FallState::Falling);
}

#[test]
fn dead_band_never_changes_the_classification() {
    let t = FallDetector::new(Thresholds::new(500, 1000).unwrap());
    let band = milli_g(&[501, 999, 750, 501, 999, 600, 900]);
    assert_eq!(t.classify(FallState::Stable, &band), vec![FallState::Stable; 7]);
    assert_eq!(t.classify(FallState::Falling, &band), vec![FallState::Falling; 7]);
}

#[test]
fn classify_of_nothing_is_empty() {
    let t = FallDetector::new(Thresholds::recommended());
    assert_eq!(t.classify(FallState::Falling, &Vec::new()), Vec::new());
}

#[test]
fn thresholds_must_be_in_order() {
    assert!(Thresholds::new(1000, 500).is_none());
    assert!(Thresholds::new(1, 0).is_none());
    let t = Thresholds::new(500, 1000).unwrap();
    assert_eq!((t.low_enter_mg(), t.high_exit_mg()), (500, 1000));
    assert!(t.has_dead_band());
}

#[test]
fn single_threshold_has_no_dead_band() {
    let thresholds = Thresholds::new(700, 700).unwrap();
    assert!(!thresholds.has_dead_band());
    let t = FallDetector::new(thresholds);
    assert_eq!(t.next(FallState::Stable, Magnitude::from_milli_g(699)), FallState::Falling);
    assert_eq!(t.next(FallState::Stable, Magnitude::from_milli_g(700)), FallState::Stable);
    assert_eq!(t.next(FallState::Falling, Magnitude::from_milli_g(700)), FallState::Falling);
    assert_eq!(t.next(FallState::Falling, Magnitude::from_milli_g(701)), FallState::Stable);
}

#[test]
fn recommended_thresholds_are_half_a_g_and_one_g() {
    let t = Thresholds::recommended();
    assert_eq!(t, Thresholds::new(500, 1000).unwrap());
}
