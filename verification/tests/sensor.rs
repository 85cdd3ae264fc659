use fall_detector::fault::{Fault, Severity};
use fall_detector::sensor::{
    after_reading, after_status, judge_configuration, judge_identity, BusError, IdentityReply, PollStep,
};

#[test]
fn poll_ends_at_once_without_new_data() {
    assert_eq!(after_status(Ok(false)), Ok(PollStep::NoSample));
}

#[test]
fn poll_reads_when_data_is_ready() {
    assert_eq!(after_status(Ok(true)), Ok(PollStep::ReadSample));
}

#[test]
fn failed_status_query_is_handed_on() {
    assert_eq!(after_status(Err(BusError)), Err(BusError));
}

#[test]
fn reading_becomes_a_sample() {
    let sample = after_reading(Ok((-16, 32, 1008))).unwrap();
    assert_eq!((sample.x_mg(), sample.y_mg(), sample.z_mg()), (-16, 32, 1008));
}

#[test]
fn failed_read_is_handed_on() {
    assert_eq!(after_reading(Err(BusError)), Err(BusError));
}

#[test]
fn bus_error_is_a_failed_access() {
    assert_eq!(BusError.fault(), Fault::PeripheralAccess);
}

#[test]
fn identity_is_judged() {
    assert_eq!(judge_identity(Ok(IdentityReply::Expected)), None);
    assert_eq!(judge_identity(Ok(IdentityReply::Unexpected(0x41))), Some(Fault::IdentityMismatch));
    assert_eq!(judge_identity(Err(BusError)), Some(Fault::PeripheralAccess));
}

#[test]
fn failed_setup_leaves_the_sensor_unconfigured() {
    assert_eq!(judge_configuration(Ok(())), None);
    assert_eq!(judge_configuration(Err(BusError)), Some(Fault::SensorConfiguration));
}

#[test]
fn only_a_wrong_identity_is_tolerable() {
    assert_eq!(Fault::IdentityMismatch.severity(), Severity::Tolerable);
    assert_eq!(Fault::SensorConfiguration.severity(), Severity::Fatal);
    assert_eq!(Fault::PeripheralAccess.severity(), Severity::Fatal);
    assert_eq!(Fault::LockMisuse.severity(), Severity::Fatal);
}
