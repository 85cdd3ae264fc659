use fall_detector::alarm::{AlarmController, AlarmMode, AlarmStrategy, BurstStep, PinCommand, PinLevel};

#[test]
fn new_alarm_is_off_and_low() {
    let alarm = AlarmController::new(AlarmStrategy::ContinuousTone);
    assert_eq!(alarm.mode(), AlarmMode::Off);
    assert!(!alarm.is_set_high());
    assert_eq!(alarm.burst_left(), 0);
    assert_eq!(alarm.strategy(), AlarmStrategy::ContinuousTone);
}

#[test]
fn pin_level_follows_commands() {
    assert_eq!(PinLevel::Low.toggled(), PinLevel::High);
    assert_eq!(PinLevel::High.toggled(), PinLevel::Low);
    assert_eq!(PinLevel::Low.after(PinCommand::SetHigh), PinLevel::High);
    assert_eq!(PinLevel::High.after(PinCommand::SetHigh), PinLevel::High);
    assert_eq!(PinLevel::High.after(PinCommand::SetLow), PinLevel::Low);
    assert_eq!(PinLevel::Low.after(PinCommand::SetLow), PinLevel::Low);
    assert_eq!(PinLevel::Low.after(PinCommand::Toggle), PinLevel::High);
    assert_eq!(PinLevel::High.after(PinCommand::Toggle), PinLevel::Low);
}

#[test]
fn disarmed_alarm_ignores_ticks() {
    let mut alarm = AlarmController::new(AlarmStrategy::ContinuousTone);
    for _ in 0..3 {
        assert_eq!(alarm.service_toggle_tick(), None);
        assert!(!alarm.is_set_high());
    }
}

#[test]
fn armed_alarm_toggles_from_the_next_tick() {
    let mut alarm = AlarmController::new(AlarmStrategy::ContinuousTone);
    assert_eq!(alarm.set_armed(true), None);
    assert_eq!(alarm.mode(), AlarmMode::On);
    assert!(!alarm.is_set_high());
    assert_eq!(alarm.service_toggle_tick(), Some(PinCommand::Toggle));
    assert!(alarm.is_set_high());
    assert_eq!(alarm.service_toggle_tick(), Some(PinCommand::Toggle));
    assert!(!alarm.is_set_high());
    assert_eq!(alarm.service_toggle_tick(), Some(PinCommand::Toggle));
    assert!(alarm.is_set_high());
}

#[test]
fn disarming_forces_the_pin_low() {
    let mut alarm = AlarmController::new(AlarmStrategy::ContinuousTone);
    alarm.set_armed(true);
    alarm.service_toggle_tick();
    assert!(alarm.is_set_high());
    assert_eq!(alarm.set_armed(false), Some(PinCommand::SetLow));
    assert_eq!(alarm.mode(), AlarmMode::Off);
    assert!(!alarm.is_set_high());
    assert_eq!(alarm.service_toggle_tick(), None);
    assert!(!alarm.is_set_high());
}

#[test]
fn disarming_a_disarmed_alarm_still_orders_low() {
    let mut alarm = AlarmController::new(AlarmStrategy::ContinuousTone);
    assert_eq!(alarm.set_armed(false), Some(PinCommand::SetLow));
    assert_eq!(alarm, AlarmController::new(AlarmStrategy::ContinuousTone));
}

#[test]
fn arming_twice_is_arming_once() {
    let mut alarm = AlarmController::new(AlarmStrategy::ToneBurst { toggles: 4, half_period_us: 500 });
    alarm.set_armed(true);
    alarm.burst_step();
    let once = alarm;
    assert_eq!(alarm.set_armed(true), None);
    assert_eq!(alarm, once);
    assert_eq!(alarm.burst_left(), 3);
}

#[test]
fn burst_toggles_the_given_number_of_times() {
    let mut alarm = AlarmController::new(AlarmStrategy::ToneBurst { toggles: 3, half_period_us: 500 });
    assert_eq!(alarm.burst_step(), None);
    alarm.set_armed(true);
    assert_eq!(alarm.burst_left(), 3);
    assert_eq!(alarm.burst_step(), Some(BurstStep { command: PinCommand::SetHigh, hold_us: 500 }));
    assert_eq!(alarm.burst_step(), Some(BurstStep { command: PinCommand::SetLow, hold_us: 500 }));
    assert_eq!(alarm.burst_step(), Some(BurstStep { command: PinCommand::SetHigh, hold_us: 500 }));
    assert_eq!(alarm.burst_step(), None);
    assert_eq!(alarm.burst_step(), None);
    assert!(alarm.is_set_high());
    assert_eq!(alarm.mode(), AlarmMode::On);
    assert_eq!(alarm.set_armed(false), Some(PinCommand::SetLow));
    assert!(!alarm.is_set_high());
}

#[test]
fn burst_of_two_hundred_ends_low() {
    let mut alarm = AlarmController::new(AlarmStrategy::ToneBurst { toggles: 200, half_period_us: 500 });
    alarm.set_armed(true);
    let mut steps = 0;
    let mut waited_us: u64 = 0;
    while let Some(step) = alarm.burst_step() {
        let expected = if steps % 2 == 0 { PinCommand::SetHigh } else { PinCommand::SetLow };
        assert_eq!(step.command, expected);
        waited_us += step.hold_us as u64;
        steps += 1;
    }
    assert_eq!(steps, 200);
    assert_eq!(waited_us, 100_000);
    assert!(!alarm.is_set_high());
}

#[test]
fn disarming_ends_a_running_burst() {
    let mut alarm = AlarmController::new(AlarmStrategy::ToneBurst { toggles: 10, half_period_us: 250 });
    alarm.set_armed(true);
    alarm.burst_step();
    alarm.set_armed(false);
    assert_eq!(alarm.burst_left(), 0);
    assert_eq!(alarm.burst_step(), None);
}

#[test]
fn burst_alarm_ignores_ticks() {
    let mut alarm = AlarmController::new(AlarmStrategy::ToneBurst { toggles: 2, half_period_us: 500 });
    alarm.set_armed(true);
    assert_eq!(alarm.service_toggle_tick(), None);
    assert_eq!(alarm.burst_left(), 2);
    assert!(!alarm.is_set_high());
}

#[test]
fn continuous_alarm_has_no_burst() {
    let mut alarm = AlarmController::new(AlarmStrategy::ContinuousTone);
    alarm.set_armed(true);
    assert_eq!(alarm.burst_left(), 0);
    assert_eq!(alarm.burst_step(), None);
}
