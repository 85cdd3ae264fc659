use fall_detector::alarm::{AlarmController, AlarmMode, AlarmStrategy, PinCommand};
use fall_detector::detector::{FallState, Thresholds};
use fall_detector::display::DisplayController;
use fall_detector::frame::DisplayFrame;
use fall_detector::main_loop::{Config, Effects, MainLoop};
use fall_detector::sample::AccelerationSample;

fn config(alarm: AlarmStrategy) -> Config {
    Config::new(Thresholds::new(500, 1000).unwrap(), alarm, 50)
}

fn at_rest() -> Option<AccelerationSample> {
    Some(AccelerationSample::new(12, -30, 1016))
}

fn in_free_fall() -> Option<AccelerationSample> {
    Some(AccelerationSample::new(40, -25, 90))
}

fn in_the_band() -> Option<AccelerationSample> {
    Some(AccelerationSample::new(0, 600, 400))
}

struct Rig {
    main_loop: MainLoop,
    display: DisplayController,
    alarm: AlarmController,
}

fn rig(alarm: AlarmStrategy) -> Rig {
    let mut rig = Rig {
        main_loop: MainLoop::new(config(alarm)),
        display: DisplayController::new(),
        alarm: AlarmController::new(alarm),
    };
    rig.main_loop.start(&mut rig.display, &mut rig.alarm);
    rig
}

fn pass(rig: &mut Rig, polled: Option<AccelerationSample>) -> Effects {
    rig.main_loop.iterate(polled, &mut rig.display, &mut rig.alarm)
}

const QUIET: Effects = Effects { redraw: None, speaker: None, sleep_ms: 50 };

#[test]
fn config_new_uses_the_usual_pictures() {
    let c = config(AlarmStrategy::ContinuousTone);
    assert!(c.stable_frame.same_as(&DisplayFrame::stable()));
    assert!(c.falling_frame.same_as(&DisplayFrame::falling()));
    assert_eq!(c.thresholds, Thresholds::recommended());
    assert_eq!(c.alarm, AlarmStrategy::ContinuousTone);
    assert_eq!(c.poll_interval_ms, 50);
}

#[test]
fn loop_starts_stable() {
    let main_loop = MainLoop::new(config(AlarmStrategy::ContinuousTone));
    assert_eq!(main_loop.state(), FallState::Stable);
    assert_eq!(main_loop.config(), config(AlarmStrategy::ContinuousTone));
}

#[test]
fn start_draws_the_stable_picture_and_silences_the_alarm() {
    let main_loop = MainLoop::new(config(AlarmStrategy::ContinuousTone));
    let mut display = DisplayController::new();
    let mut alarm = AlarmController::new(AlarmStrategy::ContinuousTone);
    let effects = main_loop.start(&mut display, &mut alarm);
    assert_eq!(
        effects,
        Effects { redraw: Some(DisplayFrame::stable()), speaker: Some(PinCommand::SetLow), sleep_ms: 0 }
    );
    assert!(display.shown().same_as(&DisplayFrame::stable()));
    assert_eq!(alarm.mode(), AlarmMode::Off);
}

#[test]
fn entering_a_fall_shows_the_falling_picture_and_arms() {
    let mut rig = rig(AlarmStrategy::ContinuousTone);
    let effects = pass(&mut rig, in_free_fall());
    assert_eq!(effects, Effects { redraw: Some(DisplayFrame::falling()), speaker: None, sleep_ms: 50 });
    assert_eq!(rig.main_loop.state(), FallState::Falling);
    assert_eq!(rig.alarm.mode(), AlarmMode::On);
    assert!(rig.display.shown().same_as(&DisplayFrame::falling()));
}

#[test]
fn leaving_a_fall_shows_the_stable_picture_and_disarms() {
    let mut rig = rig(AlarmStrategy::ContinuousTone);
    pass(&mut rig, in_free_fall());
    rig.alarm.service_toggle_tick();
    assert!(rig.alarm.is_set_high());
    let effects = pass(&mut rig, at_rest());
    assert_eq!(
        effects,
        Effects { redraw: Some(DisplayFrame::stable()), speaker: Some(PinCommand::SetLow), sleep_ms: 50 }
    );
    assert_eq!(rig.main_loop.state(), FallState::Stable);
    assert_eq!(rig.alarm.mode(), AlarmMode::Off);
    assert!(!rig.alarm.is_set_high());
    assert!(rig.display.shown().same_as(&DisplayFrame::stable()));
}

#[test]
fn pass_without_a_sample_changes_nothing() {
    for alarm in [AlarmStrategy::ContinuousTone, AlarmStrategy::ToneBurst { toggles: 200, half_period_us: 500 }] {
        let mut rig = rig(alarm);
        let before = (rig.main_loop, rig.display, rig.alarm);
        assert_eq!(pass(&mut rig, None), QUIET);
        assert_eq!((rig.main_loop, rig.display, rig.alarm), before);

        pass(&mut rig, in_free_fall());
        let before = (rig.main_loop, rig.display, rig.alarm);
        assert_eq!(pass(&mut rig, None), QUIET);
        assert_eq!((rig.main_loop, rig.display, rig.alarm), before);
    }
}

#[test]
fn pass_without_an_edge_touches_neither_display_nor_alarm() {
    let mut rig = rig(AlarmStrategy::ContinuousTone);
    for polled in [at_rest(), in_the_band(), at_rest(), in_the_band()] {
        let before = (rig.main_loop, rig.display, rig.alarm);
        assert_eq!(pass(&mut rig, polled), QUIET);
        assert_eq!((rig.main_loop, rig.display, rig.alarm), before);
    }
    pass(&mut rig, in_free_fall());
    for polled in [in_free_fall(), in_the_band(), in_free_fall(), in_the_band()] {
        let before = (rig.main_loop, rig.display, rig.alarm);
        assert_eq!(pass(&mut rig, polled), QUIET);
        assert_eq!((rig.main_loop, rig.display, rig.alarm), before);
    }
}

#[test]
fn alarm_is_on_exactly_while_falling() {
    let mut rig = rig(AlarmStrategy::ContinuousTone);
    let polls = [
        at_rest(),
        in_the_band(),
        in_free_fall(),
        None,
        in_free_fall(),
        in_the_band(),
        at_rest(),
        in_the_band(),
        None,
        in_free_fall(),
        at_rest(),
    ];
    let mut seen = Vec::new();
    for polled in polls {
        let was = rig.main_loop.state();
        pass(&mut rig, polled);
        rig.alarm.service_toggle_tick();
        rig.display.service_refresh_tick();
        let state = rig.main_loop.state();
        assert_eq!(rig.alarm.mode() == AlarmMode::On, state == FallState::Falling);
        if was == FallState::Falling && state == FallState::Stable {
            assert_eq!(rig.alarm.mode(), AlarmMode::Off);
            assert!(!rig.alarm.is_set_high());
        }
        seen.push(state);
    }
    let (stable, falling) = (FallState::Stable, FallState::Falling);
    assert_eq!(
        seen,
        vec![stable, stable, falling, falling, falling, falling, stable, stable, stable, falling, stable]
    );
}

#[test]
fn entering_a_fall_loads_the_burst() {
    let mut rig = rig(AlarmStrategy::ToneBurst { toggles: 200, half_period_us: 500 });
    assert_eq!(rig.alarm.burst_left(), 0);
    pass(&mut rig, in_free_fall());
    assert_eq!(rig.alarm.burst_left(), 200);
    let mut toggles = 0;
    while rig.alarm.burst_step().is_some() {
        toggles += 1;
    }
    assert_eq!(toggles, 200);
    pass(&mut rig, in_free_fall());
    assert_eq!(rig.alarm.burst_left(), 0);
    pass(&mut rig, at_rest());
    pass(&mut rig, in_free_fall());
    assert_eq!(rig.alarm.burst_left(), 200);
}

#[test]
fn equal_pictures_are_never_redrawn() {
    let mut same = config(AlarmStrategy::ContinuousTone);
    same.falling_frame = same.stable_frame;
    let mut main_loop = MainLoop::new(same);
    let mut display = DisplayController::new();
    let mut alarm = AlarmController::new(AlarmStrategy::ContinuousTone);
    main_loop.start(&mut display, &mut alarm);
    let effects = main_loop.iterate(in_free_fall(), &mut display, &mut alarm);
    assert_eq!(effects, Effects { redraw: None, speaker: None, sleep_ms: 50 });
    assert_eq!(alarm.mode(), AlarmMode::On);
}

#[test]
fn pause_is_the_configured_interval() {
    let mut main_loop =
        MainLoop::new(Config::new(Thresholds::recommended(), AlarmStrategy::ContinuousTone, 100));
    let mut display = DisplayController::new();
    let mut alarm = AlarmController::new(AlarmStrategy::ContinuousTone);
    assert_eq!(main_loop.iterate(None, &mut display, &mut alarm).sleep_ms, 100);
    assert_eq!(main_loop.iterate(in_free_fall(), &mut display, &mut alarm).sleep_ms, 100);
}
