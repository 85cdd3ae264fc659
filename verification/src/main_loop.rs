//! The foreground loop: from one poll of the sensor to what the display and
//! the speaker are told.

use vstd::prelude::*;
use crate::alarm::{AlarmController, AlarmMode, AlarmStrategy, AlarmView, PinCommand, PinLevel};
use crate::detector::{FallDetector, FallState, Thresholds};
use crate::display::{DisplayController, DisplayView};
use crate::frame::{falling_grid, stable_grid, DisplayFrame};
use crate::sample::AccelerationSample;

verus! {

/// Everything that is fixed when the firmware is built.
#[derive(Clone, Copy, Debug, PartialEq, Eq)]
pub struct Config {
    /// Where the classification changes.
    pub thresholds: Thresholds,
    /// How the tone is made.
    pub alarm: AlarmStrategy,
    /// The picture of a device at rest.
    pub stable_frame: DisplayFrame,
    /// The picture of a falling device.
    pub falling_frame: DisplayFrame,
    /// The pause between two polls of the sensor, in milliseconds.
    pub poll_interval_ms: u32,
}

/// What one pass of the loop asks of the hardware, in this order.
#[derive(Clone, Copy, Debug, PartialEq, Eq)]
pub struct Effects {
    /// The frame to hand to the display, if the picture changes.
    pub redraw: Option<DisplayFrame>,
    /// The order for the speaker pin, if there is one.
    pub speaker: Option<PinCommand>,
    /// How long to pause before the next poll, in milliseconds.
    pub sleep_ms: u32,
}

impl Config {
    /// The picture that goes with a classification.
    pub open spec fn frame_for(self, state: FallState) -> DisplayFrame {
        match state {
            FallState::Stable => self.stable_frame,
            FallState::Falling => self.falling_frame,
        }
    }

    /// The classification that follows `state` after one poll: moved by the
    /// magnitude of the sample, or unchanged when the sensor had none.
    pub open spec fn next_state(self, state: FallState, polled: Option<AccelerationSample>) -> FallState {
        match polled {
            Some(sample) => self.thresholds.step(state, sample.norm_squared()),
            None => state,
        }
    }

    /// The configuration with the usual two pictures.
    pub fn new(thresholds: Thresholds, alarm: AlarmStrategy, poll_interval_ms: u32) -> (config: Config)
        ensures
            config.thresholds == thresholds,
            config.alarm == alarm,
            config.stable_frame@ == stable_grid(),
            config.falling_frame@ == falling_grid(),
            config.poll_interval_ms == poll_interval_ms,
    {
        Config {
            thresholds,
            alarm,
            stable_frame: DisplayFrame::stable(),
            falling_frame: DisplayFrame::falling(),
            poll_interval_ms,
        }
    }
}

/// The alarm sounds exactly while the device is classified as falling.
pub open spec fn coupled(state: FallState, alarm: AlarmView) -> bool {
    alarm.armed <==> state == FallState::Falling
}

/// The display after a pass that took the classification from `before` to
/// `after`: the new picture on an edge, untouched otherwise.
pub open spec fn display_after(config: Config, before: FallState, after: FallState, display: DisplayView) -> DisplayView {
    if before != after {
        display.show(config.frame_for(after)@)
    } else {
        display
    }
}

/// The alarm after a pass that took the classification from `before` to
/// `after`: armed on entering a fall, disarmed on leaving it, untouched
/// otherwise.
pub open spec fn alarm_after(before: FallState, after: FallState, alarm: AlarmView) -> AlarmView {
    if before != after {
        alarm.set_armed(after == FallState::Falling)
    } else {
        alarm
    }
}

/// The frame that a pass hands to the display: the picture of the new
/// classification on an edge, unless it is on show already.
pub open spec fn redraw_grid(config: Config, before: FallState, after: FallState, display: DisplayView) -> Option<Seq<Seq<bool>>> {
    if before != after && display.shown != config.frame_for(after)@ {
        Some(config.frame_for(after)@)
    } else {
        None
    }
}

/// The order that a pass gives the speaker pin: low on leaving a fall.
pub open spec fn speaker_order(before: FallState, after: FallState, alarm: AlarmView) -> Option<PinCommand> {
    if before != after {
        alarm.set_armed_command(after == FallState::Falling)
    } else {
        None
    }
}

/// One thing that happens to the firmware: a pass of the foreground loop
/// with what its poll returned, a tick of one of the two interrupts, or one
/// toggle of a burst.
pub enum Event {
    /// A pass of the loop, with the sample that the poll returned or none.
    Poll(Option<AccelerationSample>),
    /// A tick of the display's refresh interrupt.
    RefreshTick,
    /// A tick of the tone interrupt.
    ToggleTick,
    /// One toggle of a burst, asked for by the foreground.
    BurstStep,
}

/// The firmware as a whole: the loop's classification beside the display
/// and the alarm that it commands.
pub struct SystemView {
    /// What the firmware was built with.
    pub config: Config,
    /// The classification as of the last pass of the loop.
    pub state: FallState,
    /// The display.
    pub display: DisplayView,
    /// The alarm.
    pub alarm: AlarmView,
}

impl SystemView {
    /// The firmware once `MainLoop::new`, the two controllers' `new` and
    /// `MainLoop::start` have run.
    pub open spec fn initial(config: Config) -> SystemView {
        SystemView {
            config,
            state: FallState::Stable,
            display: DisplayView::initial().show(config.stable_frame@),
            alarm: AlarmView::initial(config.alarm).set_armed(false),
        }
    }

    /// The display and the alarm are both well formed.
    pub open spec fn wf(self) -> bool {
        self.display.wf() && self.alarm.wf()
    }

    /// The firmware after `event`: what `MainLoop::iterate`,
    /// `DisplayController::service_refresh_tick`,
    /// `AlarmController::service_toggle_tick` and
    /// `AlarmController::burst_step` do to it.
    pub open spec fn after(self, event: Event) -> SystemView {
        match event {
            Event::Poll(polled) => {
                let next = self.config.next_state(self.state, polled);
                SystemView {
                    state: next,
                    display: display_after(self.config, self.state, next, self.display),
                    alarm: alarm_after(self.state, next, self.alarm),
                    ..self
                }
            },
            Event::RefreshTick => SystemView { display: self.display.refresh_tick(), ..self },
            Event::ToggleTick => SystemView { alarm: self.alarm.toggle_tick(), ..self },
            Event::BurstStep => SystemView { alarm: self.alarm.burst_step(), ..self },
        }
    }

    /// The firmware after all of `events`, in order.
    pub open spec fn run(self, events: Seq<Event>) -> SystemView
        decreases events.len(),
    {
        if events.len() == 0 {
            self
        } else {
            self.run(events.drop_last()).after(events.last())
        }
    }

    /// What the display is handed by `event`, if anything.
    pub open spec fn redraw(self, event: Event) -> Option<Seq<Seq<bool>>> {
        match event {
            Event::Poll(polled) => redraw_grid(
                self.config,
                self.state,
                self.config.next_state(self.state, polled),
                self.display,
            ),
            _ => None,
        }
    }
}

/// The alarm follows the classification at every moment. From the start on,
/// whatever passes and ticks happen in whatever order, the alarm is on
/// exactly while the device is classified as falling, the display renders
/// the picture of the classification, and both controllers stay well formed.
pub proof fn lemma_alarm_follows_classification(config: Config, events: Seq<Event>)
    ensures
        ({
            let system = SystemView::initial(config).run(events);
            &&& system.alarm.mode() == AlarmMode::On <==> system.state == FallState::Falling
            &&& coupled(system.state, system.alarm)
            &&& system.display.shown == config.frame_for(system.state)@
            &&& system.config == config
            &&& system.wf()
        }),
    decreases events.len(),
{
    config.stable_frame.lemma_is_grid();
    config.falling_frame.lemma_is_grid();
    if events.len() > 0 {
        lemma_alarm_follows_classification(config, events.drop_last());
    }
}

/// The pass that takes a falling device back to stable leaves the alarm off
/// and the speaker pin low, whatever the alarm was doing before, and orders
/// the pin low.
pub proof fn lemma_alarm_off_after_recovery(system: SystemView, polled: Option<AccelerationSample>)
    requires
        system.state == FallState::Falling,
        system.after(Event::Poll(polled)).state == FallState::Stable,
    ensures
        system.after(Event::Poll(polled)).alarm.mode() == AlarmMode::Off,
        system.after(Event::Poll(polled)).alarm.level == PinLevel::Low,
        speaker_order(system.state, FallState::Stable, system.alarm) == Some(PinCommand::SetLow),
{
}

/// The display is handed a frame only on an edge of the classification. A
/// pass that leaves the classification where it was, and every tick, hands
/// it nothing and leaves the frame on show alone.
pub proof fn lemma_redraw_only_on_edge(system: SystemView, event: Event)
    ensures
        system.redraw(event) is Some ==> system.after(event).state != system.state,
        system.after(event).state == system.state ==> system.after(event).display.shown == system.display.shown,
{
}

/// The foreground loop. It owns the classification, and nothing else changes
/// it.
#[derive(Clone, Copy, Debug, PartialEq, Eq)]
pub struct MainLoop {
    config: Config,
    state: FallState,
}

impl MainLoop {
    /// The configuration the loop was made with.
    pub closed spec fn spec_config(&self) -> Config {
        self.config
    }

    /// The classification as of the last pass.
    pub closed spec fn spec_state(&self) -> FallState {
        self.state
    }

    /// The loop before its first pass. The device counts as stable.
    pub fn new(config: Config) -> (main_loop: MainLoop)
        ensures
            main_loop.spec_config() == config,
            main_loop.spec_state() == FallState::Stable,
    {
        MainLoop { config, state: FallState::Stable }
    }

    /// The configuration the loop was made with.
    #[verifier::when_used_as_spec(spec_config)]
    pub fn config(&self) -> (config: Config)
        ensures
            config == self.spec_config(),
    {
        self.config
    }

    /// The classification as of the last pass.
    #[verifier::when_used_as_spec(spec_state)]
    pub fn state(&self) -> (state: FallState)
        ensures
            state == self.spec_state(),
    {
        self.state
    }

    /// The first drawing, before any pass.
    ///
    /// Shows the picture of the classification the loop is in and sets the
    /// alarm to match it. This is the one drawing that no edge causes: it is
    /// asked for here, once, so that the loop need not start in the opposite
    /// classification to make its first pass look like an edge.
    pub fn start(&self, display: &mut DisplayController, alarm: &mut AlarmController) -> (effects: Effects)
        ensures
            final(display)@ == old(display)@.show(self.config().frame_for(self.state())@),
            final(alarm)@ == old(alarm)@.set_armed(self.state() == FallState::Falling),
            final(display)@.wf(),
            final(alarm)@.wf(),
            coupled(self.state(), final(alarm)@),
            effects.redraw is Some <==> old(display)@.shown != self.config().frame_for(self.state())@,
            effects.redraw matches Some(frame) ==> frame@ == self.config().frame_for(self.state())@,
            effects.speaker == old(alarm)@.set_armed_command(self.state() == FallState::Falling),
            effects.sleep_ms == 0,
    {
        let frame = match self.state {
            FallState::Stable => self.config.stable_frame,
            FallState::Falling => self.config.falling_frame,
        };
        let falling = match self.state {
            FallState::Stable => false,
            FallState::Falling => true,
        };
        let changed = display.show(frame);
        let speaker = alarm.set_armed(falling);
        Effects { redraw: if changed { Some(frame) } else { None }, speaker, sleep_ms: 0 }
    }

    /// One pass of the loop, given what the poll of the sensor returned.
    ///
    /// With a sample, the classification moves by the sample's magnitude;
    /// without one it stays. On entering a fall the falling picture is shown
    /// and the alarm armed; on leaving it the stable picture is shown and the
    /// alarm disarmed, which puts the speaker pin low. A pass without an edge
    /// touches neither the display nor the alarm. The pause before the next
    /// poll is always the configured one.
    pub fn iterate(
        &mut self,
        polled: Option<AccelerationSample>,
        display: &mut DisplayController,
        alarm: &mut AlarmController,
    ) -> (effects: Effects)
        ensures
            final(self).config() == old(self).config(),
            final(self).state() == old(self).config().next_state(old(self).state(), polled),
            final(display)@ == display_after(old(self).config(), old(self).state(), final(self).state(), old(display)@),
            final(alarm)@ == alarm_after(old(self).state(), final(self).state(), old(alarm)@),
            final(display)@.wf(),
            final(alarm)@.wf(),
            coupled(old(self).state(), old(alarm)@) ==> coupled(final(self).state(), final(alarm)@),
            match redraw_grid(old(self).config(), old(self).state(), final(self).state(), old(display)@) {
                Some(grid) => effects.redraw matches Some(frame) && frame@ == grid,
                None => effects.redraw is None,
            },
            effects.speaker == speaker_order(old(self).state(), final(self).state(), old(alarm)@),
            effects.sleep_ms == old(self).config().poll_interval_ms,
    {
        let before = self.state;
        let after = match polled {
            Some(sample) => FallDetector::new(self.config.thresholds).next(before, sample.magnitude()),
            None => before,
        };
        self.state = after;
        let sleep_ms = self.config.poll_interval_ms;
        match (before, after) {
            (FallState::Stable, FallState::Falling) => {
                let frame = self.config.falling_frame;
                let changed = display.show(frame);
                let speaker = alarm.set_armed(true);
                Effects { redraw: if changed { Some(frame) } else { None }, speaker, sleep_ms }
            },
            (FallState::Falling, FallState::Stable) => {
                let frame = self.config.stable_frame;
                let changed = display.show(frame);
                let speaker = alarm.set_armed(false);
                Effects { redraw: if changed { Some(frame) } else { None }, speaker, sleep_ms }
            },
            _ => {
                proof {
                    use_type_invariant(&*display);
                    use_type_invariant(&*alarm);
                }
                Effects { redraw: None, speaker: None, sleep_ms }
            },
        }
    }
}

} // verus!
