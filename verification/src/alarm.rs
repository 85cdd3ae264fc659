//! The speaker: when it sounds, and what its pin is told.

use vstd::prelude::*;

verus! {

/// Whether the alarm sounds.
#[derive(Clone, Copy, Debug, PartialEq, Eq, Structural)]
pub enum AlarmMode {
    Off,
    On,
}

/// The level of the speaker pin. Low is its inactive level.
#[derive(Clone, Copy, Debug, PartialEq, Eq, Structural)]
pub enum PinLevel {
    Low,
    High,
}

/// One order to the speaker pin.
#[derive(Clone, Copy, Debug, PartialEq, Eq, Structural)]
pub enum PinCommand {
    SetHigh,
    SetLow,
    Toggle,
}

/// How the tone is made while the alarm is on.
#[derive(Clone, Copy, Debug, PartialEq, Eq, Structural)]
pub enum AlarmStrategy {
    /// A periodic interrupt toggles the pin for as long as the alarm is armed.
    /// Polling the sensor goes on meanwhile.
    ContinuousTone,
    /// On arming, the foreground toggles the pin `toggles` times and waits
    /// `half_period_us` microseconds after each. Nothing else runs meanwhile.
    ToneBurst { toggles: u32, half_period_us: u32 },
}

/// One toggle of a tone burst: the pin is driven to the other level, then
/// the caller waits.
#[derive(Clone, Copy, Debug, PartialEq, Eq, Structural)]
pub struct BurstStep {
    /// The order that drives the pin to its new level.
    pub command: PinCommand,
    /// How long to hold that level, in microseconds.
    pub hold_us: u32,
}

impl PinLevel {
    /// The other level.
    pub open spec fn flipped(self) -> PinLevel {
        match self {
            PinLevel::Low => PinLevel::High,
            PinLevel::High => PinLevel::Low,
        }
    }

    /// The level of a pin that was at `self` when `command` reached it.
    pub open spec fn driven_by(self, command: PinCommand) -> PinLevel {
        match command {
            PinCommand::SetHigh => PinLevel::High,
            PinCommand::SetLow => PinLevel::Low,
            PinCommand::Toggle => self.flipped(),
        }
    }

    /// The other level.
    pub fn toggled(self) -> (other: PinLevel)
        ensures
            other == self.flipped(),
    {
        match self {
            PinLevel::Low => PinLevel::High,
            PinLevel::High => PinLevel::Low,
        }
    }

    /// The order that drives a pin to this level, wherever it stands.
    pub open spec fn reached_by(self) -> PinCommand {
        match self {
            PinLevel::Low => PinCommand::SetLow,
            PinLevel::High => PinCommand::SetHigh,
        }
    }

    /// The level after `command`.
    pub fn after(self, command: PinCommand) -> (level: PinLevel)
        ensures
            level == self.driven_by(command),
    {
        match command {
            PinCommand::SetHigh => PinLevel::High,
            PinCommand::SetLow => PinLevel::Low,
            PinCommand::Toggle => self.toggled(),
        }
    }
}

impl AlarmStrategy {
    /// How many toggles one arming sets off in the foreground.
    pub open spec fn burst_length(self) -> nat {
        match self {
            AlarmStrategy::ContinuousTone => 0,
            AlarmStrategy::ToneBurst { toggles, .. } => toggles as nat,
        }
    }

    /// How long each level of a burst is held, in microseconds.
    pub open spec fn hold_us(self) -> u32 {
        match self {
            AlarmStrategy::ContinuousTone => 0,
            AlarmStrategy::ToneBurst { half_period_us, .. } => half_period_us,
        }
    }
}

/// What an `AlarmController` stands for.
pub struct AlarmView {
    /// How the tone is made.
    pub strategy: AlarmStrategy,
    /// Whether the alarm is armed.
    pub armed: bool,
    /// The level the pin was last driven to.
    pub level: PinLevel,
    /// The toggles of the running burst that are still to come.
    pub burst_left: nat,
}

impl AlarmView {
    /// A disarmed alarm is silent: its pin is low and no burst is running.
    /// A burst never has more toggles left than the strategy gives it.
    pub open spec fn wf(self) -> bool {
        &&& self.burst_left <= self.strategy.burst_length()
        &&& !self.armed ==> self.level == PinLevel::Low && self.burst_left == 0
    }

    /// On while armed, off otherwise.
    pub open spec fn mode(self) -> AlarmMode {
        if self.armed {
            AlarmMode::On
        } else {
            AlarmMode::Off
        }
    }

    /// The controller before anything happened: disarmed, pin low.
    pub open spec fn initial(strategy: AlarmStrategy) -> AlarmView {
        AlarmView { strategy, armed: false, level: PinLevel::Low, burst_left: 0 }
    }

    /// The controller after `set_armed(armed)`.
    ///
    /// Arming a disarmed alarm loads the burst, if the strategy has one, and
    /// leaves the pin alone. Arming an armed alarm changes nothing. Disarming
    /// always ends any burst and puts the pin low.
    pub open spec fn set_armed(self, armed: bool) -> AlarmView {
        if armed {
            if self.armed {
                self
            } else {
                AlarmView { armed: true, burst_left: self.strategy.burst_length(), ..self }
            }
        } else {
            AlarmView { armed: false, level: PinLevel::Low, burst_left: 0, ..self }
        }
    }

    /// What `set_armed(armed)` tells the pin: low on disarming, nothing on
    /// arming.
    pub open spec fn set_armed_command(self, armed: bool) -> Option<PinCommand> {
        if armed {
            None
        } else {
            Some(PinCommand::SetLow)
        }
    }

    /// Whether the periodic interrupt toggles the pin in this state.
    pub open spec fn tick_toggles(self) -> bool {
        self.armed && self.strategy == AlarmStrategy::ContinuousTone
    }

    /// The controller after one tick of the tone interrupt.
    pub open spec fn toggle_tick(self) -> AlarmView {
        if self.tick_toggles() {
            AlarmView { level: self.level.flipped(), ..self }
        } else {
            self
        }
    }

    /// What one tick of the tone interrupt tells the pin.
    pub open spec fn toggle_tick_command(self) -> Option<PinCommand> {
        if self.tick_toggles() {
            Some(PinCommand::Toggle)
        } else {
            None
        }
    }

    /// The controller after the next toggle of a burst.
    pub open spec fn burst_step(self) -> AlarmView {
        if self.burst_left > 0 {
            AlarmView { level: self.level.flipped(), burst_left: (self.burst_left - 1) as nat, ..self }
        } else {
            self
        }
    }

    /// The next toggle of a burst, if one is left.
    pub open spec fn burst_step_order(self) -> Option<BurstStep> {
        if self.burst_left > 0 {
            Some(BurstStep { command: self.level.flipped().reached_by(), hold_us: self.strategy.hold_us() })
        } else {
            None
        }
    }
}

/// The controller knows where the pin stands: as long as the pin obeys each
/// order it is given, and moves at no other time, the level the controller
/// holds is the level of the pin.
pub proof fn lemma_level_tracks_pin(alarm: AlarmView, armed: bool)
    requires
        alarm.wf(),
    ensures
        alarm.set_armed(armed).level == match alarm.set_armed_command(armed) {
            Some(command) => alarm.level.driven_by(command),
            None => alarm.level,
        },
        alarm.toggle_tick().level == match alarm.toggle_tick_command() {
            Some(command) => alarm.level.driven_by(command),
            None => alarm.level,
        },
        alarm.burst_step().level == match alarm.burst_step_order() {
            Some(step) => alarm.level.driven_by(step.command),
            None => alarm.level,
        },
{
}

/// Disarming leaves no sound behind: whatever the alarm was doing, it is off
/// afterwards, no burst is left, and the order it gives puts the pin low from
/// either level.
pub proof fn lemma_disarm_silences(alarm: AlarmView, pin: PinLevel)
    ensures
        alarm.set_armed(false).mode() == AlarmMode::Off,
        alarm.set_armed(false).level == PinLevel::Low,
        alarm.set_armed(false).burst_left == 0,
        alarm.set_armed_command(false) matches Some(command) && pin.driven_by(command) == PinLevel::Low,
        alarm.set_armed(false).toggle_tick() == alarm.set_armed(false),
        alarm.set_armed(false).burst_step() == alarm.set_armed(false),
{
}

/// Arming takes effect with the next toggle and not before: the pin is left
/// where it was, a continuous tone toggles at the next tick, and a burst has
/// all its toggles to come.
pub proof fn lemma_arm_starts_tone(alarm: AlarmView)
    requires
        alarm.wf(),
        !alarm.armed,
    ensures
        alarm.set_armed(true).mode() == AlarmMode::On,
        alarm.set_armed(true).level == alarm.level,
        alarm.set_armed_command(true) is None,
        alarm.strategy == AlarmStrategy::ContinuousTone ==> alarm.set_armed(true).tick_toggles(),
        alarm.set_armed(true).burst_left == alarm.strategy.burst_length(),
{
}

impl AlarmView {
    /// The controller after `steps` calls of `burst_step`.
    pub open spec fn burst_steps(self, steps: nat) -> AlarmView
        decreases steps,
    {
        if steps == 0 {
            self
        } else {
            self.burst_steps((steps - 1) as nat).burst_step()
        }
    }
}

/// A burst is exactly as long as it was loaded: each of the first
/// `burst_left` steps flips the pin, so that the pin stands high after an odd
/// number of them and where it started after an even number, and every step
/// after those does nothing.
pub proof fn lemma_burst_runs_out(alarm: AlarmView, steps: nat)
    ensures
        alarm.burst_steps(steps).burst_left == if steps <= alarm.burst_left {
            (alarm.burst_left - steps) as nat
        } else {
            0
        },
        alarm.burst_steps(steps).level == if (if steps <= alarm.burst_left {
            steps
        } else {
            alarm.burst_left
        }) % 2 == 0 {
            alarm.level
        } else {
            alarm.level.flipped()
        },
        alarm.burst_steps(steps).armed == alarm.armed,
        alarm.burst_steps(steps).strategy == alarm.strategy,
        alarm.wf() ==> alarm.burst_steps(steps).wf(),
    decreases steps,
{
    if steps > 0 {
        lemma_burst_runs_out(alarm, (steps - 1) as nat);
    }
}

/// The state of the alarm: whether it is armed, and where its pin stands.
///
/// The foreground arms and disarms it; the tone interrupt, or the foreground
/// during a burst, toggles the pin. The controller touches no hardware: each
/// method returns what the pin is to be told.
#[derive(Clone, Copy, Debug, PartialEq, Eq)]
pub struct AlarmController {
    strategy: AlarmStrategy,
    armed: bool,
    level: PinLevel,
    burst_left: u32,
}

impl View for AlarmController {
    type V = AlarmView;

    closed spec fn view(&self) -> AlarmView {
        AlarmView {
            strategy: self.strategy,
            armed: self.armed,
            level: self.level,
            burst_left: self.burst_left as nat,
        }
    }
}

impl AlarmController {
    /// Holds of every controller at all times.
    #[verifier::type_invariant]
    pub open spec fn inv(&self) -> bool {
        self@.wf()
    }

    /// A disarmed alarm with its pin low.
    pub fn new(strategy: AlarmStrategy) -> (alarm: AlarmController)
        ensures
            alarm@ == AlarmView::initial(strategy),
            alarm@.wf(),
    {
        AlarmController { strategy, armed: false, level: PinLevel::Low, burst_left: 0 }
    }

    /// On while armed, off otherwise.
    pub fn mode(&self) -> (mode: AlarmMode)
        ensures
            mode == self@.mode(),
            self@.wf(),
    {
        proof {
            use_type_invariant(self);
        }
        if self.armed {
            AlarmMode::On
        } else {
            AlarmMode::Off
        }
    }

    /// Whether the pin was last driven high.
    pub fn is_set_high(&self) -> (high: bool)
        ensures
            high == (self@.level == PinLevel::High),
    {
        match self.level {
            PinLevel::High => true,
            PinLevel::Low => false,
        }
    }

    /// The strategy the alarm was made with.
    pub fn strategy(&self) -> (strategy: AlarmStrategy)
        ensures
            strategy == self@.strategy,
    {
        self.strategy
    }

    /// The toggles of the running burst that are still to come.
    pub fn burst_left(&self) -> (left: u32)
        ensures
            left == self@.burst_left,
    {
        self.burst_left
    }

    /// Arms or disarms the alarm. Foreground only.
    ///
    /// Arming starts the tone: with a continuous tone the next tick of the
    /// interrupt toggles the pin, with a burst the toggles are loaded for
    /// `burst_step`. Disarming stops the tone and returns the order that puts
    /// the pin low, so that no half cycle stays high.
    pub fn set_armed(&mut self, armed: bool) -> (command: Option<PinCommand>)
        ensures
            final(self)@ == old(self)@.set_armed(armed),
            command == old(self)@.set_armed_command(armed),
            final(self)@.wf(),
    {
        proof {
            use_type_invariant(&*self);
        }
        if armed {
            if !self.armed {
                let burst_left: u32 = match self.strategy {
                    AlarmStrategy::ContinuousTone => 0,
                    AlarmStrategy::ToneBurst { toggles, .. } => toggles,
                };
                *self = AlarmController { strategy: self.strategy, armed: true, level: self.level, burst_left };
            }
            None
        } else {
            *self = AlarmController {
                strategy: self.strategy,
                armed: false,
                level: PinLevel::Low,
                burst_left: 0,
            };
            Some(PinCommand::SetLow)
        }
    }

    /// One tick of the tone interrupt. Interrupt only.
    ///
    /// An armed alarm with a continuous tone toggles the pin once; in every
    /// other state nothing happens.
    pub fn service_toggle_tick(&mut self) -> (command: Option<PinCommand>)
        ensures
            final(self)@ == old(self)@.toggle_tick(),
            command == old(self)@.toggle_tick_command(),
            final(self)@.wf(),
    {
        proof {
            use_type_invariant(&*self);
        }
        let continuous = match self.strategy {
            AlarmStrategy::ContinuousTone => true,
            AlarmStrategy::ToneBurst { .. } => false,
        };
        if self.armed && continuous {
            self.level = self.level.toggled();
            Some(PinCommand::Toggle)
        } else {
            None
        }
    }

    /// The next toggle of the burst that arming loaded, or `None` once the
    /// burst is over. Foreground only: the caller gives the pin the returned
    /// order, waits for the returned time, and asks again.
    pub fn burst_step(&mut self) -> (order: Option<BurstStep>)
        ensures
            final(self)@ == old(self)@.burst_step(),
            order == old(self)@.burst_step_order(),
            final(self)@.wf(),
    {
        proof {
            use_type_invariant(&*self);
        }
        if self.burst_left > 0 {
            let hold_us: u32 = match self.strategy {
                AlarmStrategy::ContinuousTone => 0,
                AlarmStrategy::ToneBurst { half_period_us, .. } => half_period_us,
            };
            let level = self.level.toggled();
            let command = match level {
                PinLevel::Low => PinCommand::SetLow,
                PinLevel::High => PinCommand::SetHigh,
            };
            *self = AlarmController {
                strategy: self.strategy,
                armed: self.armed,
                level,
                burst_left: self.burst_left - 1,
            };
            Some(BurstStep { command, hold_us })
        } else {
            None
        }
    }
}

} // verus!
