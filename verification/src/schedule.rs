//! The two periodic interrupts and which of them goes first.

use vstd::prelude::*;

verus! {

/// A periodic interrupt of the firmware.
#[derive(Clone, Copy, Debug, PartialEq, Eq, Structural)]
pub enum InterruptSource {
    /// The fast timer that drives one step of the LED matrix.
    DisplayRefresh,
    /// The timer that toggles the speaker pin while the alarm sounds.
    AlarmToggle,
}

impl InterruptSource {
    /// The priority of the source as the interrupt controller counts it: the
    /// lower number is served first and interrupts the handler of a higher
    /// one. The display comes before the tone, so that the tone can never
    /// make the picture flicker.
    pub open spec fn spec_priority(self) -> u8 {
        match self {
            InterruptSource::DisplayRefresh => 0,
            InterruptSource::AlarmToggle => 128,
        }
    }

    /// Whether this source interrupts the running handler of `running`.
    pub open spec fn spec_preempts(self, running: InterruptSource) -> bool {
        self.spec_priority() < running.spec_priority()
    }

    /// The priority to program into the interrupt controller for the source.
    #[verifier::when_used_as_spec(spec_priority)]
    pub fn priority(self) -> (priority: u8)
        ensures
            priority == self.spec_priority(),
    {
        match self {
            InterruptSource::DisplayRefresh => 0,
            InterruptSource::AlarmToggle => 128,
        }
    }

    /// Whether this source interrupts the running handler of `running`.
    #[verifier::when_used_as_spec(spec_preempts)]
    pub fn preempts(self, running: InterruptSource) -> (preempts: bool)
        ensures
            preempts == self.spec_preempts(running),
    {
        self.priority() < running.priority()
    }
}

/// The refresh of the display is never held up by the tone: it interrupts
/// the handler of the tone, and the tone never interrupts it. No source
/// interrupts its own handler.
pub proof fn lemma_display_goes_first(source: InterruptSource)
    ensures
        InterruptSource::DisplayRefresh.preempts(InterruptSource::AlarmToggle),
        !source.preempts(InterruptSource::DisplayRefresh),
        !source.preempts(source),
{
}

} // verus!
