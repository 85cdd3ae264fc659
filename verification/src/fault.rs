//! What can go wrong, and how much it matters.

use vstd::prelude::*;

verus! {

/// A failure of the firmware or of something it talks to.
#[derive(Clone, Copy, Debug, PartialEq, Eq, Structural)]
pub enum Fault {
    /// The accelerometer names itself as a part other than the expected one.
    IdentityMismatch,
    /// The accelerometer did not take its configuration.
    SensorConfiguration,
    /// A read from a peripheral, or a write to one, failed.
    PeripheralAccess,
    /// A peripheral lock was used before it held a handle, or was given a
    /// second one.
    LockMisuse,
}

/// Whether the firmware can go on after a fault.
#[derive(Clone, Copy, Debug, PartialEq, Eq, Structural)]
pub enum Severity {
    /// Worth a line in the log; the firmware goes on as if nothing happened.
    Tolerable,
    /// The firmware stops for good, with the display and the alarm left as
    /// they are.
    Fatal,
}

impl Fault {
    /// Only a wrong identity is tolerable. Every other fault is fatal.
    pub open spec fn spec_severity(self) -> Severity {
        match self {
            Fault::IdentityMismatch => Severity::Tolerable,
            _ => Severity::Fatal,
        }
    }

    /// How much the fault matters.
    #[verifier::when_used_as_spec(spec_severity)]
    pub fn severity(self) -> (severity: Severity)
        ensures
            severity == self.spec_severity(),
    {
        match self {
            Fault::IdentityMismatch => Severity::Tolerable,
            Fault::SensorConfiguration => Severity::Fatal,
            Fault::PeripheralAccess => Severity::Fatal,
            Fault::LockMisuse => Severity::Fatal,
        }
    }
}

} // verus!
