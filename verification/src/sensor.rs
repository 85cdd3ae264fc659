//! Polling the accelerometer without ever waiting for it.
//!
//! The bus belongs to the caller. A poll is two exchanges at most: the caller
//! asks the sensor for its status and hands the answer to `after_status`; if
//! that says so, the caller reads the sample and hands it to `after_reading`.

use vstd::prelude::*;
use crate::fault::Fault;
use crate::sample::AccelerationSample;

verus! {

/// An exchange with the sensor that did not come through.
#[derive(Clone, Copy, Debug, PartialEq, Eq, Structural)]
pub struct BusError;

/// What to do once the status of the sensor is known.
#[derive(Clone, Copy, Debug, PartialEq, Eq, Structural)]
pub enum PollStep {
    /// The sensor has nothing new. The poll is over, without a sample.
    NoSample,
    /// The sensor has a new sample. Read it, once; reading it is what tells
    /// the sensor that it was taken.
    ReadSample,
}

/// What the accelerometer answered when asked which part it is.
#[derive(Clone, Copy, Debug, PartialEq, Eq, Structural)]
pub enum IdentityReply {
    /// The identity of the expected part.
    Expected,
    /// Some other identity, given as the raw byte.
    Unexpected(u8),
}

impl BusError {
    /// A failed exchange is a failed access to a peripheral.
    pub fn fault(self) -> (fault: Fault)
        ensures
            fault == Fault::PeripheralAccess,
    {
        Fault::PeripheralAccess
    }
}

/// The first half of a poll. Without new data the poll ends at once and
/// nothing is read; with new data the sample is to be read; a failed status
/// query is handed on.
pub fn after_status(status: Result<bool, BusError>) -> (step: Result<PollStep, BusError>)
    ensures
        step == match status {
            Ok(new_data) => Ok::<PollStep, BusError>(if new_data { PollStep::ReadSample } else { PollStep::NoSample }),
            Err(error) => Err::<PollStep, BusError>(error),
        },
{
    match status {
        Ok(true) => Ok(PollStep::ReadSample),
        Ok(false) => Ok(PollStep::NoSample),
        Err(error) => Err(error),
    }
}

/// The second half of a poll: the sample of the three readings in milli-g,
/// or the failure of the read handed on.
pub fn after_reading(reading: Result<(i32, i32, i32), BusError>) -> (sample: Result<AccelerationSample, BusError>)
    ensures
        match reading {
            Ok((x_mg, y_mg, z_mg)) => sample matches Ok(s) && s.x() == x_mg && s.y() == y_mg && s.z() == z_mg,
            Err(error) => sample == Err::<AccelerationSample, BusError>(error),
        },
{
    match reading {
        Ok((x_mg, y_mg, z_mg)) => Ok(AccelerationSample::new(x_mg, y_mg, z_mg)),
        Err(error) => Err(error),
    }
}

/// The fault, if any, in what the accelerometer answered when asked which
/// part it is: a wrong identity is a mismatch, an answer that never came is a
/// failed access.
pub fn judge_identity(reply: Result<IdentityReply, BusError>) -> (fault: Option<Fault>)
    ensures
        fault == match reply {
            Ok(IdentityReply::Expected) => None::<Fault>,
            Ok(IdentityReply::Unexpected(_)) => Some(Fault::IdentityMismatch),
            Err(_) => Some(Fault::PeripheralAccess),
        },
{
    match reply {
        Ok(IdentityReply::Expected) => None,
        Ok(IdentityReply::Unexpected(_)) => Some(Fault::IdentityMismatch),
        Err(_) => Some(Fault::PeripheralAccess),
    }
}

/// The fault, if any, in how a step of setting the accelerometer up ended:
/// a step that did not come through leaves the sensor unconfigured.
pub fn judge_configuration(done: Result<(), BusError>) -> (fault: Option<Fault>)
    ensures
        fault == match done {
            Ok(_) => None::<Fault>,
            Err(_) => Some(Fault::SensorConfiguration),
        },
{
    match done {
        Ok(_) => None,
        Err(_) => Some(Fault::SensorConfiguration),
    }
}

} // verus!
