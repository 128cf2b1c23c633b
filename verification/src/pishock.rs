//! Device commands understood by the actuation endpoint.

use vstd::prelude::*;

verus! {

/// One device-control instruction. Durations are in seconds, intensities in
/// percent; their valid ranges are enforced by configuration validation.
#[derive(Debug, Clone, Copy, PartialEq, Eq, Structural)]
pub enum PiShockOp {
    Beep { duration: i32 },
    Vibrate { intensity: i32, duration: i32 },
    Shock { intensity: i32, duration: i32 },
}

impl PiShockOp {
    /// Numeric operation code of the command on the device API's wire format.
    pub open spec fn spec_op(self) -> i32 {
        match self {
            PiShockOp::Beep { .. } => 2,
            PiShockOp::Vibrate { .. } => 1,
            PiShockOp::Shock { .. } => 0,
        }
    }

    /// Operation code sent in the outbound request body.
    pub fn to_op(self) -> (op: i32)
        ensures
            op == self.spec_op(),
    {
        match self {
            PiShockOp::Beep { duration: _ } => 2,
            PiShockOp::Vibrate { intensity: _, duration: _ } => 1,
            PiShockOp::Shock { intensity: _, duration: _ } => 0,
        }
    }
}

} // verus!
