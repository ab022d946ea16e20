//! Value types handed to and returned by the controllers each tick.
use vstd::prelude::*;

verus! {

/// Normalized actuator commands, each in thousandths of full scale.
/// Nominal ranges are `[0, 1000]` for throttle and `[-1000, 1000]` for the
/// attitude channels; the type itself holds any value.
#[derive(Clone, Copy, Debug, PartialEq, Eq, Structural)]
pub struct Demands {
    pub throttle: i32,
    pub roll: i32,
    pub pitch: i32,
    pub yaw: i32,
}

/// One tick's snapshot of the estimated vehicle kinematics.
#[derive(Clone, Copy, Debug, PartialEq, Eq, Structural)]
pub struct VehicleState {
    /// Altitude in millimetres.
    pub altitude: i32,
    /// Vertical speed in millimetres per second, positive upwards.
    pub climb_rate: i32,
    /// Angular rates about each axis, in thousandths of the full-scale rate.
    pub roll_rate: i32,
    pub pitch_rate: i32,
    pub yaw_rate: i32,
}

impl Demands {
    pub fn new(throttle: i32, roll: i32, pitch: i32, yaw: i32) -> (r: Demands)
        ensures
            r == (Demands { throttle, roll, pitch, yaw }),
    {
        Demands { throttle, roll, pitch, yaw }
    }
}

impl VehicleState {
    pub fn new(altitude: i32, climb_rate: i32, roll_rate: i32, pitch_rate: i32, yaw_rate: i32) -> (r:
        VehicleState)
        ensures
            r == (VehicleState { altitude, climb_rate, roll_rate, pitch_rate, yaw_rate }),
    {
        VehicleState { altitude, climb_rate, roll_rate, pitch_rate, yaw_rate }
    }
}

} // verus!
