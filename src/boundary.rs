//! The safe core of the firmware entry point: it takes copies of the
//! firmware's demand and state records and returns the new state by value.
use vstd::prelude::*;
use crate::alt_hold::{alt_hold_step, run_alt_hold, AltHoldConfig, AltHoldPid};
use crate::datatypes::{Demands, VehicleState};

verus! {

/// The vehicle state seen by altitude hold for raw altitude and climb-rate
/// readings; the angular rates play no part.
pub open spec fn altitude_reading(altitude: i32, climb_rate: i32) -> VehicleState {
    VehicleState { altitude, climb_rate, roll_rate: 0, pitch_rate: 0, yaw_rate: 0 }
}

/// Runs one altitude-hold tick on copies of the firmware's records and
/// returns the state the firmware stores for the next tick.
pub fn rust_run_alt_hold(
    demands: &Demands,
    altitude: i32,
    climb_rate: i32,
    oldpid: &AltHoldPid,
    config: &AltHoldConfig,
) -> (r: AltHoldPid)
    ensures
        r == alt_hold_step(*oldpid, *demands, altitude_reading(altitude, climb_rate), *config).1,
{
    let vstate = VehicleState { altitude, climb_rate, roll_rate: 0, pitch_rate: 0, yaw_rate: 0 };
    let prior = AltHoldPid {
        error_integral: oldpid.error_integral,
        in_band: oldpid.in_band,
        target: oldpid.target,
        throttle: oldpid.throttle,
    };
    let (_, next) = run_alt_hold(prior, demands, &vstate, config);
    next
}

} // verus!
