//! Altitude hold: a PID on altitude error that drives the throttle channel.
use vstd::prelude::*;
use crate::datatypes::{Demands, VehicleState};
use crate::scale::{abs, clamp, clamp_scaled, clamp_symmetric, lemma_mul_bound, lemma_clamp_shrinks, scaled_output};

verus! {

/// Persistent state of the altitude-hold controller.
#[derive(Clone, Copy, Debug, PartialEq, Eq, Structural)]
pub struct AltHoldPid {
    /// Accumulated altitude error, in millimetre-milliseconds.
    pub error_integral: i64,
    /// Whether the last error fell inside the deadband.
    pub in_band: bool,
    /// Altitude setpoint in millimetres.
    pub target: i32,
    /// Last throttle emitted, in thousandths.
    pub throttle: i32,
}

/// Gains and limits of the altitude-hold controller.
#[derive(Clone, Copy, Debug, PartialEq, Eq, Structural)]
pub struct AltHoldConfig {
    /// Throttle that holds the vehicle level, in thousandths.
    pub hover_throttle: i32,
    /// Thousandths of throttle per metre of altitude error.
    pub kp: i32,
    /// Thousandths of throttle per metre-second of accumulated error.
    pub ki: i32,
    /// Thousandths of throttle per metre per second of descent.
    pub kd: i32,
    /// Errors strictly smaller than this, in millimetres, are in band.
    pub deadband: u32,
    /// Tick period in milliseconds.
    pub dt_ms: u32,
    /// Symmetric bound on the accumulated error.
    pub integral_limit: u32,
}

impl AltHoldConfig {
    /// A usable configuration has a positive tick period.
    pub open spec fn wf(self) -> bool {
        self.dt_ms > 0
    }
}

impl AltHoldPid {
    /// Zero state for a new hold at `target`, seeded with the throttle in use
    /// so the first tick does not jump.
    pub fn new(target: i32, throttle: i32) -> (r: AltHoldPid)
        ensures
            r == (AltHoldPid { error_integral: 0, in_band: false, target, throttle }),
    {
        AltHoldPid { error_integral: 0, in_band: false, target, throttle }
    }
}

/// Altitude error: setpoint minus measured altitude.
pub open spec fn altitude_error(pid: AltHoldPid, vstate: VehicleState) -> int {
    pid.target - vstate.altitude
}

/// Whether an error lies strictly inside the deadband.
pub open spec fn within_deadband(error: int, config: AltHoldConfig) -> bool {
    abs(error) < config.deadband
}

/// The accumulated error after one tick: grows by `error * dt` within the
/// band, held to the configured bound, and frozen outside it.
pub open spec fn next_integral(integral: int, error: int, config: AltHoldConfig) -> int {
    if within_deadband(error, config) {
        clamp(integral + error * config.dt_ms, -(config.integral_limit as int), config.integral_limit as int)
    } else {
        integral
    }
}

/// Raw throttle sum over `OUTPUT_DENOM`: hover, proportional, integral and
/// derivative terms, the last on the climb rate.
pub open spec fn throttle_sum(error: int, integral: int, climb_rate: int, config: AltHoldConfig) -> int {
    config.hover_throttle * 1_000_000 + config.kp * error * 1000 + config.ki * integral
        - config.kd * climb_rate * 1000
}

/// One tick of altitude hold: new demands (only throttle changed) and new state.
pub open spec fn alt_hold_step(
    pid: AltHoldPid,
    demands: Demands,
    vstate: VehicleState,
    config: AltHoldConfig,
) -> (Demands, AltHoldPid) {
    let e = altitude_error(pid, vstate);
    let i = next_integral(pid.error_integral as int, e, config);
    let t = scaled_output(throttle_sum(e, i, vstate.climb_rate as int, config), 0, 1000);
    (
        Demands { throttle: t as i32, ..demands },
        AltHoldPid { error_integral: i as i64, in_band: within_deadband(e, config), target: pid.target, throttle: t as i32 },
    )
}

/// Within the deadband the hold is in band and the accumulated error moves
/// strictly in the direction of the error, unless it reaches its bound.
pub proof fn lemma_in_band_accumulates(pid: AltHoldPid, demands: Demands, vstate: VehicleState, config: AltHoldConfig)
    requires
        config.wf(),
        abs(pid.error_integral as int) <= config.integral_limit,
        within_deadband(altitude_error(pid, vstate), config),
    ensures
        ({
            let next = alt_hold_step(pid, demands, vstate, config).1;
            let e = altitude_error(pid, vstate);
            &&& next.in_band
            &&& e > 0 ==> next.error_integral > pid.error_integral || next.error_integral == config.integral_limit
            &&& e < 0 ==> next.error_integral < pid.error_integral || next.error_integral == -config.integral_limit
            &&& e == 0 ==> next.error_integral == pid.error_integral
        }),
{
    let e = altitude_error(pid, vstate);
    let sum = pid.error_integral + e * config.dt_ms;
    lemma_clamp_shrinks(sum, config.integral_limit as int);
    assert(next_integral(pid.error_integral as int, e, config) == clamp(sum, -(config.integral_limit as int), config.integral_limit as int));
    assert(e == 0 ==> e * config.dt_ms == 0) by (nonlinear_arith);
    assert(e > 0 ==> e * config.dt_ms > 0) by (nonlinear_arith)
        requires
            config.dt_ms > 0,
    ;
    assert(e < 0 ==> e * config.dt_ms < 0) by (nonlinear_arith)
        requires
            config.dt_ms > 0,
    ;
}

/// Outside the deadband the hold is out of band and the accumulated error is
/// frozen, so it cannot wind up.
pub proof fn lemma_out_of_band_freezes(pid: AltHoldPid, demands: Demands, vstate: VehicleState, config: AltHoldConfig)
    requires
        !within_deadband(altitude_error(pid, vstate), config),
    ensures
        !alt_hold_step(pid, demands, vstate, config).1.in_band,
        alt_hold_step(pid, demands, vstate, config).1.error_integral == pid.error_integral,
{
}

/// The emitted throttle lies in `[0, 1000]` whatever the error, climb rate or
/// prior state, and the stored throttle is the emitted one.
pub proof fn lemma_throttle_clamped(pid: AltHoldPid, demands: Demands, vstate: VehicleState, config: AltHoldConfig)
    ensures
        0 <= alt_hold_step(pid, demands, vstate, config).0.throttle <= 1000,
        alt_hold_step(pid, demands, vstate, config).1.throttle == alt_hold_step(pid, demands, vstate, config).0.throttle,
{
}

/// A second tick on the state a first tick produced, with the vehicle at the
/// setpoint, leaves the magnitude of the accumulated error no larger.
pub proof fn lemma_equilibrium_no_windup(
    pid: AltHoldPid,
    demands: Demands,
    vstate: VehicleState,
    at_target: VehicleState,
    config: AltHoldConfig,
)
    requires
        at_target.altitude == pid.target,
    ensures
        ({
            let first = alt_hold_step(pid, demands, vstate, config);
            let second = alt_hold_step(first.1, first.0, at_target, config);
            abs(second.1.error_integral as int) <= abs(first.1.error_integral as int)
        }),
{
    let first = alt_hold_step(pid, demands, vstate, config);
    lemma_clamp_shrinks(first.1.error_integral as int, config.integral_limit as int);
}

/// Runs one tick of altitude hold on the throttle demand.
pub fn run_alt_hold(pid: AltHoldPid, demands: &Demands, vstate: &VehicleState, config: &AltHoldConfig) -> (r: (
    Demands,
    AltHoldPid,
))
    ensures
        r == alt_hold_step(pid, *demands, *vstate, *config),
        0 <= r.0.throttle <= 1000,
{
    let e: i64 = pid.target as i64 - vstate.altitude as i64;
    let in_band = (if e < 0 { -e } else { e }) < config.deadband as i64;
    let integral: i64 = if in_band {
        proof {
            lemma_mul_bound(e as int, config.dt_ms as int, 0x1_0000_0000, 0x1_0000_0000);
        }
        clamp_symmetric(pid.error_integral as i128 + e as i128 * config.dt_ms as i128, config.integral_limit)
    } else {
        pid.error_integral
    };
    proof {
        lemma_mul_bound(config.kp as int, e as int, 0x8000_0000, 0x1_0000_0000);
        lemma_mul_bound(config.ki as int, integral as int, 0x8000_0000, 0x8000_0000_0000_0000);
        lemma_mul_bound(config.kd as int, vstate.climb_rate as int, 0x8000_0000, 0x8000_0000);
    }
    let sum: i128 = config.hover_throttle as i128 * 1_000_000 + config.kp as i128 * e as i128 * 1000
        + config.ki as i128 * integral as i128 - config.kd as i128 * vstate.climb_rate as i128 * 1000;
    let throttle = clamp_scaled(sum, 0, 1000);
    let out = Demands { throttle, ..*demands };
    let next = AltHoldPid { error_integral: integral, in_band, target: pid.target, throttle };
    (out, next)
}

} // verus!
