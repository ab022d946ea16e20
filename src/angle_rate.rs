//! Angle rate: an independent PID per roll, pitch and yaw axis, driving each
//! attitude channel toward the demanded rate.
use vstd::prelude::*;
use crate::datatypes::{Demands, VehicleState};
use crate::scale::{clamp, clamp_scaled, clamp_symmetric, lemma_mul_bound, scaled_output};

verus! {

/// Persistent state of one axis.
#[derive(Clone, Copy, Debug, PartialEq, Eq, Structural)]
pub struct AxisPid {
    /// Accumulated rate error, in thousandth-milliseconds.
    pub integral: i64,
    /// Rate error of the previous tick, for the derivative term.
    pub last_error: i64,
}

/// Persistent state of the angle-rate controller: one accumulator per axis.
#[derive(Clone, Copy, Debug, PartialEq, Eq, Structural)]
pub struct AngleRatePid {
    pub roll: AxisPid,
    pub pitch: AxisPid,
    pub yaw: AxisPid,
}

/// Gains and limits applied to every axis.
#[derive(Clone, Copy, Debug, PartialEq, Eq, Structural)]
pub struct RateConfig {
    /// Thousandths of output per full-scale unit of rate error.
    pub kp: i32,
    /// Thousandths of output per full-scale unit-second of accumulated error.
    pub ki: i32,
    /// Thousandths of output per full-scale unit of change in error per tick.
    pub kd: i32,
    /// Tick period in milliseconds.
    pub dt_ms: u32,
    /// Symmetric bound on each axis's accumulated error.
    pub integral_limit: u32,
}

impl AxisPid {
    pub fn new() -> (r: AxisPid)
        ensures
            r == (AxisPid { integral: 0, last_error: 0 }),
    {
        AxisPid { integral: 0, last_error: 0 }
    }
}

impl AngleRatePid {
    /// Zero state for a newly entered rate mode.
    pub fn new() -> (r: AngleRatePid)
        ensures
            r == (AngleRatePid {
                roll: AxisPid { integral: 0, last_error: 0 },
                pitch: AxisPid { integral: 0, last_error: 0 },
                yaw: AxisPid { integral: 0, last_error: 0 },
            }),
    {
        AngleRatePid { roll: AxisPid::new(), pitch: AxisPid::new(), yaw: AxisPid::new() }
    }
}

/// Raw output sum of one axis over `OUTPUT_DENOM`: the demand plus the
/// proportional, integral and derivative corrections.
pub open spec fn axis_sum(demand: int, error: int, last_error: int, integral: int, config: RateConfig) -> int {
    demand * 1_000_000 + config.kp * error * 1000 + config.ki * integral + config.kd * (error - last_error)
        * 1000
}

/// One tick of one axis: the corrected channel in `[-1000, 1000]` and the
/// axis's new state.
pub open spec fn axis_step(axis: AxisPid, demand: int, rate: int, config: RateConfig) -> (int, AxisPid) {
    let e = demand - rate;
    let i = clamp(axis.integral + e * config.dt_ms, -(config.integral_limit as int), config.integral_limit as int);
    (
        scaled_output(axis_sum(demand, e, axis.last_error as int, i, config), -1000, 1000),
        AxisPid { integral: i as i64, last_error: e as i64 },
    )
}

/// One tick of the angle-rate controller. Unconfigured, it passes the
/// demands through and keeps its state.
pub open spec fn angle_rate_step(
    pid: AngleRatePid,
    demands: Demands,
    vstate: VehicleState,
    config: Option<RateConfig>,
) -> (Demands, AngleRatePid) {
    match config {
        None => (demands, pid),
        Some(c) => {
            let r = axis_step(pid.roll, demands.roll as int, vstate.roll_rate as int, c);
            let p = axis_step(pid.pitch, demands.pitch as int, vstate.pitch_rate as int, c);
            let y = axis_step(pid.yaw, demands.yaw as int, vstate.yaw_rate as int, c);
            (
                Demands { throttle: demands.throttle, roll: r.0 as i32, pitch: p.0 as i32, yaw: y.0 as i32 },
                AngleRatePid { roll: r.1, pitch: p.1, yaw: y.1 },
            )
        },
    }
}

/// Runs one tick of one axis.
pub fn run_axis(axis: AxisPid, demand: i32, rate: i32, config: &RateConfig) -> (r: (i32, AxisPid))
    ensures
        r.0 == axis_step(axis, demand as int, rate as int, *config).0,
        r.1 == axis_step(axis, demand as int, rate as int, *config).1,
        -1000 <= r.0 <= 1000,
{
    let e: i64 = demand as i64 - rate as i64;
    proof {
        lemma_mul_bound(e as int, config.dt_ms as int, 0x1_0000_0000, 0x1_0000_0000);
    }
    let integral = clamp_symmetric(axis.integral as i128 + e as i128 * config.dt_ms as i128, config.integral_limit);
    let de: i128 = e as i128 - axis.last_error as i128;
    proof {
        lemma_mul_bound(config.kp as int, e as int, 0x8000_0000, 0x1_0000_0000);
        lemma_mul_bound(config.ki as int, integral as int, 0x8000_0000, 0x1_0000_0000);
        lemma_mul_bound(config.kd as int, de as int, 0x8000_0000, 0x2_0000_0000_0000_0000);
    }
    let sum: i128 = demand as i128 * 1_000_000 + config.kp as i128 * e as i128 * 1000
        + config.ki as i128 * integral as i128 + config.kd as i128 * de * 1000;
    let out = clamp_scaled(sum, -1000, 1000);
    (out, AxisPid { integral, last_error: e })
}

/// Runs one tick of the angle-rate controller on the attitude channels.
pub fn run_angle_rate(pid: AngleRatePid, demands: &Demands, vstate: &VehicleState, config: &Option<RateConfig>) -> (r:
    (Demands, AngleRatePid))
    ensures
        r == angle_rate_step(pid, *demands, *vstate, *config),
{
    match config {
        None => (*demands, pid),
        Some(c) => {
            let (roll, roll_pid) = run_axis(pid.roll, demands.roll, vstate.roll_rate, c);
            let (pitch, pitch_pid) = run_axis(pid.pitch, demands.pitch, vstate.pitch_rate, c);
            let (yaw, yaw_pid) = run_axis(pid.yaw, demands.yaw, vstate.yaw_rate, c);
            (
                Demands { throttle: demands.throttle, roll, pitch, yaw },
                AngleRatePid { roll: roll_pid, pitch: pitch_pid, yaw: yaw_pid },
            )
        },
    }
}

/// Unconfigured, the angle-rate controller returns the demands exactly as
/// given and its state unchanged.
pub proof fn lemma_unconfigured_pass_through(pid: AngleRatePid, demands: Demands, vstate: VehicleState)
    ensures
        angle_rate_step(pid, demands, vstate, None) == (demands, pid),
{
}

/// Configured, every attitude channel lies in `[-1000, 1000]` and throttle
/// passes through.
pub proof fn lemma_rate_outputs_clamped(pid: AngleRatePid, demands: Demands, vstate: VehicleState, config: RateConfig)
    ensures
        ({
            let out = angle_rate_step(pid, demands, vstate, Some(config)).0;
            &&& -1000 <= out.roll <= 1000
            &&& -1000 <= out.pitch <= 1000
            &&& -1000 <= out.yaw <= 1000
            &&& out.throttle == demands.throttle
        }),
{
}

} // verus!
