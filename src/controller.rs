//! The closed family of controller kinds and the single update entry point.
use vstd::prelude::*;
use crate::alt_hold::{alt_hold_step, run_alt_hold, AltHoldConfig, AltHoldPid};
use crate::angle_rate::{angle_rate_step, run_angle_rate, AngleRatePid, RateConfig};
use crate::datatypes::{Demands, VehicleState};

verus! {

/// A controller of one kind, owning that kind's persistent state.
#[derive(Clone, Copy, Debug, PartialEq, Eq, Structural)]
pub enum PidController {
    Altitude(AltHoldPid),
    AngleRate(AngleRatePid),
}

/// Configuration of every controller kind. A rate controller without a
/// configuration passes its demands through.
#[derive(Clone, Copy, Debug, PartialEq, Eq, Structural)]
pub struct PidConfig {
    pub altitude: AltHoldConfig,
    pub angle_rate: Option<RateConfig>,
}

/// Whether two controllers are of the same kind.
pub open spec fn same_kind(a: PidController, b: PidController) -> bool {
    match (a, b) {
        (PidController::Altitude(_), PidController::Altitude(_)) => true,
        (PidController::AngleRate(_), PidController::AngleRate(_)) => true,
        _ => false,
    }
}

/// One tick of whichever kind the controller is.
pub open spec fn update_step(
    pid: PidController,
    demands: Demands,
    vstate: VehicleState,
    config: PidConfig,
) -> (Demands, PidController) {
    match pid {
        PidController::Altitude(s) => {
            let r = alt_hold_step(s, demands, vstate, config.altitude);
            (r.0, PidController::Altitude(r.1))
        },
        PidController::AngleRate(s) => {
            let r = angle_rate_step(s, demands, vstate, config.angle_rate);
            (r.0, PidController::AngleRate(r.1))
        },
    }
}

/// Consumes the controller and returns the new demands and the controller
/// for the next tick, which is of the same kind.
pub fn update(pid: PidController, demands: &Demands, vstate: &VehicleState, config: &PidConfig) -> (r: (
    Demands,
    PidController,
))
    ensures
        r == update_step(pid, *demands, *vstate, *config),
        same_kind(r.1, pid),
{
    match pid {
        PidController::Altitude(s) => {
            let (out, next) = run_alt_hold(s, demands, vstate, &config.altitude);
            (out, PidController::Altitude(next))
        },
        PidController::AngleRate(s) => {
            let (out, next) = run_angle_rate(s, demands, vstate, &config.angle_rate);
            (out, PidController::AngleRate(next))
        },
    }
}

/// Through the update entry point, an unconfigured rate controller returns
/// the demands exactly as given and itself unchanged.
pub proof fn lemma_update_unconfigured_rate(
    s: AngleRatePid,
    demands: Demands,
    vstate: VehicleState,
    config: PidConfig,
)
    requires
        config.angle_rate is None,
    ensures
        update_step(PidController::AngleRate(s), demands, vstate, config) == (demands, PidController::AngleRate(s)),
{
}

/// An update never changes the controller's kind.
pub proof fn lemma_update_keeps_kind(pid: PidController, demands: Demands, vstate: VehicleState, config: PidConfig)
    ensures
        same_kind(update_step(pid, demands, vstate, config).1, pid),
{
}

} // verus!
