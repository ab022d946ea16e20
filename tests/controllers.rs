use pids::alt_hold::{run_alt_hold, AltHoldConfig, AltHoldPid};
use pids::angle_rate::{run_angle_rate, run_axis, AngleRatePid, AxisPid, RateConfig};
use pids::boundary::rust_run_alt_hold;
use pids::controller::{update, PidConfig, PidController};
use pids::datatypes::{Demands, VehicleState};
use pids::scale::{clamp_scaled, clamp_symmetric};

fn alt_config() -> AltHoldConfig {
    AltHoldConfig {
        hover_throttle: 500,
        kp: 200,
        ki: 10,
        kd: 100,
        deadband: 500,
        dt_ms: 10,
        integral_limit: 100_000,
    }
}

fn rate_config() -> RateConfig {
    RateConfig { kp: 500, ki: 0, kd: 0, dt_ms: 10, integral_limit: 1000 }
}

fn level(altitude: i32, climb_rate: i32) -> VehicleState {
    VehicleState::new(altitude, climb_rate, 0, 0, 0)
}

#[test]
fn hover_at_target() {
    let pid = AltHoldPid::new(10_000, 0);
    let d = Demands::new(0, 10, -20, 30);
    let (out, next) = run_alt_hold(pid, &d, &level(10_000, 0), &alt_config());
    assert_eq!(out.throttle, 500);
    assert_eq!((out.roll, out.pitch, out.yaw), (10, -20, 30));
    assert!(next.in_band);
    assert_eq!(next.error_integral, 0);
    assert_eq!(next.target, 10_000);
    assert_eq!(next.throttle, 500);
}

#[test]
fn hover_at_target_keeps_prior_integral() {
    let pid = AltHoldPid { error_integral: 4000, in_band: true, target: 10_000, throttle: 500 };
    let (out, next) = run_alt_hold(pid, &Demands::new(0, 0, 0, 0), &level(10_000, 0), &alt_config());
    assert_eq!(next.error_integral, 4000);
    // 500 + 10 * 4000 / 1e6 thousandths, rounded down
    assert_eq!(out.throttle, 500);
}

#[test]
fn far_below_target_saturates() {
    let pid = AltHoldPid { error_integral: 300, in_band: true, target: 10_000, throttle: 500 };
    let cfg = AltHoldConfig { ki: 0, kd: 0, ..alt_config() };
    let (out, next) = run_alt_hold(pid, &Demands::new(0, 0, 0, 0), &level(0, 0), &cfg);
    assert!(!next.in_band);
    assert_eq!(next.error_integral, 300);
    assert_eq!(out.throttle, 1000);
    assert_eq!(next.throttle, 1000);
}

#[test]
fn proportional_term_exact() {
    let pid = AltHoldPid::new(10_000, 0);
    let cfg = AltHoldConfig { deadband: 0, ..alt_config() };
    // error 1 m: 500 + 200 = 700 thousandths
    let (out, next) = run_alt_hold(pid, &Demands::new(0, 0, 0, 0), &level(9000, 0), &cfg);
    assert_eq!(out.throttle, 700);
    assert!(!next.in_band);
}

#[test]
fn all_terms_exact() {
    let pid = AltHoldPid::new(10_000, 0);
    // error 200 mm, integral 2000, descending at 100 mm/s:
    // 500 + 40 + 0.02 + 10 thousandths
    let (out, next) = run_alt_hold(pid, &Demands::new(0, 0, 0, 0), &level(9800, -100), &alt_config());
    assert_eq!(next.error_integral, 2000);
    assert_eq!(out.throttle, 550);
}

#[test]
fn in_band_integral_follows_error_sign() {
    let pid = AltHoldPid { error_integral: 100, in_band: false, target: 10_000, throttle: 500 };
    let (_, up) = run_alt_hold(pid, &Demands::new(0, 0, 0, 0), &level(9900, 0), &alt_config());
    assert!(up.in_band);
    assert_eq!(up.error_integral, 1100);
    let (_, down) = run_alt_hold(pid, &Demands::new(0, 0, 0, 0), &level(10_100, 0), &alt_config());
    assert!(down.in_band);
    assert_eq!(down.error_integral, -900);
}

#[test]
fn in_band_integral_held_to_limit() {
    let cfg = AltHoldConfig { integral_limit: 1500, ..alt_config() };
    let pid = AltHoldPid { error_integral: 1000, in_band: true, target: 10_000, throttle: 500 };
    let (_, next) = run_alt_hold(pid, &Demands::new(0, 0, 0, 0), &level(9900, 0), &cfg);
    assert_eq!(next.error_integral, 1500);
    let pid = AltHoldPid { error_integral: -1000, ..pid };
    let (_, next) = run_alt_hold(pid, &Demands::new(0, 0, 0, 0), &level(10_100, 0), &cfg);
    assert_eq!(next.error_integral, -1500);
}

#[test]
fn deadband_edge_is_out_of_band() {
    let pid = AltHoldPid { error_integral: 700, in_band: true, target: 10_000, throttle: 500 };
    let (_, above) = run_alt_hold(pid, &Demands::new(0, 0, 0, 0), &level(10_500, 0), &alt_config());
    assert!(!above.in_band);
    assert_eq!(above.error_integral, 700);
    let (_, below) = run_alt_hold(pid, &Demands::new(0, 0, 0, 0), &level(9501, 0), &alt_config());
    assert!(below.in_band);
    assert_eq!(below.error_integral, 700 + 499 * 10);
}

#[test]
fn extreme_inputs_stay_clamped() {
    let cfg = AltHoldConfig { kp: i32::MAX, ki: i32::MAX, kd: i32::MAX, ..alt_config() };
    let pid = AltHoldPid { error_integral: i64::MAX, in_band: false, target: i32::MAX, throttle: 0 };
    let (out, _) = run_alt_hold(pid, &Demands::new(0, 0, 0, 0), &level(i32::MIN, i32::MIN), &cfg);
    assert_eq!(out.throttle, 1000);
    let pid = AltHoldPid { error_integral: i64::MIN, in_band: false, target: i32::MIN, throttle: 0 };
    let (out, _) = run_alt_hold(pid, &Demands::new(0, 0, 0, 0), &level(i32::MAX, i32::MAX), &cfg);
    assert_eq!(out.throttle, 0);
}

#[test]
fn second_tick_at_target_does_not_wind_up() {
    let cfg = AltHoldConfig { integral_limit: 2000, ..alt_config() };
    let pid = AltHoldPid { error_integral: 5000, in_band: false, target: 10_000, throttle: 500 };
    let (d1, s1) = run_alt_hold(pid, &Demands::new(0, 0, 0, 0), &level(10_000, 0), &cfg);
    assert_eq!(s1.error_integral, 2000);
    let (_, s2) = run_alt_hold(s1, &d1, &level(10_000, 0), &cfg);
    assert!(s2.error_integral.abs() <= s1.error_integral.abs());
    assert_eq!(s2.error_integral, 2000);
}

#[test]
fn unconfigured_rate_passes_through() {
    let pid = PidController::AngleRate(AngleRatePid {
        roll: AxisPid { integral: 7, last_error: -3 },
        pitch: AxisPid::new(),
        yaw: AxisPid { integral: -9, last_error: 1 },
    });
    let cfg = PidConfig { altitude: alt_config(), angle_rate: None };
    let d = Demands::new(123, -456, 789, -1000);
    let (out, next) = update(pid, &d, &VehicleState::new(5, 6, 7, 8, 9), &cfg);
    assert_eq!(out, d);
    assert_eq!(next, pid);
}

#[test]
fn configured_rate_corrects_each_axis() {
    let d = Demands::new(321, 200, -300, 0);
    let v = VehicleState::new(0, 0, 100, -100, 0);
    let (out, next) = run_angle_rate(AngleRatePid::new(), &d, &v, &Some(rate_config()));
    assert_eq!(out, Demands::new(321, 250, -400, 0));
    assert_eq!(next.roll, AxisPid { integral: 1000, last_error: 100 });
    assert_eq!(next.pitch, AxisPid { integral: -1000, last_error: -200 });
    assert_eq!(next.yaw, AxisPid { integral: 0, last_error: 0 });
}

#[test]
fn rate_derivative_rounds_down() {
    let cfg = RateConfig { kp: 0, ki: 0, kd: 1, dt_ms: 10, integral_limit: 1000 };
    let (out, next) = run_axis(AxisPid { integral: 0, last_error: 1 }, 0, 0, &cfg);
    assert_eq!(out, -1);
    assert_eq!(next, AxisPid { integral: 0, last_error: 0 });
    let cfg = RateConfig { kd: 100, ..cfg };
    let (out, _) = run_axis(AxisPid { integral: 0, last_error: 50 }, 0, 0, &cfg);
    assert_eq!(out, -5);
}

#[test]
fn rate_outputs_clamped() {
    let cfg = RateConfig { kp: i32::MAX, ..rate_config() };
    let (out, _) = run_axis(AxisPid::new(), 1000, -1000, &cfg);
    assert_eq!(out, 1000);
    let (out, _) = run_axis(AxisPid::new(), -1000, 1000, &cfg);
    assert_eq!(out, -1000);
}

#[test]
fn update_dispatches_altitude() {
    let s = AltHoldPid::new(10_000, 0);
    let cfg = PidConfig { altitude: alt_config(), angle_rate: None };
    let d = Demands::new(0, 1, 2, 3);
    let v = level(9800, -100);
    let (out, next) = update(PidController::Altitude(s), &d, &v, &cfg);
    let (want_out, want_state) = run_alt_hold(s, &d, &v, &alt_config());
    assert_eq!(out, want_out);
    assert_eq!(next, PidController::Altitude(want_state));
}

#[test]
fn update_keeps_rate_kind() {
    let cfg = PidConfig { altitude: alt_config(), angle_rate: Some(rate_config()) };
    let (_, next) = update(PidController::AngleRate(AngleRatePid::new()), &Demands::new(0, 200, 0, 0), &level(0, 0), &cfg);
    assert!(matches!(next, PidController::AngleRate(_)));
}

#[test]
fn boundary_matches_pure_update() {
    let zero = AltHoldPid { error_integral: 0, in_band: false, target: 0, throttle: 0 };
    let d = Demands::new(0, 0, 0, 0);
    let state = rust_run_alt_hold(&d, 0, 0, &zero, &alt_config());
    let (out, want) = run_alt_hold(zero, &d, &level(0, 0), &alt_config());
    assert_eq!(state, want);
    assert_eq!(state.throttle, out.throttle);
    assert_eq!(state.throttle, 500);
    assert!(state.in_band);
}

#[test]
fn boundary_recomputes_throttle() {
    let zero = AltHoldPid { error_integral: 0, in_band: false, target: 0, throttle: 0 };
    let state = rust_run_alt_hold(&Demands::new(0, 0, 0, 0), -1000, 0, &zero, &alt_config());
    assert_eq!(state.throttle, 700);
    assert!(!state.in_band);
}

#[test]
fn scaled_clamp_rounds_down() {
    assert_eq!(clamp_scaled(1_999_999, 0, 1000), 1);
    assert_eq!(clamp_scaled(-1, -1000, 1000), -1);
    assert_eq!(clamp_scaled(-1, 0, 1000), 0);
    assert_eq!(clamp_scaled(i128::MAX, 0, 1000), 1000);
    assert_eq!(clamp_symmetric(-5000, 2000), -2000);
    assert_eq!(clamp_symmetric(123, 2000), 123);
}
