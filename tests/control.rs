use argon_fan::case::{ArgonCase, ArgonV2, ArgonV3};
use argon_fan::config::{Config, ConfigError, FanCurvePoint};
use argon_fan::controller::FanController;
use argon_fan::curve::{evaluate_curve, is_increasing};
use argon_fan::filter::{filter, FILTER_SCALE};
use argon_fan::hysteresis::{transition, ControllerState};

fn sample_curve() -> Vec<FanCurvePoint> {
    vec![
        FanCurvePoint::from_degrees(40, 20),
        FanCurvePoint::from_degrees(60, 50),
        FanCurvePoint::from_degrees(80, 100),
    ]
}

#[test]
fn v2_encodes_speed_as_address() {
    assert_eq!(ArgonV2::i2c_fan_command(37), (37, 0));
    assert_eq!(ArgonV2::i2c_fan_command(0), (0, 0));
}

#[test]
fn v3_encodes_speed_as_payload() {
    assert_eq!(ArgonV3::i2c_fan_command(37), (0x80, 37));
    assert_eq!(ArgonV3::i2c_fan_command(100), (0x80, 100));
}

#[test]
fn curve_step_function() {
    let curve = sample_curve();
    assert_eq!(evaluate_curve(&curve, 39_000), 0);
    assert_eq!(evaluate_curve(&curve, 40_000), 20);
    assert_eq!(evaluate_curve(&curve, 59_900), 20);
    assert_eq!(evaluate_curve(&curve, 60_000), 50);
    assert_eq!(evaluate_curve(&curve, 95_000), 100);
    assert_eq!(evaluate_curve(&curve, -5_000), 0);
}

#[test]
fn empty_curve_gives_zero() {
    assert_eq!(evaluate_curve(&Vec::new(), 70_000), 0);
}

#[test]
fn from_degrees_scales_to_millidegrees() {
    let p = FanCurvePoint::from_degrees(-12, 7);
    assert_eq!(p.temp, -12_000);
    assert_eq!(p.speed, 7);
}

#[test]
fn filter_exact_values() {
    assert_eq!(filter(50_000, 40_000, 300_000), 43_000);
    assert_eq!(filter(40_000, 50_000, 300_000), 47_000);
    assert_eq!(filter(1, 0, 500_000), 0);
    assert_eq!(filter(-1, 0, 500_000), -1);
}

#[test]
fn filter_extreme_factors() {
    assert_eq!(filter(70_000, 42_000, 0), 42_000);
    assert_eq!(filter(70_000, 42_000, FILTER_SCALE), 70_000);
    assert_eq!(filter(i32::MIN, i32::MAX, FILTER_SCALE), i32::MIN);
    assert_eq!(filter(i32::MIN, i32::MAX, 0), i32::MAX);
}

#[test]
fn ramp_up_wins_in_any_state() {
    let (s, c) = transition(ControllerState::Cooldown { cycles: 5 }, 20, 50, 3);
    assert_eq!(s, ControllerState::Regular);
    assert_eq!(c, Some(50));
    let (s, c) = transition(ControllerState::Regular, 20, 50, 3);
    assert_eq!(s, ControllerState::Regular);
    assert_eq!(c, Some(50));
}

#[test]
fn equal_target_is_no_op() {
    assert_eq!(transition(ControllerState::Regular, 50, 50, 3), (ControllerState::Regular, None));
}

#[test]
fn construction_commands_zero() {
    let fc = FanController::new(sample_curve(), 3, FILTER_SCALE, 55_000);
    assert_eq!(fc.current_speed(), 0);
    assert_eq!(fc.smoothed_temp(), 55_000);
    assert_eq!(fc.state(), ControllerState::Regular);
}

#[test]
fn cooldown_delays_drop() {
    let mut fc = FanController::new(sample_curve(), 3, FILTER_SCALE, 30_000);
    assert_eq!(fc.run_once::<ArgonV2>(65_000), Some((50, 0)));
    assert_eq!(fc.current_speed(), 50);
    for _ in 0..3 {
        assert_eq!(fc.run_once::<ArgonV2>(45_000), None);
        assert_eq!(fc.current_speed(), 50);
    }
    assert_eq!(fc.run_once::<ArgonV2>(45_000), Some((20, 0)));
    assert_eq!(fc.current_speed(), 20);
    assert_eq!(fc.state(), ControllerState::Regular);
}

#[test]
fn no_cooldown_drops_at_once() {
    let mut fc = FanController::new(sample_curve(), 0, FILTER_SCALE, 30_000);
    assert_eq!(fc.run_once::<ArgonV3>(85_000), Some((0x80, 100)));
    assert_eq!(fc.run_once::<ArgonV3>(45_000), Some((0x80, 20)));
    assert_eq!(fc.current_speed(), 20);
    assert_eq!(fc.run_once::<ArgonV3>(10_000), Some((0x80, 0)));
    assert_eq!(fc.current_speed(), 0);
}

#[test]
fn rise_during_cooldown_is_immediate() {
    let mut fc = FanController::new(sample_curve(), 5, FILTER_SCALE, 30_000);
    assert_eq!(fc.run_once::<ArgonV2>(65_000), Some((50, 0)));
    assert_eq!(fc.run_once::<ArgonV2>(45_000), None);
    assert_eq!(fc.state(), ControllerState::Cooldown { cycles: 4 });
    assert_eq!(fc.run_once::<ArgonV2>(90_000), Some((100, 0)));
    assert_eq!(fc.state(), ControllerState::Regular);
}

#[test]
fn zero_factor_keeps_smoothed_value() {
    let mut fc = FanController::new(sample_curve(), 0, 0, 50_000);
    assert_eq!(fc.run_once::<ArgonV2>(90_000), Some((20, 0)));
    assert_eq!(fc.smoothed_temp(), 50_000);
    assert_eq!(fc.run_once::<ArgonV2>(10_000), None);
    assert_eq!(fc.smoothed_temp(), 50_000);
}

#[test]
fn smoothing_feeds_the_curve() {
    let mut fc = FanController::new(sample_curve(), 0, 500_000, 30_000);
    assert_eq!(fc.run_once::<ArgonV2>(70_000), Some((20, 0)));
    assert_eq!(fc.smoothed_temp(), 50_000);
}

#[test]
fn shutdown_commands_zero() {
    let mut fc = FanController::new(sample_curve(), 3, FILTER_SCALE, 30_000);
    assert_eq!(fc.run_once::<ArgonV3>(85_000), Some((0x80, 100)));
    assert_eq!(fc.shutdown::<ArgonV3>(), (0x80, 0));
    assert_eq!(fc.current_speed(), 0);
}

#[test]
fn config_accepts_valid() {
    let c = Config::try_new(5, 3, 300_000, sample_curve()).unwrap();
    assert_eq!(c.poll_interval_secs, 5);
    assert_eq!(c.cooldown_cycles, 3);
    assert_eq!(c.filter_factor, 300_000);
    assert_eq!(c.fan_curve, sample_curve());
    assert!(Config::try_new(5, 3, 0, Vec::new()).is_ok());
    assert!(Config::try_new(5, 3, FILTER_SCALE as i64, sample_curve()).is_ok());
}

#[test]
fn config_rejects_filter_factor() {
    assert_eq!(Config::try_new(5, 3, -1, sample_curve()).err(), Some(ConfigError::FilterFactorOutOfRange));
    assert_eq!(
        Config::try_new(5, 3, FILTER_SCALE as i64 + 1, sample_curve()).err(),
        Some(ConfigError::FilterFactorOutOfRange)
    );
}

#[test]
fn config_rejects_unsorted_curve() {
    let flat_speed = vec![FanCurvePoint::from_degrees(40, 20), FanCurvePoint::from_degrees(60, 20)];
    assert_eq!(Config::try_new(5, 3, 0, flat_speed).err(), Some(ConfigError::CurveNotIncreasing));
    let equal_temp = vec![FanCurvePoint::from_degrees(40, 20), FanCurvePoint::from_degrees(40, 30)];
    assert_eq!(Config::try_new(5, 3, 0, equal_temp).err(), Some(ConfigError::CurveNotIncreasing));
    let mut late = sample_curve();
    late.push(FanCurvePoint::from_degrees(70, 120));
    assert!(!is_increasing(&late));
    assert_eq!(
        ConfigError::CurveNotIncreasing.message(),
        "fan_curve: temperatures and speeds must both be increasing"
    );
}
