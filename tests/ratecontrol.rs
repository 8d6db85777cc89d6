use camilladsp::conversion::rate_shift_value;
use camilladsp::ratecontrol::PIRateController;

#[test]
fn fixed_point_at_target() {
    let mut c = PIRateController::new_with_default_gains(48000, 1000, 2048);
    for _ in 0..100 {
        assert_eq!(c.next(2048), 1_000_000);
    }
}

#[test]
fn speed_stays_within_bounds() {
    let mut c = PIRateController::new_with_default_gains(44100, 500, 1000);
    for level in [0u32, u32::MAX, 1000, 1_000_000, 3, 999, u32::MAX, 0, 0, 0] {
        let s = c.next(level);
        assert!((995_000..=1_005_000).contains(&s));
    }
    let mut c = PIRateController::new(1, 1, 0, u32::MAX, u32::MAX, 255, 0);
    for level in [u32::MAX, 0, u32::MAX, u32::MAX, 17] {
        let s = c.next(level);
        assert!((995_000..=1_005_000).contains(&s));
    }
}

#[test]
fn large_excess_slows_capture_down() {
    let mut c = PIRateController::new(48000, 1000, 1000, 200_000, 0, 0, 330_000);
    // 48 frames above target over one second: 0.2 * 48 / 48000 = 200 ppm.
    assert_eq!(c.next(1048), 999_800);
    // 1000 frames below: 0.2 * -1000 / 48000 = -4166.7 ppm, rounded toward zero.
    assert_eq!(c.next(0), 1_004_166);
    // 4000 frames above: clamped at -0.5 %.
    assert_eq!(c.next(5000), 995_000);
}

#[test]
fn ramp_moves_set_point_monotonically() {
    // No integral action and a constant level: the speed follows the set-point.
    // A 60 % trigger: the 50 % deviation does not start a second ramp.
    let mut c = PIRateController::new(48000, 1000, 10000, 10_000, 0, 20, 600_000);
    let mut speeds = Vec::new();
    for _ in 0..20 {
        speeds.push(c.next(5000));
    }
    // The first update aims at the level the ramp starts from: no correction.
    assert_eq!(speeds[0], 1_000_000);
    assert!(speeds[0] < speeds[19]);
    for w in speeds.windows(2) {
        assert!(w[0] <= w[1]);
    }
    // The last ramp step aims just short of the target:
    // 0.01 * -4999.99 / 48000 = -1041.66 ppm, rounded toward zero.
    assert_eq!(speeds[19], 1_001_041);
    // After the ramp the set-point is the target, 5000 frames above the level.
    assert_eq!(c.next(5000), 1_001_041);
}

#[test]
fn converges_on_target() {
    let fs = 48000.0;
    let interval = 1.0;
    let target = 4000u32;
    let mut c = PIRateController::new_with_default_gains(48000, 1000, target);
    let mut level: f64 = target as f64 + 1000.0;
    for _ in 0..200 {
        let speed = c.next(level.round() as u32) as f64 / 1e6;
        level -= (1.0 - speed) * fs * interval;
    }
    assert!((level - target as f64).abs() < 10.0);
}

#[test]
fn rate_shift_rounds() {
    assert_eq!(rate_shift_value(1_000_000), 100000);
    assert_eq!(rate_shift_value(995_000), 99500);
    assert_eq!(rate_shift_value(1_000_004), 100000);
    assert_eq!(rate_shift_value(1_000_005), 100001);
    assert_eq!(rate_shift_value(1_004_999), 100500);
}

#[test]
fn fresh_controller_starts_without_correction() {
    let mut c = PIRateController::new(48000, 1000, 10000, 200_000, 0, 20, 330_000);
    assert_eq!(c.next(5000), 1_000_000);
    let mut c = PIRateController::new(44100, 500, 2000, 200_000, 0, 20, 330_000);
    assert_eq!(c.next(1000), 1_000_000);
    // Second ramp step: set-point 1000 + 1000 * (1 - (19/20)^4) = 1185.49,
    // error -185.49 frames: 0.2 * -185.49 / 22050 = -1682.5 ppm.
    assert_eq!(c.next(1000), 1_001_682);
}
