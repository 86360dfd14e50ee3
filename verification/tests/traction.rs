use gt6n::tech_elements::brake::{
    add_brake_combination, add_rail_brake, add_sanding_unit, BrakeCombinationElement,
    BrakeCombinationProperties, RailBrakeProperties,
};
use gt6n::tech_elements::traction::{
    add_three_phase_traction_unit, ThreePhaseTractionUnitProperties, TractionUnitMode,
};
use gt6n::traction::{add_traction, traction_control_new, TractionDirection};

fn unit_props() -> ThreePhaseTractionUnitProperties {
    ThreePhaseTractionUnitProperties {
        max_force_acceleration: 16_000,
        max_power_acceleration: 100_000,
        max_force_braking: 16_000,
        max_force_braking_per_speed: 10_000,
        set_traction_max_reverse_speed: 1_000_000,
        delay_exponent: 10_000_000,
        voltage_min: 800_000,
        }
}

#[test]
fn traction_unit_builds_force_toward_the_demand() {
    let prop = unit_props();
    let mut u = add_three_phase_traction_unit();
    // a full blend factor lands on the demand at once
    u.tick(&prop, TractionUnitMode::Forward, 1_000_000, 0, 1_000_000, None, 1_000_000);
    assert_eq!(u.current_force_normalized.get(), 1_000_000);
    // at rest the power limit is far above the force limit
    assert_eq!(u.wheel_force.get(), 16_000);
}

#[test]
fn traction_unit_power_limits_the_force_at_speed() {
    let prop = unit_props();
    let mut u = add_three_phase_traction_unit();
    // at 10 m/s the power limit gives 10 kN, below the force limit
    u.tick(&prop, TractionUnitMode::Forward, 1_000_000, 10_000_000, 1_000_000, None,
        1_000_000);
    assert_eq!(u.wheel_force.get(), 10_000);
}

#[test]
fn traction_unit_cuts_off_without_voltage() {
    let prop = unit_props();
    let mut u = add_three_phase_traction_unit();
    u.tick(&prop, TractionUnitMode::Forward, 1_000_000, 0, 1_000_000, None, 1_000_000);
    assert_eq!(u.current_force_normalized.get(), 1_000_000);
    u.tick(&prop, TractionUnitMode::Forward, 1_000_000, 0, 500_000, None, 1_000_000);
    assert_eq!(u.current_force_normalized.get(), 0);
    assert_eq!(u.wheel_force.get(), 0);
    // and with the main switch out
    u.tick(&prop, TractionUnitMode::Forward, 1_000_000, 0, 1_000_000, Some(false),
        1_000_000);
    assert_eq!(u.wheel_force.get(), 0);
}

#[test]
fn traction_unit_brakes_against_the_rolling_direction() {
    let prop = unit_props();
    let mut u = add_three_phase_traction_unit();
    // rolling forward at 4 m/s, braking: force goes negative
    u.tick(&prop, TractionUnitMode::Brake, 1_000_000, 4_000_000, 1_000_000, None, 1_000_000);
    assert_eq!(u.current_force_normalized.get(), -1_000_000);
    // the braking slope at 4 m/s: 40 kN capped at 16 kN
    assert_eq!(u.wheel_force.get(), -16_000);
    // the slope below the cap: 1 m/s gives 10 kN
    u.tick(&prop, TractionUnitMode::Brake, 1_000_000, 1_000_000, 1_000_000, None, 1_000_000);
    assert_eq!(u.wheel_force.get(), -10_000);
}

#[test]
fn control_emergency_demand() {
    // MaxBrake-deep handle: full braking demand and a full hydraulic blend
    let mut c = traction_control_new();
    let out = c.tick(TractionDirection::Forward, -960_000, 0, false, 0);
    assert_eq!(out.traction_mode, TractionUnitMode::Brake);
    assert_eq!(out.target_force, 1_000_000);
    assert_eq!(out.hydraulic_brake_target, 1_000_000);
    assert_eq!(out.parking_brake_target, 0);
}

#[test]
fn control_scales_braking_demand_up() {
    let mut c = traction_control_new();
    // drive first so the hold latch releases
    c.tick(TractionDirection::Forward, 500_000, 200_000, false, 0);
    let out = c.tick(TractionDirection::Forward, -500_000, 200_000, false, 0);
    // the braking side of the handle is scaled up by one ninth
    assert_eq!(out.target_force, 555_500);
    assert_eq!(out.traction_mode, TractionUnitMode::Brake);
    // the hydraulic brake blends the demand in below the blend-over speed
    assert_eq!(out.hydraulic_brake_target, 475_508);
}

#[test]
fn control_cuts_traction_above_top_speed() {
    let mut c = traction_control_new();
    let out = c.tick(TractionDirection::Forward, 500_000, 17_000_000, false, 0);
    assert_eq!(out.traction_mode, TractionUnitMode::Off);
    assert_eq!(out.target_force, 0);
    // in reverse the (lower) reverse top speed counts
    let out = c.tick(TractionDirection::Backward, 500_000, -5_000_000, false, 0);
    assert_eq!(out.traction_mode, TractionUnitMode::Off);
    let out = c.tick(TractionDirection::Backward, 500_000, -3_000_000, false, 0);
    assert_eq!(out.traction_mode, TractionUnitMode::Backward);
}

#[test]
fn control_holds_the_vehicle_at_rest() {
    let mut c = traction_control_new();
    // at rest without demand the hydraulic brake holds the vehicle
    let out = c.tick(TractionDirection::Forward, 0, 0, false, 0);
    assert_eq!(out.hydraulic_brake_target, 1_000_000);
    // with the parking brake applied, the parking brake holds instead
    let out = c.tick(TractionDirection::Forward, 0, 0, true, 0);
    assert_eq!(out.parking_brake_target, 1_000_000);
    assert_eq!(out.hydraulic_brake_target, 0);
}

#[test]
fn control_fires_the_stopping_jolt_once() {
    let mut c = traction_control_new();
    c.tick(TractionDirection::Forward, 0, 500_000, false, 0);
    let out = c.tick(TractionDirection::Forward, 0, 0, false, 0);
    assert!(out.halteruck);
    let out = c.tick(TractionDirection::Forward, 0, 0, false, 0);
    assert!(!out.halteruck);
}

#[test]
fn control_brake_squeal_follows_the_wheel_force() {
    let mut c = traction_control_new();
    c.tick(TractionDirection::Forward, 500_000, 200_000, false, 0);
    let out = c.tick(TractionDirection::Forward, -500_000, 200_000, false, -8_000);
    // 8 kN of 16 kN full force: half level
    assert_eq!(out.brake_flirr, 500_000);
}

#[test]
fn traction_state_starts_at_rest() {
    let s = add_traction();
    assert_eq!(s.direction.get(), TractionDirection::Forward);
    assert_eq!(s.target.get(), 0);
    assert!(!s.federspeicher.get());
}

#[test]
fn brake_combination_sums_its_elements() {
    let prop = BrakeCombinationProperties {
        variable: String::from("MBrake_Axle_N_0_1"),
        elements: vec![
            BrakeCombinationElement { reference_force: 16_000, exponent: 10_000_000 },
            BrakeCombinationElement { reference_force: 10_000, exponent: 10_000_000 },
        ],
    };
    let mut b = add_brake_combination(&prop);
    // a full blend factor lands each element on its demand at once
    let total = b.tick(&prop, &vec![1_000_000, 500_000], 1_000_000);
    assert_eq!(total, 16_000 + 5_000);
    let total = b.tick(&prop, &vec![0, 0], 1_000_000);
    assert_eq!(total, 0);
}

#[test]
fn rail_brake_engages_with_voltage() {
    let prop = RailBrakeProperties {
        reference_force: 128_000,
        min_voltage: Some(800_000),
        sound_pitch_base: 800_000,
        sound_pitch_per_mps: 50_000,
    };
    let mut r = add_rail_brake();
    let out = r.tick(&prop, true, 1_000_000, 2_000_000);
    assert_eq!(out.force, 128_000);
    assert!(out.sound_control);
    assert_eq!(out.sound_volume, Some(1_000_000));
    // pitch: base plus the speed contribution (2 m/s times 0.05)
    assert_eq!(out.sound_pitch, Some(900_000));
    // under-voltage drops it out, with the release volume
    let out = r.tick(&prop, true, 500_000, 2_000_000);
    assert_eq!(out.force, 0);
    assert_eq!(out.sound_volume, Some(-500_000));
    assert!(!out.sound_control);
}

#[test]
fn sanding_unit_debounces_the_command() {
    let mut s = add_sanding_unit();
    // the rising edge starts the sounds at once but the effect only after
    // a second
    let (emit, cmd) = s.tick(true, 500_000);
    assert_eq!(emit, None);
    assert!(cmd.start);
    let (emit, _) = s.tick(true, 600_000);
    assert_eq!(emit, Some(true));
    // dropping the command releases the effect at once
    let (emit, cmd) = s.tick(false, 16_000);
    assert_eq!(emit, Some(false));
    assert!(cmd.stop);
}
