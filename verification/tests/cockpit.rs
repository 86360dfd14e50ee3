use gt6n::cockpit::{add_cockpit, lamp_output, CockpitRearState};
use gt6n::cockpit_elements::{Cockpit, CockpitInputs, Richtungswender, Sollwertgeber, Tacho};
use gt6n::cockpit_types::{
    BlinkerSwitch, DoorSwitch, OutsideLightSwitch, RichtungswenderState,
};
use gt6n::lights::{add_lights, BlinkerState, BlinkgeberState};
use gt6n::misc::{add_misc, rumpeln_pitch, weichen_rumpeln};
use gt6n::tech_elements::{step_switch_step, StepSwitchProperties};

#[test]
fn richtungswender_steps_and_angles() {
    let mut r = Richtungswender { state: RichtungswenderState::O };
    assert_eq!(r.angle(), 0);
    r.plus();
    assert_eq!(r.state, RichtungswenderState::I);
    assert_eq!(r.angle(), 29);
    r.plus();
    assert_eq!(r.angle(), 58);
    r.plus();
    assert_eq!(r.state, RichtungswenderState::R);
    assert_eq!(r.angle(), 135);
    // held at the top
    r.plus();
    assert_eq!(r.state, RichtungswenderState::R);
    r.minus();
    assert_eq!(r.state, RichtungswenderState::V);
    assert_eq!(r.tick(), 58);
}

#[test]
fn sollwertgeber_integrates_and_clamps() {
    let mut s = Sollwertgeber { state: 0 };
    s.moving(1_000_000, 500_000);
    assert_eq!(s.state, 500_000);
    s.moving(1_000_000, 10_000_000);
    assert_eq!(s.state, 1_000_000);
    s.set(-2_000_000);
    assert_eq!(s.state, -1_000_000);
    s.set(0);
    assert_eq!(s.state, 0);
}

#[test]
fn tacho_shows_the_speed_magnitude() {
    let t = Tacho::new(String::from("v_Axle_mps_0_1_abs"), String::from("v_Axle_mps_0_1"));
    assert_eq!(t.tick(2_300_000), 2_300_000);
    assert_eq!(t.tick(-2_300_000), 2_300_000);
}

#[test]
fn cockpit_drive_scenario() {
    let mut c = Cockpit::new();
    let both_up = CockpitInputs {
        reverser_plus: true,
        reverser_minus: false,
        throttle: false,
        brake: false,
        neutral: false,
    };
    c.tick(&both_up, 0, 16_000);
    c.tick(&both_up, 0, 16_000);
    assert_eq!(c.richtungswender.state, RichtungswenderState::V);

    let hold_throttle = CockpitInputs {
        reverser_plus: false,
        reverser_minus: false,
        throttle: true,
        brake: false,
        neutral: false,
    };
    let out = c.tick(&hold_throttle, -2_300_000, 500_000);
    assert_eq!(c.sollwertgeber.state, 500_000);
    assert_eq!(out.sollwertgeber_position, 500_000);
    assert_eq!(out.richtungswender_angle, 58);
    assert_eq!(out.tacho_value, 2_300_000);

    // forward: the positive side of the handle drives
    assert_eq!(c.target_traction(), 500_000);
    assert_eq!(c.target_brake(), 0);

    // in reverse the demand reverses
    c.tick(&both_up, 0, 16_000);
    assert_eq!(c.richtungswender.state, RichtungswenderState::R);
    assert_eq!(c.target_traction(), -500_000);

    // the braking side becomes the brake demand
    let neutral = CockpitInputs {
        reverser_plus: false,
        reverser_minus: false,
        throttle: false,
        brake: true,
        neutral: false,
    };
    c.tick(&neutral, 0, 700_000);
    assert_eq!(c.sollwertgeber.state, -200_000);
    assert_eq!(c.target_traction(), 0);
    assert_eq!(c.target_brake(), 200_000);
}

#[test]
fn cockpit_types_step_through_their_positions() {
    assert_eq!(RichtungswenderState::O.next(), RichtungswenderState::I);
    assert_eq!(RichtungswenderState::R.next(), RichtungswenderState::R);
    assert_eq!(RichtungswenderState::I.previous(), RichtungswenderState::O);
    assert_eq!(RichtungswenderState::from_index(2), RichtungswenderState::V);
    assert_eq!(RichtungswenderState::V.index(), 2);
    assert_eq!(RichtungswenderState::from_index(9), RichtungswenderState::O);

    assert_eq!(BlinkerSwitch::Off.next(), BlinkerSwitch::Right);
    assert_eq!(BlinkerSwitch::Off.previous(), BlinkerSwitch::Left);
    assert_eq!(BlinkerSwitch::Right.next(), BlinkerSwitch::Right);

    assert_eq!(OutsideLightSwitch::Off.next(), OutsideLightSwitch::Stand);
    assert_eq!(OutsideLightSwitch::Fern.next(), OutsideLightSwitch::Fern);
    assert_eq!(OutsideLightSwitch::Abblend.previous(), OutsideLightSwitch::Stand);

    assert_eq!(DoorSwitch::Closed.next(), DoorSwitch::Released);
    assert_eq!(DoorSwitch::Tuer1.previous(), DoorSwitch::Tuer1);
}

#[test]
fn step_switch_tables_carry_the_animation_values() {
    let sound = Some(String::from("Snd_CP_A_Switch"));
    let rows = RichtungswenderState::generate_with_this_sound(&sound);
    assert_eq!(rows.len(), 4);
    assert_eq!(rows[3].output, 135_000_000);
    assert_eq!(rows[3].sound, sound);

    let rows = DoorSwitch::generate_with_this_sound(&None);
    assert_eq!(rows[0].output, -1_000_000);
    assert_eq!(rows[0].sound, None);

    let rows = BlinkerSwitch::generate_with_this_sound(&None);
    assert_eq!(rows.len(), 3);
    assert_eq!(rows[2].output, 2_000_000);

    let rows = OutsideLightSwitch::generate_with_this_sound(&None);
    assert_eq!(rows[3].output, 3_000_000);
}

#[test]
fn step_switch_step_holds_at_the_ends() {
    let prop = StepSwitchProperties {
        position_max: 3,
        position_min: 0,
        input_event_plus: String::from("WiperPlus"),
        input_event_minus: String::from("WiperMinus"),
        animation_var: None,
        sound_move: None,
    };
    assert_eq!(step_switch_step(&prop, 1, true), (2, true));
    assert_eq!(step_switch_step(&prop, 3, true), (3, false));
    assert_eq!(step_switch_step(&prop, 0, false), (0, false));
}

#[test]
fn blinker_state_sides() {
    assert!(!BlinkerState::Aus.is_active());
    assert!(BlinkerState::Links.is_active());
    assert!(BlinkerState::Links.is_links_active());
    assert!(!BlinkerState::Links.is_rechts_active());
    assert!(BlinkerState::Warn.is_links_active());
    assert!(BlinkerState::Warn.is_rechts_active());
    assert!(BlinkerState::Warn.is_warn_active());
    assert!(!BlinkerState::Rechts.is_warn_active());
}

#[test]
fn blinkgeber_toggles_at_the_phase_limits() {
    let mut b = BlinkgeberState { running: true, on: true, first: true, timer: 0 };
    // the first on-phase is short
    assert_eq!(b.get_timer_limit(), 200_000);
    assert!(!b.update(150_000));
    assert!(b.on);
    assert!(b.update(100_000));
    assert!(!b.on);
    // the first off-phase is long
    assert_eq!(b.get_timer_limit(), 560_000);
    assert!(b.update(600_000));
    assert!(b.on);
    // after coming on again the steady pair applies
    assert!(!b.first);
    assert_eq!(b.get_timer_limit(), 320_000);
    // stopped, the lamps go dark without a click
    b.running = false;
    assert!(!b.update(16_000));
    assert!(!b.on);
}

#[test]
fn light_tick_gates_every_lamp_on_the_voltage() {
    let mut l = add_lights();
    l.voltage.set(1_000_000);
    l.stand.set(true);
    l.brems.set(true);
    let mut bg = BlinkgeberState::default();
    let out = l.tick(&mut bg, 16_000);
    assert_eq!(out.stand, 1_000_000);
    assert_eq!(out.brems, 1_000_000);
    assert_eq!(out.abblend, 0);
    assert_eq!(out.blinker_left, 0);
    assert!(!out.relais_on_sound);
}

#[test]
fn light_tick_restarts_the_blinker_on_activity() {
    let mut l = add_lights();
    l.voltage.set(1_000_000);
    l.blinker_state.set(BlinkerState::Warn);
    let mut bg = BlinkgeberState::default();
    let out = l.tick(&mut bg, 16_000);
    // the relay starts in its first on-phase: both sides lit
    assert!(bg.running && bg.on && bg.first);
    assert_eq!(out.blinker_left, 1_000_000);
    assert_eq!(out.blinker_right, 1_000_000);
    assert!(l.lm_warnblinker.get());
    // after the first on-phase the lamps go dark with the off-click
    let out = l.tick(&mut bg, 200_000);
    assert!(out.relais_off_sound);
    assert_eq!(out.blinker_left, 0);
}

#[test]
fn lamp_output_levels() {
    assert_eq!(lamp_output(true, false, 1_000_000), 1_000_000);
    assert_eq!(lamp_output(false, true, 1_000_000), 1_000_000);
    assert_eq!(lamp_output(false, false, 1_000_000), 0);
}

#[test]
fn cockpit_cells_start_at_rest() {
    let c = add_cockpit();
    assert_eq!(c.richtungswender.get(), RichtungswenderState::O);
    assert_eq!(c.sollwertgeber.get(), 0);
    assert_eq!(c.tueren.get(), DoorSwitch::Closed);
    assert!(!c.lm_check.get());
    let _rear = CockpitRearState {};
}

#[test]
fn misc_pitch_and_rumble() {
    let m = add_misc();
    assert!(!m.klingel.get());
    assert!(weichen_rumpeln(true, false));
    assert!(!weichen_rumpeln(false, false));
    // 18 m/s of axle speed adds one full unit to the base pitch
    assert_eq!(rumpeln_pitch(18_000_000), 1_900_000);
    assert_eq!(rumpeln_pitch(-18_000_000), 1_900_000);
    assert_eq!(rumpeln_pitch(0), 900_000);
}
