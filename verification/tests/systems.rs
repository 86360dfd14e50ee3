use gt6n::cockpit::add_cockpit;
use gt6n::cockpit_types::{BlinkerSwitch, DoorSwitch, OutsideLightSwitch, RichtungswenderState};
use gt6n::doors::doors;
use gt6n::lights::BlinkerState;
use gt6n::passenger_elements::passenger_elements;
use gt6n::systems_interface::{
    blinker_state_of, cockpit_a_active, cockpit_a_drive, door_wiring_new, federspeicher_new,
    inside_lights, mg_target, outside_lights, sanding_unit_new, traction_direction,
    traction_target,
};
use gt6n::tech_elements::cockpit_simple::TimedButtonProperties;
use gt6n::tech_elements::doors::DoorControlMode;
use gt6n::traction::TractionDirection;

#[test]
fn cab_activity_follows_the_selector() {
    assert!(!cockpit_a_active(RichtungswenderState::O));
    assert!(cockpit_a_active(RichtungswenderState::I));
    assert!(!cockpit_a_drive(RichtungswenderState::I));
    assert!(cockpit_a_drive(RichtungswenderState::V));
    assert!(cockpit_a_drive(RichtungswenderState::R));
}

#[test]
fn traction_wiring_decisions() {
    assert_eq!(
        traction_direction(true, RichtungswenderState::V),
        TractionDirection::Forward
    );
    assert_eq!(
        traction_direction(true, RichtungswenderState::R),
        TractionDirection::Backward
    );
    assert_eq!(
        traction_direction(true, RichtungswenderState::I),
        TractionDirection::Neutral
    );
    assert_eq!(
        traction_direction(false, RichtungswenderState::V),
        TractionDirection::Neutral
    );

    // the braking side is scaled up by one ninth, the throttle side not
    assert_eq!(traction_target(true, -500_000), -555_500);
    assert_eq!(traction_target(true, 500_000), 500_000);
    assert_eq!(traction_target(false, 500_000), 0);

    assert!(mg_target(true, true));
    assert!(!mg_target(false, true));
}

#[test]
fn light_wiring_decisions() {
    let out = outside_lights(true, OutsideLightSwitch::Fern, RichtungswenderState::R,
        -100_000);
    assert!(out.standlicht && out.abblend && out.fern && out.rueckfahr && out.brems);
    let out = outside_lights(false, OutsideLightSwitch::Fern, RichtungswenderState::V,
        100_000);
    // position lights stay, the beams need an occupied cockpit
    assert!(out.standlicht && !out.abblend && !out.fern && !out.rueckfahr && !out.brems);
    let out = outside_lights(true, OutsideLightSwitch::Stand, RichtungswenderState::V, 0);
    assert!(out.standlicht && !out.abblend);

    // hazard beats the lever, the lever needs an occupied cockpit
    assert_eq!(blinker_state_of(true, true, BlinkerSwitch::Left), BlinkerState::Warn);
    assert_eq!(blinker_state_of(true, false, BlinkerSwitch::Left), BlinkerState::Links);
    assert_eq!(blinker_state_of(true, false, BlinkerSwitch::Right), BlinkerState::Rechts);
    assert_eq!(blinker_state_of(false, false, BlinkerSwitch::Left), BlinkerState::Aus);

    assert_eq!(inside_lights(0), (false, false));
    assert_eq!(inside_lights(1), (false, true));
    assert_eq!(inside_lights(2), (true, true));
}

#[test]
fn federspeicher_applies_after_the_delay() {
    let mut f = federspeicher_new();
    // without a driving direction the brake is demanded; the change is
    // armed but not yet applied
    assert_eq!(f.tick(false, false, false, 16_000), None);
    assert_eq!(f.tick(false, false, false, 150_000), None);
    assert_eq!(f.tick(false, false, false, 150_000), Some(true));
    // driving releases it, again after the delay
    assert_eq!(f.tick(true, true, false, 16_000), None);
    assert_eq!(f.tick(true, true, false, 300_000), Some(false));
    // the override applies it while the cockpit is occupied
    assert_eq!(f.tick(true, true, true, 16_000), None);
    assert_eq!(f.tick(true, true, true, 300_000), Some(true));
}

#[test]
fn sanding_commits_only_on_change() {
    let mut s = sanding_unit_new();
    assert_eq!(s.tick(true, true), Some(true));
    assert_eq!(s.tick(true, true), None);
    assert_eq!(s.tick(true, false), Some(false));
    assert_eq!(s.tick(false, false), None);
}

#[test]
fn door_wiring_releases_and_requests() {
    let mut wiring = door_wiring_new();
    let mut d = doors();
    let mut cockpit = add_cockpit();
    let passenger = passenger_elements();

    // switch on open, standing still: everything released and requested
    cockpit.tueren.set(DoorSwitch::Open);
    let out = wiring.tick(&mut d, &mut cockpit, &passenger, 0, 16_000);
    assert!(out.release_lamp);
    assert!(d.released.get());
    for i in 0..4 {
        assert!(d.requests[i].get());
    }

    // moving fast: nothing released
    let out = wiring.tick(&mut d, &mut cockpit, &passenger, 2_000_000, 16_000);
    assert!(!out.release_lamp);
    assert!(!d.released.get());
    for i in 0..4 {
        assert!(!d.requests[i].get());
    }
}

#[test]
fn door_override_cycles_on_the_first_door_position() {
    let mut wiring = door_wiring_new();
    let mut d = doors();
    let mut cockpit = add_cockpit();
    let passenger = passenger_elements();

    assert_eq!(d.door_1_override.get(), DoorControlMode::Automatic);

    // entering the first-door position cycles the override
    cockpit.tueren.set(DoorSwitch::Tuer1);
    wiring.tick(&mut d, &mut cockpit, &passenger, 0, 16_000);
    assert_eq!(d.door_1_override.get(), DoorControlMode::Open);
    // holding it there does not cycle again
    wiring.tick(&mut d, &mut cockpit, &passenger, 0, 16_000);
    assert_eq!(d.door_1_override.get(), DoorControlMode::Open);
    // leaving and entering again cycles on
    cockpit.tueren.set(DoorSwitch::Closed);
    wiring.tick(&mut d, &mut cockpit, &passenger, 0, 16_000);
    cockpit.tueren.set(DoorSwitch::Tuer1);
    wiring.tick(&mut d, &mut cockpit, &passenger, 0, 16_000);
    assert_eq!(d.door_1_override.get(), DoorControlMode::Close);
    cockpit.tueren.set(DoorSwitch::Closed);
    wiring.tick(&mut d, &mut cockpit, &passenger, 0, 16_000);
    cockpit.tueren.set(DoorSwitch::Tuer1);
    wiring.tick(&mut d, &mut cockpit, &passenger, 0, 16_000);
    assert_eq!(d.door_1_override.get(), DoorControlMode::Open);

    // releasing the doors puts it back on automatic
    cockpit.tueren.set(DoorSwitch::Released);
    wiring.tick(&mut d, &mut cockpit, &passenger, 0, 16_000);
    assert_eq!(d.door_1_override.get(), DoorControlMode::Automatic);
}

#[test]
fn doors_closed_telltale_is_debounced() {
    let mut wiring = door_wiring_new();
    let mut d = doors();
    let mut cockpit = add_cockpit();
    let passenger = passenger_elements();

    // closed and unreleased: the telltale comes on after a tenth of a
    // second, not at once
    wiring.tick(&mut d, &mut cockpit, &passenger, 0, 16_000);
    assert!(!cockpit.lm_doors_closed.get());
    wiring.tick(&mut d, &mut cockpit, &passenger, 0, 200_000);
    assert!(cockpit.lm_doors_closed.get());

    // releasing drops it at once
    cockpit.tueren.set(DoorSwitch::Released);
    wiring.tick(&mut d, &mut cockpit, &passenger, 0, 16_000);
    wiring.tick(&mut d, &mut cockpit, &passenger, 0, 16_000);
    assert!(!cockpit.lm_doors_closed.get());
}

#[test]
fn passenger_buttons_time_out() {
    let mut p = passenger_elements();
    let prop = TimedButtonProperties {
        input_event: String::from("DoorButton1"),
        time_staying_on: 2_000_000,
        time_before_pressable_again: 1_000_000,
    };
    p.door_buttons[0].tick(&prop, true, 16_000);
    assert!(p.door_buttons[0].pressed.get());
    // it stays on for its time, then switches off and refuses touches
    p.door_buttons[0].tick(&prop, false, 2_000_000);
    assert!(!p.door_buttons[0].pressed.get());
    p.door_buttons[0].tick(&prop, true, 16_000);
    assert!(!p.door_buttons[0].pressed.get());
    // after the cooldown a touch works again
    p.door_buttons[0].tick(&prop, false, 1_000_000);
    p.door_buttons[0].tick(&prop, true, 16_000);
    assert!(p.door_buttons[0].pressed.get());
}
