use gt6n::standard_elements::Shared;
use gt6n::tech_elements::cockpit_simple::{
    add_button, add_button_inout, add_button_twosided_springloaded, add_complex_step_switch,
    add_indicator_light, add_step_switch, add_switch, matches_cockpit_index,
    ButtonTwoSidedSpringLoadedState, ComplexStepSwitchProperties, IndicatorLightProperties,
    StepSwitchProperties, SwitchProperties,
};
use gt6n::tech_elements::combined::{
    add_blink_relais_multiple_entries, BlinkRelaisMultipleEntriesProperties,
};
use gt6n::tech_elements::physic::{
    add_inertion_slider, InertionSliderBump, InertionSliderBumpProperties,
    InertionSliderProperties,
};
use gt6n::tech_elements::simple::{add_converter, add_copy, add_inverter};

#[test]
fn cockpit_index_matching() {
    assert!(matches_cockpit_index(None, 0));
    assert!(matches_cockpit_index(Some(0), 0));
    assert!(!matches_cockpit_index(Some(1), 0));
}

#[test]
fn momentary_button_edges() {
    let mut b = add_button();
    let down = b.on_pressed();
    assert!(b.pressed.get());
    assert_eq!(down.animation, Some(1_000_000));
    assert!(down.sound_on && !down.sound_off);
    let up = b.on_released();
    assert!(!b.pressed.get());
    assert_eq!(up.animation, Some(0));
    assert!(!up.sound_on && up.sound_off);
}

#[test]
fn twosided_button_holds_and_springs_back() {
    let mut b = add_button_twosided_springloaded();
    let f = b.on_side_pressed(true);
    assert_eq!(b.state.get(), ButtonTwoSidedSpringLoadedState::HoldOn);
    assert_eq!(f.animation, Some(1_000_000));
    b.on_side_released();
    assert_eq!(b.state.get(), ButtonTwoSidedSpringLoadedState::Released);
    let f = b.on_side_pressed(false);
    assert_eq!(b.state.get(), ButtonTwoSidedSpringLoadedState::HoldOff);
    assert_eq!(f.animation, Some(-1_000_000));
}

#[test]
fn inout_button_latches() {
    let mut b = add_button_inout();
    b.on_pressed();
    assert!(b.pressed.get());
    let up = b.on_released();
    assert_eq!(up.animation, Some(1_000_000));
    b.on_pressed();
    assert!(!b.pressed.get());
    let up = b.on_released();
    assert_eq!(up.animation, Some(0));
}

#[test]
fn switch_toggles_with_its_standard_position() {
    let prop = SwitchProperties {
        input_event: String::from("CabinLightToggle"),
        animation_var: None,
        sound_switch: None,
        standard_position: Some(true),
    };
    let mut s = add_switch(&prop);
    assert!(s.position.get());
    let f = s.on_pressed();
    assert!(!s.position.get());
    assert_eq!(f.animation, Some(0));
}

#[test]
fn step_switch_moves_and_springs() {
    let prop = StepSwitchProperties {
        position_max: 2,
        position_min: -1,
        input_event_plus: String::from("DoorsPlus"),
        input_event_minus: String::from("DoorsMinus"),
        animation_var: None,
        sound_switch: None,
        standard_position: Some(0),
        position_min_is_springloaded: Some(true),
    };
    let mut s = add_step_switch(&prop);
    assert_eq!(s.position.get(), 0);
    let f = s.on_step(&prop, true);
    assert_eq!(s.position.get(), 1);
    assert!(f.sound);
    assert_eq!(f.animation, Some(1_000_000));
    s.on_step(&prop, false);
    s.on_step(&prop, false);
    assert_eq!(s.position.get(), -1);
    // at the spring-loaded bottom a release steps back up
    let f = s.on_min_released(&prop);
    assert_eq!(s.position.get(), 0);
    assert!(f.sound);
    // elsewhere a release does nothing
    let f = s.on_min_released(&prop);
    assert!(!f.sound);
}

#[test]
fn complex_step_switch_follows_its_angle_table() {
    let prop = ComplexStepSwitchProperties {
        input_event_plus: String::from("ReverserPlus"),
        input_event_minus: String::from("ReverserMinus"),
        animation_var: None,
        sound_switch: None,
        angles: vec![0, 29_000_000, 58_000_000, 135_000_000],
        standard_position: Some(0),
    };
    let mut s = add_complex_step_switch(&prop);
    let f = s.on_step(&prop, true, false);
    assert_eq!(s.state.get(), 1);
    assert_eq!(f.animation, Some(29_000_000));
    // blocked: nothing moves
    let f = s.on_step(&prop, true, true);
    assert_eq!(s.state.get(), 1);
    assert!(!f.sound);
    // held at the ends
    s.on_step(&prop, false, false);
    let f = s.on_step(&prop, false, false);
    assert_eq!(s.state.get(), 0);
    assert!(!f.sound);
}

#[test]
fn indicator_light_shows_voltage_on_test() {
    let prop = IndicatorLightProperties {
        variable: String::from("A_LM_Sifa"),
        has_lighttest: true,
    };
    let mut l = add_indicator_light();
    assert_eq!(l.level(&prop, false, 1_000_000), 0);
    assert_eq!(l.level(&prop, true, 1_000_000), 1_000_000);
    l.state.set(true);
    assert_eq!(l.level(&prop, false, 1_000_000), 1_000_000);
}

#[test]
fn copy_inverter_converter_follow_commits() {
    let mut source: Shared<bool> = Shared::new(false);
    let mut copy_out: Shared<bool> = Shared::new(false);
    let mut inv_out: Shared<bool> = Shared::new(false);
    let mut seen_copy: u64 = source.version();
    let mut seen_inv: u64 = source.version();

    // nothing committed: nothing propagates
    add_copy(&mut seen_copy, &source, &mut copy_out);
    add_inverter(&mut seen_inv, &source, &mut inv_out);
    assert!(!copy_out.get());
    assert!(!inv_out.get());

    source.set(true);
    add_copy(&mut seen_copy, &source, &mut copy_out);
    add_inverter(&mut seen_inv, &source, &mut inv_out);
    assert!(copy_out.get());
    assert!(!inv_out.get());

    source.set(false);
    add_copy(&mut seen_copy, &source, &mut copy_out);
    add_inverter(&mut seen_inv, &source, &mut inv_out);
    assert!(!copy_out.get());
    assert!(inv_out.get());

    let mut numbers: Shared<i64> = Shared::new(3);
    let mut doubled: Shared<i64> = Shared::new(0);
    // out-of-sync observer: the wiring-time initial evaluation
    let mut seen: u64 = u64::MAX;
    let double = |v: i64| v * 2;
    add_converter(&mut seen, &numbers, &double, &mut doubled);
    assert_eq!(doubled.get(), 6);
    numbers.set(5);
    add_converter(&mut seen, &numbers, &double, &mut doubled);
    assert_eq!(doubled.get(), 10);
}

#[test]
fn inertion_slider_bumps_and_stops() {
    let prop = InertionSliderProperties {
        friction: 100_000,
        bump_lower: InertionSliderBumpProperties {
            position: Some(0),
            factor: None,
            sound: None,
            sound_vol: None,
            sound_vol_factor: None,
        },
        bump_upper: InertionSliderBumpProperties {
            position: Some(1_000_000),
            factor: Some(500_000),
            sound: Some(String::from("Snd_Slider_Bump")),
            sound_vol: Some(String::from("Snd_Slider_Bump_vol")),
            sound_vol_factor: Some(1_000_000),
        },
    };
    let mut s = add_inertion_slider();
    s.position.set(900_000);
    s.velocity.set(2_000_000);
    // one tenth of a second at 2 per second crosses the upper bump
    let events = s.tick(&prop, 100_000);
    assert!(events.upper.hit);
    assert!(!events.lower.hit);
    assert_eq!(s.position.get(), 1_000_000);
    // half rebound off the tracked speed, reversed
    assert!(s.velocity.get() < 0);
    assert_eq!(events.upper.volume, Some(-s.velocity.get()));

    assert_eq!(InertionSliderBump::from_index(0), Some(InertionSliderBump::Lower));
    assert_eq!(InertionSliderBump::from_index(1), Some(InertionSliderBump::Upper));
    assert_eq!(InertionSliderBump::from_index(2), None);
}

#[test]
fn shared_blink_relay_gates_each_entry() {
    let prop = BlinkRelaisMultipleEntriesProperties {
        interval: 777_000,
        on_time: 388_000,
        reset_time: None,
    };
    let mut relay = add_blink_relais_multiple_entries(&prop, 3);
    // nothing active: dark and quiet
    let emits = relay.tick(&prop, &vec![false, false, false], 16_000);
    assert!(!relay.running.get());
    assert_eq!(emits.len(), 3);
    assert!(emits.iter().all(|(l, s)| l.is_none() && s.is_none()));

    // one warning active: only that entry lights up
    let emits = relay.tick(&prop, &vec![false, true, false], 16_000);
    assert!(relay.running.get());
    assert_eq!(emits[0], (None, None));
    assert_eq!(emits[1], (Some(1_000_000), Some(true)));
    assert_eq!(emits[2], (None, None));
}
