use gt6n::doors::{doors, door_pair_properties, DoorSwitchState};
use gt6n::tech_elements::doors::{
    add_door_control, add_electric_sliding_plug_door_pair, compute_door_position_state,
    DoorControlMode, DoorControlProperties, ElectricSlidingPlugDoorPairPositionState,
    ElectricSlidingPlugDoorPairProperties, ElectricSlidingPlugDoorPairTarget,
};

fn leaf_props() -> ElectricSlidingPlugDoorPairProperties {
    ElectricSlidingPlugDoorPairProperties {
        friction: 50_000,
        open_start_speed: 600_000,
        open_end_speed: 300_000,
        open_start_end_change_position: 600_000,
        close_start_speed: 500_000,
        close_end_speed: 100_000,
        close_start_end_change_position: 200_000,
        traction_stiftness: 4_000_000,
        reflection_open: 30_000,
        reflection_close: 50_000,
    }
}

#[test]
fn leaf_position_is_always_clamped() {
    // the leaf position never leaves [0, 1] whatever the drive does
    let prop = leaf_props();
    let mut door = add_electric_sliding_plug_door_pair();
    for _ in 0..400 {
        door.tick(&prop, ElectricSlidingPlugDoorPairTarget::Open, 16_000);
        assert!(0 <= door.position && door.position <= 1_000_000);
    }
    assert_eq!(
        door.position_state.get(),
        ElectricSlidingPlugDoorPairPositionState::FullyOpen
    );
    for _ in 0..400 {
        door.tick(&prop, ElectricSlidingPlugDoorPairTarget::Close, 16_000);
        assert!(0 <= door.position && door.position <= 1_000_000);
    }
    assert_eq!(
        door.position_state.get(),
        ElectricSlidingPlugDoorPairPositionState::FullyClosed
    );
}

#[test]
fn reflection_zero_stops_the_leaf_dead() {
    // a reflection coefficient of zero forces the speed to exactly zero
    let mut prop = leaf_props();
    prop.reflection_open = 0;
    prop.traction_stiftness = 0; // the drive leaves the speed alone
    let mut door = add_electric_sliding_plug_door_pair();
    door.position = 990_000;
    door.speed = 500_000;
    let events = door.tick(&prop, ElectricSlidingPlugDoorPairTarget::Open, 100_000);
    assert!(events.open_end);
    assert_eq!(door.position, 1_000_000);
    assert_eq!(door.speed, 0);
}

#[test]
fn reflection_one_preserves_the_speed_magnitude() {
    // a coefficient of one full unit reverses the speed exactly
    let mut prop = leaf_props();
    prop.reflection_open = 1_000_000;
    prop.traction_stiftness = 0;
    let mut door = add_electric_sliding_plug_door_pair();
    door.position = 990_000;
    door.speed = 500_000;
    door.tick(&prop, ElectricSlidingPlugDoorPairTarget::Open, 100_000);
    assert_eq!(door.position, 1_000_000);
    assert_eq!(door.speed, -500_000);

    // and at the closed stop
    let mut prop2 = leaf_props();
    prop2.reflection_close = 1_000_000;
    prop2.traction_stiftness = 0;
    let mut door2 = add_electric_sliding_plug_door_pair();
    door2.position = 5_000;
    door2.speed = -300_000;
    door2.tick(&prop2, ElectricSlidingPlugDoorPairTarget::Close, 100_000);
    assert_eq!(door2.position, 0);
    assert_eq!(door2.speed, 300_000);
}

#[test]
fn leaf_sound_events_fire_once_per_crossing() {
    let prop = leaf_props();
    let mut door = add_electric_sliding_plug_door_pair();
    let mut open_start = 0;
    let mut open_transitions = 0;
    let mut open_ends = 0;
    for _ in 0..400 {
        let events = door.tick(&prop, ElectricSlidingPlugDoorPairTarget::Open, 16_000);
        open_start += events.open_start as u32;
        open_transitions += events.open_transition as u32;
        open_ends += events.open_end as u32;
    }
    assert_eq!(open_start, 1);
    assert_eq!(open_transitions, 1);
    assert!(open_ends >= 1);
}

#[test]
fn position_state_thresholds() {
    assert_eq!(
        compute_door_position_state(0),
        ElectricSlidingPlugDoorPairPositionState::FullyClosed
    );
    assert_eq!(
        compute_door_position_state(9_999),
        ElectricSlidingPlugDoorPairPositionState::FullyClosed
    );
    assert_eq!(
        compute_door_position_state(500_000),
        ElectricSlidingPlugDoorPairPositionState::InTransition
    );
    assert_eq!(
        compute_door_position_state(990_001),
        ElectricSlidingPlugDoorPairPositionState::FullyOpen
    );
}

#[test]
fn door_control_targets() {
    let prop = DoorControlProperties { request_time: 6_000_000, warning_time: 2_000_000 };
    let mut c = add_door_control(&prop);

    // without system energy: no target at all
    let t = c.tick(&prop, false, false, false, None,
        ElectricSlidingPlugDoorPairPositionState::FullyClosed, 16_000);
    assert_eq!(t, ElectricSlidingPlugDoorPairTarget::NoEnergy);

    // a standing request holds the timer: the door opens
    let t = c.tick(&prop, true, true, true, None,
        ElectricSlidingPlugDoorPairPositionState::FullyClosed, 16_000);
    assert_eq!(t, ElectricSlidingPlugDoorPairTarget::Open);

    // request gone: the timer runs down and the door closes again
    let mut last = ElectricSlidingPlugDoorPairTarget::Open;
    for _ in 0..700 {
        last = c.tick(&prop, true, false, true, None,
            ElectricSlidingPlugDoorPairPositionState::InTransition, 16_000);
    }
    assert_eq!(last, ElectricSlidingPlugDoorPairTarget::Close);

    // the override forces the door open regardless of the timer
    let t = c.tick(&prop, true, false, true, Some(DoorControlMode::Open),
        ElectricSlidingPlugDoorPairPositionState::InTransition, 16_000);
    assert_eq!(t, ElectricSlidingPlugDoorPairTarget::Open);
}

#[test]
fn door_control_warning_while_open_and_unreleased() {
    let prop = DoorControlProperties { request_time: 6_000_000, warning_time: 2_000_000 };
    let mut c = add_door_control(&prop);
    c.tick(&prop, true, false, false, None,
        ElectricSlidingPlugDoorPairPositionState::InTransition, 16_000);
    assert!(c.state.warning.get());
    c.tick(&prop, true, false, false, None,
        ElectricSlidingPlugDoorPairPositionState::FullyClosed, 16_000);
    assert!(!c.state.warning.get());
}

#[test]
fn door_subsystem_opens_on_request_while_released() {
    let mut d = doors();
    assert!(d.all_closed.get());

    // nothing requested: everything stays closed
    for _ in 0..10 {
        d.tick(true, 16_000);
    }
    assert!(d.all_closed.get());

    // released and requested: the first door opens
    d.released.set(true);
    d.requests[0].set(true);
    for _ in 0..400 {
        d.tick(true, 16_000);
    }
    assert!(!d.all_closed.get());
    assert!(!d.doors_with_controller[0].closed.get());
    assert!(d.doors_with_controller[1].closed.get());
    assert_eq!(
        d.doors_with_controller[0].door.position_state.get(),
        ElectricSlidingPlugDoorPairPositionState::FullyOpen
    );
}

#[test]
fn door_pair_properties_are_per_door() {
    let p0 = door_pair_properties(0);
    let p1 = door_pair_properties(1);
    assert_eq!(p0.open_start_speed, 600_000);
    assert_eq!(p1.open_start_speed, 650_000);
    assert_eq!(p0.reflection_open, 30_000);
    assert_eq!(p1.reflection_open, 50_000);
}

#[test]
fn door_switch_state_variants_are_distinct() {
    assert_ne!(DoorSwitchState::Closed, DoorSwitchState::Released);
    assert_ne!(DoorSwitchState::Open, DoorSwitchState::DoorOne);
}
