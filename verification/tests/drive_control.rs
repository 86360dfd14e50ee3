use gt6n::tech_elements::drive_control::{
    compute_click, compute_notch, NotchClick, Sollwertgeber, SollwertgeberMode,
    SollwertgeberNotch, SollwertgeberProperties,
};

fn props() -> SollwertgeberProperties {
    SollwertgeberProperties {
        speed_normal: 1_000_000,
        speed_high: 5_000_000,
        speed_very_high: 20_000_000,
    }
}

#[test]
fn throttle_ramp_arrives_exactly_at_full_travel() {
    // held throttle from rest: the position ramps at the normal tier
    // toward one, arrives exactly, and the speed resets to zero
    let p = props();
    let mut s = Sollwertgeber::new();
    s.on_throttle_pressed(false, &p);
    assert_eq!(s.mode, SollwertgeberMode::Throttle);
    assert_eq!(s.target, 1_000_000);
    assert_eq!(s.speed, p.speed_normal);

    let mut end_clicks = 0;
    for _ in 0..20 {
        let click = s.tick(100_000);
        if click == NotchClick::End {
            end_clicks += 1;
        }
        assert!(s.position <= 1_000_000);
    }
    assert_eq!(s.position, 1_000_000);
    assert_eq!(s.speed, 0);
    // running into the top end stop clicked exactly once
    assert_eq!(end_clicks, 1);
}

#[test]
fn max_brake_slams_to_emergency() {
    // MaxBrake: the mode becomes emergency brake, the target full
    // deflection, the ramp the very-high tier
    let p = props();
    let mut s = Sollwertgeber::new();
    s.on_max_brake_pressed(false, &p);
    assert_eq!(s.mode, SollwertgeberMode::EmergencyBrake);
    assert_eq!(s.target, -1_000_000);
    assert_eq!(s.speed, -p.speed_very_high);

    // and while locked nothing happens
    let mut locked = Sollwertgeber::new();
    locked.on_max_brake_pressed(true, &p);
    assert_eq!(locked.mode, SollwertgeberMode::Neutral);
    assert_eq!(locked.speed, 0);
}

#[test]
fn end_stop_click_suppression() {
    // reaching an end stop clicks once; dropping back from it is silent
    assert_eq!(
        compute_click(SollwertgeberNotch::Throttle, SollwertgeberNotch::MaxTrottle),
        NotchClick::End
    );
    assert_eq!(
        compute_click(SollwertgeberNotch::MaxTrottle, SollwertgeberNotch::Throttle),
        NotchClick::Silent
    );
    assert_eq!(
        compute_click(SollwertgeberNotch::Brake, SollwertgeberNotch::MaxBrake),
        NotchClick::End
    );
    assert_eq!(
        compute_click(SollwertgeberNotch::MaxBrake, SollwertgeberNotch::Brake),
        NotchClick::Silent
    );
    // entering the neutral zone cues the neutral click
    assert_eq!(
        compute_click(SollwertgeberNotch::MinThrottle, SollwertgeberNotch::Neutral),
        NotchClick::Neutral
    );
    // every other boundary cues the plain click
    assert_eq!(
        compute_click(SollwertgeberNotch::Neutral, SollwertgeberNotch::MinThrottle),
        NotchClick::Other
    );
    // staying inside a zone is silent
    assert_eq!(
        compute_click(SollwertgeberNotch::Brake, SollwertgeberNotch::Brake),
        NotchClick::Silent
    );
}

#[test]
fn notch_thresholds() {
    assert_eq!(compute_notch(-960_000), SollwertgeberNotch::EmergencyBrake);
    assert_eq!(compute_notch(-900_000), SollwertgeberNotch::MaxBrake);
    assert_eq!(compute_notch(-500_000), SollwertgeberNotch::Brake);
    assert_eq!(compute_notch(-100_000), SollwertgeberNotch::MinBrake);
    assert_eq!(compute_notch(0), SollwertgeberNotch::Neutral);
    assert_eq!(compute_notch(100_000), SollwertgeberNotch::MinThrottle);
    assert_eq!(compute_notch(500_000), SollwertgeberNotch::Throttle);
    assert_eq!(compute_notch(990_000), SollwertgeberNotch::MaxTrottle);
}

#[test]
fn release_off_neutral_holds_the_handle() {
    let p = props();
    let mut s = Sollwertgeber::new();
    s.on_throttle_pressed(false, &p);
    for _ in 0..5 {
        s.tick(100_000);
    }
    assert_eq!(s.position, 500_000);
    // releasing off the neutral well: the handle holds its place and the
    // direction selector must be locked
    let rw_lock = s.on_release();
    assert!(rw_lock);
    assert_eq!(s.target, 500_000);
    assert_eq!(s.speed, 0);
}

#[test]
fn release_near_neutral_springs_to_the_minimal_notch() {
    let p = props();
    let mut s = Sollwertgeber::new();
    s.on_throttle_pressed(false, &p);
    s.tick(50_000);
    assert_eq!(s.position, 50_000);
    let rw_lock = s.on_release();
    assert!(!rw_lock);
    // the old target pointed up, so the handle creeps to plus one tenth
    assert_eq!(s.target, 100_000);
    assert_eq!(s.speed, p.speed_normal);
    s.tick(100_000);
    assert_eq!(s.position, 100_000);
    s.tick(100_000);
    assert_eq!(s.position, 100_000);
}

#[test]
fn brake_from_neutral_ramps_toward_full_brake_notch() {
    let p = props();
    let mut s = Sollwertgeber::new();
    s.on_brake_pressed(false, &p);
    assert_eq!(s.mode, SollwertgeberMode::Brake);
    assert_eq!(s.target, -900_000);
    assert_eq!(s.speed, -p.speed_normal);

    // neutral brings it back at the high tier
    s.on_neutral_pressed(&p);
    assert_eq!(s.mode, SollwertgeberMode::Neutral);
    assert_eq!(s.target, 0);
    assert_eq!(s.speed, p.speed_high);
}

#[test]
fn throttle_out_of_deep_brake_first_returns_to_min_brake() {
    let p = props();
    let mut s = Sollwertgeber::new();
    s.on_max_brake_pressed(false, &p);
    for _ in 0..10 {
        s.tick(100_000);
    }
    assert_eq!(s.position, -1_000_000);
    s.on_throttle_pressed(false, &p);
    // deep in the brake range: position snaps into the working range and
    // the handle ramps toward the minimal brake notch
    assert_eq!(s.mode, SollwertgeberMode::Brake);
    assert_eq!(s.position, -900_000);
    assert_eq!(s.target, -100_000);
    assert_eq!(s.speed, p.speed_normal);
}
