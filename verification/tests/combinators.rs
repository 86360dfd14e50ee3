use gt6n::standard_elements::Shared;
use gt6n::tech_elements::simple::{
    add_and, add_or, add_timer, and_all, or_all, BlinkRelais, BlinkRelaisProperties,
    BlinkRelaisState, BoolToFloatVarUnit, BoolToSoundUnit, DelayRelay, DelayRelayProperties,
    StartLoopStopSound, Timer, TimerProperties, TimerSet, TimerSetVarTime, TimerVarTime,
    TimerVarTimeProperties,
};

#[test]
fn and_or_over_empty_inputs() {
    // the boundary case: AND of nothing is true, OR of nothing is false
    assert!(and_all(&vec![]));
    assert!(!or_all(&vec![]));
}

#[test]
fn and_or_over_inputs() {
    assert!(and_all(&vec![true, true, true]));
    assert!(!and_all(&vec![true, false, true]));
    assert!(or_all(&vec![false, false, true]));
    assert!(!or_all(&vec![false, false]));
}

#[test]
fn gates_commit_only_on_change() {
    let mut out: Shared<bool> = Shared::new(false);
    add_and(&vec![], &mut out);
    assert!(out.get());
    let v = out.version();
    add_and(&vec![true], &mut out);
    assert_eq!(out.version(), v);

    let mut out_or: Shared<bool> = Shared::new(false);
    add_or(&vec![], &mut out_or);
    assert!(!out_or.get());
    add_or(&vec![true, false], &mut out_or);
    assert!(out_or.get());
}

#[test]
fn timer_hold_keeps_it_unexpired() {
    // Hold with time left never shows expired, however long it is asserted
    let prop = TimerProperties { time: 1_000_000 };
    let mut t = Timer::new();
    assert!(t.expired());
    for _ in 0..1000 {
        let expired = t.tick(&prop, TimerSet::Hold, 16_000);
        assert!(!expired);
    }
}

#[test]
fn timer_runs_down_and_resets() {
    let prop = TimerProperties { time: 1_000_000 };
    let mut t = Timer::new();
    t.tick(&prop, TimerSet::Hold, 16_000);
    assert!(!t.tick(&prop, TimerSet::LetRun, 400_000));
    assert_eq!(t.remaining, 600_000);
    assert!(t.tick(&prop, TimerSet::LetRun, 600_000));
    let mut t2 = Timer::new();
    t2.tick(&prop, TimerSet::Hold, 16_000);
    assert!(t2.tick(&prop, TimerSet::Reset, 16_000));
}

#[test]
fn timer_var_time_caps_at_the_duration() {
    let prop = TimerVarTimeProperties { initial_time: 1_000_000 };
    let mut t = TimerVarTime::new(&prop);
    assert!(!t.tick(TimerSetVarTime::Hold(Some(2_000_000)), 16_000));
    assert_eq!(t.time, 2_000_000);
    assert_eq!(t.remaining, 2_000_000);
    assert!(!t.tick(TimerSetVarTime::LetRun, 500_000));
    assert_eq!(t.remaining, 1_500_000);
    // shortening the duration shortens the running countdown at once
    t.set_time(1_000_000);
    assert!(!t.tick(TimerSetVarTime::LetRun, 0));
    assert_eq!(t.remaining, 1_000_000);
    assert!(t.tick(TimerSetVarTime::Reset, 16_000));
}

#[test]
fn delay_relay_coalesces_a_reversed_flip() {
    // a flip that reverses within the delay never reaches the output
    let prop = DelayRelayProperties { on_delay: 1_000_000, off_delay: 1_000_000 };
    let mut relay = DelayRelay::new(false);

    assert!(!relay.tick(&prop, true, 300_000));
    assert!(!relay.output);
    assert!(!relay.tick(&prop, false, 300_000));
    assert!(!relay.output);
    // the reversed countdown expires on the settled value: still no change
    assert!(!relay.tick(&prop, false, 800_000));
    assert!(!relay.output);
    assert!(!relay.waiting);
}

#[test]
fn delay_relay_commits_after_the_delay() {
    let prop = DelayRelayProperties { on_delay: 1_000_000, off_delay: 500_000 };
    let mut relay = DelayRelay::new(false);
    assert!(!relay.tick(&prop, true, 400_000));
    assert!(!relay.tick(&prop, true, 400_000));
    // cumulative 1.2 s of a steady input: the flip is committed
    assert!(relay.tick(&prop, true, 400_000));
    assert!(relay.output);
    // falling side uses its own, shorter delay
    assert!(relay.tick(&prop, false, 600_000));
    assert!(!relay.output);
}

#[test]
fn blink_relais_runs_a_sawtooth() {
    let prop = BlinkRelaisProperties {
        interval: 1_000_000,
        on_time: 400_000,
        reset_time: None,
    };
    let mut b = BlinkRelais::new(&prop);
    let mut state = BlinkRelaisState { on: Shared::new(false) };

    b.tick(&prop, true, 300_000, &mut state);
    assert!(state.on.get());
    b.tick(&prop, true, 200_000, &mut state);
    assert!(!state.on.get());
    // wrapping once per period brings the lamp back on
    b.tick(&prop, true, 600_000, &mut state);
    assert_eq!(b.timer, 100_000);
    assert!(state.on.get());
    // stopping rests the phase and darkens the lamp
    b.tick(&prop, false, 16_000, &mut state);
    assert_eq!(b.timer, 0);
    assert!(!state.on.get());
}

#[test]
fn blink_relais_reset_time_sets_the_rest_phase() {
    let prop = BlinkRelaisProperties {
        interval: 1_000_000,
        on_time: 400_000,
        reset_time: Some(250_000),
    };
    let b = BlinkRelais::new(&prop);
    assert_eq!(b.timer, 250_000);
}

#[test]
fn bool_units_emit_only_on_edges() {
    let mut f = BoolToFloatVarUnit::new();
    assert_eq!(f.tick(false), Some(0));
    assert_eq!(f.tick(false), None);
    assert_eq!(f.tick(true), Some(1_000_000));

    let mut s = BoolToSoundUnit::new();
    assert_eq!(s.tick(false), None);
    assert_eq!(s.tick(true), Some(true));
    assert_eq!(s.tick(true), None);
    assert_eq!(s.tick(false), Some(false));
}

#[test]
fn start_loop_stop_sound_follows_the_edges() {
    let mut m = StartLoopStopSound::new();
    let idle = m.tick(false);
    assert!(!idle.start && idle.loop_running.is_none() && !idle.stop);
    let up = m.tick(true);
    assert!(up.start && up.loop_running == Some(true) && !up.stop);
    let held = m.tick(true);
    assert!(!held.start && held.loop_running.is_none() && !held.stop);
    let down = m.tick(false);
    assert!(!down.start && down.loop_running == Some(false) && down.stop);
}

#[test]
fn add_timer_commits_expiry_to_the_cell() {
    let prop = TimerProperties { time: 100_000 };
    let mut t = Timer::new();
    let mut out: Shared<bool> = Shared::new(false);
    add_timer(&mut t, &prop, TimerSet::Hold, 16_000, &mut out);
    assert!(!out.get());
    add_timer(&mut t, &prop, TimerSet::LetRun, 200_000, &mut out);
    assert!(out.get());
}
