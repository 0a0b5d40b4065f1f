use ready_metronome::engine::{Action, Controls, Phase, TimingEngine};

fn catalog() -> Vec<String> {
    vec!["click.wav".to_string(), "wood.wav".to_string()]
}

fn controls(running: bool) -> Controls {
    Controls {
        is_running: running,
        ms_delay: 500,
        ts_note: 4,
        ts_value: 4,
        ts_triplets: false,
        selected_sound: 0,
        debug: false,
    }
}

/// Polls every `quantum` ms from `start` up to `end` (exclusive), playing each
/// pulse successfully; returns the clock readings at which pulses fired with
/// the beat and bar after each.
fn drive(
    e: &mut TimingEngine,
    c: Controls,
    start: u64,
    end: u64,
    quantum: u64,
) -> Vec<(u64, u64, u64)> {
    let mut fired = Vec::new();
    let mut t = start;
    while t < end {
        match e.poll(c, t) {
            Action::Pulse(_) => {
                e.complete_pulse(true, c.ts_note);
                fired.push((t, e.beat_count(), e.bar_count()));
            }
            Action::Wait => {}
            Action::Stop => panic!("unexpected stop"),
        }
        t += quantum;
    }
    fired
}

#[test]
fn new_engine_is_idle_at_bar_start() {
    let e = TimingEngine::new(catalog());
    assert_eq!(e.phase(), Phase::Idle);
    assert_eq!(e.beat_count(), 0);
    assert_eq!(e.bar_count(), 1);
    assert!(!e.error());
    assert_eq!(e.tick_count(), 0);
}

#[test]
fn stopped_engine_waits() {
    let mut e = TimingEngine::new(catalog());
    for t in 0..10 {
        assert_eq!(e.poll(controls(false), t * 7), Action::Wait);
    }
    assert_eq!(e.phase(), Phase::Idle);
    assert_eq!(e.beat_count(), 0);
    assert_eq!(e.bar_count(), 1);
}

#[test]
fn first_pulse_fires_at_once_with_selected_sound() {
    let mut e = TimingEngine::new(catalog());
    let mut c = controls(true);
    c.selected_sound = 1;
    assert_eq!(e.poll(c, 1234), Action::Pulse("wood.wav".to_string()));
    assert_eq!(e.phase(), Phase::Sounding);
    e.complete_pulse(true, 4);
    assert_eq!(e.phase(), Phase::Playing);
    assert_eq!(e.beat_count(), 1);
    assert_eq!(e.bar_count(), 1);
}

#[test]
fn end_to_end_at_120_bpm() {
    let mut e = TimingEngine::new(catalog());
    let fired = drive(&mut e, controls(true), 0, 2001, 5);
    assert_eq!(
        fired,
        vec![
            (0, 1, 1),
            (500, 2, 1),
            (1000, 3, 1),
            (1500, 4, 1),
            (2000, 1, 2),
        ]
    );
}

#[test]
fn coarse_quantum_keeps_cadence_within_one_quantum() {
    let mut e = TimingEngine::new(catalog());
    let fired = drive(&mut e, controls(true), 0, 3000, 7);
    assert!(fired.len() >= 5);
    for pair in fired.windows(2) {
        let gap = pair[1].0 - pair[0].0;
        assert!(gap >= 500 && gap < 507, "gap {}", gap);
    }
}

#[test]
fn bar_rolls_over_after_numerator_beats() {
    let mut e = TimingEngine::new(catalog());
    let c = controls(true);
    let mut beats = Vec::new();
    for k in 0..9u64 {
        assert!(matches!(e.poll(c, k * 500), Action::Pulse(_)));
        e.complete_pulse(true, 4);
        beats.push((e.beat_count(), e.bar_count()));
    }
    assert_eq!(
        beats,
        vec![(1, 1), (2, 1), (3, 1), (4, 1), (1, 2), (2, 2), (3, 2), (4, 2), (1, 3)]
    );
}

#[test]
fn lowered_numerator_rolls_over_at_once() {
    let mut e = TimingEngine::new(catalog());
    let c = controls(true);
    for k in 0..4u64 {
        e.poll(c, k * 500);
        e.complete_pulse(true, 4);
    }
    assert_eq!(e.beat_count(), 4);
    e.poll(c, 2000);
    e.complete_pulse(true, 3);
    assert_eq!(e.beat_count(), 1);
    assert_eq!(e.bar_count(), 2);
}

#[test]
fn stop_then_start_resets_counters() {
    let mut e = TimingEngine::new(catalog());
    drive(&mut e, controls(true), 0, 1200, 5);
    assert_eq!(e.beat_count(), 3);
    assert_eq!(e.poll(controls(false), 1200), Action::Wait);
    assert_eq!(e.phase(), Phase::Idle);
    assert_eq!(e.beat_count(), 0);
    assert_eq!(e.bar_count(), 1);
    // the first pulse after a restart comes at once, not an interval later
    assert_eq!(e.poll(controls(true), 1205), Action::Pulse("click.wav".to_string()));
    assert_eq!(e.beat_count(), 0);
    assert_eq!(e.bar_count(), 1);
    e.complete_pulse(true, 4);
    assert_eq!(e.beat_count(), 1);
    assert_eq!(e.bar_count(), 1);
}

#[test]
fn failed_pulse_halts_for_good() {
    let mut e = TimingEngine::new(catalog());
    let c = controls(true);
    drive(&mut e, c, 0, 600, 5);
    assert_eq!((e.beat_count(), e.bar_count()), (2, 1));
    assert!(matches!(e.poll(c, 1000), Action::Pulse(_)));
    e.complete_pulse(false, 4);
    assert!(e.error());
    assert_eq!(e.phase(), Phase::Halted);
    assert_eq!((e.beat_count(), e.bar_count()), (2, 1));
    for k in 0..20u64 {
        assert_eq!(e.poll(c, 1000 + k * 500), Action::Stop);
        assert_eq!(e.poll(controls(false), 1000 + k * 500 + 1), Action::Stop);
    }
    assert!(e.error());
    assert_eq!((e.beat_count(), e.bar_count()), (2, 1));
}

#[test]
fn selection_outside_catalog_is_a_load_failure() {
    let mut e = TimingEngine::new(catalog());
    let mut c = controls(true);
    c.selected_sound = 2;
    assert_eq!(e.poll(c, 0), Action::Stop);
    assert!(e.error());
    assert_eq!(e.phase(), Phase::Halted);
    assert_eq!(e.beat_count(), 0);
    assert_eq!(e.bar_count(), 1);
    c.selected_sound = 0;
    assert_eq!(e.poll(c, 10), Action::Stop);
}

#[test]
fn empty_catalog_fails_on_first_pulse() {
    let mut e = TimingEngine::new(Vec::new());
    assert_eq!(e.poll(controls(false), 0), Action::Wait);
    assert_eq!(e.poll(controls(true), 7), Action::Stop);
    assert!(e.error());
}

#[test]
fn eighth_note_and_triplet_cadence() {
    let mut e = TimingEngine::new(catalog());
    let mut c = controls(true);
    c.ts_value = 8;
    let fired: Vec<u64> = drive(&mut e, c, 0, 1001, 1).iter().map(|f| f.0).collect();
    assert_eq!(fired, vec![0, 250, 500, 750, 1000]);

    let mut e = TimingEngine::new(catalog());
    c.ts_triplets = true;
    let fired: Vec<u64> = drive(&mut e, c, 0, 250, 1).iter().map(|f| f.0).collect();
    assert_eq!(fired, vec![0, 83, 166, 249]);
}

#[test]
fn tempo_change_takes_effect_on_next_poll() {
    let mut e = TimingEngine::new(catalog());
    let mut c = controls(true);
    drive(&mut e, c, 0, 100, 5);
    c.ms_delay = 120;
    let fired: Vec<u64> = drive(&mut e, c, 100, 400, 5).iter().map(|f| f.0).collect();
    assert_eq!(fired, vec![120, 240, 360]);
}

#[test]
fn clock_behind_last_pulse_waits() {
    let mut e = TimingEngine::new(catalog());
    let c = controls(true);
    e.poll(c, 5000);
    e.complete_pulse(true, 4);
    assert_eq!(e.poll(c, 100), Action::Wait);
    assert_eq!(e.poll(c, 5499), Action::Wait);
    assert!(matches!(e.poll(c, 5500), Action::Pulse(_)));
}

#[test]
fn debug_counts_quanta() {
    let mut e = TimingEngine::new(catalog());
    let mut c = controls(false);
    c.debug = true;
    for t in 0..5 {
        e.poll(c, t);
    }
    assert_eq!(e.tick_count(), 5);
    c.debug = false;
    e.poll(c, 6);
    assert_eq!(e.tick_count(), 5);
}
