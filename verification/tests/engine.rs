use osc_sender::config::Config;
use osc_sender::engine::{EngineAction, PulseEngine};

fn cfg(interval_ms: u64, hold_ms: u64, enabled: bool, dest_port: u16) -> Config {
    Config { interval_ms, hold_ms, enabled, dest_port }
}

#[test]
fn enabled_step_pulses_with_hold_and_rest() {
    let mut engine = PulseEngine::new();
    let action = engine.step(&cfg(1000, 80, true, 9000));
    match action {
        EngineAction::Pulse { port, hold_ms, rest_ms } => {
            assert_eq!(port, 9000);
            assert_eq!(hold_ms, 80);
            assert_eq!(rest_ms, 920);
        }
        other => panic!("expected a pulse, got {other:?}"),
    }
}

#[test]
fn pulse_cadence_two_periods() {
    // With interval 1000 and hold 80, the emitted values over two periods are
    // 1 at t=0, 0 at t=80, 1 at t=1000, 0 at t=1080.
    let mut engine = PulseEngine::new();
    let snapshot = cfg(1000, 80, true, 9000);
    let mut t: u64 = 0;
    let mut emissions: Vec<(u64, i32)> = Vec::new();
    for _ in 0..2 {
        match engine.step(&snapshot) {
            EngineAction::Pulse { hold_ms, rest_ms, .. } => {
                emissions.push((t, 1));
                t += hold_ms;
                emissions.push((t, 0));
                t += rest_ms;
            }
            other => panic!("expected a pulse, got {other:?}"),
        }
    }
    assert_eq!(emissions, vec![(0, 1), (80, 0), (1000, 1), (1080, 0)]);
}

#[test]
fn disable_releases_exactly_once() {
    let mut engine = PulseEngine::new();
    let on = cfg(1000, 80, true, 9000);
    let off = cfg(1000, 80, false, 9000);
    match engine.step(&on) {
        EngineAction::Pulse { .. } => {}
        other => panic!("expected a pulse, got {other:?}"),
    }
    // The first iteration after the enabled flag drops emits one release.
    match engine.step(&off) {
        EngineAction::Release { port, idle_ms } => {
            assert_eq!(port, 9000);
            assert_eq!(idle_ms, 1000);
        }
        other => panic!("expected a release, got {other:?}"),
    }
    // Further iterations with sending still off emit nothing.
    for _ in 0..5 {
        match engine.step(&off) {
            EngineAction::Idle { idle_ms } => assert_eq!(idle_ms, 1000),
            other => panic!("expected idle, got {other:?}"),
        }
    }
}

#[test]
fn fresh_engine_owes_no_release() {
    let mut engine = PulseEngine::new();
    match engine.step(&cfg(1000, 80, false, 9000)) {
        EngineAction::Idle { idle_ms } => assert_eq!(idle_ms, 1000),
        other => panic!("expected idle, got {other:?}"),
    }
}

#[test]
fn zero_durations_are_coerced_to_one() {
    let mut engine = PulseEngine::new();
    match engine.step(&cfg(0, 0, true, 0)) {
        EngineAction::Pulse { hold_ms, rest_ms, .. } => {
            assert_eq!(hold_ms, 1);
            assert_eq!(rest_ms, 1);
        }
        other => panic!("expected a pulse, got {other:?}"),
    }
    match engine.step(&cfg(0, 0, false, 0)) {
        EngineAction::Release { idle_ms, .. } => assert_eq!(idle_ms, 1),
        other => panic!("expected a release, got {other:?}"),
    }
    match engine.step(&cfg(0, 0, false, 0)) {
        EngineAction::Idle { idle_ms } => assert_eq!(idle_ms, 1),
        other => panic!("expected idle, got {other:?}"),
    }
}

#[test]
fn hold_at_least_interval_throttles_rest_to_one() {
    let mut engine = PulseEngine::new();
    match engine.step(&cfg(100, 500, true, 9000)) {
        EngineAction::Pulse { hold_ms, rest_ms, .. } => {
            assert_eq!(hold_ms, 500);
            assert_eq!(rest_ms, 1);
        }
        other => panic!("expected a pulse, got {other:?}"),
    }
    match engine.step(&cfg(100, 100, true, 9000)) {
        EngineAction::Pulse { hold_ms, rest_ms, .. } => {
            assert_eq!(hold_ms, 100);
            assert_eq!(rest_ms, 1);
        }
        other => panic!("expected a pulse, got {other:?}"),
    }
}

#[test]
fn reenable_pulses_again_after_release() {
    let mut engine = PulseEngine::new();
    let on = cfg(200, 50, true, 9002);
    let off = cfg(200, 50, false, 9002);
    assert!(matches!(engine.step(&on), EngineAction::Pulse { .. }));
    assert!(matches!(engine.step(&off), EngineAction::Release { .. }));
    assert!(matches!(engine.step(&on), EngineAction::Pulse { .. }));
    assert!(matches!(engine.step(&off), EngineAction::Release { .. }));
    assert!(matches!(engine.step(&off), EngineAction::Idle { .. }));
}
