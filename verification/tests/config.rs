use osc_sender::config::{Config, SharedConfig, MAX_PORT};

#[test]
fn default_config_matches_startup_values() {
    let c = Config::default();
    assert_eq!(c.interval_ms, 1000);
    assert_eq!(c.hold_ms, 80);
    assert!(!c.enabled);
    assert_eq!(c.dest_port, 9000);
}

#[test]
fn fresh_store_snapshots_the_defaults() {
    let shared = SharedConfig::new();
    let c = shared.read_snapshot();
    assert_eq!(c, Config::default());
}

#[test]
fn single_field_write_leaves_the_others() {
    let shared = SharedConfig::new();
    shared.set_hold_ms(120);
    let c = shared.read_snapshot();
    assert_eq!(c.hold_ms, 120);
    assert_eq!(c.interval_ms, 1000);
    assert!(!c.enabled);
    assert_eq!(c.dest_port, 9000);
}

#[test]
fn every_field_write_is_observed_by_the_next_snapshot() {
    let shared = SharedConfig::new();
    shared.set_interval_ms(250);
    shared.set_hold_ms(30);
    shared.set_enabled(true);
    shared.set_dest_port(9002);
    let c = shared.read_snapshot();
    assert_eq!(c.interval_ms, 250);
    assert_eq!(c.hold_ms, 30);
    assert!(c.enabled);
    assert_eq!(c.dest_port, 9002);
}

#[test]
fn port_bounds_are_accepted() {
    let shared = SharedConfig::new();
    shared.set_dest_port(0);
    assert_eq!(shared.read_snapshot().dest_port, 0);
    shared.set_dest_port(MAX_PORT);
    assert_eq!(shared.read_snapshot().dest_port, MAX_PORT);
}
