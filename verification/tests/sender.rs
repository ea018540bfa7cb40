use osc_sender::sender::OscSenderApp;

#[test]
fn fresh_sender_mirrors_the_defaults() {
    let app = OscSenderApp::new();
    assert_eq!(app.interval_ms, 1000);
    assert_eq!(app.hold_ms, 80);
    assert!(!app.checked);
    assert_eq!(app.port, 9000);
    assert_eq!(app.state.read_snapshot().dest_port, 9000);
}

#[test]
fn nudging_updates_mirror_and_store() {
    let mut app = OscSenderApp::new();
    app.nudge_port(2);
    assert_eq!(app.port, 9002);
    assert_eq!(app.state.read_snapshot().dest_port, 9002);
    app.nudge_port(-2);
    app.nudge_port(-2);
    assert_eq!(app.port, 8998);
    assert_eq!(app.state.read_snapshot().dest_port, 8998);
}

#[test]
fn nudging_clamps_and_stays_even() {
    let mut app = OscSenderApp::new();
    app.nudge_port(i32::MAX);
    assert_eq!(app.port, 65534);
    app.nudge_port(i32::MIN);
    assert_eq!(app.port, 0);
    assert_eq!(app.state.read_snapshot().dest_port, 0);
}

#[test]
fn nudging_leaves_other_mirrored_fields() {
    let mut app = OscSenderApp::new();
    app.nudge_port(2);
    assert_eq!(app.interval_ms, 1000);
    assert_eq!(app.hold_ms, 80);
    assert!(!app.checked);
    assert_eq!(app.state.read_snapshot().interval_ms, 1000);
}
