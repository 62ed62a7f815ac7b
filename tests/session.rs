use rust_wl_bindings::timeout_millis;
use rust_wl_bindings::IdleSession;
use rust_wl_bindings::NotificationEvent;
use rust_wl_bindings::TeardownOp;

#[test]
fn timeout_millis_values() {
    assert_eq!(timeout_millis(0), Some(0));
    assert_eq!(timeout_millis(1), Some(1000));
    assert_eq!(timeout_millis(300), Some(300_000));
    assert_eq!(timeout_millis(4_294_967), Some(4_294_967_000));
    assert_eq!(timeout_millis(4_294_968), None);
    assert_eq!(timeout_millis(u32::MAX), None);
}

#[test]
fn new_session_reads_zero() {
    let mut s = IdleSession::new(1000);
    assert_eq!(s.last_reading, 0);
    assert_eq!(s.timeout_millis, 1000);
    assert!(s.notification_live);
    assert!(s.connection_open);
    assert!(!s.state.is_idle);
    assert_eq!(s.idle_seconds(), 0);
}

#[test]
fn clock_readings_do_not_go_back() {
    let mut s = IdleSession::new(1000);
    let a = s.now();
    assert_eq!(s.last_reading, a);
    let b = s.now();
    assert!(a <= b);
    assert_eq!(s.last_reading, b);
}

#[test]
fn handled_events_drive_the_state() {
    let mut s = IdleSession::new(1000);
    s.handle_event(NotificationEvent::Idled);
    assert!(s.state.is_idle);
    assert_eq!(s.state.idle_since, Some(s.last_reading));
    assert!(s.idle_seconds() <= 1);
    s.handle_event(NotificationEvent::Resumed);
    assert!(!s.state.is_idle);
    assert_eq!(s.state.idle_since, None);
    assert_eq!(s.idle_seconds(), 0);
    assert_eq!(s.idle_seconds(), 0);
}

#[test]
fn release_then_close_sends_one_destroy() {
    let mut s = IdleSession::new(1000);
    assert!(s.release_notification());
    assert!(!s.notification_live);
    assert!(s.connection_open);
    assert!(!s.release_notification());
    assert!(!s.close_connection());
    assert!(!s.connection_open);
}

#[test]
fn close_sends_destroy_first() {
    let mut s = IdleSession::new(1000);
    assert!(s.close_connection());
    assert!(!s.notification_live);
    assert!(!s.connection_open);
    assert!(!s.release_notification());
    assert!(!s.close_connection());
}

#[test]
fn teardown_steps_send_at_most_once() {
    let mut s = IdleSession::new(5000);
    let ops = [
        TeardownOp::ReleaseNotification,
        TeardownOp::CloseConnection,
        TeardownOp::ReleaseNotification,
        TeardownOp::CloseConnection,
    ];
    let mut sent = 0;
    for op in ops {
        if s.teardown(op) {
            sent += 1;
        }
    }
    assert_eq!(sent, 1);
}

#[test]
fn queries_advance_the_reading_and_keep_the_state() {
    let mut s = IdleSession::new(1000);
    s.handle_event(NotificationEvent::Idled);
    let stamp = s.last_reading;
    let state = s.state;
    let first = s.idle_seconds();
    let after_first = s.last_reading;
    let second = s.idle_seconds();
    assert!(after_first >= stamp);
    assert!(s.last_reading >= after_first);
    assert_eq!(s.state, state);
    assert!(first <= second);
}
