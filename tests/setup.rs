use rust_wl_bindings::Setup;
use rust_wl_bindings::SetupAction;
use rust_wl_bindings::SetupError;
use rust_wl_bindings::SetupStage;

#[test]
fn setup_succeeds_when_every_step_does() {
    let mut s = Setup::new(1);
    assert_eq!(s.stage, SetupStage::Registry);
    assert_eq!(s.advance(true), SetupAction::BindSeat);
    assert_eq!(s.stage, SetupStage::Seat);
    assert_eq!(s.advance(true), SetupAction::BindNotifier);
    assert_eq!(s.stage, SetupStage::Notifier);
    assert_eq!(s.advance(true), SetupAction::Subscribe(1000));
    assert_eq!(s.stage, SetupStage::Settle);
    assert_eq!(s.advance(true), SetupAction::Finish);
    assert_eq!(s.stage, SetupStage::Ready);
}

#[test]
fn missing_notifier_fails_setup() {
    let mut s = Setup::new(1);
    s.advance(true);
    s.advance(true);
    assert_eq!(
        s.advance(false),
        SetupAction::Abort { error: SetupError::MissingNotifier, destroy_notification: false }
    );
    assert_eq!(s.stage, SetupStage::Failed(SetupError::MissingNotifier));
}

#[test]
fn missing_seat_fails_setup() {
    let mut s = Setup::new(1);
    s.advance(true);
    assert_eq!(
        s.advance(false),
        SetupAction::Abort { error: SetupError::MissingSeat, destroy_notification: false }
    );
    assert_eq!(s.stage, SetupStage::Failed(SetupError::MissingSeat));
}

#[test]
fn registry_failure_fails_setup() {
    let mut s = Setup::new(1);
    assert_eq!(
        s.advance(false),
        SetupAction::Abort { error: SetupError::Registry, destroy_notification: false }
    );
    assert_eq!(s.stage, SetupStage::Failed(SetupError::Registry));
}

#[test]
fn oversized_timeout_fails_setup() {
    let mut s = Setup::new(5_000_000);
    s.advance(true);
    s.advance(true);
    assert_eq!(
        s.advance(true),
        SetupAction::Abort { error: SetupError::TimeoutTooLarge, destroy_notification: false }
    );
    assert_eq!(s.stage, SetupStage::Failed(SetupError::TimeoutTooLarge));
}

#[test]
fn settle_failure_releases_the_notification() {
    let mut s = Setup::new(30);
    s.advance(true);
    s.advance(true);
    assert_eq!(s.advance(true), SetupAction::Subscribe(30_000));
    assert_eq!(
        s.advance(false),
        SetupAction::Abort { error: SetupError::Settle, destroy_notification: true }
    );
    assert_eq!(s.stage, SetupStage::Failed(SetupError::Settle));
}
