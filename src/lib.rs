//! Idle-time tracking for a compositor session that speaks the idle-notification
//! protocol.
//!
//! The library holds the decisions: the idle/active state machine driven by the
//! compositor's "idled" and "resumed" events, the reading of whole idle seconds
//! from a monotonic clock, and the teardown discipline of the notification
//! object. The protocol objects themselves live with the caller, which feeds
//! the events it dispatches into an [`IdleSession`].
pub mod clock;
pub mod idle;
pub mod session;
pub mod setup;

pub use clock::MAX_CLOCK_NANOS;
pub use clock::NANOS_PER_SEC;
pub use idle::IdleState;
pub use idle::NotificationEvent;
pub use session::IdleSession;
pub use session::TeardownOp;
pub use session::timeout_millis;
pub use setup::Setup;
pub use setup::SetupAction;
pub use setup::SetupError;
pub use setup::SetupStage;
