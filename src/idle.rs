//! The idle/active state machine of one idle-notification subscription.
use vstd::prelude::*;

use crate::clock::MAX_CLOCK_NANOS;
use crate::clock::NANOS_PER_SEC;

verus! {

/// An event of the idle-notification object that the state machine acts on.
/// Any other event of the protocol is ignored before it gets here.
#[derive(Clone, Copy, Debug, PartialEq, Eq, Structural)]
pub enum NotificationEvent {
    /// The seat has had no activity for the subscription's timeout.
    Idled,
    /// Activity resumed on the seat after an `Idled`.
    Resumed,
}

/// Idle status of the session.
///
/// `idle_since` is the clock reading (nanoseconds since the session's origin)
/// taken when the last `Idled` event was applied; it is present exactly when
/// `is_idle` holds. `is_changed` is raised by every transition and cleared by
/// nothing in this library: it is left for consumers that want to detect one.
#[derive(Clone, Copy, Debug, PartialEq, Eq)]
pub struct IdleState {
    pub is_idle: bool,
    pub is_changed: bool,
    pub idle_since: Option<u128>,
}

/// Nanoseconds from `since` to `now`, zero where `now` is earlier.
pub open spec fn elapsed_nanos(since: u128, now: u128) -> int {
    if now >= since {
        now - since
    } else {
        0
    }
}

impl IdleState {
    /// `idle_since` is present if and only if the session is idle.
    pub open spec fn wf(&self) -> bool {
        self.idle_since.is_some() == self.is_idle
    }

    /// The state a session starts in: active, unchanged.
    pub open spec fn initial() -> IdleState {
        IdleState { is_idle: false, is_changed: false, idle_since: None }
    }

    /// The state after `ev` is applied at clock reading `now`.
    pub open spec fn step(self, ev: NotificationEvent, now: u128) -> IdleState {
        match ev {
            NotificationEvent::Idled => IdleState {
                is_idle: true,
                is_changed: true,
                idle_since: Some(now),
            },
            NotificationEvent::Resumed => IdleState {
                is_idle: false,
                is_changed: true,
                idle_since: None,
            },
        }
    }

    /// The state after each `(event, clock reading)` pair of `evs` is applied
    /// in order.
    pub open spec fn replay(self, evs: Seq<(NotificationEvent, u128)>) -> IdleState
        decreases evs.len(),
    {
        if evs.len() == 0 {
            self
        } else {
            self.step(evs[0].0, evs[0].1).replay(evs.drop_first())
        }
    }

    /// Whole seconds of idleness at clock reading `now`: zero while active,
    /// else the time since `idle_since` truncated to seconds.
    pub open spec fn idle_seconds_at(self, now: u128) -> int {
        match self.idle_since {
            None => 0,
            Some(since) => elapsed_nanos(since, now) / (NANOS_PER_SEC as int),
        }
    }

    /// A new, active state.
    pub fn new() -> (r: IdleState)
        ensures
            r == IdleState::initial(),
            r.wf(),
            forall|now: u128| r.idle_seconds_at(now) == 0,
    {
        IdleState { is_idle: false, is_changed: false, idle_since: None }
    }

    /// Enters the idle state at clock reading `now`.
    pub fn idle(&mut self, now: u128)
        ensures
            *final(self) == old(self).step(NotificationEvent::Idled, now),
            final(self).wf(),
    {
        self.is_idle = true;
        self.is_changed = true;
        self.idle_since = Some(now);
    }

    /// Returns to the active state.
    pub fn resume(&mut self)
        ensures
            *final(self) == old(self).step(NotificationEvent::Resumed, 0),
            final(self).wf(),
    {
        self.is_idle = false;
        self.is_changed = true;
        self.idle_since = None;
    }

    /// Applies one event of the notification object at clock reading `now`.
    pub fn apply(&mut self, ev: NotificationEvent, now: u128)
        ensures
            *final(self) == old(self).step(ev, now),
            final(self).wf(),
    {
        match ev {
            NotificationEvent::Idled => self.idle(now),
            NotificationEvent::Resumed => self.resume(),
        }
    }

    /// Whole seconds of idleness at clock reading `now`.
    pub fn idle_seconds(&self, now: u128) -> (r: u64)
        requires
            now <= MAX_CLOCK_NANOS,
        ensures
            r == self.idle_seconds_at(now),
    {
        match self.idle_since {
            None => 0,
            Some(since) => {
                let elapsed: u128 = if now >= since { now - since } else { 0 };
                let secs: u128 = elapsed / NANOS_PER_SEC;
                assert(secs <= 18_446_744_073_709_551_615) by (nonlinear_arith)
                    requires
                        elapsed <= MAX_CLOCK_NANOS,
                        secs == elapsed / NANOS_PER_SEC,
                        NANOS_PER_SEC == 1_000_000_000,
                        MAX_CLOCK_NANOS == 18_446_744_073_709_551_615 * 1_000_000_000 + 999_999_999,
                ;
                secs as u64
            },
        }
    }
}

/// Every state the machine reaches from a well-formed state, through any
/// events at any clock readings, is well-formed: `idle_since` is present
/// exactly while idle.
pub proof fn lemma_replay_keeps_wf(s: IdleState, evs: Seq<(NotificationEvent, u128)>)
    requires
        s.wf(),
    ensures
        s.replay(evs).wf(),
    decreases evs.len(),
{
    if evs.len() > 0 {
        lemma_replay_keeps_wf(s.step(evs[0].0, evs[0].1), evs.drop_first());
    }
}

/// Without events in between, reading the idle time does not depend on when
/// it is read while active (it is zero), and while idle it never goes down
/// from one reading to a later one.
pub proof fn lemma_repeated_reads(s: IdleState, now1: u128, now2: u128)
    requires
        s.wf(),
        now1 <= now2,
    ensures
        !s.is_idle ==> s.idle_seconds_at(now1) == 0 && s.idle_seconds_at(now2) == 0,
        s.idle_seconds_at(now1) <= s.idle_seconds_at(now2),
{
    if let Some(since) = s.idle_since {
        vstd::arithmetic::div_mod::lemma_div_is_ordered(
            elapsed_nanos(since, now1),
            elapsed_nanos(since, now2),
            NANOS_PER_SEC as int,
        );
    }
}

/// After an `Idled` event applied at `t0`, a reading at `t1`, at least
/// `d` and less than `d + 1` whole seconds later, returns `d`.
pub proof fn lemma_idled_then_read(s: IdleState, t0: u128, t1: u128, d: nat)
    requires
        t0 <= t1,
        d * NANOS_PER_SEC <= t1 - t0 < (d + 1) * NANOS_PER_SEC,
    ensures
        s.step(NotificationEvent::Idled, t0).idle_seconds_at(t1) == d,
        s.step(NotificationEvent::Idled, t0).idle_seconds_at(t1) == (t1 - t0) / (
        NANOS_PER_SEC as int),
{
    let e = (t1 - t0) as int;
    let n = NANOS_PER_SEC as int;
    vstd::arithmetic::div_mod::lemma_fundamental_div_mod_converse(e, n, d as int, e - d * n);
}

/// After a `Resumed` event, every reading is zero until an `Idled` event
/// arrives, whatever else is applied and whenever it is read.
pub proof fn lemma_resumed_reads_zero(
    s: IdleState,
    t: u128,
    evs: Seq<(NotificationEvent, u128)>,
    now: u128,
)
    requires
        forall|i: int| 0 <= i < evs.len() ==> evs[i].0 != NotificationEvent::Idled,
    ensures
        s.step(NotificationEvent::Resumed, t).replay(evs).idle_seconds_at(now) == 0,
        !s.step(NotificationEvent::Resumed, t).replay(evs).is_idle,
    decreases evs.len(),
{
    if evs.len() > 0 {
        let r = s.step(NotificationEvent::Resumed, t);
        assert(r.step(evs[0].0, evs[0].1) == r);
        lemma_resumed_reads_zero(s, t, evs.drop_first(), now);
    }
}

} // verus!
