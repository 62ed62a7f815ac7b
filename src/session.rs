//! One idle-notification session: its idle state, the clock its readings come
//! from, and the lifecycle of the notification object it subscribed with.
use vstd::prelude::*;

use crate::clock::nanos_since;
use crate::clock::MAX_CLOCK_NANOS;
use crate::clock::NANOS_PER_SEC;
use crate::idle::lemma_idled_then_read;
use crate::idle::lemma_repeated_reads;
use crate::idle::IdleState;
use crate::idle::NotificationEvent;

verus! {

/// Milliseconds in one second.
pub const MILLIS_PER_SEC: u32 = 1000;

/// The protocol's timeout, in milliseconds, for a timeout of `timeout_seconds`
/// whole seconds; `None` where it does not fit the protocol's 32-bit field.
pub fn timeout_millis(timeout_seconds: u32) -> (r: Option<u32>)
    ensures
        r == (if timeout_seconds * 1000 <= u32::MAX {
            Some((timeout_seconds * 1000) as u32)
        } else {
            None::<u32>
        }),
{
    timeout_seconds.checked_mul(MILLIS_PER_SEC)
}

/// A step of teardown.
#[derive(Clone, Copy, Debug, PartialEq, Eq, Structural)]
pub enum TeardownOp {
    /// Release the notification object, keeping the connection.
    ReleaseNotification,
    /// Close the connection, releasing the notification object first.
    CloseConnection,
}

/// The library's half of a session.
///
/// `notification_live` says that the compositor still holds the notification
/// object, and `connection_open` that the connection it was made on is still
/// up. A destroy request is sent at most once, and only while the connection
/// is open.
///
/// `last_reading` is the latest clock reading taken, in nanoseconds since
/// `origin`; readings never go back, and every event is stamped with one.
pub struct IdleSession {
    pub state: IdleState,
    pub origin: std::time::Instant,
    pub last_reading: u128,
    pub timeout_millis: u32,
    pub notification_live: bool,
    pub connection_open: bool,
}

impl IdleSession {
    pub open spec fn wf(&self) -> bool {
        &&& self.state.wf()
        &&& self.notification_live ==> self.connection_open
        &&& self.last_reading <= MAX_CLOCK_NANOS
        &&& self.state.idle_since matches Some(t) ==> t <= self.last_reading
    }

    /// What a query does: the clock reading moves forward to
    /// `after.last_reading`, nothing else changes, and `r` is the idle time
    /// at that reading.
    pub open spec fn query_post(self, after: IdleSession, r: u64) -> bool {
        &&& after.wf()
        &&& after.last_reading >= self.last_reading
        &&& after == (IdleSession { last_reading: after.last_reading, ..self })
        &&& r == self.state.idle_seconds_at(after.last_reading)
    }

    /// What handling event `ev` does: the clock reading moves forward to
    /// `after.last_reading`, and the event is applied at that reading.
    pub open spec fn event_post(self, after: IdleSession, ev: NotificationEvent) -> bool {
        &&& after.wf()
        &&& after.last_reading >= self.last_reading
        &&& after == (IdleSession {
            state: self.state.step(ev, after.last_reading),
            last_reading: after.last_reading,
            ..self
        })
    }

    /// The session after teardown step `op`, and whether that step sends the
    /// destroy request for the notification object.
    pub open spec fn teardown_step(self, op: TeardownOp) -> (IdleSession, bool) {
        let send = self.notification_live && self.connection_open;
        match op {
            TeardownOp::ReleaseNotification => (
                IdleSession { notification_live: false, ..self },
                send,
            ),
            TeardownOp::CloseConnection => (
                IdleSession { notification_live: false, connection_open: false, ..self },
                send,
            ),
        }
    }

    /// The session after the teardown steps `ops` are applied in order.
    pub open spec fn teardown_run(self, ops: Seq<TeardownOp>) -> IdleSession
        decreases ops.len(),
    {
        if ops.len() == 0 {
            self
        } else {
            self.teardown_step(ops[0]).0.teardown_run(ops.drop_first())
        }
    }

    /// How many destroy requests the teardown steps `ops` send, applied in
    /// order.
    pub open spec fn destroys_sent(self, ops: Seq<TeardownOp>) -> nat
        decreases ops.len(),
    {
        if ops.len() == 0 {
            0
        } else {
            let (next, send) = self.teardown_step(ops[0]);
            (if send { 1nat } else { 0nat }) + next.destroys_sent(ops.drop_first())
        }
    }

    /// A session whose notification object was just requested with a
    /// timeout of `timeout_millis` milliseconds. It starts active, with its
    /// clock at zero.
    pub fn new(timeout_millis: u32) -> (r: IdleSession)
        ensures
            r.wf(),
            r.state == IdleState::initial(),
            r.last_reading == 0,
            r.timeout_millis == timeout_millis,
            r.notification_live,
            r.connection_open,
            forall|now: u128| r.state.idle_seconds_at(now) == 0,
    {
        IdleSession {
            state: IdleState::new(),
            origin: std::time::Instant::now(),
            last_reading: 0,
            timeout_millis,
            notification_live: true,
            connection_open: true,
        }
    }

    /// Takes a clock reading: nanoseconds since the session started, never
    /// less than the reading before. It becomes `last_reading`.
    pub fn now(&mut self) -> (r: u128)
        requires
            old(self).wf(),
        ensures
            final(self).wf(),
            r >= old(self).last_reading,
            *final(self) == (IdleSession { last_reading: r, ..*old(self) }),
    {
        let raw = nanos_since(&self.origin);
        let r = if raw >= self.last_reading {
            raw
        } else {
            self.last_reading
        };
        self.last_reading = r;
        r
    }

    /// Applies one event of the notification object, stamped with a fresh
    /// clock reading.
    pub fn handle_event(&mut self, ev: NotificationEvent)
        requires
            old(self).wf(),
        ensures
            old(self).event_post(*final(self), ev),
            final(self).state == old(self).state.step(ev, final(self).last_reading),
    {
        let now = self.now();
        self.state.apply(ev, now);
    }

    /// Reads the whole seconds of idleness at a fresh clock reading. Only the
    /// reading is recorded; the state is left as it is.
    pub fn idle_seconds(&mut self) -> (r: u64)
        requires
            old(self).wf(),
        ensures
            old(self).query_post(*final(self), r),
            final(self).state == old(self).state,
            final(self).last_reading >= old(self).last_reading,
            r == old(self).state.idle_seconds_at(final(self).last_reading),
    {
        let now = self.now();
        self.state.idle_seconds(now)
    }

    /// Marks the notification object released. Returns whether the destroy
    /// request is to be sent now: exactly when the object is still live.
    pub fn release_notification(&mut self) -> (send_destroy: bool)
        requires
            old(self).wf(),
        ensures
            final(self).wf(),
            (*final(self), send_destroy) == old(self).teardown_step(
                TeardownOp::ReleaseNotification,
            ),
    {
        let send_destroy = self.notification_live && self.connection_open;
        self.notification_live = false;
        send_destroy
    }

    /// Marks the connection closed. Returns whether the destroy request for
    /// the notification object is to be sent first, before the connection
    /// goes.
    pub fn close_connection(&mut self) -> (send_destroy: bool)
        requires
            old(self).wf(),
        ensures
            final(self).wf(),
            (*final(self), send_destroy) == old(self).teardown_step(TeardownOp::CloseConnection),
    {
        let send_destroy = self.notification_live && self.connection_open;
        self.notification_live = false;
        self.connection_open = false;
        send_destroy
    }

    /// Applies one teardown step.
    pub fn teardown(&mut self, op: TeardownOp) -> (send_destroy: bool)
        requires
            old(self).wf(),
        ensures
            final(self).wf(),
            (*final(self), send_destroy) == old(self).teardown_step(op),
    {
        match op {
            TeardownOp::ReleaseNotification => self.release_notification(),
            TeardownOp::CloseConnection => self.close_connection(),
        }
    }
}

/// Through any number of handled events, every session reached keeps
/// `idle_since` present exactly while idle, and its stamp no later than the
/// latest clock reading. `sessions[i + 1]` is the session after event `evs[i]`.
pub proof fn lemma_events_keep_wf(sessions: Seq<IdleSession>, evs: Seq<NotificationEvent>)
    requires
        sessions.len() == evs.len() + 1,
        sessions[0].wf(),
        forall|i: int| 0 <= i < evs.len() ==> #[trigger] sessions[i].event_post(sessions[i + 1], evs[i]),
    ensures
        forall|i: int| 0 <= i < sessions.len() ==> #[trigger] sessions[i].wf(),
        forall|i: int|
            0 <= i < sessions.len() ==> (#[trigger] sessions[i].state.idle_since).is_some()
                == sessions[i].state.is_idle,
{
    assert forall|i: int| 0 <= i < sessions.len() implies #[trigger] sessions[i].wf() by {
        if i > 0 {
            let j = i - 1;
            assert(sessions[j].event_post(sessions[j + 1], evs[j]));
            assert(j + 1 == i);
        }
    }
    assert forall|i: int| 0 <= i < sessions.len() implies (
    #[trigger] sessions[i].state.idle_since).is_some() == sessions[i].state.is_idle by {
        assert(sessions[i].wf());
    }
}

/// Two queries with no event in between: while active both read zero, the
/// second never reads less than the first, and at the same clock reading
/// they agree.
pub proof fn lemma_repeated_queries(
    s0: IdleSession,
    s1: IdleSession,
    s2: IdleSession,
    r1: u64,
    r2: u64,
)
    requires
        s0.wf(),
        s0.query_post(s1, r1),
        s1.query_post(s2, r2),
    ensures
        r1 <= r2,
        !s0.state.is_idle ==> r1 == 0 && r2 == 0,
        s1.last_reading == s2.last_reading ==> r1 == r2,
{
    lemma_repeated_reads(s0.state, s1.last_reading, s2.last_reading);
}

/// A query `d` whole seconds (and less than `d + 1`) after an `Idled` event
/// was handled reads `d`.
pub proof fn lemma_idled_then_query(
    s0: IdleSession,
    s1: IdleSession,
    s2: IdleSession,
    r: u64,
    d: nat,
)
    requires
        s0.wf(),
        s0.event_post(s1, NotificationEvent::Idled),
        s1.query_post(s2, r),
        d * NANOS_PER_SEC <= s2.last_reading - s1.last_reading < (d + 1) * NANOS_PER_SEC,
    ensures
        r == d,
{
    lemma_idled_then_read(s0.state, s1.last_reading, s2.last_reading, d);
}

/// After a `Resumed` event is handled, any number of further events none of
/// which is `Idled` leave the session active, and a query then reads zero.
/// `sessions[i + 1]` is the session after event `evs[i]`.
pub proof fn lemma_resumed_then_query(
    sessions: Seq<IdleSession>,
    evs: Seq<NotificationEvent>,
    end: IdleSession,
    r: u64,
)
    requires
        evs.len() >= 1,
        sessions.len() == evs.len() + 1,
        sessions[0].wf(),
        forall|i: int| 0 <= i < evs.len() ==> #[trigger] sessions[i].event_post(sessions[i + 1], evs[i]),
        evs[0] == NotificationEvent::Resumed,
        forall|i: int| 1 <= i < evs.len() ==> evs[i] != NotificationEvent::Idled,
        sessions.last().query_post(end, r),
    ensures
        r == 0,
        !sessions.last().state.is_idle,
{
    let k = evs.len() - 1;
    assert(sessions[k].event_post(sessions[k + 1], evs[k]));
}

/// Teardown sends the destroy request for the notification object at most
/// once, whatever steps are taken in whatever order, and exactly once when a
/// live object's connection is closed.
pub proof fn lemma_destroy_sent_once(s: IdleSession, ops: Seq<TeardownOp>)
    requires
        s.wf(),
    ensures
        s.destroys_sent(ops) <= (if s.notification_live { 1nat } else { 0nat }),
        s.notification_live && ops.contains(TeardownOp::CloseConnection) ==> s.destroys_sent(ops)
            == 1,
        s.teardown_run(ops).wf(),
    decreases ops.len(),
{
    if ops.len() > 0 {
        let next = s.teardown_step(ops[0]).0;
        lemma_destroy_sent_once(next, ops.drop_first());
        lemma_released_sends_nothing(next, ops.drop_first());
        if s.notification_live && ops.contains(TeardownOp::CloseConnection)
            && ops[0] != TeardownOp::CloseConnection {
            let i = choose|i: int| 0 <= i < ops.len() && ops[i] == TeardownOp::CloseConnection;
            assert(ops.drop_first()[i - 1] == TeardownOp::CloseConnection);
        }
    }
}

/// Once the notification object is released, or the connection is gone, no
/// teardown step sends a destroy request.
pub proof fn lemma_released_sends_nothing(s: IdleSession, ops: Seq<TeardownOp>)
    requires
        s.wf(),
        !s.notification_live || !s.connection_open,
    ensures
        s.destroys_sent(ops) == 0,
        !s.teardown_run(ops).notification_live,
    decreases ops.len(),
{
    if ops.len() > 0 {
        lemma_released_sends_nothing(s.teardown_step(ops[0]).0, ops.drop_first());
    }
}

} // verus!
