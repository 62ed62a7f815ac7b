//! The steps that build a session, as a state machine.
//!
//! The caller performs each step against the compositor and reports whether it
//! succeeded; [`Setup::advance`] then names the next step. Every failure is
//! fatal: no session is handed out unless every step succeeded.
use vstd::prelude::*;

use crate::session::timeout_millis;

verus! {

/// Why a session could not be built.
#[derive(Clone, Copy, Debug, PartialEq, Eq, Structural)]
pub enum SetupError {
    /// The initial enumeration of globals failed.
    Registry,
    /// The compositor advertises no usable seat.
    MissingSeat,
    /// The compositor advertises no usable idle notifier.
    MissingNotifier,
    /// The timeout in milliseconds does not fit the protocol's 32-bit field.
    TimeoutTooLarge,
    /// The settling round-trip failed.
    Settle,
}

/// Where a setup stands: the step whose outcome is awaited, or the end.
#[derive(Clone, Copy, Debug, PartialEq, Eq, Structural)]
pub enum SetupStage {
    /// Enumerating the globals.
    Registry,
    /// Binding the seat.
    Seat,
    /// Binding the idle notifier.
    Notifier,
    /// Requesting the notification object and settling with one round-trip.
    Settle,
    /// Every step succeeded.
    Ready,
    /// A step failed.
    Failed(SetupError),
}

/// What the caller does next.
#[derive(Clone, Copy, Debug, PartialEq, Eq, Structural)]
pub enum SetupAction {
    /// Bind the seat.
    BindSeat,
    /// Bind the idle notifier.
    BindNotifier,
    /// Request the notification object with this timeout in milliseconds,
    /// then settle with one blocking round-trip.
    Subscribe(u32),
    /// Hand out the session.
    Finish,
    /// Give up. Where `destroy_notification` holds, the notification object
    /// was already requested and its destroy request is sent first.
    Abort { error: SetupError, destroy_notification: bool },
}

/// A session under construction.
#[derive(Clone, Copy, Debug, PartialEq, Eq, Structural)]
pub struct Setup {
    pub stage: SetupStage,
    pub timeout_seconds: u32,
}

impl Setup {
    /// Setup is over, either way.
    pub open spec fn is_done(self) -> bool {
        self.stage is Ready || self.stage is Failed
    }

    /// The setup after the awaited step ended with outcome `ok`, and the
    /// action it calls for.
    pub open spec fn next(self, ok: bool) -> (Setup, SetupAction) {
        let fail = |e: SetupError, d: bool| (
            Setup { stage: SetupStage::Failed(e), ..self },
            SetupAction::Abort { error: e, destroy_notification: d },
        );
        match self.stage {
            SetupStage::Registry => if ok {
                (Setup { stage: SetupStage::Seat, ..self }, SetupAction::BindSeat)
            } else {
                fail(SetupError::Registry, false)
            },
            SetupStage::Seat => if ok {
                (Setup { stage: SetupStage::Notifier, ..self }, SetupAction::BindNotifier)
            } else {
                fail(SetupError::MissingSeat, false)
            },
            SetupStage::Notifier => if !ok {
                fail(SetupError::MissingNotifier, false)
            } else if self.timeout_seconds * 1000 <= u32::MAX {
                (
                    Setup { stage: SetupStage::Settle, ..self },
                    SetupAction::Subscribe((self.timeout_seconds * 1000) as u32),
                )
            } else {
                fail(SetupError::TimeoutTooLarge, false)
            },
            SetupStage::Settle => if ok {
                (Setup { stage: SetupStage::Ready, ..self }, SetupAction::Finish)
            } else {
                fail(SetupError::Settle, true)
            },
            _ => (self, SetupAction::Finish),
        }
    }

    /// The setup after the outcomes `outs` were reported in order; outcomes
    /// after the end are not looked at.
    pub open spec fn run(self, outs: Seq<bool>) -> Setup
        decreases outs.len(),
    {
        if outs.len() == 0 || self.is_done() {
            self
        } else {
            self.next(outs[0]).0.run(outs.drop_first())
        }
    }

    /// A setup for a notification timeout of `timeout_seconds`; its first
    /// step, the enumeration of globals, is awaited.
    pub fn new(timeout_seconds: u32) -> (r: Setup)
        ensures
            r == (Setup { stage: SetupStage::Registry, timeout_seconds }),
    {
        Setup { stage: SetupStage::Registry, timeout_seconds }
    }

    /// Reports the outcome of the awaited step and returns what to do next.
    pub fn advance(&mut self, ok: bool) -> (r: SetupAction)
        requires
            !old(self).is_done(),
        ensures
            (*final(self), r) == old(self).next(ok),
    {
        match self.stage {
            SetupStage::Registry => if ok {
                self.stage = SetupStage::Seat;
                SetupAction::BindSeat
            } else {
                self.fail(SetupError::Registry, false)
            },
            SetupStage::Seat => if ok {
                self.stage = SetupStage::Notifier;
                SetupAction::BindNotifier
            } else {
                self.fail(SetupError::MissingSeat, false)
            },
            SetupStage::Notifier => if !ok {
                self.fail(SetupError::MissingNotifier, false)
            } else {
                match timeout_millis(self.timeout_seconds) {
                    Some(ms) => {
                        self.stage = SetupStage::Settle;
                        SetupAction::Subscribe(ms)
                    },
                    None => self.fail(SetupError::TimeoutTooLarge, false),
                }
            },
            SetupStage::Settle => if ok {
                self.stage = SetupStage::Ready;
                SetupAction::Finish
            } else {
                self.fail(SetupError::Settle, true)
            },
            _ => SetupAction::Finish,
        }
    }

    fn fail(&mut self, error: SetupError, destroy_notification: bool) -> (r: SetupAction)
        ensures
            *final(self) == (Setup { stage: SetupStage::Failed(error), ..*old(self) }),
            r == (SetupAction::Abort { error, destroy_notification }),
    {
        self.stage = SetupStage::Failed(error);
        SetupAction::Abort { error, destroy_notification }
    }
}

/// Once setup is over, further outcomes change nothing.
pub proof fn lemma_done_stays(s: Setup, outs: Seq<bool>)
    requires
        s.is_done(),
    ensures
        s.run(outs) == s,
{
}

/// A session is handed out if and only if the enumeration of globals, both
/// binds and the settling round-trip all succeeded, and the timeout fits the
/// protocol.
pub proof fn lemma_ready_iff_every_step_succeeds(timeout_seconds: u32, outs: Seq<bool>)
    ensures
        (Setup { stage: SetupStage::Registry, timeout_seconds }).run(outs).stage
            == SetupStage::Ready <==> outs.len() >= 4 && outs[0] && outs[1] && outs[2] && outs[3]
            && timeout_seconds * 1000 <= u32::MAX,
{
    let s0 = Setup { stage: SetupStage::Registry, timeout_seconds };
    if outs.len() > 0 {
        let o1 = outs.drop_first();
        let s1 = s0.next(outs[0]).0;
        assert(s0.run(outs) == s1.run(o1));
        if o1.len() > 0 {
            let o2 = o1.drop_first();
            let s2 = s1.next(o1[0]).0;
            assert(o1[0] == outs[1]);
            if !s1.is_done() {
                assert(s1.run(o1) == s2.run(o2));
            }
            if o2.len() > 0 {
                let o3 = o2.drop_first();
                let s3 = s2.next(o2[0]).0;
                assert(o2[0] == outs[2]);
                if !s2.is_done() {
                    assert(s2.run(o2) == s3.run(o3));
                }
                if o3.len() > 0 {
                    let s4 = s3.next(o3[0]).0;
                    assert(o3[0] == outs[3]);
                    if !s3.is_done() {
                        assert(s3.run(o3) == s4.run(o3.drop_first()));
                    }
                    lemma_done_stays(s4, o3.drop_first());
                }
            }
        }
    }
}

/// Where the compositor advertises no usable idle notifier, setup fails with
/// that error after the seat is bound, and no session is handed out.
pub proof fn lemma_missing_notifier_fails(timeout_seconds: u32, outs: Seq<bool>)
    requires
        outs.len() >= 3,
        outs[0],
        outs[1],
        !outs[2],
    ensures
        (Setup { stage: SetupStage::Registry, timeout_seconds }).run(outs).stage
            == SetupStage::Failed(SetupError::MissingNotifier),
{
    let s0 = Setup { stage: SetupStage::Registry, timeout_seconds };
    let o1 = outs.drop_first();
    let o2 = o1.drop_first();
    let s1 = s0.next(outs[0]).0;
    let s2 = s1.next(o1[0]).0;
    let s3 = s2.next(o2[0]).0;
    assert(o1[0] == outs[1]);
    assert(o2[0] == outs[2]);
    assert(s0.run(outs) == s1.run(o1));
    assert(s1.run(o1) == s2.run(o2));
    assert(s2.run(o2) == s3.run(o2.drop_first()));
    lemma_done_stays(s3, o2.drop_first());
}

} // verus!
