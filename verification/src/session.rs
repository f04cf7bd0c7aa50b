//! The lock session state machine.
//!
//! A session is driven from outside: the caller owns the countdown, the event
//! subscription and the sinks, and feeds every wake-up into [`LockSession::step`],
//! then performs whatever the returned [`Outcome`] asks.  The machine itself
//! decides everything — which events matter, how a workspace is identified,
//! whether it is reverted, and when the session is over.

use vstd::prelude::*;
use crate::digits::{dec_i32, dec_int};
use crate::enforce::{enforce, spec_enforce, spec_last_after, Notice, Outcome};
use crate::policy::{IdentifierMode, Policy};
use crate::tracker::LastAllowedTracker;
use crate::wm::WorkspaceInfo;

verus! {

/// Lifecycle of a session.  `Ended` is terminal; the loop never restarts.
#[derive(Clone, Copy, PartialEq, Eq, Structural, Debug)]
pub enum SessionState {
    Starting,
    Running,
    Draining,
    Ended,
}

/// Kind of a workspace event.  Only focus changes are acted on; anything else
/// (renames, moves, reloads) does not represent a user-driven focus change
/// and is ignored to avoid acting on spurious state.
#[derive(Clone, Copy, PartialEq, Eq, Structural, Debug)]
pub enum EventKind {
    Focus,
    Other,
}

/// A workspace event as delivered by the subscription: its kind, and the
/// name and number of the workspace it concerns, where the window manager
/// reported them.
pub struct FocusEvent {
    pub kind: EventKind,
    pub name: Option<String>,
    pub num: Option<i32>,
}

/// What woke the running loop: the countdown firing, or the next event from
/// the subscription.
pub enum Wakeup {
    Timer,
    Event(FocusEvent),
}

/// The identifier of a reported workspace under `mode`: its name, or its
/// number rendered in decimal.  A workspace without a number under numeric
/// mode has no identifier — such a sighting is treated exactly like a missing
/// focused workspace, that is, disallowed.
pub open spec fn spec_identifier(
    name: Option<Seq<char>>,
    num: Option<i32>,
    mode: IdentifierMode,
) -> Option<Seq<char>> {
    match mode {
        IdentifierMode::Name => name,
        IdentifierMode::Number => match num {
            Some(n) => Some(dec_int(n as int)),
            None => None,
        },
    }
}

/// Extract the session identifier of a reported workspace.
pub fn identifier_of(name: &Option<String>, num: &Option<i32>, mode: IdentifierMode) -> (r: Option<
    String,
>)
    ensures
        r.deep_view() == spec_identifier(name.deep_view(), *num, mode),
{
    match mode {
        IdentifierMode::Name => match name {
            Some(n) => Some(n.clone()),
            None => None,
        },
        IdentifierMode::Number => match num {
            Some(n) => Some(dec_i32(*n)),
            None => None,
        },
    }
}

/// The identifier carried by an event.
pub open spec fn spec_event_identifier(ev: FocusEvent, mode: IdentifierMode) -> Option<Seq<char>> {
    spec_identifier(ev.name.deep_view(), ev.num, mode)
}

/// The identifier of an optional focused workspace from a listing.
pub open spec fn spec_focused_identifier(
    focused: Option<WorkspaceInfo>,
    mode: IdentifierMode,
) -> Option<Seq<char>> {
    match focused {
        Some(info) => spec_identifier(Some(info.name@), info.num, mode),
        None => None,
    }
}

/// The select rule of the running loop: when the countdown and an event are
/// ready in the same scheduling round, the countdown wins — session
/// termination preempts further enforcement.
pub fn arbitrate(timer_fired: bool, event: Option<FocusEvent>) -> (w: Wakeup)
    requires
        timer_fired || event is Some,
    ensures
        timer_fired ==> w is Timer,
        !timer_fired ==> (event matches Some(ev) && w == Wakeup::Event(ev)),
{
    if timer_fired {
        Wakeup::Timer
    } else {
        match event {
            Some(ev) => Wakeup::Event(ev),
            None => {
                proof {
                    assert(false);
                }
                Wakeup::Timer
            },
        }
    }
}

/// The workspace-lock state machine: the immutable policy, the sticky
/// fallback memory, and the lifecycle state.
pub struct LockSession {
    pub policy: Policy,
    pub tracker: LastAllowedTracker,
    pub state: SessionState,
}

impl LockSession {
    /// Session invariant: the policy offers a fallback, and without inversion
    /// the tracker always holds one — which is why the neutral-workspace
    /// command is reachable only under inversion.
    pub open spec fn wf(self) -> bool {
        &&& self.policy.wf()
        &&& (!self.policy.invert ==> self.tracker@ is Some)
    }

    /// A fresh session in `Starting`, its tracker seeded from the policy.
    pub fn new(policy: Policy) -> (s: Self)
        requires
            policy.wf(),
        ensures
            s.wf(),
            s.policy == policy,
            s.state == SessionState::Starting,
            !policy.invert ==> s.tracker@ == Some(policy@.allowed[0]),
            policy.invert ==> s.tracker@ is None,
    {
        let tracker = LastAllowedTracker::new(&policy);
        LockSession { policy, tracker, state: SessionState::Starting }
    }

    /// The one synchronous enforcement pass made against the currently
    /// focused workspace before any event is consumed, so the lock takes
    /// effect immediately even if focus never changes again.  Moves the
    /// session to `Running`.
    pub fn start(&mut self, focused: &Option<WorkspaceInfo>) -> (out: Outcome)
        requires
            old(self).wf(),
            old(self).state == SessionState::Starting,
        ensures
            final(self).wf(),
            final(self).policy == old(self).policy,
            final(self).state == SessionState::Running,
            out@ == spec_enforce(
                old(self).policy@,
                old(self).tracker@,
                spec_focused_identifier(*focused, old(self).policy@.mode),
            ),
            final(self).tracker@ == spec_last_after(
                old(self).policy@,
                old(self).tracker@,
                spec_focused_identifier(*focused, old(self).policy@.mode),
            ),
    {
        let current: Option<String> = match focused {
            Some(info) => identifier_of(&Some(info.name.clone()), &info.num, self.policy.mode),
            None => None,
        };
        let out = enforce(&current, &self.policy, &mut self.tracker);
        self.state = SessionState::Running;
        out
    }

    /// One turn of the running loop.  The countdown moves the session to
    /// `Draining` and raises the final unlock note; a focus event is
    /// classified and enforced; any other event changes nothing.
    pub fn step(&mut self, wakeup: Wakeup) -> (out: Outcome)
        requires
            old(self).wf(),
            old(self).state == SessionState::Running,
        ensures
            final(self).wf(),
            final(self).policy == old(self).policy,
            wakeup is Timer ==> {
                &&& final(self).state == SessionState::Draining
                &&& final(self).tracker == old(self).tracker
                &&& out.command is None
                &&& out.notice == Some(Notice::Unlocked)
            },
            wakeup matches Wakeup::Event(ev) ==> {
                &&& ev.kind == EventKind::Other ==> *final(self) == *old(self) && out.command
                    is None && out.notice is None
                &&& ev.kind == EventKind::Focus ==> {
                    let current = spec_event_identifier(ev, old(self).policy@.mode);
                    &&& final(self).state == SessionState::Running
                    &&& out@ == spec_enforce(old(self).policy@, old(self).tracker@, current)
                    &&& final(self).tracker@ == spec_last_after(
                        old(self).policy@,
                        old(self).tracker@,
                        current,
                    )
                }
            },
    {
        match wakeup {
            Wakeup::Timer => {
                self.state = SessionState::Draining;
                Outcome { command: None, notice: Some(Notice::Unlocked) }
            },
            Wakeup::Event(ev) => {
                match ev.kind {
                    EventKind::Other => Outcome { command: None, notice: None },
                    EventKind::Focus => {
                        let current = identifier_of(&ev.name, &ev.num, self.policy.mode);
                        enforce(&current, &self.policy, &mut self.tracker)
                    },
                }
            },
        }
    }

    /// Final transition: the drained session releases its subscription and
    /// ends.  Nothing else changes, and nothing follows.
    pub fn release(&mut self)
        requires
            old(self).state == SessionState::Draining,
        ensures
            final(self).state == SessionState::Ended,
            final(self).policy == old(self).policy,
            final(self).tracker == old(self).tracker,
    {
        self.state = SessionState::Ended;
    }
}

} // verus!
