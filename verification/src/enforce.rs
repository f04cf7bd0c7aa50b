//! Turning a policy verdict into a corrective command and an alert.

use vstd::prelude::*;
use crate::policy::{
    contains_string, is_disallowed, spec_disallowed, spec_member, IdentifierMode, Policy,
    SpecPolicy,
};
use crate::tracker::LastAllowedTracker;

verus! {

/// Urgency of a desktop notification.
#[derive(Clone, Copy, PartialEq, Eq, Structural, Debug)]
pub enum Urgency {
    Normal,
    Critical,
}

/// The alerts a session raises: the late pre-warning before a delayed start,
/// the alert on a reverted switch, and the final note when the lock expires.
#[derive(Clone, Copy, PartialEq, Eq, Structural, Debug)]
pub enum Notice {
    LockingSoon,
    Locked,
    Unlocked,
}

impl Notice {
    /// Summary line of the notification.
    pub open spec fn spec_summary(self) -> Seq<char> {
        match self {
            Notice::LockingSoon => "Workspaces locking in 10 seconds!"@,
            Notice::Locked => "Workspace locked!"@,
            Notice::Unlocked => "Workspaces unlocked"@,
        }
    }

    pub fn summary(&self) -> (r: String)
        ensures
            r@ == self.spec_summary(),
    {
        match self {
            Notice::LockingSoon => String::from_str("Workspaces locking in 10 seconds!"),
            Notice::Locked => String::from_str("Workspace locked!"),
            Notice::Unlocked => String::from_str("Workspaces unlocked"),
        }
    }

    /// Alerts about the lock taking or keeping effect are critical; the final
    /// unlock note is ordinary.
    pub open spec fn spec_urgency(self) -> Urgency {
        match self {
            Notice::LockingSoon => Urgency::Critical,
            Notice::Locked => Urgency::Critical,
            Notice::Unlocked => Urgency::Normal,
        }
    }

    pub fn urgency(&self) -> (r: Urgency)
        ensures
            r == self.spec_urgency(),
    {
        match self {
            Notice::LockingSoon => Urgency::Critical,
            Notice::Locked => Urgency::Critical,
            Notice::Unlocked => Urgency::Normal,
        }
    }

    /// How long the notification stays on screen, in milliseconds.
    pub open spec fn spec_timeout_ms(self) -> u32 {
        match self {
            Notice::LockingSoon => 10_000,
            Notice::Locked => 2_000,
            Notice::Unlocked => 2_000,
        }
    }

    pub fn timeout_ms(&self) -> (r: u32)
        ensures
            r == self.spec_timeout_ms(),
    {
        match self {
            Notice::LockingSoon => 10_000,
            Notice::Locked => 2_000,
            Notice::Unlocked => 2_000,
        }
    }
}

/// Mathematical model of a [`Command`].
pub enum SpecCommand {
    Switch { mode: IdentifierMode, target: Seq<char> },
    SwitchNeutral { target: Seq<char> },
}

/// A corrective command for the window manager: switch to a workspace
/// addressed by name or by number, or — when no fallback exists yet — to a
/// neutral landing workspace whose identifier is chosen to lie outside the
/// allow list.
#[derive(Debug)]
pub enum Command {
    Switch { mode: IdentifierMode, target: String },
    SwitchNeutral { target: String },
}

impl View for Command {
    type V = SpecCommand;

    open spec fn view(&self) -> SpecCommand {
        match self {
            Command::Switch { mode, target } => (SpecCommand::Switch {
                mode: *mode,
                target: target@,
            }),
            Command::SwitchNeutral { target } => (SpecCommand::SwitchNeutral { target: target@ }),
        }
    }
}

/// The wire text of a command.  The neutral landing workspace is addressed by
/// name: its identifier is a fresh name, not a number.
pub open spec fn spec_command_text(c: SpecCommand) -> Seq<char> {
    match c {
        SpecCommand::Switch { mode, target } => if mode == IdentifierMode::Number {
            "workspace number "@ + target
        } else {
            "workspace "@ + target
        },
        SpecCommand::SwitchNeutral { target } => "workspace "@ + target,
    }
}

impl Command {
    /// Render the command as the window manager expects it on the wire.
    pub fn text(&self) -> (r: String)
        ensures
            r@ == spec_command_text(self@),
    {
        match self {
            Command::Switch { mode, target } => {
                let prefix = match mode {
                    IdentifierMode::Name => "workspace ",
                    IdentifierMode::Number => "workspace number ",
                };
                String::from_str(prefix).concat(target.as_str())
            },
            Command::SwitchNeutral { target } => String::from_str("workspace ").concat(
                target.as_str(),
            ),
        }
    }
}

/// Length of the longest identifier among `entries`.
pub open spec fn spec_max_len(entries: Seq<Seq<char>>) -> nat
    decreases entries.len(),
{
    if entries.len() == 0 {
        0
    } else if entries.last().len() > spec_max_len(entries.drop_last()) {
        entries.last().len()
    } else {
        spec_max_len(entries.drop_last())
    }
}

/// A listed identifier is never longer than the longest one.
pub proof fn lemma_member_len_le_max(entries: Seq<Seq<char>>, ws: Seq<char>)
    requires
        entries.contains(ws),
    ensures
        ws.len() <= spec_max_len(entries),
    decreases entries.len(),
{
    if entries.last() != ws {
        let i = choose|i: int| 0 <= i < entries.len() && entries[i] == ws;
        assert(entries.drop_last()[i] == ws);
        assert(entries.drop_last().contains(ws));
        lemma_member_len_le_max(entries.drop_last(), ws);
    }
}

/// The first extension of `candidate` by underscores that is not a listed
/// identifier.  It exists because the list is finite: any candidate longer
/// than every entry is free.
pub open spec fn spec_neutral_from(allowed: Seq<Seq<char>>, candidate: Seq<char>) -> Seq<char>
    decreases spec_max_len(allowed) + 1 - candidate.len(),
{
    if allowed.contains(candidate) {
        proof {
            lemma_member_len_le_max(allowed, candidate);
        }
        spec_neutral_from(allowed, candidate + seq!['_'])
    } else {
        candidate
    }
}

/// The neutral landing target for an allow list: the reserved name, extended
/// with underscores just far enough to collide with no listed identifier —
/// plain `temp` whenever that is not listed, as a window manager treats an
/// unknown name as a request for a fresh workspace.
pub open spec fn spec_neutral(allowed: Seq<Seq<char>>) -> Seq<char> {
    spec_neutral_from(allowed, "temp"@)
}

pub proof fn lemma_neutral_from_not_allowed(allowed: Seq<Seq<char>>, candidate: Seq<char>)
    ensures
        !allowed.contains(spec_neutral_from(allowed, candidate)),
    decreases spec_max_len(allowed) + 1 - candidate.len(),
{
    if allowed.contains(candidate) {
        lemma_member_len_le_max(allowed, candidate);
        lemma_neutral_from_not_allowed(allowed, candidate + seq!['_']);
    }
}

/// The guarantee behind the degraded fallback: the neutral landing target is
/// never in the allow list, so the safe landing spot is truly allowed under
/// inversion; and it is the plain reserved name whenever that name is free.
pub proof fn lemma_neutral_outside_allow_list(allowed: Seq<Seq<char>>)
    ensures
        !spec_member(allowed, spec_neutral(allowed)),
        !spec_member(allowed, "temp"@) ==> spec_neutral(allowed) == "temp"@,
{
    lemma_neutral_from_not_allowed(allowed, "temp"@);
}

/// Compute the neutral landing target for `allowed`.
pub fn neutral_target(allowed: &Vec<String>) -> (r: String)
    ensures
        r@ == spec_neutral(allowed.deep_view()),
        !spec_member(allowed.deep_view(), r@),
{
    let mut r = String::from_str("temp");
    while contains_string(allowed, &r)
        invariant
            spec_neutral_from(allowed.deep_view(), r@) == spec_neutral(allowed.deep_view()),
        decreases spec_max_len(allowed.deep_view()) + 1 - r@.len(),
    {
        proof {
            lemma_member_len_le_max(allowed.deep_view(), r@);
            reveal_strlit("_");
            assert("_"@ =~= seq!['_']);
        }
        r.append("_");
    }
    r
}

/// Mathematical model of an [`Outcome`].
pub struct SpecOutcome {
    pub command: Option<SpecCommand>,
    pub notice: Option<Notice>,
}

/// What one enforcement pass asks the caller to perform: at most one
/// corrective command and at most one notification, in that order.
pub struct Outcome {
    pub command: Option<Command>,
    pub notice: Option<Notice>,
}

impl View for Outcome {
    type V = SpecOutcome;

    open spec fn view(&self) -> SpecOutcome {
        SpecOutcome {
            command: match self.command {
                Some(c) => Some(c@),
                None => None,
            },
            notice: self.notice,
        }
    }
}

/// What one enforcement pass decides.  A disallowed sighting is reverted: a
/// switch toward the recorded fallback — or, when none is recorded yet,
/// toward the neutral landing workspace, whose identifier is guaranteed not
/// to be in the allow list — followed by a critical lock alert.  A compliant
/// sighting issues nothing.
pub open spec fn spec_enforce(
    p: SpecPolicy,
    last: Option<Seq<char>>,
    current: Option<Seq<char>>,
) -> SpecOutcome {
    if spec_disallowed(p, current) {
        SpecOutcome {
            command: Some(
                match last {
                    Some(fb) => SpecCommand::Switch { mode: p.mode, target: fb },
                    None => SpecCommand::SwitchNeutral { target: spec_neutral(p.allowed) },
                },
            ),
            notice: Some(Notice::Locked),
        }
    } else {
        SpecOutcome { command: None, notice: None }
    }
}

/// The fallback memory after one enforcement pass: a compliant sighting
/// becomes the new fallback, a disallowed one leaves it unchanged.
pub open spec fn spec_last_after(
    p: SpecPolicy,
    last: Option<Seq<char>>,
    current: Option<Seq<char>>,
) -> Option<Seq<char>> {
    if spec_disallowed(p, current) {
        last
    } else {
        current
    }
}

/// One enforcement pass: classify `current` against `policy`, and either
/// revert it (command plus alert, fallback untouched) or record it as the new
/// fallback (no command, no alert).
pub fn enforce(current: &Option<String>, policy: &Policy, tracker: &mut LastAllowedTracker) -> (out:
    Outcome)
    ensures
        out@ == spec_enforce(policy@, old(tracker)@, current.deep_view()),
        final(tracker)@ == spec_last_after(policy@, old(tracker)@, current.deep_view()),
{
    if is_disallowed(current, policy) {
        let command = match &tracker.last {
            Some(fb) => Command::Switch { mode: policy.mode, target: fb.clone() },
            None => Command::SwitchNeutral { target: neutral_target(&policy.allowed) },
        };
        Outcome { command: Some(command), notice: Some(Notice::Locked) }
    } else {
        match current {
            Some(ws) => tracker.update(ws, true),
            None => proof {
                assert(false);
            },
        }
        Outcome { command: None, notice: None }
    }
}

/// Repeated compliant focus events issue no command, and each one moves the
/// fallback to the latest compliant identifier.
pub proof fn lemma_compliant_events_issue_nothing(
    p: SpecPolicy,
    last: Option<Seq<char>>,
    ws1: Seq<char>,
    ws2: Seq<char>,
)
    requires
        !spec_disallowed(p, Some(ws1)),
        !spec_disallowed(p, Some(ws2)),
    ensures
        spec_enforce(p, last, Some(ws1)).command is None,
        spec_last_after(p, last, Some(ws1)) == Some(ws1),
        spec_enforce(p, spec_last_after(p, last, Some(ws1)), Some(ws2)).command is None,
        spec_last_after(p, spec_last_after(p, last, Some(ws1)), Some(ws2)) == Some(ws2),
{
}

/// While sightings stay disallowed, every issued command targets the recorded
/// fallback, and the fallback does not move.
pub proof fn lemma_disallowed_keeps_fallback(
    p: SpecPolicy,
    fb: Seq<char>,
    current: Option<Seq<char>>,
)
    requires
        spec_disallowed(p, current),
    ensures
        spec_enforce(p, Some(fb), current).command == Some(
            SpecCommand::Switch { mode: p.mode, target: fb },
        ),
        spec_enforce(p, Some(fb), current).notice == Some(Notice::Locked),
        spec_last_after(p, Some(fb), current) == Some(fb),
{
}

/// With no fallback recorded yet — a state reachable only under inversion —
/// a disallowed sighting is sent to the neutral landing workspace, whose
/// identifier is never in the allow list: degraded but safe, never a failure
/// and never itself a violation.
pub proof fn lemma_degraded_fallback(p: SpecPolicy, current: Option<Seq<char>>)
    requires
        spec_disallowed(p, current),
    ensures
        spec_enforce(p, None, current).command == Some(
            SpecCommand::SwitchNeutral { target: spec_neutral(p.allowed) },
        ),
        !spec_member(p.allowed, spec_neutral(p.allowed)),
        spec_enforce(p, None, current).notice == Some(Notice::Locked),
{
    lemma_neutral_outside_allow_list(p.allowed);
}

} // verus!
