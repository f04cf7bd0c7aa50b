//! Pre-loop decisions: resolving the allow list, planning a delayed start,
//! and the session's error kinds.

use vstd::prelude::*;

verus! {

/// The errors that end a session.  None is retried internally: the lock
/// favors fast, visible failure over masking a broken enforcement guarantee.
#[derive(Clone, Copy, PartialEq, Eq, Structural, Debug)]
pub enum LockError {
    /// The window-manager link cannot be established or maintained.
    ConnectionError,
    /// No workspace is focused when one is needed to seed the allow list.
    NoFocusedWorkspace,
    /// Issuing a corrective command failed.
    CommandSendFailure,
    /// Raising a notification failed.
    NotificationFailure,
}

impl LockError {
    /// Diagnostic line for the operator.
    pub open spec fn spec_message(self) -> Seq<char> {
        match self {
            LockError::ConnectionError => "cannot reach the window manager"@,
            LockError::NoFocusedWorkspace => "no workspace is focused"@,
            LockError::CommandSendFailure => "sending a workspace command failed"@,
            LockError::NotificationFailure => "raising a notification failed"@,
        }
    }

    pub fn message(&self) -> (r: String)
        ensures
            r@ == self.spec_message(),
    {
        match self {
            LockError::ConnectionError => String::from_str("cannot reach the window manager"),
            LockError::NoFocusedWorkspace => String::from_str("no workspace is focused"),
            LockError::CommandSendFailure => String::from_str(
                "sending a workspace command failed",
            ),
            LockError::NotificationFailure => String::from_str("raising a notification failed"),
        }
    }
}

/// The allow list for the session: the identifiers given by the user or, when
/// none were given, the name of the currently focused workspace.  With
/// neither, the session cannot start.
pub fn resolve_allowed(given: Vec<String>, focused_name: Option<String>) -> (r: Result<
    Vec<String>,
    LockError,
>)
    ensures
        given@.len() > 0 ==> r == Ok::<Vec<String>, LockError>(given),
        given@.len() == 0 && focused_name is Some ==> (r matches Ok(v) && v.deep_view() == seq![
            focused_name.unwrap()@,
        ]),
        given@.len() == 0 && focused_name is None ==> r == Err::<Vec<String>, LockError>(
            LockError::NoFocusedWorkspace,
        ),
        r matches Ok(v) ==> v@.len() > 0,
{
    if given.len() > 0 {
        Ok(given)
    } else {
        match focused_name {
            Some(name) => {
                let ghost name_view = name@;
                let mut seeded: Vec<String> = Vec::new();
                seeded.push(name);
                proof {
                    assert(seeded.deep_view() =~= seq![name_view]);
                }
                Ok(seeded)
            },
            None => Err(LockError::NoFocusedWorkspace),
        }
    }
}

/// A start delay longer than this many whole seconds earns a pre-warning.
pub const WARN_THRESHOLD_SECS: u64 = 15;

/// How long before the lock the pre-warning is raised, in milliseconds; also
/// how long that warning stays on screen.
pub const WARN_LEAD_MS: u64 = 10_000;

/// How a configured start delay is spent.
#[derive(Clone, Copy, PartialEq, Eq, Structural, Debug)]
pub enum DelayPlan {
    /// No delay configured: the lock starts at once.
    Immediate,
    /// Wait the whole delay silently — a warning this close to lock time is
    /// not worth the interruption.
    Silent { wait_ms: u64 },
    /// Wait `first_wait_ms` silently, raise the critical `LockingSoon`
    /// notice, then wait the final `WARN_LEAD_MS` — the user's last chance to
    /// react.
    Warned { first_wait_ms: u64 },
}

/// The delay plan for `delay_ms`: a delay of more than `WARN_THRESHOLD_SECS`
/// whole seconds is split around exactly one pre-warning, anything shorter
/// passes silently.
pub open spec fn spec_plan_delay(delay_ms: Option<u64>) -> DelayPlan {
    match delay_ms {
        None => DelayPlan::Immediate,
        Some(d) => if d / 1000 > WARN_THRESHOLD_SECS {
            DelayPlan::Warned { first_wait_ms: (d - WARN_LEAD_MS) as u64 }
        } else {
            DelayPlan::Silent { wait_ms: d }
        },
    }
}

/// Plan a configured start delay.
pub fn plan_delay(delay_ms: Option<u64>) -> (p: DelayPlan)
    ensures
        p == spec_plan_delay(delay_ms),
{
    match delay_ms {
        None => DelayPlan::Immediate,
        Some(d) => {
            if d / 1000 > WARN_THRESHOLD_SECS {
                proof {
                    vstd::arithmetic::div_mod::lemma_fundamental_div_mod(d as int, 1000);
                }
                DelayPlan::Warned { first_wait_ms: d - WARN_LEAD_MS }
            } else {
                DelayPlan::Silent { wait_ms: d }
            }
        },
    }
}

} // verus!
