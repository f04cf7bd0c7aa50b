//! Temporarily locks the window manager to an allowed set of workspaces.
//!
//! The crate holds the decision core of a workspace lock: a policy that
//! classifies a focused workspace as allowed or disallowed, a sticky record of
//! the last workspace seen to comply, the enforcement step that turns a
//! verdict into a corrective command and an alert, and the session state
//! machine that drives those pieces over a stream of focus events until a
//! countdown elapses.  Everything here is pure decision logic; talking to the
//! window manager and showing desktop notifications is left to the caller.

pub mod digits;
pub mod enforce;
pub mod policy;
pub mod session;
pub mod startup;
pub mod tracker;
pub mod wm;
