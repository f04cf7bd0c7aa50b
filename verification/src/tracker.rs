//! Sticky memory of the last workspace seen to satisfy the policy.

use vstd::prelude::*;
use crate::policy::Policy;

verus! {

/// Single-slot memory of the most recent workspace known to comply with the
/// policy.  It is the fallback target when a disallowed switch is reverted.
/// Once set it is never cleared: a session that starts without inversion
/// always has a fallback, and an inverted session gains one the first time a
/// compliant workspace is sighted.
pub struct LastAllowedTracker {
    pub last: Option<String>,
}

impl View for LastAllowedTracker {
    type V = Option<Seq<char>>;

    open spec fn view(&self) -> Option<Seq<char>> {
        self.last.deep_view()
    }
}

impl LastAllowedTracker {
    /// The initial tracker state for `policy`: without inversion the
    /// designated fallback is the first allowed identifier; under inversion
    /// the allowed set is the complement of a finite list, so no fallback can
    /// be derived from the policy alone.
    pub fn new(policy: &Policy) -> (t: Self)
        requires
            policy.wf(),
        ensures
            !policy.invert ==> t@ == Some(policy@.allowed[0]),
            policy.invert ==> t@ is None,
    {
        if policy.invert {
            LastAllowedTracker { last: None }
        } else {
            LastAllowedTracker { last: Some(policy.allowed[0].clone()) }
        }
    }

    /// Record `current` as the new fallback when it was found compliant;
    /// leave the memory untouched otherwise.
    pub fn update(&mut self, current: &String, compliant: bool)
        ensures
            compliant ==> final(self)@ == Some(current@),
            !compliant ==> *final(self) == *old(self),
    {
        if compliant {
            self.last = Some(current.clone());
        }
    }
}

} // verus!
