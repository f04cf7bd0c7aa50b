//! The allow/deny policy and its evaluator.

use vstd::prelude::*;

verus! {

/// How workspaces are identified for the whole session: by their display name
/// or by their numeric index rendered in decimal.  The two modes are never
/// mixed within one session.
#[derive(Clone, Copy, PartialEq, Eq, Structural, Debug)]
pub enum IdentifierMode {
    Name,
    Number,
}

/// Mathematical model of a [`Policy`]: the allowed identifiers as a sequence
/// of character sequences, the inversion flag, and the identifier mode.
pub struct SpecPolicy {
    pub allowed: Seq<Seq<char>>,
    pub invert: bool,
    pub mode: IdentifierMode,
}

/// The lock policy: an ordered, non-empty list of workspace identifiers whose
/// first element is the designated fallback, an `invert` flag (when set, the
/// allowed set is the complement of the list), and the identifier mode.  A
/// policy is fixed for the lifetime of a session.
pub struct Policy {
    pub allowed: Vec<String>,
    pub invert: bool,
    pub mode: IdentifierMode,
}

impl View for Policy {
    type V = SpecPolicy;

    open spec fn view(&self) -> SpecPolicy {
        SpecPolicy { allowed: self.allowed.deep_view(), invert: self.invert, mode: self.mode }
    }
}

impl Policy {
    /// A policy is well formed when its allow list is non-empty, so that a
    /// fallback target exists.
    pub open spec fn wf(self) -> bool {
        self@.allowed.len() > 0
    }
}

/// Whether `ws` occurs in the allow list.
pub open spec fn spec_member(allowed: Seq<Seq<char>>, ws: Seq<char>) -> bool {
    allowed.contains(ws)
}

/// The policy verdict.  A missing identifier is disallowed unconditionally:
/// when the session cannot verify compliance it must act defensively.
/// Otherwise the verdict is membership in the allow list, flipped by `invert`.
pub open spec fn spec_disallowed(p: SpecPolicy, current: Option<Seq<char>>) -> bool {
    match current {
        None => true,
        Some(ws) => if p.invert {
            spec_member(p.allowed, ws)
        } else {
            !spec_member(p.allowed, ws)
        },
    }
}

/// Whether `ws` occurs in `list`, compared character by character.
pub fn contains_string(list: &Vec<String>, ws: &String) -> (r: bool)
    ensures
        r == spec_member(list.deep_view(), ws@),
{
    let mut i: usize = 0;
    while i < list.len()
        invariant
            i <= list.len(),
            forall|j: int| 0 <= j < i ==> list.deep_view()[j] != ws@,
        decreases list.len() - i,
    {
        if list[i].eq(ws) {
            assert(list.deep_view()[i as int] == ws@);
            return true;
        }
        i += 1;
    }
    assert(forall|j: int| 0 <= j < list.deep_view().len() ==> list.deep_view()[j] != ws@);
    false
}

/// The policy evaluator: classifies the currently focused workspace (or the
/// absence of one) against the policy.  Pure and total.
pub fn is_disallowed(current: &Option<String>, policy: &Policy) -> (r: bool)
    ensures
        r == spec_disallowed(policy@, current.deep_view()),
{
    match current {
        None => true,
        Some(ws) => {
            let member = contains_string(&policy.allowed, ws);
            if policy.invert {
                member
            } else {
                !member
            }
        },
    }
}

/// Without inversion the verdict is exactly non-membership in the allow list.
pub proof fn lemma_disallowed_without_invert(p: SpecPolicy, ws: Seq<char>)
    requires
        !p.invert,
    ensures
        spec_disallowed(p, Some(ws)) == !spec_member(p.allowed, ws),
{
}

/// With inversion the verdict is exactly membership in the allow list.
pub proof fn lemma_disallowed_with_invert(p: SpecPolicy, ws: Seq<char>)
    requires
        p.invert,
    ensures
        spec_disallowed(p, Some(ws)) == spec_member(p.allowed, ws),
{
}

/// A missing identifier is disallowed under every policy.
pub proof fn lemma_none_always_disallowed(p: SpecPolicy)
    ensures
        spec_disallowed(p, None),
{
}

} // verus!
