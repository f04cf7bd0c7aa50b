//! What the lock logic reads from the window manager's workspace listing.

use vstd::prelude::*;

verus! {

/// One workspace as reported by the window manager: its display name, its
/// numeric index where it has one, and whether it currently holds the focus.
pub struct WorkspaceInfo {
    pub name: String,
    pub num: Option<i32>,
    pub focused: bool,
}

/// Index of the first focused workspace in `list`, if any is focused.
pub fn find_focused(list: &Vec<WorkspaceInfo>) -> (r: Option<usize>)
    ensures
        match r {
            Some(i) => i < list@.len() && list@[i as int].focused && (forall|j: int|
                0 <= j < i ==> !list@[j].focused),
            None => forall|j: int| 0 <= j < list@.len() ==> !list@[j].focused,
        },
{
    let mut i: usize = 0;
    while i < list.len()
        invariant
            i <= list@.len(),
            forall|j: int| 0 <= j < i ==> !list@[j].focused,
        decreases list@.len() - i,
    {
        if list[i].focused {
            return Some(i);
        }
        i += 1;
    }
    None
}

} // verus!
