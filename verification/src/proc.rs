//! The supervisor's descriptor hand-off plan.  Between process duplication
//! and program-image replacement only raw OS calls may run; every choice
//! made in that window is computed here beforehand, so the window itself
//! holds nothing but the calls the plan dictates: close the parent's end
//! where the topology keeps one open in the child, duplicate the inherited
//! connection onto the agreed number, close the inherited number if it
//! differs, and clear close-on-exec on the agreed number so the new image
//! keeps it.

use vstd::prelude::*;

verus! {

/// The protocol-agreed descriptor number a child of the flagship topology
/// finds its control connection on: process-wide configuration, fixed at
/// build time.  Other topologies may agree on other numbers; the plan
/// below takes the number as an argument.
pub const CHILD_TARGET_FD: i32 = 3;

/// The close-on-exec bit in a descriptor's flag word.
pub const FD_CLOEXEC_BIT: i32 = 1;

/// The calls to make in the child between duplication and image
/// replacement, in order: close `close_parent` if one is given, duplicate
/// `dup_from` onto `dup_to`, close the original exactly when it is a
/// different number, and clear close-on-exec on `dup_to`.
#[derive(Debug, PartialEq, Clone, Copy)]
pub struct HandoffPlan {
    pub dup_from: i32,
    pub dup_to: i32,
    pub close_parent: Option<i32>,
    pub close_original: bool,
}

/// Plans the hand-off of an inherited connection descriptor onto the
/// topology's agreed number, closing the parent's end of the pair first
/// where the child inherited one.  The original is closed only when it
/// differs from the target — closing an equal number would destroy the
/// connection just handed over.
pub fn handoff_plan(child_sock_fd: i32, target_fd: i32, parent_fd: Option<i32>) -> (r: HandoffPlan)
    ensures
        r.dup_from == child_sock_fd,
        r.dup_to == target_fd,
        r.close_parent == parent_fd,
        r.close_original == (child_sock_fd != target_fd),
{
    HandoffPlan {
        dup_from: child_sock_fd,
        dup_to: target_fd,
        close_parent: parent_fd,
        close_original: child_sock_fd != target_fd,
    }
}

/// The flagship topology's plan: the agreed number is `CHILD_TARGET_FD`
/// and no parent-end descriptor is open in the child.
pub fn remap_plan(child_sock_fd: i32) -> (r: HandoffPlan)
    ensures
        r.dup_from == child_sock_fd,
        r.dup_to == CHILD_TARGET_FD,
        r.close_parent is None,
        r.close_original == (child_sock_fd != CHILD_TARGET_FD),
{
    handoff_plan(child_sock_fd, CHILD_TARGET_FD, None)
}

/// The flag word with close-on-exec cleared and every other bit kept, as
/// the child must set it on the agreed number before the new image runs.
pub fn clear_cloexec(flags: i32) -> (r: i32)
    ensures
        r == flags & !FD_CLOEXEC_BIT,
{
    flags & !FD_CLOEXEC_BIT
}

} // verus!
