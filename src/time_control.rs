use vstd::prelude::*;

use crate::tree::{Node, NodeView, NUM_EDGES};

verus! {

/// What a time strategy says of the search so far.
#[derive(Clone, Copy, Debug, PartialEq, Eq, Structural)]
pub enum TimeStrategyResult {
    /// Time is left, enough for about this many more rollouts.
    NotExpired(usize),
    /// Time is up and the strategy chose not to extend it.
    NotExtended,
    /// Time is up.
    Expired,
    /// Time was up and the strategy extended it.
    Extended,
}

/// Decides when a search has used up its time.
pub trait TimeStrategy {
    /// Checks whether this time period has expired, and if so whether to
    /// extend it.
    fn try_extend(&self, root: &Node) -> TimeStrategyResult;
}

/// The fewest further visits with which the second most visited edge of `root`
/// could overtake the most visited one (zero when they are level).
pub fn min_promote_rollouts(root: &Node) -> (r: u32)
    requires
        root@.wf(),
    ensures
        r == root@.min_promote_rollouts(),
{
    let top = root.argmax_count();
    let mut second: u32 = 0;
    let mut i: usize = 0;
    while i < NUM_EDGES
        invariant
            root@.wf(),
            i <= 362,
            top == root@.argmax_count(),
            top < 362,
            second == root@.max_except_upto(top as int, i as int),
        decreases 362 - i,
    {
        let count_i = root.count(i);
        if i != top && count_i > second {
            second = count_i;
        }
        i = i + 1;
    }
    let first = root.count(top);
    if first > second {
        first - second
    } else {
        0
    }
}

/// Whether a search stops, given its root and the verdict of its time strategy:
/// never before the root has a visit; otherwise when time is up and was not
/// extended, or when the runner-up cannot overtake the most visited move in the
/// rollouts that are left.
pub open spec fn spec_is_done(root: NodeView, verdict: TimeStrategyResult) -> bool {
    if root.total == 0 {
        false
    } else {
        match verdict {
            TimeStrategyResult::NotExpired(remaining) => root.min_promote_rollouts() > remaining,
            TimeStrategyResult::Extended => false,
            _ => true,
        }
    }
}

/// Whether a search stops, given the verdict of its time strategy on `root`.
pub fn is_done_with(root: &Node, verdict: TimeStrategyResult) -> (r: bool)
    requires
        root@.wf(),
    ensures
        r == spec_is_done(root@, verdict),
{
    if root.total_count() == 0 {
        false
    } else {
        match verdict {
            TimeStrategyResult::NotExpired(remaining) => {
                let min_promote = min_promote_rollouts(root);
                min_promote as usize > remaining
            },
            TimeStrategyResult::Extended => false,
            _ => true,
        }
    }
}

/// Whether a search stops: the root has a visit, and the time strategy says that
/// time is up and not extended, or that the runner-up cannot overtake the most
/// visited move in the rollouts that are left (the strategies of Baier and
/// Winands that extend an unstable search and stop a decided one early).
pub fn is_done<T: TimeStrategy>(root: &Node, ticket: &T) -> (r: bool)
    requires
        root@.wf(),
    ensures
        root@.total == 0 ==> !r,
        exists|verdict: TimeStrategyResult| r == spec_is_done(root@, verdict),
{
    if root.total_count() == 0 {
        assert(false == spec_is_done(root@, TimeStrategyResult::Expired));
        false
    } else {
        let verdict = ticket.try_extend(root);
        let r = is_done_with(root, verdict);
        assert(r == spec_is_done(root@, verdict));
        r
    }
}

} // verus!
