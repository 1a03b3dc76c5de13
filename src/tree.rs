use vstd::prelude::*;

use crate::symmetry::PASS;
use crate::Color;

verus! {

/// The number of edges of a node: one per vertex, and the pass.
pub const NUM_EDGES: usize = 362;

/// The sum of a sequence of integers.
pub open spec fn sum(s: Seq<int>) -> int
    decreases s.len(),
{
    if s.len() == 0 {
        0
    } else {
        sum(s.drop_last()) + s.last()
    }
}

pub proof fn lemma_sum_update(s: Seq<int>, i: int, v: int)
    requires
        0 <= i < s.len(),
    ensures
        sum(s.update(i, v)) == sum(s) - s[i] + v,
    decreases s.len(),
{
    if i == s.len() - 1 {
        assert(s.update(i, v).drop_last() =~= s.drop_last());
    } else {
        lemma_sum_update(s.drop_last(), i, v);
        assert(s.update(i, v).drop_last() =~= s.drop_last().update(i, v));
    }
}

pub proof fn lemma_sum_bound(s: Seq<int>, i: int)
    requires
        0 <= i < s.len(),
        forall|j: int| 0 <= j < s.len() ==> s[j] >= 0,
    ensures
        0 <= s[i] <= sum(s),
    decreases s.len(),
{
    lemma_sum_nonneg(s.drop_last());
    if i < s.len() - 1 {
        lemma_sum_bound(s.drop_last(), i);
    }
}

pub proof fn lemma_sum_nonneg(s: Seq<int>)
    requires
        forall|j: int| 0 <= j < s.len() ==> s[j] >= 0,
    ensures
        sum(s) >= 0,
    decreases s.len(),
{
    if s.len() > 0 {
        lemma_sum_nonneg(s.drop_last());
    }
}

pub proof fn lemma_sum_zeros(n: nat)
    ensures
        sum(Seq::new(n, |i: int| 0int)) == 0,
    decreases n,
{
    if n > 0 {
        assert(Seq::new(n, |i: int| 0int).drop_last() =~= Seq::new((n - 1) as nat, |i: int| 0int));
        lemma_sum_zeros((n - 1) as nat);
    }
}

/// The visit statistics of a search-tree node, as mathematical values.
pub struct NodeView {
    pub to_move: Color,
    /// Real visits of each edge.
    pub count: Seq<int>,
    /// Virtual visits of each edge: descents that have not been inserted yet.
    pub vcount: Seq<int>,
    pub disqualified: Seq<bool>,
    /// Whether the prior of each move is finite.
    pub finite: Seq<bool>,
    pub total: int,
    pub vtotal: int,
}

impl NodeView {
    /// The totals are the sums of the per-edge counts.
    pub open spec fn wf(self) -> bool {
        &&& self.count.len() == 362
        &&& self.vcount.len() == 362
        &&& self.disqualified.len() == 362
        &&& self.finite.len() == 362
        &&& forall|i: int| 0 <= i < 362 ==> #[trigger] self.count[i] >= 0
        &&& forall|i: int| 0 <= i < 362 ==> #[trigger] self.vcount[i] >= 0
        &&& self.total == sum(self.count)
        &&& self.vtotal == self.total + sum(self.vcount)
    }

    /// A fresh node: no visits, nothing disqualified.
    pub open spec fn fresh(to_move: Color, finite: Seq<bool>) -> NodeView {
        NodeView {
            to_move,
            count: Seq::new(362, |i: int| 0int),
            vcount: Seq::new(362, |i: int| 0int),
            disqualified: Seq::new(362, |i: int| false),
            finite,
            total: 0,
            vtotal: 0,
        }
    }

    /// A descent through edge `i` adds a virtual visit.
    pub open spec fn descend(self, i: int) -> NodeView {
        NodeView { vcount: self.vcount.update(i, self.vcount[i] + 1), vtotal: self.vtotal + 1, ..self }
    }

    /// An insertion through edge `i` turns one of its virtual visits into a real one.
    pub open spec fn visit(self, i: int) -> NodeView {
        NodeView {
            count: self.count.update(i, self.count[i] + 1),
            vcount: self.vcount.update(i, self.vcount[i] - 1),
            total: self.total + 1,
            ..self
        }
    }

    pub open spec fn disqualify(self, i: int) -> NodeView {
        NodeView { disqualified: self.disqualified.update(i, true), ..self }
    }

    /// Whether edge `i` may be chosen: not disqualified, and with a finite prior.
    pub open spec fn selectable(self, i: int) -> bool {
        !self.disqualified[i] && self.finite[i]
    }

    /// The most visited selectable edge among the first `k`, the lower index on
    /// ties, or `-1` when none of them is selectable.
    pub open spec fn best_upto(self, k: int) -> int
        decreases k,
    {
        if k <= 0 {
            -1
        } else {
            let b = self.best_upto(k - 1);
            if self.selectable(k - 1) && (b == -1 || self.count[k - 1] > self.count[b]) {
                k - 1
            } else {
                b
            }
        }
    }

    /// The most visited selectable edge, the lower index on ties, or the pass
    /// when no edge is selectable.
    pub open spec fn argmax_count(self) -> int {
        let b = self.best_upto(362);
        if b == -1 {
            361
        } else {
            b
        }
    }

    /// The largest visit count among the first `k` edges other than `e`.
    pub open spec fn max_except_upto(self, e: int, k: int) -> int
        decreases k,
    {
        if k <= 0 {
            0
        } else {
            let m = self.max_except_upto(e, k - 1);
            if k - 1 != e && self.count[k - 1] > m {
                self.count[k - 1]
            } else {
                m
            }
        }
    }

    /// The fewest further visits with which the runner-up could overtake the
    /// most visited edge.
    pub open spec fn min_promote_rollouts(self) -> int {
        let top = self.argmax_count();
        let second = self.max_except_upto(top, 362);
        if self.count[top] > second {
            self.count[top] - second
        } else {
            0
        }
    }
}

proof fn lemma_best_upto(v: NodeView, k: int)
    requires
        v.wf(),
        0 <= k <= 362,
    ensures
        -1 <= v.best_upto(k) < k,
        v.best_upto(k) == -1 <==> forall|j: int| 0 <= j < k ==> !v.selectable(j),
        v.best_upto(k) != -1 ==> v.selectable(v.best_upto(k)),
        v.best_upto(k) != -1 ==> forall|j: int|
            0 <= j < k && v.selectable(j) ==> v.count[j] <= v.count[v.best_upto(k)],
        v.best_upto(k) != -1 ==> forall|j: int|
            0 <= j < v.best_upto(k) && v.selectable(j) ==> v.count[j] < v.count[v.best_upto(k)],
    decreases k,
{
    if k > 0 {
        lemma_best_upto(v, k - 1);
    }
}

/// What a descent does at an edge it has chosen.
#[derive(Clone, Copy, Debug, PartialEq, Eq, Structural)]
pub enum Reservation {
    /// The edge leads to an expanded child: go on into it.
    Descend,
    /// The edge is unexpanded and now reserved for this descent to expand.
    Expand,
    /// Another descent is expanding the edge (or the counters are full): retry later.
    Conflict,
}

/// The visit statistics of a search-tree node. The prior and the value sums of
/// its edges are floating-point data kept beside it by the caller.
pub struct Node {
    to_move: Color,
    count: Vec<u32>,
    vcount: Vec<u32>,
    disqualified: Vec<bool>,
    finite: Vec<bool>,
    total_count: u32,
    vtotal_count: u32,
}

pub open spec fn view_counts(v: Seq<u32>) -> Seq<int> {
    Seq::new(v.len(), |i: int| v[i] as int)
}

impl View for Node {
    type V = NodeView;

    closed spec fn view(&self) -> NodeView {
        NodeView {
            to_move: self.to_move,
            count: view_counts(self.count@),
            vcount: view_counts(self.vcount@),
            disqualified: self.disqualified@,
            finite: self.finite@,
            total: self.total_count as int,
            vtotal: self.vtotal_count as int,
        }
    }
}

impl Node {
    /// A fresh node for `to_move`, where `finite` tells which moves have a finite
    /// prior.
    pub fn new(to_move: Color, finite: &Vec<bool>) -> (r: Node)
        requires
            finite@.len() == 362,
        ensures
            r@ == NodeView::fresh(to_move, finite@),
            r@.wf(),
    {
        let mut count: Vec<u32> = Vec::new();
        let mut vcount: Vec<u32> = Vec::new();
        let mut disqualified: Vec<bool> = Vec::new();
        let mut i: usize = 0;
        while i < NUM_EDGES
            invariant
                i <= 362,
                count@.len() == i,
                vcount@.len() == i,
                disqualified@.len() == i,
                forall|j: int| 0 <= j < i ==> #[trigger] count@[j] == 0,
                forall|j: int| 0 <= j < i ==> #[trigger] vcount@[j] == 0,
                forall|j: int| 0 <= j < i ==> #[trigger] disqualified@[j] == false,
            decreases 362 - i,
        {
            count.push(0);
            vcount.push(0);
            disqualified.push(false);
            i = i + 1;
        }
        let r = Node {
            to_move,
            count,
            vcount,
            disqualified,
            finite: finite.clone(),
            total_count: 0,
            vtotal_count: 0,
        };
        assert(r@.count =~= Seq::new(362, |i: int| 0int));
        assert(r@.vcount =~= Seq::new(362, |i: int| 0int));
        assert(r@.disqualified =~= Seq::new(362, |i: int| false));
        assert(r@.finite =~= finite@);
        proof {
            lemma_sum_zeros(362);
        }
        r
    }

    pub fn to_move(&self) -> (r: Color)
        ensures
            r == self@.to_move,
    {
        self.to_move
    }

    /// The number of real visits over all edges.
    pub fn total_count(&self) -> (r: u32)
        ensures
            r == self@.total,
    {
        self.total_count
    }

    /// The number of real and virtual visits over all edges.
    pub fn vtotal_count(&self) -> (r: u32)
        ensures
            r == self@.vtotal,
    {
        self.vtotal_count
    }

    /// The real visits of edge `i`.
    pub fn count(&self, i: usize) -> (r: u32)
        requires
            self@.wf(),
            i < 362,
        ensures
            r == self@.count[i as int],
    {
        self.count[i]
    }

    /// The virtual visits of edge `i`.
    pub fn vcount(&self, i: usize) -> (r: u32)
        requires
            self@.wf(),
            i < 362,
        ensures
            r == self@.vcount[i as int],
    {
        self.vcount[i]
    }

    pub fn is_disqualified(&self, i: usize) -> (r: bool)
        requires
            self@.wf(),
            i < 362,
        ensures
            r == self@.disqualified[i as int],
    {
        self.disqualified[i]
    }

    /// Whether edge `i` may be chosen by the search.
    pub fn is_selectable(&self, i: usize) -> (r: bool)
        requires
            self@.wf(),
            i < 362,
        ensures
            r == self@.selectable(i as int),
    {
        !self.disqualified[i] && self.finite[i]
    }

    /// Replaces which moves have a finite prior, as when a new prior is computed
    /// for a node that is kept; the visit statistics stay.
    pub fn set_finite(&mut self, finite: &Vec<bool>)
        requires
            old(self)@.wf(),
            finite@.len() == 362,
        ensures
            final(self)@ == (NodeView { finite: finite@, ..old(self)@ }),
            final(self)@.wf(),
    {
        self.finite = finite.clone();
        assert(self@.finite =~= finite@);
    }

    /// Excludes edge `i` from further selection; its statistics stay.
    pub fn disqualify(&mut self, i: usize)
        requires
            old(self)@.wf(),
            i < 362,
        ensures
            final(self)@ == old(self)@.disqualify(i as int),
            final(self)@.wf(),
    {
        self.disqualified.set(i, true);
        assert(self@.disqualified =~= old(self)@.disqualify(i as int).disqualified);
        assert(self@.count =~= old(self)@.count);
        assert(self@.vcount =~= old(self)@.vcount);
    }

    /// Records a descent through edge `i`: one more virtual visit.
    pub fn add_virtual_loss(&mut self, i: usize)
        requires
            old(self)@.wf(),
            i < 362,
            old(self)@.vtotal < u32::MAX,
        ensures
            final(self)@ == old(self)@.descend(i as int),
            final(self)@.wf(),
    {
        proof {
            lemma_sum_bound(self@.vcount, i as int);
            lemma_sum_nonneg(self@.count);
            lemma_sum_update(self@.vcount, i as int, self@.vcount[i as int] + 1);
        }
        let v = self.vcount[i];
        self.vcount.set(i, v + 1);
        self.vtotal_count = self.vtotal_count + 1;
        assert(self@.vcount =~= old(self)@.vcount.update(i as int, old(self)@.vcount[i as int] + 1));
        assert(self@.count =~= old(self)@.count);
    }

    /// Withdraws a descent through edge `i` that will not be inserted: one virtual
    /// visit less.
    pub fn cancel_descent(&mut self, i: usize)
        requires
            old(self)@.wf(),
            i < 362,
            old(self)@.vcount[i as int] > 0,
        ensures
            final(self)@ == (NodeView {
                vcount: old(self)@.vcount.update(i as int, old(self)@.vcount[i as int] - 1),
                vtotal: old(self)@.vtotal - 1,
                ..old(self)@
            }),
            final(self)@.wf(),
    {
        proof {
            lemma_sum_bound(self@.vcount, i as int);
            lemma_sum_nonneg(self@.count);
            lemma_sum_update(self@.vcount, i as int, self@.vcount[i as int] - 1);
        }
        let v = self.vcount[i];
        self.vcount.set(i, v - 1);
        self.vtotal_count = self.vtotal_count - 1;
        assert(self@.vcount =~= old(self)@.vcount.update(i as int, old(self)@.vcount[i as int] - 1));
        assert(self@.count =~= old(self)@.count);
    }

    /// Passes a descent through the chosen edge `i`, whose child exists when
    /// `expanded`: it takes a virtual visit unless another descent already
    /// reserved the unexpanded edge, or the virtual total is at its limit.
    pub fn reserve(&mut self, i: usize, expanded: bool) -> (r: Reservation)
        requires
            old(self)@.wf(),
            i < 362,
        ensures
            final(self)@.wf(),
            r == Reservation::Conflict <==> (old(self)@.vtotal == u32::MAX || (!expanded
                && old(self)@.vcount[i as int] > 0)),
            r == Reservation::Conflict ==> final(self)@ == old(self)@,
            r != Reservation::Conflict ==> final(self)@ == old(self)@.descend(i as int),
            r == Reservation::Descend <==> (r != Reservation::Conflict && expanded),
    {
        if self.vtotal_count == u32::MAX {
            Reservation::Conflict
        } else if expanded {
            self.add_virtual_loss(i);
            Reservation::Descend
        } else if self.vcount[i] > 0 {
            Reservation::Conflict
        } else {
            self.add_virtual_loss(i);
            Reservation::Expand
        }
    }

    /// Records an insertion through edge `i`, which a descent reserved: its
    /// virtual visit becomes a real one.
    pub fn record_visit(&mut self, i: usize)
        requires
            old(self)@.wf(),
            i < 362,
            old(self)@.vcount[i as int] > 0,
        ensures
            final(self)@ == old(self)@.visit(i as int),
            final(self)@.wf(),
    {
        proof {
            lemma_sum_bound(self@.vcount, i as int);
            lemma_sum_bound(self@.count, i as int);
            lemma_sum_update(self@.vcount, i as int, self@.vcount[i as int] - 1);
            lemma_sum_update(self@.count, i as int, self@.count[i as int] + 1);
        }
        let v = self.vcount[i];
        self.vcount.set(i, v - 1);
        let c = self.count[i];
        self.count.set(i, c + 1);
        self.total_count = self.total_count + 1;
        assert(self@.vcount =~= old(self)@.vcount.update(i as int, old(self)@.vcount[i as int] - 1));
        assert(self@.count =~= old(self)@.count.update(i as int, old(self)@.count[i as int] + 1));
    }

    /// The most visited selectable edge, the lower index on ties; the pass when
    /// no edge is selectable.
    pub fn argmax_count(&self) -> (r: usize)
        requires
            self@.wf(),
        ensures
            r == self@.argmax_count(),
            r < 362,
            (exists|j: int| 0 <= j < 362 && self@.selectable(j)) ==> {
                &&& self@.selectable(r as int)
                &&& forall|j: int|
                    0 <= j < 362 && self@.selectable(j) ==> self@.count[j] <= self@.count[r as int]
                &&& forall|j: int|
                    0 <= j < r && self@.selectable(j) ==> self@.count[j] < self@.count[r as int]
            },
            (forall|j: int| 0 <= j < 362 ==> !self@.selectable(j)) ==> r == PASS,
    {
        proof {
            lemma_best_upto(self@, 362);
        }
        let mut best: Option<usize> = None;
        let mut i: usize = 0;
        while i < NUM_EDGES
            invariant
                self@.wf(),
                i <= 362,
                match best {
                    None => self@.best_upto(i as int) == -1,
                    Some(b) => self@.best_upto(i as int) == b && b < i,
                },
            decreases 362 - i,
        {
            if !self.disqualified[i] && self.finite[i] {
                match best {
                    None => {
                        best = Some(i);
                    },
                    Some(b) => {
                        if self.count[i] > self.count[b] {
                            best = Some(i);
                        }
                    },
                }
            }
            i = i + 1;
        }
        match best {
            None => PASS,
            Some(b) => b,
        }
    }
}

/// A step of the search on one node: a descent or an insertion through an edge.
pub enum Step {
    Descend(int),
    Insert(int),
}

/// Whether every step of `steps` can be taken in turn from `v`: each edge is in
/// range, and each insertion has a virtual visit of its descent to turn into a real
/// one.
pub open spec fn valid_run(v: NodeView, steps: Seq<Step>) -> bool
    decreases steps.len(),
{
    if steps.len() == 0 {
        true
    } else {
        let w = run(v, steps.drop_last());
        valid_run(v, steps.drop_last()) && match steps.last() {
            Step::Descend(i) => 0 <= i < 362,
            Step::Insert(i) => 0 <= i < 362 && w.vcount[i] > 0,
        }
    }
}

/// The node after the steps, in order.
pub open spec fn run(v: NodeView, steps: Seq<Step>) -> NodeView
    decreases steps.len(),
{
    if steps.len() == 0 {
        v
    } else {
        let w = run(v, steps.drop_last());
        match steps.last() {
            Step::Descend(i) => w.descend(i),
            Step::Insert(i) => w.visit(i),
        }
    }
}

/// The number of insertions among the steps.
pub open spec fn num_inserts(steps: Seq<Step>) -> int
    decreases steps.len(),
{
    if steps.len() == 0 {
        0
    } else {
        num_inserts(steps.drop_last()) + match steps.last() {
            Step::Descend(_) => 0int,
            Step::Insert(_) => 1int,
        }
    }
}

/// Descents and insertions keep the totals equal to the sums of the per-edge
/// counts, so that the virtual total never falls below the real total.
pub proof fn lemma_steps_keep_totals(v: NodeView, i: int)
    requires
        v.wf(),
        0 <= i < 362,
    ensures
        v.descend(i).wf(),
        v.vcount[i] > 0 ==> v.visit(i).wf(),
        v.vtotal >= v.total,
{
    lemma_sum_nonneg(v.vcount);
    lemma_sum_update(v.vcount, i, v.vcount[i] + 1);
    assert(v.descend(i).wf());
    if v.vcount[i] > 0 {
        lemma_sum_update(v.vcount, i, v.vcount[i] - 1);
        lemma_sum_update(v.count, i, v.count[i] + 1);
        assert(v.visit(i).wf());
    }
}

/// From a fresh node, any run of descents and insertions leaves the totals
/// equal to the sums of the per-edge counts, the virtual total at least the
/// real total, and the real total equal to the number of insertions.
pub proof fn lemma_total_counts_inserts(to_move: Color, finite: Seq<bool>, steps: Seq<Step>)
    requires
        finite.len() == 362,
        valid_run(NodeView::fresh(to_move, finite), steps),
    ensures
        run(NodeView::fresh(to_move, finite), steps).wf(),
        run(NodeView::fresh(to_move, finite), steps).vtotal >= run(
            NodeView::fresh(to_move, finite),
            steps,
        ).total,
        run(NodeView::fresh(to_move, finite), steps).total == num_inserts(steps),
    decreases steps.len(),
{
    let v0 = NodeView::fresh(to_move, finite);
    if steps.len() == 0 {
        lemma_sum_zeros(362);
    } else {
        lemma_total_counts_inserts(to_move, finite, steps.drop_last());
        let w = run(v0, steps.drop_last());
        match steps.last() {
            Step::Descend(i) => lemma_steps_keep_totals(w, i),
            Step::Insert(i) => lemma_steps_keep_totals(w, i),
        }
        lemma_steps_keep_totals(run(v0, steps), 0);
    }
}

} // verus!
