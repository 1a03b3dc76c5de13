use vstd::prelude::*;

use crate::board::{is_eye, spec_is_eye, spec_is_symmetric, Position};
use crate::options::Checker;
use crate::symmetry::{
    all_transforms, col, compose, lemma_all_transforms, lemma_apply_range, lemma_compose_apply,
    lemma_identity_apply, lemma_inverse_apply, row, Point, Transform, NUM_POINTS, PASS,
};
use crate::Color;

verus! {

/// Decides which moves the search considers at a position.
pub trait PolicyChecker {
    /// Whether the move `p` is considered, on the board `board` where `legal`
    /// tells which vertices the player to move may play on.
    spec fn spec_candidate(&self, board: Seq<Option<Color>>, legal: Seq<bool>, p: int) -> bool;

    fn is_policy_candidate(&self, board: &Position, legal: &Vec<bool>, point: Point) -> (r: bool)
        requires
            board.wf(),
            legal@.len() == 361,
            point.wf(),
        ensures
            r == self.spec_candidate(board@, legal@, point.spec_index()),
    ;
}

/// Accepts the pass and every legal move.
pub struct StandardPolicyChecker {
    pub to_move: Color,
}

impl StandardPolicyChecker {
    pub fn new(to_move: Color) -> (r: Self)
        ensures
            r.to_move == to_move,
    {
        StandardPolicyChecker { to_move }
    }
}

impl PolicyChecker for StandardPolicyChecker {
    open spec fn spec_candidate(&self, board: Seq<Option<Color>>, legal: Seq<bool>, p: int) -> bool {
        p == 361 || legal[p]
    }

    fn is_policy_candidate(&self, board: &Position, legal: &Vec<bool>, point: Point) -> (r: bool) {
        point.index == PASS || legal[point.index]
    }
}

/// Used when playing a game out to its scoring position: rejects the pass, the
/// eyes of groups that are unconditionally alive of either color, and simple
/// eyes of the player to move.
pub struct ScoringPolicyChecker {
    pub is_valid: Vec<bool>,
    pub to_move: Color,
}

impl ScoringPolicyChecker {
    pub open spec fn spec_is_valid(&self) -> Seq<bool> {
        self.is_valid@
    }

    /// A checker for `to_move`, where `eye_black` and `eye_white` mark the vertices
    /// that are eyes of unconditionally alive groups of each color.
    pub fn new(eye_black: &Vec<bool>, eye_white: &Vec<bool>, to_move: Color) -> (r: Self)
        requires
            eye_black@.len() == 361,
            eye_white@.len() == 361,
        ensures
            r.to_move == to_move,
            r.spec_is_valid().len() == 361,
            forall|p: int|
                0 <= p < 361 ==> #[trigger] r.spec_is_valid()[p] == (!eye_black@[p]
                    && !eye_white@[p]),
    {
        let mut is_valid: Vec<bool> = Vec::new();
        let mut i: usize = 0;
        while i < NUM_POINTS
            invariant
                i <= 361,
                eye_black@.len() == 361,
                eye_white@.len() == 361,
                is_valid@.len() == i,
                forall|p: int|
                    0 <= p < i ==> #[trigger] is_valid@[p] == (!eye_black@[p] && !eye_white@[p]),
            decreases 361 - i,
        {
            is_valid.push(!eye_black[i] && !eye_white[i]);
            i = i + 1;
        }
        ScoringPolicyChecker { is_valid, to_move }
    }
}

impl PolicyChecker for ScoringPolicyChecker {
    open spec fn spec_candidate(&self, board: Seq<Option<Color>>, legal: Seq<bool>, p: int) -> bool {
        &&& p != 361
        &&& self.spec_is_valid().len() == 361
        &&& self.spec_is_valid()[p]
        &&& legal[p]
        &&& !spec_is_eye(board, self.to_move, col(p), row(p))
    }

    fn is_policy_candidate(&self, board: &Position, legal: &Vec<bool>, point: Point) -> (r: bool) {
        if point.index == PASS || self.is_valid.len() != NUM_POINTS {
            false
        } else {
            self.is_valid[point.index] && legal[point.index] && !is_eye(board, self.to_move, point)
        }
    }
}

/// The candidate moves of a checker, by packed index, the pass last.
pub fn candidates<C: PolicyChecker>(checker: &C, board: &Position, legal: &Vec<bool>) -> (r: Vec<
    bool,
>)
    requires
        board.wf(),
        legal@.len() == 361,
    ensures
        r@.len() == 362,
        forall|p: int| 0 <= p < 362 ==> #[trigger] r@[p] == checker.spec_candidate(board@, legal@, p),
{
    let mut out: Vec<bool> = Vec::new();
    let mut i: usize = 0;
    while i <= NUM_POINTS
        invariant
            i <= 362,
            board.wf(),
            legal@.len() == 361,
            out@.len() == i,
            forall|p: int|
                0 <= p < i ==> #[trigger] out@[p] == checker.spec_candidate(board@, legal@, p),
        decreases 362 - i,
    {
        let c = checker.is_policy_candidate(board, legal, Point::from_packed_index(i));
        out.push(c);
        i = i + 1;
    }
    out
}

/// The smallest image of `p` under the first `k` transforms of the fixed order
/// that leave the board unchanged (and `p` itself, the image under the identity).
pub open spec fn canon_upto(b: Seq<Option<Color>>, p: int, k: nat) -> int
    decreases k,
{
    if k == 0 {
        p
    } else {
        let t = all_transforms()[k - 1];
        let rest = canon_upto(b, p, (k - 1) as nat);
        if spec_is_symmetric(b, t) && t.spec_apply(p) < rest {
            t.spec_apply(p)
        } else {
            rest
        }
    }
}

/// The canonical representative of `p`: its smallest image under the
/// symmetries of the board.
pub open spec fn canon(b: Seq<Option<Color>>, p: int) -> int {
    canon_upto(b, p, 8)
}

/// A mask keeps only the moves that are their own canonical representative.
pub open spec fn spec_eliminate(mask: Seq<bool>, indices: Seq<int>) -> Seq<bool> {
    Seq::new(mask.len(), |p: int| mask[p] && indices[p] == p)
}

/// The canonical representative of every move, the pass mapped to itself.
pub open spec fn spec_indices(b: Seq<Option<Color>>) -> Seq<int> {
    Seq::new(362, |p: int| if p == 361 { 361 } else { canon(b, p) })
}

/// The moves that keep a finite prior: the candidates that are their own
/// canonical representative.
pub open spec fn spec_initial_mask(candidates: Seq<bool>, b: Seq<Option<Color>>) -> Seq<bool> {
    spec_eliminate(candidates, spec_indices(b))
}

pub open spec fn view_indices(v: Seq<usize>) -> Seq<int> {
    Seq::new(v.len(), |i: int| v[i] as int)
}

/// Which of the eight transforms, in the fixed order, leave the board unchanged.
pub fn symmetry_flags(board: &Position) -> (r: Vec<bool>)
    requires
        board.wf(),
    ensures
        r@.len() == 8,
        forall|k: int| 0 <= k < 8 ==> #[trigger] r@[k] == spec_is_symmetric(board@, all_transforms()[k]),
{
    let mut out: Vec<bool> = Vec::new();
    let mut k: usize = 0;
    while k < 8
        invariant
            k <= 8,
            board.wf(),
            out@.len() == k,
            forall|j: int|
                0 <= j < k ==> #[trigger] out@[j] == spec_is_symmetric(board@, all_transforms()[j]),
        decreases 8 - k,
    {
        out.push(board.is_symmetric(Transform::from_index(k)));
        k = k + 1;
    }
    out
}

/// The canonical representative of the vertex `p`.
fn canonical_index(flags: &Vec<bool>, b: Ghost<Seq<Option<Color>>>, p: usize) -> (r: usize)
    requires
        p < 361,
        flags@.len() == 8,
        forall|k: int| 0 <= k < 8 ==> #[trigger] flags@[k] == spec_is_symmetric(b@, all_transforms()[k]),
    ensures
        r == canon(b@, p as int),
        r < 361,
{
    let mut best: usize = p;
    let mut k: usize = 0;
    while k < 8
        invariant
            k <= 8,
            p < 361,
            best < 361,
            flags@.len() == 8,
            forall|j: int|
                0 <= j < 8 ==> #[trigger] flags@[j] == spec_is_symmetric(b@, all_transforms()[j]),
            best == canon_upto(b@, p as int, k as nat),
        decreases 8 - k,
    {
        let t = Transform::from_index(k);
        if flags[k] {
            let q = t.apply(p);
            if q < best {
                best = q;
            }
        }
        k = k + 1;
    }
    best
}

/// Keeps the moves of `mask` that are their own representative in `indices`.
pub fn eliminate_symmetric(mask: &Vec<bool>, indices: &Vec<usize>) -> (r: Vec<bool>)
    requires
        mask@.len() == indices@.len(),
    ensures
        r@ == spec_eliminate(mask@, view_indices(indices@)),
{
    let mut out: Vec<bool> = Vec::new();
    let mut i: usize = 0;
    while i < mask.len()
        invariant
            i <= mask@.len(),
            mask@.len() == indices@.len(),
            out@.len() == i,
            forall|p: int| 0 <= p < i ==> #[trigger] out@[p] == (mask@[p] && indices@[p] == p),
        decreases mask@.len() - i,
    {
        out.push(mask[i] && indices[i] == i);
        i = i + 1;
    }
    assert(out@ =~= spec_eliminate(mask@, view_indices(indices@)));
    out
}

/// The initial prior of a position: which moves keep a finite prior (the
/// candidates, less the moves that a symmetry of the board maps to a smaller
/// index), and the canonical representative of every move.
pub fn create_initial_policy<C: PolicyChecker>(
    checker: &C,
    board: &Position,
    legal: &Vec<bool>,
) -> (r: (Vec<bool>, Vec<usize>))
    requires
        board.wf(),
        legal@.len() == 361,
    ensures
        view_indices(r.1@) == spec_indices(board@),
        r.0@ == spec_initial_mask(
            Seq::new(362, |p: int| checker.spec_candidate(board@, legal@, p)),
            board@,
        ),
{
    let cand = candidates(checker, board, legal);
    let flags = symmetry_flags(board);
    let ghost b = board@;
    let mut indices: Vec<usize> = Vec::new();
    let mut i: usize = 0;
    while i < NUM_POINTS
        invariant
            i <= 361,
            b == board@,
            flags@.len() == 8,
            forall|k: int| 0 <= k < 8 ==> #[trigger] flags@[k] == spec_is_symmetric(b, all_transforms()[k]),
            indices@.len() == i,
            forall|p: int| 0 <= p < i ==> #[trigger] indices@[p] == canon(b, p),
        decreases 361 - i,
    {
        let c = canonical_index(&flags, Ghost(b), i);
        indices.push(c);
        i = i + 1;
    }
    indices.push(PASS);
    assert(view_indices(indices@) =~= spec_indices(board@));
    let mask = eliminate_symmetric(&cand, &indices);
    assert(cand@ =~= Seq::new(362, |p: int| checker.spec_candidate(board@, legal@, p)));
    (mask, indices)
}

/// Where each entry of a response computed under `t` is added: the canonical
/// representative of the move it stands for on the untransformed board.
pub open spec fn spec_merge_targets(indices: Seq<int>, t: Transform) -> Seq<int> {
    Seq::new(
        362,
        |p: int| if p == 361 { 361 } else { indices[t.spec_inverse().spec_apply(p)] },
    )
}

/// For every entry `p` of a response computed under the transform `t`, the
/// entry of the untransformed accumulator that it is added to.
pub fn merge_targets(indices: &Vec<usize>, t: Transform) -> (r: Vec<usize>)
    requires
        indices@.len() == 362,
    ensures
        view_indices(r@) == spec_merge_targets(view_indices(indices@), t),
{
    let inv = t.inverse();
    let mut out: Vec<usize> = Vec::new();
    let mut i: usize = 0;
    while i < NUM_POINTS
        invariant
            i <= 361,
            indices@.len() == 362,
            inv == t.spec_inverse(),
            out@.len() == i,
            forall|p: int| 0 <= p < i ==> #[trigger] out@[p] == indices@[inv.spec_apply(p)],
        decreases 361 - i,
    {
        let j = inv.apply(i);
        out.push(indices[j]);
        i = i + 1;
    }
    out.push(PASS);
    assert(view_indices(out@) =~= spec_merge_targets(view_indices(indices@), t));
    out
}

proof fn lemma_canon_upto(b: Seq<Option<Color>>, p: int, k: nat)
    requires
        0 <= p < 361,
        k <= 8,
    ensures
        canon_upto(b, p, k) <= p,
        forall|j: int|
            0 <= j < k && spec_is_symmetric(b, #[trigger] all_transforms()[j]) ==> canon_upto(b, p, k)
                <= all_transforms()[j].spec_apply(p),
        canon_upto(b, p, k) == p || exists|j: int|
            0 <= j < k && spec_is_symmetric(b, all_transforms()[j]) && all_transforms()[j].spec_apply(
                p,
            ) == canon_upto(b, p, k),
    decreases k,
{
    if k > 0 {
        lemma_canon_upto(b, p, (k - 1) as nat);
    }
}

/// The canonical representative of a vertex is its smallest image under the
/// symmetries of the board, and one of those images.
pub proof fn lemma_canon_min(b: Seq<Option<Color>>, p: int)
    requires
        0 <= p < 361,
    ensures
        0 <= canon(b, p) < 361,
        forall|t: Transform| spec_is_symmetric(b, t) ==> canon(b, p) <= #[trigger] t.spec_apply(p),
        exists|t: Transform| spec_is_symmetric(b, t) && t.spec_apply(p) == canon(b, p),
{
    lemma_canon_upto(b, p, 8);
    assert forall|t: Transform| spec_is_symmetric(b, t) implies canon(b, p) <= #[trigger] t.spec_apply(p) by {
        lemma_all_transforms(t);
    }
    lemma_identity_apply(p);
    assert forall|q: int| 0 <= q < 361 implies #[trigger] b[Transform::Identity.spec_apply(q)] == b[q] by {
        lemma_identity_apply(q);
    }
    assert(spec_is_symmetric(b, Transform::Identity));
    if canon(b, p) != p {
        let j = choose|j: int|
            0 <= j < 8 && spec_is_symmetric(b, all_transforms()[j]) && all_transforms()[j].spec_apply(p)
                == canon(b, p);
        assert(spec_is_symmetric(b, all_transforms()[j]));
    }
    let t = choose|t: Transform| spec_is_symmetric(b, t) && t.spec_apply(p) == canon(b, p);
    lemma_apply_range(t, p);
}

proof fn lemma_symmetric_compose(b: Seq<Option<Color>>, s: Transform, u: Transform)
    requires
        b.len() == 361,
        spec_is_symmetric(b, s),
        spec_is_symmetric(b, u),
    ensures
        spec_is_symmetric(b, compose(s, u)),
{
    assert forall|q: int| 0 <= q < 361 implies #[trigger] b[compose(s, u).spec_apply(q)] == b[q] by {
        lemma_compose_apply(s, u, q);
        lemma_apply_range(u, q);
        assert(b[s.spec_apply(u.spec_apply(q))] == b[u.spec_apply(q)]);
        assert(b[u.spec_apply(q)] == b[q]);
    }
}

proof fn lemma_symmetric_inverse(b: Seq<Option<Color>>, t: Transform)
    requires
        b.len() == 361,
        spec_is_symmetric(b, t),
    ensures
        spec_is_symmetric(b, t.spec_inverse()),
{
    assert forall|q: int| 0 <= q < 361 implies #[trigger] b[t.spec_inverse().spec_apply(q)] == b[q] by {
        lemma_inverse_apply(t, q);
        lemma_apply_range(t.spec_inverse(), q);
        let r = t.spec_inverse().spec_apply(q);
        assert(b[t.spec_apply(r)] == b[r]);
    }
}

/// Moving a vertex by a symmetry of the board keeps its canonical representative.
pub proof fn lemma_canon_invariant(b: Seq<Option<Color>>, u: Transform, p: int)
    requires
        b.len() == 361,
        spec_is_symmetric(b, u),
        0 <= p < 361,
    ensures
        canon(b, u.spec_apply(p)) == canon(b, p),
{
    let q = u.spec_apply(p);
    lemma_apply_range(u, p);
    lemma_canon_min(b, p);
    lemma_canon_min(b, q);
    let s0 = choose|t: Transform| spec_is_symmetric(b, t) && t.spec_apply(q) == canon(b, q);
    lemma_symmetric_compose(b, s0, u);
    lemma_compose_apply(s0, u, p);
    assert(canon(b, p) <= compose(s0, u).spec_apply(p));
    let s1 = choose|t: Transform| spec_is_symmetric(b, t) && t.spec_apply(p) == canon(b, p);
    lemma_symmetric_inverse(b, u);
    lemma_symmetric_compose(b, s1, u.spec_inverse());
    lemma_compose_apply(s1, u.spec_inverse(), q);
    lemma_inverse_apply(u, p);
    assert(canon(b, q) <= compose(s1, u.spec_inverse()).spec_apply(q));
}

/// Symmetry elimination is idempotent: eliminating the symmetric duplicates of
/// an initial mask again leaves it as it is, and so does building the initial
/// mask over its own result.
pub proof fn lemma_initial_mask_idempotent(candidates: Seq<bool>, b: Seq<Option<Color>>)
    requires
        candidates.len() == 362,
        b.len() == 361,
    ensures
        spec_eliminate(spec_initial_mask(candidates, b), spec_indices(b)) == spec_initial_mask(
            candidates,
            b,
        ),
        spec_initial_mask(spec_initial_mask(candidates, b), b) == spec_initial_mask(candidates, b),
{
    assert(spec_eliminate(spec_initial_mask(candidates, b), spec_indices(b)) =~= spec_initial_mask(
        candidates,
        b,
    ));
}

/// Every move that keeps a finite prior, under the checker of any search, is the
/// pass or a legal move.
pub proof fn lemma_finite_prior_is_legal(
    checker: Checker,
    b: Seq<Option<Color>>,
    legal: Seq<bool>,
    p: int,
)
    requires
        b.len() == 361,
        legal.len() == 361,
        0 <= p < 362,
        spec_initial_mask(Seq::new(362, |q: int| checker.spec_candidate(b, legal, q)), b)[p],
    ensures
        p == 361 || legal[p],
{
}

/// Under a symmetry `t` of the board, a response merged under `t` and the same
/// response merged under the inverse of `t` put the mass of every entry on the
/// same move, and that move is a canonical representative.
pub proof fn lemma_merge_symmetric(b: Seq<Option<Color>>, t: Transform)
    requires
        b.len() == 361,
        spec_is_symmetric(b, t),
    ensures
        forall|p: int|
            0 <= p < 362 ==> #[trigger] spec_merge_targets(spec_indices(b), t)[p]
                == spec_merge_targets(spec_indices(b), t.spec_inverse())[p],
        forall|p: int|
            0 <= p < 362 ==> spec_indices(b)[#[trigger] spec_merge_targets(spec_indices(b), t)[p]]
                == spec_merge_targets(spec_indices(b), t)[p],
{
    lemma_symmetric_inverse(b, t);
    assert forall|p: int| 0 <= p < 362 implies #[trigger] spec_merge_targets(spec_indices(b), t)[p]
        == spec_merge_targets(spec_indices(b), t.spec_inverse())[p] && spec_indices(
        b,
    )[spec_merge_targets(spec_indices(b), t)[p]] == spec_merge_targets(spec_indices(b), t)[p] by {
        if p < 361 {
            let u = t.spec_inverse();
            assert(u.spec_inverse() == t);
            lemma_apply_range(u, p);
            lemma_apply_range(t, p);
            lemma_canon_invariant(b, u, p);
            lemma_canon_invariant(b, t, p);
            lemma_canon_min(b, p);
            let s = choose|s: Transform| spec_is_symmetric(b, s) && s.spec_apply(p) == canon(b, p);
            lemma_canon_invariant(b, s, p);
        }
    }
}

} // verus!
