use vstd::prelude::*;

verus! {

/// The width (and height) of the board.
pub const SIZE: usize = 19;

/// The number of points on the board.
pub const NUM_POINTS: usize = 361;

/// The packed index of the pass move.
pub const PASS: usize = 361;

/// The column of a packed board index.
pub open spec fn col(p: int) -> int {
    p % 19
}

/// The row of a packed board index.
pub open spec fn row(p: int) -> int {
    p / 19
}

/// The packed index of the point at column `x` and row `y`.
pub open spec fn packed(x: int, y: int) -> int {
    y * 19 + x
}

pub proof fn lemma_packed_unpack(x: int, y: int)
    requires
        0 <= x < 19,
        0 <= y < 19,
    ensures
        col(packed(x, y)) == x,
        row(packed(x, y)) == y,
        0 <= packed(x, y) < 361,
{
    vstd::arithmetic::div_mod::lemma_fundamental_div_mod_converse(y * 19 + x, 19, y, x);
}

pub proof fn lemma_unpack_packed(p: int)
    requires
        0 <= p < 361,
    ensures
        0 <= col(p) < 19,
        0 <= row(p) < 19,
        packed(col(p), row(p)) == p,
{
}

/// A vertex of the board, or the pass move, as a packed index in `[0, 361]`.
#[derive(Clone, Copy, Debug, PartialEq, Eq, Structural)]
pub struct Point {
    pub index: usize,
}

impl Point {
    pub open spec fn spec_index(self) -> int {
        self.index as int
    }

    pub open spec fn wf(self) -> bool {
        self.index <= 361
    }

    /// The point at column `x` and row `y`.
    pub fn new(x: usize, y: usize) -> (r: Point)
        requires
            x < 19,
            y < 19,
        ensures
            r.wf(),
            r.spec_index() == packed(x as int, y as int),
    {
        proof {
            lemma_packed_unpack(x as int, y as int);
        }
        Point { index: y * SIZE + x }
    }

    /// The pass move.
    pub fn pass() -> (r: Point)
        ensures
            r.wf(),
            r.spec_index() == PASS,
    {
        Point { index: PASS }
    }

    /// The point with the given packed index.
    pub fn from_packed_index(index: usize) -> (r: Point)
        requires
            index <= 361,
        ensures
            r.wf(),
            r.spec_index() == index,
    {
        Point { index }
    }

    pub fn to_packed_index(self) -> (r: usize)
        ensures
            r == self.spec_index(),
    {
        self.index
    }

    pub fn is_pass(self) -> (r: bool)
        requires
            self.wf(),
        ensures
            r == (self.spec_index() == PASS),
    {
        self.index == PASS
    }

    /// The column of a point on the board.
    pub fn x(self) -> (r: usize)
        requires
            self.wf(),
            self.spec_index() < 361,
        ensures
            r == col(self.spec_index()),
            r < 19,
    {
        self.index % SIZE
    }

    /// The row of a point on the board.
    pub fn y(self) -> (r: usize)
        requires
            self.wf(),
            self.spec_index() < 361,
        ensures
            r == row(self.spec_index()),
            r < 19,
    {
        self.index / SIZE
    }
}

/// One of the eight symmetries of the square board.
#[derive(Clone, Copy, Debug, PartialEq, Eq, Structural)]
pub enum Transform {
    Identity,
    FlipLR,
    FlipUD,
    Transpose,
    TransposeAnti,
    Rot90,
    Rot180,
    Rot270,
}

/// Every transform, in a fixed order that starts with the identity.
pub open spec fn all_transforms() -> Seq<Transform> {
    seq![
        Transform::Identity,
        Transform::FlipLR,
        Transform::FlipUD,
        Transform::Transpose,
        Transform::TransposeAnti,
        Transform::Rot90,
        Transform::Rot180,
        Transform::Rot270,
    ]
}

impl Transform {
    /// Whether the transform exchanges the two coordinates (before flipping).
    pub open spec fn swaps(self) -> bool {
        match self {
            Transform::Transpose | Transform::TransposeAnti | Transform::Rot90
            | Transform::Rot270 => true,
            _ => false,
        }
    }

    /// Whether the transform mirrors the first coordinate (after swapping).
    pub open spec fn flips_x(self) -> bool {
        match self {
            Transform::FlipLR | Transform::TransposeAnti | Transform::Rot90
            | Transform::Rot180 => true,
            _ => false,
        }
    }

    /// Whether the transform mirrors the second coordinate (after swapping).
    pub open spec fn flips_y(self) -> bool {
        match self {
            Transform::FlipUD | Transform::TransposeAnti | Transform::Rot180
            | Transform::Rot270 => true,
            _ => false,
        }
    }

    /// The image of column `x`.
    pub open spec fn map_x(self, x: int, y: int) -> int {
        let a = if self.swaps() { y } else { x };
        if self.flips_x() { 18 - a } else { a }
    }

    /// The image of row `y`.
    pub open spec fn map_y(self, x: int, y: int) -> int {
        let b = if self.swaps() { x } else { y };
        if self.flips_y() { 18 - b } else { b }
    }

    /// The image of a packed index; the pass move is fixed.
    pub open spec fn spec_apply(self, p: int) -> int {
        if p >= 361 {
            p
        } else {
            packed(self.map_x(col(p), row(p)), self.map_y(col(p), row(p)))
        }
    }

    pub open spec fn spec_inverse(self) -> Transform {
        match self {
            Transform::Rot90 => Transform::Rot270,
            Transform::Rot270 => Transform::Rot90,
            _ => self,
        }
    }

    /// The transform at position `i` of the fixed order.
    pub fn from_index(i: usize) -> (r: Transform)
        requires
            i < 8,
        ensures
            r == all_transforms()[i as int],
    {
        if i == 0 {
            Transform::Identity
        } else if i == 1 {
            Transform::FlipLR
        } else if i == 2 {
            Transform::FlipUD
        } else if i == 3 {
            Transform::Transpose
        } else if i == 4 {
            Transform::TransposeAnti
        } else if i == 5 {
            Transform::Rot90
        } else if i == 6 {
            Transform::Rot180
        } else {
            Transform::Rot270
        }
    }

    /// The transform that undoes this one.
    pub fn inverse(self) -> (r: Transform)
        ensures
            r == self.spec_inverse(),
    {
        match self {
            Transform::Rot90 => Transform::Rot270,
            Transform::Rot270 => Transform::Rot90,
            _ => self,
        }
    }

    /// The image of the packed index `p` under this transform.
    pub fn apply(self, p: usize) -> (r: usize)
        requires
            p <= 361,
        ensures
            r == self.spec_apply(p as int),
            r <= 361,
            (p == 361) == (r == 361),
    {
        if p == PASS {
            PASS
        } else {
            let x = p % SIZE;
            let y = p / SIZE;
            let a = if self.swaps_exec() { y } else { x };
            let b = if self.swaps_exec() { x } else { y };
            let nx = if self.flips_x_exec() { 18 - a } else { a };
            let ny = if self.flips_y_exec() { 18 - b } else { b };
            proof {
                lemma_packed_unpack(nx as int, ny as int);
            }
            ny * SIZE + nx
        }
    }

    fn swaps_exec(self) -> (r: bool)
        ensures
            r == self.swaps(),
    {
        match self {
            Transform::Transpose | Transform::TransposeAnti | Transform::Rot90
            | Transform::Rot270 => true,
            _ => false,
        }
    }

    fn flips_x_exec(self) -> (r: bool)
        ensures
            r == self.flips_x(),
    {
        match self {
            Transform::FlipLR | Transform::TransposeAnti | Transform::Rot90
            | Transform::Rot180 => true,
            _ => false,
        }
    }

    fn flips_y_exec(self) -> (r: bool)
        ensures
            r == self.flips_y(),
    {
        match self {
            Transform::FlipUD | Transform::TransposeAnti | Transform::Rot180
            | Transform::Rot270 => true,
            _ => false,
        }
    }
}

/// A transform maps the board onto itself.
pub proof fn lemma_apply_range(t: Transform, p: int)
    requires
        0 <= p <= 361,
    ensures
        0 <= t.spec_apply(p) <= 361,
        (p == 361) == (t.spec_apply(p) == 361),
{
    if p < 361 {
        lemma_packed_unpack(t.map_x(col(p), row(p)), t.map_y(col(p), row(p)));
    }
}

/// Every transform is undone by its inverse.
pub proof fn lemma_inverse_apply(t: Transform, p: int)
    requires
        0 <= p <= 361,
    ensures
        t.spec_inverse().spec_apply(t.spec_apply(p)) == p,
        t.spec_apply(t.spec_inverse().spec_apply(p)) == p,
{
    if p < 361 {
        let (x, y) = (col(p), row(p));
        lemma_packed_unpack(t.map_x(x, y), t.map_y(x, y));
        let u = t.spec_inverse();
        lemma_packed_unpack(u.map_x(x, y), u.map_y(x, y));
    }
}

/// The transform with the given swap and flip bits.
pub open spec fn from_bits(sw: bool, fx: bool, fy: bool) -> Transform {
    if !sw {
        if !fx {
            if !fy { Transform::Identity } else { Transform::FlipUD }
        } else {
            if !fy { Transform::FlipLR } else { Transform::Rot180 }
        }
    } else {
        if !fx {
            if !fy { Transform::Transpose } else { Transform::Rot270 }
        } else {
            if !fy { Transform::Rot90 } else { Transform::TransposeAnti }
        }
    }
}

/// The transform that applies `u` first and `s` second.
pub open spec fn compose(s: Transform, u: Transform) -> Transform {
    let fx = if s.swaps() { u.flips_y() } else { u.flips_x() };
    let fy = if s.swaps() { u.flips_x() } else { u.flips_y() };
    from_bits(s.swaps() != u.swaps(), s.flips_x() != fx, s.flips_y() != fy)
}

/// Composing transforms composes their action on the board.
pub proof fn lemma_compose_apply(s: Transform, u: Transform, p: int)
    requires
        0 <= p <= 361,
    ensures
        compose(s, u).spec_apply(p) == s.spec_apply(u.spec_apply(p)),
{
    if p < 361 {
        lemma_unpack_packed(p);
        let (x, y) = (col(p), row(p));
        lemma_packed_unpack(u.map_x(x, y), u.map_y(x, y));
    }
}

/// Every transform stands in the fixed order.
pub proof fn lemma_all_transforms(t: Transform)
    ensures
        exists|k: int| 0 <= k < 8 && all_transforms()[k] == t,
{
    match t {
        Transform::Identity => assert(all_transforms()[0] == t),
        Transform::FlipLR => assert(all_transforms()[1] == t),
        Transform::FlipUD => assert(all_transforms()[2] == t),
        Transform::Transpose => assert(all_transforms()[3] == t),
        Transform::TransposeAnti => assert(all_transforms()[4] == t),
        Transform::Rot90 => assert(all_transforms()[5] == t),
        Transform::Rot180 => assert(all_transforms()[6] == t),
        Transform::Rot270 => assert(all_transforms()[7] == t),
    }
}

/// The identity fixes every point.
pub proof fn lemma_identity_apply(p: int)
    requires
        0 <= p <= 361,
    ensures
        Transform::Identity.spec_apply(p) == p,
{
    if p < 361 {
        lemma_unpack_packed(p);
    }
}

} // verus!
