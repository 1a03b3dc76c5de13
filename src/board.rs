use vstd::prelude::*;

use crate::symmetry::{col, packed, row, Point, Transform, NUM_POINTS};
use crate::Color;

verus! {

/// What stands on each vertex of a board, by packed index.
pub struct Position {
    vertices: Vec<Option<Color>>,
}

/// Whether the vertex at column `x`, row `y` is on the board and holds a stone
/// of color `c`.
pub open spec fn filled(b: Seq<Option<Color>>, c: Color, x: int, y: int) -> bool {
    0 <= x < 19 && 0 <= y < 19 && b[packed(x, y)] == Some(c)
}

pub open spec fn indicator(f: bool) -> int {
    if f {
        1
    } else {
        0
    }
}

/// The number of orthogonal neighbours of `(x, y)` that hold a stone of color `c`.
pub open spec fn num_cross(b: Seq<Option<Color>>, c: Color, x: int, y: int) -> int {
    indicator(filled(b, c, x + 1, y)) + indicator(filled(b, c, x - 1, y)) + indicator(
        filled(b, c, x, y + 1),
    ) + indicator(filled(b, c, x, y - 1))
}

/// The number of diagonal neighbours of `(x, y)` that hold a stone of color `c`.
pub open spec fn num_diagonal(b: Seq<Option<Color>>, c: Color, x: int, y: int) -> int {
    indicator(filled(b, c, x + 1, y + 1)) + indicator(filled(b, c, x + 1, y - 1)) + indicator(
        filled(b, c, x - 1, y + 1),
    ) + indicator(filled(b, c, x - 1, y - 1))
}

/// A simple eye of color `c` at `(x, y)`: all of its orthogonal neighbours, and all
/// but one of its diagonal neighbours (all of them on the edge or in the corner),
/// hold a stone of color `c`.
pub open spec fn spec_is_eye(b: Seq<Option<Color>>, c: Color, x: int, y: int) -> bool {
    let edge_x = x == 0 || x == 18;
    let edge_y = y == 0 || y == 18;
    let cross = num_cross(b, c, x, y);
    let diagonal = num_diagonal(b, c, x, y);
    if edge_x && edge_y {
        cross >= 2 && diagonal >= 1
    } else if edge_x || edge_y {
        cross >= 3 && diagonal >= 2
    } else {
        cross >= 4 && diagonal >= 3
    }
}

/// The board looks the same after the transform `t`.
pub open spec fn spec_is_symmetric(b: Seq<Option<Color>>, t: Transform) -> bool {
    forall|p: int| 0 <= p < 361 ==> #[trigger] b[t.spec_apply(p)] == b[p]
}

fn same_vertex(a: Option<Color>, b: Option<Color>) -> (r: bool)
    ensures
        r == (a == b),
{
    match (a, b) {
        (None, None) => true,
        (Some(Color::Black), Some(Color::Black)) => true,
        (Some(Color::White), Some(Color::White)) => true,
        _ => false,
    }
}

impl View for Position {
    type V = Seq<Option<Color>>;

    closed spec fn view(&self) -> Seq<Option<Color>> {
        self.vertices@
    }
}

impl Position {
    pub open spec fn wf(&self) -> bool {
        self@.len() == 361
    }

    /// The empty board.
    pub fn new() -> (r: Position)
        ensures
            r.wf(),
            forall|p: int| 0 <= p < 361 ==> r@[p] == None::<Color>,
    {
        let mut vertices: Vec<Option<Color>> = Vec::new();
        let mut i: usize = 0;
        while i < NUM_POINTS
            invariant
                i <= 361,
                vertices@.len() == i,
                forall|p: int| 0 <= p < i ==> vertices@[p] == None::<Color>,
            decreases 361 - i,
        {
            vertices.push(None);
            i = i + 1;
        }
        Position { vertices }
    }

    /// Puts a stone of `color` on the vertex `point`. This snapshot records
    /// stones only: captures are the rules engine's business.
    pub fn place(&mut self, color: Color, point: Point)
        requires
            old(self).wf(),
            point.spec_index() < 361,
        ensures
            final(self).wf(),
            final(self)@ == old(self)@.update(point.spec_index(), Some(color)),
    {
        self.vertices.set(point.index, Some(color));
    }

    /// Removes whatever stands on the vertex `point`.
    pub fn clear(&mut self, point: Point)
        requires
            old(self).wf(),
            point.spec_index() < 361,
        ensures
            final(self).wf(),
            final(self)@ == old(self)@.update(point.spec_index(), None::<Color>),
    {
        self.vertices.set(point.index, None);
    }

    /// What stands on the vertex `point`.
    pub fn at(&self, point: Point) -> (r: Option<Color>)
        requires
            self.wf(),
            point.spec_index() < 361,
        ensures
            r == self@[point.spec_index()],
    {
        self.vertices[point.index]
    }

    /// Whether the board looks the same after the transform `t`.
    pub fn is_symmetric(&self, t: Transform) -> (r: bool)
        requires
            self.wf(),
        ensures
            r == spec_is_symmetric(self@, t),
    {
        let mut i: usize = 0;
        while i < NUM_POINTS
            invariant
                self.wf(),
                i <= 361,
                forall|p: int| 0 <= p < i ==> #[trigger] self@[t.spec_apply(p)] == self@[p],
            decreases 361 - i,
        {
            let j = t.apply(i);
            if !same_vertex(self.vertices[j], self.vertices[i]) {
                return false;
            }
            i = i + 1;
        }
        true
    }
}

/// Whether the vertex at offset `(dx, dy)` from `point` is on the board and holds
/// a stone of `color`.
fn is_vertex_filled(board: &Position, color: Color, point: Point, dx: i8, dy: i8) -> (r: bool)
    requires
        board.wf(),
        point.spec_index() < 361,
    ensures
        r == filled(
            board@,
            color,
            col(point.spec_index()) + dx,
            row(point.spec_index()) + dy,
        ),
{
    let x = point.x() as i64 + dx as i64;
    let y = point.y() as i64 + dy as i64;
    if x < 0 || x >= 19 || y < 0 || y >= 19 {
        false
    } else {
        let other = Point::new(x as usize, y as usize);
        match board.at(other) {
            Some(c) => c == color,
            None => false,
        }
    }
}

/// Whether playing `color` at `point` would fill one of its own simple eyes: all
/// of the orthogonal neighbours of `point` that are on the board, and at least
/// three of its diagonal neighbours (two on the edge, one in the corner), hold
/// stones of `color`. What stands on `point` itself is not looked at.
pub fn is_eye(board: &Position, color: Color, point: Point) -> (r: bool)
    requires
        board.wf(),
        point.spec_index() < 361,
    ensures
        r == spec_is_eye(board@, color, col(point.spec_index()), row(point.spec_index())),
{
    let c1 = is_vertex_filled(board, color, point, 1, 0);
    let c2 = is_vertex_filled(board, color, point, -1, 0);
    let c3 = is_vertex_filled(board, color, point, 0, 1);
    let c4 = is_vertex_filled(board, color, point, 0, -1);
    let d1 = is_vertex_filled(board, color, point, 1, 1);
    let d2 = is_vertex_filled(board, color, point, 1, -1);
    let d3 = is_vertex_filled(board, color, point, -1, 1);
    let d4 = is_vertex_filled(board, color, point, -1, -1);
    let num_cross: u8 = (c1 as u8) + (c2 as u8) + (c3 as u8) + (c4 as u8);
    let num_diagonal: u8 = (d1 as u8) + (d2 as u8) + (d3 as u8) + (d4 as u8);
    let x = point.x();
    let y = point.y();
    if (x == 0 || x == 18) && (y == 0 || y == 18) {
        num_cross >= 2 && num_diagonal >= 1
    } else if x == 0 || x == 18 || y == 0 || y == 18 {
        num_cross >= 3 && num_diagonal >= 2
    } else {
        num_cross >= 4 && num_diagonal >= 3
    }
}

} // verus!
