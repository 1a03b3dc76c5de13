use vstd::prelude::*;

verus! {

/// The number of feature planes of a position.
pub const NUM_FEATURES: usize = 32;

/// The number of values in the features of one position.
pub const FEATURE_SIZE: usize = 11552;

/// The memory layout of the features of a position: where the value of plane `c`
/// at vertex `i` is stored.
pub trait Order {
    spec fn spec_index(c: int, i: int) -> int;

    fn index(c: usize, i: usize) -> (r: usize)
        requires
            c < 32,
            i < 361,
        ensures
            r == Self::spec_index(c as int, i as int),
            r < 11552,
    ;
}

/// Plane after plane.
pub struct CHW;

impl Order for CHW {
    open spec fn spec_index(c: int, i: int) -> int {
        c * 361 + i
    }

    fn index(c: usize, i: usize) -> (r: usize) {
        c * 361 + i
    }
}

/// Vertex after vertex, all planes of a vertex together.
pub struct HWC;

impl Order for HWC {
    open spec fn spec_index(c: int, i: int) -> int {
        i * 32 + c
    }

    fn index(c: usize, i: usize) -> (r: usize) {
        i * NUM_FEATURES + c
    }
}

/// Planes in groups of four, the four values of a group at a vertex together.
#[allow(non_camel_case_types)]
pub struct CHW_VECT_C;

impl Order for CHW_VECT_C {
    open spec fn spec_index(c: int, i: int) -> int {
        4 * ((c / 4) * 361 + i) + c % 4
    }

    fn index(c: usize, i: usize) -> (r: usize) {
        let group = c / 4;
        let lane = c % 4;
        4 * (group * 361 + i) + lane
    }
}

} // verus!
