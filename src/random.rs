use vstd::prelude::*;

use crate::symmetry::Transform;

verus! {

/// Relies on `rand::Rng::gen_range` over `rand::thread_rng()`: a value drawn from
/// `[low, high)`. It panics on an empty range, which `requires` leaves out.
#[verifier::external_body]
fn random_range(low: i32, high: i32) -> (r: i32)
    requires
        low < high,
    ensures
        low <= r < high,
{
    rand::Rng::gen_range(&mut rand::thread_rng(), low..high)
}

/// The komi, in half points, for a draw of `bucket` in `[0, 10)` and of `offset`
/// in `[-8, 8)`: 7.5 for four buckets in ten, 6.5 for four, 0.5 for one, and
/// `offset + 0.5` for the last.
pub open spec fn spec_komi_for(bucket: int, offset: int) -> int {
    if bucket < 4 {
        15
    } else if bucket < 8 {
        13
    } else if bucket < 9 {
        1
    } else {
        2 * offset + 1
    }
}

/// The komi, in half points, for the given draws.
pub fn komi_for(bucket: i32, offset: i32) -> (r: i32)
    requires
        0 <= bucket < 10,
        -8 <= offset < 8,
    ensures
        r == spec_komi_for(bucket as int, offset as int),
        -15 <= r <= 15,
        r % 2 == 1 || r % 2 == -1,
{
    if bucket < 4 {
        15
    } else if bucket < 8 {
        13
    } else if bucket < 9 {
        1
    } else {
        2 * offset + 1
    }
}

/// A random komi, in half points (the komi is half of the result): 7.5 with
/// probability 0.4, 6.5 with probability 0.4, 0.5 with probability 0.1, and
/// otherwise one of the sixteen values from -7.5 to 7.5 in steps of one.
pub fn get_random_komi() -> (r: i32)
    ensures
        -15 <= r <= 15,
        r % 2 == 1 || r % 2 == -1,
        exists|bucket: int, offset: int|
            0 <= bucket < 10 && -8 <= offset < 8 && r == spec_komi_for(bucket, offset),
{
    let bucket = random_range(0, 10);
    let offset = if bucket == 9 {
        random_range(-8, 8)
    } else {
        0
    };
    komi_for(bucket, offset)
}

/// One of the eight transforms, drawn at random.
pub fn random_transform() -> (r: Transform) {
    let k = random_range(0, 8);
    Transform::from_index(k as usize)
}

} // verus!
