use vstd::prelude::*;

use crate::board::Position;
use crate::policy::{PolicyChecker, ScoringPolicyChecker, StandardPolicyChecker};
use crate::symmetry::Point;
use crate::Color;

verus! {

/// The policy checker that a search uses.
pub enum Checker {
    Standard(StandardPolicyChecker),
    Scoring(ScoringPolicyChecker),
}

impl PolicyChecker for Checker {
    open spec fn spec_candidate(&self, board: Seq<Option<Color>>, legal: Seq<bool>, p: int) -> bool {
        match self {
            Checker::Standard(c) => c.spec_candidate(board, legal, p),
            Checker::Scoring(c) => c.spec_candidate(board, legal, p),
        }
    }

    fn is_policy_candidate(&self, board: &Position, legal: &Vec<bool>, point: Point) -> (r: bool) {
        match self {
            Checker::Standard(c) => c.is_policy_candidate(board, legal, point),
            Checker::Scoring(c) => c.is_policy_candidate(board, legal, point),
        }
    }
}

/// How a search chooses its candidate moves, and whether it adds noise.
pub trait SearchOptions {
    spec fn spec_deterministic(&self) -> bool;

    spec fn spec_scoring(&self) -> bool;

    /// Whether the search is deterministic: no noise at the root, and no
    /// sampling of the opening moves.
    fn deterministic(&self) -> (r: bool)
        ensures
            r == self.spec_deterministic(),
    ;

    /// The policy checker for `to_move`, where `eye_black` and `eye_white` mark the
    /// eyes of unconditionally alive groups of each color.
    fn policy_checker(&self, to_move: Color, eye_black: &Vec<bool>, eye_white: &Vec<bool>) -> (r:
        Checker)
        requires
            eye_black@.len() == 361,
            eye_white@.len() == 361,
        ensures
            match r {
                Checker::Standard(c) => !self.spec_scoring() && c.to_move == to_move,
                Checker::Scoring(c) => {
                    &&& self.spec_scoring()
                    &&& c.to_move == to_move
                    &&& c.spec_is_valid().len() == 361
                    &&& forall|p: int|
                        0 <= p < 361 ==> #[trigger] c.spec_is_valid()[p] == (!eye_black@[p]
                            && !eye_white@[p])
                },
            },
    ;
}

/// Standard play with noise at the root.
#[derive(Clone, Copy, Debug)]
pub struct StandardSearch {}

impl StandardSearch {
    pub fn new() -> (r: Self) {
        StandardSearch {  }
    }
}

impl SearchOptions for StandardSearch {
    open spec fn spec_deterministic(&self) -> bool {
        false
    }

    open spec fn spec_scoring(&self) -> bool {
        false
    }

    fn deterministic(&self) -> (r: bool) {
        false
    }

    fn policy_checker(&self, to_move: Color, eye_black: &Vec<bool>, eye_white: &Vec<bool>) -> (r:
        Checker) {
        Checker::Standard(StandardPolicyChecker::new(to_move))
    }
}

/// Standard play without noise.
#[derive(Clone, Copy, Debug)]
pub struct StandardDeterministicSearch {}

impl StandardDeterministicSearch {
    pub fn new() -> (r: Self) {
        StandardDeterministicSearch {  }
    }
}

impl SearchOptions for StandardDeterministicSearch {
    open spec fn spec_deterministic(&self) -> bool {
        true
    }

    open spec fn spec_scoring(&self) -> bool {
        false
    }

    fn deterministic(&self) -> (r: bool) {
        true
    }

    fn policy_checker(&self, to_move: Color, eye_black: &Vec<bool>, eye_white: &Vec<bool>) -> (r:
        Checker) {
        Checker::Standard(StandardPolicyChecker::new(to_move))
    }
}

/// Play towards a scoring position, without noise.
#[derive(Clone, Copy, Debug)]
pub struct ScoringSearch {}

impl ScoringSearch {
    pub fn new() -> (r: Self) {
        ScoringSearch {  }
    }
}

impl SearchOptions for ScoringSearch {
    open spec fn spec_deterministic(&self) -> bool {
        true
    }

    open spec fn spec_scoring(&self) -> bool {
        true
    }

    fn deterministic(&self) -> (r: bool) {
        true
    }

    fn policy_checker(&self, to_move: Color, eye_black: &Vec<bool>, eye_white: &Vec<bool>) -> (r:
        Checker) {
        Checker::Scoring(ScoringPolicyChecker::new(eye_black, eye_white, to_move))
    }
}

} // verus!
