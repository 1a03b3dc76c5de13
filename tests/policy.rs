use dg_mcts::board::Position;
use dg_mcts::options::{ScoringSearch, SearchOptions, StandardDeterministicSearch, StandardSearch};
use dg_mcts::policy::{
    candidates, create_initial_policy, eliminate_symmetric, merge_targets, symmetry_flags,
    StandardPolicyChecker,
};
use dg_mcts::symmetry::{Point, Transform};
use dg_mcts::Color;

const ALL: [Transform; 8] = [
    Transform::Identity,
    Transform::FlipLR,
    Transform::FlipUD,
    Transform::Transpose,
    Transform::TransposeAnti,
    Transform::Rot90,
    Transform::Rot180,
    Transform::Rot270,
];

#[test]
fn symmetry_collapse_on_empty_board() {
    let board = Position::new();
    let legal = vec![true; 361];
    let checker = StandardPolicyChecker::new(Color::Black);
    let (mask, indices) = create_initial_policy(&checker, &board, &legal);

    assert_eq!(mask.len(), 362);
    assert_eq!(indices.len(), 362);
    // 55 orbits of vertices under the eight symmetries, and the pass
    assert_eq!(mask.iter().filter(|&&m| m).count(), 56);
    assert!(mask[361]);
    assert_eq!(indices[361], 361);
    // the corners all map to the first one
    assert_eq!(indices[Point::new(18, 18).to_packed_index()], 0);
    assert_eq!(indices[Point::new(0, 18).to_packed_index()], 0);
    assert_eq!(indices[Point::new(18, 0).to_packed_index()], 0);
    assert!(mask[0]);
    assert!(!mask[18]);
}

#[test]
fn asymmetric_board_keeps_every_legal_move() {
    let mut board = Position::new();
    board.place(Color::Black, Point::new(3, 2));
    let mut legal = vec![true; 361];
    legal[Point::new(3, 2).to_packed_index()] = false;
    let checker = StandardPolicyChecker::new(Color::White);
    let (mask, indices) = create_initial_policy(&checker, &board, &legal);

    assert_eq!(mask.iter().filter(|&&m| m).count(), 361);
    assert!(!mask[Point::new(3, 2).to_packed_index()]);
    for i in 0..362 {
        assert_eq!(indices[i], i);
    }
}

#[test]
fn finite_entries_are_legal_or_pass() {
    let mut board = Position::new();
    board.place(Color::Black, Point::new(9, 9));
    let mut legal = vec![true; 361];
    legal[Point::new(9, 9).to_packed_index()] = false;
    legal[Point::new(0, 0).to_packed_index()] = false;
    legal[Point::new(4, 7).to_packed_index()] = false;
    let checker = StandardPolicyChecker::new(Color::White);
    let (mask, _) = create_initial_policy(&checker, &board, &legal);

    for p in 0..362 {
        if mask[p] {
            assert!(p == 361 || legal[p]);
        }
    }
    assert!(!mask[0]);
}

#[test]
fn elimination_is_idempotent() {
    let board = Position::new();
    let legal = vec![true; 361];
    let checker = StandardPolicyChecker::new(Color::Black);
    let (mask, indices) = create_initial_policy(&checker, &board, &legal);
    let again = eliminate_symmetric(&mask, &indices);

    assert_eq!(again, mask);
}

#[test]
fn symmetric_merge_lands_on_canonical_moves() {
    let mut board = Position::new();
    board.place(Color::Black, Point::new(9, 9));
    let flags = symmetry_flags(&board);
    assert!(flags.iter().all(|&f| f));

    let legal = vec![true; 361];
    let checker = StandardPolicyChecker::new(Color::White);
    let (_, indices) = create_initial_policy(&checker, &board, &legal);

    for &t in ALL.iter() {
        let forward = merge_targets(&indices, t);
        let backward = merge_targets(&indices, t.inverse());
        assert_eq!(forward, backward);
        for p in 0..362 {
            assert_eq!(indices[forward[p]], forward[p]);
        }
    }
}

#[test]
fn merge_targets_undo_the_transform() {
    let mut board = Position::new();
    board.place(Color::Black, Point::new(3, 2));
    let legal = vec![true; 361];
    let checker = StandardPolicyChecker::new(Color::White);
    let (_, indices) = create_initial_policy(&checker, &board, &legal);

    let targets = merge_targets(&indices, Transform::Rot90);
    // the response entry at the image of (1, 0) belongs to (1, 0) itself
    let p = Point::new(1, 0).to_packed_index();
    assert_eq!(targets[Transform::Rot90.apply(p)], p);
    assert_eq!(targets[361], 361);
}

#[test]
fn candidates_of_standard_checker() {
    let board = Position::new();
    let mut legal = vec![false; 361];
    legal[7] = true;
    let c = candidates(&StandardPolicyChecker::new(Color::Black), &board, &legal);

    assert_eq!(c.len(), 362);
    assert_eq!(c.iter().filter(|&&m| m).count(), 2);
    assert!(c[7] && c[361]);
}

#[test]
fn search_options() {
    let eyes = vec![false; 361];
    assert!(!StandardSearch::new().deterministic());
    assert!(StandardDeterministicSearch::new().deterministic());
    assert!(ScoringSearch::new().deterministic());

    let board = Position::new();
    let legal = vec![true; 361];
    let scoring = ScoringSearch::new().policy_checker(Color::Black, &eyes, &eyes);
    let (mask, _) = create_initial_policy(&scoring, &board, &legal);
    assert!(!mask[361]);
    let standard = StandardSearch::new().policy_checker(Color::Black, &eyes, &eyes);
    let (mask, _) = create_initial_policy(&standard, &board, &legal);
    assert!(mask[361]);
}
