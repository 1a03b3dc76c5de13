use dg_mcts::board::{is_eye, Position};
use dg_mcts::policy::{PolicyChecker, ScoringPolicyChecker, StandardPolicyChecker};
use dg_mcts::symmetry::Point;
use dg_mcts::Color;

#[test]
fn corner() {
    let mut board = Position::new();
    board.place(Color::Black, Point::new(1, 0));
    board.place(Color::Black, Point::new(0, 1));
    board.place(Color::Black, Point::new(1, 1));

    assert!(is_eye(&board, Color::Black, Point::new(0, 0)));
    assert!(!is_eye(&board, Color::White, Point::new(0, 0)));
}

#[test]
fn side() {
    let mut board = Position::new();
    board.place(Color::Black, Point::new(0, 0));
    board.place(Color::Black, Point::new(0, 1));
    board.place(Color::Black, Point::new(1, 1));
    board.place(Color::Black, Point::new(2, 1));
    board.place(Color::Black, Point::new(2, 0));

    assert!(is_eye(&board, Color::Black, Point::new(1, 0)));
    assert!(!is_eye(&board, Color::White, Point::new(1, 0)));
}

#[test]
fn middle() {
    let mut board = Position::new();
    board.place(Color::Black, Point::new(0, 1));
    board.place(Color::Black, Point::new(0, 2));
    board.place(Color::Black, Point::new(1, 0));
    board.place(Color::Black, Point::new(2, 0));
    board.place(Color::Black, Point::new(2, 2));
    board.place(Color::Black, Point::new(2, 1));
    board.place(Color::Black, Point::new(1, 2));

    assert!(is_eye(&board, Color::Black, Point::new(1, 1)));
    assert!(!is_eye(&board, Color::White, Point::new(1, 1)));

    board.place(Color::Black, Point::new(0, 0));

    assert!(is_eye(&board, Color::Black, Point::new(1, 1)));
    assert!(!is_eye(&board, Color::White, Point::new(1, 1)));
}

#[test]
fn middle_needs_three_diagonals() {
    let mut board = Position::new();
    board.place(Color::Black, Point::new(0, 1));
    board.place(Color::Black, Point::new(1, 0));
    board.place(Color::Black, Point::new(2, 1));
    board.place(Color::Black, Point::new(1, 2));
    board.place(Color::Black, Point::new(0, 0));
    board.place(Color::Black, Point::new(2, 2));

    assert!(!is_eye(&board, Color::Black, Point::new(1, 1)));
    board.place(Color::Black, Point::new(2, 0));
    assert!(is_eye(&board, Color::Black, Point::new(1, 1)));
}

#[test]
fn corner_needs_both_neighbours() {
    let mut board = Position::new();
    board.place(Color::Black, Point::new(1, 0));
    board.place(Color::Black, Point::new(1, 1));

    assert!(!is_eye(&board, Color::Black, Point::new(0, 0)));
}

#[test]
fn standard_checker_accepts_pass_and_legal_moves() {
    let board = Position::new();
    let mut legal = vec![false; 361];
    legal[5] = true;
    let checker = StandardPolicyChecker::new(Color::Black);

    assert!(checker.is_policy_candidate(&board, &legal, Point::pass()));
    assert!(checker.is_policy_candidate(&board, &legal, Point::from_packed_index(5)));
    assert!(!checker.is_policy_candidate(&board, &legal, Point::from_packed_index(6)));
}

#[test]
fn scoring_checker_rejects_pass_alive_eyes_and_own_eyes() {
    let mut board = Position::new();
    board.place(Color::Black, Point::new(1, 0));
    board.place(Color::Black, Point::new(0, 1));
    board.place(Color::Black, Point::new(1, 1));
    let legal = vec![true; 361];
    let mut eye_black = vec![false; 361];
    let eye_white = vec![false; 361];
    eye_black[100] = true;

    let checker = ScoringPolicyChecker::new(&eye_black, &eye_white, Color::Black);
    assert!(!checker.is_policy_candidate(&board, &legal, Point::pass()));
    assert!(!checker.is_policy_candidate(&board, &legal, Point::from_packed_index(100)));
    assert!(!checker.is_policy_candidate(&board, &legal, Point::new(0, 0)));
    assert!(checker.is_policy_candidate(&board, &legal, Point::new(6, 5)));

    let white = ScoringPolicyChecker::new(&eye_black, &eye_white, Color::White);
    assert!(white.is_policy_candidate(&board, &legal, Point::new(0, 0)));
}
