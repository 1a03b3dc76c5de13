use dg_mcts::search::{samples_with_temperature, Event, EventKind};
use dg_mcts::symmetry::Transform;
use dg_mcts::time_control::{
    is_done, is_done_with, min_promote_rollouts, TimeStrategy, TimeStrategyResult,
};
use dg_mcts::tree::{Node, Reservation};
use dg_mcts::Color;

fn all_finite() -> Vec<bool> {
    vec![true; 362]
}

#[test]
fn all_disqualified_root_picks_pass() {
    let mut root = Node::new(Color::Black, &all_finite());
    for i in 0..362 {
        root.disqualify(i);
    }
    assert_eq!(root.argmax_count(), 361);
    assert_eq!(root.total_count(), 0);
    assert_eq!(root.vtotal_count(), 0);
    assert!(root.is_disqualified(0));
    assert!(!root.is_selectable(5));
}

#[test]
fn no_finite_prior_picks_pass() {
    let root = Node::new(Color::Black, &vec![false; 362]);
    assert_eq!(root.argmax_count(), 361);
    assert_eq!(root.total_count(), 0);
    assert_eq!(root.vtotal_count(), 0);
}

#[test]
fn totals_follow_descents_and_inserts() {
    let mut root = Node::new(Color::White, &all_finite());
    root.add_virtual_loss(3);
    root.add_virtual_loss(3);
    root.add_virtual_loss(10);
    assert_eq!(root.total_count(), 0);
    assert_eq!(root.vtotal_count(), 3);
    assert_eq!(root.vcount(3), 2);

    root.record_visit(3);
    assert_eq!(root.total_count(), 1);
    assert_eq!(root.vtotal_count(), 3);
    assert_eq!(root.count(3), 1);
    assert_eq!(root.vcount(3), 1);

    root.record_visit(3);
    root.record_visit(10);
    assert_eq!(root.total_count(), 3);
    assert_eq!(root.vtotal_count(), 3);
    assert!(root.vtotal_count() >= root.total_count());
    let sum: u32 = (0..362).map(|i| root.count(i)).sum();
    assert_eq!(sum, root.total_count());
    assert_eq!(root.to_move(), Color::White);
}

fn visit(node: &mut Node, i: usize, times: u32) {
    for _ in 0..times {
        node.add_virtual_loss(i);
        node.record_visit(i);
    }
}

#[test]
fn argmax_prefers_lower_index_on_ties_and_skips_disqualified() {
    let mut root = Node::new(Color::Black, &all_finite());
    visit(&mut root, 7, 4);
    visit(&mut root, 2, 4);
    visit(&mut root, 9, 3);
    assert_eq!(root.argmax_count(), 2);
    root.disqualify(2);
    assert_eq!(root.argmax_count(), 7);
}

#[test]
fn min_promote_rollouts_is_the_gap_to_the_runner_up() {
    let mut root = Node::new(Color::Black, &all_finite());
    visit(&mut root, 7, 10);
    visit(&mut root, 2, 4);
    visit(&mut root, 9, 3);
    assert_eq!(min_promote_rollouts(&root), 6);

    visit(&mut root, 2, 6);
    assert_eq!(min_promote_rollouts(&root), 0);
}

struct Fixed(TimeStrategyResult);

impl TimeStrategy for Fixed {
    fn try_extend(&self, _root: &Node) -> TimeStrategyResult {
        self.0
    }
}

#[test]
fn done_only_after_a_visit() {
    let root = Node::new(Color::Black, &all_finite());
    assert!(!is_done(&root, &Fixed(TimeStrategyResult::Expired)));
    assert!(!is_done_with(&root, TimeStrategyResult::Expired));
}

#[test]
fn done_by_verdict() {
    let mut root = Node::new(Color::Black, &all_finite());
    visit(&mut root, 7, 10);
    visit(&mut root, 2, 4);

    assert!(is_done(&root, &Fixed(TimeStrategyResult::Expired)));
    assert!(is_done(&root, &Fixed(TimeStrategyResult::NotExtended)));
    assert!(!is_done(&root, &Fixed(TimeStrategyResult::Extended)));
    // the runner-up needs six more visits
    assert!(is_done(&root, &Fixed(TimeStrategyResult::NotExpired(5))));
    assert!(!is_done(&root, &Fixed(TimeStrategyResult::NotExpired(6))));
    assert!(!is_done_with(&root, TimeStrategyResult::NotExpired(100)));
}

#[test]
fn events_move_through_their_states() {
    let event: Event<u8, u32, &str, Vec<usize>> =
        Event::predict("board", vec![1, 2], Transform::Rot90, vec![7, 8]);
    let (kind, pending) = event.into_pending();
    assert!(matches!(kind, EventKind::Predict(ref f) if f == &vec![7, 8]));
    assert!(matches!(pending.kind, EventKind::Pending));
    let (kind, inserted) = pending.into_insert(42);
    assert!(matches!(kind, EventKind::Pending));
    assert!(matches!(inserted.kind, EventKind::Insert(42)));
    assert_eq!(inserted.board, "board");
    assert_eq!(inserted.trace, vec![1, 2]);
    assert_eq!(inserted.transformation, Transform::Rot90);
}

#[test]
fn temperature_only_in_the_opening_of_a_noisy_search() {
    assert!(samples_with_temperature(false, 0));
    assert!(samples_with_temperature(false, 7));
    assert!(!samples_with_temperature(false, 8));
    assert!(!samples_with_temperature(true, 0));
}

#[test]
fn reservation_of_an_edge() {
    let mut root = Node::new(Color::Black, &all_finite());
    assert_eq!(root.reserve(4, false), Reservation::Expand);
    assert_eq!(root.vcount(4), 1);
    // a second descent finds the edge being expanded
    assert_eq!(root.reserve(4, false), Reservation::Conflict);
    assert_eq!(root.vcount(4), 1);
    assert_eq!(root.vtotal_count(), 1);

    root.record_visit(4);
    assert_eq!(root.reserve(4, true), Reservation::Descend);
    assert_eq!(root.vcount(4), 1);
    root.cancel_descent(4);
    assert_eq!(root.vcount(4), 0);
    assert_eq!(root.vtotal_count(), 1);
    assert_eq!(root.total_count(), 1);
}

#[test]
fn new_prior_keeps_the_visits() {
    let mut root = Node::new(Color::Black, &all_finite());
    visit(&mut root, 3, 2);
    let mut finite = vec![false; 362];
    finite[5] = true;
    root.set_finite(&finite);
    assert_eq!(root.count(3), 2);
    assert_eq!(root.argmax_count(), 5);
    assert!(!root.is_selectable(3));
}
