use dg_mcts::board::Position;
use dg_mcts::symmetry::{Point, Transform};
use dg_mcts::Color;

const ALL: [Transform; 8] = [
    Transform::Identity,
    Transform::FlipLR,
    Transform::FlipUD,
    Transform::Transpose,
    Transform::TransposeAnti,
    Transform::Rot90,
    Transform::Rot180,
    Transform::Rot270,
];

#[test]
fn inverse_undoes_every_transform() {
    for &t in ALL.iter() {
        for p in 0..362 {
            assert_eq!(t.inverse().apply(t.apply(p)), p);
        }
    }
}

#[test]
fn images_of_a_corner() {
    let p = Point::new(0, 0).to_packed_index();
    assert_eq!(Transform::Identity.apply(p), p);
    assert_eq!(Transform::FlipLR.apply(p), Point::new(18, 0).to_packed_index());
    assert_eq!(Transform::FlipUD.apply(p), Point::new(0, 18).to_packed_index());
    assert_eq!(Transform::Rot180.apply(p), Point::new(18, 18).to_packed_index());
    assert_eq!(Transform::Rot90.apply(p), Point::new(18, 0).to_packed_index());
    assert_eq!(Transform::Transpose.apply(Point::new(3, 5).to_packed_index()), Point::new(5, 3).to_packed_index());
    assert_eq!(Transform::TransposeAnti.apply(p), Point::new(18, 18).to_packed_index());
    assert_eq!(Transform::Rot270.apply(Point::new(2, 1).to_packed_index()), Point::new(1, 16).to_packed_index());
    assert_eq!(Transform::Rot90.apply(361), 361);
}

#[test]
fn point_coordinates() {
    let p = Point::new(4, 7);
    assert_eq!(p.to_packed_index(), 7 * 19 + 4);
    assert_eq!(p.x(), 4);
    assert_eq!(p.y(), 7);
    assert!(Point::pass().is_pass());
    assert!(!p.is_pass());
    assert_eq!(Color::Black.opposite(), Color::White);
    assert_eq!(Color::White.opposite(), Color::Black);
}

#[test]
fn symmetric_positions() {
    let mut board = Position::new();
    for &t in ALL.iter() {
        assert!(board.is_symmetric(t));
    }
    board.place(Color::Black, Point::new(3, 3));
    assert!(board.is_symmetric(Transform::Identity));
    assert!(board.is_symmetric(Transform::Transpose));
    assert!(!board.is_symmetric(Transform::FlipLR));
    board.place(Color::Black, Point::new(15, 15));
    assert!(board.is_symmetric(Transform::TransposeAnti));
    assert!(board.is_symmetric(Transform::Rot180));
    assert!(!board.is_symmetric(Transform::Rot90));
    assert_eq!(board.at(Point::new(15, 15)), Some(Color::Black));
    board.clear(Point::new(15, 15));
    assert_eq!(board.at(Point::new(15, 15)), None);
}
