use dg_mcts::random::{get_random_komi, komi_for, random_transform};

#[test]
fn valid_komi() {
    for _ in 0..10000 {
        let komi = get_random_komi() as f32 / 2.0;

        assert!(komi >= -7.5 && komi <= 7.5, "komi is {}", komi);
    }
}

#[test]
fn komi_is_always_on_the_half() {
    for _ in 0..10000 {
        let komi = get_random_komi();
        assert!(komi % 2 != 0);
    }
}

#[test]
fn komi_buckets() {
    assert_eq!(komi_for(0, 0), 15);
    assert_eq!(komi_for(3, 0), 15);
    assert_eq!(komi_for(4, 0), 13);
    assert_eq!(komi_for(7, 0), 13);
    assert_eq!(komi_for(8, 0), 1);
    assert_eq!(komi_for(9, -8), -15);
    assert_eq!(komi_for(9, 7), 15);
    assert_eq!(komi_for(9, 0), 1);
}

#[test]
fn random_komi_hits_the_common_values() {
    let mut seen_75 = false;
    let mut seen_65 = false;
    for _ in 0..10000 {
        let komi = get_random_komi();
        seen_75 |= komi == 15;
        seen_65 |= komi == 13;
    }
    assert!(seen_75 && seen_65);
}

#[test]
fn random_transform_varies() {
    let first = random_transform();
    let mut differs = false;
    for _ in 0..1000 {
        differs |= random_transform() != first;
    }
    assert!(differs);
}
