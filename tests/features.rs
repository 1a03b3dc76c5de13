use dg_mcts::features::{Order, CHW, CHW_VECT_C, FEATURE_SIZE, HWC, NUM_FEATURES};

#[test]
fn feature_size_is_all_planes() {
    assert_eq!(FEATURE_SIZE, NUM_FEATURES * 361);
}

#[test]
fn layouts_place_each_value_once() {
    let mut seen_chw = vec![false; FEATURE_SIZE];
    let mut seen_hwc = vec![false; FEATURE_SIZE];
    let mut seen_vect = vec![false; FEATURE_SIZE];
    for c in 0..32 {
        for i in 0..361 {
            for (seen, j) in [
                (&mut seen_chw, CHW::index(c, i)),
                (&mut seen_hwc, HWC::index(c, i)),
                (&mut seen_vect, CHW_VECT_C::index(c, i)),
            ] {
                assert!(!seen[j]);
                seen[j] = true;
            }
        }
    }
}

#[test]
fn layout_examples() {
    assert_eq!(CHW::index(3, 10), 3 * 361 + 10);
    assert_eq!(HWC::index(3, 10), 10 * 32 + 3);
    assert_eq!(CHW_VECT_C::index(5, 10), 4 * (361 + 10) + 1);
    assert_eq!(CHW_VECT_C::index(31, 360), FEATURE_SIZE - 1);
}
