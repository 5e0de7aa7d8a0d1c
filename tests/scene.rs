use pathtracer::scene::nearest_hit;

fn key(t: f32) -> Option<u32> {
    Some(t.to_bits())
}

#[test]
fn empty_scene_has_no_hit() {
    assert_eq!(nearest_hit(&vec![], 100), None);
}

#[test]
fn all_misses_give_no_hit() {
    assert_eq!(nearest_hit(&vec![None, None, None], u32::MAX), None);
}

#[test]
fn nearest_is_chosen() {
    let keys = vec![key(4.5), None, key(0.75), key(3.0)];
    assert_eq!(nearest_hit(&keys, 100000.0f32.to_bits()), Some(2));
}

#[test]
fn equal_distances_keep_first() {
    let keys = vec![None, Some(7), Some(3), Some(3), Some(9)];
    assert_eq!(nearest_hit(&keys, 10), Some(2));
}

#[test]
fn hits_at_or_past_limit_are_ignored() {
    assert_eq!(nearest_hit(&vec![Some(10), Some(12)], 10), None);
    assert_eq!(nearest_hit(&vec![Some(10), Some(9)], 10), Some(1));
}

#[test]
fn float_bit_keys_order_as_distances() {
    let keys = vec![key(2.0), key(1.999), key(0.001)];
    assert_eq!(nearest_hit(&keys, key(2.0).unwrap()), Some(2));
}
