use diorama::trace::{any_hit_within, depth_exhausted, nearest_hit, MAX_DEPTH};

fn key(d: f32) -> Option<u32> {
    Some(d.to_bits())
}

#[test]
fn depth_limit_is_three() {
    assert_eq!(MAX_DEPTH, 3);
    assert!(!depth_exhausted(0));
    assert!(!depth_exhausted(3));
}

#[test]
fn tracing_at_depth_four_sees_only_the_sky() {
    assert!(depth_exhausted(4));
    assert!(depth_exhausted(u32::MAX));
}

#[test]
fn nearest_of_no_object_is_none() {
    assert_eq!(nearest_hit(&[]), None);
}

#[test]
fn nearest_when_every_object_is_missed_is_none() {
    assert_eq!(nearest_hit(&[None, None, None]), None);
}

#[test]
fn nearest_picks_the_smallest_distance() {
    let keys = vec![key(7.5), None, key(4.0), key(4.5), None];
    assert_eq!(nearest_hit(&keys), Some(2));
}

#[test]
fn nearest_tie_goes_to_the_first_object() {
    let keys = vec![None, key(2.0), key(3.0), key(2.0)];
    assert_eq!(nearest_hit(&keys), Some(1));
}

#[test]
fn nearest_accepts_a_hit_at_distance_zero() {
    let keys = vec![key(1.0), key(0.0)];
    assert_eq!(nearest_hit(&keys), Some(1));
}

#[test]
fn distance_keys_order_like_distances() {
    let keys = vec![key(1.0e-3), key(1.0e-7), key(1.0e6)];
    assert_eq!(nearest_hit(&keys), Some(1));
}

#[test]
fn shadow_test_sees_a_hit_before_the_light() {
    let keys = vec![None, key(9.0), key(2.5)];
    assert!(any_hit_within(&keys, 3.0f32.to_bits()));
}

#[test]
fn shadow_test_ignores_hits_at_or_past_the_light() {
    let keys = vec![key(3.0), None, key(12.0)];
    assert!(!any_hit_within(&keys, 3.0f32.to_bits()));
    assert!(!any_hit_within(&[], 3.0f32.to_bits()));
}
