use tracer::intersect::{closest_hit, orient_normal, select_root, Face};

#[test]
fn orientation_follows_the_dot_sign() {
    // A ray opposing the outward normal sees the front face and keeps the
    // normal; one travelling with it sees the back face and negates it.
    assert_eq!(orient_normal(true), (Face::Front, false));
    assert_eq!(orient_normal(false), (Face::Back, true));
}

#[test]
fn nearer_root_wins_when_inside_the_interval() {
    assert_eq!(select_root(5, 9, 1, 100), Some(5));
}

#[test]
fn farther_root_wins_when_nearer_is_too_close() {
    // The nearer root at the lower bound is excluded: the interval is open.
    assert_eq!(select_root(1, 9, 1, 100), Some(9));
    assert_eq!(select_root(0, 9, 1, 100), Some(9));
}

#[test]
fn interval_bounds_are_exclusive() {
    assert_eq!(select_root(1, 100, 1, 100), None);
    assert_eq!(select_root(2, 99, 1, 100), Some(2));
}

#[test]
fn both_roots_outside_miss() {
    assert_eq!(select_root(0, 1, 1, 100), None);
    assert_eq!(select_root(100, 200, 1, 100), None);
}

#[test]
fn closest_hit_picks_the_minimum() {
    let keys = vec![Some(8), None, Some(3), Some(5)];
    assert_eq!(closest_hit(&keys), Some(2));
}

#[test]
fn closest_hit_breaks_ties_toward_the_first() {
    // A later primitive must be strictly nearer to displace an earlier one.
    let keys = vec![Some(8), Some(3), Some(3)];
    assert_eq!(closest_hit(&keys), Some(1));
}

#[test]
fn closest_hit_of_all_misses_is_none() {
    let keys: Vec<Option<u64>> = vec![None, None];
    assert_eq!(closest_hit(&keys), None);
    let empty: Vec<Option<u64>> = Vec::new();
    assert_eq!(closest_hit(&empty), None);
}

#[test]
fn distance_keys_embed_nonnegative_doubles() {
    // The IEEE bit pattern of a nonnegative double grows with its value,
    // which is what lets the caller key roots by it.
    let a = 0.001f64.to_bits();
    let b = 1.5f64.to_bits();
    let c = f64::INFINITY.to_bits();
    assert!(a < b && b < c);
    assert_eq!(closest_hit(&vec![Some(b), Some(a)]), Some(1));
}
