use raytracer::zbuffer::nearest_hit;

#[test]
fn empty_scan_misses() {
    assert_eq!(nearest_hit(&vec![]), None);
}

#[test]
fn all_misses_give_none() {
    assert_eq!(nearest_hit(&vec![None, None, None]), None);
}

#[test]
fn picks_the_smallest_key() {
    let hits = vec![Some(5), None, Some(3), Some(9)];
    assert_eq!(nearest_hit(&hits), Some(2));
}

#[test]
fn nearer_object_wins_in_either_order() {
    // Two overlapping objects along one ray: the nearer hit is chosen
    // whichever way the scene lists them.
    let near_first = vec![Some(3), Some(5)];
    let far_first = vec![Some(5), Some(3)];
    let a = nearest_hit(&near_first).unwrap();
    let b = nearest_hit(&far_first).unwrap();
    assert_eq!(near_first[a], Some(3));
    assert_eq!(far_first[b], Some(3));
}

#[test]
fn tie_keeps_the_first_hit() {
    let hits = vec![None, Some(4), Some(4)];
    assert_eq!(nearest_hit(&hits), Some(1));
}

#[test]
fn single_hit_is_found() {
    let hits = vec![None, None, Some(7)];
    assert_eq!(nearest_hit(&hits), Some(2));
}
