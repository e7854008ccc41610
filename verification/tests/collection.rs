use bigbang::universe::{get_object_at_position, get_object_by_index, remove_distant_objects};

#[test]
fn eviction_keeps_the_unflagged_in_order() {
    let mut bodies = vec!['a', 'b', 'c', 'd', 'e'];
    remove_distant_objects(&mut bodies, &vec![false, true, false, true, false]);
    assert_eq!(bodies, vec!['a', 'c', 'e']);
}

#[test]
fn eviction_without_flags_changes_nothing() {
    let mut bodies = vec![1, 2, 3];
    remove_distant_objects(&mut bodies, &vec![false, false, false]);
    assert_eq!(bodies, vec![1, 2, 3]);
    remove_distant_objects(&mut bodies, &Vec::new());
    assert_eq!(bodies, vec![1, 2, 3]);
}

#[test]
fn eviction_of_everything_and_of_nothing_to_evict() {
    let mut bodies = vec![1, 2, 3];
    remove_distant_objects(&mut bodies, &vec![true, true, true]);
    assert!(bodies.is_empty());
    remove_distant_objects(&mut bodies, &vec![true]);
    assert!(bodies.is_empty());
}

#[test]
fn bodies_without_a_flag_stay() {
    let mut bodies = vec![10, 20, 30, 40];
    remove_distant_objects(&mut bodies, &vec![true, false]);
    assert_eq!(bodies, vec![20, 30, 40]);
    let mut bodies = vec![10, 20];
    remove_distant_objects(&mut bodies, &vec![false, true, true, true]);
    assert_eq!(bodies, vec![10]);
}

#[test]
fn eviction_moves_bodies_that_cannot_be_copied() {
    let mut bodies = vec![String::from("near"), String::from("far"), String::from("nearer")];
    remove_distant_objects(&mut bodies, &vec![false, true, false]);
    assert_eq!(bodies, vec![String::from("near"), String::from("nearer")]);
}

#[test]
fn a_body_at_2500_is_evicted_and_one_at_100_survives() {
    let mut bodies: Vec<(f32, f32)> = vec![(100.0, 0.0), (0.0, 2500.0), (-60.0, 80.0)];
    let distant: Vec<bool> =
        bodies.iter().map(|(x, y)| !((x * x + y * y).sqrt() < 2000.0)).collect();
    assert_eq!(distant, vec![false, true, false]);
    remove_distant_objects(&mut bodies, &distant);
    assert_eq!(bodies, vec![(100.0, 0.0), (-60.0, 80.0)]);
}

#[test]
fn picking_answers_with_the_first_match() {
    let bodies = vec!["b0", "b1", "b2", "b3", "b4", "b5", "b6"];
    let hits = vec![false, false, true, false, false, true, false];
    assert_eq!(get_object_at_position(&bodies, &hits), Some((2, &"b2")));
}

#[test]
fn picking_prefers_the_lower_index_to_the_closer_body() {
    // (x, y, radius): the body at index 5 sits on the query point, the one
    // at index 2 is merely within reach of it.
    let bodies: Vec<(f32, f32, f32)> = vec![
        (500.0, 0.0, 1.0),
        (-500.0, 0.0, 1.0),
        (10.0, 0.0, 2.0),
        (0.0, 700.0, 1.0),
        (0.0, -700.0, 1.0),
        (0.0, 0.0, 2.0),
    ];
    let zoom: f32 = 1.0;
    let reach = 25.0 / zoom.max(0.1);
    let hits: Vec<bool> = bodies
        .iter()
        .map(|(x, y, r)| ((x - 0.0) * (x - 0.0) + (y - 0.0) * (y - 0.0)).sqrt() < r + reach)
        .collect();
    assert_eq!(hits, vec![false, false, true, false, false, true]);
    let picked = get_object_at_position(&bodies, &hits);
    assert_eq!(picked, Some((2, &bodies[2])));
}

#[test]
fn picking_finds_nothing_without_a_match() {
    let bodies = vec![1, 2, 3];
    assert_eq!(get_object_at_position(&bodies, &vec![false, false, false]), None);
    assert_eq!(get_object_at_position(&bodies, &Vec::new()), None);
    let nothing: Vec<i32> = Vec::new();
    assert_eq!(get_object_at_position(&nothing, &vec![true]), None);
}

#[test]
fn picking_ignores_flags_past_the_last_body() {
    let bodies = vec![1, 2];
    assert_eq!(get_object_at_position(&bodies, &vec![false, false, true]), None);
    assert_eq!(get_object_at_position(&bodies, &vec![false, true, true]), Some((1, &2)));
}

#[test]
fn lookup_by_index() {
    let bodies = vec!['x', 'y'];
    assert_eq!(get_object_by_index(&bodies, 0), Some(&'x'));
    assert_eq!(get_object_by_index(&bodies, 1), Some(&'y'));
    assert_eq!(get_object_by_index(&bodies, 2), None);
    let nothing: Vec<char> = Vec::new();
    assert_eq!(get_object_by_index(&nothing, 0), None);
}

#[test]
fn indices_shift_after_an_eviction() {
    let mut bodies = vec!['a', 'b', 'c'];
    assert_eq!(get_object_by_index(&bodies, 2), Some(&'c'));
    remove_distant_objects(&mut bodies, &vec![true, false, false]);
    assert_eq!(get_object_by_index(&bodies, 0), Some(&'b'));
    assert_eq!(get_object_by_index(&bodies, 1), Some(&'c'));
    assert_eq!(get_object_by_index(&bodies, 2), None);
}
