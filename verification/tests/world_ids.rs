use fulgor::renderer::world::{assign_splat_id, position_of_id, take_next_id};

#[test]
fn test_fresh_ids_count_up_from_the_counter() {
    assert_eq!(take_next_id(0), (0, 1));
    assert_eq!(take_next_id(41), (41, 42));
}

#[test]
fn test_splat_keeps_its_own_nonzero_id() {
    assert_eq!(assign_splat_id(7, 3), (7, 3));
    assert_eq!(assign_splat_id(0, 3), (3, 4));
}

#[test]
fn test_world_id_lookup_finds_the_first_match() {
    // Two splats added at positions get 0 and 1; one added with id 5.
    let (id1, next) = take_next_id(0);
    let (id2, next) = take_next_id(next);
    let (id3, _) = assign_splat_id(5, next);
    let ids = vec![id1, id2, id3, 5];
    assert_eq!(position_of_id(&ids, id1), Some(0));
    assert_eq!(position_of_id(&ids, id2), Some(1));
    assert_eq!(position_of_id(&ids, 5), Some(2));
    assert_eq!(position_of_id(&ids, 999), None);
    assert_eq!(position_of_id(&Vec::new(), 0), None);
}
