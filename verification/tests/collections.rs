use std::cmp::Ordering;
use std::collections::HashMap;

use rust_code_examples::basics::set_types::{
    binary_heap_test, btree_map_test, btree_set_test, by_age_descending, exceeds, hashmap_test,
    hashset_test, link_list_test, vec_deque_test, vec_test, Person,
};

#[test]
fn the_vec_tour() {
    let shown = vec_test();
    assert_eq!(shown.third, 3);
    assert_eq!(shown.third_by_get, Some(3));
    assert_eq!(shown.walked, vec![1, 2, 3]);
    assert_eq!(shown.zeros, vec![0, 0, 0]);
    assert_eq!(shown.zeros_from_array, vec![0, 0, 0]);
    assert_eq!(shown.removed, 2);
    assert_eq!(shown.popped, (Some(3), Some(1), None));
    assert_eq!(shown.retained, vec![11]);
    assert_eq!(shown.appended_from, Vec::<i32>::new());
    assert_eq!(shown.undrained, vec![11, 55]);
    assert_eq!(shown.drained, vec![22]);
    assert_eq!(shown.split_off, vec![33, 44]);
    assert_eq!(shown.sorted, vec![1, 2, 5, 10, 15]);
}

#[test]
fn the_vec_tour_has_room_for_what_it_holds() {
    let shown = vec_test();
    assert_eq!(shown.extended.len, 3);
    assert!(shown.extended.capacity >= 10);
    assert_eq!(shown.reserved.len, 3);
    assert!(shown.reserved.capacity >= 103);
    assert_eq!(shown.shrunk.len, 3);
    assert!(shown.shrunk.capacity >= 3);
}

#[test]
fn the_vec_tour_sorts_people_by_descending_age() {
    let shown = vec_test();
    let people: Vec<(&str, u32)> =
        shown.people.iter().map(|person| (person.name.as_str(), person.age)).collect();
    assert_eq!(people, vec![("Al", 60), ("Zoe", 25), ("John", 1)]);
    assert_eq!(
        format!("{:?}", shown.people[0]),
        "Person { name: \"Al\", age: 60 }"
    );
}

#[test]
fn the_older_of_two_people_comes_first() {
    let old = Person::new(String::from("old"), 80);
    let young = Person::new(String::from("young"), 8);
    let twin = Person::new(String::from("twin"), 8);
    assert_eq!(old.name, "old");
    assert_eq!(old.age, 80);
    assert_eq!(by_age_descending(&old, &young), Ordering::Less);
    assert_eq!(by_age_descending(&young, &old), Ordering::Greater);
    assert_eq!(by_age_descending(&young, &twin), Ordering::Equal);
}

#[test]
fn exceeds_is_strict() {
    assert!(exceeds(11, 10));
    assert!(!exceeds(10, 10));
    assert!(!exceeds(9, 10));
    assert!(exceeds(i32::MAX, i32::MIN));
    assert!(!exceeds(i32::MIN, i32::MAX));
}

#[test]
fn the_hashmap_tour() {
    let shown = hashmap_test();
    assert_eq!(shown.gems, HashMap::from([(0, 1), (1, 2), (2, 18)]));
    assert_eq!(
        shown.teams,
        vec![
            (String::from("中国队"), 100),
            (String::from("美国队"), 10),
            (String::from("日本队"), 50)
        ]
    );
    assert_eq!(shown.score, Some(10));
    assert_eq!(shown.score_or_zero, 10);
    assert_eq!(shown.replaced, Some(10));
    assert_eq!(shown.current, Some(20));
    assert_eq!(shown.vacant_filled, 5);
    assert_eq!(shown.occupied_kept, 5);
    assert_eq!(shown.scores, HashMap::from([(0, 20), (1, 5)]));
}

#[test]
fn the_tours_of_the_other_collections_return() {
    vec_deque_test();
    link_list_test();
    btree_map_test();
    hashset_test();
    btree_set_test();
    binary_heap_test();
}
