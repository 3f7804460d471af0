//! The collections of the standard library.

use crate::std_calls;
use std::cmp::Ordering;
use std::collections::HashMap;
use vstd::prelude::*;

verus! {

/// Someone with a name and an age in years.
#[derive(Debug)]
pub struct Person {
    pub name: String,
    pub age: u32,
}

/// The length of a vector and its capacity at the same moment.
#[derive(Clone, Copy, Debug)]
pub struct Room {
    pub len: usize,
    pub capacity: usize,
}

/// What the tour of `Vec` shows.
#[derive(Debug)]
pub struct Vectors {
    /// The third of five elements, read by index and read with `get`.
    pub third: i32,
    pub third_by_get: Option<i32>,
    /// The elements that a `for` over a borrowed vector visits.
    pub walked: Vec<i32>,
    /// A vector of three zeros made with `vec!`, and one made from an array.
    pub zeros: Vec<i32>,
    pub zeros_from_array: Vec<i32>,
    /// Length and capacity after `with_capacity` and `extend`, after
    /// `reserve`, and after `shrink_to_fit`.
    pub extended: Room,
    pub reserved: Room,
    pub shrunk: Room,
    /// What `remove` returns, and what three calls of `pop` return.
    pub removed: i32,
    pub popped: (Option<i32>, Option<i32>, Option<i32>),
    /// A vector after `append`, `truncate` and `retain`, and the vector that
    /// `append` emptied.
    pub retained: Vec<i32>,
    pub appended_from: Vec<i32>,
    /// A vector after `drain`; what was drained, after `split_off`; and what
    /// was split off.
    pub undrained: Vec<i32>,
    pub drained: Vec<i32>,
    pub split_off: Vec<i32>,
    /// Integers after `sort_unstable`.
    pub sorted: Vec<i32>,
    /// People after `sort_unstable_by`, the oldest first.
    pub people: Vec<Person>,
}

/// What the tour of `HashMap` shows. The maps are keyed by number: the kinds
/// of gems are numbered from 0 in the order ruby, sapphire, pebble, and the
/// two teams that score are 0 for blue and 1 for yellow.
#[derive(Debug)]
pub struct Maps {
    /// How many gems of each kind there are.
    pub gems: HashMap<u64, i32>,
    /// Teams by name with their scores, as a list that a map can be collected
    /// from.
    pub teams: Vec<(String, i32)>,
    /// The score of the blue team, as `get` returns it and with a default
    /// in place of `None`.
    pub score: Option<i32>,
    pub score_or_zero: i32,
    /// What `insert` returns for a key that is present, and what `get`
    /// returns afterwards.
    pub replaced: Option<i32>,
    pub current: Option<i32>,
    /// What `or_insert` leaves in an entry that was vacant, and in the same
    /// entry once it is occupied.
    pub vacant_filled: i32,
    pub occupied_kept: i32,
    /// The scores at the end.
    pub scores: HashMap<u64, i32>,
}

impl Person {
    pub fn new(name: String, age: u32) -> (person: Person)
        ensures
            person.name == name,
            person.age == age,
    {
        Person { name, age }
    }
}

/// Whether `x` lies above `bound`.
pub fn exceeds(x: i32, bound: i32) -> (above: bool)
    ensures
        above == (x > bound),
{
    x > bound
}

/// The order that puts the older of two people first.
pub fn by_age_descending(a: &Person, b: &Person) -> (order: Ordering)
    ensures
        order == Ordering::Less <==> a.age > b.age,
        order == Ordering::Equal <==> a.age == b.age,
        order == Ordering::Greater <==> a.age < b.age,
{
    b.age.cmp(&a.age)
}

/// Makes vectors, reads them, grows and shrinks them, and sorts them.
pub fn vec_test() -> (shown: Vectors)
    ensures
        shown.third == 3,
        shown.third_by_get == Some(3i32),
        shown.walked@ == seq![1i32, 2, 3],
        shown.zeros@ == seq![0i32, 0, 0],
        shown.zeros_from_array@ == seq![0i32, 0, 0],
        shown.extended.len == 3 && shown.extended.capacity >= 3,
        shown.reserved.len == 3 && shown.reserved.capacity >= 3,
        shown.shrunk.len == 3 && shown.shrunk.capacity >= 3,
        shown.removed == 2,
        shown.popped == (Some(3i32), Some(1i32), None::<i32>),
        shown.retained@ == seq![11i32],
        shown.appended_from@ == Seq::<i32>::empty(),
        shown.undrained@ == seq![11i32, 55],
        shown.drained@ == seq![22i32],
        shown.split_off@ == seq![33i32, 44],
        shown.sorted@ == seq![1i32, 2, 5, 10, 15],
        shown.people@.len() == 3,
        shown.people@[0].name@ == "Al"@ && shown.people@[0].age == 60,
        shown.people@[1].name@ == "Zoe"@ && shown.people@[1].age == 25,
        shown.people@[2].name@ == "John"@ && shown.people@[2].age == 1,
{
    let v: Vec<i32> = Vec::new();
    let v: Vec<i32> = vec![1, 2, 3];

    // Only a mutable vector can be pushed to.
    let mut v: Vec<i32> = Vec::new();
    v.push(1);

    // A vector is freed with its elements where its scope ends.
    {
        let v: Vec<i32> = vec![1, 2, 3];
    }

    // An index that is out of range stops the program; `get` returns `None`.
    let v: Vec<i32> = vec![1, 2, 3, 4, 5];
    let third: i32 = v[2];
    let third_by_get: Option<i32> = match v.as_slice().get(2) {
        Some(third) => Some(*third),
        None => None,
    };

    let v: Vec<i32> = vec![1, 2, 3];
    let mut walked: Vec<i32> = Vec::new();
    for i in it: &v
        invariant
            walked@ == v@.take(it.index()),
    {
        walked.push(*i);
    }
    assert(walked@ =~= v@);

    let zeros: Vec<i32> = vec![0; 3];
    let zeros_from_array: Vec<i32> = std_calls::vec_from_array([0, 0, 0]);
    assert(zeros@ =~= zeros_from_array@);

    // Capacity is room that is already allocated; length is room in use.
    let mut v: Vec<i32> = Vec::with_capacity(10);
    std_calls::vec_extend_from_array(&mut v, [1, 2, 3]);
    let extended = Room { len: v.len(), capacity: std_calls::vec_capacity(&v) };
    v.reserve(100);
    let reserved = Room { len: v.len(), capacity: std_calls::vec_capacity(&v) };
    std_calls::vec_shrink_to_fit(&mut v);
    let shrunk = Room { len: v.len(), capacity: std_calls::vec_capacity(&v) };

    let mut v: Vec<i32> = vec![1, 2];
    let empty = v.is_empty();
    assert(!empty);
    // `insert` takes an index up to the length; `remove` and `pop` return
    // what they take out.
    v.insert(2, 3);
    assert(v@ =~= seq![1i32, 2, 3]);
    let removed = v.remove(1);
    assert(v@ =~= seq![1i32, 3]);
    let first_popped = v.pop();
    let second_popped = v.pop();
    let third_popped = v.pop();
    v.clear();

    // `append` moves every element over and leaves the other vector empty.
    let mut v1: Vec<i32> = vec![11, 22];
    v.append(&mut v1);
    assert(v@ =~= seq![11i32, 22]);
    v.truncate(1);
    assert(v@ =~= seq![11i32]);
    std_calls::vec_retain_above(&mut v, 10);
    assert(v@ =~= seq![11i32]) by {
        assert(seq![11i32] =~= Seq::<i32>::empty().push(11i32));
        reveal_with_fuel(Seq::filter, 2);
    }
    let retained = v;

    // `drain` takes a range out; `split_off` cuts a vector in two.
    let mut v: Vec<i32> = vec![11, 22, 33, 44, 55];
    let mut m: Vec<i32> = std_calls::vec_drain(&mut v, 1, 3);
    assert(v@ =~= seq![11i32, 55]);
    assert(m@ =~= seq![22i32, 33, 44]);
    let v2 = m.split_off(1);
    assert(m@ =~= seq![22i32]);
    assert(v2@ =~= seq![33i32, 44]);
    let undrained = v;

    let v: Vec<i32> = vec![11, 22, 33, 44, 55];
    let slice: &[i32] = &v.as_slice()[1..4];
    assert(slice@ =~= seq![22i32, 33, 44]);

    // An unstable sort may reorder equal elements, and is the faster for it.
    let mut vec: Vec<i32> = vec![1, 5, 10, 2, 15];
    std_calls::vec_sort_unstable(&mut vec);
    proof {
        lemma_five_sorted(vec@);
    }

    let mut people: Vec<Person> = vec![
        Person::new(String::from_str("Zoe"), 25),
        Person::new(String::from_str("Al"), 60),
        Person::new(String::from_str("John"), 1),
    ];
    let ghost unsorted = people@;
    std_calls::vec_sort_unstable_by_age_descending(&mut people);
    proof {
        lemma_three_by_age(unsorted, people@);
    }

    Vectors {
        third,
        third_by_get,
        walked,
        zeros,
        zeros_from_array,
        extended,
        reserved,
        shrunk,
        removed,
        popped: (first_popped, second_popped, third_popped),
        retained,
        appended_from: v1,
        undrained,
        drained: m,
        split_off: v2,
        sorted: vec,
        people,
    }
}

/// Fills maps, reads them, and updates them with and without overwriting.
pub fn hashmap_test() -> (shown: Maps)
    ensures
        shown.gems@ == map![0u64 => 1i32, 1u64 => 2i32, 2u64 => 18i32],
        shown.teams@.len() == 3,
        shown.teams@[0].0@ == "中国队"@ && shown.teams@[0].1 == 100,
        shown.teams@[1].0@ == "美国队"@ && shown.teams@[1].1 == 10,
        shown.teams@[2].0@ == "日本队"@ && shown.teams@[2].1 == 50,
        shown.score == Some(10i32),
        shown.score_or_zero == 10,
        shown.replaced == Some(10i32),
        shown.current == Some(20i32),
        shown.vacant_filled == 5,
        shown.occupied_kept == 5,
        shown.scores@ == map![0u64 => 20i32, 1u64 => 5i32],
{
    broadcast use vstd::std_specs::hash::group_hash_axioms;

    let ruby: u64 = 0;
    let sapphire: u64 = 1;
    let pebble: u64 = 2;
    let mut my_gems: HashMap<u64, i32> = HashMap::new();
    my_gems.insert(ruby, 1);
    my_gems.insert(sapphire, 2);
    my_gems.insert(pebble, 18);
    assert(my_gems@ =~= map![0u64 => 1i32, 1u64 => 2i32, 2u64 => 18i32]);

    let teams_list: Vec<(String, i32)> = vec![
        (String::from_str("中国队"), 100),
        (String::from_str("美国队"), 10),
        (String::from_str("日本队"), 50),
    ];

    // `get` borrows the key and returns a borrowed value, or `None`.
    let blue: u64 = 0;
    let yellow: u64 = 1;
    let mut scores: HashMap<u64, i32> = HashMap::new();
    scores.insert(blue, 10);
    scores.insert(yellow, 50);
    let team: u64 = blue;
    let score: Option<i32> = match scores.get(&team) {
        Some(score) => Some(*score),
        None => None,
    };
    let score_or_zero: i32 = match scores.get(&team) {
        Some(score) => *score,
        None => 0,
    };

    let mut scores: HashMap<u64, i32> = HashMap::new();
    scores.insert(blue, 10);

    // `insert` overwrites and returns what was there.
    let old = scores.insert(blue, 20);
    assert(old == Some(10i32));

    let new: Option<i32> = match scores.get(&blue) {
        Some(score) => Some(*score),
        None => None,
    };
    assert(new == Some(20i32));

    // `or_insert` writes only where the entry is vacant.
    let v = scores.entry(yellow).or_insert(5);
    let vacant_filled: i32 = *v;
    assert(vacant_filled == 5);

    let v = scores.entry(yellow).or_insert(50);
    let occupied_kept: i32 = *v;
    assert(occupied_kept == 5);
    assert(scores@ =~= map![0u64 => 20i32, 1u64 => 5i32]);

    Maps {
        gems: my_gems,
        teams: teams_list,
        score,
        score_or_zero,
        replaced: old,
        current: new,
        vacant_filled,
        occupied_kept,
        scores,
    }
}

/// The five integers of the tour have one ascending order.
proof fn lemma_five_sorted(sorted: Seq<i32>)
    requires
        sorted.to_multiset() == seq![1i32, 5, 10, 2, 15].to_multiset(),
        forall|i: int, j: int| 0 <= i <= j < sorted.len() ==> sorted[i] <= sorted[j],
    ensures
        sorted == seq![1i32, 2, 5, 10, 15],
{
    let expected = seq![1i32, 2, 5, 10, 15];
    let given = seq![1i32, 5, 10, 2, 15];
    let leq = |a: i32, b: i32| a <= b;
    assert(given.to_multiset() =~= expected.to_multiset()) by {
        broadcast use vstd::seq_lib::group_to_multiset_ensures;
        assert(given =~= Seq::<i32>::empty().push(1).push(5).push(10).push(2).push(15));
        assert(expected =~= Seq::<i32>::empty().push(1).push(2).push(5).push(10).push(15));
    }
    assert(vstd::relations::sorted_by(sorted, leq));
    assert(vstd::relations::sorted_by(expected, leq));
    assert(vstd::relations::total_ordering(leq));
    vstd::seq_lib::lemma_sorted_unique(sorted, expected, leq);
}

/// Three people of three different ages have one order by descending age.
proof fn lemma_three_by_age(unsorted: Seq<Person>, sorted: Seq<Person>)
    requires
        unsorted.len() == 3,
        unsorted[0].age == 25,
        unsorted[1].age == 60,
        unsorted[2].age == 1,
        sorted.to_multiset() == unsorted.to_multiset(),
        forall|i: int, j: int| 0 <= i <= j < sorted.len() ==> sorted[i].age >= sorted[j].age,
    ensures
        sorted == seq![unsorted[1], unsorted[0], unsorted[2]],
{
    vstd::seq_lib::to_multiset_len(sorted);
    vstd::seq_lib::to_multiset_len(unsorted);
    assert forall|k: int| 0 <= k < 3 implies unsorted.contains(#[trigger] sorted[k])
        && sorted.contains(#[trigger] unsorted[k]) by {
        vstd::seq_lib::to_multiset_contains(sorted, sorted[k]);
        vstd::seq_lib::to_multiset_contains(unsorted, sorted[k]);
        vstd::seq_lib::to_multiset_contains(sorted, unsorted[k]);
        vstd::seq_lib::to_multiset_contains(unsorted, unsorted[k]);
        assert(sorted.contains(sorted[k]));
        assert(unsorted.contains(unsorted[k]));
    }
    assert(unsorted.contains(sorted[0]) && unsorted.contains(sorted[1]) && unsorted.contains(
        sorted[2],
    ));
    assert(sorted.contains(unsorted[0]) && sorted.contains(unsorted[1]) && sorted.contains(
        unsorted[2],
    ));
    assert(sorted =~= seq![unsorted[1], unsorted[0], unsorted[2]]);
}

/// A double-ended queue.
pub fn vec_deque_test() {
}

/// A doubly linked list.
pub fn link_list_test() {
}

/// A map ordered by its keys.
pub fn btree_map_test() {
}

/// A set that finds its elements by their hash.
pub fn hashset_test() {
}

/// A set ordered by its elements.
pub fn btree_set_test() {
}

/// A priority queue.
pub fn binary_heap_test() {
}

} // verus!
