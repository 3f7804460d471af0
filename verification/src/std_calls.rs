//! Calls into the standard library that the verifier has no contract for.
//!
//! Each function here makes one such call. Its contract restates what the
//! standard library documents for that call and is taken on trust; everything
//! that uses it is proved from that contract.

use crate::basics::set_types::{by_age_descending, exceeds, Person};
use crate::text::{
    byte_len, chars_before, is_boundary, is_char_start, replace_all, replace_first,
};
use vstd::prelude::*;

verus! {

/// `std::array::from_fn`: an array whose element at each index is what `make`
/// returns for that index.
#[verifier::external_body]
pub(crate) fn array_from_fn<T, F: Fn(usize) -> T, const N: usize>(make: F) -> (made: [T; N])
    requires
        forall|i: usize| i < N ==> call_requires(make, (i,)),
    ensures
        forall|i: usize| i < N ==> call_ensures(make, (i,), #[trigger] made@[i as int]),
{
    std::array::from_fn(make)
}

/// `Vec::from` for an array: a vector with the elements of the array, in
/// their order.
#[verifier::external_body]
pub(crate) fn vec_from_array<T, const N: usize>(items: [T; N]) -> (v: Vec<T>)
    ensures
        v@ == items@,
{
    Vec::from(items)
}

/// `Vec::extend` with an array: appends the elements of the array, in their
/// order.
#[verifier::external_body]
pub(crate) fn vec_extend_from_array<T, const N: usize>(v: &mut Vec<T>, items: [T; N])
    ensures
        final(v)@ == old(v)@ + items@,
{
    v.extend(items)
}

/// `Vec::capacity`: the number of elements the vector can hold without
/// allocating again, which is never below its length. How much more it is
/// rests with the allocator.
#[verifier::external_body]
pub(crate) fn vec_capacity<T>(v: &Vec<T>) -> (capacity: usize)
    ensures
        capacity >= v@.len(),
{
    v.capacity()
}

/// `Vec::shrink_to_fit`: gives back capacity that is not needed. The elements
/// stay as they are.
#[verifier::external_body]
pub(crate) fn vec_shrink_to_fit<T>(v: &mut Vec<T>)
    ensures
        final(v)@ == old(v)@,
{
    v.shrink_to_fit()
}

/// `Vec::retain` with the test [`exceeds`]: keeps the elements above `bound`,
/// in their order, and drops the others.
#[verifier::external_body]
pub(crate) fn vec_retain_above(v: &mut Vec<i32>, bound: i32)
    ensures
        final(v)@ == old(v)@.filter(|x: i32| x > bound),
{
    v.retain(|x| exceeds(*x, bound))
}

/// `Vec::drain` with the range `first..=last`, collected: takes the elements
/// of the range out of the vector and returns them, in their order; the
/// elements before and behind the range close up.
#[verifier::external_body]
pub(crate) fn vec_drain<T>(v: &mut Vec<T>, first: usize, last: usize) -> (drained: Vec<T>)
    requires
        first <= last < old(v)@.len(),
    ensures
        drained@ == old(v)@.subrange(first as int, last + 1),
        final(v)@ == old(v)@.subrange(0, first as int) + old(v)@.subrange(
            last + 1,
            old(v)@.len() as int,
        ),
{
    v.drain(first..=last).collect()
}

/// `slice::sort_unstable` on integers: the same elements in ascending order.
#[verifier::external_body]
pub(crate) fn vec_sort_unstable(v: &mut Vec<i32>)
    ensures
        final(v)@.to_multiset() == old(v)@.to_multiset(),
        forall|i: int, j: int| 0 <= i <= j < final(v)@.len() ==> final(v)@[i] <= final(v)@[j],
{
    v.sort_unstable()
}

/// `slice::sort_unstable_by` with the order [`by_age_descending`]: the same
/// people, the older before the younger. Where two are of the same age the
/// order between them is open.
#[verifier::external_body]
pub(crate) fn vec_sort_unstable_by_age_descending(people: &mut Vec<Person>)
    ensures
        final(people)@.to_multiset() == old(people)@.to_multiset(),
        forall|i: int, j: int|
            0 <= i <= j < final(people)@.len() ==> final(people)@[i].age >= final(people)@[j].age,
{
    people.sort_unstable_by(|a, b| by_age_descending(a, b))
}

/// `String::push`: appends one character to the end of the string.
#[verifier::external_body]
pub(crate) fn string_push(s: &mut String, c: char)
    ensures
        final(s)@ == old(s)@.push(c),
{
    s.push(c)
}

/// `String::insert`: puts one character into the string at a byte offset,
/// which has to be a character boundary; what stood there moves back.
#[verifier::external_body]
pub(crate) fn string_insert(s: &mut String, at: usize, c: char)
    requires
        is_boundary(old(s)@, at as int),
    ensures
        final(s)@ == old(s)@.insert(chars_before(old(s)@, at as int), c),
{
    s.insert(at, c)
}

/// `String::insert_str`: puts a text into the string at a byte offset, which
/// has to be a character boundary; what stood there moves back.
#[verifier::external_body]
pub(crate) fn string_insert_str(s: &mut String, at: usize, piece: &str)
    requires
        is_boundary(old(s)@, at as int),
    ensures
        final(s)@ == old(s)@.take(chars_before(old(s)@, at as int)) + piece@ + old(s)@.skip(
            chars_before(old(s)@, at as int),
        ),
{
    s.insert_str(at, piece)
}

/// `str::replace` with a text as pattern: a new string in which every match
/// of the pattern is replaced. The text itself stays as it was.
#[verifier::external_body]
pub(crate) fn str_replace(s: &str, from: &str, to: &str) -> (replaced: String)
    requires
        from@.len() > 0,
    ensures
        replaced@ == replace_all(s@, from@, to@),
{
    s.replace(from, to)
}

/// `str::replacen` with a text as pattern: a new string in which the first
/// `count` matches of the pattern are replaced.
#[verifier::external_body]
pub(crate) fn str_replacen(s: &str, from: &str, to: &str, count: usize) -> (replaced: String)
    requires
        from@.len() > 0,
    ensures
        replaced@ == replace_first(s@, from@, to@, count as nat),
{
    s.replacen(from, to, count)
}

/// `String::replace_range` with a range of byte offsets `start..end`, both of
/// which have to be character boundaries: the characters in the range leave and
/// the given text takes their place.
#[verifier::external_body]
pub(crate) fn string_replace_range(s: &mut String, start: usize, end: usize, with: &str)
    requires
        start <= end,
        is_boundary(old(s)@, start as int),
        is_boundary(old(s)@, end as int),
    ensures
        final(s)@ == old(s)@.take(chars_before(old(s)@, start as int)) + with@ + old(s)@.skip(
            chars_before(old(s)@, end as int),
        ),
{
    s.replace_range(start..end, with)
}

/// `String::pop`: takes the last character off the string and returns it, or
/// returns `None` and leaves the string as it is when it is empty.
#[verifier::external_body]
pub(crate) fn string_pop(s: &mut String) -> (last: Option<char>)
    ensures
        old(s)@.len() == 0 ==> last is None && final(s)@ == old(s)@,
        old(s)@.len() > 0 ==> last == Some(old(s)@.last()) && final(s)@ == old(s)@.drop_last(),
{
    s.pop()
}

/// `String::remove`: takes the character that starts at a byte offset out of
/// the string and returns it.
#[verifier::external_body]
pub(crate) fn string_remove(s: &mut String, at: usize) -> (removed: char)
    requires
        is_char_start(old(s)@, at as int),
    ensures
        removed == old(s)@[chars_before(old(s)@, at as int)],
        final(s)@ == old(s)@.remove(chars_before(old(s)@, at as int)),
{
    s.remove(at)
}

/// `String::truncate`: shortens the string to a length in bytes, which has to
/// be a character boundary; a length that is not below the current one
/// changes nothing.
#[verifier::external_body]
pub(crate) fn string_truncate(s: &mut String, new_len: usize)
    requires
        new_len >= byte_len(old(s)@) || is_boundary(old(s)@, new_len as int),
    ensures
        new_len >= byte_len(old(s)@) ==> final(s)@ == old(s)@,
        new_len < byte_len(old(s)@) ==> final(s)@ == old(s)@.take(
            chars_before(old(s)@, new_len as int),
        ),
{
    s.truncate(new_len)
}

/// `String::clear`: removes all characters.
#[verifier::external_body]
pub(crate) fn string_clear(s: &mut String)
    ensures
        final(s)@ == Seq::<char>::empty(),
{
    s.clear()
}

/// `String::into_boxed_str`: the same text, owned through a box.
#[verifier::external_body]
pub(crate) fn string_into_boxed_str(s: String) -> (boxed: Box<str>)
    ensures
        boxed@ == s@,
{
    s.into_boxed_str()
}

/// `Box::leak`: gives the boxed text up for good and returns a reference to
/// it that is valid for the rest of the program.
#[verifier::external_body]
pub(crate) fn box_leak_str(boxed: Box<str>) -> (leaked: &'static str)
    ensures
        leaked@ == boxed@,
{
    Box::leak(boxed)
}

} // verus!
