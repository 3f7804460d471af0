//! Bindings, destructuring, constants, shadowing, ownership and borrowing.

use crate::text::{byte_len, lemma_ascii_byte_len};
use vstd::prelude::*;
use vstd::utf8::is_ascii_chars;

verus! {

/// An upper bound that is fixed when the program is compiled.
pub const MAX_POINTS: u32 = 100_000;

/// What shadowing leaves in the inner and in the outer scope.
#[derive(Debug)]
pub struct Shadowed {
    pub inner: i32,
    pub outer: i32,
}

/// The values that the tour of ownership and borrowing shows.
#[derive(Debug)]
pub struct Ownership {
    /// A string literal and a copy of the reference to it.
    pub literal: &'static str,
    pub literal_again: &'static str,
    /// An owned string and its deep copy.
    pub owned: String,
    pub cloned: String,
    /// The string that is moved into a function, and the integer that is copied into one.
    pub moved: String,
    pub copied: i32,
    /// The string that a function gave, took and gave back.
    pub returned: String,
    /// A string measured through a shared reference, and its length in bytes.
    pub measured: String,
    pub length: usize,
    /// A string extended through a mutable reference.
    pub changed: String,
}

struct Wrapped {
    e: i32,
}

/// The sum of two 32-bit integers.
fn add(i: i32, j: i32) -> (sum: i32)
    requires
        i32::MIN <= i + j <= i32::MAX,
    ensures
        sum == i + j,
{
    i + j
}

/// Binds four integers in the four ways a binding can be written, and adds
/// them pairwise: `(10 + 20) + (30 + 30)`.
pub fn ex1_variable_run() -> (e: i32)
    ensures
        e == 90,
{
    let a: i32 = 10;
    let b: i32 = 20;
    let mut c: i32 = 30i32;
    let d: i32 = 30_i32;
    self::add(self::add(a, b), self::add(c, d))
}

/// Takes a tuple, an array and a struct apart: the two halves of the tuple,
/// the first element of the array and its last but one, and the field of the
/// struct.
pub fn ex3_unpack_run() {
    let (a, b): (i32, i32) = (1, 2);
    let numbers: [i32; 5] = [1, 2, 3, 4, 5];
    let c: i32 = numbers[0];
    let d: i32 = numbers[numbers.len() - 2];
    let Wrapped { e, .. } = Wrapped { e: 5 };
    assert(a == 1 && b == 2 && c == 1 && d == 4 && e == 5);
}

/// A constant needs a type and a value that is known at compile time.
pub fn ex4_const_run() {
    let limit: u32 = MAX_POINTS;
    assert(limit == 100_000);
}

/// A binding shadows an earlier one of the same name; after an inner scope
/// the outer binding is visible again.
pub fn ex5_variable_shadowing_run() -> (seen: Shadowed)
    ensures
        seen.inner == 12,
        seen.outer == 6,
{
    let x: i32 = 5;
    let x: i32 = x + 1;
    let inner: i32 = {
        let x: i32 = x * 2;
        x
    };
    Shadowed { inner, outer: x }
}

/// Returns a string that it made: ownership moves to the caller.
pub fn gives_ownership() -> (some_string: String)
    ensures
        some_string@ == "hello"@,
{
    String::from_str("hello")
}

/// Takes a string and returns the same string.
pub fn takes_and_gives_back(a_string: String) -> (back: String)
    ensures
        back == a_string,
{
    a_string
}

/// The length of a string in bytes, read through a shared reference.
pub fn calculate_length(s: &String) -> (length: usize)
    ensures
        length == byte_len(s@),
{
    s.as_str().as_bytes().len()
}

/// Appends `", world"` through a mutable reference.
pub fn change(some_string: &mut String)
    ensures
        final(some_string)@ == old(some_string)@ + ", world"@,
{
    some_string.append(", world");
}

/// Walks through copying, moving, cloning and borrowing.
pub fn ownership_borrow() -> (shown: Ownership)
    ensures
        shown.literal@ == "hello, world"@,
        shown.literal_again@ == "hello, world"@,
        shown.owned@ == "hello"@,
        shown.cloned@ == "hello"@,
        shown.moved@ == "hello"@,
        shown.copied == 5,
        shown.returned@ == "hello"@,
        shown.measured@ == "hello"@,
        shown.length == 5,
        shown.changed@ == "hello, world"@,
{
    // An integer is copied: both bindings stay usable.
    let x: i32 = 5;
    let y: i32 = x;
    assert(x == y);

    // A `String` is moved: only the new binding is usable.
    let s1 = String::from_str("hello");
    let s2 = s1;

    // A reference to a literal is copied, the text is shared.
    let literal: &'static str = "hello, world";
    let literal_again: &'static str = literal;

    let owned = String::from_str("hello");
    let cloned = owned.clone();

    let moved = String::from_str("hello");
    let copied: i32 = 5;

    let s1 = gives_ownership();
    let s2 = String::from_str("hello");
    let returned = takes_and_gives_back(s2);

    // Reading through a reference needs an explicit dereference.
    let x: i32 = 5;
    let y: &i32 = &x;
    assert(x == 5 && *y == 5);

    let measured = String::from_str("hello");
    let length = calculate_length(&measured);

    let mut changed = String::from_str("hello");
    change(&mut changed);

    proof {
        reveal_strlit("hello");
        reveal_strlit(", world");
        reveal_strlit("hello, world");
        assert(is_ascii_chars("hello"@));
        lemma_ascii_byte_len("hello"@);
        assert("hello"@ + ", world"@ =~= "hello, world"@);
    }
    Ownership {
        literal,
        literal_again,
        owned,
        cloned,
        moved,
        copied,
        returned,
        measured,
        length,
        changed,
    }
}

} // verus!
