//! `Box`: a value on the heap behind an owning pointer.

use crate::std_calls;
use vstd::prelude::*;

verus! {

/// What the tour of `Box` shows.
#[derive(Debug)]
pub struct Boxed {
    /// The integer that was boxed.
    pub a: i32,
    /// One more than the integer read back through the box.
    pub b: i32,
    /// Lengths of an array on the stack and of its copy.
    pub stack_len: usize,
    pub copied_len: usize,
    /// Length of an array on the heap, read after the box was moved.
    pub heap_len: usize,
    /// A text made at run time that lives as long as the program.
    pub leaked: &'static str,
}

/// Builds a string at run time and leaks it, which turns it into a
/// reference that never expires.
pub fn gen_static_str() -> (s: &'static str)
    ensures
        s@ == "hello, world"@,
{
    let mut s = String::new();
    s.append("hello, world");
    std_calls::box_leak_str(std_calls::string_into_boxed_str(s))
}

/// Boxes an integer and an array, moves the boxes, and leaks a string.
pub fn box_pointer_test() -> (seen: Boxed)
    ensures
        seen.a == 3,
        seen.b == 4,
        seen.stack_len == 1000,
        seen.copied_len == 1000,
        seen.heap_len == 1000,
        seen.leaked@ == "hello, world"@,
{
    let a: Box<i32> = Box::new(3);
    let b: i32 = *a + 1;

    // An array on the stack is copied when it is assigned: both stay usable.
    let arr: [i32; 1000] = [0; 1000];
    let arr1: [i32; 1000] = arr;
    let stack_len = arr.len();
    let copied_len = arr1.len();

    // An array on the heap is moved with its box: only the pointer is copied,
    // and only the new owner is usable.
    let arr: Box<[i32; 1000]> = Box::new([0; 1000]);
    let arr1: Box<[i32; 1000]> = arr;
    let heap_len = arr1.len();

    let leaked = gen_static_str();
    Boxed { a: *a, b, stack_len, copied_len, heap_len, leaked }
}

} // verus!
