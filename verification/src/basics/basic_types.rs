//! Characters, booleans, the unit type, statements and expressions.

use vstd::prelude::*;

verus! {

/// A `char` is written in single quotes and holds any Unicode scalar value,
/// not only ASCII.
pub fn char_type() {
    let c = 'z';
    let z = 'ℤ';
    let g = '国';
    let heart_eyed_cat = '😻';
    assert(c as u32 == 0x7A);
    assert(z as u32 == 0x2124);
    assert(g as u32 == 0x56FD);
    assert(heart_eyed_cat as u32 == 0x1F63B);
}

/// A `bool` is bound with or without a type annotation.
pub fn bool_type() {
    let t = true;
    let f: bool = false;
    assert(t && !f);
}

/// The unit type `()` is what a function returns when it returns nothing.
pub fn unit_type() {
}

/// A block ends in an expression, and that expression is its value: the two
/// shadowing statements give 2 and 6, and the final expression adds them.
pub fn statements_expressions_type() -> (sum: i32)
    ensures
        sum == 8,
{
    let x: i32 = 1;
    let y: i32 = 1;
    let x: i32 = x + 1;
    let y: i32 = y + 5;
    x + y
}

/// Functions are named in snake case, may stand anywhere in a file, annotate
/// every parameter, and return `()` when they end in a statement.
pub fn functions_type() {
}

} // verus!
