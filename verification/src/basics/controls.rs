//! Loops and branches.

use vstd::prelude::*;

verus! {

/// Which of 4, 3 and 2 divides a number, taking the first that does.
#[derive(Clone, Copy, PartialEq, Eq, Structural, Debug)]
pub enum Divisibility {
    ByFour,
    ByThree,
    ByTwo,
    Indivisible,
}

/// What the branches decide.
#[derive(Debug)]
pub struct Branches {
    /// The value of an `if` used as an expression.
    pub number: i32,
    /// The branch that a chain of `else if` takes for 6.
    pub verdict: Divisibility,
}

/// What each loop visits, in the order of the visits.
#[derive(Debug)]
pub struct Loops {
    /// A `for` over the numbers from 1 to 5.
    pub counted: Vec<i32>,
    /// A `for` over an array that pairs each element with its position, counted from 1.
    pub indexed: Vec<(usize, i32)>,
    /// A loop over 1, 2, 3 that skips 2 with `continue`.
    pub skipping: Vec<i32>,
    /// A `for` over 1, 2, 3 that leaves at 2 with `break`.
    pub stopping: Vec<i32>,
    /// A `while` that runs as long as its counter is at most 5.
    pub repeated: Vec<i32>,
    /// Twice the count at which a `loop` is left through `break`.
    pub doubled: i32,
}

/// The first of 4, 3 and 2 that divides `n`.
pub open spec fn first_divisor(n: int) -> Divisibility {
    if n % 4 == 0 {
        Divisibility::ByFour
    } else if n % 3 == 0 {
        Divisibility::ByThree
    } else if n % 2 == 0 {
        Divisibility::ByTwo
    } else {
        Divisibility::Indivisible
    }
}

/// Tests 4, then 3, then 2, and stops at the first that divides `n`.
pub fn divisibility(n: i32) -> (verdict: Divisibility)
    ensures
        verdict == first_divisor(n as int),
{
    if n % 4 == 0 {
        Divisibility::ByFour
    } else if n % 3 == 0 {
        Divisibility::ByThree
    } else if n % 2 == 0 {
        Divisibility::ByTwo
    } else {
        Divisibility::Indivisible
    }
}

/// An `if` is an expression, and a chain of `else if` takes the first branch
/// whose condition holds: 6 is divisible by 3 and by 2, and the chain says 3.
pub fn condition_control_run() -> (decided: Branches)
    ensures
        decided.number == 5,
        decided.verdict == Divisibility::ByThree,
{
    let condition = true;
    let number: i32 = if condition {
        5
    } else {
        6
    };
    let n: i32 = 6;
    Branches { number, verdict: divisibility(n) }
}

/// Runs each kind of loop once.
pub fn loop_control_run() -> (visited: Loops)
    ensures
        visited.counted@ == seq![1i32, 2, 3, 4, 5],
        visited.indexed@ == seq![(1usize, 4i32), (2usize, 3i32), (3usize, 2i32), (4usize, 1i32)],
        visited.skipping@ == seq![1i32, 3],
        visited.stopping@ == seq![1i32],
        visited.repeated@ == seq![0i32, 1, 2, 3, 4, 5],
        visited.doubled == 20,
{
    let mut counted: Vec<i32> = Vec::new();
    for i in 1..6i32
        invariant
            counted@ == Seq::new((i - 1) as nat, |k: int| (k + 1) as i32),
    {
        counted.push(i);
    }

    let a: [i32; 4] = [4, 3, 2, 1];
    let mut indexed: Vec<(usize, i32)> = Vec::new();
    for i in 0..4usize
        invariant
            a@ == seq![4i32, 3, 2, 1],
            indexed@ == Seq::new(i as nat, |k: int| ((k + 1) as usize, a@[k])),
    {
        indexed.push((i + 1, a[i]));
    }

    // Indexing pays for a bounds test on every access unless the bound is
    // known, as it is here; walking the collection itself never does.
    let collection: [i32; 5] = [1, 2, 3, 4, 5];
    for i in 0..5usize {
        let item: i32 = collection[i];
    }

    let mut skipping: Vec<i32> = Vec::new();
    let mut i: i32 = 0;
    while i < 3
        invariant
            0 <= i <= 3,
            skipping@ == if i < 2 {
                Seq::new(i as nat, |k: int| (k + 1) as i32)
            } else {
                seq![1i32] + Seq::new((i - 2) as nat, |k: int| (k + 3) as i32)
            },
        decreases 3 - i,
    {
        i += 1;
        if i == 2 {
            continue;
        }
        skipping.push(i);
    }

    let mut stopping: Vec<i32> = Vec::new();
    for i in 1..4i32
        invariant_except_break
            i <= 2,
            stopping@ == Seq::new((i - 1) as nat, |k: int| (k + 1) as i32),
        ensures
            stopping@ == seq![1i32],
    {
        if i == 2 {
            break;
        }
        stopping.push(i);
    }

    let mut repeated: Vec<i32> = Vec::new();
    let mut n: i32 = 0;
    while n <= 5
        invariant
            0 <= n <= 6,
            repeated@ == Seq::new(n as nat, |k: int| k as i32),
        decreases 6 - n,
    {
        repeated.push(n);
        n = n + 1;
    }

    let mut counter: i32 = 0;
    let mut doubled: i32 = 0;
    loop
        invariant_except_break
            0 <= counter < 10,
        ensures
            doubled == 20,
        decreases 10 - counter,
    {
        counter += 1;
        if counter == 10 {
            doubled = counter * 2;
            break;
        }
    }

    Loops { counted, indexed, skipping, stopping, repeated, doubled }
}

} // verus!
