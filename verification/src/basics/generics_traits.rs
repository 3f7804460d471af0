//! Generic functions, generic types, const generics, traits and trait objects.

use crate::text::{decimal, decimal_u8};
use std::ops::Add;
use vstd::prelude::*;
use vstd::std_specs::cmp::{PartialOrdIs, PartialOrdSpec};
use vstd::std_specs::convert::FromSpec;
use vstd::std_specs::ops::AddSpec;

verus! {

/// Size in bytes of the buffer that [`const_fn_run`] allocates.
pub const SIZE: usize = 4 * 1024;

/// A point whose two coordinates share one type.
pub struct Point<T> {
    pub x: T,
    pub y: T,
}

/// A point whose coordinates may differ in type.
#[allow(non_camel_case_types)]
pub struct Point_1<T, U> {
    pub x: T,
    pub y: U,
}

/// A point that can be added to another, coordinate by coordinate.
#[allow(non_camel_case_types)]
#[verifier::reject_recursive_types(T)]
pub struct Point_2<T: Add<T, Output = T>> {
    pub x: T,
    pub y: T,
}

/// A buffer whose length is part of its type.
pub struct Buffer<const N: usize> {
    pub data: [u8; N],
}

/// Two values of one type.
pub struct Pair<T> {
    pub x: T,
    pub y: T,
}

/// Which member of a [`Pair`] is the largest.
#[derive(Clone, Copy, PartialEq, Eq, Structural, Debug)]
pub enum Member {
    X,
    Y,
}

/// An article.
pub struct Post {
    pub title: String,
    pub author: String,
    pub content: String,
}

/// A short public message.
pub struct Weibo {
    pub username: String,
    pub content: String,
}

/// A button on a screen.
pub struct Button {
    pub width: u32,
    pub height: u32,
    pub label: String,
}

/// A box from which one option is chosen.
pub struct SelectBox {
    pub width: u32,
    pub height: u32,
    pub options: Vec<String>,
}

/// Something that can be told in one line.
pub trait Summary {
    /// The line, as a sequence of characters.
    spec fn summary(&self) -> Seq<char>;

    fn summarize(&self) -> (line: String)
        ensures
            line@ == self.summary(),
    ;
}

/// Something that can be drawn on a screen.
pub trait Draw {
    fn draw(&self);
}

/// Something that can describe itself together with its type.
#[allow(non_camel_case_types)]
pub trait Draw_1 {
    /// The description, as a sequence of characters.
    spec fn drawing(&self) -> Seq<char>;

    fn draw(&self) -> (line: String)
        ensures
            line@ == self.drawing(),
    ;
}

impl Summary for Post {
    open spec fn summary(&self) -> Seq<char> {
        "文章"@ + self.title@ + ", 作者是"@ + self.author@
    }

    fn summarize(&self) -> (line: String) {
        let mut line = String::from_str("文章");
        line.append(self.title.as_str());
        line.append(", 作者是");
        line.append(self.author.as_str());
        line
    }
}

impl Summary for Weibo {
    open spec fn summary(&self) -> Seq<char> {
        self.username@ + "发表了微博"@ + self.content@
    }

    fn summarize(&self) -> (line: String) {
        let mut line = self.username.clone();
        line.append("发表了微博");
        line.append(self.content.as_str());
        line
    }
}

impl Draw for Button {
    fn draw(&self) {
    }
}

impl Draw for SelectBox {
    fn draw(&self) {
    }
}

impl Draw_1 for u8 {
    open spec fn drawing(&self) -> Seq<char> {
        "u8: "@ + decimal(*self as nat)
    }

    fn draw(&self) -> (line: String) {
        let mut line = String::from_str("u8: ");
        let digits = decimal_u8(*self);
        line.append(digits.as_str());
        line
    }
}

impl<T, U> Point_1<T, U> {
    /// A point with the first coordinate of `self` and the second of `other`.
    pub fn mixup<V, W>(self, other: Point_1<V, W>) -> (mixed: Point_1<T, W>)
        ensures
            mixed.x == self.x,
            mixed.y == other.y,
    {
        Point_1 { x: self.x, y: other.y }
    }
}

impl<T> Pair<T> {
    pub fn new(x: T, y: T) -> (pair: Self)
        ensures
            pair.x == x,
            pair.y == y,
    {
        Self { x, y }
    }
}

impl<T: PartialOrd> Pair<T> {
    /// The largest member: `x` when it is at least `y`, else `y`. The method
    /// exists only for pairs of a type that can be compared.
    pub fn cmp_display(&self) -> (largest: Member)
        ensures
            T::obeys_partial_cmp_spec() ==> (largest == Member::X <==> self.x.is_ge(&self.y)),
            largest == Member::X || largest == Member::Y,
    {
        if self.x >= self.y {
            Member::X
        } else {
            Member::Y
        }
    }
}

impl<T: Add<T, Output = T>> Add for Point_2<T> {
    type Output = Point_2<T>;

    fn add(self, p: Point_2<T>) -> (sum: Point_2<T>) {
        Point_2 { x: self.x + p.x, y: self.y + p.y }
    }
}

impl<T: Add<T, Output = T>> vstd::std_specs::ops::AddSpecImpl for Point_2<T> {
    open spec fn obeys_add_spec() -> bool {
        T::obeys_add_spec()
    }

    open spec fn add_req(self, p: Point_2<T>) -> bool {
        self.x.add_req(p.x) && self.y.add_req(p.y)
    }

    open spec fn add_spec(self, p: Point_2<T>) -> Point_2<T> {
        Point_2 { x: self.x.add_spec(p.x), y: self.y.add_spec(p.y) }
    }
}

/// The sum of two values of any type that has `+`.
pub fn add<T: Add<Output = T>>(a: T, b: T) -> (sum: T)
    requires
        a.add_req(b),
    ensures
        T::obeys_add_spec() ==> sum == a.add_spec(b),
{
    a + b
}

/// The sum of two values, with the bound on `T` written out in full.
pub fn add1<T: Add<T, Output = T>>(a: T, b: T) -> (sum: T)
    requires
        a.add_req(b),
    ensures
        T::obeys_add_spec() ==> sum == a.add_spec(b),
{
    a + b
}

/// The value of type `T` that 100 converts into. The type cannot be inferred
/// from the arguments, so a caller names it.
pub fn create<T: From<i32>>() -> (a: T)
    ensures
        T::obeys_from_spec() ==> a == T::from_spec(100i32),
{
    T::from(100)
}

/// The number of bytes in `factor` kibibytes.
pub fn compute_buffer_size(factor: usize) -> (size: usize)
    requires
        factor * 1024 <= usize::MAX,
    ensures
        size == factor * 1024,
{
    factor * 1024
}

/// Allocates a buffer of [`SIZE`] bytes, the size of 4 kibibytes, and
/// returns its length.
pub fn const_fn_run() -> (len: usize)
    ensures
        len == 4096,
{
    let size = compute_buffer_size(4);
    assert(size == SIZE);
    let buffer = Buffer::<SIZE> { data: vstd::array::array_fill_for_copy_types::<u8, SIZE>(0) };
    buffer.data.len()
}

/// The lines that an article and a short message give of themselves.
pub fn trait_example() -> (lines: (String, String))
    ensures
        lines.0@ == "文章Rust语言简介, 作者是Sunface"@,
        lines.1@ == "sunface发表了微博好像微博没Tweet好用"@,
{
    let post = Post {
        title: String::from_str("Rust语言简介"),
        author: String::from_str("Sunface"),
        content: String::from_str("Rust棒极了!"),
    };
    let weibo = Weibo {
        username: String::from_str("sunface"),
        content: String::from_str("好像微博没Tweet好用"),
    };
    proof {
        reveal_strlit("文章");
        reveal_strlit("Rust语言简介");
        reveal_strlit(", 作者是");
        reveal_strlit("Sunface");
        reveal_strlit("文章Rust语言简介, 作者是Sunface");
        reveal_strlit("sunface");
        reveal_strlit("发表了微博");
        reveal_strlit("好像微博没Tweet好用");
        reveal_strlit("sunface发表了微博好像微博没Tweet好用");
        assert("文章"@ + "Rust语言简介"@ + ", 作者是"@ + "Sunface"@
            =~= "文章Rust语言简介, 作者是Sunface"@);
        assert("sunface"@ + "发表了微博"@ + "好像微博没Tweet好用"@
            =~= "sunface发表了微博好像微博没Tweet好用"@);
    }
    (post.summarize(), weibo.summarize())
}

/// The headline for anything that can be summarized.
pub fn notify(item: &impl Summary) -> (headline: String)
    ensures
        headline@ == "Breaking news! "@ + item.summary(),
{
    let mut headline = String::from_str("Breaking news! ");
    let line = item.summarize();
    headline.append(line.as_str());
    headline
}

/// A value of a type that the caller knows only as something that can be
/// summarized.
pub fn returns_summarizable() -> (item: impl Summary)
    ensures
        item.summary() == "sunface"@ + "发表了微博"@ + "m1 max太厉害了，电脑再也不会卡"@,
{
    Weibo {
        username: String::from_str("sunface"),
        content: String::from_str("m1 max太厉害了，电脑再也不会卡"),
    }
}

/// Draws a component that is owned through a box.
pub fn draw1(x: Box<dyn Draw>) {
    x.draw();
}

/// Draws a component that is borrowed.
pub fn draw2(x: &dyn Draw) {
    x.draw();
}

} // verus!
