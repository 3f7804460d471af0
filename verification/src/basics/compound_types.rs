//! Strings and slices, structs, enums and arrays.

use crate::std_calls;
use crate::text::{
    lemma_ascii_byte_len, lemma_ascii_offset, lemma_boundary_at, lemma_offset_step, lemma_offsets_increase,
    lemma_replace_all_copies, lemma_replace_first_copies, occurs_at, replace_all,
    replace_all_from, replace_first, replace_first_from,
};
use vstd::prelude::*;
use vstd::utf8::is_ascii_chars;

verus! {

/// What the tour of strings shows.
#[derive(Debug)]
pub struct Strings {
    /// A text that is handed on as a slice in three ways.
    pub greeting: String,
    /// After `push_str`, and after `push`.
    pub pushed_str: String,
    pub pushed: String,
    /// After `insert`, and after `insert_str`.
    pub inserted: String,
    pub inserted_str: String,
    /// After `replace`, after `replacen` with a count of 1, and after `replace_range`.
    pub replaced: String,
    pub replaced_once: String,
    pub replaced_range: String,
    /// The two characters that `pop` takes off, and what is left.
    pub popped: (Option<char>, Option<char>),
    pub after_pop: String,
    /// The size of a text in bytes, and the text after `remove`.
    pub size: usize,
    pub after_remove: String,
    /// After `truncate`, and after `clear`.
    pub truncated: String,
    pub cleared: String,
    /// Three texts joined with `+` and `+=`.
    pub joined: String,
    /// A text of three Chinese characters, by character and by byte.
    pub chars: Vec<char>,
    pub bytes: Vec<u8>,
}

/// An account.
#[derive(Debug)]
pub struct User {
    pub active: bool,
    pub username: String,
    pub email: String,
    pub sign_in_count: u64,
}

/// A colour by its three components: a struct whose fields have no names.
#[derive(Debug)]
pub struct Color(pub i32, pub i32, pub i32);

/// A point in space, with the same three fields as a colour and yet another type.
#[derive(Debug)]
pub struct Point(pub i32, pub i32, pub i32);

/// A struct without fields, for a type that only matters by its behaviour.
#[derive(Debug)]
pub struct AlwaysEqual;

/// A rectangle that can be printed for debugging.
#[derive(Debug)]
pub struct Rectangle {
    pub width: u32,
    pub height: u32,
}

/// What the tour of structs shows.
#[derive(Debug)]
pub struct Structs {
    /// An account made from another with the update syntax.
    pub updated: User,
    pub black: Color,
    pub origin: Point,
    pub subject: AlwaysEqual,
    /// A rectangle, a width computed while a second one is built, and that second one.
    pub first: Rectangle,
    pub scaled_width: u32,
    pub second: Rectangle,
}

/// The four suits of a deck of cards.
#[derive(Clone, Copy, PartialEq, Eq, Structural, Debug)]
pub enum PokerSuit {
    Clubs,
    Spades,
    Diamonds,
    Hearts,
}

/// A card: its suit, with its rank as the value inside the variant.
#[derive(Clone, Copy, PartialEq, Eq, Structural, Debug)]
pub enum PokerCard {
    Clubs(u8),
    Spades(u8),
    Diamonds(u8),
    Hearts(u8),
}

/// A card whose rank is a number in two suits and a letter in the other two:
/// the variants of one enum may hold values of different types.
#[derive(Clone, Copy, PartialEq, Eq, Structural, Debug)]
pub enum PokerCard1 {
    Clubs(u8),
    Spades(u8),
    Diamonds(char),
    Hearts(char),
}

/// A message whose variants hold nothing, named fields, a string, or three numbers.
#[derive(Debug)]
pub enum Message {
    Quit,
    Move { x: i32, y: i32 },
    Write(String),
    ChangeColor(i32, i32, i32),
}

/// Where `from` occurs in a text of 42 characters that holds it at 7 and at
/// 22, and its first character at 16 and at 37 besides.
spec fn holds_pattern_twice(text: Seq<char>, from: Seq<char>) -> bool {
    &&& text.len() == 42
    &&& from.len() == 4
    &&& occurs_at(text, from, 7)
    &&& occurs_at(text, from, 22)
    &&& !occurs_at(text, from, 16)
    &&& !occurs_at(text, from, 37)
    &&& forall|k: int|
        0 <= k < 42 && k != 7 && k != 16 && k != 22 && k != 37 ==> #[trigger] text[k] != from[0]
}

/// Replacing a pattern everywhere in a text that holds it as
/// [`holds_pattern_twice`] says: the text is copied up to each occurrence, and
/// each occurrence gives way to the replacement.
proof fn lemma_replaced_twice(text: Seq<char>, from: Seq<char>, to: Seq<char>)
    requires
        holds_pattern_twice(text, from),
    ensures
        replace_all(text, from, to) == text.subrange(0, 7) + (to + (text.subrange(11, 16) + (
        seq![text[16]] + (text.subrange(17, 22) + (to + (text.subrange(26, 37) + (seq![text[37]]
            + (text.subrange(38, 42) + Seq::<char>::empty())))))))),
{
    lemma_replace_all_copies(text, from, to, 38, 42);
    lemma_replace_all_copies(text, from, to, 26, 37);
    lemma_replace_all_copies(text, from, to, 17, 22);
    lemma_replace_all_copies(text, from, to, 11, 16);
    lemma_replace_all_copies(text, from, to, 0, 7);
    assert(replace_all_from(text, from, to, 42) == Seq::<char>::empty());
    assert(replace_all_from(text, from, to, 37) == seq![text[37]] + replace_all_from(
        text,
        from,
        to,
        38,
    ));
    assert(replace_all_from(text, from, to, 22) == to + replace_all_from(text, from, to, 26));
    assert(replace_all_from(text, from, to, 16) == seq![text[16]] + replace_all_from(
        text,
        from,
        to,
        17,
    ));
    assert(replace_all_from(text, from, to, 7) == to + replace_all_from(text, from, to, 11));
}

/// Replacing a pattern once in a text that holds it as
/// [`holds_pattern_twice`] says: only the first occurrence gives way.
proof fn lemma_replaced_once(text: Seq<char>, from: Seq<char>, to: Seq<char>)
    requires
        holds_pattern_twice(text, from),
    ensures
        replace_first(text, from, to, 1) == text.subrange(0, 7) + (to + text.skip(11)),
{
    lemma_replace_first_copies(text, from, to, 1, 0, 7);
    assert(replace_first_from(text, from, to, 0, 11) == text.skip(11));
    assert(replace_first_from(text, from, to, 1, 7) == to + replace_first_from(
        text,
        from,
        to,
        0,
        11,
    ));
}

/// The sentence of the tour holds `rust` twice, and the letter `r` twice more.
proof fn lemma_sentence_holds_rust_twice()
    ensures
        holds_pattern_twice("I like rust. Learning rust is my favorite!"@, "rust"@),
{
    reveal_strlit("I like rust. Learning rust is my favorite!");
    reveal_strlit("rust");
    let text = "I like rust. Learning rust is my favorite!"@;
    let from = "rust"@;
    assert(!occurs_at(text, from, 16)) by {
        assert(text[16 + 1int] != from[1]);
    }
    assert(!occurs_at(text, from, 37)) by {
        assert(text[37 + 1int] != from[1]);
    }
}

/// Replacing `rust` by `RUST` in the sentence of the tour: everywhere, and
/// at the first place only.
proof fn lemma_rust_in_capitals()
    ensures
        replace_all("I like rust. Learning rust is my favorite!"@, "rust"@, "RUST"@)
            == "I like RUST. Learning RUST is my favorite!"@,
        replace_first("I like rust. Learning rust is my favorite!"@, "rust"@, "RUST"@, 1)
            == "I like RUST. Learning rust is my favorite!"@,
{
    let text = "I like rust. Learning rust is my favorite!"@;
    let from = "rust"@;
    let to = "RUST"@;
    lemma_sentence_holds_rust_twice();
    lemma_replaced_twice(text, from, to);
    lemma_replaced_once(text, from, to);
    assert(text.subrange(0, 7) + (to + (text.subrange(11, 16) + (seq![text[16]] + (text.subrange(
        17,
        22,
    ) + (to + (text.subrange(26, 37) + (seq![text[37]] + (text.subrange(38, 42) + Seq::<
        char,
    >::empty())))))))) =~= "I like RUST. Learning RUST is my favorite!"@) by {
        reveal_strlit("I like rust. Learning rust is my favorite!");
        reveal_strlit("I like RUST. Learning RUST is my favorite!");
        reveal_strlit("RUST");
    }
    assert(text.subrange(0, 7) + (to + text.skip(11))
        =~= "I like RUST. Learning rust is my favorite!"@) by {
        reveal_strlit("I like rust. Learning rust is my favorite!");
        reveal_strlit("I like RUST. Learning rust is my favorite!");
        reveal_strlit("RUST");
    }
}

/// Slices a string, then changes strings in every way the standard library
/// offers. Offsets into a string count bytes, not characters.
pub fn string_slice_type() -> (shown: Strings)
    ensures
        shown.greeting@ == "hello,world!"@,
        shown.pushed_str@ == "Hello rust"@,
        shown.pushed@ == "Hello rust!"@,
        shown.inserted@ == "Hello, rust!"@,
        shown.inserted_str@ == "Hello, I like rust!"@,
        shown.replaced@ == "I like RUST. Learning RUST is my favorite!"@,
        shown.replaced_once@ == "I like RUST. Learning rust is my favorite!"@,
        shown.replaced_range@ == "I like Rust!"@,
        shown.popped == (Some('!'), Some('文')),
        shown.after_pop@ == "rust pop 中"@,
        shown.size == 18,
        shown.after_remove@ == "试remove方法"@,
        shown.truncated@ == "测"@,
        shown.cleared@ == ""@,
        shown.joined@ == "hello rust!!!!"@,
        shown.chars@ == seq!['中', '国', '人'],
        shown.bytes@ == seq![228u8, 184, 173, 229, 155, 189, 228, 186, 186],
{
    proof {
        reveal_strlit("hello world");
        reveal_strlit("hello");
        reveal_strlit("world");
        reveal_strlit("he");
        reveal_strlit("o");
    }
    // A slice borrows a part of a string; the range gives byte offsets.
    let s = String::from_str("hello world");
    assert(is_ascii_chars(s@));
    let hello = s.as_str().substring_ascii(0, 5);
    let world = s.as_str().substring_ascii(6, 11);
    assert(hello@ =~= "hello"@ && world@ =~= "world"@);

    let s = String::from_str("hello");
    assert(is_ascii_chars(s@));
    let slice = s.as_str().substring_ascii(0, 2);
    assert(slice@ =~= "he"@);

    // To reach the last byte, the range ends at the length in bytes.
    let len = s.as_str().as_bytes().len();
    proof {
        lemma_ascii_byte_len(s@);
    }
    let slice = s.as_str().substring_ascii(4, len);
    assert(slice@ =~= "o"@);

    // The whole string is a slice too.
    let slice = s.as_str().substring_ascii(0, len);
    assert(slice@ =~= s@);

    // Arrays have slices as well.
    let a: [i32; 5] = [1, 2, 3, 4, 5];
    let slice: &[i32] = &a[1..3];
    assert(slice@ =~= seq![2i32, 3]);

    // A `String` is handed to a function that wants a `&str` as it is.
    let greeting = String::from_str("hello,world!");

    proof {
        reveal_strlit("Hello ");
        reveal_strlit("rust");
        reveal_strlit("Hello rust");
        reveal_strlit("Hello rust!");
        reveal_strlit("Hello, rust!");
        reveal_strlit(" I like");
        reveal_strlit("Hello, I like rust!");
    }
    let mut s = String::from_str("Hello ");
    s.append("rust");
    assert(s@ =~= "Hello rust"@);
    let pushed_str = s.clone();
    std_calls::string_push(&mut s, '!');
    assert(s@ =~= "Hello rust!"@);
    let pushed = s;

    let mut s = String::from_str("Hello rust!");
    proof {
        assert(is_ascii_chars(s@));
        lemma_ascii_offset(s@, 5);
    }
    std_calls::string_insert(&mut s, 5, ',');
    assert(s@ =~= "Hello, rust!"@);
    let inserted = s.clone();
    proof {
        assert(is_ascii_chars(s@));
        lemma_ascii_offset(s@, 6);
    }
    std_calls::string_insert_str(&mut s, 6, " I like");
    assert(s@ =~= "Hello, I like rust!"@);
    let inserted_str = s;

    // `replace` and `replacen` return a new string and leave the old one.
    let string_replace = String::from_str("I like rust. Learning rust is my favorite!");
    proof {
        reveal_strlit("rust");
        lemma_rust_in_capitals();
    }
    let replaced = std_calls::str_replace(string_replace.as_str(), "rust", "RUST");
    let replaced_once = std_calls::str_replacen(string_replace.as_str(), "rust", "RUST", 1);

    proof {
        reveal_strlit("I like rust!");
        reveal_strlit("R");
        reveal_strlit("I like Rust!");
    }
    let mut string_replace_range = String::from_str("I like rust!");
    proof {
        assert(is_ascii_chars(string_replace_range@));
        lemma_ascii_offset(string_replace_range@, 7);
        lemma_ascii_offset(string_replace_range@, 8);
    }
    std_calls::string_replace_range(&mut string_replace_range, 7, 8, "R");
    assert(string_replace_range@ =~= "I like Rust!"@);
    let replaced_range = string_replace_range;

    proof {
        reveal_strlit("rust pop 中文!");
        reveal_strlit("rust pop 中");
    }
    let mut string_pop = String::from_str("rust pop 中文!");
    let last = std_calls::string_pop(&mut string_pop);
    let last_but_one = std_calls::string_pop(&mut string_pop);
    assert(string_pop@ =~= "rust pop 中"@);
    let after_pop = string_pop;

    // Offsets count bytes: each of these Chinese characters takes three.
    proof {
        reveal_strlit("测试remove方法");
        reveal_strlit("试remove方法");
    }
    let mut string_remove = String::from_str("测试remove方法");
    let size = string_remove.as_str().as_bytes().len();
    proof {
        let text = string_remove@;
        assert(text.take(0) =~= Seq::<char>::empty());
        lemma_offset_step(text, 0);
        lemma_offset_step(text, 1);
        lemma_offset_step(text, 2);
        lemma_offset_step(text, 3);
        lemma_offset_step(text, 4);
        lemma_offset_step(text, 5);
        lemma_offset_step(text, 6);
        lemma_offset_step(text, 7);
        lemma_offset_step(text, 8);
        lemma_offset_step(text, 9);
        assert(text.take(10) =~= text);
        lemma_boundary_at(text, 0);
    }
    let first = std_calls::string_remove(&mut string_remove, 0);
    assert(first == '测');
    assert(string_remove@ =~= "试remove方法"@);
    let after_remove = string_remove;

    proof {
        reveal_strlit("测试truncate");
        reveal_strlit("测");
    }
    let mut string_truncate = String::from_str("测试truncate");
    proof {
        let text = string_truncate@;
        assert(text.take(0) =~= Seq::<char>::empty());
        lemma_offset_step(text, 0);
        lemma_boundary_at(text, 1);
        lemma_offsets_increase(text, 1, 10);
        assert(text.take(10) =~= text);
    }
    std_calls::string_truncate(&mut string_truncate, 3);
    assert(string_truncate@ =~= "测"@);
    let truncated = string_truncate;

    proof {
        reveal_strlit("");
    }
    let mut string_clear = String::from_str("string clear");
    std_calls::string_clear(&mut string_clear);
    assert(string_clear@ =~= ""@);
    let cleared = string_clear;

    // `+` takes the left string by value and the right one as a slice.
    proof {
        reveal_strlit("hello ");
        reveal_strlit("!");
        reveal_strlit("!!!");
        reveal_strlit("hello rust!!!!");
    }
    let string_append = String::from_str("hello ");
    let string_rust = String::from_str("rust");
    let result = string_append.concat(string_rust.as_str());
    let mut result = result.concat("!");
    result.append("!!!");
    assert(result@ =~= "hello rust!!!!"@);
    let joined = result;

    // A string is walked by character, or by byte of its UTF-8 form.
    let text = "中国人";
    let mut chars: Vec<char> = Vec::new();
    for c in it: text.chars()
        invariant
            it.seq() == text@,
            chars@ == it.seq().take(it.index()),
    {
        chars.push(c);
    }
    let bytes = text.as_bytes_vec();
    proof {
        lemma_three_characters_in_bytes();
        reveal_strlit("中国人");
        assert(chars@ =~= text@);
    }

    Strings {
        greeting,
        pushed_str,
        pushed,
        inserted,
        inserted_str,
        replaced,
        replaced_once,
        replaced_range,
        popped: (last, last_but_one),
        after_pop,
        size,
        after_remove,
        truncated,
        cleared,
        joined,
        chars,
        bytes,
    }
}

/// An account that is active and has signed in once. A parameter named like
/// a field fills that field without being written twice.
pub fn build_user(email: String, username: String) -> (user: User)
    ensures
        user.email == email,
        user.username == username,
        user.active,
        user.sign_in_count == 1,
{
    User { email, username, active: true, sign_in_count: 1 }
}

/// Builds structs of each kind: with named fields, with unnamed fields, and
/// without fields.
pub fn struct_type() -> (shown: Structs)
    ensures
        shown.updated.active,
        shown.updated.username@ == "someusername123"@,
        shown.updated.email@ == "another@example.com"@,
        shown.updated.sign_in_count == 1,
        shown.black.0 == 0 && shown.black.1 == 0 && shown.black.2 == 0,
        shown.origin.0 == 0 && shown.origin.1 == 0 && shown.origin.2 == 0,
        shown.first.width == 30 && shown.first.height == 50,
        shown.scaled_width == 60,
        shown.second.width == 60 && shown.second.height == 50,
{
    let user1 = User {
        email: String::from_str("someone@example.com"),
        username: String::from_str("someusername123"),
        active: true,
        sign_in_count: 1,
    };

    // A field can be assigned only when the whole value is mutable.
    let mut user2 = build_user(
        String::from_str("someone@example.com"),
        String::from_str("someusername123"),
    );
    user2.email = String::from_str("anotheremail@example.com");

    // Fields that are not written out come from `user1`, which gives its
    // `username` away and cannot be used as a whole afterwards.
    let user2 = User { email: String::from_str("another@example.com"), ..user1 };

    let black = Color(0, 0, 0);
    let origin = Point(0, 0, 0);
    let subject = AlwaysEqual;

    let rect1 = Rectangle { width: 30, height: 50 };
    let scale: u32 = 2;
    let scaled_width: u32 = 30 * scale;
    let rect2 = Rectangle { width: scaled_width, height: 50 };

    Structs { updated: user2, black, origin, subject, first: rect1, scaled_width, second: rect2 }
}

/// One more than the number inside, and `None` for `None`.
pub fn plus_one(x: Option<i32>) -> (next: Option<i32>)
    requires
        x matches Some(i) ==> i < i32::MAX,
    ensures
        next == match x {
            None => None::<i32>,
            Some(i) => Some((i + 1) as i32),
        },
{
    match x {
        None => None,
        Some(i) => Some(i + 1),
    }
}

/// Makes values of enums whose variants hold nothing, one value, or
/// different values, and takes an `Option` apart with `match`.
pub fn enum_type() {
    let heart = PokerSuit::Hearts;
    let diamond = PokerSuit::Diamonds;
    assert(heart != diamond);

    let c1 = PokerCard::Spades(5);
    let c2 = PokerCard::Diamonds(13);
    assert(c1 matches PokerCard::Spades(rank) && rank == 5);
    assert(c2 matches PokerCard::Diamonds(rank) && rank == 13);

    let five = Some(5);
    let six = plus_one(five);
    let none = plus_one(None);
    assert(six == Some(6i32));
    assert(none is None);
}

/// The text that fills every element of the array of strings in
/// [`array_type`], whatever the index.
pub fn praise(_index: usize) -> (text: String)
    ensures
        text@ == "rust is good!"@,
{
    String::from_str("rust is good!")
}

/// Makes arrays, reads elements by index, and borrows a slice. The length of
/// an array is part of its type, and every index is known to be in range.
pub fn array_type() {
    let a = [1, 2, 3, 4, 5];
    let a: [i32; 5] = [1, 2, 3, 4, 5];
    // One value, repeated.
    let a: [i32; 5] = [3; 5];
    assert(forall|i: int| 0 <= i < 5 ==> a@[i] == 3);

    let a: [i32; 5] = [9, 8, 7, 6, 5];
    let first = a[0];
    let second = a[1];
    assert(first == 9 && second == 8);

    // A value that cannot be copied is made anew for each element.
    let array: [String; 8] = std_calls::array_from_fn(praise);
    assert(forall|i: int| 0 <= i < 8 ==> (#[trigger] array@[i])@ == "rust is good!"@) by {
        assert forall|i: int| 0 <= i < 8 implies (#[trigger] array@[i])@ == "rust is good!"@ by {
            let index = i as usize;
            assert(array@[index as int]@ == "rust is good!"@);
        }
    }

    let a: [i32; 5] = [1, 2, 3, 4, 5];
    let slice: &[i32] = &a[1..3];
    assert(slice@ =~= seq![2i32, 3]);
}

/// The bytes of the three characters that [`string_slice_type`] walks.
proof fn lemma_three_characters_in_bytes()
    ensures
        vstd::utf8::encode_utf8("中国人"@) == seq![228u8, 184, 173, 229, 155, 189, 228, 186, 186],
{
    reveal_strlit("中国人");
    let chars = "中国人"@;
    assert(chars.drop_first() =~= seq!['国', '人']);
    assert(chars.drop_first().drop_first() =~= seq!['人']);
    assert(chars.drop_first().drop_first().drop_first() =~= Seq::<char>::empty());
    reveal_with_fuel(vstd::utf8::encode_utf8, 4);
    assert(0xE0u8 | ((0x4E2Du32 >> 12) & 0x0F) as u8 == 228u8) by (bit_vector);
    assert(0x80u8 | ((0x4E2Du32 >> 6) & 0x3F) as u8 == 184u8) by (bit_vector);
    assert(0x80u8 | (0x4E2Du32 & 0x3F) as u8 == 173u8) by (bit_vector);
    assert(0xE0u8 | ((0x56FDu32 >> 12) & 0x0F) as u8 == 229u8) by (bit_vector);
    assert(0x80u8 | ((0x56FDu32 >> 6) & 0x3F) as u8 == 155u8) by (bit_vector);
    assert(0x80u8 | (0x56FDu32 & 0x3F) as u8 == 189u8) by (bit_vector);
    assert(0xE0u8 | ((0x4EBAu32 >> 12) & 0x0F) as u8 == 228u8) by (bit_vector);
    assert(0x80u8 | ((0x4EBAu32 >> 6) & 0x3F) as u8 == 186u8) by (bit_vector);
    assert(0x80u8 | (0x4EBAu32 & 0x3F) as u8 == 186u8) by (bit_vector);
    assert(vstd::utf8::encode_scalar('中' as u32) =~= seq![228u8, 184, 173]);
    assert(vstd::utf8::encode_scalar('国' as u32) =~= seq![229u8, 155, 189]);
    assert(vstd::utf8::encode_scalar('人' as u32) =~= seq![228u8, 186, 186]);
    assert(vstd::utf8::encode_utf8(chars) =~= seq![228u8, 184, 173, 229, 155, 189, 228, 186, 186]);
}

} // verus!
