//! Texts as sequences of characters, and where their bytes fall.
//!
//! A `String` is viewed as the sequence of its characters, while the standard
//! library measures and indexes it in bytes of UTF-8. The functions here say
//! how the two relate.

use crate::std_calls;
use vstd::prelude::*;
use vstd::utf8::{encode_scalar, encode_utf8, is_ascii_chars};

verus! {

/// Number of bytes that a text occupies in UTF-8.
pub open spec fn byte_len(text: Seq<char>) -> nat {
    encode_utf8(text).len()
}

/// Number of bytes that one character occupies in UTF-8.
pub open spec fn char_width(c: char) -> nat {
    let scalar = c as u32;
    if scalar <= 0x7F {
        1
    } else if scalar <= 0x7FF {
        2
    } else if scalar <= 0xFFFF {
        3
    } else {
        4
    }
}

/// Byte offset at which the character with index `k` starts; for `k` equal to
/// the number of characters, the offset at which the text ends.
pub open spec fn offset_of(text: Seq<char>, k: int) -> nat
    recommends
        0 <= k <= text.len(),
{
    byte_len(text.take(k))
}

/// Whether the byte offset `at` falls between two characters of the text, or
/// at its start or end.
pub open spec fn is_boundary(text: Seq<char>, at: int) -> bool {
    exists|k: int| 0 <= k <= text.len() && #[trigger] offset_of(text, k) == at
}

/// Whether a character of the text starts at the byte offset `at`.
pub open spec fn is_char_start(text: Seq<char>, at: int) -> bool {
    exists|k: int| 0 <= k < text.len() && #[trigger] offset_of(text, k) == at
}

/// Number of characters that lie before the byte offset `at`, where `at` is a
/// boundary of the text.
pub open spec fn chars_before(text: Seq<char>, at: int) -> int
    recommends
        is_boundary(text, at),
{
    choose|k: int| 0 <= k <= text.len() && #[trigger] offset_of(text, k) == at
}

/// A text of ASCII characters occupies one byte for each character.
pub proof fn lemma_ascii_byte_len(text: Seq<char>)
    requires
        is_ascii_chars(text),
    ensures
        byte_len(text) == text.len(),
{
    vstd::utf8::is_ascii_chars_encode_utf8(text);
}

/// One character occupies as many bytes as its width says.
pub proof fn lemma_byte_len_of_char(c: char)
    ensures
        encode_scalar(c as u32).len() == char_width(c),
        byte_len(seq![c]) == char_width(c),
{
    vstd::utf8::char_is_scalar(c);
    assert(seq![c].drop_first() =~= Seq::<char>::empty());
    assert(encode_utf8(seq![c]) =~= encode_scalar(c as u32) + encode_utf8(Seq::<char>::empty()));
}

/// The bytes of two texts put together are the bytes of the first followed by
/// the bytes of the second.
pub proof fn lemma_encode_concat(a: Seq<char>, b: Seq<char>)
    ensures
        encode_utf8(a + b) == encode_utf8(a) + encode_utf8(b),
        byte_len(a + b) == byte_len(a) + byte_len(b),
    decreases a.len(),
{
    if a.len() == 0 {
        assert(a + b =~= b);
        assert(encode_utf8(a) + encode_utf8(b) =~= encode_utf8(b));
    } else {
        lemma_encode_concat(a.drop_first(), b);
        assert((a + b).drop_first() =~= a.drop_first() + b);
        assert(encode_utf8(a + b) =~= encode_utf8(a) + encode_utf8(b));
    }
}

/// Each character moves the offset on by its width.
pub proof fn lemma_offset_step(text: Seq<char>, k: int)
    requires
        0 <= k < text.len(),
    ensures
        offset_of(text, k + 1) == offset_of(text, k) + char_width(text[k]),
{
    assert(text.take(k + 1) =~= text.take(k) + seq![text[k]]);
    lemma_encode_concat(text.take(k), seq![text[k]]);
    lemma_byte_len_of_char(text[k]);
}

/// Later characters start at larger offsets.
pub proof fn lemma_offsets_increase(text: Seq<char>, j: int, k: int)
    requires
        0 <= j < k <= text.len(),
    ensures
        offset_of(text, j) < offset_of(text, k),
    decreases k - j,
{
    lemma_offset_step(text, k - 1);
    if j < k - 1 {
        lemma_offsets_increase(text, j, k - 1);
    }
}

/// The offset of the character with index `k` is a boundary, and `k`
/// characters lie before it.
pub proof fn lemma_boundary_at(text: Seq<char>, k: int)
    requires
        0 <= k <= text.len(),
    ensures
        is_boundary(text, offset_of(text, k) as int),
        chars_before(text, offset_of(text, k) as int) == k,
        k < text.len() ==> is_char_start(text, offset_of(text, k) as int),
{
    let at = offset_of(text, k) as int;
    let found = chars_before(text, at);
    if found < k {
        lemma_offsets_increase(text, found, k);
    } else if k < found {
        lemma_offsets_increase(text, k, found);
    }
}

/// In a text of ASCII characters the character with index `k` starts at
/// byte `k`.
pub proof fn lemma_ascii_offset(text: Seq<char>, k: int)
    requires
        is_ascii_chars(text),
        0 <= k <= text.len(),
    ensures
        offset_of(text, k) == k,
        is_boundary(text, k),
        chars_before(text, k) == k,
        k < text.len() ==> is_char_start(text, k),
{
    assert(is_ascii_chars(text.take(k)));
    lemma_ascii_byte_len(text.take(k));
    lemma_boundary_at(text, k);
}

/// Whether `pattern` occurs in `text` at the character with index `i`.
pub open spec fn occurs_at(text: Seq<char>, pattern: Seq<char>, i: int) -> bool {
    &&& 0 <= i
    &&& i + pattern.len() <= text.len()
    &&& forall|j: int| 0 <= j < pattern.len() ==> text[i + j] == #[trigger] pattern[j]
}

/// The part of `text` from the character with index `i` on, with every
/// occurrence of `from` replaced by `to`. Occurrences are looked for from left
/// to right, and the search goes on behind each one that is found, so the
/// occurrences that are replaced do not overlap.
pub open spec fn replace_all_from(text: Seq<char>, from: Seq<char>, to: Seq<char>, i: int) -> Seq<
    char,
>
    recommends
        from.len() > 0,
        0 <= i,
    decreases text.len() - i,
{
    if i < 0 || i >= text.len() || from.len() == 0 {
        Seq::empty()
    } else if occurs_at(text, from, i) {
        to + replace_all_from(text, from, to, i + from.len())
    } else {
        seq![text[i]] + replace_all_from(text, from, to, i + 1)
    }
}

/// `text` with every occurrence of the non-empty pattern `from` replaced by `to`.
pub open spec fn replace_all(text: Seq<char>, from: Seq<char>, to: Seq<char>) -> Seq<char>
    recommends
        from.len() > 0,
{
    replace_all_from(text, from, to, 0)
}

/// The part of `text` from the character with index `i` on, with the first
/// `count` occurrences of `from` replaced by `to`, found as in
/// [`replace_all_from`].
pub open spec fn replace_first_from(
    text: Seq<char>,
    from: Seq<char>,
    to: Seq<char>,
    count: nat,
    i: int,
) -> Seq<char>
    recommends
        from.len() > 0,
        0 <= i,
    decreases text.len() - i,
{
    if i < 0 || i >= text.len() || from.len() == 0 {
        Seq::empty()
    } else if count == 0 {
        text.skip(i)
    } else if occurs_at(text, from, i) {
        to + replace_first_from(text, from, to, (count - 1) as nat, i + from.len())
    } else {
        seq![text[i]] + replace_first_from(text, from, to, count, i + 1)
    }
}

/// `text` with the first `count` occurrences of the non-empty pattern `from`
/// replaced by `to`.
pub open spec fn replace_first(text: Seq<char>, from: Seq<char>, to: Seq<char>, count: nat) -> Seq<
    char,
>
    recommends
        from.len() > 0,
{
    replace_first_from(text, from, to, count, 0)
}

/// A stretch of the text in which the first character of the pattern does
/// not occur is copied as it is.
pub proof fn lemma_replace_all_copies(
    text: Seq<char>,
    from: Seq<char>,
    to: Seq<char>,
    i: int,
    j: int,
)
    requires
        from.len() > 0,
        0 <= i <= j <= text.len(),
        forall|k: int| i <= k < j ==> #[trigger] text[k] != from[0],
    ensures
        replace_all_from(text, from, to, i) == text.subrange(i, j) + replace_all_from(
            text,
            from,
            to,
            j,
        ),
    decreases j - i,
{
    if i < j {
        lemma_replace_all_copies(text, from, to, i + 1, j);
        assert(text[i] != from[0]);
        assert(!occurs_at(text, from, i));
        assert(text.subrange(i, j) =~= seq![text[i]] + text.subrange(i + 1, j));
        assert(replace_all_from(text, from, to, i) =~= text.subrange(i, j) + replace_all_from(
            text,
            from,
            to,
            j,
        ));
    } else {
        assert(text.subrange(i, j) + replace_all_from(text, from, to, j) =~= replace_all_from(
            text,
            from,
            to,
            j,
        ));
    }
}

/// As long as occurrences are still to be replaced, a stretch of the text in
/// which the first character of the pattern does not occur is copied as it is.
pub proof fn lemma_replace_first_copies(
    text: Seq<char>,
    from: Seq<char>,
    to: Seq<char>,
    count: nat,
    i: int,
    j: int,
)
    requires
        from.len() > 0,
        count > 0,
        0 <= i <= j <= text.len(),
        forall|k: int| i <= k < j ==> #[trigger] text[k] != from[0],
    ensures
        replace_first_from(text, from, to, count, i) == text.subrange(i, j) + replace_first_from(
            text,
            from,
            to,
            count,
            j,
        ),
    decreases j - i,
{
    if i < j {
        lemma_replace_first_copies(text, from, to, count, i + 1, j);
        assert(text[i] != from[0]);
        assert(!occurs_at(text, from, i));
        assert(text.subrange(i, j) =~= seq![text[i]] + text.subrange(i + 1, j));
        assert(replace_first_from(text, from, to, count, i) =~= text.subrange(i, j)
            + replace_first_from(text, from, to, count, j));
    } else {
        assert(text.subrange(i, j) + replace_first_from(text, from, to, count, j)
            =~= replace_first_from(text, from, to, count, j));
    }
}

/// The character that stands for a digit from 0 to 9.
pub open spec fn digit(d: nat) -> char
    recommends
        d < 10,
{
    (0x30 + d) as char
}

/// A natural number in decimal, without leading zeros.
pub open spec fn decimal(n: nat) -> Seq<char>
    decreases n,
{
    if n < 10 {
        seq![digit(n)]
    } else {
        decimal(n / 10).push(digit(n % 10))
    }
}

/// The character of a digit.
pub fn digit_char(d: u8) -> (c: char)
    requires
        d < 10,
    ensures
        c == digit(d as nat),
{
    (0x30u8 + d) as char
}

/// Writes a byte in decimal.
pub fn decimal_u8(n: u8) -> (text: String)
    ensures
        text@ == decimal(n as nat),
{
    let mut text = String::new();
    if n >= 100 {
        std_calls::string_push(&mut text, digit_char(n / 100));
    }
    if n >= 10 {
        std_calls::string_push(&mut text, digit_char((n / 10) % 10));
    }
    std_calls::string_push(&mut text, digit_char(n % 10));
    proof {
        reveal_with_fuel(decimal, 3);
    }
    text
}

} // verus!
