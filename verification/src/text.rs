//! Text helpers: comparison, concatenation and decimal numbers.

use vstd::prelude::*;
use vstd::utf8::encode_utf8;

verus! {

/// Two texts have the same UTF-8 bytes only if they have the same characters.
proof fn lemma_utf8_injective(a: Seq<char>, b: Seq<char>)
    requires
        encode_utf8(a) == encode_utf8(b),
    ensures
        a == b,
{
    vstd::utf8::encode_utf8_decode_utf8(a);
    vstd::utf8::encode_utf8_decode_utf8(b);
}

/// The UTF-8 bytes of two texts in a row are those of the one and then of the other.
pub proof fn lemma_utf8_concat(a: Seq<char>, b: Seq<char>)
    ensures
        encode_utf8(a + b) == encode_utf8(a) + encode_utf8(b),
    decreases a.len(),
{
    if a.len() == 0 {
        assert(a + b =~= b);
        assert(encode_utf8(a) + encode_utf8(b) =~= encode_utf8(b));
    } else {
        assert((a + b).drop_first() =~= a.drop_first() + b);
        lemma_utf8_concat(a.drop_first(), b);
        assert(encode_utf8(a + b) =~= encode_utf8(a) + encode_utf8(b));
    }
}

/// A text that is not empty has UTF-8 bytes.
pub proof fn lemma_utf8_of_some(text: Seq<char>)
    requires
        text.len() > 0,
    ensures
        encode_utf8(text).len() > 0,
{
}

/// Whether two texts hold the same characters.
pub fn same_text(a: &str, b: &str) -> (same: bool)
    ensures
        same == (a@ == b@),
{
    let left = a.as_bytes();
    let right = b.as_bytes();
    if left.len() != right.len() {
        return false;
    }
    let mut i: usize = 0;
    while i < left.len()
        invariant
            left@ == encode_utf8(a@),
            right@ == encode_utf8(b@),
            left@.len() == right@.len(),
            i <= left@.len(),
            left@.take(i as int) == right@.take(i as int),
        decreases left@.len() - i,
    {
        if left[i] != right[i] {
            return false;
        }
        assert(left@.take(i + 1) == left@.take(i as int).push(left@[i as int]));
        assert(right@.take(i + 1) == right@.take(i as int).push(right@[i as int]));
        i = i + 1;
    }
    proof {
        assert(left@.take(i as int) == left@);
        assert(right@.take(i as int) == right@);
        lemma_utf8_injective(a@, b@);
    }
    true
}

/// `head` followed by `tail`.
pub fn join(head: &str, tail: &str) -> (whole: String)
    ensures
        whole@ == head@ + tail@,
{
    let mut whole = head.to_string();
    whole.append(tail);
    whole
}

/// What follows `prefix` in `text`, if `text` begins with it.
pub open spec fn stripped(text: Seq<char>, prefix: Seq<char>) -> Option<Seq<char>> {
    if prefix.is_prefix_of(text) {
        Some(text.skip(prefix.len() as int))
    } else {
        None
    }
}

/// What follows `prefix` in `text`, if `text` begins with it.
pub fn strip_prefix<'a>(text: &'a str, prefix: &str) -> (rest: Option<&'a str>)
    ensures
        match rest {
            Some(r) => stripped(text@, prefix@) == Some(r@),
            None => stripped(text@, prefix@) is None,
        },
{
    let length: usize = text.unicode_len();
    let cut: usize = prefix.unicode_len();
    if length < cut {
        return None;
    }
    if same_text(text.substring_char(0, cut), prefix) {
        assert(prefix@.is_prefix_of(text@));
        assert(text@.subrange(cut as int, length as int) == text@.skip(cut as int));
        Some(text.substring_char(cut, length))
    } else {
        assert(prefix@.is_prefix_of(text@) ==> text@.subrange(0, cut as int) == prefix@);
        None
    }
}

/// The character of a decimal digit.
pub open spec fn digit(d: nat) -> char {
    if d == 0 {
        '0'
    } else if d == 1 {
        '1'
    } else if d == 2 {
        '2'
    } else if d == 3 {
        '3'
    } else if d == 4 {
        '4'
    } else if d == 5 {
        '5'
    } else if d == 6 {
        '6'
    } else if d == 7 {
        '7'
    } else if d == 8 {
        '8'
    } else {
        '9'
    }
}

/// A number in decimal, without leading zeros.
pub open spec fn decimal_text(n: nat) -> Seq<char>
    decreases n,
{
    if n < 10 {
        seq![digit(n)]
    } else {
        decimal_text(n / 10).push(digit(n % 10))
    }
}

/// The one-character text of a decimal digit.
fn digit_text(d: u64) -> (text: &'static str)
    requires
        d < 10,
    ensures
        text@ == seq![digit(d as nat)],
{
    proof {
        reveal_strlit("0");
        reveal_strlit("1");
        reveal_strlit("2");
        reveal_strlit("3");
        reveal_strlit("4");
        reveal_strlit("5");
        reveal_strlit("6");
        reveal_strlit("7");
        reveal_strlit("8");
        reveal_strlit("9");
    }
    match d {
        0 => "0",
        1 => "1",
        2 => "2",
        3 => "3",
        4 => "4",
        5 => "5",
        6 => "6",
        7 => "7",
        8 => "8",
        _ => "9",
    }
}

/// Writes a number in decimal.
pub fn decimal(n: u64) -> (text: String)
    ensures
        text@ == decimal_text(n as nat),
    decreases n,
{
    if n < 10 {
        digit_text(n).to_string()
    } else {
        let mut text = decimal(n / 10);
        text.append(digit_text(n % 10));
        text
    }
}

/// What is left of a text behind a prefix is the rest of the text: the prefix
/// followed by it is the text again.
pub proof fn law_prefix_and_rest_are_the_text(text: Seq<char>, prefix: Seq<char>, rest: Seq<char>)
    ensures
        stripped(prefix + rest, prefix) == Some(rest),
        stripped(text, prefix) == Some(rest) ==> text == prefix + rest,
{
    assert(prefix.is_prefix_of(prefix + rest));
    assert((prefix + rest).skip(prefix.len() as int) =~= rest);
    if stripped(text, prefix) == Some(rest) {
        assert(text =~= prefix + rest);
    }
}

/// The number that a text of decimal digits stands for.
pub open spec fn number_in(text: Seq<char>) -> int
    decreases text.len(),
{
    if text.len() == 0 {
        0
    } else {
        number_in(text.drop_last()) * 10 + (text.last() as int - '0' as int)
    }
}

/// A number in decimal stands for the number, has only digits, and begins with
/// a zero only if it is zero.
pub proof fn law_decimal_is_read_back(n: nat)
    ensures
        number_in(decimal_text(n)) == n,
        decimal_text(n).len() > 0,
        forall|i: int| 0 <= i < decimal_text(n).len() ==> '0' <= #[trigger] decimal_text(n)[i] <= '9',
        decimal_text(n)[0] == '0' ==> n == 0 && decimal_text(n).len() == 1,
    decreases n,
{
    reveal_with_fuel(number_in, 2);
    if n >= 10 {
        law_decimal_is_read_back(n / 10);
        let head = decimal_text(n / 10);
        assert(decimal_text(n).drop_last() =~= head);
        assert(decimal_text(n).last() == digit(n % 10));
        assert(digit(n % 10) as int - '0' as int == n % 10);
        assert(decimal_text(n)[0] == head[0]);
    } else {
        assert(decimal_text(n).drop_last() =~= Seq::<char>::empty());
        assert(digit(n) as int - '0' as int == n);
    }
}

} // verus!
