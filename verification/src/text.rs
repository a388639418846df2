//! Small operations on text that the routing rules are built from.

use vstd::prelude::*;
use vstd::std_specs::iter::IteratorSpec;
use vstd::string::*;
use vstd::utf8::*;

verus! {

/// Whether two strings hold the same characters.
pub fn same_text(a: &str, b: &str) -> (same: bool)
    ensures
        same == (a@ == b@),
{
    let x = a.as_bytes();
    let y = b.as_bytes();
    proof {
        encode_utf8_decode_utf8(a@);
        encode_utf8_decode_utf8(b@);
    }
    if x.len() != y.len() {
        return false;
    }
    let mut i: usize = 0;
    while i < x.len()
        invariant
            i <= x.len(),
            x.len() == y.len(),
            x@ == a.spec_bytes(),
            y@ == b.spec_bytes(),
            forall|j: int| 0 <= j < i ==> x@[j] == y@[j],
        decreases x.len() - i,
    {
        if x[i] != y[i] {
            return false;
        }
        i += 1;
    }
    assert(x@ =~= y@);
    true
}

/// The number of characters of `text` before its first `/`: all of them if
/// it has none.
pub open spec fn segment_len(text: Seq<char>) -> nat
    decreases text.len(),
{
    if text.len() == 0 || text[0] == '/' {
        0
    } else {
        1 + segment_len(text.drop_first())
    }
}

/// `segment_len` is the position of the first `/`.
pub proof fn segment_len_is_first_slash(text: Seq<char>)
    ensures
        segment_len(text) <= text.len(),
        forall|j: int| 0 <= j < segment_len(text) ==> text[j] != '/',
        segment_len(text) < text.len() ==> text[segment_len(text) as int] == '/',
    decreases text.len(),
{
    if text.len() == 0 || text[0] == '/' {
    } else {
        let tail = text.drop_first();
        segment_len_is_first_slash(tail);
        assert forall|j: int| 0 <= j < segment_len(text) implies text[j] != '/' by {
            if j > 0 {
                assert(text[j] == tail[j - 1]);
            }
        }
    }
}

/// A text that has no `/` before position `at`, and a `/` there or its end,
/// has `at` as its `segment_len`.
pub proof fn first_slash_is_segment_len(text: Seq<char>, at: int)
    requires
        0 <= at <= text.len(),
        forall|j: int| 0 <= j < at ==> text[j] != '/',
        at < text.len() ==> text[at] == '/',
    ensures
        segment_len(text) == at,
{
    segment_len_is_first_slash(text);
}

/// Counts the characters of `text` before its first `/`.
pub fn leading_segment_len(text: &str) -> (len: usize)
    ensures
        len == segment_len(text@),
{
    broadcast use vstd::string::group_string_axioms;

    let total = text.unicode_len();
    let mut chars = text.chars();
    let mut at: usize = 0;
    loop
        invariant_except_break
            chars.remaining() == text@.skip(at as int),
        invariant
            at <= total,
            total == text@.len(),
            chars.obeys_prophetic_iter_laws(),
            forall|j: int| 0 <= j < at ==> text@[j] != '/',
        ensures
            at <= total,
            forall|j: int| 0 <= j < at ==> text@[j] != '/',
            at < total ==> text@[at as int] == '/',
        decreases total - at,
    {
        match chars.next() {
            None => {
                break ;
            },
            Some(c) => {
                if c == '/' {
                    break ;
                }
                at += 1;
            },
        }
    }
    proof {
        first_slash_is_segment_len(text@, at as int);
    }
    at
}

/// The character that stands for a digit below ten.
pub open spec fn digit_char(digit: nat) -> char {
    if digit == 0 {
        '0'
    } else if digit == 1 {
        '1'
    } else if digit == 2 {
        '2'
    } else if digit == 3 {
        '3'
    } else if digit == 4 {
        '4'
    } else if digit == 5 {
        '5'
    } else if digit == 6 {
        '6'
    } else if digit == 7 {
        '7'
    } else if digit == 8 {
        '8'
    } else {
        '9'
    }
}

/// A number in decimal, without sign and without leading zeros.
pub open spec fn decimal_text(number: nat) -> Seq<char>
    decreases number,
{
    if number < 10 {
        seq![digit_char(number)]
    } else {
        decimal_text(number / 10).push(digit_char(number % 10))
    }
}

fn digit_text(digit: u16) -> (text: &'static str)
    requires
        digit < 10,
    ensures
        text@ == seq![digit_char(digit as nat)],
{
    let text = match digit {
        0 => "0",
        1 => "1",
        2 => "2",
        3 => "3",
        4 => "4",
        5 => "5",
        6 => "6",
        7 => "7",
        8 => "8",
        _ => "9",
    };
    proof {
        reveal_strlit("0");
        reveal_strlit("1");
        reveal_strlit("2");
        reveal_strlit("3");
        reveal_strlit("4");
        reveal_strlit("5");
        reveal_strlit("6");
        reveal_strlit("7");
        reveal_strlit("8");
        reveal_strlit("9");
    }
    text
}

/// Writes a number in decimal.
pub fn decimal(number: u16) -> (text: String)
    ensures
        text@ == decimal_text(number as nat),
    decreases number,
{
    if number < 10 {
        String::from_str(digit_text(number))
    } else {
        decimal(number / 10).concat(digit_text(number % 10))
    }
}

} // verus!
