//! Decimal integers as they stand in the text of a constraint field.
//!
//! A numeric field holds an optional sign followed by one or more ASCII
//! digits and nothing else: no blanks, no separators, no other radix. A
//! value that does not fit the integer type it is read into is rejected,
//! never truncated.

use vstd::prelude::*;
use vstd::string::{StrSliceExecFns, StringExecFns};

verus! {

/// Whether `c` is one of the ten ASCII decimal digits.
pub open spec fn is_digit(c: char) -> bool {
    '0' <= c <= '9'
}

/// The number that the digit `c` stands for.
pub open spec fn digit_value(c: char) -> int {
    c as int - '0' as int
}

/// The digit that stands for `d`, for `d` from 0 to 9.
pub open spec fn digit_char(d: int) -> char {
    ('0' as int + d) as char
}

/// Whether `s` is made of one or more digits.
pub open spec fn is_numeral(s: Seq<char>) -> bool {
    s.len() > 0 && forall|i: int| 0 <= i < s.len() ==> is_digit(#[trigger] s[i])
}

/// The number that a run of digits denotes in base ten, the empty run
/// denoting zero.
pub open spec fn digits_value(s: Seq<char>) -> int
    decreases s.len(),
{
    if s.len() == 0 {
        0
    } else {
        10 * digits_value(s.drop_last()) + digit_value(s.last())
    }
}

/// The number that `s` denotes when no minus sign is allowed: an optional
/// `+`, then a numeral.
pub open spec fn unsigned_value(s: Seq<char>) -> Option<int> {
    let digits = if s.len() > 0 && s[0] == '+' {
        s.skip(1)
    } else {
        s
    };
    if is_numeral(digits) {
        Some(digits_value(digits))
    } else {
        None
    }
}

/// The number that `s` denotes: an optional `+` or `-`, then a numeral.
pub open spec fn signed_value(s: Seq<char>) -> Option<int> {
    if s.len() > 0 && s[0] == '-' {
        if is_numeral(s.skip(1)) {
            Some(-digits_value(s.skip(1)))
        } else {
            None
        }
    } else {
        unsigned_value(s)
    }
}

/// What a signed numeric field decodes to: its value where the text is a
/// signed decimal integer that fits 64 bits, nothing otherwise.
pub open spec fn decoded_integer(s: Seq<char>) -> Option<i64> {
    match signed_value(s) {
        Some(v) => if i64::MIN <= v <= i64::MAX {
            Some(v as i64)
        } else {
            None
        },
        None => None,
    }
}

/// What a length field decodes to: its value where the text is an unsigned
/// decimal integer that fits 64 bits, nothing otherwise.
pub open spec fn decoded_length(s: Seq<char>) -> Option<u64> {
    match unsigned_value(s) {
        Some(v) => if v <= u64::MAX {
            Some(v as u64)
        } else {
            None
        },
        None => None,
    }
}

/// Appending one digit multiplies the value by ten and adds the digit.
pub proof fn lemma_digits_value_push(s: Seq<char>, c: char)
    ensures
        digits_value(s.push(c)) == 10 * digits_value(s) + digit_value(c),
{
    assert(s.push(c).drop_last() =~= s);
}

/// The value of a run of digits is never negative.
pub proof fn lemma_digits_value_nonnegative(s: Seq<char>)
    requires
        forall|i: int| 0 <= i < s.len() ==> is_digit(#[trigger] s[i]),
    ensures
        digits_value(s) >= 0,
    decreases s.len(),
{
    if s.len() > 0 {
        lemma_digits_value_nonnegative(s.drop_last());
    }
}

/// The shortest numeral that denotes `n`.
pub open spec fn numeral_of(n: nat) -> Seq<char>
    decreases n,
{
    if n < 10 {
        seq![digit_char(n as int)]
    } else {
        numeral_of(n / 10).push(digit_char((n % 10) as int))
    }
}

/// The canonical text of the integer `n`: a minus sign where it is
/// negative, then the shortest numeral of its magnitude.
pub open spec fn integer_text(n: int) -> Seq<char> {
    if n < 0 {
        seq!['-'] + numeral_of((-n) as nat)
    } else {
        numeral_of(n as nat)
    }
}

/// The shortest numeral of `n` is a numeral, and it denotes `n`.
pub proof fn lemma_numeral_of_denotes(n: nat)
    ensures
        is_numeral(numeral_of(n)),
        digits_value(numeral_of(n)) == n,
    decreases n,
{
    if n < 10 {
        assert(digits_value(numeral_of(n).drop_last()) == 0);
    } else {
        lemma_numeral_of_denotes(n / 10);
        lemma_digits_value_push(numeral_of(n / 10), digit_char((n % 10) as int));
    }
}

/// Decoding the canonical text of a 64-bit signed integer gives that
/// integer back.
pub proof fn lemma_integer_text_round_trip(n: i64)
    ensures
        decoded_integer(integer_text(n as int)) == Some(n),
{
    if n < 0 {
        let m = (-(n as int)) as nat;
        lemma_numeral_of_denotes(m);
        assert(integer_text(n as int).skip(1) =~= numeral_of(m));
    } else {
        lemma_numeral_of_denotes(n as nat);
    }
}

/// Decoding the canonical text of a 64-bit unsigned integer as a length
/// gives that integer back.
pub proof fn lemma_length_text_round_trip(n: u64)
    ensures
        decoded_length(integer_text(n as int)) == Some(n),
{
    lemma_numeral_of_denotes(n as nat);
}

/// A text that holds anything but digits behind an optional leading sign
/// denotes no number.
pub proof fn lemma_stray_character_is_rejected(s: Seq<char>, i: int)
    requires
        0 <= i < s.len(),
        !is_digit(s[i]),
        i > 0 || (s[0] != '+' && s[0] != '-'),
    ensures
        signed_value(s) is None,
        unsigned_value(s) is None,
        decoded_integer(s) is None,
        decoded_length(s) is None,
{
    if i > 0 {
        assert(s.skip(1)[i - 1] == s[i]);
    }
}

/// Reads the run of digits that makes up `text` from position `start` on.
/// Gives its value where that run is a numeral no greater than `limit`.
fn parse_magnitude(text: &str, start: usize, limit: u64) -> (r: Option<u64>)
    requires
        start <= text@.len(),
    ensures
        r matches Some(m) ==> is_numeral(text@.skip(start as int)) && m == digits_value(
            text@.skip(start as int),
        ) && m <= limit,
        r is None ==> !is_numeral(text@.skip(start as int)) || digits_value(
            text@.skip(start as int),
        ) > limit,
{
    let n: usize = text.unicode_len();
    if start == n {
        return None;
    }
    let ghost tail = text@.skip(start as int);
    let mut acc: u64 = 0;
    let mut over: bool = false;
    let mut i: usize = start;
    while i < n
        invariant
            start <= i <= n,
            n == text@.len(),
            tail == text@.skip(start as int),
            forall|k: int| 0 <= k < i - start ==> is_digit(#[trigger] tail[k]),
            !over ==> acc == digits_value(tail.take(i - start)),
            over ==> digits_value(tail.take(i - start)) > limit,
            acc <= limit,
        decreases n - i,
    {
        let c: char = text.get_char(i);
        assert(tail[i - start] == c);
        if !(c >= '0' && c <= '9') {
            return None;
        }
        let d: u64 = (c as u32 - '0' as u32) as u64;
        proof {
            let prefix = tail.take(i - start);
            assert(tail.take(i + 1 - start) =~= prefix.push(c));
            lemma_digits_value_push(prefix, c);
            lemma_digits_value_nonnegative(prefix);
        }
        if !over {
            if acc > limit / 10 {
                over = true;
            } else {
                let t: u64 = acc * 10;
                if d > limit - t {
                    over = true;
                } else {
                    acc = t + d;
                }
            }
        }
        i = i + 1;
    }
    proof {
        assert(tail.take(n - start) =~= tail);
    }
    if over {
        None
    } else {
        Some(acc)
    }
}

/// Decodes the text of a signed numeric field.
pub fn decode_integer(text: &str) -> (r: Option<i64>)
    ensures
        r == decoded_integer(text@),
{
    let n: usize = text.unicode_len();
    if n == 0 {
        return None;
    }
    let first: char = text.get_char(0);
    if first == '-' {
        match parse_magnitude(text, 1, 0x8000_0000_0000_0000u64) {
            Some(m) => {
                if m == 0x8000_0000_0000_0000u64 {
                    Some(i64::MIN)
                } else {
                    Some(-(m as i64))
                }
            },
            None => None,
        }
    } else {
        let start: usize = if first == '+' {
            1
        } else {
            0
        };
        proof {
            assert(text@.skip(0) =~= text@);
        }
        match parse_magnitude(text, start, 0x7fff_ffff_ffff_ffffu64) {
            Some(m) => Some(m as i64),
            None => None,
        }
    }
}

/// Decodes the text of a length field.
pub fn decode_length(text: &str) -> (r: Option<u64>)
    ensures
        r == decoded_length(text@),
{
    let n: usize = text.unicode_len();
    if n == 0 {
        return None;
    }
    let first: char = text.get_char(0);
    let start: usize = if first == '+' {
        1
    } else {
        0
    };
    proof {
        assert(text@.skip(0) =~= text@);
    }
    parse_magnitude(text, start, u64::MAX)
}

/// The text of one digit.
fn digit_text(d: u64) -> (r: &'static str)
    requires
        d < 10,
    ensures
        r@ == seq![digit_char(d as int)],
{
    proof {
        reveal_strlit("0");
        reveal_strlit("1");
        reveal_strlit("2");
        reveal_strlit("3");
        reveal_strlit("4");
        reveal_strlit("5");
        reveal_strlit("6");
        reveal_strlit("7");
        reveal_strlit("8");
        reveal_strlit("9");
    }
    if d == 0 {
        "0"
    } else if d == 1 {
        "1"
    } else if d == 2 {
        "2"
    } else if d == 3 {
        "3"
    } else if d == 4 {
        "4"
    } else if d == 5 {
        "5"
    } else if d == 6 {
        "6"
    } else if d == 7 {
        "7"
    } else if d == 8 {
        "8"
    } else {
        "9"
    }
}

/// Writes an unsigned number as its shortest numeral.
pub fn render_length(n: u64) -> (r: String)
    ensures
        r@ == integer_text(n as int),
        decoded_length(r@) == Some(n),
    decreases n,
{
    proof {
        lemma_length_text_round_trip(n);
    }
    if n < 10 {
        String::from_str(digit_text(n))
    } else {
        let mut text = render_length(n / 10);
        let last = digit_text(n % 10);
        text.append(last);
        text
    }
}

/// Writes a signed number in its canonical text.
pub fn render_integer(n: i64) -> (r: String)
    ensures
        r@ == integer_text(n as int),
        decoded_integer(r@) == Some(n),
{
    proof {
        lemma_integer_text_round_trip(n);
    }
    if n < 0 {
        let magnitude: u64 = if n == i64::MIN {
            0x8000_0000_0000_0000u64
        } else {
            (-n) as u64
        };
        let digits = render_length(magnitude);
        let mut text = String::from_str("-");
        text.append(digits.as_str());
        proof {
            reveal_strlit("-");
        }
        text
    } else {
        render_length(n as u64)
    }
}

} // verus!
