//! Decimal numbers as text: what they say, and how they are written.

use crate::text::chars_of;
use vstd::prelude::*;
use vstd::string::*;

verus! {

// ---------------------------------------------------------------------------
// Reading
// ---------------------------------------------------------------------------

pub open spec fn is_digit(c: char) -> bool {
    '0' <= c && c <= '9'
}

pub open spec fn digit_value(c: char) -> nat {
    ((c as int) - ('0' as int)) as nat
}

pub open spec fn all_digits(text: Seq<char>) -> bool {
    forall|i: int| 0 <= i < text.len() ==> is_digit(#[trigger] text[i])
}

/// The number that a run of digits says.
pub open spec fn digits_value(text: Seq<char>) -> nat
    decreases text.len(),
{
    if text.len() == 0 {
        0
    } else {
        digits_value(text.drop_last()) * 10 + digit_value(text.last())
    }
}

/// The number a text says when it is an optional `+` and a run of at least one
/// digit, and the number is no greater than `max`.
pub open spec fn unsigned_value(text: Seq<char>, max: nat) -> Option<nat> {
    let digits = if text.len() > 0 && text[0] == '+' {
        text.skip(1)
    } else {
        text
    };
    if digits.len() > 0 && all_digits(digits) && digits_value(digits) <= max {
        Some(digits_value(digits))
    } else {
        None
    }
}

/// The number a text says when it is an optional `+` or `-` and a run of at
/// least one digit, and the number fits a 64-bit signed integer.
pub open spec fn signed_value(text: Seq<char>) -> Option<int> {
    if text.len() > 0 && text[0] == '-' {
        match unsigned_digits(text.skip(1), 0x8000_0000_0000_0000) {
            Some(value) => Some(-(value as int)),
            None => None,
        }
    } else {
        match unsigned_value(text, 0x7fff_ffff_ffff_ffff) {
            Some(value) => Some(value as int),
            None => None,
        }
    }
}

/// As [`unsigned_value`], without a sign.
pub open spec fn unsigned_digits(digits: Seq<char>, max: nat) -> Option<nat> {
    if digits.len() > 0 && all_digits(digits) && digits_value(digits) <= max {
        Some(digits_value(digits))
    } else {
        None
    }
}

proof fn lemma_digits_value_grows(text: Seq<char>, end: int)
    requires
        0 <= end <= text.len(),
        all_digits(text),
    ensures
        digits_value(text.take(end)) <= digits_value(text),
    decreases text.len(),
{
    if end == text.len() {
        assert(text.take(end) =~= text);
    } else {
        assert(text.drop_last().take(end) =~= text.take(end));
        lemma_digits_value_grows(text.drop_last(), end);
    }
}

/// The run of digits from `start` on, read as a number of at most `max`.
fn read_digits(chars: &Vec<char>, start: usize, max: u64) -> (out: Option<u64>)
    requires
        start <= chars@.len(),
    ensures
        match out {
            Some(value) => unsigned_digits(chars@.skip(start as int), max as nat) == Some(value as nat),
            None => unsigned_digits(chars@.skip(start as int), max as nat) is None,
        },
{
    let ghost digits = chars@.skip(start as int);
    if start == chars.len() {
        return None;
    }
    let mut value: u64 = 0;
    let mut i: usize = start;
    assert(digits.take(0) =~= Seq::<char>::empty());
    while i < chars.len()
        invariant
            start <= i <= chars@.len(),
            digits == chars@.skip(start as int),
            all_digits(digits.take(i - start)),
            value == digits_value(digits.take(i - start)),
            value <= max,
        decreases chars@.len() - i,
    {
        let c = chars[i];
        let ghost before = digits.take(i - start);
        let ghost after = digits.take(i - start + 1);
        assert(after.drop_last() =~= before);
        assert(after.last() == c);
        if c < '0' || '9' < c {
            assert(digits[i - start] == c);
            return None;
        }
        assert(all_digits(after)) by {
            assert forall|j: int| 0 <= j < after.len() implies is_digit(#[trigger] after[j]) by {
                if j < before.len() {
                    assert(before[j] == after[j]);
                }
            }
        }
        let wide: u128 = (value as u128) * 10 + ((c as u32 - 48) as u128);
        assert(wide == digits_value(after));
        if wide > max as u128 {
            proof {
                if all_digits(digits) {
                    lemma_digits_value_grows(digits, i - start + 1);
                }
            }
            return None;
        }
        value = wide as u64;
        i = i + 1;
    }
    assert(digits.take(i - start) =~= digits);
    Some(value)
}

/// A text read as an unsigned number of at most `max`.
fn read_unsigned(text: &str, max: u64) -> (out: Option<u64>)
    ensures
        match out {
            Some(value) => unsigned_value(text@, max as nat) == Some(value as nat),
            None => unsigned_value(text@, max as nat) is None,
        },
{
    let chars = chars_of(text);
    if chars.len() > 0 && chars[0] == '+' {
        read_digits(&chars, 1, max)
    } else {
        assert(chars@.skip(0) =~= chars@);
        read_digits(&chars, 0, max)
    }
}

/// A text read as a `u32`.
pub fn parse_u32(text: &str) -> (out: Option<u32>)
    ensures
        match out {
            Some(value) => unsigned_value(text@, u32::MAX as nat) == Some(value as nat),
            None => unsigned_value(text@, u32::MAX as nat) is None,
        },
{
    match read_unsigned(text, u32::MAX as u64) {
        Some(value) => Some(value as u32),
        None => None,
    }
}

/// A text read as a `u64`.
pub fn parse_u64(text: &str) -> (out: Option<u64>)
    ensures
        match out {
            Some(value) => unsigned_value(text@, u64::MAX as nat) == Some(value as nat),
            None => unsigned_value(text@, u64::MAX as nat) is None,
        },
{
    read_unsigned(text, u64::MAX)
}

/// A text read as an `i64`.
pub fn parse_i64(text: &str) -> (out: Option<i64>)
    ensures
        match out {
            Some(value) => signed_value(text@) == Some(value as int),
            None => signed_value(text@) is None,
        },
{
    let chars = chars_of(text);
    if chars.len() > 0 && chars[0] == '-' {
        match read_digits(&chars, 1, 0x8000_0000_0000_0000) {
            Some(value) => Some((0 - value as i128) as i64),
            None => None,
        }
    } else {
        match read_unsigned(text, 0x7fff_ffff_ffff_ffff) {
            Some(value) => Some(value as i64),
            None => None,
        }
    }
}

// ---------------------------------------------------------------------------
// Writing
// ---------------------------------------------------------------------------

pub open spec fn digit_char(digit: nat) -> char {
    (('0' as int) + digit) as char
}

/// A natural number written in digits, without leading zeros.
pub open spec fn natural_text(value: nat) -> Seq<char>
    decreases value,
{
    if value < 10 {
        seq![digit_char(value)]
    } else {
        natural_text(value / 10).push(digit_char(value % 10))
    }
}

/// An integer written in digits, with a `-` in front when it is negative.
pub open spec fn integer_text(value: int) -> Seq<char> {
    if value < 0 {
        seq!['-'] + natural_text((-value) as nat)
    } else {
        natural_text(value as nat)
    }
}

fn digit_text(digit: u64) -> (out: &'static str)
    requires
        digit < 10,
    ensures
        out@ == seq![digit_char(digit as nat)],
{
    proof {
        reveal_strlit("0");
        reveal_strlit("1");
        reveal_strlit("2");
        reveal_strlit("3");
        reveal_strlit("4");
        reveal_strlit("5");
        reveal_strlit("6");
        reveal_strlit("7");
        reveal_strlit("8");
        reveal_strlit("9");
    }
    let out: &'static str = match digit {
        0 => "0",
        1 => "1",
        2 => "2",
        3 => "3",
        4 => "4",
        5 => "5",
        6 => "6",
        7 => "7",
        8 => "8",
        _ => "9",
    };
    assert(out@ =~= seq![digit_char(digit as nat)]);
    out
}

/// A number written in digits.
pub fn u64_text(value: u64) -> (out: String)
    ensures
        out@ == natural_text(value as nat),
    decreases value,
{
    if value < 10 {
        digit_text(value).to_owned()
    } else {
        let mut out = u64_text(value / 10);
        let last = digit_text(value % 10);
        out.append(last);
        assert(out@ =~= natural_text(value as nat));
        out
    }
}

/// A number written in digits, with a `-` in front when it is negative.
pub fn i64_text(value: i64) -> (out: String)
    ensures
        out@ == integer_text(value as int),
{
    if value < 0 {
        let magnitude: u64 = (0 - value as i128) as u64;
        let digits = u64_text(magnitude);
        let mut out = "-".to_owned();
        out.append(digits.as_str());
        proof {
            reveal_strlit("-");
        }
        assert("-"@ =~= seq!['-']);
        out
    } else {
        u64_text(value as u64)
    }
}

// ---------------------------------------------------------------------------
// Reading what was written
// ---------------------------------------------------------------------------

proof fn lemma_natural_text(value: nat)
    ensures
        natural_text(value).len() > 0,
        all_digits(natural_text(value)),
        digits_value(natural_text(value)) == value,
    decreases value,
{
    if value < 10 {
        let text = natural_text(value);
        assert(text.drop_last() =~= Seq::<char>::empty());
        assert(digits_value(text.drop_last()) == 0);
    } else {
        lemma_natural_text(value / 10);
        let head = natural_text(value / 10);
        let text = natural_text(value);
        assert(text.drop_last() =~= head);
        assert(all_digits(text)) by {
            assert forall|i: int| 0 <= i < text.len() implies is_digit(#[trigger] text[i]) by {
                if i < head.len() {
                    assert(head[i] == text[i]);
                }
            }
        }
    }
}

/// An integer that fits 64 bits reads back from its text as itself.
pub proof fn integer_text_reads_back(value: int)
    requires
        i64::MIN <= value <= i64::MAX,
    ensures
        signed_value(integer_text(value)) == Some(value),
{
    let text = integer_text(value);
    if value < 0 {
        lemma_natural_text((-value) as nat);
        assert(text.skip(1) =~= natural_text((-value) as nat));
    } else {
        lemma_natural_text(value as nat);
        assert(is_digit(text[0]));
    }
}

/// The text of an integer holds no `/`.
pub proof fn integer_text_has_no_slash(value: int)
    ensures
        !integer_text(value).contains('/'),
{
    let text = integer_text(value);
    let digits = natural_text(if value < 0 { (-value) as nat } else { value as nat });
    lemma_natural_text(if value < 0 { (-value) as nat } else { value as nat });
    assert forall|i: int| 0 <= i < text.len() implies text[i] != '/' by {
        if value < 0 {
            if i > 0 {
                assert(text[i] == digits[i - 1]);
            }
        } else {
            assert(text[i] == digits[i]);
        }
    }
}

/// A natural number reads back from its text as itself under any bound that
/// admits it.
pub proof fn natural_text_reads_back(value: nat, max: nat)
    requires
        value <= max,
    ensures
        unsigned_value(natural_text(value), max) == Some(value),
{
    lemma_natural_text(value);
    assert(is_digit(natural_text(value)[0]));
}

} // verus!
