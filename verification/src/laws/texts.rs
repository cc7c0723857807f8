//! What texts and decimal numbers say.

use crate::decimal;
use crate::text;
use vstd::prelude::*;
use vstd::string::*;

verus! {

// ---------------------------------------------------------------------------
// Searching and cutting
// ---------------------------------------------------------------------------

/// A text stands where its characters do, one by one.
pub proof fn text_stands_where_its_characters_do(whole: Seq<char>, part: Seq<char>, at: int)
    ensures
        text::occurs_at(whole, part, at) <==> 0 <= at && at + part.len() <= whole.len() && (forall|
            i: int,
        | 0 <= i < part.len() ==> whole[at + i] == #[trigger] part[i]),
{
    if 0 <= at && at + part.len() <= whole.len() {
        let cut = whole.subrange(at, at + part.len());
        if text::occurs_at(whole, part, at) {
            assert forall|i: int| 0 <= i < part.len() implies whole[at + i] == #[trigger] part[i] by {
                assert(cut[i] == part[i]);
            }
        }
        if forall|i: int| 0 <= i < part.len() ==> whole[at + i] == #[trigger] part[i] {
            assert(cut =~= part);
        }
    }
}

/// The last place is one where the text stands, and behind it there is none.
pub proof fn last_place_has_none_behind_it(
    whole: Seq<char>,
    part: Seq<char>,
    at: int,
    other: int,
)
    requires
        text::last_occurrence(whole, part, at),
    ensures
        text::occurs_at(whole, part, at),
        text::occurs_at(whole, part, other) ==> other <= at,
        text::contains_text(whole, part),
{
}

/// A text is contained when it stands between a head and a tail, and only then.
pub proof fn contained_text_stands_between_head_and_tail(
    head: Seq<char>,
    part: Seq<char>,
    tail: Seq<char>,
)
    ensures
        text::contains_text(head + part + tail, part),
        part.len() > head.len() ==> !text::contains_text(head, part),
{
    let whole = head + part + tail;
    let at = head.len() as int;
    assert(whole.subrange(at, at + part.len()) =~= part);
    assert(text::occurs_at(whole, part, at));
}

/// Trailing slashes are cut off, all of them, and nothing else.
pub proof fn trailing_slashes_are_cut_off(head: Seq<char>)
    ensures
        head.len() == 0 || head.last() != '/' ==> text::without_trailing_slashes(head) == head,
        text::without_trailing_slashes(head.push('/')) == text::without_trailing_slashes(head),
{
    assert(head.push('/').drop_last() =~= head);
}

/// What follows the last slash of a text; all of it when it has none.
pub proof fn last_segment_follows_the_last_slash(head: Seq<char>, tail: Seq<char>)
    requires
        !tail.contains('/'),
    ensures
        text::after_last_slash(head.push('/') + tail) == tail,
        text::after_last_slash(tail) == tail,
    decreases tail.len(),
{
    text::after_last_slash_of_joined(head, tail);
    lemma_no_slash(tail);
}

proof fn lemma_no_slash(tail: Seq<char>)
    requires
        !tail.contains('/'),
    ensures
        text::after_last_slash(tail) == tail,
    decreases tail.len(),
{
    if tail.len() > 0 {
        assert(tail[tail.len() - 1] != '/');
        assert forall|i: int| 0 <= i < tail.drop_last().len() implies tail.drop_last()[i]
            != '/' by {
            assert(tail[i] != '/');
        }
        lemma_no_slash(tail.drop_last());
        assert(tail.drop_last().push(tail.last()) =~= tail);
    }
}

/// The upper-case letters are written in lower case; no other character changes.
pub proof fn upper_case_letters_are_lowered(c: char)
    ensures
        'A' <= c && c <= 'Z' ==> text::lower_case(c) as int == c as int + 32,
        c < 'A' || c > 'Z' ==> text::lower_case(c) == c,
        text::lower_case('A') == 'a',
        text::lower_case('Z') == 'z',
{
}

/// Two texts are the same but for case when they are as long, and lower to the
/// same characters.
pub proof fn case_is_all_that_may_differ(one: Seq<char>, other: Seq<char>)
    ensures
        text::same_but_for_case(one, one),
        text::same_but_for_case(one, other) ==> one.len() == other.len() && (forall|i: int|
            0 <= i < one.len() ==> text::lower_case(#[trigger] one[i]) == text::lower_case(
                other[i],
            )),
        one.len() == other.len() && (forall|i: int|
            0 <= i < one.len() ==> text::lower_case(#[trigger] one[i]) == text::lower_case(
                other[i],
            )) ==> text::same_but_for_case(one, other),
{
}

// ---------------------------------------------------------------------------
// Numbers
// ---------------------------------------------------------------------------

/// The digits from zero to nine.
pub proof fn digits_say_zero_to_nine(c: char, value: nat)
    ensures
        decimal::is_digit(c) <==> '0' <= c && c <= '9',
        decimal::is_digit(c) ==> decimal::digit_value(c) <= 9 && decimal::digit_char(
            decimal::digit_value(c),
        ) == c,
        value <= 9 ==> decimal::is_digit(decimal::digit_char(value)) && decimal::digit_value(
            decimal::digit_char(value),
        ) == value,
        decimal::digit_value('0') == 0,
        decimal::digit_value('9') == 9,
{
}

/// Each further digit makes ten times as much, and its own.
pub proof fn digits_count_in_tens(head: Seq<char>, digit: char)
    ensures
        decimal::digits_value(Seq::empty()) == 0,
        decimal::digits_value(head.push(digit)) == 10 * decimal::digits_value(head)
            + decimal::digit_value(digit),
        decimal::all_digits(head.push(digit)) <==> decimal::all_digits(head) && decimal::is_digit(
            digit,
        ),
{
    let whole = head.push(digit);
    assert(whole.drop_last() =~= head);
    if decimal::all_digits(whole) {
        assert(decimal::is_digit(whole[head.len() as int]));
        assert forall|i: int| 0 <= i < head.len() implies decimal::is_digit(
            #[trigger] head[i],
        ) by {
            assert(whole[i] == head[i]);
        }
    }
    if decimal::all_digits(head) && decimal::is_digit(digit) {
        assert forall|i: int| 0 <= i < whole.len() implies decimal::is_digit(
            #[trigger] whole[i],
        ) by {
            if i < head.len() {
                assert(head[i] == whole[i]);
            }
        }
    }
}

/// A natural number is read back from its digits, with or without a plus sign,
/// where it is within the bound; beyond it nothing is read.
pub proof fn natural_number_is_read_within_its_bound(value: nat, max: nat)
    ensures
        value <= max ==> decimal::unsigned_value(decimal::natural_text(value), max) == Some(value),
        value <= max ==> decimal::unsigned_value(
            seq!['+'] + decimal::natural_text(value),
            max,
        ) == Some(value),
        value > max ==> decimal::unsigned_value(decimal::natural_text(value), max) is None,
        decimal::unsigned_value(Seq::empty(), max) is None,
        decimal::unsigned_value(seq!['+'], max) is None,
        decimal::unsigned_value(seq!['-'] + decimal::natural_text(value), max) is None,
{
    let digits = decimal::natural_text(value);
    decimal::natural_text_reads_back(value, value);
    lemma_digits(value);
    let signed = seq!['+'] + digits;
    assert(signed.skip(1) =~= digits);
    assert(seq!['+'].skip(1).len() == 0);
    let negative = seq!['-'] + digits;
    assert(!decimal::is_digit(negative[0]));
}

proof fn lemma_digits(value: nat)
    ensures
        decimal::natural_text(value).len() > 0,
        decimal::all_digits(decimal::natural_text(value)),
        decimal::digits_value(decimal::natural_text(value)) == value,
        decimal::is_digit(decimal::natural_text(value)[0]),
    decreases value,
{
    if value < 10 {
        let text = decimal::natural_text(value);
        assert(text =~= Seq::<char>::empty().push(decimal::digit_char(value)));
        digits_count_in_tens(Seq::empty(), decimal::digit_char(value));
    } else {
        lemma_digits(value / 10);
        digits_count_in_tens(
            decimal::natural_text(value / 10),
            decimal::digit_char(value % 10),
        );
    }
}

/// A text with anything but digits behind its sign says no number.
pub proof fn only_digits_say_a_number(digits: Seq<char>, max: nat, at: int)
    requires
        0 <= at < digits.len(),
        !decimal::is_digit(digits[at]),
        at == 0 ==> digits[0] != '+' && digits[0] != '-',
    ensures
        decimal::unsigned_value(digits, max) is None,
        decimal::signed_value(digits) is None,
{
    if at > 0 {
        assert(digits.skip(1)[at - 1] == digits[at]);
    }
}

/// An integer is read back from its text when it fits 64 bits, and a minus sign
/// makes it negative.
pub proof fn integer_is_read_with_its_sign(value: int)
    ensures
        i64::MIN <= value <= i64::MAX ==> decimal::signed_value(decimal::integer_text(value))
            == Some(value),
        value < 0 ==> decimal::integer_text(value) == seq!['-'] + decimal::natural_text(
            (-value) as nat,
        ),
        value >= 0 ==> decimal::integer_text(value) == decimal::natural_text(value as nat),
        value > i64::MAX || value < i64::MIN ==> decimal::signed_value(
            decimal::integer_text(value),
        ) is None,
{
    if i64::MIN <= value <= i64::MAX {
        decimal::integer_text_reads_back(value);
    } else {
        let magnitude = if value < 0 {
            (-value) as nat
        } else {
            value as nat
        };
        lemma_digits(magnitude);
        if value < 0 {
            assert(decimal::integer_text(value).skip(1) =~= decimal::natural_text(magnitude));
        }
    }
}

/// A number is written without leading zeros: its last digit is what it leaves
/// of ten, behind the digits of the rest.
pub proof fn number_is_written_digit_by_digit(value: nat)
    ensures
        value < 10 ==> decimal::natural_text(value).len() == 1,
        value < 10 ==> decimal::natural_text(value)[0] == decimal::digit_char(value),
        value >= 10 ==> decimal::natural_text(value) == decimal::natural_text(value / 10).push(
            decimal::digit_char(value % 10),
        ),
        value > 0 ==> decimal::natural_text(value)[0] != '0',
    decreases value,
{
    if value >= 10 {
        number_is_written_digit_by_digit(value / 10);
        lemma_digits(value / 10);
    }
}

} // verus!
