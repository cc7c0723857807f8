//! Text operations the rest of the crate builds on, stated over sequences of
//! characters.

use vstd::prelude::*;
use vstd::string::*;

verus! {

/// Two texts joined.
pub fn joined(left: &str, right: &str) -> (out: String)
    ensures
        out@ == left@ + right@,
{
    let mut out = left.to_owned();
    out.append(right);
    out
}

/// Whether two texts are the same, character by character.
pub fn same(left: &str, right: &str) -> (out: bool)
    ensures
        out == (left@ == right@),
{
    left.to_owned() == right.to_owned()
}

/// The characters of a text, in order.
pub fn chars_of(text: &str) -> (out: Vec<char>)
    ensures
        out@ == text@,
{
    let mut out: Vec<char> = Vec::new();
    for c in it: text.chars()
        invariant
            it.seq() == text@,
            out@ == text@.take(it.index() as int),
    {
        out.push(c);
    }
    out
}

// ---------------------------------------------------------------------------
// Searching and cutting
// ---------------------------------------------------------------------------

/// `needle` stands in `text` from position `at` on.
pub open spec fn occurs_at(text: Seq<char>, needle: Seq<char>, at: int) -> bool {
    0 <= at && at + needle.len() <= text.len() && text.subrange(at, at + needle.len()) == needle
}

/// `at` is the last position at which `needle` stands in `text`.
pub open spec fn last_occurrence(text: Seq<char>, needle: Seq<char>, at: int) -> bool {
    &&& occurs_at(text, needle, at)
    &&& forall|later: int| #[trigger] occurs_at(text, needle, later) ==> later <= at
}

fn stands_at(text: &Vec<char>, needle: &Vec<char>, at: usize) -> (out: bool)
    requires
        at + needle@.len() <= text@.len(),
    ensures
        out == occurs_at(text@, needle@, at as int),
{
    let length: usize = text.len();
    let mut i: usize = 0;
    while i < needle.len()
        invariant
            i <= needle@.len(),
            length == text@.len(),
            at + needle@.len() <= length,
            forall|j: int| 0 <= j < i ==> text@[at + j] == #[trigger] needle@[j],
        decreases needle@.len() - i,
    {
        if text[at + i] != needle[i] {
            assert(text@.subrange(at as int, at + needle@.len())[i as int] != needle@[i as int]);
            return false;
        }
        i = i + 1;
    }
    assert(text@.subrange(at as int, at + needle@.len()) =~= needle@);
    true
}

/// The last position at which `needle` stands in `text`, if it does anywhere.
pub fn rfind(text: &str, needle: &str) -> (out: Option<usize>)
    ensures
        match out {
            Some(at) => last_occurrence(text@, needle@, at as int),
            None => forall|at: int| !#[trigger] occurs_at(text@, needle@, at),
        },
{
    let whole = chars_of(text);
    let part = chars_of(needle);
    if part.len() > whole.len() {
        return None;
    }
    let mut at: usize = whole.len() - part.len();
    loop
        invariant
            whole@ == text@,
            part@ == needle@,
            at + part@.len() <= whole@.len(),
            forall|later: int| at < later ==> !#[trigger] occurs_at(text@, needle@, later),
        decreases at,
    {
        if stands_at(&whole, &part, at) {
            return Some(at);
        }
        if at == 0 {
            return None;
        }
        at = at - 1;
    }
}

/// Whether `needle` stands anywhere in `text`.
pub open spec fn contains_text(text: Seq<char>, needle: Seq<char>) -> bool {
    exists|at: int| #[trigger] occurs_at(text, needle, at)
}

/// Whether `needle` stands anywhere in `text`.
pub fn contains(text: &str, needle: &str) -> (out: bool)
    ensures
        out == contains_text(text@, needle@),
{
    match rfind(text, needle) {
        Some(_) => true,
        None => false,
    }
}

/// The text with every trailing `/` cut off.
pub open spec fn without_trailing_slashes(text: Seq<char>) -> Seq<char>
    decreases text.len(),
{
    if text.len() > 0 && text.last() == '/' {
        without_trailing_slashes(text.drop_last())
    } else {
        text
    }
}

/// The text with every trailing `/` cut off.
pub fn trim_end_slashes(text: &str) -> (out: &str)
    ensures
        out@ == without_trailing_slashes(text@),
{
    let chars = chars_of(text);
    let mut end: usize = chars.len();
    assert(text@.take(end as int) =~= text@);
    while end > 0 && chars[end - 1] == '/'
        invariant
            end <= chars@.len(),
            chars@ == text@,
            without_trailing_slashes(text@) == without_trailing_slashes(text@.take(end as int)),
        decreases end,
    {
        assert(text@.take(end as int).drop_last() =~= text@.take(end - 1));
        end = end - 1;
    }
    assert(text@.take(end as int) =~= text@.subrange(0, end as int));
    text.substring_char(0, end)
}

/// The text before `suffix`, when the text ends with it.
pub fn strip_suffix<'a>(text: &'a str, suffix: &str) -> (out: Option<&'a str>)
    ensures
        match out {
            Some(head) => text@ == head@ + suffix@,
            None => !suffix@.is_suffix_of(text@),
        },
{
    let whole = chars_of(text);
    let tail = chars_of(suffix);
    if tail.len() > whole.len() {
        return None;
    }
    let at: usize = whole.len() - tail.len();
    if stands_at(&whole, &tail, at) {
        let head = text.substring_char(0, at);
        assert(text@ =~= head@ + suffix@);
        Some(head)
    } else {
        None
    }
}

/// Whether `text` starts with `prefix`.
pub fn starts_with(text: &str, prefix: &str) -> (out: bool)
    ensures
        out == prefix@.is_prefix_of(text@),
{
    let whole = chars_of(text);
    let head = chars_of(prefix);
    head.len() <= whole.len() && stands_at(&whole, &head, 0)
}

/// What follows the last `/` of the text; the whole text when it has none.
pub open spec fn after_last_slash(text: Seq<char>) -> Seq<char>
    decreases text.len(),
{
    if text.len() == 0 || text.last() == '/' {
        Seq::empty()
    } else {
        after_last_slash(text.drop_last()).push(text.last())
    }
}

proof fn lemma_after_last_slash(text: Seq<char>, start: int)
    requires
        0 <= start <= text.len(),
        start > 0 ==> text[start - 1] == '/',
        forall|i: int| start <= i < text.len() ==> text[i] != '/',
    ensures
        after_last_slash(text) == text.skip(start),
    decreases text.len(),
{
    if text.len() == 0 || text.last() == '/' {
        assert(start == text.len());
        assert(text.skip(start) =~= Seq::<char>::empty());
    } else {
        assert(start < text.len());
        lemma_after_last_slash(text.drop_last(), start);
        assert(text.drop_last().skip(start).push(text.last()) =~= text.skip(start));
    }
}

/// What follows a `/` is what follows the last one, when it holds none itself.
pub proof fn after_last_slash_of_joined(head: Seq<char>, tail: Seq<char>)
    requires
        !tail.contains('/'),
    ensures
        after_last_slash(head.push('/') + tail) == tail,
{
    let text = head.push('/') + tail;
    let start = head.len() as int + 1;
    assert forall|i: int| start <= i < text.len() implies text[i] != '/' by {
        assert(text[i] == tail[i - start]);
    }
    lemma_after_last_slash(text, start);
    assert(text.skip(start) =~= tail);
}

/// What follows the last `/` of the text; the whole text when it has none.
pub fn last_segment(text: &str) -> (out: &str)
    ensures
        out@ == after_last_slash(text@),
{
    let chars = chars_of(text);
    let mut start: usize = chars.len();
    while start > 0 && chars[start - 1] != '/'
        invariant
            start <= chars@.len(),
            forall|i: int| start <= i < chars@.len() ==> chars@[i] != '/',
        decreases start,
    {
        start = start - 1;
    }
    proof {
        lemma_after_last_slash(text@, start as int);
        assert(text@.subrange(start as int, text@.len() as int) =~= text@.skip(start as int));
    }
    text.substring_char(start, chars.len())
}

/// The text cut at its first `/`: what stands before it, and after it.
pub fn split_once_at_slash(text: &str) -> (out: Option<(String, String)>)
    ensures
        match out {
            Some((head, tail)) => text@ == head@ + seq!['/'] + tail@ && !head@.contains('/'),
            None => !text@.contains('/'),
        },
{
    let chars = chars_of(text);
    let mut at: usize = 0;
    while at < chars.len() && chars[at] != '/'
        invariant
            at <= chars@.len(),
            forall|i: int| 0 <= i < at ==> chars@[i] != '/',
        decreases chars@.len() - at,
    {
        at = at + 1;
    }
    if at == chars.len() {
        return None;
    }
    let head = text.substring_char(0, at).to_owned();
    let tail = text.substring_char(at + 1, chars.len()).to_owned();
    assert(text@ =~= head@ + seq!['/'] + tail@);
    Some((head, tail))
}

// ---------------------------------------------------------------------------
// Case
// ---------------------------------------------------------------------------

/// The ASCII lower-case form of a character; every other character is itself.
pub open spec fn lower_case(c: char) -> char {
    if 'A' <= c && c <= 'Z' {
        ((c as int) + 32) as char
    } else {
        c
    }
}

/// The two texts differ in nothing but the case of ASCII letters.
pub open spec fn same_but_for_case(left: Seq<char>, right: Seq<char>) -> bool {
    &&& left.len() == right.len()
    &&& forall|i: int| 0 <= i < left.len() ==> lower_case(#[trigger] left[i]) == lower_case(right[i])
}

fn lower_code(c: char) -> (out: u32)
    ensures
        out == lower_case(c) as u32,
{
    if 'A' <= c && c <= 'Z' {
        c as u32 + 32
    } else {
        c as u32
    }
}

/// Whether two texts differ in nothing but the case of ASCII letters.
pub fn eq_ignore_ascii_case(left: &str, right: &str) -> (out: bool)
    ensures
        out == same_but_for_case(left@, right@),
{
    let one = chars_of(left);
    let other = chars_of(right);
    if one.len() != other.len() {
        return false;
    }
    let mut i: usize = 0;
    while i < one.len()
        invariant
            i <= one@.len(),
            one@ == left@,
            other@ == right@,
            left@.len() == right@.len(),
            forall|j: int| 0 <= j < i ==> lower_case(#[trigger] left@[j]) == lower_case(right@[j]),
        decreases one@.len() - i,
    {
        if lower_code(one[i]) != lower_code(other[i]) {
            assert(lower_case(left@[i as int]) != lower_case(right@[i as int]));
            return false;
        }
        i = i + 1;
    }
    true
}

} // verus!
