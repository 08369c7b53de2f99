//! Text handling for the command line: trimming and splitting, stated over
//! sequences of characters.

use vstd::prelude::*;
use vstd::string::{StrSliceExecFns, StringExecFns};

verus! {

/// Whether a character is white space, as `char::is_whitespace` tells it.
pub uninterp spec fn spec_is_whitespace(c: char) -> bool;

/// Calls `char::is_whitespace`. The answer depends on the character alone.
#[verifier::external_body]
pub(crate) fn is_whitespace(c: char) -> (yes: bool)
    ensures
        yes == spec_is_whitespace(c),
{
    c.is_whitespace()
}

/// The character that stands for a digit.
pub open spec fn spec_digit(digit: int) -> char {
    if digit == 0 {
        '0'
    } else if digit == 1 {
        '1'
    } else if digit == 2 {
        '2'
    } else if digit == 3 {
        '3'
    } else if digit == 4 {
        '4'
    } else if digit == 5 {
        '5'
    } else if digit == 6 {
        '6'
    } else if digit == 7 {
        '7'
    } else if digit == 8 {
        '8'
    } else {
        '9'
    }
}

/// A number below 256 in decimal digits, without leading zeros.
pub open spec fn spec_decimal(number: u8) -> Seq<char> {
    if number < 10 {
        seq![spec_digit(number as int)]
    } else if number < 100 {
        seq![spec_digit(number as int / 10), spec_digit(number as int % 10)]
    } else {
        seq![
            spec_digit(number as int / 100),
            spec_digit(number as int / 10 % 10),
            spec_digit(number as int % 10),
        ]
    }
}

/// The text of one digit.
fn digit(value: u8) -> (text: &'static str)
    requires
        value < 10,
    ensures
        text@ == seq![spec_digit(value as int)],
{
    proof {
        reveal_strlit("0");
        reveal_strlit("1");
        reveal_strlit("2");
        reveal_strlit("3");
        reveal_strlit("4");
        reveal_strlit("5");
        reveal_strlit("6");
        reveal_strlit("7");
        reveal_strlit("8");
        reveal_strlit("9");
    }
    match value {
        0 => "0",
        1 => "1",
        2 => "2",
        3 => "3",
        4 => "4",
        5 => "5",
        6 => "6",
        7 => "7",
        8 => "8",
        _ => "9",
    }
}

/// Writes a number in decimal digits.
pub fn decimal(number: u8) -> (text: String)
    ensures
        text@ == spec_decimal(number),
{
    let mut text = String::new();
    if number >= 100 {
        text.append(digit(number / 100));
    }
    if number >= 10 {
        text.append(digit(number / 10 % 10));
    }
    text.append(digit(number % 10));
    text
}

/// A text without the white space it begins with.
pub open spec fn spec_trim_start(text: Seq<char>) -> Seq<char>
    decreases text.len(),
{
    if text.len() > 0 && spec_is_whitespace(text[0]) {
        spec_trim_start(text.drop_first())
    } else {
        text
    }
}

/// A text without the white space it ends with.
pub open spec fn spec_trim_end(text: Seq<char>) -> Seq<char>
    decreases text.len(),
{
    if text.len() > 0 && spec_is_whitespace(text.last()) {
        spec_trim_end(text.drop_last())
    } else {
        text
    }
}

/// A text without the white space around it.
pub open spec fn spec_trim(text: Seq<char>) -> Seq<char> {
    spec_trim_end(spec_trim_start(text))
}

/// The parts of a text between the occurrences of a separator, in order. A
/// text without the separator is one part; a text with `n` separators has
/// `n + 1` parts, some of which may be empty.
pub open spec fn spec_split(text: Seq<char>, separator: char) -> Seq<Seq<char>>
    decreases text.len(),
{
    if text.len() == 0 {
        seq![Seq::<char>::empty()]
    } else {
        let before = spec_split(text.drop_last(), separator);
        if text.last() == separator {
            before.push(Seq::<char>::empty())
        } else {
            before.drop_last().push(before.last().push(text.last()))
        }
    }
}

/// The parts put together again, with the separator between each part and
/// the next.
pub open spec fn spec_join(parts: Seq<Seq<char>>, separator: char) -> Seq<char>
    decreases parts.len(),
{
    if parts.len() == 0 {
        Seq::empty()
    } else if parts.len() == 1 {
        parts[0]
    } else {
        spec_join(parts.drop_last(), separator) + seq![separator] + parts.last()
    }
}

/// There is always at least one part.
pub proof fn lemma_split_is_not_empty(text: Seq<char>, separator: char)
    ensures
        spec_split(text, separator).len() >= 1,
    decreases text.len(),
{
    if text.len() > 0 {
        lemma_split_is_not_empty(text.drop_last(), separator);
    }
}

/// No part holds the separator.
pub proof fn lemma_split_parts_hold_no_separator(text: Seq<char>, separator: char)
    ensures
        forall|i: int, j: int|
            0 <= i < spec_split(text, separator).len() && 0 <= j < spec_split(
                text,
                separator,
            )[i].len() ==> (#[trigger] spec_split(text, separator)[i][j]) != separator,
    decreases text.len(),
{
    if text.len() > 0 {
        lemma_split_parts_hold_no_separator(text.drop_last(), separator);
        lemma_split_is_not_empty(text.drop_last(), separator);
    }
}

/// Splitting loses nothing: the parts, put together again with the separator
/// between them, are the text. With the fact that no part holds the
/// separator, this says which parts a text has.
pub proof fn law_split_then_join(text: Seq<char>, separator: char)
    ensures
        spec_join(spec_split(text, separator), separator) == text,
    decreases text.len(),
{
    if text.len() > 0 {
        let shorter = text.drop_last();
        let before = spec_split(shorter, separator);
        let parts = spec_split(text, separator);
        law_split_then_join(shorter, separator);
        lemma_split_is_not_empty(shorter, separator);
        if text.last() == separator {
            assert(parts.drop_last() =~= before);
        } else if before.len() > 1 {
            assert(parts.drop_last() =~= before.drop_last());
        }
        assert(shorter.push(text.last()) =~= text);
    }
}

/// What is trimmed from the left keeps its end: the last character stays
/// the last, unless nothing is left.
proof fn lemma_trim_start_keeps_end(text: Seq<char>)
    ensures
        spec_trim_start(text).len() <= text.len(),
        spec_trim_start(text).len() > 0 ==> spec_trim_start(text).last() == text.last()
            && !spec_is_whitespace(spec_trim_start(text)[0]),
    decreases text.len(),
{
    if text.len() > 0 && spec_is_whitespace(text[0]) {
        lemma_trim_start_keeps_end(text.drop_first());
    }
}

/// What is trimmed from the right keeps its beginning: the first character
/// stays the first, unless nothing is left.
proof fn lemma_trim_end_keeps_start(text: Seq<char>)
    ensures
        spec_trim_end(text).len() <= text.len(),
        spec_trim_end(text).len() > 0 ==> spec_trim_end(text)[0] == text[0] && !spec_is_whitespace(
            spec_trim_end(text).last(),
        ),
    decreases text.len(),
{
    if text.len() > 0 && spec_is_whitespace(text.last()) {
        lemma_trim_end_keeps_start(text.drop_last());
    }
}

/// A trimmed text neither begins nor ends with white space, and trimming it
/// again changes nothing.
pub proof fn law_trimmed_has_bare_ends(text: Seq<char>)
    ensures
        spec_trim(text).len() <= text.len(),
        spec_trim(text).len() > 0 ==> !spec_is_whitespace(spec_trim(text)[0])
            && !spec_is_whitespace(spec_trim(text).last()),
        spec_trim(spec_trim(text)) == spec_trim(text),
{
    lemma_trim_start_keeps_end(text);
    lemma_trim_end_keeps_start(spec_trim_start(text));
}

/// Trimming from the left skips white space one character at a time.
proof fn lemma_trim_start_skips(text: Seq<char>, from: int)
    requires
        0 <= from < text.len(),
        spec_is_whitespace(text[from]),
    ensures
        spec_trim_start(text.skip(from)) == spec_trim_start(text.skip(from + 1)),
{
    assert(text.skip(from).drop_first() =~= text.skip(from + 1));
}

/// Trimming from the right drops white space one character at a time.
proof fn lemma_trim_end_drops(text: Seq<char>, to: int)
    requires
        0 < to <= text.len(),
        spec_is_whitespace(text[to - 1]),
    ensures
        spec_trim_end(text.take(to)) == spec_trim_end(text.take(to - 1)),
{
    assert(text.take(to).drop_last() =~= text.take(to - 1));
}

/// Returns the text without the white space around it.
pub fn trim(text: &str) -> (trimmed: &str)
    ensures
        trimmed@ == spec_trim(text@),
{
    let length = text.unicode_len();
    let mut start: usize = 0;
    assert(text@.skip(0) =~= text@);
    while start < length && is_whitespace(text.get_char(start))
        invariant
            0 <= start <= length,
            length == text@.len(),
            spec_trim_start(text@) == spec_trim_start(text@.skip(start as int)),
        decreases length - start,
    {
        proof {
            lemma_trim_start_skips(text@, start as int);
        }
        start += 1;
    }
    let ghost rest = text@.skip(start as int);
    assert(spec_trim_start(text@) == rest);
    let mut end: usize = length;
    assert(rest.take(length - start) =~= rest);
    while end > start && is_whitespace(text.get_char(end - 1))
        invariant
            start <= end <= length,
            length == text@.len(),
            rest == text@.skip(start as int),
            spec_trim_end(rest) == spec_trim_end(rest.take(end - start)),
        decreases end - start,
    {
        proof {
            lemma_trim_end_drops(rest, end - start);
        }
        end -= 1;
    }
    assert(spec_trim_end(rest) == rest.take(end - start));
    text.substring_char(start, end)
}

/// Splits a text at every occurrence of a separator.
pub fn split(text: &str, separator: char) -> (parts: Vec<String>)
    ensures
        parts.deep_view() == spec_split(text@, separator),
        parts@.len() >= 1,
{
    let length = text.unicode_len();
    let mut parts: Vec<String> = Vec::new();
    let mut begin: usize = 0;
    let mut at: usize = 0;
    assert(text@.subrange(0, 0) =~= Seq::<char>::empty());
    while at < length
        invariant
            0 <= begin <= at <= length,
            length == text@.len(),
            parts.deep_view().push(text@.subrange(begin as int, at as int)) == spec_split(
                text@.take(at as int),
                separator,
            ),
        decreases length - at,
    {
        assert(text@.take(at + 1).drop_last() =~= text@.take(at as int));
        if text.get_char(at) == separator {
            parts.push(text.substring_char(begin, at).to_owned());
            begin = at + 1;
            assert(text@.subrange(begin as int, at + 1) =~= Seq::<char>::empty());
        } else {
            assert(text@.subrange(begin as int, at + 1) =~= text@.subrange(
                begin as int,
                at as int,
            ).push(text@[at as int]));
        }
        at += 1;
    }
    assert(text@.take(length as int) =~= text@);
    parts.push(text.substring_char(begin, length).to_owned());
    parts
}

} // verus!
