//! Small operations on text, stated over sequences of characters.

use vstd::prelude::*;
use vstd::std_specs::iter::IteratorSpec;
use vstd::string::{StrSliceExecFns, StringExecFns};

verus! {

/// `String::push` appends one character to the end of the string.
pub assume_specification[ String::push ](text: &mut String, c: char)
    ensures
        final(text)@ == old(text)@.push(c),
;

/// Whether two texts hold the same characters.
pub fn same_text(a: &str, b: &str) -> (same: bool)
    ensures
        same == (a@ == b@),
{
    String::from_str(a) == String::from_str(b)
}

/// Whether a character is one of the letters `a` to `z` or `A` to `Z`.
pub open spec fn is_ascii_letter(c: char) -> bool {
    ('a' <= c && c <= 'z') || ('A' <= c && c <= 'Z')
}

/// Whether a character is one of the digits `0` to `9`.
pub open spec fn is_ascii_digit(c: char) -> bool {
    '0' <= c && c <= '9'
}

/// The capital form of a letter `a` to `z`; any other character unchanged.
pub open spec fn ascii_upper(c: char) -> char {
    if 'a' <= c && c <= 'z' {
        ((c as u8 - 32) as u8) as char
    } else {
        c
    }
}

/// Computes [`is_ascii_letter`].
pub fn ascii_letter(c: char) -> (letter: bool)
    ensures
        letter == is_ascii_letter(c),
{
    ('a' <= c && c <= 'z') || ('A' <= c && c <= 'Z')
}

/// Computes [`is_ascii_digit`].
pub fn ascii_digit(c: char) -> (digit: bool)
    ensures
        digit == is_ascii_digit(c),
{
    '0' <= c && c <= '9'
}

/// Computes [`ascii_upper`].
pub fn to_ascii_upper(c: char) -> (upper: char)
    ensures
        upper == ascii_upper(c),
{
    if 'a' <= c && c <= 'z' {
        let code: u8 = c as u8;
        (code - 32) as char
    } else {
        c
    }
}

/// The pieces into which the separator cuts a text: one more than there are
/// separators in it, empty pieces included.
pub open spec fn pieces(text: Seq<char>, separator: char) -> Seq<Seq<char>>
    decreases text.len(),
{
    if text.len() == 0 {
        seq![Seq::empty()]
    } else {
        let before = pieces(text.drop_last(), separator);
        if text.last() == separator {
            before.push(Seq::empty())
        } else {
            before.drop_last().push(before.last().push(text.last()))
        }
    }
}

/// Cutting a text into pieces leaves at least one piece.
pub proof fn lemma_pieces_nonempty(text: Seq<char>, separator: char)
    ensures
        pieces(text, separator).len() >= 1,
    decreases text.len(),
{
    if text.len() > 0 {
        lemma_pieces_nonempty(text.drop_last(), separator);
    }
}

/// Cuts a text into pieces at each occurrence of the separator.
pub fn split_at(text: &str, separator: char) -> (parts: Vec<String>)
    ensures
        parts.deep_view() == pieces(text@, separator),
{
    let mut parts: Vec<String> = Vec::new();
    let mut current = String::new();
    let mut rest = text.chars();
    let ghost mut seen: int = 0;
    loop
        invariant
            0 <= seen <= text@.len(),
            rest.remaining() == text@.skip(seen),
            pieces(text@.take(seen), separator) == parts.deep_view().push(current@),
        ensures
            seen == text@.len(),
            pieces(text@.take(seen), separator) == parts.deep_view().push(current@),
        decreases text@.len() - seen,
    {
        match rest.next() {
            Some(c) => {
                proof {
                    assert(text@.take(seen + 1).drop_last() =~= text@.take(seen));
                }
                if c == separator {
                    parts.push(current);
                    current = String::new();
                } else {
                    current.push(c);
                }
                proof {
                    seen = seen + 1;
                }
            },
            None => {
                break ;
            },
        }
    }
    parts.push(current);
    parts
}

/// A line without the carriage return that it ends with, if it ends with one.
pub open spec fn without_carriage_return(line: Seq<char>) -> Seq<char> {
    if line.len() > 0 && line.last() == '\r' {
        line.drop_last()
    } else {
        line
    }
}

/// The lines of a text. A line ends with a line feed, or with a carriage
/// return and a line feed; neither belongs to the line. What follows the last
/// line feed is a line too, unless it is empty.
pub open spec fn lines_of(text: Seq<char>) -> Seq<Seq<char>> {
    let parts = pieces(text, '\n');
    let ended = parts.drop_last().map_values(|line: Seq<char>| without_carriage_return(line));
    if parts.last().len() == 0 {
        ended
    } else {
        ended.push(parts.last())
    }
}

/// Computes [`without_carriage_return`].
pub fn strip_carriage_return(line: &str) -> (stripped: String)
    ensures
        stripped@ == without_carriage_return(line@),
{
    let length = line.unicode_len();
    if length > 0 && line.get_char(length - 1) == '\r' {
        String::from_str(line.substring_char(0, length - 1))
    } else {
        String::from_str(line)
    }
}

/// Cuts a text into its lines.
pub fn lines(text: &str) -> (found: Vec<String>)
    ensures
        found.deep_view() == lines_of(text@),
{
    let mut parts = split_at(text, '\n');
    proof {
        lemma_pieces_nonempty(text@, '\n');
    }
    let ghost all = parts.deep_view();
    let last = match parts.pop() {
        Some(last) => last,
        None => String::new(),
    };
    let mut found: Vec<String> = Vec::new();
    let mut i: usize = 0;
    while i < parts.len()
        invariant
            i <= parts.len(),
            parts.deep_view() == all.drop_last(),
            found.deep_view() == all.drop_last().take(i as int).map_values(
                |line: Seq<char>| without_carriage_return(line),
            ),
        decreases parts.len() - i,
    {
        let ghost before = found.deep_view();
        let stripped = strip_carriage_return(parts[i].as_str());
        found.push(stripped);
        proof {
            assert(found.deep_view() =~= before.push(found@.last()@));
        }
        i += 1;
    }
    if last.as_str().unicode_len() > 0 {
        let ghost before = found.deep_view();
        found.push(last);
        assert(found.deep_view() =~= before.push(found@.last()@));
    }
    found
}

/// Whether a text begins with a part.
pub fn starts_with(text: &str, part: &str) -> (found: bool)
    ensures
        found == part@.is_prefix_of(text@),
{
    let length = part.unicode_len();
    if text.unicode_len() < length {
        false
    } else {
        same_text(text.substring_char(0, length), part)
    }
}

/// Whether a text ends with a part.
pub fn ends_with(text: &str, part: &str) -> (found: bool)
    ensures
        found == part@.is_suffix_of(text@),
{
    let length = part.unicode_len();
    let whole = text.unicode_len();
    if whole < length {
        false
    } else {
        same_text(text.substring_char(whole - length, whole), part)
    }
}

/// A text without the copies of a part that it begins with, however many
/// follow one another.
pub open spec fn without_leading(text: Seq<char>, part: Seq<char>) -> Seq<char>
    decreases text.len(),
{
    if part.len() > 0 && part.is_prefix_of(text) {
        without_leading(text.skip(part.len() as int), part)
    } else {
        text
    }
}

/// A text without the copies of a part that it ends with, however many
/// follow one another.
pub open spec fn without_trailing(text: Seq<char>, part: Seq<char>) -> Seq<char>
    decreases text.len(),
{
    if part.len() > 0 && part.is_suffix_of(text) {
        without_trailing(text.take(text.len() - part.len()), part)
    } else {
        text
    }
}

/// Computes [`without_leading`].
pub fn strip_leading<'a>(text: &'a str, part: &str) -> (rest: &'a str)
    ensures
        rest@ == without_leading(text@, part@),
{
    let length = part.unicode_len();
    if length == 0 {
        return text;
    }
    let mut rest = text;
    while starts_with(rest, part)
        invariant
            length == part@.len(),
            length > 0,
            without_leading(text@, part@) == without_leading(rest@, part@),
        decreases rest@.len(),
    {
        rest = rest.substring_char(length, rest.unicode_len());
    }
    rest
}

/// Computes [`without_trailing`].
pub fn strip_trailing<'a>(text: &'a str, part: &str) -> (rest: &'a str)
    ensures
        rest@ == without_trailing(text@, part@),
{
    let length = part.unicode_len();
    if length == 0 {
        return text;
    }
    let mut rest = text;
    while ends_with(rest, part)
        invariant
            length == part@.len(),
            length > 0,
            without_trailing(text@, part@) == without_trailing(rest@, part@),
        decreases rest@.len(),
    {
        rest = rest.substring_char(0, rest.unicode_len() - length);
    }
    rest
}

} // verus!
