//! Character-indexed editing of a single line of text.

use eframe::egui::TextBuffer;
use vstd::prelude::*;
use vstd::string::*;

verus! {

/// `i` limited to `len`.
pub open spec fn clip(i: int, len: int) -> int {
    if i <= len {
        i
    } else {
        len
    }
}

/// `line` with `text` spliced in before character `at`, or appended when `at`
/// lies past the end.
pub open spec fn inserted(line: Seq<char>, text: Seq<char>, at: int) -> Seq<char> {
    let i = clip(at, line.len() as int);
    line.subrange(0, i) + text + line.subrange(i, line.len() as int)
}

/// `line` without the characters `start..end`, both limited to the line.
pub open spec fn without_range(line: Seq<char>, start: int, end: int) -> Seq<char> {
    let n = line.len() as int;
    line.subrange(0, clip(start, n)) + line.subrange(clip(end, n), n)
}

/// The characters `start..end` of `line`, both limited to the line.
pub open spec fn char_slice(line: Seq<char>, start: int, end: int) -> Seq<char> {
    let n = line.len() as int;
    line.subrange(clip(start, n), clip(end, n))
}

/// Calls `egui::TextBuffer::insert_text` on a `String`: `text` is inserted
/// before the character at `char_index`, or appended when the index is past
/// the end, and the number of characters of `text` is returned.
#[verifier::external_body]
pub(crate) fn insert_text(line: &mut String, text: &str, char_index: usize) -> (count: usize)
    ensures
        final(line)@ == inserted(old(line)@, text@, char_index as int),
        count == text@.len(),
{
    line.insert_text(text, char_index)
}

/// Calls `egui::TextBuffer::delete_char_range` on a `String` with the range
/// `start..end`: the characters in that range leave the line; each bound past
/// the end counts as the end. The outside function panics on an inverted
/// range, which `requires` leaves out.
#[verifier::external_body]
pub(crate) fn delete_char_range(line: &mut String, start: usize, end: usize)
    requires
        start <= end,
    ensures
        final(line)@ == without_range(old(line)@, start as int, end as int),
{
    line.delete_char_range(start..end)
}

/// Calls `egui::TextBuffer::char_range` on a `String` with the range
/// `start..end`: the characters in that range are returned; each bound past
/// the end counts as the end. The outside function panics on an inverted
/// range, which `requires` leaves out.
#[verifier::external_body]
pub(crate) fn char_range<'a>(line: &'a String, start: usize, end: usize) -> (part: &'a str)
    requires
        start <= end,
    ensures
        part@ == char_slice(line@, start as int, end as int),
{
    line.char_range(start..end)
}

/// Calls `String::from` on a character: the text of that one character.
#[verifier::external_body]
pub(crate) fn char_text(c: char) -> (text: String)
    ensures
        text@ == seq![c],
{
    String::from(c)
}

/// The characters of `s`, one element each.
pub fn to_chars(s: &str) -> (v: Vec<char>)
    ensures
        v@ == s@,
{
    let mut v: Vec<char> = Vec::new();
    for c in it: s.chars()
        invariant
            v@ == it.seq().take(it.index()),
            it.seq() == s@,
    {
        v.push(c);
    }
    v
}

/// The number of characters of `s`.
pub fn char_count(s: &str) -> (n: usize)
    ensures
        n == s@.len(),
{
    s.unicode_len()
}

/// The three pieces joined into one line.
pub fn join3(a: &str, b: &str, c: &str) -> (line: String)
    ensures
        line@ == a@ + b@ + c@,
{
    let mut line = String::from_str(a);
    line.append(b);
    line.append(c);
    line
}

} // verus!
