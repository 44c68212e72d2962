//! Words: where one begins and ends, and where a word occurs on a line.

use crate::text_editor::Pos;
use vstd::prelude::*;

verus! {

/// Whether `char::is_alphanumeric` holds of a character.
pub uninterp spec fn char_is_alphanumeric(c: char) -> bool;

/// Calls `char::is_alphanumeric`: whether the character is a letter or a
/// number as Unicode has it.
#[verifier::external_body]
fn is_alphanumeric(c: char) -> (yes: bool)
    ensures
        yes == char_is_alphanumeric(c),
{
    c.is_alphanumeric()
}

/// A character that ends a word: neither a letter nor a number, nor one of
/// `_` and `-`.
pub open spec fn non_word(c: char) -> bool {
    !char_is_alphanumeric(c) && c != '_' && c != '-'
}

/// Where the word around place `x` begins: right after the last character
/// before `x` that ends a word, or at the start of the line.
pub open spec fn word_start(line: Seq<char>, x: int) -> int
    decreases x,
{
    if x <= 0 {
        0
    } else if x - 1 < line.len() && non_word(line[x - 1]) {
        x
    } else {
        word_start(line, x - 1)
    }
}

/// The first place from `from` on whose character ends a word, or the end of
/// the line.
pub open spec fn next_delimiter(line: Seq<char>, from: int) -> int
    decreases line.len() - from,
{
    if from < 0 || from >= line.len() {
        line.len() as int
    } else if non_word(line[from]) {
        from
    } else {
        next_delimiter(line, from + 1)
    }
}

/// Where the word around place `x` ends: at the first character from `x` on
/// that ends a word, or at the end of the line; and at the end of the line
/// too where that character is the first one of the line.
pub open spec fn word_end(line: Seq<char>, x: int) -> int {
    let end = next_delimiter(line, x);
    if end == 0 {
        line.len() as int
    } else {
        end
    }
}

/// `word` stands on `line` right after place `s`, whose character ends a
/// word, and is followed by the end of the line or by another such
/// character; `word` itself holds no such character.
pub open spec fn occurs_after(line: Seq<char>, word: Seq<char>, s: int) -> bool {
    &&& 0 <= s
    &&& s + 1 + word.len() <= line.len()
    &&& non_word(line[s])
    &&& line.subrange(s + 1, s + 1 + word.len()) == word
    &&& forall|k: int| 0 <= k < word.len() ==> !non_word(#[trigger] word[k])
    &&& (s + 1 + word.len() == line.len() || non_word(line[s + 1 + word.len()]))
}

/// The places where `word` occurs on line `y` after one of the first `upto`
/// characters, each from its first character to the place after its last,
/// in reading order. An empty word occurs nowhere.
pub open spec fn occurrences(line: Seq<char>, word: Seq<char>, y: usize, upto: int) -> Seq<
    (Pos<usize>, Pos<usize>),
>
    decreases upto,
{
    if upto <= 0 || word.len() == 0 {
        Seq::empty()
    } else {
        let before = occurrences(line, word, y, upto - 1);
        if occurs_after(line, word, upto - 1) {
            before.push(
                (Pos { x: upto as usize, y }, Pos { x: (upto + word.len()) as usize, y }),
            )
        } else {
            before
        }
    }
}

/// Whether `c` ends a word.
pub fn is_char_non_part_of_word(c: char) -> (yes: bool)
    ensures
        yes == non_word(c),
{
    !is_alphanumeric(c) && c != '_' && c != '-'
}

/// Where the word around place `x` of `line` begins and ends.
pub fn word_bounds(line: &Vec<char>, x: usize) -> (bounds: (usize, usize))
    ensures
        bounds.0 == word_start(line@, x as int),
        bounds.1 == word_end(line@, x as int),
        bounds.0 <= bounds.1 <= line@.len(),
{
    let mut start: usize = 0;
    let mut i: usize = 0;
    while i < line.len() && i < x
        invariant
            i <= line.len(),
            i <= x,
            start <= i,
            start == word_start(line@, i as int),
        decreases line.len() - i,
    {
        if is_char_non_part_of_word(line[i]) {
            start = i + 1;
        }
        i += 1;
    }
    proof {
        lemma_word_start_past_end(line@, i as int, x as int);
    }
    let mut end: usize = i;
    while end < line.len() && !is_char_non_part_of_word(line[end])
        invariant
            i <= end <= line.len(),
            i == x || i == line.len(),
            next_delimiter(line@, x as int) == next_delimiter(line@, end as int) || (x
                >= line.len() && end == line.len()),
        decreases line.len() - end,
    {
        end += 1;
    }
    if end == 0 {
        end = line.len();
    }
    (start, end)
}

/// Past the end of the line the start of the word does not move.
proof fn lemma_word_start_past_end(line: Seq<char>, len: int, x: int)
    requires
        len == x || (len == line.len() && len <= x),
    ensures
        word_start(line, x) == word_start(line, len),
    decreases x,
{
    if len < x {
        lemma_word_start_past_end(line, len, x - 1);
    }
}

/// `line[from..from + word.len()]` is `word`, and no character of it ends a
/// word.
fn stands_at(line: &Vec<char>, word: &Vec<char>, from: usize) -> (yes: bool)
    requires
        from + word@.len() <= line@.len(),
    ensures
        yes == (line@.subrange(from as int, from + word@.len()) == word@ && forall|k: int|
            0 <= k < word@.len() ==> !non_word(#[trigger] word@[k])),
{
    let mut k: usize = 0;
    while k < word.len()
        invariant
            k <= word.len(),
            from + word@.len() <= line.len(),
            line@.subrange(from as int, from + k) == word@.take(k as int),
            forall|j: int| 0 <= j < k ==> !non_word(#[trigger] word@[j]),
        decreases word.len() - k,
    {
        if line[from + k] != word[k] || is_char_non_part_of_word(word[k]) {
            proof {
                if line@[from + k] != word@[k as int] {
                    assert(line@.subrange(from as int, from + word@.len())[k as int] == line@[from
                        + k]);
                }
            }
            return false;
        }
        assert(line@.subrange(from as int, from + k + 1) =~= word@.take(k + 1));
        k += 1;
    }
    assert(word@.take(k as int) =~= word@);
    true
}

/// The places where `word` occurs on `line`, which is line `y`.
pub fn word_occurrences(line: &Vec<char>, word: &Vec<char>, y: usize) -> (found: Vec<
    (Pos<usize>, Pos<usize>),
>)
    ensures
        found@ == occurrences(line@, word@, y, line@.len() as int),
{
    let mut found: Vec<(Pos<usize>, Pos<usize>)> = Vec::new();
    if word.len() == 0 {
        return found;
    }
    let mut s: usize = 0;
    while s < line.len()
        invariant
            s <= line.len(),
            word@.len() > 0,
            found@ == occurrences(line@, word@, y, s as int),
        decreases line.len() - s,
    {
        if is_char_non_part_of_word(line[s]) && word.len() <= line.len() - s - 1 {
            let end = s + 1 + word.len();
            if (end == line.len() || is_char_non_part_of_word(line[end])) && stands_at(
                line,
                word,
                s + 1,
            ) {
                found.push((Pos { x: s + 1, y }, Pos { x: end, y }));
            }
        }
        s += 1;
    }
    found
}

} // verus!
