//! The document as lines of text, and the primitive edits on it.

use crate::line::{
    char_count, char_range, clip, delete_char_range, insert_text, inserted, join3, without_range,
};
use crate::text_editor::{in_bounds, pos_le, Pos};
use vstd::prelude::*;
use vstd::string::*;

verus! {

/// `text` after `s` went into line `pos.y` before place `pos.x`.
pub open spec fn text_inserted(text: Seq<Seq<char>>, pos: Pos<usize>, s: Seq<char>) -> Seq<
    Seq<char>,
> {
    text.update(pos.y as int, inserted(text[pos.y as int], s, pos.x as int))
}

/// `text` after the character at `pos` left its line.
pub open spec fn text_char_removed(text: Seq<Seq<char>>, pos: Pos<usize>) -> Seq<Seq<char>> {
    text.update(pos.y as int, without_range(text[pos.y as int], pos.x as int, pos.x + 1))
}

/// `text` after line `pos.y` was cut at place `pos.x`: what follows the cut is
/// a line of its own, right below.
pub open spec fn text_split(text: Seq<Seq<char>>, pos: Pos<usize>) -> Seq<Seq<char>> {
    let line = text[pos.y as int];
    let cut = clip(pos.x as int, line.len() as int);
    text.update(pos.y as int, line.subrange(0, cut)).insert(
        pos.y + 1,
        line.subrange(cut, line.len() as int),
    )
}

/// `text` after line `y` was appended to the line above it.
pub open spec fn text_merged(text: Seq<Seq<char>>, y: int) -> Seq<Seq<char>> {
    text.update(y - 1, text[y - 1] + text[y]).remove(y)
}

/// `text` after what lies between `start` and `end` made way for
/// `replacement`: the lines above `start` and below `end` stay, and between
/// them stands one line, made of what preceded `start` on its line, the
/// replacement, and what followed `end` on its line.
pub open spec fn replaced(
    text: Seq<Seq<char>>,
    start: Pos<usize>,
    end: Pos<usize>,
    replacement: Seq<char>,
) -> Seq<Seq<char>> {
    let first = text[start.y as int];
    let last = text[end.y as int];
    text.subrange(0, start.y as int) + seq![
        first.subrange(0, start.x as int) + replacement + last.subrange(
            end.x as int,
            last.len() as int,
        ),
    ] + text.subrange(end.y + 1, text.len() as int)
}

/// Inserts `text_to_insert` into line `pos.y` before place `pos.x`, or at the
/// end of the line when the place lies past it.
pub fn insert_text_at(lines: &mut Vec<String>, text_to_insert: &str, pos: Pos<usize>)
    requires
        pos.y < old(lines).len(),
    ensures
        final(lines).deep_view() == text_inserted(old(lines).deep_view(), pos, text_to_insert@),
        final(lines).len() == old(lines).len(),
{
    let _ = insert_text(&mut lines[pos.y], text_to_insert, pos.x);
    assert(lines.deep_view() =~= text_inserted(old(lines).deep_view(), pos, text_to_insert@));
}

/// Deletes the character at `pos` and returns it.
pub fn remove_char_at(lines: &mut Vec<String>, pos: Pos<usize>) -> (removed: char)
    requires
        pos.y < old(lines).len(),
        pos.x < old(lines)[pos.y as int]@.len(),
    ensures
        removed == old(lines)[pos.y as int]@[pos.x as int],
        final(lines).deep_view() == text_char_removed(old(lines).deep_view(), pos),
        final(lines).len() == old(lines).len(),
{
    let len = char_count(lines[pos.y].as_str());
    let removed = lines[pos.y].as_str().get_char(pos.x);
    delete_char_range(&mut lines[pos.y], pos.x, pos.x + 1);
    assert(lines.deep_view() =~= text_char_removed(old(lines).deep_view(), pos));
    removed
}

/// Cuts line `pos.y` at place `pos.x`, or at its end when the place lies past
/// it, and puts what follows the cut on a new line right below.
pub fn split_line_at(lines: &mut Vec<String>, pos: Pos<usize>)
    requires
        pos.y < old(lines).len(),
    ensures
        final(lines).deep_view() == text_split(old(lines).deep_view(), pos),
        final(lines).len() == old(lines).len() + 1,
{
    let len = char_count(lines[pos.y].as_str());
    let cut = if pos.x <= len {
        pos.x
    } else {
        len
    };
    let rest = char_range(&lines[pos.y], cut, len).to_owned();
    delete_char_range(&mut lines[pos.y], cut, len);
    lines.insert(pos.y + 1, rest);
    assert(lines.deep_view() =~= text_split(old(lines).deep_view(), pos));
}

/// Appends line `line_index` to the line above it and takes it out of the
/// document.
pub fn merge_line_into_previous(lines: &mut Vec<String>, line_index: usize)
    requires
        0 < line_index < old(lines).len(),
    ensures
        final(lines).deep_view() == text_merged(old(lines).deep_view(), line_index as int),
        final(lines).len() == old(lines).len() - 1,
{
    let line = lines.remove(line_index);
    lines[line_index - 1].append(line.as_str());
    assert(lines.deep_view() =~= text_merged(old(lines).deep_view(), line_index as int));
}

/// Puts `replacement` in the place of what lies between `start` and `end`.
pub fn replace_range(lines: &mut Vec<String>, start: Pos<usize>, end: Pos<usize>, replacement: &str)
    requires
        in_bounds(old(lines).deep_view(), start),
        in_bounds(old(lines).deep_view(), end),
        pos_le(start, end),
    ensures
        final(lines).deep_view() == replaced(old(lines).deep_view(), start, end, replacement@),
        final(lines).len() == old(lines).len() - (end.y - start.y),
{
    assert(end.y < lines.len());
    let last_len = char_count(lines[end.y].as_str());
    let line = join3(
        char_range(&lines[start.y], 0, start.x),
        replacement,
        char_range(&lines[end.y], end.x, last_len),
    );
    let mut below = lines.split_off(end.y + 1);
    lines.truncate(start.y);
    lines.push(line);
    lines.append(&mut below);
    assert(lines.deep_view() =~= replaced(old(lines).deep_view(), start, end, replacement@));
}

} // verus!
