//! Finding the partner of the bracket left of the caret.

use crate::line::{clip, to_chars};
use crate::text_editor::{EditorModel, Pos, TextEditor};
use crate::viewport::ViewportWindow;
use vstd::prelude::*;

verus! {

/// What is known of the bracket left of the caret and of its partner.
#[derive(Clone, Copy, Debug, PartialEq, Eq)]
pub enum BracketMatch {
    /// No bracket stands left of the caret.
    Idle,
    /// An opening bracket stands left of the caret; its partner is not found yet.
    SeekingClose { opening: char, opening_index: Pos<usize> },
    /// A closing bracket stands left of the caret; its partner is not found yet.
    SeekingOpen { closing: char, closing_index: Pos<usize> },
    /// Both brackets are known.
    Matched { opening: char, opening_index: Pos<usize>, closing: char, closing_index: Pos<usize> },
}

pub open spec fn is_opening(c: char) -> bool {
    c == '{' || c == '(' || c == '['
}

pub open spec fn is_closing(c: char) -> bool {
    c == '}' || c == ')' || c == ']'
}

/// The closing bracket of an opening one; any other character is its own.
pub open spec fn closing_of(opening: char) -> char {
    if opening == '{' {
        '}'
    } else if opening == '(' {
        ')'
    } else if opening == '[' {
        ']'
    } else {
        opening
    }
}

/// The opening bracket of a closing one; any other character is its own.
pub open spec fn opening_of(closing: char) -> char {
    if closing == '}' {
        '{'
    } else if closing == ')' {
        '('
    } else if closing == ']' {
        '['
    } else {
        closing
    }
}

/// The state the matcher takes when the caret comes to rest at `cursor`: it
/// goes by the character left of the caret.
pub open spec fn adjacent_bracket(text: Seq<Seq<char>>, cursor: Pos<usize>) -> BracketMatch {
    if cursor.x == 0 || cursor.y >= text.len() || cursor.x > text[cursor.y as int].len() {
        BracketMatch::Idle
    } else {
        let c = text[cursor.y as int][cursor.x - 1];
        let at = Pos { x: (cursor.x - 1) as usize, y: cursor.y };
        if is_opening(c) {
            BracketMatch::SeekingClose { opening: c, opening_index: at }
        } else if is_closing(c) {
            BracketMatch::SeekingOpen { closing: c, closing_index: at }
        } else {
            BracketMatch::Idle
        }
    }
}

pub fn matching_closing_char(opening: char) -> (closing: char)
    ensures
        closing == closing_of(opening),
{
    if opening == '{' {
        '}'
    } else if opening == '(' {
        ')'
    } else if opening == '[' {
        ']'
    } else {
        opening
    }
}

pub fn matching_opening_char(closing: char) -> (opening: char)
    ensures
        opening == opening_of(closing),
{
    if closing == '}' {
        '{'
    } else if closing == ')' {
        '('
    } else if closing == ']' {
        '['
    } else {
        closing
    }
}

/// The nesting counter after `c` was read: one more for a bracket like the
/// one at the caret, one less for a bracket of the other side. The counter
/// stays where it is at the ends of its range.
pub open spec fn depth_after(depth: i64, c: char, same: char, partner: char) -> i64 {
    if c == same {
        if depth < i64::MAX {
            (depth + 1) as i64
        } else {
            depth
        }
    } else if c == partner {
        if depth > i64::MIN {
            (depth - 1) as i64
        } else {
            depth
        }
    } else {
        depth
    }
}

/// Reading forward from place `x` of line `y` up to, and without, line
/// `last`: the first closing bracket that brings the counter to zero.
pub open spec fn seek_close(
    text: Seq<Seq<char>>,
    opening: char,
    y: int,
    x: int,
    depth: i64,
    last: int,
) -> Option<Pos<usize>>
    decreases last - y, text[y].len() - x,
{
    if y < 0 || x < 0 || y >= last || y >= text.len() {
        None
    } else if x >= text[y].len() {
        seek_close(text, opening, y + 1, 0, depth, last)
    } else {
        let c = text[y][x];
        let d = depth_after(depth, c, opening, closing_of(opening));
        if c == closing_of(opening) && d == 0 {
            Some(Pos { x: x as usize, y: y as usize })
        } else {
            seek_close(text, opening, y, x + 1, d, last)
        }
    }
}

/// Reading backward from the character before place `n` of line `y` down to
/// line `first`: the first opening bracket that brings the counter to zero.
pub open spec fn seek_open(
    text: Seq<Seq<char>>,
    closing: char,
    y: int,
    n: int,
    depth: i64,
    first: int,
) -> Option<Pos<usize>>
    decreases y, n,
{
    if y < 0 || y < first || y >= text.len() || n > text[y].len() {
        None
    } else if n <= 0 {
        if y == 0 {
            None
        } else {
            seek_open(text, closing, y - 1, text[y - 1].len() as int, depth, first)
        }
    } else {
        let c = text[y][n - 1];
        let d = depth_after(depth, c, closing, opening_of(closing));
        if c == opening_of(closing) && d == 0 {
            Some(Pos { x: (n - 1) as usize, y: y as usize })
        } else {
            seek_open(text, closing, y, n - 1, d, first)
        }
    }
}

/// The partner of the opening bracket at `at`, as far as the lines
/// `first..last` show it: the search starts at the bracket, or at the first
/// of these lines when the bracket stands above them.
pub open spec fn find_close(
    text: Seq<Seq<char>>,
    opening: char,
    at: Pos<usize>,
    first: int,
    last: int,
) -> Option<Pos<usize>> {
    if at.y >= first {
        seek_close(text, opening, at.y as int, at.x as int, 0, last)
    } else {
        seek_close(text, opening, first, 0, 0, last)
    }
}

/// The line on which the search for an opening bracket starts.
pub open spec fn open_start_line(text: Seq<Seq<char>>, at: Pos<usize>, last: int) -> int {
    let bound = clip(last, text.len() as int);
    if at.y < bound {
        at.y as int
    } else {
        bound - 1
    }
}

/// The partner of the closing bracket at `at`, as far as the lines
/// `first..last` show it: the search starts at the bracket, or at the end of
/// the last of these lines when the bracket stands below them.
pub open spec fn find_open(
    text: Seq<Seq<char>>,
    closing: char,
    at: Pos<usize>,
    first: int,
    last: int,
) -> Option<Pos<usize>> {
    let y = open_start_line(text, at, last);
    if y < 0 {
        None
    } else if y == at.y {
        seek_open(text, closing, y, clip(at.x + 1, text[y].len() as int), 0, first)
    } else {
        seek_open(text, closing, y, text[y].len() as int, 0, first)
    }
}

impl EditorModel {
    /// The matcher after it looked for a closing bracket in the lines of
    /// `window`; it changes only where it was seeking one and found it.
    pub open spec fn seek_closing(self, window: ViewportWindow) -> EditorModel {
        match self.bracket {
            BracketMatch::SeekingClose { opening, opening_index } => match find_close(
                self.text,
                opening,
                opening_index,
                window.first_line_index as int,
                window.last_line_index as int,
            ) {
                Some(closing_index) => EditorModel {
                    bracket: BracketMatch::Matched {
                        opening,
                        opening_index,
                        closing: closing_of(opening),
                        closing_index,
                    },
                    ..self
                },
                None => self,
            },
            _ => self,
        }
    }

    /// The matcher after it looked for an opening bracket in the lines of
    /// `window`; it changes only where it was seeking one and found it.
    pub open spec fn seek_opening(self, window: ViewportWindow) -> EditorModel {
        match self.bracket {
            BracketMatch::SeekingOpen { closing, closing_index } => match find_open(
                self.text,
                closing,
                closing_index,
                window.first_line_index as int,
                window.last_line_index as int,
            ) {
                Some(opening_index) => EditorModel {
                    bracket: BracketMatch::Matched {
                        opening: opening_of(closing),
                        opening_index,
                        closing,
                        closing_index,
                    },
                    ..self
                },
                None => self,
            },
            _ => self,
        }
    }
}

/// The nesting counter after `c` was read.
fn step_depth(depth: i64, c: char, same: char, partner: char) -> (d: i64)
    ensures
        d == depth_after(depth, c, same, partner),
{
    if c == same {
        if depth < i64::MAX {
            depth + 1
        } else {
            depth
        }
    } else if c == partner {
        if depth > i64::MIN {
            depth - 1
        } else {
            depth
        }
    } else {
        depth
    }
}

/// Looks for the partner of the opening bracket at `at` in the lines of
/// `window`.
pub fn closing_match(lines: &Vec<String>, opening: char, at: Pos<usize>, window: ViewportWindow) -> (
    found: Option<Pos<usize>>
)
    ensures
        found == find_close(
            lines.deep_view(),
            opening,
            at,
            window.first_line_index as int,
            window.last_line_index as int,
        ),
{
    let ghost text = lines.deep_view();
    let ghost last = window.last_line_index as int;
    let partner = matching_closing_char(opening);
    let count = lines.len();
    let mut y: usize = if at.y >= window.first_line_index {
        at.y
    } else {
        window.first_line_index
    };
    let mut x: usize = if at.y >= window.first_line_index {
        at.x
    } else {
        0
    };
    let mut depth: i64 = 0;
    let ghost wanted = seek_close(text, opening, y as int, x as int, 0, last);
    while y < window.last_line_index && y < count
        invariant
            wanted == find_close(text, opening, at, window.first_line_index as int, last),
            text == lines.deep_view(),
            count == lines.len(),
            last == window.last_line_index,
            partner == closing_of(opening),
            wanted == seek_close(text, opening, y as int, x as int, depth, last),
        decreases count - y,
    {
        let chars = to_chars(lines[y].as_str());
        while x < chars.len()
            invariant
                wanted == find_close(text, opening, at, window.first_line_index as int, last),
                text == lines.deep_view(),
                y < window.last_line_index,
                y < count,
                count == lines.len(),
                last == window.last_line_index,
                chars@ == text[y as int],
                partner == closing_of(opening),
                wanted == seek_close(text, opening, y as int, x as int, depth, last),
            decreases chars.len() - x,
        {
            let c = chars[x];
            depth = step_depth(depth, c, opening, partner);
            if c == partner && depth == 0 {
                return Some(Pos { x, y });
            }
            x += 1;
        }
        y += 1;
        x = 0;
    }
    None
}

/// Looks for the partner of the closing bracket at `at` in the lines of
/// `window`.
pub fn opening_match(lines: &Vec<String>, closing: char, at: Pos<usize>, window: ViewportWindow) -> (
    found: Option<Pos<usize>>
)
    ensures
        found == find_open(
            lines.deep_view(),
            closing,
            at,
            window.first_line_index as int,
            window.last_line_index as int,
        ),
{
    let ghost text = lines.deep_view();
    let ghost first = window.first_line_index as int;
    let partner = matching_opening_char(closing);
    let count = lines.len();
    let bound = if window.last_line_index <= count {
        window.last_line_index
    } else {
        count
    };
    if bound == 0 {
        return None;
    }
    let mut y: usize = if at.y < bound {
        at.y
    } else {
        bound - 1
    };
    let mut chars = to_chars(lines[y].as_str());
    let mut n: usize = if y == at.y && at.x < chars.len() {
        at.x + 1
    } else {
        chars.len()
    };
    let mut depth: i64 = 0;
    let ghost wanted = seek_open(text, closing, y as int, n as int, 0, first);
    loop
        invariant
            wanted == find_open(text, closing, at, first, window.last_line_index as int),
            text == lines.deep_view(),
            count == lines.len(),
            first == window.first_line_index,
            partner == opening_of(closing),
            y < count,
            chars@ == text[y as int],
            n <= chars.len(),
            wanted == seek_open(text, closing, y as int, n as int, depth, first),
        decreases y, n,
    {
        if y < window.first_line_index {
            return None;
        }
        if n == 0 {
            if y == 0 {
                return None;
            }
            y -= 1;
            chars = to_chars(lines[y].as_str());
            n = chars.len();
        } else {
            let c = chars[n - 1];
            depth = step_depth(depth, c, closing, partner);
            if c == partner && depth == 0 {
                return Some(Pos { x: n - 1, y });
            }
            n -= 1;
        }
    }
}

impl TextEditor {
    /// Looks for the closing bracket in the lines of `window`, where the
    /// matcher is seeking one.
    pub fn find_closing_matching_char(&mut self, window: ViewportWindow)
        ensures
            final(self).model() == old(self).model().seek_closing(window),
            old(self).model().wf() ==> final(self).model().wf(),
    {
        if let BracketMatch::SeekingClose { opening, opening_index } = self.bracket {
            if let Some(closing_index) = closing_match(&self.lines, opening, opening_index, window) {
                self.bracket = BracketMatch::Matched {
                    opening,
                    opening_index,
                    closing: matching_closing_char(opening),
                    closing_index,
                };
            }
        }
    }

    /// Looks for the opening bracket in the lines of `window`, where the
    /// matcher is seeking one.
    pub fn find_opening_matching_char(&mut self, window: ViewportWindow)
        ensures
            final(self).model() == old(self).model().seek_opening(window),
            old(self).model().wf() ==> final(self).model().wf(),
    {
        if let BracketMatch::SeekingOpen { closing, closing_index } = self.bracket {
            if let Some(opening_index) = opening_match(&self.lines, closing, closing_index, window) {
                self.bracket = BracketMatch::Matched {
                    opening: matching_opening_char(closing),
                    opening_index,
                    closing,
                    closing_index,
                };
            }
        }
    }
}

/// A closing bracket that a search finds lies on a line that the search read.
pub proof fn lemma_close_within_window(
    text: Seq<Seq<char>>,
    opening: char,
    y: int,
    x: int,
    depth: i64,
    last: usize,
)
    ensures
        seek_close(text, opening, y, x, depth, last as int) matches Some(p) ==> y <= p.y < last
            && p.y < text.len(),
    decreases last - y, text[y].len() - x,
{
    if y < 0 || x < 0 || y >= last || y >= text.len() {
    } else if x >= text[y].len() {
        lemma_close_within_window(text, opening, y + 1, 0, depth, last);
    } else {
        let c = text[y][x];
        let d = depth_after(depth, c, opening, closing_of(opening));
        if c == closing_of(opening) && d == 0 {
        } else {
            lemma_close_within_window(text, opening, y, x + 1, d, last);
        }
    }
}

/// What a search finds in fewer lines, it finds in more.
pub proof fn lemma_close_in_longer_window(
    text: Seq<Seq<char>>,
    opening: char,
    y: int,
    x: int,
    depth: i64,
    last: int,
    longer: int,
)
    requires
        last <= longer,
    ensures
        seek_close(text, opening, y, x, depth, last) is Some ==> seek_close(
            text,
            opening,
            y,
            x,
            depth,
            longer,
        ) == seek_close(text, opening, y, x, depth, last),
    decreases last - y, text[y].len() - x,
{
    if y < 0 || x < 0 || y >= last || y >= text.len() {
    } else if x >= text[y].len() {
        lemma_close_in_longer_window(text, opening, y + 1, 0, depth, last, longer);
    } else {
        let c = text[y][x];
        let d = depth_after(depth, c, opening, closing_of(opening));
        if c == closing_of(opening) && d == 0 {
        } else {
            lemma_close_in_longer_window(text, opening, y, x + 1, d, last, longer);
        }
    }
}

/// The search for a closing bracket is bound to the lines it is given: where
/// the partner that a search through more lines finds lies at line `last` or
/// below, the search through the lines up to `last` finds none.
pub proof fn lemma_bracket_bound(
    text: Seq<Seq<char>>,
    opening: char,
    at: Pos<usize>,
    first: usize,
    last: usize,
    longer: usize,
)
    requires
        last <= longer,
        find_close(text, opening, at, first as int, longer as int) matches Some(p) && p.y >= last,
    ensures
        find_close(text, opening, at, first as int, last as int) is None,
{
    if at.y >= first {
        lemma_close_within_window(text, opening, at.y as int, at.x as int, 0, last);
        lemma_close_in_longer_window(
            text,
            opening,
            at.y as int,
            at.x as int,
            0,
            last as int,
            longer as int,
        );
    } else {
        lemma_close_within_window(text, opening, first as int, 0, 0, last);
        lemma_close_in_longer_window(text, opening, first as int, 0, 0, last as int, longer as int);
    }
}

} // verus!
