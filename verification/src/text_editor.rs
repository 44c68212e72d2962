//! The editor: its document and its caret.

use crate::bracket::{adjacent_bracket, BracketMatch};
use crate::buffer::{text_char_removed, text_inserted};
use crate::history::{Entry, Pending, State, UnsavedState};
use crate::line::{char_count, clip};
use crate::viewport::Geometry;
use vstd::prelude::*;

verus! {

/// A pair of coordinates: `x` runs along a line, `y` from line to line.
#[derive(Clone, Copy, Debug, Default, PartialEq, Eq)]
pub struct Pos<T> {
    pub x: T,
    pub y: T,
}

/// `a` comes before `b`, or is `b`, in reading order.
pub open spec fn pos_le(a: Pos<usize>, b: Pos<usize>) -> bool {
    a.y < b.y || (a.y == b.y && a.x <= b.x)
}

/// `p` names a line of `text` and a place on it; the end of the line counts.
pub open spec fn in_bounds(text: Seq<Seq<char>>, p: Pos<usize>) -> bool {
    p.y < text.len() && p.x <= text[p.y as int].len()
}

/// The line index nearest to `y` that `text` has.
pub open spec fn clamp_line(text: Seq<Seq<char>>, y: int) -> usize {
    if y < text.len() {
        y as usize
    } else {
        (text.len() - 1) as usize
    }
}

/// The place nearest to `x` on line `y` of `text`.
pub open spec fn clamp_char(text: Seq<Seq<char>>, y: usize, x: int) -> usize {
    clip(x, text[y as int].len() as int) as usize
}

/// `p` brought into `text`: first its line, then its place on that line.
pub open spec fn clamp_pos(text: Seq<Seq<char>>, p: Pos<usize>) -> Pos<usize> {
    let y = clamp_line(text, p.y as int);
    Pos { x: clamp_char(text, y, p.x as int), y }
}

/// A position that is brought into a document lies in it, and one that lies
/// in it stays where it is.
pub proof fn lemma_clamp_pos(text: Seq<Seq<char>>, p: Pos<usize>)
    requires
        text.len() >= 1,
    ensures
        in_bounds(text, clamp_pos(text, p)),
        in_bounds(text, p) ==> clamp_pos(text, p) == p,
{
}

/// The editor as a mathematical value.
pub struct EditorModel {
    pub text: Seq<Seq<char>>,
    pub geometry: Geometry,
    pub has_pressed_arrow_key: bool,
    pub cursor: Pos<usize>,
    pub drag_start: Option<Pos<usize>>,
    pub drag_stop: Option<Pos<usize>>,
    pub selection: Option<(Pos<usize>, Pos<usize>)>,
    pub highlighted_word: Option<Seq<char>>,
    pub word_occurrences: Seq<(Pos<usize>, Pos<usize>)>,
    pub bracket: BracketMatch,
    pub pending: Option<Pending>,
    pub history: Seq<Entry>,
}

impl EditorModel {
    /// The editor as it is made: the caret at the start, nothing selected,
    /// nothing recorded.
    pub open spec fn initial(text: Seq<Seq<char>>, geometry: Geometry) -> EditorModel {
        EditorModel {
            text,
            geometry,
            has_pressed_arrow_key: false,
            cursor: Pos { x: 0, y: 0 },
            drag_start: None,
            drag_stop: None,
            selection: None,
            highlighted_word: None,
            word_occurrences: Seq::empty(),
            bracket: BracketMatch::Idle,
            pending: None,
            history: Seq::empty(),
        }
    }

    /// The document is never empty, and a character cell has an extent.
    pub open spec fn grounded(self) -> bool {
        self.text.len() >= 1 && self.geometry.valid()
    }

    /// The caret and the selection lie in the document, and the selection
    /// runs forward.
    pub open spec fn wf(self) -> bool {
        &&& self.grounded()
        &&& in_bounds(self.text, self.cursor)
        &&& match self.selection {
            Some((start, end)) => in_bounds(self.text, start) && in_bounds(self.text, end)
                && pos_le(start, end),
            None => true,
        }
    }

    /// The caret put on line `y`, which is clamped to the document; the place
    /// on the line is clamped to the new line, and the bracket left of the
    /// caret is looked at again. Nothing happens when the caret is on line `y`.
    pub open spec fn set_line(self, y: int) -> EditorModel {
        if self.cursor.y == y {
            self
        } else {
            self.settle(Pos { x: self.cursor.x, y: clamp_line(self.text, y) })
        }
    }

    /// The caret put at place `x` of its line, clamped to the line; the
    /// bracket left of the caret is looked at again. Nothing happens when the
    /// caret is at place `x`.
    pub open spec fn set_char(self, x: int) -> EditorModel {
        if self.cursor.x == x {
            self
        } else {
            let y = clamp_line(self.text, self.cursor.y as int);
            self.land(Pos { x: clamp_char(self.text, y, x), y })
        }
    }

    /// The caret brought into the document from `target`.
    pub open spec fn settle(self, target: Pos<usize>) -> EditorModel {
        self.land(clamp_pos(self.text, target))
    }

    /// The caret at `at`, and the matcher going by the character left of it.
    pub open spec fn land(self, at: Pos<usize>) -> EditorModel {
        EditorModel { cursor: at, bracket: adjacent_bracket(self.text, at), ..self }
    }
}

/// What has an editor's mathematical value.
pub trait Modeled {
    /// The editor as a mathematical value.
    spec fn editor(&self) -> EditorModel;
}

impl Modeled for TextEditor {
    open spec fn editor(&self) -> EditorModel {
        self.model()
    }
}

/// The editor: the document, the caret, the drag and the selection, the
/// highlighted word, the bracket matcher, and the edits not yet on the undo
/// stack with the stack itself.
pub struct TextEditor {
    pub(crate) lines: Vec<String>,
    pub(crate) geometry: Geometry,
    pub(crate) has_pressed_arrow_key: bool,
    pub(crate) cursor_index: Pos<usize>,
    pub(crate) start_dragged_index: Option<Pos<usize>>,
    pub(crate) stop_dragged_index: Option<Pos<usize>>,
    pub(crate) selection: Option<(Pos<usize>, Pos<usize>)>,
    pub(crate) highlighted_word: Option<String>,
    pub(crate) word_occurrences: Vec<(Pos<usize>, Pos<usize>)>,
    pub(crate) bracket: BracketMatch,
    pub(crate) unsaved_stated: Option<UnsavedState>,
    pub(crate) history: Vec<State>,
}

impl TextEditor {
    /// The editor as a mathematical value.
    pub open(crate) spec fn model(&self) -> EditorModel {
        EditorModel {
            text: self.lines.deep_view(),
            geometry: self.geometry,
            has_pressed_arrow_key: self.has_pressed_arrow_key,
            cursor: self.cursor_index,
            drag_start: self.start_dragged_index,
            drag_stop: self.stop_dragged_index,
            selection: self.selection,
            highlighted_word: match self.highlighted_word {
                Some(word) => Some(word@),
                None => None,
            },
            word_occurrences: self.word_occurrences@,
            bracket: self.bracket,
            pending: match self.unsaved_stated {
                Some(pending) => Some(pending@),
                None => None,
            },
            history: self.history.deep_view(),
        }
    }

    /// An editor on `lines`, with the caret at the start and nothing selected.
    /// A document without lines gets one empty line.
    pub fn new(lines: Vec<String>, geometry: Geometry) -> (editor: Self)
        requires
            geometry.valid(),
        ensures
            editor.model() == EditorModel::initial(
                if lines@.len() == 0 {
                    seq![Seq::<char>::empty()]
                } else {
                    lines.deep_view()
                },
                geometry,
            ),
            editor.model().wf(),
    {
        let mut lines = lines;
        if lines.len() == 0 {
            lines.push(String::new());
            assert(lines.deep_view() =~= seq![Seq::<char>::empty()]);
        }
        let editor = TextEditor {
            lines,
            geometry,
            has_pressed_arrow_key: false,
            cursor_index: Pos { x: 0, y: 0 },
            start_dragged_index: None,
            stop_dragged_index: None,
            selection: None,
            highlighted_word: None,
            word_occurrences: Vec::new(),
            bracket: BracketMatch::Idle,
            unsaved_stated: None,
            history: Vec::new(),
        };
        assert(editor.history.deep_view() =~= Seq::<Entry>::empty());
        editor
    }

    /// The lines of the document.
    pub fn lines(&self) -> (lines: &Vec<String>)
        ensures
            lines.deep_view() == self.model().text,
    {
        &self.lines
    }

    /// Where the caret is.
    pub fn cursor_index(&self) -> (cursor: Pos<usize>)
        ensures
            cursor == self.model().cursor,
    {
        self.cursor_index
    }

    /// Where the caret is drawn, measured from the top of the document.
    pub fn cursor_pos(&self) -> (p: Pos<i64>)
        ensures
            p == self.model().geometry.index_to_pixel(self.model().cursor),
    {
        self.index_to_pos(self.cursor_index)
    }

    /// The selection: where it begins and where it ends.
    pub fn selection(&self) -> (selection: Option<(Pos<usize>, Pos<usize>)>)
        ensures
            selection == self.model().selection,
    {
        self.selection
    }

    /// Where the drag that is under way began.
    pub fn start_dragged_index(&self) -> (anchor: Option<Pos<usize>>)
        ensures
            anchor == self.model().drag_start,
    {
        self.start_dragged_index
    }

    /// Where the drag that is under way ends for now.
    pub fn stop_dragged_index(&self) -> (endpoint: Option<Pos<usize>>)
        ensures
            endpoint == self.model().drag_stop,
    {
        self.stop_dragged_index
    }

    /// The word that is highlighted.
    pub fn highlighted_word(&self) -> (word: &Option<String>)
        ensures
            match *word {
                Some(w) => self.model().highlighted_word == Some(w@),
                None => self.model().highlighted_word is None,
            },
    {
        &self.highlighted_word
    }

    /// The occurrences of the highlighted word that were found last.
    pub fn word_occurrences(&self) -> (found: &Vec<(Pos<usize>, Pos<usize>)>)
        ensures
            found@ == self.model().word_occurrences,
    {
        &self.word_occurrences
    }

    /// What the bracket matcher knows.
    pub fn bracket(&self) -> (bracket: BracketMatch)
        ensures
            bracket == self.model().bracket,
    {
        self.bracket
    }

    /// The batch of edits that is being gathered.
    pub fn unsaved_state(&self) -> (pending: &Option<UnsavedState>)
        ensures
            match *pending {
                Some(p) => self.model().pending == Some(p@),
                None => self.model().pending is None,
            },
    {
        &self.unsaved_stated
    }

    /// The undo stack, the latest record last.
    pub fn history(&self) -> (history: &Vec<State>)
        ensures
            history.deep_view() == self.model().history,
    {
        &self.history
    }

    /// The geometry of the text area.
    pub fn geometry(&self) -> (geometry: Geometry)
        ensures
            geometry == self.model().geometry,
    {
        self.geometry
    }

    /// Whether the keyboard moved the caret since the scroll offset was last
    /// corrected.
    pub fn has_pressed_arrow_key(&self) -> (pressed: bool)
        ensures
            pressed == self.model().has_pressed_arrow_key,
    {
        self.has_pressed_arrow_key
    }

    /// Looks at the character left of the caret and sets the bracket matcher
    /// by it.
    pub fn after_cursor_position_change(&mut self)
        ensures
            final(self).model() == old(self).model().land(old(self).model().cursor),
            old(self).model().wf() ==> final(self).model().wf(),
    {
        let at = self.cursor_index;
        let mut found = BracketMatch::Idle;
        if at.x > 0 && at.y < self.lines.len() {
            let line = self.lines[at.y].as_str();
            if at.x <= char_count(line) {
                let c = line.get_char(at.x - 1);
                let index = Pos { x: at.x - 1, y: at.y };
                if c == '{' || c == '(' || c == '[' {
                    found = BracketMatch::SeekingClose { opening: c, opening_index: index };
                } else if c == '}' || c == ')' || c == ']' {
                    found = BracketMatch::SeekingOpen { closing: c, closing_index: index };
                }
            }
        }
        self.bracket = found;
    }

    /// Brings the caret into the document: its line first, then its place on
    /// that line.
    pub fn sanitize_cursor_position(&mut self)
        requires
            old(self).model().grounded(),
        ensures
            final(self).model() == (EditorModel {
                cursor: clamp_pos(old(self).model().text, old(self).model().cursor),
                ..old(self).model()
            }),
            in_bounds(final(self).model().text, final(self).model().cursor),
            final(self).model().text[final(self).model().cursor.y as int].len() <= usize::MAX,
            old(self).model().wf() ==> final(self).model().wf(),
    {
        let y = if self.cursor_index.y < self.lines.len() {
            self.cursor_index.y
        } else {
            self.lines.len() - 1
        };
        let len = char_count(self.lines[y].as_str());
        let x = if self.cursor_index.x <= len {
            self.cursor_index.x
        } else {
            len
        };
        self.cursor_index = Pos { x, y };
    }

    /// Puts the caret on line `new_value`, or on the last line when there is
    /// no such line.
    pub fn set_cursor_y(&mut self, new_value: usize)
        requires
            old(self).model().grounded(),
        ensures
            final(self).model() == old(self).model().set_line(new_value as int),
            old(self).model().wf() ==> final(self).model().wf(),
            old(self).model().cursor.y != new_value ==> in_bounds(
                final(self).model().text,
                final(self).model().cursor,
            ),
    {
        if self.cursor_index.y == new_value {
            return ;
        }
        self.cursor_index.y = new_value;
        self.sanitize_cursor_position();
        self.after_cursor_position_change();
    }

    /// Puts the caret at place `new_value` of its line, or at the end of the
    /// line when the line is shorter.
    pub fn set_cursor_x(&mut self, new_value: usize)
        requires
            old(self).model().grounded(),
        ensures
            final(self).model() == old(self).model().set_char(new_value as int),
            old(self).model().wf() ==> final(self).model().wf(),
            old(self).model().cursor.x != new_value ==> in_bounds(
                final(self).model().text,
                final(self).model().cursor,
            ),
    {
        if self.cursor_index.x == new_value {
            return ;
        }
        self.cursor_index.x = new_value;
        self.sanitize_cursor_position();
        self.after_cursor_position_change();
    }

    /// Inserts `text_to_insert` into line `pos.y` before place `pos.x`.
    pub(crate) fn insert_text_at(&mut self, text_to_insert: &str, pos: Pos<usize>)
        requires
            pos.y < old(self).model().text.len(),
        ensures
            final(self).model() == (EditorModel {
                text: text_inserted(old(self).model().text, pos, text_to_insert@),
                ..old(self).model()
            }),
    {
        crate::buffer::insert_text_at(&mut self.lines, text_to_insert, pos);
    }

    /// Deletes the character at `pos`.
    pub(crate) fn remove_char_at(&mut self, pos: Pos<usize>)
        requires
            pos.y < old(self).model().text.len(),
            pos.x < old(self).model().text[pos.y as int].len(),
        ensures
            final(self).model() == (EditorModel {
                text: text_char_removed(old(self).model().text, pos),
                ..old(self).model()
            }),
    {
        let _ = crate::buffer::remove_char_at(&mut self.lines, pos);
    }
}

} // verus!
