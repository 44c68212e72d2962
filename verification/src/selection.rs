//! The selection: how a drag becomes one, what it looks like, and how typing
//! replaces it.

use crate::buffer::{replace_range, replaced};
use crate::line::char_count;
use crate::text_editor::{
    clamp_pos, in_bounds, lemma_clamp_pos, pos_le, EditorModel, Modeled, Pos, TextEditor,
};
use crate::viewport::{pixel, Geometry, Rect};
use vstd::prelude::*;

verus! {

/// The selection that a drag from `a` to `b` publishes in `text`: both ends
/// are brought into the document and then put in reading order.
pub open spec fn normalized(text: Seq<Seq<char>>, a: Pos<usize>, b: Pos<usize>) -> (
    Pos<usize>,
    Pos<usize>,
) {
    let a = clamp_pos(text, a);
    let b = clamp_pos(text, b);
    if pos_le(a, b) {
        (a, b)
    } else {
        (b, a)
    }
}

/// The selection that a drag publishes lies in the document and runs
/// forward, and it is the same whichever end the drag began at.
pub proof fn lemma_normalized(text: Seq<Seq<char>>, a: Pos<usize>, b: Pos<usize>)
    requires
        text.len() >= 1,
    ensures
        in_bounds(text, normalized(text, a, b).0),
        in_bounds(text, normalized(text, a, b).1),
        pos_le(normalized(text, a, b).0, normalized(text, a, b).1),
        normalized(text, a, b) == normalized(text, b, a),
{
    lemma_clamp_pos(text, a);
    lemma_clamp_pos(text, b);
}

/// The characters of a text that may be absent.
pub open spec fn text_or_empty(text: Option<&str>) -> Seq<char> {
    match text {
        Some(t) => t@,
        None => Seq::empty(),
    }
}

impl Geometry {
    /// The upper edge of line `i` on the screen, when `first` is the first
    /// line drawn.
    pub open spec fn row_top(self, i: int, first: int) -> i64 {
        pixel(self.viewport_min.y + self.index_to_y_in_virtual_scroll(i, first))
    }

    /// The lower edge of line `i` on the screen, when `first` is the first
    /// line drawn.
    pub open spec fn row_bottom(self, i: int, first: int) -> i64 {
        pixel(self.viewport_min.y + self.index_to_y_in_virtual_scroll(i, first) + self.line_height)
    }

    /// The left edge of place `x` on the screen.
    pub open spec fn column(self, x: int) -> i64 {
        pixel(self.index_to_x(x))
    }

    /// The rectangle from `left` to `right` that covers the lines `top` to
    /// `bottom`.
    pub open spec fn band(self, left: i64, right: i64, top: int, bottom: int, first: int) -> Rect {
        Rect {
            min: Pos { x: left, y: self.row_top(top, first) },
            max: Pos { x: right, y: self.row_bottom(bottom, first) },
        }
    }
}

/// The larger of two line indices.
pub open spec fn later(a: int, b: int) -> int {
    if a >= b {
        a
    } else {
        b
    }
}

impl EditorModel {
    pub open spec fn has_selection(self) -> bool {
        self.selection is Some
    }

    /// The selection begins and ends on one line.
    pub open spec fn is_single_line_selection(self) -> bool {
        match self.selection {
            Some((start, end)) => start.y == end.y,
            None => false,
        }
    }

    /// The selection ends on the line after the one it begins on.
    pub open spec fn is_two_lines_selection(self) -> bool {
        match self.selection {
            Some((start, end)) => start.y + 1 == end.y,
            None => false,
        }
    }

    /// Nothing selected, no drag under way, no word highlighted.
    pub open spec fn reset_selection(self) -> EditorModel {
        EditorModel {
            selection: None,
            drag_start: None,
            drag_stop: None,
            highlighted_word: None,
            ..self
        }
    }

    /// The drag published as the selection; without both ends of a drag
    /// nothing changes.
    pub open spec fn set_selection(self) -> EditorModel {
        match (self.drag_start, self.drag_stop) {
            (Some(anchor), Some(endpoint)) => EditorModel {
                selection: Some(normalized(self.text, anchor, endpoint)),
                ..self
            },
            _ => self,
        }
    }

    /// The selection replaced by `replacement`: the caret goes to where the
    /// selection began, and the selection is given up. Without a selection
    /// nothing changes.
    pub open spec fn replace_selection(self, replacement: Seq<char>) -> EditorModel {
        match self.selection {
            Some((start, end)) => (EditorModel {
                text: replaced(self.text, start, end, replacement),
                ..self
            }).set_line(start.y as int).set_char(start.x as int).reset_selection(),
            None => self,
        }
    }

    /// The rectangles that show the selection when `first` is the first line
    /// drawn: one for a selection on one line; else one from the start to the
    /// right edge, one over the lines in between where there are any, and one
    /// from the left edge to the end. Parts above the first line drawn are
    /// left out.
    pub open spec fn selection_rects(self, first: int) -> Seq<Rect> {
        let g = self.geometry;
        let left = g.viewport_min.x as i64;
        let right = g.viewport_max.x as i64;
        match self.selection {
            None => Seq::empty(),
            Some((start, end)) => if start.y == end.y {
                if start.y < first {
                    Seq::empty()
                } else {
                    seq![
                        g.band(
                            g.column(start.x as int),
                            g.column(end.x as int),
                            start.y as int,
                            start.y as int,
                            first,
                        ),
                    ]
                }
            } else {
                let head = if start.y >= first {
                    seq![g.band(g.column(start.x as int), right, start.y as int, start.y as int, first)]
                } else {
                    Seq::empty()
                };
                let body = if end.y >= first && start.y + 1 != end.y {
                    seq![g.band(left, right, later(start.y + 1, first), later(end.y - 1, first), first)]
                } else {
                    Seq::empty()
                };
                let tail = if end.y >= first {
                    seq![g.band(left, g.column(end.x as int), end.y as int, end.y as int, first)]
                } else {
                    Seq::empty()
                };
                head + body + tail
            },
        }
    }
}

impl EditorModel {
    /// Publishing a drag leaves the editor well formed.
    pub proof fn lemma_set_selection_wf(self)
        requires
            self.wf(),
        ensures
            self.set_selection().wf(),
    {
        if let (Some(anchor), Some(endpoint)) = (self.drag_start, self.drag_stop) {
            lemma_normalized(self.text, anchor, endpoint);
        }
    }
}

impl EditorModel {
    /// Replacing the selection a second time, right after the first, changes
    /// nothing: the first time gave the selection up.
    pub proof fn lemma_replace_selection_twice(self, first: Seq<char>, second: Seq<char>)
        ensures
            self.replace_selection(first).selection is None,
            self.replace_selection(first).replace_selection(second) == self.replace_selection(
                first,
            ),
    {
    }
}

/// What an editor offers on its selection.
pub trait Selection: Modeled {
    /// Gives up the selection, the drag and the highlighted word.
    fn reset_selection(&mut self)
        ensures
            final(self).editor() == old(self).editor().reset_selection(),
            old(self).editor().wf() ==> final(self).editor().wf(),
    ;

    /// Publishes the drag as the selection.
    fn set_selection(&mut self)
        requires
            old(self).editor().grounded(),
        ensures
            final(self).editor() == old(self).editor().set_selection(),
            old(self).editor().wf() ==> final(self).editor().wf(),
    ;

    fn has_selection(&self) -> (has: bool)
        ensures
            has == self.editor().has_selection(),
    ;

    fn is_single_line_selection(&self) -> (single: bool)
        ensures
            single == self.editor().is_single_line_selection(),
    ;

    fn is_two_lines_selection(&self) -> (two: bool)
        ensures
            two == self.editor().is_two_lines_selection(),
    ;

    /// The rectangles that show the selection when `first_line_index` is the
    /// first line drawn.
    fn selection_shapes(&self, first_line_index: usize) -> (shapes: Vec<Rect>)
        requires
            self.editor().wf(),
        ensures
            shapes@ == self.editor().selection_rects(first_line_index as int),
    ;

    /// Puts `text_to_insert`, or nothing, in the place of the selection.
    fn key_press_on_selection(&mut self, text_to_insert: Option<&str>)
        requires
            old(self).editor().wf(),
        ensures
            final(self).editor() == old(self).editor().replace_selection(
                text_or_empty(text_to_insert),
            ),
            final(self).editor().wf(),
    ;
}

impl TextEditor {
    /// `p` brought into the document.
    pub(crate) fn clamped(&self, p: Pos<usize>) -> (q: Pos<usize>)
        requires
            self.model().grounded(),
        ensures
            q == clamp_pos(self.model().text, p),
            in_bounds(self.model().text, q),
    {
        let y = if p.y < self.lines.len() {
            p.y
        } else {
            self.lines.len() - 1
        };
        let len = char_count(self.lines[y].as_str());
        let x = if p.x <= len {
            p.x
        } else {
            len
        };
        Pos { x, y }
    }

    /// The rectangle from `left` to `right` that covers the lines `top` to
    /// `bottom`.
    pub(crate) fn band(&self, left: i64, right: i64, top: usize, bottom: usize, first: usize) -> (r:
        Rect)
        ensures
            r == self.model().geometry.band(left, right, top as int, bottom as int, first as int),
    {
        let upper = self.row_top(top, first);
        let lower = self.row_bottom(bottom, first);
        Rect { min: Pos { x: left, y: upper }, max: Pos { x: right, y: lower } }
    }
}

impl Selection for TextEditor {
    fn reset_selection(&mut self) {
        self.selection = None;
        self.start_dragged_index = None;
        self.stop_dragged_index = None;
        self.highlighted_word = None;
    }

    fn set_selection(&mut self) {
        proof {
            if self.model().wf() {
                self.model().lemma_set_selection_wf();
            }
        }
        if let (Some(anchor), Some(endpoint)) = (self.start_dragged_index, self.stop_dragged_index) {
            let a = self.clamped(anchor);
            let b = self.clamped(endpoint);
            if a.y < b.y || (a.y == b.y && a.x <= b.x) {
                self.selection = Some((a, b));
            } else {
                self.selection = Some((b, a));
            }
        }
    }

    fn has_selection(&self) -> (has: bool) {
        self.selection.is_some()
    }

    fn is_single_line_selection(&self) -> (single: bool) {
        match self.selection {
            Some((start, end)) => start.y == end.y,
            None => false,
        }
    }

    fn is_two_lines_selection(&self) -> (two: bool) {
        match self.selection {
            Some((start, end)) => end.y > start.y && end.y - start.y == 1,
            None => false,
        }
    }

    fn selection_shapes(&self, first_line_index: usize) -> (shapes: Vec<Rect>) {
        let first = first_line_index;
        assert(self.selection matches Some((start, end)) ==> end.y < self.lines.len());
        let mut shapes: Vec<Rect> = Vec::new();
        let left = self.geometry.viewport_min.x as i64;
        let right = self.geometry.viewport_max.x as i64;
        if let Some((start, end)) = self.selection {
            if start.y == end.y {
                if start.y >= first {
                    shapes.push(
                        self.band(
                            self.index_to_x(start.x),
                            self.index_to_x(end.x),
                            start.y,
                            start.y,
                            first,
                        ),
                    );
                }
            } else {
                if start.y >= first {
                    shapes.push(self.band(self.index_to_x(start.x), right, start.y, start.y, first));
                }
                if end.y >= first {
                    if !self.is_two_lines_selection() {
                        let top = if start.y + 1 >= first {
                            start.y + 1
                        } else {
                            first
                        };
                        let bottom = if end.y - 1 >= first {
                            end.y - 1
                        } else {
                            first
                        };
                        shapes.push(self.band(left, right, top, bottom, first));
                    }
                    shapes.push(self.band(left, self.index_to_x(end.x), end.y, end.y, first));
                }
            }
        }
        assert(shapes@ =~= self.model().selection_rects(first as int));
        shapes
    }

    fn key_press_on_selection(&mut self, text_to_insert: Option<&str>) {
        if let Some((start, end)) = self.selection {
            let replacement = match text_to_insert {
                Some(t) => t,
                None => "",
            };
            proof {
                reveal_strlit("");
            }
            replace_range(&mut self.lines, start, end, replacement);
            self.set_cursor_y(start.y);
            self.set_cursor_x(start.x);
            self.reset_selection();
        }
    }
}

} // verus!
