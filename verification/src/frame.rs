//! One tick of the host: what the editor takes in, and what it hands back to
//! be drawn.

use crate::bracket::BracketMatch;
use crate::input::Event;
use crate::line::to_chars;
use crate::selection::Selection;
use crate::text_editor::{EditorModel, Pos, TextEditor};
use crate::viewport::{
    digits, offset, pixel, scaled, to_offset, to_pixel, Geometry, Rect, ViewportWindow,
};
use crate::words::{occurrences, word_occurrences};
use vstd::prelude::*;

verus! {

/// What the pointer did in one tick, and where it is.
#[derive(Clone, Copy, Debug, Default, PartialEq, Eq)]
pub struct Pointer {
    pub position: Option<Pos<u32>>,
    pub clicked: bool,
    pub double_clicked: bool,
    pub drag_started: bool,
    pub dragged: bool,
}

/// What the host hands over in one tick: the area it gives to the editor,
/// gutter included, how far its scroll area is scrolled, what the pointer and
/// the keyboard did, and the time.
#[derive(Clone, Debug)]
pub struct Frame {
    pub area_min: Pos<u32>,
    pub area_max: Pos<u32>,
    pub scroll_offset: Pos<u32>,
    pub pointer: Pointer,
    pub events: Vec<Event>,
    pub time: u64,
}

/// What the editor hands back to be drawn in one tick, and the scroll offset
/// that the host's scroll area is to take.
#[derive(Clone, Debug)]
pub struct Scene {
    pub window: ViewportWindow,
    pub gutter: Rect,
    pub selection: Vec<Rect>,
    pub cursor: Option<Rect>,
    pub brackets: Vec<Rect>,
    pub words: Vec<Rect>,
    pub scroll_offset: Pos<u32>,
}

/// The places where `word` occurs on the lines `first..last` of `text`, in
/// reading order.
pub open spec fn visible_occurrences(
    text: Seq<Seq<char>>,
    word: Seq<char>,
    first: int,
    last: int,
) -> Seq<(Pos<usize>, Pos<usize>)>
    decreases last - first,
{
    if last <= first || last > text.len() || first < 0 {
        Seq::empty()
    } else {
        visible_occurrences(text, word, first, last - 1) + occurrences(
            text[last - 1],
            word,
            (last - 1) as usize,
            text[last - 1].len() as int,
        )
    }
}

impl Geometry {
    /// The rectangle of the character cell at `p`, `wide` pixels wide.
    pub open spec fn cell(self, p: Pos<usize>, wide: int, first: int) -> Rect {
        self.band(
            self.column(p.x as int),
            pixel(self.index_to_x(p.x as int) + wide),
            p.y as int,
            p.y as int,
            first,
        )
    }
}

impl EditorModel {
    /// The width of the gutter: room for the digits of the greatest line
    /// number.
    pub open spec fn gutter_width(self) -> u32 {
        offset(digits(self.text.len() as int) * self.geometry.char_width)
    }

    /// The rectangle of the gutter in the area from `min` to `max`.
    pub open spec fn gutter_rect(self, min: Pos<u32>, max: Pos<u32>) -> Rect {
        Rect {
            min: Pos { x: min.x as i64, y: min.y as i64 },
            max: Pos { x: (min.x + self.gutter_width()) as i64, y: max.y as i64 },
        }
    }

    /// The editor in the area from `min` to `max`, of which the gutter takes
    /// the left, with the content scrolled by `scroll_offset`.
    pub open spec fn in_area(self, min: Pos<u32>, max: Pos<u32>, scroll_offset: Pos<u32>) -> EditorModel {
        EditorModel {
            geometry: Geometry {
                viewport_min: Pos { x: offset(min.x + self.gutter_width()), y: min.y },
                viewport_max: max,
                scroll_offset,
                ..self.geometry
            },
            ..self
        }
    }

    /// After the keyboard moved the caret, one correction of the scroll
    /// offset towards the caret; else nothing.
    pub open spec fn scroll_cursor_into_view(self) -> EditorModel {
        if self.has_pressed_arrow_key {
            EditorModel {
                has_pressed_arrow_key: false,
                geometry: Geometry {
                    scroll_offset: self.geometry.scrolled_to(self.cursor),
                    ..self.geometry
                },
                ..self
            }
        } else {
            self
        }
    }

    /// The content is never scrolled down past its own height.
    pub open spec fn clamp_scroll(self) -> EditorModel {
        let height = self.text.len() * self.geometry.line_height;
        if self.geometry.scroll_offset.y > height {
            EditorModel {
                geometry: Geometry {
                    scroll_offset: Pos { x: self.geometry.scroll_offset.x, y: offset(height) },
                    ..self.geometry
                },
                ..self
            }
        } else {
            self
        }
    }

    /// The occurrences of the highlighted word on the lines of `window`,
    /// found anew.
    pub open spec fn highlight_word_occurrences(self, window: ViewportWindow) -> EditorModel {
        EditorModel {
            word_occurrences: match self.highlighted_word {
                Some(word) => visible_occurrences(
                    self.text,
                    word,
                    window.first_line_index as int,
                    window.last_line_index as int,
                ),
                None => Seq::empty(),
            },
            ..self
        }
    }

    /// The rectangle of the caret, two pixels wide, when `first` is the first
    /// line drawn; none for a caret above that line.
    pub open spec fn cursor_rect(self, first: int) -> Option<Rect> {
        if self.cursor.y >= first {
            Some(self.geometry.cell(self.cursor, 2, first))
        } else {
            None
        }
    }

    /// The rectangles of a matched pair of brackets, one cell each, when
    /// `first` is the first line drawn; none without a match, or with a
    /// bracket above that line.
    pub open spec fn bracket_rects(self, first: int) -> Seq<Rect> {
        match self.bracket {
            BracketMatch::Matched { opening_index, closing_index, .. } => if opening_index.y
                >= first && closing_index.y >= first {
                seq![
                    self.geometry.cell(opening_index, self.geometry.char_width as int, first),
                    self.geometry.cell(closing_index, self.geometry.char_width as int, first),
                ]
            } else {
                Seq::empty()
            },
            _ => Seq::empty(),
        }
    }

    /// The rectangle of one occurrence of the highlighted word.
    pub open spec fn word_rect(self, occurrence: (Pos<usize>, Pos<usize>), first: int) -> Rect {
        self.geometry.band(
            self.geometry.column(occurrence.0.x as int),
            self.geometry.column(occurrence.1.x as int),
            occurrence.0.y as int,
            occurrence.0.y as int,
            first,
        )
    }

    /// The rectangles of the occurrences of the highlighted word, when
    /// `first` is the first line drawn.
    pub open spec fn word_rects(self, first: int) -> Seq<Rect> {
        Seq::new(
            self.word_occurrences.len(),
            |i: int| self.word_rect(self.word_occurrences[i], first),
        )
    }

    /// What the pointer did: a click, a double click, the start of a drag
    /// and a drag, each where it took place, in this order. A pointer
    /// without a position does nothing.
    pub open spec fn handle_pointer(self, pointer: Pointer) -> EditorModel {
        match pointer.position {
            Some(p) => {
                let clicked = if pointer.clicked {
                    self.on_click(p)
                } else {
                    self
                };
                let twice = if pointer.double_clicked {
                    clicked.on_double_click(p)
                } else {
                    clicked
                };
                let started = if pointer.drag_started {
                    twice.on_drag_start(p)
                } else {
                    twice
                };
                if pointer.dragged {
                    started.on_drag(p)
                } else {
                    started
                }
            },
            None => self,
        }
    }

    /// The lines that are drawn in the tick `frame`.
    pub open spec fn frame_window(self, frame: Frame) -> ViewportWindow {
        self.in_area(frame.area_min, frame.area_max, frame.scroll_offset).geometry.window(
            self.text.len() as int,
        )
    }

    /// The editor as it is drawn in the tick `frame`: in its area, scrolled
    /// towards the caret where the keyboard moved it, with the partner of
    /// the bracket at the caret and the occurrences of the highlighted word
    /// looked for in the lines that are drawn.
    pub open spec fn drawn(self, frame: Frame) -> EditorModel {
        let window = self.frame_window(frame);
        self.in_area(
            frame.area_min,
            frame.area_max,
            frame.scroll_offset,
        ).scroll_cursor_into_view().clamp_scroll().seek_opening(window).seek_closing(
            window,
        ).highlight_word_occurrences(window)
    }

    /// The editor after the tick `frame`: drawn, then moved by the pointer
    /// and the keyboard, and with its batch of edits closed where the user
    /// has paused long enough.
    pub open spec fn ui(self, frame: Frame) -> EditorModel {
        self.drawn(frame).handle_pointer(frame.pointer).handle_key_events(
            frame.time,
            frame.events@,
        ).feed_history(frame.time)
    }
}

impl TextEditor {
    /// The width of the gutter.
    pub fn gutter_width(&self) -> (width: u32)
        ensures
            width == self.model().gutter_width(),
    {
        to_offset(scaled(Self::count_digit(self.lines.len()) as i128, self.geometry.char_width))
    }

    /// The rectangle of the gutter in the area from `min` to `max`.
    pub fn gutter(&self, min: Pos<u32>, max: Pos<u32>) -> (rect: Rect)
        ensures
            rect == self.model().gutter_rect(min, max),
    {
        Rect {
            min: Pos { x: min.x as i64, y: min.y as i64 },
            max: Pos { x: min.x as i64 + self.gutter_width() as i64, y: max.y as i64 },
        }
    }

    /// Takes the area from `min` to `max`, of which the gutter takes the
    /// left, and the scroll offset of the host.
    pub fn set_area(&mut self, min: Pos<u32>, max: Pos<u32>, scroll_offset: Pos<u32>)
        ensures
            final(self).model() == old(self).model().in_area(min, max, scroll_offset),
            old(self).model().wf() ==> final(self).model().wf(),
    {
        let left = to_offset(min.x as i128 + self.gutter_width() as i128);
        self.geometry.viewport_min = Pos { x: left, y: min.y };
        self.geometry.viewport_max = max;
        self.geometry.scroll_offset = scroll_offset;
    }

    /// Where the keyboard moved the caret, corrects the scroll offset once
    /// towards the caret.
    pub fn scroll_cursor_into_view(&mut self)
        requires
            old(self).model().grounded(),
        ensures
            final(self).model() == old(self).model().scroll_cursor_into_view(),
            old(self).model().wf() ==> final(self).model().wf(),
    {
        if self.has_pressed_arrow_key {
            self.has_pressed_arrow_key = false;
            self.geometry.scroll_offset = self.scrolled_to_cursor();
        }
    }

    /// Keeps the content from being scrolled down past its own height.
    pub fn clamp_scroll(&mut self)
        ensures
            final(self).model() == old(self).model().clamp_scroll(),
            old(self).model().wf() ==> final(self).model().wf(),
    {
        let height = scaled(self.lines.len() as i128, self.geometry.line_height);
        if self.geometry.scroll_offset.y as i128 > height {
            self.geometry.scroll_offset.y = to_offset(height);
        }
    }

    /// Finds the occurrences of the highlighted word on the lines of
    /// `window` anew.
    pub fn highlight_word_occurrences(&mut self, window: ViewportWindow)
        ensures
            final(self).model() == old(self).model().highlight_word_occurrences(window),
            old(self).model().wf() ==> final(self).model().wf(),
    {
        let mut found: Vec<(Pos<usize>, Pos<usize>)> = Vec::new();
        if let Some(highlighted) = &self.highlighted_word {
            let word = to_chars(highlighted.as_str());
            let count = self.lines.len();
            if window.first_line_index < window.last_line_index && window.last_line_index <= count {
                let ghost text = self.lines.deep_view();
                let ghost first = window.first_line_index as int;
                let mut y = window.first_line_index;
                while y < window.last_line_index
                    invariant
                        text == self.lines.deep_view(),
                        first == window.first_line_index,
                        window.first_line_index <= y <= window.last_line_index <= count,
                        count == self.lines.len(),
                        found@ == visible_occurrences(text, word@, first, y as int),
                    decreases window.last_line_index - y,
                {
                    let line = to_chars(self.lines[y].as_str());
                    let mut on_line = word_occurrences(&line, &word, y);
                    found.append(&mut on_line);
                    y += 1;
                }
            } else {
                proof {
                    lemma_nothing_visible(
                        self.lines.deep_view(),
                        word@,
                        window.first_line_index as int,
                        window.last_line_index as int,
                    );
                }
            }
        }
        self.word_occurrences = found;
    }

    /// The rectangle of the caret when `first_line_index` is the first line
    /// drawn.
    pub fn cursor_shape(&self, first_line_index: usize) -> (shape: Rect)
        ensures
            shape == self.model().geometry.cell(self.model().cursor, 2, first_line_index as int),
    {
        self.cell(self.cursor_index, 2, first_line_index)
    }

    /// The rectangle of the character cell at `p`, `wide` pixels wide.
    fn cell(&self, p: Pos<usize>, wide: u32, first: usize) -> (rect: Rect)
        ensures
            rect == self.model().geometry.cell(p, wide as int, first as int),
    {
        let right = to_pixel(
            scaled(p.x as i128, self.geometry.char_width) + self.line_x_offset() as i128
                + wide as i128,
        );
        self.band(self.index_to_x(p.x), right, p.y, p.y, first)
    }

    /// Adds the rectangles of a matched pair of brackets to `shapes`.
    pub fn paint_matching_opening_closing_char(&self, first_line_index: usize, shapes: &mut Vec<Rect>)
        ensures
            final(shapes)@ == old(shapes)@ + self.model().bracket_rects(first_line_index as int),
    {
        if let BracketMatch::Matched { opening_index, closing_index, .. } = self.bracket {
            if opening_index.y >= first_line_index && closing_index.y >= first_line_index {
                shapes.push(self.cell(opening_index, self.geometry.char_width, first_line_index));
                shapes.push(self.cell(closing_index, self.geometry.char_width, first_line_index));
            }
        }
        assert(shapes@ =~= old(shapes)@ + self.model().bracket_rects(first_line_index as int));
    }

    /// Adds the rectangles of the occurrences of the highlighted word to
    /// `shapes`.
    pub fn paint_word_occurrences(&self, first_line_index: usize, shapes: &mut Vec<Rect>)
        ensures
            final(shapes)@ == old(shapes)@ + self.model().word_rects(first_line_index as int),
    {
        let ghost rects = self.model().word_rects(first_line_index as int);
        let mut i: usize = 0;
        while i < self.word_occurrences.len()
            invariant
                i <= self.word_occurrences.len(),
                rects == self.model().word_rects(first_line_index as int),
                shapes@ == old(shapes)@ + rects.take(i as int),
            decreases self.word_occurrences.len() - i,
        {
            let (start, end) = self.word_occurrences[i];
            shapes.push(
                self.band(
                    self.index_to_x(start.x),
                    self.index_to_x(end.x),
                    start.y,
                    start.y,
                    first_line_index,
                ),
            );
            assert(rects.take(i + 1) =~= rects.take(i as int).push(rects[i as int]));
            i += 1;
        }
        assert(rects.take(i as int) =~= rects);
    }

    /// Does what the pointer did.
    pub fn handle_pointer(&mut self, pointer: &Pointer)
        requires
            old(self).model().wf(),
        ensures
            final(self).model() == old(self).model().handle_pointer(*pointer),
            final(self).model().wf(),
    {
        if let Some(p) = pointer.position {
            if pointer.clicked {
                self.on_click(p);
            }
            if pointer.double_clicked {
                self.on_double_click(p);
            }
            if pointer.drag_started {
                self.on_drag_start(p);
            }
            if pointer.dragged {
                self.on_drag(p);
            }
        }
    }

    /// Brings the editor to the state in which the tick `frame` draws it.
    fn draw(&mut self, frame: &Frame) -> (window: ViewportWindow)
        requires
            old(self).model().wf(),
        ensures
            final(self).model() == old(self).model().drawn(*frame),
            window == old(self).model().frame_window(*frame),
            final(self).model().wf(),
    {
        self.set_area(frame.area_min, frame.area_max, frame.scroll_offset);
        let window = self.window();
        self.scroll_cursor_into_view();
        self.clamp_scroll();
        self.find_opening_matching_char(window);
        self.find_closing_matching_char(window);
        self.highlight_word_occurrences(window);
        window
    }

    /// What is drawn, when `window` holds the lines that are drawn.
    fn scene(&self, frame: &Frame, window: ViewportWindow) -> (scene: Scene)
        requires
            self.model().wf(),
        ensures
            scene.window == window,
            scene.gutter == self.model().gutter_rect(frame.area_min, frame.area_max),
            scene.selection@ == self.model().selection_rects(window.first_line_index as int),
            scene.cursor == self.model().cursor_rect(window.first_line_index as int),
            scene.brackets@ == self.model().bracket_rects(window.first_line_index as int),
            scene.words@ == self.model().word_rects(window.first_line_index as int),
            scene.scroll_offset == self.model().geometry.scroll_offset,
    {
        let first = window.first_line_index;
        let mut brackets: Vec<Rect> = Vec::new();
        self.paint_matching_opening_closing_char(first, &mut brackets);
        let mut words: Vec<Rect> = Vec::new();
        self.paint_word_occurrences(first, &mut words);
        assert(brackets@ =~= self.model().bracket_rects(first as int));
        assert(words@ =~= self.model().word_rects(first as int));
        Scene {
            window,
            gutter: self.gutter(frame.area_min, frame.area_max),
            selection: self.selection_shapes(first),
            cursor: if self.cursor_index.y >= first {
                Some(self.cursor_shape(first))
            } else {
                None
            },
            brackets,
            words,
            scroll_offset: self.geometry.scroll_offset,
        }
    }

    /// One tick: the editor takes its area and the scroll offset of the
    /// host, says what is to be drawn, and then does what the pointer and
    /// the keyboard did.
    pub fn ui(&mut self, frame: &Frame) -> (scene: Scene)
        requires
            old(self).model().wf(),
        ensures
            final(self).model() == old(self).model().ui(*frame),
            final(self).model().wf(),
            scene.window == old(self).model().frame_window(*frame),
            scene.gutter == old(self).model().drawn(*frame).gutter_rect(
                frame.area_min,
                frame.area_max,
            ),
            scene.selection@ == old(self).model().drawn(*frame).selection_rects(
                scene.window.first_line_index as int,
            ),
            scene.cursor == old(self).model().drawn(*frame).cursor_rect(
                scene.window.first_line_index as int,
            ),
            scene.brackets@ == old(self).model().drawn(*frame).bracket_rects(
                scene.window.first_line_index as int,
            ),
            scene.words@ == old(self).model().drawn(*frame).word_rects(
                scene.window.first_line_index as int,
            ),
            scene.scroll_offset == old(self).model().drawn(*frame).geometry.scroll_offset,
    {
        let window = self.draw(frame);
        let scene = self.scene(frame, window);
        self.handle_pointer(&frame.pointer);
        self.handle_key_events(frame.time, &frame.events);
        self.feed_history(frame.time);
        scene
    }
}

/// Where no line is drawn, the highlighted word occurs nowhere.
proof fn lemma_nothing_visible(text: Seq<Seq<char>>, word: Seq<char>, first: int, last: int)
    requires
        last <= first || last > text.len(),
    ensures
        visible_occurrences(text, word, first, last) == Seq::<(Pos<usize>, Pos<usize>)>::empty(),
{
}

} // verus!
