//! What the keyboard and the pointer do to the editor.

use crate::buffer::{
    merge_line_into_previous, split_line_at, text_char_removed, text_inserted, text_merged,
    text_split,
};
use crate::history::{AddCharAction, HasUnsavedState, RemoveCharAction, SingleAction};
use crate::line::{char_count, char_range, to_chars};
use crate::selection::Selection;
use crate::text_editor::{clamp_line, in_bounds, EditorModel, Pos, TextEditor};
use crate::words::{word_bounds, word_end, word_start};
use vstd::prelude::*;
use vstd::string::*;

verus! {

/// The keys that the editor knows; every other key is `Other`.
#[derive(Clone, Copy, Debug, PartialEq, Eq)]
pub enum Key {
    ArrowDown,
    ArrowLeft,
    ArrowRight,
    ArrowUp,
    Backspace,
    Delete,
    Enter,
    A,
    S,
    Z,
    Other,
}

/// The modifier keys that were held when a key went down.
#[derive(Clone, Copy, Debug, Default, PartialEq, Eq)]
pub struct Modifiers {
    pub shift: bool,
    pub ctrl: bool,
}

/// What the keyboard reports: a key that went down, or text that was typed.
#[derive(Clone, Debug)]
pub enum Event {
    Key { key: Key, modifiers: Modifiers },
    Text(String),
}

impl EditorModel {
    /// The line that the caret is on.
    pub open spec fn current_line(self) -> Seq<char> {
        self.text[self.cursor.y as int]
    }

    /// Before an arrow key moves the caret: with shift held, a drag begins at
    /// the caret unless one is under way; else the selection is given up.
    pub open spec fn begin_move(self, shift: bool) -> EditorModel {
        let m = if !shift {
            self.reset_selection()
        } else if self.drag_start is None {
            EditorModel { drag_start: Some(self.cursor), ..self }
        } else {
            self
        };
        EditorModel { has_pressed_arrow_key: true, ..m }
    }

    /// After an arrow key moved the caret: with shift held, the drag ends at
    /// the caret and is published.
    pub open spec fn end_move(self, shift: bool) -> EditorModel {
        if shift {
            (EditorModel { drag_stop: Some(self.cursor), ..self }).set_selection()
        } else {
            self
        }
    }

    /// An arrow key that moves the caret one line down, or up; on the first
    /// line the caret does not go up.
    pub open spec fn move_vertically(self, down: bool, shift: bool) -> EditorModel {
        let m = self.begin_move(shift);
        let moved = if down {
            m.set_line(m.cursor.y + 1)
        } else if m.cursor.y > 0 {
            m.set_line(m.cursor.y - 1)
        } else {
            m
        };
        moved.end_move(shift)
    }

    /// An arrow key that moves the caret one place right, or left; at the
    /// start of a line the caret does not go left.
    pub open spec fn move_horizontally(self, right: bool, shift: bool) -> EditorModel {
        let m = self.begin_move(shift);
        let moved = if right {
            m.set_char(m.cursor.x + 1)
        } else if m.cursor.x > 0 {
            m.set_char(m.cursor.x - 1)
        } else {
            m
        };
        moved.end_move(shift)
    }

    /// Backspace: the selection goes, where there is one. Else the character
    /// left of the caret goes and the caret follows; at the start of a line
    /// the line joins the one above and the caret stands where they meet.
    pub open spec fn backspace(self, now: u64) -> EditorModel {
        let at = self.cursor;
        if self.has_selection() {
            self.replace_selection(Seq::empty())
        } else if self.current_line().len() > 0 && at.x > 0 {
            let recorded = self.push_action(
                now,
                SingleAction::RemoveChar(
                    RemoveCharAction { start_pos: at, char: self.current_line()[at.x - 1] },
                ),
            );
            let moved = recorded.set_char(at.x - 1);
            EditorModel { text: text_char_removed(moved.text, moved.cursor), ..moved }
        } else if at.x == 0 && at.y > 0 {
            let recorded = self.push_action(now, SingleAction::RemoveLine(at.y));
            (EditorModel { text: text_merged(self.text, at.y as int), ..recorded }).set_line(
                at.y - 1,
            ).set_char(self.text[at.y - 1].len() as int)
        } else {
            self
        }
    }

    /// Delete: the selection goes, where there is one. Else the character at
    /// the caret goes; on an empty line that is not the last, the line goes;
    /// at the end of a line that is not the last, the next line joins it.
    pub open spec fn delete(self, now: u64) -> EditorModel {
        let at = self.cursor;
        if self.has_selection() {
            self.replace_selection(Seq::empty())
        } else if at.x < self.current_line().len() {
            let recorded = self.push_action(
                now,
                SingleAction::RemoveChar(
                    RemoveCharAction { start_pos: at, char: self.current_line()[at.x as int] },
                ),
            );
            EditorModel { text: text_char_removed(self.text, at), ..recorded }
        } else if self.current_line().len() == 0 && at.y + 1 < self.text.len() {
            let recorded = self.push_action(now, SingleAction::RemoveLine(at.y));
            EditorModel { text: self.text.remove(at.y as int), ..recorded }
        } else if at.x == self.current_line().len() && at.y + 1 < self.text.len() {
            let recorded = self.push_action(now, SingleAction::RemoveLine((at.y + 1) as usize));
            EditorModel { text: text_merged(self.text, at.y + 1), ..recorded }
        } else {
            self
        }
    }

    /// Enter: the selection goes, where there is one. Else the line breaks at
    /// the caret, and the caret goes to the start of the new line.
    pub open spec fn enter(self, now: u64) -> EditorModel {
        let at = self.cursor;
        if self.has_selection() {
            self.replace_selection(Seq::empty())
        } else {
            (EditorModel {
                has_pressed_arrow_key: true,
                text: text_split(self.text, at),
                ..self
            }).push_action(now, SingleAction::NewLine(at)).set_line(at.y + 1).set_char(0)
        }
    }

    /// The whole document selected, and the caret at its end.
    pub open spec fn select_all(self) -> EditorModel {
        let y = (self.text.len() - 1) as usize;
        let x = self.text[y as int].len();
        (EditorModel {
            drag_start: Some(Pos { x: 0, y: 0 }),
            drag_stop: Some(Pos { x: x as usize, y }),
            ..self
        }).set_selection().set_line(y as int).set_char(x as int)
    }

    /// What a key does that went down at `now`.
    pub open spec fn on_key_press(self, now: u64, key: Key, modifiers: Modifiers) -> EditorModel {
        match key {
            Key::ArrowDown => self.move_vertically(true, modifiers.shift),
            Key::ArrowUp => self.move_vertically(false, modifiers.shift),
            Key::ArrowRight => self.move_horizontally(true, modifiers.shift),
            Key::ArrowLeft => self.move_horizontally(false, modifiers.shift),
            Key::Backspace => self.backspace(now),
            Key::Delete => self.delete(now),
            Key::Enter => self.enter(now),
            Key::A => if modifiers.ctrl {
                self.select_all()
            } else {
                self
            },
            Key::Z => if modifiers.ctrl {
                self.undo()
            } else {
                self
            },
            Key::S => self,
            Key::Other => self,
        }
    }

    /// Text typed at `now`: it takes the place of the selection, or goes in
    /// at the caret; the caret ends behind it.
    pub open spec fn type_text(self, now: u64, text: String) -> EditorModel {
        let put = if self.has_selection() {
            self.replace_selection(text@)
        } else {
            EditorModel { text: text_inserted(self.text, self.cursor, text@), ..self }
        };
        let recorded = put.push_action(
            now,
            SingleAction::AddChar(AddCharAction { start_pos: put.cursor, char: text }),
        );
        recorded.set_char(recorded.cursor.x + text@.len())
    }

    /// What one event of the keyboard does.
    #[verifier::opaque]
    pub open spec fn handle_event(self, now: u64, event: Event) -> EditorModel {
        match event {
            Event::Key { key, modifiers } => self.on_key_press(now, key, modifiers),
            Event::Text(text) => self.type_text(now, text),
        }
    }

    /// What the events of one tick do, in the order in which they came.
    pub open spec fn handle_key_events(self, now: u64, events: Seq<Event>) -> EditorModel
        decreases events.len(),
    {
        if events.len() == 0 {
            self
        } else {
            self.handle_key_events(now, events.drop_last()).handle_event(now, events.last())
        }
    }

    /// A click at `p`: the caret goes there, and the selection is given up.
    pub open spec fn on_click(self, p: Pos<u32>) -> EditorModel {
        let at = self.geometry.pixel_to_index(p);
        self.set_char(at.x as int).set_line(at.y as int).reset_selection()
    }

    /// A drag begins at `anchor`; it has no end yet.
    pub open spec fn begin_drag(self, anchor: Pos<usize>) -> EditorModel {
        EditorModel { drag_start: Some(anchor), drag_stop: None, ..self }
    }

    /// The drag ends at `endpoint` for now, and is published as the
    /// selection.
    pub open spec fn update_drag(self, endpoint: Pos<usize>) -> EditorModel {
        (EditorModel { drag_stop: Some(endpoint), ..self }).set_selection()
    }

    /// The pointer went down at `p` to drag: a drag begins there.
    pub open spec fn on_drag_start(self, p: Pos<u32>) -> EditorModel {
        self.begin_drag(self.geometry.pixel_to_index(p))
    }

    /// The pointer dragged to `p`: the drag ends there for now and is
    /// published, and the caret follows the pointer.
    pub open spec fn on_drag(self, p: Pos<u32>) -> EditorModel {
        let at = self.geometry.pixel_to_index(p);
        self.update_drag(at).set_char(at.x as int).set_line(at.y as int)
    }

    /// A double click at `p`: the word there is selected, and highlighted
    /// where it has more than one character; the caret goes to its end.
    pub open spec fn on_double_click(self, p: Pos<u32>) -> EditorModel {
        let at = self.geometry.pixel_to_index(p);
        let y = clamp_line(self.text, at.y as int);
        let line = self.text[y as int];
        let start = word_start(line, at.x as int);
        let end = word_end(line, at.x as int);
        (EditorModel {
            selection: Some((Pos { x: start as usize, y }, Pos { x: end as usize, y })),
            highlighted_word: if end - start > 1 {
                Some(line.subrange(start, end))
            } else {
                self.highlighted_word
            },
            ..self
        }).set_char(end)
    }
}

impl TextEditor {
    /// Moves the caret `by` places to the right, as far as the line goes.
    pub(crate) fn advance_cursor_x(&mut self, by: usize)
        requires
            old(self).model().grounded(),
        ensures
            final(self).model() == old(self).model().set_char(old(self).model().cursor.x + by),
            by > 0 ==> in_bounds(final(self).model().text, final(self).model().cursor),
    {
        match self.cursor_index.x.checked_add(by) {
            Some(target) => self.set_cursor_x(target),
            None => {
                self.cursor_index.x = usize::MAX;
                self.sanitize_cursor_position();
                self.after_cursor_position_change();
            },
        }
    }

    /// Gets the selection ready for an arrow key.
    fn begin_move(&mut self, shift: bool)
        requires
            old(self).model().wf(),
        ensures
            final(self).model() == old(self).model().begin_move(shift),
            final(self).model().wf(),
    {
        if !shift {
            self.reset_selection();
        } else if self.start_dragged_index.is_none() {
            self.start_dragged_index = Some(self.cursor_index);
        }
        self.has_pressed_arrow_key = true;
    }

    /// Publishes the selection that an arrow key with shift extends.
    fn end_move(&mut self, shift: bool)
        requires
            old(self).model().wf(),
        ensures
            final(self).model() == old(self).model().end_move(shift),
            final(self).model().wf(),
    {
        if shift {
            self.stop_dragged_index = Some(self.cursor_index);
            proof {
                self.model().lemma_set_selection_wf();
            }
            self.set_selection();
        }
    }

    /// Moves the caret one line down, or up.
    fn move_vertically(&mut self, down: bool, shift: bool)
        requires
            old(self).model().wf(),
        ensures
            final(self).model() == old(self).model().move_vertically(down, shift),
            final(self).model().wf(),
    {
        assert(self.cursor_index.y < self.lines.len());
        self.begin_move(shift);
        if down {
            self.set_cursor_y(self.cursor_index.y + 1);
        } else if self.cursor_index.y > 0 {
            self.set_cursor_y(self.cursor_index.y - 1);
        }
        self.end_move(shift);
    }

    /// Moves the caret one place right, or left.
    fn move_horizontally(&mut self, right: bool, shift: bool)
        requires
            old(self).model().wf(),
        ensures
            final(self).model() == old(self).model().move_horizontally(right, shift),
            final(self).model().wf(),
    {
        self.begin_move(shift);
        if right {
            self.advance_cursor_x(1);
        } else if self.cursor_index.x > 0 {
            self.set_cursor_x(self.cursor_index.x - 1);
        }
        self.end_move(shift);
    }

    /// Does what Backspace does.
    fn backspace(&mut self, time: u64)
        requires
            old(self).model().wf(),
        ensures
            final(self).model() == old(self).model().backspace(time),
            final(self).model().wf(),
    {
        let at = self.cursor_index;
        if self.has_selection() {
            self.key_press_on_selection(None);
        } else if at.x > 0 {
            let removed = self.lines[at.y].as_str().get_char(at.x - 1);
            self.push_action_to_unsaved_state(
                time,
                SingleAction::RemoveChar(RemoveCharAction { start_pos: at, char: removed }),
            );
            self.set_cursor_x(at.x - 1);
            self.remove_char_at(self.cursor_index);
        } else if at.y > 0 {
            self.push_action_to_unsaved_state(time, SingleAction::RemoveLine(at.y));
            let previous_line_len = char_count(self.lines[at.y - 1].as_str());
            merge_line_into_previous(&mut self.lines, at.y);
            self.set_cursor_y(at.y - 1);
            self.set_cursor_x(previous_line_len);
        }
    }

    /// Does what Delete does.
    fn delete(&mut self, time: u64)
        requires
            old(self).model().wf(),
        ensures
            final(self).model() == old(self).model().delete(time),
            final(self).model().wf(),
    {
        let at = self.cursor_index;
        let count = self.lines.len();
        let line_len = char_count(self.lines[at.y].as_str());
        if self.has_selection() {
            self.key_press_on_selection(None);
        } else if at.x < line_len {
            let removed = self.lines[at.y].as_str().get_char(at.x);
            self.push_action_to_unsaved_state(
                time,
                SingleAction::RemoveChar(RemoveCharAction { start_pos: at, char: removed }),
            );
            self.remove_char_at(at);
        } else if line_len == 0 && at.y + 1 < count {
            self.push_action_to_unsaved_state(time, SingleAction::RemoveLine(at.y));
            let _ = self.lines.remove(at.y);
            assert(self.lines.deep_view() =~= old(self).lines.deep_view().remove(at.y as int));
        } else if at.y + 1 < count {
            self.push_action_to_unsaved_state(time, SingleAction::RemoveLine(at.y + 1));
            merge_line_into_previous(&mut self.lines, at.y + 1);
        }
    }

    /// Does what Enter does.
    fn enter(&mut self, time: u64)
        requires
            old(self).model().wf(),
        ensures
            final(self).model() == old(self).model().enter(time),
            final(self).model().wf(),
    {
        let at = self.cursor_index;
        assert(at.y < self.lines.len());
        if self.has_selection() {
            self.key_press_on_selection(None);
        } else {
            self.has_pressed_arrow_key = true;
            split_line_at(&mut self.lines, at);
            self.push_action_to_unsaved_state(time, SingleAction::NewLine(at));
            self.set_cursor_y(at.y + 1);
            self.set_cursor_x(0);
        }
    }

    /// Selects the whole document and puts the caret at its end.
    fn select_all(&mut self)
        requires
            old(self).model().wf(),
        ensures
            final(self).model() == old(self).model().select_all(),
            final(self).model().wf(),
    {
        let y = self.lines.len() - 1;
        let x = char_count(self.lines[y].as_str());
        self.start_dragged_index = Some(Pos { x: 0, y: 0 });
        self.stop_dragged_index = Some(Pos { x, y });
        self.set_selection();
        self.set_cursor_y(y);
        self.set_cursor_x(x);
    }

    /// Does what the key `key` does that went down at `time` with
    /// `modifiers` held.
    pub fn on_key_press(&mut self, time: u64, key: Key, modifiers: &Modifiers)
        requires
            old(self).model().wf(),
        ensures
            final(self).model() == old(self).model().on_key_press(time, key, *modifiers),
            final(self).model().wf(),
    {
        match key {
            Key::ArrowDown => self.move_vertically(true, modifiers.shift),
            Key::ArrowUp => self.move_vertically(false, modifiers.shift),
            Key::ArrowRight => self.move_horizontally(true, modifiers.shift),
            Key::ArrowLeft => self.move_horizontally(false, modifiers.shift),
            Key::Backspace => self.backspace(time),
            Key::Delete => self.delete(time),
            Key::Enter => self.enter(time),
            Key::A => {
                if modifiers.ctrl {
                    self.select_all();
                }
            },
            Key::Z => {
                if modifiers.ctrl {
                    self.undo();
                }
            },
            Key::S => {},
            Key::Other => {},
        }
    }

    /// Puts the text typed at `time` in the place of the selection, or at the
    /// caret, and the caret behind it.
    pub fn type_text(&mut self, time: u64, text: &String)
        requires
            old(self).model().wf(),
        ensures
            final(self).model() == old(self).model().type_text(time, *text),
            final(self).model().wf(),
    {
        if self.has_selection() {
            self.key_press_on_selection(Some(text.as_str()));
        } else {
            self.insert_text_at(text.as_str(), self.cursor_index);
        }
        self.push_action_to_unsaved_state(
            time,
            SingleAction::AddChar(AddCharAction { start_pos: self.cursor_index, char: text.clone() }),
        );
        self.advance_cursor_x(char_count(text.as_str()));
    }

    /// Handles one event of the keyboard, which came at `time`.
    pub fn handle_event(&mut self, time: u64, event: &Event)
        requires
            old(self).model().wf(),
        ensures
            final(self).model() == old(self).model().handle_event(time, *event),
            final(self).model().wf(),
    {
        reveal(EditorModel::handle_event);
        match event {
            Event::Key { key, modifiers } => self.on_key_press(time, *key, modifiers),
            Event::Text(text) => self.type_text(time, text),
        }
    }

    /// Handles the events of one tick, which came at `time`, in their order.
    pub fn handle_key_events(&mut self, time: u64, events: &Vec<Event>)
        requires
            old(self).model().wf(),
        ensures
            final(self).model() == old(self).model().handle_key_events(time, events@),
            final(self).model().wf(),
    {
        let mut i: usize = 0;
        while i < events.len()
            invariant
                i <= events.len(),
                self.model() == old(self).model().handle_key_events(time, events@.take(i as int)),
                self.model().wf(),
            decreases events.len() - i,
        {
            assert(events@.take(i + 1).drop_last() =~= events@.take(i as int));
            self.handle_event(time, &events[i]);
            i += 1;
        }
        assert(events@.take(events.len() as int) =~= events@);
    }

    /// Handles a click at `p`.
    pub fn on_click(&mut self, p: Pos<u32>)
        requires
            old(self).model().wf(),
        ensures
            final(self).model() == old(self).model().on_click(p),
            final(self).model().wf(),
    {
        let at = self.pixel_to_index(p);
        self.set_cursor_x(at.x);
        self.set_cursor_y(at.y);
        self.reset_selection();
    }

    /// Begins a drag at `anchor`.
    pub fn begin_drag(&mut self, anchor: Pos<usize>)
        ensures
            final(self).model() == old(self).model().begin_drag(anchor),
            old(self).model().wf() ==> final(self).model().wf(),
    {
        self.start_dragged_index = Some(anchor);
        self.stop_dragged_index = None;
    }

    /// Ends the drag at `endpoint` for now and publishes it as the
    /// selection.
    pub fn update_drag(&mut self, endpoint: Pos<usize>)
        requires
            old(self).model().grounded(),
        ensures
            final(self).model() == old(self).model().update_drag(endpoint),
            old(self).model().wf() ==> final(self).model().wf(),
    {
        self.stop_dragged_index = Some(endpoint);
        self.set_selection();
    }

    /// Handles the start of a drag at `p`.
    pub fn on_drag_start(&mut self, p: Pos<u32>)
        requires
            old(self).model().wf(),
        ensures
            final(self).model() == old(self).model().on_drag_start(p),
            final(self).model().wf(),
    {
        self.begin_drag(self.pixel_to_index(p));
    }

    /// Handles a drag that has come to `p`.
    pub fn on_drag(&mut self, p: Pos<u32>)
        requires
            old(self).model().wf(),
        ensures
            final(self).model() == old(self).model().on_drag(p),
            final(self).model().wf(),
    {
        let at = self.pixel_to_index(p);
        self.update_drag(at);
        self.set_cursor_x(at.x);
        self.set_cursor_y(at.y);
    }

    /// Handles a double click at `p`.
    pub fn on_double_click(&mut self, p: Pos<u32>)
        requires
            old(self).model().wf(),
        ensures
            final(self).model() == old(self).model().on_double_click(p),
            final(self).model().wf(),
    {
        let at = self.pixel_to_index(p);
        let y = if at.y < self.lines.len() {
            at.y
        } else {
            self.lines.len() - 1
        };
        let line = to_chars(self.lines[y].as_str());
        let (start, end) = word_bounds(&line, at.x);
        self.selection = Some((Pos { x: start, y }, Pos { x: end, y }));
        if end - start > 1 {
            self.highlighted_word = Some(char_range(&self.lines[y], start, end).to_owned());
        }
        self.set_cursor_x(end);
    }
}

} // verus!
