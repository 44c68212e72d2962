//! Edits gathered into batches, and batches turned into undo records.

use crate::line::{
    char_count, char_text, clip, delete_char_range, insert_text, inserted, without_range,
};
use crate::selection::{later, lemma_normalized, normalized};
use crate::text_editor::{lemma_clamp_pos, EditorModel, Modeled, Pos, TextEditor};
use crate::viewport::index;
use vstd::prelude::*;
use vstd::string::*;

verus! {

/// One primitive edit, as it is recorded while the user types.
#[derive(Clone, Debug)]
pub enum SingleAction {
    AddChar(AddCharAction),
    RemoveChar(RemoveCharAction),
    RemoveLine(usize),
    NewLine(Pos<usize>),
}

/// A batch of edits as one reversible record.
#[derive(Clone, Debug)]
pub enum BulkAction {
    AddText(TextAction),
    RemoveText(TextAction),
}

/// The lines `start_index..=end_index` as they stood before a batch.
#[derive(Clone, Debug, Default)]
pub struct TextAction {
    pub start_index: usize,
    pub end_index: usize,
    pub lines: Vec<String>,
}

#[derive(Clone, Debug, Default)]
pub struct AddCharAction {
    pub start_pos: Pos<usize>,
    pub char: String,
}

#[derive(Clone, Debug, Default)]
pub struct RemoveCharAction {
    pub start_pos: Pos<usize>,
    pub char: char,
}

#[derive(Clone, Debug, Default)]
pub struct DefaultAction {
    pub start_pos: Pos<usize>,
    pub line: String,
}

/// The batch that is being gathered.
#[derive(Clone, Debug, Default)]
pub struct UnsavedState {
    pub last_activity_at: u64,
    pub cursor_index: Pos<usize>,
    pub actions: Vec<SingleAction>,
}

/// One record of the undo stack.
#[derive(Clone, Debug)]
pub struct State {
    pub created_at: u64,
    pub cursor_index: Pos<usize>,
    pub bulk_action: BulkAction,
}

/// A batch that is being gathered, as a mathematical value.
pub struct Pending {
    pub last_activity_at: u64,
    pub cursor_index: Pos<usize>,
    pub actions: Seq<SingleAction>,
}

/// One record of the undo stack, as a mathematical value: `lines` stood at
/// `start_index..=end_index` before the batch; `adds` tells a batch that left
/// at least as many lines as it found.
pub struct Entry {
    pub created_at: u64,
    pub cursor_index: Pos<usize>,
    pub adds: bool,
    pub start_index: usize,
    pub end_index: usize,
    pub lines: Seq<Seq<char>>,
}

impl View for UnsavedState {
    type V = Pending;

    open spec fn view(&self) -> Pending {
        Pending {
            last_activity_at: self.last_activity_at,
            cursor_index: self.cursor_index,
            actions: self.actions@,
        }
    }
}

impl DeepView for State {
    type V = Entry;

    open spec fn deep_view(&self) -> Entry {
        match self.bulk_action {
            BulkAction::AddText(action) => Entry {
                created_at: self.created_at,
                cursor_index: self.cursor_index,
                adds: true,
                start_index: action.start_index,
                end_index: action.end_index,
                lines: action.lines.deep_view(),
            },
            BulkAction::RemoveText(action) => Entry {
                created_at: self.created_at,
                cursor_index: self.cursor_index,
                adds: false,
                start_index: action.start_index,
                end_index: action.end_index,
                lines: action.lines.deep_view(),
            },
        }
    }
}

/// How long the user has to pause before a batch is closed, in the unit of
/// the host's clock: two seconds, with the clock counting milliseconds.
pub const INACTIVITY_PERIOD: u64 = 2000;

/// The line that an action names.
pub open spec fn action_line(action: SingleAction) -> usize {
    match action {
        SingleAction::AddChar(a) => a.start_pos.y,
        SingleAction::RemoveChar(a) => a.start_pos.y,
        SingleAction::RemoveLine(line) => line,
        SingleAction::NewLine(pos) => pos.y,
    }
}

/// The least line that the actions name, and `bound` where they name none
/// below it.
pub open spec fn min_line(actions: Seq<SingleAction>, bound: int) -> int
    decreases actions.len(),
{
    if actions.len() == 0 {
        bound
    } else {
        let rest = min_line(actions.drop_last(), bound);
        if action_line(actions.last()) < rest {
            action_line(actions.last()) as int
        } else {
            rest
        }
    }
}

/// The greatest line that the actions name; 0 where there is no action.
pub open spec fn max_line(actions: Seq<SingleAction>) -> int
    decreases actions.len(),
{
    if actions.len() == 0 {
        0
    } else {
        let rest = max_line(actions.drop_last());
        if action_line(actions.last()) > rest {
            action_line(actions.last()) as int
        } else {
            rest
        }
    }
}

/// How many of the actions broke a line in two.
pub open spec fn added_lines(actions: Seq<SingleAction>) -> int
    decreases actions.len(),
{
    if actions.len() == 0 {
        0
    } else {
        added_lines(actions.drop_last()) + if actions.last() is NewLine {
            1int
        } else {
            0int
        }
    }
}

/// The lines `start..=end` of `text`, as far as `text` has them.
pub open spec fn snapshot(text: Seq<Seq<char>>, start: int, end: int) -> Seq<Seq<char>> {
    let stop = clip(end + 1, text.len() as int);
    if 0 <= start < stop {
        text.subrange(start, stop)
    } else {
        Seq::empty()
    }
}

/// `lines`, which begin at line `min` of the document, with one action taken
/// back: an inserted character is deleted at its place, a removed character
/// is put back one place left of where the action stood, a removed line
/// comes back as a blank one, and the two halves of a broken line are joined.
/// An action that names a line outside `lines` leaves them as they are.
pub open spec fn revert(lines: Seq<Seq<char>>, action: SingleAction, min: int) -> Seq<Seq<char>> {
    match action {
        SingleAction::AddChar(a) => {
            let y = a.start_pos.y - min;
            if 0 <= y < lines.len() {
                lines.update(y, without_range(lines[y], a.start_pos.x as int, a.start_pos.x + 1))
            } else {
                lines
            }
        },
        SingleAction::RemoveChar(a) => {
            let y = a.start_pos.y - min;
            if 0 <= y < lines.len() {
                lines.update(y, inserted(lines[y], seq![a.char], later(a.start_pos.x as int, 1) - 1))
            } else {
                lines
            }
        },
        SingleAction::RemoveLine(line) => {
            let y = line - min;
            if 0 <= y <= lines.len() {
                lines.insert(y, Seq::empty())
            } else {
                lines
            }
        },
        SingleAction::NewLine(pos) => {
            let y = pos.y - min;
            if 0 <= y && y + 1 < lines.len() {
                lines.update(y, lines[y] + lines[y + 1]).remove(y + 1)
            } else {
                lines
            }
        },
    }
}

/// `lines` with all the actions taken back, the last one first.
pub open spec fn revert_all(lines: Seq<Seq<char>>, actions: Seq<SingleAction>, min: int) -> Seq<
    Seq<char>,
>
    decreases actions.len(),
{
    if actions.len() == 0 {
        lines
    } else {
        revert_all(revert(lines, actions.last(), min), actions.drop_last(), min)
    }
}

/// The record that closes the batch `pending` on the document `text`: the
/// lines that the batch touched, as they stood before it.
pub open spec fn entry_of(text: Seq<Seq<char>>, pending: Pending) -> Entry {
    let start = min_line(pending.actions, text.len() as int);
    let end = index(max_line(pending.actions) + added_lines(pending.actions));
    let after = snapshot(text, start, end as int);
    let before = revert_all(after, pending.actions, start);
    Entry {
        created_at: pending.last_activity_at,
        cursor_index: pending.cursor_index,
        adds: before.len() <= after.len(),
        start_index: start as usize,
        end_index: end,
        lines: before,
    }
}

/// `text` with a record taken back: the stored lines take the place of the
/// lines `start_index..=end_index` where the batch added text, and go in
/// before line `start_index` where it removed text. A document that this
/// leaves without lines gets one empty line.
pub open spec fn undone(text: Seq<Seq<char>>, entry: Entry) -> Seq<Seq<char>> {
    let len = text.len() as int;
    let start = clip(entry.start_index as int, len);
    let stop = if entry.adds {
        later(start, clip(entry.end_index + 1, len))
    } else {
        start
    };
    let restored = text.subrange(0, start) + entry.lines + text.subrange(stop, len);
    if restored.len() == 0 {
        seq![Seq::empty()]
    } else {
        restored
    }
}

/// The time from `since` to `now`; negative where the clock went back.
pub open spec fn elapsed(now: u64, since: u64) -> int {
    now - since
}

impl EditorModel {
    /// A batch is open and the user has paused long enough to close it.
    pub open spec fn flushes(self, now: u64) -> bool {
        match self.pending {
            Some(pending) => elapsed(now, pending.last_activity_at) >= INACTIVITY_PERIOD,
            None => false,
        }
    }

    /// A fresh batch opened at `time`, with the caret where it is now.
    pub open spec fn init_unsaved_state(self, time: u64) -> EditorModel {
        EditorModel {
            pending: Some(
                Pending { last_activity_at: time, cursor_index: self.cursor, actions: Seq::empty() },
            ),
            ..self
        }
    }

    /// The batch closed where the user has paused long enough, with the
    /// record that closes it; else nothing changes and there is no record.
    pub open spec fn flush_unsaved_state(self, now: u64) -> (EditorModel, Option<Entry>) {
        if self.flushes(now) {
            (
                EditorModel { pending: None, ..self },
                Some(entry_of(self.text, self.pending.unwrap())),
            )
        } else {
            (self, None)
        }
    }

    /// The batch closed where the user has paused long enough, and its
    /// record put on the undo stack.
    pub open spec fn feed_history(self, now: u64) -> EditorModel {
        let (flushed, entry) = self.flush_unsaved_state(now);
        match entry {
            Some(entry) => EditorModel { history: flushed.history.push(entry), ..flushed },
            None => flushed,
        }
    }

    /// `action` recorded at `now`: it joins the open batch, or a fresh one.
    /// Where the batch had been idle long enough, it is closed at once with
    /// the action in it; else the batch counts as active at `now`.
    pub open spec fn push_action(self, now: u64, action: SingleAction) -> EditorModel {
        let opened = if self.pending is None {
            self.init_unsaved_state(now)
        } else {
            self
        };
        let batch = opened.pending.unwrap();
        let grown = Pending { actions: batch.actions.push(action), ..batch };
        if elapsed(now, batch.last_activity_at) >= INACTIVITY_PERIOD {
            (EditorModel { pending: Some(grown), ..opened }).feed_history(now)
        } else {
            EditorModel { pending: Some(Pending { last_activity_at: now, ..grown }), ..opened }
        }
    }

    /// The last record taken back: the document gets its lines, the caret
    /// goes where it stood when the batch began, brought into the document,
    /// and so is the selection. With no record nothing changes.
    pub open spec fn undo(self) -> EditorModel {
        if self.history.len() == 0 {
            self
        } else {
            let entry = self.history.last();
            let text = undone(self.text, entry);
            (EditorModel {
                text,
                history: self.history.drop_last(),
                selection: match self.selection {
                    Some((start, end)) => Some(normalized(text, start, end)),
                    None => None,
                },
                ..self
            }).settle(entry.cursor_index)
        }
    }
}

impl EditorModel {
    /// Taking a record back leaves the caret and the selection in the
    /// document.
    pub proof fn lemma_undo_wf(self)
        requires
            self.wf(),
        ensures
            self.undo().wf(),
    {
        if self.history.len() > 0 {
            let entry = self.history.last();
            let text = undone(self.text, entry);
            assert(text.len() >= 1);
            lemma_clamp_pos(text, entry.cursor_index);
            if let Some((start, end)) = self.selection {
                lemma_normalized(text, start, end);
            }

        }
    }
}

/// What an editor offers on the batch of edits that it gathers.
pub trait HasUnsavedState: Modeled {
    /// Opens a fresh batch at `time`.
    fn init_unsaved_state(&mut self, time: u64)
        ensures
            final(self).editor() == old(self).editor().init_unsaved_state(time),
            old(self).editor().wf() ==> final(self).editor().wf(),
    ;

    /// Records `action` at `time`.
    fn push_action_to_unsaved_state(&mut self, time: u64, action: SingleAction)
        requires
            old(self).editor().grounded(),
        ensures
            final(self).editor() == old(self).editor().push_action(time, action),
            old(self).editor().wf() ==> final(self).editor().wf(),
    ;

    /// Closes the batch where the user has paused long enough, and hands out
    /// the record that closes it.
    fn flush_unsaved_state(&mut self, time: u64) -> (state: Option<State>)
        requires
            old(self).editor().grounded(),
        ensures
            (final(self).editor(), state.deep_view()) == old(self).editor().flush_unsaved_state(
                time,
            ),
            old(self).editor().wf() ==> final(self).editor().wf(),
    ;
}

/// Takes one action back on `lines`, which begin at line `min` of the
/// document.
fn revert_action(lines: &mut Vec<String>, action: &SingleAction, min: usize)
    ensures
        final(lines).deep_view() == revert(old(lines).deep_view(), *action, min as int),
{
    let count = lines.len();
    match action {
        SingleAction::AddChar(a) => {
            if a.start_pos.y >= min && a.start_pos.y - min < count {
                let y = a.start_pos.y - min;
                let len = char_count(lines[y].as_str());
                if a.start_pos.x < len {
                    delete_char_range(&mut lines[y], a.start_pos.x, a.start_pos.x + 1);
                } else {
                    assert(without_range(lines@[y as int]@, a.start_pos.x as int, a.start_pos.x + 1)
                        =~= lines@[y as int]@);
                }
                assert(lines.deep_view() =~= revert(old(lines).deep_view(), *action, min as int));
            }
        },
        SingleAction::RemoveChar(a) => {
            if a.start_pos.y >= min && a.start_pos.y - min < count {
                let y = a.start_pos.y - min;
                let at = if a.start_pos.x >= 1 {
                    a.start_pos.x - 1
                } else {
                    0
                };
                let text = char_text(a.char);
                let _ = insert_text(&mut lines[y], text.as_str(), at);
                assert(lines.deep_view() =~= revert(old(lines).deep_view(), *action, min as int));
            }
        },
        SingleAction::RemoveLine(line) => {
            if *line >= min && *line - min <= count {
                lines.insert(*line - min, String::new());
                assert(lines.deep_view() =~= revert(old(lines).deep_view(), *action, min as int));
            }
        },
        SingleAction::NewLine(pos) => {
            if pos.y >= min && pos.y - min < count && pos.y - min + 1 < count {
                let y = pos.y - min;
                let below = lines.remove(y + 1);
                lines[y].append(below.as_str());
                assert(lines.deep_view() =~= revert(old(lines).deep_view(), *action, min as int));
            }
        },
    }
}

/// The least and the greatest line that the actions name, and how many of
/// them broke a line.
fn touched_lines(actions: &Vec<SingleAction>, bound: usize) -> (r: (usize, usize, usize))
    ensures
        r.0 == min_line(actions@, bound as int),
        r.1 == max_line(actions@),
        r.2 == added_lines(actions@),
        r.0 <= bound,
{
    let mut min_index = bound;
    let mut max_index: usize = 0;
    let mut added: usize = 0;
    let mut i: usize = 0;
    while i < actions.len()
        invariant
            i <= actions.len(),
            min_index == min_line(actions@.take(i as int), bound as int),
            max_index == max_line(actions@.take(i as int)),
            added == added_lines(actions@.take(i as int)),
            added <= i,
            min_index <= bound,
        decreases actions.len() - i,
    {
        assert(actions@.take(i + 1).drop_last() =~= actions@.take(i as int));
        let y = match &actions[i] {
            SingleAction::AddChar(a) => a.start_pos.y,
            SingleAction::RemoveChar(a) => a.start_pos.y,
            SingleAction::RemoveLine(line) => *line,
            SingleAction::NewLine(pos) => {
                added += 1;
                pos.y
            },
        };
        if min_index > y {
            min_index = y;
        }
        if max_index < y {
            max_index = y;
        }
        i += 1;
    }
    assert(actions@.take(actions.len() as int) =~= actions@);
    (min_index, max_index, added)
}

/// A copy of the lines `start..=end`, as far as there are such lines.
fn copy_lines(lines: &Vec<String>, start: usize, end: usize) -> (copy: Vec<String>)
    ensures
        copy.deep_view() == snapshot(lines.deep_view(), start as int, end as int),
{
    let count = lines.len();
    let stop = if end < count {
        end + 1
    } else {
        count
    };
    let mut copy: Vec<String> = Vec::new();
    if start < stop {
        let mut i = start;
        while i < stop
            invariant
                start <= i <= stop <= count,
                count == lines.len(),
                copy.deep_view() == lines.deep_view().subrange(start as int, i as int),
            decreases stop - i,
        {
            let ghost before = copy.deep_view();
            let line = lines[i].clone();
            assert(line@ == lines.deep_view()[i as int]);
            copy.push(line);
            assert(copy.deep_view().len() == before.len() + 1);
            assert(forall|j: int| 0 <= j < before.len() ==> copy.deep_view()[j] == before[j]);
            assert(copy.deep_view() =~= lines.deep_view().subrange(start as int, i + 1));
            i += 1;
        }
    } else {
        assert(copy.deep_view() =~= Seq::empty());
    }
    copy
}

impl HasUnsavedState for TextEditor {
    fn init_unsaved_state(&mut self, time: u64) {
        self.unsaved_stated = Some(
            UnsavedState {
                last_activity_at: time,
                cursor_index: self.cursor_index,
                actions: Vec::new(),
            },
        );
    }

    fn push_action_to_unsaved_state(&mut self, time: u64, action: SingleAction) {
        if self.unsaved_stated.is_none() {
            self.init_unsaved_state(time);
        }
        let mut taken: Option<UnsavedState> = None;
        std::mem::swap(&mut self.unsaved_stated, &mut taken);
        let mut batch = taken.unwrap();
        batch.actions.push(action);
        if time >= batch.last_activity_at && time - batch.last_activity_at >= INACTIVITY_PERIOD {
            self.unsaved_stated = Some(batch);
            self.feed_history(time);
        } else {
            batch.last_activity_at = time;
            self.unsaved_stated = Some(batch);
        }
    }

    fn flush_unsaved_state(&mut self, time: u64) -> (state: Option<State>) {
        let idle = match &self.unsaved_stated {
            Some(batch) => time >= batch.last_activity_at && time - batch.last_activity_at
                >= INACTIVITY_PERIOD,
            None => false,
        };
        if !idle {
            return None;
        }
        let mut taken: Option<UnsavedState> = None;
        std::mem::swap(&mut self.unsaved_stated, &mut taken);
        let batch = taken.unwrap();
        let (min_index, max_index, added) = touched_lines(&batch.actions, self.lines.len());
        let end_index = max_index.saturating_add(added);
        let mut lines = copy_lines(&self.lines, min_index, end_index);
        let after_lines_count = lines.len();
        let ghost after = lines.deep_view();
        let mut k = batch.actions.len();
        assert(batch.actions@.take(k as int) =~= batch.actions@);
        while k > 0
            invariant
                k <= batch.actions.len(),
                revert_all(after, batch.actions@, min_index as int) == revert_all(
                    lines.deep_view(),
                    batch.actions@.take(k as int),
                    min_index as int,
                ),
            decreases k,
        {
            assert(batch.actions@.take(k as int).drop_last() =~= batch.actions@.take(k - 1));
            revert_action(&mut lines, &batch.actions[k - 1], min_index);
            k -= 1;
        }
        assert(batch.actions@.take(batch.actions.len() as int) =~= batch.actions@);
        let before_lines_count = lines.len();
        let text_action = TextAction { start_index: min_index, end_index, lines };
        Some(
            State {
                created_at: batch.last_activity_at,
                cursor_index: batch.cursor_index,
                bulk_action: if before_lines_count <= after_lines_count {
                    BulkAction::AddText(text_action)
                } else {
                    BulkAction::RemoveText(text_action)
                },
            },
        )
    }
}

impl TextEditor {
    /// Closes the batch where the user has paused long enough, and puts its
    /// record on the undo stack.
    pub fn feed_history(&mut self, time: u64)
        requires
            old(self).model().grounded(),
        ensures
            final(self).model() == old(self).model().feed_history(time),
            old(self).model().wf() ==> final(self).model().wf(),
    {
        if let Some(state) = self.flush_unsaved_state(time) {
            self.history.push(state);
            assert(self.history.deep_view() =~= old(self).history.deep_view().push(
                state.deep_view(),
            ));
        }
    }

    /// Brings the selection into the document and puts its ends in reading
    /// order.
    fn settle_selection(&mut self)
        requires
            old(self).model().grounded(),
        ensures
            final(self).model() == (EditorModel {
                selection: match old(self).model().selection {
                    Some((start, end)) => Some(normalized(old(self).model().text, start, end)),
                    None => None,
                },
                ..old(self).model()
            }),
    {
        if let Some((a, b)) = self.selection {
            let a = self.clamped(a);
            let b = self.clamped(b);
            if a.y < b.y || (a.y == b.y && a.x <= b.x) {
                self.selection = Some((a, b));
            } else {
                self.selection = Some((b, a));
            }
        }
    }

    /// Puts the lines of a record back into the document.
    fn restore_lines(&mut self, adds: bool, action: TextAction)
        ensures
            final(self).model() == (EditorModel {
                text: undone(
                    old(self).model().text,
                    Entry {
                        created_at: 0,
                        cursor_index: Pos { x: 0, y: 0 },
                        adds,
                        start_index: action.start_index,
                        end_index: action.end_index,
                        lines: action.lines.deep_view(),
                    },
                ),
                ..old(self).model()
            }),
            final(self).model().text.len() >= 1,
    {
        let count = self.lines.len();
        let start = if action.start_index <= count {
            action.start_index
        } else {
            count
        };
        let stop = if !adds {
            start
        } else if action.end_index < count && action.end_index + 1 >= start {
            action.end_index + 1
        } else if action.end_index < count {
            start
        } else {
            count
        };
        let mut stored = action.lines;
        let mut below = self.lines.split_off(stop);
        self.lines.truncate(start);
        self.lines.append(&mut stored);
        self.lines.append(&mut below);
        assert(self.lines.deep_view() =~= old(self).lines.deep_view().subrange(0, start as int)
            + action.lines.deep_view() + old(self).lines.deep_view().subrange(
            stop as int,
            count as int,
        ));
        if self.lines.len() == 0 {
            self.lines.push(String::new());
            assert(self.lines.deep_view() =~= seq![Seq::<char>::empty()]);
        }
    }

    /// Takes the last record back.
    pub fn undo(&mut self)
        requires
            old(self).model().grounded(),
        ensures
            final(self).model() == old(self).model().undo(),
            old(self).model().wf() ==> final(self).model().wf(),
    {
        proof {
            if self.model().wf() {
                self.model().lemma_undo_wf();
            }
        }
        if let Some(state) = self.history.pop() {
            assert(self.history.deep_view() =~= old(self).history.deep_view().drop_last());
            assert(state.deep_view() == old(self).history.deep_view().last());
            let cursor_index = state.cursor_index;
            match state.bulk_action {
                BulkAction::AddText(action) => self.restore_lines(true, action),
                BulkAction::RemoveText(action) => self.restore_lines(false, action),
            }
            self.settle_selection();
            self.cursor_index = cursor_index;
            self.sanitize_cursor_position();
            self.after_cursor_position_change();
        }
    }
}

} // verus!
