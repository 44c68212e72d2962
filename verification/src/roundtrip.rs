//! Why taking a record back restores the document: the batch read forward,
//! and the proof that the record reads it backward.

use crate::buffer::{text_char_removed, text_inserted, text_split};
use crate::history::{
    action_line, added_lines, entry_of, max_line, min_line, revert, revert_all, snapshot, undone,
    AddCharAction, Pending, RemoveCharAction, SingleAction,
};
use crate::line::clip;
use crate::text_editor::{in_bounds, lemma_clamp_pos, EditorModel, Pos};
use crate::viewport::index;
use vstd::prelude::*;

verus! {

/// `action` can have been recorded on `text`: a character typed at a place
/// of a line, the character left of a place removed, an empty line removed
/// that is not the only one, or a line broken at a place.
pub open spec fn applies(text: Seq<Seq<char>>, action: SingleAction) -> bool {
    match action {
        SingleAction::AddChar(a) => in_bounds(text, a.start_pos) && a.char@.len() == 1,
        SingleAction::RemoveChar(a) => in_bounds(text, a.start_pos) && a.start_pos.x >= 1
            && text[a.start_pos.y as int][a.start_pos.x - 1] == a.char,
        SingleAction::RemoveLine(line) => line < text.len() && text.len() >= 2
            && text[line as int].len() == 0,
        SingleAction::NewLine(pos) => in_bounds(text, pos),
    }
}

/// `text` after the edit that `action` records.
pub open spec fn applied(text: Seq<Seq<char>>, action: SingleAction) -> Seq<Seq<char>> {
    match action {
        SingleAction::AddChar(a) => text_inserted(text, a.start_pos, a.char@),
        SingleAction::RemoveChar(a) => text_char_removed(
            text,
            Pos { x: (a.start_pos.x - 1) as usize, y: a.start_pos.y },
        ),
        SingleAction::RemoveLine(line) => text.remove(line as int),
        SingleAction::NewLine(pos) => text_split(text, pos),
    }
}

/// `text` after the edits that `actions` record, in their order.
pub open spec fn applied_all(text: Seq<Seq<char>>, actions: Seq<SingleAction>) -> Seq<Seq<char>>
    decreases actions.len(),
{
    if actions.len() == 0 {
        text
    } else {
        applied(applied_all(text, actions.drop_last()), actions.last())
    }
}

/// Each of `actions` can have been recorded on the text that the ones before
/// it left.
pub open spec fn all_apply(text: Seq<Seq<char>>, actions: Seq<SingleAction>) -> bool
    decreases actions.len(),
{
    if actions.len() == 0 {
        true
    } else {
        all_apply(text, actions.drop_last()) && applies(
            applied_all(text, actions.drop_last()),
            actions.last(),
        )
    }
}

/// By how many lines the edit that `action` records makes the document
/// longer.
pub open spec fn growth(action: SingleAction) -> int {
    match action {
        SingleAction::NewLine(_) => 1,
        SingleAction::RemoveLine(_) => -1,
        _ => 0,
    }
}

/// By how many lines the edits that `actions` record make the document
/// longer.
pub open spec fn net_growth(actions: Seq<SingleAction>) -> int
    decreases actions.len(),
{
    if actions.len() == 0 {
        0
    } else {
        net_growth(actions.drop_last()) + growth(actions.last())
    }
}

/// Read backward from the lines `lo..hi` of the text that `actions` left,
/// each action names a line among those that the lines `lo..hi` were at its
/// time.
pub open spec fn confined(actions: Seq<SingleAction>, lo: int, hi: int) -> bool
    decreases actions.len(),
{
    if actions.len() == 0 {
        true
    } else {
        let before = hi - growth(actions.last());
        lo <= action_line(actions.last()) < before && confined(actions.drop_last(), lo, before)
    }
}

/// One edit taken back: on the lines `lo..hi` of the text before an edit,
/// which hold the line that the edit names, the edit is undone by `revert`,
/// and the lines outside them are the same before and after.
proof fn lemma_revert_applied(text: Seq<Seq<char>>, action: SingleAction, lo: int, hi: int)
    requires
        applies(text, action),
        0 <= lo <= action_line(action) < hi <= text.len(),
    ensures
        applied(text, action).len() == text.len() + growth(action),
        revert(applied(text, action).subrange(lo, hi + growth(action)), action, lo)
            == text.subrange(lo, hi),
        applied(text, action).subrange(0, lo) == text.subrange(0, lo),
        applied(text, action).subrange(hi + growth(action), text.len() + growth(action))
            == text.subrange(hi, text.len() as int),
{
    let after = applied(text, action);
    let window = after.subrange(lo, hi + growth(action));
    match action {
        SingleAction::AddChar(a) => {
            let y = a.start_pos.y - lo;
            let line = text[a.start_pos.y as int];
            assert(window[y] == after[a.start_pos.y as int]);
            assert(crate::line::without_range(
                window[y],
                a.start_pos.x as int,
                a.start_pos.x + 1,
            ) =~= line);
            assert(revert(window, action, lo) =~= text.subrange(lo, hi));
        },
        SingleAction::RemoveChar(a) => {
            let y = a.start_pos.y - lo;
            let line = text[a.start_pos.y as int];
            assert(window[y] == after[a.start_pos.y as int]);
            assert(crate::line::inserted(window[y], seq![a.char], a.start_pos.x - 1) =~= line);
            assert(revert(window, action, lo) =~= text.subrange(lo, hi));
        },
        SingleAction::RemoveLine(line) => {
            assert(text[line as int] =~= Seq::<char>::empty());
            assert(revert(window, action, lo) =~= text.subrange(lo, hi));
        },
        SingleAction::NewLine(pos) => {
            let y = pos.y - lo;
            let line = text[pos.y as int];
            assert(window[y] == after[pos.y as int]);
            assert(window[y + 1] == after[pos.y + 1]);
            assert(window[y] + window[y + 1] =~= line);
            assert(revert(window, action, lo) =~= text.subrange(lo, hi));
        },
    }
    assert(after.subrange(0, lo) =~= text.subrange(0, lo));
    assert(after.subrange(hi + growth(action), text.len() + growth(action)) =~= text.subrange(
        hi,
        text.len() as int,
    ));
}

/// A batch taken back: on the lines `lo..hi` of the text that a batch left,
/// `revert_all` gives the lines that stood there before the batch, and the
/// lines outside them are the same before and after.
proof fn lemma_revert_all_applied(
    text: Seq<Seq<char>>,
    actions: Seq<SingleAction>,
    lo: int,
    hi: int,
)
    requires
        all_apply(text, actions),
        confined(actions, lo, hi),
        0 <= lo <= hi <= applied_all(text, actions).len(),
    ensures
        applied_all(text, actions).len() == text.len() + net_growth(actions),
        lo <= hi - net_growth(actions) <= text.len(),
        revert_all(applied_all(text, actions).subrange(lo, hi), actions, lo) == text.subrange(
            lo,
            hi - net_growth(actions),
        ),
        applied_all(text, actions).subrange(0, lo) == text.subrange(0, lo),
        applied_all(text, actions).subrange(hi, applied_all(text, actions).len() as int)
            == text.subrange(hi - net_growth(actions), text.len() as int),
    decreases actions.len(),
{
    let after = applied_all(text, actions);
    if actions.len() == 0 {
    } else {
        let rest = actions.drop_last();
        let last = actions.last();
        let middle = applied_all(text, rest);
        let before = hi - growth(last);
        lemma_applied_len(middle, last);
        lemma_revert_applied(middle, last, lo, before);
        lemma_revert_all_applied(text, rest, lo, before);
    }
}

/// An edit changes the number of lines by its growth.
proof fn lemma_applied_len(text: Seq<Seq<char>>, action: SingleAction)
    requires
        applies(text, action),
    ensures
        applied(text, action).len() == text.len() + growth(action),
{
}

/// The lines that a record covers hold every line that its batch names:
/// where the lines `lo..hi` end at the document's end or one past a line
/// that is at least the greatest line named plus the lines added, and `lo`
/// is at most the least line named, the batch is confined to them.
proof fn lemma_confined(
    text: Seq<Seq<char>>,
    actions: Seq<SingleAction>,
    lo: int,
    bound: int,
    reach: int,
)
    requires
        all_apply(text, actions),
        lo <= min_line(actions, bound),
        reach >= max_line(actions) + added_lines(actions),
    ensures
        confined(actions, lo, clip(reach + 1, applied_all(text, actions).len() as int)),
        applied_all(text, actions).len() == text.len() + net_growth(actions),
    decreases actions.len(),
{
    if actions.len() > 0 {
        let rest = actions.drop_last();
        let last = actions.last();
        let middle = applied_all(text, rest);
        lemma_applied_len(middle, last);
        lemma_added_lines_nonnegative(rest);
        lemma_max_line_nonnegative(rest);
        lemma_confined(text, rest, lo, bound, reach - growth(last));
    }
}

/// No batch adds a negative number of lines.
proof fn lemma_added_lines_nonnegative(actions: Seq<SingleAction>)
    ensures
        added_lines(actions) >= 0,
    decreases actions.len(),
{
    if actions.len() > 0 {
        lemma_added_lines_nonnegative(actions.drop_last());
    }
}

/// The greatest line that a batch names is no negative number.
proof fn lemma_max_line_nonnegative(actions: Seq<SingleAction>)
    ensures
        max_line(actions) >= 0,
    decreases actions.len(),
{
    if actions.len() > 0 {
        lemma_max_line_nonnegative(actions.drop_last());
    }
}

/// The least line that a batch names is at most the bound it is given, and
/// no negative number.
proof fn lemma_min_line_bounds(actions: Seq<SingleAction>, bound: int)
    requires
        bound >= 0,
    ensures
        0 <= min_line(actions, bound) <= bound,
    decreases actions.len(),
{
    if actions.len() > 0 {
        lemma_min_line_bounds(actions.drop_last(), bound);
    }
}

/// The record that closes a batch on `text` puts its lines in the place of
/// the lines it covers: it is one of a batch that left at least as many
/// lines as it found, or it covers no line of `text`.
pub open spec fn restores_in_place(text: Seq<Seq<char>>, pending: Pending) -> bool {
    let entry = entry_of(text, pending);
    entry.adds || snapshot(text, entry.start_index as int, entry.end_index as int).len() == 0
}

/// History round trip, on the document: where a batch of edits led from the
/// text `before` to the text `after`, and its record puts its lines in the
/// place of the lines it covers, taking the record back restores `before`.
pub proof fn lemma_record_restores(before: Seq<Seq<char>>, pending: Pending)
    requires
        before.len() >= 1,
        all_apply(before, pending.actions),
        applied_all(before, pending.actions).len() <= usize::MAX,
        restores_in_place(applied_all(before, pending.actions), pending),
    ensures
        undone(
            applied_all(before, pending.actions),
            entry_of(applied_all(before, pending.actions), pending),
        ) == before,
{
    let actions = pending.actions;
    let after = applied_all(before, actions);
    let len = after.len() as int;
    let entry = entry_of(after, pending);
    let lo = min_line(actions, len);
    let reach = max_line(actions) + added_lines(actions);
    let hi = clip(reach + 1, len);
    lemma_min_line_bounds(actions, len);
    lemma_added_lines_nonnegative(actions);
    lemma_max_line_nonnegative(actions);
    lemma_confined(before, actions, lo, len, reach);
    assert(clip(index(reach) + 1, len) == hi);
    if actions.len() == 0 {
        assert(entry.lines =~= Seq::<Seq<char>>::empty());
        assert(undone(after, entry) =~= before);
    } else {
        assert(lo <= hi);
        lemma_revert_all_applied(before, actions, lo, hi);
        assert(snapshot(after, lo, index(reach) as int) =~= after.subrange(lo, hi));
        assert(entry.lines == before.subrange(lo, hi - net_growth(actions)));
        assert(undone(after, entry) =~= before);
    }
}

/// History round trip: where the batch of an editor led from the text
/// `before` to the text of the editor and began with the caret at a place of
/// `before`, and its record puts its lines in the place of the lines it
/// covers, closing the batch and taking the record back restores `before`
/// and puts the caret where it was when the batch began; the undo stack is
/// what it was.
pub proof fn lemma_flush_then_undo(m: EditorModel, before: Seq<Seq<char>>, now: u64)
    requires
        m.wf(),
        m.text.len() <= usize::MAX,
        before.len() >= 1,
        m.flushes(now),
        all_apply(before, m.pending.unwrap().actions),
        applied_all(before, m.pending.unwrap().actions) == m.text,
        in_bounds(before, m.pending.unwrap().cursor_index),
        restores_in_place(m.text, m.pending.unwrap()),
    ensures
        m.feed_history(now).undo().text == before,
        m.feed_history(now).undo().cursor == m.pending.unwrap().cursor_index,
        m.feed_history(now).undo().history == m.history,
        m.feed_history(now).undo().pending is None,
{
    let pending = m.pending.unwrap();
    lemma_record_restores(before, pending);
    lemma_clamp_pos(before, pending.cursor_index);
    let fed = m.feed_history(now);
    assert(fed.history.last() == entry_of(m.text, pending));
    assert(fed.history.drop_last() =~= m.history);
}

/// The edits of the keyboard are what their records say. With nothing
/// selected, each of these leaves the text that its record, read forward,
/// gives: one character typed, Enter, Backspace behind a character or at the
/// start of an empty line, and Delete on an empty line.
pub proof fn lemma_keys_record_their_edits(m: EditorModel, now: u64, typed: String)
    requires
        m.wf(),
        m.selection is None,
    ensures
        typed@.len() == 1 ==> {
            let action = SingleAction::AddChar(
                AddCharAction { start_pos: m.cursor, char: typed },
            );
            applies(m.text, action) && m.type_text(now, typed).text == applied(m.text, action)
        },
        ({
            let action = SingleAction::NewLine(m.cursor);
            applies(m.text, action) && m.enter(now).text == applied(m.text, action)
        }),
        m.cursor.x > 0 ==> {
            let action = SingleAction::RemoveChar(
                RemoveCharAction {
                    start_pos: m.cursor,
                    char: m.current_line()[m.cursor.x - 1],
                },
            );
            applies(m.text, action) && m.backspace(now).text == applied(m.text, action)
        },
        m.cursor.x == 0 && m.cursor.y > 0 && m.current_line().len() == 0 ==> {
            let action = SingleAction::RemoveLine(m.cursor.y);
            applies(m.text, action) && m.backspace(now).text == applied(m.text, action)
        },
        m.current_line().len() == 0 && m.cursor.y + 1 < m.text.len() ==> {
            let action = SingleAction::RemoveLine(m.cursor.y);
            applies(m.text, action) && m.delete(now).text == applied(m.text, action)
        },
{
    if m.cursor.x == 0 && m.cursor.y > 0 && m.current_line().len() == 0 {
        let y = m.cursor.y as int;
        assert(m.text[y - 1] + m.text[y] =~= m.text[y - 1]);
        assert(crate::buffer::text_merged(m.text, y) =~= m.text.remove(y));
    }
}

} // verus!
