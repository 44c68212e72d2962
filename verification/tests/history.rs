use text_editor::history::{
    AddCharAction, BulkAction, HasUnsavedState, RemoveCharAction, SingleAction, INACTIVITY_PERIOD,
};
use text_editor::input::{Event, Key, Modifiers};
use text_editor::text_editor::{Pos, TextEditor};
use text_editor::viewport::Geometry;

fn geometry() -> Geometry {
    Geometry {
        viewport_min: Pos { x: 0, y: 0 },
        viewport_max: Pos { x: 200, y: 100 },
        line_height: 10,
        char_width: 5,
        scroll_offset: Pos { x: 0, y: 0 },
    }
}

fn editor(lines: &[&str]) -> TextEditor {
    TextEditor::new(lines.iter().map(|l| l.to_string()).collect(), geometry())
}

fn text(editor: &TextEditor) -> Vec<&str> {
    editor.lines().iter().map(|l| l.as_str()).collect()
}

fn plain() -> Modifiers {
    Modifiers { shift: false, ctrl: false }
}

fn undo(e: &mut TextEditor) {
    e.on_key_press(0, Key::Z, &Modifiers { shift: false, ctrl: true });
}

fn type_text(e: &mut TextEditor, time: u64, s: &str) {
    e.handle_key_events(time, &vec![Event::Text(s.to_string())]);
}

fn restored(e: &TextEditor) -> (bool, usize, usize, Vec<String>) {
    let state = e.history().last().unwrap();
    match &state.bulk_action {
        BulkAction::AddText(a) => (true, a.start_index, a.end_index, a.lines.clone()),
        BulkAction::RemoveText(a) => (false, a.start_index, a.end_index, a.lines.clone()),
    }
}

#[test]
fn the_threshold_is_two_seconds() {
    assert_eq!(INACTIVITY_PERIOD, 2000);
}

#[test]
fn the_first_action_opens_a_batch_with_the_caret_of_that_moment() {
    let mut e = editor(&["abc"]);
    e.set_cursor_x(2);
    assert!(e.unsaved_state().is_none());
    e.push_action_to_unsaved_state(100, SingleAction::RemoveLine(0));
    let batch = e.unsaved_state().as_ref().unwrap();
    assert_eq!(batch.last_activity_at, 100);
    assert_eq!(batch.cursor_index, Pos { x: 2, y: 0 });
    assert_eq!(batch.actions.len(), 1);
    assert!(matches!(batch.actions[0], SingleAction::RemoveLine(0)));
}

#[test]
fn an_action_in_time_extends_the_batch() {
    let mut e = editor(&["abc"]);
    e.push_action_to_unsaved_state(100, SingleAction::NewLine(Pos { x: 0, y: 0 }));
    e.set_cursor_x(1);
    e.push_action_to_unsaved_state(2099, SingleAction::RemoveLine(0));
    let batch = e.unsaved_state().as_ref().unwrap();
    assert_eq!(batch.last_activity_at, 2099);
    assert_eq!(batch.cursor_index, Pos { x: 0, y: 0 });
    assert_eq!(batch.actions.len(), 2);
    assert_eq!(e.history().len(), 0);
}

#[test]
fn an_action_after_a_long_pause_closes_the_batch_at_once() {
    let mut e = editor(&["ab"]);
    type_text(&mut e, 0, "x");
    e.set_cursor_x(3);
    type_text(&mut e, 2000, "y");
    assert_eq!(text(&e), vec!["xaby"]);
    assert!(e.unsaved_state().is_none());
    assert_eq!(e.history().len(), 1);
    assert_eq!(e.history()[0].created_at, 0);
    assert_eq!(e.history()[0].cursor_index, Pos { x: 0, y: 0 });
    assert_eq!(restored(&e), (true, 0, 0, vec!["ab".to_string()]));
}

#[test]
fn init_opens_an_empty_batch() {
    let mut e = editor(&["ab"]);
    e.set_cursor_x(1);
    e.init_unsaved_state(7);
    let batch = e.unsaved_state().as_ref().unwrap();
    assert_eq!(batch.last_activity_at, 7);
    assert_eq!(batch.cursor_index, Pos { x: 1, y: 0 });
    assert_eq!(batch.actions.len(), 0);
}

#[test]
fn flush_waits_for_the_pause() {
    let mut e = editor(&["ab"]);
    assert!(e.flush_unsaved_state(10_000).is_none());
    type_text(&mut e, 1000, "x");
    assert!(e.flush_unsaved_state(2999).is_none());
    assert!(e.flush_unsaved_state(500).is_none());
    assert!(e.unsaved_state().is_some());
    let state = e.flush_unsaved_state(3000).unwrap();
    assert!(e.unsaved_state().is_none());
    assert_eq!(state.created_at, 1000);
    assert_eq!(state.cursor_index, Pos { x: 0, y: 0 });
    assert!(
        matches!(&state.bulk_action, BulkAction::AddText(a) if a.start_index == 0 && a.end_index == 0 && a.lines == vec!["ab".to_string()])
    );
    assert_eq!(e.history().len(), 0);
    assert!(e.flush_unsaved_state(9000).is_none());
}

#[test]
fn a_record_covers_the_lines_that_the_batch_touched() {
    let mut e = editor(&["zero", "one", "two", "three"]);
    e.set_cursor_y(1);
    e.set_cursor_x(3);
    e.on_key_press(0, Key::Enter, &plain());
    type_text(&mut e, 10, "x");
    assert_eq!(text(&e), vec!["zero", "one", "x", "two", "three"]);
    e.feed_history(2010);
    assert_eq!(restored(&e), (true, 1, 3, vec!["one".to_string(), "two".to_string()]));
    assert_eq!(e.history()[0].cursor_index, Pos { x: 3, y: 1 });
    undo(&mut e);
    assert_eq!(text(&e), vec!["zero", "one", "two", "three"]);
    assert_eq!(e.cursor_index(), Pos { x: 3, y: 1 });
}

#[test]
fn undo_puts_a_removed_character_back() {
    let mut e = editor(&["abc"]);
    e.set_cursor_x(2);
    e.on_key_press(0, Key::Backspace, &plain());
    assert_eq!(text(&e), vec!["ac"]);
    e.feed_history(5000);
    assert_eq!(restored(&e), (true, 0, 0, vec!["abc".to_string()]));
    undo(&mut e);
    assert_eq!(text(&e), vec!["abc"]);
    assert_eq!(e.cursor_index(), Pos { x: 2, y: 0 });
}

#[test]
fn undo_joins_a_broken_line() {
    let mut e = editor(&["abc", "d"]);
    e.set_cursor_x(1);
    e.on_key_press(0, Key::Enter, &plain());
    assert_eq!(text(&e), vec!["a", "bc", "d"]);
    e.feed_history(2000);
    assert_eq!(restored(&e), (true, 0, 1, vec!["abc".to_string()]));
    undo(&mut e);
    assert_eq!(text(&e), vec!["abc", "d"]);
    assert_eq!(e.cursor_index(), Pos { x: 1, y: 0 });
}

#[test]
fn a_batch_that_removed_lines_is_a_removal() {
    let mut e = editor(&["ab", ""]);
    e.set_cursor_y(1);
    e.on_key_press(0, Key::Backspace, &plain());
    assert_eq!(text(&e), vec!["ab"]);
    assert_eq!(e.cursor_index(), Pos { x: 2, y: 0 });
    e.feed_history(2000);
    assert_eq!(restored(&e), (false, 1, 1, vec!["".to_string()]));
    undo(&mut e);
    assert_eq!(text(&e), vec!["ab", ""]);
    assert_eq!(e.cursor_index(), Pos { x: 0, y: 1 });
}

#[test]
fn a_removal_is_put_back_before_its_first_line_without_replacing() {
    let mut e = editor(&["a", "", "b"]);
    e.set_cursor_y(1);
    e.on_key_press(0, Key::Delete, &plain());
    assert_eq!(text(&e), vec!["a", "b"]);
    e.feed_history(2000);
    assert_eq!(restored(&e), (false, 1, 1, vec!["".to_string(), "b".to_string()]));
    undo(&mut e);
    assert_eq!(text(&e), vec!["a", "", "b", "b"]);
}

#[test]
fn undo_on_an_empty_stack_does_nothing() {
    let mut e = editor(&["ab"]);
    e.set_cursor_x(1);
    undo(&mut e);
    assert_eq!(text(&e), vec!["ab"]);
    assert_eq!(e.cursor_index(), Pos { x: 1, y: 0 });
    e.undo();
    assert_eq!(text(&e), vec!["ab"]);
}

#[test]
fn undo_takes_records_back_latest_first_and_discards_them() {
    let mut e = editor(&[""]);
    type_text(&mut e, 0, "a");
    e.feed_history(2000);
    type_text(&mut e, 3000, "b");
    e.feed_history(5000);
    assert_eq!(e.history().len(), 2);
    undo(&mut e);
    assert_eq!(text(&e), vec!["a"]);
    assert_eq!(e.history().len(), 1);
    undo(&mut e);
    assert_eq!(text(&e), vec![""]);
    assert_eq!(e.history().len(), 0);
    undo(&mut e);
    assert_eq!(text(&e), vec![""]);
}

#[test]
fn a_batch_without_actions_restores_nothing() {
    let mut e = editor(&["a", "b"]);
    e.init_unsaved_state(0);
    e.feed_history(2000);
    assert_eq!(restored(&e), (true, 2, 0, vec![]));
    undo(&mut e);
    assert_eq!(text(&e), vec!["a", "b"]);
}

#[test]
fn undo_brings_a_stale_selection_into_the_document() {
    let mut e = editor(&["abc"]);
    e.set_cursor_x(3);
    e.on_key_press(0, Key::Enter, &plain());
    for c in ["d", "e", "f", "g", "h"] {
        type_text(&mut e, 0, c);
    }
    assert_eq!(text(&e), vec!["abc", "defgh"]);
    e.feed_history(2000);
    e.begin_drag(Pos { x: 1, y: 1 });
    e.update_drag(Pos { x: 4, y: 1 });
    assert_eq!(e.selection(), Some((Pos { x: 1, y: 1 }, Pos { x: 4, y: 1 })));
    undo(&mut e);
    assert_eq!(text(&e), vec!["abc"]);
    assert_eq!(e.selection(), Some((Pos { x: 1, y: 0 }, Pos { x: 3, y: 0 })));
}

#[test]
fn a_record_takes_back_one_character_for_each_typing() {
    let mut e = editor(&["ab"]);
    type_text(&mut e, 0, "xyz");
    assert_eq!(text(&e), vec!["xyzab"]);
    assert_eq!(e.cursor_index(), Pos { x: 3, y: 0 });
    e.feed_history(2000);
    assert_eq!(restored(&e), (true, 0, 0, vec!["yzab".to_string()]));
}

#[test]
fn actions_outside_the_snapshot_are_skipped() {
    let mut e = editor(&["ab"]);
    e.push_action_to_unsaved_state(
        0,
        SingleAction::AddChar(AddCharAction { start_pos: Pos { x: 9, y: 0 }, char: "q".to_string() }),
    );
    e.push_action_to_unsaved_state(
        0,
        SingleAction::RemoveChar(RemoveCharAction { start_pos: Pos { x: 0, y: 0 }, char: 'z' }),
    );
    e.push_action_to_unsaved_state(0, SingleAction::NewLine(Pos { x: 0, y: 0 }));
    e.feed_history(2000);
    assert_eq!(restored(&e), (true, 0, 1, vec!["zab".to_string()]));
}
