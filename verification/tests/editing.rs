use text_editor::bracket::BracketMatch;
use text_editor::history::HasUnsavedState;
use text_editor::input::{Event, Key, Modifiers};
use text_editor::selection::Selection;
use text_editor::text_editor::{Pos, TextEditor};
use text_editor::viewport::{Geometry, ViewportWindow};

fn geometry() -> Geometry {
    Geometry {
        viewport_min: Pos { x: 0, y: 0 },
        viewport_max: Pos { x: 200, y: 100 },
        line_height: 10,
        char_width: 5,
        scroll_offset: Pos { x: 0, y: 0 },
    }
}

fn editor(lines: &[&str]) -> TextEditor {
    TextEditor::new(lines.iter().map(|l| l.to_string()).collect(), geometry())
}

fn text(editor: &TextEditor) -> Vec<&str> {
    editor.lines().iter().map(|l| l.as_str()).collect()
}

fn plain() -> Modifiers {
    Modifiers { shift: false, ctrl: false }
}

#[test]
fn typing_inserts_at_the_caret_and_moves_it() {
    let mut e = editor(&["abc"]);
    e.handle_key_events(0, &vec![Event::Text("X".to_string())]);
    assert_eq!(text(&e), vec!["Xabc"]);
    assert_eq!(e.cursor_index(), Pos { x: 1, y: 0 });
}

#[test]
fn backspace_at_line_start_joins_the_lines() {
    let mut e = editor(&["ab", "cd"]);
    e.set_cursor_y(1);
    assert_eq!(e.cursor_index(), Pos { x: 0, y: 1 });
    e.on_key_press(0, Key::Backspace, &plain());
    assert_eq!(text(&e), vec!["abcd"]);
    assert_eq!(e.cursor_index(), Pos { x: 2, y: 0 });
}

#[test]
fn typing_over_a_selection_replaces_it() {
    let mut e = editor(&["hello world"]);
    e.begin_drag(Pos { x: 0, y: 0 });
    e.update_drag(Pos { x: 5, y: 0 });
    assert_eq!(e.selection(), Some((Pos { x: 0, y: 0 }, Pos { x: 5, y: 0 })));
    e.handle_key_events(0, &vec![Event::Text("hi".to_string())]);
    assert_eq!(text(&e), vec!["hi world"]);
    assert_eq!(e.cursor_index(), Pos { x: 2, y: 0 });
    assert_eq!(e.selection(), None);
    assert!(!e.has_selection());
}

#[test]
fn closing_bracket_finds_its_opening_in_the_window() {
    let mut e = editor(&["{", "}"]);
    e.set_cursor_y(1);
    e.set_cursor_x(1);
    assert_eq!(
        e.bracket(),
        BracketMatch::SeekingOpen { closing: '}', closing_index: Pos { x: 0, y: 1 } }
    );
    e.find_opening_matching_char(ViewportWindow { first_line_index: 0, last_line_index: 2 });
    assert_eq!(
        e.bracket(),
        BracketMatch::Matched {
            opening: '{',
            opening_index: Pos { x: 0, y: 0 },
            closing: '}',
            closing_index: Pos { x: 0, y: 1 },
        }
    );
}

#[test]
fn a_burst_of_typing_becomes_one_record() {
    let mut e = editor(&[""]);
    let mut time = 0;
    for c in ["a", "b", "c", "d", "e"] {
        e.handle_key_events(time, &vec![Event::Text(c.to_string())]);
        e.feed_history(time);
        time += 200;
    }
    assert_eq!(text(&e), vec!["abcde"]);
    assert_eq!(e.history().len(), 0);
    e.feed_history(800 + 1999);
    assert_eq!(e.history().len(), 0);
    e.feed_history(800 + 2500);
    assert_eq!(e.history().len(), 1);
    assert!(e.unsaved_state().is_none());
    e.on_key_press(4000, Key::Z, &Modifiers { shift: false, ctrl: true });
    assert_eq!(text(&e), vec![""]);
    assert_eq!(e.cursor_index(), Pos { x: 0, y: 0 });
    assert_eq!(e.history().len(), 0);
}
