use text_editor::bracket::BracketMatch;
use text_editor::frame::{Frame, Pointer};
use text_editor::input::{Event, Key, Modifiers};
use text_editor::text_editor::{Pos, TextEditor};
use text_editor::viewport::{Geometry, Rect, ViewportWindow};

fn geometry() -> Geometry {
    Geometry {
        viewport_min: Pos { x: 0, y: 0 },
        viewport_max: Pos { x: 0, y: 0 },
        line_height: 10,
        char_width: 5,
        scroll_offset: Pos { x: 0, y: 0 },
    }
}

fn editor(lines: &[&str]) -> TextEditor {
    TextEditor::new(lines.iter().map(|l| l.to_string()).collect(), geometry())
}

fn text(editor: &TextEditor) -> Vec<&str> {
    editor.lines().iter().map(|l| l.as_str()).collect()
}

fn idle() -> Pointer {
    Pointer {
        position: None,
        clicked: false,
        double_clicked: false,
        drag_started: false,
        dragged: false,
    }
}

fn frame(time: u64, pointer: Pointer, events: Vec<Event>) -> Frame {
    Frame {
        area_min: Pos { x: 10, y: 20 },
        area_max: Pos { x: 210, y: 120 },
        scroll_offset: Pos { x: 0, y: 0 },
        pointer,
        events,
        time,
    }
}

fn rect(min: (i64, i64), max: (i64, i64)) -> Rect {
    Rect { min: Pos { x: min.0, y: min.1 }, max: Pos { x: max.0, y: max.1 } }
}

#[test]
fn the_gutter_has_room_for_the_greatest_line_number() {
    let e = editor(&["a"]);
    assert_eq!(e.gutter_width(), 5);
    assert_eq!(e.gutter(Pos { x: 10, y: 20 }, Pos { x: 210, y: 120 }), rect((10, 20), (15, 120)));
    let e = TextEditor::new((0..120).map(|i| i.to_string()).collect(), geometry());
    assert_eq!(e.gutter_width(), 15);
}

#[test]
fn the_text_area_is_the_area_without_the_gutter() {
    let mut e = editor(&["a"]);
    e.set_area(Pos { x: 10, y: 20 }, Pos { x: 210, y: 120 }, Pos { x: 4, y: 3 });
    assert_eq!(
        e.geometry(),
        Geometry {
            viewport_min: Pos { x: 15, y: 20 },
            viewport_max: Pos { x: 210, y: 120 },
            line_height: 10,
            char_width: 5,
            scroll_offset: Pos { x: 4, y: 3 },
        }
    );
}

#[test]
fn a_tick_draws_and_then_handles_the_keyboard() {
    let mut e = editor(&["ab", "cd"]);
    let scene = e.ui(&frame(0, idle(), vec![Event::Text("x".to_string())]));
    assert_eq!(scene.window, ViewportWindow { first_line_index: 0, last_line_index: 2 });
    assert_eq!(scene.gutter, rect((10, 20), (15, 120)));
    assert_eq!(scene.cursor, Some(rect((15, 20), (17, 30))));
    assert_eq!(scene.selection, vec![]);
    assert_eq!(scene.brackets, vec![]);
    assert_eq!(scene.words, vec![]);
    assert_eq!(scene.scroll_offset, Pos { x: 0, y: 0 });
    assert_eq!(text(&e), vec!["xab", "cd"]);
    assert_eq!(e.cursor_index(), Pos { x: 1, y: 0 });
    let scene = e.ui(&frame(10, idle(), vec![]));
    assert_eq!(scene.cursor, Some(rect((20, 20), (22, 30))));
}

#[test]
fn a_click_moves_the_caret_and_drops_the_selection() {
    let mut e = editor(&["hello", "world"]);
    e.begin_drag(Pos { x: 0, y: 0 });
    e.update_drag(Pos { x: 2, y: 0 });
    let click = Pointer { position: Some(Pos { x: 26, y: 33 }), clicked: true, ..idle() };
    let scene = e.ui(&frame(0, click, vec![]));
    assert_eq!(scene.selection, vec![rect((15, 20), (25, 30))]);
    assert_eq!(e.cursor_index(), Pos { x: 2, y: 1 });
    assert_eq!(e.selection(), None);
}

#[test]
fn a_drag_selects_and_the_caret_follows() {
    let mut e = editor(&["hello", "world"]);
    let down = Pointer {
        position: Some(Pos { x: 21, y: 22 }),
        drag_started: true,
        dragged: true,
        ..idle()
    };
    e.ui(&frame(0, down, vec![]));
    assert_eq!(e.selection(), Some((Pos { x: 1, y: 0 }, Pos { x: 1, y: 0 })));
    let moved = Pointer { position: Some(Pos { x: 31, y: 36 }), dragged: true, ..idle() };
    e.ui(&frame(10, moved, vec![]));
    assert_eq!(e.selection(), Some((Pos { x: 1, y: 0 }, Pos { x: 3, y: 1 })));
    assert_eq!(e.cursor_index(), Pos { x: 3, y: 1 });
    let scene = e.ui(&frame(20, idle(), vec![]));
    assert_eq!(
        scene.selection,
        vec![rect((20, 20), (210, 30)), rect((15, 30), (30, 40))]
    );
}

#[test]
fn a_pointer_without_a_position_does_nothing() {
    let mut e = editor(&["hello"]);
    let nowhere = Pointer {
        position: None,
        clicked: true,
        double_clicked: true,
        drag_started: true,
        dragged: true,
    };
    e.handle_pointer(&nowhere);
    assert_eq!(e.cursor_index(), Pos { x: 0, y: 0 });
    assert_eq!(e.selection(), None);
    assert_eq!(e.start_dragged_index(), None);
}

#[test]
fn a_matched_pair_of_brackets_is_drawn_the_tick_after_the_caret_came() {
    let mut e = editor(&["{", "}"]);
    let keys = vec![Event::Key {
        key: Key::ArrowRight,
        modifiers: Modifiers { shift: false, ctrl: false },
    }];
    let scene = e.ui(&frame(0, idle(), keys));
    assert_eq!(scene.brackets, vec![]);
    assert_eq!(
        e.bracket(),
        BracketMatch::SeekingClose { opening: '{', opening_index: Pos { x: 0, y: 0 } }
    );
    let scene = e.ui(&frame(10, idle(), vec![]));
    assert_eq!(scene.brackets, vec![rect((15, 20), (20, 30)), rect((15, 30), (20, 40))]);
    assert!(matches!(e.bracket(), BracketMatch::Matched { .. }));
}

#[test]
fn the_occurrences_of_the_highlighted_word_are_drawn() {
    let mut e = editor(&["a foo", "b foo c"]);
    let twice = Pointer { position: Some(Pos { x: 31, y: 22 }), double_clicked: true, ..idle() };
    let scene = e.ui(&frame(0, twice, vec![]));
    assert_eq!(scene.words, vec![]);
    assert_eq!(e.highlighted_word(), &Some("foo".to_string()));
    let scene = e.ui(&frame(10, idle(), vec![]));
    assert_eq!(scene.words, vec![rect((25, 20), (40, 30)), rect((25, 30), (40, 40))]);
    assert_eq!(scene.selection, vec![rect((25, 20), (40, 30))]);
}

#[test]
fn a_tick_closes_an_idle_batch() {
    let mut e = editor(&[""]);
    e.ui(&frame(0, idle(), vec![Event::Text("a".to_string())]));
    e.ui(&frame(1999, idle(), vec![]));
    assert_eq!(e.history().len(), 0);
    e.ui(&frame(2000, idle(), vec![]));
    assert_eq!(e.history().len(), 1);
    assert!(e.unsaved_state().is_none());
}

#[test]
fn a_tick_after_the_keyboard_moved_the_caret_scrolls_to_it() {
    let mut e = TextEditor::new((0..40).map(|i| i.to_string()).collect(), geometry());
    e.set_cursor_y(20);
    let down = vec![Event::Key {
        key: Key::ArrowDown,
        modifiers: Modifiers { shift: false, ctrl: false },
    }];
    let scene = e.ui(&frame(0, idle(), down));
    assert_eq!(scene.scroll_offset, Pos { x: 0, y: 0 });
    assert_eq!(scene.cursor, Some(rect((20, 220), (22, 230))));
    let scene = e.ui(&frame(10, idle(), vec![]));
    assert_eq!(scene.window, ViewportWindow { first_line_index: 0, last_line_index: 10 });
    assert_eq!(scene.scroll_offset, Pos { x: 0, y: 130 });
    let mut next = frame(20, idle(), vec![]);
    next.scroll_offset = scene.scroll_offset;
    let scene = e.ui(&next);
    assert_eq!(scene.window, ViewportWindow { first_line_index: 13, last_line_index: 23 });
    assert_eq!(scene.cursor, Some(rect((20, 100), (22, 110))));
    assert_eq!(scene.scroll_offset, Pos { x: 0, y: 130 });
}
