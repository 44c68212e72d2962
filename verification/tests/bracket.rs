use text_editor::bracket::{
    closing_match, matching_closing_char, matching_opening_char, opening_match, BracketMatch,
};
use text_editor::text_editor::{Pos, TextEditor};
use text_editor::viewport::{Geometry, ViewportWindow};

fn doc(lines: &[&str]) -> Vec<String> {
    lines.iter().map(|l| l.to_string()).collect()
}

fn window(first: usize, last: usize) -> ViewportWindow {
    ViewportWindow { first_line_index: first, last_line_index: last }
}

fn editor(lines: &[&str]) -> TextEditor {
    TextEditor::new(
        doc(lines),
        Geometry {
            viewport_min: Pos { x: 0, y: 0 },
            viewport_max: Pos { x: 200, y: 100 },
            line_height: 10,
            char_width: 5,
            scroll_offset: Pos { x: 0, y: 0 },
        },
    )
}

#[test]
fn partners_of_brackets() {
    assert_eq!(matching_closing_char('{'), '}');
    assert_eq!(matching_closing_char('('), ')');
    assert_eq!(matching_closing_char('['), ']');
    assert_eq!(matching_closing_char('x'), 'x');
    assert_eq!(matching_opening_char('}'), '{');
    assert_eq!(matching_opening_char(')'), '(');
    assert_eq!(matching_opening_char(']'), '[');
    assert_eq!(matching_opening_char('x'), 'x');
}

#[test]
fn nested_brackets_are_counted() {
    let lines = doc(&["f(a(b)c)d)"]);
    assert_eq!(
        closing_match(&lines, '(', Pos { x: 1, y: 0 }, window(0, 1)),
        Some(Pos { x: 7, y: 0 })
    );
    assert_eq!(
        closing_match(&lines, '(', Pos { x: 3, y: 0 }, window(0, 1)),
        Some(Pos { x: 5, y: 0 })
    );
    assert_eq!(
        opening_match(&lines, ')', Pos { x: 7, y: 0 }, window(0, 1)),
        Some(Pos { x: 1, y: 0 })
    );
    assert_eq!(
        opening_match(&lines, ')', Pos { x: 5, y: 0 }, window(0, 1)),
        Some(Pos { x: 3, y: 0 })
    );
    assert_eq!(opening_match(&lines, ')', Pos { x: 9, y: 0 }, window(0, 1)), None);
}

#[test]
fn other_kinds_of_brackets_are_not_counted() {
    let lines = doc(&["{ ( } )"]);
    assert_eq!(
        closing_match(&lines, '{', Pos { x: 0, y: 0 }, window(0, 1)),
        Some(Pos { x: 4, y: 0 })
    );
    assert_eq!(
        closing_match(&lines, '(', Pos { x: 2, y: 0 }, window(0, 1)),
        Some(Pos { x: 6, y: 0 })
    );
}

#[test]
fn the_search_runs_over_lines() {
    let lines = doc(&["fn f() {", "  g[1];", "}"]);
    assert_eq!(
        closing_match(&lines, '{', Pos { x: 7, y: 0 }, window(0, 3)),
        Some(Pos { x: 0, y: 2 })
    );
    assert_eq!(
        opening_match(&lines, '}', Pos { x: 0, y: 2 }, window(0, 3)),
        Some(Pos { x: 7, y: 0 })
    );
    assert_eq!(
        opening_match(&lines, ']', Pos { x: 5, y: 1 }, window(0, 3)),
        Some(Pos { x: 3, y: 1 })
    );
}

#[test]
fn a_partner_below_the_window_is_not_found() {
    let lines = doc(&["(", "", "", "", "", "", "", ")"]);
    assert_eq!(closing_match(&lines, '(', Pos { x: 0, y: 0 }, window(0, 3)), None);
    assert_eq!(closing_match(&lines, '(', Pos { x: 0, y: 0 }, window(0, 7)), None);
    assert_eq!(
        closing_match(&lines, '(', Pos { x: 0, y: 0 }, window(0, 8)),
        Some(Pos { x: 0, y: 7 })
    );
}

#[test]
fn a_partner_above_the_window_is_not_found() {
    let lines = doc(&["(", "", "", ")"]);
    assert_eq!(opening_match(&lines, ')', Pos { x: 0, y: 3 }, window(1, 4)), None);
    assert_eq!(
        opening_match(&lines, ')', Pos { x: 0, y: 3 }, window(0, 4)),
        Some(Pos { x: 0, y: 0 })
    );
}

#[test]
fn an_empty_window_finds_nothing() {
    let lines = doc(&["()"]);
    assert_eq!(closing_match(&lines, '(', Pos { x: 0, y: 0 }, window(0, 0)), None);
    assert_eq!(opening_match(&lines, ')', Pos { x: 1, y: 0 }, window(0, 0)), None);
    assert_eq!(closing_match(&lines, '(', Pos { x: 0, y: 0 }, window(1, 5)), None);
}

#[test]
fn the_editor_reports_no_match_for_a_partner_outside_the_window() {
    let mut e = editor(&["{", "a", "b", "c", "d", "e", "f", "}"]);
    e.set_cursor_x(1);
    let seeking = BracketMatch::SeekingClose { opening: '{', opening_index: Pos { x: 0, y: 0 } };
    assert_eq!(e.bracket(), seeking);
    e.find_closing_matching_char(window(0, 2));
    assert_eq!(e.bracket(), seeking);
    e.find_opening_matching_char(window(0, 8));
    assert_eq!(e.bracket(), seeking);
    e.find_closing_matching_char(window(0, 8));
    assert_eq!(
        e.bracket(),
        BracketMatch::Matched {
            opening: '{',
            opening_index: Pos { x: 0, y: 0 },
            closing: '}',
            closing_index: Pos { x: 0, y: 7 },
        }
    );
}

#[test]
fn an_idle_matcher_stays_idle() {
    let mut e = editor(&["()"]);
    e.find_closing_matching_char(window(0, 1));
    e.find_opening_matching_char(window(0, 1));
    assert_eq!(e.bracket(), BracketMatch::Idle);
}
