use text_editor::line::to_chars;
use text_editor::selection::Selection;
use text_editor::text_editor::{Pos, TextEditor};
use text_editor::viewport::{Geometry, ViewportWindow};
use text_editor::words::{is_char_non_part_of_word, word_bounds, word_occurrences};

fn geometry() -> Geometry {
    Geometry {
        viewport_min: Pos { x: 0, y: 0 },
        viewport_max: Pos { x: 200, y: 100 },
        line_height: 10,
        char_width: 5,
        scroll_offset: Pos { x: 0, y: 0 },
    }
}

fn editor(lines: &[&str]) -> TextEditor {
    TextEditor::new(lines.iter().map(|l| l.to_string()).collect(), geometry())
}

fn found(line: &str, word: &str) -> Vec<(usize, usize)> {
    word_occurrences(&to_chars(line), &to_chars(word), 3)
        .iter()
        .map(|(start, end)| {
            assert_eq!(start.y, 3);
            assert_eq!(end.y, 3);
            (start.x, end.x)
        })
        .collect()
}

#[test]
fn letters_digits_underscore_and_hyphen_belong_to_words() {
    for c in ['a', 'Z', '7', '_', '-', 'é', 'ß', '中'] {
        assert!(!is_char_non_part_of_word(c));
    }
    for c in [' ', '.', '(', ')', '\t', '+', '"', ','] {
        assert!(is_char_non_part_of_word(c));
    }
}

#[test]
fn the_word_around_a_place() {
    let line = to_chars("foo bar_baz qux");
    assert_eq!(word_bounds(&line, 5), (4, 11));
    assert_eq!(word_bounds(&line, 4), (4, 11));
    assert_eq!(word_bounds(&line, 11), (4, 11));
    assert_eq!(word_bounds(&line, 0), (0, 3));
    assert_eq!(word_bounds(&line, 3), (0, 3));
    assert_eq!(word_bounds(&line, 13), (12, 15));
    assert_eq!(word_bounds(&line, 15), (12, 15));
    assert_eq!(word_bounds(&line, 99), (12, 15));
}

#[test]
fn the_word_around_a_place_at_the_edges() {
    assert_eq!(word_bounds(&to_chars(""), 0), (0, 0));
    assert_eq!(word_bounds(&to_chars(""), 4), (0, 0));
    assert_eq!(word_bounds(&to_chars(" ab"), 0), (0, 3));
    assert_eq!(word_bounds(&to_chars("ab "), 3), (3, 3));
    assert_eq!(word_bounds(&to_chars("a  b"), 2), (2, 2));
}

#[test]
fn a_word_occurs_between_characters_that_end_words() {
    assert_eq!(found("a foo b", "foo"), vec![(2, 5)]);
    assert_eq!(found("x foo", "foo"), vec![(2, 5)]);
    assert_eq!(found("(foo)(foo)", "foo"), vec![(1, 4), (6, 9)]);
    assert_eq!(found("a foo foo", "foo"), vec![(2, 5), (6, 9)]);
}

#[test]
fn a_word_does_not_occur_inside_another_or_at_the_start_of_a_line() {
    assert_eq!(found("foo bar", "foo"), vec![]);
    assert_eq!(found("a food", "foo"), vec![]);
    assert_eq!(found("a xfoo", "foo"), vec![]);
    assert_eq!(found("a fo", "foo"), vec![]);
    assert_eq!(found("", "foo"), vec![]);
    assert_eq!(found("a b", ""), vec![]);
    assert_eq!(found("a b c", "a b"), vec![]);
}

#[test]
fn occurrences_count_characters() {
    assert_eq!(found("é süß ü", "süß"), vec![(2, 5)]);
}

#[test]
fn a_double_click_selects_and_highlights_the_word() {
    let mut e = editor(&["foo bar_baz qux", "bar_baz", "x bar_baz", "a bar_bazz"]);
    e.on_double_click(Pos { x: 27, y: 3 });
    assert_eq!(e.selection(), Some((Pos { x: 4, y: 0 }, Pos { x: 11, y: 0 })));
    assert_eq!(e.highlighted_word(), &Some("bar_baz".to_string()));
    assert_eq!(e.cursor_index(), Pos { x: 11, y: 0 });
    assert!(e.is_single_line_selection());
    e.highlight_word_occurrences(ViewportWindow { first_line_index: 0, last_line_index: 4 });
    assert_eq!(
        e.word_occurrences(),
        &vec![
            (Pos { x: 4, y: 0 }, Pos { x: 11, y: 0 }),
            (Pos { x: 2, y: 2 }, Pos { x: 9, y: 2 }),
        ]
    );
    e.highlight_word_occurrences(ViewportWindow { first_line_index: 1, last_line_index: 2 });
    assert_eq!(e.word_occurrences(), &vec![]);
    e.highlight_word_occurrences(ViewportWindow { first_line_index: 0, last_line_index: 9 });
    assert_eq!(e.word_occurrences(), &vec![]);
}

#[test]
fn a_double_click_on_a_short_word_keeps_the_highlight() {
    let mut e = editor(&["ab c", "tail"]);
    e.on_double_click(Pos { x: 1, y: 1 });
    assert_eq!(e.highlighted_word(), &Some("ab".to_string()));
    e.on_double_click(Pos { x: 16, y: 1 });
    assert_eq!(e.selection(), Some((Pos { x: 3, y: 0 }, Pos { x: 4, y: 0 })));
    assert_eq!(e.highlighted_word(), &Some("ab".to_string()));
    assert_eq!(e.cursor_index(), Pos { x: 4, y: 0 });
}

#[test]
fn a_double_click_below_the_document_takes_the_last_line() {
    let mut e = editor(&["ab", "cd ef"]);
    e.on_double_click(Pos { x: 21, y: 95 });
    assert_eq!(e.selection(), Some((Pos { x: 3, y: 1 }, Pos { x: 5, y: 1 })));
    assert_eq!(e.highlighted_word(), &Some("ef".to_string()));
}

#[test]
fn without_a_highlighted_word_nothing_occurs() {
    let mut e = editor(&["a a a"]);
    e.highlight_word_occurrences(ViewportWindow { first_line_index: 0, last_line_index: 1 });
    assert_eq!(e.word_occurrences(), &vec![]);
}
