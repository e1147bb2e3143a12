use kiro::editor::Editor;
use kiro::persist::{save_file_name, split_text};
use kiro::KEY_ACTION;

fn lines(e: &Editor) -> Vec<String> {
    e.rows().iter().map(|r| r.iter().collect()).collect()
}

fn editor_with(rows: usize, cols: usize, content: &[&str]) -> Editor {
    let mut e = Editor::new(rows, cols);
    for line in content {
        e.append_line(line);
    }
    e
}

fn line_len(e: &Editor, row: usize) -> usize {
    e.rows().get(row).map_or(0, |r| r.len())
}

#[test]
fn new_editor_clamps_viewport_to_one() {
    let e = Editor::new(0, 0);
    assert_eq!(e.screenrows(), 1);
    assert_eq!(e.screencols(), 1);
    assert!(e.is_empty());
    assert_eq!(e.dirty(), 0);
    assert!(e.filename().is_none());
    let d = Editor::default();
    assert_eq!(d.screenrows(), 1);
    assert_eq!(d.screencols(), 1);
}

#[test]
fn backspace_three_times_at_end_of_abc() {
    let mut e = editor_with(24, 80, &["abc"]);
    for _ in 0..3 {
        e.move_cursor(KEY_ACTION::ARROW_RIGHT);
    }
    assert_eq!(e.filecol(), 3);
    for _ in 0..3 {
        e.delete_character();
    }
    assert_eq!(lines(&e), vec![""]);
    assert_eq!(e.dirty(), 3);
    assert_eq!(e.cx(), 0);
    assert_eq!(e.filecol(), 0);
}

#[test]
fn backspace_at_start_of_second_line_joins_lines() {
    let mut e = editor_with(24, 80, &["ab", "cd"]);
    e.move_cursor(KEY_ACTION::ARROW_DOWN);
    assert_eq!((e.filerow(), e.filecol()), (1, 0));
    e.delete_character();
    assert_eq!(lines(&e), vec!["abcd"]);
    assert_eq!((e.filerow(), e.filecol()), (0, 2));
    assert_eq!(e.dirty(), 1);
}

#[test]
fn backspace_join_scrolls_to_show_join_point() {
    let mut e = editor_with(24, 4, &["abcdef", "gh"]);
    e.move_cursor(KEY_ACTION::ARROW_DOWN);
    e.delete_character();
    assert_eq!(lines(&e), vec!["abcdefgh"]);
    assert_eq!(e.filecol(), 6);
    assert_eq!(e.cx(), 3);
    assert_eq!(e.coloff(), 3);
}

#[test]
fn backspace_at_start_of_document_does_nothing() {
    let mut e = editor_with(24, 80, &["ab"]);
    e.delete_character();
    assert_eq!(lines(&e), vec!["ab"]);
    assert_eq!(e.dirty(), 0);
}

#[test]
fn backspace_past_end_of_document_does_nothing() {
    let mut e = editor_with(24, 80, &["ab"]);
    e.move_cursor(KEY_ACTION::ARROW_DOWN);
    assert_eq!((e.filerow(), e.filecol()), (1, 0));
    e.delete_character();
    assert_eq!(lines(&e), vec!["ab"]);
    assert_eq!((e.filerow(), e.filecol()), (1, 0));
    assert_eq!(e.dirty(), 0);
}

#[test]
fn enter_at_end_of_line_adds_empty_line_after() {
    let mut e = editor_with(24, 80, &["hello", "world"]);
    for _ in 0..5 {
        e.move_cursor(KEY_ACTION::ARROW_RIGHT);
    }
    e.insert_newline();
    assert_eq!(lines(&e), vec!["hello", "", "world"]);
    assert_eq!((e.filerow(), e.filecol()), (1, 0));
    assert_eq!(e.dirty(), 1);
}

#[test]
fn enter_inside_line_splits_at_cursor() {
    let mut e = editor_with(24, 80, &["hello"]);
    e.move_cursor(KEY_ACTION::ARROW_RIGHT);
    e.move_cursor(KEY_ACTION::ARROW_RIGHT);
    e.insert_newline();
    assert_eq!(lines(&e), vec!["he", "llo"]);
    assert_eq!((e.cx(), e.cy()), (0, 1));
}

#[test]
fn enter_past_end_of_document_appends_line_without_edit() {
    let mut e = editor_with(24, 80, &["a"]);
    e.move_cursor(KEY_ACTION::ARROW_DOWN);
    e.insert_newline();
    assert_eq!(lines(&e), vec!["a", ""]);
    assert_eq!(e.filerow(), 2);
    assert_eq!(e.dirty(), 0);
}

#[test]
fn enter_on_bottom_row_scrolls() {
    let mut e = editor_with(2, 80, &["a", "b"]);
    e.move_cursor(KEY_ACTION::ARROW_DOWN);
    e.insert_newline();
    assert_eq!(e.cy(), 1);
    assert_eq!(e.rowoff(), 1);
    assert_eq!(e.filerow(), 2);
}

#[test]
fn typing_inserts_at_cursor_and_advances() {
    let mut e = editor_with(24, 80, &["ac"]);
    e.move_cursor(KEY_ACTION::ARROW_RIGHT);
    e.insert_char('b');
    assert_eq!(lines(&e), vec!["abc"]);
    assert_eq!(e.filecol(), 2);
    assert_eq!(e.dirty(), 1);
}

#[test]
fn typing_in_empty_document_creates_line() {
    let mut e = Editor::new(24, 80);
    e.insert_char('x');
    e.insert_char('y');
    assert_eq!(lines(&e), vec!["xy"]);
    assert_eq!(e.dirty(), 2);
}

#[test]
fn typing_in_last_column_scrolls_right() {
    let mut e = Editor::new(24, 3);
    for c in "abcde".chars() {
        e.insert_char(c);
    }
    assert_eq!(lines(&e), vec!["abcde"]);
    assert_eq!(e.cx(), 2);
    assert_eq!(e.coloff(), 3);
    assert_eq!(e.filecol(), 5);
}

#[test]
fn insert_then_delete_restores_line() {
    for col in 0..=4 {
        let mut e = editor_with(24, 2, &["abcd", "efg"]);
        for _ in 0..col {
            e.move_cursor(KEY_ACTION::ARROW_RIGHT);
        }
        let before = (e.filerow(), e.filecol());
        e.insert_char('Z');
        e.delete_character();
        assert_eq!(lines(&e), vec!["abcd", "efg"]);
        assert_eq!((e.filerow(), e.filecol()), before);
    }
}

#[test]
fn left_at_line_start_wraps_to_end_of_previous_line() {
    let mut e = editor_with(24, 80, &["abc", "de"]);
    e.move_cursor(KEY_ACTION::ARROW_DOWN);
    e.move_cursor(KEY_ACTION::ARROW_LEFT);
    assert_eq!((e.filerow(), e.filecol()), (0, 3));
}

#[test]
fn left_at_top_of_screen_scrolls_up_to_previous_line() {
    let mut e = editor_with(1, 80, &["abc", "de"]);
    e.move_cursor(KEY_ACTION::ARROW_DOWN);
    assert_eq!((e.cy(), e.rowoff()), (0, 1));
    e.move_cursor(KEY_ACTION::ARROW_LEFT);
    assert_eq!((e.filerow(), e.filecol()), (0, 3));
    assert_eq!(e.rowoff(), 0);
}

#[test]
fn right_at_line_end_wraps_to_next_line() {
    let mut e = editor_with(24, 80, &["ab", "cd"]);
    for _ in 0..3 {
        e.move_cursor(KEY_ACTION::ARROW_RIGHT);
    }
    assert_eq!((e.filerow(), e.filecol()), (1, 0));
}

#[test]
fn moves_stop_at_document_bounds() {
    let mut e = editor_with(24, 80, &["ab"]);
    e.move_cursor(KEY_ACTION::ARROW_UP);
    e.move_cursor(KEY_ACTION::ARROW_LEFT);
    assert_eq!((e.filerow(), e.filecol()), (0, 0));
    e.move_cursor(KEY_ACTION::ARROW_DOWN);
    e.move_cursor(KEY_ACTION::ARROW_DOWN);
    e.move_cursor(KEY_ACTION::ARROW_DOWN);
    assert_eq!(e.filerow(), 1);
    e.move_cursor(KEY_ACTION::ARROW_RIGHT);
    assert_eq!((e.filerow(), e.filecol()), (1, 0));
}

#[test]
fn moving_down_to_shorter_line_clamps_column() {
    let mut e = editor_with(24, 80, &["abcdef", "xy"]);
    for _ in 0..5 {
        e.move_cursor(KEY_ACTION::ARROW_RIGHT);
    }
    e.move_cursor(KEY_ACTION::ARROW_DOWN);
    assert_eq!((e.filerow(), e.filecol()), (1, 2));
}

#[test]
fn moving_down_clamps_scrolled_column() {
    let mut e = editor_with(24, 3, &["abcdefgh", "x"]);
    for _ in 0..7 {
        e.move_cursor(KEY_ACTION::ARROW_RIGHT);
    }
    assert_eq!((e.cx(), e.coloff()), (2, 5));
    e.move_cursor(KEY_ACTION::ARROW_DOWN);
    assert_eq!((e.cx(), e.coloff()), (0, 1));
    assert_eq!(e.filecol(), 1);
}

#[test]
fn cursor_stays_within_its_line_after_every_move() {
    let mut e = editor_with(3, 4, &["abcdefg", "", "hi", "jklmnopq", "r"]);
    let keys = [
        KEY_ACTION::ARROW_RIGHT,
        KEY_ACTION::ARROW_RIGHT,
        KEY_ACTION::ARROW_RIGHT,
        KEY_ACTION::ARROW_RIGHT,
        KEY_ACTION::ARROW_RIGHT,
        KEY_ACTION::ARROW_DOWN,
        KEY_ACTION::ARROW_DOWN,
        KEY_ACTION::ARROW_DOWN,
        KEY_ACTION::ARROW_RIGHT,
        KEY_ACTION::ARROW_RIGHT,
        KEY_ACTION::ARROW_RIGHT,
        KEY_ACTION::ARROW_RIGHT,
        KEY_ACTION::ARROW_RIGHT,
        KEY_ACTION::ARROW_RIGHT,
        KEY_ACTION::ARROW_UP,
        KEY_ACTION::ARROW_LEFT,
        KEY_ACTION::ARROW_LEFT,
        KEY_ACTION::ARROW_DOWN,
        KEY_ACTION::ARROW_DOWN,
        KEY_ACTION::ARROW_DOWN,
        KEY_ACTION::ARROW_DOWN,
        KEY_ACTION::ARROW_UP,
        KEY_ACTION::ARROW_LEFT,
    ];
    for key in keys {
        e.move_cursor(key);
        assert!(e.filecol() <= line_len(&e, e.filerow()));
        assert!(e.filerow() <= e.rows().len());
        assert!(e.cx() < e.screencols() && e.cy() < e.screenrows());
    }
}

#[test]
fn resize_keeps_cursor_position_in_document() {
    let mut e = editor_with(10, 10, &["a", "b", "c", "d", "e", "f", "g", "abcdefghi"]);
    for _ in 0..7 {
        e.move_cursor(KEY_ACTION::ARROW_DOWN);
    }
    for _ in 0..8 {
        e.move_cursor(KEY_ACTION::ARROW_RIGHT);
    }
    assert_eq!((e.filerow(), e.filecol()), (7, 8));
    e.resize(3, 4);
    assert_eq!((e.filerow(), e.filecol()), (7, 8));
    assert_eq!((e.cy(), e.cx()), (2, 3));
    assert_eq!((e.rowoff(), e.coloff()), (5, 5));
    e.resize(0, 0);
    assert_eq!((e.screenrows(), e.screencols()), (1, 1));
    assert_eq!((e.filerow(), e.filecol()), (7, 8));
}

#[test]
fn insert_line_counts_as_edit_and_clamps_cursor() {
    let mut e = editor_with(24, 80, &["abcdef"]);
    for _ in 0..4 {
        e.move_cursor(KEY_ACTION::ARROW_RIGHT);
    }
    e.insert_line(0, "xy");
    assert_eq!(lines(&e), vec!["xy", "abcdef"]);
    assert_eq!(e.dirty(), 1);
    assert_eq!((e.filerow(), e.filecol()), (0, 2));
}

#[test]
fn save_then_load_gives_same_lines() {
    let mut e = Editor::new(24, 80);
    e.set_filename(String::from("notes.txt"));
    for c in "héllo wörld".chars() {
        e.insert_char(c);
    }
    e.insert_newline();
    for c in "キロ".chars() {
        e.insert_char(c);
    }
    e.insert_newline();
    assert!(e.dirty() > 0);
    let saved = e.save_contents();
    assert_eq!(saved, "héllo wörld\nキロ\n\n");
    e.mark_saved();
    assert_eq!(e.dirty(), 0);
    let mut reloaded = Editor::new(24, 80);
    reloaded.load(&saved);
    assert_eq!(lines(&reloaded), lines(&e));
    assert_eq!(reloaded.dirty(), 0);
}

#[test]
fn split_text_treats_last_unterminated_line_as_line() {
    let rows: Vec<String> = split_text("a\nb").iter().map(|r| r.iter().collect()).collect();
    assert_eq!(rows, vec!["a", "b"]);
    let rows: Vec<String> = split_text("a\n\nb\n").iter().map(|r| r.iter().collect()).collect();
    assert_eq!(rows, vec!["a", "", "b"]);
    assert!(split_text("").is_empty());
}

#[test]
fn save_file_name_adds_suffix() {
    assert_eq!(save_file_name("a.txt"), "a.txt~kirosave");
}

#[test]
fn key_codes_match_terminal_bytes() {
    assert_eq!(KEY_ACTION::ENTER.code(), 13);
    assert_eq!(KEY_ACTION::BACKSPACE.code(), 127);
    assert_eq!(KEY_ACTION::CTRL_Q.code(), 17);
    assert_eq!(KEY_ACTION::ARROW_LEFT.code(), 1000);
    assert_eq!(KEY_ACTION::PAGE_DOWN.code(), 1008);
}
