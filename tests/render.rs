use kiro::ansi::goto_position;
use kiro::commands::{
    editorClearStatusMessage, editorDelChar, editorInsertChar, editorInsertNewline,
    editorInsertRow, editorMoveCursor, editorSetStatusMessageQuit, editorSetStatusMessageSearch,
    set_saved_status,
};
use kiro::editor::Editor;
use kiro::status::{Status, STATUS_TIMEOUT};
use kiro::{KEY_ACTION, VERSION};

const PREFIX: &str = "\x1B[?25l\x1B[H";
const ROW_END: &str = "\x1B[0K\r\n";

fn screen_rows(frame: &str, n: usize) -> Vec<String> {
    let body = frame.strip_prefix(PREFIX).expect("frame starts by hiding the cursor");
    body.split(ROW_END).take(n).map(String::from).collect()
}

fn message(e: &Editor) -> String {
    e.status().message().clone()
}

#[test]
fn goto_position_puts_row_before_column() {
    assert_eq!(goto_position(3, 5), "\x1B[5;3H");
    assert_eq!(goto_position(1, 1), "\x1B[1;1H");
    assert_eq!(goto_position(120, 40), "\x1B[40;120H");
}

#[test]
fn empty_document_shows_welcome_a_third_down() {
    let e = Editor::new(24, 80);
    let frame = e.render_frame(0).unwrap();
    let rows = screen_rows(&frame, 24);
    let msg = format!("キロ editor -- version {}", VERSION);
    let count = msg.chars().count();
    let width = 80 - (28 - count) - 1;
    let pad = width - count;
    let expected = format!("~{}{}{}", " ".repeat(pad / 2), msg, " ".repeat(pad - pad / 2));
    for (y, row) in rows.iter().enumerate() {
        if y == 8 {
            assert_eq!(row, &expected);
        } else {
            assert_eq!(row, "~");
        }
    }
}

#[test]
fn narrow_screen_shows_welcome_uncentred() {
    let e = Editor::new(3, 10);
    let frame = e.render_frame(0).unwrap();
    let rows = screen_rows(&frame, 3);
    assert_eq!(rows[0], "~");
    assert_eq!(rows[1], format!("~キロ editor -- version {}", VERSION));
    assert_eq!(rows[2], "~");
}

#[test]
fn frame_shows_cropped_lines_status_bar_and_cursor() {
    let mut e = Editor::new(3, 12);
    e.set_filename(String::from("f.txt"));
    e.append_line("hello world, long line");
    e.append_line("キロ");
    e.move_cursor(KEY_ACTION::ARROW_DOWN);
    e.insert_char('x');
    e.set_status(String::from("hi"), 1000);
    let frame = e.render_frame(2000).unwrap();
    let expected = format!(
        "{}{}{}{}{}{}{}{}",
        PREFIX,
        "hello world,\x1B[0K\r\n",
        "xキロ\x1B[0K\r\n",
        "~\x1B[0K\r\n",
        "\x1B[7mf.txt - 2 lines (modified)2/2\x1B[0K\r\n\x1B[0m",
        "hi\x1B[0K",
        "\x1B[2;2H",
        "\x1B[?25h",
    );
    assert_eq!(frame, expected);
}

#[test]
fn status_bar_pads_to_screen_width() {
    let mut e = Editor::new(1, 30);
    e.set_filename(String::from("a"));
    e.append_line("x");
    let frame = e.render_frame(0).unwrap();
    let left = "a - 1 lines ";
    let right = "1/1";
    let bar = format!("\x1B[7m{}{}{}\x1B[0K\r\n", left, " ".repeat(30 - 12 - 3), right);
    assert!(frame.contains(&bar), "{:?}", frame);
}

#[test]
fn scrolled_view_crops_from_column_offset() {
    let mut e = Editor::new(2, 3);
    e.append_line("abcdef");
    for _ in 0..4 {
        e.move_cursor(KEY_ACTION::ARROW_RIGHT);
    }
    let frame = e.render_frame(0).unwrap();
    let rows = screen_rows(&frame, 2);
    assert_eq!(rows, vec!["cde", "~"]);
    assert!(frame.ends_with("\x1B[1;3H\x1B[?25h"));
}

#[test]
fn status_message_expires_after_timeout() {
    let s = Status::new(String::from("saved"), 100);
    assert!(s.is_live(100));
    assert!(s.is_live(100 + STATUS_TIMEOUT));
    assert!(!s.is_live(101 + STATUS_TIMEOUT));
    assert_eq!(s.visible_message(100 + STATUS_TIMEOUT), vec!['s', 'a', 'v', 'e', 'd']);
    assert!(s.visible_message(101 + STATUS_TIMEOUT).is_empty());
    assert_eq!(s.message(), "saved");
    assert_eq!(s.time(), 100);
}

#[test]
fn expired_message_is_not_drawn() {
    let mut e = Editor::new(1, 20);
    e.append_line("x");
    e.set_status(String::from("gone"), 0);
    let frame = e.render_frame(STATUS_TIMEOUT + 1).unwrap();
    assert!(!frame.contains("gone"));
    let frame = e.render_frame(STATUS_TIMEOUT).unwrap();
    assert!(frame.contains("\x1B[0mgone\x1B[0K"));
}

#[test]
fn status_commands_set_messages() {
    let mut e = Editor::new(24, 80);
    editorSetStatusMessageSearch(&mut e, Some("foo"), 7);
    assert_eq!(message(&e), "Search: foo (Use Esc/Arrows/Return)");
    assert_eq!(e.status().time(), 7);
    editorSetStatusMessageSearch(&mut e, None, 9);
    assert_eq!(e.status().time(), 7);
    editorSetStatusMessageQuit(&mut e, 3, 10);
    assert_eq!(
        message(&e),
        "WARNING!!! File has unsaved changes. Press Ctrl-Q 3 more times to quit."
    );
    editorSetStatusMessageQuit(&mut e, -12, 10);
    assert_eq!(
        message(&e),
        "WARNING!!! File has unsaved changes. Press Ctrl-Q -12 more times to quit."
    );
    editorClearStatusMessage(&mut e, 11);
    assert_eq!(message(&e), "");
    assert_eq!(e.status().time(), 11);
}

#[test]
fn edit_commands_act_on_the_editor() {
    let mut e = Editor::new(24, 80);
    editorInsertRow(&mut e, "ab");
    editorMoveCursor(&mut e, KEY_ACTION::ARROW_RIGHT);
    editorInsertChar(&mut e, 'Z' as i32);
    editorInsertChar(&mut e, 'ロ' as i32);
    editorInsertNewline(&mut e);
    editorDelChar(&mut e);
    let rows: Vec<String> = e.rows().iter().map(|r| r.iter().collect()).collect();
    assert_eq!(rows, vec!["aZロb"]);
    assert_eq!((e.filerow(), e.filecol()), (0, 3));
    assert_eq!(e.dirty(), 4);
}

#[test]
fn default_status_is_empty_at_time_zero() {
    let s = Status::default();
    assert_eq!(s.message(), "");
    assert_eq!(s.time(), 0);
    assert!(s.visible_message(0).is_empty());
}

#[test]
fn saved_status_reports_byte_count() {
    let mut e = Editor::new(24, 80);
    set_saved_status(&mut e, 1234, 5);
    assert_eq!(message(&e), "1234 bytes written to disk");
    assert_eq!(e.status().time(), 5);
}
