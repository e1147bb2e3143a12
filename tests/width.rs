use kiro::width::{char_width, crop_to, render_width};

fn chars(s: &str) -> Vec<char> {
    s.chars().collect()
}

fn text(cs: &[char]) -> String {
    cs.iter().collect()
}

#[test]
fn char_width_of_plain_and_special_characters() {
    assert_eq!(char_width('a'), Some(1));
    assert_eq!(char_width(' '), Some(1));
    assert_eq!(char_width('é'), Some(1));
    assert_eq!(char_width('\t'), Some(8));
    assert_eq!(char_width('キ'), Some(2));
    assert_eq!(char_width('漢'), Some(2));
    assert_eq!(char_width('\u{301}'), Some(0));
    assert_eq!(char_width('\u{200b}'), Some(0));
    assert_eq!(char_width('\0'), Some(0));
    assert_eq!(char_width('\u{941}'), Some(0));
    assert_eq!(char_width('\u{1f680}'), Some(2));
}

#[test]
fn char_width_of_control_codes_is_unknown() {
    assert_eq!(char_width('\u{7}'), None);
    assert_eq!(char_width('\n'), None);
    assert_eq!(char_width('\u{7f}'), None);
    assert_eq!(char_width('\u{9b}'), None);
    assert_eq!(char_width('\u{fffe}'), None);
    assert_eq!(char_width('\u{378}'), None);
}

#[test]
fn render_width_sums_character_widths() {
    assert_eq!(render_width(&chars("")), Some(0));
    assert_eq!(render_width(&chars("abc")), Some(3));
    assert_eq!(render_width(&chars("キロ")), Some(4));
    assert_eq!(render_width(&chars("a\tb")), Some(10));
    assert_eq!(render_width(&chars("e\u{301}")), Some(1));
    assert_eq!(render_width(&chars("キロ editor -- version 0.1.0")), Some(28));
}

#[test]
fn render_width_fails_on_any_unknown_character() {
    assert_eq!(render_width(&chars("ab\u{1}c")), None);
    assert_eq!(render_width(&chars("\u{1b}")), None);
}

#[test]
fn crop_ascii_from_start_keeps_first_n_characters() {
    let line = chars("hello world");
    for n in 0..15 {
        let expected: String = "hello world".chars().take(n).collect();
        assert_eq!(text(&crop_to(&line, 0, n)), expected);
    }
}

#[test]
fn crop_counts_display_columns_not_bytes() {
    let line = chars("héllo");
    assert_eq!(text(&crop_to(&line, 0, 3)), "hél");
    assert_eq!(text(&crop_to(&line, 1, 3)), "éll");
    assert_eq!(text(&crop_to(&line, 0, 10)), "héllo");
}

#[test]
fn crop_skips_columns_before_start() {
    let line = chars("abcdef");
    assert_eq!(text(&crop_to(&line, 2, 3)), "cde");
    assert_eq!(text(&crop_to(&line, 6, 3)), "");
    assert_eq!(text(&crop_to(&line, 10, 3)), "");
}

#[test]
fn crop_keeps_characters_that_start_inside_the_window() {
    let line = chars("キロabc");
    assert_eq!(text(&crop_to(&line, 0, 3)), "キロ");
    assert_eq!(text(&crop_to(&line, 0, 4)), "キロ");
    assert_eq!(text(&crop_to(&line, 1, 4)), "ロa");
    assert_eq!(text(&crop_to(&line, 1, 0)), "");
    assert_eq!(text(&crop_to(&chars("aキ"), 0, 2)), "aキ");
}

#[test]
fn crop_leaves_out_characters_that_start_at_the_right_edge() {
    assert_eq!(text(&crop_to(&chars("ab\u{301}c"), 0, 2)), "ab");
    assert_eq!(text(&crop_to(&chars("abc"), 0, 2)), "ab");
}

#[test]
fn crop_with_zero_width_is_empty() {
    assert_eq!(text(&crop_to(&chars("abc"), 0, 0)), "");
}
