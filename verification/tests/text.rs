use dothoard::keys::KeyCode;
use dothoard::text::{
    backspace, delete, display_width, edit, insert_char, move_left, move_right, normalize_cursor, prefix,
    trim_text, truncate, width_before_cursor, wrap,
};
use dothoard::viewport::Viewport;

#[test]
fn editing_respects_character_boundaries() {
    let mut text = String::from("a界b");
    let mut cursor = 2; // inside the wide character
    normalize_cursor(&text, &mut cursor);
    assert_eq!(cursor, 1);
    insert_char(&mut text, &mut cursor, 'é');
    assert_eq!(text, "aé界b");
    assert_eq!(cursor, 3);
    move_right(&text, &mut cursor);
    assert_eq!(cursor, 6);
    assert!(backspace(&mut text, &mut cursor));
    assert_eq!(text, "aéb");
    assert_eq!(cursor, 3);
    move_left(&text, &mut cursor);
    assert_eq!(cursor, 1);
    assert!(delete(&mut text, &mut cursor));
    assert_eq!(text, "ab");
    let mut end = 2;
    assert!(!delete(&mut text, &mut end));
    let mut start = 0;
    assert!(!backspace(&mut text, &mut start));
    assert!(edit(&mut text, &mut start, KeyCode::Char('x')));
    assert_eq!(text, "xab");
    assert!(!edit(&mut text, &mut start, KeyCode::End));
    assert_eq!(start, 3);
}

#[test]
fn widths_truncation_and_prefixes() {
    assert_eq!(display_width("界界"), 4);
    assert_eq!(display_width("abc"), 3);
    assert_eq!(width_before_cursor("a界b", 4), 3);
    assert_eq!(prefix("界界界", 5), "界界");
    assert_eq!(truncate("hello world", 8), "hello...");
    assert_eq!(truncate("hello", 8), "hello");
    assert_eq!(truncate("hello", 2), "he");
    assert_eq!(trim_text("  padded \t"), "padded");
}

#[test]
fn wrapping_keeps_words_and_paragraphs() {
    assert_eq!(wrap("the quick brown fox", 10), vec!["the quick", "brown fox"]);
    assert_eq!(wrap("one\n\ntwo", 10), vec!["one", "", "two"]);
    assert_eq!(wrap("abcdefghij", 4), vec!["abcd", "efgh", "ij"]);
}

#[test]
fn viewport_follows_the_active_row() {
    let mut v = Viewport::new();
    v.set_height(3, 10);
    v.ensure_visible(5, 10);
    assert_eq!(v.offset(), 3);
    v.scroll_down(100, 10);
    assert_eq!(v.offset(), 7);
    assert_eq!(v.visible_range(10), 7..10);
    v.scroll_up(2);
    assert_eq!(v.offset(), 5);
    v.home();
    assert_eq!(v.offset(), 0);
    v.end(2);
    assert_eq!(v.visible_range(2), 0..2);
    assert_eq!(v.page_size(), 3);
}

#[test]
fn wrapped_lines_never_exceed_the_width_but_for_a_lone_wide_character() {
    // The words carried over from a break leave no room for the wide
    // character, so it starts a line of its own; no empty line is left.
    assert_eq!(wrap(" abc界", 4), vec!["abc", "界"]);
    for line in wrap(" abc界 de 界界 f", 4) {
        assert!(display_width(&line) <= 4 || line.chars().count() == 1, "{line:?}");
    }
    assert_eq!(wrap("界", 1), vec!["界"]);
    assert_eq!(wrap("", 5), vec![String::new()]);
}

#[test]
fn wrapped_lines_fit_by_display_width() {
    let text = "\u{263A}\u{FE0F}\u{263A}\u{FE0F} ok \u{1F468}\u{200D}\u{1F469}\u{200D}\u{1F467} x\u{0007}y";
    for width in 1..8 {
        let lines = wrap(text, width);
        for line in &lines {
            assert!(display_width(line) <= width || line.chars().count() <= 1, "{line:?} at {width}");
        }
        let kept: String = lines.concat().chars().filter(|c| !c.is_whitespace()).collect();
        let want: String = text.chars().filter(|c| !c.is_whitespace()).collect();
        assert_eq!(kept, want);
    }
}
