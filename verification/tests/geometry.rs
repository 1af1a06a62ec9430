use dothoard::keys::{KeyCode, KeyEvent, KeyModifiers};
use dothoard::modal::{body_width, dialog_area, dialog_height, dialog_width, input_window};
use dothoard::picker::{entry_icon, finish_command, handle_key, BrowserCommand, EntryKind, PickerAction, Presentation};
use dothoard::pointer::{contains, ClickAction, PointerMap, Rect, ScrollAction};
use dothoard::shell::Screen;

#[test]
fn dialog_area_is_centered_and_clamped() {
    assert_eq!(dialog_area(Rect::new(0, 0, 80, 24), 40, 10), Rect::new(20, 7, 40, 10));
    assert_eq!(dialog_area(Rect::new(0, 0, 10, 3), 40, 10), Rect::new(0, 0, 10, 3));
}

#[test]
fn dialog_sizes() {
    assert_eq!(dialog_width(10), 24);
    assert_eq!(dialog_width(50), 46);
    assert_eq!(dialog_width(200), 76);
    assert_eq!(body_width(24), 20);
    assert_eq!(body_width(3), 1);
    assert_eq!(dialog_height(5), 7);
    assert_eq!(dialog_height(usize::MAX), u16::MAX);
}

#[test]
fn input_window_keeps_the_cursor_visible() {
    let text = "prefix-界界界";
    assert_eq!(input_window(text, "prefix-界界".len(), 40), (text.to_string(), 11));
    let (shown, cursor) = input_window(text, "prefix-界界".len(), 6);
    assert_eq!(shown, "x-界界");
    assert_eq!(cursor, 6);
    let (shown, cursor) = input_window("abcdefgh", 3, 4);
    assert_eq!(shown, "abcd");
    assert_eq!(cursor, 3);
}

#[test]
fn last_drawn_region_wins() {
    let mut map = PointerMap::new();
    map.click(Rect::new(0, 0, 10, 10), ClickAction::Tab(Screen::Sources));
    map.click(Rect::new(2, 2, 3, 3), ClickAction::History(4));
    map.click(Rect::new(0, 0, 0, 5), ClickAction::FocusContent);
    map.scroll(Rect::new(0, 0, 10, 10), ScrollAction::Vertical);
    assert_eq!(map.click_at(3, 3), Some(ClickAction::History(4)));
    assert_eq!(map.click_at(8, 8), Some(ClickAction::Tab(Screen::Sources)));
    assert_eq!(map.click_at(10, 0), None);
    assert_eq!(map.scroll_at(0, 0), Some(ScrollAction::Vertical));
    map.clear();
    assert_eq!(map.click_at(3, 3), None);
    assert!(contains(Rect::new(65530, 0, 100, 1), 65534, 0));
    assert!(!contains(Rect::new(65530, 0, 100, 1), 65535, 0));
}

#[test]
fn picker_keys_and_icons() {
    let plain = |code| KeyEvent::new(code, KeyModifiers::none());
    assert_eq!(handle_key(plain(KeyCode::PageDown), 0), BrowserCommand::PageDown(20));
    assert_eq!(handle_key(plain(KeyCode::Char('l')), 5), BrowserCommand::EnterSelected);
    assert_eq!(
        handle_key(KeyEvent::new(KeyCode::Char('r'), KeyModifiers::control()), 5),
        BrowserCommand::Refresh
    );
    assert_eq!(handle_key(KeyEvent::new(KeyCode::Up, KeyModifiers::shift()), 5), BrowserCommand::Ignore);
    assert!(matches!(finish_command(BrowserCommand::MoveUp, false, None), PickerAction::NotConsumed));
    assert!(matches!(finish_command(BrowserCommand::Cancel, false, None), PickerAction::Cancel));
    assert_eq!(entry_icon(EntryKind::Directory, false, true), "D");
    assert_eq!(entry_icon(EntryKind::File, true, false), "*");
    assert_eq!(entry_icon(EntryKind::Symlink, false, false), "↪");
    let p = Presentation::sources().ascii_safe();
    assert_eq!(p.label, "Sources");
    assert!(p.ascii);
}
