use dothoard::theme::{rgb, Color, ThemeId, THEME_COUNT};

#[test]
fn slugs_round_trip_and_unknown_slugs_are_refused() {
    for id in ThemeId::all() {
        assert_eq!(ThemeId::from_slug(id.slug()), Some(id));
    }
    assert_eq!(ThemeId::from_slug("no-such-theme"), None);
    assert_eq!(ThemeId::from_slug(""), None);
}

#[test]
fn next_and_prev_are_inverse_and_cycle() {
    for id in ThemeId::all() {
        assert_eq!(id.next().prev(), id);
        assert_eq!(id.prev().next(), id);
        let mut t = id;
        for _ in 0..THEME_COUNT {
            t = t.next();
        }
        assert_eq!(t, id);
    }
    assert_eq!(ThemeId::System.prev(), ThemeId::Kanagawa);
    assert_eq!(ThemeId::Kanagawa.next(), ThemeId::System);
}

#[test]
fn labels_and_indices() {
    assert_eq!(ThemeId::System.label(), "System (Terminal)");
    assert_eq!(ThemeId::RosePine.slug(), "rose-pine");
    assert_eq!(ThemeId::from_index(ThemeId::Nord.index()), ThemeId::Nord);
    assert_eq!(ThemeId::from_index(99), ThemeId::System);
}

#[test]
fn rgb_splits_the_channels() {
    assert_eq!(rgb(0x1e1e2e), Color::Rgb(0x1e, 0x1e, 0x2e));
    assert_eq!(rgb(0xff5555), Color::Rgb(255, 85, 85));
    assert_eq!(ThemeId::Dracula.palette().error, Color::Rgb(0xff, 0x55, 0x55));
    assert_eq!(ThemeId::System.palette().background, Color::Reset);
    assert_eq!(ThemeId::System.palette().accent, Color::Cyan);
}
