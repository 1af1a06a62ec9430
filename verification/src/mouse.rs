//! Mouse and touchpad input, answered from the areas the last frame
//! recorded.

use vstd::prelude::*;

use crate::keys::{KeyCode, KeyEvent, KeyModifiers, CONTROL, NO_MODIFIERS};
use crate::pointer::{click_hit, scroll_hit, ClickAction, PointerMap, Region, ScrollAction};
use crate::screens::history::{clamp_selection, HistoryScreen};
use crate::screens::ignore::{IgnoreScreen, ListFocus};
use crate::shell::{after_notes, owns_quit, promoted, shown, App, Focus, Screen, ThemePickerState};
use crate::task::{live_request, load_data, LoadState, LoadTaskKind};
use crate::theme::{theme_at, ThemeId, THEME_COUNT};
use crate::viewport::ensured;

verus! {

/// What the pointer did.
#[derive(Debug, Clone, Copy, PartialEq, Eq, Structural)]
pub enum MouseKind {
    /// The left button went down.
    LeftDown,
    ScrollUp,
    ScrollDown,
    /// Anything else: other buttons, releases, drags, moves.
    Other,
}

/// A pointer event at a terminal cell.
#[derive(Debug, Clone, Copy, PartialEq, Eq, Structural)]
pub struct MouseEvent {
    pub kind: MouseKind,
    pub column: u16,
    pub row: u16,
}

/// What the caller does after a pointer event.
#[derive(Debug, Clone, Copy, PartialEq, Eq, Structural)]
pub enum PointerStep {
    /// Nothing more.
    Nothing,
    /// Handle this key as if it had been typed.
    Key(KeyEvent),
    /// Handle this key as if it had been typed, then call
    /// `finish_pointer_scroll`.
    ScrollKey(KeyEvent),
    /// Put the cursor of the active screen's browser on entry `index`.
    SelectEntry(usize),
    /// Put the cursor of the sources browser on entry `index`, then handle
    /// Space as if it had been typed.
    ToggleEntry(usize),
    /// Make this theme active for a preview.
    PreviewTheme(ThemeId),
}

pub open spec fn key_of(code: KeyCode, bits: u8) -> KeyEvent {
    KeyEvent { code, modifiers: KeyModifiers { bits } }
}

/// The key a wheel turn over a scroll area stands for: Up or Down, with
/// Control over a picker's preview pane.
pub open spec fn scroll_key(target: ScrollAction, down: bool) -> KeyEvent {
    key_of(
        if down { KeyCode::Down } else { KeyCode::Up },
        if target == ScrollAction::PickerPreview { CONTROL } else { NO_MODIFIERS },
    )
}

/// The state after a click, before the screens' messages move to the
/// status region.
pub open spec fn clicked(a: App, action: ClickAction, history_len: usize) -> App {
    match action {
        ClickAction::Tab(screen) => App { active_screen: screen, focus: Focus::TabBar, ..a },
        ClickAction::FocusContent | ClickAction::Key(_, _) => a,
        ClickAction::PickerEntry(_) | ClickAction::PickerToggle(_) => App { focus: Focus::Content, ..a },
        ClickAction::Source(i) => App {
            focus: Focus::Content,
            sources_screen: crate::screens::sources::SourcesScreen { selected: i, ..a.sources_screen },
            ..a
        },
        ClickAction::IgnorePattern(i) => App {
            focus: Focus::Content,
            ignore_screen: crate::screens::ignore::IgnoreScreen {
                pattern_idx: i,
                list_focus: ListFocus::PatternList,
                ..a.ignore_screen
            },
            ..a
        },
        ClickAction::Namespace(i) => App {
            focus: Focus::Content,
            repo_screen: crate::screens::repository::RepoScreen { namespace_selected: i, ..a.repo_screen },
            ..a
        },
        ClickAction::IgnoreSource(_) | ClickAction::History(_) | ClickAction::Theme(_) => a,
    }
}

/// The step a click asks of the caller.
pub open spec fn click_step(a: App, action: ClickAction) -> PointerStep {
    match action {
        ClickAction::FocusContent => if a.focus == Focus::TabBar {
            PointerStep::Key(key_of(KeyCode::Down, NO_MODIFIERS))
        } else {
            PointerStep::Nothing
        },
        ClickAction::Key(code, modifiers) => PointerStep::Key(KeyEvent { code, modifiers }),
        ClickAction::PickerEntry(i) => if a.active_screen == Screen::Repository || a.active_screen
            == Screen::Sources {
            PointerStep::SelectEntry(i)
        } else {
            PointerStep::Nothing
        },
        ClickAction::PickerToggle(i) => PointerStep::ToggleEntry(i),
        ClickAction::Theme(i) => if i < THEME_COUNT && a.theme_picker is Some {
            PointerStep::PreviewTheme(theme_at(i as int))
        } else {
            PointerStep::Nothing
        },
        _ => PointerStep::Nothing,
    }
}

/// `b` is `a` after the click `action`: what `clicked` says, and for the
/// clicks that reach further, the ignore preview forgotten on a change of
/// source, the history selection clamped and scrolled into view, and the
/// theme picker's highlight moved.
pub open spec fn click_applied(a: App, action: ClickAction, history_len: usize, b: App) -> bool {
    match action {
        ClickAction::IgnoreSource(i) => {
            &&& b == (App {
                focus: Focus::Content,
                ignore_screen: IgnoreScreen {
                    source_idx: i,
                    pattern_idx: 0,
                    list_focus: ListFocus::SourceSelector,
                    preview_state: LoadState::Stale { previous: load_data(a.ignore_screen.preview_state) },
                    ..a.ignore_screen
                },
                tasks: b.tasks,
                ..a
            })
            &&& live_request(b.tasks@, LoadTaskKind::IgnorePreview) is None
            &&& forall|k: LoadTaskKind|
                k != LoadTaskKind::IgnorePreview ==> #[trigger] live_request(b.tasks@, k) == live_request(a.tasks@, k)
            &&& b.tasks@.active == a.tasks@.active
        },
        ClickAction::History(i) => {
            &&& b == (App {
                focus: Focus::Content,
                history_screen: HistoryScreen {
                    selected: clamp_selection(i, history_len),
                    list_viewport: b.history_screen.list_viewport,
                    ..a.history_screen
                },
                ..a
            })
            &&& b.history_screen.list_viewport@ == ensured(
                a.history_screen.list_viewport@,
                clamp_selection(i, history_len) as nat,
                history_len as nat,
            )
        },
        ClickAction::Theme(i) => b == if i < THEME_COUNT && a.theme_picker is Some {
            App { theme_picker: Some(ThemePickerState { selected: theme_at(i as int), ..a.theme_picker->0 }), ..a }
        } else {
            a
        },
        _ => b == clicked(a, action, history_len),
    }
}

/// `b` is `a` after the pointer event `mouse` over the areas `areas`, before
/// the screens' messages move to the status region; `step` is what the
/// caller does next. A click acts on the topmost area under it; a wheel
/// turn over a scroll area stands for an arrow key, unless the theme picker
/// or an open field or question owns input.
pub open spec fn pointed(
    a: App,
    mouse: MouseEvent,
    areas: Seq<Region>,
    history_len: usize,
    b: App,
    step: PointerStep,
) -> bool {
    match mouse.kind {
        MouseKind::LeftDown => match click_hit(areas, mouse.column, mouse.row) {
            None => step == PointerStep::Nothing && b == a,
            Some(action) => step == click_step(a, action) && click_applied(a, action, history_len, b),
        },
        MouseKind::ScrollUp | MouseKind::ScrollDown => if a.theme_picker is Some || owns_quit(a) {
            step == PointerStep::Nothing && b == a
        } else {
            match scroll_hit(areas, mouse.column, mouse.row) {
                None => step == PointerStep::Nothing && b == a,
                Some(target) => step == PointerStep::ScrollKey(scroll_key(target, mouse.kind == MouseKind::ScrollDown))
                    && b == (App { focus: Focus::Content, ..a }),
            }
        },
        MouseKind::Other => step == PointerStep::Nothing && b == a,
    }
}

impl App {
    /// Answer a pointer event from the areas `map` recorded for the last
    /// frame: a click on the topmost area under the cell acts on it, a
    /// wheel turn over a scroll area stands for an arrow key (unless a
    /// picker, field or question owns input). `history_len` is the number
    /// of recorded runs.
    pub fn handle_mouse(&mut self, mouse: MouseEvent, map: &PointerMap, history_len: usize) -> (step: PointerStep)
        ensures
            exists|mid: App|
                #[trigger] pointed(*old(self), mouse, map@, history_len, mid, step)
                && *final(self) == promoted(mid, final(self).status_message)
                && shown(final(self).status_message) == after_notes(mid),
    {
        let step = match mouse.kind {
            MouseKind::LeftDown => match map.click_at(mouse.column, mouse.row) {
                None => PointerStep::Nothing,
                Some(action) => self.apply_click(action, history_len),
            },
            MouseKind::ScrollUp | MouseKind::ScrollDown => {
                if self.theme_picker.is_some() || self.content_owns_quit_shortcuts() {
                    PointerStep::Nothing
                } else {
                    match map.scroll_at(mouse.column, mouse.row) {
                        None => PointerStep::Nothing,
                        Some(target) => {
                            self.focus = Focus::Content;
                            let down = mouse.kind == MouseKind::ScrollDown;
                            let code = if down {
                                KeyCode::Down
                            } else {
                                KeyCode::Up
                            };
                            let modifiers = match target {
                                ScrollAction::PickerPreview => KeyModifiers::control(),
                                ScrollAction::Vertical | ScrollAction::PickerEntries => KeyModifiers::none(),
                            };
                            PointerStep::ScrollKey(KeyEvent::new(code, modifiers))
                        },
                    }
                }
            },
            MouseKind::Other => PointerStep::Nothing,
        };
        let ghost mid = *self;
        self.promote_screen_messages();
        assert(pointed(*old(self), mouse, map@, history_len, mid, step));
        step
    }

    fn apply_click(&mut self, action: ClickAction, history_len: usize) -> (step: PointerStep)
        ensures
            step == click_step(*old(self), action),
            click_applied(*old(self), action, history_len, *final(self)),
    {
        match action {
            ClickAction::Tab(screen) => {
                self.active_screen = screen;
                self.focus = Focus::TabBar;
                PointerStep::Nothing
            },
            ClickAction::FocusContent => {
                if self.focus == Focus::TabBar {
                    PointerStep::Key(KeyEvent::new(KeyCode::Down, KeyModifiers::none()))
                } else {
                    PointerStep::Nothing
                }
            },
            ClickAction::Key(code, modifiers) => PointerStep::Key(KeyEvent::new(code, modifiers)),
            ClickAction::PickerEntry(index) => {
                let step = match self.active_screen {
                    Screen::Repository | Screen::Sources => PointerStep::SelectEntry(index),
                    _ => PointerStep::Nothing,
                };
                self.focus = Focus::Content;
                step
            },
            ClickAction::PickerToggle(index) => {
                self.focus = Focus::Content;
                PointerStep::ToggleEntry(index)
            },
            ClickAction::Source(index) => {
                self.focus = Focus::Content;
                self.sources_screen.selected = index;
                PointerStep::Nothing
            },
            ClickAction::IgnoreSource(index) => {
                self.invalidate_ignore_preview();
                self.focus = Focus::Content;
                self.ignore_screen.source_idx = index;
                self.ignore_screen.pattern_idx = 0;
                self.ignore_screen.list_focus = ListFocus::SourceSelector;
                PointerStep::Nothing
            },
            ClickAction::IgnorePattern(index) => {
                self.focus = Focus::Content;
                self.ignore_screen.pattern_idx = index;
                self.ignore_screen.list_focus = ListFocus::PatternList;
                PointerStep::Nothing
            },
            ClickAction::Namespace(index) => {
                self.focus = Focus::Content;
                self.repo_screen.namespace_selected = index;
                PointerStep::Nothing
            },
            ClickAction::History(index) => {
                self.focus = Focus::Content;
                self.history_screen.selected = index;
                self.history_screen.clamp_history(history_len);
                PointerStep::Nothing
            },
            ClickAction::Theme(index) => {
                if index < THEME_COUNT {
                    match &mut self.theme_picker {
                        Some(picker) => {
                            let id = ThemeId::from_index(index);
                            picker.selected = id;
                            PointerStep::PreviewTheme(id)
                        },
                        None => PointerStep::Nothing,
                    }
                } else {
                    PointerStep::Nothing
                }
            },
        }
    }

    /// After the key a wheel turn stood for: the content keeps focus even
    /// where the key reached the top of a list, and the screens' messages
    /// move to the status region.
    pub fn finish_pointer_scroll(&mut self)
        ensures
            *final(self) == promoted(App { focus: Focus::Content, ..*old(self) }, final(self).status_message),
            shown(final(self).status_message) == after_notes(*old(self)),
    {
        self.focus = Focus::Content;
        self.promote_screen_messages();
    }
}

} // verus!
