# dothoard — verified terminal interface state

`dothoard` backs up dotfiles into a Git repository. This crate holds the
decisions of its terminal interface, written in Verus and proved against
their contracts: what every key, click and finished background job does to
the interface state, and what each part of the screen says.

## Layout

- `src/` — the verified library.
  - `shell.rs` — the application state, tab routing, background results,
    configuration edits (sources, ignore rules, selection diffs).
  - `content.rs` — key handling inside each tab and the outside work it
    asks for (`Work`).
  - `screens/` — per-screen state machines: repository, sources, ignore
    rules, preview, automation, history, dashboard.
  - `selection.rs` — the multi-select source model and its diff against
    the configuration.
  - `namespaces.rs` — the namespace list (kept in name order) and the
    namespace operations.
  - `task.rs` — background load lifecycles and request identities.
  - `text.rs`, `chars.rs` — Unicode-aware editing, widths, wrapping.
  - `viewport.rs`, `listing.rs` — scrolling lists and their range notes.
  - `pointer.rs`, `mouse.rs` — pointer hit areas and mouse handling.
  - `hints.rs`, `chrome.rs`, `dialogs.rs`, `overview.rs`, `panes.rs`,
    `repo_view.rs`, `sources_view.rs`, `ignore_view.rs`, `setup_view.rs`
    — the words and click areas of every part of the screen.
  - `walk.rs` — the ignore preview's walk: which entries count, which
    directories it enters (never a symbolic link), when it stops, and the
    order of what it found.
  - `theme.rs`, `status.rs`, `setup.rs`, `picker.rs`, `modal.rs`, `keys.rs`,
    `paths.rs`.
- `tests/` — executable tests of the library.
- `app/` — the terminal around the library: crossterm events, ratatui
  drawing, theme preference files, the directory reads of the preview
  walk, the event loop.

## Checking

The library is checked with Verus; `unicode-width` and `chrono` are called
through small trusted wrappers whose contracts state what those crates
document.
