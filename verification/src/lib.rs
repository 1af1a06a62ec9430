//! Verified interaction state for the dothoard terminal interface.
//!
//! The modules here hold the decisions of the TUI: list viewports, status
//! messages, Unicode-aware text editing, background-load lifecycles, the
//! per-screen key handling and the multi-select source model. Rendering,
//! terminal I/O and the backend calls stay with the caller.

pub mod viewport;
pub mod chars;
pub mod status;
pub mod text;
pub mod task;
pub mod keys;
pub mod screens;
pub mod paths;
pub mod selection;
pub mod theme;
pub mod setup;
pub mod picker;
pub mod shell;
pub mod content;
pub mod pointer;
pub mod modal;
pub mod hints;
pub mod overview;
pub mod chrome;
pub mod mouse;
pub mod namespaces;
pub mod dialogs;
pub mod setup_view;
pub mod listing;
pub mod panes;
pub mod repo_view;
pub mod sources_view;
pub mod ignore_view;
pub mod walk;
