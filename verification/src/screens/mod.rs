//! Per-screen state and logic.
//!
//! Each screen that requires its own interactive state beyond what the
//! application provides has a module here that manages input, validation,
//! and interaction.

pub mod ignore;
pub mod automation;
pub mod dashboard;
pub mod preview;
pub mod repository;
pub mod sources;
pub mod history;
