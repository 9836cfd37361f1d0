//! Arranges a fixed set of terminal windows into a rectangular grid on a
//! chosen display: a pure grid-layout engine, configuration validation, and
//! the orchestration rules (bounded retries, per-window failure isolation)
//! that drive launching and moving the windows.

pub mod config;
pub mod layout;
pub mod orchestrate;
pub mod windows;
pub mod wsl;
