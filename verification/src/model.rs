//! What the application remembers between runs.

pub mod shortcut;
