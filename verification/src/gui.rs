//! What the user interface decides: pages, components, theme choices.

pub mod app;
pub mod component;
pub mod resource;
pub mod theme;
