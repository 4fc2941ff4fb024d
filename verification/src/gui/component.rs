//! The pages of the user interface and the state they keep.

pub mod annotation;
pub mod annotation_tools;
pub mod caster_settings;
pub mod color_picker_window;
pub mod connection;
pub mod home;
pub mod receiver_ip;
pub mod shortcut;
pub mod window_part_screen;
