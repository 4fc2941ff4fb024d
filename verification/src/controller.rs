//! The state that the caster and the receiver keep while streaming.

pub mod app_controller;
pub mod receiver_controller;
