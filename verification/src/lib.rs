//! Verified core of a multi-platform screen-casting application: pixel
//! format conversion, frame framing over UDP, viewer registration, keyboard
//! shortcuts, and the decisions taken by the user interface.

pub mod utils;
pub mod socket;
pub mod model;
pub mod gui;
pub mod controller;
pub mod screenshare;
