//! The first page, where the user chooses a role.

use vstd::prelude::*;

verus! {

/// What this instance of the application does: send its screen, or show
/// another's.
#[derive(Clone, Copy, Debug, PartialEq, Eq, Structural)]
pub enum Role {
    Caster,
    Receiver,
}

#[derive(Clone, Copy, Debug, PartialEq, Eq, Structural)]
pub enum Message {
    ChosenRole(Role),
}

/// The home page keeps no state.
pub struct Home {}

impl Home {
    /// Choosing a role changes nothing on this page; the application
    /// reacts to it.
    pub fn update(&mut self, message: Message) {
    }
}

} // verus!
