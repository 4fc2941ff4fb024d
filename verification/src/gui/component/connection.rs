//! The page that shows the caster's address before sharing starts.

use vstd::prelude::*;

verus! {

#[derive(Clone, Copy, Debug, PartialEq, Eq, Structural)]
pub enum Message {
    StartSharing,
}

/// The address that receivers must type to reach this caster.
pub struct Connection {
    pub ip_address: String,
}

} // verus!
