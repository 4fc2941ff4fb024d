//! The page where a receiver types the caster's address.

use vstd::prelude::*;
use vstd::string::*;

verus! {

pub enum Message {
    ChangeInput(String),
    Pressed(String),
}

/// The address typed so far, and the last registration error shown under
/// it (empty when there is none).
pub struct ReceiverIp {
    pub indirizzo_ip: String,
    pub message: String,
}

impl ReceiverIp {
    /// Typing replaces the address and clears the error; pressing connect
    /// changes nothing here.
    pub fn update(&mut self, message: Message)
        ensures
            match message {
                Message::ChangeInput(v) => final(self).indirizzo_ip@ == v@ && final(self).message@ == Seq::<char>::empty(),
                Message::Pressed(_) => final(self).indirizzo_ip@ == old(self).indirizzo_ip@
                    && final(self).message@ == old(self).message@,
            },
    {
        match message {
            Message::ChangeInput(new_value) => {
                self.indirizzo_ip = new_value;
                self.message = String::new();
            },
            Message::Pressed(_ip) => {},
        }
    }
}

} // verus!
