//! The receiver's streaming state, and what the user is told when
//! registration with a caster fails.

use vstd::prelude::*;
use vstd::string::*;
use crate::socket::address::RegistrationError;

verus! {

/// Whether the receiving task must stop.
pub struct ReceiverController {
    stop_flag: bool,
}

impl ReceiverController {
    pub fn new() -> (c: Self)
        ensures
            !c.is_stopped_spec(),
    {
        ReceiverController { stop_flag: false }
    }

    pub closed spec fn is_stopped_spec(&self) -> bool {
        self.stop_flag
    }

    pub fn is_stopped(&self) -> (s: bool)
        ensures
            s == self.is_stopped_spec(),
    {
        self.stop_flag
    }

    /// Frames are received again (the receiving task is started afresh).
    pub fn start_receiving(&mut self)
        ensures
            !final(self).is_stopped_spec(),
    {
        self.stop_flag = false;
    }

    /// Ends the stream: nothing happens when it is already stopped;
    /// otherwise it stops, and the socket must be destroyed.
    pub fn close_streaming(&mut self) -> (destroy_socket: bool)
        ensures
            final(self).is_stopped_spec(),
            destroy_socket == !old(self).is_stopped_spec(),
    {
        if self.stop_flag {
            return false;
        }
        self.stop_flag = true;
        true
    }
}

/// What the user is told when registration fails.
pub open spec fn registration_error_text(e: RegistrationError) -> Seq<char> {
    match e {
        RegistrationError::InvalidIp => "L'indirizzo IP inserito non è valido."@,
        RegistrationError::PortParsingError => "La porta specificata non è valida."@,
        RegistrationError::SocketNotInitialized => "La socket non è stata inizializzata correttamente."@,
        RegistrationError::ConnectionReset => "Connessione interrotta dal caster."@,
        RegistrationError::NetworkUnreachable => "La rete non è raggiungibile. Controlla la tua connessione."@,
        RegistrationError::UnknownError(m) => m@,
    }
}

/// What the user is told after asking a caster to register: a success
/// text, or the reason for the failure.
pub fn registration_outcome(r: Result<(), RegistrationError>) -> (text: Result<String, String>)
    ensures
        match r {
            Ok(_) => text matches Ok(t) && t@ == "Registrazione completata con successo!"@,
            Err(e) => text matches Err(t) && t@ == registration_error_text(e),
        },
{
    match r {
        Ok(_) => Ok(String::from_str("Registrazione completata con successo!")),
        Err(e) => {
            let text = match e {
                RegistrationError::InvalidIp => String::from_str("L'indirizzo IP inserito non è valido."),
                RegistrationError::PortParsingError => String::from_str("La porta specificata non è valida."),
                RegistrationError::SocketNotInitialized => String::from_str(
                    "La socket non è stata inizializzata correttamente.",
                ),
                RegistrationError::ConnectionReset => String::from_str("Connessione interrotta dal caster."),
                RegistrationError::NetworkUnreachable => String::from_str(
                    "La rete non è raggiungibile. Controlla la tua connessione.",
                ),
                RegistrationError::UnknownError(m) => m,
            };
            Err(text)
        },
    }
}

} // verus!
