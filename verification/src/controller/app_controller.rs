//! The caster's streaming state: whether frames flow, whether receivers
//! get a blank screen instead, and the size of the shared monitor.

use vstd::prelude::*;

verus! {

/// What the caster's streaming task reads and what the user toggles.
pub struct AppController {
    stop_flag: bool,
    blanking_flag: bool,
    is_just_stopped: bool,
    has_socket: bool,
    monitor_width: u32,
    monitor_height: u32,
}

/// Mathematical form of the caster's state.
pub struct CasterState {
    pub stopped: bool,
    pub blanking: bool,
    pub is_just_stopped: bool,
    pub has_socket: bool,
    pub measures: (u32, u32),
}

impl View for AppController {
    type V = CasterState;

    closed spec fn view(&self) -> CasterState {
        CasterState {
            stopped: self.stop_flag,
            blanking: self.blanking_flag,
            is_just_stopped: self.is_just_stopped,
            has_socket: self.has_socket,
            measures: (self.monitor_width, self.monitor_height),
        }
    }
}

impl AppController {
    /// A caster sharing a monitor of `width` x `height` pixels, with or
    /// without a socket yet; streaming is not stopped and not blanked.
    pub fn new(width: u32, height: u32, has_socket: bool) -> (c: Self)
        ensures
            c@ == (CasterState { stopped: false, blanking: false, is_just_stopped: false, has_socket, measures: (width, height) }),
    {
        AppController {
            stop_flag: false,
            blanking_flag: false,
            is_just_stopped: false,
            has_socket,
            monitor_width: width,
            monitor_height: height,
        }
    }

    /// The caster now has a socket to send frames through.
    pub fn set_socket(&mut self)
        ensures
            final(self)@ == (CasterState { has_socket: true, ..old(self)@ }),
    {
        self.has_socket = true;
    }

    /// Frames flow again (the streaming task is started afresh).
    pub fn start_sharing(&mut self)
        ensures
            final(self)@ == (CasterState { stopped: false, ..old(self)@ }),
    {
        self.stop_flag = false;
    }

    /// Frames of an area of the monitor flow again.
    pub fn start_sharing_partial_sharing(&mut self)
        ensures
            final(self)@ == (CasterState { stopped: false, ..old(self)@ }),
    {
        self.stop_flag = false;
    }

    /// The caster now shares a monitor of `width` x `height` pixels.
    pub fn set_display(&mut self, width: u32, height: u32)
        ensures
            final(self)@ == (CasterState { measures: (width, height), ..old(self)@ }),
    {
        self.monitor_width = width;
        self.monitor_height = height;
    }

    /// Ends the stream: nothing happens when it is already stopped;
    /// otherwise it stops, and the result tells whether the socket must be
    /// destroyed.
    pub fn close_streaming(&mut self) -> (destroy_socket: bool)
        ensures
            old(self)@.stopped ==> final(self)@ == old(self)@ && !destroy_socket,
            !old(self)@.stopped ==> final(self)@ == (CasterState { stopped: true, ..old(self)@ })
                && destroy_socket == old(self)@.has_socket,
    {
        if self.stop_flag {
            return false;
        }
        self.stop_flag = true;
        self.has_socket
    }

    /// Stops the frames (a no-op when they are stopped already).
    pub fn stop_streaming(&mut self)
        ensures
            final(self)@ == (CasterState { stopped: true, ..old(self)@ }),
    {
        if self.stop_flag {
            return;
        }
        self.stop_flag = true;
    }

    /// Switches between sending the screen and sending a blank screen.
    pub fn blanking_streaming(&mut self)
        ensures
            final(self)@ == blanked(old(self)@),
    {
        if self.blanking_flag {
            self.blanking_flag = false;
        } else {
            self.blanking_flag = true;
        }
    }

    pub fn set_is_just_stopped(&mut self, value: bool)
        ensures
            final(self)@ == (CasterState { is_just_stopped: value, ..old(self)@ }),
    {
        self.is_just_stopped = value;
    }

    /// Whether the user paused the stream.
    pub fn is_just_stopped(&self) -> (s: bool)
        ensures
            s == self@.is_just_stopped,
    {
        self.is_just_stopped
    }

    /// Whether the streaming task must stop.
    pub fn is_stopped(&self) -> (s: bool)
        ensures
            s == self@.stopped,
    {
        self.stop_flag
    }

    /// Whether receivers get a blank screen.
    pub fn is_blanking(&self) -> (b: bool)
        ensures
            b == self@.blanking,
    {
        self.blanking_flag
    }

    /// Size in pixels of the shared monitor.
    pub fn get_measures(&self) -> (m: (u32, u32))
        ensures
            m == self@.measures,
    {
        (self.monitor_width, self.monitor_height)
    }
}

/// The state with blanking switched.
pub open spec fn blanked(s: CasterState) -> CasterState {
    CasterState { blanking: !s.blanking, ..s }
}

/// Blanking twice gives the screen back.
pub proof fn lemma_blanking_twice(s: CasterState)
    ensures
        blanked(blanked(s)) == s,
{
}

} // verus!
