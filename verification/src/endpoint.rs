//! Model of the exclusive mute control of the selected capture device.
//!
//! The operating system hands out a single, non-thread-safe volume/mute
//! capability for the device picked at startup.  Only the coordinator ever
//! drives it, so its observable state is one boolean flag; the handle below
//! carries that flag and is the only mutating entry point for it.

use vstd::prelude::*;
use crate::events::MuteState;

verus! {

/// The process-wide handle on the selected capture endpoint's mute flag.
pub struct AudioEndpointHandle {
    muted: bool,
}

impl AudioEndpointHandle {
    /// The mute flag the endpoint currently holds.
    pub closed spec fn spec_muted(&self) -> bool {
        self.muted
    }

    /// Takes ownership of an endpoint whose mute flag reads `initially_muted`.
    pub fn new(initially_muted: bool) -> (h: Self)
        ensures
            h.spec_muted() == initially_muted,
    {
        AudioEndpointHandle { muted: initially_muted }
    }

    /// Reads the mute flag without changing it.
    pub fn is_muted(&self) -> (m: bool)
        ensures
            m == self.spec_muted(),
    {
        self.muted
    }

    /// Reads the current mute flag, writes the inverse, and returns the new
    /// state.  This is the only mutating operation on the endpoint.
    pub fn toggle_mute(&mut self) -> (s: MuteState)
        ensures
            final(self).spec_muted() == !old(self).spec_muted(),
            s == (if final(self).spec_muted() {
                MuteState::Muted
            } else {
                MuteState::Unmuted
            }),
    {
        self.muted = !self.muted;
        if self.muted {
            MuteState::Muted
        } else {
            MuteState::Unmuted
        }
    }
}

} // verus!
