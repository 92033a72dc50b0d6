//! Error taxonomy: what is fatal at startup, what is fatal at runtime, and
//! what is merely reported.

use vstd::prelude::*;

verus! {

/// Failures that abort startup before the event loop is entered.
#[derive(Clone, Copy, PartialEq, Eq, Structural, Debug)]
pub enum StartupError {
    /// The requested device-name filter matched none of the active capture
    /// devices.
    DeviceNotFound,
    /// The operating system refused to hand back a mute-control capability
    /// for the resolved device.
    EndpointActivationFailed,
}

/// Faults that can arise inside the event loop.
#[derive(Clone, Copy, PartialEq, Eq, Structural, Debug)]
pub enum RuntimeFault {
    /// The mute get/set call failed; the mute state is left unchanged and the
    /// loop keeps running.
    ToggleFailed,
    /// The event bus lost its consumer or all its producers: an invariant
    /// violation the process must not survive.
    ChannelDisconnected,
    /// A feedback sound failed to decode or play; mute state and process
    /// liveness are unaffected.
    PlaybackFailed,
}

impl StartupError {
    /// The text shown to the user before the process exits.
    pub fn message(&self) -> (m: String)
        ensures
            *self is DeviceNotFound ==> m@ == "Could not find working microphone."@,
            *self is EndpointActivationFailed ==> m@
                == "Could not acquire the microphone's mute control."@,
    {
        match self {
            StartupError::DeviceNotFound => "Could not find working microphone.".to_owned(),
            StartupError::EndpointActivationFailed => {
                "Could not acquire the microphone's mute control.".to_owned()
            },
        }
    }
}

impl RuntimeFault {
    /// Whether the loop must abort on this fault.  Only a disconnected
    /// channel is unrecoverable; a failed toggle or a failed playback is
    /// reported and the loop goes on.
    pub fn is_fatal(&self) -> (fatal: bool)
        ensures
            fatal == (*self is ChannelDisconnected),
    {
        match self {
            RuntimeFault::ChannelDisconnected => true,
            RuntimeFault::ToggleFailed => false,
            RuntimeFault::PlaybackFailed => false,
        }
    }

    /// The text reported when this fault is observed.
    pub fn message(&self) -> (m: String)
        ensures
            *self is ToggleFailed ==> m@ == "Toggling the microphone failed; state unchanged."@,
            *self is ChannelDisconnected ==> m@ == "Event bus disconnected."@,
            *self is PlaybackFailed ==> m@ == "Feedback sound could not be played."@,
    {
        match self {
            RuntimeFault::ToggleFailed => {
                "Toggling the microphone failed; state unchanged.".to_owned()
            },
            RuntimeFault::ChannelDisconnected => "Event bus disconnected.".to_owned(),
            RuntimeFault::PlaybackFailed => "Feedback sound could not be played.".to_owned(),
        }
    }
}

} // verus!
