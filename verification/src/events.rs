//! Event values exchanged between the input sources, the coordinator and the
//! feedback workers, together with the mute-state vocabulary they speak of.

use vstd::prelude::*;

verus! {

/// The mute flag of the selected capture endpoint, as it stands after a
/// get/set operation on the endpoint.
#[derive(Clone, Copy, PartialEq, Eq, Structural, Debug)]
pub enum MuteState {
    Muted,
    Unmuted,
}

/// Which of the two bundled feedback clips a worker should play.
#[derive(Clone, Copy, PartialEq, Eq, Structural, Debug)]
pub enum SoundCue {
    Muted,
    Unmuted,
}

/// A discrete message carried by the event bus.  `ToggleRequested` comes from
/// the hotkey listener, `Quit` from the tray menu, and the two feedback
/// variants are self-published by the coordinator after a successful toggle.
#[derive(Clone, Copy, PartialEq, Eq, Structural, Debug)]
pub enum Event {
    Quit,
    ToggleRequested,
    MicrophoneMuted,
    MicrophoneUnmuted,
}

/// The feedback event announcing that the mute flag now holds `muted`.
pub open spec fn spec_feedback_event(muted: bool) -> Event {
    if muted {
        Event::MicrophoneMuted
    } else {
        Event::MicrophoneUnmuted
    }
}

/// The sound cue that matches the mute flag `muted`.
pub open spec fn spec_cue(muted: bool) -> SoundCue {
    if muted {
        SoundCue::Muted
    } else {
        SoundCue::Unmuted
    }
}

impl MuteState {
    /// The event the coordinator publishes after a toggle that left the
    /// endpoint in this state.
    pub fn feedback_event(&self) -> (e: Event)
        ensures
            e == spec_feedback_event(*self is Muted),
    {
        match self {
            MuteState::Muted => Event::MicrophoneMuted,
            MuteState::Unmuted => Event::MicrophoneUnmuted,
        }
    }

    /// The sound cue that announces this state to the user.
    pub fn cue(&self) -> (c: SoundCue)
        ensures
            c == spec_cue(*self is Muted),
    {
        match self {
            MuteState::Muted => SoundCue::Muted,
            MuteState::Unmuted => SoundCue::Unmuted,
        }
    }
}

} // verus!
