use mic_muter::errors::{RuntimeFault, StartupError};

#[test]
fn only_a_disconnected_channel_is_fatal() {
    assert!(RuntimeFault::ChannelDisconnected.is_fatal());
    assert!(!RuntimeFault::ToggleFailed.is_fatal());
    assert!(!RuntimeFault::PlaybackFailed.is_fatal());
}

#[test]
fn startup_error_messages() {
    assert_eq!(
        StartupError::DeviceNotFound.message(),
        "Could not find working microphone."
    );
    assert_eq!(
        StartupError::EndpointActivationFailed.message(),
        "Could not acquire the microphone's mute control."
    );
}

#[test]
fn runtime_fault_messages() {
    assert_eq!(
        RuntimeFault::ToggleFailed.message(),
        "Toggling the microphone failed; state unchanged."
    );
    assert_eq!(RuntimeFault::ChannelDisconnected.message(), "Event bus disconnected.");
    assert_eq!(
        RuntimeFault::PlaybackFailed.message(),
        "Feedback sound could not be played."
    );
}
