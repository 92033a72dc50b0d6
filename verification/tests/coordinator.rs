use mic_muter::bus::{EventBus, EVENT_BUS_CAPACITY};
use mic_muter::coordinator::{next_directive, CoordState, Coordinator, Directive};
use mic_muter::events::{Event, SoundCue};
use mic_muter::feedback::FeedbackPlayer;

fn drain_cues(player: &mut FeedbackPlayer) -> Vec<SoundCue> {
    let mut cues = Vec::new();
    while let Some(c) = player.take_next() {
        cues.push(c);
    }
    cues
}

#[test]
fn directive_table_matches_transitions() {
    assert_eq!(
        next_directive(CoordState::Running, Event::Quit),
        (CoordState::Quitting, Directive::Shutdown)
    );
    assert_eq!(
        next_directive(CoordState::Running, Event::ToggleRequested),
        (CoordState::Running, Directive::ToggleMicrophone)
    );
    assert_eq!(
        next_directive(CoordState::Running, Event::MicrophoneMuted),
        (CoordState::Running, Directive::PlayFeedback(SoundCue::Muted))
    );
    assert_eq!(
        next_directive(CoordState::Running, Event::MicrophoneUnmuted),
        (CoordState::Running, Directive::PlayFeedback(SoundCue::Unmuted))
    );
}

#[test]
fn toggle_parity_over_delivered_requests() {
    // N toggle requests leave the flag at initial XOR (N odd).
    for initial in [false, true] {
        for n in 0..5usize {
            let mut coordinator = Coordinator::new(initial);
            let mut bus = EventBus::new(EVENT_BUS_CAPACITY);
            let mut player = FeedbackPlayer::new();
            let events = vec![Event::ToggleRequested; n];
            coordinator.process_events(&events, &mut bus, &mut player);
            assert_eq!(coordinator.muted(), initial ^ (n % 2 == 1));
            assert!(coordinator.is_running());
        }
    }
}

#[test]
fn accepted_toggle_publishes_exactly_one_matching_event() {
    let mut coordinator = Coordinator::new(false);
    let mut bus = EventBus::new(EVENT_BUS_CAPACITY);
    let mut player = FeedbackPlayer::new();
    coordinator.handle(Event::ToggleRequested, &mut bus, &mut player);
    assert!(coordinator.muted());
    assert_eq!(bus.len(), 1);
    assert_eq!(bus.receive(), Some(Event::MicrophoneMuted));
    // No cue yet: the sound follows only once the feedback event is consumed.
    assert_eq!(player.pending_count(), 0);
    coordinator.handle(Event::MicrophoneMuted, &mut bus, &mut player);
    assert_eq!(player.pending_count(), 1);
    assert_eq!(player.take_next(), Some(SoundCue::Muted));
}

#[test]
fn feedback_events_enqueue_their_cues() {
    let mut coordinator = Coordinator::new(true);
    let mut bus = EventBus::new(EVENT_BUS_CAPACITY);
    let mut player = FeedbackPlayer::new();
    coordinator.handle(Event::MicrophoneUnmuted, &mut bus, &mut player);
    coordinator.handle(Event::MicrophoneMuted, &mut bus, &mut player);
    assert_eq!(drain_cues(&mut player), vec![SoundCue::Unmuted, SoundCue::Muted]);
    // Feedback events never touch the mute flag.
    assert!(coordinator.muted());
}

#[test]
fn round_trip_two_toggles_returns_to_unmuted() {
    let mut coordinator = Coordinator::new(false);
    let mut bus = EventBus::new(EVENT_BUS_CAPACITY);
    let mut player = FeedbackPlayer::new();
    assert!(bus.publish(Event::ToggleRequested));
    assert!(bus.publish(Event::ToggleRequested));
    coordinator.run_queue(&mut bus, &mut player);
    assert!(!coordinator.muted());
    assert!(coordinator.is_running());
    assert_eq!(bus.len(), 0);
    assert_eq!(drain_cues(&mut player), vec![SoundCue::Muted, SoundCue::Unmuted]);
}

#[test]
fn quit_is_terminal_for_later_queued_events() {
    let mut coordinator = Coordinator::new(false);
    let mut bus = EventBus::new(3);
    let mut player = FeedbackPlayer::new();
    assert!(bus.publish(Event::ToggleRequested));
    assert!(bus.publish(Event::Quit));
    assert!(bus.publish(Event::ToggleRequested));
    coordinator.run_queue(&mut bus, &mut player);
    // The first toggle was handled (queueing its feedback event behind the
    // already-queued toggle), then Quit ended the loop: neither the toggle
    // queued behind Quit nor the feedback event was ever processed.
    assert!(!coordinator.is_running());
    assert!(coordinator.muted());
    assert_eq!(player.pending_count(), 0);
    assert_eq!(bus.len(), 2);
    assert_eq!(bus.receive(), Some(Event::ToggleRequested));
    assert_eq!(bus.receive(), Some(Event::MicrophoneMuted));
}

#[test]
fn events_after_quit_are_ignored_by_handle() {
    let mut coordinator = Coordinator::new(false);
    let mut bus = EventBus::new(EVENT_BUS_CAPACITY);
    let mut player = FeedbackPlayer::new();
    coordinator.handle(Event::Quit, &mut bus, &mut player);
    assert!(!coordinator.is_running());
    coordinator.handle(Event::ToggleRequested, &mut bus, &mut player);
    coordinator.handle(Event::MicrophoneMuted, &mut bus, &mut player);
    assert!(!coordinator.muted());
    assert_eq!(bus.len(), 0);
    assert_eq!(player.pending_count(), 0);
}

#[test]
fn toggle_feedback_dropped_on_full_bus_still_toggles() {
    let mut coordinator = Coordinator::new(false);
    let mut bus = EventBus::new(1);
    let mut player = FeedbackPlayer::new();
    assert!(bus.publish(Event::ToggleRequested));
    // The bus is full, so the feedback event of this toggle is dropped, but
    // the toggle itself happens.
    coordinator.handle(Event::ToggleRequested, &mut bus, &mut player);
    assert!(coordinator.muted());
    assert_eq!(bus.len(), 1);
    assert_eq!(bus.receive(), Some(Event::ToggleRequested));
}
