use mic_muter::events::SoundCue;
use mic_muter::feedback::{FeedbackPlayer, FEEDBACK_WORKER_COUNT};

#[test]
fn worker_pool_is_small_and_fixed() {
    assert_eq!(FEEDBACK_WORKER_COUNT, 2);
}

#[test]
fn cues_are_served_in_order_and_never_dropped() {
    let mut player = FeedbackPlayer::new();
    assert_eq!(player.pending_count(), 0);
    // Well past the worker count: everything queues, nothing is dropped.
    for i in 0..10 {
        if i % 2 == 0 {
            player.enqueue(SoundCue::Muted);
        } else {
            player.enqueue(SoundCue::Unmuted);
        }
    }
    assert_eq!(player.pending_count(), 10);
    for i in 0..10 {
        let expected = if i % 2 == 0 { SoundCue::Muted } else { SoundCue::Unmuted };
        assert_eq!(player.take_next(), Some(expected));
    }
    assert_eq!(player.take_next(), None);
}
