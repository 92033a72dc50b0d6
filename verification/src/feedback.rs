//! Queue of pending feedback sounds, served by a small fixed worker pool.
//!
//! Unlike the event bus, this queue is unbounded: a saturated pool queues
//! tasks instead of dropping them.  A lost toggle request merely asks the
//! user to press again, but a lost feedback sound for an already-performed
//! toggle would hide the only cue that the action succeeded.

use vstd::prelude::*;
use crate::events::SoundCue;

verus! {

/// How many workers play sounds concurrently: one clip playing, one queued
/// behind it, which suffices because playback is short and toggles are rare.
pub const FEEDBACK_WORKER_COUNT: usize = 2;

/// The pending feedback sounds, oldest first.  Workers take cues from the
/// front; the coordinator appends at the back and never blocks.
pub struct FeedbackPlayer {
    pending: Vec<SoundCue>,
}

impl FeedbackPlayer {
    /// The cues waiting to be played, in the order they were enqueued.
    pub closed spec fn pending_cues(&self) -> Seq<SoundCue> {
        self.pending@
    }

    /// A player with nothing queued.
    pub fn new() -> (p: Self)
        ensures
            p.pending_cues() =~= Seq::<SoundCue>::empty(),
    {
        FeedbackPlayer { pending: Vec::new() }
    }

    /// How many cues are waiting.
    pub fn pending_count(&self) -> (n: usize)
        ensures
            n == self.pending_cues().len(),
    {
        self.pending.len()
    }

    /// Appends a cue.  Every enqueued cue is kept: the queue never drops.
    pub fn enqueue(&mut self, cue: SoundCue)
        ensures
            final(self).pending_cues() == old(self).pending_cues().push(cue),
    {
        self.pending.push(cue);
    }

    /// Hands the oldest pending cue to a worker, or `None` when idle.
    pub fn take_next(&mut self) -> (r: Option<SoundCue>)
        ensures
            old(self).pending_cues().len() == 0 ==> r is None && final(self).pending_cues()
                == old(self).pending_cues(),
            old(self).pending_cues().len() > 0 ==> r == Some(old(self).pending_cues()[0])
                && final(self).pending_cues() == old(self).pending_cues().drop_first(),
    {
        if self.pending.len() > 0 {
            let c = self.pending.remove(0);
            proof {
                assert(self.pending@ =~= old(self).pending_cues().drop_first());
            }
            Some(c)
        } else {
            None
        }
    }
}

} // verus!
