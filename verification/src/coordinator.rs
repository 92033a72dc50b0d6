//! The single consumer of the event bus and the only authority over the
//! endpoint's mute flag: it serializes every mute transition, publishes the
//! matching feedback event after each toggle, turns consumed feedback events
//! into queued sound cues, and quits on the tray's `Quit` event.

use vstd::prelude::*;
use crate::bus::{spec_publish, EventBus};
use crate::endpoint::AudioEndpointHandle;
use crate::events::{spec_cue, spec_feedback_event, Event, SoundCue};
use crate::feedback::FeedbackPlayer;

verus! {

/// The coordinator's own state: it runs until it has consumed `Quit`, which
/// is terminal.
#[derive(Clone, Copy, PartialEq, Eq, Structural, Debug)]
pub enum CoordState {
    Running,
    Quitting,
}

/// What the surrounding program must do for one consumed event: drive the
/// endpoint's mute control, hand a cue to the feedback workers, or tear the
/// process down.
#[derive(Clone, Copy, PartialEq, Eq, Structural, Debug)]
pub enum Directive {
    ToggleMicrophone,
    PlayFeedback(SoundCue),
    Shutdown,
}

/// The state the coordinator is in after consuming `event` while running.
pub open spec fn spec_next_state(event: Event) -> CoordState {
    if event is Quit {
        CoordState::Quitting
    } else {
        CoordState::Running
    }
}

/// The action owed for `event`, per the transition table: a toggle request
/// drives the endpoint, a feedback event plays its cue, `Quit` shuts down.
pub open spec fn spec_directive(event: Event) -> Directive {
    match event {
        Event::Quit => Directive::Shutdown,
        Event::ToggleRequested => Directive::ToggleMicrophone,
        Event::MicrophoneMuted => Directive::PlayFeedback(SoundCue::Muted),
        Event::MicrophoneUnmuted => Directive::PlayFeedback(SoundCue::Unmuted),
    }
}

/// One row of the transition table: which state follows and which action is
/// owed when `event` is consumed in state `state`.
pub fn next_directive(state: CoordState, event: Event) -> (r: (CoordState, Directive))
    requires
        state is Running,
    ensures
        r.0 == spec_next_state(event),
        r.1 == spec_directive(event),
{
    match event {
        Event::Quit => (CoordState::Quitting, Directive::Shutdown),
        Event::ToggleRequested => (CoordState::Running, Directive::ToggleMicrophone),
        Event::MicrophoneMuted => (
            CoordState::Running,
            Directive::PlayFeedback(SoundCue::Muted),
        ),
        Event::MicrophoneUnmuted => (
            CoordState::Running,
            Directive::PlayFeedback(SoundCue::Unmuted),
        ),
    }
}

/// Everything the coordination model observes: the loop state, the endpoint's
/// mute flag, the bounded event queue with its bound, and the cues handed to
/// the feedback workers so far.
#[verifier::ext_equal]
pub struct CoordModel {
    pub state: CoordState,
    pub muted: bool,
    pub queued: Seq<Event>,
    pub capacity: nat,
    pub cues: Seq<SoundCue>,
}

/// The whole system after one event is consumed.  In `Quitting` nothing moves
/// any more.  While running: a toggle request flips the mute flag and
/// publishes the matching feedback event (dropped if the queue is full), a
/// feedback event appends its cue for the workers, and `Quit` ends the loop.
pub open spec fn step_model(m: CoordModel, event: Event) -> CoordModel {
    if m.state is Quitting {
        m
    } else {
        match event {
            Event::Quit => CoordModel {
                state: CoordState::Quitting,
                muted: m.muted,
                queued: m.queued,
                capacity: m.capacity,
                cues: m.cues,
            },
            Event::ToggleRequested => CoordModel {
                state: CoordState::Running,
                muted: !m.muted,
                queued: spec_publish(m.queued, m.capacity, spec_feedback_event(!m.muted)),
                capacity: m.capacity,
                cues: m.cues,
            },
            Event::MicrophoneMuted => CoordModel {
                state: CoordState::Running,
                muted: m.muted,
                queued: m.queued,
                capacity: m.capacity,
                cues: m.cues.push(SoundCue::Muted),
            },
            Event::MicrophoneUnmuted => CoordModel {
                state: CoordState::Running,
                muted: m.muted,
                queued: m.queued,
                capacity: m.capacity,
                cues: m.cues.push(SoundCue::Unmuted),
            },
        }
    }
}

/// The system after the events of `events` are consumed one by one.
pub open spec fn run_model(m: CoordModel, events: Seq<Event>) -> CoordModel
    decreases events.len(),
{
    if events.len() == 0 {
        m
    } else {
        run_model(step_model(m, events[0]), events.drop_first())
    }
}

/// How many toggle requests a queue holds.
pub open spec fn toggle_count(events: Seq<Event>) -> nat
    decreases events.len(),
{
    if events.len() == 0 {
        0
    } else {
        (if events[0] is ToggleRequested {
            1nat
        } else {
            0nat
        }) + toggle_count(events.drop_first())
    }
}

/// Counting toggle requests distributes over appending one event.
proof fn lemma_toggle_count_push(s: Seq<Event>, e: Event)
    ensures
        toggle_count(s.push(e)) == toggle_count(s) + (if e is ToggleRequested {
            1nat
        } else {
            0nat
        }),
    decreases s.len(),
{
    if s.len() == 0 {
        assert(s.push(e)[0] == e);
        assert(s.push(e).drop_first() =~= Seq::<Event>::empty());
        assert(toggle_count(Seq::<Event>::empty()) == 0);
    } else {
        assert(s.push(e)[0] == s[0]);
        assert(s.push(e).drop_first() =~= s.drop_first().push(e));
        lemma_toggle_count_push(s.drop_first(), e);
    }
}

/// Work left before the coordinator's queue runs dry: each queued feedback
/// event costs one step, each queued toggle request two — itself and the
/// feedback event it publishes.
pub open spec fn drain_measure(m: CoordModel) -> nat {
    m.queued.len() + toggle_count(m.queued)
}

/// `m` with its oldest queued event removed.
pub open spec fn pop_model(m: CoordModel) -> CoordModel {
    CoordModel {
        state: m.state,
        muted: m.muted,
        queued: m.queued.drop_first(),
        capacity: m.capacity,
        cues: m.cues,
    }
}

/// Receiving one event strictly shrinks the remaining work: a feedback event
/// only leaves, and a toggle request leaves while publishing at most one
/// feedback event, which costs less than the request did.
proof fn lemma_drain_step_measure(m: CoordModel)
    requires
        m.state is Running,
        m.queued.len() > 0,
    ensures
        drain_measure(step_model(pop_model(m), m.queued[0])) < drain_measure(m),
{
    let e = m.queued[0];
    let rest = m.queued.drop_first();
    assert(toggle_count(m.queued) == (if e is ToggleRequested {
        1nat
    } else {
        0nat
    }) + toggle_count(rest));
    if e is ToggleRequested {
        let fb = spec_feedback_event(!m.muted);
        if rest.len() < m.capacity {
            lemma_toggle_count_push(rest, fb);
        }
    }
}

/// The system once the coordinator has consumed its queue: it receives and
/// steps until the queue is empty or `Quit` was consumed.
pub open spec fn drain_model(m: CoordModel) -> CoordModel
    decreases drain_measure(m),
    via drain_model_decreases
{
    if m.state is Quitting || m.queued.len() == 0 {
        m
    } else {
        drain_model(step_model(pop_model(m), m.queued[0]))
    }
}

#[via_fn]
proof fn drain_model_decreases(m: CoordModel) {
    if !(m.state is Quitting) && m.queued.len() > 0 {
        lemma_drain_step_measure(m);
    }
}

/// Running a sequence and then one more event is one more step.
proof fn lemma_run_model_snoc(m: CoordModel, s: Seq<Event>, e: Event)
    ensures
        run_model(m, s.push(e)) == step_model(run_model(m, s), e),
    decreases s.len(),
{
    if s.len() == 0 {
        assert(s.push(e)[0] == e);
        assert(s.push(e).drop_first() =~= Seq::<Event>::empty());
        assert(run_model(step_model(m, e), Seq::<Event>::empty()) == step_model(m, e));
    } else {
        assert(s.push(e)[0] == s[0]);
        assert(s.push(e).drop_first() =~= s.drop_first().push(e));
        lemma_run_model_snoc(step_model(m, s[0]), s.drop_first(), e);
    }
}

/// The coordinator: the loop state plus exclusive ownership of the endpoint
/// handle.  Only its methods ever mutate the mute flag.
pub struct Coordinator {
    state: CoordState,
    endpoint: AudioEndpointHandle,
}

impl Coordinator {
    /// The loop state.
    pub closed spec fn spec_state(&self) -> CoordState {
        self.state
    }

    /// The endpoint's mute flag, as the coordinator holds it.
    pub closed spec fn spec_muted(&self) -> bool {
        self.endpoint.spec_muted()
    }

    /// The whole system as the model sees it, for a given bus and player.
    pub open spec fn model_with(&self, bus: &EventBus, player: &FeedbackPlayer) -> CoordModel {
        CoordModel {
            state: self.spec_state(),
            muted: self.spec_muted(),
            queued: bus.contents(),
            capacity: bus.spec_capacity(),
            cues: player.pending_cues(),
        }
    }

    /// A running coordinator owning an endpoint whose mute flag reads
    /// `initially_muted`.
    pub fn new(initially_muted: bool) -> (c: Self)
        ensures
            c.spec_state() is Running,
            c.spec_muted() == initially_muted,
    {
        Coordinator {
            state: CoordState::Running,
            endpoint: AudioEndpointHandle::new(initially_muted),
        }
    }

    /// Whether the coordinator still consumes events.
    pub fn is_running(&self) -> (r: bool)
        ensures
            r == (self.spec_state() is Running),
    {
        match self.state {
            CoordState::Running => true,
            CoordState::Quitting => false,
        }
    }

    /// The endpoint's mute flag.
    pub fn muted(&self) -> (m: bool)
        ensures
            m == self.spec_muted(),
    {
        self.endpoint.is_muted()
    }

    /// Consumes one event: the exec counterpart of `step_model`.  A toggle
    /// request flips the endpoint exactly once and publishes exactly one
    /// feedback event matching the new state; a feedback event enqueues
    /// exactly one matching cue; `Quit` makes the coordinator quit for good.
    pub fn handle(&mut self, event: Event, bus: &mut EventBus, player: &mut FeedbackPlayer)
        requires
            old(bus).well_formed(),
        ensures
            final(bus).well_formed(),
            final(self).model_with(final(bus), final(player)) == step_model(
                old(self).model_with(old(bus), old(player)),
                event,
            ),
    {
        match self.state {
            CoordState::Quitting => {},
            CoordState::Running => {
                match event {
                    Event::Quit => {
                        self.state = CoordState::Quitting;
                    },
                    Event::ToggleRequested => {
                        let new_state = self.endpoint.toggle_mute();
                        let feedback = new_state.feedback_event();
                        let _accepted = bus.publish(feedback);
                    },
                    Event::MicrophoneMuted => {
                        player.enqueue(SoundCue::Muted);
                    },
                    Event::MicrophoneUnmuted => {
                        player.enqueue(SoundCue::Unmuted);
                    },
                }
            },
        }
        proof {
            assert(self.model_with(bus, player) =~= step_model(
                old(self).model_with(old(bus), old(player)),
                event,
            ));
        }
    }

    /// Consumes a batch of already-delivered events in order: the exec
    /// counterpart of `run_model`.
    pub fn process_events(
        &mut self,
        events: &Vec<Event>,
        bus: &mut EventBus,
        player: &mut FeedbackPlayer,
    )
        requires
            old(bus).well_formed(),
        ensures
            final(bus).well_formed(),
            final(self).model_with(final(bus), final(player)) == run_model(
                old(self).model_with(old(bus), old(player)),
                events@,
            ),
    {
        let ghost m0 = self.model_with(bus, player);
        let n = events.len();
        let mut i: usize = 0;
        proof {
            assert(events@.take(0) =~= Seq::<Event>::empty());
        }
        while i < n
            invariant
                n == events.len(),
                i <= n,
                bus.well_formed(),
                self.model_with(bus, player) == run_model(m0, events@.take(i as int)),
            decreases n - i,
        {
            let e = events[i];
            proof {
                lemma_run_model_snoc(m0, events@.take(i as int), events@[i as int]);
                assert(events@.take(i as int).push(events@[i as int]) =~= events@.take(
                    i as int + 1,
                ));
            }
            self.handle(e, bus, player);
            i = i + 1;
        }
        proof {
            assert(events@.take(n as int) =~= events@);
        }
    }

    /// The event loop: receives and handles queued events until the bus is
    /// empty or `Quit` was consumed — after `Quit` the loop exits before any
    /// further receive, so later-queued events are never processed.  The exec
    /// counterpart of `drain_model`.
    pub fn run_queue(&mut self, bus: &mut EventBus, player: &mut FeedbackPlayer)
        requires
            old(bus).well_formed(),
        ensures
            final(bus).well_formed(),
            final(self).model_with(final(bus), final(player)) == drain_model(
                old(self).model_with(old(bus), old(player)),
            ),
    {
        let ghost m0 = self.model_with(bus, player);
        while self.is_running() && bus.len() > 0
            invariant
                bus.well_formed(),
                drain_model(self.model_with(bus, player)) == drain_model(m0),
            decreases drain_measure(self.model_with(bus, player)),
        {
            let ghost pre = self.model_with(bus, player);
            let r = bus.receive();
            match r {
                None => {
                    proof {
                        assert(false);
                    }
                },
                Some(e) => {
                    proof {
                        assert(self.model_with(bus, player) =~= pop_model(pre));
                        lemma_drain_step_measure(pre);
                    }
                    self.handle(e, bus, player);
                    proof {
                        assert(self.model_with(bus, player) == step_model(pop_model(pre), e));
                        assert(drain_model(pre) == drain_model(
                            step_model(pop_model(pre), pre.queued[0]),
                        ));
                    }
                },
            }
        }
        proof {
            let cur = self.model_with(bus, player);
            assert(drain_model(cur) == cur);
        }
    }
}

/// The transition table and the model agree: the directive owed for an event
/// names exactly the effect consuming that event has on the model — the state
/// follows the table, the flag flips only on a toggle directive, and a cue is
/// queued exactly when a playback directive names it.
pub proof fn lemma_directive_matches_step(m: CoordModel, event: Event)
    requires
        m.state is Running,
    ensures
        step_model(m, event).state == spec_next_state(event),
        step_model(m, event).muted == (if spec_directive(event) == Directive::ToggleMicrophone {
            !m.muted
        } else {
            m.muted
        }),
        step_model(m, event).cues == (match spec_directive(event) {
            Directive::PlayFeedback(c) => m.cues.push(c),
            Directive::ToggleMicrophone => m.cues,
            Directive::Shutdown => m.cues,
        }),
{
}

/// A run of toggle requests alone flips the mute flag once per request: the
/// flag ends up inverted exactly when the number of requests is odd.
pub proof fn lemma_toggle_parity(m: CoordModel, events: Seq<Event>)
    requires
        m.state is Running,
        forall|i: int| 0 <= i < events.len() ==> events[i] is ToggleRequested,
    ensures
        run_model(m, events).muted == (m.muted != (events.len() % 2 == 1)),
    decreases events.len(),
{
    if events.len() > 0 {
        assert(events[0] is ToggleRequested);
        let m1 = step_model(m, events[0]);
        let rest = events.drop_first();
        assert(m1.state is Running && m1.muted == !m.muted);
        assert forall|i: int| 0 <= i < rest.len() implies rest[i] is ToggleRequested by {
            assert(rest[i] == events[i + 1]);
        }
        lemma_toggle_parity(m1, rest);
    }
}

/// Each accepted toggle publishes exactly one feedback event, and it matches
/// the new mute state; consuming that event enqueues exactly one matching
/// sound cue and leaves the mute flag alone.
pub proof fn lemma_toggle_feedback(m: CoordModel)
    requires
        m.state is Running,
        m.queued.len() < m.capacity,
    ensures
        step_model(m, Event::ToggleRequested).muted == !m.muted,
        step_model(m, Event::ToggleRequested).queued == m.queued.push(
            spec_feedback_event(!m.muted),
        ),
        step_model(m, Event::ToggleRequested).cues == m.cues,
        step_model(step_model(m, Event::ToggleRequested), spec_feedback_event(!m.muted)).cues
            == m.cues.push(spec_cue(!m.muted)),
        step_model(step_model(m, Event::ToggleRequested), spec_feedback_event(!m.muted)).muted
            == !m.muted,
{
}

/// Once the coordinator is quitting, no event changes anything any more.
pub proof fn lemma_quitting_is_terminal(m: CoordModel, events: Seq<Event>)
    requires
        m.state is Quitting,
    ensures
        run_model(m, events) == m,
    decreases events.len(),
{
    if events.len() > 0 {
        assert(step_model(m, events[0]) == m);
        lemma_quitting_is_terminal(m, events.drop_first());
    }
}

/// Running a concatenation is running its halves in turn.
proof fn lemma_run_model_concat(m: CoordModel, a: Seq<Event>, b: Seq<Event>)
    ensures
        run_model(m, a + b) == run_model(run_model(m, a), b),
    decreases a.len(),
{
    if a.len() == 0 {
        assert(a + b =~= b);
        assert(run_model(m, a) == m);
    } else {
        assert((a + b)[0] == a[0]);
        assert((a + b).drop_first() =~= a.drop_first() + b);
        lemma_run_model_concat(step_model(m, a[0]), a.drop_first(), b);
    }
}

/// A run whose last event is `Quit` ends quitting, whatever came before.
proof fn lemma_quit_makes_quitting(m: CoordModel, a: Seq<Event>)
    requires
        a.len() > 0,
        a.last() is Quit,
    ensures
        run_model(m, a).state is Quitting,
    decreases a.len(),
{
    if a.len() == 1 {
        assert(a[0] is Quit);
        assert(a.drop_first() =~= Seq::<Event>::empty());
        assert(step_model(m, a[0]).state is Quitting);
        assert(run_model(step_model(m, a[0]), Seq::<Event>::empty()) == step_model(m, a[0]));
    } else {
        assert(a.drop_first().last() == a.last());
        lemma_quit_makes_quitting(step_model(m, a[0]), a.drop_first());
    }
}

/// `Quit`, once consumed, is terminal: a run over any delivered sequence
/// equals the run cut off just after the first `Quit` — the events queued
/// behind it are never processed.
pub proof fn lemma_quit_terminal(m: CoordModel, events: Seq<Event>, i: int)
    requires
        0 <= i < events.len(),
        events[i] is Quit,
    ensures
        run_model(m, events) == run_model(m, events.take(i + 1)),
{
    let a = events.take(i + 1);
    let b = events.skip(i + 1);
    assert(events =~= a + b);
    lemma_run_model_concat(m, a, b);
    assert(a.last() == events[i]);
    lemma_quit_makes_quitting(m, a);
    lemma_quitting_is_terminal(run_model(m, a), b);
}

/// Toggling twice from `Unmuted` returns the flag to `Unmuted`: draining a
/// queue of two toggle requests emits the two feedback events in order and
/// ends with exactly two cues queued for playback, the muted cue first and
/// the unmuted cue second.
pub proof fn lemma_round_trip(m: CoordModel)
    requires
        m.state is Running,
        !m.muted,
        m.queued == seq![Event::ToggleRequested, Event::ToggleRequested],
        m.capacity >= 2,
    ensures
        drain_model(m).state is Running,
        !drain_model(m).muted,
        drain_model(m).queued == Seq::<Event>::empty(),
        drain_model(m).cues == m.cues.push(SoundCue::Muted).push(SoundCue::Unmuted),
{
    let m1 = step_model(pop_model(m), m.queued[0]);
    assert(pop_model(m).queued =~= seq![Event::ToggleRequested]);
    assert(m1.muted && m1.state is Running);
    assert(m1.queued =~= seq![Event::ToggleRequested, Event::MicrophoneMuted]);

    let m2 = step_model(pop_model(m1), m1.queued[0]);
    assert(pop_model(m1).queued =~= seq![Event::MicrophoneMuted]);
    assert(!m2.muted && m2.state is Running);
    assert(m2.queued =~= seq![Event::MicrophoneMuted, Event::MicrophoneUnmuted]);

    let m3 = step_model(pop_model(m2), m2.queued[0]);
    assert(pop_model(m2).queued =~= seq![Event::MicrophoneUnmuted]);
    assert(!m3.muted && m3.state is Running);
    assert(m3.queued =~= seq![Event::MicrophoneUnmuted]);
    assert(m3.cues == m.cues.push(SoundCue::Muted));

    let m4 = step_model(pop_model(m3), m3.queued[0]);
    assert(pop_model(m3).queued =~= Seq::<Event>::empty());
    assert(!m4.muted && m4.state is Running);
    assert(m4.queued =~= Seq::<Event>::empty());
    assert(m4.cues == m.cues.push(SoundCue::Muted).push(SoundCue::Unmuted));

    assert(drain_model(m4) == m4);
    assert(drain_model(m3) == drain_model(m4));
    assert(drain_model(m2) == drain_model(m3));
    assert(drain_model(m1) == drain_model(m2));
    assert(drain_model(m) == drain_model(m1));
}

} // verus!
