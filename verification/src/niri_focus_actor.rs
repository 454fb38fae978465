use vstd::prelude::*;

use crate::event::FocusObservation;
use crate::niri::{spec_apply_event, FocusTracker, FocusTrackerView, NiriEvent};
use crate::niri_focus::saturating_sum;
use crate::target::{NiriWindowId, SystemTarget};

verus! {

/// A focus tracker inside an actor that counts what passes through its mailbox.
#[derive(Debug)]
pub struct NiriFocusActor {
    tracker: FocusTracker,
    applied_event_count: u64,
    emitted_observation_count: u64,
}

/// The abstract state of a focus actor: its tracker and its two counts.
pub struct NiriFocusActorView {
    pub tracker: FocusTrackerView,
    pub applied_event_count: u64,
    pub emitted_observation_count: u64,
}

impl View for NiriFocusActor {
    type V = NiriFocusActorView;

    closed spec fn view(&self) -> NiriFocusActorView {
        NiriFocusActorView {
            tracker: self.tracker@,
            applied_event_count: self.applied_event_count,
            emitted_observation_count: self.emitted_observation_count,
        }
    }
}

/// The message that hands one Niri event to a focus actor.
#[derive(Debug, Clone, PartialEq, Eq)]
pub struct ApplyNiriEvent {
    pub event: NiriEvent,
}

/// A focus actor after handling one event: its tracker has applied the event, the event
/// is counted, and so are the observations emitted, both counts held at `u64::MAX`.
pub open spec fn spec_handle_apply(actor: NiriFocusActorView, event: NiriEvent) -> (
    NiriFocusActorView,
    Seq<FocusObservation>,
) {
    let (tracker, emitted) = spec_apply_event(actor.tracker, event);
    (
        NiriFocusActorView {
            tracker,
            applied_event_count: saturating_sum(actor.applied_event_count, 1),
            emitted_observation_count: saturating_sum(
                actor.emitted_observation_count,
                emitted.len() as int,
            ),
        },
        emitted,
    )
}

impl NiriFocusActor {
    pub fn new(target: SystemTarget, id: NiriWindowId) -> (actor: Self)
        ensures
            actor@.tracker == (FocusTrackerView {
                target,
                id,
                last: None,
                workspace_id: None,
                synthetic_generation: 0,
                applied_event_count: 0,
                emitted_observation_count: 0,
            }),
            actor@.applied_event_count == 0,
            actor@.emitted_observation_count == 0,
    {
        Self::from_tracker(FocusTracker::new(target, id))
    }

    pub fn from_tracker(tracker: FocusTracker) -> (actor: Self)
        ensures
            actor@ == (NiriFocusActorView {
                tracker: tracker@,
                applied_event_count: 0,
                emitted_observation_count: 0,
            }),
    {
        Self { tracker, applied_event_count: 0, emitted_observation_count: 0 }
    }

    pub fn tracker(&self) -> (tracker: &FocusTracker)
        ensures
            tracker@ == self@.tracker,
    {
        &self.tracker
    }

    pub fn applied_event_count(&self) -> (count: u64)
        ensures
            count == self@.applied_event_count,
    {
        self.applied_event_count
    }

    pub fn emitted_observation_count(&self) -> (count: u64)
        ensures
            count == self@.emitted_observation_count,
    {
        self.emitted_observation_count
    }

    /// Handles one `ApplyNiriEvent`: the event goes through the tracker, and the actor
    /// counts it and the observations that it emitted.
    pub fn handle_apply(&mut self, message: ApplyNiriEvent) -> (observations: Vec<
        FocusObservation,
    >)
        ensures
            (final(self)@, observations@) == spec_handle_apply(old(self)@, message.event),
    {
        self.applied_event_count = self.applied_event_count.saturating_add(1);
        let observations = self.tracker.apply_event(&message.event);
        self.emitted_observation_count = self.emitted_observation_count.saturating_add(
            observations.len() as u64,
        );
        observations
    }
}

} // verus!

verus! {

/// A focus actor after handling `events` in order.
pub open spec fn actor_after_run(actor: NiriFocusActorView, events: Seq<NiriEvent>) -> NiriFocusActorView
    decreases events.len(),
{
    if events.len() == 0 {
        actor
    } else {
        spec_handle_apply(actor_after_run(actor, events.drop_last()), events.last()).0
    }
}

/// How many observations the actor's replies to `events` hold together.
pub open spec fn emitted_in_run(actor: NiriFocusActorView, events: Seq<NiriEvent>) -> nat
    decreases events.len(),
{
    if events.len() == 0 {
        0
    } else {
        emitted_in_run(actor, events.drop_last()) + spec_handle_apply(
            actor_after_run(actor, events.drop_last()),
            events.last(),
        ).1.len()
    }
}

/// Over any run of `ApplyNiriEvent` messages, neither count falls; the applied count
/// rises by the number of events and the emitted count by the observations in the
/// replies, as long as neither reaches `u64::MAX`.
pub proof fn lemma_actor_counts_over_run(actor: NiriFocusActorView, events: Seq<NiriEvent>)
    ensures
        actor_after_run(actor, events).applied_event_count >= actor.applied_event_count,
        actor_after_run(actor, events).emitted_observation_count
            >= actor.emitted_observation_count,
        actor.applied_event_count + events.len() <= u64::MAX ==> actor_after_run(
            actor,
            events,
        ).applied_event_count == actor.applied_event_count + events.len(),
        actor.emitted_observation_count + emitted_in_run(actor, events) <= u64::MAX
            ==> actor_after_run(actor, events).emitted_observation_count
            == actor.emitted_observation_count + emitted_in_run(actor, events),
    decreases events.len(),
{
    if events.len() > 0 {
        lemma_actor_counts_over_run(actor, events.drop_last());
    }
}

/// A fresh actor that has handled `events` has counted exactly those events and the
/// observations in its replies, while the counts fit in a `u64`.
pub proof fn lemma_fresh_actor_counts_run(tracker: FocusTrackerView, events: Seq<NiriEvent>)
    ensures
        ({
            let fresh = NiriFocusActorView {
                tracker,
                applied_event_count: 0,
                emitted_observation_count: 0,
            };
            let after = actor_after_run(fresh, events);
            &&& events.len() <= u64::MAX ==> after.applied_event_count == events.len()
            &&& emitted_in_run(fresh, events) <= u64::MAX ==> after.emitted_observation_count
                == emitted_in_run(fresh, events)
        }),
{
    let fresh = NiriFocusActorView { tracker, applied_event_count: 0, emitted_observation_count: 0 };
    lemma_actor_counts_over_run(fresh, events);
}

} // verus!
