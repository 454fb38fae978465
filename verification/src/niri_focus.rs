use vstd::prelude::*;

use crate::event::FocusObservation;
use crate::niri::{spec_apply_event, FocusTracker, FocusTrackerView, NiriEvent};

verus! {

/// The message that hands one Niri event to a focus tracker's mailbox.
#[derive(Debug, Clone, PartialEq, Eq)]
pub struct ApplyNiriEvent {
    pub event: NiriEvent,
}

/// What a reader of a tracker's statistics expects to find at least.
#[derive(Debug, Clone, Copy, PartialEq, Eq, Structural)]
pub struct FocusStatisticsProbe {
    minimum_applied_event_count: u64,
    minimum_emitted_observation_count: u64,
}

/// The abstract value of a statistics probe: the two minimums that it expects.
pub struct FocusStatisticsProbeView {
    pub minimum_applied_event_count: u64,
    pub minimum_emitted_observation_count: u64,
}

impl View for FocusStatisticsProbe {
    type V = FocusStatisticsProbeView;

    closed spec fn view(&self) -> FocusStatisticsProbeView {
        FocusStatisticsProbeView {
            minimum_applied_event_count: self.minimum_applied_event_count,
            minimum_emitted_observation_count: self.minimum_emitted_observation_count,
        }
    }
}

impl FocusStatisticsProbe {
    pub fn expecting_at_least(
        minimum_applied_event_count: u64,
        minimum_emitted_observation_count: u64,
    ) -> (probe: Self)
        ensures
            probe@ == (FocusStatisticsProbeView {
                minimum_applied_event_count,
                minimum_emitted_observation_count,
            }),
    {
        Self { minimum_applied_event_count, minimum_emitted_observation_count }
    }

    fn inspect(self, applied_event_count: u64, emitted_observation_count: u64) -> (statistics:
        FocusStatistics)
        ensures
            statistics@ == (FocusStatisticsView {
                applied_event_count,
                emitted_observation_count,
                minimum_applied_event_count: self@.minimum_applied_event_count,
                minimum_emitted_observation_count: self@.minimum_emitted_observation_count,
            }),
    {
        FocusStatistics {
            applied_event_count,
            emitted_observation_count,
            minimum_applied_event_count: self.minimum_applied_event_count,
            minimum_emitted_observation_count: self.minimum_emitted_observation_count,
        }
    }
}

/// The message that reads a tracker's statistics against a probe.
#[derive(Debug, Clone, Copy, PartialEq, Eq, Structural)]
pub struct ReadFocusStatistics {
    pub probe: FocusStatisticsProbe,
}

/// A tracker's counts of applied events and emitted observations, beside the minimums
/// that the probe expected.
#[derive(Debug, Clone, Copy, PartialEq, Eq, Structural)]
pub struct FocusStatistics {
    applied_event_count: u64,
    emitted_observation_count: u64,
    minimum_applied_event_count: u64,
    minimum_emitted_observation_count: u64,
}

/// The abstract value of focus statistics.
pub struct FocusStatisticsView {
    pub applied_event_count: u64,
    pub emitted_observation_count: u64,
    pub minimum_applied_event_count: u64,
    pub minimum_emitted_observation_count: u64,
}

impl FocusStatisticsView {
    /// Both counts reach the probe's minimums.
    pub open spec fn satisfied(self) -> bool {
        &&& self.applied_event_count >= self.minimum_applied_event_count
        &&& self.emitted_observation_count >= self.minimum_emitted_observation_count
    }
}

impl View for FocusStatistics {
    type V = FocusStatisticsView;

    closed spec fn view(&self) -> FocusStatisticsView {
        FocusStatisticsView {
            applied_event_count: self.applied_event_count,
            emitted_observation_count: self.emitted_observation_count,
            minimum_applied_event_count: self.minimum_applied_event_count,
            minimum_emitted_observation_count: self.minimum_emitted_observation_count,
        }
    }
}

impl FocusStatistics {
    pub fn applied_event_count(&self) -> (count: u64)
        ensures
            count == self@.applied_event_count,
    {
        self.applied_event_count
    }

    pub fn emitted_observation_count(&self) -> (count: u64)
        ensures
            count == self@.emitted_observation_count,
    {
        self.emitted_observation_count
    }

    pub fn satisfied(&self) -> (satisfied: bool)
        ensures
            satisfied == self@.satisfied(),
    {
        self.applied_event_count >= self.minimum_applied_event_count
            && self.emitted_observation_count >= self.minimum_emitted_observation_count
    }
}

/// `count + added`, held at `u64::MAX`.
pub open spec fn saturating_sum(count: u64, added: int) -> u64 {
    if count + added > u64::MAX {
        u64::MAX
    } else {
        (count + added) as u64
    }
}

/// A tracker after its mailbox handled one event: the event applied, one more event
/// counted, and the emitted observations counted, both counts held at `u64::MAX`.
pub open spec fn spec_apply_from_mailbox(tracker: FocusTrackerView, event: NiriEvent) -> (
    FocusTrackerView,
    Seq<FocusObservation>,
) {
    let (applied, emitted) = spec_apply_event(tracker, event);
    (
        FocusTrackerView {
            applied_event_count: saturating_sum(tracker.applied_event_count, 1),
            emitted_observation_count: saturating_sum(
                tracker.emitted_observation_count,
                emitted.len() as int,
            ),
            ..applied
        },
        emitted,
    )
}

impl FocusTracker {
    /// Handles one `ApplyNiriEvent` from the mailbox: applies the event and counts it
    /// and what it emitted.
    pub fn apply_event_from_mailbox(&mut self, event: &NiriEvent) -> (observations: Vec<
        FocusObservation,
    >)
        ensures
            (final(self)@, observations@) == spec_apply_from_mailbox(old(self)@, *event),
    {
        let ghost before = self@;
        let applied = self.applied_event_count().saturating_add(1);
        let observations = self.apply_event(event);
        let emitted = self.emitted_observation_count().saturating_add(observations.len() as u64);
        self.set_counts(applied, emitted);
        proof {
            assert(spec_apply_event(before, *event).1.len() <= 1);
        }
        observations
    }

    /// Handles one `ReadFocusStatistics` from the mailbox.
    pub fn read_statistics(&self, message: ReadFocusStatistics) -> (statistics: FocusStatistics)
        ensures
            statistics@ == (FocusStatisticsView {
                applied_event_count: self@.applied_event_count,
                emitted_observation_count: self@.emitted_observation_count,
                minimum_applied_event_count: message.probe@.minimum_applied_event_count,
                minimum_emitted_observation_count: message.probe@.minimum_emitted_observation_count,
            }),
    {
        message.probe.inspect(self.applied_event_count(), self.emitted_observation_count())
    }
}

/// Each event that passes through the mailbox is counted once, until the count holds at
/// `u64::MAX`; the count of emitted observations never falls.
pub proof fn lemma_mailbox_counts_every_event(tracker: FocusTrackerView, event: NiriEvent)
    ensures
        ({
            let after = spec_apply_from_mailbox(tracker, event).0;
            &&& tracker.applied_event_count < u64::MAX ==> after.applied_event_count
                == tracker.applied_event_count + 1
            &&& after.emitted_observation_count >= tracker.emitted_observation_count
        }),
{
}

} // verus!
