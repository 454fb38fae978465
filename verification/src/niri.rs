use vstd::prelude::*;

use crate::error::Error;
use crate::event::FocusObservation;
use crate::target::{NiriWindowId, SystemTarget};

verus! {

/// Nanoseconds in one second.
pub const NANOS_PER_SECOND: u64 = 1_000_000_000;

/// The moment at which Niri last focused a window.
#[derive(Debug, Clone, Copy, PartialEq, Eq, Structural)]
pub struct NiriTimestamp {
    pub secs: u64,
    pub nanos: u32,
}

impl NiriTimestamp {
    /// The generation that a focus timestamp stands for: its whole count of nanoseconds,
    /// held at `u64::MAX` where that count does not fit.
    pub open spec fn spec_generation(self) -> u64 {
        let nanoseconds = self.secs * NANOS_PER_SECOND + self.nanos;
        if nanoseconds > u64::MAX {
            u64::MAX
        } else {
            nanoseconds as u64
        }
    }

    pub fn generation(&self) -> (generation: u64)
        ensures
            generation == self.spec_generation(),
    {
        match self.secs.checked_mul(NANOS_PER_SECOND) {
            Some(whole) => match whole.checked_add(self.nanos as u64) {
                Some(total) => total,
                None => u64::MAX,
            },
            None => u64::MAX,
        }
    }
}

/// One window as `niri msg --json windows` reports it. The title, app id and pid are
/// evidence about the window, not its identity.
#[derive(Debug, Clone, PartialEq, Eq)]
pub struct NiriWindowSnapshot {
    pub id: NiriWindowId,
    pub title: Option<String>,
    pub app_id: Option<String>,
    pub pid: Option<i32>,
    pub workspace_id: Option<u64>,
    pub is_focused: bool,
    pub is_floating: bool,
    pub is_urgent: bool,
    pub focus_timestamp: Option<NiriTimestamp>,
}

impl NiriWindowSnapshot {
    /// The generation of the window's focus timestamp, where Niri gave one.
    pub open spec fn spec_generation(self) -> Option<u64> {
        match self.focus_timestamp {
            Some(timestamp) => Some(timestamp.spec_generation()),
            None => None,
        }
    }

    pub fn generation(&self) -> (generation: Option<u64>)
        ensures
            generation == self.spec_generation(),
    {
        match &self.focus_timestamp {
            Some(timestamp) => Some(timestamp.generation()),
            None => None,
        }
    }

    /// The observation of `target` that this snapshot gives: its focus flag, and the
    /// generation of its focus timestamp (0 where there is none).
    pub open spec fn spec_observation(self, target: SystemTarget) -> FocusObservation {
        FocusObservation {
            target,
            focused: self.is_focused,
            generation: match self.spec_generation() {
                Some(generation) => generation,
                None => 0,
            },
        }
    }

    pub fn observation(&self, target: SystemTarget) -> (observation: FocusObservation)
        ensures
            observation == self.spec_observation(target),
    {
        let generation = match self.generation() {
            Some(generation) => generation,
            None => 0,
        };
        FocusObservation::new(target, self.is_focused, generation)
    }
}

/// The windows that one `niri msg --json windows` call reported, in its order.
#[derive(Debug, Clone, PartialEq, Eq)]
pub struct NiriWindows {
    pub windows: Vec<NiriWindowSnapshot>,
}

/// `index` is the first position in `windows` that holds window `id`.
pub open spec fn is_first_window_with_id(
    windows: Seq<NiriWindowSnapshot>,
    id: NiriWindowId,
    index: int,
) -> bool {
    &&& 0 <= index < windows.len()
    &&& windows[index].id == id
    &&& forall|j: int| 0 <= j < index ==> windows[j].id != id
}

/// Whether `windows` holds window `id` at all.
pub open spec fn holds_window(windows: Seq<NiriWindowSnapshot>, id: NiriWindowId) -> bool {
    exists|i: int| 0 <= i < windows.len() && windows[i].id == id
}

impl NiriWindows {
    pub fn new(windows: Vec<NiriWindowSnapshot>) -> (snapshot: Self)
        ensures
            snapshot.windows@ == windows@,
    {
        Self { windows }
    }

    /// The first window with the given id.
    pub fn window(&self, id: NiriWindowId) -> (window: Option<&NiriWindowSnapshot>)
        ensures
            window is None <==> !holds_window(self.windows@, id),
            window matches Some(w) ==> exists|i: int|
                is_first_window_with_id(self.windows@, id, i) && *w == self.windows@[i],
    {
        let mut index: usize = 0;
        while index < self.windows.len()
            invariant
                index <= self.windows.len(),
                forall|j: int| 0 <= j < index ==> self.windows@[j].id != id,
            decreases self.windows.len() - index,
        {
            if self.windows[index].id == id {
                assert(is_first_window_with_id(self.windows@, id, index as int));
                return Some(&self.windows[index]);
            }
            index = index + 1;
        }
        None
    }

    /// The observation of `target` that the window `id` gives, if that window is listed.
    pub fn observe(&self, target: SystemTarget, id: NiriWindowId) -> (observation: Option<
        FocusObservation,
    >)
        ensures
            observation is None <==> !holds_window(self.windows@, id),
            observation matches Some(o) ==> exists|i: int|
                is_first_window_with_id(self.windows@, id, i) && o
                    == self.windows@[i].spec_observation(target),
    {
        match self.window(id) {
            Some(window) => Some(window.observation(target)),
            None => None,
        }
    }

    /// The observation of `target`, or `TargetNotFound` where no listed window is the
    /// window that the target names.
    pub fn observe_target(&self, target: SystemTarget) -> (result: Result<FocusObservation, Error>)
        ensures
            match target.spec_niri_window_id() {
                Some(id) => match result {
                    Ok(o) => exists|i: int|
                        is_first_window_with_id(self.windows@, id, i) && o
                            == self.windows@[i].spec_observation(target),
                    Err(e) => !holds_window(self.windows@, id) && e == (Error::TargetNotFound {
                        target,
                    }),
                },
                None => result == Err::<FocusObservation, Error>(Error::TargetNotFound { target }),
            },
    {
        match target.niri_window_id() {
            Some(id) => match self.observe(target, id) {
                Some(observation) => Ok(observation),
                None => Err(Error::TargetNotFound { target }),
            },
            None => Err(Error::TargetNotFound { target }),
        }
    }
}

} // verus!

verus! {

/// The Niri event-stream events that bear on focus; every other event is `Other`.
#[derive(Debug, Clone, PartialEq, Eq)]
pub enum NiriEvent {
    WindowOpenedOrChanged { window: NiriWindowSnapshot },
    WindowFocusChanged { id: Option<NiriWindowId> },
    WindowClosed { id: NiriWindowId },
    WorkspaceActiveWindowChanged { workspace_id: u64, active_window_id: Option<NiriWindowId> },
    Other,
}

/// What an event says of the tracked window's focus: whether it is focused, and the
/// generation of the event's own focus timestamp (`None` where the event carries none).
pub struct FocusEvidence {
    pub focused: bool,
    pub stamp: Option<u64>,
}

/// The abstract state of a focus tracker.
pub struct FocusTrackerView {
    pub target: SystemTarget,
    pub id: NiriWindowId,
    pub last: Option<FocusObservation>,
    pub workspace_id: Option<u64>,
    pub synthetic_generation: u64,
    pub applied_event_count: u64,
    pub emitted_observation_count: u64,
}

/// The generation of the last observation, 0 before any.
pub open spec fn last_generation(tracker: FocusTrackerView) -> u64 {
    match tracker.last {
        Some(observation) => observation.generation,
        None => 0,
    }
}

/// The generation given to an observation that no timestamp stamps: one past both the
/// last observation and the last generation handed out so, held at `u64::MAX`.
pub open spec fn next_synthetic_generation(tracker: FocusTrackerView) -> u64 {
    let base = if last_generation(tracker) >= tracker.synthetic_generation {
        last_generation(tracker)
    } else {
        tracker.synthetic_generation
    };
    if base == u64::MAX {
        base
    } else {
        (base + 1) as u64
    }
}

/// What `event` says of the tracked window's focus, if anything.
pub open spec fn focus_evidence(tracker: FocusTrackerView, event: NiriEvent) -> Option<FocusEvidence> {
    match event {
        NiriEvent::WindowOpenedOrChanged { window } => if window.id == tracker.id {
            Some(FocusEvidence { focused: window.is_focused, stamp: window.spec_generation() })
        } else if window.is_focused {
            Some(FocusEvidence { focused: false, stamp: None })
        } else {
            None
        },
        NiriEvent::WindowFocusChanged { id } => Some(
            FocusEvidence { focused: id == Some(tracker.id), stamp: None },
        ),
        NiriEvent::WindowClosed { id } => if id == tracker.id {
            Some(FocusEvidence { focused: false, stamp: None })
        } else {
            None
        },
        NiriEvent::WorkspaceActiveWindowChanged { workspace_id, active_window_id } => {
            if tracker.workspace_id == Some(workspace_id) {
                Some(FocusEvidence { focused: active_window_id == Some(tracker.id), stamp: None })
            } else {
                None
            }
        },
        NiriEvent::Other => None,
    }
}

/// The workspace of the tracked window once `event` is known.
pub open spec fn workspace_after(tracker: FocusTrackerView, event: NiriEvent) -> Option<u64> {
    match event {
        NiriEvent::WindowOpenedOrChanged { window } => if window.id == tracker.id {
            window.workspace_id
        } else {
            tracker.workspace_id
        },
        _ => tracker.workspace_id,
    }
}

/// Whether reporting `focused` changes what was last observed.
pub open spec fn changes_focus(last: Option<FocusObservation>, focused: bool) -> bool {
    match last {
        Some(observation) => observation.focused != focused,
        None => true,
    }
}

/// One event applied to a tracker: the tracker afterwards, and the observations emitted.
/// An observation is emitted exactly when the event changes the tracked window's focus
/// from what was last observed; everything else (title chatter, repeats, other windows'
/// changes that leave focus where it was) is filtered out.
pub open spec fn spec_apply_event(tracker: FocusTrackerView, event: NiriEvent) -> (
    FocusTrackerView,
    Seq<FocusObservation>,
) {
    let moved = FocusTrackerView { workspace_id: workspace_after(tracker, event), ..tracker };
    match focus_evidence(tracker, event) {
        Some(evidence) => if changes_focus(tracker.last, evidence.focused) {
            let generation = match evidence.stamp {
                Some(stamp) => stamp,
                None => next_synthetic_generation(tracker),
            };
            let observation = FocusObservation {
                target: tracker.target,
                focused: evidence.focused,
                generation,
            };
            let synthetic = match evidence.stamp {
                Some(_) => tracker.synthetic_generation,
                None => generation,
            };
            (
                FocusTrackerView { last: Some(observation), synthetic_generation: synthetic, ..moved },
                seq![observation],
            )
        } else {
            (moved, Seq::empty())
        },
        None => (moved, Seq::empty()),
    }
}

/// The focus state of one Niri window, kept across the events of a subscription.
#[derive(Debug, Clone)]
pub struct FocusTracker {
    target: SystemTarget,
    id: NiriWindowId,
    last: Option<FocusObservation>,
    workspace_id: Option<u64>,
    synthetic_generation: u64,
    applied_event_count: u64,
    emitted_observation_count: u64,
}

impl View for FocusTracker {
    type V = FocusTrackerView;

    closed spec fn view(&self) -> FocusTrackerView {
        FocusTrackerView {
            target: self.target,
            id: self.id,
            last: self.last,
            workspace_id: self.workspace_id,
            synthetic_generation: self.synthetic_generation,
            applied_event_count: self.applied_event_count,
            emitted_observation_count: self.emitted_observation_count,
        }
    }
}

impl FocusTracker {
    pub fn new(target: SystemTarget, id: NiriWindowId) -> (tracker: Self)
        ensures
            tracker@ == (FocusTrackerView {
                target,
                id,
                last: None,
                workspace_id: None,
                synthetic_generation: 0,
                applied_event_count: 0,
                emitted_observation_count: 0,
            }),
    {
        Self {
            target,
            id,
            last: None,
            workspace_id: None,
            synthetic_generation: 0,
            applied_event_count: 0,
            emitted_observation_count: 0,
        }
    }

    pub fn target(&self) -> (target: SystemTarget)
        ensures
            target == self@.target,
    {
        self.target
    }

    pub fn last(&self) -> (last: Option<FocusObservation>)
        ensures
            last == self@.last,
    {
        self.last
    }

    pub fn applied_event_count(&self) -> (count: u64)
        ensures
            count == self@.applied_event_count,
    {
        self.applied_event_count
    }

    pub fn emitted_observation_count(&self) -> (count: u64)
        ensures
            count == self@.emitted_observation_count,
    {
        self.emitted_observation_count
    }

    /// Takes `observation` as what is now known of the tracked window.
    pub fn accept(&mut self, observation: FocusObservation)
        ensures
            final(self)@ == (FocusTrackerView { last: Some(observation), ..old(self)@ }),
    {
        self.last = Some(observation);
    }

    /// Takes a listed window as what is now known of the tracked window, where it is the
    /// tracked window; another window leaves the tracker as it was.
    pub fn accept_window(&mut self, window: &NiriWindowSnapshot)
        ensures
            window.id == old(self)@.id ==> final(self)@ == (FocusTrackerView {
                last: Some(window.spec_observation(old(self)@.target)),
                workspace_id: window.workspace_id,
                ..old(self)@
            }),
            window.id != old(self)@.id ==> final(self)@ == old(self)@,
    {
        if window.id == self.id {
            self.last = Some(window.observation(self.target));
            self.workspace_id = window.workspace_id;
        }
    }

    fn next_synthetic_generation(&self) -> (generation: u64)
        ensures
            generation == next_synthetic_generation(self@),
    {
        let last = match self.last {
            Some(observation) => observation.generation,
            None => 0,
        };
        let base = if last >= self.synthetic_generation {
            last
        } else {
            self.synthetic_generation
        };
        if base == u64::MAX {
            base
        } else {
            base + 1
        }
    }

    fn focus_evidence(&self, event: &NiriEvent) -> (evidence: Option<FocusEvidence>)
        ensures
            evidence == focus_evidence(self@, *event),
    {
        match event {
            NiriEvent::WindowOpenedOrChanged { window } => if window.id == self.id {
                Some(FocusEvidence { focused: window.is_focused, stamp: window.generation() })
            } else if window.is_focused {
                Some(FocusEvidence { focused: false, stamp: None })
            } else {
                None
            },
            NiriEvent::WindowFocusChanged { id } => {
                let focused = match id {
                    Some(id) => *id == self.id,
                    None => false,
                };
                Some(FocusEvidence { focused, stamp: None })
            },
            NiriEvent::WindowClosed { id } => if *id == self.id {
                Some(FocusEvidence { focused: false, stamp: None })
            } else {
                None
            },
            NiriEvent::WorkspaceActiveWindowChanged { workspace_id, active_window_id } => {
                let in_workspace = match self.workspace_id {
                    Some(current) => current == *workspace_id,
                    None => false,
                };
                if in_workspace {
                    let focused = match active_window_id {
                        Some(active) => *active == self.id,
                        None => false,
                    };
                    Some(FocusEvidence { focused, stamp: None })
                } else {
                    None
                }
            },
            NiriEvent::Other => None,
        }
    }

    /// Applies one Niri event, and returns the observations that it emits: one where the
    /// event changes the tracked window's focus, none otherwise.
    pub fn apply_event(&mut self, event: &NiriEvent) -> (observations: Vec<FocusObservation>)
        ensures
            (final(self)@, observations@) == spec_apply_event(old(self)@, *event),
            observations@.len() <= 1,
    {
        let evidence = self.focus_evidence(event);
        if let NiriEvent::WindowOpenedOrChanged { window } = event {
            if window.id == self.id {
                self.workspace_id = window.workspace_id;
            }
        }
        let mut observations: Vec<FocusObservation> = Vec::new();
        if let Some(evidence) = evidence {
            let changes = match self.last {
                Some(last) => last.focused != evidence.focused,
                None => true,
            };
            if changes {
                let generation = match evidence.stamp {
                    Some(stamp) => stamp,
                    None => {
                        let synthetic = self.next_synthetic_generation();
                        self.synthetic_generation = synthetic;
                        synthetic
                    },
                };
                let observation = FocusObservation::new(self.target, evidence.focused, generation);
                self.last = Some(observation);
                observations.push(observation);
            }
        }
        observations
    }
}

} // verus!

verus! {

/// A repeated event is chatter: applying the same event a second time emits nothing and
/// leaves the tracker as the first application left it.
pub proof fn lemma_repeated_event_is_silent(tracker: FocusTrackerView, event: NiriEvent)
    ensures
        spec_apply_event(spec_apply_event(tracker, event).0, event) == (
            spec_apply_event(tracker, event).0,
            Seq::<FocusObservation>::empty(),
        ),
{
    let after = spec_apply_event(tracker, event).0;
    let again = spec_apply_event(after, event);
    assert(again.1 =~= Seq::<FocusObservation>::empty());
    assert(again.0 == after);
}

/// An event emits an observation only where it changes the focus last observed; the
/// observation is of the tracker's own target, and becomes the last observation. An
/// event that emits nothing leaves the last observation as it was.
pub proof fn lemma_emission_is_focus_change(tracker: FocusTrackerView, event: NiriEvent)
    ensures
        ({
            let (after, emitted) = spec_apply_event(tracker, event);
            &&& emitted.len() <= 1
            &&& emitted.len() == 1 ==> {
                &&& emitted[0].target == tracker.target
                &&& changes_focus(tracker.last, emitted[0].focused)
                &&& after.last == Some(emitted[0])
            }
            &&& emitted.len() == 0 ==> after.last == tracker.last
            &&& after.target == tracker.target
            &&& after.id == tracker.id
        }),
{
}

/// An observation emitted from an event without a focus timestamp carries a generation
/// above every generation that the tracker has seen or handed out, unless the generations
/// have reached `u64::MAX`.
pub proof fn lemma_synthetic_generations_increase(tracker: FocusTrackerView, event: NiriEvent)
    requires
        focus_evidence(tracker, event) matches Some(evidence) && evidence.stamp is None,
        spec_apply_event(tracker, event).1.len() == 1,
    ensures
        ({
            let observation = spec_apply_event(tracker, event).1[0];
            ||| observation.generation == u64::MAX
            ||| (observation.generation > last_generation(tracker)
                && observation.generation > tracker.synthetic_generation)
        }),
{
}

} // verus!

verus! {

impl FocusTracker {
    /// Sets the counts of applied events and emitted observations.
    pub(crate) fn set_counts(&mut self, applied_event_count: u64, emitted_observation_count: u64)
        ensures
            final(self)@ == (FocusTrackerView {
                applied_event_count,
                emitted_observation_count,
                ..old(self)@
            }),
    {
        self.applied_event_count = applied_event_count;
        self.emitted_observation_count = emitted_observation_count;
    }
}

} // verus!

verus! {

/// A window's title, app id, pid, floating and urgent flags are evidence, not identity:
/// two reports of a window that agree on its id, workspace, focus and focus timestamp
/// act on a tracker alike.
pub proof fn lemma_evidence_is_not_identity(
    tracker: FocusTrackerView,
    first: NiriWindowSnapshot,
    second: NiriWindowSnapshot,
)
    requires
        first.id == second.id,
        first.workspace_id == second.workspace_id,
        first.is_focused == second.is_focused,
        first.focus_timestamp == second.focus_timestamp,
    ensures
        spec_apply_event(tracker, NiriEvent::WindowOpenedOrChanged { window: first })
            == spec_apply_event(tracker, NiriEvent::WindowOpenedOrChanged { window: second }),
{
}

} // verus!

verus! {

/// After an event that says anything of the tracked window's focus, the last observation
/// reports exactly that focus; an event that says nothing of it changes nothing but the
/// window's recorded workspace.
pub proof fn lemma_last_observation_follows_evidence(tracker: FocusTrackerView, event: NiriEvent)
    ensures
        match focus_evidence(tracker, event) {
            Some(evidence) => spec_apply_event(tracker, event).0.last matches Some(observation)
                && observation.focused == evidence.focused,
            None => spec_apply_event(tracker, event) == (
                FocusTrackerView { workspace_id: workspace_after(tracker, event), ..tracker },
                Seq::<FocusObservation>::empty(),
            ),
        },
{
}

} // verus!

verus! {

/// A tracker seeded from a window listing: the listed window's observation is both what
/// the tracker last knows and what a subscriber is first told.
pub open spec fn seeded_tracker(
    target: SystemTarget,
    id: NiriWindowId,
    window: NiriWindowSnapshot,
) -> FocusTrackerView {
    FocusTrackerView {
        target,
        id,
        last: Some(window.spec_observation(target)),
        workspace_id: window.workspace_id,
        synthetic_generation: 0,
        applied_event_count: 0,
        emitted_observation_count: 0,
    }
}

impl FocusTracker {
    /// A tracker for `target` seeded from the window list, with the initial observation
    /// of the target; `TargetNotFound` where the list does not hold the target's window.
    pub fn seeded(target: SystemTarget, windows: &NiriWindows) -> (seeded: Result<
        (FocusTracker, FocusObservation),
        Error,
    >)
        ensures
            match target.spec_niri_window_id() {
                Some(id) => match seeded {
                    Ok((tracker, observation)) => exists|i: int|
                        is_first_window_with_id(windows.windows@, id, i) && tracker@
                            == seeded_tracker(target, id, windows.windows@[i]) && observation
                            == windows.windows@[i].spec_observation(target),
                    Err(error) => !holds_window(windows.windows@, id) && error
                        == (Error::TargetNotFound { target }),
                },
                None => seeded == Err::<(FocusTracker, FocusObservation), Error>(
                    Error::TargetNotFound { target },
                ),
            },
    {
        let id = match target.niri_window_id() {
            Some(id) => id,
            None => {
                return Err(Error::TargetNotFound { target });
            },
        };
        match windows.window(id) {
            Some(window) => {
                let mut tracker = FocusTracker::new(target, id);
                tracker.accept_window(window);
                let observation = window.observation(target);
                Ok((tracker, observation))
            },
            None => Err(Error::TargetNotFound { target }),
        }
    }
}

} // verus!

verus! {

/// Another window's report that leaves it unfocused (a title change, say) says nothing of
/// the tracked window: it emits nothing and leaves the tracker exactly as it was.
pub proof fn lemma_other_unfocused_window_is_chatter(
    tracker: FocusTrackerView,
    window: NiriWindowSnapshot,
)
    requires
        window.id != tracker.id,
        !window.is_focused,
    ensures
        spec_apply_event(tracker, NiriEvent::WindowOpenedOrChanged { window }) == (
            tracker,
            Seq::<FocusObservation>::empty(),
        ),
{
    let (after, emitted) = spec_apply_event(tracker, NiriEvent::WindowOpenedOrChanged { window });
    assert(emitted =~= Seq::<FocusObservation>::empty());
    assert(after == tracker);
}

/// In the tracked window's workspace, the active window decides its focus: another window
/// becoming active unfocuses a focused tracked window (one observation, unfocused), and
/// the tracked window becoming active focuses it where it was not known focused.
pub proof fn lemma_workspace_active_window_decides_focus(
    tracker: FocusTrackerView,
    workspace_id: u64,
    active_window_id: Option<NiriWindowId>,
)
    requires
        tracker.workspace_id == Some(workspace_id),
    ensures
        ({
            let (after, emitted) = spec_apply_event(
                tracker,
                NiriEvent::WorkspaceActiveWindowChanged { workspace_id, active_window_id },
            );
            &&& active_window_id != Some(tracker.id) && (tracker.last matches Some(last)
                && last.focused) ==> emitted.len() == 1 && !emitted[0].focused
                && emitted[0].target == tracker.target && after.last == Some(emitted[0])
            &&& active_window_id == Some(tracker.id) && !(tracker.last matches Some(last)
                && last.focused) ==> emitted.len() == 1 && emitted[0].focused
                && emitted[0].target == tracker.target && after.last == Some(emitted[0])
            &&& after.last matches Some(last) && last.focused == (active_window_id == Some(
                tracker.id,
            ))
        }),
{
}

/// The observation that a listed window gives reports the window's own focus flag,
/// whatever its urgent or floating flags, for the asked-for target, with the window's
/// focus timestamp in nanoseconds (held at `u64::MAX`; 0 without a timestamp).
pub proof fn lemma_observation_reports_the_window(
    window: NiriWindowSnapshot,
    target: SystemTarget,
)
    ensures
        window.spec_observation(target).target == target,
        window.spec_observation(target).focused == window.is_focused,
        window.spec_observation(target).generation as int == match window.focus_timestamp {
            Some(timestamp) => if timestamp.secs * 1_000_000_000 + timestamp.nanos > u64::MAX {
                u64::MAX as int
            } else {
                timestamp.secs * 1_000_000_000 + timestamp.nanos
            },
            None => 0,
        },
{
}

} // verus!
