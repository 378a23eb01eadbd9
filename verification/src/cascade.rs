//! The tracking cascade: the state machine that decides, frame by frame,
//! whether the primary tracker is trusted, whether the secondary tracker
//! takes over, or whether the target is lost.
//!
//! The cascade runs no tracker itself. Its caller runs the tracker that the
//! cascade asks for and reports what came back; the cascade holds the state
//! and makes every decision.

use vstd::prelude::*;
use crate::confidence::{Confidence, Thresholds};
use crate::geometry::Rect;

verus! {

/// Where a track stands.
#[derive(Clone, Copy, Debug, PartialEq, Eq, Structural)]
pub enum TrackState {
    /// No target has been acquired yet.
    Uninitialized,
    /// The primary tracker holds the target.
    Tracking,
    /// The secondary tracker holds the target.
    TrackingDegraded,
    /// Both trackers failed; the target has to be acquired anew.
    Lost,
}

/// A box together with the number of the frame it was observed in.
#[derive(Clone, Copy, Debug, PartialEq, Eq, Structural)]
pub struct Observation {
    pub bbox: Rect,
    pub frame: u64,
}

/// What a tracker gave back for one frame.
#[derive(Clone, Copy, Debug, PartialEq, Eq, Structural)]
pub enum TrackerReport {
    /// The tracker could not be run or reported an error.
    Failed,
    /// The tracker located the target in `bbox` with confidence `score`.
    Scored { bbox: Rect, score: Confidence },
}

impl TrackerReport {
    /// The box of the report if its confidence reaches `threshold`. A
    /// failed tracker is never accepted.
    pub open spec fn accepted_by(self, threshold: Confidence) -> Option<Rect> {
        match self {
            TrackerReport::Failed => None,
            TrackerReport::Scored { bbox, score } => if score.level() >= threshold.level() {
                Some(bbox)
            } else {
                None
            },
        }
    }

    /// Returns the box of the report if its confidence reaches
    /// `threshold`.
    pub fn accepted(&self, threshold: Confidence) -> (r: Option<Rect>)
        ensures
            r == self.accepted_by(threshold),
    {
        match self {
            TrackerReport::Failed => None,
            TrackerReport::Scored { bbox, score } => if score.meets(threshold) {
                Some(*bbox)
            } else {
                None
            },
        }
    }
}

/// What the cascade decided after the primary tracker's report.
#[derive(Clone, Copy, Debug, PartialEq, Eq, Structural)]
pub enum Step {
    /// There is no track to update; the target has to be acquired first.
    NoTrack,
    /// The primary tracker's box was accepted.
    Track(Rect),
    /// The primary tracker was not trusted. The secondary tracker is to be
    /// initialised with the box of `seed` on the frame of `seed`, and then
    /// updated on the current frame. It has to be constructed first where
    /// `construct` is set.
    Fallback { seed: Observation, construct: bool },
}

/// The cascade as contracts see it.
pub struct CascadeView {
    pub state: TrackState,
    /// The last observation that was trusted.
    pub last_good: Option<Observation>,
    /// Whether the secondary tracker of the current track exists already.
    pub secondary_built: bool,
    pub thresholds: Thresholds,
}

impl CascadeView {
    /// A track is held, by either tracker.
    pub open spec fn is_active(self) -> bool {
        self.state is Tracking || self.state is TrackingDegraded
    }

    /// A trusted observation is kept exactly while a track is held, and a
    /// secondary tracker belongs to a held track.
    pub open spec fn wf(self) -> bool {
        &&& self.is_active() <==> self.last_good is Some
        &&& self.secondary_built ==> self.is_active()
    }

    /// The cascade before any target was acquired.
    pub open spec fn initial(thresholds: Thresholds) -> CascadeView {
        CascadeView {
            state: TrackState::Uninitialized,
            last_good: None,
            secondary_built: false,
            thresholds,
        }
    }

    /// A fresh track on `bbox`, observed in frame `frame`.
    pub open spec fn acquire(self, bbox: Rect, frame: u64) -> CascadeView {
        CascadeView {
            state: TrackState::Tracking,
            last_good: Some(Observation { bbox, frame }),
            secondary_built: false,
            thresholds: self.thresholds,
        }
    }

    /// The box that a reacquisition may be biased towards: that of the
    /// last trusted observation, if one is kept.
    pub open spec fn prior_box(self) -> Option<Rect> {
        match self.last_good {
            Some(seen) => Some(seen.bbox),
            None => None,
        }
    }

    /// The cascade after the primary tracker reported `primary` for frame
    /// `frame`, and the step that follows.
    pub open spec fn update(self, frame: u64, primary: TrackerReport) -> (CascadeView, Step) {
        match self.last_good {
            None => (self, Step::NoTrack),
            Some(seen) => match primary.accepted_by(self.thresholds.primary) {
                Some(bbox) => (
                    CascadeView {
                        state: TrackState::Tracking,
                        last_good: Some(Observation { bbox, frame }),
                        ..self
                    },
                    Step::Track(bbox),
                ),
                None => (
                    CascadeView { secondary_built: true, ..self },
                    Step::Fallback { seed: seen, construct: !self.secondary_built },
                ),
            },
        }
    }

    /// The cascade after the secondary tracker reported `secondary` for
    /// frame `frame`, and the box that was accepted, if any.
    pub open spec fn fallback(self, frame: u64, secondary: TrackerReport) -> (
        CascadeView,
        Option<Rect>,
    ) {
        match self.last_good {
            None => (self, None),
            Some(seen) => match secondary.accepted_by(self.thresholds.secondary) {
                Some(bbox) => (
                    CascadeView {
                        state: TrackState::TrackingDegraded,
                        last_good: Some(Observation { bbox, frame }),
                        ..self
                    },
                    Some(bbox),
                ),
                None => (
                    CascadeView {
                        state: TrackState::Lost,
                        last_good: None,
                        secondary_built: false,
                        ..self
                    },
                    None,
                ),
            },
        }
    }
}

/// What the cascade holds in each state.
#[derive(Clone, Copy, Debug)]
enum Phase {
    Uninitialized,
    Active { degraded: bool, last_good: Observation, secondary_built: bool },
    Lost,
}

/// The tracking cascade of one target.
#[derive(Clone, Copy, Debug)]
pub struct Cascade {
    thresholds: Thresholds,
    phase: Phase,
}

impl View for Cascade {
    type V = CascadeView;

    closed spec fn view(&self) -> CascadeView {
        match self.phase {
            Phase::Uninitialized => CascadeView {
                state: TrackState::Uninitialized,
                last_good: None,
                secondary_built: false,
                thresholds: self.thresholds,
            },
            Phase::Active { degraded, last_good, secondary_built } => CascadeView {
                state: if degraded {
                    TrackState::TrackingDegraded
                } else {
                    TrackState::Tracking
                },
                last_good: Some(last_good),
                secondary_built,
                thresholds: self.thresholds,
            },
            Phase::Lost => CascadeView {
                state: TrackState::Lost,
                last_good: None,
                secondary_built: false,
                thresholds: self.thresholds,
            },
        }
    }
}

impl Cascade {
    /// Every cascade is well formed.
    pub proof fn lemma_wf(self)
        ensures
            self@.wf(),
    {
    }

    /// A cascade that has not acquired a target yet.
    pub fn new(thresholds: Thresholds) -> (c: Cascade)
        ensures
            c@ == CascadeView::initial(thresholds),
            c@.wf(),
    {
        Cascade { thresholds, phase: Phase::Uninitialized }
    }

    /// Starts a fresh track on `bbox`, which the primary tracker was
    /// initialised with on frame `frame`. Whatever was tracked before is
    /// forgotten.
    pub fn acquire(&mut self, bbox: Rect, frame: u64)
        ensures
            final(self)@ == old(self)@.acquire(bbox, frame),
            final(self)@.wf(),
    {
        self.phase = Phase::Active {
            degraded: false,
            last_good: Observation { bbox, frame },
            secondary_built: false,
        };
    }

    /// Takes the primary tracker's report for frame `frame`.
    ///
    /// Without a track nothing changes and the step is `NoTrack`. A report
    /// that reaches the primary threshold is accepted: its box and `frame`
    /// become the last trusted observation. Any other report, a failure
    /// included, leaves the last trusted observation as it was and hands it
    /// out as the seed for the secondary tracker.
    pub fn update(&mut self, frame: u64, primary: TrackerReport) -> (step: Step)
        ensures
            (final(self)@, step) == old(self)@.update(frame, primary),
            final(self)@.wf(),
    {
        match self.phase {
            Phase::Uninitialized => Step::NoTrack,
            Phase::Lost => Step::NoTrack,
            Phase::Active { degraded, last_good, secondary_built } => {
                match primary.accepted(self.thresholds.primary) {
                    Some(bbox) => {
                        self.phase = Phase::Active {
                            degraded: false,
                            last_good: Observation { bbox, frame },
                            secondary_built,
                        };
                        Step::Track(bbox)
                    },
                    None => {
                        self.phase = Phase::Active { degraded, last_good, secondary_built: true };
                        Step::Fallback { seed: last_good, construct: !secondary_built }
                    },
                }
            },
        }
    }

    /// Takes the secondary tracker's report for frame `frame`.
    ///
    /// A report that reaches the secondary threshold is accepted: the track
    /// is degraded, and the box and `frame` become the last trusted
    /// observation. Any other report loses the track and clears the last
    /// trusted observation. Without a track nothing changes.
    pub fn fallback(&mut self, frame: u64, secondary: TrackerReport) -> (accepted: Option<Rect>)
        ensures
            (final(self)@, accepted) == old(self)@.fallback(frame, secondary),
            final(self)@.wf(),
    {
        match self.phase {
            Phase::Uninitialized => None,
            Phase::Lost => None,
            Phase::Active { degraded, last_good, secondary_built } => {
                match secondary.accepted(self.thresholds.secondary) {
                    Some(bbox) => {
                        self.phase = Phase::Active {
                            degraded: true,
                            last_good: Observation { bbox, frame },
                            secondary_built,
                        };
                        Some(bbox)
                    },
                    None => {
                        self.phase = Phase::Lost;
                        None
                    },
                }
            },
        }
    }

    /// The state of the track.
    pub fn state(&self) -> (s: TrackState)
        ensures
            s == self@.state,
    {
        match self.phase {
            Phase::Uninitialized => TrackState::Uninitialized,
            Phase::Active { degraded, .. } => if degraded {
                TrackState::TrackingDegraded
            } else {
                TrackState::Tracking
            },
            Phase::Lost => TrackState::Lost,
        }
    }

    /// Tells whether a track is held.
    pub fn is_active(&self) -> (b: bool)
        ensures
            b == self@.is_active(),
    {
        match self.phase {
            Phase::Active { .. } => true,
            _ => false,
        }
    }

    /// The last trusted observation, if a track is held.
    pub fn last_good(&self) -> (seen: Option<Observation>)
        ensures
            seen == self@.last_good,
    {
        match self.phase {
            Phase::Active { last_good, .. } => Some(last_good),
            _ => None,
        }
    }

    /// The box that a reacquisition may be biased towards.
    pub fn prior_box(&self) -> (prior: Option<Rect>)
        ensures
            prior == self@.prior_box(),
    {
        match self.phase {
            Phase::Active { last_good, .. } => Some(last_good.bbox),
            _ => None,
        }
    }

    /// The thresholds that the cascade decides by.
    pub fn thresholds(&self) -> (t: Thresholds)
        ensures
            t == self@.thresholds,
    {
        self.thresholds
    }
}

/// Every step leads from a well-formed cascade to a well-formed cascade.
pub proof fn lemma_steps_preserve_wf(c: CascadeView, bbox: Rect, frame: u64, report: TrackerReport)
    requires
        c.wf(),
    ensures
        CascadeView::initial(c.thresholds).wf(),
        c.acquire(bbox, frame).wf(),
        c.update(frame, report).0.wf(),
        c.fallback(frame, report).0.wf(),
{
}

/// A report that reaches the threshold is accepted by either tracker: its
/// box is handed out and recorded, with the frame, as the last trusted
/// observation.
pub proof fn lemma_accepted_report_is_recorded(
    c: CascadeView,
    frame: u64,
    bbox: Rect,
    score: Confidence,
)
    requires
        c.wf(),
        c.is_active(),
    ensures
        score.level() >= c.thresholds.primary.level() ==> {
            let (after, step) = c.update(frame, TrackerReport::Scored { bbox, score });
            &&& step == Step::Track(bbox)
            &&& after.state == TrackState::Tracking
            &&& after.last_good == Some(Observation { bbox, frame })
        },
        score.level() >= c.thresholds.secondary.level() ==> {
            let (after, accepted) = c.fallback(frame, TrackerReport::Scored { bbox, score });
            &&& accepted == Some(bbox)
            &&& after.state == TrackState::TrackingDegraded
            &&& after.last_good == Some(Observation { bbox, frame })
        },
{
}

/// When the primary tracker is not trusted, the secondary tracker is
/// seeded with the last trusted observation as it stood before the report:
/// the box and the frame of the last acceptance, not those of the report.
/// The observation stays in place, and so does the state.
pub proof fn lemma_fallback_seed_is_last_trusted(c: CascadeView, frame: u64, primary: TrackerReport)
    requires
        c.wf(),
        c.is_active(),
        primary.accepted_by(c.thresholds.primary) is None,
    ensures
        ({
            let (after, step) = c.update(frame, primary);
            &&& step matches Step::Fallback { seed, construct }
            &&& Some(seed) == c.last_good
            &&& construct == !c.secondary_built
            &&& after.last_good == c.last_good
            &&& after.state == c.state
            &&& after.secondary_built
        }),
{
}

/// When neither tracker is trusted for a frame, the track is lost and the
/// last trusted observation is cleared: no prior box is left.
pub proof fn lemma_double_failure_loses_track(
    c: CascadeView,
    frame: u64,
    primary: TrackerReport,
    secondary: TrackerReport,
)
    requires
        c.wf(),
        c.is_active(),
        primary.accepted_by(c.thresholds.primary) is None,
        secondary.accepted_by(c.thresholds.secondary) is None,
    ensures
        ({
            let (after, accepted) = c.update(frame, primary).0.fallback(frame, secondary);
            &&& accepted is None
            &&& after.state == TrackState::Lost
            &&& after.last_good is None
            &&& after.prior_box() is None
            &&& !after.secondary_built
        }),
{
}

/// A failed tracker is treated as one whose confidence is too low,
/// whatever the threshold.
pub proof fn lemma_failure_is_never_accepted(threshold: Confidence)
    ensures
        TrackerReport::Failed.accepted_by(threshold) is None,
{
}

/// Without a track, reports change nothing.
pub proof fn lemma_inactive_ignores_reports(c: CascadeView, frame: u64, report: TrackerReport)
    requires
        c.wf(),
        !c.is_active(),
    ensures
        c.update(frame, report) == (c, Step::NoTrack),
        c.fallback(frame, report) == (c, None::<Rect>),
{
}

} // verus!
