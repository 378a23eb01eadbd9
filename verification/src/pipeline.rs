//! The frame-processing session: one frame in flight at a time, from the
//! pull to the push.
//!
//! The session performs no input or output. After each thing that happened
//! (a frame was pulled, a tracker reported, the detector answered, the
//! frame was pushed) it is told so, moves on, and names the one action to
//! perform next. Every frame that enters is forwarded before the next one
//! is asked for.

use vstd::prelude::*;
use crate::cascade::{Cascade, CascadeView, Observation, Step, TrackState, TrackerReport};
use crate::confidence::Thresholds;
use crate::geometry::Rect;
use crate::reacquire::{select_candidate, select_spec, Detection};

verus! {

/// How many seconds a pull waits for a frame before it gives up.
pub const PULL_WAIT_SECONDS: u64 = 5;

/// What the session waits for.
#[derive(Clone, Copy, Debug, PartialEq, Eq, Structural)]
pub enum Stage {
    /// No frame is in flight; the next pull is awaited.
    Idle,
    /// The primary tracker runs on the frame in flight.
    AwaitPrimary,
    /// The secondary tracker runs on the frame in flight.
    AwaitSecondary,
    /// The detector searches the frame in flight.
    AwaitDetections,
    /// A fresh primary tracker is being initialised with `candidate`.
    AwaitStart { candidate: Rect },
    /// The frame in flight is being pushed to the sink.
    AwaitPush,
}

/// How a pull from the source ended.
#[derive(Clone, Copy, Debug, PartialEq, Eq, Structural)]
pub enum Pulled {
    /// No frame arrived within the wait.
    Timeout,
    /// Something arrived that cannot be read as a frame.
    Unusable,
    /// A frame arrived.
    Frame,
}

/// What is to be done next.
#[derive(Clone, Copy, Debug, PartialEq, Eq, Structural)]
pub enum Action {
    /// Pull the next frame from the source, waiting `PULL_WAIT_SECONDS` at
    /// most.
    Pull,
    /// Update the primary tracker on frame `frame` and report.
    RunPrimary { frame: u64 },
    /// Construct the secondary tracker if `construct` is set, initialise it
    /// with the box of `seed` on the retained frame of `seed`, update it on
    /// frame `frame` and report.
    RunSecondary { seed: Observation, construct: bool, frame: u64 },
    /// Run the detector on frame `frame` and report what it found.
    Detect { frame: u64 },
    /// Initialise a fresh primary tracker with `bbox` on frame `frame` and
    /// report whether that succeeded.
    StartTracker { bbox: Rect, frame: u64 },
    /// Retain frame `frame` as the last trusted frame if `retain` is set,
    /// draw `overlay` if there is one, push the frame to the sink and
    /// report.
    Forward { overlay: Option<Rect>, retain: bool, frame: u64 },
    /// What was reported is not what the session waits for. Nothing
    /// changed.
    OutOfTurn,
}

/// The number of the frame after frame `frame`; the numbers wrap around.
pub open spec fn next_frame(frame: u64) -> u64 {
    if frame == u64::MAX { 0 } else { (frame + 1) as u64 }
}

/// The session as contracts see it.
pub struct SessionView {
    pub cascade: CascadeView,
    pub stage: Stage,
    /// The number of the frame in flight, or of the last one that was.
    pub frame: u64,
}

impl SessionView {
    /// The cascade is well formed, a tracker runs only for a held track,
    /// the detector only without one, and the last trusted observation
    /// stems from the frame before the one in flight until the frame in
    /// flight is itself trusted.
    pub open spec fn wf(self) -> bool {
        &&& self.cascade.wf()
        &&& match self.stage {
            Stage::Idle | Stage::AwaitPush => self.cascade.last_good matches Some(seen)
                ==> seen.frame == self.frame,
            Stage::AwaitPrimary => self.cascade.last_good matches Some(seen) && next_frame(
                seen.frame,
            ) == self.frame,
            Stage::AwaitSecondary => self.cascade.last_good matches Some(seen) && next_frame(
                seen.frame,
            ) == self.frame && self.cascade.secondary_built,
            Stage::AwaitDetections | Stage::AwaitStart { .. } => self.cascade.last_good is None,
        }
    }

    /// The session before the first pull.
    pub open spec fn initial(thresholds: Thresholds) -> SessionView {
        SessionView { cascade: CascadeView::initial(thresholds), stage: Stage::Idle, frame: 0 }
    }

    /// After a pull. A frame that arrived is numbered and goes to the
    /// primary tracker if a track is held, to the detector otherwise;
    /// anything else leads to the next pull.
    pub open spec fn on_pull(self, pulled: Pulled) -> (SessionView, Action) {
        if self.stage != Stage::Idle {
            (self, Action::OutOfTurn)
        } else if pulled != Pulled::Frame {
            (self, Action::Pull)
        } else {
            let frame = next_frame(self.frame);
            if self.cascade.last_good is Some {
                (SessionView { stage: Stage::AwaitPrimary, frame, ..self }, Action::RunPrimary { frame })
            } else {
                (SessionView { stage: Stage::AwaitDetections, frame, ..self }, Action::Detect { frame })
            }
        }
    }

    /// After the primary tracker's report. An accepted box is forwarded;
    /// otherwise the secondary tracker is asked.
    pub open spec fn on_primary(self, report: TrackerReport) -> (SessionView, Action) {
        if self.stage != Stage::AwaitPrimary {
            (self, Action::OutOfTurn)
        } else {
            let (cascade, step) = self.cascade.update(self.frame, report);
            match step {
                Step::Track(bbox) => (
                    SessionView { cascade, stage: Stage::AwaitPush, ..self },
                    Action::Forward { overlay: Some(bbox), retain: true, frame: self.frame },
                ),
                Step::Fallback { seed, construct } => (
                    SessionView { cascade, stage: Stage::AwaitSecondary, ..self },
                    Action::RunSecondary { seed, construct, frame: self.frame },
                ),
                Step::NoTrack => (
                    SessionView { cascade, stage: Stage::AwaitDetections, ..self },
                    Action::Detect { frame: self.frame },
                ),
            }
        }
    }

    /// After the secondary tracker's report. An accepted box is forwarded;
    /// otherwise the track is lost and the detector searches the same
    /// frame.
    pub open spec fn on_secondary(self, report: TrackerReport) -> (SessionView, Action) {
        if self.stage != Stage::AwaitSecondary {
            (self, Action::OutOfTurn)
        } else {
            let (cascade, accepted) = self.cascade.fallback(self.frame, report);
            match accepted {
                Some(bbox) => (
                    SessionView { cascade, stage: Stage::AwaitPush, ..self },
                    Action::Forward { overlay: Some(bbox), retain: true, frame: self.frame },
                ),
                None => (
                    SessionView { cascade, stage: Stage::AwaitDetections, ..self },
                    Action::Detect { frame: self.frame },
                ),
            }
        }
    }

    /// After the detector's answer. The chosen detection, if there is one,
    /// is handed to a fresh primary tracker; without detections the frame
    /// is forwarded as it is.
    pub open spec fn on_detections(self, dets: Seq<Detection>) -> (SessionView, Action) {
        if self.stage != Stage::AwaitDetections {
            (self, Action::OutOfTurn)
        } else {
            match select_spec(self.cascade.prior_box(), dets) {
                Some(k) => (
                    SessionView { stage: Stage::AwaitStart { candidate: dets[k].bbox }, ..self },
                    Action::StartTracker { bbox: dets[k].bbox, frame: self.frame },
                ),
                None => (
                    SessionView { stage: Stage::AwaitPush, ..self },
                    Action::Forward { overlay: None, retain: false, frame: self.frame },
                ),
            }
        }
    }

    /// After the attempt to initialise a fresh primary tracker. Where it
    /// succeeded a fresh track starts on the candidate; either way the
    /// frame is forwarded without an overlay.
    pub open spec fn on_tracker_started(self, started: bool) -> (SessionView, Action) {
        match self.stage {
            Stage::AwaitStart { candidate } => if started {
                (
                    SessionView {
                        cascade: self.cascade.acquire(candidate, self.frame),
                        stage: Stage::AwaitPush,
                        ..self
                    },
                    Action::Forward { overlay: None, retain: true, frame: self.frame },
                )
            } else {
                (
                    SessionView { stage: Stage::AwaitPush, ..self },
                    Action::Forward { overlay: None, retain: false, frame: self.frame },
                )
            },
            _ => (self, Action::OutOfTurn),
        }
    }

    /// After the push. Whether or not the sink took the frame, the next
    /// one is pulled.
    pub open spec fn on_pushed(self) -> (SessionView, Action) {
        if self.stage != Stage::AwaitPush {
            (self, Action::OutOfTurn)
        } else {
            (SessionView { stage: Stage::Idle, ..self }, Action::Pull)
        }
    }
}

/// The frame-processing session.
#[derive(Clone, Copy, Debug)]
pub struct Session {
    cascade: Cascade,
    stage: Stage,
    frame: u64,
}

impl View for Session {
    type V = SessionView;

    closed spec fn view(&self) -> SessionView {
        SessionView { cascade: self.cascade@, stage: self.stage, frame: self.frame }
    }
}

impl Session {
    #[verifier::type_invariant]
    spec fn inv(self) -> bool {
        self@.wf()
    }

    /// A session that has pulled no frame and holds no track.
    pub fn new(thresholds: Thresholds) -> (s: Session)
        ensures
            s@ == SessionView::initial(thresholds),
            s@.wf(),
    {
        Session { cascade: Cascade::new(thresholds), stage: Stage::Idle, frame: 0 }
    }

    /// What the session waits for.
    pub fn stage(&self) -> (stage: Stage)
        ensures
            stage == self@.stage,
    {
        self.stage
    }

    /// The number of the frame in flight, or of the last one that was.
    pub fn frame(&self) -> (frame: u64)
        ensures
            frame == self@.frame,
    {
        self.frame
    }

    /// The cascade of the session.
    pub fn cascade(&self) -> (cascade: &Cascade)
        ensures
            cascade@ == self@.cascade,
    {
        &self.cascade
    }

    /// Tells the session how a pull ended.
    pub fn on_pull(&mut self, pulled: Pulled) -> (action: Action)
        ensures
            (final(self)@, action) == old(self)@.on_pull(pulled),
            final(self)@.wf(),
    {
        proof {
            use_type_invariant(&*self);
        }
        match self.stage {
            Stage::Idle => {},
            _ => {
                return Action::OutOfTurn;
            },
        }
        match pulled {
            Pulled::Frame => {},
            _ => {
                return Action::Pull;
            },
        }
        let frame: u64 = if self.frame == u64::MAX { 0 } else { self.frame + 1 };
        if self.cascade.is_active() {
            *self = Session { cascade: self.cascade, stage: Stage::AwaitPrimary, frame };
            Action::RunPrimary { frame }
        } else {
            *self = Session { cascade: self.cascade, stage: Stage::AwaitDetections, frame };
            Action::Detect { frame }
        }
    }

    /// Tells the session what the primary tracker reported.
    pub fn on_primary(&mut self, report: TrackerReport) -> (action: Action)
        ensures
            (final(self)@, action) == old(self)@.on_primary(report),
            final(self)@.wf(),
    {
        proof {
            use_type_invariant(&*self);
        }
        match self.stage {
            Stage::AwaitPrimary => {},
            _ => {
                return Action::OutOfTurn;
            },
        }
        let frame: u64 = self.frame;
        let mut cascade: Cascade = self.cascade;
        match cascade.update(frame, report) {
            Step::Track(bbox) => {
                *self = Session { cascade, stage: Stage::AwaitPush, frame };
                Action::Forward { overlay: Some(bbox), retain: true, frame }
            },
            Step::Fallback { seed, construct } => {
                *self = Session { cascade, stage: Stage::AwaitSecondary, frame };
                Action::RunSecondary { seed, construct, frame }
            },
            Step::NoTrack => {
                *self = Session { cascade, stage: Stage::AwaitDetections, frame };
                Action::Detect { frame }
            },
        }
    }

    /// Tells the session what the secondary tracker reported.
    pub fn on_secondary(&mut self, report: TrackerReport) -> (action: Action)
        ensures
            (final(self)@, action) == old(self)@.on_secondary(report),
            final(self)@.wf(),
    {
        proof {
            use_type_invariant(&*self);
        }
        match self.stage {
            Stage::AwaitSecondary => {},
            _ => {
                return Action::OutOfTurn;
            },
        }
        let frame: u64 = self.frame;
        let mut cascade: Cascade = self.cascade;
        match cascade.fallback(frame, report) {
            Some(bbox) => {
                *self = Session { cascade, stage: Stage::AwaitPush, frame };
                Action::Forward { overlay: Some(bbox), retain: true, frame }
            },
            None => {
                *self = Session { cascade, stage: Stage::AwaitDetections, frame };
                Action::Detect { frame }
            },
        }
    }

    /// Tells the session what the detector found, in the detector's order.
    pub fn on_detections(&mut self, detections: &Vec<Detection>) -> (action: Action)
        ensures
            (final(self)@, action) == old(self)@.on_detections(detections@),
            final(self)@.wf(),
    {
        proof {
            use_type_invariant(&*self);
        }
        match self.stage {
            Stage::AwaitDetections => {},
            _ => {
                return Action::OutOfTurn;
            },
        }
        let frame: u64 = self.frame;
        match select_candidate(self.cascade.prior_box(), detections) {
            Some(k) => {
                let bbox: Rect = detections[k].bbox;
                *self = Session {
                    cascade: self.cascade,
                    stage: Stage::AwaitStart { candidate: bbox },
                    frame,
                };
                Action::StartTracker { bbox, frame }
            },
            None => {
                *self = Session { cascade: self.cascade, stage: Stage::AwaitPush, frame };
                Action::Forward { overlay: None, retain: false, frame }
            },
        }
    }

    /// Tells the session that the detector could not be run. This counts
    /// as a detector that found nothing.
    pub fn on_detector_failed(&mut self) -> (action: Action)
        ensures
            (final(self)@, action) == old(self)@.on_detections(Seq::empty()),
            final(self)@.wf(),
    {
        let none: Vec<Detection> = Vec::new();
        self.on_detections(&none)
    }

    /// Tells the session whether the fresh primary tracker could be
    /// initialised.
    pub fn on_tracker_started(&mut self, started: bool) -> (action: Action)
        ensures
            (final(self)@, action) == old(self)@.on_tracker_started(started),
            final(self)@.wf(),
    {
        proof {
            use_type_invariant(&*self);
        }
        let frame: u64 = self.frame;
        match self.stage {
            Stage::AwaitStart { candidate } => {
                if started {
                    let mut cascade: Cascade = self.cascade;
                    cascade.acquire(candidate, frame);
                    *self = Session { cascade, stage: Stage::AwaitPush, frame };
                    Action::Forward { overlay: None, retain: true, frame }
                } else {
                    *self = Session { cascade: self.cascade, stage: Stage::AwaitPush, frame };
                    Action::Forward { overlay: None, retain: false, frame }
                }
            },
            _ => Action::OutOfTurn,
        }
    }

    /// Tells the session that the push ended.
    pub fn on_pushed(&mut self) -> (action: Action)
        ensures
            (final(self)@, action) == old(self)@.on_pushed(),
            final(self)@.wf(),
    {
        proof {
            use_type_invariant(&*self);
        }
        match self.stage {
            Stage::AwaitPush => {
                *self = Session { cascade: self.cascade, stage: Stage::Idle, frame: self.frame };
                Action::Pull
            },
            _ => Action::OutOfTurn,
        }
    }
}

/// Every step leads from a well-formed session to a well-formed session.
pub proof fn lemma_steps_preserve_wf(
    s: SessionView,
    pulled: Pulled,
    report: TrackerReport,
    dets: Seq<Detection>,
    started: bool,
)
    requires
        s.wf(),
    ensures
        SessionView::initial(s.cascade.thresholds).wf(),
        s.on_pull(pulled).0.wf(),
        s.on_primary(report).0.wf(),
        s.on_secondary(report).0.wf(),
        s.on_detections(dets).0.wf(),
        s.on_tracker_started(started).0.wf(),
        s.on_pushed().0.wf(),
{
}

/// One frame is in flight at a time: a frame is taken in only while the
/// session is idle, the session becomes idle only through a push, and no
/// other step changes the number of the frame in flight.
pub proof fn lemma_one_frame_in_flight(
    s: SessionView,
    pulled: Pulled,
    report: TrackerReport,
    dets: Seq<Detection>,
    started: bool,
)
    requires
        s.wf(),
    ensures
        s.stage != Stage::Idle ==> s.on_pull(pulled) == (s, Action::OutOfTurn),
        s.on_pull(pulled).0.frame != s.frame ==> s.stage == Stage::Idle && pulled == Pulled::Frame,
        s.on_primary(report).0.frame == s.frame,
        s.on_secondary(report).0.frame == s.frame,
        s.on_detections(dets).0.frame == s.frame,
        s.on_tracker_started(started).0.frame == s.frame,
        s.on_pushed().0.frame == s.frame,
        s.stage != Stage::Idle ==> {
            &&& s.on_primary(report).0.stage != Stage::Idle
            &&& s.on_secondary(report).0.stage != Stage::Idle
            &&& s.on_detections(dets).0.stage != Stage::Idle
            &&& s.on_tracker_started(started).0.stage != Stage::Idle
        },
        s.on_pushed().1 == Action::Pull <==> s.stage == Stage::AwaitPush,
{
}

/// When the primary tracker is not trusted, the secondary tracker is
/// seeded with the last trusted box and the frame it was seen in, which is
/// never the frame in flight, and that observation stays in place.
pub proof fn lemma_secondary_seeded_from_earlier_frame(s: SessionView, report: TrackerReport)
    requires
        s.wf(),
        s.stage == Stage::AwaitPrimary,
        report.accepted_by(s.cascade.thresholds.primary) is None,
    ensures
        ({
            let (after, action) = s.on_primary(report);
            &&& action matches Action::RunSecondary { seed, construct, frame }
            &&& Some(seed) == s.cascade.last_good
            &&& frame == s.frame
            &&& seed.frame != s.frame
            &&& construct == !s.cascade.secondary_built
            &&& after.cascade.last_good == s.cascade.last_good
            &&& after.stage == Stage::AwaitSecondary
        }),
{
}

/// When the secondary tracker is not trusted either, the track is lost,
/// nothing is left of the last trusted observation, and the detector
/// searches the same frame. Whatever it finds, the first detection is
/// chosen: no prior box biases the choice.
pub proof fn lemma_lost_track_reacquires_without_prior(
    s: SessionView,
    report: TrackerReport,
    dets: Seq<Detection>,
)
    requires
        s.wf(),
        s.stage == Stage::AwaitSecondary,
        report.accepted_by(s.cascade.thresholds.secondary) is None,
    ensures
        ({
            let (lost, action) = s.on_secondary(report);
            &&& action == Action::Detect { frame: s.frame }
            &&& lost.cascade.state == TrackState::Lost
            &&& lost.cascade.last_good is None
            &&& lost.cascade.prior_box() is None
            &&& dets.len() > 0 ==> lost.on_detections(dets).1 == Action::StartTracker {
                bbox: dets[0].bbox,
                frame: s.frame,
            }
            &&& dets.len() == 0 ==> lost.on_detections(dets).1 == Action::Forward {
                overlay: None,
                retain: false,
                frame: s.frame,
            }
        }),
{
}

/// A tracker that was started on a detection holds a fresh track: the
/// state is `Tracking`, and the detection's box with the frame in flight is
/// the last trusted observation.
pub proof fn lemma_started_tracker_holds_fresh_track(s: SessionView, candidate: Rect)
    requires
        s.wf(),
        s.stage == (Stage::AwaitStart { candidate }),
    ensures
        ({
            let (after, action) = s.on_tracker_started(true);
            &&& action == Action::Forward { overlay: None, retain: true, frame: s.frame }
            &&& after.cascade.state == TrackState::Tracking
            &&& after.cascade.last_good == Some(Observation { bbox: candidate, frame: s.frame })
        }),
        s.on_tracker_started(false).0.cascade == s.cascade,
{
}

/// The action `action` is what a session in stage `stage`, with frame
/// `frame` in flight, waits to hear of.
pub open spec fn action_fits_stage(action: Action, stage: Stage, frame: u64) -> bool {
    match action {
        Action::Pull => stage == Stage::Idle,
        Action::RunPrimary { frame: f } => stage == Stage::AwaitPrimary && f == frame,
        Action::RunSecondary { frame: f, .. } => stage == Stage::AwaitSecondary && f == frame,
        Action::Detect { frame: f } => stage == Stage::AwaitDetections && f == frame,
        Action::StartTracker { bbox, frame: f } => stage == (Stage::AwaitStart { candidate: bbox })
            && f == frame,
        Action::Forward { frame: f, .. } => stage == Stage::AwaitPush && f == frame,
        Action::OutOfTurn => false,
    }
}

/// The number of reports that a session in stage `stage` may still need
/// before the frame in flight has been pushed.
pub open spec fn reports_left(stage: Stage) -> nat {
    match stage {
        Stage::Idle => 0,
        Stage::AwaitPush => 1,
        Stage::AwaitStart { .. } => 2,
        Stage::AwaitDetections => 3,
        Stage::AwaitSecondary => 4,
        Stage::AwaitPrimary => 5,
    }
}

/// Whatever is reported in turn is taken, and the action that is named is
/// the one that the session then waits to hear of: a caller that performs
/// each action and reports its outcome is never out of turn.
pub proof fn lemma_in_turn_is_taken(
    s: SessionView,
    pulled: Pulled,
    report: TrackerReport,
    dets: Seq<Detection>,
    started: bool,
)
    requires
        s.wf(),
    ensures
        s.stage == Stage::Idle ==> action_fits_stage(
            s.on_pull(pulled).1,
            s.on_pull(pulled).0.stage,
            s.on_pull(pulled).0.frame,
        ),
        s.stage == Stage::AwaitPrimary ==> action_fits_stage(
            s.on_primary(report).1,
            s.on_primary(report).0.stage,
            s.frame,
        ),
        s.stage == Stage::AwaitSecondary ==> action_fits_stage(
            s.on_secondary(report).1,
            s.on_secondary(report).0.stage,
            s.frame,
        ),
        s.stage == Stage::AwaitDetections ==> action_fits_stage(
            s.on_detections(dets).1,
            s.on_detections(dets).0.stage,
            s.frame,
        ),
        s.stage is AwaitStart ==> action_fits_stage(
            s.on_tracker_started(started).1,
            s.on_tracker_started(started).0.stage,
            s.frame,
        ),
        s.stage == Stage::AwaitPush ==> action_fits_stage(
            s.on_pushed().1,
            s.on_pushed().0.stage,
            s.frame,
        ),
{
}

/// Every report in turn brings the frame in flight nearer to its push: a
/// frame that was taken in is pushed after five reports at most, and
/// only then is the next frame asked for.
pub proof fn lemma_frame_is_pushed(
    s: SessionView,
    report: TrackerReport,
    dets: Seq<Detection>,
    started: bool,
)
    requires
        s.wf(),
    ensures
        s.stage == Stage::AwaitPrimary ==> reports_left(s.on_primary(report).0.stage)
            < reports_left(s.stage),
        s.stage == Stage::AwaitSecondary ==> reports_left(s.on_secondary(report).0.stage)
            < reports_left(s.stage),
        s.stage == Stage::AwaitDetections ==> reports_left(s.on_detections(dets).0.stage)
            < reports_left(s.stage),
        s.stage is AwaitStart ==> reports_left(s.on_tracker_started(started).0.stage)
            < reports_left(s.stage),
        s.stage == Stage::AwaitPush ==> s.on_pushed() == (
            SessionView { stage: Stage::Idle, ..s },
            Action::Pull,
        ),
        s.stage != Stage::Idle && s.stage != Stage::AwaitPush ==> {
            &&& s.on_primary(report).1 != Action::Pull
            &&& s.on_secondary(report).1 != Action::Pull
            &&& s.on_detections(dets).1 != Action::Pull
            &&& s.on_tracker_started(started).1 != Action::Pull
        },
{
}

} // verus!
