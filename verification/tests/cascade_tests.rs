use tracklock::cascade::{Cascade, Observation, Step, TrackState, TrackerReport};
use tracklock::confidence::{Confidence, Thresholds, TrackerPair, FULL_SCALE};
use tracklock::geometry::Rect;

fn scored(bbox: Rect, ppm: u32) -> TrackerReport {
    TrackerReport::Scored { bbox, score: Confidence::from_ppm(ppm) }
}

fn tracking(start: Rect, frame: u64) -> Cascade {
    let mut c = Cascade::new(TrackerPair::VitWithVit.thresholds());
    c.acquire(start, frame);
    c
}

#[test]
fn confidence_is_capped_at_full_scale() {
    assert_eq!(FULL_SCALE, 1_000_000);
    assert_eq!(Confidence::from_ppm(0).ppm(), 0);
    assert_eq!(Confidence::from_ppm(450_000).ppm(), 450_000);
    assert_eq!(Confidence::from_ppm(1_000_000).ppm(), 1_000_000);
    assert_eq!(Confidence::from_ppm(1_000_001).ppm(), 1_000_000);
    assert_eq!(Confidence::from_ppm(u32::MAX).ppm(), 1_000_000);
}

#[test]
fn confidence_meets_a_threshold_from_equality_on() {
    let t = Confidence::from_ppm(450_000);
    assert!(Confidence::from_ppm(450_000).meets(t));
    assert!(Confidence::from_ppm(450_001).meets(t));
    assert!(!Confidence::from_ppm(449_999).meets(t));
}

#[test]
fn tracker_pairs_have_their_calibration() {
    let nano = TrackerPair::NanoWithDaSiam.thresholds();
    assert_eq!((nano.primary.ppm(), nano.secondary.ppm()), (870_000, 700_000));
    let vit = TrackerPair::VitWithVit.thresholds();
    assert_eq!((vit.primary.ppm(), vit.secondary.ppm()), (450_000, 550_000));
    let mixed = TrackerPair::VitWithDaSiam.thresholds();
    assert_eq!((mixed.primary.ppm(), mixed.secondary.ppm()), (450_000, 500_000));
}

#[test]
fn report_is_accepted_from_the_threshold_on() {
    let b = Rect::new(1, 2, 3, 4);
    let t = Confidence::from_ppm(550_000);
    assert_eq!(scored(b, 550_000).accepted(t), Some(b));
    assert_eq!(scored(b, 549_999).accepted(t), None);
    assert_eq!(TrackerReport::Failed.accepted(t), None);
    assert_eq!(TrackerReport::Failed.accepted(Confidence::from_ppm(0)), None);
}

#[test]
fn new_cascade_is_uninitialized() {
    let t = Thresholds { primary: Confidence::from_ppm(300_000), secondary: Confidence::from_ppm(600_000) };
    let c = Cascade::new(t);
    assert_eq!(c.state(), TrackState::Uninitialized);
    assert!(!c.is_active());
    assert_eq!(c.last_good(), None);
    assert_eq!(c.prior_box(), None);
    assert_eq!(c.thresholds(), t);
}

#[test]
fn update_without_a_track_reports_no_track() {
    let mut c = Cascade::new(TrackerPair::VitWithVit.thresholds());
    assert_eq!(c.update(1, scored(Rect::new(0, 0, 5, 5), 999_999)), Step::NoTrack);
    assert_eq!(c.state(), TrackState::Uninitialized);
    assert_eq!(c.fallback(1, scored(Rect::new(0, 0, 5, 5), 999_999)), None);
    assert_eq!(c.state(), TrackState::Uninitialized);
    assert_eq!(c.last_good(), None);
}

#[test]
fn acquire_starts_tracking() {
    let start = Rect::new(10, 10, 20, 20);
    let c = tracking(start, 7);
    assert_eq!(c.state(), TrackState::Tracking);
    assert!(c.is_active());
    assert_eq!(c.last_good(), Some(Observation { bbox: start, frame: 7 }));
    assert_eq!(c.prior_box(), Some(start));
}

#[test]
fn primary_at_threshold_is_accepted_and_recorded() {
    let mut c = tracking(Rect::new(10, 10, 20, 20), 7);
    let seen = Rect::new(12, 11, 20, 20);
    assert_eq!(c.update(8, scored(seen, 450_000)), Step::Track(seen));
    assert_eq!(c.state(), TrackState::Tracking);
    assert_eq!(c.last_good(), Some(Observation { bbox: seen, frame: 8 }));
}

#[test]
fn primary_below_threshold_seeds_secondary_from_previous_pair() {
    let start = Rect::new(10, 10, 20, 20);
    let mut c = tracking(start, 7);
    let good = Rect::new(12, 11, 20, 20);
    assert_eq!(c.update(8, scored(good, 900_000)), Step::Track(good));
    let drifted = Rect::new(60, 60, 20, 20);
    let step = c.update(9, scored(drifted, 449_999));
    assert_eq!(step, Step::Fallback { seed: Observation { bbox: good, frame: 8 }, construct: true });
    // The failing frame and its box are not recorded.
    assert_eq!(c.last_good(), Some(Observation { bbox: good, frame: 8 }));
    assert_eq!(c.state(), TrackState::Tracking);
}

#[test]
fn failed_primary_is_treated_as_low_score() {
    let start = Rect::new(10, 10, 20, 20);
    let mut c = tracking(start, 3);
    let step = c.update(4, TrackerReport::Failed);
    assert_eq!(step, Step::Fallback { seed: Observation { bbox: start, frame: 3 }, construct: true });
    assert_eq!(c.state(), TrackState::Tracking);
}

#[test]
fn secondary_at_threshold_degrades_the_track() {
    let start = Rect::new(10, 10, 20, 20);
    let mut c = tracking(start, 3);
    assert!(matches!(c.update(4, scored(start, 100_000)), Step::Fallback { .. }));
    let recovered = Rect::new(15, 15, 20, 20);
    assert_eq!(c.fallback(4, scored(recovered, 550_000)), Some(recovered));
    assert_eq!(c.state(), TrackState::TrackingDegraded);
    assert_eq!(c.last_good(), Some(Observation { bbox: recovered, frame: 4 }));
    assert_eq!(c.prior_box(), Some(recovered));
}

#[test]
fn secondary_is_constructed_once_per_track() {
    let start = Rect::new(10, 10, 20, 20);
    let mut c = tracking(start, 3);
    assert_eq!(
        c.update(4, scored(start, 0)),
        Step::Fallback { seed: Observation { bbox: start, frame: 3 }, construct: true }
    );
    let recovered = Rect::new(15, 15, 20, 20);
    assert_eq!(c.fallback(4, scored(recovered, 700_000)), Some(recovered));
    assert_eq!(
        c.update(5, scored(start, 0)),
        Step::Fallback { seed: Observation { bbox: recovered, frame: 4 }, construct: false }
    );
    // A fresh track has no secondary tracker yet.
    c.acquire(start, 9);
    assert_eq!(
        c.update(10, TrackerReport::Failed),
        Step::Fallback { seed: Observation { bbox: start, frame: 9 }, construct: true }
    );
}

#[test]
fn degraded_track_returns_to_tracking() {
    let start = Rect::new(10, 10, 20, 20);
    let mut c = tracking(start, 3);
    assert!(matches!(c.update(4, TrackerReport::Failed), Step::Fallback { .. }));
    assert_eq!(c.fallback(4, scored(start, 999_000)), Some(start));
    assert_eq!(c.state(), TrackState::TrackingDegraded);
    let again = Rect::new(11, 10, 20, 20);
    assert_eq!(c.update(5, scored(again, 450_000)), Step::Track(again));
    assert_eq!(c.state(), TrackState::Tracking);
    assert_eq!(c.last_good(), Some(Observation { bbox: again, frame: 5 }));
}

#[test]
fn both_below_threshold_loses_the_track_and_clears_the_pair() {
    let start = Rect::new(10, 10, 20, 20);
    let mut c = tracking(start, 3);
    assert!(matches!(c.update(4, scored(start, 449_999)), Step::Fallback { .. }));
    assert_eq!(c.fallback(4, scored(start, 549_999)), None);
    assert_eq!(c.state(), TrackState::Lost);
    assert!(!c.is_active());
    assert_eq!(c.last_good(), None);
    assert_eq!(c.prior_box(), None);
    // A lost track does not recover by itself.
    assert_eq!(c.update(5, scored(start, 1_000_000)), Step::NoTrack);
    assert_eq!(c.state(), TrackState::Lost);
}

#[test]
fn failed_secondary_loses_the_track() {
    let start = Rect::new(10, 10, 20, 20);
    let mut c = tracking(start, 3);
    assert!(matches!(c.update(4, TrackerReport::Failed), Step::Fallback { .. }));
    assert_eq!(c.fallback(4, TrackerReport::Failed), None);
    assert_eq!(c.state(), TrackState::Lost);
    assert_eq!(c.last_good(), None);
}

#[test]
fn lost_track_is_replaced_by_a_fresh_one() {
    let start = Rect::new(10, 10, 20, 20);
    let mut c = tracking(start, 3);
    assert!(matches!(c.update(4, TrackerReport::Failed), Step::Fallback { .. }));
    assert_eq!(c.fallback(4, TrackerReport::Failed), None);
    let found = Rect::new(70, 70, 9, 9);
    c.acquire(found, 5);
    assert_eq!(c.state(), TrackState::Tracking);
    assert_eq!(c.last_good(), Some(Observation { bbox: found, frame: 5 }));
}

#[test]
fn thresholds_differ_by_pair() {
    let start = Rect::new(10, 10, 20, 20);
    let mut nano = Cascade::new(TrackerPair::NanoWithDaSiam.thresholds());
    nano.acquire(start, 1);
    assert!(matches!(nano.update(2, scored(start, 869_999)), Step::Fallback { .. }));
    assert_eq!(nano.fallback(2, scored(start, 700_000)), Some(start));
    assert_eq!(nano.update(3, scored(start, 870_000)), Step::Track(start));
    let mut vit = Cascade::new(TrackerPair::VitWithDaSiam.thresholds());
    vit.acquire(start, 1);
    assert_eq!(vit.update(2, scored(start, 450_000)), Step::Track(start));
    assert!(matches!(vit.update(3, scored(start, 449_999)), Step::Fallback { .. }));
    assert_eq!(vit.fallback(3, scored(start, 499_999)), None);
    assert_eq!(vit.state(), TrackState::Lost);
}
