//! From the rows that a detector puts out to detections.
//!
//! Each row proposes a box and scores it for every class. A row becomes a
//! detection of its best class if that class is scored high enough. The
//! order of the rows is the order of the detections.

use vstd::prelude::*;
use crate::confidence::Confidence;
use crate::geometry::Rect;
use crate::reacquire::Detection;

verus! {

/// The least confidence, in parts per million, with which a row is kept.
pub const DETECTION_FLOOR_PPM: u32 = 500_000;

/// One row of a detector's output: a box in the pixels of the frame, and
/// the score of each class for it, class 0 first.
#[derive(Debug)]
pub struct Candidate {
    pub bbox: Rect,
    pub scores: Vec<Confidence>,
}

/// Class `k` has the greatest score, and every class before it a smaller
/// one.
pub open spec fn is_best_class(scores: Seq<Confidence>, k: int) -> bool {
    &&& 0 <= k < scores.len()
    &&& forall|j: int| 0 <= j < scores.len() ==> (#[trigger] scores[j]).level() <= scores[k].level()
    &&& forall|j: int| 0 <= j < k ==> (#[trigger] scores[j]).level() < scores[k].level()
}

/// Class `k` is the best class and its score reaches `floor`.
pub open spec fn is_kept_class(scores: Seq<Confidence>, floor: Confidence, k: int) -> bool {
    is_best_class(scores, k) && scores[k].level() >= floor.level()
}

/// The detection that a row stands for: its box with its best class and
/// that class's score, if that score reaches `floor`.
pub open spec fn classify_spec(bbox: Rect, scores: Seq<Confidence>, floor: Confidence) -> Option<
    Detection,
> {
    if exists|k: int| is_kept_class(scores, floor, k) {
        let k = choose|k: int| is_kept_class(scores, floor, k);
        Some(Detection { bbox, class_id: k as usize, confidence: scores[k] })
    } else {
        None
    }
}

/// The detections of `rows`, in the order of the rows.
pub open spec fn detections_spec(rows: Seq<Candidate>, floor: Confidence) -> Seq<Detection>
    decreases rows.len(),
{
    if rows.len() == 0 {
        Seq::empty()
    } else {
        let earlier = detections_spec(rows.drop_last(), floor);
        match classify_spec(rows.last().bbox, rows.last().scores@, floor) {
            Some(d) => earlier.push(d),
            None => earlier,
        }
    }
}

/// At most one class is the best.
pub proof fn lemma_best_class_unique(scores: Seq<Confidence>, k1: int, k2: int)
    requires
        is_best_class(scores, k1),
        is_best_class(scores, k2),
    ensures
        k1 == k2,
{
    if k1 < k2 {
        assert(scores[k1].level() < scores[k2].level());
        assert(scores[k2].level() <= scores[k1].level());
    }
    if k2 < k1 {
        assert(scores[k2].level() < scores[k1].level());
        assert(scores[k1].level() <= scores[k2].level());
    }
}

/// The class with the greatest score, the first of them where several
/// share it; `None` where there is no class.
pub fn best_class(scores: &Vec<Confidence>) -> (best: Option<usize>)
    ensures
        best is None <==> scores.len() == 0,
        best matches Some(k) ==> is_best_class(scores@, k as int),
{
    if scores.len() == 0 {
        return None;
    }
    let mut k: usize = 0;
    let mut i: usize = 1;
    while i < scores.len()
        invariant
            0 <= k < i <= scores.len(),
            forall|j: int| 0 <= j < i ==> (#[trigger] scores[j]).level() <= scores[k as int].level(),
            forall|j: int| 0 <= j < k ==> (#[trigger] scores[j]).level() < scores[k as int].level(),
        decreases scores.len() - i,
    {
        if !scores[k].meets(scores[i]) {
            k = i;
        }
        i = i + 1;
    }
    Some(k)
}

/// Turns one row into a detection: the box of the row with its best class
/// and that class's score, or nothing where the row has no class or its
/// best score is below `floor`.
pub fn classify(bbox: Rect, scores: &Vec<Confidence>, floor: Confidence) -> (found: Option<
    Detection,
>)
    ensures
        found == classify_spec(bbox, scores@, floor),
        found matches Some(d) ==> {
            &&& d.bbox == bbox
            &&& is_best_class(scores@, d.class_id as int)
            &&& d.confidence == scores[d.class_id as int]
            &&& d.confidence.level() >= floor.level()
        },
        found is None <==> (forall|j: int|
            0 <= j < scores.len() ==> (#[trigger] scores[j]).level() < floor.level()),
{
    match best_class(scores) {
        None => {
            assert(forall|k: int| !is_kept_class(scores@, floor, k));
            None
        },
        Some(k) => {
            let confidence: Confidence = scores[k];
            if confidence.meets(floor) {
                proof {
                    let chosen = choose|c: int| is_kept_class(scores@, floor, c);
                    assert(is_kept_class(scores@, floor, k as int));
                    lemma_best_class_unique(scores@, k as int, chosen);
                }
                Some(Detection { bbox, class_id: k, confidence })
            } else {
                proof {
                    assert forall|c: int| !is_kept_class(scores@, floor, c) by {
                        if is_best_class(scores@, c) {
                            lemma_best_class_unique(scores@, k as int, c);
                        }
                    }
                }
                None
            }
        },
    }
}

/// Turns the rows of a detector into detections, keeping their order and
/// leaving out the rows whose best class is scored below `floor`.
pub fn detections_from_rows(rows: &Vec<Candidate>, floor: Confidence) -> (found: Vec<Detection>)
    ensures
        found@ == detections_spec(rows@, floor),
        found.len() <= rows.len(),
{
    let mut found: Vec<Detection> = Vec::new();
    let mut i: usize = 0;
    while i < rows.len()
        invariant
            0 <= i <= rows.len(),
            found@ == detections_spec(rows@.subrange(0, i as int), floor),
            found.len() <= i,
        decreases rows.len() - i,
    {
        proof {
            let next = rows@.subrange(0, i + 1);
            assert(next.drop_last() == rows@.subrange(0, i as int));
            assert(next.last() == rows[i as int]);
        }
        let row: &Candidate = &rows[i];
        match classify(row.bbox, &row.scores, floor) {
            Some(d) => {
                found.push(d);
            },
            None => {},
        }
        i = i + 1;
    }
    proof {
        assert(rows@.subrange(0, i as int) == rows@);
    }
    found
}

} // verus!
