//! Reacquisition: choosing, among the boxes that a detector found, the one
//! to restart tracking from.
//!
//! With a prior box to go by, the detection that overlaps it most is
//! chosen. Without one, or where nothing overlaps it, the detector's first
//! detection is chosen, whatever its confidence.

use vstd::prelude::*;
use crate::confidence::Confidence;
use crate::geometry::{iou, iou_den, iou_num, lemma_iou_is_fraction, Iou, Rect};

verus! {

/// One object found by a detector.
#[derive(Clone, Copy, Debug, PartialEq, Eq, Structural)]
pub struct Detection {
    /// Where the object is, in the pixels of the frame that was searched.
    pub bbox: Rect,
    /// The class that the detector assigned.
    pub class_id: usize,
    /// How sure the detector is.
    pub confidence: Confidence,
}

/// `a` overlaps `prior` by a strictly greater ratio than `b` does.
pub open spec fn overlaps_more(prior: Rect, a: Rect, b: Rect) -> bool {
    iou_num(prior, a) * iou_den(prior, b) > iou_num(prior, b) * iou_den(prior, a)
}

/// Detection `k` overlaps `prior`, no detection overlaps it more, and every
/// earlier detection overlaps it less.
pub open spec fn is_best_match(prior: Rect, dets: Seq<Detection>, k: int) -> bool {
    &&& 0 <= k < dets.len()
    &&& iou_num(prior, dets[k].bbox) > 0
    &&& forall|j: int| 0 <= j < k ==> overlaps_more(prior, dets[k].bbox, #[trigger] dets[j].bbox)
    &&& forall|j: int|
        k < j < dets.len() ==> !overlaps_more(prior, #[trigger] dets[j].bbox, dets[k].bbox)
}

/// The index of the detection to restart from, if there is any detection.
pub open spec fn select_spec(prior: Option<Rect>, dets: Seq<Detection>) -> Option<int> {
    if dets.len() == 0 {
        None
    } else if prior is Some && exists|k: int| is_best_match(prior->0, dets, k) {
        Some(choose|k: int| is_best_match(prior->0, dets, k))
    } else {
        Some(0)
    }
}

/// Overlap ratios are ordered like the rationals: what is greater than
/// something that is no less than a third is greater than the third.
proof fn lemma_ratio_order(n1: int, d1: int, n2: int, d2: int, n3: int, d3: int)
    requires
        0 <= n1 && 0 < d1,
        0 <= n2 && 0 < d2,
        0 <= n3 && 0 < d3,
        n1 * d2 > n2 * d1,
        n2 * d3 >= n3 * d2,
    ensures
        n1 * d3 > n3 * d1,
{
    assert(n1 * d2 * d3 > n2 * d1 * d3) by (nonlinear_arith)
        requires
            n1 * d2 > n2 * d1,
            0 < d3,
    ;
    assert(n2 * d3 * d1 >= n3 * d2 * d1) by (nonlinear_arith)
        requires
            n2 * d3 >= n3 * d2,
            0 < d1,
    ;
    assert(n1 * d2 * d3 == (n1 * d3) * d2 && n2 * d1 * d3 == n2 * d3 * d1 && n3 * d2 * d1 == (n3
        * d1) * d2) by (nonlinear_arith);
    assert(n1 * d3 > n3 * d1) by (nonlinear_arith)
        requires
            (n1 * d3) * d2 > (n3 * d1) * d2,
            0 < d2,
    ;
}

/// If `a` overlaps `prior` more than `b`, and `c` no more than `b`, then
/// `a` overlaps `prior` more than `c`.
proof fn lemma_overlaps_more_chain(prior: Rect, a: Rect, b: Rect, c: Rect)
    requires
        overlaps_more(prior, a, b),
        !overlaps_more(prior, c, b),
    ensures
        overlaps_more(prior, a, c),
{
    lemma_iou_is_fraction(prior, a);
    lemma_iou_is_fraction(prior, b);
    lemma_iou_is_fraction(prior, c);
    lemma_ratio_order(
        iou_num(prior, a),
        iou_den(prior, a),
        iou_num(prior, b),
        iou_den(prior, b),
        iou_num(prior, c),
        iou_den(prior, c),
    );
}

/// What overlaps `prior` more than something else overlaps it.
proof fn lemma_overlaps_more_positive(prior: Rect, a: Rect, b: Rect)
    requires
        overlaps_more(prior, a, b),
    ensures
        iou_num(prior, a) > 0,
{
    lemma_iou_is_fraction(prior, a);
    lemma_iou_is_fraction(prior, b);
    let na = iou_num(prior, a);
    let da = iou_den(prior, a);
    let nb = iou_num(prior, b);
    let db = iou_den(prior, b);
    assert(na > 0) by (nonlinear_arith)
        requires
            na * db > nb * da,
            0 <= na,
            0 < db,
            0 <= nb,
            0 < da,
    ;
}

/// What overlaps `prior` overlaps it more than what does not.
proof fn lemma_overlap_beats_none(prior: Rect, a: Rect, b: Rect)
    requires
        iou_num(prior, a) > 0,
        iou_num(prior, b) == 0,
    ensures
        overlaps_more(prior, a, b),
{
    lemma_iou_is_fraction(prior, a);
    lemma_iou_is_fraction(prior, b);
    let na = iou_num(prior, a);
    let da = iou_den(prior, a);
    let nb = iou_num(prior, b);
    let db = iou_den(prior, b);
    assert(na * db > nb * da) by (nonlinear_arith)
        requires
            na > 0,
            db > 0,
            nb == 0,
    ;
}

/// The best match among some detections, or the detection that is added
/// to them if it overlaps `prior` more, is the best match among all.
proof fn lemma_best_match_step(prior: Rect, seen: Seq<Detection>, cand: Detection, k: int)
    requires
        is_best_match(prior, seen, k),
    ensures
        is_best_match(
            prior,
            seen.push(cand),
            if overlaps_more(prior, cand.bbox, seen[k].bbox) {
                seen.len() as int
            } else {
                k
            },
        ),
{
    let next = seen.push(cand);
    let n = seen.len() as int;
    assert(next[n] == cand);
    assert(forall|j: int| 0 <= j < n ==> next[j] == seen[j]);
    if overlaps_more(prior, cand.bbox, seen[k].bbox) {
        lemma_overlaps_more_positive(prior, cand.bbox, seen[k].bbox);
        assert forall|j: int| 0 <= j < n implies overlaps_more(
            prior,
            next[n].bbox,
            #[trigger] next[j].bbox,
        ) by {
            if j < k {
                assert(overlaps_more(prior, seen[k].bbox, seen[j].bbox));
                assert(!overlaps_more(prior, seen[j].bbox, seen[k].bbox));
            } else if j > k {
                assert(!overlaps_more(prior, seen[j].bbox, seen[k].bbox));
            }
            if j != k {
                lemma_overlaps_more_chain(prior, cand.bbox, seen[k].bbox, seen[j].bbox);
            }
        }
        assert(is_best_match(prior, next, n));
    } else {
        assert forall|j: int| 0 <= j < k implies overlaps_more(
            prior,
            next[k].bbox,
            #[trigger] next[j].bbox,
        ) by {
            assert(overlaps_more(prior, seen[k].bbox, seen[j].bbox));
        }
        assert forall|j: int| k < j < next.len() implies !overlaps_more(
            prior,
            #[trigger] next[j].bbox,
            next[k].bbox,
        ) by {
            if j < n {
                assert(!overlaps_more(prior, seen[j].bbox, seen[k].bbox));
            }
        }
        assert(is_best_match(prior, next, k));
    }
}

/// The first detection that overlaps `prior` is the best match among the
/// detections up to it.
proof fn lemma_first_match_step(prior: Rect, seen: Seq<Detection>, cand: Detection)
    requires
        forall|j: int| 0 <= j < seen.len() ==> iou_num(prior, #[trigger] seen[j].bbox) == 0,
        iou_num(prior, cand.bbox) > 0,
    ensures
        is_best_match(prior, seen.push(cand), seen.len() as int),
{
    let next = seen.push(cand);
    let n = seen.len() as int;
    assert(next[n] == cand);
    assert forall|j: int| 0 <= j < n implies overlaps_more(
        prior,
        next[n].bbox,
        #[trigger] next[j].bbox,
    ) by {
        assert(next[j] == seen[j]);
        assert(iou_num(prior, seen[j].bbox) == 0);
        lemma_overlap_beats_none(prior, cand.bbox, seen[j].bbox);
    }
}

/// At most one detection is the best match.
pub proof fn lemma_best_match_unique(prior: Rect, dets: Seq<Detection>, k1: int, k2: int)
    requires
        is_best_match(prior, dets, k1),
        is_best_match(prior, dets, k2),
    ensures
        k1 == k2,
{
    if k1 < k2 {
        assert(overlaps_more(prior, dets[k2].bbox, dets[k1].bbox));
        assert(!overlaps_more(prior, dets[k2].bbox, dets[k1].bbox));
    }
    if k2 < k1 {
        assert(overlaps_more(prior, dets[k1].bbox, dets[k2].bbox));
        assert(!overlaps_more(prior, dets[k1].bbox, dets[k2].bbox));
    }
}

/// The best match for `prior` among `detections`, or `None` where no
/// detection overlaps `prior`.
fn best_overlap(prior: &Rect, detections: &Vec<Detection>) -> (best: Option<usize>)
    ensures
        match best {
            Some(k) => is_best_match(*prior, detections@, k as int),
            None => forall|j: int|
                0 <= j < detections.len() ==> iou_num(*prior, #[trigger] detections[j].bbox) == 0,
        },
{
    let mut best: Option<(usize, Iou)> = None;
    let mut i: usize = 0;
    while i < detections.len()
        invariant
            0 <= i <= detections.len(),
            match best {
                Some((k, ratio)) => {
                    &&& is_best_match(*prior, detections@.subrange(0, i as int), k as int)
                    &&& ratio.num == iou_num(*prior, detections[k as int].bbox)
                    &&& ratio.den == iou_den(*prior, detections[k as int].bbox)
                },
                None => forall|j: int|
                    0 <= j < i ==> iou_num(*prior, #[trigger] detections[j].bbox) == 0,
            },
        decreases detections.len() - i,
    {
        let ghost seen = detections@.subrange(0, i as int);
        let candidate: Iou = iou(prior, &detections[i].bbox);
        proof {
            assert(detections@.subrange(0, i + 1) == seen.push(detections[i as int]));
            assert(forall|j: int| 0 <= j < i ==> seen[j] == detections[j]);
        }
        match best {
            None => {
                if !candidate.is_zero() {
                    proof {
                        lemma_first_match_step(*prior, seen, detections[i as int]);
                    }
                    best = Some((i, candidate));
                }
            },
            Some((k, ratio)) => {
                proof {
                    assert(seen[k as int] == detections[k as int]);
                    lemma_best_match_step(*prior, seen, detections[i as int], k as int);
                }
                if candidate.exceeds(&ratio) {
                    best = Some((i, candidate));
                }
            },
        }
        i = i + 1;
    }
    proof {
        assert(detections@.subrange(0, i as int) == detections@);
    }
    match best {
        Some((k, _)) => Some(k),
        None => None,
    }
}

/// Chooses the detection to restart tracking from and returns its index.
///
/// Nothing is chosen where there is no detection. With a prior box, the
/// detection that overlaps it with the greatest ratio is chosen, the
/// earliest where several share that ratio. Where no detection overlaps the
/// prior box, or there is no prior box, the first detection is chosen.
pub fn select_candidate(prior: Option<Rect>, detections: &Vec<Detection>) -> (choice: Option<
    usize,
>)
    ensures
        choice is None <==> detections.len() == 0,
        match choice {
            Some(k) => select_spec(prior, detections@) == Some(k as int) && k < detections.len(),
            None => select_spec(prior, detections@) is None,
        },
{
    if detections.len() == 0 {
        return None;
    }
    match prior {
        Some(p) => {
            match best_overlap(&p, detections) {
                Some(k) => {
                    proof {
                        let chosen = choose|c: int| is_best_match(p, detections@, c);
                        lemma_best_match_unique(p, detections@, k as int, chosen);
                    }
                    Some(k)
                },
                None => {
                    assert(forall|c: int| !is_best_match(p, detections@, c));
                    Some(0)
                },
            }
        },
        None => Some(0),
    }
}

/// Without a prior box the first detection is chosen.
pub proof fn lemma_select_without_prior(dets: Seq<Detection>)
    requires
        dets.len() > 0,
    ensures
        select_spec(None, dets) == Some(0int),
{
}

/// The chosen detection exists, and one is chosen wherever there is a
/// detection.
pub proof fn lemma_select_in_range(prior: Option<Rect>, dets: Seq<Detection>)
    ensures
        select_spec(prior, dets) matches Some(k) ==> 0 <= k < dets.len(),
        select_spec(prior, dets) is None <==> dets.len() == 0,
{
}

/// With a prior box that some detection overlaps, the chosen detection is
/// the best match; with one that no detection overlaps, it is the first.
pub proof fn lemma_select_with_prior(prior: Rect, dets: Seq<Detection>)
    requires
        dets.len() > 0,
    ensures
        select_spec(Some(prior), dets) matches Some(k) && if exists|j: int|
            0 <= j < dets.len() && iou_num(prior, #[trigger] dets[j].bbox) > 0 {
            is_best_match(prior, dets, k)
        } else {
            k == 0
        },
{
    if exists|j: int| 0 <= j < dets.len() && iou_num(prior, #[trigger] dets[j].bbox) > 0 {
        lemma_best_match_exists(prior, dets, dets.len() as int);
        assert(dets.subrange(0, dets.len() as int) == dets);
        let witness = choose|k: int| is_best_match(prior, dets, k);
        assert(is_best_match(Some(prior)->0, dets, witness));
    } else {
        assert(forall|c: int| !is_best_match(prior, dets, c));
    }
}

/// Among the first `n` detections, if one overlaps `prior`, one is the
/// best match.
proof fn lemma_best_match_exists(prior: Rect, dets: Seq<Detection>, n: int)
    requires
        0 <= n <= dets.len(),
    ensures
        (exists|j: int| 0 <= j < n && iou_num(prior, #[trigger] dets[j].bbox) > 0) ==> exists|
            k: int,
        | is_best_match(prior, dets.subrange(0, n), k),
    decreases n,
{
    if n > 0 && exists|j: int| 0 <= j < n && iou_num(prior, #[trigger] dets[j].bbox) > 0 {
        let seen = dets.subrange(0, n - 1);
        let cand = dets[n - 1];
        assert(dets.subrange(0, n) == seen.push(cand));
        assert(forall|j: int| 0 <= j < n - 1 ==> seen[j] == dets[j]);
        lemma_best_match_exists(prior, dets, n - 1);
        if exists|j: int| 0 <= j < n - 1 && iou_num(prior, #[trigger] dets[j].bbox) > 0 {
            let k = choose|k: int| is_best_match(prior, seen, k);
            lemma_best_match_step(prior, seen, cand, k);
        } else {
            assert(iou_num(prior, cand.bbox) > 0);
            assert forall|j: int| 0 <= j < seen.len() implies iou_num(
                prior,
                #[trigger] seen[j].bbox,
            ) == 0 by {
                assert(seen[j].bbox == dets[j].bbox);
            }
            lemma_first_match_step(prior, seen, cand);
        }
    }
}

} // verus!
