//! Confidence values on a fixed-point scale, and the thresholds that a
//! pair of trackers is calibrated with.

use vstd::prelude::*;

verus! {

/// The value of `Confidence::ppm` that stands for certainty.
pub const FULL_SCALE: u32 = 1_000_000;

/// A confidence between zero and one, in parts per million.
#[derive(Clone, Copy, Debug, PartialEq, Eq, Structural)]
pub struct Confidence {
    ppm: u32,
}

impl Confidence {
    #[verifier::type_invariant]
    spec fn in_scale(self) -> bool {
        self.ppm <= FULL_SCALE
    }

    /// The confidence in parts per million.
    pub closed spec fn level(self) -> nat {
        self.ppm as nat
    }

    /// The confidence of `ppm` parts per million; more than a million
    /// parts count as certainty.
    pub fn from_ppm(ppm: u32) -> (c: Confidence)
        ensures
            c.level() == if ppm <= FULL_SCALE { ppm } else { FULL_SCALE },
    {
        if ppm <= FULL_SCALE {
            Confidence { ppm }
        } else {
            Confidence { ppm: FULL_SCALE }
        }
    }

    /// The confidence in parts per million, never more than a million.
    pub fn ppm(&self) -> (v: u32)
        ensures
            v == self.level(),
            v <= FULL_SCALE,
    {
        proof {
            use_type_invariant(self);
        }
        self.ppm
    }

    /// Tells whether this confidence reaches `threshold`.
    pub fn meets(&self, threshold: Confidence) -> (b: bool)
        ensures
            b == (self.level() >= threshold.level()),
    {
        self.ppm >= threshold.ppm
    }
}

/// The confidence from which each of the two trackers of a cascade is
/// trusted.
#[derive(Clone, Copy, Debug, PartialEq, Eq, Structural)]
pub struct Thresholds {
    /// The primary tracker's result is accepted from this confidence on.
    pub primary: Confidence,
    /// The secondary tracker's result is accepted from this confidence on.
    pub secondary: Confidence,
}

/// The pairs of trackers that thresholds have been calibrated for.
#[derive(Clone, Copy, Debug, PartialEq, Eq, Structural)]
pub enum TrackerPair {
    /// A Nano tracker backed by a DaSiamRPN tracker.
    NanoWithDaSiam,
    /// A quantised ViT tracker backed by the full ViT tracker.
    VitWithVit,
    /// A ViT tracker backed by a DaSiamRPN tracker.
    VitWithDaSiam,
}

impl TrackerPair {
    /// The calibrated thresholds of the pair, in parts per million, as
    /// `(primary, secondary)`.
    pub open spec fn calibration(self) -> (nat, nat) {
        match self {
            TrackerPair::NanoWithDaSiam => (870_000, 700_000),
            TrackerPair::VitWithVit => (450_000, 550_000),
            TrackerPair::VitWithDaSiam => (450_000, 500_000),
        }
    }

    /// The thresholds that the pair is calibrated with.
    pub fn thresholds(&self) -> (t: Thresholds)
        ensures
            t.primary.level() == self.calibration().0,
            t.secondary.level() == self.calibration().1,
    {
        match self {
            TrackerPair::NanoWithDaSiam => Thresholds {
                primary: Confidence::from_ppm(870_000),
                secondary: Confidence::from_ppm(700_000),
            },
            TrackerPair::VitWithVit => Thresholds {
                primary: Confidence::from_ppm(450_000),
                secondary: Confidence::from_ppm(550_000),
            },
            TrackerPair::VitWithDaSiam => Thresholds {
                primary: Confidence::from_ppm(450_000),
                secondary: Confidence::from_ppm(500_000),
            },
        }
    }
}

} // verus!
