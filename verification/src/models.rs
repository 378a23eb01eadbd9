//! The model files that the trackers and the detector are built from.
//!
//! The thresholds of a tracker pair are calibrated for the models named
//! here. The files are looked up in a directory that the caller chooses.

use vstd::prelude::*;
use crate::confidence::TrackerPair;

verus! {

/// The model file of the detector.
pub const DETECTOR_MODEL: &'static str = "yolov8n.onnx";

/// The side, in pixels, of the square that the detector takes as input.
pub const DETECTOR_INPUT_SIDE: i32 = 640;

/// The model files of one tracker.
#[derive(Clone, Copy, Debug, PartialEq, Eq)]
pub enum TrackerModel {
    /// A Nano tracker: its backbone and its neck and head.
    Nano { backbone: &'static str, neckhead: &'static str },
    /// A ViT tracker: its one network.
    Vit { net: &'static str },
    /// A DaSiamRPN tracker: its network and its two kernels.
    DaSiamRpn { model: &'static str, kernel_cls1: &'static str, kernel_r1: &'static str },
}

/// The Nano tracker's files.
pub open spec fn nano_model() -> TrackerModel {
    TrackerModel::Nano {
        backbone: "nanotrack_backbone_sim.onnx",
        neckhead: "nanotrack_head_sim.onnx",
    }
}

/// The quantised ViT tracker's file.
pub open spec fn vit_quantised_model() -> TrackerModel {
    TrackerModel::Vit { net: "object_tracking_vittrack_2023sep_int8bq.onnx" }
}

/// The full ViT tracker's file.
pub open spec fn vit_model() -> TrackerModel {
    TrackerModel::Vit { net: "object_tracking_vittrack_2023sep.onnx" }
}

/// The DaSiamRPN tracker's files.
pub open spec fn dasiam_model() -> TrackerModel {
    TrackerModel::DaSiamRpn {
        model: "dasiamrpn_model.onnx",
        kernel_cls1: "dasiamrpn_kernel_cls1.onnx",
        kernel_r1: "dasiamrpn_kernel_r1.onnx",
    }
}

impl TrackerPair {
    /// The files of the pair's primary tracker.
    pub open spec fn primary_model_spec(self) -> TrackerModel {
        match self {
            TrackerPair::NanoWithDaSiam => nano_model(),
            TrackerPair::VitWithVit => vit_quantised_model(),
            TrackerPair::VitWithDaSiam => vit_model(),
        }
    }

    /// The files of the pair's secondary tracker.
    pub open spec fn secondary_model_spec(self) -> TrackerModel {
        match self {
            TrackerPair::NanoWithDaSiam => dasiam_model(),
            TrackerPair::VitWithVit => vit_model(),
            TrackerPair::VitWithDaSiam => dasiam_model(),
        }
    }

    /// The files that the pair's primary tracker is built from.
    pub fn primary_model(&self) -> (m: TrackerModel)
        ensures
            m == self.primary_model_spec(),
    {
        match self {
            TrackerPair::NanoWithDaSiam => TrackerModel::Nano {
                backbone: "nanotrack_backbone_sim.onnx",
                neckhead: "nanotrack_head_sim.onnx",
            },
            TrackerPair::VitWithVit => TrackerModel::Vit {
                net: "object_tracking_vittrack_2023sep_int8bq.onnx",
            },
            TrackerPair::VitWithDaSiam => TrackerModel::Vit {
                net: "object_tracking_vittrack_2023sep.onnx",
            },
        }
    }

    /// The files that the pair's secondary tracker is built from.
    pub fn secondary_model(&self) -> (m: TrackerModel)
        ensures
            m == self.secondary_model_spec(),
    {
        match self {
            TrackerPair::NanoWithDaSiam | TrackerPair::VitWithDaSiam => TrackerModel::DaSiamRpn {
                model: "dasiamrpn_model.onnx",
                kernel_cls1: "dasiamrpn_kernel_cls1.onnx",
                kernel_r1: "dasiamrpn_kernel_r1.onnx",
            },
            TrackerPair::VitWithVit => TrackerModel::Vit {
                net: "object_tracking_vittrack_2023sep.onnx",
            },
        }
    }
}

} // verus!
