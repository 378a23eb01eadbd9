use tracklock::confidence::TrackerPair;
use tracklock::models::{TrackerModel, DETECTOR_INPUT_SIDE, DETECTOR_MODEL};

#[test]
fn detector_model_is_named() {
    assert_eq!(DETECTOR_MODEL, "yolov8n.onnx");
    assert_eq!(DETECTOR_INPUT_SIDE, 640);
}

#[test]
fn nano_pair_is_backed_by_dasiam() {
    assert_eq!(
        TrackerPair::NanoWithDaSiam.primary_model(),
        TrackerModel::Nano {
            backbone: "nanotrack_backbone_sim.onnx",
            neckhead: "nanotrack_head_sim.onnx",
        }
    );
    assert_eq!(
        TrackerPair::NanoWithDaSiam.secondary_model(),
        TrackerModel::DaSiamRpn {
            model: "dasiamrpn_model.onnx",
            kernel_cls1: "dasiamrpn_kernel_cls1.onnx",
            kernel_r1: "dasiamrpn_kernel_r1.onnx",
        }
    );
}

#[test]
fn vit_pair_runs_the_quantised_model_first() {
    assert_eq!(
        TrackerPair::VitWithVit.primary_model(),
        TrackerModel::Vit { net: "object_tracking_vittrack_2023sep_int8bq.onnx" }
    );
    assert_eq!(
        TrackerPair::VitWithVit.secondary_model(),
        TrackerModel::Vit { net: "object_tracking_vittrack_2023sep.onnx" }
    );
}

#[test]
fn vit_with_dasiam_pair_runs_the_full_model_first() {
    assert_eq!(
        TrackerPair::VitWithDaSiam.primary_model(),
        TrackerModel::Vit { net: "object_tracking_vittrack_2023sep.onnx" }
    );
    assert_eq!(
        TrackerPair::VitWithDaSiam.secondary_model(),
        TrackerModel::DaSiamRpn {
            model: "dasiamrpn_model.onnx",
            kernel_cls1: "dasiamrpn_kernel_cls1.onnx",
            kernel_r1: "dasiamrpn_kernel_r1.onnx",
        }
    );
}
