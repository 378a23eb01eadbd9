use tracklock::confidence::Confidence;
use tracklock::detector::{best_class, classify, detections_from_rows, Candidate, DETECTION_FLOOR_PPM};
use tracklock::geometry::Rect;
use tracklock::reacquire::Detection;

fn scores(ppm: &[u32]) -> Vec<Confidence> {
    ppm.iter().map(|p| Confidence::from_ppm(*p)).collect()
}

#[test]
fn detection_floor_is_one_half() {
    assert_eq!(DETECTION_FLOOR_PPM, 500_000);
}

#[test]
fn best_class_is_the_first_of_the_greatest() {
    assert_eq!(best_class(&scores(&[])), None);
    assert_eq!(best_class(&scores(&[0])), Some(0));
    assert_eq!(best_class(&scores(&[100_000, 900_000, 300_000])), Some(1));
    assert_eq!(best_class(&scores(&[100_000, 900_000, 900_000])), Some(1));
    assert_eq!(best_class(&scores(&[0, 0, 0])), Some(0));
    assert_eq!(best_class(&scores(&[1, 2, 3, 4])), Some(3));
}

#[test]
fn row_below_the_floor_is_no_detection() {
    let floor = Confidence::from_ppm(DETECTION_FLOOR_PPM);
    let bbox = Rect::new(1, 2, 3, 4);
    assert_eq!(classify(bbox, &scores(&[100_000, 499_999, 0]), floor), None);
    assert_eq!(classify(bbox, &scores(&[]), floor), None);
}

#[test]
fn row_at_the_floor_is_a_detection_of_its_best_class() {
    let floor = Confidence::from_ppm(DETECTION_FLOOR_PPM);
    let bbox = Rect::new(1, 2, 3, 4);
    assert_eq!(
        classify(bbox, &scores(&[100_000, 500_000, 0]), floor),
        Some(Detection { bbox, class_id: 1, confidence: Confidence::from_ppm(500_000) })
    );
    assert_eq!(
        classify(bbox, &scores(&[700_000, 600_000, 700_000]), floor),
        Some(Detection { bbox, class_id: 0, confidence: Confidence::from_ppm(700_000) })
    );
}

#[test]
fn detections_keep_the_order_of_the_rows() {
    let floor = Confidence::from_ppm(DETECTION_FLOOR_PPM);
    let rows = vec![
        Candidate { bbox: Rect::new(0, 0, 1, 1), scores: scores(&[600_000, 0]) },
        Candidate { bbox: Rect::new(1, 1, 1, 1), scores: scores(&[400_000, 499_999]) },
        Candidate { bbox: Rect::new(2, 2, 1, 1), scores: scores(&[0, 990_000]) },
        Candidate { bbox: Rect::new(3, 3, 1, 1), scores: scores(&[]) },
        Candidate { bbox: Rect::new(4, 4, 1, 1), scores: scores(&[500_000, 500_000]) },
    ];
    let found = detections_from_rows(&rows, floor);
    assert_eq!(
        found,
        vec![
            Detection { bbox: Rect::new(0, 0, 1, 1), class_id: 0, confidence: Confidence::from_ppm(600_000) },
            Detection { bbox: Rect::new(2, 2, 1, 1), class_id: 1, confidence: Confidence::from_ppm(990_000) },
            Detection { bbox: Rect::new(4, 4, 1, 1), class_id: 0, confidence: Confidence::from_ppm(500_000) },
        ]
    );
    let none: Vec<Candidate> = Vec::new();
    assert!(detections_from_rows(&none, floor).is_empty());
}
