use tracklock::layout::{holds_rgb_frame, planar_from_interleaved, rgb_frame_len, rgb_row_len, RGB_BYTES};

#[test]
fn three_channels_become_three_planes() {
    let interleaved: Vec<f32> = vec![0.1, 0.2, 0.3, 1.1, 1.2, 1.3, 2.1, 2.2, 2.3, 3.1, 3.2, 3.3];
    let planar = planar_from_interleaved(&interleaved, 3);
    assert_eq!(planar, Some(vec![0.1, 1.1, 2.1, 3.1, 0.2, 1.2, 2.2, 3.2, 0.3, 1.3, 2.3, 3.3]));
}

#[test]
fn one_channel_stays_as_it_is() {
    let interleaved: Vec<u8> = vec![5, 6, 7];
    assert_eq!(planar_from_interleaved(&interleaved, 1), Some(vec![5, 6, 7]));
}

#[test]
fn one_pixel_stays_as_it_is() {
    let interleaved: Vec<u8> = vec![5, 6, 7];
    assert_eq!(planar_from_interleaved(&interleaved, 3), Some(vec![5, 6, 7]));
}

#[test]
fn empty_buffer_has_empty_planes() {
    let interleaved: Vec<u8> = Vec::new();
    assert_eq!(planar_from_interleaved(&interleaved, 3), Some(Vec::new()));
}

#[test]
fn buffer_must_hold_whole_pixels() {
    let interleaved: Vec<u8> = vec![1, 2, 3, 4];
    assert_eq!(planar_from_interleaved(&interleaved, 3), None);
    assert_eq!(planar_from_interleaved(&interleaved, 0), None);
    assert_eq!(planar_from_interleaved(&interleaved, 5), None);
    assert_eq!(planar_from_interleaved(&interleaved, 2), Some(vec![1, 3, 2, 4]));
}

#[test]
fn rgb_row_takes_three_bytes_per_pixel() {
    assert_eq!(RGB_BYTES, 3);
    assert_eq!(rgb_row_len(0), Some(0));
    assert_eq!(rgb_row_len(1632), Some(4896));
    assert_eq!(rgb_row_len(715_827_882), Some(2_147_483_646));
    assert_eq!(rgb_row_len(715_827_883), None);
    assert_eq!(rgb_row_len(-1), None);
    assert_eq!(rgb_row_len(i32::MAX), None);
}

#[test]
fn rgb_frame_takes_three_bytes_per_pixel() {
    assert_eq!(rgb_frame_len(1632, 1232), Some(6_031_872));
    assert_eq!(rgb_frame_len(0, 1232), Some(0));
    assert_eq!(rgb_frame_len(2, 3), Some(18));
    assert_eq!(rgb_frame_len(-1, 3), None);
    assert_eq!(rgb_frame_len(3, -1), None);
    assert_eq!(rgb_frame_len(i32::MIN, i32::MIN), None);
}

#[test]
fn buffer_holds_a_frame_only_at_its_exact_size() {
    assert!(holds_rgb_frame(1632, 1232, 6_031_872));
    assert!(!holds_rgb_frame(1632, 1232, 6_031_871));
    assert!(!holds_rgb_frame(1632, 1232, 6_031_873));
    assert!(holds_rgb_frame(0, 0, 0));
    assert!(!holds_rgb_frame(-1, 4, 0));
}
