use youterm::encoder::{rgb_frame_to_sixel, rgb_to_rgba, EncodeError, RgbFrame};

#[test]
fn malformed_frame_is_refused() {
    let frame = RgbFrame { width: 2, height: 2, data: vec![0u8; 11] };
    assert_eq!(rgb_frame_to_sixel(frame), Err(EncodeError::Malformed));
}

#[test]
fn empty_frame_is_refused_by_encoder() {
    let frame = RgbFrame { width: 0, height: 3, data: Vec::new() };
    assert_eq!(rgb_frame_to_sixel(frame), Err(EncodeError::Sixel));
}

#[test]
fn red_pixel_encodes_as_sixel() {
    let frame = RgbFrame { width: 1, height: 1, data: vec![255, 0, 0] };
    let s = rgb_frame_to_sixel(frame).unwrap();
    assert!(s.starts_with("\x1bP"));
    assert!(s.len() > 3);
}

#[test]
fn alpha_added_after_each_pixel() {
    assert_eq!(rgb_to_rgba(&vec![1, 2, 3, 4, 5, 6]), vec![1, 2, 3, 255, 4, 5, 6, 255]);
    assert_eq!(rgb_to_rgba(&Vec::new()), Vec::<u8>::new());
}

#[test]
fn well_formed_frame_encodes() {
    let frame = RgbFrame { width: 4, height: 7, data: vec![90u8; 4 * 7 * 3] };
    assert!(rgb_frame_to_sixel(frame).is_ok());
}
