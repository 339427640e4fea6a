use bsplitter_wasm::split::{gray_of, holds_frame, rgba_of};

#[test]
fn grey_image_has_one_byte_a_pixel() {
    let rgb = [255u8, 255, 255, 0, 0, 0, 255, 0, 0, 0, 255, 0, 0, 0, 255, 100, 100, 100];
    let gray = gray_of(&rgb, 3, 2).unwrap();
    assert_eq!(gray.len(), 6);
    assert!(gray[0] >= 254);
    assert_eq!(gray[1], 0);
    assert_eq!(gray[2], 54);
    assert_eq!(gray[3], 182);
    assert_eq!(gray[4], 18);
    assert!((99..=100).contains(&gray[5]));
}

#[test]
fn grey_image_depends_on_the_bytes_alone() {
    let rgb: Vec<u8> = (0..36).map(|i| (i * 7) as u8).collect();
    let wide = gray_of(&rgb, 6, 2).unwrap();
    let tall = gray_of(&rgb, 2, 6).unwrap();
    let row = gray_of(&rgb, 12, 1).unwrap();
    assert_eq!(wide, tall);
    assert_eq!(wide, row);
    assert_eq!(gray_of(&rgb, 6, 2).unwrap(), wide);
}

#[test]
fn grey_image_needs_a_whole_frame() {
    assert_eq!(gray_of(&[0u8; 11], 2, 2), None);
    assert_eq!(gray_of(&[0u8; 13], 2, 2), None);
    assert_eq!(gray_of(&[0u8; 12], 2, 3), None);
    assert_eq!(gray_of(&[], 0, 0), Some(Vec::new()));
    assert_eq!(gray_of(&[], u32::MAX, u32::MAX), None);
}

#[test]
fn frame_length_is_three_bytes_a_pixel() {
    assert!(holds_frame(&[0u8; 12], 2, 2));
    assert!(holds_frame(&[0u8; 12], 4, 1));
    assert!(holds_frame(&[], 0, 9));
    assert!(holds_frame(&[], u32::MAX, 0));
    assert!(!holds_frame(&[0u8; 12], 2, 1));
    assert!(!holds_frame(&[0u8; 4], 1, 1));
    assert!(!holds_frame(&[0u8; 2], 1, 1));
    assert!(!holds_frame(&[], 65_536, 65_536));
}

#[test]
fn rgba_image_is_the_rgb_image_made_opaque() {
    let rgb = [1u8, 2, 3, 4, 5, 6, 7, 8, 9, 10, 11, 12];
    let frame = rgba_of(&rgb, 2, 2).unwrap();
    assert_eq!((frame.width, frame.height), (2, 2));
    assert_eq!(
        frame.data,
        vec![1, 2, 3, 255, 4, 5, 6, 255, 7, 8, 9, 255, 10, 11, 12, 255]
    );
}

#[test]
fn rgba_image_of_an_empty_frame_is_empty() {
    let frame = rgba_of(&[], 0, 5).unwrap();
    assert_eq!((frame.width, frame.height), (0, 5));
    assert!(frame.data.is_empty());
}

#[test]
fn rgba_image_needs_a_whole_frame() {
    assert!(rgba_of(&[0u8; 11], 2, 2).is_none());
    assert!(rgba_of(&[0u8; 13], 2, 2).is_none());
    assert!(rgba_of(&[0u8; 12], 1, 2).is_none());
    assert!(rgba_of(&[], u32::MAX, 0).is_none());
    assert!(rgba_of(&[], 0, u32::MAX).is_none());
}
