use bsplitter_wasm::frame::{
    new_rgb_buffer, rgb_buffer_len, window_size_range, MIN_FACE_SIZE, RGB_BYTES_PER_PIXEL,
};

#[test]
fn rgb_length_is_three_bytes_a_pixel() {
    assert_eq!(RGB_BYTES_PER_PIXEL, 3);
    assert_eq!(rgb_buffer_len(640, 480), Some(921_600));
    assert_eq!(rgb_buffer_len(1, 1), Some(3));
    assert_eq!(rgb_buffer_len(2, 3), Some(18));
}

#[test]
fn rgb_length_of_an_empty_frame_is_zero() {
    assert_eq!(rgb_buffer_len(0, 480), Some(0));
    assert_eq!(rgb_buffer_len(640, 0), Some(0));
    assert_eq!(rgb_buffer_len(u32::MAX, 0), Some(0));
    assert_eq!(rgb_buffer_len(0, u32::MAX), Some(0));
}

#[test]
fn rgb_length_at_the_limit() {
    // 3 * 1_431_655_765 = u32::MAX
    assert_eq!(rgb_buffer_len(1_431_655_765, 1), Some(u32::MAX));
    assert_eq!(rgb_buffer_len(1, 1_431_655_765), Some(u32::MAX));
    assert_eq!(rgb_buffer_len(1_431_655_766, 1), None);
    assert_eq!(rgb_buffer_len(65_536, 65_536), None);
    assert_eq!(rgb_buffer_len(u32::MAX, u32::MAX), None);
    assert_eq!(rgb_buffer_len(u32::MAX, 1), None);
}

#[test]
fn new_buffer_is_zeroed_and_sized() {
    let buffer = new_rgb_buffer(4, 2).unwrap();
    assert_eq!(buffer, vec![0u8; 24]);
    assert_eq!(new_rgb_buffer(0, 7), Some(Vec::new()));
    assert_eq!(new_rgb_buffer(u32::MAX, 2), None);
}

#[test]
fn window_range_runs_from_smallest_face_to_width() {
    assert_eq!(MIN_FACE_SIZE, 100);
    assert_eq!(window_size_range(640), Some((100, 640)));
    assert_eq!(window_size_range(101), Some((100, 101)));
    assert_eq!(window_size_range(u32::MAX), Some((100, u32::MAX)));
}

#[test]
fn narrow_frame_has_no_window_range() {
    assert_eq!(window_size_range(100), None);
    assert_eq!(window_size_range(99), None);
    assert_eq!(window_size_range(0), None);
}
