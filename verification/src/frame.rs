//! What the size of a video frame fixes: the length of its pixel buffers and
//! the range of the face sizes that are looked for in it.

use vstd::prelude::*;

verus! {

/// Bytes that one pixel takes in a packed RGB buffer.
pub const RGB_BYTES_PER_PIXEL: u32 = 3;

/// Smallest face, in pixels, that the detector's sliding window looks for.
pub const MIN_FACE_SIZE: u32 = 100;

/// Bytes of a packed RGB image of `width` by `height` pixels.
pub open spec fn rgb_len(width: u32, height: u32) -> int {
    RGB_BYTES_PER_PIXEL * width * height
}

/// Length of the packed RGB buffer of a `width` by `height` frame, or `None`
/// where that length does not fit the 32-bit sizes that a frame is
/// measured in.
pub fn rgb_buffer_len(width: u32, height: u32) -> (len: Option<u32>)
    ensures
        rgb_len(width, height) <= u32::MAX ==> len == Some(rgb_len(width, height) as u32),
        rgb_len(width, height) > u32::MAX ==> len.is_none(),
{
    let w: u64 = width as u64;
    let h: u64 = height as u64;
    assert(w * h <= 0xffff_ffff * 0xffff_ffff) by (nonlinear_arith)
        requires
            w <= 0xffff_ffff,
            h <= 0xffff_ffff,
    ;
    let area: u64 = w * h;
    assert(rgb_len(width, height) == 3 * (width * height)) by (nonlinear_arith)
        requires
            rgb_len(width, height) == 3 * width * height,
    ;
    if area <= (u32::MAX / RGB_BYTES_PER_PIXEL) as u64 {
        Some((3 * area) as u32)
    } else {
        None
    }
}

/// A zeroed packed RGB buffer for a `width` by `height` frame, or `None`
/// where [`rgb_buffer_len`] has no length for it.
pub fn new_rgb_buffer(width: u32, height: u32) -> (buffer: Option<Vec<u8>>)
    ensures
        rgb_len(width, height) <= u32::MAX ==> buffer.is_some(),
        rgb_len(width, height) > u32::MAX ==> buffer.is_none(),
        buffer matches Some(b) ==> b@ == Seq::new(rgb_len(width, height) as nat, |i: int| 0u8),
{
    match rgb_buffer_len(width, height) {
        Some(len) => {
            let b: Vec<u8> = vec![0u8; len as usize];
            assert(b@ =~= Seq::new(rgb_len(width, height) as nat, |i: int| 0u8));
            Some(b)
        },
        None => None,
    }
}

/// The range of window sizes that the face detector scans on a frame that is
/// `width` pixels wide: from [`MIN_FACE_SIZE`] up to the frame's width. The
/// range must not be empty, so a frame no wider than the smallest face has
/// none.
pub fn window_size_range(width: u32) -> (range: Option<(u32, u32)>)
    ensures
        width > MIN_FACE_SIZE ==> range == Some((MIN_FACE_SIZE, width)),
        width <= MIN_FACE_SIZE ==> range.is_none(),
{
    if width > MIN_FACE_SIZE {
        Some((MIN_FACE_SIZE, width))
    } else {
        None
    }
}

} // verus!
