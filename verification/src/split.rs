//! The two images that are made of a converted frame: the grey one that the
//! detector reads, and the RGBA one that the overlay is drawn on.

use crate::frame::rgb_len;
use crate::overlay::RgbaFrame;
use pico_detect::image::{DynamicImage, RgbImage};
use vstd::prelude::*;

verus! {

/// The grey image of packed RGB bytes, as `image` computes it: one byte for
/// each pixel, in the order of the pixels.
pub uninterp spec fn luma_of(rgb: Seq<u8>) -> Seq<u8>;

/// Packed RGB bytes with an opaque alpha byte after each pixel.
pub open spec fn with_alpha(rgb: Seq<u8>) -> Seq<u8> {
    Seq::new(
        (4 * (rgb.len() / 3)) as nat,
        |i: int|
            if i % 4 == 3 {
                255u8
            } else {
                rgb[3 * (i / 4) + i % 4]
            },
    )
}

/// Calls `image::DynamicImage::to_luma8` on the bytes, taken as an
/// `RgbImage` of `width` by `height` pixels, and hands the grey bytes back.
///
/// Claimed of it: the result is a function of the bytes alone, here named
/// [`luma_of`], since each pixel is weighed by itself with fixed weights;
/// and it holds one byte for each pixel. The bytes must be those of a whole
/// image, or `RgbImage::from_raw` has none to give.
#[verifier::external_body]
fn rgb_to_luma(rgb: &[u8], width: u32, height: u32) -> (gray: Vec<u8>)
    requires
        rgb@.len() == rgb_len(width, height),
    ensures
        gray@ == luma_of(rgb@),
        gray@.len() == width * height,
{
    let image = RgbImage::from_raw(width, height, rgb.to_vec()).unwrap();
    DynamicImage::ImageRgb8(image).to_luma8().into_raw()
}

/// The grey image of a packed RGB frame of `width` by `height` pixels, one
/// byte a pixel; `None` unless `rgb` holds exactly the bytes of such a
/// frame.
pub fn gray_of(rgb: &[u8], width: u32, height: u32) -> (gray: Option<Vec<u8>>)
    ensures
        gray.is_some() <==> rgb@.len() == rgb_len(width, height),
        gray matches Some(g) ==> g@ == luma_of(rgb@) && g@.len() == width * height,
{
    if !holds_frame(rgb, width, height) {
        return None;
    }
    Some(rgb_to_luma(rgb, width, height))
}

/// Whether `rgb` holds exactly the bytes of a packed RGB frame of `width` by
/// `height` pixels.
pub fn holds_frame(rgb: &[u8], width: u32, height: u32) -> (ok: bool)
    ensures
        ok == (rgb@.len() == rgb_len(width, height)),
{
    let w: u64 = width as u64;
    let h: u64 = height as u64;
    assert(w * h <= 0xffff_ffff * 0xffff_ffff) by (nonlinear_arith)
        requires
            w <= 0xffff_ffff,
            h <= 0xffff_ffff,
    ;
    let pixels: u64 = w * h;
    assert(rgb_len(width, height) == 3 * (w * h)) by (nonlinear_arith)
        requires
            rgb_len(width, height) == 3 * width * height,
            w == width,
            h == height,
    ;
    let len: u64 = rgb.len() as u64;
    len % 3 == 0 && len / 3 == pixels
}

/// The RGBA image of a packed RGB frame of `width` by `height` pixels, every
/// pixel opaque; `None` unless `rgb` holds exactly the bytes of such a
/// frame and its sides fit a signed 32-bit coordinate.
pub fn rgba_of(rgb: &[u8], width: u32, height: u32) -> (frame: Option<RgbaFrame>)
    ensures
        frame.is_some() <==> rgb@.len() == rgb_len(width, height) && width <= i32::MAX && height
            <= i32::MAX,
        frame matches Some(f) ==> f.wf() && f.width == width && f.height == height && f.data@
            == with_alpha(rgb@),
{
    if width > 0x7fff_ffff || height > 0x7fff_ffff || !holds_frame(rgb, width, height) {
        return None;
    }
    assert(rgb@.len() == 3 * (width * height)) by (nonlinear_arith)
        requires
            rgb@.len() == 3 * width * height,
    ;
    let pixels: usize = rgb.len() / 3;
    let mut data: Vec<u8> = Vec::new();
    let mut p: usize = 0;
    while p < pixels
        invariant
            p <= pixels,
            rgb@.len() == 3 * pixels,
            3 * pixels <= usize::MAX,
            data@.len() == 4 * p,
            forall|i: int| 0 <= i < 4 * p ==> data@[i] == #[trigger] with_alpha(rgb@)[i],
        decreases pixels - p,
    {
        data.push(rgb[3 * p]);
        data.push(rgb[3 * p + 1]);
        data.push(rgb[3 * p + 2]);
        data.push(255);
        p += 1;
    }
    assert(data@ =~= with_alpha(rgb@));
    assert(4 * width * height == 4 * pixels) by (nonlinear_arith)
        requires
            pixels == width * height,
    ;
    Some(RgbaFrame { width, height, data })
}

} // verus!
