//! From a raw NV12 video frame to packed RGB.
//!
//! The colour conversion itself is the work of `dcv_color_primitives`. What
//! stands here is what surrounds it: the destination buffer is sized for the
//! frame, the conversion is run into it, and whatever the converter reports
//! is turned into an error of this crate with its message.

use crate::frame::{new_rgb_buffer, rgb_len};
use dcv_color_primitives::{convert_image, ColorSpace, ErrorKind, ImageFormat, PixelFormat};
use vstd::prelude::*;

verus! {

/// Why the colour converter turned a frame down.
#[derive(Clone, Copy, Debug, PartialEq, Eq, Structural)]
pub enum ConvertError {
    /// The converter was used before it was initialised.
    NotInitialized,
    /// The frame's width or height does not suit its pixel format.
    InvalidValue,
    /// The converter has no method for this pair of formats.
    InvalidOperation,
    /// A buffer is too short for the frame.
    NotEnoughData,
}

/// Why no RGB image could be made of a frame.
#[derive(Clone, Copy, Debug, PartialEq, Eq, Structural)]
pub enum FrameError {
    /// The RGB image of the frame would be longer than a 32-bit size.
    TooLarge,
    /// The colour converter turned the frame down.
    Convert(ConvertError),
}

impl ConvertError {
    /// The text of [`ConvertError::message`].
    pub open spec fn text(self) -> Seq<char> {
        match self {
            ConvertError::NotInitialized => "convert_image:NotInitialized"@,
            ConvertError::InvalidValue => "convert_image:InvalidValue"@,
            ConvertError::InvalidOperation => "convert_image:InvalidOperation"@,
            ConvertError::NotEnoughData => "convert_image:NotEnoughData"@,
        }
    }

    /// The message under which the error is reported to the page.
    pub fn message(&self) -> (s: String)
        ensures
            s@ == self.text(),
    {
        match self {
            ConvertError::NotInitialized => "convert_image:NotInitialized".to_owned(),
            ConvertError::InvalidValue => "convert_image:InvalidValue".to_owned(),
            ConvertError::InvalidOperation => "convert_image:InvalidOperation".to_owned(),
            ConvertError::NotEnoughData => "convert_image:NotEnoughData".to_owned(),
        }
    }
}

impl FrameError {
    /// The text of [`FrameError::message`].
    pub open spec fn text(self) -> Seq<char> {
        match self {
            FrameError::TooLarge => "convert_image:TooLarge"@,
            FrameError::Convert(e) => e.text(),
        }
    }

    /// The message under which the error is reported to the page.
    pub fn message(&self) -> (s: String)
        ensures
            s@ == self.text(),
    {
        match self {
            FrameError::TooLarge => "convert_image:TooLarge".to_owned(),
            FrameError::Convert(e) => e.message(),
        }
    }
}

/// The colour converter, made ready for the running processor.
///
/// The only way to one is [`Converter::new`], so whoever holds one has had
/// the converter initialised, and the routines it names are those that the
/// converter runs for as long as the process lives.
pub struct Converter {
    routines: String,
}

/// The RGB bytes that the converter's routines of the given description
/// write for the NV12 frame `raw` of `width` by `height` pixels.
pub uninterp spec fn nv12_rgb_of(routines: Seq<char>, raw: Seq<u8>, width: u32, height: u32) -> Seq<
    u8,
>;

impl Converter {
    /// The description of the routines that were picked for the processor.
    pub closed spec fn routines(&self) -> Seq<char> {
        self.routines@
    }

    /// Initialises the converter and notes which routines it picked.
    pub fn new() -> Converter {
        initialize_converter();
        Converter { routines: describe_converter() }
    }
}

/// Bytes of a single-plane NV12 frame of `width` by `height` pixels: a byte
/// of luma for each pixel, then a row of chroma for every two rows of
/// pixels.
pub open spec fn nv12_len(width: u32, height: u32) -> int {
    width * height + width * (height / 2)
}

/// Whether both sides of the frame are even, as NV12 asks.
pub open spec fn even_sides(width: u32, height: u32) -> bool {
    width % 2 == 0 && height % 2 == 0
}

/// Whether `raw` is long enough for an NV12 frame of `width` by `height`
/// pixels. A frame without pixels needs no bytes.
pub open spec fn holds_nv12(raw: Seq<u8>, width: u32, height: u32) -> bool {
    width == 0 || height == 0 || raw.len() >= nv12_len(width, height)
}

/// How the conversion of `raw` ends, given a destination of the right
/// length: odd sides are an invalid value, too few bytes are not enough
/// data, and every other frame is converted.
pub open spec fn conversion_outcome(raw: Seq<u8>, width: u32, height: u32) -> Result<
    (),
    ConvertError,
> {
    if !even_sides(width, height) {
        Err(ConvertError::InvalidValue)
    } else if !holds_nv12(raw, width, height) {
        Err(ConvertError::NotEnoughData)
    } else {
        Ok(())
    }
}

/// How a frame ends, whichever routines convert it: too large, turned down
/// by the converter, or converted to the bytes that the routines write.
pub open spec fn frame_outcome(routines: Seq<char>, raw: Seq<u8>, width: u32, height: u32) -> Result<
    Seq<u8>,
    FrameError,
> {
    if rgb_len(width, height) > u32::MAX {
        Err(FrameError::TooLarge)
    } else {
        match conversion_outcome(raw, width, height) {
            Ok(_) => Ok(nv12_rgb_of(routines, raw, width, height)),
            Err(e) => Err(FrameError::Convert(e)),
        }
    }
}

/// Calls `dcv_color_primitives::initialize`, which picks the converter's
/// routines for the running processor, once for the process. Nothing is
/// claimed of it.
#[verifier::external_body]
fn initialize_converter() {
    dcv_color_primitives::initialize();
}

/// Calls `dcv_color_primitives::describe_acceleration`, which names the
/// processor's maker and the instruction set of the routines picked; an
/// empty description stands for its error. Nothing is claimed of the text,
/// which differs from machine to machine.
#[verifier::external_body]
fn describe_converter() -> String {
    dcv_color_primitives::describe_acceleration().unwrap_or_default()
}

/// Calls `dcv_color_primitives::convert_image` from single-plane NV12 in the
/// BT.709 colour space to single-plane packed RGB, with default strides, out
/// of `src` and into `dst`, and gives each of its error kinds as the
/// [`ConvertError`] of the same name.
///
/// Claimed of it, as its source reads once the converter is initialised and
/// the destination has three bytes a pixel: it first turns down odd sides as
/// an invalid value; this pair of formats has a routine; and each of the
/// routines accepts a frame without pixels, and any other frame exactly if
/// the source holds the luma plane and after it the chroma rows, reporting a
/// shorter one as not enough data. The destination keeps its length, since
/// it is written through a slice. On success every byte of it is written,
/// by integer arithmetic on the source bytes alone, so the bytes are a
/// function of the frame and of the routines that run, here named
/// [`nv12_rgb_of`]; the routines for different processors are not held to
/// agree, which is why the name takes their description.
#[verifier::external_body]
fn convert_nv12_to_rgb(
    _converter: &Converter,
    width: u32,
    height: u32,
    src: &[u8],
    dst: &mut Vec<u8>,
) -> (r: Result<(), ConvertError>)
    requires
        old(dst)@.len() == rgb_len(width, height),
    ensures
        final(dst)@.len() == old(dst)@.len(),
        r == conversion_outcome(src@, width, height),
        r.is_ok() ==> final(dst)@ == nv12_rgb_of(_converter.routines(), src@, width, height),
{
    let from = ImageFormat { pixel_format: PixelFormat::Nv12, color_space: ColorSpace::Bt709, num_planes: 1 };
    let to = ImageFormat { pixel_format: PixelFormat::Rgb, color_space: ColorSpace::Rgb, num_planes: 1 };
    convert_image(width, height, &from, None, &[src], &to, None, &mut [&mut dst[..]]).map_err(|e| match e {
        ErrorKind::NotInitialized => ConvertError::NotInitialized,
        ErrorKind::InvalidValue => ConvertError::InvalidValue,
        ErrorKind::InvalidOperation => ConvertError::InvalidOperation,
        ErrorKind::NotEnoughData => ConvertError::NotEnoughData,
    })
}

/// What becomes of a frame once the converter has run into `rgb`: the filled
/// buffer where it reported success, else its error.
pub fn converted(outcome: Result<(), ConvertError>, rgb: Vec<u8>) -> (r: Result<
    Vec<u8>,
    FrameError,
>)
    ensures
        outcome.is_ok() ==> r == Ok::<Vec<u8>, FrameError>(rgb),
        outcome matches Err(e) ==> r == Err::<Vec<u8>, FrameError>(FrameError::Convert(e)),
{
    match outcome {
        Ok(()) => Ok(rgb),
        Err(e) => Err(FrameError::Convert(e)),
    }
}

/// Converts the raw NV12 frame `raw` of `width` by `height` pixels to packed
/// RGB.
///
/// A frame whose RGB image would not fit a 32-bit length is turned down as
/// [`FrameError::TooLarge`]. Of the others, one with an odd side is an
/// invalid value, one with too few bytes has not enough data, and every
/// other one is converted to an image of three bytes a pixel. With one
/// converter, the same frame always gives the same image.
pub fn convert_frame(converter: &Converter, raw: &[u8], width: u32, height: u32) -> (r: Result<
    Vec<u8>,
    FrameError,
>)
    ensures
        match frame_outcome(converter.routines(), raw@, width, height) {
            Ok(bytes) => r matches Ok(rgb) && rgb@ == bytes && rgb@.len() == rgb_len(
                width,
                height,
            ),
            Err(e) => r == Err::<Vec<u8>, FrameError>(e),
        },
{
    match new_rgb_buffer(width, height) {
        None => Err(FrameError::TooLarge),
        Some(mut rgb) => {
            let outcome = convert_nv12_to_rgb(converter, width, height, raw, &mut rgb);
            converted(outcome, rgb)
        },
    }
}

} // verus!
