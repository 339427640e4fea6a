//! The overlay drawn over a frame for each face found in it: a box round the
//! face, a cross on each landmark, and a cross on each pupil.
//!
//! The pixels are set by `imageproc`; the order of the strokes, their
//! colours, and what the frame holds once all of them are drawn are this
//! module's.

use imageproc::drawing::{draw_cross_mut, draw_hollow_rect_mut};
use pico_detect::image::{Rgba, RgbaImage};
use pico_detect::Rect;
use vstd::prelude::*;

verus! {

/// Largest distance from the origin, along either axis, at which a box may
/// lie: up to here a coordinate survives the rasteriser's arithmetic intact.
pub const BOX_REACH: i32 = 0x100_0000;

/// An RGBA colour, one byte a channel.
#[derive(Clone, Copy, Debug, PartialEq, Eq, Structural)]
pub struct Color {
    pub r: u8,
    pub g: u8,
    pub b: u8,
    pub a: u8,
}

/// A pixel position; it may lie outside the frame.
#[derive(Clone, Copy, Debug, PartialEq, Eq, Structural)]
pub struct Marker {
    pub x: i32,
    pub y: i32,
}

/// The box round a face: its top left pixel and its size in pixels.
#[derive(Clone, Copy, Debug, PartialEq, Eq, Structural)]
pub struct FaceBox {
    pub left: i32,
    pub top: i32,
    pub width: u32,
    pub height: u32,
}

/// What is drawn for one face.
#[derive(Debug, PartialEq, Eq)]
pub struct FaceMarks {
    pub rect: FaceBox,
    pub shape: Vec<Marker>,
    pub pupils: (Marker, Marker),
}

/// A frame of packed RGBA pixels, row after row from the top.
#[derive(Clone, Debug, PartialEq, Eq)]
pub struct RgbaFrame {
    pub width: u32,
    pub height: u32,
    pub data: Vec<u8>,
}

/// Colour of the box round a face: opaque blue.
pub open spec fn box_color() -> Color {
    Color { r: 0, g: 0, b: 255, a: 255 }
}

/// Colour of the cross on a landmark: opaque green.
pub open spec fn landmark_color() -> Color {
    Color { r: 0, g: 255, b: 0, a: 255 }
}

/// Colour of the cross on a pupil: opaque red.
pub open spec fn pupil_color() -> Color {
    Color { r: 255, g: 0, b: 0, a: 255 }
}

impl Color {
    /// The byte of channel `k`, counted in the order red, green, blue, alpha.
    pub open spec fn channel(self, k: int) -> u8 {
        if k == 0 {
            self.r
        } else if k == 1 {
            self.g
        } else if k == 2 {
            self.b
        } else {
            self.a
        }
    }
}

impl Marker {
    /// A cross reaches one pixel to each side of its centre, so the centre
    /// must leave room for that within `i32`.
    pub open spec fn drawable(self) -> bool {
        i32::MIN < self.x < i32::MAX && i32::MIN < self.y < i32::MAX
    }

    /// Whether `(px, py)` lies on the cross centred here: the centre and its
    /// four neighbours.
    pub open spec fn covers(self, px: int, py: int) -> bool {
        (px == self.x && self.y - 1 <= py <= self.y + 1) || (py == self.y && self.x - 1 <= px
            <= self.x + 1)
    }

    /// Whether the cross centred here lies wholly off a frame of `width` by
    /// `height` pixels, by a column or a row at the least.
    pub open spec fn off_frame(self, width: int, height: int) -> bool {
        self.x + 1 < 0 || self.x - 1 >= width || self.y + 1 < 0 || self.y - 1 >= height
    }

    /// A cross can be placed on a frame if it can be drawn, or if none of it
    /// would show.
    pub open spec fn placeable(self, width: int, height: int) -> bool {
        self.drawable() || self.off_frame(width, height)
    }

    /// Tests [`Marker::placeable`].
    pub fn is_placeable(&self, width: u32, height: u32) -> (ok: bool)
        ensures
            ok == self.placeable(width as int, height as int),
    {
        let x: i64 = self.x as i64;
        let y: i64 = self.y as i64;
        self.is_drawable() || x + 1 < 0 || x - 1 >= width as i64 || y + 1 < 0 || y - 1
            >= height as i64
    }

    /// Tests [`Marker::drawable`].
    pub fn is_drawable(&self) -> (ok: bool)
        ensures
            ok == self.drawable(),
    {
        i32::MIN < self.x && self.x < i32::MAX && i32::MIN < self.y && self.y < i32::MAX
    }
}

impl FaceBox {
    /// Rightmost column of the box.
    pub open spec fn right(self) -> int {
        self.left + self.width - 1
    }

    /// Lowest row of the box.
    pub open spec fn bottom(self) -> int {
        self.top + self.height - 1
    }

    /// A box can be drawn if it is not empty and lies within [`BOX_REACH`]
    /// of the origin.
    pub open spec fn drawable(self) -> bool {
        &&& self.width > 0
        &&& self.height > 0
        &&& -BOX_REACH <= self.left
        &&& -BOX_REACH <= self.top
        &&& self.right() <= BOX_REACH
        &&& self.bottom() <= BOX_REACH
    }

    /// Whether `(px, py)` lies on the outline of the box.
    pub open spec fn outlines(self, px: int, py: int) -> bool {
        ||| (self.left <= px <= self.right() && (py == self.top || py == self.bottom()))
        ||| (self.top <= py <= self.bottom() && (px == self.left || px == self.right()))
    }

    /// The box holds at least one pixel.
    pub open spec fn nonempty(self) -> bool {
        self.width > 0 && self.height > 0
    }

    /// Whether the box reaches into a frame of `width` by `height` pixels or
    /// into the ring of one pixel around it.
    pub open spec fn meets(self, width: int, height: int) -> bool {
        self.left <= width && self.right() >= -1 && self.top <= height && self.bottom() >= -1
    }

    /// The part of the box that lies in a frame of `width` by `height`
    /// pixels or in the ring of one pixel around it. A side that is cut off
    /// comes to lie in the ring, so within the frame the outline is the
    /// same.
    pub open spec fn clipped(self, width: int, height: int) -> FaceBox
        recommends
            self.nonempty(),
            self.meets(width, height),
    {
        let left = if self.left < -1 {
            -1
        } else {
            self.left as int
        };
        let top = if self.top < -1 {
            -1
        } else {
            self.top as int
        };
        let right = if self.right() > width {
            width
        } else {
            self.right()
        };
        let bottom = if self.bottom() > height {
            height
        } else {
            self.bottom()
        };
        FaceBox {
            left: left as i32,
            top: top as i32,
            width: (right - left + 1) as u32,
            height: (bottom - top + 1) as u32,
        }
    }

    /// A box can be placed on a frame if it is not empty and either none of
    /// it would show or the part near the frame can be drawn.
    pub open spec fn placeable(self, width: int, height: int) -> bool {
        self.nonempty() && (!self.meets(width, height) || self.clipped(width, height).drawable())
    }

    /// The part of a non-empty box near a frame of `width` by `height`
    /// pixels, or `None` where the box stays clear of the frame.
    pub fn clip(&self, width: u32, height: u32) -> (near: Option<FaceBox>)
        requires
            self.nonempty(),
            width <= i32::MAX,
            height <= i32::MAX,
        ensures
            near.is_some() <==> self.meets(width as int, height as int),
            near matches Some(b) ==> b == self.clipped(width as int, height as int) && b.nonempty(),
    {
        let w: i64 = width as i64;
        let h: i64 = height as i64;
        let right: i64 = self.left as i64 + self.width as i64 - 1;
        let bottom: i64 = self.top as i64 + self.height as i64 - 1;
        if self.left as i64 > w || right < -1 || self.top as i64 > h || bottom < -1 {
            return None;
        }
        let l: i64 = if (self.left as i64) < -1 {
            -1
        } else {
            self.left as i64
        };
        let t: i64 = if (self.top as i64) < -1 {
            -1
        } else {
            self.top as i64
        };
        let r: i64 = if right > w {
            w
        } else {
            right
        };
        let b: i64 = if bottom > h {
            h
        } else {
            bottom
        };
        Some(
            FaceBox {
                left: l as i32,
                top: t as i32,
                width: (r - l + 1) as u32,
                height: (b - t + 1) as u32,
            },
        )
    }

    /// Tests [`FaceBox::placeable`].
    pub fn is_placeable(&self, width: u32, height: u32) -> (ok: bool)
        requires
            width <= i32::MAX,
            height <= i32::MAX,
        ensures
            ok == self.placeable(width as int, height as int),
    {
        if self.width == 0 || self.height == 0 {
            return false;
        }
        match self.clip(width, height) {
            None => true,
            Some(near) => near.is_drawable(),
        }
    }

    /// Tests [`FaceBox::drawable`].
    pub fn is_drawable(&self) -> (ok: bool)
        ensures
            ok == self.drawable(),
    {
        let reach: i64 = BOX_REACH as i64;
        self.width > 0 && self.height > 0 && -reach <= self.left as i64 && -reach
            <= self.top as i64 && self.left as i64 + self.width as i64 - 1 <= reach
            && self.top as i64 + self.height as i64 - 1 <= reach
    }
}

impl RgbaFrame {
    /// The frame holds four bytes for each of its pixels, and its sides fit
    /// a signed 32-bit coordinate.
    pub open spec fn wf(self) -> bool {
        &&& self.width <= i32::MAX
        &&& self.height <= i32::MAX
        &&& self.data@.len() == 4 * self.width * self.height
    }

    /// Wraps `data` as a frame of `width` by `height` pixels, if it holds
    /// exactly the bytes of such a frame.
    pub fn new(width: u32, height: u32, data: Vec<u8>) -> (frame: Option<RgbaFrame>)
        ensures
            frame matches Some(f) ==> f.width == width && f.height == height && f.data == data
                && f.wf(),
            frame.is_some() <==> (RgbaFrame { width, height, data }).wf(),
    {
        if width > 0x7fff_ffff || height > 0x7fff_ffff {
            return None;
        }
        let w: u64 = width as u64;
        let h: u64 = height as u64;
        assert(w * h <= 0x7fff_ffff * 0x7fff_ffff) by (nonlinear_arith)
            requires
                w <= 0x7fff_ffff,
                h <= 0x7fff_ffff,
        ;
        let pixels: u64 = w * h;
        assert(4 * width * height == 4 * (w * h)) by (nonlinear_arith)
            requires
                w == width,
                h == height,
        ;
        if data.len() as u64 / 4 == pixels && data.len() % 4 == 0 {
            Some(RgbaFrame { width, height, data })
        } else {
            None
        }
    }
}

/// The bytes of a frame `width` pixels wide after a cross of colour `c` is
/// drawn at `at`: every pixel of the frame that the cross covers takes the
/// colour, and nothing else changes.
pub open spec fn cross_drawn(data: Seq<u8>, width: int, c: Color, at: Marker) -> Seq<u8> {
    Seq::new(
        data.len(),
        |i: int|
            if byte_on_cross(i, width, at) {
                c.channel(i % 4)
            } else {
                data[i]
            },
    )
}

/// The bytes of a frame `width` pixels wide after the outline of `rect` is
/// drawn in colour `c`: every pixel of the frame on the outline takes the
/// colour, and nothing else changes.
pub open spec fn box_drawn(data: Seq<u8>, width: int, c: Color, rect: FaceBox) -> Seq<u8> {
    Seq::new(
        data.len(),
        |i: int|
            if byte_on_box(i, width, rect) {
                c.channel(i % 4)
            } else {
                data[i]
            },
    )
}

/// The bytes after a cross of colour `c` is drawn at each of `marks`, first
/// to last.
pub open spec fn crosses_drawn(data: Seq<u8>, width: int, c: Color, marks: Seq<Marker>) -> Seq<
    u8,
>
    decreases marks.len(),
{
    if marks.len() == 0 {
        data
    } else {
        cross_drawn(crosses_drawn(data, width, c, marks.drop_last()), width, c, marks.last())
    }
}

/// The bytes after the whole overlay of one face is drawn: the box, then the
/// landmarks in their order, then the first pupil, then the second. A later
/// stroke covers an earlier one where they meet.
pub open spec fn face_drawn(data: Seq<u8>, width: int, face: FaceMarks) -> Seq<u8> {
    let boxed = box_drawn(data, width, box_color(), face.rect);
    let marked = crosses_drawn(boxed, width, landmark_color(), face.shape@);
    let first = cross_drawn(marked, width, pupil_color(), face.pupils.0);
    cross_drawn(first, width, pupil_color(), face.pupils.1)
}

/// The bytes after the overlay of each of `faces` is drawn, first to last.
pub open spec fn faces_drawn(data: Seq<u8>, width: int, faces: Seq<FaceMarks>) -> Seq<u8>
    decreases faces.len(),
{
    if faces.len() == 0 {
        data
    } else {
        face_drawn(faces_drawn(data, width, faces.drop_last()), width, faces.last())
    }
}

impl FaceMarks {
    /// Every stroke of the overlay can be placed on a frame of `width` by
    /// `height` pixels.
    pub open spec fn placeable(self, width: int, height: int) -> bool {
        &&& self.rect.placeable(width, height)
        &&& forall|i: int|
            0 <= i < self.shape@.len() ==> (#[trigger] self.shape@[i]).placeable(width, height)
        &&& self.pupils.0.placeable(width, height)
        &&& self.pupils.1.placeable(width, height)
    }

    /// Tests [`FaceMarks::placeable`].
    pub fn is_placeable(&self, width: u32, height: u32) -> (ok: bool)
        requires
            width <= i32::MAX,
            height <= i32::MAX,
        ensures
            ok == self.placeable(width as int, height as int),
    {
        if !self.rect.is_placeable(width, height) || !self.pupils.0.is_placeable(width, height)
            || !self.pupils.1.is_placeable(width, height) {
            return false;
        }
        let mut i: usize = 0;
        while i < self.shape.len()
            invariant
                i <= self.shape@.len(),
                forall|j: int|
                    0 <= j < i ==> (#[trigger] self.shape@[j]).placeable(
                        width as int,
                        height as int,
                    ),
            decreases self.shape@.len() - i,
        {
            if !self.shape[i].is_placeable(width, height) {
                return false;
            }
            i += 1;
        }
        true
    }
}

/// Calls `imageproc::drawing::draw_cross_mut` on the frame, taken as an
/// `RgbaImage` and handed back.
///
/// Claimed of it, as its source reads: of the centre and its four
/// neighbours, those that lie in the frame are set to the colour; no other
/// byte changes. The centre is kept off the ends of `i32`, where the search
/// for its neighbours would overflow.
#[verifier::external_body]
fn draw_cross(frame: &mut RgbaFrame, color: Color, at: Marker)
    requires
        old(frame).wf(),
        at.drawable(),
    ensures
        final(frame).width == old(frame).width,
        final(frame).height == old(frame).height,
        final(frame).data@ == cross_drawn(old(frame).data@, old(frame).width as int, color, at),
{
    let data = std::mem::take(&mut frame.data);
    let mut canvas = RgbaImage::from_raw(frame.width, frame.height, data).unwrap();
    draw_cross_mut(&mut canvas, Rgba([color.r, color.g, color.b, color.a]), at.x, at.y);
    frame.data = canvas.into_raw();
}

/// Calls `imageproc::drawing::draw_hollow_rect_mut` on the frame, taken as
/// an `RgbaImage` and handed back, with the rectangle that
/// `imageproc::rect::Rect::at(..).of_size(..)` makes of the box.
///
/// Claimed of it, as its source reads: the four sides are drawn as
/// horizontal and vertical line segments, which set each pixel of the
/// outline that lies in the frame to the colour; no other byte changes. The
/// box is not empty, which the rectangle's constructor insists on, and lies
/// where its corners are exact as single-precision numbers, in which the
/// segments are traced.
#[verifier::external_body]
fn draw_box(frame: &mut RgbaFrame, color: Color, rect: FaceBox)
    requires
        old(frame).wf(),
        rect.drawable(),
    ensures
        final(frame).width == old(frame).width,
        final(frame).height == old(frame).height,
        final(frame).data@ == box_drawn(old(frame).data@, old(frame).width as int, color, rect),
{
    let data = std::mem::take(&mut frame.data);
    let mut canvas = RgbaImage::from_raw(frame.width, frame.height, data).unwrap();
    let outline = Rect::at(rect.left, rect.top).of_size(rect.width, rect.height);
    draw_hollow_rect_mut(&mut canvas, outline, Rgba([color.r, color.g, color.b, color.a]));
    frame.data = canvas.into_raw();
}

/// Whether byte `i` of a frame `width` pixels wide belongs to a pixel that
/// the cross at `at` covers.
pub open spec fn byte_on_cross(i: int, width: int, at: Marker) -> bool {
    width > 0 && at.covers((i / 4) % width, (i / 4) / width)
}

/// Whether byte `i` of a frame `width` pixels wide belongs to a pixel on the
/// outline of `rect`.
pub open spec fn byte_on_box(i: int, width: int, rect: FaceBox) -> bool {
    width > 0 && rect.outlines((i / 4) % width, (i / 4) / width)
}

/// A run of crosses keeps the number of bytes, and changes no byte of a
/// pixel that none of the crosses covers.
pub proof fn lemma_crosses_touch_only_crosses(
    data: Seq<u8>,
    width: int,
    c: Color,
    marks: Seq<Marker>,
    i: int,
)
    requires
        0 <= i < data.len(),
        forall|k: int| 0 <= k < marks.len() ==> !byte_on_cross(i, width, #[trigger] marks[k]),
    ensures
        crosses_drawn(data, width, c, marks).len() == data.len(),
        crosses_drawn(data, width, c, marks)[i] == data[i],
    decreases marks.len(),
{
    if marks.len() > 0 {
        let front = marks.drop_last();
        assert forall|k: int| 0 <= k < front.len() implies !byte_on_cross(
            i,
            width,
            #[trigger] front[k],
        ) by {
            assert(front[k] == marks[k]);
        }
        lemma_crosses_touch_only_crosses(data, width, c, front, i);
        assert(!byte_on_cross(i, width, marks[marks.len() - 1]));
    }
}

/// The overlay of a face keeps the number of bytes, and changes no byte of
/// a pixel that lies neither on the box nor on any cross.
pub proof fn lemma_overlay_touches_only_strokes(data: Seq<u8>, width: int, face: FaceMarks, i: int)
    requires
        0 <= i < data.len(),
        !byte_on_box(i, width, face.rect),
        forall|k: int|
            0 <= k < face.shape@.len() ==> !byte_on_cross(i, width, #[trigger] face.shape@[k]),
        !byte_on_cross(i, width, face.pupils.0),
        !byte_on_cross(i, width, face.pupils.1),
    ensures
        face_drawn(data, width, face).len() == data.len(),
        face_drawn(data, width, face)[i] == data[i],
{
    let boxed = box_drawn(data, width, box_color(), face.rect);
    lemma_crosses_touch_only_crosses(boxed, width, landmark_color(), face.shape@, i);
}

/// The pupils are drawn last: every byte of a pixel under the cross of the
/// second pupil ends up in the pupils' colour, and so does every byte under
/// the cross of the first pupil that the second does not cover.
pub proof fn lemma_pupils_lie_on_top(data: Seq<u8>, width: int, face: FaceMarks, i: int)
    requires
        0 <= i < data.len(),
        byte_on_cross(i, width, face.pupils.0) || byte_on_cross(i, width, face.pupils.1),
    ensures
        face_drawn(data, width, face)[i] == pupil_color().channel(i % 4),
{
    let boxed = box_drawn(data, width, box_color(), face.rect);
    let marked = crosses_drawn(boxed, width, landmark_color(), face.shape@);
    lemma_crosses_keep_length(boxed, width, landmark_color(), face.shape@);
}

/// A run of crosses keeps the number of bytes.
pub proof fn lemma_crosses_keep_length(data: Seq<u8>, width: int, c: Color, marks: Seq<Marker>)
    ensures
        crosses_drawn(data, width, c, marks).len() == data.len(),
    decreases marks.len(),
{
    if marks.len() > 0 {
        lemma_crosses_keep_length(data, width, c, marks.drop_last());
    }
}

/// Every byte of a frame belongs to a pixel whose column and row lie in the
/// frame.
pub proof fn lemma_pixel_in_frame(i: int, width: int, height: int)
    requires
        0 <= width,
        0 <= height,
        0 <= i < 4 * width * height,
    ensures
        width > 0,
        0 <= (i / 4) % width < width,
        0 <= (i / 4) / width < height,
{
    assert(width > 0 && height > 0) by (nonlinear_arith)
        requires
            0 <= width,
            0 <= height,
            0 < 4 * width * height,
    ;
    let p = i / 4;
    assert(p < width * height) by (nonlinear_arith)
        requires
            p == i / 4,
            0 <= i < 4 * width * height,
    ;
    vstd::arithmetic::div_mod::lemma_fundamental_div_mod(p, width);
    vstd::arithmetic::div_mod::lemma_mod_bound(p, width);
    let q = p / width;
    let m = p % width;
    assert(0 <= q < height) by (nonlinear_arith)
        requires
            p == width * q + m,
            0 <= m < width,
            0 <= p < width * height,
    ;
}

/// A cross that lies off the frame changes nothing.
pub proof fn lemma_cross_off_frame(data: Seq<u8>, width: int, height: int, c: Color, at: Marker)
    requires
        0 <= width,
        0 <= height,
        data.len() == 4 * width * height,
        at.off_frame(width, height),
    ensures
        cross_drawn(data, width, c, at) == data,
{
    assert forall|i: int| 0 <= i < data.len() implies !byte_on_cross(i, width, at) by {
        lemma_pixel_in_frame(i, width, height);
    }
    assert(cross_drawn(data, width, c, at) =~= data);
}

/// A box that stays clear of the frame changes nothing, and any other box
/// draws what its part near the frame draws.
pub proof fn lemma_box_near_frame(data: Seq<u8>, width: int, height: int, c: Color, rect: FaceBox)
    requires
        0 <= width <= i32::MAX,
        0 <= height <= i32::MAX,
        data.len() == 4 * width * height,
        rect.nonempty(),
    ensures
        !rect.meets(width, height) ==> box_drawn(data, width, c, rect) == data,
        rect.meets(width, height) ==> box_drawn(data, width, c, rect) == box_drawn(
            data,
            width,
            c,
            rect.clipped(width, height),
        ),
{
    let near = rect.clipped(width, height);
    assert forall|i: int| 0 <= i < data.len() implies (if rect.meets(width, height) {
        byte_on_box(i, width, rect) == byte_on_box(i, width, near)
    } else {
        !byte_on_box(i, width, rect)
    }) by {
        lemma_pixel_in_frame(i, width, height);
    }
    if rect.meets(width, height) {
        assert(box_drawn(data, width, c, rect) =~= box_drawn(data, width, c, near));
    } else {
        assert(box_drawn(data, width, c, rect) =~= data);
    }
}

/// On a frame whose sides are within [`BOX_REACH`], every face with a box
/// that is not empty can be placed.
pub proof fn lemma_modest_frames_take_every_face(face: FaceMarks, width: int, height: int)
    requires
        0 <= width <= BOX_REACH,
        0 <= height <= BOX_REACH,
        face.rect.nonempty(),
    ensures
        face.placeable(width, height),
{
}

/// Draws a cross of colour `color` at `at`, as far as it lies in the frame.
pub fn place_cross(frame: &mut RgbaFrame, color: Color, at: Marker)
    requires
        old(frame).wf(),
        at.placeable(old(frame).width as int, old(frame).height as int),
    ensures
        final(frame).wf(),
        final(frame).width == old(frame).width,
        final(frame).height == old(frame).height,
        final(frame).data@ == cross_drawn(old(frame).data@, old(frame).width as int, color, at),
{
    if at.is_drawable() {
        draw_cross(frame, color, at);
    } else {
        proof {
            lemma_cross_off_frame(
                frame.data@,
                frame.width as int,
                frame.height as int,
                color,
                at,
            );
        }
    }
}

/// Draws the outline of `rect` in colour `color`, as far as it lies in the
/// frame.
pub fn place_box(frame: &mut RgbaFrame, color: Color, rect: FaceBox)
    requires
        old(frame).wf(),
        rect.placeable(old(frame).width as int, old(frame).height as int),
    ensures
        final(frame).wf(),
        final(frame).width == old(frame).width,
        final(frame).height == old(frame).height,
        final(frame).data@ == box_drawn(old(frame).data@, old(frame).width as int, color, rect),
{
    proof {
        lemma_box_near_frame(frame.data@, frame.width as int, frame.height as int, color, rect);
    }
    match rect.clip(frame.width, frame.height) {
        Some(near) => draw_box(frame, color, near),
        None => {},
    }
}

/// Draws the overlay of one face over the frame: the box in blue, a green
/// cross on each landmark in order, and a red cross on each pupil.
pub fn draw_face(frame: &mut RgbaFrame, face: &FaceMarks)
    requires
        old(frame).wf(),
        face.placeable(old(frame).width as int, old(frame).height as int),
    ensures
        final(frame).wf(),
        final(frame).width == old(frame).width,
        final(frame).height == old(frame).height,
        final(frame).data@ == face_drawn(old(frame).data@, old(frame).width as int, *face),
{
    let ghost width = frame.width as int;
    place_box(frame, Color { r: 0, g: 0, b: 255, a: 255 }, face.rect);
    let ghost boxed = frame.data@;
    let mut i: usize = 0;
    while i < face.shape.len()
        invariant
            i <= face.shape@.len(),
            face.placeable(width, old(frame).height as int),
            frame.wf(),
            frame.width == width,
            frame.height == old(frame).height,
            frame.data@ == crosses_drawn(boxed, width, landmark_color(), face.shape@.take(i as int)),
        decreases face.shape@.len() - i,
    {
        proof {
            let next = face.shape@.take(i + 1);
            assert(next.drop_last() =~= face.shape@.take(i as int));
            assert(next.last() == face.shape@[i as int]);
        }
        place_cross(frame, Color { r: 0, g: 255, b: 0, a: 255 }, face.shape[i]);
        i += 1;
    }
    assert(face.shape@.take(i as int) =~= face.shape@);
    place_cross(frame, Color { r: 255, g: 0, b: 0, a: 255 }, face.pupils.0);
    place_cross(frame, Color { r: 255, g: 0, b: 0, a: 255 }, face.pupils.1);
}

/// Draws the overlay of each face over the frame, in the order of `faces`.
pub fn draw_faces(frame: &mut RgbaFrame, faces: &Vec<FaceMarks>)
    requires
        old(frame).wf(),
        forall|k: int|
            0 <= k < faces@.len() ==> (#[trigger] faces@[k]).placeable(
                old(frame).width as int,
                old(frame).height as int,
            ),
    ensures
        final(frame).wf(),
        final(frame).width == old(frame).width,
        final(frame).height == old(frame).height,
        final(frame).data@ == faces_drawn(old(frame).data@, old(frame).width as int, faces@),
{
    let mut i: usize = 0;
    while i < faces.len()
        invariant
            i <= faces@.len(),
            forall|k: int|
                0 <= k < faces@.len() ==> (#[trigger] faces@[k]).placeable(
                    old(frame).width as int,
                    old(frame).height as int,
                ),
            frame.wf(),
            frame.width == old(frame).width,
            frame.height == old(frame).height,
            frame.data@ == faces_drawn(
                old(frame).data@,
                old(frame).width as int,
                faces@.take(i as int),
            ),
        decreases faces@.len() - i,
    {
        proof {
            let next = faces@.take(i + 1);
            assert(next.drop_last() =~= faces@.take(i as int));
            assert(next.last() == faces@[i as int]);
        }
        draw_face(frame, &faces[i]);
        i += 1;
    }
    assert(faces@.take(i as int) =~= faces@);
}

} // verus!
