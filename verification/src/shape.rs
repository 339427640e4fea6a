//! Five-point facial landmark shapes.
//!
//! A shape is an ordered run of exactly five points: the outer and inner
//! corner of the left eye, the outer and inner corner of the right eye, and
//! the nose. The code here is generic in the point type, so it never touches
//! a coordinate: it checks the length of a shape, maps labels to positions,
//! and picks for each eye the two corners between which its search window is
//! laid.

use vstd::prelude::*;

verus! {

/// Number of points in a well-formed shape.
pub const SHAPE_POINTS: usize = 5;

/// The label of a point in a five-point shape. A label's position in the
/// shape is fixed: see [`Shape5::position`].
#[derive(Clone, Copy, Debug, PartialEq, Eq, Structural)]
pub enum Shape5 {
    LeftOuterEyeCorner,
    LeftInnerEyeCorner,
    RightOuterEyeCorner,
    RightInnerEyeCorner,
    Nose,
}

/// A shape that does not hold exactly five points.
#[derive(Clone, Copy, Debug, PartialEq, Eq, Structural)]
pub struct ContractViolation {
    /// How many points the rejected shape held.
    pub points: usize,
}

/// The two corners that span one eye.
///
/// The eye's displacement vector runs from `origin` to `target`; the search
/// window is centred halfway along it and sized by its length.
#[derive(Clone, Copy, Debug, PartialEq)]
pub struct EyeSpan<P> {
    pub origin: P,
    pub target: P,
}

impl Shape5 {
    /// Position of the label within a shape.
    pub open spec fn position(self) -> int {
        match self {
            Shape5::LeftOuterEyeCorner => 0,
            Shape5::LeftInnerEyeCorner => 1,
            Shape5::RightOuterEyeCorner => 2,
            Shape5::RightInnerEyeCorner => 3,
            Shape5::Nose => 4,
        }
    }

    /// Position of the label within a shape, always below [`SHAPE_POINTS`].
    pub fn index(self) -> (i: usize)
        ensures
            i == self.position(),
            i < SHAPE_POINTS,
    {
        match self {
            Shape5::LeftOuterEyeCorner => 0,
            Shape5::LeftInnerEyeCorner => 1,
            Shape5::RightOuterEyeCorner => 2,
            Shape5::RightInnerEyeCorner => 3,
            Shape5::Nose => 4,
        }
    }

    /// The point of `shape` that carries this label.
    pub fn point<P: Copy>(self, shape: &[P]) -> (p: Result<P, ContractViolation>)
        ensures
            shape@.len() == SHAPE_POINTS ==> p == Ok::<P, ContractViolation>(
                shape@[self.position()],
            ),
            shape@.len() != SHAPE_POINTS ==> p == Err::<P, ContractViolation>(
                ContractViolation { points: shape@.len() as usize },
            ),
    {
        if shape.len() != SHAPE_POINTS {
            return Err(ContractViolation { points: shape.len() });
        }
        Ok(shape[self.index()])
    }

    /// The span of the left eye in `shape`: from the inner corner to the
    /// outer one.
    pub open spec fn left_span<P>(shape: Seq<P>) -> EyeSpan<P>
        recommends
            shape.len() == SHAPE_POINTS,
    {
        EyeSpan {
            origin: shape[Shape5::LeftInnerEyeCorner.position()],
            target: shape[Shape5::LeftOuterEyeCorner.position()],
        }
    }

    /// The span of the right eye in `shape`: from the outer corner to the
    /// inner one, the reverse of the left eye's direction.
    pub open spec fn right_span<P>(shape: Seq<P>) -> EyeSpan<P>
        recommends
            shape.len() == SHAPE_POINTS,
    {
        EyeSpan {
            origin: shape[Shape5::RightOuterEyeCorner.position()],
            target: shape[Shape5::RightInnerEyeCorner.position()],
        }
    }

    /// Picks the corner pairs of the left and the right eye, in that order.
    ///
    /// A shape of exactly five points always yields the two spans; any other
    /// length is rejected, and the error reports that length. The left span
    /// runs from the inner to the outer corner and the right span from the
    /// outer to the inner one. The midpoint and the length of a span do not
    /// depend on its direction; the displacement vector does, and its sign
    /// differs between the two eyes.
    pub fn find_eye_spans<P: Copy>(shape: &[P]) -> (r: Result<
        (EyeSpan<P>, EyeSpan<P>),
        ContractViolation,
    >)
        ensures
            shape@.len() == SHAPE_POINTS ==> r == Ok::<(EyeSpan<P>, EyeSpan<P>), ContractViolation>(
                (Shape5::left_span(shape@), Shape5::right_span(shape@)),
            ),
            shape@.len() != SHAPE_POINTS ==> r == Err::<
                (EyeSpan<P>, EyeSpan<P>),
                ContractViolation,
            >(ContractViolation { points: shape@.len() as usize }),
    {
        if shape.len() != SHAPE_POINTS {
            return Err(ContractViolation { points: shape.len() });
        }
        let left = EyeSpan {
            origin: shape[Shape5::LeftInnerEyeCorner.index()],
            target: shape[Shape5::LeftOuterEyeCorner.index()],
        };
        let right = EyeSpan {
            origin: shape[Shape5::RightOuterEyeCorner.index()],
            target: shape[Shape5::RightInnerEyeCorner.index()],
        };
        Ok((left, right))
    }
}

impl<P> EyeSpan<P> {
    /// The span whose two corners are the images of this span's corners
    /// under `f`.
    pub open spec fn map<Q>(self, f: spec_fn(P) -> Q) -> EyeSpan<Q> {
        EyeSpan { origin: f(self.origin), target: f(self.target) }
    }

    /// The same two corners, taken in the other direction.
    pub open spec fn reversed(self) -> EyeSpan<P> {
        EyeSpan { origin: self.target, target: self.origin }
    }
}

/// Every label has a position in a shape, and two different labels never
/// share one.
pub proof fn lemma_positions_distinct(a: Shape5, b: Shape5)
    ensures
        0 <= a.position() < SHAPE_POINTS,
        a != b ==> a.position() != b.position(),
{
}

/// A shape with the eyes exchanged: each corner of the left eye stands where
/// the like corner of the right eye stood, and the other way round.
pub open spec fn mirrored<P>(shape: Seq<P>) -> Seq<P>
    recommends
        shape.len() == SHAPE_POINTS,
{
    seq![
        shape[Shape5::RightOuterEyeCorner.position()],
        shape[Shape5::RightInnerEyeCorner.position()],
        shape[Shape5::LeftOuterEyeCorner.position()],
        shape[Shape5::LeftInnerEyeCorner.position()],
        shape[Shape5::Nose.position()],
    ]
}

/// The two eyes are spanned in opposite directions: with the eyes exchanged,
/// the left span is the old right span reversed, and the right span is the
/// old left span reversed.
pub proof fn lemma_spans_of_mirrored_shape<P>(shape: Seq<P>)
    requires
        shape.len() == SHAPE_POINTS,
    ensures
        mirrored(shape).len() == SHAPE_POINTS,
        Shape5::left_span(mirrored(shape)) == Shape5::right_span(shape).reversed(),
        Shape5::right_span(mirrored(shape)) == Shape5::left_span(shape).reversed(),
{
}

/// A shape whose points all coincide has, for either eye, the span from that
/// point to itself.
pub proof fn lemma_spans_of_collapsed_shape<P>(shape: Seq<P>, p: P)
    requires
        shape.len() == SHAPE_POINTS,
        forall|i: int| 0 <= i < shape.len() ==> shape[i] == p,
    ensures
        Shape5::left_span(shape) == (EyeSpan { origin: p, target: p }),
        Shape5::right_span(shape) == (EyeSpan { origin: p, target: p }),
{
}

/// Picking the eye spans commutes with any change made to every point alike:
/// the spans of the changed shape are the changed spans of the shape. A
/// translation of the whole shape, or a uniform scaling of it, is such a
/// change, so the corners that span each eye move exactly as the shape does.
pub proof fn lemma_spans_follow_pointwise_map<P, Q>(shape: Seq<P>, f: spec_fn(P) -> Q)
    requires
        shape.len() == SHAPE_POINTS,
    ensures
        Shape5::left_span(shape.map_values(f)) == Shape5::left_span(shape).map(f),
        Shape5::right_span(shape.map_values(f)) == Shape5::right_span(shape).map(f),
{
}

/// The corners chosen for an eye depend on those two points of the shape
/// alone: shapes that agree on the four eye corners have the same spans,
/// whatever stands at the nose.
pub proof fn lemma_spans_ignore_nose<P>(a: Seq<P>, b: Seq<P>)
    requires
        a.len() == SHAPE_POINTS,
        b.len() == SHAPE_POINTS,
        forall|l: Shape5| l != Shape5::Nose ==> a[l.position()] == b[#[trigger] l.position()],
    ensures
        Shape5::left_span(a) == Shape5::left_span(b),
        Shape5::right_span(a) == Shape5::right_span(b),
{
    assert(a[Shape5::LeftInnerEyeCorner.position()] == b[Shape5::LeftInnerEyeCorner.position()]);
    assert(a[Shape5::LeftOuterEyeCorner.position()] == b[Shape5::LeftOuterEyeCorner.position()]);
    assert(a[Shape5::RightInnerEyeCorner.position()] == b[Shape5::RightInnerEyeCorner.position()]);
    assert(a[Shape5::RightOuterEyeCorner.position()] == b[Shape5::RightOuterEyeCorner.position()]);
}

} // verus!
