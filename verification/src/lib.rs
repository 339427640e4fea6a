//! Verified core of a browser face annotator.
//!
//! A raw video frame is converted to RGB and split into a grey image for the
//! detector and an RGBA image for the canvas; for each face the eye corners
//! that seed the pupil search are picked from its five-point landmark shape;
//! and the overlay of each face is drawn over the RGBA image.

pub mod convert;
pub mod frame;
pub mod overlay;
pub mod shape;
pub mod split;
