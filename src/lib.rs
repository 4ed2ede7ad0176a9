//! The hand-drawn geometry engine of a diagram renderer: the decisions and
//! the exact, integer-valued parts of sketchy rendering, each with a
//! contract.
//!
//! - [`rng`]: the seeded generator every jittered pass draws from.
//! - [`spline`]: which points each Catmull-Rom piece is built from.
//! - [`arrowhead`]: arrowhead kinds and the tables that shape their caps.
//! - [`rough`]: how many passes a rough shape gets, with which seeds,
//!   jitter and opacity.
//! - [`clip`]: Cohen–Sutherland clipping decisions and hachure line offsets.
//! - [`shape`]: element kinds, fill styles, corner rules and elbow corners.
//! - [`color`]: colour strings and the visibility predicates.
//! - [`font`], [`svg`], [`text`]: font and alignment tags, SVG attribute
//!   values, XML escaping and line splitting.
//!
//! Coordinates themselves are floating point and are computed by the
//! caller from these decisions.
pub mod arrowhead;
pub mod clip;
pub mod color;
pub mod font;
pub mod rng;
pub mod rough;
pub mod shape;
pub mod spline;
pub mod svg;
pub mod text;
