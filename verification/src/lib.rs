//! Winding normalisation for polygons on an integer coordinate grid.
//!
//! The exterior ring of a normalised polygon runs clockwise and its interior
//! rings run counter-clockwise. Normalising only ever reverses a ring: the
//! coordinates of a ring, and whether it is closed, are never changed.
//!
//! Coordinates are `i32` grid positions, so the signed area of a ring is
//! computed exactly and every contract is stated over mathematical integers.
//!
//! - [`winding`] says what the winding of a ring is, by the sign of its
//!   shoelace sum, and what reversing a ring does to it.
//! - [`normalized`] holds the trait [`Normalized`] and its implementations for
//!   [`Polygon`], [`MultiPolygon`] and [`GeometryCollection`].
//! - [`laws`] holds what is proved of normal forms: that normalising is
//!   idempotent, that it leaves every ring running the right way and in its
//!   shape, and that it changes nothing else.

pub mod coord;
pub mod geometry;
pub mod laws;
pub mod line_string;
pub mod multi_polygon;
pub mod normalized;
pub mod polygon;
pub mod winding;

pub use coord::Coord;
pub use geometry::{
    Geometry, GeometryCollection, GeometryView, Line, MultiLineString, MultiPoint, Point, Rect,
    Triangle,
};
pub use line_string::LineString;
pub use multi_polygon::MultiPolygon;
pub use normalized::Normalized;
pub use polygon::{Polygon, PolygonView};
pub use winding::{must_reverse, reversed, RingRole, WindingOrder};
