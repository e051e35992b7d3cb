//! The closed set of geometry kinds, and ordered collections of them.

use vstd::prelude::*;
use crate::coord::Coord;
use crate::line_string::{rings_view, LineString};
use crate::multi_polygon::MultiPolygon;
use crate::polygon::{Polygon, PolygonView};

verus! {

/// A single position.
#[derive(Clone, Copy, Debug, PartialEq, Eq, Hash, Structural)]
pub struct Point(pub Coord);

/// The segment between two positions.
#[derive(Clone, Copy, Debug, PartialEq, Eq, Hash, Structural)]
pub struct Line {
    pub start: Coord,
    pub end: Coord,
}

/// An axis-aligned rectangle, given by two opposite corners.
#[derive(Clone, Copy, Debug, PartialEq, Eq, Hash, Structural)]
pub struct Rect {
    pub min: Coord,
    pub max: Coord,
}

/// A triangle, given by its three corners.
#[derive(Clone, Copy, Debug, PartialEq, Eq, Hash, Structural)]
pub struct Triangle(pub Coord, pub Coord, pub Coord);

/// An ordered list of points.
#[derive(Debug, PartialEq, Eq, Hash)]
pub struct MultiPoint(pub Vec<Point>);

/// An ordered list of line strings.
#[derive(Debug, PartialEq, Eq, Hash)]
pub struct MultiLineString(pub Vec<LineString>);

/// A geometry of any kind.
#[derive(Debug, PartialEq, Eq, Hash)]
pub enum Geometry {
    Point(Point),
    Line(Line),
    LineString(LineString),
    Polygon(Polygon),
    MultiPoint(MultiPoint),
    MultiLineString(MultiLineString),
    MultiPolygon(MultiPolygon),
    GeometryCollection(GeometryCollection),
    Rect(Rect),
    Triangle(Triangle),
}

/// An ordered list of geometries of any kind, collections among them.
#[derive(Debug, PartialEq, Eq, Hash)]
pub struct GeometryCollection(pub Vec<Geometry>);

/// A geometry as a mathematical value.
pub enum GeometryView {
    Point(Point),
    Line(Line),
    LineString(Seq<Coord>),
    Polygon(PolygonView),
    MultiPoint(Seq<Point>),
    MultiLineString(Seq<Seq<Coord>>),
    MultiPolygon(Seq<PolygonView>),
    GeometryCollection(Seq<GeometryView>),
    Rect(Rect),
    Triangle(Triangle),
}

impl View for MultiPoint {
    type V = Seq<Point>;

    open spec fn view(&self) -> Seq<Point> {
        self.0@
    }
}

impl View for MultiLineString {
    type V = Seq<Seq<Coord>>;

    open spec fn view(&self) -> Seq<Seq<Coord>> {
        rings_view(self.0@)
    }
}

impl View for Geometry {
    type V = GeometryView;

    open spec fn view(&self) -> GeometryView
        decreases self,
    {
        match self {
            Geometry::Point(g) => GeometryView::Point(*g),
            Geometry::Line(g) => GeometryView::Line(*g),
            Geometry::LineString(g) => GeometryView::LineString(g@),
            Geometry::Polygon(g) => GeometryView::Polygon(g@),
            Geometry::MultiPoint(g) => GeometryView::MultiPoint(g@),
            Geometry::MultiLineString(g) => GeometryView::MultiLineString(g@),
            Geometry::MultiPolygon(g) => GeometryView::MultiPolygon(g@),
            Geometry::GeometryCollection(g) => GeometryView::GeometryCollection(g.view()),
            Geometry::Rect(g) => GeometryView::Rect(*g),
            Geometry::Triangle(g) => GeometryView::Triangle(*g),
        }
    }
}

impl View for GeometryCollection {
    type V = Seq<GeometryView>;

    open spec fn view(&self) -> Seq<GeometryView>
        decreases self,
    {
        Seq::new(
            self.0.len() as nat,
            |i: int|
                if 0 <= i < self.0.len() {
                    self.0[i].view()
                } else {
                    arbitrary()
                },
        )
    }
}

impl Clone for MultiPoint {
    fn clone(&self) -> (out: Self)
        ensures
            out@ == self@,
    {
        let mut points: Vec<Point> = Vec::with_capacity(self.0.len());
        let mut i: usize = 0;
        while i < self.0.len()
            invariant
                i <= self.0.len(),
                points@ == self.0@.take(i as int),
            decreases self.0.len() - i,
        {
            points.push(self.0[i]);
            i = i + 1;
        }
        MultiPoint(points)
    }
}

impl Clone for MultiLineString {
    fn clone(&self) -> (out: Self)
        ensures
            out@ == self@,
    {
        let mut lines: Vec<LineString> = Vec::with_capacity(self.0.len());
        let mut i: usize = 0;
        while i < self.0.len()
            invariant
                i <= self.0.len(),
                lines@.len() == i,
                forall|j: int| 0 <= j < i ==> lines@[j]@ == self.0@[j]@,
            decreases self.0.len() - i,
        {
            lines.push(self.0[i].clone());
            i = i + 1;
        }
        let out = MultiLineString(lines);
        assert(out@ =~= self@);
        out
    }
}

impl Clone for Geometry {
    fn clone(&self) -> (out: Self)
        ensures
            out@ == self@,
        decreases self,
    {
        match self {
            Geometry::Point(g) => Geometry::Point(*g),
            Geometry::Line(g) => Geometry::Line(*g),
            Geometry::LineString(g) => Geometry::LineString(g.clone()),
            Geometry::Polygon(g) => Geometry::Polygon(g.clone()),
            Geometry::MultiPoint(g) => Geometry::MultiPoint(g.clone()),
            Geometry::MultiLineString(g) => Geometry::MultiLineString(g.clone()),
            Geometry::MultiPolygon(g) => Geometry::MultiPolygon(g.clone()),
            Geometry::GeometryCollection(g) => Geometry::GeometryCollection(g.clone()),
            Geometry::Rect(g) => Geometry::Rect(*g),
            Geometry::Triangle(g) => Geometry::Triangle(*g),
        }
    }
}

impl Clone for GeometryCollection {
    fn clone(&self) -> (out: Self)
        ensures
            out@ == self@,
        decreases self,
    {
        let mut geometries: Vec<Geometry> = Vec::with_capacity(self.0.len());
        let mut i: usize = 0;
        while i < self.0.len()
            invariant
                i <= self.0.len(),
                geometries@.len() == i,
                forall|j: int| 0 <= j < i ==> geometries[j]@ == self.0[j]@,
            decreases self.0.len() - i,
        {
            geometries.push(self.0[i].clone());
            i = i + 1;
        }
        let out = GeometryCollection(geometries);
        assert(out@ =~= self@);
        out
    }
}

impl GeometryCollection {
    /// The collection of `geometries`, in order.
    pub fn new(geometries: Vec<Geometry>) -> (out: GeometryCollection)
        ensures
            out.0 == geometries,
    {
        GeometryCollection(geometries)
    }
}

} // verus!
