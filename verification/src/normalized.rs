//! Normalising the winding of polygons, of lists of polygons and of the
//! polygons among the members of a geometry collection.

use vstd::prelude::*;
use crate::geometry::{Geometry, GeometryCollection, GeometryView};
use crate::line_string::LineString;
use crate::multi_polygon::MultiPolygon;
use crate::polygon::{Polygon, PolygonView};
use crate::coord::Coord;
use crate::laws::{
    lemma_normal_collection_idempotent, lemma_normal_multi_polygon_idempotent,
    lemma_normal_polygon_idempotent, lemma_normal_polygon_keeps_shape,
    lemma_normal_polygon_winding,
};
use crate::winding::{
    is_closed, lemma_oriented_keeps_shape, oriented, ring_kept, winding_of, RingRole,
    WindingOrder,
};

verus! {

/// The normal form of a polygon: its exterior ring made to run clockwise and
/// each interior ring made to run counter-clockwise, the interior rings in
/// their order.
pub open spec fn normal_polygon(polygon: PolygonView) -> PolygonView {
    PolygonView {
        exterior: oriented(polygon.exterior, RingRole::Exterior.winding()),
        interiors: polygon.interiors.map_values(
            |ring: Seq<Coord>| oriented(ring, RingRole::Interior.winding()),
        ),
    }
}

/// Whether a polygon is in normal form: its exterior ring does not run
/// counter-clockwise and none of its interior rings runs clockwise. A ring
/// whose signed area is zero runs neither way and is in order in either
/// place.
pub open spec fn is_normal_polygon(polygon: PolygonView) -> bool {
    &&& winding_of(polygon.exterior) != Some(WindingOrder::CounterClockwise)
    &&& forall|i: int|
        0 <= i < polygon.interiors.len() ==> winding_of(#[trigger] polygon.interiors[i]) != Some(
            WindingOrder::Clockwise,
        )
}

/// The normal form of a list of polygons: the normal form of each, in order.
pub open spec fn normal_multi_polygon(polygons: Seq<PolygonView>) -> Seq<PolygonView> {
    polygons.map_values(|polygon: PolygonView| normal_polygon(polygon))
}

/// The normal form of one geometry: that of a polygon or of a list of
/// polygons, and the geometry itself for every other kind. A collection is
/// such another kind: its members are not looked at.
pub open spec fn normal_geometry(geometry: GeometryView) -> GeometryView {
    match geometry {
        GeometryView::Polygon(polygon) => GeometryView::Polygon(normal_polygon(polygon)),
        GeometryView::MultiPolygon(polygons) => GeometryView::MultiPolygon(
            normal_multi_polygon(polygons),
        ),
        _ => geometry,
    }
}

/// The normal form of a geometry collection: the normal form of each member,
/// in order.
pub open spec fn normal_collection(members: Seq<GeometryView>) -> Seq<GeometryView> {
    members.map_values(|geometry: GeometryView| normal_geometry(geometry))
}

/// Geometries whose polygons can be brought into normal form, where every
/// exterior ring runs clockwise and every interior ring counter-clockwise.
pub trait Normalized: View + Sized {
    /// The normal form of a value.
    spec fn normal_form(value: Self::V) -> Self::V;

    /// A copy of `self` in normal form. Rings that run the wrong way are
    /// reversed; nothing else differs from `self`. The copy is its own normal
    /// form.
    fn normalized(&self) -> (out: Self)
        ensures
            out@ == Self::normal_form(self@),
            Self::normal_form(out@) == out@,
    ;
}

/// A copy of `polygon` whose exterior ring runs clockwise and whose interior
/// rings run counter-clockwise.
fn normalized_polygon(polygon: &Polygon) -> (out: Polygon)
    ensures
        out@ == normal_polygon(polygon@),
        is_normal_polygon(out@),
        out@.rings_closed(),
{
    let exterior = polygon.exterior().oriented(RingRole::Exterior.winding());
    let rings = polygon.interiors();
    let mut interiors: Vec<LineString> = Vec::with_capacity(rings.len());
    let mut i: usize = 0;
    while i < rings.len()
        invariant
            i <= rings.len(),
            interiors@.len() == i,
            forall|j: int|
                0 <= j < i ==> interiors@[j]@ == oriented(
                    rings@[j]@,
                    WindingOrder::CounterClockwise,
                ),
        decreases rings.len() - i,
    {
        interiors.push(rings[i].oriented(RingRole::Interior.winding()));
        i = i + 1;
    }
    proof {
        lemma_oriented_keeps_shape(polygon@.exterior, WindingOrder::Clockwise);
        assert forall|j: int| 0 <= j < interiors@.len() implies is_closed(
            #[trigger] interiors@[j]@,
        ) by {
            lemma_oriented_keeps_shape(rings@[j]@, WindingOrder::CounterClockwise);
        }
    }
    let ghost wanted = normal_polygon(polygon@);
    let out = Polygon::new(exterior, interiors);
    proof {
        assert(out@.interiors =~= wanted.interiors) by {
            assert forall|j: int| 0 <= j < wanted.interiors.len() implies out@.interiors[j]
                == wanted.interiors[j] by {
                assert(polygon@.interiors[j] == rings@[j]@);
            }
        }
        lemma_normal_polygon_winding(polygon@);
    }
    out
}

impl Normalized for Polygon {
    open spec fn normal_form(value: PolygonView) -> PolygonView {
        normal_polygon(value)
    }

    fn normalized(&self) -> (out: Self)
        ensures
            is_normal_polygon(out@),
            out@.rings_closed(),
            ring_kept(self@.exterior, out@.exterior),
            out@.interiors.len() == self@.interiors.len(),
            forall|i: int|
                0 <= i < self@.interiors.len() ==> ring_kept(
                    self@.interiors[i],
                    #[trigger] out@.interiors[i],
                ),
    {
        proof {
            lemma_normal_polygon_idempotent(self@);
            lemma_normal_polygon_keeps_shape(self@);
        }
        normalized_polygon(self)
    }
}

impl Normalized for MultiPolygon {
    open spec fn normal_form(value: Seq<PolygonView>) -> Seq<PolygonView> {
        normal_multi_polygon(value)
    }

    fn normalized(&self) -> (out: Self)
        ensures
            out@.len() == self@.len(),
            forall|i: int| 0 <= i < self@.len() ==> out@[i] == normal_polygon(#[trigger] self@[i]),
            forall|i: int| 0 <= i < out@.len() ==> is_normal_polygon(#[trigger] out@[i]),
    {
        let mut polygons: Vec<Polygon> = Vec::with_capacity(self.0.len());
        let mut i: usize = 0;
        while i < self.0.len()
            invariant
                i <= self.0.len(),
                polygons@.len() == i,
                forall|j: int| 0 <= j < i ==> polygons@[j]@ == normal_polygon(self.0@[j]@),
                forall|j: int| 0 <= j < i ==> is_normal_polygon(polygons@[j]@),
            decreases self.0.len() - i,
        {
            polygons.push(self.0[i].normalized());
            i = i + 1;
        }
        let out = MultiPolygon(polygons);
        proof {
            assert(out@ =~= normal_multi_polygon(self@));
            lemma_normal_multi_polygon_idempotent(self@);
        }
        out
    }
}

/// A copy of `geometry`, in normal form where it is a polygon or a list of
/// polygons.
fn normalized_geometry(geometry: &Geometry) -> (out: Geometry)
    ensures
        out@ == normal_geometry(geometry@),
{
    match geometry {
        Geometry::Polygon(polygon) => Geometry::Polygon(polygon.normalized()),
        Geometry::MultiPolygon(polygons) => Geometry::MultiPolygon(polygons.normalized()),
        other => other.clone(),
    }
}

impl Normalized for GeometryCollection {
    open spec fn normal_form(value: Seq<GeometryView>) -> Seq<GeometryView> {
        normal_collection(value)
    }

    fn normalized(&self) -> (out: Self)
        ensures
            out@.len() == self@.len(),
            forall|i: int|
                0 <= i < self@.len() ==> out@[i] == normal_geometry(#[trigger] self@[i]),
            forall|i: int|
                0 <= i < self@.len() && !(self@[i] is Polygon) && !(self@[i] is MultiPolygon)
                    ==> out@[i] == #[trigger] self@[i],
    {
        let mut members: Vec<Geometry> = Vec::with_capacity(self.0.len());
        let mut i: usize = 0;
        while i < self.0.len()
            invariant
                i <= self.0.len(),
                members@.len() == i,
                forall|j: int| 0 <= j < i ==> members[j]@ == normal_geometry(self.0[j]@),
            decreases self.0.len() - i,
        {
            members.push(normalized_geometry(&self.0[i]));
            i = i + 1;
        }
        let out = GeometryCollection(members);
        proof {
            assert(out@ =~= normal_collection(self@));
            lemma_normal_collection_idempotent(self@);
        }
        out
    }
}

} // verus!
