//! What holds of normal forms, for every polygon, list of polygons and
//! geometry collection.

use vstd::prelude::*;
use crate::geometry::GeometryView;
use crate::normalized::{
    is_normal_polygon, normal_collection, normal_geometry, normal_multi_polygon, normal_polygon,
};
use crate::polygon::PolygonView;
use crate::winding::{
    is_closed, lemma_oriented_fixed_point, lemma_oriented_keeps_shape, lemma_oriented_runs_as_wanted,
    lemma_oriented_twice, ring_kept, ring_runs_as, winding_of, WindingOrder,
};

verus! {

/// Normalising is idempotent: the normal form of a polygon in normal form is
/// that polygon.
pub proof fn lemma_normal_polygon_idempotent(polygon: PolygonView)
    ensures
        normal_polygon(normal_polygon(polygon)) == normal_polygon(polygon),
{
    let once = normal_polygon(polygon);
    let twice = normal_polygon(once);
    lemma_oriented_twice(polygon.exterior, WindingOrder::Clockwise);
    assert forall|i: int| 0 <= i < once.interiors.len() implies twice.interiors[i]
        == once.interiors[i] by {
        lemma_oriented_twice(polygon.interiors[i], WindingOrder::CounterClockwise);
    }
    assert(twice.interiors =~= once.interiors);
}

/// Normalising a list of polygons is idempotent.
pub proof fn lemma_normal_multi_polygon_idempotent(polygons: Seq<PolygonView>)
    ensures
        normal_multi_polygon(normal_multi_polygon(polygons)) == normal_multi_polygon(polygons),
{
    let once = normal_multi_polygon(polygons);
    assert forall|i: int| 0 <= i < once.len() implies normal_multi_polygon(once)[i]
        == once[i] by {
        lemma_normal_polygon_idempotent(polygons[i]);
    }
    assert(normal_multi_polygon(once) =~= once);
}

/// Normalising a geometry collection is idempotent.
pub proof fn lemma_normal_collection_idempotent(members: Seq<GeometryView>)
    ensures
        normal_collection(normal_collection(members)) == normal_collection(members),
{
    let once = normal_collection(members);
    assert forall|i: int| 0 <= i < once.len() implies normal_collection(once)[i] == once[i] by {
        match members[i] {
            GeometryView::Polygon(polygon) => lemma_normal_polygon_idempotent(polygon),
            GeometryView::MultiPolygon(polygons) => lemma_normal_multi_polygon_idempotent(
                polygons,
            ),
            _ => {},
        }
    }
    assert(normal_collection(once) =~= once);
}

/// The normal form of a polygon is in normal form, by the sign of the
/// shoelace sum of each ring: its exterior ring runs clockwise and its
/// interior rings run counter-clockwise, but for the rings that have no
/// winding, which are the rings they were. The signed area of the exterior
/// ring is the negated magnitude of the one it had, and that of each interior
/// ring the magnitude of the one it had.
pub proof fn lemma_normal_polygon_winding(polygon: PolygonView)
    ensures
        is_normal_polygon(normal_polygon(polygon)),
        ring_runs_as(
            polygon.exterior,
            normal_polygon(polygon).exterior,
            WindingOrder::Clockwise,
        ),
        forall|i: int|
            0 <= i < polygon.interiors.len() ==> ring_runs_as(
                polygon.interiors[i],
                #[trigger] normal_polygon(polygon).interiors[i],
                WindingOrder::CounterClockwise,
            ),
{
    let out = normal_polygon(polygon);
    lemma_oriented_runs_as_wanted(polygon.exterior, WindingOrder::Clockwise);
    assert forall|i: int| 0 <= i < out.interiors.len() implies ring_runs_as(
        polygon.interiors[i],
        #[trigger] out.interiors[i],
        WindingOrder::CounterClockwise,
    ) by {
        lemma_oriented_runs_as_wanted(polygon.interiors[i], WindingOrder::CounterClockwise);
    }
}

/// Normalising keeps the shape of a polygon. It has as many interior rings
/// as before, in the same places. Each ring of the normal form is the ring
/// it stands for or that ring reversed: it holds the same coordinates, each
/// as often, and is closed exactly when that ring is.
pub proof fn lemma_normal_polygon_keeps_shape(polygon: PolygonView)
    ensures
        ring_kept(polygon.exterior, normal_polygon(polygon).exterior),
        normal_polygon(polygon).interiors.len() == polygon.interiors.len(),
        forall|i: int|
            0 <= i < polygon.interiors.len() ==> ring_kept(
                polygon.interiors[i],
                #[trigger] normal_polygon(polygon).interiors[i],
            ),
        polygon.rings_closed() ==> normal_polygon(polygon).rings_closed(),
{
    let out = normal_polygon(polygon);
    lemma_oriented_keeps_shape(polygon.exterior, WindingOrder::Clockwise);
    assert forall|i: int| 0 <= i < polygon.interiors.len() implies ring_kept(
        polygon.interiors[i],
        #[trigger] out.interiors[i],
    ) by {
        lemma_oriented_keeps_shape(polygon.interiors[i], WindingOrder::CounterClockwise);
    }
    if polygon.rings_closed() {
        assert forall|i: int| 0 <= i < out.interiors.len() implies is_closed(
            #[trigger] out.interiors[i],
        ) by {
            assert(ring_kept(polygon.interiors[i], out.interiors[i]));
        }
    }
}

/// A polygon is its own normal form exactly when it is in normal form. So
/// normalising changes nothing in a polygon whose exterior ring runs
/// clockwise and whose interior rings run counter-clockwise.
pub proof fn lemma_normal_polygon_fixed_point(polygon: PolygonView)
    ensures
        normal_polygon(polygon) == polygon <==> is_normal_polygon(polygon),
{
    let out = normal_polygon(polygon);
    lemma_oriented_fixed_point(polygon.exterior, WindingOrder::Clockwise);
    assert forall|i: int| 0 <= i < polygon.interiors.len() implies (#[trigger] out.interiors[i]
        == polygon.interiors[i] <==> winding_of(polygon.interiors[i]) != Some(
        WindingOrder::Clockwise,
    )) by {
        lemma_oriented_fixed_point(polygon.interiors[i], WindingOrder::CounterClockwise);
    }
    if is_normal_polygon(polygon) {
        assert(out.interiors =~= polygon.interiors);
    }
}

/// Normalising a list of polygons keeps their number and their order: each
/// place holds the normal form of the polygon that stood there, which is in
/// normal form.
pub proof fn lemma_normal_multi_polygon_keeps_order(polygons: Seq<PolygonView>)
    ensures
        normal_multi_polygon(polygons).len() == polygons.len(),
        forall|i: int|
            0 <= i < polygons.len() ==> #[trigger] normal_multi_polygon(polygons)[i]
                == normal_polygon(polygons[i]),
        forall|i: int|
            0 <= i < polygons.len() ==> is_normal_polygon(
                #[trigger] normal_multi_polygon(polygons)[i],
            ),
{
    assert forall|i: int| 0 <= i < polygons.len() implies is_normal_polygon(
        #[trigger] normal_multi_polygon(polygons)[i],
    ) by {
        lemma_normal_polygon_winding(polygons[i]);
    }
}

/// Normalising a geometry collection keeps the number and the order of its
/// members. A polygon is replaced by its normal form and a list of polygons
/// by its normal form; a member of any other kind, a collection among them,
/// stays as it is.
pub proof fn lemma_normal_collection_passes_through(members: Seq<GeometryView>)
    ensures
        normal_collection(members).len() == members.len(),
        forall|i: int|
            0 <= i < members.len() ==> #[trigger] normal_collection(members)[i] == (
            match members[i] {
                GeometryView::Polygon(polygon) => GeometryView::Polygon(normal_polygon(polygon)),
                GeometryView::MultiPolygon(polygons) => GeometryView::MultiPolygon(
                    normal_multi_polygon(polygons),
                ),
                other => other,
            }),
        forall|i: int|
            0 <= i < members.len() && !(members[i] is Polygon) && !(members[i] is MultiPolygon)
                ==> #[trigger] normal_collection(members)[i] == members[i],
{
    assert forall|i: int| 0 <= i < members.len() implies #[trigger] normal_collection(members)[i]
        == normal_geometry(members[i]) by {}
}

} // verus!
