use geo_normalized::{
    Coord, Geometry, GeometryCollection, Line, LineString, MultiLineString, MultiPoint,
    MultiPolygon, Normalized, Point, Polygon, Rect, Triangle,
};

fn bad_square() -> Polygon {
    Polygon::new(
        LineString::from(vec![(1, 1), (4, 1), (4, 4), (1, 4), (1, 1)]),
        vec![],
    )
}

fn good_square() -> Polygon {
    Polygon::new(
        LineString::from(vec![(1, 1), (1, 4), (4, 4), (4, 1), (1, 1)]),
        vec![],
    )
}

fn bad_with_hole() -> Polygon {
    Polygon::new(
        LineString::from(vec![(0, 0), (50, 0), (50, 50), (0, 50)]),
        vec![LineString::from(vec![(10, 10), (10, 20), (20, 20), (20, 10)])],
    )
}

fn good_with_hole() -> Polygon {
    Polygon::new(
        LineString::from(vec![(0, 0), (0, 50), (50, 50), (50, 0)]),
        vec![LineString::from(vec![(10, 10), (20, 10), (20, 20), (10, 20)])],
    )
}

/// One geometry of each kind that is neither a polygon nor a list of
/// polygons; the line strings among them run counter-clockwise.
fn others() -> Vec<Geometry> {
    let ring = LineString::from(vec![(1, 1), (4, 1), (4, 4), (1, 4), (1, 1)]);
    vec![
        Geometry::Point(Point(Coord::new(3, 4))),
        Geometry::Line(Line {
            start: Coord::new(0, 0),
            end: Coord::new(5, 5),
        }),
        Geometry::LineString(ring.clone()),
        Geometry::MultiPoint(MultiPoint(vec![
            Point(Coord::new(1, 2)),
            Point(Coord::new(3, 4)),
        ])),
        Geometry::MultiLineString(MultiLineString(vec![ring.clone(), ring.reversed()])),
        Geometry::Rect(Rect {
            min: Coord::new(0, 0),
            max: Coord::new(2, 3),
        }),
        Geometry::Triangle(Triangle(
            Coord::new(0, 0),
            Coord::new(2, 0),
            Coord::new(1, 2),
        )),
    ]
}

#[test]
fn polygon_member_is_normalized() {
    let collection = GeometryCollection::new(vec![Geometry::Polygon(bad_with_hole())]);
    assert_eq!(
        collection.normalized(),
        GeometryCollection::new(vec![Geometry::Polygon(good_with_hole())])
    );
}

#[test]
fn multi_polygon_member_is_normalized() {
    let collection = GeometryCollection::new(vec![Geometry::MultiPolygon(MultiPolygon::new(
        vec![good_square(), bad_square(), bad_with_hole()],
    ))]);
    assert_eq!(
        collection.normalized(),
        GeometryCollection::new(vec![Geometry::MultiPolygon(MultiPolygon::new(vec![
            good_square(),
            good_square(),
            good_with_hole(),
        ]))])
    );
}

#[test]
fn members_of_other_kinds_pass_through() {
    let collection = GeometryCollection::new(others());
    assert_eq!(collection.normalized(), GeometryCollection::new(others()));
}

#[test]
fn nested_collection_passes_through_unchanged() {
    let nested = GeometryCollection::new(vec![
        Geometry::Polygon(bad_square()),
        Geometry::MultiPolygon(MultiPolygon::new(vec![bad_with_hole()])),
    ]);
    let collection = GeometryCollection::new(vec![
        Geometry::GeometryCollection(nested.clone()),
        Geometry::Polygon(bad_square()),
    ]);
    assert_eq!(
        collection.normalized(),
        GeometryCollection::new(vec![
            Geometry::GeometryCollection(nested),
            Geometry::Polygon(good_square()),
        ])
    );
}

#[test]
fn order_and_number_of_members_are_kept() {
    let mut members = others();
    members.insert(2, Geometry::Polygon(bad_square()));
    members.push(Geometry::MultiPolygon(MultiPolygon::new(vec![bad_square()])));
    members.push(Geometry::Point(Point(Coord::new(-1, -1))));
    let mut expected = others();
    expected.insert(2, Geometry::Polygon(good_square()));
    expected.push(Geometry::MultiPolygon(MultiPolygon::new(vec![good_square()])));
    expected.push(Geometry::Point(Point(Coord::new(-1, -1))));
    let out = GeometryCollection::new(members).normalized();
    assert_eq!(out.0.len(), 10);
    assert_eq!(out, GeometryCollection::new(expected));
}

#[test]
fn empty_collection_is_its_own_normal_form() {
    let empty = GeometryCollection::new(vec![]);
    assert_eq!(empty.normalized(), empty);
}

#[test]
fn clone_of_a_collection_is_equal_to_it() {
    let mut members = others();
    members.push(Geometry::Polygon(bad_with_hole()));
    members.push(Geometry::GeometryCollection(GeometryCollection::new(others())));
    let collection = GeometryCollection::new(members);
    assert_eq!(collection.clone(), collection);
}
