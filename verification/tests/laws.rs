use geo_normalized::{
    Coord, Geometry, GeometryCollection, LineString, MultiPolygon, Normalized, Point, Polygon,
};

fn samples() -> Vec<Polygon> {
    vec![
        Polygon::new(LineString::new(vec![]), vec![]),
        Polygon::new(
            LineString::from(vec![(1, 1), (4, 1), (4, 4), (1, 4), (1, 1)]),
            vec![],
        ),
        Polygon::new(
            LineString::from(vec![(1, 1), (1, 4), (4, 4), (4, 1), (1, 1)]),
            vec![],
        ),
        Polygon::new(
            LineString::from(vec![(0, 0), (50, 0), (50, 50), (0, 50)]),
            vec![
                LineString::from(vec![(10, 10), (10, 20), (20, 20), (20, 10)]),
                LineString::from(vec![(30, 30), (40, 30), (40, 40), (30, 40)]),
                LineString::from(vec![(5, 5), (6, 6), (7, 7)]),
            ],
        ),
        Polygon::new(
            LineString::from(vec![(0, 0), (-1, 0), (0, -1), (0, 4), (4, 0), (0, 0)]),
            vec![LineString::from(vec![(0, 0), (2, 2), (2, 0), (0, 2), (0, 0)])],
        ),
        Polygon::new(
            LineString::from(vec![
                (i32::MIN, i32::MIN),
                (i32::MAX, i32::MIN),
                (i32::MAX, i32::MAX),
                (i32::MIN, i32::MAX),
            ]),
            vec![LineString::from(vec![(-3, -3), (-3, 3), (3, 3), (3, -3)])],
        ),
    ]
}

fn sorted(ring: &LineString) -> Vec<(i32, i32)> {
    let mut pairs: Vec<(i32, i32)> = ring.0.iter().map(|c: &Coord| (c.x, c.y)).collect();
    pairs.sort();
    pairs
}

fn kept(before: &LineString, after: &LineString) {
    assert!(after == before || *after == before.reversed());
    assert_eq!(sorted(after), sorted(before));
    assert_eq!(after.is_closed(), before.is_closed());
}

#[test]
fn normalizing_twice_is_normalizing_once() {
    for polygon in samples() {
        let once = polygon.normalized();
        assert_eq!(once.normalized(), once);
    }
    let list = MultiPolygon::new(samples()).normalized();
    assert_eq!(list.normalized(), list);
    let members: Vec<Geometry> = samples().into_iter().map(Geometry::Polygon).collect();
    let collection = GeometryCollection::new(members).normalized();
    assert_eq!(collection.normalized(), collection);
}

#[test]
fn normalized_rings_run_the_right_way() {
    for polygon in samples() {
        let out = polygon.normalized();
        assert!(!out.exterior().is_counter_clockwise());
        assert!(out.exterior().twice_signed_area() <= 0);
        assert_eq!(
            out.exterior().twice_signed_area(),
            -polygon.exterior().twice_signed_area().abs()
        );
        if polygon.exterior().twice_signed_area() != 0 {
            assert!(out.exterior().is_clockwise());
        }
        for (before, after) in polygon.interiors().iter().zip(out.interiors()) {
            assert!(!after.is_clockwise());
            assert_eq!(after.twice_signed_area(), before.twice_signed_area().abs());
            if before.twice_signed_area() != 0 {
                assert!(after.is_counter_clockwise());
            }
        }
    }
}

#[test]
fn normalizing_keeps_the_coordinates_of_each_ring() {
    for polygon in samples() {
        let out = polygon.normalized();
        kept(polygon.exterior(), out.exterior());
        assert_eq!(out.interiors().len(), polygon.interiors().len());
        for (before, after) in polygon.interiors().iter().zip(out.interiors()) {
            kept(before, after);
        }
    }
}

#[test]
fn polygon_in_normal_form_is_not_changed() {
    for polygon in samples() {
        let in_order = !polygon.exterior().is_counter_clockwise()
            && polygon.interiors().iter().all(|ring| !ring.is_clockwise());
        assert_eq!(polygon.normalized() == polygon, in_order);
    }
}

#[test]
fn multi_polygon_keeps_length_and_order() {
    let list = MultiPolygon::new(samples());
    let out = list.normalized();
    assert_eq!(out.0.len(), list.0.len());
    for (before, after) in list.0.iter().zip(out.0.iter()) {
        assert_eq!(*after, before.normalized());
        assert!(!after.exterior().is_counter_clockwise());
        assert!(after.interiors().iter().all(|ring| !ring.is_clockwise()));
    }
}

#[test]
fn collection_changes_only_polygons_and_lists_of_polygons() {
    let mut members: Vec<Geometry> = Vec::new();
    for (i, polygon) in samples().into_iter().enumerate() {
        members.push(Geometry::Point(Point(Coord::new(i as i32, 0))));
        members.push(Geometry::LineString(polygon.exterior().clone()));
        members.push(Geometry::Polygon(polygon));
    }
    members.push(Geometry::MultiPolygon(MultiPolygon::new(samples())));
    members.push(Geometry::GeometryCollection(GeometryCollection::new(
        samples().into_iter().map(Geometry::Polygon).collect(),
    )));
    let collection = GeometryCollection::new(members);
    let out = collection.normalized();
    assert_eq!(out.0.len(), collection.0.len());
    for (before, after) in collection.0.iter().zip(out.0.iter()) {
        match (before, after) {
            (Geometry::Polygon(p), Geometry::Polygon(q)) => assert_eq!(*q, p.normalized()),
            (Geometry::MultiPolygon(p), Geometry::MultiPolygon(q)) => {
                assert_eq!(*q, p.normalized())
            }
            (Geometry::Polygon(_), _) | (Geometry::MultiPolygon(_), _) => {
                panic!("a polygon changed its kind")
            }
            _ => assert_eq!(after, before),
        }
    }
}
