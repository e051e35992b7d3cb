use geo_normalized::{Coord, LineString, MultiPolygon, Polygon};

#[test]
fn new_closes_the_rings_it_is_given() {
    let polygon = Polygon::new(
        LineString::from(vec![(0, 0), (0, 50), (50, 50), (50, 0)]),
        vec![
            LineString::from(vec![(10, 10), (20, 10), (20, 20), (10, 20)]),
            LineString::from(vec![(30, 30), (40, 30), (40, 40), (30, 30)]),
        ],
    );
    assert_eq!(
        polygon.exterior(),
        &LineString::from(vec![(0, 0), (0, 50), (50, 50), (50, 0), (0, 0)])
    );
    assert_eq!(polygon.interiors().len(), 2);
    assert_eq!(
        polygon.interiors()[0],
        LineString::from(vec![(10, 10), (20, 10), (20, 20), (10, 20), (10, 10)])
    );
    assert_eq!(
        polygon.interiors()[1],
        LineString::from(vec![(30, 30), (40, 30), (40, 40), (30, 30)])
    );
}

#[test]
fn new_keeps_closed_and_empty_rings_as_they_are() {
    let closed = LineString::from(vec![(1, 1), (1, 4), (4, 4), (4, 1), (1, 1)]);
    let polygon = Polygon::new(closed.clone(), vec![LineString::new(vec![])]);
    assert_eq!(polygon.exterior(), &closed);
    assert_eq!(polygon.interiors(), &[LineString::new(vec![])]);
}

#[test]
fn polygons_of_an_open_and_of_a_closed_listing_are_equal() {
    let open = Polygon::new(LineString::from(vec![(0, 0), (0, 5), (5, 5)]), vec![]);
    let closed = Polygon::new(
        LineString::from(vec![(0, 0), (0, 5), (5, 5), (0, 0)]),
        vec![],
    );
    assert_eq!(open, closed);
}

#[test]
fn into_inner_gives_the_rings_back() {
    let exterior = LineString::from(vec![(0, 0), (0, 9), (9, 9), (9, 0), (0, 0)]);
    let hole = LineString::from(vec![(1, 1), (2, 1), (2, 2), (1, 1)]);
    let (outer, inner) = Polygon::new(exterior.clone(), vec![hole.clone()]).into_inner();
    assert_eq!(outer, exterior);
    assert_eq!(inner, vec![hole]);
}

#[test]
fn clone_of_a_polygon_is_equal_to_it() {
    let polygon = Polygon::new(
        LineString::from(vec![(0, 0), (0, 9), (9, 9), (9, 0)]),
        vec![LineString::from(vec![(1, 1), (2, 1), (2, 2)])],
    );
    let copy = polygon.clone();
    assert_eq!(copy, polygon);
    assert_eq!(copy.exterior().0[1], Coord::new(0, 9));
}

#[test]
fn clone_of_a_multi_polygon_is_equal_to_it() {
    let first = Polygon::new(LineString::from(vec![(0, 0), (0, 9), (9, 9)]), vec![]);
    let second = Polygon::new(LineString::from(vec![(1, 1), (2, 1), (2, 2)]), vec![]);
    let list = MultiPolygon::new(vec![first.clone(), second.clone()]);
    assert_eq!(list.clone(), list);
    assert_eq!(list.0, vec![first, second]);
}
