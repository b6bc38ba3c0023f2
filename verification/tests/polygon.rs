use brep_core::numeric::{direction, Point2};
use brep_core::polygon::{Error, Polygon};

#[test]
fn validation() {
    let triangle = Polygon::new(Point2::new(0, 0), Point2::new(0, 1), Point2::new(1, 1));
    let points_on_a_line =
        Polygon::new(Point2::new(0, 0), Point2::new(1, 1), Point2::new(2, 2));
    let collapsed_points =
        Polygon::new(Point2::new(0, 0), Point2::new(1, 1), Point2::new(1, 1));

    assert!(triangle.is_ok());
    assert_eq!(points_on_a_line, Err(Error::PointsOnLine));
    assert_eq!(collapsed_points, Err(Error::IdenticalPoints));
}

#[test]
fn normalization() {
    let a = Point2::new(0, 0);
    let b = Point2::new(0, 1);
    let c = Point2::new(1, 1);

    // Triangles in both winding directions, to make sure the
    // normalization preserves direction.
    let abc = Polygon::new(a, b, c).unwrap();
    let bca = Polygon::new(b, c, a).unwrap();
    let cab = Polygon::new(c, a, b).unwrap();

    assert_eq!(abc.points(), bca.points());
    assert_eq!(abc.points(), cab.points());

    // But don't change order of triangle points.
    assert!(
        abc.points() == vec![a, b, c]
            || abc.points() == vec![b, c, a]
            || abc.points() == vec![c, b, a]
    );

    let acb = Polygon::new(a, c, b).unwrap();
    let cba = Polygon::new(c, b, a).unwrap();
    let bac = Polygon::new(b, a, c).unwrap();

    assert_eq!(acb.points(), cba.points());
    assert_eq!(acb.points(), bac.points());

    assert!(
        acb.points() == vec![a, c, b]
            || acb.points() == vec![c, b, a]
            || acb.points() == vec![b, c, a]
    );
}

#[test]
fn collinear_points_out_of_traversal_order_are_accepted() {
    // The three points lie on one line, but the consecutive edge
    // directions differ, so the deliberately order-sensitive check
    // does not reject them.
    let polygon = Polygon::new(Point2::new(0, 0), Point2::new(2, 2), Point2::new(1, 1));

    assert!(polygon.is_ok());
}

#[test]
fn collinearity_uses_normalized_directions() {
    // Edges of different lengths along the same line are still
    // rejected: directions are compared after normalization.
    let points_on_a_line =
        Polygon::new(Point2::new(0, 0), Point2::new(1, 1), Point2::new(4, 4));

    assert_eq!(points_on_a_line, Err(Error::PointsOnLine));
}

#[test]
fn normalization_puts_smallest_point_first() {
    let a = Point2::new(5, 5);
    let b = Point2::new(-1, 7);
    let c = Point2::new(-1, 2);

    let polygon = Polygon::new(a, b, c).unwrap();

    assert_eq!(polygon.points(), vec![c, a, b]);
}

#[test]
fn direction_divides_out_the_common_factor() {
    assert_eq!(direction(4, 6), (2, 3));
    assert_eq!(direction(-4, 8), (-1, 2));
    assert_eq!(direction(0, -9), (0, -1));
    assert_eq!(direction(7, 0), (1, 0));
}

#[test]
fn direction_is_exact_for_large_displacements() {
    let big: i64 = 1 << 60;

    assert_eq!(direction(big, big / 2), (2, 1));
    assert_eq!(direction(-big, big), (-1, 1));
}
