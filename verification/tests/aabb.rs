use brep_core::aabb::{Aabb2, Aabb3};
use brep_core::numeric::{Point2, Point3, Vector2, Vector3};

#[test]
fn center_should_return_center() {
    let aabb = Aabb2 { min: Point2::new(1, 2), max: Point2::new(3, 4) };

    assert_eq!(aabb.center(), Point2::new(2, 3));
}

#[test]
fn vertices_should_return_vertices() {
    let aabb = Aabb3 { min: Point3::new(0, 0, 0), max: Point3::new(1, 1, 1) };

    assert_eq!(
        aabb.vertices(),
        vec![
            Point3::new(0, 0, 0),
            Point3::new(0, 0, 1),
            Point3::new(0, 1, 0),
            Point3::new(0, 1, 1),
            Point3::new(1, 0, 0),
            Point3::new(1, 0, 1),
            Point3::new(1, 1, 0),
            Point3::new(1, 1, 1),
        ]
    )
}

#[test]
fn edges_should_return_edges() {
    let aabb = Aabb3 { min: Point3::new(0, 0, 0), max: Point3::new(1, 1, 1) };

    assert_eq!(
        aabb.edges(),
        vec![
            (Point3::new(0, 0, 0), Point3::new(0, 0, 1)),
            (Point3::new(0, 0, 0), Point3::new(0, 1, 0)),
            (Point3::new(0, 0, 0), Point3::new(1, 0, 0)),
            (Point3::new(0, 0, 1), Point3::new(0, 1, 1)),
            (Point3::new(0, 0, 1), Point3::new(1, 0, 1)),
            (Point3::new(0, 1, 0), Point3::new(0, 1, 1)),
            (Point3::new(0, 1, 0), Point3::new(1, 1, 0)),
            (Point3::new(0, 1, 1), Point3::new(1, 1, 1)),
            (Point3::new(1, 0, 0), Point3::new(1, 0, 1)),
            (Point3::new(1, 0, 0), Point3::new(1, 1, 0)),
            (Point3::new(1, 0, 1), Point3::new(1, 1, 1)),
            (Point3::new(1, 1, 0), Point3::new(1, 1, 1)),
        ]
    );
}

#[test]
fn partition_should_partition_into_8_parts() {
    let aabb = Aabb3 { min: Point3::new(0, 0, 0), max: Point3::new(2, 2, 2) };

    let a = Aabb3 { min: Point3::new(0, 0, 0), max: Point3::new(1, 1, 1) };
    let b = Aabb3 { min: Point3::new(0, 0, 1), max: Point3::new(1, 1, 2) };
    let c = Aabb3 { min: Point3::new(0, 1, 0), max: Point3::new(1, 2, 1) };
    let d = Aabb3 { min: Point3::new(0, 1, 1), max: Point3::new(1, 2, 2) };
    let e = Aabb3 { min: Point3::new(1, 0, 0), max: Point3::new(2, 1, 1) };
    let f = Aabb3 { min: Point3::new(1, 0, 1), max: Point3::new(2, 1, 2) };
    let g = Aabb3 { min: Point3::new(1, 1, 0), max: Point3::new(2, 2, 1) };
    let h = Aabb3 { min: Point3::new(1, 1, 1), max: Point3::new(2, 2, 2) };

    assert_eq!(aabb.partition(), vec![a, b, c, d, e, f, g, h]);
}

#[test]
fn from_min_and_size_adds_size_to_min() {
    let aabb = Aabb3::from_min_and_size(Point3::new(1, 2, 3), Vector3 { x: 4, y: 5, z: 6 });

    assert_eq!(aabb.min, Point3::new(1, 2, 3));
    assert_eq!(aabb.max, Point3::new(5, 7, 9));
    assert_eq!(aabb.size(), Vector3 { x: 4, y: 5, z: 6 });
}

#[test]
fn from_min_and_size_2d_adds_size_to_min() {
    let aabb = Aabb2::from_min_and_size(Point2::new(-3, 1), Vector2 { x: 2, y: 0 });

    assert_eq!(aabb.min, Point2::new(-3, 1));
    assert_eq!(aabb.max, Point2::new(-1, 1));
    assert_eq!(aabb.size(), Vector2 { x: 2, y: 0 });
}

#[test]
fn center_rounds_toward_min_for_odd_sizes() {
    let aabb = Aabb3 { min: Point3::new(0, 0, 0), max: Point3::new(3, 3, 3) };

    assert_eq!(aabb.center(), Point3::new(1, 1, 1));
}

#[test]
fn extend_lifts_a_2d_box_with_a_z_range() {
    let aabb = Aabb2 { min: Point2::new(1, 2), max: Point2::new(3, 4) };

    let lifted = aabb.extend(-5, 5);

    assert_eq!(lifted.min, Point3::new(1, 2, -5));
    assert_eq!(lifted.max, Point3::new(3, 4, 5));
}

#[test]
fn partition_children_tile_an_even_box() {
    let aabb = Aabb3 { min: Point3::new(-4, 0, 2), max: Point3::new(4, 6, 10) };

    let children = aabb.partition();

    assert_eq!(children.len(), 8);
    assert_eq!(children[0].min, aabb.min);
    assert_eq!(children[7].max, aabb.max);
    for child in &children {
        assert_eq!(child.size(), Vector3 { x: 4, y: 3, z: 4 });
        assert!(aabb.min.x <= child.min.x && child.max.x <= aabb.max.x);
        assert!(aabb.min.y <= child.min.y && child.max.y <= aabb.max.y);
        assert!(aabb.min.z <= child.min.z && child.max.z <= aabb.max.z);
    }
}

#[test]
fn large_coordinates_stay_exact() {
    let big: i64 = 1 << 60;
    let aabb =
        Aabb2::from_min_and_size(Point2::new(-big, -big), Vector2 { x: 2 * big, y: 2 * big });

    assert_eq!(aabb.max, Point2::new(big, big));
    assert_eq!(aabb.center(), Point2::new(0, 0));
}
