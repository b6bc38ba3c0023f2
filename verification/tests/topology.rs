use brep_core::face::{Cycle2, Cycle3, CyclesInFace, Face, FaceBRep, Surface};
use brep_core::local::LocalForm;
use brep_core::mesh::{Mesh, Triangle};
use brep_core::numeric::{Point2, Point3, Triangle3};

fn cycle2(n: i64) -> Cycle2 {
    Cycle2 { a: Point2::new(n, 0), b: Point2::new(n + 1, 0), c: Point2::new(n, 1) }
}

fn cycle3(n: i64) -> Cycle3 {
    Cycle3 {
        a: Point3::new(n, 0, 0),
        b: Point3::new(n + 1, 0, 0),
        c: Point3::new(n, 1, 0),
    }
}

#[test]
fn push_deduplicates_vertices() {
    let mut mesh: Mesh<Point3> = Mesh::new();
    let a = Point3::new(0, 0, 0);
    let b = Point3::new(1, 0, 0);

    mesh.push(a);
    mesh.push(b);
    mesh.push(a);

    assert_eq!(mesh.vertices(), vec![a, b]);
    assert_eq!(mesh.indices(), vec![0, 1, 0]);
}

#[test]
fn push_assigns_sequential_indices_to_fresh_vertices() {
    let mut mesh: Mesh<Point3> = Mesh::new();

    mesh.push(Point3::new(0, 0, 0));
    mesh.push(Point3::new(1, 0, 0));
    mesh.push(Point3::new(0, 1, 0));

    assert_eq!(mesh.indices(), vec![0, 1, 2]);
    assert_eq!(mesh.vertices().len(), 3);
}

#[test]
fn empty_mesh_has_no_vertices_or_indices() {
    let mesh: Mesh<Point3> = Mesh::new();

    assert_eq!(mesh.vertices(), vec![]);
    assert_eq!(mesh.indices(), vec![]);
}

#[test]
fn triangle_new_keeps_its_parts() {
    let inner = Triangle3 {
        a: Point3::new(0, 0, 0),
        b: Point3::new(1, 0, 0),
        c: Point3::new(0, 1, 0),
    };
    let color = [255, 0, 0, 255];

    let triangle = Triangle::new(inner, color);

    assert_eq!(triangle.inner, inner);
    assert_eq!(triangle.color, color);
}

#[test]
fn canonical_only_holds_the_same_value_twice() {
    let c = cycle3(0);

    let reference = LocalForm::canonical_only(c);

    assert_eq!(*reference.local(), c);
    assert_eq!(*reference.canonical(), c);
}

#[test]
fn local_form_keeps_both_forms() {
    let local = cycle2(0);
    let canonical = cycle3(0);

    let reference = LocalForm::new(local, canonical);

    assert_eq!(*reference.local(), local);
    assert_eq!(*reference.canonical(), canonical);
}

#[test]
fn cycles_in_face_yields_local_forms_in_order() {
    let list = CyclesInFace::new(vec![
        LocalForm::new(cycle2(0), cycle3(0)),
        LocalForm::new(cycle2(5), cycle3(5)),
    ]);

    assert_eq!(list.as_local(), vec![cycle2(0), cycle2(5)]);
}

#[test]
fn cycles_in_face_yields_canonical_forms_in_order() {
    let list = CyclesInFace::new(vec![
        LocalForm::new(cycle2(0), cycle3(0)),
        LocalForm::new(cycle2(5), cycle3(5)),
    ]);

    assert_eq!(list.as_canonical(), vec![cycle3(0), cycle3(5)]);
}

#[test]
fn all_cycles_chains_exteriors_then_interiors() {
    let face = Face::new(
        Surface::XyPlane,
        vec![
            LocalForm::new(cycle2(0), cycle3(0)),
            LocalForm::new(cycle2(1), cycle3(1)),
        ],
        vec![LocalForm::new(cycle2(2), cycle3(2))],
        [0, 0, 0, 255],
    );

    assert_eq!(face.exteriors(), vec![cycle3(0), cycle3(1)]);
    assert_eq!(face.interiors(), vec![cycle3(2)]);
    assert_eq!(face.all_cycles(), vec![cycle3(0), cycle3(1), cycle3(2)]);
}

#[test]
fn face_new_keeps_surface_and_color() {
    let face = Face::new(
        Surface::XzPlane,
        vec![LocalForm::new(cycle2(0), cycle3(0))],
        vec![],
        [1, 2, 3, 4],
    );

    assert_eq!(face.surface(), Surface::XzPlane);
    assert_eq!(face.color(), [1, 2, 3, 4]);
}

#[test]
fn brep_methods_match_face_methods() {
    let brep = FaceBRep {
        surface: Surface::YzPlane,
        exteriors: CyclesInFace::new(vec![LocalForm::new(cycle2(3), cycle3(3))]),
        interiors: CyclesInFace::new(vec![]),
        color: [9, 9, 9, 9],
    };

    assert_eq!(brep.surface(), Surface::YzPlane);
    assert_eq!(brep.exteriors(), vec![cycle3(3)]);
    assert_eq!(brep.interiors(), vec![]);
    assert_eq!(brep.all_cycles(), vec![cycle3(3)]);
}

#[test]
fn face_keeps_duplicate_cycles() {
    let face = Face::new(
        Surface::XyPlane,
        vec![
            LocalForm::new(cycle2(0), cycle3(0)),
            LocalForm::new(cycle2(0), cycle3(0)),
        ],
        vec![],
        [0, 0, 0, 0],
    );

    assert_eq!(face.exteriors(), vec![cycle3(0), cycle3(0)]);
}
