use sdf_harness::geometry::{quad_vertices, ScreenVertex};

fn v(x: i32, y: i32) -> ScreenVertex {
    ScreenVertex { x, y }
}

#[test]
fn quad_has_exactly_six_fixed_vertices() {
    let q = quad_vertices();
    assert_eq!(q.len(), 6);
    assert_eq!(
        q,
        vec![v(-1, -1), v(1, -1), v(1, 1), v(1, 1), v(-1, 1), v(-1, -1)]
    );
}

#[test]
fn quad_is_independent_of_when_it_is_built() {
    // The geometry is static: two builds agree exactly.
    assert_eq!(quad_vertices(), quad_vertices());
}

#[test]
fn quad_corners_lie_on_the_unit_square() {
    for vert in quad_vertices() {
        assert!(vert.x == -1 || vert.x == 1);
        assert!(vert.y == -1 || vert.y == 1);
    }
}
