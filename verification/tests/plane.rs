use hemera::primitives::plane::{Plane, Vertex, COORD_ONE, TEX_ONE};

#[test]
fn full_quad_vertices() {
    let p = Plane::new(COORD_ONE);
    let vs = p.get_vertices();
    assert_eq!(vs.len(), 4);
    assert_eq!((vs[0].x, vs[0].y, vs[0].z), (-1000, -1000, 0));
    assert_eq!((vs[1].x, vs[1].y, vs[1].z), (1000, -1000, 0));
    assert_eq!((vs[2].x, vs[2].y, vs[2].z), (1000, 1000, 0));
    assert_eq!((vs[3].x, vs[3].y, vs[3].z), (-1000, 1000, 0));
    assert_eq!((vs[0].u, vs[0].v), (0, TEX_ONE));
    assert_eq!((vs[1].u, vs[1].v), (TEX_ONE, TEX_ONE));
    assert_eq!((vs[2].u, vs[2].v), (TEX_ONE, 0));
    assert_eq!((vs[3].u, vs[3].v), (0, 0));
}

#[test]
fn offset_quad_vertices() {
    let p = Plane::new_with_offset(100, 700, -200);
    let vs = p.get_vertices();
    assert_eq!((vs[0].x, vs[0].y), (600, -300));
    assert_eq!((vs[1].x, vs[1].y), (800, -300));
    assert_eq!((vs[2].x, vs[2].y), (800, -100));
    assert_eq!((vs[3].x, vs[3].y), (600, -100));
}

#[test]
fn quad_indices_two_triangles() {
    let p = Plane::new(COORD_ONE);
    assert_eq!(p.get_indices(), vec![0, 1, 2, 0, 2, 3]);
}

#[test]
fn move_offsets_shift_every_corner() {
    let mut p = Plane::new(500);
    p.move_x_offset(250);
    p.move_y_offset(-100);
    let vs = p.get_vertices();
    assert_eq!((vs[0].x, vs[0].y), (-250, -600));
    assert_eq!((vs[2].x, vs[2].y), (750, 400));
}

#[test]
fn center_coverage() {
    let full = Plane::new(COORD_ONE);
    assert!(full.check_covers_center());
    let aside = Plane::new_with_offset(100, 700, 700);
    assert!(!aside.check_covers_center());
    let touching = Plane::new_with_offset(100, 100, 0);
    // the quad's left edge sits exactly on the center: not strictly inside
    assert!(!touching.check_covers_center());
}

#[test]
fn vertex_moves_return_the_moved_copy() {
    let mut v = Vertex { x: 10, y: 20, z: 0, u: 0, v: 0 };
    let r = v.move_x_position(-30);
    assert_eq!(r.x, -20);
    assert_eq!(v.x, -20);
    let r2 = v.move_y_position(5);
    assert_eq!(r2.y, 25);
    assert_eq!(v.y, 25);
}
