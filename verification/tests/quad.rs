use wlx_graphics::quad::{quad_corner, quad_indices, INDICES, VERTEX_COUNT};

#[test]
fn indices_form_two_triangles() {
    assert_eq!(INDICES, [2, 1, 0, 1, 2, 3]);
    assert_eq!(quad_indices(), vec![2, 1, 0, 1, 2, 3]);
    assert_eq!(VERTEX_COUNT, 4);
}

#[test]
fn vertices_stand_at_the_four_corners() {
    assert_eq!(quad_corner(0), (false, false));
    assert_eq!(quad_corner(1), (false, true));
    assert_eq!(quad_corner(2), (true, false));
    assert_eq!(quad_corner(3), (true, true));
}

#[test]
fn quad_of_a_rectangle_in_a_target() {
    let (width, height, x, y, w, h) = (200.0f32, 100.0f32, 10.0f32, 10.0f32, 50.0f32, 50.0f32);
    let (x0, y0) = (x / width, y / height);
    let (x1, y1) = (w / width + x0, h / height + y0);
    let vertices: Vec<([f32; 2], [f32; 2])> = (0..VERTEX_COUNT)
        .map(|v| {
            let (far_x, far_y) = quad_corner(v);
            (
                [if far_x { x1 } else { x0 }, if far_y { y1 } else { y0 }],
                [if far_x { 1.0 } else { 0.0 }, if far_y { 1.0 } else { 0.0 }],
            )
        })
        .collect();
    assert_eq!(vertices[0], ([0.05, 0.1], [0.0, 0.0]));
    assert_eq!(vertices[1], ([0.05, 0.6], [0.0, 1.0]));
    assert_eq!(vertices[2], ([0.3, 0.1], [1.0, 0.0]));
    assert_eq!(vertices[3], ([0.3, 0.6], [1.0, 1.0]));
}
