use teapot_scene::shapes::{
    quad_vertices, triangle_vertices, ColoredVertex, TexturedVertex, QUARTERS_PER_UNIT,
};

#[test]
fn triangle_has_three_coloured_corners() {
    assert_eq!(
        triangle_vertices(),
        vec![
            ColoredVertex { x: -2, y: -2, red: 1, green: 0, blue: 0 },
            ColoredVertex { x: 0, y: 2, red: 0, green: 1, blue: 0 },
            ColoredVertex { x: 2, y: -1, red: 0, green: 0, blue: 1 },
        ]
    );
}

#[test]
fn triangle_corners_in_length_units() {
    let corners: Vec<(f32, f32)> = triangle_vertices()
        .iter()
        .map(|c| (c.x as f32 / QUARTERS_PER_UNIT as f32, c.y as f32 / QUARTERS_PER_UNIT as f32))
        .collect();
    assert_eq!(corners, vec![(-0.5, -0.5), (0.0, 0.5), (0.5, -0.25)]);
}

#[test]
fn quad_has_six_corners_in_two_triangles() {
    assert_eq!(
        quad_vertices(),
        vec![
            TexturedVertex { x: -2, y: -2, u: 0, v: 0 },
            TexturedVertex { x: 2, y: -2, u: 1, v: 0 },
            TexturedVertex { x: 2, y: 2, u: 1, v: 1 },
            TexturedVertex { x: 2, y: 2, u: 1, v: 1 },
            TexturedVertex { x: -2, y: 2, u: 0, v: 1 },
            TexturedVertex { x: -2, y: -2, u: 0, v: 0 },
        ]
    );
}

#[test]
fn quad_texture_follows_position() {
    for corner in quad_vertices() {
        assert_eq!(QUARTERS_PER_UNIT * corner.u as i8, corner.x + 2);
        assert_eq!(QUARTERS_PER_UNIT * corner.v as i8, corner.y + 2);
    }
}

#[test]
fn quad_triangles_have_half_the_square_each() {
    let q = quad_vertices();
    let doubled = |a: &TexturedVertex, b: &TexturedVertex, c: &TexturedVertex| {
        (b.x as i32 - a.x as i32) * (c.y as i32 - a.y as i32)
            - (c.x as i32 - a.x as i32) * (b.y as i32 - a.y as i32)
    };
    assert_eq!(doubled(&q[0], &q[1], &q[2]), 16);
    assert_eq!(doubled(&q[3], &q[4], &q[5]), 16);
    assert_eq!(q[3], q[2]);
    assert_eq!(q[5], q[0]);
}
