use quadloop::geometry::{
    doubled_area, index_buffer_bytes, indices_in_range, quad_doubled_area, triangles, vertex,
    vertex_buffer_bytes, vertex_layout, Attribute, Color, Point, Triangle, Vertex,
    COLOR_COMPONENTS, COMPONENT_BYTES, INDEX_COUNT, INDEX_TABLE, POSITION_COMPONENTS,
    VERTEX_COMPONENTS, VERTEX_COUNT, VERTEX_HALVES,
};

fn p(x: i8, y: i8) -> Point {
    Point { x, y }
}

#[test]
fn index_table_is_verbatim() {
    assert_eq!(INDEX_TABLE, [0, 1, 2, 2, 3, 0]);
    assert_eq!(INDEX_TABLE.len(), INDEX_COUNT);
}

#[test]
fn vertex_table_is_verbatim_in_halves() {
    let floats: Vec<f32> = VERTEX_HALVES.iter().map(|h| *h as f32 / 2.0).collect();
    let expected: [f32; 20] = [
        -0.5, 0.5, 1.0, 0.0, 0.0,
        0.5, 0.5, 0.0, 1.0, 0.0,
        0.5, -0.5, 0.0, 0.0, 1.0,
        -0.5, -0.5, 0.0, 0.0, 1.0,
    ];
    assert_eq!(floats, expected.to_vec());
    assert_eq!(VERTEX_HALVES.len(), VERTEX_COUNT * VERTEX_COMPONENTS);
}

#[test]
fn layout_is_interleaved_position_then_color() {
    let l = vertex_layout();
    assert_eq!(l.position, Attribute { components: 2, offset: 0 });
    assert_eq!(l.color, Attribute { components: 3, offset: 8 });
    assert_eq!(l.stride, 20);
    assert_eq!(l.color.offset, l.position.offset + l.position.components * COMPONENT_BYTES);
    assert_eq!(l.stride, l.color.offset + l.color.components * COMPONENT_BYTES);
    assert_eq!(POSITION_COMPONENTS + COLOR_COMPONENTS, VERTEX_COMPONENTS);
}

#[test]
fn buffer_sizes() {
    assert_eq!(vertex_buffer_bytes(), 80);
    assert_eq!(index_buffer_bytes(), 24);
    assert_eq!(vertex_buffer_bytes(), VERTEX_COUNT * vertex_layout().stride);
}

#[test]
fn vertices_of_the_quad() {
    assert_eq!(
        vertex(0),
        Some(Vertex { position: p(-1, 1), color: Color { red: 2, green: 0, blue: 0 } })
    );
    assert_eq!(
        vertex(1),
        Some(Vertex { position: p(1, 1), color: Color { red: 0, green: 2, blue: 0 } })
    );
    assert_eq!(
        vertex(2),
        Some(Vertex { position: p(1, -1), color: Color { red: 0, green: 0, blue: 2 } })
    );
    assert_eq!(
        vertex(3),
        Some(Vertex { position: p(-1, -1), color: Color { red: 0, green: 0, blue: 2 } })
    );
}

#[test]
fn no_vertex_behind_the_table() {
    assert_eq!(vertex(4), None);
    assert_eq!(vertex(5), None);
    assert_eq!(vertex(u32::MAX), None);
}

#[test]
fn index_table_makes_two_triangles_that_cover_the_quad() {
    assert!(indices_in_range(&INDEX_TABLE, VERTEX_COUNT));
    let ts = triangles(&INDEX_TABLE);
    assert_eq!(ts, vec![Triangle { a: 0, b: 1, c: 2 }, Triangle { a: 2, b: 3, c: 0 }]);
    let at = |i: u32| vertex(i).unwrap().position;
    let areas: Vec<i32> = ts.iter().map(|t| doubled_area(at(t.a), at(t.b), at(t.c))).collect();
    assert_eq!(areas, vec![-4, -4]);
    assert!(areas.iter().all(|a| *a != 0));
    let quad = quad_doubled_area(at(0), at(1), at(2), at(3));
    assert_eq!(quad, -8);
    assert_eq!(areas[0] + areas[1], quad);
    assert!(areas.iter().all(|a| a.signum() == quad.signum()));
    let mut used: Vec<u32> = ts.iter().flat_map(|t| [t.a, t.b, t.c]).collect();
    used.sort();
    used.dedup();
    assert_eq!(used, vec![0, 1, 2, 3]);
}

#[test]
fn triangles_take_indices_three_at_a_time() {
    assert_eq!(triangles(&[]), vec![]);
    assert_eq!(triangles(&[1]), vec![]);
    assert_eq!(triangles(&[1, 2]), vec![]);
    assert_eq!(triangles(&[5, 6, 7]), vec![Triangle { a: 5, b: 6, c: 7 }]);
    assert_eq!(
        triangles(&[5, 6, 7, 8, 9, 10, 11, 12]),
        vec![Triangle { a: 5, b: 6, c: 7 }, Triangle { a: 8, b: 9, c: 10 }]
    );
}

#[test]
fn indices_in_range_checks_every_index() {
    assert!(indices_in_range(&[], 0));
    assert!(indices_in_range(&[0, 1, 2, 2, 3, 0], 4));
    assert!(!indices_in_range(&[0, 1, 2, 2, 3, 0], 3));
    assert!(!indices_in_range(&[0, 1, 2, 2, 4, 0], 4));
    assert!(!indices_in_range(&[0], 0));
    assert!(indices_in_range(&[u32::MAX - 1], u32::MAX as usize));
    assert!(!indices_in_range(&[0, 0, u32::MAX], u32::MAX as usize));
}

#[test]
fn doubled_area_is_signed() {
    assert_eq!(doubled_area(p(0, 0), p(1, 0), p(0, 1)), 1);
    assert_eq!(doubled_area(p(0, 0), p(0, 1), p(1, 0)), -1);
    assert_eq!(doubled_area(p(0, 0), p(4, 0), p(0, 3)), 12);
    assert_eq!(doubled_area(p(1, 2), p(4, 6), p(-3, 5)), 25);
}

#[test]
fn doubled_area_of_flat_triangles_is_zero() {
    assert_eq!(doubled_area(p(0, 0), p(1, 1), p(2, 2)), 0);
    assert_eq!(doubled_area(p(3, 3), p(3, 3), p(3, 3)), 0);
    assert_eq!(doubled_area(p(-1, 1), p(1, 1), p(1, 1)), 0);
}

#[test]
fn doubled_area_at_the_limits() {
    assert_eq!(doubled_area(p(-128, -128), p(127, -128), p(-128, 127)), 65025);
    assert_eq!(doubled_area(p(-128, -128), p(-128, 127), p(127, -128)), -65025);
    assert_eq!(doubled_area(p(127, 127), p(-128, -128), p(127, -128)), 65025);
}

#[test]
fn quad_doubled_area_by_edges() {
    assert_eq!(quad_doubled_area(p(0, 0), p(1, 0), p(1, 1), p(0, 1)), 2);
    assert_eq!(quad_doubled_area(p(0, 0), p(0, 1), p(1, 1), p(1, 0)), -2);
    assert_eq!(
        quad_doubled_area(p(-128, -128), p(127, -128), p(127, 127), p(-128, 127)),
        130050
    );
    assert_eq!(
        quad_doubled_area(p(-128, -128), p(-128, 127), p(127, 127), p(127, -128)),
        -130050
    );
}

#[test]
fn diagonal_split_keeps_the_area() {
    let quads = [
        [p(0, 0), p(5, 1), p(6, 7), p(-2, 4)],
        [p(-128, -128), p(127, -128), p(127, 127), p(-128, 127)],
        [p(0, 0), p(4, 0), p(1, 1), p(0, 4)],
        [p(3, 3), p(3, 3), p(3, 3), p(3, 3)],
    ];
    for q in quads {
        assert_eq!(
            doubled_area(q[0], q[1], q[2]) + doubled_area(q[2], q[3], q[0]),
            quad_doubled_area(q[0], q[1], q[2], q[3])
        );
    }
}
