use quadloop::resources::{Release, Resources};

#[test]
fn teardown_releases_every_handle_once() {
    let r = Resources {
        vertex_array: 1,
        vertex_buffer: 2,
        index_buffer: 3,
        vertex_shader: 4,
        fragment_shader: 5,
        program: 6,
    };
    let releases = r.teardown();
    assert_eq!(
        releases,
        vec![
            Release::Program(6),
            Release::Shader(5),
            Release::Shader(4),
            Release::Buffer(2),
            Release::Buffer(3),
            Release::VertexArray(1),
        ]
    );
    for wanted in [
        Release::Program(6),
        Release::Shader(4),
        Release::Shader(5),
        Release::Buffer(2),
        Release::Buffer(3),
        Release::VertexArray(1),
    ] {
        assert_eq!(releases.iter().filter(|x| **x == wanted).count(), 1);
    }
}

#[test]
fn teardown_tells_kinds_apart_where_handles_coincide() {
    let r = Resources {
        vertex_array: 1,
        vertex_buffer: 1,
        index_buffer: 2,
        vertex_shader: 1,
        fragment_shader: 2,
        program: 1,
    };
    assert_eq!(
        r.teardown(),
        vec![
            Release::Program(1),
            Release::Shader(2),
            Release::Shader(1),
            Release::Buffer(1),
            Release::Buffer(2),
            Release::VertexArray(1),
        ]
    );
}
