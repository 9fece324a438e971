//! The handles of the objects that live in the graphics driver, and their
//! release at the end.

use vstd::prelude::*;

verus! {

/// The handles the renderer owns from the end of its setup to its teardown.
/// Each is created once and belongs to nothing else.
#[derive(Debug, PartialEq, Eq)]
pub struct Resources {
    pub vertex_array: u32,
    pub vertex_buffer: u32,
    pub index_buffer: u32,
    pub vertex_shader: u32,
    pub fragment_shader: u32,
    pub program: u32,
}

/// The release of one object, by its kind and handle.
#[derive(Clone, Copy, Debug, PartialEq, Eq, Structural)]
pub enum Release {
    Program(u32),
    Shader(u32),
    Buffer(u32),
    VertexArray(u32),
}

impl Resources {
    /// What the teardown releases: the program, both shaders, both buffers
    /// and the vertex array, each once.
    pub open spec fn releases(self) -> Seq<Release> {
        seq![
            Release::Program(self.program),
            Release::Shader(self.fragment_shader),
            Release::Shader(self.vertex_shader),
            Release::Buffer(self.vertex_buffer),
            Release::Buffer(self.index_buffer),
            Release::VertexArray(self.vertex_array),
        ]
    }

    /// Gives the handles up and returns the releases that the caller has to
    /// carry out. The handles are gone with the call, so nothing is released
    /// twice.
    pub fn teardown(self) -> (r: Vec<Release>)
        ensures
            r@ == self.releases(),
    {
        let mut r: Vec<Release> = Vec::new();
        r.push(Release::Program(self.program));
        r.push(Release::Shader(self.fragment_shader));
        r.push(Release::Shader(self.vertex_shader));
        r.push(Release::Buffer(self.vertex_buffer));
        r.push(Release::Buffer(self.index_buffer));
        r.push(Release::VertexArray(self.vertex_array));
        assert(r@ =~= self.releases());
        r
    }
}

} // verus!
