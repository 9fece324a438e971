//! The quad: its vertex and index tables, the layout of a vertex in the
//! vertex buffer, and the triangles that the indices make of the vertices.

use vstd::prelude::*;

verus! {

/// Number of vertices of the quad.
pub const VERTEX_COUNT: usize = 4;

/// Number of indices: two triangles.
pub const INDEX_COUNT: usize = 6;

/// Values of a position: x and y.
pub const POSITION_COMPONENTS: usize = 2;

/// Values of a colour: red, green and blue.
pub const COLOR_COMPONENTS: usize = 3;

/// Values of a vertex: a position and a colour.
pub const VERTEX_COMPONENTS: usize = 5;

/// Size in bytes of one value of the vertex buffer, and of one index.
pub const COMPONENT_BYTES: usize = 4;

/// The vertices of the quad, five values each: a position (x, y) and a
/// colour (red, green, blue). Every value is in halves, so that the table is
/// exact in integers: 1 stands for 0.5 and 2 for 1.0.
pub const VERTEX_HALVES: [i8; 20] = [
    -1, 1, 2, 0, 0,
    1, 1, 0, 2, 0,
    1, -1, 0, 0, 2,
    -1, -1, 0, 0, 2,
];

/// The indices of the quad's two triangles.
pub const INDEX_TABLE: [u32; 6] = [0, 1, 2, 2, 3, 0];

/// Where one attribute of a vertex lies within the vertex.
#[derive(Clone, Copy, Debug, PartialEq, Eq, Structural)]
pub struct Attribute {
    /// Number of values.
    pub components: usize,
    /// Offset of the first value from the start of the vertex, in bytes.
    pub offset: usize,
}

/// How the vertices lie in the vertex buffer.
#[derive(Clone, Copy, Debug, PartialEq, Eq, Structural)]
pub struct VertexLayout {
    /// Distance from one vertex to the next, in bytes.
    pub stride: usize,
    pub position: Attribute,
    pub color: Attribute,
}

impl Attribute {
    /// Offset of the first byte behind the attribute.
    pub open spec fn end(self) -> int {
        self.offset + self.components * COMPONENT_BYTES
    }
}

impl VertexLayout {
    /// The attributes are interleaved: the position comes first, the colour
    /// directly behind it, and a vertex ends where the next begins.
    pub open spec fn interleaved(self) -> bool {
        &&& self.position.offset == 0
        &&& self.color.offset == self.position.end()
        &&& self.stride == self.color.end()
    }
}

/// The layout of the quad's vertices: two values of position, then three of
/// colour.
pub fn vertex_layout() -> (r: VertexLayout)
    ensures
        r.interleaved(),
        r.position.components == POSITION_COMPONENTS,
        r.color.components == COLOR_COMPONENTS,
        r.position.offset == 0,
        r.color.offset == 8,
        r.stride == 20,
{
    VertexLayout {
        stride: VERTEX_COMPONENTS * COMPONENT_BYTES,
        position: Attribute { components: POSITION_COMPONENTS, offset: 0 },
        color: Attribute {
            components: COLOR_COMPONENTS,
            offset: POSITION_COMPONENTS * COMPONENT_BYTES,
        },
    }
}

/// Size of the vertex buffer in bytes: it holds every vertex, one stride
/// each.
pub fn vertex_buffer_bytes() -> (r: usize)
    ensures
        r == 80,
        r == VERTEX_COUNT * VERTEX_COMPONENTS * COMPONENT_BYTES,
        r == VERTEX_HALVES@.len() * COMPONENT_BYTES,
{
    VERTEX_COUNT * VERTEX_COMPONENTS * COMPONENT_BYTES
}

/// Size of the index buffer in bytes.
pub fn index_buffer_bytes() -> (r: usize)
    ensures
        r == 24,
        r == INDEX_COUNT * COMPONENT_BYTES,
        r == INDEX_TABLE@.len() * COMPONENT_BYTES,
{
    INDEX_COUNT * COMPONENT_BYTES
}

/// A position, in halves.
#[derive(Clone, Copy, Debug, PartialEq, Eq, Structural)]
pub struct Point {
    pub x: i8,
    pub y: i8,
}

/// A colour, in halves.
#[derive(Clone, Copy, Debug, PartialEq, Eq, Structural)]
pub struct Color {
    pub red: i8,
    pub green: i8,
    pub blue: i8,
}

/// One vertex of the table.
#[derive(Clone, Copy, Debug, PartialEq, Eq, Structural)]
pub struct Vertex {
    pub position: Point,
    pub color: Color,
}

/// The vertex that five values of a table starting at `at` describe.
pub open spec fn vertex_at(table: Seq<i8>, at: int) -> Vertex {
    Vertex {
        position: Point { x: table[at], y: table[at + 1] },
        color: Color { red: table[at + 2], green: table[at + 3], blue: table[at + 4] },
    }
}

/// Vertex `i` of the quad, if there is one.
pub open spec fn quad_vertex(i: int) -> Option<Vertex> {
    if 0 <= i < VERTEX_COUNT {
        Some(vertex_at(VERTEX_HALVES@, i * VERTEX_COMPONENTS))
    } else {
        None
    }
}

/// Vertex `i` of the quad, if there is one.
pub fn vertex(i: u32) -> (r: Option<Vertex>)
    ensures
        r == quad_vertex(i as int),
{
    if (i as usize) < VERTEX_COUNT {
        let at: usize = i as usize * VERTEX_COMPONENTS;
        Some(
            Vertex {
                position: Point { x: VERTEX_HALVES[at], y: VERTEX_HALVES[at + 1] },
                color: Color {
                    red: VERTEX_HALVES[at + 2],
                    green: VERTEX_HALVES[at + 3],
                    blue: VERTEX_HALVES[at + 4],
                },
            },
        )
    } else {
        None
    }
}

/// Three vertices, by their indices.
#[derive(Clone, Copy, Debug, PartialEq, Eq, Structural)]
pub struct Triangle {
    pub a: u32,
    pub b: u32,
    pub c: u32,
}

/// Triangle `k` of an index list: the indices are taken three at a time.
pub open spec fn triangle_at(indices: Seq<u32>, k: int) -> Triangle {
    Triangle { a: indices[3 * k], b: indices[3 * k + 1], c: indices[3 * k + 2] }
}

/// The triangles of an index list. Indices left over behind the last whole
/// triangle make none.
pub open spec fn triangles_of(indices: Seq<u32>) -> Seq<Triangle> {
    Seq::new((indices.len() / 3) as nat, |k: int| triangle_at(indices, k))
}

/// The triangles that a draw of `indices` assembles.
pub fn triangles(indices: &[u32]) -> (r: Vec<Triangle>)
    ensures
        r@ == triangles_of(indices@),
{
    let mut r: Vec<Triangle> = Vec::new();
    let n: usize = indices.len() / 3;
    let mut k: usize = 0;
    while k < n
        invariant
            n == indices@.len() / 3,
            3 * n <= indices@.len() <= usize::MAX,
            0 <= k <= n,
            r@.len() == k,
            forall|j: int| 0 <= j < k ==> r@[j] == triangle_at(indices@, j),
        decreases n - k,
    {
        r.push(Triangle { a: indices[3 * k], b: indices[3 * k + 1], c: indices[3 * k + 2] });
        k += 1;
    }
    assert(r@ =~= triangles_of(indices@));
    r
}

/// Whether every index names one of `vertex_count` vertices, so that a draw
/// reads nothing outside the vertex buffer.
pub open spec fn in_range(indices: Seq<u32>, vertex_count: int) -> bool {
    forall|i: int| 0 <= i < indices.len() ==> (#[trigger] indices[i]) < vertex_count
}

/// Whether every index names one of `vertex_count` vertices.
pub fn indices_in_range(indices: &[u32], vertex_count: usize) -> (r: bool)
    ensures
        r == in_range(indices@, vertex_count as int),
{
    let mut i: usize = 0;
    while i < indices.len()
        invariant
            0 <= i <= indices.len(),
            in_range(indices@.take(i as int), vertex_count as int),
        decreases indices.len() - i,
    {
        if indices[i] as usize >= vertex_count {
            return false;
        }
        assert(indices@.take(i + 1) == indices@.take(i as int).push(indices@[i as int]));
        i += 1;
    }
    assert(indices@.take(i as int) == indices@);
    true
}

/// Twice the signed area of the triangle `a`, `b`, `c`: negative where the
/// three turn clockwise, zero where they lie on one line.
pub open spec fn area2(a: Point, b: Point, c: Point) -> int {
    (b.x - a.x) * (c.y - a.y) - (c.x - a.x) * (b.y - a.y)
}

/// Twice the signed area of the quadrilateral `p0`, `p1`, `p2`, `p3`, by its
/// edges.
pub open spec fn quad_area2(p0: Point, p1: Point, p2: Point, p3: Point) -> int {
    (p0.x * p1.y - p1.x * p0.y) + (p1.x * p2.y - p2.x * p1.y) + (p2.x * p3.y - p3.x * p2.y) + (p3.x
        * p0.y - p0.x * p3.y)
}

/// The product of two small numbers is small.
proof fn lemma_product_bound(x: int, y: int, bound: int)
    requires
        -bound <= x <= bound,
        -bound <= y <= bound,
    ensures
        -bound * bound <= x * y <= bound * bound,
{
    assert(-bound * bound <= x * y <= bound * bound) by (nonlinear_arith)
        requires
            -bound <= x <= bound,
            -bound <= y <= bound,
    ;
}

/// A product of two differences, multiplied out.
proof fn lemma_expand(a: int, b: int, c: int, d: int)
    ensures
        (a - b) * (c - d) == a * c - a * d - b * c + b * d,
{
    assert((a - b) * (c - d) == a * c - a * d - b * c + b * d) by (nonlinear_arith);
}

/// Twice the signed area of the triangle `a`, `b`, `c`.
pub fn doubled_area(a: Point, b: Point, c: Point) -> (r: i32)
    ensures
        r == area2(a, b, c),
{
    let abx: i32 = b.x as i32 - a.x as i32;
    let aby: i32 = b.y as i32 - a.y as i32;
    let acx: i32 = c.x as i32 - a.x as i32;
    let acy: i32 = c.y as i32 - a.y as i32;
    proof {
        lemma_product_bound(abx as int, acy as int, 255);
        lemma_product_bound(acx as int, aby as int, 255);
    }
    abx * acy - acx * aby
}

/// Twice the signed area of the quadrilateral `p0`, `p1`, `p2`, `p3`.
pub fn quad_doubled_area(p0: Point, p1: Point, p2: Point, p3: Point) -> (r: i32)
    ensures
        r == quad_area2(p0, p1, p2, p3),
{
    proof {
        lemma_product_bound(p0.x as int, p1.y as int, 128);
        lemma_product_bound(p1.x as int, p0.y as int, 128);
        lemma_product_bound(p1.x as int, p2.y as int, 128);
        lemma_product_bound(p2.x as int, p1.y as int, 128);
        lemma_product_bound(p2.x as int, p3.y as int, 128);
        lemma_product_bound(p3.x as int, p2.y as int, 128);
        lemma_product_bound(p3.x as int, p0.y as int, 128);
        lemma_product_bound(p0.x as int, p3.y as int, 128);
    }
    let e0: i32 = p0.x as i32 * p1.y as i32 - p1.x as i32 * p0.y as i32;
    let e1: i32 = p1.x as i32 * p2.y as i32 - p2.x as i32 * p1.y as i32;
    let e2: i32 = p2.x as i32 * p3.y as i32 - p3.x as i32 * p2.y as i32;
    let e3: i32 = p3.x as i32 * p0.y as i32 - p0.x as i32 * p3.y as i32;
    e0 + e1 + e2 + e3
}

/// Splitting a quadrilateral along the diagonal from `p0` to `p2`, as the
/// index table does, loses and adds no area: the two triangles have the area
/// of the quadrilateral between them.
pub proof fn law_diagonal_split_keeps_area(p0: Point, p1: Point, p2: Point, p3: Point)
    ensures
        area2(p0, p1, p2) + area2(p2, p3, p0) == quad_area2(p0, p1, p2, p3),
{
    lemma_expand(p1.x as int, p0.x as int, p2.y as int, p0.y as int);
    lemma_expand(p2.x as int, p0.x as int, p1.y as int, p0.y as int);
    lemma_expand(p3.x as int, p2.x as int, p0.y as int, p2.y as int);
    lemma_expand(p0.x as int, p2.x as int, p3.y as int, p2.y as int);
}

/// The two triangles of the quad.
pub open spec fn quad_triangles() -> Seq<Triangle> {
    seq![Triangle { a: 0, b: 1, c: 2 }, Triangle { a: 2, b: 3, c: 0 }]
}

/// The quad's own mesh. Every index names a vertex, so a draw reads nothing
/// outside the vertex buffer. The indices make two triangles, which meet in
/// the diagonal from vertex 0 to vertex 2. Neither is flat, both turn
/// clockwise, and together they have the area of the quad.
pub proof fn law_quad_mesh()
    ensures
        in_range(INDEX_TABLE@, VERTEX_COUNT as int),
        triangles_of(INDEX_TABLE@) =~= quad_triangles(),
        ({
            let p0 = quad_vertex(0)->0.position;
            let p1 = quad_vertex(1)->0.position;
            let p2 = quad_vertex(2)->0.position;
            let p3 = quad_vertex(3)->0.position;
            &&& area2(p0, p1, p2) == -4
            &&& area2(p2, p3, p0) == -4
            &&& quad_area2(p0, p1, p2, p3) == -8
        }),
{
    assert(INDEX_TABLE@.len() / 3 == 2);
    let p0 = Point { x: -1i8, y: 1i8 };
    let p1 = Point { x: 1i8, y: 1i8 };
    let p2 = Point { x: 1i8, y: -1i8 };
    let p3 = Point { x: -1i8, y: -1i8 };
    assert(quad_vertex(0)->0.position == p0);
    assert(quad_vertex(1)->0.position == p1);
    assert(quad_vertex(2)->0.position == p2);
    assert(quad_vertex(3)->0.position == p3);
    assert(area2(p0, p1, p2) == (1 - (-1)) * ((-1) - 1) - (1 - (-1)) * (1 - 1));
    assert(area2(p2, p3, p0) == ((-1) - 1) * (1 - (-1)) - ((-1) - 1) * ((-1) - (-1)));
}

} // verus!
