//! Accumulating vertices and triangle indices into a mesh.
use vstd::prelude::*;

use crate::geometry::{
    bounded_by, cross, in_bounds, lemma_unit_normal_swap, normalized, unit_normal, vadd, vec3, vneg, vsub, Vec3, COORD_LIMIT,
    NORMAL_SCALE,
};

verus! {

/// An RGBA colour, each channel in thousandths (1000 is full intensity).
#[derive(Clone, Copy, PartialEq, Eq, Structural, Debug)]
pub struct Color {
    pub r: u16,
    pub g: u16,
    pub b: u16,
    pub a: u16,
}

/// The colour given to every vertex of a model.
pub open spec fn model_color() -> Color {
    Color { r: 1000, g: 100, b: 100, a: 1000 }
}

pub fn model_color_exec() -> (r: Color)
    ensures
        r == model_color(),
{
    Color { r: 1000, g: 100, b: 100, a: 1000 }
}

#[derive(Clone, Copy, PartialEq, Eq, Structural, Debug)]
pub struct Vertex {
    pub position: Vec3,
    pub normal: Vec3,
    pub color: Color,
}

pub open spec fn vertex(position: Vec3, normal: Vec3) -> Vertex {
    Vertex { position, normal, color: model_color() }
}

/// The normal that grid vertices carry: straight up.
pub open spec fn up_normal() -> Vec3 {
    vec3(0, NORMAL_SCALE as int, 0)
}

/// What a mesh holds: its vertices and its triangle list.
pub struct MeshData {
    pub vertices: Seq<Vertex>,
    pub indices: Seq<u32>,
}

pub open spec fn empty_data() -> MeshData {
    MeshData { vertices: Seq::empty(), indices: Seq::empty() }
}

/// Every index names a vertex, the index list is whole triangles, and the
/// vertices can be counted in `u32`.
pub open spec fn data_wf(m: MeshData) -> bool {
    &&& m.vertices.len() <= u32::MAX
    &&& m.indices.len() % 3 == 0
    &&& forall|i: int| 0 <= i < m.indices.len() ==> (#[trigger] m.indices[i]) < m.vertices.len()
}

/// The flat-shaded normal of the triangle `a b c`.
pub open spec fn face_normal(a: Vec3, b: Vec3, c: Vec3) -> Vec3 {
    unit_normal(cross(vsub(b, a), vsub(c, a)))
}

pub open spec fn idx(n: int) -> u32 {
    n as u32
}

#[verifier::opaque]
pub open spec fn with_triangle(m: MeshData, a: Vec3, b: Vec3, c: Vec3) -> MeshData {
    let n = face_normal(a, b, c);
    let k = m.vertices.len() as int;
    MeshData {
        vertices: m.vertices + seq![vertex(a, n), vertex(b, n), vertex(c, n)],
        indices: m.indices + seq![idx(k), idx(k + 1), idx(k + 2)],
    }
}

/// The four corners of the quad `origin, edge1, edge2`, in emission order.
pub open spec fn quad_corners(origin: Vec3, edge1: Vec3, edge2: Vec3) -> Seq<Vec3> {
    seq![origin, vadd(origin, edge1), vadd(vadd(origin, edge1), edge2), vadd(origin, edge2)]
}

#[verifier::opaque]
pub open spec fn with_quad(m: MeshData, origin: Vec3, edge1: Vec3, edge2: Vec3) -> MeshData {
    let n = unit_normal(cross(edge1, edge2));
    let c = quad_corners(origin, edge1, edge2);
    let k = m.vertices.len() as int;
    MeshData {
        vertices: m.vertices + seq![vertex(c[0], n), vertex(c[1], n), vertex(c[2], n), vertex(c[3], n)],
        indices: m.indices + seq![idx(k), idx(k + 1), idx(k + 2), idx(k), idx(k + 2), idx(k + 3)],
    }
}

pub open spec fn with_linked_point(m: MeshData, position: Vec3, link: bool, row_stride: int) -> MeshData {
    let k = m.vertices.len() as int;
    let sw = k - row_stride - 1;
    MeshData {
        vertices: m.vertices.push(vertex(position, up_normal())),
        indices: if link {
            m.indices + seq![idx(sw), idx(k - 1), idx(k), idx(sw), idx(k), idx(k - row_stride)]
        } else {
            m.indices
        },
    }
}

/// What `with_quad` keeps and what it appends.
pub proof fn lemma_with_quad_facts(m: MeshData, origin: Vec3, edge1: Vec3, edge2: Vec3)
    ensures
        ({
            let q = with_quad(m, origin, edge1, edge2);
            let k = m.vertices.len() as int;
            let n = unit_normal(cross(edge1, edge2));
            let c = quad_corners(origin, edge1, edge2);
            &&& q.vertices.len() == k + 4
            &&& q.indices.len() == m.indices.len() + 6
            &&& forall|i: int| 0 <= i < k ==> #[trigger] q.vertices[i] == m.vertices[i]
            &&& forall|i: int| 0 <= i < m.indices.len() ==> #[trigger] q.indices[i] == m.indices[i]
            &&& q.vertices[k] == vertex(c[0], n)
            &&& q.vertices[k + 1] == vertex(c[1], n)
            &&& q.vertices[k + 2] == vertex(c[2], n)
            &&& q.vertices[k + 3] == vertex(c[3], n)
        }),
{
    reveal(with_quad);
}

/// The positions of triangle `t` of `m`.
pub open spec fn triangle_positions(m: MeshData, t: int) -> Seq<Vec3> {
    seq![
        m.vertices[m.indices[3 * t] as int].position,
        m.vertices[m.indices[3 * t + 1] as int].position,
        m.vertices[m.indices[3 * t + 2] as int].position,
    ]
}

/// The vertex indices of triangle `t` of `m`, as a set.
pub open spec fn triangle_corners(m: MeshData, t: int) -> Set<u32> {
    set![m.indices[3 * t], m.indices[3 * t + 1], m.indices[3 * t + 2]]
}

pub open spec fn quad_fits(origin: Vec3, edge1: Vec3, edge2: Vec3) -> bool {
    &&& bounded_by(edge1, 2 * COORD_LIMIT)
    &&& bounded_by(edge2, 2 * COORD_LIMIT)
    &&& in_bounds(origin)
    &&& in_bounds(vadd(origin, edge1))
    &&& in_bounds(vadd(vadd(origin, edge1), edge2))
    &&& in_bounds(vadd(origin, edge2))
}

/// The two triangles of a quad share exactly one edge, the diagonal from
/// its first corner to its third, and a quad whose edges are not parallel
/// has four distinct corner positions.
pub proof fn lemma_quad_shares_one_diagonal(m: MeshData, origin: Vec3, edge1: Vec3, edge2: Vec3)
    requires
        data_wf(m),
        m.vertices.len() + 4 <= u32::MAX,
        quad_fits(origin, edge1, edge2),
        cross(edge1, edge2) != vec3(0, 0, 0),
    ensures
        ({
            let q = with_quad(m, origin, edge1, edge2);
            let t = m.indices.len() as int / 3;
            let k = m.vertices.len() as int;
            &&& triangle_corners(q, t).intersect(triangle_corners(q, t + 1)) == set![idx(k), idx(k + 2)]
            &&& forall|a: int, b: int|
                k <= a < b < k + 4 ==> q.vertices[a].position != q.vertices[b].position
        }),
{
    reveal(with_quad);
    let q = with_quad(m, origin, edge1, edge2);
    let t = m.indices.len() as int / 3;
    let k = m.vertices.len() as int;
    let i = m.indices.len() as int;
    assert(q.indices[i] == idx(k) && q.indices[i + 1] == idx(k + 1) && q.indices[i + 2] == idx(k + 2));
    assert(q.indices[i + 3] == idx(k) && q.indices[i + 4] == idx(k + 2) && q.indices[i + 5] == idx(k + 3));
    assert(3 * t == i);
    assert(triangle_corners(q, t).intersect(triangle_corners(q, t + 1)) =~= set![idx(k), idx(k + 2)]);
    if edge1 == vec3(0, 0, 0) || edge2 == vec3(0, 0, 0) || edge1 == edge2 || edge1 == vneg(edge2) {
        assert(cross(edge1, edge2) == vec3(0, 0, 0)) by (nonlinear_arith)
            requires
                edge1 == vec3(0, 0, 0) || edge2 == vec3(0, 0, 0) || edge1 == edge2 || edge1 == vneg(edge2),
                bounded_by(edge1, 2 * COORD_LIMIT),
                bounded_by(edge2, 2 * COORD_LIMIT),
        ;
    }
    let c = quad_corners(origin, edge1, edge2);
    assert(q.vertices[k].position == c[0]);
    assert(q.vertices[k + 1].position == c[1]);
    assert(q.vertices[k + 2].position == c[2]);
    assert(q.vertices[k + 3].position == c[3]);
}

/// The same triangle seen from the other side: first corner kept, the other
/// two swapped.
pub open spec fn reversed(tri: Seq<Vec3>) -> Seq<Vec3> {
    seq![tri[0], tri[2], tri[1]]
}

/// A quad followed by the same quad with its edges swapped is double sided:
/// each triangle of the second is a triangle of the first with its winding
/// reversed, and each vertex normal of the second is the negation of the
/// first's.
pub proof fn lemma_swapped_quads_mirror(m: MeshData, origin: Vec3, edge1: Vec3, edge2: Vec3)
    requires
        data_wf(m),
        m.vertices.len() + 8 <= u32::MAX,
        quad_fits(origin, edge1, edge2),
        quad_fits(origin, edge2, edge1),
    ensures
        ({
            let q = with_quad(with_quad(m, origin, edge1, edge2), origin, edge2, edge1);
            let t = m.indices.len() as int / 3;
            let k = m.vertices.len() as int;
            &&& double_sided_pair(q, t, k)
            &&& data_wf(q)
            &&& q.vertices.len() == k + 8
            &&& q.indices.len() == m.indices.len() + 12
        }),
{
    reveal(with_quad);
    lemma_unit_normal_swap(edge1, edge2);
    let q1 = with_quad(m, origin, edge1, edge2);
    let q = with_quad(q1, origin, edge2, edge1);
    let t = m.indices.len() as int / 3;
    let k = m.vertices.len() as int;
    let i = m.indices.len() as int;
    assert(3 * t == i);
    assert(vadd(vadd(origin, edge1), edge2) == vadd(vadd(origin, edge2), edge1));
    assert(q.indices[i] == idx(k) && q.indices[i + 1] == idx(k + 1) && q.indices[i + 2] == idx(k + 2));
    assert(q.indices[i + 3] == idx(k) && q.indices[i + 4] == idx(k + 2) && q.indices[i + 5] == idx(k + 3));
    assert(q.indices[i + 6] == idx(k + 4) && q.indices[i + 7] == idx(k + 5) && q.indices[i + 8] == idx(k + 6));
    assert(q.indices[i + 9] == idx(k + 4) && q.indices[i + 10] == idx(k + 6) && q.indices[i + 11] == idx(k + 7));
    let c = quad_corners(origin, edge1, edge2);
    assert(q.vertices[k].position == c[0] && q.vertices[k + 1].position == c[1]);
    assert(q.vertices[k + 2].position == c[2] && q.vertices[k + 3].position == c[3]);
    assert(q.vertices[k + 4].position == c[0] && q.vertices[k + 5].position == c[3]);
    assert(q.vertices[k + 6].position == c[2] && q.vertices[k + 7].position == c[1]);
    assert(idx(k) as int == k && idx(k + 7) as int == k + 7);
    assert(triangle_positions(q, t + 2) =~= reversed(triangle_positions(q, t + 1)));
    assert(triangle_positions(q, t + 3) =~= reversed(triangle_positions(q, t)));
}

/// Triangles `t .. t + 4` of `m` are a quad whose first vertex is `k`
/// followed by its double: see `lemma_swapped_quads_mirror`.
pub open spec fn double_sided_pair(m: MeshData, t: int, k: int) -> bool {
    &&& triangle_positions(m, t + 2) == reversed(triangle_positions(m, t + 1))
    &&& triangle_positions(m, t + 3) == reversed(triangle_positions(m, t))
    &&& forall|i: int| 0 <= i < 4 ==> #[trigger] m.vertices[k + 4 + i].normal == vneg(m.vertices[k + i].normal)
}

/// Appending a quad leaves the triangles and vertices already there alone.
pub proof fn lemma_with_quad_keeps_pairs(m: MeshData, origin: Vec3, edge1: Vec3, edge2: Vec3, t: int, k: int)
    requires
        data_wf(m),
        double_sided_pair(m, t, k),
        0 <= t,
        3 * (t + 4) <= m.indices.len(),
        0 <= k,
        k + 8 <= m.vertices.len(),
    ensures
        double_sided_pair(with_quad(m, origin, edge1, edge2), t, k),
{
    lemma_with_quad_facts(m, origin, edge1, edge2);
    let q = with_quad(m, origin, edge1, edge2);
    assert forall|u: int| t <= u < t + 4 implies triangle_positions(q, u) == triangle_positions(m, u) by {
        assert(q.indices[3 * u] == m.indices[3 * u]);
        assert(q.indices[3 * u + 1] == m.indices[3 * u + 1]);
        assert(q.indices[3 * u + 2] == m.indices[3 * u + 2]);
        assert(triangle_positions(q, u) =~= triangle_positions(m, u));
    }
    assert forall|i: int| 0 <= i < 4 implies #[trigger] q.vertices[k + 4 + i].normal == vneg(q.vertices[k + i].normal) by {
        assert(q.vertices[k + 4 + i] == m.vertices[k + 4 + i]);
        assert(q.vertices[k + i] == m.vertices[k + i]);
    }
}

/// A finished mesh: a name, its vertices and a triangle list over them.
pub struct Mesh {
    pub name: String,
    pub vertices: Vec<Vertex>,
    pub indices: Vec<u32>,
}

impl Mesh {
    pub open spec fn data(&self) -> MeshData {
        MeshData { vertices: self.vertices@, indices: self.indices@ }
    }

    /// Number of triangles in the mesh.
    pub fn triangle_count(&self) -> (r: usize)
        ensures
            r == self.indices@.len() / 3,
    {
        self.indices.len() / 3
    }
}

/// Collects geometry for one mesh; `build` hands it over as a [`Mesh`].
pub struct MeshBuilder {
    name: String,
    vertices: Vec<Vertex>,
    indices: Vec<u32>,
}

impl MeshBuilder {
    pub closed spec fn name_view(&self) -> Seq<char> {
        self.name@
    }

    pub closed spec fn data(&self) -> MeshData {
        MeshData { vertices: self.vertices@, indices: self.indices@ }
    }

    pub open spec fn wf(&self) -> bool {
        data_wf(self.data())
    }

    pub fn new(name: &str) -> (r: MeshBuilder)
        ensures
            r.data() == empty_data(),
            r.name_view() == name@,
            r.wf(),
    {
        MeshBuilder { name: name.to_string(), vertices: Vec::new(), indices: Vec::new() }
    }

    pub fn vertex_count(&self) -> (r: usize)
        ensures
            r == self.data().vertices.len(),
    {
        self.vertices.len()
    }

    /// Appends the triangle `a b c` with its own three vertices, all carrying
    /// the face normal.
    pub fn add_triangle(&mut self, a: Vec3, b: Vec3, c: Vec3)
        requires
            old(self).wf(),
            old(self).data().vertices.len() + 3 <= u32::MAX,
            in_bounds(a),
            in_bounds(b),
            in_bounds(c),
        ensures
            final(self).wf(),
            final(self).data() == with_triangle(old(self).data(), a, b, c),
            final(self).data().vertices.len() == old(self).data().vertices.len() + 3,
            final(self).data().indices.len() == old(self).data().indices.len() + 3,
            final(self).name_view() == old(self).name_view(),
    {
        let n = normalized(b.minus(a).cross(c.minus(a)));
        let k = self.vertices.len() as u32;
        let color = model_color_exec();
        self.vertices.push(Vertex { position: a, normal: n, color });
        self.vertices.push(Vertex { position: b, normal: n, color });
        self.vertices.push(Vertex { position: c, normal: n, color });
        self.indices.push(k);
        self.indices.push(k + 1);
        self.indices.push(k + 2);
        proof {
            reveal(with_triangle);
            let want = with_triangle(old(self).data(), a, b, c);
            assert(self.data().vertices =~= want.vertices);
            assert(self.data().indices =~= want.indices);
        }
    }

    /// Appends the quad with corners `origin`, `origin + edge1`,
    /// `origin + edge1 + edge2` and `origin + edge2`, as the two triangles
    /// that share the diagonal from `origin` to the opposite corner. All four
    /// vertices carry the normal of `edge1 × edge2`.
    pub fn add_quad(&mut self, origin: Vec3, edge1: Vec3, edge2: Vec3)
        requires
            old(self).wf(),
            old(self).data().vertices.len() + 4 <= u32::MAX,
            bounded_by(edge1, 2 * COORD_LIMIT),
            bounded_by(edge2, 2 * COORD_LIMIT),
            in_bounds(origin),
            in_bounds(vadd(origin, edge1)),
            in_bounds(vadd(vadd(origin, edge1), edge2)),
            in_bounds(vadd(origin, edge2)),
        ensures
            final(self).wf(),
            final(self).data().vertices.len() == old(self).data().vertices.len() + 4,
            final(self).data().indices.len() == old(self).data().indices.len() + 6,
            final(self).data() == with_quad(old(self).data(), origin, edge1, edge2),
            final(self).name_view() == old(self).name_view(),
    {
        let n = normalized(edge1.cross(edge2));
        let k = self.vertices.len() as u32;
        let color = model_color_exec();
        let p1 = origin.plus(edge1);
        let p2 = p1.plus(edge2);
        let p3 = origin.plus(edge2);
        self.vertices.push(Vertex { position: origin, normal: n, color });
        self.vertices.push(Vertex { position: p1, normal: n, color });
        self.vertices.push(Vertex { position: p2, normal: n, color });
        self.vertices.push(Vertex { position: p3, normal: n, color });
        self.indices.push(k);
        self.indices.push(k + 1);
        self.indices.push(k + 2);
        self.indices.push(k);
        self.indices.push(k + 2);
        self.indices.push(k + 3);
        proof {
            reveal(with_quad);
            let want = with_quad(old(self).data(), origin, edge1, edge2);
            assert(self.data().vertices =~= want.vertices);
            assert(self.data().indices =~= want.indices);
        }
    }

    /// Appends a grid point as a new vertex. With `link`, also appends the
    /// two triangles of the grid cell whose north-east corner it is: the
    /// cell's other corners are the previous vertex (west), the vertex one
    /// row back (south) and the one before that (south-west).
    pub fn add_linked_quad(&mut self, position: Vec3, link: bool, row_stride: u32)
        requires
            old(self).wf(),
            old(self).data().vertices.len() + 1 <= u32::MAX,
            link ==> old(self).data().vertices.len() >= row_stride + 1,
            in_bounds(position),
        ensures
            final(self).wf(),
            final(self).data() == with_linked_point(old(self).data(), position, link,
                row_stride as int),
            final(self).name_view() == old(self).name_view(),
    {
        let k = self.vertices.len() as u32;
        self.vertices.push(
            Vertex { position, normal: Vec3::new(0, NORMAL_SCALE, 0), color: model_color_exec() },
        );
        if link {
            let sw = k - row_stride - 1;
            self.indices.push(sw);
            self.indices.push(k - 1);
            self.indices.push(k);
            self.indices.push(sw);
            self.indices.push(k);
            self.indices.push(k - row_stride);
        }
        proof {
            let want = with_linked_point(old(self).data(), position, link, row_stride as int);
            assert(self.data().vertices =~= want.vertices);
            assert(self.data().indices =~= want.indices);
        }
    }

    /// Hands the collected geometry over as a finished mesh.
    pub fn build(self) -> (r: Mesh)
        ensures
            r.data() == self.data(),
            r.name@ == self.name_view(),
    {
        Mesh { name: self.name, vertices: self.vertices, indices: self.indices }
    }
}

} // verus!
