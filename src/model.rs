//! Models and the procedural generators that build them.
use rayon::iter::{IntoParallelIterator, ParallelIterator};
use vstd::prelude::*;

use crate::geometry::{
    abs, bounded_by, cross, div_toward_zero, in_bounds, lemma_unit_normal_axis, normalized,
    sign_scale, unit_normal, vadd, vec3, vneg, vsub, Vec3, COORD_LIMIT, NORMAL_SCALE,
};
use crate::random::{draw_below, thread_rng};
use crate::mesh::{
    double_sided_pair, empty_data, lemma_swapped_quads_mirror, lemma_with_quad_facts,
    lemma_with_quad_keeps_pairs, model_color_exec, with_linked_point, with_quad, with_triangle,
    Mesh, MeshBuilder, MeshData, Vertex,
};

verus! {

/// The built-in shapes that take a single size.
#[derive(Clone, Copy, PartialEq, Eq, Structural, Debug)]
pub enum ModelPrimitive {
    Cube,
    Plane,
}

/// One named group of a loaded mesh file: flat coordinate arrays (three
/// per vertex, on the lattice) and a triangle list.
pub struct RawMesh {
    pub name: String,
    pub positions: Vec<i64>,
    pub normals: Vec<i64>,
    pub indices: Vec<u32>,
}

/// Why a loaded mesh was refused.
#[derive(Clone, Copy, PartialEq, Eq, Structural, Debug)]
pub enum LoadError {
    /// The position array is not whole vertices.
    RaggedPositions,
    /// There is not exactly one normal per vertex.
    NormalCount,
    /// The index list is not whole triangles.
    PartialTriangle,
    /// An index names no vertex.
    IndexOutOfRange,
}

/// What is wrong with a raw mesh, checked in the order of the variants.
pub open spec fn raw_error(p: Seq<i64>, n: Seq<i64>, idx: Seq<u32>) -> Option<LoadError> {
    if p.len() % 3 != 0 {
        Some(LoadError::RaggedPositions)
    } else if n.len() != p.len() {
        Some(LoadError::NormalCount)
    } else if idx.len() % 3 != 0 {
        Some(LoadError::PartialTriangle)
    } else if exists|k: int| 0 <= k < idx.len() && #[trigger] idx[k] >= p.len() / 3 {
        Some(LoadError::IndexOutOfRange)
    } else {
        None
    }
}

pub open spec fn raw_vertices(p: Seq<i64>, n: Seq<i64>) -> Seq<Vertex> {
    Seq::new(
        (p.len() / 3) as nat,
        |i: int|
            crate::mesh::vertex(
                vec3(p[3 * i] as int, p[3 * i + 1] as int, p[3 * i + 2] as int),
                vec3(n[3 * i] as int, n[3 * i + 1] as int, n[3 * i + 2] as int),
            ),
    )
}

impl RawMesh {
    pub open spec fn error(&self) -> Option<LoadError> {
        raw_error(self.positions@, self.normals@, self.indices@)
    }

    /// The mesh this group becomes: one vertex per position triple, tagged
    /// with the model colour, and the index list as it stands.
    pub open spec fn mesh_data(&self) -> MeshData {
        MeshData { vertices: raw_vertices(self.positions@, self.normals@), indices: self.indices@ }
    }
}

/// One or more meshes drawn as a single object.
pub struct Model {
    pub meshes: Vec<Mesh>,
}

/// Largest magnitude of a size handed to a generator.
pub const SIZE_LIMIT: i64 = 400_000;

/// How far roof panels reach past the walls, in lattice steps.
pub const ROOF_OVERHANG: i64 = 200;

/// How far the roof is lifted above the gable tops, in lattice steps.
pub const ROOF_LIFT: i64 = 1;

pub open spec fn size_ok(s: i64) -> bool {
    abs(s as int) <= SIZE_LIMIT && s % 2 == 0
}

pub open spec fn cube_data(size: i64) -> MeshData {
    let h = size / 2;
    let near = vec3(-h, -h, -h);
    let far = vec3(h, h, h);
    let up = vec3(0, size as int, 0);
    let right = vec3(size as int, 0, 0);
    let forward = vec3(0, 0, size as int);
    let m = with_quad(empty_data(), near, right, forward);
    let m = with_quad(m, near, up, right);
    let m = with_quad(m, near, forward, up);
    let m = with_quad(m, far, vec3(0, 0, -size), vec3(-size, 0, 0));
    let m = with_quad(m, far, vec3(-size, 0, 0), vec3(0, -size, 0));
    with_quad(m, far, vec3(0, -size, 0), vec3(0, 0, -size))
}

pub open spec fn plane_data(size: i64) -> MeshData {
    let h = size / 2;
    with_quad(empty_data(), vec3(-h, 0, -h), vec3(0, 0, size as int), vec3(size as int, 0, 0))
}

/// A post of the given footprint and height standing on `position`.
pub open spec fn post_data(m: MeshData, position: Vec3, width: i64, length: i64, height: i64) -> MeshData {
    let near = vec3(position.x - width / 2, position.y as int, position.z - length / 2);
    let far = vec3(position.x + width / 2, position.y + height, position.z + length / 2);
    let up = vec3(0, height as int, 0);
    let right = vec3(width as int, 0, 0);
    let forward = vec3(0, 0, length as int);
    let m = with_quad(m, near, up, right);
    let m = with_quad(m, near, forward, up);
    let m = with_quad(m, far, vec3(0, 0, -length), vec3(-width, 0, 0));
    let m = with_quad(m, far, vec3(-width, 0, 0), vec3(0, -height, 0));
    with_quad(m, far, vec3(0, -height, 0), vec3(0, 0, -length))
}

/// The part of a unit normal `n` that reaches `ROOF_OVERHANG` along it.
pub open spec fn overhang_along(n: Vec3) -> Vec3 {
    vec3(
        div_toward_zero(n.x * ROOF_OVERHANG, NORMAL_SCALE as int),
        div_toward_zero(n.y * ROOF_OVERHANG, NORMAL_SCALE as int),
        div_toward_zero(n.z * ROOF_OVERHANG, NORMAL_SCALE as int),
    )
}

/// A roof slope from the peak, lengthened by the overhang.
pub open spec fn roof_slope(v: Vec3) -> Vec3 {
    vadd(v, overhang_along(unit_normal(v)))
}

pub open spec fn house_walls(width: i64, length: i64, height: i64) -> MeshData {
    let near = vec3(-(width / 2), 0, -(length / 2));
    let far = vec3(width / 2, height as int, length / 2);
    let up = vec3(0, height as int, 0);
    let right = vec3(width as int, 0, 0);
    let forward = vec3(0, 0, length as int);
    let m = with_quad(empty_data(), near, up, right);
    let m = with_quad(m, near, forward, up);
    let m = with_quad(m, far, vec3(-width, 0, 0), vec3(0, -height, 0));
    with_quad(m, far, vec3(0, -height, 0), vec3(0, 0, -length))
}

pub open spec fn wall_top_left(width: i64, length: i64, height: i64) -> Vec3 {
    vec3(-(width / 2), height as int, -(length / 2))
}

pub open spec fn wall_top_right(width: i64, length: i64, height: i64) -> Vec3 {
    vec3(width / 2, height as int, -(length / 2))
}

/// The gable peak above the front wall: centred across the width, half the
/// wall height above the wall tops.
pub open spec fn gable_peak(width: i64, length: i64, height: i64) -> Vec3 {
    vec3(0, height + height / 2, -(length / 2))
}

pub open spec fn house_data(width: i64, length: i64, height: i64) -> MeshData {
    let left = wall_top_left(width, length, height);
    let right = wall_top_right(width, length, height);
    let peak = gable_peak(width, length, height);
    let forward = vec3(0, 0, length as int);
    let m = with_triangle(house_walls(width, length, height), left, peak, right);
    let m = with_triangle(m, vadd(left, forward), vadd(right, forward), vadd(peak, forward));
    let slope_left = roof_slope(vsub(left, peak));
    let slope_right = roof_slope(vsub(right, peak));
    let roof_peak = vec3(0, peak.y + ROOF_LIFT, peak.z - ROOF_OVERHANG);
    let roof_run = vec3(0, 0, length + 2 * ROOF_OVERHANG);
    let m = with_quad(m, roof_peak, roof_run, slope_left);
    let m = with_quad(m, roof_peak, slope_left, roof_run);
    let m = with_quad(m, roof_peak, slope_right, roof_run);
    with_quad(m, roof_peak, roof_run, slope_right)
}

fn overhang_along_exec(n: Vec3) -> (r: Vec3)
    requires
        bounded_by(n, NORMAL_SCALE as int),
    ensures
        r == overhang_along(n),
        bounded_by(r, ROOF_OVERHANG as int),
{
    Vec3::new(
        toward_zero_fifth(n.x),
        toward_zero_fifth(n.y),
        toward_zero_fifth(n.z),
    )
}

/// `c * ROOF_OVERHANG / NORMAL_SCALE`, rounded toward zero.
fn toward_zero_fifth(c: i64) -> (r: i64)
    requires
        abs(c as int) <= NORMAL_SCALE,
    ensures
        r as int == div_toward_zero(c * ROOF_OVERHANG, NORMAL_SCALE as int),
        abs(r as int) <= ROOF_OVERHANG,
{
    if c >= 0 {
        c * 200 / 1000
    } else {
        -((-c) * 200 / 1000)
    }
}

fn add_house_walls(builder: &mut MeshBuilder, width: i64, length: i64, height: i64)
    requires
        old(builder).wf(),
        old(builder).data() == empty_data(),
        size_ok(width),
        size_ok(length),
        size_ok(height),
    ensures
        final(builder).wf(),
        final(builder).data() == house_walls(width, length, height),
        final(builder).data().vertices.len() == 16,
        final(builder).data().indices.len() == 24,
        final(builder).name_view() == old(builder).name_view(),
{
    let hw = width / 2;
    let hl = length / 2;
    let near = Vec3::new(-hw, 0, -hl);
    let far = Vec3::new(hw, height, hl);
    let up = Vec3::new(0, height, 0);
    let right = Vec3::new(width, 0, 0);
    let forward = Vec3::new(0, 0, length);
    builder.add_quad(near, up, right);
    builder.add_quad(near, forward, up);
    builder.add_quad(far, Vec3::new(-width, 0, 0), Vec3::new(0, -height, 0));
    builder.add_quad(far, Vec3::new(0, -height, 0), Vec3::new(0, 0, -length));
}

/// Extends `v`, a slope from the roof peak, by the overhang.
fn roof_slope_exec(v: Vec3) -> (r: Vec3)
    requires
        bounded_by(v, SIZE_LIMIT / 2),
    ensures
        r == roof_slope(v),
        bounded_by(r, SIZE_LIMIT / 2 + ROOF_OVERHANG),
{
    v.plus(overhang_along_exec(normalized(v)))
}

#[verifier::rlimit(40)]
fn add_house_roof(builder: &mut MeshBuilder, width: i64, length: i64, height: i64)
    requires
        old(builder).wf(),
        old(builder).data().vertices.len() == 22,
        old(builder).data().indices.len() == 30,
        size_ok(width),
        size_ok(length),
        size_ok(height),
    ensures
        final(builder).wf(),
        ({
            let peak = gable_peak(width, length, height);
            let slope_left = roof_slope(vsub(wall_top_left(width, length, height), peak));
            let slope_right = roof_slope(vsub(wall_top_right(width, length, height), peak));
            let roof_peak = vec3(0, peak.y + ROOF_LIFT, peak.z - ROOF_OVERHANG);
            let roof_run = vec3(0, 0, length + 2 * ROOF_OVERHANG);
            let m = with_quad(old(builder).data(), roof_peak, roof_run, slope_left);
            let m = with_quad(m, roof_peak, slope_left, roof_run);
            let m = with_quad(m, roof_peak, slope_right, roof_run);
            final(builder).data() == with_quad(m, roof_peak, roof_run, slope_right)
        }),
        double_sided_pair(final(builder).data(), 10, 22),
        double_sided_pair(final(builder).data(), 14, 30),
        final(builder).name_view() == old(builder).name_view(),
{
    let hw = width / 2;
    let hl = length / 2;
    let peak = Vec3::new(0, height + height / 2, -hl);
    let slope_left = roof_slope_exec(Vec3::new(-hw, height, -hl).minus(peak));
    let slope_right = roof_slope_exec(Vec3::new(hw, height, -hl).minus(peak));
    let roof_peak = Vec3::new(0, peak.y + ROOF_LIFT, peak.z - ROOF_OVERHANG);
    let roof_run = Vec3::new(0, 0, length + 2 * ROOF_OVERHANG);
    assert(in_bounds(vadd(roof_peak, roof_run)) && in_bounds(roof_peak));
    assert(in_bounds(vadd(roof_peak, slope_left)) && in_bounds(vadd(roof_peak, slope_right)));
    assert(in_bounds(vadd(vadd(roof_peak, roof_run), slope_left)));
    assert(in_bounds(vadd(vadd(roof_peak, roof_run), slope_right)));
    assert(in_bounds(vadd(vadd(roof_peak, slope_left), roof_run)));
    assert(in_bounds(vadd(vadd(roof_peak, slope_right), roof_run)));
    let ghost m0 = builder.data();
    builder.add_quad(roof_peak, roof_run, slope_left);
    builder.add_quad(roof_peak, slope_left, roof_run);
    let ghost m2 = builder.data();
    builder.add_quad(roof_peak, slope_right, roof_run);
    let ghost m3 = builder.data();
    builder.add_quad(roof_peak, roof_run, slope_right);
    proof {
        lemma_swapped_quads_mirror(m0, roof_peak, roof_run, slope_left);
        lemma_swapped_quads_mirror(m2, roof_peak, slope_right, roof_run);
        lemma_with_quad_keeps_pairs(m2, roof_peak, slope_right, roof_run, 10, 22);
        lemma_with_quad_keeps_pairs(m3, roof_peak, roof_run, slope_right, 10, 22);
    }
}

/// Grid point `j` of row `i` of a surface with `count` cells a side: rows
/// run along Z and columns along X, `2 * size` apart, centred on the origin;
/// the height is taken from `heights` in row-major order.
pub open spec fn grid_point(count: int, size: int, heights: Seq<i64>, i: int, j: int) -> Vec3 {
    vec3(size * (2 * j - count), heights[i * (count + 1) + j] as int, size * (2 * i - count))
}

/// The mesh after the first `i` rows of the grid and the first `j` points of
/// row `i` have been added; a point closes a cell unless it lies in the first
/// row or column.
pub open spec fn surface_prefix(count: int, size: int, heights: Seq<i64>, i: int, j: int) -> MeshData
    decreases i, j,
    when i >= 0 && j >= 0
{
    if j == 0 {
        if i == 0 {
            empty_data()
        } else {
            surface_prefix(count, size, heights, i - 1, count + 1)
        }
    } else {
        with_linked_point(
            surface_prefix(count, size, heights, i, j - 1),
            grid_point(count, size, heights, i, j - 1),
            i > 0 && j - 1 > 0,
            count + 1,
        )
    }
}

pub open spec fn surface_data(count: int, size: int, heights: Seq<i64>) -> MeshData {
    surface_prefix(count, size, heights, count + 1, 0)
}

/// Cells closed once `j` points of row `i` are in.
pub open spec fn cells_closed(count: int, i: int, j: int) -> int {
    if i == 0 {
        0
    } else if j == 0 {
        (i - 1) * count
    } else {
        (i - 1) * count + (j - 1)
    }
}

proof fn lemma_surface_prefix(count: int, size: int, heights: Seq<i64>, i: int, j: int)
    requires
        count >= 0,
        0 <= i,
        0 <= j <= count + 1,
        i <= count + 1,
        j > 0 ==> i <= count,
        heights.len() == (count + 1) * (count + 1),
    ensures
        surface_prefix(count, size, heights, i, j).vertices.len() == i * (count + 1) + j,
        surface_prefix(count, size, heights, i, j).indices.len() == 6 * cells_closed(count, i, j),
        forall|k: int| 0 <= k < i * (count + 1) + j ==>
            (#[trigger] surface_prefix(count, size, heights, i, j).vertices[k]).position.y
                == heights[k],
    decreases i, j,
{
    let m = surface_prefix(count, size, heights, i, j);
    if j == 0 {
        if i == 0 {
            assert(i * (count + 1) + j == 0);
        } else {
            lemma_surface_prefix(count, size, heights, i - 1, count + 1);
            assert(m == surface_prefix(count, size, heights, i - 1, count + 1));
            assert((i - 1) * (count + 1) + count + 1 == i * (count + 1)) by (nonlinear_arith);
            assert(cells_closed(count, i - 1, count + 1) == cells_closed(count, i, 0)) by (nonlinear_arith)
                requires
                    i >= 1,
                    cells_closed(count, i - 1, count + 1) == if i - 1 == 0 { 0 } else { (i - 2) * count + count },
                    cells_closed(count, i, 0) == (i - 1) * count,
            ;
        }
    } else {
        lemma_surface_prefix(count, size, heights, i, j - 1);
        let prev = surface_prefix(count, size, heights, i, j - 1);
        let k = i * (count + 1) + j - 1;
        assert(k < heights.len()) by (nonlinear_arith)
            requires
                k == i * (count + 1) + j - 1,
                0 <= i <= count,
                1 <= j <= count + 1,
                heights.len() == (count + 1) * (count + 1),
        ;
        assert(m.vertices == prev.vertices.push(
            crate::mesh::vertex(grid_point(count, size, heights, i, j - 1), crate::mesh::up_normal())));
        assert(m.vertices.len() == k + 1);
        assert(m.vertices[k].position.y == heights[k]);
        assert forall|q: int| 0 <= q < i * (count + 1) + j implies
            (#[trigger] m.vertices[q]).position.y == heights[q] by {
            if q < k {
                assert(m.vertices[q] == prev.vertices[q]);
            }
        }
    }
}

/// Adds grid points `from_j..count + 1` of row `i` to the builder.
fn add_grid_row(builder: &mut MeshBuilder, count: u32, size: i64, heights: &Vec<i64>, i: u32)
    requires
        old(builder).wf(),
        old(builder).data() == surface_prefix(count as int, size as int, heights@, i as int, 0),
        i <= count,
        (count + 1) * (count + 1) <= u32::MAX,
        heights@.len() == (count + 1) * (count + 1),
        abs(size as int) * count <= COORD_LIMIT,
        forall|k: int| 0 <= k < heights@.len() ==> abs(#[trigger] heights@[k] as int) <= COORD_LIMIT,
    ensures
        final(builder).wf(),
        final(builder).data() == surface_prefix(count as int, size as int, heights@, i as int, count + 1),
        final(builder).name_view() == old(builder).name_view(),
{
    assert(count + 1 <= u32::MAX) by (nonlinear_arith)
        requires
            (count + 1) * (count + 1) <= u32::MAX,
    ;
    let n: u32 = count + 1;
    let ghost c = count as int;
    assert(abs(size * (2 * i - c)) <= COORD_LIMIT) by (nonlinear_arith)
        requires
            abs(size as int) * c <= COORD_LIMIT,
            0 <= i <= c,
    ;
    assert((i as int) * (n as int) + n <= n * n) by (nonlinear_arith)
        requires
            i < n,
    ;
    let z: i64 = size * (2 * (i as i64) - (count as i64));
    let mut j: u32 = 0;
    while j < n
        invariant
            0 <= j <= n,
            n == count + 1,
            i <= count,
            n * n <= u32::MAX,
            (i as int) * (n as int) + n <= n * n,
            heights@.len() == n * n,
            abs(size as int) * count <= COORD_LIMIT,
            z == size * (2 * i - c),
            abs(z as int) <= COORD_LIMIT,
            c == count,
            forall|k: int| 0 <= k < heights@.len() ==> abs(#[trigger] heights@[k] as int) <= COORD_LIMIT,
            builder.wf(),
            builder.data() == surface_prefix(c, size as int, heights@, i as int, j as int),
            builder.name_view() == old(builder).name_view(),
        decreases n - j,
    {
        proof {
            lemma_surface_prefix(c, size as int, heights@, i as int, j as int);
        }
        assert(abs(size * (2 * j - c)) <= COORD_LIMIT) by (nonlinear_arith)
            requires
                abs(size as int) * c <= COORD_LIMIT,
                0 <= j <= c,
        ;
        let x: i64 = size * (2 * (j as i64) - (count as i64));
        let k: u32 = i * n + j;
        let y = heights[k as usize];
        let link = i > 0 && j > 0;
        assert(link ==> k >= n + 1) by (nonlinear_arith)
            requires
                k == i * n + j,
                link == (i > 0 && j > 0),
        ;
        builder.add_linked_quad(Vec3::new(x, y, z), link, n);
        j = j + 1;
    }
}

fn check_raw(raw: &RawMesh) -> (r: Option<LoadError>)
    ensures
        r == raw.error(),
{
    let np = raw.positions.len();
    if np % 3 != 0 {
        return Some(LoadError::RaggedPositions);
    }
    if raw.normals.len() != np {
        return Some(LoadError::NormalCount);
    }
    if raw.indices.len() % 3 != 0 {
        return Some(LoadError::PartialTriangle);
    }
    let nv = np / 3;
    let mut k: usize = 0;
    while k < raw.indices.len()
        invariant
            k <= raw.indices@.len(),
            nv == raw.positions@.len() / 3,
            np == raw.positions@.len(),
            np % 3 == 0,
            raw.normals@.len() == np,
            raw.indices@.len() % 3 == 0,
            forall|q: int| 0 <= q < k ==> #[trigger] raw.indices@[q] < nv,
        decreases raw.indices@.len() - k,
    {
        if raw.indices[k] as usize >= nv {
            assert(raw.indices@[k as int] >= raw.positions@.len() / 3);
            return Some(LoadError::IndexOutOfRange);
        }
        k = k + 1;
    }
    None
}

/// Vertex `i` of a well-formed raw mesh.
fn raw_vertex(raw: &RawMesh, i: usize) -> (r: Vertex)
    requires
        raw.error() is None,
        i < raw.positions@.len() / 3,
    ensures
        r == raw_vertices(raw.positions@, raw.normals@)[i as int],
{
    let p = &raw.positions;
    let n = &raw.normals;
    let np = p.len();
    assert(3 * i + 2 < np);
    Vertex {
        position: Vec3::new(p[3 * i], p[3 * i + 1], p[3 * i + 2]),
        normal: Vec3::new(n[3 * i], n[3 * i + 1], n[3 * i + 2]),
        color: model_color_exec(),
    }
}

/// Relies on rayon's `collect` of an indexed parallel iterator into a
/// `Vec`: the item made from `i` in `0..count` lands at index `i`. Each item
/// is made by `raw_vertex`.
#[verifier::external_body]
fn par_raw_vertices(raw: &RawMesh, count: usize) -> (r: Vec<Vertex>)
    requires
        raw.error() is None,
        count == raw.positions@.len() / 3,
    ensures
        r@ == raw_vertices(raw.positions@, raw.normals@),
{
    (0..count).into_par_iter().map(|i| raw_vertex(raw, i)).collect()
}

fn mesh_from_raw(raw: &RawMesh) -> (r: Mesh)
    requires
        raw.error() is None,
    ensures
        r.data() == raw.mesh_data(),
        r.name@ == raw.name@,
{
    let vertices = par_raw_vertices(raw, raw.positions.len() / 3);
    Mesh { name: raw.name.clone(), vertices, indices: raw.indices.clone() }
}

fn one_mesh(mesh: Mesh) -> (r: Model)
    ensures
        r.meshes@ == seq![mesh],
{
    let mut meshes: Vec<Mesh> = Vec::new();
    meshes.push(mesh);
    Model { meshes }
}

impl Model {
    pub open spec fn single(&self, name: Seq<char>, data: MeshData) -> bool {
        &&& self.meshes@.len() == 1
        &&& self.meshes@[0].data() == data
        &&& self.meshes@[0].name@ == name
    }

    /// Appends a post (four walls and a top) of the given footprint and
    /// height, whose bottom face is centred on `position`.
    #[verifier::rlimit(50)]
    pub fn add_post(builder: &mut MeshBuilder, position: Vec3, width: i64, length: i64, height: i64)
        requires
            old(builder).wf(),
            old(builder).data().vertices.len() + 20 <= u32::MAX,
            size_ok(width),
            size_ok(length),
            abs(height as int) <= SIZE_LIMIT,
            bounded_by(position, SIZE_LIMIT as int),
        ensures
            final(builder).wf(),
            final(builder).data() == post_data(old(builder).data(), position, width, length, height),
            final(builder).name_view() == old(builder).name_view(),
    {
        let hw = width / 2;
        let hl = length / 2;
        assert(abs(hw as int) <= 200_000 && abs(hl as int) <= 200_000);
        let near = Vec3::new(position.x - hw, position.y, position.z - hl);
        let far = Vec3::new(position.x + hw, position.y + height, position.z + hl);
        let up = Vec3::new(0, height, 0);
        let right = Vec3::new(width, 0, 0);
        let forward = Vec3::new(0, 0, length);
        assert(in_bounds(near) && in_bounds(far));
        assert(in_bounds(vadd(near, up)) && in_bounds(vadd(near, right)) && in_bounds(vadd(near, forward)));
        assert(in_bounds(vadd(vadd(near, up), right)) && in_bounds(vadd(vadd(near, forward), up)));
        builder.add_quad(near, up, right);
        builder.add_quad(near, forward, up);
        builder.add_quad(far, Vec3::new(0, 0, -length), Vec3::new(-width, 0, 0));
        builder.add_quad(far, Vec3::new(-width, 0, 0), Vec3::new(0, -height, 0));
        builder.add_quad(far, Vec3::new(0, -height, 0), Vec3::new(0, 0, -length));
    }

    /// A house: four walls of the given footprint and height, a gable at
    /// front and back, and a roof that overhangs the walls by
    /// `ROOF_OVERHANG` along both slopes and at both ends. Each roof panel is
    /// emitted twice, once per winding, so that it shows from both sides.
    pub fn house(width: i64, length: i64, height: i64) -> (r: Model)
        requires
            size_ok(width),
            size_ok(length),
            size_ok(height),
        ensures
            r.single("House"@, house_data(width, length, height)),
            double_sided_pair(house_data(width, length, height), 10, 22),
            double_sided_pair(house_data(width, length, height), 14, 30),
    {
        let mut builder = MeshBuilder::new("House");
        add_house_walls(&mut builder, width, length, height);
        let left_top = Vec3::new(-(width / 2), height, -(length / 2));
        let right_top = Vec3::new(width / 2, height, -(length / 2));
        let peak = Vec3::new(0, height + height / 2, -(length / 2));
        let forward = Vec3::new(0, 0, length);
        builder.add_triangle(left_top, peak, right_top);
        builder.add_triangle(left_top.plus(forward), right_top.plus(forward), peak.plus(forward));
        add_house_roof(&mut builder, width, length, height);
        proof {
            reveal_strlit("House");
        }
        one_mesh(builder.build())
    }

    /// A height field of `count` by `count` cells: `(count + 1)²` grid
    /// points `2 * size` apart, centred on the origin, whose heights are
    /// `heights` in row-major order. Every point is one vertex; each point
    /// outside the first row and column closes the cell to its south-west.
    pub fn surface_from_heights(count: u32, size: i64, heights: &Vec<i64>) -> (r: Model)
        requires
            (count + 1) * (count + 1) <= u32::MAX,
            heights@.len() == (count + 1) * (count + 1),
            abs(size as int) * count <= COORD_LIMIT,
            forall|k: int| 0 <= k < heights@.len() ==> abs(#[trigger] heights@[k] as int) <= COORD_LIMIT,
        ensures
            r.single("Quad Grid"@, surface_data(count as int, size as int, heights@)),
    {
        let mut builder = MeshBuilder::new("Quad Grid");
        assert(count + 1 <= u32::MAX) by (nonlinear_arith)
            requires
                (count + 1) * (count + 1) <= u32::MAX,
        ;
        let mut i: u32 = 0;
        while i <= count
            invariant
                0 <= i <= count + 1,
                count + 1 <= u32::MAX,
                (count + 1) * (count + 1) <= u32::MAX,
                heights@.len() == (count + 1) * (count + 1),
                abs(size as int) * count <= COORD_LIMIT,
                forall|k: int| 0 <= k < heights@.len() ==> abs(#[trigger] heights@[k] as int) <= COORD_LIMIT,
                builder.wf(),
                builder.data() == surface_prefix(count as int, size as int, heights@, i as int, 0),
                builder.name_view() == "Quad Grid"@,
            decreases count + 1 - i,
        {
            add_grid_row(&mut builder, count, size, heights, i);
            i = i + 1;
        }
        proof {
            reveal_strlit("Quad Grid");
        }
        one_mesh(builder.build())
    }

    /// A height field as in `surface_from_heights`, each height drawn at
    /// random from `0..height_max`.
    pub fn surface(count: u32, size: i64, height_max: i64) -> (r: Model)
        requires
            (count + 1) * (count + 1) <= u32::MAX,
            abs(size as int) * count <= COORD_LIMIT,
            0 < height_max <= COORD_LIMIT,
        ensures
            exists|heights: Seq<i64>|
                #![trigger surface_data(count as int, size as int, heights)]
                {
                    &&& heights.len() == (count + 1) * (count + 1)
                    &&& forall|k: int| 0 <= k < heights.len() ==> 0 <= #[trigger] heights[k] < height_max
                    &&& r.single("Quad Grid"@, surface_data(count as int, size as int, heights))
                },
    {
        assert(count + 1 <= u32::MAX) by (nonlinear_arith)
            requires
                (count + 1) * (count + 1) <= u32::MAX,
        ;
        let n: u32 = count + 1;
        let total: u32 = n * n;
        let mut rng = thread_rng();
        let mut heights: Vec<i64> = Vec::new();
        let mut k: u32 = 0;
        while k < total
            invariant
                k <= total,
                0 < height_max <= COORD_LIMIT,
                total == (count + 1) * (count + 1),
                heights@.len() == k,
                forall|q: int| 0 <= q < k ==> 0 <= #[trigger] heights@[q] < height_max,
            decreases total - k,
        {
            let h = draw_below(&mut rng, height_max);
            heights.push(h);
            k = k + 1;
        }
        let r = Model::surface_from_heights(count, size, &heights);
        assert(heights@.len() == (count + 1) * (count + 1));
        r
    }

    /// Turns the groups read from a mesh file into a model, one mesh per
    /// group in order. Fails with the first group's error if any group is
    /// malformed.
    pub fn load(raws: &Vec<RawMesh>) -> (r: Result<Model, LoadError>)
        ensures
            match r {
                Ok(m) => {
                    &&& forall|k: int| 0 <= k < raws@.len() ==> (#[trigger] raws@[k]).error() is None
                    &&& m.meshes@.len() == raws@.len()
                    &&& forall|k: int| 0 <= k < raws@.len() ==> {
                        &&& (#[trigger] m.meshes@[k]).data() == raws@[k].mesh_data()
                        &&& m.meshes@[k].name@ == raws@[k].name@
                    }
                },
                Err(e) => exists|k: int|
                    0 <= k < raws@.len() && (#[trigger] raws@[k]).error() == Some(e)
                        && forall|q: int| 0 <= q < k ==> (#[trigger] raws@[q]).error() is None,
            },
    {
        let mut meshes: Vec<Mesh> = Vec::new();
        let mut k: usize = 0;
        while k < raws.len()
            invariant
                k <= raws@.len(),
                meshes@.len() == k,
                forall|q: int| 0 <= q < k ==> (#[trigger] raws@[q]).error() is None,
                forall|q: int| 0 <= q < k ==> {
                    &&& (#[trigger] meshes@[q]).data() == raws@[q].mesh_data()
                    &&& meshes@[q].name@ == raws@[q].name@
                },
            decreases raws@.len() - k,
        {
            match check_raw(&raws[k]) {
                Some(e) => {
                    return Err(e);
                },
                None => {},
            }
            meshes.push(mesh_from_raw(&raws[k]));
            k = k + 1;
        }
        Ok(Model { meshes })
    }

    /// A cube of edge `size` centred on the origin, normals facing out.
    pub fn cube(size: i64) -> (r: Model)
        requires
            size_ok(size),
        ensures
            r.single("Cube"@, cube_data(size)),
    {
        let mut builder = MeshBuilder::new("Cube");
        let h = size / 2;
        let near = Vec3::new(-h, -h, -h);
        let far = Vec3::new(h, h, h);
        let up = Vec3::new(0, size, 0);
        let right = Vec3::new(size, 0, 0);
        let forward = Vec3::new(0, 0, size);
        builder.add_quad(near, right, forward);
        builder.add_quad(near, up, right);
        builder.add_quad(near, forward, up);
        builder.add_quad(far, Vec3::new(0, 0, -size), Vec3::new(-size, 0, 0));
        builder.add_quad(far, Vec3::new(-size, 0, 0), Vec3::new(0, -size, 0));
        builder.add_quad(far, Vec3::new(0, -size, 0), Vec3::new(0, 0, -size));
        proof {
            reveal_strlit("Cube");
        }
        one_mesh(builder.build())
    }

    /// A square of edge `size` in the X-Z plane, centred on the origin, its
    /// normal pointing up.
    pub fn plane(size: i64) -> (r: Model)
        requires
            size_ok(size),
        ensures
            r.single("Plane"@, plane_data(size)),
    {
        let mut builder = MeshBuilder::new("Plane");
        let h = size / 2;
        builder.add_quad(Vec3::new(-h, 0, -h), Vec3::new(0, 0, size), Vec3::new(size, 0, 0));
        proof {
            reveal_strlit("Plane");
        }
        one_mesh(builder.build())
    }
}

} // verus!
