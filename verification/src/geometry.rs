use vstd::prelude::*;
use crate::grid::flat_index;
use crate::grid::grid_index;
use crate::grid::lemma_grid_coords;
use crate::grid::lemma_grid_index;
use crate::heightfield::height_of;
use crate::heightfield::heights_of;
use crate::heightfield::lemma_height_sample;
use crate::heightfield::lemma_zero_amplitude_is_flat;
use crate::heightfield::sample_heights;
use crate::params::MapParams;

verus! {

/// One point of the surface: where it lies and which way the surface faces
/// there. All lengths are in thousandths; the normal is not normalised.
#[derive(Clone, Copy, Debug, PartialEq, Eq, Structural)]
pub struct Vertex {
    pub x: i64,
    pub y: i64,
    pub z: i64,
    pub nx: i64,
    pub ny: i64,
    pub nz: i64,
}

/// The grid coordinate before `i`, or `i` itself at the border.
pub open spec fn lower_neighbour(i: int) -> int {
    if i > 0 {
        i - 1
    } else {
        i
    }
}

/// The grid coordinate after `i` on an axis of `n` points, or `i` itself at
/// the border.
pub open spec fn upper_neighbour(i: int, n: int) -> int {
    if i + 1 < n {
        i + 1
    } else {
        i
    }
}

/// The vertex at grid point `(i, j)`.
///
/// Its normal is `(-dh/dx, 1, -dh/dz)`, with the slopes taken between the
/// neighbouring grid points, multiplied by both horizontal spans so that it
/// stays in integers.
pub open spec fn vertex_of(p: MapParams, i: int, j: int) -> Vertex {
    let il = lower_neighbour(i);
    let ir = upper_neighbour(i, p.width as int);
    let jl = lower_neighbour(j);
    let jr = upper_neighbour(j, p.height as int);
    let span_x = (ir - il) * p.scale;
    let span_z = (jr - jl) * p.scale;
    let rise_x = height_of(p, ir, j) - height_of(p, il, j);
    let rise_z = height_of(p, i, jr) - height_of(p, i, jl);
    Vertex {
        x: (i * p.scale) as i64,
        y: height_of(p, i, j) as i64,
        z: (j * p.scale) as i64,
        nx: (-rise_x * span_z) as i64,
        ny: (span_x * span_z) as i64,
        nz: (-rise_z * span_x) as i64,
    }
}

/// The vertices of the surface, row by row.
pub open spec fn vertices_of(p: MapParams) -> Seq<Vertex> {
    Seq::new(
        p.vertex_count() as nat,
        |k: int| vertex_of(p, k % (p.width as int), k / (p.width as int)),
    )
}

/// The vertex position that cell `(ci, cj)` uses at place `corner` of its six.
///
/// The cell's two triangles are (near, far, near + 1) and (near + 1, far,
/// far + 1), where `near` is the cell's own grid point and `far` the one a row
/// further.
pub open spec fn cell_corner(p: MapParams, ci: int, cj: int, corner: int) -> int {
    let near = grid_index(p.width as int, ci, cj);
    let far = grid_index(p.width as int, ci, cj + 1);
    if corner == 0 {
        near
    } else if corner == 1 || corner == 4 {
        far
    } else if corner == 2 || corner == 3 {
        near + 1
    } else {
        far + 1
    }
}

/// The index at position `n` of the index sequence.
pub open spec fn index_of(p: MapParams, n: int) -> u32 {
    let cell = n / 6;
    cell_corner(p, cell % (p.width - 1), cell / (p.width - 1), n % 6) as u32
}

/// The indices of the surface: six for each cell, cells row by row.
pub open spec fn indices_of(p: MapParams) -> Seq<u32> {
    Seq::new((6 * p.cell_count()) as nat, |n: int| index_of(p, n))
}

/// What a geometry buffer holds.
pub ghost struct GeometryView {
    pub vertices: Seq<Vertex>,
    pub indices: Seq<u32>,
}

impl GeometryView {
    /// Number of triangles.
    pub open spec fn triangle_count(self) -> int {
        self.indices.len() as int / 3
    }

    /// Every index names a vertex.
    pub open spec fn indices_in_bounds(self) -> bool {
        forall|n: int|
            0 <= n < self.indices.len() ==> (#[trigger] self.indices[n]) < self.vertices.len()
    }

    /// The vertex at place `c` (0, 1 or 2) of triangle `t`.
    pub open spec fn corner(self, t: int, c: int) -> Vertex {
        self.vertices[self.indices[3 * t + c] as int]
    }

    /// Twice the area of triangle `t` as seen from above, positive when its
    /// front faces up.
    pub open spec fn turn(self, t: int) -> int {
        let a = self.corner(t, 0);
        let b = self.corner(t, 1);
        let c = self.corner(t, 2);
        (b.z - a.z) * (c.x - a.x) - (b.x - a.x) * (c.z - a.z)
    }

    /// Every triangle has its front facing up, so none is degenerate and all
    /// wind the same way.
    pub open spec fn winds_upward(self) -> bool {
        forall|t: int| 0 <= t < self.triangle_count() ==> #[trigger] self.turn(t) > 0
    }

    /// The indices form whole triangles, each index names a vertex, and all
    /// triangles wind the same way.
    pub open spec fn well_formed(self) -> bool {
        &&& self.indices.len() % 3 == 0
        &&& self.indices_in_bounds()
        &&& self.winds_upward()
    }
}

/// The geometry generated from `p`.
pub open spec fn geometry_of(p: MapParams) -> GeometryView {
    GeometryView { vertices: vertices_of(p), indices: indices_of(p) }
}

/// The number of cells is positive and small enough to index.
pub proof fn lemma_counts_in_range(p: MapParams)
    requires
        p.is_valid(),
    ensures
        4 <= p.vertex_count() <= 1024 * 1024,
        1 <= p.cell_count() < p.vertex_count(),
{
    let w = p.width as int;
    let h = p.height as int;
    assert(4 <= w * h <= 1024 * 1024 && 1 <= (w - 1) * (h - 1) < w * h) by (nonlinear_arith)
        requires
            2 <= w <= 1024,
            2 <= h <= 1024,
    ;
}

/// A grid of `width` by `height` points has that many vertices and two
/// triangles for each of its cells.
pub proof fn lemma_geometry_counts(p: MapParams)
    requires
        p.is_valid(),
    ensures
        geometry_of(p).vertices.len() == p.width * p.height,
        geometry_of(p).indices.len() == 6 * ((p.width - 1) * (p.height - 1)),
        geometry_of(p).triangle_count() == 2 * ((p.width - 1) * (p.height - 1)),
{
    lemma_counts_in_range(p);
}

/// The six corners of a cell are the row-major positions of its four grid
/// points.
proof fn lemma_cell_corners(p: MapParams, ci: int, cj: int)
    requires
        p.is_valid(),
        0 <= ci < p.width - 1,
        0 <= cj < p.height - 1,
    ensures
        cell_corner(p, ci, cj, 0) == grid_index(p.width as int, ci, cj),
        cell_corner(p, ci, cj, 1) == grid_index(p.width as int, ci, cj + 1),
        cell_corner(p, ci, cj, 2) == grid_index(p.width as int, ci + 1, cj),
        cell_corner(p, ci, cj, 3) == grid_index(p.width as int, ci + 1, cj),
        cell_corner(p, ci, cj, 4) == grid_index(p.width as int, ci, cj + 1),
        cell_corner(p, ci, cj, 5) == grid_index(p.width as int, ci + 1, cj + 1),
        forall|corner: int|
            0 <= corner < 6 ==> 0 <= #[trigger] cell_corner(p, ci, cj, corner) < p.vertex_count(),
{
    let w = p.width as int;
    let h = p.height as int;
    lemma_grid_index(w, h, ci, cj);
    lemma_grid_index(w, h, ci + 1, cj);
    lemma_grid_index(w, h, ci, cj + 1);
    lemma_grid_index(w, h, ci + 1, cj + 1);
}

/// The cell that position `n` of the index sequence belongs to.
proof fn lemma_index_cell(p: MapParams, n: int)
    requires
        p.is_valid(),
        0 <= n < 6 * p.cell_count(),
    ensures
        0 <= (n / 6) % (p.width - 1) < p.width - 1,
        0 <= (n / 6) / (p.width - 1) < p.height - 1,
        0 <= index_of(p, n) < p.vertex_count(),
        index_of(p, n) == cell_corner(p, (n / 6) % (p.width - 1), (n / 6) / (p.width - 1), n % 6),
{
    lemma_counts_in_range(p);
    let cell = n / 6;
    lemma_grid_coords(p.width - 1, p.height - 1, cell);
    lemma_cell_corners(p, cell % (p.width - 1), cell / (p.width - 1));
    assert(0 <= n % 6 < 6);
}

/// Every generated index names a generated vertex.
pub proof fn lemma_geometry_in_bounds(p: MapParams)
    requires
        p.is_valid(),
    ensures
        geometry_of(p).indices_in_bounds(),
{
    lemma_counts_in_range(p);
    let g = geometry_of(p);
    assert forall|n: int| 0 <= n < g.indices.len() implies (#[trigger] g.indices[n])
        < g.vertices.len() by {
        lemma_index_cell(p, n);
    }
}

/// The generated vertex at the row-major position of grid point `(i, j)` lies
/// at `(i, j)` times the horizontal spacing.
proof fn lemma_vertex_place(p: MapParams, i: int, j: int)
    requires
        p.is_valid(),
        0 <= i < p.width,
        0 <= j < p.height,
    ensures
        0 <= grid_index(p.width as int, i, j) < vertices_of(p).len(),
        vertices_of(p)[grid_index(p.width as int, i, j)] == vertex_of(p, i, j),
        vertex_of(p, i, j).x == i * p.scale,
        vertex_of(p, i, j).z == j * p.scale,
{
    lemma_grid_index(p.width as int, p.height as int, i, j);
    let s = p.scale as int;
    assert(0 <= i * s <= 1024 * 1_000_000 && 0 <= j * s <= 1024 * 1_000_000) by (nonlinear_arith)
        requires
            0 <= i < 1024,
            0 <= j < 1024,
            1 <= s <= 1_000_000,
    ;
}

/// Seen from above, every generated triangle covers half a cell, front up.
pub proof fn lemma_geometry_winds_upward(p: MapParams)
    requires
        p.is_valid(),
    ensures
        forall|t: int|
            0 <= t < geometry_of(p).triangle_count() ==> #[trigger] geometry_of(p).turn(t)
                == p.scale * p.scale,
        geometry_of(p).winds_upward(),
{
    lemma_counts_in_range(p);
    let g = geometry_of(p);
    let s = p.scale as int;
    assert(s * s > 0) by (nonlinear_arith)
        requires
            s >= 1,
    ;
    assert forall|t: int| 0 <= t < g.triangle_count() implies #[trigger] g.turn(t) == s * s by {
        let cell = t / 2;
        let ci = cell % (p.width - 1);
        let cj = cell / (p.width - 1);
        lemma_index_cell(p, 3 * t);
        lemma_index_cell(p, 3 * t + 1);
        lemma_index_cell(p, 3 * t + 2);
        assert((3 * t) / 6 == cell && (3 * t + 1) / 6 == cell && (3 * t + 2) / 6 == cell);
        lemma_cell_corners(p, ci, cj);
        lemma_vertex_place(p, ci, cj);
        lemma_vertex_place(p, ci + 1, cj);
        lemma_vertex_place(p, ci, cj + 1);
        lemma_vertex_place(p, ci + 1, cj + 1);
        let a = g.corner(t, 0);
        let b = g.corner(t, 1);
        let c = g.corner(t, 2);
        assert((ci + 1) * s - ci * s == s && (cj + 1) * s - cj * s == s) by (nonlinear_arith);
        if t % 2 == 0 {
            assert((3 * t) % 6 == 0 && (3 * t + 1) % 6 == 1 && (3 * t + 2) % 6 == 2);
            assert(a == vertex_of(p, ci, cj));
            assert(b == vertex_of(p, ci, cj + 1));
            assert(c == vertex_of(p, ci + 1, cj));
            assert(b.z - a.z == s && c.x - a.x == s && b.x - a.x == 0 && c.z - a.z == 0);
            assert((b.z - a.z) * (c.x - a.x) - (b.x - a.x) * (c.z - a.z) == s * s)
                by (nonlinear_arith)
                requires
                    b.z - a.z == s,
                    c.x - a.x == s,
                    b.x - a.x == 0,
                    c.z - a.z == 0,
            ;
        } else {
            assert((3 * t) % 6 == 3 && (3 * t + 1) % 6 == 4 && (3 * t + 2) % 6 == 5);
            assert(a == vertex_of(p, ci + 1, cj));
            assert(b == vertex_of(p, ci, cj + 1));
            assert(c == vertex_of(p, ci + 1, cj + 1));
            assert(b.z - a.z == s && c.x - a.x == 0 && b.x - a.x == -s && c.z - a.z == s);
            assert((b.z - a.z) * (c.x - a.x) - (b.x - a.x) * (c.z - a.z) == s * s)
                by (nonlinear_arith)
                requires
                    b.z - a.z == s,
                    c.x - a.x == 0,
                    b.x - a.x == -s,
                    c.z - a.z == s,
            ;
        }
    }
}

/// Generated geometry is well formed.
pub proof fn lemma_geometry_well_formed(p: MapParams)
    requires
        p.is_valid(),
    ensures
        geometry_of(p).well_formed(),
{
    lemma_counts_in_range(p);
    lemma_geometry_in_bounds(p);
    lemma_geometry_winds_upward(p);
}

/// With amplitude zero every generated vertex lies in the zero plane and faces
/// straight up.
pub proof fn lemma_flat_grid(p: MapParams, i: int, j: int)
    requires
        p.is_valid(),
        p.amplitude == 0,
        0 <= i < p.width,
        0 <= j < p.height,
    ensures
        vertex_of(p, i, j).y == 0,
        vertex_of(p, i, j).nx == 0,
        vertex_of(p, i, j).nz == 0,
        vertex_of(p, i, j).ny > 0,
{
    let il = lower_neighbour(i);
    let ir = upper_neighbour(i, p.width as int);
    let jl = lower_neighbour(j);
    let jr = upper_neighbour(j, p.height as int);
    lemma_zero_amplitude_is_flat(p, i, j);
    lemma_zero_amplitude_is_flat(p, il, j);
    lemma_zero_amplitude_is_flat(p, ir, j);
    lemma_zero_amplitude_is_flat(p, i, jl);
    lemma_zero_amplitude_is_flat(p, i, jr);
    lemma_normal_range(p, i, j);
}

/// The parts of a generated normal fit their integers, and the normal points
/// up.
pub proof fn lemma_normal_range(p: MapParams, i: int, j: int)
    requires
        p.is_valid(),
        0 <= i < p.width,
        0 <= j < p.height,
    ensures
        ({
            let il = lower_neighbour(i);
            let ir = upper_neighbour(i, p.width as int);
            let jl = lower_neighbour(j);
            let jr = upper_neighbour(j, p.height as int);
            let span_x = (ir - il) * p.scale;
            let span_z = (jr - jl) * p.scale;
            let rise_x = height_of(p, ir, j) - height_of(p, il, j);
            let rise_z = height_of(p, i, jr) - height_of(p, i, jl);
            &&& 1 <= span_x <= 2_000_000
            &&& 1 <= span_z <= 2_000_000
            &&& -2_000_000 <= rise_x <= 2_000_000
            &&& -2_000_000 <= rise_z <= 2_000_000
            &&& -4_000_000_000_000 <= -rise_x * span_z <= 4_000_000_000_000
            &&& -4_000_000_000_000 <= -rise_z * span_x <= 4_000_000_000_000
            &&& 1 <= span_x * span_z <= 4_000_000_000_000
            &&& -rise_x * span_z == 0 - rise_x * span_z
            &&& -rise_z * span_x == 0 - rise_z * span_x
        }),
        vertex_of(p, i, j).ny > 0,
{
    let il = lower_neighbour(i);
    let ir = upper_neighbour(i, p.width as int);
    let jl = lower_neighbour(j);
    let jr = upper_neighbour(j, p.height as int);
    let s = p.scale as int;
    let dx = ir - il;
    let dz = jr - jl;
    let span_x = dx * s;
    let span_z = dz * s;
    let rise_x = height_of(p, ir, j) - height_of(p, il, j);
    let rise_z = height_of(p, i, jr) - height_of(p, i, jl);
    lemma_height_sample(p, ir, j);
    lemma_height_sample(p, il, j);
    lemma_height_sample(p, i, jr);
    lemma_height_sample(p, i, jl);
    assert(1 <= dx <= 2 && 1 <= dz <= 2);
    assert(1 <= span_x <= 2_000_000 && 1 <= span_z <= 2_000_000) by (nonlinear_arith)
        requires
            1 <= dx <= 2,
            1 <= dz <= 2,
            1 <= s <= 1_000_000,
            span_x == dx * s,
            span_z == dz * s,
    ;
    assert(-4_000_000_000_000 <= -rise_x * span_z <= 4_000_000_000_000 && -rise_x * span_z == 0
        - rise_x * span_z) by (nonlinear_arith)
        requires
            -2_000_000 <= rise_x <= 2_000_000,
            1 <= span_z <= 2_000_000,
    ;
    assert(-4_000_000_000_000 <= -rise_z * span_x <= 4_000_000_000_000 && -rise_z * span_x == 0
        - rise_z * span_x) by (nonlinear_arith)
        requires
            -2_000_000 <= rise_z <= 2_000_000,
            1 <= span_x <= 2_000_000,
    ;
    assert(1 <= span_x * span_z <= 4_000_000_000_000) by (nonlinear_arith)
        requires
            1 <= span_x <= 2_000_000,
            1 <= span_z <= 2_000_000,
    ;
}

/// Computes the vertex at grid point `(i, j)` from the sampled heights.
pub fn make_vertex(params: &MapParams, heights: &Vec<i64>, i: i32, j: i32) -> (v: Vertex)
    requires
        params.is_valid(),
        heights@ == heights_of(*params),
        0 <= i < params.width,
        0 <= j < params.height,
    ensures
        v == vertex_of(*params, i as int, j as int),
{
    let w: i32 = params.width;
    let il: i32 = if i > 0 {
        i - 1
    } else {
        i
    };
    let ir: i32 = if i + 1 < w {
        i + 1
    } else {
        i
    };
    let jl: i32 = if j > 0 {
        j - 1
    } else {
        j
    };
    let jr: i32 = if j + 1 < params.height {
        j + 1
    } else {
        j
    };
    proof {
        lemma_height_sample(*params, i as int, j as int);
        lemma_height_sample(*params, ir as int, j as int);
        lemma_height_sample(*params, il as int, j as int);
        lemma_height_sample(*params, i as int, jr as int);
        lemma_height_sample(*params, i as int, jl as int);
        lemma_normal_range(*params, i as int, j as int);
        lemma_vertex_place(*params, i as int, j as int);
    }
    let scale: i64 = params.scale as i64;
    let span_x: i64 = (ir - il) as i64 * scale;
    let span_z: i64 = (jr - jl) as i64 * scale;
    let rise_x: i64 = heights[flat_index(w, ir, j)] - heights[flat_index(w, il, j)];
    let rise_z: i64 = heights[flat_index(w, i, jr)] - heights[flat_index(w, i, jl)];
    Vertex {
        x: i as i64 * scale,
        y: heights[flat_index(w, i, j)],
        z: j as i64 * scale,
        nx: (0 - rise_x) * span_z,
        ny: span_x * span_z,
        nz: (0 - rise_z) * span_x,
    }
}

/// Computes the vertices of the surface, row by row.
pub fn build_vertices(params: &MapParams, heights: &Vec<i64>) -> (vertices: Vec<Vertex>)
    requires
        params.is_valid(),
        heights@ == heights_of(*params),
    ensures
        vertices@ == vertices_of(*params),
{
    let mut vertices: Vec<Vertex> = Vec::new();
    let mut j: i32 = 0;
    while j < params.height
        invariant
            params.is_valid(),
            heights@ == heights_of(*params),
            0 <= j <= params.height,
            vertices@.len() == j * params.width,
            forall|k: int|
                0 <= k < vertices@.len() ==> vertices@[k] == vertex_of(
                    *params,
                    k % (params.width as int),
                    k / (params.width as int),
                ),
        decreases params.height - j,
    {
        let mut i: i32 = 0;
        while i < params.width
            invariant
                params.is_valid(),
                heights@ == heights_of(*params),
                0 <= j < params.height,
                0 <= i <= params.width,
                vertices@.len() == j * params.width + i,
                forall|k: int|
                    0 <= k < vertices@.len() ==> vertices@[k] == vertex_of(
                        *params,
                        k % (params.width as int),
                        k / (params.width as int),
                    ),
            decreases params.width - i,
        {
            let v: Vertex = make_vertex(params, heights, i, j);
            proof {
                lemma_grid_index(params.width as int, params.height as int, i as int, j as int);
            }
            vertices.push(v);
            i += 1;
        }
        assert((j + 1) * params.width == j * params.width + params.width) by (nonlinear_arith);
        j += 1;
    }
    assert(params.height * params.width == params.width * params.height) by (nonlinear_arith);
    assert(vertices@ =~= vertices_of(*params));
    vertices
}

/// Computes the indices of the surface: two triangles for each cell, cells row
/// by row.
pub fn build_indices(params: &MapParams) -> (indices: Vec<u32>)
    requires
        params.is_valid(),
    ensures
        indices@ == indices_of(*params),
{
    let w: i32 = params.width;
    let mut indices: Vec<u32> = Vec::new();
    let mut cj: i32 = 0;
    while cj < params.height - 1
        invariant
            params.is_valid(),
            w == params.width,
            0 <= cj <= params.height - 1,
            indices@.len() == 6 * (cj * (w - 1)),
            forall|n: int| 0 <= n < indices@.len() ==> indices@[n] == index_of(*params, n),
        decreases params.height - 1 - cj,
    {
        let mut ci: i32 = 0;
        while ci < w - 1
            invariant
                params.is_valid(),
                w == params.width,
                0 <= cj < params.height - 1,
                0 <= ci <= w - 1,
                indices@.len() == 6 * (cj * (w - 1) + ci),
                forall|n: int| 0 <= n < indices@.len() ==> indices@[n] == index_of(*params, n),
            decreases w - 1 - ci,
        {
            let ghost cell: int = cj * (w - 1) + ci;
            let ghost start: int = 6 * cell;
            proof {
                lemma_grid_index((w - 1) as int, (params.height - 1) as int, ci as int, cj as int);
                lemma_cell_corners(*params, ci as int, cj as int);
                lemma_counts_in_range(*params);
                assert forall|c: int| 0 <= c < 6 implies index_of(*params, start + c)
                    == cell_corner(*params, ci as int, cj as int, c) by {
                    assert((start + c) / 6 == cell && (start + c) % 6 == c);
                    assert(0 <= cell_corner(*params, ci as int, cj as int, c)
                        < params.vertex_count());
                }
            }
            let near: u32 = flat_index(w, ci, cj) as u32;
            let far: u32 = flat_index(w, ci, cj + 1) as u32;
            indices.push(near);
            indices.push(far);
            indices.push(near + 1);
            indices.push(near + 1);
            indices.push(far);
            indices.push(far + 1);
            proof {
                assert(indices@[start] == index_of(*params, start));
                assert(indices@[start + 1] == index_of(*params, start + 1));
                assert(indices@[start + 2] == index_of(*params, start + 2));
                assert(indices@[start + 3] == index_of(*params, start + 3));
                assert(indices@[start + 4] == index_of(*params, start + 4));
                assert(indices@[start + 5] == index_of(*params, start + 5));
            }
            ci += 1;
        }
        assert((cj + 1) * (w - 1) == cj * (w - 1) + (w - 1)) by (nonlinear_arith);
        cj += 1;
    }
    assert((params.height - 1) * (w - 1) == (w - 1) * (params.height - 1)) by (nonlinear_arith);
    assert(indices@ =~= indices_of(*params));
    indices
}

/// A triangle mesh: vertices, and indices that name three of them for each
/// triangle. Every buffer is well formed.
#[derive(Debug, PartialEq, Eq)]
pub struct GeometryBuffer {
    vertices: Vec<Vertex>,
    indices: Vec<u32>,
}

impl View for GeometryBuffer {
    type V = GeometryView;

    closed spec fn view(&self) -> GeometryView {
        GeometryView { vertices: self.vertices@, indices: self.indices@ }
    }
}

impl Clone for GeometryBuffer {
    /// Copies the buffer, vertex by vertex and index by index.
    fn clone(&self) -> (copy: GeometryBuffer)
        ensures
            copy@ == self@,
    {
        proof {
            use_type_invariant(self);
        }
        let vertices: Vec<Vertex> = self.vertices.clone();
        let indices: Vec<u32> = self.indices.clone();
        assert(vertices@ =~= self.vertices@);
        assert(indices@ =~= self.indices@);
        GeometryBuffer { vertices, indices }
    }
}

impl GeometryBuffer {
    #[verifier::type_invariant]
    closed spec fn inv(&self) -> bool {
        self@.well_formed()
    }

    /// Builds the surface for `params` from its sampled heights.
    pub fn from_heights(params: &MapParams, heights: &Vec<i64>) -> (g: GeometryBuffer)
        requires
            params.is_valid(),
            heights@ == heights_of(*params),
        ensures
            g@ == geometry_of(*params),
            g@.well_formed(),
    {
        let vertices: Vec<Vertex> = build_vertices(params, heights);
        let indices: Vec<u32> = build_indices(params);
        proof {
            lemma_geometry_well_formed(*params);
        }
        GeometryBuffer { vertices, indices }
    }

    /// Builds the surface for `params`.
    pub fn build(params: &MapParams) -> (g: GeometryBuffer)
        requires
            params.is_valid(),
        ensures
            g@ == geometry_of(*params),
            g@.well_formed(),
    {
        let heights: Vec<i64> = sample_heights(params);
        GeometryBuffer::from_heights(params, &heights)
    }

    /// The vertices, in row-major order of the grid.
    pub fn vertices(&self) -> (v: &Vec<Vertex>)
        ensures
            v@ == self@.vertices,
            self@.well_formed(),
    {
        proof {
            use_type_invariant(self);
        }
        &self.vertices
    }

    /// The indices, three for each triangle.
    pub fn indices(&self) -> (v: &Vec<u32>)
        ensures
            v@ == self@.indices,
            self@.well_formed(),
    {
        proof {
            use_type_invariant(self);
        }
        &self.indices
    }

    /// Number of vertices.
    pub fn vertex_count(&self) -> (n: usize)
        ensures
            n == self@.vertices.len(),
    {
        self.vertices.len()
    }

    /// Number of triangles.
    pub fn triangle_count(&self) -> (n: usize)
        ensures
            n == self@.triangle_count(),
            3 * n == self@.indices.len(),
    {
        proof {
            use_type_invariant(self);
        }
        self.indices.len() / 3
    }
}

} // verus!
