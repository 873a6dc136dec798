//! UV-sphere mesh: a grid of `(lat_bands + 1) x (long_bands + 1)` vertices and
//! two triangles for each of its `lat_bands x long_bands` quad cells.
//!
//! A vertex is held by its place on the grid. Ring `lat` lies at the polar
//! angle `lat * pi / lat_bands`, step `long` at the azimuth
//! `long * 2 pi / long_bands`; the unit-sphere position (and normal, which is
//! the same vector) is `(cos phi * sin theta, cos theta, sin phi * sin theta)`.
//! The trigonometry is the caller's; the topology is settled here.

use vstd::prelude::*;
use vstd::arithmetic::div_mod::lemma_fundamental_div_mod_converse;
use crate::wire::{cast_words, native_encoding};

verus! {

/// One vertex of the sphere grid: latitude ring and longitude step.
#[derive(Clone, Copy, Debug, PartialEq, Eq, Structural)]
pub struct GridVertex {
    pub ring: u32,
    pub step: u32,
}

/// Why a resolution was turned down.
#[derive(Clone, Copy, Debug, PartialEq, Eq, Structural)]
pub enum MeshError {
    /// A band count of zero: the geometry would be degenerate.
    InvalidArgument,
    /// More indices than a 32-bit index range can count.
    TooLarge,
}

/// Number of vertices of the grid.
pub open spec fn vertex_count(lat_bands: nat, long_bands: nat) -> nat {
    (lat_bands + 1) * (long_bands + 1)
}

/// Number of indices: six for each quad cell.
pub open spec fn index_count(lat_bands: nat, long_bands: nat) -> nat {
    lat_bands * long_bands * 6
}

/// The resolutions for which a mesh exists: at least one band each way, and an
/// index count that a `u32` holds.
pub open spec fn resolution_fits(lat_bands: nat, long_bands: nat) -> bool {
    &&& lat_bands >= 1
    &&& long_bands >= 1
    &&& index_count(lat_bands, long_bands) <= u32::MAX
}

/// Number of vertices on one latitude ring.
pub open spec fn ring_len(long_bands: nat) -> int {
    long_bands as int + 1
}

/// The vertex at position `k`: rings follow one another, each with
/// `long_bands + 1` steps.
pub open spec fn grid_vertex(long_bands: nat, k: int) -> GridVertex {
    GridVertex { ring: (k / ring_len(long_bands)) as u32, step: (k % ring_len(long_bands)) as u32 }
}

/// All vertices, ring by ring. The first and the last step of a ring share a
/// position on the sphere and are both kept, as are the copies of each pole.
pub open spec fn sphere_vertices(lat_bands: nat, long_bands: nat) -> Seq<GridVertex> {
    Seq::new(vertex_count(lat_bands, long_bands), |k: int| grid_vertex(long_bands, k))
}

/// Position of the vertex `(lat, long)` in the vertex sequence.
pub open spec fn vertex_position(long_bands: nat, lat: int, long: int) -> int {
    lat * ring_len(long_bands) + long
}

/// Corner `corner` (0 to 5) of the two triangles of the quad cell `(lat, long)`:
/// `(first, second, first + 1)` and `(second, second + 1, first + 1)`, where
/// `first` is the cell's own vertex and `second` the one below it on the next ring.
pub open spec fn quad_corner(long_bands: nat, lat: int, long: int, corner: int) -> int {
    let first = vertex_position(long_bands, lat, long);
    let second = first + long_bands + 1;
    if corner == 0 {
        first
    } else if corner == 1 {
        second
    } else if corner == 2 {
        first + 1
    } else if corner == 3 {
        second
    } else if corner == 4 {
        second + 1
    } else {
        first + 1
    }
}

/// The index at position `j`: cells follow one another row by row, six
/// indices each.
pub open spec fn sphere_index(long_bands: nat, j: int) -> int {
    quad_corner(long_bands, (j / 6) / (long_bands as int), (j / 6) % (long_bands as int), j % 6)
}

/// All indices.
pub open spec fn sphere_indices(lat_bands: nat, long_bands: nat) -> Seq<u32> {
    Seq::new(index_count(lat_bands, long_bands), |j: int| sphere_index(long_bands, j) as u32)
}

/// With at least one band each way the grid has no more vertices than indices.
pub proof fn lemma_vertex_count_bound(lat_bands: nat, long_bands: nat)
    requires
        lat_bands >= 1,
        long_bands >= 1,
    ensures
        vertex_count(lat_bands, long_bands) <= index_count(lat_bands, long_bands),
{
    assert((lat_bands + 1) * (long_bands + 1) <= lat_bands * long_bands * 6) by (nonlinear_arith)
        requires
            lat_bands >= 1,
            long_bands >= 1,
    ;
}

/// Every corner of a quad cell of the grid is a vertex of the grid.
pub proof fn lemma_quad_corner_in_range(
    lat_bands: nat,
    long_bands: nat,
    lat: int,
    long: int,
    corner: int,
)
    requires
        0 <= lat < lat_bands,
        0 <= long < long_bands,
        0 <= corner < 6,
    ensures
        0 <= quad_corner(long_bands, lat, long, corner) < vertex_count(lat_bands, long_bands),
{
    let ring = ring_len(long_bands);
    assert(0 <= lat * ring) by (nonlinear_arith)
        requires
            0 <= lat,
            0 <= ring,
    ;
    assert(lat * ring + 2 * ring <= (lat_bands + 1) * ring) by (nonlinear_arith)
        requires
            lat + 1 <= lat_bands,
            0 <= ring,
    ;
}

/// The six indices of the quad cell `(lat, long)` stand together, at six times
/// the cell's number, and are the corners of its two triangles.
pub proof fn lemma_quad_indices(lat_bands: nat, long_bands: nat, lat: int, long: int, corner: int)
    requires
        0 <= lat < lat_bands,
        0 <= long < long_bands,
        0 <= corner < 6,
    ensures
        0 <= 6 * (lat * long_bands + long) + corner < index_count(lat_bands, long_bands),
        sphere_index(long_bands, 6 * (lat * long_bands + long) + corner) == quad_corner(
            long_bands,
            lat,
            long,
            corner,
        ),
{
    let cell = lat * long_bands + long;
    lemma_fundamental_div_mod_converse(cell, long_bands as int, lat, long);
    assert(0 <= lat * long_bands) by (nonlinear_arith)
        requires
            0 <= lat,
            0 <= long_bands,
    ;
    assert(lat * long_bands + long_bands <= lat_bands * long_bands) by (nonlinear_arith)
        requires
            lat + 1 <= lat_bands,
            0 <= long_bands,
    ;
}

/// Every index of the mesh names one of its vertices.
pub proof fn lemma_index_in_range(lat_bands: nat, long_bands: nat, j: int)
    requires
        lat_bands >= 1,
        long_bands >= 1,
        0 <= j < index_count(lat_bands, long_bands),
    ensures
        0 <= sphere_index(long_bands, j) < vertex_count(lat_bands, long_bands),
{
    let cell = j / 6;
    let m = long_bands as int;
    let lat = cell / m;
    let long = cell % m;
    assert(cell < lat_bands * long_bands);
    assert(cell == lat * m + long && 0 <= long < m) by (nonlinear_arith)
        requires
            m > 0,
            lat == cell / m,
            long == cell % m,
    ;
    assert(0 <= lat < lat_bands) by (nonlinear_arith)
        requires
            m > 0,
            0 <= cell < lat_bands * m,
            cell == lat * m + long,
            0 <= long < m,
    ;
    lemma_quad_corner_in_range(lat_bands, long_bands, lat, long, j % 6);
}

/// The vertex `(lat, long)` stands at `lat * (long_bands + 1) + long`.
pub proof fn lemma_vertex_at(lat_bands: nat, long_bands: nat, lat: int, long: int)
    requires
        0 <= lat <= lat_bands <= u32::MAX,
        0 <= long <= long_bands <= u32::MAX,
    ensures
        0 <= vertex_position(long_bands, lat, long) < vertex_count(lat_bands, long_bands),
        sphere_vertices(lat_bands, long_bands)[vertex_position(long_bands, lat, long)] == (GridVertex {
            ring: lat as u32,
            step: long as u32,
        }),
{
    let ring = ring_len(long_bands);
    lemma_fundamental_div_mod_converse(lat * ring + long, ring, lat, long);
    assert(0 <= lat * ring) by (nonlinear_arith)
        requires
            0 <= lat,
            0 <= ring,
    ;
    assert(lat * ring + ring <= (lat_bands + 1) * ring) by (nonlinear_arith)
        requires
            lat <= lat_bands,
            0 <= ring,
    ;
}

/// Twice the signed area of a triangle as it lies on the grid, with the steps
/// counted to the right and the rings upwards: negative for a triangle whose
/// corners run clockwise there.
pub open spec fn orientation(a: GridVertex, b: GridVertex, c: GridVertex) -> int {
    (b.step - a.step) * (c.ring - a.ring) - (b.ring - a.ring) * (c.step - a.step)
}

/// Corner `k` (0 to 2) of triangle `t` of the mesh.
pub open spec fn triangle_corner(lat_bands: nat, long_bands: nat, t: int, k: int) -> GridVertex {
    sphere_vertices(lat_bands, long_bands)[sphere_indices(lat_bands, long_bands)[3 * t + k] as int]
}

/// All triangles wind the same way: each one is half a grid cell, with its
/// corners in clockwise order on the grid.
pub proof fn lemma_winding_is_uniform(lat_bands: nat, long_bands: nat, t: int)
    requires
        resolution_fits(lat_bands, long_bands),
        0 <= t < 2 * (lat_bands * long_bands),
    ensures
        orientation(
            triangle_corner(lat_bands, long_bands, t, 0),
            triangle_corner(lat_bands, long_bands, t, 1),
            triangle_corner(lat_bands, long_bands, t, 2),
        ) == -1,
{
    let m = long_bands as int;
    let cell = t / 2;
    let half = t % 2;
    let lat = cell / m;
    let long = cell % m;
    assert(cell == lat * m + long && 0 <= long < m) by (nonlinear_arith)
        requires
            m > 0,
            lat == cell / m,
            long == cell % m,
    ;
    assert(0 <= lat < lat_bands) by (nonlinear_arith)
        requires
            m > 0,
            0 <= cell < lat_bands * m,
            cell == lat * m + long,
            0 <= long < m,
    ;
    lemma_vertex_count_bound(lat_bands, long_bands);
    assert(lat_bands <= lat_bands * long_bands && long_bands <= lat_bands * long_bands)
        by (nonlinear_arith)
        requires
            lat_bands >= 1,
            long_bands >= 1,
    ;
    let ring = ring_len(long_bands);
    assert((lat + 1) * ring == lat * ring + ring) by (nonlinear_arith);
    lemma_vertex_at(lat_bands, long_bands, lat, long);
    lemma_vertex_at(lat_bands, long_bands, lat, long + 1);
    lemma_vertex_at(lat_bands, long_bands, lat + 1, long);
    lemma_vertex_at(lat_bands, long_bands, lat + 1, long + 1);
    let base = 6 * (lat * long_bands + long) + 3 * half;
    assert(3 * t == base);
    lemma_quad_indices(lat_bands, long_bands, lat, long, 3 * half);
    lemma_quad_indices(lat_bands, long_bands, lat, long, 3 * half + 1);
    lemma_quad_indices(lat_bands, long_bands, lat, long, 3 * half + 2);
    lemma_quad_corner_in_range(lat_bands, long_bands, lat, long, 3 * half);
    lemma_quad_corner_in_range(lat_bands, long_bands, lat, long, 3 * half + 1);
    lemma_quad_corner_in_range(lat_bands, long_bands, lat, long, 3 * half + 2);
    let a = triangle_corner(lat_bands, long_bands, t, 0);
    let b = triangle_corner(lat_bands, long_bands, t, 1);
    let c = triangle_corner(lat_bands, long_bands, t, 2);
    if half == 0 {
        assert(a == (GridVertex { ring: lat as u32, step: long as u32 }));
        assert(b == (GridVertex { ring: (lat + 1) as u32, step: long as u32 }));
        assert(c == (GridVertex { ring: lat as u32, step: (long + 1) as u32 }));
    } else {
        assert(a == (GridVertex { ring: (lat + 1) as u32, step: long as u32 }));
        assert(b == (GridVertex { ring: (lat + 1) as u32, step: (long + 1) as u32 }));
        assert(c == (GridVertex { ring: lat as u32, step: (long + 1) as u32 }));
    }
    let right = b.step - a.step;
    let up = b.ring - a.ring;
    assert(right * (c.ring - a.ring) - up * (c.step - a.step) == -1) by (nonlinear_arith)
        requires
            (right == 0 && up == 1 && c.step - a.step == 1) || (right == 1 && up == 0 && c.ring
                - a.ring == -1),
    ;
}

/// What a mesh is, as mathematics: its resolution and its two sequences.
pub struct MeshModel {
    pub lat_bands: nat,
    pub long_bands: nat,
    pub vertices: Seq<GridVertex>,
    pub indices: Seq<u32>,
}

/// The sphere mesh of a resolution.
pub open spec fn sphere_mesh(lat_bands: nat, long_bands: nat) -> MeshModel {
    MeshModel {
        lat_bands,
        long_bands,
        vertices: sphere_vertices(lat_bands, long_bands),
        indices: sphere_indices(lat_bands, long_bands),
    }
}

/// An indexed sphere mesh. It is built once and never changes afterwards: the
/// fields are private and every value is the mesh of its own resolution.
#[derive(Debug)]
pub struct SphereMesh {
    lat_bands: u32,
    long_bands: u32,
    vertices: Vec<GridVertex>,
    indices: Vec<u32>,
}

impl View for SphereMesh {
    type V = MeshModel;

    closed spec fn view(&self) -> MeshModel {
        MeshModel {
            lat_bands: self.lat_bands as nat,
            long_bands: self.long_bands as nat,
            vertices: self.vertices@,
            indices: self.indices@,
        }
    }
}

impl SphereMesh {
    #[verifier::type_invariant]
    closed spec fn well_formed(&self) -> bool {
        &&& resolution_fits(self.lat_bands as nat, self.long_bands as nat)
        &&& self@ == sphere_mesh(self.lat_bands as nat, self.long_bands as nat)
    }

    /// Number of latitude bands.
    pub fn lat_bands(&self) -> (n: u32)
        ensures
            n == self@.lat_bands,
            n >= 1,
    {
        proof {
            use_type_invariant(self);
        }
        self.lat_bands
    }

    /// Number of longitude bands.
    pub fn long_bands(&self) -> (n: u32)
        ensures
            n == self@.long_bands,
            n >= 1,
    {
        proof {
            use_type_invariant(self);
        }
        self.long_bands
    }

    /// The vertices, ring by ring.
    pub fn vertices(&self) -> (v: &Vec<GridVertex>)
        ensures
            v@ == self@.vertices,
            v@ == sphere_vertices(self@.lat_bands, self@.long_bands),
    {
        proof {
            use_type_invariant(self);
        }
        &self.vertices
    }

    /// The triangle indices, three for each triangle.
    pub fn indices(&self) -> (v: &Vec<u32>)
        ensures
            v@ == self@.indices,
            v@ == sphere_indices(self@.lat_bands, self@.long_bands),
    {
        proof {
            use_type_invariant(self);
        }
        &self.indices
    }

    /// Number of vertices.
    pub fn vertex_count(&self) -> (n: u32)
        ensures
            n == self@.vertices.len(),
            n == vertex_count(self@.lat_bands, self@.long_bands),
    {
        proof {
            use_type_invariant(self);
            lemma_vertex_count_bound(self.lat_bands as nat, self.long_bands as nat);
        }
        self.vertices.len() as u32
    }

    /// Number of indices: what one draw call of the whole mesh covers.
    pub fn index_count(&self) -> (n: u32)
        ensures
            n == self@.indices.len(),
            n == index_count(self@.lat_bands, self@.long_bands),
    {
        proof {
            use_type_invariant(self);
        }
        self.indices.len() as u32
    }

    /// The indices as the bytes of the index buffer: four bytes for each
    /// index, in the machine's byte order.
    pub fn index_bytes(&self) -> (bytes: Vec<u8>)
        ensures
            native_encoding(self@.indices, bytes@),
            bytes@.len() == 4 * self@.indices.len(),
    {
        cast_words(&self.indices)
    }
}

/// Builds the sphere mesh of the given resolution.
///
/// A band count of zero is turned down with `InvalidArgument`, a resolution
/// with more indices than a `u32` counts with `TooLarge`. Every other
/// resolution gives its mesh, the same one each time: `(lat_bands + 1) *
/// (long_bands + 1)` vertices, six indices for each quad cell, and every index
/// below the vertex count.
pub fn generate_sphere(lat_bands: u32, long_bands: u32) -> (r: Result<SphereMesh, MeshError>)
    ensures
        match r {
            Ok(mesh) => {
                &&& resolution_fits(lat_bands as nat, long_bands as nat)
                &&& mesh@ == sphere_mesh(lat_bands as nat, long_bands as nat)
                &&& mesh@.vertices.len() == (lat_bands + 1) * (long_bands + 1)
                &&& mesh@.indices.len() == lat_bands * long_bands * 6
                &&& forall|j: int|
                    0 <= j < mesh@.indices.len() ==> #[trigger] mesh@.indices[j]
                        < mesh@.vertices.len()
            },
            Err(MeshError::InvalidArgument) => lat_bands == 0 || long_bands == 0,
            Err(MeshError::TooLarge) => {
                &&& lat_bands >= 1
                &&& long_bands >= 1
                &&& index_count(lat_bands as nat, long_bands as nat) > u32::MAX
            },
        },
{
    if lat_bands == 0 || long_bands == 0 {
        return Err(MeshError::InvalidArgument);
    }
    assert(lat_bands * long_bands <= u64::MAX) by (nonlinear_arith)
        requires
            lat_bands <= u32::MAX,
            long_bands <= u32::MAX,
    ;
    let cells: u64 = (lat_bands as u64) * (long_bands as u64);
    if cells > (u32::MAX as u64) / 6 {
        return Err(MeshError::TooLarge);
    }
    let ghost l = lat_bands as nat;
    let ghost m = long_bands as nat;
    proof {
        lemma_vertex_count_bound(l, m);
        assert(lat_bands <= lat_bands * long_bands && long_bands <= lat_bands * long_bands)
            by (nonlinear_arith)
            requires
                lat_bands >= 1,
                long_bands >= 1,
        ;
    }
    let ring: u32 = long_bands + 1;

    let mut vertices: Vec<GridVertex> = Vec::new();
    let mut lat: u32 = 0;
    while lat <= lat_bands
        invariant
            ring == long_bands + 1,
            lat <= lat_bands + 1,
            lat_bands < u32::MAX,
            long_bands < u32::MAX,
            vertices@.len() == lat * ring,
            forall|k: int| 0 <= k < vertices@.len() ==> vertices@[k] == grid_vertex(m, k),
            m == long_bands,
        decreases lat_bands + 1 - lat,
    {
        let mut long: u32 = 0;
        while long <= long_bands
            invariant
                ring == long_bands + 1,
                lat <= lat_bands,
                long <= long_bands + 1,
                long_bands < u32::MAX,
                vertices@.len() == lat * ring + long,
                forall|k: int| 0 <= k < vertices@.len() ==> vertices@[k] == grid_vertex(m, k),
                m == long_bands,
            decreases long_bands + 1 - long,
        {
            proof {
                lemma_fundamental_div_mod_converse(
                    lat * ring + long,
                    ring as int,
                    lat as int,
                    long as int,
                );
            }
            vertices.push(GridVertex { ring: lat, step: long });
            long = long + 1;
        }
        assert(lat * ring + ring == (lat + 1) * ring) by (nonlinear_arith);
        lat = lat + 1;
    }
    assert(vertices@ =~= sphere_vertices(l, m));

    let mut indices: Vec<u32> = Vec::new();
    let mut row: u32 = 0;
    while row < lat_bands
        invariant
            ring == long_bands + 1,
            row <= lat_bands,
            long_bands >= 1,
            l == lat_bands,
            m == long_bands,
            index_count(l, m) <= u32::MAX,
            vertex_count(l, m) <= index_count(l, m),
            indices@.len() == 6 * (row * long_bands),
            forall|j: int|
                0 <= j < indices@.len() ==> indices@[j] == sphere_index(m, j) as u32,
        decreases lat_bands - row,
    {
        let mut col: u32 = 0;
        while col < long_bands
            invariant
                ring == long_bands + 1,
                row < lat_bands,
                col <= long_bands,
                long_bands >= 1,
                l == lat_bands,
                m == long_bands,
                index_count(l, m) <= u32::MAX,
                vertex_count(l, m) <= index_count(l, m),
                indices@.len() == 6 * (row * long_bands + col),
                forall|j: int|
                    0 <= j < indices@.len() ==> indices@[j] == sphere_index(m, j) as u32,
            decreases long_bands - col,
        {
            let ghost start = indices@.len() as int;
            proof {
                lemma_quad_corner_in_range(l, m, row as int, col as int, 0);
                lemma_quad_corner_in_range(l, m, row as int, col as int, 4);
                assert forall|c: int| 0 <= c < 6 implies sphere_index(m, start + c) == quad_corner(
                    m,
                    row as int,
                    col as int,
                    c,
                ) by {
                    lemma_quad_indices(l, m, row as int, col as int, c);
                }
            }
            let first: u32 = row * ring + col;
            let second: u32 = first + ring;
            indices.push(first);
            indices.push(second);
            indices.push(first + 1);
            indices.push(second);
            indices.push(second + 1);
            indices.push(first + 1);
            col = col + 1;
            proof {
                assert forall|j: int| 0 <= j < indices@.len() implies indices@[j] == sphere_index(
                    m,
                    j,
                ) as u32 by {
                    if j >= start {
                        let c = j - start;
                        assert(sphere_index(m, start + c) == quad_corner(
                            m,
                            row as int,
                            col as int - 1,
                            c,
                        ));
                    }
                }
            }
        }
        assert(row * long_bands + long_bands == (row + 1) * long_bands) by (nonlinear_arith);
        row = row + 1;
    }
    assert(indices@ =~= sphere_indices(l, m));
    proof {
        assert forall|j: int| 0 <= j < indices@.len() implies #[trigger] indices@[j]
            < vertices@.len() by {
            lemma_index_in_range(l, m, j);
        }
    }
    Ok(SphereMesh { lat_bands, long_bands, vertices, indices })
}

} // verus!
