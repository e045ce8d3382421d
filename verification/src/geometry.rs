//! The cube mesh: a fixed list of 36 vertices (6 faces of 2 triangles),
//! with corners at one unit from the origin on every axis and an outward
//! unit normal per face.  Coordinates are small exact integers; the front
//! end scales them to whatever vertex format the GPU wants.
//!
//! Winding convention: every triangle winds clockwise as seen from outside
//! the cube (proved in [`lemma_face_winding`]).  The direct render pass
//! therefore culls counter-clockwise triangles to keep the outward faces,
//! and the reflected pass, whose mirroring inverts the winding, culls
//! clockwise ones.

use vstd::prelude::*;

verus! {

/// One mesh vertex: a corner position and the outward normal of its face.
/// Positions and normals are exact integers (every coordinate is `-1`, `0`
/// or `1`).
#[derive(Clone, Copy, Debug, PartialEq, Eq, Structural)]
pub struct Vertex {
    pub px: i64,
    pub py: i64,
    pub pz: i64,
    pub nx: i64,
    pub ny: i64,
    pub nz: i64,
}

impl Vertex {
    /// The position is a corner of the cube.
    pub open spec fn is_corner(self) -> bool {
        &&& (self.px == 1 || self.px == -1)
        &&& (self.py == 1 || self.py == -1)
        &&& (self.pz == 1 || self.pz == -1)
    }

    /// The normal is an exact unit vector along one axis.
    pub open spec fn has_unit_normal(self) -> bool {
        &&& self.nx * self.nx + self.ny * self.ny + self.nz * self.nz == 1
        &&& (self.nx == 0 || self.nx == 1 || self.nx == -1)
        &&& (self.ny == 0 || self.ny == 1 || self.ny == -1)
        &&& (self.nz == 0 || self.nz == 1 || self.nz == -1)
    }

    /// The normal points outward: the corner lies on the face the normal
    /// names, so their dot product is `1`.
    pub open spec fn normal_outward(self) -> bool {
        self.px * self.nx + self.py * self.ny + self.pz * self.nz == 1
    }

    /// A well-formed mesh vertex.
    pub open spec fn wf(self) -> bool {
        &&& self.is_corner()
        &&& self.has_unit_normal()
        &&& self.normal_outward()
    }
}

/// Outward normal of face `f`.  Faces are ordered front, back, left, right,
/// bottom, top.
pub open spec fn face_normal(f: int) -> (int, int, int) {
    if f == 0 {
        (0, 0, 1)
    } else if f == 1 {
        (0, 0, -1)
    } else if f == 2 {
        (-1, 0, 0)
    } else if f == 3 {
        (1, 0, 0)
    } else if f == 4 {
        (0, -1, 0)
    } else {
        (0, 1, 0)
    }
}

/// In-plane corner pattern of one face orientation: two triangles covering
/// the face.
pub open spec fn corner_pattern_a(j: int) -> (int, int) {
    if j == 0 {
        (1, 1)
    } else if j == 1 {
        (1, -1)
    } else if j == 2 {
        (-1, 1)
    } else if j == 3 {
        (-1, 1)
    } else if j == 4 {
        (1, -1)
    } else {
        (-1, -1)
    }
}

/// The mirrored corner pattern: [`corner_pattern_a`] with the two in-plane
/// coordinates swapped, which keeps the winding uniform on the faces whose
/// normal points the other way.
pub open spec fn corner_pattern_b(j: int) -> (int, int) {
    let a = corner_pattern_a(j);
    (a.1, a.0)
}

/// Corner position of vertex `j` of face `f`.
pub open spec fn face_corner(f: int, j: int) -> (int, int, int) {
    if f == 0 {
        let a = corner_pattern_a(j);
        (a.0, a.1, 1)
    } else if f == 1 {
        let b = corner_pattern_b(j);
        (b.0, b.1, -1)
    } else if f == 2 {
        let b = corner_pattern_b(j);
        (-1, b.0, b.1)
    } else if f == 3 {
        let a = corner_pattern_a(j);
        (1, a.0, a.1)
    } else if f == 4 {
        let a = corner_pattern_a(j);
        (a.0, -1, a.1)
    } else {
        let b = corner_pattern_b(j);
        (b.0, 1, b.1)
    }
}

/// Vertex `j` of face `f` of the cube mesh.
pub open spec fn face_vertex(f: int, j: int) -> Vertex {
    let c = face_corner(f, j);
    let n = face_normal(f);
    Vertex {
        px: c.0 as i64,
        py: c.1 as i64,
        pz: c.2 as i64,
        nx: n.0 as i64,
        ny: n.1 as i64,
        nz: n.2 as i64,
    }
}

/// Signed volume spanned by a triangle's edges and its normal: the dot
/// product of `(b - a) x (c - a)` with the normal of `a`.  Its sign tells
/// the triangle's winding as seen from the normal's side.
pub open spec fn tri_winding(a: Vertex, b: Vertex, c: Vertex) -> int {
    let e1x = b.px - a.px;
    let e1y = b.py - a.py;
    let e1z = b.pz - a.pz;
    let e2x = c.px - a.px;
    let e2y = c.py - a.py;
    let e2z = c.pz - a.pz;
    let cx = e1y * e2z - e1z * e2y;
    let cy = e1z * e2x - e1x * e2z;
    let cz = e1x * e2y - e1y * e2x;
    cx * a.nx + cy * a.ny + cz * a.nz
}

/// An axis-aligned unit normal dotted with itself gives `1`, and dotted
/// with a corner whose coordinate on the normal's axis matches the normal's
/// sign gives `1` as well.
proof fn lemma_axis_unit_eval(nx: int, ny: int, nz: int, px: int, py: int, pz: int)
    by (nonlinear_arith)
    requires
        (nx == 0 && ny == 0 && (nz == 1 || nz == -1) && pz == nz)
            || (nx == 0 && nz == 0 && (ny == 1 || ny == -1) && py == ny)
            || (ny == 0 && nz == 0 && (nx == 1 || nx == -1) && px == nx),
    ensures
        nx * nx + ny * ny + nz * nz == 1,
        px * nx + py * ny + pz * nz == 1,
{
}

/// Every vertex of the mesh is well formed: a cube corner with the outward
/// unit normal of its face.
pub proof fn lemma_face_vertices_wf(f: int, j: int)
    requires
        0 <= f < 6,
        0 <= j < 6,
    ensures
        face_vertex(f, j).wf(),
{
    let v = face_vertex(f, j);
    lemma_axis_unit_eval(v.nx as int, v.ny as int, v.nz as int,
        v.px as int, v.py as int, v.pz as int);
}

/// Both triangles of every face wind the same way: the vertices of a
/// triangle share their face's normal, and the edges span `-4` against it,
/// so every face presents the same winding to its outside.  (The direct
/// pass culls the opposite winding; mirroring flips it, which is why the
/// reflected pass culls the other one.)
pub proof fn lemma_face_winding(f: int, h: int)
    requires
        0 <= f < 6,
        0 <= h < 2,
    ensures
        ({
            let a = face_vertex(f, 3 * h);
            let b = face_vertex(f, 3 * h + 1);
            let c = face_vertex(f, 3 * h + 2);
            &&& (b.nx, b.ny, b.nz) == (a.nx, a.ny, a.nz)
            &&& (c.nx, c.ny, c.nz) == (a.nx, a.ny, a.nz)
            &&& tri_winding(a, b, c) == -4
        }),
{
    let a = face_vertex(f, 3 * h);
    let b = face_vertex(f, 3 * h + 1);
    let c = face_vertex(f, 3 * h + 2);
    if h == 0 {
        assert(a == face_vertex(f, 0) && b == face_vertex(f, 1) && c == face_vertex(f, 2));
    } else {
        assert(a == face_vertex(f, 3) && b == face_vertex(f, 4) && c == face_vertex(f, 5));
    }
    lemma_winding_eval(
        a.px as int, a.py as int, a.pz as int,
        a.nx as int, a.ny as int, a.nz as int,
        b.px as int, b.py as int, b.pz as int,
        c.px as int, c.py as int, c.pz as int,
    );
}

/// Evaluates the winding expression for each of the twelve triangles of the
/// mesh: every one spans `-4` against its face normal.
proof fn lemma_winding_eval(
    apx: int, apy: int, apz: int,
    anx: int, any: int, anz: int,
    bpx: int, bpy: int, bpz: int,
    cpx: int, cpy: int, cpz: int,
)
    by (nonlinear_arith)
    requires
        (apx == 1 && apy == 1 && apz == 1 && anx == 0 && any == 0 && anz == 1
            && bpx == 1 && bpy == -1 && bpz == 1 && cpx == -1 && cpy == 1 && cpz == 1)
        || (apx == -1 && apy == 1 && apz == 1 && anx == 0 && any == 0 && anz == 1
            && bpx == 1 && bpy == -1 && bpz == 1 && cpx == -1 && cpy == -1 && cpz == 1)
        || (apx == 1 && apy == 1 && apz == -1 && anx == 0 && any == 0 && anz == -1
            && bpx == -1 && bpy == 1 && bpz == -1 && cpx == 1 && cpy == -1 && cpz == -1)
        || (apx == 1 && apy == -1 && apz == -1 && anx == 0 && any == 0 && anz == -1
            && bpx == -1 && bpy == 1 && bpz == -1 && cpx == -1 && cpy == -1 && cpz == -1)
        || (apx == -1 && apy == 1 && apz == 1 && anx == -1 && any == 0 && anz == 0
            && bpx == -1 && bpy == -1 && bpz == 1 && cpx == -1 && cpy == 1 && cpz == -1)
        || (apx == -1 && apy == 1 && apz == -1 && anx == -1 && any == 0 && anz == 0
            && bpx == -1 && bpy == -1 && bpz == 1 && cpx == -1 && cpy == -1 && cpz == -1)
        || (apx == 1 && apy == 1 && apz == 1 && anx == 1 && any == 0 && anz == 0
            && bpx == 1 && bpy == 1 && bpz == -1 && cpx == 1 && cpy == -1 && cpz == 1)
        || (apx == 1 && apy == -1 && apz == 1 && anx == 1 && any == 0 && anz == 0
            && bpx == 1 && bpy == 1 && bpz == -1 && cpx == 1 && cpy == -1 && cpz == -1)
        || (apx == 1 && apy == -1 && apz == 1 && anx == 0 && any == -1 && anz == 0
            && bpx == 1 && bpy == -1 && bpz == -1 && cpx == -1 && cpy == -1 && cpz == 1)
        || (apx == -1 && apy == -1 && apz == 1 && anx == 0 && any == -1 && anz == 0
            && bpx == 1 && bpy == -1 && bpz == -1 && cpx == -1 && cpy == -1 && cpz == -1)
        || (apx == 1 && apy == 1 && apz == 1 && anx == 0 && any == 1 && anz == 0
            && bpx == -1 && bpy == 1 && bpz == 1 && cpx == 1 && cpy == 1 && cpz == -1)
        || (apx == 1 && apy == 1 && apz == -1 && anx == 0 && any == 1 && anz == 0
            && bpx == -1 && bpy == 1 && bpz == 1 && cpx == -1 && cpy == 1 && cpz == -1),
    ensures
        ((bpy - apy) * (cpz - apz) - (bpz - apz) * (cpy - apy)) * anx
            + ((bpz - apz) * (cpx - apx) - (bpx - apx) * (cpz - apz)) * any
            + ((bpx - apx) * (cpy - apy) - (bpy - apy) * (cpx - apx)) * anz == -4,
{
}

/// Appends the six vertices of face `f` to the mesh.
fn push_face(vs: &mut Vec<Vertex>, f: usize)
    requires
        f < 6,
    ensures
        final(vs)@.len() == old(vs)@.len() + 6,
        forall|k: int| 0 <= k < old(vs)@.len() ==> final(vs)@[k] == old(vs)@[k],
        forall|j: int| 0 <= j < 6 ==> final(vs)@[old(vs)@.len() + j] == face_vertex(f as int, j),
{
    let nx: i64 = if f == 3 { 1 } else if f == 2 { -1 } else { 0 };
    let ny: i64 = if f == 5 { 1 } else if f == 4 { -1 } else { 0 };
    let nz: i64 = if f == 0 { 1 } else if f == 1 { -1 } else { 0 };
    let mirrored: bool = f == 1 || f == 2 || f == 5;
    let mut j: usize = 0;
    while j < 6
        invariant
            f < 6,
            j <= 6,
            nx as int == face_normal(f as int).0,
            ny as int == face_normal(f as int).1,
            nz as int == face_normal(f as int).2,
            mirrored == (f == 1 || f == 2 || f == 5),
            vs@.len() == old(vs)@.len() + j,
            forall|k: int| 0 <= k < old(vs)@.len() ==> vs@[k] == old(vs)@[k],
            forall|i: int| 0 <= i < j ==> vs@[old(vs)@.len() + i] == face_vertex(f as int, i),
        decreases 6 - j,
    {
        let (pa, pb): (i64, i64) = if j == 0 {
            (1, 1)
        } else if j == 1 {
            (1, -1)
        } else if j == 2 {
            (-1, 1)
        } else if j == 3 {
            (-1, 1)
        } else if j == 4 {
            (1, -1)
        } else {
            (-1, -1)
        };
        let (u, v): (i64, i64) = if mirrored {
            (pb, pa)
        } else {
            (pa, pb)
        };
        let vertex = if f == 0 || f == 1 {
            Vertex { px: u, py: v, pz: if f == 0 { 1 } else { -1 }, nx, ny, nz }
        } else if f == 2 || f == 3 {
            Vertex { px: if f == 3 { 1 } else { -1 }, py: u, pz: v, nx, ny, nz }
        } else {
            Vertex { px: u, py: if f == 5 { 1 } else { -1 }, pz: v, nx, ny, nz }
        };
        assert(vertex == face_vertex(f as int, j as int));
        vs.push(vertex);
        j = j + 1;
    }
}

/// Builds the cube mesh: 36 vertices, six per face in the fixed face order,
/// every one a well-formed corner-plus-outward-normal pair.
pub fn cube_vertices() -> (vs: Vec<Vertex>)
    ensures
        vs@.len() == 36,
        forall|k: int| 0 <= k < 36 ==> vs@[k] == face_vertex(k / 6, k % 6),
        forall|k: int| 0 <= k < 36 ==> (#[trigger] vs@[k]).wf(),
{
    let mut vs: Vec<Vertex> = Vec::new();
    push_face(&mut vs, 0);
    push_face(&mut vs, 1);
    push_face(&mut vs, 2);
    push_face(&mut vs, 3);
    push_face(&mut vs, 4);
    push_face(&mut vs, 5);
    proof {
        assert forall|k: int| 0 <= k < 36 implies vs@[k] == face_vertex(k / 6, k % 6) by {
            let f = k / 6;
            let j = k % 6;
            assert(k == 6 * f + j);
        }
        assert forall|k: int| 0 <= k < 36 implies (#[trigger] vs@[k]).wf() by {
            lemma_face_vertices_wf(k / 6, k % 6);
        }
    }
    vs
}

} // verus!
