use vstd::prelude::*;
use vstd::hash_map::StringHashMap;
use vstd::slice::slice_to_vec;

verus! {

broadcast use vstd::seq_lib::group_seq_properties;

// Vertex components are stored as IEEE 754 binary32 bit patterns, so that the
// meshes can be built and compared exactly.

/// Bit pattern of `0.0`.
pub const ZERO: u32 = 0x0000_0000;

/// Bit pattern of `0.5`.
pub const HALF: u32 = 0x3F00_0000;

/// Bit pattern of `-0.5`.
pub const NEG_HALF: u32 = 0xBF00_0000;

/// Bit pattern of `1.0`.
pub const ONE: u32 = 0x3F80_0000;

/// Bit pattern of `-1.0`.
pub const NEG_ONE: u32 = 0xBF80_0000;

/// Bit pattern of `5.0`, half the side of the ground plane.
pub const PLANE_HALF_SIZE: u32 = 0x40A0_0000;

/// Bit pattern of `-5.0`.
pub const NEG_PLANE_HALF_SIZE: u32 = 0xC0A0_0000;

/// Components per vertex: position (3), normal (3), texture coordinate (2).
pub const FLOATS_PER_VERTEX: usize = 8;

/// Geometry of a mesh: interleaved vertex components (position, normal, uv;
/// each a binary32 bit pattern) and triangle-list indices into the vertices.
#[derive(Debug, Clone)]
pub struct MeshData {
    pub vertices: Vec<u32>,
    pub indices: Vec<u32>,
}

/// Number of whole vertices in the interleaved component list.
pub open spec fn vertex_count(m: MeshData) -> int {
    m.vertices@.len() as int / (FLOATS_PER_VERTEX as int)
}

/// A mesh that a triangle-list draw can consume: whole vertices, whole
/// triangles, and every index naming an existing vertex.
pub open spec fn mesh_well_formed(m: MeshData) -> bool {
    &&& m.vertices@.len() as int % (FLOATS_PER_VERTEX as int) == 0
    &&& m.indices@.len() % 3 == 0
    &&& forall|i: int| 0 <= i < m.indices@.len() ==> (#[trigger] m.indices@[i]) < vertex_count(m)
}

// ---------------------------------------------------------------------------
// Cube
// ---------------------------------------------------------------------------

/// Corners of the unit cube centred on the origin.
pub const CUBE_POSITIONS: [[u32; 3]; 8] = [
    [NEG_HALF, NEG_HALF, NEG_HALF],
    [HALF, NEG_HALF, NEG_HALF],
    [HALF, HALF, NEG_HALF],
    [NEG_HALF, HALF, NEG_HALF],
    [NEG_HALF, NEG_HALF, HALF],
    [HALF, NEG_HALF, HALF],
    [HALF, HALF, HALF],
    [NEG_HALF, HALF, HALF],
];

/// For each face (-Z, +Z, -X, +X, +Y, -Y), the corners of its two triangles.
pub const CUBE_FACES: [[u32; 6]; 6] = [
    [0, 1, 2, 2, 3, 0],
    [5, 4, 7, 7, 6, 5],
    [4, 0, 3, 3, 7, 4],
    [1, 5, 6, 6, 2, 1],
    [3, 2, 6, 6, 7, 3],
    [4, 5, 1, 1, 0, 4],
];

/// Outward normal of each face, in the order of `CUBE_FACES`.
pub const CUBE_NORMALS: [[u32; 3]; 6] = [
    [ZERO, ZERO, NEG_ONE],
    [ZERO, ZERO, ONE],
    [NEG_ONE, ZERO, ZERO],
    [ONE, ZERO, ZERO],
    [ZERO, ONE, ZERO],
    [ZERO, NEG_ONE, ZERO],
];

/// Number of vertices of the cube mesh: six per face, six faces.
pub const CUBE_VERTEX_COUNT: usize = 36;

/// Vertex `v` of the cube mesh: the `v % 6`-th corner of face `v / 6`, that
/// face's normal, and a zero texture coordinate.
pub open spec fn cube_vertex(v: int) -> Seq<u32> {
    CUBE_POSITIONS[CUBE_FACES[v / 6][v % 6] as int]@ + CUBE_NORMALS[v / 6]@ + seq![ZERO, ZERO]
}

/// The cube's vertices, in order.
pub open spec fn cube_vertex_list() -> Seq<Seq<u32>> {
    Seq::new(CUBE_VERTEX_COUNT as nat, |v: int| cube_vertex(v))
}

/// Indices `0, 1, ..., n - 1`.
pub open spec fn sequential_indices(n: nat) -> Seq<u32> {
    Seq::new(n, |i: int| i as u32)
}

proof fn lemma_flatten_uniform(s: Seq<Seq<u32>>, w: int)
    requires
        w > 0,
        forall|k: int| 0 <= k < s.len() ==> (#[trigger] s[k]).len() == w,
    ensures
        s.flatten().len() == s.len() * w,
        forall|i: int| 0 <= i < s.len() * w ==> #[trigger] s.flatten()[i] == s[i / w][i % w],
    decreases s.len(),
{
    if s.len() > 0 {
        let rest = s.drop_last();
        lemma_flatten_uniform(rest, w);
        assert(s == rest.push(s.last()));
        Seq::lemma_flatten_push(rest, s.last());
        assert(s.flatten() == rest.flatten() + s.last());
        let n = rest.len();
        assert((n + 1) * w == n * w + w) by (nonlinear_arith);
        assert forall|i: int| 0 <= i < s.len() * w implies #[trigger] s.flatten()[i] == s[i / w][i
            % w] by {
            if i < n * w {
                assert(rest.flatten()[i] == rest[i / w][i % w]);
                assert(i / w < n) by (nonlinear_arith)
                    requires
                        0 <= i < n * w,
                        w > 0,
                ;
            } else {
                assert(i / w == n && i % w == i - n * w) by (nonlinear_arith)
                    requires
                        n * w <= i < n * w + w,
                        w > 0,
                ;
            }
        }
    }
}

/// Component `i` of the flattened cube vertex list is component `i % 8` of
/// vertex `i / 8`.
pub proof fn lemma_cube_layout()
    ensures
        cube_vertex_list().flatten().len() == 288,
        forall|i: int|
            0 <= i < 288 ==> #[trigger] cube_vertex_list().flatten()[i] == cube_vertex(i / 8)[i
                % 8],
{
    assert forall|k: int| 0 <= k < cube_vertex_list().len() implies (
    #[trigger] cube_vertex_list()[k]).len() == 8 by {
        assert(0 <= CUBE_FACES[k / 6][k % 6] < 8);
    }
    lemma_flatten_uniform(cube_vertex_list(), 8);
}

/// Builds the cube of side 1 centred on the origin: 36 vertices, six per
/// face, each face two triangles that share the face's outward normal.
pub fn create_cube_mesh() -> (mesh: MeshData)
    ensures
        mesh.vertices@ == cube_vertex_list().flatten(),
        mesh.indices@ == sequential_indices(CUBE_VERTEX_COUNT as nat),
        mesh_well_formed(mesh),
        vertex_count(mesh) == CUBE_VERTEX_COUNT,
{
    let mut vertices: Vec<u32> = Vec::new();
    let mut indices: Vec<u32> = Vec::new();
    let uv_placeholder: [u32; 2] = [ZERO, ZERO];
    let mut face_idx: usize = 0;
    while face_idx < 6
        invariant
            face_idx <= 6,
            uv_placeholder@ == seq![ZERO, ZERO],
            vertices@ == cube_vertex_list().take(6 * face_idx as int).flatten(),
            indices@ == sequential_indices(6 * face_idx as nat),
        decreases 6 - face_idx,
    {
        let normal = CUBE_NORMALS[face_idx];
        let face = CUBE_FACES[face_idx];
        let mut k: usize = 0;
        while k < 6
            invariant
                face_idx < 6,
                k <= 6,
                uv_placeholder@ == seq![ZERO, ZERO],
                normal == CUBE_NORMALS[face_idx as int],
                face == CUBE_FACES[face_idx as int],
                vertices@ == cube_vertex_list().take(6 * face_idx + k).flatten(),
            decreases 6 - k,
        {
            let vert_idx = face[k];
            assert(vert_idx < 8);
            let pos = CUBE_POSITIONS[vert_idx as usize];
            let ghost before = vertices@;
            vertices.extend_from_slice(&pos);
            vertices.extend_from_slice(&normal);
            vertices.extend_from_slice(&uv_placeholder);
            proof {
                let v = 6 * face_idx + k;
                assert(v / 6 == face_idx && v % 6 == k);
                assert(vertices@ == before + cube_vertex(v));
                let list = cube_vertex_list();
                assert(list.take(v + 1) == list.take(v).push(cube_vertex(v)));
                Seq::lemma_flatten_push(list.take(v), cube_vertex(v));
            }
            k += 1;
        }
        let base = (face_idx * 6) as u32;
        let ghost before = indices@;
        indices.extend_from_slice(&[base, base + 1, base + 2, base + 3, base + 4, base + 5]);
        assert(indices@ =~= sequential_indices(6 * (face_idx + 1) as nat));
        face_idx += 1;
    }
    let mesh = MeshData { vertices, indices };
    proof {
        lemma_cube_layout();
        assert(cube_vertex_list().take(36) == cube_vertex_list());
    }
    mesh
}

/// Every vertex of the cube lies on the face whose normal it carries: where
/// the normal is +1 or -1 along an axis, the position is +0.5 or -0.5 along
/// that axis, so each normal points out of the cube. Texture coordinates are
/// zero.
pub proof fn law_cube_normals_point_outward(v: int, axis: int)
    requires
        0 <= v < CUBE_VERTEX_COUNT,
        0 <= axis < 3,
    ensures
        cube_vertex_list()[v][3 + axis] == ONE ==> cube_vertex_list()[v][axis] == HALF,
        cube_vertex_list()[v][3 + axis] == NEG_ONE ==> cube_vertex_list()[v][axis] == NEG_HALF,
        cube_vertex_list()[v][3 + axis] == ZERO || cube_vertex_list()[v][3 + axis] == ONE
            || cube_vertex_list()[v][3 + axis] == NEG_ONE,
        cube_vertex_list()[v][6] == ZERO && cube_vertex_list()[v][7] == ZERO,
{
    let f = v / 6;
    let k = v % 6;
    assert(0 <= f < 6 && 0 <= k < 6);
    let c = CUBE_FACES[f][k] as int;
    assert(0 <= c < 8);
    assert(cube_vertex(v)[axis] == CUBE_POSITIONS[c][axis]);
    assert(cube_vertex(v)[3 + axis] == CUBE_NORMALS[f][axis]);
    assert(cube_vertex(v)[6] == ZERO && cube_vertex(v)[7] == ZERO);
}

// ---------------------------------------------------------------------------
// Geometry of mesh vertices
// ---------------------------------------------------------------------------

/// The value of a component in halves (units of 0.5), for the bit patterns
/// the meshes use; any other pattern reads as 0.
pub open spec fn halves(b: u32) -> int {
    if b == HALF {
        1
    } else if b == NEG_HALF {
        -1
    } else if b == ONE {
        2
    } else if b == NEG_ONE {
        -2
    } else if b == PLANE_HALF_SIZE {
        10
    } else if b == NEG_PLANE_HALF_SIZE {
        -10
    } else {
        0
    }
}

/// The three components of `vertex` from `at` on, in halves.
pub open spec fn triple(vertex: Seq<u32>, at: int) -> (int, int, int) {
    (halves(vertex[at]), halves(vertex[at + 1]), halves(vertex[at + 2]))
}

/// Position of a vertex, in halves.
pub open spec fn position(vertex: Seq<u32>) -> (int, int, int) {
    triple(vertex, 0)
}

/// Normal of a vertex, in halves.
pub open spec fn normal(vertex: Seq<u32>) -> (int, int, int) {
    triple(vertex, 3)
}

/// `b - a`.
pub open spec fn minus(b: (int, int, int), a: (int, int, int)) -> (int, int, int) {
    (b.0 - a.0, b.1 - a.1, b.2 - a.2)
}

/// Cross product `a x b`.
pub open spec fn cross(a: (int, int, int), b: (int, int, int)) -> (int, int, int) {
    (a.1 * b.2 - a.2 * b.1, a.2 * b.0 - a.0 * b.2, a.0 * b.1 - a.1 * b.0)
}

/// `k * a`.
pub open spec fn scaled(k: int, a: (int, int, int)) -> (int, int, int) {
    (k * a.0, k * a.1, k * a.2)
}

/// The winding vector of triangle `(p0, p1, p2)`: `(p1 - p0) x (p2 - p0)`.
/// It is zero exactly when the triangle is degenerate, and points to the side
/// from which the corners run counter-clockwise.
pub open spec fn winding(p0: (int, int, int), p1: (int, int, int), p2: (int, int, int)) -> (
    int,
    int,
    int,
) {
    cross(minus(p1, p0), minus(p2, p0))
}

/// Whether every component of `p` is +1 or -1 half: `p` is a corner of the
/// unit cube.
pub open spec fn is_cube_corner(p: (int, int, int)) -> bool {
    &&& (p.0 == 1 || p.0 == -1)
    &&& (p.1 == 1 || p.1 == -1)
    &&& (p.2 == 1 || p.2 == -1)
}

/// Whether `n` is a unit axis direction (in halves).
pub open spec fn is_axis_normal(n: (int, int, int)) -> bool {
    ||| n == (2int, 0int, 0int)
    ||| n == (-2int, 0int, 0int)
    ||| n == (0int, 2int, 0int)
    ||| n == (0int, -2int, 0int)
    ||| n == (0int, 0int, 2int)
    ||| n == (0int, 0int, -2int)
}

/// Whether point `p` lies on the face of the unit cube that `n` points out
/// of: along the normal's axis, `p` is at +0.5 or -0.5 as the normal points.
pub open spec fn on_face(p: (int, int, int), n: (int, int, int)) -> bool {
    &&& (n.0 > 0 ==> p.0 == 1) && (n.0 < 0 ==> p.0 == -1)
    &&& (n.1 > 0 ==> p.1 == 1) && (n.1 < 0 ==> p.1 == -1)
    &&& (n.2 > 0 ==> p.2 == 1) && (n.2 < 0 ==> p.2 == -1)
}

/// Each face of the cube is a square of four distinct corners
/// `c0, c1, c2, c3` drawn as the triangles `(c0, c1, c2)` and `(c2, c3, c0)`:
/// vertices `6f .. 6f + 6` are `c0, c1, c2, c2, c3, c0`, the face normal is a
/// unit axis direction, and neither triangle is degenerate: both wind
/// clockwise seen from outside, with winding vector `-2` times the normal (in
/// halves: a right triangle whose legs are sides of the cube).
pub proof fn law_cube_face_is_square(f: int)
    requires
        0 <= f < 6,
    ensures
        is_axis_normal(normal(cube_vertex_list()[6 * f])),
        position(cube_vertex_list()[6 * f + 3]) == position(cube_vertex_list()[6 * f + 2]),
        position(cube_vertex_list()[6 * f + 5]) == position(cube_vertex_list()[6 * f]),
        position(cube_vertex_list()[6 * f + 4]) != position(cube_vertex_list()[6 * f]),
        position(cube_vertex_list()[6 * f + 4]) != position(cube_vertex_list()[6 * f + 1]),
        position(cube_vertex_list()[6 * f + 4]) != position(cube_vertex_list()[6 * f + 2]),
        winding(
            position(cube_vertex_list()[6 * f]),
            position(cube_vertex_list()[6 * f + 1]),
            position(cube_vertex_list()[6 * f + 2]),
        ) == scaled(-2, normal(cube_vertex_list()[6 * f])),
        winding(
            position(cube_vertex_list()[6 * f + 3]),
            position(cube_vertex_list()[6 * f + 4]),
            position(cube_vertex_list()[6 * f + 5]),
        ) == scaled(-2, normal(cube_vertex_list()[6 * f])),
{
    let l = cube_vertex_list();
    if f == 0 {
        assert(l[0] == cube_vertex(0));
        assert(position(l[0]) == (-1int, -1int, -1int));
        assert(l[1] == cube_vertex(1));
        assert(position(l[1]) == (1int, -1int, -1int));
        assert(l[2] == cube_vertex(2));
        assert(position(l[2]) == (1int, 1int, -1int));
        assert(l[3] == cube_vertex(3));
        assert(position(l[3]) == (1int, 1int, -1int));
        assert(l[4] == cube_vertex(4));
        assert(position(l[4]) == (-1int, 1int, -1int));
        assert(l[5] == cube_vertex(5));
        assert(position(l[5]) == (-1int, -1int, -1int));
        assert(normal(l[0]) == (0int, 0int, -2int));
        assert(winding((-1int, -1int, -1int), (1int, -1int, -1int), (1int, 1int, -1int)) == (0int, 0int, 4int)) by (nonlinear_arith);
        assert(winding((1int, 1int, -1int), (-1int, 1int, -1int), (-1int, -1int, -1int)) == (0int, 0int, 4int)) by (nonlinear_arith);
    } else if f == 1 {
        assert(l[6] == cube_vertex(6));
        assert(position(l[6]) == (1int, -1int, 1int));
        assert(l[7] == cube_vertex(7));
        assert(position(l[7]) == (-1int, -1int, 1int));
        assert(l[8] == cube_vertex(8));
        assert(position(l[8]) == (-1int, 1int, 1int));
        assert(l[9] == cube_vertex(9));
        assert(position(l[9]) == (-1int, 1int, 1int));
        assert(l[10] == cube_vertex(10));
        assert(position(l[10]) == (1int, 1int, 1int));
        assert(l[11] == cube_vertex(11));
        assert(position(l[11]) == (1int, -1int, 1int));
        assert(normal(l[6]) == (0int, 0int, 2int));
        assert(winding((1int, -1int, 1int), (-1int, -1int, 1int), (-1int, 1int, 1int)) == (0int, 0int, -4int)) by (nonlinear_arith);
        assert(winding((-1int, 1int, 1int), (1int, 1int, 1int), (1int, -1int, 1int)) == (0int, 0int, -4int)) by (nonlinear_arith);
    } else if f == 2 {
        assert(l[12] == cube_vertex(12));
        assert(position(l[12]) == (-1int, -1int, 1int));
        assert(l[13] == cube_vertex(13));
        assert(position(l[13]) == (-1int, -1int, -1int));
        assert(l[14] == cube_vertex(14));
        assert(position(l[14]) == (-1int, 1int, -1int));
        assert(l[15] == cube_vertex(15));
        assert(position(l[15]) == (-1int, 1int, -1int));
        assert(l[16] == cube_vertex(16));
        assert(position(l[16]) == (-1int, 1int, 1int));
        assert(l[17] == cube_vertex(17));
        assert(position(l[17]) == (-1int, -1int, 1int));
        assert(normal(l[12]) == (-2int, 0int, 0int));
        assert(winding((-1int, -1int, 1int), (-1int, -1int, -1int), (-1int, 1int, -1int)) == (4int, 0int, 0int)) by (nonlinear_arith);
        assert(winding((-1int, 1int, -1int), (-1int, 1int, 1int), (-1int, -1int, 1int)) == (4int, 0int, 0int)) by (nonlinear_arith);
    } else if f == 3 {
        assert(l[18] == cube_vertex(18));
        assert(position(l[18]) == (1int, -1int, -1int));
        assert(l[19] == cube_vertex(19));
        assert(position(l[19]) == (1int, -1int, 1int));
        assert(l[20] == cube_vertex(20));
        assert(position(l[20]) == (1int, 1int, 1int));
        assert(l[21] == cube_vertex(21));
        assert(position(l[21]) == (1int, 1int, 1int));
        assert(l[22] == cube_vertex(22));
        assert(position(l[22]) == (1int, 1int, -1int));
        assert(l[23] == cube_vertex(23));
        assert(position(l[23]) == (1int, -1int, -1int));
        assert(normal(l[18]) == (2int, 0int, 0int));
        assert(winding((1int, -1int, -1int), (1int, -1int, 1int), (1int, 1int, 1int)) == (-4int, 0int, 0int)) by (nonlinear_arith);
        assert(winding((1int, 1int, 1int), (1int, 1int, -1int), (1int, -1int, -1int)) == (-4int, 0int, 0int)) by (nonlinear_arith);
    } else if f == 4 {
        assert(l[24] == cube_vertex(24));
        assert(position(l[24]) == (-1int, 1int, -1int));
        assert(l[25] == cube_vertex(25));
        assert(position(l[25]) == (1int, 1int, -1int));
        assert(l[26] == cube_vertex(26));
        assert(position(l[26]) == (1int, 1int, 1int));
        assert(l[27] == cube_vertex(27));
        assert(position(l[27]) == (1int, 1int, 1int));
        assert(l[28] == cube_vertex(28));
        assert(position(l[28]) == (-1int, 1int, 1int));
        assert(l[29] == cube_vertex(29));
        assert(position(l[29]) == (-1int, 1int, -1int));
        assert(normal(l[24]) == (0int, 2int, 0int));
        assert(winding((-1int, 1int, -1int), (1int, 1int, -1int), (1int, 1int, 1int)) == (0int, -4int, 0int)) by (nonlinear_arith);
        assert(winding((1int, 1int, 1int), (-1int, 1int, 1int), (-1int, 1int, -1int)) == (0int, -4int, 0int)) by (nonlinear_arith);
    } else if f == 5 {
        assert(l[30] == cube_vertex(30));
        assert(position(l[30]) == (-1int, -1int, 1int));
        assert(l[31] == cube_vertex(31));
        assert(position(l[31]) == (1int, -1int, 1int));
        assert(l[32] == cube_vertex(32));
        assert(position(l[32]) == (1int, -1int, -1int));
        assert(l[33] == cube_vertex(33));
        assert(position(l[33]) == (1int, -1int, -1int));
        assert(l[34] == cube_vertex(34));
        assert(position(l[34]) == (-1int, -1int, -1int));
        assert(l[35] == cube_vertex(35));
        assert(position(l[35]) == (-1int, -1int, 1int));
        assert(normal(l[30]) == (0int, -2int, 0int));
        assert(winding((-1int, -1int, 1int), (1int, -1int, 1int), (1int, -1int, -1int)) == (0int, 4int, 0int)) by (nonlinear_arith);
        assert(winding((1int, -1int, -1int), (-1int, -1int, -1int), (-1int, -1int, 1int)) == (0int, 4int, 0int)) by (nonlinear_arith);
    }
}

/// Every vertex of the cube sits at a corner of the cube, on the face whose
/// normal it carries, with that face's normal and a zero texture coordinate.
pub proof fn law_cube_vertex_on_its_face(v: int)
    requires
        0 <= v < CUBE_VERTEX_COUNT,
    ensures
        is_cube_corner(position(cube_vertex_list()[v])),
        on_face(position(cube_vertex_list()[v]), normal(cube_vertex_list()[v])),
        normal(cube_vertex_list()[v]) == normal(cube_vertex_list()[6 * (v / 6)]),
        cube_vertex_list()[v][6] == ZERO,
        cube_vertex_list()[v][7] == ZERO,
{
    let l = cube_vertex_list();
    if v == 0 {
        assert(l[0] == cube_vertex(0) && l[0] == cube_vertex(0));
        assert(position(l[0]) == (-1int, -1int, -1int) && normal(l[0]) == (0int, 0int, -2int));
        assert(normal(l[0]) == (0int, 0int, -2int));
    } else if v == 1 {
        assert(l[1] == cube_vertex(1) && l[0] == cube_vertex(0));
        assert(position(l[1]) == (1int, -1int, -1int) && normal(l[1]) == (0int, 0int, -2int));
        assert(normal(l[0]) == (0int, 0int, -2int));
    } else if v == 2 {
        assert(l[2] == cube_vertex(2) && l[0] == cube_vertex(0));
        assert(position(l[2]) == (1int, 1int, -1int) && normal(l[2]) == (0int, 0int, -2int));
        assert(normal(l[0]) == (0int, 0int, -2int));
    } else if v == 3 {
        assert(l[3] == cube_vertex(3) && l[0] == cube_vertex(0));
        assert(position(l[3]) == (1int, 1int, -1int) && normal(l[3]) == (0int, 0int, -2int));
        assert(normal(l[0]) == (0int, 0int, -2int));
    } else if v == 4 {
        assert(l[4] == cube_vertex(4) && l[0] == cube_vertex(0));
        assert(position(l[4]) == (-1int, 1int, -1int) && normal(l[4]) == (0int, 0int, -2int));
        assert(normal(l[0]) == (0int, 0int, -2int));
    } else if v == 5 {
        assert(l[5] == cube_vertex(5) && l[0] == cube_vertex(0));
        assert(position(l[5]) == (-1int, -1int, -1int) && normal(l[5]) == (0int, 0int, -2int));
        assert(normal(l[0]) == (0int, 0int, -2int));
    } else if v == 6 {
        assert(l[6] == cube_vertex(6) && l[6] == cube_vertex(6));
        assert(position(l[6]) == (1int, -1int, 1int) && normal(l[6]) == (0int, 0int, 2int));
        assert(normal(l[6]) == (0int, 0int, 2int));
    } else if v == 7 {
        assert(l[7] == cube_vertex(7) && l[6] == cube_vertex(6));
        assert(position(l[7]) == (-1int, -1int, 1int) && normal(l[7]) == (0int, 0int, 2int));
        assert(normal(l[6]) == (0int, 0int, 2int));
    } else if v == 8 {
        assert(l[8] == cube_vertex(8) && l[6] == cube_vertex(6));
        assert(position(l[8]) == (-1int, 1int, 1int) && normal(l[8]) == (0int, 0int, 2int));
        assert(normal(l[6]) == (0int, 0int, 2int));
    } else if v == 9 {
        assert(l[9] == cube_vertex(9) && l[6] == cube_vertex(6));
        assert(position(l[9]) == (-1int, 1int, 1int) && normal(l[9]) == (0int, 0int, 2int));
        assert(normal(l[6]) == (0int, 0int, 2int));
    } else if v == 10 {
        assert(l[10] == cube_vertex(10) && l[6] == cube_vertex(6));
        assert(position(l[10]) == (1int, 1int, 1int) && normal(l[10]) == (0int, 0int, 2int));
        assert(normal(l[6]) == (0int, 0int, 2int));
    } else if v == 11 {
        assert(l[11] == cube_vertex(11) && l[6] == cube_vertex(6));
        assert(position(l[11]) == (1int, -1int, 1int) && normal(l[11]) == (0int, 0int, 2int));
        assert(normal(l[6]) == (0int, 0int, 2int));
    } else if v == 12 {
        assert(l[12] == cube_vertex(12) && l[12] == cube_vertex(12));
        assert(position(l[12]) == (-1int, -1int, 1int) && normal(l[12]) == (-2int, 0int, 0int));
        assert(normal(l[12]) == (-2int, 0int, 0int));
    } else if v == 13 {
        assert(l[13] == cube_vertex(13) && l[12] == cube_vertex(12));
        assert(position(l[13]) == (-1int, -1int, -1int) && normal(l[13]) == (-2int, 0int, 0int));
        assert(normal(l[12]) == (-2int, 0int, 0int));
    } else if v == 14 {
        assert(l[14] == cube_vertex(14) && l[12] == cube_vertex(12));
        assert(position(l[14]) == (-1int, 1int, -1int) && normal(l[14]) == (-2int, 0int, 0int));
        assert(normal(l[12]) == (-2int, 0int, 0int));
    } else if v == 15 {
        assert(l[15] == cube_vertex(15) && l[12] == cube_vertex(12));
        assert(position(l[15]) == (-1int, 1int, -1int) && normal(l[15]) == (-2int, 0int, 0int));
        assert(normal(l[12]) == (-2int, 0int, 0int));
    } else if v == 16 {
        assert(l[16] == cube_vertex(16) && l[12] == cube_vertex(12));
        assert(position(l[16]) == (-1int, 1int, 1int) && normal(l[16]) == (-2int, 0int, 0int));
        assert(normal(l[12]) == (-2int, 0int, 0int));
    } else if v == 17 {
        assert(l[17] == cube_vertex(17) && l[12] == cube_vertex(12));
        assert(position(l[17]) == (-1int, -1int, 1int) && normal(l[17]) == (-2int, 0int, 0int));
        assert(normal(l[12]) == (-2int, 0int, 0int));
    } else if v == 18 {
        assert(l[18] == cube_vertex(18) && l[18] == cube_vertex(18));
        assert(position(l[18]) == (1int, -1int, -1int) && normal(l[18]) == (2int, 0int, 0int));
        assert(normal(l[18]) == (2int, 0int, 0int));
    } else if v == 19 {
        assert(l[19] == cube_vertex(19) && l[18] == cube_vertex(18));
        assert(position(l[19]) == (1int, -1int, 1int) && normal(l[19]) == (2int, 0int, 0int));
        assert(normal(l[18]) == (2int, 0int, 0int));
    } else if v == 20 {
        assert(l[20] == cube_vertex(20) && l[18] == cube_vertex(18));
        assert(position(l[20]) == (1int, 1int, 1int) && normal(l[20]) == (2int, 0int, 0int));
        assert(normal(l[18]) == (2int, 0int, 0int));
    } else if v == 21 {
        assert(l[21] == cube_vertex(21) && l[18] == cube_vertex(18));
        assert(position(l[21]) == (1int, 1int, 1int) && normal(l[21]) == (2int, 0int, 0int));
        assert(normal(l[18]) == (2int, 0int, 0int));
    } else if v == 22 {
        assert(l[22] == cube_vertex(22) && l[18] == cube_vertex(18));
        assert(position(l[22]) == (1int, 1int, -1int) && normal(l[22]) == (2int, 0int, 0int));
        assert(normal(l[18]) == (2int, 0int, 0int));
    } else if v == 23 {
        assert(l[23] == cube_vertex(23) && l[18] == cube_vertex(18));
        assert(position(l[23]) == (1int, -1int, -1int) && normal(l[23]) == (2int, 0int, 0int));
        assert(normal(l[18]) == (2int, 0int, 0int));
    } else if v == 24 {
        assert(l[24] == cube_vertex(24) && l[24] == cube_vertex(24));
        assert(position(l[24]) == (-1int, 1int, -1int) && normal(l[24]) == (0int, 2int, 0int));
        assert(normal(l[24]) == (0int, 2int, 0int));
    } else if v == 25 {
        assert(l[25] == cube_vertex(25) && l[24] == cube_vertex(24));
        assert(position(l[25]) == (1int, 1int, -1int) && normal(l[25]) == (0int, 2int, 0int));
        assert(normal(l[24]) == (0int, 2int, 0int));
    } else if v == 26 {
        assert(l[26] == cube_vertex(26) && l[24] == cube_vertex(24));
        assert(position(l[26]) == (1int, 1int, 1int) && normal(l[26]) == (0int, 2int, 0int));
        assert(normal(l[24]) == (0int, 2int, 0int));
    } else if v == 27 {
        assert(l[27] == cube_vertex(27) && l[24] == cube_vertex(24));
        assert(position(l[27]) == (1int, 1int, 1int) && normal(l[27]) == (0int, 2int, 0int));
        assert(normal(l[24]) == (0int, 2int, 0int));
    } else if v == 28 {
        assert(l[28] == cube_vertex(28) && l[24] == cube_vertex(24));
        assert(position(l[28]) == (-1int, 1int, 1int) && normal(l[28]) == (0int, 2int, 0int));
        assert(normal(l[24]) == (0int, 2int, 0int));
    } else if v == 29 {
        assert(l[29] == cube_vertex(29) && l[24] == cube_vertex(24));
        assert(position(l[29]) == (-1int, 1int, -1int) && normal(l[29]) == (0int, 2int, 0int));
        assert(normal(l[24]) == (0int, 2int, 0int));
    } else if v == 30 {
        assert(l[30] == cube_vertex(30) && l[30] == cube_vertex(30));
        assert(position(l[30]) == (-1int, -1int, 1int) && normal(l[30]) == (0int, -2int, 0int));
        assert(normal(l[30]) == (0int, -2int, 0int));
    } else if v == 31 {
        assert(l[31] == cube_vertex(31) && l[30] == cube_vertex(30));
        assert(position(l[31]) == (1int, -1int, 1int) && normal(l[31]) == (0int, -2int, 0int));
        assert(normal(l[30]) == (0int, -2int, 0int));
    } else if v == 32 {
        assert(l[32] == cube_vertex(32) && l[30] == cube_vertex(30));
        assert(position(l[32]) == (1int, -1int, -1int) && normal(l[32]) == (0int, -2int, 0int));
        assert(normal(l[30]) == (0int, -2int, 0int));
    } else if v == 33 {
        assert(l[33] == cube_vertex(33) && l[30] == cube_vertex(30));
        assert(position(l[33]) == (1int, -1int, -1int) && normal(l[33]) == (0int, -2int, 0int));
        assert(normal(l[30]) == (0int, -2int, 0int));
    } else if v == 34 {
        assert(l[34] == cube_vertex(34) && l[30] == cube_vertex(30));
        assert(position(l[34]) == (-1int, -1int, -1int) && normal(l[34]) == (0int, -2int, 0int));
        assert(normal(l[30]) == (0int, -2int, 0int));
    } else if v == 35 {
        assert(l[35] == cube_vertex(35) && l[30] == cube_vertex(30));
        assert(position(l[35]) == (-1int, -1int, 1int) && normal(l[35]) == (0int, -2int, 0int));
        assert(normal(l[30]) == (0int, -2int, 0int));
    }
}

/// The faces come in the order -Z, +Z, -X, +X, +Y, -Y, and each face's
/// quad starts with the listed first edge `(c0, c1)`.
pub proof fn law_cube_face_order(f: int)
    requires
        0 <= f < 6,
    ensures
        normal(cube_vertex_list()[6 * f]) == seq![(0int, 0int, -2int), (0int, 0int, 2int), (-2int, 0int, 0int), (2int, 0int, 0int), (0int, 2int, 0int), (0int, -2int, 0int)][f],
        position(cube_vertex_list()[6 * f]) == seq![(-1int, -1int, -1int), (1int, -1int, 1int), (-1int, -1int, 1int), (1int, -1int, -1int), (-1int, 1int, -1int), (-1int, -1int, 1int)][f],
        position(cube_vertex_list()[6 * f + 1]) == seq![(1int, -1int, -1int), (-1int, -1int, 1int), (-1int, -1int, -1int), (1int, -1int, 1int), (1int, 1int, -1int), (1int, -1int, 1int)][f],
{
    let l = cube_vertex_list();
    if f == 0 {
        assert(l[0] == cube_vertex(0) && l[1] == cube_vertex(1));
        assert(position(l[0]) == (-1int, -1int, -1int) && position(l[1]) == (1int, -1int, -1int));
        assert(normal(l[0]) == (0int, 0int, -2int));
    } else if f == 1 {
        assert(l[6] == cube_vertex(6) && l[7] == cube_vertex(7));
        assert(position(l[6]) == (1int, -1int, 1int) && position(l[7]) == (-1int, -1int, 1int));
        assert(normal(l[6]) == (0int, 0int, 2int));
    } else if f == 2 {
        assert(l[12] == cube_vertex(12) && l[13] == cube_vertex(13));
        assert(position(l[12]) == (-1int, -1int, 1int) && position(l[13]) == (-1int, -1int, -1int));
        assert(normal(l[12]) == (-2int, 0int, 0int));
    } else if f == 3 {
        assert(l[18] == cube_vertex(18) && l[19] == cube_vertex(19));
        assert(position(l[18]) == (1int, -1int, -1int) && position(l[19]) == (1int, -1int, 1int));
        assert(normal(l[18]) == (2int, 0int, 0int));
    } else if f == 4 {
        assert(l[24] == cube_vertex(24) && l[25] == cube_vertex(25));
        assert(position(l[24]) == (-1int, 1int, -1int) && position(l[25]) == (1int, 1int, -1int));
        assert(normal(l[24]) == (0int, 2int, 0int));
    } else if f == 5 {
        assert(l[30] == cube_vertex(30) && l[31] == cube_vertex(31));
        assert(position(l[30]) == (-1int, -1int, 1int) && position(l[31]) == (1int, -1int, 1int));
        assert(normal(l[30]) == (0int, -2int, 0int));
    }
}

/// The six faces of the cube have six different normals, so they are the six
/// different sides of the cube.
pub proof fn law_cube_faces_distinct(f: int, g: int)
    requires
        0 <= f < 6,
        0 <= g < 6,
        f != g,
    ensures
        normal(cube_vertex_list()[6 * f]) != normal(cube_vertex_list()[6 * g]),
{
    let l = cube_vertex_list();
    assert(l[6 * f] == cube_vertex(6 * f) && l[6 * g] == cube_vertex(6 * g));
    assert((6 * f) / 6 == f && (6 * g) / 6 == g);
}

// ---------------------------------------------------------------------------
// Ground plane
// ---------------------------------------------------------------------------

/// Corners of the 10 by 10 ground plane at height zero.
pub const PLANE_POSITIONS: [[u32; 3]; 4] = [
    [NEG_PLANE_HALF_SIZE, ZERO, NEG_PLANE_HALF_SIZE],
    [PLANE_HALF_SIZE, ZERO, NEG_PLANE_HALF_SIZE],
    [PLANE_HALF_SIZE, ZERO, PLANE_HALF_SIZE],
    [NEG_PLANE_HALF_SIZE, ZERO, PLANE_HALF_SIZE],
];

/// The plane's normal, pointing up.
pub const PLANE_NORMAL: [u32; 3] = [ZERO, ONE, ZERO];

/// Texture coordinate of each corner of the plane.
pub const PLANE_UVS: [[u32; 2]; 4] = [[ZERO, ZERO], [ONE, ZERO], [ONE, ONE], [ZERO, ONE]];

/// Corners of the plane's two triangles; also the plane's index list.
pub const PLANE_INDICES: [u32; 6] = [0, 1, 2, 0, 2, 3];

/// Vertex `v` of the plane mesh: corner `PLANE_INDICES[v]` with the up normal
/// and that corner's texture coordinate.
pub open spec fn plane_vertex(v: int) -> Seq<u32> {
    let corner = PLANE_INDICES[v] as int;
    PLANE_POSITIONS[corner]@ + PLANE_NORMAL@ + PLANE_UVS[corner]@
}

/// The plane's vertices, in order.
pub open spec fn plane_vertex_list() -> Seq<Seq<u32>> {
    Seq::new(6, |v: int| plane_vertex(v))
}

/// Component `i` of the flattened plane vertex list is component `i % 8` of
/// vertex `i / 8`.
pub proof fn lemma_plane_layout()
    ensures
        plane_vertex_list().flatten().len() == 48,
        forall|i: int|
            0 <= i < 48 ==> #[trigger] plane_vertex_list().flatten()[i] == plane_vertex(i / 8)[i
                % 8],
{
    assert forall|k: int| 0 <= k < plane_vertex_list().len() implies (
    #[trigger] plane_vertex_list()[k]).len() == 8 by {
        assert(0 <= PLANE_INDICES[k] < 4);
    }
    lemma_flatten_uniform(plane_vertex_list(), 8);
}

/// The plane lies at height zero and every vertex carries the up normal.
pub proof fn law_plane_is_level(v: int)
    requires
        0 <= v < 6,
    ensures
        plane_vertex_list()[v][1] == ZERO,
        plane_vertex_list()[v].subrange(3, 6) == seq![ZERO, ONE, ZERO],
{
    let c = PLANE_INDICES[v] as int;
    assert(0 <= c < 4);
    assert(plane_vertex(v).subrange(3, 6) =~= PLANE_NORMAL@);
}

/// The plane is the square `[-5, 5] x [-5, 5]` at height zero, drawn as two
/// triangles over its four distinct corners `c0, c1, c2, c3`: vertices
/// `0 .. 6` are `c0, c1, c2, c0, c2, c3`. Neither triangle is degenerate: both
/// wind clockwise seen from above, with winding vector `-200` times the normal
/// (in halves: a right triangle whose legs are sides of the square).
pub proof fn law_plane_is_square()
    ensures
        position(plane_vertex_list()[3]) == position(plane_vertex_list()[0]),
        position(plane_vertex_list()[4]) == position(plane_vertex_list()[2]),
        position(plane_vertex_list()[5]) != position(plane_vertex_list()[0]),
        position(plane_vertex_list()[5]) != position(plane_vertex_list()[1]),
        position(plane_vertex_list()[5]) != position(plane_vertex_list()[2]),
        winding(
            position(plane_vertex_list()[0]),
            position(plane_vertex_list()[1]),
            position(plane_vertex_list()[2]),
        ) == scaled(-200, normal(plane_vertex_list()[0])),
        winding(
            position(plane_vertex_list()[3]),
            position(plane_vertex_list()[4]),
            position(plane_vertex_list()[5]),
        ) == scaled(-200, normal(plane_vertex_list()[0])),
{
    let l = plane_vertex_list();
    assert(l[0] == plane_vertex(0));
    assert(position(l[0]) == (-10int, 0int, -10int));
    assert(l[1] == plane_vertex(1));
    assert(position(l[1]) == (10int, 0int, -10int));
    assert(l[2] == plane_vertex(2));
    assert(position(l[2]) == (10int, 0int, 10int));
    assert(l[3] == plane_vertex(3));
    assert(position(l[3]) == (-10int, 0int, -10int));
    assert(l[4] == plane_vertex(4));
    assert(position(l[4]) == (10int, 0int, 10int));
    assert(l[5] == plane_vertex(5));
    assert(position(l[5]) == (-10int, 0int, 10int));
    assert(normal(l[0]) == (0int, 2int, 0int));
    assert(winding((-10int, 0int, -10int), (10int, 0int, -10int), (10int, 0int, 10int)) == (0int, -400int, 0int)) by (nonlinear_arith);
    assert(winding((-10int, 0int, -10int), (10int, 0int, 10int), (-10int, 0int, 10int)) == (0int, -400int, 0int)) by (nonlinear_arith);
}

/// Every vertex of the plane sits at a corner `(x, 0, z)` of the square, with
/// `x` and `z` each +5 or -5, carries the up normal, and carries its corner's
/// texture coordinate: `u` is 1 where `x` is +5 and 0 where it is -5, and `v`
/// likewise follows `z`.
pub proof fn law_plane_vertex_at_corner(v: int)
    requires
        0 <= v < 6,
    ensures
        position(plane_vertex_list()[v]).0 == 10 || position(plane_vertex_list()[v]).0 == -10,
        position(plane_vertex_list()[v]).1 == 0,
        position(plane_vertex_list()[v]).2 == 10 || position(plane_vertex_list()[v]).2 == -10,
        normal(plane_vertex_list()[v]) == (0int, 2int, 0int),
        plane_vertex_list()[v][6] == if position(plane_vertex_list()[v]).0 == 10 {
            ONE
        } else {
            ZERO
        },
        plane_vertex_list()[v][7] == if position(plane_vertex_list()[v]).2 == 10 {
            ONE
        } else {
            ZERO
        },
{
    let l = plane_vertex_list();
    if v == 0 {
        assert(l[0] == plane_vertex(0));
        assert(position(l[0]) == (-10int, 0int, -10int) && normal(l[0]) == (0int, 2int, 0int));
    } else if v == 1 {
        assert(l[1] == plane_vertex(1));
        assert(position(l[1]) == (10int, 0int, -10int) && normal(l[1]) == (0int, 2int, 0int));
    } else if v == 2 {
        assert(l[2] == plane_vertex(2));
        assert(position(l[2]) == (10int, 0int, 10int) && normal(l[2]) == (0int, 2int, 0int));
    } else if v == 3 {
        assert(l[3] == plane_vertex(3));
        assert(position(l[3]) == (-10int, 0int, -10int) && normal(l[3]) == (0int, 2int, 0int));
    } else if v == 4 {
        assert(l[4] == plane_vertex(4));
        assert(position(l[4]) == (10int, 0int, 10int) && normal(l[4]) == (0int, 2int, 0int));
    } else if v == 5 {
        assert(l[5] == plane_vertex(5));
        assert(position(l[5]) == (-10int, 0int, 10int) && normal(l[5]) == (0int, 2int, 0int));
    }
}

/// The plane's vertices run over the corners (-5, -5), (5, -5), (5, 5) for
/// the first triangle and (-5, -5), (5, 5), (-5, 5) for the second, as
/// `(x, z)` at height zero.
pub proof fn law_plane_corner_order(v: int)
    requires
        0 <= v < 6,
    ensures
        position(plane_vertex_list()[v]) == seq![(-10int, 0int, -10int), (10int, 0int, -10int), (10int, 0int, 10int), (-10int, 0int, -10int), (10int, 0int, 10int), (-10int, 0int, 10int)][v],
{
    let l = plane_vertex_list();
    if v == 0 {
        assert(l[0] == plane_vertex(0));
        assert(position(l[0]) == (-10int, 0int, -10int));
    } else if v == 1 {
        assert(l[1] == plane_vertex(1));
        assert(position(l[1]) == (10int, 0int, -10int));
    } else if v == 2 {
        assert(l[2] == plane_vertex(2));
        assert(position(l[2]) == (10int, 0int, 10int));
    } else if v == 3 {
        assert(l[3] == plane_vertex(3));
        assert(position(l[3]) == (-10int, 0int, -10int));
    } else if v == 4 {
        assert(l[4] == plane_vertex(4));
        assert(position(l[4]) == (10int, 0int, 10int));
    } else if v == 5 {
        assert(l[5] == plane_vertex(5));
        assert(position(l[5]) == (-10int, 0int, 10int));
    }
}

/// Builds the ground plane: six vertices, one per triangle corner of
/// `PLANE_INDICES`, and `PLANE_INDICES` itself as the index list.
pub fn create_plane_mesh() -> (mesh: MeshData)
    ensures
        mesh.vertices@ == plane_vertex_list().flatten(),
        mesh.indices@ == PLANE_INDICES@,
        mesh_well_formed(mesh),
        vertex_count(mesh) == 6,
{
    let mut vertices: Vec<u32> = Vec::new();
    let normal = PLANE_NORMAL;
    let idxs = PLANE_INDICES;
    let mut n: usize = 0;
    while n < 6
        invariant
            n <= 6,
            normal == PLANE_NORMAL,
            idxs == PLANE_INDICES,
            vertices@ == plane_vertex_list().take(n as int).flatten(),
        decreases 6 - n,
    {
        let i = idxs[n];
        assert(i < 4);
        let p = PLANE_POSITIONS[i as usize];
        let uv = PLANE_UVS[i as usize];
        let ghost before = vertices@;
        vertices.extend_from_slice(&p);
        vertices.extend_from_slice(&normal);
        vertices.extend_from_slice(&uv);
        proof {
            assert(vertices@ == before + plane_vertex(n as int));
            let list = plane_vertex_list();
            assert(list.take(n + 1) == list.take(n as int).push(plane_vertex(n as int)));
            Seq::lemma_flatten_push(list.take(n as int), plane_vertex(n as int));
        }
        n += 1;
    }
    let indices = slice_to_vec(idxs.as_slice());
    let mesh = MeshData { vertices, indices };
    proof {
        lemma_plane_layout();
        assert(plane_vertex_list().take(6) == plane_vertex_list());
    }
    mesh
}

// ---------------------------------------------------------------------------
// Asset registry
// ---------------------------------------------------------------------------

/// Meshes registered by name.
pub struct AssetManager {
    meshes: StringHashMap<MeshData>,
}

impl View for AssetManager {
    type V = Map<Seq<char>, MeshData>;

    /// The registered meshes, keyed by name.
    closed spec fn view(&self) -> Map<Seq<char>, MeshData> {
        self.meshes@
    }
}

/// The mesh registered under `name` in `registry`, if any.
pub open spec fn mesh_lookup(registry: Map<Seq<char>, MeshData>, name: Seq<char>) -> Option<
    MeshData,
> {
    if registry.contains_key(name) {
        Some(registry[name])
    } else {
        None
    }
}

impl AssetManager {
    /// The registry holds finitely many names.
    #[verifier::type_invariant]
    spec fn registry_finite(self) -> bool {
        self.meshes@.dom().finite()
    }

    /// An empty registry.
    pub fn new() -> (manager: Self)
        ensures
            manager@ == Map::<Seq<char>, MeshData>::empty(),
            manager@.dom().finite(),
    {
        AssetManager { meshes: StringHashMap::new() }
    }

    /// Registers `data` under `name`, replacing any mesh of that name.
    pub fn register_mesh(&mut self, name: &str, data: MeshData)
        ensures
            final(self)@ == old(self)@.insert(name@, data),
            final(self)@.dom().finite(),
            final(self)@.len() == if old(self)@.contains_key(name@) {
                old(self)@.len()
            } else {
                old(self)@.len() + 1
            },
    {
        proof {
            use_type_invariant(&*self);
        }
        let ghost before = self@;
        let mut meshes = StringHashMap::new();
        std::mem::swap(&mut meshes, &mut self.meshes);
        meshes.insert(name.to_owned(), data);
        assert(meshes@.dom() =~= before.dom().insert(name@));
        self.meshes = meshes;
        proof {
            law_count_after_register(before, name@, data);
        }
    }

    /// The mesh registered under `name`, or `None`.
    pub fn get_mesh(&self, name: &str) -> (found: Option<&MeshData>)
        ensures
            match found {
                Some(m) => mesh_lookup(self@, name@) == Some(*m),
                None => mesh_lookup(self@, name@) is None,
            },
            self@.dom().finite(),
    {
        proof {
            use_type_invariant(self);
        }
        self.meshes.get(name)
    }

    /// Whether a mesh is registered under `name`.
    pub fn has_mesh(&self, name: &str) -> (present: bool)
        ensures
            present == self@.contains_key(name@),
            self@.dom().finite(),
    {
        proof {
            use_type_invariant(self);
        }
        self.meshes.contains_key(name)
    }

    /// Number of distinct names that have a mesh.
    pub fn mesh_count(&self) -> (count: usize)
        ensures
            count == self@.len(),
            self@.dom().finite(),
    {
        proof {
            use_type_invariant(self);
        }
        self.meshes.len()
    }
}

/// A registry reads back what was last registered under a name: the new mesh
/// under that name, and what it held before under every other name.
pub proof fn law_lookup_after_register(
    registry: Map<Seq<char>, MeshData>,
    name: Seq<char>,
    data: MeshData,
    other: Seq<char>,
)
    ensures
        mesh_lookup(registry.insert(name, data), name) == Some(data),
        other != name ==> mesh_lookup(registry.insert(name, data), other) == mesh_lookup(
            registry,
            other,
        ),
{
}

/// Registering a new name adds one to the mesh count; registering a name again
/// replaces its mesh and keeps the count.
pub proof fn law_count_after_register(
    registry: Map<Seq<char>, MeshData>,
    name: Seq<char>,
    data: MeshData,
)
    requires
        registry.dom().finite(),
    ensures
        registry.insert(name, data).len() == if registry.contains_key(name) {
            registry.len()
        } else {
            registry.len() + 1
        },
{
}

/// A name has a mesh exactly when a lookup finds one.
pub proof fn law_has_iff_found(registry: Map<Seq<char>, MeshData>, name: Seq<char>)
    ensures
        registry.contains_key(name) <==> mesh_lookup(registry, name) is Some,
{
}

} // verus!
