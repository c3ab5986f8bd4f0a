//! Canonical meshes: a unit cube with one quad per face, and a unit quad on
//! the Y=0 plane. Positions are kept in half units (-1 and 1 stand for -0.5
//! and 0.5), texture coordinates as 0 or 1, so the data is exact.
use vstd::prelude::*;
use vstd::std_specs::convert::FromSpec;

verus! {

/// A vertex of a canonical mesh: a position in half units and a texture
/// coordinate.
#[derive(Clone, Copy, Debug, PartialEq, Eq, Structural)]
pub struct GridVertex {
    pub x: i8,
    pub y: i8,
    pub z: i8,
    pub u: u8,
    pub v: u8,
}

/// Vertices and triangle-list indices of a mesh.
pub struct MeshData<I> {
    pub vertices: Vec<GridVertex>,
    pub indices: Vec<I>,
}

/// The texture coordinate of corner `k` of a face: counter-clockwise from
/// the origin of texture space.
pub open spec fn corner_uv(k: int) -> (u8, u8) {
    if k == 0 {
        (0, 0)
    } else if k == 1 {
        (1, 0)
    } else if k == 2 {
        (1, 1)
    } else {
        (0, 1)
    }
}

/// The point of cube face `face` at texture coordinate (u, v). Faces, in
/// order: front (+z), back (-z), left (-x), right (+x), top (+y), bottom (-y).
pub open spec fn face_point(face: int, u: int, v: int) -> (int, int, int) {
    if face == 0 {
        (2 * u - 1, 2 * v - 1, 1)
    } else if face == 1 {
        (1 - 2 * u, 2 * v - 1, -1)
    } else if face == 2 {
        (-1, 2 * v - 1, 2 * u - 1)
    } else if face == 3 {
        (1, 2 * v - 1, 1 - 2 * u)
    } else if face == 4 {
        (2 * u - 1, 1, 1 - 2 * v)
    } else {
        (2 * u - 1, -1, 2 * v - 1)
    }
}

/// Vertex `i` of the cube: corner `i % 4` of face `i / 4`.
pub open spec fn cube_vertex(i: int) -> GridVertex {
    let (u, v) = corner_uv(i % 4);
    let (x, y, z) = face_point(i / 4, u as int, v as int);
    GridVertex { x: x as i8, y: y as i8, z: z as i8, u, v }
}

/// Corner `j` of triangle `t` of a quad whose corners are 0, 1, 2, 3: the
/// triangles (0, 1, 2) and (0, 2, 3), or with their winding reversed.
pub open spec fn quad_corner(t: int, j: int, inward: bool) -> int {
    let k = if inward && j != 0 { 3 - j } else { j };
    if t == 0 {
        k
    } else if k == 0 {
        0
    } else {
        k + 1
    }
}

/// Index `i` of the cube: two triangles per face, over that face's four
/// vertices.
pub open spec fn cube_index(i: int, inward: bool) -> int {
    4 * (i / 6) + quad_corner((i % 6) / 3, i % 3, inward)
}

/// Vertex `i` of the plane quad: the top face's layout at height zero,
/// with its corners in reverse order.
pub open spec fn plane_vertex(i: int) -> GridVertex {
    let (u, v) = corner_uv(3 - i);
    GridVertex { x: (2 * u - 1) as i8, y: 0, z: (1 - 2 * v) as i8, u, v }
}

/// Index `i` of the plane quad: triangles (0, 1, 2) and (0, 2, 3).
pub open spec fn plane_index(i: int) -> int {
    quad_corner(i / 3, i % 3, false)
}

/// Reversing the cube's winding keeps every triangle's first index and
/// swaps its second and third; the index count is the same either way.
pub proof fn lemma_inward_cube_swaps_winding()
    ensures
        forall|t: int|
            0 <= t < 12 ==> {
                &&& #[trigger] cube_index(3 * t, true) == cube_index(3 * t, false)
                &&& cube_index(3 * t + 1, true) == cube_index(3 * t + 2, false)
                &&& cube_index(3 * t + 2, true) == cube_index(3 * t + 1, false)
            },
{
    assert forall|t: int| 0 <= t < 12 implies {
        &&& #[trigger] cube_index(3 * t, true) == cube_index(3 * t, false)
        &&& cube_index(3 * t + 1, true) == cube_index(3 * t + 2, false)
        &&& cube_index(3 * t + 2, true) == cube_index(3 * t + 1, false)
    } by {
        assert((3 * t) / 6 == t / 2 && ((3 * t) % 6) / 3 == t % 2 && (3 * t) % 3 == 0);
        assert((3 * t + 1) / 6 == t / 2 && ((3 * t + 1) % 6) / 3 == t % 2 && (3 * t + 1) % 3 == 1);
        assert((3 * t + 2) / 6 == t / 2 && ((3 * t + 2) % 6) / 3 == t % 2 && (3 * t + 2) % 3 == 2);
    }
}

fn face_vertex(face: u8, corner: u8) -> (r: GridVertex)
    requires
        face < 6,
        corner < 4,
    ensures
        r == cube_vertex(4 * face + corner),
{
    let (u, v): (u8, u8) = if corner == 0 {
        (0, 0)
    } else if corner == 1 {
        (1, 0)
    } else if corner == 2 {
        (1, 1)
    } else {
        (0, 1)
    };
    let a: i8 = 2 * (u as i8) - 1;
    let b: i8 = 2 * (v as i8) - 1;
    let (x, y, z): (i8, i8, i8) = if face == 0 {
        (a, b, 1)
    } else if face == 1 {
        (-a, b, -1)
    } else if face == 2 {
        (-1, b, a)
    } else if face == 3 {
        (1, b, -a)
    } else if face == 4 {
        (a, 1, -b)
    } else {
        (a, -1, b)
    };
    proof {
        let i = 4 * face + corner;
        assert(i / 4 == face as int && i % 4 == corner as int);
    }
    GridVertex { x, y, z, u, v }
}

impl<I: From<u8>> MeshData<I> {
    /// The unit cube: 24 vertices, four per face with their own texture
    /// coordinates, and 36 indices. With `inward_facing` every triangle's
    /// winding is reversed, so the faces are seen from inside.
    pub fn cube(inward_facing: bool) -> (r: Self)
        ensures
            r.vertices@.len() == 24,
            forall|i: int| 0 <= i < 24 ==> r.vertices@[i] == cube_vertex(i),
            r.indices@.len() == 36,
            I::obeys_from_spec() ==> forall|i: int|
                0 <= i < 36 ==> r.indices@[i] == I::from_spec(
                    cube_index(i, inward_facing) as u8,
                ),
    {
        let mut vertices: Vec<GridVertex> = Vec::new();
        let mut face: u8 = 0;
        while face < 6
            invariant
                face <= 6,
                vertices@.len() == 4 * face,
                forall|i: int| 0 <= i < vertices@.len() ==> vertices@[i] == cube_vertex(i),
            decreases 6 - face,
        {
            let mut corner: u8 = 0;
            while corner < 4
                invariant
                    face < 6,
                    corner <= 4,
                    vertices@.len() == 4 * face + corner,
                    forall|i: int| 0 <= i < vertices@.len() ==> vertices@[i] == cube_vertex(i),
                decreases 4 - corner,
            {
                vertices.push(face_vertex(face, corner));
                corner = corner + 1;
            }
            face = face + 1;
        }
        let mut indices: Vec<I> = Vec::new();
        let mut n: u8 = 0;
        while n < 36
            invariant
                n <= 36,
                indices@.len() == n,
                I::obeys_from_spec() ==> forall|i: int|
                    0 <= i < n ==> indices@[i] == I::from_spec(cube_index(i, inward_facing) as u8),
            decreases 36 - n,
        {
            let base: u8 = 4 * (n / 6);
            let t: u8 = (n % 6) / 3;
            let j: u8 = n % 3;
            let k: u8 = if inward_facing && j != 0 { 3 - j } else { j };
            let corner: u8 = if t == 0 { k } else if k == 0 { 0 } else { k + 1 };
            proof {
                assert(corner == quad_corner(t as int, j as int, inward_facing));
                assert(base + corner == cube_index(n as int, inward_facing));
            }
            indices.push(I::from(base + corner));
            n = n + 1;
        }
        MeshData { vertices, indices }
    }

    /// The unit quad on the Y=0 plane: 4 vertices and 6 indices.
    pub fn plane() -> (r: Self)
        ensures
            r.vertices@.len() == 4,
            forall|i: int| 0 <= i < 4 ==> r.vertices@[i] == plane_vertex(i),
            r.indices@.len() == 6,
            I::obeys_from_spec() ==> forall|i: int|
                0 <= i < 6 ==> r.indices@[i] == I::from_spec(plane_index(i) as u8),
    {
        let vertices: Vec<GridVertex> = vec![
            GridVertex { x: -1, y: 0, z: -1, u: 0, v: 1 },
            GridVertex { x: 1, y: 0, z: -1, u: 1, v: 1 },
            GridVertex { x: 1, y: 0, z: 1, u: 1, v: 0 },
            GridVertex { x: -1, y: 0, z: 1, u: 0, v: 0 },
        ];
        let indices: Vec<I> = vec![
            I::from(0),
            I::from(1),
            I::from(2),
            I::from(0),
            I::from(2),
            I::from(3),
        ];
        proof {
            assert forall|i: int| 0 <= i < 4 implies vertices@[i] == plane_vertex(i) by {
                assert(i == 0 || i == 1 || i == 2 || i == 3);
            }
            assert forall|i: int| 0 <= i < 6 implies plane_index(i) == (if i < 3 {
                i
            } else if i == 3 {
                0
            } else {
                i - 2
            }) by {
                assert(i == 0 || i == 1 || i == 2 || i == 3 || i == 4 || i == 5);
            }
        }
        MeshData { vertices, indices }
    }
}

} // verus!
