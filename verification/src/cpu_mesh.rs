//! The integer side of a CPU-side triangle mesh: its index buffer, the triangles
//! it describes, the checks that decide whether its buffers fit together, and the
//! index buffers of the generated shapes.
//!
//! Vertex positions, normals, tangents, uv coordinates and colors are floating
//! point data; a [CpuMeshLayout] records how many of each a mesh has.

use vstd::prelude::*;

use crate::cpu_element_buffer::{widen_u16, widen_u16_vec, widen_u8, widen_u8_vec};
use crate::error::CoreError;

verus! {

/// An array of indices. Supports different data types.
#[derive(Clone, Debug)]
pub enum Indices {
    /// Uses unsigned 8 bit integer for each index.
    U8(Vec<u8>),
    /// Uses unsigned 16 bit integer for each index.
    U16(Vec<u16>),
    /// Uses unsigned 32 bit integer for each index.
    U32(Vec<u32>),
}

impl View for Indices {
    type V = Seq<u32>;

    /// The indices, whatever their type, as 32 bit values.
    open spec fn view(&self) -> Seq<u32> {
        match self {
            Indices::U8(values) => widen_u8(values@),
            Indices::U16(values) => widen_u16(values@),
            Indices::U32(values) => values@,
        }
    }
}

impl Indices {
    /// Converts all the indices as `u32` data type.
    pub fn into_u32(self) -> (r: Vec<u32>)
        ensures
            r@ == self@,
    {
        match self {
            Indices::U8(values) => widen_u8_vec(&values),
            Indices::U16(values) => widen_u16_vec(&values),
            Indices::U32(values) => values,
        }
    }

    /// Clones and converts all the indices as `u32` data type.
    pub fn to_u32(&self) -> (r: Vec<u32>)
        ensures
            r@ == self@,
    {
        match self {
            Indices::U8(values) => widen_u8_vec(values),
            Indices::U16(values) => widen_u16_vec(values),
            Indices::U32(values) => values.clone(),
        }
    }

    /// Returns the number of indices.
    pub fn len(&self) -> (r: usize)
        ensures
            r == self@.len(),
    {
        match self {
            Indices::U8(values) => values.len(),
            Indices::U16(values) => values.len(),
            Indices::U32(values) => values.len(),
        }
    }
}

impl Default for Indices {
    fn default() -> (r: Self)
        ensures
            r matches Indices::U32(v) && v@.len() == 0,
    {
        Indices::U32(Vec::new())
    }
}

/// The largest value of a sequence, zero for an empty one.
pub open spec fn seq_max(s: Seq<u32>) -> u32
    decreases s.len(),
{
    if s.len() == 0 {
        0
    } else {
        let m = seq_max(s.drop_last());
        if s.last() > m {
            s.last()
        } else {
            m
        }
    }
}

/// One more than the largest index, zero when there is none: the number of
/// vertices that an index buffer refers to.
pub open spec fn referenced_vertex_count(s: Seq<u32>) -> int {
    if s.len() == 0 {
        0
    } else {
        seq_max(s) + 1
    }
}

/// The maximum of a sequence is one of its values and no value exceeds it.
pub proof fn lemma_seq_max(s: Seq<u32>)
    ensures
        forall|i: int| 0 <= i < s.len() ==> s[i] <= seq_max(s),
        s.len() > 0 ==> exists|i: int| 0 <= i < s.len() && s[i] == seq_max(s),
    decreases s.len(),
{
    if s.len() > 0 {
        lemma_seq_max(s.drop_last());
        assert forall|i: int| 0 <= i < s.len() implies s[i] <= seq_max(s) by {
            if i < s.len() - 1 {
                assert(s[i] == s.drop_last()[i]);
            }
        }
        if s.last() <= seq_max(s.drop_last()) {
            let w = choose|i: int|
                0 <= i < s.drop_last().len() && s.drop_last()[i] == seq_max(s.drop_last());
            if s.drop_last().len() > 0 {
                assert(s[w] == seq_max(s));
            }
        } else {
            assert(s[s.len() - 1] == seq_max(s));
        }
    }
}

/// The largest of a list of indices, zero for an empty list.
pub fn max_index(values: &Vec<u32>) -> (r: u32)
    ensures
        r == seq_max(values@),
{
    let mut m: u32 = 0;
    let mut i: usize = 0;
    while i < values.len()
        invariant
            i <= values.len(),
            m == seq_max(values@.subrange(0, i as int)),
        decreases values.len() - i,
    {
        assert(values@.subrange(0, i + 1).drop_last() =~= values@.subrange(0, i as int));
        if values[i] > m {
            m = values[i];
        }
        i = i + 1;
    }
    assert(values@.subrange(0, i as int) =~= values@);
    m
}

/// How many positions, normals, tangents, uv coordinates and colors a mesh has,
/// together with its index buffer: what decides whether a mesh is valid and which
/// triangles it is made of.
#[derive(Clone, Debug)]
pub struct CpuMeshLayout {
    /// The indices into the vertex data, three for each triangle; without them three
    /// contiguous positions define a triangle.
    pub indices: Option<Indices>,
    /// The number of vertex positions.
    pub position_count: usize,
    /// The number of normals, if the mesh has normals.
    pub normal_count: Option<usize>,
    /// The number of tangents, if the mesh has tangents.
    pub tangent_count: Option<usize>,
    /// The number of uv coordinates, if the mesh has uv coordinates.
    pub uv_count: Option<usize>,
    /// The number of colors, if the mesh has colors.
    pub color_count: Option<usize>,
}

/// The triangles of a mesh, each given by the indices of its three vertices.
pub open spec fn spec_triangles(m: CpuMeshLayout) -> Seq<(usize, usize, usize)> {
    match m.indices {
        Some(ind) => Seq::new(
            ind@.len() / 3,
            |f: int| (ind@[3 * f] as usize, ind@[3 * f + 1] as usize, ind@[3 * f + 2] as usize),
        ),
        None => Seq::new(
            m.position_count as nat / 3,
            |f: int| ((3 * f) as usize, (3 * f + 1) as usize, (3 * f + 2) as usize),
        ),
    }
}

/// The number of vertices a mesh needs data for, or the length that is not a whole
/// number of triangles.
pub open spec fn spec_vertex_count(m: CpuMeshLayout) -> Result<int, usize> {
    match m.indices {
        Some(ind) => if ind@.len() % 3 != 0 {
            Err(ind@.len() as usize)
        } else {
            Ok(referenced_vertex_count(ind@))
        },
        None => if m.position_count % 3 != 0 {
            Err(m.position_count)
        } else {
            Ok(m.position_count as int)
        },
    }
}

/// The first vertex buffer, in the order positions, normals, tangents, colors and
/// uv coordinates, that is shorter than the number of vertices, with its name and
/// length.
pub open spec fn first_short_buffer(m: CpuMeshLayout, vertex_count: int) -> Option<
    (Seq<char>, usize),
> {
    if m.position_count < vertex_count {
        Some(("position"@, m.position_count))
    } else if m.normal_count matches Some(n) && n < vertex_count {
        Some(("normal"@, m.normal_count->0))
    } else if m.tangent_count matches Some(n) && n < vertex_count {
        Some(("tangent"@, m.tangent_count->0))
    } else if m.color_count matches Some(n) && n < vertex_count {
        Some(("color"@, m.color_count->0))
    } else if m.uv_count matches Some(n) && n < vertex_count {
        Some(("uv coordinate"@, m.uv_count->0))
    } else {
        None
    }
}

/// Whether a mesh is valid: a whole number of triangles, and every vertex buffer
/// long enough for the vertices the triangles use.
pub open spec fn spec_is_valid(m: CpuMeshLayout) -> bool {
    match spec_vertex_count(m) {
        Ok(vc) => first_short_buffer(m, vc) is None,
        Err(_) => false,
    }
}

/// Checks one vertex buffer against the number of vertices.
fn check_buffer(length: Option<usize>, vertex_count: usize, name: &str) -> (r: Result<(), CoreError>)
    ensures
        match length {
            Some(len) => if len < vertex_count {
                r matches Err(CoreError::InvalidBufferLength(s, v, l)) && s@ == name@ && v
                    == vertex_count && l == len
            } else {
                r is Ok
            },
            None => r is Ok,
        },
{
    match length {
        Some(len) => {
            if len < vertex_count {
                Err(CoreError::InvalidBufferLength(String::from_str(name), vertex_count, len))
            } else {
                Ok(())
            }
        },
        None => Ok(()),
    }
}

impl CpuMeshLayout {
    /// Returns an error if the mesh is not valid: when the number of indices, or
    /// without indices the number of positions, is not divisible by three, or when a
    /// vertex buffer has fewer elements than the vertices that the triangles use.
    pub fn validate(&self) -> (r: Result<(), CoreError>)
        requires
            self.indices matches Some(ind) ==> (ind@.len() > 0 ==> seq_max(ind@) < usize::MAX),
        ensures
            match spec_vertex_count(*self) {
                Err(n) => r == Err::<(), CoreError>(CoreError::InvalidNumberOfVertices(n)),
                Ok(vc) => match first_short_buffer(*self, vc) {
                    Some((name, len)) => r matches Err(CoreError::InvalidBufferLength(s, v, l))
                        && s@ == name && v == vc && l == len,
                    None => r is Ok,
                },
            },
            r is Ok <==> spec_is_valid(*self),
    {
        let vertex_count: usize = match &self.indices {
            Some(indices) => {
                let index_count = indices.len();
                if index_count % 3 != 0 {
                    return Err(CoreError::InvalidNumberOfVertices(index_count));
                }
                let values = indices.to_u32();
                if values.len() == 0 {
                    0
                } else {
                    let m = max_index(&values);
                    m as usize + 1
                }
            },
            None => {
                let vertex_count = self.position_count;
                if vertex_count % 3 != 0 {
                    return Err(CoreError::InvalidNumberOfVertices(vertex_count));
                }
                vertex_count
            },
        };
        check_buffer(Some(self.position_count), vertex_count, "position")?;
        check_buffer(self.normal_count, vertex_count, "normal")?;
        check_buffer(self.tangent_count, vertex_count, "tangent")?;
        check_buffer(self.color_count, vertex_count, "color")?;
        check_buffer(self.uv_count, vertex_count, "uv coordinate")?;
        Ok(())
    }

    /// The triangles of this mesh, in order, each given by the indices of its three
    /// vertices: from the index buffer when there is one, otherwise three contiguous
    /// positions per triangle.
    pub fn triangles(&self) -> (r: Vec<(usize, usize, usize)>)
        ensures
            r@ == spec_triangles(*self),
    {
        let mut r: Vec<(usize, usize, usize)> = Vec::new();
        match &self.indices {
            Some(indices) => {
                let values = indices.to_u32();
                let n = values.len() / 3;
                let mut face: usize = 0;
                while face < n
                    invariant
                        n == values@.len() / 3,
                        values@ == indices@,
                        face <= n,
                        r@ == Seq::new(
                            face as nat,
                            |f: int|
                                (
                                    values@[3 * f] as usize,
                                    values@[3 * f + 1] as usize,
                                    values@[3 * f + 2] as usize,
                                ),
                        ),
                    decreases n - face,
                {
                    assert(face * 3 + 2 < values.len());
                    r.push(
                        (
                            values[face * 3] as usize,
                            values[face * 3 + 1] as usize,
                            values[face * 3 + 2] as usize,
                        ),
                    );
                    face = face + 1;
                }
            },
            None => {
                let n = self.position_count / 3;
                let mut face: usize = 0;
                while face < n
                    invariant
                        n == self.position_count / 3,
                        face <= n,
                        r@ == Seq::new(
                            face as nat,
                            |f: int| ((3 * f) as usize, (3 * f + 1) as usize, (3 * f + 2) as usize),
                        ),
                    decreases n - face,
                {
                    assert(face * 3 + 2 < self.position_count);
                    r.push((face * 3, face * 3 + 1, face * 3 + 2));
                    face = face + 1;
                }
            },
        }
        r
    }
}


/// The index buffer of the square: two triangles over four corners.
pub fn square_indices() -> (r: Vec<u8>)
    ensures
        r@ == seq![0u8, 1, 2, 2, 3, 0],
{
    vec![0u8, 1, 2, 2, 3, 0]
}

/// The `k`-th index of a circle with `n` rim vertices: one triangle per rim vertex
/// `j`, made of vertex 0, `j` and the next rim vertex, each stored as 16 bits.
pub open spec fn spec_circle_index(n: u32, k: int) -> u16 {
    let j = k / 3;
    if k % 3 == 0 {
        0
    } else if k % 3 == 1 {
        j as u16
    } else {
        ((j + 1) % (n as int)) as u16
    }
}

/// The index buffer of a circle with `n` rim vertices.
pub open spec fn spec_circle_indices(n: u32) -> Seq<u16> {
    Seq::new(3 * n as nat, |k: int| spec_circle_index(n, k))
}

/// The index buffer of a circle with the given number of angle subdivisions.
pub fn circle_indices(angle_subdivisions: u32) -> (r: Vec<u16>)
    requires
        3 * angle_subdivisions <= usize::MAX,
    ensures
        r@ == spec_circle_indices(angle_subdivisions),
{
    let n = angle_subdivisions;
    let mut r: Vec<u16> = Vec::new();
    let mut j: u32 = 0;
    while j < n
        invariant
            j <= n,
            3 * n <= usize::MAX,
            r@ == Seq::new(3 * j as nat, |k: int| spec_circle_index(n, k)),
        decreases n - j,
    {
        let ghost before = r@;
        r.push(0);
        r.push(j as u16);
        r.push(((j + 1) % n) as u16);
        j = j + 1;
        assert(r@ =~= Seq::new(3 * j as nat, |k: int| spec_circle_index(n, k))) by {
            assert forall|k: int| 0 <= k < 3 * j implies #[trigger] r@[k] == spec_circle_index(
                n,
                k,
            ) by {
                if k < 3 * (j - 1) {
                    assert(r@[k] == before[k]);
                }
            }
        }
    }
    r
}

/// The `k`-th index of a cylinder or cone with `n` vertices around each of its two
/// rims: two triangles per angle step `j`, between rim vertices `j` and the next one
/// on the first rim (`0..n`) and the second rim (`n..2n`).
pub open spec fn spec_cylinder_index(n: u32, k: int) -> u16 {
    let j = k / 6;
    let j1 = (j + 1) % (n as int);
    let t = k % 6;
    (if t == 0 {
        j
    } else if t == 1 {
        j1
    } else if t == 2 {
        n + j1
    } else if t == 3 {
        j
    } else if t == 4 {
        n + j1
    } else {
        n + j
    }) as u16
}

/// The index buffer of a cylinder or cone with `n` vertices around each rim.
pub open spec fn spec_cylinder_indices(n: u32) -> Seq<u16> {
    Seq::new(6 * n as nat, |k: int| spec_cylinder_index(n, k))
}

/// The index buffer shared by the cylinder and the cone with the given number of
/// angle subdivisions (and one length subdivision).
pub fn cylinder_indices(angle_subdivisions: u32) -> (r: Vec<u16>)
    requires
        2 * angle_subdivisions <= u32::MAX,
        6 * angle_subdivisions <= usize::MAX,
    ensures
        r@ == spec_cylinder_indices(angle_subdivisions),
{
    let n = angle_subdivisions;
    let mut r: Vec<u16> = Vec::new();
    let mut j: u32 = 0;
    while j < n
        invariant
            j <= n,
            2 * n <= u32::MAX,
            6 * n <= usize::MAX,
            r@ == Seq::new(6 * j as nat, |k: int| spec_cylinder_index(n, k)),
        decreases n - j,
    {
        let ghost before = r@;
        let j1 = (j + 1) % n;
        r.push(j as u16);
        r.push(j1 as u16);
        r.push((n + j1) as u16);
        r.push(j as u16);
        r.push((n + j1) as u16);
        r.push((n + j) as u16);
        j = j + 1;
        assert(r@ =~= Seq::new(6 * j as nat, |k: int| spec_cylinder_index(n, k))) by {
            assert forall|k: int| 0 <= k < 6 * j implies #[trigger] r@[k] == spec_cylinder_index(
                n,
                k,
            ) by {
                if k < 6 * (j - 1) {
                    assert(r@[k] == before[k]);
                }
            }
        }
    }
    r
}

/// Every index of a generated circle lies below the number of its rim vertices, so
/// the circle mesh, with one position and one normal per rim vertex, is valid.
#[verifier::spinoff_prover]
pub proof fn lemma_circle_is_valid(n: u32, indices: Vec<u16>)
    requires
        indices@ == spec_circle_indices(n),
        n < u16::MAX,
    ensures
        forall|k: int| 0 <= k < indices@.len() ==> indices@[k] < n,
        spec_is_valid(
            CpuMeshLayout {
                indices: Some(Indices::U16(indices)),
                position_count: n as usize,
                normal_count: Some(n as usize),
                tangent_count: None,
                uv_count: None,
                color_count: None,
            },
        ),
{
    let m = CpuMeshLayout {
        indices: Some(Indices::U16(indices)),
        position_count: n as usize,
        normal_count: Some(n as usize),
        tangent_count: None,
        uv_count: None,
        color_count: None,
    };
    assert forall|k: int| 0 <= k < indices@.len() implies indices@[k] < n by {
        assert(indices@[k] == spec_circle_index(n, k));
    }
    let w = widen_u16(indices@);
    lemma_seq_max(w);
    if w.len() > 0 {
        let i = choose|i: int| 0 <= i < w.len() && w[i] == seq_max(w);
        assert(w[i] == indices@[i] as u32);
    }
    assert(w.len() % 3 == 0);
    assert(referenced_vertex_count(w) <= n);
}

/// Every index of a generated cylinder or cone lies below the number of vertices on
/// its two rims, so the mesh, with those positions, is valid.
#[verifier::spinoff_prover]
#[verifier::rlimit(40)]
pub proof fn lemma_cylinder_is_valid(n: u32, indices: Vec<u16>)
    requires
        indices@ == spec_cylinder_indices(n),
        2 * n < u16::MAX,
    ensures
        forall|k: int| 0 <= k < indices@.len() ==> indices@[k] < 2 * n,
        spec_is_valid(
            CpuMeshLayout {
                indices: Some(Indices::U16(indices)),
                position_count: (2 * n) as usize,
                normal_count: None,
                tangent_count: None,
                uv_count: None,
                color_count: None,
            },
        ),
{
    assert forall|k: int| 0 <= k < indices@.len() implies indices@[k] < 2 * n by {
        assert(indices@[k] == spec_cylinder_index(n, k));
    }
    let w = widen_u16(indices@);
    lemma_seq_max(w);
    if w.len() > 0 {
        let i = choose|i: int| 0 <= i < w.len() && w[i] == seq_max(w);
        assert(w[i] == indices@[i] as u32);
    }
    assert(w.len() % 3 == 0);
}


/// The first part of a sphere's index buffer: the fan of `2n` triangles around the
/// north pole (vertex 0) and the first ring of vertices (`1..2n + 1`).
pub open spec fn spec_sphere_top(n: u32) -> Seq<u16> {
    let m = 2 * n;
    Seq::new(
        3 * m as nat,
        |k: int|
            {
                let j = k / 3;
                (if k % 3 == 0 {
                    0
                } else if k % 3 == 1 {
                    1 + j
                } else {
                    1 + (j + 1) % (m as int)
                }) as u16
            },
    )
}

/// The `k`-th index of the band of a sphere between ring `i` and ring `i + 1`,
/// where ring `i` holds the `2n` vertices from `1 + 2n i` on: two triangles per step.
pub open spec fn spec_sphere_band_index(n: u32, i: int, k: int) -> u16 {
    let m = 2 * n as int;
    let j = k / 6;
    let j1 = (j + 1) % m;
    let i0 = 1 + i * m;
    let i1 = 1 + (i + 1) * m;
    let t = k % 6;
    (if t == 0 {
        i0 + j
    } else if t == 1 {
        i1 + j1
    } else if t == 2 {
        i0 + j1
    } else if t == 3 {
        i1 + j1
    } else if t == 4 {
        i0 + j
    } else {
        i1 + j
    }) as u16
}

/// The band of a sphere between ring `i` and ring `i + 1`.
pub open spec fn spec_sphere_band(n: u32, i: int) -> Seq<u16> {
    Seq::new(12 * n as nat, |k: int| spec_sphere_band_index(n, i, k))
}

/// The first `count` bands of a sphere, one after the other.
pub open spec fn spec_sphere_bands(n: u32, count: nat) -> Seq<u16>
    decreases count,
{
    if count == 0 {
        Seq::empty()
    } else {
        spec_sphere_bands(n, (count - 1) as nat) + spec_sphere_band(n, count - 1)
    }
}

/// The last part of a sphere's index buffer: the fan of `2n` triangles between the
/// last ring and the south pole (vertex `2n (n - 1) + 1`).
pub open spec fn spec_sphere_bottom(n: u32) -> Seq<u16> {
    let m = 2 * n as int;
    let b = 1 + (n - 2) * m;
    Seq::new(
        3 * m as nat,
        |k: int|
            {
                let j = k / 3;
                (if k % 3 == 0 {
                    b + j
                } else if k % 3 == 1 {
                    (n - 1) * m + 1
                } else {
                    b + (j + 1) % m
                }) as u16
            },
    )
}

/// The index buffer of a sphere with `n` angle subdivisions: the north fan, the
/// `n - 2` bands between its `n - 1` rings of `2n` vertices, and the south fan.
pub open spec fn spec_sphere_indices(n: u32) -> Seq<u16> {
    spec_sphere_top(n) + spec_sphere_bands(n, (n - 2) as nat) + spec_sphere_bottom(n)
}

/// The number of vertices of a sphere with `n` angle subdivisions: the two poles
/// and `n - 1` rings of `2n` vertices.
pub open spec fn spec_sphere_vertex_count(n: u32) -> int {
    2 + (n - 1) * (2 * n)
}

/// The index buffer of a sphere with the given number of angle subdivisions.
pub fn sphere_indices(angle_subdivisions: u32) -> (r: Vec<u16>)
    requires
        angle_subdivisions >= 2,
        2 * angle_subdivisions * (angle_subdivisions - 1) + 1 <= u32::MAX,
        12 * angle_subdivisions * angle_subdivisions <= usize::MAX,
    ensures
        r@ == spec_sphere_indices(angle_subdivisions),
{
    let n = angle_subdivisions;
    assert(2 * n <= 2 * n * (n - 1) + 1) by (nonlinear_arith)
        requires
            n >= 2,
    ;
    let m = n * 2;
    let mut r: Vec<u16> = Vec::new();
    let mut j: u32 = 0;
    while j < m
        invariant
            j <= m,
            m == 2 * n,
            r@ == spec_sphere_top(n).subrange(0, 3 * j as int),
        decreases m - j,
    {
        let ghost before = r@;
        let j1 = (j + 1) % m;
        r.push(0);
        r.push((1 + j) as u16);
        r.push((1 + j1) as u16);
        j = j + 1;
        assert(r@ =~= spec_sphere_top(n).subrange(0, 3 * j as int)) by {
            assert forall|k: int| 0 <= k < 3 * j implies #[trigger] r@[k] == spec_sphere_top(
                n,
            )[k] by {
                if k < 3 * (j - 1) {
                    assert(r@[k] == before[k]);
                }
            }
        }
    }
    assert(r@ =~= spec_sphere_top(n));
    let mut i: u32 = 0;
    while i < n - 2
        invariant
            n >= 2,
            i <= n - 2,
            m == 2 * n,
            2 * n * (n - 1) + 1 <= u32::MAX,
            r@ == spec_sphere_top(n) + spec_sphere_bands(n, i as nat),
        decreases n - 2 - i,
    {
        assert((i + 2) * m <= 2 * n * (n - 1)) by (nonlinear_arith)
            requires
                i + 2 <= n - 1,
                m == 2 * n,
        ;
        assert(i * m + m == (i + 1) * m) by (nonlinear_arith);
        assert((i + 1) * m + m == (i + 2) * m) by (nonlinear_arith);
        assert(i * m == i * (2 * n) && (i + 1) * m == (i + 1) * (2 * n));
        let i0 = 1 + i * m;
        let i1 = 1 + (i + 1) * m;
        let ghost start = r@;
        let mut j: u32 = 0;
        while j < m
            invariant
                j <= m,
                m == 2 * n,
                i0 == 1 + i * (2 * n),
                i1 == 1 + (i + 1) * (2 * n),
                i1 + m <= u32::MAX,
                i0 + m == i1,
                r@ == start + spec_sphere_band(n, i as int).subrange(0, 6 * j as int),
            decreases m - j,
        {
            let ghost before = r@;
            let j1 = (j + 1) % m;
            r.push((i0 + j) as u16);
            r.push((i1 + j1) as u16);
            r.push((i0 + j1) as u16);
            r.push((i1 + j1) as u16);
            r.push((i0 + j) as u16);
            r.push((i1 + j) as u16);
            j = j + 1;
            assert(r@ =~= start + spec_sphere_band(n, i as int).subrange(0, 6 * j as int)) by {
                assert forall|k: int| 0 <= k < r@.len() implies #[trigger] r@[k] == (start
                    + spec_sphere_band(n, i as int).subrange(0, 6 * j as int))[k] by {
                    if k < before.len() {
                        assert(r@[k] == before[k]);
                    }
                }
            }
        }
        assert(spec_sphere_band(n, i as int).subrange(0, 6 * j as int) =~= spec_sphere_band(
            n,
            i as int,
        ));
        assert(spec_sphere_bands(n, (i + 1) as nat) == spec_sphere_bands(n, i as nat)
            + spec_sphere_band(n, i as int));
        i = i + 1;
        assert(r@ =~= spec_sphere_top(n) + spec_sphere_bands(n, i as nat));
    }
    assert((n - 2) * m + m == (n - 1) * m) by (nonlinear_arith)
        requires
            n >= 2,
    ;
    assert((n - 1) * m == 2 * n * (n - 1)) by (nonlinear_arith)
        requires
            m == 2 * n,
    ;
    assert((n - 2) * m == (n - 2) * (2 * n) && (n - 1) * m == (n - 1) * (2 * n));
    let b = 1 + (n - 2) * m;
    let pole = (n - 1) * m + 1;
    let ghost start = r@;
    let mut j: u32 = 0;
    while j < m
        invariant
            j <= m,
            m == 2 * n,
            n >= 2,
            b == 1 + (n - 2) * (2 * n),
            pole == (n - 1) * (2 * n) + 1,
            b + m <= u32::MAX,
            r@ == start + spec_sphere_bottom(n).subrange(0, 3 * j as int),
        decreases m - j,
    {
        let ghost before = r@;
        let j1 = (j + 1) % m;
        r.push((b + j) as u16);
        r.push(pole as u16);
        r.push((b + j1) as u16);
        j = j + 1;
        assert(r@ =~= start + spec_sphere_bottom(n).subrange(0, 3 * j as int)) by {
            assert forall|k: int| 0 <= k < r@.len() implies #[trigger] r@[k] == (start
                + spec_sphere_bottom(n).subrange(0, 3 * j as int))[k] by {
                if k < before.len() {
                    assert(r@[k] == before[k]);
                }
            }
        }
    }
    assert(spec_sphere_bottom(n).subrange(0, 3 * j as int) =~= spec_sphere_bottom(n));
    r
}


/// Every index in the first `c` bands of a sphere is at most `2n (c + 1)`, as long as
/// that value fits in 16 bits.
pub proof fn lemma_sphere_bands_bound(n: u32, c: nat)
    requires
        n >= 1,
        (c + 1) * (2 * n) < u16::MAX,
    ensures
        forall|k: int|
            0 <= k < spec_sphere_bands(n, c).len() ==> spec_sphere_bands(n, c)[k] <= (c + 1) * (2
                * n),
        spec_sphere_bands(n, c).len() == c * (12 * n),
    decreases c,
{
    if c > 0 {
        let m = 2 * n as int;
        assert(c * m <= (c + 1) * m) by (nonlinear_arith)
            requires
                m >= 0,
        ;
        lemma_sphere_bands_bound(n, (c - 1) as nat);
        let i = c - 1;
        assert((i + 1) * m + m == (c + 1) * m) by (nonlinear_arith)
            requires
                i == c - 1,
        ;
        assert(i * m + m == (i + 1) * m) by (nonlinear_arith);
        assert forall|k: int| 0 <= k < spec_sphere_band(n, i).len() implies spec_sphere_band(
            n,
            i,
        )[k] <= (c + 1) * m by {
            let j = k / 6;
            assert(0 <= j < m);
            assert((j + 1) % m < m);
            let v = 1 + (i + 1) * m + j;
            assert(1 + (i + 1) * m + m - 1 < u16::MAX);
        }
        let prev = spec_sphere_bands(n, (c - 1) as nat);
        let band = spec_sphere_band(n, i);
        assert(spec_sphere_bands(n, c) == prev + band);
        assert(prev.len() == (c - 1) * (12 * n));
        assert((c - 1) * (12 * n) + 12 * n == c * (12 * n)) by (nonlinear_arith);
        assert forall|k: int| 0 <= k < spec_sphere_bands(n, c).len() implies spec_sphere_bands(
            n,
            c,
        )[k] <= (c + 1) * m by {
            if k < prev.len() {
                assert(spec_sphere_bands(n, c)[k] == prev[k]);
            } else {
                assert(spec_sphere_bands(n, c)[k] == band[k - prev.len()]);
            }
        }
    }
}

/// The entry `k` of band `i` stands at `12 n i + k` among the first `c` bands.
proof fn lemma_sphere_band_entry(n: u32, c: nat, i: int, k: int)
    requires
        0 <= i < c,
        0 <= k < 12 * n,
    ensures
        spec_sphere_bands(n, c).len() == c * (12 * n),
        spec_sphere_bands(n, c)[i * (12 * n) + k] == spec_sphere_band_index(n, i, k),
    decreases c,
{
    let w = 12 * n as int;
    let prev = spec_sphere_bands(n, (c - 1) as nat);
    let band = spec_sphere_band(n, c - 1);
    assert(spec_sphere_bands(n, c) == prev + band);
    if c == 1 {
        assert(prev.len() == 0);
    } else {
        lemma_sphere_band_entry(n, (c - 1) as nat, 0, 0);
    }
    assert(prev.len() == (c - 1) * w);
    assert((c - 1) * w + w == c * w) by (nonlinear_arith);
    if i < c - 1 {
        lemma_sphere_band_entry(n, (c - 1) as nat, i, k);
        assert(i * w + k < (c - 1) * w) by (nonlinear_arith)
            requires
                0 <= i < c - 1,
                0 <= k < w,
        ;
    } else {
        assert(i * w == (c - 1) * w);
    }
}

/// The column after `j` among `m` columns, the last wrapping around to the first.
proof fn lemma_next_column(j: int, m: int)
    requires
        0 <= j < m,
    ensures
        (j + 1) % m == if j + 1 < m {
            j + 1
        } else {
            0
        },
{
    if j + 1 < m {
        vstd::arithmetic::div_mod::lemma_small_mod((j + 1) as nat, m as nat);
    } else {
        vstd::arithmetic::div_mod::lemma_mod_self_0(m);
    }
}

/// Where ring `i` of a sphere with `n` angle subdivisions starts: after the north
/// pole (vertex 0), each ring holds `2n` vertices.
pub open spec fn sphere_ring_start(n: u32, i: int) -> int {
    1 + i * (2 * n)
}

/// Where the two triangles of step `j` of band `i` stand in a sphere's index
/// buffer: after the `2n` triangles of the north fan and the `i` bands before, of
/// `2n` steps of two triangles each.
pub open spec fn sphere_band_step(n: u32, i: int, j: int) -> int {
    6 * n + i * (12 * n) + 6 * j
}

/// The triangle at `p` of an index buffer has three different vertices.
pub open spec fn distinct_triangle(s: Seq<u16>, p: int) -> bool {
    &&& s[p] != s[p + 1]
    &&& s[p + 1] != s[p + 2]
    &&& s[p] != s[p + 2]
}

/// The six indices from `p` on are each one of `a`, `b`, `c` and `d`, and each of
/// these four occurs among them.
pub open spec fn uses_exactly(s: Seq<u16>, p: int, a: int, b: int, c: int, d: int) -> bool {
    &&& forall|q: int| p <= q < p + 6 ==> (s[q] == a || s[q] == b || s[q] == c || s[q] == d)
    &&& exists|q: int| p <= q < p + 6 && s[q] == a
    &&& exists|q: int| p <= q < p + 6 && s[q] == b
    &&& exists|q: int| p <= q < p + 6 && s[q] == c
    &&& exists|q: int| p <= q < p + 6 && s[q] == d
}

/// The triangle `j` of the north fan of a sphere has three different vertices.
pub open spec fn sphere_top_triangle_distinct(n: u32, j: int) -> bool {
    distinct_triangle(spec_sphere_indices(n), 3 * j)
}

/// The triangle `j` of the south fan of a sphere has three different vertices.
pub open spec fn sphere_bottom_triangle_distinct(n: u32, j: int) -> bool {
    distinct_triangle(spec_sphere_indices(n), 6 * n + (n - 2) * (12 * n) + 3 * j)
}

/// Step `j` of band `i` of a sphere is made of two triangles, each with three
/// different vertices, which together use exactly the four corners of the quad
/// between rings `i` and `i + 1` at columns `j` and `j + 1` (the last column
/// wrapping around to the first).
pub open spec fn sphere_band_step_covers_quad(n: u32, i: int, j: int) -> bool {
    let s = spec_sphere_indices(n);
    let p = sphere_band_step(n, i, j);
    let j1 = (j + 1) % (2 * n as int);
    &&& distinct_triangle(s, p)
    &&& distinct_triangle(s, p + 3)
    &&& uses_exactly(
        s,
        p,
        sphere_ring_start(n, i) + j,
        sphere_ring_start(n, i) + j1,
        sphere_ring_start(n, i + 1) + j,
        sphere_ring_start(n, i + 1) + j1,
    )
}

/// Entry `x` of step `j` of band `i` in a sphere's index buffer.
proof fn lemma_sphere_step_entry(n: u32, i: int, j: int, x: int)
    requires
        n >= 2,
        0 <= i < n - 2,
        0 <= j < 2 * n,
        0 <= x < 6,
    ensures
        spec_sphere_indices(n)[sphere_band_step(n, i, j) + x] == spec_sphere_band_index(
            n,
            i,
            6 * j + x,
        ),
        (6 * j + x) / 6 == j,
        (6 * j + x) % 6 == x,
{
    let s = spec_sphere_indices(n);
    let top = spec_sphere_top(n);
    let bands = spec_sphere_bands(n, (n - 2) as nat);
    let bottom = spec_sphere_bottom(n);
    assert(s == top + bands + bottom);
    lemma_sphere_band_entry(n, (n - 2) as nat, i, 6 * j + x);
    assert(i * (12 * n) + 6 * j + x < (n - 2) * (12 * n)) by (nonlinear_arith)
        requires
            0 <= i < n - 2,
            0 <= 6 * j + x < 12 * n,
    ;
    assert(s[sphere_band_step(n, i, j) + x] == bands[i * (12 * n) + 6 * j + x]);
}

/// The triangles of a generated sphere: its index buffer is the north fan of `2n`
/// triangles, then `n - 2` bands of `2n` steps, then the south fan of `2n`
/// triangles; no triangle repeats a vertex, and each band step covers exactly the
/// quad between two rings that it stands for (as long as every index fits in 16
/// bits).
#[verifier::spinoff_prover]
pub proof fn lemma_sphere_triangles(n: u32)
    requires
        n >= 2,
        2 * n * (n - 1) + 1 <= u16::MAX,
    ensures
        spec_sphere_indices(n).len() == 6 * n + (n - 2) * (12 * n) + 6 * n,
        forall|j: int| 0 <= j < 2 * n ==> #[trigger] sphere_top_triangle_distinct(n, j),
        forall|j: int| 0 <= j < 2 * n ==> #[trigger] sphere_bottom_triangle_distinct(n, j),
        forall|i: int, j: int|
            0 <= i < n - 2 && 0 <= j < 2 * n ==> #[trigger] sphere_band_step_covers_quad(n, i, j),
{
    let m = 2 * n as int;
    let s = spec_sphere_indices(n);
    let top = spec_sphere_top(n);
    let bands = spec_sphere_bands(n, (n - 2) as nat);
    let bottom = spec_sphere_bottom(n);
    assert(s == top + bands + bottom);
    assert((n - 1) * m + 1 <= u16::MAX) by (nonlinear_arith)
        requires
            m == 2 * n,
            2 * n * (n - 1) + 1 <= u16::MAX,
    ;
    assert(m <= (n - 1) * m) by (nonlinear_arith)
        requires
            m == 2 * n,
            n >= 2,
    ;
    if n > 2 {
        lemma_sphere_band_entry(n, (n - 2) as nat, 0, 0);
    }
    assert(bands.len() == (n - 2) * (12 * n));
    assert forall|j: int| 0 <= j < 2 * n implies #[trigger] sphere_top_triangle_distinct(n, j) by {
        assert(s[3 * j] == top[3 * j]);
        assert(s[3 * j + 1] == top[3 * j + 1]);
        assert(s[3 * j + 2] == top[3 * j + 2]);
        assert((3 * j) / 3 == j && (3 * j) % 3 == 0);
        assert((3 * j + 1) / 3 == j && (3 * j + 1) % 3 == 1);
        assert((3 * j + 2) / 3 == j && (3 * j + 2) % 3 == 2);
        assert(1 + j < u16::MAX);
        lemma_next_column(j, m);
    }
    let b0 = 6 * n + (n - 2) * (12 * n);
    assert forall|j: int| 0 <= j < 2 * n implies #[trigger] sphere_bottom_triangle_distinct(n, j) by {
        assert(s[b0 + 3 * j] == bottom[3 * j]);
        assert(s[b0 + 3 * j + 1] == bottom[3 * j + 1]);
        assert(s[b0 + 3 * j + 2] == bottom[3 * j + 2]);
        assert((3 * j) / 3 == j && (3 * j) % 3 == 0);
        assert((3 * j + 1) / 3 == j && (3 * j + 1) % 3 == 1);
        assert((3 * j + 2) / 3 == j && (3 * j + 2) % 3 == 2);
        let b = 1 + (n - 2) * m;
        assert(b + m - 1 == (n - 1) * m) by (nonlinear_arith)
            requires
                b == 1 + (n - 2) * m,
        ;
        lemma_next_column(j, m);
        assert(s[b0 + 3 * j] == b + j);
        assert(s[b0 + 3 * j + 1] == (n - 1) * m + 1);
        assert(s[b0 + 3 * j + 2] == b + (j + 1) % m);
    }
    assert forall|i: int, j: int| 0 <= i < n - 2 && 0 <= j < 2 * n implies #[trigger] sphere_band_step_covers_quad(n, i, j) by {
        let p = sphere_band_step(n, i, j);
        let j1 = (j + 1) % m;
        let i0 = sphere_ring_start(n, i);
        let i1 = sphere_ring_start(n, i + 1);
        assert(i1 == i0 + m) by (nonlinear_arith)
            requires
                i0 == 1 + i * m,
                i1 == 1 + (i + 1) * m,
        ;
        assert(i1 + m - 1 <= (n - 1) * m) by (nonlinear_arith)
            requires
                i1 == 1 + (i + 1) * m,
                i < n - 2,
                m >= 0,
        ;
        lemma_next_column(j, m);
        assert(6 * j + 5 < 12 * n);
        assert(i * (12 * n) + 6 * j + 5 < (n - 2) * (12 * n)) by (nonlinear_arith)
            requires
                i < n - 2,
                6 * j + 5 < 12 * n,
        ;
        lemma_sphere_step_entry(n, i, j, 0);
        lemma_sphere_step_entry(n, i, j, 1);
        lemma_sphere_step_entry(n, i, j, 2);
        lemma_sphere_step_entry(n, i, j, 3);
        lemma_sphere_step_entry(n, i, j, 4);
        lemma_sphere_step_entry(n, i, j, 5);
        assert(s[p] == i0 + j);
        assert(s[p + 1] == i1 + j1);
        assert(s[p + 2] == i0 + j1);
        assert(s[p + 3] == i1 + j1);
        assert(s[p + 4] == i0 + j);
        assert(s[p + 5] == i1 + j);
    }
}

/// Every index of a generated sphere lies below its number of vertices (the two
/// poles and `n - 1` rings of `2n`), so the sphere mesh, with one position and one
/// normal per vertex, is valid.
#[verifier::spinoff_prover]
pub proof fn lemma_sphere_is_valid(n: u32, indices: Vec<u16>)
    requires
        indices@ == spec_sphere_indices(n),
        n >= 2,
        spec_sphere_vertex_count(n) < u16::MAX,
    ensures
        forall|k: int| 0 <= k < indices@.len() ==> indices@[k] < spec_sphere_vertex_count(n),
        spec_is_valid(
            CpuMeshLayout {
                indices: Some(Indices::U16(indices)),
                position_count: spec_sphere_vertex_count(n) as usize,
                normal_count: Some(spec_sphere_vertex_count(n) as usize),
                tangent_count: None,
                uv_count: None,
                color_count: None,
            },
        ),
{
    let m = 2 * n as int;
    let vc = spec_sphere_vertex_count(n);
    assert(vc == 2 + (n - 1) * m);
    assert((n - 1) * m >= m) by (nonlinear_arith)
        requires
            n >= 2,
            m >= 0,
    ;
    assert((n - 2) * m + m == (n - 1) * m) by (nonlinear_arith);
    assert((n - 2 + 1) * m == (n - 1) * m);
    lemma_sphere_bands_bound(n, (n - 2) as nat);
    let top = spec_sphere_top(n);
    let bands = spec_sphere_bands(n, (n - 2) as nat);
    let bottom = spec_sphere_bottom(n);
    assert forall|k: int| 0 <= k < top.len() implies top[k] < vc by {
        let j = k / 3;
        assert((j + 1) % m < m);
    }
    assert forall|k: int| 0 <= k < bottom.len() implies bottom[k] < vc by {
        let j = k / 3;
        assert((j + 1) % m < m);
    }
    assert forall|k: int| 0 <= k < indices@.len() implies indices@[k] < vc by {
        if k < top.len() {
            assert(indices@[k] == top[k]);
        } else if k < top.len() + bands.len() {
            assert(indices@[k] == bands[k - top.len()]);
        } else {
            assert(indices@[k] == bottom[k - top.len() - bands.len()]);
        }
    }
    assert((n - 2) * (12 * n) == 6 * ((n - 2) * m)) by (nonlinear_arith)
        requires
            m == 2 * n,
    ;
    let w = widen_u16(indices@);
    assert(w.len() % 3 == 0);
    lemma_seq_max(w);
    if w.len() > 0 {
        let i = choose|i: int| 0 <= i < w.len() && w[i] == seq_max(w);
        assert(w[i] == indices@[i] as u32);
    }
}


/// The index buffer of two meshes joined into one: the indices of the first, then
/// those of the second moved past the vertices that the first uses, all stored as
/// 16 bits.
pub open spec fn spec_joined_indices(first: Seq<u32>, second: Seq<u32>) -> Seq<u16> {
    let offset = seq_max(first) + 1;
    Seq::new(
        first.len() + second.len(),
        |k: int|
            if k < first.len() {
                first[k] as u16
            } else {
                (second[k - first.len()] + offset) as u16
            },
    )
}

/// Joins the index buffers of the two parts of an arrow, its tail (`first`) and its
/// head (`second`), whose vertices follow those of the tail.
pub fn arrow_indices(first: Vec<u32>, second: &Vec<u32>) -> (r: Vec<u16>)
    requires
        first@.len() > 0,
        seq_max(first@) < u32::MAX,
        forall|k: int| 0 <= k < second@.len() ==> second@[k] + seq_max(first@) + 1 <= u32::MAX,
    ensures
        r@ == spec_joined_indices(first@, second@),
{
    let offset = max_index(&first) + 1;
    let mut r: Vec<u16> = Vec::new();
    let mut i: usize = 0;
    while i < first.len()
        invariant
            i <= first.len(),
            offset == seq_max(first@) + 1,
            r@ == spec_joined_indices(first@, second@).subrange(0, i as int),
        decreases first.len() - i,
    {
        r.push(first[i] as u16);
        i = i + 1;
        assert(r@ =~= spec_joined_indices(first@, second@).subrange(0, i as int));
    }
    let mut i: usize = 0;
    while i < second.len()
        invariant
            i <= second.len(),
            offset == seq_max(first@) + 1,
            forall|k: int| 0 <= k < second@.len() ==> second@[k] + seq_max(first@) + 1 <= u32::MAX,
            r@ == spec_joined_indices(first@, second@).subrange(0, first@.len() + i),
        decreases second.len() - i,
    {
        r.push((second[i] + offset) as u16);
        i = i + 1;
        assert(r@ =~= spec_joined_indices(first@, second@).subrange(0, first@.len() + i));
    }
    assert(spec_joined_indices(first@, second@).subrange(0, first@.len() + i)
        =~= spec_joined_indices(first@, second@));
    r
}

} // verus!
