//! The integer side of the CPU-side mesh that stores its vertex data as flat lists
//! of numbers (three numbers per position or normal, two per uv coordinate and four
//! bytes per color).

use vstd::prelude::*;

use crate::cpu_element_buffer::{widen_u16, widen_u16_vec, widen_u8, widen_u8_vec};

verus! {

/// An array of indices. Supports different data types.
#[derive(Debug)]
pub enum Indices {
    /// Uses unsigned 8 bit integer for each index.
    U8(Vec<u8>),
    /// Uses unsigned 16 bit integer for each index.
    U16(Vec<u16>),
    /// Uses unsigned 32 bit integer for each index.
    U32(Vec<u32>),
}

impl View for Indices {
    type V = Seq<u32>;

    /// The indices, whatever their type, as 32 bit values.
    open spec fn view(&self) -> Seq<u32> {
        match self {
            Indices::U8(values) => widen_u8(values@),
            Indices::U16(values) => widen_u16(values@),
            Indices::U32(values) => values@,
        }
    }
}

impl Indices {
    /// Returns all the indices as the `u32` data type, as copies.
    pub fn into_u32(&self) -> (r: Vec<u32>)
        ensures
            r@ == self@,
    {
        match self {
            Indices::U8(values) => widen_u8_vec(values),
            Indices::U16(values) => widen_u16_vec(values),
            Indices::U32(values) => values.clone(),
        }
    }

    /// The number of indices.
    pub fn len(&self) -> (r: usize)
        ensures
            r == self@.len(),
    {
        match self {
            Indices::U8(values) => values.len(),
            Indices::U16(values) => values.len(),
            Indices::U32(values) => values.len(),
        }
    }
}

/// Why a mesh with flat vertex data is not valid.
#[derive(Debug, Clone, PartialEq, Eq)]
pub enum FlatMeshError {
    /// A buffer whose length is not a multiple of its element size: the buffer's
    /// name and the number of indices of the mesh.
    InvalidBufferLength(String, usize),
    /// Without indices, the number of position values is not a multiple of nine
    /// (three positions of three values per triangle).
    InvalidPositionBuffer(usize),
    /// An index refers to a vertex past the positions: the number of position
    /// values.
    InvalidIndexBuffer(usize),
}

/// Whether some index refers to a vertex past the `position_len / 3` vertices.
pub open spec fn has_index_past_vertices(indices: Seq<u32>, position_len: usize) -> bool {
    exists|k: int| 0 <= k < indices.len() && indices[k] >= position_len / 3
}

/// The lengths of the flat vertex data lists of a mesh, with its index buffer.
#[derive(Debug)]
pub struct FlatMeshLayout {
    /// The indices, three for each triangle.
    pub indices: Option<Indices>,
    /// The number of position values (three per position).
    pub position_len: usize,
    /// The number of normal values (three per normal), if there are normals.
    pub normal_len: Option<usize>,
    /// The number of uv values (two per coordinate), if there are uv coordinates.
    pub uv_len: Option<usize>,
    /// The number of color bytes (four per color), if there are colors.
    pub color_len: Option<usize>,
}

/// The first buffer, in the order indices, positions, normals, colors and uv
/// coordinates, whose length is not a whole number of elements.
pub open spec fn first_ragged_buffer(m: FlatMeshLayout, index_count: int) -> Option<Seq<char>> {
    if index_count % 3 != 0 {
        Some("index"@)
    } else if m.position_len % 3 != 0 {
        Some("position"@)
    } else if m.normal_len matches Some(l) && l % 3 != 0 {
        Some("normal"@)
    } else if m.color_len matches Some(l) && l % 4 != 0 {
        Some("color"@)
    } else if m.uv_len matches Some(l) && l % 2 != 0 {
        Some("uv coordinate"@)
    } else {
        None
    }
}

impl FlatMeshLayout {
    /// Returns an error if the mesh is not valid: with indices, when a buffer is not a
    /// whole number of elements or an index refers to a vertex past the positions;
    /// without, when the positions are not a whole number of triangles.
    pub fn validate(&self) -> (r: Result<(), FlatMeshError>)
        ensures
            match self.indices {
                Some(ind) => match first_ragged_buffer(*self, ind@.len() as int) {
                    Some(name) => r matches Err(FlatMeshError::InvalidBufferLength(s, n)) && s@
                        == name && n == ind@.len(),
                    None => if has_index_past_vertices(ind@, self.position_len) {
                        r == Err::<(), FlatMeshError>(
                            FlatMeshError::InvalidIndexBuffer(self.position_len),
                        )
                    } else {
                        r is Ok
                    },
                },
                None => if self.position_len % 9 != 0 {
                    r == Err::<(), FlatMeshError>(
                        FlatMeshError::InvalidPositionBuffer(self.position_len),
                    )
                } else {
                    r is Ok
                },
            },
    {
        match &self.indices {
            Some(indices) => {
                let index_count = indices.len();
                if index_count % 3 != 0 {
                    return Err(
                        FlatMeshError::InvalidBufferLength(String::from_str("index"), index_count),
                    );
                }
                if self.position_len % 3 != 0 {
                    return Err(
                        FlatMeshError::InvalidBufferLength(
                            String::from_str("position"),
                            index_count,
                        ),
                    );
                }
                if let Some(l) = self.normal_len {
                    if l % 3 != 0 {
                        return Err(
                            FlatMeshError::InvalidBufferLength(
                                String::from_str("normal"),
                                index_count,
                            ),
                        );
                    }
                }
                if let Some(l) = self.color_len {
                    if l % 4 != 0 {
                        return Err(
                            FlatMeshError::InvalidBufferLength(
                                String::from_str("color"),
                                index_count,
                            ),
                        );
                    }
                }
                if let Some(l) = self.uv_len {
                    if l % 2 != 0 {
                        return Err(
                            FlatMeshError::InvalidBufferLength(
                                String::from_str("uv coordinate"),
                                index_count,
                            ),
                        );
                    }
                }
                assert(first_ragged_buffer(*self, indices@.len() as int) is None);
                let values = indices.into_u32();
                let vertex_count = self.position_len / 3;
                let mut k: usize = 0;
                while k < values.len()
                    invariant
                        values@ == indices@,
                        first_ragged_buffer(*self, indices@.len() as int) is None,
                        self.indices == Some(*indices),
                        vertex_count == self.position_len / 3,
                        k <= values@.len(),
                        forall|j: int| 0 <= j < k ==> values@[j] < vertex_count,
                    decreases values@.len() - k,
                {
                    if values[k] as usize >= vertex_count {
                        assert(indices@[k as int] >= self.position_len / 3);
                        return Err(FlatMeshError::InvalidIndexBuffer(self.position_len));
                    }
                    k = k + 1;
                }
                Ok(())
            },
            None => {
                if self.position_len % 9 != 0 {
                    Err(FlatMeshError::InvalidPositionBuffer(self.position_len))
                } else {
                    Ok(())
                }
            },
        }
    }
}

/// Whether some whole color of flat color data (four bytes per color: red, green,
/// blue, alpha) is not fully opaque.
pub open spec fn spec_has_transparent_color(colors: Seq<u8>) -> bool {
    exists|i: int| 0 <= i < colors.len() / 4 && #[trigger] colors[4 * i + 3] != 255
}

/// Whether a mesh with the given flat color data must be rendered as transparent:
/// some whole color has an alpha below 255.
pub fn has_transparent_color(colors: &Vec<u8>) -> (r: bool)
    ensures
        r == spec_has_transparent_color(colors@),
{
    let len = colors.len();
    let n = len / 4;
    let mut i: usize = 0;
    while i < n
        invariant
            len == colors@.len(),
            n == colors@.len() / 4,
            i <= n,
            forall|j: int| 0 <= j < i ==> #[trigger] colors@[4 * j + 3] == 255,
        decreases n - i,
    {
        if colors[4 * i + 3] != 255 {
            return true;
        }
        i = i + 1;
    }
    false
}

} // verus!
