//! An array of indices into the vertex data of a mesh, stored with the smallest
//! integer type that fits.

use vstd::prelude::*;

verus! {

/// The values of a sequence of bytes, each widened to 32 bits.
pub open spec fn widen_u8(s: Seq<u8>) -> Seq<u32> {
    Seq::new(s.len(), |i: int| s[i] as u32)
}

/// The values of a sequence of 16 bit integers, each widened to 32 bits.
pub open spec fn widen_u16(s: Seq<u16>) -> Seq<u32> {
    Seq::new(s.len(), |i: int| s[i] as u32)
}

/// Copies bytes into a new vector of 32 bit integers.
pub fn widen_u8_vec(values: &Vec<u8>) -> (r: Vec<u32>)
    ensures
        r@ == widen_u8(values@),
{
    let mut r: Vec<u32> = Vec::with_capacity(values.len());
    let mut i: usize = 0;
    while i < values.len()
        invariant
            i <= values.len(),
            r@ == widen_u8(values@.subrange(0, i as int)),
        decreases values.len() - i,
    {
        r.push(values[i] as u32);
        i = i + 1;
        assert(r@ =~= widen_u8(values@.subrange(0, i as int)));
    }
    assert(values@.subrange(0, i as int) =~= values@);
    r
}

/// Copies 16 bit integers into a new vector of 32 bit integers.
pub fn widen_u16_vec(values: &Vec<u16>) -> (r: Vec<u32>)
    ensures
        r@ == widen_u16(values@),
{
    let mut r: Vec<u32> = Vec::with_capacity(values.len());
    let mut i: usize = 0;
    while i < values.len()
        invariant
            i <= values.len(),
            r@ == widen_u16(values@.subrange(0, i as int)),
        decreases values.len() - i,
    {
        r.push(values[i] as u32);
        i = i + 1;
        assert(r@ =~= widen_u16(values@.subrange(0, i as int)));
    }
    assert(values@.subrange(0, i as int) =~= values@);
    r
}

/// An array of indices. Supports different data types.
#[derive(Clone, Debug)]
pub enum CpuElementBuffer {
    /// Uses unsigned 8 bit integer for each index.
    U8(Vec<u8>),
    /// Uses unsigned 16 bit integer for each index.
    U16(Vec<u16>),
    /// Uses unsigned 32 bit integer for each index.
    U32(Vec<u32>),
}

/// The earlier name of [CpuElementBuffer].
pub type Indices = CpuElementBuffer;

impl View for CpuElementBuffer {
    type V = Seq<u32>;

    /// The indices, whatever their type, as 32 bit values.
    open spec fn view(&self) -> Seq<u32> {
        match self {
            CpuElementBuffer::U8(values) => widen_u8(values@),
            CpuElementBuffer::U16(values) => widen_u16(values@),
            CpuElementBuffer::U32(values) => values@,
        }
    }
}

impl CpuElementBuffer {
    /// Converts all the indices as `u32` data type.
    pub fn into_u32(self) -> (r: Vec<u32>)
        ensures
            r@ == self@,
    {
        match self {
            CpuElementBuffer::U8(values) => widen_u8_vec(&values),
            CpuElementBuffer::U16(values) => widen_u16_vec(&values),
            CpuElementBuffer::U32(values) => values,
        }
    }

    /// Clones and converts all the indices as `u32` data type.
    pub fn to_u32(&self) -> (r: Vec<u32>)
        ensures
            r@ == self@,
    {
        match self {
            CpuElementBuffer::U8(values) => widen_u8_vec(values),
            CpuElementBuffer::U16(values) => widen_u16_vec(values),
            CpuElementBuffer::U32(values) => values.clone(),
        }
    }

    /// Returns the number of indices.
    pub fn len(&self) -> (r: usize)
        ensures
            r == self@.len(),
    {
        match self {
            CpuElementBuffer::U8(values) => values.len(),
            CpuElementBuffer::U16(values) => values.len(),
            CpuElementBuffer::U32(values) => values.len(),
        }
    }
}

impl Default for CpuElementBuffer {
    fn default() -> (r: Self)
        ensures
            r matches CpuElementBuffer::U32(v) && v@.len() == 0,
    {
        CpuElementBuffer::U32(Vec::new())
    }
}

/// Widening keeps every index: the `n`-th index read as `u32` is the `n`-th index
/// stored, for each of the three storage types.
pub proof fn lemma_view_keeps_values(b: CpuElementBuffer, n: int)
    requires
        0 <= n < b@.len(),
    ensures
        match b {
            CpuElementBuffer::U8(v) => b@[n] == v@[n] as u32 && b@.len() == v@.len(),
            CpuElementBuffer::U16(v) => b@[n] == v@[n] as u32 && b@.len() == v@.len(),
            CpuElementBuffer::U32(v) => b@[n] == v@[n] && b@.len() == v@.len(),
        },
{
}

} // verus!
