//! The contents of a uniform buffer: a fixed list of shader variables of fixed
//! lengths, stored one after the other.
//!
//! Each value is a 32 bit float, held here by its bit pattern; the bit pattern of
//! zero is the float zero.

use vstd::prelude::*;

verus! {

/// The sum of a list of sizes.
pub open spec fn sum_sizes(sizes: Seq<u32>) -> nat
    decreases sizes.len(),
{
    if sizes.len() == 0 {
        0
    } else {
        sum_sizes(sizes.drop_last()) + sizes.last() as nat
    }
}

/// A buffer for transferring a set of uniform variables to a shader program.
#[derive(Debug)]
pub struct UniformBuffer {
    offsets: Vec<usize>,
    data: Vec<u32>,
}

impl UniformBuffer {
    /// Where the variable at `index` ends: where the next one starts, or at the end of
    /// the data for the last one.
    pub closed spec fn end_of(&self, index: int) -> int {
        if index + 1 == self.offsets@.len() {
            self.data@.len() as int
        } else {
            self.offsets@[index + 1] as int
        }
    }

    /// Every variable starts no later than it ends and ends within the data.
    pub closed spec fn well_formed(&self) -> bool {
        &&& forall|i: int| 0 <= i < self.offsets@.len() ==> self.offsets@[i] <= self.end_of(i)
        &&& forall|i: int| 0 <= i < self.offsets@.len() ==> self.end_of(i) <= self.data@.len()
    }

    /// The values of each variable, in order.
    pub closed spec fn variables(&self) -> Seq<Seq<u32>> {
        Seq::new(
            self.offsets@.len(),
            |i: int| self.data@.subrange(self.offsets@[i] as int, self.end_of(i)),
        )
    }

    /// Creates a buffer with room for variables of the given lengths, so that with
    /// the lengths `[3, 1, 4, 16]` it holds a vector of three values, a single value, a
    /// vector of four values and a four by four matrix. All values start at zero.
    pub fn new(sizes: &[u32]) -> (r: UniformBuffer)
        requires
            sum_sizes(sizes@) <= usize::MAX,
        ensures
            r.well_formed(),
            r.variables() == Seq::new(sizes@.len(), |i: int| Seq::new(sizes@[i] as nat, |k: int| 0u32)),
    {
        let mut offsets: Vec<usize> = Vec::new();
        let mut length: usize = 0;
        let mut i: usize = 0;
        while i < sizes.len()
            invariant
                i <= sizes@.len(),
                sum_sizes(sizes@) <= usize::MAX,
                length == sum_sizes(sizes@.subrange(0, i as int)),
                offsets@.len() == i,
                forall|j: int| 0 <= j < i ==> offsets@[j] == sum_sizes(sizes@.subrange(0, j)),
            decreases sizes@.len() - i,
        {
            proof {
                lemma_sum_sizes_prefix_monotone(sizes@, (i + 1) as int, sizes@.len() as int);
                assert(sizes@.subrange(0, i + 1).drop_last() =~= sizes@.subrange(0, i as int));
                assert(sizes@.subrange(0, sizes@.len() as int) =~= sizes@);
            }
            offsets.push(length);
            length = length + sizes[i] as usize;
            i = i + 1;
        }
        assert(sizes@.subrange(0, i as int) =~= sizes@);
        let mut data: Vec<u32> = Vec::new();
        let mut k: usize = 0;
        while k < length
            invariant
                k <= length,
                data@ == Seq::new(k as nat, |x: int| 0u32),
            decreases length - k,
        {
            data.push(0);
            k = k + 1;
            assert(data@ =~= Seq::new(k as nat, |x: int| 0u32));
        }
        let r = UniformBuffer { offsets, data };
        proof {
            assert forall|j: int| 0 <= j < r.offsets@.len() implies r.offsets@[j] + sizes@[j]
                == r.end_of(j) && r.end_of(j) <= r.data@.len() by {
                assert(sizes@.subrange(0, j + 1).drop_last() =~= sizes@.subrange(0, j));
                lemma_sum_sizes_prefix_monotone(sizes@, j + 1, sizes@.len() as int);
                assert(sizes@.subrange(0, sizes@.len() as int) =~= sizes@);
                if j + 1 == r.offsets@.len() {
                    assert(sizes@.subrange(0, j + 1) =~= sizes@);
                }
            }
            assert forall|i: int| 0 <= i < sizes@.len() implies #[trigger] r.variables()[i]
                =~= Seq::new(sizes@[i] as nat, |k: int| 0u32) by {
                assert(r.offsets@[i] + sizes@[i] == r.end_of(i));
            }
            assert(r.variables() =~= Seq::new(
                sizes@.len(),
                |i: int| Seq::new(sizes@[i] as nat, |k: int| 0u32),
            ));
        }
        r
    }

    /// Where the variable at `index` starts and how many values it has, if there is
    /// such a variable.
    fn offset_length(&self, index: usize) -> (r: Option<(usize, usize)>)
        requires
            self.well_formed(),
        ensures
            index < self.offsets@.len() ==> r == Some(
                (self.offsets@[index as int], (self.end_of(index as int) - self.offsets@[index as int]) as usize),
            ),
            index >= self.offsets@.len() ==> r is None,
    {
        if index >= self.offsets.len() {
            None
        } else {
            assert(self.offsets@[index as int] <= self.end_of(index as int) <= self.data@.len());
            let offset = self.offsets[index];
            let end = if index + 1 == self.offsets.len() {
                self.data.len()
            } else {
                self.offsets[index + 1]
            };
            Some((offset, end - offset))
        }
    }

    /// The values of the variable at the given index, if there is such a variable.
    pub fn get(&self, index: u32) -> (r: Option<&[u32]>)
        requires
            self.well_formed(),
        ensures
            (index as int) < self.variables().len() ==> (r matches Some(s) && s@ == self.variables()[index as int]),
            (index as int) >= self.variables().len() ==> r is None,
    {
        let i = index as usize;
        assert(i as int == index as int);
        match self.offset_length(i) {
            Some((offset, length)) => {
                assert(self.offsets@[i as int] <= self.end_of(i as int) <= self.data.len());
                assert(self.variables()[index as int] == self.data@.subrange(
                    offset as int,
                    offset + length,
                ));
                Some(&self.data.as_slice()[offset..offset + length])
            },
            None => None,
        }
    }

    /// Replaces the values of the variable at the given index, which must exist and
    /// have as many values as given.
    pub fn update(&mut self, index: u32, data: &[u32])
        requires
            old(self).well_formed(),
            (index as int) < old(self).variables().len(),
            data@.len() == old(self).variables()[index as int].len(),
        ensures
            final(self).well_formed(),
            final(self).variables() == old(self).variables().update(index as int, data@),
    {
        let i = index as usize;
        assert(i as int == index as int);
        let (offset, length) = match self.offset_length(i) {
            Some(p) => p,
            None => { return; },
        };
        proof {
            let i = index as int;
            assert(self.offsets@[i] <= self.end_of(i) <= self.data.len());
            assert(self.variables()[i].len() == self.end_of(i) - self.offsets@[i]);
            assert(length as int == self.end_of(i) - self.offsets@[i]);
            assert(old(self).variables()[i].len() == self.variables()[i].len());
        }
        let ghost old_vars = self.variables();
        let ghost old_data = self.data@;
        let ghost old_offsets = self.offsets@;
        let mut k: usize = 0;
        while k < length
            invariant
                k <= length,
                length == data@.len(),
                offset + length <= self.data.len(),
                self.data@.len() == old_data.len(),
                self.offsets@ == old_offsets,
                forall|x: int| 0 <= x < self.data@.len() && !(offset <= x < offset + k) ==> self.data@[x] == old_data[x],
                forall|x: int| offset <= x < offset + k ==> self.data@[x] == data@[x - offset],
            decreases length - k,
        {
            self.data.set(offset + k, data[k]);
            k = k + 1;
        }
        proof {
            let i = index as int;
            assert forall|x: int| 0 <= x < self.offsets@.len() implies self.end_of(x) == old(
                self,
            ).end_of(x) && self.offsets@[x] <= self.end_of(x) && self.end_of(x) <= self.data@.len() by {
                assert(old(self).offsets@[x] <= old(self).end_of(x) <= old(self).data@.len());
            }
            assert forall|j: int| 0 <= j < self.offsets@.len() && j != i implies
                (self.offsets@[j] >= offset + length || self.end_of(j) <= offset) by {
                if j < i {
                    lemma_ordered_offsets(self, j, i);
                } else {
                    lemma_ordered_offsets(self, i, j);
                }
            }
            assert(self.variables() =~= old_vars.update(i, data@)) by {
                assert forall|j: int| 0 <= j < self.variables().len() implies self.variables()[j] =~= old_vars.update(i, data@)[j] by {
                    assert(self.offsets@[j] <= self.end_of(j) <= self.data@.len());
                    assert(old(self).offsets@[j] <= old(self).end_of(j) <= old(self).data@.len());
                    if j != i {
                        assert(self.variables()[j] =~= old_vars[j]);
                    }
                }
            }
        }
    }
}

/// A longer prefix of a list of sizes never sums to less.
pub proof fn lemma_sum_sizes_prefix_monotone(sizes: Seq<u32>, a: int, b: int)
    requires
        0 <= a <= b <= sizes.len(),
    ensures
        sum_sizes(sizes.subrange(0, a)) <= sum_sizes(sizes.subrange(0, b)),
    decreases b - a,
{
    if a < b {
        lemma_sum_sizes_prefix_monotone(sizes, a, b - 1);
        assert(sizes.subrange(0, b).drop_last() =~= sizes.subrange(0, b - 1));
    }
}

/// A variable earlier in the buffer ends no later than a later one starts.
proof fn lemma_ordered_offsets(b: &UniformBuffer, i: int, j: int)
    requires
        0 <= i < j < b.offsets@.len(),
        forall|x: int| 0 <= x < b.offsets@.len() ==> b.offsets@[x] <= b.end_of(x),
    ensures
        b.end_of(i) <= b.offsets@[j],
    decreases j - i,
{
    if j > i + 1 {
        lemma_ordered_offsets(b, i, j - 1);
        assert(b.offsets@[j - 1] <= b.end_of(j - 1));
    }
}

/// What a read gives back of a write: when a buffer is the result of updating the
/// variable at `index` with `values` (as [UniformBuffer::update] ensures), that
/// variable holds the new values, every other variable holds what it held before,
/// and the number of variables is unchanged.
pub proof fn lemma_read_after_update(
    before: UniformBuffer,
    after: UniformBuffer,
    index: int,
    values: Seq<u32>,
)
    requires
        0 <= index < before.variables().len(),
        values.len() == before.variables()[index].len(),
        after.variables() == before.variables().update(index, values),
    ensures
        after.variables()[index] == values,
        forall|j: int|
            0 <= j < before.variables().len() && j != index ==> after.variables()[j]
                == before.variables()[j],
        after.variables().len() == before.variables().len(),
{
}

} // verus!
