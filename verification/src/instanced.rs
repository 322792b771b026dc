//! The per instance data of an instanced mesh: the first three rows of each
//! instance's transformation, one vertex attribute per row.

use vstd::prelude::*;

verus! {

/// The given row (0, 1 or 2) of each transformation, four values per instance:
/// the row's component of each of the four columns. A transformation is sixteen
/// 32 bit floats (held by their bit patterns), column after column.
pub open spec fn spec_instance_row(transformations: Seq<[u32; 16]>, row: int) -> Seq<u32> {
    Seq::new(
        4 * transformations.len(),
        |k: int| transformations[k / 4]@[4 * (k % 4) + row],
    )
}

/// The three rows of the instances' transformations, as three attributes.
#[derive(Debug)]
pub struct InstanceRows {
    /// The first row of each transformation.
    pub row1: Vec<u32>,
    /// The second row of each transformation.
    pub row2: Vec<u32>,
    /// The third row of each transformation.
    pub row3: Vec<u32>,
    /// The number of instances (kept in 32 bits, as the graphics API counts).
    pub instance_count: u32,
}

/// Splits the transformations of the instances into their first three rows; the
/// last row of an affine transformation is not sent.
pub fn instance_rows(transformations: &Vec<[u32; 16]>) -> (r: InstanceRows)
    requires
        4 * transformations@.len() <= usize::MAX,
    ensures
        r.row1@ == spec_instance_row(transformations@, 0),
        r.row2@ == spec_instance_row(transformations@, 1),
        r.row3@ == spec_instance_row(transformations@, 2),
        r.instance_count == transformations@.len() as u32,
{
    let ghost ts = transformations@;
    let mut row1: Vec<u32> = Vec::new();
    let mut row2: Vec<u32> = Vec::new();
    let mut row3: Vec<u32> = Vec::new();
    let mut i: usize = 0;
    while i < transformations.len()
        invariant
            ts == transformations@,
            i <= ts.len(),
            row1@ == spec_instance_row(ts.take(i as int), 0),
            row2@ == spec_instance_row(ts.take(i as int), 1),
            row3@ == spec_instance_row(ts.take(i as int), 2),
        decreases ts.len() - i,
    {
        let t = transformations[i];
        row1.push(t[0]);
        row1.push(t[4]);
        row1.push(t[8]);
        row1.push(t[12]);
        row2.push(t[1]);
        row2.push(t[5]);
        row2.push(t[9]);
        row2.push(t[13]);
        row3.push(t[2]);
        row3.push(t[6]);
        row3.push(t[10]);
        row3.push(t[14]);
        proof {
            let next = ts.take(i + 1);
            assert forall|row: int, k: int| 0 <= row < 3 && 0 <= k < 4 * i implies #[trigger] spec_instance_row(next, row)[k]
                == spec_instance_row(ts.take(i as int), row)[k] by {
                assert(next[k / 4] == ts.take(i as int)[k / 4]);
            }
            assert forall|row: int, c: int| 0 <= row < 3 && 0 <= c < 4 implies #[trigger] spec_instance_row(next, row)[4 * i + c]
                == t@[4 * c + row] by {
                assert((4 * i + c) / 4 == i);
                assert((4 * i + c) % 4 == c);
            }
            assert(row1@ =~= spec_instance_row(next, 0));
            assert(row2@ =~= spec_instance_row(next, 1));
            assert(row3@ =~= spec_instance_row(next, 2));
        }
        i = i + 1;
    }
    proof {
        assert(ts.take(ts.len() as int) =~= ts);
    }
    InstanceRows { row1, row2, row3, instance_count: transformations.len() as u32 }
}

} // verus!
