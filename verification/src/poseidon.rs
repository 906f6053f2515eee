//! Poseidon sponge configuration data for the hash demos: round counts,
//! exponent and constant matrices as plain values.  The field arithmetic
//! that consumes them lives outside the library.

use vstd::prelude::*;

verus! {

/// A Poseidon configuration as plain values: the consumer lifts each matrix
/// entry into its field.
pub struct PoseidonDemoConfig {
    pub full_rounds: usize,
    pub partial_rounds: usize,
    pub alpha: u64,
    pub mds: Vec<Vec<u64>>,
    pub ark: Vec<Vec<u64>>,
    pub rate: usize,
    pub capacity: usize,
}

impl PoseidonDemoConfig {
    /// Rows of `ark`: one triple of round constants for every round.
    pub open spec fn rounds(&self) -> int {
        self.full_rounds + self.partial_rounds
    }

    /// The matrices have the shape the sponge expects: a 3-by-3 mixing
    /// matrix and one row of 3 round constants per round.
    pub open spec fn wf(&self) -> bool {
        &&& self.mds@.len() == 3
        &&& forall|i: int| 0 <= i < 3 ==> (#[trigger] self.mds@[i])@.len() == 3
        &&& self.ark@.len() == self.rounds()
        &&& forall|i: int| 0 <= i < self.ark@.len() ==> (#[trigger] self.ark@[i])@.len() == 3
    }
}

/// A 3-by-3 matrix holding `v` everywhere.
fn uniform_rows(rows: usize, v: u64) -> (r: Vec<Vec<u64>>)
    ensures
        r@.len() == rows,
        forall|i: int|
            0 <= i < rows ==> (#[trigger] r@[i])@ =~= seq![v, v, v],
{
    let mut out: Vec<Vec<u64>> = Vec::new();
    let mut i: usize = 0;
    while i < rows
        invariant
            i <= rows,
            out@.len() == i,
            forall|j: int| 0 <= j < i ==> (#[trigger] out@[j])@ =~= seq![v, v, v],
        decreases rows - i,
    {
        let mut row: Vec<u64> = Vec::new();
        row.push(v);
        row.push(v);
        row.push(v);
        assert(row@ =~= seq![v, v, v]);
        out.push(row);
        i += 1;
    }
    out
}

/// The deliberately toy configuration of the plain hash demo: 8 full and 57
/// partial rounds, exponent 17, all-ones mixing matrix and round constants,
/// rate 2 and capacity 1.
pub fn hash_demo_config() -> (r: PoseidonDemoConfig)
    ensures
        r.wf(),
        r.full_rounds == 8,
        r.partial_rounds == 57,
        r.alpha == 17,
        r.rate == 2,
        r.capacity == 1,
        forall|i: int| 0 <= i < 3 ==> (#[trigger] r.mds@[i])@ =~= seq![1u64, 1u64, 1u64],
        forall|i: int| 0 <= i < r.ark@.len() ==> (#[trigger] r.ark@[i])@ =~= seq![1u64, 1u64, 1u64],
{
    PoseidonDemoConfig {
        full_rounds: 8,
        partial_rounds: 57,
        alpha: 17,
        mds: uniform_rows(3, 1),
        ark: uniform_rows(65, 1),
        rate: 2,
        capacity: 1,
    }
}

/// The configuration of the preimage demo: exponent 5, mixing matrix rows
/// (1,2,3), (4,5,6), (7,8,9), all-ones round constants.
pub fn preimage_demo_config() -> (r: PoseidonDemoConfig)
    ensures
        r.wf(),
        r.full_rounds == 8,
        r.partial_rounds == 57,
        r.alpha == 5,
        r.rate == 2,
        r.capacity == 1,
        forall|i: int, j: int|
            0 <= i < 3 && 0 <= j < 3 ==> #[trigger] r.mds@[i]@[j] == 3 * i + j + 1,
        forall|i: int| 0 <= i < r.ark@.len() ==> (#[trigger] r.ark@[i])@ =~= seq![1u64, 1u64, 1u64],
{
    let mut mds: Vec<Vec<u64>> = Vec::new();
    let mut row1: Vec<u64> = Vec::new();
    row1.push(1);
    row1.push(2);
    row1.push(3);
    let mut row2: Vec<u64> = Vec::new();
    row2.push(4);
    row2.push(5);
    row2.push(6);
    let mut row3: Vec<u64> = Vec::new();
    row3.push(7);
    row3.push(8);
    row3.push(9);
    mds.push(row1);
    mds.push(row2);
    mds.push(row3);
    let r = PoseidonDemoConfig {
        full_rounds: 8,
        partial_rounds: 57,
        alpha: 5,
        mds,
        ark: uniform_rows(65, 1),
        rate: 2,
        capacity: 1,
    };
    assert forall|i: int, j: int| 0 <= i < 3 && 0 <= j < 3 implies #[trigger] r.mds@[i]@[j] == 3
        * i + j + 1 by {
        assert(r.mds@[0]@ =~= seq![1u64, 2u64, 3u64]);
        assert(r.mds@[1]@ =~= seq![4u64, 5u64, 6u64]);
        assert(r.mds@[2]@ =~= seq![7u64, 8u64, 9u64]);
    }
    r
}

} // verus!
