//! Arithmetic the terminal renderer needs: the per-cell layout fraction.

use vstd::prelude::*;

verus! {

/// The percentage constraints that split the screen into `cells` rows or
/// columns: one entry more than `cells`, each of `100 / cells` percent.
pub fn cells_to_percentage(cells: i16) -> (r: Vec<u16>)
    requires
        1 <= cells <= 100,
    ensures
        r@.len() == cells + 1,
        forall|i: int| 0 <= i < r@.len() ==> r@[i] == 100int / (cells as int),
{
    let percentage = 100 / cells;
    let mut vector: Vec<u16> = Vec::new();
    let mut n: i16 = 0;
    while n <= cells
        invariant
            1 <= cells <= 100,
            percentage == 100int / (cells as int),
            0 <= n <= cells + 1,
            vector@.len() == n,
            forall|i: int| 0 <= i < vector@.len() ==> vector@[i] == 100int / (cells as int),
        decreases cells + 1 - n,
    {
        vector.push(percentage as u16);
        n = n + 1;
    }
    vector
}

} // verus!
