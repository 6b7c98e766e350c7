use vstd::prelude::*;

verus! {

/// Number of cells in the level meter.
pub const METER_WIDTH: usize = 20;

/// Level, in thousandths of full scale, at which the next cell lights up.
pub const LEVEL_PER_CELL: u64 = 50;

/// Whether cell `i` of the meter is lit at `level` thousandths: cell `i`
/// stands for the fraction `i / 20`.
pub open spec fn cell_lit(i: int, level: int) -> bool {
    i * (LEVEL_PER_CELL as int) <= level
}

/// The meter row for an output level given in thousandths of full scale.
pub fn meter_cells(level: u64) -> (r: Vec<bool>)
    ensures
        r@.len() == METER_WIDTH,
        forall|i: int| 0 <= i < METER_WIDTH ==> r@[i] == cell_lit(i, level as int),
{
    let mut cells: Vec<bool> = Vec::new();
    let mut i: usize = 0;
    while i < METER_WIDTH
        invariant
            i <= METER_WIDTH,
            cells@.len() == i,
            forall|j: int| 0 <= j < i ==> cells@[j] == cell_lit(j, level as int),
        decreases METER_WIDTH - i,
    {
        cells.push((i as u64) * LEVEL_PER_CELL <= level);
        i = i + 1;
    }
    cells
}

} // verus!
