use vstd::prelude::*;

verus! {

/// Rows needed for `count` items in rows of `row_width`: the ceiling of
/// `count / row_width`.
pub open spec fn row_count(count: u32, row_width: u32) -> int {
    (count + row_width - 1) / (row_width as int)
}

/// Plans a deterministic row-major arrangement of discrete items: item `i`
/// sits in column `i % row_width` of row `i / row_width`.
pub struct LayoutPlanner;

impl LayoutPlanner {
    /// Returns one `(column, row)` cell per item, in row-major order: full
    /// rows of `row_width` items, then one final, possibly partial, row.
    /// An item count of zero yields an empty sequence.
    pub fn positions(count: u32, row_width: u32) -> (r: Vec<(i32, i32)>)
        requires
            1 <= row_width,
            count <= i32::MAX as u32,
        ensures
            r@.len() == count,
            forall|i: int| 0 <= i < count ==> {
                &&& (#[trigger] r@[i]).0 == i % (row_width as int)
                &&& r@[i].1 == i / (row_width as int)
            },
    {
        let mut cells: Vec<(i32, i32)> = Vec::new();
        let mut i: u32 = 0;
        while i < count
            invariant
                i <= count,
                count <= i32::MAX as u32,
                1 <= row_width,
                cells@.len() == i,
                forall|j: int| 0 <= j < i ==> {
                    &&& (#[trigger] cells@[j]).0 == j % (row_width as int)
                    &&& cells@[j].1 == j / (row_width as int)
                },
            decreases count - i,
        {
            let x: u32 = i % row_width;
            let y: u32 = i / row_width;
            proof {
                assert(i as int % (row_width as int) <= i as int) by (nonlinear_arith)
                    requires 1 <= row_width, 0 <= i;
                assert(i as int / (row_width as int) <= i as int) by (nonlinear_arith)
                    requires 1 <= row_width, 0 <= i;
            }
            cells.push((x as i32, y as i32));
            i = i + 1;
        }
        cells
    }
}

/// Layout coverage: every item's row index lies below `row_count`, and the
/// last item lands in row `row_count - 1` — an item count that is an exact
/// multiple of the row width fills its last row and adds no empty row after
/// it.
pub proof fn lemma_rows_exact(count: u32, row_width: u32)
    requires
        1 <= row_width,
        1 <= count,
    ensures
        forall|i: int| 0 <= i < count ==>
            0 <= #[trigger] (i / (row_width as int)) < row_count(count, row_width),
        (count - 1) / (row_width as int) == row_count(count, row_width) - 1,
{
    let w = row_width as int;
    let n = count as int;
    assert(1 + (n - 1) / w == (w + (n - 1)) / w) by {
        vstd::arithmetic::div_mod::lemma_div_plus_one(n - 1, w);
    }
    assert(row_count(count, row_width) == (n - 1) / w + 1);
    assert forall|i: int| 0 <= i < count implies
        0 <= #[trigger] (i / w) < row_count(count, row_width) by {
        vstd::arithmetic::div_mod::lemma_div_pos_is_pos(i, w);
        vstd::arithmetic::div_mod::lemma_div_is_ordered(i, n - 1, w);
    }
}

} // verus!
