use vstd::prelude::*;

use vstd::arithmetic::div_mod::lemma_fundamental_div_mod_converse;

use crate::buffer::packed;

verus! {

/// Number of particles in a lattice of `rows` by `cols`.
pub open spec fn grid_count(rows: nat, cols: nat) -> nat {
    rows * cols
}

/// Number of particles that a `rows` by `cols` lattice holds, when it fits in a `u32`.
pub fn particle_count(rows: u32, cols: u32) -> (r: Option<u32>)
    ensures
        r.is_some() <==> grid_count(rows as nat, cols as nat) <= u32::MAX,
        r.is_some() ==> r.unwrap() == grid_count(rows as nat, cols as nat),
{
    rows.checked_mul(cols)
}

/// The lattice cells (`row`, `col`) of a `rows` by `cols` grid, in the order in which
/// the particles are created: row by row, and within a row column by column.
pub fn lattice_cells(rows: u32, cols: u32) -> (r: Vec<(u32, u32)>)
    requires
        grid_count(rows as nat, cols as nat) <= u32::MAX,
    ensures
        r@.len() == grid_count(rows as nat, cols as nat),
        forall|k: int|
            0 <= k < r@.len() ==> {
                &&& (#[trigger] r@[k]).0 == k / (cols as int)
                &&& r@[k].1 == k % (cols as int)
                &&& r@[k].0 < rows
            },
{
    let mut cells: Vec<(u32, u32)> = Vec::new();
    let mut i: u32 = 0;
    while i < rows
        invariant
            i <= rows,
            grid_count(rows as nat, cols as nat) <= u32::MAX,
            cells@.len() == i * cols,
            forall|k: int|
                0 <= k < cells@.len() ==> {
                    &&& (#[trigger] cells@[k]).0 == k / (cols as int)
                    &&& cells@[k].1 == k % (cols as int)
                    &&& cells@[k].0 < i
                },
        decreases rows - i,
    {
        let mut j: u32 = 0;
        while j < cols
            invariant
                i < rows,
                j <= cols,
                cells@.len() == i * cols + j,
                forall|k: int|
                    0 <= k < cells@.len() ==> {
                        &&& (#[trigger] cells@[k]).0 == k / (cols as int)
                        &&& cells@[k].1 == k % (cols as int)
                        &&& cells@[k].0 <= i
                    },
            decreases cols - j,
        {
            proof {
                lemma_fundamental_div_mod_converse(
                    cells@.len() as int,
                    cols as int,
                    i as int,
                    j as int,
                );
            }
            cells.push((i, j));
            j = j + 1;
        }
        proof {
            assert((i + 1) * cols == i * cols + cols) by (nonlinear_arith);
            assert forall|k: int| 0 <= k < cells@.len() implies {
                &&& (#[trigger] cells@[k]).0 == k / (cols as int)
                &&& cells@[k].1 == k % (cols as int)
                &&& cells@[k].0 < i + 1
            } by {
                assert(k / (cols as int) < i + 1) by (nonlinear_arith)
                    requires
                        0 <= k < (i + 1) * cols,
                        cols > 0,
                ;
            }
        }
        i = i + 1;
    }
    cells
}

/// A lattice with no rows or no columns holds no particle, and the position buffer
/// of its particles is empty.
pub proof fn empty_grid_has_no_particles(rows: nat, cols: nat)
    requires
        rows == 0 || cols == 0,
    ensures
        grid_count(rows, cols) == 0,
        forall|points: Seq<(u32, u32)>|
            points.len() == grid_count(rows, cols) ==> #[trigger] packed(points) == Seq::<u8>::empty(),
{
    assert(rows * cols == 0) by (nonlinear_arith)
        requires
            rows == 0 || cols == 0,
    ;
}

} // verus!
