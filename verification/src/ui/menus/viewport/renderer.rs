//! The geometry of the ground grid drawn in the 3D viewport.

use vstd::prelude::*;

verus! {

/// The grid spans `-GRID_SIZE..=GRID_SIZE` on both axes of the ground plane.
pub const GRID_SIZE: i32 = 10;

/// The two lines at offset `i`: one along `z` at `x = i`, one along `x` at
/// `z = i`, each as two `(x, y, z)` points.
pub open spec fn grid_lines_at(i: int) -> Seq<int> {
    let n = GRID_SIZE as int;
    seq![i, 0, -n, i, 0, n, -n, 0, i, n, 0, i]
}

/// The coordinates of the lines at offsets `-GRID_SIZE .. -GRID_SIZE + k`.
pub open spec fn grid_coords(k: nat) -> Seq<int>
    decreases k,
{
    if k == 0 {
        seq![]
    } else {
        grid_coords((k - 1) as nat) + grid_lines_at(k - 1 - GRID_SIZE)
    }
}

proof fn lemma_grid_coords_len(k: nat)
    ensures
        grid_coords(k).len() == 12 * k,
    decreases k,
{
    if k > 0 {
        lemma_grid_coords_len((k - 1) as nat);
    }
}

/// The vertex coordinates of the ground grid, three per vertex, two
/// vertices per line: for each offset `i` from `-GRID_SIZE` to `GRID_SIZE`,
/// a line along `z` at `x = i` and a line along `x` at `z = i`.
pub fn grid_line_vertices() -> (r: Vec<i32>)
    ensures
        r@.map_values(|c: i32| c as int) == grid_coords((2 * GRID_SIZE + 1) as nat),
        r@.len() == 12 * (2 * GRID_SIZE + 1),
{
    let mut r: Vec<i32> = Vec::new();
    let mut i: i32 = -GRID_SIZE;
    while i <= GRID_SIZE
        invariant
            -GRID_SIZE <= i <= GRID_SIZE + 1,
            r@.map_values(|c: i32| c as int) == grid_coords((i + GRID_SIZE) as nat),
        decreases GRID_SIZE + 1 - i,
    {
        let ghost before = r@;
        r.push(i);
        r.push(0);
        r.push(-GRID_SIZE);
        r.push(i);
        r.push(0);
        r.push(GRID_SIZE);
        r.push(-GRID_SIZE);
        r.push(0);
        r.push(i);
        r.push(GRID_SIZE);
        r.push(0);
        r.push(i);
        assert(r@.map_values(|c: i32| c as int) =~= before.map_values(|c: i32| c as int) + grid_lines_at(
            i as int,
        ));
        i = i + 1;
    }
    proof {
        lemma_grid_coords_len((2 * GRID_SIZE + 1) as nat);
    }
    r
}

} // verus!
