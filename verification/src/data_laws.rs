use vstd::prelude::*;

use crate::mipmaps::stitched;
use crate::ocean_grid::{border_zeroed, cell, on_border};
use crate::settings::{ocean_layer, ocean_respawns, GlobalSettings, UNSET};
use crate::wireframe::triangle_edges;

verus! {

/// The line index `l` stands for vertex `v`: it is `v` itself whenever `v` fits in 32 bits.
pub open spec fn names_vertex(l: u32, v: usize) -> bool {
    v <= u32::MAX ==> l as int == v as int
}

/// Positions `6m .. 6m+6` of `lines` hold the edges `a-b`, `b-c`, `c-a` of triangle `m`
/// of `ind`, whose vertices are `a, b, c` at positions `3m .. 3m+3`.
pub open spec fn draws_triangle(lines: Seq<u32>, ind: Seq<usize>, m: int) -> bool {
    &&& names_vertex(lines[6 * m], ind[3 * m])
    &&& names_vertex(lines[6 * m + 1], ind[3 * m + 1])
    &&& names_vertex(lines[6 * m + 2], ind[3 * m + 1])
    &&& names_vertex(lines[6 * m + 3], ind[3 * m + 2])
    &&& names_vertex(lines[6 * m + 4], ind[3 * m + 2])
    &&& names_vertex(lines[6 * m + 5], ind[3 * m])
}

proof fn lemma_edges(ind: Seq<usize>, k: nat)
    requires
        3 * k <= ind.len(),
    ensures
        triangle_edges(ind, k).len() == 6 * k,
        forall|m: int|
            0 <= m < k ==> #[trigger] draws_triangle(triangle_edges(ind, k), ind, m),
    decreases k,
{
    if k > 0 {
        lemma_edges(ind, (k - 1) as nat);
        let prev = triangle_edges(ind, (k - 1) as nat);
        let lines = triangle_edges(ind, k);
        assert forall|m: int| 0 <= m < k implies #[trigger] draws_triangle(lines, ind, m) by {
            if m == k - 1 {
                let b = 3 * m;
                assert(lines[6 * m] == ind[b] as u32);
                assert(lines[6 * m + 1] == ind[b + 1] as u32);
                assert(lines[6 * m + 2] == ind[b + 1] as u32);
                assert(lines[6 * m + 3] == ind[b + 2] as u32);
                assert(lines[6 * m + 4] == ind[b + 2] as u32);
                assert(lines[6 * m + 5] == ind[b] as u32);
            } else {
                assert(draws_triangle(prev, ind, m));
                assert(lines[6 * m] == prev[6 * m]);
                assert(lines[6 * m + 1] == prev[6 * m + 1]);
                assert(lines[6 * m + 2] == prev[6 * m + 2]);
                assert(lines[6 * m + 3] == prev[6 * m + 3]);
                assert(lines[6 * m + 4] == prev[6 * m + 4]);
                assert(lines[6 * m + 5] == prev[6 * m + 5]);
            }
        }
    }
}

/// The wireframe of a triangle list holds six line indices per complete triangle, and
/// triangle `m` with vertices `a, b, c` gives the three edges `a-b`, `b-c`, `c-a` at
/// positions `6m .. 6m+6`, each index the vertex it names.
pub proof fn law_wireframe_edges(ind: Seq<usize>, m: int)
    ensures
        triangle_edges(ind, (ind.len() / 3) as nat).len() == 6 * (ind.len() / 3),
        0 <= m < ind.len() / 3 ==> draws_triangle(triangle_edges(ind, (ind.len() / 3) as nat), ind, m),
{
    lemma_edges(ind, (ind.len() / 3) as nat);
}

/// Number of bytes in the first `n` mip levels (a missing level counts as none).
pub open spec fn bytes_before(levels: Seq<Option<Vec<u8>>>, n: int) -> int
    decreases n,
{
    if n <= 0 {
        0
    } else {
        bytes_before(levels, n - 1) + match levels[n - 1] {
            Some(d) => d@.len() as int,
            None => 0,
        }
    }
}

proof fn lemma_bytes_before_prefix(levels: Seq<Option<Vec<u8>>>, n: int)
    requires
        levels.len() > 0,
        0 <= n < levels.len(),
    ensures
        bytes_before(levels.drop_last(), n) == bytes_before(levels, n),
    decreases n,
{
    if n > 0 {
        lemma_bytes_before_prefix(levels, n - 1);
    }
}

proof fn lemma_bytes_before_nonneg(levels: Seq<Option<Vec<u8>>>, n: int)
    ensures
        bytes_before(levels, n) >= 0,
        forall|k: int| 0 <= k <= n ==> bytes_before(levels, k) <= bytes_before(levels, n),
    decreases n,
{
    if n > 0 {
        lemma_bytes_before_nonneg(levels, n - 1);
    }
}

/// Stitching gives data exactly when every level has data. Then the data is all levels'
/// bytes in order: as long as all levels together, and level `i`'s bytes start right
/// after those of the levels before it.
pub proof fn law_stitch_concatenates(levels: Seq<Option<Vec<u8>>>)
    ensures
        stitched(levels) is Some <==> forall|i: int| 0 <= i < levels.len() ==> #[trigger] levels[i] is Some,
        stitched(levels) is Some ==> {
            let data = stitched(levels)->0;
            &&& data.len() == bytes_before(levels, levels.len() as int)
            &&& forall|i: int, k: int|
                0 <= i < levels.len() && 0 <= k < levels[i]->0@.len() ==> data[bytes_before(levels, i)
                    + k] == #[trigger] levels[i]->0@[k]
        },
    decreases levels.len(),
{
    if levels.len() > 0 {
        let front = levels.drop_last();
        law_stitch_concatenates(front);
        lemma_bytes_before_prefix(levels, levels.len() - 1);
        lemma_bytes_before_nonneg(levels, levels.len() - 1);
        assert forall|i: int| 0 <= i < front.len() implies front[i] == levels[i] by {}
        if stitched(levels) is Some {
            assert forall|i: int| 0 <= i < levels.len() implies #[trigger] levels[i] is Some by {
                if i < levels.len() - 1 {
                    assert(front[i] is Some);
                }
            }
        }
        if stitched(levels) is Some {
            let data = stitched(levels)->0;
            let fd = stitched(front)->0;
            let n = levels.len() - 1;
            assert(stitched(front) is Some);
            assert(levels[n] is Some);
            assert(data == fd + levels[n]->0@);
            assert(fd.len() == bytes_before(front, n));
            assert forall|i: int, k: int|
                0 <= i < levels.len() && 0 <= k < levels[i]->0@.len() implies data[bytes_before(levels, i)
                + k] == #[trigger] levels[i]->0@[k] by {
                if i == n {
                    assert(data == fd + levels[n]->0@);
                    assert(fd.len() == bytes_before(levels, n));
                    assert(data[bytes_before(levels, n) + k] == levels[n]->0@[k]);
                } else {
                    lemma_bytes_before_prefix(levels, i);
                    assert(fd[bytes_before(front, i) + k] == front[i]->0@[k]);
                    assert(bytes_before(levels, i + 1) == bytes_before(levels, i) + levels[i]->0@.len());
                    lemma_bytes_before_nonneg(front, n);
                    assert(front[i] == levels[i]);
                    assert(bytes_before(levels, i) + k < bytes_before(levels, i + 1));
                    assert(bytes_before(levels, i + 1) <= bytes_before(levels, n)) by {
                        lemma_bytes_before_nonneg(levels, n);
                    }
                    assert(bytes_before(front, i) == bytes_before(levels, i));
                    lemma_bytes_before_nonneg(levels, i);
                    assert(fd.len() == bytes_before(levels, n));
                    assert(0 <= bytes_before(levels, i) + k < fd.len());
                    assert(data[bytes_before(levels, i) + k] == fd[bytes_before(levels, i) + k]);
                }
            }
        }
        if forall|i: int| 0 <= i < levels.len() ==> #[trigger] levels[i] is Some {
            assert(levels[levels.len() - 1] is Some);
            assert forall|i: int| 0 <= i < front.len() implies #[trigger] front[i] is Some by {
                assert(levels[i] is Some);
            }
        }
    }
}

/// Cells are stored row by row: the first cell at 0, the next cell of a row right
/// after, and the same column of the next row one side further on.
pub proof fn law_cells_row_by_row(side: nat, row: int, col: int)
    ensures
        cell(side, 0, 0) == 0,
        cell(side, row, col + 1) == cell(side, row, col) + 1,
        cell(side, row + 1, col) == cell(side, row, col) + side,
{
    assert((row + 1) * side == row * side + side) by (nonlinear_arith);
}

/// A cell is on the border exactly when it is not an interior cell, one whose row and
/// column both lie strictly between the first and the last.
pub proof fn law_border_is_not_interior(side: nat, row: int, col: int)
    requires
        0 <= row < side,
        0 <= col < side,
    ensures
        on_border(side, row, col) <==> !(1 <= row < side - 1 && 1 <= col < side - 1),
{
}

/// Clearing the border sets every cell of the first and last rows and columns to `zero`
/// and keeps every cell whose row and column lie strictly inside.
pub proof fn law_zap_keeps_interior<T>(side: nat, a: Seq<T>, b: Seq<T>, zero: T, row: int, col: int)
    requires
        border_zeroed(side, a, b, zero),
        0 <= row < side,
        0 <= col < side,
    ensures
        row == 0 || row == side - 1 || col == 0 || col == side - 1 ==> b[cell(side, row, col)] == zero,
        1 <= row < side - 1 && 1 <= col < side - 1 ==> b[cell(side, row, col)] == a[cell(side, row, col)],
{
}

/// A rebuilt ocean's meshes start hidden, so every sync that rebuilds also shows the
/// mesh of the chosen mode and hides the others.
pub proof fn law_ocean_rebuild_relayers(last: GlobalSettings, s: GlobalSettings, present: Seq<bool>, i: int)
    requires
        ocean_respawns(last, s),
        s.mesh_mode != UNSET,
        0 <= i < 3,
    ensures
        ocean_layer(last, s, present, i) == Some(if i == s.mesh_mode { 0u32 } else { 1u32 }),
{
}

/// The first ocean sync after start (nothing seen yet) rebuilds the ocean with the chosen
/// cell count and shows the mesh of the chosen mode, hiding the two others; a sync whose
/// cell count is the one last acted on never rebuilds.
pub proof fn law_ocean_first_sync(s: GlobalSettings, last: GlobalSettings, present: Seq<bool>, i: int)
    ensures
        s.mesh_dimension != UNSET && s.mesh_mode != UNSET ==> ocean_respawns(
            GlobalSettings::unset_spec(),
            s,
        ),
        s.mesh_dimension != UNSET && s.mesh_mode != UNSET && 0 <= i < 3 ==> ocean_layer(
            GlobalSettings::unset_spec(),
            s,
            present,
            i,
        ) == Some(if i == s.mesh_mode { 0u32 } else { 1u32 }),
        last.mesh_dimension == s.mesh_dimension ==> !ocean_respawns(last, s),
{
}

} // verus!
