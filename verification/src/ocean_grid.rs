use vstd::prelude::*;

verus! {

/// Linear position of the cell at `row`, `col` in a square grid stored row by row.
pub open spec fn cell(side: nat, row: int, col: int) -> int {
    row * side + col
}

/// Whether the cell at `row`, `col` lies on the outer border of a grid of `side` cells a side.
pub open spec fn on_border(side: nat, row: int, col: int) -> bool {
    row == 0 || row == side - 1 || col == 0 || col == side - 1
}

/// `after` is `before` with every border cell of the `side` x `side` grid set to `zero`
/// and every interior cell left as it was.
pub open spec fn border_zeroed<T>(side: nat, before: Seq<T>, after: Seq<T>, zero: T) -> bool {
    &&& after.len() == before.len()
    &&& forall|r: int, c: int|
        0 <= r < side && 0 <= c < side ==> #[trigger] after[cell(side, r, c)] == if on_border(
            side,
            r,
            c,
        ) {
            zero
        } else {
            before[cell(side, r, c)]
        }
}

/// Two in-range coordinate pairs name the same cell only if they are equal,
/// and every in-range cell lies inside the storage.
pub proof fn lemma_cell_unique(side: nat, r1: int, c1: int, r2: int, c2: int)
    requires
        0 <= r1 < side,
        0 <= c1 < side,
        0 <= r2 < side,
        0 <= c2 < side,
    ensures
        0 <= cell(side, r1, c1) < side * side,
        cell(side, r1, c1) == cell(side, r2, c2) ==> r1 == r2 && c1 == c2,
{
    assert(0 <= r1 * side) by (nonlinear_arith)
        requires
            0 <= r1,
            0 <= side,
    ;
    assert(r1 * side + c1 < side * side) by (nonlinear_arith)
        requires
            0 <= r1 < side,
            0 <= c1 < side,
    ;
    if cell(side, r1, c1) == cell(side, r2, c2) {
        vstd::arithmetic::div_mod::lemma_fundamental_div_mod_converse(
            cell(side, r1, c1),
            side as int,
            r1,
            c1,
        );
        vstd::arithmetic::div_mod::lemma_fundamental_div_mod_converse(
            cell(side, r2, c2),
            side as int,
            r2,
            c2,
        );
    }
}


/// Writing one cell leaves every other cell of the grid as it was.
proof fn lemma_write_cell<T>(before: Seq<T>, after: Seq<T>, side: nat, p: int, q: int, v: T)
    requires
        before.len() == side * side,
        0 <= p < side,
        0 <= q < side,
        after == before.update(cell(side, p, q), v),
    ensures
        after.len() == side * side,
        forall|r: int, c: int|
            0 <= r < side && 0 <= c < side ==> #[trigger] after[cell(side, r, c)] == if r == p
                && c == q {
                v
            } else {
                before[cell(side, r, c)]
            },
{
    lemma_cell_unique(side, p, q, p, q);
    assert forall|r: int, c: int| 0 <= r < side && 0 <= c < side implies #[trigger] after[cell(
        side,
        r,
        c,
    )] == if r == p && c == q {
        v
    } else {
        before[cell(side, r, c)]
    } by {
        lemma_cell_unique(side, r, c, p, q);
        lemma_cell_unique(side, p, q, r, c);
    }
}

/// Border cells that the edge-clearing loop has written once it has handled
/// rows and columns `1 .. done`.
spec fn edge_done(side: nat, done: int, row: int, col: int) -> bool {
    ||| 1 <= row < done && (col == 0 || col == side - 1)
    ||| 1 <= col < done && (row == 0 || row == side - 1)
}

/// A square grid of `side * side` cells with two buffers: the heights of the
/// present step (`current`) and those of the step being computed (`next`).
pub struct OceanGrid<T> {
    current: Vec<T>,
    next: Vec<T>,
    side: usize,
}

impl<T> OceanGrid<T> {
    #[verifier::type_invariant]
    spec fn sized(self) -> bool {
        &&& self.current@.len() == self.side * self.side
        &&& self.next@.len() == self.side * self.side
    }

    /// Cells per side.
    pub closed spec fn side_len(self) -> nat {
        self.side as nat
    }

    /// The present buffer, row by row.
    pub closed spec fn current_cells(self) -> Seq<T> {
        self.current@
    }

    /// The buffer being computed, row by row.
    pub closed spec fn next_cells(self) -> Seq<T> {
        self.next@
    }
}

impl<T: Copy> OceanGrid<T> {
    /// A grid of `side * side` cells whose two buffers hold `fill` everywhere.
    pub fn new(side: usize, fill: T) -> (g: Self)
        requires
            side * side <= usize::MAX,
        ensures
            g.side_len() == side,
            g.current_cells() == Seq::new((side * side) as nat, |i: int| fill),
            g.next_cells() == Seq::new((side * side) as nat, |i: int| fill),
    {
        let count = side * side;
        let mut current: Vec<T> = Vec::new();
        let mut next: Vec<T> = Vec::new();
        let mut k: usize = 0;
        while k < count
            invariant
                k <= count,
                current@ == Seq::new(k as nat, |i: int| fill),
                next@ == Seq::new(k as nat, |i: int| fill),
            decreases count - k,
        {
            current.push(fill);
            next.push(fill);
            k = k + 1;
        }
        OceanGrid { current, next, side }
    }

    /// Cells per side.
    pub fn size(&self) -> (n: usize)
        ensures
            n == self.side_len(),
            self.current_cells().len() == n * n,
            self.next_cells().len() == n * n,
    {
        proof {
            use_type_invariant(self);
        }
        self.side
    }

    /// Linear position of the cell at `row`, `col`.
    pub fn index(&self, row: usize, col: usize) -> (i: usize)
        requires
            row < self.side_len(),
            col < self.side_len(),
        ensures
            i == cell(self.side_len(), row as int, col as int),
            i < self.current_cells().len(),
    {
        proof {
            use_type_invariant(self);
            lemma_cell_unique(self.side as nat, row as int, col as int, row as int, col as int);
            assert(self.current.len() == self.current@.len());
            assert(row * self.side <= row * self.side + col);
        }
        row * self.side + col
    }

    /// Present value at linear position `i`.
    pub fn current_at(&self, i: usize) -> (v: &T)
        requires
            i < self.current_cells().len(),
        ensures
            *v == self.current_cells()[i as int],
    {
        &self.current[i]
    }

    /// Value being computed at linear position `i`.
    pub fn next_at(&self, i: usize) -> (v: &T)
        requires
            i < self.next_cells().len(),
        ensures
            *v == self.next_cells()[i as int],
    {
        &self.next[i]
    }

    /// Writes the present value at linear position `i`.
    pub fn set_current(&mut self, i: usize, v: T)
        requires
            i < old(self).current_cells().len(),
        ensures
            final(self).side_len() == old(self).side_len(),
            final(self).current_cells() == old(self).current_cells().update(i as int, v),
            final(self).next_cells() == old(self).next_cells(),
    {
        proof {
            use_type_invariant(&*self);
        }
        self.current[i] = v;
    }

    /// Writes the value being computed at linear position `i`.
    pub fn set_next(&mut self, i: usize, v: T)
        requires
            i < old(self).next_cells().len(),
        ensures
            final(self).side_len() == old(self).side_len(),
            final(self).current_cells() == old(self).current_cells(),
            final(self).next_cells() == old(self).next_cells().update(i as int, v),
    {
        proof {
            use_type_invariant(&*self);
        }
        self.next[i] = v;
    }

    /// Sets every border cell of the present buffer to `zero`; the interior and
    /// the other buffer keep their values.
    pub fn zap_edges(&mut self, zero: T)
        requires
            old(self).side_len() >= 1,
        ensures
            final(self).side_len() == old(self).side_len(),
            final(self).next_cells() == old(self).next_cells(),
            border_zeroed(old(self).side_len(), old(self).current_cells(), final(self).current_cells(), zero),
    {
        proof {
            use_type_invariant(&*self);
        }
        let ghost before = self.current@;
        assert(self.current.len() == self.current@.len());
        let s = self.side;
        let ghost sn = s as nat;
        let left_column: usize = 0;
        let right_column: usize = s - 1;
        let top_row: usize = 0;
        let bottom_row: usize = s - 1;
        let mut n: usize = 1;
        while n + 1 < s
            invariant
                self.side == s,
                sn == s,
                sn * sn <= usize::MAX,
                left_column == 0,
                top_row == 0,
                right_column == s - 1,
                bottom_row == s - 1,
                1 <= n <= s || s == 1,
                n == 1 || n < s,
                self.current@.len() == sn * sn,
                self.next@ == old(self).next@,
                self.next@.len() == sn * sn,
                before == old(self).current@,
                forall|r: int, c: int|
                    0 <= r < sn && 0 <= c < sn ==> #[trigger] self.current@[cell(sn, r, c)] == if edge_done(
                        sn,
                        n as int,
                        r,
                        c,
                    ) {
                        zero
                    } else {
                        before[cell(sn, r, c)]
                    },
            decreases s - n,
        {
            let ghost s0 = self.current@;
            proof {
                lemma_cell_unique(sn, n as int, 0, n as int, 0);
                lemma_cell_unique(sn, n as int, s - 1, n as int, s - 1);
                lemma_cell_unique(sn, 0, n as int, 0, n as int);
                lemma_cell_unique(sn, s - 1, n as int, s - 1, n as int);
                assert(n * s <= n * s + right_column);
                assert((s - 1) * s <= (s - 1) * s + n);
            }
            let row = n;
            self.current[row * s + left_column] = zero;
            let ghost s1 = self.current@;
            proof {
                lemma_write_cell(s0, s1, sn, n as int, 0, zero);
            }
            self.current[row * s + right_column] = zero;
            let ghost s2 = self.current@;
            proof {
                lemma_write_cell(s1, s2, sn, n as int, s - 1, zero);
            }
            let col = n;
            self.current[top_row * s + col] = zero;
            let ghost s3 = self.current@;
            proof {
                lemma_write_cell(s2, s3, sn, 0, n as int, zero);
            }
            self.current[bottom_row * s + col] = zero;
            let ghost s4 = self.current@;
            proof {
                lemma_write_cell(s3, s4, sn, s - 1, n as int, zero);
            }
            n = n + 1;
        }
        let ghost t0 = self.current@;
        proof {
            lemma_cell_unique(sn, 0, 0, 0, 0);
            lemma_cell_unique(sn, 0, s - 1, 0, s - 1);
            lemma_cell_unique(sn, s - 1, 0, s - 1, 0);
            lemma_cell_unique(sn, s - 1, s - 1, s - 1, s - 1);
            assert((s - 1) * s <= (s - 1) * s + (s - 1));
        }
        self.current[top_row * s + left_column] = zero;
        let ghost t1 = self.current@;
        proof {
            lemma_write_cell(t0, t1, sn, 0, 0, zero);
        }
        self.current[top_row * s + right_column] = zero;
        let ghost t2 = self.current@;
        proof {
            lemma_write_cell(t1, t2, sn, 0, s - 1, zero);
        }
        self.current[bottom_row * s + left_column] = zero;
        let ghost t3 = self.current@;
        proof {
            lemma_write_cell(t2, t3, sn, s - 1, 0, zero);
        }
        self.current[bottom_row * s + right_column] = zero;
        let ghost t4 = self.current@;
        proof {
            lemma_write_cell(t3, t4, sn, s - 1, s - 1, zero);
            assert(t4 == self.current@);
        }
    }

    /// Exchanges the two buffers: what was being computed becomes the present step.
    pub fn swap(&mut self)
        ensures
            final(self).side_len() == old(self).side_len(),
            final(self).current_cells() == old(self).next_cells(),
            final(self).next_cells() == old(self).current_cells(),
    {
        proof {
            use_type_invariant(&*self);
        }
        std::mem::swap(&mut self.current, &mut self.next);
    }
}

} // verus!
