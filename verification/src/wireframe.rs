use vstd::prelude::*;

verus! {

/// The line-list indices of the first `k` triangles of a triangle list: each
/// triangle `a, b, c` gives its three edges `a-b, b-c, c-a`.
pub open spec fn triangle_edges(ind: Seq<usize>, k: nat) -> Seq<u32>
    decreases k,
{
    if k == 0 {
        Seq::empty()
    } else {
        let b = 3 * (k - 1);
        triangle_edges(ind, (k - 1) as nat) + seq![
            ind[b] as u32,
            ind[b + 1] as u32,
            ind[b + 1] as u32,
            ind[b + 2] as u32,
            ind[b + 2] as u32,
            ind[b] as u32,
        ]
    }
}

/// Turns the indices of a triangle list into those of the list of its edges,
/// six per complete triangle; indices after the last complete triangle are dropped.
pub fn wireframe_line_indices(indices: &[usize]) -> (lines: Vec<u32>)
    requires
        indices@.len() / 3 * 6 <= usize::MAX,
    ensures
        lines@ == triangle_edges(indices@, (indices@.len() / 3) as nat),
        lines@.len() == indices@.len() / 3 * 6,
{
    let mut lines: Vec<u32> = Vec::new();
    let mut p: usize = 0;
    let ghost mut k: nat = 0;
    while indices.len() - p >= 3
        invariant
            p == 3 * k,
            p <= indices@.len(),
            lines@ == triangle_edges(indices@, k),
            lines@.len() == 6 * k,
        decreases indices@.len() - p,
    {
        let a = indices[p];
        let b = indices[p + 1];
        let c = indices[p + 2];
        let a32: u32 = #[verifier::truncate] (a as u32);
        let b32: u32 = #[verifier::truncate] (b as u32);
        let c32: u32 = #[verifier::truncate] (c as u32);
        lines.push(a32);
        lines.push(b32);
        lines.push(b32);
        lines.push(c32);
        lines.push(c32);
        lines.push(a32);
        proof {
            k = k + 1;
        }
        p = p + 3;
    }
    assert(k == indices@.len() / 3);
    lines
}

} // verus!
