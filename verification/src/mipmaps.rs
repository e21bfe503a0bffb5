use vstd::prelude::*;

verus! {

/// The bytes of the mip levels laid end to end, largest level first; nothing
/// while some level has no data yet.
pub open spec fn stitched(levels: Seq<Option<Vec<u8>>>) -> Option<Seq<u8>>
    decreases levels.len(),
{
    if levels.len() == 0 {
        Some(Seq::empty())
    } else {
        match (stitched(levels.drop_last()), levels.last()) {
            (Some(front), Some(data)) => Some(front + data@),
            _ => None,
        }
    }
}

/// Joins the data of the mip levels of a texture, largest first, into the data of one
/// image with all levels; `None` while some level has no data.
pub fn stitch_mip_levels(levels: &[Option<Vec<u8>>]) -> (r: Option<Vec<u8>>)
    ensures
        match r {
            Some(data) => stitched(levels@) == Some(data@),
            None => stitched(levels@) is None,
        },
{
    let mut combined: Vec<u8> = Vec::new();
    let mut i: usize = 0;
    while i < levels.len()
        invariant
            i <= levels@.len(),
            stitched(levels@.take(i as int)) == Some(combined@),
        decreases levels@.len() - i,
    {
        assert(levels@.take(i + 1).drop_last() =~= levels@.take(i as int));
        match &levels[i] {
            Some(data) => {
                let ghost before = combined@;
                let mut k: usize = 0;
                while k < data.len()
                    invariant
                        k <= data@.len(),
                        combined@ == before + data@.take(k as int),
                    decreases data@.len() - k,
                {
                    combined.push(data[k]);
                    k = k + 1;
                    assert(combined@ =~= before + data@.take(k as int));
                }
                assert(data@.take(data@.len() as int) =~= data@);
            },
            None => {
                proof {
                    lemma_stitched_missing(levels@, i as int);
                }
                return None;
            },
        }
        i = i + 1;
    }
    assert(levels@.take(levels@.len() as int) =~= levels@);
    Some(combined)
}

/// A level without data at position `i` leaves the whole stitch without data.
proof fn lemma_stitched_missing(levels: Seq<Option<Vec<u8>>>, i: int)
    requires
        0 <= i < levels.len(),
        levels[i] is None,
    ensures
        stitched(levels) is None,
    decreases levels.len(),
{
    if i < levels.len() - 1 {
        lemma_stitched_missing(levels.drop_last(), i);
    }
}

} // verus!
