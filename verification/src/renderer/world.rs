//! How a world of splats hands out splat identifiers and finds a splat by
//! its identifier. The splats themselves hold floating-point data, so the
//! world reads their identifiers out and asks these functions.
use vstd::prelude::*;

verus! {

/// A fresh identifier: the counter's value, and the counter moved on by one.
pub fn take_next_id(next_id: u64) -> (r: (u64, u64))
    requires
        next_id < u64::MAX,
    ensures
        r == (next_id, (next_id + 1) as u64),
{
    (next_id, next_id + 1)
}

/// The identifier a splat keeps when it is added: its own, unless that is 0,
/// in which case it gets a fresh one from the counter. Returns the identifier
/// and the counter after.
pub fn assign_splat_id(requested: u64, next_id: u64) -> (r: (u64, u64))
    requires
        requested == 0 ==> next_id < u64::MAX,
    ensures
        requested != 0 ==> r == (requested, next_id),
        requested == 0 ==> r == (next_id, (next_id + 1) as u64),
{
    if requested == 0 {
        take_next_id(next_id)
    } else {
        (requested, next_id)
    }
}

/// The position of the first identifier equal to `id`, if any.
pub fn position_of_id(ids: &Vec<u64>, id: u64) -> (r: Option<usize>)
    ensures
        match r {
            Some(k) => k < ids.len() && ids@[k as int] == id && forall|j: int|
                0 <= j < k ==> #[trigger] ids@[j] != id,
            None => !ids@.contains(id),
        },
{
    let mut i: usize = 0;
    while i < ids.len()
        invariant
            i <= ids.len(),
            forall|j: int| 0 <= j < i ==> #[trigger] ids@[j] != id,
        decreases ids.len() - i,
    {
        if ids[i] == id {
            return Some(i);
        }
        i = i + 1;
    }
    None
}

} // verus!
