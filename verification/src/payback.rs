use vstd::prelude::*;

use crate::double::Double;
use crate::double::is_positive;

verus! {

/// The index at which an investment is recovered: the first entry of
/// `cumulative` - the running totals of the cash flows, as the caller summed
/// them - whose value compares strictly greater than zero. `None` when no
/// entry does: the flows never pay the outlay back.
pub fn first_recovery(cumulative: &Vec<Double>) -> (r: Option<usize>)
    ensures
        match r {
            Some(i) => {
                &&& i < cumulative@.len()
                &&& is_positive(cumulative@[i as int].bits)
                &&& forall|j: int|
                    0 <= j < i ==> !is_positive((#[trigger] cumulative@[j]).bits)
            },
            None => forall|j: int|
                0 <= j < cumulative@.len() ==> !is_positive((#[trigger] cumulative@[j]).bits),
        },
{
    let mut i: usize = 0;
    while i < cumulative.len()
        invariant
            0 <= i <= cumulative@.len(),
            forall|j: int| 0 <= j < i ==> !is_positive((#[trigger] cumulative@[j]).bits),
        decreases cumulative@.len() - i,
    {
        if cumulative[i].is_positive() {
            return Some(i);
        }
        i = i + 1;
    }
    None
}

} // verus!
