//! Small helpers on vectors.

use vstd::prelude::*;

verus! {

/// The items of `items` in the opposite order.
///
/// Popping from the result hands the items out first to last, by value.
pub fn reversed<T>(items: Vec<T>) -> (out: Vec<T>)
    ensures
        out@.len() == items@.len(),
        forall|i: int| 0 <= i < items@.len() ==> out@[i] == items@[items@.len() - 1 - i],
{
    let ghost all = items@;
    let mut items = items;
    let mut out: Vec<T> = Vec::new();
    while items.len() > 0
        invariant
            items@.len() + out@.len() == all.len(),
            items@ == all.take(items@.len() as int),
            forall|i: int| 0 <= i < out@.len() ==> out@[i] == all[all.len() - 1 - i],
        decreases items@.len(),
    {
        let item = items.pop().unwrap();
        proof {
            assert(items@ =~= all.take(items@.len() as int));
        }
        out.push(item);
    }
    out
}

} // verus!
