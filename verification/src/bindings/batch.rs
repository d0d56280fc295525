//! Batches: one conversion, applied to every item in order.
use vstd::prelude::*;

verus! {

/// Applies `convert` to each item of `items`. The result at a position comes
/// from the item at that position.
pub fn map_each<A, B, F: Fn(A) -> B>(items: Vec<A>, convert: F) -> (converted: Vec<B>)
    requires
        forall|i: int| 0 <= i < items.len() ==> call_requires(convert, (#[trigger] items[i],)),
    ensures
        converted.len() == items.len(),
        forall|i: int|
            0 <= i < items.len() ==> call_ensures(convert, (items[i],), #[trigger] converted[i]),
{
    let mut converted: Vec<B> = Vec::new();
    for item in it: items
        invariant
            it.seq() == items@,
            converted.len() == it.index(),
            forall|i: int| 0 <= i < items.len() ==> call_requires(convert, (#[trigger] items[i],)),
            forall|i: int|
                0 <= i < converted.len() ==> call_ensures(
                    convert,
                    (items[i],),
                    #[trigger] converted[i],
                ),
    {
        converted.push(convert(item));
    }
    converted
}

} // verus!
