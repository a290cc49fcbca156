//! Walking a slice by mutable reference.

use vstd::prelude::*;
use vstd::std_specs::iter::IteratorSpec;

verus! {

/// `std::slice::IterMut`: the items of a slice that are still to come, each by mutable reference.
#[verifier::external_type_specification]
#[verifier::external_body]
#[verifier::reject_recursive_types(T)]
pub struct ExIterMut<'a, T: 'a>(std::slice::IterMut<'a, T>);

/// `IterMut::next`: does what every `next` does, and promises nothing beyond.
pub assume_specification<'a, T>[ <std::slice::IterMut<'a, T> as std::iter::Iterator>::next ](
    iter: &mut std::slice::IterMut<'a, T>,
) -> (item: Option<&'a mut T>);

/// Calls `slice::iter_mut`: an iterator that yields a mutable reference to every item once, from
/// the first to the last, and then ends. What each of these references is left with in the end is
/// what the slice is left with in its place.
#[verifier::external_body]
pub(crate) fn each_mut<'a, T>(items: &'a mut [T]) -> (iter: std::slice::IterMut<'a, T>)
    ensures
        iter.obeys_prophetic_iter_laws(),
        iter.decrease() is Some,
        iter.remaining().len() == old(items)@.len(),
        final(items)@.len() == iter.remaining().len(),
        forall|i: int|
            #![trigger iter.remaining()[i]]
            #![trigger final(items)@[i]]
            0 <= i < iter.remaining().len() ==> *iter.remaining()[i] == old(items)@[i]
                && *final(iter.remaining()[i]) == final(items)@[i],
{
    items.iter_mut()
}

} // verus!
