//! `Rest`: the trailing arguments of a call, however many there are.

use std::ops::{Deref, DerefMut};

use vstd::prelude::*;
use vstd::std_specs::iter::IteratorSpec;

use crate::slice_mut::each_mut;
use crate::small::SmallList;

verus! {

/// An adapter type which collects any number of trailing function arguments.
///
/// Where it is the type of the last parameter of a host function, it collects all the arguments
/// that the parameters before it have left. It can be dereferenced to a slice, so that its items
/// can be read, changed and indexed, and it is iterable, yielding `T`, `&T` or `&mut T` as
/// appropriate.
#[verifier::reject_recursive_types(T)]
pub struct Rest<'a, T>(&'a mut SmallList<T, 8>);

impl<'a, T> Rest<'a, T> {
    /// What has been collected, in order.
    pub closed spec fn items(self) -> Seq<T> {
        self.0@
    }

    /// Collects what `list` holds.
    pub(crate) fn of(list: &'a mut SmallList<T, 8>) -> (rest: Rest<'a, T>)
        ensures
            rest.items() == old(list)@,
    {
        Rest(list)
    }

    /// Collects all that `src` yields, and calls `f` with it.
    pub fn with<S, F, R>(src: S, f: F) -> (r: R) where
        S: Iterator<Item = T>,
        F: FnOnce(Rest<T>) -> R,

        requires
            src.obeys_prophetic_iter_laws(),
            src.decrease() is Some,
            forall|rest: Rest<T>|
                rest.items() == src.remaining() ==> #[trigger] call_requires(f, (rest,)),
        ensures
            exists|rest: Rest<T>|
                rest.items() == src.remaining() && #[trigger] call_ensures(f, (rest,), r),
    {
        let ghost all = src.remaining();
        let mut left = src;
        let mut list: SmallList<T, 8> = SmallList::new();
        loop
            invariant
                left.obeys_prophetic_iter_laws(),
                left.decrease() is Some,
                list@ + left.remaining() =~= all,
            ensures
                list@ == all,
            decreases left.decrease()->0,
        {
            let ghost before = left.remaining();
            let ghost held = list@;
            match left.next() {
                Some(item) => {
                    list.push(item);
                    assert(list@ + left.remaining() =~= held + before);
                },
                None => {
                    assert(list@ =~= all);
                    break;
                },
            }
        }
        let rest = Rest(&mut list);
        assert(rest.items() == all);
        assert(call_requires(f, (rest,)));
        f(rest)
    }

    /// What has been collected, in order.
    pub(crate) fn as_items(&self) -> (items: &[T])
        ensures
            items@ == self.items(),
    {
        self.0.slice()
    }

    /// What has been collected, in order, to be changed.
    pub(crate) fn as_items_mut(&mut self) -> (items: &mut [T])
        ensures
            items@ == old(self).items(),
            final(self).items() == final(items)@,
    {
        self.0.slice_mut()
    }

    /// What has been collected, in order, to be kept.
    pub fn into_vec(self) -> (items: Vec<T>)
        ensures
            items@ == self.items(),
    {
        let mut list: SmallList<T, 8> = SmallList::new();
        std::mem::swap(&mut list, self.0);
        list.into_vec()
    }
}

impl<'a, T> Deref for Rest<'a, T> {
    type Target = [T];

    fn deref(&self) -> (items: &[T])
        ensures
            items@ == self.items(),
    {
        self.as_items()
    }
}

impl<'a, T> DerefMut for Rest<'a, T> {
    fn deref_mut(&mut self) -> (items: &mut [T])
        ensures
            items@ == old(self).items(),
            final(self).items() == final(items)@,
    {
        self.as_items_mut()
    }
}

impl<'a, T> IntoIterator for Rest<'a, T> {
    type Item = T;

    type IntoIter = std::vec::IntoIter<T>;

    fn into_iter(self) -> (iter: std::vec::IntoIter<T>)
        ensures
            iter.remaining() == self.items(),
            iter.decrease() is Some,
    {
        self.into_vec().into_iter()
    }
}

impl<'r, 'a, T> IntoIterator for &'r Rest<'a, T> {
    type Item = &'r T;

    type IntoIter = std::slice::Iter<'r, T>;

    fn into_iter(self) -> (iter: std::slice::Iter<'r, T>)
        ensures
            iter.remaining() == self.items().as_ref(),
            iter.decrease() is Some,
    {
        self.0.slice().iter()
    }
}

impl<'r, 'a, T> IntoIterator for &'r mut Rest<'a, T> {
    type Item = &'r mut T;

    type IntoIter = std::slice::IterMut<'r, T>;

    fn into_iter(self) -> (iter: std::slice::IterMut<'r, T>)
        ensures
            iter.obeys_prophetic_iter_laws(),
            iter.decrease() is Some,
            iter.remaining().len() == old(self).items().len(),
            final(self).items().len() == iter.remaining().len(),
            forall|i: int|
                #![trigger iter.remaining()[i]]
                #![trigger final(self).items()[i]]
                0 <= i < iter.remaining().len() ==> *iter.remaining()[i] == old(self).items()[i]
                    && *final(iter.remaining()[i]) == final(self).items()[i],
    {
        each_mut(self.0.slice_mut())
    }
}

} // verus!
