//! A list that keeps its first items in place, and moves to the allocator only when it outgrows
//! them.

use std::io::Write;

use smallvec::SmallVec;
use vstd::prelude::*;
use vstd::string::StringSliceAdditionalSpecFns;

verus! {

/// The storage of a `SmallList`.
#[verifier::external_body]
#[verifier::reject_recursive_types(T)]
struct Storage<T, const N: usize>(SmallVec<[T; N]>);

/// A list of any length, the first `N` of whose items need no allocation.
///
/// `held` records what `storage` holds. Only the functions of this file that call `smallvec`
/// reach either, and each of them accounts for both.
#[verifier::reject_recursive_types(T)]
pub struct SmallList<T, const N: usize> {
    storage: Storage<T, N>,
    held: Ghost<Seq<T>>,
}

impl<T, const N: usize> View for SmallList<T, N> {
    type V = Seq<T>;

    closed spec fn view(&self) -> Seq<T> {
        self.held@
    }
}

impl<T, const N: usize> SmallList<T, N> {
    /// Calls `SmallVec::new`: a vector that holds nothing.
    #[verifier::external_body]
    pub(crate) fn empty() -> (list: Self)
        ensures
            list@ == Seq::<T>::empty(),
    {
        SmallList { storage: Storage(SmallVec::new()), held: Ghost(Seq::empty()) }
    }

    /// Calls `SmallVec::push`: the item joins the others, after the last.
    #[verifier::external_body]
    pub(crate) fn append(&mut self, item: T)
        ensures
            final(self)@ == old(self)@.push(item),
    {
        self.storage.0.push(item)
    }

    /// Calls `SmallVec::as_slice`: a slice of all the items, in order.
    #[verifier::external_body]
    pub(crate) fn slice(&self) -> (items: &[T])
        ensures
            items@ == self@,
    {
        self.storage.0.as_slice()
    }

    /// Calls `SmallVec::as_mut_slice`: a slice of all the items, in order, through which they can
    /// be changed but neither added nor taken away.
    #[verifier::external_body]
    pub(crate) fn slice_mut(&mut self) -> (items: &mut [T])
        ensures
            items@ == old(self)@,
            final(self)@ == final(items)@,
    {
        self.storage.0.as_mut_slice()
    }

    /// Calls `SmallVec::into_vec`: all the items, in order, in a `Vec`.
    #[verifier::external_body]
    pub(crate) fn unload(self) -> (items: Vec<T>)
        ensures
            items@ == self@,
    {
        self.storage.0.into_vec()
    }

    /// Makes a list that holds nothing.
    pub fn new() -> (list: Self)
        ensures
            list@ == Seq::<T>::empty(),
    {
        Self::empty()
    }

    /// Makes a list of `items`.
    pub fn collect(items: Vec<T>) -> (list: Self)
        ensures
            list@ == items@,
    {
        let mut list: Self = Self::empty();
        let ghost all = items@;
        for item in it: items
            invariant
                it.seq() == all,
                list@ =~= all.take(it.index() as int),
        {
            list.append(item);
        }
        list
    }

    /// Adds an item after the last.
    pub fn push(&mut self, item: T)
        ensures
            final(self)@ == old(self)@.push(item),
    {
        self.append(item)
    }

    /// All the items, in order.
    pub fn as_slice(&self) -> (items: &[T])
        ensures
            items@ == self@,
    {
        self.slice()
    }

    /// All the items, in order, to be kept.
    pub fn into_vec(self) -> (items: Vec<T>)
        ensures
            items@ == self@,
    {
        self.unload()
    }
}

impl<const N: usize> SmallList<u8, N> {
    /// Calls `write!` on the `SmallVec`, which is to say `write_all` of its `std::io::Write`: the
    /// bytes of the text join the others, after the last, and that never fails.
    #[verifier::external_body]
    pub(crate) fn append_text(&mut self, text: &str)
        ensures
            final(self)@ == old(self)@ + text.spec_bytes(),
    {
        write!(&mut self.storage.0, "{}", text).unwrap()
    }
}

} // verus!
