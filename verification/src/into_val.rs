//! `IntoVal`: from host types to values.

use vstd::prelude::*;

use crate::error::{GError, GResult};
use crate::store::{Heap, Store};
use crate::value::{Slot, Val};

verus! {

/// A type whose values can be converted to values of the scripting language.
///
/// A conversion may put new objects on the heap. What it returns and what it leaves on the heap
/// are a function of the host value and of the heap as it was.
///
/// A mutable reference is converted by `IntoValMut`, which its type implements instead.
pub trait IntoVal: Sized {
    /// What the conversion leaves on the heap, and what it returns.
    spec fn to_val(self, h: Store) -> (Store, GResult<Val>);

    /// Converts to a value.
    fn into_val(self, heap: &mut Heap) -> (r: GResult<Val>)
        ensures
            (final(heap)@, r) == self.to_val(old(heap)@),
    ;

    /// Converts to a slot: the one that holds the value which `into_val` gives.
    fn into_slot(self, heap: &mut Heap) -> (r: GResult<Slot>)
        ensures
            (final(heap)@, r) == slotted(self.to_val(old(heap)@)),
    {
        match self.into_val(heap) {
            Ok(val) => Ok(Slot::from_val(&val)),
            Err(e) => Err(e),
        }
    }
}

/// A type whose values can be converted by mutable reference.
///
/// Implementing this trait for a type gives `IntoVal` to mutable references to it, and lets a
/// mutable reference to a collection convert its items by mutable reference, one by one.
pub trait IntoValMut: Sized {
    /// What the conversion leaves on the heap, and what it returns.
    spec fn mut_to_val(self, h: Store) -> (Store, GResult<Val>);

    /// `after` is what the conversion may leave of this.
    spec fn leaves(self, h: Store, after: Self) -> bool;

    /// Converts to a value, by mutable reference.
    fn into_val_mut(&mut self, heap: &mut Heap) -> (r: GResult<Val>)
        ensures
            (final(heap)@, r) == (*old(self)).mut_to_val(old(heap)@),
            (*old(self)).leaves(old(heap)@, *final(self)),
    ;
}

impl<'a, T: IntoValMut> IntoVal for &'a mut T {
    open spec fn to_val(self, h: Store) -> (Store, GResult<Val>) {
        (*self).mut_to_val(h)
    }

    fn into_val(self, heap: &mut Heap) -> (r: GResult<Val>)
        ensures
            (*old(self)).leaves(old(heap)@, *final(self)),
    {
        self.into_val_mut(heap)
    }

    fn into_slot(self, heap: &mut Heap) -> (r: GResult<Slot>)
        ensures
            (*old(self)).leaves(old(heap)@, *final(self)),
    {
        match self.into_val_mut(heap) {
            Ok(val) => Ok(Slot::from_val(&val)),
            Err(e) => Err(e),
        }
    }
}

/// A conversion to a value, carried on to the slot that holds it.
pub open spec fn slotted(outcome: (Store, GResult<Val>)) -> (Store, GResult<Slot>) {
    match outcome.1 {
        Ok(v) => (outcome.0, Ok(v.slot())),
        Err(e) => (outcome.0, Err(e)),
    }
}

/// A run of conversions that has not begun.
pub open spec fn started(h: Store) -> (Store, GResult<Seq<Slot>>) {
    (h, Ok(seq![]))
}

/// A run of conversions, carried on by one item: where it has failed already, nothing more
/// happens; else the item's slot joins those before it, or its error ends the run.
pub open spec fn joined<T: IntoVal>(run: (Store, GResult<Seq<Slot>>), item: T) -> (
    Store,
    GResult<Seq<Slot>>,
) {
    match run.1 {
        Err(_) => run,
        Ok(slots) => {
            let (h, r) = slotted(item.to_val(run.0));
            match r {
                Ok(slot) => (h, Ok(slots.push(slot))),
                Err(e) => (h, Err(e)),
            }
        },
    }
}

/// A run of conversions, carried on by all of `items` in their order.
pub open spec fn joined_all<T: IntoVal>(run: (Store, GResult<Seq<Slot>>), items: Seq<T>) -> (
    Store,
    GResult<Seq<Slot>>,
)
    decreases items.len(),
{
    if items.len() == 0 {
        run
    } else {
        joined(joined_all(run, items.drop_last()), items.last())
    }
}

/// A run of conversions, carried on by one item that is converted by mutable reference.
pub open spec fn mut_joined<T: IntoValMut>(run: (Store, GResult<Seq<Slot>>), item: T) -> (
    Store,
    GResult<Seq<Slot>>,
) {
    match run.1 {
        Err(_) => run,
        Ok(slots) => {
            let (h, r) = slotted(item.mut_to_val(run.0));
            match r {
                Ok(slot) => (h, Ok(slots.push(slot))),
                Err(e) => (h, Err(e)),
            }
        },
    }
}

/// A run of conversions, carried on by all of `items` in their order, each by mutable reference.
pub open spec fn mut_joined_all<T: IntoValMut>(
    run: (Store, GResult<Seq<Slot>>),
    items: Seq<T>,
) -> (Store, GResult<Seq<Slot>>)
    decreases items.len(),
{
    if items.len() == 0 {
        run
    } else {
        mut_joined(mut_joined_all(run, items.drop_last()), items.last())
    }
}

/// `after` is what may be left of `item` when a run is carried on by it: what its conversion
/// leaves, or the item itself where the run has failed already.
pub open spec fn mut_left<T: IntoValMut>(
    run: (Store, GResult<Seq<Slot>>),
    item: T,
    after: T,
) -> bool {
    if run.1 is Ok {
        item.leaves(run.0, after)
    } else {
        after == item
    }
}

/// `after` is what may be left of `items` when a run is carried on by all of them.
pub open spec fn mut_left_all<T: IntoValMut>(
    run: (Store, GResult<Seq<Slot>>),
    items: Seq<T>,
    after: Seq<T>,
) -> bool {
    &&& after.len() == items.len()
    &&& forall|i: int|
        0 <= i < items.len() ==> mut_left(
            mut_joined_all(run, items.take(i)),
            items[i],
            #[trigger] after[i],
        )
}

/// A run of conversions, ended: its slots become the items of a new array.
pub open spec fn packed(run: (Store, GResult<Seq<Slot>>)) -> (Store, GResult<Val>) {
    match run.1 {
        Ok(slots) => (run.0.with_arr(slots), Ok(Val::Arr(run.0.next_arr()))),
        Err(e) => (run.0, Err(e)),
    }
}

/// What a vector of slots holds, where there is one.
pub open spec fn seen(r: GResult<Vec<Slot>>) -> GResult<Seq<Slot>> {
    match r {
        Ok(slots) => Ok(slots@),
        Err(e) => Err(e),
    }
}

/// A run that has failed stays as it is.
pub(crate) proof fn lemma_joined_all_failed<T: IntoVal>(
    run: (Store, GResult<Seq<Slot>>),
    items: Seq<T>,
    k: int,
)
    requires
        0 <= k <= items.len(),
        joined_all(run, items.take(k)).1 is Err,
    ensures
        joined_all(run, items) == joined_all(run, items.take(k)),
    decreases items.len(),
{
    if k < items.len() {
        assert(items.drop_last().take(k) =~= items.take(k));
        lemma_joined_all_failed(run, items.drop_last(), k);
    } else {
        assert(items.take(k) =~= items);
    }
}

/// A run by mutable reference that has failed stays as it is.
pub(crate) proof fn lemma_mut_joined_all_failed<T: IntoValMut>(
    run: (Store, GResult<Seq<Slot>>),
    items: Seq<T>,
    k: int,
)
    requires
        0 <= k <= items.len(),
        mut_joined_all(run, items.take(k)).1 is Err,
    ensures
        mut_joined_all(run, items) == mut_joined_all(run, items.take(k)),
    decreases items.len(),
{
    if k < items.len() {
        assert(items.drop_last().take(k) =~= items.take(k));
        lemma_mut_joined_all_failed(run, items.drop_last(), k);
    } else {
        assert(items.take(k) =~= items);
    }
}

/// Carries a run of conversions on by one item, by mutable reference.
pub(crate) fn mut_join<T: IntoValMut>(
    run: GResult<Vec<Slot>>,
    item: &mut T,
    heap: &mut Heap,
) -> (r: GResult<Vec<Slot>>)
    ensures
        (final(heap)@, seen(r)) == mut_joined((old(heap)@, seen(run)), *old(item)),
        mut_left((old(heap)@, seen(run)), *old(item), *final(item)),
{
    match run {
        Err(e) => Err(e),
        Ok(slots) => match item.into_val_mut(heap) {
            Ok(val) => {
                let mut slots = slots;
                slots.push(Slot::from_val(&val));
                Ok(slots)
            },
            Err(e) => Err(e),
        },
    }
}

/// Converts all of `items`, in their order, each by mutable reference.
pub(crate) fn mut_join_all<T: IntoValMut>(items: &mut [T], heap: &mut Heap) -> (r: GResult<
    Vec<Slot>,
>)
    ensures
        (final(heap)@, seen(r)) == mut_joined_all(started(old(heap)@), old(items)@),
        mut_left_all(started(old(heap)@), old(items)@, final(items)@),
{
    let ghost run = started(heap@);
    let ghost all = items@;
    let mut slots: Vec<Slot> = Vec::with_capacity(items.len());
    let mut i: usize = 0;
    proof {
        assert(all.take(0) =~= seq![]);
    }
    while i < items.len()
        invariant
            i <= items@.len(),
            items@.len() == all.len(),
            run == started(old(heap)@),
            all == old(items)@,
            forall|j: int| i <= j < all.len() ==> #[trigger] items@[j] == all[j],
            forall|j: int|
                0 <= j < i ==> mut_left(
                    mut_joined_all(run, all.take(j)),
                    all[j],
                    #[trigger] items@[j],
                ),
            (heap@, Ok::<Seq<Slot>, GError>(slots@)) == mut_joined_all(run, all.take(i as int)),
        decreases all.len() - i,
    {
        proof {
            assert(all.take(i + 1).drop_last() =~= all.take(i as int));
            assert(items@[i as int] == all[i as int]);
        }
        match items[i].into_val_mut(heap) {
            Ok(val) => slots.push(Slot::from_val(&val)),
            Err(e) => {
                proof {
                    lemma_mut_joined_all_failed(run, all, i + 1);
                    assert forall|j: int| 0 <= j < all.len() implies mut_left(
                        mut_joined_all(run, all.take(j)),
                        all[j],
                        #[trigger] items@[j],
                    ) by {
                        if j > i {
                            assert(all.take(j).take(i + 1) =~= all.take(i + 1));
                            lemma_mut_joined_all_failed(run, all.take(j), i + 1);
                        }
                    }
                }
                return Err(e);
            },
        }
        i = i + 1;
    }
    proof {
        assert(all.take(i as int) =~= all);
    }
    Ok(slots)
}

/// Carries a run of conversions on by one item.
pub(crate) fn join<T: IntoVal>(run: GResult<Vec<Slot>>, item: T, heap: &mut Heap) -> (r: GResult<
    Vec<Slot>,
>)
    ensures
        (final(heap)@, seen(r)) == joined((old(heap)@, seen(run)), item),
{
    match run {
        Err(e) => Err(e),
        Ok(slots) => match item.into_slot(heap) {
            Ok(slot) => {
                let mut slots = slots;
                slots.push(slot);
                Ok(slots)
            },
            Err(e) => Err(e),
        },
    }
}

/// Ends a run of conversions.
pub(crate) fn pack(run: GResult<Vec<Slot>>, heap: &mut Heap) -> (r: GResult<Val>)
    ensures
        (final(heap)@, r) == packed((old(heap)@, seen(run))),
{
    match run {
        Ok(slots) => Ok(Val::Arr(heap.alloc_arr(slots))),
        Err(e) => Err(e),
    }
}

/// Converts all of `items`, in their order.
pub(crate) fn join_all<T: IntoVal>(items: Vec<T>, heap: &mut Heap) -> (r: GResult<Vec<Slot>>)
    ensures
        (final(heap)@, seen(r)) == joined_all(started(old(heap)@), items@),
{
    let ghost run = started(heap@);
    let ghost all = items@;
    let mut slots: Vec<Slot> = Vec::with_capacity(items.len());
    proof {
        assert(all.take(0) =~= seq![]);
    }
    for item in it: items
        invariant
            run == started(old(heap)@),
            it.seq() == all,
            all == items@,
            (heap@, Ok::<Seq<Slot>, GError>(slots@)) == joined_all(
                run,
                all.take(it.index() as int),
            ),
    {
        let ghost k = it.index() as int;
        proof {
            assert(all.take(k + 1).drop_last() =~= all.take(k));
        }
        match item.into_slot(heap) {
            Ok(slot) => slots.push(slot),
            Err(e) => {
                proof {
                    lemma_joined_all_failed(run, all, k + 1);
                }
                return Err(e);
            },
        }
    }
    proof {
        assert(all.take(all.len() as int) =~= all);
    }
    Ok(slots)
}

/// Converts all that `items` refers to, in order.
pub(crate) fn join_refs<'a, T>(items: &'a [T], heap: &mut Heap) -> (r: GResult<Vec<Slot>>) where
    &'a T: IntoVal,

    ensures
        (final(heap)@, seen(r)) == joined_all(started(old(heap)@), items@.as_ref()),
{
    let ghost run = started(heap@);
    let ghost all = items@.as_ref();
    let mut slots: Vec<Slot> = Vec::with_capacity(items.len());
    let mut i: usize = 0;
    proof {
        assert(all.take(0) =~= seq![]);
    }
    while i < items.len()
        invariant
            i <= items.len(),
            run == started(old(heap)@),
            all == items@.as_ref(),
            (heap@, Ok::<Seq<Slot>, GError>(slots@)) == joined_all(
                run,
                all.take(i as int),
            ),
        decreases items.len() - i,
    {
        proof {
            assert(all.take(i + 1).drop_last() =~= all.take(i as int));
        }
        let item: &'a T = &items[i];
        match item.into_slot(heap) {
            Ok(slot) => slots.push(slot),
            Err(e) => {
                proof {
                    lemma_joined_all_failed(run, all, i + 1);
                }
                return Err(e);
            },
        }
        i = i + 1;
    }
    proof {
        assert(all.take(i as int) =~= all);
    }
    Ok(slots)
}

} // verus!
