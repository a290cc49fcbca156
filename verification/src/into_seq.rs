//! `IntoVal` for sequences: each becomes a new array of its items.

use std::collections::VecDeque;

use vstd::prelude::*;

use crate::error::{GError, GResult};
use crate::into_val::{
    join_all, join_refs, joined_all, lemma_joined_all_failed, mut_join, mut_join_all,
    mut_joined_all, mut_left, mut_left_all, pack, packed, seen, started, IntoVal, IntoValMut,
};
use crate::small::SmallList;
use crate::store::{Heap, Store};
use crate::value::{Slot, Val};

verus! {

impl<T: IntoVal> IntoVal for Vec<T> {
    open spec fn to_val(self, h: Store) -> (Store, GResult<Val>) {
        packed(joined_all(started(h), self@))
    }

    fn into_val(self, heap: &mut Heap) -> (r: GResult<Val>) {
        let run = join_all(self, heap);
        pack(run, heap)
    }
}

impl<'a, T> IntoVal for &'a Vec<T> where &'a T: IntoVal {
    open spec fn to_val(self, h: Store) -> (Store, GResult<Val>) {
        packed(joined_all::<&T>(started(h), self@.as_ref()))
    }

    fn into_val(self, heap: &mut Heap) -> (r: GResult<Val>) {
        let run = join_refs::<T>(self.as_slice(), heap);
        pack(run, heap)
    }
}

impl<T: IntoValMut> IntoValMut for Vec<T> {
    open spec fn mut_to_val(self, h: Store) -> (Store, GResult<Val>) {
        packed(mut_joined_all(started(h), self@))
    }

    open spec fn leaves(self, h: Store, after: Self) -> bool {
        mut_left_all(started(h), self@, after@)
    }

    fn into_val_mut(&mut self, heap: &mut Heap) -> (r: GResult<Val>) {
        let run = mut_join_all(self.as_mut_slice(), heap);
        pack(run, heap)
    }
}

impl<T: IntoVal> IntoVal for VecDeque<T> {
    open spec fn to_val(self, h: Store) -> (Store, GResult<Val>) {
        packed(joined_all(started(h), self@))
    }

    fn into_val(self, heap: &mut Heap) -> (r: GResult<Val>) {
        let mut queue = self;
        let mut items: Vec<T> = Vec::with_capacity(queue.len());
        while queue.len() > 0
            invariant
                items@ + queue@ == self@,
            decreases queue@.len(),
        {
            let ghost left = queue@;
            let ghost before = items@;
            match queue.pop_front() {
                Some(item) => {
                    items.push(item);
                    assert(items@ + queue@ =~= before + left);
                },
                None => {},
            }
        }
        assert(items@ =~= self@);
        let run = join_all(items, heap);
        pack(run, heap)
    }
}

/// Converts all that is in `queue`, in order.
fn join_queue<'a, T>(queue: &'a VecDeque<T>, heap: &mut Heap) -> (r: GResult<Vec<Slot>>) where
    &'a T: IntoVal,

    ensures
        (final(heap)@, seen(r)) == joined_all(started(old(heap)@), queue@.as_ref()),
{
    let ghost run = started(heap@);
    let ghost all = queue@.as_ref();
    let mut slots: Vec<Slot> = Vec::with_capacity(queue.len());
    let mut i: usize = 0;
    proof {
        assert(all.take(0) =~= seq![]);
    }
    while i < queue.len()
        invariant
            i <= queue@.len(),
            run == started(old(heap)@),
            all == queue@.as_ref(),
            (heap@, Ok::<Seq<Slot>, GError>(slots@)) == joined_all(run, all.take(i as int)),
        decreases queue@.len() - i,
    {
        proof {
            assert(all.take(i + 1).drop_last() =~= all.take(i as int));
        }
        let item: &'a T = &queue[i];
        match item.into_slot(heap) {
            Ok(slot) => slots.push(slot),
            Err(e) => {
                proof {
                    lemma_joined_all_failed(run, all, i + 1);
                }
                return Err(e);
            },
        }
        i = i + 1;
    }
    proof {
        assert(all.take(i as int) =~= all);
    }
    Ok(slots)
}

impl<'a, T> IntoVal for &'a VecDeque<T> where &'a T: IntoVal {
    open spec fn to_val(self, h: Store) -> (Store, GResult<Val>) {
        packed(joined_all::<&T>(started(h), self@.as_ref()))
    }

    fn into_val(self, heap: &mut Heap) -> (r: GResult<Val>) {
        let run = join_queue::<T>(self, heap);
        pack(run, heap)
    }
}

/// Converts all that is in `queue`, in order, each by mutable reference. Every item leaves the
/// queue at its front, and comes back at its end.
fn mut_join_queue<T: IntoValMut>(queue: &mut VecDeque<T>, heap: &mut Heap) -> (r: GResult<
    Vec<Slot>,
>)
    ensures
        (final(heap)@, seen(r)) == mut_joined_all(started(old(heap)@), old(queue)@),
        mut_left_all(started(old(heap)@), old(queue)@, final(queue)@),
{
    let ghost start = started(heap@);
    let ghost all = queue@;
    let count: usize = queue.len();
    let slots: Vec<Slot> = Vec::with_capacity(count);
    let mut run: GResult<Vec<Slot>> = Ok(slots);
    let mut i: usize = 0;
    proof {
        assert(all.take(0) =~= seq![]);
    }
    while i < count
        invariant
            i <= count,
            count == all.len(),
            queue@.len() == count,
            start == started(old(heap)@),
            all == old(queue)@,
            forall|j: int| 0 <= j < count - i ==> #[trigger] queue@[j] == all[i + j],
            forall|j: int|
                count - i <= j < count ==> mut_left(
                    mut_joined_all(start, all.take(j - (count - i))),
                    all[j - (count - i)],
                    #[trigger] queue@[j],
                ),
            (heap@, seen(run)) == mut_joined_all(start, all.take(i as int)),
        decreases count - i,
    {
        let ghost before = queue@;
        proof {
            assert(all.take(i + 1).drop_last() =~= all.take(i as int));
            assert(before[0] == all[i as int]);
        }
        match queue.pop_front() {
            Some(item) => {
                let mut item = item;
                run = mut_join(run, &mut item, heap);
                queue.push_back(item);
                assert forall|j: int| 0 <= j < count - (i + 1) implies #[trigger] queue@[j] == all[(
                i + 1) + j] by {
                    assert(queue@[j] == before[j + 1]);
                }
                assert forall|j: int| count - (i + 1) <= j < count implies mut_left(
                    mut_joined_all(start, all.take(j - (count - (i + 1)))),
                    all[j - (count - (i + 1))],
                    #[trigger] queue@[j],
                ) by {
                    if j < count - 1 {
                        assert(queue@[j] == before[j + 1]);
                    }
                }
            },
            None => {},
        }
        i = i + 1;
    }
    proof {
        assert(all.take(i as int) =~= all);
        assert forall|j: int| 0 <= j < all.len() implies mut_left(
            mut_joined_all(start, all.take(j)),
            all[j],
            #[trigger] queue@[j],
        ) by {
            assert(j - (count - i) == j);
        }
    }
    run
}

impl<T: IntoValMut> IntoValMut for VecDeque<T> {
    open spec fn mut_to_val(self, h: Store) -> (Store, GResult<Val>) {
        packed(mut_joined_all(started(h), self@))
    }

    open spec fn leaves(self, h: Store, after: Self) -> bool {
        mut_left_all(started(h), self@, after@)
    }

    fn into_val_mut(&mut self, heap: &mut Heap) -> (r: GResult<Val>) {
        let run = mut_join_queue(self, heap);
        pack(run, heap)
    }
}

impl<T: IntoVal, const N: usize> IntoVal for SmallList<T, N> {
    open spec fn to_val(self, h: Store) -> (Store, GResult<Val>) {
        packed(joined_all(started(h), self@))
    }

    fn into_val(self, heap: &mut Heap) -> (r: GResult<Val>) {
        let run = join_all(self.into_vec(), heap);
        pack(run, heap)
    }
}

impl<'a, T, const N: usize> IntoVal for &'a SmallList<T, N> where &'a T: IntoVal {
    open spec fn to_val(self, h: Store) -> (Store, GResult<Val>) {
        packed(joined_all::<&T>(started(h), self@.as_ref()))
    }

    fn into_val(self, heap: &mut Heap) -> (r: GResult<Val>) {
        let run = join_refs::<T>(self.as_slice(), heap);
        pack(run, heap)
    }
}

impl<T: IntoValMut, const N: usize> IntoValMut for SmallList<T, N> {
    open spec fn mut_to_val(self, h: Store) -> (Store, GResult<Val>) {
        packed(mut_joined_all(started(h), self@))
    }

    open spec fn leaves(self, h: Store, after: Self) -> bool {
        mut_left_all(started(h), self@, after@)
    }

    fn into_val_mut(&mut self, heap: &mut Heap) -> (r: GResult<Val>) {
        let run = mut_join_all(self.slice_mut(), heap);
        pack(run, heap)
    }
}

impl<'a, T> IntoVal for &'a [T] where &'a T: IntoVal {
    open spec fn to_val(self, h: Store) -> (Store, GResult<Val>) {
        packed(joined_all::<&T>(started(h), self@.as_ref()))
    }

    fn into_val(self, heap: &mut Heap) -> (r: GResult<Val>) {
        let run = join_refs::<T>(self, heap);
        pack(run, heap)
    }
}

impl<'a, T: IntoValMut> IntoVal for &'a mut [T] {
    open spec fn to_val(self, h: Store) -> (Store, GResult<Val>) {
        packed(mut_joined_all(started(h), (*self)@))
    }

    fn into_val(self, heap: &mut Heap) -> (r: GResult<Val>)
        ensures
            mut_left_all(started(old(heap)@), old(self)@, final(self)@),
    {
        let run = mut_join_all(self, heap);
        pack(run, heap)
    }
}

impl<T, const N: usize> IntoVal for [T; N] where for <'b>&'b T: IntoVal {
    open spec fn to_val(self, h: Store) -> (Store, GResult<Val>) {
        packed(joined_all::<&T>(started(h), self@.as_ref()))
    }

    fn into_val(self, heap: &mut Heap) -> (r: GResult<Val>) {
        let run = join_refs::<T>(self.as_slice(), heap);
        pack(run, heap)
    }
}

impl<'a, T, const N: usize> IntoVal for &'a [T; N] where &'a T: IntoVal {
    open spec fn to_val(self, h: Store) -> (Store, GResult<Val>) {
        packed(joined_all::<&T>(started(h), self@.as_ref()))
    }

    fn into_val(self, heap: &mut Heap) -> (r: GResult<Val>) {
        let run = join_refs::<T>(self.as_slice(), heap);
        pack(run, heap)
    }
}

impl<T: IntoValMut, const N: usize> IntoValMut for [T; N] {
    open spec fn mut_to_val(self, h: Store) -> (Store, GResult<Val>) {
        packed(mut_joined_all(started(h), self@))
    }

    open spec fn leaves(self, h: Store, after: Self) -> bool {
        mut_left_all(started(h), self@, after@)
    }

    fn into_val_mut(&mut self, heap: &mut Heap) -> (r: GResult<Val>) {
        let run = mut_join_all(&mut *self, heap);
        pack(run, heap)
    }
}

} // verus!
