//! `FromVal` for sequences: each is filled from the items of an array.

use std::collections::VecDeque;

use vstd::prelude::*;

use crate::error::{Expected, GError, GResult};
use crate::from_val::{
    all_of, each, items_of, lemma_each_failed, models, read_items, FromVal, Modelled,
};
use crate::small::SmallList;
use crate::store::{Heap, Store};
use crate::value::{Slot, Val};

verus! {

impl<T: Modelled> Modelled for Vec<T> {
    type Model = Seq<T::Model>;

    open spec fn model(self) -> Seq<T::Model> {
        models(self@)
    }
}

impl<T: FromVal> FromVal for Vec<T> {
    open spec fn of_val(h: Store, v: Val) -> GResult<Seq<T::Model>> {
        all_of::<T>(h, v, Expected::Vec)
    }

    fn from_val(heap: &Heap, val: &Val) -> (r: GResult<Vec<T>>) {
        let slots = match read_items(heap, val, Expected::Vec) {
            Ok(slots) => slots,
            Err(e) => return Err(e),
        };
        let ghost all = slots@;
        let mut list: Vec<T> = Vec::with_capacity(slots.len());
        let mut i: usize = 0;
        proof {
            assert(all.take(0) =~= seq![]);
            assert(models(list@) =~= seq![]);
        }
        while i < slots.len()
            invariant
                i <= slots.len(),
                all == slots@,
                items_of(heap@, *val, Expected::Vec) == Ok::<Seq<Slot>, GError>(all),
                each::<T>(heap@, all.take(i as int)) == Ok::<Seq<T::Model>, GError>(models(list@)),
            decreases slots.len() - i,
        {
            let ghost before = list@;
            proof {
                assert(all.take(i + 1).drop_last() =~= all.take(i as int));
            }
            match T::from_slot(heap, &slots[i]) {
                Ok(item) => {
                    list.push(item);
                    assert(models(list@) =~= models(before).push(item.model()));
                },
                Err(e) => {
                    proof {
                        lemma_each_failed::<T>(heap@, all, i + 1);
                    }
                    return Err(e);
                },
            }
            i = i + 1;
        }
        proof {
            assert(all.take(i as int) =~= all);
        }
        Ok(list)
    }
}

impl<T: Modelled> Modelled for VecDeque<T> {
    type Model = Seq<T::Model>;

    open spec fn model(self) -> Seq<T::Model> {
        models(self@)
    }
}

impl<T: FromVal> FromVal for VecDeque<T> {
    open spec fn of_val(h: Store, v: Val) -> GResult<Seq<T::Model>> {
        all_of::<T>(h, v, Expected::VecDeque)
    }

    fn from_val(heap: &Heap, val: &Val) -> (r: GResult<VecDeque<T>>) {
        let slots = match read_items(heap, val, Expected::VecDeque) {
            Ok(slots) => slots,
            Err(e) => return Err(e),
        };
        let ghost all = slots@;
        let mut list: VecDeque<T> = VecDeque::with_capacity(slots.len());
        let mut i: usize = 0;
        proof {
            assert(all.take(0) =~= seq![]);
            assert(models(list@) =~= seq![]);
        }
        while i < slots.len()
            invariant
                i <= slots.len(),
                all == slots@,
                items_of(heap@, *val, Expected::VecDeque) == Ok::<Seq<Slot>, GError>(all),
                each::<T>(heap@, all.take(i as int)) == Ok::<Seq<T::Model>, GError>(models(list@)),
            decreases slots.len() - i,
        {
            let ghost before = list@;
            proof {
                assert(all.take(i + 1).drop_last() =~= all.take(i as int));
            }
            match T::from_slot(heap, &slots[i]) {
                Ok(item) => {
                    list.push_back(item);
                    assert(models(list@) =~= models(before).push(item.model()));
                },
                Err(e) => {
                    proof {
                        lemma_each_failed::<T>(heap@, all, i + 1);
                    }
                    return Err(e);
                },
            }
            i = i + 1;
        }
        proof {
            assert(all.take(i as int) =~= all);
        }
        Ok(list)
    }
}

impl<T: Modelled, const N: usize> Modelled for SmallList<T, N> {
    type Model = Seq<T::Model>;

    open spec fn model(self) -> Seq<T::Model> {
        models(self@)
    }
}

impl<T: FromVal, const N: usize> FromVal for SmallList<T, N> {
    open spec fn of_val(h: Store, v: Val) -> GResult<Seq<T::Model>> {
        all_of::<T>(h, v, Expected::SmallVec)
    }

    fn from_val(heap: &Heap, val: &Val) -> (r: GResult<SmallList<T, N>>) {
        let slots = match read_items(heap, val, Expected::SmallVec) {
            Ok(slots) => slots,
            Err(e) => return Err(e),
        };
        let ghost all = slots@;
        let mut list: SmallList<T, N> = SmallList::new();
        let mut i: usize = 0;
        proof {
            assert(all.take(0) =~= seq![]);
            assert(models(list@) =~= seq![]);
        }
        while i < slots.len()
            invariant
                i <= slots.len(),
                all == slots@,
                items_of(heap@, *val, Expected::SmallVec) == Ok::<Seq<Slot>, GError>(all),
                each::<T>(heap@, all.take(i as int)) == Ok::<Seq<T::Model>, GError>(models(list@)),
            decreases slots.len() - i,
        {
            let ghost before = list@;
            proof {
                assert(all.take(i + 1).drop_last() =~= all.take(i as int));
            }
            match T::from_slot(heap, &slots[i]) {
                Ok(item) => {
                    list.push(item);
                    assert(models(list@) =~= models(before).push(item.model()));
                },
                Err(e) => {
                    proof {
                        lemma_each_failed::<T>(heap@, all, i + 1);
                    }
                    return Err(e);
                },
            }
            i = i + 1;
        }
        proof {
            assert(all.take(i as int) =~= all);
        }
        Ok(list)
    }
}

/// Calls `TryFrom<Vec<T>>` of `[T; N]`: the array of all the items, which there is exactly where
/// there are `N`.
#[verifier::external_body]
fn to_array<T, const N: usize>(items: Vec<T>) -> (array: [T; N])
    requires
        items@.len() == N,
    ensures
        array@ == items@,
{
    <[T; N]>::try_from(items).ok().unwrap()
}

impl<T: Modelled, const N: usize> Modelled for [T; N] {
    type Model = Seq<T::Model>;

    open spec fn model(self) -> Seq<T::Model> {
        models(self@)
    }
}

impl<T: FromVal, const N: usize> FromVal for [T; N] {
    open spec fn of_val(h: Store, v: Val) -> GResult<Seq<T::Model>> {
        match items_of(h, v, Expected::Array(N)) {
            Err(e) => Err(e),
            Ok(slots) => if slots.len() != N {
                Err(GError::ArrayLength { expected: N, received: slots.len() as usize })
            } else {
                each::<T>(h, slots)
            },
        }
    }

    fn from_val(heap: &Heap, val: &Val) -> (r: GResult<[T; N]>) {
        let slots = match read_items(heap, val, Expected::Array(N)) {
            Ok(slots) => slots,
            Err(e) => return Err(e),
        };
        if slots.len() != N {
            return Err(GError::ArrayLength { expected: N, received: slots.len() });
        }
        let ghost all = slots@;
        let mut vals: Vec<T> = Vec::with_capacity(N);
        let mut i: usize = 0;
        proof {
            assert(all.take(0) =~= seq![]);
            assert(models(vals@) =~= seq![]);
        }
        while i < N
            invariant
                i <= N,
                N == slots.len(),
                all == slots@,
                vals@.len() == i,
                items_of(heap@, *val, Expected::Array(N)) == Ok::<Seq<Slot>, GError>(all),
                each::<T>(heap@, all.take(i as int)) == Ok::<Seq<T::Model>, GError>(models(vals@)),
            decreases N - i,
        {
            let ghost before = vals@;
            proof {
                assert(all.take(i + 1).drop_last() =~= all.take(i as int));
            }
            match T::from_slot(heap, &slots[i]) {
                Ok(item) => {
                    vals.push(item);
                    assert(models(vals@) =~= models(before).push(item.model()));
                },
                Err(e) => {
                    proof {
                        lemma_each_failed::<T>(heap@, all, i + 1);
                    }
                    return Err(e);
                },
            }
            i = i + 1;
        }
        proof {
            assert(all.take(i as int) =~= all);
        }
        Ok(to_array(vals))
    }
}

} // verus!
