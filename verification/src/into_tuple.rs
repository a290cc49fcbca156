//! `IntoVal` for tuples of up to twelve fields: each becomes a new array of its fields.

use vstd::prelude::*;

use crate::error::GResult;
use crate::into_val::{
    join, joined, mut_join, mut_joined, mut_left, pack, packed, started, IntoVal, IntoValMut,
};
use crate::store::{Heap, Store};
use crate::value::{Slot, Val};

verus! {

impl<A: IntoVal> IntoVal for (A,) {
    open spec fn to_val(self, h: Store) -> (Store, GResult<Val>) {
        let run = started(h);
        let run = joined(run, self.0);
        packed(run)
    }

    fn into_val(self, heap: &mut Heap) -> (r: GResult<Val>) {
        let slots: Vec<Slot> = Vec::with_capacity(1);
        let run = join(Ok(slots), self.0, heap);
        pack(run, heap)
    }
}

impl<'a, A> IntoVal for &'a (A,) where
    &'a A: IntoVal,
 {
    open spec fn to_val(self, h: Store) -> (Store, GResult<Val>) {
        let run = started(h);
        let run = joined(run, &self.0);
        packed(run)
    }

    fn into_val(self, heap: &mut Heap) -> (r: GResult<Val>) {
        let slots: Vec<Slot> = Vec::with_capacity(1);
        let run = join(Ok(slots), &self.0, heap);
        pack(run, heap)
    }
}

impl<A: IntoValMut> IntoValMut for (A,) {
    open spec fn mut_to_val(self, h: Store) -> (Store, GResult<Val>) {
        let run = started(h);
        let run = mut_joined(run, self.0);
        packed(run)
    }

    open spec fn leaves(self, h: Store, after: Self) -> bool {
        let run0 = started(h);
        &&& mut_left(run0, self.0, after.0)
    }

    fn into_val_mut(&mut self, heap: &mut Heap) -> (r: GResult<Val>) {
        let slots: Vec<Slot> = Vec::with_capacity(1);
        let run = mut_join(Ok(slots), &mut self.0, heap);
        pack(run, heap)
    }
}

impl<A: IntoVal, B: IntoVal> IntoVal for (A, B) {
    open spec fn to_val(self, h: Store) -> (Store, GResult<Val>) {
        let run = started(h);
        let run = joined(run, self.0);
        let run = joined(run, self.1);
        packed(run)
    }

    fn into_val(self, heap: &mut Heap) -> (r: GResult<Val>) {
        let slots: Vec<Slot> = Vec::with_capacity(2);
        let run = join(Ok(slots), self.0, heap);
        let run = join(run, self.1, heap);
        pack(run, heap)
    }
}

impl<'a, A, B> IntoVal for &'a (A, B) where
    &'a A: IntoVal,
    &'a B: IntoVal,
 {
    open spec fn to_val(self, h: Store) -> (Store, GResult<Val>) {
        let run = started(h);
        let run = joined(run, &self.0);
        let run = joined(run, &self.1);
        packed(run)
    }

    fn into_val(self, heap: &mut Heap) -> (r: GResult<Val>) {
        let slots: Vec<Slot> = Vec::with_capacity(2);
        let run = join(Ok(slots), &self.0, heap);
        let run = join(run, &self.1, heap);
        pack(run, heap)
    }
}

impl<A: IntoValMut, B: IntoValMut> IntoValMut for (A, B) {
    open spec fn mut_to_val(self, h: Store) -> (Store, GResult<Val>) {
        let run = started(h);
        let run = mut_joined(run, self.0);
        let run = mut_joined(run, self.1);
        packed(run)
    }

    open spec fn leaves(self, h: Store, after: Self) -> bool {
        let run0 = started(h);
        let run1 = mut_joined(run0, self.0);
        &&& mut_left(run0, self.0, after.0)
        &&& mut_left(run1, self.1, after.1)
    }

    fn into_val_mut(&mut self, heap: &mut Heap) -> (r: GResult<Val>) {
        let slots: Vec<Slot> = Vec::with_capacity(2);
        let run = mut_join(Ok(slots), &mut self.0, heap);
        let run = mut_join(run, &mut self.1, heap);
        pack(run, heap)
    }
}

impl<A: IntoVal, B: IntoVal, C: IntoVal> IntoVal for (A, B, C) {
    open spec fn to_val(self, h: Store) -> (Store, GResult<Val>) {
        let run = started(h);
        let run = joined(run, self.0);
        let run = joined(run, self.1);
        let run = joined(run, self.2);
        packed(run)
    }

    fn into_val(self, heap: &mut Heap) -> (r: GResult<Val>) {
        let slots: Vec<Slot> = Vec::with_capacity(3);
        let run = join(Ok(slots), self.0, heap);
        let run = join(run, self.1, heap);
        let run = join(run, self.2, heap);
        pack(run, heap)
    }
}

impl<'a, A, B, C> IntoVal for &'a (A, B, C) where
    &'a A: IntoVal,
    &'a B: IntoVal,
    &'a C: IntoVal,
 {
    open spec fn to_val(self, h: Store) -> (Store, GResult<Val>) {
        let run = started(h);
        let run = joined(run, &self.0);
        let run = joined(run, &self.1);
        let run = joined(run, &self.2);
        packed(run)
    }

    fn into_val(self, heap: &mut Heap) -> (r: GResult<Val>) {
        let slots: Vec<Slot> = Vec::with_capacity(3);
        let run = join(Ok(slots), &self.0, heap);
        let run = join(run, &self.1, heap);
        let run = join(run, &self.2, heap);
        pack(run, heap)
    }
}

impl<A: IntoValMut, B: IntoValMut, C: IntoValMut> IntoValMut for (A, B, C) {
    open spec fn mut_to_val(self, h: Store) -> (Store, GResult<Val>) {
        let run = started(h);
        let run = mut_joined(run, self.0);
        let run = mut_joined(run, self.1);
        let run = mut_joined(run, self.2);
        packed(run)
    }

    open spec fn leaves(self, h: Store, after: Self) -> bool {
        let run0 = started(h);
        let run1 = mut_joined(run0, self.0);
        let run2 = mut_joined(run1, self.1);
        &&& mut_left(run0, self.0, after.0)
        &&& mut_left(run1, self.1, after.1)
        &&& mut_left(run2, self.2, after.2)
    }

    fn into_val_mut(&mut self, heap: &mut Heap) -> (r: GResult<Val>) {
        let slots: Vec<Slot> = Vec::with_capacity(3);
        let run = mut_join(Ok(slots), &mut self.0, heap);
        let run = mut_join(run, &mut self.1, heap);
        let run = mut_join(run, &mut self.2, heap);
        pack(run, heap)
    }
}

impl<A: IntoVal, B: IntoVal, C: IntoVal, D: IntoVal> IntoVal for (A, B, C, D) {
    open spec fn to_val(self, h: Store) -> (Store, GResult<Val>) {
        let run = started(h);
        let run = joined(run, self.0);
        let run = joined(run, self.1);
        let run = joined(run, self.2);
        let run = joined(run, self.3);
        packed(run)
    }

    fn into_val(self, heap: &mut Heap) -> (r: GResult<Val>) {
        let slots: Vec<Slot> = Vec::with_capacity(4);
        let run = join(Ok(slots), self.0, heap);
        let run = join(run, self.1, heap);
        let run = join(run, self.2, heap);
        let run = join(run, self.3, heap);
        pack(run, heap)
    }
}

impl<'a, A, B, C, D> IntoVal for &'a (A, B, C, D) where
    &'a A: IntoVal,
    &'a B: IntoVal,
    &'a C: IntoVal,
    &'a D: IntoVal,
 {
    open spec fn to_val(self, h: Store) -> (Store, GResult<Val>) {
        let run = started(h);
        let run = joined(run, &self.0);
        let run = joined(run, &self.1);
        let run = joined(run, &self.2);
        let run = joined(run, &self.3);
        packed(run)
    }

    fn into_val(self, heap: &mut Heap) -> (r: GResult<Val>) {
        let slots: Vec<Slot> = Vec::with_capacity(4);
        let run = join(Ok(slots), &self.0, heap);
        let run = join(run, &self.1, heap);
        let run = join(run, &self.2, heap);
        let run = join(run, &self.3, heap);
        pack(run, heap)
    }
}

impl<A: IntoValMut, B: IntoValMut, C: IntoValMut, D: IntoValMut> IntoValMut for (A, B, C, D) {
    open spec fn mut_to_val(self, h: Store) -> (Store, GResult<Val>) {
        let run = started(h);
        let run = mut_joined(run, self.0);
        let run = mut_joined(run, self.1);
        let run = mut_joined(run, self.2);
        let run = mut_joined(run, self.3);
        packed(run)
    }

    open spec fn leaves(self, h: Store, after: Self) -> bool {
        let run0 = started(h);
        let run1 = mut_joined(run0, self.0);
        let run2 = mut_joined(run1, self.1);
        let run3 = mut_joined(run2, self.2);
        &&& mut_left(run0, self.0, after.0)
        &&& mut_left(run1, self.1, after.1)
        &&& mut_left(run2, self.2, after.2)
        &&& mut_left(run3, self.3, after.3)
    }

    fn into_val_mut(&mut self, heap: &mut Heap) -> (r: GResult<Val>) {
        let slots: Vec<Slot> = Vec::with_capacity(4);
        let run = mut_join(Ok(slots), &mut self.0, heap);
        let run = mut_join(run, &mut self.1, heap);
        let run = mut_join(run, &mut self.2, heap);
        let run = mut_join(run, &mut self.3, heap);
        pack(run, heap)
    }
}

impl<A: IntoVal, B: IntoVal, C: IntoVal, D: IntoVal, E: IntoVal> IntoVal for (A, B, C, D, E) {
    open spec fn to_val(self, h: Store) -> (Store, GResult<Val>) {
        let run = started(h);
        let run = joined(run, self.0);
        let run = joined(run, self.1);
        let run = joined(run, self.2);
        let run = joined(run, self.3);
        let run = joined(run, self.4);
        packed(run)
    }

    fn into_val(self, heap: &mut Heap) -> (r: GResult<Val>) {
        let slots: Vec<Slot> = Vec::with_capacity(5);
        let run = join(Ok(slots), self.0, heap);
        let run = join(run, self.1, heap);
        let run = join(run, self.2, heap);
        let run = join(run, self.3, heap);
        let run = join(run, self.4, heap);
        pack(run, heap)
    }
}

impl<'a, A, B, C, D, E> IntoVal for &'a (A, B, C, D, E) where
    &'a A: IntoVal,
    &'a B: IntoVal,
    &'a C: IntoVal,
    &'a D: IntoVal,
    &'a E: IntoVal,
 {
    open spec fn to_val(self, h: Store) -> (Store, GResult<Val>) {
        let run = started(h);
        let run = joined(run, &self.0);
        let run = joined(run, &self.1);
        let run = joined(run, &self.2);
        let run = joined(run, &self.3);
        let run = joined(run, &self.4);
        packed(run)
    }

    fn into_val(self, heap: &mut Heap) -> (r: GResult<Val>) {
        let slots: Vec<Slot> = Vec::with_capacity(5);
        let run = join(Ok(slots), &self.0, heap);
        let run = join(run, &self.1, heap);
        let run = join(run, &self.2, heap);
        let run = join(run, &self.3, heap);
        let run = join(run, &self.4, heap);
        pack(run, heap)
    }
}

impl<
    A: IntoValMut,
    B: IntoValMut,
    C: IntoValMut,
    D: IntoValMut,
    E: IntoValMut,
> IntoValMut for (A, B, C, D, E) {
    open spec fn mut_to_val(self, h: Store) -> (Store, GResult<Val>) {
        let run = started(h);
        let run = mut_joined(run, self.0);
        let run = mut_joined(run, self.1);
        let run = mut_joined(run, self.2);
        let run = mut_joined(run, self.3);
        let run = mut_joined(run, self.4);
        packed(run)
    }

    open spec fn leaves(self, h: Store, after: Self) -> bool {
        let run0 = started(h);
        let run1 = mut_joined(run0, self.0);
        let run2 = mut_joined(run1, self.1);
        let run3 = mut_joined(run2, self.2);
        let run4 = mut_joined(run3, self.3);
        &&& mut_left(run0, self.0, after.0)
        &&& mut_left(run1, self.1, after.1)
        &&& mut_left(run2, self.2, after.2)
        &&& mut_left(run3, self.3, after.3)
        &&& mut_left(run4, self.4, after.4)
    }

    fn into_val_mut(&mut self, heap: &mut Heap) -> (r: GResult<Val>) {
        let slots: Vec<Slot> = Vec::with_capacity(5);
        let run = mut_join(Ok(slots), &mut self.0, heap);
        let run = mut_join(run, &mut self.1, heap);
        let run = mut_join(run, &mut self.2, heap);
        let run = mut_join(run, &mut self.3, heap);
        let run = mut_join(run, &mut self.4, heap);
        pack(run, heap)
    }
}

impl<
    A: IntoVal,
    B: IntoVal,
    C: IntoVal,
    D: IntoVal,
    E: IntoVal,
    F: IntoVal,
> IntoVal for (A, B, C, D, E, F) {
    open spec fn to_val(self, h: Store) -> (Store, GResult<Val>) {
        let run = started(h);
        let run = joined(run, self.0);
        let run = joined(run, self.1);
        let run = joined(run, self.2);
        let run = joined(run, self.3);
        let run = joined(run, self.4);
        let run = joined(run, self.5);
        packed(run)
    }

    fn into_val(self, heap: &mut Heap) -> (r: GResult<Val>) {
        let slots: Vec<Slot> = Vec::with_capacity(6);
        let run = join(Ok(slots), self.0, heap);
        let run = join(run, self.1, heap);
        let run = join(run, self.2, heap);
        let run = join(run, self.3, heap);
        let run = join(run, self.4, heap);
        let run = join(run, self.5, heap);
        pack(run, heap)
    }
}

impl<'a, A, B, C, D, E, F> IntoVal for &'a (A, B, C, D, E, F) where
    &'a A: IntoVal,
    &'a B: IntoVal,
    &'a C: IntoVal,
    &'a D: IntoVal,
    &'a E: IntoVal,
    &'a F: IntoVal,
 {
    open spec fn to_val(self, h: Store) -> (Store, GResult<Val>) {
        let run = started(h);
        let run = joined(run, &self.0);
        let run = joined(run, &self.1);
        let run = joined(run, &self.2);
        let run = joined(run, &self.3);
        let run = joined(run, &self.4);
        let run = joined(run, &self.5);
        packed(run)
    }

    fn into_val(self, heap: &mut Heap) -> (r: GResult<Val>) {
        let slots: Vec<Slot> = Vec::with_capacity(6);
        let run = join(Ok(slots), &self.0, heap);
        let run = join(run, &self.1, heap);
        let run = join(run, &self.2, heap);
        let run = join(run, &self.3, heap);
        let run = join(run, &self.4, heap);
        let run = join(run, &self.5, heap);
        pack(run, heap)
    }
}

impl<
    A: IntoValMut,
    B: IntoValMut,
    C: IntoValMut,
    D: IntoValMut,
    E: IntoValMut,
    F: IntoValMut,
> IntoValMut for (A, B, C, D, E, F) {
    open spec fn mut_to_val(self, h: Store) -> (Store, GResult<Val>) {
        let run = started(h);
        let run = mut_joined(run, self.0);
        let run = mut_joined(run, self.1);
        let run = mut_joined(run, self.2);
        let run = mut_joined(run, self.3);
        let run = mut_joined(run, self.4);
        let run = mut_joined(run, self.5);
        packed(run)
    }

    open spec fn leaves(self, h: Store, after: Self) -> bool {
        let run0 = started(h);
        let run1 = mut_joined(run0, self.0);
        let run2 = mut_joined(run1, self.1);
        let run3 = mut_joined(run2, self.2);
        let run4 = mut_joined(run3, self.3);
        let run5 = mut_joined(run4, self.4);
        &&& mut_left(run0, self.0, after.0)
        &&& mut_left(run1, self.1, after.1)
        &&& mut_left(run2, self.2, after.2)
        &&& mut_left(run3, self.3, after.3)
        &&& mut_left(run4, self.4, after.4)
        &&& mut_left(run5, self.5, after.5)
    }

    fn into_val_mut(&mut self, heap: &mut Heap) -> (r: GResult<Val>) {
        let slots: Vec<Slot> = Vec::with_capacity(6);
        let run = mut_join(Ok(slots), &mut self.0, heap);
        let run = mut_join(run, &mut self.1, heap);
        let run = mut_join(run, &mut self.2, heap);
        let run = mut_join(run, &mut self.3, heap);
        let run = mut_join(run, &mut self.4, heap);
        let run = mut_join(run, &mut self.5, heap);
        pack(run, heap)
    }
}

impl<
    A: IntoVal,
    B: IntoVal,
    C: IntoVal,
    D: IntoVal,
    E: IntoVal,
    F: IntoVal,
    G: IntoVal,
> IntoVal for (A, B, C, D, E, F, G) {
    open spec fn to_val(self, h: Store) -> (Store, GResult<Val>) {
        let run = started(h);
        let run = joined(run, self.0);
        let run = joined(run, self.1);
        let run = joined(run, self.2);
        let run = joined(run, self.3);
        let run = joined(run, self.4);
        let run = joined(run, self.5);
        let run = joined(run, self.6);
        packed(run)
    }

    fn into_val(self, heap: &mut Heap) -> (r: GResult<Val>) {
        let slots: Vec<Slot> = Vec::with_capacity(7);
        let run = join(Ok(slots), self.0, heap);
        let run = join(run, self.1, heap);
        let run = join(run, self.2, heap);
        let run = join(run, self.3, heap);
        let run = join(run, self.4, heap);
        let run = join(run, self.5, heap);
        let run = join(run, self.6, heap);
        pack(run, heap)
    }
}

impl<'a, A, B, C, D, E, F, G> IntoVal for &'a (A, B, C, D, E, F, G) where
    &'a A: IntoVal,
    &'a B: IntoVal,
    &'a C: IntoVal,
    &'a D: IntoVal,
    &'a E: IntoVal,
    &'a F: IntoVal,
    &'a G: IntoVal,
 {
    open spec fn to_val(self, h: Store) -> (Store, GResult<Val>) {
        let run = started(h);
        let run = joined(run, &self.0);
        let run = joined(run, &self.1);
        let run = joined(run, &self.2);
        let run = joined(run, &self.3);
        let run = joined(run, &self.4);
        let run = joined(run, &self.5);
        let run = joined(run, &self.6);
        packed(run)
    }

    fn into_val(self, heap: &mut Heap) -> (r: GResult<Val>) {
        let slots: Vec<Slot> = Vec::with_capacity(7);
        let run = join(Ok(slots), &self.0, heap);
        let run = join(run, &self.1, heap);
        let run = join(run, &self.2, heap);
        let run = join(run, &self.3, heap);
        let run = join(run, &self.4, heap);
        let run = join(run, &self.5, heap);
        let run = join(run, &self.6, heap);
        pack(run, heap)
    }
}

impl<
    A: IntoValMut,
    B: IntoValMut,
    C: IntoValMut,
    D: IntoValMut,
    E: IntoValMut,
    F: IntoValMut,
    G: IntoValMut,
> IntoValMut for (A, B, C, D, E, F, G) {
    open spec fn mut_to_val(self, h: Store) -> (Store, GResult<Val>) {
        let run = started(h);
        let run = mut_joined(run, self.0);
        let run = mut_joined(run, self.1);
        let run = mut_joined(run, self.2);
        let run = mut_joined(run, self.3);
        let run = mut_joined(run, self.4);
        let run = mut_joined(run, self.5);
        let run = mut_joined(run, self.6);
        packed(run)
    }

    open spec fn leaves(self, h: Store, after: Self) -> bool {
        let run0 = started(h);
        let run1 = mut_joined(run0, self.0);
        let run2 = mut_joined(run1, self.1);
        let run3 = mut_joined(run2, self.2);
        let run4 = mut_joined(run3, self.3);
        let run5 = mut_joined(run4, self.4);
        let run6 = mut_joined(run5, self.5);
        &&& mut_left(run0, self.0, after.0)
        &&& mut_left(run1, self.1, after.1)
        &&& mut_left(run2, self.2, after.2)
        &&& mut_left(run3, self.3, after.3)
        &&& mut_left(run4, self.4, after.4)
        &&& mut_left(run5, self.5, after.5)
        &&& mut_left(run6, self.6, after.6)
    }

    fn into_val_mut(&mut self, heap: &mut Heap) -> (r: GResult<Val>) {
        let slots: Vec<Slot> = Vec::with_capacity(7);
        let run = mut_join(Ok(slots), &mut self.0, heap);
        let run = mut_join(run, &mut self.1, heap);
        let run = mut_join(run, &mut self.2, heap);
        let run = mut_join(run, &mut self.3, heap);
        let run = mut_join(run, &mut self.4, heap);
        let run = mut_join(run, &mut self.5, heap);
        let run = mut_join(run, &mut self.6, heap);
        pack(run, heap)
    }
}

impl<
    A: IntoVal,
    B: IntoVal,
    C: IntoVal,
    D: IntoVal,
    E: IntoVal,
    F: IntoVal,
    G: IntoVal,
    H: IntoVal,
> IntoVal for (A, B, C, D, E, F, G, H) {
    open spec fn to_val(self, h: Store) -> (Store, GResult<Val>) {
        let run = started(h);
        let run = joined(run, self.0);
        let run = joined(run, self.1);
        let run = joined(run, self.2);
        let run = joined(run, self.3);
        let run = joined(run, self.4);
        let run = joined(run, self.5);
        let run = joined(run, self.6);
        let run = joined(run, self.7);
        packed(run)
    }

    fn into_val(self, heap: &mut Heap) -> (r: GResult<Val>) {
        let slots: Vec<Slot> = Vec::with_capacity(8);
        let run = join(Ok(slots), self.0, heap);
        let run = join(run, self.1, heap);
        let run = join(run, self.2, heap);
        let run = join(run, self.3, heap);
        let run = join(run, self.4, heap);
        let run = join(run, self.5, heap);
        let run = join(run, self.6, heap);
        let run = join(run, self.7, heap);
        pack(run, heap)
    }
}

impl<'a, A, B, C, D, E, F, G, H> IntoVal for &'a (A, B, C, D, E, F, G, H) where
    &'a A: IntoVal,
    &'a B: IntoVal,
    &'a C: IntoVal,
    &'a D: IntoVal,
    &'a E: IntoVal,
    &'a F: IntoVal,
    &'a G: IntoVal,
    &'a H: IntoVal,
 {
    open spec fn to_val(self, h: Store) -> (Store, GResult<Val>) {
        let run = started(h);
        let run = joined(run, &self.0);
        let run = joined(run, &self.1);
        let run = joined(run, &self.2);
        let run = joined(run, &self.3);
        let run = joined(run, &self.4);
        let run = joined(run, &self.5);
        let run = joined(run, &self.6);
        let run = joined(run, &self.7);
        packed(run)
    }

    fn into_val(self, heap: &mut Heap) -> (r: GResult<Val>) {
        let slots: Vec<Slot> = Vec::with_capacity(8);
        let run = join(Ok(slots), &self.0, heap);
        let run = join(run, &self.1, heap);
        let run = join(run, &self.2, heap);
        let run = join(run, &self.3, heap);
        let run = join(run, &self.4, heap);
        let run = join(run, &self.5, heap);
        let run = join(run, &self.6, heap);
        let run = join(run, &self.7, heap);
        pack(run, heap)
    }
}

impl<
    A: IntoValMut,
    B: IntoValMut,
    C: IntoValMut,
    D: IntoValMut,
    E: IntoValMut,
    F: IntoValMut,
    G: IntoValMut,
    H: IntoValMut,
> IntoValMut for (A, B, C, D, E, F, G, H) {
    open spec fn mut_to_val(self, h: Store) -> (Store, GResult<Val>) {
        let run = started(h);
        let run = mut_joined(run, self.0);
        let run = mut_joined(run, self.1);
        let run = mut_joined(run, self.2);
        let run = mut_joined(run, self.3);
        let run = mut_joined(run, self.4);
        let run = mut_joined(run, self.5);
        let run = mut_joined(run, self.6);
        let run = mut_joined(run, self.7);
        packed(run)
    }

    open spec fn leaves(self, h: Store, after: Self) -> bool {
        let run0 = started(h);
        let run1 = mut_joined(run0, self.0);
        let run2 = mut_joined(run1, self.1);
        let run3 = mut_joined(run2, self.2);
        let run4 = mut_joined(run3, self.3);
        let run5 = mut_joined(run4, self.4);
        let run6 = mut_joined(run5, self.5);
        let run7 = mut_joined(run6, self.6);
        &&& mut_left(run0, self.0, after.0)
        &&& mut_left(run1, self.1, after.1)
        &&& mut_left(run2, self.2, after.2)
        &&& mut_left(run3, self.3, after.3)
        &&& mut_left(run4, self.4, after.4)
        &&& mut_left(run5, self.5, after.5)
        &&& mut_left(run6, self.6, after.6)
        &&& mut_left(run7, self.7, after.7)
    }

    fn into_val_mut(&mut self, heap: &mut Heap) -> (r: GResult<Val>) {
        let slots: Vec<Slot> = Vec::with_capacity(8);
        let run = mut_join(Ok(slots), &mut self.0, heap);
        let run = mut_join(run, &mut self.1, heap);
        let run = mut_join(run, &mut self.2, heap);
        let run = mut_join(run, &mut self.3, heap);
        let run = mut_join(run, &mut self.4, heap);
        let run = mut_join(run, &mut self.5, heap);
        let run = mut_join(run, &mut self.6, heap);
        let run = mut_join(run, &mut self.7, heap);
        pack(run, heap)
    }
}

impl<
    A: IntoVal,
    B: IntoVal,
    C: IntoVal,
    D: IntoVal,
    E: IntoVal,
    F: IntoVal,
    G: IntoVal,
    H: IntoVal,
    I: IntoVal,
> IntoVal for (A, B, C, D, E, F, G, H, I) {
    open spec fn to_val(self, h: Store) -> (Store, GResult<Val>) {
        let run = started(h);
        let run = joined(run, self.0);
        let run = joined(run, self.1);
        let run = joined(run, self.2);
        let run = joined(run, self.3);
        let run = joined(run, self.4);
        let run = joined(run, self.5);
        let run = joined(run, self.6);
        let run = joined(run, self.7);
        let run = joined(run, self.8);
        packed(run)
    }

    fn into_val(self, heap: &mut Heap) -> (r: GResult<Val>) {
        let slots: Vec<Slot> = Vec::with_capacity(9);
        let run = join(Ok(slots), self.0, heap);
        let run = join(run, self.1, heap);
        let run = join(run, self.2, heap);
        let run = join(run, self.3, heap);
        let run = join(run, self.4, heap);
        let run = join(run, self.5, heap);
        let run = join(run, self.6, heap);
        let run = join(run, self.7, heap);
        let run = join(run, self.8, heap);
        pack(run, heap)
    }
}

impl<'a, A, B, C, D, E, F, G, H, I> IntoVal for &'a (A, B, C, D, E, F, G, H, I) where
    &'a A: IntoVal,
    &'a B: IntoVal,
    &'a C: IntoVal,
    &'a D: IntoVal,
    &'a E: IntoVal,
    &'a F: IntoVal,
    &'a G: IntoVal,
    &'a H: IntoVal,
    &'a I: IntoVal,
 {
    open spec fn to_val(self, h: Store) -> (Store, GResult<Val>) {
        let run = started(h);
        let run = joined(run, &self.0);
        let run = joined(run, &self.1);
        let run = joined(run, &self.2);
        let run = joined(run, &self.3);
        let run = joined(run, &self.4);
        let run = joined(run, &self.5);
        let run = joined(run, &self.6);
        let run = joined(run, &self.7);
        let run = joined(run, &self.8);
        packed(run)
    }

    fn into_val(self, heap: &mut Heap) -> (r: GResult<Val>) {
        let slots: Vec<Slot> = Vec::with_capacity(9);
        let run = join(Ok(slots), &self.0, heap);
        let run = join(run, &self.1, heap);
        let run = join(run, &self.2, heap);
        let run = join(run, &self.3, heap);
        let run = join(run, &self.4, heap);
        let run = join(run, &self.5, heap);
        let run = join(run, &self.6, heap);
        let run = join(run, &self.7, heap);
        let run = join(run, &self.8, heap);
        pack(run, heap)
    }
}

impl<
    A: IntoValMut,
    B: IntoValMut,
    C: IntoValMut,
    D: IntoValMut,
    E: IntoValMut,
    F: IntoValMut,
    G: IntoValMut,
    H: IntoValMut,
    I: IntoValMut,
> IntoValMut for (A, B, C, D, E, F, G, H, I) {
    open spec fn mut_to_val(self, h: Store) -> (Store, GResult<Val>) {
        let run = started(h);
        let run = mut_joined(run, self.0);
        let run = mut_joined(run, self.1);
        let run = mut_joined(run, self.2);
        let run = mut_joined(run, self.3);
        let run = mut_joined(run, self.4);
        let run = mut_joined(run, self.5);
        let run = mut_joined(run, self.6);
        let run = mut_joined(run, self.7);
        let run = mut_joined(run, self.8);
        packed(run)
    }

    open spec fn leaves(self, h: Store, after: Self) -> bool {
        let run0 = started(h);
        let run1 = mut_joined(run0, self.0);
        let run2 = mut_joined(run1, self.1);
        let run3 = mut_joined(run2, self.2);
        let run4 = mut_joined(run3, self.3);
        let run5 = mut_joined(run4, self.4);
        let run6 = mut_joined(run5, self.5);
        let run7 = mut_joined(run6, self.6);
        let run8 = mut_joined(run7, self.7);
        &&& mut_left(run0, self.0, after.0)
        &&& mut_left(run1, self.1, after.1)
        &&& mut_left(run2, self.2, after.2)
        &&& mut_left(run3, self.3, after.3)
        &&& mut_left(run4, self.4, after.4)
        &&& mut_left(run5, self.5, after.5)
        &&& mut_left(run6, self.6, after.6)
        &&& mut_left(run7, self.7, after.7)
        &&& mut_left(run8, self.8, after.8)
    }

    fn into_val_mut(&mut self, heap: &mut Heap) -> (r: GResult<Val>) {
        let slots: Vec<Slot> = Vec::with_capacity(9);
        let run = mut_join(Ok(slots), &mut self.0, heap);
        let run = mut_join(run, &mut self.1, heap);
        let run = mut_join(run, &mut self.2, heap);
        let run = mut_join(run, &mut self.3, heap);
        let run = mut_join(run, &mut self.4, heap);
        let run = mut_join(run, &mut self.5, heap);
        let run = mut_join(run, &mut self.6, heap);
        let run = mut_join(run, &mut self.7, heap);
        let run = mut_join(run, &mut self.8, heap);
        pack(run, heap)
    }
}

impl<
    A: IntoVal,
    B: IntoVal,
    C: IntoVal,
    D: IntoVal,
    E: IntoVal,
    F: IntoVal,
    G: IntoVal,
    H: IntoVal,
    I: IntoVal,
    J: IntoVal,
> IntoVal for (A, B, C, D, E, F, G, H, I, J) {
    open spec fn to_val(self, h: Store) -> (Store, GResult<Val>) {
        let run = started(h);
        let run = joined(run, self.0);
        let run = joined(run, self.1);
        let run = joined(run, self.2);
        let run = joined(run, self.3);
        let run = joined(run, self.4);
        let run = joined(run, self.5);
        let run = joined(run, self.6);
        let run = joined(run, self.7);
        let run = joined(run, self.8);
        let run = joined(run, self.9);
        packed(run)
    }

    fn into_val(self, heap: &mut Heap) -> (r: GResult<Val>) {
        let slots: Vec<Slot> = Vec::with_capacity(10);
        let run = join(Ok(slots), self.0, heap);
        let run = join(run, self.1, heap);
        let run = join(run, self.2, heap);
        let run = join(run, self.3, heap);
        let run = join(run, self.4, heap);
        let run = join(run, self.5, heap);
        let run = join(run, self.6, heap);
        let run = join(run, self.7, heap);
        let run = join(run, self.8, heap);
        let run = join(run, self.9, heap);
        pack(run, heap)
    }
}

impl<'a, A, B, C, D, E, F, G, H, I, J> IntoVal for &'a (A, B, C, D, E, F, G, H, I, J) where
    &'a A: IntoVal,
    &'a B: IntoVal,
    &'a C: IntoVal,
    &'a D: IntoVal,
    &'a E: IntoVal,
    &'a F: IntoVal,
    &'a G: IntoVal,
    &'a H: IntoVal,
    &'a I: IntoVal,
    &'a J: IntoVal,
 {
    open spec fn to_val(self, h: Store) -> (Store, GResult<Val>) {
        let run = started(h);
        let run = joined(run, &self.0);
        let run = joined(run, &self.1);
        let run = joined(run, &self.2);
        let run = joined(run, &self.3);
        let run = joined(run, &self.4);
        let run = joined(run, &self.5);
        let run = joined(run, &self.6);
        let run = joined(run, &self.7);
        let run = joined(run, &self.8);
        let run = joined(run, &self.9);
        packed(run)
    }

    fn into_val(self, heap: &mut Heap) -> (r: GResult<Val>) {
        let slots: Vec<Slot> = Vec::with_capacity(10);
        let run = join(Ok(slots), &self.0, heap);
        let run = join(run, &self.1, heap);
        let run = join(run, &self.2, heap);
        let run = join(run, &self.3, heap);
        let run = join(run, &self.4, heap);
        let run = join(run, &self.5, heap);
        let run = join(run, &self.6, heap);
        let run = join(run, &self.7, heap);
        let run = join(run, &self.8, heap);
        let run = join(run, &self.9, heap);
        pack(run, heap)
    }
}

impl<
    A: IntoValMut,
    B: IntoValMut,
    C: IntoValMut,
    D: IntoValMut,
    E: IntoValMut,
    F: IntoValMut,
    G: IntoValMut,
    H: IntoValMut,
    I: IntoValMut,
    J: IntoValMut,
> IntoValMut for (A, B, C, D, E, F, G, H, I, J) {
    open spec fn mut_to_val(self, h: Store) -> (Store, GResult<Val>) {
        let run = started(h);
        let run = mut_joined(run, self.0);
        let run = mut_joined(run, self.1);
        let run = mut_joined(run, self.2);
        let run = mut_joined(run, self.3);
        let run = mut_joined(run, self.4);
        let run = mut_joined(run, self.5);
        let run = mut_joined(run, self.6);
        let run = mut_joined(run, self.7);
        let run = mut_joined(run, self.8);
        let run = mut_joined(run, self.9);
        packed(run)
    }

    open spec fn leaves(self, h: Store, after: Self) -> bool {
        let run0 = started(h);
        let run1 = mut_joined(run0, self.0);
        let run2 = mut_joined(run1, self.1);
        let run3 = mut_joined(run2, self.2);
        let run4 = mut_joined(run3, self.3);
        let run5 = mut_joined(run4, self.4);
        let run6 = mut_joined(run5, self.5);
        let run7 = mut_joined(run6, self.6);
        let run8 = mut_joined(run7, self.7);
        let run9 = mut_joined(run8, self.8);
        &&& mut_left(run0, self.0, after.0)
        &&& mut_left(run1, self.1, after.1)
        &&& mut_left(run2, self.2, after.2)
        &&& mut_left(run3, self.3, after.3)
        &&& mut_left(run4, self.4, after.4)
        &&& mut_left(run5, self.5, after.5)
        &&& mut_left(run6, self.6, after.6)
        &&& mut_left(run7, self.7, after.7)
        &&& mut_left(run8, self.8, after.8)
        &&& mut_left(run9, self.9, after.9)
    }

    fn into_val_mut(&mut self, heap: &mut Heap) -> (r: GResult<Val>) {
        let slots: Vec<Slot> = Vec::with_capacity(10);
        let run = mut_join(Ok(slots), &mut self.0, heap);
        let run = mut_join(run, &mut self.1, heap);
        let run = mut_join(run, &mut self.2, heap);
        let run = mut_join(run, &mut self.3, heap);
        let run = mut_join(run, &mut self.4, heap);
        let run = mut_join(run, &mut self.5, heap);
        let run = mut_join(run, &mut self.6, heap);
        let run = mut_join(run, &mut self.7, heap);
        let run = mut_join(run, &mut self.8, heap);
        let run = mut_join(run, &mut self.9, heap);
        pack(run, heap)
    }
}

impl<
    A: IntoVal,
    B: IntoVal,
    C: IntoVal,
    D: IntoVal,
    E: IntoVal,
    F: IntoVal,
    G: IntoVal,
    H: IntoVal,
    I: IntoVal,
    J: IntoVal,
    K: IntoVal,
> IntoVal for (A, B, C, D, E, F, G, H, I, J, K) {
    open spec fn to_val(self, h: Store) -> (Store, GResult<Val>) {
        let run = started(h);
        let run = joined(run, self.0);
        let run = joined(run, self.1);
        let run = joined(run, self.2);
        let run = joined(run, self.3);
        let run = joined(run, self.4);
        let run = joined(run, self.5);
        let run = joined(run, self.6);
        let run = joined(run, self.7);
        let run = joined(run, self.8);
        let run = joined(run, self.9);
        let run = joined(run, self.10);
        packed(run)
    }

    fn into_val(self, heap: &mut Heap) -> (r: GResult<Val>) {
        let slots: Vec<Slot> = Vec::with_capacity(11);
        let run = join(Ok(slots), self.0, heap);
        let run = join(run, self.1, heap);
        let run = join(run, self.2, heap);
        let run = join(run, self.3, heap);
        let run = join(run, self.4, heap);
        let run = join(run, self.5, heap);
        let run = join(run, self.6, heap);
        let run = join(run, self.7, heap);
        let run = join(run, self.8, heap);
        let run = join(run, self.9, heap);
        let run = join(run, self.10, heap);
        pack(run, heap)
    }
}

impl<'a, A, B, C, D, E, F, G, H, I, J, K> IntoVal for &'a (A, B, C, D, E, F, G, H, I, J, K) where
    &'a A: IntoVal,
    &'a B: IntoVal,
    &'a C: IntoVal,
    &'a D: IntoVal,
    &'a E: IntoVal,
    &'a F: IntoVal,
    &'a G: IntoVal,
    &'a H: IntoVal,
    &'a I: IntoVal,
    &'a J: IntoVal,
    &'a K: IntoVal,
 {
    open spec fn to_val(self, h: Store) -> (Store, GResult<Val>) {
        let run = started(h);
        let run = joined(run, &self.0);
        let run = joined(run, &self.1);
        let run = joined(run, &self.2);
        let run = joined(run, &self.3);
        let run = joined(run, &self.4);
        let run = joined(run, &self.5);
        let run = joined(run, &self.6);
        let run = joined(run, &self.7);
        let run = joined(run, &self.8);
        let run = joined(run, &self.9);
        let run = joined(run, &self.10);
        packed(run)
    }

    fn into_val(self, heap: &mut Heap) -> (r: GResult<Val>) {
        let slots: Vec<Slot> = Vec::with_capacity(11);
        let run = join(Ok(slots), &self.0, heap);
        let run = join(run, &self.1, heap);
        let run = join(run, &self.2, heap);
        let run = join(run, &self.3, heap);
        let run = join(run, &self.4, heap);
        let run = join(run, &self.5, heap);
        let run = join(run, &self.6, heap);
        let run = join(run, &self.7, heap);
        let run = join(run, &self.8, heap);
        let run = join(run, &self.9, heap);
        let run = join(run, &self.10, heap);
        pack(run, heap)
    }
}

impl<
    A: IntoValMut,
    B: IntoValMut,
    C: IntoValMut,
    D: IntoValMut,
    E: IntoValMut,
    F: IntoValMut,
    G: IntoValMut,
    H: IntoValMut,
    I: IntoValMut,
    J: IntoValMut,
    K: IntoValMut,
> IntoValMut for (A, B, C, D, E, F, G, H, I, J, K) {
    open spec fn mut_to_val(self, h: Store) -> (Store, GResult<Val>) {
        let run = started(h);
        let run = mut_joined(run, self.0);
        let run = mut_joined(run, self.1);
        let run = mut_joined(run, self.2);
        let run = mut_joined(run, self.3);
        let run = mut_joined(run, self.4);
        let run = mut_joined(run, self.5);
        let run = mut_joined(run, self.6);
        let run = mut_joined(run, self.7);
        let run = mut_joined(run, self.8);
        let run = mut_joined(run, self.9);
        let run = mut_joined(run, self.10);
        packed(run)
    }

    open spec fn leaves(self, h: Store, after: Self) -> bool {
        let run0 = started(h);
        let run1 = mut_joined(run0, self.0);
        let run2 = mut_joined(run1, self.1);
        let run3 = mut_joined(run2, self.2);
        let run4 = mut_joined(run3, self.3);
        let run5 = mut_joined(run4, self.4);
        let run6 = mut_joined(run5, self.5);
        let run7 = mut_joined(run6, self.6);
        let run8 = mut_joined(run7, self.7);
        let run9 = mut_joined(run8, self.8);
        let run10 = mut_joined(run9, self.9);
        &&& mut_left(run0, self.0, after.0)
        &&& mut_left(run1, self.1, after.1)
        &&& mut_left(run2, self.2, after.2)
        &&& mut_left(run3, self.3, after.3)
        &&& mut_left(run4, self.4, after.4)
        &&& mut_left(run5, self.5, after.5)
        &&& mut_left(run6, self.6, after.6)
        &&& mut_left(run7, self.7, after.7)
        &&& mut_left(run8, self.8, after.8)
        &&& mut_left(run9, self.9, after.9)
        &&& mut_left(run10, self.10, after.10)
    }

    fn into_val_mut(&mut self, heap: &mut Heap) -> (r: GResult<Val>) {
        let slots: Vec<Slot> = Vec::with_capacity(11);
        let run = mut_join(Ok(slots), &mut self.0, heap);
        let run = mut_join(run, &mut self.1, heap);
        let run = mut_join(run, &mut self.2, heap);
        let run = mut_join(run, &mut self.3, heap);
        let run = mut_join(run, &mut self.4, heap);
        let run = mut_join(run, &mut self.5, heap);
        let run = mut_join(run, &mut self.6, heap);
        let run = mut_join(run, &mut self.7, heap);
        let run = mut_join(run, &mut self.8, heap);
        let run = mut_join(run, &mut self.9, heap);
        let run = mut_join(run, &mut self.10, heap);
        pack(run, heap)
    }
}

impl<
    A: IntoVal,
    B: IntoVal,
    C: IntoVal,
    D: IntoVal,
    E: IntoVal,
    F: IntoVal,
    G: IntoVal,
    H: IntoVal,
    I: IntoVal,
    J: IntoVal,
    K: IntoVal,
    L: IntoVal,
> IntoVal for (A, B, C, D, E, F, G, H, I, J, K, L) {
    open spec fn to_val(self, h: Store) -> (Store, GResult<Val>) {
        let run = started(h);
        let run = joined(run, self.0);
        let run = joined(run, self.1);
        let run = joined(run, self.2);
        let run = joined(run, self.3);
        let run = joined(run, self.4);
        let run = joined(run, self.5);
        let run = joined(run, self.6);
        let run = joined(run, self.7);
        let run = joined(run, self.8);
        let run = joined(run, self.9);
        let run = joined(run, self.10);
        let run = joined(run, self.11);
        packed(run)
    }

    fn into_val(self, heap: &mut Heap) -> (r: GResult<Val>) {
        let slots: Vec<Slot> = Vec::with_capacity(12);
        let run = join(Ok(slots), self.0, heap);
        let run = join(run, self.1, heap);
        let run = join(run, self.2, heap);
        let run = join(run, self.3, heap);
        let run = join(run, self.4, heap);
        let run = join(run, self.5, heap);
        let run = join(run, self.6, heap);
        let run = join(run, self.7, heap);
        let run = join(run, self.8, heap);
        let run = join(run, self.9, heap);
        let run = join(run, self.10, heap);
        let run = join(run, self.11, heap);
        pack(run, heap)
    }
}

impl<
    'a,
    A,
    B,
    C,
    D,
    E,
    F,
    G,
    H,
    I,
    J,
    K,
    L,
> IntoVal for &'a (A, B, C, D, E, F, G, H, I, J, K, L) where
    &'a A: IntoVal,
    &'a B: IntoVal,
    &'a C: IntoVal,
    &'a D: IntoVal,
    &'a E: IntoVal,
    &'a F: IntoVal,
    &'a G: IntoVal,
    &'a H: IntoVal,
    &'a I: IntoVal,
    &'a J: IntoVal,
    &'a K: IntoVal,
    &'a L: IntoVal,
 {
    open spec fn to_val(self, h: Store) -> (Store, GResult<Val>) {
        let run = started(h);
        let run = joined(run, &self.0);
        let run = joined(run, &self.1);
        let run = joined(run, &self.2);
        let run = joined(run, &self.3);
        let run = joined(run, &self.4);
        let run = joined(run, &self.5);
        let run = joined(run, &self.6);
        let run = joined(run, &self.7);
        let run = joined(run, &self.8);
        let run = joined(run, &self.9);
        let run = joined(run, &self.10);
        let run = joined(run, &self.11);
        packed(run)
    }

    fn into_val(self, heap: &mut Heap) -> (r: GResult<Val>) {
        let slots: Vec<Slot> = Vec::with_capacity(12);
        let run = join(Ok(slots), &self.0, heap);
        let run = join(run, &self.1, heap);
        let run = join(run, &self.2, heap);
        let run = join(run, &self.3, heap);
        let run = join(run, &self.4, heap);
        let run = join(run, &self.5, heap);
        let run = join(run, &self.6, heap);
        let run = join(run, &self.7, heap);
        let run = join(run, &self.8, heap);
        let run = join(run, &self.9, heap);
        let run = join(run, &self.10, heap);
        let run = join(run, &self.11, heap);
        pack(run, heap)
    }
}

impl<
    A: IntoValMut,
    B: IntoValMut,
    C: IntoValMut,
    D: IntoValMut,
    E: IntoValMut,
    F: IntoValMut,
    G: IntoValMut,
    H: IntoValMut,
    I: IntoValMut,
    J: IntoValMut,
    K: IntoValMut,
    L: IntoValMut,
> IntoValMut for (A, B, C, D, E, F, G, H, I, J, K, L) {
    open spec fn mut_to_val(self, h: Store) -> (Store, GResult<Val>) {
        let run = started(h);
        let run = mut_joined(run, self.0);
        let run = mut_joined(run, self.1);
        let run = mut_joined(run, self.2);
        let run = mut_joined(run, self.3);
        let run = mut_joined(run, self.4);
        let run = mut_joined(run, self.5);
        let run = mut_joined(run, self.6);
        let run = mut_joined(run, self.7);
        let run = mut_joined(run, self.8);
        let run = mut_joined(run, self.9);
        let run = mut_joined(run, self.10);
        let run = mut_joined(run, self.11);
        packed(run)
    }

    open spec fn leaves(self, h: Store, after: Self) -> bool {
        let run0 = started(h);
        let run1 = mut_joined(run0, self.0);
        let run2 = mut_joined(run1, self.1);
        let run3 = mut_joined(run2, self.2);
        let run4 = mut_joined(run3, self.3);
        let run5 = mut_joined(run4, self.4);
        let run6 = mut_joined(run5, self.5);
        let run7 = mut_joined(run6, self.6);
        let run8 = mut_joined(run7, self.7);
        let run9 = mut_joined(run8, self.8);
        let run10 = mut_joined(run9, self.9);
        let run11 = mut_joined(run10, self.10);
        &&& mut_left(run0, self.0, after.0)
        &&& mut_left(run1, self.1, after.1)
        &&& mut_left(run2, self.2, after.2)
        &&& mut_left(run3, self.3, after.3)
        &&& mut_left(run4, self.4, after.4)
        &&& mut_left(run5, self.5, after.5)
        &&& mut_left(run6, self.6, after.6)
        &&& mut_left(run7, self.7, after.7)
        &&& mut_left(run8, self.8, after.8)
        &&& mut_left(run9, self.9, after.9)
        &&& mut_left(run10, self.10, after.10)
        &&& mut_left(run11, self.11, after.11)
    }

    fn into_val_mut(&mut self, heap: &mut Heap) -> (r: GResult<Val>) {
        let slots: Vec<Slot> = Vec::with_capacity(12);
        let run = mut_join(Ok(slots), &mut self.0, heap);
        let run = mut_join(run, &mut self.1, heap);
        let run = mut_join(run, &mut self.2, heap);
        let run = mut_join(run, &mut self.3, heap);
        let run = mut_join(run, &mut self.4, heap);
        let run = mut_join(run, &mut self.5, heap);
        let run = mut_join(run, &mut self.6, heap);
        let run = mut_join(run, &mut self.7, heap);
        let run = mut_join(run, &mut self.8, heap);
        let run = mut_join(run, &mut self.9, heap);
        let run = mut_join(run, &mut self.10, heap);
        let run = mut_join(run, &mut self.11, heap);
        pack(run, heap)
    }
}

} // verus!
