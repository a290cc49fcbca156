//! `FromVal`: from values to host types.

use vstd::prelude::*;

use crate::error::{Expected, GError, GResult};
use crate::marker::StaticMarker;
use crate::store::{Heap, Store};
use crate::value::{Slot, Val};

verus! {

/// A host type, with what its values stand for.
pub trait Modelled: Sized {
    /// What a host value of this type stands for: the value itself, or what it holds.
    type Model;

    /// What this host value stands for.
    spec fn model(self) -> Self::Model;
}

/// A host type whose values stand for themselves.
pub trait Plain: Modelled<Model = Self> {
    /// What it stands for is itself.
    proof fn stands_for_itself(self)
        ensures
            self.model() == self,
    ;
}

/// A host type to which values of the scripting language can be converted.
///
/// What a conversion returns is a function of the value and of the heap that it refers to.
pub trait FromVal: Modelled + StaticMarker {
    /// What the conversion returns.
    spec fn of_val(h: Store, v: Val) -> GResult<Self::Model>;

    /// Converts from a value.
    fn from_val(heap: &Heap, val: &Val) -> (r: GResult<Self>)
        ensures
            modelled(r) == Self::of_val(heap@, *val),
    ;

    /// Converts from a slot: what `from_val` gives for the value that it holds.
    fn from_slot(heap: &Heap, slot: &Slot) -> (r: GResult<Self>)
        ensures
            modelled(r) == Self::of_val(heap@, slot.val()),
    {
        Self::from_val(heap, &slot.root())
    }
}

/// What a converted host value stands for, where there is one.
pub open spec fn modelled<T: Modelled>(r: GResult<T>) -> GResult<T::Model> {
    match r {
        Ok(t) => Ok(t.model()),
        Err(e) => Err(e),
    }
}

/// What a sequence of host values stands for.
pub open spec fn models<T: Modelled>(items: Seq<T>) -> Seq<T::Model> {
    items.map_values(|t: T| t.model())
}

/// The items of the array that a value is.
pub open spec fn items_of(h: Store, v: Val, expected: Expected) -> GResult<Seq<Slot>> {
    match v {
        Val::Arr(root) => h.arr(root),
        _ => Err(GError::WrongType { expected, received: v.type_of() }),
    }
}

/// The conversions of `slots`, in their order, up to the first that fails.
pub open spec fn each<T: FromVal>(h: Store, slots: Seq<Slot>) -> GResult<Seq<T::Model>>
    decreases slots.len(),
{
    if slots.len() == 0 {
        Ok(seq![])
    } else {
        match each::<T>(h, slots.drop_last()) {
            Err(e) => Err(e),
            Ok(before) => match T::of_val(h, slots.last().val()) {
                Err(e) => Err(e),
                Ok(m) => Ok(before.push(m)),
            },
        }
    }
}

/// The conversions of the items of the array that a value is.
pub open spec fn all_of<T: FromVal>(h: Store, v: Val, expected: Expected) -> GResult<
    Seq<T::Model>,
> {
    match items_of(h, v, expected) {
        Err(e) => Err(e),
        Ok(slots) => each::<T>(h, slots),
    }
}

/// A run of conversions that has failed stays as it is.
pub(crate) proof fn lemma_each_failed<T: FromVal>(h: Store, slots: Seq<Slot>, k: int)
    requires
        0 <= k <= slots.len(),
        each::<T>(h, slots.take(k)) is Err,
    ensures
        each::<T>(h, slots) == each::<T>(h, slots.take(k)),
    decreases slots.len(),
{
    if k < slots.len() {
        assert(slots.drop_last().take(k) =~= slots.take(k));
        lemma_each_failed::<T>(h, slots.drop_last(), k);
    } else {
        assert(slots.take(k) =~= slots);
    }
}

/// As many come out as went in, each the conversion of its own slot.
pub(crate) proof fn lemma_each_ok<T: FromVal>(h: Store, slots: Seq<Slot>)
    requires
        each::<T>(h, slots) is Ok,
    ensures
        each::<T>(h, slots)->Ok_0.len() == slots.len(),
        forall|i: int|
            0 <= i < slots.len() ==> T::of_val(h, #[trigger] slots[i].val()) == Ok::<
                T::Model,
                GError,
            >(each::<T>(h, slots)->Ok_0[i]),
    decreases slots.len(),
{
    if slots.len() > 0 {
        lemma_each_ok::<T>(h, slots.drop_last());
        let before = each::<T>(h, slots.drop_last())->Ok_0;
        assert forall|i: int| 0 <= i < slots.len() implies T::of_val(h, #[trigger] slots[i].val())
            == Ok::<T::Model, GError>(each::<T>(h, slots)->Ok_0[i]) by {
            if i < slots.len() - 1 {
                assert(slots.drop_last()[i] == slots[i]);
                assert(T::of_val(h, slots.drop_last()[i].val()) == Ok::<T::Model, GError>(
                    before[i],
                ));
            }
        }
    }
}

/// Looks up the items of the array that a value is.
pub(crate) fn read_items<'a>(heap: &'a Heap, val: &Val, expected: Expected) -> (r: GResult<
    &'a Vec<Slot>,
>)
    ensures
        match r {
            Ok(slots) => items_of(heap@, *val, expected) == Ok::<Seq<Slot>, GError>(slots@),
            Err(e) => items_of(heap@, *val, expected) == Err::<Seq<Slot>, GError>(e),
        },
{
    match *val {
        Val::Arr(root) => heap.arr(root),
        _ => Err(GError::WrongType { expected, received: val.val_type() }),
    }
}

} // verus!
