//! `IntoCallArgs`: from host values to the arguments of a call.

use vstd::prelude::*;
use vstd::std_specs::iter::IteratorSpec;

use crate::error::{GError, GResult};
use crate::into_call_args_private::Sealed;
use crate::into_val::{
    join, joined, mut_join, mut_joined, mut_left, slotted, started, IntoVal, IntoValMut,
};
use crate::rest::Rest;
use crate::slice_mut::each_mut;
use crate::store::{Heap, Store};
use crate::value::Slot;

verus! {

/// What comes of converting a list of arguments: what is left on the heap, the slots, and whether
/// all has gone well.
#[verifier::ext_equal]
pub struct Offer {
    pub heap: Store,
    pub slots: Seq<Slot>,
    pub outcome: GResult<()>,
}

/// A type which can be converted into the arguments to a function call.
///
/// It is not possible to implement this trait for your own types, but it is implemented for tuples,
/// slices, arrays, and references to the same, when their elements all implement `IntoVal`. In a
/// mutable reference to one of these, every element is converted by mutable reference.
pub trait IntoCallArgs: Sealed + Sized {
    /// How many arguments these are.
    spec fn count(self) -> nat;

    /// What comes of converting these.
    spec fn offer(self, h: Store) -> Offer;

    /// What the conversion of the `i`th of these gives, on the heap that those before it leave.
    spec fn nth(self, h: Store, i: int) -> (Store, GResult<Slot>);

    /// All goes well exactly where every one of these can be converted: then there are as many
    /// slots as there are arguments, each its own, in order. Else the first that cannot be
    /// converted is the reason.
    proof fn lawful_offer(self, h: Store)
        ensures
            self.offer(h).outcome is Ok <==> forall|i: int|
                0 <= i < self.count() ==> (#[trigger] self.nth(h, i)).1 is Ok,
            self.offer(h).outcome is Ok ==> {
                &&& self.offer(h).slots.len() == self.count()
                &&& forall|i: int|
                    0 <= i < self.count() ==> self.offer(h).slots[i] == (#[trigger] self.nth(
                        h,
                        i,
                    )).1->Ok_0
            },
            forall|k: int|
                0 <= k < self.count() && (#[trigger] self.nth(h, k)).1 is Err && (forall|i: int|
                    0 <= i < k ==> (#[trigger] self.nth(h, i)).1 is Ok) ==> self.offer(h).outcome
                    == Err::<(), GError>(self.nth(h, k).1->Err_0),
    ;

    /// Tells how many arguments these are.
    fn arg_count(&self) -> (n: usize)
        ensures
            n == (*self).count(),
    ;

    /// Converts these, and adds the slots to `dst`, after the last.
    fn into_call_args(self, dst: &mut Vec<Slot>, heap: &mut Heap) -> (r: GResult<()>)
        ensures
            ({
                let offer = self.offer(old(heap)@);
                &&& final(heap)@ == offer.heap
                &&& final(dst)@ == old(dst)@ + offer.slots
                &&& r == offer.outcome
            }),
    ;
}

/// The offer, carried on by one item: its slot joins the others. Where it cannot be converted,
/// `nil` takes its place, and the first error is kept.
pub open spec fn offered<T: IntoVal>(offer: Offer, item: T) -> Offer {
    let (h, r) = slotted(item.to_val(offer.heap));
    match r {
        Ok(slot) => Offer { heap: h, slots: offer.slots.push(slot), outcome: offer.outcome },
        Err(e) => Offer {
            heap: h,
            slots: offer.slots.push(Slot::Nil),
            outcome: if offer.outcome is Ok {
                Err(e)
            } else {
                offer.outcome
            },
        },
    }
}

/// The offer of all of `items`, converted in their order.
pub open spec fn offer_all<T: IntoVal>(h: Store, items: Seq<T>) -> Offer
    decreases items.len(),
{
    if items.len() == 0 {
        Offer { heap: h, slots: seq![], outcome: Ok(()) }
    } else {
        offered(offer_all(h, items.drop_last()), items.last())
    }
}

/// The offer of a run of conversions: all of its slots, or none where one has failed.
pub open spec fn offer_run(run: (Store, GResult<Seq<Slot>>)) -> Offer {
    match run.1 {
        Ok(slots) => Offer { heap: run.0, slots, outcome: Ok(()) },
        Err(e) => Offer { heap: run.0, slots: seq![], outcome: Err(e) },
    }
}

/// The offer, carried on by one item that is converted by mutable reference.
pub open spec fn mut_offered<T: IntoValMut>(offer: Offer, item: T) -> Offer {
    let (h, r) = slotted(item.mut_to_val(offer.heap));
    match r {
        Ok(slot) => Offer { heap: h, slots: offer.slots.push(slot), outcome: offer.outcome },
        Err(e) => Offer {
            heap: h,
            slots: offer.slots.push(Slot::Nil),
            outcome: if offer.outcome is Ok {
                Err(e)
            } else {
                offer.outcome
            },
        },
    }
}

/// The offer of all of `items`, converted in their order, each by mutable reference.
pub open spec fn mut_offer_all<T: IntoValMut>(h: Store, items: Seq<T>) -> Offer
    decreases items.len(),
{
    if items.len() == 0 {
        Offer { heap: h, slots: seq![], outcome: Ok(()) }
    } else {
        mut_offered(mut_offer_all(h, items.drop_last()), items.last())
    }
}

/// `after` is what may be left of `items` when all of them are offered by mutable reference.
pub open spec fn mut_offer_left<T: IntoValMut>(h: Store, items: Seq<T>, after: Seq<T>) -> bool {
    &&& after.len() == items.len()
    &&& forall|i: int|
        0 <= i < items.len() ==> items[i].leaves(
            mut_offer_all(h, items.take(i)).heap,
            #[trigger] after[i],
        )
}

/// What the conversion of the `i`th of `items` gives, on the heap that those before it leave.
pub open spec fn nth_offered<T: IntoVal>(
    h: Store,
    items: Seq<T>,
    i: int,
) -> (Store, GResult<Slot>) {
    slotted(items[i].to_val(offer_all(h, items.take(i)).heap))
}

/// However the conversions go, every item of a list gets a slot: its own, or `nil` where it cannot
/// be converted. All goes well exactly where every item can be; else the first that cannot is the
/// reason.
pub proof fn law_every_item_has_a_slot<T: IntoVal>(h: Store, items: Seq<T>)
    ensures
        offer_all(h, items).slots.len() == items.len(),
        forall|i: int|
            #![trigger nth_offered(h, items, i)]
            #![trigger offer_all(h, items).slots[i]]
            0 <= i < items.len() ==> offer_all(h, items).slots[i] == (match nth_offered(
                h,
                items,
                i,
            ).1 {
                Ok(slot) => slot,
                Err(_) => Slot::Nil,
            }),
        offer_all(h, items).outcome is Ok <==> forall|i: int|
            0 <= i < items.len() ==> (#[trigger] nth_offered(h, items, i)).1 is Ok,
        forall|k: int|
            0 <= k < items.len() && (#[trigger] nth_offered(
                h,
                items,
                k,
            )).1 is Err && (forall|i: int|
                0 <= i < k ==> (#[trigger] nth_offered(
                    h,
                    items,
                    i,
                )).1 is Ok) ==> offer_all(h, items).outcome
                == Err::<(), GError>(nth_offered(h, items, k).1->Err_0),
    decreases items.len(),
{
    if items.len() > 0 {
        let fewer = items.drop_last();
        let last = items.len() - 1;
        law_every_item_has_a_slot(h, fewer);
        assert(items.take(last) =~= fewer);
        assert forall|i: int|
            #![trigger nth_offered(h, fewer, i)]
            #![trigger nth_offered(h, items, i)]
            0 <= i < last implies nth_offered(h, fewer, i) == nth_offered(h, items, i) by {
            assert(fewer.take(i) =~= items.take(i));
        }
        let end = nth_offered(h, items, last);
        assert forall|k: int|
            0 <= k < items.len() && (#[trigger] nth_offered(
                h,
                items,
                k,
            )).1 is Err && (forall|i: int|
                0 <= i < k ==> (#[trigger] nth_offered(
                    h,
                    items,
                    i,
                )).1 is Ok) implies offer_all(h, items).outcome
            == Err::<(), GError>(nth_offered(h, items, k).1->Err_0) by {
            if k < last {
                assert(nth_offered(h, fewer, k).1 is Err);
            }
        }
    }
}

/// What the conversion of the `i`th of `items` by mutable reference gives, on the heap that those
/// before it leave.
pub open spec fn nth_mut_offered<T: IntoValMut>(
    h: Store,
    items: Seq<T>,
    i: int,
) -> (Store, GResult<Slot>) {
    slotted(items[i].mut_to_val(mut_offer_all(h, items.take(i)).heap))
}

/// The same of items that are converted by mutable reference.
pub proof fn law_every_item_has_a_slot_by_mut<T: IntoValMut>(h: Store, items: Seq<T>)
    ensures
        mut_offer_all(h, items).slots.len() == items.len(),
        forall|i: int|
            #![trigger nth_mut_offered(h, items, i)]
            #![trigger mut_offer_all(h, items).slots[i]]
            0 <= i < items.len() ==> mut_offer_all(h, items).slots[i] == (match nth_mut_offered(
                h,
                items,
                i,
            ).1 {
                Ok(slot) => slot,
                Err(_) => Slot::Nil,
            }),
        mut_offer_all(h, items).outcome is Ok <==> forall|i: int|
            0 <= i < items.len() ==> (#[trigger] nth_mut_offered(h, items, i)).1 is Ok,
        forall|k: int|
            0 <= k < items.len() && (#[trigger] nth_mut_offered(
                h,
                items,
                k,
            )).1 is Err && (forall|i: int|
                0 <= i < k ==> (#[trigger] nth_mut_offered(
                    h,
                    items,
                    i,
                )).1 is Ok) ==> mut_offer_all(h, items).outcome
                == Err::<(), GError>(nth_mut_offered(h, items, k).1->Err_0),
    decreases items.len(),
{
    if items.len() > 0 {
        let fewer = items.drop_last();
        let last = items.len() - 1;
        law_every_item_has_a_slot_by_mut(h, fewer);
        assert(items.take(last) =~= fewer);
        assert forall|i: int|
            #![trigger nth_mut_offered(h, fewer, i)]
            #![trigger nth_mut_offered(h, items, i)]
            0 <= i < last implies nth_mut_offered(h, fewer, i) == nth_mut_offered(h, items, i) by {
            assert(fewer.take(i) =~= items.take(i));
        }
        let end = nth_mut_offered(h, items, last);
        assert forall|k: int|
            0 <= k < items.len() && (#[trigger] nth_mut_offered(
                h,
                items,
                k,
            )).1 is Err && (forall|i: int|
                0 <= i < k ==> (#[trigger] nth_mut_offered(
                    h,
                    items,
                    i,
                )).1 is Ok) implies mut_offer_all(h, items).outcome
            == Err::<(), GError>(nth_mut_offered(h, items, k).1->Err_0) by {
            if k < last {
                assert(nth_mut_offered(h, fewer, k).1 is Err);
            }
        }
    }
}

/// Adds one item to an offer, by mutable reference.
fn offer_one_mut<T: IntoValMut>(
    item: &mut T,
    outcome: GResult<()>,
    dst: &mut Vec<Slot>,
    heap: &mut Heap,
) -> (r: GResult<()>)
    ensures
        (*old(item)).leaves(old(heap)@, *final(item)),
        forall|before: Seq<Slot>, slots: Seq<Slot>|
            #![trigger before + slots]
            old(dst)@ == before + slots ==> {
                let offer = mut_offered(Offer { heap: old(heap)@, slots, outcome }, *old(item));
                &&& final(heap)@ == offer.heap
                &&& final(dst)@ == before + offer.slots
                &&& r == offer.outcome
            },
{
    match item.into_val_mut(heap) {
        Ok(val) => {
            let slot = Slot::from_val(&val);
            dst.push(slot);
            proof {
                assert forall|before: Seq<Slot>, slots: Seq<Slot>|
                    #![trigger before + slots]
                    old(dst)@ == before + slots implies dst@ == before + slots.push(slot) by {
                    assert((before + slots).push(slot) =~= before + slots.push(slot));
                }
            }
            outcome
        },
        Err(e) => {
            dst.push(Slot::Nil);
            proof {
                assert forall|before: Seq<Slot>, slots: Seq<Slot>|
                    #![trigger before + slots]
                    old(dst)@ == before + slots implies dst@ == before + slots.push(Slot::Nil) by {
                    assert((before + slots).push(Slot::Nil) =~= before + slots.push(Slot::Nil));
                }
            }
            match outcome {
                Ok(_) => Err(e),
                Err(first) => Err(first),
            }
        },
    }
}

/// Offers all of `items`, each by mutable reference.
fn offer_muts<T: IntoValMut>(items: &mut [T], dst: &mut Vec<Slot>, heap: &mut Heap) -> (r: GResult<
    (),
>)
    ensures
        ({
            let offer = mut_offer_all(old(heap)@, old(items)@);
            &&& final(heap)@ == offer.heap
            &&& final(dst)@ == old(dst)@ + offer.slots
            &&& r == offer.outcome
        }),
        mut_offer_left(old(heap)@, old(items)@, final(items)@),
{
    let ghost h = heap@;
    let ghost before = dst@;
    let ghost all = items@;
    let mut outcome: GResult<()> = Ok(());
    let mut iter = each_mut(items);
    let ghost refs = iter.remaining();
    let ghost mut k: int = 0;
    proof {
        assert(all.take(0) =~= seq![]);
        assert(before + Seq::<Slot>::empty() =~= before);
        assert(refs.skip(0) =~= refs);
    }
    loop
        invariant
            0 <= k <= all.len(),
            h == old(heap)@,
            before == old(dst)@,
            iter.obeys_prophetic_iter_laws(),
            iter.decrease() is Some,
            refs.len() == all.len(),
            iter.remaining() == refs.skip(k),
            forall|i: int| 0 <= i < all.len() ==> *(#[trigger] refs[i]) == all[i],
            forall|i: int|
                0 <= i < k ==> all[i].leaves(
                    mut_offer_all(h, all.take(i)).heap,
                    *final(#[trigger] refs[i]),
                ),
            heap@ == mut_offer_all(h, all.take(k)).heap,
            dst@ == before + mut_offer_all(h, all.take(k)).slots,
            outcome == mut_offer_all(h, all.take(k)).outcome,
        ensures
            k == all.len(),
        decreases iter.decrease()->0,
    {
        match iter.next() {
            Some(item) => {
                proof {
                    assert(item == refs[k]);
                    assert(all.take(k + 1).drop_last() =~= all.take(k));
                    assert(refs.skip(k).drop_first() =~= refs.skip(k + 1));
                }
                outcome = offer_one_mut(item, outcome, dst, heap);
                proof {
                    k = k + 1;
                }
            },
            None => break,
        }
    }
    proof {
        assert(all.take(k) =~= all);
    }
    outcome
}

/// Adds one item to an offer.
fn offer_one<T: IntoVal>(item: T, outcome: GResult<()>, dst: &mut Vec<Slot>, heap: &mut Heap) -> (r:
    GResult<()>)
    ensures
        forall|before: Seq<Slot>, slots: Seq<Slot>|
            #![trigger before + slots]
            old(dst)@ == before + slots ==> {
                let offer = offered(Offer { heap: old(heap)@, slots, outcome }, item);
                &&& final(heap)@ == offer.heap
                &&& final(dst)@ == before + offer.slots
                &&& r == offer.outcome
            },
{
    match item.into_slot(heap) {
        Ok(slot) => {
            dst.push(slot);
            proof {
                assert forall|before: Seq<Slot>, slots: Seq<Slot>|
                    #![trigger before + slots]
                    old(dst)@ == before + slots implies dst@ == before + slots.push(slot) by {
                    assert((before + slots).push(slot) =~= before + slots.push(slot));
                }
            }
            outcome
        },
        Err(e) => {
            dst.push(Slot::Nil);
            proof {
                assert forall|before: Seq<Slot>, slots: Seq<Slot>|
                    #![trigger before + slots]
                    old(dst)@ == before + slots implies dst@ == before + slots.push(Slot::Nil) by {
                    assert((before + slots).push(Slot::Nil) =~= before + slots.push(Slot::Nil));
                }
            }
            match outcome {
                Ok(_) => Err(e),
                Err(first) => Err(first),
            }
        },
    }
}

/// Offers all that `items` refers to.
fn offer_refs<'a, T>(items: &'a [T], dst: &mut Vec<Slot>, heap: &mut Heap) -> (r: GResult<()>) where
    &'a T: IntoVal,

    ensures
        ({
            let offer = offer_all(old(heap)@, items@.as_ref());
            &&& final(heap)@ == offer.heap
            &&& final(dst)@ == old(dst)@ + offer.slots
            &&& r == offer.outcome
        }),
{
    let ghost h = heap@;
    let ghost before = dst@;
    let ghost all = items@.as_ref();
    let mut outcome: GResult<()> = Ok(());
    let mut i: usize = 0;
    proof {
        assert(all.take(0) =~= seq![]);
        assert(before + Seq::<Slot>::empty() =~= before);
    }
    while i < items.len()
        invariant
            i <= items.len(),
            h == old(heap)@,
            before == old(dst)@,
            all == items@.as_ref(),
            heap@ == offer_all(h, all.take(i as int)).heap,
            dst@ == before + offer_all(h, all.take(i as int)).slots,
            outcome == offer_all(h, all.take(i as int)).outcome,
        decreases items.len() - i,
    {
        proof {
            assert(all.take(i + 1).drop_last() =~= all.take(i as int));
        }
        let item: &'a T = &items[i];
        outcome = offer_one(item, outcome, dst, heap);
        i = i + 1;
    }
    proof {
        assert(all.take(i as int) =~= all);
    }
    outcome
}

/// Offers all of `items`.
fn offer_items<T: IntoVal>(items: Vec<T>, dst: &mut Vec<Slot>, heap: &mut Heap) -> (r: GResult<()>)
    ensures
        ({
            let offer = offer_all(old(heap)@, items@);
            &&& final(heap)@ == offer.heap
            &&& final(dst)@ == old(dst)@ + offer.slots
            &&& r == offer.outcome
        }),
{
    let ghost h = heap@;
    let ghost before = dst@;
    let ghost all = items@;
    let mut outcome: GResult<()> = Ok(());
    proof {
        assert(all.take(0) =~= seq![]);
        assert(before + Seq::<Slot>::empty() =~= before);
    }
    for item in it: items
        invariant
            h == old(heap)@,
            before == old(dst)@,
            it.seq() == all,
            all == items@,
            heap@ == offer_all(h, all.take(it.index() as int)).heap,
            dst@ == before + offer_all(h, all.take(it.index() as int)).slots,
            outcome == offer_all(h, all.take(it.index() as int)).outcome,
    {
        proof {
            let k = it.index() as int;
            assert(all.take(k + 1).drop_last() =~= all.take(k));
        }
        outcome = offer_one(item, outcome, dst, heap);
    }
    proof {
        assert(all.take(all.len() as int) =~= all);
    }
    outcome
}

/// Offers what a run of conversions has come to.
fn offer_slots(run: GResult<Vec<Slot>>, dst: &mut Vec<Slot>) -> (r: GResult<()>)
    ensures
        match run {
            Ok(slots) => final(dst)@ == old(dst)@ + slots@ && r == Ok::<(), GError>(()),
            Err(e) => final(dst)@ == old(dst)@ && r == Err::<(), GError>(e),
        },
{
    match run {
        Ok(slots) => {
            let mut slots = slots;
            dst.append(&mut slots);
            Ok(())
        },
        Err(e) => Err(e),
    }
}

impl<'a, T> IntoCallArgs for &'a [T] where &'a T: IntoVal {
    open spec fn count(self) -> nat {
        self@.len()
    }

    open spec fn offer(self, h: Store) -> Offer {
        offer_all::<&T>(h, self@.as_ref())
    }

    open spec fn nth(self, h: Store, i: int) -> (Store, GResult<Slot>) {
        nth_offered::<&T>(h, self@.as_ref(), i)
    }

    proof fn lawful_offer(self, h: Store) {
        let items = self@.as_ref();
        law_every_item_has_a_slot::<&T>(h, items);
        assert forall|i: int| 0 <= i < items.len() implies #[trigger] nth_offered::<&T>(
            h,
            items,
            i,
        ) == self.nth(
            h,
            i,
        ) by {
        }
    }

    fn arg_count(&self) -> (n: usize) {
        self.len()
    }

    fn into_call_args(self, dst: &mut Vec<Slot>, heap: &mut Heap) -> (r: GResult<()>) {
        offer_refs::<T>(self, dst, heap)
    }
}

impl<'a, T: IntoValMut> IntoCallArgs for &'a mut [T] {
    open spec fn count(self) -> nat {
        (*self)@.len()
    }

    open spec fn offer(self, h: Store) -> Offer {
        mut_offer_all(h, (*self)@)
    }

    open spec fn nth(self, h: Store, i: int) -> (Store, GResult<Slot>) {
        nth_mut_offered(h, (*self)@, i)
    }

    proof fn lawful_offer(self, h: Store) {
        let items = (*self)@;
        law_every_item_has_a_slot_by_mut(h, items);
        assert forall|i: int| 0 <= i < items.len() implies #[trigger] nth_mut_offered(
            h,
            items,
            i,
        ) == self.nth(
            h,
            i,
        ) by {
        }
    }

    fn arg_count(&self) -> (n: usize) {
        self.len()
    }

    fn into_call_args(self, dst: &mut Vec<Slot>, heap: &mut Heap) -> (r: GResult<()>)
        ensures
            mut_offer_left(old(heap)@, old(self)@, final(self)@),
    {
        offer_muts(self, dst, heap)
    }
}

impl<T, const N: usize> IntoCallArgs for [T; N] where for <'b>&'b T: IntoVal {
    open spec fn count(self) -> nat {
        self@.len()
    }

    open spec fn offer(self, h: Store) -> Offer {
        offer_all::<&T>(h, self@.as_ref())
    }

    open spec fn nth(self, h: Store, i: int) -> (Store, GResult<Slot>) {
        nth_offered::<&T>(h, self@.as_ref(), i)
    }

    proof fn lawful_offer(self, h: Store) {
        let items = self@.as_ref();
        law_every_item_has_a_slot::<&T>(h, items);
        assert forall|i: int| 0 <= i < items.len() implies #[trigger] nth_offered::<&T>(
            h,
            items,
            i,
        ) == self.nth(
            h,
            i,
        ) by {
        }
    }

    fn arg_count(&self) -> (n: usize) {
        N
    }

    fn into_call_args(self, dst: &mut Vec<Slot>, heap: &mut Heap) -> (r: GResult<()>) {
        offer_refs::<T>(self.as_slice(), dst, heap)
    }
}

impl<'a, T, const N: usize> IntoCallArgs for &'a [T; N] where &'a T: IntoVal {
    open spec fn count(self) -> nat {
        self@.len()
    }

    open spec fn offer(self, h: Store) -> Offer {
        offer_all::<&T>(h, self@.as_ref())
    }

    open spec fn nth(self, h: Store, i: int) -> (Store, GResult<Slot>) {
        nth_offered::<&T>(h, self@.as_ref(), i)
    }

    proof fn lawful_offer(self, h: Store) {
        let items = self@.as_ref();
        law_every_item_has_a_slot::<&T>(h, items);
        assert forall|i: int| 0 <= i < items.len() implies #[trigger] nth_offered::<&T>(
            h,
            items,
            i,
        ) == self.nth(
            h,
            i,
        ) by {
        }
    }

    fn arg_count(&self) -> (n: usize) {
        N
    }

    fn into_call_args(self, dst: &mut Vec<Slot>, heap: &mut Heap) -> (r: GResult<()>) {
        offer_refs::<T>(self.as_slice(), dst, heap)
    }
}

impl<'a, T: IntoValMut, const N: usize> IntoCallArgs for &'a mut [T; N] {
    open spec fn count(self) -> nat {
        (*self)@.len()
    }

    open spec fn offer(self, h: Store) -> Offer {
        mut_offer_all(h, (*self)@)
    }

    open spec fn nth(self, h: Store, i: int) -> (Store, GResult<Slot>) {
        nth_mut_offered(h, (*self)@, i)
    }

    proof fn lawful_offer(self, h: Store) {
        let items = (*self)@;
        law_every_item_has_a_slot_by_mut(h, items);
        assert forall|i: int| 0 <= i < items.len() implies #[trigger] nth_mut_offered(
            h,
            items,
            i,
        ) == self.nth(
            h,
            i,
        ) by {
        }
    }

    fn arg_count(&self) -> (n: usize) {
        N
    }

    fn into_call_args(self, dst: &mut Vec<Slot>, heap: &mut Heap) -> (r: GResult<()>)
        ensures
            mut_offer_left(old(heap)@, old(self)@, final(self)@),
    {
        offer_muts(self, dst, heap)
    }
}

impl<'a, T: IntoVal> IntoCallArgs for Rest<'a, T> {
    open spec fn count(self) -> nat {
        self.items().len()
    }

    open spec fn offer(self, h: Store) -> Offer {
        offer_all(h, self.items())
    }

    open spec fn nth(self, h: Store, i: int) -> (Store, GResult<Slot>) {
        nth_offered(h, self.items(), i)
    }

    proof fn lawful_offer(self, h: Store) {
        let items = self.items();
        law_every_item_has_a_slot(h, items);
        assert forall|i: int| 0 <= i < items.len() implies #[trigger] nth_offered(
            h,
            items,
            i,
        ) == self.nth(
            h,
            i,
        ) by {
        }
    }

    fn arg_count(&self) -> (n: usize) {
        self.len()
    }

    fn into_call_args(self, dst: &mut Vec<Slot>, heap: &mut Heap) -> (r: GResult<()>) {
        offer_items(self.into_vec(), dst, heap)
    }
}

impl<'r, 'a, T> IntoCallArgs for &'r Rest<'a, T> where &'r T: IntoVal {
    open spec fn count(self) -> nat {
        self.items().len()
    }

    open spec fn offer(self, h: Store) -> Offer {
        offer_all::<&T>(h, self.items().as_ref())
    }

    open spec fn nth(self, h: Store, i: int) -> (Store, GResult<Slot>) {
        nth_offered::<&T>(h, self.items().as_ref(), i)
    }

    proof fn lawful_offer(self, h: Store) {
        let items = self.items().as_ref();
        law_every_item_has_a_slot::<&T>(h, items);
        assert forall|i: int| 0 <= i < items.len() implies #[trigger] nth_offered::<&T>(
            h,
            items,
            i,
        ) == self.nth(
            h,
            i,
        ) by {
        }
    }

    fn arg_count(&self) -> (n: usize) {
        self.len()
    }

    fn into_call_args(self, dst: &mut Vec<Slot>, heap: &mut Heap) -> (r: GResult<()>) {
        offer_refs::<T>(self.as_items(), dst, heap)
    }
}

impl<'r, 'a, T: IntoValMut> IntoCallArgs for &'r mut Rest<'a, T> {
    open spec fn count(self) -> nat {
        (*self).items().len()
    }

    open spec fn offer(self, h: Store) -> Offer {
        mut_offer_all(h, (*self).items())
    }

    open spec fn nth(self, h: Store, i: int) -> (Store, GResult<Slot>) {
        nth_mut_offered(h, (*self).items(), i)
    }

    proof fn lawful_offer(self, h: Store) {
        let items = (*self).items();
        law_every_item_has_a_slot_by_mut(h, items);
        assert forall|i: int| 0 <= i < items.len() implies #[trigger] nth_mut_offered(
            h,
            items,
            i,
        ) == self.nth(
            h,
            i,
        ) by {
        }
    }

    fn arg_count(&self) -> (n: usize) {
        self.len()
    }

    fn into_call_args(self, dst: &mut Vec<Slot>, heap: &mut Heap) -> (r: GResult<()>)
        ensures
            mut_offer_left(old(heap)@, old(self).items(), final(self).items()),
    {
        offer_muts(self.as_items_mut(), dst, heap)
    }
}

impl IntoCallArgs for () {
    open spec fn count(self) -> nat {
        0
    }

    open spec fn offer(self, h: Store) -> Offer {
        Offer { heap: h, slots: seq![], outcome: Ok(()) }
    }

    open spec fn nth(self, h: Store, i: int) -> (Store, GResult<Slot>) {
        (h, Ok(Slot::Nil))
    }

    proof fn lawful_offer(self, h: Store) {
    }

    fn arg_count(&self) -> (n: usize) {
        0
    }

    fn into_call_args(self, dst: &mut Vec<Slot>, heap: &mut Heap) -> (r: GResult<()>) {
        assert(dst@ + Seq::<Slot>::empty() =~= dst@);
        Ok(())
    }
}

impl<'a> IntoCallArgs for &'a () {
    open spec fn count(self) -> nat {
        0
    }

    open spec fn offer(self, h: Store) -> Offer {
        Offer { heap: h, slots: seq![], outcome: Ok(()) }
    }

    open spec fn nth(self, h: Store, i: int) -> (Store, GResult<Slot>) {
        (h, Ok(Slot::Nil))
    }

    proof fn lawful_offer(self, h: Store) {
    }

    fn arg_count(&self) -> (n: usize) {
        0
    }

    fn into_call_args(self, dst: &mut Vec<Slot>, heap: &mut Heap) -> (r: GResult<()>) {
        assert(dst@ + Seq::<Slot>::empty() =~= dst@);
        Ok(())
    }
}

impl<'a> IntoCallArgs for &'a mut () {
    open spec fn count(self) -> nat {
        0
    }

    open spec fn offer(self, h: Store) -> Offer {
        Offer { heap: h, slots: seq![], outcome: Ok(()) }
    }

    open spec fn nth(self, h: Store, i: int) -> (Store, GResult<Slot>) {
        (h, Ok(Slot::Nil))
    }

    proof fn lawful_offer(self, h: Store) {
    }

    fn arg_count(&self) -> (n: usize) {
        0
    }

    fn into_call_args(self, dst: &mut Vec<Slot>, heap: &mut Heap) -> (r: GResult<()>) {
        assert(dst@ + Seq::<Slot>::empty() =~= dst@);
        Ok(())
    }
}

impl<A: IntoVal> IntoCallArgs for (A,) {
    open spec fn count(self) -> nat {
        1
    }

    open spec fn offer(self, h: Store) -> Offer {
        let run = started(h);
        let run = joined(run, self.0);
        offer_run(run)
    }

    open spec fn nth(self, h: Store, i: int) -> (Store, GResult<Slot>) {
        let run0 = started(h);
        slotted(self.0.to_val(run0.0))
    }

    proof fn lawful_offer(self, h: Store) {
        let run0 = started(h);
        let run1 = joined(run0, self.0);
        let nth0 = self.nth(h, 0);
    }

    fn arg_count(&self) -> (n: usize) {
        1
    }

    fn into_call_args(self, dst: &mut Vec<Slot>, heap: &mut Heap) -> (r: GResult<()>) {
        assert(dst@ + Seq::<Slot>::empty() =~= dst@);
        let slots: Vec<Slot> = Vec::with_capacity(1);
        let run = join(Ok(slots), self.0, heap);
        offer_slots(run, dst)
    }
}

impl<'a, A> IntoCallArgs for &'a (A,) where
    &'a A: IntoVal,
 {
    open spec fn count(self) -> nat {
        1
    }

    open spec fn offer(self, h: Store) -> Offer {
        let run = started(h);
        let run = joined(run, &self.0);
        offer_run(run)
    }

    open spec fn nth(self, h: Store, i: int) -> (Store, GResult<Slot>) {
        let run0 = started(h);
        slotted((&self.0).to_val(run0.0))
    }

    proof fn lawful_offer(self, h: Store) {
        let run0 = started(h);
        let run1 = joined(run0, &self.0);
        let nth0 = self.nth(h, 0);
    }

    fn arg_count(&self) -> (n: usize) {
        1
    }

    fn into_call_args(self, dst: &mut Vec<Slot>, heap: &mut Heap) -> (r: GResult<()>) {
        assert(dst@ + Seq::<Slot>::empty() =~= dst@);
        let slots: Vec<Slot> = Vec::with_capacity(1);
        let run = join(Ok(slots), &self.0, heap);
        offer_slots(run, dst)
    }
}

impl<'a, A: IntoValMut> IntoCallArgs for &'a mut (A,) {
    open spec fn count(self) -> nat {
        1
    }

    open spec fn offer(self, h: Store) -> Offer {
        let run = started(h);
        let run = mut_joined(run, (*self).0);
        offer_run(run)
    }

    open spec fn nth(self, h: Store, i: int) -> (Store, GResult<Slot>) {
        let run0 = started(h);
        slotted((*self).0.mut_to_val(run0.0))
    }

    proof fn lawful_offer(self, h: Store) {
        let run0 = started(h);
        let run1 = mut_joined(run0, (*self).0);
        let nth0 = self.nth(h, 0);
    }

    fn arg_count(&self) -> (n: usize) {
        1
    }

    fn into_call_args(self, dst: &mut Vec<Slot>, heap: &mut Heap) -> (r: GResult<()>)
        ensures
            ({
                let run0 = started(old(heap)@);
                &&& mut_left(run0, old(self).0, final(self).0)
            }),
    {
        assert(dst@ + Seq::<Slot>::empty() =~= dst@);
        let slots: Vec<Slot> = Vec::with_capacity(1);
        let run = mut_join(Ok(slots), &mut self.0, heap);
        offer_slots(run, dst)
    }
}

impl<A: IntoVal, B: IntoVal> IntoCallArgs for (A, B) {
    open spec fn count(self) -> nat {
        2
    }

    open spec fn offer(self, h: Store) -> Offer {
        let run = started(h);
        let run = joined(run, self.0);
        let run = joined(run, self.1);
        offer_run(run)
    }

    open spec fn nth(self, h: Store, i: int) -> (Store, GResult<Slot>) {
        let run0 = started(h);
        let run1 = joined(run0, self.0);
        if i == 0 {
            slotted(self.0.to_val(run0.0))
        } else {
            slotted(self.1.to_val(run1.0))
        }
    }

    proof fn lawful_offer(self, h: Store) {
        let run0 = started(h);
        let run1 = joined(run0, self.0);
        let run2 = joined(run1, self.1);
        let nth0 = self.nth(h, 0);
        let nth1 = self.nth(h, 1);
    }

    fn arg_count(&self) -> (n: usize) {
        2
    }

    fn into_call_args(self, dst: &mut Vec<Slot>, heap: &mut Heap) -> (r: GResult<()>) {
        assert(dst@ + Seq::<Slot>::empty() =~= dst@);
        let slots: Vec<Slot> = Vec::with_capacity(2);
        let run = join(Ok(slots), self.0, heap);
        let run = join(run, self.1, heap);
        offer_slots(run, dst)
    }
}

impl<'a, A, B> IntoCallArgs for &'a (A, B) where
    &'a A: IntoVal,
    &'a B: IntoVal,
 {
    open spec fn count(self) -> nat {
        2
    }

    open spec fn offer(self, h: Store) -> Offer {
        let run = started(h);
        let run = joined(run, &self.0);
        let run = joined(run, &self.1);
        offer_run(run)
    }

    open spec fn nth(self, h: Store, i: int) -> (Store, GResult<Slot>) {
        let run0 = started(h);
        let run1 = joined(run0, &self.0);
        if i == 0 {
            slotted((&self.0).to_val(run0.0))
        } else {
            slotted((&self.1).to_val(run1.0))
        }
    }

    proof fn lawful_offer(self, h: Store) {
        let run0 = started(h);
        let run1 = joined(run0, &self.0);
        let run2 = joined(run1, &self.1);
        let nth0 = self.nth(h, 0);
        let nth1 = self.nth(h, 1);
    }

    fn arg_count(&self) -> (n: usize) {
        2
    }

    fn into_call_args(self, dst: &mut Vec<Slot>, heap: &mut Heap) -> (r: GResult<()>) {
        assert(dst@ + Seq::<Slot>::empty() =~= dst@);
        let slots: Vec<Slot> = Vec::with_capacity(2);
        let run = join(Ok(slots), &self.0, heap);
        let run = join(run, &self.1, heap);
        offer_slots(run, dst)
    }
}

impl<'a, A: IntoValMut, B: IntoValMut> IntoCallArgs for &'a mut (A, B) {
    open spec fn count(self) -> nat {
        2
    }

    open spec fn offer(self, h: Store) -> Offer {
        let run = started(h);
        let run = mut_joined(run, (*self).0);
        let run = mut_joined(run, (*self).1);
        offer_run(run)
    }

    open spec fn nth(self, h: Store, i: int) -> (Store, GResult<Slot>) {
        let run0 = started(h);
        let run1 = mut_joined(run0, (*self).0);
        if i == 0 {
            slotted((*self).0.mut_to_val(run0.0))
        } else {
            slotted((*self).1.mut_to_val(run1.0))
        }
    }

    proof fn lawful_offer(self, h: Store) {
        let run0 = started(h);
        let run1 = mut_joined(run0, (*self).0);
        let run2 = mut_joined(run1, (*self).1);
        let nth0 = self.nth(h, 0);
        let nth1 = self.nth(h, 1);
    }

    fn arg_count(&self) -> (n: usize) {
        2
    }

    fn into_call_args(self, dst: &mut Vec<Slot>, heap: &mut Heap) -> (r: GResult<()>)
        ensures
            ({
                let run0 = started(old(heap)@);
                let run1 = mut_joined(run0, old(self).0);
                &&& mut_left(run0, old(self).0, final(self).0)
                &&& mut_left(run1, old(self).1, final(self).1)
            }),
    {
        assert(dst@ + Seq::<Slot>::empty() =~= dst@);
        let slots: Vec<Slot> = Vec::with_capacity(2);
        let run = mut_join(Ok(slots), &mut self.0, heap);
        let run = mut_join(run, &mut self.1, heap);
        offer_slots(run, dst)
    }
}

impl<A: IntoVal, B: IntoVal, C: IntoVal> IntoCallArgs for (A, B, C) {
    open spec fn count(self) -> nat {
        3
    }

    open spec fn offer(self, h: Store) -> Offer {
        let run = started(h);
        let run = joined(run, self.0);
        let run = joined(run, self.1);
        let run = joined(run, self.2);
        offer_run(run)
    }

    open spec fn nth(self, h: Store, i: int) -> (Store, GResult<Slot>) {
        let run0 = started(h);
        let run1 = joined(run0, self.0);
        let run2 = joined(run1, self.1);
        if i == 0 {
            slotted(self.0.to_val(run0.0))
        } else if i == 1 {
            slotted(self.1.to_val(run1.0))
        } else {
            slotted(self.2.to_val(run2.0))
        }
    }

    proof fn lawful_offer(self, h: Store) {
        let run0 = started(h);
        let run1 = joined(run0, self.0);
        let run2 = joined(run1, self.1);
        let run3 = joined(run2, self.2);
        let nth0 = self.nth(h, 0);
        let nth1 = self.nth(h, 1);
        let nth2 = self.nth(h, 2);
    }

    fn arg_count(&self) -> (n: usize) {
        3
    }

    fn into_call_args(self, dst: &mut Vec<Slot>, heap: &mut Heap) -> (r: GResult<()>) {
        assert(dst@ + Seq::<Slot>::empty() =~= dst@);
        let slots: Vec<Slot> = Vec::with_capacity(3);
        let run = join(Ok(slots), self.0, heap);
        let run = join(run, self.1, heap);
        let run = join(run, self.2, heap);
        offer_slots(run, dst)
    }
}

impl<'a, A, B, C> IntoCallArgs for &'a (A, B, C) where
    &'a A: IntoVal,
    &'a B: IntoVal,
    &'a C: IntoVal,
 {
    open spec fn count(self) -> nat {
        3
    }

    open spec fn offer(self, h: Store) -> Offer {
        let run = started(h);
        let run = joined(run, &self.0);
        let run = joined(run, &self.1);
        let run = joined(run, &self.2);
        offer_run(run)
    }

    open spec fn nth(self, h: Store, i: int) -> (Store, GResult<Slot>) {
        let run0 = started(h);
        let run1 = joined(run0, &self.0);
        let run2 = joined(run1, &self.1);
        if i == 0 {
            slotted((&self.0).to_val(run0.0))
        } else if i == 1 {
            slotted((&self.1).to_val(run1.0))
        } else {
            slotted((&self.2).to_val(run2.0))
        }
    }

    proof fn lawful_offer(self, h: Store) {
        let run0 = started(h);
        let run1 = joined(run0, &self.0);
        let run2 = joined(run1, &self.1);
        let run3 = joined(run2, &self.2);
        let nth0 = self.nth(h, 0);
        let nth1 = self.nth(h, 1);
        let nth2 = self.nth(h, 2);
    }

    fn arg_count(&self) -> (n: usize) {
        3
    }

    fn into_call_args(self, dst: &mut Vec<Slot>, heap: &mut Heap) -> (r: GResult<()>) {
        assert(dst@ + Seq::<Slot>::empty() =~= dst@);
        let slots: Vec<Slot> = Vec::with_capacity(3);
        let run = join(Ok(slots), &self.0, heap);
        let run = join(run, &self.1, heap);
        let run = join(run, &self.2, heap);
        offer_slots(run, dst)
    }
}

impl<'a, A: IntoValMut, B: IntoValMut, C: IntoValMut> IntoCallArgs for &'a mut (A, B, C) {
    open spec fn count(self) -> nat {
        3
    }

    open spec fn offer(self, h: Store) -> Offer {
        let run = started(h);
        let run = mut_joined(run, (*self).0);
        let run = mut_joined(run, (*self).1);
        let run = mut_joined(run, (*self).2);
        offer_run(run)
    }

    open spec fn nth(self, h: Store, i: int) -> (Store, GResult<Slot>) {
        let run0 = started(h);
        let run1 = mut_joined(run0, (*self).0);
        let run2 = mut_joined(run1, (*self).1);
        if i == 0 {
            slotted((*self).0.mut_to_val(run0.0))
        } else if i == 1 {
            slotted((*self).1.mut_to_val(run1.0))
        } else {
            slotted((*self).2.mut_to_val(run2.0))
        }
    }

    proof fn lawful_offer(self, h: Store) {
        let run0 = started(h);
        let run1 = mut_joined(run0, (*self).0);
        let run2 = mut_joined(run1, (*self).1);
        let run3 = mut_joined(run2, (*self).2);
        let nth0 = self.nth(h, 0);
        let nth1 = self.nth(h, 1);
        let nth2 = self.nth(h, 2);
    }

    fn arg_count(&self) -> (n: usize) {
        3
    }

    fn into_call_args(self, dst: &mut Vec<Slot>, heap: &mut Heap) -> (r: GResult<()>)
        ensures
            ({
                let run0 = started(old(heap)@);
                let run1 = mut_joined(run0, old(self).0);
                let run2 = mut_joined(run1, old(self).1);
                &&& mut_left(run0, old(self).0, final(self).0)
                &&& mut_left(run1, old(self).1, final(self).1)
                &&& mut_left(run2, old(self).2, final(self).2)
            }),
    {
        assert(dst@ + Seq::<Slot>::empty() =~= dst@);
        let slots: Vec<Slot> = Vec::with_capacity(3);
        let run = mut_join(Ok(slots), &mut self.0, heap);
        let run = mut_join(run, &mut self.1, heap);
        let run = mut_join(run, &mut self.2, heap);
        offer_slots(run, dst)
    }
}

impl<A: IntoVal, B: IntoVal, C: IntoVal, D: IntoVal> IntoCallArgs for (A, B, C, D) {
    open spec fn count(self) -> nat {
        4
    }

    open spec fn offer(self, h: Store) -> Offer {
        let run = started(h);
        let run = joined(run, self.0);
        let run = joined(run, self.1);
        let run = joined(run, self.2);
        let run = joined(run, self.3);
        offer_run(run)
    }

    open spec fn nth(self, h: Store, i: int) -> (Store, GResult<Slot>) {
        let run0 = started(h);
        let run1 = joined(run0, self.0);
        let run2 = joined(run1, self.1);
        let run3 = joined(run2, self.2);
        if i == 0 {
            slotted(self.0.to_val(run0.0))
        } else if i == 1 {
            slotted(self.1.to_val(run1.0))
        } else if i == 2 {
            slotted(self.2.to_val(run2.0))
        } else {
            slotted(self.3.to_val(run3.0))
        }
    }

    proof fn lawful_offer(self, h: Store) {
        let run0 = started(h);
        let run1 = joined(run0, self.0);
        let run2 = joined(run1, self.1);
        let run3 = joined(run2, self.2);
        let run4 = joined(run3, self.3);
        let nth0 = self.nth(h, 0);
        let nth1 = self.nth(h, 1);
        let nth2 = self.nth(h, 2);
        let nth3 = self.nth(h, 3);
    }

    fn arg_count(&self) -> (n: usize) {
        4
    }

    fn into_call_args(self, dst: &mut Vec<Slot>, heap: &mut Heap) -> (r: GResult<()>) {
        assert(dst@ + Seq::<Slot>::empty() =~= dst@);
        let slots: Vec<Slot> = Vec::with_capacity(4);
        let run = join(Ok(slots), self.0, heap);
        let run = join(run, self.1, heap);
        let run = join(run, self.2, heap);
        let run = join(run, self.3, heap);
        offer_slots(run, dst)
    }
}

impl<'a, A, B, C, D> IntoCallArgs for &'a (A, B, C, D) where
    &'a A: IntoVal,
    &'a B: IntoVal,
    &'a C: IntoVal,
    &'a D: IntoVal,
 {
    open spec fn count(self) -> nat {
        4
    }

    open spec fn offer(self, h: Store) -> Offer {
        let run = started(h);
        let run = joined(run, &self.0);
        let run = joined(run, &self.1);
        let run = joined(run, &self.2);
        let run = joined(run, &self.3);
        offer_run(run)
    }

    open spec fn nth(self, h: Store, i: int) -> (Store, GResult<Slot>) {
        let run0 = started(h);
        let run1 = joined(run0, &self.0);
        let run2 = joined(run1, &self.1);
        let run3 = joined(run2, &self.2);
        if i == 0 {
            slotted((&self.0).to_val(run0.0))
        } else if i == 1 {
            slotted((&self.1).to_val(run1.0))
        } else if i == 2 {
            slotted((&self.2).to_val(run2.0))
        } else {
            slotted((&self.3).to_val(run3.0))
        }
    }

    proof fn lawful_offer(self, h: Store) {
        let run0 = started(h);
        let run1 = joined(run0, &self.0);
        let run2 = joined(run1, &self.1);
        let run3 = joined(run2, &self.2);
        let run4 = joined(run3, &self.3);
        let nth0 = self.nth(h, 0);
        let nth1 = self.nth(h, 1);
        let nth2 = self.nth(h, 2);
        let nth3 = self.nth(h, 3);
    }

    fn arg_count(&self) -> (n: usize) {
        4
    }

    fn into_call_args(self, dst: &mut Vec<Slot>, heap: &mut Heap) -> (r: GResult<()>) {
        assert(dst@ + Seq::<Slot>::empty() =~= dst@);
        let slots: Vec<Slot> = Vec::with_capacity(4);
        let run = join(Ok(slots), &self.0, heap);
        let run = join(run, &self.1, heap);
        let run = join(run, &self.2, heap);
        let run = join(run, &self.3, heap);
        offer_slots(run, dst)
    }
}

impl<
    'a,
    A: IntoValMut,
    B: IntoValMut,
    C: IntoValMut,
    D: IntoValMut,
> IntoCallArgs for &'a mut (A, B, C, D) {
    open spec fn count(self) -> nat {
        4
    }

    open spec fn offer(self, h: Store) -> Offer {
        let run = started(h);
        let run = mut_joined(run, (*self).0);
        let run = mut_joined(run, (*self).1);
        let run = mut_joined(run, (*self).2);
        let run = mut_joined(run, (*self).3);
        offer_run(run)
    }

    open spec fn nth(self, h: Store, i: int) -> (Store, GResult<Slot>) {
        let run0 = started(h);
        let run1 = mut_joined(run0, (*self).0);
        let run2 = mut_joined(run1, (*self).1);
        let run3 = mut_joined(run2, (*self).2);
        if i == 0 {
            slotted((*self).0.mut_to_val(run0.0))
        } else if i == 1 {
            slotted((*self).1.mut_to_val(run1.0))
        } else if i == 2 {
            slotted((*self).2.mut_to_val(run2.0))
        } else {
            slotted((*self).3.mut_to_val(run3.0))
        }
    }

    proof fn lawful_offer(self, h: Store) {
        let run0 = started(h);
        let run1 = mut_joined(run0, (*self).0);
        let run2 = mut_joined(run1, (*self).1);
        let run3 = mut_joined(run2, (*self).2);
        let run4 = mut_joined(run3, (*self).3);
        let nth0 = self.nth(h, 0);
        let nth1 = self.nth(h, 1);
        let nth2 = self.nth(h, 2);
        let nth3 = self.nth(h, 3);
    }

    fn arg_count(&self) -> (n: usize) {
        4
    }

    fn into_call_args(self, dst: &mut Vec<Slot>, heap: &mut Heap) -> (r: GResult<()>)
        ensures
            ({
                let run0 = started(old(heap)@);
                let run1 = mut_joined(run0, old(self).0);
                let run2 = mut_joined(run1, old(self).1);
                let run3 = mut_joined(run2, old(self).2);
                &&& mut_left(run0, old(self).0, final(self).0)
                &&& mut_left(run1, old(self).1, final(self).1)
                &&& mut_left(run2, old(self).2, final(self).2)
                &&& mut_left(run3, old(self).3, final(self).3)
            }),
    {
        assert(dst@ + Seq::<Slot>::empty() =~= dst@);
        let slots: Vec<Slot> = Vec::with_capacity(4);
        let run = mut_join(Ok(slots), &mut self.0, heap);
        let run = mut_join(run, &mut self.1, heap);
        let run = mut_join(run, &mut self.2, heap);
        let run = mut_join(run, &mut self.3, heap);
        offer_slots(run, dst)
    }
}

impl<A: IntoVal, B: IntoVal, C: IntoVal, D: IntoVal, E: IntoVal> IntoCallArgs for (A, B, C, D, E) {
    open spec fn count(self) -> nat {
        5
    }

    open spec fn offer(self, h: Store) -> Offer {
        let run = started(h);
        let run = joined(run, self.0);
        let run = joined(run, self.1);
        let run = joined(run, self.2);
        let run = joined(run, self.3);
        let run = joined(run, self.4);
        offer_run(run)
    }

    open spec fn nth(self, h: Store, i: int) -> (Store, GResult<Slot>) {
        let run0 = started(h);
        let run1 = joined(run0, self.0);
        let run2 = joined(run1, self.1);
        let run3 = joined(run2, self.2);
        let run4 = joined(run3, self.3);
        if i == 0 {
            slotted(self.0.to_val(run0.0))
        } else if i == 1 {
            slotted(self.1.to_val(run1.0))
        } else if i == 2 {
            slotted(self.2.to_val(run2.0))
        } else if i == 3 {
            slotted(self.3.to_val(run3.0))
        } else {
            slotted(self.4.to_val(run4.0))
        }
    }

    proof fn lawful_offer(self, h: Store) {
        let run0 = started(h);
        let run1 = joined(run0, self.0);
        let run2 = joined(run1, self.1);
        let run3 = joined(run2, self.2);
        let run4 = joined(run3, self.3);
        let run5 = joined(run4, self.4);
        let nth0 = self.nth(h, 0);
        let nth1 = self.nth(h, 1);
        let nth2 = self.nth(h, 2);
        let nth3 = self.nth(h, 3);
        let nth4 = self.nth(h, 4);
    }

    fn arg_count(&self) -> (n: usize) {
        5
    }

    fn into_call_args(self, dst: &mut Vec<Slot>, heap: &mut Heap) -> (r: GResult<()>) {
        assert(dst@ + Seq::<Slot>::empty() =~= dst@);
        let slots: Vec<Slot> = Vec::with_capacity(5);
        let run = join(Ok(slots), self.0, heap);
        let run = join(run, self.1, heap);
        let run = join(run, self.2, heap);
        let run = join(run, self.3, heap);
        let run = join(run, self.4, heap);
        offer_slots(run, dst)
    }
}

impl<'a, A, B, C, D, E> IntoCallArgs for &'a (A, B, C, D, E) where
    &'a A: IntoVal,
    &'a B: IntoVal,
    &'a C: IntoVal,
    &'a D: IntoVal,
    &'a E: IntoVal,
 {
    open spec fn count(self) -> nat {
        5
    }

    open spec fn offer(self, h: Store) -> Offer {
        let run = started(h);
        let run = joined(run, &self.0);
        let run = joined(run, &self.1);
        let run = joined(run, &self.2);
        let run = joined(run, &self.3);
        let run = joined(run, &self.4);
        offer_run(run)
    }

    open spec fn nth(self, h: Store, i: int) -> (Store, GResult<Slot>) {
        let run0 = started(h);
        let run1 = joined(run0, &self.0);
        let run2 = joined(run1, &self.1);
        let run3 = joined(run2, &self.2);
        let run4 = joined(run3, &self.3);
        if i == 0 {
            slotted((&self.0).to_val(run0.0))
        } else if i == 1 {
            slotted((&self.1).to_val(run1.0))
        } else if i == 2 {
            slotted((&self.2).to_val(run2.0))
        } else if i == 3 {
            slotted((&self.3).to_val(run3.0))
        } else {
            slotted((&self.4).to_val(run4.0))
        }
    }

    proof fn lawful_offer(self, h: Store) {
        let run0 = started(h);
        let run1 = joined(run0, &self.0);
        let run2 = joined(run1, &self.1);
        let run3 = joined(run2, &self.2);
        let run4 = joined(run3, &self.3);
        let run5 = joined(run4, &self.4);
        let nth0 = self.nth(h, 0);
        let nth1 = self.nth(h, 1);
        let nth2 = self.nth(h, 2);
        let nth3 = self.nth(h, 3);
        let nth4 = self.nth(h, 4);
    }

    fn arg_count(&self) -> (n: usize) {
        5
    }

    fn into_call_args(self, dst: &mut Vec<Slot>, heap: &mut Heap) -> (r: GResult<()>) {
        assert(dst@ + Seq::<Slot>::empty() =~= dst@);
        let slots: Vec<Slot> = Vec::with_capacity(5);
        let run = join(Ok(slots), &self.0, heap);
        let run = join(run, &self.1, heap);
        let run = join(run, &self.2, heap);
        let run = join(run, &self.3, heap);
        let run = join(run, &self.4, heap);
        offer_slots(run, dst)
    }
}

impl<
    'a,
    A: IntoValMut,
    B: IntoValMut,
    C: IntoValMut,
    D: IntoValMut,
    E: IntoValMut,
> IntoCallArgs for &'a mut (A, B, C, D, E) {
    open spec fn count(self) -> nat {
        5
    }

    open spec fn offer(self, h: Store) -> Offer {
        let run = started(h);
        let run = mut_joined(run, (*self).0);
        let run = mut_joined(run, (*self).1);
        let run = mut_joined(run, (*self).2);
        let run = mut_joined(run, (*self).3);
        let run = mut_joined(run, (*self).4);
        offer_run(run)
    }

    open spec fn nth(self, h: Store, i: int) -> (Store, GResult<Slot>) {
        let run0 = started(h);
        let run1 = mut_joined(run0, (*self).0);
        let run2 = mut_joined(run1, (*self).1);
        let run3 = mut_joined(run2, (*self).2);
        let run4 = mut_joined(run3, (*self).3);
        if i == 0 {
            slotted((*self).0.mut_to_val(run0.0))
        } else if i == 1 {
            slotted((*self).1.mut_to_val(run1.0))
        } else if i == 2 {
            slotted((*self).2.mut_to_val(run2.0))
        } else if i == 3 {
            slotted((*self).3.mut_to_val(run3.0))
        } else {
            slotted((*self).4.mut_to_val(run4.0))
        }
    }

    proof fn lawful_offer(self, h: Store) {
        let run0 = started(h);
        let run1 = mut_joined(run0, (*self).0);
        let run2 = mut_joined(run1, (*self).1);
        let run3 = mut_joined(run2, (*self).2);
        let run4 = mut_joined(run3, (*self).3);
        let run5 = mut_joined(run4, (*self).4);
        let nth0 = self.nth(h, 0);
        let nth1 = self.nth(h, 1);
        let nth2 = self.nth(h, 2);
        let nth3 = self.nth(h, 3);
        let nth4 = self.nth(h, 4);
    }

    fn arg_count(&self) -> (n: usize) {
        5
    }

    fn into_call_args(self, dst: &mut Vec<Slot>, heap: &mut Heap) -> (r: GResult<()>)
        ensures
            ({
                let run0 = started(old(heap)@);
                let run1 = mut_joined(run0, old(self).0);
                let run2 = mut_joined(run1, old(self).1);
                let run3 = mut_joined(run2, old(self).2);
                let run4 = mut_joined(run3, old(self).3);
                &&& mut_left(run0, old(self).0, final(self).0)
                &&& mut_left(run1, old(self).1, final(self).1)
                &&& mut_left(run2, old(self).2, final(self).2)
                &&& mut_left(run3, old(self).3, final(self).3)
                &&& mut_left(run4, old(self).4, final(self).4)
            }),
    {
        assert(dst@ + Seq::<Slot>::empty() =~= dst@);
        let slots: Vec<Slot> = Vec::with_capacity(5);
        let run = mut_join(Ok(slots), &mut self.0, heap);
        let run = mut_join(run, &mut self.1, heap);
        let run = mut_join(run, &mut self.2, heap);
        let run = mut_join(run, &mut self.3, heap);
        let run = mut_join(run, &mut self.4, heap);
        offer_slots(run, dst)
    }
}

impl<
    A: IntoVal,
    B: IntoVal,
    C: IntoVal,
    D: IntoVal,
    E: IntoVal,
    F: IntoVal,
> IntoCallArgs for (A, B, C, D, E, F) {
    open spec fn count(self) -> nat {
        6
    }

    open spec fn offer(self, h: Store) -> Offer {
        let run = started(h);
        let run = joined(run, self.0);
        let run = joined(run, self.1);
        let run = joined(run, self.2);
        let run = joined(run, self.3);
        let run = joined(run, self.4);
        let run = joined(run, self.5);
        offer_run(run)
    }

    open spec fn nth(self, h: Store, i: int) -> (Store, GResult<Slot>) {
        let run0 = started(h);
        let run1 = joined(run0, self.0);
        let run2 = joined(run1, self.1);
        let run3 = joined(run2, self.2);
        let run4 = joined(run3, self.3);
        let run5 = joined(run4, self.4);
        if i == 0 {
            slotted(self.0.to_val(run0.0))
        } else if i == 1 {
            slotted(self.1.to_val(run1.0))
        } else if i == 2 {
            slotted(self.2.to_val(run2.0))
        } else if i == 3 {
            slotted(self.3.to_val(run3.0))
        } else if i == 4 {
            slotted(self.4.to_val(run4.0))
        } else {
            slotted(self.5.to_val(run5.0))
        }
    }

    proof fn lawful_offer(self, h: Store) {
        let run0 = started(h);
        let run1 = joined(run0, self.0);
        let run2 = joined(run1, self.1);
        let run3 = joined(run2, self.2);
        let run4 = joined(run3, self.3);
        let run5 = joined(run4, self.4);
        let run6 = joined(run5, self.5);
        let nth0 = self.nth(h, 0);
        let nth1 = self.nth(h, 1);
        let nth2 = self.nth(h, 2);
        let nth3 = self.nth(h, 3);
        let nth4 = self.nth(h, 4);
        let nth5 = self.nth(h, 5);
    }

    fn arg_count(&self) -> (n: usize) {
        6
    }

    fn into_call_args(self, dst: &mut Vec<Slot>, heap: &mut Heap) -> (r: GResult<()>) {
        assert(dst@ + Seq::<Slot>::empty() =~= dst@);
        let slots: Vec<Slot> = Vec::with_capacity(6);
        let run = join(Ok(slots), self.0, heap);
        let run = join(run, self.1, heap);
        let run = join(run, self.2, heap);
        let run = join(run, self.3, heap);
        let run = join(run, self.4, heap);
        let run = join(run, self.5, heap);
        offer_slots(run, dst)
    }
}

impl<'a, A, B, C, D, E, F> IntoCallArgs for &'a (A, B, C, D, E, F) where
    &'a A: IntoVal,
    &'a B: IntoVal,
    &'a C: IntoVal,
    &'a D: IntoVal,
    &'a E: IntoVal,
    &'a F: IntoVal,
 {
    open spec fn count(self) -> nat {
        6
    }

    open spec fn offer(self, h: Store) -> Offer {
        let run = started(h);
        let run = joined(run, &self.0);
        let run = joined(run, &self.1);
        let run = joined(run, &self.2);
        let run = joined(run, &self.3);
        let run = joined(run, &self.4);
        let run = joined(run, &self.5);
        offer_run(run)
    }

    open spec fn nth(self, h: Store, i: int) -> (Store, GResult<Slot>) {
        let run0 = started(h);
        let run1 = joined(run0, &self.0);
        let run2 = joined(run1, &self.1);
        let run3 = joined(run2, &self.2);
        let run4 = joined(run3, &self.3);
        let run5 = joined(run4, &self.4);
        if i == 0 {
            slotted((&self.0).to_val(run0.0))
        } else if i == 1 {
            slotted((&self.1).to_val(run1.0))
        } else if i == 2 {
            slotted((&self.2).to_val(run2.0))
        } else if i == 3 {
            slotted((&self.3).to_val(run3.0))
        } else if i == 4 {
            slotted((&self.4).to_val(run4.0))
        } else {
            slotted((&self.5).to_val(run5.0))
        }
    }

    proof fn lawful_offer(self, h: Store) {
        let run0 = started(h);
        let run1 = joined(run0, &self.0);
        let run2 = joined(run1, &self.1);
        let run3 = joined(run2, &self.2);
        let run4 = joined(run3, &self.3);
        let run5 = joined(run4, &self.4);
        let run6 = joined(run5, &self.5);
        let nth0 = self.nth(h, 0);
        let nth1 = self.nth(h, 1);
        let nth2 = self.nth(h, 2);
        let nth3 = self.nth(h, 3);
        let nth4 = self.nth(h, 4);
        let nth5 = self.nth(h, 5);
    }

    fn arg_count(&self) -> (n: usize) {
        6
    }

    fn into_call_args(self, dst: &mut Vec<Slot>, heap: &mut Heap) -> (r: GResult<()>) {
        assert(dst@ + Seq::<Slot>::empty() =~= dst@);
        let slots: Vec<Slot> = Vec::with_capacity(6);
        let run = join(Ok(slots), &self.0, heap);
        let run = join(run, &self.1, heap);
        let run = join(run, &self.2, heap);
        let run = join(run, &self.3, heap);
        let run = join(run, &self.4, heap);
        let run = join(run, &self.5, heap);
        offer_slots(run, dst)
    }
}

impl<
    'a,
    A: IntoValMut,
    B: IntoValMut,
    C: IntoValMut,
    D: IntoValMut,
    E: IntoValMut,
    F: IntoValMut,
> IntoCallArgs for &'a mut (A, B, C, D, E, F) {
    open spec fn count(self) -> nat {
        6
    }

    open spec fn offer(self, h: Store) -> Offer {
        let run = started(h);
        let run = mut_joined(run, (*self).0);
        let run = mut_joined(run, (*self).1);
        let run = mut_joined(run, (*self).2);
        let run = mut_joined(run, (*self).3);
        let run = mut_joined(run, (*self).4);
        let run = mut_joined(run, (*self).5);
        offer_run(run)
    }

    open spec fn nth(self, h: Store, i: int) -> (Store, GResult<Slot>) {
        let run0 = started(h);
        let run1 = mut_joined(run0, (*self).0);
        let run2 = mut_joined(run1, (*self).1);
        let run3 = mut_joined(run2, (*self).2);
        let run4 = mut_joined(run3, (*self).3);
        let run5 = mut_joined(run4, (*self).4);
        if i == 0 {
            slotted((*self).0.mut_to_val(run0.0))
        } else if i == 1 {
            slotted((*self).1.mut_to_val(run1.0))
        } else if i == 2 {
            slotted((*self).2.mut_to_val(run2.0))
        } else if i == 3 {
            slotted((*self).3.mut_to_val(run3.0))
        } else if i == 4 {
            slotted((*self).4.mut_to_val(run4.0))
        } else {
            slotted((*self).5.mut_to_val(run5.0))
        }
    }

    proof fn lawful_offer(self, h: Store) {
        let run0 = started(h);
        let run1 = mut_joined(run0, (*self).0);
        let run2 = mut_joined(run1, (*self).1);
        let run3 = mut_joined(run2, (*self).2);
        let run4 = mut_joined(run3, (*self).3);
        let run5 = mut_joined(run4, (*self).4);
        let run6 = mut_joined(run5, (*self).5);
        let nth0 = self.nth(h, 0);
        let nth1 = self.nth(h, 1);
        let nth2 = self.nth(h, 2);
        let nth3 = self.nth(h, 3);
        let nth4 = self.nth(h, 4);
        let nth5 = self.nth(h, 5);
    }

    fn arg_count(&self) -> (n: usize) {
        6
    }

    fn into_call_args(self, dst: &mut Vec<Slot>, heap: &mut Heap) -> (r: GResult<()>)
        ensures
            ({
                let run0 = started(old(heap)@);
                let run1 = mut_joined(run0, old(self).0);
                let run2 = mut_joined(run1, old(self).1);
                let run3 = mut_joined(run2, old(self).2);
                let run4 = mut_joined(run3, old(self).3);
                let run5 = mut_joined(run4, old(self).4);
                &&& mut_left(run0, old(self).0, final(self).0)
                &&& mut_left(run1, old(self).1, final(self).1)
                &&& mut_left(run2, old(self).2, final(self).2)
                &&& mut_left(run3, old(self).3, final(self).3)
                &&& mut_left(run4, old(self).4, final(self).4)
                &&& mut_left(run5, old(self).5, final(self).5)
            }),
    {
        assert(dst@ + Seq::<Slot>::empty() =~= dst@);
        let slots: Vec<Slot> = Vec::with_capacity(6);
        let run = mut_join(Ok(slots), &mut self.0, heap);
        let run = mut_join(run, &mut self.1, heap);
        let run = mut_join(run, &mut self.2, heap);
        let run = mut_join(run, &mut self.3, heap);
        let run = mut_join(run, &mut self.4, heap);
        let run = mut_join(run, &mut self.5, heap);
        offer_slots(run, dst)
    }
}

impl<
    A: IntoVal,
    B: IntoVal,
    C: IntoVal,
    D: IntoVal,
    E: IntoVal,
    F: IntoVal,
    G: IntoVal,
> IntoCallArgs for (A, B, C, D, E, F, G) {
    open spec fn count(self) -> nat {
        7
    }

    open spec fn offer(self, h: Store) -> Offer {
        let run = started(h);
        let run = joined(run, self.0);
        let run = joined(run, self.1);
        let run = joined(run, self.2);
        let run = joined(run, self.3);
        let run = joined(run, self.4);
        let run = joined(run, self.5);
        let run = joined(run, self.6);
        offer_run(run)
    }

    open spec fn nth(self, h: Store, i: int) -> (Store, GResult<Slot>) {
        let run0 = started(h);
        let run1 = joined(run0, self.0);
        let run2 = joined(run1, self.1);
        let run3 = joined(run2, self.2);
        let run4 = joined(run3, self.3);
        let run5 = joined(run4, self.4);
        let run6 = joined(run5, self.5);
        if i == 0 {
            slotted(self.0.to_val(run0.0))
        } else if i == 1 {
            slotted(self.1.to_val(run1.0))
        } else if i == 2 {
            slotted(self.2.to_val(run2.0))
        } else if i == 3 {
            slotted(self.3.to_val(run3.0))
        } else if i == 4 {
            slotted(self.4.to_val(run4.0))
        } else if i == 5 {
            slotted(self.5.to_val(run5.0))
        } else {
            slotted(self.6.to_val(run6.0))
        }
    }

    proof fn lawful_offer(self, h: Store) {
        let run0 = started(h);
        let run1 = joined(run0, self.0);
        let run2 = joined(run1, self.1);
        let run3 = joined(run2, self.2);
        let run4 = joined(run3, self.3);
        let run5 = joined(run4, self.4);
        let run6 = joined(run5, self.5);
        let run7 = joined(run6, self.6);
        let nth0 = self.nth(h, 0);
        let nth1 = self.nth(h, 1);
        let nth2 = self.nth(h, 2);
        let nth3 = self.nth(h, 3);
        let nth4 = self.nth(h, 4);
        let nth5 = self.nth(h, 5);
        let nth6 = self.nth(h, 6);
    }

    fn arg_count(&self) -> (n: usize) {
        7
    }

    fn into_call_args(self, dst: &mut Vec<Slot>, heap: &mut Heap) -> (r: GResult<()>) {
        assert(dst@ + Seq::<Slot>::empty() =~= dst@);
        let slots: Vec<Slot> = Vec::with_capacity(7);
        let run = join(Ok(slots), self.0, heap);
        let run = join(run, self.1, heap);
        let run = join(run, self.2, heap);
        let run = join(run, self.3, heap);
        let run = join(run, self.4, heap);
        let run = join(run, self.5, heap);
        let run = join(run, self.6, heap);
        offer_slots(run, dst)
    }
}

impl<'a, A, B, C, D, E, F, G> IntoCallArgs for &'a (A, B, C, D, E, F, G) where
    &'a A: IntoVal,
    &'a B: IntoVal,
    &'a C: IntoVal,
    &'a D: IntoVal,
    &'a E: IntoVal,
    &'a F: IntoVal,
    &'a G: IntoVal,
 {
    open spec fn count(self) -> nat {
        7
    }

    open spec fn offer(self, h: Store) -> Offer {
        let run = started(h);
        let run = joined(run, &self.0);
        let run = joined(run, &self.1);
        let run = joined(run, &self.2);
        let run = joined(run, &self.3);
        let run = joined(run, &self.4);
        let run = joined(run, &self.5);
        let run = joined(run, &self.6);
        offer_run(run)
    }

    open spec fn nth(self, h: Store, i: int) -> (Store, GResult<Slot>) {
        let run0 = started(h);
        let run1 = joined(run0, &self.0);
        let run2 = joined(run1, &self.1);
        let run3 = joined(run2, &self.2);
        let run4 = joined(run3, &self.3);
        let run5 = joined(run4, &self.4);
        let run6 = joined(run5, &self.5);
        if i == 0 {
            slotted((&self.0).to_val(run0.0))
        } else if i == 1 {
            slotted((&self.1).to_val(run1.0))
        } else if i == 2 {
            slotted((&self.2).to_val(run2.0))
        } else if i == 3 {
            slotted((&self.3).to_val(run3.0))
        } else if i == 4 {
            slotted((&self.4).to_val(run4.0))
        } else if i == 5 {
            slotted((&self.5).to_val(run5.0))
        } else {
            slotted((&self.6).to_val(run6.0))
        }
    }

    proof fn lawful_offer(self, h: Store) {
        let run0 = started(h);
        let run1 = joined(run0, &self.0);
        let run2 = joined(run1, &self.1);
        let run3 = joined(run2, &self.2);
        let run4 = joined(run3, &self.3);
        let run5 = joined(run4, &self.4);
        let run6 = joined(run5, &self.5);
        let run7 = joined(run6, &self.6);
        let nth0 = self.nth(h, 0);
        let nth1 = self.nth(h, 1);
        let nth2 = self.nth(h, 2);
        let nth3 = self.nth(h, 3);
        let nth4 = self.nth(h, 4);
        let nth5 = self.nth(h, 5);
        let nth6 = self.nth(h, 6);
    }

    fn arg_count(&self) -> (n: usize) {
        7
    }

    fn into_call_args(self, dst: &mut Vec<Slot>, heap: &mut Heap) -> (r: GResult<()>) {
        assert(dst@ + Seq::<Slot>::empty() =~= dst@);
        let slots: Vec<Slot> = Vec::with_capacity(7);
        let run = join(Ok(slots), &self.0, heap);
        let run = join(run, &self.1, heap);
        let run = join(run, &self.2, heap);
        let run = join(run, &self.3, heap);
        let run = join(run, &self.4, heap);
        let run = join(run, &self.5, heap);
        let run = join(run, &self.6, heap);
        offer_slots(run, dst)
    }
}

impl<
    'a,
    A: IntoValMut,
    B: IntoValMut,
    C: IntoValMut,
    D: IntoValMut,
    E: IntoValMut,
    F: IntoValMut,
    G: IntoValMut,
> IntoCallArgs for &'a mut (A, B, C, D, E, F, G) {
    open spec fn count(self) -> nat {
        7
    }

    open spec fn offer(self, h: Store) -> Offer {
        let run = started(h);
        let run = mut_joined(run, (*self).0);
        let run = mut_joined(run, (*self).1);
        let run = mut_joined(run, (*self).2);
        let run = mut_joined(run, (*self).3);
        let run = mut_joined(run, (*self).4);
        let run = mut_joined(run, (*self).5);
        let run = mut_joined(run, (*self).6);
        offer_run(run)
    }

    open spec fn nth(self, h: Store, i: int) -> (Store, GResult<Slot>) {
        let run0 = started(h);
        let run1 = mut_joined(run0, (*self).0);
        let run2 = mut_joined(run1, (*self).1);
        let run3 = mut_joined(run2, (*self).2);
        let run4 = mut_joined(run3, (*self).3);
        let run5 = mut_joined(run4, (*self).4);
        let run6 = mut_joined(run5, (*self).5);
        if i == 0 {
            slotted((*self).0.mut_to_val(run0.0))
        } else if i == 1 {
            slotted((*self).1.mut_to_val(run1.0))
        } else if i == 2 {
            slotted((*self).2.mut_to_val(run2.0))
        } else if i == 3 {
            slotted((*self).3.mut_to_val(run3.0))
        } else if i == 4 {
            slotted((*self).4.mut_to_val(run4.0))
        } else if i == 5 {
            slotted((*self).5.mut_to_val(run5.0))
        } else {
            slotted((*self).6.mut_to_val(run6.0))
        }
    }

    proof fn lawful_offer(self, h: Store) {
        let run0 = started(h);
        let run1 = mut_joined(run0, (*self).0);
        let run2 = mut_joined(run1, (*self).1);
        let run3 = mut_joined(run2, (*self).2);
        let run4 = mut_joined(run3, (*self).3);
        let run5 = mut_joined(run4, (*self).4);
        let run6 = mut_joined(run5, (*self).5);
        let run7 = mut_joined(run6, (*self).6);
        let nth0 = self.nth(h, 0);
        let nth1 = self.nth(h, 1);
        let nth2 = self.nth(h, 2);
        let nth3 = self.nth(h, 3);
        let nth4 = self.nth(h, 4);
        let nth5 = self.nth(h, 5);
        let nth6 = self.nth(h, 6);
    }

    fn arg_count(&self) -> (n: usize) {
        7
    }

    fn into_call_args(self, dst: &mut Vec<Slot>, heap: &mut Heap) -> (r: GResult<()>)
        ensures
            ({
                let run0 = started(old(heap)@);
                let run1 = mut_joined(run0, old(self).0);
                let run2 = mut_joined(run1, old(self).1);
                let run3 = mut_joined(run2, old(self).2);
                let run4 = mut_joined(run3, old(self).3);
                let run5 = mut_joined(run4, old(self).4);
                let run6 = mut_joined(run5, old(self).5);
                &&& mut_left(run0, old(self).0, final(self).0)
                &&& mut_left(run1, old(self).1, final(self).1)
                &&& mut_left(run2, old(self).2, final(self).2)
                &&& mut_left(run3, old(self).3, final(self).3)
                &&& mut_left(run4, old(self).4, final(self).4)
                &&& mut_left(run5, old(self).5, final(self).5)
                &&& mut_left(run6, old(self).6, final(self).6)
            }),
    {
        assert(dst@ + Seq::<Slot>::empty() =~= dst@);
        let slots: Vec<Slot> = Vec::with_capacity(7);
        let run = mut_join(Ok(slots), &mut self.0, heap);
        let run = mut_join(run, &mut self.1, heap);
        let run = mut_join(run, &mut self.2, heap);
        let run = mut_join(run, &mut self.3, heap);
        let run = mut_join(run, &mut self.4, heap);
        let run = mut_join(run, &mut self.5, heap);
        let run = mut_join(run, &mut self.6, heap);
        offer_slots(run, dst)
    }
}

impl<
    A: IntoVal,
    B: IntoVal,
    C: IntoVal,
    D: IntoVal,
    E: IntoVal,
    F: IntoVal,
    G: IntoVal,
    H: IntoVal,
> IntoCallArgs for (A, B, C, D, E, F, G, H) {
    open spec fn count(self) -> nat {
        8
    }

    open spec fn offer(self, h: Store) -> Offer {
        let run = started(h);
        let run = joined(run, self.0);
        let run = joined(run, self.1);
        let run = joined(run, self.2);
        let run = joined(run, self.3);
        let run = joined(run, self.4);
        let run = joined(run, self.5);
        let run = joined(run, self.6);
        let run = joined(run, self.7);
        offer_run(run)
    }

    open spec fn nth(self, h: Store, i: int) -> (Store, GResult<Slot>) {
        let run0 = started(h);
        let run1 = joined(run0, self.0);
        let run2 = joined(run1, self.1);
        let run3 = joined(run2, self.2);
        let run4 = joined(run3, self.3);
        let run5 = joined(run4, self.4);
        let run6 = joined(run5, self.5);
        let run7 = joined(run6, self.6);
        if i == 0 {
            slotted(self.0.to_val(run0.0))
        } else if i == 1 {
            slotted(self.1.to_val(run1.0))
        } else if i == 2 {
            slotted(self.2.to_val(run2.0))
        } else if i == 3 {
            slotted(self.3.to_val(run3.0))
        } else if i == 4 {
            slotted(self.4.to_val(run4.0))
        } else if i == 5 {
            slotted(self.5.to_val(run5.0))
        } else if i == 6 {
            slotted(self.6.to_val(run6.0))
        } else {
            slotted(self.7.to_val(run7.0))
        }
    }

    proof fn lawful_offer(self, h: Store) {
        let run0 = started(h);
        let run1 = joined(run0, self.0);
        let run2 = joined(run1, self.1);
        let run3 = joined(run2, self.2);
        let run4 = joined(run3, self.3);
        let run5 = joined(run4, self.4);
        let run6 = joined(run5, self.5);
        let run7 = joined(run6, self.6);
        let run8 = joined(run7, self.7);
        let nth0 = self.nth(h, 0);
        let nth1 = self.nth(h, 1);
        let nth2 = self.nth(h, 2);
        let nth3 = self.nth(h, 3);
        let nth4 = self.nth(h, 4);
        let nth5 = self.nth(h, 5);
        let nth6 = self.nth(h, 6);
        let nth7 = self.nth(h, 7);
    }

    fn arg_count(&self) -> (n: usize) {
        8
    }

    fn into_call_args(self, dst: &mut Vec<Slot>, heap: &mut Heap) -> (r: GResult<()>) {
        assert(dst@ + Seq::<Slot>::empty() =~= dst@);
        let slots: Vec<Slot> = Vec::with_capacity(8);
        let run = join(Ok(slots), self.0, heap);
        let run = join(run, self.1, heap);
        let run = join(run, self.2, heap);
        let run = join(run, self.3, heap);
        let run = join(run, self.4, heap);
        let run = join(run, self.5, heap);
        let run = join(run, self.6, heap);
        let run = join(run, self.7, heap);
        offer_slots(run, dst)
    }
}

impl<'a, A, B, C, D, E, F, G, H> IntoCallArgs for &'a (A, B, C, D, E, F, G, H) where
    &'a A: IntoVal,
    &'a B: IntoVal,
    &'a C: IntoVal,
    &'a D: IntoVal,
    &'a E: IntoVal,
    &'a F: IntoVal,
    &'a G: IntoVal,
    &'a H: IntoVal,
 {
    open spec fn count(self) -> nat {
        8
    }

    open spec fn offer(self, h: Store) -> Offer {
        let run = started(h);
        let run = joined(run, &self.0);
        let run = joined(run, &self.1);
        let run = joined(run, &self.2);
        let run = joined(run, &self.3);
        let run = joined(run, &self.4);
        let run = joined(run, &self.5);
        let run = joined(run, &self.6);
        let run = joined(run, &self.7);
        offer_run(run)
    }

    open spec fn nth(self, h: Store, i: int) -> (Store, GResult<Slot>) {
        let run0 = started(h);
        let run1 = joined(run0, &self.0);
        let run2 = joined(run1, &self.1);
        let run3 = joined(run2, &self.2);
        let run4 = joined(run3, &self.3);
        let run5 = joined(run4, &self.4);
        let run6 = joined(run5, &self.5);
        let run7 = joined(run6, &self.6);
        if i == 0 {
            slotted((&self.0).to_val(run0.0))
        } else if i == 1 {
            slotted((&self.1).to_val(run1.0))
        } else if i == 2 {
            slotted((&self.2).to_val(run2.0))
        } else if i == 3 {
            slotted((&self.3).to_val(run3.0))
        } else if i == 4 {
            slotted((&self.4).to_val(run4.0))
        } else if i == 5 {
            slotted((&self.5).to_val(run5.0))
        } else if i == 6 {
            slotted((&self.6).to_val(run6.0))
        } else {
            slotted((&self.7).to_val(run7.0))
        }
    }

    proof fn lawful_offer(self, h: Store) {
        let run0 = started(h);
        let run1 = joined(run0, &self.0);
        let run2 = joined(run1, &self.1);
        let run3 = joined(run2, &self.2);
        let run4 = joined(run3, &self.3);
        let run5 = joined(run4, &self.4);
        let run6 = joined(run5, &self.5);
        let run7 = joined(run6, &self.6);
        let run8 = joined(run7, &self.7);
        let nth0 = self.nth(h, 0);
        let nth1 = self.nth(h, 1);
        let nth2 = self.nth(h, 2);
        let nth3 = self.nth(h, 3);
        let nth4 = self.nth(h, 4);
        let nth5 = self.nth(h, 5);
        let nth6 = self.nth(h, 6);
        let nth7 = self.nth(h, 7);
    }

    fn arg_count(&self) -> (n: usize) {
        8
    }

    fn into_call_args(self, dst: &mut Vec<Slot>, heap: &mut Heap) -> (r: GResult<()>) {
        assert(dst@ + Seq::<Slot>::empty() =~= dst@);
        let slots: Vec<Slot> = Vec::with_capacity(8);
        let run = join(Ok(slots), &self.0, heap);
        let run = join(run, &self.1, heap);
        let run = join(run, &self.2, heap);
        let run = join(run, &self.3, heap);
        let run = join(run, &self.4, heap);
        let run = join(run, &self.5, heap);
        let run = join(run, &self.6, heap);
        let run = join(run, &self.7, heap);
        offer_slots(run, dst)
    }
}

impl<
    'a,
    A: IntoValMut,
    B: IntoValMut,
    C: IntoValMut,
    D: IntoValMut,
    E: IntoValMut,
    F: IntoValMut,
    G: IntoValMut,
    H: IntoValMut,
> IntoCallArgs for &'a mut (A, B, C, D, E, F, G, H) {
    open spec fn count(self) -> nat {
        8
    }

    open spec fn offer(self, h: Store) -> Offer {
        let run = started(h);
        let run = mut_joined(run, (*self).0);
        let run = mut_joined(run, (*self).1);
        let run = mut_joined(run, (*self).2);
        let run = mut_joined(run, (*self).3);
        let run = mut_joined(run, (*self).4);
        let run = mut_joined(run, (*self).5);
        let run = mut_joined(run, (*self).6);
        let run = mut_joined(run, (*self).7);
        offer_run(run)
    }

    open spec fn nth(self, h: Store, i: int) -> (Store, GResult<Slot>) {
        let run0 = started(h);
        let run1 = mut_joined(run0, (*self).0);
        let run2 = mut_joined(run1, (*self).1);
        let run3 = mut_joined(run2, (*self).2);
        let run4 = mut_joined(run3, (*self).3);
        let run5 = mut_joined(run4, (*self).4);
        let run6 = mut_joined(run5, (*self).5);
        let run7 = mut_joined(run6, (*self).6);
        if i == 0 {
            slotted((*self).0.mut_to_val(run0.0))
        } else if i == 1 {
            slotted((*self).1.mut_to_val(run1.0))
        } else if i == 2 {
            slotted((*self).2.mut_to_val(run2.0))
        } else if i == 3 {
            slotted((*self).3.mut_to_val(run3.0))
        } else if i == 4 {
            slotted((*self).4.mut_to_val(run4.0))
        } else if i == 5 {
            slotted((*self).5.mut_to_val(run5.0))
        } else if i == 6 {
            slotted((*self).6.mut_to_val(run6.0))
        } else {
            slotted((*self).7.mut_to_val(run7.0))
        }
    }

    proof fn lawful_offer(self, h: Store) {
        let run0 = started(h);
        let run1 = mut_joined(run0, (*self).0);
        let run2 = mut_joined(run1, (*self).1);
        let run3 = mut_joined(run2, (*self).2);
        let run4 = mut_joined(run3, (*self).3);
        let run5 = mut_joined(run4, (*self).4);
        let run6 = mut_joined(run5, (*self).5);
        let run7 = mut_joined(run6, (*self).6);
        let run8 = mut_joined(run7, (*self).7);
        let nth0 = self.nth(h, 0);
        let nth1 = self.nth(h, 1);
        let nth2 = self.nth(h, 2);
        let nth3 = self.nth(h, 3);
        let nth4 = self.nth(h, 4);
        let nth5 = self.nth(h, 5);
        let nth6 = self.nth(h, 6);
        let nth7 = self.nth(h, 7);
    }

    fn arg_count(&self) -> (n: usize) {
        8
    }

    fn into_call_args(self, dst: &mut Vec<Slot>, heap: &mut Heap) -> (r: GResult<()>)
        ensures
            ({
                let run0 = started(old(heap)@);
                let run1 = mut_joined(run0, old(self).0);
                let run2 = mut_joined(run1, old(self).1);
                let run3 = mut_joined(run2, old(self).2);
                let run4 = mut_joined(run3, old(self).3);
                let run5 = mut_joined(run4, old(self).4);
                let run6 = mut_joined(run5, old(self).5);
                let run7 = mut_joined(run6, old(self).6);
                &&& mut_left(run0, old(self).0, final(self).0)
                &&& mut_left(run1, old(self).1, final(self).1)
                &&& mut_left(run2, old(self).2, final(self).2)
                &&& mut_left(run3, old(self).3, final(self).3)
                &&& mut_left(run4, old(self).4, final(self).4)
                &&& mut_left(run5, old(self).5, final(self).5)
                &&& mut_left(run6, old(self).6, final(self).6)
                &&& mut_left(run7, old(self).7, final(self).7)
            }),
    {
        assert(dst@ + Seq::<Slot>::empty() =~= dst@);
        let slots: Vec<Slot> = Vec::with_capacity(8);
        let run = mut_join(Ok(slots), &mut self.0, heap);
        let run = mut_join(run, &mut self.1, heap);
        let run = mut_join(run, &mut self.2, heap);
        let run = mut_join(run, &mut self.3, heap);
        let run = mut_join(run, &mut self.4, heap);
        let run = mut_join(run, &mut self.5, heap);
        let run = mut_join(run, &mut self.6, heap);
        let run = mut_join(run, &mut self.7, heap);
        offer_slots(run, dst)
    }
}

impl<
    A: IntoVal,
    B: IntoVal,
    C: IntoVal,
    D: IntoVal,
    E: IntoVal,
    F: IntoVal,
    G: IntoVal,
    H: IntoVal,
    I: IntoVal,
> IntoCallArgs for (A, B, C, D, E, F, G, H, I) {
    open spec fn count(self) -> nat {
        9
    }

    open spec fn offer(self, h: Store) -> Offer {
        let run = started(h);
        let run = joined(run, self.0);
        let run = joined(run, self.1);
        let run = joined(run, self.2);
        let run = joined(run, self.3);
        let run = joined(run, self.4);
        let run = joined(run, self.5);
        let run = joined(run, self.6);
        let run = joined(run, self.7);
        let run = joined(run, self.8);
        offer_run(run)
    }

    open spec fn nth(self, h: Store, i: int) -> (Store, GResult<Slot>) {
        let run0 = started(h);
        let run1 = joined(run0, self.0);
        let run2 = joined(run1, self.1);
        let run3 = joined(run2, self.2);
        let run4 = joined(run3, self.3);
        let run5 = joined(run4, self.4);
        let run6 = joined(run5, self.5);
        let run7 = joined(run6, self.6);
        let run8 = joined(run7, self.7);
        if i == 0 {
            slotted(self.0.to_val(run0.0))
        } else if i == 1 {
            slotted(self.1.to_val(run1.0))
        } else if i == 2 {
            slotted(self.2.to_val(run2.0))
        } else if i == 3 {
            slotted(self.3.to_val(run3.0))
        } else if i == 4 {
            slotted(self.4.to_val(run4.0))
        } else if i == 5 {
            slotted(self.5.to_val(run5.0))
        } else if i == 6 {
            slotted(self.6.to_val(run6.0))
        } else if i == 7 {
            slotted(self.7.to_val(run7.0))
        } else {
            slotted(self.8.to_val(run8.0))
        }
    }

    proof fn lawful_offer(self, h: Store) {
        let run0 = started(h);
        let run1 = joined(run0, self.0);
        let run2 = joined(run1, self.1);
        let run3 = joined(run2, self.2);
        let run4 = joined(run3, self.3);
        let run5 = joined(run4, self.4);
        let run6 = joined(run5, self.5);
        let run7 = joined(run6, self.6);
        let run8 = joined(run7, self.7);
        let run9 = joined(run8, self.8);
        let nth0 = self.nth(h, 0);
        let nth1 = self.nth(h, 1);
        let nth2 = self.nth(h, 2);
        let nth3 = self.nth(h, 3);
        let nth4 = self.nth(h, 4);
        let nth5 = self.nth(h, 5);
        let nth6 = self.nth(h, 6);
        let nth7 = self.nth(h, 7);
        let nth8 = self.nth(h, 8);
    }

    fn arg_count(&self) -> (n: usize) {
        9
    }

    fn into_call_args(self, dst: &mut Vec<Slot>, heap: &mut Heap) -> (r: GResult<()>) {
        assert(dst@ + Seq::<Slot>::empty() =~= dst@);
        let slots: Vec<Slot> = Vec::with_capacity(9);
        let run = join(Ok(slots), self.0, heap);
        let run = join(run, self.1, heap);
        let run = join(run, self.2, heap);
        let run = join(run, self.3, heap);
        let run = join(run, self.4, heap);
        let run = join(run, self.5, heap);
        let run = join(run, self.6, heap);
        let run = join(run, self.7, heap);
        let run = join(run, self.8, heap);
        offer_slots(run, dst)
    }
}

impl<'a, A, B, C, D, E, F, G, H, I> IntoCallArgs for &'a (A, B, C, D, E, F, G, H, I) where
    &'a A: IntoVal,
    &'a B: IntoVal,
    &'a C: IntoVal,
    &'a D: IntoVal,
    &'a E: IntoVal,
    &'a F: IntoVal,
    &'a G: IntoVal,
    &'a H: IntoVal,
    &'a I: IntoVal,
 {
    open spec fn count(self) -> nat {
        9
    }

    open spec fn offer(self, h: Store) -> Offer {
        let run = started(h);
        let run = joined(run, &self.0);
        let run = joined(run, &self.1);
        let run = joined(run, &self.2);
        let run = joined(run, &self.3);
        let run = joined(run, &self.4);
        let run = joined(run, &self.5);
        let run = joined(run, &self.6);
        let run = joined(run, &self.7);
        let run = joined(run, &self.8);
        offer_run(run)
    }

    open spec fn nth(self, h: Store, i: int) -> (Store, GResult<Slot>) {
        let run0 = started(h);
        let run1 = joined(run0, &self.0);
        let run2 = joined(run1, &self.1);
        let run3 = joined(run2, &self.2);
        let run4 = joined(run3, &self.3);
        let run5 = joined(run4, &self.4);
        let run6 = joined(run5, &self.5);
        let run7 = joined(run6, &self.6);
        let run8 = joined(run7, &self.7);
        if i == 0 {
            slotted((&self.0).to_val(run0.0))
        } else if i == 1 {
            slotted((&self.1).to_val(run1.0))
        } else if i == 2 {
            slotted((&self.2).to_val(run2.0))
        } else if i == 3 {
            slotted((&self.3).to_val(run3.0))
        } else if i == 4 {
            slotted((&self.4).to_val(run4.0))
        } else if i == 5 {
            slotted((&self.5).to_val(run5.0))
        } else if i == 6 {
            slotted((&self.6).to_val(run6.0))
        } else if i == 7 {
            slotted((&self.7).to_val(run7.0))
        } else {
            slotted((&self.8).to_val(run8.0))
        }
    }

    proof fn lawful_offer(self, h: Store) {
        let run0 = started(h);
        let run1 = joined(run0, &self.0);
        let run2 = joined(run1, &self.1);
        let run3 = joined(run2, &self.2);
        let run4 = joined(run3, &self.3);
        let run5 = joined(run4, &self.4);
        let run6 = joined(run5, &self.5);
        let run7 = joined(run6, &self.6);
        let run8 = joined(run7, &self.7);
        let run9 = joined(run8, &self.8);
        let nth0 = self.nth(h, 0);
        let nth1 = self.nth(h, 1);
        let nth2 = self.nth(h, 2);
        let nth3 = self.nth(h, 3);
        let nth4 = self.nth(h, 4);
        let nth5 = self.nth(h, 5);
        let nth6 = self.nth(h, 6);
        let nth7 = self.nth(h, 7);
        let nth8 = self.nth(h, 8);
    }

    fn arg_count(&self) -> (n: usize) {
        9
    }

    fn into_call_args(self, dst: &mut Vec<Slot>, heap: &mut Heap) -> (r: GResult<()>) {
        assert(dst@ + Seq::<Slot>::empty() =~= dst@);
        let slots: Vec<Slot> = Vec::with_capacity(9);
        let run = join(Ok(slots), &self.0, heap);
        let run = join(run, &self.1, heap);
        let run = join(run, &self.2, heap);
        let run = join(run, &self.3, heap);
        let run = join(run, &self.4, heap);
        let run = join(run, &self.5, heap);
        let run = join(run, &self.6, heap);
        let run = join(run, &self.7, heap);
        let run = join(run, &self.8, heap);
        offer_slots(run, dst)
    }
}

impl<
    'a,
    A: IntoValMut,
    B: IntoValMut,
    C: IntoValMut,
    D: IntoValMut,
    E: IntoValMut,
    F: IntoValMut,
    G: IntoValMut,
    H: IntoValMut,
    I: IntoValMut,
> IntoCallArgs for &'a mut (A, B, C, D, E, F, G, H, I) {
    open spec fn count(self) -> nat {
        9
    }

    open spec fn offer(self, h: Store) -> Offer {
        let run = started(h);
        let run = mut_joined(run, (*self).0);
        let run = mut_joined(run, (*self).1);
        let run = mut_joined(run, (*self).2);
        let run = mut_joined(run, (*self).3);
        let run = mut_joined(run, (*self).4);
        let run = mut_joined(run, (*self).5);
        let run = mut_joined(run, (*self).6);
        let run = mut_joined(run, (*self).7);
        let run = mut_joined(run, (*self).8);
        offer_run(run)
    }

    open spec fn nth(self, h: Store, i: int) -> (Store, GResult<Slot>) {
        let run0 = started(h);
        let run1 = mut_joined(run0, (*self).0);
        let run2 = mut_joined(run1, (*self).1);
        let run3 = mut_joined(run2, (*self).2);
        let run4 = mut_joined(run3, (*self).3);
        let run5 = mut_joined(run4, (*self).4);
        let run6 = mut_joined(run5, (*self).5);
        let run7 = mut_joined(run6, (*self).6);
        let run8 = mut_joined(run7, (*self).7);
        if i == 0 {
            slotted((*self).0.mut_to_val(run0.0))
        } else if i == 1 {
            slotted((*self).1.mut_to_val(run1.0))
        } else if i == 2 {
            slotted((*self).2.mut_to_val(run2.0))
        } else if i == 3 {
            slotted((*self).3.mut_to_val(run3.0))
        } else if i == 4 {
            slotted((*self).4.mut_to_val(run4.0))
        } else if i == 5 {
            slotted((*self).5.mut_to_val(run5.0))
        } else if i == 6 {
            slotted((*self).6.mut_to_val(run6.0))
        } else if i == 7 {
            slotted((*self).7.mut_to_val(run7.0))
        } else {
            slotted((*self).8.mut_to_val(run8.0))
        }
    }

    proof fn lawful_offer(self, h: Store) {
        let run0 = started(h);
        let run1 = mut_joined(run0, (*self).0);
        let run2 = mut_joined(run1, (*self).1);
        let run3 = mut_joined(run2, (*self).2);
        let run4 = mut_joined(run3, (*self).3);
        let run5 = mut_joined(run4, (*self).4);
        let run6 = mut_joined(run5, (*self).5);
        let run7 = mut_joined(run6, (*self).6);
        let run8 = mut_joined(run7, (*self).7);
        let run9 = mut_joined(run8, (*self).8);
        let nth0 = self.nth(h, 0);
        let nth1 = self.nth(h, 1);
        let nth2 = self.nth(h, 2);
        let nth3 = self.nth(h, 3);
        let nth4 = self.nth(h, 4);
        let nth5 = self.nth(h, 5);
        let nth6 = self.nth(h, 6);
        let nth7 = self.nth(h, 7);
        let nth8 = self.nth(h, 8);
    }

    fn arg_count(&self) -> (n: usize) {
        9
    }

    fn into_call_args(self, dst: &mut Vec<Slot>, heap: &mut Heap) -> (r: GResult<()>)
        ensures
            ({
                let run0 = started(old(heap)@);
                let run1 = mut_joined(run0, old(self).0);
                let run2 = mut_joined(run1, old(self).1);
                let run3 = mut_joined(run2, old(self).2);
                let run4 = mut_joined(run3, old(self).3);
                let run5 = mut_joined(run4, old(self).4);
                let run6 = mut_joined(run5, old(self).5);
                let run7 = mut_joined(run6, old(self).6);
                let run8 = mut_joined(run7, old(self).7);
                &&& mut_left(run0, old(self).0, final(self).0)
                &&& mut_left(run1, old(self).1, final(self).1)
                &&& mut_left(run2, old(self).2, final(self).2)
                &&& mut_left(run3, old(self).3, final(self).3)
                &&& mut_left(run4, old(self).4, final(self).4)
                &&& mut_left(run5, old(self).5, final(self).5)
                &&& mut_left(run6, old(self).6, final(self).6)
                &&& mut_left(run7, old(self).7, final(self).7)
                &&& mut_left(run8, old(self).8, final(self).8)
            }),
    {
        assert(dst@ + Seq::<Slot>::empty() =~= dst@);
        let slots: Vec<Slot> = Vec::with_capacity(9);
        let run = mut_join(Ok(slots), &mut self.0, heap);
        let run = mut_join(run, &mut self.1, heap);
        let run = mut_join(run, &mut self.2, heap);
        let run = mut_join(run, &mut self.3, heap);
        let run = mut_join(run, &mut self.4, heap);
        let run = mut_join(run, &mut self.5, heap);
        let run = mut_join(run, &mut self.6, heap);
        let run = mut_join(run, &mut self.7, heap);
        let run = mut_join(run, &mut self.8, heap);
        offer_slots(run, dst)
    }
}

impl<
    A: IntoVal,
    B: IntoVal,
    C: IntoVal,
    D: IntoVal,
    E: IntoVal,
    F: IntoVal,
    G: IntoVal,
    H: IntoVal,
    I: IntoVal,
    J: IntoVal,
> IntoCallArgs for (A, B, C, D, E, F, G, H, I, J) {
    open spec fn count(self) -> nat {
        10
    }

    open spec fn offer(self, h: Store) -> Offer {
        let run = started(h);
        let run = joined(run, self.0);
        let run = joined(run, self.1);
        let run = joined(run, self.2);
        let run = joined(run, self.3);
        let run = joined(run, self.4);
        let run = joined(run, self.5);
        let run = joined(run, self.6);
        let run = joined(run, self.7);
        let run = joined(run, self.8);
        let run = joined(run, self.9);
        offer_run(run)
    }

    open spec fn nth(self, h: Store, i: int) -> (Store, GResult<Slot>) {
        let run0 = started(h);
        let run1 = joined(run0, self.0);
        let run2 = joined(run1, self.1);
        let run3 = joined(run2, self.2);
        let run4 = joined(run3, self.3);
        let run5 = joined(run4, self.4);
        let run6 = joined(run5, self.5);
        let run7 = joined(run6, self.6);
        let run8 = joined(run7, self.7);
        let run9 = joined(run8, self.8);
        if i == 0 {
            slotted(self.0.to_val(run0.0))
        } else if i == 1 {
            slotted(self.1.to_val(run1.0))
        } else if i == 2 {
            slotted(self.2.to_val(run2.0))
        } else if i == 3 {
            slotted(self.3.to_val(run3.0))
        } else if i == 4 {
            slotted(self.4.to_val(run4.0))
        } else if i == 5 {
            slotted(self.5.to_val(run5.0))
        } else if i == 6 {
            slotted(self.6.to_val(run6.0))
        } else if i == 7 {
            slotted(self.7.to_val(run7.0))
        } else if i == 8 {
            slotted(self.8.to_val(run8.0))
        } else {
            slotted(self.9.to_val(run9.0))
        }
    }

    proof fn lawful_offer(self, h: Store) {
        let run0 = started(h);
        let run1 = joined(run0, self.0);
        let run2 = joined(run1, self.1);
        let run3 = joined(run2, self.2);
        let run4 = joined(run3, self.3);
        let run5 = joined(run4, self.4);
        let run6 = joined(run5, self.5);
        let run7 = joined(run6, self.6);
        let run8 = joined(run7, self.7);
        let run9 = joined(run8, self.8);
        let run10 = joined(run9, self.9);
        let nth0 = self.nth(h, 0);
        let nth1 = self.nth(h, 1);
        let nth2 = self.nth(h, 2);
        let nth3 = self.nth(h, 3);
        let nth4 = self.nth(h, 4);
        let nth5 = self.nth(h, 5);
        let nth6 = self.nth(h, 6);
        let nth7 = self.nth(h, 7);
        let nth8 = self.nth(h, 8);
        let nth9 = self.nth(h, 9);
    }

    fn arg_count(&self) -> (n: usize) {
        10
    }

    fn into_call_args(self, dst: &mut Vec<Slot>, heap: &mut Heap) -> (r: GResult<()>) {
        assert(dst@ + Seq::<Slot>::empty() =~= dst@);
        let slots: Vec<Slot> = Vec::with_capacity(10);
        let run = join(Ok(slots), self.0, heap);
        let run = join(run, self.1, heap);
        let run = join(run, self.2, heap);
        let run = join(run, self.3, heap);
        let run = join(run, self.4, heap);
        let run = join(run, self.5, heap);
        let run = join(run, self.6, heap);
        let run = join(run, self.7, heap);
        let run = join(run, self.8, heap);
        let run = join(run, self.9, heap);
        offer_slots(run, dst)
    }
}

impl<'a, A, B, C, D, E, F, G, H, I, J> IntoCallArgs for &'a (A, B, C, D, E, F, G, H, I, J) where
    &'a A: IntoVal,
    &'a B: IntoVal,
    &'a C: IntoVal,
    &'a D: IntoVal,
    &'a E: IntoVal,
    &'a F: IntoVal,
    &'a G: IntoVal,
    &'a H: IntoVal,
    &'a I: IntoVal,
    &'a J: IntoVal,
 {
    open spec fn count(self) -> nat {
        10
    }

    open spec fn offer(self, h: Store) -> Offer {
        let run = started(h);
        let run = joined(run, &self.0);
        let run = joined(run, &self.1);
        let run = joined(run, &self.2);
        let run = joined(run, &self.3);
        let run = joined(run, &self.4);
        let run = joined(run, &self.5);
        let run = joined(run, &self.6);
        let run = joined(run, &self.7);
        let run = joined(run, &self.8);
        let run = joined(run, &self.9);
        offer_run(run)
    }

    open spec fn nth(self, h: Store, i: int) -> (Store, GResult<Slot>) {
        let run0 = started(h);
        let run1 = joined(run0, &self.0);
        let run2 = joined(run1, &self.1);
        let run3 = joined(run2, &self.2);
        let run4 = joined(run3, &self.3);
        let run5 = joined(run4, &self.4);
        let run6 = joined(run5, &self.5);
        let run7 = joined(run6, &self.6);
        let run8 = joined(run7, &self.7);
        let run9 = joined(run8, &self.8);
        if i == 0 {
            slotted((&self.0).to_val(run0.0))
        } else if i == 1 {
            slotted((&self.1).to_val(run1.0))
        } else if i == 2 {
            slotted((&self.2).to_val(run2.0))
        } else if i == 3 {
            slotted((&self.3).to_val(run3.0))
        } else if i == 4 {
            slotted((&self.4).to_val(run4.0))
        } else if i == 5 {
            slotted((&self.5).to_val(run5.0))
        } else if i == 6 {
            slotted((&self.6).to_val(run6.0))
        } else if i == 7 {
            slotted((&self.7).to_val(run7.0))
        } else if i == 8 {
            slotted((&self.8).to_val(run8.0))
        } else {
            slotted((&self.9).to_val(run9.0))
        }
    }

    proof fn lawful_offer(self, h: Store) {
        let run0 = started(h);
        let run1 = joined(run0, &self.0);
        let run2 = joined(run1, &self.1);
        let run3 = joined(run2, &self.2);
        let run4 = joined(run3, &self.3);
        let run5 = joined(run4, &self.4);
        let run6 = joined(run5, &self.5);
        let run7 = joined(run6, &self.6);
        let run8 = joined(run7, &self.7);
        let run9 = joined(run8, &self.8);
        let run10 = joined(run9, &self.9);
        let nth0 = self.nth(h, 0);
        let nth1 = self.nth(h, 1);
        let nth2 = self.nth(h, 2);
        let nth3 = self.nth(h, 3);
        let nth4 = self.nth(h, 4);
        let nth5 = self.nth(h, 5);
        let nth6 = self.nth(h, 6);
        let nth7 = self.nth(h, 7);
        let nth8 = self.nth(h, 8);
        let nth9 = self.nth(h, 9);
    }

    fn arg_count(&self) -> (n: usize) {
        10
    }

    fn into_call_args(self, dst: &mut Vec<Slot>, heap: &mut Heap) -> (r: GResult<()>) {
        assert(dst@ + Seq::<Slot>::empty() =~= dst@);
        let slots: Vec<Slot> = Vec::with_capacity(10);
        let run = join(Ok(slots), &self.0, heap);
        let run = join(run, &self.1, heap);
        let run = join(run, &self.2, heap);
        let run = join(run, &self.3, heap);
        let run = join(run, &self.4, heap);
        let run = join(run, &self.5, heap);
        let run = join(run, &self.6, heap);
        let run = join(run, &self.7, heap);
        let run = join(run, &self.8, heap);
        let run = join(run, &self.9, heap);
        offer_slots(run, dst)
    }
}

impl<
    'a,
    A: IntoValMut,
    B: IntoValMut,
    C: IntoValMut,
    D: IntoValMut,
    E: IntoValMut,
    F: IntoValMut,
    G: IntoValMut,
    H: IntoValMut,
    I: IntoValMut,
    J: IntoValMut,
> IntoCallArgs for &'a mut (A, B, C, D, E, F, G, H, I, J) {
    open spec fn count(self) -> nat {
        10
    }

    open spec fn offer(self, h: Store) -> Offer {
        let run = started(h);
        let run = mut_joined(run, (*self).0);
        let run = mut_joined(run, (*self).1);
        let run = mut_joined(run, (*self).2);
        let run = mut_joined(run, (*self).3);
        let run = mut_joined(run, (*self).4);
        let run = mut_joined(run, (*self).5);
        let run = mut_joined(run, (*self).6);
        let run = mut_joined(run, (*self).7);
        let run = mut_joined(run, (*self).8);
        let run = mut_joined(run, (*self).9);
        offer_run(run)
    }

    open spec fn nth(self, h: Store, i: int) -> (Store, GResult<Slot>) {
        let run0 = started(h);
        let run1 = mut_joined(run0, (*self).0);
        let run2 = mut_joined(run1, (*self).1);
        let run3 = mut_joined(run2, (*self).2);
        let run4 = mut_joined(run3, (*self).3);
        let run5 = mut_joined(run4, (*self).4);
        let run6 = mut_joined(run5, (*self).5);
        let run7 = mut_joined(run6, (*self).6);
        let run8 = mut_joined(run7, (*self).7);
        let run9 = mut_joined(run8, (*self).8);
        if i == 0 {
            slotted((*self).0.mut_to_val(run0.0))
        } else if i == 1 {
            slotted((*self).1.mut_to_val(run1.0))
        } else if i == 2 {
            slotted((*self).2.mut_to_val(run2.0))
        } else if i == 3 {
            slotted((*self).3.mut_to_val(run3.0))
        } else if i == 4 {
            slotted((*self).4.mut_to_val(run4.0))
        } else if i == 5 {
            slotted((*self).5.mut_to_val(run5.0))
        } else if i == 6 {
            slotted((*self).6.mut_to_val(run6.0))
        } else if i == 7 {
            slotted((*self).7.mut_to_val(run7.0))
        } else if i == 8 {
            slotted((*self).8.mut_to_val(run8.0))
        } else {
            slotted((*self).9.mut_to_val(run9.0))
        }
    }

    proof fn lawful_offer(self, h: Store) {
        let run0 = started(h);
        let run1 = mut_joined(run0, (*self).0);
        let run2 = mut_joined(run1, (*self).1);
        let run3 = mut_joined(run2, (*self).2);
        let run4 = mut_joined(run3, (*self).3);
        let run5 = mut_joined(run4, (*self).4);
        let run6 = mut_joined(run5, (*self).5);
        let run7 = mut_joined(run6, (*self).6);
        let run8 = mut_joined(run7, (*self).7);
        let run9 = mut_joined(run8, (*self).8);
        let run10 = mut_joined(run9, (*self).9);
        let nth0 = self.nth(h, 0);
        let nth1 = self.nth(h, 1);
        let nth2 = self.nth(h, 2);
        let nth3 = self.nth(h, 3);
        let nth4 = self.nth(h, 4);
        let nth5 = self.nth(h, 5);
        let nth6 = self.nth(h, 6);
        let nth7 = self.nth(h, 7);
        let nth8 = self.nth(h, 8);
        let nth9 = self.nth(h, 9);
    }

    fn arg_count(&self) -> (n: usize) {
        10
    }

    fn into_call_args(self, dst: &mut Vec<Slot>, heap: &mut Heap) -> (r: GResult<()>)
        ensures
            ({
                let run0 = started(old(heap)@);
                let run1 = mut_joined(run0, old(self).0);
                let run2 = mut_joined(run1, old(self).1);
                let run3 = mut_joined(run2, old(self).2);
                let run4 = mut_joined(run3, old(self).3);
                let run5 = mut_joined(run4, old(self).4);
                let run6 = mut_joined(run5, old(self).5);
                let run7 = mut_joined(run6, old(self).6);
                let run8 = mut_joined(run7, old(self).7);
                let run9 = mut_joined(run8, old(self).8);
                &&& mut_left(run0, old(self).0, final(self).0)
                &&& mut_left(run1, old(self).1, final(self).1)
                &&& mut_left(run2, old(self).2, final(self).2)
                &&& mut_left(run3, old(self).3, final(self).3)
                &&& mut_left(run4, old(self).4, final(self).4)
                &&& mut_left(run5, old(self).5, final(self).5)
                &&& mut_left(run6, old(self).6, final(self).6)
                &&& mut_left(run7, old(self).7, final(self).7)
                &&& mut_left(run8, old(self).8, final(self).8)
                &&& mut_left(run9, old(self).9, final(self).9)
            }),
    {
        assert(dst@ + Seq::<Slot>::empty() =~= dst@);
        let slots: Vec<Slot> = Vec::with_capacity(10);
        let run = mut_join(Ok(slots), &mut self.0, heap);
        let run = mut_join(run, &mut self.1, heap);
        let run = mut_join(run, &mut self.2, heap);
        let run = mut_join(run, &mut self.3, heap);
        let run = mut_join(run, &mut self.4, heap);
        let run = mut_join(run, &mut self.5, heap);
        let run = mut_join(run, &mut self.6, heap);
        let run = mut_join(run, &mut self.7, heap);
        let run = mut_join(run, &mut self.8, heap);
        let run = mut_join(run, &mut self.9, heap);
        offer_slots(run, dst)
    }
}

impl<
    A: IntoVal,
    B: IntoVal,
    C: IntoVal,
    D: IntoVal,
    E: IntoVal,
    F: IntoVal,
    G: IntoVal,
    H: IntoVal,
    I: IntoVal,
    J: IntoVal,
    K: IntoVal,
> IntoCallArgs for (A, B, C, D, E, F, G, H, I, J, K) {
    open spec fn count(self) -> nat {
        11
    }

    open spec fn offer(self, h: Store) -> Offer {
        let run = started(h);
        let run = joined(run, self.0);
        let run = joined(run, self.1);
        let run = joined(run, self.2);
        let run = joined(run, self.3);
        let run = joined(run, self.4);
        let run = joined(run, self.5);
        let run = joined(run, self.6);
        let run = joined(run, self.7);
        let run = joined(run, self.8);
        let run = joined(run, self.9);
        let run = joined(run, self.10);
        offer_run(run)
    }

    open spec fn nth(self, h: Store, i: int) -> (Store, GResult<Slot>) {
        let run0 = started(h);
        let run1 = joined(run0, self.0);
        let run2 = joined(run1, self.1);
        let run3 = joined(run2, self.2);
        let run4 = joined(run3, self.3);
        let run5 = joined(run4, self.4);
        let run6 = joined(run5, self.5);
        let run7 = joined(run6, self.6);
        let run8 = joined(run7, self.7);
        let run9 = joined(run8, self.8);
        let run10 = joined(run9, self.9);
        if i == 0 {
            slotted(self.0.to_val(run0.0))
        } else if i == 1 {
            slotted(self.1.to_val(run1.0))
        } else if i == 2 {
            slotted(self.2.to_val(run2.0))
        } else if i == 3 {
            slotted(self.3.to_val(run3.0))
        } else if i == 4 {
            slotted(self.4.to_val(run4.0))
        } else if i == 5 {
            slotted(self.5.to_val(run5.0))
        } else if i == 6 {
            slotted(self.6.to_val(run6.0))
        } else if i == 7 {
            slotted(self.7.to_val(run7.0))
        } else if i == 8 {
            slotted(self.8.to_val(run8.0))
        } else if i == 9 {
            slotted(self.9.to_val(run9.0))
        } else {
            slotted(self.10.to_val(run10.0))
        }
    }

    proof fn lawful_offer(self, h: Store) {
        let run0 = started(h);
        let run1 = joined(run0, self.0);
        let run2 = joined(run1, self.1);
        let run3 = joined(run2, self.2);
        let run4 = joined(run3, self.3);
        let run5 = joined(run4, self.4);
        let run6 = joined(run5, self.5);
        let run7 = joined(run6, self.6);
        let run8 = joined(run7, self.7);
        let run9 = joined(run8, self.8);
        let run10 = joined(run9, self.9);
        let run11 = joined(run10, self.10);
        let nth0 = self.nth(h, 0);
        let nth1 = self.nth(h, 1);
        let nth2 = self.nth(h, 2);
        let nth3 = self.nth(h, 3);
        let nth4 = self.nth(h, 4);
        let nth5 = self.nth(h, 5);
        let nth6 = self.nth(h, 6);
        let nth7 = self.nth(h, 7);
        let nth8 = self.nth(h, 8);
        let nth9 = self.nth(h, 9);
        let nth10 = self.nth(h, 10);
    }

    fn arg_count(&self) -> (n: usize) {
        11
    }

    fn into_call_args(self, dst: &mut Vec<Slot>, heap: &mut Heap) -> (r: GResult<()>) {
        assert(dst@ + Seq::<Slot>::empty() =~= dst@);
        let slots: Vec<Slot> = Vec::with_capacity(11);
        let run = join(Ok(slots), self.0, heap);
        let run = join(run, self.1, heap);
        let run = join(run, self.2, heap);
        let run = join(run, self.3, heap);
        let run = join(run, self.4, heap);
        let run = join(run, self.5, heap);
        let run = join(run, self.6, heap);
        let run = join(run, self.7, heap);
        let run = join(run, self.8, heap);
        let run = join(run, self.9, heap);
        let run = join(run, self.10, heap);
        offer_slots(run, dst)
    }
}

impl<
    'a,
    A,
    B,
    C,
    D,
    E,
    F,
    G,
    H,
    I,
    J,
    K,
> IntoCallArgs for &'a (A, B, C, D, E, F, G, H, I, J, K) where
    &'a A: IntoVal,
    &'a B: IntoVal,
    &'a C: IntoVal,
    &'a D: IntoVal,
    &'a E: IntoVal,
    &'a F: IntoVal,
    &'a G: IntoVal,
    &'a H: IntoVal,
    &'a I: IntoVal,
    &'a J: IntoVal,
    &'a K: IntoVal,
 {
    open spec fn count(self) -> nat {
        11
    }

    open spec fn offer(self, h: Store) -> Offer {
        let run = started(h);
        let run = joined(run, &self.0);
        let run = joined(run, &self.1);
        let run = joined(run, &self.2);
        let run = joined(run, &self.3);
        let run = joined(run, &self.4);
        let run = joined(run, &self.5);
        let run = joined(run, &self.6);
        let run = joined(run, &self.7);
        let run = joined(run, &self.8);
        let run = joined(run, &self.9);
        let run = joined(run, &self.10);
        offer_run(run)
    }

    open spec fn nth(self, h: Store, i: int) -> (Store, GResult<Slot>) {
        let run0 = started(h);
        let run1 = joined(run0, &self.0);
        let run2 = joined(run1, &self.1);
        let run3 = joined(run2, &self.2);
        let run4 = joined(run3, &self.3);
        let run5 = joined(run4, &self.4);
        let run6 = joined(run5, &self.5);
        let run7 = joined(run6, &self.6);
        let run8 = joined(run7, &self.7);
        let run9 = joined(run8, &self.8);
        let run10 = joined(run9, &self.9);
        if i == 0 {
            slotted((&self.0).to_val(run0.0))
        } else if i == 1 {
            slotted((&self.1).to_val(run1.0))
        } else if i == 2 {
            slotted((&self.2).to_val(run2.0))
        } else if i == 3 {
            slotted((&self.3).to_val(run3.0))
        } else if i == 4 {
            slotted((&self.4).to_val(run4.0))
        } else if i == 5 {
            slotted((&self.5).to_val(run5.0))
        } else if i == 6 {
            slotted((&self.6).to_val(run6.0))
        } else if i == 7 {
            slotted((&self.7).to_val(run7.0))
        } else if i == 8 {
            slotted((&self.8).to_val(run8.0))
        } else if i == 9 {
            slotted((&self.9).to_val(run9.0))
        } else {
            slotted((&self.10).to_val(run10.0))
        }
    }

    proof fn lawful_offer(self, h: Store) {
        let run0 = started(h);
        let run1 = joined(run0, &self.0);
        let run2 = joined(run1, &self.1);
        let run3 = joined(run2, &self.2);
        let run4 = joined(run3, &self.3);
        let run5 = joined(run4, &self.4);
        let run6 = joined(run5, &self.5);
        let run7 = joined(run6, &self.6);
        let run8 = joined(run7, &self.7);
        let run9 = joined(run8, &self.8);
        let run10 = joined(run9, &self.9);
        let run11 = joined(run10, &self.10);
        let nth0 = self.nth(h, 0);
        let nth1 = self.nth(h, 1);
        let nth2 = self.nth(h, 2);
        let nth3 = self.nth(h, 3);
        let nth4 = self.nth(h, 4);
        let nth5 = self.nth(h, 5);
        let nth6 = self.nth(h, 6);
        let nth7 = self.nth(h, 7);
        let nth8 = self.nth(h, 8);
        let nth9 = self.nth(h, 9);
        let nth10 = self.nth(h, 10);
    }

    fn arg_count(&self) -> (n: usize) {
        11
    }

    fn into_call_args(self, dst: &mut Vec<Slot>, heap: &mut Heap) -> (r: GResult<()>) {
        assert(dst@ + Seq::<Slot>::empty() =~= dst@);
        let slots: Vec<Slot> = Vec::with_capacity(11);
        let run = join(Ok(slots), &self.0, heap);
        let run = join(run, &self.1, heap);
        let run = join(run, &self.2, heap);
        let run = join(run, &self.3, heap);
        let run = join(run, &self.4, heap);
        let run = join(run, &self.5, heap);
        let run = join(run, &self.6, heap);
        let run = join(run, &self.7, heap);
        let run = join(run, &self.8, heap);
        let run = join(run, &self.9, heap);
        let run = join(run, &self.10, heap);
        offer_slots(run, dst)
    }
}

impl<
    'a,
    A: IntoValMut,
    B: IntoValMut,
    C: IntoValMut,
    D: IntoValMut,
    E: IntoValMut,
    F: IntoValMut,
    G: IntoValMut,
    H: IntoValMut,
    I: IntoValMut,
    J: IntoValMut,
    K: IntoValMut,
> IntoCallArgs for &'a mut (A, B, C, D, E, F, G, H, I, J, K) {
    open spec fn count(self) -> nat {
        11
    }

    open spec fn offer(self, h: Store) -> Offer {
        let run = started(h);
        let run = mut_joined(run, (*self).0);
        let run = mut_joined(run, (*self).1);
        let run = mut_joined(run, (*self).2);
        let run = mut_joined(run, (*self).3);
        let run = mut_joined(run, (*self).4);
        let run = mut_joined(run, (*self).5);
        let run = mut_joined(run, (*self).6);
        let run = mut_joined(run, (*self).7);
        let run = mut_joined(run, (*self).8);
        let run = mut_joined(run, (*self).9);
        let run = mut_joined(run, (*self).10);
        offer_run(run)
    }

    open spec fn nth(self, h: Store, i: int) -> (Store, GResult<Slot>) {
        let run0 = started(h);
        let run1 = mut_joined(run0, (*self).0);
        let run2 = mut_joined(run1, (*self).1);
        let run3 = mut_joined(run2, (*self).2);
        let run4 = mut_joined(run3, (*self).3);
        let run5 = mut_joined(run4, (*self).4);
        let run6 = mut_joined(run5, (*self).5);
        let run7 = mut_joined(run6, (*self).6);
        let run8 = mut_joined(run7, (*self).7);
        let run9 = mut_joined(run8, (*self).8);
        let run10 = mut_joined(run9, (*self).9);
        if i == 0 {
            slotted((*self).0.mut_to_val(run0.0))
        } else if i == 1 {
            slotted((*self).1.mut_to_val(run1.0))
        } else if i == 2 {
            slotted((*self).2.mut_to_val(run2.0))
        } else if i == 3 {
            slotted((*self).3.mut_to_val(run3.0))
        } else if i == 4 {
            slotted((*self).4.mut_to_val(run4.0))
        } else if i == 5 {
            slotted((*self).5.mut_to_val(run5.0))
        } else if i == 6 {
            slotted((*self).6.mut_to_val(run6.0))
        } else if i == 7 {
            slotted((*self).7.mut_to_val(run7.0))
        } else if i == 8 {
            slotted((*self).8.mut_to_val(run8.0))
        } else if i == 9 {
            slotted((*self).9.mut_to_val(run9.0))
        } else {
            slotted((*self).10.mut_to_val(run10.0))
        }
    }

    proof fn lawful_offer(self, h: Store) {
        let run0 = started(h);
        let run1 = mut_joined(run0, (*self).0);
        let run2 = mut_joined(run1, (*self).1);
        let run3 = mut_joined(run2, (*self).2);
        let run4 = mut_joined(run3, (*self).3);
        let run5 = mut_joined(run4, (*self).4);
        let run6 = mut_joined(run5, (*self).5);
        let run7 = mut_joined(run6, (*self).6);
        let run8 = mut_joined(run7, (*self).7);
        let run9 = mut_joined(run8, (*self).8);
        let run10 = mut_joined(run9, (*self).9);
        let run11 = mut_joined(run10, (*self).10);
        let nth0 = self.nth(h, 0);
        let nth1 = self.nth(h, 1);
        let nth2 = self.nth(h, 2);
        let nth3 = self.nth(h, 3);
        let nth4 = self.nth(h, 4);
        let nth5 = self.nth(h, 5);
        let nth6 = self.nth(h, 6);
        let nth7 = self.nth(h, 7);
        let nth8 = self.nth(h, 8);
        let nth9 = self.nth(h, 9);
        let nth10 = self.nth(h, 10);
    }

    fn arg_count(&self) -> (n: usize) {
        11
    }

    fn into_call_args(self, dst: &mut Vec<Slot>, heap: &mut Heap) -> (r: GResult<()>)
        ensures
            ({
                let run0 = started(old(heap)@);
                let run1 = mut_joined(run0, old(self).0);
                let run2 = mut_joined(run1, old(self).1);
                let run3 = mut_joined(run2, old(self).2);
                let run4 = mut_joined(run3, old(self).3);
                let run5 = mut_joined(run4, old(self).4);
                let run6 = mut_joined(run5, old(self).5);
                let run7 = mut_joined(run6, old(self).6);
                let run8 = mut_joined(run7, old(self).7);
                let run9 = mut_joined(run8, old(self).8);
                let run10 = mut_joined(run9, old(self).9);
                &&& mut_left(run0, old(self).0, final(self).0)
                &&& mut_left(run1, old(self).1, final(self).1)
                &&& mut_left(run2, old(self).2, final(self).2)
                &&& mut_left(run3, old(self).3, final(self).3)
                &&& mut_left(run4, old(self).4, final(self).4)
                &&& mut_left(run5, old(self).5, final(self).5)
                &&& mut_left(run6, old(self).6, final(self).6)
                &&& mut_left(run7, old(self).7, final(self).7)
                &&& mut_left(run8, old(self).8, final(self).8)
                &&& mut_left(run9, old(self).9, final(self).9)
                &&& mut_left(run10, old(self).10, final(self).10)
            }),
    {
        assert(dst@ + Seq::<Slot>::empty() =~= dst@);
        let slots: Vec<Slot> = Vec::with_capacity(11);
        let run = mut_join(Ok(slots), &mut self.0, heap);
        let run = mut_join(run, &mut self.1, heap);
        let run = mut_join(run, &mut self.2, heap);
        let run = mut_join(run, &mut self.3, heap);
        let run = mut_join(run, &mut self.4, heap);
        let run = mut_join(run, &mut self.5, heap);
        let run = mut_join(run, &mut self.6, heap);
        let run = mut_join(run, &mut self.7, heap);
        let run = mut_join(run, &mut self.8, heap);
        let run = mut_join(run, &mut self.9, heap);
        let run = mut_join(run, &mut self.10, heap);
        offer_slots(run, dst)
    }
}

impl<
    A: IntoVal,
    B: IntoVal,
    C: IntoVal,
    D: IntoVal,
    E: IntoVal,
    F: IntoVal,
    G: IntoVal,
    H: IntoVal,
    I: IntoVal,
    J: IntoVal,
    K: IntoVal,
    L: IntoVal,
> IntoCallArgs for (A, B, C, D, E, F, G, H, I, J, K, L) {
    open spec fn count(self) -> nat {
        12
    }

    open spec fn offer(self, h: Store) -> Offer {
        let run = started(h);
        let run = joined(run, self.0);
        let run = joined(run, self.1);
        let run = joined(run, self.2);
        let run = joined(run, self.3);
        let run = joined(run, self.4);
        let run = joined(run, self.5);
        let run = joined(run, self.6);
        let run = joined(run, self.7);
        let run = joined(run, self.8);
        let run = joined(run, self.9);
        let run = joined(run, self.10);
        let run = joined(run, self.11);
        offer_run(run)
    }

    open spec fn nth(self, h: Store, i: int) -> (Store, GResult<Slot>) {
        let run0 = started(h);
        let run1 = joined(run0, self.0);
        let run2 = joined(run1, self.1);
        let run3 = joined(run2, self.2);
        let run4 = joined(run3, self.3);
        let run5 = joined(run4, self.4);
        let run6 = joined(run5, self.5);
        let run7 = joined(run6, self.6);
        let run8 = joined(run7, self.7);
        let run9 = joined(run8, self.8);
        let run10 = joined(run9, self.9);
        let run11 = joined(run10, self.10);
        if i == 0 {
            slotted(self.0.to_val(run0.0))
        } else if i == 1 {
            slotted(self.1.to_val(run1.0))
        } else if i == 2 {
            slotted(self.2.to_val(run2.0))
        } else if i == 3 {
            slotted(self.3.to_val(run3.0))
        } else if i == 4 {
            slotted(self.4.to_val(run4.0))
        } else if i == 5 {
            slotted(self.5.to_val(run5.0))
        } else if i == 6 {
            slotted(self.6.to_val(run6.0))
        } else if i == 7 {
            slotted(self.7.to_val(run7.0))
        } else if i == 8 {
            slotted(self.8.to_val(run8.0))
        } else if i == 9 {
            slotted(self.9.to_val(run9.0))
        } else if i == 10 {
            slotted(self.10.to_val(run10.0))
        } else {
            slotted(self.11.to_val(run11.0))
        }
    }

    proof fn lawful_offer(self, h: Store) {
        let run0 = started(h);
        let run1 = joined(run0, self.0);
        let run2 = joined(run1, self.1);
        let run3 = joined(run2, self.2);
        let run4 = joined(run3, self.3);
        let run5 = joined(run4, self.4);
        let run6 = joined(run5, self.5);
        let run7 = joined(run6, self.6);
        let run8 = joined(run7, self.7);
        let run9 = joined(run8, self.8);
        let run10 = joined(run9, self.9);
        let run11 = joined(run10, self.10);
        let run12 = joined(run11, self.11);
        let nth0 = self.nth(h, 0);
        let nth1 = self.nth(h, 1);
        let nth2 = self.nth(h, 2);
        let nth3 = self.nth(h, 3);
        let nth4 = self.nth(h, 4);
        let nth5 = self.nth(h, 5);
        let nth6 = self.nth(h, 6);
        let nth7 = self.nth(h, 7);
        let nth8 = self.nth(h, 8);
        let nth9 = self.nth(h, 9);
        let nth10 = self.nth(h, 10);
        let nth11 = self.nth(h, 11);
    }

    fn arg_count(&self) -> (n: usize) {
        12
    }

    fn into_call_args(self, dst: &mut Vec<Slot>, heap: &mut Heap) -> (r: GResult<()>) {
        assert(dst@ + Seq::<Slot>::empty() =~= dst@);
        let slots: Vec<Slot> = Vec::with_capacity(12);
        let run = join(Ok(slots), self.0, heap);
        let run = join(run, self.1, heap);
        let run = join(run, self.2, heap);
        let run = join(run, self.3, heap);
        let run = join(run, self.4, heap);
        let run = join(run, self.5, heap);
        let run = join(run, self.6, heap);
        let run = join(run, self.7, heap);
        let run = join(run, self.8, heap);
        let run = join(run, self.9, heap);
        let run = join(run, self.10, heap);
        let run = join(run, self.11, heap);
        offer_slots(run, dst)
    }
}

impl<
    'a,
    A,
    B,
    C,
    D,
    E,
    F,
    G,
    H,
    I,
    J,
    K,
    L,
> IntoCallArgs for &'a (A, B, C, D, E, F, G, H, I, J, K, L) where
    &'a A: IntoVal,
    &'a B: IntoVal,
    &'a C: IntoVal,
    &'a D: IntoVal,
    &'a E: IntoVal,
    &'a F: IntoVal,
    &'a G: IntoVal,
    &'a H: IntoVal,
    &'a I: IntoVal,
    &'a J: IntoVal,
    &'a K: IntoVal,
    &'a L: IntoVal,
 {
    open spec fn count(self) -> nat {
        12
    }

    open spec fn offer(self, h: Store) -> Offer {
        let run = started(h);
        let run = joined(run, &self.0);
        let run = joined(run, &self.1);
        let run = joined(run, &self.2);
        let run = joined(run, &self.3);
        let run = joined(run, &self.4);
        let run = joined(run, &self.5);
        let run = joined(run, &self.6);
        let run = joined(run, &self.7);
        let run = joined(run, &self.8);
        let run = joined(run, &self.9);
        let run = joined(run, &self.10);
        let run = joined(run, &self.11);
        offer_run(run)
    }

    open spec fn nth(self, h: Store, i: int) -> (Store, GResult<Slot>) {
        let run0 = started(h);
        let run1 = joined(run0, &self.0);
        let run2 = joined(run1, &self.1);
        let run3 = joined(run2, &self.2);
        let run4 = joined(run3, &self.3);
        let run5 = joined(run4, &self.4);
        let run6 = joined(run5, &self.5);
        let run7 = joined(run6, &self.6);
        let run8 = joined(run7, &self.7);
        let run9 = joined(run8, &self.8);
        let run10 = joined(run9, &self.9);
        let run11 = joined(run10, &self.10);
        if i == 0 {
            slotted((&self.0).to_val(run0.0))
        } else if i == 1 {
            slotted((&self.1).to_val(run1.0))
        } else if i == 2 {
            slotted((&self.2).to_val(run2.0))
        } else if i == 3 {
            slotted((&self.3).to_val(run3.0))
        } else if i == 4 {
            slotted((&self.4).to_val(run4.0))
        } else if i == 5 {
            slotted((&self.5).to_val(run5.0))
        } else if i == 6 {
            slotted((&self.6).to_val(run6.0))
        } else if i == 7 {
            slotted((&self.7).to_val(run7.0))
        } else if i == 8 {
            slotted((&self.8).to_val(run8.0))
        } else if i == 9 {
            slotted((&self.9).to_val(run9.0))
        } else if i == 10 {
            slotted((&self.10).to_val(run10.0))
        } else {
            slotted((&self.11).to_val(run11.0))
        }
    }

    proof fn lawful_offer(self, h: Store) {
        let run0 = started(h);
        let run1 = joined(run0, &self.0);
        let run2 = joined(run1, &self.1);
        let run3 = joined(run2, &self.2);
        let run4 = joined(run3, &self.3);
        let run5 = joined(run4, &self.4);
        let run6 = joined(run5, &self.5);
        let run7 = joined(run6, &self.6);
        let run8 = joined(run7, &self.7);
        let run9 = joined(run8, &self.8);
        let run10 = joined(run9, &self.9);
        let run11 = joined(run10, &self.10);
        let run12 = joined(run11, &self.11);
        let nth0 = self.nth(h, 0);
        let nth1 = self.nth(h, 1);
        let nth2 = self.nth(h, 2);
        let nth3 = self.nth(h, 3);
        let nth4 = self.nth(h, 4);
        let nth5 = self.nth(h, 5);
        let nth6 = self.nth(h, 6);
        let nth7 = self.nth(h, 7);
        let nth8 = self.nth(h, 8);
        let nth9 = self.nth(h, 9);
        let nth10 = self.nth(h, 10);
        let nth11 = self.nth(h, 11);
    }

    fn arg_count(&self) -> (n: usize) {
        12
    }

    fn into_call_args(self, dst: &mut Vec<Slot>, heap: &mut Heap) -> (r: GResult<()>) {
        assert(dst@ + Seq::<Slot>::empty() =~= dst@);
        let slots: Vec<Slot> = Vec::with_capacity(12);
        let run = join(Ok(slots), &self.0, heap);
        let run = join(run, &self.1, heap);
        let run = join(run, &self.2, heap);
        let run = join(run, &self.3, heap);
        let run = join(run, &self.4, heap);
        let run = join(run, &self.5, heap);
        let run = join(run, &self.6, heap);
        let run = join(run, &self.7, heap);
        let run = join(run, &self.8, heap);
        let run = join(run, &self.9, heap);
        let run = join(run, &self.10, heap);
        let run = join(run, &self.11, heap);
        offer_slots(run, dst)
    }
}

impl<
    'a,
    A: IntoValMut,
    B: IntoValMut,
    C: IntoValMut,
    D: IntoValMut,
    E: IntoValMut,
    F: IntoValMut,
    G: IntoValMut,
    H: IntoValMut,
    I: IntoValMut,
    J: IntoValMut,
    K: IntoValMut,
    L: IntoValMut,
> IntoCallArgs for &'a mut (A, B, C, D, E, F, G, H, I, J, K, L) {
    open spec fn count(self) -> nat {
        12
    }

    open spec fn offer(self, h: Store) -> Offer {
        let run = started(h);
        let run = mut_joined(run, (*self).0);
        let run = mut_joined(run, (*self).1);
        let run = mut_joined(run, (*self).2);
        let run = mut_joined(run, (*self).3);
        let run = mut_joined(run, (*self).4);
        let run = mut_joined(run, (*self).5);
        let run = mut_joined(run, (*self).6);
        let run = mut_joined(run, (*self).7);
        let run = mut_joined(run, (*self).8);
        let run = mut_joined(run, (*self).9);
        let run = mut_joined(run, (*self).10);
        let run = mut_joined(run, (*self).11);
        offer_run(run)
    }

    open spec fn nth(self, h: Store, i: int) -> (Store, GResult<Slot>) {
        let run0 = started(h);
        let run1 = mut_joined(run0, (*self).0);
        let run2 = mut_joined(run1, (*self).1);
        let run3 = mut_joined(run2, (*self).2);
        let run4 = mut_joined(run3, (*self).3);
        let run5 = mut_joined(run4, (*self).4);
        let run6 = mut_joined(run5, (*self).5);
        let run7 = mut_joined(run6, (*self).6);
        let run8 = mut_joined(run7, (*self).7);
        let run9 = mut_joined(run8, (*self).8);
        let run10 = mut_joined(run9, (*self).9);
        let run11 = mut_joined(run10, (*self).10);
        if i == 0 {
            slotted((*self).0.mut_to_val(run0.0))
        } else if i == 1 {
            slotted((*self).1.mut_to_val(run1.0))
        } else if i == 2 {
            slotted((*self).2.mut_to_val(run2.0))
        } else if i == 3 {
            slotted((*self).3.mut_to_val(run3.0))
        } else if i == 4 {
            slotted((*self).4.mut_to_val(run4.0))
        } else if i == 5 {
            slotted((*self).5.mut_to_val(run5.0))
        } else if i == 6 {
            slotted((*self).6.mut_to_val(run6.0))
        } else if i == 7 {
            slotted((*self).7.mut_to_val(run7.0))
        } else if i == 8 {
            slotted((*self).8.mut_to_val(run8.0))
        } else if i == 9 {
            slotted((*self).9.mut_to_val(run9.0))
        } else if i == 10 {
            slotted((*self).10.mut_to_val(run10.0))
        } else {
            slotted((*self).11.mut_to_val(run11.0))
        }
    }

    proof fn lawful_offer(self, h: Store) {
        let run0 = started(h);
        let run1 = mut_joined(run0, (*self).0);
        let run2 = mut_joined(run1, (*self).1);
        let run3 = mut_joined(run2, (*self).2);
        let run4 = mut_joined(run3, (*self).3);
        let run5 = mut_joined(run4, (*self).4);
        let run6 = mut_joined(run5, (*self).5);
        let run7 = mut_joined(run6, (*self).6);
        let run8 = mut_joined(run7, (*self).7);
        let run9 = mut_joined(run8, (*self).8);
        let run10 = mut_joined(run9, (*self).9);
        let run11 = mut_joined(run10, (*self).10);
        let run12 = mut_joined(run11, (*self).11);
        let nth0 = self.nth(h, 0);
        let nth1 = self.nth(h, 1);
        let nth2 = self.nth(h, 2);
        let nth3 = self.nth(h, 3);
        let nth4 = self.nth(h, 4);
        let nth5 = self.nth(h, 5);
        let nth6 = self.nth(h, 6);
        let nth7 = self.nth(h, 7);
        let nth8 = self.nth(h, 8);
        let nth9 = self.nth(h, 9);
        let nth10 = self.nth(h, 10);
        let nth11 = self.nth(h, 11);
    }

    fn arg_count(&self) -> (n: usize) {
        12
    }

    fn into_call_args(self, dst: &mut Vec<Slot>, heap: &mut Heap) -> (r: GResult<()>)
        ensures
            ({
                let run0 = started(old(heap)@);
                let run1 = mut_joined(run0, old(self).0);
                let run2 = mut_joined(run1, old(self).1);
                let run3 = mut_joined(run2, old(self).2);
                let run4 = mut_joined(run3, old(self).3);
                let run5 = mut_joined(run4, old(self).4);
                let run6 = mut_joined(run5, old(self).5);
                let run7 = mut_joined(run6, old(self).6);
                let run8 = mut_joined(run7, old(self).7);
                let run9 = mut_joined(run8, old(self).8);
                let run10 = mut_joined(run9, old(self).9);
                let run11 = mut_joined(run10, old(self).10);
                &&& mut_left(run0, old(self).0, final(self).0)
                &&& mut_left(run1, old(self).1, final(self).1)
                &&& mut_left(run2, old(self).2, final(self).2)
                &&& mut_left(run3, old(self).3, final(self).3)
                &&& mut_left(run4, old(self).4, final(self).4)
                &&& mut_left(run5, old(self).5, final(self).5)
                &&& mut_left(run6, old(self).6, final(self).6)
                &&& mut_left(run7, old(self).7, final(self).7)
                &&& mut_left(run8, old(self).8, final(self).8)
                &&& mut_left(run9, old(self).9, final(self).9)
                &&& mut_left(run10, old(self).10, final(self).10)
                &&& mut_left(run11, old(self).11, final(self).11)
            }),
    {
        assert(dst@ + Seq::<Slot>::empty() =~= dst@);
        let slots: Vec<Slot> = Vec::with_capacity(12);
        let run = mut_join(Ok(slots), &mut self.0, heap);
        let run = mut_join(run, &mut self.1, heap);
        let run = mut_join(run, &mut self.2, heap);
        let run = mut_join(run, &mut self.3, heap);
        let run = mut_join(run, &mut self.4, heap);
        let run = mut_join(run, &mut self.5, heap);
        let run = mut_join(run, &mut self.6, heap);
        let run = mut_join(run, &mut self.7, heap);
        let run = mut_join(run, &mut self.8, heap);
        let run = mut_join(run, &mut self.9, heap);
        let run = mut_join(run, &mut self.10, heap);
        let run = mut_join(run, &mut self.11, heap);
        offer_slots(run, dst)
    }
}

} // verus!
