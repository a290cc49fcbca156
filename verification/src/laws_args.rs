//! What holds of the arguments of a call: what each becomes, and where it stands.

use vstd::prelude::*;

use crate::call_args::{
    law_every_item_has_a_slot, law_every_item_has_a_slot_by_mut, mut_offer_all, mut_offer_left,
    nth_mut_offered, nth_offered, offer_all, IntoCallArgs, Offer,
};
use crate::error::{GError, GResult};
use crate::into_val::{IntoVal, IntoValMut};
use crate::laws_write::{good_before, in_turn, muts_in_turn};
use crate::rest::Rest;
use crate::store::Store;
use crate::value::{Slot, Val};

verus! {

/// The slot that stands for a conversion among the arguments of a call: its own, or `nil` where
/// there is none.
spec fn slot_or_nil(r: GResult<Val>) -> Slot {
    match r {
        Ok(v) => v.slot(),
        Err(_) => Slot::Nil,
    }
}

/// `offer` is what comes of a list of arguments whose conversions, one after another, went through
/// `heaps` and gave `results`: every one of them has a slot in its own place, and the first failure
/// is the outcome.
spec fn offered_in_turn(
    heaps: Seq<Store>,
    results: Seq<GResult<Val>>,
    offer: Offer,
) -> bool {
    &&& offer.heap == heaps[results.len() as int]
    &&& offer.slots.len() == results.len()
    &&& forall|i: int|
        0 <= i < results.len() ==> offer.slots[i] == slot_or_nil(#[trigger] results[i])
    &&& offer.outcome is Ok <==> good_before(results, results.len() as int)
    &&& forall|k: int|
        0 <= k < results.len() && good_before(results, k) && (#[trigger] results[k]) is Err
            ==> offer.outcome == Err::<(), GError>(results[k]->Err_0)
}

/// No arguments are none, and nothing comes of them.
pub proof fn law_no_arguments<'a>(x: &'a mut (), h: Store)
    ensures
        ().count() == 0,
        (&()).count() == 0,
        ().offer(h).heap == h,
        ().offer(h).slots.len() == 0,
        ().offer(h).outcome is Ok,
        (&()).offer(h) == ().offer(h),
        x.count() == 0,
        x.offer(h) == ().offer(h),
{
}

proof fn lemma_heap_so_far<T: IntoVal>(
    items: Seq<T>,
    heaps: Seq<Store>,
    results: Seq<GResult<Val>>,
    k: int,
)
    requires
        in_turn(items, heaps, results),
        0 <= k <= items.len(),
    ensures
        offer_all(heaps[0], items.take(k)).heap == heaps[k],
    decreases k,
{
    if k == 0 {
        assert(items.take(0) =~= seq![]);
    } else {
        lemma_heap_so_far(items, heaps, results, k - 1);
        assert(items.take(k).drop_last() =~= items.take(k - 1));
        assert(items.take(k).last() == items[k - 1]);
        assert(items[k - 1].to_val(heaps[k - 1]) == (heaps[k - 1 + 1], results[k - 1]));
    }
}

proof fn lemma_offered<T: IntoVal>(items: Seq<T>, heaps: Seq<Store>, results: Seq<GResult<Val>>)
    requires
        in_turn(items, heaps, results),
    ensures
        offered_in_turn(heaps, results, offer_all(heaps[0], items)),
{
    let n = items.len() as int;
    let offer = offer_all(heaps[0], items);
    law_every_item_has_a_slot(heaps[0], items);
    lemma_heap_so_far(items, heaps, results, n);
    assert(items.take(n) =~= items);
    assert forall|i: int| 0 <= i < n implies {
        &&& (#[trigger] nth_offered(heaps[0], items, i)).1 is Ok <==> results[i] is Ok
        &&& results[i] matches Ok(v) ==> nth_offered(
            heaps[0],
            items,
            i,
        ).1 == Ok::<Slot, GError>(v.slot())
        &&& results[i] matches Err(e) ==> nth_offered(
            heaps[0],
            items,
            i,
        ).1 == Err::<Slot, GError>(e)
    } by {
        lemma_heap_so_far(items, heaps, results, i);
        assert(items[i].to_val(heaps[i]) == (heaps[i + 1], results[i]));
    }
    assert forall|i: int| 0 <= i < results.len() implies offer.slots[i] == slot_or_nil(
        #[trigger] results[i],
    ) by {
        let own = nth_offered(heaps[0], items, i);
    }
    if offer.outcome is Ok {
        assert forall|i: int| 0 <= i < n implies (#[trigger] results[i]) is Ok by {
            let own = nth_offered(heaps[0], items, i);
        }
    }
    assert forall|k: int|
        0 <= k < results.len() && good_before(results, k)
            && (#[trigger] results[k]) is Err implies offer.outcome
        == Err::<(), GError>(results[k]->Err_0) by {
        let own = nth_offered(heaps[0], items, k);
        assert forall|i: int| 0 <= i < k implies (#[trigger] nth_offered(
            heaps[0],
            items,
            i,
        )).1 is Ok by {
            assert(results[i] is Ok);
        }
    }
}

proof fn lemma_mut_heap_so_far<T: IntoValMut>(
    items: Seq<T>,
    heaps: Seq<Store>,
    results: Seq<GResult<Val>>,
    k: int,
)
    requires
        muts_in_turn(items, heaps, results),
        0 <= k <= items.len(),
    ensures
        mut_offer_all(heaps[0], items.take(k)).heap == heaps[k],
    decreases k,
{
    if k == 0 {
        assert(items.take(0) =~= seq![]);
    } else {
        lemma_mut_heap_so_far(items, heaps, results, k - 1);
        assert(items.take(k).drop_last() =~= items.take(k - 1));
        assert(items.take(k).last() == items[k - 1]);
        assert(items[k - 1].mut_to_val(heaps[k - 1]) == (heaps[k - 1 + 1], results[k - 1]));
    }
}

proof fn lemma_mut_offered<T: IntoValMut>(
    items: Seq<T>,
    heaps: Seq<Store>,
    results: Seq<GResult<Val>>,
)
    requires
        muts_in_turn(items, heaps, results),
    ensures
        offered_in_turn(heaps, results, mut_offer_all(heaps[0], items)),
{
    let n = items.len() as int;
    let offer = mut_offer_all(heaps[0], items);
    law_every_item_has_a_slot_by_mut(heaps[0], items);
    lemma_mut_heap_so_far(items, heaps, results, n);
    assert(items.take(n) =~= items);
    assert forall|i: int| 0 <= i < n implies {
        &&& (#[trigger] nth_mut_offered(heaps[0], items, i)).1 is Ok <==> results[i] is Ok
        &&& results[i] matches Ok(v) ==> nth_mut_offered(
            heaps[0],
            items,
            i,
        ).1 == Ok::<Slot, GError>(v.slot())
        &&& results[i] matches Err(e) ==> nth_mut_offered(
            heaps[0],
            items,
            i,
        ).1 == Err::<Slot, GError>(e)
    } by {
        lemma_mut_heap_so_far(items, heaps, results, i);
        assert(items[i].mut_to_val(heaps[i]) == (heaps[i + 1], results[i]));
    }
    assert forall|i: int| 0 <= i < results.len() implies offer.slots[i] == slot_or_nil(
        #[trigger] results[i],
    ) by {
        let own = nth_mut_offered(heaps[0], items, i);
    }
    if offer.outcome is Ok {
        assert forall|i: int| 0 <= i < n implies (#[trigger] results[i]) is Ok by {
            let own = nth_mut_offered(heaps[0], items, i);
        }
    }
    assert forall|k: int|
        0 <= k < results.len() && good_before(results, k)
            && (#[trigger] results[k]) is Err implies offer.outcome
        == Err::<(), GError>(results[k]->Err_0) by {
        let own = nth_mut_offered(heaps[0], items, k);
        assert forall|i: int| 0 <= i < k implies (#[trigger] nth_mut_offered(
            heaps[0],
            items,
            i,
        )).1 is Ok by {
            assert(results[i] is Ok);
        }
    }
}

/// What is left of arguments that were converted by mutable reference is what the conversion of
/// each leaves.
pub proof fn law_arguments_left<T: IntoValMut>(
    items: Seq<T>,
    heaps: Seq<Store>,
    results: Seq<GResult<Val>>,
    after: Seq<T>,
)
    requires
        heaps.len() == items.len() + 1,
        results.len() == items.len(),
        forall|i: int|
            0 <= i < items.len() ==> (#[trigger] items[i]).mut_to_val(heaps[i]) == (
                heaps[i + 1],
                results[i],
            ),
        mut_offer_left(heaps[0], items, after),
    ensures
        after.len() == items.len(),
        forall|i: int| 0 <= i < items.len() ==> items[i].leaves(heaps[i], #[trigger] after[i]),
{
    assert(muts_in_turn(items, heaps, results));
    assert forall|i: int| 0 <= i < items.len() implies items[i].leaves(
        heaps[i],
        #[trigger] after[i],
    ) by {
        lemma_mut_heap_so_far(items, heaps, results, i);
    }
}

/// A slice is as many arguments as it has items: each is converted in its turn, by shared
/// reference, and has its own slot in its own place, or `nil` where it cannot be converted. All
/// goes well exactly where every one can be, and else the first that cannot is the reason.
pub proof fn law_arguments_of_slice<'a, T>(
    x: &'a [T],
    heaps: Seq<Store>,
    results: Seq<GResult<Val>>,
    k: int,
) where &'a T: IntoVal
    requires
        heaps.len() == x@.len() + 1,
        results.len() == x@.len(),
        forall|i: int|
            0 <= i < x@.len() ==> (&(#[trigger] x@[i])).to_val(heaps[i]) == (
                heaps[i + 1],
                results[i],
            ),
    ensures
        x.count() == results.len(),
        x.offer(heaps[0]).heap == heaps[results.len() as int],
        x.offer(heaps[0]).slots.len() == results.len(),
        0 <= k < results.len() && results[k] is Ok ==> x.offer(heaps[0]).slots[k]
            == results[k]->Ok_0.slot(),
        0 <= k < results.len() && results[k] is Err ==> x.offer(heaps[0]).slots[k] is Nil,
        x.offer(heaps[0]).outcome is Ok <==> forall|i: int|
            0 <= i < results.len() ==> (#[trigger] results[i]) is Ok,
        0 <= k < results.len() && results[k] is Err && (forall|i: int|
            0 <= i < k ==> (#[trigger] results[i]) is Ok) ==> x.offer(heaps[0]).outcome
                == Err::<(), GError>(results[k]->Err_0),
{
    assert forall|i: int| 0 <= i < x@.len()
        implies (#[trigger] x@.as_ref()[i]).to_val(heaps[i]) == (
        heaps[i + 1],
        results[i],
    ) by {
        assert(x@.as_ref()[i] == &x@[i]);
    }
    assert(in_turn::<&T>(x@.as_ref(), heaps, results));
    lemma_offered::<&T>(x@.as_ref(), heaps, results);
}

/// A mutable slice is as many arguments as it has items: each is converted in its turn, by mutable
/// reference, and has its own slot in its own place, or `nil` where it cannot be converted. All
/// goes well exactly where every one can be, and else the first that cannot is the reason.
pub proof fn law_arguments_of_slice_mut<'a, T: IntoValMut>(
    x: &'a mut [T],
    heaps: Seq<Store>,
    results: Seq<GResult<Val>>,
    k: int,
)
    requires
        heaps.len() == (*x)@.len() + 1,
        results.len() == (*x)@.len(),
        forall|i: int|
            0 <= i < (*x)@.len() ==> (#[trigger] (*x)@[i]).mut_to_val(heaps[i]) == (
                heaps[i + 1],
                results[i],
            ),
    ensures
        x.count() == results.len(),
        x.offer(heaps[0]).heap == heaps[results.len() as int],
        x.offer(heaps[0]).slots.len() == results.len(),
        0 <= k < results.len() && results[k] is Ok ==> x.offer(heaps[0]).slots[k]
            == results[k]->Ok_0.slot(),
        0 <= k < results.len() && results[k] is Err ==> x.offer(heaps[0]).slots[k] is Nil,
        x.offer(heaps[0]).outcome is Ok <==> forall|i: int|
            0 <= i < results.len() ==> (#[trigger] results[i]) is Ok,
        0 <= k < results.len() && results[k] is Err && (forall|i: int|
            0 <= i < k ==> (#[trigger] results[i]) is Ok) ==> x.offer(heaps[0]).outcome
                == Err::<(), GError>(results[k]->Err_0),
{
    assert(muts_in_turn((*x)@, heaps, results));
    lemma_mut_offered((*x)@, heaps, results);
}

/// A host array is as many arguments as it has items: each is converted in its turn, by shared
/// reference, and has its own slot in its own place, or `nil` where it cannot be converted. All
/// goes well exactly where every one can be, and else the first that cannot is the reason.
pub proof fn law_arguments_of_array<T, const N: usize>(
    x: [T; N],
    heaps: Seq<Store>,
    results: Seq<GResult<Val>>,
    k: int,
) where for <'b>&'b T: IntoVal
    requires
        heaps.len() == x@.len() + 1,
        results.len() == x@.len(),
        forall|i: int|
            0 <= i < x@.len() ==> (&(#[trigger] x@[i])).to_val(heaps[i]) == (
                heaps[i + 1],
                results[i],
            ),
    ensures
        x.count() == results.len(),
        x.offer(heaps[0]).heap == heaps[results.len() as int],
        x.offer(heaps[0]).slots.len() == results.len(),
        0 <= k < results.len() && results[k] is Ok ==> x.offer(heaps[0]).slots[k]
            == results[k]->Ok_0.slot(),
        0 <= k < results.len() && results[k] is Err ==> x.offer(heaps[0]).slots[k] is Nil,
        x.offer(heaps[0]).outcome is Ok <==> forall|i: int|
            0 <= i < results.len() ==> (#[trigger] results[i]) is Ok,
        0 <= k < results.len() && results[k] is Err && (forall|i: int|
            0 <= i < k ==> (#[trigger] results[i]) is Ok) ==> x.offer(heaps[0]).outcome
                == Err::<(), GError>(results[k]->Err_0),
{
    assert forall|i: int| 0 <= i < x@.len()
        implies (#[trigger] x@.as_ref()[i]).to_val(heaps[i]) == (
        heaps[i + 1],
        results[i],
    ) by {
        assert(x@.as_ref()[i] == &x@[i]);
    }
    assert(in_turn::<&T>(x@.as_ref(), heaps, results));
    lemma_offered::<&T>(x@.as_ref(), heaps, results);
}

/// A reference to a host array is as many arguments as it has items: each is converted in its turn,
/// by shared reference, and has its own slot in its own place, or `nil` where it cannot be
/// converted. All goes well exactly where every one can be, and else the first that cannot is the
/// reason.
pub proof fn law_arguments_of_array_ref<'a, T, const N: usize>(
    x: &'a [T; N],
    heaps: Seq<Store>,
    results: Seq<GResult<Val>>,
    k: int,
) where &'a T: IntoVal
    requires
        heaps.len() == x@.len() + 1,
        results.len() == x@.len(),
        forall|i: int|
            0 <= i < x@.len() ==> (&(#[trigger] x@[i])).to_val(heaps[i]) == (
                heaps[i + 1],
                results[i],
            ),
    ensures
        x.count() == results.len(),
        x.offer(heaps[0]).heap == heaps[results.len() as int],
        x.offer(heaps[0]).slots.len() == results.len(),
        0 <= k < results.len() && results[k] is Ok ==> x.offer(heaps[0]).slots[k]
            == results[k]->Ok_0.slot(),
        0 <= k < results.len() && results[k] is Err ==> x.offer(heaps[0]).slots[k] is Nil,
        x.offer(heaps[0]).outcome is Ok <==> forall|i: int|
            0 <= i < results.len() ==> (#[trigger] results[i]) is Ok,
        0 <= k < results.len() && results[k] is Err && (forall|i: int|
            0 <= i < k ==> (#[trigger] results[i]) is Ok) ==> x.offer(heaps[0]).outcome
                == Err::<(), GError>(results[k]->Err_0),
{
    assert forall|i: int| 0 <= i < x@.len()
        implies (#[trigger] x@.as_ref()[i]).to_val(heaps[i]) == (
        heaps[i + 1],
        results[i],
    ) by {
        assert(x@.as_ref()[i] == &x@[i]);
    }
    assert(in_turn::<&T>(x@.as_ref(), heaps, results));
    lemma_offered::<&T>(x@.as_ref(), heaps, results);
}

/// A mutable reference to a host array is as many arguments as it has items: each is converted in
/// its turn, by mutable reference, and has its own slot in its own place, or `nil` where it cannot
/// be converted. All goes well exactly where every one can be, and else the first that cannot is
/// the reason.
pub proof fn law_arguments_of_array_mut<'a, T: IntoValMut, const N: usize>(
    x: &'a mut [T; N],
    heaps: Seq<Store>,
    results: Seq<GResult<Val>>,
    k: int,
)
    requires
        heaps.len() == (*x)@.len() + 1,
        results.len() == (*x)@.len(),
        forall|i: int|
            0 <= i < (*x)@.len() ==> (#[trigger] (*x)@[i]).mut_to_val(heaps[i]) == (
                heaps[i + 1],
                results[i],
            ),
    ensures
        x.count() == results.len(),
        x.offer(heaps[0]).heap == heaps[results.len() as int],
        x.offer(heaps[0]).slots.len() == results.len(),
        0 <= k < results.len() && results[k] is Ok ==> x.offer(heaps[0]).slots[k]
            == results[k]->Ok_0.slot(),
        0 <= k < results.len() && results[k] is Err ==> x.offer(heaps[0]).slots[k] is Nil,
        x.offer(heaps[0]).outcome is Ok <==> forall|i: int|
            0 <= i < results.len() ==> (#[trigger] results[i]) is Ok,
        0 <= k < results.len() && results[k] is Err && (forall|i: int|
            0 <= i < k ==> (#[trigger] results[i]) is Ok) ==> x.offer(heaps[0]).outcome
                == Err::<(), GError>(results[k]->Err_0),
{
    assert(muts_in_turn((*x)@, heaps, results));
    lemma_mut_offered((*x)@, heaps, results);
}

/// A `Rest` is as many arguments as it has items: each is converted in its turn, and has its own
/// slot in its own place, or `nil` where it cannot be converted. All goes well exactly where every
/// one can be, and else the first that cannot is the reason.
pub proof fn law_arguments_of_rest<'a, T: IntoVal>(
    x: Rest<'a, T>,
    heaps: Seq<Store>,
    results: Seq<GResult<Val>>,
    k: int,
)
    requires
        heaps.len() == x.items().len() + 1,
        results.len() == x.items().len(),
        forall|i: int|
            0 <= i < x.items().len() ==> (#[trigger] x.items()[i]).to_val(heaps[i]) == (
                heaps[i + 1],
                results[i],
            ),
    ensures
        x.count() == results.len(),
        x.offer(heaps[0]).heap == heaps[results.len() as int],
        x.offer(heaps[0]).slots.len() == results.len(),
        0 <= k < results.len() && results[k] is Ok ==> x.offer(heaps[0]).slots[k]
            == results[k]->Ok_0.slot(),
        0 <= k < results.len() && results[k] is Err ==> x.offer(heaps[0]).slots[k] is Nil,
        x.offer(heaps[0]).outcome is Ok <==> forall|i: int|
            0 <= i < results.len() ==> (#[trigger] results[i]) is Ok,
        0 <= k < results.len() && results[k] is Err && (forall|i: int|
            0 <= i < k ==> (#[trigger] results[i]) is Ok) ==> x.offer(heaps[0]).outcome
                == Err::<(), GError>(results[k]->Err_0),
{
    assert(in_turn(x.items(), heaps, results));
    lemma_offered(x.items(), heaps, results);
}

/// A reference to a `Rest` is as many arguments as it has items: each is converted in its turn, by
/// shared reference, and has its own slot in its own place, or `nil` where it cannot be converted.
/// All goes well exactly where every one can be, and else the first that cannot is the reason.
pub proof fn law_arguments_of_rest_ref<'r, 'a, T>(
    x: &'r Rest<'a, T>,
    heaps: Seq<Store>,
    results: Seq<GResult<Val>>,
    k: int,
) where &'r T: IntoVal
    requires
        heaps.len() == x.items().len() + 1,
        results.len() == x.items().len(),
        forall|i: int|
            0 <= i < x.items().len() ==> (&(#[trigger] x.items()[i])).to_val(heaps[i]) == (
                heaps[i + 1],
                results[i],
            ),
    ensures
        x.count() == results.len(),
        x.offer(heaps[0]).heap == heaps[results.len() as int],
        x.offer(heaps[0]).slots.len() == results.len(),
        0 <= k < results.len() && results[k] is Ok ==> x.offer(heaps[0]).slots[k]
            == results[k]->Ok_0.slot(),
        0 <= k < results.len() && results[k] is Err ==> x.offer(heaps[0]).slots[k] is Nil,
        x.offer(heaps[0]).outcome is Ok <==> forall|i: int|
            0 <= i < results.len() ==> (#[trigger] results[i]) is Ok,
        0 <= k < results.len() && results[k] is Err && (forall|i: int|
            0 <= i < k ==> (#[trigger] results[i]) is Ok) ==> x.offer(heaps[0]).outcome
                == Err::<(), GError>(results[k]->Err_0),
{
    assert forall|i: int| 0 <= i < x.items().len()
        implies (#[trigger] x.items().as_ref()[i]).to_val(heaps[i]) == (
        heaps[i + 1],
        results[i],
    ) by {
        assert(x.items().as_ref()[i] == &x.items()[i]);
    }
    assert(in_turn::<&T>(x.items().as_ref(), heaps, results));
    lemma_offered::<&T>(x.items().as_ref(), heaps, results);
}

/// A mutable reference to a `Rest` is as many arguments as it has items: each is converted in its
/// turn, by mutable reference, and has its own slot in its own place, or `nil` where it cannot be
/// converted. All goes well exactly where every one can be, and else the first that cannot is the
/// reason.
pub proof fn law_arguments_of_rest_mut<'r, 'a, T: IntoValMut>(
    x: &'r mut Rest<'a, T>,
    heaps: Seq<Store>,
    results: Seq<GResult<Val>>,
    k: int,
)
    requires
        heaps.len() == (*x).items().len() + 1,
        results.len() == (*x).items().len(),
        forall|i: int|
            0 <= i < (*x).items().len() ==> (#[trigger] (*x).items()[i]).mut_to_val(heaps[i]) == (
                heaps[i + 1],
                results[i],
            ),
    ensures
        x.count() == results.len(),
        x.offer(heaps[0]).heap == heaps[results.len() as int],
        x.offer(heaps[0]).slots.len() == results.len(),
        0 <= k < results.len() && results[k] is Ok ==> x.offer(heaps[0]).slots[k]
            == results[k]->Ok_0.slot(),
        0 <= k < results.len() && results[k] is Err ==> x.offer(heaps[0]).slots[k] is Nil,
        x.offer(heaps[0]).outcome is Ok <==> forall|i: int|
            0 <= i < results.len() ==> (#[trigger] results[i]) is Ok,
        0 <= k < results.len() && results[k] is Err && (forall|i: int|
            0 <= i < k ==> (#[trigger] results[i]) is Ok) ==> x.offer(heaps[0]).outcome
                == Err::<(), GError>(results[k]->Err_0),
{
    assert(muts_in_turn((*x).items(), heaps, results));
    lemma_mut_offered((*x).items(), heaps, results);
}

/// A tuple of 1 is 1 argument: its fields are converted in their order, and the slots are those of
/// the fields, each in the place of its own. Where one fails, the first such is the reason, and
/// there are no slots at all.
pub proof fn law_arguments_of_tuple_1<A: IntoVal>(t: (A,), h: Store)
    ensures
        t.count() == 1,
        ({
            let (h1, r0) = t.0.to_val(h);
            &&& r0 is Err ==> {
                &&& t.offer(h).heap == h1
                &&& t.offer(h).slots.len() == 0
                &&& t.offer(h).outcome == Err::<(), GError>(r0->Err_0)
            }
            &&& r0 is Ok ==> {
                &&& t.offer(h).heap == h1
                &&& t.offer(h).slots == seq![r0->Ok_0.slot()]
                &&& t.offer(h).outcome is Ok
            }
            &&& r0 is Ok ==> t.nth(h, 0) == (h1, Ok::<Slot, GError>(r0->Ok_0.slot()))
            &&& r0 is Err ==> t.nth(h, 0) == (h1, Err::<Slot, GError>(r0->Err_0))
        }),
{
}

/// The same by shared reference.
pub proof fn law_arguments_of_tuple_1_ref<'a, A>(t: &'a (A,), h: Store) where &'a A: IntoVal,
    ensures
        t.count() == 1,
        ({
            let (h1, r0) = (&t.0).to_val(h);
            &&& r0 is Err ==> {
                &&& t.offer(h).heap == h1
                &&& t.offer(h).slots.len() == 0
                &&& t.offer(h).outcome == Err::<(), GError>(r0->Err_0)
            }
            &&& r0 is Ok ==> {
                &&& t.offer(h).heap == h1
                &&& t.offer(h).slots == seq![r0->Ok_0.slot()]
                &&& t.offer(h).outcome is Ok
            }
            &&& r0 is Ok ==> t.nth(h, 0) == (h1, Ok::<Slot, GError>(r0->Ok_0.slot()))
            &&& r0 is Err ==> t.nth(h, 0) == (h1, Err::<Slot, GError>(r0->Err_0))
        }),
{
}

/// The same by mutable reference.
pub proof fn law_arguments_of_tuple_1_mut<'a, A: IntoValMut>(t: &'a mut (A,), h: Store)
    ensures
        t.count() == 1,
        ({
            let (h1, r0) = old(t).0.mut_to_val(h);
            &&& r0 is Err ==> {
                &&& t.offer(h).heap == h1
                &&& t.offer(h).slots.len() == 0
                &&& t.offer(h).outcome == Err::<(), GError>(r0->Err_0)
            }
            &&& r0 is Ok ==> {
                &&& t.offer(h).heap == h1
                &&& t.offer(h).slots == seq![r0->Ok_0.slot()]
                &&& t.offer(h).outcome is Ok
            }
            &&& r0 is Ok ==> t.nth(h, 0) == (h1, Ok::<Slot, GError>(r0->Ok_0.slot()))
            &&& r0 is Err ==> t.nth(h, 0) == (h1, Err::<Slot, GError>(r0->Err_0))
        }),
{
}

/// A tuple of 2 is 2 arguments: its fields are converted in their order, and the slots are those of
/// the fields, each in the place of its own. Where one fails, the first such is the reason, and
/// there are no slots at all.
pub proof fn law_arguments_of_tuple_2<A: IntoVal, B: IntoVal>(t: (A, B), h: Store)
    ensures
        t.count() == 2,
        ({
            let (h1, r0) = t.0.to_val(h);
            let (h2, r1) = t.1.to_val(h1);
            &&& r0 is Err ==> {
                &&& t.offer(h).heap == h1
                &&& t.offer(h).slots.len() == 0
                &&& t.offer(h).outcome == Err::<(), GError>(r0->Err_0)
            }
            &&& r0 is Ok && r1 is Err ==> {
                &&& t.offer(h).heap == h2
                &&& t.offer(h).slots.len() == 0
                &&& t.offer(h).outcome == Err::<(), GError>(r1->Err_0)
            }
            &&& r0 is Ok && r1 is Ok ==> {
                &&& t.offer(h).heap == h2
                &&& t.offer(h).slots == seq![r0->Ok_0.slot(), r1->Ok_0.slot()]
                &&& t.offer(h).outcome is Ok
            }
            &&& r0 is Ok ==> t.nth(h, 0) == (h1, Ok::<Slot, GError>(r0->Ok_0.slot()))
            &&& r0 is Err ==> t.nth(h, 0) == (h1, Err::<Slot, GError>(r0->Err_0))
            &&& r0 is Ok && r1 is Ok ==> t.nth(h, 1) == (h2, Ok::<Slot, GError>(r1->Ok_0.slot()))
            &&& r0 is Ok && r1 is Err ==> t.nth(h, 1) == (h2, Err::<Slot, GError>(r1->Err_0))
        }),
{
}

/// The same by shared reference.
pub proof fn law_arguments_of_tuple_2_ref<'a, A, B>(
    t: &'a (A, B),
    h: Store,
) where &'a A: IntoVal, &'a B: IntoVal,
    ensures
        t.count() == 2,
        ({
            let (h1, r0) = (&t.0).to_val(h);
            let (h2, r1) = (&t.1).to_val(h1);
            &&& r0 is Err ==> {
                &&& t.offer(h).heap == h1
                &&& t.offer(h).slots.len() == 0
                &&& t.offer(h).outcome == Err::<(), GError>(r0->Err_0)
            }
            &&& r0 is Ok && r1 is Err ==> {
                &&& t.offer(h).heap == h2
                &&& t.offer(h).slots.len() == 0
                &&& t.offer(h).outcome == Err::<(), GError>(r1->Err_0)
            }
            &&& r0 is Ok && r1 is Ok ==> {
                &&& t.offer(h).heap == h2
                &&& t.offer(h).slots == seq![r0->Ok_0.slot(), r1->Ok_0.slot()]
                &&& t.offer(h).outcome is Ok
            }
            &&& r0 is Ok ==> t.nth(h, 0) == (h1, Ok::<Slot, GError>(r0->Ok_0.slot()))
            &&& r0 is Err ==> t.nth(h, 0) == (h1, Err::<Slot, GError>(r0->Err_0))
            &&& r0 is Ok && r1 is Ok ==> t.nth(h, 1) == (h2, Ok::<Slot, GError>(r1->Ok_0.slot()))
            &&& r0 is Ok && r1 is Err ==> t.nth(h, 1) == (h2, Err::<Slot, GError>(r1->Err_0))
        }),
{
}

/// The same by mutable reference.
pub proof fn law_arguments_of_tuple_2_mut<
    'a,
    A: IntoValMut,
    B: IntoValMut,
>(t: &'a mut (A, B), h: Store)
    ensures
        t.count() == 2,
        ({
            let (h1, r0) = old(t).0.mut_to_val(h);
            let (h2, r1) = old(t).1.mut_to_val(h1);
            &&& r0 is Err ==> {
                &&& t.offer(h).heap == h1
                &&& t.offer(h).slots.len() == 0
                &&& t.offer(h).outcome == Err::<(), GError>(r0->Err_0)
            }
            &&& r0 is Ok && r1 is Err ==> {
                &&& t.offer(h).heap == h2
                &&& t.offer(h).slots.len() == 0
                &&& t.offer(h).outcome == Err::<(), GError>(r1->Err_0)
            }
            &&& r0 is Ok && r1 is Ok ==> {
                &&& t.offer(h).heap == h2
                &&& t.offer(h).slots == seq![r0->Ok_0.slot(), r1->Ok_0.slot()]
                &&& t.offer(h).outcome is Ok
            }
            &&& r0 is Ok ==> t.nth(h, 0) == (h1, Ok::<Slot, GError>(r0->Ok_0.slot()))
            &&& r0 is Err ==> t.nth(h, 0) == (h1, Err::<Slot, GError>(r0->Err_0))
            &&& r0 is Ok && r1 is Ok ==> t.nth(h, 1) == (h2, Ok::<Slot, GError>(r1->Ok_0.slot()))
            &&& r0 is Ok && r1 is Err ==> t.nth(h, 1) == (h2, Err::<Slot, GError>(r1->Err_0))
        }),
{
}

/// A tuple of 3 is 3 arguments: its fields are converted in their order, and the slots are those of
/// the fields, each in the place of its own. Where one fails, the first such is the reason, and
/// there are no slots at all.
pub proof fn law_arguments_of_tuple_3<A: IntoVal, B: IntoVal, C: IntoVal>(t: (A, B, C), h: Store)
    ensures
        t.count() == 3,
        ({
            let (h1, r0) = t.0.to_val(h);
            let (h2, r1) = t.1.to_val(h1);
            let (h3, r2) = t.2.to_val(h2);
            &&& r0 is Err ==> {
                &&& t.offer(h).heap == h1
                &&& t.offer(h).slots.len() == 0
                &&& t.offer(h).outcome == Err::<(), GError>(r0->Err_0)
            }
            &&& r0 is Ok && r1 is Err ==> {
                &&& t.offer(h).heap == h2
                &&& t.offer(h).slots.len() == 0
                &&& t.offer(h).outcome == Err::<(), GError>(r1->Err_0)
            }
            &&& r0 is Ok && r1 is Ok && r2 is Err ==> {
                &&& t.offer(h).heap == h3
                &&& t.offer(h).slots.len() == 0
                &&& t.offer(h).outcome == Err::<(), GError>(r2->Err_0)
            }
            &&& r0 is Ok && r1 is Ok && r2 is Ok ==> {
                &&& t.offer(h).heap == h3
                &&& t.offer(h).slots == seq![r0->Ok_0.slot(), r1->Ok_0.slot(), r2->Ok_0.slot()]
                &&& t.offer(h).outcome is Ok
            }
            &&& r0 is Ok ==> t.nth(h, 0) == (h1, Ok::<Slot, GError>(r0->Ok_0.slot()))
            &&& r0 is Err ==> t.nth(h, 0) == (h1, Err::<Slot, GError>(r0->Err_0))
            &&& r0 is Ok && r1 is Ok ==> t.nth(h, 1) == (h2, Ok::<Slot, GError>(r1->Ok_0.slot()))
            &&& r0 is Ok && r1 is Err ==> t.nth(h, 1) == (h2, Err::<Slot, GError>(r1->Err_0))
            &&& r0 is Ok && r1 is Ok && r2 is Ok ==> t.nth(h, 2) == (
                h3,
                Ok::<Slot, GError>(r2->Ok_0.slot()),
            )
            &&& r0 is Ok && r1 is Ok && r2 is Err ==> t.nth(h, 2) == (
                h3,
                Err::<Slot, GError>(r2->Err_0),
            )
        }),
{
}

/// The same by shared reference.
pub proof fn law_arguments_of_tuple_3_ref<'a, A, B, C>(
    t: &'a (A, B, C),
    h: Store,
) where &'a A: IntoVal, &'a B: IntoVal, &'a C: IntoVal,
    ensures
        t.count() == 3,
        ({
            let (h1, r0) = (&t.0).to_val(h);
            let (h2, r1) = (&t.1).to_val(h1);
            let (h3, r2) = (&t.2).to_val(h2);
            &&& r0 is Err ==> {
                &&& t.offer(h).heap == h1
                &&& t.offer(h).slots.len() == 0
                &&& t.offer(h).outcome == Err::<(), GError>(r0->Err_0)
            }
            &&& r0 is Ok && r1 is Err ==> {
                &&& t.offer(h).heap == h2
                &&& t.offer(h).slots.len() == 0
                &&& t.offer(h).outcome == Err::<(), GError>(r1->Err_0)
            }
            &&& r0 is Ok && r1 is Ok && r2 is Err ==> {
                &&& t.offer(h).heap == h3
                &&& t.offer(h).slots.len() == 0
                &&& t.offer(h).outcome == Err::<(), GError>(r2->Err_0)
            }
            &&& r0 is Ok && r1 is Ok && r2 is Ok ==> {
                &&& t.offer(h).heap == h3
                &&& t.offer(h).slots == seq![r0->Ok_0.slot(), r1->Ok_0.slot(), r2->Ok_0.slot()]
                &&& t.offer(h).outcome is Ok
            }
            &&& r0 is Ok ==> t.nth(h, 0) == (h1, Ok::<Slot, GError>(r0->Ok_0.slot()))
            &&& r0 is Err ==> t.nth(h, 0) == (h1, Err::<Slot, GError>(r0->Err_0))
            &&& r0 is Ok && r1 is Ok ==> t.nth(h, 1) == (h2, Ok::<Slot, GError>(r1->Ok_0.slot()))
            &&& r0 is Ok && r1 is Err ==> t.nth(h, 1) == (h2, Err::<Slot, GError>(r1->Err_0))
            &&& r0 is Ok && r1 is Ok && r2 is Ok ==> t.nth(h, 2) == (
                h3,
                Ok::<Slot, GError>(r2->Ok_0.slot()),
            )
            &&& r0 is Ok && r1 is Ok && r2 is Err ==> t.nth(h, 2) == (
                h3,
                Err::<Slot, GError>(r2->Err_0),
            )
        }),
{
}

/// The same by mutable reference.
pub proof fn law_arguments_of_tuple_3_mut<
    'a,
    A: IntoValMut,
    B: IntoValMut,
    C: IntoValMut,
>(t: &'a mut (A, B, C), h: Store)
    ensures
        t.count() == 3,
        ({
            let (h1, r0) = old(t).0.mut_to_val(h);
            let (h2, r1) = old(t).1.mut_to_val(h1);
            let (h3, r2) = old(t).2.mut_to_val(h2);
            &&& r0 is Err ==> {
                &&& t.offer(h).heap == h1
                &&& t.offer(h).slots.len() == 0
                &&& t.offer(h).outcome == Err::<(), GError>(r0->Err_0)
            }
            &&& r0 is Ok && r1 is Err ==> {
                &&& t.offer(h).heap == h2
                &&& t.offer(h).slots.len() == 0
                &&& t.offer(h).outcome == Err::<(), GError>(r1->Err_0)
            }
            &&& r0 is Ok && r1 is Ok && r2 is Err ==> {
                &&& t.offer(h).heap == h3
                &&& t.offer(h).slots.len() == 0
                &&& t.offer(h).outcome == Err::<(), GError>(r2->Err_0)
            }
            &&& r0 is Ok && r1 is Ok && r2 is Ok ==> {
                &&& t.offer(h).heap == h3
                &&& t.offer(h).slots == seq![r0->Ok_0.slot(), r1->Ok_0.slot(), r2->Ok_0.slot()]
                &&& t.offer(h).outcome is Ok
            }
            &&& r0 is Ok ==> t.nth(h, 0) == (h1, Ok::<Slot, GError>(r0->Ok_0.slot()))
            &&& r0 is Err ==> t.nth(h, 0) == (h1, Err::<Slot, GError>(r0->Err_0))
            &&& r0 is Ok && r1 is Ok ==> t.nth(h, 1) == (h2, Ok::<Slot, GError>(r1->Ok_0.slot()))
            &&& r0 is Ok && r1 is Err ==> t.nth(h, 1) == (h2, Err::<Slot, GError>(r1->Err_0))
            &&& r0 is Ok && r1 is Ok && r2 is Ok ==> t.nth(h, 2) == (
                h3,
                Ok::<Slot, GError>(r2->Ok_0.slot()),
            )
            &&& r0 is Ok && r1 is Ok && r2 is Err ==> t.nth(h, 2) == (
                h3,
                Err::<Slot, GError>(r2->Err_0),
            )
        }),
{
}

/// A tuple of 4 is 4 arguments: its fields are converted in their order, and the slots are those of
/// the fields, each in the place of its own. Where one fails, the first such is the reason, and
/// there are no slots at all.
pub proof fn law_arguments_of_tuple_4<
    A: IntoVal,
    B: IntoVal,
    C: IntoVal,
    D: IntoVal,
>(t: (A, B, C, D), h: Store)
    ensures
        t.count() == 4,
        ({
            let (h1, r0) = t.0.to_val(h);
            let (h2, r1) = t.1.to_val(h1);
            let (h3, r2) = t.2.to_val(h2);
            let (h4, r3) = t.3.to_val(h3);
            &&& r0 is Err ==> {
                &&& t.offer(h).heap == h1
                &&& t.offer(h).slots.len() == 0
                &&& t.offer(h).outcome == Err::<(), GError>(r0->Err_0)
            }
            &&& r0 is Ok && r1 is Err ==> {
                &&& t.offer(h).heap == h2
                &&& t.offer(h).slots.len() == 0
                &&& t.offer(h).outcome == Err::<(), GError>(r1->Err_0)
            }
            &&& r0 is Ok && r1 is Ok && r2 is Err ==> {
                &&& t.offer(h).heap == h3
                &&& t.offer(h).slots.len() == 0
                &&& t.offer(h).outcome == Err::<(), GError>(r2->Err_0)
            }
            &&& r0 is Ok && r1 is Ok && r2 is Ok && r3 is Err ==> {
                &&& t.offer(h).heap == h4
                &&& t.offer(h).slots.len() == 0
                &&& t.offer(h).outcome == Err::<(), GError>(r3->Err_0)
            }
            &&& r0 is Ok && r1 is Ok && r2 is Ok && r3 is Ok ==> {
                &&& t.offer(h).heap == h4
                &&& t.offer(h).slots == seq![
                    r0->Ok_0.slot(),
                    r1->Ok_0.slot(),
                    r2->Ok_0.slot(),
                    r3->Ok_0.slot(),
                ]
                &&& t.offer(h).outcome is Ok
            }
            &&& r0 is Ok ==> t.nth(h, 0) == (h1, Ok::<Slot, GError>(r0->Ok_0.slot()))
            &&& r0 is Err ==> t.nth(h, 0) == (h1, Err::<Slot, GError>(r0->Err_0))
            &&& r0 is Ok && r1 is Ok ==> t.nth(h, 1) == (h2, Ok::<Slot, GError>(r1->Ok_0.slot()))
            &&& r0 is Ok && r1 is Err ==> t.nth(h, 1) == (h2, Err::<Slot, GError>(r1->Err_0))
            &&& r0 is Ok && r1 is Ok && r2 is Ok ==> t.nth(h, 2) == (
                h3,
                Ok::<Slot, GError>(r2->Ok_0.slot()),
            )
            &&& r0 is Ok && r1 is Ok && r2 is Err ==> t.nth(h, 2) == (
                h3,
                Err::<Slot, GError>(r2->Err_0),
            )
            &&& r0 is Ok && r1 is Ok && r2 is Ok && r3 is Ok ==> t.nth(h, 3) == (
                h4,
                Ok::<Slot, GError>(r3->Ok_0.slot()),
            )
            &&& r0 is Ok && r1 is Ok && r2 is Ok && r3 is Err ==> t.nth(h, 3) == (
                h4,
                Err::<Slot, GError>(r3->Err_0),
            )
        }),
{
}

/// The same by shared reference.
pub proof fn law_arguments_of_tuple_4_ref<'a, A, B, C, D>(
    t: &'a (A, B, C, D),
    h: Store,
) where &'a A: IntoVal, &'a B: IntoVal, &'a C: IntoVal, &'a D: IntoVal,
    ensures
        t.count() == 4,
        ({
            let (h1, r0) = (&t.0).to_val(h);
            let (h2, r1) = (&t.1).to_val(h1);
            let (h3, r2) = (&t.2).to_val(h2);
            let (h4, r3) = (&t.3).to_val(h3);
            &&& r0 is Err ==> {
                &&& t.offer(h).heap == h1
                &&& t.offer(h).slots.len() == 0
                &&& t.offer(h).outcome == Err::<(), GError>(r0->Err_0)
            }
            &&& r0 is Ok && r1 is Err ==> {
                &&& t.offer(h).heap == h2
                &&& t.offer(h).slots.len() == 0
                &&& t.offer(h).outcome == Err::<(), GError>(r1->Err_0)
            }
            &&& r0 is Ok && r1 is Ok && r2 is Err ==> {
                &&& t.offer(h).heap == h3
                &&& t.offer(h).slots.len() == 0
                &&& t.offer(h).outcome == Err::<(), GError>(r2->Err_0)
            }
            &&& r0 is Ok && r1 is Ok && r2 is Ok && r3 is Err ==> {
                &&& t.offer(h).heap == h4
                &&& t.offer(h).slots.len() == 0
                &&& t.offer(h).outcome == Err::<(), GError>(r3->Err_0)
            }
            &&& r0 is Ok && r1 is Ok && r2 is Ok && r3 is Ok ==> {
                &&& t.offer(h).heap == h4
                &&& t.offer(h).slots == seq![
                    r0->Ok_0.slot(),
                    r1->Ok_0.slot(),
                    r2->Ok_0.slot(),
                    r3->Ok_0.slot(),
                ]
                &&& t.offer(h).outcome is Ok
            }
            &&& r0 is Ok ==> t.nth(h, 0) == (h1, Ok::<Slot, GError>(r0->Ok_0.slot()))
            &&& r0 is Err ==> t.nth(h, 0) == (h1, Err::<Slot, GError>(r0->Err_0))
            &&& r0 is Ok && r1 is Ok ==> t.nth(h, 1) == (h2, Ok::<Slot, GError>(r1->Ok_0.slot()))
            &&& r0 is Ok && r1 is Err ==> t.nth(h, 1) == (h2, Err::<Slot, GError>(r1->Err_0))
            &&& r0 is Ok && r1 is Ok && r2 is Ok ==> t.nth(h, 2) == (
                h3,
                Ok::<Slot, GError>(r2->Ok_0.slot()),
            )
            &&& r0 is Ok && r1 is Ok && r2 is Err ==> t.nth(h, 2) == (
                h3,
                Err::<Slot, GError>(r2->Err_0),
            )
            &&& r0 is Ok && r1 is Ok && r2 is Ok && r3 is Ok ==> t.nth(h, 3) == (
                h4,
                Ok::<Slot, GError>(r3->Ok_0.slot()),
            )
            &&& r0 is Ok && r1 is Ok && r2 is Ok && r3 is Err ==> t.nth(h, 3) == (
                h4,
                Err::<Slot, GError>(r3->Err_0),
            )
        }),
{
}

/// The same by mutable reference.
pub proof fn law_arguments_of_tuple_4_mut<
    'a,
    A: IntoValMut,
    B: IntoValMut,
    C: IntoValMut,
    D: IntoValMut,
>(t: &'a mut (A, B, C, D), h: Store)
    ensures
        t.count() == 4,
        ({
            let (h1, r0) = old(t).0.mut_to_val(h);
            let (h2, r1) = old(t).1.mut_to_val(h1);
            let (h3, r2) = old(t).2.mut_to_val(h2);
            let (h4, r3) = old(t).3.mut_to_val(h3);
            &&& r0 is Err ==> {
                &&& t.offer(h).heap == h1
                &&& t.offer(h).slots.len() == 0
                &&& t.offer(h).outcome == Err::<(), GError>(r0->Err_0)
            }
            &&& r0 is Ok && r1 is Err ==> {
                &&& t.offer(h).heap == h2
                &&& t.offer(h).slots.len() == 0
                &&& t.offer(h).outcome == Err::<(), GError>(r1->Err_0)
            }
            &&& r0 is Ok && r1 is Ok && r2 is Err ==> {
                &&& t.offer(h).heap == h3
                &&& t.offer(h).slots.len() == 0
                &&& t.offer(h).outcome == Err::<(), GError>(r2->Err_0)
            }
            &&& r0 is Ok && r1 is Ok && r2 is Ok && r3 is Err ==> {
                &&& t.offer(h).heap == h4
                &&& t.offer(h).slots.len() == 0
                &&& t.offer(h).outcome == Err::<(), GError>(r3->Err_0)
            }
            &&& r0 is Ok && r1 is Ok && r2 is Ok && r3 is Ok ==> {
                &&& t.offer(h).heap == h4
                &&& t.offer(h).slots == seq![
                    r0->Ok_0.slot(),
                    r1->Ok_0.slot(),
                    r2->Ok_0.slot(),
                    r3->Ok_0.slot(),
                ]
                &&& t.offer(h).outcome is Ok
            }
            &&& r0 is Ok ==> t.nth(h, 0) == (h1, Ok::<Slot, GError>(r0->Ok_0.slot()))
            &&& r0 is Err ==> t.nth(h, 0) == (h1, Err::<Slot, GError>(r0->Err_0))
            &&& r0 is Ok && r1 is Ok ==> t.nth(h, 1) == (h2, Ok::<Slot, GError>(r1->Ok_0.slot()))
            &&& r0 is Ok && r1 is Err ==> t.nth(h, 1) == (h2, Err::<Slot, GError>(r1->Err_0))
            &&& r0 is Ok && r1 is Ok && r2 is Ok ==> t.nth(h, 2) == (
                h3,
                Ok::<Slot, GError>(r2->Ok_0.slot()),
            )
            &&& r0 is Ok && r1 is Ok && r2 is Err ==> t.nth(h, 2) == (
                h3,
                Err::<Slot, GError>(r2->Err_0),
            )
            &&& r0 is Ok && r1 is Ok && r2 is Ok && r3 is Ok ==> t.nth(h, 3) == (
                h4,
                Ok::<Slot, GError>(r3->Ok_0.slot()),
            )
            &&& r0 is Ok && r1 is Ok && r2 is Ok && r3 is Err ==> t.nth(h, 3) == (
                h4,
                Err::<Slot, GError>(r3->Err_0),
            )
        }),
{
}

/// A tuple of 5 is 5 arguments: its fields are converted in their order, and the slots are those of
/// the fields, each in the place of its own. Where one fails, the first such is the reason, and
/// there are no slots at all.
pub proof fn law_arguments_of_tuple_5<
    A: IntoVal,
    B: IntoVal,
    C: IntoVal,
    D: IntoVal,
    E: IntoVal,
>(t: (A, B, C, D, E), h: Store)
    ensures
        t.count() == 5,
        ({
            let (h1, r0) = t.0.to_val(h);
            let (h2, r1) = t.1.to_val(h1);
            let (h3, r2) = t.2.to_val(h2);
            let (h4, r3) = t.3.to_val(h3);
            let (h5, r4) = t.4.to_val(h4);
            &&& r0 is Err ==> {
                &&& t.offer(h).heap == h1
                &&& t.offer(h).slots.len() == 0
                &&& t.offer(h).outcome == Err::<(), GError>(r0->Err_0)
            }
            &&& r0 is Ok && r1 is Err ==> {
                &&& t.offer(h).heap == h2
                &&& t.offer(h).slots.len() == 0
                &&& t.offer(h).outcome == Err::<(), GError>(r1->Err_0)
            }
            &&& r0 is Ok && r1 is Ok && r2 is Err ==> {
                &&& t.offer(h).heap == h3
                &&& t.offer(h).slots.len() == 0
                &&& t.offer(h).outcome == Err::<(), GError>(r2->Err_0)
            }
            &&& r0 is Ok && r1 is Ok && r2 is Ok && r3 is Err ==> {
                &&& t.offer(h).heap == h4
                &&& t.offer(h).slots.len() == 0
                &&& t.offer(h).outcome == Err::<(), GError>(r3->Err_0)
            }
            &&& r0 is Ok && r1 is Ok && r2 is Ok && r3 is Ok && r4 is Err ==> {
                &&& t.offer(h).heap == h5
                &&& t.offer(h).slots.len() == 0
                &&& t.offer(h).outcome == Err::<(), GError>(r4->Err_0)
            }
            &&& r0 is Ok && r1 is Ok && r2 is Ok && r3 is Ok && r4 is Ok ==> {
                &&& t.offer(h).heap == h5
                &&& t.offer(h).slots == seq![
                    r0->Ok_0.slot(),
                    r1->Ok_0.slot(),
                    r2->Ok_0.slot(),
                    r3->Ok_0.slot(),
                    r4->Ok_0.slot(),
                ]
                &&& t.offer(h).outcome is Ok
            }
            &&& r0 is Ok ==> t.nth(h, 0) == (h1, Ok::<Slot, GError>(r0->Ok_0.slot()))
            &&& r0 is Err ==> t.nth(h, 0) == (h1, Err::<Slot, GError>(r0->Err_0))
            &&& r0 is Ok && r1 is Ok ==> t.nth(h, 1) == (h2, Ok::<Slot, GError>(r1->Ok_0.slot()))
            &&& r0 is Ok && r1 is Err ==> t.nth(h, 1) == (h2, Err::<Slot, GError>(r1->Err_0))
            &&& r0 is Ok && r1 is Ok && r2 is Ok ==> t.nth(h, 2) == (
                h3,
                Ok::<Slot, GError>(r2->Ok_0.slot()),
            )
            &&& r0 is Ok && r1 is Ok && r2 is Err ==> t.nth(h, 2) == (
                h3,
                Err::<Slot, GError>(r2->Err_0),
            )
            &&& r0 is Ok && r1 is Ok && r2 is Ok && r3 is Ok ==> t.nth(h, 3) == (
                h4,
                Ok::<Slot, GError>(r3->Ok_0.slot()),
            )
            &&& r0 is Ok && r1 is Ok && r2 is Ok && r3 is Err ==> t.nth(h, 3) == (
                h4,
                Err::<Slot, GError>(r3->Err_0),
            )
            &&& r0 is Ok && r1 is Ok && r2 is Ok && r3 is Ok && r4 is Ok ==> t.nth(h, 4) == (
                h5,
                Ok::<Slot, GError>(r4->Ok_0.slot()),
            )
            &&& r0 is Ok && r1 is Ok && r2 is Ok && r3 is Ok && r4 is Err ==> t.nth(h, 4) == (
                h5,
                Err::<Slot, GError>(r4->Err_0),
            )
        }),
{
}

/// The same by shared reference.
pub proof fn law_arguments_of_tuple_5_ref<'a, A, B, C, D, E>(
    t: &'a (A, B, C, D, E),
    h: Store,
) where &'a A: IntoVal, &'a B: IntoVal, &'a C: IntoVal, &'a D: IntoVal, &'a E: IntoVal,
    ensures
        t.count() == 5,
        ({
            let (h1, r0) = (&t.0).to_val(h);
            let (h2, r1) = (&t.1).to_val(h1);
            let (h3, r2) = (&t.2).to_val(h2);
            let (h4, r3) = (&t.3).to_val(h3);
            let (h5, r4) = (&t.4).to_val(h4);
            &&& r0 is Err ==> {
                &&& t.offer(h).heap == h1
                &&& t.offer(h).slots.len() == 0
                &&& t.offer(h).outcome == Err::<(), GError>(r0->Err_0)
            }
            &&& r0 is Ok && r1 is Err ==> {
                &&& t.offer(h).heap == h2
                &&& t.offer(h).slots.len() == 0
                &&& t.offer(h).outcome == Err::<(), GError>(r1->Err_0)
            }
            &&& r0 is Ok && r1 is Ok && r2 is Err ==> {
                &&& t.offer(h).heap == h3
                &&& t.offer(h).slots.len() == 0
                &&& t.offer(h).outcome == Err::<(), GError>(r2->Err_0)
            }
            &&& r0 is Ok && r1 is Ok && r2 is Ok && r3 is Err ==> {
                &&& t.offer(h).heap == h4
                &&& t.offer(h).slots.len() == 0
                &&& t.offer(h).outcome == Err::<(), GError>(r3->Err_0)
            }
            &&& r0 is Ok && r1 is Ok && r2 is Ok && r3 is Ok && r4 is Err ==> {
                &&& t.offer(h).heap == h5
                &&& t.offer(h).slots.len() == 0
                &&& t.offer(h).outcome == Err::<(), GError>(r4->Err_0)
            }
            &&& r0 is Ok && r1 is Ok && r2 is Ok && r3 is Ok && r4 is Ok ==> {
                &&& t.offer(h).heap == h5
                &&& t.offer(h).slots == seq![
                    r0->Ok_0.slot(),
                    r1->Ok_0.slot(),
                    r2->Ok_0.slot(),
                    r3->Ok_0.slot(),
                    r4->Ok_0.slot(),
                ]
                &&& t.offer(h).outcome is Ok
            }
            &&& r0 is Ok ==> t.nth(h, 0) == (h1, Ok::<Slot, GError>(r0->Ok_0.slot()))
            &&& r0 is Err ==> t.nth(h, 0) == (h1, Err::<Slot, GError>(r0->Err_0))
            &&& r0 is Ok && r1 is Ok ==> t.nth(h, 1) == (h2, Ok::<Slot, GError>(r1->Ok_0.slot()))
            &&& r0 is Ok && r1 is Err ==> t.nth(h, 1) == (h2, Err::<Slot, GError>(r1->Err_0))
            &&& r0 is Ok && r1 is Ok && r2 is Ok ==> t.nth(h, 2) == (
                h3,
                Ok::<Slot, GError>(r2->Ok_0.slot()),
            )
            &&& r0 is Ok && r1 is Ok && r2 is Err ==> t.nth(h, 2) == (
                h3,
                Err::<Slot, GError>(r2->Err_0),
            )
            &&& r0 is Ok && r1 is Ok && r2 is Ok && r3 is Ok ==> t.nth(h, 3) == (
                h4,
                Ok::<Slot, GError>(r3->Ok_0.slot()),
            )
            &&& r0 is Ok && r1 is Ok && r2 is Ok && r3 is Err ==> t.nth(h, 3) == (
                h4,
                Err::<Slot, GError>(r3->Err_0),
            )
            &&& r0 is Ok && r1 is Ok && r2 is Ok && r3 is Ok && r4 is Ok ==> t.nth(h, 4) == (
                h5,
                Ok::<Slot, GError>(r4->Ok_0.slot()),
            )
            &&& r0 is Ok && r1 is Ok && r2 is Ok && r3 is Ok && r4 is Err ==> t.nth(h, 4) == (
                h5,
                Err::<Slot, GError>(r4->Err_0),
            )
        }),
{
}

/// The same by mutable reference.
pub proof fn law_arguments_of_tuple_5_mut<
    'a,
    A: IntoValMut,
    B: IntoValMut,
    C: IntoValMut,
    D: IntoValMut,
    E: IntoValMut,
>(t: &'a mut (A, B, C, D, E), h: Store)
    ensures
        t.count() == 5,
        ({
            let (h1, r0) = old(t).0.mut_to_val(h);
            let (h2, r1) = old(t).1.mut_to_val(h1);
            let (h3, r2) = old(t).2.mut_to_val(h2);
            let (h4, r3) = old(t).3.mut_to_val(h3);
            let (h5, r4) = old(t).4.mut_to_val(h4);
            &&& r0 is Err ==> {
                &&& t.offer(h).heap == h1
                &&& t.offer(h).slots.len() == 0
                &&& t.offer(h).outcome == Err::<(), GError>(r0->Err_0)
            }
            &&& r0 is Ok && r1 is Err ==> {
                &&& t.offer(h).heap == h2
                &&& t.offer(h).slots.len() == 0
                &&& t.offer(h).outcome == Err::<(), GError>(r1->Err_0)
            }
            &&& r0 is Ok && r1 is Ok && r2 is Err ==> {
                &&& t.offer(h).heap == h3
                &&& t.offer(h).slots.len() == 0
                &&& t.offer(h).outcome == Err::<(), GError>(r2->Err_0)
            }
            &&& r0 is Ok && r1 is Ok && r2 is Ok && r3 is Err ==> {
                &&& t.offer(h).heap == h4
                &&& t.offer(h).slots.len() == 0
                &&& t.offer(h).outcome == Err::<(), GError>(r3->Err_0)
            }
            &&& r0 is Ok && r1 is Ok && r2 is Ok && r3 is Ok && r4 is Err ==> {
                &&& t.offer(h).heap == h5
                &&& t.offer(h).slots.len() == 0
                &&& t.offer(h).outcome == Err::<(), GError>(r4->Err_0)
            }
            &&& r0 is Ok && r1 is Ok && r2 is Ok && r3 is Ok && r4 is Ok ==> {
                &&& t.offer(h).heap == h5
                &&& t.offer(h).slots == seq![
                    r0->Ok_0.slot(),
                    r1->Ok_0.slot(),
                    r2->Ok_0.slot(),
                    r3->Ok_0.slot(),
                    r4->Ok_0.slot(),
                ]
                &&& t.offer(h).outcome is Ok
            }
            &&& r0 is Ok ==> t.nth(h, 0) == (h1, Ok::<Slot, GError>(r0->Ok_0.slot()))
            &&& r0 is Err ==> t.nth(h, 0) == (h1, Err::<Slot, GError>(r0->Err_0))
            &&& r0 is Ok && r1 is Ok ==> t.nth(h, 1) == (h2, Ok::<Slot, GError>(r1->Ok_0.slot()))
            &&& r0 is Ok && r1 is Err ==> t.nth(h, 1) == (h2, Err::<Slot, GError>(r1->Err_0))
            &&& r0 is Ok && r1 is Ok && r2 is Ok ==> t.nth(h, 2) == (
                h3,
                Ok::<Slot, GError>(r2->Ok_0.slot()),
            )
            &&& r0 is Ok && r1 is Ok && r2 is Err ==> t.nth(h, 2) == (
                h3,
                Err::<Slot, GError>(r2->Err_0),
            )
            &&& r0 is Ok && r1 is Ok && r2 is Ok && r3 is Ok ==> t.nth(h, 3) == (
                h4,
                Ok::<Slot, GError>(r3->Ok_0.slot()),
            )
            &&& r0 is Ok && r1 is Ok && r2 is Ok && r3 is Err ==> t.nth(h, 3) == (
                h4,
                Err::<Slot, GError>(r3->Err_0),
            )
            &&& r0 is Ok && r1 is Ok && r2 is Ok && r3 is Ok && r4 is Ok ==> t.nth(h, 4) == (
                h5,
                Ok::<Slot, GError>(r4->Ok_0.slot()),
            )
            &&& r0 is Ok && r1 is Ok && r2 is Ok && r3 is Ok && r4 is Err ==> t.nth(h, 4) == (
                h5,
                Err::<Slot, GError>(r4->Err_0),
            )
        }),
{
}

/// A tuple of 6 is 6 arguments: its fields are converted in their order, and the slots are those of
/// the fields, each in the place of its own. Where one fails, the first such is the reason, and
/// there are no slots at all.
pub proof fn law_arguments_of_tuple_6<
    A: IntoVal,
    B: IntoVal,
    C: IntoVal,
    D: IntoVal,
    E: IntoVal,
    F: IntoVal,
>(t: (A, B, C, D, E, F), h: Store)
    ensures
        t.count() == 6,
        ({
            let (h1, r0) = t.0.to_val(h);
            let (h2, r1) = t.1.to_val(h1);
            let (h3, r2) = t.2.to_val(h2);
            let (h4, r3) = t.3.to_val(h3);
            let (h5, r4) = t.4.to_val(h4);
            let (h6, r5) = t.5.to_val(h5);
            &&& r0 is Err ==> {
                &&& t.offer(h).heap == h1
                &&& t.offer(h).slots.len() == 0
                &&& t.offer(h).outcome == Err::<(), GError>(r0->Err_0)
            }
            &&& r0 is Ok && r1 is Err ==> {
                &&& t.offer(h).heap == h2
                &&& t.offer(h).slots.len() == 0
                &&& t.offer(h).outcome == Err::<(), GError>(r1->Err_0)
            }
            &&& r0 is Ok && r1 is Ok && r2 is Err ==> {
                &&& t.offer(h).heap == h3
                &&& t.offer(h).slots.len() == 0
                &&& t.offer(h).outcome == Err::<(), GError>(r2->Err_0)
            }
            &&& r0 is Ok && r1 is Ok && r2 is Ok && r3 is Err ==> {
                &&& t.offer(h).heap == h4
                &&& t.offer(h).slots.len() == 0
                &&& t.offer(h).outcome == Err::<(), GError>(r3->Err_0)
            }
            &&& r0 is Ok && r1 is Ok && r2 is Ok && r3 is Ok && r4 is Err ==> {
                &&& t.offer(h).heap == h5
                &&& t.offer(h).slots.len() == 0
                &&& t.offer(h).outcome == Err::<(), GError>(r4->Err_0)
            }
            &&& r0 is Ok && r1 is Ok && r2 is Ok && r3 is Ok && r4 is Ok && r5 is Err ==> {
                &&& t.offer(h).heap == h6
                &&& t.offer(h).slots.len() == 0
                &&& t.offer(h).outcome == Err::<(), GError>(r5->Err_0)
            }
            &&& r0 is Ok && r1 is Ok && r2 is Ok && r3 is Ok && r4 is Ok && r5 is Ok ==> {
                &&& t.offer(h).heap == h6
                &&& t.offer(h).slots == seq![
                    r0->Ok_0.slot(),
                    r1->Ok_0.slot(),
                    r2->Ok_0.slot(),
                    r3->Ok_0.slot(),
                    r4->Ok_0.slot(),
                    r5->Ok_0.slot(),
                ]
                &&& t.offer(h).outcome is Ok
            }
            &&& r0 is Ok ==> t.nth(h, 0) == (h1, Ok::<Slot, GError>(r0->Ok_0.slot()))
            &&& r0 is Err ==> t.nth(h, 0) == (h1, Err::<Slot, GError>(r0->Err_0))
            &&& r0 is Ok && r1 is Ok ==> t.nth(h, 1) == (h2, Ok::<Slot, GError>(r1->Ok_0.slot()))
            &&& r0 is Ok && r1 is Err ==> t.nth(h, 1) == (h2, Err::<Slot, GError>(r1->Err_0))
            &&& r0 is Ok && r1 is Ok && r2 is Ok ==> t.nth(h, 2) == (
                h3,
                Ok::<Slot, GError>(r2->Ok_0.slot()),
            )
            &&& r0 is Ok && r1 is Ok && r2 is Err ==> t.nth(h, 2) == (
                h3,
                Err::<Slot, GError>(r2->Err_0),
            )
            &&& r0 is Ok && r1 is Ok && r2 is Ok && r3 is Ok ==> t.nth(h, 3) == (
                h4,
                Ok::<Slot, GError>(r3->Ok_0.slot()),
            )
            &&& r0 is Ok && r1 is Ok && r2 is Ok && r3 is Err ==> t.nth(h, 3) == (
                h4,
                Err::<Slot, GError>(r3->Err_0),
            )
            &&& r0 is Ok && r1 is Ok && r2 is Ok && r3 is Ok && r4 is Ok ==> t.nth(h, 4) == (
                h5,
                Ok::<Slot, GError>(r4->Ok_0.slot()),
            )
            &&& r0 is Ok && r1 is Ok && r2 is Ok && r3 is Ok && r4 is Err ==> t.nth(h, 4) == (
                h5,
                Err::<Slot, GError>(r4->Err_0),
            )
            &&& r0 is Ok && r1 is Ok && r2 is Ok && r3 is Ok && r4 is Ok && r5 is Ok
                ==> t.nth(h, 5) == (h6, Ok::<Slot, GError>(r5->Ok_0.slot()))
            &&& r0 is Ok && r1 is Ok && r2 is Ok && r3 is Ok && r4 is Ok && r5 is Err
                ==> t.nth(h, 5) == (h6, Err::<Slot, GError>(r5->Err_0))
        }),
{
}

/// The same by shared reference.
pub proof fn law_arguments_of_tuple_6_ref<'a, A, B, C, D, E, F>(
    t: &'a (A, B, C, D, E, F),
    h: Store,
) where &'a A: IntoVal, &'a B: IntoVal, &'a C: IntoVal, &'a D: IntoVal, &'a E: IntoVal,
    &'a F: IntoVal,
    ensures
        t.count() == 6,
        ({
            let (h1, r0) = (&t.0).to_val(h);
            let (h2, r1) = (&t.1).to_val(h1);
            let (h3, r2) = (&t.2).to_val(h2);
            let (h4, r3) = (&t.3).to_val(h3);
            let (h5, r4) = (&t.4).to_val(h4);
            let (h6, r5) = (&t.5).to_val(h5);
            &&& r0 is Err ==> {
                &&& t.offer(h).heap == h1
                &&& t.offer(h).slots.len() == 0
                &&& t.offer(h).outcome == Err::<(), GError>(r0->Err_0)
            }
            &&& r0 is Ok && r1 is Err ==> {
                &&& t.offer(h).heap == h2
                &&& t.offer(h).slots.len() == 0
                &&& t.offer(h).outcome == Err::<(), GError>(r1->Err_0)
            }
            &&& r0 is Ok && r1 is Ok && r2 is Err ==> {
                &&& t.offer(h).heap == h3
                &&& t.offer(h).slots.len() == 0
                &&& t.offer(h).outcome == Err::<(), GError>(r2->Err_0)
            }
            &&& r0 is Ok && r1 is Ok && r2 is Ok && r3 is Err ==> {
                &&& t.offer(h).heap == h4
                &&& t.offer(h).slots.len() == 0
                &&& t.offer(h).outcome == Err::<(), GError>(r3->Err_0)
            }
            &&& r0 is Ok && r1 is Ok && r2 is Ok && r3 is Ok && r4 is Err ==> {
                &&& t.offer(h).heap == h5
                &&& t.offer(h).slots.len() == 0
                &&& t.offer(h).outcome == Err::<(), GError>(r4->Err_0)
            }
            &&& r0 is Ok && r1 is Ok && r2 is Ok && r3 is Ok && r4 is Ok && r5 is Err ==> {
                &&& t.offer(h).heap == h6
                &&& t.offer(h).slots.len() == 0
                &&& t.offer(h).outcome == Err::<(), GError>(r5->Err_0)
            }
            &&& r0 is Ok && r1 is Ok && r2 is Ok && r3 is Ok && r4 is Ok && r5 is Ok ==> {
                &&& t.offer(h).heap == h6
                &&& t.offer(h).slots == seq![
                    r0->Ok_0.slot(),
                    r1->Ok_0.slot(),
                    r2->Ok_0.slot(),
                    r3->Ok_0.slot(),
                    r4->Ok_0.slot(),
                    r5->Ok_0.slot(),
                ]
                &&& t.offer(h).outcome is Ok
            }
            &&& r0 is Ok ==> t.nth(h, 0) == (h1, Ok::<Slot, GError>(r0->Ok_0.slot()))
            &&& r0 is Err ==> t.nth(h, 0) == (h1, Err::<Slot, GError>(r0->Err_0))
            &&& r0 is Ok && r1 is Ok ==> t.nth(h, 1) == (h2, Ok::<Slot, GError>(r1->Ok_0.slot()))
            &&& r0 is Ok && r1 is Err ==> t.nth(h, 1) == (h2, Err::<Slot, GError>(r1->Err_0))
            &&& r0 is Ok && r1 is Ok && r2 is Ok ==> t.nth(h, 2) == (
                h3,
                Ok::<Slot, GError>(r2->Ok_0.slot()),
            )
            &&& r0 is Ok && r1 is Ok && r2 is Err ==> t.nth(h, 2) == (
                h3,
                Err::<Slot, GError>(r2->Err_0),
            )
            &&& r0 is Ok && r1 is Ok && r2 is Ok && r3 is Ok ==> t.nth(h, 3) == (
                h4,
                Ok::<Slot, GError>(r3->Ok_0.slot()),
            )
            &&& r0 is Ok && r1 is Ok && r2 is Ok && r3 is Err ==> t.nth(h, 3) == (
                h4,
                Err::<Slot, GError>(r3->Err_0),
            )
            &&& r0 is Ok && r1 is Ok && r2 is Ok && r3 is Ok && r4 is Ok ==> t.nth(h, 4) == (
                h5,
                Ok::<Slot, GError>(r4->Ok_0.slot()),
            )
            &&& r0 is Ok && r1 is Ok && r2 is Ok && r3 is Ok && r4 is Err ==> t.nth(h, 4) == (
                h5,
                Err::<Slot, GError>(r4->Err_0),
            )
            &&& r0 is Ok && r1 is Ok && r2 is Ok && r3 is Ok && r4 is Ok && r5 is Ok
                ==> t.nth(h, 5) == (h6, Ok::<Slot, GError>(r5->Ok_0.slot()))
            &&& r0 is Ok && r1 is Ok && r2 is Ok && r3 is Ok && r4 is Ok && r5 is Err
                ==> t.nth(h, 5) == (h6, Err::<Slot, GError>(r5->Err_0))
        }),
{
}

/// The same by mutable reference.
pub proof fn law_arguments_of_tuple_6_mut<
    'a,
    A: IntoValMut,
    B: IntoValMut,
    C: IntoValMut,
    D: IntoValMut,
    E: IntoValMut,
    F: IntoValMut,
>(t: &'a mut (A, B, C, D, E, F), h: Store)
    ensures
        t.count() == 6,
        ({
            let (h1, r0) = old(t).0.mut_to_val(h);
            let (h2, r1) = old(t).1.mut_to_val(h1);
            let (h3, r2) = old(t).2.mut_to_val(h2);
            let (h4, r3) = old(t).3.mut_to_val(h3);
            let (h5, r4) = old(t).4.mut_to_val(h4);
            let (h6, r5) = old(t).5.mut_to_val(h5);
            &&& r0 is Err ==> {
                &&& t.offer(h).heap == h1
                &&& t.offer(h).slots.len() == 0
                &&& t.offer(h).outcome == Err::<(), GError>(r0->Err_0)
            }
            &&& r0 is Ok && r1 is Err ==> {
                &&& t.offer(h).heap == h2
                &&& t.offer(h).slots.len() == 0
                &&& t.offer(h).outcome == Err::<(), GError>(r1->Err_0)
            }
            &&& r0 is Ok && r1 is Ok && r2 is Err ==> {
                &&& t.offer(h).heap == h3
                &&& t.offer(h).slots.len() == 0
                &&& t.offer(h).outcome == Err::<(), GError>(r2->Err_0)
            }
            &&& r0 is Ok && r1 is Ok && r2 is Ok && r3 is Err ==> {
                &&& t.offer(h).heap == h4
                &&& t.offer(h).slots.len() == 0
                &&& t.offer(h).outcome == Err::<(), GError>(r3->Err_0)
            }
            &&& r0 is Ok && r1 is Ok && r2 is Ok && r3 is Ok && r4 is Err ==> {
                &&& t.offer(h).heap == h5
                &&& t.offer(h).slots.len() == 0
                &&& t.offer(h).outcome == Err::<(), GError>(r4->Err_0)
            }
            &&& r0 is Ok && r1 is Ok && r2 is Ok && r3 is Ok && r4 is Ok && r5 is Err ==> {
                &&& t.offer(h).heap == h6
                &&& t.offer(h).slots.len() == 0
                &&& t.offer(h).outcome == Err::<(), GError>(r5->Err_0)
            }
            &&& r0 is Ok && r1 is Ok && r2 is Ok && r3 is Ok && r4 is Ok && r5 is Ok ==> {
                &&& t.offer(h).heap == h6
                &&& t.offer(h).slots == seq![
                    r0->Ok_0.slot(),
                    r1->Ok_0.slot(),
                    r2->Ok_0.slot(),
                    r3->Ok_0.slot(),
                    r4->Ok_0.slot(),
                    r5->Ok_0.slot(),
                ]
                &&& t.offer(h).outcome is Ok
            }
            &&& r0 is Ok ==> t.nth(h, 0) == (h1, Ok::<Slot, GError>(r0->Ok_0.slot()))
            &&& r0 is Err ==> t.nth(h, 0) == (h1, Err::<Slot, GError>(r0->Err_0))
            &&& r0 is Ok && r1 is Ok ==> t.nth(h, 1) == (h2, Ok::<Slot, GError>(r1->Ok_0.slot()))
            &&& r0 is Ok && r1 is Err ==> t.nth(h, 1) == (h2, Err::<Slot, GError>(r1->Err_0))
            &&& r0 is Ok && r1 is Ok && r2 is Ok ==> t.nth(h, 2) == (
                h3,
                Ok::<Slot, GError>(r2->Ok_0.slot()),
            )
            &&& r0 is Ok && r1 is Ok && r2 is Err ==> t.nth(h, 2) == (
                h3,
                Err::<Slot, GError>(r2->Err_0),
            )
            &&& r0 is Ok && r1 is Ok && r2 is Ok && r3 is Ok ==> t.nth(h, 3) == (
                h4,
                Ok::<Slot, GError>(r3->Ok_0.slot()),
            )
            &&& r0 is Ok && r1 is Ok && r2 is Ok && r3 is Err ==> t.nth(h, 3) == (
                h4,
                Err::<Slot, GError>(r3->Err_0),
            )
            &&& r0 is Ok && r1 is Ok && r2 is Ok && r3 is Ok && r4 is Ok ==> t.nth(h, 4) == (
                h5,
                Ok::<Slot, GError>(r4->Ok_0.slot()),
            )
            &&& r0 is Ok && r1 is Ok && r2 is Ok && r3 is Ok && r4 is Err ==> t.nth(h, 4) == (
                h5,
                Err::<Slot, GError>(r4->Err_0),
            )
            &&& r0 is Ok && r1 is Ok && r2 is Ok && r3 is Ok && r4 is Ok && r5 is Ok
                ==> t.nth(h, 5) == (h6, Ok::<Slot, GError>(r5->Ok_0.slot()))
            &&& r0 is Ok && r1 is Ok && r2 is Ok && r3 is Ok && r4 is Ok && r5 is Err
                ==> t.nth(h, 5) == (h6, Err::<Slot, GError>(r5->Err_0))
        }),
{
}

/// A tuple of 7 is 7 arguments: its fields are converted in their order, and the slots are those of
/// the fields, each in the place of its own. Where one fails, the first such is the reason, and
/// there are no slots at all.
pub proof fn law_arguments_of_tuple_7<
    A: IntoVal,
    B: IntoVal,
    C: IntoVal,
    D: IntoVal,
    E: IntoVal,
    F: IntoVal,
    G: IntoVal,
>(t: (A, B, C, D, E, F, G), h: Store)
    ensures
        t.count() == 7,
        ({
            let (h1, r0) = t.0.to_val(h);
            let (h2, r1) = t.1.to_val(h1);
            let (h3, r2) = t.2.to_val(h2);
            let (h4, r3) = t.3.to_val(h3);
            let (h5, r4) = t.4.to_val(h4);
            let (h6, r5) = t.5.to_val(h5);
            let (h7, r6) = t.6.to_val(h6);
            &&& r0 is Err ==> {
                &&& t.offer(h).heap == h1
                &&& t.offer(h).slots.len() == 0
                &&& t.offer(h).outcome == Err::<(), GError>(r0->Err_0)
            }
            &&& r0 is Ok && r1 is Err ==> {
                &&& t.offer(h).heap == h2
                &&& t.offer(h).slots.len() == 0
                &&& t.offer(h).outcome == Err::<(), GError>(r1->Err_0)
            }
            &&& r0 is Ok && r1 is Ok && r2 is Err ==> {
                &&& t.offer(h).heap == h3
                &&& t.offer(h).slots.len() == 0
                &&& t.offer(h).outcome == Err::<(), GError>(r2->Err_0)
            }
            &&& r0 is Ok && r1 is Ok && r2 is Ok && r3 is Err ==> {
                &&& t.offer(h).heap == h4
                &&& t.offer(h).slots.len() == 0
                &&& t.offer(h).outcome == Err::<(), GError>(r3->Err_0)
            }
            &&& r0 is Ok && r1 is Ok && r2 is Ok && r3 is Ok && r4 is Err ==> {
                &&& t.offer(h).heap == h5
                &&& t.offer(h).slots.len() == 0
                &&& t.offer(h).outcome == Err::<(), GError>(r4->Err_0)
            }
            &&& r0 is Ok && r1 is Ok && r2 is Ok && r3 is Ok && r4 is Ok && r5 is Err ==> {
                &&& t.offer(h).heap == h6
                &&& t.offer(h).slots.len() == 0
                &&& t.offer(h).outcome == Err::<(), GError>(r5->Err_0)
            }
            &&& r0 is Ok && r1 is Ok && r2 is Ok && r3 is Ok && r4 is Ok && r5 is Ok
                && r6 is Err ==> {
                &&& t.offer(h).heap == h7
                &&& t.offer(h).slots.len() == 0
                &&& t.offer(h).outcome == Err::<(), GError>(r6->Err_0)
            }
            &&& r0 is Ok && r1 is Ok && r2 is Ok && r3 is Ok && r4 is Ok && r5 is Ok
                && r6 is Ok ==> {
                &&& t.offer(h).heap == h7
                &&& t.offer(h).slots == seq![
                    r0->Ok_0.slot(),
                    r1->Ok_0.slot(),
                    r2->Ok_0.slot(),
                    r3->Ok_0.slot(),
                    r4->Ok_0.slot(),
                    r5->Ok_0.slot(),
                    r6->Ok_0.slot(),
                ]
                &&& t.offer(h).outcome is Ok
            }
            &&& r0 is Ok ==> t.nth(h, 0) == (h1, Ok::<Slot, GError>(r0->Ok_0.slot()))
            &&& r0 is Err ==> t.nth(h, 0) == (h1, Err::<Slot, GError>(r0->Err_0))
            &&& r0 is Ok && r1 is Ok ==> t.nth(h, 1) == (h2, Ok::<Slot, GError>(r1->Ok_0.slot()))
            &&& r0 is Ok && r1 is Err ==> t.nth(h, 1) == (h2, Err::<Slot, GError>(r1->Err_0))
            &&& r0 is Ok && r1 is Ok && r2 is Ok ==> t.nth(h, 2) == (
                h3,
                Ok::<Slot, GError>(r2->Ok_0.slot()),
            )
            &&& r0 is Ok && r1 is Ok && r2 is Err ==> t.nth(h, 2) == (
                h3,
                Err::<Slot, GError>(r2->Err_0),
            )
            &&& r0 is Ok && r1 is Ok && r2 is Ok && r3 is Ok ==> t.nth(h, 3) == (
                h4,
                Ok::<Slot, GError>(r3->Ok_0.slot()),
            )
            &&& r0 is Ok && r1 is Ok && r2 is Ok && r3 is Err ==> t.nth(h, 3) == (
                h4,
                Err::<Slot, GError>(r3->Err_0),
            )
            &&& r0 is Ok && r1 is Ok && r2 is Ok && r3 is Ok && r4 is Ok ==> t.nth(h, 4) == (
                h5,
                Ok::<Slot, GError>(r4->Ok_0.slot()),
            )
            &&& r0 is Ok && r1 is Ok && r2 is Ok && r3 is Ok && r4 is Err ==> t.nth(h, 4) == (
                h5,
                Err::<Slot, GError>(r4->Err_0),
            )
            &&& r0 is Ok && r1 is Ok && r2 is Ok && r3 is Ok && r4 is Ok && r5 is Ok
                ==> t.nth(h, 5) == (h6, Ok::<Slot, GError>(r5->Ok_0.slot()))
            &&& r0 is Ok && r1 is Ok && r2 is Ok && r3 is Ok && r4 is Ok && r5 is Err
                ==> t.nth(h, 5) == (h6, Err::<Slot, GError>(r5->Err_0))
            &&& r0 is Ok && r1 is Ok && r2 is Ok && r3 is Ok && r4 is Ok && r5 is Ok
                && r6 is Ok ==> t.nth(h, 6) == (h7, Ok::<Slot, GError>(r6->Ok_0.slot()))
            &&& r0 is Ok && r1 is Ok && r2 is Ok && r3 is Ok && r4 is Ok && r5 is Ok
                && r6 is Err ==> t.nth(h, 6) == (h7, Err::<Slot, GError>(r6->Err_0))
        }),
{
}

/// The same by shared reference.
pub proof fn law_arguments_of_tuple_7_ref<'a, A, B, C, D, E, F, G>(
    t: &'a (A, B, C, D, E, F, G),
    h: Store,
) where &'a A: IntoVal, &'a B: IntoVal, &'a C: IntoVal, &'a D: IntoVal, &'a E: IntoVal,
    &'a F: IntoVal, &'a G: IntoVal,
    ensures
        t.count() == 7,
        ({
            let (h1, r0) = (&t.0).to_val(h);
            let (h2, r1) = (&t.1).to_val(h1);
            let (h3, r2) = (&t.2).to_val(h2);
            let (h4, r3) = (&t.3).to_val(h3);
            let (h5, r4) = (&t.4).to_val(h4);
            let (h6, r5) = (&t.5).to_val(h5);
            let (h7, r6) = (&t.6).to_val(h6);
            &&& r0 is Err ==> {
                &&& t.offer(h).heap == h1
                &&& t.offer(h).slots.len() == 0
                &&& t.offer(h).outcome == Err::<(), GError>(r0->Err_0)
            }
            &&& r0 is Ok && r1 is Err ==> {
                &&& t.offer(h).heap == h2
                &&& t.offer(h).slots.len() == 0
                &&& t.offer(h).outcome == Err::<(), GError>(r1->Err_0)
            }
            &&& r0 is Ok && r1 is Ok && r2 is Err ==> {
                &&& t.offer(h).heap == h3
                &&& t.offer(h).slots.len() == 0
                &&& t.offer(h).outcome == Err::<(), GError>(r2->Err_0)
            }
            &&& r0 is Ok && r1 is Ok && r2 is Ok && r3 is Err ==> {
                &&& t.offer(h).heap == h4
                &&& t.offer(h).slots.len() == 0
                &&& t.offer(h).outcome == Err::<(), GError>(r3->Err_0)
            }
            &&& r0 is Ok && r1 is Ok && r2 is Ok && r3 is Ok && r4 is Err ==> {
                &&& t.offer(h).heap == h5
                &&& t.offer(h).slots.len() == 0
                &&& t.offer(h).outcome == Err::<(), GError>(r4->Err_0)
            }
            &&& r0 is Ok && r1 is Ok && r2 is Ok && r3 is Ok && r4 is Ok && r5 is Err ==> {
                &&& t.offer(h).heap == h6
                &&& t.offer(h).slots.len() == 0
                &&& t.offer(h).outcome == Err::<(), GError>(r5->Err_0)
            }
            &&& r0 is Ok && r1 is Ok && r2 is Ok && r3 is Ok && r4 is Ok && r5 is Ok
                && r6 is Err ==> {
                &&& t.offer(h).heap == h7
                &&& t.offer(h).slots.len() == 0
                &&& t.offer(h).outcome == Err::<(), GError>(r6->Err_0)
            }
            &&& r0 is Ok && r1 is Ok && r2 is Ok && r3 is Ok && r4 is Ok && r5 is Ok
                && r6 is Ok ==> {
                &&& t.offer(h).heap == h7
                &&& t.offer(h).slots == seq![
                    r0->Ok_0.slot(),
                    r1->Ok_0.slot(),
                    r2->Ok_0.slot(),
                    r3->Ok_0.slot(),
                    r4->Ok_0.slot(),
                    r5->Ok_0.slot(),
                    r6->Ok_0.slot(),
                ]
                &&& t.offer(h).outcome is Ok
            }
            &&& r0 is Ok ==> t.nth(h, 0) == (h1, Ok::<Slot, GError>(r0->Ok_0.slot()))
            &&& r0 is Err ==> t.nth(h, 0) == (h1, Err::<Slot, GError>(r0->Err_0))
            &&& r0 is Ok && r1 is Ok ==> t.nth(h, 1) == (h2, Ok::<Slot, GError>(r1->Ok_0.slot()))
            &&& r0 is Ok && r1 is Err ==> t.nth(h, 1) == (h2, Err::<Slot, GError>(r1->Err_0))
            &&& r0 is Ok && r1 is Ok && r2 is Ok ==> t.nth(h, 2) == (
                h3,
                Ok::<Slot, GError>(r2->Ok_0.slot()),
            )
            &&& r0 is Ok && r1 is Ok && r2 is Err ==> t.nth(h, 2) == (
                h3,
                Err::<Slot, GError>(r2->Err_0),
            )
            &&& r0 is Ok && r1 is Ok && r2 is Ok && r3 is Ok ==> t.nth(h, 3) == (
                h4,
                Ok::<Slot, GError>(r3->Ok_0.slot()),
            )
            &&& r0 is Ok && r1 is Ok && r2 is Ok && r3 is Err ==> t.nth(h, 3) == (
                h4,
                Err::<Slot, GError>(r3->Err_0),
            )
            &&& r0 is Ok && r1 is Ok && r2 is Ok && r3 is Ok && r4 is Ok ==> t.nth(h, 4) == (
                h5,
                Ok::<Slot, GError>(r4->Ok_0.slot()),
            )
            &&& r0 is Ok && r1 is Ok && r2 is Ok && r3 is Ok && r4 is Err ==> t.nth(h, 4) == (
                h5,
                Err::<Slot, GError>(r4->Err_0),
            )
            &&& r0 is Ok && r1 is Ok && r2 is Ok && r3 is Ok && r4 is Ok && r5 is Ok
                ==> t.nth(h, 5) == (h6, Ok::<Slot, GError>(r5->Ok_0.slot()))
            &&& r0 is Ok && r1 is Ok && r2 is Ok && r3 is Ok && r4 is Ok && r5 is Err
                ==> t.nth(h, 5) == (h6, Err::<Slot, GError>(r5->Err_0))
            &&& r0 is Ok && r1 is Ok && r2 is Ok && r3 is Ok && r4 is Ok && r5 is Ok
                && r6 is Ok ==> t.nth(h, 6) == (h7, Ok::<Slot, GError>(r6->Ok_0.slot()))
            &&& r0 is Ok && r1 is Ok && r2 is Ok && r3 is Ok && r4 is Ok && r5 is Ok
                && r6 is Err ==> t.nth(h, 6) == (h7, Err::<Slot, GError>(r6->Err_0))
        }),
{
}

/// The same by mutable reference.
pub proof fn law_arguments_of_tuple_7_mut<
    'a,
    A: IntoValMut,
    B: IntoValMut,
    C: IntoValMut,
    D: IntoValMut,
    E: IntoValMut,
    F: IntoValMut,
    G: IntoValMut,
>(t: &'a mut (A, B, C, D, E, F, G), h: Store)
    ensures
        t.count() == 7,
        ({
            let (h1, r0) = old(t).0.mut_to_val(h);
            let (h2, r1) = old(t).1.mut_to_val(h1);
            let (h3, r2) = old(t).2.mut_to_val(h2);
            let (h4, r3) = old(t).3.mut_to_val(h3);
            let (h5, r4) = old(t).4.mut_to_val(h4);
            let (h6, r5) = old(t).5.mut_to_val(h5);
            let (h7, r6) = old(t).6.mut_to_val(h6);
            &&& r0 is Err ==> {
                &&& t.offer(h).heap == h1
                &&& t.offer(h).slots.len() == 0
                &&& t.offer(h).outcome == Err::<(), GError>(r0->Err_0)
            }
            &&& r0 is Ok && r1 is Err ==> {
                &&& t.offer(h).heap == h2
                &&& t.offer(h).slots.len() == 0
                &&& t.offer(h).outcome == Err::<(), GError>(r1->Err_0)
            }
            &&& r0 is Ok && r1 is Ok && r2 is Err ==> {
                &&& t.offer(h).heap == h3
                &&& t.offer(h).slots.len() == 0
                &&& t.offer(h).outcome == Err::<(), GError>(r2->Err_0)
            }
            &&& r0 is Ok && r1 is Ok && r2 is Ok && r3 is Err ==> {
                &&& t.offer(h).heap == h4
                &&& t.offer(h).slots.len() == 0
                &&& t.offer(h).outcome == Err::<(), GError>(r3->Err_0)
            }
            &&& r0 is Ok && r1 is Ok && r2 is Ok && r3 is Ok && r4 is Err ==> {
                &&& t.offer(h).heap == h5
                &&& t.offer(h).slots.len() == 0
                &&& t.offer(h).outcome == Err::<(), GError>(r4->Err_0)
            }
            &&& r0 is Ok && r1 is Ok && r2 is Ok && r3 is Ok && r4 is Ok && r5 is Err ==> {
                &&& t.offer(h).heap == h6
                &&& t.offer(h).slots.len() == 0
                &&& t.offer(h).outcome == Err::<(), GError>(r5->Err_0)
            }
            &&& r0 is Ok && r1 is Ok && r2 is Ok && r3 is Ok && r4 is Ok && r5 is Ok
                && r6 is Err ==> {
                &&& t.offer(h).heap == h7
                &&& t.offer(h).slots.len() == 0
                &&& t.offer(h).outcome == Err::<(), GError>(r6->Err_0)
            }
            &&& r0 is Ok && r1 is Ok && r2 is Ok && r3 is Ok && r4 is Ok && r5 is Ok
                && r6 is Ok ==> {
                &&& t.offer(h).heap == h7
                &&& t.offer(h).slots == seq![
                    r0->Ok_0.slot(),
                    r1->Ok_0.slot(),
                    r2->Ok_0.slot(),
                    r3->Ok_0.slot(),
                    r4->Ok_0.slot(),
                    r5->Ok_0.slot(),
                    r6->Ok_0.slot(),
                ]
                &&& t.offer(h).outcome is Ok
            }
            &&& r0 is Ok ==> t.nth(h, 0) == (h1, Ok::<Slot, GError>(r0->Ok_0.slot()))
            &&& r0 is Err ==> t.nth(h, 0) == (h1, Err::<Slot, GError>(r0->Err_0))
            &&& r0 is Ok && r1 is Ok ==> t.nth(h, 1) == (h2, Ok::<Slot, GError>(r1->Ok_0.slot()))
            &&& r0 is Ok && r1 is Err ==> t.nth(h, 1) == (h2, Err::<Slot, GError>(r1->Err_0))
            &&& r0 is Ok && r1 is Ok && r2 is Ok ==> t.nth(h, 2) == (
                h3,
                Ok::<Slot, GError>(r2->Ok_0.slot()),
            )
            &&& r0 is Ok && r1 is Ok && r2 is Err ==> t.nth(h, 2) == (
                h3,
                Err::<Slot, GError>(r2->Err_0),
            )
            &&& r0 is Ok && r1 is Ok && r2 is Ok && r3 is Ok ==> t.nth(h, 3) == (
                h4,
                Ok::<Slot, GError>(r3->Ok_0.slot()),
            )
            &&& r0 is Ok && r1 is Ok && r2 is Ok && r3 is Err ==> t.nth(h, 3) == (
                h4,
                Err::<Slot, GError>(r3->Err_0),
            )
            &&& r0 is Ok && r1 is Ok && r2 is Ok && r3 is Ok && r4 is Ok ==> t.nth(h, 4) == (
                h5,
                Ok::<Slot, GError>(r4->Ok_0.slot()),
            )
            &&& r0 is Ok && r1 is Ok && r2 is Ok && r3 is Ok && r4 is Err ==> t.nth(h, 4) == (
                h5,
                Err::<Slot, GError>(r4->Err_0),
            )
            &&& r0 is Ok && r1 is Ok && r2 is Ok && r3 is Ok && r4 is Ok && r5 is Ok
                ==> t.nth(h, 5) == (h6, Ok::<Slot, GError>(r5->Ok_0.slot()))
            &&& r0 is Ok && r1 is Ok && r2 is Ok && r3 is Ok && r4 is Ok && r5 is Err
                ==> t.nth(h, 5) == (h6, Err::<Slot, GError>(r5->Err_0))
            &&& r0 is Ok && r1 is Ok && r2 is Ok && r3 is Ok && r4 is Ok && r5 is Ok
                && r6 is Ok ==> t.nth(h, 6) == (h7, Ok::<Slot, GError>(r6->Ok_0.slot()))
            &&& r0 is Ok && r1 is Ok && r2 is Ok && r3 is Ok && r4 is Ok && r5 is Ok
                && r6 is Err ==> t.nth(h, 6) == (h7, Err::<Slot, GError>(r6->Err_0))
        }),
{
}

/// A tuple of 8 is 8 arguments: its fields are converted in their order, and the slots are those of
/// the fields, each in the place of its own. Where one fails, the first such is the reason, and
/// there are no slots at all.
pub proof fn law_arguments_of_tuple_8<
    A: IntoVal,
    B: IntoVal,
    C: IntoVal,
    D: IntoVal,
    E: IntoVal,
    F: IntoVal,
    G: IntoVal,
    H: IntoVal,
>(t: (A, B, C, D, E, F, G, H), h: Store)
    ensures
        t.count() == 8,
        ({
            let (h1, r0) = t.0.to_val(h);
            let (h2, r1) = t.1.to_val(h1);
            let (h3, r2) = t.2.to_val(h2);
            let (h4, r3) = t.3.to_val(h3);
            let (h5, r4) = t.4.to_val(h4);
            let (h6, r5) = t.5.to_val(h5);
            let (h7, r6) = t.6.to_val(h6);
            let (h8, r7) = t.7.to_val(h7);
            &&& r0 is Err ==> {
                &&& t.offer(h).heap == h1
                &&& t.offer(h).slots.len() == 0
                &&& t.offer(h).outcome == Err::<(), GError>(r0->Err_0)
            }
            &&& r0 is Ok && r1 is Err ==> {
                &&& t.offer(h).heap == h2
                &&& t.offer(h).slots.len() == 0
                &&& t.offer(h).outcome == Err::<(), GError>(r1->Err_0)
            }
            &&& r0 is Ok && r1 is Ok && r2 is Err ==> {
                &&& t.offer(h).heap == h3
                &&& t.offer(h).slots.len() == 0
                &&& t.offer(h).outcome == Err::<(), GError>(r2->Err_0)
            }
            &&& r0 is Ok && r1 is Ok && r2 is Ok && r3 is Err ==> {
                &&& t.offer(h).heap == h4
                &&& t.offer(h).slots.len() == 0
                &&& t.offer(h).outcome == Err::<(), GError>(r3->Err_0)
            }
            &&& r0 is Ok && r1 is Ok && r2 is Ok && r3 is Ok && r4 is Err ==> {
                &&& t.offer(h).heap == h5
                &&& t.offer(h).slots.len() == 0
                &&& t.offer(h).outcome == Err::<(), GError>(r4->Err_0)
            }
            &&& r0 is Ok && r1 is Ok && r2 is Ok && r3 is Ok && r4 is Ok && r5 is Err ==> {
                &&& t.offer(h).heap == h6
                &&& t.offer(h).slots.len() == 0
                &&& t.offer(h).outcome == Err::<(), GError>(r5->Err_0)
            }
            &&& r0 is Ok && r1 is Ok && r2 is Ok && r3 is Ok && r4 is Ok && r5 is Ok
                && r6 is Err ==> {
                &&& t.offer(h).heap == h7
                &&& t.offer(h).slots.len() == 0
                &&& t.offer(h).outcome == Err::<(), GError>(r6->Err_0)
            }
            &&& r0 is Ok && r1 is Ok && r2 is Ok && r3 is Ok && r4 is Ok && r5 is Ok
                && r6 is Ok && r7 is Err ==> {
                &&& t.offer(h).heap == h8
                &&& t.offer(h).slots.len() == 0
                &&& t.offer(h).outcome == Err::<(), GError>(r7->Err_0)
            }
            &&& r0 is Ok && r1 is Ok && r2 is Ok && r3 is Ok && r4 is Ok && r5 is Ok
                && r6 is Ok && r7 is Ok ==> {
                &&& t.offer(h).heap == h8
                &&& t.offer(h).slots == seq![
                    r0->Ok_0.slot(),
                    r1->Ok_0.slot(),
                    r2->Ok_0.slot(),
                    r3->Ok_0.slot(),
                    r4->Ok_0.slot(),
                    r5->Ok_0.slot(),
                    r6->Ok_0.slot(),
                    r7->Ok_0.slot(),
                ]
                &&& t.offer(h).outcome is Ok
            }
            &&& r0 is Ok ==> t.nth(h, 0) == (h1, Ok::<Slot, GError>(r0->Ok_0.slot()))
            &&& r0 is Err ==> t.nth(h, 0) == (h1, Err::<Slot, GError>(r0->Err_0))
            &&& r0 is Ok && r1 is Ok ==> t.nth(h, 1) == (h2, Ok::<Slot, GError>(r1->Ok_0.slot()))
            &&& r0 is Ok && r1 is Err ==> t.nth(h, 1) == (h2, Err::<Slot, GError>(r1->Err_0))
            &&& r0 is Ok && r1 is Ok && r2 is Ok ==> t.nth(h, 2) == (
                h3,
                Ok::<Slot, GError>(r2->Ok_0.slot()),
            )
            &&& r0 is Ok && r1 is Ok && r2 is Err ==> t.nth(h, 2) == (
                h3,
                Err::<Slot, GError>(r2->Err_0),
            )
            &&& r0 is Ok && r1 is Ok && r2 is Ok && r3 is Ok ==> t.nth(h, 3) == (
                h4,
                Ok::<Slot, GError>(r3->Ok_0.slot()),
            )
            &&& r0 is Ok && r1 is Ok && r2 is Ok && r3 is Err ==> t.nth(h, 3) == (
                h4,
                Err::<Slot, GError>(r3->Err_0),
            )
            &&& r0 is Ok && r1 is Ok && r2 is Ok && r3 is Ok && r4 is Ok ==> t.nth(h, 4) == (
                h5,
                Ok::<Slot, GError>(r4->Ok_0.slot()),
            )
            &&& r0 is Ok && r1 is Ok && r2 is Ok && r3 is Ok && r4 is Err ==> t.nth(h, 4) == (
                h5,
                Err::<Slot, GError>(r4->Err_0),
            )
            &&& r0 is Ok && r1 is Ok && r2 is Ok && r3 is Ok && r4 is Ok && r5 is Ok
                ==> t.nth(h, 5) == (h6, Ok::<Slot, GError>(r5->Ok_0.slot()))
            &&& r0 is Ok && r1 is Ok && r2 is Ok && r3 is Ok && r4 is Ok && r5 is Err
                ==> t.nth(h, 5) == (h6, Err::<Slot, GError>(r5->Err_0))
            &&& r0 is Ok && r1 is Ok && r2 is Ok && r3 is Ok && r4 is Ok && r5 is Ok
                && r6 is Ok ==> t.nth(h, 6) == (h7, Ok::<Slot, GError>(r6->Ok_0.slot()))
            &&& r0 is Ok && r1 is Ok && r2 is Ok && r3 is Ok && r4 is Ok && r5 is Ok
                && r6 is Err ==> t.nth(h, 6) == (h7, Err::<Slot, GError>(r6->Err_0))
            &&& r0 is Ok && r1 is Ok && r2 is Ok && r3 is Ok && r4 is Ok && r5 is Ok
                && r6 is Ok && r7 is Ok ==> t.nth(h, 7) == (h8, Ok::<Slot, GError>(r7->Ok_0.slot()))
            &&& r0 is Ok && r1 is Ok && r2 is Ok && r3 is Ok && r4 is Ok && r5 is Ok
                && r6 is Ok && r7 is Err ==> t.nth(h, 7) == (h8, Err::<Slot, GError>(r7->Err_0))
        }),
{
}

/// The same by shared reference.
pub proof fn law_arguments_of_tuple_8_ref<'a, A, B, C, D, E, F, G, H>(
    t: &'a (A, B, C, D, E, F, G, H),
    h: Store,
) where &'a A: IntoVal, &'a B: IntoVal, &'a C: IntoVal, &'a D: IntoVal, &'a E: IntoVal,
    &'a F: IntoVal, &'a G: IntoVal, &'a H: IntoVal,
    ensures
        t.count() == 8,
        ({
            let (h1, r0) = (&t.0).to_val(h);
            let (h2, r1) = (&t.1).to_val(h1);
            let (h3, r2) = (&t.2).to_val(h2);
            let (h4, r3) = (&t.3).to_val(h3);
            let (h5, r4) = (&t.4).to_val(h4);
            let (h6, r5) = (&t.5).to_val(h5);
            let (h7, r6) = (&t.6).to_val(h6);
            let (h8, r7) = (&t.7).to_val(h7);
            &&& r0 is Err ==> {
                &&& t.offer(h).heap == h1
                &&& t.offer(h).slots.len() == 0
                &&& t.offer(h).outcome == Err::<(), GError>(r0->Err_0)
            }
            &&& r0 is Ok && r1 is Err ==> {
                &&& t.offer(h).heap == h2
                &&& t.offer(h).slots.len() == 0
                &&& t.offer(h).outcome == Err::<(), GError>(r1->Err_0)
            }
            &&& r0 is Ok && r1 is Ok && r2 is Err ==> {
                &&& t.offer(h).heap == h3
                &&& t.offer(h).slots.len() == 0
                &&& t.offer(h).outcome == Err::<(), GError>(r2->Err_0)
            }
            &&& r0 is Ok && r1 is Ok && r2 is Ok && r3 is Err ==> {
                &&& t.offer(h).heap == h4
                &&& t.offer(h).slots.len() == 0
                &&& t.offer(h).outcome == Err::<(), GError>(r3->Err_0)
            }
            &&& r0 is Ok && r1 is Ok && r2 is Ok && r3 is Ok && r4 is Err ==> {
                &&& t.offer(h).heap == h5
                &&& t.offer(h).slots.len() == 0
                &&& t.offer(h).outcome == Err::<(), GError>(r4->Err_0)
            }
            &&& r0 is Ok && r1 is Ok && r2 is Ok && r3 is Ok && r4 is Ok && r5 is Err ==> {
                &&& t.offer(h).heap == h6
                &&& t.offer(h).slots.len() == 0
                &&& t.offer(h).outcome == Err::<(), GError>(r5->Err_0)
            }
            &&& r0 is Ok && r1 is Ok && r2 is Ok && r3 is Ok && r4 is Ok && r5 is Ok
                && r6 is Err ==> {
                &&& t.offer(h).heap == h7
                &&& t.offer(h).slots.len() == 0
                &&& t.offer(h).outcome == Err::<(), GError>(r6->Err_0)
            }
            &&& r0 is Ok && r1 is Ok && r2 is Ok && r3 is Ok && r4 is Ok && r5 is Ok
                && r6 is Ok && r7 is Err ==> {
                &&& t.offer(h).heap == h8
                &&& t.offer(h).slots.len() == 0
                &&& t.offer(h).outcome == Err::<(), GError>(r7->Err_0)
            }
            &&& r0 is Ok && r1 is Ok && r2 is Ok && r3 is Ok && r4 is Ok && r5 is Ok
                && r6 is Ok && r7 is Ok ==> {
                &&& t.offer(h).heap == h8
                &&& t.offer(h).slots == seq![
                    r0->Ok_0.slot(),
                    r1->Ok_0.slot(),
                    r2->Ok_0.slot(),
                    r3->Ok_0.slot(),
                    r4->Ok_0.slot(),
                    r5->Ok_0.slot(),
                    r6->Ok_0.slot(),
                    r7->Ok_0.slot(),
                ]
                &&& t.offer(h).outcome is Ok
            }
            &&& r0 is Ok ==> t.nth(h, 0) == (h1, Ok::<Slot, GError>(r0->Ok_0.slot()))
            &&& r0 is Err ==> t.nth(h, 0) == (h1, Err::<Slot, GError>(r0->Err_0))
            &&& r0 is Ok && r1 is Ok ==> t.nth(h, 1) == (h2, Ok::<Slot, GError>(r1->Ok_0.slot()))
            &&& r0 is Ok && r1 is Err ==> t.nth(h, 1) == (h2, Err::<Slot, GError>(r1->Err_0))
            &&& r0 is Ok && r1 is Ok && r2 is Ok ==> t.nth(h, 2) == (
                h3,
                Ok::<Slot, GError>(r2->Ok_0.slot()),
            )
            &&& r0 is Ok && r1 is Ok && r2 is Err ==> t.nth(h, 2) == (
                h3,
                Err::<Slot, GError>(r2->Err_0),
            )
            &&& r0 is Ok && r1 is Ok && r2 is Ok && r3 is Ok ==> t.nth(h, 3) == (
                h4,
                Ok::<Slot, GError>(r3->Ok_0.slot()),
            )
            &&& r0 is Ok && r1 is Ok && r2 is Ok && r3 is Err ==> t.nth(h, 3) == (
                h4,
                Err::<Slot, GError>(r3->Err_0),
            )
            &&& r0 is Ok && r1 is Ok && r2 is Ok && r3 is Ok && r4 is Ok ==> t.nth(h, 4) == (
                h5,
                Ok::<Slot, GError>(r4->Ok_0.slot()),
            )
            &&& r0 is Ok && r1 is Ok && r2 is Ok && r3 is Ok && r4 is Err ==> t.nth(h, 4) == (
                h5,
                Err::<Slot, GError>(r4->Err_0),
            )
            &&& r0 is Ok && r1 is Ok && r2 is Ok && r3 is Ok && r4 is Ok && r5 is Ok
                ==> t.nth(h, 5) == (h6, Ok::<Slot, GError>(r5->Ok_0.slot()))
            &&& r0 is Ok && r1 is Ok && r2 is Ok && r3 is Ok && r4 is Ok && r5 is Err
                ==> t.nth(h, 5) == (h6, Err::<Slot, GError>(r5->Err_0))
            &&& r0 is Ok && r1 is Ok && r2 is Ok && r3 is Ok && r4 is Ok && r5 is Ok
                && r6 is Ok ==> t.nth(h, 6) == (h7, Ok::<Slot, GError>(r6->Ok_0.slot()))
            &&& r0 is Ok && r1 is Ok && r2 is Ok && r3 is Ok && r4 is Ok && r5 is Ok
                && r6 is Err ==> t.nth(h, 6) == (h7, Err::<Slot, GError>(r6->Err_0))
            &&& r0 is Ok && r1 is Ok && r2 is Ok && r3 is Ok && r4 is Ok && r5 is Ok
                && r6 is Ok && r7 is Ok ==> t.nth(h, 7) == (h8, Ok::<Slot, GError>(r7->Ok_0.slot()))
            &&& r0 is Ok && r1 is Ok && r2 is Ok && r3 is Ok && r4 is Ok && r5 is Ok
                && r6 is Ok && r7 is Err ==> t.nth(h, 7) == (h8, Err::<Slot, GError>(r7->Err_0))
        }),
{
}

/// The same by mutable reference.
pub proof fn law_arguments_of_tuple_8_mut<
    'a,
    A: IntoValMut,
    B: IntoValMut,
    C: IntoValMut,
    D: IntoValMut,
    E: IntoValMut,
    F: IntoValMut,
    G: IntoValMut,
    H: IntoValMut,
>(t: &'a mut (A, B, C, D, E, F, G, H), h: Store)
    ensures
        t.count() == 8,
        ({
            let (h1, r0) = old(t).0.mut_to_val(h);
            let (h2, r1) = old(t).1.mut_to_val(h1);
            let (h3, r2) = old(t).2.mut_to_val(h2);
            let (h4, r3) = old(t).3.mut_to_val(h3);
            let (h5, r4) = old(t).4.mut_to_val(h4);
            let (h6, r5) = old(t).5.mut_to_val(h5);
            let (h7, r6) = old(t).6.mut_to_val(h6);
            let (h8, r7) = old(t).7.mut_to_val(h7);
            &&& r0 is Err ==> {
                &&& t.offer(h).heap == h1
                &&& t.offer(h).slots.len() == 0
                &&& t.offer(h).outcome == Err::<(), GError>(r0->Err_0)
            }
            &&& r0 is Ok && r1 is Err ==> {
                &&& t.offer(h).heap == h2
                &&& t.offer(h).slots.len() == 0
                &&& t.offer(h).outcome == Err::<(), GError>(r1->Err_0)
            }
            &&& r0 is Ok && r1 is Ok && r2 is Err ==> {
                &&& t.offer(h).heap == h3
                &&& t.offer(h).slots.len() == 0
                &&& t.offer(h).outcome == Err::<(), GError>(r2->Err_0)
            }
            &&& r0 is Ok && r1 is Ok && r2 is Ok && r3 is Err ==> {
                &&& t.offer(h).heap == h4
                &&& t.offer(h).slots.len() == 0
                &&& t.offer(h).outcome == Err::<(), GError>(r3->Err_0)
            }
            &&& r0 is Ok && r1 is Ok && r2 is Ok && r3 is Ok && r4 is Err ==> {
                &&& t.offer(h).heap == h5
                &&& t.offer(h).slots.len() == 0
                &&& t.offer(h).outcome == Err::<(), GError>(r4->Err_0)
            }
            &&& r0 is Ok && r1 is Ok && r2 is Ok && r3 is Ok && r4 is Ok && r5 is Err ==> {
                &&& t.offer(h).heap == h6
                &&& t.offer(h).slots.len() == 0
                &&& t.offer(h).outcome == Err::<(), GError>(r5->Err_0)
            }
            &&& r0 is Ok && r1 is Ok && r2 is Ok && r3 is Ok && r4 is Ok && r5 is Ok
                && r6 is Err ==> {
                &&& t.offer(h).heap == h7
                &&& t.offer(h).slots.len() == 0
                &&& t.offer(h).outcome == Err::<(), GError>(r6->Err_0)
            }
            &&& r0 is Ok && r1 is Ok && r2 is Ok && r3 is Ok && r4 is Ok && r5 is Ok
                && r6 is Ok && r7 is Err ==> {
                &&& t.offer(h).heap == h8
                &&& t.offer(h).slots.len() == 0
                &&& t.offer(h).outcome == Err::<(), GError>(r7->Err_0)
            }
            &&& r0 is Ok && r1 is Ok && r2 is Ok && r3 is Ok && r4 is Ok && r5 is Ok
                && r6 is Ok && r7 is Ok ==> {
                &&& t.offer(h).heap == h8
                &&& t.offer(h).slots == seq![
                    r0->Ok_0.slot(),
                    r1->Ok_0.slot(),
                    r2->Ok_0.slot(),
                    r3->Ok_0.slot(),
                    r4->Ok_0.slot(),
                    r5->Ok_0.slot(),
                    r6->Ok_0.slot(),
                    r7->Ok_0.slot(),
                ]
                &&& t.offer(h).outcome is Ok
            }
            &&& r0 is Ok ==> t.nth(h, 0) == (h1, Ok::<Slot, GError>(r0->Ok_0.slot()))
            &&& r0 is Err ==> t.nth(h, 0) == (h1, Err::<Slot, GError>(r0->Err_0))
            &&& r0 is Ok && r1 is Ok ==> t.nth(h, 1) == (h2, Ok::<Slot, GError>(r1->Ok_0.slot()))
            &&& r0 is Ok && r1 is Err ==> t.nth(h, 1) == (h2, Err::<Slot, GError>(r1->Err_0))
            &&& r0 is Ok && r1 is Ok && r2 is Ok ==> t.nth(h, 2) == (
                h3,
                Ok::<Slot, GError>(r2->Ok_0.slot()),
            )
            &&& r0 is Ok && r1 is Ok && r2 is Err ==> t.nth(h, 2) == (
                h3,
                Err::<Slot, GError>(r2->Err_0),
            )
            &&& r0 is Ok && r1 is Ok && r2 is Ok && r3 is Ok ==> t.nth(h, 3) == (
                h4,
                Ok::<Slot, GError>(r3->Ok_0.slot()),
            )
            &&& r0 is Ok && r1 is Ok && r2 is Ok && r3 is Err ==> t.nth(h, 3) == (
                h4,
                Err::<Slot, GError>(r3->Err_0),
            )
            &&& r0 is Ok && r1 is Ok && r2 is Ok && r3 is Ok && r4 is Ok ==> t.nth(h, 4) == (
                h5,
                Ok::<Slot, GError>(r4->Ok_0.slot()),
            )
            &&& r0 is Ok && r1 is Ok && r2 is Ok && r3 is Ok && r4 is Err ==> t.nth(h, 4) == (
                h5,
                Err::<Slot, GError>(r4->Err_0),
            )
            &&& r0 is Ok && r1 is Ok && r2 is Ok && r3 is Ok && r4 is Ok && r5 is Ok
                ==> t.nth(h, 5) == (h6, Ok::<Slot, GError>(r5->Ok_0.slot()))
            &&& r0 is Ok && r1 is Ok && r2 is Ok && r3 is Ok && r4 is Ok && r5 is Err
                ==> t.nth(h, 5) == (h6, Err::<Slot, GError>(r5->Err_0))
            &&& r0 is Ok && r1 is Ok && r2 is Ok && r3 is Ok && r4 is Ok && r5 is Ok
                && r6 is Ok ==> t.nth(h, 6) == (h7, Ok::<Slot, GError>(r6->Ok_0.slot()))
            &&& r0 is Ok && r1 is Ok && r2 is Ok && r3 is Ok && r4 is Ok && r5 is Ok
                && r6 is Err ==> t.nth(h, 6) == (h7, Err::<Slot, GError>(r6->Err_0))
            &&& r0 is Ok && r1 is Ok && r2 is Ok && r3 is Ok && r4 is Ok && r5 is Ok
                && r6 is Ok && r7 is Ok ==> t.nth(h, 7) == (h8, Ok::<Slot, GError>(r7->Ok_0.slot()))
            &&& r0 is Ok && r1 is Ok && r2 is Ok && r3 is Ok && r4 is Ok && r5 is Ok
                && r6 is Ok && r7 is Err ==> t.nth(h, 7) == (h8, Err::<Slot, GError>(r7->Err_0))
        }),
{
}

/// A tuple of 9 is 9 arguments: its fields are converted in their order, and the slots are those of
/// the fields, each in the place of its own. Where one fails, the first such is the reason, and
/// there are no slots at all.
pub proof fn law_arguments_of_tuple_9<
    A: IntoVal,
    B: IntoVal,
    C: IntoVal,
    D: IntoVal,
    E: IntoVal,
    F: IntoVal,
    G: IntoVal,
    H: IntoVal,
    I: IntoVal,
>(t: (A, B, C, D, E, F, G, H, I), h: Store)
    ensures
        t.count() == 9,
        ({
            let (h1, r0) = t.0.to_val(h);
            let (h2, r1) = t.1.to_val(h1);
            let (h3, r2) = t.2.to_val(h2);
            let (h4, r3) = t.3.to_val(h3);
            let (h5, r4) = t.4.to_val(h4);
            let (h6, r5) = t.5.to_val(h5);
            let (h7, r6) = t.6.to_val(h6);
            let (h8, r7) = t.7.to_val(h7);
            let (h9, r8) = t.8.to_val(h8);
            &&& r0 is Err ==> {
                &&& t.offer(h).heap == h1
                &&& t.offer(h).slots.len() == 0
                &&& t.offer(h).outcome == Err::<(), GError>(r0->Err_0)
            }
            &&& r0 is Ok && r1 is Err ==> {
                &&& t.offer(h).heap == h2
                &&& t.offer(h).slots.len() == 0
                &&& t.offer(h).outcome == Err::<(), GError>(r1->Err_0)
            }
            &&& r0 is Ok && r1 is Ok && r2 is Err ==> {
                &&& t.offer(h).heap == h3
                &&& t.offer(h).slots.len() == 0
                &&& t.offer(h).outcome == Err::<(), GError>(r2->Err_0)
            }
            &&& r0 is Ok && r1 is Ok && r2 is Ok && r3 is Err ==> {
                &&& t.offer(h).heap == h4
                &&& t.offer(h).slots.len() == 0
                &&& t.offer(h).outcome == Err::<(), GError>(r3->Err_0)
            }
            &&& r0 is Ok && r1 is Ok && r2 is Ok && r3 is Ok && r4 is Err ==> {
                &&& t.offer(h).heap == h5
                &&& t.offer(h).slots.len() == 0
                &&& t.offer(h).outcome == Err::<(), GError>(r4->Err_0)
            }
            &&& r0 is Ok && r1 is Ok && r2 is Ok && r3 is Ok && r4 is Ok && r5 is Err ==> {
                &&& t.offer(h).heap == h6
                &&& t.offer(h).slots.len() == 0
                &&& t.offer(h).outcome == Err::<(), GError>(r5->Err_0)
            }
            &&& r0 is Ok && r1 is Ok && r2 is Ok && r3 is Ok && r4 is Ok && r5 is Ok
                && r6 is Err ==> {
                &&& t.offer(h).heap == h7
                &&& t.offer(h).slots.len() == 0
                &&& t.offer(h).outcome == Err::<(), GError>(r6->Err_0)
            }
            &&& r0 is Ok && r1 is Ok && r2 is Ok && r3 is Ok && r4 is Ok && r5 is Ok
                && r6 is Ok && r7 is Err ==> {
                &&& t.offer(h).heap == h8
                &&& t.offer(h).slots.len() == 0
                &&& t.offer(h).outcome == Err::<(), GError>(r7->Err_0)
            }
            &&& r0 is Ok && r1 is Ok && r2 is Ok && r3 is Ok && r4 is Ok && r5 is Ok
                && r6 is Ok && r7 is Ok && r8 is Err ==> {
                &&& t.offer(h).heap == h9
                &&& t.offer(h).slots.len() == 0
                &&& t.offer(h).outcome == Err::<(), GError>(r8->Err_0)
            }
            &&& r0 is Ok && r1 is Ok && r2 is Ok && r3 is Ok && r4 is Ok && r5 is Ok
                && r6 is Ok && r7 is Ok && r8 is Ok ==> {
                &&& t.offer(h).heap == h9
                &&& t.offer(h).slots == seq![
                    r0->Ok_0.slot(),
                    r1->Ok_0.slot(),
                    r2->Ok_0.slot(),
                    r3->Ok_0.slot(),
                    r4->Ok_0.slot(),
                    r5->Ok_0.slot(),
                    r6->Ok_0.slot(),
                    r7->Ok_0.slot(),
                    r8->Ok_0.slot(),
                ]
                &&& t.offer(h).outcome is Ok
            }
            &&& r0 is Ok ==> t.nth(h, 0) == (h1, Ok::<Slot, GError>(r0->Ok_0.slot()))
            &&& r0 is Err ==> t.nth(h, 0) == (h1, Err::<Slot, GError>(r0->Err_0))
            &&& r0 is Ok && r1 is Ok ==> t.nth(h, 1) == (h2, Ok::<Slot, GError>(r1->Ok_0.slot()))
            &&& r0 is Ok && r1 is Err ==> t.nth(h, 1) == (h2, Err::<Slot, GError>(r1->Err_0))
            &&& r0 is Ok && r1 is Ok && r2 is Ok ==> t.nth(h, 2) == (
                h3,
                Ok::<Slot, GError>(r2->Ok_0.slot()),
            )
            &&& r0 is Ok && r1 is Ok && r2 is Err ==> t.nth(h, 2) == (
                h3,
                Err::<Slot, GError>(r2->Err_0),
            )
            &&& r0 is Ok && r1 is Ok && r2 is Ok && r3 is Ok ==> t.nth(h, 3) == (
                h4,
                Ok::<Slot, GError>(r3->Ok_0.slot()),
            )
            &&& r0 is Ok && r1 is Ok && r2 is Ok && r3 is Err ==> t.nth(h, 3) == (
                h4,
                Err::<Slot, GError>(r3->Err_0),
            )
            &&& r0 is Ok && r1 is Ok && r2 is Ok && r3 is Ok && r4 is Ok ==> t.nth(h, 4) == (
                h5,
                Ok::<Slot, GError>(r4->Ok_0.slot()),
            )
            &&& r0 is Ok && r1 is Ok && r2 is Ok && r3 is Ok && r4 is Err ==> t.nth(h, 4) == (
                h5,
                Err::<Slot, GError>(r4->Err_0),
            )
            &&& r0 is Ok && r1 is Ok && r2 is Ok && r3 is Ok && r4 is Ok && r5 is Ok
                ==> t.nth(h, 5) == (h6, Ok::<Slot, GError>(r5->Ok_0.slot()))
            &&& r0 is Ok && r1 is Ok && r2 is Ok && r3 is Ok && r4 is Ok && r5 is Err
                ==> t.nth(h, 5) == (h6, Err::<Slot, GError>(r5->Err_0))
            &&& r0 is Ok && r1 is Ok && r2 is Ok && r3 is Ok && r4 is Ok && r5 is Ok
                && r6 is Ok ==> t.nth(h, 6) == (h7, Ok::<Slot, GError>(r6->Ok_0.slot()))
            &&& r0 is Ok && r1 is Ok && r2 is Ok && r3 is Ok && r4 is Ok && r5 is Ok
                && r6 is Err ==> t.nth(h, 6) == (h7, Err::<Slot, GError>(r6->Err_0))
            &&& r0 is Ok && r1 is Ok && r2 is Ok && r3 is Ok && r4 is Ok && r5 is Ok
                && r6 is Ok && r7 is Ok ==> t.nth(h, 7) == (h8, Ok::<Slot, GError>(r7->Ok_0.slot()))
            &&& r0 is Ok && r1 is Ok && r2 is Ok && r3 is Ok && r4 is Ok && r5 is Ok
                && r6 is Ok && r7 is Err ==> t.nth(h, 7) == (h8, Err::<Slot, GError>(r7->Err_0))
            &&& r0 is Ok && r1 is Ok && r2 is Ok && r3 is Ok && r4 is Ok && r5 is Ok
                && r6 is Ok && r7 is Ok && r8 is Ok ==> t.nth(h, 8)
                == (h9, Ok::<Slot, GError>(r8->Ok_0.slot()))
            &&& r0 is Ok && r1 is Ok && r2 is Ok && r3 is Ok && r4 is Ok && r5 is Ok
                && r6 is Ok && r7 is Ok && r8 is Err ==> t.nth(h, 8)
                == (h9, Err::<Slot, GError>(r8->Err_0))
        }),
{
}

/// The same by shared reference.
pub proof fn law_arguments_of_tuple_9_ref<'a, A, B, C, D, E, F, G, H, I>(
    t: &'a (A, B, C, D, E, F, G, H, I),
    h: Store,
) where &'a A: IntoVal, &'a B: IntoVal, &'a C: IntoVal, &'a D: IntoVal, &'a E: IntoVal,
    &'a F: IntoVal, &'a G: IntoVal, &'a H: IntoVal, &'a I: IntoVal,
    ensures
        t.count() == 9,
        ({
            let (h1, r0) = (&t.0).to_val(h);
            let (h2, r1) = (&t.1).to_val(h1);
            let (h3, r2) = (&t.2).to_val(h2);
            let (h4, r3) = (&t.3).to_val(h3);
            let (h5, r4) = (&t.4).to_val(h4);
            let (h6, r5) = (&t.5).to_val(h5);
            let (h7, r6) = (&t.6).to_val(h6);
            let (h8, r7) = (&t.7).to_val(h7);
            let (h9, r8) = (&t.8).to_val(h8);
            &&& r0 is Err ==> {
                &&& t.offer(h).heap == h1
                &&& t.offer(h).slots.len() == 0
                &&& t.offer(h).outcome == Err::<(), GError>(r0->Err_0)
            }
            &&& r0 is Ok && r1 is Err ==> {
                &&& t.offer(h).heap == h2
                &&& t.offer(h).slots.len() == 0
                &&& t.offer(h).outcome == Err::<(), GError>(r1->Err_0)
            }
            &&& r0 is Ok && r1 is Ok && r2 is Err ==> {
                &&& t.offer(h).heap == h3
                &&& t.offer(h).slots.len() == 0
                &&& t.offer(h).outcome == Err::<(), GError>(r2->Err_0)
            }
            &&& r0 is Ok && r1 is Ok && r2 is Ok && r3 is Err ==> {
                &&& t.offer(h).heap == h4
                &&& t.offer(h).slots.len() == 0
                &&& t.offer(h).outcome == Err::<(), GError>(r3->Err_0)
            }
            &&& r0 is Ok && r1 is Ok && r2 is Ok && r3 is Ok && r4 is Err ==> {
                &&& t.offer(h).heap == h5
                &&& t.offer(h).slots.len() == 0
                &&& t.offer(h).outcome == Err::<(), GError>(r4->Err_0)
            }
            &&& r0 is Ok && r1 is Ok && r2 is Ok && r3 is Ok && r4 is Ok && r5 is Err ==> {
                &&& t.offer(h).heap == h6
                &&& t.offer(h).slots.len() == 0
                &&& t.offer(h).outcome == Err::<(), GError>(r5->Err_0)
            }
            &&& r0 is Ok && r1 is Ok && r2 is Ok && r3 is Ok && r4 is Ok && r5 is Ok
                && r6 is Err ==> {
                &&& t.offer(h).heap == h7
                &&& t.offer(h).slots.len() == 0
                &&& t.offer(h).outcome == Err::<(), GError>(r6->Err_0)
            }
            &&& r0 is Ok && r1 is Ok && r2 is Ok && r3 is Ok && r4 is Ok && r5 is Ok
                && r6 is Ok && r7 is Err ==> {
                &&& t.offer(h).heap == h8
                &&& t.offer(h).slots.len() == 0
                &&& t.offer(h).outcome == Err::<(), GError>(r7->Err_0)
            }
            &&& r0 is Ok && r1 is Ok && r2 is Ok && r3 is Ok && r4 is Ok && r5 is Ok
                && r6 is Ok && r7 is Ok && r8 is Err ==> {
                &&& t.offer(h).heap == h9
                &&& t.offer(h).slots.len() == 0
                &&& t.offer(h).outcome == Err::<(), GError>(r8->Err_0)
            }
            &&& r0 is Ok && r1 is Ok && r2 is Ok && r3 is Ok && r4 is Ok && r5 is Ok
                && r6 is Ok && r7 is Ok && r8 is Ok ==> {
                &&& t.offer(h).heap == h9
                &&& t.offer(h).slots == seq![
                    r0->Ok_0.slot(),
                    r1->Ok_0.slot(),
                    r2->Ok_0.slot(),
                    r3->Ok_0.slot(),
                    r4->Ok_0.slot(),
                    r5->Ok_0.slot(),
                    r6->Ok_0.slot(),
                    r7->Ok_0.slot(),
                    r8->Ok_0.slot(),
                ]
                &&& t.offer(h).outcome is Ok
            }
            &&& r0 is Ok ==> t.nth(h, 0) == (h1, Ok::<Slot, GError>(r0->Ok_0.slot()))
            &&& r0 is Err ==> t.nth(h, 0) == (h1, Err::<Slot, GError>(r0->Err_0))
            &&& r0 is Ok && r1 is Ok ==> t.nth(h, 1) == (h2, Ok::<Slot, GError>(r1->Ok_0.slot()))
            &&& r0 is Ok && r1 is Err ==> t.nth(h, 1) == (h2, Err::<Slot, GError>(r1->Err_0))
            &&& r0 is Ok && r1 is Ok && r2 is Ok ==> t.nth(h, 2) == (
                h3,
                Ok::<Slot, GError>(r2->Ok_0.slot()),
            )
            &&& r0 is Ok && r1 is Ok && r2 is Err ==> t.nth(h, 2) == (
                h3,
                Err::<Slot, GError>(r2->Err_0),
            )
            &&& r0 is Ok && r1 is Ok && r2 is Ok && r3 is Ok ==> t.nth(h, 3) == (
                h4,
                Ok::<Slot, GError>(r3->Ok_0.slot()),
            )
            &&& r0 is Ok && r1 is Ok && r2 is Ok && r3 is Err ==> t.nth(h, 3) == (
                h4,
                Err::<Slot, GError>(r3->Err_0),
            )
            &&& r0 is Ok && r1 is Ok && r2 is Ok && r3 is Ok && r4 is Ok ==> t.nth(h, 4) == (
                h5,
                Ok::<Slot, GError>(r4->Ok_0.slot()),
            )
            &&& r0 is Ok && r1 is Ok && r2 is Ok && r3 is Ok && r4 is Err ==> t.nth(h, 4) == (
                h5,
                Err::<Slot, GError>(r4->Err_0),
            )
            &&& r0 is Ok && r1 is Ok && r2 is Ok && r3 is Ok && r4 is Ok && r5 is Ok
                ==> t.nth(h, 5) == (h6, Ok::<Slot, GError>(r5->Ok_0.slot()))
            &&& r0 is Ok && r1 is Ok && r2 is Ok && r3 is Ok && r4 is Ok && r5 is Err
                ==> t.nth(h, 5) == (h6, Err::<Slot, GError>(r5->Err_0))
            &&& r0 is Ok && r1 is Ok && r2 is Ok && r3 is Ok && r4 is Ok && r5 is Ok
                && r6 is Ok ==> t.nth(h, 6) == (h7, Ok::<Slot, GError>(r6->Ok_0.slot()))
            &&& r0 is Ok && r1 is Ok && r2 is Ok && r3 is Ok && r4 is Ok && r5 is Ok
                && r6 is Err ==> t.nth(h, 6) == (h7, Err::<Slot, GError>(r6->Err_0))
            &&& r0 is Ok && r1 is Ok && r2 is Ok && r3 is Ok && r4 is Ok && r5 is Ok
                && r6 is Ok && r7 is Ok ==> t.nth(h, 7) == (h8, Ok::<Slot, GError>(r7->Ok_0.slot()))
            &&& r0 is Ok && r1 is Ok && r2 is Ok && r3 is Ok && r4 is Ok && r5 is Ok
                && r6 is Ok && r7 is Err ==> t.nth(h, 7) == (h8, Err::<Slot, GError>(r7->Err_0))
            &&& r0 is Ok && r1 is Ok && r2 is Ok && r3 is Ok && r4 is Ok && r5 is Ok
                && r6 is Ok && r7 is Ok && r8 is Ok ==> t.nth(h, 8)
                == (h9, Ok::<Slot, GError>(r8->Ok_0.slot()))
            &&& r0 is Ok && r1 is Ok && r2 is Ok && r3 is Ok && r4 is Ok && r5 is Ok
                && r6 is Ok && r7 is Ok && r8 is Err ==> t.nth(h, 8)
                == (h9, Err::<Slot, GError>(r8->Err_0))
        }),
{
}

/// The same by mutable reference.
pub proof fn law_arguments_of_tuple_9_mut<
    'a,
    A: IntoValMut,
    B: IntoValMut,
    C: IntoValMut,
    D: IntoValMut,
    E: IntoValMut,
    F: IntoValMut,
    G: IntoValMut,
    H: IntoValMut,
    I: IntoValMut,
>(t: &'a mut (A, B, C, D, E, F, G, H, I), h: Store)
    ensures
        t.count() == 9,
        ({
            let (h1, r0) = old(t).0.mut_to_val(h);
            let (h2, r1) = old(t).1.mut_to_val(h1);
            let (h3, r2) = old(t).2.mut_to_val(h2);
            let (h4, r3) = old(t).3.mut_to_val(h3);
            let (h5, r4) = old(t).4.mut_to_val(h4);
            let (h6, r5) = old(t).5.mut_to_val(h5);
            let (h7, r6) = old(t).6.mut_to_val(h6);
            let (h8, r7) = old(t).7.mut_to_val(h7);
            let (h9, r8) = old(t).8.mut_to_val(h8);
            &&& r0 is Err ==> {
                &&& t.offer(h).heap == h1
                &&& t.offer(h).slots.len() == 0
                &&& t.offer(h).outcome == Err::<(), GError>(r0->Err_0)
            }
            &&& r0 is Ok && r1 is Err ==> {
                &&& t.offer(h).heap == h2
                &&& t.offer(h).slots.len() == 0
                &&& t.offer(h).outcome == Err::<(), GError>(r1->Err_0)
            }
            &&& r0 is Ok && r1 is Ok && r2 is Err ==> {
                &&& t.offer(h).heap == h3
                &&& t.offer(h).slots.len() == 0
                &&& t.offer(h).outcome == Err::<(), GError>(r2->Err_0)
            }
            &&& r0 is Ok && r1 is Ok && r2 is Ok && r3 is Err ==> {
                &&& t.offer(h).heap == h4
                &&& t.offer(h).slots.len() == 0
                &&& t.offer(h).outcome == Err::<(), GError>(r3->Err_0)
            }
            &&& r0 is Ok && r1 is Ok && r2 is Ok && r3 is Ok && r4 is Err ==> {
                &&& t.offer(h).heap == h5
                &&& t.offer(h).slots.len() == 0
                &&& t.offer(h).outcome == Err::<(), GError>(r4->Err_0)
            }
            &&& r0 is Ok && r1 is Ok && r2 is Ok && r3 is Ok && r4 is Ok && r5 is Err ==> {
                &&& t.offer(h).heap == h6
                &&& t.offer(h).slots.len() == 0
                &&& t.offer(h).outcome == Err::<(), GError>(r5->Err_0)
            }
            &&& r0 is Ok && r1 is Ok && r2 is Ok && r3 is Ok && r4 is Ok && r5 is Ok
                && r6 is Err ==> {
                &&& t.offer(h).heap == h7
                &&& t.offer(h).slots.len() == 0
                &&& t.offer(h).outcome == Err::<(), GError>(r6->Err_0)
            }
            &&& r0 is Ok && r1 is Ok && r2 is Ok && r3 is Ok && r4 is Ok && r5 is Ok
                && r6 is Ok && r7 is Err ==> {
                &&& t.offer(h).heap == h8
                &&& t.offer(h).slots.len() == 0
                &&& t.offer(h).outcome == Err::<(), GError>(r7->Err_0)
            }
            &&& r0 is Ok && r1 is Ok && r2 is Ok && r3 is Ok && r4 is Ok && r5 is Ok
                && r6 is Ok && r7 is Ok && r8 is Err ==> {
                &&& t.offer(h).heap == h9
                &&& t.offer(h).slots.len() == 0
                &&& t.offer(h).outcome == Err::<(), GError>(r8->Err_0)
            }
            &&& r0 is Ok && r1 is Ok && r2 is Ok && r3 is Ok && r4 is Ok && r5 is Ok
                && r6 is Ok && r7 is Ok && r8 is Ok ==> {
                &&& t.offer(h).heap == h9
                &&& t.offer(h).slots == seq![
                    r0->Ok_0.slot(),
                    r1->Ok_0.slot(),
                    r2->Ok_0.slot(),
                    r3->Ok_0.slot(),
                    r4->Ok_0.slot(),
                    r5->Ok_0.slot(),
                    r6->Ok_0.slot(),
                    r7->Ok_0.slot(),
                    r8->Ok_0.slot(),
                ]
                &&& t.offer(h).outcome is Ok
            }
            &&& r0 is Ok ==> t.nth(h, 0) == (h1, Ok::<Slot, GError>(r0->Ok_0.slot()))
            &&& r0 is Err ==> t.nth(h, 0) == (h1, Err::<Slot, GError>(r0->Err_0))
            &&& r0 is Ok && r1 is Ok ==> t.nth(h, 1) == (h2, Ok::<Slot, GError>(r1->Ok_0.slot()))
            &&& r0 is Ok && r1 is Err ==> t.nth(h, 1) == (h2, Err::<Slot, GError>(r1->Err_0))
            &&& r0 is Ok && r1 is Ok && r2 is Ok ==> t.nth(h, 2) == (
                h3,
                Ok::<Slot, GError>(r2->Ok_0.slot()),
            )
            &&& r0 is Ok && r1 is Ok && r2 is Err ==> t.nth(h, 2) == (
                h3,
                Err::<Slot, GError>(r2->Err_0),
            )
            &&& r0 is Ok && r1 is Ok && r2 is Ok && r3 is Ok ==> t.nth(h, 3) == (
                h4,
                Ok::<Slot, GError>(r3->Ok_0.slot()),
            )
            &&& r0 is Ok && r1 is Ok && r2 is Ok && r3 is Err ==> t.nth(h, 3) == (
                h4,
                Err::<Slot, GError>(r3->Err_0),
            )
            &&& r0 is Ok && r1 is Ok && r2 is Ok && r3 is Ok && r4 is Ok ==> t.nth(h, 4) == (
                h5,
                Ok::<Slot, GError>(r4->Ok_0.slot()),
            )
            &&& r0 is Ok && r1 is Ok && r2 is Ok && r3 is Ok && r4 is Err ==> t.nth(h, 4) == (
                h5,
                Err::<Slot, GError>(r4->Err_0),
            )
            &&& r0 is Ok && r1 is Ok && r2 is Ok && r3 is Ok && r4 is Ok && r5 is Ok
                ==> t.nth(h, 5) == (h6, Ok::<Slot, GError>(r5->Ok_0.slot()))
            &&& r0 is Ok && r1 is Ok && r2 is Ok && r3 is Ok && r4 is Ok && r5 is Err
                ==> t.nth(h, 5) == (h6, Err::<Slot, GError>(r5->Err_0))
            &&& r0 is Ok && r1 is Ok && r2 is Ok && r3 is Ok && r4 is Ok && r5 is Ok
                && r6 is Ok ==> t.nth(h, 6) == (h7, Ok::<Slot, GError>(r6->Ok_0.slot()))
            &&& r0 is Ok && r1 is Ok && r2 is Ok && r3 is Ok && r4 is Ok && r5 is Ok
                && r6 is Err ==> t.nth(h, 6) == (h7, Err::<Slot, GError>(r6->Err_0))
            &&& r0 is Ok && r1 is Ok && r2 is Ok && r3 is Ok && r4 is Ok && r5 is Ok
                && r6 is Ok && r7 is Ok ==> t.nth(h, 7) == (h8, Ok::<Slot, GError>(r7->Ok_0.slot()))
            &&& r0 is Ok && r1 is Ok && r2 is Ok && r3 is Ok && r4 is Ok && r5 is Ok
                && r6 is Ok && r7 is Err ==> t.nth(h, 7) == (h8, Err::<Slot, GError>(r7->Err_0))
            &&& r0 is Ok && r1 is Ok && r2 is Ok && r3 is Ok && r4 is Ok && r5 is Ok
                && r6 is Ok && r7 is Ok && r8 is Ok ==> t.nth(h, 8)
                == (h9, Ok::<Slot, GError>(r8->Ok_0.slot()))
            &&& r0 is Ok && r1 is Ok && r2 is Ok && r3 is Ok && r4 is Ok && r5 is Ok
                && r6 is Ok && r7 is Ok && r8 is Err ==> t.nth(h, 8)
                == (h9, Err::<Slot, GError>(r8->Err_0))
        }),
{
}

/// A tuple of 10 is 10 arguments: its fields are converted in their order, and the slots are those
/// of the fields, each in the place of its own. Where one fails, the first such is the reason, and
/// there are no slots at all.
pub proof fn law_arguments_of_tuple_10<
    A: IntoVal,
    B: IntoVal,
    C: IntoVal,
    D: IntoVal,
    E: IntoVal,
    F: IntoVal,
    G: IntoVal,
    H: IntoVal,
    I: IntoVal,
    J: IntoVal,
>(t: (A, B, C, D, E, F, G, H, I, J), h: Store)
    ensures
        t.count() == 10,
        ({
            let (h1, r0) = t.0.to_val(h);
            let (h2, r1) = t.1.to_val(h1);
            let (h3, r2) = t.2.to_val(h2);
            let (h4, r3) = t.3.to_val(h3);
            let (h5, r4) = t.4.to_val(h4);
            let (h6, r5) = t.5.to_val(h5);
            let (h7, r6) = t.6.to_val(h6);
            let (h8, r7) = t.7.to_val(h7);
            let (h9, r8) = t.8.to_val(h8);
            let (h10, r9) = t.9.to_val(h9);
            &&& r0 is Err ==> {
                &&& t.offer(h).heap == h1
                &&& t.offer(h).slots.len() == 0
                &&& t.offer(h).outcome == Err::<(), GError>(r0->Err_0)
            }
            &&& r0 is Ok && r1 is Err ==> {
                &&& t.offer(h).heap == h2
                &&& t.offer(h).slots.len() == 0
                &&& t.offer(h).outcome == Err::<(), GError>(r1->Err_0)
            }
            &&& r0 is Ok && r1 is Ok && r2 is Err ==> {
                &&& t.offer(h).heap == h3
                &&& t.offer(h).slots.len() == 0
                &&& t.offer(h).outcome == Err::<(), GError>(r2->Err_0)
            }
            &&& r0 is Ok && r1 is Ok && r2 is Ok && r3 is Err ==> {
                &&& t.offer(h).heap == h4
                &&& t.offer(h).slots.len() == 0
                &&& t.offer(h).outcome == Err::<(), GError>(r3->Err_0)
            }
            &&& r0 is Ok && r1 is Ok && r2 is Ok && r3 is Ok && r4 is Err ==> {
                &&& t.offer(h).heap == h5
                &&& t.offer(h).slots.len() == 0
                &&& t.offer(h).outcome == Err::<(), GError>(r4->Err_0)
            }
            &&& r0 is Ok && r1 is Ok && r2 is Ok && r3 is Ok && r4 is Ok && r5 is Err ==> {
                &&& t.offer(h).heap == h6
                &&& t.offer(h).slots.len() == 0
                &&& t.offer(h).outcome == Err::<(), GError>(r5->Err_0)
            }
            &&& r0 is Ok && r1 is Ok && r2 is Ok && r3 is Ok && r4 is Ok && r5 is Ok
                && r6 is Err ==> {
                &&& t.offer(h).heap == h7
                &&& t.offer(h).slots.len() == 0
                &&& t.offer(h).outcome == Err::<(), GError>(r6->Err_0)
            }
            &&& r0 is Ok && r1 is Ok && r2 is Ok && r3 is Ok && r4 is Ok && r5 is Ok
                && r6 is Ok && r7 is Err ==> {
                &&& t.offer(h).heap == h8
                &&& t.offer(h).slots.len() == 0
                &&& t.offer(h).outcome == Err::<(), GError>(r7->Err_0)
            }
            &&& r0 is Ok && r1 is Ok && r2 is Ok && r3 is Ok && r4 is Ok && r5 is Ok
                && r6 is Ok && r7 is Ok && r8 is Err ==> {
                &&& t.offer(h).heap == h9
                &&& t.offer(h).slots.len() == 0
                &&& t.offer(h).outcome == Err::<(), GError>(r8->Err_0)
            }
            &&& r0 is Ok && r1 is Ok && r2 is Ok && r3 is Ok && r4 is Ok && r5 is Ok
                && r6 is Ok && r7 is Ok && r8 is Ok && r9 is Err ==> {
                &&& t.offer(h).heap == h10
                &&& t.offer(h).slots.len() == 0
                &&& t.offer(h).outcome == Err::<(), GError>(r9->Err_0)
            }
            &&& r0 is Ok && r1 is Ok && r2 is Ok && r3 is Ok && r4 is Ok && r5 is Ok
                && r6 is Ok && r7 is Ok && r8 is Ok && r9 is Ok ==> {
                &&& t.offer(h).heap == h10
                &&& t.offer(h).slots == seq![
                    r0->Ok_0.slot(),
                    r1->Ok_0.slot(),
                    r2->Ok_0.slot(),
                    r3->Ok_0.slot(),
                    r4->Ok_0.slot(),
                    r5->Ok_0.slot(),
                    r6->Ok_0.slot(),
                    r7->Ok_0.slot(),
                    r8->Ok_0.slot(),
                    r9->Ok_0.slot(),
                ]
                &&& t.offer(h).outcome is Ok
            }
            &&& r0 is Ok ==> t.nth(h, 0) == (h1, Ok::<Slot, GError>(r0->Ok_0.slot()))
            &&& r0 is Err ==> t.nth(h, 0) == (h1, Err::<Slot, GError>(r0->Err_0))
            &&& r0 is Ok && r1 is Ok ==> t.nth(h, 1) == (h2, Ok::<Slot, GError>(r1->Ok_0.slot()))
            &&& r0 is Ok && r1 is Err ==> t.nth(h, 1) == (h2, Err::<Slot, GError>(r1->Err_0))
            &&& r0 is Ok && r1 is Ok && r2 is Ok ==> t.nth(h, 2) == (
                h3,
                Ok::<Slot, GError>(r2->Ok_0.slot()),
            )
            &&& r0 is Ok && r1 is Ok && r2 is Err ==> t.nth(h, 2) == (
                h3,
                Err::<Slot, GError>(r2->Err_0),
            )
            &&& r0 is Ok && r1 is Ok && r2 is Ok && r3 is Ok ==> t.nth(h, 3) == (
                h4,
                Ok::<Slot, GError>(r3->Ok_0.slot()),
            )
            &&& r0 is Ok && r1 is Ok && r2 is Ok && r3 is Err ==> t.nth(h, 3) == (
                h4,
                Err::<Slot, GError>(r3->Err_0),
            )
            &&& r0 is Ok && r1 is Ok && r2 is Ok && r3 is Ok && r4 is Ok ==> t.nth(h, 4) == (
                h5,
                Ok::<Slot, GError>(r4->Ok_0.slot()),
            )
            &&& r0 is Ok && r1 is Ok && r2 is Ok && r3 is Ok && r4 is Err ==> t.nth(h, 4) == (
                h5,
                Err::<Slot, GError>(r4->Err_0),
            )
            &&& r0 is Ok && r1 is Ok && r2 is Ok && r3 is Ok && r4 is Ok && r5 is Ok
                ==> t.nth(h, 5) == (h6, Ok::<Slot, GError>(r5->Ok_0.slot()))
            &&& r0 is Ok && r1 is Ok && r2 is Ok && r3 is Ok && r4 is Ok && r5 is Err
                ==> t.nth(h, 5) == (h6, Err::<Slot, GError>(r5->Err_0))
            &&& r0 is Ok && r1 is Ok && r2 is Ok && r3 is Ok && r4 is Ok && r5 is Ok
                && r6 is Ok ==> t.nth(h, 6) == (h7, Ok::<Slot, GError>(r6->Ok_0.slot()))
            &&& r0 is Ok && r1 is Ok && r2 is Ok && r3 is Ok && r4 is Ok && r5 is Ok
                && r6 is Err ==> t.nth(h, 6) == (h7, Err::<Slot, GError>(r6->Err_0))
            &&& r0 is Ok && r1 is Ok && r2 is Ok && r3 is Ok && r4 is Ok && r5 is Ok
                && r6 is Ok && r7 is Ok ==> t.nth(h, 7) == (h8, Ok::<Slot, GError>(r7->Ok_0.slot()))
            &&& r0 is Ok && r1 is Ok && r2 is Ok && r3 is Ok && r4 is Ok && r5 is Ok
                && r6 is Ok && r7 is Err ==> t.nth(h, 7) == (h8, Err::<Slot, GError>(r7->Err_0))
            &&& r0 is Ok && r1 is Ok && r2 is Ok && r3 is Ok && r4 is Ok && r5 is Ok
                && r6 is Ok && r7 is Ok && r8 is Ok ==> t.nth(h, 8)
                == (h9, Ok::<Slot, GError>(r8->Ok_0.slot()))
            &&& r0 is Ok && r1 is Ok && r2 is Ok && r3 is Ok && r4 is Ok && r5 is Ok
                && r6 is Ok && r7 is Ok && r8 is Err ==> t.nth(h, 8)
                == (h9, Err::<Slot, GError>(r8->Err_0))
            &&& r0 is Ok && r1 is Ok && r2 is Ok && r3 is Ok && r4 is Ok && r5 is Ok
                && r6 is Ok && r7 is Ok && r8 is Ok && r9 is Ok ==> t.nth(h, 9)
                == (h10, Ok::<Slot, GError>(r9->Ok_0.slot()))
            &&& r0 is Ok && r1 is Ok && r2 is Ok && r3 is Ok && r4 is Ok && r5 is Ok
                && r6 is Ok && r7 is Ok && r8 is Ok && r9 is Err ==> t.nth(h, 9)
                == (h10, Err::<Slot, GError>(r9->Err_0))
        }),
{
}

/// The same by shared reference.
pub proof fn law_arguments_of_tuple_10_ref<'a, A, B, C, D, E, F, G, H, I, J>(
    t: &'a (A, B, C, D, E, F, G, H, I, J),
    h: Store,
) where &'a A: IntoVal, &'a B: IntoVal, &'a C: IntoVal, &'a D: IntoVal, &'a E: IntoVal,
    &'a F: IntoVal, &'a G: IntoVal, &'a H: IntoVal, &'a I: IntoVal, &'a J: IntoVal,
    ensures
        t.count() == 10,
        ({
            let (h1, r0) = (&t.0).to_val(h);
            let (h2, r1) = (&t.1).to_val(h1);
            let (h3, r2) = (&t.2).to_val(h2);
            let (h4, r3) = (&t.3).to_val(h3);
            let (h5, r4) = (&t.4).to_val(h4);
            let (h6, r5) = (&t.5).to_val(h5);
            let (h7, r6) = (&t.6).to_val(h6);
            let (h8, r7) = (&t.7).to_val(h7);
            let (h9, r8) = (&t.8).to_val(h8);
            let (h10, r9) = (&t.9).to_val(h9);
            &&& r0 is Err ==> {
                &&& t.offer(h).heap == h1
                &&& t.offer(h).slots.len() == 0
                &&& t.offer(h).outcome == Err::<(), GError>(r0->Err_0)
            }
            &&& r0 is Ok && r1 is Err ==> {
                &&& t.offer(h).heap == h2
                &&& t.offer(h).slots.len() == 0
                &&& t.offer(h).outcome == Err::<(), GError>(r1->Err_0)
            }
            &&& r0 is Ok && r1 is Ok && r2 is Err ==> {
                &&& t.offer(h).heap == h3
                &&& t.offer(h).slots.len() == 0
                &&& t.offer(h).outcome == Err::<(), GError>(r2->Err_0)
            }
            &&& r0 is Ok && r1 is Ok && r2 is Ok && r3 is Err ==> {
                &&& t.offer(h).heap == h4
                &&& t.offer(h).slots.len() == 0
                &&& t.offer(h).outcome == Err::<(), GError>(r3->Err_0)
            }
            &&& r0 is Ok && r1 is Ok && r2 is Ok && r3 is Ok && r4 is Err ==> {
                &&& t.offer(h).heap == h5
                &&& t.offer(h).slots.len() == 0
                &&& t.offer(h).outcome == Err::<(), GError>(r4->Err_0)
            }
            &&& r0 is Ok && r1 is Ok && r2 is Ok && r3 is Ok && r4 is Ok && r5 is Err ==> {
                &&& t.offer(h).heap == h6
                &&& t.offer(h).slots.len() == 0
                &&& t.offer(h).outcome == Err::<(), GError>(r5->Err_0)
            }
            &&& r0 is Ok && r1 is Ok && r2 is Ok && r3 is Ok && r4 is Ok && r5 is Ok
                && r6 is Err ==> {
                &&& t.offer(h).heap == h7
                &&& t.offer(h).slots.len() == 0
                &&& t.offer(h).outcome == Err::<(), GError>(r6->Err_0)
            }
            &&& r0 is Ok && r1 is Ok && r2 is Ok && r3 is Ok && r4 is Ok && r5 is Ok
                && r6 is Ok && r7 is Err ==> {
                &&& t.offer(h).heap == h8
                &&& t.offer(h).slots.len() == 0
                &&& t.offer(h).outcome == Err::<(), GError>(r7->Err_0)
            }
            &&& r0 is Ok && r1 is Ok && r2 is Ok && r3 is Ok && r4 is Ok && r5 is Ok
                && r6 is Ok && r7 is Ok && r8 is Err ==> {
                &&& t.offer(h).heap == h9
                &&& t.offer(h).slots.len() == 0
                &&& t.offer(h).outcome == Err::<(), GError>(r8->Err_0)
            }
            &&& r0 is Ok && r1 is Ok && r2 is Ok && r3 is Ok && r4 is Ok && r5 is Ok
                && r6 is Ok && r7 is Ok && r8 is Ok && r9 is Err ==> {
                &&& t.offer(h).heap == h10
                &&& t.offer(h).slots.len() == 0
                &&& t.offer(h).outcome == Err::<(), GError>(r9->Err_0)
            }
            &&& r0 is Ok && r1 is Ok && r2 is Ok && r3 is Ok && r4 is Ok && r5 is Ok
                && r6 is Ok && r7 is Ok && r8 is Ok && r9 is Ok ==> {
                &&& t.offer(h).heap == h10
                &&& t.offer(h).slots == seq![
                    r0->Ok_0.slot(),
                    r1->Ok_0.slot(),
                    r2->Ok_0.slot(),
                    r3->Ok_0.slot(),
                    r4->Ok_0.slot(),
                    r5->Ok_0.slot(),
                    r6->Ok_0.slot(),
                    r7->Ok_0.slot(),
                    r8->Ok_0.slot(),
                    r9->Ok_0.slot(),
                ]
                &&& t.offer(h).outcome is Ok
            }
            &&& r0 is Ok ==> t.nth(h, 0) == (h1, Ok::<Slot, GError>(r0->Ok_0.slot()))
            &&& r0 is Err ==> t.nth(h, 0) == (h1, Err::<Slot, GError>(r0->Err_0))
            &&& r0 is Ok && r1 is Ok ==> t.nth(h, 1) == (h2, Ok::<Slot, GError>(r1->Ok_0.slot()))
            &&& r0 is Ok && r1 is Err ==> t.nth(h, 1) == (h2, Err::<Slot, GError>(r1->Err_0))
            &&& r0 is Ok && r1 is Ok && r2 is Ok ==> t.nth(h, 2) == (
                h3,
                Ok::<Slot, GError>(r2->Ok_0.slot()),
            )
            &&& r0 is Ok && r1 is Ok && r2 is Err ==> t.nth(h, 2) == (
                h3,
                Err::<Slot, GError>(r2->Err_0),
            )
            &&& r0 is Ok && r1 is Ok && r2 is Ok && r3 is Ok ==> t.nth(h, 3) == (
                h4,
                Ok::<Slot, GError>(r3->Ok_0.slot()),
            )
            &&& r0 is Ok && r1 is Ok && r2 is Ok && r3 is Err ==> t.nth(h, 3) == (
                h4,
                Err::<Slot, GError>(r3->Err_0),
            )
            &&& r0 is Ok && r1 is Ok && r2 is Ok && r3 is Ok && r4 is Ok ==> t.nth(h, 4) == (
                h5,
                Ok::<Slot, GError>(r4->Ok_0.slot()),
            )
            &&& r0 is Ok && r1 is Ok && r2 is Ok && r3 is Ok && r4 is Err ==> t.nth(h, 4) == (
                h5,
                Err::<Slot, GError>(r4->Err_0),
            )
            &&& r0 is Ok && r1 is Ok && r2 is Ok && r3 is Ok && r4 is Ok && r5 is Ok
                ==> t.nth(h, 5) == (h6, Ok::<Slot, GError>(r5->Ok_0.slot()))
            &&& r0 is Ok && r1 is Ok && r2 is Ok && r3 is Ok && r4 is Ok && r5 is Err
                ==> t.nth(h, 5) == (h6, Err::<Slot, GError>(r5->Err_0))
            &&& r0 is Ok && r1 is Ok && r2 is Ok && r3 is Ok && r4 is Ok && r5 is Ok
                && r6 is Ok ==> t.nth(h, 6) == (h7, Ok::<Slot, GError>(r6->Ok_0.slot()))
            &&& r0 is Ok && r1 is Ok && r2 is Ok && r3 is Ok && r4 is Ok && r5 is Ok
                && r6 is Err ==> t.nth(h, 6) == (h7, Err::<Slot, GError>(r6->Err_0))
            &&& r0 is Ok && r1 is Ok && r2 is Ok && r3 is Ok && r4 is Ok && r5 is Ok
                && r6 is Ok && r7 is Ok ==> t.nth(h, 7) == (h8, Ok::<Slot, GError>(r7->Ok_0.slot()))
            &&& r0 is Ok && r1 is Ok && r2 is Ok && r3 is Ok && r4 is Ok && r5 is Ok
                && r6 is Ok && r7 is Err ==> t.nth(h, 7) == (h8, Err::<Slot, GError>(r7->Err_0))
            &&& r0 is Ok && r1 is Ok && r2 is Ok && r3 is Ok && r4 is Ok && r5 is Ok
                && r6 is Ok && r7 is Ok && r8 is Ok ==> t.nth(h, 8)
                == (h9, Ok::<Slot, GError>(r8->Ok_0.slot()))
            &&& r0 is Ok && r1 is Ok && r2 is Ok && r3 is Ok && r4 is Ok && r5 is Ok
                && r6 is Ok && r7 is Ok && r8 is Err ==> t.nth(h, 8)
                == (h9, Err::<Slot, GError>(r8->Err_0))
            &&& r0 is Ok && r1 is Ok && r2 is Ok && r3 is Ok && r4 is Ok && r5 is Ok
                && r6 is Ok && r7 is Ok && r8 is Ok && r9 is Ok ==> t.nth(h, 9)
                == (h10, Ok::<Slot, GError>(r9->Ok_0.slot()))
            &&& r0 is Ok && r1 is Ok && r2 is Ok && r3 is Ok && r4 is Ok && r5 is Ok
                && r6 is Ok && r7 is Ok && r8 is Ok && r9 is Err ==> t.nth(h, 9)
                == (h10, Err::<Slot, GError>(r9->Err_0))
        }),
{
}

/// The same by mutable reference.
pub proof fn law_arguments_of_tuple_10_mut<
    'a,
    A: IntoValMut,
    B: IntoValMut,
    C: IntoValMut,
    D: IntoValMut,
    E: IntoValMut,
    F: IntoValMut,
    G: IntoValMut,
    H: IntoValMut,
    I: IntoValMut,
    J: IntoValMut,
>(t: &'a mut (A, B, C, D, E, F, G, H, I, J), h: Store)
    ensures
        t.count() == 10,
        ({
            let (h1, r0) = old(t).0.mut_to_val(h);
            let (h2, r1) = old(t).1.mut_to_val(h1);
            let (h3, r2) = old(t).2.mut_to_val(h2);
            let (h4, r3) = old(t).3.mut_to_val(h3);
            let (h5, r4) = old(t).4.mut_to_val(h4);
            let (h6, r5) = old(t).5.mut_to_val(h5);
            let (h7, r6) = old(t).6.mut_to_val(h6);
            let (h8, r7) = old(t).7.mut_to_val(h7);
            let (h9, r8) = old(t).8.mut_to_val(h8);
            let (h10, r9) = old(t).9.mut_to_val(h9);
            &&& r0 is Err ==> {
                &&& t.offer(h).heap == h1
                &&& t.offer(h).slots.len() == 0
                &&& t.offer(h).outcome == Err::<(), GError>(r0->Err_0)
            }
            &&& r0 is Ok && r1 is Err ==> {
                &&& t.offer(h).heap == h2
                &&& t.offer(h).slots.len() == 0
                &&& t.offer(h).outcome == Err::<(), GError>(r1->Err_0)
            }
            &&& r0 is Ok && r1 is Ok && r2 is Err ==> {
                &&& t.offer(h).heap == h3
                &&& t.offer(h).slots.len() == 0
                &&& t.offer(h).outcome == Err::<(), GError>(r2->Err_0)
            }
            &&& r0 is Ok && r1 is Ok && r2 is Ok && r3 is Err ==> {
                &&& t.offer(h).heap == h4
                &&& t.offer(h).slots.len() == 0
                &&& t.offer(h).outcome == Err::<(), GError>(r3->Err_0)
            }
            &&& r0 is Ok && r1 is Ok && r2 is Ok && r3 is Ok && r4 is Err ==> {
                &&& t.offer(h).heap == h5
                &&& t.offer(h).slots.len() == 0
                &&& t.offer(h).outcome == Err::<(), GError>(r4->Err_0)
            }
            &&& r0 is Ok && r1 is Ok && r2 is Ok && r3 is Ok && r4 is Ok && r5 is Err ==> {
                &&& t.offer(h).heap == h6
                &&& t.offer(h).slots.len() == 0
                &&& t.offer(h).outcome == Err::<(), GError>(r5->Err_0)
            }
            &&& r0 is Ok && r1 is Ok && r2 is Ok && r3 is Ok && r4 is Ok && r5 is Ok
                && r6 is Err ==> {
                &&& t.offer(h).heap == h7
                &&& t.offer(h).slots.len() == 0
                &&& t.offer(h).outcome == Err::<(), GError>(r6->Err_0)
            }
            &&& r0 is Ok && r1 is Ok && r2 is Ok && r3 is Ok && r4 is Ok && r5 is Ok
                && r6 is Ok && r7 is Err ==> {
                &&& t.offer(h).heap == h8
                &&& t.offer(h).slots.len() == 0
                &&& t.offer(h).outcome == Err::<(), GError>(r7->Err_0)
            }
            &&& r0 is Ok && r1 is Ok && r2 is Ok && r3 is Ok && r4 is Ok && r5 is Ok
                && r6 is Ok && r7 is Ok && r8 is Err ==> {
                &&& t.offer(h).heap == h9
                &&& t.offer(h).slots.len() == 0
                &&& t.offer(h).outcome == Err::<(), GError>(r8->Err_0)
            }
            &&& r0 is Ok && r1 is Ok && r2 is Ok && r3 is Ok && r4 is Ok && r5 is Ok
                && r6 is Ok && r7 is Ok && r8 is Ok && r9 is Err ==> {
                &&& t.offer(h).heap == h10
                &&& t.offer(h).slots.len() == 0
                &&& t.offer(h).outcome == Err::<(), GError>(r9->Err_0)
            }
            &&& r0 is Ok && r1 is Ok && r2 is Ok && r3 is Ok && r4 is Ok && r5 is Ok
                && r6 is Ok && r7 is Ok && r8 is Ok && r9 is Ok ==> {
                &&& t.offer(h).heap == h10
                &&& t.offer(h).slots == seq![
                    r0->Ok_0.slot(),
                    r1->Ok_0.slot(),
                    r2->Ok_0.slot(),
                    r3->Ok_0.slot(),
                    r4->Ok_0.slot(),
                    r5->Ok_0.slot(),
                    r6->Ok_0.slot(),
                    r7->Ok_0.slot(),
                    r8->Ok_0.slot(),
                    r9->Ok_0.slot(),
                ]
                &&& t.offer(h).outcome is Ok
            }
            &&& r0 is Ok ==> t.nth(h, 0) == (h1, Ok::<Slot, GError>(r0->Ok_0.slot()))
            &&& r0 is Err ==> t.nth(h, 0) == (h1, Err::<Slot, GError>(r0->Err_0))
            &&& r0 is Ok && r1 is Ok ==> t.nth(h, 1) == (h2, Ok::<Slot, GError>(r1->Ok_0.slot()))
            &&& r0 is Ok && r1 is Err ==> t.nth(h, 1) == (h2, Err::<Slot, GError>(r1->Err_0))
            &&& r0 is Ok && r1 is Ok && r2 is Ok ==> t.nth(h, 2) == (
                h3,
                Ok::<Slot, GError>(r2->Ok_0.slot()),
            )
            &&& r0 is Ok && r1 is Ok && r2 is Err ==> t.nth(h, 2) == (
                h3,
                Err::<Slot, GError>(r2->Err_0),
            )
            &&& r0 is Ok && r1 is Ok && r2 is Ok && r3 is Ok ==> t.nth(h, 3) == (
                h4,
                Ok::<Slot, GError>(r3->Ok_0.slot()),
            )
            &&& r0 is Ok && r1 is Ok && r2 is Ok && r3 is Err ==> t.nth(h, 3) == (
                h4,
                Err::<Slot, GError>(r3->Err_0),
            )
            &&& r0 is Ok && r1 is Ok && r2 is Ok && r3 is Ok && r4 is Ok ==> t.nth(h, 4) == (
                h5,
                Ok::<Slot, GError>(r4->Ok_0.slot()),
            )
            &&& r0 is Ok && r1 is Ok && r2 is Ok && r3 is Ok && r4 is Err ==> t.nth(h, 4) == (
                h5,
                Err::<Slot, GError>(r4->Err_0),
            )
            &&& r0 is Ok && r1 is Ok && r2 is Ok && r3 is Ok && r4 is Ok && r5 is Ok
                ==> t.nth(h, 5) == (h6, Ok::<Slot, GError>(r5->Ok_0.slot()))
            &&& r0 is Ok && r1 is Ok && r2 is Ok && r3 is Ok && r4 is Ok && r5 is Err
                ==> t.nth(h, 5) == (h6, Err::<Slot, GError>(r5->Err_0))
            &&& r0 is Ok && r1 is Ok && r2 is Ok && r3 is Ok && r4 is Ok && r5 is Ok
                && r6 is Ok ==> t.nth(h, 6) == (h7, Ok::<Slot, GError>(r6->Ok_0.slot()))
            &&& r0 is Ok && r1 is Ok && r2 is Ok && r3 is Ok && r4 is Ok && r5 is Ok
                && r6 is Err ==> t.nth(h, 6) == (h7, Err::<Slot, GError>(r6->Err_0))
            &&& r0 is Ok && r1 is Ok && r2 is Ok && r3 is Ok && r4 is Ok && r5 is Ok
                && r6 is Ok && r7 is Ok ==> t.nth(h, 7) == (h8, Ok::<Slot, GError>(r7->Ok_0.slot()))
            &&& r0 is Ok && r1 is Ok && r2 is Ok && r3 is Ok && r4 is Ok && r5 is Ok
                && r6 is Ok && r7 is Err ==> t.nth(h, 7) == (h8, Err::<Slot, GError>(r7->Err_0))
            &&& r0 is Ok && r1 is Ok && r2 is Ok && r3 is Ok && r4 is Ok && r5 is Ok
                && r6 is Ok && r7 is Ok && r8 is Ok ==> t.nth(h, 8)
                == (h9, Ok::<Slot, GError>(r8->Ok_0.slot()))
            &&& r0 is Ok && r1 is Ok && r2 is Ok && r3 is Ok && r4 is Ok && r5 is Ok
                && r6 is Ok && r7 is Ok && r8 is Err ==> t.nth(h, 8)
                == (h9, Err::<Slot, GError>(r8->Err_0))
            &&& r0 is Ok && r1 is Ok && r2 is Ok && r3 is Ok && r4 is Ok && r5 is Ok
                && r6 is Ok && r7 is Ok && r8 is Ok && r9 is Ok ==> t.nth(h, 9)
                == (h10, Ok::<Slot, GError>(r9->Ok_0.slot()))
            &&& r0 is Ok && r1 is Ok && r2 is Ok && r3 is Ok && r4 is Ok && r5 is Ok
                && r6 is Ok && r7 is Ok && r8 is Ok && r9 is Err ==> t.nth(h, 9)
                == (h10, Err::<Slot, GError>(r9->Err_0))
        }),
{
}

/// A tuple of 11 is 11 arguments: its fields are converted in their order, and the slots are those
/// of the fields, each in the place of its own. Where one fails, the first such is the reason, and
/// there are no slots at all.
pub proof fn law_arguments_of_tuple_11<
    A: IntoVal,
    B: IntoVal,
    C: IntoVal,
    D: IntoVal,
    E: IntoVal,
    F: IntoVal,
    G: IntoVal,
    H: IntoVal,
    I: IntoVal,
    J: IntoVal,
    K: IntoVal,
>(t: (A, B, C, D, E, F, G, H, I, J, K), h: Store)
    ensures
        t.count() == 11,
        ({
            let (h1, r0) = t.0.to_val(h);
            let (h2, r1) = t.1.to_val(h1);
            let (h3, r2) = t.2.to_val(h2);
            let (h4, r3) = t.3.to_val(h3);
            let (h5, r4) = t.4.to_val(h4);
            let (h6, r5) = t.5.to_val(h5);
            let (h7, r6) = t.6.to_val(h6);
            let (h8, r7) = t.7.to_val(h7);
            let (h9, r8) = t.8.to_val(h8);
            let (h10, r9) = t.9.to_val(h9);
            let (h11, r10) = t.10.to_val(h10);
            &&& r0 is Err ==> {
                &&& t.offer(h).heap == h1
                &&& t.offer(h).slots.len() == 0
                &&& t.offer(h).outcome == Err::<(), GError>(r0->Err_0)
            }
            &&& r0 is Ok && r1 is Err ==> {
                &&& t.offer(h).heap == h2
                &&& t.offer(h).slots.len() == 0
                &&& t.offer(h).outcome == Err::<(), GError>(r1->Err_0)
            }
            &&& r0 is Ok && r1 is Ok && r2 is Err ==> {
                &&& t.offer(h).heap == h3
                &&& t.offer(h).slots.len() == 0
                &&& t.offer(h).outcome == Err::<(), GError>(r2->Err_0)
            }
            &&& r0 is Ok && r1 is Ok && r2 is Ok && r3 is Err ==> {
                &&& t.offer(h).heap == h4
                &&& t.offer(h).slots.len() == 0
                &&& t.offer(h).outcome == Err::<(), GError>(r3->Err_0)
            }
            &&& r0 is Ok && r1 is Ok && r2 is Ok && r3 is Ok && r4 is Err ==> {
                &&& t.offer(h).heap == h5
                &&& t.offer(h).slots.len() == 0
                &&& t.offer(h).outcome == Err::<(), GError>(r4->Err_0)
            }
            &&& r0 is Ok && r1 is Ok && r2 is Ok && r3 is Ok && r4 is Ok && r5 is Err ==> {
                &&& t.offer(h).heap == h6
                &&& t.offer(h).slots.len() == 0
                &&& t.offer(h).outcome == Err::<(), GError>(r5->Err_0)
            }
            &&& r0 is Ok && r1 is Ok && r2 is Ok && r3 is Ok && r4 is Ok && r5 is Ok
                && r6 is Err ==> {
                &&& t.offer(h).heap == h7
                &&& t.offer(h).slots.len() == 0
                &&& t.offer(h).outcome == Err::<(), GError>(r6->Err_0)
            }
            &&& r0 is Ok && r1 is Ok && r2 is Ok && r3 is Ok && r4 is Ok && r5 is Ok
                && r6 is Ok && r7 is Err ==> {
                &&& t.offer(h).heap == h8
                &&& t.offer(h).slots.len() == 0
                &&& t.offer(h).outcome == Err::<(), GError>(r7->Err_0)
            }
            &&& r0 is Ok && r1 is Ok && r2 is Ok && r3 is Ok && r4 is Ok && r5 is Ok
                && r6 is Ok && r7 is Ok && r8 is Err ==> {
                &&& t.offer(h).heap == h9
                &&& t.offer(h).slots.len() == 0
                &&& t.offer(h).outcome == Err::<(), GError>(r8->Err_0)
            }
            &&& r0 is Ok && r1 is Ok && r2 is Ok && r3 is Ok && r4 is Ok && r5 is Ok
                && r6 is Ok && r7 is Ok && r8 is Ok && r9 is Err ==> {
                &&& t.offer(h).heap == h10
                &&& t.offer(h).slots.len() == 0
                &&& t.offer(h).outcome == Err::<(), GError>(r9->Err_0)
            }
            &&& r0 is Ok && r1 is Ok && r2 is Ok && r3 is Ok && r4 is Ok && r5 is Ok
                && r6 is Ok && r7 is Ok && r8 is Ok && r9 is Ok && r10 is Err ==> {
                &&& t.offer(h).heap == h11
                &&& t.offer(h).slots.len() == 0
                &&& t.offer(h).outcome == Err::<(), GError>(r10->Err_0)
            }
            &&& r0 is Ok && r1 is Ok && r2 is Ok && r3 is Ok && r4 is Ok && r5 is Ok
                && r6 is Ok && r7 is Ok && r8 is Ok && r9 is Ok && r10 is Ok ==> {
                &&& t.offer(h).heap == h11
                &&& t.offer(h).slots == seq![
                    r0->Ok_0.slot(),
                    r1->Ok_0.slot(),
                    r2->Ok_0.slot(),
                    r3->Ok_0.slot(),
                    r4->Ok_0.slot(),
                    r5->Ok_0.slot(),
                    r6->Ok_0.slot(),
                    r7->Ok_0.slot(),
                    r8->Ok_0.slot(),
                    r9->Ok_0.slot(),
                    r10->Ok_0.slot(),
                ]
                &&& t.offer(h).outcome is Ok
            }
            &&& r0 is Ok ==> t.nth(h, 0) == (h1, Ok::<Slot, GError>(r0->Ok_0.slot()))
            &&& r0 is Err ==> t.nth(h, 0) == (h1, Err::<Slot, GError>(r0->Err_0))
            &&& r0 is Ok && r1 is Ok ==> t.nth(h, 1) == (h2, Ok::<Slot, GError>(r1->Ok_0.slot()))
            &&& r0 is Ok && r1 is Err ==> t.nth(h, 1) == (h2, Err::<Slot, GError>(r1->Err_0))
            &&& r0 is Ok && r1 is Ok && r2 is Ok ==> t.nth(h, 2) == (
                h3,
                Ok::<Slot, GError>(r2->Ok_0.slot()),
            )
            &&& r0 is Ok && r1 is Ok && r2 is Err ==> t.nth(h, 2) == (
                h3,
                Err::<Slot, GError>(r2->Err_0),
            )
            &&& r0 is Ok && r1 is Ok && r2 is Ok && r3 is Ok ==> t.nth(h, 3) == (
                h4,
                Ok::<Slot, GError>(r3->Ok_0.slot()),
            )
            &&& r0 is Ok && r1 is Ok && r2 is Ok && r3 is Err ==> t.nth(h, 3) == (
                h4,
                Err::<Slot, GError>(r3->Err_0),
            )
            &&& r0 is Ok && r1 is Ok && r2 is Ok && r3 is Ok && r4 is Ok ==> t.nth(h, 4) == (
                h5,
                Ok::<Slot, GError>(r4->Ok_0.slot()),
            )
            &&& r0 is Ok && r1 is Ok && r2 is Ok && r3 is Ok && r4 is Err ==> t.nth(h, 4) == (
                h5,
                Err::<Slot, GError>(r4->Err_0),
            )
            &&& r0 is Ok && r1 is Ok && r2 is Ok && r3 is Ok && r4 is Ok && r5 is Ok
                ==> t.nth(h, 5) == (h6, Ok::<Slot, GError>(r5->Ok_0.slot()))
            &&& r0 is Ok && r1 is Ok && r2 is Ok && r3 is Ok && r4 is Ok && r5 is Err
                ==> t.nth(h, 5) == (h6, Err::<Slot, GError>(r5->Err_0))
            &&& r0 is Ok && r1 is Ok && r2 is Ok && r3 is Ok && r4 is Ok && r5 is Ok
                && r6 is Ok ==> t.nth(h, 6) == (h7, Ok::<Slot, GError>(r6->Ok_0.slot()))
            &&& r0 is Ok && r1 is Ok && r2 is Ok && r3 is Ok && r4 is Ok && r5 is Ok
                && r6 is Err ==> t.nth(h, 6) == (h7, Err::<Slot, GError>(r6->Err_0))
            &&& r0 is Ok && r1 is Ok && r2 is Ok && r3 is Ok && r4 is Ok && r5 is Ok
                && r6 is Ok && r7 is Ok ==> t.nth(h, 7) == (h8, Ok::<Slot, GError>(r7->Ok_0.slot()))
            &&& r0 is Ok && r1 is Ok && r2 is Ok && r3 is Ok && r4 is Ok && r5 is Ok
                && r6 is Ok && r7 is Err ==> t.nth(h, 7) == (h8, Err::<Slot, GError>(r7->Err_0))
            &&& r0 is Ok && r1 is Ok && r2 is Ok && r3 is Ok && r4 is Ok && r5 is Ok
                && r6 is Ok && r7 is Ok && r8 is Ok ==> t.nth(h, 8)
                == (h9, Ok::<Slot, GError>(r8->Ok_0.slot()))
            &&& r0 is Ok && r1 is Ok && r2 is Ok && r3 is Ok && r4 is Ok && r5 is Ok
                && r6 is Ok && r7 is Ok && r8 is Err ==> t.nth(h, 8)
                == (h9, Err::<Slot, GError>(r8->Err_0))
            &&& r0 is Ok && r1 is Ok && r2 is Ok && r3 is Ok && r4 is Ok && r5 is Ok
                && r6 is Ok && r7 is Ok && r8 is Ok && r9 is Ok ==> t.nth(h, 9)
                == (h10, Ok::<Slot, GError>(r9->Ok_0.slot()))
            &&& r0 is Ok && r1 is Ok && r2 is Ok && r3 is Ok && r4 is Ok && r5 is Ok
                && r6 is Ok && r7 is Ok && r8 is Ok && r9 is Err ==> t.nth(h, 9)
                == (h10, Err::<Slot, GError>(r9->Err_0))
            &&& r0 is Ok && r1 is Ok && r2 is Ok && r3 is Ok && r4 is Ok && r5 is Ok
                && r6 is Ok && r7 is Ok && r8 is Ok && r9 is Ok && r10 is Ok ==> t.nth(h, 10)
                == (h11, Ok::<Slot, GError>(r10->Ok_0.slot()))
            &&& r0 is Ok && r1 is Ok && r2 is Ok && r3 is Ok && r4 is Ok && r5 is Ok
                && r6 is Ok && r7 is Ok && r8 is Ok && r9 is Ok && r10 is Err ==> t.nth(h, 10)
                == (h11, Err::<Slot, GError>(r10->Err_0))
        }),
{
}

/// The same by shared reference.
pub proof fn law_arguments_of_tuple_11_ref<'a, A, B, C, D, E, F, G, H, I, J, K>(
    t: &'a (A, B, C, D, E, F, G, H, I, J, K),
    h: Store,
) where &'a A: IntoVal, &'a B: IntoVal, &'a C: IntoVal, &'a D: IntoVal, &'a E: IntoVal,
    &'a F: IntoVal, &'a G: IntoVal, &'a H: IntoVal, &'a I: IntoVal, &'a J: IntoVal, &'a K: IntoVal,
    ensures
        t.count() == 11,
        ({
            let (h1, r0) = (&t.0).to_val(h);
            let (h2, r1) = (&t.1).to_val(h1);
            let (h3, r2) = (&t.2).to_val(h2);
            let (h4, r3) = (&t.3).to_val(h3);
            let (h5, r4) = (&t.4).to_val(h4);
            let (h6, r5) = (&t.5).to_val(h5);
            let (h7, r6) = (&t.6).to_val(h6);
            let (h8, r7) = (&t.7).to_val(h7);
            let (h9, r8) = (&t.8).to_val(h8);
            let (h10, r9) = (&t.9).to_val(h9);
            let (h11, r10) = (&t.10).to_val(h10);
            &&& r0 is Err ==> {
                &&& t.offer(h).heap == h1
                &&& t.offer(h).slots.len() == 0
                &&& t.offer(h).outcome == Err::<(), GError>(r0->Err_0)
            }
            &&& r0 is Ok && r1 is Err ==> {
                &&& t.offer(h).heap == h2
                &&& t.offer(h).slots.len() == 0
                &&& t.offer(h).outcome == Err::<(), GError>(r1->Err_0)
            }
            &&& r0 is Ok && r1 is Ok && r2 is Err ==> {
                &&& t.offer(h).heap == h3
                &&& t.offer(h).slots.len() == 0
                &&& t.offer(h).outcome == Err::<(), GError>(r2->Err_0)
            }
            &&& r0 is Ok && r1 is Ok && r2 is Ok && r3 is Err ==> {
                &&& t.offer(h).heap == h4
                &&& t.offer(h).slots.len() == 0
                &&& t.offer(h).outcome == Err::<(), GError>(r3->Err_0)
            }
            &&& r0 is Ok && r1 is Ok && r2 is Ok && r3 is Ok && r4 is Err ==> {
                &&& t.offer(h).heap == h5
                &&& t.offer(h).slots.len() == 0
                &&& t.offer(h).outcome == Err::<(), GError>(r4->Err_0)
            }
            &&& r0 is Ok && r1 is Ok && r2 is Ok && r3 is Ok && r4 is Ok && r5 is Err ==> {
                &&& t.offer(h).heap == h6
                &&& t.offer(h).slots.len() == 0
                &&& t.offer(h).outcome == Err::<(), GError>(r5->Err_0)
            }
            &&& r0 is Ok && r1 is Ok && r2 is Ok && r3 is Ok && r4 is Ok && r5 is Ok
                && r6 is Err ==> {
                &&& t.offer(h).heap == h7
                &&& t.offer(h).slots.len() == 0
                &&& t.offer(h).outcome == Err::<(), GError>(r6->Err_0)
            }
            &&& r0 is Ok && r1 is Ok && r2 is Ok && r3 is Ok && r4 is Ok && r5 is Ok
                && r6 is Ok && r7 is Err ==> {
                &&& t.offer(h).heap == h8
                &&& t.offer(h).slots.len() == 0
                &&& t.offer(h).outcome == Err::<(), GError>(r7->Err_0)
            }
            &&& r0 is Ok && r1 is Ok && r2 is Ok && r3 is Ok && r4 is Ok && r5 is Ok
                && r6 is Ok && r7 is Ok && r8 is Err ==> {
                &&& t.offer(h).heap == h9
                &&& t.offer(h).slots.len() == 0
                &&& t.offer(h).outcome == Err::<(), GError>(r8->Err_0)
            }
            &&& r0 is Ok && r1 is Ok && r2 is Ok && r3 is Ok && r4 is Ok && r5 is Ok
                && r6 is Ok && r7 is Ok && r8 is Ok && r9 is Err ==> {
                &&& t.offer(h).heap == h10
                &&& t.offer(h).slots.len() == 0
                &&& t.offer(h).outcome == Err::<(), GError>(r9->Err_0)
            }
            &&& r0 is Ok && r1 is Ok && r2 is Ok && r3 is Ok && r4 is Ok && r5 is Ok
                && r6 is Ok && r7 is Ok && r8 is Ok && r9 is Ok && r10 is Err ==> {
                &&& t.offer(h).heap == h11
                &&& t.offer(h).slots.len() == 0
                &&& t.offer(h).outcome == Err::<(), GError>(r10->Err_0)
            }
            &&& r0 is Ok && r1 is Ok && r2 is Ok && r3 is Ok && r4 is Ok && r5 is Ok
                && r6 is Ok && r7 is Ok && r8 is Ok && r9 is Ok && r10 is Ok ==> {
                &&& t.offer(h).heap == h11
                &&& t.offer(h).slots == seq![
                    r0->Ok_0.slot(),
                    r1->Ok_0.slot(),
                    r2->Ok_0.slot(),
                    r3->Ok_0.slot(),
                    r4->Ok_0.slot(),
                    r5->Ok_0.slot(),
                    r6->Ok_0.slot(),
                    r7->Ok_0.slot(),
                    r8->Ok_0.slot(),
                    r9->Ok_0.slot(),
                    r10->Ok_0.slot(),
                ]
                &&& t.offer(h).outcome is Ok
            }
            &&& r0 is Ok ==> t.nth(h, 0) == (h1, Ok::<Slot, GError>(r0->Ok_0.slot()))
            &&& r0 is Err ==> t.nth(h, 0) == (h1, Err::<Slot, GError>(r0->Err_0))
            &&& r0 is Ok && r1 is Ok ==> t.nth(h, 1) == (h2, Ok::<Slot, GError>(r1->Ok_0.slot()))
            &&& r0 is Ok && r1 is Err ==> t.nth(h, 1) == (h2, Err::<Slot, GError>(r1->Err_0))
            &&& r0 is Ok && r1 is Ok && r2 is Ok ==> t.nth(h, 2) == (
                h3,
                Ok::<Slot, GError>(r2->Ok_0.slot()),
            )
            &&& r0 is Ok && r1 is Ok && r2 is Err ==> t.nth(h, 2) == (
                h3,
                Err::<Slot, GError>(r2->Err_0),
            )
            &&& r0 is Ok && r1 is Ok && r2 is Ok && r3 is Ok ==> t.nth(h, 3) == (
                h4,
                Ok::<Slot, GError>(r3->Ok_0.slot()),
            )
            &&& r0 is Ok && r1 is Ok && r2 is Ok && r3 is Err ==> t.nth(h, 3) == (
                h4,
                Err::<Slot, GError>(r3->Err_0),
            )
            &&& r0 is Ok && r1 is Ok && r2 is Ok && r3 is Ok && r4 is Ok ==> t.nth(h, 4) == (
                h5,
                Ok::<Slot, GError>(r4->Ok_0.slot()),
            )
            &&& r0 is Ok && r1 is Ok && r2 is Ok && r3 is Ok && r4 is Err ==> t.nth(h, 4) == (
                h5,
                Err::<Slot, GError>(r4->Err_0),
            )
            &&& r0 is Ok && r1 is Ok && r2 is Ok && r3 is Ok && r4 is Ok && r5 is Ok
                ==> t.nth(h, 5) == (h6, Ok::<Slot, GError>(r5->Ok_0.slot()))
            &&& r0 is Ok && r1 is Ok && r2 is Ok && r3 is Ok && r4 is Ok && r5 is Err
                ==> t.nth(h, 5) == (h6, Err::<Slot, GError>(r5->Err_0))
            &&& r0 is Ok && r1 is Ok && r2 is Ok && r3 is Ok && r4 is Ok && r5 is Ok
                && r6 is Ok ==> t.nth(h, 6) == (h7, Ok::<Slot, GError>(r6->Ok_0.slot()))
            &&& r0 is Ok && r1 is Ok && r2 is Ok && r3 is Ok && r4 is Ok && r5 is Ok
                && r6 is Err ==> t.nth(h, 6) == (h7, Err::<Slot, GError>(r6->Err_0))
            &&& r0 is Ok && r1 is Ok && r2 is Ok && r3 is Ok && r4 is Ok && r5 is Ok
                && r6 is Ok && r7 is Ok ==> t.nth(h, 7) == (h8, Ok::<Slot, GError>(r7->Ok_0.slot()))
            &&& r0 is Ok && r1 is Ok && r2 is Ok && r3 is Ok && r4 is Ok && r5 is Ok
                && r6 is Ok && r7 is Err ==> t.nth(h, 7) == (h8, Err::<Slot, GError>(r7->Err_0))
            &&& r0 is Ok && r1 is Ok && r2 is Ok && r3 is Ok && r4 is Ok && r5 is Ok
                && r6 is Ok && r7 is Ok && r8 is Ok ==> t.nth(h, 8)
                == (h9, Ok::<Slot, GError>(r8->Ok_0.slot()))
            &&& r0 is Ok && r1 is Ok && r2 is Ok && r3 is Ok && r4 is Ok && r5 is Ok
                && r6 is Ok && r7 is Ok && r8 is Err ==> t.nth(h, 8)
                == (h9, Err::<Slot, GError>(r8->Err_0))
            &&& r0 is Ok && r1 is Ok && r2 is Ok && r3 is Ok && r4 is Ok && r5 is Ok
                && r6 is Ok && r7 is Ok && r8 is Ok && r9 is Ok ==> t.nth(h, 9)
                == (h10, Ok::<Slot, GError>(r9->Ok_0.slot()))
            &&& r0 is Ok && r1 is Ok && r2 is Ok && r3 is Ok && r4 is Ok && r5 is Ok
                && r6 is Ok && r7 is Ok && r8 is Ok && r9 is Err ==> t.nth(h, 9)
                == (h10, Err::<Slot, GError>(r9->Err_0))
            &&& r0 is Ok && r1 is Ok && r2 is Ok && r3 is Ok && r4 is Ok && r5 is Ok
                && r6 is Ok && r7 is Ok && r8 is Ok && r9 is Ok && r10 is Ok ==> t.nth(h, 10)
                == (h11, Ok::<Slot, GError>(r10->Ok_0.slot()))
            &&& r0 is Ok && r1 is Ok && r2 is Ok && r3 is Ok && r4 is Ok && r5 is Ok
                && r6 is Ok && r7 is Ok && r8 is Ok && r9 is Ok && r10 is Err ==> t.nth(h, 10)
                == (h11, Err::<Slot, GError>(r10->Err_0))
        }),
{
}

/// The same by mutable reference.
pub proof fn law_arguments_of_tuple_11_mut<
    'a,
    A: IntoValMut,
    B: IntoValMut,
    C: IntoValMut,
    D: IntoValMut,
    E: IntoValMut,
    F: IntoValMut,
    G: IntoValMut,
    H: IntoValMut,
    I: IntoValMut,
    J: IntoValMut,
    K: IntoValMut,
>(t: &'a mut (A, B, C, D, E, F, G, H, I, J, K), h: Store)
    ensures
        t.count() == 11,
        ({
            let (h1, r0) = old(t).0.mut_to_val(h);
            let (h2, r1) = old(t).1.mut_to_val(h1);
            let (h3, r2) = old(t).2.mut_to_val(h2);
            let (h4, r3) = old(t).3.mut_to_val(h3);
            let (h5, r4) = old(t).4.mut_to_val(h4);
            let (h6, r5) = old(t).5.mut_to_val(h5);
            let (h7, r6) = old(t).6.mut_to_val(h6);
            let (h8, r7) = old(t).7.mut_to_val(h7);
            let (h9, r8) = old(t).8.mut_to_val(h8);
            let (h10, r9) = old(t).9.mut_to_val(h9);
            let (h11, r10) = old(t).10.mut_to_val(h10);
            &&& r0 is Err ==> {
                &&& t.offer(h).heap == h1
                &&& t.offer(h).slots.len() == 0
                &&& t.offer(h).outcome == Err::<(), GError>(r0->Err_0)
            }
            &&& r0 is Ok && r1 is Err ==> {
                &&& t.offer(h).heap == h2
                &&& t.offer(h).slots.len() == 0
                &&& t.offer(h).outcome == Err::<(), GError>(r1->Err_0)
            }
            &&& r0 is Ok && r1 is Ok && r2 is Err ==> {
                &&& t.offer(h).heap == h3
                &&& t.offer(h).slots.len() == 0
                &&& t.offer(h).outcome == Err::<(), GError>(r2->Err_0)
            }
            &&& r0 is Ok && r1 is Ok && r2 is Ok && r3 is Err ==> {
                &&& t.offer(h).heap == h4
                &&& t.offer(h).slots.len() == 0
                &&& t.offer(h).outcome == Err::<(), GError>(r3->Err_0)
            }
            &&& r0 is Ok && r1 is Ok && r2 is Ok && r3 is Ok && r4 is Err ==> {
                &&& t.offer(h).heap == h5
                &&& t.offer(h).slots.len() == 0
                &&& t.offer(h).outcome == Err::<(), GError>(r4->Err_0)
            }
            &&& r0 is Ok && r1 is Ok && r2 is Ok && r3 is Ok && r4 is Ok && r5 is Err ==> {
                &&& t.offer(h).heap == h6
                &&& t.offer(h).slots.len() == 0
                &&& t.offer(h).outcome == Err::<(), GError>(r5->Err_0)
            }
            &&& r0 is Ok && r1 is Ok && r2 is Ok && r3 is Ok && r4 is Ok && r5 is Ok
                && r6 is Err ==> {
                &&& t.offer(h).heap == h7
                &&& t.offer(h).slots.len() == 0
                &&& t.offer(h).outcome == Err::<(), GError>(r6->Err_0)
            }
            &&& r0 is Ok && r1 is Ok && r2 is Ok && r3 is Ok && r4 is Ok && r5 is Ok
                && r6 is Ok && r7 is Err ==> {
                &&& t.offer(h).heap == h8
                &&& t.offer(h).slots.len() == 0
                &&& t.offer(h).outcome == Err::<(), GError>(r7->Err_0)
            }
            &&& r0 is Ok && r1 is Ok && r2 is Ok && r3 is Ok && r4 is Ok && r5 is Ok
                && r6 is Ok && r7 is Ok && r8 is Err ==> {
                &&& t.offer(h).heap == h9
                &&& t.offer(h).slots.len() == 0
                &&& t.offer(h).outcome == Err::<(), GError>(r8->Err_0)
            }
            &&& r0 is Ok && r1 is Ok && r2 is Ok && r3 is Ok && r4 is Ok && r5 is Ok
                && r6 is Ok && r7 is Ok && r8 is Ok && r9 is Err ==> {
                &&& t.offer(h).heap == h10
                &&& t.offer(h).slots.len() == 0
                &&& t.offer(h).outcome == Err::<(), GError>(r9->Err_0)
            }
            &&& r0 is Ok && r1 is Ok && r2 is Ok && r3 is Ok && r4 is Ok && r5 is Ok
                && r6 is Ok && r7 is Ok && r8 is Ok && r9 is Ok && r10 is Err ==> {
                &&& t.offer(h).heap == h11
                &&& t.offer(h).slots.len() == 0
                &&& t.offer(h).outcome == Err::<(), GError>(r10->Err_0)
            }
            &&& r0 is Ok && r1 is Ok && r2 is Ok && r3 is Ok && r4 is Ok && r5 is Ok
                && r6 is Ok && r7 is Ok && r8 is Ok && r9 is Ok && r10 is Ok ==> {
                &&& t.offer(h).heap == h11
                &&& t.offer(h).slots == seq![
                    r0->Ok_0.slot(),
                    r1->Ok_0.slot(),
                    r2->Ok_0.slot(),
                    r3->Ok_0.slot(),
                    r4->Ok_0.slot(),
                    r5->Ok_0.slot(),
                    r6->Ok_0.slot(),
                    r7->Ok_0.slot(),
                    r8->Ok_0.slot(),
                    r9->Ok_0.slot(),
                    r10->Ok_0.slot(),
                ]
                &&& t.offer(h).outcome is Ok
            }
            &&& r0 is Ok ==> t.nth(h, 0) == (h1, Ok::<Slot, GError>(r0->Ok_0.slot()))
            &&& r0 is Err ==> t.nth(h, 0) == (h1, Err::<Slot, GError>(r0->Err_0))
            &&& r0 is Ok && r1 is Ok ==> t.nth(h, 1) == (h2, Ok::<Slot, GError>(r1->Ok_0.slot()))
            &&& r0 is Ok && r1 is Err ==> t.nth(h, 1) == (h2, Err::<Slot, GError>(r1->Err_0))
            &&& r0 is Ok && r1 is Ok && r2 is Ok ==> t.nth(h, 2) == (
                h3,
                Ok::<Slot, GError>(r2->Ok_0.slot()),
            )
            &&& r0 is Ok && r1 is Ok && r2 is Err ==> t.nth(h, 2) == (
                h3,
                Err::<Slot, GError>(r2->Err_0),
            )
            &&& r0 is Ok && r1 is Ok && r2 is Ok && r3 is Ok ==> t.nth(h, 3) == (
                h4,
                Ok::<Slot, GError>(r3->Ok_0.slot()),
            )
            &&& r0 is Ok && r1 is Ok && r2 is Ok && r3 is Err ==> t.nth(h, 3) == (
                h4,
                Err::<Slot, GError>(r3->Err_0),
            )
            &&& r0 is Ok && r1 is Ok && r2 is Ok && r3 is Ok && r4 is Ok ==> t.nth(h, 4) == (
                h5,
                Ok::<Slot, GError>(r4->Ok_0.slot()),
            )
            &&& r0 is Ok && r1 is Ok && r2 is Ok && r3 is Ok && r4 is Err ==> t.nth(h, 4) == (
                h5,
                Err::<Slot, GError>(r4->Err_0),
            )
            &&& r0 is Ok && r1 is Ok && r2 is Ok && r3 is Ok && r4 is Ok && r5 is Ok
                ==> t.nth(h, 5) == (h6, Ok::<Slot, GError>(r5->Ok_0.slot()))
            &&& r0 is Ok && r1 is Ok && r2 is Ok && r3 is Ok && r4 is Ok && r5 is Err
                ==> t.nth(h, 5) == (h6, Err::<Slot, GError>(r5->Err_0))
            &&& r0 is Ok && r1 is Ok && r2 is Ok && r3 is Ok && r4 is Ok && r5 is Ok
                && r6 is Ok ==> t.nth(h, 6) == (h7, Ok::<Slot, GError>(r6->Ok_0.slot()))
            &&& r0 is Ok && r1 is Ok && r2 is Ok && r3 is Ok && r4 is Ok && r5 is Ok
                && r6 is Err ==> t.nth(h, 6) == (h7, Err::<Slot, GError>(r6->Err_0))
            &&& r0 is Ok && r1 is Ok && r2 is Ok && r3 is Ok && r4 is Ok && r5 is Ok
                && r6 is Ok && r7 is Ok ==> t.nth(h, 7) == (h8, Ok::<Slot, GError>(r7->Ok_0.slot()))
            &&& r0 is Ok && r1 is Ok && r2 is Ok && r3 is Ok && r4 is Ok && r5 is Ok
                && r6 is Ok && r7 is Err ==> t.nth(h, 7) == (h8, Err::<Slot, GError>(r7->Err_0))
            &&& r0 is Ok && r1 is Ok && r2 is Ok && r3 is Ok && r4 is Ok && r5 is Ok
                && r6 is Ok && r7 is Ok && r8 is Ok ==> t.nth(h, 8)
                == (h9, Ok::<Slot, GError>(r8->Ok_0.slot()))
            &&& r0 is Ok && r1 is Ok && r2 is Ok && r3 is Ok && r4 is Ok && r5 is Ok
                && r6 is Ok && r7 is Ok && r8 is Err ==> t.nth(h, 8)
                == (h9, Err::<Slot, GError>(r8->Err_0))
            &&& r0 is Ok && r1 is Ok && r2 is Ok && r3 is Ok && r4 is Ok && r5 is Ok
                && r6 is Ok && r7 is Ok && r8 is Ok && r9 is Ok ==> t.nth(h, 9)
                == (h10, Ok::<Slot, GError>(r9->Ok_0.slot()))
            &&& r0 is Ok && r1 is Ok && r2 is Ok && r3 is Ok && r4 is Ok && r5 is Ok
                && r6 is Ok && r7 is Ok && r8 is Ok && r9 is Err ==> t.nth(h, 9)
                == (h10, Err::<Slot, GError>(r9->Err_0))
            &&& r0 is Ok && r1 is Ok && r2 is Ok && r3 is Ok && r4 is Ok && r5 is Ok
                && r6 is Ok && r7 is Ok && r8 is Ok && r9 is Ok && r10 is Ok ==> t.nth(h, 10)
                == (h11, Ok::<Slot, GError>(r10->Ok_0.slot()))
            &&& r0 is Ok && r1 is Ok && r2 is Ok && r3 is Ok && r4 is Ok && r5 is Ok
                && r6 is Ok && r7 is Ok && r8 is Ok && r9 is Ok && r10 is Err ==> t.nth(h, 10)
                == (h11, Err::<Slot, GError>(r10->Err_0))
        }),
{
}

/// A tuple of 12 is 12 arguments: its fields are converted in their order, and the slots are those
/// of the fields, each in the place of its own. Where one fails, the first such is the reason, and
/// there are no slots at all.
pub proof fn law_arguments_of_tuple_12<
    A: IntoVal,
    B: IntoVal,
    C: IntoVal,
    D: IntoVal,
    E: IntoVal,
    F: IntoVal,
    G: IntoVal,
    H: IntoVal,
    I: IntoVal,
    J: IntoVal,
    K: IntoVal,
    L: IntoVal,
>(t: (A, B, C, D, E, F, G, H, I, J, K, L), h: Store)
    ensures
        t.count() == 12,
        ({
            let (h1, r0) = t.0.to_val(h);
            let (h2, r1) = t.1.to_val(h1);
            let (h3, r2) = t.2.to_val(h2);
            let (h4, r3) = t.3.to_val(h3);
            let (h5, r4) = t.4.to_val(h4);
            let (h6, r5) = t.5.to_val(h5);
            let (h7, r6) = t.6.to_val(h6);
            let (h8, r7) = t.7.to_val(h7);
            let (h9, r8) = t.8.to_val(h8);
            let (h10, r9) = t.9.to_val(h9);
            let (h11, r10) = t.10.to_val(h10);
            let (h12, r11) = t.11.to_val(h11);
            &&& r0 is Err ==> {
                &&& t.offer(h).heap == h1
                &&& t.offer(h).slots.len() == 0
                &&& t.offer(h).outcome == Err::<(), GError>(r0->Err_0)
            }
            &&& r0 is Ok && r1 is Err ==> {
                &&& t.offer(h).heap == h2
                &&& t.offer(h).slots.len() == 0
                &&& t.offer(h).outcome == Err::<(), GError>(r1->Err_0)
            }
            &&& r0 is Ok && r1 is Ok && r2 is Err ==> {
                &&& t.offer(h).heap == h3
                &&& t.offer(h).slots.len() == 0
                &&& t.offer(h).outcome == Err::<(), GError>(r2->Err_0)
            }
            &&& r0 is Ok && r1 is Ok && r2 is Ok && r3 is Err ==> {
                &&& t.offer(h).heap == h4
                &&& t.offer(h).slots.len() == 0
                &&& t.offer(h).outcome == Err::<(), GError>(r3->Err_0)
            }
            &&& r0 is Ok && r1 is Ok && r2 is Ok && r3 is Ok && r4 is Err ==> {
                &&& t.offer(h).heap == h5
                &&& t.offer(h).slots.len() == 0
                &&& t.offer(h).outcome == Err::<(), GError>(r4->Err_0)
            }
            &&& r0 is Ok && r1 is Ok && r2 is Ok && r3 is Ok && r4 is Ok && r5 is Err ==> {
                &&& t.offer(h).heap == h6
                &&& t.offer(h).slots.len() == 0
                &&& t.offer(h).outcome == Err::<(), GError>(r5->Err_0)
            }
            &&& r0 is Ok && r1 is Ok && r2 is Ok && r3 is Ok && r4 is Ok && r5 is Ok
                && r6 is Err ==> {
                &&& t.offer(h).heap == h7
                &&& t.offer(h).slots.len() == 0
                &&& t.offer(h).outcome == Err::<(), GError>(r6->Err_0)
            }
            &&& r0 is Ok && r1 is Ok && r2 is Ok && r3 is Ok && r4 is Ok && r5 is Ok
                && r6 is Ok && r7 is Err ==> {
                &&& t.offer(h).heap == h8
                &&& t.offer(h).slots.len() == 0
                &&& t.offer(h).outcome == Err::<(), GError>(r7->Err_0)
            }
            &&& r0 is Ok && r1 is Ok && r2 is Ok && r3 is Ok && r4 is Ok && r5 is Ok
                && r6 is Ok && r7 is Ok && r8 is Err ==> {
                &&& t.offer(h).heap == h9
                &&& t.offer(h).slots.len() == 0
                &&& t.offer(h).outcome == Err::<(), GError>(r8->Err_0)
            }
            &&& r0 is Ok && r1 is Ok && r2 is Ok && r3 is Ok && r4 is Ok && r5 is Ok
                && r6 is Ok && r7 is Ok && r8 is Ok && r9 is Err ==> {
                &&& t.offer(h).heap == h10
                &&& t.offer(h).slots.len() == 0
                &&& t.offer(h).outcome == Err::<(), GError>(r9->Err_0)
            }
            &&& r0 is Ok && r1 is Ok && r2 is Ok && r3 is Ok && r4 is Ok && r5 is Ok
                && r6 is Ok && r7 is Ok && r8 is Ok && r9 is Ok && r10 is Err ==> {
                &&& t.offer(h).heap == h11
                &&& t.offer(h).slots.len() == 0
                &&& t.offer(h).outcome == Err::<(), GError>(r10->Err_0)
            }
            &&& r0 is Ok && r1 is Ok && r2 is Ok && r3 is Ok && r4 is Ok && r5 is Ok
                && r6 is Ok && r7 is Ok && r8 is Ok && r9 is Ok && r10 is Ok && r11 is Err ==> {
                &&& t.offer(h).heap == h12
                &&& t.offer(h).slots.len() == 0
                &&& t.offer(h).outcome == Err::<(), GError>(r11->Err_0)
            }
            &&& r0 is Ok && r1 is Ok && r2 is Ok && r3 is Ok && r4 is Ok && r5 is Ok
                && r6 is Ok && r7 is Ok && r8 is Ok && r9 is Ok && r10 is Ok && r11 is Ok ==> {
                &&& t.offer(h).heap == h12
                &&& t.offer(h).slots == seq![
                    r0->Ok_0.slot(),
                    r1->Ok_0.slot(),
                    r2->Ok_0.slot(),
                    r3->Ok_0.slot(),
                    r4->Ok_0.slot(),
                    r5->Ok_0.slot(),
                    r6->Ok_0.slot(),
                    r7->Ok_0.slot(),
                    r8->Ok_0.slot(),
                    r9->Ok_0.slot(),
                    r10->Ok_0.slot(),
                    r11->Ok_0.slot(),
                ]
                &&& t.offer(h).outcome is Ok
            }
            &&& r0 is Ok ==> t.nth(h, 0) == (h1, Ok::<Slot, GError>(r0->Ok_0.slot()))
            &&& r0 is Err ==> t.nth(h, 0) == (h1, Err::<Slot, GError>(r0->Err_0))
            &&& r0 is Ok && r1 is Ok ==> t.nth(h, 1) == (h2, Ok::<Slot, GError>(r1->Ok_0.slot()))
            &&& r0 is Ok && r1 is Err ==> t.nth(h, 1) == (h2, Err::<Slot, GError>(r1->Err_0))
            &&& r0 is Ok && r1 is Ok && r2 is Ok ==> t.nth(h, 2) == (
                h3,
                Ok::<Slot, GError>(r2->Ok_0.slot()),
            )
            &&& r0 is Ok && r1 is Ok && r2 is Err ==> t.nth(h, 2) == (
                h3,
                Err::<Slot, GError>(r2->Err_0),
            )
            &&& r0 is Ok && r1 is Ok && r2 is Ok && r3 is Ok ==> t.nth(h, 3) == (
                h4,
                Ok::<Slot, GError>(r3->Ok_0.slot()),
            )
            &&& r0 is Ok && r1 is Ok && r2 is Ok && r3 is Err ==> t.nth(h, 3) == (
                h4,
                Err::<Slot, GError>(r3->Err_0),
            )
            &&& r0 is Ok && r1 is Ok && r2 is Ok && r3 is Ok && r4 is Ok ==> t.nth(h, 4) == (
                h5,
                Ok::<Slot, GError>(r4->Ok_0.slot()),
            )
            &&& r0 is Ok && r1 is Ok && r2 is Ok && r3 is Ok && r4 is Err ==> t.nth(h, 4) == (
                h5,
                Err::<Slot, GError>(r4->Err_0),
            )
            &&& r0 is Ok && r1 is Ok && r2 is Ok && r3 is Ok && r4 is Ok && r5 is Ok
                ==> t.nth(h, 5) == (h6, Ok::<Slot, GError>(r5->Ok_0.slot()))
            &&& r0 is Ok && r1 is Ok && r2 is Ok && r3 is Ok && r4 is Ok && r5 is Err
                ==> t.nth(h, 5) == (h6, Err::<Slot, GError>(r5->Err_0))
            &&& r0 is Ok && r1 is Ok && r2 is Ok && r3 is Ok && r4 is Ok && r5 is Ok
                && r6 is Ok ==> t.nth(h, 6) == (h7, Ok::<Slot, GError>(r6->Ok_0.slot()))
            &&& r0 is Ok && r1 is Ok && r2 is Ok && r3 is Ok && r4 is Ok && r5 is Ok
                && r6 is Err ==> t.nth(h, 6) == (h7, Err::<Slot, GError>(r6->Err_0))
            &&& r0 is Ok && r1 is Ok && r2 is Ok && r3 is Ok && r4 is Ok && r5 is Ok
                && r6 is Ok && r7 is Ok ==> t.nth(h, 7) == (h8, Ok::<Slot, GError>(r7->Ok_0.slot()))
            &&& r0 is Ok && r1 is Ok && r2 is Ok && r3 is Ok && r4 is Ok && r5 is Ok
                && r6 is Ok && r7 is Err ==> t.nth(h, 7) == (h8, Err::<Slot, GError>(r7->Err_0))
            &&& r0 is Ok && r1 is Ok && r2 is Ok && r3 is Ok && r4 is Ok && r5 is Ok
                && r6 is Ok && r7 is Ok && r8 is Ok ==> t.nth(h, 8)
                == (h9, Ok::<Slot, GError>(r8->Ok_0.slot()))
            &&& r0 is Ok && r1 is Ok && r2 is Ok && r3 is Ok && r4 is Ok && r5 is Ok
                && r6 is Ok && r7 is Ok && r8 is Err ==> t.nth(h, 8)
                == (h9, Err::<Slot, GError>(r8->Err_0))
            &&& r0 is Ok && r1 is Ok && r2 is Ok && r3 is Ok && r4 is Ok && r5 is Ok
                && r6 is Ok && r7 is Ok && r8 is Ok && r9 is Ok ==> t.nth(h, 9)
                == (h10, Ok::<Slot, GError>(r9->Ok_0.slot()))
            &&& r0 is Ok && r1 is Ok && r2 is Ok && r3 is Ok && r4 is Ok && r5 is Ok
                && r6 is Ok && r7 is Ok && r8 is Ok && r9 is Err ==> t.nth(h, 9)
                == (h10, Err::<Slot, GError>(r9->Err_0))
            &&& r0 is Ok && r1 is Ok && r2 is Ok && r3 is Ok && r4 is Ok && r5 is Ok
                && r6 is Ok && r7 is Ok && r8 is Ok && r9 is Ok && r10 is Ok ==> t.nth(h, 10)
                == (h11, Ok::<Slot, GError>(r10->Ok_0.slot()))
            &&& r0 is Ok && r1 is Ok && r2 is Ok && r3 is Ok && r4 is Ok && r5 is Ok
                && r6 is Ok && r7 is Ok && r8 is Ok && r9 is Ok && r10 is Err ==> t.nth(h, 10)
                == (h11, Err::<Slot, GError>(r10->Err_0))
            &&& r0 is Ok && r1 is Ok && r2 is Ok && r3 is Ok && r4 is Ok && r5 is Ok
                && r6 is Ok && r7 is Ok && r8 is Ok && r9 is Ok && r10 is Ok && r11 is Ok
                ==> t.nth(h, 11) == (h12, Ok::<Slot, GError>(r11->Ok_0.slot()))
            &&& r0 is Ok && r1 is Ok && r2 is Ok && r3 is Ok && r4 is Ok && r5 is Ok
                && r6 is Ok && r7 is Ok && r8 is Ok && r9 is Ok && r10 is Ok && r11 is Err
                ==> t.nth(h, 11) == (h12, Err::<Slot, GError>(r11->Err_0))
        }),
{
}

/// The same by shared reference.
pub proof fn law_arguments_of_tuple_12_ref<'a, A, B, C, D, E, F, G, H, I, J, K, L>(
    t: &'a (A, B, C, D, E, F, G, H, I, J, K, L),
    h: Store,
) where &'a A: IntoVal, &'a B: IntoVal, &'a C: IntoVal, &'a D: IntoVal, &'a E: IntoVal,
    &'a F: IntoVal, &'a G: IntoVal, &'a H: IntoVal, &'a I: IntoVal, &'a J: IntoVal,
    &'a K: IntoVal, &'a L: IntoVal,
    ensures
        t.count() == 12,
        ({
            let (h1, r0) = (&t.0).to_val(h);
            let (h2, r1) = (&t.1).to_val(h1);
            let (h3, r2) = (&t.2).to_val(h2);
            let (h4, r3) = (&t.3).to_val(h3);
            let (h5, r4) = (&t.4).to_val(h4);
            let (h6, r5) = (&t.5).to_val(h5);
            let (h7, r6) = (&t.6).to_val(h6);
            let (h8, r7) = (&t.7).to_val(h7);
            let (h9, r8) = (&t.8).to_val(h8);
            let (h10, r9) = (&t.9).to_val(h9);
            let (h11, r10) = (&t.10).to_val(h10);
            let (h12, r11) = (&t.11).to_val(h11);
            &&& r0 is Err ==> {
                &&& t.offer(h).heap == h1
                &&& t.offer(h).slots.len() == 0
                &&& t.offer(h).outcome == Err::<(), GError>(r0->Err_0)
            }
            &&& r0 is Ok && r1 is Err ==> {
                &&& t.offer(h).heap == h2
                &&& t.offer(h).slots.len() == 0
                &&& t.offer(h).outcome == Err::<(), GError>(r1->Err_0)
            }
            &&& r0 is Ok && r1 is Ok && r2 is Err ==> {
                &&& t.offer(h).heap == h3
                &&& t.offer(h).slots.len() == 0
                &&& t.offer(h).outcome == Err::<(), GError>(r2->Err_0)
            }
            &&& r0 is Ok && r1 is Ok && r2 is Ok && r3 is Err ==> {
                &&& t.offer(h).heap == h4
                &&& t.offer(h).slots.len() == 0
                &&& t.offer(h).outcome == Err::<(), GError>(r3->Err_0)
            }
            &&& r0 is Ok && r1 is Ok && r2 is Ok && r3 is Ok && r4 is Err ==> {
                &&& t.offer(h).heap == h5
                &&& t.offer(h).slots.len() == 0
                &&& t.offer(h).outcome == Err::<(), GError>(r4->Err_0)
            }
            &&& r0 is Ok && r1 is Ok && r2 is Ok && r3 is Ok && r4 is Ok && r5 is Err ==> {
                &&& t.offer(h).heap == h6
                &&& t.offer(h).slots.len() == 0
                &&& t.offer(h).outcome == Err::<(), GError>(r5->Err_0)
            }
            &&& r0 is Ok && r1 is Ok && r2 is Ok && r3 is Ok && r4 is Ok && r5 is Ok
                && r6 is Err ==> {
                &&& t.offer(h).heap == h7
                &&& t.offer(h).slots.len() == 0
                &&& t.offer(h).outcome == Err::<(), GError>(r6->Err_0)
            }
            &&& r0 is Ok && r1 is Ok && r2 is Ok && r3 is Ok && r4 is Ok && r5 is Ok
                && r6 is Ok && r7 is Err ==> {
                &&& t.offer(h).heap == h8
                &&& t.offer(h).slots.len() == 0
                &&& t.offer(h).outcome == Err::<(), GError>(r7->Err_0)
            }
            &&& r0 is Ok && r1 is Ok && r2 is Ok && r3 is Ok && r4 is Ok && r5 is Ok
                && r6 is Ok && r7 is Ok && r8 is Err ==> {
                &&& t.offer(h).heap == h9
                &&& t.offer(h).slots.len() == 0
                &&& t.offer(h).outcome == Err::<(), GError>(r8->Err_0)
            }
            &&& r0 is Ok && r1 is Ok && r2 is Ok && r3 is Ok && r4 is Ok && r5 is Ok
                && r6 is Ok && r7 is Ok && r8 is Ok && r9 is Err ==> {
                &&& t.offer(h).heap == h10
                &&& t.offer(h).slots.len() == 0
                &&& t.offer(h).outcome == Err::<(), GError>(r9->Err_0)
            }
            &&& r0 is Ok && r1 is Ok && r2 is Ok && r3 is Ok && r4 is Ok && r5 is Ok
                && r6 is Ok && r7 is Ok && r8 is Ok && r9 is Ok && r10 is Err ==> {
                &&& t.offer(h).heap == h11
                &&& t.offer(h).slots.len() == 0
                &&& t.offer(h).outcome == Err::<(), GError>(r10->Err_0)
            }
            &&& r0 is Ok && r1 is Ok && r2 is Ok && r3 is Ok && r4 is Ok && r5 is Ok
                && r6 is Ok && r7 is Ok && r8 is Ok && r9 is Ok && r10 is Ok && r11 is Err ==> {
                &&& t.offer(h).heap == h12
                &&& t.offer(h).slots.len() == 0
                &&& t.offer(h).outcome == Err::<(), GError>(r11->Err_0)
            }
            &&& r0 is Ok && r1 is Ok && r2 is Ok && r3 is Ok && r4 is Ok && r5 is Ok
                && r6 is Ok && r7 is Ok && r8 is Ok && r9 is Ok && r10 is Ok && r11 is Ok ==> {
                &&& t.offer(h).heap == h12
                &&& t.offer(h).slots == seq![
                    r0->Ok_0.slot(),
                    r1->Ok_0.slot(),
                    r2->Ok_0.slot(),
                    r3->Ok_0.slot(),
                    r4->Ok_0.slot(),
                    r5->Ok_0.slot(),
                    r6->Ok_0.slot(),
                    r7->Ok_0.slot(),
                    r8->Ok_0.slot(),
                    r9->Ok_0.slot(),
                    r10->Ok_0.slot(),
                    r11->Ok_0.slot(),
                ]
                &&& t.offer(h).outcome is Ok
            }
            &&& r0 is Ok ==> t.nth(h, 0) == (h1, Ok::<Slot, GError>(r0->Ok_0.slot()))
            &&& r0 is Err ==> t.nth(h, 0) == (h1, Err::<Slot, GError>(r0->Err_0))
            &&& r0 is Ok && r1 is Ok ==> t.nth(h, 1) == (h2, Ok::<Slot, GError>(r1->Ok_0.slot()))
            &&& r0 is Ok && r1 is Err ==> t.nth(h, 1) == (h2, Err::<Slot, GError>(r1->Err_0))
            &&& r0 is Ok && r1 is Ok && r2 is Ok ==> t.nth(h, 2) == (
                h3,
                Ok::<Slot, GError>(r2->Ok_0.slot()),
            )
            &&& r0 is Ok && r1 is Ok && r2 is Err ==> t.nth(h, 2) == (
                h3,
                Err::<Slot, GError>(r2->Err_0),
            )
            &&& r0 is Ok && r1 is Ok && r2 is Ok && r3 is Ok ==> t.nth(h, 3) == (
                h4,
                Ok::<Slot, GError>(r3->Ok_0.slot()),
            )
            &&& r0 is Ok && r1 is Ok && r2 is Ok && r3 is Err ==> t.nth(h, 3) == (
                h4,
                Err::<Slot, GError>(r3->Err_0),
            )
            &&& r0 is Ok && r1 is Ok && r2 is Ok && r3 is Ok && r4 is Ok ==> t.nth(h, 4) == (
                h5,
                Ok::<Slot, GError>(r4->Ok_0.slot()),
            )
            &&& r0 is Ok && r1 is Ok && r2 is Ok && r3 is Ok && r4 is Err ==> t.nth(h, 4) == (
                h5,
                Err::<Slot, GError>(r4->Err_0),
            )
            &&& r0 is Ok && r1 is Ok && r2 is Ok && r3 is Ok && r4 is Ok && r5 is Ok
                ==> t.nth(h, 5) == (h6, Ok::<Slot, GError>(r5->Ok_0.slot()))
            &&& r0 is Ok && r1 is Ok && r2 is Ok && r3 is Ok && r4 is Ok && r5 is Err
                ==> t.nth(h, 5) == (h6, Err::<Slot, GError>(r5->Err_0))
            &&& r0 is Ok && r1 is Ok && r2 is Ok && r3 is Ok && r4 is Ok && r5 is Ok
                && r6 is Ok ==> t.nth(h, 6) == (h7, Ok::<Slot, GError>(r6->Ok_0.slot()))
            &&& r0 is Ok && r1 is Ok && r2 is Ok && r3 is Ok && r4 is Ok && r5 is Ok
                && r6 is Err ==> t.nth(h, 6) == (h7, Err::<Slot, GError>(r6->Err_0))
            &&& r0 is Ok && r1 is Ok && r2 is Ok && r3 is Ok && r4 is Ok && r5 is Ok
                && r6 is Ok && r7 is Ok ==> t.nth(h, 7) == (h8, Ok::<Slot, GError>(r7->Ok_0.slot()))
            &&& r0 is Ok && r1 is Ok && r2 is Ok && r3 is Ok && r4 is Ok && r5 is Ok
                && r6 is Ok && r7 is Err ==> t.nth(h, 7) == (h8, Err::<Slot, GError>(r7->Err_0))
            &&& r0 is Ok && r1 is Ok && r2 is Ok && r3 is Ok && r4 is Ok && r5 is Ok
                && r6 is Ok && r7 is Ok && r8 is Ok ==> t.nth(h, 8)
                == (h9, Ok::<Slot, GError>(r8->Ok_0.slot()))
            &&& r0 is Ok && r1 is Ok && r2 is Ok && r3 is Ok && r4 is Ok && r5 is Ok
                && r6 is Ok && r7 is Ok && r8 is Err ==> t.nth(h, 8)
                == (h9, Err::<Slot, GError>(r8->Err_0))
            &&& r0 is Ok && r1 is Ok && r2 is Ok && r3 is Ok && r4 is Ok && r5 is Ok
                && r6 is Ok && r7 is Ok && r8 is Ok && r9 is Ok ==> t.nth(h, 9)
                == (h10, Ok::<Slot, GError>(r9->Ok_0.slot()))
            &&& r0 is Ok && r1 is Ok && r2 is Ok && r3 is Ok && r4 is Ok && r5 is Ok
                && r6 is Ok && r7 is Ok && r8 is Ok && r9 is Err ==> t.nth(h, 9)
                == (h10, Err::<Slot, GError>(r9->Err_0))
            &&& r0 is Ok && r1 is Ok && r2 is Ok && r3 is Ok && r4 is Ok && r5 is Ok
                && r6 is Ok && r7 is Ok && r8 is Ok && r9 is Ok && r10 is Ok ==> t.nth(h, 10)
                == (h11, Ok::<Slot, GError>(r10->Ok_0.slot()))
            &&& r0 is Ok && r1 is Ok && r2 is Ok && r3 is Ok && r4 is Ok && r5 is Ok
                && r6 is Ok && r7 is Ok && r8 is Ok && r9 is Ok && r10 is Err ==> t.nth(h, 10)
                == (h11, Err::<Slot, GError>(r10->Err_0))
            &&& r0 is Ok && r1 is Ok && r2 is Ok && r3 is Ok && r4 is Ok && r5 is Ok
                && r6 is Ok && r7 is Ok && r8 is Ok && r9 is Ok && r10 is Ok && r11 is Ok
                ==> t.nth(h, 11) == (h12, Ok::<Slot, GError>(r11->Ok_0.slot()))
            &&& r0 is Ok && r1 is Ok && r2 is Ok && r3 is Ok && r4 is Ok && r5 is Ok
                && r6 is Ok && r7 is Ok && r8 is Ok && r9 is Ok && r10 is Ok && r11 is Err
                ==> t.nth(h, 11) == (h12, Err::<Slot, GError>(r11->Err_0))
        }),
{
}

/// The same by mutable reference.
pub proof fn law_arguments_of_tuple_12_mut<
    'a,
    A: IntoValMut,
    B: IntoValMut,
    C: IntoValMut,
    D: IntoValMut,
    E: IntoValMut,
    F: IntoValMut,
    G: IntoValMut,
    H: IntoValMut,
    I: IntoValMut,
    J: IntoValMut,
    K: IntoValMut,
    L: IntoValMut,
>(t: &'a mut (A, B, C, D, E, F, G, H, I, J, K, L), h: Store)
    ensures
        t.count() == 12,
        ({
            let (h1, r0) = old(t).0.mut_to_val(h);
            let (h2, r1) = old(t).1.mut_to_val(h1);
            let (h3, r2) = old(t).2.mut_to_val(h2);
            let (h4, r3) = old(t).3.mut_to_val(h3);
            let (h5, r4) = old(t).4.mut_to_val(h4);
            let (h6, r5) = old(t).5.mut_to_val(h5);
            let (h7, r6) = old(t).6.mut_to_val(h6);
            let (h8, r7) = old(t).7.mut_to_val(h7);
            let (h9, r8) = old(t).8.mut_to_val(h8);
            let (h10, r9) = old(t).9.mut_to_val(h9);
            let (h11, r10) = old(t).10.mut_to_val(h10);
            let (h12, r11) = old(t).11.mut_to_val(h11);
            &&& r0 is Err ==> {
                &&& t.offer(h).heap == h1
                &&& t.offer(h).slots.len() == 0
                &&& t.offer(h).outcome == Err::<(), GError>(r0->Err_0)
            }
            &&& r0 is Ok && r1 is Err ==> {
                &&& t.offer(h).heap == h2
                &&& t.offer(h).slots.len() == 0
                &&& t.offer(h).outcome == Err::<(), GError>(r1->Err_0)
            }
            &&& r0 is Ok && r1 is Ok && r2 is Err ==> {
                &&& t.offer(h).heap == h3
                &&& t.offer(h).slots.len() == 0
                &&& t.offer(h).outcome == Err::<(), GError>(r2->Err_0)
            }
            &&& r0 is Ok && r1 is Ok && r2 is Ok && r3 is Err ==> {
                &&& t.offer(h).heap == h4
                &&& t.offer(h).slots.len() == 0
                &&& t.offer(h).outcome == Err::<(), GError>(r3->Err_0)
            }
            &&& r0 is Ok && r1 is Ok && r2 is Ok && r3 is Ok && r4 is Err ==> {
                &&& t.offer(h).heap == h5
                &&& t.offer(h).slots.len() == 0
                &&& t.offer(h).outcome == Err::<(), GError>(r4->Err_0)
            }
            &&& r0 is Ok && r1 is Ok && r2 is Ok && r3 is Ok && r4 is Ok && r5 is Err ==> {
                &&& t.offer(h).heap == h6
                &&& t.offer(h).slots.len() == 0
                &&& t.offer(h).outcome == Err::<(), GError>(r5->Err_0)
            }
            &&& r0 is Ok && r1 is Ok && r2 is Ok && r3 is Ok && r4 is Ok && r5 is Ok
                && r6 is Err ==> {
                &&& t.offer(h).heap == h7
                &&& t.offer(h).slots.len() == 0
                &&& t.offer(h).outcome == Err::<(), GError>(r6->Err_0)
            }
            &&& r0 is Ok && r1 is Ok && r2 is Ok && r3 is Ok && r4 is Ok && r5 is Ok
                && r6 is Ok && r7 is Err ==> {
                &&& t.offer(h).heap == h8
                &&& t.offer(h).slots.len() == 0
                &&& t.offer(h).outcome == Err::<(), GError>(r7->Err_0)
            }
            &&& r0 is Ok && r1 is Ok && r2 is Ok && r3 is Ok && r4 is Ok && r5 is Ok
                && r6 is Ok && r7 is Ok && r8 is Err ==> {
                &&& t.offer(h).heap == h9
                &&& t.offer(h).slots.len() == 0
                &&& t.offer(h).outcome == Err::<(), GError>(r8->Err_0)
            }
            &&& r0 is Ok && r1 is Ok && r2 is Ok && r3 is Ok && r4 is Ok && r5 is Ok
                && r6 is Ok && r7 is Ok && r8 is Ok && r9 is Err ==> {
                &&& t.offer(h).heap == h10
                &&& t.offer(h).slots.len() == 0
                &&& t.offer(h).outcome == Err::<(), GError>(r9->Err_0)
            }
            &&& r0 is Ok && r1 is Ok && r2 is Ok && r3 is Ok && r4 is Ok && r5 is Ok
                && r6 is Ok && r7 is Ok && r8 is Ok && r9 is Ok && r10 is Err ==> {
                &&& t.offer(h).heap == h11
                &&& t.offer(h).slots.len() == 0
                &&& t.offer(h).outcome == Err::<(), GError>(r10->Err_0)
            }
            &&& r0 is Ok && r1 is Ok && r2 is Ok && r3 is Ok && r4 is Ok && r5 is Ok
                && r6 is Ok && r7 is Ok && r8 is Ok && r9 is Ok && r10 is Ok && r11 is Err ==> {
                &&& t.offer(h).heap == h12
                &&& t.offer(h).slots.len() == 0
                &&& t.offer(h).outcome == Err::<(), GError>(r11->Err_0)
            }
            &&& r0 is Ok && r1 is Ok && r2 is Ok && r3 is Ok && r4 is Ok && r5 is Ok
                && r6 is Ok && r7 is Ok && r8 is Ok && r9 is Ok && r10 is Ok && r11 is Ok ==> {
                &&& t.offer(h).heap == h12
                &&& t.offer(h).slots == seq![
                    r0->Ok_0.slot(),
                    r1->Ok_0.slot(),
                    r2->Ok_0.slot(),
                    r3->Ok_0.slot(),
                    r4->Ok_0.slot(),
                    r5->Ok_0.slot(),
                    r6->Ok_0.slot(),
                    r7->Ok_0.slot(),
                    r8->Ok_0.slot(),
                    r9->Ok_0.slot(),
                    r10->Ok_0.slot(),
                    r11->Ok_0.slot(),
                ]
                &&& t.offer(h).outcome is Ok
            }
            &&& r0 is Ok ==> t.nth(h, 0) == (h1, Ok::<Slot, GError>(r0->Ok_0.slot()))
            &&& r0 is Err ==> t.nth(h, 0) == (h1, Err::<Slot, GError>(r0->Err_0))
            &&& r0 is Ok && r1 is Ok ==> t.nth(h, 1) == (h2, Ok::<Slot, GError>(r1->Ok_0.slot()))
            &&& r0 is Ok && r1 is Err ==> t.nth(h, 1) == (h2, Err::<Slot, GError>(r1->Err_0))
            &&& r0 is Ok && r1 is Ok && r2 is Ok ==> t.nth(h, 2) == (
                h3,
                Ok::<Slot, GError>(r2->Ok_0.slot()),
            )
            &&& r0 is Ok && r1 is Ok && r2 is Err ==> t.nth(h, 2) == (
                h3,
                Err::<Slot, GError>(r2->Err_0),
            )
            &&& r0 is Ok && r1 is Ok && r2 is Ok && r3 is Ok ==> t.nth(h, 3) == (
                h4,
                Ok::<Slot, GError>(r3->Ok_0.slot()),
            )
            &&& r0 is Ok && r1 is Ok && r2 is Ok && r3 is Err ==> t.nth(h, 3) == (
                h4,
                Err::<Slot, GError>(r3->Err_0),
            )
            &&& r0 is Ok && r1 is Ok && r2 is Ok && r3 is Ok && r4 is Ok ==> t.nth(h, 4) == (
                h5,
                Ok::<Slot, GError>(r4->Ok_0.slot()),
            )
            &&& r0 is Ok && r1 is Ok && r2 is Ok && r3 is Ok && r4 is Err ==> t.nth(h, 4) == (
                h5,
                Err::<Slot, GError>(r4->Err_0),
            )
            &&& r0 is Ok && r1 is Ok && r2 is Ok && r3 is Ok && r4 is Ok && r5 is Ok
                ==> t.nth(h, 5) == (h6, Ok::<Slot, GError>(r5->Ok_0.slot()))
            &&& r0 is Ok && r1 is Ok && r2 is Ok && r3 is Ok && r4 is Ok && r5 is Err
                ==> t.nth(h, 5) == (h6, Err::<Slot, GError>(r5->Err_0))
            &&& r0 is Ok && r1 is Ok && r2 is Ok && r3 is Ok && r4 is Ok && r5 is Ok
                && r6 is Ok ==> t.nth(h, 6) == (h7, Ok::<Slot, GError>(r6->Ok_0.slot()))
            &&& r0 is Ok && r1 is Ok && r2 is Ok && r3 is Ok && r4 is Ok && r5 is Ok
                && r6 is Err ==> t.nth(h, 6) == (h7, Err::<Slot, GError>(r6->Err_0))
            &&& r0 is Ok && r1 is Ok && r2 is Ok && r3 is Ok && r4 is Ok && r5 is Ok
                && r6 is Ok && r7 is Ok ==> t.nth(h, 7) == (h8, Ok::<Slot, GError>(r7->Ok_0.slot()))
            &&& r0 is Ok && r1 is Ok && r2 is Ok && r3 is Ok && r4 is Ok && r5 is Ok
                && r6 is Ok && r7 is Err ==> t.nth(h, 7) == (h8, Err::<Slot, GError>(r7->Err_0))
            &&& r0 is Ok && r1 is Ok && r2 is Ok && r3 is Ok && r4 is Ok && r5 is Ok
                && r6 is Ok && r7 is Ok && r8 is Ok ==> t.nth(h, 8)
                == (h9, Ok::<Slot, GError>(r8->Ok_0.slot()))
            &&& r0 is Ok && r1 is Ok && r2 is Ok && r3 is Ok && r4 is Ok && r5 is Ok
                && r6 is Ok && r7 is Ok && r8 is Err ==> t.nth(h, 8)
                == (h9, Err::<Slot, GError>(r8->Err_0))
            &&& r0 is Ok && r1 is Ok && r2 is Ok && r3 is Ok && r4 is Ok && r5 is Ok
                && r6 is Ok && r7 is Ok && r8 is Ok && r9 is Ok ==> t.nth(h, 9)
                == (h10, Ok::<Slot, GError>(r9->Ok_0.slot()))
            &&& r0 is Ok && r1 is Ok && r2 is Ok && r3 is Ok && r4 is Ok && r5 is Ok
                && r6 is Ok && r7 is Ok && r8 is Ok && r9 is Err ==> t.nth(h, 9)
                == (h10, Err::<Slot, GError>(r9->Err_0))
            &&& r0 is Ok && r1 is Ok && r2 is Ok && r3 is Ok && r4 is Ok && r5 is Ok
                && r6 is Ok && r7 is Ok && r8 is Ok && r9 is Ok && r10 is Ok ==> t.nth(h, 10)
                == (h11, Ok::<Slot, GError>(r10->Ok_0.slot()))
            &&& r0 is Ok && r1 is Ok && r2 is Ok && r3 is Ok && r4 is Ok && r5 is Ok
                && r6 is Ok && r7 is Ok && r8 is Ok && r9 is Ok && r10 is Err ==> t.nth(h, 10)
                == (h11, Err::<Slot, GError>(r10->Err_0))
            &&& r0 is Ok && r1 is Ok && r2 is Ok && r3 is Ok && r4 is Ok && r5 is Ok
                && r6 is Ok && r7 is Ok && r8 is Ok && r9 is Ok && r10 is Ok && r11 is Ok
                ==> t.nth(h, 11) == (h12, Ok::<Slot, GError>(r11->Ok_0.slot()))
            &&& r0 is Ok && r1 is Ok && r2 is Ok && r3 is Ok && r4 is Ok && r5 is Ok
                && r6 is Ok && r7 is Ok && r8 is Ok && r9 is Ok && r10 is Ok && r11 is Err
                ==> t.nth(h, 11) == (h12, Err::<Slot, GError>(r11->Err_0))
        }),
{
}

} // verus!
