//! What holds of the library as a whole.

use vstd::prelude::*;

use crate::args::FromArg;
use crate::args_ref::{kept_of, FromArgRef, Kept};
use crate::call_args::IntoCallArgs;
use crate::error::{Expected, GError, GResult, MapType};
use crate::from_map::gathered;
use crate::from_val::{each, lemma_each_ok, FromVal, Plain};
use crate::into_val::{slotted, IntoVal};
use crate::limits::{
    fewest, law_normal_in_range, most, open_ended, positions, start_of, ArgType,
};
use crate::lossless::{law_round_trip, Lossless, RoundTrip};
use crate::marker::{ErrorMarker, HostType, RGlobalMarker};
use crate::rest::Rest;
use crate::store::{clashes, Heap, HostCell, Place, Store};
use crate::value::{law_slot_and_val, HostValue, Slot, Val};
use crate::wrap::{
    all_made, all_ready, concluded, failure, fitting, refusal, Param, Params, TagArg, TagArgRef,
    WrappedCall, Wrapper,
};

verus! {

/// An absent value converts to `nil`, and a present one as what it is.
pub proof fn law_option_into_val<T: IntoVal>(t: T, h: Store)
    ensures
        None::<T>.to_val(h) == (h, Ok::<Val, GError>(Val::Nil)),
        Some(t).to_val(h) == t.to_val(h),
{
}

/// A successful result converts as what it holds. An error of the engine's own comes out as it
/// went in, `MacroNoOp` too.
pub proof fn law_result_into_val<T: IntoVal>(t: T, e: GError, h: Store)
    ensures
        Ok::<T, GError>(t).to_val(h) == t.to_val(h),
        Err::<T, GError>(e).to_val(h) == (h, Err::<Val, GError>(e)),
{
}

/// An optional parameter for which there is no argument, or for which the argument is `nil`, is
/// `None`, whatever its type; with any other argument it is what a parameter of that type is.
pub proof fn law_optional_parameter<T: FromArg>(args: Seq<Slot>, i: int, h: Store)
    requires
        0 <= i,
    ensures
        <Option<T> as FromArg>::takes() is Option,
        i >= args.len() || args[i] is Nil ==> <Option<T> as FromArg>::temp_of(args, i, h) == (
            h,
            Ok::<Option<T::TempModel>, GError>(None),
        ),
        <Option<T> as FromArg>::arg_of(None, h) == Ok::<Option<T::OutModel>, GError>(None),
        i < args.len() && !(args[i] is Nil) ==> {
            let (h1, r) = T::temp_of(args, i, h);
            let (h2, ro) = <Option<T> as FromArg>::temp_of(args, i, h);
            &&& h1 == h2
            &&& r matches Err(e) ==> ro == Err::<Option<T::TempModel>, GError>(e)
            &&& r matches Ok(temp) ==> ro == Ok::<Option<T::TempModel>, GError>(Some(temp))
        },
{
}

/// The same of an optional parameter that is a reference.
pub proof fn law_optional_reference<T: FromArgRef>(args: Seq<Slot>, i: int, h: Store)
    requires
        0 <= i,
    ensures
        <Option<T> as FromArgRef>::takes() is Option,
        i >= args.len() || args[i] is Nil ==> <Option<T> as FromArgRef>::temp_of(args, i, h) == (
            h,
            Ok::<Option<T::TempModel>, GError>(None),
        ),
        <Option<T> as FromArgRef>::arg_of(None, h) == Ok::<Option<T::OutModel>, GError>(None),
        i < args.len() && !(args[i] is Nil) ==> {
            let (h1, r) = T::temp_of(args, i, h);
            let (h2, ro) = <Option<T> as FromArgRef>::temp_of(args, i, h);
            &&& h1 == h2
            &&& r matches Err(e) ==> ro == Err::<Option<T::TempModel>, GError>(e)
            &&& r matches Ok(temp) ==> ro == Ok::<Option<T::TempModel>, GError>(Some(temp))
        },
{
}

/// A `Rest` parameter collects every argument from where it starts, each converted, in order; and
/// none where it starts past the last of them.
pub proof fn law_rest_collects_all<T: FromVal>(args: Seq<Slot>, i: int, h: Store)
    requires
        0 <= i,
    ensures
        ({
            let (h1, temp) = <Rest<'static, T> as FromArg>::temp_of(args, i, h);
            let collected = <Rest<'static, T> as FromArg>::arg_of(temp->Ok_0, h1);
            &&& temp is Ok
            &&& h1 == h
            &&& i >= args.len() ==> collected == Ok::<Seq<T::Model>, GError>(seq![])
            &&& i < args.len() ==> collected == each::<T>(h, args.skip(i))
            &&& i <= args.len() && collected is Ok ==> {
                &&& collected->Ok_0.len() == args.len() - i
                &&& forall|j: int|
                    i <= j < args.len() ==> T::of_val(h, (#[trigger] args[j]).val()) == Ok::<
                        T::Model,
                        GError,
                    >(collected->Ok_0[j - i])
            }
        }),
{
    if i < args.len() {
        let left = args.skip(i);
        if each::<T>(h, left) is Ok {
            lemma_each_ok::<T>(h, left);
            assert forall|j: int| i <= j < args.len() implies T::of_val(
                h,
                (#[trigger] args[j]).val(),
            ) == Ok::<T::Model, GError>(each::<T>(h, left)->Ok_0[j - i]) by {
                assert(left[j - i] == args[j]);
                assert(T::of_val(h, left[j - i].val()) == Ok::<T::Model, GError>(
                    each::<T>(h, left)->Ok_0[j - i],
                ));
            }
        }
    }
}

/// Where a list is converted, as many come out as went in, each the conversion of its own slot.
pub proof fn law_items_converted<T: FromVal>(h: Store, slots: Seq<Slot>)
    requires
        each::<T>(h, slots) is Ok,
    ensures
        each::<T>(h, slots)->Ok_0.len() == slots.len(),
        forall|i: int|
            0 <= i < slots.len() ==> T::of_val(h, #[trigger] slots[i].val()) == Ok::<
                T::Model,
                GError,
            >(each::<T>(h, slots)->Ok_0[i]),
{
    lemma_each_ok::<T>(h, slots);
}

/// A list is converted where every one of its slots can be.
pub proof fn law_list_converts<T: FromVal>(h: Store, slots: Seq<Slot>)
    requires
        forall|i: int| 0 <= i < slots.len() ==> T::of_val(h, #[trigger] slots[i].val()) is Ok,
    ensures
        each::<T>(h, slots) is Ok,
{
    lemma_all_ok::<T>(h, slots, slots);
}

/// Where some slot of a list cannot be converted, the first such is the reason.
pub proof fn law_first_failure<T: FromVal>(h: Store, slots: Seq<Slot>, k: int)
    requires
        0 <= k < slots.len(),
        T::of_val(h, slots[k].val()) is Err,
        forall|i: int| 0 <= i < k ==> T::of_val(h, #[trigger] slots[i].val()) is Ok,
    ensures
        each::<T>(h, slots) == Err::<Seq<T::Model>, GError>(T::of_val(h, slots[k].val())->Err_0),
    decreases slots.len(),
{
    let earlier = slots.drop_last();
    if k < slots.len() - 1 {
        assert(earlier[k] == slots[k]);
        assert forall|i: int| 0 <= i < k implies T::of_val(
            h,
            #[trigger] earlier[i].val(),
        ) is Ok by {
            assert(earlier[i] == slots[i]);
            assert(T::of_val(h, slots[i].val()) is Ok);
        }
        law_first_failure::<T>(h, earlier, k);
    } else {
        lemma_all_ok::<T>(h, earlier, slots);
    }
}

proof fn lemma_all_ok<T: FromVal>(h: Store, prefix: Seq<Slot>, slots: Seq<Slot>)
    requires
        prefix.len() <= slots.len(),
        forall|i: int| 0 <= i < prefix.len() ==> prefix[i] == slots[i],
        forall|i: int| 0 <= i < prefix.len() ==> T::of_val(h, #[trigger] slots[i].val()) is Ok,
    ensures
        each::<T>(h, prefix) is Ok,
    decreases prefix.len(),
{
    if prefix.len() > 0 {
        lemma_all_ok::<T>(h, prefix.drop_last(), slots);
        assert(prefix.last() == slots[prefix.len() - 1]);
        assert(T::of_val(h, slots[prefix.len() - 1].val()) is Ok);
    }
}

/// A table becomes a map only where no two of its keys are one key of the map, and every one of
/// its entries is in it.
pub proof fn law_no_key_twice<K: FromVal + Plain, V: FromVal>(
    h: Store,
    entries: Seq<(Slot, Slot)>,
    map_type: MapType,
)
    requires
        gathered::<K, V>(h, entries, map_type) is Ok,
    ensures
        forall|i: int, j: int|
            0 <= i < j < entries.len() ==> K::of_val(h, (#[trigger] entries[i]).0.val())
                != K::of_val(h, (#[trigger] entries[j]).0.val()),
        forall|i: int|
            0 <= i < entries.len() ==> {
                &&& K::of_val(h, (#[trigger] entries[i]).0.val()) is Ok
                &&& V::of_val(h, entries[i].1.val()) is Ok
                &&& gathered::<K, V>(h, entries, map_type)->Ok_0.contains_key(
                    K::of_val(h, entries[i].0.val())->Ok_0,
                )
                &&& gathered::<K, V>(h, entries, map_type)->Ok_0[K::of_val(
                    h,
                    entries[i].0.val(),
                )->Ok_0] == V::of_val(h, entries[i].1.val())->Ok_0
            },
    decreases entries.len(),
{
    if entries.len() > 0 {
        let earlier = entries.drop_last();
        let last = entries.len() - 1;
        law_no_key_twice::<K, V>(h, earlier, map_type);
        assert forall|i: int, j: int| 0 <= i < j < entries.len() implies K::of_val(
            h,
            (#[trigger] entries[i]).0.val(),
        ) != K::of_val(h, (#[trigger] entries[j]).0.val()) by {
            assert(earlier[i] == entries[i]);
            if j < last {
                assert(earlier[j] == entries[j]);
            }
        }
        assert forall|i: int| 0 <= i < entries.len() implies {
            &&& K::of_val(h, (#[trigger] entries[i]).0.val()) is Ok
            &&& V::of_val(h, entries[i].1.val()) is Ok
            &&& gathered::<K, V>(h, entries, map_type)->Ok_0.contains_key(
                K::of_val(h, entries[i].0.val())->Ok_0,
            )
            &&& gathered::<K, V>(h, entries, map_type)->Ok_0[K::of_val(
                h,
                entries[i].0.val(),
            )->Ok_0] == V::of_val(h, entries[i].1.val())->Ok_0
        } by {
            if i < last {
                assert(earlier[i] == entries[i]);
            }
        }
    }
}

/// A reference to a global takes no argument, whether shared or exclusive.
pub proof fn law_global_reference<T: RGlobalMarker>()
    ensures
        <&'static T as FromArgRef>::takes() is RGlobal,
        <&'static mut T as FromArgRef>::takes() is RGlobal,
{
    T::lawful_global();
}

/// A parameter that takes no argument counts for nothing, wherever it stands: the limits are those
/// of the other parameters.
pub proof fn law_globals_take_no_argument(before: Seq<ArgType>, after: Seq<ArgType>)
    ensures
        fewest(before.push(ArgType::RGlobal) + after) == fewest(before + after),
        most(before.push(ArgType::RGlobal) + after) == most(before + after),
        start_of(before.push(ArgType::RGlobal) + after, before.len() as int + 1) == start_of(
            before + after,
            before.len() as int,
        ),
{
    let with = before.push(ArgType::RGlobal) + after;
    let without = before + after;
    lemma_global_counts_nothing(before, after);
    assert(open_ended(with) == open_ended(without)) by {
        if open_ended(with) {
            let i = choose|i: int| #![trigger with[i]] 0 <= i < with.len() && with[i] is Rest;
            if i < before.len() {
                assert(without[i] is Rest);
            } else {
                assert(without[i - 1] is Rest);
            }
        }
        if open_ended(without) {
            let i = choose|i: int|
                #![trigger without[i]]
                0 <= i < without.len() && without[i] is Rest;
            if i < before.len() {
                assert(with[i] is Rest);
            } else {
                assert(with[i + 1] is Rest);
            }
        }
    }
    lemma_same_start(with, without, before.len() as int);
}

proof fn lemma_same_start(with: Seq<ArgType>, without: Seq<ArgType>, i: int)
    requires
        0 <= i <= with.len(),
        i <= without.len(),
        forall|j: int| 0 <= j < i ==> with[j] == without[j],
    ensures
        start_of(with, i) == start_of(without, i),
    decreases i,
{
    if i > 0 {
        lemma_same_start(with, without, i - 1);
    }
}

proof fn lemma_global_counts_nothing(before: Seq<ArgType>, after: Seq<ArgType>)
    ensures
        fewest(before.push(ArgType::RGlobal) + after) == fewest(before + after),
        positions(before.push(ArgType::RGlobal) + after) == positions(before + after),
    decreases after.len(),
{
    let with = before.push(ArgType::RGlobal) + after;
    let without = before + after;
    if after.len() == 0 {
        assert(with =~= before.push(ArgType::RGlobal));
        assert(without =~= before);
        assert(with.drop_last() =~= before);
    } else {
        lemma_global_counts_nothing(before, after.drop_last());
        assert(with.drop_last() =~= before.push(ArgType::RGlobal) + after.drop_last());
        assert(without.drop_last() =~= before + after.drop_last());
    }
}

/// Preparing the arguments of a call changes nothing on the heap: it only borrows from it, and
/// where it fails it leaves nothing borrowed.
pub proof fn law_preparing_only_borrows<A: Params>(args: Seq<Slot>, h: Store)
    ensures
        A::prepared(args, h).0.only_borrowed(h),
        A::prepared(args, h).1 is Err ==> A::prepared(args, h).0 == h,
{
    A::lawful_prepared(args, h);
}

/// A call with fewer or more arguments than the limits allow is answered with exactly that error,
/// and leaves the heap as it was.
pub proof fn law_limits_enforced<W: WrappedCall>(
    w: &W,
    args: Seq<Slot>,
    h0: Store,
    h1: Store,
    r: GResult<Slot>,
)
    requires
        w.gives(args, h0, h1, r),
    ensures
        args.len() < w.limits().0 ==> h1 == h0 && r == Err::<Slot, GError>(
            GError::TooFewArgs { received: args.len() as usize, at_least: w.limits().0 },
        ),
        w.limits().0 <= args.len() && w.limits().1 < args.len() ==> h1 == h0 && r == Err::<
            Slot,
            GError,
        >(GError::TooManyArgs { received: args.len() as usize, at_most: w.limits().1 }),
{
    w.lawful_call(args, h0, h1, r);
}

/// A call that never reaches the function returns the reason, and leaves the heap as it was.
pub proof fn law_refused_call<W: WrappedCall>(
    w: &W,
    args: Seq<Slot>,
    h0: Store,
    h1: Store,
    r: GResult<Slot>,
)
    requires
        w.gives(args, h0, h1, r),
        w.refuses(args, h0) is Some,
    ensures
        h1 == h0,
        r == Err::<Slot, GError>(w.refuses(args, h0)->Some_0),
{
    w.lawful_call(args, h0, h1, r);
}

/// No call leaves more borrowed than was borrowed before it.
pub proof fn law_call_gives_back<W: WrappedCall>(
    w: &W,
    args: Seq<Slot>,
    h0: Store,
    h1: Store,
    r: GResult<Slot>,
)
    requires
        w.gives(args, h0, h1, r),
    ensures
        h1.guards.len() <= h0.guards.len(),
{
    w.lawful_call(args, h0, h1, r);
}

/// A host value that was converted to an argument arrives as what it was: the parameter stands for
/// what the host value stood for.
pub proof fn law_argument_round_trip<T: RoundTrip>(
    t: T,
    args: Seq<Slot>,
    i: int,
    h: Store,
    later: Store,
)
    requires
        <T as Lossless<T>>::sound(t),
        t.to_val(h).1 is Ok,
        later.extends(t.to_val(h).0),
        later.addressable(),
        0 <= i < args.len(),
        args[i] == t.to_val(h).1->Ok_0.slot(),
    ensures
        <T as FromArg>::takes() is Normal,
        <T as FromArg>::temp_of(args, i, later) == (later, Ok::<Slot, GError>(args[i])),
        <T as FromArg>::arg_of(args[i], later) == Ok::<T::Model, GError>(t.model()),
{
    law_round_trip(t, h, later);
    law_slot_and_val(t.to_val(h).1->Ok_0, args[i]);
}

/// A host value that was moved to the heap is what a reference parameter of its type borrows, as
/// long as no borrow in force rules that out.
pub proof fn law_host_value_comes_back<T: HostType>(
    v: HostValue<T>,
    args: Seq<Slot>,
    i: int,
    h: Store,
    later: Store,
    exclusive: bool,
    expected: Expected,
)
    requires
        !T::is_global(),
        later.extends(v.to_val(h).0),
        later.addressable(),
        0 <= i < args.len(),
        args[i] == v.to_val(h).1->Ok_0.slot(),
        !clashes(later.guards, Place::Data(h.next_data().id), exclusive),
    ensures
        v.to_val(h).1 is Ok,
        kept_of::<T>(args, i, later, exclusive, expected) == (
            later.with_guard(Place::Data(h.next_data().id), exclusive),
            Ok::<Kept, GError>(Kept::Data(v.token())),
        ),
{
    reveal(Store::extends);
    let cell = HostCell { type_key: T::key(), payload: v.token() };
    assert(h.with_data(cell).datas[h.datas.len() as int] == cell);
    assert(later.datas[h.datas.len() as int] == cell);
}

/// The arguments of a call are all converted exactly where every one of them can be. Then there are
/// as many slots as there are arguments, each its own, in order.
pub proof fn law_call_args_converted<A: IntoCallArgs>(a: A, h: Store)
    ensures
        a.offer(h).outcome is Ok <==> forall|i: int|
            0 <= i < a.count() ==> (#[trigger] a.nth(h, i)).1 is Ok,
        a.offer(h).outcome is Ok ==> {
            &&& a.offer(h).slots.len() == a.count()
            &&& forall|i: int|
                0 <= i < a.count() ==> a.offer(h).slots[i] == (#[trigger] a.nth(h, i)).1->Ok_0
        },
{
    a.lawful_offer(h);
}

/// Where some argument of a call cannot be converted, the first such is the reason.
pub proof fn law_call_args_first_failure<A: IntoCallArgs>(a: A, h: Store, k: int)
    requires
        0 <= k < a.count(),
        a.nth(h, k).1 is Err,
        forall|i: int| 0 <= i < k ==> (#[trigger] a.nth(h, i)).1 is Ok,
    ensures
        a.offer(h).outcome == Err::<(), GError>(a.nth(h, k).1->Err_0),
{
    a.lawful_offer(h);
}

/// A call within the limits is never refused for how many arguments it has: it reaches the function
/// exactly where every parameter can be made. There is an argument for every normal parameter.
pub proof fn law_within_limits<A: Params>(limits: (usize, usize), args: Seq<Slot>, h: Store)
    requires
        fitting(A::kinds(), limits),
        limits.0 <= args.len() <= limits.1,
    ensures
        refusal::<A>(limits, args, h) == failure(A::prepared(args, h).1),
        refusal::<A>(limits, args, h) is None <==> all_ready::<A>(args, h),
        forall|i: int|
            0 <= i < A::kinds().len() && A::kinds()[i] is Normal ==> #[trigger] start_of(
                A::kinds(),
                i,
            ) < args.len(),
{
    A::lawful_order(args, h);
    assert forall|i: int|
        0 <= i < A::kinds().len() && A::kinds()[i] is Normal implies #[trigger] start_of(
        A::kinds(),
        i,
    ) < args.len() by {
        law_normal_in_range(A::kinds(), i, args.len());
    }
}

/// The first parameter that cannot make its temporary value is the reason why a call within the
/// limits is refused, whatever the others are made of.
pub proof fn law_first_step_first<A: Params>(
    limits: (usize, usize),
    args: Seq<Slot>,
    h: Store,
    k: int,
)
    requires
        limits.0 <= args.len() <= limits.1,
        0 <= k < A::kinds().len(),
        A::first_failure(args, h, k) is Some,
        forall|i: int| 0 <= i < k ==> (#[trigger] A::first_failure(args, h, i)) is None,
    ensures
        refusal::<A>(limits, args, h) == A::first_failure(args, h, k),
{
    A::lawful_order(args, h);
}

/// Where every parameter can make its temporary value, the first that cannot be made of its own is
/// the reason why a call within the limits is refused.
pub proof fn law_second_step_next<A: Params>(
    limits: (usize, usize),
    args: Seq<Slot>,
    h: Store,
    k: int,
)
    requires
        limits.0 <= args.len() <= limits.1,
        0 <= k < A::kinds().len(),
        all_made::<A>(args, h),
        A::second_failure(args, h, k) is Some,
        forall|i: int| 0 <= i < k ==> (#[trigger] A::second_failure(args, h, i)) is None,
    ensures
        refusal::<A>(limits, args, h) == A::second_failure(args, h, k),
{
    A::lawful_order(args, h);
}

/// What a function returns comes out of a call as what it converts to: nothing as `nil`, an error
/// as an error, anything else as a value of its own type. What was borrowed for the call is given
/// back.
pub proof fn law_result_of_call<T: IntoVal, E: ErrorMarker>(
    h0: Store,
    after: Store,
    t: T,
    e: GError,
    err: E,
)
    ensures
        ({
            let mark = h0.guards.len() as int;
            let (h, r) = slotted(t.to_val(after));
            &&& concluded(h0, after, t) == (h.released(mark), r)
            &&& concluded(h0, after, Some(t)) == (h.released(mark), r)
            &&& concluded(h0, after, Ok::<T, E>(t)) == (h.released(mark), r)
            &&& concluded(h0, after, ()) == (after.released(mark), Ok::<Slot, GError>(Slot::Nil))
            &&& concluded(h0, after, None::<T>) == (
                after.released(mark),
                Ok::<Slot, GError>(Slot::Nil),
            )
            &&& concluded(h0, after, Err::<T, GError>(e)) == (
                after.released(mark),
                Err::<Slot, GError>(e),
            )
            &&& concluded(h0, after, Err::<T, E>(err)).0 == after.released(mark)
            &&& concluded(h0, after, Err::<T, E>(err)).1 is Err
        }),
{
}

/// To a function with one normal parameter and one optional parameter after it, a missing argument
/// and `nil` are the same.
pub proof fn law_missing_or_nil<P: Param, T: FromArg, Ret: IntoVal, F>(
    w: &Wrapper<(P, (Option<T>, TagArg)), Ret, F>,
    a: Slot,
    h0: Store,
    h1: Store,
    r: GResult<Slot>,
) where F: for <'a>Fn(Heap, P::Output<'a>, Option<T::Output<'a>>) -> (Heap, Ret)
    requires
        P::takes() is Normal,
        fitting(<(P, (Option<T>, TagArg)) as Params>::kinds(), w.known_limits()),
    ensures
        w.callable(seq![a], h0) == w.callable(seq![a, Slot::Nil], h0),
        w.gives(seq![a], h0, h1, r) == w.gives(seq![a, Slot::Nil], h0, h1, r),
{
    let kinds = <(P, (Option<T>, TagArg)) as Params>::kinds();
    P::lawful_own(seq![a], seq![a, Slot::Nil], 0, h0);
    lemma_one_and_an_option(kinds);
    w.law_same_call(seq![a], seq![a, Slot::Nil], h0);
}

/// The same of an optional parameter that is a reference.
pub proof fn law_missing_or_nil_reference<P: Param, T: FromArgRef, Ret: IntoVal, F>(
    w: &Wrapper<(P, (Option<T>, TagArgRef)), Ret, F>,
    a: Slot,
    h0: Store,
    h1: Store,
    r: GResult<Slot>,
) where F: for <'a>Fn(Heap, P::Output<'a>, Option<T::Output<'a>>) -> (Heap, Ret)
    requires
        P::takes() is Normal,
        fitting(<(P, (Option<T>, TagArgRef)) as Params>::kinds(), w.known_limits()),
    ensures
        w.callable(seq![a], h0) == w.callable(seq![a, Slot::Nil], h0),
        w.gives(seq![a], h0, h1, r) == w.gives(seq![a, Slot::Nil], h0, h1, r),
{
    let kinds = <(P, (Option<T>, TagArgRef)) as Params>::kinds();
    P::lawful_own(seq![a], seq![a, Slot::Nil], 0, h0);
    lemma_one_and_an_option(kinds);
    w.law_same_call(seq![a], seq![a, Slot::Nil], h0);
}

proof fn lemma_one_and_an_option(kinds: Seq<ArgType>)
    requires
        kinds =~= seq![ArgType::Normal, ArgType::Option],
    ensures
        fewest(kinds) == 1,
        most(kinds) == 2,
        start_of(kinds, 0) == 0,
        start_of(kinds, 1) == 1,
{
    reveal_with_fuel(fewest, 3);
    reveal_with_fuel(positions, 3);
    reveal_with_fuel(start_of, 3);
}

} // verus!
