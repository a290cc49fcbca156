//! What holds of parameters: which arguments a parameter takes, and what it is made of.

use vstd::prelude::*;
use vstd::utf8::encode_utf8_decode_utf8;

use crate::args::FromArg;
use crate::args_ref::FromArgRef;
use crate::error::{Expected, GError};
use crate::from_val::FromVal;
use crate::laws_read::lemma_read_items;
use crate::limits::{fault, fewest, most, positions, sensible, start_of, starved, ArgType};
use crate::marker::HostType;
use crate::rest::Rest;
use crate::store::Store;
use crate::text::{CText, OsText, PathText};
use crate::value::{
    Arr, Class, Coro, GFn, GIter, HostValue, Obj, RData, RFn, Raw, Root, Slot, Str, Tab, Val,
        ValType,
};
use crate::wrap::{
    fitting, refusal, CalculateArgLimits, Param, Params, TagArg, TagArgRef, Wrapper,
};

verus! {

/// A parameter of a type that values can be converted to takes one argument, and is that argument,
/// converted. Where it cannot be converted, that is the reason why the call is refused.
pub proof fn law_normal_parameter<T: FromVal>(
    args: Seq<Slot>,
    i: int,
    h: Store,
    later: Store,
    out: T,
)
    requires
        0 <= i < args.len(),
    ensures
        <T as FromArg>::takes() is Normal,
        <T as FromArg>::temp_of(args, i, h).0 == h,
        <T as FromArg>::temp_of(args, i, h).1 is Ok,
        <T as FromArg>::arg_of(<T as FromArg>::temp_of(args, i, h).1->Ok_0, later) == T::of_val(
            later,
            args[i].val(),
        ),
        <T as FromArg>::out_model(out) == out.model(),
{
}

/// An argument that is there and is not `nil` counts for an optional parameter as it does for one
/// of the type that it may be: what that makes of it is what the function gets, and where that
/// refuses it, so does this one, for the same reason. It is never taken for missing.
pub proof fn law_present_option<T: FromArg>(args: Seq<Slot>, i: int, h: Store, later: Store)
    requires
        0 <= i < args.len(),
        !(args[i] is Nil),
    ensures
        ({
            let (h1, inner) = T::temp_of(args, i, h);
            let (h2, outer) = <Option<T> as FromArg>::temp_of(args, i, h);
            &&& h2 == h1
            &&& inner matches Err(e) ==> outer == Err::<Option<T::TempModel>, GError>(e)
            &&& inner matches Ok(temp) ==> {
                &&& outer is Ok
                &&& T::arg_of(temp, later) matches Ok(m) ==> <Option<T> as FromArg>::arg_of(
                    outer->Ok_0,
                    later,
                ) == Ok::<Option<T::OutModel>, GError>(Some(m))
                &&& T::arg_of(temp, later) matches Err(e) ==> <Option<T> as FromArg>::arg_of(
                    outer->Ok_0,
                    later,
                ) == Err::<Option<T::OutModel>, GError>(e)
            }
        }),
{
}

/// An argument that is missing, or is `nil`, is nothing to an optional parameter, and changes
/// nothing.
pub proof fn law_absent_option<T: FromArg>(args: Seq<Slot>, i: int, h: Store, later: Store)
    requires
        0 <= i,
        i >= args.len() || args[i] is Nil,
    ensures
        <Option<T> as FromArg>::takes() is Option,
        <Option<T> as FromArg>::temp_of(args, i, h).0 == h,
        <Option<T> as FromArg>::temp_of(args, i, h).1 is Ok,
        <Option<T> as FromArg>::arg_of(
            <Option<T> as FromArg>::temp_of(args, i, h).1->Ok_0,
            later,
        ) == Ok::<Option<T::OutModel>, GError>(None),
{
}

/// The second step of an optional parameter is that of the type that it may be, with the same
/// result or the same error, and nothing where the first found nothing.
pub proof fn law_option_second_step<T: FromArg>(
    temp: T::TempModel,
    h: Store,
    m: T::OutModel,
    e: GError,
)
    ensures
        <Option<T> as FromArg>::arg_of(Some(temp), h) == Ok::<
            Option<T::OutModel>,
            GError,
        >(Some(m)) <==> T::arg_of(temp, h) == Ok::<T::OutModel, GError>(m),
        <Option<T> as FromArg>::arg_of(Some(temp), h) == Err::<
            Option<T::OutModel>,
            GError,
        >(e) <==> T::arg_of(temp, h) == Err::<T::OutModel, GError>(e),
        <Option<T> as FromArg>::arg_of(None, h) == Ok::<Option<T::OutModel>, GError>(None),
{
}

/// What a function gets of an optional parameter is `None`, or what it gets of the type that it may
/// be.
pub proof fn law_option_given<T: FromArg>(out: Option<T::Output<'static>>)
    ensures
        out is None ==> <Option<T> as FromArg>::out_model(out) is None,
        out matches Some(x) ==> <Option<T> as FromArg>::out_model(out) == Some(T::out_model(x)),
{
}

/// An argument that is there and is not `nil` counts for an optional parameter that is a reference
/// as it does for one of the type that it may be: what that makes of it is what the function gets,
/// and where that refuses it, so does this one, for the same reason. It is never taken for missing.
pub proof fn law_present_reference<T: FromArgRef>(args: Seq<Slot>, i: int, h: Store, later: Store)
    requires
        0 <= i < args.len(),
        !(args[i] is Nil),
    ensures
        ({
            let (h1, inner) = T::temp_of(args, i, h);
            let (h2, outer) = <Option<T> as FromArgRef>::temp_of(args, i, h);
            &&& h2 == h1
            &&& inner matches Err(e) ==> outer == Err::<Option<T::TempModel>, GError>(e)
            &&& inner matches Ok(temp) ==> {
                &&& outer is Ok
                &&& T::arg_of(temp, later) matches Ok(m) ==> <Option<T> as FromArgRef>::arg_of(
                    outer->Ok_0,
                    later,
                ) == Ok::<Option<T::OutModel>, GError>(Some(m))
                &&& T::arg_of(temp, later) matches Err(e) ==> <Option<T> as FromArgRef>::arg_of(
                    outer->Ok_0,
                    later,
                ) == Err::<Option<T::OutModel>, GError>(e)
            }
        }),
{
}

/// An argument that is missing, or is `nil`, is nothing to an optional parameter that is a
/// reference, and changes nothing.
pub proof fn law_absent_reference<T: FromArgRef>(args: Seq<Slot>, i: int, h: Store, later: Store)
    requires
        0 <= i,
        i >= args.len() || args[i] is Nil,
    ensures
        <Option<T> as FromArgRef>::takes() is Option,
        <Option<T> as FromArgRef>::temp_of(args, i, h).0 == h,
        <Option<T> as FromArgRef>::temp_of(args, i, h).1 is Ok,
        <Option<T> as FromArgRef>::arg_of(
            <Option<T> as FromArgRef>::temp_of(args, i, h).1->Ok_0,
            later,
        ) == Ok::<Option<T::OutModel>, GError>(None),
{
}

/// The second step of an optional parameter that is a reference is that of the type that it may be,
/// with the same result or the same error, and nothing where the first found nothing.
pub proof fn law_reference_second_step<T: FromArgRef>(
    temp: T::TempModel,
    h: Store,
    m: T::OutModel,
    e: GError,
)
    ensures
        <Option<T> as FromArgRef>::arg_of(Some(temp), h) == Ok::<
            Option<T::OutModel>,
            GError,
        >(Some(m)) <==> T::arg_of(temp, h) == Ok::<T::OutModel, GError>(m),
        <Option<T> as FromArgRef>::arg_of(Some(temp), h) == Err::<
            Option<T::OutModel>,
            GError,
        >(e) <==> T::arg_of(temp, h) == Err::<T::OutModel, GError>(e),
        <Option<T> as FromArgRef>::arg_of(None, h) == Ok::<Option<T::OutModel>, GError>(None),
{
}

/// What a function gets of an optional parameter that is a reference is `None`, or what it gets of
/// the type that it may be.
pub proof fn law_reference_given<T: FromArgRef>(out: Option<T::Output<'static>>)
    ensures
        out is None ==> <Option<T> as FromArgRef>::out_model(out) is None,
        out matches Some(x) ==> <Option<T> as FromArgRef>::out_model(out) == Some(T::out_model(x)),
{
}

/// A `Rest` parameter collects all the arguments from where it starts: where every one of them can
/// be converted, it holds as many, each converted, in their order. Where one cannot, the first such
/// is the reason.
pub proof fn law_rest_parameter<T: FromVal>(
    args: Seq<Slot>,
    i: int,
    h: Store,
    later: Store,
    left: Seq<Slot>,
    k: int,
    out: Rest<'static, T>,
    at: int,
)
    requires
        0 <= i,
        i < args.len() ==> left == args.skip(i),
        i >= args.len() ==> left.len() == 0,
    ensures
        <Rest<'static, T> as FromArg>::takes() is Rest,
        <Rest<'static, T> as FromArg>::temp_of(args, i, h).0 == h,
        <Rest<'static, T> as FromArg>::temp_of(args, i, h).1 is Ok,
        ({
            let collected = <Rest<'static, T> as FromArg>::arg_of(
                <Rest<'static, T> as FromArg>::temp_of(args, i, h).1->Ok_0,
                later,
            );
            &&& collected is Ok <==> forall|j: int|
                0 <= j < left.len() ==> T::of_val(later, #[trigger] left[j].val()) is Ok
            &&& collected matches Ok(models) ==> {
                &&& models.len() == left.len()
                &&& forall|j: int|
                    0 <= j < left.len() ==> T::of_val(later, #[trigger] left[j].val()) == Ok::<
                        T::Model,
                        GError,
                    >(models[j])
            }
            &&& 0 <= k < left.len() && T::of_val(later, left[k].val()) is Err && (forall|j: int|
                0 <= j < k ==> T::of_val(later, #[trigger] left[j].val()) is Ok) ==> collected
                == Err::<Seq<T::Model>, GError>(T::of_val(later, left[k].val())->Err_0)
        }),
        <Rest<'static, T> as FromArg>::out_model(out).len() == out.items().len(),
        0 <= at < out.items().len() ==> <Rest<'static, T> as FromArg>::out_model(out)[at]
            == out.items()[at].model(),
{
    assert(<Rest<'static, T> as FromArg>::temp_of(args, i, h).1->Ok_0.0 =~= left);
    lemma_read_items::<T>(later, left, k);
}

/// A parameter that is a slice is made of an array, item by item, like a list.
pub proof fn law_slice_parameter<T: FromVal>(
    args: Seq<Slot>,
    i: int,
    h: Store,
    later: Store,
    root: Root<Arr>,
    k: int,
    out: &'static [T],
    at: int,
)
    requires
        0 <= i < args.len(),
    ensures
        <&'static [T] as FromArg>::takes() is Normal,
        <&'static [T] as FromArg>::temp_of(args, i, h).0 == h,
        <&'static [T] as FromArg>::temp_of(args, i, h).1 is Ok,
        ({
            let made = <&'static [T] as FromArg>::arg_of(
                <&'static [T] as FromArg>::temp_of(args, i, h).1->Ok_0,
                later,
            );
            &&& !(args[i] is Arr) ==> made == Err::<Seq<T::Model>, GError>(
                GError::WrongType { expected: Expected::SmallVec, received: args[i].type_of() },
            )
            &&& args[i].val() == Val::Arr(root) && root.id >= later.arrs.len() ==> made == Err::<
                Seq<T::Model>,
                GError,
            >(GError::StaleHandle { received: ValType::Arr })
            &&& args[i].val() == Val::Arr(root) && root.id < later.arrs.len() ==> {
                let items = later.arrs[root.id as int];
                &&& made is Ok <==> forall|j: int|
                    0 <= j < items.len() ==> T::of_val(later, #[trigger] items[j].val()) is Ok
                &&& made matches Ok(models) ==> {
                    &&& models.len() == items.len()
                    &&& forall|j: int|
                        0 <= j < items.len() ==> T::of_val(later, #[trigger] items[j].val())
                            == Ok::<T::Model, GError>(models[j])
                }
                &&& 0 <= k < items.len() && T::of_val(later, items[k].val()) is Err && (forall|
                    j: int,
                |
                    0 <= j < k ==> T::of_val(later, #[trigger] items[j].val()) is Ok) ==> made
                    == Err::<Seq<T::Model>, GError>(T::of_val(later, items[k].val())->Err_0)
            }
        }),
        <&'static [T] as FromArg>::out_model(out).len() == out@.len(),
        0 <= at < out@.len() ==> <&'static [T] as FromArg>::out_model(out)[at] == out@[at].model(),
{
    if args[i].val() == Val::Arr(root) && root.id < later.arrs.len() {
        lemma_read_items::<T>(later, later.arrs[root.id as int], k);
    }
}

/// A parameter that is a text is the string that its argument is, character by character.
pub proof fn law_text_parameter(
    args: Seq<Slot>,
    i: int,
    h: Store,
    later: Store,
    root: Root<Str>,
    out: &'static str,
)
    requires
        0 <= i < args.len(),
    ensures
        <&'static str as FromArg>::takes() is Normal,
        <&'static str as FromArg>::temp_of(args, i, h).0 == h,
        !(args[i] is Str) ==> <&'static str as FromArg>::temp_of(args, i, h).1 == Err::<
            Seq<u8>,
            GError,
        >(GError::WrongType { expected: Expected::StrRef, received: args[i].type_of() }),
        args[i].val() == Val::Str(root) && root.id >= h.strs.len()
            ==> <&'static str as FromArg>::temp_of(args, i, h).1 == Err::<Seq<u8>, GError>(
            GError::StaleHandle { received: ValType::Str },
        ),
        args[i].val() == Val::Str(root) && root.id < h.strs.len() ==> {
            &&& <&'static str as FromArg>::temp_of(args, i, h).1 is Ok
            &&& <&'static str as FromArg>::arg_of(
                <&'static str as FromArg>::temp_of(args, i, h).1->Ok_0,
                later,
            ) == Ok::<Seq<char>, GError>(h.strs[root.id as int])
        },
        <&'static str as FromArg>::out_model(out) == out@,
{
    if args[i].val() == Val::Str(root) && root.id < h.strs.len() {
        encode_utf8_decode_utf8(h.strs[root.id as int]);
    }
}

/// A parameter that is a reference to a `CText` is what its argument is read as.
pub proof fn law_ctext_parameter(
    args: Seq<Slot>,
    i: int,
    h: Store,
    later: Store,
    out: &'static CText,
)
    requires
        0 <= i < args.len(),
    ensures
        <&'static CText as FromArg>::takes() is Normal,
        <&'static CText as FromArg>::temp_of(args, i, h) == (h, CText::of_val(h, args[i].val())),
        CText::of_val(
            h,
            args[i].val(),
        ) matches Ok(m) ==> <&'static CText as FromArg>::arg_of(m, later)
            == Ok::<Seq<u8>, GError>(m),
        <&'static CText as FromArg>::out_model(out) == out@,
{
}

/// A parameter that is a reference to a `OsText` is what its argument is read as.
pub proof fn law_ostext_parameter(
    args: Seq<Slot>,
    i: int,
    h: Store,
    later: Store,
    out: &'static OsText,
)
    requires
        0 <= i < args.len(),
    ensures
        <&'static OsText as FromArg>::takes() is Normal,
        <&'static OsText as FromArg>::temp_of(args, i, h) == (h, OsText::of_val(h, args[i].val())),
        OsText::of_val(
            h,
            args[i].val(),
        ) matches Ok(m) ==> <&'static OsText as FromArg>::arg_of(m, later)
            == Ok::<Option<Seq<char>>, GError>(m),
        <&'static OsText as FromArg>::out_model(out) == out@,
{
}

/// A parameter that is a reference to a `PathText` is what its argument is read as.
pub proof fn law_pathtext_parameter(
    args: Seq<Slot>,
    i: int,
    h: Store,
    later: Store,
    out: &'static PathText,
)
    requires
        0 <= i < args.len(),
    ensures
        <&'static PathText as FromArg>::takes() is Normal,
        <&'static PathText as FromArg>::temp_of(args, i, h) == (
            h,
            PathText::of_val(h, args[i].val()),
        ),
        PathText::of_val(
            h,
            args[i].val(),
        ) matches Ok(m) ==> <&'static PathText as FromArg>::arg_of(m, later)
            == Ok::<Option<Seq<char>>, GError>(m),
        <&'static PathText as FromArg>::out_model(out) == out@,
{
}

/// A shared reference to a host value borrows it for the call: the global of its own type, whatever
/// the arguments are, or else the host value that its argument is. What the function gets is what
/// was borrowed; where nothing can be, that is the reason why the call is refused.
pub proof fn law_shared_reference<T: HostType>(args: Seq<Slot>, i: int, h: Store, later: Store)
    requires
        !T::is_global() ==> 0 <= i < args.len(),
    ensures
        T::is_global() ==> <&'static T as FromArgRef>::takes() is RGlobal,
        !T::is_global() ==> <&'static T as FromArgRef>::takes() is Normal,
        ({
            let (h1, temp) = <&'static T as FromArgRef>::temp_of(args, i, h);
            &&& T::is_global() ==> {
                let (after, borrowed) = h.borrow_global(T::key(), false);
                &&& h1 == after
                &&& borrowed matches Err(e) ==> temp is Err && temp->Err_0 == e
                &&& borrowed matches Ok(token) ==> temp is Ok && <&'static T as FromArgRef>::arg_of(
                    temp->Ok_0,
                    later,
                ) == Ok::<u64, GError>(token)
            }
            &&& !T::is_global() && args[i] is RData ==> {
                let (after, borrowed) = h.borrow_data(args[i]->RData_0, T::key(), false);
                &&& h1 == after
                &&& borrowed matches Err(e) ==> temp is Err && temp->Err_0 == e
                &&& borrowed matches Ok(token) ==> temp is Ok && <&'static T as FromArgRef>::arg_of(
                    temp->Ok_0,
                    later,
                ) == Ok::<u64, GError>(token)
            }
            &&& !T::is_global() && !(args[i] is RData) ==> {
                &&& h1 == h
                &&& temp is Err
                &&& temp->Err_0 == (GError::WrongType {
                    expected: Expected::Ref(T::key()),
                    received: args[i].type_of(),
                })
            }
        }),
{
}

/// What a function gets of such a reference stands for the token of what was borrowed.
pub proof fn law_shared_reference_given<T: HostType>(out: &'static HostValue<T>)
    ensures
        <&'static T as FromArgRef>::out_model(out) == out.token(),
{
}

/// An exclusive reference to a host value borrows it for the call: the global of its own type,
/// whatever the arguments are, or else the host value that its argument is. What the function gets
/// is what was borrowed; where nothing can be, that is the reason why the call is refused.
pub proof fn law_exclusive_reference<T: HostType>(args: Seq<Slot>, i: int, h: Store, later: Store)
    requires
        !T::is_global() ==> 0 <= i < args.len(),
    ensures
        T::is_global() ==> <&'static mut T as FromArgRef>::takes() is RGlobal,
        !T::is_global() ==> <&'static mut T as FromArgRef>::takes() is Normal,
        ({
            let (h1, temp) = <&'static mut T as FromArgRef>::temp_of(args, i, h);
            &&& T::is_global() ==> {
                let (after, borrowed) = h.borrow_global(T::key(), true);
                &&& h1 == after
                &&& borrowed matches Err(e) ==> temp is Err && temp->Err_0 == e
                &&& borrowed matches Ok(token) ==> temp is Ok
                    && <&'static mut T as FromArgRef>::arg_of(temp->Ok_0, later)
                    == Ok::<u64, GError>(token)
            }
            &&& !T::is_global() && args[i] is RData ==> {
                let (after, borrowed) = h.borrow_data(args[i]->RData_0, T::key(), true);
                &&& h1 == after
                &&& borrowed matches Err(e) ==> temp is Err && temp->Err_0 == e
                &&& borrowed matches Ok(token) ==> temp is Ok
                    && <&'static mut T as FromArgRef>::arg_of(temp->Ok_0, later)
                    == Ok::<u64, GError>(token)
            }
            &&& !T::is_global() && !(args[i] is RData) ==> {
                &&& h1 == h
                &&& temp is Err
                &&& temp->Err_0 == (GError::WrongType {
                    expected: Expected::RefMut(T::key()),
                    received: args[i].type_of(),
                })
            }
        }),
{
}

/// What a function gets of such a reference stands for the token of what was borrowed.
pub proof fn law_exclusive_reference_given<T: HostType>(out: &'static mut HostValue<T>)
    ensures
        <&'static mut T as FromArgRef>::out_model(out) == old(out).token(),
{
}

/// A reference to a heap object of kind `Arr` is made of an argument that is a handle to one, and
/// of no other.
pub proof fn law_arr_reference(
    args: Seq<Slot>,
    i: int,
    h: Store,
    later: Store,
    out: &'static Raw<Arr>,
)
    requires
        0 <= i < args.len(),
    ensures
        <&'static Arr as FromArgRef>::takes() is Normal,
        <&'static Arr as FromArgRef>::temp_of(args, i, h).0 == h,
        <&'static Arr as FromArgRef>::temp_of(args, i, h).1 is Ok,
        ({
            let made = <&'static Arr as FromArgRef>::arg_of(
                <&'static Arr as FromArgRef>::temp_of(args, i, h).1->Ok_0,
                later,
            );
            &&& args[i] matches Slot::Arr(raw) ==> made == Ok::<Raw<Arr>, GError>(raw)
            &&& !(args[i] is Arr) ==> made == Err::<Raw<Arr>, GError>(
                GError::WrongPointee { expected: ValType::Arr, received: args[i].type_of() },
            )
        }),
        <&'static Arr as FromArgRef>::out_model(out) == *out,
{
}

/// A reference to a heap object of kind `Str` is made of an argument that is a handle to one, and
/// of no other.
pub proof fn law_str_reference(
    args: Seq<Slot>,
    i: int,
    h: Store,
    later: Store,
    out: &'static Raw<Str>,
)
    requires
        0 <= i < args.len(),
    ensures
        <&'static Str as FromArgRef>::takes() is Normal,
        <&'static Str as FromArgRef>::temp_of(args, i, h).0 == h,
        <&'static Str as FromArgRef>::temp_of(args, i, h).1 is Ok,
        ({
            let made = <&'static Str as FromArgRef>::arg_of(
                <&'static Str as FromArgRef>::temp_of(args, i, h).1->Ok_0,
                later,
            );
            &&& args[i] matches Slot::Str(raw) ==> made == Ok::<Raw<Str>, GError>(raw)
            &&& !(args[i] is Str) ==> made == Err::<Raw<Str>, GError>(
                GError::WrongPointee { expected: ValType::Str, received: args[i].type_of() },
            )
        }),
        <&'static Str as FromArgRef>::out_model(out) == *out,
{
}

/// A reference to a heap object of kind `Tab` is made of an argument that is a handle to one, and
/// of no other.
pub proof fn law_tab_reference(
    args: Seq<Slot>,
    i: int,
    h: Store,
    later: Store,
    out: &'static Raw<Tab>,
)
    requires
        0 <= i < args.len(),
    ensures
        <&'static Tab as FromArgRef>::takes() is Normal,
        <&'static Tab as FromArgRef>::temp_of(args, i, h).0 == h,
        <&'static Tab as FromArgRef>::temp_of(args, i, h).1 is Ok,
        ({
            let made = <&'static Tab as FromArgRef>::arg_of(
                <&'static Tab as FromArgRef>::temp_of(args, i, h).1->Ok_0,
                later,
            );
            &&& args[i] matches Slot::Tab(raw) ==> made == Ok::<Raw<Tab>, GError>(raw)
            &&& !(args[i] is Tab) ==> made == Err::<Raw<Tab>, GError>(
                GError::WrongPointee { expected: ValType::Tab, received: args[i].type_of() },
            )
        }),
        <&'static Tab as FromArgRef>::out_model(out) == *out,
{
}

/// A reference to a heap object of kind `GIter` is made of an argument that is a handle to one, and
/// of no other.
pub proof fn law_giter_reference(
    args: Seq<Slot>,
    i: int,
    h: Store,
    later: Store,
    out: &'static Raw<GIter>,
)
    requires
        0 <= i < args.len(),
    ensures
        <&'static GIter as FromArgRef>::takes() is Normal,
        <&'static GIter as FromArgRef>::temp_of(args, i, h).0 == h,
        <&'static GIter as FromArgRef>::temp_of(args, i, h).1 is Ok,
        ({
            let made = <&'static GIter as FromArgRef>::arg_of(
                <&'static GIter as FromArgRef>::temp_of(args, i, h).1->Ok_0,
                later,
            );
            &&& args[i] matches Slot::GIter(raw) ==> made == Ok::<Raw<GIter>, GError>(raw)
            &&& !(args[i] is GIter) ==> made == Err::<Raw<GIter>, GError>(
                GError::WrongPointee { expected: ValType::GIter, received: args[i].type_of() },
            )
        }),
        <&'static GIter as FromArgRef>::out_model(out) == *out,
{
}

/// A reference to a heap object of kind `GFn` is made of an argument that is a handle to one, and
/// of no other.
pub proof fn law_gfn_reference(
    args: Seq<Slot>,
    i: int,
    h: Store,
    later: Store,
    out: &'static Raw<GFn>,
)
    requires
        0 <= i < args.len(),
    ensures
        <&'static GFn as FromArgRef>::takes() is Normal,
        <&'static GFn as FromArgRef>::temp_of(args, i, h).0 == h,
        <&'static GFn as FromArgRef>::temp_of(args, i, h).1 is Ok,
        ({
            let made = <&'static GFn as FromArgRef>::arg_of(
                <&'static GFn as FromArgRef>::temp_of(args, i, h).1->Ok_0,
                later,
            );
            &&& args[i] matches Slot::GFn(raw) ==> made == Ok::<Raw<GFn>, GError>(raw)
            &&& !(args[i] is GFn) ==> made == Err::<Raw<GFn>, GError>(
                GError::WrongPointee { expected: ValType::GFn, received: args[i].type_of() },
            )
        }),
        <&'static GFn as FromArgRef>::out_model(out) == *out,
{
}

/// A reference to a heap object of kind `Obj` is made of an argument that is a handle to one, and
/// of no other.
pub proof fn law_obj_reference(
    args: Seq<Slot>,
    i: int,
    h: Store,
    later: Store,
    out: &'static Raw<Obj>,
)
    requires
        0 <= i < args.len(),
    ensures
        <&'static Obj as FromArgRef>::takes() is Normal,
        <&'static Obj as FromArgRef>::temp_of(args, i, h).0 == h,
        <&'static Obj as FromArgRef>::temp_of(args, i, h).1 is Ok,
        ({
            let made = <&'static Obj as FromArgRef>::arg_of(
                <&'static Obj as FromArgRef>::temp_of(args, i, h).1->Ok_0,
                later,
            );
            &&& args[i] matches Slot::Obj(raw) ==> made == Ok::<Raw<Obj>, GError>(raw)
            &&& !(args[i] is Obj) ==> made == Err::<Raw<Obj>, GError>(
                GError::WrongPointee { expected: ValType::Obj, received: args[i].type_of() },
            )
        }),
        <&'static Obj as FromArgRef>::out_model(out) == *out,
{
}

/// A reference to a heap object of kind `Class` is made of an argument that is a handle to one, and
/// of no other.
pub proof fn law_class_reference(
    args: Seq<Slot>,
    i: int,
    h: Store,
    later: Store,
    out: &'static Raw<Class>,
)
    requires
        0 <= i < args.len(),
    ensures
        <&'static Class as FromArgRef>::takes() is Normal,
        <&'static Class as FromArgRef>::temp_of(args, i, h).0 == h,
        <&'static Class as FromArgRef>::temp_of(args, i, h).1 is Ok,
        ({
            let made = <&'static Class as FromArgRef>::arg_of(
                <&'static Class as FromArgRef>::temp_of(args, i, h).1->Ok_0,
                later,
            );
            &&& args[i] matches Slot::Class(raw) ==> made == Ok::<Raw<Class>, GError>(raw)
            &&& !(args[i] is Class) ==> made == Err::<Raw<Class>, GError>(
                GError::WrongPointee { expected: ValType::Class, received: args[i].type_of() },
            )
        }),
        <&'static Class as FromArgRef>::out_model(out) == *out,
{
}

/// A reference to a heap object of kind `Coro` is made of an argument that is a handle to one, and
/// of no other.
pub proof fn law_coro_reference(
    args: Seq<Slot>,
    i: int,
    h: Store,
    later: Store,
    out: &'static Raw<Coro>,
)
    requires
        0 <= i < args.len(),
    ensures
        <&'static Coro as FromArgRef>::takes() is Normal,
        <&'static Coro as FromArgRef>::temp_of(args, i, h).0 == h,
        <&'static Coro as FromArgRef>::temp_of(args, i, h).1 is Ok,
        ({
            let made = <&'static Coro as FromArgRef>::arg_of(
                <&'static Coro as FromArgRef>::temp_of(args, i, h).1->Ok_0,
                later,
            );
            &&& args[i] matches Slot::Coro(raw) ==> made == Ok::<Raw<Coro>, GError>(raw)
            &&& !(args[i] is Coro) ==> made == Err::<Raw<Coro>, GError>(
                GError::WrongPointee { expected: ValType::Coro, received: args[i].type_of() },
            )
        }),
        <&'static Coro as FromArgRef>::out_model(out) == *out,
{
}

/// A reference to a heap object of kind `RData` is made of an argument that is a handle to one, and
/// of no other.
pub proof fn law_rdata_reference(
    args: Seq<Slot>,
    i: int,
    h: Store,
    later: Store,
    out: &'static Raw<RData>,
)
    requires
        0 <= i < args.len(),
    ensures
        <&'static RData as FromArgRef>::takes() is Normal,
        <&'static RData as FromArgRef>::temp_of(args, i, h).0 == h,
        <&'static RData as FromArgRef>::temp_of(args, i, h).1 is Ok,
        ({
            let made = <&'static RData as FromArgRef>::arg_of(
                <&'static RData as FromArgRef>::temp_of(args, i, h).1->Ok_0,
                later,
            );
            &&& args[i] matches Slot::RData(raw) ==> made == Ok::<Raw<RData>, GError>(raw)
            &&& !(args[i] is RData) ==> made == Err::<Raw<RData>, GError>(
                GError::WrongPointee { expected: ValType::RData, received: args[i].type_of() },
            )
        }),
        <&'static RData as FromArgRef>::out_model(out) == *out,
{
}

/// A reference to a heap object of kind `RFn` is made of an argument that is a handle to one, and
/// of no other.
pub proof fn law_rfn_reference(
    args: Seq<Slot>,
    i: int,
    h: Store,
    later: Store,
    out: &'static Raw<RFn>,
)
    requires
        0 <= i < args.len(),
    ensures
        <&'static RFn as FromArgRef>::takes() is Normal,
        <&'static RFn as FromArgRef>::temp_of(args, i, h).0 == h,
        <&'static RFn as FromArgRef>::temp_of(args, i, h).1 is Ok,
        ({
            let made = <&'static RFn as FromArgRef>::arg_of(
                <&'static RFn as FromArgRef>::temp_of(args, i, h).1->Ok_0,
                later,
            );
            &&& args[i] matches Slot::RFn(raw) ==> made == Ok::<Raw<RFn>, GError>(raw)
            &&& !(args[i] is RFn) ==> made == Err::<Raw<RFn>, GError>(
                GError::WrongPointee { expected: ValType::RFn, received: args[i].type_of() },
            )
        }),
        <&'static RFn as FromArgRef>::out_model(out) == *out,
{
}

/// A parameter that is marked with `TagArg` is as `FromArg` says.
pub proof fn law_tagarg<T: FromArg>(
    args: Seq<Slot>,
    i: int,
    h: Store,
    temp: T::TempModel,
    out: T::Output<'static>,
)
    ensures
        <(T, TagArg) as Param>::takes() == T::takes(),
        <(T, TagArg) as Param>::temp_of(args, i, h) == T::temp_of(args, i, h),
        <(T, TagArg) as Param>::arg_of(temp, h) == T::arg_of(temp, h),
        <(T, TagArg) as Param>::out_model(out) == T::out_model(out),
{
}

/// A parameter that is marked with `TagArgRef` is as `FromArgRef` says.
pub proof fn law_tagargref<T: FromArgRef>(
    args: Seq<Slot>,
    i: int,
    h: Store,
    temp: T::TempModel,
    out: T::Output<'static>,
)
    ensures
        <(T, TagArgRef) as Param>::takes() == T::takes(),
        <(T, TagArgRef) as Param>::temp_of(args, i, h) == T::temp_of(args, i, h),
        <(T, TagArgRef) as Param>::arg_of(temp, h) == T::arg_of(temp, h),
        <(T, TagArgRef) as Param>::out_model(out) == T::out_model(out),
{
}

/// For a function without parameters there is nothing to prepare.
pub proof fn law_made_of_0(args: Seq<Slot>, h: Store)
    ensures
        <() as Params>::kinds().len() == 0,
        <() as Params>::prepared(args, h) == (h, Ok::<(), GError>(())),
{
}

/// The limits of such a function are worked out from how its own parameters take their arguments.
pub proof fn law_limits_from_0<Ret, F>()
    ensures
        Wrapper::<(), Ret, F>::params() =~= Seq::<ArgType>::empty(),
{
}

/// The one parameter of a function are made of the arguments from left to right: every parameter
/// but a borrowed global starts one argument after the one before it. First each makes its
/// temporary value, on the heap that those before it leave; then each is made of its own. The first
/// failure of all is the reason, and leaves the heap as it was.
pub proof fn law_made_of_1<P0: Param>(args: Seq<Slot>, h: Store)
    ensures
        ({
            let s0: int = 0;
            let (h1, t0) = P0::temp_of(args, s0, h);
            let a0 = P0::arg_of(t0->Ok_0, h1);
            let made = <(P0,) as Params>::prepared(args, h);
            &&& <(P0,) as Params>::kinds() =~= seq![P0::takes()]
            &&& t0 is Err ==> made == (h, Err::<(P0::OutModel,), GError>(t0->Err_0))
            &&& t0 is Ok ==> {
                &&& a0 is Err ==> made == (h, Err::<(P0::OutModel,), GError>(a0->Err_0))
                &&& a0 is Ok ==> made == (h1, Ok::<(P0::OutModel,), GError>((a0->Ok_0,)))
            }
        }),
{
    reveal_with_fuel(start_of, 2);
}

/// The limits of such a function are worked out from how its own parameters take their arguments.
pub proof fn law_limits_from_1<P0: Param, Ret, F>()
    ensures
        Wrapper::<(P0,), Ret, F>::params() =~= seq![P0::takes()],
{
}

/// The two parameters of a function are made of the arguments from left to right: every parameter
/// but a borrowed global starts one argument after the one before it. First each makes its
/// temporary value, on the heap that those before it leave; then each is made of its own. The first
/// failure of all is the reason, and leaves the heap as it was.
pub proof fn law_made_of_2<P0: Param, P1: Param>(args: Seq<Slot>, h: Store)
    ensures
        ({
            let s0: int = 0;
            let s1: int = s0 + (if P0::takes() is RGlobal { 0int } else { 1int });
            let (h1, t0) = P0::temp_of(args, s0, h);
            let (h2, t1) = P1::temp_of(args, s1, h1);
            let a0 = P0::arg_of(t0->Ok_0, h2);
            let a1 = P1::arg_of(t1->Ok_0, h2);
            let made = <(P0, P1) as Params>::prepared(args, h);
            &&& <(P0, P1) as Params>::kinds() =~= seq![P0::takes(), P1::takes()]
            &&& t0 is Err ==> made == (h, Err::<(P0::OutModel, P1::OutModel), GError>(t0->Err_0))
            &&& t0 is Ok && t1 is Err ==> made == (
                h,
                Err::<(P0::OutModel, P1::OutModel), GError>(t1->Err_0),
            )
            &&& t0 is Ok && t1 is Ok ==> {
                &&& a0 is Err ==> made == (
                    h,
                    Err::<(P0::OutModel, P1::OutModel), GError>(a0->Err_0),
                )
                &&& a0 is Ok && a1 is Err ==> made == (
                    h,
                    Err::<(P0::OutModel, P1::OutModel), GError>(a1->Err_0),
                )
                &&& a0 is Ok && a1 is Ok ==> made == (
                    h2,
                    Ok::<(P0::OutModel, P1::OutModel), GError>((a0->Ok_0, a1->Ok_0)),
                )
            }
        }),
{
    reveal_with_fuel(start_of, 3);
}

/// The limits of such a function are worked out from how its own parameters take their arguments.
pub proof fn law_limits_from_2<P0: Param, P1: Param, Ret, F>()
    ensures
        Wrapper::<(P0, P1), Ret, F>::params() =~= seq![P0::takes(), P1::takes()],
{
}

/// The three parameters of a function are made of the arguments from left to right: every parameter
/// but a borrowed global starts one argument after the one before it. First each makes its
/// temporary value, on the heap that those before it leave; then each is made of its own. The first
/// failure of all is the reason, and leaves the heap as it was.
pub proof fn law_made_of_3<P0: Param, P1: Param, P2: Param>(args: Seq<Slot>, h: Store)
    ensures
        ({
            let s0: int = 0;
            let s1: int = s0 + (if P0::takes() is RGlobal { 0int } else { 1int });
            let s2: int = s1 + (if P1::takes() is RGlobal { 0int } else { 1int });
            let (h1, t0) = P0::temp_of(args, s0, h);
            let (h2, t1) = P1::temp_of(args, s1, h1);
            let (h3, t2) = P2::temp_of(args, s2, h2);
            let a0 = P0::arg_of(t0->Ok_0, h3);
            let a1 = P1::arg_of(t1->Ok_0, h3);
            let a2 = P2::arg_of(t2->Ok_0, h3);
            let made = <(P0, P1, P2) as Params>::prepared(args, h);
            &&& <(P0, P1, P2) as Params>::kinds() =~= seq![P0::takes(), P1::takes(), P2::takes()]
            &&& t0 is Err ==> made == (
                h,
                Err::<(P0::OutModel, P1::OutModel, P2::OutModel), GError>(t0->Err_0),
            )
            &&& t0 is Ok && t1 is Err ==> made == (
                h,
                Err::<(P0::OutModel, P1::OutModel, P2::OutModel), GError>(t1->Err_0),
            )
            &&& t0 is Ok && t1 is Ok && t2 is Err ==> made == (
                h,
                Err::<(P0::OutModel, P1::OutModel, P2::OutModel), GError>(t2->Err_0),
            )
            &&& t0 is Ok && t1 is Ok && t2 is Ok ==> {
                &&& a0 is Err ==> made == (
                    h,
                    Err::<(P0::OutModel, P1::OutModel, P2::OutModel), GError>(a0->Err_0),
                )
                &&& a0 is Ok && a1 is Err ==> made == (
                    h,
                    Err::<(P0::OutModel, P1::OutModel, P2::OutModel), GError>(a1->Err_0),
                )
                &&& a0 is Ok && a1 is Ok && a2 is Err ==> made == (
                    h,
                    Err::<(P0::OutModel, P1::OutModel, P2::OutModel), GError>(a2->Err_0),
                )
                &&& a0 is Ok && a1 is Ok && a2 is Ok ==> made == (
                    h3,
                    Ok::<
                        (P0::OutModel, P1::OutModel, P2::OutModel),
                        GError,
                    >((a0->Ok_0, a1->Ok_0, a2->Ok_0)),
                )
            }
        }),
{
    reveal_with_fuel(start_of, 4);
}

/// The limits of such a function are worked out from how its own parameters take their arguments.
pub proof fn law_limits_from_3<P0: Param, P1: Param, P2: Param, Ret, F>()
    ensures
        Wrapper::<(P0, P1, P2), Ret, F>::params() =~= seq![P0::takes(), P1::takes(), P2::takes()],
{
}

/// The four parameters of a function are made of the arguments from left to right: every parameter
/// but a borrowed global starts one argument after the one before it. First each makes its
/// temporary value, on the heap that those before it leave; then each is made of its own. The first
/// failure of all is the reason, and leaves the heap as it was.
pub proof fn law_made_of_4<P0: Param, P1: Param, P2: Param, P3: Param>(args: Seq<Slot>, h: Store)
    ensures
        ({
            let s0: int = 0;
            let s1: int = s0 + (if P0::takes() is RGlobal { 0int } else { 1int });
            let s2: int = s1 + (if P1::takes() is RGlobal { 0int } else { 1int });
            let s3: int = s2 + (if P2::takes() is RGlobal { 0int } else { 1int });
            let (h1, t0) = P0::temp_of(args, s0, h);
            let (h2, t1) = P1::temp_of(args, s1, h1);
            let (h3, t2) = P2::temp_of(args, s2, h2);
            let (h4, t3) = P3::temp_of(args, s3, h3);
            let a0 = P0::arg_of(t0->Ok_0, h4);
            let a1 = P1::arg_of(t1->Ok_0, h4);
            let a2 = P2::arg_of(t2->Ok_0, h4);
            let a3 = P3::arg_of(t3->Ok_0, h4);
            let made = <(P0, P1, P2, P3) as Params>::prepared(args, h);
            &&& <(P0, P1, P2, P3) as Params>::kinds() =~= seq![
                P0::takes(),
                P1::takes(),
                P2::takes(),
                P3::takes(),
            ]
            &&& t0 is Err ==> made == (
                h,
                Err::<(P0::OutModel, P1::OutModel, P2::OutModel, P3::OutModel), GError>(t0->Err_0),
            )
            &&& t0 is Ok && t1 is Err ==> made == (
                h,
                Err::<(P0::OutModel, P1::OutModel, P2::OutModel, P3::OutModel), GError>(t1->Err_0),
            )
            &&& t0 is Ok && t1 is Ok && t2 is Err ==> made == (
                h,
                Err::<(P0::OutModel, P1::OutModel, P2::OutModel, P3::OutModel), GError>(t2->Err_0),
            )
            &&& t0 is Ok && t1 is Ok && t2 is Ok && t3 is Err ==> made == (
                h,
                Err::<(P0::OutModel, P1::OutModel, P2::OutModel, P3::OutModel), GError>(t3->Err_0),
            )
            &&& t0 is Ok && t1 is Ok && t2 is Ok && t3 is Ok ==> {
                &&& a0 is Err ==> made == (
                    h,
                    Err::<
                        (P0::OutModel, P1::OutModel, P2::OutModel, P3::OutModel),
                        GError,
                    >(a0->Err_0),
                )
                &&& a0 is Ok && a1 is Err ==> made == (
                    h,
                    Err::<
                        (P0::OutModel, P1::OutModel, P2::OutModel, P3::OutModel),
                        GError,
                    >(a1->Err_0),
                )
                &&& a0 is Ok && a1 is Ok && a2 is Err ==> made == (
                    h,
                    Err::<
                        (P0::OutModel, P1::OutModel, P2::OutModel, P3::OutModel),
                        GError,
                    >(a2->Err_0),
                )
                &&& a0 is Ok && a1 is Ok && a2 is Ok && a3 is Err ==> made == (
                    h,
                    Err::<
                        (P0::OutModel, P1::OutModel, P2::OutModel, P3::OutModel),
                        GError,
                    >(a3->Err_0),
                )
                &&& a0 is Ok && a1 is Ok && a2 is Ok && a3 is Ok ==> made == (
                    h4,
                    Ok::<
                        (P0::OutModel, P1::OutModel, P2::OutModel, P3::OutModel),
                        GError,
                    >((a0->Ok_0, a1->Ok_0, a2->Ok_0, a3->Ok_0)),
                )
            }
        }),
{
    reveal_with_fuel(start_of, 5);
}

/// The limits of such a function are worked out from how its own parameters take their arguments.
pub proof fn law_limits_from_4<P0: Param, P1: Param, P2: Param, P3: Param, Ret, F>()
    ensures
        Wrapper::<(P0, P1, P2, P3), Ret, F>::params() =~= seq![
            P0::takes(),
            P1::takes(),
            P2::takes(),
            P3::takes(),
        ],
{
}

/// The five parameters of a function are made of the arguments from left to right: every parameter
/// but a borrowed global starts one argument after the one before it. First each makes its
/// temporary value, on the heap that those before it leave; then each is made of its own. The first
/// failure of all is the reason, and leaves the heap as it was.
pub proof fn law_made_of_5<
    P0: Param,
    P1: Param,
    P2: Param,
    P3: Param,
    P4: Param,
>(args: Seq<Slot>, h: Store)
    ensures
        ({
            let s0: int = 0;
            let s1: int = s0 + (if P0::takes() is RGlobal { 0int } else { 1int });
            let s2: int = s1 + (if P1::takes() is RGlobal { 0int } else { 1int });
            let s3: int = s2 + (if P2::takes() is RGlobal { 0int } else { 1int });
            let s4: int = s3 + (if P3::takes() is RGlobal { 0int } else { 1int });
            let (h1, t0) = P0::temp_of(args, s0, h);
            let (h2, t1) = P1::temp_of(args, s1, h1);
            let (h3, t2) = P2::temp_of(args, s2, h2);
            let (h4, t3) = P3::temp_of(args, s3, h3);
            let (h5, t4) = P4::temp_of(args, s4, h4);
            let a0 = P0::arg_of(t0->Ok_0, h5);
            let a1 = P1::arg_of(t1->Ok_0, h5);
            let a2 = P2::arg_of(t2->Ok_0, h5);
            let a3 = P3::arg_of(t3->Ok_0, h5);
            let a4 = P4::arg_of(t4->Ok_0, h5);
            let made = <(P0, P1, P2, P3, P4) as Params>::prepared(args, h);
            &&& <(P0, P1, P2, P3, P4) as Params>::kinds() =~= seq![
                P0::takes(),
                P1::takes(),
                P2::takes(),
                P3::takes(),
                P4::takes(),
            ]
            &&& t0 is Err ==> made == (
                h,
                Err::<
                    (P0::OutModel, P1::OutModel, P2::OutModel, P3::OutModel, P4::OutModel),
                    GError,
                >(t0->Err_0),
            )
            &&& t0 is Ok && t1 is Err ==> made == (
                h,
                Err::<
                    (P0::OutModel, P1::OutModel, P2::OutModel, P3::OutModel, P4::OutModel),
                    GError,
                >(t1->Err_0),
            )
            &&& t0 is Ok && t1 is Ok && t2 is Err ==> made == (
                h,
                Err::<
                    (P0::OutModel, P1::OutModel, P2::OutModel, P3::OutModel, P4::OutModel),
                    GError,
                >(t2->Err_0),
            )
            &&& t0 is Ok && t1 is Ok && t2 is Ok && t3 is Err ==> made == (
                h,
                Err::<
                    (P0::OutModel, P1::OutModel, P2::OutModel, P3::OutModel, P4::OutModel),
                    GError,
                >(t3->Err_0),
            )
            &&& t0 is Ok && t1 is Ok && t2 is Ok && t3 is Ok && t4 is Err ==> made == (
                h,
                Err::<
                    (P0::OutModel, P1::OutModel, P2::OutModel, P3::OutModel, P4::OutModel),
                    GError,
                >(t4->Err_0),
            )
            &&& t0 is Ok && t1 is Ok && t2 is Ok && t3 is Ok && t4 is Ok ==> {
                &&& a0 is Err ==> made == (
                    h,
                    Err::<
                        (P0::OutModel, P1::OutModel, P2::OutModel, P3::OutModel, P4::OutModel),
                        GError,
                    >(a0->Err_0),
                )
                &&& a0 is Ok && a1 is Err ==> made == (
                    h,
                    Err::<
                        (P0::OutModel, P1::OutModel, P2::OutModel, P3::OutModel, P4::OutModel),
                        GError,
                    >(a1->Err_0),
                )
                &&& a0 is Ok && a1 is Ok && a2 is Err ==> made == (
                    h,
                    Err::<
                        (P0::OutModel, P1::OutModel, P2::OutModel, P3::OutModel, P4::OutModel),
                        GError,
                    >(a2->Err_0),
                )
                &&& a0 is Ok && a1 is Ok && a2 is Ok && a3 is Err ==> made == (
                    h,
                    Err::<
                        (P0::OutModel, P1::OutModel, P2::OutModel, P3::OutModel, P4::OutModel),
                        GError,
                    >(a3->Err_0),
                )
                &&& a0 is Ok && a1 is Ok && a2 is Ok && a3 is Ok && a4 is Err ==> made == (
                    h,
                    Err::<
                        (P0::OutModel, P1::OutModel, P2::OutModel, P3::OutModel, P4::OutModel),
                        GError,
                    >(a4->Err_0),
                )
                &&& a0 is Ok && a1 is Ok && a2 is Ok && a3 is Ok && a4 is Ok ==> made == (
                    h5,
                    Ok::<
                        (P0::OutModel, P1::OutModel, P2::OutModel, P3::OutModel, P4::OutModel),
                        GError,
                    >((a0->Ok_0, a1->Ok_0, a2->Ok_0, a3->Ok_0, a4->Ok_0)),
                )
            }
        }),
{
    reveal_with_fuel(start_of, 6);
}

/// The limits of such a function are worked out from how its own parameters take their arguments.
pub proof fn law_limits_from_5<P0: Param, P1: Param, P2: Param, P3: Param, P4: Param, Ret, F>()
    ensures
        Wrapper::<(P0, P1, P2, P3, P4), Ret, F>::params() =~= seq![
            P0::takes(),
            P1::takes(),
            P2::takes(),
            P3::takes(),
            P4::takes(),
        ],
{
}

/// The six parameters of a function are made of the arguments from left to right: every parameter
/// but a borrowed global starts one argument after the one before it. First each makes its
/// temporary value, on the heap that those before it leave; then each is made of its own. The first
/// failure of all is the reason, and leaves the heap as it was.
pub proof fn law_made_of_6<
    P0: Param,
    P1: Param,
    P2: Param,
    P3: Param,
    P4: Param,
    P5: Param,
>(args: Seq<Slot>, h: Store)
    ensures
        ({
            let s0: int = 0;
            let s1: int = s0 + (if P0::takes() is RGlobal { 0int } else { 1int });
            let s2: int = s1 + (if P1::takes() is RGlobal { 0int } else { 1int });
            let s3: int = s2 + (if P2::takes() is RGlobal { 0int } else { 1int });
            let s4: int = s3 + (if P3::takes() is RGlobal { 0int } else { 1int });
            let s5: int = s4 + (if P4::takes() is RGlobal { 0int } else { 1int });
            let (h1, t0) = P0::temp_of(args, s0, h);
            let (h2, t1) = P1::temp_of(args, s1, h1);
            let (h3, t2) = P2::temp_of(args, s2, h2);
            let (h4, t3) = P3::temp_of(args, s3, h3);
            let (h5, t4) = P4::temp_of(args, s4, h4);
            let (h6, t5) = P5::temp_of(args, s5, h5);
            let a0 = P0::arg_of(t0->Ok_0, h6);
            let a1 = P1::arg_of(t1->Ok_0, h6);
            let a2 = P2::arg_of(t2->Ok_0, h6);
            let a3 = P3::arg_of(t3->Ok_0, h6);
            let a4 = P4::arg_of(t4->Ok_0, h6);
            let a5 = P5::arg_of(t5->Ok_0, h6);
            let made = <(P0, P1, P2, P3, P4, P5) as Params>::prepared(args, h);
            &&& <(P0, P1, P2, P3, P4, P5) as Params>::kinds() =~= seq![
                P0::takes(),
                P1::takes(),
                P2::takes(),
                P3::takes(),
                P4::takes(),
                P5::takes(),
            ]
            &&& t0 is Err ==> made == (
                h,
                Err::<
                    (
                        P0::OutModel,
                        P1::OutModel,
                        P2::OutModel,
                        P3::OutModel,
                        P4::OutModel,
                        P5::OutModel,
                    ),
                    GError,
                >(t0->Err_0),
            )
            &&& t0 is Ok && t1 is Err ==> made == (
                h,
                Err::<
                    (
                        P0::OutModel,
                        P1::OutModel,
                        P2::OutModel,
                        P3::OutModel,
                        P4::OutModel,
                        P5::OutModel,
                    ),
                    GError,
                >(t1->Err_0),
            )
            &&& t0 is Ok && t1 is Ok && t2 is Err ==> made == (
                h,
                Err::<
                    (
                        P0::OutModel,
                        P1::OutModel,
                        P2::OutModel,
                        P3::OutModel,
                        P4::OutModel,
                        P5::OutModel,
                    ),
                    GError,
                >(t2->Err_0),
            )
            &&& t0 is Ok && t1 is Ok && t2 is Ok && t3 is Err ==> made == (
                h,
                Err::<
                    (
                        P0::OutModel,
                        P1::OutModel,
                        P2::OutModel,
                        P3::OutModel,
                        P4::OutModel,
                        P5::OutModel,
                    ),
                    GError,
                >(t3->Err_0),
            )
            &&& t0 is Ok && t1 is Ok && t2 is Ok && t3 is Ok && t4 is Err ==> made == (
                h,
                Err::<
                    (
                        P0::OutModel,
                        P1::OutModel,
                        P2::OutModel,
                        P3::OutModel,
                        P4::OutModel,
                        P5::OutModel,
                    ),
                    GError,
                >(t4->Err_0),
            )
            &&& t0 is Ok && t1 is Ok && t2 is Ok && t3 is Ok && t4 is Ok && t5 is Err ==> made == (
                h,
                Err::<
                    (
                        P0::OutModel,
                        P1::OutModel,
                        P2::OutModel,
                        P3::OutModel,
                        P4::OutModel,
                        P5::OutModel,
                    ),
                    GError,
                >(t5->Err_0),
            )
            &&& t0 is Ok && t1 is Ok && t2 is Ok && t3 is Ok && t4 is Ok && t5 is Ok ==> {
                &&& a0 is Err ==> made == (
                    h,
                    Err::<
                        (
                            P0::OutModel,
                            P1::OutModel,
                            P2::OutModel,
                            P3::OutModel,
                            P4::OutModel,
                            P5::OutModel,
                        ),
                        GError,
                    >(a0->Err_0),
                )
                &&& a0 is Ok && a1 is Err ==> made == (
                    h,
                    Err::<
                        (
                            P0::OutModel,
                            P1::OutModel,
                            P2::OutModel,
                            P3::OutModel,
                            P4::OutModel,
                            P5::OutModel,
                        ),
                        GError,
                    >(a1->Err_0),
                )
                &&& a0 is Ok && a1 is Ok && a2 is Err ==> made == (
                    h,
                    Err::<
                        (
                            P0::OutModel,
                            P1::OutModel,
                            P2::OutModel,
                            P3::OutModel,
                            P4::OutModel,
                            P5::OutModel,
                        ),
                        GError,
                    >(a2->Err_0),
                )
                &&& a0 is Ok && a1 is Ok && a2 is Ok && a3 is Err ==> made == (
                    h,
                    Err::<
                        (
                            P0::OutModel,
                            P1::OutModel,
                            P2::OutModel,
                            P3::OutModel,
                            P4::OutModel,
                            P5::OutModel,
                        ),
                        GError,
                    >(a3->Err_0),
                )
                &&& a0 is Ok && a1 is Ok && a2 is Ok && a3 is Ok && a4 is Err ==> made == (
                    h,
                    Err::<
                        (
                            P0::OutModel,
                            P1::OutModel,
                            P2::OutModel,
                            P3::OutModel,
                            P4::OutModel,
                            P5::OutModel,
                        ),
                        GError,
                    >(a4->Err_0),
                )
                &&& a0 is Ok && a1 is Ok && a2 is Ok && a3 is Ok && a4 is Ok && a5 is Err
                    ==> made == (h, Err::<(P0::OutModel, P1::OutModel, P2::OutModel, P3::OutModel,
                    P4::OutModel, P5::OutModel), GError>(a5->Err_0))
                &&& a0 is Ok && a1 is Ok && a2 is Ok && a3 is Ok && a4 is Ok && a5 is Ok
                    ==> made == (h6, Ok::<(P0::OutModel, P1::OutModel, P2::OutModel, P3::OutModel,
                    P4::OutModel, P5::OutModel), GError>((a0->Ok_0, a1->Ok_0, a2->Ok_0, a3->Ok_0,
                    a4->Ok_0, a5->Ok_0)))
            }
        }),
{
    reveal_with_fuel(start_of, 7);
}

/// The limits of such a function are worked out from how its own parameters take their arguments.
pub proof fn law_limits_from_6<
    P0: Param,
    P1: Param,
    P2: Param,
    P3: Param,
    P4: Param,
    P5: Param,
    Ret,
    F,
>()
    ensures
        Wrapper::<(P0, P1, P2, P3, P4, P5), Ret, F>::params() =~= seq![
            P0::takes(),
            P1::takes(),
            P2::takes(),
            P3::takes(),
            P4::takes(),
            P5::takes(),
        ],
{
}

/// The seven parameters of a function are made of the arguments from left to right: every parameter
/// but a borrowed global starts one argument after the one before it. First each makes its
/// temporary value, on the heap that those before it leave; then each is made of its own. The first
/// failure of all is the reason, and leaves the heap as it was.
pub proof fn law_made_of_7<
    P0: Param,
    P1: Param,
    P2: Param,
    P3: Param,
    P4: Param,
    P5: Param,
    P6: Param,
>(args: Seq<Slot>, h: Store)
    ensures
        ({
            let s0: int = 0;
            let s1: int = s0 + (if P0::takes() is RGlobal { 0int } else { 1int });
            let s2: int = s1 + (if P1::takes() is RGlobal { 0int } else { 1int });
            let s3: int = s2 + (if P2::takes() is RGlobal { 0int } else { 1int });
            let s4: int = s3 + (if P3::takes() is RGlobal { 0int } else { 1int });
            let s5: int = s4 + (if P4::takes() is RGlobal { 0int } else { 1int });
            let s6: int = s5 + (if P5::takes() is RGlobal { 0int } else { 1int });
            let (h1, t0) = P0::temp_of(args, s0, h);
            let (h2, t1) = P1::temp_of(args, s1, h1);
            let (h3, t2) = P2::temp_of(args, s2, h2);
            let (h4, t3) = P3::temp_of(args, s3, h3);
            let (h5, t4) = P4::temp_of(args, s4, h4);
            let (h6, t5) = P5::temp_of(args, s5, h5);
            let (h7, t6) = P6::temp_of(args, s6, h6);
            let a0 = P0::arg_of(t0->Ok_0, h7);
            let a1 = P1::arg_of(t1->Ok_0, h7);
            let a2 = P2::arg_of(t2->Ok_0, h7);
            let a3 = P3::arg_of(t3->Ok_0, h7);
            let a4 = P4::arg_of(t4->Ok_0, h7);
            let a5 = P5::arg_of(t5->Ok_0, h7);
            let a6 = P6::arg_of(t6->Ok_0, h7);
            let made = <(P0, P1, P2, P3, P4, P5, P6) as Params>::prepared(args, h);
            &&& <(P0, P1, P2, P3, P4, P5, P6) as Params>::kinds() =~= seq![
                P0::takes(),
                P1::takes(),
                P2::takes(),
                P3::takes(),
                P4::takes(),
                P5::takes(),
                P6::takes(),
            ]
            &&& t0 is Err ==> made == (
                h,
                Err::<
                    (
                        P0::OutModel,
                        P1::OutModel,
                        P2::OutModel,
                        P3::OutModel,
                        P4::OutModel,
                        P5::OutModel,
                        P6::OutModel,
                    ),
                    GError,
                >(t0->Err_0),
            )
            &&& t0 is Ok && t1 is Err ==> made == (
                h,
                Err::<
                    (
                        P0::OutModel,
                        P1::OutModel,
                        P2::OutModel,
                        P3::OutModel,
                        P4::OutModel,
                        P5::OutModel,
                        P6::OutModel,
                    ),
                    GError,
                >(t1->Err_0),
            )
            &&& t0 is Ok && t1 is Ok && t2 is Err ==> made == (
                h,
                Err::<
                    (
                        P0::OutModel,
                        P1::OutModel,
                        P2::OutModel,
                        P3::OutModel,
                        P4::OutModel,
                        P5::OutModel,
                        P6::OutModel,
                    ),
                    GError,
                >(t2->Err_0),
            )
            &&& t0 is Ok && t1 is Ok && t2 is Ok && t3 is Err ==> made == (
                h,
                Err::<
                    (
                        P0::OutModel,
                        P1::OutModel,
                        P2::OutModel,
                        P3::OutModel,
                        P4::OutModel,
                        P5::OutModel,
                        P6::OutModel,
                    ),
                    GError,
                >(t3->Err_0),
            )
            &&& t0 is Ok && t1 is Ok && t2 is Ok && t3 is Ok && t4 is Err ==> made == (
                h,
                Err::<
                    (
                        P0::OutModel,
                        P1::OutModel,
                        P2::OutModel,
                        P3::OutModel,
                        P4::OutModel,
                        P5::OutModel,
                        P6::OutModel,
                    ),
                    GError,
                >(t4->Err_0),
            )
            &&& t0 is Ok && t1 is Ok && t2 is Ok && t3 is Ok && t4 is Ok && t5 is Err ==> made == (
                h,
                Err::<
                    (
                        P0::OutModel,
                        P1::OutModel,
                        P2::OutModel,
                        P3::OutModel,
                        P4::OutModel,
                        P5::OutModel,
                        P6::OutModel,
                    ),
                    GError,
                >(t5->Err_0),
            )
            &&& t0 is Ok && t1 is Ok && t2 is Ok && t3 is Ok && t4 is Ok && t5 is Ok
                && t6 is Err ==> made
                == (h, Err::<(P0::OutModel, P1::OutModel, P2::OutModel, P3::OutModel,
                P4::OutModel, P5::OutModel, P6::OutModel), GError>(t6->Err_0))
            &&& t0 is Ok && t1 is Ok && t2 is Ok && t3 is Ok && t4 is Ok && t5 is Ok
                && t6 is Ok ==> {
                &&& a0 is Err ==> made == (
                    h,
                    Err::<
                        (
                            P0::OutModel,
                            P1::OutModel,
                            P2::OutModel,
                            P3::OutModel,
                            P4::OutModel,
                            P5::OutModel,
                            P6::OutModel,
                        ),
                        GError,
                    >(a0->Err_0),
                )
                &&& a0 is Ok && a1 is Err ==> made == (
                    h,
                    Err::<
                        (
                            P0::OutModel,
                            P1::OutModel,
                            P2::OutModel,
                            P3::OutModel,
                            P4::OutModel,
                            P5::OutModel,
                            P6::OutModel,
                        ),
                        GError,
                    >(a1->Err_0),
                )
                &&& a0 is Ok && a1 is Ok && a2 is Err ==> made == (
                    h,
                    Err::<
                        (
                            P0::OutModel,
                            P1::OutModel,
                            P2::OutModel,
                            P3::OutModel,
                            P4::OutModel,
                            P5::OutModel,
                            P6::OutModel,
                        ),
                        GError,
                    >(a2->Err_0),
                )
                &&& a0 is Ok && a1 is Ok && a2 is Ok && a3 is Err ==> made == (
                    h,
                    Err::<
                        (
                            P0::OutModel,
                            P1::OutModel,
                            P2::OutModel,
                            P3::OutModel,
                            P4::OutModel,
                            P5::OutModel,
                            P6::OutModel,
                        ),
                        GError,
                    >(a3->Err_0),
                )
                &&& a0 is Ok && a1 is Ok && a2 is Ok && a3 is Ok && a4 is Err ==> made == (
                    h,
                    Err::<
                        (
                            P0::OutModel,
                            P1::OutModel,
                            P2::OutModel,
                            P3::OutModel,
                            P4::OutModel,
                            P5::OutModel,
                            P6::OutModel,
                        ),
                        GError,
                    >(a4->Err_0),
                )
                &&& a0 is Ok && a1 is Ok && a2 is Ok && a3 is Ok && a4 is Ok && a5 is Err
                    ==> made == (h, Err::<(P0::OutModel, P1::OutModel, P2::OutModel, P3::OutModel,
                    P4::OutModel, P5::OutModel, P6::OutModel), GError>(a5->Err_0))
                &&& a0 is Ok && a1 is Ok && a2 is Ok && a3 is Ok && a4 is Ok && a5 is Ok
                    && a6 is Err ==> made
                    == (h, Err::<(P0::OutModel, P1::OutModel, P2::OutModel, P3::OutModel,
                    P4::OutModel, P5::OutModel, P6::OutModel), GError>(a6->Err_0))
                &&& a0 is Ok && a1 is Ok && a2 is Ok && a3 is Ok && a4 is Ok && a5 is Ok
                    && a6 is Ok ==> made
                    == (h7, Ok::<(P0::OutModel, P1::OutModel, P2::OutModel, P3::OutModel,
                    P4::OutModel, P5::OutModel, P6::OutModel), GError>((a0->Ok_0, a1->Ok_0,
                    a2->Ok_0, a3->Ok_0, a4->Ok_0, a5->Ok_0, a6->Ok_0)))
            }
        }),
{
    reveal_with_fuel(start_of, 8);
}

/// The limits of such a function are worked out from how its own parameters take their arguments.
pub proof fn law_limits_from_7<
    P0: Param,
    P1: Param,
    P2: Param,
    P3: Param,
    P4: Param,
    P5: Param,
    P6: Param,
    Ret,
    F,
>()
    ensures
        Wrapper::<(P0, P1, P2, P3, P4, P5, P6), Ret, F>::params() =~= seq![
            P0::takes(),
            P1::takes(),
            P2::takes(),
            P3::takes(),
            P4::takes(),
            P5::takes(),
            P6::takes(),
        ],
{
}

/// The eight parameters of a function are made of the arguments from left to right: every parameter
/// but a borrowed global starts one argument after the one before it. First each makes its
/// temporary value, on the heap that those before it leave; then each is made of its own. The first
/// failure of all is the reason, and leaves the heap as it was.
pub proof fn law_made_of_8<
    P0: Param,
    P1: Param,
    P2: Param,
    P3: Param,
    P4: Param,
    P5: Param,
    P6: Param,
    P7: Param,
>(args: Seq<Slot>, h: Store)
    ensures
        ({
            let s0: int = 0;
            let s1: int = s0 + (if P0::takes() is RGlobal { 0int } else { 1int });
            let s2: int = s1 + (if P1::takes() is RGlobal { 0int } else { 1int });
            let s3: int = s2 + (if P2::takes() is RGlobal { 0int } else { 1int });
            let s4: int = s3 + (if P3::takes() is RGlobal { 0int } else { 1int });
            let s5: int = s4 + (if P4::takes() is RGlobal { 0int } else { 1int });
            let s6: int = s5 + (if P5::takes() is RGlobal { 0int } else { 1int });
            let s7: int = s6 + (if P6::takes() is RGlobal { 0int } else { 1int });
            let (h1, t0) = P0::temp_of(args, s0, h);
            let (h2, t1) = P1::temp_of(args, s1, h1);
            let (h3, t2) = P2::temp_of(args, s2, h2);
            let (h4, t3) = P3::temp_of(args, s3, h3);
            let (h5, t4) = P4::temp_of(args, s4, h4);
            let (h6, t5) = P5::temp_of(args, s5, h5);
            let (h7, t6) = P6::temp_of(args, s6, h6);
            let (h8, t7) = P7::temp_of(args, s7, h7);
            let a0 = P0::arg_of(t0->Ok_0, h8);
            let a1 = P1::arg_of(t1->Ok_0, h8);
            let a2 = P2::arg_of(t2->Ok_0, h8);
            let a3 = P3::arg_of(t3->Ok_0, h8);
            let a4 = P4::arg_of(t4->Ok_0, h8);
            let a5 = P5::arg_of(t5->Ok_0, h8);
            let a6 = P6::arg_of(t6->Ok_0, h8);
            let a7 = P7::arg_of(t7->Ok_0, h8);
            let made = <(P0, P1, P2, P3, P4, P5, P6, P7) as Params>::prepared(args, h);
            &&& <(P0, P1, P2, P3, P4, P5, P6, P7) as Params>::kinds() =~= seq![
                P0::takes(),
                P1::takes(),
                P2::takes(),
                P3::takes(),
                P4::takes(),
                P5::takes(),
                P6::takes(),
                P7::takes(),
            ]
            &&& t0 is Err ==> made == (
                h,
                Err::<
                    (
                        P0::OutModel,
                        P1::OutModel,
                        P2::OutModel,
                        P3::OutModel,
                        P4::OutModel,
                        P5::OutModel,
                        P6::OutModel,
                        P7::OutModel,
                    ),
                    GError,
                >(t0->Err_0),
            )
            &&& t0 is Ok && t1 is Err ==> made == (
                h,
                Err::<
                    (
                        P0::OutModel,
                        P1::OutModel,
                        P2::OutModel,
                        P3::OutModel,
                        P4::OutModel,
                        P5::OutModel,
                        P6::OutModel,
                        P7::OutModel,
                    ),
                    GError,
                >(t1->Err_0),
            )
            &&& t0 is Ok && t1 is Ok && t2 is Err ==> made == (
                h,
                Err::<
                    (
                        P0::OutModel,
                        P1::OutModel,
                        P2::OutModel,
                        P3::OutModel,
                        P4::OutModel,
                        P5::OutModel,
                        P6::OutModel,
                        P7::OutModel,
                    ),
                    GError,
                >(t2->Err_0),
            )
            &&& t0 is Ok && t1 is Ok && t2 is Ok && t3 is Err ==> made == (
                h,
                Err::<
                    (
                        P0::OutModel,
                        P1::OutModel,
                        P2::OutModel,
                        P3::OutModel,
                        P4::OutModel,
                        P5::OutModel,
                        P6::OutModel,
                        P7::OutModel,
                    ),
                    GError,
                >(t3->Err_0),
            )
            &&& t0 is Ok && t1 is Ok && t2 is Ok && t3 is Ok && t4 is Err ==> made == (
                h,
                Err::<
                    (
                        P0::OutModel,
                        P1::OutModel,
                        P2::OutModel,
                        P3::OutModel,
                        P4::OutModel,
                        P5::OutModel,
                        P6::OutModel,
                        P7::OutModel,
                    ),
                    GError,
                >(t4->Err_0),
            )
            &&& t0 is Ok && t1 is Ok && t2 is Ok && t3 is Ok && t4 is Ok && t5 is Err ==> made == (
                h,
                Err::<
                    (
                        P0::OutModel,
                        P1::OutModel,
                        P2::OutModel,
                        P3::OutModel,
                        P4::OutModel,
                        P5::OutModel,
                        P6::OutModel,
                        P7::OutModel,
                    ),
                    GError,
                >(t5->Err_0),
            )
            &&& t0 is Ok && t1 is Ok && t2 is Ok && t3 is Ok && t4 is Ok && t5 is Ok
                && t6 is Err ==> made
                == (h, Err::<(P0::OutModel, P1::OutModel, P2::OutModel, P3::OutModel,
                P4::OutModel, P5::OutModel, P6::OutModel, P7::OutModel), GError>(t6->Err_0))
            &&& t0 is Ok && t1 is Ok && t2 is Ok && t3 is Ok && t4 is Ok && t5 is Ok
                && t6 is Ok && t7 is Err ==> made
                == (h, Err::<(P0::OutModel, P1::OutModel, P2::OutModel, P3::OutModel,
                P4::OutModel, P5::OutModel, P6::OutModel, P7::OutModel), GError>(t7->Err_0))
            &&& t0 is Ok && t1 is Ok && t2 is Ok && t3 is Ok && t4 is Ok && t5 is Ok
                && t6 is Ok && t7 is Ok ==> {
                &&& a0 is Err ==> made == (
                    h,
                    Err::<
                        (
                            P0::OutModel,
                            P1::OutModel,
                            P2::OutModel,
                            P3::OutModel,
                            P4::OutModel,
                            P5::OutModel,
                            P6::OutModel,
                            P7::OutModel,
                        ),
                        GError,
                    >(a0->Err_0),
                )
                &&& a0 is Ok && a1 is Err ==> made == (
                    h,
                    Err::<
                        (
                            P0::OutModel,
                            P1::OutModel,
                            P2::OutModel,
                            P3::OutModel,
                            P4::OutModel,
                            P5::OutModel,
                            P6::OutModel,
                            P7::OutModel,
                        ),
                        GError,
                    >(a1->Err_0),
                )
                &&& a0 is Ok && a1 is Ok && a2 is Err ==> made == (
                    h,
                    Err::<
                        (
                            P0::OutModel,
                            P1::OutModel,
                            P2::OutModel,
                            P3::OutModel,
                            P4::OutModel,
                            P5::OutModel,
                            P6::OutModel,
                            P7::OutModel,
                        ),
                        GError,
                    >(a2->Err_0),
                )
                &&& a0 is Ok && a1 is Ok && a2 is Ok && a3 is Err ==> made == (
                    h,
                    Err::<
                        (
                            P0::OutModel,
                            P1::OutModel,
                            P2::OutModel,
                            P3::OutModel,
                            P4::OutModel,
                            P5::OutModel,
                            P6::OutModel,
                            P7::OutModel,
                        ),
                        GError,
                    >(a3->Err_0),
                )
                &&& a0 is Ok && a1 is Ok && a2 is Ok && a3 is Ok && a4 is Err ==> made == (
                    h,
                    Err::<
                        (
                            P0::OutModel,
                            P1::OutModel,
                            P2::OutModel,
                            P3::OutModel,
                            P4::OutModel,
                            P5::OutModel,
                            P6::OutModel,
                            P7::OutModel,
                        ),
                        GError,
                    >(a4->Err_0),
                )
                &&& a0 is Ok && a1 is Ok && a2 is Ok && a3 is Ok && a4 is Ok && a5 is Err
                    ==> made == (h, Err::<(P0::OutModel, P1::OutModel, P2::OutModel, P3::OutModel,
                    P4::OutModel, P5::OutModel, P6::OutModel, P7::OutModel), GError>(a5->Err_0))
                &&& a0 is Ok && a1 is Ok && a2 is Ok && a3 is Ok && a4 is Ok && a5 is Ok
                    && a6 is Err ==> made
                    == (h, Err::<(P0::OutModel, P1::OutModel, P2::OutModel, P3::OutModel,
                    P4::OutModel, P5::OutModel, P6::OutModel, P7::OutModel), GError>(a6->Err_0))
                &&& a0 is Ok && a1 is Ok && a2 is Ok && a3 is Ok && a4 is Ok && a5 is Ok
                    && a6 is Ok && a7 is Err ==> made
                    == (h, Err::<(P0::OutModel, P1::OutModel, P2::OutModel, P3::OutModel,
                    P4::OutModel, P5::OutModel, P6::OutModel, P7::OutModel), GError>(a7->Err_0))
                &&& a0 is Ok && a1 is Ok && a2 is Ok && a3 is Ok && a4 is Ok && a5 is Ok
                    && a6 is Ok && a7 is Ok ==> made
                    == (h8, Ok::<(P0::OutModel, P1::OutModel, P2::OutModel, P3::OutModel,
                    P4::OutModel, P5::OutModel, P6::OutModel, P7::OutModel), GError>((a0->Ok_0,
                    a1->Ok_0, a2->Ok_0, a3->Ok_0, a4->Ok_0, a5->Ok_0, a6->Ok_0, a7->Ok_0)))
            }
        }),
{
    reveal_with_fuel(start_of, 9);
}

/// The limits of such a function are worked out from how its own parameters take their arguments.
pub proof fn law_limits_from_8<
    P0: Param,
    P1: Param,
    P2: Param,
    P3: Param,
    P4: Param,
    P5: Param,
    P6: Param,
    P7: Param,
    Ret,
    F,
>()
    ensures
        Wrapper::<(P0, P1, P2, P3, P4, P5, P6, P7), Ret, F>::params() =~= seq![
            P0::takes(),
            P1::takes(),
            P2::takes(),
            P3::takes(),
            P4::takes(),
            P5::takes(),
            P6::takes(),
            P7::takes(),
        ],
{
}

/// A call is refused for how many arguments it has exactly where there are fewer than the fewest,
/// or more than the most; and the error tells both numbers.
pub proof fn law_outside_limits<A: Params>(limits: (usize, usize), args: Seq<Slot>, h: Store)
    requires
        args.len() <= usize::MAX,
    ensures
        args.len() < limits.0 ==> refusal::<A>(limits, args, h) == Some(
            GError::TooFewArgs { received: args.len() as usize, at_least: limits.0 },
        ),
        limits.0 <= args.len() && limits.1 < args.len() ==> refusal::<A>(limits, args, h) == Some(
            GError::TooManyArgs { received: args.len() as usize, at_most: limits.1 },
        ),
        limits.0 <= args.len() <= limits.1 ==> (refusal::<A>(limits, args, h) is None
            <==> A::prepared(args, h).1 is Ok),
        limits.0 <= args.len() <= limits.1 ==> (A::prepared(args, h).1 matches Err(e)
            ==> refusal::<A>(limits, args, h) == Some(e)),
{
}

/// The limits that a function is wrapped with are the fewest and the most arguments that its
/// parameters can do with, and every parameter can get its argument.
pub proof fn law_fitting_limits(params: Seq<ArgType>, limits: (usize, usize))
    ensures
        fitting(params, limits) <==> {
            &&& sensible(params)
            &&& limits.0 == fewest(params)
            &&& limits.1 == most(params)
        },
{
}

/// A parameter starts at the argument after those that the parameters before it take: one each, but
/// none for a borrowed global.
pub proof fn law_where_parameters_start(params: Seq<ArgType>, i: int)
    requires
        0 <= i < params.len(),
    ensures
        start_of(params, 0) == 0,
        params[i] is RGlobal ==> start_of(params, i + 1) == start_of(params, i),
        !(params[i] is RGlobal) ==> start_of(params, i + 1) == start_of(params, i) + 1,
{
}

/// The most arguments that a function takes is one for every normal or optional parameter, and
/// there is no such limit where some parameter collects all that are left.
pub proof fn law_most_arguments(params: Seq<ArgType>)
    ensures
        (exists|i: int| 0 <= i < params.len() && (#[trigger] params[i]) is Rest) ==> most(params)
            == usize::MAX,
        (forall|i: int| 0 <= i < params.len() ==> !((#[trigger] params[i]) is Rest))
            ==> most(params)
            == params.filter(|p: ArgType| p is Normal || p is Option).len(),
{
    lemma_positions(params);
}

proof fn lemma_positions(params: Seq<ArgType>)
    ensures
        positions(params) == params.filter(|p: ArgType| p is Normal || p is Option).len(),
    decreases params.len(),
{
    reveal(Seq::filter);
    if params.len() > 0 {
        lemma_positions(params.drop_last());
    }
}

/// The fewest arguments with which a function can be called reach up to its last normal parameter:
/// one for every normal or optional parameter up to it, and none where there is no such parameter.
pub proof fn law_fewest_arguments(params: Seq<ArgType>, last: int)
    ensures
        (forall|i: int| 0 <= i < params.len() ==> !((#[trigger] params[i]) is Normal)) ==> fewest(
            params,
        ) == 0,
        0 <= last < params.len() && params[last] is Normal && (forall|i: int|
            last < i < params.len() ==> !((#[trigger] params[i]) is Normal)) ==> fewest(params)
            == params.take(last + 1).filter(|p: ArgType| p is Normal || p is Option).len(),
    decreases params.len(),
{
    if params.len() > 0 {
        let fewer = params.drop_last();
        if params.last() is Normal {
            assert(params[params.len() - 1] is Normal);
            if 0 <= last < params.len() && (forall|i: int|
                last < i < params.len() ==> !((#[trigger] params[i]) is Normal)) {
                assert(last == params.len() - 1);
                assert(params.take(last + 1) =~= params);
                lemma_positions(params);
            }
        } else {
            law_fewest_arguments(fewer, last);
            if 0 <= last < fewer.len() {
                assert(fewer.take(last + 1) =~= params.take(last + 1));
            }
        }
    }
}

/// A list of parameters makes sense exactly where no normal or optional parameter comes after one
/// that collects all the arguments that are left.
pub proof fn law_sensible_parameters(params: Seq<ArgType>)
    ensures
        sensible(params) <==> forall|i: int, j: int|
            0 <= i < j < params.len() && (#[trigger] params[i]) is Rest ==> !((
            #[trigger] params[j]) is Normal) && !(params[j] is Option),
{
    if sensible(params) {
        assert forall|i: int, j: int|
            0 <= i < j < params.len() && (#[trigger] params[i]) is Rest implies !((
        #[trigger] params[j]) is Normal) && !(params[j] is Option) by {
            assert(!starved(params, j));
            assert(params.take(j)[i] is Rest);
        }
    }
    if forall|i: int, j: int|
        0 <= i < j < params.len() && (#[trigger] params[i]) is Rest ==> !((#[trigger] params[j])
            is Normal) && !(params[j] is Option) {
        assert forall|j: int| !#[trigger] starved(params, j) by {
            if starved(params, j) {
                let before = params.take(j);
                let i = choose|i: int|
                    #![trigger before[i]]
                    0 <= i < before.len() && before[i] is Rest;
                assert(params[i] is Rest);
            }
        }
    }
}

/// What is wrong with a list of parameters is told by the parameter that comes too late.
pub proof fn law_parameter_faults(params: Seq<ArgType>, i: int)
    ensures
        params[i] is Normal ==> fault(params, i) is NormalAfterRest,
        params[i] is Option ==> fault(params, i) is OptionAfterRest,
        starved(params, i) ==> {
            &&& 0 <= i < params.len()
            &&& params[i] is Normal || params[i] is Option
            &&& exists|j: int| 0 <= j < i && (#[trigger] params[j]) is Rest
        },
{
    if starved(params, i) {
        let before = params.take(i);
        let j = choose|j: int| #![trigger before[j]] 0 <= j < before.len() && before[j] is Rest;
        assert(params[j] is Rest);
    }
}

} // verus!
