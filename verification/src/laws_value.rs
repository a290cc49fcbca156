//! What holds of values, slots and handles, and of what the engine can call.

use std::cmp::Ordering;

use vstd::prelude::*;

use crate::callable::{result_of, Callable, CallableOps, Reply};
use crate::error::{ForeignError, GError, GResult, TypeKey};
use crate::marker::{DataType, GlobalType, HostError, HostType, Unmasked};
use crate::order::{order_of, read_as};
use crate::store::Store;
use crate::value::{
    Arr, Class, Coro, GFn, GIter, Obj, Order, Pointee, RData, RFn, Raw, Root, Slot, Str, Tab, Val,
};

verus! {

/// A slot holds the very value that it was made of: the same number, character, symbol or handle,
/// and no other.
pub proof fn law_slot_of_value(v: Val)
    ensures
        v is Nil ==> v.slot() is Nil,
        v matches Val::Int(i) ==> v.slot() == Slot::Int(i),
        v matches Val::Char(c) ==> v.slot() == Slot::Char(c),
        v matches Val::Flo(f) ==> v.slot() == Slot::Flo(f),
        v matches Val::Bool(b) ==> v.slot() == Slot::Bool(b),
        v matches Val::Sym(sym) ==> v.slot() == Slot::Sym(sym),
        v matches Val::RFn(root) ==> v.slot() == Slot::RFn(Raw { id: root.id, kind: RFn }),
        v matches Val::Arr(root) ==> v.slot() == Slot::Arr(Raw { id: root.id, kind: Arr }),
        v matches Val::Str(root) ==> v.slot() == Slot::Str(Raw { id: root.id, kind: Str }),
        v matches Val::Tab(root) ==> v.slot() == Slot::Tab(Raw { id: root.id, kind: Tab }),
        v matches Val::GIter(root) ==> v.slot() == Slot::GIter(Raw { id: root.id, kind: GIter }),
        v matches Val::Obj(root) ==> v.slot() == Slot::Obj(Raw { id: root.id, kind: Obj }),
        v matches Val::Class(root) ==> v.slot() == Slot::Class(Raw { id: root.id, kind: Class }),
        v matches Val::GFn(root) ==> v.slot() == Slot::GFn(Raw { id: root.id, kind: GFn }),
        v matches Val::Coro(root) ==> v.slot() == Slot::Coro(Raw { id: root.id, kind: Coro }),
        v matches Val::RData(root) ==> v.slot() == Slot::RData(Raw { id: root.id, kind: RData }),
{
}

/// A value that is read from a slot is the one that the slot holds.
pub proof fn law_value_of_slot(s: Slot)
    ensures
        s is Nil ==> s.val() is Nil,
        s matches Slot::Int(i) ==> s.val() == Val::Int(i),
        s matches Slot::Char(c) ==> s.val() == Val::Char(c),
        s matches Slot::Flo(f) ==> s.val() == Val::Flo(f),
        s matches Slot::Bool(b) ==> s.val() == Val::Bool(b),
        s matches Slot::Sym(sym) ==> s.val() == Val::Sym(sym),
        s matches Slot::RFn(raw) ==> s.val() == Val::RFn(Root { id: raw.id, kind: RFn }),
        s matches Slot::Arr(raw) ==> s.val() == Val::Arr(Root { id: raw.id, kind: Arr }),
        s matches Slot::Str(raw) ==> s.val() == Val::Str(Root { id: raw.id, kind: Str }),
        s matches Slot::Tab(raw) ==> s.val() == Val::Tab(Root { id: raw.id, kind: Tab }),
        s matches Slot::GIter(raw) ==> s.val() == Val::GIter(Root { id: raw.id, kind: GIter }),
        s matches Slot::Obj(raw) ==> s.val() == Val::Obj(Root { id: raw.id, kind: Obj }),
        s matches Slot::Class(raw) ==> s.val() == Val::Class(Root { id: raw.id, kind: Class }),
        s matches Slot::GFn(raw) ==> s.val() == Val::GFn(Root { id: raw.id, kind: GFn }),
        s matches Slot::Coro(raw) ==> s.val() == Val::Coro(Root { id: raw.id, kind: Coro }),
        s matches Slot::RData(raw) ==> s.val() == Val::RData(Root { id: raw.id, kind: RData }),
{
}

/// The type of a value tells its variant, and that of a slot the variant of the value that it
/// holds.
pub proof fn law_types_tell_variants(v: Val, s: Slot)
    ensures
        v.type_of() is Nil <==> v is Nil,
        s.type_of() is Nil <==> s is Nil,
        v.type_of() is Int <==> v is Int,
        s.type_of() is Int <==> s is Int,
        v.type_of() is Char <==> v is Char,
        s.type_of() is Char <==> s is Char,
        v.type_of() is Flo <==> v is Flo,
        s.type_of() is Flo <==> s is Flo,
        v.type_of() is Bool <==> v is Bool,
        s.type_of() is Bool <==> s is Bool,
        v.type_of() is Sym <==> v is Sym,
        s.type_of() is Sym <==> s is Sym,
        v.type_of() is RFn <==> v is RFn,
        s.type_of() is RFn <==> s is RFn,
        v.type_of() is Arr <==> v is Arr,
        s.type_of() is Arr <==> s is Arr,
        v.type_of() is Str <==> v is Str,
        s.type_of() is Str <==> s is Str,
        v.type_of() is Tab <==> v is Tab,
        s.type_of() is Tab <==> s is Tab,
        v.type_of() is GIter <==> v is GIter,
        s.type_of() is GIter <==> s is GIter,
        v.type_of() is Obj <==> v is Obj,
        s.type_of() is Obj <==> s is Obj,
        v.type_of() is Class <==> v is Class,
        s.type_of() is Class <==> s is Class,
        v.type_of() is GFn <==> v is GFn,
        s.type_of() is GFn <==> s is GFn,
        v.type_of() is Coro <==> v is Coro,
        s.type_of() is Coro <==> s is Coro,
        v.type_of() is RData <==> v is RData,
        s.type_of() is RData <==> s is RData,
{
}

/// Counted or not, a handle refers to the same object.
pub proof fn law_handles_of_one_object<T: Copy>(root: Root<T>, raw: Raw<T>)
    ensures
        root.raw().id == root.id,
        root.raw().kind == root.kind,
        raw.rooted().id == raw.id,
        raw.rooted().kind == raw.kind,
        root.raw().rooted() == root,
        raw.rooted().raw() == raw,
{
}

/// A handle of kind `RFn` is a value of the variant `RFn`, and is found in such a value alone.
pub proof fn law_rfn_handle(root: Root<RFn>, v: Val)
    ensures
        <RFn as Pointee>::val_of(root) == Val::RFn(root),
        <RFn as Pointee>::root_in(Val::RFn(root)) == Some(root),
        <RFn as Pointee>::root_in(v) is Some <==> v is RFn,
        <RFn as Pointee>::type_here() is RFn,
{
}

/// A handle of kind `Arr` is a value of the variant `Arr`, and is found in such a value alone.
pub proof fn law_arr_handle(root: Root<Arr>, v: Val)
    ensures
        <Arr as Pointee>::val_of(root) == Val::Arr(root),
        <Arr as Pointee>::root_in(Val::Arr(root)) == Some(root),
        <Arr as Pointee>::root_in(v) is Some <==> v is Arr,
        <Arr as Pointee>::type_here() is Arr,
{
}

/// A handle of kind `Str` is a value of the variant `Str`, and is found in such a value alone.
pub proof fn law_str_handle(root: Root<Str>, v: Val)
    ensures
        <Str as Pointee>::val_of(root) == Val::Str(root),
        <Str as Pointee>::root_in(Val::Str(root)) == Some(root),
        <Str as Pointee>::root_in(v) is Some <==> v is Str,
        <Str as Pointee>::type_here() is Str,
{
}

/// A handle of kind `Tab` is a value of the variant `Tab`, and is found in such a value alone.
pub proof fn law_tab_handle(root: Root<Tab>, v: Val)
    ensures
        <Tab as Pointee>::val_of(root) == Val::Tab(root),
        <Tab as Pointee>::root_in(Val::Tab(root)) == Some(root),
        <Tab as Pointee>::root_in(v) is Some <==> v is Tab,
        <Tab as Pointee>::type_here() is Tab,
{
}

/// A handle of kind `GIter` is a value of the variant `GIter`, and is found in such a value alone.
pub proof fn law_giter_handle(root: Root<GIter>, v: Val)
    ensures
        <GIter as Pointee>::val_of(root) == Val::GIter(root),
        <GIter as Pointee>::root_in(Val::GIter(root)) == Some(root),
        <GIter as Pointee>::root_in(v) is Some <==> v is GIter,
        <GIter as Pointee>::type_here() is GIter,
{
}

/// A handle of kind `Obj` is a value of the variant `Obj`, and is found in such a value alone.
pub proof fn law_obj_handle(root: Root<Obj>, v: Val)
    ensures
        <Obj as Pointee>::val_of(root) == Val::Obj(root),
        <Obj as Pointee>::root_in(Val::Obj(root)) == Some(root),
        <Obj as Pointee>::root_in(v) is Some <==> v is Obj,
        <Obj as Pointee>::type_here() is Obj,
{
}

/// A handle of kind `Class` is a value of the variant `Class`, and is found in such a value alone.
pub proof fn law_class_handle(root: Root<Class>, v: Val)
    ensures
        <Class as Pointee>::val_of(root) == Val::Class(root),
        <Class as Pointee>::root_in(Val::Class(root)) == Some(root),
        <Class as Pointee>::root_in(v) is Some <==> v is Class,
        <Class as Pointee>::type_here() is Class,
{
}

/// A handle of kind `GFn` is a value of the variant `GFn`, and is found in such a value alone.
pub proof fn law_gfn_handle(root: Root<GFn>, v: Val)
    ensures
        <GFn as Pointee>::val_of(root) == Val::GFn(root),
        <GFn as Pointee>::root_in(Val::GFn(root)) == Some(root),
        <GFn as Pointee>::root_in(v) is Some <==> v is GFn,
        <GFn as Pointee>::type_here() is GFn,
{
}

/// A handle of kind `Coro` is a value of the variant `Coro`, and is found in such a value alone.
pub proof fn law_coro_handle(root: Root<Coro>, v: Val)
    ensures
        <Coro as Pointee>::val_of(root) == Val::Coro(root),
        <Coro as Pointee>::root_in(Val::Coro(root)) == Some(root),
        <Coro as Pointee>::root_in(v) is Some <==> v is Coro,
        <Coro as Pointee>::type_here() is Coro,
{
}

/// A handle of kind `RData` is a value of the variant `RData`, and is found in such a value alone.
pub proof fn law_rdata_handle(root: Root<RData>, v: Val)
    ensures
        <RData as Pointee>::val_of(root) == Val::RData(root),
        <RData as Pointee>::root_in(Val::RData(root)) == Some(root),
        <RData as Pointee>::root_in(v) is Some <==> v is RData,
        <RData as Pointee>::type_here() is RData,
{
}

/// The host's ordering and this library's own mean the same, whichever way it is converted.
pub proof fn law_orderings_agree(r: GResult<Ordering>)
    ensures
        order_of(Ordering::Less) is Less,
        order_of(Ordering::Equal) is Equal,
        order_of(Ordering::Greater) is Greater,
        r matches Ok(Ordering::Less) ==> read_as(r) == Ok::<Order, GError>(Order::Less),
        r matches Ok(Ordering::Equal) ==> read_as(r) == Ok::<Order, GError>(Order::Equal),
        r matches Ok(Ordering::Greater) ==> read_as(r) == Ok::<Order, GError>(Order::Greater),
        r matches Err(e) ==> read_as(r) == Err::<Order, GError>(e),
{
}

/// A host type that is known by number has that number as its key, and is of the sort that its name
/// says.
pub proof fn law_types_by_number<const ID: usize>()
    ensures
        <DataType<ID> as HostType>::key() == (TypeKey { id: ID }),
        <GlobalType<ID> as HostType>::key() == (TypeKey { id: ID }),
        !<DataType<ID> as HostType>::is_global(),
        <GlobalType<ID> as HostType>::is_global(),
{
}

/// An error of the engine's own is told apart from an error of any other type, and neither is
/// changed by that.
pub proof fn law_errors_told_apart(own: GError, foreign: ForeignError)
    ensures
        own.unmasked() == Unmasked::Own(own),
        foreign.unmasked() == Unmasked::Foreign(foreign),
{
}

/// What is known of a callable is what was made known of the function or the class of its own kind
/// and number, and of any other nothing is known.
pub proof fn law_known_callables(h: Store, rfn: Root<RFn>, gfn: Root<GFn>, class: Root<Class>)
    ensures
        rfn.id < h.rfns.len() ==> Callable::RFn(rfn).known(h) == Some(h.rfns[rfn.id as int]),
        rfn.id >= h.rfns.len() ==> Callable::RFn(rfn).known(h) is None,
        gfn.id < h.gfns.len() ==> Callable::GFn(gfn).known(h) == Some(h.gfns[gfn.id as int]),
        gfn.id >= h.gfns.len() ==> Callable::GFn(gfn).known(h) is None,
        class.id < h.classes.len() ==> Callable::Class(class).known(h) == Some(
            h.classes[class.id as int],
        ),
        class.id >= h.classes.len() ==> Callable::Class(class).known(h) is None,
{
}

/// What is called through a handle, counted or not, is what the handle refers to.
pub proof fn law_callees(c: Callable, rfn: Raw<RFn>, gfn: Raw<GFn>, class: Raw<Class>)
    ensures
        c.callee() == c,
        (Root { id: rfn.id, kind: RFn }).callee() == Callable::RFn(Root { id: rfn.id, kind: RFn }),
        rfn.callee() == Callable::RFn(Root { id: rfn.id, kind: RFn }),
        (Root { id: gfn.id, kind: GFn }).callee() == Callable::GFn(Root { id: gfn.id, kind: GFn }),
        gfn.callee() == Callable::GFn(Root { id: gfn.id, kind: GFn }),
        (Root { id: class.id, kind: Class }).callee() == Callable::Class(
            Root { id: class.id, kind: Class },
        ),
        class.callee() == Callable::Class(Root { id: class.id, kind: Class }),
{
}

/// A call ends in what the engine brought back of it: the value in the slot, the value itself, or
/// the new object. An error comes through as it is.
pub proof fn law_call_results(slot: Slot, val: Val, obj: Root<Obj>, e: GError, c: Callable)
    ensures
        result_of(Reply::RFn(Ok(slot))) == Ok::<Val, GError>(slot.val()),
        result_of(Reply::GFn(Ok(val))) == Ok::<Val, GError>(val),
        result_of(Reply::Class(Ok(obj))) == Ok::<Val, GError>(Val::Obj(obj)),
        result_of(Reply::RFn(Err(e))) == Err::<Val, GError>(e),
        result_of(Reply::GFn(Err(e))) == Err::<Val, GError>(e),
        result_of(Reply::Class(Err(e))) == Err::<Val, GError>(e),
        c.answered_by(Reply::RFn(Ok(slot))) <==> c is RFn,
        c.answered_by(Reply::GFn(Ok(val))) <==> c is GFn,
        c.answered_by(Reply::Class(Ok(obj))) <==> c is Class,
        c.answered_by(Reply::RFn(Err(e))) <==> c is RFn,
        c.answered_by(Reply::GFn(Err(e))) <==> c is GFn,
        c.answered_by(Reply::Class(Err(e))) <==> c is Class,
{
}

} // verus!
