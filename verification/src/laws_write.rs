//! What holds of conversions to values: what a host value becomes, and what that leaves on the
//! heap.

use std::collections::{BTreeMap, HashMap, VecDeque};

use vstd::prelude::*;
use vstd::std_specs::btree::increasing_seq;
use vstd::utf8::{decode_utf8, valid_utf8};

use crate::callable::Callable;
use crate::error::{ForeignError, GError, GResult, TextType};
use crate::into_map::{
    ascending, btree_pairs, distinct, entered_all, hash_pairs, keys_of, lists, mut_entered_all, put,
    ref_pairs, values_left,
};
use crate::into_val::{
    joined_all, lemma_joined_all_failed, lemma_mut_joined_all_failed, mut_joined_all, mut_left,
    mut_left_all, slotted, started, IntoVal, IntoValMut,
};
use crate::marker::{BuildHasherDefaultMarker, HashEqMarker, HostType, OrdMarker};
use crate::small::SmallList;
use crate::store::{HostCell, Store};
use crate::text::{CText, OsText, PathText};
use crate::value::{
    Arr, Deque, Expander, Flo, GIterLen, HostValue, Iterable, Num, Order, Pointee, RData, RRoot,
        Raw,
    Root, Slot, Str, Sym, Tab, Val,
};

verus! {

/// A conversion to a slot leaves on the heap what the conversion to a value leaves, and gives the
/// slot that holds the value, or the same error.
pub proof fn law_slot_of_conversion(h: Store, r: GResult<Val>)
    ensures
        slotted((h, r)).0 == h,
        r matches Ok(v) ==> slotted((h, r)).1 == Ok::<Slot, GError>(v.slot()),
        r matches Err(e) ==> slotted((h, r)).1 == Err::<Slot, GError>(e),
{
}

/// An `i8` becomes the int that is the same number, by value or by reference.
pub proof fn law_write_i8(x: i8, h: Store, after: i8)
    ensures
        x.to_val(h).0 == h,
        x.to_val(h).1 is Ok && x.to_val(h).1->Ok_0 is Int,
        x.to_val(h).1->Ok_0->Int_0 as int == x as int,
        (&x).to_val(h) == x.to_val(h),
        x.mut_to_val(h) == x.to_val(h),
        x.leaves(h, after) <==> after == x,
{
}

/// An `i16` becomes the int that is the same number, by value or by reference.
pub proof fn law_write_i16(x: i16, h: Store, after: i16)
    ensures
        x.to_val(h).0 == h,
        x.to_val(h).1 is Ok && x.to_val(h).1->Ok_0 is Int,
        x.to_val(h).1->Ok_0->Int_0 as int == x as int,
        (&x).to_val(h) == x.to_val(h),
        x.mut_to_val(h) == x.to_val(h),
        x.leaves(h, after) <==> after == x,
{
}

/// An `i32` becomes the int that is the same number, by value or by reference.
pub proof fn law_write_i32(x: i32, h: Store, after: i32)
    ensures
        x.to_val(h).0 == h,
        x.to_val(h).1 is Ok && x.to_val(h).1->Ok_0 is Int,
        x.to_val(h).1->Ok_0->Int_0 as int == x as int,
        (&x).to_val(h) == x.to_val(h),
        x.mut_to_val(h) == x.to_val(h),
        x.leaves(h, after) <==> after == x,
{
}

/// An `u8` becomes the int that is the same number, by value or by reference.
pub proof fn law_write_u8(x: u8, h: Store, after: u8)
    ensures
        x.to_val(h).0 == h,
        x.to_val(h).1 is Ok && x.to_val(h).1->Ok_0 is Int,
        x.to_val(h).1->Ok_0->Int_0 as int == x as int,
        (&x).to_val(h) == x.to_val(h),
        x.mut_to_val(h) == x.to_val(h),
        x.leaves(h, after) <==> after == x,
{
}

/// An `u16` becomes the int that is the same number, by value or by reference.
pub proof fn law_write_u16(x: u16, h: Store, after: u16)
    ensures
        x.to_val(h).0 == h,
        x.to_val(h).1 is Ok && x.to_val(h).1->Ok_0 is Int,
        x.to_val(h).1->Ok_0->Int_0 as int == x as int,
        (&x).to_val(h) == x.to_val(h),
        x.mut_to_val(h) == x.to_val(h),
        x.leaves(h, after) <==> after == x,
{
}

/// An `i64` becomes the int that is the same number, by value or by reference, and is refused where
/// there is none.
pub proof fn law_write_i64(x: i64, h: Store, after: i64)
    ensures
        x.to_val(h).0 == h,
        -0x8000_0000 <= x <= 0x7fff_ffff ==> {
            &&& x.to_val(h).1 is Ok && x.to_val(h).1->Ok_0 is Int
            &&& x.to_val(h).1->Ok_0->Int_0 as int == x as int
        },
        x < -0x8000_0000 || x > 0x7fff_ffff ==> {
            &&& x.to_val(h).1 is Err && x.to_val(h).1->Err_0 is NotAnI32
            &&& x.to_val(h).1->Err_0->value is Signed
            &&& x.to_val(h).1->Err_0->value->Signed_0 as int == x as int
        },
        (&x).to_val(h) == x.to_val(h),
        x.mut_to_val(h) == x.to_val(h),
        x.leaves(h, after) <==> after == x,
{
}

/// An `i128` becomes the int that is the same number, by value or by reference, and is refused
/// where there is none.
pub proof fn law_write_i128(x: i128, h: Store, after: i128)
    ensures
        x.to_val(h).0 == h,
        -0x8000_0000 <= x <= 0x7fff_ffff ==> {
            &&& x.to_val(h).1 is Ok && x.to_val(h).1->Ok_0 is Int
            &&& x.to_val(h).1->Ok_0->Int_0 as int == x as int
        },
        x < -0x8000_0000 || x > 0x7fff_ffff ==> {
            &&& x.to_val(h).1 is Err && x.to_val(h).1->Err_0 is NotAnI32
            &&& x.to_val(h).1->Err_0->value is Signed
            &&& x.to_val(h).1->Err_0->value->Signed_0 as int == x as int
        },
        (&x).to_val(h) == x.to_val(h),
        x.mut_to_val(h) == x.to_val(h),
        x.leaves(h, after) <==> after == x,
{
}

/// An `isize` becomes the int that is the same number, by value or by reference, and is refused
/// where there is none.
pub proof fn law_write_isize(x: isize, h: Store, after: isize)
    ensures
        x.to_val(h).0 == h,
        -0x8000_0000 <= x <= 0x7fff_ffff ==> {
            &&& x.to_val(h).1 is Ok && x.to_val(h).1->Ok_0 is Int
            &&& x.to_val(h).1->Ok_0->Int_0 as int == x as int
        },
        x < -0x8000_0000 || x > 0x7fff_ffff ==> {
            &&& x.to_val(h).1 is Err && x.to_val(h).1->Err_0 is NotAnI32
            &&& x.to_val(h).1->Err_0->value is Signed
            &&& x.to_val(h).1->Err_0->value->Signed_0 as int == x as int
        },
        (&x).to_val(h) == x.to_val(h),
        x.mut_to_val(h) == x.to_val(h),
        x.leaves(h, after) <==> after == x,
{
}

/// An `u32` becomes the int that is the same number, by value or by reference, and is refused where
/// there is none.
pub proof fn law_write_u32(x: u32, h: Store, after: u32)
    ensures
        x.to_val(h).0 == h,
        -0x8000_0000 <= x <= 0x7fff_ffff ==> {
            &&& x.to_val(h).1 is Ok && x.to_val(h).1->Ok_0 is Int
            &&& x.to_val(h).1->Ok_0->Int_0 as int == x as int
        },
        x < -0x8000_0000 || x > 0x7fff_ffff ==> {
            &&& x.to_val(h).1 is Err && x.to_val(h).1->Err_0 is NotAnI32
            &&& x.to_val(h).1->Err_0->value is Unsigned
            &&& x.to_val(h).1->Err_0->value->Unsigned_0 as int == x as int
        },
        (&x).to_val(h) == x.to_val(h),
        x.mut_to_val(h) == x.to_val(h),
        x.leaves(h, after) <==> after == x,
{
}

/// An `u64` becomes the int that is the same number, by value or by reference, and is refused where
/// there is none.
pub proof fn law_write_u64(x: u64, h: Store, after: u64)
    ensures
        x.to_val(h).0 == h,
        -0x8000_0000 <= x <= 0x7fff_ffff ==> {
            &&& x.to_val(h).1 is Ok && x.to_val(h).1->Ok_0 is Int
            &&& x.to_val(h).1->Ok_0->Int_0 as int == x as int
        },
        x < -0x8000_0000 || x > 0x7fff_ffff ==> {
            &&& x.to_val(h).1 is Err && x.to_val(h).1->Err_0 is NotAnI32
            &&& x.to_val(h).1->Err_0->value is Unsigned
            &&& x.to_val(h).1->Err_0->value->Unsigned_0 as int == x as int
        },
        (&x).to_val(h) == x.to_val(h),
        x.mut_to_val(h) == x.to_val(h),
        x.leaves(h, after) <==> after == x,
{
}

/// An `u128` becomes the int that is the same number, by value or by reference, and is refused
/// where there is none.
pub proof fn law_write_u128(x: u128, h: Store, after: u128)
    ensures
        x.to_val(h).0 == h,
        -0x8000_0000 <= x <= 0x7fff_ffff ==> {
            &&& x.to_val(h).1 is Ok && x.to_val(h).1->Ok_0 is Int
            &&& x.to_val(h).1->Ok_0->Int_0 as int == x as int
        },
        x < -0x8000_0000 || x > 0x7fff_ffff ==> {
            &&& x.to_val(h).1 is Err && x.to_val(h).1->Err_0 is NotAnI32
            &&& x.to_val(h).1->Err_0->value is Unsigned
            &&& x.to_val(h).1->Err_0->value->Unsigned_0 as int == x as int
        },
        (&x).to_val(h) == x.to_val(h),
        x.mut_to_val(h) == x.to_val(h),
        x.leaves(h, after) <==> after == x,
{
}

/// An `usize` becomes the int that is the same number, by value or by reference, and is refused
/// where there is none.
pub proof fn law_write_usize(x: usize, h: Store, after: usize)
    ensures
        x.to_val(h).0 == h,
        -0x8000_0000 <= x <= 0x7fff_ffff ==> {
            &&& x.to_val(h).1 is Ok && x.to_val(h).1->Ok_0 is Int
            &&& x.to_val(h).1->Ok_0->Int_0 as int == x as int
        },
        x < -0x8000_0000 || x > 0x7fff_ffff ==> {
            &&& x.to_val(h).1 is Err && x.to_val(h).1->Err_0 is NotAnI32
            &&& x.to_val(h).1->Err_0->value is Unsigned
            &&& x.to_val(h).1->Err_0->value->Unsigned_0 as int == x as int
        },
        (&x).to_val(h) == x.to_val(h),
        x.mut_to_val(h) == x.to_val(h),
        x.leaves(h, after) <==> after == x,
{
}

/// A `char` becomes the value that holds it, by value or by reference.
pub proof fn law_write_char(x: char, h: Store, after: char)
    ensures
        x.to_val(h) == (h, Ok::<Val, GError>(Val::Char(x))),
        (&x).to_val(h) == (h, Ok::<Val, GError>(Val::Char(x))),
        x.mut_to_val(h) == (h, Ok::<Val, GError>(Val::Char(x))),
        x.leaves(h, after) <==> after == x,
{
}

/// A `bool` becomes the value that holds it, by value or by reference.
pub proof fn law_write_bool(x: bool, h: Store, after: bool)
    ensures
        x.to_val(h) == (h, Ok::<Val, GError>(Val::Bool(x))),
        (&x).to_val(h) == (h, Ok::<Val, GError>(Val::Bool(x))),
        x.mut_to_val(h) == (h, Ok::<Val, GError>(Val::Bool(x))),
        x.leaves(h, after) <==> after == x,
{
}

/// A `Sym` becomes the value that holds it, by value or by reference.
pub proof fn law_write_sym(x: Sym, h: Store, after: Sym)
    ensures
        x.to_val(h) == (h, Ok::<Val, GError>(Val::Sym(x))),
        (&x).to_val(h) == (h, Ok::<Val, GError>(Val::Sym(x))),
        x.mut_to_val(h) == (h, Ok::<Val, GError>(Val::Sym(x))),
        x.leaves(h, after) <==> after == x,
{
}

/// A `Flo` becomes the value that holds it, by value or by reference.
pub proof fn law_write_flo(x: Flo, h: Store, after: Flo)
    ensures
        x.to_val(h) == (h, Ok::<Val, GError>(Val::Flo(x))),
        (&x).to_val(h) == (h, Ok::<Val, GError>(Val::Flo(x))),
        x.mut_to_val(h) == (h, Ok::<Val, GError>(Val::Flo(x))),
        x.leaves(h, after) <==> after == x,
{
}

/// A value becomes itself, and a slot the value that it holds.
pub proof fn law_write_any(v: Val, s: Slot, h: Store, after_v: Val, after_s: Slot)
    ensures
        v.to_val(h) == (h, Ok::<Val, GError>(v)),
        (&v).to_val(h) == (h, Ok::<Val, GError>(v)),
        v.mut_to_val(h) == (h, Ok::<Val, GError>(v)),
        v.leaves(h, after_v) <==> after_v == v,
        s.to_val(h) == (h, Ok::<Val, GError>(s.val())),
        (&s).to_val(h) == (h, Ok::<Val, GError>(s.val())),
        s.mut_to_val(h) == (h, Ok::<Val, GError>(s.val())),
        s.leaves(h, after_s) <==> after_s == s,
{
}

/// The unit becomes `nil`.
pub proof fn law_write_unit(h: Store)
    ensures
        ().to_val(h) == (h, Ok::<Val, GError>(Val::Nil)),
        (&()).to_val(h) == (h, Ok::<Val, GError>(Val::Nil)),
        ().mut_to_val(h) == (h, Ok::<Val, GError>(Val::Nil)),
{
}

/// A `Num` becomes the value that holds what it holds, under the same variant.
pub proof fn law_write_num(x: Num, h: Store, after: Num)
    ensures
        x.to_val(h).0 == h,
        x matches Num::Int(i) ==> x.to_val(h).1 == Ok::<Val, GError>(Val::Int(i)),
        x matches Num::Flo(f) ==> x.to_val(h).1 == Ok::<Val, GError>(Val::Flo(f)),
        (&x).to_val(h) == x.to_val(h),
        x.mut_to_val(h) == x.to_val(h),
        x.leaves(h, after) <==> after == x,
{
}

/// A `Deque` becomes the value that holds what it holds, under the same variant.
pub proof fn law_write_deque(x: Deque, h: Store, after: Deque)
    ensures
        x.to_val(h).0 == h,
        x matches Deque::Arr(root) ==> x.to_val(h).1 == Ok::<Val, GError>(Val::Arr(root)),
        x matches Deque::Str(root) ==> x.to_val(h).1 == Ok::<Val, GError>(Val::Str(root)),
        (&x).to_val(h) == x.to_val(h),
        x.mut_to_val(h) == x.to_val(h),
        x.leaves(h, after) <==> after == x,
{
}

/// A `Callable` becomes the value that holds what it holds, under the same variant.
pub proof fn law_write_callable(x: Callable, h: Store, after: Callable)
    ensures
        x.to_val(h).0 == h,
        x matches Callable::RFn(root) ==> x.to_val(h).1 == Ok::<Val, GError>(Val::RFn(root)),
        x matches Callable::GFn(root) ==> x.to_val(h).1 == Ok::<Val, GError>(Val::GFn(root)),
        x matches Callable::Class(root) ==> x.to_val(h).1 == Ok::<Val, GError>(Val::Class(root)),
        (&x).to_val(h) == x.to_val(h),
        x.mut_to_val(h) == x.to_val(h),
        x.leaves(h, after) <==> after == x,
{
}

/// A `Expander` becomes the value that holds what it holds, under the same variant.
pub proof fn law_write_expander(x: Expander, h: Store, after: Expander)
    ensures
        x.to_val(h).0 == h,
        x matches Expander::GFn(root) ==> x.to_val(h).1 == Ok::<Val, GError>(Val::GFn(root)),
        x matches Expander::RFn(root) ==> x.to_val(h).1 == Ok::<Val, GError>(Val::RFn(root)),
        (&x).to_val(h) == x.to_val(h),
        x.mut_to_val(h) == x.to_val(h),
        x.leaves(h, after) <==> after == x,
{
}

/// A `Iterable` becomes the value that holds what it holds, under the same variant.
pub proof fn law_write_iterable(x: Iterable, h: Store, after: Iterable)
    ensures
        x.to_val(h).0 == h,
        x matches Iterable::Arr(root) ==> x.to_val(h).1 == Ok::<Val, GError>(Val::Arr(root)),
        x matches Iterable::Str(root) ==> x.to_val(h).1 == Ok::<Val, GError>(Val::Str(root)),
        x matches Iterable::Tab(root) ==> x.to_val(h).1 == Ok::<Val, GError>(Val::Tab(root)),
        x matches Iterable::GIter(root) ==> x.to_val(h).1 == Ok::<Val, GError>(Val::GIter(root)),
        x matches Iterable::Coro(root) ==> x.to_val(h).1 == Ok::<Val, GError>(Val::Coro(root)),
        (&x).to_val(h) == x.to_val(h),
        x.mut_to_val(h) == x.to_val(h),
        x.leaves(h, after) <==> after == x,
{
}

/// A length becomes the int that is the same number, as long as there is one; that there is no end,
/// or that none is known, becomes the symbol of that name.
pub proof fn law_write_length(x: GIterLen, h: Store, after: GIterLen)
    requires
        h.syms.len() >= 7,
        h.syms.take(7) =~= Store::empty().syms,
    ensures
        x.to_val(h).0 == h,
        x.to_val(h).1 is Ok,
        x matches GIterLen::Exact(n) ==> (n <= 0x7fff_ffff ==> x.to_val(h).1->Ok_0 is Int
            && x.to_val(h).1->Ok_0->Int_0 as int == n as int),
        x matches GIterLen::Exact(n) ==> x.to_val(h).1->Ok_0 == Val::Int(
            #[verifier::truncate]
            (n as i32),
        ),
        x is Infinite ==> x.to_val(h).1->Ok_0 is Sym && h.sym_name(x.to_val(h).1->Ok_0->Sym_0)
            == "infinite"@,
        x is Unknown ==> x.to_val(h).1->Ok_0 is Sym && h.sym_name(x.to_val(h).1->Ok_0->Sym_0)
            == "unknown"@,
        (&x).to_val(h) == x.to_val(h),
        x.mut_to_val(h) == x.to_val(h),
        x.leaves(h, after) <==> after == x,
{
    assert(h.syms.take(7)[5] == h.syms[5]);
    assert(h.syms.take(7)[6] == h.syms[6]);
}

/// An order becomes the symbol that names it.
pub proof fn law_write_order(x: Order, h: Store, after: Order)
    requires
        h.syms.len() >= 7,
        h.syms.take(7) =~= Store::empty().syms,
    ensures
        x.to_val(h).0 == h,
        x.to_val(h).1 is Ok && x.to_val(h).1->Ok_0 is Sym,
        x is Less ==> h.sym_name(x.to_val(h).1->Ok_0->Sym_0) == "<"@,
        x is Equal ==> h.sym_name(x.to_val(h).1->Ok_0->Sym_0) == "=="@,
        x is Greater ==> h.sym_name(x.to_val(h).1->Ok_0->Sym_0) == ">"@,
        (&x).to_val(h) == x.to_val(h),
        x.mut_to_val(h) == x.to_val(h),
        x.leaves(h, after) <==> after == x,
{
    assert(h.syms.take(7)[0] == h.syms[0]);
    assert(h.syms.take(7)[1] == h.syms[1]);
    assert(h.syms.take(7)[2] == h.syms[2]);
}

/// A handle becomes the value that it is, counted or not, typed or not.
pub proof fn law_write_handle<T: Pointee, U>(root: Root<T>, typed: RRoot<U>, h: Store)
    ensures
        root.to_val(h) == (h, Ok::<Val, GError>(T::val_of(root))),
        (&root).to_val(h) == (h, Ok::<Val, GError>(T::val_of(root))),
        root.mut_to_val(h) == (h, Ok::<Val, GError>(T::val_of(root))),
        (Raw { id: root.id, kind: root.kind }).to_val(h) == (h, Ok::<Val, GError>(T::val_of(root))),
        (&(Raw { id: root.id, kind: root.kind })).to_val(h) == (
            h,
            Ok::<Val, GError>(T::val_of(root)),
        ),
        (Raw { id: root.id, kind: root.kind }).mut_to_val(h) == (
            h,
            Ok::<Val, GError>(T::val_of(root)),
        ),
        typed.to_val(h) == (h, Ok::<Val, GError>(Val::RData(typed.untyped()))),
        (&typed).to_val(h) == (h, Ok::<Val, GError>(Val::RData(typed.untyped()))),
        typed.mut_to_val(h) == (h, Ok::<Val, GError>(Val::RData(typed.untyped()))),
{
}

/// To convert a handle by mutable reference does not change it.
pub proof fn law_handles_stay<T: Pointee, U>(
    root: Root<T>,
    raw: Raw<T>,
    typed: RRoot<U>,
    h: Store,
    after_root: Root<T>,
    after_raw: Raw<T>,
    after_typed: RRoot<U>,
)
    ensures
        root.leaves(h, after_root) <==> after_root == root,
        raw.leaves(h, after_raw) <==> after_raw == raw,
        typed.leaves(h, after_typed) <==> after_typed == typed,
{
}

/// By reference too, an absent value becomes `nil`, and a present one what it is by reference.
pub proof fn law_write_option_ref<'a, T>(x: &'a Option<T>, h: Store) where &'a T: IntoVal
    ensures
        *x is None ==> x.to_val(h) == (h, Ok::<Val, GError>(Val::Nil)),
        *x matches Some(t) ==> x.to_val(h) == (&t).to_val(h),
{
}

/// The same by mutable reference. What is left of a present value is what its own conversion
/// leaves.
pub proof fn law_write_option_mut<T: IntoValMut>(x: Option<T>, h: Store, after: Option<T>)
    ensures
        x is None ==> x.mut_to_val(h) == (h, Ok::<Val, GError>(Val::Nil)),
        x matches Some(t) ==> x.mut_to_val(h) == t.mut_to_val(h),
        x is None ==> (x.leaves(h, after) <==> after is None),
        x matches Some(t) ==> (x.leaves(h, after) <==> after is Some && t.leaves(h, after->Some_0)),
{
}

/// An error of any host type but the engine's own is wrapped, and the heap is left alone.
pub proof fn law_write_foreign_error<T: IntoVal>(error: ForeignError, h: Store)
    ensures
        Err::<T, ForeignError>(error).to_val(h) == (
            h,
            Err::<Val, GError>(GError::Encountered { error }),
        ),
{
}

/// A text becomes a new string of its characters, and a handle to it; nothing else changes. It
/// makes no difference in which of the host's types it is kept, nor whether it is converted by
/// reference.
pub proof fn law_write_text(text: String, slice: &str, h: Store, after: String)
    ensures
        text.to_val(h) == (
            Store { strs: h.strs.push(text@), ..h },
            Ok::<Val, GError>(Val::Str(Root { id: h.strs.len() as usize, kind: Str })),
        ),
        (&text).to_val(h) == text.to_val(h),
        text.mut_to_val(h) == text.to_val(h),
        text.leaves(h, after) <==> after == text,
        slice.to_val(h) == (
            Store { strs: h.strs.push(slice@), ..h },
            Ok::<Val, GError>(Val::Str(Root { id: h.strs.len() as usize, kind: Str })),
        ),
{
}

/// A C string becomes the string whose encoding its bytes are, where they are UTF-8, and is refused
/// where they are not.
pub proof fn law_write_c_text(text: CText, h: Store, after: CText)
    ensures
        valid_utf8(text@) ==> text.to_val(h) == (
            Store { strs: h.strs.push(decode_utf8(text@)), ..h },
            Ok::<Val, GError>(Val::Str(Root { id: h.strs.len() as usize, kind: Str })),
        ),
        !valid_utf8(text@) ==> text.to_val(h) == (
            h,
            Err::<Val, GError>(GError::NotUtf8 { received: TextType::CStr }),
        ),
        (&text).to_val(h) == text.to_val(h),
        text.mut_to_val(h) == text.to_val(h),
        text.leaves(h, after) <==> after == text,
{
}

/// An operating-system string becomes the string that it is, where it is text, and is refused where
/// it is not.
pub proof fn law_write_os_text(text: OsText, h: Store, after: OsText)
    ensures
        text@ matches Some(chars) ==> text.to_val(h) == (
            Store { strs: h.strs.push(chars), ..h },
            Ok::<Val, GError>(Val::Str(Root { id: h.strs.len() as usize, kind: Str })),
        ),
        text@ is None ==> text.to_val(h) == (
            h,
            Err::<Val, GError>(GError::NotUtf8 { received: TextType::OsStr }),
        ),
        (&text).to_val(h) == text.to_val(h),
        text.mut_to_val(h) == text.to_val(h),
        text.leaves(h, after) <==> after == text,
{
}

/// A path becomes the string that it is, where it is text, and is refused where it is not.
pub proof fn law_write_path(text: PathText, h: Store, after: PathText)
    ensures
        text@ matches Some(chars) ==> text.to_val(h) == (
            Store { strs: h.strs.push(chars), ..h },
            Ok::<Val, GError>(Val::Str(Root { id: h.strs.len() as usize, kind: Str })),
        ),
        text@ is None ==> text.to_val(h) == (
            h,
            Err::<Val, GError>(GError::NotUtf8 { received: TextType::OsStr }),
        ),
        (&text).to_val(h) == text.to_val(h),
        text.mut_to_val(h) == text.to_val(h),
        text.leaves(h, after) <==> after == text,
{
}

/// A host value moves to the heap, under its own type and token, and becomes a handle to it.
pub proof fn law_write_host_value<T: HostType>(x: HostValue<T>, h: Store)
    ensures
        x.to_val(h) == (
            Store {
                datas: h.datas.push(HostCell { type_key: T::key(), payload: x.token() }),
                ..h
            },
            Ok::<Val, GError>(Val::RData(Root { id: h.datas.len() as usize, kind: RData })),
        ),
{
}

/// `items`, converted one after another, start on the heap `heaps[0]`: the `i`th finds `heaps[i]`,
/// leaves `heaps[i + 1]` and gives `results[i]`.
pub open spec fn in_turn<T: IntoVal>(
    items: Seq<T>,
    heaps: Seq<Store>,
    results: Seq<GResult<Val>>,
) -> bool {
    &&& heaps.len() == items.len() + 1
    &&& results.len() == items.len()
    &&& forall|i: int|
        0 <= i < items.len() ==> (#[trigger] items[i]).to_val(heaps[i]) == (
            heaps[i + 1],
            results[i],
        )
}

/// The same of items that are converted by mutable reference.
pub open spec fn muts_in_turn<T: IntoValMut>(
    items: Seq<T>,
    heaps: Seq<Store>,
    results: Seq<GResult<Val>>,
) -> bool {
    &&& heaps.len() == items.len() + 1
    &&& results.len() == items.len()
    &&& forall|i: int|
        0 <= i < items.len() ==> (#[trigger] items[i]).mut_to_val(heaps[i]) == (
            heaps[i + 1],
            results[i],
        )
}

/// No result before the `k`th is an error.
pub open spec fn good_before(results: Seq<GResult<Val>>, k: int) -> bool {
    forall|i: int| 0 <= i < k ==> (#[trigger] results[i]) is Ok
}

/// The slots of the first `k` results.
spec fn slots_of(results: Seq<GResult<Val>>, k: int) -> Seq<Slot> {
    Seq::new(k as nat, |i: int| results[i]->Ok_0.slot())
}

/// `r` is a new array of `slots`, and nothing else has changed since `h`.
spec fn new_array(h: Store, slots: Seq<Slot>, r: (Store, GResult<Val>)) -> bool {
    &&& r.0 == (Store { arrs: h.arrs.push(slots), ..h })
    &&& r.1 == Ok::<Val, GError>(Val::Arr(Root { id: h.arrs.len() as usize, kind: Arr }))
}

/// `r` is what becomes of a list whose items, converted one after another, went through `heaps` and
/// gave `results`: a new array of their slots, in order, where none failed; else the first failure,
/// and nothing after it has happened.
spec fn array_of(
    heaps: Seq<Store>,
    results: Seq<GResult<Val>>,
    r: (Store, GResult<Val>),
) -> bool {
    &&& good_before(results, results.len() as int) ==> new_array(
        heaps[results.len() as int],
        slots_of(results, results.len() as int),
        r,
    )
    &&& forall|k: int|
        0 <= k < results.len() && good_before(results, k) && (#[trigger] results[k]) is Err ==> r
            == (heaps[k + 1], Err::<Val, GError>(results[k]->Err_0))
}

/// `after` is what is left of a list whose items were converted by mutable reference: what the
/// conversion of each leaves, up to the first that failed, and the items themselves after it.
spec fn left_of<T: IntoValMut>(
    items: Seq<T>,
    heaps: Seq<Store>,
    results: Seq<GResult<Val>>,
    after: Seq<T>,
) -> bool {
    &&& after.len() == items.len()
    &&& forall|i: int|
        0 <= i < items.len() ==> (if good_before(results, i) {
            items[i].leaves(heaps[i], #[trigger] after[i])
        } else {
            after[i] == items[i]
        })
}

proof fn lemma_run<T: IntoVal>(
    items: Seq<T>,
    heaps: Seq<Store>,
    results: Seq<GResult<Val>>,
    k: int,
)
    requires
        in_turn(items, heaps, results),
        0 <= k <= items.len(),
        good_before(results, k),
    ensures
        joined_all(started(heaps[0]), items.take(k)) == (
            heaps[k],
            Ok::<Seq<Slot>, GError>(slots_of(results, k)),
        ),
    decreases k,
{
    if k == 0 {
        assert(items.take(0) =~= seq![]);
        assert(slots_of(results, 0) =~= seq![]);
    } else {
        lemma_run(items, heaps, results, k - 1);
        assert(items.take(k).drop_last() =~= items.take(k - 1));
        assert(items.take(k).last() == items[k - 1]);
        assert(items[k - 1].to_val(heaps[k - 1]) == (heaps[k - 1 + 1], results[k - 1]));
        assert(results[k - 1] is Ok);
        assert(slots_of(results, k) =~= slots_of(results, k - 1).push(results[k - 1]->Ok_0.slot()));
    }
}

proof fn lemma_failed_run<T: IntoVal>(
    items: Seq<T>,
    heaps: Seq<Store>,
    results: Seq<GResult<Val>>,
    k: int,
)
    requires
        in_turn(items, heaps, results),
        0 <= k < items.len(),
        good_before(results, k),
        results[k] is Err,
    ensures
        joined_all(started(heaps[0]), items.take(k + 1)) == (
            heaps[k + 1],
            Err::<Seq<Slot>, GError>(results[k]->Err_0),
        ),
        joined_all(started(heaps[0]), items) == (
            heaps[k + 1],
            Err::<Seq<Slot>, GError>(results[k]->Err_0),
        ),
{
    lemma_run(items, heaps, results, k);
    assert(items.take(k + 1).drop_last() =~= items.take(k));
    assert(items.take(k + 1).last() == items[k]);
    assert(items[k].to_val(heaps[k]) == (heaps[k + 1], results[k]));
    lemma_joined_all_failed(started(heaps[0]), items, k + 1);
}

proof fn lemma_array<T: IntoVal>(
    items: Seq<T>,
    heaps: Seq<Store>,
    results: Seq<GResult<Val>>,
    r: (Store, GResult<Val>),
)
    requires
        in_turn(items, heaps, results),
        joined_all(started(heaps[0]), items).1 matches Ok(slots) ==> new_array(
            joined_all(started(heaps[0]), items).0,
            slots,
            r,
        ),
        joined_all(started(heaps[0]), items).1 matches Err(e) ==> r == (
            joined_all(started(heaps[0]), items).0,
            Err::<Val, GError>(e),
        ),
    ensures
        array_of(heaps, results, r),
{
    let n = items.len() as int;
    if good_before(results, n) {
        lemma_run(items, heaps, results, n);
        assert(items.take(n) =~= items);
    }
    assert forall|k: int|
        0 <= k < results.len() && good_before(results, k)
            && (#[trigger] results[k]) is Err implies r
        == (heaps[k + 1], Err::<Val, GError>(results[k]->Err_0)) by {
        lemma_failed_run(items, heaps, results, k);
    }
}

proof fn lemma_mut_run<T: IntoValMut>(
    items: Seq<T>,
    heaps: Seq<Store>,
    results: Seq<GResult<Val>>,
    k: int,
)
    requires
        muts_in_turn(items, heaps, results),
        0 <= k <= items.len(),
        good_before(results, k),
    ensures
        mut_joined_all(started(heaps[0]), items.take(k)) == (
            heaps[k],
            Ok::<Seq<Slot>, GError>(slots_of(results, k)),
        ),
    decreases k,
{
    if k == 0 {
        assert(items.take(0) =~= seq![]);
        assert(slots_of(results, 0) =~= seq![]);
    } else {
        lemma_mut_run(items, heaps, results, k - 1);
        assert(items.take(k).drop_last() =~= items.take(k - 1));
        assert(items.take(k).last() == items[k - 1]);
        assert(items[k - 1].mut_to_val(heaps[k - 1]) == (heaps[k - 1 + 1], results[k - 1]));
        assert(results[k - 1] is Ok);
        assert(slots_of(results, k) =~= slots_of(results, k - 1).push(results[k - 1]->Ok_0.slot()));
    }
}

proof fn lemma_mut_failed_run<T: IntoValMut>(
    items: Seq<T>,
    heaps: Seq<Store>,
    results: Seq<GResult<Val>>,
    k: int,
)
    requires
        muts_in_turn(items, heaps, results),
        0 <= k < items.len(),
        good_before(results, k),
        results[k] is Err,
    ensures
        mut_joined_all(started(heaps[0]), items.take(k + 1)) == (
            heaps[k + 1],
            Err::<Seq<Slot>, GError>(results[k]->Err_0),
        ),
        mut_joined_all(started(heaps[0]), items) == (
            heaps[k + 1],
            Err::<Seq<Slot>, GError>(results[k]->Err_0),
        ),
{
    lemma_mut_run(items, heaps, results, k);
    assert(items.take(k + 1).drop_last() =~= items.take(k));
    assert(items.take(k + 1).last() == items[k]);
    assert(items[k].mut_to_val(heaps[k]) == (heaps[k + 1], results[k]));
    lemma_mut_joined_all_failed(started(heaps[0]), items, k + 1);
}

proof fn lemma_mut_array<T: IntoValMut>(
    items: Seq<T>,
    heaps: Seq<Store>,
    results: Seq<GResult<Val>>,
    r: (Store, GResult<Val>),
)
    requires
        muts_in_turn(items, heaps, results),
        mut_joined_all(started(heaps[0]), items).1 matches Ok(slots) ==> new_array(
            mut_joined_all(started(heaps[0]), items).0,
            slots,
            r,
        ),
        mut_joined_all(started(heaps[0]), items).1 matches Err(e) ==> r == (
            mut_joined_all(started(heaps[0]), items).0,
            Err::<Val, GError>(e),
        ),
    ensures
        array_of(heaps, results, r),
{
    let n = items.len() as int;
    if good_before(results, n) {
        lemma_mut_run(items, heaps, results, n);
        assert(items.take(n) =~= items);
    }
    assert forall|k: int|
        0 <= k < results.len() && good_before(results, k)
            && (#[trigger] results[k]) is Err implies r
        == (heaps[k + 1], Err::<Val, GError>(results[k]->Err_0)) by {
        lemma_mut_failed_run(items, heaps, results, k);
    }
}

proof fn lemma_left<T: IntoValMut>(
    items: Seq<T>,
    heaps: Seq<Store>,
    results: Seq<GResult<Val>>,
    after: Seq<T>,
)
    requires
        muts_in_turn(items, heaps, results),
    ensures
        mut_left_all(started(heaps[0]), items, after) <==> left_of(
            items,
            heaps,
            results,
            after,
        ),
{
    assert forall|i: int| 0 <= i < items.len() implies (good_before(results, i) <==> (
    #[trigger] mut_joined_all(started(heaps[0]), items.take(i))).1 is Ok) && (good_before(
        results,
        i,
    ) ==> mut_joined_all(started(heaps[0]), items.take(i)).0 == heaps[i]) by {
        if good_before(results, i) {
            lemma_mut_run(items, heaps, results, i);
        } else {
            let k = lemma_first_bad(results, i);
            lemma_mut_failed_run(items, heaps, results, k);
            assert(items.take(i).take(k + 1) =~= items.take(k + 1));
            lemma_mut_joined_all_failed(started(heaps[0]), items.take(i), k + 1);
        }
    }
    if mut_left_all(started(heaps[0]), items, after) {
        assert forall|i: int| 0 <= i < items.len() implies (if good_before(results, i) {
            items[i].leaves(heaps[i], #[trigger] after[i])
        } else {
            after[i] == items[i]
        }) by {
            let run = mut_joined_all(started(heaps[0]), items.take(i));
            assert(mut_left(run, items[i], after[i]));
        }
    }
    if left_of(items, heaps, results, after) {
        assert forall|i: int| 0 <= i < items.len() implies mut_left(
            mut_joined_all(started(heaps[0]), items.take(i)),
            items[i],
            #[trigger] after[i],
        ) by {
            let run = mut_joined_all(started(heaps[0]), items.take(i));
        }
    }
}

/// Finds the first error.
proof fn lemma_first_bad(results: Seq<GResult<Val>>, n: int) -> (k: int)
    requires
        0 <= n <= results.len(),
        !good_before(results, n),
    ensures
        0 <= k < n,
        good_before(results, k),
        results[k] is Err,
    decreases n,
{
    if good_before(results, n - 1) {
        n - 1
    } else {
        lemma_first_bad(results, n - 1)
    }
}

/// A `Vec` becomes a new array: its items are converted in their order, and each has its own slot
/// in its own place. The first that fails is the reason, and nothing after it happens.
pub proof fn law_write_vec<T: IntoVal>(
    x: Vec<T>,
    heaps: Seq<Store>,
    results: Seq<GResult<Val>>,
    k: int,
)
    requires
        heaps.len() == x@.len() + 1,
        results.len() == x@.len(),
        forall|i: int|
            0 <= i < x@.len() ==> (#[trigger] x@[i]).to_val(heaps[i]) == (heaps[i + 1], results[i]),
    ensures
        (forall|i: int| 0 <= i < results.len() ==> (#[trigger] results[i]) is Ok) ==> {
            let end = heaps[results.len() as int];
            x.to_val(heaps[0]) == (
                Store {
                    arrs: end.arrs.push(
                        Seq::new(results.len(), |i: int| results[i]->Ok_0.slot()),
                    ),
                    ..end
                },
                Ok::<Val, GError>(Val::Arr(Root { id: end.arrs.len() as usize, kind: Arr })),
            )
        },
        0 <= k < results.len() && results[k] is Err && (forall|i: int|
            0 <= i < k ==> (#[trigger] results[i]) is Ok) ==> x.to_val(heaps[0]) == (
            heaps[k + 1],
            Err::<Val, GError>(results[k]->Err_0),
        ),
{
    assert(in_turn(x@, heaps, results));
    lemma_array(x@, heaps, results, x.to_val(heaps[0]));
    let n = results.len() as int;
    assert(slots_of(results, n) =~= Seq::new(results.len(), |i: int| results[i]->Ok_0.slot()));
}

/// The same by shared reference.
pub proof fn law_write_vec_ref<'a, T>(
    x: &'a Vec<T>,
    heaps: Seq<Store>,
    results: Seq<GResult<Val>>,
    k: int,
) where &'a T: IntoVal
    requires
        heaps.len() == x@.len() + 1,
        results.len() == x@.len(),
        forall|i: int|
            0 <= i < x@.len() ==> (&(#[trigger] x@[i])).to_val(heaps[i]) == (
                heaps[i + 1],
                results[i],
            ),
    ensures
        (forall|i: int| 0 <= i < results.len() ==> (#[trigger] results[i]) is Ok) ==> {
            let end = heaps[results.len() as int];
            x.to_val(heaps[0]) == (
                Store {
                    arrs: end.arrs.push(
                        Seq::new(results.len(), |i: int| results[i]->Ok_0.slot()),
                    ),
                    ..end
                },
                Ok::<Val, GError>(Val::Arr(Root { id: end.arrs.len() as usize, kind: Arr })),
            )
        },
        0 <= k < results.len() && results[k] is Err && (forall|i: int|
            0 <= i < k ==> (#[trigger] results[i]) is Ok) ==> x.to_val(heaps[0]) == (
            heaps[k + 1],
            Err::<Val, GError>(results[k]->Err_0),
        ),
{
    assert(in_turn::<&T>(x@.as_ref(), heaps, results)) by {
        assert forall|i: int| 0 <= i < x@.len() implies (#[trigger] x@.as_ref()[i]).to_val(heaps[i])
            == (heaps[i + 1], results[i]) by {
            assert(x@.as_ref()[i] == &x@[i]);
        }
    }
    lemma_array::<&T>(x@.as_ref(), heaps, results, x.to_val(heaps[0]));
    let n = results.len() as int;
    assert(slots_of(results, n) =~= Seq::new(results.len(), |i: int| results[i]->Ok_0.slot()));
}

/// The same by mutable reference. What is left of an item is what its conversion leaves, or the
/// item itself where one before it failed.
pub proof fn law_write_vec_mut<T: IntoValMut>(
    x: Vec<T>,
    heaps: Seq<Store>,
    results: Seq<GResult<Val>>,
    k: int,
    after: Vec<T>,
    at: int,
)
    requires
        heaps.len() == x@.len() + 1,
        results.len() == x@.len(),
        forall|i: int|
            0 <= i < x@.len() ==> (#[trigger] x@[i]).mut_to_val(heaps[i]) == (
                heaps[i + 1],
                results[i],
            ),
    ensures
        (forall|i: int| 0 <= i < results.len() ==> (#[trigger] results[i]) is Ok) ==> {
            let end = heaps[results.len() as int];
            x.mut_to_val(heaps[0]) == (
                Store {
                    arrs: end.arrs.push(
                        Seq::new(results.len(), |i: int| results[i]->Ok_0.slot()),
                    ),
                    ..end
                },
                Ok::<Val, GError>(Val::Arr(Root { id: end.arrs.len() as usize, kind: Arr })),
            )
        },
        0 <= k < results.len() && results[k] is Err && (forall|i: int|
            0 <= i < k ==> (#[trigger] results[i]) is Ok) ==> x.mut_to_val(heaps[0]) == (
            heaps[k + 1],
            Err::<Val, GError>(results[k]->Err_0),
        ),
        x.leaves(heaps[0], after) ==> after@.len() == x@.len(),
        x.leaves(heaps[0], after) && 0 <= at < x@.len() && (forall|i: int|
            0 <= i < at ==> (#[trigger] results[i]) is Ok) ==> x@[at].leaves(heaps[at], after@[at]),
        x.leaves(heaps[0], after) && 0 <= at < x@.len() && (exists|i: int|
            0 <= i < at && (#[trigger] results[i]) is Err) ==> after@[at] == x@[at],
{
    assert(muts_in_turn(x@, heaps, results));
    lemma_mut_array(x@, heaps, results, x.mut_to_val(heaps[0]));
    lemma_left(x@, heaps, results, after@);
    let n = results.len() as int;
    assert(slots_of(results, n) =~= Seq::new(results.len(), |i: int| results[i]->Ok_0.slot()));
}

/// A `VecDeque` becomes a new array: its items are converted in their order, and each has its own
/// slot in its own place. The first that fails is the reason, and nothing after it happens.
pub proof fn law_write_queue<T: IntoVal>(
    x: VecDeque<T>,
    heaps: Seq<Store>,
    results: Seq<GResult<Val>>,
    k: int,
)
    requires
        heaps.len() == x@.len() + 1,
        results.len() == x@.len(),
        forall|i: int|
            0 <= i < x@.len() ==> (#[trigger] x@[i]).to_val(heaps[i]) == (heaps[i + 1], results[i]),
    ensures
        (forall|i: int| 0 <= i < results.len() ==> (#[trigger] results[i]) is Ok) ==> {
            let end = heaps[results.len() as int];
            x.to_val(heaps[0]) == (
                Store {
                    arrs: end.arrs.push(
                        Seq::new(results.len(), |i: int| results[i]->Ok_0.slot()),
                    ),
                    ..end
                },
                Ok::<Val, GError>(Val::Arr(Root { id: end.arrs.len() as usize, kind: Arr })),
            )
        },
        0 <= k < results.len() && results[k] is Err && (forall|i: int|
            0 <= i < k ==> (#[trigger] results[i]) is Ok) ==> x.to_val(heaps[0]) == (
            heaps[k + 1],
            Err::<Val, GError>(results[k]->Err_0),
        ),
{
    assert(in_turn(x@, heaps, results));
    lemma_array(x@, heaps, results, x.to_val(heaps[0]));
    let n = results.len() as int;
    assert(slots_of(results, n) =~= Seq::new(results.len(), |i: int| results[i]->Ok_0.slot()));
}

/// The same by shared reference.
pub proof fn law_write_queue_ref<'a, T>(
    x: &'a VecDeque<T>,
    heaps: Seq<Store>,
    results: Seq<GResult<Val>>,
    k: int,
) where &'a T: IntoVal
    requires
        heaps.len() == x@.len() + 1,
        results.len() == x@.len(),
        forall|i: int|
            0 <= i < x@.len() ==> (&(#[trigger] x@[i])).to_val(heaps[i]) == (
                heaps[i + 1],
                results[i],
            ),
    ensures
        (forall|i: int| 0 <= i < results.len() ==> (#[trigger] results[i]) is Ok) ==> {
            let end = heaps[results.len() as int];
            x.to_val(heaps[0]) == (
                Store {
                    arrs: end.arrs.push(
                        Seq::new(results.len(), |i: int| results[i]->Ok_0.slot()),
                    ),
                    ..end
                },
                Ok::<Val, GError>(Val::Arr(Root { id: end.arrs.len() as usize, kind: Arr })),
            )
        },
        0 <= k < results.len() && results[k] is Err && (forall|i: int|
            0 <= i < k ==> (#[trigger] results[i]) is Ok) ==> x.to_val(heaps[0]) == (
            heaps[k + 1],
            Err::<Val, GError>(results[k]->Err_0),
        ),
{
    assert(in_turn::<&T>(x@.as_ref(), heaps, results)) by {
        assert forall|i: int| 0 <= i < x@.len() implies (#[trigger] x@.as_ref()[i]).to_val(heaps[i])
            == (heaps[i + 1], results[i]) by {
            assert(x@.as_ref()[i] == &x@[i]);
        }
    }
    lemma_array::<&T>(x@.as_ref(), heaps, results, x.to_val(heaps[0]));
    let n = results.len() as int;
    assert(slots_of(results, n) =~= Seq::new(results.len(), |i: int| results[i]->Ok_0.slot()));
}

/// The same by mutable reference. What is left of an item is what its conversion leaves, or the
/// item itself where one before it failed.
pub proof fn law_write_queue_mut<T: IntoValMut>(
    x: VecDeque<T>,
    heaps: Seq<Store>,
    results: Seq<GResult<Val>>,
    k: int,
    after: VecDeque<T>,
    at: int,
)
    requires
        heaps.len() == x@.len() + 1,
        results.len() == x@.len(),
        forall|i: int|
            0 <= i < x@.len() ==> (#[trigger] x@[i]).mut_to_val(heaps[i]) == (
                heaps[i + 1],
                results[i],
            ),
    ensures
        (forall|i: int| 0 <= i < results.len() ==> (#[trigger] results[i]) is Ok) ==> {
            let end = heaps[results.len() as int];
            x.mut_to_val(heaps[0]) == (
                Store {
                    arrs: end.arrs.push(
                        Seq::new(results.len(), |i: int| results[i]->Ok_0.slot()),
                    ),
                    ..end
                },
                Ok::<Val, GError>(Val::Arr(Root { id: end.arrs.len() as usize, kind: Arr })),
            )
        },
        0 <= k < results.len() && results[k] is Err && (forall|i: int|
            0 <= i < k ==> (#[trigger] results[i]) is Ok) ==> x.mut_to_val(heaps[0]) == (
            heaps[k + 1],
            Err::<Val, GError>(results[k]->Err_0),
        ),
        x.leaves(heaps[0], after) ==> after@.len() == x@.len(),
        x.leaves(heaps[0], after) && 0 <= at < x@.len() && (forall|i: int|
            0 <= i < at ==> (#[trigger] results[i]) is Ok) ==> x@[at].leaves(heaps[at], after@[at]),
        x.leaves(heaps[0], after) && 0 <= at < x@.len() && (exists|i: int|
            0 <= i < at && (#[trigger] results[i]) is Err) ==> after@[at] == x@[at],
{
    assert(muts_in_turn(x@, heaps, results));
    lemma_mut_array(x@, heaps, results, x.mut_to_val(heaps[0]));
    lemma_left(x@, heaps, results, after@);
    let n = results.len() as int;
    assert(slots_of(results, n) =~= Seq::new(results.len(), |i: int| results[i]->Ok_0.slot()));
}

/// A `SmallList` becomes a new array: its items are converted in their order, and each has its own
/// slot in its own place. The first that fails is the reason, and nothing after it happens.
pub proof fn law_write_small_list<T: IntoVal, const N: usize>(
    x: SmallList<T, N>,
    heaps: Seq<Store>,
    results: Seq<GResult<Val>>,
    k: int,
)
    requires
        heaps.len() == x@.len() + 1,
        results.len() == x@.len(),
        forall|i: int|
            0 <= i < x@.len() ==> (#[trigger] x@[i]).to_val(heaps[i]) == (heaps[i + 1], results[i]),
    ensures
        (forall|i: int| 0 <= i < results.len() ==> (#[trigger] results[i]) is Ok) ==> {
            let end = heaps[results.len() as int];
            x.to_val(heaps[0]) == (
                Store {
                    arrs: end.arrs.push(
                        Seq::new(results.len(), |i: int| results[i]->Ok_0.slot()),
                    ),
                    ..end
                },
                Ok::<Val, GError>(Val::Arr(Root { id: end.arrs.len() as usize, kind: Arr })),
            )
        },
        0 <= k < results.len() && results[k] is Err && (forall|i: int|
            0 <= i < k ==> (#[trigger] results[i]) is Ok) ==> x.to_val(heaps[0]) == (
            heaps[k + 1],
            Err::<Val, GError>(results[k]->Err_0),
        ),
{
    assert(in_turn(x@, heaps, results));
    lemma_array(x@, heaps, results, x.to_val(heaps[0]));
    let n = results.len() as int;
    assert(slots_of(results, n) =~= Seq::new(results.len(), |i: int| results[i]->Ok_0.slot()));
}

/// The same by shared reference.
pub proof fn law_write_small_list_ref<'a, T, const N: usize>(
    x: &'a SmallList<T, N>,
    heaps: Seq<Store>,
    results: Seq<GResult<Val>>,
    k: int,
) where &'a T: IntoVal
    requires
        heaps.len() == x@.len() + 1,
        results.len() == x@.len(),
        forall|i: int|
            0 <= i < x@.len() ==> (&(#[trigger] x@[i])).to_val(heaps[i]) == (
                heaps[i + 1],
                results[i],
            ),
    ensures
        (forall|i: int| 0 <= i < results.len() ==> (#[trigger] results[i]) is Ok) ==> {
            let end = heaps[results.len() as int];
            x.to_val(heaps[0]) == (
                Store {
                    arrs: end.arrs.push(
                        Seq::new(results.len(), |i: int| results[i]->Ok_0.slot()),
                    ),
                    ..end
                },
                Ok::<Val, GError>(Val::Arr(Root { id: end.arrs.len() as usize, kind: Arr })),
            )
        },
        0 <= k < results.len() && results[k] is Err && (forall|i: int|
            0 <= i < k ==> (#[trigger] results[i]) is Ok) ==> x.to_val(heaps[0]) == (
            heaps[k + 1],
            Err::<Val, GError>(results[k]->Err_0),
        ),
{
    assert(in_turn::<&T>(x@.as_ref(), heaps, results)) by {
        assert forall|i: int| 0 <= i < x@.len() implies (#[trigger] x@.as_ref()[i]).to_val(heaps[i])
            == (heaps[i + 1], results[i]) by {
            assert(x@.as_ref()[i] == &x@[i]);
        }
    }
    lemma_array::<&T>(x@.as_ref(), heaps, results, x.to_val(heaps[0]));
    let n = results.len() as int;
    assert(slots_of(results, n) =~= Seq::new(results.len(), |i: int| results[i]->Ok_0.slot()));
}

/// The same by mutable reference. What is left of an item is what its conversion leaves, or the
/// item itself where one before it failed.
pub proof fn law_write_small_list_mut<T: IntoValMut, const N: usize>(
    x: SmallList<T, N>,
    heaps: Seq<Store>,
    results: Seq<GResult<Val>>,
    k: int,
    after: SmallList<T, N>,
    at: int,
)
    requires
        heaps.len() == x@.len() + 1,
        results.len() == x@.len(),
        forall|i: int|
            0 <= i < x@.len() ==> (#[trigger] x@[i]).mut_to_val(heaps[i]) == (
                heaps[i + 1],
                results[i],
            ),
    ensures
        (forall|i: int| 0 <= i < results.len() ==> (#[trigger] results[i]) is Ok) ==> {
            let end = heaps[results.len() as int];
            x.mut_to_val(heaps[0]) == (
                Store {
                    arrs: end.arrs.push(
                        Seq::new(results.len(), |i: int| results[i]->Ok_0.slot()),
                    ),
                    ..end
                },
                Ok::<Val, GError>(Val::Arr(Root { id: end.arrs.len() as usize, kind: Arr })),
            )
        },
        0 <= k < results.len() && results[k] is Err && (forall|i: int|
            0 <= i < k ==> (#[trigger] results[i]) is Ok) ==> x.mut_to_val(heaps[0]) == (
            heaps[k + 1],
            Err::<Val, GError>(results[k]->Err_0),
        ),
        x.leaves(heaps[0], after) ==> after@.len() == x@.len(),
        x.leaves(heaps[0], after) && 0 <= at < x@.len() && (forall|i: int|
            0 <= i < at ==> (#[trigger] results[i]) is Ok) ==> x@[at].leaves(heaps[at], after@[at]),
        x.leaves(heaps[0], after) && 0 <= at < x@.len() && (exists|i: int|
            0 <= i < at && (#[trigger] results[i]) is Err) ==> after@[at] == x@[at],
{
    assert(muts_in_turn(x@, heaps, results));
    lemma_mut_array(x@, heaps, results, x.mut_to_val(heaps[0]));
    lemma_left(x@, heaps, results, after@);
    let n = results.len() as int;
    assert(slots_of(results, n) =~= Seq::new(results.len(), |i: int| results[i]->Ok_0.slot()));
}

/// A host array becomes a new array: its items are converted in their order, by reference, and each
/// has its own slot in its own place. The first that fails is the reason, and nothing after it
/// happens.
pub proof fn law_write_array<T, const N: usize>(
    x: [T; N],
    heaps: Seq<Store>,
    results: Seq<GResult<Val>>,
    k: int,
) where for <'b>&'b T: IntoVal
    requires
        heaps.len() == x@.len() + 1,
        results.len() == x@.len(),
        forall|i: int|
            0 <= i < x@.len() ==> (&(#[trigger] x@[i])).to_val(heaps[i]) == (
                heaps[i + 1],
                results[i],
            ),
    ensures
        (forall|i: int| 0 <= i < results.len() ==> (#[trigger] results[i]) is Ok) ==> {
            let end = heaps[results.len() as int];
            x.to_val(heaps[0]) == (
                Store {
                    arrs: end.arrs.push(
                        Seq::new(results.len(), |i: int| results[i]->Ok_0.slot()),
                    ),
                    ..end
                },
                Ok::<Val, GError>(Val::Arr(Root { id: end.arrs.len() as usize, kind: Arr })),
            )
        },
        0 <= k < results.len() && results[k] is Err && (forall|i: int|
            0 <= i < k ==> (#[trigger] results[i]) is Ok) ==> x.to_val(heaps[0]) == (
            heaps[k + 1],
            Err::<Val, GError>(results[k]->Err_0),
        ),
{
    assert(in_turn::<&T>(x@.as_ref(), heaps, results)) by {
        assert forall|i: int| 0 <= i < x@.len() implies (#[trigger] x@.as_ref()[i]).to_val(heaps[i])
            == (heaps[i + 1], results[i]) by {
            assert(x@.as_ref()[i] == &x@[i]);
        }
    }
    lemma_array::<&T>(x@.as_ref(), heaps, results, x.to_val(heaps[0]));
    let n = results.len() as int;
    assert(slots_of(results, n) =~= Seq::new(results.len(), |i: int| results[i]->Ok_0.slot()));
}

/// The same by shared reference.
pub proof fn law_write_array_ref<'a, T, const N: usize>(
    x: &'a [T; N],
    heaps: Seq<Store>,
    results: Seq<GResult<Val>>,
    k: int,
) where &'a T: IntoVal
    requires
        heaps.len() == x@.len() + 1,
        results.len() == x@.len(),
        forall|i: int|
            0 <= i < x@.len() ==> (&(#[trigger] x@[i])).to_val(heaps[i]) == (
                heaps[i + 1],
                results[i],
            ),
    ensures
        (forall|i: int| 0 <= i < results.len() ==> (#[trigger] results[i]) is Ok) ==> {
            let end = heaps[results.len() as int];
            x.to_val(heaps[0]) == (
                Store {
                    arrs: end.arrs.push(
                        Seq::new(results.len(), |i: int| results[i]->Ok_0.slot()),
                    ),
                    ..end
                },
                Ok::<Val, GError>(Val::Arr(Root { id: end.arrs.len() as usize, kind: Arr })),
            )
        },
        0 <= k < results.len() && results[k] is Err && (forall|i: int|
            0 <= i < k ==> (#[trigger] results[i]) is Ok) ==> x.to_val(heaps[0]) == (
            heaps[k + 1],
            Err::<Val, GError>(results[k]->Err_0),
        ),
{
    assert(in_turn::<&T>(x@.as_ref(), heaps, results)) by {
        assert forall|i: int| 0 <= i < x@.len() implies (#[trigger] x@.as_ref()[i]).to_val(heaps[i])
            == (heaps[i + 1], results[i]) by {
            assert(x@.as_ref()[i] == &x@[i]);
        }
    }
    lemma_array::<&T>(x@.as_ref(), heaps, results, x.to_val(heaps[0]));
    let n = results.len() as int;
    assert(slots_of(results, n) =~= Seq::new(results.len(), |i: int| results[i]->Ok_0.slot()));
}

/// The same by mutable reference. What is left of an item is what its conversion leaves, or the
/// item itself where one before it failed.
pub proof fn law_write_array_mut<T: IntoValMut, const N: usize>(
    x: [T; N],
    heaps: Seq<Store>,
    results: Seq<GResult<Val>>,
    k: int,
    after: [T; N],
    at: int,
)
    requires
        heaps.len() == x@.len() + 1,
        results.len() == x@.len(),
        forall|i: int|
            0 <= i < x@.len() ==> (#[trigger] x@[i]).mut_to_val(heaps[i]) == (
                heaps[i + 1],
                results[i],
            ),
    ensures
        (forall|i: int| 0 <= i < results.len() ==> (#[trigger] results[i]) is Ok) ==> {
            let end = heaps[results.len() as int];
            x.mut_to_val(heaps[0]) == (
                Store {
                    arrs: end.arrs.push(
                        Seq::new(results.len(), |i: int| results[i]->Ok_0.slot()),
                    ),
                    ..end
                },
                Ok::<Val, GError>(Val::Arr(Root { id: end.arrs.len() as usize, kind: Arr })),
            )
        },
        0 <= k < results.len() && results[k] is Err && (forall|i: int|
            0 <= i < k ==> (#[trigger] results[i]) is Ok) ==> x.mut_to_val(heaps[0]) == (
            heaps[k + 1],
            Err::<Val, GError>(results[k]->Err_0),
        ),
        x.leaves(heaps[0], after) ==> after@.len() == x@.len(),
        x.leaves(heaps[0], after) && 0 <= at < x@.len() && (forall|i: int|
            0 <= i < at ==> (#[trigger] results[i]) is Ok) ==> x@[at].leaves(heaps[at], after@[at]),
        x.leaves(heaps[0], after) && 0 <= at < x@.len() && (exists|i: int|
            0 <= i < at && (#[trigger] results[i]) is Err) ==> after@[at] == x@[at],
{
    assert(muts_in_turn(x@, heaps, results));
    lemma_mut_array(x@, heaps, results, x.mut_to_val(heaps[0]));
    lemma_left(x@, heaps, results, after@);
    let n = results.len() as int;
    assert(slots_of(results, n) =~= Seq::new(results.len(), |i: int| results[i]->Ok_0.slot()));
}

/// A slice becomes a new array: its items are converted in their order, by reference, and each has
/// its own slot in its own place. The first that fails is the reason, and nothing after it happens.
pub proof fn law_write_slice<'a, T>(
    x: &'a [T],
    heaps: Seq<Store>,
    results: Seq<GResult<Val>>,
    k: int,
) where &'a T: IntoVal
    requires
        heaps.len() == x@.len() + 1,
        results.len() == x@.len(),
        forall|i: int|
            0 <= i < x@.len() ==> (&(#[trigger] x@[i])).to_val(heaps[i]) == (
                heaps[i + 1],
                results[i],
            ),
    ensures
        (forall|i: int| 0 <= i < results.len() ==> (#[trigger] results[i]) is Ok) ==> {
            let end = heaps[results.len() as int];
            x.to_val(heaps[0]) == (
                Store {
                    arrs: end.arrs.push(
                        Seq::new(results.len(), |i: int| results[i]->Ok_0.slot()),
                    ),
                    ..end
                },
                Ok::<Val, GError>(Val::Arr(Root { id: end.arrs.len() as usize, kind: Arr })),
            )
        },
        0 <= k < results.len() && results[k] is Err && (forall|i: int|
            0 <= i < k ==> (#[trigger] results[i]) is Ok) ==> x.to_val(heaps[0]) == (
            heaps[k + 1],
            Err::<Val, GError>(results[k]->Err_0),
        ),
{
    assert(in_turn::<&T>(x@.as_ref(), heaps, results)) by {
        assert forall|i: int| 0 <= i < x@.len() implies (#[trigger] x@.as_ref()[i]).to_val(heaps[i])
            == (heaps[i + 1], results[i]) by {
            assert(x@.as_ref()[i] == &x@[i]);
        }
    }
    lemma_array::<&T>(x@.as_ref(), heaps, results, x.to_val(heaps[0]));
    let n = results.len() as int;
    assert(slots_of(results, n) =~= Seq::new(results.len(), |i: int| results[i]->Ok_0.slot()));
}

/// The same by mutable reference.
pub proof fn law_write_slice_mut<'a, T: IntoValMut>(
    x: &'a mut [T],
    heaps: Seq<Store>,
    results: Seq<GResult<Val>>,
    k: int,
)
    requires
        heaps.len() == (*x)@.len() + 1,
        results.len() == (*x)@.len(),
        forall|i: int|
            0 <= i < (*x)@.len() ==> (#[trigger] (*x)@[i]).mut_to_val(heaps[i]) == (
                heaps[i + 1],
                results[i],
            ),
    ensures
        (forall|i: int| 0 <= i < results.len() ==> (#[trigger] results[i]) is Ok) ==> {
            let end = heaps[results.len() as int];
            x.to_val(heaps[0]) == (
                Store {
                    arrs: end.arrs.push(
                        Seq::new(results.len(), |i: int| results[i]->Ok_0.slot()),
                    ),
                    ..end
                },
                Ok::<Val, GError>(Val::Arr(Root { id: end.arrs.len() as usize, kind: Arr })),
            )
        },
        0 <= k < results.len() && results[k] is Err && (forall|i: int|
            0 <= i < k ==> (#[trigger] results[i]) is Ok) ==> x.to_val(heaps[0]) == (
            heaps[k + 1],
            Err::<Val, GError>(results[k]->Err_0),
        ),
{
    assert(muts_in_turn((*x)@, heaps, results));
    lemma_mut_array((*x)@, heaps, results, x.to_val(heaps[0]));
    let n = results.len() as int;
    assert(slots_of(results, n) =~= Seq::new(results.len(), |i: int| results[i]->Ok_0.slot()));
}

/// What is left of a slice that was converted by mutable reference is what the conversion of each
/// item leaves, up to the first that failed, and the items themselves after it.
pub proof fn law_slice_left<T: IntoValMut>(
    items: Seq<T>,
    heaps: Seq<Store>,
    results: Seq<GResult<Val>>,
    after: Seq<T>,
    at: int,
)
    requires
        heaps.len() == items.len() + 1,
        results.len() == items.len(),
        forall|i: int|
            0 <= i < items.len() ==> (#[trigger] items[i]).mut_to_val(heaps[i]) == (
                heaps[i + 1],
                results[i],
            ),
        mut_left_all(started(heaps[0]), items, after),
    ensures
        after.len() == items.len(),
        0 <= at < items.len() && (forall|i: int|
            0 <= i < at ==> (#[trigger] results[i]) is Ok)
                ==> items[at].leaves(heaps[at], after[at]),
        0 <= at < items.len() && (exists|i: int|
            0 <= i < at && (#[trigger] results[i]) is Err) ==> after[at] == items[at],
{
    assert(muts_in_turn(items, heaps, results));
    lemma_left(items, heaps, results, after);
}

/// What a mutable reference converts to is what its type says of a conversion by mutable reference.
pub proof fn law_write_by_mut<'a, T: IntoValMut>(x: &'a mut T, text: &'a mut str, h: Store)
    ensures
        x.to_val(h) == old(x).mut_to_val(h),
        text.to_val(h) == (
            Store { strs: h.strs.push(old(text)@), ..h },
            Ok::<Val, GError>(Val::Str(Root { id: h.strs.len() as usize, kind: Str })),
        ),
{
}

/// A tuple of 1 becomes a new array of 1 items: its fields are converted in their order, and item
/// by item the array holds the slot of the field in that place. The first that fails is the reason.
pub proof fn law_write_tuple_1<A: IntoVal>(t: (A,), h: Store)
    ensures
        ({
            let (h1, r0) = t.0.to_val(h);
            &&& r0 is Err ==> t.to_val(h) == (h1, Err::<Val, GError>(r0->Err_0))
            &&& r0 is Ok ==> t.to_val(h) == (
                Store { arrs: h1.arrs.push(seq![r0->Ok_0.slot()]), ..h1 },
                Ok::<Val, GError>(Val::Arr(Root { id: h1.arrs.len() as usize, kind: Arr })),
            )
        }),
{
    let (h1, r0) = t.0.to_val(h);
    if r0 is Ok {
        assert(t.to_val(h).0.arrs.last() =~= seq![r0->Ok_0.slot()]);
    }
}

/// The same by shared reference.
pub proof fn law_write_tuple_1_ref<'a, A>(t: &'a (A,), h: Store) where &'a A: IntoVal,
    ensures
        ({
            let (h1, r0) = (&t.0).to_val(h);
            &&& r0 is Err ==> t.to_val(h) == (h1, Err::<Val, GError>(r0->Err_0))
            &&& r0 is Ok ==> t.to_val(h) == (
                Store { arrs: h1.arrs.push(seq![r0->Ok_0.slot()]), ..h1 },
                Ok::<Val, GError>(Val::Arr(Root { id: h1.arrs.len() as usize, kind: Arr })),
            )
        }),
{
    let (h1, r0) = (&t.0).to_val(h);
    if r0 is Ok {
        assert(t.to_val(h).0.arrs.last() =~= seq![r0->Ok_0.slot()]);
    }
}

/// The same by mutable reference, with what is left of the fields.
pub proof fn law_write_tuple_1_mut<A: IntoValMut>(t: (A,), h: Store, after: (A,))
    ensures
        ({
            let (h1, r0) = t.0.mut_to_val(h);
            &&& r0 is Err ==> t.mut_to_val(h) == (h1, Err::<Val, GError>(r0->Err_0))
            &&& r0 is Ok ==> t.mut_to_val(h) == (
                Store { arrs: h1.arrs.push(seq![r0->Ok_0.slot()]), ..h1 },
                Ok::<Val, GError>(Val::Arr(Root { id: h1.arrs.len() as usize, kind: Arr })),
            )
            &&& t.leaves(h, after) ==> t.0.leaves(h, after.0)
        }),
{
    let (h1, r0) = t.0.mut_to_val(h);
    if r0 is Ok {
        assert(t.mut_to_val(h).0.arrs.last() =~= seq![r0->Ok_0.slot()]);
    }
}

/// A tuple of 2 becomes a new array of 2 items: its fields are converted in their order, and item
/// by item the array holds the slot of the field in that place. The first that fails is the reason.
pub proof fn law_write_tuple_2<A: IntoVal, B: IntoVal>(t: (A, B), h: Store)
    ensures
        ({
            let (h1, r0) = t.0.to_val(h);
            let (h2, r1) = t.1.to_val(h1);
            &&& r0 is Err ==> t.to_val(h) == (h1, Err::<Val, GError>(r0->Err_0))
            &&& r0 is Ok && r1 is Err ==> t.to_val(h) == (h2, Err::<Val, GError>(r1->Err_0))
            &&& r0 is Ok && r1 is Ok ==> t.to_val(h) == (
                Store { arrs: h2.arrs.push(seq![r0->Ok_0.slot(), r1->Ok_0.slot()]), ..h2 },
                Ok::<Val, GError>(Val::Arr(Root { id: h2.arrs.len() as usize, kind: Arr })),
            )
        }),
{
    let (h1, r0) = t.0.to_val(h);
    let (h2, r1) = t.1.to_val(h1);
    if r0 is Ok && r1 is Ok {
        assert(t.to_val(h).0.arrs.last() =~= seq![r0->Ok_0.slot(), r1->Ok_0.slot()]);
    }
}

/// The same by shared reference.
pub proof fn law_write_tuple_2_ref<'a, A, B>(
    t: &'a (A, B),
    h: Store,
) where &'a A: IntoVal, &'a B: IntoVal,
    ensures
        ({
            let (h1, r0) = (&t.0).to_val(h);
            let (h2, r1) = (&t.1).to_val(h1);
            &&& r0 is Err ==> t.to_val(h) == (h1, Err::<Val, GError>(r0->Err_0))
            &&& r0 is Ok && r1 is Err ==> t.to_val(h) == (h2, Err::<Val, GError>(r1->Err_0))
            &&& r0 is Ok && r1 is Ok ==> t.to_val(h) == (
                Store { arrs: h2.arrs.push(seq![r0->Ok_0.slot(), r1->Ok_0.slot()]), ..h2 },
                Ok::<Val, GError>(Val::Arr(Root { id: h2.arrs.len() as usize, kind: Arr })),
            )
        }),
{
    let (h1, r0) = (&t.0).to_val(h);
    let (h2, r1) = (&t.1).to_val(h1);
    if r0 is Ok && r1 is Ok {
        assert(t.to_val(h).0.arrs.last() =~= seq![r0->Ok_0.slot(), r1->Ok_0.slot()]);
    }
}

/// The same by mutable reference, with what is left of the fields.
pub proof fn law_write_tuple_2_mut<A: IntoValMut, B: IntoValMut>(t: (A, B), h: Store, after: (A, B))
    ensures
        ({
            let (h1, r0) = t.0.mut_to_val(h);
            let (h2, r1) = t.1.mut_to_val(h1);
            &&& r0 is Err ==> t.mut_to_val(h) == (h1, Err::<Val, GError>(r0->Err_0))
            &&& r0 is Ok && r1 is Err ==> t.mut_to_val(h) == (h2, Err::<Val, GError>(r1->Err_0))
            &&& r0 is Ok && r1 is Ok ==> t.mut_to_val(h) == (
                Store { arrs: h2.arrs.push(seq![r0->Ok_0.slot(), r1->Ok_0.slot()]), ..h2 },
                Ok::<Val, GError>(Val::Arr(Root { id: h2.arrs.len() as usize, kind: Arr })),
            )
            &&& t.leaves(h, after) ==> t.0.leaves(h, after.0)
            &&& t.leaves(h, after) ==> (if r0 is Ok { t.1.leaves(
                h1,
                after.1,
            ) } else { after.1 == t.1 })
        }),
{
    let (h1, r0) = t.0.mut_to_val(h);
    let (h2, r1) = t.1.mut_to_val(h1);
    if r0 is Ok && r1 is Ok {
        assert(t.mut_to_val(h).0.arrs.last() =~= seq![r0->Ok_0.slot(), r1->Ok_0.slot()]);
    }
}

/// A tuple of 3 becomes a new array of 3 items: its fields are converted in their order, and item
/// by item the array holds the slot of the field in that place. The first that fails is the reason.
pub proof fn law_write_tuple_3<A: IntoVal, B: IntoVal, C: IntoVal>(t: (A, B, C), h: Store)
    ensures
        ({
            let (h1, r0) = t.0.to_val(h);
            let (h2, r1) = t.1.to_val(h1);
            let (h3, r2) = t.2.to_val(h2);
            &&& r0 is Err ==> t.to_val(h) == (h1, Err::<Val, GError>(r0->Err_0))
            &&& r0 is Ok && r1 is Err ==> t.to_val(h) == (h2, Err::<Val, GError>(r1->Err_0))
            &&& r0 is Ok && r1 is Ok && r2 is Err ==> t.to_val(h) == (
                h3,
                Err::<Val, GError>(r2->Err_0),
            )
            &&& r0 is Ok && r1 is Ok && r2 is Ok ==> t.to_val(h) == (
                Store { arrs: h3.arrs.push(
                    seq![r0->Ok_0.slot(), r1->Ok_0.slot(), r2->Ok_0.slot()],
                ), ..h3 },
                Ok::<Val, GError>(Val::Arr(Root { id: h3.arrs.len() as usize, kind: Arr })),
            )
        }),
{
    let (h1, r0) = t.0.to_val(h);
    let (h2, r1) = t.1.to_val(h1);
    let (h3, r2) = t.2.to_val(h2);
    if r0 is Ok && r1 is Ok && r2 is Ok {
        assert(t.to_val(h).0.arrs.last() =~= seq![
            r0->Ok_0.slot(),
            r1->Ok_0.slot(),
            r2->Ok_0.slot(),
        ]);
    }
}

/// The same by shared reference.
pub proof fn law_write_tuple_3_ref<'a, A, B, C>(
    t: &'a (A, B, C),
    h: Store,
) where &'a A: IntoVal, &'a B: IntoVal, &'a C: IntoVal,
    ensures
        ({
            let (h1, r0) = (&t.0).to_val(h);
            let (h2, r1) = (&t.1).to_val(h1);
            let (h3, r2) = (&t.2).to_val(h2);
            &&& r0 is Err ==> t.to_val(h) == (h1, Err::<Val, GError>(r0->Err_0))
            &&& r0 is Ok && r1 is Err ==> t.to_val(h) == (h2, Err::<Val, GError>(r1->Err_0))
            &&& r0 is Ok && r1 is Ok && r2 is Err ==> t.to_val(h) == (
                h3,
                Err::<Val, GError>(r2->Err_0),
            )
            &&& r0 is Ok && r1 is Ok && r2 is Ok ==> t.to_val(h) == (
                Store { arrs: h3.arrs.push(
                    seq![r0->Ok_0.slot(), r1->Ok_0.slot(), r2->Ok_0.slot()],
                ), ..h3 },
                Ok::<Val, GError>(Val::Arr(Root { id: h3.arrs.len() as usize, kind: Arr })),
            )
        }),
{
    let (h1, r0) = (&t.0).to_val(h);
    let (h2, r1) = (&t.1).to_val(h1);
    let (h3, r2) = (&t.2).to_val(h2);
    if r0 is Ok && r1 is Ok && r2 is Ok {
        assert(t.to_val(h).0.arrs.last() =~= seq![
            r0->Ok_0.slot(),
            r1->Ok_0.slot(),
            r2->Ok_0.slot(),
        ]);
    }
}

/// The same by mutable reference, with what is left of the fields.
pub proof fn law_write_tuple_3_mut<
    A: IntoValMut,
    B: IntoValMut,
    C: IntoValMut,
>(t: (A, B, C), h: Store, after: (A, B, C))
    ensures
        ({
            let (h1, r0) = t.0.mut_to_val(h);
            let (h2, r1) = t.1.mut_to_val(h1);
            let (h3, r2) = t.2.mut_to_val(h2);
            &&& r0 is Err ==> t.mut_to_val(h) == (h1, Err::<Val, GError>(r0->Err_0))
            &&& r0 is Ok && r1 is Err ==> t.mut_to_val(h) == (h2, Err::<Val, GError>(r1->Err_0))
            &&& r0 is Ok && r1 is Ok && r2 is Err ==> t.mut_to_val(h) == (
                h3,
                Err::<Val, GError>(r2->Err_0),
            )
            &&& r0 is Ok && r1 is Ok && r2 is Ok ==> t.mut_to_val(h) == (
                Store { arrs: h3.arrs.push(
                    seq![r0->Ok_0.slot(), r1->Ok_0.slot(), r2->Ok_0.slot()],
                ), ..h3 },
                Ok::<Val, GError>(Val::Arr(Root { id: h3.arrs.len() as usize, kind: Arr })),
            )
            &&& t.leaves(h, after) ==> t.0.leaves(h, after.0)
            &&& t.leaves(h, after) ==> (if r0 is Ok { t.1.leaves(
                h1,
                after.1,
            ) } else { after.1 == t.1 })
            &&& t.leaves(h, after) ==> (if r0 is Ok && r1 is Ok { t.2.leaves(
                h2,
                after.2,
            ) } else { after.2 == t.2 })
        }),
{
    let (h1, r0) = t.0.mut_to_val(h);
    let (h2, r1) = t.1.mut_to_val(h1);
    let (h3, r2) = t.2.mut_to_val(h2);
    if r0 is Ok && r1 is Ok && r2 is Ok {
        assert(t.mut_to_val(h).0.arrs.last() =~= seq![
            r0->Ok_0.slot(),
            r1->Ok_0.slot(),
            r2->Ok_0.slot(),
        ]);
    }
}

/// A tuple of 4 becomes a new array of 4 items: its fields are converted in their order, and item
/// by item the array holds the slot of the field in that place. The first that fails is the reason.
pub proof fn law_write_tuple_4<
    A: IntoVal,
    B: IntoVal,
    C: IntoVal,
    D: IntoVal,
>(t: (A, B, C, D), h: Store)
    ensures
        ({
            let (h1, r0) = t.0.to_val(h);
            let (h2, r1) = t.1.to_val(h1);
            let (h3, r2) = t.2.to_val(h2);
            let (h4, r3) = t.3.to_val(h3);
            &&& r0 is Err ==> t.to_val(h) == (h1, Err::<Val, GError>(r0->Err_0))
            &&& r0 is Ok && r1 is Err ==> t.to_val(h) == (h2, Err::<Val, GError>(r1->Err_0))
            &&& r0 is Ok && r1 is Ok && r2 is Err ==> t.to_val(h) == (
                h3,
                Err::<Val, GError>(r2->Err_0),
            )
            &&& r0 is Ok && r1 is Ok && r2 is Ok && r3 is Err ==> t.to_val(h) == (
                h4,
                Err::<Val, GError>(r3->Err_0),
            )
            &&& r0 is Ok && r1 is Ok && r2 is Ok && r3 is Ok ==> t.to_val(h) == (
                Store { arrs: h4.arrs.push(
                    seq![r0->Ok_0.slot(), r1->Ok_0.slot(), r2->Ok_0.slot(), r3->Ok_0.slot()],
                ), ..h4 },
                Ok::<Val, GError>(Val::Arr(Root { id: h4.arrs.len() as usize, kind: Arr })),
            )
        }),
{
    let (h1, r0) = t.0.to_val(h);
    let (h2, r1) = t.1.to_val(h1);
    let (h3, r2) = t.2.to_val(h2);
    let (h4, r3) = t.3.to_val(h3);
    if r0 is Ok && r1 is Ok && r2 is Ok && r3 is Ok {
        assert(t.to_val(h).0.arrs.last() =~= seq![
            r0->Ok_0.slot(),
            r1->Ok_0.slot(),
            r2->Ok_0.slot(),
            r3->Ok_0.slot(),
        ]);
    }
}

/// The same by shared reference.
pub proof fn law_write_tuple_4_ref<'a, A, B, C, D>(
    t: &'a (A, B, C, D),
    h: Store,
) where &'a A: IntoVal, &'a B: IntoVal, &'a C: IntoVal, &'a D: IntoVal,
    ensures
        ({
            let (h1, r0) = (&t.0).to_val(h);
            let (h2, r1) = (&t.1).to_val(h1);
            let (h3, r2) = (&t.2).to_val(h2);
            let (h4, r3) = (&t.3).to_val(h3);
            &&& r0 is Err ==> t.to_val(h) == (h1, Err::<Val, GError>(r0->Err_0))
            &&& r0 is Ok && r1 is Err ==> t.to_val(h) == (h2, Err::<Val, GError>(r1->Err_0))
            &&& r0 is Ok && r1 is Ok && r2 is Err ==> t.to_val(h) == (
                h3,
                Err::<Val, GError>(r2->Err_0),
            )
            &&& r0 is Ok && r1 is Ok && r2 is Ok && r3 is Err ==> t.to_val(h) == (
                h4,
                Err::<Val, GError>(r3->Err_0),
            )
            &&& r0 is Ok && r1 is Ok && r2 is Ok && r3 is Ok ==> t.to_val(h) == (
                Store { arrs: h4.arrs.push(
                    seq![r0->Ok_0.slot(), r1->Ok_0.slot(), r2->Ok_0.slot(), r3->Ok_0.slot()],
                ), ..h4 },
                Ok::<Val, GError>(Val::Arr(Root { id: h4.arrs.len() as usize, kind: Arr })),
            )
        }),
{
    let (h1, r0) = (&t.0).to_val(h);
    let (h2, r1) = (&t.1).to_val(h1);
    let (h3, r2) = (&t.2).to_val(h2);
    let (h4, r3) = (&t.3).to_val(h3);
    if r0 is Ok && r1 is Ok && r2 is Ok && r3 is Ok {
        assert(t.to_val(h).0.arrs.last() =~= seq![
            r0->Ok_0.slot(),
            r1->Ok_0.slot(),
            r2->Ok_0.slot(),
            r3->Ok_0.slot(),
        ]);
    }
}

/// The same by mutable reference, with what is left of the fields.
pub proof fn law_write_tuple_4_mut<
    A: IntoValMut,
    B: IntoValMut,
    C: IntoValMut,
    D: IntoValMut,
>(t: (A, B, C, D), h: Store, after: (A, B, C, D))
    ensures
        ({
            let (h1, r0) = t.0.mut_to_val(h);
            let (h2, r1) = t.1.mut_to_val(h1);
            let (h3, r2) = t.2.mut_to_val(h2);
            let (h4, r3) = t.3.mut_to_val(h3);
            &&& r0 is Err ==> t.mut_to_val(h) == (h1, Err::<Val, GError>(r0->Err_0))
            &&& r0 is Ok && r1 is Err ==> t.mut_to_val(h) == (h2, Err::<Val, GError>(r1->Err_0))
            &&& r0 is Ok && r1 is Ok && r2 is Err ==> t.mut_to_val(h) == (
                h3,
                Err::<Val, GError>(r2->Err_0),
            )
            &&& r0 is Ok && r1 is Ok && r2 is Ok && r3 is Err ==> t.mut_to_val(h) == (
                h4,
                Err::<Val, GError>(r3->Err_0),
            )
            &&& r0 is Ok && r1 is Ok && r2 is Ok && r3 is Ok ==> t.mut_to_val(h) == (
                Store { arrs: h4.arrs.push(
                    seq![r0->Ok_0.slot(), r1->Ok_0.slot(), r2->Ok_0.slot(), r3->Ok_0.slot()],
                ), ..h4 },
                Ok::<Val, GError>(Val::Arr(Root { id: h4.arrs.len() as usize, kind: Arr })),
            )
            &&& t.leaves(h, after) ==> t.0.leaves(h, after.0)
            &&& t.leaves(h, after) ==> (if r0 is Ok { t.1.leaves(
                h1,
                after.1,
            ) } else { after.1 == t.1 })
            &&& t.leaves(h, after) ==> (if r0 is Ok && r1 is Ok { t.2.leaves(
                h2,
                after.2,
            ) } else { after.2 == t.2 })
            &&& t.leaves(h, after) ==> (if r0 is Ok && r1 is Ok && r2 is Ok { t.3.leaves(
                h3,
                after.3,
            ) } else { after.3 == t.3 })
        }),
{
    let (h1, r0) = t.0.mut_to_val(h);
    let (h2, r1) = t.1.mut_to_val(h1);
    let (h3, r2) = t.2.mut_to_val(h2);
    let (h4, r3) = t.3.mut_to_val(h3);
    if r0 is Ok && r1 is Ok && r2 is Ok && r3 is Ok {
        assert(t.mut_to_val(h).0.arrs.last() =~= seq![
            r0->Ok_0.slot(),
            r1->Ok_0.slot(),
            r2->Ok_0.slot(),
            r3->Ok_0.slot(),
        ]);
    }
}

/// A tuple of 5 becomes a new array of 5 items: its fields are converted in their order, and item
/// by item the array holds the slot of the field in that place. The first that fails is the reason.
pub proof fn law_write_tuple_5<
    A: IntoVal,
    B: IntoVal,
    C: IntoVal,
    D: IntoVal,
    E: IntoVal,
>(t: (A, B, C, D, E), h: Store)
    ensures
        ({
            let (h1, r0) = t.0.to_val(h);
            let (h2, r1) = t.1.to_val(h1);
            let (h3, r2) = t.2.to_val(h2);
            let (h4, r3) = t.3.to_val(h3);
            let (h5, r4) = t.4.to_val(h4);
            &&& r0 is Err ==> t.to_val(h) == (h1, Err::<Val, GError>(r0->Err_0))
            &&& r0 is Ok && r1 is Err ==> t.to_val(h) == (h2, Err::<Val, GError>(r1->Err_0))
            &&& r0 is Ok && r1 is Ok && r2 is Err ==> t.to_val(h) == (
                h3,
                Err::<Val, GError>(r2->Err_0),
            )
            &&& r0 is Ok && r1 is Ok && r2 is Ok && r3 is Err ==> t.to_val(h) == (
                h4,
                Err::<Val, GError>(r3->Err_0),
            )
            &&& r0 is Ok && r1 is Ok && r2 is Ok && r3 is Ok && r4 is Err ==> t.to_val(h) == (
                h5,
                Err::<Val, GError>(r4->Err_0),
            )
            &&& r0 is Ok && r1 is Ok && r2 is Ok && r3 is Ok && r4 is Ok ==> t.to_val(h) == (
                Store { arrs: h5.arrs.push(
                    seq![
                        r0->Ok_0.slot(),
                        r1->Ok_0.slot(),
                        r2->Ok_0.slot(),
                        r3->Ok_0.slot(),
                        r4->Ok_0.slot(),
                    ],
                ), ..h5 },
                Ok::<Val, GError>(Val::Arr(Root { id: h5.arrs.len() as usize, kind: Arr })),
            )
        }),
{
    let (h1, r0) = t.0.to_val(h);
    let (h2, r1) = t.1.to_val(h1);
    let (h3, r2) = t.2.to_val(h2);
    let (h4, r3) = t.3.to_val(h3);
    let (h5, r4) = t.4.to_val(h4);
    if r0 is Ok && r1 is Ok && r2 is Ok && r3 is Ok && r4 is Ok {
        assert(t.to_val(h).0.arrs.last() =~= seq![
            r0->Ok_0.slot(),
            r1->Ok_0.slot(),
            r2->Ok_0.slot(),
            r3->Ok_0.slot(),
            r4->Ok_0.slot(),
        ]);
    }
}

/// The same by shared reference.
pub proof fn law_write_tuple_5_ref<'a, A, B, C, D, E>(
    t: &'a (A, B, C, D, E),
    h: Store,
) where &'a A: IntoVal, &'a B: IntoVal, &'a C: IntoVal, &'a D: IntoVal, &'a E: IntoVal,
    ensures
        ({
            let (h1, r0) = (&t.0).to_val(h);
            let (h2, r1) = (&t.1).to_val(h1);
            let (h3, r2) = (&t.2).to_val(h2);
            let (h4, r3) = (&t.3).to_val(h3);
            let (h5, r4) = (&t.4).to_val(h4);
            &&& r0 is Err ==> t.to_val(h) == (h1, Err::<Val, GError>(r0->Err_0))
            &&& r0 is Ok && r1 is Err ==> t.to_val(h) == (h2, Err::<Val, GError>(r1->Err_0))
            &&& r0 is Ok && r1 is Ok && r2 is Err ==> t.to_val(h) == (
                h3,
                Err::<Val, GError>(r2->Err_0),
            )
            &&& r0 is Ok && r1 is Ok && r2 is Ok && r3 is Err ==> t.to_val(h) == (
                h4,
                Err::<Val, GError>(r3->Err_0),
            )
            &&& r0 is Ok && r1 is Ok && r2 is Ok && r3 is Ok && r4 is Err ==> t.to_val(h) == (
                h5,
                Err::<Val, GError>(r4->Err_0),
            )
            &&& r0 is Ok && r1 is Ok && r2 is Ok && r3 is Ok && r4 is Ok ==> t.to_val(h) == (
                Store { arrs: h5.arrs.push(
                    seq![
                        r0->Ok_0.slot(),
                        r1->Ok_0.slot(),
                        r2->Ok_0.slot(),
                        r3->Ok_0.slot(),
                        r4->Ok_0.slot(),
                    ],
                ), ..h5 },
                Ok::<Val, GError>(Val::Arr(Root { id: h5.arrs.len() as usize, kind: Arr })),
            )
        }),
{
    let (h1, r0) = (&t.0).to_val(h);
    let (h2, r1) = (&t.1).to_val(h1);
    let (h3, r2) = (&t.2).to_val(h2);
    let (h4, r3) = (&t.3).to_val(h3);
    let (h5, r4) = (&t.4).to_val(h4);
    if r0 is Ok && r1 is Ok && r2 is Ok && r3 is Ok && r4 is Ok {
        assert(t.to_val(h).0.arrs.last() =~= seq![
            r0->Ok_0.slot(),
            r1->Ok_0.slot(),
            r2->Ok_0.slot(),
            r3->Ok_0.slot(),
            r4->Ok_0.slot(),
        ]);
    }
}

/// The same by mutable reference, with what is left of the fields.
pub proof fn law_write_tuple_5_mut<
    A: IntoValMut,
    B: IntoValMut,
    C: IntoValMut,
    D: IntoValMut,
    E: IntoValMut,
>(t: (A, B, C, D, E), h: Store, after: (A, B, C, D, E))
    ensures
        ({
            let (h1, r0) = t.0.mut_to_val(h);
            let (h2, r1) = t.1.mut_to_val(h1);
            let (h3, r2) = t.2.mut_to_val(h2);
            let (h4, r3) = t.3.mut_to_val(h3);
            let (h5, r4) = t.4.mut_to_val(h4);
            &&& r0 is Err ==> t.mut_to_val(h) == (h1, Err::<Val, GError>(r0->Err_0))
            &&& r0 is Ok && r1 is Err ==> t.mut_to_val(h) == (h2, Err::<Val, GError>(r1->Err_0))
            &&& r0 is Ok && r1 is Ok && r2 is Err ==> t.mut_to_val(h) == (
                h3,
                Err::<Val, GError>(r2->Err_0),
            )
            &&& r0 is Ok && r1 is Ok && r2 is Ok && r3 is Err ==> t.mut_to_val(h) == (
                h4,
                Err::<Val, GError>(r3->Err_0),
            )
            &&& r0 is Ok && r1 is Ok && r2 is Ok && r3 is Ok && r4 is Err ==> t.mut_to_val(h) == (
                h5,
                Err::<Val, GError>(r4->Err_0),
            )
            &&& r0 is Ok && r1 is Ok && r2 is Ok && r3 is Ok && r4 is Ok ==> t.mut_to_val(h) == (
                Store { arrs: h5.arrs.push(
                    seq![
                        r0->Ok_0.slot(),
                        r1->Ok_0.slot(),
                        r2->Ok_0.slot(),
                        r3->Ok_0.slot(),
                        r4->Ok_0.slot(),
                    ],
                ), ..h5 },
                Ok::<Val, GError>(Val::Arr(Root { id: h5.arrs.len() as usize, kind: Arr })),
            )
            &&& t.leaves(h, after) ==> t.0.leaves(h, after.0)
            &&& t.leaves(h, after) ==> (if r0 is Ok { t.1.leaves(
                h1,
                after.1,
            ) } else { after.1 == t.1 })
            &&& t.leaves(h, after) ==> (if r0 is Ok && r1 is Ok { t.2.leaves(
                h2,
                after.2,
            ) } else { after.2 == t.2 })
            &&& t.leaves(h, after) ==> (if r0 is Ok && r1 is Ok && r2 is Ok { t.3.leaves(
                h3,
                after.3,
            ) } else { after.3 == t.3 })
            &&& t.leaves(h, after) ==> (if r0 is Ok && r1 is Ok && r2 is Ok
                && r3 is Ok { t.4.leaves(h4, after.4) } else { after.4 == t.4 })
        }),
{
    let (h1, r0) = t.0.mut_to_val(h);
    let (h2, r1) = t.1.mut_to_val(h1);
    let (h3, r2) = t.2.mut_to_val(h2);
    let (h4, r3) = t.3.mut_to_val(h3);
    let (h5, r4) = t.4.mut_to_val(h4);
    if r0 is Ok && r1 is Ok && r2 is Ok && r3 is Ok && r4 is Ok {
        assert(t.mut_to_val(h).0.arrs.last() =~= seq![
            r0->Ok_0.slot(),
            r1->Ok_0.slot(),
            r2->Ok_0.slot(),
            r3->Ok_0.slot(),
            r4->Ok_0.slot(),
        ]);
    }
}

/// A tuple of 6 becomes a new array of 6 items: its fields are converted in their order, and item
/// by item the array holds the slot of the field in that place. The first that fails is the reason.
pub proof fn law_write_tuple_6<
    A: IntoVal,
    B: IntoVal,
    C: IntoVal,
    D: IntoVal,
    E: IntoVal,
    F: IntoVal,
>(t: (A, B, C, D, E, F), h: Store)
    ensures
        ({
            let (h1, r0) = t.0.to_val(h);
            let (h2, r1) = t.1.to_val(h1);
            let (h3, r2) = t.2.to_val(h2);
            let (h4, r3) = t.3.to_val(h3);
            let (h5, r4) = t.4.to_val(h4);
            let (h6, r5) = t.5.to_val(h5);
            &&& r0 is Err ==> t.to_val(h) == (h1, Err::<Val, GError>(r0->Err_0))
            &&& r0 is Ok && r1 is Err ==> t.to_val(h) == (h2, Err::<Val, GError>(r1->Err_0))
            &&& r0 is Ok && r1 is Ok && r2 is Err ==> t.to_val(h) == (
                h3,
                Err::<Val, GError>(r2->Err_0),
            )
            &&& r0 is Ok && r1 is Ok && r2 is Ok && r3 is Err ==> t.to_val(h) == (
                h4,
                Err::<Val, GError>(r3->Err_0),
            )
            &&& r0 is Ok && r1 is Ok && r2 is Ok && r3 is Ok && r4 is Err ==> t.to_val(h) == (
                h5,
                Err::<Val, GError>(r4->Err_0),
            )
            &&& r0 is Ok && r1 is Ok && r2 is Ok && r3 is Ok && r4 is Ok && r5 is Err
                ==> t.to_val(h) == (h6, Err::<Val, GError>(r5->Err_0))
            &&& r0 is Ok && r1 is Ok && r2 is Ok && r3 is Ok && r4 is Ok && r5 is Ok
                ==> t.to_val(h) == (
                Store { arrs: h6.arrs.push(
                    seq![
                        r0->Ok_0.slot(),
                        r1->Ok_0.slot(),
                        r2->Ok_0.slot(),
                        r3->Ok_0.slot(),
                        r4->Ok_0.slot(),
                        r5->Ok_0.slot(),
                    ],
                ), ..h6 },
                Ok::<Val, GError>(Val::Arr(Root { id: h6.arrs.len() as usize, kind: Arr })),
            )
        }),
{
    let (h1, r0) = t.0.to_val(h);
    let (h2, r1) = t.1.to_val(h1);
    let (h3, r2) = t.2.to_val(h2);
    let (h4, r3) = t.3.to_val(h3);
    let (h5, r4) = t.4.to_val(h4);
    let (h6, r5) = t.5.to_val(h5);
    if r0 is Ok && r1 is Ok && r2 is Ok && r3 is Ok && r4 is Ok && r5 is Ok {
        assert(t.to_val(h).0.arrs.last() =~= seq![
            r0->Ok_0.slot(),
            r1->Ok_0.slot(),
            r2->Ok_0.slot(),
            r3->Ok_0.slot(),
            r4->Ok_0.slot(),
            r5->Ok_0.slot(),
        ]);
    }
}

/// The same by shared reference.
pub proof fn law_write_tuple_6_ref<'a, A, B, C, D, E, F>(
    t: &'a (A, B, C, D, E, F),
    h: Store,
) where &'a A: IntoVal, &'a B: IntoVal, &'a C: IntoVal, &'a D: IntoVal, &'a E: IntoVal,
    &'a F: IntoVal,
    ensures
        ({
            let (h1, r0) = (&t.0).to_val(h);
            let (h2, r1) = (&t.1).to_val(h1);
            let (h3, r2) = (&t.2).to_val(h2);
            let (h4, r3) = (&t.3).to_val(h3);
            let (h5, r4) = (&t.4).to_val(h4);
            let (h6, r5) = (&t.5).to_val(h5);
            &&& r0 is Err ==> t.to_val(h) == (h1, Err::<Val, GError>(r0->Err_0))
            &&& r0 is Ok && r1 is Err ==> t.to_val(h) == (h2, Err::<Val, GError>(r1->Err_0))
            &&& r0 is Ok && r1 is Ok && r2 is Err ==> t.to_val(h) == (
                h3,
                Err::<Val, GError>(r2->Err_0),
            )
            &&& r0 is Ok && r1 is Ok && r2 is Ok && r3 is Err ==> t.to_val(h) == (
                h4,
                Err::<Val, GError>(r3->Err_0),
            )
            &&& r0 is Ok && r1 is Ok && r2 is Ok && r3 is Ok && r4 is Err ==> t.to_val(h) == (
                h5,
                Err::<Val, GError>(r4->Err_0),
            )
            &&& r0 is Ok && r1 is Ok && r2 is Ok && r3 is Ok && r4 is Ok && r5 is Err
                ==> t.to_val(h) == (h6, Err::<Val, GError>(r5->Err_0))
            &&& r0 is Ok && r1 is Ok && r2 is Ok && r3 is Ok && r4 is Ok && r5 is Ok
                ==> t.to_val(h) == (
                Store { arrs: h6.arrs.push(
                    seq![
                        r0->Ok_0.slot(),
                        r1->Ok_0.slot(),
                        r2->Ok_0.slot(),
                        r3->Ok_0.slot(),
                        r4->Ok_0.slot(),
                        r5->Ok_0.slot(),
                    ],
                ), ..h6 },
                Ok::<Val, GError>(Val::Arr(Root { id: h6.arrs.len() as usize, kind: Arr })),
            )
        }),
{
    let (h1, r0) = (&t.0).to_val(h);
    let (h2, r1) = (&t.1).to_val(h1);
    let (h3, r2) = (&t.2).to_val(h2);
    let (h4, r3) = (&t.3).to_val(h3);
    let (h5, r4) = (&t.4).to_val(h4);
    let (h6, r5) = (&t.5).to_val(h5);
    if r0 is Ok && r1 is Ok && r2 is Ok && r3 is Ok && r4 is Ok && r5 is Ok {
        assert(t.to_val(h).0.arrs.last() =~= seq![
            r0->Ok_0.slot(),
            r1->Ok_0.slot(),
            r2->Ok_0.slot(),
            r3->Ok_0.slot(),
            r4->Ok_0.slot(),
            r5->Ok_0.slot(),
        ]);
    }
}

/// The same by mutable reference, with what is left of the fields.
pub proof fn law_write_tuple_6_mut<
    A: IntoValMut,
    B: IntoValMut,
    C: IntoValMut,
    D: IntoValMut,
    E: IntoValMut,
    F: IntoValMut,
>(t: (A, B, C, D, E, F), h: Store, after: (A, B, C, D, E, F))
    ensures
        ({
            let (h1, r0) = t.0.mut_to_val(h);
            let (h2, r1) = t.1.mut_to_val(h1);
            let (h3, r2) = t.2.mut_to_val(h2);
            let (h4, r3) = t.3.mut_to_val(h3);
            let (h5, r4) = t.4.mut_to_val(h4);
            let (h6, r5) = t.5.mut_to_val(h5);
            &&& r0 is Err ==> t.mut_to_val(h) == (h1, Err::<Val, GError>(r0->Err_0))
            &&& r0 is Ok && r1 is Err ==> t.mut_to_val(h) == (h2, Err::<Val, GError>(r1->Err_0))
            &&& r0 is Ok && r1 is Ok && r2 is Err ==> t.mut_to_val(h) == (
                h3,
                Err::<Val, GError>(r2->Err_0),
            )
            &&& r0 is Ok && r1 is Ok && r2 is Ok && r3 is Err ==> t.mut_to_val(h) == (
                h4,
                Err::<Val, GError>(r3->Err_0),
            )
            &&& r0 is Ok && r1 is Ok && r2 is Ok && r3 is Ok && r4 is Err ==> t.mut_to_val(h) == (
                h5,
                Err::<Val, GError>(r4->Err_0),
            )
            &&& r0 is Ok && r1 is Ok && r2 is Ok && r3 is Ok && r4 is Ok && r5 is Err
                ==> t.mut_to_val(h) == (h6, Err::<Val, GError>(r5->Err_0))
            &&& r0 is Ok && r1 is Ok && r2 is Ok && r3 is Ok && r4 is Ok && r5 is Ok
                ==> t.mut_to_val(h) == (
                Store { arrs: h6.arrs.push(
                    seq![
                        r0->Ok_0.slot(),
                        r1->Ok_0.slot(),
                        r2->Ok_0.slot(),
                        r3->Ok_0.slot(),
                        r4->Ok_0.slot(),
                        r5->Ok_0.slot(),
                    ],
                ), ..h6 },
                Ok::<Val, GError>(Val::Arr(Root { id: h6.arrs.len() as usize, kind: Arr })),
            )
            &&& t.leaves(h, after) ==> t.0.leaves(h, after.0)
            &&& t.leaves(h, after) ==> (if r0 is Ok { t.1.leaves(
                h1,
                after.1,
            ) } else { after.1 == t.1 })
            &&& t.leaves(h, after) ==> (if r0 is Ok && r1 is Ok { t.2.leaves(
                h2,
                after.2,
            ) } else { after.2 == t.2 })
            &&& t.leaves(h, after) ==> (if r0 is Ok && r1 is Ok && r2 is Ok { t.3.leaves(
                h3,
                after.3,
            ) } else { after.3 == t.3 })
            &&& t.leaves(h, after) ==> (if r0 is Ok && r1 is Ok && r2 is Ok
                && r3 is Ok { t.4.leaves(h4, after.4) } else { after.4 == t.4 })
            &&& t.leaves(h, after) ==> (if r0 is Ok && r1 is Ok && r2 is Ok && r3 is Ok
                && r4 is Ok { t.5.leaves(h5, after.5) } else { after.5 == t.5 })
        }),
{
    let (h1, r0) = t.0.mut_to_val(h);
    let (h2, r1) = t.1.mut_to_val(h1);
    let (h3, r2) = t.2.mut_to_val(h2);
    let (h4, r3) = t.3.mut_to_val(h3);
    let (h5, r4) = t.4.mut_to_val(h4);
    let (h6, r5) = t.5.mut_to_val(h5);
    if r0 is Ok && r1 is Ok && r2 is Ok && r3 is Ok && r4 is Ok && r5 is Ok {
        assert(t.mut_to_val(h).0.arrs.last() =~= seq![
            r0->Ok_0.slot(),
            r1->Ok_0.slot(),
            r2->Ok_0.slot(),
            r3->Ok_0.slot(),
            r4->Ok_0.slot(),
            r5->Ok_0.slot(),
        ]);
    }
}

/// A tuple of 7 becomes a new array of 7 items: its fields are converted in their order, and item
/// by item the array holds the slot of the field in that place. The first that fails is the reason.
pub proof fn law_write_tuple_7<
    A: IntoVal,
    B: IntoVal,
    C: IntoVal,
    D: IntoVal,
    E: IntoVal,
    F: IntoVal,
    G: IntoVal,
>(t: (A, B, C, D, E, F, G), h: Store)
    ensures
        ({
            let (h1, r0) = t.0.to_val(h);
            let (h2, r1) = t.1.to_val(h1);
            let (h3, r2) = t.2.to_val(h2);
            let (h4, r3) = t.3.to_val(h3);
            let (h5, r4) = t.4.to_val(h4);
            let (h6, r5) = t.5.to_val(h5);
            let (h7, r6) = t.6.to_val(h6);
            &&& r0 is Err ==> t.to_val(h) == (h1, Err::<Val, GError>(r0->Err_0))
            &&& r0 is Ok && r1 is Err ==> t.to_val(h) == (h2, Err::<Val, GError>(r1->Err_0))
            &&& r0 is Ok && r1 is Ok && r2 is Err ==> t.to_val(h) == (
                h3,
                Err::<Val, GError>(r2->Err_0),
            )
            &&& r0 is Ok && r1 is Ok && r2 is Ok && r3 is Err ==> t.to_val(h) == (
                h4,
                Err::<Val, GError>(r3->Err_0),
            )
            &&& r0 is Ok && r1 is Ok && r2 is Ok && r3 is Ok && r4 is Err ==> t.to_val(h) == (
                h5,
                Err::<Val, GError>(r4->Err_0),
            )
            &&& r0 is Ok && r1 is Ok && r2 is Ok && r3 is Ok && r4 is Ok && r5 is Err
                ==> t.to_val(h) == (h6, Err::<Val, GError>(r5->Err_0))
            &&& r0 is Ok && r1 is Ok && r2 is Ok && r3 is Ok && r4 is Ok && r5 is Ok
                && r6 is Err ==> t.to_val(h) == (h7, Err::<Val, GError>(r6->Err_0))
            &&& r0 is Ok && r1 is Ok && r2 is Ok && r3 is Ok && r4 is Ok && r5 is Ok
                && r6 is Ok ==> t.to_val(h) == (
                Store { arrs: h7.arrs.push(
                    seq![
                        r0->Ok_0.slot(),
                        r1->Ok_0.slot(),
                        r2->Ok_0.slot(),
                        r3->Ok_0.slot(),
                        r4->Ok_0.slot(),
                        r5->Ok_0.slot(),
                        r6->Ok_0.slot(),
                    ],
                ), ..h7 },
                Ok::<Val, GError>(Val::Arr(Root { id: h7.arrs.len() as usize, kind: Arr })),
            )
        }),
{
    let (h1, r0) = t.0.to_val(h);
    let (h2, r1) = t.1.to_val(h1);
    let (h3, r2) = t.2.to_val(h2);
    let (h4, r3) = t.3.to_val(h3);
    let (h5, r4) = t.4.to_val(h4);
    let (h6, r5) = t.5.to_val(h5);
    let (h7, r6) = t.6.to_val(h6);
    if r0 is Ok && r1 is Ok && r2 is Ok && r3 is Ok && r4 is Ok && r5 is Ok && r6 is Ok {
        assert(t.to_val(h).0.arrs.last() =~= seq![
            r0->Ok_0.slot(),
            r1->Ok_0.slot(),
            r2->Ok_0.slot(),
            r3->Ok_0.slot(),
            r4->Ok_0.slot(),
            r5->Ok_0.slot(),
            r6->Ok_0.slot(),
        ]);
    }
}

/// The same by shared reference.
pub proof fn law_write_tuple_7_ref<'a, A, B, C, D, E, F, G>(
    t: &'a (A, B, C, D, E, F, G),
    h: Store,
) where &'a A: IntoVal, &'a B: IntoVal, &'a C: IntoVal, &'a D: IntoVal, &'a E: IntoVal,
    &'a F: IntoVal, &'a G: IntoVal,
    ensures
        ({
            let (h1, r0) = (&t.0).to_val(h);
            let (h2, r1) = (&t.1).to_val(h1);
            let (h3, r2) = (&t.2).to_val(h2);
            let (h4, r3) = (&t.3).to_val(h3);
            let (h5, r4) = (&t.4).to_val(h4);
            let (h6, r5) = (&t.5).to_val(h5);
            let (h7, r6) = (&t.6).to_val(h6);
            &&& r0 is Err ==> t.to_val(h) == (h1, Err::<Val, GError>(r0->Err_0))
            &&& r0 is Ok && r1 is Err ==> t.to_val(h) == (h2, Err::<Val, GError>(r1->Err_0))
            &&& r0 is Ok && r1 is Ok && r2 is Err ==> t.to_val(h) == (
                h3,
                Err::<Val, GError>(r2->Err_0),
            )
            &&& r0 is Ok && r1 is Ok && r2 is Ok && r3 is Err ==> t.to_val(h) == (
                h4,
                Err::<Val, GError>(r3->Err_0),
            )
            &&& r0 is Ok && r1 is Ok && r2 is Ok && r3 is Ok && r4 is Err ==> t.to_val(h) == (
                h5,
                Err::<Val, GError>(r4->Err_0),
            )
            &&& r0 is Ok && r1 is Ok && r2 is Ok && r3 is Ok && r4 is Ok && r5 is Err
                ==> t.to_val(h) == (h6, Err::<Val, GError>(r5->Err_0))
            &&& r0 is Ok && r1 is Ok && r2 is Ok && r3 is Ok && r4 is Ok && r5 is Ok
                && r6 is Err ==> t.to_val(h) == (h7, Err::<Val, GError>(r6->Err_0))
            &&& r0 is Ok && r1 is Ok && r2 is Ok && r3 is Ok && r4 is Ok && r5 is Ok
                && r6 is Ok ==> t.to_val(h) == (
                Store { arrs: h7.arrs.push(
                    seq![
                        r0->Ok_0.slot(),
                        r1->Ok_0.slot(),
                        r2->Ok_0.slot(),
                        r3->Ok_0.slot(),
                        r4->Ok_0.slot(),
                        r5->Ok_0.slot(),
                        r6->Ok_0.slot(),
                    ],
                ), ..h7 },
                Ok::<Val, GError>(Val::Arr(Root { id: h7.arrs.len() as usize, kind: Arr })),
            )
        }),
{
    let (h1, r0) = (&t.0).to_val(h);
    let (h2, r1) = (&t.1).to_val(h1);
    let (h3, r2) = (&t.2).to_val(h2);
    let (h4, r3) = (&t.3).to_val(h3);
    let (h5, r4) = (&t.4).to_val(h4);
    let (h6, r5) = (&t.5).to_val(h5);
    let (h7, r6) = (&t.6).to_val(h6);
    if r0 is Ok && r1 is Ok && r2 is Ok && r3 is Ok && r4 is Ok && r5 is Ok && r6 is Ok {
        assert(t.to_val(h).0.arrs.last() =~= seq![
            r0->Ok_0.slot(),
            r1->Ok_0.slot(),
            r2->Ok_0.slot(),
            r3->Ok_0.slot(),
            r4->Ok_0.slot(),
            r5->Ok_0.slot(),
            r6->Ok_0.slot(),
        ]);
    }
}

/// The same by mutable reference, with what is left of the fields.
pub proof fn law_write_tuple_7_mut<
    A: IntoValMut,
    B: IntoValMut,
    C: IntoValMut,
    D: IntoValMut,
    E: IntoValMut,
    F: IntoValMut,
    G: IntoValMut,
>(t: (A, B, C, D, E, F, G), h: Store, after: (A, B, C, D, E, F, G))
    ensures
        ({
            let (h1, r0) = t.0.mut_to_val(h);
            let (h2, r1) = t.1.mut_to_val(h1);
            let (h3, r2) = t.2.mut_to_val(h2);
            let (h4, r3) = t.3.mut_to_val(h3);
            let (h5, r4) = t.4.mut_to_val(h4);
            let (h6, r5) = t.5.mut_to_val(h5);
            let (h7, r6) = t.6.mut_to_val(h6);
            &&& r0 is Err ==> t.mut_to_val(h) == (h1, Err::<Val, GError>(r0->Err_0))
            &&& r0 is Ok && r1 is Err ==> t.mut_to_val(h) == (h2, Err::<Val, GError>(r1->Err_0))
            &&& r0 is Ok && r1 is Ok && r2 is Err ==> t.mut_to_val(h) == (
                h3,
                Err::<Val, GError>(r2->Err_0),
            )
            &&& r0 is Ok && r1 is Ok && r2 is Ok && r3 is Err ==> t.mut_to_val(h) == (
                h4,
                Err::<Val, GError>(r3->Err_0),
            )
            &&& r0 is Ok && r1 is Ok && r2 is Ok && r3 is Ok && r4 is Err ==> t.mut_to_val(h) == (
                h5,
                Err::<Val, GError>(r4->Err_0),
            )
            &&& r0 is Ok && r1 is Ok && r2 is Ok && r3 is Ok && r4 is Ok && r5 is Err
                ==> t.mut_to_val(h) == (h6, Err::<Val, GError>(r5->Err_0))
            &&& r0 is Ok && r1 is Ok && r2 is Ok && r3 is Ok && r4 is Ok && r5 is Ok
                && r6 is Err ==> t.mut_to_val(h) == (h7, Err::<Val, GError>(r6->Err_0))
            &&& r0 is Ok && r1 is Ok && r2 is Ok && r3 is Ok && r4 is Ok && r5 is Ok
                && r6 is Ok ==> t.mut_to_val(h) == (
                Store { arrs: h7.arrs.push(
                    seq![
                        r0->Ok_0.slot(),
                        r1->Ok_0.slot(),
                        r2->Ok_0.slot(),
                        r3->Ok_0.slot(),
                        r4->Ok_0.slot(),
                        r5->Ok_0.slot(),
                        r6->Ok_0.slot(),
                    ],
                ), ..h7 },
                Ok::<Val, GError>(Val::Arr(Root { id: h7.arrs.len() as usize, kind: Arr })),
            )
            &&& t.leaves(h, after) ==> t.0.leaves(h, after.0)
            &&& t.leaves(h, after) ==> (if r0 is Ok { t.1.leaves(
                h1,
                after.1,
            ) } else { after.1 == t.1 })
            &&& t.leaves(h, after) ==> (if r0 is Ok && r1 is Ok { t.2.leaves(
                h2,
                after.2,
            ) } else { after.2 == t.2 })
            &&& t.leaves(h, after) ==> (if r0 is Ok && r1 is Ok && r2 is Ok { t.3.leaves(
                h3,
                after.3,
            ) } else { after.3 == t.3 })
            &&& t.leaves(h, after) ==> (if r0 is Ok && r1 is Ok && r2 is Ok
                && r3 is Ok { t.4.leaves(h4, after.4) } else { after.4 == t.4 })
            &&& t.leaves(h, after) ==> (if r0 is Ok && r1 is Ok && r2 is Ok && r3 is Ok
                && r4 is Ok { t.5.leaves(h5, after.5) } else { after.5 == t.5 })
            &&& t.leaves(h, after) ==> (if r0 is Ok && r1 is Ok && r2 is Ok && r3 is Ok
                && r4 is Ok && r5 is Ok { t.6.leaves(h6, after.6) } else { after.6 == t.6 })
        }),
{
    let (h1, r0) = t.0.mut_to_val(h);
    let (h2, r1) = t.1.mut_to_val(h1);
    let (h3, r2) = t.2.mut_to_val(h2);
    let (h4, r3) = t.3.mut_to_val(h3);
    let (h5, r4) = t.4.mut_to_val(h4);
    let (h6, r5) = t.5.mut_to_val(h5);
    let (h7, r6) = t.6.mut_to_val(h6);
    if r0 is Ok && r1 is Ok && r2 is Ok && r3 is Ok && r4 is Ok && r5 is Ok && r6 is Ok {
        assert(t.mut_to_val(h).0.arrs.last() =~= seq![
            r0->Ok_0.slot(),
            r1->Ok_0.slot(),
            r2->Ok_0.slot(),
            r3->Ok_0.slot(),
            r4->Ok_0.slot(),
            r5->Ok_0.slot(),
            r6->Ok_0.slot(),
        ]);
    }
}

/// A tuple of 8 becomes a new array of 8 items: its fields are converted in their order, and item
/// by item the array holds the slot of the field in that place. The first that fails is the reason.
pub proof fn law_write_tuple_8<
    A: IntoVal,
    B: IntoVal,
    C: IntoVal,
    D: IntoVal,
    E: IntoVal,
    F: IntoVal,
    G: IntoVal,
    H: IntoVal,
>(t: (A, B, C, D, E, F, G, H), h: Store)
    ensures
        ({
            let (h1, r0) = t.0.to_val(h);
            let (h2, r1) = t.1.to_val(h1);
            let (h3, r2) = t.2.to_val(h2);
            let (h4, r3) = t.3.to_val(h3);
            let (h5, r4) = t.4.to_val(h4);
            let (h6, r5) = t.5.to_val(h5);
            let (h7, r6) = t.6.to_val(h6);
            let (h8, r7) = t.7.to_val(h7);
            &&& r0 is Err ==> t.to_val(h) == (h1, Err::<Val, GError>(r0->Err_0))
            &&& r0 is Ok && r1 is Err ==> t.to_val(h) == (h2, Err::<Val, GError>(r1->Err_0))
            &&& r0 is Ok && r1 is Ok && r2 is Err ==> t.to_val(h) == (
                h3,
                Err::<Val, GError>(r2->Err_0),
            )
            &&& r0 is Ok && r1 is Ok && r2 is Ok && r3 is Err ==> t.to_val(h) == (
                h4,
                Err::<Val, GError>(r3->Err_0),
            )
            &&& r0 is Ok && r1 is Ok && r2 is Ok && r3 is Ok && r4 is Err ==> t.to_val(h) == (
                h5,
                Err::<Val, GError>(r4->Err_0),
            )
            &&& r0 is Ok && r1 is Ok && r2 is Ok && r3 is Ok && r4 is Ok && r5 is Err
                ==> t.to_val(h) == (h6, Err::<Val, GError>(r5->Err_0))
            &&& r0 is Ok && r1 is Ok && r2 is Ok && r3 is Ok && r4 is Ok && r5 is Ok
                && r6 is Err ==> t.to_val(h) == (h7, Err::<Val, GError>(r6->Err_0))
            &&& r0 is Ok && r1 is Ok && r2 is Ok && r3 is Ok && r4 is Ok && r5 is Ok
                && r6 is Ok && r7 is Err ==> t.to_val(h) == (h8, Err::<Val, GError>(r7->Err_0))
            &&& r0 is Ok && r1 is Ok && r2 is Ok && r3 is Ok && r4 is Ok && r5 is Ok
                && r6 is Ok && r7 is Ok ==> t.to_val(h) == (
                Store { arrs: h8.arrs.push(
                    seq![
                        r0->Ok_0.slot(),
                        r1->Ok_0.slot(),
                        r2->Ok_0.slot(),
                        r3->Ok_0.slot(),
                        r4->Ok_0.slot(),
                        r5->Ok_0.slot(),
                        r6->Ok_0.slot(),
                        r7->Ok_0.slot(),
                    ],
                ), ..h8 },
                Ok::<Val, GError>(Val::Arr(Root { id: h8.arrs.len() as usize, kind: Arr })),
            )
        }),
{
    let (h1, r0) = t.0.to_val(h);
    let (h2, r1) = t.1.to_val(h1);
    let (h3, r2) = t.2.to_val(h2);
    let (h4, r3) = t.3.to_val(h3);
    let (h5, r4) = t.4.to_val(h4);
    let (h6, r5) = t.5.to_val(h5);
    let (h7, r6) = t.6.to_val(h6);
    let (h8, r7) = t.7.to_val(h7);
    if r0 is Ok && r1 is Ok && r2 is Ok && r3 is Ok && r4 is Ok && r5 is Ok && r6 is Ok
        && r7 is Ok {
        assert(t.to_val(h).0.arrs.last() =~= seq![
            r0->Ok_0.slot(),
            r1->Ok_0.slot(),
            r2->Ok_0.slot(),
            r3->Ok_0.slot(),
            r4->Ok_0.slot(),
            r5->Ok_0.slot(),
            r6->Ok_0.slot(),
            r7->Ok_0.slot(),
        ]);
    }
}

/// The same by shared reference.
pub proof fn law_write_tuple_8_ref<'a, A, B, C, D, E, F, G, H>(
    t: &'a (A, B, C, D, E, F, G, H),
    h: Store,
) where &'a A: IntoVal, &'a B: IntoVal, &'a C: IntoVal, &'a D: IntoVal, &'a E: IntoVal,
    &'a F: IntoVal, &'a G: IntoVal, &'a H: IntoVal,
    ensures
        ({
            let (h1, r0) = (&t.0).to_val(h);
            let (h2, r1) = (&t.1).to_val(h1);
            let (h3, r2) = (&t.2).to_val(h2);
            let (h4, r3) = (&t.3).to_val(h3);
            let (h5, r4) = (&t.4).to_val(h4);
            let (h6, r5) = (&t.5).to_val(h5);
            let (h7, r6) = (&t.6).to_val(h6);
            let (h8, r7) = (&t.7).to_val(h7);
            &&& r0 is Err ==> t.to_val(h) == (h1, Err::<Val, GError>(r0->Err_0))
            &&& r0 is Ok && r1 is Err ==> t.to_val(h) == (h2, Err::<Val, GError>(r1->Err_0))
            &&& r0 is Ok && r1 is Ok && r2 is Err ==> t.to_val(h) == (
                h3,
                Err::<Val, GError>(r2->Err_0),
            )
            &&& r0 is Ok && r1 is Ok && r2 is Ok && r3 is Err ==> t.to_val(h) == (
                h4,
                Err::<Val, GError>(r3->Err_0),
            )
            &&& r0 is Ok && r1 is Ok && r2 is Ok && r3 is Ok && r4 is Err ==> t.to_val(h) == (
                h5,
                Err::<Val, GError>(r4->Err_0),
            )
            &&& r0 is Ok && r1 is Ok && r2 is Ok && r3 is Ok && r4 is Ok && r5 is Err
                ==> t.to_val(h) == (h6, Err::<Val, GError>(r5->Err_0))
            &&& r0 is Ok && r1 is Ok && r2 is Ok && r3 is Ok && r4 is Ok && r5 is Ok
                && r6 is Err ==> t.to_val(h) == (h7, Err::<Val, GError>(r6->Err_0))
            &&& r0 is Ok && r1 is Ok && r2 is Ok && r3 is Ok && r4 is Ok && r5 is Ok
                && r6 is Ok && r7 is Err ==> t.to_val(h) == (h8, Err::<Val, GError>(r7->Err_0))
            &&& r0 is Ok && r1 is Ok && r2 is Ok && r3 is Ok && r4 is Ok && r5 is Ok
                && r6 is Ok && r7 is Ok ==> t.to_val(h) == (
                Store { arrs: h8.arrs.push(
                    seq![
                        r0->Ok_0.slot(),
                        r1->Ok_0.slot(),
                        r2->Ok_0.slot(),
                        r3->Ok_0.slot(),
                        r4->Ok_0.slot(),
                        r5->Ok_0.slot(),
                        r6->Ok_0.slot(),
                        r7->Ok_0.slot(),
                    ],
                ), ..h8 },
                Ok::<Val, GError>(Val::Arr(Root { id: h8.arrs.len() as usize, kind: Arr })),
            )
        }),
{
    let (h1, r0) = (&t.0).to_val(h);
    let (h2, r1) = (&t.1).to_val(h1);
    let (h3, r2) = (&t.2).to_val(h2);
    let (h4, r3) = (&t.3).to_val(h3);
    let (h5, r4) = (&t.4).to_val(h4);
    let (h6, r5) = (&t.5).to_val(h5);
    let (h7, r6) = (&t.6).to_val(h6);
    let (h8, r7) = (&t.7).to_val(h7);
    if r0 is Ok && r1 is Ok && r2 is Ok && r3 is Ok && r4 is Ok && r5 is Ok && r6 is Ok
        && r7 is Ok {
        assert(t.to_val(h).0.arrs.last() =~= seq![
            r0->Ok_0.slot(),
            r1->Ok_0.slot(),
            r2->Ok_0.slot(),
            r3->Ok_0.slot(),
            r4->Ok_0.slot(),
            r5->Ok_0.slot(),
            r6->Ok_0.slot(),
            r7->Ok_0.slot(),
        ]);
    }
}

/// The same by mutable reference, with what is left of the fields.
pub proof fn law_write_tuple_8_mut<
    A: IntoValMut,
    B: IntoValMut,
    C: IntoValMut,
    D: IntoValMut,
    E: IntoValMut,
    F: IntoValMut,
    G: IntoValMut,
    H: IntoValMut,
>(t: (A, B, C, D, E, F, G, H), h: Store, after: (A, B, C, D, E, F, G, H))
    ensures
        ({
            let (h1, r0) = t.0.mut_to_val(h);
            let (h2, r1) = t.1.mut_to_val(h1);
            let (h3, r2) = t.2.mut_to_val(h2);
            let (h4, r3) = t.3.mut_to_val(h3);
            let (h5, r4) = t.4.mut_to_val(h4);
            let (h6, r5) = t.5.mut_to_val(h5);
            let (h7, r6) = t.6.mut_to_val(h6);
            let (h8, r7) = t.7.mut_to_val(h7);
            &&& r0 is Err ==> t.mut_to_val(h) == (h1, Err::<Val, GError>(r0->Err_0))
            &&& r0 is Ok && r1 is Err ==> t.mut_to_val(h) == (h2, Err::<Val, GError>(r1->Err_0))
            &&& r0 is Ok && r1 is Ok && r2 is Err ==> t.mut_to_val(h) == (
                h3,
                Err::<Val, GError>(r2->Err_0),
            )
            &&& r0 is Ok && r1 is Ok && r2 is Ok && r3 is Err ==> t.mut_to_val(h) == (
                h4,
                Err::<Val, GError>(r3->Err_0),
            )
            &&& r0 is Ok && r1 is Ok && r2 is Ok && r3 is Ok && r4 is Err ==> t.mut_to_val(h) == (
                h5,
                Err::<Val, GError>(r4->Err_0),
            )
            &&& r0 is Ok && r1 is Ok && r2 is Ok && r3 is Ok && r4 is Ok && r5 is Err
                ==> t.mut_to_val(h) == (h6, Err::<Val, GError>(r5->Err_0))
            &&& r0 is Ok && r1 is Ok && r2 is Ok && r3 is Ok && r4 is Ok && r5 is Ok
                && r6 is Err ==> t.mut_to_val(h) == (h7, Err::<Val, GError>(r6->Err_0))
            &&& r0 is Ok && r1 is Ok && r2 is Ok && r3 is Ok && r4 is Ok && r5 is Ok
                && r6 is Ok && r7 is Err ==> t.mut_to_val(h) == (h8, Err::<Val, GError>(r7->Err_0))
            &&& r0 is Ok && r1 is Ok && r2 is Ok && r3 is Ok && r4 is Ok && r5 is Ok
                && r6 is Ok && r7 is Ok ==> t.mut_to_val(h) == (
                Store { arrs: h8.arrs.push(
                    seq![
                        r0->Ok_0.slot(),
                        r1->Ok_0.slot(),
                        r2->Ok_0.slot(),
                        r3->Ok_0.slot(),
                        r4->Ok_0.slot(),
                        r5->Ok_0.slot(),
                        r6->Ok_0.slot(),
                        r7->Ok_0.slot(),
                    ],
                ), ..h8 },
                Ok::<Val, GError>(Val::Arr(Root { id: h8.arrs.len() as usize, kind: Arr })),
            )
            &&& t.leaves(h, after) ==> t.0.leaves(h, after.0)
            &&& t.leaves(h, after) ==> (if r0 is Ok { t.1.leaves(
                h1,
                after.1,
            ) } else { after.1 == t.1 })
            &&& t.leaves(h, after) ==> (if r0 is Ok && r1 is Ok { t.2.leaves(
                h2,
                after.2,
            ) } else { after.2 == t.2 })
            &&& t.leaves(h, after) ==> (if r0 is Ok && r1 is Ok && r2 is Ok { t.3.leaves(
                h3,
                after.3,
            ) } else { after.3 == t.3 })
            &&& t.leaves(h, after) ==> (if r0 is Ok && r1 is Ok && r2 is Ok
                && r3 is Ok { t.4.leaves(h4, after.4) } else { after.4 == t.4 })
            &&& t.leaves(h, after) ==> (if r0 is Ok && r1 is Ok && r2 is Ok && r3 is Ok
                && r4 is Ok { t.5.leaves(h5, after.5) } else { after.5 == t.5 })
            &&& t.leaves(h, after) ==> (if r0 is Ok && r1 is Ok && r2 is Ok && r3 is Ok
                && r4 is Ok && r5 is Ok { t.6.leaves(h6, after.6) } else { after.6 == t.6 })
            &&& t.leaves(h, after) ==> (if r0 is Ok && r1 is Ok && r2 is Ok && r3 is Ok
                && r4 is Ok && r5 is Ok && r6 is Ok { t.7.leaves(h7, after.7) } else { after.7
                == t.7 })
        }),
{
    let (h1, r0) = t.0.mut_to_val(h);
    let (h2, r1) = t.1.mut_to_val(h1);
    let (h3, r2) = t.2.mut_to_val(h2);
    let (h4, r3) = t.3.mut_to_val(h3);
    let (h5, r4) = t.4.mut_to_val(h4);
    let (h6, r5) = t.5.mut_to_val(h5);
    let (h7, r6) = t.6.mut_to_val(h6);
    let (h8, r7) = t.7.mut_to_val(h7);
    if r0 is Ok && r1 is Ok && r2 is Ok && r3 is Ok && r4 is Ok && r5 is Ok && r6 is Ok
        && r7 is Ok {
        assert(t.mut_to_val(h).0.arrs.last() =~= seq![
            r0->Ok_0.slot(),
            r1->Ok_0.slot(),
            r2->Ok_0.slot(),
            r3->Ok_0.slot(),
            r4->Ok_0.slot(),
            r5->Ok_0.slot(),
            r6->Ok_0.slot(),
            r7->Ok_0.slot(),
        ]);
    }
}

/// A tuple of 9 becomes a new array of 9 items: its fields are converted in their order, and item
/// by item the array holds the slot of the field in that place. The first that fails is the reason.
pub proof fn law_write_tuple_9<
    A: IntoVal,
    B: IntoVal,
    C: IntoVal,
    D: IntoVal,
    E: IntoVal,
    F: IntoVal,
    G: IntoVal,
    H: IntoVal,
    I: IntoVal,
>(t: (A, B, C, D, E, F, G, H, I), h: Store)
    ensures
        ({
            let (h1, r0) = t.0.to_val(h);
            let (h2, r1) = t.1.to_val(h1);
            let (h3, r2) = t.2.to_val(h2);
            let (h4, r3) = t.3.to_val(h3);
            let (h5, r4) = t.4.to_val(h4);
            let (h6, r5) = t.5.to_val(h5);
            let (h7, r6) = t.6.to_val(h6);
            let (h8, r7) = t.7.to_val(h7);
            let (h9, r8) = t.8.to_val(h8);
            &&& r0 is Err ==> t.to_val(h) == (h1, Err::<Val, GError>(r0->Err_0))
            &&& r0 is Ok && r1 is Err ==> t.to_val(h) == (h2, Err::<Val, GError>(r1->Err_0))
            &&& r0 is Ok && r1 is Ok && r2 is Err ==> t.to_val(h) == (
                h3,
                Err::<Val, GError>(r2->Err_0),
            )
            &&& r0 is Ok && r1 is Ok && r2 is Ok && r3 is Err ==> t.to_val(h) == (
                h4,
                Err::<Val, GError>(r3->Err_0),
            )
            &&& r0 is Ok && r1 is Ok && r2 is Ok && r3 is Ok && r4 is Err ==> t.to_val(h) == (
                h5,
                Err::<Val, GError>(r4->Err_0),
            )
            &&& r0 is Ok && r1 is Ok && r2 is Ok && r3 is Ok && r4 is Ok && r5 is Err
                ==> t.to_val(h) == (h6, Err::<Val, GError>(r5->Err_0))
            &&& r0 is Ok && r1 is Ok && r2 is Ok && r3 is Ok && r4 is Ok && r5 is Ok
                && r6 is Err ==> t.to_val(h) == (h7, Err::<Val, GError>(r6->Err_0))
            &&& r0 is Ok && r1 is Ok && r2 is Ok && r3 is Ok && r4 is Ok && r5 is Ok
                && r6 is Ok && r7 is Err ==> t.to_val(h) == (h8, Err::<Val, GError>(r7->Err_0))
            &&& r0 is Ok && r1 is Ok && r2 is Ok && r3 is Ok && r4 is Ok && r5 is Ok
                && r6 is Ok && r7 is Ok && r8 is Err ==> t.to_val(h)
                == (h9, Err::<Val, GError>(r8->Err_0))
            &&& r0 is Ok && r1 is Ok && r2 is Ok && r3 is Ok && r4 is Ok && r5 is Ok
                && r6 is Ok && r7 is Ok && r8 is Ok ==> t.to_val(h) == (
                Store { arrs: h9.arrs.push(
                    seq![
                        r0->Ok_0.slot(),
                        r1->Ok_0.slot(),
                        r2->Ok_0.slot(),
                        r3->Ok_0.slot(),
                        r4->Ok_0.slot(),
                        r5->Ok_0.slot(),
                        r6->Ok_0.slot(),
                        r7->Ok_0.slot(),
                        r8->Ok_0.slot(),
                    ],
                ), ..h9 },
                Ok::<Val, GError>(Val::Arr(Root { id: h9.arrs.len() as usize, kind: Arr })),
            )
        }),
{
    let (h1, r0) = t.0.to_val(h);
    let (h2, r1) = t.1.to_val(h1);
    let (h3, r2) = t.2.to_val(h2);
    let (h4, r3) = t.3.to_val(h3);
    let (h5, r4) = t.4.to_val(h4);
    let (h6, r5) = t.5.to_val(h5);
    let (h7, r6) = t.6.to_val(h6);
    let (h8, r7) = t.7.to_val(h7);
    let (h9, r8) = t.8.to_val(h8);
    if r0 is Ok && r1 is Ok && r2 is Ok && r3 is Ok && r4 is Ok && r5 is Ok && r6 is Ok
        && r7 is Ok && r8 is Ok {
        assert(t.to_val(h).0.arrs.last() =~= seq![
            r0->Ok_0.slot(),
            r1->Ok_0.slot(),
            r2->Ok_0.slot(),
            r3->Ok_0.slot(),
            r4->Ok_0.slot(),
            r5->Ok_0.slot(),
            r6->Ok_0.slot(),
            r7->Ok_0.slot(),
            r8->Ok_0.slot(),
        ]);
    }
}

/// The same by shared reference.
pub proof fn law_write_tuple_9_ref<'a, A, B, C, D, E, F, G, H, I>(
    t: &'a (A, B, C, D, E, F, G, H, I),
    h: Store,
) where &'a A: IntoVal, &'a B: IntoVal, &'a C: IntoVal, &'a D: IntoVal, &'a E: IntoVal,
    &'a F: IntoVal, &'a G: IntoVal, &'a H: IntoVal, &'a I: IntoVal,
    ensures
        ({
            let (h1, r0) = (&t.0).to_val(h);
            let (h2, r1) = (&t.1).to_val(h1);
            let (h3, r2) = (&t.2).to_val(h2);
            let (h4, r3) = (&t.3).to_val(h3);
            let (h5, r4) = (&t.4).to_val(h4);
            let (h6, r5) = (&t.5).to_val(h5);
            let (h7, r6) = (&t.6).to_val(h6);
            let (h8, r7) = (&t.7).to_val(h7);
            let (h9, r8) = (&t.8).to_val(h8);
            &&& r0 is Err ==> t.to_val(h) == (h1, Err::<Val, GError>(r0->Err_0))
            &&& r0 is Ok && r1 is Err ==> t.to_val(h) == (h2, Err::<Val, GError>(r1->Err_0))
            &&& r0 is Ok && r1 is Ok && r2 is Err ==> t.to_val(h) == (
                h3,
                Err::<Val, GError>(r2->Err_0),
            )
            &&& r0 is Ok && r1 is Ok && r2 is Ok && r3 is Err ==> t.to_val(h) == (
                h4,
                Err::<Val, GError>(r3->Err_0),
            )
            &&& r0 is Ok && r1 is Ok && r2 is Ok && r3 is Ok && r4 is Err ==> t.to_val(h) == (
                h5,
                Err::<Val, GError>(r4->Err_0),
            )
            &&& r0 is Ok && r1 is Ok && r2 is Ok && r3 is Ok && r4 is Ok && r5 is Err
                ==> t.to_val(h) == (h6, Err::<Val, GError>(r5->Err_0))
            &&& r0 is Ok && r1 is Ok && r2 is Ok && r3 is Ok && r4 is Ok && r5 is Ok
                && r6 is Err ==> t.to_val(h) == (h7, Err::<Val, GError>(r6->Err_0))
            &&& r0 is Ok && r1 is Ok && r2 is Ok && r3 is Ok && r4 is Ok && r5 is Ok
                && r6 is Ok && r7 is Err ==> t.to_val(h) == (h8, Err::<Val, GError>(r7->Err_0))
            &&& r0 is Ok && r1 is Ok && r2 is Ok && r3 is Ok && r4 is Ok && r5 is Ok
                && r6 is Ok && r7 is Ok && r8 is Err ==> t.to_val(h)
                == (h9, Err::<Val, GError>(r8->Err_0))
            &&& r0 is Ok && r1 is Ok && r2 is Ok && r3 is Ok && r4 is Ok && r5 is Ok
                && r6 is Ok && r7 is Ok && r8 is Ok ==> t.to_val(h) == (
                Store { arrs: h9.arrs.push(
                    seq![
                        r0->Ok_0.slot(),
                        r1->Ok_0.slot(),
                        r2->Ok_0.slot(),
                        r3->Ok_0.slot(),
                        r4->Ok_0.slot(),
                        r5->Ok_0.slot(),
                        r6->Ok_0.slot(),
                        r7->Ok_0.slot(),
                        r8->Ok_0.slot(),
                    ],
                ), ..h9 },
                Ok::<Val, GError>(Val::Arr(Root { id: h9.arrs.len() as usize, kind: Arr })),
            )
        }),
{
    let (h1, r0) = (&t.0).to_val(h);
    let (h2, r1) = (&t.1).to_val(h1);
    let (h3, r2) = (&t.2).to_val(h2);
    let (h4, r3) = (&t.3).to_val(h3);
    let (h5, r4) = (&t.4).to_val(h4);
    let (h6, r5) = (&t.5).to_val(h5);
    let (h7, r6) = (&t.6).to_val(h6);
    let (h8, r7) = (&t.7).to_val(h7);
    let (h9, r8) = (&t.8).to_val(h8);
    if r0 is Ok && r1 is Ok && r2 is Ok && r3 is Ok && r4 is Ok && r5 is Ok && r6 is Ok
        && r7 is Ok && r8 is Ok {
        assert(t.to_val(h).0.arrs.last() =~= seq![
            r0->Ok_0.slot(),
            r1->Ok_0.slot(),
            r2->Ok_0.slot(),
            r3->Ok_0.slot(),
            r4->Ok_0.slot(),
            r5->Ok_0.slot(),
            r6->Ok_0.slot(),
            r7->Ok_0.slot(),
            r8->Ok_0.slot(),
        ]);
    }
}

/// The same by mutable reference, with what is left of the fields.
pub proof fn law_write_tuple_9_mut<
    A: IntoValMut,
    B: IntoValMut,
    C: IntoValMut,
    D: IntoValMut,
    E: IntoValMut,
    F: IntoValMut,
    G: IntoValMut,
    H: IntoValMut,
    I: IntoValMut,
>(t: (A, B, C, D, E, F, G, H, I), h: Store, after: (A, B, C, D, E, F, G, H, I))
    ensures
        ({
            let (h1, r0) = t.0.mut_to_val(h);
            let (h2, r1) = t.1.mut_to_val(h1);
            let (h3, r2) = t.2.mut_to_val(h2);
            let (h4, r3) = t.3.mut_to_val(h3);
            let (h5, r4) = t.4.mut_to_val(h4);
            let (h6, r5) = t.5.mut_to_val(h5);
            let (h7, r6) = t.6.mut_to_val(h6);
            let (h8, r7) = t.7.mut_to_val(h7);
            let (h9, r8) = t.8.mut_to_val(h8);
            &&& r0 is Err ==> t.mut_to_val(h) == (h1, Err::<Val, GError>(r0->Err_0))
            &&& r0 is Ok && r1 is Err ==> t.mut_to_val(h) == (h2, Err::<Val, GError>(r1->Err_0))
            &&& r0 is Ok && r1 is Ok && r2 is Err ==> t.mut_to_val(h) == (
                h3,
                Err::<Val, GError>(r2->Err_0),
            )
            &&& r0 is Ok && r1 is Ok && r2 is Ok && r3 is Err ==> t.mut_to_val(h) == (
                h4,
                Err::<Val, GError>(r3->Err_0),
            )
            &&& r0 is Ok && r1 is Ok && r2 is Ok && r3 is Ok && r4 is Err ==> t.mut_to_val(h) == (
                h5,
                Err::<Val, GError>(r4->Err_0),
            )
            &&& r0 is Ok && r1 is Ok && r2 is Ok && r3 is Ok && r4 is Ok && r5 is Err
                ==> t.mut_to_val(h) == (h6, Err::<Val, GError>(r5->Err_0))
            &&& r0 is Ok && r1 is Ok && r2 is Ok && r3 is Ok && r4 is Ok && r5 is Ok
                && r6 is Err ==> t.mut_to_val(h) == (h7, Err::<Val, GError>(r6->Err_0))
            &&& r0 is Ok && r1 is Ok && r2 is Ok && r3 is Ok && r4 is Ok && r5 is Ok
                && r6 is Ok && r7 is Err ==> t.mut_to_val(h) == (h8, Err::<Val, GError>(r7->Err_0))
            &&& r0 is Ok && r1 is Ok && r2 is Ok && r3 is Ok && r4 is Ok && r5 is Ok
                && r6 is Ok && r7 is Ok && r8 is Err ==> t.mut_to_val(h)
                == (h9, Err::<Val, GError>(r8->Err_0))
            &&& r0 is Ok && r1 is Ok && r2 is Ok && r3 is Ok && r4 is Ok && r5 is Ok
                && r6 is Ok && r7 is Ok && r8 is Ok ==> t.mut_to_val(h) == (
                Store { arrs: h9.arrs.push(
                    seq![
                        r0->Ok_0.slot(),
                        r1->Ok_0.slot(),
                        r2->Ok_0.slot(),
                        r3->Ok_0.slot(),
                        r4->Ok_0.slot(),
                        r5->Ok_0.slot(),
                        r6->Ok_0.slot(),
                        r7->Ok_0.slot(),
                        r8->Ok_0.slot(),
                    ],
                ), ..h9 },
                Ok::<Val, GError>(Val::Arr(Root { id: h9.arrs.len() as usize, kind: Arr })),
            )
            &&& t.leaves(h, after) ==> t.0.leaves(h, after.0)
            &&& t.leaves(h, after) ==> (if r0 is Ok { t.1.leaves(
                h1,
                after.1,
            ) } else { after.1 == t.1 })
            &&& t.leaves(h, after) ==> (if r0 is Ok && r1 is Ok { t.2.leaves(
                h2,
                after.2,
            ) } else { after.2 == t.2 })
            &&& t.leaves(h, after) ==> (if r0 is Ok && r1 is Ok && r2 is Ok { t.3.leaves(
                h3,
                after.3,
            ) } else { after.3 == t.3 })
            &&& t.leaves(h, after) ==> (if r0 is Ok && r1 is Ok && r2 is Ok
                && r3 is Ok { t.4.leaves(h4, after.4) } else { after.4 == t.4 })
            &&& t.leaves(h, after) ==> (if r0 is Ok && r1 is Ok && r2 is Ok && r3 is Ok
                && r4 is Ok { t.5.leaves(h5, after.5) } else { after.5 == t.5 })
            &&& t.leaves(h, after) ==> (if r0 is Ok && r1 is Ok && r2 is Ok && r3 is Ok
                && r4 is Ok && r5 is Ok { t.6.leaves(h6, after.6) } else { after.6 == t.6 })
            &&& t.leaves(h, after) ==> (if r0 is Ok && r1 is Ok && r2 is Ok && r3 is Ok
                && r4 is Ok && r5 is Ok && r6 is Ok { t.7.leaves(h7, after.7) } else { after.7
                == t.7 })
            &&& t.leaves(h, after) ==> (if r0 is Ok && r1 is Ok && r2 is Ok && r3 is Ok
                && r4 is Ok && r5 is Ok && r6 is Ok
                && r7 is Ok { t.8.leaves(h8, after.8) } else { after.8 == t.8 })
        }),
{
    let (h1, r0) = t.0.mut_to_val(h);
    let (h2, r1) = t.1.mut_to_val(h1);
    let (h3, r2) = t.2.mut_to_val(h2);
    let (h4, r3) = t.3.mut_to_val(h3);
    let (h5, r4) = t.4.mut_to_val(h4);
    let (h6, r5) = t.5.mut_to_val(h5);
    let (h7, r6) = t.6.mut_to_val(h6);
    let (h8, r7) = t.7.mut_to_val(h7);
    let (h9, r8) = t.8.mut_to_val(h8);
    if r0 is Ok && r1 is Ok && r2 is Ok && r3 is Ok && r4 is Ok && r5 is Ok && r6 is Ok
        && r7 is Ok && r8 is Ok {
        assert(t.mut_to_val(h).0.arrs.last() =~= seq![
            r0->Ok_0.slot(),
            r1->Ok_0.slot(),
            r2->Ok_0.slot(),
            r3->Ok_0.slot(),
            r4->Ok_0.slot(),
            r5->Ok_0.slot(),
            r6->Ok_0.slot(),
            r7->Ok_0.slot(),
            r8->Ok_0.slot(),
        ]);
    }
}

/// A tuple of 10 becomes a new array of 10 items: its fields are converted in their order, and item
/// by item the array holds the slot of the field in that place. The first that fails is the reason.
pub proof fn law_write_tuple_10<
    A: IntoVal,
    B: IntoVal,
    C: IntoVal,
    D: IntoVal,
    E: IntoVal,
    F: IntoVal,
    G: IntoVal,
    H: IntoVal,
    I: IntoVal,
    J: IntoVal,
>(t: (A, B, C, D, E, F, G, H, I, J), h: Store)
    ensures
        ({
            let (h1, r0) = t.0.to_val(h);
            let (h2, r1) = t.1.to_val(h1);
            let (h3, r2) = t.2.to_val(h2);
            let (h4, r3) = t.3.to_val(h3);
            let (h5, r4) = t.4.to_val(h4);
            let (h6, r5) = t.5.to_val(h5);
            let (h7, r6) = t.6.to_val(h6);
            let (h8, r7) = t.7.to_val(h7);
            let (h9, r8) = t.8.to_val(h8);
            let (h10, r9) = t.9.to_val(h9);
            &&& r0 is Err ==> t.to_val(h) == (h1, Err::<Val, GError>(r0->Err_0))
            &&& r0 is Ok && r1 is Err ==> t.to_val(h) == (h2, Err::<Val, GError>(r1->Err_0))
            &&& r0 is Ok && r1 is Ok && r2 is Err ==> t.to_val(h) == (
                h3,
                Err::<Val, GError>(r2->Err_0),
            )
            &&& r0 is Ok && r1 is Ok && r2 is Ok && r3 is Err ==> t.to_val(h) == (
                h4,
                Err::<Val, GError>(r3->Err_0),
            )
            &&& r0 is Ok && r1 is Ok && r2 is Ok && r3 is Ok && r4 is Err ==> t.to_val(h) == (
                h5,
                Err::<Val, GError>(r4->Err_0),
            )
            &&& r0 is Ok && r1 is Ok && r2 is Ok && r3 is Ok && r4 is Ok && r5 is Err
                ==> t.to_val(h) == (h6, Err::<Val, GError>(r5->Err_0))
            &&& r0 is Ok && r1 is Ok && r2 is Ok && r3 is Ok && r4 is Ok && r5 is Ok
                && r6 is Err ==> t.to_val(h) == (h7, Err::<Val, GError>(r6->Err_0))
            &&& r0 is Ok && r1 is Ok && r2 is Ok && r3 is Ok && r4 is Ok && r5 is Ok
                && r6 is Ok && r7 is Err ==> t.to_val(h) == (h8, Err::<Val, GError>(r7->Err_0))
            &&& r0 is Ok && r1 is Ok && r2 is Ok && r3 is Ok && r4 is Ok && r5 is Ok
                && r6 is Ok && r7 is Ok && r8 is Err ==> t.to_val(h)
                == (h9, Err::<Val, GError>(r8->Err_0))
            &&& r0 is Ok && r1 is Ok && r2 is Ok && r3 is Ok && r4 is Ok && r5 is Ok
                && r6 is Ok && r7 is Ok && r8 is Ok && r9 is Err ==> t.to_val(h)
                == (h10, Err::<Val, GError>(r9->Err_0))
            &&& r0 is Ok && r1 is Ok && r2 is Ok && r3 is Ok && r4 is Ok && r5 is Ok
                && r6 is Ok && r7 is Ok && r8 is Ok && r9 is Ok ==> t.to_val(h) == (
                Store { arrs: h10.arrs.push(
                    seq![
                        r0->Ok_0.slot(),
                        r1->Ok_0.slot(),
                        r2->Ok_0.slot(),
                        r3->Ok_0.slot(),
                        r4->Ok_0.slot(),
                        r5->Ok_0.slot(),
                        r6->Ok_0.slot(),
                        r7->Ok_0.slot(),
                        r8->Ok_0.slot(),
                        r9->Ok_0.slot(),
                    ],
                ), ..h10 },
                Ok::<Val, GError>(Val::Arr(Root { id: h10.arrs.len() as usize, kind: Arr })),
            )
        }),
{
    let (h1, r0) = t.0.to_val(h);
    let (h2, r1) = t.1.to_val(h1);
    let (h3, r2) = t.2.to_val(h2);
    let (h4, r3) = t.3.to_val(h3);
    let (h5, r4) = t.4.to_val(h4);
    let (h6, r5) = t.5.to_val(h5);
    let (h7, r6) = t.6.to_val(h6);
    let (h8, r7) = t.7.to_val(h7);
    let (h9, r8) = t.8.to_val(h8);
    let (h10, r9) = t.9.to_val(h9);
    if r0 is Ok && r1 is Ok && r2 is Ok && r3 is Ok && r4 is Ok && r5 is Ok && r6 is Ok
        && r7 is Ok && r8 is Ok && r9 is Ok {
        assert(t.to_val(h).0.arrs.last() =~= seq![
            r0->Ok_0.slot(),
            r1->Ok_0.slot(),
            r2->Ok_0.slot(),
            r3->Ok_0.slot(),
            r4->Ok_0.slot(),
            r5->Ok_0.slot(),
            r6->Ok_0.slot(),
            r7->Ok_0.slot(),
            r8->Ok_0.slot(),
            r9->Ok_0.slot(),
        ]);
    }
}

/// The same by shared reference.
pub proof fn law_write_tuple_10_ref<'a, A, B, C, D, E, F, G, H, I, J>(
    t: &'a (A, B, C, D, E, F, G, H, I, J),
    h: Store,
) where &'a A: IntoVal, &'a B: IntoVal, &'a C: IntoVal, &'a D: IntoVal, &'a E: IntoVal,
    &'a F: IntoVal, &'a G: IntoVal, &'a H: IntoVal, &'a I: IntoVal, &'a J: IntoVal,
    ensures
        ({
            let (h1, r0) = (&t.0).to_val(h);
            let (h2, r1) = (&t.1).to_val(h1);
            let (h3, r2) = (&t.2).to_val(h2);
            let (h4, r3) = (&t.3).to_val(h3);
            let (h5, r4) = (&t.4).to_val(h4);
            let (h6, r5) = (&t.5).to_val(h5);
            let (h7, r6) = (&t.6).to_val(h6);
            let (h8, r7) = (&t.7).to_val(h7);
            let (h9, r8) = (&t.8).to_val(h8);
            let (h10, r9) = (&t.9).to_val(h9);
            &&& r0 is Err ==> t.to_val(h) == (h1, Err::<Val, GError>(r0->Err_0))
            &&& r0 is Ok && r1 is Err ==> t.to_val(h) == (h2, Err::<Val, GError>(r1->Err_0))
            &&& r0 is Ok && r1 is Ok && r2 is Err ==> t.to_val(h) == (
                h3,
                Err::<Val, GError>(r2->Err_0),
            )
            &&& r0 is Ok && r1 is Ok && r2 is Ok && r3 is Err ==> t.to_val(h) == (
                h4,
                Err::<Val, GError>(r3->Err_0),
            )
            &&& r0 is Ok && r1 is Ok && r2 is Ok && r3 is Ok && r4 is Err ==> t.to_val(h) == (
                h5,
                Err::<Val, GError>(r4->Err_0),
            )
            &&& r0 is Ok && r1 is Ok && r2 is Ok && r3 is Ok && r4 is Ok && r5 is Err
                ==> t.to_val(h) == (h6, Err::<Val, GError>(r5->Err_0))
            &&& r0 is Ok && r1 is Ok && r2 is Ok && r3 is Ok && r4 is Ok && r5 is Ok
                && r6 is Err ==> t.to_val(h) == (h7, Err::<Val, GError>(r6->Err_0))
            &&& r0 is Ok && r1 is Ok && r2 is Ok && r3 is Ok && r4 is Ok && r5 is Ok
                && r6 is Ok && r7 is Err ==> t.to_val(h) == (h8, Err::<Val, GError>(r7->Err_0))
            &&& r0 is Ok && r1 is Ok && r2 is Ok && r3 is Ok && r4 is Ok && r5 is Ok
                && r6 is Ok && r7 is Ok && r8 is Err ==> t.to_val(h)
                == (h9, Err::<Val, GError>(r8->Err_0))
            &&& r0 is Ok && r1 is Ok && r2 is Ok && r3 is Ok && r4 is Ok && r5 is Ok
                && r6 is Ok && r7 is Ok && r8 is Ok && r9 is Err ==> t.to_val(h)
                == (h10, Err::<Val, GError>(r9->Err_0))
            &&& r0 is Ok && r1 is Ok && r2 is Ok && r3 is Ok && r4 is Ok && r5 is Ok
                && r6 is Ok && r7 is Ok && r8 is Ok && r9 is Ok ==> t.to_val(h) == (
                Store { arrs: h10.arrs.push(
                    seq![
                        r0->Ok_0.slot(),
                        r1->Ok_0.slot(),
                        r2->Ok_0.slot(),
                        r3->Ok_0.slot(),
                        r4->Ok_0.slot(),
                        r5->Ok_0.slot(),
                        r6->Ok_0.slot(),
                        r7->Ok_0.slot(),
                        r8->Ok_0.slot(),
                        r9->Ok_0.slot(),
                    ],
                ), ..h10 },
                Ok::<Val, GError>(Val::Arr(Root { id: h10.arrs.len() as usize, kind: Arr })),
            )
        }),
{
    let (h1, r0) = (&t.0).to_val(h);
    let (h2, r1) = (&t.1).to_val(h1);
    let (h3, r2) = (&t.2).to_val(h2);
    let (h4, r3) = (&t.3).to_val(h3);
    let (h5, r4) = (&t.4).to_val(h4);
    let (h6, r5) = (&t.5).to_val(h5);
    let (h7, r6) = (&t.6).to_val(h6);
    let (h8, r7) = (&t.7).to_val(h7);
    let (h9, r8) = (&t.8).to_val(h8);
    let (h10, r9) = (&t.9).to_val(h9);
    if r0 is Ok && r1 is Ok && r2 is Ok && r3 is Ok && r4 is Ok && r5 is Ok && r6 is Ok
        && r7 is Ok && r8 is Ok && r9 is Ok {
        assert(t.to_val(h).0.arrs.last() =~= seq![
            r0->Ok_0.slot(),
            r1->Ok_0.slot(),
            r2->Ok_0.slot(),
            r3->Ok_0.slot(),
            r4->Ok_0.slot(),
            r5->Ok_0.slot(),
            r6->Ok_0.slot(),
            r7->Ok_0.slot(),
            r8->Ok_0.slot(),
            r9->Ok_0.slot(),
        ]);
    }
}

/// The same by mutable reference, with what is left of the fields.
pub proof fn law_write_tuple_10_mut<
    A: IntoValMut,
    B: IntoValMut,
    C: IntoValMut,
    D: IntoValMut,
    E: IntoValMut,
    F: IntoValMut,
    G: IntoValMut,
    H: IntoValMut,
    I: IntoValMut,
    J: IntoValMut,
>(t: (A, B, C, D, E, F, G, H, I, J), h: Store, after: (A, B, C, D, E, F, G, H, I, J))
    ensures
        ({
            let (h1, r0) = t.0.mut_to_val(h);
            let (h2, r1) = t.1.mut_to_val(h1);
            let (h3, r2) = t.2.mut_to_val(h2);
            let (h4, r3) = t.3.mut_to_val(h3);
            let (h5, r4) = t.4.mut_to_val(h4);
            let (h6, r5) = t.5.mut_to_val(h5);
            let (h7, r6) = t.6.mut_to_val(h6);
            let (h8, r7) = t.7.mut_to_val(h7);
            let (h9, r8) = t.8.mut_to_val(h8);
            let (h10, r9) = t.9.mut_to_val(h9);
            &&& r0 is Err ==> t.mut_to_val(h) == (h1, Err::<Val, GError>(r0->Err_0))
            &&& r0 is Ok && r1 is Err ==> t.mut_to_val(h) == (h2, Err::<Val, GError>(r1->Err_0))
            &&& r0 is Ok && r1 is Ok && r2 is Err ==> t.mut_to_val(h) == (
                h3,
                Err::<Val, GError>(r2->Err_0),
            )
            &&& r0 is Ok && r1 is Ok && r2 is Ok && r3 is Err ==> t.mut_to_val(h) == (
                h4,
                Err::<Val, GError>(r3->Err_0),
            )
            &&& r0 is Ok && r1 is Ok && r2 is Ok && r3 is Ok && r4 is Err ==> t.mut_to_val(h) == (
                h5,
                Err::<Val, GError>(r4->Err_0),
            )
            &&& r0 is Ok && r1 is Ok && r2 is Ok && r3 is Ok && r4 is Ok && r5 is Err
                ==> t.mut_to_val(h) == (h6, Err::<Val, GError>(r5->Err_0))
            &&& r0 is Ok && r1 is Ok && r2 is Ok && r3 is Ok && r4 is Ok && r5 is Ok
                && r6 is Err ==> t.mut_to_val(h) == (h7, Err::<Val, GError>(r6->Err_0))
            &&& r0 is Ok && r1 is Ok && r2 is Ok && r3 is Ok && r4 is Ok && r5 is Ok
                && r6 is Ok && r7 is Err ==> t.mut_to_val(h) == (h8, Err::<Val, GError>(r7->Err_0))
            &&& r0 is Ok && r1 is Ok && r2 is Ok && r3 is Ok && r4 is Ok && r5 is Ok
                && r6 is Ok && r7 is Ok && r8 is Err ==> t.mut_to_val(h)
                == (h9, Err::<Val, GError>(r8->Err_0))
            &&& r0 is Ok && r1 is Ok && r2 is Ok && r3 is Ok && r4 is Ok && r5 is Ok
                && r6 is Ok && r7 is Ok && r8 is Ok && r9 is Err ==> t.mut_to_val(h)
                == (h10, Err::<Val, GError>(r9->Err_0))
            &&& r0 is Ok && r1 is Ok && r2 is Ok && r3 is Ok && r4 is Ok && r5 is Ok
                && r6 is Ok && r7 is Ok && r8 is Ok && r9 is Ok ==> t.mut_to_val(h) == (
                Store { arrs: h10.arrs.push(
                    seq![
                        r0->Ok_0.slot(),
                        r1->Ok_0.slot(),
                        r2->Ok_0.slot(),
                        r3->Ok_0.slot(),
                        r4->Ok_0.slot(),
                        r5->Ok_0.slot(),
                        r6->Ok_0.slot(),
                        r7->Ok_0.slot(),
                        r8->Ok_0.slot(),
                        r9->Ok_0.slot(),
                    ],
                ), ..h10 },
                Ok::<Val, GError>(Val::Arr(Root { id: h10.arrs.len() as usize, kind: Arr })),
            )
            &&& t.leaves(h, after) ==> t.0.leaves(h, after.0)
            &&& t.leaves(h, after) ==> (if r0 is Ok { t.1.leaves(
                h1,
                after.1,
            ) } else { after.1 == t.1 })
            &&& t.leaves(h, after) ==> (if r0 is Ok && r1 is Ok { t.2.leaves(
                h2,
                after.2,
            ) } else { after.2 == t.2 })
            &&& t.leaves(h, after) ==> (if r0 is Ok && r1 is Ok && r2 is Ok { t.3.leaves(
                h3,
                after.3,
            ) } else { after.3 == t.3 })
            &&& t.leaves(h, after) ==> (if r0 is Ok && r1 is Ok && r2 is Ok
                && r3 is Ok { t.4.leaves(h4, after.4) } else { after.4 == t.4 })
            &&& t.leaves(h, after) ==> (if r0 is Ok && r1 is Ok && r2 is Ok && r3 is Ok
                && r4 is Ok { t.5.leaves(h5, after.5) } else { after.5 == t.5 })
            &&& t.leaves(h, after) ==> (if r0 is Ok && r1 is Ok && r2 is Ok && r3 is Ok
                && r4 is Ok && r5 is Ok { t.6.leaves(h6, after.6) } else { after.6 == t.6 })
            &&& t.leaves(h, after) ==> (if r0 is Ok && r1 is Ok && r2 is Ok && r3 is Ok
                && r4 is Ok && r5 is Ok && r6 is Ok { t.7.leaves(h7, after.7) } else { after.7
                == t.7 })
            &&& t.leaves(h, after) ==> (if r0 is Ok && r1 is Ok && r2 is Ok && r3 is Ok
                && r4 is Ok && r5 is Ok && r6 is Ok
                && r7 is Ok { t.8.leaves(h8, after.8) } else { after.8 == t.8 })
            &&& t.leaves(h, after) ==> (if r0 is Ok && r1 is Ok && r2 is Ok && r3 is Ok
                && r4 is Ok && r5 is Ok && r6 is Ok && r7 is Ok
                && r8 is Ok { t.9.leaves(h9, after.9) } else { after.9 == t.9 })
        }),
{
    let (h1, r0) = t.0.mut_to_val(h);
    let (h2, r1) = t.1.mut_to_val(h1);
    let (h3, r2) = t.2.mut_to_val(h2);
    let (h4, r3) = t.3.mut_to_val(h3);
    let (h5, r4) = t.4.mut_to_val(h4);
    let (h6, r5) = t.5.mut_to_val(h5);
    let (h7, r6) = t.6.mut_to_val(h6);
    let (h8, r7) = t.7.mut_to_val(h7);
    let (h9, r8) = t.8.mut_to_val(h8);
    let (h10, r9) = t.9.mut_to_val(h9);
    if r0 is Ok && r1 is Ok && r2 is Ok && r3 is Ok && r4 is Ok && r5 is Ok && r6 is Ok
        && r7 is Ok && r8 is Ok && r9 is Ok {
        assert(t.mut_to_val(h).0.arrs.last() =~= seq![
            r0->Ok_0.slot(),
            r1->Ok_0.slot(),
            r2->Ok_0.slot(),
            r3->Ok_0.slot(),
            r4->Ok_0.slot(),
            r5->Ok_0.slot(),
            r6->Ok_0.slot(),
            r7->Ok_0.slot(),
            r8->Ok_0.slot(),
            r9->Ok_0.slot(),
        ]);
    }
}

/// A tuple of 11 becomes a new array of 11 items: its fields are converted in their order, and item
/// by item the array holds the slot of the field in that place. The first that fails is the reason.
pub proof fn law_write_tuple_11<
    A: IntoVal,
    B: IntoVal,
    C: IntoVal,
    D: IntoVal,
    E: IntoVal,
    F: IntoVal,
    G: IntoVal,
    H: IntoVal,
    I: IntoVal,
    J: IntoVal,
    K: IntoVal,
>(t: (A, B, C, D, E, F, G, H, I, J, K), h: Store)
    ensures
        ({
            let (h1, r0) = t.0.to_val(h);
            let (h2, r1) = t.1.to_val(h1);
            let (h3, r2) = t.2.to_val(h2);
            let (h4, r3) = t.3.to_val(h3);
            let (h5, r4) = t.4.to_val(h4);
            let (h6, r5) = t.5.to_val(h5);
            let (h7, r6) = t.6.to_val(h6);
            let (h8, r7) = t.7.to_val(h7);
            let (h9, r8) = t.8.to_val(h8);
            let (h10, r9) = t.9.to_val(h9);
            let (h11, r10) = t.10.to_val(h10);
            &&& r0 is Err ==> t.to_val(h) == (h1, Err::<Val, GError>(r0->Err_0))
            &&& r0 is Ok && r1 is Err ==> t.to_val(h) == (h2, Err::<Val, GError>(r1->Err_0))
            &&& r0 is Ok && r1 is Ok && r2 is Err ==> t.to_val(h) == (
                h3,
                Err::<Val, GError>(r2->Err_0),
            )
            &&& r0 is Ok && r1 is Ok && r2 is Ok && r3 is Err ==> t.to_val(h) == (
                h4,
                Err::<Val, GError>(r3->Err_0),
            )
            &&& r0 is Ok && r1 is Ok && r2 is Ok && r3 is Ok && r4 is Err ==> t.to_val(h) == (
                h5,
                Err::<Val, GError>(r4->Err_0),
            )
            &&& r0 is Ok && r1 is Ok && r2 is Ok && r3 is Ok && r4 is Ok && r5 is Err
                ==> t.to_val(h) == (h6, Err::<Val, GError>(r5->Err_0))
            &&& r0 is Ok && r1 is Ok && r2 is Ok && r3 is Ok && r4 is Ok && r5 is Ok
                && r6 is Err ==> t.to_val(h) == (h7, Err::<Val, GError>(r6->Err_0))
            &&& r0 is Ok && r1 is Ok && r2 is Ok && r3 is Ok && r4 is Ok && r5 is Ok
                && r6 is Ok && r7 is Err ==> t.to_val(h) == (h8, Err::<Val, GError>(r7->Err_0))
            &&& r0 is Ok && r1 is Ok && r2 is Ok && r3 is Ok && r4 is Ok && r5 is Ok
                && r6 is Ok && r7 is Ok && r8 is Err ==> t.to_val(h)
                == (h9, Err::<Val, GError>(r8->Err_0))
            &&& r0 is Ok && r1 is Ok && r2 is Ok && r3 is Ok && r4 is Ok && r5 is Ok
                && r6 is Ok && r7 is Ok && r8 is Ok && r9 is Err ==> t.to_val(h)
                == (h10, Err::<Val, GError>(r9->Err_0))
            &&& r0 is Ok && r1 is Ok && r2 is Ok && r3 is Ok && r4 is Ok && r5 is Ok
                && r6 is Ok && r7 is Ok && r8 is Ok && r9 is Ok && r10 is Err ==> t.to_val(h)
                == (h11, Err::<Val, GError>(r10->Err_0))
            &&& r0 is Ok && r1 is Ok && r2 is Ok && r3 is Ok && r4 is Ok && r5 is Ok
                && r6 is Ok && r7 is Ok && r8 is Ok && r9 is Ok && r10 is Ok ==> t.to_val(h) == (
                Store { arrs: h11.arrs.push(
                    seq![
                        r0->Ok_0.slot(),
                        r1->Ok_0.slot(),
                        r2->Ok_0.slot(),
                        r3->Ok_0.slot(),
                        r4->Ok_0.slot(),
                        r5->Ok_0.slot(),
                        r6->Ok_0.slot(),
                        r7->Ok_0.slot(),
                        r8->Ok_0.slot(),
                        r9->Ok_0.slot(),
                        r10->Ok_0.slot(),
                    ],
                ), ..h11 },
                Ok::<Val, GError>(Val::Arr(Root { id: h11.arrs.len() as usize, kind: Arr })),
            )
        }),
{
    let (h1, r0) = t.0.to_val(h);
    let (h2, r1) = t.1.to_val(h1);
    let (h3, r2) = t.2.to_val(h2);
    let (h4, r3) = t.3.to_val(h3);
    let (h5, r4) = t.4.to_val(h4);
    let (h6, r5) = t.5.to_val(h5);
    let (h7, r6) = t.6.to_val(h6);
    let (h8, r7) = t.7.to_val(h7);
    let (h9, r8) = t.8.to_val(h8);
    let (h10, r9) = t.9.to_val(h9);
    let (h11, r10) = t.10.to_val(h10);
    if r0 is Ok && r1 is Ok && r2 is Ok && r3 is Ok && r4 is Ok && r5 is Ok && r6 is Ok
        && r7 is Ok && r8 is Ok && r9 is Ok && r10 is Ok {
        assert(t.to_val(h).0.arrs.last() =~= seq![
            r0->Ok_0.slot(),
            r1->Ok_0.slot(),
            r2->Ok_0.slot(),
            r3->Ok_0.slot(),
            r4->Ok_0.slot(),
            r5->Ok_0.slot(),
            r6->Ok_0.slot(),
            r7->Ok_0.slot(),
            r8->Ok_0.slot(),
            r9->Ok_0.slot(),
            r10->Ok_0.slot(),
        ]);
    }
}

/// The same by shared reference.
pub proof fn law_write_tuple_11_ref<'a, A, B, C, D, E, F, G, H, I, J, K>(
    t: &'a (A, B, C, D, E, F, G, H, I, J, K),
    h: Store,
) where &'a A: IntoVal, &'a B: IntoVal, &'a C: IntoVal, &'a D: IntoVal, &'a E: IntoVal,
    &'a F: IntoVal, &'a G: IntoVal, &'a H: IntoVal, &'a I: IntoVal, &'a J: IntoVal, &'a K: IntoVal,
    ensures
        ({
            let (h1, r0) = (&t.0).to_val(h);
            let (h2, r1) = (&t.1).to_val(h1);
            let (h3, r2) = (&t.2).to_val(h2);
            let (h4, r3) = (&t.3).to_val(h3);
            let (h5, r4) = (&t.4).to_val(h4);
            let (h6, r5) = (&t.5).to_val(h5);
            let (h7, r6) = (&t.6).to_val(h6);
            let (h8, r7) = (&t.7).to_val(h7);
            let (h9, r8) = (&t.8).to_val(h8);
            let (h10, r9) = (&t.9).to_val(h9);
            let (h11, r10) = (&t.10).to_val(h10);
            &&& r0 is Err ==> t.to_val(h) == (h1, Err::<Val, GError>(r0->Err_0))
            &&& r0 is Ok && r1 is Err ==> t.to_val(h) == (h2, Err::<Val, GError>(r1->Err_0))
            &&& r0 is Ok && r1 is Ok && r2 is Err ==> t.to_val(h) == (
                h3,
                Err::<Val, GError>(r2->Err_0),
            )
            &&& r0 is Ok && r1 is Ok && r2 is Ok && r3 is Err ==> t.to_val(h) == (
                h4,
                Err::<Val, GError>(r3->Err_0),
            )
            &&& r0 is Ok && r1 is Ok && r2 is Ok && r3 is Ok && r4 is Err ==> t.to_val(h) == (
                h5,
                Err::<Val, GError>(r4->Err_0),
            )
            &&& r0 is Ok && r1 is Ok && r2 is Ok && r3 is Ok && r4 is Ok && r5 is Err
                ==> t.to_val(h) == (h6, Err::<Val, GError>(r5->Err_0))
            &&& r0 is Ok && r1 is Ok && r2 is Ok && r3 is Ok && r4 is Ok && r5 is Ok
                && r6 is Err ==> t.to_val(h) == (h7, Err::<Val, GError>(r6->Err_0))
            &&& r0 is Ok && r1 is Ok && r2 is Ok && r3 is Ok && r4 is Ok && r5 is Ok
                && r6 is Ok && r7 is Err ==> t.to_val(h) == (h8, Err::<Val, GError>(r7->Err_0))
            &&& r0 is Ok && r1 is Ok && r2 is Ok && r3 is Ok && r4 is Ok && r5 is Ok
                && r6 is Ok && r7 is Ok && r8 is Err ==> t.to_val(h)
                == (h9, Err::<Val, GError>(r8->Err_0))
            &&& r0 is Ok && r1 is Ok && r2 is Ok && r3 is Ok && r4 is Ok && r5 is Ok
                && r6 is Ok && r7 is Ok && r8 is Ok && r9 is Err ==> t.to_val(h)
                == (h10, Err::<Val, GError>(r9->Err_0))
            &&& r0 is Ok && r1 is Ok && r2 is Ok && r3 is Ok && r4 is Ok && r5 is Ok
                && r6 is Ok && r7 is Ok && r8 is Ok && r9 is Ok && r10 is Err ==> t.to_val(h)
                == (h11, Err::<Val, GError>(r10->Err_0))
            &&& r0 is Ok && r1 is Ok && r2 is Ok && r3 is Ok && r4 is Ok && r5 is Ok
                && r6 is Ok && r7 is Ok && r8 is Ok && r9 is Ok && r10 is Ok ==> t.to_val(h) == (
                Store { arrs: h11.arrs.push(
                    seq![
                        r0->Ok_0.slot(),
                        r1->Ok_0.slot(),
                        r2->Ok_0.slot(),
                        r3->Ok_0.slot(),
                        r4->Ok_0.slot(),
                        r5->Ok_0.slot(),
                        r6->Ok_0.slot(),
                        r7->Ok_0.slot(),
                        r8->Ok_0.slot(),
                        r9->Ok_0.slot(),
                        r10->Ok_0.slot(),
                    ],
                ), ..h11 },
                Ok::<Val, GError>(Val::Arr(Root { id: h11.arrs.len() as usize, kind: Arr })),
            )
        }),
{
    let (h1, r0) = (&t.0).to_val(h);
    let (h2, r1) = (&t.1).to_val(h1);
    let (h3, r2) = (&t.2).to_val(h2);
    let (h4, r3) = (&t.3).to_val(h3);
    let (h5, r4) = (&t.4).to_val(h4);
    let (h6, r5) = (&t.5).to_val(h5);
    let (h7, r6) = (&t.6).to_val(h6);
    let (h8, r7) = (&t.7).to_val(h7);
    let (h9, r8) = (&t.8).to_val(h8);
    let (h10, r9) = (&t.9).to_val(h9);
    let (h11, r10) = (&t.10).to_val(h10);
    if r0 is Ok && r1 is Ok && r2 is Ok && r3 is Ok && r4 is Ok && r5 is Ok && r6 is Ok
        && r7 is Ok && r8 is Ok && r9 is Ok && r10 is Ok {
        assert(t.to_val(h).0.arrs.last() =~= seq![
            r0->Ok_0.slot(),
            r1->Ok_0.slot(),
            r2->Ok_0.slot(),
            r3->Ok_0.slot(),
            r4->Ok_0.slot(),
            r5->Ok_0.slot(),
            r6->Ok_0.slot(),
            r7->Ok_0.slot(),
            r8->Ok_0.slot(),
            r9->Ok_0.slot(),
            r10->Ok_0.slot(),
        ]);
    }
}

/// The same by mutable reference, with what is left of the fields.
pub proof fn law_write_tuple_11_mut<
    A: IntoValMut,
    B: IntoValMut,
    C: IntoValMut,
    D: IntoValMut,
    E: IntoValMut,
    F: IntoValMut,
    G: IntoValMut,
    H: IntoValMut,
    I: IntoValMut,
    J: IntoValMut,
    K: IntoValMut,
>(t: (A, B, C, D, E, F, G, H, I, J, K), h: Store, after: (A, B, C, D, E, F, G, H, I, J, K))
    ensures
        ({
            let (h1, r0) = t.0.mut_to_val(h);
            let (h2, r1) = t.1.mut_to_val(h1);
            let (h3, r2) = t.2.mut_to_val(h2);
            let (h4, r3) = t.3.mut_to_val(h3);
            let (h5, r4) = t.4.mut_to_val(h4);
            let (h6, r5) = t.5.mut_to_val(h5);
            let (h7, r6) = t.6.mut_to_val(h6);
            let (h8, r7) = t.7.mut_to_val(h7);
            let (h9, r8) = t.8.mut_to_val(h8);
            let (h10, r9) = t.9.mut_to_val(h9);
            let (h11, r10) = t.10.mut_to_val(h10);
            &&& r0 is Err ==> t.mut_to_val(h) == (h1, Err::<Val, GError>(r0->Err_0))
            &&& r0 is Ok && r1 is Err ==> t.mut_to_val(h) == (h2, Err::<Val, GError>(r1->Err_0))
            &&& r0 is Ok && r1 is Ok && r2 is Err ==> t.mut_to_val(h) == (
                h3,
                Err::<Val, GError>(r2->Err_0),
            )
            &&& r0 is Ok && r1 is Ok && r2 is Ok && r3 is Err ==> t.mut_to_val(h) == (
                h4,
                Err::<Val, GError>(r3->Err_0),
            )
            &&& r0 is Ok && r1 is Ok && r2 is Ok && r3 is Ok && r4 is Err ==> t.mut_to_val(h) == (
                h5,
                Err::<Val, GError>(r4->Err_0),
            )
            &&& r0 is Ok && r1 is Ok && r2 is Ok && r3 is Ok && r4 is Ok && r5 is Err
                ==> t.mut_to_val(h) == (h6, Err::<Val, GError>(r5->Err_0))
            &&& r0 is Ok && r1 is Ok && r2 is Ok && r3 is Ok && r4 is Ok && r5 is Ok
                && r6 is Err ==> t.mut_to_val(h) == (h7, Err::<Val, GError>(r6->Err_0))
            &&& r0 is Ok && r1 is Ok && r2 is Ok && r3 is Ok && r4 is Ok && r5 is Ok
                && r6 is Ok && r7 is Err ==> t.mut_to_val(h) == (h8, Err::<Val, GError>(r7->Err_0))
            &&& r0 is Ok && r1 is Ok && r2 is Ok && r3 is Ok && r4 is Ok && r5 is Ok
                && r6 is Ok && r7 is Ok && r8 is Err ==> t.mut_to_val(h)
                == (h9, Err::<Val, GError>(r8->Err_0))
            &&& r0 is Ok && r1 is Ok && r2 is Ok && r3 is Ok && r4 is Ok && r5 is Ok
                && r6 is Ok && r7 is Ok && r8 is Ok && r9 is Err ==> t.mut_to_val(h)
                == (h10, Err::<Val, GError>(r9->Err_0))
            &&& r0 is Ok && r1 is Ok && r2 is Ok && r3 is Ok && r4 is Ok && r5 is Ok
                && r6 is Ok && r7 is Ok && r8 is Ok && r9 is Ok && r10 is Err
                ==> t.mut_to_val(h) == (h11, Err::<Val, GError>(r10->Err_0))
            &&& r0 is Ok && r1 is Ok && r2 is Ok && r3 is Ok && r4 is Ok && r5 is Ok
                && r6 is Ok && r7 is Ok && r8 is Ok && r9 is Ok && r10 is Ok
                ==> t.mut_to_val(h) == (
                Store { arrs: h11.arrs.push(
                    seq![
                        r0->Ok_0.slot(),
                        r1->Ok_0.slot(),
                        r2->Ok_0.slot(),
                        r3->Ok_0.slot(),
                        r4->Ok_0.slot(),
                        r5->Ok_0.slot(),
                        r6->Ok_0.slot(),
                        r7->Ok_0.slot(),
                        r8->Ok_0.slot(),
                        r9->Ok_0.slot(),
                        r10->Ok_0.slot(),
                    ],
                ), ..h11 },
                Ok::<Val, GError>(Val::Arr(Root { id: h11.arrs.len() as usize, kind: Arr })),
            )
            &&& t.leaves(h, after) ==> t.0.leaves(h, after.0)
            &&& t.leaves(h, after) ==> (if r0 is Ok { t.1.leaves(
                h1,
                after.1,
            ) } else { after.1 == t.1 })
            &&& t.leaves(h, after) ==> (if r0 is Ok && r1 is Ok { t.2.leaves(
                h2,
                after.2,
            ) } else { after.2 == t.2 })
            &&& t.leaves(h, after) ==> (if r0 is Ok && r1 is Ok && r2 is Ok { t.3.leaves(
                h3,
                after.3,
            ) } else { after.3 == t.3 })
            &&& t.leaves(h, after) ==> (if r0 is Ok && r1 is Ok && r2 is Ok
                && r3 is Ok { t.4.leaves(h4, after.4) } else { after.4 == t.4 })
            &&& t.leaves(h, after) ==> (if r0 is Ok && r1 is Ok && r2 is Ok && r3 is Ok
                && r4 is Ok { t.5.leaves(h5, after.5) } else { after.5 == t.5 })
            &&& t.leaves(h, after) ==> (if r0 is Ok && r1 is Ok && r2 is Ok && r3 is Ok
                && r4 is Ok && r5 is Ok { t.6.leaves(h6, after.6) } else { after.6 == t.6 })
            &&& t.leaves(h, after) ==> (if r0 is Ok && r1 is Ok && r2 is Ok && r3 is Ok
                && r4 is Ok && r5 is Ok && r6 is Ok { t.7.leaves(h7, after.7) } else { after.7
                == t.7 })
            &&& t.leaves(h, after) ==> (if r0 is Ok && r1 is Ok && r2 is Ok && r3 is Ok
                && r4 is Ok && r5 is Ok && r6 is Ok
                && r7 is Ok { t.8.leaves(h8, after.8) } else { after.8 == t.8 })
            &&& t.leaves(h, after) ==> (if r0 is Ok && r1 is Ok && r2 is Ok && r3 is Ok
                && r4 is Ok && r5 is Ok && r6 is Ok && r7 is Ok
                && r8 is Ok { t.9.leaves(h9, after.9) } else { after.9 == t.9 })
            &&& t.leaves(h, after) ==> (if r0 is Ok && r1 is Ok && r2 is Ok && r3 is Ok
                && r4 is Ok && r5 is Ok && r6 is Ok && r7 is Ok && r8 is Ok
                && r9 is Ok { t.10.leaves(h10, after.10) } else { after.10 == t.10 })
        }),
{
    let (h1, r0) = t.0.mut_to_val(h);
    let (h2, r1) = t.1.mut_to_val(h1);
    let (h3, r2) = t.2.mut_to_val(h2);
    let (h4, r3) = t.3.mut_to_val(h3);
    let (h5, r4) = t.4.mut_to_val(h4);
    let (h6, r5) = t.5.mut_to_val(h5);
    let (h7, r6) = t.6.mut_to_val(h6);
    let (h8, r7) = t.7.mut_to_val(h7);
    let (h9, r8) = t.8.mut_to_val(h8);
    let (h10, r9) = t.9.mut_to_val(h9);
    let (h11, r10) = t.10.mut_to_val(h10);
    if r0 is Ok && r1 is Ok && r2 is Ok && r3 is Ok && r4 is Ok && r5 is Ok && r6 is Ok
        && r7 is Ok && r8 is Ok && r9 is Ok && r10 is Ok {
        assert(t.mut_to_val(h).0.arrs.last() =~= seq![
            r0->Ok_0.slot(),
            r1->Ok_0.slot(),
            r2->Ok_0.slot(),
            r3->Ok_0.slot(),
            r4->Ok_0.slot(),
            r5->Ok_0.slot(),
            r6->Ok_0.slot(),
            r7->Ok_0.slot(),
            r8->Ok_0.slot(),
            r9->Ok_0.slot(),
            r10->Ok_0.slot(),
        ]);
    }
}

/// A tuple of 12 becomes a new array of 12 items: its fields are converted in their order, and item
/// by item the array holds the slot of the field in that place. The first that fails is the reason.
pub proof fn law_write_tuple_12<
    A: IntoVal,
    B: IntoVal,
    C: IntoVal,
    D: IntoVal,
    E: IntoVal,
    F: IntoVal,
    G: IntoVal,
    H: IntoVal,
    I: IntoVal,
    J: IntoVal,
    K: IntoVal,
    L: IntoVal,
>(t: (A, B, C, D, E, F, G, H, I, J, K, L), h: Store)
    ensures
        ({
            let (h1, r0) = t.0.to_val(h);
            let (h2, r1) = t.1.to_val(h1);
            let (h3, r2) = t.2.to_val(h2);
            let (h4, r3) = t.3.to_val(h3);
            let (h5, r4) = t.4.to_val(h4);
            let (h6, r5) = t.5.to_val(h5);
            let (h7, r6) = t.6.to_val(h6);
            let (h8, r7) = t.7.to_val(h7);
            let (h9, r8) = t.8.to_val(h8);
            let (h10, r9) = t.9.to_val(h9);
            let (h11, r10) = t.10.to_val(h10);
            let (h12, r11) = t.11.to_val(h11);
            &&& r0 is Err ==> t.to_val(h) == (h1, Err::<Val, GError>(r0->Err_0))
            &&& r0 is Ok && r1 is Err ==> t.to_val(h) == (h2, Err::<Val, GError>(r1->Err_0))
            &&& r0 is Ok && r1 is Ok && r2 is Err ==> t.to_val(h) == (
                h3,
                Err::<Val, GError>(r2->Err_0),
            )
            &&& r0 is Ok && r1 is Ok && r2 is Ok && r3 is Err ==> t.to_val(h) == (
                h4,
                Err::<Val, GError>(r3->Err_0),
            )
            &&& r0 is Ok && r1 is Ok && r2 is Ok && r3 is Ok && r4 is Err ==> t.to_val(h) == (
                h5,
                Err::<Val, GError>(r4->Err_0),
            )
            &&& r0 is Ok && r1 is Ok && r2 is Ok && r3 is Ok && r4 is Ok && r5 is Err
                ==> t.to_val(h) == (h6, Err::<Val, GError>(r5->Err_0))
            &&& r0 is Ok && r1 is Ok && r2 is Ok && r3 is Ok && r4 is Ok && r5 is Ok
                && r6 is Err ==> t.to_val(h) == (h7, Err::<Val, GError>(r6->Err_0))
            &&& r0 is Ok && r1 is Ok && r2 is Ok && r3 is Ok && r4 is Ok && r5 is Ok
                && r6 is Ok && r7 is Err ==> t.to_val(h) == (h8, Err::<Val, GError>(r7->Err_0))
            &&& r0 is Ok && r1 is Ok && r2 is Ok && r3 is Ok && r4 is Ok && r5 is Ok
                && r6 is Ok && r7 is Ok && r8 is Err ==> t.to_val(h)
                == (h9, Err::<Val, GError>(r8->Err_0))
            &&& r0 is Ok && r1 is Ok && r2 is Ok && r3 is Ok && r4 is Ok && r5 is Ok
                && r6 is Ok && r7 is Ok && r8 is Ok && r9 is Err ==> t.to_val(h)
                == (h10, Err::<Val, GError>(r9->Err_0))
            &&& r0 is Ok && r1 is Ok && r2 is Ok && r3 is Ok && r4 is Ok && r5 is Ok
                && r6 is Ok && r7 is Ok && r8 is Ok && r9 is Ok && r10 is Err ==> t.to_val(h)
                == (h11, Err::<Val, GError>(r10->Err_0))
            &&& r0 is Ok && r1 is Ok && r2 is Ok && r3 is Ok && r4 is Ok && r5 is Ok
                && r6 is Ok && r7 is Ok && r8 is Ok && r9 is Ok && r10 is Ok && r11 is Err
                ==> t.to_val(h) == (h12, Err::<Val, GError>(r11->Err_0))
            &&& r0 is Ok && r1 is Ok && r2 is Ok && r3 is Ok && r4 is Ok && r5 is Ok
                && r6 is Ok && r7 is Ok && r8 is Ok && r9 is Ok && r10 is Ok && r11 is Ok
                ==> t.to_val(h) == (
                Store { arrs: h12.arrs.push(
                    seq![
                        r0->Ok_0.slot(),
                        r1->Ok_0.slot(),
                        r2->Ok_0.slot(),
                        r3->Ok_0.slot(),
                        r4->Ok_0.slot(),
                        r5->Ok_0.slot(),
                        r6->Ok_0.slot(),
                        r7->Ok_0.slot(),
                        r8->Ok_0.slot(),
                        r9->Ok_0.slot(),
                        r10->Ok_0.slot(),
                        r11->Ok_0.slot(),
                    ],
                ), ..h12 },
                Ok::<Val, GError>(Val::Arr(Root { id: h12.arrs.len() as usize, kind: Arr })),
            )
        }),
{
    let (h1, r0) = t.0.to_val(h);
    let (h2, r1) = t.1.to_val(h1);
    let (h3, r2) = t.2.to_val(h2);
    let (h4, r3) = t.3.to_val(h3);
    let (h5, r4) = t.4.to_val(h4);
    let (h6, r5) = t.5.to_val(h5);
    let (h7, r6) = t.6.to_val(h6);
    let (h8, r7) = t.7.to_val(h7);
    let (h9, r8) = t.8.to_val(h8);
    let (h10, r9) = t.9.to_val(h9);
    let (h11, r10) = t.10.to_val(h10);
    let (h12, r11) = t.11.to_val(h11);
    if r0 is Ok && r1 is Ok && r2 is Ok && r3 is Ok && r4 is Ok && r5 is Ok && r6 is Ok
        && r7 is Ok && r8 is Ok && r9 is Ok && r10 is Ok && r11 is Ok {
        assert(t.to_val(h).0.arrs.last() =~= seq![
            r0->Ok_0.slot(),
            r1->Ok_0.slot(),
            r2->Ok_0.slot(),
            r3->Ok_0.slot(),
            r4->Ok_0.slot(),
            r5->Ok_0.slot(),
            r6->Ok_0.slot(),
            r7->Ok_0.slot(),
            r8->Ok_0.slot(),
            r9->Ok_0.slot(),
            r10->Ok_0.slot(),
            r11->Ok_0.slot(),
        ]);
    }
}

/// The same by shared reference.
pub proof fn law_write_tuple_12_ref<'a, A, B, C, D, E, F, G, H, I, J, K, L>(
    t: &'a (A, B, C, D, E, F, G, H, I, J, K, L),
    h: Store,
) where &'a A: IntoVal, &'a B: IntoVal, &'a C: IntoVal, &'a D: IntoVal, &'a E: IntoVal,
    &'a F: IntoVal, &'a G: IntoVal, &'a H: IntoVal, &'a I: IntoVal, &'a J: IntoVal,
    &'a K: IntoVal, &'a L: IntoVal,
    ensures
        ({
            let (h1, r0) = (&t.0).to_val(h);
            let (h2, r1) = (&t.1).to_val(h1);
            let (h3, r2) = (&t.2).to_val(h2);
            let (h4, r3) = (&t.3).to_val(h3);
            let (h5, r4) = (&t.4).to_val(h4);
            let (h6, r5) = (&t.5).to_val(h5);
            let (h7, r6) = (&t.6).to_val(h6);
            let (h8, r7) = (&t.7).to_val(h7);
            let (h9, r8) = (&t.8).to_val(h8);
            let (h10, r9) = (&t.9).to_val(h9);
            let (h11, r10) = (&t.10).to_val(h10);
            let (h12, r11) = (&t.11).to_val(h11);
            &&& r0 is Err ==> t.to_val(h) == (h1, Err::<Val, GError>(r0->Err_0))
            &&& r0 is Ok && r1 is Err ==> t.to_val(h) == (h2, Err::<Val, GError>(r1->Err_0))
            &&& r0 is Ok && r1 is Ok && r2 is Err ==> t.to_val(h) == (
                h3,
                Err::<Val, GError>(r2->Err_0),
            )
            &&& r0 is Ok && r1 is Ok && r2 is Ok && r3 is Err ==> t.to_val(h) == (
                h4,
                Err::<Val, GError>(r3->Err_0),
            )
            &&& r0 is Ok && r1 is Ok && r2 is Ok && r3 is Ok && r4 is Err ==> t.to_val(h) == (
                h5,
                Err::<Val, GError>(r4->Err_0),
            )
            &&& r0 is Ok && r1 is Ok && r2 is Ok && r3 is Ok && r4 is Ok && r5 is Err
                ==> t.to_val(h) == (h6, Err::<Val, GError>(r5->Err_0))
            &&& r0 is Ok && r1 is Ok && r2 is Ok && r3 is Ok && r4 is Ok && r5 is Ok
                && r6 is Err ==> t.to_val(h) == (h7, Err::<Val, GError>(r6->Err_0))
            &&& r0 is Ok && r1 is Ok && r2 is Ok && r3 is Ok && r4 is Ok && r5 is Ok
                && r6 is Ok && r7 is Err ==> t.to_val(h) == (h8, Err::<Val, GError>(r7->Err_0))
            &&& r0 is Ok && r1 is Ok && r2 is Ok && r3 is Ok && r4 is Ok && r5 is Ok
                && r6 is Ok && r7 is Ok && r8 is Err ==> t.to_val(h)
                == (h9, Err::<Val, GError>(r8->Err_0))
            &&& r0 is Ok && r1 is Ok && r2 is Ok && r3 is Ok && r4 is Ok && r5 is Ok
                && r6 is Ok && r7 is Ok && r8 is Ok && r9 is Err ==> t.to_val(h)
                == (h10, Err::<Val, GError>(r9->Err_0))
            &&& r0 is Ok && r1 is Ok && r2 is Ok && r3 is Ok && r4 is Ok && r5 is Ok
                && r6 is Ok && r7 is Ok && r8 is Ok && r9 is Ok && r10 is Err ==> t.to_val(h)
                == (h11, Err::<Val, GError>(r10->Err_0))
            &&& r0 is Ok && r1 is Ok && r2 is Ok && r3 is Ok && r4 is Ok && r5 is Ok
                && r6 is Ok && r7 is Ok && r8 is Ok && r9 is Ok && r10 is Ok && r11 is Err
                ==> t.to_val(h) == (h12, Err::<Val, GError>(r11->Err_0))
            &&& r0 is Ok && r1 is Ok && r2 is Ok && r3 is Ok && r4 is Ok && r5 is Ok
                && r6 is Ok && r7 is Ok && r8 is Ok && r9 is Ok && r10 is Ok && r11 is Ok
                ==> t.to_val(h) == (
                Store { arrs: h12.arrs.push(
                    seq![
                        r0->Ok_0.slot(),
                        r1->Ok_0.slot(),
                        r2->Ok_0.slot(),
                        r3->Ok_0.slot(),
                        r4->Ok_0.slot(),
                        r5->Ok_0.slot(),
                        r6->Ok_0.slot(),
                        r7->Ok_0.slot(),
                        r8->Ok_0.slot(),
                        r9->Ok_0.slot(),
                        r10->Ok_0.slot(),
                        r11->Ok_0.slot(),
                    ],
                ), ..h12 },
                Ok::<Val, GError>(Val::Arr(Root { id: h12.arrs.len() as usize, kind: Arr })),
            )
        }),
{
    let (h1, r0) = (&t.0).to_val(h);
    let (h2, r1) = (&t.1).to_val(h1);
    let (h3, r2) = (&t.2).to_val(h2);
    let (h4, r3) = (&t.3).to_val(h3);
    let (h5, r4) = (&t.4).to_val(h4);
    let (h6, r5) = (&t.5).to_val(h5);
    let (h7, r6) = (&t.6).to_val(h6);
    let (h8, r7) = (&t.7).to_val(h7);
    let (h9, r8) = (&t.8).to_val(h8);
    let (h10, r9) = (&t.9).to_val(h9);
    let (h11, r10) = (&t.10).to_val(h10);
    let (h12, r11) = (&t.11).to_val(h11);
    if r0 is Ok && r1 is Ok && r2 is Ok && r3 is Ok && r4 is Ok && r5 is Ok && r6 is Ok
        && r7 is Ok && r8 is Ok && r9 is Ok && r10 is Ok && r11 is Ok {
        assert(t.to_val(h).0.arrs.last() =~= seq![
            r0->Ok_0.slot(),
            r1->Ok_0.slot(),
            r2->Ok_0.slot(),
            r3->Ok_0.slot(),
            r4->Ok_0.slot(),
            r5->Ok_0.slot(),
            r6->Ok_0.slot(),
            r7->Ok_0.slot(),
            r8->Ok_0.slot(),
            r9->Ok_0.slot(),
            r10->Ok_0.slot(),
            r11->Ok_0.slot(),
        ]);
    }
}

/// The same by mutable reference, with what is left of the fields.
pub proof fn law_write_tuple_12_mut<
    A: IntoValMut,
    B: IntoValMut,
    C: IntoValMut,
    D: IntoValMut,
    E: IntoValMut,
    F: IntoValMut,
    G: IntoValMut,
    H: IntoValMut,
    I: IntoValMut,
    J: IntoValMut,
    K: IntoValMut,
    L: IntoValMut,
>(t: (A, B, C, D, E, F, G, H, I, J, K, L), h: Store, after: (A, B, C, D, E, F, G, H, I, J, K, L))
    ensures
        ({
            let (h1, r0) = t.0.mut_to_val(h);
            let (h2, r1) = t.1.mut_to_val(h1);
            let (h3, r2) = t.2.mut_to_val(h2);
            let (h4, r3) = t.3.mut_to_val(h3);
            let (h5, r4) = t.4.mut_to_val(h4);
            let (h6, r5) = t.5.mut_to_val(h5);
            let (h7, r6) = t.6.mut_to_val(h6);
            let (h8, r7) = t.7.mut_to_val(h7);
            let (h9, r8) = t.8.mut_to_val(h8);
            let (h10, r9) = t.9.mut_to_val(h9);
            let (h11, r10) = t.10.mut_to_val(h10);
            let (h12, r11) = t.11.mut_to_val(h11);
            &&& r0 is Err ==> t.mut_to_val(h) == (h1, Err::<Val, GError>(r0->Err_0))
            &&& r0 is Ok && r1 is Err ==> t.mut_to_val(h) == (h2, Err::<Val, GError>(r1->Err_0))
            &&& r0 is Ok && r1 is Ok && r2 is Err ==> t.mut_to_val(h) == (
                h3,
                Err::<Val, GError>(r2->Err_0),
            )
            &&& r0 is Ok && r1 is Ok && r2 is Ok && r3 is Err ==> t.mut_to_val(h) == (
                h4,
                Err::<Val, GError>(r3->Err_0),
            )
            &&& r0 is Ok && r1 is Ok && r2 is Ok && r3 is Ok && r4 is Err ==> t.mut_to_val(h) == (
                h5,
                Err::<Val, GError>(r4->Err_0),
            )
            &&& r0 is Ok && r1 is Ok && r2 is Ok && r3 is Ok && r4 is Ok && r5 is Err
                ==> t.mut_to_val(h) == (h6, Err::<Val, GError>(r5->Err_0))
            &&& r0 is Ok && r1 is Ok && r2 is Ok && r3 is Ok && r4 is Ok && r5 is Ok
                && r6 is Err ==> t.mut_to_val(h) == (h7, Err::<Val, GError>(r6->Err_0))
            &&& r0 is Ok && r1 is Ok && r2 is Ok && r3 is Ok && r4 is Ok && r5 is Ok
                && r6 is Ok && r7 is Err ==> t.mut_to_val(h) == (h8, Err::<Val, GError>(r7->Err_0))
            &&& r0 is Ok && r1 is Ok && r2 is Ok && r3 is Ok && r4 is Ok && r5 is Ok
                && r6 is Ok && r7 is Ok && r8 is Err ==> t.mut_to_val(h)
                == (h9, Err::<Val, GError>(r8->Err_0))
            &&& r0 is Ok && r1 is Ok && r2 is Ok && r3 is Ok && r4 is Ok && r5 is Ok
                && r6 is Ok && r7 is Ok && r8 is Ok && r9 is Err ==> t.mut_to_val(h)
                == (h10, Err::<Val, GError>(r9->Err_0))
            &&& r0 is Ok && r1 is Ok && r2 is Ok && r3 is Ok && r4 is Ok && r5 is Ok
                && r6 is Ok && r7 is Ok && r8 is Ok && r9 is Ok && r10 is Err
                ==> t.mut_to_val(h) == (h11, Err::<Val, GError>(r10->Err_0))
            &&& r0 is Ok && r1 is Ok && r2 is Ok && r3 is Ok && r4 is Ok && r5 is Ok
                && r6 is Ok && r7 is Ok && r8 is Ok && r9 is Ok && r10 is Ok && r11 is Err
                ==> t.mut_to_val(h) == (h12, Err::<Val, GError>(r11->Err_0))
            &&& r0 is Ok && r1 is Ok && r2 is Ok && r3 is Ok && r4 is Ok && r5 is Ok
                && r6 is Ok && r7 is Ok && r8 is Ok && r9 is Ok && r10 is Ok && r11 is Ok
                ==> t.mut_to_val(h) == (
                Store { arrs: h12.arrs.push(
                    seq![
                        r0->Ok_0.slot(),
                        r1->Ok_0.slot(),
                        r2->Ok_0.slot(),
                        r3->Ok_0.slot(),
                        r4->Ok_0.slot(),
                        r5->Ok_0.slot(),
                        r6->Ok_0.slot(),
                        r7->Ok_0.slot(),
                        r8->Ok_0.slot(),
                        r9->Ok_0.slot(),
                        r10->Ok_0.slot(),
                        r11->Ok_0.slot(),
                    ],
                ), ..h12 },
                Ok::<Val, GError>(Val::Arr(Root { id: h12.arrs.len() as usize, kind: Arr })),
            )
            &&& t.leaves(h, after) ==> t.0.leaves(h, after.0)
            &&& t.leaves(h, after) ==> (if r0 is Ok { t.1.leaves(
                h1,
                after.1,
            ) } else { after.1 == t.1 })
            &&& t.leaves(h, after) ==> (if r0 is Ok && r1 is Ok { t.2.leaves(
                h2,
                after.2,
            ) } else { after.2 == t.2 })
            &&& t.leaves(h, after) ==> (if r0 is Ok && r1 is Ok && r2 is Ok { t.3.leaves(
                h3,
                after.3,
            ) } else { after.3 == t.3 })
            &&& t.leaves(h, after) ==> (if r0 is Ok && r1 is Ok && r2 is Ok
                && r3 is Ok { t.4.leaves(h4, after.4) } else { after.4 == t.4 })
            &&& t.leaves(h, after) ==> (if r0 is Ok && r1 is Ok && r2 is Ok && r3 is Ok
                && r4 is Ok { t.5.leaves(h5, after.5) } else { after.5 == t.5 })
            &&& t.leaves(h, after) ==> (if r0 is Ok && r1 is Ok && r2 is Ok && r3 is Ok
                && r4 is Ok && r5 is Ok { t.6.leaves(h6, after.6) } else { after.6 == t.6 })
            &&& t.leaves(h, after) ==> (if r0 is Ok && r1 is Ok && r2 is Ok && r3 is Ok
                && r4 is Ok && r5 is Ok && r6 is Ok { t.7.leaves(h7, after.7) } else { after.7
                == t.7 })
            &&& t.leaves(h, after) ==> (if r0 is Ok && r1 is Ok && r2 is Ok && r3 is Ok
                && r4 is Ok && r5 is Ok && r6 is Ok
                && r7 is Ok { t.8.leaves(h8, after.8) } else { after.8 == t.8 })
            &&& t.leaves(h, after) ==> (if r0 is Ok && r1 is Ok && r2 is Ok && r3 is Ok
                && r4 is Ok && r5 is Ok && r6 is Ok && r7 is Ok
                && r8 is Ok { t.9.leaves(h9, after.9) } else { after.9 == t.9 })
            &&& t.leaves(h, after) ==> (if r0 is Ok && r1 is Ok && r2 is Ok && r3 is Ok
                && r4 is Ok && r5 is Ok && r6 is Ok && r7 is Ok && r8 is Ok
                && r9 is Ok { t.10.leaves(h10, after.10) } else { after.10 == t.10 })
            &&& t.leaves(h, after) ==> (if r0 is Ok && r1 is Ok && r2 is Ok && r3 is Ok
                && r4 is Ok && r5 is Ok && r6 is Ok && r7 is Ok && r8 is Ok && r9 is Ok
                && r10 is Ok { t.11.leaves(h11, after.11) } else { after.11 == t.11 })
        }),
{
    let (h1, r0) = t.0.mut_to_val(h);
    let (h2, r1) = t.1.mut_to_val(h1);
    let (h3, r2) = t.2.mut_to_val(h2);
    let (h4, r3) = t.3.mut_to_val(h3);
    let (h5, r4) = t.4.mut_to_val(h4);
    let (h6, r5) = t.5.mut_to_val(h5);
    let (h7, r6) = t.6.mut_to_val(h6);
    let (h8, r7) = t.7.mut_to_val(h7);
    let (h9, r8) = t.8.mut_to_val(h8);
    let (h10, r9) = t.9.mut_to_val(h9);
    let (h11, r10) = t.10.mut_to_val(h10);
    let (h12, r11) = t.11.mut_to_val(h11);
    if r0 is Ok && r1 is Ok && r2 is Ok && r3 is Ok && r4 is Ok && r5 is Ok && r6 is Ok
        && r7 is Ok && r8 is Ok && r9 is Ok && r10 is Ok && r11 is Ok {
        assert(t.mut_to_val(h).0.arrs.last() =~= seq![
            r0->Ok_0.slot(),
            r1->Ok_0.slot(),
            r2->Ok_0.slot(),
            r3->Ok_0.slot(),
            r4->Ok_0.slot(),
            r5->Ok_0.slot(),
            r6->Ok_0.slot(),
            r7->Ok_0.slot(),
            r8->Ok_0.slot(),
            r9->Ok_0.slot(),
            r10->Ok_0.slot(),
            r11->Ok_0.slot(),
        ]);
    }
}

/// Entries whose keys and values are converted one after another: the `i`th key finds `heaps[i]`,
/// leaves `between[i]` and gives `keys[i]`; its value finds that, leaves `heaps[i + 1]` and gives
/// `values[i]`.
spec fn entries_in_turn<A: IntoVal, B: IntoVal>(
    pairs: Seq<(A, B)>,
    heaps: Seq<Store>,
    between: Seq<Store>,
    keys: Seq<GResult<Val>>,
    values: Seq<GResult<Val>>,
) -> bool {
    &&& heaps.len() == pairs.len() + 1
    &&& between.len() == pairs.len()
    &&& keys.len() == pairs.len()
    &&& values.len() == pairs.len()
    &&& forall|i: int|
        0 <= i < pairs.len() ==> (#[trigger] pairs[i]).0.to_val(heaps[i]) == (between[i], keys[i])
            && pairs[i].1.to_val(between[i]) == (heaps[i + 1], values[i])
}

/// The same of entries whose keys are converted by shared reference, and the values by mutable
/// reference.
spec fn mut_entries_in_turn<'a, K: 'a, V: IntoValMut>(
    pairs: Seq<(K, V)>,
    heaps: Seq<Store>,
    between: Seq<Store>,
    keys: Seq<GResult<Val>>,
    values: Seq<GResult<Val>>,
) -> bool where &'a K: IntoVal {
    &&& heaps.len() == pairs.len() + 1
    &&& between.len() == pairs.len()
    &&& keys.len() == pairs.len()
    &&& values.len() == pairs.len()
    &&& forall|i: int|
        0 <= i < pairs.len() ==> (&(#[trigger] pairs[i]).0).to_val(heaps[i]) == (
            between[i],
            keys[i],
        ) && pairs[i].1.mut_to_val(between[i]) == (heaps[i + 1], values[i])
}

/// The entries of the first `k` keys and values.
spec fn entries_made(
    keys: Seq<GResult<Val>>,
    values: Seq<GResult<Val>>,
    k: int,
) -> Seq<(Slot, Slot)> {
    Seq::new(k as nat, |i: int| (keys[i]->Ok_0.slot(), values[i]->Ok_0.slot()))
}

/// No key from the `i`th to the `k`th has the slot of the `i`th.
spec fn latest(keys: Seq<GResult<Val>>, i: int, k: int) -> bool {
    forall|j: int| i < j < k ==> (#[trigger] keys[j])->Ok_0.slot() != keys[i]->Ok_0.slot()
}

/// `entries` are those of the first `k` keys and values, of every key the latest.
#[verifier::opaque]
spec fn holds_latest(
    entries: Seq<(Slot, Slot)>,
    keys: Seq<GResult<Val>>,
    values: Seq<GResult<Val>>,
    k: int,
) -> bool {
    &&& distinct(entries)
    &&& forall|i: int|
        0 <= i < k && latest(keys, i, k) ==> entries.contains(
            ((#[trigger] keys[i])->Ok_0.slot(), values[i]->Ok_0.slot()),
        )
    &&& forall|m: int|
        0 <= m < entries.len() ==> exists|i: int|
            0 <= i < k && latest(keys, i, k) && #[trigger] entries[m] == (
                (#[trigger] keys[i])->Ok_0.slot(),
                values[i]->Ok_0.slot(),
            )
}

proof fn lemma_latest(
    entries: Seq<(Slot, Slot)>,
    keys: Seq<GResult<Val>>,
    values: Seq<GResult<Val>>,
    k: int,
)
    requires
        0 < k <= keys.len(),
        holds_latest(entries, keys, values, k - 1),
    ensures
        holds_latest(
            put(entries, keys[k - 1]->Ok_0.slot(), values[k - 1]->Ok_0.slot()),
            keys,
            values,
            k,
        ),
{
    reveal(holds_latest);
    let key = keys[k - 1]->Ok_0.slot();
    let value = values[k - 1]->Ok_0.slot();
    let now = put(entries, key, value);
    let at = if exists|i: int| 0 <= i < entries.len() && (#[trigger] entries[i]).0 == key {
        choose|i: int| 0 <= i < entries.len() && (#[trigger] entries[i]).0 == key
    } else {
        entries.len() as int
    };
    law_set_key(entries, key, value, at);
    assert(0 <= at < now.len() && now[at] == (key, value));
    assert forall|m: int| 0 <= m < entries.len() && m != at implies #[trigger] now[m]
        == entries[m] by {
    }
    assert forall|i: int, j: int| 0 <= i < j < now.len() implies (#[trigger] now[i]).0 != (
    #[trigger] now[j]).0 by {
        if i != at && j != at {
            assert(entries[i].0 != entries[j].0);
        } else if i == at {
            assert(entries[j].0 != key);
        } else {
            assert(entries[i].0 != key);
        }
    }
    assert forall|i: int| 0 <= i < k && latest(keys, i, k) implies now.contains(
        ((#[trigger] keys[i])->Ok_0.slot(), values[i]->Ok_0.slot()),
    ) by {
        let entry = (keys[i]->Ok_0.slot(), values[i]->Ok_0.slot());
        if i < k - 1 {
            assert(keys[k - 1]->Ok_0.slot() != keys[i]->Ok_0.slot());
            assert(latest(keys, i, k - 1));
            let m = choose|m: int| 0 <= m < entries.len() && entries[m] == entry;
            assert(entries.contains(entry));
            assert(m != at);
            assert(now[m] == entry);
        }
    }
    assert forall|m: int| 0 <= m < now.len() implies exists|i: int|
        0 <= i < k && latest(keys, i, k) && #[trigger] now[m] == (
            (#[trigger] keys[i])->Ok_0.slot(),
            values[i]->Ok_0.slot(),
        ) by {
        if m == at {
            assert(latest(keys, k - 1, k));
            assert(now[m] == (keys[k - 1]->Ok_0.slot(), values[k - 1]->Ok_0.slot()));
        } else {
            assert(now[m] == entries[m]);
            let i = choose|i: int|
                0 <= i < k - 1 && latest(keys, i, k - 1) && entries[m] == (
                    (#[trigger] keys[i])->Ok_0.slot(),
                    values[i]->Ok_0.slot(),
                );
            assert(entries[m].0 != key);
            assert(latest(keys, i, k));
            assert(now[m] == (keys[i]->Ok_0.slot(), values[i]->Ok_0.slot()));
        }
    }
}

/// `r` is what becomes of a map whose entries, converted one after another, went through `heaps`
/// and `between` and gave `keys` and `values`: a new table of their slots, in that order, where
/// none failed and the keys are apart; else the first failure, and nothing after it has happened.
spec fn table_of(
    heaps: Seq<Store>,
    between: Seq<Store>,
    keys: Seq<GResult<Val>>,
    values: Seq<GResult<Val>>,
    k: int,
    r: (Store, GResult<Val>),
) -> bool {
    let n = keys.len() as int;
    let end = heaps[n];
    &&& good_before(keys, n) && good_before(values, n) ==> {
        let entries = r.0.tabs.last();
        &&& r.0 == (Store { tabs: end.tabs.push(entries), ..end })
        &&& r.1 == Ok::<Val, GError>(Val::Tab(Root { id: end.tabs.len() as usize, kind: Tab }))
        &&& distinct(entries_made(keys, values, n)) ==> entries == entries_made(keys, values, n)
        &&& holds_latest(entries, keys, values, n)
    }
    &&& 0 <= k < n && good_before(keys, k) && good_before(values, k) && keys[k] is Err ==> r == (
        between[k],
        Err::<Val, GError>(keys[k]->Err_0),
    )
    &&& 0 <= k < n && good_before(keys, k) && good_before(values, k) && keys[k] is Ok
        && values[k] is Err ==> r == (heaps[k + 1], Err::<Val, GError>(values[k]->Err_0))
}

/// To set a key of a table is to change the entry of that key in its own place, or to add one after
/// the others where it has none.
pub proof fn law_set_key(entries: Seq<(Slot, Slot)>, key: Slot, value: Slot, at: int)
    requires
        0 <= at <= entries.len(),
        at < entries.len() ==> entries[at].0 == key,
        forall|i: int| 0 <= i < at ==> (#[trigger] entries[i]).0 != key,
    ensures
        at < entries.len() ==> put(entries, key, value) == entries.update(at, (key, value)),
        at == entries.len() ==> put(entries, key, value) == entries.push((key, value)),
    decreases entries.len(),
{
    if entries.len() == 0 {
        assert(put(entries, key, value) =~= entries.push((key, value)));
    } else if at == 0 {
        assert(put(entries, key, value) =~= entries.update(0, (key, value)));
    } else {
        let rest = entries.drop_first();
        assert forall|i: int| 0 <= i < at - 1 implies (#[trigger] rest[i]).0 != key by {
            assert(rest[i] == entries[i + 1]);
        }
        if at < entries.len() {
            assert(rest[at - 1] == entries[at]);
        }
        law_set_key(rest, key, value, at - 1);
        if at < entries.len() {
            assert(put(entries, key, value) =~= entries.update(at, (key, value)));
        } else {
            assert(put(entries, key, value) =~= entries.push((key, value)));
        }
    }
}

/// A listing of a map holds every entry of it once, and nothing else.
pub proof fn law_listing<K, V>(pairs: Seq<(K, V)>, map: Map<K, V>)
    ensures
        lists(pairs, map) ==> {
            &&& distinct(pairs)
            &&& forall|i: int|
                0 <= i < pairs.len() ==> map.contains_key((#[trigger] pairs[i]).0)
                    && map[pairs[i].0] == pairs[i].1
            &&& forall|key: K| #[trigger]
                map.contains_key(key) ==> exists|i: int|
                    0 <= i < pairs.len() && #[trigger] pairs[i] == (key, map[key])
        },
{
    if lists(pairs, map) {
        crate::into_map::lemma_listed_keys(pairs, map);
        assert forall|key: K| #[trigger] map.contains_key(key) implies exists|i: int|
            0 <= i < pairs.len() && #[trigger] pairs[i] == (key, map[key]) by {
            assert(map.kv_pairs().contains((key, map[key])));
            assert(pairs.to_set().contains((key, map[key])));
            let i = pairs.index_of((key, map[key]));
            assert(pairs[i] == (key, map[key]));
        }
    }
}

proof fn lemma_entries<A: IntoVal, B: IntoVal>(
    pairs: Seq<(A, B)>,
    heaps: Seq<Store>,
    between: Seq<Store>,
    keys: Seq<GResult<Val>>,
    values: Seq<GResult<Val>>,
    k: int,
)
    requires
        entries_in_turn(pairs, heaps, between, keys, values),
        0 <= k <= pairs.len(),
        good_before(keys, k),
        good_before(values, k),
    ensures
        entered_all(heaps[0], pairs.take(k)).0 == heaps[k],
        entered_all(heaps[0], pairs.take(k)).1 is Ok,
        distinct(
            entries_made(keys, values, k),
        ) ==> entered_all(heaps[0], pairs.take(k)).1 == Ok::<Seq<(Slot, Slot)>, GError>(
            entries_made(keys, values, k),
        ),
        holds_latest(entered_all(heaps[0], pairs.take(k)).1->Ok_0, keys, values, k),
    decreases k,
{
    if k == 0 {
        assert(pairs.take(0) =~= seq![]);
        assert(entries_made(keys, values, 0) =~= seq![]);
        reveal(holds_latest);
    } else {
        lemma_entries(pairs, heaps, between, keys, values, k - 1);
        assert(pairs.take(k).drop_last() =~= pairs.take(k - 1));
        assert(pairs.take(k).last() == pairs[k - 1]);
        assert(pairs[k - 1].0.to_val(heaps[k - 1]) == (between[k - 1], keys[k - 1]));
        assert(keys[k - 1] is Ok && values[k - 1] is Ok);
        lemma_latest(entered_all(heaps[0], pairs.take(k - 1)).1->Ok_0, keys, values, k);
        if distinct(entries_made(keys, values, k)) {
            let made = entries_made(keys, values, k);
            let fewer = entries_made(keys, values, k - 1);
            assert forall|i: int, j: int| 0 <= i < j < fewer.len() implies (#[trigger] fewer[i]).0
                != (#[trigger] fewer[j]).0 by {
                assert(fewer[i] == made[i] && fewer[j] == made[j]);
            }
            assert forall|i: int| 0 <= i < fewer.len()
                implies (#[trigger] fewer[i]).0 != made[k - 1].0 by {
                assert(fewer[i] == made[i]);
            }
            law_set_key(fewer, made[k - 1].0, made[k - 1].1, k - 1);
            assert(made =~= fewer.push(made[k - 1]));
        }
    }
}

proof fn lemma_failed_entries<A: IntoVal, B: IntoVal>(
    pairs: Seq<(A, B)>,
    heaps: Seq<Store>,
    between: Seq<Store>,
    keys: Seq<GResult<Val>>,
    values: Seq<GResult<Val>>,
    k: int,
    upto: int,
)
    requires
        entries_in_turn(pairs, heaps, between, keys, values),
        0 <= k < upto <= pairs.len(),
        good_before(keys, k),
        good_before(values, k),
        keys[k] is Err || values[k] is Err,
    ensures
        keys[k] is Err ==> entered_all(heaps[0], pairs.take(upto)) == (
            between[k],
            Err::<Seq<(Slot, Slot)>, GError>(keys[k]->Err_0),
        ),
        keys[k] is Ok ==> entered_all(heaps[0], pairs.take(upto)) == (
            heaps[k + 1],
            Err::<Seq<(Slot, Slot)>, GError>(values[k]->Err_0),
        ),
    decreases upto,
{
    assert(pairs.take(upto).drop_last() =~= pairs.take(upto - 1));
    assert(pairs.take(upto).last() == pairs[upto - 1]);
    if upto == k + 1 {
        lemma_entries(pairs, heaps, between, keys, values, k);
        assert(pairs[k].0.to_val(heaps[k]) == (between[k], keys[k]));
    } else {
        lemma_failed_entries(pairs, heaps, between, keys, values, k, upto - 1);
    }
}

proof fn lemma_table<A: IntoVal, B: IntoVal>(
    pairs: Seq<(A, B)>,
    heaps: Seq<Store>,
    between: Seq<Store>,
    keys: Seq<GResult<Val>>,
    values: Seq<GResult<Val>>,
    k: int,
    r: (Store, GResult<Val>),
)
    requires
        entries_in_turn(pairs, heaps, between, keys, values),
        ({
            let run = entered_all(heaps[0], pairs);
            &&& run.1 matches Ok(entries) ==> r == (
                Store { tabs: run.0.tabs.push(entries), ..run.0 },
                Ok::<Val, GError>(Val::Tab(Root { id: run.0.tabs.len() as usize, kind: Tab })),
            )
            &&& run.1 matches Err(e) ==> r == (run.0, Err::<Val, GError>(e))
        }),
    ensures
        table_of(heaps, between, keys, values, k, r),
{
    let n = pairs.len() as int;
    assert(pairs.take(n) =~= pairs);
    if good_before(keys, n) && good_before(values, n) {
        lemma_entries(pairs, heaps, between, keys, values, n);
    }
    if 0 <= k < n && good_before(keys, k) && good_before(values, k) && (keys[k] is Err
        || values[k] is Err) {
        lemma_failed_entries(pairs, heaps, between, keys, values, k, n);
    }
}

proof fn lemma_mut_entries<'a, K: 'a, V: IntoValMut>(
    pairs: Seq<(K, V)>,
    heaps: Seq<Store>,
    between: Seq<Store>,
    keys: Seq<GResult<Val>>,
    values: Seq<GResult<Val>>,
    k: int,
) where &'a K: IntoVal
    requires
        mut_entries_in_turn::<K, V>(pairs, heaps, between, keys, values),
        0 <= k <= pairs.len(),
        good_before(keys, k),
        good_before(values, k),
    ensures
        mut_entered_all::<K, V>(heaps[0], pairs.take(k)).0 == heaps[k],
        mut_entered_all::<K, V>(heaps[0], pairs.take(k)).1 is Ok,
        distinct(
            entries_made(keys, values, k),
        ) ==> mut_entered_all::<K, V>(heaps[0], pairs.take(k)).1 == Ok::<Seq<(Slot, Slot)>, GError>(
            entries_made(keys, values, k),
        ),
        holds_latest(mut_entered_all::<K, V>(heaps[0], pairs.take(k)).1->Ok_0, keys, values, k),
    decreases k,
{
    if k == 0 {
        assert(pairs.take(0) =~= seq![]);
        assert(entries_made(keys, values, 0) =~= seq![]);
        reveal(holds_latest);
    } else {
        lemma_mut_entries::<K, V>(pairs, heaps, between, keys, values, k - 1);
        assert(pairs.take(k).drop_last() =~= pairs.take(k - 1));
        assert(pairs.take(k).last() == pairs[k - 1]);
        assert((&pairs[k - 1].0).to_val(heaps[k - 1]) == (between[k - 1], keys[k - 1]));
        assert(keys[k - 1] is Ok && values[k - 1] is Ok);
        lemma_latest(mut_entered_all::<K, V>(heaps[0], pairs.take(k - 1)).1->Ok_0, keys, values, k);
        if distinct(entries_made(keys, values, k)) {
            let made = entries_made(keys, values, k);
            let fewer = entries_made(keys, values, k - 1);
            assert forall|i: int, j: int| 0 <= i < j < fewer.len() implies (#[trigger] fewer[i]).0
                != (#[trigger] fewer[j]).0 by {
                assert(fewer[i] == made[i] && fewer[j] == made[j]);
            }
            assert forall|i: int| 0 <= i < fewer.len()
                implies (#[trigger] fewer[i]).0 != made[k - 1].0 by {
                assert(fewer[i] == made[i]);
            }
            law_set_key(fewer, made[k - 1].0, made[k - 1].1, k - 1);
            assert(made =~= fewer.push(made[k - 1]));
        }
    }
}

proof fn lemma_mut_failed_entries<'a, K: 'a, V: IntoValMut>(
    pairs: Seq<(K, V)>,
    heaps: Seq<Store>,
    between: Seq<Store>,
    keys: Seq<GResult<Val>>,
    values: Seq<GResult<Val>>,
    k: int,
    upto: int,
) where &'a K: IntoVal
    requires
        mut_entries_in_turn::<K, V>(pairs, heaps, between, keys, values),
        0 <= k < upto <= pairs.len(),
        good_before(keys, k),
        good_before(values, k),
        keys[k] is Err || values[k] is Err,
    ensures
        keys[k] is Err ==> mut_entered_all::<K, V>(heaps[0], pairs.take(upto)) == (
            between[k],
            Err::<Seq<(Slot, Slot)>, GError>(keys[k]->Err_0),
        ),
        keys[k] is Ok ==> mut_entered_all::<K, V>(heaps[0], pairs.take(upto)) == (
            heaps[k + 1],
            Err::<Seq<(Slot, Slot)>, GError>(values[k]->Err_0),
        ),
    decreases upto,
{
    assert(pairs.take(upto).drop_last() =~= pairs.take(upto - 1));
    assert(pairs.take(upto).last() == pairs[upto - 1]);
    if upto == k + 1 {
        lemma_mut_entries::<K, V>(pairs, heaps, between, keys, values, k);
        assert((&pairs[k].0).to_val(heaps[k]) == (between[k], keys[k]));
    } else {
        lemma_mut_failed_entries::<K, V>(pairs, heaps, between, keys, values, k, upto - 1);
    }
}

proof fn lemma_mut_table<'a, K: 'a, V: IntoValMut>(
    pairs: Seq<(K, V)>,
    heaps: Seq<Store>,
    between: Seq<Store>,
    keys: Seq<GResult<Val>>,
    values: Seq<GResult<Val>>,
    k: int,
    r: (Store, GResult<Val>),
) where &'a K: IntoVal
    requires
        mut_entries_in_turn::<K, V>(pairs, heaps, between, keys, values),
        ({
            let run = mut_entered_all::<K, V>(heaps[0], pairs);
            &&& run.1 matches Ok(entries) ==> r == (
                Store { tabs: run.0.tabs.push(entries), ..run.0 },
                Ok::<Val, GError>(Val::Tab(Root { id: run.0.tabs.len() as usize, kind: Tab })),
            )
            &&& run.1 matches Err(e) ==> r == (run.0, Err::<Val, GError>(e))
        }),
    ensures
        table_of(heaps, between, keys, values, k, r),
{
    let n = pairs.len() as int;
    assert(pairs.take(n) =~= pairs);
    if good_before(keys, n) && good_before(values, n) {
        lemma_mut_entries::<K, V>(pairs, heaps, between, keys, values, n);
    }
    if 0 <= k < n && good_before(keys, k) && good_before(values, k) && (keys[k] is Err
        || values[k] is Err) {
        lemma_mut_failed_entries::<K, V>(pairs, heaps, between, keys, values, k, n);
    }
}

/// Finds the first entry of which the key or the value is an error.
proof fn lemma_first_bad_entry(
    keys: Seq<GResult<Val>>,
    values: Seq<GResult<Val>>,
    n: int,
) -> (k: int)
    requires
        0 <= n <= keys.len(),
        n <= values.len(),
        !(good_before(keys, n) && good_before(values, n)),
    ensures
        0 <= k < n,
        good_before(keys, k),
        good_before(values, k),
        keys[k] is Err || values[k] is Err,
    decreases n,
{
    if good_before(keys, n - 1) && good_before(values, n - 1) {
        n - 1
    } else {
        lemma_first_bad_entry(keys, values, n - 1)
    }
}

/// The entries of a map by reference are its entries, each in its own place.
pub proof fn law_entries_by_ref<K, V>(pairs: Seq<(K, V)>, i: int)
    ensures
        ref_pairs(pairs).len() == pairs.len(),
        0 <= i < pairs.len() ==> *ref_pairs(pairs)[i].0 == pairs[i].0 && *ref_pairs(pairs)[i].1
            == pairs[i].1,
{
}

/// The entries of an ordered map stand in the order of their keys.
pub proof fn law_ascending<K, V>(pairs: Seq<(K, V)>)
    ensures
        ascending(pairs) <==> increasing_seq(Seq::new(pairs.len(), |i: int| pairs[i].0)),
{
    assert(keys_of(pairs) =~= Seq::new(pairs.len(), |i: int| pairs[i].0));
}

/// A `HashMap` becomes a new table: of each entry the key and then the value are converted, in
/// their order, and each key has the slot of its own value. Where two keys have one slot, the later
/// counts. The first that fails is the reason, and nothing after it happens.
pub proof fn law_write_hash_map<K, V, S>(
    map: HashMap<K, V, S>,
    heaps: Seq<Store>,
    between: Seq<Store>,
    keys: Seq<GResult<Val>>,
    values: Seq<GResult<Val>>,
    k: int,
) where
    K: HashEqMarker + Copy + IntoVal,
    V: IntoVal,
    S: BuildHasherDefaultMarker,

    requires
        heaps.len() == hash_pairs(map).len() + 1,
        between.len() == hash_pairs(map).len(),
        keys.len() == hash_pairs(map).len(),
        values.len() == hash_pairs(map).len(),
        forall|i: int|
            0 <= i < hash_pairs(map).len()
                ==> (#[trigger] hash_pairs(map)[i]).0.to_val(heaps[i]) == (between[i], keys[i])
                && hash_pairs(map)[i].1.to_val(between[i]) == (heaps[i + 1], values[i]),
    ensures
        (forall|i: int| 0 <= i < keys.len() ==> (#[trigger] keys[i]) is Ok && values[i] is Ok) ==> {
            let end = heaps[keys.len() as int];
            let entries = map.to_val(heaps[0]).0.tabs.last();
            &&& map.to_val(heaps[0]).0 == (Store { tabs: end.tabs.push(entries), ..end })
            &&& map.to_val(heaps[0]).1 == Ok::<Val, GError>(
                Val::Tab(Root { id: end.tabs.len() as usize, kind: Tab }),
            )
            &&& forall|i: int, j: int|
                0 <= i < j < entries.len()
                    ==> (#[trigger] entries[i]).0 != (#[trigger] entries[j]).0
            &&& 0 <= k < keys.len() && (forall|j: int|
                k < j < keys.len()
                    ==> (#[trigger] keys[j])->Ok_0.slot() != keys[k]->Ok_0.slot())
                    ==> entries.contains(
                (keys[k]->Ok_0.slot(), values[k]->Ok_0.slot()),
            )
            &&& 0 <= k < entries.len() ==> exists|i: int|
                0 <= i < keys.len() && entries[k] == (
                    (#[trigger] keys[i])->Ok_0.slot(),
                    values[i]->Ok_0.slot(),
                )
            &&& (forall|i: int, j: int|
                0 <= i < j < keys.len()
                    ==> (#[trigger] keys[i])->Ok_0.slot() != (#[trigger] keys[j])->Ok_0.slot())
                ==> entries == Seq::new(
                keys.len(),
                |i: int| (keys[i]->Ok_0.slot(), values[i]->Ok_0.slot()),
            )
        },
        0 <= k < keys.len() && (forall|i: int|
            0 <= i < k ==> (#[trigger] keys[i]) is Ok && values[i] is Ok) ==> {
            &&& keys[k] is Err ==> map.to_val(heaps[0]) == (
                between[k],
                Err::<Val, GError>(keys[k]->Err_0),
            )
            &&& keys[k] is Ok && values[k] is Err ==> map.to_val(heaps[0]) == (
                heaps[k + 1],
                Err::<Val, GError>(values[k]->Err_0),
            )
        },
{
    assert(entries_in_turn(hash_pairs(map), heaps, between, keys, values));
    lemma_table(hash_pairs(map), heaps, between, keys, values, k, map.to_val(heaps[0]));
    lemma_table_told(heaps, between, keys, values, k, map.to_val(heaps[0]));
    lemma_failure_told(heaps, between, keys, values, k, map.to_val(heaps[0]));
}

/// The same by shared reference.
pub proof fn law_write_hash_map_ref<'a, K, V, S>(
    map: &'a HashMap<K, V, S>,
    heaps: Seq<Store>,
    between: Seq<Store>,
    keys: Seq<GResult<Val>>,
    values: Seq<GResult<Val>>,
    k: int,
) where
    K: HashEqMarker,
    &'a K: IntoVal,
    &'a V: IntoVal,
    S: BuildHasherDefaultMarker,

    requires
        heaps.len() == hash_pairs(*map).len() + 1,
        between.len() == hash_pairs(*map).len(),
        keys.len() == hash_pairs(*map).len(),
        values.len() == hash_pairs(*map).len(),
        forall|i: int|
            0 <= i < hash_pairs(*map).len()
                ==> (&(#[trigger] hash_pairs(*map)[i]).0).to_val(heaps[i])
                == (between[i], keys[i]) && (&hash_pairs(*map)[i].1).to_val(between[i])
                == (heaps[i + 1], values[i]),
    ensures
        (forall|i: int| 0 <= i < keys.len() ==> (#[trigger] keys[i]) is Ok && values[i] is Ok) ==> {
            let end = heaps[keys.len() as int];
            let entries = map.to_val(heaps[0]).0.tabs.last();
            &&& map.to_val(heaps[0]).0 == (Store { tabs: end.tabs.push(entries), ..end })
            &&& map.to_val(heaps[0]).1 == Ok::<Val, GError>(
                Val::Tab(Root { id: end.tabs.len() as usize, kind: Tab }),
            )
            &&& forall|i: int, j: int|
                0 <= i < j < entries.len()
                    ==> (#[trigger] entries[i]).0 != (#[trigger] entries[j]).0
            &&& 0 <= k < keys.len() && (forall|j: int|
                k < j < keys.len()
                    ==> (#[trigger] keys[j])->Ok_0.slot() != keys[k]->Ok_0.slot())
                    ==> entries.contains(
                (keys[k]->Ok_0.slot(), values[k]->Ok_0.slot()),
            )
            &&& 0 <= k < entries.len() ==> exists|i: int|
                0 <= i < keys.len() && entries[k] == (
                    (#[trigger] keys[i])->Ok_0.slot(),
                    values[i]->Ok_0.slot(),
                )
            &&& (forall|i: int, j: int|
                0 <= i < j < keys.len()
                    ==> (#[trigger] keys[i])->Ok_0.slot() != (#[trigger] keys[j])->Ok_0.slot())
                ==> entries == Seq::new(
                keys.len(),
                |i: int| (keys[i]->Ok_0.slot(), values[i]->Ok_0.slot()),
            )
        },
        0 <= k < keys.len() && (forall|i: int|
            0 <= i < k ==> (#[trigger] keys[i]) is Ok && values[i] is Ok) ==> {
            &&& keys[k] is Err ==> map.to_val(heaps[0]) == (
                between[k],
                Err::<Val, GError>(keys[k]->Err_0),
            )
            &&& keys[k] is Ok && values[k] is Err ==> map.to_val(heaps[0]) == (
                heaps[k + 1],
                Err::<Val, GError>(values[k]->Err_0),
            )
        },
{
    let pairs = ref_pairs(hash_pairs(*map));
    assert forall|i: int| 0 <= i < pairs.len() implies (#[trigger] pairs[i]).0.to_val(heaps[i]) == (
        between[i],
        keys[i],
    ) && pairs[i].1.to_val(between[i]) == (heaps[i + 1], values[i]) by {
        assert(pairs[i].0 == &hash_pairs(*map)[i].0 && pairs[i].1 == &hash_pairs(*map)[i].1);
    }
    assert(entries_in_turn::<&K, &V>(pairs, heaps, between, keys, values));
    lemma_table::<&K, &V>(pairs, heaps, between, keys, values, k, map.to_val(heaps[0]));
    lemma_table_told(heaps, between, keys, values, k, map.to_val(heaps[0]));
    lemma_failure_told(heaps, between, keys, values, k, map.to_val(heaps[0]));
}

/// The same by mutable reference: of each entry the value is converted by mutable reference. What
/// is left is the same keys, and under each what the conversion of its value leaves, or the value
/// itself where nothing was converted.
pub proof fn law_write_hash_map_mut<K, V, S>(
    map: HashMap<K, V, S>,
    heaps: Seq<Store>,
    between: Seq<Store>,
    keys: Seq<GResult<Val>>,
    values: Seq<GResult<Val>>,
    k: int,
    after: HashMap<K, V, S>,
) where
    K: HashEqMarker + Copy,
    for <'b>&'b K: IntoVal,
    V: IntoValMut,
    S: BuildHasherDefaultMarker,

    requires
        heaps.len() == hash_pairs(map).len() + 1,
        between.len() == hash_pairs(map).len(),
        keys.len() == hash_pairs(map).len(),
        values.len() == hash_pairs(map).len(),
        forall|i: int|
            0 <= i < hash_pairs(map).len()
                ==> (&(#[trigger] hash_pairs(map)[i]).0).to_val(heaps[i])
                == (between[i], keys[i]) && hash_pairs(map)[i].1.mut_to_val(between[i])
                == (heaps[i + 1], values[i]),
    ensures
        (forall|i: int| 0 <= i < keys.len() ==> (#[trigger] keys[i]) is Ok && values[i] is Ok) ==> {
            let end = heaps[keys.len() as int];
            let entries = map.mut_to_val(heaps[0]).0.tabs.last();
            &&& map.mut_to_val(heaps[0]).0 == (Store { tabs: end.tabs.push(entries), ..end })
            &&& map.mut_to_val(heaps[0]).1 == Ok::<Val, GError>(
                Val::Tab(Root { id: end.tabs.len() as usize, kind: Tab }),
            )
            &&& forall|i: int, j: int|
                0 <= i < j < entries.len()
                    ==> (#[trigger] entries[i]).0 != (#[trigger] entries[j]).0
            &&& 0 <= k < keys.len() && (forall|j: int|
                k < j < keys.len()
                    ==> (#[trigger] keys[j])->Ok_0.slot() != keys[k]->Ok_0.slot())
                    ==> entries.contains(
                (keys[k]->Ok_0.slot(), values[k]->Ok_0.slot()),
            )
            &&& 0 <= k < entries.len() ==> exists|i: int|
                0 <= i < keys.len() && entries[k] == (
                    (#[trigger] keys[i])->Ok_0.slot(),
                    values[i]->Ok_0.slot(),
                )
            &&& (forall|i: int, j: int|
                0 <= i < j < keys.len()
                    ==> (#[trigger] keys[i])->Ok_0.slot() != (#[trigger] keys[j])->Ok_0.slot())
                ==> entries == Seq::new(
                keys.len(),
                |i: int| (keys[i]->Ok_0.slot(), values[i]->Ok_0.slot()),
            )
        },
        0 <= k < keys.len() && (forall|i: int|
            0 <= i < k ==> (#[trigger] keys[i]) is Ok && values[i] is Ok) ==> {
            &&& keys[k] is Err ==> map.mut_to_val(heaps[0]) == (
                between[k],
                Err::<Val, GError>(keys[k]->Err_0),
            )
            &&& keys[k] is Ok && values[k] is Err ==> map.mut_to_val(heaps[0]) == (
                heaps[k + 1],
                Err::<Val, GError>(values[k]->Err_0),
            )
        },
        map.leaves(heaps[0], after) ==> after@.dom() == map@.dom(),
        map.leaves(heaps[0], after) && 0 <= k < keys.len() && (forall|i: int|
            0 <= i < k ==> (#[trigger] keys[i]) is Ok && values[i] is Ok) ==> {
            let (key, value) = hash_pairs(map)[k];
            &&& keys[k] is Ok ==> value.leaves(between[k], after@[key])
            &&& keys[k] is Err ==> after@[key] == value
        },
        map.leaves(heaps[0], after) && 0 <= k < keys.len() && (exists|i: int|
            0 <= i < k && ((#[trigger] keys[i]) is Err || values[i] is Err)) ==> {
            let (key, value) = hash_pairs(map)[k];
            after@[key] == value
        },
{
    let pairs = hash_pairs(map);
    assert(mut_entries_in_turn::<K, V>(pairs, heaps, between, keys, values));
    lemma_mut_table::<K, V>(pairs, heaps, between, keys, values, k, map.mut_to_val(heaps[0]));
    lemma_table_told(heaps, between, keys, values, k, map.mut_to_val(heaps[0]));
    lemma_failure_told(heaps, between, keys, values, k, map.mut_to_val(heaps[0]));
    if map.leaves(heaps[0], after) && 0 <= k < keys.len() {
        lemma_value_told::<K, V>(pairs, heaps, between, keys, values, map@, after@, k);
    }
}

/// A `BTreeMap` becomes a new table: of each entry the key and then the value are converted, in
/// their order, and each key has the slot of its own value. Where two keys have one slot, the later
/// counts. The first that fails is the reason, and nothing after it happens.
pub proof fn law_write_btree_map<K, V>(
    map: BTreeMap<K, V>,
    heaps: Seq<Store>,
    between: Seq<Store>,
    keys: Seq<GResult<Val>>,
    values: Seq<GResult<Val>>,
    k: int,
) where
    K: OrdMarker + Copy + IntoVal,
    V: IntoVal,

    requires
        heaps.len() == btree_pairs(map).len() + 1,
        between.len() == btree_pairs(map).len(),
        keys.len() == btree_pairs(map).len(),
        values.len() == btree_pairs(map).len(),
        forall|i: int|
            0 <= i < btree_pairs(map).len()
                ==> (#[trigger] btree_pairs(map)[i]).0.to_val(heaps[i])
                == (between[i], keys[i]) && btree_pairs(map)[i].1.to_val(between[i])
                == (heaps[i + 1], values[i]),
    ensures
        (forall|i: int| 0 <= i < keys.len() ==> (#[trigger] keys[i]) is Ok && values[i] is Ok) ==> {
            let end = heaps[keys.len() as int];
            let entries = map.to_val(heaps[0]).0.tabs.last();
            &&& map.to_val(heaps[0]).0 == (Store { tabs: end.tabs.push(entries), ..end })
            &&& map.to_val(heaps[0]).1 == Ok::<Val, GError>(
                Val::Tab(Root { id: end.tabs.len() as usize, kind: Tab }),
            )
            &&& forall|i: int, j: int|
                0 <= i < j < entries.len()
                    ==> (#[trigger] entries[i]).0 != (#[trigger] entries[j]).0
            &&& 0 <= k < keys.len() && (forall|j: int|
                k < j < keys.len()
                    ==> (#[trigger] keys[j])->Ok_0.slot() != keys[k]->Ok_0.slot())
                    ==> entries.contains(
                (keys[k]->Ok_0.slot(), values[k]->Ok_0.slot()),
            )
            &&& 0 <= k < entries.len() ==> exists|i: int|
                0 <= i < keys.len() && entries[k] == (
                    (#[trigger] keys[i])->Ok_0.slot(),
                    values[i]->Ok_0.slot(),
                )
            &&& (forall|i: int, j: int|
                0 <= i < j < keys.len()
                    ==> (#[trigger] keys[i])->Ok_0.slot() != (#[trigger] keys[j])->Ok_0.slot())
                ==> entries == Seq::new(
                keys.len(),
                |i: int| (keys[i]->Ok_0.slot(), values[i]->Ok_0.slot()),
            )
        },
        0 <= k < keys.len() && (forall|i: int|
            0 <= i < k ==> (#[trigger] keys[i]) is Ok && values[i] is Ok) ==> {
            &&& keys[k] is Err ==> map.to_val(heaps[0]) == (
                between[k],
                Err::<Val, GError>(keys[k]->Err_0),
            )
            &&& keys[k] is Ok && values[k] is Err ==> map.to_val(heaps[0]) == (
                heaps[k + 1],
                Err::<Val, GError>(values[k]->Err_0),
            )
        },
{
    assert(entries_in_turn(btree_pairs(map), heaps, between, keys, values));
    lemma_table(btree_pairs(map), heaps, between, keys, values, k, map.to_val(heaps[0]));
    lemma_table_told(heaps, between, keys, values, k, map.to_val(heaps[0]));
    lemma_failure_told(heaps, between, keys, values, k, map.to_val(heaps[0]));
}

/// The same by shared reference.
pub proof fn law_write_btree_map_ref<'a, K, V>(
    map: &'a BTreeMap<K, V>,
    heaps: Seq<Store>,
    between: Seq<Store>,
    keys: Seq<GResult<Val>>,
    values: Seq<GResult<Val>>,
    k: int,
) where
    K: OrdMarker,
    &'a K: IntoVal,
    &'a V: IntoVal,

    requires
        heaps.len() == btree_pairs(*map).len() + 1,
        between.len() == btree_pairs(*map).len(),
        keys.len() == btree_pairs(*map).len(),
        values.len() == btree_pairs(*map).len(),
        forall|i: int|
            0 <= i < btree_pairs(*map).len()
                ==> (&(#[trigger] btree_pairs(*map)[i]).0).to_val(heaps[i])
                == (between[i], keys[i]) && (&btree_pairs(*map)[i].1).to_val(between[i])
                == (heaps[i + 1], values[i]),
    ensures
        (forall|i: int| 0 <= i < keys.len() ==> (#[trigger] keys[i]) is Ok && values[i] is Ok) ==> {
            let end = heaps[keys.len() as int];
            let entries = map.to_val(heaps[0]).0.tabs.last();
            &&& map.to_val(heaps[0]).0 == (Store { tabs: end.tabs.push(entries), ..end })
            &&& map.to_val(heaps[0]).1 == Ok::<Val, GError>(
                Val::Tab(Root { id: end.tabs.len() as usize, kind: Tab }),
            )
            &&& forall|i: int, j: int|
                0 <= i < j < entries.len()
                    ==> (#[trigger] entries[i]).0 != (#[trigger] entries[j]).0
            &&& 0 <= k < keys.len() && (forall|j: int|
                k < j < keys.len()
                    ==> (#[trigger] keys[j])->Ok_0.slot() != keys[k]->Ok_0.slot())
                    ==> entries.contains(
                (keys[k]->Ok_0.slot(), values[k]->Ok_0.slot()),
            )
            &&& 0 <= k < entries.len() ==> exists|i: int|
                0 <= i < keys.len() && entries[k] == (
                    (#[trigger] keys[i])->Ok_0.slot(),
                    values[i]->Ok_0.slot(),
                )
            &&& (forall|i: int, j: int|
                0 <= i < j < keys.len()
                    ==> (#[trigger] keys[i])->Ok_0.slot() != (#[trigger] keys[j])->Ok_0.slot())
                ==> entries == Seq::new(
                keys.len(),
                |i: int| (keys[i]->Ok_0.slot(), values[i]->Ok_0.slot()),
            )
        },
        0 <= k < keys.len() && (forall|i: int|
            0 <= i < k ==> (#[trigger] keys[i]) is Ok && values[i] is Ok) ==> {
            &&& keys[k] is Err ==> map.to_val(heaps[0]) == (
                between[k],
                Err::<Val, GError>(keys[k]->Err_0),
            )
            &&& keys[k] is Ok && values[k] is Err ==> map.to_val(heaps[0]) == (
                heaps[k + 1],
                Err::<Val, GError>(values[k]->Err_0),
            )
        },
{
    let pairs = ref_pairs(btree_pairs(*map));
    assert forall|i: int| 0 <= i < pairs.len() implies (#[trigger] pairs[i]).0.to_val(heaps[i]) == (
        between[i],
        keys[i],
    ) && pairs[i].1.to_val(between[i]) == (heaps[i + 1], values[i]) by {
        assert(pairs[i].0 == &btree_pairs(*map)[i].0 && pairs[i].1 == &btree_pairs(*map)[i].1);
    }
    assert(entries_in_turn::<&K, &V>(pairs, heaps, between, keys, values));
    lemma_table::<&K, &V>(pairs, heaps, between, keys, values, k, map.to_val(heaps[0]));
    lemma_table_told(heaps, between, keys, values, k, map.to_val(heaps[0]));
    lemma_failure_told(heaps, between, keys, values, k, map.to_val(heaps[0]));
}

/// The same by mutable reference: of each entry the value is converted by mutable reference. What
/// is left is the same keys, and under each what the conversion of its value leaves, or the value
/// itself where nothing was converted.
pub proof fn law_write_btree_map_mut<K, V>(
    map: BTreeMap<K, V>,
    heaps: Seq<Store>,
    between: Seq<Store>,
    keys: Seq<GResult<Val>>,
    values: Seq<GResult<Val>>,
    k: int,
    after: BTreeMap<K, V>,
) where
    K: OrdMarker + Copy,
    for <'b>&'b K: IntoVal,
    V: IntoValMut,

    requires
        heaps.len() == btree_pairs(map).len() + 1,
        between.len() == btree_pairs(map).len(),
        keys.len() == btree_pairs(map).len(),
        values.len() == btree_pairs(map).len(),
        forall|i: int|
            0 <= i < btree_pairs(map).len()
                ==> (&(#[trigger] btree_pairs(map)[i]).0).to_val(heaps[i])
                == (between[i], keys[i]) && btree_pairs(map)[i].1.mut_to_val(between[i])
                == (heaps[i + 1], values[i]),
    ensures
        (forall|i: int| 0 <= i < keys.len() ==> (#[trigger] keys[i]) is Ok && values[i] is Ok) ==> {
            let end = heaps[keys.len() as int];
            let entries = map.mut_to_val(heaps[0]).0.tabs.last();
            &&& map.mut_to_val(heaps[0]).0 == (Store { tabs: end.tabs.push(entries), ..end })
            &&& map.mut_to_val(heaps[0]).1 == Ok::<Val, GError>(
                Val::Tab(Root { id: end.tabs.len() as usize, kind: Tab }),
            )
            &&& forall|i: int, j: int|
                0 <= i < j < entries.len()
                    ==> (#[trigger] entries[i]).0 != (#[trigger] entries[j]).0
            &&& 0 <= k < keys.len() && (forall|j: int|
                k < j < keys.len()
                    ==> (#[trigger] keys[j])->Ok_0.slot() != keys[k]->Ok_0.slot())
                    ==> entries.contains(
                (keys[k]->Ok_0.slot(), values[k]->Ok_0.slot()),
            )
            &&& 0 <= k < entries.len() ==> exists|i: int|
                0 <= i < keys.len() && entries[k] == (
                    (#[trigger] keys[i])->Ok_0.slot(),
                    values[i]->Ok_0.slot(),
                )
            &&& (forall|i: int, j: int|
                0 <= i < j < keys.len()
                    ==> (#[trigger] keys[i])->Ok_0.slot() != (#[trigger] keys[j])->Ok_0.slot())
                ==> entries == Seq::new(
                keys.len(),
                |i: int| (keys[i]->Ok_0.slot(), values[i]->Ok_0.slot()),
            )
        },
        0 <= k < keys.len() && (forall|i: int|
            0 <= i < k ==> (#[trigger] keys[i]) is Ok && values[i] is Ok) ==> {
            &&& keys[k] is Err ==> map.mut_to_val(heaps[0]) == (
                between[k],
                Err::<Val, GError>(keys[k]->Err_0),
            )
            &&& keys[k] is Ok && values[k] is Err ==> map.mut_to_val(heaps[0]) == (
                heaps[k + 1],
                Err::<Val, GError>(values[k]->Err_0),
            )
        },
        map.leaves(heaps[0], after) ==> after@.dom() == map@.dom(),
        map.leaves(heaps[0], after) && 0 <= k < keys.len() && (forall|i: int|
            0 <= i < k ==> (#[trigger] keys[i]) is Ok && values[i] is Ok) ==> {
            let (key, value) = btree_pairs(map)[k];
            &&& keys[k] is Ok ==> value.leaves(between[k], after@[key])
            &&& keys[k] is Err ==> after@[key] == value
        },
        map.leaves(heaps[0], after) && 0 <= k < keys.len() && (exists|i: int|
            0 <= i < k && ((#[trigger] keys[i]) is Err || values[i] is Err)) ==> {
            let (key, value) = btree_pairs(map)[k];
            after@[key] == value
        },
{
    let pairs = btree_pairs(map);
    assert(mut_entries_in_turn::<K, V>(pairs, heaps, between, keys, values));
    lemma_mut_table::<K, V>(pairs, heaps, between, keys, values, k, map.mut_to_val(heaps[0]));
    lemma_table_told(heaps, between, keys, values, k, map.mut_to_val(heaps[0]));
    lemma_failure_told(heaps, between, keys, values, k, map.mut_to_val(heaps[0]));
    if map.leaves(heaps[0], after) && 0 <= k < keys.len() {
        lemma_value_told::<K, V>(pairs, heaps, between, keys, values, map@, after@, k);
    }
}

proof fn lemma_table_told(
    heaps: Seq<Store>,
    between: Seq<Store>,
    keys: Seq<GResult<Val>>,
    values: Seq<GResult<Val>>,
    k: int,
    r: (Store, GResult<Val>),
)
    requires
        keys.len() == values.len(),
        table_of(heaps, between, keys, values, k, r),
    ensures
        (forall|i: int| 0 <= i < keys.len() ==> (#[trigger] keys[i]) is Ok && values[i] is Ok) ==> {
            let end = heaps[keys.len() as int];
            let entries = r.0.tabs.last();
            &&& r.0 == (Store { tabs: end.tabs.push(entries), ..end })
            &&& r.1 == Ok::<Val, GError>(
                Val::Tab(Root { id: end.tabs.len() as usize, kind: Tab }),
            )
            &&& forall|i: int, j: int|
                0 <= i < j < entries.len()
                    ==> (#[trigger] entries[i]).0 != (#[trigger] entries[j]).0
            &&& 0 <= k < keys.len() && (forall|j: int|
                k < j < keys.len()
                    ==> (#[trigger] keys[j])->Ok_0.slot() != keys[k]->Ok_0.slot())
                    ==> entries.contains(
                (keys[k]->Ok_0.slot(), values[k]->Ok_0.slot()),
            )
            &&& 0 <= k < entries.len() ==> exists|i: int|
                0 <= i < keys.len() && entries[k] == (
                    (#[trigger] keys[i])->Ok_0.slot(),
                    values[i]->Ok_0.slot(),
                )
            &&& (forall|i: int, j: int|
                0 <= i < j < keys.len()
                    ==> (#[trigger] keys[i])->Ok_0.slot() != (#[trigger] keys[j])->Ok_0.slot())
                ==> entries == Seq::new(
                keys.len(),
                |i: int| (keys[i]->Ok_0.slot(), values[i]->Ok_0.slot()),
            )
        },
{
    if forall|i: int| 0 <= i < keys.len() ==> (#[trigger] keys[i]) is Ok && values[i] is Ok {
        lemma_both_good(keys, values, keys.len() as int);
        lemma_entries_told(r.0.tabs.last(), keys, values, k);
    }
}

proof fn lemma_failure_told(
    heaps: Seq<Store>,
    between: Seq<Store>,
    keys: Seq<GResult<Val>>,
    values: Seq<GResult<Val>>,
    k: int,
    r: (Store, GResult<Val>),
)
    requires
        keys.len() == values.len(),
        table_of(heaps, between, keys, values, k, r),
    ensures
        0 <= k < keys.len() && (forall|i: int|
            0 <= i < k ==> (#[trigger] keys[i]) is Ok && values[i] is Ok) ==> {
            &&& keys[k] is Err ==> r == (between[k], Err::<Val, GError>(keys[k]->Err_0))
            &&& keys[k] is Ok && values[k] is Err ==> r == (
                heaps[k + 1],
                Err::<Val, GError>(values[k]->Err_0),
            )
        },
{
    if 0 <= k < keys.len() && (forall|i: int|
        0 <= i < k ==> (#[trigger] keys[i]) is Ok && values[i] is Ok) {
        lemma_both_good(keys, values, k);
    }
}

proof fn lemma_both_good(keys: Seq<GResult<Val>>, values: Seq<GResult<Val>>, k: int)
    requires
        forall|i: int| 0 <= i < k ==> (#[trigger] keys[i]) is Ok && values[i] is Ok,
    ensures
        good_before(keys, k),
        good_before(values, k),
{
    assert forall|i: int| 0 <= i < k implies (#[trigger] values[i]) is Ok by {
        assert(keys[i] is Ok);
    }
}

proof fn lemma_entries_told(
    entries: Seq<(Slot, Slot)>,
    keys: Seq<GResult<Val>>,
    values: Seq<GResult<Val>>,
    k: int,
)
    requires
        keys.len() == values.len(),
        holds_latest(entries, keys, values, keys.len() as int),
        distinct(entries_made(keys, values, keys.len() as int)) ==> entries == entries_made(
            keys,
            values,
            keys.len() as int,
        ),
    ensures
        forall|i: int, j: int|
            0 <= i < j < entries.len() ==> (#[trigger] entries[i]).0 != (#[trigger] entries[j]).0,
        0 <= k < keys.len() && (forall|j: int|
            k < j < keys.len() ==> (#[trigger] keys[j])->Ok_0.slot() != keys[k]->Ok_0.slot())
            ==> entries.contains((keys[k]->Ok_0.slot(), values[k]->Ok_0.slot())),
        0 <= k < entries.len() ==> exists|i: int|
            0 <= i < keys.len() && entries[k] == (
                (#[trigger] keys[i])->Ok_0.slot(),
                values[i]->Ok_0.slot(),
            ),
        (forall|i: int, j: int|
            0 <= i < j < keys.len() ==> (#[trigger] keys[i])->Ok_0.slot() != (
            #[trigger] keys[j])->Ok_0.slot()) ==> entries == Seq::new(
            keys.len(),
            |i: int| (keys[i]->Ok_0.slot(), values[i]->Ok_0.slot()),
        ),
{
    reveal(holds_latest);
    let n = keys.len() as int;
    let made = entries_made(keys, values, n);
    if forall|i: int, j: int|
        0 <= i < j < keys.len() ==> (#[trigger] keys[i])->Ok_0.slot() != (
        #[trigger] keys[j])->Ok_0.slot() {
        assert forall|i: int, j: int| 0 <= i < j < made.len() implies (#[trigger] made[i]).0 != (
        #[trigger] made[j]).0 by {
            assert(keys[i]->Ok_0.slot() != keys[j]->Ok_0.slot());
        }
        assert(made =~= Seq::new(
            keys.len(),
            |i: int| (keys[i]->Ok_0.slot(), values[i]->Ok_0.slot()),
        ));
    }
    if 0 <= k < n && (forall|j: int|
        k < j < keys.len() ==> (#[trigger] keys[j])->Ok_0.slot() != keys[k]->Ok_0.slot()) {
        assert(latest(keys, k, n));
    }
    if 0 <= k < entries.len() {
        let entry = entries[k];
        let i = choose|i: int|
            0 <= i < n && latest(keys, i, n) && entry == (
                (#[trigger] keys[i])->Ok_0.slot(),
                values[i]->Ok_0.slot(),
            );
        assert(entry == (keys[i]->Ok_0.slot(), values[i]->Ok_0.slot()));
    }
}

proof fn lemma_value_told<'a, K: 'a, V: IntoValMut>(
    pairs: Seq<(K, V)>,
    heaps: Seq<Store>,
    between: Seq<Store>,
    keys: Seq<GResult<Val>>,
    values: Seq<GResult<Val>>,
    before: Map<K, V>,
    after: Map<K, V>,
    k: int,
) where &'a K: IntoVal
    requires
        0 <= k < pairs.len(),
        mut_entries_in_turn::<K, V>(pairs, heaps, between, keys, values),
        values_left::<K, V>(heaps[0], pairs, before, after),
    ensures
        (forall|i: int| 0 <= i < k ==> (#[trigger] keys[i]) is Ok && values[i] is Ok) ==> {
            &&& keys[k] is Ok ==> pairs[k].1.leaves(between[k], after[pairs[k].0])
            &&& keys[k] is Err ==> after[pairs[k].0] == pairs[k].1
        },
        (exists|i: int| 0 <= i < k && ((#[trigger] keys[i]) is Err || values[i] is Err))
            ==> after[pairs[k].0] == pairs[k].1,
{
    assert((&pairs[k].0).to_val(heaps[k]) == (between[k], keys[k]));
    if forall|i: int| 0 <= i < k ==> (#[trigger] keys[i]) is Ok && values[i] is Ok {
        lemma_both_good(keys, values, k);
        lemma_mut_entries::<K, V>(pairs, heaps, between, keys, values, k);
    }
    if exists|i: int| 0 <= i < k && ((#[trigger] keys[i]) is Err || values[i] is Err) {
        let i = choose|i: int| 0 <= i < k && ((#[trigger] keys[i]) is Err || values[i] is Err);
        if good_before(keys, k) && good_before(values, k) {
            assert(keys[i] is Ok && values[i] is Ok);
        }
        let bad = lemma_first_bad_entry(keys, values, k);
        lemma_mut_failed_entries::<K, V>(pairs, heaps, between, keys, values, bad, k);
    }
}

} // verus!
