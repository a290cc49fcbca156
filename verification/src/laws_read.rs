//! What holds of conversions from values: which values are read as a host type, and as what.

use std::collections::{BTreeMap, HashMap, VecDeque};

use vstd::prelude::*;
use vstd::utf8::encode_utf8;

use crate::callable::Callable;
use crate::error::{Expected, GError, MapType};
use crate::from_map::gathered;
use crate::from_val::{each, lemma_each_ok, modelled, models, FromVal, Modelled, Plain};
use crate::laws::{law_first_failure, law_list_converts, law_no_key_twice};
use crate::marker::{BuildHasherDefaultMarker, HashEqMarker, HostType, OrdMarker, StaticMarker};
use crate::small::SmallList;
use crate::store::Store;
use crate::text::{has_nul, CText, OsText, PathText};
use crate::value::{
    Arr, Deque, EnvMode, Expander, Flo, Iterable, Num, Order, Pointee, RData, RRoot, Raw, Root,
        Slot,
    Str, Sym, Tab, Val, ValType,
};

verus! {

/// An int is read as an `i8` exactly where it is in the range of that type, and as the same number.
/// One out of range is refused, and so is a value of any other type.
pub proof fn law_read_i8(h: Store, v: Val)
    ensures
        v matches Val::Int(i) ==> (i8::MIN <= i <= i8::MAX ==> i8::of_val(h, v) is Ok),
        v matches Val::Int(i) ==> (i8::of_val(h, v) matches Ok(n) ==> n as int == i as int),
        v matches Val::Int(i) ==> (i < i8::MIN || i > i8::MAX ==> i8::of_val(h, v)
            == Err::<i8, GError>(
            GError::IntOutOfRange { expected: Expected::I8, received: i },
        )),
        !(v is Int) ==> i8::of_val(h, v) == Err::<i8, GError>(
            GError::WrongType { expected: Expected::I8, received: v.type_of() },
        ),
{
}

/// An int is read as an `i16` exactly where it is in the range of that type, and as the same
/// number. One out of range is refused, and so is a value of any other type.
pub proof fn law_read_i16(h: Store, v: Val)
    ensures
        v matches Val::Int(i) ==> (i16::MIN <= i <= i16::MAX ==> i16::of_val(h, v) is Ok),
        v matches Val::Int(i) ==> (i16::of_val(h, v) matches Ok(n) ==> n as int == i as int),
        v matches Val::Int(i) ==> (i < i16::MIN || i > i16::MAX ==> i16::of_val(h, v) == Err::<
            i16,
            GError,
        >(
            GError::IntOutOfRange { expected: Expected::I16, received: i },
        )),
        !(v is Int) ==> i16::of_val(h, v) == Err::<i16, GError>(
            GError::WrongType { expected: Expected::I16, received: v.type_of() },
        ),
{
}

/// An int is read as an `i32` exactly where it is in the range of that type, and as the same
/// number. One out of range is refused, and so is a value of any other type.
pub proof fn law_read_i32(h: Store, v: Val)
    ensures
        v matches Val::Int(i) ==> (i32::MIN <= i <= i32::MAX ==> i32::of_val(h, v) is Ok),
        v matches Val::Int(i) ==> (i32::of_val(h, v) matches Ok(n) ==> n as int == i as int),
        v matches Val::Int(i) ==> (i < i32::MIN || i > i32::MAX ==> i32::of_val(h, v) == Err::<
            i32,
            GError,
        >(
            GError::IntOutOfRange { expected: Expected::I32, received: i },
        )),
        !(v is Int) ==> i32::of_val(h, v) == Err::<i32, GError>(
            GError::WrongType { expected: Expected::I32, received: v.type_of() },
        ),
{
}

/// An int is read as an `i64` exactly where it is in the range of that type, and as the same
/// number. One out of range is refused, and so is a value of any other type.
pub proof fn law_read_i64(h: Store, v: Val)
    ensures
        v matches Val::Int(i) ==> (i64::MIN <= i <= i64::MAX ==> i64::of_val(h, v) is Ok),
        v matches Val::Int(i) ==> (i64::of_val(h, v) matches Ok(n) ==> n as int == i as int),
        v matches Val::Int(i) ==> (i < i64::MIN || i > i64::MAX ==> i64::of_val(h, v) == Err::<
            i64,
            GError,
        >(
            GError::IntOutOfRange { expected: Expected::I64, received: i },
        )),
        !(v is Int) ==> i64::of_val(h, v) == Err::<i64, GError>(
            GError::WrongType { expected: Expected::I64, received: v.type_of() },
        ),
{
}

/// An int is read as an `i128` exactly where it is in the range of that type, and as the same
/// number. One out of range is refused, and so is a value of any other type.
pub proof fn law_read_i128(h: Store, v: Val)
    ensures
        v matches Val::Int(i) ==> (i128::MIN <= i <= i128::MAX ==> i128::of_val(h, v) is Ok),
        v matches Val::Int(i) ==> (i128::of_val(h, v) matches Ok(n) ==> n as int == i as int),
        v matches Val::Int(i) ==> (i < i128::MIN || i > i128::MAX ==> i128::of_val(h, v) == Err::<
            i128,
            GError,
        >(
            GError::IntOutOfRange { expected: Expected::I128, received: i },
        )),
        !(v is Int) ==> i128::of_val(h, v) == Err::<i128, GError>(
            GError::WrongType { expected: Expected::I128, received: v.type_of() },
        ),
{
}

/// An int is read as an `isize` exactly where it is in the range of that type, and as the same
/// number. One out of range is refused, and so is a value of any other type.
pub proof fn law_read_isize(h: Store, v: Val)
    ensures
        v matches Val::Int(i) ==> (isize::MIN <= i <= isize::MAX ==> isize::of_val(h, v) is Ok),
        v matches Val::Int(i) ==> (isize::of_val(h, v) matches Ok(n) ==> n as int == i as int),
        v matches Val::Int(i) ==> (i < isize::MIN || i > isize::MAX ==> isize::of_val(h, v)
            == Err::<isize, GError>(
            GError::IntOutOfRange { expected: Expected::Isize, received: i },
        )),
        !(v is Int) ==> isize::of_val(h, v) == Err::<isize, GError>(
            GError::WrongType { expected: Expected::Isize, received: v.type_of() },
        ),
{
}

/// An int is read as an `u8` exactly where it is in the range of that type, and as the same number.
/// One out of range is refused, and so is a value of any other type.
pub proof fn law_read_u8(h: Store, v: Val)
    ensures
        v matches Val::Int(i) ==> (u8::MIN <= i <= u8::MAX ==> u8::of_val(h, v) is Ok),
        v matches Val::Int(i) ==> (u8::of_val(h, v) matches Ok(n) ==> n as int == i as int),
        v matches Val::Int(i) ==> (i < u8::MIN || i > u8::MAX ==> u8::of_val(h, v)
            == Err::<u8, GError>(
            GError::IntOutOfRange { expected: Expected::U8, received: i },
        )),
        !(v is Int) ==> u8::of_val(h, v) == Err::<u8, GError>(
            GError::WrongType { expected: Expected::U8, received: v.type_of() },
        ),
{
}

/// An int is read as an `u16` exactly where it is in the range of that type, and as the same
/// number. One out of range is refused, and so is a value of any other type.
pub proof fn law_read_u16(h: Store, v: Val)
    ensures
        v matches Val::Int(i) ==> (u16::MIN <= i <= u16::MAX ==> u16::of_val(h, v) is Ok),
        v matches Val::Int(i) ==> (u16::of_val(h, v) matches Ok(n) ==> n as int == i as int),
        v matches Val::Int(i) ==> (i < u16::MIN || i > u16::MAX ==> u16::of_val(h, v) == Err::<
            u16,
            GError,
        >(
            GError::IntOutOfRange { expected: Expected::U16, received: i },
        )),
        !(v is Int) ==> u16::of_val(h, v) == Err::<u16, GError>(
            GError::WrongType { expected: Expected::U16, received: v.type_of() },
        ),
{
}

/// An int is read as an `u32` exactly where it is in the range of that type, and as the same
/// number. One out of range is refused, and so is a value of any other type.
pub proof fn law_read_u32(h: Store, v: Val)
    ensures
        v matches Val::Int(i) ==> (u32::MIN <= i <= u32::MAX ==> u32::of_val(h, v) is Ok),
        v matches Val::Int(i) ==> (u32::of_val(h, v) matches Ok(n) ==> n as int == i as int),
        v matches Val::Int(i) ==> (i < u32::MIN || i > u32::MAX ==> u32::of_val(h, v) == Err::<
            u32,
            GError,
        >(
            GError::IntOutOfRange { expected: Expected::U32, received: i },
        )),
        !(v is Int) ==> u32::of_val(h, v) == Err::<u32, GError>(
            GError::WrongType { expected: Expected::U32, received: v.type_of() },
        ),
{
}

/// An int is read as an `u64` exactly where it is in the range of that type, and as the same
/// number. One out of range is refused, and so is a value of any other type.
pub proof fn law_read_u64(h: Store, v: Val)
    ensures
        v matches Val::Int(i) ==> (u64::MIN <= i <= u64::MAX ==> u64::of_val(h, v) is Ok),
        v matches Val::Int(i) ==> (u64::of_val(h, v) matches Ok(n) ==> n as int == i as int),
        v matches Val::Int(i) ==> (i < u64::MIN || i > u64::MAX ==> u64::of_val(h, v) == Err::<
            u64,
            GError,
        >(
            GError::IntOutOfRange { expected: Expected::U64, received: i },
        )),
        !(v is Int) ==> u64::of_val(h, v) == Err::<u64, GError>(
            GError::WrongType { expected: Expected::U64, received: v.type_of() },
        ),
{
}

/// An int is read as an `u128` exactly where it is in the range of that type, and as the same
/// number. One out of range is refused, and so is a value of any other type.
pub proof fn law_read_u128(h: Store, v: Val)
    ensures
        v matches Val::Int(i) ==> (u128::MIN <= i <= u128::MAX ==> u128::of_val(h, v) is Ok),
        v matches Val::Int(i) ==> (u128::of_val(h, v) matches Ok(n) ==> n as int == i as int),
        v matches Val::Int(i) ==> (i < u128::MIN || i > u128::MAX ==> u128::of_val(h, v) == Err::<
            u128,
            GError,
        >(
            GError::IntOutOfRange { expected: Expected::U128, received: i },
        )),
        !(v is Int) ==> u128::of_val(h, v) == Err::<u128, GError>(
            GError::WrongType { expected: Expected::U128, received: v.type_of() },
        ),
{
}

/// An int is read as an `usize` exactly where it is in the range of that type, and as the same
/// number. One out of range is refused, and so is a value of any other type.
pub proof fn law_read_usize(h: Store, v: Val)
    ensures
        v matches Val::Int(i) ==> (usize::MIN <= i <= usize::MAX ==> usize::of_val(h, v) is Ok),
        v matches Val::Int(i) ==> (usize::of_val(h, v) matches Ok(n) ==> n as int == i as int),
        v matches Val::Int(i) ==> (i < usize::MIN || i > usize::MAX ==> usize::of_val(h, v)
            == Err::<usize, GError>(
            GError::IntOutOfRange { expected: Expected::Usize, received: i },
        )),
        !(v is Int) ==> usize::of_val(h, v) == Err::<usize, GError>(
            GError::WrongType { expected: Expected::Usize, received: v.type_of() },
        ),
{
}

/// What is read as a `char` is what a value of that type holds, and no other value is.
pub proof fn law_read_char(h: Store, v: Val)
    ensures
        v matches Val::Char(x) ==> char::of_val(h, v) == Ok::<char, GError>(x),
        !(v is Char) ==> char::of_val(h, v) == Err::<char, GError>(
            GError::WrongType { expected: Expected::Char, received: v.type_of() },
        ),
{
}

/// What is read as a `bool` is what a value of that type holds, and no other value is.
pub proof fn law_read_bool(h: Store, v: Val)
    ensures
        v matches Val::Bool(x) ==> bool::of_val(h, v) == Ok::<bool, GError>(x),
        !(v is Bool) ==> bool::of_val(h, v) == Err::<bool, GError>(
            GError::WrongType { expected: Expected::Bool, received: v.type_of() },
        ),
{
}

/// What is read as a `Sym` is what a value of that type holds, and no other value is.
pub proof fn law_read_sym(h: Store, v: Val)
    ensures
        v matches Val::Sym(x) ==> Sym::of_val(h, v) == Ok::<Sym, GError>(x),
        !(v is Sym) ==> Sym::of_val(h, v) == Err::<Sym, GError>(
            GError::WrongType { expected: Expected::Sym, received: v.type_of() },
        ),
{
}

/// What is read as a `Flo` is what a value of that type holds, and no other value is.
pub proof fn law_read_flo(h: Store, v: Val)
    ensures
        v matches Val::Flo(x) ==> Flo::of_val(h, v) == Ok::<Flo, GError>(x),
        !(v is Flo) ==> Flo::of_val(h, v) == Err::<Flo, GError>(
            GError::WrongType { expected: Expected::F32, received: v.type_of() },
        ),
{
}

/// Any value is read as itself, and as the slot that holds it.
pub proof fn law_read_any(h: Store, v: Val)
    ensures
        Val::of_val(h, v) == Ok::<Val, GError>(v),
        Slot::of_val(h, v) == Ok::<Slot, GError>(v.slot()),
{
}

/// What is read as a `Num` is what a value of one of its variants holds, under the same variant,
/// and no other value is.
pub proof fn law_read_num(h: Store, v: Val)
    ensures
        v matches Val::Int(i) ==> Num::of_val(h, v) == Ok::<Num, GError>(Num::Int(i)),
        v matches Val::Flo(f) ==> Num::of_val(h, v) == Ok::<Num, GError>(Num::Flo(f)),
        !(v is Int) && !(v is Flo) ==> Num::of_val(h, v) == Err::<Num, GError>(
            GError::WrongType { expected: Expected::Num, received: v.type_of() },
        ),
{
}

/// What is read as a `Deque` is what a value of one of its variants holds, under the same variant,
/// and no other value is.
pub proof fn law_read_deque(h: Store, v: Val)
    ensures
        v matches Val::Arr(root) ==> Deque::of_val(h, v) == Ok::<Deque, GError>(Deque::Arr(root)),
        v matches Val::Str(root) ==> Deque::of_val(h, v) == Ok::<Deque, GError>(Deque::Str(root)),
        !(v is Arr) && !(v is Str) ==> Deque::of_val(h, v) == Err::<Deque, GError>(
            GError::WrongType { expected: Expected::Deque, received: v.type_of() },
        ),
{
}

/// What is read as a `Callable` is what a value of one of its variants holds, under the same
/// variant, and no other value is.
pub proof fn law_read_callable(h: Store, v: Val)
    ensures
        v matches Val::RFn(root) ==> Callable::of_val(h, v) == Ok::<Callable, GError>(
            Callable::RFn(root),
        ),
        v matches Val::GFn(root) ==> Callable::of_val(h, v) == Ok::<Callable, GError>(
            Callable::GFn(root),
        ),
        v matches Val::Class(root) ==> Callable::of_val(h, v) == Ok::<Callable, GError>(
            Callable::Class(root),
        ),
        !(v is RFn) && !(v is GFn) && !(v is Class) ==> Callable::of_val(h, v) == Err::<
            Callable,
            GError,
        >(
            GError::WrongType { expected: Expected::Callable, received: v.type_of() },
        ),
{
}

/// What is read as a `Expander` is what a value of one of its variants holds, under the same
/// variant, and no other value is.
pub proof fn law_read_expander(h: Store, v: Val)
    ensures
        v matches Val::GFn(root) ==> Expander::of_val(h, v) == Ok::<Expander, GError>(
            Expander::GFn(root),
        ),
        v matches Val::RFn(root) ==> Expander::of_val(h, v) == Ok::<Expander, GError>(
            Expander::RFn(root),
        ),
        !(v is GFn) && !(v is RFn) ==> Expander::of_val(h, v) == Err::<Expander, GError>(
            GError::WrongType { expected: Expected::Expander, received: v.type_of() },
        ),
{
}

/// What is read as a `Iterable` is what a value of one of its variants holds, under the same
/// variant, and no other value is.
pub proof fn law_read_iterable(h: Store, v: Val)
    ensures
        v matches Val::Arr(root) ==> Iterable::of_val(h, v) == Ok::<Iterable, GError>(
            Iterable::Arr(root),
        ),
        v matches Val::Str(root) ==> Iterable::of_val(h, v) == Ok::<Iterable, GError>(
            Iterable::Str(root),
        ),
        v matches Val::Tab(root) ==> Iterable::of_val(h, v) == Ok::<Iterable, GError>(
            Iterable::Tab(root),
        ),
        v matches Val::GIter(root) ==> Iterable::of_val(h, v) == Ok::<Iterable, GError>(
            Iterable::GIter(root),
        ),
        v matches Val::Coro(root) ==> Iterable::of_val(h, v) == Ok::<Iterable, GError>(
            Iterable::Coro(root),
        ),
        !(v is Arr) && !(v is Str) && !(v is Tab) && !(v is GIter) && !(v is Coro)
            ==> Iterable::of_val(h, v) == Err::<Iterable, GError>(
            GError::WrongType { expected: Expected::Iterable, received: v.type_of() },
        ),
{
}

/// The symbols `fresh` and `copied` are read as the environment modes of those names, and no other
/// value is.
pub proof fn law_read_env_mode(h: Store, v: Val)
    requires
        h.syms.len() >= 7,
        h.syms.take(7) =~= Store::empty().syms,
    ensures
        v matches Val::Sym(sym) ==> (sym.id < 7 && h.sym_name(sym) == "fresh"@ ==> EnvMode::of_val(
            h,
            v,
        ) == Ok::<EnvMode, GError>(EnvMode::Fresh)),
        v matches Val::Sym(sym) ==> (sym.id < 7 && h.sym_name(sym) == "copied"@ ==> EnvMode::of_val(
            h,
            v,
        ) == Ok::<EnvMode, GError>(EnvMode::Copied)),
        v matches Val::Sym(sym) ==> (sym.id >= 7 || (h.sym_name(sym) != "fresh"@ && h.sym_name(sym)
            != "copied"@) ==> EnvMode::of_val(h, v) == Err::<EnvMode, GError>(
            GError::UnknownEnvMode { received: sym },
        )),
        !(v is Sym) ==> EnvMode::of_val(h, v) == Err::<EnvMode, GError>(
            GError::WrongType { expected: Expected::EnvMode, received: v.type_of() },
        ),
{
    lemma_stock_names(h);
}

/// The symbols `<`, `==` and `>` are read as the orders that they name, and no other value is.
pub proof fn law_read_order(h: Store, v: Val)
    requires
        h.syms.len() >= 7,
        h.syms.take(7) =~= Store::empty().syms,
    ensures
        v matches Val::Sym(sym) ==> (sym.id < 7 && h.sym_name(sym) == "<"@ ==> Order::of_val(h, v)
            == Ok::<Order, GError>(Order::Less)),
        v matches Val::Sym(sym) ==> (sym.id < 7 && h.sym_name(sym) == "=="@ ==> Order::of_val(h, v)
            == Ok::<Order, GError>(Order::Equal)),
        v matches Val::Sym(sym) ==> (sym.id < 7 && h.sym_name(sym) == ">"@ ==> Order::of_val(h, v)
            == Ok::<Order, GError>(Order::Greater)),
        v matches Val::Sym(sym) ==> (sym.id >= 7 || (h.sym_name(sym) != "<"@ && h.sym_name(sym)
            != "=="@ && h.sym_name(sym) != ">"@) ==> Order::of_val(h, v) is Err),
        Order::of_val(h, v) is Err ==> Order::of_val(h, v) == Err::<Order, GError>(
            GError::WrongType { expected: Expected::Order, received: v.type_of() },
        ),
        !(v is Sym) ==> Order::of_val(h, v) is Err,
{
    lemma_stock_names(h);
}

/// The symbols that every heap knows have names of their own.
proof fn lemma_stock_names(h: Store)
    requires
        h.syms.len() >= 7,
        h.syms.take(7) =~= Store::empty().syms,
    ensures
        h.syms[0] == "<"@,
        h.syms[1] == "=="@,
        h.syms[2] == ">"@,
        h.syms[3] == "fresh"@,
        h.syms[4] == "copied"@,
        h.syms[5] == "infinite"@,
        h.syms[6] == "unknown"@,
        forall|i: int, j: int| 0 <= i < j < 7 ==> #[trigger] h.syms[i] != #[trigger] h.syms[j],
{
    reveal_strlit("<");
    reveal_strlit("==");
    reveal_strlit(">");
    reveal_strlit("fresh");
    reveal_strlit("copied");
    reveal_strlit("infinite");
    reveal_strlit("unknown");
    assert forall|i: int| 0 <= i < 7 implies #[trigger] h.syms[i] == Store::empty().syms[i] by {
        assert(h.syms.take(7)[i] == h.syms[i]);
    }
    assert("<"@[0] == '<' && ">"@[0] == '>' && "=="@[0] == '=' && "fresh"@[0] == 'f');
    assert("copied"@[0] == 'c' && "infinite"@[0] == 'i' && "unknown"@[0] == 'u');
}

/// A handle is read from a value that is a handle of its kind, and from no other; counted or not,
/// it is the same.
pub proof fn law_read_handle<T: Pointee>(h: Store, root: Root<T>, v: Val)
    ensures
        Root::<T>::of_val(h, T::val_of(root)) == Ok::<Root<T>, GError>(root),
        Raw::<T>::of_val(h, T::val_of(root)) == Ok::<Raw<T>, GError>(
            Raw { id: root.id, kind: root.kind },
        ),
        v.type_of() != T::type_here() ==> Root::<T>::of_val(h, v) == Err::<Root<T>, GError>(
            GError::WrongType { expected: Expected::Root(T::type_here()), received: v.type_of() },
        ),
        v.type_of() != T::type_here() ==> Raw::<T>::of_val(h, v) == Err::<Raw<T>, GError>(
            GError::WrongType { expected: Expected::Raw(T::type_here()), received: v.type_of() },
        ),
{
    T::val_of_root_in(root, T::val_of(root));
    T::val_of_root_in(root, v);
}

/// A typed handle is read from a value that is a handle to host data, and from no other.
pub proof fn law_read_typed_handle<T: HostType>(h: Store, v: Val)
    ensures
        v matches Val::RData(root) ==> RRoot::<T>::of_val(h, v) == Ok::<Root<RData>, GError>(root),
        !(v is RData) ==> RRoot::<T>::of_val(h, v) == Err::<Root<RData>, GError>(
            GError::WrongType { expected: Expected::RRoot(T::key()), received: v.type_of() },
        ),
{
}

/// What is claimed of a conversion is claimed of its own outcome: of what the host value stands
/// for, or of the error itself.
pub proof fn law_outcomes<T: Modelled>(t: T, e: GError)
    ensures
        modelled(Ok::<T, GError>(t)) == Ok::<T::Model, GError>(t.model()),
        modelled(Err::<T, GError>(e)) == Err::<T::Model, GError>(e),
{
}

/// Host values that hold no others stand for themselves.
pub proof fn law_simple_models<T: Pointee>(
    x_i8: i8,
    x_i16: i16,
    x_i32: i32,
    x_i64: i64,
    x_i128: i128,
    x_isize: isize,
    x_u8: u8,
    x_u16: u16,
    x_u32: u32,
    x_u64: u64,
    x_u128: u128,
    x_usize: usize,
    c: char,
    b: bool,
    sym: Sym,
    flo: Flo,
    v: Val,
    s: Slot,
    num: Num,
    deque: Deque,
    callable: Callable,
    expander: Expander,
    iterable: Iterable,
    mode: EnvMode,
    order: Order,
    root: Root<T>,
    raw: Raw<T>,
)
    ensures
        x_i8.model() == x_i8,
        x_i16.model() == x_i16,
        x_i32.model() == x_i32,
        x_i64.model() == x_i64,
        x_i128.model() == x_i128,
        x_isize.model() == x_isize,
        x_u8.model() == x_u8,
        x_u16.model() == x_u16,
        x_u32.model() == x_u32,
        x_u64.model() == x_u64,
        x_u128.model() == x_u128,
        x_usize.model() == x_usize,
        c.model() == c,
        b.model() == b,
        sym.model() == sym,
        flo.model() == flo,
        v.model() == v,
        s.model() == s,
        num.model() == num,
        deque.model() == deque,
        callable.model() == callable,
        expander.model() == expander,
        iterable.model() == iterable,
        mode.model() == mode,
        order.model() == order,
        root.model() == root,
        raw.model() == raw,
{
}

/// What stands for a list is what stands for its items, in their order.
pub proof fn law_list_models<T: Modelled, const N: usize>(
    vec: Vec<T>,
    queue: VecDeque<T>,
    list: SmallList<T, N>,
    array: [T; N],
    i: int,
)
    ensures
        vec.model().len() == vec@.len(),
        queue.model().len() == queue@.len(),
        list.model().len() == list@.len(),
        array.model().len() == array@.len(),
        0 <= i < vec@.len() ==> vec.model()[i] == vec@[i].model(),
        0 <= i < queue@.len() ==> queue.model()[i] == queue@[i].model(),
        0 <= i < list@.len() ==> list.model()[i] == list@[i].model(),
        0 <= i < array@.len() ==> array.model()[i] == array@[i].model(),
{
}

/// What stands for a text is its characters or bytes, and what stands for a typed handle is the
/// handle.
pub proof fn law_text_models<T: HostType>(
    text: String,
    c_text: CText,
    os_text: OsText,
    path: PathText,
    root: RRoot<T>,
)
    ensures
        text.model() == text@,
        c_text.model() == c_text@,
        os_text.model() == os_text@,
        path.model() == path@,
        root.model() == root.untyped(),
{
}

/// What stands for a map is what stands for its values, under the same keys.
pub proof fn law_map_models<K, V: Modelled, S>(
    hash: HashMap<K, V, S>,
    btree: BTreeMap<K, V>,
    key: K,
)
    ensures
        hash.model().contains_key(key) <==> hash@.contains_key(key),
        btree.model().contains_key(key) <==> btree@.contains_key(key),
        hash@.contains_key(key) ==> hash.model()[key] == hash@[key].model(),
        btree@.contains_key(key) ==> btree.model()[key] == btree@[key].model(),
{
}

/// There is a nul among the bytes of a text exactly where one of them is zero.
pub proof fn law_inner_nul(bytes: Seq<u8>)
    ensures
        has_nul(bytes) <==> bytes.contains(0),
{
}

/// Text is read from a value that is a string, character by character, and from no other. A C
/// string is refused where it would hold a nul.
pub proof fn law_read_text(h: Store, v: Val, root: Root<Str>)
    ensures
        root.id < h.strs.len() ==> {
            let chars = h.strs[root.id as int];
            &&& String::of_val(h, Val::Str(root)) == Ok::<Seq<char>, GError>(chars)
            &&& OsText::of_val(h, Val::Str(root)) == Ok::<Option<Seq<char>>, GError>(Some(chars))
            &&& PathText::of_val(h, Val::Str(root)) == Ok::<Option<Seq<char>>, GError>(Some(chars))
            &&& !encode_utf8(chars).contains(0) ==> CText::of_val(h, Val::Str(root)) == Ok::<
                Seq<u8>,
                GError,
            >(encode_utf8(chars))
            &&& encode_utf8(chars).contains(0) ==> CText::of_val(h, Val::Str(root)) == Err::<
                Seq<u8>,
                GError,
            >(GError::InnerNul)
        },
        root.id >= h.strs.len() ==> {
            let stale = GError::StaleHandle { received: ValType::Str };
            &&& String::of_val(h, Val::Str(root)) == Err::<Seq<char>, GError>(stale)
            &&& OsText::of_val(h, Val::Str(root)) == Err::<Option<Seq<char>>, GError>(stale)
            &&& PathText::of_val(h, Val::Str(root)) == Err::<Option<Seq<char>>, GError>(stale)
            &&& CText::of_val(h, Val::Str(root)) == Err::<Seq<u8>, GError>(stale)
        },
        !(v is Str) ==> {
            let received = v.type_of();
            &&& String::of_val(h, v) == Err::<Seq<char>, GError>(
                GError::WrongType { expected: Expected::Str, received },
            )
            &&& OsText::of_val(h, v) == Err::<Option<Seq<char>>, GError>(
                GError::WrongType { expected: Expected::OsString, received },
            )
            &&& PathText::of_val(h, v) == Err::<Option<Seq<char>>, GError>(
                GError::WrongType { expected: Expected::Path, received },
            )
            &&& CText::of_val(h, v) == Err::<Seq<u8>, GError>(
                GError::WrongType { expected: Expected::CString, received },
            )
        },
{
}

/// A `Vec` is read from an array, item by item: where every item can be read, there are as many as
/// the array has, each read from the item in its own place. Where one cannot, the first such is the
/// reason.
pub proof fn law_read_vec<T: FromVal>(h: Store, root: Root<Arr>, k: int)
    requires
        root.id < h.arrs.len(),
    ensures
        ({
            let items = h.arrs[root.id as int];
            let read = Vec::<T>::of_val(h, Val::Arr(root));
            &&& read is Ok <==> forall|i: int|
                0 <= i < items.len() ==> T::of_val(h, #[trigger] items[i].val()) is Ok
            &&& read matches Ok(models) ==> {
                &&& models.len() == items.len()
                &&& forall|i: int|
                    0 <= i < items.len() ==> T::of_val(
                        h,
                        #[trigger] items[i].val(),
                    ) == Ok::<T::Model, GError>(models[i])
            }
            &&& 0 <= k < items.len() && T::of_val(h, items[k].val()) is Err && (forall|i: int|
                0 <= i < k ==> T::of_val(
                    h,
                    #[trigger] items[i].val(),
                ) is Ok) ==> read == Err::<Seq<T::Model>, GError>(
                T::of_val(h, items[k].val())->Err_0,
            )
        }),
{
    lemma_read_items::<T>(h, h.arrs[root.id as int], k);
}

/// A `Vec` is read from no value but a good handle to an array.
pub proof fn law_vec_refused<T: FromVal>(h: Store, v: Val, root: Root<Arr>)
    ensures
        !(v is Arr) ==> Vec::<T>::of_val(h, v) == Err::<Seq<T::Model>, GError>(
            GError::WrongType { expected: Expected::Vec, received: v.type_of() },
        ),
        root.id >= h.arrs.len() ==> Vec::<T>::of_val(h, Val::Arr(root)) == Err::<
            Seq<T::Model>,
            GError,
        >(
            GError::StaleHandle { received: ValType::Arr },
        ),
{
}

/// A `VecDeque` is read from an array, item by item: where every item can be read, there are as
/// many as the array has, each read from the item in its own place. Where one cannot, the first
/// such is the reason.
pub proof fn law_read_queue<T: FromVal>(h: Store, root: Root<Arr>, k: int)
    requires
        root.id < h.arrs.len(),
    ensures
        ({
            let items = h.arrs[root.id as int];
            let read = VecDeque::<T>::of_val(h, Val::Arr(root));
            &&& read is Ok <==> forall|i: int|
                0 <= i < items.len() ==> T::of_val(h, #[trigger] items[i].val()) is Ok
            &&& read matches Ok(models) ==> {
                &&& models.len() == items.len()
                &&& forall|i: int|
                    0 <= i < items.len() ==> T::of_val(
                        h,
                        #[trigger] items[i].val(),
                    ) == Ok::<T::Model, GError>(models[i])
            }
            &&& 0 <= k < items.len() && T::of_val(h, items[k].val()) is Err && (forall|i: int|
                0 <= i < k ==> T::of_val(
                    h,
                    #[trigger] items[i].val(),
                ) is Ok) ==> read == Err::<Seq<T::Model>, GError>(
                T::of_val(h, items[k].val())->Err_0,
            )
        }),
{
    lemma_read_items::<T>(h, h.arrs[root.id as int], k);
}

/// A `VecDeque` is read from no value but a good handle to an array.
pub proof fn law_queue_refused<T: FromVal>(h: Store, v: Val, root: Root<Arr>)
    ensures
        !(v is Arr) ==> VecDeque::<T>::of_val(h, v) == Err::<Seq<T::Model>, GError>(
            GError::WrongType { expected: Expected::VecDeque, received: v.type_of() },
        ),
        root.id >= h.arrs.len() ==> VecDeque::<T>::of_val(h, Val::Arr(root)) == Err::<
            Seq<T::Model>,
            GError,
        >(
            GError::StaleHandle { received: ValType::Arr },
        ),
{
}

/// A `SmallList` is read from an array, item by item: where every item can be read, there are as
/// many as the array has, each read from the item in its own place. Where one cannot, the first
/// such is the reason.
pub proof fn law_read_small_list<T: FromVal, const N: usize>(h: Store, root: Root<Arr>, k: int)
    requires
        root.id < h.arrs.len(),
    ensures
        ({
            let items = h.arrs[root.id as int];
            let read = SmallList::<T, N>::of_val(h, Val::Arr(root));
            &&& read is Ok <==> forall|i: int|
                0 <= i < items.len() ==> T::of_val(h, #[trigger] items[i].val()) is Ok
            &&& read matches Ok(models) ==> {
                &&& models.len() == items.len()
                &&& forall|i: int|
                    0 <= i < items.len() ==> T::of_val(
                        h,
                        #[trigger] items[i].val(),
                    ) == Ok::<T::Model, GError>(models[i])
            }
            &&& 0 <= k < items.len() && T::of_val(h, items[k].val()) is Err && (forall|i: int|
                0 <= i < k ==> T::of_val(
                    h,
                    #[trigger] items[i].val(),
                ) is Ok) ==> read == Err::<Seq<T::Model>, GError>(
                T::of_val(h, items[k].val())->Err_0,
            )
        }),
{
    lemma_read_items::<T>(h, h.arrs[root.id as int], k);
}

/// A `SmallList` is read from no value but a good handle to an array.
pub proof fn law_small_list_refused<T: FromVal, const N: usize>(h: Store, v: Val, root: Root<Arr>)
    ensures
        !(v is Arr) ==> SmallList::<T, N>::of_val(h, v) == Err::<Seq<T::Model>, GError>(
            GError::WrongType { expected: Expected::SmallVec, received: v.type_of() },
        ),
        root.id >= h.arrs.len() ==> SmallList::<T, N>::of_val(h, Val::Arr(root)) == Err::<
            Seq<T::Model>,
            GError,
        >(
            GError::StaleHandle { received: ValType::Arr },
        ),
{
}

/// A host array is read from an array of its length, item by item: where every item can be read,
/// there are as many as the array has, each read from the item in its own place. Where one cannot,
/// the first such is the reason.
pub proof fn law_read_array<T: FromVal, const N: usize>(h: Store, root: Root<Arr>, k: int)
    requires
        root.id < h.arrs.len(),
        h.arrs[root.id as int].len() == N,
    ensures
        ({
            let items = h.arrs[root.id as int];
            let read = <[T; N]>::of_val(h, Val::Arr(root));
            &&& read is Ok <==> forall|i: int|
                0 <= i < items.len() ==> T::of_val(h, #[trigger] items[i].val()) is Ok
            &&& read matches Ok(models) ==> {
                &&& models.len() == items.len()
                &&& forall|i: int|
                    0 <= i < items.len() ==> T::of_val(
                        h,
                        #[trigger] items[i].val(),
                    ) == Ok::<T::Model, GError>(models[i])
            }
            &&& 0 <= k < items.len() && T::of_val(h, items[k].val()) is Err && (forall|i: int|
                0 <= i < k ==> T::of_val(
                    h,
                    #[trigger] items[i].val(),
                ) is Ok) ==> read == Err::<Seq<T::Model>, GError>(
                T::of_val(h, items[k].val())->Err_0,
            )
        }),
{
    lemma_read_items::<T>(h, h.arrs[root.id as int], k);
}

/// A host array is read from no value but a good handle to an array of its length.
pub proof fn law_array_refused<T: FromVal, const N: usize>(h: Store, v: Val, root: Root<Arr>)
    ensures
        !(v is Arr) ==> <[T; N]>::of_val(h, v) == Err::<Seq<T::Model>, GError>(
            GError::WrongType { expected: Expected::Array(N), received: v.type_of() },
        ),
        root.id >= h.arrs.len() ==> <[T; N]>::of_val(h, Val::Arr(root)) == Err::<
            Seq<T::Model>,
            GError,
        >(
            GError::StaleHandle { received: ValType::Arr },
        ),
        root.id < h.arrs.len() && h.arrs[root.id as int].len() != N ==> <[T; N]>::of_val(
            h,
            Val::Arr(root),
        ) == Err::<Seq<T::Model>, GError>(
            GError::ArrayLength {
                expected: N,
                received: h.arrs[root.id as int].len() as usize,
            },
        ),
{
}

/// A list of slots is converted item by item, up to the first that fails.
pub(crate) proof fn lemma_read_items<T: FromVal>(h: Store, items: Seq<Slot>, k: int)
    ensures
        each::<T>(h, items) is Ok <==> forall|i: int|
            0 <= i < items.len() ==> T::of_val(h, #[trigger] items[i].val()) is Ok,
        each::<T>(h, items) matches Ok(models) ==> {
            &&& models.len() == items.len()
            &&& forall|i: int|
                0 <= i < items.len() ==> T::of_val(h, #[trigger] items[i].val()) == Ok::<
                    T::Model,
                    GError,
                >(models[i])
        },
        0 <= k < items.len() && T::of_val(h, items[k].val()) is Err && (forall|i: int|
            0 <= i < k ==> T::of_val(h, #[trigger] items[i].val()) is Ok) ==> each::<T>(h, items)
            == Err::<Seq<T::Model>, GError>(T::of_val(h, items[k].val())->Err_0),
{
    if each::<T>(h, items) is Ok {
        lemma_each_ok::<T>(h, items);
    }
    if forall|i: int| 0 <= i < items.len() ==> T::of_val(h, #[trigger] items[i].val()) is Ok {
        law_list_converts::<T>(h, items);
    }
    if 0 <= k < items.len() && T::of_val(h, items[k].val()) is Err && (forall|i: int|
        0 <= i < k ==> T::of_val(h, #[trigger] items[i].val()) is Ok) {
        law_first_failure::<T>(h, items, k);
    }
}

/// A tuple of 1 is read from an array of 1, each field from the item in its own place. The first
/// that cannot be read is the reason.
pub proof fn law_read_tuple_1<A: FromVal>(h: Store, root: Root<Arr>)
    requires
        root.id < h.arrs.len(),
        h.arrs[root.id as int].len() == 1,
    ensures
        ({
            let items = h.arrs[root.id as int];
            let read = <(A,)>::of_val(h, Val::Arr(root));
            let r0 = A::of_val(h, items[0].val());
            &&& r0 is Err ==> read == Err::<(A::Model,), GError>(r0->Err_0)
            &&& r0 is Ok ==> read == Ok::<(A::Model,), GError>(
                (r0->Ok_0,),
            )
        }),
{
}

/// A tuple of 1 is read from no value but a good handle to an array of 1.
pub proof fn law_tuple_1_refused<A: FromVal>(h: Store, v: Val, root: Root<Arr>)
    ensures
        !(v is Arr) ==> <(A,)>::of_val(h, v) == Err::<(A::Model,), GError>(
            GError::WrongType { expected: Expected::Tuple, received: v.type_of() },
        ),
        root.id >= h.arrs.len() ==> <(A,)>::of_val(h, Val::Arr(root)) == Err::<(A::Model,), GError>(
            GError::StaleHandle { received: ValType::Arr },
        ),
        root.id < h.arrs.len() && h.arrs[root.id as int].len() != 1 ==> <(A,)>::of_val(
            h,
            Val::Arr(root),
        ) == Err::<(A::Model,), GError>(
            GError::TupleLength {
                expected: 1,
                received: h.arrs[root.id as int].len() as usize,
            },
        ),
{
}

/// What stands for a tuple of 1 is what stands for its fields, each in its own place.
pub proof fn law_tuple_1_model<A: Modelled>(t: (A,))
    ensures
        t.model().0 == t.0.model(),
{
}

/// A tuple of 2 is read from an array of 2, each field from the item in its own place. The first
/// that cannot be read is the reason.
pub proof fn law_read_tuple_2<A: FromVal, B: FromVal>(h: Store, root: Root<Arr>)
    requires
        root.id < h.arrs.len(),
        h.arrs[root.id as int].len() == 2,
    ensures
        ({
            let items = h.arrs[root.id as int];
            let read = <(A, B)>::of_val(h, Val::Arr(root));
            let r0 = A::of_val(h, items[0].val());
            let r1 = B::of_val(h, items[1].val());
            &&& r0 is Err ==> read == Err::<(A::Model, B::Model), GError>(r0->Err_0)
            &&& r0 is Ok && r1 is Err ==> read == Err::<(A::Model, B::Model), GError>(r1->Err_0)
            &&& r0 is Ok && r1 is Ok ==> read == Ok::<(A::Model, B::Model), GError>(
                (r0->Ok_0, r1->Ok_0),
            )
        }),
{
}

/// A tuple of 2 is read from no value but a good handle to an array of 2.
pub proof fn law_tuple_2_refused<A: FromVal, B: FromVal>(h: Store, v: Val, root: Root<Arr>)
    ensures
        !(v is Arr) ==> <(A, B)>::of_val(h, v) == Err::<(A::Model, B::Model), GError>(
            GError::WrongType { expected: Expected::Tuple, received: v.type_of() },
        ),
        root.id >= h.arrs.len() ==> <(A, B)>::of_val(h, Val::Arr(root)) == Err::<
            (A::Model, B::Model),
            GError,
        >(
            GError::StaleHandle { received: ValType::Arr },
        ),
        root.id < h.arrs.len() && h.arrs[root.id as int].len() != 2 ==> <(A, B)>::of_val(
            h,
            Val::Arr(root),
        ) == Err::<(A::Model, B::Model), GError>(
            GError::TupleLength {
                expected: 2,
                received: h.arrs[root.id as int].len() as usize,
            },
        ),
{
}

/// What stands for a tuple of 2 is what stands for its fields, each in its own place.
pub proof fn law_tuple_2_model<A: Modelled, B: Modelled>(t: (A, B))
    ensures
        t.model().0 == t.0.model(),
        t.model().1 == t.1.model(),
{
}

/// A tuple of 3 is read from an array of 3, each field from the item in its own place. The first
/// that cannot be read is the reason.
pub proof fn law_read_tuple_3<A: FromVal, B: FromVal, C: FromVal>(h: Store, root: Root<Arr>)
    requires
        root.id < h.arrs.len(),
        h.arrs[root.id as int].len() == 3,
    ensures
        ({
            let items = h.arrs[root.id as int];
            let read = <(A, B, C)>::of_val(h, Val::Arr(root));
            let r0 = A::of_val(h, items[0].val());
            let r1 = B::of_val(h, items[1].val());
            let r2 = C::of_val(h, items[2].val());
            &&& r0 is Err ==> read == Err::<(A::Model, B::Model, C::Model), GError>(r0->Err_0)
            &&& r0 is Ok && r1 is Err ==> read == Err::<
                (A::Model, B::Model, C::Model),
                GError,
            >(r1->Err_0)
            &&& r0 is Ok && r1 is Ok && r2 is Err ==> read == Err::<
                (A::Model, B::Model, C::Model),
                GError,
            >(r2->Err_0)
            &&& r0 is Ok && r1 is Ok && r2 is Ok ==> read == Ok::<
                (A::Model, B::Model, C::Model),
                GError,
            >(
                (r0->Ok_0, r1->Ok_0, r2->Ok_0),
            )
        }),
{
}

/// A tuple of 3 is read from no value but a good handle to an array of 3.
pub proof fn law_tuple_3_refused<
    A: FromVal,
    B: FromVal,
    C: FromVal,
>(h: Store, v: Val, root: Root<Arr>)
    ensures
        !(v is Arr) ==> <(A, B, C)>::of_val(h, v) == Err::<(A::Model, B::Model, C::Model), GError>(
            GError::WrongType { expected: Expected::Tuple, received: v.type_of() },
        ),
        root.id >= h.arrs.len() ==> <(A, B, C)>::of_val(h, Val::Arr(root)) == Err::<
            (A::Model, B::Model, C::Model),
            GError,
        >(
            GError::StaleHandle { received: ValType::Arr },
        ),
        root.id < h.arrs.len() && h.arrs[root.id as int].len() != 3 ==> <(A, B, C)>::of_val(
            h,
            Val::Arr(root),
        ) == Err::<(A::Model, B::Model, C::Model), GError>(
            GError::TupleLength {
                expected: 3,
                received: h.arrs[root.id as int].len() as usize,
            },
        ),
{
}

/// What stands for a tuple of 3 is what stands for its fields, each in its own place.
pub proof fn law_tuple_3_model<A: Modelled, B: Modelled, C: Modelled>(t: (A, B, C))
    ensures
        t.model().0 == t.0.model(),
        t.model().1 == t.1.model(),
        t.model().2 == t.2.model(),
{
}

/// A tuple of 4 is read from an array of 4, each field from the item in its own place. The first
/// that cannot be read is the reason.
pub proof fn law_read_tuple_4<
    A: FromVal,
    B: FromVal,
    C: FromVal,
    D: FromVal,
>(h: Store, root: Root<Arr>)
    requires
        root.id < h.arrs.len(),
        h.arrs[root.id as int].len() == 4,
    ensures
        ({
            let items = h.arrs[root.id as int];
            let read = <(A, B, C, D)>::of_val(h, Val::Arr(root));
            let r0 = A::of_val(h, items[0].val());
            let r1 = B::of_val(h, items[1].val());
            let r2 = C::of_val(h, items[2].val());
            let r3 = D::of_val(h, items[3].val());
            &&& r0 is Err ==> read == Err::<
                (A::Model, B::Model, C::Model, D::Model),
                GError,
            >(r0->Err_0)
            &&& r0 is Ok && r1 is Err ==> read == Err::<
                (A::Model, B::Model, C::Model, D::Model),
                GError,
            >(r1->Err_0)
            &&& r0 is Ok && r1 is Ok && r2 is Err ==> read == Err::<
                (A::Model, B::Model, C::Model, D::Model),
                GError,
            >(r2->Err_0)
            &&& r0 is Ok && r1 is Ok && r2 is Ok && r3 is Err ==> read == Err::<
                (A::Model, B::Model, C::Model, D::Model),
                GError,
            >(r3->Err_0)
            &&& r0 is Ok && r1 is Ok && r2 is Ok && r3 is Ok ==> read == Ok::<
                (A::Model, B::Model, C::Model, D::Model),
                GError,
            >(
                (r0->Ok_0, r1->Ok_0, r2->Ok_0, r3->Ok_0),
            )
        }),
{
}

/// A tuple of 4 is read from no value but a good handle to an array of 4.
pub proof fn law_tuple_4_refused<
    A: FromVal,
    B: FromVal,
    C: FromVal,
    D: FromVal,
>(h: Store, v: Val, root: Root<Arr>)
    ensures
        !(v is Arr) ==> <(A, B, C, D)>::of_val(h, v) == Err::<
            (A::Model, B::Model, C::Model, D::Model),
            GError,
        >(
            GError::WrongType { expected: Expected::Tuple, received: v.type_of() },
        ),
        root.id >= h.arrs.len() ==> <(A, B, C, D)>::of_val(h, Val::Arr(root)) == Err::<
            (A::Model, B::Model, C::Model, D::Model),
            GError,
        >(
            GError::StaleHandle { received: ValType::Arr },
        ),
        root.id < h.arrs.len() && h.arrs[root.id as int].len() != 4 ==> <(A, B, C, D)>::of_val(
            h,
            Val::Arr(root),
        ) == Err::<(A::Model, B::Model, C::Model, D::Model), GError>(
            GError::TupleLength {
                expected: 4,
                received: h.arrs[root.id as int].len() as usize,
            },
        ),
{
}

/// What stands for a tuple of 4 is what stands for its fields, each in its own place.
pub proof fn law_tuple_4_model<A: Modelled, B: Modelled, C: Modelled, D: Modelled>(t: (A, B, C, D))
    ensures
        t.model().0 == t.0.model(),
        t.model().1 == t.1.model(),
        t.model().2 == t.2.model(),
        t.model().3 == t.3.model(),
{
}

/// A tuple of 5 is read from an array of 5, each field from the item in its own place. The first
/// that cannot be read is the reason.
pub proof fn law_read_tuple_5<
    A: FromVal,
    B: FromVal,
    C: FromVal,
    D: FromVal,
    E: FromVal,
>(h: Store, root: Root<Arr>)
    requires
        root.id < h.arrs.len(),
        h.arrs[root.id as int].len() == 5,
    ensures
        ({
            let items = h.arrs[root.id as int];
            let read = <(A, B, C, D, E)>::of_val(h, Val::Arr(root));
            let r0 = A::of_val(h, items[0].val());
            let r1 = B::of_val(h, items[1].val());
            let r2 = C::of_val(h, items[2].val());
            let r3 = D::of_val(h, items[3].val());
            let r4 = E::of_val(h, items[4].val());
            &&& r0 is Err ==> read == Err::<
                (A::Model, B::Model, C::Model, D::Model, E::Model),
                GError,
            >(r0->Err_0)
            &&& r0 is Ok && r1 is Err ==> read == Err::<
                (A::Model, B::Model, C::Model, D::Model, E::Model),
                GError,
            >(r1->Err_0)
            &&& r0 is Ok && r1 is Ok && r2 is Err ==> read == Err::<
                (A::Model, B::Model, C::Model, D::Model, E::Model),
                GError,
            >(r2->Err_0)
            &&& r0 is Ok && r1 is Ok && r2 is Ok && r3 is Err ==> read == Err::<
                (A::Model, B::Model, C::Model, D::Model, E::Model),
                GError,
            >(r3->Err_0)
            &&& r0 is Ok && r1 is Ok && r2 is Ok && r3 is Ok && r4 is Err ==> read == Err::<
                (A::Model, B::Model, C::Model, D::Model, E::Model),
                GError,
            >(r4->Err_0)
            &&& r0 is Ok && r1 is Ok && r2 is Ok && r3 is Ok && r4 is Ok ==> read == Ok::<
                (A::Model, B::Model, C::Model, D::Model, E::Model),
                GError,
            >(
                (r0->Ok_0, r1->Ok_0, r2->Ok_0, r3->Ok_0, r4->Ok_0),
            )
        }),
{
}

/// A tuple of 5 is read from no value but a good handle to an array of 5.
pub proof fn law_tuple_5_refused<
    A: FromVal,
    B: FromVal,
    C: FromVal,
    D: FromVal,
    E: FromVal,
>(h: Store, v: Val, root: Root<Arr>)
    ensures
        !(v is Arr) ==> <(A, B, C, D, E)>::of_val(h, v) == Err::<
            (A::Model, B::Model, C::Model, D::Model, E::Model),
            GError,
        >(
            GError::WrongType { expected: Expected::Tuple, received: v.type_of() },
        ),
        root.id >= h.arrs.len() ==> <(A, B, C, D, E)>::of_val(h, Val::Arr(root)) == Err::<
            (A::Model, B::Model, C::Model, D::Model, E::Model),
            GError,
        >(
            GError::StaleHandle { received: ValType::Arr },
        ),
        root.id < h.arrs.len() && h.arrs[root.id as int].len() != 5 ==> <(A, B, C, D, E)>::of_val(
            h,
            Val::Arr(root),
        ) == Err::<(A::Model, B::Model, C::Model, D::Model, E::Model), GError>(
            GError::TupleLength {
                expected: 5,
                received: h.arrs[root.id as int].len() as usize,
            },
        ),
{
}

/// What stands for a tuple of 5 is what stands for its fields, each in its own place.
pub proof fn law_tuple_5_model<
    A: Modelled,
    B: Modelled,
    C: Modelled,
    D: Modelled,
    E: Modelled,
>(t: (A, B, C, D, E))
    ensures
        t.model().0 == t.0.model(),
        t.model().1 == t.1.model(),
        t.model().2 == t.2.model(),
        t.model().3 == t.3.model(),
        t.model().4 == t.4.model(),
{
}

/// A tuple of 6 is read from an array of 6, each field from the item in its own place. The first
/// that cannot be read is the reason.
pub proof fn law_read_tuple_6<
    A: FromVal,
    B: FromVal,
    C: FromVal,
    D: FromVal,
    E: FromVal,
    F: FromVal,
>(h: Store, root: Root<Arr>)
    requires
        root.id < h.arrs.len(),
        h.arrs[root.id as int].len() == 6,
    ensures
        ({
            let items = h.arrs[root.id as int];
            let read = <(A, B, C, D, E, F)>::of_val(h, Val::Arr(root));
            let r0 = A::of_val(h, items[0].val());
            let r1 = B::of_val(h, items[1].val());
            let r2 = C::of_val(h, items[2].val());
            let r3 = D::of_val(h, items[3].val());
            let r4 = E::of_val(h, items[4].val());
            let r5 = F::of_val(h, items[5].val());
            &&& r0 is Err ==> read == Err::<
                (A::Model, B::Model, C::Model, D::Model, E::Model, F::Model),
                GError,
            >(r0->Err_0)
            &&& r0 is Ok && r1 is Err ==> read == Err::<
                (A::Model, B::Model, C::Model, D::Model, E::Model, F::Model),
                GError,
            >(r1->Err_0)
            &&& r0 is Ok && r1 is Ok && r2 is Err ==> read == Err::<
                (A::Model, B::Model, C::Model, D::Model, E::Model, F::Model),
                GError,
            >(r2->Err_0)
            &&& r0 is Ok && r1 is Ok && r2 is Ok && r3 is Err ==> read == Err::<
                (A::Model, B::Model, C::Model, D::Model, E::Model, F::Model),
                GError,
            >(r3->Err_0)
            &&& r0 is Ok && r1 is Ok && r2 is Ok && r3 is Ok && r4 is Err ==> read == Err::<
                (A::Model, B::Model, C::Model, D::Model, E::Model, F::Model),
                GError,
            >(r4->Err_0)
            &&& r0 is Ok && r1 is Ok && r2 is Ok && r3 is Ok && r4 is Ok && r5 is Err ==> read
                == Err::<(A::Model, B::Model, C::Model, D::Model, E::Model, F::Model),
                GError>(r5->Err_0)
            &&& r0 is Ok && r1 is Ok && r2 is Ok && r3 is Ok && r4 is Ok && r5 is Ok ==> read
                == Ok::<(A::Model, B::Model, C::Model, D::Model, E::Model, F::Model), GError>(
                (r0->Ok_0, r1->Ok_0, r2->Ok_0, r3->Ok_0, r4->Ok_0, r5->Ok_0),
            )
        }),
{
}

/// A tuple of 6 is read from no value but a good handle to an array of 6.
pub proof fn law_tuple_6_refused<
    A: FromVal,
    B: FromVal,
    C: FromVal,
    D: FromVal,
    E: FromVal,
    F: FromVal,
>(h: Store, v: Val, root: Root<Arr>)
    ensures
        !(v is Arr) ==> <(A, B, C, D, E, F)>::of_val(h, v) == Err::<
            (A::Model, B::Model, C::Model, D::Model, E::Model, F::Model),
            GError,
        >(
            GError::WrongType { expected: Expected::Tuple, received: v.type_of() },
        ),
        root.id >= h.arrs.len() ==> <(A, B, C, D, E, F)>::of_val(h, Val::Arr(root)) == Err::<
            (A::Model, B::Model, C::Model, D::Model, E::Model, F::Model),
            GError,
        >(
            GError::StaleHandle { received: ValType::Arr },
        ),
        root.id < h.arrs.len() && h.arrs[root.id as int].len() != 6 ==> <(
            A,
            B,
            C,
            D,
            E,
            F,
        )>::of_val(h, Val::Arr(root))
            == Err::<(A::Model, B::Model, C::Model, D::Model, E::Model, F::Model), GError>(
            GError::TupleLength {
                expected: 6,
                received: h.arrs[root.id as int].len() as usize,
            },
        ),
{
}

/// What stands for a tuple of 6 is what stands for its fields, each in its own place.
pub proof fn law_tuple_6_model<
    A: Modelled,
    B: Modelled,
    C: Modelled,
    D: Modelled,
    E: Modelled,
    F: Modelled,
>(t: (A, B, C, D, E, F))
    ensures
        t.model().0 == t.0.model(),
        t.model().1 == t.1.model(),
        t.model().2 == t.2.model(),
        t.model().3 == t.3.model(),
        t.model().4 == t.4.model(),
        t.model().5 == t.5.model(),
{
}

/// A tuple of 7 is read from an array of 7, each field from the item in its own place. The first
/// that cannot be read is the reason.
pub proof fn law_read_tuple_7<
    A: FromVal,
    B: FromVal,
    C: FromVal,
    D: FromVal,
    E: FromVal,
    F: FromVal,
    G: FromVal,
>(h: Store, root: Root<Arr>)
    requires
        root.id < h.arrs.len(),
        h.arrs[root.id as int].len() == 7,
    ensures
        ({
            let items = h.arrs[root.id as int];
            let read = <(A, B, C, D, E, F, G)>::of_val(h, Val::Arr(root));
            let r0 = A::of_val(h, items[0].val());
            let r1 = B::of_val(h, items[1].val());
            let r2 = C::of_val(h, items[2].val());
            let r3 = D::of_val(h, items[3].val());
            let r4 = E::of_val(h, items[4].val());
            let r5 = F::of_val(h, items[5].val());
            let r6 = G::of_val(h, items[6].val());
            &&& r0 is Err ==> read == Err::<
                (A::Model, B::Model, C::Model, D::Model, E::Model, F::Model, G::Model),
                GError,
            >(r0->Err_0)
            &&& r0 is Ok && r1 is Err ==> read == Err::<
                (A::Model, B::Model, C::Model, D::Model, E::Model, F::Model, G::Model),
                GError,
            >(r1->Err_0)
            &&& r0 is Ok && r1 is Ok && r2 is Err ==> read == Err::<
                (A::Model, B::Model, C::Model, D::Model, E::Model, F::Model, G::Model),
                GError,
            >(r2->Err_0)
            &&& r0 is Ok && r1 is Ok && r2 is Ok && r3 is Err ==> read == Err::<
                (A::Model, B::Model, C::Model, D::Model, E::Model, F::Model, G::Model),
                GError,
            >(r3->Err_0)
            &&& r0 is Ok && r1 is Ok && r2 is Ok && r3 is Ok && r4 is Err ==> read == Err::<
                (A::Model, B::Model, C::Model, D::Model, E::Model, F::Model, G::Model),
                GError,
            >(r4->Err_0)
            &&& r0 is Ok && r1 is Ok && r2 is Ok && r3 is Ok && r4 is Ok && r5 is Err ==> read
                == Err::<(A::Model, B::Model, C::Model, D::Model, E::Model, F::Model, G::Model),
                GError>(r5->Err_0)
            &&& r0 is Ok && r1 is Ok && r2 is Ok && r3 is Ok && r4 is Ok && r5 is Ok
                && r6 is Err ==> read
                == Err::<(A::Model, B::Model, C::Model, D::Model, E::Model, F::Model, G::Model),
                GError>(r6->Err_0)
            &&& r0 is Ok && r1 is Ok && r2 is Ok && r3 is Ok && r4 is Ok && r5 is Ok
                && r6 is Ok ==> read
                == Ok::<(A::Model, B::Model, C::Model, D::Model, E::Model, F::Model, G::Model),
                GError>(
                (r0->Ok_0, r1->Ok_0, r2->Ok_0, r3->Ok_0, r4->Ok_0, r5->Ok_0, r6->Ok_0),
            )
        }),
{
}

/// A tuple of 7 is read from no value but a good handle to an array of 7.
pub proof fn law_tuple_7_refused<
    A: FromVal,
    B: FromVal,
    C: FromVal,
    D: FromVal,
    E: FromVal,
    F: FromVal,
    G: FromVal,
>(h: Store, v: Val, root: Root<Arr>)
    ensures
        !(v is Arr) ==> <(A, B, C, D, E, F, G)>::of_val(h, v) == Err::<
            (A::Model, B::Model, C::Model, D::Model, E::Model, F::Model, G::Model),
            GError,
        >(
            GError::WrongType { expected: Expected::Tuple, received: v.type_of() },
        ),
        root.id >= h.arrs.len() ==> <(A, B, C, D, E, F, G)>::of_val(h, Val::Arr(root)) == Err::<
            (A::Model, B::Model, C::Model, D::Model, E::Model, F::Model, G::Model),
            GError,
        >(
            GError::StaleHandle { received: ValType::Arr },
        ),
        root.id < h.arrs.len() && h.arrs[root.id as int].len() != 7 ==> <(
            A,
            B,
            C,
            D,
            E,
            F,
            G,
        )>::of_val(h, Val::Arr(root))
            == Err::<(A::Model, B::Model, C::Model, D::Model, E::Model, F::Model, G::Model),
            GError>(
            GError::TupleLength {
                expected: 7,
                received: h.arrs[root.id as int].len() as usize,
            },
        ),
{
}

/// What stands for a tuple of 7 is what stands for its fields, each in its own place.
pub proof fn law_tuple_7_model<
    A: Modelled,
    B: Modelled,
    C: Modelled,
    D: Modelled,
    E: Modelled,
    F: Modelled,
    G: Modelled,
>(t: (A, B, C, D, E, F, G))
    ensures
        t.model().0 == t.0.model(),
        t.model().1 == t.1.model(),
        t.model().2 == t.2.model(),
        t.model().3 == t.3.model(),
        t.model().4 == t.4.model(),
        t.model().5 == t.5.model(),
        t.model().6 == t.6.model(),
{
}

/// A tuple of 8 is read from an array of 8, each field from the item in its own place. The first
/// that cannot be read is the reason.
pub proof fn law_read_tuple_8<
    A: FromVal,
    B: FromVal,
    C: FromVal,
    D: FromVal,
    E: FromVal,
    F: FromVal,
    G: FromVal,
    H: FromVal,
>(h: Store, root: Root<Arr>)
    requires
        root.id < h.arrs.len(),
        h.arrs[root.id as int].len() == 8,
    ensures
        ({
            let items = h.arrs[root.id as int];
            let read = <(A, B, C, D, E, F, G, H)>::of_val(h, Val::Arr(root));
            let r0 = A::of_val(h, items[0].val());
            let r1 = B::of_val(h, items[1].val());
            let r2 = C::of_val(h, items[2].val());
            let r3 = D::of_val(h, items[3].val());
            let r4 = E::of_val(h, items[4].val());
            let r5 = F::of_val(h, items[5].val());
            let r6 = G::of_val(h, items[6].val());
            let r7 = H::of_val(h, items[7].val());
            &&& r0 is Err ==> read == Err::<
                (A::Model, B::Model, C::Model, D::Model, E::Model, F::Model, G::Model, H::Model),
                GError,
            >(r0->Err_0)
            &&& r0 is Ok && r1 is Err ==> read == Err::<
                (A::Model, B::Model, C::Model, D::Model, E::Model, F::Model, G::Model, H::Model),
                GError,
            >(r1->Err_0)
            &&& r0 is Ok && r1 is Ok && r2 is Err ==> read == Err::<
                (A::Model, B::Model, C::Model, D::Model, E::Model, F::Model, G::Model, H::Model),
                GError,
            >(r2->Err_0)
            &&& r0 is Ok && r1 is Ok && r2 is Ok && r3 is Err ==> read == Err::<
                (A::Model, B::Model, C::Model, D::Model, E::Model, F::Model, G::Model, H::Model),
                GError,
            >(r3->Err_0)
            &&& r0 is Ok && r1 is Ok && r2 is Ok && r3 is Ok && r4 is Err ==> read == Err::<
                (A::Model, B::Model, C::Model, D::Model, E::Model, F::Model, G::Model, H::Model),
                GError,
            >(r4->Err_0)
            &&& r0 is Ok && r1 is Ok && r2 is Ok && r3 is Ok && r4 is Ok && r5 is Err ==> read
                == Err::<(A::Model, B::Model, C::Model, D::Model, E::Model, F::Model, G::Model,
                H::Model), GError>(r5->Err_0)
            &&& r0 is Ok && r1 is Ok && r2 is Ok && r3 is Ok && r4 is Ok && r5 is Ok
                && r6 is Err ==> read
                == Err::<(A::Model, B::Model, C::Model, D::Model, E::Model, F::Model, G::Model,
                H::Model), GError>(r6->Err_0)
            &&& r0 is Ok && r1 is Ok && r2 is Ok && r3 is Ok && r4 is Ok && r5 is Ok
                && r6 is Ok && r7 is Err ==> read
                == Err::<(A::Model, B::Model, C::Model, D::Model, E::Model, F::Model, G::Model,
                H::Model), GError>(r7->Err_0)
            &&& r0 is Ok && r1 is Ok && r2 is Ok && r3 is Ok && r4 is Ok && r5 is Ok
                && r6 is Ok && r7 is Ok ==> read
                == Ok::<(A::Model, B::Model, C::Model, D::Model, E::Model, F::Model, G::Model,
                H::Model), GError>(
                (r0->Ok_0, r1->Ok_0, r2->Ok_0, r3->Ok_0, r4->Ok_0, r5->Ok_0, r6->Ok_0, r7->Ok_0),
            )
        }),
{
}

/// A tuple of 8 is read from no value but a good handle to an array of 8.
pub proof fn law_tuple_8_refused<
    A: FromVal,
    B: FromVal,
    C: FromVal,
    D: FromVal,
    E: FromVal,
    F: FromVal,
    G: FromVal,
    H: FromVal,
>(h: Store, v: Val, root: Root<Arr>)
    ensures
        !(v is Arr) ==> <(A, B, C, D, E, F, G, H)>::of_val(h, v) == Err::<
            (A::Model, B::Model, C::Model, D::Model, E::Model, F::Model, G::Model, H::Model),
            GError,
        >(
            GError::WrongType { expected: Expected::Tuple, received: v.type_of() },
        ),
        root.id >= h.arrs.len() ==> <(A, B, C, D, E, F, G, H)>::of_val(h, Val::Arr(root)) == Err::<
            (A::Model, B::Model, C::Model, D::Model, E::Model, F::Model, G::Model, H::Model),
            GError,
        >(
            GError::StaleHandle { received: ValType::Arr },
        ),
        root.id < h.arrs.len() && h.arrs[root.id as int].len() != 8 ==> <(
            A,
            B,
            C,
            D,
            E,
            F,
            G,
            H,
        )>::of_val(h, Val::Arr(root))
            == Err::<(A::Model, B::Model, C::Model, D::Model, E::Model, F::Model, G::Model,
            H::Model), GError>(
            GError::TupleLength {
                expected: 8,
                received: h.arrs[root.id as int].len() as usize,
            },
        ),
{
}

/// What stands for a tuple of 8 is what stands for its fields, each in its own place.
pub proof fn law_tuple_8_model<
    A: Modelled,
    B: Modelled,
    C: Modelled,
    D: Modelled,
    E: Modelled,
    F: Modelled,
    G: Modelled,
    H: Modelled,
>(t: (A, B, C, D, E, F, G, H))
    ensures
        t.model().0 == t.0.model(),
        t.model().1 == t.1.model(),
        t.model().2 == t.2.model(),
        t.model().3 == t.3.model(),
        t.model().4 == t.4.model(),
        t.model().5 == t.5.model(),
        t.model().6 == t.6.model(),
        t.model().7 == t.7.model(),
{
}

/// A tuple of 9 is read from an array of 9, each field from the item in its own place. The first
/// that cannot be read is the reason.
pub proof fn law_read_tuple_9<
    A: FromVal,
    B: FromVal,
    C: FromVal,
    D: FromVal,
    E: FromVal,
    F: FromVal,
    G: FromVal,
    H: FromVal,
    I: FromVal,
>(h: Store, root: Root<Arr>)
    requires
        root.id < h.arrs.len(),
        h.arrs[root.id as int].len() == 9,
    ensures
        ({
            let items = h.arrs[root.id as int];
            let read = <(A, B, C, D, E, F, G, H, I)>::of_val(h, Val::Arr(root));
            let r0 = A::of_val(h, items[0].val());
            let r1 = B::of_val(h, items[1].val());
            let r2 = C::of_val(h, items[2].val());
            let r3 = D::of_val(h, items[3].val());
            let r4 = E::of_val(h, items[4].val());
            let r5 = F::of_val(h, items[5].val());
            let r6 = G::of_val(h, items[6].val());
            let r7 = H::of_val(h, items[7].val());
            let r8 = I::of_val(h, items[8].val());
            &&& r0 is Err ==> read == Err::<
                (
                    A::Model,
                    B::Model,
                    C::Model,
                    D::Model,
                    E::Model,
                    F::Model,
                    G::Model,
                    H::Model,
                    I::Model,
                ),
                GError,
            >(r0->Err_0)
            &&& r0 is Ok && r1 is Err ==> read == Err::<
                (
                    A::Model,
                    B::Model,
                    C::Model,
                    D::Model,
                    E::Model,
                    F::Model,
                    G::Model,
                    H::Model,
                    I::Model,
                ),
                GError,
            >(r1->Err_0)
            &&& r0 is Ok && r1 is Ok && r2 is Err ==> read == Err::<
                (
                    A::Model,
                    B::Model,
                    C::Model,
                    D::Model,
                    E::Model,
                    F::Model,
                    G::Model,
                    H::Model,
                    I::Model,
                ),
                GError,
            >(r2->Err_0)
            &&& r0 is Ok && r1 is Ok && r2 is Ok && r3 is Err ==> read == Err::<
                (
                    A::Model,
                    B::Model,
                    C::Model,
                    D::Model,
                    E::Model,
                    F::Model,
                    G::Model,
                    H::Model,
                    I::Model,
                ),
                GError,
            >(r3->Err_0)
            &&& r0 is Ok && r1 is Ok && r2 is Ok && r3 is Ok && r4 is Err ==> read == Err::<
                (
                    A::Model,
                    B::Model,
                    C::Model,
                    D::Model,
                    E::Model,
                    F::Model,
                    G::Model,
                    H::Model,
                    I::Model,
                ),
                GError,
            >(r4->Err_0)
            &&& r0 is Ok && r1 is Ok && r2 is Ok && r3 is Ok && r4 is Ok && r5 is Err ==> read
                == Err::<(A::Model, B::Model, C::Model, D::Model, E::Model, F::Model, G::Model,
                H::Model, I::Model), GError>(r5->Err_0)
            &&& r0 is Ok && r1 is Ok && r2 is Ok && r3 is Ok && r4 is Ok && r5 is Ok
                && r6 is Err ==> read
                == Err::<(A::Model, B::Model, C::Model, D::Model, E::Model, F::Model, G::Model,
                H::Model, I::Model), GError>(r6->Err_0)
            &&& r0 is Ok && r1 is Ok && r2 is Ok && r3 is Ok && r4 is Ok && r5 is Ok
                && r6 is Ok && r7 is Err ==> read
                == Err::<(A::Model, B::Model, C::Model, D::Model, E::Model, F::Model, G::Model,
                H::Model, I::Model), GError>(r7->Err_0)
            &&& r0 is Ok && r1 is Ok && r2 is Ok && r3 is Ok && r4 is Ok && r5 is Ok
                && r6 is Ok && r7 is Ok && r8 is Err ==> read
                == Err::<(A::Model, B::Model, C::Model, D::Model, E::Model, F::Model, G::Model,
                H::Model, I::Model), GError>(r8->Err_0)
            &&& r0 is Ok && r1 is Ok && r2 is Ok && r3 is Ok && r4 is Ok && r5 is Ok
                && r6 is Ok && r7 is Ok && r8 is Ok ==> read
                == Ok::<(A::Model, B::Model, C::Model, D::Model, E::Model, F::Model, G::Model,
                H::Model, I::Model), GError>(
                (
                    r0->Ok_0,
                    r1->Ok_0,
                    r2->Ok_0,
                    r3->Ok_0,
                    r4->Ok_0,
                    r5->Ok_0,
                    r6->Ok_0,
                    r7->Ok_0,
                    r8->Ok_0,
                ),
            )
        }),
{
}

/// A tuple of 9 is read from no value but a good handle to an array of 9.
pub proof fn law_tuple_9_refused<
    A: FromVal,
    B: FromVal,
    C: FromVal,
    D: FromVal,
    E: FromVal,
    F: FromVal,
    G: FromVal,
    H: FromVal,
    I: FromVal,
>(h: Store, v: Val, root: Root<Arr>)
    ensures
        !(v is Arr) ==> <(A, B, C, D, E, F, G, H, I)>::of_val(h, v) == Err::<
            (
                A::Model,
                B::Model,
                C::Model,
                D::Model,
                E::Model,
                F::Model,
                G::Model,
                H::Model,
                I::Model,
            ),
            GError,
        >(
            GError::WrongType { expected: Expected::Tuple, received: v.type_of() },
        ),
        root.id >= h.arrs.len() ==> <(
            A,
            B,
            C,
            D,
            E,
            F,
            G,
            H,
            I,
        )>::of_val(h, Val::Arr(root))
            == Err::<(A::Model, B::Model, C::Model, D::Model, E::Model, F::Model, G::Model,
            H::Model, I::Model), GError>(
            GError::StaleHandle { received: ValType::Arr },
        ),
        root.id < h.arrs.len() && h.arrs[root.id as int].len() != 9 ==> <(
            A,
            B,
            C,
            D,
            E,
            F,
            G,
            H,
            I,
        )>::of_val(h, Val::Arr(root))
            == Err::<(A::Model, B::Model, C::Model, D::Model, E::Model, F::Model, G::Model,
            H::Model, I::Model), GError>(
            GError::TupleLength {
                expected: 9,
                received: h.arrs[root.id as int].len() as usize,
            },
        ),
{
}

/// What stands for a tuple of 9 is what stands for its fields, each in its own place.
pub proof fn law_tuple_9_model<
    A: Modelled,
    B: Modelled,
    C: Modelled,
    D: Modelled,
    E: Modelled,
    F: Modelled,
    G: Modelled,
    H: Modelled,
    I: Modelled,
>(t: (A, B, C, D, E, F, G, H, I))
    ensures
        t.model().0 == t.0.model(),
        t.model().1 == t.1.model(),
        t.model().2 == t.2.model(),
        t.model().3 == t.3.model(),
        t.model().4 == t.4.model(),
        t.model().5 == t.5.model(),
        t.model().6 == t.6.model(),
        t.model().7 == t.7.model(),
        t.model().8 == t.8.model(),
{
}

/// A tuple of 10 is read from an array of 10, each field from the item in its own place. The first
/// that cannot be read is the reason.
pub proof fn law_read_tuple_10<
    A: FromVal,
    B: FromVal,
    C: FromVal,
    D: FromVal,
    E: FromVal,
    F: FromVal,
    G: FromVal,
    H: FromVal,
    I: FromVal,
    J: FromVal,
>(h: Store, root: Root<Arr>)
    requires
        root.id < h.arrs.len(),
        h.arrs[root.id as int].len() == 10,
    ensures
        ({
            let items = h.arrs[root.id as int];
            let read = <(A, B, C, D, E, F, G, H, I, J)>::of_val(h, Val::Arr(root));
            let r0 = A::of_val(h, items[0].val());
            let r1 = B::of_val(h, items[1].val());
            let r2 = C::of_val(h, items[2].val());
            let r3 = D::of_val(h, items[3].val());
            let r4 = E::of_val(h, items[4].val());
            let r5 = F::of_val(h, items[5].val());
            let r6 = G::of_val(h, items[6].val());
            let r7 = H::of_val(h, items[7].val());
            let r8 = I::of_val(h, items[8].val());
            let r9 = J::of_val(h, items[9].val());
            &&& r0 is Err ==> read == Err::<
                (
                    A::Model,
                    B::Model,
                    C::Model,
                    D::Model,
                    E::Model,
                    F::Model,
                    G::Model,
                    H::Model,
                    I::Model,
                    J::Model,
                ),
                GError,
            >(r0->Err_0)
            &&& r0 is Ok && r1 is Err ==> read == Err::<
                (
                    A::Model,
                    B::Model,
                    C::Model,
                    D::Model,
                    E::Model,
                    F::Model,
                    G::Model,
                    H::Model,
                    I::Model,
                    J::Model,
                ),
                GError,
            >(r1->Err_0)
            &&& r0 is Ok && r1 is Ok && r2 is Err ==> read == Err::<
                (
                    A::Model,
                    B::Model,
                    C::Model,
                    D::Model,
                    E::Model,
                    F::Model,
                    G::Model,
                    H::Model,
                    I::Model,
                    J::Model,
                ),
                GError,
            >(r2->Err_0)
            &&& r0 is Ok && r1 is Ok && r2 is Ok && r3 is Err ==> read == Err::<
                (
                    A::Model,
                    B::Model,
                    C::Model,
                    D::Model,
                    E::Model,
                    F::Model,
                    G::Model,
                    H::Model,
                    I::Model,
                    J::Model,
                ),
                GError,
            >(r3->Err_0)
            &&& r0 is Ok && r1 is Ok && r2 is Ok && r3 is Ok && r4 is Err ==> read == Err::<
                (
                    A::Model,
                    B::Model,
                    C::Model,
                    D::Model,
                    E::Model,
                    F::Model,
                    G::Model,
                    H::Model,
                    I::Model,
                    J::Model,
                ),
                GError,
            >(r4->Err_0)
            &&& r0 is Ok && r1 is Ok && r2 is Ok && r3 is Ok && r4 is Ok && r5 is Err ==> read
                == Err::<(A::Model, B::Model, C::Model, D::Model, E::Model, F::Model, G::Model,
                H::Model, I::Model, J::Model), GError>(r5->Err_0)
            &&& r0 is Ok && r1 is Ok && r2 is Ok && r3 is Ok && r4 is Ok && r5 is Ok
                && r6 is Err ==> read
                == Err::<(A::Model, B::Model, C::Model, D::Model, E::Model, F::Model, G::Model,
                H::Model, I::Model, J::Model), GError>(r6->Err_0)
            &&& r0 is Ok && r1 is Ok && r2 is Ok && r3 is Ok && r4 is Ok && r5 is Ok
                && r6 is Ok && r7 is Err ==> read
                == Err::<(A::Model, B::Model, C::Model, D::Model, E::Model, F::Model, G::Model,
                H::Model, I::Model, J::Model), GError>(r7->Err_0)
            &&& r0 is Ok && r1 is Ok && r2 is Ok && r3 is Ok && r4 is Ok && r5 is Ok
                && r6 is Ok && r7 is Ok && r8 is Err ==> read
                == Err::<(A::Model, B::Model, C::Model, D::Model, E::Model, F::Model, G::Model,
                H::Model, I::Model, J::Model), GError>(r8->Err_0)
            &&& r0 is Ok && r1 is Ok && r2 is Ok && r3 is Ok && r4 is Ok && r5 is Ok
                && r6 is Ok && r7 is Ok && r8 is Ok && r9 is Err ==> read
                == Err::<(A::Model, B::Model, C::Model, D::Model, E::Model, F::Model, G::Model,
                H::Model, I::Model, J::Model), GError>(r9->Err_0)
            &&& r0 is Ok && r1 is Ok && r2 is Ok && r3 is Ok && r4 is Ok && r5 is Ok
                && r6 is Ok && r7 is Ok && r8 is Ok && r9 is Ok ==> read
                == Ok::<(A::Model, B::Model, C::Model, D::Model, E::Model, F::Model, G::Model,
                H::Model, I::Model, J::Model), GError>(
                (
                    r0->Ok_0,
                    r1->Ok_0,
                    r2->Ok_0,
                    r3->Ok_0,
                    r4->Ok_0,
                    r5->Ok_0,
                    r6->Ok_0,
                    r7->Ok_0,
                    r8->Ok_0,
                    r9->Ok_0,
                ),
            )
        }),
{
}

/// A tuple of 10 is read from no value but a good handle to an array of 10.
pub proof fn law_tuple_10_refused<
    A: FromVal,
    B: FromVal,
    C: FromVal,
    D: FromVal,
    E: FromVal,
    F: FromVal,
    G: FromVal,
    H: FromVal,
    I: FromVal,
    J: FromVal,
>(h: Store, v: Val, root: Root<Arr>)
    ensures
        !(v is Arr) ==> <(A, B, C, D, E, F, G, H, I, J)>::of_val(h, v) == Err::<
            (
                A::Model,
                B::Model,
                C::Model,
                D::Model,
                E::Model,
                F::Model,
                G::Model,
                H::Model,
                I::Model,
                J::Model,
            ),
            GError,
        >(
            GError::WrongType { expected: Expected::Tuple, received: v.type_of() },
        ),
        root.id >= h.arrs.len() ==> <(
            A,
            B,
            C,
            D,
            E,
            F,
            G,
            H,
            I,
            J,
        )>::of_val(h, Val::Arr(root))
            == Err::<(A::Model, B::Model, C::Model, D::Model, E::Model, F::Model, G::Model,
            H::Model, I::Model, J::Model), GError>(
            GError::StaleHandle { received: ValType::Arr },
        ),
        root.id < h.arrs.len() && h.arrs[root.id as int].len() != 10 ==> <(
            A,
            B,
            C,
            D,
            E,
            F,
            G,
            H,
            I,
            J,
        )>::of_val(h, Val::Arr(root))
            == Err::<(A::Model, B::Model, C::Model, D::Model, E::Model, F::Model, G::Model,
            H::Model, I::Model, J::Model), GError>(
            GError::TupleLength {
                expected: 10,
                received: h.arrs[root.id as int].len() as usize,
            },
        ),
{
}

/// What stands for a tuple of 10 is what stands for its fields, each in its own place.
pub proof fn law_tuple_10_model<
    A: Modelled,
    B: Modelled,
    C: Modelled,
    D: Modelled,
    E: Modelled,
    F: Modelled,
    G: Modelled,
    H: Modelled,
    I: Modelled,
    J: Modelled,
>(t: (A, B, C, D, E, F, G, H, I, J))
    ensures
        t.model().0 == t.0.model(),
        t.model().1 == t.1.model(),
        t.model().2 == t.2.model(),
        t.model().3 == t.3.model(),
        t.model().4 == t.4.model(),
        t.model().5 == t.5.model(),
        t.model().6 == t.6.model(),
        t.model().7 == t.7.model(),
        t.model().8 == t.8.model(),
        t.model().9 == t.9.model(),
{
}

/// A tuple of 11 is read from an array of 11, each field from the item in its own place. The first
/// that cannot be read is the reason.
pub proof fn law_read_tuple_11<
    A: FromVal,
    B: FromVal,
    C: FromVal,
    D: FromVal,
    E: FromVal,
    F: FromVal,
    G: FromVal,
    H: FromVal,
    I: FromVal,
    J: FromVal,
    K: FromVal,
>(h: Store, root: Root<Arr>)
    requires
        root.id < h.arrs.len(),
        h.arrs[root.id as int].len() == 11,
    ensures
        ({
            let items = h.arrs[root.id as int];
            let read = <(A, B, C, D, E, F, G, H, I, J, K)>::of_val(h, Val::Arr(root));
            let r0 = A::of_val(h, items[0].val());
            let r1 = B::of_val(h, items[1].val());
            let r2 = C::of_val(h, items[2].val());
            let r3 = D::of_val(h, items[3].val());
            let r4 = E::of_val(h, items[4].val());
            let r5 = F::of_val(h, items[5].val());
            let r6 = G::of_val(h, items[6].val());
            let r7 = H::of_val(h, items[7].val());
            let r8 = I::of_val(h, items[8].val());
            let r9 = J::of_val(h, items[9].val());
            let r10 = K::of_val(h, items[10].val());
            &&& r0 is Err ==> read == Err::<
                (
                    A::Model,
                    B::Model,
                    C::Model,
                    D::Model,
                    E::Model,
                    F::Model,
                    G::Model,
                    H::Model,
                    I::Model,
                    J::Model,
                    K::Model,
                ),
                GError,
            >(r0->Err_0)
            &&& r0 is Ok && r1 is Err ==> read == Err::<
                (
                    A::Model,
                    B::Model,
                    C::Model,
                    D::Model,
                    E::Model,
                    F::Model,
                    G::Model,
                    H::Model,
                    I::Model,
                    J::Model,
                    K::Model,
                ),
                GError,
            >(r1->Err_0)
            &&& r0 is Ok && r1 is Ok && r2 is Err ==> read == Err::<
                (
                    A::Model,
                    B::Model,
                    C::Model,
                    D::Model,
                    E::Model,
                    F::Model,
                    G::Model,
                    H::Model,
                    I::Model,
                    J::Model,
                    K::Model,
                ),
                GError,
            >(r2->Err_0)
            &&& r0 is Ok && r1 is Ok && r2 is Ok && r3 is Err ==> read == Err::<
                (
                    A::Model,
                    B::Model,
                    C::Model,
                    D::Model,
                    E::Model,
                    F::Model,
                    G::Model,
                    H::Model,
                    I::Model,
                    J::Model,
                    K::Model,
                ),
                GError,
            >(r3->Err_0)
            &&& r0 is Ok && r1 is Ok && r2 is Ok && r3 is Ok && r4 is Err ==> read == Err::<
                (
                    A::Model,
                    B::Model,
                    C::Model,
                    D::Model,
                    E::Model,
                    F::Model,
                    G::Model,
                    H::Model,
                    I::Model,
                    J::Model,
                    K::Model,
                ),
                GError,
            >(r4->Err_0)
            &&& r0 is Ok && r1 is Ok && r2 is Ok && r3 is Ok && r4 is Ok && r5 is Err ==> read
                == Err::<(A::Model, B::Model, C::Model, D::Model, E::Model, F::Model, G::Model,
                H::Model, I::Model, J::Model, K::Model), GError>(r5->Err_0)
            &&& r0 is Ok && r1 is Ok && r2 is Ok && r3 is Ok && r4 is Ok && r5 is Ok
                && r6 is Err ==> read
                == Err::<(A::Model, B::Model, C::Model, D::Model, E::Model, F::Model, G::Model,
                H::Model, I::Model, J::Model, K::Model), GError>(r6->Err_0)
            &&& r0 is Ok && r1 is Ok && r2 is Ok && r3 is Ok && r4 is Ok && r5 is Ok
                && r6 is Ok && r7 is Err ==> read
                == Err::<(A::Model, B::Model, C::Model, D::Model, E::Model, F::Model, G::Model,
                H::Model, I::Model, J::Model, K::Model), GError>(r7->Err_0)
            &&& r0 is Ok && r1 is Ok && r2 is Ok && r3 is Ok && r4 is Ok && r5 is Ok
                && r6 is Ok && r7 is Ok && r8 is Err ==> read
                == Err::<(A::Model, B::Model, C::Model, D::Model, E::Model, F::Model, G::Model,
                H::Model, I::Model, J::Model, K::Model), GError>(r8->Err_0)
            &&& r0 is Ok && r1 is Ok && r2 is Ok && r3 is Ok && r4 is Ok && r5 is Ok
                && r6 is Ok && r7 is Ok && r8 is Ok && r9 is Err ==> read
                == Err::<(A::Model, B::Model, C::Model, D::Model, E::Model, F::Model, G::Model,
                H::Model, I::Model, J::Model, K::Model), GError>(r9->Err_0)
            &&& r0 is Ok && r1 is Ok && r2 is Ok && r3 is Ok && r4 is Ok && r5 is Ok
                && r6 is Ok && r7 is Ok && r8 is Ok && r9 is Ok && r10 is Err ==> read
                == Err::<(A::Model, B::Model, C::Model, D::Model, E::Model, F::Model, G::Model,
                H::Model, I::Model, J::Model, K::Model), GError>(r10->Err_0)
            &&& r0 is Ok && r1 is Ok && r2 is Ok && r3 is Ok && r4 is Ok && r5 is Ok
                && r6 is Ok && r7 is Ok && r8 is Ok && r9 is Ok && r10 is Ok ==> read
                == Ok::<(A::Model, B::Model, C::Model, D::Model, E::Model, F::Model, G::Model,
                H::Model, I::Model, J::Model, K::Model), GError>(
                (
                    r0->Ok_0,
                    r1->Ok_0,
                    r2->Ok_0,
                    r3->Ok_0,
                    r4->Ok_0,
                    r5->Ok_0,
                    r6->Ok_0,
                    r7->Ok_0,
                    r8->Ok_0,
                    r9->Ok_0,
                    r10->Ok_0,
                ),
            )
        }),
{
}

/// A tuple of 11 is read from no value but a good handle to an array of 11.
pub proof fn law_tuple_11_refused<
    A: FromVal,
    B: FromVal,
    C: FromVal,
    D: FromVal,
    E: FromVal,
    F: FromVal,
    G: FromVal,
    H: FromVal,
    I: FromVal,
    J: FromVal,
    K: FromVal,
>(h: Store, v: Val, root: Root<Arr>)
    ensures
        !(v is Arr) ==> <(A, B, C, D, E, F, G, H, I, J, K)>::of_val(h, v) == Err::<
            (
                A::Model,
                B::Model,
                C::Model,
                D::Model,
                E::Model,
                F::Model,
                G::Model,
                H::Model,
                I::Model,
                J::Model,
                K::Model,
            ),
            GError,
        >(
            GError::WrongType { expected: Expected::Tuple, received: v.type_of() },
        ),
        root.id >= h.arrs.len() ==> <(
            A,
            B,
            C,
            D,
            E,
            F,
            G,
            H,
            I,
            J,
            K,
        )>::of_val(h, Val::Arr(root))
            == Err::<(A::Model, B::Model, C::Model, D::Model, E::Model, F::Model, G::Model,
            H::Model, I::Model, J::Model, K::Model), GError>(
            GError::StaleHandle { received: ValType::Arr },
        ),
        root.id < h.arrs.len() && h.arrs[root.id as int].len() != 11 ==> <(
            A,
            B,
            C,
            D,
            E,
            F,
            G,
            H,
            I,
            J,
            K,
        )>::of_val(h, Val::Arr(root))
            == Err::<(A::Model, B::Model, C::Model, D::Model, E::Model, F::Model, G::Model,
            H::Model, I::Model, J::Model, K::Model), GError>(
            GError::TupleLength {
                expected: 11,
                received: h.arrs[root.id as int].len() as usize,
            },
        ),
{
}

/// What stands for a tuple of 11 is what stands for its fields, each in its own place.
pub proof fn law_tuple_11_model<
    A: Modelled,
    B: Modelled,
    C: Modelled,
    D: Modelled,
    E: Modelled,
    F: Modelled,
    G: Modelled,
    H: Modelled,
    I: Modelled,
    J: Modelled,
    K: Modelled,
>(t: (A, B, C, D, E, F, G, H, I, J, K))
    ensures
        t.model().0 == t.0.model(),
        t.model().1 == t.1.model(),
        t.model().2 == t.2.model(),
        t.model().3 == t.3.model(),
        t.model().4 == t.4.model(),
        t.model().5 == t.5.model(),
        t.model().6 == t.6.model(),
        t.model().7 == t.7.model(),
        t.model().8 == t.8.model(),
        t.model().9 == t.9.model(),
        t.model().10 == t.10.model(),
{
}

/// A tuple of 12 is read from an array of 12, each field from the item in its own place. The first
/// that cannot be read is the reason.
pub proof fn law_read_tuple_12<
    A: FromVal,
    B: FromVal,
    C: FromVal,
    D: FromVal,
    E: FromVal,
    F: FromVal,
    G: FromVal,
    H: FromVal,
    I: FromVal,
    J: FromVal,
    K: FromVal,
    L: FromVal,
>(h: Store, root: Root<Arr>)
    requires
        root.id < h.arrs.len(),
        h.arrs[root.id as int].len() == 12,
    ensures
        ({
            let items = h.arrs[root.id as int];
            let read = <(A, B, C, D, E, F, G, H, I, J, K, L)>::of_val(h, Val::Arr(root));
            let r0 = A::of_val(h, items[0].val());
            let r1 = B::of_val(h, items[1].val());
            let r2 = C::of_val(h, items[2].val());
            let r3 = D::of_val(h, items[3].val());
            let r4 = E::of_val(h, items[4].val());
            let r5 = F::of_val(h, items[5].val());
            let r6 = G::of_val(h, items[6].val());
            let r7 = H::of_val(h, items[7].val());
            let r8 = I::of_val(h, items[8].val());
            let r9 = J::of_val(h, items[9].val());
            let r10 = K::of_val(h, items[10].val());
            let r11 = L::of_val(h, items[11].val());
            &&& r0 is Err ==> read == Err::<
                (
                    A::Model,
                    B::Model,
                    C::Model,
                    D::Model,
                    E::Model,
                    F::Model,
                    G::Model,
                    H::Model,
                    I::Model,
                    J::Model,
                    K::Model,
                    L::Model,
                ),
                GError,
            >(r0->Err_0)
            &&& r0 is Ok && r1 is Err ==> read == Err::<
                (
                    A::Model,
                    B::Model,
                    C::Model,
                    D::Model,
                    E::Model,
                    F::Model,
                    G::Model,
                    H::Model,
                    I::Model,
                    J::Model,
                    K::Model,
                    L::Model,
                ),
                GError,
            >(r1->Err_0)
            &&& r0 is Ok && r1 is Ok && r2 is Err ==> read == Err::<
                (
                    A::Model,
                    B::Model,
                    C::Model,
                    D::Model,
                    E::Model,
                    F::Model,
                    G::Model,
                    H::Model,
                    I::Model,
                    J::Model,
                    K::Model,
                    L::Model,
                ),
                GError,
            >(r2->Err_0)
            &&& r0 is Ok && r1 is Ok && r2 is Ok && r3 is Err ==> read == Err::<
                (
                    A::Model,
                    B::Model,
                    C::Model,
                    D::Model,
                    E::Model,
                    F::Model,
                    G::Model,
                    H::Model,
                    I::Model,
                    J::Model,
                    K::Model,
                    L::Model,
                ),
                GError,
            >(r3->Err_0)
            &&& r0 is Ok && r1 is Ok && r2 is Ok && r3 is Ok && r4 is Err ==> read == Err::<
                (
                    A::Model,
                    B::Model,
                    C::Model,
                    D::Model,
                    E::Model,
                    F::Model,
                    G::Model,
                    H::Model,
                    I::Model,
                    J::Model,
                    K::Model,
                    L::Model,
                ),
                GError,
            >(r4->Err_0)
            &&& r0 is Ok && r1 is Ok && r2 is Ok && r3 is Ok && r4 is Ok && r5 is Err ==> read
                == Err::<(A::Model, B::Model, C::Model, D::Model, E::Model, F::Model, G::Model,
                H::Model, I::Model, J::Model, K::Model, L::Model), GError>(r5->Err_0)
            &&& r0 is Ok && r1 is Ok && r2 is Ok && r3 is Ok && r4 is Ok && r5 is Ok
                && r6 is Err ==> read
                == Err::<(A::Model, B::Model, C::Model, D::Model, E::Model, F::Model, G::Model,
                H::Model, I::Model, J::Model, K::Model, L::Model), GError>(r6->Err_0)
            &&& r0 is Ok && r1 is Ok && r2 is Ok && r3 is Ok && r4 is Ok && r5 is Ok
                && r6 is Ok && r7 is Err ==> read
                == Err::<(A::Model, B::Model, C::Model, D::Model, E::Model, F::Model, G::Model,
                H::Model, I::Model, J::Model, K::Model, L::Model), GError>(r7->Err_0)
            &&& r0 is Ok && r1 is Ok && r2 is Ok && r3 is Ok && r4 is Ok && r5 is Ok
                && r6 is Ok && r7 is Ok && r8 is Err ==> read
                == Err::<(A::Model, B::Model, C::Model, D::Model, E::Model, F::Model, G::Model,
                H::Model, I::Model, J::Model, K::Model, L::Model), GError>(r8->Err_0)
            &&& r0 is Ok && r1 is Ok && r2 is Ok && r3 is Ok && r4 is Ok && r5 is Ok
                && r6 is Ok && r7 is Ok && r8 is Ok && r9 is Err ==> read
                == Err::<(A::Model, B::Model, C::Model, D::Model, E::Model, F::Model, G::Model,
                H::Model, I::Model, J::Model, K::Model, L::Model), GError>(r9->Err_0)
            &&& r0 is Ok && r1 is Ok && r2 is Ok && r3 is Ok && r4 is Ok && r5 is Ok
                && r6 is Ok && r7 is Ok && r8 is Ok && r9 is Ok && r10 is Err ==> read
                == Err::<(A::Model, B::Model, C::Model, D::Model, E::Model, F::Model, G::Model,
                H::Model, I::Model, J::Model, K::Model, L::Model), GError>(r10->Err_0)
            &&& r0 is Ok && r1 is Ok && r2 is Ok && r3 is Ok && r4 is Ok && r5 is Ok
                && r6 is Ok && r7 is Ok && r8 is Ok && r9 is Ok && r10 is Ok && r11 is Err
                ==> read == Err::<(A::Model, B::Model, C::Model, D::Model, E::Model, F::Model,
                G::Model, H::Model, I::Model, J::Model, K::Model, L::Model), GError>(r11->Err_0)
            &&& r0 is Ok && r1 is Ok && r2 is Ok && r3 is Ok && r4 is Ok && r5 is Ok
                && r6 is Ok && r7 is Ok && r8 is Ok && r9 is Ok && r10 is Ok && r11 is Ok
                ==> read == Ok::<(A::Model, B::Model, C::Model, D::Model, E::Model, F::Model,
                G::Model, H::Model, I::Model, J::Model, K::Model, L::Model), GError>(
                (
                    r0->Ok_0,
                    r1->Ok_0,
                    r2->Ok_0,
                    r3->Ok_0,
                    r4->Ok_0,
                    r5->Ok_0,
                    r6->Ok_0,
                    r7->Ok_0,
                    r8->Ok_0,
                    r9->Ok_0,
                    r10->Ok_0,
                    r11->Ok_0,
                ),
            )
        }),
{
}

/// A tuple of 12 is read from no value but a good handle to an array of 12.
pub proof fn law_tuple_12_refused<
    A: FromVal,
    B: FromVal,
    C: FromVal,
    D: FromVal,
    E: FromVal,
    F: FromVal,
    G: FromVal,
    H: FromVal,
    I: FromVal,
    J: FromVal,
    K: FromVal,
    L: FromVal,
>(h: Store, v: Val, root: Root<Arr>)
    ensures
        !(v is Arr) ==> <(A, B, C, D, E, F, G, H, I, J, K, L)>::of_val(h, v) == Err::<
            (
                A::Model,
                B::Model,
                C::Model,
                D::Model,
                E::Model,
                F::Model,
                G::Model,
                H::Model,
                I::Model,
                J::Model,
                K::Model,
                L::Model,
            ),
            GError,
        >(
            GError::WrongType { expected: Expected::Tuple, received: v.type_of() },
        ),
        root.id >= h.arrs.len() ==> <(
            A,
            B,
            C,
            D,
            E,
            F,
            G,
            H,
            I,
            J,
            K,
            L,
        )>::of_val(h, Val::Arr(root))
            == Err::<(A::Model, B::Model, C::Model, D::Model, E::Model, F::Model, G::Model,
            H::Model, I::Model, J::Model, K::Model, L::Model), GError>(
            GError::StaleHandle { received: ValType::Arr },
        ),
        root.id < h.arrs.len() && h.arrs[root.id as int].len() != 12 ==> <(
            A,
            B,
            C,
            D,
            E,
            F,
            G,
            H,
            I,
            J,
            K,
            L,
        )>::of_val(h, Val::Arr(root))
            == Err::<(A::Model, B::Model, C::Model, D::Model, E::Model, F::Model, G::Model,
            H::Model, I::Model, J::Model, K::Model, L::Model), GError>(
            GError::TupleLength {
                expected: 12,
                received: h.arrs[root.id as int].len() as usize,
            },
        ),
{
}

/// What stands for a tuple of 12 is what stands for its fields, each in its own place.
pub proof fn law_tuple_12_model<
    A: Modelled,
    B: Modelled,
    C: Modelled,
    D: Modelled,
    E: Modelled,
    F: Modelled,
    G: Modelled,
    H: Modelled,
    I: Modelled,
    J: Modelled,
    K: Modelled,
    L: Modelled,
>(t: (A, B, C, D, E, F, G, H, I, J, K, L))
    ensures
        t.model().0 == t.0.model(),
        t.model().1 == t.1.model(),
        t.model().2 == t.2.model(),
        t.model().3 == t.3.model(),
        t.model().4 == t.4.model(),
        t.model().5 == t.5.model(),
        t.model().6 == t.6.model(),
        t.model().7 == t.7.model(),
        t.model().8 == t.8.model(),
        t.model().9 == t.9.model(),
        t.model().10 == t.10.model(),
        t.model().11 == t.11.model(),
{
}

/// A `HashMap` is read from a table, entry by entry: where every key and every value can be read,
/// and no key comes twice, it has exactly the entries of the table.
pub proof fn law_read_hash_map<K, V, S>(h: Store, root: Root<Tab>) where
    K: HashEqMarker + FromVal + Plain,
    V: FromVal,
    S: BuildHasherDefaultMarker + StaticMarker,

    requires
        root.id < h.tabs.len(),
    ensures
        ({
            let entries = h.tabs[root.id as int];
            let read = HashMap::<K, V, S>::of_val(h, Val::Tab(root));
            &&& read is Ok <==> {
                &&& forall|i: int|
                    0 <= i < entries.len() ==> K::of_val(
                        h,
                        (#[trigger] entries[i]).0.val(),
                    ) is Ok && V::of_val(h, entries[i].1.val()) is Ok
                &&& forall|i: int, j: int|
                    0 <= i < j < entries.len() ==> K::of_val(
                        h,
                        (#[trigger] entries[i]).0.val(),
                    ) != K::of_val(h, (#[trigger] entries[j]).0.val())
            }
            &&& read matches Ok(map) ==> {
                &&& forall|i: int|
                    0 <= i < entries.len() ==> map.contains_key(
                        K::of_val(h, (#[trigger] entries[i]).0.val())->Ok_0,
                    ) && map[K::of_val(h, entries[i].0.val())->Ok_0]
                        == V::of_val(h, entries[i].1.val())->Ok_0
                &&& forall|key: K| #[trigger]
                    map.contains_key(key) ==> exists|i: int|
                        0 <= i < entries.len() && K::of_val(
                            h,
                            (#[trigger] entries[i]).0.val(),
                        ) == Ok::<K, GError>(key)
            }
        }),
{
    lemma_read_entries::<K, V>(h, h.tabs[root.id as int], MapType::HashMap);
}

/// A `HashMap` is read from no value but a good handle to a table. The first entry that cannot be
/// read, or whose key has come before, is the reason: first its key, then its value, then that it
/// comes twice.
pub proof fn law_hash_map_refused<K, V, S>(h: Store, v: Val, root: Root<Tab>, k: int) where
    K: HashEqMarker + FromVal + Plain,
    V: FromVal,
    S: BuildHasherDefaultMarker + StaticMarker,

    ensures
        !(v is Tab) ==> HashMap::<K, V, S>::of_val(h, v) == Err::<Map<K, V::Model>, GError>(
            GError::WrongType { expected: Expected::HashMap, received: v.type_of() },
        ),
        root.id >= h.tabs.len() ==> HashMap::<K, V, S>::of_val(h, Val::Tab(root)) == Err::<
            Map<K, V::Model>,
            GError,
        >(
            GError::StaleHandle { received: ValType::Tab },
        ),
        root.id < h.tabs.len() ==> {
            let entries = h.tabs[root.id as int];
            let read = HashMap::<K, V, S>::of_val(h, Val::Tab(root));
            let key = K::of_val(h, entries[k].0.val());
            let value = V::of_val(h, entries[k].1.val());
            &&& 0 <= k < entries.len() && (forall|i: int|
                0 <= i < k ==> K::of_val(
                    h,
                    (#[trigger] entries[i]).0.val(),
                ) is Ok && V::of_val(h, entries[i].1.val()) is Ok) && (forall|i: int, j: int|
                0 <= i < j < k ==> K::of_val(
                    h,
                    (#[trigger] entries[i]).0.val(),
                ) != K::of_val(h, (#[trigger] entries[j]).0.val())) ==> {
                &&& key is Err ==> read == Err::<Map<K, V::Model>, GError>(key->Err_0)
                &&& key is Ok && value is Err ==> read == Err::<
                    Map<K, V::Model>,
                    GError,
                >(value->Err_0)
                &&& key is Ok && value is Ok && (exists|i: int|
                    0 <= i < k && K::of_val(
                        h,
                        (#[trigger] entries[i]).0.val(),
                    ) == key) ==> read == Err::<Map<K, V::Model>, GError>(
                    GError::DuplicateKey { expected: MapType::HashMap },
                )
            }
        },
{
    if root.id < h.tabs.len() {
        let entries = h.tabs[root.id as int];
        if 0 <= k < entries.len() && (forall|i: int|
            0 <= i < k ==> K::of_val(
                h,
                (#[trigger] entries[i]).0.val(),
            ) is Ok && V::of_val(h, entries[i].1.val()) is Ok) && (forall|i: int, j: int|
            0 <= i < j < k ==> K::of_val(
                h,
                (#[trigger] entries[i]).0.val(),
            ) != K::of_val(h, (#[trigger] entries[j]).0.val())) {
            lemma_entries_refused::<K, V>(h, entries, MapType::HashMap, k);
        }
    }
}

/// A `BTreeMap` is read from a table, entry by entry: where every key and every value can be read,
/// and no key comes twice, it has exactly the entries of the table.
pub proof fn law_read_btree_map<K, V>(h: Store, root: Root<Tab>) where
    K: OrdMarker + FromVal + Plain,
    V: FromVal,

    requires
        root.id < h.tabs.len(),
    ensures
        ({
            let entries = h.tabs[root.id as int];
            let read = BTreeMap::<K, V>::of_val(h, Val::Tab(root));
            &&& read is Ok <==> {
                &&& forall|i: int|
                    0 <= i < entries.len() ==> K::of_val(
                        h,
                        (#[trigger] entries[i]).0.val(),
                    ) is Ok && V::of_val(h, entries[i].1.val()) is Ok
                &&& forall|i: int, j: int|
                    0 <= i < j < entries.len() ==> K::of_val(
                        h,
                        (#[trigger] entries[i]).0.val(),
                    ) != K::of_val(h, (#[trigger] entries[j]).0.val())
            }
            &&& read matches Ok(map) ==> {
                &&& forall|i: int|
                    0 <= i < entries.len() ==> map.contains_key(
                        K::of_val(h, (#[trigger] entries[i]).0.val())->Ok_0,
                    ) && map[K::of_val(h, entries[i].0.val())->Ok_0]
                        == V::of_val(h, entries[i].1.val())->Ok_0
                &&& forall|key: K| #[trigger]
                    map.contains_key(key) ==> exists|i: int|
                        0 <= i < entries.len() && K::of_val(
                            h,
                            (#[trigger] entries[i]).0.val(),
                        ) == Ok::<K, GError>(key)
            }
        }),
{
    lemma_read_entries::<K, V>(h, h.tabs[root.id as int], MapType::BTreeMap);
}

/// A `BTreeMap` is read from no value but a good handle to a table. The first entry that cannot be
/// read, or whose key has come before, is the reason: first its key, then its value, then that it
/// comes twice.
pub proof fn law_btree_map_refused<K, V>(h: Store, v: Val, root: Root<Tab>, k: int) where
    K: OrdMarker + FromVal + Plain,
    V: FromVal,

    ensures
        !(v is Tab) ==> BTreeMap::<K, V>::of_val(h, v) == Err::<Map<K, V::Model>, GError>(
            GError::WrongType { expected: Expected::BTreeMap, received: v.type_of() },
        ),
        root.id >= h.tabs.len() ==> BTreeMap::<K, V>::of_val(h, Val::Tab(root)) == Err::<
            Map<K, V::Model>,
            GError,
        >(
            GError::StaleHandle { received: ValType::Tab },
        ),
        root.id < h.tabs.len() ==> {
            let entries = h.tabs[root.id as int];
            let read = BTreeMap::<K, V>::of_val(h, Val::Tab(root));
            let key = K::of_val(h, entries[k].0.val());
            let value = V::of_val(h, entries[k].1.val());
            &&& 0 <= k < entries.len() && (forall|i: int|
                0 <= i < k ==> K::of_val(
                    h,
                    (#[trigger] entries[i]).0.val(),
                ) is Ok && V::of_val(h, entries[i].1.val()) is Ok) && (forall|i: int, j: int|
                0 <= i < j < k ==> K::of_val(
                    h,
                    (#[trigger] entries[i]).0.val(),
                ) != K::of_val(h, (#[trigger] entries[j]).0.val())) ==> {
                &&& key is Err ==> read == Err::<Map<K, V::Model>, GError>(key->Err_0)
                &&& key is Ok && value is Err ==> read == Err::<
                    Map<K, V::Model>,
                    GError,
                >(value->Err_0)
                &&& key is Ok && value is Ok && (exists|i: int|
                    0 <= i < k && K::of_val(
                        h,
                        (#[trigger] entries[i]).0.val(),
                    ) == key) ==> read == Err::<Map<K, V::Model>, GError>(
                    GError::DuplicateKey { expected: MapType::BTreeMap },
                )
            }
        },
{
    if root.id < h.tabs.len() {
        let entries = h.tabs[root.id as int];
        if 0 <= k < entries.len() && (forall|i: int|
            0 <= i < k ==> K::of_val(
                h,
                (#[trigger] entries[i]).0.val(),
            ) is Ok && V::of_val(h, entries[i].1.val()) is Ok) && (forall|i: int, j: int|
            0 <= i < j < k ==> K::of_val(
                h,
                (#[trigger] entries[i]).0.val(),
            ) != K::of_val(h, (#[trigger] entries[j]).0.val())) {
            lemma_entries_refused::<K, V>(h, entries, MapType::BTreeMap, k);
        }
    }
}

/// The entries of a table become a map where all can be read and no key comes twice, and then all
/// of them are in it.
proof fn lemma_read_entries<K: FromVal + Plain, V: FromVal>(
    h: Store,
    entries: Seq<(Slot, Slot)>,
    map_type: MapType,
)
    ensures
        gathered::<K, V>(h, entries, map_type) is Ok <==> {
            &&& forall|i: int|
                0 <= i < entries.len() ==> K::of_val(h, (#[trigger] entries[i]).0.val()) is Ok
                    && V::of_val(h, entries[i].1.val()) is Ok
            &&& forall|i: int, j: int|
                0 <= i < j < entries.len() ==> K::of_val(h, (#[trigger] entries[i]).0.val())
                    != K::of_val(h, (#[trigger] entries[j]).0.val())
        },
        gathered::<K, V>(h, entries, map_type) matches Ok(map) ==> {
            &&& forall|i: int|
                0 <= i < entries.len() ==> map.contains_key(
                    K::of_val(h, (#[trigger] entries[i]).0.val())->Ok_0,
                ) && map[K::of_val(h, entries[i].0.val())->Ok_0] == V::of_val(
                    h,
                    entries[i].1.val(),
                )->Ok_0
            &&& forall|key: K| #[trigger]
                map.contains_key(key) ==> exists|i: int|
                    0 <= i < entries.len() && K::of_val(h, (#[trigger] entries[i]).0.val()) == Ok::<
                        K,
                        GError,
                    >(key)
        },
    decreases entries.len(),
{
    if gathered::<K, V>(h, entries, map_type) is Ok {
        law_no_key_twice::<K, V>(h, entries, map_type);
    }
    if entries.len() > 0 {
        let fewer = entries.drop_last();
        let last = entries.len() - 1;
        lemma_read_entries::<K, V>(h, fewer, map_type);
        assert forall|i: int| 0 <= i < last implies #[trigger] fewer[i] == entries[i] by {
        }
        let readable = forall|i: int|
            0 <= i < entries.len() ==> K::of_val(h, (#[trigger] entries[i]).0.val()) is Ok
                && V::of_val(h, entries[i].1.val()) is Ok;
        let apart = forall|i: int, j: int|
            0 <= i < j < entries.len() ==> K::of_val(h, (#[trigger] entries[i]).0.val())
                != K::of_val(h, (#[trigger] entries[j]).0.val());
        if readable && apart {
            assert forall|i: int| 0 <= i < fewer.len() implies K::of_val(
                h,
                (#[trigger] fewer[i]).0.val(),
            ) is Ok && V::of_val(h, fewer[i].1.val()) is Ok by {
                assert(fewer[i] == entries[i]);
            }
            assert forall|i: int, j: int| 0 <= i < j < fewer.len() implies K::of_val(
                h,
                (#[trigger] fewer[i]).0.val(),
            ) != K::of_val(h, (#[trigger] fewer[j]).0.val()) by {
                assert(fewer[i] == entries[i] && fewer[j] == entries[j]);
            }
            let before = gathered::<K, V>(h, fewer, map_type)->Ok_0;
            let key = K::of_val(h, entries[last].0.val())->Ok_0;
            if before.contains_key(key) {
                let i = choose|i: int|
                    0 <= i < fewer.len() && K::of_val(h, (#[trigger] fewer[i]).0.val()) == Ok::<
                        K,
                        GError,
                    >(key);
                assert(fewer[i] == entries[i]);
                assert(K::of_val(h, entries[i].0.val()) != K::of_val(h, entries[last].0.val()));
            }
        }
        if gathered::<K, V>(h, entries, map_type) is Ok {
            let before = gathered::<K, V>(h, fewer, map_type)->Ok_0;
            let map = gathered::<K, V>(h, entries, map_type)->Ok_0;
            assert forall|key: K| #[trigger] map.contains_key(key) implies exists|i: int|
                0 <= i < entries.len() && K::of_val(h, (#[trigger] entries[i]).0.val()) == Ok::<
                    K,
                    GError,
                >(key) by {
                if before.contains_key(key) {
                    let i = choose|i: int|
                        0 <= i < fewer.len() && K::of_val(h, (#[trigger] fewer[i]).0.val()) == Ok::<
                            K,
                            GError,
                        >(key);
                    assert(K::of_val(h, entries[i].0.val()) == Ok::<K, GError>(key));
                } else {
                    assert(K::of_val(h, entries[last].0.val()) == Ok::<K, GError>(key));
                }
            }
        }
    }
}

/// The first entry that cannot become part of a map is the reason.
proof fn lemma_entries_refused<K: FromVal + Plain, V: FromVal>(
    h: Store,
    entries: Seq<(Slot, Slot)>,
    map_type: MapType,
    k: int,
)
    requires
        0 <= k < entries.len(),
        forall|i: int|
            0 <= i < k ==> K::of_val(h, (#[trigger] entries[i]).0.val()) is Ok && V::of_val(
                h,
                entries[i].1.val(),
            ) is Ok,
        forall|i: int, j: int|
            0 <= i < j < k ==> K::of_val(h, (#[trigger] entries[i]).0.val()) != K::of_val(
                h,
                (#[trigger] entries[j]).0.val(),
            ),
    ensures
        ({
            let key = K::of_val(h, entries[k].0.val());
            let value = V::of_val(h, entries[k].1.val());
            let read = gathered::<K, V>(h, entries, map_type);
            &&& key is Err ==> read == Err::<Map<K, V::Model>, GError>(key->Err_0)
            &&& key is Ok && value is Err ==> read == Err::<Map<K, V::Model>, GError>(value->Err_0)
            &&& key is Ok && value is Ok && (exists|i: int|
                0 <= i < k && K::of_val(h, (#[trigger] entries[i]).0.val()) == key) ==> read
                == Err::<Map<K, V::Model>, GError>(GError::DuplicateKey { expected: map_type })
        }),
    decreases entries.len(),
{
    let fewer = entries.drop_last();
    assert forall|i: int| 0 <= i < k implies K::of_val(h, (#[trigger] fewer[i]).0.val()) is Ok
        && V::of_val(h, fewer[i].1.val()) is Ok by {
        assert(fewer[i] == entries[i]);
    }
    assert forall|i: int, j: int| 0 <= i < j < k implies K::of_val(
        h,
        (#[trigger] fewer[i]).0.val(),
    ) != K::of_val(h, (#[trigger] fewer[j]).0.val()) by {
        assert(fewer[i] == entries[i] && fewer[j] == entries[j]);
    }
    let key = K::of_val(h, entries[k].0.val());
    let twice = exists|i: int| 0 <= i < k && K::of_val(h, (#[trigger] entries[i]).0.val()) == key;
    if twice {
        let i = choose|i: int|
            0 <= i < k && K::of_val(h, (#[trigger] entries[i]).0.val()) == key;
        assert(K::of_val(h, fewer[i].0.val()) == key);
    }
    if k < entries.len() - 1 {
        assert(fewer[k] == entries[k]);
        lemma_entries_refused::<K, V>(h, fewer, map_type, k);
    } else {
        lemma_read_entries::<K, V>(h, fewer, map_type);
        assert(gathered::<K, V>(h, fewer, map_type) is Ok);
    }
}

} // verus!
