//! `IntoVal` for scalars, handles and the type-erased enums.

use vstd::prelude::*;

use crate::callable::Callable;
use crate::error::{GError, GResult, WideInt};
use crate::into_val::{IntoVal, IntoValMut};
use crate::marker::{ErrorMarker, HostType, Unmasked};
use crate::store::{Heap, HostCell, Store};
use crate::value::{
    Deque, Expander, Flo, GIterLen, HostValue, Iterable, Num, Order, Pointee, RRoot, Raw, Root,
    Slot, Sym, Val, GT_SYM, INFINITE_SYM, LT_SYM, NUM_EQ_SYM, UNKNOWN_SYM,
};

verus! {

impl IntoVal for Val {
    open spec fn to_val(self, h: Store) -> (Store, GResult<Val>) {
        (h, Ok(self))
    }

    fn into_val(self, heap: &mut Heap) -> (r: GResult<Val>) {
        Ok(self)
    }

    fn into_slot(self, heap: &mut Heap) -> (r: GResult<Slot>) {
        Ok(Slot::from_val(&self))
    }
}

impl<'a> IntoVal for &'a Val {
    open spec fn to_val(self, h: Store) -> (Store, GResult<Val>) {
        (h, Ok(*self))
    }

    fn into_val(self, heap: &mut Heap) -> (r: GResult<Val>) {
        Ok(*self)
    }

    fn into_slot(self, heap: &mut Heap) -> (r: GResult<Slot>) {
        Ok(Slot::from_val(self))
    }
}

impl IntoValMut for Val {
    open spec fn mut_to_val(self, h: Store) -> (Store, GResult<Val>) {
        self.to_val(h)
    }

    open spec fn leaves(self, h: Store, after: Self) -> bool {
        after == self
    }

    fn into_val_mut(&mut self, heap: &mut Heap) -> (r: GResult<Val>) {
        (*self).into_val(heap)
    }
}

impl IntoVal for Slot {
    open spec fn to_val(self, h: Store) -> (Store, GResult<Val>) {
        (h, Ok(self.val()))
    }

    fn into_val(self, heap: &mut Heap) -> (r: GResult<Val>) {
        Ok(
            match self {
                Slot::Nil => Val::Nil,
                Slot::Int(i) => Val::Int(i),
                Slot::Char(c) => Val::Char(c),
                Slot::Flo(f) => Val::Flo(f),
                Slot::Bool(b) => Val::Bool(b),
                Slot::Sym(s) => Val::Sym(s),
                Slot::RFn(r) => Val::RFn(r.into_root()),
                Slot::Arr(r) => Val::Arr(r.into_root()),
                Slot::Str(r) => Val::Str(r.into_root()),
                Slot::Tab(r) => Val::Tab(r.into_root()),
                Slot::GIter(r) => Val::GIter(r.into_root()),
                Slot::Obj(r) => Val::Obj(r.into_root()),
                Slot::Class(r) => Val::Class(r.into_root()),
                Slot::GFn(r) => Val::GFn(r.into_root()),
                Slot::Coro(r) => Val::Coro(r.into_root()),
                Slot::RData(r) => Val::RData(r.into_root()),
            },
        )
    }

    fn into_slot(self, heap: &mut Heap) -> (r: GResult<Slot>) {
        Ok(self)
    }
}

impl<'a> IntoVal for &'a Slot {
    open spec fn to_val(self, h: Store) -> (Store, GResult<Val>) {
        (h, Ok(self.val()))
    }

    fn into_val(self, heap: &mut Heap) -> (r: GResult<Val>) {
        (*self).into_val(heap)
    }

    fn into_slot(self, heap: &mut Heap) -> (r: GResult<Slot>) {
        Ok(*self)
    }
}

impl IntoValMut for Slot {
    open spec fn mut_to_val(self, h: Store) -> (Store, GResult<Val>) {
        self.to_val(h)
    }

    open spec fn leaves(self, h: Store, after: Self) -> bool {
        after == self
    }

    fn into_val_mut(&mut self, heap: &mut Heap) -> (r: GResult<Val>) {
        (*self).into_val(heap)
    }
}

impl<T: IntoVal> IntoVal for Option<T> {
    open spec fn to_val(self, h: Store) -> (Store, GResult<Val>) {
        match self {
            Some(src) => src.to_val(h),
            None => (h, Ok(Val::Nil)),
        }
    }

    fn into_val(self, heap: &mut Heap) -> (r: GResult<Val>) {
        match self {
            Some(src) => src.into_val(heap),
            None => Ok(Val::Nil),
        }
    }

    fn into_slot(self, heap: &mut Heap) -> (r: GResult<Slot>) {
        match self {
            Some(src) => src.into_slot(heap),
            None => Ok(Slot::Nil),
        }
    }
}

impl<'a, T> IntoVal for &'a Option<T> where &'a T: IntoVal {
    open spec fn to_val(self, h: Store) -> (Store, GResult<Val>) {
        match self {
            Some(src) => src.to_val(h),
            None => (h, Ok(Val::Nil)),
        }
    }

    fn into_val(self, heap: &mut Heap) -> (r: GResult<Val>) {
        match self {
            Some(src) => src.into_val(heap),
            None => Ok(Val::Nil),
        }
    }

    fn into_slot(self, heap: &mut Heap) -> (r: GResult<Slot>) {
        match self {
            Some(src) => src.into_slot(heap),
            None => Ok(Slot::Nil),
        }
    }
}

impl<T: IntoValMut> IntoValMut for Option<T> {
    open spec fn mut_to_val(self, h: Store) -> (Store, GResult<Val>) {
        match self {
            Some(src) => src.mut_to_val(h),
            None => (h, Ok(Val::Nil)),
        }
    }

    open spec fn leaves(self, h: Store, after: Self) -> bool {
        match (self, after) {
            (Some(src), Some(left)) => src.leaves(h, left),
            (None, None) => true,
            _ => false,
        }
    }

    fn into_val_mut(&mut self, heap: &mut Heap) -> (r: GResult<Val>) {
        match self {
            Some(src) => src.into_val_mut(heap),
            None => Ok(Val::Nil),
        }
    }
}

impl<T: IntoVal, E: ErrorMarker> IntoVal for Result<T, E> {
    open spec fn to_val(self, h: Store) -> (Store, GResult<Val>) {
        match self {
            Ok(src) => src.to_val(h),
            Err(err) => (
                h,
                Err(
                    match err.unmasked() {
                        Unmasked::Own(own) => own,
                        Unmasked::Foreign(error) => GError::Encountered { error },
                    },
                ),
            ),
        }
    }

    fn into_val(self, heap: &mut Heap) -> (r: GResult<Val>) {
        match self {
            Ok(src) => src.into_val(heap),
            // An error of the engine's own passes through as it is, so that `MacroNoOp` is not
            // promoted to a true error.
            Err(err) => match err.unmask() {
                Unmasked::Own(own) => Err(own),
                Unmasked::Foreign(error) => Err(GError::Encountered { error }),
            },
        }
    }
}

impl IntoVal for () {
    open spec fn to_val(self, h: Store) -> (Store, GResult<Val>) {
        (h, Ok(Val::Nil))
    }

    fn into_val(self, heap: &mut Heap) -> (r: GResult<Val>) {
        Ok(Val::Nil)
    }

    fn into_slot(self, heap: &mut Heap) -> (r: GResult<Slot>) {
        Ok(Slot::Nil)
    }
}

impl<'a> IntoVal for &'a () {
    open spec fn to_val(self, h: Store) -> (Store, GResult<Val>) {
        (h, Ok(Val::Nil))
    }

    fn into_val(self, heap: &mut Heap) -> (r: GResult<Val>) {
        Ok(Val::Nil)
    }

    fn into_slot(self, heap: &mut Heap) -> (r: GResult<Slot>) {
        Ok(Slot::Nil)
    }
}

impl IntoValMut for () {
    open spec fn mut_to_val(self, h: Store) -> (Store, GResult<Val>) {
        self.to_val(h)
    }

    open spec fn leaves(self, h: Store, after: Self) -> bool {
        after == self
    }

    fn into_val_mut(&mut self, heap: &mut Heap) -> (r: GResult<Val>) {
        (*self).into_val(heap)
    }
}

impl IntoVal for i8 {
    open spec fn to_val(self, h: Store) -> (Store, GResult<Val>) {
        (h, Ok(Val::Int(self as i32)))
    }

    fn into_val(self, heap: &mut Heap) -> (r: GResult<Val>) {
        Ok(Val::Int(self as i32))
    }

    fn into_slot(self, heap: &mut Heap) -> (r: GResult<Slot>) {
        Ok(Slot::Int(self as i32))
    }
}

impl<'a> IntoVal for &'a i8 {
    open spec fn to_val(self, h: Store) -> (Store, GResult<Val>) {
        (h, Ok(Val::Int(*self as i32)))
    }

    fn into_val(self, heap: &mut Heap) -> (r: GResult<Val>) {
        Ok(Val::Int(*self as i32))
    }

    fn into_slot(self, heap: &mut Heap) -> (r: GResult<Slot>) {
        Ok(Slot::Int(*self as i32))
    }
}

impl IntoValMut for i8 {
    open spec fn mut_to_val(self, h: Store) -> (Store, GResult<Val>) {
        self.to_val(h)
    }

    open spec fn leaves(self, h: Store, after: Self) -> bool {
        after == self
    }

    fn into_val_mut(&mut self, heap: &mut Heap) -> (r: GResult<Val>) {
        (*self).into_val(heap)
    }
}

impl IntoVal for i16 {
    open spec fn to_val(self, h: Store) -> (Store, GResult<Val>) {
        (h, Ok(Val::Int(self as i32)))
    }

    fn into_val(self, heap: &mut Heap) -> (r: GResult<Val>) {
        Ok(Val::Int(self as i32))
    }

    fn into_slot(self, heap: &mut Heap) -> (r: GResult<Slot>) {
        Ok(Slot::Int(self as i32))
    }
}

impl<'a> IntoVal for &'a i16 {
    open spec fn to_val(self, h: Store) -> (Store, GResult<Val>) {
        (h, Ok(Val::Int(*self as i32)))
    }

    fn into_val(self, heap: &mut Heap) -> (r: GResult<Val>) {
        Ok(Val::Int(*self as i32))
    }

    fn into_slot(self, heap: &mut Heap) -> (r: GResult<Slot>) {
        Ok(Slot::Int(*self as i32))
    }
}

impl IntoValMut for i16 {
    open spec fn mut_to_val(self, h: Store) -> (Store, GResult<Val>) {
        self.to_val(h)
    }

    open spec fn leaves(self, h: Store, after: Self) -> bool {
        after == self
    }

    fn into_val_mut(&mut self, heap: &mut Heap) -> (r: GResult<Val>) {
        (*self).into_val(heap)
    }
}

impl IntoVal for i32 {
    open spec fn to_val(self, h: Store) -> (Store, GResult<Val>) {
        (h, Ok(Val::Int(self)))
    }

    fn into_val(self, heap: &mut Heap) -> (r: GResult<Val>) {
        Ok(Val::Int(self))
    }

    fn into_slot(self, heap: &mut Heap) -> (r: GResult<Slot>) {
        Ok(Slot::Int(self))
    }
}

impl<'a> IntoVal for &'a i32 {
    open spec fn to_val(self, h: Store) -> (Store, GResult<Val>) {
        (h, Ok(Val::Int(*self)))
    }

    fn into_val(self, heap: &mut Heap) -> (r: GResult<Val>) {
        Ok(Val::Int(*self))
    }

    fn into_slot(self, heap: &mut Heap) -> (r: GResult<Slot>) {
        Ok(Slot::Int(*self))
    }
}

impl IntoValMut for i32 {
    open spec fn mut_to_val(self, h: Store) -> (Store, GResult<Val>) {
        self.to_val(h)
    }

    open spec fn leaves(self, h: Store, after: Self) -> bool {
        after == self
    }

    fn into_val_mut(&mut self, heap: &mut Heap) -> (r: GResult<Val>) {
        (*self).into_val(heap)
    }
}

impl IntoVal for u8 {
    open spec fn to_val(self, h: Store) -> (Store, GResult<Val>) {
        (h, Ok(Val::Int(self as i32)))
    }

    fn into_val(self, heap: &mut Heap) -> (r: GResult<Val>) {
        Ok(Val::Int(self as i32))
    }

    fn into_slot(self, heap: &mut Heap) -> (r: GResult<Slot>) {
        Ok(Slot::Int(self as i32))
    }
}

impl<'a> IntoVal for &'a u8 {
    open spec fn to_val(self, h: Store) -> (Store, GResult<Val>) {
        (h, Ok(Val::Int(*self as i32)))
    }

    fn into_val(self, heap: &mut Heap) -> (r: GResult<Val>) {
        Ok(Val::Int(*self as i32))
    }

    fn into_slot(self, heap: &mut Heap) -> (r: GResult<Slot>) {
        Ok(Slot::Int(*self as i32))
    }
}

impl IntoValMut for u8 {
    open spec fn mut_to_val(self, h: Store) -> (Store, GResult<Val>) {
        self.to_val(h)
    }

    open spec fn leaves(self, h: Store, after: Self) -> bool {
        after == self
    }

    fn into_val_mut(&mut self, heap: &mut Heap) -> (r: GResult<Val>) {
        (*self).into_val(heap)
    }
}

impl IntoVal for u16 {
    open spec fn to_val(self, h: Store) -> (Store, GResult<Val>) {
        (h, Ok(Val::Int(self as i32)))
    }

    fn into_val(self, heap: &mut Heap) -> (r: GResult<Val>) {
        Ok(Val::Int(self as i32))
    }

    fn into_slot(self, heap: &mut Heap) -> (r: GResult<Slot>) {
        Ok(Slot::Int(self as i32))
    }
}

impl<'a> IntoVal for &'a u16 {
    open spec fn to_val(self, h: Store) -> (Store, GResult<Val>) {
        (h, Ok(Val::Int(*self as i32)))
    }

    fn into_val(self, heap: &mut Heap) -> (r: GResult<Val>) {
        Ok(Val::Int(*self as i32))
    }

    fn into_slot(self, heap: &mut Heap) -> (r: GResult<Slot>) {
        Ok(Slot::Int(*self as i32))
    }
}

impl IntoValMut for u16 {
    open spec fn mut_to_val(self, h: Store) -> (Store, GResult<Val>) {
        self.to_val(h)
    }

    open spec fn leaves(self, h: Store, after: Self) -> bool {
        after == self
    }

    fn into_val_mut(&mut self, heap: &mut Heap) -> (r: GResult<Val>) {
        (*self).into_val(heap)
    }
}

impl IntoVal for Flo {
    open spec fn to_val(self, h: Store) -> (Store, GResult<Val>) {
        (h, Ok(Val::Flo(self)))
    }

    fn into_val(self, heap: &mut Heap) -> (r: GResult<Val>) {
        Ok(Val::Flo(self))
    }

    fn into_slot(self, heap: &mut Heap) -> (r: GResult<Slot>) {
        Ok(Slot::Flo(self))
    }
}

impl<'a> IntoVal for &'a Flo {
    open spec fn to_val(self, h: Store) -> (Store, GResult<Val>) {
        (h, Ok(Val::Flo(*self)))
    }

    fn into_val(self, heap: &mut Heap) -> (r: GResult<Val>) {
        Ok(Val::Flo(*self))
    }

    fn into_slot(self, heap: &mut Heap) -> (r: GResult<Slot>) {
        Ok(Slot::Flo(*self))
    }
}

impl IntoValMut for Flo {
    open spec fn mut_to_val(self, h: Store) -> (Store, GResult<Val>) {
        self.to_val(h)
    }

    open spec fn leaves(self, h: Store, after: Self) -> bool {
        after == self
    }

    fn into_val_mut(&mut self, heap: &mut Heap) -> (r: GResult<Val>) {
        (*self).into_val(heap)
    }
}

impl IntoVal for char {
    open spec fn to_val(self, h: Store) -> (Store, GResult<Val>) {
        (h, Ok(Val::Char(self)))
    }

    fn into_val(self, heap: &mut Heap) -> (r: GResult<Val>) {
        Ok(Val::Char(self))
    }

    fn into_slot(self, heap: &mut Heap) -> (r: GResult<Slot>) {
        Ok(Slot::Char(self))
    }
}

impl<'a> IntoVal for &'a char {
    open spec fn to_val(self, h: Store) -> (Store, GResult<Val>) {
        (h, Ok(Val::Char(*self)))
    }

    fn into_val(self, heap: &mut Heap) -> (r: GResult<Val>) {
        Ok(Val::Char(*self))
    }

    fn into_slot(self, heap: &mut Heap) -> (r: GResult<Slot>) {
        Ok(Slot::Char(*self))
    }
}

impl IntoValMut for char {
    open spec fn mut_to_val(self, h: Store) -> (Store, GResult<Val>) {
        self.to_val(h)
    }

    open spec fn leaves(self, h: Store, after: Self) -> bool {
        after == self
    }

    fn into_val_mut(&mut self, heap: &mut Heap) -> (r: GResult<Val>) {
        (*self).into_val(heap)
    }
}

impl IntoVal for bool {
    open spec fn to_val(self, h: Store) -> (Store, GResult<Val>) {
        (h, Ok(Val::Bool(self)))
    }

    fn into_val(self, heap: &mut Heap) -> (r: GResult<Val>) {
        Ok(Val::Bool(self))
    }

    fn into_slot(self, heap: &mut Heap) -> (r: GResult<Slot>) {
        Ok(Slot::Bool(self))
    }
}

impl<'a> IntoVal for &'a bool {
    open spec fn to_val(self, h: Store) -> (Store, GResult<Val>) {
        (h, Ok(Val::Bool(*self)))
    }

    fn into_val(self, heap: &mut Heap) -> (r: GResult<Val>) {
        Ok(Val::Bool(*self))
    }

    fn into_slot(self, heap: &mut Heap) -> (r: GResult<Slot>) {
        Ok(Slot::Bool(*self))
    }
}

impl IntoValMut for bool {
    open spec fn mut_to_val(self, h: Store) -> (Store, GResult<Val>) {
        self.to_val(h)
    }

    open spec fn leaves(self, h: Store, after: Self) -> bool {
        after == self
    }

    fn into_val_mut(&mut self, heap: &mut Heap) -> (r: GResult<Val>) {
        (*self).into_val(heap)
    }
}

impl IntoVal for Sym {
    open spec fn to_val(self, h: Store) -> (Store, GResult<Val>) {
        (h, Ok(Val::Sym(self)))
    }

    fn into_val(self, heap: &mut Heap) -> (r: GResult<Val>) {
        Ok(Val::Sym(self))
    }

    fn into_slot(self, heap: &mut Heap) -> (r: GResult<Slot>) {
        Ok(Slot::Sym(self))
    }
}

impl<'a> IntoVal for &'a Sym {
    open spec fn to_val(self, h: Store) -> (Store, GResult<Val>) {
        (h, Ok(Val::Sym(*self)))
    }

    fn into_val(self, heap: &mut Heap) -> (r: GResult<Val>) {
        Ok(Val::Sym(*self))
    }

    fn into_slot(self, heap: &mut Heap) -> (r: GResult<Slot>) {
        Ok(Slot::Sym(*self))
    }
}

impl IntoValMut for Sym {
    open spec fn mut_to_val(self, h: Store) -> (Store, GResult<Val>) {
        self.to_val(h)
    }

    open spec fn leaves(self, h: Store, after: Self) -> bool {
        after == self
    }

    fn into_val_mut(&mut self, heap: &mut Heap) -> (r: GResult<Val>) {
        (*self).into_val(heap)
    }
}

impl IntoVal for i64 {
    open spec fn to_val(self, h: Store) -> (Store, GResult<Val>) {
        if i32::MIN <= self <= i32::MAX {
            (h, Ok(Val::Int(self as i32)))
        } else {
            (h, Err(GError::NotAnI32 { value: WideInt::Signed(self as i128) }))
        }
    }

    fn into_val(self, heap: &mut Heap) -> (r: GResult<Val>) {
        if self >= -0x8000_0000 && self <= 0x7fff_ffff {
            Ok(Val::Int(self as i32))
        } else {
            Err(GError::NotAnI32 { value: WideInt::Signed(self as i128) })
        }
    }

    fn into_slot(self, heap: &mut Heap) -> (r: GResult<Slot>) {
        if self >= -0x8000_0000 && self <= 0x7fff_ffff {
            Ok(Slot::Int(self as i32))
        } else {
            Err(GError::NotAnI32 { value: WideInt::Signed(self as i128) })
        }
    }
}

impl IntoVal for i128 {
    open spec fn to_val(self, h: Store) -> (Store, GResult<Val>) {
        if i32::MIN <= self <= i32::MAX {
            (h, Ok(Val::Int(self as i32)))
        } else {
            (h, Err(GError::NotAnI32 { value: WideInt::Signed(self) }))
        }
    }

    fn into_val(self, heap: &mut Heap) -> (r: GResult<Val>) {
        if self >= -0x8000_0000 && self <= 0x7fff_ffff {
            Ok(Val::Int(self as i32))
        } else {
            Err(GError::NotAnI32 { value: WideInt::Signed(self) })
        }
    }

    fn into_slot(self, heap: &mut Heap) -> (r: GResult<Slot>) {
        if self >= -0x8000_0000 && self <= 0x7fff_ffff {
            Ok(Slot::Int(self as i32))
        } else {
            Err(GError::NotAnI32 { value: WideInt::Signed(self) })
        }
    }
}

impl IntoVal for isize {
    open spec fn to_val(self, h: Store) -> (Store, GResult<Val>) {
        if i32::MIN <= self <= i32::MAX {
            (h, Ok(Val::Int(self as i32)))
        } else {
            (h, Err(GError::NotAnI32 { value: WideInt::Signed(self as i128) }))
        }
    }

    fn into_val(self, heap: &mut Heap) -> (r: GResult<Val>) {
        if self >= -0x8000_0000 && self <= 0x7fff_ffff {
            Ok(Val::Int(self as i32))
        } else {
            Err(GError::NotAnI32 { value: WideInt::Signed(self as i128) })
        }
    }

    fn into_slot(self, heap: &mut Heap) -> (r: GResult<Slot>) {
        if self >= -0x8000_0000 && self <= 0x7fff_ffff {
            Ok(Slot::Int(self as i32))
        } else {
            Err(GError::NotAnI32 { value: WideInt::Signed(self as i128) })
        }
    }
}

impl IntoVal for u32 {
    open spec fn to_val(self, h: Store) -> (Store, GResult<Val>) {
        if self <= i32::MAX {
            (h, Ok(Val::Int(self as i32)))
        } else {
            (h, Err(GError::NotAnI32 { value: WideInt::Unsigned(self as u128) }))
        }
    }

    fn into_val(self, heap: &mut Heap) -> (r: GResult<Val>) {
        if self <= 0x7fff_ffff {
            Ok(Val::Int(self as i32))
        } else {
            Err(GError::NotAnI32 { value: WideInt::Unsigned(self as u128) })
        }
    }

    fn into_slot(self, heap: &mut Heap) -> (r: GResult<Slot>) {
        if self <= 0x7fff_ffff {
            Ok(Slot::Int(self as i32))
        } else {
            Err(GError::NotAnI32 { value: WideInt::Unsigned(self as u128) })
        }
    }
}

impl IntoVal for u64 {
    open spec fn to_val(self, h: Store) -> (Store, GResult<Val>) {
        if self <= i32::MAX {
            (h, Ok(Val::Int(self as i32)))
        } else {
            (h, Err(GError::NotAnI32 { value: WideInt::Unsigned(self as u128) }))
        }
    }

    fn into_val(self, heap: &mut Heap) -> (r: GResult<Val>) {
        if self <= 0x7fff_ffff {
            Ok(Val::Int(self as i32))
        } else {
            Err(GError::NotAnI32 { value: WideInt::Unsigned(self as u128) })
        }
    }

    fn into_slot(self, heap: &mut Heap) -> (r: GResult<Slot>) {
        if self <= 0x7fff_ffff {
            Ok(Slot::Int(self as i32))
        } else {
            Err(GError::NotAnI32 { value: WideInt::Unsigned(self as u128) })
        }
    }
}

impl IntoVal for u128 {
    open spec fn to_val(self, h: Store) -> (Store, GResult<Val>) {
        if self <= i32::MAX {
            (h, Ok(Val::Int(self as i32)))
        } else {
            (h, Err(GError::NotAnI32 { value: WideInt::Unsigned(self) }))
        }
    }

    fn into_val(self, heap: &mut Heap) -> (r: GResult<Val>) {
        if self <= 0x7fff_ffff {
            Ok(Val::Int(self as i32))
        } else {
            Err(GError::NotAnI32 { value: WideInt::Unsigned(self) })
        }
    }

    fn into_slot(self, heap: &mut Heap) -> (r: GResult<Slot>) {
        if self <= 0x7fff_ffff {
            Ok(Slot::Int(self as i32))
        } else {
            Err(GError::NotAnI32 { value: WideInt::Unsigned(self) })
        }
    }
}

impl IntoVal for usize {
    open spec fn to_val(self, h: Store) -> (Store, GResult<Val>) {
        if self <= i32::MAX {
            (h, Ok(Val::Int(self as i32)))
        } else {
            (h, Err(GError::NotAnI32 { value: WideInt::Unsigned(self as u128) }))
        }
    }

    fn into_val(self, heap: &mut Heap) -> (r: GResult<Val>) {
        if self <= 0x7fff_ffff {
            Ok(Val::Int(self as i32))
        } else {
            Err(GError::NotAnI32 { value: WideInt::Unsigned(self as u128) })
        }
    }

    fn into_slot(self, heap: &mut Heap) -> (r: GResult<Slot>) {
        if self <= 0x7fff_ffff {
            Ok(Slot::Int(self as i32))
        } else {
            Err(GError::NotAnI32 { value: WideInt::Unsigned(self as u128) })
        }
    }
}

impl IntoVal for Num {
    open spec fn to_val(self, h: Store) -> (Store, GResult<Val>) {
        match self {
            Num::Int(i) => (h, Ok(Val::Int(i))),
            Num::Flo(f) => (h, Ok(Val::Flo(f))),
        }
    }

    fn into_val(self, heap: &mut Heap) -> (r: GResult<Val>) {
        match self {
            Num::Int(i) => Ok(Val::Int(i)),
            Num::Flo(f) => Ok(Val::Flo(f)),
        }
    }

    fn into_slot(self, heap: &mut Heap) -> (r: GResult<Slot>) {
        match self {
            Num::Int(i) => Ok(Slot::Int(i)),
            Num::Flo(f) => Ok(Slot::Flo(f)),
        }
    }
}

impl<T: Pointee> IntoVal for Root<T> {
    open spec fn to_val(self, h: Store) -> (Store, GResult<Val>) {
        (h, Ok(T::val_of(self)))
    }

    fn into_val(self, heap: &mut Heap) -> (r: GResult<Val>) {
        Ok(T::to_val(self))
    }

    fn into_slot(self, heap: &mut Heap) -> (r: GResult<Slot>) {
        Ok(T::to_slot(self.into_raw()))
    }
}

impl<'a, T: Pointee> IntoVal for &'a Root<T> {
    open spec fn to_val(self, h: Store) -> (Store, GResult<Val>) {
        (h, Ok(T::val_of(*self)))
    }

    fn into_val(self, heap: &mut Heap) -> (r: GResult<Val>) {
        Ok(T::to_val(*self))
    }

    fn into_slot(self, heap: &mut Heap) -> (r: GResult<Slot>) {
        Ok(T::to_slot(self.to_raw()))
    }
}

impl<T: Pointee> IntoValMut for Root<T> {
    open spec fn mut_to_val(self, h: Store) -> (Store, GResult<Val>) {
        self.to_val(h)
    }

    open spec fn leaves(self, h: Store, after: Self) -> bool {
        after == self
    }

    fn into_val_mut(&mut self, heap: &mut Heap) -> (r: GResult<Val>) {
        (*self).into_val(heap)
    }
}

impl<T: Pointee> IntoVal for Raw<T> {
    open spec fn to_val(self, h: Store) -> (Store, GResult<Val>) {
        (h, Ok(T::val_of(self.rooted())))
    }

    fn into_val(self, heap: &mut Heap) -> (r: GResult<Val>) {
        Ok(T::to_val(self.into_root()))
    }

    fn into_slot(self, heap: &mut Heap) -> (r: GResult<Slot>) {
        Ok(T::to_slot(self))
    }
}

impl<T> IntoVal for RRoot<T> {
    open spec fn to_val(self, h: Store) -> (Store, GResult<Val>) {
        (h, Ok(Val::RData(self.untyped())))
    }

    fn into_val(self, heap: &mut Heap) -> (r: GResult<Val>) {
        Ok(Val::RData(self.into_root()))
    }

    fn into_slot(self, heap: &mut Heap) -> (r: GResult<Slot>) {
        Ok(Slot::RData(self.into_raw()))
    }
}

impl<'a, T> IntoVal for &'a RRoot<T> {
    open spec fn to_val(self, h: Store) -> (Store, GResult<Val>) {
        (h, Ok(Val::RData(self.untyped())))
    }

    fn into_val(self, heap: &mut Heap) -> (r: GResult<Val>) {
        Ok(Val::RData(self.to_root()))
    }

    fn into_slot(self, heap: &mut Heap) -> (r: GResult<Slot>) {
        Ok(Slot::RData(self.to_raw()))
    }
}

impl<T> IntoValMut for RRoot<T> {
    open spec fn mut_to_val(self, h: Store) -> (Store, GResult<Val>) {
        self.to_val(h)
    }

    open spec fn leaves(self, h: Store, after: Self) -> bool {
        after == self
    }

    fn into_val_mut(&mut self, heap: &mut Heap) -> (r: GResult<Val>) {
        Ok(Val::RData((*self).to_root()))
    }
}

impl IntoVal for Deque {
    open spec fn to_val(self, h: Store) -> (Store, GResult<Val>) {
        match self {
            Deque::Arr(root) => (h, Ok(Val::Arr(root))),
            Deque::Str(root) => (h, Ok(Val::Str(root))),
        }
    }

    fn into_val(self, heap: &mut Heap) -> (r: GResult<Val>) {
        match self {
            Deque::Arr(root) => Ok(Val::Arr(root)),
            Deque::Str(root) => Ok(Val::Str(root)),
        }
    }

    fn into_slot(self, heap: &mut Heap) -> (r: GResult<Slot>) {
        match self {
            Deque::Arr(root) => Ok(Slot::Arr(root.into_raw())),
            Deque::Str(root) => Ok(Slot::Str(root.into_raw())),
        }
    }
}

impl IntoVal for Callable {
    open spec fn to_val(self, h: Store) -> (Store, GResult<Val>) {
        match self {
            Callable::GFn(root) => (h, Ok(Val::GFn(root))),
            Callable::RFn(root) => (h, Ok(Val::RFn(root))),
            Callable::Class(root) => (h, Ok(Val::Class(root))),
        }
    }

    fn into_val(self, heap: &mut Heap) -> (r: GResult<Val>) {
        match self {
            Callable::GFn(root) => Ok(Val::GFn(root)),
            Callable::RFn(root) => Ok(Val::RFn(root)),
            Callable::Class(root) => Ok(Val::Class(root)),
        }
    }

    fn into_slot(self, heap: &mut Heap) -> (r: GResult<Slot>) {
        match self {
            Callable::GFn(root) => Ok(Slot::GFn(root.into_raw())),
            Callable::RFn(root) => Ok(Slot::RFn(root.into_raw())),
            Callable::Class(root) => Ok(Slot::Class(root.into_raw())),
        }
    }
}

impl IntoVal for Expander {
    open spec fn to_val(self, h: Store) -> (Store, GResult<Val>) {
        match self {
            Expander::GFn(root) => (h, Ok(Val::GFn(root))),
            Expander::RFn(root) => (h, Ok(Val::RFn(root))),
        }
    }

    fn into_val(self, heap: &mut Heap) -> (r: GResult<Val>) {
        match self {
            Expander::GFn(root) => Ok(Val::GFn(root)),
            Expander::RFn(root) => Ok(Val::RFn(root)),
        }
    }

    fn into_slot(self, heap: &mut Heap) -> (r: GResult<Slot>) {
        match self {
            Expander::GFn(root) => Ok(Slot::GFn(root.into_raw())),
            Expander::RFn(root) => Ok(Slot::RFn(root.into_raw())),
        }
    }
}

impl IntoVal for Iterable {
    open spec fn to_val(self, h: Store) -> (Store, GResult<Val>) {
        match self {
            Iterable::Arr(root) => (h, Ok(Val::Arr(root))),
            Iterable::Str(root) => (h, Ok(Val::Str(root))),
            Iterable::Tab(root) => (h, Ok(Val::Tab(root))),
            Iterable::GIter(root) => (h, Ok(Val::GIter(root))),
            Iterable::Coro(root) => (h, Ok(Val::Coro(root))),
        }
    }

    fn into_val(self, heap: &mut Heap) -> (r: GResult<Val>) {
        match self {
            Iterable::Arr(root) => Ok(Val::Arr(root)),
            Iterable::Str(root) => Ok(Val::Str(root)),
            Iterable::Tab(root) => Ok(Val::Tab(root)),
            Iterable::GIter(root) => Ok(Val::GIter(root)),
            Iterable::Coro(root) => Ok(Val::Coro(root)),
        }
    }

    fn into_slot(self, heap: &mut Heap) -> (r: GResult<Slot>) {
        match self {
            Iterable::Arr(root) => Ok(Slot::Arr(root.into_raw())),
            Iterable::Str(root) => Ok(Slot::Str(root.into_raw())),
            Iterable::Tab(root) => Ok(Slot::Tab(root.into_raw())),
            Iterable::GIter(root) => Ok(Slot::GIter(root.into_raw())),
            Iterable::Coro(root) => Ok(Slot::Coro(root.into_raw())),
        }
    }
}

impl IntoVal for GIterLen {
    open spec fn to_val(self, h: Store) -> (Store, GResult<Val>) {
        match self {
            GIterLen::Exact(len) => (h, Ok(Val::Int(#[verifier::truncate] (len as i32)))),
            GIterLen::Infinite => (h, Ok(Val::Sym(Sym { id: INFINITE_SYM }))),
            GIterLen::Unknown => (h, Ok(Val::Sym(Sym { id: UNKNOWN_SYM }))),
        }
    }

    fn into_val(self, heap: &mut Heap) -> (r: GResult<Val>) {
        match self {
            GIterLen::Exact(len) => Ok(Val::Int(#[verifier::truncate] (len as i32))),
            GIterLen::Infinite => Ok(Val::Sym(Sym { id: INFINITE_SYM })),
            GIterLen::Unknown => Ok(Val::Sym(Sym { id: UNKNOWN_SYM })),
        }
    }

    fn into_slot(self, heap: &mut Heap) -> (r: GResult<Slot>) {
        match self {
            GIterLen::Exact(len) => Ok(Slot::Int(#[verifier::truncate] (len as i32))),
            GIterLen::Infinite => Ok(Slot::Sym(Sym { id: INFINITE_SYM })),
            GIterLen::Unknown => Ok(Slot::Sym(Sym { id: UNKNOWN_SYM })),
        }
    }
}

impl IntoVal for Order {
    open spec fn to_val(self, h: Store) -> (Store, GResult<Val>) {
        match self {
            Order::Less => (h, Ok(Val::Sym(Sym { id: LT_SYM }))),
            Order::Equal => (h, Ok(Val::Sym(Sym { id: NUM_EQ_SYM }))),
            Order::Greater => (h, Ok(Val::Sym(Sym { id: GT_SYM }))),
        }
    }

    fn into_val(self, heap: &mut Heap) -> (r: GResult<Val>) {
        match self {
            Order::Less => Ok(Val::Sym(Sym { id: LT_SYM })),
            Order::Equal => Ok(Val::Sym(Sym { id: NUM_EQ_SYM })),
            Order::Greater => Ok(Val::Sym(Sym { id: GT_SYM })),
        }
    }

    fn into_slot(self, heap: &mut Heap) -> (r: GResult<Slot>) {
        match self {
            Order::Less => Ok(Slot::Sym(Sym { id: LT_SYM })),
            Order::Equal => Ok(Slot::Sym(Sym { id: NUM_EQ_SYM })),
            Order::Greater => Ok(Slot::Sym(Sym { id: GT_SYM })),
        }
    }
}

impl<'a> IntoVal for &'a i64 {
    open spec fn to_val(self, h: Store) -> (Store, GResult<Val>) {
        (*self).to_val(h)
    }

    fn into_val(self, heap: &mut Heap) -> (r: GResult<Val>) {
        (*self).into_val(heap)
    }

    fn into_slot(self, heap: &mut Heap) -> (r: GResult<Slot>) {
        (*self).into_slot(heap)
    }
}

impl IntoValMut for i64 {
    open spec fn mut_to_val(self, h: Store) -> (Store, GResult<Val>) {
        self.to_val(h)
    }

    open spec fn leaves(self, h: Store, after: Self) -> bool {
        after == self
    }

    fn into_val_mut(&mut self, heap: &mut Heap) -> (r: GResult<Val>) {
        (*self).into_val(heap)
    }
}

impl<'a> IntoVal for &'a i128 {
    open spec fn to_val(self, h: Store) -> (Store, GResult<Val>) {
        (*self).to_val(h)
    }

    fn into_val(self, heap: &mut Heap) -> (r: GResult<Val>) {
        (*self).into_val(heap)
    }

    fn into_slot(self, heap: &mut Heap) -> (r: GResult<Slot>) {
        (*self).into_slot(heap)
    }
}

impl IntoValMut for i128 {
    open spec fn mut_to_val(self, h: Store) -> (Store, GResult<Val>) {
        self.to_val(h)
    }

    open spec fn leaves(self, h: Store, after: Self) -> bool {
        after == self
    }

    fn into_val_mut(&mut self, heap: &mut Heap) -> (r: GResult<Val>) {
        (*self).into_val(heap)
    }
}

impl<'a> IntoVal for &'a isize {
    open spec fn to_val(self, h: Store) -> (Store, GResult<Val>) {
        (*self).to_val(h)
    }

    fn into_val(self, heap: &mut Heap) -> (r: GResult<Val>) {
        (*self).into_val(heap)
    }

    fn into_slot(self, heap: &mut Heap) -> (r: GResult<Slot>) {
        (*self).into_slot(heap)
    }
}

impl IntoValMut for isize {
    open spec fn mut_to_val(self, h: Store) -> (Store, GResult<Val>) {
        self.to_val(h)
    }

    open spec fn leaves(self, h: Store, after: Self) -> bool {
        after == self
    }

    fn into_val_mut(&mut self, heap: &mut Heap) -> (r: GResult<Val>) {
        (*self).into_val(heap)
    }
}

impl<'a> IntoVal for &'a u32 {
    open spec fn to_val(self, h: Store) -> (Store, GResult<Val>) {
        (*self).to_val(h)
    }

    fn into_val(self, heap: &mut Heap) -> (r: GResult<Val>) {
        (*self).into_val(heap)
    }

    fn into_slot(self, heap: &mut Heap) -> (r: GResult<Slot>) {
        (*self).into_slot(heap)
    }
}

impl IntoValMut for u32 {
    open spec fn mut_to_val(self, h: Store) -> (Store, GResult<Val>) {
        self.to_val(h)
    }

    open spec fn leaves(self, h: Store, after: Self) -> bool {
        after == self
    }

    fn into_val_mut(&mut self, heap: &mut Heap) -> (r: GResult<Val>) {
        (*self).into_val(heap)
    }
}

impl<'a> IntoVal for &'a u64 {
    open spec fn to_val(self, h: Store) -> (Store, GResult<Val>) {
        (*self).to_val(h)
    }

    fn into_val(self, heap: &mut Heap) -> (r: GResult<Val>) {
        (*self).into_val(heap)
    }

    fn into_slot(self, heap: &mut Heap) -> (r: GResult<Slot>) {
        (*self).into_slot(heap)
    }
}

impl IntoValMut for u64 {
    open spec fn mut_to_val(self, h: Store) -> (Store, GResult<Val>) {
        self.to_val(h)
    }

    open spec fn leaves(self, h: Store, after: Self) -> bool {
        after == self
    }

    fn into_val_mut(&mut self, heap: &mut Heap) -> (r: GResult<Val>) {
        (*self).into_val(heap)
    }
}

impl<'a> IntoVal for &'a u128 {
    open spec fn to_val(self, h: Store) -> (Store, GResult<Val>) {
        (*self).to_val(h)
    }

    fn into_val(self, heap: &mut Heap) -> (r: GResult<Val>) {
        (*self).into_val(heap)
    }

    fn into_slot(self, heap: &mut Heap) -> (r: GResult<Slot>) {
        (*self).into_slot(heap)
    }
}

impl IntoValMut for u128 {
    open spec fn mut_to_val(self, h: Store) -> (Store, GResult<Val>) {
        self.to_val(h)
    }

    open spec fn leaves(self, h: Store, after: Self) -> bool {
        after == self
    }

    fn into_val_mut(&mut self, heap: &mut Heap) -> (r: GResult<Val>) {
        (*self).into_val(heap)
    }
}

impl<'a> IntoVal for &'a usize {
    open spec fn to_val(self, h: Store) -> (Store, GResult<Val>) {
        (*self).to_val(h)
    }

    fn into_val(self, heap: &mut Heap) -> (r: GResult<Val>) {
        (*self).into_val(heap)
    }

    fn into_slot(self, heap: &mut Heap) -> (r: GResult<Slot>) {
        (*self).into_slot(heap)
    }
}

impl IntoValMut for usize {
    open spec fn mut_to_val(self, h: Store) -> (Store, GResult<Val>) {
        self.to_val(h)
    }

    open spec fn leaves(self, h: Store, after: Self) -> bool {
        after == self
    }

    fn into_val_mut(&mut self, heap: &mut Heap) -> (r: GResult<Val>) {
        (*self).into_val(heap)
    }
}

impl<'a> IntoVal for &'a Num {
    open spec fn to_val(self, h: Store) -> (Store, GResult<Val>) {
        (*self).to_val(h)
    }

    fn into_val(self, heap: &mut Heap) -> (r: GResult<Val>) {
        (*self).into_val(heap)
    }

    fn into_slot(self, heap: &mut Heap) -> (r: GResult<Slot>) {
        (*self).into_slot(heap)
    }
}

impl IntoValMut for Num {
    open spec fn mut_to_val(self, h: Store) -> (Store, GResult<Val>) {
        self.to_val(h)
    }

    open spec fn leaves(self, h: Store, after: Self) -> bool {
        after == self
    }

    fn into_val_mut(&mut self, heap: &mut Heap) -> (r: GResult<Val>) {
        (*self).into_val(heap)
    }
}

impl<'a> IntoVal for &'a Deque {
    open spec fn to_val(self, h: Store) -> (Store, GResult<Val>) {
        (*self).to_val(h)
    }

    fn into_val(self, heap: &mut Heap) -> (r: GResult<Val>) {
        (*self).into_val(heap)
    }

    fn into_slot(self, heap: &mut Heap) -> (r: GResult<Slot>) {
        (*self).into_slot(heap)
    }
}

impl IntoValMut for Deque {
    open spec fn mut_to_val(self, h: Store) -> (Store, GResult<Val>) {
        self.to_val(h)
    }

    open spec fn leaves(self, h: Store, after: Self) -> bool {
        after == self
    }

    fn into_val_mut(&mut self, heap: &mut Heap) -> (r: GResult<Val>) {
        (*self).into_val(heap)
    }
}

impl<'a> IntoVal for &'a Callable {
    open spec fn to_val(self, h: Store) -> (Store, GResult<Val>) {
        (*self).to_val(h)
    }

    fn into_val(self, heap: &mut Heap) -> (r: GResult<Val>) {
        (*self).into_val(heap)
    }

    fn into_slot(self, heap: &mut Heap) -> (r: GResult<Slot>) {
        (*self).into_slot(heap)
    }
}

impl IntoValMut for Callable {
    open spec fn mut_to_val(self, h: Store) -> (Store, GResult<Val>) {
        self.to_val(h)
    }

    open spec fn leaves(self, h: Store, after: Self) -> bool {
        after == self
    }

    fn into_val_mut(&mut self, heap: &mut Heap) -> (r: GResult<Val>) {
        (*self).into_val(heap)
    }
}

impl<'a> IntoVal for &'a Expander {
    open spec fn to_val(self, h: Store) -> (Store, GResult<Val>) {
        (*self).to_val(h)
    }

    fn into_val(self, heap: &mut Heap) -> (r: GResult<Val>) {
        (*self).into_val(heap)
    }

    fn into_slot(self, heap: &mut Heap) -> (r: GResult<Slot>) {
        (*self).into_slot(heap)
    }
}

impl IntoValMut for Expander {
    open spec fn mut_to_val(self, h: Store) -> (Store, GResult<Val>) {
        self.to_val(h)
    }

    open spec fn leaves(self, h: Store, after: Self) -> bool {
        after == self
    }

    fn into_val_mut(&mut self, heap: &mut Heap) -> (r: GResult<Val>) {
        (*self).into_val(heap)
    }
}

impl<'a> IntoVal for &'a Iterable {
    open spec fn to_val(self, h: Store) -> (Store, GResult<Val>) {
        (*self).to_val(h)
    }

    fn into_val(self, heap: &mut Heap) -> (r: GResult<Val>) {
        (*self).into_val(heap)
    }

    fn into_slot(self, heap: &mut Heap) -> (r: GResult<Slot>) {
        (*self).into_slot(heap)
    }
}

impl IntoValMut for Iterable {
    open spec fn mut_to_val(self, h: Store) -> (Store, GResult<Val>) {
        self.to_val(h)
    }

    open spec fn leaves(self, h: Store, after: Self) -> bool {
        after == self
    }

    fn into_val_mut(&mut self, heap: &mut Heap) -> (r: GResult<Val>) {
        (*self).into_val(heap)
    }
}

impl<'a> IntoVal for &'a GIterLen {
    open spec fn to_val(self, h: Store) -> (Store, GResult<Val>) {
        (*self).to_val(h)
    }

    fn into_val(self, heap: &mut Heap) -> (r: GResult<Val>) {
        (*self).into_val(heap)
    }

    fn into_slot(self, heap: &mut Heap) -> (r: GResult<Slot>) {
        (*self).into_slot(heap)
    }
}

impl IntoValMut for GIterLen {
    open spec fn mut_to_val(self, h: Store) -> (Store, GResult<Val>) {
        self.to_val(h)
    }

    open spec fn leaves(self, h: Store, after: Self) -> bool {
        after == self
    }

    fn into_val_mut(&mut self, heap: &mut Heap) -> (r: GResult<Val>) {
        (*self).into_val(heap)
    }
}

impl<'a> IntoVal for &'a Order {
    open spec fn to_val(self, h: Store) -> (Store, GResult<Val>) {
        (*self).to_val(h)
    }

    fn into_val(self, heap: &mut Heap) -> (r: GResult<Val>) {
        (*self).into_val(heap)
    }

    fn into_slot(self, heap: &mut Heap) -> (r: GResult<Slot>) {
        (*self).into_slot(heap)
    }
}

impl IntoValMut for Order {
    open spec fn mut_to_val(self, h: Store) -> (Store, GResult<Val>) {
        self.to_val(h)
    }

    open spec fn leaves(self, h: Store, after: Self) -> bool {
        after == self
    }

    fn into_val_mut(&mut self, heap: &mut Heap) -> (r: GResult<Val>) {
        (*self).into_val(heap)
    }
}

impl<'a, T: Pointee> IntoVal for &'a Raw<T> {
    open spec fn to_val(self, h: Store) -> (Store, GResult<Val>) {
        (*self).to_val(h)
    }

    fn into_val(self, heap: &mut Heap) -> (r: GResult<Val>) {
        (*self).into_val(heap)
    }

    fn into_slot(self, heap: &mut Heap) -> (r: GResult<Slot>) {
        (*self).into_slot(heap)
    }
}

impl<T: Pointee> IntoValMut for Raw<T> {
    open spec fn mut_to_val(self, h: Store) -> (Store, GResult<Val>) {
        self.to_val(h)
    }

    open spec fn leaves(self, h: Store, after: Self) -> bool {
        after == self
    }

    fn into_val_mut(&mut self, heap: &mut Heap) -> (r: GResult<Val>) {
        (*self).into_val(heap)
    }
}

impl<T: HostType> IntoVal for HostValue<T> {
    open spec fn to_val(self, h: Store) -> (Store, GResult<Val>) {
        (
            h.with_data(HostCell { type_key: T::key(), payload: self.token() }),
            Ok(Val::RData(h.next_data())),
        )
    }

    fn into_val(self, heap: &mut Heap) -> (r: GResult<Val>) {
        let cell = HostCell { type_key: T::type_key(), payload: self.payload() };
        Ok(Val::RData(heap.alloc_data(cell)))
    }
}

} // verus!
