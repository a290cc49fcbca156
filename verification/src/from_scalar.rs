//! `FromVal` for scalars, handles and the type-erased enums.

use vstd::prelude::*;

use crate::callable::Callable;
use crate::error::{Expected, GError, GResult};
use crate::from_val::{FromVal, Modelled, Plain};
use crate::marker::HostType;
use crate::store::{Heap, Store};
use crate::value::{
    Deque, EnvMode, Expander, Flo, Iterable, Num, Order, Pointee, RData, RRoot, Raw, Root, Slot,
    Sym, Val, COPIED_SYM, FRESH_SYM, GT_SYM, LT_SYM, NUM_EQ_SYM,
};

verus! {

impl Modelled for Val {
    type Model = Val;

    open spec fn model(self) -> Val {
        self
    }
}

impl FromVal for Val {
    open spec fn of_val(h: Store, v: Val) -> GResult<Val> {
        Ok(v)
    }

    fn from_val(heap: &Heap, val: &Val) -> (r: GResult<Val>) {
        Ok(*val)
    }

    fn from_slot(heap: &Heap, slot: &Slot) -> (r: GResult<Val>) {
        Ok(slot.root())
    }
}

impl Modelled for Slot {
    type Model = Slot;

    open spec fn model(self) -> Slot {
        self
    }
}

impl FromVal for Slot {
    open spec fn of_val(h: Store, v: Val) -> GResult<Slot> {
        Ok(v.slot())
    }

    fn from_val(heap: &Heap, val: &Val) -> (r: GResult<Slot>) {
        Ok(Slot::from_val(val))
    }

    fn from_slot(heap: &Heap, slot: &Slot) -> (r: GResult<Slot>) {
        Ok(*slot)
    }
}

impl Modelled for i32 {
    type Model = i32;

    open spec fn model(self) -> i32 {
        self
    }
}

impl FromVal for i32 {
    open spec fn of_val(h: Store, v: Val) -> GResult<i32> {
        match v {
            Val::Int(i) => Ok(i),
            _ => Err(GError::WrongType { expected: Expected::I32, received: v.type_of() }),
        }
    }

    fn from_val(heap: &Heap, val: &Val) -> (r: GResult<i32>) {
        match *val {
            Val::Int(i) => Ok(i),
            _ => Err(GError::WrongType { expected: Expected::I32, received: val.val_type() }),
        }
    }

    fn from_slot(heap: &Heap, slot: &Slot) -> (r: GResult<i32>) {
        match *slot {
            Slot::Int(i) => Ok(i),
            _ => Err(GError::WrongType { expected: Expected::I32, received: slot.val_type() }),
        }
    }
}

impl Modelled for i64 {
    type Model = i64;

    open spec fn model(self) -> i64 {
        self
    }
}

impl FromVal for i64 {
    open spec fn of_val(h: Store, v: Val) -> GResult<i64> {
        match v {
            Val::Int(i) => Ok(i as i64),
            _ => Err(GError::WrongType { expected: Expected::I64, received: v.type_of() }),
        }
    }

    fn from_val(heap: &Heap, val: &Val) -> (r: GResult<i64>) {
        match *val {
            Val::Int(i) => Ok(i as i64),
            _ => Err(GError::WrongType { expected: Expected::I64, received: val.val_type() }),
        }
    }

    fn from_slot(heap: &Heap, slot: &Slot) -> (r: GResult<i64>) {
        match *slot {
            Slot::Int(i) => Ok(i as i64),
            _ => Err(GError::WrongType { expected: Expected::I64, received: slot.val_type() }),
        }
    }
}

impl Modelled for i128 {
    type Model = i128;

    open spec fn model(self) -> i128 {
        self
    }
}

impl FromVal for i128 {
    open spec fn of_val(h: Store, v: Val) -> GResult<i128> {
        match v {
            Val::Int(i) => Ok(i as i128),
            _ => Err(GError::WrongType { expected: Expected::I128, received: v.type_of() }),
        }
    }

    fn from_val(heap: &Heap, val: &Val) -> (r: GResult<i128>) {
        match *val {
            Val::Int(i) => Ok(i as i128),
            _ => Err(GError::WrongType { expected: Expected::I128, received: val.val_type() }),
        }
    }

    fn from_slot(heap: &Heap, slot: &Slot) -> (r: GResult<i128>) {
        match *slot {
            Slot::Int(i) => Ok(i as i128),
            _ => Err(GError::WrongType { expected: Expected::I128, received: slot.val_type() }),
        }
    }
}

impl Modelled for isize {
    type Model = isize;

    open spec fn model(self) -> isize {
        self
    }
}

impl FromVal for isize {
    open spec fn of_val(h: Store, v: Val) -> GResult<isize> {
        match v {
            Val::Int(i) => Ok(i as isize),
            _ => Err(GError::WrongType { expected: Expected::Isize, received: v.type_of() }),
        }
    }

    fn from_val(heap: &Heap, val: &Val) -> (r: GResult<isize>) {
        match *val {
            Val::Int(i) => Ok(i as isize),
            _ => Err(GError::WrongType { expected: Expected::Isize, received: val.val_type() }),
        }
    }

    fn from_slot(heap: &Heap, slot: &Slot) -> (r: GResult<isize>) {
        match *slot {
            Slot::Int(i) => Ok(i as isize),
            _ => Err(GError::WrongType { expected: Expected::Isize, received: slot.val_type() }),
        }
    }
}

impl Modelled for char {
    type Model = char;

    open spec fn model(self) -> char {
        self
    }
}

impl FromVal for char {
    open spec fn of_val(h: Store, v: Val) -> GResult<char> {
        match v {
            Val::Char(x) => Ok(x),
            _ => Err(GError::WrongType { expected: Expected::Char, received: v.type_of() }),
        }
    }

    fn from_val(heap: &Heap, val: &Val) -> (r: GResult<char>) {
        match *val {
            Val::Char(x) => Ok(x),
            _ => Err(GError::WrongType { expected: Expected::Char, received: val.val_type() }),
        }
    }

    fn from_slot(heap: &Heap, slot: &Slot) -> (r: GResult<char>) {
        match *slot {
            Slot::Char(x) => Ok(x),
            _ => Err(GError::WrongType { expected: Expected::Char, received: slot.val_type() }),
        }
    }
}

impl Modelled for bool {
    type Model = bool;

    open spec fn model(self) -> bool {
        self
    }
}

impl FromVal for bool {
    open spec fn of_val(h: Store, v: Val) -> GResult<bool> {
        match v {
            Val::Bool(x) => Ok(x),
            _ => Err(GError::WrongType { expected: Expected::Bool, received: v.type_of() }),
        }
    }

    fn from_val(heap: &Heap, val: &Val) -> (r: GResult<bool>) {
        match *val {
            Val::Bool(x) => Ok(x),
            _ => Err(GError::WrongType { expected: Expected::Bool, received: val.val_type() }),
        }
    }

    fn from_slot(heap: &Heap, slot: &Slot) -> (r: GResult<bool>) {
        match *slot {
            Slot::Bool(x) => Ok(x),
            _ => Err(GError::WrongType { expected: Expected::Bool, received: slot.val_type() }),
        }
    }
}

impl Modelled for Sym {
    type Model = Sym;

    open spec fn model(self) -> Sym {
        self
    }
}

impl FromVal for Sym {
    open spec fn of_val(h: Store, v: Val) -> GResult<Sym> {
        match v {
            Val::Sym(x) => Ok(x),
            _ => Err(GError::WrongType { expected: Expected::Sym, received: v.type_of() }),
        }
    }

    fn from_val(heap: &Heap, val: &Val) -> (r: GResult<Sym>) {
        match *val {
            Val::Sym(x) => Ok(x),
            _ => Err(GError::WrongType { expected: Expected::Sym, received: val.val_type() }),
        }
    }

    fn from_slot(heap: &Heap, slot: &Slot) -> (r: GResult<Sym>) {
        match *slot {
            Slot::Sym(x) => Ok(x),
            _ => Err(GError::WrongType { expected: Expected::Sym, received: slot.val_type() }),
        }
    }
}

impl Modelled for i8 {
    type Model = i8;

    open spec fn model(self) -> i8 {
        self
    }
}

impl FromVal for i8 {
    open spec fn of_val(h: Store, v: Val) -> GResult<i8> {
        match v {
            Val::Int(i) => if i8::MIN <= i <= i8::MAX {
                Ok(i as i8)
            } else {
                Err(GError::IntOutOfRange { expected: Expected::I8, received: i })
            },
            _ => Err(GError::WrongType { expected: Expected::I8, received: v.type_of() }),
        }
    }

    fn from_val(heap: &Heap, val: &Val) -> (r: GResult<i8>) {
        match *val {
            Val::Int(i) => if -0x80 <= i && i <= 0x7f {
                Ok(i as i8)
            } else {
                Err(GError::IntOutOfRange { expected: Expected::I8, received: i })
            },
            _ => Err(GError::WrongType { expected: Expected::I8, received: val.val_type() }),
        }
    }

    fn from_slot(heap: &Heap, slot: &Slot) -> (r: GResult<i8>) {
        match *slot {
            Slot::Int(i) => if -0x80 <= i && i <= 0x7f {
                Ok(i as i8)
            } else {
                Err(GError::IntOutOfRange { expected: Expected::I8, received: i })
            },
            _ => Err(GError::WrongType { expected: Expected::I8, received: slot.val_type() }),
        }
    }
}

impl Modelled for i16 {
    type Model = i16;

    open spec fn model(self) -> i16 {
        self
    }
}

impl FromVal for i16 {
    open spec fn of_val(h: Store, v: Val) -> GResult<i16> {
        match v {
            Val::Int(i) => if i16::MIN <= i <= i16::MAX {
                Ok(i as i16)
            } else {
                Err(GError::IntOutOfRange { expected: Expected::I16, received: i })
            },
            _ => Err(GError::WrongType { expected: Expected::I16, received: v.type_of() }),
        }
    }

    fn from_val(heap: &Heap, val: &Val) -> (r: GResult<i16>) {
        match *val {
            Val::Int(i) => if -0x8000 <= i && i <= 0x7fff {
                Ok(i as i16)
            } else {
                Err(GError::IntOutOfRange { expected: Expected::I16, received: i })
            },
            _ => Err(GError::WrongType { expected: Expected::I16, received: val.val_type() }),
        }
    }

    fn from_slot(heap: &Heap, slot: &Slot) -> (r: GResult<i16>) {
        match *slot {
            Slot::Int(i) => if -0x8000 <= i && i <= 0x7fff {
                Ok(i as i16)
            } else {
                Err(GError::IntOutOfRange { expected: Expected::I16, received: i })
            },
            _ => Err(GError::WrongType { expected: Expected::I16, received: slot.val_type() }),
        }
    }
}

impl Modelled for u8 {
    type Model = u8;

    open spec fn model(self) -> u8 {
        self
    }
}

impl FromVal for u8 {
    open spec fn of_val(h: Store, v: Val) -> GResult<u8> {
        match v {
            Val::Int(i) => if u8::MIN <= i <= u8::MAX {
                Ok(i as u8)
            } else {
                Err(GError::IntOutOfRange { expected: Expected::U8, received: i })
            },
            _ => Err(GError::WrongType { expected: Expected::U8, received: v.type_of() }),
        }
    }

    fn from_val(heap: &Heap, val: &Val) -> (r: GResult<u8>) {
        match *val {
            Val::Int(i) => if 0 <= i && i <= 0xff {
                Ok(i as u8)
            } else {
                Err(GError::IntOutOfRange { expected: Expected::U8, received: i })
            },
            _ => Err(GError::WrongType { expected: Expected::U8, received: val.val_type() }),
        }
    }

    fn from_slot(heap: &Heap, slot: &Slot) -> (r: GResult<u8>) {
        match *slot {
            Slot::Int(i) => if 0 <= i && i <= 0xff {
                Ok(i as u8)
            } else {
                Err(GError::IntOutOfRange { expected: Expected::U8, received: i })
            },
            _ => Err(GError::WrongType { expected: Expected::U8, received: slot.val_type() }),
        }
    }
}

impl Modelled for u16 {
    type Model = u16;

    open spec fn model(self) -> u16 {
        self
    }
}

impl FromVal for u16 {
    open spec fn of_val(h: Store, v: Val) -> GResult<u16> {
        match v {
            Val::Int(i) => if u16::MIN <= i <= u16::MAX {
                Ok(i as u16)
            } else {
                Err(GError::IntOutOfRange { expected: Expected::U16, received: i })
            },
            _ => Err(GError::WrongType { expected: Expected::U16, received: v.type_of() }),
        }
    }

    fn from_val(heap: &Heap, val: &Val) -> (r: GResult<u16>) {
        match *val {
            Val::Int(i) => if 0 <= i && i <= 0xffff {
                Ok(i as u16)
            } else {
                Err(GError::IntOutOfRange { expected: Expected::U16, received: i })
            },
            _ => Err(GError::WrongType { expected: Expected::U16, received: val.val_type() }),
        }
    }

    fn from_slot(heap: &Heap, slot: &Slot) -> (r: GResult<u16>) {
        match *slot {
            Slot::Int(i) => if 0 <= i && i <= 0xffff {
                Ok(i as u16)
            } else {
                Err(GError::IntOutOfRange { expected: Expected::U16, received: i })
            },
            _ => Err(GError::WrongType { expected: Expected::U16, received: slot.val_type() }),
        }
    }
}

impl Modelled for u32 {
    type Model = u32;

    open spec fn model(self) -> u32 {
        self
    }
}

impl FromVal for u32 {
    open spec fn of_val(h: Store, v: Val) -> GResult<u32> {
        match v {
            Val::Int(i) => if i >= 0 {
                Ok(i as u32)
            } else {
                Err(GError::IntOutOfRange { expected: Expected::U32, received: i })
            },
            _ => Err(GError::WrongType { expected: Expected::U32, received: v.type_of() }),
        }
    }

    fn from_val(heap: &Heap, val: &Val) -> (r: GResult<u32>) {
        match *val {
            Val::Int(i) => if i >= 0 {
                Ok(i as u32)
            } else {
                Err(GError::IntOutOfRange { expected: Expected::U32, received: i })
            },
            _ => Err(GError::WrongType { expected: Expected::U32, received: val.val_type() }),
        }
    }

    fn from_slot(heap: &Heap, slot: &Slot) -> (r: GResult<u32>) {
        match *slot {
            Slot::Int(i) => if i >= 0 {
                Ok(i as u32)
            } else {
                Err(GError::IntOutOfRange { expected: Expected::U32, received: i })
            },
            _ => Err(GError::WrongType { expected: Expected::U32, received: slot.val_type() }),
        }
    }
}

impl Modelled for u64 {
    type Model = u64;

    open spec fn model(self) -> u64 {
        self
    }
}

impl FromVal for u64 {
    open spec fn of_val(h: Store, v: Val) -> GResult<u64> {
        match v {
            Val::Int(i) => if i >= 0 {
                Ok(i as u64)
            } else {
                Err(GError::IntOutOfRange { expected: Expected::U64, received: i })
            },
            _ => Err(GError::WrongType { expected: Expected::U64, received: v.type_of() }),
        }
    }

    fn from_val(heap: &Heap, val: &Val) -> (r: GResult<u64>) {
        match *val {
            Val::Int(i) => if i >= 0 {
                Ok(i as u64)
            } else {
                Err(GError::IntOutOfRange { expected: Expected::U64, received: i })
            },
            _ => Err(GError::WrongType { expected: Expected::U64, received: val.val_type() }),
        }
    }

    fn from_slot(heap: &Heap, slot: &Slot) -> (r: GResult<u64>) {
        match *slot {
            Slot::Int(i) => if i >= 0 {
                Ok(i as u64)
            } else {
                Err(GError::IntOutOfRange { expected: Expected::U64, received: i })
            },
            _ => Err(GError::WrongType { expected: Expected::U64, received: slot.val_type() }),
        }
    }
}

impl Modelled for u128 {
    type Model = u128;

    open spec fn model(self) -> u128 {
        self
    }
}

impl FromVal for u128 {
    open spec fn of_val(h: Store, v: Val) -> GResult<u128> {
        match v {
            Val::Int(i) => if i >= 0 {
                Ok(i as u128)
            } else {
                Err(GError::IntOutOfRange { expected: Expected::U128, received: i })
            },
            _ => Err(GError::WrongType { expected: Expected::U128, received: v.type_of() }),
        }
    }

    fn from_val(heap: &Heap, val: &Val) -> (r: GResult<u128>) {
        match *val {
            Val::Int(i) => if i >= 0 {
                Ok(i as u128)
            } else {
                Err(GError::IntOutOfRange { expected: Expected::U128, received: i })
            },
            _ => Err(GError::WrongType { expected: Expected::U128, received: val.val_type() }),
        }
    }

    fn from_slot(heap: &Heap, slot: &Slot) -> (r: GResult<u128>) {
        match *slot {
            Slot::Int(i) => if i >= 0 {
                Ok(i as u128)
            } else {
                Err(GError::IntOutOfRange { expected: Expected::U128, received: i })
            },
            _ => Err(GError::WrongType { expected: Expected::U128, received: slot.val_type() }),
        }
    }
}

impl Modelled for usize {
    type Model = usize;

    open spec fn model(self) -> usize {
        self
    }
}

impl FromVal for usize {
    open spec fn of_val(h: Store, v: Val) -> GResult<usize> {
        match v {
            Val::Int(i) => if i >= 0 {
                Ok(i as usize)
            } else {
                Err(GError::IntOutOfRange { expected: Expected::Usize, received: i })
            },
            _ => Err(GError::WrongType { expected: Expected::Usize, received: v.type_of() }),
        }
    }

    fn from_val(heap: &Heap, val: &Val) -> (r: GResult<usize>) {
        match *val {
            Val::Int(i) => if i >= 0 {
                Ok(i as usize)
            } else {
                Err(GError::IntOutOfRange { expected: Expected::Usize, received: i })
            },
            _ => Err(GError::WrongType { expected: Expected::Usize, received: val.val_type() }),
        }
    }

    fn from_slot(heap: &Heap, slot: &Slot) -> (r: GResult<usize>) {
        match *slot {
            Slot::Int(i) => if i >= 0 {
                Ok(i as usize)
            } else {
                Err(GError::IntOutOfRange { expected: Expected::Usize, received: i })
            },
            _ => Err(GError::WrongType { expected: Expected::Usize, received: slot.val_type() }),
        }
    }
}

impl Modelled for Flo {
    type Model = Flo;

    open spec fn model(self) -> Flo {
        self
    }
}

impl FromVal for Flo {
    open spec fn of_val(h: Store, v: Val) -> GResult<Flo> {
        match v {
            Val::Flo(f) => Ok(f),
            _ => Err(GError::WrongType { expected: Expected::F32, received: v.type_of() }),
        }
    }

    fn from_val(heap: &Heap, val: &Val) -> (r: GResult<Flo>) {
        match *val {
            Val::Flo(f) => Ok(f),
            _ => Err(GError::WrongType { expected: Expected::F32, received: val.val_type() }),
        }
    }

    fn from_slot(heap: &Heap, slot: &Slot) -> (r: GResult<Flo>) {
        match *slot {
            Slot::Flo(f) => Ok(f),
            _ => Err(GError::WrongType { expected: Expected::F32, received: slot.val_type() }),
        }
    }
}

impl Modelled for Num {
    type Model = Num;

    open spec fn model(self) -> Num {
        self
    }
}

impl FromVal for Num {
    open spec fn of_val(h: Store, v: Val) -> GResult<Num> {
        match v {
            Val::Int(i) => Ok(Num::Int(i)),
            Val::Flo(f) => Ok(Num::Flo(f)),
            _ => Err(GError::WrongType { expected: Expected::Num, received: v.type_of() }),
        }
    }

    fn from_val(heap: &Heap, val: &Val) -> (r: GResult<Num>) {
        match *val {
            Val::Int(i) => Ok(Num::Int(i)),
            Val::Flo(f) => Ok(Num::Flo(f)),
            _ => Err(GError::WrongType { expected: Expected::Num, received: val.val_type() }),
        }
    }

    fn from_slot(heap: &Heap, slot: &Slot) -> (r: GResult<Num>) {
        match *slot {
            Slot::Int(i) => Ok(Num::Int(i)),
            Slot::Flo(f) => Ok(Num::Flo(f)),
            _ => Err(GError::WrongType { expected: Expected::Num, received: slot.val_type() }),
        }
    }
}

impl<T: Pointee> Modelled for Root<T> {
    type Model = Root<T>;

    open spec fn model(self) -> Root<T> {
        self
    }
}

impl<T: Pointee> FromVal for Root<T> {
    open spec fn of_val(h: Store, v: Val) -> GResult<Root<T>> {
        match T::root_in(v) {
            Some(found) => Ok(found),
            None => Err(
                GError::WrongType { expected: Expected::Root(
                    T::type_here(),
                ), received: v.type_of() },
            ),
        }
    }

    fn from_val(heap: &Heap, val: &Val) -> (r: GResult<Root<T>>) {
        match T::find(val) {
            Some(found) => Ok(found),
            None => Err(
                GError::WrongType { expected: Expected::Root(T::here()), received: val.val_type() },
            ),
        }
    }

    fn from_slot(heap: &Heap, slot: &Slot) -> (r: GResult<Root<T>>) {
        match T::find_raw(slot) {
            Some(found) => Ok(found.root()),
            None => Err(
                GError::WrongType { expected: Expected::Root(T::here()), received: slot.val_type() },
            ),
        }
    }
}

impl<T: Pointee> Modelled for Raw<T> {
    type Model = Raw<T>;

    open spec fn model(self) -> Raw<T> {
        self
    }
}

impl<T: Pointee> FromVal for Raw<T> {
    open spec fn of_val(h: Store, v: Val) -> GResult<Raw<T>> {
        match T::root_in(v) {
            Some(found) => Ok(found.raw()),
            None => Err(
                GError::WrongType { expected: Expected::Raw(
                    T::type_here(),
                ), received: v.type_of() },
            ),
        }
    }

    fn from_val(heap: &Heap, val: &Val) -> (r: GResult<Raw<T>>) {
        match T::find(val) {
            Some(found) => Ok(found.to_raw()),
            None => Err(
                GError::WrongType { expected: Expected::Raw(T::here()), received: val.val_type() },
            ),
        }
    }

    fn from_slot(heap: &Heap, slot: &Slot) -> (r: GResult<Raw<T>>) {
        match T::find_raw(slot) {
            Some(found) => Ok(found),
            None => Err(
                GError::WrongType { expected: Expected::Raw(T::here()), received: slot.val_type() },
            ),
        }
    }
}

impl<T: HostType> Modelled for RRoot<T> {
    type Model = Root<RData>;

    open spec fn model(self) -> Root<RData> {
        self.untyped()
    }
}

impl<T: HostType> FromVal for RRoot<T> {
    open spec fn of_val(h: Store, v: Val) -> GResult<Root<RData>> {
        match v {
            Val::RData(root) => Ok(root),
            _ => Err(
                GError::WrongType { expected: Expected::RRoot(T::key()), received: v.type_of() },
            ),
        }
    }

    fn from_val(heap: &Heap, val: &Val) -> (r: GResult<RRoot<T>>) {
        match *val {
            Val::RData(root) => Ok(RRoot::new(root)),
            _ => Err(
                GError::WrongType { expected: Expected::RRoot(
                    T::type_key(),
                ), received: val.val_type() },
            ),
        }
    }

    fn from_slot(heap: &Heap, slot: &Slot) -> (r: GResult<RRoot<T>>) {
        match *slot {
            Slot::RData(raw) => Ok(RRoot::new(raw.root())),
            _ => Err(
                GError::WrongType { expected: Expected::RRoot(
                    T::type_key(),
                ), received: slot.val_type() },
            ),
        }
    }
}

impl Modelled for Deque {
    type Model = Deque;

    open spec fn model(self) -> Deque {
        self
    }
}

impl FromVal for Deque {
    open spec fn of_val(h: Store, v: Val) -> GResult<Deque> {
        match v {
            Val::Arr(root) => Ok(Deque::Arr(root)),
            Val::Str(root) => Ok(Deque::Str(root)),
            _ => Err(GError::WrongType { expected: Expected::Deque, received: v.type_of() }),
        }
    }

    fn from_val(heap: &Heap, val: &Val) -> (r: GResult<Deque>) {
        match *val {
            Val::Arr(root) => Ok(Deque::Arr(root)),
            Val::Str(root) => Ok(Deque::Str(root)),
            _ => Err(GError::WrongType { expected: Expected::Deque, received: val.val_type() }),
        }
    }

    fn from_slot(heap: &Heap, slot: &Slot) -> (r: GResult<Deque>) {
        match *slot {
            Slot::Arr(raw) => Ok(Deque::Arr(raw.root())),
            Slot::Str(raw) => Ok(Deque::Str(raw.root())),
            _ => Err(GError::WrongType { expected: Expected::Deque, received: slot.val_type() }),
        }
    }
}

impl Modelled for Callable {
    type Model = Callable;

    open spec fn model(self) -> Callable {
        self
    }
}

impl FromVal for Callable {
    open spec fn of_val(h: Store, v: Val) -> GResult<Callable> {
        match v {
            Val::GFn(root) => Ok(Callable::GFn(root)),
            Val::RFn(root) => Ok(Callable::RFn(root)),
            Val::Class(root) => Ok(Callable::Class(root)),
            _ => Err(GError::WrongType { expected: Expected::Callable, received: v.type_of() }),
        }
    }

    fn from_val(heap: &Heap, val: &Val) -> (r: GResult<Callable>) {
        match *val {
            Val::GFn(root) => Ok(Callable::GFn(root)),
            Val::RFn(root) => Ok(Callable::RFn(root)),
            Val::Class(root) => Ok(Callable::Class(root)),
            _ => Err(GError::WrongType { expected: Expected::Callable, received: val.val_type() }),
        }
    }

    fn from_slot(heap: &Heap, slot: &Slot) -> (r: GResult<Callable>) {
        match *slot {
            Slot::GFn(raw) => Ok(Callable::GFn(raw.root())),
            Slot::RFn(raw) => Ok(Callable::RFn(raw.root())),
            Slot::Class(raw) => Ok(Callable::Class(raw.root())),
            _ => Err(GError::WrongType { expected: Expected::Callable, received: slot.val_type() }),
        }
    }
}

impl Modelled for Expander {
    type Model = Expander;

    open spec fn model(self) -> Expander {
        self
    }
}

impl FromVal for Expander {
    open spec fn of_val(h: Store, v: Val) -> GResult<Expander> {
        match v {
            Val::GFn(root) => Ok(Expander::GFn(root)),
            Val::RFn(root) => Ok(Expander::RFn(root)),
            _ => Err(GError::WrongType { expected: Expected::Expander, received: v.type_of() }),
        }
    }

    fn from_val(heap: &Heap, val: &Val) -> (r: GResult<Expander>) {
        match *val {
            Val::GFn(root) => Ok(Expander::GFn(root)),
            Val::RFn(root) => Ok(Expander::RFn(root)),
            _ => Err(GError::WrongType { expected: Expected::Expander, received: val.val_type() }),
        }
    }

    fn from_slot(heap: &Heap, slot: &Slot) -> (r: GResult<Expander>) {
        match *slot {
            Slot::GFn(raw) => Ok(Expander::GFn(raw.root())),
            Slot::RFn(raw) => Ok(Expander::RFn(raw.root())),
            _ => Err(GError::WrongType { expected: Expected::Expander, received: slot.val_type() }),
        }
    }
}

impl Modelled for Iterable {
    type Model = Iterable;

    open spec fn model(self) -> Iterable {
        self
    }
}

impl FromVal for Iterable {
    open spec fn of_val(h: Store, v: Val) -> GResult<Iterable> {
        match v {
            Val::Arr(root) => Ok(Iterable::Arr(root)),
            Val::Str(root) => Ok(Iterable::Str(root)),
            Val::Tab(root) => Ok(Iterable::Tab(root)),
            Val::GIter(root) => Ok(Iterable::GIter(root)),
            Val::Coro(root) => Ok(Iterable::Coro(root)),
            _ => Err(GError::WrongType { expected: Expected::Iterable, received: v.type_of() }),
        }
    }

    fn from_val(heap: &Heap, val: &Val) -> (r: GResult<Iterable>) {
        match *val {
            Val::Arr(root) => Ok(Iterable::Arr(root)),
            Val::Str(root) => Ok(Iterable::Str(root)),
            Val::Tab(root) => Ok(Iterable::Tab(root)),
            Val::GIter(root) => Ok(Iterable::GIter(root)),
            Val::Coro(root) => Ok(Iterable::Coro(root)),
            _ => Err(GError::WrongType { expected: Expected::Iterable, received: val.val_type() }),
        }
    }

    fn from_slot(heap: &Heap, slot: &Slot) -> (r: GResult<Iterable>) {
        match *slot {
            Slot::Arr(raw) => Ok(Iterable::Arr(raw.root())),
            Slot::Str(raw) => Ok(Iterable::Str(raw.root())),
            Slot::Tab(raw) => Ok(Iterable::Tab(raw.root())),
            Slot::GIter(raw) => Ok(Iterable::GIter(raw.root())),
            Slot::Coro(raw) => Ok(Iterable::Coro(raw.root())),
            _ => Err(GError::WrongType { expected: Expected::Iterable, received: slot.val_type() }),
        }
    }
}

impl Modelled for EnvMode {
    type Model = EnvMode;

    open spec fn model(self) -> EnvMode {
        self
    }
}

impl FromVal for EnvMode {
    open spec fn of_val(h: Store, v: Val) -> GResult<EnvMode> {
        match v {
            Val::Sym(sym) => if sym.id == FRESH_SYM {
                Ok(EnvMode::Fresh)
            } else if sym.id == COPIED_SYM {
                Ok(EnvMode::Copied)
            } else {
                Err(GError::UnknownEnvMode { received: sym })
            },
            _ => Err(GError::WrongType { expected: Expected::EnvMode, received: v.type_of() }),
        }
    }

    fn from_val(heap: &Heap, val: &Val) -> (r: GResult<EnvMode>) {
        match *val {
            Val::Sym(sym) => if sym.id == FRESH_SYM {
                Ok(EnvMode::Fresh)
            } else if sym.id == COPIED_SYM {
                Ok(EnvMode::Copied)
            } else {
                Err(GError::UnknownEnvMode { received: sym })
            },
            _ => Err(GError::WrongType { expected: Expected::EnvMode, received: val.val_type() }),
        }
    }
}

impl Modelled for Order {
    type Model = Order;

    open spec fn model(self) -> Order {
        self
    }
}

impl FromVal for Order {
    open spec fn of_val(h: Store, v: Val) -> GResult<Order> {
        match v {
            Val::Sym(sym) => if sym.id == LT_SYM {
                Ok(Order::Less)
            } else if sym.id == NUM_EQ_SYM {
                Ok(Order::Equal)
            } else if sym.id == GT_SYM {
                Ok(Order::Greater)
            } else {
                Err(GError::WrongType { expected: Expected::Order, received: v.type_of() })
            },
            _ => Err(GError::WrongType { expected: Expected::Order, received: v.type_of() }),
        }
    }

    fn from_val(heap: &Heap, val: &Val) -> (r: GResult<Order>) {
        match *val {
            Val::Sym(sym) => if sym.id == LT_SYM {
                Ok(Order::Less)
            } else if sym.id == NUM_EQ_SYM {
                Ok(Order::Equal)
            } else if sym.id == GT_SYM {
                Ok(Order::Greater)
            } else {
                Err(GError::WrongType { expected: Expected::Order, received: val.val_type() })
            },
            _ => Err(GError::WrongType { expected: Expected::Order, received: val.val_type() }),
        }
    }

    fn from_slot(heap: &Heap, slot: &Slot) -> (r: GResult<Order>) {
        match *slot {
            Slot::Sym(sym) => if sym.id == LT_SYM {
                Ok(Order::Less)
            } else if sym.id == NUM_EQ_SYM {
                Ok(Order::Equal)
            } else if sym.id == GT_SYM {
                Ok(Order::Greater)
            } else {
                Err(GError::WrongType { expected: Expected::Order, received: slot.val_type() })
            },
            _ => Err(GError::WrongType { expected: Expected::Order, received: slot.val_type() }),
        }
    }
}

impl Plain for i8 {
    proof fn stands_for_itself(self) {
    }
}

impl Plain for i16 {
    proof fn stands_for_itself(self) {
    }
}

impl Plain for i32 {
    proof fn stands_for_itself(self) {
    }
}

impl Plain for i64 {
    proof fn stands_for_itself(self) {
    }
}

impl Plain for i128 {
    proof fn stands_for_itself(self) {
    }
}

impl Plain for isize {
    proof fn stands_for_itself(self) {
    }
}

impl Plain for u8 {
    proof fn stands_for_itself(self) {
    }
}

impl Plain for u16 {
    proof fn stands_for_itself(self) {
    }
}

impl Plain for u32 {
    proof fn stands_for_itself(self) {
    }
}

impl Plain for u64 {
    proof fn stands_for_itself(self) {
    }
}

impl Plain for u128 {
    proof fn stands_for_itself(self) {
    }
}

impl Plain for usize {
    proof fn stands_for_itself(self) {
    }
}

impl Plain for char {
    proof fn stands_for_itself(self) {
    }
}

impl Plain for bool {
    proof fn stands_for_itself(self) {
    }
}

impl Plain for Sym {
    proof fn stands_for_itself(self) {
    }
}

} // verus!
