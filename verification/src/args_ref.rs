//! `FromArgRef`: from the arguments of a call to the parameters of a host function, by reference to
//! what the engine keeps.

use std::marker::PhantomData;

use vstd::pervasive::unreached;
use vstd::prelude::*;

use crate::args::{same_argument, Ctor, OptionCtor, RefCtor, RefMutCtor};
use crate::error::{Expected, GError, GResult};
use crate::limits::ArgType;
use crate::marker::HostType;
use crate::store::{Heap, Store};
use crate::value::{
    Arr, Class, Coro, GFn, GIter, HostValue, Obj, RData, RFn, Raw, Slot, Str, Tab, ValType,
};

verus! {

/// A shared borrow of a global.
#[verifier::reject_recursive_types(T)]
pub struct RGlobalRef<T> {
    held: HostValue<T>,
}

impl<T> RGlobalRef<T> {
    /// The token under which the host keeps what is borrowed.
    pub closed spec fn token(self) -> u64 {
        self.held.token()
    }
}

/// A shared borrow of a host value on the heap.
#[verifier::reject_recursive_types(T)]
pub struct RRef<T> {
    held: HostValue<T>,
}

impl<T> RRef<T> {
    /// The token under which the host keeps what is borrowed.
    pub closed spec fn token(self) -> u64 {
        self.held.token()
    }
}

/// An exclusive borrow of a global.
#[verifier::reject_recursive_types(T)]
pub struct RGlobalRefMut<T> {
    held: HostValue<T>,
}

impl<T> RGlobalRefMut<T> {
    /// The token under which the host keeps what is borrowed.
    pub closed spec fn token(self) -> u64 {
        self.held.token()
    }
}

/// An exclusive borrow of a host value on the heap.
#[verifier::reject_recursive_types(T)]
pub struct RRefMut<T> {
    held: HostValue<T>,
}

impl<T> RRefMut<T> {
    /// The token under which the host keeps what is borrowed.
    pub closed spec fn token(self) -> u64 {
        self.held.token()
    }
}

/// What is kept for a parameter of type `&T` while the call lasts.
#[verifier::reject_recursive_types(T)]
pub enum DynTemp<T: 'static> {
    RGlobalRef(RGlobalRef<T>),
    RRef(RRef<T>),
    Slot(Slot),
}

/// What is kept for a parameter of type `&mut T` while the call lasts.
#[verifier::reject_recursive_types(T)]
pub enum DynTempMut<T: 'static> {
    RGlobalRefMut(RGlobalRefMut<T>),
    RRefMut(RRefMut<T>),
}

/// What is kept for a parameter that is a reference: the token of what is borrowed, or the
/// argument itself.
pub enum Kept {
    Global(u64),
    Data(u64),
    Argument(Slot),
}

impl<T: 'static> DynTemp<T> {
    /// What this stands for.
    pub open spec fn kept(self) -> Kept {
        match self {
            DynTemp::RGlobalRef(held) => Kept::Global(held.token()),
            DynTemp::RRef(held) => Kept::Data(held.token()),
            DynTemp::Slot(slot) => Kept::Argument(slot),
        }
    }
}

impl<T: 'static> DynTempMut<T> {
    /// What this stands for.
    pub open spec fn kept(self) -> Kept {
        match self {
            DynTempMut::RGlobalRefMut(held) => Kept::Global(held.token()),
            DynTempMut::RRefMut(held) => Kept::Data(held.token()),
        }
    }
}

/// What is kept for a reference to a host value of type `T`: the borrow of the global, where that
/// is what `T` is, or the borrow of the host value that the argument is.
pub open spec fn kept_of<T: HostType>(
    args: Seq<Slot>,
    i: int,
    h: Store,
    exclusive: bool,
    expected: Expected,
) -> (Store, GResult<Kept>) {
    if T::is_global() {
        let (h1, r) = h.borrow_global(T::key(), exclusive);
        (
            h1,
            match r {
                Ok(token) => Ok(Kept::Global(token)),
                Err(e) => Err(e),
            },
        )
    } else {
        match args[i] {
            Slot::RData(raw) => {
                let (h1, r) = h.borrow_data(raw, T::key(), exclusive);
                (
                    h1,
                    match r {
                        Ok(token) => Ok(Kept::Data(token)),
                        Err(e) => Err(e),
                    },
                )
            },
            _ => (
                h,
                Err(GError::WrongType { expected, received: args[i].val().type_of() }),
            ),
        }
    }
}

/// What is kept is a borrow, of the kind that `T` calls for.
pub open spec fn borrowed<T: HostType>(kept: Kept) -> bool {
    if T::is_global() {
        kept is Global
    } else {
        kept is Data
    }
}

/// The token of what is borrowed.
pub open spec fn token_of(kept: Kept) -> u64 {
    match kept {
        Kept::Global(token) => token,
        Kept::Data(token) => token,
        Kept::Argument(_) => 0,
    }
}

/// The type of the argument that is kept.
pub open spec fn argument_type(kept: Kept) -> ValType {
    match kept {
        Kept::Argument(slot) => slot.val().type_of(),
        _ => ValType::Nil,
    }
}

/// How a reference to a host value of type `T` takes its argument.
pub open spec fn reference_takes<T: HostType>() -> ArgType {
    if T::is_global() {
        ArgType::RGlobal
    } else {
        ArgType::Normal
    }
}

/// A parameter type that is a reference to something the engine keeps.
///
/// An argument is converted in two steps. The first makes a temporary value, which lasts for the
/// whole of the call: it copies what it needs from the list of arguments, and takes out the
/// borrows that the parameter calls for. The second makes of it what the host function gets, when
/// the list of arguments is no longer needed.
pub trait FromArgRef: Sized {
    /// The temporary value.
    type Temp: 'static;

    /// What a temporary value stands for.
    type TempModel;

    /// What the host function gets.
    type Output<'a>;

    /// What that stands for.
    type OutModel;

    /// How this parameter takes its argument.
    spec fn takes() -> ArgType;

    /// Of all the arguments, this parameter looks at none but its own.
    spec fn alone() -> bool;

    /// What this temporary value stands for.
    spec fn temp_model(temp: Self::Temp) -> Self::TempModel;

    /// The temporary value is as the first step leaves it.
    spec fn usable(temp: Self::TempModel) -> bool;

    /// What the first step makes of the arguments from the `i`th, and what it leaves on the heap.
    spec fn temp_of(args: Seq<Slot>, i: int, h: Store) -> (Store, GResult<Self::TempModel>);

    /// What the second step makes of the temporary value.
    spec fn arg_of(temp: Self::TempModel, h: Store) -> GResult<Self::OutModel>;

    /// What this, which the host function gets, stands for.
    spec fn out_model<'a>(out: Self::Output<'a>) -> Self::OutModel;

    /// The first step does nothing to the heap but to borrow from it, and not even that where it
    /// fails.
    proof fn lawful_temp(args: Seq<Slot>, i: int, h: Store)
        ensures
            Self::temp_of(args, i, h).0.only_borrowed(h),
            Self::temp_of(args, i, h).1 is Err ==> Self::temp_of(args, i, h).0 == h,
    ;

    /// Where the arguments `args` and `other` are the same to this parameter, the first step makes
    /// the same of them.
    proof fn lawful_own(args: Seq<Slot>, other: Seq<Slot>, i: int, h: Store)
        requires
            0 <= i,
        ensures
            Self::takes() is Normal ==> Self::alone(),
            same_argument(
                Self::takes(),
                Self::alone(),
                args,
                other,
                i,
            ) ==> Self::temp_of(args, i, h)
                == Self::temp_of(other, i, h),
    ;

    /// Tells how this parameter takes its argument.
    fn arg_type() -> (t: ArgType)
        ensures
            t == Self::takes(),
    ;

    /// Takes the first step, for the arguments from the `i`th.
    fn make_temp(args: &[Slot], i: usize, heap: &mut Heap) -> (r: GResult<Self::Temp>)
        requires
            Self::takes() is Normal ==> i < args@.len(),
        ensures
            Self::temp_of(args@, i as int, old(heap)@) == (
                final(heap)@,
                match r {
                    Ok(temp) => Ok(Self::temp_model(temp)),
                    Err(e) => Err(e),
                },
            ),
            r matches Ok(temp) ==> Self::usable(Self::temp_model(temp)),
    ;

    /// Takes the second step.
    fn from_arg<'a>(temp: &'a mut Self::Temp, heap: &Heap) -> (r: GResult<Self::Output<'a>>)
        requires
            Self::usable(Self::temp_model(*old(temp))),
        ensures
            Self::arg_of(Self::temp_model(*old(temp)), heap@) == (match r {
                Ok(out) => Ok(Self::out_model(out)),
                Err(e) => Err(e),
            }),
    ;
}

impl<'r, T: HostType> FromArgRef for &'r T {
    type Temp = DynTemp<T>;

    type TempModel = Kept;

    type Output<'a> = <RefCtor<HostValue<T>> as Ctor<'a>>::Ty;

    type OutModel = u64;

    open spec fn takes() -> ArgType {
        reference_takes::<T>()
    }

    open spec fn alone() -> bool {
        true
    }

    open spec fn temp_model(temp: DynTemp<T>) -> Kept {
        temp.kept()
    }

    open spec fn usable(temp: Kept) -> bool {
        borrowed::<T>(temp)
    }

    open spec fn temp_of(args: Seq<Slot>, i: int, h: Store) -> (Store, GResult<Kept>) {
        kept_of::<T>(args, i, h, false, Expected::Ref(T::key()))
    }

    open spec fn arg_of(temp: Kept, h: Store) -> GResult<u64> {
        Ok(token_of(temp))
    }

    open spec fn out_model<'a>(out: &'a HostValue<T>) -> u64 {
        out.token()
    }

    proof fn lawful_temp(args: Seq<Slot>, i: int, h: Store) {
    }

    proof fn lawful_own(args: Seq<Slot>, other: Seq<Slot>, i: int, h: Store) {
    }

    fn arg_type() -> (t: ArgType) {
        if T::rglobal() {
            ArgType::RGlobal
        } else {
            ArgType::Normal
        }
    }

    fn make_temp(args: &[Slot], i: usize, heap: &mut Heap) -> (r: GResult<DynTemp<T>>) {
        if T::rglobal() {
            match heap.borrow_global(T::type_key(), false) {
                Ok(token) => Ok(DynTemp::RGlobalRef(RGlobalRef { held: HostValue::new(token) })),
                Err(e) => Err(e),
            }
        } else {
            match args[i] {
                Slot::RData(raw) => match heap.borrow_data(raw, T::type_key(), false) {
                    Ok(token) => Ok(DynTemp::RRef(RRef { held: HostValue::new(token) })),
                    Err(e) => Err(e),
                },
                _ => Err(
                    GError::WrongType {
                        expected: Expected::Ref(T::type_key()),
                        received: args[i].val_type(),
                    },
                ),
            }
        }
    }

    fn from_arg<'a>(temp: &'a mut DynTemp<T>, heap: &Heap) -> (r: GResult<&'a HostValue<T>>) {
        match temp {
            DynTemp::RGlobalRef(borrow) => Ok(&borrow.held),
            DynTemp::RRef(borrow) => Ok(&borrow.held),
            DynTemp::Slot(_) => unreached(),
        }
    }
}

impl<'r, T: HostType> FromArgRef for &'r mut T {
    type Temp = DynTempMut<T>;

    type TempModel = Kept;

    type Output<'a> = <RefMutCtor<HostValue<T>> as Ctor<'a>>::Ty;

    type OutModel = u64;

    open spec fn takes() -> ArgType {
        reference_takes::<T>()
    }

    open spec fn alone() -> bool {
        true
    }

    open spec fn temp_model(temp: DynTempMut<T>) -> Kept {
        temp.kept()
    }

    open spec fn usable(temp: Kept) -> bool {
        borrowed::<T>(temp)
    }

    open spec fn temp_of(args: Seq<Slot>, i: int, h: Store) -> (Store, GResult<Kept>) {
        kept_of::<T>(args, i, h, true, Expected::RefMut(T::key()))
    }

    open spec fn arg_of(temp: Kept, h: Store) -> GResult<u64> {
        Ok(token_of(temp))
    }

    open spec fn out_model<'a>(out: &'a mut HostValue<T>) -> u64 {
        out.token()
    }

    proof fn lawful_temp(args: Seq<Slot>, i: int, h: Store) {
    }

    proof fn lawful_own(args: Seq<Slot>, other: Seq<Slot>, i: int, h: Store) {
    }

    fn arg_type() -> (t: ArgType) {
        if T::rglobal() {
            ArgType::RGlobal
        } else {
            ArgType::Normal
        }
    }

    fn make_temp(args: &[Slot], i: usize, heap: &mut Heap) -> (r: GResult<DynTempMut<T>>) {
        if T::rglobal() {
            match heap.borrow_global(T::type_key(), true) {
                Ok(token) => Ok(
                    DynTempMut::RGlobalRefMut(RGlobalRefMut { held: HostValue::new(token) }),
                ),
                Err(e) => Err(e),
            }
        } else {
            match args[i] {
                Slot::RData(raw) => match heap.borrow_data(raw, T::type_key(), true) {
                    Ok(token) => Ok(DynTempMut::RRefMut(RRefMut { held: HostValue::new(token) })),
                    Err(e) => Err(e),
                },
                _ => Err(
                    GError::WrongType {
                        expected: Expected::RefMut(T::type_key()),
                        received: args[i].val_type(),
                    },
                ),
            }
        }
    }

    fn from_arg<'a>(
        temp: &'a mut DynTempMut<T>,
        heap: &Heap,
    ) -> (r: GResult<&'a mut HostValue<T>>) {
        match temp {
            DynTempMut::RGlobalRefMut(borrow) => Ok(&mut borrow.held),
            DynTempMut::RRefMut(borrow) => Ok(&mut borrow.held),
        }
    }
}

/// What the host function gets of a parameter of type `T`.
#[verifier::reject_recursive_types(T)]
pub struct ArgRefCtor<T>(PhantomData<T>);

impl<'a, T: FromArgRef> Ctor<'a> for ArgRefCtor<T> {
    type Ty = T::Output<'a>;
}

impl<T: FromArgRef> FromArgRef for Option<T> {
    type Temp = Option<T::Temp>;

    type TempModel = Option<T::TempModel>;

    type Output<'a> = <OptionCtor<ArgRefCtor<T>> as Ctor<'a>>::Ty;

    type OutModel = Option<T::OutModel>;

    open spec fn takes() -> ArgType {
        ArgType::Option
    }

    open spec fn alone() -> bool {
        T::alone()
    }

    open spec fn temp_model(temp: Option<T::Temp>) -> Option<T::TempModel> {
        match temp {
            Some(temp) => Some(T::temp_model(temp)),
            None => None,
        }
    }

    open spec fn usable(temp: Option<T::TempModel>) -> bool {
        temp matches Some(temp) ==> T::usable(temp)
    }

    open spec fn temp_of(args: Seq<Slot>, i: int, h: Store) -> (
        Store,
        GResult<Option<T::TempModel>>,
    ) {
        if i >= args.len() || args[i] is Nil {
            (h, Ok(None))
        } else {
            let (h1, r) = T::temp_of(args, i, h);
            (
                h1,
                match r {
                    Ok(temp) => Ok(Some(temp)),
                    Err(e) => Err(e),
                },
            )
        }
    }

    open spec fn arg_of(temp: Option<T::TempModel>, h: Store) -> GResult<Option<T::OutModel>> {
        match temp {
            None => Ok(None),
            Some(temp) => match T::arg_of(temp, h) {
                Ok(out) => Ok(Some(out)),
                Err(e) => Err(e),
            },
        }
    }

    open spec fn out_model<'a>(out: Option<T::Output<'a>>) -> Option<T::OutModel> {
        match out {
            None => None,
            Some(out) => Some(T::out_model(out)),
        }
    }

    proof fn lawful_temp(args: Seq<Slot>, i: int, h: Store) {
        T::lawful_temp(args, i, h);
    }

    proof fn lawful_own(args: Seq<Slot>, other: Seq<Slot>, i: int, h: Store) {
        T::lawful_own(args, other, i, h);
    }

    fn arg_type() -> (t: ArgType) {
        ArgType::Option
    }

    fn make_temp(args: &[Slot], i: usize, heap: &mut Heap) -> (r: GResult<Option<T::Temp>>) {
        if i >= args.len() {
            return Ok(None);
        }
        match args[i] {
            Slot::Nil => Ok(None),
            _ => match T::make_temp(args, i, heap) {
                Ok(temp) => Ok(Some(temp)),
                Err(e) => Err(e),
            },
        }
    }

    fn from_arg<'a>(
        temp: &'a mut Option<T::Temp>,
        heap: &Heap,
    ) -> (r: GResult<Option<T::Output<'a>>>) {
        match temp {
            None => Ok(None),
            Some(temp) => match T::from_arg(temp, heap) {
                Ok(out) => Ok(Some(out)),
                Err(e) => Err(e),
            },
        }
    }
}

impl<'r> FromArgRef for &'r Arr {
    type Temp = DynTemp<Arr>;

    type TempModel = Kept;

    type Output<'a> = <RefCtor<Raw<Arr>> as Ctor<'a>>::Ty;

    type OutModel = Raw<Arr>;

    open spec fn takes() -> ArgType {
        ArgType::Normal
    }

    open spec fn alone() -> bool {
        true
    }

    open spec fn temp_model(temp: DynTemp<Arr>) -> Kept {
        temp.kept()
    }

    open spec fn usable(temp: Kept) -> bool {
        temp is Argument
    }

    open spec fn temp_of(args: Seq<Slot>, i: int, h: Store) -> (Store, GResult<Kept>) {
        (h, Ok(Kept::Argument(args[i])))
    }

    open spec fn arg_of(temp: Kept, h: Store) -> GResult<Raw<Arr>> {
        match temp {
            Kept::Argument(Slot::Arr(raw)) => Ok(raw),
            _ => Err(
                GError::WrongPointee { expected: ValType::Arr, received: argument_type(temp) },
            ),
        }
    }

    open spec fn out_model<'a>(out: &'a Raw<Arr>) -> Raw<Arr> {
        *out
    }

    proof fn lawful_temp(args: Seq<Slot>, i: int, h: Store) {
    }

    proof fn lawful_own(args: Seq<Slot>, other: Seq<Slot>, i: int, h: Store) {
    }

    fn arg_type() -> (t: ArgType) {
        ArgType::Normal
    }

    fn make_temp(args: &[Slot], i: usize, heap: &mut Heap) -> (r: GResult<DynTemp<Arr>>) {
        Ok(DynTemp::Slot(args[i]))
    }

    fn from_arg<'a>(temp: &'a mut DynTemp<Arr>, heap: &Heap) -> (r: GResult<&'a Raw<Arr>>) {
        match temp {
            DynTemp::Slot(Slot::Arr(raw)) => Ok(raw),
            DynTemp::Slot(slot) => Err(
                GError::WrongPointee { expected: ValType::Arr, received: slot.val_type() },
            ),
            _ => unreached(),
        }
    }
}

impl<'r> FromArgRef for &'r Str {
    type Temp = DynTemp<Str>;

    type TempModel = Kept;

    type Output<'a> = <RefCtor<Raw<Str>> as Ctor<'a>>::Ty;

    type OutModel = Raw<Str>;

    open spec fn takes() -> ArgType {
        ArgType::Normal
    }

    open spec fn alone() -> bool {
        true
    }

    open spec fn temp_model(temp: DynTemp<Str>) -> Kept {
        temp.kept()
    }

    open spec fn usable(temp: Kept) -> bool {
        temp is Argument
    }

    open spec fn temp_of(args: Seq<Slot>, i: int, h: Store) -> (Store, GResult<Kept>) {
        (h, Ok(Kept::Argument(args[i])))
    }

    open spec fn arg_of(temp: Kept, h: Store) -> GResult<Raw<Str>> {
        match temp {
            Kept::Argument(Slot::Str(raw)) => Ok(raw),
            _ => Err(
                GError::WrongPointee { expected: ValType::Str, received: argument_type(temp) },
            ),
        }
    }

    open spec fn out_model<'a>(out: &'a Raw<Str>) -> Raw<Str> {
        *out
    }

    proof fn lawful_temp(args: Seq<Slot>, i: int, h: Store) {
    }

    proof fn lawful_own(args: Seq<Slot>, other: Seq<Slot>, i: int, h: Store) {
    }

    fn arg_type() -> (t: ArgType) {
        ArgType::Normal
    }

    fn make_temp(args: &[Slot], i: usize, heap: &mut Heap) -> (r: GResult<DynTemp<Str>>) {
        Ok(DynTemp::Slot(args[i]))
    }

    fn from_arg<'a>(temp: &'a mut DynTemp<Str>, heap: &Heap) -> (r: GResult<&'a Raw<Str>>) {
        match temp {
            DynTemp::Slot(Slot::Str(raw)) => Ok(raw),
            DynTemp::Slot(slot) => Err(
                GError::WrongPointee { expected: ValType::Str, received: slot.val_type() },
            ),
            _ => unreached(),
        }
    }
}

impl<'r> FromArgRef for &'r Tab {
    type Temp = DynTemp<Tab>;

    type TempModel = Kept;

    type Output<'a> = <RefCtor<Raw<Tab>> as Ctor<'a>>::Ty;

    type OutModel = Raw<Tab>;

    open spec fn takes() -> ArgType {
        ArgType::Normal
    }

    open spec fn alone() -> bool {
        true
    }

    open spec fn temp_model(temp: DynTemp<Tab>) -> Kept {
        temp.kept()
    }

    open spec fn usable(temp: Kept) -> bool {
        temp is Argument
    }

    open spec fn temp_of(args: Seq<Slot>, i: int, h: Store) -> (Store, GResult<Kept>) {
        (h, Ok(Kept::Argument(args[i])))
    }

    open spec fn arg_of(temp: Kept, h: Store) -> GResult<Raw<Tab>> {
        match temp {
            Kept::Argument(Slot::Tab(raw)) => Ok(raw),
            _ => Err(
                GError::WrongPointee { expected: ValType::Tab, received: argument_type(temp) },
            ),
        }
    }

    open spec fn out_model<'a>(out: &'a Raw<Tab>) -> Raw<Tab> {
        *out
    }

    proof fn lawful_temp(args: Seq<Slot>, i: int, h: Store) {
    }

    proof fn lawful_own(args: Seq<Slot>, other: Seq<Slot>, i: int, h: Store) {
    }

    fn arg_type() -> (t: ArgType) {
        ArgType::Normal
    }

    fn make_temp(args: &[Slot], i: usize, heap: &mut Heap) -> (r: GResult<DynTemp<Tab>>) {
        Ok(DynTemp::Slot(args[i]))
    }

    fn from_arg<'a>(temp: &'a mut DynTemp<Tab>, heap: &Heap) -> (r: GResult<&'a Raw<Tab>>) {
        match temp {
            DynTemp::Slot(Slot::Tab(raw)) => Ok(raw),
            DynTemp::Slot(slot) => Err(
                GError::WrongPointee { expected: ValType::Tab, received: slot.val_type() },
            ),
            _ => unreached(),
        }
    }
}

impl<'r> FromArgRef for &'r GIter {
    type Temp = DynTemp<GIter>;

    type TempModel = Kept;

    type Output<'a> = <RefCtor<Raw<GIter>> as Ctor<'a>>::Ty;

    type OutModel = Raw<GIter>;

    open spec fn takes() -> ArgType {
        ArgType::Normal
    }

    open spec fn alone() -> bool {
        true
    }

    open spec fn temp_model(temp: DynTemp<GIter>) -> Kept {
        temp.kept()
    }

    open spec fn usable(temp: Kept) -> bool {
        temp is Argument
    }

    open spec fn temp_of(args: Seq<Slot>, i: int, h: Store) -> (Store, GResult<Kept>) {
        (h, Ok(Kept::Argument(args[i])))
    }

    open spec fn arg_of(temp: Kept, h: Store) -> GResult<Raw<GIter>> {
        match temp {
            Kept::Argument(Slot::GIter(raw)) => Ok(raw),
            _ => Err(
                GError::WrongPointee { expected: ValType::GIter, received: argument_type(temp) },
            ),
        }
    }

    open spec fn out_model<'a>(out: &'a Raw<GIter>) -> Raw<GIter> {
        *out
    }

    proof fn lawful_temp(args: Seq<Slot>, i: int, h: Store) {
    }

    proof fn lawful_own(args: Seq<Slot>, other: Seq<Slot>, i: int, h: Store) {
    }

    fn arg_type() -> (t: ArgType) {
        ArgType::Normal
    }

    fn make_temp(args: &[Slot], i: usize, heap: &mut Heap) -> (r: GResult<DynTemp<GIter>>) {
        Ok(DynTemp::Slot(args[i]))
    }

    fn from_arg<'a>(temp: &'a mut DynTemp<GIter>, heap: &Heap) -> (r: GResult<&'a Raw<GIter>>) {
        match temp {
            DynTemp::Slot(Slot::GIter(raw)) => Ok(raw),
            DynTemp::Slot(slot) => Err(
                GError::WrongPointee { expected: ValType::GIter, received: slot.val_type() },
            ),
            _ => unreached(),
        }
    }
}

impl<'r> FromArgRef for &'r GFn {
    type Temp = DynTemp<GFn>;

    type TempModel = Kept;

    type Output<'a> = <RefCtor<Raw<GFn>> as Ctor<'a>>::Ty;

    type OutModel = Raw<GFn>;

    open spec fn takes() -> ArgType {
        ArgType::Normal
    }

    open spec fn alone() -> bool {
        true
    }

    open spec fn temp_model(temp: DynTemp<GFn>) -> Kept {
        temp.kept()
    }

    open spec fn usable(temp: Kept) -> bool {
        temp is Argument
    }

    open spec fn temp_of(args: Seq<Slot>, i: int, h: Store) -> (Store, GResult<Kept>) {
        (h, Ok(Kept::Argument(args[i])))
    }

    open spec fn arg_of(temp: Kept, h: Store) -> GResult<Raw<GFn>> {
        match temp {
            Kept::Argument(Slot::GFn(raw)) => Ok(raw),
            _ => Err(
                GError::WrongPointee { expected: ValType::GFn, received: argument_type(temp) },
            ),
        }
    }

    open spec fn out_model<'a>(out: &'a Raw<GFn>) -> Raw<GFn> {
        *out
    }

    proof fn lawful_temp(args: Seq<Slot>, i: int, h: Store) {
    }

    proof fn lawful_own(args: Seq<Slot>, other: Seq<Slot>, i: int, h: Store) {
    }

    fn arg_type() -> (t: ArgType) {
        ArgType::Normal
    }

    fn make_temp(args: &[Slot], i: usize, heap: &mut Heap) -> (r: GResult<DynTemp<GFn>>) {
        Ok(DynTemp::Slot(args[i]))
    }

    fn from_arg<'a>(temp: &'a mut DynTemp<GFn>, heap: &Heap) -> (r: GResult<&'a Raw<GFn>>) {
        match temp {
            DynTemp::Slot(Slot::GFn(raw)) => Ok(raw),
            DynTemp::Slot(slot) => Err(
                GError::WrongPointee { expected: ValType::GFn, received: slot.val_type() },
            ),
            _ => unreached(),
        }
    }
}

impl<'r> FromArgRef for &'r Obj {
    type Temp = DynTemp<Obj>;

    type TempModel = Kept;

    type Output<'a> = <RefCtor<Raw<Obj>> as Ctor<'a>>::Ty;

    type OutModel = Raw<Obj>;

    open spec fn takes() -> ArgType {
        ArgType::Normal
    }

    open spec fn alone() -> bool {
        true
    }

    open spec fn temp_model(temp: DynTemp<Obj>) -> Kept {
        temp.kept()
    }

    open spec fn usable(temp: Kept) -> bool {
        temp is Argument
    }

    open spec fn temp_of(args: Seq<Slot>, i: int, h: Store) -> (Store, GResult<Kept>) {
        (h, Ok(Kept::Argument(args[i])))
    }

    open spec fn arg_of(temp: Kept, h: Store) -> GResult<Raw<Obj>> {
        match temp {
            Kept::Argument(Slot::Obj(raw)) => Ok(raw),
            _ => Err(
                GError::WrongPointee { expected: ValType::Obj, received: argument_type(temp) },
            ),
        }
    }

    open spec fn out_model<'a>(out: &'a Raw<Obj>) -> Raw<Obj> {
        *out
    }

    proof fn lawful_temp(args: Seq<Slot>, i: int, h: Store) {
    }

    proof fn lawful_own(args: Seq<Slot>, other: Seq<Slot>, i: int, h: Store) {
    }

    fn arg_type() -> (t: ArgType) {
        ArgType::Normal
    }

    fn make_temp(args: &[Slot], i: usize, heap: &mut Heap) -> (r: GResult<DynTemp<Obj>>) {
        Ok(DynTemp::Slot(args[i]))
    }

    fn from_arg<'a>(temp: &'a mut DynTemp<Obj>, heap: &Heap) -> (r: GResult<&'a Raw<Obj>>) {
        match temp {
            DynTemp::Slot(Slot::Obj(raw)) => Ok(raw),
            DynTemp::Slot(slot) => Err(
                GError::WrongPointee { expected: ValType::Obj, received: slot.val_type() },
            ),
            _ => unreached(),
        }
    }
}

impl<'r> FromArgRef for &'r Class {
    type Temp = DynTemp<Class>;

    type TempModel = Kept;

    type Output<'a> = <RefCtor<Raw<Class>> as Ctor<'a>>::Ty;

    type OutModel = Raw<Class>;

    open spec fn takes() -> ArgType {
        ArgType::Normal
    }

    open spec fn alone() -> bool {
        true
    }

    open spec fn temp_model(temp: DynTemp<Class>) -> Kept {
        temp.kept()
    }

    open spec fn usable(temp: Kept) -> bool {
        temp is Argument
    }

    open spec fn temp_of(args: Seq<Slot>, i: int, h: Store) -> (Store, GResult<Kept>) {
        (h, Ok(Kept::Argument(args[i])))
    }

    open spec fn arg_of(temp: Kept, h: Store) -> GResult<Raw<Class>> {
        match temp {
            Kept::Argument(Slot::Class(raw)) => Ok(raw),
            _ => Err(
                GError::WrongPointee { expected: ValType::Class, received: argument_type(temp) },
            ),
        }
    }

    open spec fn out_model<'a>(out: &'a Raw<Class>) -> Raw<Class> {
        *out
    }

    proof fn lawful_temp(args: Seq<Slot>, i: int, h: Store) {
    }

    proof fn lawful_own(args: Seq<Slot>, other: Seq<Slot>, i: int, h: Store) {
    }

    fn arg_type() -> (t: ArgType) {
        ArgType::Normal
    }

    fn make_temp(args: &[Slot], i: usize, heap: &mut Heap) -> (r: GResult<DynTemp<Class>>) {
        Ok(DynTemp::Slot(args[i]))
    }

    fn from_arg<'a>(temp: &'a mut DynTemp<Class>, heap: &Heap) -> (r: GResult<&'a Raw<Class>>) {
        match temp {
            DynTemp::Slot(Slot::Class(raw)) => Ok(raw),
            DynTemp::Slot(slot) => Err(
                GError::WrongPointee { expected: ValType::Class, received: slot.val_type() },
            ),
            _ => unreached(),
        }
    }
}

impl<'r> FromArgRef for &'r Coro {
    type Temp = DynTemp<Coro>;

    type TempModel = Kept;

    type Output<'a> = <RefCtor<Raw<Coro>> as Ctor<'a>>::Ty;

    type OutModel = Raw<Coro>;

    open spec fn takes() -> ArgType {
        ArgType::Normal
    }

    open spec fn alone() -> bool {
        true
    }

    open spec fn temp_model(temp: DynTemp<Coro>) -> Kept {
        temp.kept()
    }

    open spec fn usable(temp: Kept) -> bool {
        temp is Argument
    }

    open spec fn temp_of(args: Seq<Slot>, i: int, h: Store) -> (Store, GResult<Kept>) {
        (h, Ok(Kept::Argument(args[i])))
    }

    open spec fn arg_of(temp: Kept, h: Store) -> GResult<Raw<Coro>> {
        match temp {
            Kept::Argument(Slot::Coro(raw)) => Ok(raw),
            _ => Err(
                GError::WrongPointee { expected: ValType::Coro, received: argument_type(temp) },
            ),
        }
    }

    open spec fn out_model<'a>(out: &'a Raw<Coro>) -> Raw<Coro> {
        *out
    }

    proof fn lawful_temp(args: Seq<Slot>, i: int, h: Store) {
    }

    proof fn lawful_own(args: Seq<Slot>, other: Seq<Slot>, i: int, h: Store) {
    }

    fn arg_type() -> (t: ArgType) {
        ArgType::Normal
    }

    fn make_temp(args: &[Slot], i: usize, heap: &mut Heap) -> (r: GResult<DynTemp<Coro>>) {
        Ok(DynTemp::Slot(args[i]))
    }

    fn from_arg<'a>(temp: &'a mut DynTemp<Coro>, heap: &Heap) -> (r: GResult<&'a Raw<Coro>>) {
        match temp {
            DynTemp::Slot(Slot::Coro(raw)) => Ok(raw),
            DynTemp::Slot(slot) => Err(
                GError::WrongPointee { expected: ValType::Coro, received: slot.val_type() },
            ),
            _ => unreached(),
        }
    }
}

impl<'r> FromArgRef for &'r RData {
    type Temp = DynTemp<RData>;

    type TempModel = Kept;

    type Output<'a> = <RefCtor<Raw<RData>> as Ctor<'a>>::Ty;

    type OutModel = Raw<RData>;

    open spec fn takes() -> ArgType {
        ArgType::Normal
    }

    open spec fn alone() -> bool {
        true
    }

    open spec fn temp_model(temp: DynTemp<RData>) -> Kept {
        temp.kept()
    }

    open spec fn usable(temp: Kept) -> bool {
        temp is Argument
    }

    open spec fn temp_of(args: Seq<Slot>, i: int, h: Store) -> (Store, GResult<Kept>) {
        (h, Ok(Kept::Argument(args[i])))
    }

    open spec fn arg_of(temp: Kept, h: Store) -> GResult<Raw<RData>> {
        match temp {
            Kept::Argument(Slot::RData(raw)) => Ok(raw),
            _ => Err(
                GError::WrongPointee { expected: ValType::RData, received: argument_type(temp) },
            ),
        }
    }

    open spec fn out_model<'a>(out: &'a Raw<RData>) -> Raw<RData> {
        *out
    }

    proof fn lawful_temp(args: Seq<Slot>, i: int, h: Store) {
    }

    proof fn lawful_own(args: Seq<Slot>, other: Seq<Slot>, i: int, h: Store) {
    }

    fn arg_type() -> (t: ArgType) {
        ArgType::Normal
    }

    fn make_temp(args: &[Slot], i: usize, heap: &mut Heap) -> (r: GResult<DynTemp<RData>>) {
        Ok(DynTemp::Slot(args[i]))
    }

    fn from_arg<'a>(temp: &'a mut DynTemp<RData>, heap: &Heap) -> (r: GResult<&'a Raw<RData>>) {
        match temp {
            DynTemp::Slot(Slot::RData(raw)) => Ok(raw),
            DynTemp::Slot(slot) => Err(
                GError::WrongPointee { expected: ValType::RData, received: slot.val_type() },
            ),
            _ => unreached(),
        }
    }
}

impl<'r> FromArgRef for &'r RFn {
    type Temp = DynTemp<RFn>;

    type TempModel = Kept;

    type Output<'a> = <RefCtor<Raw<RFn>> as Ctor<'a>>::Ty;

    type OutModel = Raw<RFn>;

    open spec fn takes() -> ArgType {
        ArgType::Normal
    }

    open spec fn alone() -> bool {
        true
    }

    open spec fn temp_model(temp: DynTemp<RFn>) -> Kept {
        temp.kept()
    }

    open spec fn usable(temp: Kept) -> bool {
        temp is Argument
    }

    open spec fn temp_of(args: Seq<Slot>, i: int, h: Store) -> (Store, GResult<Kept>) {
        (h, Ok(Kept::Argument(args[i])))
    }

    open spec fn arg_of(temp: Kept, h: Store) -> GResult<Raw<RFn>> {
        match temp {
            Kept::Argument(Slot::RFn(raw)) => Ok(raw),
            _ => Err(
                GError::WrongPointee { expected: ValType::RFn, received: argument_type(temp) },
            ),
        }
    }

    open spec fn out_model<'a>(out: &'a Raw<RFn>) -> Raw<RFn> {
        *out
    }

    proof fn lawful_temp(args: Seq<Slot>, i: int, h: Store) {
    }

    proof fn lawful_own(args: Seq<Slot>, other: Seq<Slot>, i: int, h: Store) {
    }

    fn arg_type() -> (t: ArgType) {
        ArgType::Normal
    }

    fn make_temp(args: &[Slot], i: usize, heap: &mut Heap) -> (r: GResult<DynTemp<RFn>>) {
        Ok(DynTemp::Slot(args[i]))
    }

    fn from_arg<'a>(temp: &'a mut DynTemp<RFn>, heap: &Heap) -> (r: GResult<&'a Raw<RFn>>) {
        match temp {
            DynTemp::Slot(Slot::RFn(raw)) => Ok(raw),
            DynTemp::Slot(slot) => Err(
                GError::WrongPointee { expected: ValType::RFn, received: slot.val_type() },
            ),
            _ => unreached(),
        }
    }
}

} // verus!
