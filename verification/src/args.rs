//! `FromArg`: from the arguments of a call to the parameters of a host function, by value.

use std::marker::PhantomData;

use vstd::prelude::*;
use vstd::string::StringSliceAdditionalSpecFns;
use vstd::utf8::{
    decode_utf8, encode_utf8_decode_utf8, encode_utf8, encode_utf8_valid_utf8, valid_utf8,
};

use crate::error::{Expected, GError, GResult};
use crate::from_val::{all_of, each, lemma_each_failed, models, FromVal};
use crate::limits::ArgType;
use crate::rest::Rest;
use crate::small::SmallList;
use crate::store::{Heap, Store};
use crate::text::{decode, text_of, CText, OsText, PathText};
use crate::value::Slot;

verus! {

/// A type that depends on how long what it borrows lives.
pub trait Ctor<'a> {
    type Ty;
}

/// `T` itself, however long.
#[verifier::reject_recursive_types(T)]
pub struct ValCtor<T>(PhantomData<T>);

impl<'a, T> Ctor<'a> for ValCtor<T> {
    type Ty = T;
}

/// What `T` makes, or nothing.
#[verifier::reject_recursive_types(T)]
pub struct OptionCtor<T: ?Sized>(PhantomData<T>);

impl<'a, T: Ctor<'a> + ?Sized> Ctor<'a> for OptionCtor<T> {
    type Ty = Option<T::Ty>;
}

/// A `Rest` of items of type `T`.
#[verifier::reject_recursive_types(T)]
pub struct RestCtor<T>(PhantomData<T>);

impl<'a, T: 'a> Ctor<'a> for RestCtor<T> {
    type Ty = Rest<'a, T>;
}

/// A shared reference to `T`.
#[verifier::reject_recursive_types(T)]
pub struct RefCtor<T: ?Sized>(PhantomData<T>);

impl<'a, T: ?Sized + 'a> Ctor<'a> for RefCtor<T> {
    type Ty = &'a T;
}

/// An exclusive reference to `T`.
#[verifier::reject_recursive_types(T)]
pub struct RefMutCtor<T: ?Sized>(PhantomData<T>);

impl<'a, T: ?Sized + 'a> Ctor<'a> for RefMutCtor<T> {
    type Ty = &'a mut T;
}

/// There is no `i`th argument, or it is `nil`.
pub open spec fn missing(args: Seq<Slot>, i: int) -> bool {
    i >= args.len() || args[i] is Nil
}

/// The arguments `args` and `other` are the same to a parameter that starts at the `i`th: it takes
/// none, or it can go without and has to with either, or it looks at none but its own, which is the
/// same in both.
pub open spec fn same_argument(
    takes: ArgType,
    alone: bool,
    args: Seq<Slot>,
    other: Seq<Slot>,
    i: int,
) -> bool {
    ||| takes is RGlobal
    ||| takes is Option && missing(args, i) && missing(other, i)
    ||| alone && i < args.len() && i < other.len() && args[i] == other[i]
}

/// A parameter type that is made of its arguments.
///
/// An argument is converted in two steps. The first makes a temporary value, which lasts for the
/// whole of the call: it copies what it needs from the list of arguments, and takes out the
/// borrows that the parameter calls for. The second makes of it what the host function gets, when
/// the list of arguments is no longer needed.
pub trait FromArg: Sized {
    /// The temporary value.
    type Temp: 'static;

    /// What a temporary value stands for.
    type TempModel;

    /// What the host function gets.
    type Output<'a>;

    /// What that stands for.
    type OutModel;

    /// How this parameter takes its argument.
    spec fn takes() -> ArgType;

    /// Of all the arguments, this parameter looks at none but its own.
    spec fn alone() -> bool;

    /// What this temporary value stands for.
    spec fn temp_model(temp: Self::Temp) -> Self::TempModel;

    /// The temporary value is as the first step leaves it.
    spec fn usable(temp: Self::TempModel) -> bool;

    /// What the first step makes of the arguments from the `i`th, and what it leaves on the heap.
    spec fn temp_of(args: Seq<Slot>, i: int, h: Store) -> (Store, GResult<Self::TempModel>);

    /// What the second step makes of the temporary value.
    spec fn arg_of(temp: Self::TempModel, h: Store) -> GResult<Self::OutModel>;

    /// What this, which the host function gets, stands for.
    spec fn out_model<'a>(out: Self::Output<'a>) -> Self::OutModel;

    /// The first step does nothing to the heap but to borrow from it, and not even that where it
    /// fails.
    proof fn lawful_temp(args: Seq<Slot>, i: int, h: Store)
        ensures
            Self::temp_of(args, i, h).0.only_borrowed(h),
            Self::temp_of(args, i, h).1 is Err ==> Self::temp_of(args, i, h).0 == h,
    ;

    /// Where the arguments `args` and `other` are the same to this parameter, the first step makes
    /// the same of them.
    proof fn lawful_own(args: Seq<Slot>, other: Seq<Slot>, i: int, h: Store)
        requires
            0 <= i,
        ensures
            Self::takes() is Normal ==> Self::alone(),
            same_argument(
                Self::takes(),
                Self::alone(),
                args,
                other,
                i,
            ) ==> Self::temp_of(args, i, h)
                == Self::temp_of(other, i, h),
    ;

    /// Tells how this parameter takes its argument.
    fn arg_type() -> (t: ArgType)
        ensures
            t == Self::takes(),
    ;

    /// Takes the first step, for the arguments from the `i`th.
    fn make_temp(args: &[Slot], i: usize, heap: &mut Heap) -> (r: GResult<Self::Temp>)
        requires
            Self::takes() is Normal ==> i < args@.len(),
        ensures
            Self::temp_of(args@, i as int, old(heap)@) == (
                final(heap)@,
                match r {
                    Ok(temp) => Ok(Self::temp_model(temp)),
                    Err(e) => Err(e),
                },
            ),
            r matches Ok(temp) ==> Self::usable(Self::temp_model(temp)),
    ;

    /// Takes the second step.
    fn from_arg<'a>(temp: &'a mut Self::Temp, heap: &Heap) -> (r: GResult<Self::Output<'a>>)
        requires
            Self::usable(Self::temp_model(*old(temp))),
        ensures
            Self::arg_of(Self::temp_model(*old(temp)), heap@) == (match r {
                Ok(out) => Ok(Self::out_model(out)),
                Err(e) => Err(e),
            }),
    ;
}

impl<T: FromVal> FromArg for T {
    type Temp = Slot;

    type TempModel = Slot;

    type Output<'a> = <ValCtor<T> as Ctor<'a>>::Ty;

    type OutModel = T::Model;

    open spec fn takes() -> ArgType {
        ArgType::Normal
    }

    open spec fn alone() -> bool {
        true
    }

    open spec fn temp_model(temp: Slot) -> Slot {
        temp
    }

    open spec fn usable(temp: Slot) -> bool {
        true
    }

    open spec fn temp_of(args: Seq<Slot>, i: int, h: Store) -> (Store, GResult<Slot>) {
        (h, Ok(args[i]))
    }

    open spec fn arg_of(temp: Slot, h: Store) -> GResult<T::Model> {
        T::of_val(h, temp.val())
    }

    open spec fn out_model<'a>(out: T) -> T::Model {
        out.model()
    }

    proof fn lawful_temp(args: Seq<Slot>, i: int, h: Store) {
    }

    proof fn lawful_own(args: Seq<Slot>, other: Seq<Slot>, i: int, h: Store) {
    }

    fn arg_type() -> (t: ArgType) {
        ArgType::Normal
    }

    fn make_temp(args: &[Slot], i: usize, heap: &mut Heap) -> (r: GResult<Slot>) {
        Ok(args[i])
    }

    fn from_arg<'a>(temp: &'a mut Slot, heap: &Heap) -> (r: GResult<T>) {
        T::from_slot(heap, temp)
    }
}

/// What the host function gets of a parameter of type `T`.
#[verifier::reject_recursive_types(T)]
pub struct ArgCtor<T>(PhantomData<T>);

impl<'a, T: FromArg> Ctor<'a> for ArgCtor<T> {
    type Ty = T::Output<'a>;
}

impl<T: FromArg> FromArg for Option<T> {
    type Temp = Option<T::Temp>;

    type TempModel = Option<T::TempModel>;

    type Output<'a> = <OptionCtor<ArgCtor<T>> as Ctor<'a>>::Ty;

    type OutModel = Option<T::OutModel>;

    open spec fn takes() -> ArgType {
        ArgType::Option
    }

    open spec fn alone() -> bool {
        T::alone()
    }

    open spec fn temp_model(temp: Option<T::Temp>) -> Option<T::TempModel> {
        match temp {
            Some(temp) => Some(T::temp_model(temp)),
            None => None,
        }
    }

    open spec fn usable(temp: Option<T::TempModel>) -> bool {
        temp matches Some(temp) ==> T::usable(temp)
    }

    open spec fn temp_of(args: Seq<Slot>, i: int, h: Store) -> (
        Store,
        GResult<Option<T::TempModel>>,
    ) {
        if i >= args.len() || args[i] is Nil {
            (h, Ok(None))
        } else {
            let (h1, r) = T::temp_of(args, i, h);
            (
                h1,
                match r {
                    Ok(temp) => Ok(Some(temp)),
                    Err(e) => Err(e),
                },
            )
        }
    }

    open spec fn arg_of(temp: Option<T::TempModel>, h: Store) -> GResult<Option<T::OutModel>> {
        match temp {
            None => Ok(None),
            Some(temp) => match T::arg_of(temp, h) {
                Ok(out) => Ok(Some(out)),
                Err(e) => Err(e),
            },
        }
    }

    open spec fn out_model<'a>(out: Option<T::Output<'a>>) -> Option<T::OutModel> {
        match out {
            None => None,
            Some(out) => Some(T::out_model(out)),
        }
    }

    proof fn lawful_temp(args: Seq<Slot>, i: int, h: Store) {
        T::lawful_temp(args, i, h);
    }

    proof fn lawful_own(args: Seq<Slot>, other: Seq<Slot>, i: int, h: Store) {
        T::lawful_own(args, other, i, h);
    }

    fn arg_type() -> (t: ArgType) {
        ArgType::Option
    }

    fn make_temp(args: &[Slot], i: usize, heap: &mut Heap) -> (r: GResult<Option<T::Temp>>) {
        if i >= args.len() {
            return Ok(None);
        }
        match args[i] {
            Slot::Nil => Ok(None),
            _ => match T::make_temp(args, i, heap) {
                Ok(temp) => Ok(Some(temp)),
                Err(e) => Err(e),
            },
        }
    }

    fn from_arg<'a>(
        temp: &'a mut Option<T::Temp>,
        heap: &Heap,
    ) -> (r: GResult<Option<T::Output<'a>>>) {
        match temp {
            None => Ok(None),
            Some(temp) => match T::from_arg(temp, heap) {
                Ok(out) => Ok(Some(out)),
                Err(e) => Err(e),
            },
        }
    }
}

impl<'r, T: FromVal> FromArg for Rest<'r, T> {
    type Temp = (SmallList<Slot, 8>, SmallList<T, 8>);

    type TempModel = (Seq<Slot>, Seq<T>);

    type Output<'a> = <RestCtor<T> as Ctor<'a>>::Ty;

    type OutModel = Seq<T::Model>;

    open spec fn takes() -> ArgType {
        ArgType::Rest
    }

    open spec fn alone() -> bool {
        false
    }

    open spec fn temp_model(temp: (SmallList<Slot, 8>, SmallList<T, 8>)) -> (Seq<Slot>, Seq<T>) {
        (temp.0@, temp.1@)
    }

    open spec fn usable(temp: (Seq<Slot>, Seq<T>)) -> bool {
        temp.1 == Seq::<T>::empty()
    }

    open spec fn temp_of(args: Seq<Slot>, i: int, h: Store) -> (
        Store,
        GResult<(Seq<Slot>, Seq<T>)>,
    ) {
        let left = if i < args.len() {
            args.skip(i)
        } else {
            Seq::empty()
        };
        (h, Ok((left, Seq::empty())))
    }

    open spec fn arg_of(temp: (Seq<Slot>, Seq<T>), h: Store) -> GResult<Seq<T::Model>> {
        each::<T>(h, temp.0)
    }

    open spec fn out_model<'a>(out: Rest<'a, T>) -> Seq<T::Model> {
        models(out.items())
    }

    proof fn lawful_temp(args: Seq<Slot>, i: int, h: Store) {
    }

    proof fn lawful_own(args: Seq<Slot>, other: Seq<Slot>, i: int, h: Store) {
    }

    fn arg_type() -> (t: ArgType) {
        ArgType::Rest
    }

    fn make_temp(
        args: &[Slot],
        i: usize,
        heap: &mut Heap,
    ) -> (r: GResult<(SmallList<Slot, 8>, SmallList<T, 8>)>) {
        let mut slots: SmallList<Slot, 8> = SmallList::new();
        let mut k: usize = i;
        while k < args.len()
            invariant
                i <= k,
                i < args@.len() ==> k <= args@.len() && slots@ =~= args@.subrange(
                    i as int,
                    k as int,
                ),
                i >= args@.len() ==> slots@ =~= Seq::empty(),
            decreases args.len() - k,
        {
            slots.push(args[k]);
            k = k + 1;
        }
        Ok((slots, SmallList::new()))
    }

    fn from_arg<'a>(
        temp: &'a mut (SmallList<Slot, 8>, SmallList<T, 8>),
        heap: &Heap,
    ) -> (r: GResult<Rest<'a, T>>) {
        let ghost all = temp.0@;
        let mut k: usize = 0;
        proof {
            assert(all.take(0) =~= seq![]);
            assert(models(temp.1@) =~= seq![]);
        }
        while k < temp.0.as_slice().len()
            invariant
                k <= all.len(),
                temp.0@ == all,
                all == old(temp).0@,
                each::<T>(
                    heap@,
                    all.take(k as int),
                ) == Ok::<Seq<T::Model>, GError>(models(temp.1@)),
            decreases all.len() - k,
        {
            proof {
                assert(all.take(k + 1).drop_last() =~= all.take(k as int));
            }
            let slot = temp.0.as_slice()[k];
            match T::from_slot(heap, &slot) {
                Ok(item) => {
                    let ghost before = temp.1@;
                    temp.1.push(item);
                    assert(models(temp.1@) =~= models(before).push(item.model()));
                },
                Err(e) => {
                    proof {
                        lemma_each_failed::<T>(heap@, all, k + 1);
                    }
                    return Err(e);
                },
            }
            k = k + 1;
        }
        proof {
            assert(all.take(k as int) =~= all);
        }
        Ok(Rest::of(&mut temp.1))
    }
}

impl<'r, T: FromVal> FromArg for &'r [T] {
    type Temp = (Slot, SmallList<T, 8>);

    type TempModel = Slot;

    type Output<'a> = <RefCtor<[T]> as Ctor<'a>>::Ty;

    type OutModel = Seq<T::Model>;

    open spec fn takes() -> ArgType {
        ArgType::Normal
    }

    open spec fn alone() -> bool {
        true
    }

    open spec fn temp_model(temp: (Slot, SmallList<T, 8>)) -> Slot {
        temp.0
    }

    open spec fn usable(temp: Slot) -> bool {
        true
    }

    open spec fn temp_of(args: Seq<Slot>, i: int, h: Store) -> (Store, GResult<Slot>) {
        (h, Ok(args[i]))
    }

    open spec fn arg_of(temp: Slot, h: Store) -> GResult<Seq<T::Model>> {
        all_of::<T>(h, temp.val(), Expected::SmallVec)
    }

    open spec fn out_model<'a>(out: &'a [T]) -> Seq<T::Model> {
        models(out@)
    }

    proof fn lawful_temp(args: Seq<Slot>, i: int, h: Store) {
    }

    proof fn lawful_own(args: Seq<Slot>, other: Seq<Slot>, i: int, h: Store) {
    }

    fn arg_type() -> (t: ArgType) {
        ArgType::Normal
    }

    fn make_temp(
        args: &[Slot],
        i: usize,
        heap: &mut Heap,
    ) -> (r: GResult<(Slot, SmallList<T, 8>)>) {
        Ok((args[i], SmallList::new()))
    }

    fn from_arg<'a>(temp: &'a mut (Slot, SmallList<T, 8>), heap: &Heap) -> (r: GResult<&'a [T]>) {
        match SmallList::<T, 8>::from_slot(heap, &temp.0) {
            Ok(list) => {
                temp.1 = list;
                Ok(temp.1.as_slice())
            },
            Err(e) => Err(e),
        }
    }
}

impl<'r> FromArg for &'r str {
    type Temp = SmallList<u8, 128>;

    type TempModel = Seq<u8>;

    type Output<'a> = <RefCtor<str> as Ctor<'a>>::Ty;

    type OutModel = Seq<char>;

    open spec fn takes() -> ArgType {
        ArgType::Normal
    }

    open spec fn alone() -> bool {
        true
    }

    open spec fn temp_model(temp: SmallList<u8, 128>) -> Seq<u8> {
        temp@
    }

    open spec fn usable(temp: Seq<u8>) -> bool {
        valid_utf8(temp)
    }

    open spec fn temp_of(args: Seq<Slot>, i: int, h: Store) -> (Store, GResult<Seq<u8>>) {
        (
            h,
            match args[i] {
                Slot::Str(raw) => match h.str(raw.rooted()) {
                    Ok(chars) => Ok(encode_utf8(chars)),
                    Err(e) => Err(e),
                },
                _ => Err(
                    GError::WrongType {
                        expected: Expected::StrRef,
                        received: args[i].val().type_of(),
                    },
                ),
            },
        )
    }

    open spec fn arg_of(temp: Seq<u8>, h: Store) -> GResult<Seq<char>> {
        Ok(decode_utf8(temp))
    }

    open spec fn out_model<'a>(out: &'a str) -> Seq<char> {
        out@
    }

    proof fn lawful_temp(args: Seq<Slot>, i: int, h: Store) {
    }

    proof fn lawful_own(args: Seq<Slot>, other: Seq<Slot>, i: int, h: Store) {
    }

    fn arg_type() -> (t: ArgType) {
        ArgType::Normal
    }

    fn make_temp(args: &[Slot], i: usize, heap: &mut Heap) -> (r: GResult<SmallList<u8, 128>>) {
        let mut bytes: SmallList<u8, 128> = SmallList::new();
        match args[i] {
            Slot::Str(raw) => match heap.str(raw.root()) {
                Ok(chars) => {
                    let text = text_of(chars);
                    bytes.append_text(text.as_str());
                    proof {
                        encode_utf8_valid_utf8(chars@);
                        assert(bytes@ =~= encode_utf8(chars@));
                    }
                },
                Err(e) => return Err(e),
            },
            _ => return Err(
                GError::WrongType { expected: Expected::StrRef, received: args[i].val_type() },
            ),
        }
        Ok(bytes)
    }

    fn from_arg<'a>(temp: &'a mut SmallList<u8, 128>, heap: &Heap) -> (r: GResult<&'a str>) {
        let text = decode(temp.as_slice()).unwrap();
        proof {
            encode_utf8_decode_utf8(text@);
        }
        Ok(text)
    }
}

impl<'r> FromArg for &'r CText {
    type Temp = CText;

    type TempModel = Seq<u8>;

    type Output<'a> = <RefCtor<CText> as Ctor<'a>>::Ty;

    type OutModel = Seq<u8>;

    open spec fn takes() -> ArgType {
        ArgType::Normal
    }

    open spec fn alone() -> bool {
        true
    }

    open spec fn temp_model(temp: CText) -> Seq<u8> {
        temp@
    }

    open spec fn usable(temp: Seq<u8>) -> bool {
        true
    }

    open spec fn temp_of(args: Seq<Slot>, i: int, h: Store) -> (Store, GResult<Seq<u8>>) {
        (h, CText::of_val(h, args[i].val()))
    }

    open spec fn arg_of(temp: Seq<u8>, h: Store) -> GResult<Seq<u8>> {
        Ok(temp)
    }

    open spec fn out_model<'a>(out: &'a CText) -> Seq<u8> {
        out@
    }

    proof fn lawful_temp(args: Seq<Slot>, i: int, h: Store) {
    }

    proof fn lawful_own(args: Seq<Slot>, other: Seq<Slot>, i: int, h: Store) {
    }

    fn arg_type() -> (t: ArgType) {
        ArgType::Normal
    }

    fn make_temp(args: &[Slot], i: usize, heap: &mut Heap) -> (r: GResult<CText>) {
        CText::from_slot(heap, &args[i])
    }

    fn from_arg<'a>(temp: &'a mut CText, heap: &Heap) -> (r: GResult<&'a CText>) {
        Ok(temp)
    }
}

impl<'r> FromArg for &'r OsText {
    type Temp = OsText;

    type TempModel = Option<Seq<char>>;

    type Output<'a> = <RefCtor<OsText> as Ctor<'a>>::Ty;

    type OutModel = Option<Seq<char>>;

    open spec fn takes() -> ArgType {
        ArgType::Normal
    }

    open spec fn alone() -> bool {
        true
    }

    open spec fn temp_model(temp: OsText) -> Option<Seq<char>> {
        temp@
    }

    open spec fn usable(temp: Option<Seq<char>>) -> bool {
        true
    }

    open spec fn temp_of(args: Seq<Slot>, i: int, h: Store) -> (Store, GResult<Option<Seq<char>>>) {
        (h, OsText::of_val(h, args[i].val()))
    }

    open spec fn arg_of(temp: Option<Seq<char>>, h: Store) -> GResult<Option<Seq<char>>> {
        Ok(temp)
    }

    open spec fn out_model<'a>(out: &'a OsText) -> Option<Seq<char>> {
        out@
    }

    proof fn lawful_temp(args: Seq<Slot>, i: int, h: Store) {
    }

    proof fn lawful_own(args: Seq<Slot>, other: Seq<Slot>, i: int, h: Store) {
    }

    fn arg_type() -> (t: ArgType) {
        ArgType::Normal
    }

    fn make_temp(args: &[Slot], i: usize, heap: &mut Heap) -> (r: GResult<OsText>) {
        OsText::from_slot(heap, &args[i])
    }

    fn from_arg<'a>(temp: &'a mut OsText, heap: &Heap) -> (r: GResult<&'a OsText>) {
        Ok(temp)
    }
}

impl<'r> FromArg for &'r PathText {
    type Temp = PathText;

    type TempModel = Option<Seq<char>>;

    type Output<'a> = <RefCtor<PathText> as Ctor<'a>>::Ty;

    type OutModel = Option<Seq<char>>;

    open spec fn takes() -> ArgType {
        ArgType::Normal
    }

    open spec fn alone() -> bool {
        true
    }

    open spec fn temp_model(temp: PathText) -> Option<Seq<char>> {
        temp@
    }

    open spec fn usable(temp: Option<Seq<char>>) -> bool {
        true
    }

    open spec fn temp_of(args: Seq<Slot>, i: int, h: Store) -> (Store, GResult<Option<Seq<char>>>) {
        (h, PathText::of_val(h, args[i].val()))
    }

    open spec fn arg_of(temp: Option<Seq<char>>, h: Store) -> GResult<Option<Seq<char>>> {
        Ok(temp)
    }

    open spec fn out_model<'a>(out: &'a PathText) -> Option<Seq<char>> {
        out@
    }

    proof fn lawful_temp(args: Seq<Slot>, i: int, h: Store) {
    }

    proof fn lawful_own(args: Seq<Slot>, other: Seq<Slot>, i: int, h: Store) {
    }

    fn arg_type() -> (t: ArgType) {
        ArgType::Normal
    }

    fn make_temp(args: &[Slot], i: usize, heap: &mut Heap) -> (r: GResult<PathText>) {
        PathText::from_slot(heap, &args[i])
    }

    fn from_arg<'a>(temp: &'a mut PathText, heap: &Heap) -> (r: GResult<&'a PathText>) {
        Ok(temp)
    }
}

} // verus!
