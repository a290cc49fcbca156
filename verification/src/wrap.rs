//! `wrap`: from a host function of any signature to one that the engine can call.

use std::marker::PhantomData;

use vstd::prelude::*;

use crate::args::{same_argument, FromArg};
use crate::args_ref::FromArgRef;
use crate::error::{GError, GResult};
use crate::into_val::{slotted, IntoVal};
use crate::limits::{arg_limits, fewest, law_normal_in_range, most, sensible, start_of, ArgType};
use crate::store::{Heap, Store};
use crate::value::Slot;

verus! {

/// Marks a parameter that takes its arguments by `FromArg`.
pub struct TagArg;

/// Marks a parameter that takes its arguments by `FromArgRef`.
pub struct TagArgRef;

/// A parameter type, marked with how it takes its arguments.
///
/// The functions are those of `FromArg` or of `FromArgRef`, as the mark says.
pub trait Param: Sized {
    /// The temporary value.
    type Temp: 'static;

    /// What a temporary value stands for.
    type TempModel;

    /// What the host function gets.
    type Output<'a>;

    /// What that stands for.
    type OutModel;

    /// How this parameter takes its argument.
    spec fn takes() -> ArgType;

    /// Of all the arguments, this parameter looks at none but its own.
    spec fn alone() -> bool;

    /// What this temporary value stands for.
    spec fn temp_model(temp: Self::Temp) -> Self::TempModel;

    /// The temporary value is as the first step leaves it.
    spec fn usable(temp: Self::TempModel) -> bool;

    /// What the first step makes of the arguments from the `i`th, and what it leaves on the heap.
    spec fn temp_of(args: Seq<Slot>, i: int, h: Store) -> (Store, GResult<Self::TempModel>);

    /// What the second step makes of the temporary value.
    spec fn arg_of(temp: Self::TempModel, h: Store) -> GResult<Self::OutModel>;

    /// What this, which the host function gets, stands for.
    spec fn out_model<'a>(out: Self::Output<'a>) -> Self::OutModel;

    /// The first step does nothing to the heap but to borrow from it, and not even that where it
    /// fails.
    proof fn lawful_temp(args: Seq<Slot>, i: int, h: Store)
        ensures
            Self::temp_of(args, i, h).0.only_borrowed(h),
            Self::temp_of(args, i, h).1 is Err ==> Self::temp_of(args, i, h).0 == h,
    ;

    /// Where the arguments `args` and `other` are the same to this parameter, the first step makes
    /// the same of them.
    proof fn lawful_own(args: Seq<Slot>, other: Seq<Slot>, i: int, h: Store)
        requires
            0 <= i,
        ensures
            Self::takes() is Normal ==> Self::alone(),
            same_argument(
                Self::takes(),
                Self::alone(),
                args,
                other,
                i,
            ) ==> Self::temp_of(args, i, h)
                == Self::temp_of(other, i, h),
    ;

    /// Tells how this parameter takes its argument.
    fn arg_type() -> (t: ArgType)
        ensures
            t == Self::takes(),
    ;

    /// Takes the first step, for the arguments from the `i`th.
    fn make_temp(args: &[Slot], i: usize, heap: &mut Heap) -> (r: GResult<Self::Temp>)
        requires
            Self::takes() is Normal ==> i < args@.len(),
        ensures
            Self::temp_of(args@, i as int, old(heap)@) == (
                final(heap)@,
                match r {
                    Ok(temp) => Ok(Self::temp_model(temp)),
                    Err(e) => Err(e),
                },
            ),
            r matches Ok(temp) ==> Self::usable(Self::temp_model(temp)),
    ;

    /// Takes the second step.
    fn from_arg<'a>(temp: &'a mut Self::Temp, heap: &Heap) -> (r: GResult<Self::Output<'a>>)
        requires
            Self::usable(Self::temp_model(*old(temp))),
        ensures
            Self::arg_of(Self::temp_model(*old(temp)), heap@) == (match r {
                Ok(out) => Ok(Self::out_model(out)),
                Err(e) => Err(e),
            }),
    ;
}

impl<T: FromArg> Param for (T, TagArg) {
    type Temp = T::Temp;

    type TempModel = T::TempModel;

    type Output<'a> = T::Output<'a>;

    type OutModel = T::OutModel;

    open spec fn takes() -> ArgType {
        T::takes()
    }

    open spec fn alone() -> bool {
        T::alone()
    }

    open spec fn temp_model(temp: T::Temp) -> T::TempModel {
        T::temp_model(temp)
    }

    open spec fn usable(temp: T::TempModel) -> bool {
        T::usable(temp)
    }

    open spec fn temp_of(args: Seq<Slot>, i: int, h: Store) -> (Store, GResult<T::TempModel>) {
        T::temp_of(args, i, h)
    }

    open spec fn arg_of(temp: T::TempModel, h: Store) -> GResult<T::OutModel> {
        T::arg_of(temp, h)
    }

    open spec fn out_model<'a>(out: T::Output<'a>) -> T::OutModel {
        T::out_model(out)
    }

    proof fn lawful_temp(args: Seq<Slot>, i: int, h: Store) {
        T::lawful_temp(args, i, h);
    }

    proof fn lawful_own(args: Seq<Slot>, other: Seq<Slot>, i: int, h: Store) {
        T::lawful_own(args, other, i, h);
    }

    fn arg_type() -> (t: ArgType) {
        T::arg_type()
    }

    fn make_temp(args: &[Slot], i: usize, heap: &mut Heap) -> (r: GResult<T::Temp>) {
        T::make_temp(args, i, heap)
    }

    fn from_arg<'a>(temp: &'a mut T::Temp, heap: &Heap) -> (r: GResult<T::Output<'a>>) {
        T::from_arg(temp, heap)
    }
}

impl<T: FromArgRef> Param for (T, TagArgRef) {
    type Temp = T::Temp;

    type TempModel = T::TempModel;

    type Output<'a> = T::Output<'a>;

    type OutModel = T::OutModel;

    open spec fn takes() -> ArgType {
        T::takes()
    }

    open spec fn alone() -> bool {
        T::alone()
    }

    open spec fn temp_model(temp: T::Temp) -> T::TempModel {
        T::temp_model(temp)
    }

    open spec fn usable(temp: T::TempModel) -> bool {
        T::usable(temp)
    }

    open spec fn temp_of(args: Seq<Slot>, i: int, h: Store) -> (Store, GResult<T::TempModel>) {
        T::temp_of(args, i, h)
    }

    open spec fn arg_of(temp: T::TempModel, h: Store) -> GResult<T::OutModel> {
        T::arg_of(temp, h)
    }

    open spec fn out_model<'a>(out: T::Output<'a>) -> T::OutModel {
        T::out_model(out)
    }

    proof fn lawful_temp(args: Seq<Slot>, i: int, h: Store) {
        T::lawful_temp(args, i, h);
    }

    proof fn lawful_own(args: Seq<Slot>, other: Seq<Slot>, i: int, h: Store) {
        T::lawful_own(args, other, i, h);
    }

    fn arg_type() -> (t: ArgType) {
        T::arg_type()
    }

    fn make_temp(args: &[Slot], i: usize, heap: &mut Heap) -> (r: GResult<T::Temp>) {
        T::make_temp(args, i, heap)
    }

    fn from_arg<'a>(temp: &'a mut T::Temp, heap: &Heap) -> (r: GResult<T::Output<'a>>) {
        T::from_arg(temp, heap)
    }
}

/// The parameter types of a host function.
pub trait Params {
    /// What the parameters stand for.
    type Models;

    /// How each parameter takes its argument.
    spec fn kinds() -> Seq<ArgType>;

    /// What the arguments become, and the heap with what has been borrowed for them. First every
    /// parameter makes its temporary value, in order; then every parameter is made of its own, in
    /// order. The first failure ends this, and leaves nothing borrowed.
    spec fn prepared(args: Seq<Slot>, h: Store) -> (Store, GResult<Self::Models>);

    /// Preparing a call does nothing to the heap but to borrow from it, and not even that where it
    /// fails.
    proof fn lawful_prepared(args: Seq<Slot>, h: Store)
        ensures
            Self::prepared(args, h).0.only_borrowed(h),
            Self::prepared(args, h).1 is Err ==> Self::prepared(args, h).0 == h,
    ;

    /// Why the `i`th parameter cannot make its temporary value, if it cannot, on the heap that
    /// those before it leave.
    spec fn first_failure(args: Seq<Slot>, h: Store, i: int) -> Option<GError>;

    /// Why the `i`th parameter cannot be made of its temporary value, if it cannot, once every
    /// parameter has made its own.
    spec fn second_failure(args: Seq<Slot>, h: Store, i: int) -> Option<GError>;

    /// The first parameter that cannot make its temporary value is the reason why a call cannot be
    /// prepared. Where all can, it is the first that cannot be made of its own. The call is
    /// prepared exactly where there is neither.
    proof fn lawful_order(args: Seq<Slot>, h: Store)
        ensures
            forall|k: int|
                0 <= k < Self::kinds().len() && (forall|i: int|
                    0 <= i < k ==> (#[trigger] Self::first_failure(args, h, i)) is None) && (
                #[trigger] Self::first_failure(args, h, k)) is Some ==> Self::prepared(args, h).1
                    == Err::<Self::Models, GError>(Self::first_failure(args, h, k)->Some_0),
            forall|k: int|
                0 <= k < Self::kinds().len() && (forall|i: int|
                    0 <= i < Self::kinds().len() ==> (#[trigger] Self::first_failure(args, h, i))
                        is None) && (forall|i: int|
                    0 <= i < k ==> (#[trigger] Self::second_failure(args, h, i)) is None) && (
                #[trigger] Self::second_failure(args, h, k)) is Some ==> Self::prepared(args, h).1
                    == Err::<Self::Models, GError>(Self::second_failure(args, h, k)->Some_0),
            Self::prepared(args, h).1 is Ok <==> (forall|i: int|
                0 <= i < Self::kinds().len() ==> (#[trigger] Self::first_failure(args, h, i))
                    is None) && (forall|i: int|
                0 <= i < Self::kinds().len() ==> (#[trigger] Self::second_failure(args, h, i))
                    is None),
    ;

    /// The arguments `args` and `other` are the same to every parameter.
    spec fn alike(args: Seq<Slot>, other: Seq<Slot>) -> bool;

    /// Arguments that are the same to every parameter become the same.
    proof fn lawful_alike(args: Seq<Slot>, other: Seq<Slot>, h: Store)
        requires
            Self::alike(args, other),
        ensures
            Self::prepared(args, h) == Self::prepared(other, h),
    ;
}

/// Every parameter can make its temporary value.
pub open spec fn all_made<A: Params>(args: Seq<Slot>, h: Store) -> bool {
    forall|i: int| 0 <= i < A::kinds().len() ==> (#[trigger] A::first_failure(args, h, i)) is None
}

/// Every parameter can make its temporary value, and be made of it.
pub open spec fn all_ready<A: Params>(args: Seq<Slot>, h: Store) -> bool {
    &&& all_made::<A>(args, h)
    &&& forall|i: int|
        0 <= i < A::kinds().len() ==> (#[trigger] A::second_failure(args, h, i)) is None
}

/// Why there is no result, if there is none.
pub open spec fn failure<T>(r: GResult<T>) -> Option<GError> {
    match r {
        Ok(_) => None,
        Err(e) => Some(e),
    }
}

/// A host function whose limits can be worked out from its parameter types.
pub trait CalculateArgLimits {
    /// How each parameter takes its argument.
    spec fn params() -> Seq<ArgType> where Self: Sized;

    /// Works out the fewest and the most arguments that the function takes.
    fn calculate_arg_limits() -> (r: (usize, usize)) where Self: Sized
        requires
            sensible(Self::params()),
        ensures
            r.0 == fewest(Self::params()),
            r.1 == most(Self::params()),
    ;
}

/// A host function that the engine can call.
pub trait WrappedCall: CalculateArgLimits {
    /// The fewest and the most arguments that the function takes.
    spec fn limits(&self) -> (usize, usize);

    /// The function can be called with these arguments, on this heap.
    spec fn callable(&self, args: Seq<Slot>, h: Store) -> bool;

    /// Why a call with these arguments, on this heap, never reaches the function, if it does not.
    spec fn refuses(&self, args: Seq<Slot>, h: Store) -> Option<GError>;

    /// A call with these arguments, on the heap `h0`, may leave the heap `h1` and return `r`.
    spec fn gives(&self, args: Seq<Slot>, h0: Store, h1: Store, r: GResult<Slot>) -> bool;

    /// A call with too few or too many arguments never reaches the function. A call that never
    /// reaches it returns the reason, and leaves the heap as it was. No call leaves more borrowed
    /// than was borrowed before.
    proof fn lawful_call(&self, args: Seq<Slot>, h0: Store, h1: Store, r: GResult<Slot>)
        requires
            self.gives(args, h0, h1, r),
        ensures
            args.len() < self.limits().0 ==> self.refuses(args, h0) == Some(
                GError::TooFewArgs { received: args.len() as usize, at_least: self.limits().0 },
            ),
            self.limits().0 <= args.len() && self.limits().1 < args.len() ==> self.refuses(args, h0)
                == Some(
                GError::TooManyArgs { received: args.len() as usize, at_most: self.limits().1 },
            ),
            self.refuses(args, h0) matches Some(e) ==> h1 == h0 && r == Err::<Slot, GError>(e),
            h1.guards.len() <= h0.guards.len(),
    ;

    /// The fewest and the most arguments that the function takes.
    fn arg_limits(&self) -> (r: (usize, usize))
        ensures
            r == self.limits(),
    ;

    /// Calls the function.
    fn wrapped_call(&self, args: &[Slot], heap: &mut Heap) -> (r: GResult<Slot>)
        requires
            self.callable(args@, old(heap)@),
        ensures
            self.gives(args@, old(heap)@, final(heap)@, r),
    ;
}

/// A host function whose result can be converted to a slot.
pub trait OutputIntoVal<Ret: IntoVal> {
    /// Converts a result of the function.
    fn output_into_slot(output: Ret, heap: &mut Heap) -> (r: GResult<Slot>)
        ensures
            (final(heap)@, r) == slotted(output.to_val(old(heap)@)),
    ;
}

impl<Ret: IntoVal, F> OutputIntoVal<Ret> for F {
    fn output_into_slot(output: Ret, heap: &mut Heap) -> (r: GResult<Slot>) {
        output.into_slot(heap)
    }
}

/// A host function, with its limits.
///
/// The function takes the heap as its first parameter, and hands it back beside its result.
#[verifier::reject_recursive_types(ArgsWithTag)]
#[verifier::reject_recursive_types(Ret)]
pub struct Wrapper<ArgsWithTag, Ret, F> {
    f: F,
    arg_limits: (usize, usize),
    phantom: PhantomData<(ArgsWithTag, Ret)>,
}

impl<A, Ret, F> Wrapper<A, Ret, F> {
    /// The host function.
    pub closed spec fn function(&self) -> F {
        self.f
    }

    /// The limits that came out when the function was wrapped.
    pub closed spec fn known_limits(&self) -> (usize, usize) {
        self.arg_limits
    }

    /// The fewest and the most arguments that the function takes.
    pub fn arg_limits(&self) -> (r: (usize, usize))
        ensures
            r == self.known_limits(),
    {
        self.arg_limits
    }
}

/// Borrowing twice is still no more than borrowing.
proof fn lemma_only_borrowed(h0: Store, h1: Store, h2: Store)
    requires
        h1.only_borrowed(h0),
        h2.only_borrowed(h1),
    ensures
        h2.only_borrowed(h0),
{
}

/// Once what was borrowed is given back, nothing has changed.
proof fn lemma_released(h0: Store, h1: Store)
    requires
        h1.only_borrowed(h0),
    ensures
        h1.released(h0.guards.len() as int) == h0,
{
    assert(h1.released(h0.guards.len() as int) =~= h0);
}

/// Why a call with these arguments never reaches a function with these parameters, if it does not.
pub open spec fn refusal<A: Params>(limits: (usize, usize), args: Seq<Slot>, h: Store) -> Option<
    GError,
> {
    if args.len() < limits.0 {
        Some(GError::TooFewArgs { received: args.len() as usize, at_least: limits.0 })
    } else if args.len() > limits.1 {
        Some(GError::TooManyArgs { received: args.len() as usize, at_most: limits.1 })
    } else {
        match A::prepared(args, h).1 {
            Err(e) => Some(e),
            Ok(_) => None,
        }
    }
}

/// The limits are those that the parameters call for, and every parameter can get its argument.
pub open spec fn fitting(params: Seq<ArgType>, limits: (usize, usize)) -> bool {
    &&& sensible(params)
    &&& limits.0 == fewest(params)
    &&& limits.1 == most(params)
}

/// What a call leaves and returns, where the function has left the heap `after` and returned
/// `ret`: the result is converted, and all that was borrowed for the call is given back.
pub open spec fn concluded<Ret: IntoVal>(h0: Store, after: Store, ret: Ret) -> (
    Store,
    GResult<Slot>,
) {
    let (h, r) = slotted(ret.to_val(after));
    (h.released(h0.guards.len() as int), r)
}

/// Wraps a host function.
pub fn wrap<ArgsWithTag, Ret, F>(f: F) -> (w: Box<Wrapper<ArgsWithTag, Ret, F>>) where
    Wrapper<ArgsWithTag, Ret, F>: WrappedCall,

    requires
        sensible(Wrapper::<ArgsWithTag, Ret, F>::params()),
    ensures
        w.function() == f,
        fitting(Wrapper::<ArgsWithTag, Ret, F>::params(), w.known_limits()),
{
    let arg_limits = Wrapper::<ArgsWithTag, Ret, F>::calculate_arg_limits();
    Box::new(Wrapper { f, arg_limits, phantom: PhantomData })
}

impl Params for () {
    type Models = ();

    open spec fn kinds() -> Seq<ArgType> {
        seq![]
    }

    open spec fn prepared(args: Seq<Slot>, h: Store) -> (Store, GResult<()>) {
        (h, Ok(()))
    }

    proof fn lawful_prepared(args: Seq<Slot>, h: Store) {
    }

    open spec fn first_failure(args: Seq<Slot>, h: Store, i: int) -> Option<GError> {
        None
    }

    open spec fn second_failure(args: Seq<Slot>, h: Store, i: int) -> Option<GError> {
        None
    }

    proof fn lawful_order(args: Seq<Slot>, h: Store) {
    }

    open spec fn alike(args: Seq<Slot>, other: Seq<Slot>) -> bool {
        true
    }

    proof fn lawful_alike(args: Seq<Slot>, other: Seq<Slot>, h: Store) {
    }
}

impl<Ret, F> CalculateArgLimits for Wrapper<(), Ret, F> {
    open spec fn params() -> Seq<ArgType> {
        <() as Params>::kinds()
    }

    fn calculate_arg_limits() -> (r: (usize, usize)) {
        let params: [ArgType; 0] = [];
        assert(params@ =~= Self::params());
        arg_limits(&params).unwrap()
    }
}

impl<Ret: IntoVal, F> Wrapper<(), Ret, F> where F: Fn(Heap) -> (Heap, Ret) {
    /// The function can be called with these arguments, on this heap.
    pub open spec fn callable(&self, args: Seq<Slot>, h: Store) -> bool {
        &&& fitting(<() as Params>::kinds(), self.known_limits())
        &&& refusal::<()>(self.known_limits(), args, h) is None ==> {
            let (h1, ready) = <() as Params>::prepared(args, h);
            let models = ready->Ok_0;
            forall|before: Heap|
                before@ == h1
                    ==> #[trigger] call_requires(self.function(), (before,))
        }
    }

    /// A call with these arguments, on the heap `h0`, may leave the heap `h1` and return `r`.
    pub open spec fn gives(&self, args: Seq<Slot>, h0: Store, h1: Store, r: GResult<Slot>) -> bool {
        match refusal::<()>(self.known_limits(), args, h0) {
            Some(e) => h1 == h0 && r == Err::<Slot, GError>(e),
            None => {
                let (h, ready) = <() as Params>::prepared(args, h0);
                let models = ready->Ok_0;
                exists|before: Heap, after: Heap, ret: Ret|
                    #[trigger] call_ensures(self.function(), (before,), (after, ret))
                        && before@ == h
                        && (h1, r) == concluded(h0, after@, ret)
            },
        }
    }

    /// Calls the function.
    pub fn wrapped_call(&self, args: &[Slot], heap: &mut Heap) -> (r: GResult<Slot>)
        requires
            self.callable(args@, old(heap)@),
        ensures
            self.gives(args@, old(heap)@, final(heap)@, r),
    {
        if args.len() < self.arg_limits.0 {
            return Err(GError::TooFewArgs { received: args.len(), at_least: self.arg_limits.0 });
        }
        if args.len() > self.arg_limits.1 {
            return Err(GError::TooManyArgs { received: args.len(), at_most: self.arg_limits.1 });
        }
        let mark: usize = heap.mark();
        let mut before = Heap::new();
        std::mem::swap(&mut before, heap);
        let ghost taken = before;
        assert(call_requires(self.function(), (taken,)));
        let (after, ret) = (self.f)(before);
        assert(call_ensures(self.function(), (taken,), (after, ret)));
        *heap = after;
        let r = F::output_into_slot(ret, heap);
        heap.release(mark);
        r
    }

    /// A call within the limits, for which every parameter can be made, is one call of the
    /// function: each parameter is what its own arguments become, and the result of the call is
    /// what the function returned, converted as a value of its type.
    pub proof fn law_one_call(&self, args: Seq<Slot>, h0: Store, h1: Store, r: GResult<Slot>)
        requires
            self.gives(args, h0, h1, r),
            self.known_limits().0 <= args.len() <= self.known_limits().1,
            all_ready::<()>(args, h0),
        ensures
            ({

                exists|before: Heap, after: Heap, ret: Ret|
                    #[trigger] call_ensures(self.function(), (before,), (after, ret))
                        && before@ == h0
                        && (h1, r) == concluded(h0, after@, ret)
            }),
    {
        <() as Params>::lawful_order(args, h0);
    }

    /// A call that is refused returns the reason, and leaves the heap as it was.
    pub proof fn law_refused(&self, args: Seq<Slot>, h0: Store, h1: Store, r: GResult<Slot>)
        requires
            self.gives(args, h0, h1, r),
            refusal::<()>(self.known_limits(), args, h0) is Some,
        ensures
            h1 == h0,
            r == Err::<Slot, GError>(refusal::<()>(self.known_limits(), args, h0)->Some_0),
    {
    }

    /// A call that is refused asks nothing of the function, which is not called.
    pub proof fn law_refused_without_a_call(&self, args: Seq<Slot>, h: Store)
        requires
            fitting(<() as Params>::kinds(), self.known_limits()),
            refusal::<()>(self.known_limits(), args, h) is Some,
        ensures
            self.callable(args, h),
    {
    }

    /// Calls with arguments that are the same to every parameter are the same call.
    pub proof fn law_same_call(&self, args: Seq<Slot>, other: Seq<Slot>, h0: Store)
        requires
            <() as Params>::alike(args, other),
            self.known_limits().0 <= args.len() <= self.known_limits().1,
            self.known_limits().0 <= other.len() <= self.known_limits().1,
        ensures
            self.callable(args, h0) == self.callable(other, h0),
            forall|h1: Store, r: GResult<Slot>|
                self.gives(args, h0, h1, r) == #[trigger] self.gives(other, h0, h1, r),
    {
        <() as Params>::lawful_alike(args, other, h0);
    }
}

impl<Ret: IntoVal, F> WrappedCall for Wrapper<(), Ret, F> where
    F: Fn(Heap) -> (Heap, Ret),
 {
    open spec fn limits(&self) -> (usize, usize) {
        self.known_limits()
    }

    open spec fn callable(&self, args: Seq<Slot>, h: Store) -> bool {
        Self::callable(self, args, h)
    }

    open spec fn refuses(&self, args: Seq<Slot>, h: Store) -> Option<GError> {
        refusal::<()>(self.known_limits(), args, h)
    }

    open spec fn gives(&self, args: Seq<Slot>, h0: Store, h1: Store, r: GResult<Slot>) -> bool {
        Self::gives(self, args, h0, h1, r)
    }

    proof fn lawful_call(&self, args: Seq<Slot>, h0: Store, h1: Store, r: GResult<Slot>) {
    }

    fn arg_limits(&self) -> (r: (usize, usize))
        ensures
            r == self.known_limits(),
    {
        self.arg_limits
    }

    fn wrapped_call(&self, args: &[Slot], heap: &mut Heap) -> (r: GResult<Slot>)
        ensures
            Self::gives(self, args@, old(heap)@, final(heap)@, r),
    {
        Self::wrapped_call(self, args, heap)
    }
}

impl<P0: Param> Params for (P0,) {
    type Models = (P0::OutModel,);

    open spec fn kinds() -> Seq<ArgType> {
        seq![P0::takes()]
    }

    open spec fn prepared(args: Seq<Slot>, h: Store) -> (Store, GResult<(P0::OutModel,)>) {
        let kinds = Self::kinds();
        let t0 = P0::temp_of(args, start_of(kinds, 0) as int, h);
        if t0.1 is Err {
            (h, Err(t0.1->Err_0))
        } else {
            let h1 = t0.0;
            let a0 = P0::arg_of(t0.1->Ok_0, h1);
            if a0 is Err {
                (h, Err(a0->Err_0))
            } else {
                (h1, Ok((a0->Ok_0,)))
            }
        }
    }

    proof fn lawful_prepared(args: Seq<Slot>, h: Store) {
        let kinds = Self::kinds();
        P0::lawful_temp(args, start_of(kinds, 0) as int, h);
        let h0 = P0::temp_of(args, start_of(kinds, 0) as int, h).0;
    }

    open spec fn first_failure(args: Seq<Slot>, h: Store, i: int) -> Option<GError> {
        let kinds = Self::kinds();
        let t0 = P0::temp_of(args, start_of(kinds, 0) as int, h);
        failure(t0.1)
    }

    open spec fn second_failure(args: Seq<Slot>, h: Store, i: int) -> Option<GError> {
        let kinds = Self::kinds();
        let t0 = P0::temp_of(args, start_of(kinds, 0) as int, h);
        failure(P0::arg_of(t0.1->Ok_0, t0.0))
    }

    proof fn lawful_order(args: Seq<Slot>, h: Store) {
        let f0 = Self::first_failure(args, h, 0);
        let s0 = Self::second_failure(args, h, 0);
    }

    open spec fn alike(args: Seq<Slot>, other: Seq<Slot>) -> bool {
        let kinds = Self::kinds();
        &&& same_argument(P0::takes(), P0::alone(), args, other, start_of(kinds, 0) as int)
    }

    proof fn lawful_alike(args: Seq<Slot>, other: Seq<Slot>, h: Store) {
        let kinds = Self::kinds();
        P0::lawful_own(args, other, start_of(kinds, 0) as int, h);
    }
}

impl<P0: Param, Ret, F> CalculateArgLimits for Wrapper<(P0,), Ret, F> {
    open spec fn params() -> Seq<ArgType> {
        <(P0,) as Params>::kinds()
    }

    fn calculate_arg_limits() -> (r: (usize, usize)) {
        let params: [ArgType; 1] = [P0::arg_type()];
        assert(params@ =~= Self::params());
        arg_limits(&params).unwrap()
    }
}

impl<
    P0: Param,
    Ret: IntoVal,
    F,
> Wrapper<(P0,), Ret, F> where F: for <'a>Fn(Heap, P0::Output<'a>) -> (Heap, Ret) {
    /// The function can be called with these arguments, on this heap.
    pub open spec fn callable(&self, args: Seq<Slot>, h: Store) -> bool {
        &&& fitting(<(P0,) as Params>::kinds(), self.known_limits())
        &&& refusal::<(P0,)>(self.known_limits(), args, h) is None ==> {
            let (h1, ready) = <(P0,) as Params>::prepared(args, h);
            let models = ready->Ok_0;
            forall|before: Heap, x0|
                before@ == h1
                    && P0::out_model(x0) == models.0
                    ==> #[trigger] call_requires(self.function(), (before, x0))
        }
    }

    /// A call with these arguments, on the heap `h0`, may leave the heap `h1` and return `r`.
    pub open spec fn gives(&self, args: Seq<Slot>, h0: Store, h1: Store, r: GResult<Slot>) -> bool {
        match refusal::<(P0,)>(self.known_limits(), args, h0) {
            Some(e) => h1 == h0 && r == Err::<Slot, GError>(e),
            None => {
                let (h, ready) = <(P0,) as Params>::prepared(args, h0);
                let models = ready->Ok_0;
                exists|before: Heap, x0, after: Heap, ret: Ret|
                    #[trigger] call_ensures(self.function(), (before, x0), (after, ret))
                        && before@ == h
                        && P0::out_model(x0) == models.0
                        && (h1, r) == concluded(h0, after@, ret)
            },
        }
    }

    /// Calls the function.
    pub fn wrapped_call(&self, args: &[Slot], heap: &mut Heap) -> (r: GResult<Slot>)
        requires
            self.callable(args@, old(heap)@),
        ensures
            self.gives(args@, old(heap)@, final(heap)@, r),
    {
        if args.len() < self.arg_limits.0 {
            return Err(GError::TooFewArgs { received: args.len(), at_least: self.arg_limits.0 });
        }
        if args.len() > self.arg_limits.1 {
            return Err(GError::TooManyArgs { received: args.len(), at_most: self.arg_limits.1 });
        }
        let mark: usize = heap.mark();
        let ghost h0 = heap@;
        let mut arg_i: usize = 0;
        proof {
            reveal_with_fuel(start_of, 2);
            if P0::takes() is Normal {
                law_normal_in_range(<(P0,) as Params>::kinds(), 0, args@.len());
            }
        }
        let ghost h_0 = heap@;
        proof {
            P0::lawful_temp(args@, arg_i as int, h_0);
        }
        let mut temp_0 = match P0::make_temp(args, arg_i, heap) {
            Ok(temp) => temp,
            Err(e) => {
                proof {
                    lemma_released(h0, heap@);
                }
                heap.release(mark);
                return Err(e);
            },
        };
        proof {
            lemma_only_borrowed(h0, h_0, heap@);
        }
        let x0 = match P0::from_arg(&mut temp_0, heap) {
            Ok(x) => x,
            Err(e) => {
                proof {
                    lemma_released(h0, heap@);
                }
                heap.release(mark);
                return Err(e);
            },
        };
        let mut before = Heap::new();
        std::mem::swap(&mut before, heap);
        let ghost taken = before;
        assert(call_requires(self.function(), (taken, x0)));
        let (after, ret) = (self.f)(before, x0);
        assert(call_ensures(self.function(), (taken, x0), (after, ret)));
        *heap = after;
        let r = F::output_into_slot(ret, heap);
        heap.release(mark);
        r
    }

    /// A call within the limits, for which every parameter can be made, is one call of the
    /// function: each parameter is what its own arguments become, and the result of the call is
    /// what the function returned, converted as a value of its type.
    pub proof fn law_one_call(&self, args: Seq<Slot>, h0: Store, h1: Store, r: GResult<Slot>)
        requires
            self.gives(args, h0, h1, r),
            self.known_limits().0 <= args.len() <= self.known_limits().1,
            all_ready::<(P0,)>(args, h0),
        ensures
            ({
                let kinds = <(P0,) as Params>::kinds();
                let t0 = P0::temp_of(args, start_of(kinds, 0) as int, h0);
                exists|before: Heap, x0, after: Heap, ret: Ret|
                    #[trigger] call_ensures(self.function(), (before, x0), (after, ret))
                        && before@ == t0.0
                        && P0::arg_of(t0.1->Ok_0, t0.0) == Ok::<
                            P0::OutModel,
                            GError,
                        >(P0::out_model(x0))
                        && (h1, r) == concluded(h0, after@, ret)
            }),
    {
        <(P0,) as Params>::lawful_order(args, h0);
    }

    /// A call that is refused returns the reason, and leaves the heap as it was.
    pub proof fn law_refused(&self, args: Seq<Slot>, h0: Store, h1: Store, r: GResult<Slot>)
        requires
            self.gives(args, h0, h1, r),
            refusal::<(P0,)>(self.known_limits(), args, h0) is Some,
        ensures
            h1 == h0,
            r == Err::<Slot, GError>(refusal::<(P0,)>(self.known_limits(), args, h0)->Some_0),
    {
    }

    /// A call that is refused asks nothing of the function, which is not called.
    pub proof fn law_refused_without_a_call(&self, args: Seq<Slot>, h: Store)
        requires
            fitting(<(P0,) as Params>::kinds(), self.known_limits()),
            refusal::<(P0,)>(self.known_limits(), args, h) is Some,
        ensures
            self.callable(args, h),
    {
    }

    /// Calls with arguments that are the same to every parameter are the same call.
    pub proof fn law_same_call(&self, args: Seq<Slot>, other: Seq<Slot>, h0: Store)
        requires
            <(P0,) as Params>::alike(args, other),
            self.known_limits().0 <= args.len() <= self.known_limits().1,
            self.known_limits().0 <= other.len() <= self.known_limits().1,
        ensures
            self.callable(args, h0) == self.callable(other, h0),
            forall|h1: Store, r: GResult<Slot>|
                self.gives(args, h0, h1, r) == #[trigger] self.gives(other, h0, h1, r),
    {
        <(P0,) as Params>::lawful_alike(args, other, h0);
    }
}

impl<P0: Param, Ret: IntoVal, F> WrappedCall for Wrapper<(P0,), Ret, F> where
    F: for <'a>Fn(Heap, P0::Output<'a>) -> (Heap, Ret),
 {
    open spec fn limits(&self) -> (usize, usize) {
        self.known_limits()
    }

    open spec fn callable(&self, args: Seq<Slot>, h: Store) -> bool {
        Self::callable(self, args, h)
    }

    open spec fn refuses(&self, args: Seq<Slot>, h: Store) -> Option<GError> {
        refusal::<(P0,)>(self.known_limits(), args, h)
    }

    open spec fn gives(&self, args: Seq<Slot>, h0: Store, h1: Store, r: GResult<Slot>) -> bool {
        Self::gives(self, args, h0, h1, r)
    }

    proof fn lawful_call(&self, args: Seq<Slot>, h0: Store, h1: Store, r: GResult<Slot>) {
    }

    fn arg_limits(&self) -> (r: (usize, usize))
        ensures
            r == self.known_limits(),
    {
        self.arg_limits
    }

    fn wrapped_call(&self, args: &[Slot], heap: &mut Heap) -> (r: GResult<Slot>)
        ensures
            Self::gives(self, args@, old(heap)@, final(heap)@, r),
    {
        Self::wrapped_call(self, args, heap)
    }
}

impl<P0: Param, P1: Param> Params for (P0, P1) {
    type Models = (P0::OutModel, P1::OutModel);

    open spec fn kinds() -> Seq<ArgType> {
        seq![P0::takes(), P1::takes()]
    }

    open spec fn prepared(args: Seq<Slot>, h: Store) -> (
        Store,
        GResult<(P0::OutModel, P1::OutModel)>,
    ) {
        let kinds = Self::kinds();
        let t0 = P0::temp_of(args, start_of(kinds, 0) as int, h);
        let t1 = P1::temp_of(args, start_of(kinds, 1) as int, t0.0);
        if t0.1 is Err {
            (h, Err(t0.1->Err_0))
        } else if t1.1 is Err {
            (h, Err(t1.1->Err_0))
        } else {
            let h1 = t1.0;
            let a0 = P0::arg_of(t0.1->Ok_0, h1);
            let a1 = P1::arg_of(t1.1->Ok_0, h1);
            if a0 is Err {
                (h, Err(a0->Err_0))
            } else if a1 is Err {
                (h, Err(a1->Err_0))
            } else {
                (h1, Ok((a0->Ok_0, a1->Ok_0)))
            }
        }
    }

    proof fn lawful_prepared(args: Seq<Slot>, h: Store) {
        let kinds = Self::kinds();
        P0::lawful_temp(args, start_of(kinds, 0) as int, h);
        let h0 = P0::temp_of(args, start_of(kinds, 0) as int, h).0;
        P1::lawful_temp(args, start_of(kinds, 1) as int, h0);
        let h1 = P1::temp_of(args, start_of(kinds, 1) as int, h0).0;
        lemma_only_borrowed(h, h0, h1);
    }

    open spec fn first_failure(args: Seq<Slot>, h: Store, i: int) -> Option<GError> {
        let kinds = Self::kinds();
        let t0 = P0::temp_of(args, start_of(kinds, 0) as int, h);
        let t1 = P1::temp_of(args, start_of(kinds, 1) as int, t0.0);
        if i == 0 {
            failure(t0.1)
        } else {
            failure(t1.1)
        }
    }

    open spec fn second_failure(args: Seq<Slot>, h: Store, i: int) -> Option<GError> {
        let kinds = Self::kinds();
        let t0 = P0::temp_of(args, start_of(kinds, 0) as int, h);
        let t1 = P1::temp_of(args, start_of(kinds, 1) as int, t0.0);
        if i == 0 {
            failure(P0::arg_of(t0.1->Ok_0, t1.0))
        } else {
            failure(P1::arg_of(t1.1->Ok_0, t1.0))
        }
    }

    proof fn lawful_order(args: Seq<Slot>, h: Store) {
        let f0 = Self::first_failure(args, h, 0);
        let f1 = Self::first_failure(args, h, 1);
        let s0 = Self::second_failure(args, h, 0);
        let s1 = Self::second_failure(args, h, 1);
    }

    open spec fn alike(args: Seq<Slot>, other: Seq<Slot>) -> bool {
        let kinds = Self::kinds();
        &&& same_argument(P0::takes(), P0::alone(), args, other, start_of(kinds, 0) as int)
        &&& same_argument(P1::takes(), P1::alone(), args, other, start_of(kinds, 1) as int)
    }

    proof fn lawful_alike(args: Seq<Slot>, other: Seq<Slot>, h: Store) {
        let kinds = Self::kinds();
        P0::lawful_own(args, other, start_of(kinds, 0) as int, h);
        let h0 = P0::temp_of(args, start_of(kinds, 0) as int, h).0;
        P1::lawful_own(args, other, start_of(kinds, 1) as int, h0);
    }
}

impl<P0: Param, P1: Param, Ret, F> CalculateArgLimits for Wrapper<(P0, P1), Ret, F> {
    open spec fn params() -> Seq<ArgType> {
        <(P0, P1) as Params>::kinds()
    }

    fn calculate_arg_limits() -> (r: (usize, usize)) {
        let params: [ArgType; 2] = [P0::arg_type(), P1::arg_type()];
        assert(params@ =~= Self::params());
        arg_limits(&params).unwrap()
    }
}

impl<
    P0: Param,
    P1: Param,
    Ret: IntoVal,
    F,
> Wrapper<(P0, P1), Ret, F> where F: for <'a>Fn(
    Heap,
    P0::Output<'a>,
    P1::Output<'a>,
) -> (Heap, Ret) {
    /// The function can be called with these arguments, on this heap.
    pub open spec fn callable(&self, args: Seq<Slot>, h: Store) -> bool {
        &&& fitting(<(P0, P1) as Params>::kinds(), self.known_limits())
        &&& refusal::<(P0, P1)>(self.known_limits(), args, h) is None ==> {
            let (h1, ready) = <(P0, P1) as Params>::prepared(args, h);
            let models = ready->Ok_0;
            forall|before: Heap, x0, x1|
                before@ == h1
                    && P0::out_model(x0) == models.0
                    && P1::out_model(x1) == models.1
                    ==> #[trigger] call_requires(self.function(), (before, x0, x1))
        }
    }

    /// A call with these arguments, on the heap `h0`, may leave the heap `h1` and return `r`.
    pub open spec fn gives(&self, args: Seq<Slot>, h0: Store, h1: Store, r: GResult<Slot>) -> bool {
        match refusal::<(P0, P1)>(self.known_limits(), args, h0) {
            Some(e) => h1 == h0 && r == Err::<Slot, GError>(e),
            None => {
                let (h, ready) = <(P0, P1) as Params>::prepared(args, h0);
                let models = ready->Ok_0;
                exists|before: Heap, x0, x1, after: Heap, ret: Ret|
                    #[trigger] call_ensures(self.function(), (before, x0, x1), (after, ret))
                        && before@ == h
                        && P0::out_model(x0) == models.0
                        && P1::out_model(x1) == models.1
                        && (h1, r) == concluded(h0, after@, ret)
            },
        }
    }

    /// Calls the function.
    pub fn wrapped_call(&self, args: &[Slot], heap: &mut Heap) -> (r: GResult<Slot>)
        requires
            self.callable(args@, old(heap)@),
        ensures
            self.gives(args@, old(heap)@, final(heap)@, r),
    {
        if args.len() < self.arg_limits.0 {
            return Err(GError::TooFewArgs { received: args.len(), at_least: self.arg_limits.0 });
        }
        if args.len() > self.arg_limits.1 {
            return Err(GError::TooManyArgs { received: args.len(), at_most: self.arg_limits.1 });
        }
        let mark: usize = heap.mark();
        let ghost h0 = heap@;
        let mut arg_i: usize = 0;
        proof {
            reveal_with_fuel(start_of, 3);
            if P0::takes() is Normal {
                law_normal_in_range(<(P0, P1) as Params>::kinds(), 0, args@.len());
            }
            if P1::takes() is Normal {
                law_normal_in_range(<(P0, P1) as Params>::kinds(), 1, args@.len());
            }
        }
        let ghost h_0 = heap@;
        proof {
            P0::lawful_temp(args@, arg_i as int, h_0);
        }
        let mut temp_0 = match P0::make_temp(args, arg_i, heap) {
            Ok(temp) => temp,
            Err(e) => {
                proof {
                    lemma_released(h0, heap@);
                }
                heap.release(mark);
                return Err(e);
            },
        };
        proof {
            lemma_only_borrowed(h0, h_0, heap@);
        }
        if P0::arg_type() != ArgType::RGlobal {
            arg_i = arg_i + 1;
        }
        let ghost h_1 = heap@;
        proof {
            P1::lawful_temp(args@, arg_i as int, h_1);
        }
        let mut temp_1 = match P1::make_temp(args, arg_i, heap) {
            Ok(temp) => temp,
            Err(e) => {
                proof {
                    lemma_released(h0, heap@);
                }
                heap.release(mark);
                return Err(e);
            },
        };
        proof {
            lemma_only_borrowed(h0, h_1, heap@);
        }
        let x0 = match P0::from_arg(&mut temp_0, heap) {
            Ok(x) => x,
            Err(e) => {
                proof {
                    lemma_released(h0, heap@);
                }
                heap.release(mark);
                return Err(e);
            },
        };
        let x1 = match P1::from_arg(&mut temp_1, heap) {
            Ok(x) => x,
            Err(e) => {
                proof {
                    lemma_released(h0, heap@);
                }
                heap.release(mark);
                return Err(e);
            },
        };
        let mut before = Heap::new();
        std::mem::swap(&mut before, heap);
        let ghost taken = before;
        assert(call_requires(self.function(), (taken, x0, x1)));
        let (after, ret) = (self.f)(before, x0, x1);
        assert(call_ensures(self.function(), (taken, x0, x1), (after, ret)));
        *heap = after;
        let r = F::output_into_slot(ret, heap);
        heap.release(mark);
        r
    }

    /// A call within the limits, for which every parameter can be made, is one call of the
    /// function: each parameter is what its own arguments become, and the result of the call is
    /// what the function returned, converted as a value of its type.
    pub proof fn law_one_call(&self, args: Seq<Slot>, h0: Store, h1: Store, r: GResult<Slot>)
        requires
            self.gives(args, h0, h1, r),
            self.known_limits().0 <= args.len() <= self.known_limits().1,
            all_ready::<(P0, P1)>(args, h0),
        ensures
            ({
                let kinds = <(P0, P1) as Params>::kinds();
                let t0 = P0::temp_of(args, start_of(kinds, 0) as int, h0);
                let t1 = P1::temp_of(args, start_of(kinds, 1) as int, t0.0);
                exists|before: Heap, x0, x1, after: Heap, ret: Ret|
                    #[trigger] call_ensures(self.function(), (before, x0, x1), (after, ret))
                        && before@ == t1.0
                        && P0::arg_of(t0.1->Ok_0, t1.0) == Ok::<
                            P0::OutModel,
                            GError,
                        >(P0::out_model(x0))
                        && P1::arg_of(t1.1->Ok_0, t1.0) == Ok::<
                            P1::OutModel,
                            GError,
                        >(P1::out_model(x1))
                        && (h1, r) == concluded(h0, after@, ret)
            }),
    {
        <(P0, P1) as Params>::lawful_order(args, h0);
    }

    /// A call that is refused returns the reason, and leaves the heap as it was.
    pub proof fn law_refused(&self, args: Seq<Slot>, h0: Store, h1: Store, r: GResult<Slot>)
        requires
            self.gives(args, h0, h1, r),
            refusal::<(P0, P1)>(self.known_limits(), args, h0) is Some,
        ensures
            h1 == h0,
            r == Err::<Slot, GError>(refusal::<(P0, P1)>(self.known_limits(), args, h0)->Some_0),
    {
    }

    /// A call that is refused asks nothing of the function, which is not called.
    pub proof fn law_refused_without_a_call(&self, args: Seq<Slot>, h: Store)
        requires
            fitting(<(P0, P1) as Params>::kinds(), self.known_limits()),
            refusal::<(P0, P1)>(self.known_limits(), args, h) is Some,
        ensures
            self.callable(args, h),
    {
    }

    /// Calls with arguments that are the same to every parameter are the same call.
    pub proof fn law_same_call(&self, args: Seq<Slot>, other: Seq<Slot>, h0: Store)
        requires
            <(P0, P1) as Params>::alike(args, other),
            self.known_limits().0 <= args.len() <= self.known_limits().1,
            self.known_limits().0 <= other.len() <= self.known_limits().1,
        ensures
            self.callable(args, h0) == self.callable(other, h0),
            forall|h1: Store, r: GResult<Slot>|
                self.gives(args, h0, h1, r) == #[trigger] self.gives(other, h0, h1, r),
    {
        <(P0, P1) as Params>::lawful_alike(args, other, h0);
    }
}

impl<P0: Param, P1: Param, Ret: IntoVal, F> WrappedCall for Wrapper<(P0, P1), Ret, F> where
    F: for <'a>Fn(Heap, P0::Output<'a>, P1::Output<'a>) -> (Heap, Ret),
 {
    open spec fn limits(&self) -> (usize, usize) {
        self.known_limits()
    }

    open spec fn callable(&self, args: Seq<Slot>, h: Store) -> bool {
        Self::callable(self, args, h)
    }

    open spec fn refuses(&self, args: Seq<Slot>, h: Store) -> Option<GError> {
        refusal::<(P0, P1)>(self.known_limits(), args, h)
    }

    open spec fn gives(&self, args: Seq<Slot>, h0: Store, h1: Store, r: GResult<Slot>) -> bool {
        Self::gives(self, args, h0, h1, r)
    }

    proof fn lawful_call(&self, args: Seq<Slot>, h0: Store, h1: Store, r: GResult<Slot>) {
    }

    fn arg_limits(&self) -> (r: (usize, usize))
        ensures
            r == self.known_limits(),
    {
        self.arg_limits
    }

    fn wrapped_call(&self, args: &[Slot], heap: &mut Heap) -> (r: GResult<Slot>)
        ensures
            Self::gives(self, args@, old(heap)@, final(heap)@, r),
    {
        Self::wrapped_call(self, args, heap)
    }
}

impl<P0: Param, P1: Param, P2: Param> Params for (P0, P1, P2) {
    type Models = (P0::OutModel, P1::OutModel, P2::OutModel);

    open spec fn kinds() -> Seq<ArgType> {
        seq![P0::takes(), P1::takes(), P2::takes()]
    }

    open spec fn prepared(args: Seq<Slot>, h: Store) -> (
        Store,
        GResult<(P0::OutModel, P1::OutModel, P2::OutModel)>,
    ) {
        let kinds = Self::kinds();
        let t0 = P0::temp_of(args, start_of(kinds, 0) as int, h);
        let t1 = P1::temp_of(args, start_of(kinds, 1) as int, t0.0);
        let t2 = P2::temp_of(args, start_of(kinds, 2) as int, t1.0);
        if t0.1 is Err {
            (h, Err(t0.1->Err_0))
        } else if t1.1 is Err {
            (h, Err(t1.1->Err_0))
        } else if t2.1 is Err {
            (h, Err(t2.1->Err_0))
        } else {
            let h1 = t2.0;
            let a0 = P0::arg_of(t0.1->Ok_0, h1);
            let a1 = P1::arg_of(t1.1->Ok_0, h1);
            let a2 = P2::arg_of(t2.1->Ok_0, h1);
            if a0 is Err {
                (h, Err(a0->Err_0))
            } else if a1 is Err {
                (h, Err(a1->Err_0))
            } else if a2 is Err {
                (h, Err(a2->Err_0))
            } else {
                (h1, Ok((a0->Ok_0, a1->Ok_0, a2->Ok_0)))
            }
        }
    }

    proof fn lawful_prepared(args: Seq<Slot>, h: Store) {
        let kinds = Self::kinds();
        P0::lawful_temp(args, start_of(kinds, 0) as int, h);
        let h0 = P0::temp_of(args, start_of(kinds, 0) as int, h).0;
        P1::lawful_temp(args, start_of(kinds, 1) as int, h0);
        let h1 = P1::temp_of(args, start_of(kinds, 1) as int, h0).0;
        lemma_only_borrowed(h, h0, h1);
        P2::lawful_temp(args, start_of(kinds, 2) as int, h1);
        let h2 = P2::temp_of(args, start_of(kinds, 2) as int, h1).0;
        lemma_only_borrowed(h, h1, h2);
    }

    open spec fn first_failure(args: Seq<Slot>, h: Store, i: int) -> Option<GError> {
        let kinds = Self::kinds();
        let t0 = P0::temp_of(args, start_of(kinds, 0) as int, h);
        let t1 = P1::temp_of(args, start_of(kinds, 1) as int, t0.0);
        let t2 = P2::temp_of(args, start_of(kinds, 2) as int, t1.0);
        if i == 0 {
            failure(t0.1)
        } else if i == 1 {
            failure(t1.1)
        } else {
            failure(t2.1)
        }
    }

    open spec fn second_failure(args: Seq<Slot>, h: Store, i: int) -> Option<GError> {
        let kinds = Self::kinds();
        let t0 = P0::temp_of(args, start_of(kinds, 0) as int, h);
        let t1 = P1::temp_of(args, start_of(kinds, 1) as int, t0.0);
        let t2 = P2::temp_of(args, start_of(kinds, 2) as int, t1.0);
        if i == 0 {
            failure(P0::arg_of(t0.1->Ok_0, t2.0))
        } else if i == 1 {
            failure(P1::arg_of(t1.1->Ok_0, t2.0))
        } else {
            failure(P2::arg_of(t2.1->Ok_0, t2.0))
        }
    }

    proof fn lawful_order(args: Seq<Slot>, h: Store) {
        let f0 = Self::first_failure(args, h, 0);
        let f1 = Self::first_failure(args, h, 1);
        let f2 = Self::first_failure(args, h, 2);
        let s0 = Self::second_failure(args, h, 0);
        let s1 = Self::second_failure(args, h, 1);
        let s2 = Self::second_failure(args, h, 2);
    }

    open spec fn alike(args: Seq<Slot>, other: Seq<Slot>) -> bool {
        let kinds = Self::kinds();
        &&& same_argument(P0::takes(), P0::alone(), args, other, start_of(kinds, 0) as int)
        &&& same_argument(P1::takes(), P1::alone(), args, other, start_of(kinds, 1) as int)
        &&& same_argument(P2::takes(), P2::alone(), args, other, start_of(kinds, 2) as int)
    }

    proof fn lawful_alike(args: Seq<Slot>, other: Seq<Slot>, h: Store) {
        let kinds = Self::kinds();
        P0::lawful_own(args, other, start_of(kinds, 0) as int, h);
        let h0 = P0::temp_of(args, start_of(kinds, 0) as int, h).0;
        P1::lawful_own(args, other, start_of(kinds, 1) as int, h0);
        let h1 = P1::temp_of(args, start_of(kinds, 1) as int, h0).0;
        P2::lawful_own(args, other, start_of(kinds, 2) as int, h1);
    }
}

impl<P0: Param, P1: Param, P2: Param, Ret, F> CalculateArgLimits for Wrapper<(P0, P1, P2), Ret, F> {
    open spec fn params() -> Seq<ArgType> {
        <(P0, P1, P2) as Params>::kinds()
    }

    fn calculate_arg_limits() -> (r: (usize, usize)) {
        let params: [ArgType; 3] = [P0::arg_type(), P1::arg_type(), P2::arg_type()];
        assert(params@ =~= Self::params());
        arg_limits(&params).unwrap()
    }
}

impl<
    P0: Param,
    P1: Param,
    P2: Param,
    Ret: IntoVal,
    F,
> Wrapper<(P0, P1, P2), Ret, F> where F: for <'a>Fn(
    Heap,
    P0::Output<'a>,
    P1::Output<'a>,
    P2::Output<'a>,
) -> (Heap, Ret) {
    /// The function can be called with these arguments, on this heap.
    pub open spec fn callable(&self, args: Seq<Slot>, h: Store) -> bool {
        &&& fitting(<(P0, P1, P2) as Params>::kinds(), self.known_limits())
        &&& refusal::<(P0, P1, P2)>(self.known_limits(), args, h) is None ==> {
            let (h1, ready) = <(P0, P1, P2) as Params>::prepared(args, h);
            let models = ready->Ok_0;
            forall|before: Heap, x0, x1, x2|
                before@ == h1
                    && P0::out_model(x0) == models.0
                    && P1::out_model(x1) == models.1
                    && P2::out_model(x2) == models.2
                    ==> #[trigger] call_requires(self.function(), (before, x0, x1, x2))
        }
    }

    /// A call with these arguments, on the heap `h0`, may leave the heap `h1` and return `r`.
    pub open spec fn gives(&self, args: Seq<Slot>, h0: Store, h1: Store, r: GResult<Slot>) -> bool {
        match refusal::<(P0, P1, P2)>(self.known_limits(), args, h0) {
            Some(e) => h1 == h0 && r == Err::<Slot, GError>(e),
            None => {
                let (h, ready) = <(P0, P1, P2) as Params>::prepared(args, h0);
                let models = ready->Ok_0;
                exists|before: Heap, x0, x1, x2, after: Heap, ret: Ret|
                    #[trigger] call_ensures(self.function(), (before, x0, x1, x2), (after, ret))
                        && before@ == h
                        && P0::out_model(x0) == models.0
                        && P1::out_model(x1) == models.1
                        && P2::out_model(x2) == models.2
                        && (h1, r) == concluded(h0, after@, ret)
            },
        }
    }

    /// Calls the function.
    pub fn wrapped_call(&self, args: &[Slot], heap: &mut Heap) -> (r: GResult<Slot>)
        requires
            self.callable(args@, old(heap)@),
        ensures
            self.gives(args@, old(heap)@, final(heap)@, r),
    {
        if args.len() < self.arg_limits.0 {
            return Err(GError::TooFewArgs { received: args.len(), at_least: self.arg_limits.0 });
        }
        if args.len() > self.arg_limits.1 {
            return Err(GError::TooManyArgs { received: args.len(), at_most: self.arg_limits.1 });
        }
        let mark: usize = heap.mark();
        let ghost h0 = heap@;
        let mut arg_i: usize = 0;
        proof {
            reveal_with_fuel(start_of, 4);
            if P0::takes() is Normal {
                law_normal_in_range(<(P0, P1, P2) as Params>::kinds(), 0, args@.len());
            }
            if P1::takes() is Normal {
                law_normal_in_range(<(P0, P1, P2) as Params>::kinds(), 1, args@.len());
            }
            if P2::takes() is Normal {
                law_normal_in_range(<(P0, P1, P2) as Params>::kinds(), 2, args@.len());
            }
        }
        let ghost h_0 = heap@;
        proof {
            P0::lawful_temp(args@, arg_i as int, h_0);
        }
        let mut temp_0 = match P0::make_temp(args, arg_i, heap) {
            Ok(temp) => temp,
            Err(e) => {
                proof {
                    lemma_released(h0, heap@);
                }
                heap.release(mark);
                return Err(e);
            },
        };
        proof {
            lemma_only_borrowed(h0, h_0, heap@);
        }
        if P0::arg_type() != ArgType::RGlobal {
            arg_i = arg_i + 1;
        }
        let ghost h_1 = heap@;
        proof {
            P1::lawful_temp(args@, arg_i as int, h_1);
        }
        let mut temp_1 = match P1::make_temp(args, arg_i, heap) {
            Ok(temp) => temp,
            Err(e) => {
                proof {
                    lemma_released(h0, heap@);
                }
                heap.release(mark);
                return Err(e);
            },
        };
        proof {
            lemma_only_borrowed(h0, h_1, heap@);
        }
        if P1::arg_type() != ArgType::RGlobal {
            arg_i = arg_i + 1;
        }
        let ghost h_2 = heap@;
        proof {
            P2::lawful_temp(args@, arg_i as int, h_2);
        }
        let mut temp_2 = match P2::make_temp(args, arg_i, heap) {
            Ok(temp) => temp,
            Err(e) => {
                proof {
                    lemma_released(h0, heap@);
                }
                heap.release(mark);
                return Err(e);
            },
        };
        proof {
            lemma_only_borrowed(h0, h_2, heap@);
        }
        let x0 = match P0::from_arg(&mut temp_0, heap) {
            Ok(x) => x,
            Err(e) => {
                proof {
                    lemma_released(h0, heap@);
                }
                heap.release(mark);
                return Err(e);
            },
        };
        let x1 = match P1::from_arg(&mut temp_1, heap) {
            Ok(x) => x,
            Err(e) => {
                proof {
                    lemma_released(h0, heap@);
                }
                heap.release(mark);
                return Err(e);
            },
        };
        let x2 = match P2::from_arg(&mut temp_2, heap) {
            Ok(x) => x,
            Err(e) => {
                proof {
                    lemma_released(h0, heap@);
                }
                heap.release(mark);
                return Err(e);
            },
        };
        let mut before = Heap::new();
        std::mem::swap(&mut before, heap);
        let ghost taken = before;
        assert(call_requires(self.function(), (taken, x0, x1, x2)));
        let (after, ret) = (self.f)(before, x0, x1, x2);
        assert(call_ensures(self.function(), (taken, x0, x1, x2), (after, ret)));
        *heap = after;
        let r = F::output_into_slot(ret, heap);
        heap.release(mark);
        r
    }

    /// A call within the limits, for which every parameter can be made, is one call of the
    /// function: each parameter is what its own arguments become, and the result of the call is
    /// what the function returned, converted as a value of its type.
    pub proof fn law_one_call(&self, args: Seq<Slot>, h0: Store, h1: Store, r: GResult<Slot>)
        requires
            self.gives(args, h0, h1, r),
            self.known_limits().0 <= args.len() <= self.known_limits().1,
            all_ready::<(P0, P1, P2)>(args, h0),
        ensures
            ({
                let kinds = <(P0, P1, P2) as Params>::kinds();
                let t0 = P0::temp_of(args, start_of(kinds, 0) as int, h0);
                let t1 = P1::temp_of(args, start_of(kinds, 1) as int, t0.0);
                let t2 = P2::temp_of(args, start_of(kinds, 2) as int, t1.0);
                exists|before: Heap, x0, x1, x2, after: Heap, ret: Ret|
                    #[trigger] call_ensures(self.function(), (before, x0, x1, x2), (after, ret))
                        && before@ == t2.0
                        && P0::arg_of(t0.1->Ok_0, t2.0) == Ok::<
                            P0::OutModel,
                            GError,
                        >(P0::out_model(x0))
                        && P1::arg_of(t1.1->Ok_0, t2.0) == Ok::<
                            P1::OutModel,
                            GError,
                        >(P1::out_model(x1))
                        && P2::arg_of(t2.1->Ok_0, t2.0) == Ok::<
                            P2::OutModel,
                            GError,
                        >(P2::out_model(x2))
                        && (h1, r) == concluded(h0, after@, ret)
            }),
    {
        <(P0, P1, P2) as Params>::lawful_order(args, h0);
    }

    /// A call that is refused returns the reason, and leaves the heap as it was.
    pub proof fn law_refused(&self, args: Seq<Slot>, h0: Store, h1: Store, r: GResult<Slot>)
        requires
            self.gives(args, h0, h1, r),
            refusal::<(P0, P1, P2)>(self.known_limits(), args, h0) is Some,
        ensures
            h1 == h0,
            r == Err::<Slot, GError>(
                refusal::<(P0, P1, P2)>(self.known_limits(), args, h0)->Some_0,
            ),
    {
    }

    /// A call that is refused asks nothing of the function, which is not called.
    pub proof fn law_refused_without_a_call(&self, args: Seq<Slot>, h: Store)
        requires
            fitting(<(P0, P1, P2) as Params>::kinds(), self.known_limits()),
            refusal::<(P0, P1, P2)>(self.known_limits(), args, h) is Some,
        ensures
            self.callable(args, h),
    {
    }

    /// Calls with arguments that are the same to every parameter are the same call.
    pub proof fn law_same_call(&self, args: Seq<Slot>, other: Seq<Slot>, h0: Store)
        requires
            <(P0, P1, P2) as Params>::alike(args, other),
            self.known_limits().0 <= args.len() <= self.known_limits().1,
            self.known_limits().0 <= other.len() <= self.known_limits().1,
        ensures
            self.callable(args, h0) == self.callable(other, h0),
            forall|h1: Store, r: GResult<Slot>|
                self.gives(args, h0, h1, r) == #[trigger] self.gives(other, h0, h1, r),
    {
        <(P0, P1, P2) as Params>::lawful_alike(args, other, h0);
    }
}

impl<
    P0: Param,
    P1: Param,
    P2: Param,
    Ret: IntoVal,
    F,
> WrappedCall for Wrapper<(P0, P1, P2), Ret, F> where
    F: for <'a>Fn(Heap, P0::Output<'a>, P1::Output<'a>, P2::Output<'a>) -> (Heap, Ret),
 {
    open spec fn limits(&self) -> (usize, usize) {
        self.known_limits()
    }

    open spec fn callable(&self, args: Seq<Slot>, h: Store) -> bool {
        Self::callable(self, args, h)
    }

    open spec fn refuses(&self, args: Seq<Slot>, h: Store) -> Option<GError> {
        refusal::<(P0, P1, P2)>(self.known_limits(), args, h)
    }

    open spec fn gives(&self, args: Seq<Slot>, h0: Store, h1: Store, r: GResult<Slot>) -> bool {
        Self::gives(self, args, h0, h1, r)
    }

    proof fn lawful_call(&self, args: Seq<Slot>, h0: Store, h1: Store, r: GResult<Slot>) {
    }

    fn arg_limits(&self) -> (r: (usize, usize))
        ensures
            r == self.known_limits(),
    {
        self.arg_limits
    }

    fn wrapped_call(&self, args: &[Slot], heap: &mut Heap) -> (r: GResult<Slot>)
        ensures
            Self::gives(self, args@, old(heap)@, final(heap)@, r),
    {
        Self::wrapped_call(self, args, heap)
    }
}

impl<P0: Param, P1: Param, P2: Param, P3: Param> Params for (P0, P1, P2, P3) {
    type Models = (P0::OutModel, P1::OutModel, P2::OutModel, P3::OutModel);

    open spec fn kinds() -> Seq<ArgType> {
        seq![P0::takes(), P1::takes(), P2::takes(), P3::takes()]
    }

    open spec fn prepared(args: Seq<Slot>, h: Store) -> (
        Store,
        GResult<(P0::OutModel, P1::OutModel, P2::OutModel, P3::OutModel)>,
    ) {
        let kinds = Self::kinds();
        let t0 = P0::temp_of(args, start_of(kinds, 0) as int, h);
        let t1 = P1::temp_of(args, start_of(kinds, 1) as int, t0.0);
        let t2 = P2::temp_of(args, start_of(kinds, 2) as int, t1.0);
        let t3 = P3::temp_of(args, start_of(kinds, 3) as int, t2.0);
        if t0.1 is Err {
            (h, Err(t0.1->Err_0))
        } else if t1.1 is Err {
            (h, Err(t1.1->Err_0))
        } else if t2.1 is Err {
            (h, Err(t2.1->Err_0))
        } else if t3.1 is Err {
            (h, Err(t3.1->Err_0))
        } else {
            let h1 = t3.0;
            let a0 = P0::arg_of(t0.1->Ok_0, h1);
            let a1 = P1::arg_of(t1.1->Ok_0, h1);
            let a2 = P2::arg_of(t2.1->Ok_0, h1);
            let a3 = P3::arg_of(t3.1->Ok_0, h1);
            if a0 is Err {
                (h, Err(a0->Err_0))
            } else if a1 is Err {
                (h, Err(a1->Err_0))
            } else if a2 is Err {
                (h, Err(a2->Err_0))
            } else if a3 is Err {
                (h, Err(a3->Err_0))
            } else {
                (h1, Ok((a0->Ok_0, a1->Ok_0, a2->Ok_0, a3->Ok_0)))
            }
        }
    }

    proof fn lawful_prepared(args: Seq<Slot>, h: Store) {
        let kinds = Self::kinds();
        P0::lawful_temp(args, start_of(kinds, 0) as int, h);
        let h0 = P0::temp_of(args, start_of(kinds, 0) as int, h).0;
        P1::lawful_temp(args, start_of(kinds, 1) as int, h0);
        let h1 = P1::temp_of(args, start_of(kinds, 1) as int, h0).0;
        lemma_only_borrowed(h, h0, h1);
        P2::lawful_temp(args, start_of(kinds, 2) as int, h1);
        let h2 = P2::temp_of(args, start_of(kinds, 2) as int, h1).0;
        lemma_only_borrowed(h, h1, h2);
        P3::lawful_temp(args, start_of(kinds, 3) as int, h2);
        let h3 = P3::temp_of(args, start_of(kinds, 3) as int, h2).0;
        lemma_only_borrowed(h, h2, h3);
    }

    open spec fn first_failure(args: Seq<Slot>, h: Store, i: int) -> Option<GError> {
        let kinds = Self::kinds();
        let t0 = P0::temp_of(args, start_of(kinds, 0) as int, h);
        let t1 = P1::temp_of(args, start_of(kinds, 1) as int, t0.0);
        let t2 = P2::temp_of(args, start_of(kinds, 2) as int, t1.0);
        let t3 = P3::temp_of(args, start_of(kinds, 3) as int, t2.0);
        if i == 0 {
            failure(t0.1)
        } else if i == 1 {
            failure(t1.1)
        } else if i == 2 {
            failure(t2.1)
        } else {
            failure(t3.1)
        }
    }

    open spec fn second_failure(args: Seq<Slot>, h: Store, i: int) -> Option<GError> {
        let kinds = Self::kinds();
        let t0 = P0::temp_of(args, start_of(kinds, 0) as int, h);
        let t1 = P1::temp_of(args, start_of(kinds, 1) as int, t0.0);
        let t2 = P2::temp_of(args, start_of(kinds, 2) as int, t1.0);
        let t3 = P3::temp_of(args, start_of(kinds, 3) as int, t2.0);
        if i == 0 {
            failure(P0::arg_of(t0.1->Ok_0, t3.0))
        } else if i == 1 {
            failure(P1::arg_of(t1.1->Ok_0, t3.0))
        } else if i == 2 {
            failure(P2::arg_of(t2.1->Ok_0, t3.0))
        } else {
            failure(P3::arg_of(t3.1->Ok_0, t3.0))
        }
    }

    proof fn lawful_order(args: Seq<Slot>, h: Store) {
        let f0 = Self::first_failure(args, h, 0);
        let f1 = Self::first_failure(args, h, 1);
        let f2 = Self::first_failure(args, h, 2);
        let f3 = Self::first_failure(args, h, 3);
        let s0 = Self::second_failure(args, h, 0);
        let s1 = Self::second_failure(args, h, 1);
        let s2 = Self::second_failure(args, h, 2);
        let s3 = Self::second_failure(args, h, 3);
    }

    open spec fn alike(args: Seq<Slot>, other: Seq<Slot>) -> bool {
        let kinds = Self::kinds();
        &&& same_argument(P0::takes(), P0::alone(), args, other, start_of(kinds, 0) as int)
        &&& same_argument(P1::takes(), P1::alone(), args, other, start_of(kinds, 1) as int)
        &&& same_argument(P2::takes(), P2::alone(), args, other, start_of(kinds, 2) as int)
        &&& same_argument(P3::takes(), P3::alone(), args, other, start_of(kinds, 3) as int)
    }

    proof fn lawful_alike(args: Seq<Slot>, other: Seq<Slot>, h: Store) {
        let kinds = Self::kinds();
        P0::lawful_own(args, other, start_of(kinds, 0) as int, h);
        let h0 = P0::temp_of(args, start_of(kinds, 0) as int, h).0;
        P1::lawful_own(args, other, start_of(kinds, 1) as int, h0);
        let h1 = P1::temp_of(args, start_of(kinds, 1) as int, h0).0;
        P2::lawful_own(args, other, start_of(kinds, 2) as int, h1);
        let h2 = P2::temp_of(args, start_of(kinds, 2) as int, h1).0;
        P3::lawful_own(args, other, start_of(kinds, 3) as int, h2);
    }
}

impl<
    P0: Param,
    P1: Param,
    P2: Param,
    P3: Param,
    Ret,
    F,
> CalculateArgLimits for Wrapper<(P0, P1, P2, P3), Ret, F> {
    open spec fn params() -> Seq<ArgType> {
        <(P0, P1, P2, P3) as Params>::kinds()
    }

    fn calculate_arg_limits() -> (r: (usize, usize)) {
        let params: [ArgType; 4] = [P0::arg_type(), P1::arg_type(), P2::arg_type(), P3::arg_type()];
        assert(params@ =~= Self::params());
        arg_limits(&params).unwrap()
    }
}

impl<
    P0: Param,
    P1: Param,
    P2: Param,
    P3: Param,
    Ret: IntoVal,
    F,
> Wrapper<(P0, P1, P2, P3), Ret, F> where F: for <'a>Fn(
    Heap,
    P0::Output<'a>,
    P1::Output<'a>,
    P2::Output<'a>,
    P3::Output<'a>,
) -> (Heap, Ret) {
    /// The function can be called with these arguments, on this heap.
    pub open spec fn callable(&self, args: Seq<Slot>, h: Store) -> bool {
        &&& fitting(<(P0, P1, P2, P3) as Params>::kinds(), self.known_limits())
        &&& refusal::<(P0, P1, P2, P3)>(self.known_limits(), args, h) is None ==> {
            let (h1, ready) = <(P0, P1, P2, P3) as Params>::prepared(args, h);
            let models = ready->Ok_0;
            forall|before: Heap, x0, x1, x2, x3|
                before@ == h1
                    && P0::out_model(x0) == models.0
                    && P1::out_model(x1) == models.1
                    && P2::out_model(x2) == models.2
                    && P3::out_model(x3) == models.3
                    ==> #[trigger] call_requires(self.function(), (before, x0, x1, x2, x3))
        }
    }

    /// A call with these arguments, on the heap `h0`, may leave the heap `h1` and return `r`.
    pub open spec fn gives(&self, args: Seq<Slot>, h0: Store, h1: Store, r: GResult<Slot>) -> bool {
        match refusal::<(P0, P1, P2, P3)>(self.known_limits(), args, h0) {
            Some(e) => h1 == h0 && r == Err::<Slot, GError>(e),
            None => {
                let (h, ready) = <(P0, P1, P2, P3) as Params>::prepared(args, h0);
                let models = ready->Ok_0;
                exists|before: Heap, x0, x1, x2, x3, after: Heap, ret: Ret|
                    #[trigger] call_ensures(self.function(), (before, x0, x1, x2, x3), (after, ret))
                        && before@ == h
                        && P0::out_model(x0) == models.0
                        && P1::out_model(x1) == models.1
                        && P2::out_model(x2) == models.2
                        && P3::out_model(x3) == models.3
                        && (h1, r) == concluded(h0, after@, ret)
            },
        }
    }

    /// Calls the function.
    pub fn wrapped_call(&self, args: &[Slot], heap: &mut Heap) -> (r: GResult<Slot>)
        requires
            self.callable(args@, old(heap)@),
        ensures
            self.gives(args@, old(heap)@, final(heap)@, r),
    {
        if args.len() < self.arg_limits.0 {
            return Err(GError::TooFewArgs { received: args.len(), at_least: self.arg_limits.0 });
        }
        if args.len() > self.arg_limits.1 {
            return Err(GError::TooManyArgs { received: args.len(), at_most: self.arg_limits.1 });
        }
        let mark: usize = heap.mark();
        let ghost h0 = heap@;
        let mut arg_i: usize = 0;
        proof {
            reveal_with_fuel(start_of, 5);
            if P0::takes() is Normal {
                law_normal_in_range(<(P0, P1, P2, P3) as Params>::kinds(), 0, args@.len());
            }
            if P1::takes() is Normal {
                law_normal_in_range(<(P0, P1, P2, P3) as Params>::kinds(), 1, args@.len());
            }
            if P2::takes() is Normal {
                law_normal_in_range(<(P0, P1, P2, P3) as Params>::kinds(), 2, args@.len());
            }
            if P3::takes() is Normal {
                law_normal_in_range(<(P0, P1, P2, P3) as Params>::kinds(), 3, args@.len());
            }
        }
        let ghost h_0 = heap@;
        proof {
            P0::lawful_temp(args@, arg_i as int, h_0);
        }
        let mut temp_0 = match P0::make_temp(args, arg_i, heap) {
            Ok(temp) => temp,
            Err(e) => {
                proof {
                    lemma_released(h0, heap@);
                }
                heap.release(mark);
                return Err(e);
            },
        };
        proof {
            lemma_only_borrowed(h0, h_0, heap@);
        }
        if P0::arg_type() != ArgType::RGlobal {
            arg_i = arg_i + 1;
        }
        let ghost h_1 = heap@;
        proof {
            P1::lawful_temp(args@, arg_i as int, h_1);
        }
        let mut temp_1 = match P1::make_temp(args, arg_i, heap) {
            Ok(temp) => temp,
            Err(e) => {
                proof {
                    lemma_released(h0, heap@);
                }
                heap.release(mark);
                return Err(e);
            },
        };
        proof {
            lemma_only_borrowed(h0, h_1, heap@);
        }
        if P1::arg_type() != ArgType::RGlobal {
            arg_i = arg_i + 1;
        }
        let ghost h_2 = heap@;
        proof {
            P2::lawful_temp(args@, arg_i as int, h_2);
        }
        let mut temp_2 = match P2::make_temp(args, arg_i, heap) {
            Ok(temp) => temp,
            Err(e) => {
                proof {
                    lemma_released(h0, heap@);
                }
                heap.release(mark);
                return Err(e);
            },
        };
        proof {
            lemma_only_borrowed(h0, h_2, heap@);
        }
        if P2::arg_type() != ArgType::RGlobal {
            arg_i = arg_i + 1;
        }
        let ghost h_3 = heap@;
        proof {
            P3::lawful_temp(args@, arg_i as int, h_3);
        }
        let mut temp_3 = match P3::make_temp(args, arg_i, heap) {
            Ok(temp) => temp,
            Err(e) => {
                proof {
                    lemma_released(h0, heap@);
                }
                heap.release(mark);
                return Err(e);
            },
        };
        proof {
            lemma_only_borrowed(h0, h_3, heap@);
        }
        let x0 = match P0::from_arg(&mut temp_0, heap) {
            Ok(x) => x,
            Err(e) => {
                proof {
                    lemma_released(h0, heap@);
                }
                heap.release(mark);
                return Err(e);
            },
        };
        let x1 = match P1::from_arg(&mut temp_1, heap) {
            Ok(x) => x,
            Err(e) => {
                proof {
                    lemma_released(h0, heap@);
                }
                heap.release(mark);
                return Err(e);
            },
        };
        let x2 = match P2::from_arg(&mut temp_2, heap) {
            Ok(x) => x,
            Err(e) => {
                proof {
                    lemma_released(h0, heap@);
                }
                heap.release(mark);
                return Err(e);
            },
        };
        let x3 = match P3::from_arg(&mut temp_3, heap) {
            Ok(x) => x,
            Err(e) => {
                proof {
                    lemma_released(h0, heap@);
                }
                heap.release(mark);
                return Err(e);
            },
        };
        let mut before = Heap::new();
        std::mem::swap(&mut before, heap);
        let ghost taken = before;
        assert(call_requires(self.function(), (taken, x0, x1, x2, x3)));
        let (after, ret) = (self.f)(before, x0, x1, x2, x3);
        assert(call_ensures(self.function(), (taken, x0, x1, x2, x3), (after, ret)));
        *heap = after;
        let r = F::output_into_slot(ret, heap);
        heap.release(mark);
        r
    }

    /// A call within the limits, for which every parameter can be made, is one call of the
    /// function: each parameter is what its own arguments become, and the result of the call is
    /// what the function returned, converted as a value of its type.
    pub proof fn law_one_call(&self, args: Seq<Slot>, h0: Store, h1: Store, r: GResult<Slot>)
        requires
            self.gives(args, h0, h1, r),
            self.known_limits().0 <= args.len() <= self.known_limits().1,
            all_ready::<(P0, P1, P2, P3)>(args, h0),
        ensures
            ({
                let kinds = <(P0, P1, P2, P3) as Params>::kinds();
                let t0 = P0::temp_of(args, start_of(kinds, 0) as int, h0);
                let t1 = P1::temp_of(args, start_of(kinds, 1) as int, t0.0);
                let t2 = P2::temp_of(args, start_of(kinds, 2) as int, t1.0);
                let t3 = P3::temp_of(args, start_of(kinds, 3) as int, t2.0);
                exists|before: Heap, x0, x1, x2, x3, after: Heap, ret: Ret|
                    #[trigger] call_ensures(self.function(), (before, x0, x1, x2, x3), (after, ret))
                        && before@ == t3.0
                        && P0::arg_of(t0.1->Ok_0, t3.0) == Ok::<
                            P0::OutModel,
                            GError,
                        >(P0::out_model(x0))
                        && P1::arg_of(t1.1->Ok_0, t3.0) == Ok::<
                            P1::OutModel,
                            GError,
                        >(P1::out_model(x1))
                        && P2::arg_of(t2.1->Ok_0, t3.0) == Ok::<
                            P2::OutModel,
                            GError,
                        >(P2::out_model(x2))
                        && P3::arg_of(t3.1->Ok_0, t3.0) == Ok::<
                            P3::OutModel,
                            GError,
                        >(P3::out_model(x3))
                        && (h1, r) == concluded(h0, after@, ret)
            }),
    {
        <(P0, P1, P2, P3) as Params>::lawful_order(args, h0);
    }

    /// A call that is refused returns the reason, and leaves the heap as it was.
    pub proof fn law_refused(&self, args: Seq<Slot>, h0: Store, h1: Store, r: GResult<Slot>)
        requires
            self.gives(args, h0, h1, r),
            refusal::<(P0, P1, P2, P3)>(self.known_limits(), args, h0) is Some,
        ensures
            h1 == h0,
            r == Err::<Slot, GError>(
                refusal::<(P0, P1, P2, P3)>(self.known_limits(), args, h0)->Some_0,
            ),
    {
    }

    /// A call that is refused asks nothing of the function, which is not called.
    pub proof fn law_refused_without_a_call(&self, args: Seq<Slot>, h: Store)
        requires
            fitting(<(P0, P1, P2, P3) as Params>::kinds(), self.known_limits()),
            refusal::<(P0, P1, P2, P3)>(self.known_limits(), args, h) is Some,
        ensures
            self.callable(args, h),
    {
    }

    /// Calls with arguments that are the same to every parameter are the same call.
    pub proof fn law_same_call(&self, args: Seq<Slot>, other: Seq<Slot>, h0: Store)
        requires
            <(P0, P1, P2, P3) as Params>::alike(args, other),
            self.known_limits().0 <= args.len() <= self.known_limits().1,
            self.known_limits().0 <= other.len() <= self.known_limits().1,
        ensures
            self.callable(args, h0) == self.callable(other, h0),
            forall|h1: Store, r: GResult<Slot>|
                self.gives(args, h0, h1, r) == #[trigger] self.gives(other, h0, h1, r),
    {
        <(P0, P1, P2, P3) as Params>::lawful_alike(args, other, h0);
    }
}

impl<
    P0: Param,
    P1: Param,
    P2: Param,
    P3: Param,
    Ret: IntoVal,
    F,
> WrappedCall for Wrapper<(P0, P1, P2, P3), Ret, F> where
    F: for <'a>Fn(
        Heap,
        P0::Output<'a>,
        P1::Output<'a>,
        P2::Output<'a>,
        P3::Output<'a>,
    ) -> (Heap, Ret),
 {
    open spec fn limits(&self) -> (usize, usize) {
        self.known_limits()
    }

    open spec fn callable(&self, args: Seq<Slot>, h: Store) -> bool {
        Self::callable(self, args, h)
    }

    open spec fn refuses(&self, args: Seq<Slot>, h: Store) -> Option<GError> {
        refusal::<(P0, P1, P2, P3)>(self.known_limits(), args, h)
    }

    open spec fn gives(&self, args: Seq<Slot>, h0: Store, h1: Store, r: GResult<Slot>) -> bool {
        Self::gives(self, args, h0, h1, r)
    }

    proof fn lawful_call(&self, args: Seq<Slot>, h0: Store, h1: Store, r: GResult<Slot>) {
    }

    fn arg_limits(&self) -> (r: (usize, usize))
        ensures
            r == self.known_limits(),
    {
        self.arg_limits
    }

    fn wrapped_call(&self, args: &[Slot], heap: &mut Heap) -> (r: GResult<Slot>)
        ensures
            Self::gives(self, args@, old(heap)@, final(heap)@, r),
    {
        Self::wrapped_call(self, args, heap)
    }
}

impl<P0: Param, P1: Param, P2: Param, P3: Param, P4: Param> Params for (P0, P1, P2, P3, P4) {
    type Models = (P0::OutModel, P1::OutModel, P2::OutModel, P3::OutModel, P4::OutModel);

    open spec fn kinds() -> Seq<ArgType> {
        seq![P0::takes(), P1::takes(), P2::takes(), P3::takes(), P4::takes()]
    }

    open spec fn prepared(args: Seq<Slot>, h: Store) -> (
        Store,
        GResult<(P0::OutModel, P1::OutModel, P2::OutModel, P3::OutModel, P4::OutModel)>,
    ) {
        let kinds = Self::kinds();
        let t0 = P0::temp_of(args, start_of(kinds, 0) as int, h);
        let t1 = P1::temp_of(args, start_of(kinds, 1) as int, t0.0);
        let t2 = P2::temp_of(args, start_of(kinds, 2) as int, t1.0);
        let t3 = P3::temp_of(args, start_of(kinds, 3) as int, t2.0);
        let t4 = P4::temp_of(args, start_of(kinds, 4) as int, t3.0);
        if t0.1 is Err {
            (h, Err(t0.1->Err_0))
        } else if t1.1 is Err {
            (h, Err(t1.1->Err_0))
        } else if t2.1 is Err {
            (h, Err(t2.1->Err_0))
        } else if t3.1 is Err {
            (h, Err(t3.1->Err_0))
        } else if t4.1 is Err {
            (h, Err(t4.1->Err_0))
        } else {
            let h1 = t4.0;
            let a0 = P0::arg_of(t0.1->Ok_0, h1);
            let a1 = P1::arg_of(t1.1->Ok_0, h1);
            let a2 = P2::arg_of(t2.1->Ok_0, h1);
            let a3 = P3::arg_of(t3.1->Ok_0, h1);
            let a4 = P4::arg_of(t4.1->Ok_0, h1);
            if a0 is Err {
                (h, Err(a0->Err_0))
            } else if a1 is Err {
                (h, Err(a1->Err_0))
            } else if a2 is Err {
                (h, Err(a2->Err_0))
            } else if a3 is Err {
                (h, Err(a3->Err_0))
            } else if a4 is Err {
                (h, Err(a4->Err_0))
            } else {
                (h1, Ok((a0->Ok_0, a1->Ok_0, a2->Ok_0, a3->Ok_0, a4->Ok_0)))
            }
        }
    }

    proof fn lawful_prepared(args: Seq<Slot>, h: Store) {
        let kinds = Self::kinds();
        P0::lawful_temp(args, start_of(kinds, 0) as int, h);
        let h0 = P0::temp_of(args, start_of(kinds, 0) as int, h).0;
        P1::lawful_temp(args, start_of(kinds, 1) as int, h0);
        let h1 = P1::temp_of(args, start_of(kinds, 1) as int, h0).0;
        lemma_only_borrowed(h, h0, h1);
        P2::lawful_temp(args, start_of(kinds, 2) as int, h1);
        let h2 = P2::temp_of(args, start_of(kinds, 2) as int, h1).0;
        lemma_only_borrowed(h, h1, h2);
        P3::lawful_temp(args, start_of(kinds, 3) as int, h2);
        let h3 = P3::temp_of(args, start_of(kinds, 3) as int, h2).0;
        lemma_only_borrowed(h, h2, h3);
        P4::lawful_temp(args, start_of(kinds, 4) as int, h3);
        let h4 = P4::temp_of(args, start_of(kinds, 4) as int, h3).0;
        lemma_only_borrowed(h, h3, h4);
    }

    open spec fn first_failure(args: Seq<Slot>, h: Store, i: int) -> Option<GError> {
        let kinds = Self::kinds();
        let t0 = P0::temp_of(args, start_of(kinds, 0) as int, h);
        let t1 = P1::temp_of(args, start_of(kinds, 1) as int, t0.0);
        let t2 = P2::temp_of(args, start_of(kinds, 2) as int, t1.0);
        let t3 = P3::temp_of(args, start_of(kinds, 3) as int, t2.0);
        let t4 = P4::temp_of(args, start_of(kinds, 4) as int, t3.0);
        if i == 0 {
            failure(t0.1)
        } else if i == 1 {
            failure(t1.1)
        } else if i == 2 {
            failure(t2.1)
        } else if i == 3 {
            failure(t3.1)
        } else {
            failure(t4.1)
        }
    }

    open spec fn second_failure(args: Seq<Slot>, h: Store, i: int) -> Option<GError> {
        let kinds = Self::kinds();
        let t0 = P0::temp_of(args, start_of(kinds, 0) as int, h);
        let t1 = P1::temp_of(args, start_of(kinds, 1) as int, t0.0);
        let t2 = P2::temp_of(args, start_of(kinds, 2) as int, t1.0);
        let t3 = P3::temp_of(args, start_of(kinds, 3) as int, t2.0);
        let t4 = P4::temp_of(args, start_of(kinds, 4) as int, t3.0);
        if i == 0 {
            failure(P0::arg_of(t0.1->Ok_0, t4.0))
        } else if i == 1 {
            failure(P1::arg_of(t1.1->Ok_0, t4.0))
        } else if i == 2 {
            failure(P2::arg_of(t2.1->Ok_0, t4.0))
        } else if i == 3 {
            failure(P3::arg_of(t3.1->Ok_0, t4.0))
        } else {
            failure(P4::arg_of(t4.1->Ok_0, t4.0))
        }
    }

    proof fn lawful_order(args: Seq<Slot>, h: Store) {
        let f0 = Self::first_failure(args, h, 0);
        let f1 = Self::first_failure(args, h, 1);
        let f2 = Self::first_failure(args, h, 2);
        let f3 = Self::first_failure(args, h, 3);
        let f4 = Self::first_failure(args, h, 4);
        let s0 = Self::second_failure(args, h, 0);
        let s1 = Self::second_failure(args, h, 1);
        let s2 = Self::second_failure(args, h, 2);
        let s3 = Self::second_failure(args, h, 3);
        let s4 = Self::second_failure(args, h, 4);
    }

    open spec fn alike(args: Seq<Slot>, other: Seq<Slot>) -> bool {
        let kinds = Self::kinds();
        &&& same_argument(P0::takes(), P0::alone(), args, other, start_of(kinds, 0) as int)
        &&& same_argument(P1::takes(), P1::alone(), args, other, start_of(kinds, 1) as int)
        &&& same_argument(P2::takes(), P2::alone(), args, other, start_of(kinds, 2) as int)
        &&& same_argument(P3::takes(), P3::alone(), args, other, start_of(kinds, 3) as int)
        &&& same_argument(P4::takes(), P4::alone(), args, other, start_of(kinds, 4) as int)
    }

    proof fn lawful_alike(args: Seq<Slot>, other: Seq<Slot>, h: Store) {
        let kinds = Self::kinds();
        P0::lawful_own(args, other, start_of(kinds, 0) as int, h);
        let h0 = P0::temp_of(args, start_of(kinds, 0) as int, h).0;
        P1::lawful_own(args, other, start_of(kinds, 1) as int, h0);
        let h1 = P1::temp_of(args, start_of(kinds, 1) as int, h0).0;
        P2::lawful_own(args, other, start_of(kinds, 2) as int, h1);
        let h2 = P2::temp_of(args, start_of(kinds, 2) as int, h1).0;
        P3::lawful_own(args, other, start_of(kinds, 3) as int, h2);
        let h3 = P3::temp_of(args, start_of(kinds, 3) as int, h2).0;
        P4::lawful_own(args, other, start_of(kinds, 4) as int, h3);
    }
}

impl<
    P0: Param,
    P1: Param,
    P2: Param,
    P3: Param,
    P4: Param,
    Ret,
    F,
> CalculateArgLimits for Wrapper<(P0, P1, P2, P3, P4), Ret, F> {
    open spec fn params() -> Seq<ArgType> {
        <(P0, P1, P2, P3, P4) as Params>::kinds()
    }

    fn calculate_arg_limits() -> (r: (usize, usize)) {
        let params: [ArgType; 5] = [
            P0::arg_type(),
            P1::arg_type(),
            P2::arg_type(),
            P3::arg_type(),
            P4::arg_type(),
        ];
        assert(params@ =~= Self::params());
        arg_limits(&params).unwrap()
    }
}

impl<
    P0: Param,
    P1: Param,
    P2: Param,
    P3: Param,
    P4: Param,
    Ret: IntoVal,
    F,
> Wrapper<(P0, P1, P2, P3, P4), Ret, F> where F: for <'a>Fn(
    Heap,
    P0::Output<'a>,
    P1::Output<'a>,
    P2::Output<'a>,
    P3::Output<'a>,
    P4::Output<'a>,
) -> (Heap, Ret) {
    /// The function can be called with these arguments, on this heap.
    pub open spec fn callable(&self, args: Seq<Slot>, h: Store) -> bool {
        &&& fitting(<(P0, P1, P2, P3, P4) as Params>::kinds(), self.known_limits())
        &&& refusal::<(P0, P1, P2, P3, P4)>(self.known_limits(), args, h) is None ==> {
            let (h1, ready) = <(P0, P1, P2, P3, P4) as Params>::prepared(args, h);
            let models = ready->Ok_0;
            forall|before: Heap, x0, x1, x2, x3, x4|
                before@ == h1
                    && P0::out_model(x0) == models.0
                    && P1::out_model(x1) == models.1
                    && P2::out_model(x2) == models.2
                    && P3::out_model(x3) == models.3
                    && P4::out_model(x4) == models.4
                    ==> #[trigger] call_requires(self.function(), (before, x0, x1, x2, x3, x4))
        }
    }

    /// A call with these arguments, on the heap `h0`, may leave the heap `h1` and return `r`.
    pub open spec fn gives(&self, args: Seq<Slot>, h0: Store, h1: Store, r: GResult<Slot>) -> bool {
        match refusal::<(P0, P1, P2, P3, P4)>(self.known_limits(), args, h0) {
            Some(e) => h1 == h0 && r == Err::<Slot, GError>(e),
            None => {
                let (h, ready) = <(P0, P1, P2, P3, P4) as Params>::prepared(args, h0);
                let models = ready->Ok_0;
                exists|before: Heap, x0, x1, x2, x3, x4, after: Heap, ret: Ret|
                    #[trigger] call_ensures(
                        self.function(),
                        (before, x0, x1, x2, x3, x4),
                        (after, ret),
                    )
                        && before@ == h
                        && P0::out_model(x0) == models.0
                        && P1::out_model(x1) == models.1
                        && P2::out_model(x2) == models.2
                        && P3::out_model(x3) == models.3
                        && P4::out_model(x4) == models.4
                        && (h1, r) == concluded(h0, after@, ret)
            },
        }
    }

    /// Calls the function.
    pub fn wrapped_call(&self, args: &[Slot], heap: &mut Heap) -> (r: GResult<Slot>)
        requires
            self.callable(args@, old(heap)@),
        ensures
            self.gives(args@, old(heap)@, final(heap)@, r),
    {
        if args.len() < self.arg_limits.0 {
            return Err(GError::TooFewArgs { received: args.len(), at_least: self.arg_limits.0 });
        }
        if args.len() > self.arg_limits.1 {
            return Err(GError::TooManyArgs { received: args.len(), at_most: self.arg_limits.1 });
        }
        let mark: usize = heap.mark();
        let ghost h0 = heap@;
        let mut arg_i: usize = 0;
        proof {
            reveal_with_fuel(start_of, 6);
            if P0::takes() is Normal {
                law_normal_in_range(<(P0, P1, P2, P3, P4) as Params>::kinds(), 0, args@.len());
            }
            if P1::takes() is Normal {
                law_normal_in_range(<(P0, P1, P2, P3, P4) as Params>::kinds(), 1, args@.len());
            }
            if P2::takes() is Normal {
                law_normal_in_range(<(P0, P1, P2, P3, P4) as Params>::kinds(), 2, args@.len());
            }
            if P3::takes() is Normal {
                law_normal_in_range(<(P0, P1, P2, P3, P4) as Params>::kinds(), 3, args@.len());
            }
            if P4::takes() is Normal {
                law_normal_in_range(<(P0, P1, P2, P3, P4) as Params>::kinds(), 4, args@.len());
            }
        }
        let ghost h_0 = heap@;
        proof {
            P0::lawful_temp(args@, arg_i as int, h_0);
        }
        let mut temp_0 = match P0::make_temp(args, arg_i, heap) {
            Ok(temp) => temp,
            Err(e) => {
                proof {
                    lemma_released(h0, heap@);
                }
                heap.release(mark);
                return Err(e);
            },
        };
        proof {
            lemma_only_borrowed(h0, h_0, heap@);
        }
        if P0::arg_type() != ArgType::RGlobal {
            arg_i = arg_i + 1;
        }
        let ghost h_1 = heap@;
        proof {
            P1::lawful_temp(args@, arg_i as int, h_1);
        }
        let mut temp_1 = match P1::make_temp(args, arg_i, heap) {
            Ok(temp) => temp,
            Err(e) => {
                proof {
                    lemma_released(h0, heap@);
                }
                heap.release(mark);
                return Err(e);
            },
        };
        proof {
            lemma_only_borrowed(h0, h_1, heap@);
        }
        if P1::arg_type() != ArgType::RGlobal {
            arg_i = arg_i + 1;
        }
        let ghost h_2 = heap@;
        proof {
            P2::lawful_temp(args@, arg_i as int, h_2);
        }
        let mut temp_2 = match P2::make_temp(args, arg_i, heap) {
            Ok(temp) => temp,
            Err(e) => {
                proof {
                    lemma_released(h0, heap@);
                }
                heap.release(mark);
                return Err(e);
            },
        };
        proof {
            lemma_only_borrowed(h0, h_2, heap@);
        }
        if P2::arg_type() != ArgType::RGlobal {
            arg_i = arg_i + 1;
        }
        let ghost h_3 = heap@;
        proof {
            P3::lawful_temp(args@, arg_i as int, h_3);
        }
        let mut temp_3 = match P3::make_temp(args, arg_i, heap) {
            Ok(temp) => temp,
            Err(e) => {
                proof {
                    lemma_released(h0, heap@);
                }
                heap.release(mark);
                return Err(e);
            },
        };
        proof {
            lemma_only_borrowed(h0, h_3, heap@);
        }
        if P3::arg_type() != ArgType::RGlobal {
            arg_i = arg_i + 1;
        }
        let ghost h_4 = heap@;
        proof {
            P4::lawful_temp(args@, arg_i as int, h_4);
        }
        let mut temp_4 = match P4::make_temp(args, arg_i, heap) {
            Ok(temp) => temp,
            Err(e) => {
                proof {
                    lemma_released(h0, heap@);
                }
                heap.release(mark);
                return Err(e);
            },
        };
        proof {
            lemma_only_borrowed(h0, h_4, heap@);
        }
        let x0 = match P0::from_arg(&mut temp_0, heap) {
            Ok(x) => x,
            Err(e) => {
                proof {
                    lemma_released(h0, heap@);
                }
                heap.release(mark);
                return Err(e);
            },
        };
        let x1 = match P1::from_arg(&mut temp_1, heap) {
            Ok(x) => x,
            Err(e) => {
                proof {
                    lemma_released(h0, heap@);
                }
                heap.release(mark);
                return Err(e);
            },
        };
        let x2 = match P2::from_arg(&mut temp_2, heap) {
            Ok(x) => x,
            Err(e) => {
                proof {
                    lemma_released(h0, heap@);
                }
                heap.release(mark);
                return Err(e);
            },
        };
        let x3 = match P3::from_arg(&mut temp_3, heap) {
            Ok(x) => x,
            Err(e) => {
                proof {
                    lemma_released(h0, heap@);
                }
                heap.release(mark);
                return Err(e);
            },
        };
        let x4 = match P4::from_arg(&mut temp_4, heap) {
            Ok(x) => x,
            Err(e) => {
                proof {
                    lemma_released(h0, heap@);
                }
                heap.release(mark);
                return Err(e);
            },
        };
        let mut before = Heap::new();
        std::mem::swap(&mut before, heap);
        let ghost taken = before;
        assert(call_requires(self.function(), (taken, x0, x1, x2, x3, x4)));
        let (after, ret) = (self.f)(before, x0, x1, x2, x3, x4);
        assert(call_ensures(self.function(), (taken, x0, x1, x2, x3, x4), (after, ret)));
        *heap = after;
        let r = F::output_into_slot(ret, heap);
        heap.release(mark);
        r
    }

    /// A call within the limits, for which every parameter can be made, is one call of the
    /// function: each parameter is what its own arguments become, and the result of the call is
    /// what the function returned, converted as a value of its type.
    pub proof fn law_one_call(&self, args: Seq<Slot>, h0: Store, h1: Store, r: GResult<Slot>)
        requires
            self.gives(args, h0, h1, r),
            self.known_limits().0 <= args.len() <= self.known_limits().1,
            all_ready::<(P0, P1, P2, P3, P4)>(args, h0),
        ensures
            ({
                let kinds = <(P0, P1, P2, P3, P4) as Params>::kinds();
                let t0 = P0::temp_of(args, start_of(kinds, 0) as int, h0);
                let t1 = P1::temp_of(args, start_of(kinds, 1) as int, t0.0);
                let t2 = P2::temp_of(args, start_of(kinds, 2) as int, t1.0);
                let t3 = P3::temp_of(args, start_of(kinds, 3) as int, t2.0);
                let t4 = P4::temp_of(args, start_of(kinds, 4) as int, t3.0);
                exists|before: Heap, x0, x1, x2, x3, x4, after: Heap, ret: Ret|
                    #[trigger] call_ensures(
                        self.function(),
                        (before, x0, x1, x2, x3, x4),
                        (after, ret),
                    )
                        && before@ == t4.0
                        && P0::arg_of(t0.1->Ok_0, t4.0) == Ok::<
                            P0::OutModel,
                            GError,
                        >(P0::out_model(x0))
                        && P1::arg_of(t1.1->Ok_0, t4.0) == Ok::<
                            P1::OutModel,
                            GError,
                        >(P1::out_model(x1))
                        && P2::arg_of(t2.1->Ok_0, t4.0) == Ok::<
                            P2::OutModel,
                            GError,
                        >(P2::out_model(x2))
                        && P3::arg_of(t3.1->Ok_0, t4.0) == Ok::<
                            P3::OutModel,
                            GError,
                        >(P3::out_model(x3))
                        && P4::arg_of(t4.1->Ok_0, t4.0) == Ok::<
                            P4::OutModel,
                            GError,
                        >(P4::out_model(x4))
                        && (h1, r) == concluded(h0, after@, ret)
            }),
    {
        <(P0, P1, P2, P3, P4) as Params>::lawful_order(args, h0);
    }

    /// A call that is refused returns the reason, and leaves the heap as it was.
    pub proof fn law_refused(&self, args: Seq<Slot>, h0: Store, h1: Store, r: GResult<Slot>)
        requires
            self.gives(args, h0, h1, r),
            refusal::<(P0, P1, P2, P3, P4)>(self.known_limits(), args, h0) is Some,
        ensures
            h1 == h0,
            r == Err::<Slot, GError>(
                refusal::<(P0, P1, P2, P3, P4)>(self.known_limits(), args, h0)->Some_0,
            ),
    {
    }

    /// A call that is refused asks nothing of the function, which is not called.
    pub proof fn law_refused_without_a_call(&self, args: Seq<Slot>, h: Store)
        requires
            fitting(<(P0, P1, P2, P3, P4) as Params>::kinds(), self.known_limits()),
            refusal::<(P0, P1, P2, P3, P4)>(self.known_limits(), args, h) is Some,
        ensures
            self.callable(args, h),
    {
    }

    /// Calls with arguments that are the same to every parameter are the same call.
    pub proof fn law_same_call(&self, args: Seq<Slot>, other: Seq<Slot>, h0: Store)
        requires
            <(P0, P1, P2, P3, P4) as Params>::alike(args, other),
            self.known_limits().0 <= args.len() <= self.known_limits().1,
            self.known_limits().0 <= other.len() <= self.known_limits().1,
        ensures
            self.callable(args, h0) == self.callable(other, h0),
            forall|h1: Store, r: GResult<Slot>|
                self.gives(args, h0, h1, r) == #[trigger] self.gives(other, h0, h1, r),
    {
        <(P0, P1, P2, P3, P4) as Params>::lawful_alike(args, other, h0);
    }
}

impl<
    P0: Param,
    P1: Param,
    P2: Param,
    P3: Param,
    P4: Param,
    Ret: IntoVal,
    F,
> WrappedCall for Wrapper<(P0, P1, P2, P3, P4), Ret, F> where
    F: for <'a>Fn(
        Heap,
        P0::Output<'a>,
        P1::Output<'a>,
        P2::Output<'a>,
        P3::Output<'a>,
        P4::Output<'a>,
    ) -> (Heap, Ret),
 {
    open spec fn limits(&self) -> (usize, usize) {
        self.known_limits()
    }

    open spec fn callable(&self, args: Seq<Slot>, h: Store) -> bool {
        Self::callable(self, args, h)
    }

    open spec fn refuses(&self, args: Seq<Slot>, h: Store) -> Option<GError> {
        refusal::<(P0, P1, P2, P3, P4)>(self.known_limits(), args, h)
    }

    open spec fn gives(&self, args: Seq<Slot>, h0: Store, h1: Store, r: GResult<Slot>) -> bool {
        Self::gives(self, args, h0, h1, r)
    }

    proof fn lawful_call(&self, args: Seq<Slot>, h0: Store, h1: Store, r: GResult<Slot>) {
    }

    fn arg_limits(&self) -> (r: (usize, usize))
        ensures
            r == self.known_limits(),
    {
        self.arg_limits
    }

    fn wrapped_call(&self, args: &[Slot], heap: &mut Heap) -> (r: GResult<Slot>)
        ensures
            Self::gives(self, args@, old(heap)@, final(heap)@, r),
    {
        Self::wrapped_call(self, args, heap)
    }
}

impl<
    P0: Param,
    P1: Param,
    P2: Param,
    P3: Param,
    P4: Param,
    P5: Param,
> Params for (P0, P1, P2, P3, P4, P5) {
    type Models = (
        P0::OutModel,
        P1::OutModel,
        P2::OutModel,
        P3::OutModel,
        P4::OutModel,
        P5::OutModel,
    );

    open spec fn kinds() -> Seq<ArgType> {
        seq![P0::takes(), P1::takes(), P2::takes(), P3::takes(), P4::takes(), P5::takes()]
    }

    open spec fn prepared(args: Seq<Slot>, h: Store) -> (
        Store,
        GResult<
            (P0::OutModel, P1::OutModel, P2::OutModel, P3::OutModel, P4::OutModel, P5::OutModel),
        >,
    ) {
        let kinds = Self::kinds();
        let t0 = P0::temp_of(args, start_of(kinds, 0) as int, h);
        let t1 = P1::temp_of(args, start_of(kinds, 1) as int, t0.0);
        let t2 = P2::temp_of(args, start_of(kinds, 2) as int, t1.0);
        let t3 = P3::temp_of(args, start_of(kinds, 3) as int, t2.0);
        let t4 = P4::temp_of(args, start_of(kinds, 4) as int, t3.0);
        let t5 = P5::temp_of(args, start_of(kinds, 5) as int, t4.0);
        if t0.1 is Err {
            (h, Err(t0.1->Err_0))
        } else if t1.1 is Err {
            (h, Err(t1.1->Err_0))
        } else if t2.1 is Err {
            (h, Err(t2.1->Err_0))
        } else if t3.1 is Err {
            (h, Err(t3.1->Err_0))
        } else if t4.1 is Err {
            (h, Err(t4.1->Err_0))
        } else if t5.1 is Err {
            (h, Err(t5.1->Err_0))
        } else {
            let h1 = t5.0;
            let a0 = P0::arg_of(t0.1->Ok_0, h1);
            let a1 = P1::arg_of(t1.1->Ok_0, h1);
            let a2 = P2::arg_of(t2.1->Ok_0, h1);
            let a3 = P3::arg_of(t3.1->Ok_0, h1);
            let a4 = P4::arg_of(t4.1->Ok_0, h1);
            let a5 = P5::arg_of(t5.1->Ok_0, h1);
            if a0 is Err {
                (h, Err(a0->Err_0))
            } else if a1 is Err {
                (h, Err(a1->Err_0))
            } else if a2 is Err {
                (h, Err(a2->Err_0))
            } else if a3 is Err {
                (h, Err(a3->Err_0))
            } else if a4 is Err {
                (h, Err(a4->Err_0))
            } else if a5 is Err {
                (h, Err(a5->Err_0))
            } else {
                (h1, Ok((a0->Ok_0, a1->Ok_0, a2->Ok_0, a3->Ok_0, a4->Ok_0, a5->Ok_0)))
            }
        }
    }

    proof fn lawful_prepared(args: Seq<Slot>, h: Store) {
        let kinds = Self::kinds();
        P0::lawful_temp(args, start_of(kinds, 0) as int, h);
        let h0 = P0::temp_of(args, start_of(kinds, 0) as int, h).0;
        P1::lawful_temp(args, start_of(kinds, 1) as int, h0);
        let h1 = P1::temp_of(args, start_of(kinds, 1) as int, h0).0;
        lemma_only_borrowed(h, h0, h1);
        P2::lawful_temp(args, start_of(kinds, 2) as int, h1);
        let h2 = P2::temp_of(args, start_of(kinds, 2) as int, h1).0;
        lemma_only_borrowed(h, h1, h2);
        P3::lawful_temp(args, start_of(kinds, 3) as int, h2);
        let h3 = P3::temp_of(args, start_of(kinds, 3) as int, h2).0;
        lemma_only_borrowed(h, h2, h3);
        P4::lawful_temp(args, start_of(kinds, 4) as int, h3);
        let h4 = P4::temp_of(args, start_of(kinds, 4) as int, h3).0;
        lemma_only_borrowed(h, h3, h4);
        P5::lawful_temp(args, start_of(kinds, 5) as int, h4);
        let h5 = P5::temp_of(args, start_of(kinds, 5) as int, h4).0;
        lemma_only_borrowed(h, h4, h5);
    }

    open spec fn first_failure(args: Seq<Slot>, h: Store, i: int) -> Option<GError> {
        let kinds = Self::kinds();
        let t0 = P0::temp_of(args, start_of(kinds, 0) as int, h);
        let t1 = P1::temp_of(args, start_of(kinds, 1) as int, t0.0);
        let t2 = P2::temp_of(args, start_of(kinds, 2) as int, t1.0);
        let t3 = P3::temp_of(args, start_of(kinds, 3) as int, t2.0);
        let t4 = P4::temp_of(args, start_of(kinds, 4) as int, t3.0);
        let t5 = P5::temp_of(args, start_of(kinds, 5) as int, t4.0);
        if i == 0 {
            failure(t0.1)
        } else if i == 1 {
            failure(t1.1)
        } else if i == 2 {
            failure(t2.1)
        } else if i == 3 {
            failure(t3.1)
        } else if i == 4 {
            failure(t4.1)
        } else {
            failure(t5.1)
        }
    }

    open spec fn second_failure(args: Seq<Slot>, h: Store, i: int) -> Option<GError> {
        let kinds = Self::kinds();
        let t0 = P0::temp_of(args, start_of(kinds, 0) as int, h);
        let t1 = P1::temp_of(args, start_of(kinds, 1) as int, t0.0);
        let t2 = P2::temp_of(args, start_of(kinds, 2) as int, t1.0);
        let t3 = P3::temp_of(args, start_of(kinds, 3) as int, t2.0);
        let t4 = P4::temp_of(args, start_of(kinds, 4) as int, t3.0);
        let t5 = P5::temp_of(args, start_of(kinds, 5) as int, t4.0);
        if i == 0 {
            failure(P0::arg_of(t0.1->Ok_0, t5.0))
        } else if i == 1 {
            failure(P1::arg_of(t1.1->Ok_0, t5.0))
        } else if i == 2 {
            failure(P2::arg_of(t2.1->Ok_0, t5.0))
        } else if i == 3 {
            failure(P3::arg_of(t3.1->Ok_0, t5.0))
        } else if i == 4 {
            failure(P4::arg_of(t4.1->Ok_0, t5.0))
        } else {
            failure(P5::arg_of(t5.1->Ok_0, t5.0))
        }
    }

    proof fn lawful_order(args: Seq<Slot>, h: Store) {
        let f0 = Self::first_failure(args, h, 0);
        let f1 = Self::first_failure(args, h, 1);
        let f2 = Self::first_failure(args, h, 2);
        let f3 = Self::first_failure(args, h, 3);
        let f4 = Self::first_failure(args, h, 4);
        let f5 = Self::first_failure(args, h, 5);
        let s0 = Self::second_failure(args, h, 0);
        let s1 = Self::second_failure(args, h, 1);
        let s2 = Self::second_failure(args, h, 2);
        let s3 = Self::second_failure(args, h, 3);
        let s4 = Self::second_failure(args, h, 4);
        let s5 = Self::second_failure(args, h, 5);
    }

    open spec fn alike(args: Seq<Slot>, other: Seq<Slot>) -> bool {
        let kinds = Self::kinds();
        &&& same_argument(P0::takes(), P0::alone(), args, other, start_of(kinds, 0) as int)
        &&& same_argument(P1::takes(), P1::alone(), args, other, start_of(kinds, 1) as int)
        &&& same_argument(P2::takes(), P2::alone(), args, other, start_of(kinds, 2) as int)
        &&& same_argument(P3::takes(), P3::alone(), args, other, start_of(kinds, 3) as int)
        &&& same_argument(P4::takes(), P4::alone(), args, other, start_of(kinds, 4) as int)
        &&& same_argument(P5::takes(), P5::alone(), args, other, start_of(kinds, 5) as int)
    }

    proof fn lawful_alike(args: Seq<Slot>, other: Seq<Slot>, h: Store) {
        let kinds = Self::kinds();
        P0::lawful_own(args, other, start_of(kinds, 0) as int, h);
        let h0 = P0::temp_of(args, start_of(kinds, 0) as int, h).0;
        P1::lawful_own(args, other, start_of(kinds, 1) as int, h0);
        let h1 = P1::temp_of(args, start_of(kinds, 1) as int, h0).0;
        P2::lawful_own(args, other, start_of(kinds, 2) as int, h1);
        let h2 = P2::temp_of(args, start_of(kinds, 2) as int, h1).0;
        P3::lawful_own(args, other, start_of(kinds, 3) as int, h2);
        let h3 = P3::temp_of(args, start_of(kinds, 3) as int, h2).0;
        P4::lawful_own(args, other, start_of(kinds, 4) as int, h3);
        let h4 = P4::temp_of(args, start_of(kinds, 4) as int, h3).0;
        P5::lawful_own(args, other, start_of(kinds, 5) as int, h4);
    }
}

impl<
    P0: Param,
    P1: Param,
    P2: Param,
    P3: Param,
    P4: Param,
    P5: Param,
    Ret,
    F,
> CalculateArgLimits for Wrapper<(P0, P1, P2, P3, P4, P5), Ret, F> {
    open spec fn params() -> Seq<ArgType> {
        <(P0, P1, P2, P3, P4, P5) as Params>::kinds()
    }

    fn calculate_arg_limits() -> (r: (usize, usize)) {
        let params: [ArgType; 6] = [
            P0::arg_type(),
            P1::arg_type(),
            P2::arg_type(),
            P3::arg_type(),
            P4::arg_type(),
            P5::arg_type(),
        ];
        assert(params@ =~= Self::params());
        arg_limits(&params).unwrap()
    }
}

impl<
    P0: Param,
    P1: Param,
    P2: Param,
    P3: Param,
    P4: Param,
    P5: Param,
    Ret: IntoVal,
    F,
> Wrapper<(P0, P1, P2, P3, P4, P5), Ret, F> where F: for <'a>Fn(
    Heap,
    P0::Output<'a>,
    P1::Output<'a>,
    P2::Output<'a>,
    P3::Output<'a>,
    P4::Output<'a>,
    P5::Output<'a>,
) -> (Heap, Ret) {
    /// The function can be called with these arguments, on this heap.
    pub open spec fn callable(&self, args: Seq<Slot>, h: Store) -> bool {
        &&& fitting(<(P0, P1, P2, P3, P4, P5) as Params>::kinds(), self.known_limits())
        &&& refusal::<(P0, P1, P2, P3, P4, P5)>(self.known_limits(), args, h) is None ==> {
            let (h1, ready) = <(P0, P1, P2, P3, P4, P5) as Params>::prepared(args, h);
            let models = ready->Ok_0;
            forall|before: Heap, x0, x1, x2, x3, x4, x5|
                before@ == h1
                    && P0::out_model(x0) == models.0
                    && P1::out_model(x1) == models.1
                    && P2::out_model(x2) == models.2
                    && P3::out_model(x3) == models.3
                    && P4::out_model(x4) == models.4
                    && P5::out_model(x5) == models.5
                    ==> #[trigger] call_requires(self.function(), (before, x0, x1, x2, x3, x4, x5))
        }
    }

    /// A call with these arguments, on the heap `h0`, may leave the heap `h1` and return `r`.
    pub open spec fn gives(&self, args: Seq<Slot>, h0: Store, h1: Store, r: GResult<Slot>) -> bool {
        match refusal::<(P0, P1, P2, P3, P4, P5)>(self.known_limits(), args, h0) {
            Some(e) => h1 == h0 && r == Err::<Slot, GError>(e),
            None => {
                let (h, ready) = <(P0, P1, P2, P3, P4, P5) as Params>::prepared(args, h0);
                let models = ready->Ok_0;
                exists|before: Heap, x0, x1, x2, x3, x4, x5, after: Heap, ret: Ret|
                    #[trigger] call_ensures(
                        self.function(),
                        (before, x0, x1, x2, x3, x4, x5),
                        (after, ret),
                    )
                        && before@ == h
                        && P0::out_model(x0) == models.0
                        && P1::out_model(x1) == models.1
                        && P2::out_model(x2) == models.2
                        && P3::out_model(x3) == models.3
                        && P4::out_model(x4) == models.4
                        && P5::out_model(x5) == models.5
                        && (h1, r) == concluded(h0, after@, ret)
            },
        }
    }

    /// Calls the function.
    #[verifier::rlimit(60)]
    pub fn wrapped_call(&self, args: &[Slot], heap: &mut Heap) -> (r: GResult<Slot>)
        requires
            self.callable(args@, old(heap)@),
        ensures
            self.gives(args@, old(heap)@, final(heap)@, r),
    {
        if args.len() < self.arg_limits.0 {
            return Err(GError::TooFewArgs { received: args.len(), at_least: self.arg_limits.0 });
        }
        if args.len() > self.arg_limits.1 {
            return Err(GError::TooManyArgs { received: args.len(), at_most: self.arg_limits.1 });
        }
        let mark: usize = heap.mark();
        let ghost h0 = heap@;
        let mut arg_i: usize = 0;
        proof {
            reveal_with_fuel(start_of, 7);
            if P0::takes() is Normal {
                law_normal_in_range(<(P0, P1, P2, P3, P4, P5) as Params>::kinds(), 0, args@.len());
            }
            if P1::takes() is Normal {
                law_normal_in_range(<(P0, P1, P2, P3, P4, P5) as Params>::kinds(), 1, args@.len());
            }
            if P2::takes() is Normal {
                law_normal_in_range(<(P0, P1, P2, P3, P4, P5) as Params>::kinds(), 2, args@.len());
            }
            if P3::takes() is Normal {
                law_normal_in_range(<(P0, P1, P2, P3, P4, P5) as Params>::kinds(), 3, args@.len());
            }
            if P4::takes() is Normal {
                law_normal_in_range(<(P0, P1, P2, P3, P4, P5) as Params>::kinds(), 4, args@.len());
            }
            if P5::takes() is Normal {
                law_normal_in_range(<(P0, P1, P2, P3, P4, P5) as Params>::kinds(), 5, args@.len());
            }
        }
        let ghost h_0 = heap@;
        proof {
            P0::lawful_temp(args@, arg_i as int, h_0);
        }
        let mut temp_0 = match P0::make_temp(args, arg_i, heap) {
            Ok(temp) => temp,
            Err(e) => {
                proof {
                    lemma_released(h0, heap@);
                }
                heap.release(mark);
                return Err(e);
            },
        };
        proof {
            lemma_only_borrowed(h0, h_0, heap@);
        }
        if P0::arg_type() != ArgType::RGlobal {
            arg_i = arg_i + 1;
        }
        let ghost h_1 = heap@;
        proof {
            P1::lawful_temp(args@, arg_i as int, h_1);
        }
        let mut temp_1 = match P1::make_temp(args, arg_i, heap) {
            Ok(temp) => temp,
            Err(e) => {
                proof {
                    lemma_released(h0, heap@);
                }
                heap.release(mark);
                return Err(e);
            },
        };
        proof {
            lemma_only_borrowed(h0, h_1, heap@);
        }
        if P1::arg_type() != ArgType::RGlobal {
            arg_i = arg_i + 1;
        }
        let ghost h_2 = heap@;
        proof {
            P2::lawful_temp(args@, arg_i as int, h_2);
        }
        let mut temp_2 = match P2::make_temp(args, arg_i, heap) {
            Ok(temp) => temp,
            Err(e) => {
                proof {
                    lemma_released(h0, heap@);
                }
                heap.release(mark);
                return Err(e);
            },
        };
        proof {
            lemma_only_borrowed(h0, h_2, heap@);
        }
        if P2::arg_type() != ArgType::RGlobal {
            arg_i = arg_i + 1;
        }
        let ghost h_3 = heap@;
        proof {
            P3::lawful_temp(args@, arg_i as int, h_3);
        }
        let mut temp_3 = match P3::make_temp(args, arg_i, heap) {
            Ok(temp) => temp,
            Err(e) => {
                proof {
                    lemma_released(h0, heap@);
                }
                heap.release(mark);
                return Err(e);
            },
        };
        proof {
            lemma_only_borrowed(h0, h_3, heap@);
        }
        if P3::arg_type() != ArgType::RGlobal {
            arg_i = arg_i + 1;
        }
        let ghost h_4 = heap@;
        proof {
            P4::lawful_temp(args@, arg_i as int, h_4);
        }
        let mut temp_4 = match P4::make_temp(args, arg_i, heap) {
            Ok(temp) => temp,
            Err(e) => {
                proof {
                    lemma_released(h0, heap@);
                }
                heap.release(mark);
                return Err(e);
            },
        };
        proof {
            lemma_only_borrowed(h0, h_4, heap@);
        }
        if P4::arg_type() != ArgType::RGlobal {
            arg_i = arg_i + 1;
        }
        let ghost h_5 = heap@;
        proof {
            P5::lawful_temp(args@, arg_i as int, h_5);
        }
        let mut temp_5 = match P5::make_temp(args, arg_i, heap) {
            Ok(temp) => temp,
            Err(e) => {
                proof {
                    lemma_released(h0, heap@);
                }
                heap.release(mark);
                return Err(e);
            },
        };
        proof {
            lemma_only_borrowed(h0, h_5, heap@);
        }
        let x0 = match P0::from_arg(&mut temp_0, heap) {
            Ok(x) => x,
            Err(e) => {
                proof {
                    lemma_released(h0, heap@);
                }
                heap.release(mark);
                return Err(e);
            },
        };
        let x1 = match P1::from_arg(&mut temp_1, heap) {
            Ok(x) => x,
            Err(e) => {
                proof {
                    lemma_released(h0, heap@);
                }
                heap.release(mark);
                return Err(e);
            },
        };
        let x2 = match P2::from_arg(&mut temp_2, heap) {
            Ok(x) => x,
            Err(e) => {
                proof {
                    lemma_released(h0, heap@);
                }
                heap.release(mark);
                return Err(e);
            },
        };
        let x3 = match P3::from_arg(&mut temp_3, heap) {
            Ok(x) => x,
            Err(e) => {
                proof {
                    lemma_released(h0, heap@);
                }
                heap.release(mark);
                return Err(e);
            },
        };
        let x4 = match P4::from_arg(&mut temp_4, heap) {
            Ok(x) => x,
            Err(e) => {
                proof {
                    lemma_released(h0, heap@);
                }
                heap.release(mark);
                return Err(e);
            },
        };
        let x5 = match P5::from_arg(&mut temp_5, heap) {
            Ok(x) => x,
            Err(e) => {
                proof {
                    lemma_released(h0, heap@);
                }
                heap.release(mark);
                return Err(e);
            },
        };
        let mut before = Heap::new();
        std::mem::swap(&mut before, heap);
        let ghost taken = before;
        assert(call_requires(self.function(), (taken, x0, x1, x2, x3, x4, x5)));
        let (after, ret) = (self.f)(before, x0, x1, x2, x3, x4, x5);
        assert(call_ensures(self.function(), (taken, x0, x1, x2, x3, x4, x5), (after, ret)));
        *heap = after;
        let r = F::output_into_slot(ret, heap);
        heap.release(mark);
        r
    }

    /// A call within the limits, for which every parameter can be made, is one call of the
    /// function: each parameter is what its own arguments become, and the result of the call is
    /// what the function returned, converted as a value of its type.
    pub proof fn law_one_call(&self, args: Seq<Slot>, h0: Store, h1: Store, r: GResult<Slot>)
        requires
            self.gives(args, h0, h1, r),
            self.known_limits().0 <= args.len() <= self.known_limits().1,
            all_ready::<(P0, P1, P2, P3, P4, P5)>(args, h0),
        ensures
            ({
                let kinds = <(P0, P1, P2, P3, P4, P5) as Params>::kinds();
                let t0 = P0::temp_of(args, start_of(kinds, 0) as int, h0);
                let t1 = P1::temp_of(args, start_of(kinds, 1) as int, t0.0);
                let t2 = P2::temp_of(args, start_of(kinds, 2) as int, t1.0);
                let t3 = P3::temp_of(args, start_of(kinds, 3) as int, t2.0);
                let t4 = P4::temp_of(args, start_of(kinds, 4) as int, t3.0);
                let t5 = P5::temp_of(args, start_of(kinds, 5) as int, t4.0);
                exists|before: Heap, x0, x1, x2, x3, x4, x5, after: Heap, ret: Ret|
                    #[trigger] call_ensures(
                        self.function(),
                        (before, x0, x1, x2, x3, x4, x5),
                        (after, ret),
                    )
                        && before@ == t5.0
                        && P0::arg_of(t0.1->Ok_0, t5.0) == Ok::<
                            P0::OutModel,
                            GError,
                        >(P0::out_model(x0))
                        && P1::arg_of(t1.1->Ok_0, t5.0) == Ok::<
                            P1::OutModel,
                            GError,
                        >(P1::out_model(x1))
                        && P2::arg_of(t2.1->Ok_0, t5.0) == Ok::<
                            P2::OutModel,
                            GError,
                        >(P2::out_model(x2))
                        && P3::arg_of(t3.1->Ok_0, t5.0) == Ok::<
                            P3::OutModel,
                            GError,
                        >(P3::out_model(x3))
                        && P4::arg_of(t4.1->Ok_0, t5.0) == Ok::<
                            P4::OutModel,
                            GError,
                        >(P4::out_model(x4))
                        && P5::arg_of(t5.1->Ok_0, t5.0) == Ok::<
                            P5::OutModel,
                            GError,
                        >(P5::out_model(x5))
                        && (h1, r) == concluded(h0, after@, ret)
            }),
    {
        <(P0, P1, P2, P3, P4, P5) as Params>::lawful_order(args, h0);
    }

    /// A call that is refused returns the reason, and leaves the heap as it was.
    pub proof fn law_refused(&self, args: Seq<Slot>, h0: Store, h1: Store, r: GResult<Slot>)
        requires
            self.gives(args, h0, h1, r),
            refusal::<(P0, P1, P2, P3, P4, P5)>(self.known_limits(), args, h0) is Some,
        ensures
            h1 == h0,
            r == Err::<Slot, GError>(
                refusal::<(P0, P1, P2, P3, P4, P5)>(self.known_limits(), args, h0)->Some_0,
            ),
    {
    }

    /// A call that is refused asks nothing of the function, which is not called.
    pub proof fn law_refused_without_a_call(&self, args: Seq<Slot>, h: Store)
        requires
            fitting(<(P0, P1, P2, P3, P4, P5) as Params>::kinds(), self.known_limits()),
            refusal::<(P0, P1, P2, P3, P4, P5)>(self.known_limits(), args, h) is Some,
        ensures
            self.callable(args, h),
    {
    }

    /// Calls with arguments that are the same to every parameter are the same call.
    pub proof fn law_same_call(&self, args: Seq<Slot>, other: Seq<Slot>, h0: Store)
        requires
            <(P0, P1, P2, P3, P4, P5) as Params>::alike(args, other),
            self.known_limits().0 <= args.len() <= self.known_limits().1,
            self.known_limits().0 <= other.len() <= self.known_limits().1,
        ensures
            self.callable(args, h0) == self.callable(other, h0),
            forall|h1: Store, r: GResult<Slot>|
                self.gives(args, h0, h1, r) == #[trigger] self.gives(other, h0, h1, r),
    {
        <(P0, P1, P2, P3, P4, P5) as Params>::lawful_alike(args, other, h0);
    }
}

impl<
    P0: Param,
    P1: Param,
    P2: Param,
    P3: Param,
    P4: Param,
    P5: Param,
    Ret: IntoVal,
    F,
> WrappedCall for Wrapper<(P0, P1, P2, P3, P4, P5), Ret, F> where
    F: for <'a>Fn(
        Heap,
        P0::Output<'a>,
        P1::Output<'a>,
        P2::Output<'a>,
        P3::Output<'a>,
        P4::Output<'a>,
        P5::Output<'a>,
    ) -> (Heap, Ret),
 {
    open spec fn limits(&self) -> (usize, usize) {
        self.known_limits()
    }

    open spec fn callable(&self, args: Seq<Slot>, h: Store) -> bool {
        Self::callable(self, args, h)
    }

    open spec fn refuses(&self, args: Seq<Slot>, h: Store) -> Option<GError> {
        refusal::<(P0, P1, P2, P3, P4, P5)>(self.known_limits(), args, h)
    }

    open spec fn gives(&self, args: Seq<Slot>, h0: Store, h1: Store, r: GResult<Slot>) -> bool {
        Self::gives(self, args, h0, h1, r)
    }

    proof fn lawful_call(&self, args: Seq<Slot>, h0: Store, h1: Store, r: GResult<Slot>) {
    }

    fn arg_limits(&self) -> (r: (usize, usize))
        ensures
            r == self.known_limits(),
    {
        self.arg_limits
    }

    fn wrapped_call(&self, args: &[Slot], heap: &mut Heap) -> (r: GResult<Slot>)
        ensures
            Self::gives(self, args@, old(heap)@, final(heap)@, r),
    {
        Self::wrapped_call(self, args, heap)
    }
}

impl<
    P0: Param,
    P1: Param,
    P2: Param,
    P3: Param,
    P4: Param,
    P5: Param,
    P6: Param,
> Params for (P0, P1, P2, P3, P4, P5, P6) {
    type Models = (
        P0::OutModel,
        P1::OutModel,
        P2::OutModel,
        P3::OutModel,
        P4::OutModel,
        P5::OutModel,
        P6::OutModel,
    );

    open spec fn kinds() -> Seq<ArgType> {
        seq![
            P0::takes(),
            P1::takes(),
            P2::takes(),
            P3::takes(),
            P4::takes(),
            P5::takes(),
            P6::takes(),
        ]
    }

    open spec fn prepared(args: Seq<Slot>, h: Store) -> (
        Store,
        GResult<
            (
                P0::OutModel,
                P1::OutModel,
                P2::OutModel,
                P3::OutModel,
                P4::OutModel,
                P5::OutModel,
                P6::OutModel,
            ),
        >,
    ) {
        let kinds = Self::kinds();
        let t0 = P0::temp_of(args, start_of(kinds, 0) as int, h);
        let t1 = P1::temp_of(args, start_of(kinds, 1) as int, t0.0);
        let t2 = P2::temp_of(args, start_of(kinds, 2) as int, t1.0);
        let t3 = P3::temp_of(args, start_of(kinds, 3) as int, t2.0);
        let t4 = P4::temp_of(args, start_of(kinds, 4) as int, t3.0);
        let t5 = P5::temp_of(args, start_of(kinds, 5) as int, t4.0);
        let t6 = P6::temp_of(args, start_of(kinds, 6) as int, t5.0);
        if t0.1 is Err {
            (h, Err(t0.1->Err_0))
        } else if t1.1 is Err {
            (h, Err(t1.1->Err_0))
        } else if t2.1 is Err {
            (h, Err(t2.1->Err_0))
        } else if t3.1 is Err {
            (h, Err(t3.1->Err_0))
        } else if t4.1 is Err {
            (h, Err(t4.1->Err_0))
        } else if t5.1 is Err {
            (h, Err(t5.1->Err_0))
        } else if t6.1 is Err {
            (h, Err(t6.1->Err_0))
        } else {
            let h1 = t6.0;
            let a0 = P0::arg_of(t0.1->Ok_0, h1);
            let a1 = P1::arg_of(t1.1->Ok_0, h1);
            let a2 = P2::arg_of(t2.1->Ok_0, h1);
            let a3 = P3::arg_of(t3.1->Ok_0, h1);
            let a4 = P4::arg_of(t4.1->Ok_0, h1);
            let a5 = P5::arg_of(t5.1->Ok_0, h1);
            let a6 = P6::arg_of(t6.1->Ok_0, h1);
            if a0 is Err {
                (h, Err(a0->Err_0))
            } else if a1 is Err {
                (h, Err(a1->Err_0))
            } else if a2 is Err {
                (h, Err(a2->Err_0))
            } else if a3 is Err {
                (h, Err(a3->Err_0))
            } else if a4 is Err {
                (h, Err(a4->Err_0))
            } else if a5 is Err {
                (h, Err(a5->Err_0))
            } else if a6 is Err {
                (h, Err(a6->Err_0))
            } else {
                (h1, Ok((a0->Ok_0, a1->Ok_0, a2->Ok_0, a3->Ok_0, a4->Ok_0, a5->Ok_0, a6->Ok_0)))
            }
        }
    }

    proof fn lawful_prepared(args: Seq<Slot>, h: Store) {
        let kinds = Self::kinds();
        P0::lawful_temp(args, start_of(kinds, 0) as int, h);
        let h0 = P0::temp_of(args, start_of(kinds, 0) as int, h).0;
        P1::lawful_temp(args, start_of(kinds, 1) as int, h0);
        let h1 = P1::temp_of(args, start_of(kinds, 1) as int, h0).0;
        lemma_only_borrowed(h, h0, h1);
        P2::lawful_temp(args, start_of(kinds, 2) as int, h1);
        let h2 = P2::temp_of(args, start_of(kinds, 2) as int, h1).0;
        lemma_only_borrowed(h, h1, h2);
        P3::lawful_temp(args, start_of(kinds, 3) as int, h2);
        let h3 = P3::temp_of(args, start_of(kinds, 3) as int, h2).0;
        lemma_only_borrowed(h, h2, h3);
        P4::lawful_temp(args, start_of(kinds, 4) as int, h3);
        let h4 = P4::temp_of(args, start_of(kinds, 4) as int, h3).0;
        lemma_only_borrowed(h, h3, h4);
        P5::lawful_temp(args, start_of(kinds, 5) as int, h4);
        let h5 = P5::temp_of(args, start_of(kinds, 5) as int, h4).0;
        lemma_only_borrowed(h, h4, h5);
        P6::lawful_temp(args, start_of(kinds, 6) as int, h5);
        let h6 = P6::temp_of(args, start_of(kinds, 6) as int, h5).0;
        lemma_only_borrowed(h, h5, h6);
    }

    open spec fn first_failure(args: Seq<Slot>, h: Store, i: int) -> Option<GError> {
        let kinds = Self::kinds();
        let t0 = P0::temp_of(args, start_of(kinds, 0) as int, h);
        let t1 = P1::temp_of(args, start_of(kinds, 1) as int, t0.0);
        let t2 = P2::temp_of(args, start_of(kinds, 2) as int, t1.0);
        let t3 = P3::temp_of(args, start_of(kinds, 3) as int, t2.0);
        let t4 = P4::temp_of(args, start_of(kinds, 4) as int, t3.0);
        let t5 = P5::temp_of(args, start_of(kinds, 5) as int, t4.0);
        let t6 = P6::temp_of(args, start_of(kinds, 6) as int, t5.0);
        if i == 0 {
            failure(t0.1)
        } else if i == 1 {
            failure(t1.1)
        } else if i == 2 {
            failure(t2.1)
        } else if i == 3 {
            failure(t3.1)
        } else if i == 4 {
            failure(t4.1)
        } else if i == 5 {
            failure(t5.1)
        } else {
            failure(t6.1)
        }
    }

    open spec fn second_failure(args: Seq<Slot>, h: Store, i: int) -> Option<GError> {
        let kinds = Self::kinds();
        let t0 = P0::temp_of(args, start_of(kinds, 0) as int, h);
        let t1 = P1::temp_of(args, start_of(kinds, 1) as int, t0.0);
        let t2 = P2::temp_of(args, start_of(kinds, 2) as int, t1.0);
        let t3 = P3::temp_of(args, start_of(kinds, 3) as int, t2.0);
        let t4 = P4::temp_of(args, start_of(kinds, 4) as int, t3.0);
        let t5 = P5::temp_of(args, start_of(kinds, 5) as int, t4.0);
        let t6 = P6::temp_of(args, start_of(kinds, 6) as int, t5.0);
        if i == 0 {
            failure(P0::arg_of(t0.1->Ok_0, t6.0))
        } else if i == 1 {
            failure(P1::arg_of(t1.1->Ok_0, t6.0))
        } else if i == 2 {
            failure(P2::arg_of(t2.1->Ok_0, t6.0))
        } else if i == 3 {
            failure(P3::arg_of(t3.1->Ok_0, t6.0))
        } else if i == 4 {
            failure(P4::arg_of(t4.1->Ok_0, t6.0))
        } else if i == 5 {
            failure(P5::arg_of(t5.1->Ok_0, t6.0))
        } else {
            failure(P6::arg_of(t6.1->Ok_0, t6.0))
        }
    }

    proof fn lawful_order(args: Seq<Slot>, h: Store) {
        let f0 = Self::first_failure(args, h, 0);
        let f1 = Self::first_failure(args, h, 1);
        let f2 = Self::first_failure(args, h, 2);
        let f3 = Self::first_failure(args, h, 3);
        let f4 = Self::first_failure(args, h, 4);
        let f5 = Self::first_failure(args, h, 5);
        let f6 = Self::first_failure(args, h, 6);
        let s0 = Self::second_failure(args, h, 0);
        let s1 = Self::second_failure(args, h, 1);
        let s2 = Self::second_failure(args, h, 2);
        let s3 = Self::second_failure(args, h, 3);
        let s4 = Self::second_failure(args, h, 4);
        let s5 = Self::second_failure(args, h, 5);
        let s6 = Self::second_failure(args, h, 6);
    }

    open spec fn alike(args: Seq<Slot>, other: Seq<Slot>) -> bool {
        let kinds = Self::kinds();
        &&& same_argument(P0::takes(), P0::alone(), args, other, start_of(kinds, 0) as int)
        &&& same_argument(P1::takes(), P1::alone(), args, other, start_of(kinds, 1) as int)
        &&& same_argument(P2::takes(), P2::alone(), args, other, start_of(kinds, 2) as int)
        &&& same_argument(P3::takes(), P3::alone(), args, other, start_of(kinds, 3) as int)
        &&& same_argument(P4::takes(), P4::alone(), args, other, start_of(kinds, 4) as int)
        &&& same_argument(P5::takes(), P5::alone(), args, other, start_of(kinds, 5) as int)
        &&& same_argument(P6::takes(), P6::alone(), args, other, start_of(kinds, 6) as int)
    }

    proof fn lawful_alike(args: Seq<Slot>, other: Seq<Slot>, h: Store) {
        let kinds = Self::kinds();
        P0::lawful_own(args, other, start_of(kinds, 0) as int, h);
        let h0 = P0::temp_of(args, start_of(kinds, 0) as int, h).0;
        P1::lawful_own(args, other, start_of(kinds, 1) as int, h0);
        let h1 = P1::temp_of(args, start_of(kinds, 1) as int, h0).0;
        P2::lawful_own(args, other, start_of(kinds, 2) as int, h1);
        let h2 = P2::temp_of(args, start_of(kinds, 2) as int, h1).0;
        P3::lawful_own(args, other, start_of(kinds, 3) as int, h2);
        let h3 = P3::temp_of(args, start_of(kinds, 3) as int, h2).0;
        P4::lawful_own(args, other, start_of(kinds, 4) as int, h3);
        let h4 = P4::temp_of(args, start_of(kinds, 4) as int, h3).0;
        P5::lawful_own(args, other, start_of(kinds, 5) as int, h4);
        let h5 = P5::temp_of(args, start_of(kinds, 5) as int, h4).0;
        P6::lawful_own(args, other, start_of(kinds, 6) as int, h5);
    }
}

impl<
    P0: Param,
    P1: Param,
    P2: Param,
    P3: Param,
    P4: Param,
    P5: Param,
    P6: Param,
    Ret,
    F,
> CalculateArgLimits for Wrapper<(P0, P1, P2, P3, P4, P5, P6), Ret, F> {
    open spec fn params() -> Seq<ArgType> {
        <(P0, P1, P2, P3, P4, P5, P6) as Params>::kinds()
    }

    fn calculate_arg_limits() -> (r: (usize, usize)) {
        let params: [ArgType; 7] = [
            P0::arg_type(),
            P1::arg_type(),
            P2::arg_type(),
            P3::arg_type(),
            P4::arg_type(),
            P5::arg_type(),
            P6::arg_type(),
        ];
        assert(params@ =~= Self::params());
        arg_limits(&params).unwrap()
    }
}

impl<
    P0: Param,
    P1: Param,
    P2: Param,
    P3: Param,
    P4: Param,
    P5: Param,
    P6: Param,
    Ret: IntoVal,
    F,
> Wrapper<(P0, P1, P2, P3, P4, P5, P6), Ret, F> where F: for <'a>Fn(
    Heap,
    P0::Output<'a>,
    P1::Output<'a>,
    P2::Output<'a>,
    P3::Output<'a>,
    P4::Output<'a>,
    P5::Output<'a>,
    P6::Output<'a>,
) -> (Heap, Ret) {
    /// The function can be called with these arguments, on this heap.
    pub open spec fn callable(&self, args: Seq<Slot>, h: Store) -> bool {
        &&& fitting(<(P0, P1, P2, P3, P4, P5, P6) as Params>::kinds(), self.known_limits())
        &&& refusal::<(P0, P1, P2, P3, P4, P5, P6)>(self.known_limits(), args, h) is None ==> {
            let (h1, ready) = <(P0, P1, P2, P3, P4, P5, P6) as Params>::prepared(args, h);
            let models = ready->Ok_0;
            forall|before: Heap, x0, x1, x2, x3, x4, x5, x6|
                before@ == h1
                    && P0::out_model(x0) == models.0
                    && P1::out_model(x1) == models.1
                    && P2::out_model(x2) == models.2
                    && P3::out_model(x3) == models.3
                    && P4::out_model(x4) == models.4
                    && P5::out_model(x5) == models.5
                    && P6::out_model(x6) == models.6
                    ==> #[trigger] call_requires(self.function(), (
                        before,
                        x0,
                        x1,
                        x2,
                        x3,
                        x4,
                        x5,
                        x6,
                    ))
        }
    }

    /// A call with these arguments, on the heap `h0`, may leave the heap `h1` and return `r`.
    pub open spec fn gives(&self, args: Seq<Slot>, h0: Store, h1: Store, r: GResult<Slot>) -> bool {
        match refusal::<(P0, P1, P2, P3, P4, P5, P6)>(self.known_limits(), args, h0) {
            Some(e) => h1 == h0 && r == Err::<Slot, GError>(e),
            None => {
                let (h, ready) = <(P0, P1, P2, P3, P4, P5, P6) as Params>::prepared(args, h0);
                let models = ready->Ok_0;
                exists|before: Heap, x0, x1, x2, x3, x4, x5, x6, after: Heap, ret: Ret|
                    #[trigger] call_ensures(
                        self.function(),
                        (before, x0, x1, x2, x3, x4, x5, x6),
                        (after, ret),
                    )
                        && before@ == h
                        && P0::out_model(x0) == models.0
                        && P1::out_model(x1) == models.1
                        && P2::out_model(x2) == models.2
                        && P3::out_model(x3) == models.3
                        && P4::out_model(x4) == models.4
                        && P5::out_model(x5) == models.5
                        && P6::out_model(x6) == models.6
                        && (h1, r) == concluded(h0, after@, ret)
            },
        }
    }

    /// Calls the function.
    #[verifier::rlimit(60)]
    pub fn wrapped_call(&self, args: &[Slot], heap: &mut Heap) -> (r: GResult<Slot>)
        requires
            self.callable(args@, old(heap)@),
        ensures
            self.gives(args@, old(heap)@, final(heap)@, r),
    {
        if args.len() < self.arg_limits.0 {
            return Err(GError::TooFewArgs { received: args.len(), at_least: self.arg_limits.0 });
        }
        if args.len() > self.arg_limits.1 {
            return Err(GError::TooManyArgs { received: args.len(), at_most: self.arg_limits.1 });
        }
        let mark: usize = heap.mark();
        let ghost h0 = heap@;
        let mut arg_i: usize = 0;
        proof {
            reveal_with_fuel(start_of, 8);
            if P0::takes() is Normal {
                law_normal_in_range(
                    <(P0, P1, P2, P3, P4, P5, P6) as Params>::kinds(),
                    0,
                    args@.len(),
                );
            }
            if P1::takes() is Normal {
                law_normal_in_range(
                    <(P0, P1, P2, P3, P4, P5, P6) as Params>::kinds(),
                    1,
                    args@.len(),
                );
            }
            if P2::takes() is Normal {
                law_normal_in_range(
                    <(P0, P1, P2, P3, P4, P5, P6) as Params>::kinds(),
                    2,
                    args@.len(),
                );
            }
            if P3::takes() is Normal {
                law_normal_in_range(
                    <(P0, P1, P2, P3, P4, P5, P6) as Params>::kinds(),
                    3,
                    args@.len(),
                );
            }
            if P4::takes() is Normal {
                law_normal_in_range(
                    <(P0, P1, P2, P3, P4, P5, P6) as Params>::kinds(),
                    4,
                    args@.len(),
                );
            }
            if P5::takes() is Normal {
                law_normal_in_range(
                    <(P0, P1, P2, P3, P4, P5, P6) as Params>::kinds(),
                    5,
                    args@.len(),
                );
            }
            if P6::takes() is Normal {
                law_normal_in_range(
                    <(P0, P1, P2, P3, P4, P5, P6) as Params>::kinds(),
                    6,
                    args@.len(),
                );
            }
        }
        let ghost h_0 = heap@;
        proof {
            P0::lawful_temp(args@, arg_i as int, h_0);
        }
        let mut temp_0 = match P0::make_temp(args, arg_i, heap) {
            Ok(temp) => temp,
            Err(e) => {
                proof {
                    lemma_released(h0, heap@);
                }
                heap.release(mark);
                return Err(e);
            },
        };
        proof {
            lemma_only_borrowed(h0, h_0, heap@);
        }
        if P0::arg_type() != ArgType::RGlobal {
            arg_i = arg_i + 1;
        }
        let ghost h_1 = heap@;
        proof {
            P1::lawful_temp(args@, arg_i as int, h_1);
        }
        let mut temp_1 = match P1::make_temp(args, arg_i, heap) {
            Ok(temp) => temp,
            Err(e) => {
                proof {
                    lemma_released(h0, heap@);
                }
                heap.release(mark);
                return Err(e);
            },
        };
        proof {
            lemma_only_borrowed(h0, h_1, heap@);
        }
        if P1::arg_type() != ArgType::RGlobal {
            arg_i = arg_i + 1;
        }
        let ghost h_2 = heap@;
        proof {
            P2::lawful_temp(args@, arg_i as int, h_2);
        }
        let mut temp_2 = match P2::make_temp(args, arg_i, heap) {
            Ok(temp) => temp,
            Err(e) => {
                proof {
                    lemma_released(h0, heap@);
                }
                heap.release(mark);
                return Err(e);
            },
        };
        proof {
            lemma_only_borrowed(h0, h_2, heap@);
        }
        if P2::arg_type() != ArgType::RGlobal {
            arg_i = arg_i + 1;
        }
        let ghost h_3 = heap@;
        proof {
            P3::lawful_temp(args@, arg_i as int, h_3);
        }
        let mut temp_3 = match P3::make_temp(args, arg_i, heap) {
            Ok(temp) => temp,
            Err(e) => {
                proof {
                    lemma_released(h0, heap@);
                }
                heap.release(mark);
                return Err(e);
            },
        };
        proof {
            lemma_only_borrowed(h0, h_3, heap@);
        }
        if P3::arg_type() != ArgType::RGlobal {
            arg_i = arg_i + 1;
        }
        let ghost h_4 = heap@;
        proof {
            P4::lawful_temp(args@, arg_i as int, h_4);
        }
        let mut temp_4 = match P4::make_temp(args, arg_i, heap) {
            Ok(temp) => temp,
            Err(e) => {
                proof {
                    lemma_released(h0, heap@);
                }
                heap.release(mark);
                return Err(e);
            },
        };
        proof {
            lemma_only_borrowed(h0, h_4, heap@);
        }
        if P4::arg_type() != ArgType::RGlobal {
            arg_i = arg_i + 1;
        }
        let ghost h_5 = heap@;
        proof {
            P5::lawful_temp(args@, arg_i as int, h_5);
        }
        let mut temp_5 = match P5::make_temp(args, arg_i, heap) {
            Ok(temp) => temp,
            Err(e) => {
                proof {
                    lemma_released(h0, heap@);
                }
                heap.release(mark);
                return Err(e);
            },
        };
        proof {
            lemma_only_borrowed(h0, h_5, heap@);
        }
        if P5::arg_type() != ArgType::RGlobal {
            arg_i = arg_i + 1;
        }
        let ghost h_6 = heap@;
        proof {
            P6::lawful_temp(args@, arg_i as int, h_6);
        }
        let mut temp_6 = match P6::make_temp(args, arg_i, heap) {
            Ok(temp) => temp,
            Err(e) => {
                proof {
                    lemma_released(h0, heap@);
                }
                heap.release(mark);
                return Err(e);
            },
        };
        proof {
            lemma_only_borrowed(h0, h_6, heap@);
        }
        let x0 = match P0::from_arg(&mut temp_0, heap) {
            Ok(x) => x,
            Err(e) => {
                proof {
                    lemma_released(h0, heap@);
                }
                heap.release(mark);
                return Err(e);
            },
        };
        let x1 = match P1::from_arg(&mut temp_1, heap) {
            Ok(x) => x,
            Err(e) => {
                proof {
                    lemma_released(h0, heap@);
                }
                heap.release(mark);
                return Err(e);
            },
        };
        let x2 = match P2::from_arg(&mut temp_2, heap) {
            Ok(x) => x,
            Err(e) => {
                proof {
                    lemma_released(h0, heap@);
                }
                heap.release(mark);
                return Err(e);
            },
        };
        let x3 = match P3::from_arg(&mut temp_3, heap) {
            Ok(x) => x,
            Err(e) => {
                proof {
                    lemma_released(h0, heap@);
                }
                heap.release(mark);
                return Err(e);
            },
        };
        let x4 = match P4::from_arg(&mut temp_4, heap) {
            Ok(x) => x,
            Err(e) => {
                proof {
                    lemma_released(h0, heap@);
                }
                heap.release(mark);
                return Err(e);
            },
        };
        let x5 = match P5::from_arg(&mut temp_5, heap) {
            Ok(x) => x,
            Err(e) => {
                proof {
                    lemma_released(h0, heap@);
                }
                heap.release(mark);
                return Err(e);
            },
        };
        let x6 = match P6::from_arg(&mut temp_6, heap) {
            Ok(x) => x,
            Err(e) => {
                proof {
                    lemma_released(h0, heap@);
                }
                heap.release(mark);
                return Err(e);
            },
        };
        let mut before = Heap::new();
        std::mem::swap(&mut before, heap);
        let ghost taken = before;
        assert(call_requires(self.function(), (taken, x0, x1, x2, x3, x4, x5, x6)));
        let (after, ret) = (self.f)(before, x0, x1, x2, x3, x4, x5, x6);
        assert(call_ensures(self.function(), (taken, x0, x1, x2, x3, x4, x5, x6), (after, ret)));
        *heap = after;
        let r = F::output_into_slot(ret, heap);
        heap.release(mark);
        r
    }

    /// A call within the limits, for which every parameter can be made, is one call of the
    /// function: each parameter is what its own arguments become, and the result of the call is
    /// what the function returned, converted as a value of its type.
    pub proof fn law_one_call(&self, args: Seq<Slot>, h0: Store, h1: Store, r: GResult<Slot>)
        requires
            self.gives(args, h0, h1, r),
            self.known_limits().0 <= args.len() <= self.known_limits().1,
            all_ready::<(P0, P1, P2, P3, P4, P5, P6)>(args, h0),
        ensures
            ({
                let kinds = <(P0, P1, P2, P3, P4, P5, P6) as Params>::kinds();
                let t0 = P0::temp_of(args, start_of(kinds, 0) as int, h0);
                let t1 = P1::temp_of(args, start_of(kinds, 1) as int, t0.0);
                let t2 = P2::temp_of(args, start_of(kinds, 2) as int, t1.0);
                let t3 = P3::temp_of(args, start_of(kinds, 3) as int, t2.0);
                let t4 = P4::temp_of(args, start_of(kinds, 4) as int, t3.0);
                let t5 = P5::temp_of(args, start_of(kinds, 5) as int, t4.0);
                let t6 = P6::temp_of(args, start_of(kinds, 6) as int, t5.0);
                exists|before: Heap, x0, x1, x2, x3, x4, x5, x6, after: Heap, ret: Ret|
                    #[trigger] call_ensures(
                        self.function(),
                        (before, x0, x1, x2, x3, x4, x5, x6),
                        (after, ret),
                    )
                        && before@ == t6.0
                        && P0::arg_of(t0.1->Ok_0, t6.0) == Ok::<
                            P0::OutModel,
                            GError,
                        >(P0::out_model(x0))
                        && P1::arg_of(t1.1->Ok_0, t6.0) == Ok::<
                            P1::OutModel,
                            GError,
                        >(P1::out_model(x1))
                        && P2::arg_of(t2.1->Ok_0, t6.0) == Ok::<
                            P2::OutModel,
                            GError,
                        >(P2::out_model(x2))
                        && P3::arg_of(t3.1->Ok_0, t6.0) == Ok::<
                            P3::OutModel,
                            GError,
                        >(P3::out_model(x3))
                        && P4::arg_of(t4.1->Ok_0, t6.0) == Ok::<
                            P4::OutModel,
                            GError,
                        >(P4::out_model(x4))
                        && P5::arg_of(t5.1->Ok_0, t6.0) == Ok::<
                            P5::OutModel,
                            GError,
                        >(P5::out_model(x5))
                        && P6::arg_of(t6.1->Ok_0, t6.0) == Ok::<
                            P6::OutModel,
                            GError,
                        >(P6::out_model(x6))
                        && (h1, r) == concluded(h0, after@, ret)
            }),
    {
        <(P0, P1, P2, P3, P4, P5, P6) as Params>::lawful_order(args, h0);
    }

    /// A call that is refused returns the reason, and leaves the heap as it was.
    pub proof fn law_refused(&self, args: Seq<Slot>, h0: Store, h1: Store, r: GResult<Slot>)
        requires
            self.gives(args, h0, h1, r),
            refusal::<(P0, P1, P2, P3, P4, P5, P6)>(self.known_limits(), args, h0) is Some,
        ensures
            h1 == h0,
            r == Err::<Slot, GError>(
                refusal::<(P0, P1, P2, P3, P4, P5, P6)>(self.known_limits(), args, h0)->Some_0,
            ),
    {
    }

    /// A call that is refused asks nothing of the function, which is not called.
    pub proof fn law_refused_without_a_call(&self, args: Seq<Slot>, h: Store)
        requires
            fitting(<(P0, P1, P2, P3, P4, P5, P6) as Params>::kinds(), self.known_limits()),
            refusal::<(P0, P1, P2, P3, P4, P5, P6)>(self.known_limits(), args, h) is Some,
        ensures
            self.callable(args, h),
    {
    }

    /// Calls with arguments that are the same to every parameter are the same call.
    pub proof fn law_same_call(&self, args: Seq<Slot>, other: Seq<Slot>, h0: Store)
        requires
            <(P0, P1, P2, P3, P4, P5, P6) as Params>::alike(args, other),
            self.known_limits().0 <= args.len() <= self.known_limits().1,
            self.known_limits().0 <= other.len() <= self.known_limits().1,
        ensures
            self.callable(args, h0) == self.callable(other, h0),
            forall|h1: Store, r: GResult<Slot>|
                self.gives(args, h0, h1, r) == #[trigger] self.gives(other, h0, h1, r),
    {
        <(P0, P1, P2, P3, P4, P5, P6) as Params>::lawful_alike(args, other, h0);
    }
}

impl<
    P0: Param,
    P1: Param,
    P2: Param,
    P3: Param,
    P4: Param,
    P5: Param,
    P6: Param,
    Ret: IntoVal,
    F,
> WrappedCall for Wrapper<(P0, P1, P2, P3, P4, P5, P6), Ret, F> where
    F: for <'a>Fn(
        Heap,
        P0::Output<'a>,
        P1::Output<'a>,
        P2::Output<'a>,
        P3::Output<'a>,
        P4::Output<'a>,
        P5::Output<'a>,
        P6::Output<'a>,
    ) -> (Heap, Ret),
 {
    open spec fn limits(&self) -> (usize, usize) {
        self.known_limits()
    }

    open spec fn callable(&self, args: Seq<Slot>, h: Store) -> bool {
        Self::callable(self, args, h)
    }

    open spec fn refuses(&self, args: Seq<Slot>, h: Store) -> Option<GError> {
        refusal::<(P0, P1, P2, P3, P4, P5, P6)>(self.known_limits(), args, h)
    }

    open spec fn gives(&self, args: Seq<Slot>, h0: Store, h1: Store, r: GResult<Slot>) -> bool {
        Self::gives(self, args, h0, h1, r)
    }

    proof fn lawful_call(&self, args: Seq<Slot>, h0: Store, h1: Store, r: GResult<Slot>) {
    }

    fn arg_limits(&self) -> (r: (usize, usize))
        ensures
            r == self.known_limits(),
    {
        self.arg_limits
    }

    fn wrapped_call(&self, args: &[Slot], heap: &mut Heap) -> (r: GResult<Slot>)
        ensures
            Self::gives(self, args@, old(heap)@, final(heap)@, r),
    {
        Self::wrapped_call(self, args, heap)
    }
}

impl<
    P0: Param,
    P1: Param,
    P2: Param,
    P3: Param,
    P4: Param,
    P5: Param,
    P6: Param,
    P7: Param,
> Params for (P0, P1, P2, P3, P4, P5, P6, P7) {
    type Models = (
        P0::OutModel,
        P1::OutModel,
        P2::OutModel,
        P3::OutModel,
        P4::OutModel,
        P5::OutModel,
        P6::OutModel,
        P7::OutModel,
    );

    open spec fn kinds() -> Seq<ArgType> {
        seq![
            P0::takes(),
            P1::takes(),
            P2::takes(),
            P3::takes(),
            P4::takes(),
            P5::takes(),
            P6::takes(),
            P7::takes(),
        ]
    }

    open spec fn prepared(args: Seq<Slot>, h: Store) -> (
        Store,
        GResult<
            (
                P0::OutModel,
                P1::OutModel,
                P2::OutModel,
                P3::OutModel,
                P4::OutModel,
                P5::OutModel,
                P6::OutModel,
                P7::OutModel,
            ),
        >,
    ) {
        let kinds = Self::kinds();
        let t0 = P0::temp_of(args, start_of(kinds, 0) as int, h);
        let t1 = P1::temp_of(args, start_of(kinds, 1) as int, t0.0);
        let t2 = P2::temp_of(args, start_of(kinds, 2) as int, t1.0);
        let t3 = P3::temp_of(args, start_of(kinds, 3) as int, t2.0);
        let t4 = P4::temp_of(args, start_of(kinds, 4) as int, t3.0);
        let t5 = P5::temp_of(args, start_of(kinds, 5) as int, t4.0);
        let t6 = P6::temp_of(args, start_of(kinds, 6) as int, t5.0);
        let t7 = P7::temp_of(args, start_of(kinds, 7) as int, t6.0);
        if t0.1 is Err {
            (h, Err(t0.1->Err_0))
        } else if t1.1 is Err {
            (h, Err(t1.1->Err_0))
        } else if t2.1 is Err {
            (h, Err(t2.1->Err_0))
        } else if t3.1 is Err {
            (h, Err(t3.1->Err_0))
        } else if t4.1 is Err {
            (h, Err(t4.1->Err_0))
        } else if t5.1 is Err {
            (h, Err(t5.1->Err_0))
        } else if t6.1 is Err {
            (h, Err(t6.1->Err_0))
        } else if t7.1 is Err {
            (h, Err(t7.1->Err_0))
        } else {
            let h1 = t7.0;
            let a0 = P0::arg_of(t0.1->Ok_0, h1);
            let a1 = P1::arg_of(t1.1->Ok_0, h1);
            let a2 = P2::arg_of(t2.1->Ok_0, h1);
            let a3 = P3::arg_of(t3.1->Ok_0, h1);
            let a4 = P4::arg_of(t4.1->Ok_0, h1);
            let a5 = P5::arg_of(t5.1->Ok_0, h1);
            let a6 = P6::arg_of(t6.1->Ok_0, h1);
            let a7 = P7::arg_of(t7.1->Ok_0, h1);
            if a0 is Err {
                (h, Err(a0->Err_0))
            } else if a1 is Err {
                (h, Err(a1->Err_0))
            } else if a2 is Err {
                (h, Err(a2->Err_0))
            } else if a3 is Err {
                (h, Err(a3->Err_0))
            } else if a4 is Err {
                (h, Err(a4->Err_0))
            } else if a5 is Err {
                (h, Err(a5->Err_0))
            } else if a6 is Err {
                (h, Err(a6->Err_0))
            } else if a7 is Err {
                (h, Err(a7->Err_0))
            } else {
                (
                    h1,
                    Ok(
                        (
                            a0->Ok_0,
                            a1->Ok_0,
                            a2->Ok_0,
                            a3->Ok_0,
                            a4->Ok_0,
                            a5->Ok_0,
                            a6->Ok_0,
                            a7->Ok_0,
                        ),
                    ),
                )
            }
        }
    }

    proof fn lawful_prepared(args: Seq<Slot>, h: Store) {
        let kinds = Self::kinds();
        P0::lawful_temp(args, start_of(kinds, 0) as int, h);
        let h0 = P0::temp_of(args, start_of(kinds, 0) as int, h).0;
        P1::lawful_temp(args, start_of(kinds, 1) as int, h0);
        let h1 = P1::temp_of(args, start_of(kinds, 1) as int, h0).0;
        lemma_only_borrowed(h, h0, h1);
        P2::lawful_temp(args, start_of(kinds, 2) as int, h1);
        let h2 = P2::temp_of(args, start_of(kinds, 2) as int, h1).0;
        lemma_only_borrowed(h, h1, h2);
        P3::lawful_temp(args, start_of(kinds, 3) as int, h2);
        let h3 = P3::temp_of(args, start_of(kinds, 3) as int, h2).0;
        lemma_only_borrowed(h, h2, h3);
        P4::lawful_temp(args, start_of(kinds, 4) as int, h3);
        let h4 = P4::temp_of(args, start_of(kinds, 4) as int, h3).0;
        lemma_only_borrowed(h, h3, h4);
        P5::lawful_temp(args, start_of(kinds, 5) as int, h4);
        let h5 = P5::temp_of(args, start_of(kinds, 5) as int, h4).0;
        lemma_only_borrowed(h, h4, h5);
        P6::lawful_temp(args, start_of(kinds, 6) as int, h5);
        let h6 = P6::temp_of(args, start_of(kinds, 6) as int, h5).0;
        lemma_only_borrowed(h, h5, h6);
        P7::lawful_temp(args, start_of(kinds, 7) as int, h6);
        let h7 = P7::temp_of(args, start_of(kinds, 7) as int, h6).0;
        lemma_only_borrowed(h, h6, h7);
    }

    open spec fn first_failure(args: Seq<Slot>, h: Store, i: int) -> Option<GError> {
        let kinds = Self::kinds();
        let t0 = P0::temp_of(args, start_of(kinds, 0) as int, h);
        let t1 = P1::temp_of(args, start_of(kinds, 1) as int, t0.0);
        let t2 = P2::temp_of(args, start_of(kinds, 2) as int, t1.0);
        let t3 = P3::temp_of(args, start_of(kinds, 3) as int, t2.0);
        let t4 = P4::temp_of(args, start_of(kinds, 4) as int, t3.0);
        let t5 = P5::temp_of(args, start_of(kinds, 5) as int, t4.0);
        let t6 = P6::temp_of(args, start_of(kinds, 6) as int, t5.0);
        let t7 = P7::temp_of(args, start_of(kinds, 7) as int, t6.0);
        if i == 0 {
            failure(t0.1)
        } else if i == 1 {
            failure(t1.1)
        } else if i == 2 {
            failure(t2.1)
        } else if i == 3 {
            failure(t3.1)
        } else if i == 4 {
            failure(t4.1)
        } else if i == 5 {
            failure(t5.1)
        } else if i == 6 {
            failure(t6.1)
        } else {
            failure(t7.1)
        }
    }

    open spec fn second_failure(args: Seq<Slot>, h: Store, i: int) -> Option<GError> {
        let kinds = Self::kinds();
        let t0 = P0::temp_of(args, start_of(kinds, 0) as int, h);
        let t1 = P1::temp_of(args, start_of(kinds, 1) as int, t0.0);
        let t2 = P2::temp_of(args, start_of(kinds, 2) as int, t1.0);
        let t3 = P3::temp_of(args, start_of(kinds, 3) as int, t2.0);
        let t4 = P4::temp_of(args, start_of(kinds, 4) as int, t3.0);
        let t5 = P5::temp_of(args, start_of(kinds, 5) as int, t4.0);
        let t6 = P6::temp_of(args, start_of(kinds, 6) as int, t5.0);
        let t7 = P7::temp_of(args, start_of(kinds, 7) as int, t6.0);
        if i == 0 {
            failure(P0::arg_of(t0.1->Ok_0, t7.0))
        } else if i == 1 {
            failure(P1::arg_of(t1.1->Ok_0, t7.0))
        } else if i == 2 {
            failure(P2::arg_of(t2.1->Ok_0, t7.0))
        } else if i == 3 {
            failure(P3::arg_of(t3.1->Ok_0, t7.0))
        } else if i == 4 {
            failure(P4::arg_of(t4.1->Ok_0, t7.0))
        } else if i == 5 {
            failure(P5::arg_of(t5.1->Ok_0, t7.0))
        } else if i == 6 {
            failure(P6::arg_of(t6.1->Ok_0, t7.0))
        } else {
            failure(P7::arg_of(t7.1->Ok_0, t7.0))
        }
    }

    proof fn lawful_order(args: Seq<Slot>, h: Store) {
        let f0 = Self::first_failure(args, h, 0);
        let f1 = Self::first_failure(args, h, 1);
        let f2 = Self::first_failure(args, h, 2);
        let f3 = Self::first_failure(args, h, 3);
        let f4 = Self::first_failure(args, h, 4);
        let f5 = Self::first_failure(args, h, 5);
        let f6 = Self::first_failure(args, h, 6);
        let f7 = Self::first_failure(args, h, 7);
        let s0 = Self::second_failure(args, h, 0);
        let s1 = Self::second_failure(args, h, 1);
        let s2 = Self::second_failure(args, h, 2);
        let s3 = Self::second_failure(args, h, 3);
        let s4 = Self::second_failure(args, h, 4);
        let s5 = Self::second_failure(args, h, 5);
        let s6 = Self::second_failure(args, h, 6);
        let s7 = Self::second_failure(args, h, 7);
    }

    open spec fn alike(args: Seq<Slot>, other: Seq<Slot>) -> bool {
        let kinds = Self::kinds();
        &&& same_argument(P0::takes(), P0::alone(), args, other, start_of(kinds, 0) as int)
        &&& same_argument(P1::takes(), P1::alone(), args, other, start_of(kinds, 1) as int)
        &&& same_argument(P2::takes(), P2::alone(), args, other, start_of(kinds, 2) as int)
        &&& same_argument(P3::takes(), P3::alone(), args, other, start_of(kinds, 3) as int)
        &&& same_argument(P4::takes(), P4::alone(), args, other, start_of(kinds, 4) as int)
        &&& same_argument(P5::takes(), P5::alone(), args, other, start_of(kinds, 5) as int)
        &&& same_argument(P6::takes(), P6::alone(), args, other, start_of(kinds, 6) as int)
        &&& same_argument(P7::takes(), P7::alone(), args, other, start_of(kinds, 7) as int)
    }

    proof fn lawful_alike(args: Seq<Slot>, other: Seq<Slot>, h: Store) {
        let kinds = Self::kinds();
        P0::lawful_own(args, other, start_of(kinds, 0) as int, h);
        let h0 = P0::temp_of(args, start_of(kinds, 0) as int, h).0;
        P1::lawful_own(args, other, start_of(kinds, 1) as int, h0);
        let h1 = P1::temp_of(args, start_of(kinds, 1) as int, h0).0;
        P2::lawful_own(args, other, start_of(kinds, 2) as int, h1);
        let h2 = P2::temp_of(args, start_of(kinds, 2) as int, h1).0;
        P3::lawful_own(args, other, start_of(kinds, 3) as int, h2);
        let h3 = P3::temp_of(args, start_of(kinds, 3) as int, h2).0;
        P4::lawful_own(args, other, start_of(kinds, 4) as int, h3);
        let h4 = P4::temp_of(args, start_of(kinds, 4) as int, h3).0;
        P5::lawful_own(args, other, start_of(kinds, 5) as int, h4);
        let h5 = P5::temp_of(args, start_of(kinds, 5) as int, h4).0;
        P6::lawful_own(args, other, start_of(kinds, 6) as int, h5);
        let h6 = P6::temp_of(args, start_of(kinds, 6) as int, h5).0;
        P7::lawful_own(args, other, start_of(kinds, 7) as int, h6);
    }
}

impl<
    P0: Param,
    P1: Param,
    P2: Param,
    P3: Param,
    P4: Param,
    P5: Param,
    P6: Param,
    P7: Param,
    Ret,
    F,
> CalculateArgLimits for Wrapper<(P0, P1, P2, P3, P4, P5, P6, P7), Ret, F> {
    open spec fn params() -> Seq<ArgType> {
        <(P0, P1, P2, P3, P4, P5, P6, P7) as Params>::kinds()
    }

    fn calculate_arg_limits() -> (r: (usize, usize)) {
        let params: [ArgType; 8] = [
            P0::arg_type(),
            P1::arg_type(),
            P2::arg_type(),
            P3::arg_type(),
            P4::arg_type(),
            P5::arg_type(),
            P6::arg_type(),
            P7::arg_type(),
        ];
        assert(params@ =~= Self::params());
        arg_limits(&params).unwrap()
    }
}

impl<
    P0: Param,
    P1: Param,
    P2: Param,
    P3: Param,
    P4: Param,
    P5: Param,
    P6: Param,
    P7: Param,
    Ret: IntoVal,
    F,
> Wrapper<(P0, P1, P2, P3, P4, P5, P6, P7), Ret, F> where F: for <'a>Fn(
    Heap,
    P0::Output<'a>,
    P1::Output<'a>,
    P2::Output<'a>,
    P3::Output<'a>,
    P4::Output<'a>,
    P5::Output<'a>,
    P6::Output<'a>,
    P7::Output<'a>,
) -> (Heap, Ret) {
    /// The function can be called with these arguments, on this heap.
    pub open spec fn callable(&self, args: Seq<Slot>, h: Store) -> bool {
        &&& fitting(<(P0, P1, P2, P3, P4, P5, P6, P7) as Params>::kinds(), self.known_limits())
        &&& refusal::<(P0, P1, P2, P3, P4, P5, P6, P7)>(self.known_limits(), args, h) is None ==> {
            let (h1, ready) = <(P0, P1, P2, P3, P4, P5, P6, P7) as Params>::prepared(args, h);
            let models = ready->Ok_0;
            forall|before: Heap, x0, x1, x2, x3, x4, x5, x6, x7|
                before@ == h1
                    && P0::out_model(x0) == models.0
                    && P1::out_model(x1) == models.1
                    && P2::out_model(x2) == models.2
                    && P3::out_model(x3) == models.3
                    && P4::out_model(x4) == models.4
                    && P5::out_model(x5) == models.5
                    && P6::out_model(x6) == models.6
                    && P7::out_model(x7) == models.7
                    ==> #[trigger] call_requires(self.function(), (
                        before,
                        x0,
                        x1,
                        x2,
                        x3,
                        x4,
                        x5,
                        x6,
                        x7,
                    ))
        }
    }

    /// A call with these arguments, on the heap `h0`, may leave the heap `h1` and return `r`.
    pub open spec fn gives(&self, args: Seq<Slot>, h0: Store, h1: Store, r: GResult<Slot>) -> bool {
        match refusal::<(P0, P1, P2, P3, P4, P5, P6, P7)>(self.known_limits(), args, h0) {
            Some(e) => h1 == h0 && r == Err::<Slot, GError>(e),
            None => {
                let (h, ready) = <(P0, P1, P2, P3, P4, P5, P6, P7) as Params>::prepared(args, h0);
                let models = ready->Ok_0;
                exists|before: Heap, x0, x1, x2, x3, x4, x5, x6, x7, after: Heap, ret: Ret|
                    #[trigger] call_ensures(
                        self.function(),
                        (before, x0, x1, x2, x3, x4, x5, x6, x7),
                        (after, ret),
                    )
                        && before@ == h
                        && P0::out_model(x0) == models.0
                        && P1::out_model(x1) == models.1
                        && P2::out_model(x2) == models.2
                        && P3::out_model(x3) == models.3
                        && P4::out_model(x4) == models.4
                        && P5::out_model(x5) == models.5
                        && P6::out_model(x6) == models.6
                        && P7::out_model(x7) == models.7
                        && (h1, r) == concluded(h0, after@, ret)
            },
        }
    }

    /// Calls the function.
    #[verifier::rlimit(60)]
    pub fn wrapped_call(&self, args: &[Slot], heap: &mut Heap) -> (r: GResult<Slot>)
        requires
            self.callable(args@, old(heap)@),
        ensures
            self.gives(args@, old(heap)@, final(heap)@, r),
    {
        if args.len() < self.arg_limits.0 {
            return Err(GError::TooFewArgs { received: args.len(), at_least: self.arg_limits.0 });
        }
        if args.len() > self.arg_limits.1 {
            return Err(GError::TooManyArgs { received: args.len(), at_most: self.arg_limits.1 });
        }
        let mark: usize = heap.mark();
        let ghost h0 = heap@;
        let mut arg_i: usize = 0;
        proof {
            reveal_with_fuel(start_of, 9);
            if P0::takes() is Normal {
                law_normal_in_range(
                    <(P0, P1, P2, P3, P4, P5, P6, P7) as Params>::kinds(),
                    0,
                    args@.len(),
                );
            }
            if P1::takes() is Normal {
                law_normal_in_range(
                    <(P0, P1, P2, P3, P4, P5, P6, P7) as Params>::kinds(),
                    1,
                    args@.len(),
                );
            }
            if P2::takes() is Normal {
                law_normal_in_range(
                    <(P0, P1, P2, P3, P4, P5, P6, P7) as Params>::kinds(),
                    2,
                    args@.len(),
                );
            }
            if P3::takes() is Normal {
                law_normal_in_range(
                    <(P0, P1, P2, P3, P4, P5, P6, P7) as Params>::kinds(),
                    3,
                    args@.len(),
                );
            }
            if P4::takes() is Normal {
                law_normal_in_range(
                    <(P0, P1, P2, P3, P4, P5, P6, P7) as Params>::kinds(),
                    4,
                    args@.len(),
                );
            }
            if P5::takes() is Normal {
                law_normal_in_range(
                    <(P0, P1, P2, P3, P4, P5, P6, P7) as Params>::kinds(),
                    5,
                    args@.len(),
                );
            }
            if P6::takes() is Normal {
                law_normal_in_range(
                    <(P0, P1, P2, P3, P4, P5, P6, P7) as Params>::kinds(),
                    6,
                    args@.len(),
                );
            }
            if P7::takes() is Normal {
                law_normal_in_range(
                    <(P0, P1, P2, P3, P4, P5, P6, P7) as Params>::kinds(),
                    7,
                    args@.len(),
                );
            }
        }
        let ghost h_0 = heap@;
        proof {
            P0::lawful_temp(args@, arg_i as int, h_0);
        }
        let mut temp_0 = match P0::make_temp(args, arg_i, heap) {
            Ok(temp) => temp,
            Err(e) => {
                proof {
                    lemma_released(h0, heap@);
                }
                heap.release(mark);
                return Err(e);
            },
        };
        proof {
            lemma_only_borrowed(h0, h_0, heap@);
        }
        if P0::arg_type() != ArgType::RGlobal {
            arg_i = arg_i + 1;
        }
        let ghost h_1 = heap@;
        proof {
            P1::lawful_temp(args@, arg_i as int, h_1);
        }
        let mut temp_1 = match P1::make_temp(args, arg_i, heap) {
            Ok(temp) => temp,
            Err(e) => {
                proof {
                    lemma_released(h0, heap@);
                }
                heap.release(mark);
                return Err(e);
            },
        };
        proof {
            lemma_only_borrowed(h0, h_1, heap@);
        }
        if P1::arg_type() != ArgType::RGlobal {
            arg_i = arg_i + 1;
        }
        let ghost h_2 = heap@;
        proof {
            P2::lawful_temp(args@, arg_i as int, h_2);
        }
        let mut temp_2 = match P2::make_temp(args, arg_i, heap) {
            Ok(temp) => temp,
            Err(e) => {
                proof {
                    lemma_released(h0, heap@);
                }
                heap.release(mark);
                return Err(e);
            },
        };
        proof {
            lemma_only_borrowed(h0, h_2, heap@);
        }
        if P2::arg_type() != ArgType::RGlobal {
            arg_i = arg_i + 1;
        }
        let ghost h_3 = heap@;
        proof {
            P3::lawful_temp(args@, arg_i as int, h_3);
        }
        let mut temp_3 = match P3::make_temp(args, arg_i, heap) {
            Ok(temp) => temp,
            Err(e) => {
                proof {
                    lemma_released(h0, heap@);
                }
                heap.release(mark);
                return Err(e);
            },
        };
        proof {
            lemma_only_borrowed(h0, h_3, heap@);
        }
        if P3::arg_type() != ArgType::RGlobal {
            arg_i = arg_i + 1;
        }
        let ghost h_4 = heap@;
        proof {
            P4::lawful_temp(args@, arg_i as int, h_4);
        }
        let mut temp_4 = match P4::make_temp(args, arg_i, heap) {
            Ok(temp) => temp,
            Err(e) => {
                proof {
                    lemma_released(h0, heap@);
                }
                heap.release(mark);
                return Err(e);
            },
        };
        proof {
            lemma_only_borrowed(h0, h_4, heap@);
        }
        if P4::arg_type() != ArgType::RGlobal {
            arg_i = arg_i + 1;
        }
        let ghost h_5 = heap@;
        proof {
            P5::lawful_temp(args@, arg_i as int, h_5);
        }
        let mut temp_5 = match P5::make_temp(args, arg_i, heap) {
            Ok(temp) => temp,
            Err(e) => {
                proof {
                    lemma_released(h0, heap@);
                }
                heap.release(mark);
                return Err(e);
            },
        };
        proof {
            lemma_only_borrowed(h0, h_5, heap@);
        }
        if P5::arg_type() != ArgType::RGlobal {
            arg_i = arg_i + 1;
        }
        let ghost h_6 = heap@;
        proof {
            P6::lawful_temp(args@, arg_i as int, h_6);
        }
        let mut temp_6 = match P6::make_temp(args, arg_i, heap) {
            Ok(temp) => temp,
            Err(e) => {
                proof {
                    lemma_released(h0, heap@);
                }
                heap.release(mark);
                return Err(e);
            },
        };
        proof {
            lemma_only_borrowed(h0, h_6, heap@);
        }
        if P6::arg_type() != ArgType::RGlobal {
            arg_i = arg_i + 1;
        }
        let ghost h_7 = heap@;
        proof {
            P7::lawful_temp(args@, arg_i as int, h_7);
        }
        let mut temp_7 = match P7::make_temp(args, arg_i, heap) {
            Ok(temp) => temp,
            Err(e) => {
                proof {
                    lemma_released(h0, heap@);
                }
                heap.release(mark);
                return Err(e);
            },
        };
        proof {
            lemma_only_borrowed(h0, h_7, heap@);
        }
        let x0 = match P0::from_arg(&mut temp_0, heap) {
            Ok(x) => x,
            Err(e) => {
                proof {
                    lemma_released(h0, heap@);
                }
                heap.release(mark);
                return Err(e);
            },
        };
        let x1 = match P1::from_arg(&mut temp_1, heap) {
            Ok(x) => x,
            Err(e) => {
                proof {
                    lemma_released(h0, heap@);
                }
                heap.release(mark);
                return Err(e);
            },
        };
        let x2 = match P2::from_arg(&mut temp_2, heap) {
            Ok(x) => x,
            Err(e) => {
                proof {
                    lemma_released(h0, heap@);
                }
                heap.release(mark);
                return Err(e);
            },
        };
        let x3 = match P3::from_arg(&mut temp_3, heap) {
            Ok(x) => x,
            Err(e) => {
                proof {
                    lemma_released(h0, heap@);
                }
                heap.release(mark);
                return Err(e);
            },
        };
        let x4 = match P4::from_arg(&mut temp_4, heap) {
            Ok(x) => x,
            Err(e) => {
                proof {
                    lemma_released(h0, heap@);
                }
                heap.release(mark);
                return Err(e);
            },
        };
        let x5 = match P5::from_arg(&mut temp_5, heap) {
            Ok(x) => x,
            Err(e) => {
                proof {
                    lemma_released(h0, heap@);
                }
                heap.release(mark);
                return Err(e);
            },
        };
        let x6 = match P6::from_arg(&mut temp_6, heap) {
            Ok(x) => x,
            Err(e) => {
                proof {
                    lemma_released(h0, heap@);
                }
                heap.release(mark);
                return Err(e);
            },
        };
        let x7 = match P7::from_arg(&mut temp_7, heap) {
            Ok(x) => x,
            Err(e) => {
                proof {
                    lemma_released(h0, heap@);
                }
                heap.release(mark);
                return Err(e);
            },
        };
        let mut before = Heap::new();
        std::mem::swap(&mut before, heap);
        let ghost taken = before;
        assert(call_requires(self.function(), (taken, x0, x1, x2, x3, x4, x5, x6, x7)));
        let (after, ret) = (self.f)(before, x0, x1, x2, x3, x4, x5, x6, x7);
        assert(call_ensures(
            self.function(),
            (taken, x0, x1, x2, x3, x4, x5, x6, x7),
            (after, ret),
        ));
        *heap = after;
        let r = F::output_into_slot(ret, heap);
        heap.release(mark);
        r
    }

    /// A call within the limits, for which every parameter can be made, is one call of the
    /// function: each parameter is what its own arguments become, and the result of the call is
    /// what the function returned, converted as a value of its type.
    pub proof fn law_one_call(&self, args: Seq<Slot>, h0: Store, h1: Store, r: GResult<Slot>)
        requires
            self.gives(args, h0, h1, r),
            self.known_limits().0 <= args.len() <= self.known_limits().1,
            all_ready::<(P0, P1, P2, P3, P4, P5, P6, P7)>(args, h0),
        ensures
            ({
                let kinds = <(P0, P1, P2, P3, P4, P5, P6, P7) as Params>::kinds();
                let t0 = P0::temp_of(args, start_of(kinds, 0) as int, h0);
                let t1 = P1::temp_of(args, start_of(kinds, 1) as int, t0.0);
                let t2 = P2::temp_of(args, start_of(kinds, 2) as int, t1.0);
                let t3 = P3::temp_of(args, start_of(kinds, 3) as int, t2.0);
                let t4 = P4::temp_of(args, start_of(kinds, 4) as int, t3.0);
                let t5 = P5::temp_of(args, start_of(kinds, 5) as int, t4.0);
                let t6 = P6::temp_of(args, start_of(kinds, 6) as int, t5.0);
                let t7 = P7::temp_of(args, start_of(kinds, 7) as int, t6.0);
                exists|before: Heap, x0, x1, x2, x3, x4, x5, x6, x7, after: Heap, ret: Ret|
                    #[trigger] call_ensures(
                        self.function(),
                        (before, x0, x1, x2, x3, x4, x5, x6, x7),
                        (after, ret),
                    )
                        && before@ == t7.0
                        && P0::arg_of(t0.1->Ok_0, t7.0) == Ok::<
                            P0::OutModel,
                            GError,
                        >(P0::out_model(x0))
                        && P1::arg_of(t1.1->Ok_0, t7.0) == Ok::<
                            P1::OutModel,
                            GError,
                        >(P1::out_model(x1))
                        && P2::arg_of(t2.1->Ok_0, t7.0) == Ok::<
                            P2::OutModel,
                            GError,
                        >(P2::out_model(x2))
                        && P3::arg_of(t3.1->Ok_0, t7.0) == Ok::<
                            P3::OutModel,
                            GError,
                        >(P3::out_model(x3))
                        && P4::arg_of(t4.1->Ok_0, t7.0) == Ok::<
                            P4::OutModel,
                            GError,
                        >(P4::out_model(x4))
                        && P5::arg_of(t5.1->Ok_0, t7.0) == Ok::<
                            P5::OutModel,
                            GError,
                        >(P5::out_model(x5))
                        && P6::arg_of(t6.1->Ok_0, t7.0) == Ok::<
                            P6::OutModel,
                            GError,
                        >(P6::out_model(x6))
                        && P7::arg_of(t7.1->Ok_0, t7.0) == Ok::<
                            P7::OutModel,
                            GError,
                        >(P7::out_model(x7))
                        && (h1, r) == concluded(h0, after@, ret)
            }),
    {
        <(P0, P1, P2, P3, P4, P5, P6, P7) as Params>::lawful_order(args, h0);
    }

    /// A call that is refused returns the reason, and leaves the heap as it was.
    pub proof fn law_refused(&self, args: Seq<Slot>, h0: Store, h1: Store, r: GResult<Slot>)
        requires
            self.gives(args, h0, h1, r),
            refusal::<(P0, P1, P2, P3, P4, P5, P6, P7)>(self.known_limits(), args, h0) is Some,
        ensures
            h1 == h0,
            r == Err::<Slot, GError>(
                refusal::<(P0, P1, P2, P3, P4, P5, P6, P7)>(self.known_limits(), args, h0)->Some_0,
            ),
    {
    }

    /// A call that is refused asks nothing of the function, which is not called.
    pub proof fn law_refused_without_a_call(&self, args: Seq<Slot>, h: Store)
        requires
            fitting(<(P0, P1, P2, P3, P4, P5, P6, P7) as Params>::kinds(), self.known_limits()),
            refusal::<(P0, P1, P2, P3, P4, P5, P6, P7)>(self.known_limits(), args, h) is Some,
        ensures
            self.callable(args, h),
    {
    }

    /// Calls with arguments that are the same to every parameter are the same call.
    pub proof fn law_same_call(&self, args: Seq<Slot>, other: Seq<Slot>, h0: Store)
        requires
            <(P0, P1, P2, P3, P4, P5, P6, P7) as Params>::alike(args, other),
            self.known_limits().0 <= args.len() <= self.known_limits().1,
            self.known_limits().0 <= other.len() <= self.known_limits().1,
        ensures
            self.callable(args, h0) == self.callable(other, h0),
            forall|h1: Store, r: GResult<Slot>|
                self.gives(args, h0, h1, r) == #[trigger] self.gives(other, h0, h1, r),
    {
        <(P0, P1, P2, P3, P4, P5, P6, P7) as Params>::lawful_alike(args, other, h0);
    }
}

impl<
    P0: Param,
    P1: Param,
    P2: Param,
    P3: Param,
    P4: Param,
    P5: Param,
    P6: Param,
    P7: Param,
    Ret: IntoVal,
    F,
> WrappedCall for Wrapper<(P0, P1, P2, P3, P4, P5, P6, P7), Ret, F> where
    F: for <'a>Fn(
        Heap,
        P0::Output<'a>,
        P1::Output<'a>,
        P2::Output<'a>,
        P3::Output<'a>,
        P4::Output<'a>,
        P5::Output<'a>,
        P6::Output<'a>,
        P7::Output<'a>,
    ) -> (Heap, Ret),
 {
    open spec fn limits(&self) -> (usize, usize) {
        self.known_limits()
    }

    open spec fn callable(&self, args: Seq<Slot>, h: Store) -> bool {
        Self::callable(self, args, h)
    }

    open spec fn refuses(&self, args: Seq<Slot>, h: Store) -> Option<GError> {
        refusal::<(P0, P1, P2, P3, P4, P5, P6, P7)>(self.known_limits(), args, h)
    }

    open spec fn gives(&self, args: Seq<Slot>, h0: Store, h1: Store, r: GResult<Slot>) -> bool {
        Self::gives(self, args, h0, h1, r)
    }

    proof fn lawful_call(&self, args: Seq<Slot>, h0: Store, h1: Store, r: GResult<Slot>) {
    }

    fn arg_limits(&self) -> (r: (usize, usize))
        ensures
            r == self.known_limits(),
    {
        self.arg_limits
    }

    fn wrapped_call(&self, args: &[Slot], heap: &mut Heap) -> (r: GResult<Slot>)
        ensures
            Self::gives(self, args@, old(heap)@, final(heap)@, r),
    {
        Self::wrapped_call(self, args, heap)
    }
}

} // verus!
