//! Round trips: what is read back of what was converted.

use std::collections::VecDeque;

use vstd::prelude::*;
use vstd::utf8::decode_utf8_encode_utf8;

use crate::callable::Callable;
use crate::error::{GError, GResult};
use crate::from_val::{each, models, FromVal, Modelled};
use crate::into_val::{joined, joined_all, packed, started, IntoVal};
use crate::marker::HostType;
use crate::small::SmallList;
use crate::store::Store;
use crate::text::{has_nul, CText, OsText, PathText};
use crate::value::{
    Deque, Expander, Flo, Iterable, Num, Order, Pointee, RRoot, Raw, Root, Slot, Sym, Val,
};

verus! {

/// A host type whose conversion loses nothing: the value that it gives is read back, as a `T`, as
/// what went in.
pub trait Lossless<T: FromVal>: IntoVal {
    /// This is as every host value of its type is.
    spec fn sound(self) -> bool;

    /// What is read back.
    spec fn meant(self) -> T::Model;

    /// The conversion adds to the heap, and changes nothing that is there.
    proof fn grows(self, h: Store)
        ensures
            self.to_val(h).0.extends(h),
    ;

    /// Where the conversion succeeds, the value can be read back at any time after it, whatever
    /// else has been added to the heap.
    proof fn lossless(self, h: Store, later: Store)
        requires
            self.sound(),
            self.to_val(h).1 is Ok,
            later.extends(self.to_val(h).0),
            later.addressable(),
        ensures
            T::of_val(later, self.to_val(h).1->Ok_0) == Ok::<T::Model, GError>(self.meant()),
    ;
}

/// A host type whose values come back as they were.
pub trait RoundTrip: FromVal + Lossless<Self> {
    /// What is read back is what the host value stands for.
    proof fn faithful(self)
        ensures
            <Self as Lossless<Self>>::meant(self) == self.model(),
    ;
}

/// A host type whose values come back as they were when they are converted by reference.
pub trait ByRef: FromVal where for <'b>&'b Self: Lossless<Self> {
    /// What is read back is what the host value stands for.
    proof fn faithful_by_ref(&self)
        ensures
            <&Self as Lossless<Self>>::meant(self) == (*self).model(),
    ;
}

/// Converting a host value and reading it back gives what it stood for, at any time after the
/// conversion, and whatever else has been added to the heap meanwhile.
pub proof fn law_round_trip<T: RoundTrip>(t: T, h: Store, later: Store)
    requires
        <T as Lossless<T>>::sound(t),
        t.to_val(h).1 is Ok,
        later.extends(t.to_val(h).0),
        later.addressable(),
    ensures
        T::of_val(later, t.to_val(h).1->Ok_0) == Ok::<T::Model, GError>(t.model()),
{
    <T as Lossless<T>>::lossless(t, h, later);
    t.faithful();
}

/// Converting a host value changes nothing that is on the heap, whether it succeeds or not.
pub proof fn law_conversion_only_adds<T: FromVal, A: Lossless<T>>(a: A, h: Store)
    ensures
        a.to_val(h).0.extends(h),
{
    a.grows(h);
}

/// What has been added to twice has been added to.
pub proof fn lemma_extends(a: Store, b: Store, c: Store)
    requires
        b.extends(a),
        c.extends(b),
    ensures
        c.extends(a),
{
    reveal(Store::extends);
}

impl Lossless<Val> for Val {
    open spec fn sound(self) -> bool {
        true
    }

    open spec fn meant(self) -> <Val as Modelled>::Model {
        self
    }

    proof fn grows(self, h: Store) {
        reveal(Store::extends);
    }

    proof fn lossless(self, h: Store, later: Store) {
    }
}

impl<'a> Lossless<Val> for &'a Val {
    open spec fn sound(self) -> bool {
        true
    }

    open spec fn meant(self) -> <Val as Modelled>::Model {
        *self
    }

    proof fn grows(self, h: Store) {
        reveal(Store::extends);
    }

    proof fn lossless(self, h: Store, later: Store) {
    }
}

impl ByRef for Val {
    proof fn faithful_by_ref(&self) {
    }
}

impl RoundTrip for Val {
    proof fn faithful(self) {
    }
}

impl Lossless<Slot> for Slot {
    open spec fn sound(self) -> bool {
        true
    }

    open spec fn meant(self) -> <Slot as Modelled>::Model {
        self
    }

    proof fn grows(self, h: Store) {
        reveal(Store::extends);
    }

    proof fn lossless(self, h: Store, later: Store) {
    }
}

impl<'a> Lossless<Slot> for &'a Slot {
    open spec fn sound(self) -> bool {
        true
    }

    open spec fn meant(self) -> <Slot as Modelled>::Model {
        *self
    }

    proof fn grows(self, h: Store) {
        reveal(Store::extends);
    }

    proof fn lossless(self, h: Store, later: Store) {
    }
}

impl ByRef for Slot {
    proof fn faithful_by_ref(&self) {
    }
}

impl RoundTrip for Slot {
    proof fn faithful(self) {
    }
}

impl Lossless<i8> for i8 {
    open spec fn sound(self) -> bool {
        true
    }

    open spec fn meant(self) -> <i8 as Modelled>::Model {
        self
    }

    proof fn grows(self, h: Store) {
        reveal(Store::extends);
    }

    proof fn lossless(self, h: Store, later: Store) {
    }
}

impl<'a> Lossless<i8> for &'a i8 {
    open spec fn sound(self) -> bool {
        true
    }

    open spec fn meant(self) -> <i8 as Modelled>::Model {
        *self
    }

    proof fn grows(self, h: Store) {
        reveal(Store::extends);
    }

    proof fn lossless(self, h: Store, later: Store) {
    }
}

impl ByRef for i8 {
    proof fn faithful_by_ref(&self) {
    }
}

impl RoundTrip for i8 {
    proof fn faithful(self) {
    }
}

impl Lossless<i16> for i16 {
    open spec fn sound(self) -> bool {
        true
    }

    open spec fn meant(self) -> <i16 as Modelled>::Model {
        self
    }

    proof fn grows(self, h: Store) {
        reveal(Store::extends);
    }

    proof fn lossless(self, h: Store, later: Store) {
    }
}

impl<'a> Lossless<i16> for &'a i16 {
    open spec fn sound(self) -> bool {
        true
    }

    open spec fn meant(self) -> <i16 as Modelled>::Model {
        *self
    }

    proof fn grows(self, h: Store) {
        reveal(Store::extends);
    }

    proof fn lossless(self, h: Store, later: Store) {
    }
}

impl ByRef for i16 {
    proof fn faithful_by_ref(&self) {
    }
}

impl RoundTrip for i16 {
    proof fn faithful(self) {
    }
}

impl Lossless<i32> for i32 {
    open spec fn sound(self) -> bool {
        true
    }

    open spec fn meant(self) -> <i32 as Modelled>::Model {
        self
    }

    proof fn grows(self, h: Store) {
        reveal(Store::extends);
    }

    proof fn lossless(self, h: Store, later: Store) {
    }
}

impl<'a> Lossless<i32> for &'a i32 {
    open spec fn sound(self) -> bool {
        true
    }

    open spec fn meant(self) -> <i32 as Modelled>::Model {
        *self
    }

    proof fn grows(self, h: Store) {
        reveal(Store::extends);
    }

    proof fn lossless(self, h: Store, later: Store) {
    }
}

impl ByRef for i32 {
    proof fn faithful_by_ref(&self) {
    }
}

impl RoundTrip for i32 {
    proof fn faithful(self) {
    }
}

impl Lossless<i64> for i64 {
    open spec fn sound(self) -> bool {
        true
    }

    open spec fn meant(self) -> <i64 as Modelled>::Model {
        self
    }

    proof fn grows(self, h: Store) {
        reveal(Store::extends);
    }

    proof fn lossless(self, h: Store, later: Store) {
    }
}

impl<'a> Lossless<i64> for &'a i64 {
    open spec fn sound(self) -> bool {
        true
    }

    open spec fn meant(self) -> <i64 as Modelled>::Model {
        *self
    }

    proof fn grows(self, h: Store) {
        reveal(Store::extends);
    }

    proof fn lossless(self, h: Store, later: Store) {
    }
}

impl ByRef for i64 {
    proof fn faithful_by_ref(&self) {
    }
}

impl RoundTrip for i64 {
    proof fn faithful(self) {
    }
}

impl Lossless<i128> for i128 {
    open spec fn sound(self) -> bool {
        true
    }

    open spec fn meant(self) -> <i128 as Modelled>::Model {
        self
    }

    proof fn grows(self, h: Store) {
        reveal(Store::extends);
    }

    proof fn lossless(self, h: Store, later: Store) {
    }
}

impl<'a> Lossless<i128> for &'a i128 {
    open spec fn sound(self) -> bool {
        true
    }

    open spec fn meant(self) -> <i128 as Modelled>::Model {
        *self
    }

    proof fn grows(self, h: Store) {
        reveal(Store::extends);
    }

    proof fn lossless(self, h: Store, later: Store) {
    }
}

impl ByRef for i128 {
    proof fn faithful_by_ref(&self) {
    }
}

impl RoundTrip for i128 {
    proof fn faithful(self) {
    }
}

impl Lossless<isize> for isize {
    open spec fn sound(self) -> bool {
        true
    }

    open spec fn meant(self) -> <isize as Modelled>::Model {
        self
    }

    proof fn grows(self, h: Store) {
        reveal(Store::extends);
    }

    proof fn lossless(self, h: Store, later: Store) {
    }
}

impl<'a> Lossless<isize> for &'a isize {
    open spec fn sound(self) -> bool {
        true
    }

    open spec fn meant(self) -> <isize as Modelled>::Model {
        *self
    }

    proof fn grows(self, h: Store) {
        reveal(Store::extends);
    }

    proof fn lossless(self, h: Store, later: Store) {
    }
}

impl ByRef for isize {
    proof fn faithful_by_ref(&self) {
    }
}

impl RoundTrip for isize {
    proof fn faithful(self) {
    }
}

impl Lossless<u8> for u8 {
    open spec fn sound(self) -> bool {
        true
    }

    open spec fn meant(self) -> <u8 as Modelled>::Model {
        self
    }

    proof fn grows(self, h: Store) {
        reveal(Store::extends);
    }

    proof fn lossless(self, h: Store, later: Store) {
    }
}

impl<'a> Lossless<u8> for &'a u8 {
    open spec fn sound(self) -> bool {
        true
    }

    open spec fn meant(self) -> <u8 as Modelled>::Model {
        *self
    }

    proof fn grows(self, h: Store) {
        reveal(Store::extends);
    }

    proof fn lossless(self, h: Store, later: Store) {
    }
}

impl ByRef for u8 {
    proof fn faithful_by_ref(&self) {
    }
}

impl RoundTrip for u8 {
    proof fn faithful(self) {
    }
}

impl Lossless<u16> for u16 {
    open spec fn sound(self) -> bool {
        true
    }

    open spec fn meant(self) -> <u16 as Modelled>::Model {
        self
    }

    proof fn grows(self, h: Store) {
        reveal(Store::extends);
    }

    proof fn lossless(self, h: Store, later: Store) {
    }
}

impl<'a> Lossless<u16> for &'a u16 {
    open spec fn sound(self) -> bool {
        true
    }

    open spec fn meant(self) -> <u16 as Modelled>::Model {
        *self
    }

    proof fn grows(self, h: Store) {
        reveal(Store::extends);
    }

    proof fn lossless(self, h: Store, later: Store) {
    }
}

impl ByRef for u16 {
    proof fn faithful_by_ref(&self) {
    }
}

impl RoundTrip for u16 {
    proof fn faithful(self) {
    }
}

impl Lossless<u32> for u32 {
    open spec fn sound(self) -> bool {
        true
    }

    open spec fn meant(self) -> <u32 as Modelled>::Model {
        self
    }

    proof fn grows(self, h: Store) {
        reveal(Store::extends);
    }

    proof fn lossless(self, h: Store, later: Store) {
    }
}

impl<'a> Lossless<u32> for &'a u32 {
    open spec fn sound(self) -> bool {
        true
    }

    open spec fn meant(self) -> <u32 as Modelled>::Model {
        *self
    }

    proof fn grows(self, h: Store) {
        reveal(Store::extends);
    }

    proof fn lossless(self, h: Store, later: Store) {
    }
}

impl ByRef for u32 {
    proof fn faithful_by_ref(&self) {
    }
}

impl RoundTrip for u32 {
    proof fn faithful(self) {
    }
}

impl Lossless<u64> for u64 {
    open spec fn sound(self) -> bool {
        true
    }

    open spec fn meant(self) -> <u64 as Modelled>::Model {
        self
    }

    proof fn grows(self, h: Store) {
        reveal(Store::extends);
    }

    proof fn lossless(self, h: Store, later: Store) {
    }
}

impl<'a> Lossless<u64> for &'a u64 {
    open spec fn sound(self) -> bool {
        true
    }

    open spec fn meant(self) -> <u64 as Modelled>::Model {
        *self
    }

    proof fn grows(self, h: Store) {
        reveal(Store::extends);
    }

    proof fn lossless(self, h: Store, later: Store) {
    }
}

impl ByRef for u64 {
    proof fn faithful_by_ref(&self) {
    }
}

impl RoundTrip for u64 {
    proof fn faithful(self) {
    }
}

impl Lossless<u128> for u128 {
    open spec fn sound(self) -> bool {
        true
    }

    open spec fn meant(self) -> <u128 as Modelled>::Model {
        self
    }

    proof fn grows(self, h: Store) {
        reveal(Store::extends);
    }

    proof fn lossless(self, h: Store, later: Store) {
    }
}

impl<'a> Lossless<u128> for &'a u128 {
    open spec fn sound(self) -> bool {
        true
    }

    open spec fn meant(self) -> <u128 as Modelled>::Model {
        *self
    }

    proof fn grows(self, h: Store) {
        reveal(Store::extends);
    }

    proof fn lossless(self, h: Store, later: Store) {
    }
}

impl ByRef for u128 {
    proof fn faithful_by_ref(&self) {
    }
}

impl RoundTrip for u128 {
    proof fn faithful(self) {
    }
}

impl Lossless<usize> for usize {
    open spec fn sound(self) -> bool {
        true
    }

    open spec fn meant(self) -> <usize as Modelled>::Model {
        self
    }

    proof fn grows(self, h: Store) {
        reveal(Store::extends);
    }

    proof fn lossless(self, h: Store, later: Store) {
    }
}

impl<'a> Lossless<usize> for &'a usize {
    open spec fn sound(self) -> bool {
        true
    }

    open spec fn meant(self) -> <usize as Modelled>::Model {
        *self
    }

    proof fn grows(self, h: Store) {
        reveal(Store::extends);
    }

    proof fn lossless(self, h: Store, later: Store) {
    }
}

impl ByRef for usize {
    proof fn faithful_by_ref(&self) {
    }
}

impl RoundTrip for usize {
    proof fn faithful(self) {
    }
}

impl Lossless<char> for char {
    open spec fn sound(self) -> bool {
        true
    }

    open spec fn meant(self) -> <char as Modelled>::Model {
        self
    }

    proof fn grows(self, h: Store) {
        reveal(Store::extends);
    }

    proof fn lossless(self, h: Store, later: Store) {
    }
}

impl<'a> Lossless<char> for &'a char {
    open spec fn sound(self) -> bool {
        true
    }

    open spec fn meant(self) -> <char as Modelled>::Model {
        *self
    }

    proof fn grows(self, h: Store) {
        reveal(Store::extends);
    }

    proof fn lossless(self, h: Store, later: Store) {
    }
}

impl ByRef for char {
    proof fn faithful_by_ref(&self) {
    }
}

impl RoundTrip for char {
    proof fn faithful(self) {
    }
}

impl Lossless<bool> for bool {
    open spec fn sound(self) -> bool {
        true
    }

    open spec fn meant(self) -> <bool as Modelled>::Model {
        self
    }

    proof fn grows(self, h: Store) {
        reveal(Store::extends);
    }

    proof fn lossless(self, h: Store, later: Store) {
    }
}

impl<'a> Lossless<bool> for &'a bool {
    open spec fn sound(self) -> bool {
        true
    }

    open spec fn meant(self) -> <bool as Modelled>::Model {
        *self
    }

    proof fn grows(self, h: Store) {
        reveal(Store::extends);
    }

    proof fn lossless(self, h: Store, later: Store) {
    }
}

impl ByRef for bool {
    proof fn faithful_by_ref(&self) {
    }
}

impl RoundTrip for bool {
    proof fn faithful(self) {
    }
}

impl Lossless<Sym> for Sym {
    open spec fn sound(self) -> bool {
        true
    }

    open spec fn meant(self) -> <Sym as Modelled>::Model {
        self
    }

    proof fn grows(self, h: Store) {
        reveal(Store::extends);
    }

    proof fn lossless(self, h: Store, later: Store) {
    }
}

impl<'a> Lossless<Sym> for &'a Sym {
    open spec fn sound(self) -> bool {
        true
    }

    open spec fn meant(self) -> <Sym as Modelled>::Model {
        *self
    }

    proof fn grows(self, h: Store) {
        reveal(Store::extends);
    }

    proof fn lossless(self, h: Store, later: Store) {
    }
}

impl ByRef for Sym {
    proof fn faithful_by_ref(&self) {
    }
}

impl RoundTrip for Sym {
    proof fn faithful(self) {
    }
}

impl Lossless<Flo> for Flo {
    open spec fn sound(self) -> bool {
        true
    }

    open spec fn meant(self) -> <Flo as Modelled>::Model {
        self
    }

    proof fn grows(self, h: Store) {
        reveal(Store::extends);
    }

    proof fn lossless(self, h: Store, later: Store) {
    }
}

impl<'a> Lossless<Flo> for &'a Flo {
    open spec fn sound(self) -> bool {
        true
    }

    open spec fn meant(self) -> <Flo as Modelled>::Model {
        *self
    }

    proof fn grows(self, h: Store) {
        reveal(Store::extends);
    }

    proof fn lossless(self, h: Store, later: Store) {
    }
}

impl ByRef for Flo {
    proof fn faithful_by_ref(&self) {
    }
}

impl RoundTrip for Flo {
    proof fn faithful(self) {
    }
}

impl Lossless<Num> for Num {
    open spec fn sound(self) -> bool {
        true
    }

    open spec fn meant(self) -> <Num as Modelled>::Model {
        self
    }

    proof fn grows(self, h: Store) {
        reveal(Store::extends);
    }

    proof fn lossless(self, h: Store, later: Store) {
    }
}

impl<'a> Lossless<Num> for &'a Num {
    open spec fn sound(self) -> bool {
        true
    }

    open spec fn meant(self) -> <Num as Modelled>::Model {
        *self
    }

    proof fn grows(self, h: Store) {
        reveal(Store::extends);
    }

    proof fn lossless(self, h: Store, later: Store) {
    }
}

impl ByRef for Num {
    proof fn faithful_by_ref(&self) {
    }
}

impl RoundTrip for Num {
    proof fn faithful(self) {
    }
}

impl Lossless<Deque> for Deque {
    open spec fn sound(self) -> bool {
        true
    }

    open spec fn meant(self) -> <Deque as Modelled>::Model {
        self
    }

    proof fn grows(self, h: Store) {
        reveal(Store::extends);
    }

    proof fn lossless(self, h: Store, later: Store) {
    }
}

impl<'a> Lossless<Deque> for &'a Deque {
    open spec fn sound(self) -> bool {
        true
    }

    open spec fn meant(self) -> <Deque as Modelled>::Model {
        *self
    }

    proof fn grows(self, h: Store) {
        reveal(Store::extends);
    }

    proof fn lossless(self, h: Store, later: Store) {
    }
}

impl ByRef for Deque {
    proof fn faithful_by_ref(&self) {
    }
}

impl RoundTrip for Deque {
    proof fn faithful(self) {
    }
}

impl Lossless<Callable> for Callable {
    open spec fn sound(self) -> bool {
        true
    }

    open spec fn meant(self) -> <Callable as Modelled>::Model {
        self
    }

    proof fn grows(self, h: Store) {
        reveal(Store::extends);
    }

    proof fn lossless(self, h: Store, later: Store) {
    }
}

impl<'a> Lossless<Callable> for &'a Callable {
    open spec fn sound(self) -> bool {
        true
    }

    open spec fn meant(self) -> <Callable as Modelled>::Model {
        *self
    }

    proof fn grows(self, h: Store) {
        reveal(Store::extends);
    }

    proof fn lossless(self, h: Store, later: Store) {
    }
}

impl ByRef for Callable {
    proof fn faithful_by_ref(&self) {
    }
}

impl RoundTrip for Callable {
    proof fn faithful(self) {
    }
}

impl Lossless<Expander> for Expander {
    open spec fn sound(self) -> bool {
        true
    }

    open spec fn meant(self) -> <Expander as Modelled>::Model {
        self
    }

    proof fn grows(self, h: Store) {
        reveal(Store::extends);
    }

    proof fn lossless(self, h: Store, later: Store) {
    }
}

impl<'a> Lossless<Expander> for &'a Expander {
    open spec fn sound(self) -> bool {
        true
    }

    open spec fn meant(self) -> <Expander as Modelled>::Model {
        *self
    }

    proof fn grows(self, h: Store) {
        reveal(Store::extends);
    }

    proof fn lossless(self, h: Store, later: Store) {
    }
}

impl ByRef for Expander {
    proof fn faithful_by_ref(&self) {
    }
}

impl RoundTrip for Expander {
    proof fn faithful(self) {
    }
}

impl Lossless<Iterable> for Iterable {
    open spec fn sound(self) -> bool {
        true
    }

    open spec fn meant(self) -> <Iterable as Modelled>::Model {
        self
    }

    proof fn grows(self, h: Store) {
        reveal(Store::extends);
    }

    proof fn lossless(self, h: Store, later: Store) {
    }
}

impl<'a> Lossless<Iterable> for &'a Iterable {
    open spec fn sound(self) -> bool {
        true
    }

    open spec fn meant(self) -> <Iterable as Modelled>::Model {
        *self
    }

    proof fn grows(self, h: Store) {
        reveal(Store::extends);
    }

    proof fn lossless(self, h: Store, later: Store) {
    }
}

impl ByRef for Iterable {
    proof fn faithful_by_ref(&self) {
    }
}

impl RoundTrip for Iterable {
    proof fn faithful(self) {
    }
}

impl Lossless<Order> for Order {
    open spec fn sound(self) -> bool {
        true
    }

    open spec fn meant(self) -> <Order as Modelled>::Model {
        self
    }

    proof fn grows(self, h: Store) {
        reveal(Store::extends);
    }

    proof fn lossless(self, h: Store, later: Store) {
    }
}

impl<'a> Lossless<Order> for &'a Order {
    open spec fn sound(self) -> bool {
        true
    }

    open spec fn meant(self) -> <Order as Modelled>::Model {
        *self
    }

    proof fn grows(self, h: Store) {
        reveal(Store::extends);
    }

    proof fn lossless(self, h: Store, later: Store) {
    }
}

impl ByRef for Order {
    proof fn faithful_by_ref(&self) {
    }
}

impl RoundTrip for Order {
    proof fn faithful(self) {
    }
}

impl<T: Pointee> Lossless<Root<T>> for Root<T> {
    open spec fn sound(self) -> bool {
        true
    }

    open spec fn meant(self) -> <Root<T> as Modelled>::Model {
        self
    }

    proof fn grows(self, h: Store) {
        reveal(Store::extends);
    }

    proof fn lossless(self, h: Store, later: Store) {
        T::val_of_root_in(self, T::val_of(self));
    }
}

impl<'a, T: Pointee> Lossless<Root<T>> for &'a Root<T> {
    open spec fn sound(self) -> bool {
        true
    }

    open spec fn meant(self) -> <Root<T> as Modelled>::Model {
        *self
    }

    proof fn grows(self, h: Store) {
        reveal(Store::extends);
    }

    proof fn lossless(self, h: Store, later: Store) {
        T::val_of_root_in(*self, T::val_of(*self));
    }
}

impl<T: Pointee> ByRef for Root<T> {
    proof fn faithful_by_ref(&self) {
    }
}

impl<T: Pointee> RoundTrip for Root<T> {
    proof fn faithful(self) {
    }
}

impl<T: Pointee> Lossless<Raw<T>> for Raw<T> {
    open spec fn sound(self) -> bool {
        true
    }

    open spec fn meant(self) -> <Raw<T> as Modelled>::Model {
        self
    }

    proof fn grows(self, h: Store) {
        reveal(Store::extends);
    }

    proof fn lossless(self, h: Store, later: Store) {
        T::val_of_root_in(self.rooted(), T::val_of(self.rooted()));
    }
}

impl<'a, T: Pointee> Lossless<Raw<T>> for &'a Raw<T> {
    open spec fn sound(self) -> bool {
        true
    }

    open spec fn meant(self) -> <Raw<T> as Modelled>::Model {
        *self
    }

    proof fn grows(self, h: Store) {
        reveal(Store::extends);
    }

    proof fn lossless(self, h: Store, later: Store) {
        T::val_of_root_in(self.rooted(), T::val_of(self.rooted()));
    }
}

impl<T: Pointee> ByRef for Raw<T> {
    proof fn faithful_by_ref(&self) {
    }
}

impl<T: Pointee> RoundTrip for Raw<T> {
    proof fn faithful(self) {
    }
}

impl<T: HostType> Lossless<RRoot<T>> for RRoot<T> {
    open spec fn sound(self) -> bool {
        true
    }

    open spec fn meant(self) -> <RRoot<T> as Modelled>::Model {
        self.untyped()
    }

    proof fn grows(self, h: Store) {
        reveal(Store::extends);
    }

    proof fn lossless(self, h: Store, later: Store) {
    }
}

impl<'a, T: HostType> Lossless<RRoot<T>> for &'a RRoot<T> {
    open spec fn sound(self) -> bool {
        true
    }

    open spec fn meant(self) -> <RRoot<T> as Modelled>::Model {
        self.untyped()
    }

    proof fn grows(self, h: Store) {
        reveal(Store::extends);
    }

    proof fn lossless(self, h: Store, later: Store) {
    }
}

impl<T: HostType> ByRef for RRoot<T> {
    proof fn faithful_by_ref(&self) {
    }
}

impl<T: HostType> RoundTrip for RRoot<T> {
    proof fn faithful(self) {
    }
}

impl Lossless<String> for String {
    open spec fn sound(self) -> bool {
        true
    }

    open spec fn meant(self) -> <String as Modelled>::Model {
        self@
    }

    proof fn grows(self, h: Store) {
        reveal(Store::extends);
    }

    proof fn lossless(self, h: Store, later: Store) {
        reveal(Store::extends);
    }
}

impl<'a> Lossless<String> for &'a String {
    open spec fn sound(self) -> bool {
        true
    }

    open spec fn meant(self) -> <String as Modelled>::Model {
        self@
    }

    proof fn grows(self, h: Store) {
        reveal(Store::extends);
    }

    proof fn lossless(self, h: Store, later: Store) {
        reveal(Store::extends);
    }
}

impl ByRef for String {
    proof fn faithful_by_ref(&self) {
    }
}

impl RoundTrip for String {
    proof fn faithful(self) {
    }
}

impl Lossless<OsText> for OsText {
    open spec fn sound(self) -> bool {
        true
    }

    open spec fn meant(self) -> <OsText as Modelled>::Model {
        self@
    }

    proof fn grows(self, h: Store) {
        reveal(Store::extends);
    }

    proof fn lossless(self, h: Store, later: Store) {
        reveal(Store::extends);
    }
}

impl<'a> Lossless<OsText> for &'a OsText {
    open spec fn sound(self) -> bool {
        true
    }

    open spec fn meant(self) -> <OsText as Modelled>::Model {
        self@
    }

    proof fn grows(self, h: Store) {
        reveal(Store::extends);
    }

    proof fn lossless(self, h: Store, later: Store) {
        reveal(Store::extends);
    }
}

impl ByRef for OsText {
    proof fn faithful_by_ref(&self) {
    }
}

impl RoundTrip for OsText {
    proof fn faithful(self) {
    }
}

impl Lossless<PathText> for PathText {
    open spec fn sound(self) -> bool {
        true
    }

    open spec fn meant(self) -> <PathText as Modelled>::Model {
        self@
    }

    proof fn grows(self, h: Store) {
        reveal(Store::extends);
    }

    proof fn lossless(self, h: Store, later: Store) {
        reveal(Store::extends);
    }
}

impl<'a> Lossless<PathText> for &'a PathText {
    open spec fn sound(self) -> bool {
        true
    }

    open spec fn meant(self) -> <PathText as Modelled>::Model {
        self@
    }

    proof fn grows(self, h: Store) {
        reveal(Store::extends);
    }

    proof fn lossless(self, h: Store, later: Store) {
        reveal(Store::extends);
    }
}

impl ByRef for PathText {
    proof fn faithful_by_ref(&self) {
    }
}

impl RoundTrip for PathText {
    proof fn faithful(self) {
    }
}

impl<'a> Lossless<String> for &'a str {
    open spec fn sound(self) -> bool {
        true
    }

    open spec fn meant(self) -> <String as Modelled>::Model {
        self@
    }

    proof fn grows(self, h: Store) {
        reveal(Store::extends);
    }

    proof fn lossless(self, h: Store, later: Store) {
        reveal(Store::extends);
    }
}

impl Lossless<CText> for CText {
    open spec fn sound(self) -> bool {
        !has_nul(self@)
    }

    open spec fn meant(self) -> Seq<u8> {
        self@
    }

    proof fn grows(self, h: Store) {
        reveal(Store::extends);
    }

    proof fn lossless(self, h: Store, later: Store) {
        reveal(Store::extends);
        decode_utf8_encode_utf8(self@);
    }
}

impl<'a> Lossless<CText> for &'a CText {
    open spec fn sound(self) -> bool {
        !has_nul(self@)
    }

    open spec fn meant(self) -> Seq<u8> {
        self@
    }

    proof fn grows(self, h: Store) {
        reveal(Store::extends);
    }

    proof fn lossless(self, h: Store, later: Store) {
        reveal(Store::extends);
        decode_utf8_encode_utf8(self@);
    }
}

impl ByRef for CText {
    proof fn faithful_by_ref(&self) {
    }
}

impl RoundTrip for CText {
    proof fn faithful(self) {
    }
}

/// What is read back of each of `items`.
pub open spec fn meant_all<T: FromVal, A: Lossless<T>>(items: Seq<A>) -> Seq<T::Model> {
    items.map_values(|a: A| a.meant())
}

/// Each of `items` is as every host value of its type is.
pub open spec fn sound_all<T: FromVal, A: Lossless<T>>(items: Seq<A>) -> bool {
    forall|i: int| 0 <= i < items.len() ==> (#[trigger] items[i]).sound()
}

/// Carrying a run on by one item adds to the heap, and changes nothing that is there.
proof fn lemma_join_grows<T: FromVal, A: Lossless<T>>(run: (Store, GResult<Seq<Slot>>), item: A)
    ensures
        joined(run, item).0.extends(run.0),
{
    reveal(Store::extends);
    item.grows(run.0);
}

/// What carrying a run on by one item gives is read back as what went in.
proof fn lemma_join_lossless<T: FromVal, A: Lossless<T>>(
    run: (Store, GResult<Seq<Slot>>),
    item: A,
    later: Store,
)
    requires
        item.sound(),
        joined(run, item).1 is Ok,
        later.extends(joined(run, item).0),
        later.addressable(),
    ensures
        run.1 is Ok,
        later.extends(run.0),
        joined(run, item).1->Ok_0 == run.1->Ok_0.push(joined(run, item).1->Ok_0.last()),
        T::of_val(later, joined(run, item).1->Ok_0.last().val()) == Ok::<T::Model, GError>(
            item.meant(),
        ),
{
    item.grows(run.0);
    lemma_extends(run.0, item.to_val(run.0).0, later);
    item.lossless(run.0, later);
}

/// Ending a run adds to the heap, and changes nothing that is there.
proof fn lemma_pack_grows(run: (Store, GResult<Seq<Slot>>))
    ensures
        packed(run).0.extends(run.0),
{
    reveal(Store::extends);
}

/// The array that a run ends in is read back as its slots.
proof fn lemma_pack_lossless(run: (Store, GResult<Seq<Slot>>), later: Store)
    requires
        run.1 is Ok,
        later.extends(packed(run).0),
        later.addressable(),
    ensures
        later.extends(run.0),
        packed(run).1 matches Ok(Val::Arr(root)) && later.arr(root) == Ok::<Seq<Slot>, GError>(
            run.1->Ok_0,
        ),
{
    reveal(Store::extends);
    assert(packed(run).0.arrs[run.0.arrs.len() as int] == run.1->Ok_0);
}

/// A run of conversions adds to the heap, and changes nothing that is there.
proof fn lemma_run_grows<T: FromVal, A: Lossless<T>>(h: Store, items: Seq<A>)
    ensures
        joined_all(started(h), items).0.extends(h),
    decreases items.len(),
{
    if items.len() > 0 {
        lemma_run_grows::<T, A>(h, items.drop_last());
        let before = joined_all(started(h), items.drop_last());
        lemma_join_grows::<T, A>(before, items.last());
        lemma_extends(h, before.0, joined(before, items.last()).0);
    } else {
        reveal(Store::extends);
    }
}

/// What a run of conversions gives is read back as what went in.
proof fn lemma_run_lossless<T: FromVal, A: Lossless<T>>(h: Store, items: Seq<A>, later: Store)
    requires
        sound_all::<T, A>(items),
        joined_all(started(h), items).1 is Ok,
        later.extends(joined_all(started(h), items).0),
        later.addressable(),
    ensures
        joined_all(started(h), items).1->Ok_0.len() == items.len(),
        each::<T>(later, joined_all(started(h), items).1->Ok_0) == Ok::<Seq<T::Model>, GError>(
            meant_all::<T, A>(items),
        ),
    decreases items.len(),
{
    let slots = joined_all(started(h), items).1->Ok_0;
    if items.len() > 0 {
        let earlier = items.drop_last();
        let last = items.last();
        let before = joined_all(started(h), earlier);
        assert(last.sound()) by {
            assert(last == items[items.len() - 1]);
        }
        assert(sound_all::<T, A>(earlier)) by {
            assert forall|i: int| 0 <= i < earlier.len() implies (
            #[trigger] earlier[i]).sound() by {
                assert(earlier[i] == items[i]);
            }
        }
        lemma_join_lossless::<T, A>(before, last, later);
        lemma_run_lossless::<T, A>(h, earlier, later);
        assert(slots.drop_last() =~= before.1->Ok_0);
        assert(meant_all::<T, A>(items) =~= meant_all::<T, A>(earlier).push(last.meant()));
    } else {
        assert(meant_all::<T, A>(items) =~= seq![]);
    }
}

impl<T: FromVal, A: Lossless<T>> Lossless<Vec<T>> for Vec<A> {
    open spec fn sound(self) -> bool {
        sound_all::<T, A>(self@)
    }

    open spec fn meant(self) -> Seq<T::Model> {
        meant_all::<T, A>(self@)
    }

    proof fn grows(self, h: Store) {
        let run = joined_all(started(h), self@);
        lemma_run_grows::<T, A>(h, self@);
        lemma_pack_grows(run);
        lemma_extends(h, run.0, packed(run).0);
    }

    proof fn lossless(self, h: Store, later: Store) {
        let run = joined_all(started(h), self@);
        lemma_pack_lossless(run, later);
        lemma_run_lossless::<T, A>(h, self@, later);
    }
}

impl<'a, T: FromVal> Lossless<Vec<T>> for &'a Vec<T> where &'a T: Lossless<T> {
    open spec fn sound(self) -> bool {
        sound_all::<T, &'a T>(self@.as_ref())
    }

    open spec fn meant(self) -> Seq<T::Model> {
        meant_all::<T, &'a T>(self@.as_ref())
    }

    proof fn grows(self, h: Store) {
        let run = joined_all(started(h), self@.as_ref());
        lemma_run_grows::<T, &'a T>(h, self@.as_ref());
        lemma_pack_grows(run);
        lemma_extends(h, run.0, packed(run).0);
    }

    proof fn lossless(self, h: Store, later: Store) {
        let run = joined_all(started(h), self@.as_ref());
        lemma_pack_lossless(run, later);
        lemma_run_lossless::<T, &'a T>(h, self@.as_ref(), later);
    }
}

impl<T: ByRef> ByRef for Vec<T> where for <'b>&'b T: Lossless<T> {
    proof fn faithful_by_ref(&self) {
        assert forall|i: int| 0 <= i < self@.len() implies <&T as Lossless<T>>::meant(
            #[trigger] self@.as_ref()[i],
        ) == self@[i].model() by {
            self@[i].faithful_by_ref();
        }
        assert(meant_all::<T, &T>(self@.as_ref()) =~= models(self@));
    }
}

impl<T: RoundTrip> RoundTrip for Vec<T> {
    proof fn faithful(self) {
        assert forall|i: int| 0 <= i < self@.len() implies <T as Lossless<T>>::meant(
            #[trigger] self@[i],
        ) == self@[i].model() by {
            self@[i].faithful();
        }
        assert(meant_all::<T, T>(self@) =~= models(self@));
    }
}

impl<T: FromVal, A: Lossless<T>> Lossless<VecDeque<T>> for VecDeque<A> {
    open spec fn sound(self) -> bool {
        sound_all::<T, A>(self@)
    }

    open spec fn meant(self) -> Seq<T::Model> {
        meant_all::<T, A>(self@)
    }

    proof fn grows(self, h: Store) {
        let run = joined_all(started(h), self@);
        lemma_run_grows::<T, A>(h, self@);
        lemma_pack_grows(run);
        lemma_extends(h, run.0, packed(run).0);
    }

    proof fn lossless(self, h: Store, later: Store) {
        let run = joined_all(started(h), self@);
        lemma_pack_lossless(run, later);
        lemma_run_lossless::<T, A>(h, self@, later);
    }
}

impl<'a, T: FromVal> Lossless<VecDeque<T>> for &'a VecDeque<T> where &'a T: Lossless<T> {
    open spec fn sound(self) -> bool {
        sound_all::<T, &'a T>(self@.as_ref())
    }

    open spec fn meant(self) -> Seq<T::Model> {
        meant_all::<T, &'a T>(self@.as_ref())
    }

    proof fn grows(self, h: Store) {
        let run = joined_all(started(h), self@.as_ref());
        lemma_run_grows::<T, &'a T>(h, self@.as_ref());
        lemma_pack_grows(run);
        lemma_extends(h, run.0, packed(run).0);
    }

    proof fn lossless(self, h: Store, later: Store) {
        let run = joined_all(started(h), self@.as_ref());
        lemma_pack_lossless(run, later);
        lemma_run_lossless::<T, &'a T>(h, self@.as_ref(), later);
    }
}

impl<T: ByRef> ByRef for VecDeque<T> where for <'b>&'b T: Lossless<T> {
    proof fn faithful_by_ref(&self) {
        assert forall|i: int| 0 <= i < self@.len() implies <&T as Lossless<T>>::meant(
            #[trigger] self@.as_ref()[i],
        ) == self@[i].model() by {
            self@[i].faithful_by_ref();
        }
        assert(meant_all::<T, &T>(self@.as_ref()) =~= models(self@));
    }
}

impl<T: RoundTrip> RoundTrip for VecDeque<T> {
    proof fn faithful(self) {
        assert forall|i: int| 0 <= i < self@.len() implies <T as Lossless<T>>::meant(
            #[trigger] self@[i],
        ) == self@[i].model() by {
            self@[i].faithful();
        }
        assert(meant_all::<T, T>(self@) =~= models(self@));
    }
}

impl<T: FromVal, A: Lossless<T>, const N: usize> Lossless<SmallList<T, N>> for SmallList<A, N> {
    open spec fn sound(self) -> bool {
        sound_all::<T, A>(self@)
    }

    open spec fn meant(self) -> Seq<T::Model> {
        meant_all::<T, A>(self@)
    }

    proof fn grows(self, h: Store) {
        let run = joined_all(started(h), self@);
        lemma_run_grows::<T, A>(h, self@);
        lemma_pack_grows(run);
        lemma_extends(h, run.0, packed(run).0);
    }

    proof fn lossless(self, h: Store, later: Store) {
        let run = joined_all(started(h), self@);
        lemma_pack_lossless(run, later);
        lemma_run_lossless::<T, A>(h, self@, later);
    }
}

impl<
    'a,
    T: FromVal,
    const N: usize,
> Lossless<SmallList<T, N>> for &'a SmallList<T, N> where &'a T: Lossless<T> {
    open spec fn sound(self) -> bool {
        sound_all::<T, &'a T>(self@.as_ref())
    }

    open spec fn meant(self) -> Seq<T::Model> {
        meant_all::<T, &'a T>(self@.as_ref())
    }

    proof fn grows(self, h: Store) {
        let run = joined_all(started(h), self@.as_ref());
        lemma_run_grows::<T, &'a T>(h, self@.as_ref());
        lemma_pack_grows(run);
        lemma_extends(h, run.0, packed(run).0);
    }

    proof fn lossless(self, h: Store, later: Store) {
        let run = joined_all(started(h), self@.as_ref());
        lemma_pack_lossless(run, later);
        lemma_run_lossless::<T, &'a T>(h, self@.as_ref(), later);
    }
}

impl<T: ByRef, const N: usize> ByRef for SmallList<T, N> where for <'b>&'b T: Lossless<T> {
    proof fn faithful_by_ref(&self) {
        assert forall|i: int| 0 <= i < self@.len() implies <&T as Lossless<T>>::meant(
            #[trigger] self@.as_ref()[i],
        ) == self@[i].model() by {
            self@[i].faithful_by_ref();
        }
        assert(meant_all::<T, &T>(self@.as_ref()) =~= models(self@));
    }
}

impl<T: RoundTrip, const N: usize> RoundTrip for SmallList<T, N> {
    proof fn faithful(self) {
        assert forall|i: int| 0 <= i < self@.len() implies <T as Lossless<T>>::meant(
            #[trigger] self@[i],
        ) == self@[i].model() by {
            self@[i].faithful();
        }
        assert(meant_all::<T, T>(self@) =~= models(self@));
    }
}

impl<T: FromVal, const N: usize> Lossless<[T; N]> for [T; N] where for <'b>&'b T: Lossless<T> {
    open spec fn sound(self) -> bool {
        sound_all::<T, &T>(self@.as_ref())
    }

    open spec fn meant(self) -> Seq<T::Model> {
        meant_all::<T, &T>(self@.as_ref())
    }

    proof fn grows(self, h: Store) {
        let run = joined_all(started(h), self@.as_ref());
        lemma_run_grows::<T, &T>(h, self@.as_ref());
        lemma_pack_grows(run);
        lemma_extends(h, run.0, packed(run).0);
    }

    proof fn lossless(self, h: Store, later: Store) {
        let run = joined_all(started(h), self@.as_ref());
        lemma_pack_lossless(run, later);
        lemma_run_lossless::<T, &T>(h, self@.as_ref(), later);
    }
}

impl<'a, T: FromVal, const N: usize> Lossless<[T; N]> for &'a [T; N] where &'a T: Lossless<T> {
    open spec fn sound(self) -> bool {
        sound_all::<T, &'a T>(self@.as_ref())
    }

    open spec fn meant(self) -> Seq<T::Model> {
        meant_all::<T, &'a T>(self@.as_ref())
    }

    proof fn grows(self, h: Store) {
        let run = joined_all(started(h), self@.as_ref());
        lemma_run_grows::<T, &'a T>(h, self@.as_ref());
        lemma_pack_grows(run);
        lemma_extends(h, run.0, packed(run).0);
    }

    proof fn lossless(self, h: Store, later: Store) {
        let run = joined_all(started(h), self@.as_ref());
        lemma_pack_lossless(run, later);
        lemma_run_lossless::<T, &'a T>(h, self@.as_ref(), later);
    }
}

impl<T: ByRef, const N: usize> ByRef for [T; N] where for <'b>&'b T: Lossless<T> {
    proof fn faithful_by_ref(&self) {
        assert forall|i: int| 0 <= i < self@.len() implies <&T as Lossless<T>>::meant(
            #[trigger] self@.as_ref()[i],
        ) == self@[i].model() by {
            self@[i].faithful_by_ref();
        }
        assert(meant_all::<T, &T>(self@.as_ref()) =~= models(self@));
    }
}

impl<T: ByRef, const N: usize> RoundTrip for [T; N] where for <'b>&'b T: Lossless<T> {
    proof fn faithful(self) {
        assert forall|i: int| 0 <= i < self@.len() implies <&T as Lossless<T>>::meant(
            #[trigger] self@.as_ref()[i],
        ) == self@[i].model() by {
            self@[i].faithful_by_ref();
        }
        assert(meant_all::<T, &T>(self@.as_ref()) =~= models(self@));
    }
}

impl<'a, T: FromVal> Lossless<Vec<T>> for &'a [T] where &'a T: Lossless<T> {
    open spec fn sound(self) -> bool {
        sound_all::<T, &'a T>(self@.as_ref())
    }

    open spec fn meant(self) -> Seq<T::Model> {
        meant_all::<T, &'a T>(self@.as_ref())
    }

    proof fn grows(self, h: Store) {
        let run = joined_all(started(h), self@.as_ref());
        lemma_run_grows::<T, &'a T>(h, self@.as_ref());
        lemma_pack_grows(run);
        lemma_extends(h, run.0, packed(run).0);
    }

    proof fn lossless(self, h: Store, later: Store) {
        let run = joined_all(started(h), self@.as_ref());
        lemma_pack_lossless(run, later);
        lemma_run_lossless::<T, &'a T>(h, self@.as_ref(), later);
    }
}

impl<T0: FromVal, A: Lossless<T0>> Lossless<(T0,)> for (A,) {
    open spec fn sound(self) -> bool {
        &&& self.0.sound()
    }

    open spec fn meant(self) -> (T0::Model,) {
        (self.0.meant(),)
    }

    proof fn grows(self, h: Store) {
        let run0 = started(h);
        let run1 = joined(run0, self.0);
        lemma_join_grows::<T0, A>(run0, self.0);
        lemma_pack_grows(run1);
        lemma_extends(h, run1.0, packed(run1).0);
    }

    proof fn lossless(self, h: Store, later: Store) {
        let run0 = started(h);
        let run1 = joined(run0, self.0);
        lemma_pack_lossless(run1, later);
        lemma_join_lossless::<T0, A>(run0, self.0, later);
    }
}

impl<T0: ByRef> ByRef for (T0,) where
    for <'b>&'b T0: Lossless<T0>,
 {
    proof fn faithful_by_ref(&self) {
        self.0.faithful_by_ref();
    }
}

impl<T0: RoundTrip> RoundTrip for (T0,) {
    proof fn faithful(self) {
        self.0.faithful();
    }
}

impl<'a, T0: FromVal> Lossless<(T0,)> for &'a (T0,) where
    &'a T0: Lossless<T0>,
 {
    open spec fn sound(self) -> bool {
        &&& (&self.0).sound()
    }

    open spec fn meant(self) -> (T0::Model,) {
        ((&self.0).meant(),)
    }

    proof fn grows(self, h: Store) {
        let run0 = started(h);
        let run1 = joined(run0, (&self.0));
        lemma_join_grows::<T0, &'a T0>(run0, (&self.0));
        lemma_pack_grows(run1);
        lemma_extends(h, run1.0, packed(run1).0);
    }

    proof fn lossless(self, h: Store, later: Store) {
        let run0 = started(h);
        let run1 = joined(run0, (&self.0));
        lemma_pack_lossless(run1, later);
        lemma_join_lossless::<T0, &'a T0>(run0, (&self.0), later);
    }
}

impl<T0: FromVal, T1: FromVal, A: Lossless<T0>, B: Lossless<T1>> Lossless<(T0, T1)> for (A, B) {
    open spec fn sound(self) -> bool {
        &&& self.0.sound()
        &&& self.1.sound()
    }

    open spec fn meant(self) -> (T0::Model, T1::Model) {
        (self.0.meant(), self.1.meant())
    }

    proof fn grows(self, h: Store) {
        let run0 = started(h);
        let run1 = joined(run0, self.0);
        lemma_join_grows::<T0, A>(run0, self.0);
        let run2 = joined(run1, self.1);
        lemma_join_grows::<T1, B>(run1, self.1);
        lemma_extends(h, run1.0, run2.0);
        lemma_pack_grows(run2);
        lemma_extends(h, run2.0, packed(run2).0);
    }

    proof fn lossless(self, h: Store, later: Store) {
        let run0 = started(h);
        let run1 = joined(run0, self.0);
        let run2 = joined(run1, self.1);
        lemma_pack_lossless(run2, later);
        lemma_join_lossless::<T1, B>(run1, self.1, later);
        lemma_join_lossless::<T0, A>(run0, self.0, later);
    }
}

impl<T0: ByRef, T1: ByRef> ByRef for (T0, T1) where
    for <'b>&'b T0: Lossless<T0>,
    for <'b>&'b T1: Lossless<T1>,
 {
    proof fn faithful_by_ref(&self) {
        self.0.faithful_by_ref();
        self.1.faithful_by_ref();
    }
}

impl<T0: RoundTrip, T1: RoundTrip> RoundTrip for (T0, T1) {
    proof fn faithful(self) {
        self.0.faithful();
        self.1.faithful();
    }
}

impl<'a, T0: FromVal, T1: FromVal> Lossless<(T0, T1)> for &'a (T0, T1) where
    &'a T0: Lossless<T0>,
    &'a T1: Lossless<T1>,
 {
    open spec fn sound(self) -> bool {
        &&& (&self.0).sound()
        &&& (&self.1).sound()
    }

    open spec fn meant(self) -> (T0::Model, T1::Model) {
        ((&self.0).meant(), (&self.1).meant())
    }

    proof fn grows(self, h: Store) {
        let run0 = started(h);
        let run1 = joined(run0, (&self.0));
        lemma_join_grows::<T0, &'a T0>(run0, (&self.0));
        let run2 = joined(run1, (&self.1));
        lemma_join_grows::<T1, &'a T1>(run1, (&self.1));
        lemma_extends(h, run1.0, run2.0);
        lemma_pack_grows(run2);
        lemma_extends(h, run2.0, packed(run2).0);
    }

    proof fn lossless(self, h: Store, later: Store) {
        let run0 = started(h);
        let run1 = joined(run0, (&self.0));
        let run2 = joined(run1, (&self.1));
        lemma_pack_lossless(run2, later);
        lemma_join_lossless::<T1, &'a T1>(run1, (&self.1), later);
        lemma_join_lossless::<T0, &'a T0>(run0, (&self.0), later);
    }
}

impl<
    T0: FromVal,
    T1: FromVal,
    T2: FromVal,
    A: Lossless<T0>,
    B: Lossless<T1>,
    C: Lossless<T2>,
> Lossless<(T0, T1, T2)> for (A, B, C) {
    open spec fn sound(self) -> bool {
        &&& self.0.sound()
        &&& self.1.sound()
        &&& self.2.sound()
    }

    open spec fn meant(self) -> (T0::Model, T1::Model, T2::Model) {
        (self.0.meant(), self.1.meant(), self.2.meant())
    }

    proof fn grows(self, h: Store) {
        let run0 = started(h);
        let run1 = joined(run0, self.0);
        lemma_join_grows::<T0, A>(run0, self.0);
        let run2 = joined(run1, self.1);
        lemma_join_grows::<T1, B>(run1, self.1);
        lemma_extends(h, run1.0, run2.0);
        let run3 = joined(run2, self.2);
        lemma_join_grows::<T2, C>(run2, self.2);
        lemma_extends(h, run2.0, run3.0);
        lemma_pack_grows(run3);
        lemma_extends(h, run3.0, packed(run3).0);
    }

    proof fn lossless(self, h: Store, later: Store) {
        let run0 = started(h);
        let run1 = joined(run0, self.0);
        let run2 = joined(run1, self.1);
        let run3 = joined(run2, self.2);
        lemma_pack_lossless(run3, later);
        lemma_join_lossless::<T2, C>(run2, self.2, later);
        lemma_join_lossless::<T1, B>(run1, self.1, later);
        lemma_join_lossless::<T0, A>(run0, self.0, later);
    }
}

impl<T0: ByRef, T1: ByRef, T2: ByRef> ByRef for (T0, T1, T2) where
    for <'b>&'b T0: Lossless<T0>,
    for <'b>&'b T1: Lossless<T1>,
    for <'b>&'b T2: Lossless<T2>,
 {
    proof fn faithful_by_ref(&self) {
        self.0.faithful_by_ref();
        self.1.faithful_by_ref();
        self.2.faithful_by_ref();
    }
}

impl<T0: RoundTrip, T1: RoundTrip, T2: RoundTrip> RoundTrip for (T0, T1, T2) {
    proof fn faithful(self) {
        self.0.faithful();
        self.1.faithful();
        self.2.faithful();
    }
}

impl<'a, T0: FromVal, T1: FromVal, T2: FromVal> Lossless<(T0, T1, T2)> for &'a (T0, T1, T2) where
    &'a T0: Lossless<T0>,
    &'a T1: Lossless<T1>,
    &'a T2: Lossless<T2>,
 {
    open spec fn sound(self) -> bool {
        &&& (&self.0).sound()
        &&& (&self.1).sound()
        &&& (&self.2).sound()
    }

    open spec fn meant(self) -> (T0::Model, T1::Model, T2::Model) {
        ((&self.0).meant(), (&self.1).meant(), (&self.2).meant())
    }

    proof fn grows(self, h: Store) {
        let run0 = started(h);
        let run1 = joined(run0, (&self.0));
        lemma_join_grows::<T0, &'a T0>(run0, (&self.0));
        let run2 = joined(run1, (&self.1));
        lemma_join_grows::<T1, &'a T1>(run1, (&self.1));
        lemma_extends(h, run1.0, run2.0);
        let run3 = joined(run2, (&self.2));
        lemma_join_grows::<T2, &'a T2>(run2, (&self.2));
        lemma_extends(h, run2.0, run3.0);
        lemma_pack_grows(run3);
        lemma_extends(h, run3.0, packed(run3).0);
    }

    proof fn lossless(self, h: Store, later: Store) {
        let run0 = started(h);
        let run1 = joined(run0, (&self.0));
        let run2 = joined(run1, (&self.1));
        let run3 = joined(run2, (&self.2));
        lemma_pack_lossless(run3, later);
        lemma_join_lossless::<T2, &'a T2>(run2, (&self.2), later);
        lemma_join_lossless::<T1, &'a T1>(run1, (&self.1), later);
        lemma_join_lossless::<T0, &'a T0>(run0, (&self.0), later);
    }
}

impl<
    T0: FromVal,
    T1: FromVal,
    T2: FromVal,
    T3: FromVal,
    A: Lossless<T0>,
    B: Lossless<T1>,
    C: Lossless<T2>,
    D: Lossless<T3>,
> Lossless<(T0, T1, T2, T3)> for (A, B, C, D) {
    open spec fn sound(self) -> bool {
        &&& self.0.sound()
        &&& self.1.sound()
        &&& self.2.sound()
        &&& self.3.sound()
    }

    open spec fn meant(self) -> (T0::Model, T1::Model, T2::Model, T3::Model) {
        (self.0.meant(), self.1.meant(), self.2.meant(), self.3.meant())
    }

    proof fn grows(self, h: Store) {
        let run0 = started(h);
        let run1 = joined(run0, self.0);
        lemma_join_grows::<T0, A>(run0, self.0);
        let run2 = joined(run1, self.1);
        lemma_join_grows::<T1, B>(run1, self.1);
        lemma_extends(h, run1.0, run2.0);
        let run3 = joined(run2, self.2);
        lemma_join_grows::<T2, C>(run2, self.2);
        lemma_extends(h, run2.0, run3.0);
        let run4 = joined(run3, self.3);
        lemma_join_grows::<T3, D>(run3, self.3);
        lemma_extends(h, run3.0, run4.0);
        lemma_pack_grows(run4);
        lemma_extends(h, run4.0, packed(run4).0);
    }

    proof fn lossless(self, h: Store, later: Store) {
        let run0 = started(h);
        let run1 = joined(run0, self.0);
        let run2 = joined(run1, self.1);
        let run3 = joined(run2, self.2);
        let run4 = joined(run3, self.3);
        lemma_pack_lossless(run4, later);
        lemma_join_lossless::<T3, D>(run3, self.3, later);
        lemma_join_lossless::<T2, C>(run2, self.2, later);
        lemma_join_lossless::<T1, B>(run1, self.1, later);
        lemma_join_lossless::<T0, A>(run0, self.0, later);
    }
}

impl<T0: ByRef, T1: ByRef, T2: ByRef, T3: ByRef> ByRef for (T0, T1, T2, T3) where
    for <'b>&'b T0: Lossless<T0>,
    for <'b>&'b T1: Lossless<T1>,
    for <'b>&'b T2: Lossless<T2>,
    for <'b>&'b T3: Lossless<T3>,
 {
    proof fn faithful_by_ref(&self) {
        self.0.faithful_by_ref();
        self.1.faithful_by_ref();
        self.2.faithful_by_ref();
        self.3.faithful_by_ref();
    }
}

impl<T0: RoundTrip, T1: RoundTrip, T2: RoundTrip, T3: RoundTrip> RoundTrip for (T0, T1, T2, T3) {
    proof fn faithful(self) {
        self.0.faithful();
        self.1.faithful();
        self.2.faithful();
        self.3.faithful();
    }
}

impl<
    'a,
    T0: FromVal,
    T1: FromVal,
    T2: FromVal,
    T3: FromVal,
> Lossless<(T0, T1, T2, T3)> for &'a (T0, T1, T2, T3) where
    &'a T0: Lossless<T0>,
    &'a T1: Lossless<T1>,
    &'a T2: Lossless<T2>,
    &'a T3: Lossless<T3>,
 {
    open spec fn sound(self) -> bool {
        &&& (&self.0).sound()
        &&& (&self.1).sound()
        &&& (&self.2).sound()
        &&& (&self.3).sound()
    }

    open spec fn meant(self) -> (T0::Model, T1::Model, T2::Model, T3::Model) {
        ((&self.0).meant(), (&self.1).meant(), (&self.2).meant(), (&self.3).meant())
    }

    proof fn grows(self, h: Store) {
        let run0 = started(h);
        let run1 = joined(run0, (&self.0));
        lemma_join_grows::<T0, &'a T0>(run0, (&self.0));
        let run2 = joined(run1, (&self.1));
        lemma_join_grows::<T1, &'a T1>(run1, (&self.1));
        lemma_extends(h, run1.0, run2.0);
        let run3 = joined(run2, (&self.2));
        lemma_join_grows::<T2, &'a T2>(run2, (&self.2));
        lemma_extends(h, run2.0, run3.0);
        let run4 = joined(run3, (&self.3));
        lemma_join_grows::<T3, &'a T3>(run3, (&self.3));
        lemma_extends(h, run3.0, run4.0);
        lemma_pack_grows(run4);
        lemma_extends(h, run4.0, packed(run4).0);
    }

    proof fn lossless(self, h: Store, later: Store) {
        let run0 = started(h);
        let run1 = joined(run0, (&self.0));
        let run2 = joined(run1, (&self.1));
        let run3 = joined(run2, (&self.2));
        let run4 = joined(run3, (&self.3));
        lemma_pack_lossless(run4, later);
        lemma_join_lossless::<T3, &'a T3>(run3, (&self.3), later);
        lemma_join_lossless::<T2, &'a T2>(run2, (&self.2), later);
        lemma_join_lossless::<T1, &'a T1>(run1, (&self.1), later);
        lemma_join_lossless::<T0, &'a T0>(run0, (&self.0), later);
    }
}

impl<
    T0: FromVal,
    T1: FromVal,
    T2: FromVal,
    T3: FromVal,
    T4: FromVal,
    A: Lossless<T0>,
    B: Lossless<T1>,
    C: Lossless<T2>,
    D: Lossless<T3>,
    E: Lossless<T4>,
> Lossless<(T0, T1, T2, T3, T4)> for (A, B, C, D, E) {
    open spec fn sound(self) -> bool {
        &&& self.0.sound()
        &&& self.1.sound()
        &&& self.2.sound()
        &&& self.3.sound()
        &&& self.4.sound()
    }

    open spec fn meant(self) -> (T0::Model, T1::Model, T2::Model, T3::Model, T4::Model) {
        (self.0.meant(), self.1.meant(), self.2.meant(), self.3.meant(), self.4.meant())
    }

    proof fn grows(self, h: Store) {
        let run0 = started(h);
        let run1 = joined(run0, self.0);
        lemma_join_grows::<T0, A>(run0, self.0);
        let run2 = joined(run1, self.1);
        lemma_join_grows::<T1, B>(run1, self.1);
        lemma_extends(h, run1.0, run2.0);
        let run3 = joined(run2, self.2);
        lemma_join_grows::<T2, C>(run2, self.2);
        lemma_extends(h, run2.0, run3.0);
        let run4 = joined(run3, self.3);
        lemma_join_grows::<T3, D>(run3, self.3);
        lemma_extends(h, run3.0, run4.0);
        let run5 = joined(run4, self.4);
        lemma_join_grows::<T4, E>(run4, self.4);
        lemma_extends(h, run4.0, run5.0);
        lemma_pack_grows(run5);
        lemma_extends(h, run5.0, packed(run5).0);
    }

    proof fn lossless(self, h: Store, later: Store) {
        let run0 = started(h);
        let run1 = joined(run0, self.0);
        let run2 = joined(run1, self.1);
        let run3 = joined(run2, self.2);
        let run4 = joined(run3, self.3);
        let run5 = joined(run4, self.4);
        lemma_pack_lossless(run5, later);
        lemma_join_lossless::<T4, E>(run4, self.4, later);
        lemma_join_lossless::<T3, D>(run3, self.3, later);
        lemma_join_lossless::<T2, C>(run2, self.2, later);
        lemma_join_lossless::<T1, B>(run1, self.1, later);
        lemma_join_lossless::<T0, A>(run0, self.0, later);
    }
}

impl<T0: ByRef, T1: ByRef, T2: ByRef, T3: ByRef, T4: ByRef> ByRef for (T0, T1, T2, T3, T4) where
    for <'b>&'b T0: Lossless<T0>,
    for <'b>&'b T1: Lossless<T1>,
    for <'b>&'b T2: Lossless<T2>,
    for <'b>&'b T3: Lossless<T3>,
    for <'b>&'b T4: Lossless<T4>,
 {
    proof fn faithful_by_ref(&self) {
        self.0.faithful_by_ref();
        self.1.faithful_by_ref();
        self.2.faithful_by_ref();
        self.3.faithful_by_ref();
        self.4.faithful_by_ref();
    }
}

impl<
    T0: RoundTrip,
    T1: RoundTrip,
    T2: RoundTrip,
    T3: RoundTrip,
    T4: RoundTrip,
> RoundTrip for (T0, T1, T2, T3, T4) {
    proof fn faithful(self) {
        self.0.faithful();
        self.1.faithful();
        self.2.faithful();
        self.3.faithful();
        self.4.faithful();
    }
}

impl<
    'a,
    T0: FromVal,
    T1: FromVal,
    T2: FromVal,
    T3: FromVal,
    T4: FromVal,
> Lossless<(T0, T1, T2, T3, T4)> for &'a (T0, T1, T2, T3, T4) where
    &'a T0: Lossless<T0>,
    &'a T1: Lossless<T1>,
    &'a T2: Lossless<T2>,
    &'a T3: Lossless<T3>,
    &'a T4: Lossless<T4>,
 {
    open spec fn sound(self) -> bool {
        &&& (&self.0).sound()
        &&& (&self.1).sound()
        &&& (&self.2).sound()
        &&& (&self.3).sound()
        &&& (&self.4).sound()
    }

    open spec fn meant(self) -> (T0::Model, T1::Model, T2::Model, T3::Model, T4::Model) {
        (
            (&self.0).meant(),
            (&self.1).meant(),
            (&self.2).meant(),
            (&self.3).meant(),
            (&self.4).meant(),
        )
    }

    proof fn grows(self, h: Store) {
        let run0 = started(h);
        let run1 = joined(run0, (&self.0));
        lemma_join_grows::<T0, &'a T0>(run0, (&self.0));
        let run2 = joined(run1, (&self.1));
        lemma_join_grows::<T1, &'a T1>(run1, (&self.1));
        lemma_extends(h, run1.0, run2.0);
        let run3 = joined(run2, (&self.2));
        lemma_join_grows::<T2, &'a T2>(run2, (&self.2));
        lemma_extends(h, run2.0, run3.0);
        let run4 = joined(run3, (&self.3));
        lemma_join_grows::<T3, &'a T3>(run3, (&self.3));
        lemma_extends(h, run3.0, run4.0);
        let run5 = joined(run4, (&self.4));
        lemma_join_grows::<T4, &'a T4>(run4, (&self.4));
        lemma_extends(h, run4.0, run5.0);
        lemma_pack_grows(run5);
        lemma_extends(h, run5.0, packed(run5).0);
    }

    proof fn lossless(self, h: Store, later: Store) {
        let run0 = started(h);
        let run1 = joined(run0, (&self.0));
        let run2 = joined(run1, (&self.1));
        let run3 = joined(run2, (&self.2));
        let run4 = joined(run3, (&self.3));
        let run5 = joined(run4, (&self.4));
        lemma_pack_lossless(run5, later);
        lemma_join_lossless::<T4, &'a T4>(run4, (&self.4), later);
        lemma_join_lossless::<T3, &'a T3>(run3, (&self.3), later);
        lemma_join_lossless::<T2, &'a T2>(run2, (&self.2), later);
        lemma_join_lossless::<T1, &'a T1>(run1, (&self.1), later);
        lemma_join_lossless::<T0, &'a T0>(run0, (&self.0), later);
    }
}

impl<
    T0: FromVal,
    T1: FromVal,
    T2: FromVal,
    T3: FromVal,
    T4: FromVal,
    T5: FromVal,
    A: Lossless<T0>,
    B: Lossless<T1>,
    C: Lossless<T2>,
    D: Lossless<T3>,
    E: Lossless<T4>,
    F: Lossless<T5>,
> Lossless<(T0, T1, T2, T3, T4, T5)> for (A, B, C, D, E, F) {
    open spec fn sound(self) -> bool {
        &&& self.0.sound()
        &&& self.1.sound()
        &&& self.2.sound()
        &&& self.3.sound()
        &&& self.4.sound()
        &&& self.5.sound()
    }

    open spec fn meant(self) -> (T0::Model, T1::Model, T2::Model, T3::Model, T4::Model, T5::Model) {
        (
            self.0.meant(),
            self.1.meant(),
            self.2.meant(),
            self.3.meant(),
            self.4.meant(),
            self.5.meant(),
        )
    }

    proof fn grows(self, h: Store) {
        let run0 = started(h);
        let run1 = joined(run0, self.0);
        lemma_join_grows::<T0, A>(run0, self.0);
        let run2 = joined(run1, self.1);
        lemma_join_grows::<T1, B>(run1, self.1);
        lemma_extends(h, run1.0, run2.0);
        let run3 = joined(run2, self.2);
        lemma_join_grows::<T2, C>(run2, self.2);
        lemma_extends(h, run2.0, run3.0);
        let run4 = joined(run3, self.3);
        lemma_join_grows::<T3, D>(run3, self.3);
        lemma_extends(h, run3.0, run4.0);
        let run5 = joined(run4, self.4);
        lemma_join_grows::<T4, E>(run4, self.4);
        lemma_extends(h, run4.0, run5.0);
        let run6 = joined(run5, self.5);
        lemma_join_grows::<T5, F>(run5, self.5);
        lemma_extends(h, run5.0, run6.0);
        lemma_pack_grows(run6);
        lemma_extends(h, run6.0, packed(run6).0);
    }

    proof fn lossless(self, h: Store, later: Store) {
        let run0 = started(h);
        let run1 = joined(run0, self.0);
        let run2 = joined(run1, self.1);
        let run3 = joined(run2, self.2);
        let run4 = joined(run3, self.3);
        let run5 = joined(run4, self.4);
        let run6 = joined(run5, self.5);
        lemma_pack_lossless(run6, later);
        lemma_join_lossless::<T5, F>(run5, self.5, later);
        lemma_join_lossless::<T4, E>(run4, self.4, later);
        lemma_join_lossless::<T3, D>(run3, self.3, later);
        lemma_join_lossless::<T2, C>(run2, self.2, later);
        lemma_join_lossless::<T1, B>(run1, self.1, later);
        lemma_join_lossless::<T0, A>(run0, self.0, later);
    }
}

impl<
    T0: ByRef,
    T1: ByRef,
    T2: ByRef,
    T3: ByRef,
    T4: ByRef,
    T5: ByRef,
> ByRef for (T0, T1, T2, T3, T4, T5) where
    for <'b>&'b T0: Lossless<T0>,
    for <'b>&'b T1: Lossless<T1>,
    for <'b>&'b T2: Lossless<T2>,
    for <'b>&'b T3: Lossless<T3>,
    for <'b>&'b T4: Lossless<T4>,
    for <'b>&'b T5: Lossless<T5>,
 {
    proof fn faithful_by_ref(&self) {
        self.0.faithful_by_ref();
        self.1.faithful_by_ref();
        self.2.faithful_by_ref();
        self.3.faithful_by_ref();
        self.4.faithful_by_ref();
        self.5.faithful_by_ref();
    }
}

impl<
    T0: RoundTrip,
    T1: RoundTrip,
    T2: RoundTrip,
    T3: RoundTrip,
    T4: RoundTrip,
    T5: RoundTrip,
> RoundTrip for (T0, T1, T2, T3, T4, T5) {
    proof fn faithful(self) {
        self.0.faithful();
        self.1.faithful();
        self.2.faithful();
        self.3.faithful();
        self.4.faithful();
        self.5.faithful();
    }
}

impl<
    'a,
    T0: FromVal,
    T1: FromVal,
    T2: FromVal,
    T3: FromVal,
    T4: FromVal,
    T5: FromVal,
> Lossless<(T0, T1, T2, T3, T4, T5)> for &'a (T0, T1, T2, T3, T4, T5) where
    &'a T0: Lossless<T0>,
    &'a T1: Lossless<T1>,
    &'a T2: Lossless<T2>,
    &'a T3: Lossless<T3>,
    &'a T4: Lossless<T4>,
    &'a T5: Lossless<T5>,
 {
    open spec fn sound(self) -> bool {
        &&& (&self.0).sound()
        &&& (&self.1).sound()
        &&& (&self.2).sound()
        &&& (&self.3).sound()
        &&& (&self.4).sound()
        &&& (&self.5).sound()
    }

    open spec fn meant(self) -> (T0::Model, T1::Model, T2::Model, T3::Model, T4::Model, T5::Model) {
        (
            (&self.0).meant(),
            (&self.1).meant(),
            (&self.2).meant(),
            (&self.3).meant(),
            (&self.4).meant(),
            (&self.5).meant(),
        )
    }

    proof fn grows(self, h: Store) {
        let run0 = started(h);
        let run1 = joined(run0, (&self.0));
        lemma_join_grows::<T0, &'a T0>(run0, (&self.0));
        let run2 = joined(run1, (&self.1));
        lemma_join_grows::<T1, &'a T1>(run1, (&self.1));
        lemma_extends(h, run1.0, run2.0);
        let run3 = joined(run2, (&self.2));
        lemma_join_grows::<T2, &'a T2>(run2, (&self.2));
        lemma_extends(h, run2.0, run3.0);
        let run4 = joined(run3, (&self.3));
        lemma_join_grows::<T3, &'a T3>(run3, (&self.3));
        lemma_extends(h, run3.0, run4.0);
        let run5 = joined(run4, (&self.4));
        lemma_join_grows::<T4, &'a T4>(run4, (&self.4));
        lemma_extends(h, run4.0, run5.0);
        let run6 = joined(run5, (&self.5));
        lemma_join_grows::<T5, &'a T5>(run5, (&self.5));
        lemma_extends(h, run5.0, run6.0);
        lemma_pack_grows(run6);
        lemma_extends(h, run6.0, packed(run6).0);
    }

    proof fn lossless(self, h: Store, later: Store) {
        let run0 = started(h);
        let run1 = joined(run0, (&self.0));
        let run2 = joined(run1, (&self.1));
        let run3 = joined(run2, (&self.2));
        let run4 = joined(run3, (&self.3));
        let run5 = joined(run4, (&self.4));
        let run6 = joined(run5, (&self.5));
        lemma_pack_lossless(run6, later);
        lemma_join_lossless::<T5, &'a T5>(run5, (&self.5), later);
        lemma_join_lossless::<T4, &'a T4>(run4, (&self.4), later);
        lemma_join_lossless::<T3, &'a T3>(run3, (&self.3), later);
        lemma_join_lossless::<T2, &'a T2>(run2, (&self.2), later);
        lemma_join_lossless::<T1, &'a T1>(run1, (&self.1), later);
        lemma_join_lossless::<T0, &'a T0>(run0, (&self.0), later);
    }
}

impl<
    T0: FromVal,
    T1: FromVal,
    T2: FromVal,
    T3: FromVal,
    T4: FromVal,
    T5: FromVal,
    T6: FromVal,
    A: Lossless<T0>,
    B: Lossless<T1>,
    C: Lossless<T2>,
    D: Lossless<T3>,
    E: Lossless<T4>,
    F: Lossless<T5>,
    G: Lossless<T6>,
> Lossless<(T0, T1, T2, T3, T4, T5, T6)> for (A, B, C, D, E, F, G) {
    open spec fn sound(self) -> bool {
        &&& self.0.sound()
        &&& self.1.sound()
        &&& self.2.sound()
        &&& self.3.sound()
        &&& self.4.sound()
        &&& self.5.sound()
        &&& self.6.sound()
    }

    open spec fn meant(self) -> (
        T0::Model,
        T1::Model,
        T2::Model,
        T3::Model,
        T4::Model,
        T5::Model,
        T6::Model,
    ) {
        (
            self.0.meant(),
            self.1.meant(),
            self.2.meant(),
            self.3.meant(),
            self.4.meant(),
            self.5.meant(),
            self.6.meant(),
        )
    }

    proof fn grows(self, h: Store) {
        let run0 = started(h);
        let run1 = joined(run0, self.0);
        lemma_join_grows::<T0, A>(run0, self.0);
        let run2 = joined(run1, self.1);
        lemma_join_grows::<T1, B>(run1, self.1);
        lemma_extends(h, run1.0, run2.0);
        let run3 = joined(run2, self.2);
        lemma_join_grows::<T2, C>(run2, self.2);
        lemma_extends(h, run2.0, run3.0);
        let run4 = joined(run3, self.3);
        lemma_join_grows::<T3, D>(run3, self.3);
        lemma_extends(h, run3.0, run4.0);
        let run5 = joined(run4, self.4);
        lemma_join_grows::<T4, E>(run4, self.4);
        lemma_extends(h, run4.0, run5.0);
        let run6 = joined(run5, self.5);
        lemma_join_grows::<T5, F>(run5, self.5);
        lemma_extends(h, run5.0, run6.0);
        let run7 = joined(run6, self.6);
        lemma_join_grows::<T6, G>(run6, self.6);
        lemma_extends(h, run6.0, run7.0);
        lemma_pack_grows(run7);
        lemma_extends(h, run7.0, packed(run7).0);
    }

    proof fn lossless(self, h: Store, later: Store) {
        let run0 = started(h);
        let run1 = joined(run0, self.0);
        let run2 = joined(run1, self.1);
        let run3 = joined(run2, self.2);
        let run4 = joined(run3, self.3);
        let run5 = joined(run4, self.4);
        let run6 = joined(run5, self.5);
        let run7 = joined(run6, self.6);
        lemma_pack_lossless(run7, later);
        lemma_join_lossless::<T6, G>(run6, self.6, later);
        lemma_join_lossless::<T5, F>(run5, self.5, later);
        lemma_join_lossless::<T4, E>(run4, self.4, later);
        lemma_join_lossless::<T3, D>(run3, self.3, later);
        lemma_join_lossless::<T2, C>(run2, self.2, later);
        lemma_join_lossless::<T1, B>(run1, self.1, later);
        lemma_join_lossless::<T0, A>(run0, self.0, later);
    }
}

impl<
    T0: ByRef,
    T1: ByRef,
    T2: ByRef,
    T3: ByRef,
    T4: ByRef,
    T5: ByRef,
    T6: ByRef,
> ByRef for (T0, T1, T2, T3, T4, T5, T6) where
    for <'b>&'b T0: Lossless<T0>,
    for <'b>&'b T1: Lossless<T1>,
    for <'b>&'b T2: Lossless<T2>,
    for <'b>&'b T3: Lossless<T3>,
    for <'b>&'b T4: Lossless<T4>,
    for <'b>&'b T5: Lossless<T5>,
    for <'b>&'b T6: Lossless<T6>,
 {
    proof fn faithful_by_ref(&self) {
        self.0.faithful_by_ref();
        self.1.faithful_by_ref();
        self.2.faithful_by_ref();
        self.3.faithful_by_ref();
        self.4.faithful_by_ref();
        self.5.faithful_by_ref();
        self.6.faithful_by_ref();
    }
}

impl<
    T0: RoundTrip,
    T1: RoundTrip,
    T2: RoundTrip,
    T3: RoundTrip,
    T4: RoundTrip,
    T5: RoundTrip,
    T6: RoundTrip,
> RoundTrip for (T0, T1, T2, T3, T4, T5, T6) {
    proof fn faithful(self) {
        self.0.faithful();
        self.1.faithful();
        self.2.faithful();
        self.3.faithful();
        self.4.faithful();
        self.5.faithful();
        self.6.faithful();
    }
}

impl<
    'a,
    T0: FromVal,
    T1: FromVal,
    T2: FromVal,
    T3: FromVal,
    T4: FromVal,
    T5: FromVal,
    T6: FromVal,
> Lossless<(T0, T1, T2, T3, T4, T5, T6)> for &'a (T0, T1, T2, T3, T4, T5, T6) where
    &'a T0: Lossless<T0>,
    &'a T1: Lossless<T1>,
    &'a T2: Lossless<T2>,
    &'a T3: Lossless<T3>,
    &'a T4: Lossless<T4>,
    &'a T5: Lossless<T5>,
    &'a T6: Lossless<T6>,
 {
    open spec fn sound(self) -> bool {
        &&& (&self.0).sound()
        &&& (&self.1).sound()
        &&& (&self.2).sound()
        &&& (&self.3).sound()
        &&& (&self.4).sound()
        &&& (&self.5).sound()
        &&& (&self.6).sound()
    }

    open spec fn meant(self) -> (
        T0::Model,
        T1::Model,
        T2::Model,
        T3::Model,
        T4::Model,
        T5::Model,
        T6::Model,
    ) {
        (
            (&self.0).meant(),
            (&self.1).meant(),
            (&self.2).meant(),
            (&self.3).meant(),
            (&self.4).meant(),
            (&self.5).meant(),
            (&self.6).meant(),
        )
    }

    proof fn grows(self, h: Store) {
        let run0 = started(h);
        let run1 = joined(run0, (&self.0));
        lemma_join_grows::<T0, &'a T0>(run0, (&self.0));
        let run2 = joined(run1, (&self.1));
        lemma_join_grows::<T1, &'a T1>(run1, (&self.1));
        lemma_extends(h, run1.0, run2.0);
        let run3 = joined(run2, (&self.2));
        lemma_join_grows::<T2, &'a T2>(run2, (&self.2));
        lemma_extends(h, run2.0, run3.0);
        let run4 = joined(run3, (&self.3));
        lemma_join_grows::<T3, &'a T3>(run3, (&self.3));
        lemma_extends(h, run3.0, run4.0);
        let run5 = joined(run4, (&self.4));
        lemma_join_grows::<T4, &'a T4>(run4, (&self.4));
        lemma_extends(h, run4.0, run5.0);
        let run6 = joined(run5, (&self.5));
        lemma_join_grows::<T5, &'a T5>(run5, (&self.5));
        lemma_extends(h, run5.0, run6.0);
        let run7 = joined(run6, (&self.6));
        lemma_join_grows::<T6, &'a T6>(run6, (&self.6));
        lemma_extends(h, run6.0, run7.0);
        lemma_pack_grows(run7);
        lemma_extends(h, run7.0, packed(run7).0);
    }

    proof fn lossless(self, h: Store, later: Store) {
        let run0 = started(h);
        let run1 = joined(run0, (&self.0));
        let run2 = joined(run1, (&self.1));
        let run3 = joined(run2, (&self.2));
        let run4 = joined(run3, (&self.3));
        let run5 = joined(run4, (&self.4));
        let run6 = joined(run5, (&self.5));
        let run7 = joined(run6, (&self.6));
        lemma_pack_lossless(run7, later);
        lemma_join_lossless::<T6, &'a T6>(run6, (&self.6), later);
        lemma_join_lossless::<T5, &'a T5>(run5, (&self.5), later);
        lemma_join_lossless::<T4, &'a T4>(run4, (&self.4), later);
        lemma_join_lossless::<T3, &'a T3>(run3, (&self.3), later);
        lemma_join_lossless::<T2, &'a T2>(run2, (&self.2), later);
        lemma_join_lossless::<T1, &'a T1>(run1, (&self.1), later);
        lemma_join_lossless::<T0, &'a T0>(run0, (&self.0), later);
    }
}

impl<
    T0: FromVal,
    T1: FromVal,
    T2: FromVal,
    T3: FromVal,
    T4: FromVal,
    T5: FromVal,
    T6: FromVal,
    T7: FromVal,
    A: Lossless<T0>,
    B: Lossless<T1>,
    C: Lossless<T2>,
    D: Lossless<T3>,
    E: Lossless<T4>,
    F: Lossless<T5>,
    G: Lossless<T6>,
    H: Lossless<T7>,
> Lossless<(T0, T1, T2, T3, T4, T5, T6, T7)> for (A, B, C, D, E, F, G, H) {
    open spec fn sound(self) -> bool {
        &&& self.0.sound()
        &&& self.1.sound()
        &&& self.2.sound()
        &&& self.3.sound()
        &&& self.4.sound()
        &&& self.5.sound()
        &&& self.6.sound()
        &&& self.7.sound()
    }

    open spec fn meant(self) -> (
        T0::Model,
        T1::Model,
        T2::Model,
        T3::Model,
        T4::Model,
        T5::Model,
        T6::Model,
        T7::Model,
    ) {
        (
            self.0.meant(),
            self.1.meant(),
            self.2.meant(),
            self.3.meant(),
            self.4.meant(),
            self.5.meant(),
            self.6.meant(),
            self.7.meant(),
        )
    }

    proof fn grows(self, h: Store) {
        let run0 = started(h);
        let run1 = joined(run0, self.0);
        lemma_join_grows::<T0, A>(run0, self.0);
        let run2 = joined(run1, self.1);
        lemma_join_grows::<T1, B>(run1, self.1);
        lemma_extends(h, run1.0, run2.0);
        let run3 = joined(run2, self.2);
        lemma_join_grows::<T2, C>(run2, self.2);
        lemma_extends(h, run2.0, run3.0);
        let run4 = joined(run3, self.3);
        lemma_join_grows::<T3, D>(run3, self.3);
        lemma_extends(h, run3.0, run4.0);
        let run5 = joined(run4, self.4);
        lemma_join_grows::<T4, E>(run4, self.4);
        lemma_extends(h, run4.0, run5.0);
        let run6 = joined(run5, self.5);
        lemma_join_grows::<T5, F>(run5, self.5);
        lemma_extends(h, run5.0, run6.0);
        let run7 = joined(run6, self.6);
        lemma_join_grows::<T6, G>(run6, self.6);
        lemma_extends(h, run6.0, run7.0);
        let run8 = joined(run7, self.7);
        lemma_join_grows::<T7, H>(run7, self.7);
        lemma_extends(h, run7.0, run8.0);
        lemma_pack_grows(run8);
        lemma_extends(h, run8.0, packed(run8).0);
    }

    proof fn lossless(self, h: Store, later: Store) {
        let run0 = started(h);
        let run1 = joined(run0, self.0);
        let run2 = joined(run1, self.1);
        let run3 = joined(run2, self.2);
        let run4 = joined(run3, self.3);
        let run5 = joined(run4, self.4);
        let run6 = joined(run5, self.5);
        let run7 = joined(run6, self.6);
        let run8 = joined(run7, self.7);
        lemma_pack_lossless(run8, later);
        lemma_join_lossless::<T7, H>(run7, self.7, later);
        lemma_join_lossless::<T6, G>(run6, self.6, later);
        lemma_join_lossless::<T5, F>(run5, self.5, later);
        lemma_join_lossless::<T4, E>(run4, self.4, later);
        lemma_join_lossless::<T3, D>(run3, self.3, later);
        lemma_join_lossless::<T2, C>(run2, self.2, later);
        lemma_join_lossless::<T1, B>(run1, self.1, later);
        lemma_join_lossless::<T0, A>(run0, self.0, later);
    }
}

impl<
    T0: ByRef,
    T1: ByRef,
    T2: ByRef,
    T3: ByRef,
    T4: ByRef,
    T5: ByRef,
    T6: ByRef,
    T7: ByRef,
> ByRef for (T0, T1, T2, T3, T4, T5, T6, T7) where
    for <'b>&'b T0: Lossless<T0>,
    for <'b>&'b T1: Lossless<T1>,
    for <'b>&'b T2: Lossless<T2>,
    for <'b>&'b T3: Lossless<T3>,
    for <'b>&'b T4: Lossless<T4>,
    for <'b>&'b T5: Lossless<T5>,
    for <'b>&'b T6: Lossless<T6>,
    for <'b>&'b T7: Lossless<T7>,
 {
    proof fn faithful_by_ref(&self) {
        self.0.faithful_by_ref();
        self.1.faithful_by_ref();
        self.2.faithful_by_ref();
        self.3.faithful_by_ref();
        self.4.faithful_by_ref();
        self.5.faithful_by_ref();
        self.6.faithful_by_ref();
        self.7.faithful_by_ref();
    }
}

impl<
    T0: RoundTrip,
    T1: RoundTrip,
    T2: RoundTrip,
    T3: RoundTrip,
    T4: RoundTrip,
    T5: RoundTrip,
    T6: RoundTrip,
    T7: RoundTrip,
> RoundTrip for (T0, T1, T2, T3, T4, T5, T6, T7) {
    proof fn faithful(self) {
        self.0.faithful();
        self.1.faithful();
        self.2.faithful();
        self.3.faithful();
        self.4.faithful();
        self.5.faithful();
        self.6.faithful();
        self.7.faithful();
    }
}

impl<
    'a,
    T0: FromVal,
    T1: FromVal,
    T2: FromVal,
    T3: FromVal,
    T4: FromVal,
    T5: FromVal,
    T6: FromVal,
    T7: FromVal,
> Lossless<(T0, T1, T2, T3, T4, T5, T6, T7)> for &'a (T0, T1, T2, T3, T4, T5, T6, T7) where
    &'a T0: Lossless<T0>,
    &'a T1: Lossless<T1>,
    &'a T2: Lossless<T2>,
    &'a T3: Lossless<T3>,
    &'a T4: Lossless<T4>,
    &'a T5: Lossless<T5>,
    &'a T6: Lossless<T6>,
    &'a T7: Lossless<T7>,
 {
    open spec fn sound(self) -> bool {
        &&& (&self.0).sound()
        &&& (&self.1).sound()
        &&& (&self.2).sound()
        &&& (&self.3).sound()
        &&& (&self.4).sound()
        &&& (&self.5).sound()
        &&& (&self.6).sound()
        &&& (&self.7).sound()
    }

    open spec fn meant(self) -> (
        T0::Model,
        T1::Model,
        T2::Model,
        T3::Model,
        T4::Model,
        T5::Model,
        T6::Model,
        T7::Model,
    ) {
        (
            (&self.0).meant(),
            (&self.1).meant(),
            (&self.2).meant(),
            (&self.3).meant(),
            (&self.4).meant(),
            (&self.5).meant(),
            (&self.6).meant(),
            (&self.7).meant(),
        )
    }

    proof fn grows(self, h: Store) {
        let run0 = started(h);
        let run1 = joined(run0, (&self.0));
        lemma_join_grows::<T0, &'a T0>(run0, (&self.0));
        let run2 = joined(run1, (&self.1));
        lemma_join_grows::<T1, &'a T1>(run1, (&self.1));
        lemma_extends(h, run1.0, run2.0);
        let run3 = joined(run2, (&self.2));
        lemma_join_grows::<T2, &'a T2>(run2, (&self.2));
        lemma_extends(h, run2.0, run3.0);
        let run4 = joined(run3, (&self.3));
        lemma_join_grows::<T3, &'a T3>(run3, (&self.3));
        lemma_extends(h, run3.0, run4.0);
        let run5 = joined(run4, (&self.4));
        lemma_join_grows::<T4, &'a T4>(run4, (&self.4));
        lemma_extends(h, run4.0, run5.0);
        let run6 = joined(run5, (&self.5));
        lemma_join_grows::<T5, &'a T5>(run5, (&self.5));
        lemma_extends(h, run5.0, run6.0);
        let run7 = joined(run6, (&self.6));
        lemma_join_grows::<T6, &'a T6>(run6, (&self.6));
        lemma_extends(h, run6.0, run7.0);
        let run8 = joined(run7, (&self.7));
        lemma_join_grows::<T7, &'a T7>(run7, (&self.7));
        lemma_extends(h, run7.0, run8.0);
        lemma_pack_grows(run8);
        lemma_extends(h, run8.0, packed(run8).0);
    }

    proof fn lossless(self, h: Store, later: Store) {
        let run0 = started(h);
        let run1 = joined(run0, (&self.0));
        let run2 = joined(run1, (&self.1));
        let run3 = joined(run2, (&self.2));
        let run4 = joined(run3, (&self.3));
        let run5 = joined(run4, (&self.4));
        let run6 = joined(run5, (&self.5));
        let run7 = joined(run6, (&self.6));
        let run8 = joined(run7, (&self.7));
        lemma_pack_lossless(run8, later);
        lemma_join_lossless::<T7, &'a T7>(run7, (&self.7), later);
        lemma_join_lossless::<T6, &'a T6>(run6, (&self.6), later);
        lemma_join_lossless::<T5, &'a T5>(run5, (&self.5), later);
        lemma_join_lossless::<T4, &'a T4>(run4, (&self.4), later);
        lemma_join_lossless::<T3, &'a T3>(run3, (&self.3), later);
        lemma_join_lossless::<T2, &'a T2>(run2, (&self.2), later);
        lemma_join_lossless::<T1, &'a T1>(run1, (&self.1), later);
        lemma_join_lossless::<T0, &'a T0>(run0, (&self.0), later);
    }
}

impl<
    T0: FromVal,
    T1: FromVal,
    T2: FromVal,
    T3: FromVal,
    T4: FromVal,
    T5: FromVal,
    T6: FromVal,
    T7: FromVal,
    T8: FromVal,
    A: Lossless<T0>,
    B: Lossless<T1>,
    C: Lossless<T2>,
    D: Lossless<T3>,
    E: Lossless<T4>,
    F: Lossless<T5>,
    G: Lossless<T6>,
    H: Lossless<T7>,
    I: Lossless<T8>,
> Lossless<(T0, T1, T2, T3, T4, T5, T6, T7, T8)> for (A, B, C, D, E, F, G, H, I) {
    open spec fn sound(self) -> bool {
        &&& self.0.sound()
        &&& self.1.sound()
        &&& self.2.sound()
        &&& self.3.sound()
        &&& self.4.sound()
        &&& self.5.sound()
        &&& self.6.sound()
        &&& self.7.sound()
        &&& self.8.sound()
    }

    open spec fn meant(self) -> (
        T0::Model,
        T1::Model,
        T2::Model,
        T3::Model,
        T4::Model,
        T5::Model,
        T6::Model,
        T7::Model,
        T8::Model,
    ) {
        (
            self.0.meant(),
            self.1.meant(),
            self.2.meant(),
            self.3.meant(),
            self.4.meant(),
            self.5.meant(),
            self.6.meant(),
            self.7.meant(),
            self.8.meant(),
        )
    }

    proof fn grows(self, h: Store) {
        let run0 = started(h);
        let run1 = joined(run0, self.0);
        lemma_join_grows::<T0, A>(run0, self.0);
        let run2 = joined(run1, self.1);
        lemma_join_grows::<T1, B>(run1, self.1);
        lemma_extends(h, run1.0, run2.0);
        let run3 = joined(run2, self.2);
        lemma_join_grows::<T2, C>(run2, self.2);
        lemma_extends(h, run2.0, run3.0);
        let run4 = joined(run3, self.3);
        lemma_join_grows::<T3, D>(run3, self.3);
        lemma_extends(h, run3.0, run4.0);
        let run5 = joined(run4, self.4);
        lemma_join_grows::<T4, E>(run4, self.4);
        lemma_extends(h, run4.0, run5.0);
        let run6 = joined(run5, self.5);
        lemma_join_grows::<T5, F>(run5, self.5);
        lemma_extends(h, run5.0, run6.0);
        let run7 = joined(run6, self.6);
        lemma_join_grows::<T6, G>(run6, self.6);
        lemma_extends(h, run6.0, run7.0);
        let run8 = joined(run7, self.7);
        lemma_join_grows::<T7, H>(run7, self.7);
        lemma_extends(h, run7.0, run8.0);
        let run9 = joined(run8, self.8);
        lemma_join_grows::<T8, I>(run8, self.8);
        lemma_extends(h, run8.0, run9.0);
        lemma_pack_grows(run9);
        lemma_extends(h, run9.0, packed(run9).0);
    }

    proof fn lossless(self, h: Store, later: Store) {
        let run0 = started(h);
        let run1 = joined(run0, self.0);
        let run2 = joined(run1, self.1);
        let run3 = joined(run2, self.2);
        let run4 = joined(run3, self.3);
        let run5 = joined(run4, self.4);
        let run6 = joined(run5, self.5);
        let run7 = joined(run6, self.6);
        let run8 = joined(run7, self.7);
        let run9 = joined(run8, self.8);
        lemma_pack_lossless(run9, later);
        lemma_join_lossless::<T8, I>(run8, self.8, later);
        lemma_join_lossless::<T7, H>(run7, self.7, later);
        lemma_join_lossless::<T6, G>(run6, self.6, later);
        lemma_join_lossless::<T5, F>(run5, self.5, later);
        lemma_join_lossless::<T4, E>(run4, self.4, later);
        lemma_join_lossless::<T3, D>(run3, self.3, later);
        lemma_join_lossless::<T2, C>(run2, self.2, later);
        lemma_join_lossless::<T1, B>(run1, self.1, later);
        lemma_join_lossless::<T0, A>(run0, self.0, later);
    }
}

impl<
    T0: ByRef,
    T1: ByRef,
    T2: ByRef,
    T3: ByRef,
    T4: ByRef,
    T5: ByRef,
    T6: ByRef,
    T7: ByRef,
    T8: ByRef,
> ByRef for (T0, T1, T2, T3, T4, T5, T6, T7, T8) where
    for <'b>&'b T0: Lossless<T0>,
    for <'b>&'b T1: Lossless<T1>,
    for <'b>&'b T2: Lossless<T2>,
    for <'b>&'b T3: Lossless<T3>,
    for <'b>&'b T4: Lossless<T4>,
    for <'b>&'b T5: Lossless<T5>,
    for <'b>&'b T6: Lossless<T6>,
    for <'b>&'b T7: Lossless<T7>,
    for <'b>&'b T8: Lossless<T8>,
 {
    proof fn faithful_by_ref(&self) {
        self.0.faithful_by_ref();
        self.1.faithful_by_ref();
        self.2.faithful_by_ref();
        self.3.faithful_by_ref();
        self.4.faithful_by_ref();
        self.5.faithful_by_ref();
        self.6.faithful_by_ref();
        self.7.faithful_by_ref();
        self.8.faithful_by_ref();
    }
}

impl<
    T0: RoundTrip,
    T1: RoundTrip,
    T2: RoundTrip,
    T3: RoundTrip,
    T4: RoundTrip,
    T5: RoundTrip,
    T6: RoundTrip,
    T7: RoundTrip,
    T8: RoundTrip,
> RoundTrip for (T0, T1, T2, T3, T4, T5, T6, T7, T8) {
    proof fn faithful(self) {
        self.0.faithful();
        self.1.faithful();
        self.2.faithful();
        self.3.faithful();
        self.4.faithful();
        self.5.faithful();
        self.6.faithful();
        self.7.faithful();
        self.8.faithful();
    }
}

impl<
    'a,
    T0: FromVal,
    T1: FromVal,
    T2: FromVal,
    T3: FromVal,
    T4: FromVal,
    T5: FromVal,
    T6: FromVal,
    T7: FromVal,
    T8: FromVal,
> Lossless<(T0, T1, T2, T3, T4, T5, T6, T7, T8)> for &'a (T0, T1, T2, T3, T4, T5, T6, T7, T8) where
    &'a T0: Lossless<T0>,
    &'a T1: Lossless<T1>,
    &'a T2: Lossless<T2>,
    &'a T3: Lossless<T3>,
    &'a T4: Lossless<T4>,
    &'a T5: Lossless<T5>,
    &'a T6: Lossless<T6>,
    &'a T7: Lossless<T7>,
    &'a T8: Lossless<T8>,
 {
    open spec fn sound(self) -> bool {
        &&& (&self.0).sound()
        &&& (&self.1).sound()
        &&& (&self.2).sound()
        &&& (&self.3).sound()
        &&& (&self.4).sound()
        &&& (&self.5).sound()
        &&& (&self.6).sound()
        &&& (&self.7).sound()
        &&& (&self.8).sound()
    }

    open spec fn meant(self) -> (
        T0::Model,
        T1::Model,
        T2::Model,
        T3::Model,
        T4::Model,
        T5::Model,
        T6::Model,
        T7::Model,
        T8::Model,
    ) {
        (
            (&self.0).meant(),
            (&self.1).meant(),
            (&self.2).meant(),
            (&self.3).meant(),
            (&self.4).meant(),
            (&self.5).meant(),
            (&self.6).meant(),
            (&self.7).meant(),
            (&self.8).meant(),
        )
    }

    proof fn grows(self, h: Store) {
        let run0 = started(h);
        let run1 = joined(run0, (&self.0));
        lemma_join_grows::<T0, &'a T0>(run0, (&self.0));
        let run2 = joined(run1, (&self.1));
        lemma_join_grows::<T1, &'a T1>(run1, (&self.1));
        lemma_extends(h, run1.0, run2.0);
        let run3 = joined(run2, (&self.2));
        lemma_join_grows::<T2, &'a T2>(run2, (&self.2));
        lemma_extends(h, run2.0, run3.0);
        let run4 = joined(run3, (&self.3));
        lemma_join_grows::<T3, &'a T3>(run3, (&self.3));
        lemma_extends(h, run3.0, run4.0);
        let run5 = joined(run4, (&self.4));
        lemma_join_grows::<T4, &'a T4>(run4, (&self.4));
        lemma_extends(h, run4.0, run5.0);
        let run6 = joined(run5, (&self.5));
        lemma_join_grows::<T5, &'a T5>(run5, (&self.5));
        lemma_extends(h, run5.0, run6.0);
        let run7 = joined(run6, (&self.6));
        lemma_join_grows::<T6, &'a T6>(run6, (&self.6));
        lemma_extends(h, run6.0, run7.0);
        let run8 = joined(run7, (&self.7));
        lemma_join_grows::<T7, &'a T7>(run7, (&self.7));
        lemma_extends(h, run7.0, run8.0);
        let run9 = joined(run8, (&self.8));
        lemma_join_grows::<T8, &'a T8>(run8, (&self.8));
        lemma_extends(h, run8.0, run9.0);
        lemma_pack_grows(run9);
        lemma_extends(h, run9.0, packed(run9).0);
    }

    proof fn lossless(self, h: Store, later: Store) {
        let run0 = started(h);
        let run1 = joined(run0, (&self.0));
        let run2 = joined(run1, (&self.1));
        let run3 = joined(run2, (&self.2));
        let run4 = joined(run3, (&self.3));
        let run5 = joined(run4, (&self.4));
        let run6 = joined(run5, (&self.5));
        let run7 = joined(run6, (&self.6));
        let run8 = joined(run7, (&self.7));
        let run9 = joined(run8, (&self.8));
        lemma_pack_lossless(run9, later);
        lemma_join_lossless::<T8, &'a T8>(run8, (&self.8), later);
        lemma_join_lossless::<T7, &'a T7>(run7, (&self.7), later);
        lemma_join_lossless::<T6, &'a T6>(run6, (&self.6), later);
        lemma_join_lossless::<T5, &'a T5>(run5, (&self.5), later);
        lemma_join_lossless::<T4, &'a T4>(run4, (&self.4), later);
        lemma_join_lossless::<T3, &'a T3>(run3, (&self.3), later);
        lemma_join_lossless::<T2, &'a T2>(run2, (&self.2), later);
        lemma_join_lossless::<T1, &'a T1>(run1, (&self.1), later);
        lemma_join_lossless::<T0, &'a T0>(run0, (&self.0), later);
    }
}

impl<
    T0: FromVal,
    T1: FromVal,
    T2: FromVal,
    T3: FromVal,
    T4: FromVal,
    T5: FromVal,
    T6: FromVal,
    T7: FromVal,
    T8: FromVal,
    T9: FromVal,
    A: Lossless<T0>,
    B: Lossless<T1>,
    C: Lossless<T2>,
    D: Lossless<T3>,
    E: Lossless<T4>,
    F: Lossless<T5>,
    G: Lossless<T6>,
    H: Lossless<T7>,
    I: Lossless<T8>,
    J: Lossless<T9>,
> Lossless<(T0, T1, T2, T3, T4, T5, T6, T7, T8, T9)> for (A, B, C, D, E, F, G, H, I, J) {
    open spec fn sound(self) -> bool {
        &&& self.0.sound()
        &&& self.1.sound()
        &&& self.2.sound()
        &&& self.3.sound()
        &&& self.4.sound()
        &&& self.5.sound()
        &&& self.6.sound()
        &&& self.7.sound()
        &&& self.8.sound()
        &&& self.9.sound()
    }

    open spec fn meant(self) -> (
        T0::Model,
        T1::Model,
        T2::Model,
        T3::Model,
        T4::Model,
        T5::Model,
        T6::Model,
        T7::Model,
        T8::Model,
        T9::Model,
    ) {
        (
            self.0.meant(),
            self.1.meant(),
            self.2.meant(),
            self.3.meant(),
            self.4.meant(),
            self.5.meant(),
            self.6.meant(),
            self.7.meant(),
            self.8.meant(),
            self.9.meant(),
        )
    }

    proof fn grows(self, h: Store) {
        let run0 = started(h);
        let run1 = joined(run0, self.0);
        lemma_join_grows::<T0, A>(run0, self.0);
        let run2 = joined(run1, self.1);
        lemma_join_grows::<T1, B>(run1, self.1);
        lemma_extends(h, run1.0, run2.0);
        let run3 = joined(run2, self.2);
        lemma_join_grows::<T2, C>(run2, self.2);
        lemma_extends(h, run2.0, run3.0);
        let run4 = joined(run3, self.3);
        lemma_join_grows::<T3, D>(run3, self.3);
        lemma_extends(h, run3.0, run4.0);
        let run5 = joined(run4, self.4);
        lemma_join_grows::<T4, E>(run4, self.4);
        lemma_extends(h, run4.0, run5.0);
        let run6 = joined(run5, self.5);
        lemma_join_grows::<T5, F>(run5, self.5);
        lemma_extends(h, run5.0, run6.0);
        let run7 = joined(run6, self.6);
        lemma_join_grows::<T6, G>(run6, self.6);
        lemma_extends(h, run6.0, run7.0);
        let run8 = joined(run7, self.7);
        lemma_join_grows::<T7, H>(run7, self.7);
        lemma_extends(h, run7.0, run8.0);
        let run9 = joined(run8, self.8);
        lemma_join_grows::<T8, I>(run8, self.8);
        lemma_extends(h, run8.0, run9.0);
        let run10 = joined(run9, self.9);
        lemma_join_grows::<T9, J>(run9, self.9);
        lemma_extends(h, run9.0, run10.0);
        lemma_pack_grows(run10);
        lemma_extends(h, run10.0, packed(run10).0);
    }

    proof fn lossless(self, h: Store, later: Store) {
        let run0 = started(h);
        let run1 = joined(run0, self.0);
        let run2 = joined(run1, self.1);
        let run3 = joined(run2, self.2);
        let run4 = joined(run3, self.3);
        let run5 = joined(run4, self.4);
        let run6 = joined(run5, self.5);
        let run7 = joined(run6, self.6);
        let run8 = joined(run7, self.7);
        let run9 = joined(run8, self.8);
        let run10 = joined(run9, self.9);
        lemma_pack_lossless(run10, later);
        lemma_join_lossless::<T9, J>(run9, self.9, later);
        lemma_join_lossless::<T8, I>(run8, self.8, later);
        lemma_join_lossless::<T7, H>(run7, self.7, later);
        lemma_join_lossless::<T6, G>(run6, self.6, later);
        lemma_join_lossless::<T5, F>(run5, self.5, later);
        lemma_join_lossless::<T4, E>(run4, self.4, later);
        lemma_join_lossless::<T3, D>(run3, self.3, later);
        lemma_join_lossless::<T2, C>(run2, self.2, later);
        lemma_join_lossless::<T1, B>(run1, self.1, later);
        lemma_join_lossless::<T0, A>(run0, self.0, later);
    }
}

impl<
    T0: ByRef,
    T1: ByRef,
    T2: ByRef,
    T3: ByRef,
    T4: ByRef,
    T5: ByRef,
    T6: ByRef,
    T7: ByRef,
    T8: ByRef,
    T9: ByRef,
> ByRef for (T0, T1, T2, T3, T4, T5, T6, T7, T8, T9) where
    for <'b>&'b T0: Lossless<T0>,
    for <'b>&'b T1: Lossless<T1>,
    for <'b>&'b T2: Lossless<T2>,
    for <'b>&'b T3: Lossless<T3>,
    for <'b>&'b T4: Lossless<T4>,
    for <'b>&'b T5: Lossless<T5>,
    for <'b>&'b T6: Lossless<T6>,
    for <'b>&'b T7: Lossless<T7>,
    for <'b>&'b T8: Lossless<T8>,
    for <'b>&'b T9: Lossless<T9>,
 {
    proof fn faithful_by_ref(&self) {
        self.0.faithful_by_ref();
        self.1.faithful_by_ref();
        self.2.faithful_by_ref();
        self.3.faithful_by_ref();
        self.4.faithful_by_ref();
        self.5.faithful_by_ref();
        self.6.faithful_by_ref();
        self.7.faithful_by_ref();
        self.8.faithful_by_ref();
        self.9.faithful_by_ref();
    }
}

impl<
    T0: RoundTrip,
    T1: RoundTrip,
    T2: RoundTrip,
    T3: RoundTrip,
    T4: RoundTrip,
    T5: RoundTrip,
    T6: RoundTrip,
    T7: RoundTrip,
    T8: RoundTrip,
    T9: RoundTrip,
> RoundTrip for (T0, T1, T2, T3, T4, T5, T6, T7, T8, T9) {
    proof fn faithful(self) {
        self.0.faithful();
        self.1.faithful();
        self.2.faithful();
        self.3.faithful();
        self.4.faithful();
        self.5.faithful();
        self.6.faithful();
        self.7.faithful();
        self.8.faithful();
        self.9.faithful();
    }
}

impl<
    'a,
    T0: FromVal,
    T1: FromVal,
    T2: FromVal,
    T3: FromVal,
    T4: FromVal,
    T5: FromVal,
    T6: FromVal,
    T7: FromVal,
    T8: FromVal,
    T9: FromVal,
> Lossless<
    (T0, T1, T2, T3, T4, T5, T6, T7, T8, T9),
> for &'a (T0, T1, T2, T3, T4, T5, T6, T7, T8, T9) where
    &'a T0: Lossless<T0>,
    &'a T1: Lossless<T1>,
    &'a T2: Lossless<T2>,
    &'a T3: Lossless<T3>,
    &'a T4: Lossless<T4>,
    &'a T5: Lossless<T5>,
    &'a T6: Lossless<T6>,
    &'a T7: Lossless<T7>,
    &'a T8: Lossless<T8>,
    &'a T9: Lossless<T9>,
 {
    open spec fn sound(self) -> bool {
        &&& (&self.0).sound()
        &&& (&self.1).sound()
        &&& (&self.2).sound()
        &&& (&self.3).sound()
        &&& (&self.4).sound()
        &&& (&self.5).sound()
        &&& (&self.6).sound()
        &&& (&self.7).sound()
        &&& (&self.8).sound()
        &&& (&self.9).sound()
    }

    open spec fn meant(self) -> (
        T0::Model,
        T1::Model,
        T2::Model,
        T3::Model,
        T4::Model,
        T5::Model,
        T6::Model,
        T7::Model,
        T8::Model,
        T9::Model,
    ) {
        (
            (&self.0).meant(),
            (&self.1).meant(),
            (&self.2).meant(),
            (&self.3).meant(),
            (&self.4).meant(),
            (&self.5).meant(),
            (&self.6).meant(),
            (&self.7).meant(),
            (&self.8).meant(),
            (&self.9).meant(),
        )
    }

    proof fn grows(self, h: Store) {
        let run0 = started(h);
        let run1 = joined(run0, (&self.0));
        lemma_join_grows::<T0, &'a T0>(run0, (&self.0));
        let run2 = joined(run1, (&self.1));
        lemma_join_grows::<T1, &'a T1>(run1, (&self.1));
        lemma_extends(h, run1.0, run2.0);
        let run3 = joined(run2, (&self.2));
        lemma_join_grows::<T2, &'a T2>(run2, (&self.2));
        lemma_extends(h, run2.0, run3.0);
        let run4 = joined(run3, (&self.3));
        lemma_join_grows::<T3, &'a T3>(run3, (&self.3));
        lemma_extends(h, run3.0, run4.0);
        let run5 = joined(run4, (&self.4));
        lemma_join_grows::<T4, &'a T4>(run4, (&self.4));
        lemma_extends(h, run4.0, run5.0);
        let run6 = joined(run5, (&self.5));
        lemma_join_grows::<T5, &'a T5>(run5, (&self.5));
        lemma_extends(h, run5.0, run6.0);
        let run7 = joined(run6, (&self.6));
        lemma_join_grows::<T6, &'a T6>(run6, (&self.6));
        lemma_extends(h, run6.0, run7.0);
        let run8 = joined(run7, (&self.7));
        lemma_join_grows::<T7, &'a T7>(run7, (&self.7));
        lemma_extends(h, run7.0, run8.0);
        let run9 = joined(run8, (&self.8));
        lemma_join_grows::<T8, &'a T8>(run8, (&self.8));
        lemma_extends(h, run8.0, run9.0);
        let run10 = joined(run9, (&self.9));
        lemma_join_grows::<T9, &'a T9>(run9, (&self.9));
        lemma_extends(h, run9.0, run10.0);
        lemma_pack_grows(run10);
        lemma_extends(h, run10.0, packed(run10).0);
    }

    proof fn lossless(self, h: Store, later: Store) {
        let run0 = started(h);
        let run1 = joined(run0, (&self.0));
        let run2 = joined(run1, (&self.1));
        let run3 = joined(run2, (&self.2));
        let run4 = joined(run3, (&self.3));
        let run5 = joined(run4, (&self.4));
        let run6 = joined(run5, (&self.5));
        let run7 = joined(run6, (&self.6));
        let run8 = joined(run7, (&self.7));
        let run9 = joined(run8, (&self.8));
        let run10 = joined(run9, (&self.9));
        lemma_pack_lossless(run10, later);
        lemma_join_lossless::<T9, &'a T9>(run9, (&self.9), later);
        lemma_join_lossless::<T8, &'a T8>(run8, (&self.8), later);
        lemma_join_lossless::<T7, &'a T7>(run7, (&self.7), later);
        lemma_join_lossless::<T6, &'a T6>(run6, (&self.6), later);
        lemma_join_lossless::<T5, &'a T5>(run5, (&self.5), later);
        lemma_join_lossless::<T4, &'a T4>(run4, (&self.4), later);
        lemma_join_lossless::<T3, &'a T3>(run3, (&self.3), later);
        lemma_join_lossless::<T2, &'a T2>(run2, (&self.2), later);
        lemma_join_lossless::<T1, &'a T1>(run1, (&self.1), later);
        lemma_join_lossless::<T0, &'a T0>(run0, (&self.0), later);
    }
}

impl<
    T0: FromVal,
    T1: FromVal,
    T2: FromVal,
    T3: FromVal,
    T4: FromVal,
    T5: FromVal,
    T6: FromVal,
    T7: FromVal,
    T8: FromVal,
    T9: FromVal,
    T10: FromVal,
    A: Lossless<T0>,
    B: Lossless<T1>,
    C: Lossless<T2>,
    D: Lossless<T3>,
    E: Lossless<T4>,
    F: Lossless<T5>,
    G: Lossless<T6>,
    H: Lossless<T7>,
    I: Lossless<T8>,
    J: Lossless<T9>,
    K: Lossless<T10>,
> Lossless<(T0, T1, T2, T3, T4, T5, T6, T7, T8, T9, T10)> for (A, B, C, D, E, F, G, H, I, J, K) {
    open spec fn sound(self) -> bool {
        &&& self.0.sound()
        &&& self.1.sound()
        &&& self.2.sound()
        &&& self.3.sound()
        &&& self.4.sound()
        &&& self.5.sound()
        &&& self.6.sound()
        &&& self.7.sound()
        &&& self.8.sound()
        &&& self.9.sound()
        &&& self.10.sound()
    }

    open spec fn meant(self) -> (
        T0::Model,
        T1::Model,
        T2::Model,
        T3::Model,
        T4::Model,
        T5::Model,
        T6::Model,
        T7::Model,
        T8::Model,
        T9::Model,
        T10::Model,
    ) {
        (
            self.0.meant(),
            self.1.meant(),
            self.2.meant(),
            self.3.meant(),
            self.4.meant(),
            self.5.meant(),
            self.6.meant(),
            self.7.meant(),
            self.8.meant(),
            self.9.meant(),
            self.10.meant(),
        )
    }

    proof fn grows(self, h: Store) {
        let run0 = started(h);
        let run1 = joined(run0, self.0);
        lemma_join_grows::<T0, A>(run0, self.0);
        let run2 = joined(run1, self.1);
        lemma_join_grows::<T1, B>(run1, self.1);
        lemma_extends(h, run1.0, run2.0);
        let run3 = joined(run2, self.2);
        lemma_join_grows::<T2, C>(run2, self.2);
        lemma_extends(h, run2.0, run3.0);
        let run4 = joined(run3, self.3);
        lemma_join_grows::<T3, D>(run3, self.3);
        lemma_extends(h, run3.0, run4.0);
        let run5 = joined(run4, self.4);
        lemma_join_grows::<T4, E>(run4, self.4);
        lemma_extends(h, run4.0, run5.0);
        let run6 = joined(run5, self.5);
        lemma_join_grows::<T5, F>(run5, self.5);
        lemma_extends(h, run5.0, run6.0);
        let run7 = joined(run6, self.6);
        lemma_join_grows::<T6, G>(run6, self.6);
        lemma_extends(h, run6.0, run7.0);
        let run8 = joined(run7, self.7);
        lemma_join_grows::<T7, H>(run7, self.7);
        lemma_extends(h, run7.0, run8.0);
        let run9 = joined(run8, self.8);
        lemma_join_grows::<T8, I>(run8, self.8);
        lemma_extends(h, run8.0, run9.0);
        let run10 = joined(run9, self.9);
        lemma_join_grows::<T9, J>(run9, self.9);
        lemma_extends(h, run9.0, run10.0);
        let run11 = joined(run10, self.10);
        lemma_join_grows::<T10, K>(run10, self.10);
        lemma_extends(h, run10.0, run11.0);
        lemma_pack_grows(run11);
        lemma_extends(h, run11.0, packed(run11).0);
    }

    proof fn lossless(self, h: Store, later: Store) {
        let run0 = started(h);
        let run1 = joined(run0, self.0);
        let run2 = joined(run1, self.1);
        let run3 = joined(run2, self.2);
        let run4 = joined(run3, self.3);
        let run5 = joined(run4, self.4);
        let run6 = joined(run5, self.5);
        let run7 = joined(run6, self.6);
        let run8 = joined(run7, self.7);
        let run9 = joined(run8, self.8);
        let run10 = joined(run9, self.9);
        let run11 = joined(run10, self.10);
        lemma_pack_lossless(run11, later);
        lemma_join_lossless::<T10, K>(run10, self.10, later);
        lemma_join_lossless::<T9, J>(run9, self.9, later);
        lemma_join_lossless::<T8, I>(run8, self.8, later);
        lemma_join_lossless::<T7, H>(run7, self.7, later);
        lemma_join_lossless::<T6, G>(run6, self.6, later);
        lemma_join_lossless::<T5, F>(run5, self.5, later);
        lemma_join_lossless::<T4, E>(run4, self.4, later);
        lemma_join_lossless::<T3, D>(run3, self.3, later);
        lemma_join_lossless::<T2, C>(run2, self.2, later);
        lemma_join_lossless::<T1, B>(run1, self.1, later);
        lemma_join_lossless::<T0, A>(run0, self.0, later);
    }
}

impl<
    T0: ByRef,
    T1: ByRef,
    T2: ByRef,
    T3: ByRef,
    T4: ByRef,
    T5: ByRef,
    T6: ByRef,
    T7: ByRef,
    T8: ByRef,
    T9: ByRef,
    T10: ByRef,
> ByRef for (T0, T1, T2, T3, T4, T5, T6, T7, T8, T9, T10) where
    for <'b>&'b T0: Lossless<T0>,
    for <'b>&'b T1: Lossless<T1>,
    for <'b>&'b T2: Lossless<T2>,
    for <'b>&'b T3: Lossless<T3>,
    for <'b>&'b T4: Lossless<T4>,
    for <'b>&'b T5: Lossless<T5>,
    for <'b>&'b T6: Lossless<T6>,
    for <'b>&'b T7: Lossless<T7>,
    for <'b>&'b T8: Lossless<T8>,
    for <'b>&'b T9: Lossless<T9>,
    for <'b>&'b T10: Lossless<T10>,
 {
    proof fn faithful_by_ref(&self) {
        self.0.faithful_by_ref();
        self.1.faithful_by_ref();
        self.2.faithful_by_ref();
        self.3.faithful_by_ref();
        self.4.faithful_by_ref();
        self.5.faithful_by_ref();
        self.6.faithful_by_ref();
        self.7.faithful_by_ref();
        self.8.faithful_by_ref();
        self.9.faithful_by_ref();
        self.10.faithful_by_ref();
    }
}

impl<
    T0: RoundTrip,
    T1: RoundTrip,
    T2: RoundTrip,
    T3: RoundTrip,
    T4: RoundTrip,
    T5: RoundTrip,
    T6: RoundTrip,
    T7: RoundTrip,
    T8: RoundTrip,
    T9: RoundTrip,
    T10: RoundTrip,
> RoundTrip for (T0, T1, T2, T3, T4, T5, T6, T7, T8, T9, T10) {
    proof fn faithful(self) {
        self.0.faithful();
        self.1.faithful();
        self.2.faithful();
        self.3.faithful();
        self.4.faithful();
        self.5.faithful();
        self.6.faithful();
        self.7.faithful();
        self.8.faithful();
        self.9.faithful();
        self.10.faithful();
    }
}

impl<
    'a,
    T0: FromVal,
    T1: FromVal,
    T2: FromVal,
    T3: FromVal,
    T4: FromVal,
    T5: FromVal,
    T6: FromVal,
    T7: FromVal,
    T8: FromVal,
    T9: FromVal,
    T10: FromVal,
> Lossless<
    (T0, T1, T2, T3, T4, T5, T6, T7, T8, T9, T10),
> for &'a (T0, T1, T2, T3, T4, T5, T6, T7, T8, T9, T10) where
    &'a T0: Lossless<T0>,
    &'a T1: Lossless<T1>,
    &'a T2: Lossless<T2>,
    &'a T3: Lossless<T3>,
    &'a T4: Lossless<T4>,
    &'a T5: Lossless<T5>,
    &'a T6: Lossless<T6>,
    &'a T7: Lossless<T7>,
    &'a T8: Lossless<T8>,
    &'a T9: Lossless<T9>,
    &'a T10: Lossless<T10>,
 {
    open spec fn sound(self) -> bool {
        &&& (&self.0).sound()
        &&& (&self.1).sound()
        &&& (&self.2).sound()
        &&& (&self.3).sound()
        &&& (&self.4).sound()
        &&& (&self.5).sound()
        &&& (&self.6).sound()
        &&& (&self.7).sound()
        &&& (&self.8).sound()
        &&& (&self.9).sound()
        &&& (&self.10).sound()
    }

    open spec fn meant(self) -> (
        T0::Model,
        T1::Model,
        T2::Model,
        T3::Model,
        T4::Model,
        T5::Model,
        T6::Model,
        T7::Model,
        T8::Model,
        T9::Model,
        T10::Model,
    ) {
        (
            (&self.0).meant(),
            (&self.1).meant(),
            (&self.2).meant(),
            (&self.3).meant(),
            (&self.4).meant(),
            (&self.5).meant(),
            (&self.6).meant(),
            (&self.7).meant(),
            (&self.8).meant(),
            (&self.9).meant(),
            (&self.10).meant(),
        )
    }

    proof fn grows(self, h: Store) {
        let run0 = started(h);
        let run1 = joined(run0, (&self.0));
        lemma_join_grows::<T0, &'a T0>(run0, (&self.0));
        let run2 = joined(run1, (&self.1));
        lemma_join_grows::<T1, &'a T1>(run1, (&self.1));
        lemma_extends(h, run1.0, run2.0);
        let run3 = joined(run2, (&self.2));
        lemma_join_grows::<T2, &'a T2>(run2, (&self.2));
        lemma_extends(h, run2.0, run3.0);
        let run4 = joined(run3, (&self.3));
        lemma_join_grows::<T3, &'a T3>(run3, (&self.3));
        lemma_extends(h, run3.0, run4.0);
        let run5 = joined(run4, (&self.4));
        lemma_join_grows::<T4, &'a T4>(run4, (&self.4));
        lemma_extends(h, run4.0, run5.0);
        let run6 = joined(run5, (&self.5));
        lemma_join_grows::<T5, &'a T5>(run5, (&self.5));
        lemma_extends(h, run5.0, run6.0);
        let run7 = joined(run6, (&self.6));
        lemma_join_grows::<T6, &'a T6>(run6, (&self.6));
        lemma_extends(h, run6.0, run7.0);
        let run8 = joined(run7, (&self.7));
        lemma_join_grows::<T7, &'a T7>(run7, (&self.7));
        lemma_extends(h, run7.0, run8.0);
        let run9 = joined(run8, (&self.8));
        lemma_join_grows::<T8, &'a T8>(run8, (&self.8));
        lemma_extends(h, run8.0, run9.0);
        let run10 = joined(run9, (&self.9));
        lemma_join_grows::<T9, &'a T9>(run9, (&self.9));
        lemma_extends(h, run9.0, run10.0);
        let run11 = joined(run10, (&self.10));
        lemma_join_grows::<T10, &'a T10>(run10, (&self.10));
        lemma_extends(h, run10.0, run11.0);
        lemma_pack_grows(run11);
        lemma_extends(h, run11.0, packed(run11).0);
    }

    proof fn lossless(self, h: Store, later: Store) {
        let run0 = started(h);
        let run1 = joined(run0, (&self.0));
        let run2 = joined(run1, (&self.1));
        let run3 = joined(run2, (&self.2));
        let run4 = joined(run3, (&self.3));
        let run5 = joined(run4, (&self.4));
        let run6 = joined(run5, (&self.5));
        let run7 = joined(run6, (&self.6));
        let run8 = joined(run7, (&self.7));
        let run9 = joined(run8, (&self.8));
        let run10 = joined(run9, (&self.9));
        let run11 = joined(run10, (&self.10));
        lemma_pack_lossless(run11, later);
        lemma_join_lossless::<T10, &'a T10>(run10, (&self.10), later);
        lemma_join_lossless::<T9, &'a T9>(run9, (&self.9), later);
        lemma_join_lossless::<T8, &'a T8>(run8, (&self.8), later);
        lemma_join_lossless::<T7, &'a T7>(run7, (&self.7), later);
        lemma_join_lossless::<T6, &'a T6>(run6, (&self.6), later);
        lemma_join_lossless::<T5, &'a T5>(run5, (&self.5), later);
        lemma_join_lossless::<T4, &'a T4>(run4, (&self.4), later);
        lemma_join_lossless::<T3, &'a T3>(run3, (&self.3), later);
        lemma_join_lossless::<T2, &'a T2>(run2, (&self.2), later);
        lemma_join_lossless::<T1, &'a T1>(run1, (&self.1), later);
        lemma_join_lossless::<T0, &'a T0>(run0, (&self.0), later);
    }
}

impl<
    T0: FromVal,
    T1: FromVal,
    T2: FromVal,
    T3: FromVal,
    T4: FromVal,
    T5: FromVal,
    T6: FromVal,
    T7: FromVal,
    T8: FromVal,
    T9: FromVal,
    T10: FromVal,
    T11: FromVal,
    A: Lossless<T0>,
    B: Lossless<T1>,
    C: Lossless<T2>,
    D: Lossless<T3>,
    E: Lossless<T4>,
    F: Lossless<T5>,
    G: Lossless<T6>,
    H: Lossless<T7>,
    I: Lossless<T8>,
    J: Lossless<T9>,
    K: Lossless<T10>,
    L: Lossless<T11>,
> Lossless<
    (T0, T1, T2, T3, T4, T5, T6, T7, T8, T9, T10, T11),
> for (A, B, C, D, E, F, G, H, I, J, K, L) {
    open spec fn sound(self) -> bool {
        &&& self.0.sound()
        &&& self.1.sound()
        &&& self.2.sound()
        &&& self.3.sound()
        &&& self.4.sound()
        &&& self.5.sound()
        &&& self.6.sound()
        &&& self.7.sound()
        &&& self.8.sound()
        &&& self.9.sound()
        &&& self.10.sound()
        &&& self.11.sound()
    }

    open spec fn meant(self) -> (
        T0::Model,
        T1::Model,
        T2::Model,
        T3::Model,
        T4::Model,
        T5::Model,
        T6::Model,
        T7::Model,
        T8::Model,
        T9::Model,
        T10::Model,
        T11::Model,
    ) {
        (
            self.0.meant(),
            self.1.meant(),
            self.2.meant(),
            self.3.meant(),
            self.4.meant(),
            self.5.meant(),
            self.6.meant(),
            self.7.meant(),
            self.8.meant(),
            self.9.meant(),
            self.10.meant(),
            self.11.meant(),
        )
    }

    proof fn grows(self, h: Store) {
        let run0 = started(h);
        let run1 = joined(run0, self.0);
        lemma_join_grows::<T0, A>(run0, self.0);
        let run2 = joined(run1, self.1);
        lemma_join_grows::<T1, B>(run1, self.1);
        lemma_extends(h, run1.0, run2.0);
        let run3 = joined(run2, self.2);
        lemma_join_grows::<T2, C>(run2, self.2);
        lemma_extends(h, run2.0, run3.0);
        let run4 = joined(run3, self.3);
        lemma_join_grows::<T3, D>(run3, self.3);
        lemma_extends(h, run3.0, run4.0);
        let run5 = joined(run4, self.4);
        lemma_join_grows::<T4, E>(run4, self.4);
        lemma_extends(h, run4.0, run5.0);
        let run6 = joined(run5, self.5);
        lemma_join_grows::<T5, F>(run5, self.5);
        lemma_extends(h, run5.0, run6.0);
        let run7 = joined(run6, self.6);
        lemma_join_grows::<T6, G>(run6, self.6);
        lemma_extends(h, run6.0, run7.0);
        let run8 = joined(run7, self.7);
        lemma_join_grows::<T7, H>(run7, self.7);
        lemma_extends(h, run7.0, run8.0);
        let run9 = joined(run8, self.8);
        lemma_join_grows::<T8, I>(run8, self.8);
        lemma_extends(h, run8.0, run9.0);
        let run10 = joined(run9, self.9);
        lemma_join_grows::<T9, J>(run9, self.9);
        lemma_extends(h, run9.0, run10.0);
        let run11 = joined(run10, self.10);
        lemma_join_grows::<T10, K>(run10, self.10);
        lemma_extends(h, run10.0, run11.0);
        let run12 = joined(run11, self.11);
        lemma_join_grows::<T11, L>(run11, self.11);
        lemma_extends(h, run11.0, run12.0);
        lemma_pack_grows(run12);
        lemma_extends(h, run12.0, packed(run12).0);
    }

    proof fn lossless(self, h: Store, later: Store) {
        let run0 = started(h);
        let run1 = joined(run0, self.0);
        let run2 = joined(run1, self.1);
        let run3 = joined(run2, self.2);
        let run4 = joined(run3, self.3);
        let run5 = joined(run4, self.4);
        let run6 = joined(run5, self.5);
        let run7 = joined(run6, self.6);
        let run8 = joined(run7, self.7);
        let run9 = joined(run8, self.8);
        let run10 = joined(run9, self.9);
        let run11 = joined(run10, self.10);
        let run12 = joined(run11, self.11);
        lemma_pack_lossless(run12, later);
        lemma_join_lossless::<T11, L>(run11, self.11, later);
        lemma_join_lossless::<T10, K>(run10, self.10, later);
        lemma_join_lossless::<T9, J>(run9, self.9, later);
        lemma_join_lossless::<T8, I>(run8, self.8, later);
        lemma_join_lossless::<T7, H>(run7, self.7, later);
        lemma_join_lossless::<T6, G>(run6, self.6, later);
        lemma_join_lossless::<T5, F>(run5, self.5, later);
        lemma_join_lossless::<T4, E>(run4, self.4, later);
        lemma_join_lossless::<T3, D>(run3, self.3, later);
        lemma_join_lossless::<T2, C>(run2, self.2, later);
        lemma_join_lossless::<T1, B>(run1, self.1, later);
        lemma_join_lossless::<T0, A>(run0, self.0, later);
    }
}

impl<
    T0: ByRef,
    T1: ByRef,
    T2: ByRef,
    T3: ByRef,
    T4: ByRef,
    T5: ByRef,
    T6: ByRef,
    T7: ByRef,
    T8: ByRef,
    T9: ByRef,
    T10: ByRef,
    T11: ByRef,
> ByRef for (T0, T1, T2, T3, T4, T5, T6, T7, T8, T9, T10, T11) where
    for <'b>&'b T0: Lossless<T0>,
    for <'b>&'b T1: Lossless<T1>,
    for <'b>&'b T2: Lossless<T2>,
    for <'b>&'b T3: Lossless<T3>,
    for <'b>&'b T4: Lossless<T4>,
    for <'b>&'b T5: Lossless<T5>,
    for <'b>&'b T6: Lossless<T6>,
    for <'b>&'b T7: Lossless<T7>,
    for <'b>&'b T8: Lossless<T8>,
    for <'b>&'b T9: Lossless<T9>,
    for <'b>&'b T10: Lossless<T10>,
    for <'b>&'b T11: Lossless<T11>,
 {
    proof fn faithful_by_ref(&self) {
        self.0.faithful_by_ref();
        self.1.faithful_by_ref();
        self.2.faithful_by_ref();
        self.3.faithful_by_ref();
        self.4.faithful_by_ref();
        self.5.faithful_by_ref();
        self.6.faithful_by_ref();
        self.7.faithful_by_ref();
        self.8.faithful_by_ref();
        self.9.faithful_by_ref();
        self.10.faithful_by_ref();
        self.11.faithful_by_ref();
    }
}

impl<
    T0: RoundTrip,
    T1: RoundTrip,
    T2: RoundTrip,
    T3: RoundTrip,
    T4: RoundTrip,
    T5: RoundTrip,
    T6: RoundTrip,
    T7: RoundTrip,
    T8: RoundTrip,
    T9: RoundTrip,
    T10: RoundTrip,
    T11: RoundTrip,
> RoundTrip for (T0, T1, T2, T3, T4, T5, T6, T7, T8, T9, T10, T11) {
    proof fn faithful(self) {
        self.0.faithful();
        self.1.faithful();
        self.2.faithful();
        self.3.faithful();
        self.4.faithful();
        self.5.faithful();
        self.6.faithful();
        self.7.faithful();
        self.8.faithful();
        self.9.faithful();
        self.10.faithful();
        self.11.faithful();
    }
}

impl<
    'a,
    T0: FromVal,
    T1: FromVal,
    T2: FromVal,
    T3: FromVal,
    T4: FromVal,
    T5: FromVal,
    T6: FromVal,
    T7: FromVal,
    T8: FromVal,
    T9: FromVal,
    T10: FromVal,
    T11: FromVal,
> Lossless<
    (T0, T1, T2, T3, T4, T5, T6, T7, T8, T9, T10, T11),
> for &'a (T0, T1, T2, T3, T4, T5, T6, T7, T8, T9, T10, T11) where
    &'a T0: Lossless<T0>,
    &'a T1: Lossless<T1>,
    &'a T2: Lossless<T2>,
    &'a T3: Lossless<T3>,
    &'a T4: Lossless<T4>,
    &'a T5: Lossless<T5>,
    &'a T6: Lossless<T6>,
    &'a T7: Lossless<T7>,
    &'a T8: Lossless<T8>,
    &'a T9: Lossless<T9>,
    &'a T10: Lossless<T10>,
    &'a T11: Lossless<T11>,
 {
    open spec fn sound(self) -> bool {
        &&& (&self.0).sound()
        &&& (&self.1).sound()
        &&& (&self.2).sound()
        &&& (&self.3).sound()
        &&& (&self.4).sound()
        &&& (&self.5).sound()
        &&& (&self.6).sound()
        &&& (&self.7).sound()
        &&& (&self.8).sound()
        &&& (&self.9).sound()
        &&& (&self.10).sound()
        &&& (&self.11).sound()
    }

    open spec fn meant(self) -> (
        T0::Model,
        T1::Model,
        T2::Model,
        T3::Model,
        T4::Model,
        T5::Model,
        T6::Model,
        T7::Model,
        T8::Model,
        T9::Model,
        T10::Model,
        T11::Model,
    ) {
        (
            (&self.0).meant(),
            (&self.1).meant(),
            (&self.2).meant(),
            (&self.3).meant(),
            (&self.4).meant(),
            (&self.5).meant(),
            (&self.6).meant(),
            (&self.7).meant(),
            (&self.8).meant(),
            (&self.9).meant(),
            (&self.10).meant(),
            (&self.11).meant(),
        )
    }

    proof fn grows(self, h: Store) {
        let run0 = started(h);
        let run1 = joined(run0, (&self.0));
        lemma_join_grows::<T0, &'a T0>(run0, (&self.0));
        let run2 = joined(run1, (&self.1));
        lemma_join_grows::<T1, &'a T1>(run1, (&self.1));
        lemma_extends(h, run1.0, run2.0);
        let run3 = joined(run2, (&self.2));
        lemma_join_grows::<T2, &'a T2>(run2, (&self.2));
        lemma_extends(h, run2.0, run3.0);
        let run4 = joined(run3, (&self.3));
        lemma_join_grows::<T3, &'a T3>(run3, (&self.3));
        lemma_extends(h, run3.0, run4.0);
        let run5 = joined(run4, (&self.4));
        lemma_join_grows::<T4, &'a T4>(run4, (&self.4));
        lemma_extends(h, run4.0, run5.0);
        let run6 = joined(run5, (&self.5));
        lemma_join_grows::<T5, &'a T5>(run5, (&self.5));
        lemma_extends(h, run5.0, run6.0);
        let run7 = joined(run6, (&self.6));
        lemma_join_grows::<T6, &'a T6>(run6, (&self.6));
        lemma_extends(h, run6.0, run7.0);
        let run8 = joined(run7, (&self.7));
        lemma_join_grows::<T7, &'a T7>(run7, (&self.7));
        lemma_extends(h, run7.0, run8.0);
        let run9 = joined(run8, (&self.8));
        lemma_join_grows::<T8, &'a T8>(run8, (&self.8));
        lemma_extends(h, run8.0, run9.0);
        let run10 = joined(run9, (&self.9));
        lemma_join_grows::<T9, &'a T9>(run9, (&self.9));
        lemma_extends(h, run9.0, run10.0);
        let run11 = joined(run10, (&self.10));
        lemma_join_grows::<T10, &'a T10>(run10, (&self.10));
        lemma_extends(h, run10.0, run11.0);
        let run12 = joined(run11, (&self.11));
        lemma_join_grows::<T11, &'a T11>(run11, (&self.11));
        lemma_extends(h, run11.0, run12.0);
        lemma_pack_grows(run12);
        lemma_extends(h, run12.0, packed(run12).0);
    }

    proof fn lossless(self, h: Store, later: Store) {
        let run0 = started(h);
        let run1 = joined(run0, (&self.0));
        let run2 = joined(run1, (&self.1));
        let run3 = joined(run2, (&self.2));
        let run4 = joined(run3, (&self.3));
        let run5 = joined(run4, (&self.4));
        let run6 = joined(run5, (&self.5));
        let run7 = joined(run6, (&self.6));
        let run8 = joined(run7, (&self.7));
        let run9 = joined(run8, (&self.8));
        let run10 = joined(run9, (&self.9));
        let run11 = joined(run10, (&self.10));
        let run12 = joined(run11, (&self.11));
        lemma_pack_lossless(run12, later);
        lemma_join_lossless::<T11, &'a T11>(run11, (&self.11), later);
        lemma_join_lossless::<T10, &'a T10>(run10, (&self.10), later);
        lemma_join_lossless::<T9, &'a T9>(run9, (&self.9), later);
        lemma_join_lossless::<T8, &'a T8>(run8, (&self.8), later);
        lemma_join_lossless::<T7, &'a T7>(run7, (&self.7), later);
        lemma_join_lossless::<T6, &'a T6>(run6, (&self.6), later);
        lemma_join_lossless::<T5, &'a T5>(run5, (&self.5), later);
        lemma_join_lossless::<T4, &'a T4>(run4, (&self.4), later);
        lemma_join_lossless::<T3, &'a T3>(run3, (&self.3), later);
        lemma_join_lossless::<T2, &'a T2>(run2, (&self.2), later);
        lemma_join_lossless::<T1, &'a T1>(run1, (&self.1), later);
        lemma_join_lossless::<T0, &'a T0>(run0, (&self.0), later);
    }
}

} // verus!
