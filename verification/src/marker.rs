//! What the conversions ask of the host types that take part in them.

use std::hash::{BuildHasher, Hash, RandomState};

use vstd::laws_cmp::obeys_cmp;
use vstd::prelude::*;
use vstd::std_specs::hash::{builds_valid_hashers, obeys_key_model};

use crate::error::{ForeignError, GError, TypeKey};

verus! {

/// A type without borrowed parts, which may outlive the call that made it.
pub trait StaticMarker: 'static {

}

impl<T: 'static + ?Sized> StaticMarker for T {

}

/// A host type whose values the engine holds without looking inside: on the heap, or as a global.
pub trait HostType: StaticMarker + Sized {
    /// Which type this is.
    spec fn key() -> TypeKey;

    /// Its one value is a global.
    spec fn is_global() -> bool;

    /// Tells which type this is.
    fn type_key() -> (key: TypeKey)
        ensures
            key == Self::key(),
    ;

    /// Tells whether its one value is a global.
    fn rglobal() -> (b: bool)
        ensures
            b == Self::is_global(),
    ;
}

/// A host type whose one value is a global.
pub trait RGlobal: HostType {
    /// Its one value is a global indeed.
    proof fn lawful_global()
        ensures
            Self::is_global(),
    ;
}

/// A host type whose one value is a global, wherever that is all that matters.
pub trait RGlobalMarker: RGlobal {

}

impl<T: RGlobal> RGlobalMarker for T {

}

/// A host type of which nothing is known but its number, and whose values are on the heap.
#[derive(Clone, Copy, Debug)]
pub struct DataType<const ID: usize>;

impl<const ID: usize> HostType for DataType<ID> {
    open spec fn key() -> TypeKey {
        TypeKey { id: ID }
    }

    open spec fn is_global() -> bool {
        false
    }

    fn type_key() -> (key: TypeKey) {
        TypeKey { id: ID }
    }

    fn rglobal() -> (b: bool) {
        false
    }
}

/// A host type of which nothing is known but its number, and whose one value is a global.
#[derive(Clone, Copy, Debug)]
pub struct GlobalType<const ID: usize>;

impl<const ID: usize> HostType for GlobalType<ID> {
    open spec fn key() -> TypeKey {
        TypeKey { id: ID }
    }

    open spec fn is_global() -> bool {
        true
    }

    fn type_key() -> (key: TypeKey) {
        TypeKey { id: ID }
    }

    fn rglobal() -> (b: bool) {
        true
    }
}

impl<const ID: usize> RGlobal for GlobalType<ID> {
    proof fn lawful_global() {
    }
}

/// An error of some host type, once it is known which.
#[derive(Clone, Copy, Debug, PartialEq, Eq, Structural)]
pub enum Unmasked {
    /// It is one of the engine's own errors.
    Own(GError),
    /// It is an error of any other type.
    Foreign(ForeignError),
}

/// A host type whose values are errors.
pub trait HostError: Sized {
    /// This error, now that it is known of which type it is.
    spec fn unmasked(self) -> Unmasked;

    /// Finds out of which type this error is.
    fn unmask(self) -> (u: Unmasked)
        ensures
            u == self.unmasked(),
    ;
}

/// A host type whose values are errors, wherever that is all that matters.
pub trait ErrorMarker: HostError {

}

impl<T: HostError> ErrorMarker for T {

}

impl HostError for GError {
    open spec fn unmasked(self) -> Unmasked {
        Unmasked::Own(self)
    }

    fn unmask(self) -> (u: Unmasked) {
        Unmasked::Own(self)
    }
}

impl HostError for ForeignError {
    open spec fn unmasked(self) -> Unmasked {
        Unmasked::Foreign(self)
    }

    fn unmask(self) -> (u: Unmasked) {
        Unmasked::Foreign(self)
    }
}

/// A type that can be the key of a hash map: equal keys are one key, and hash alike.
pub trait HashEqMarker: Hash + Eq + Sized {
    /// Equal keys are one key, and hash alike.
    proof fn lawful_key()
        ensures
            obeys_key_model::<Self>(),
    ;
}

/// A hasher factory that a hash map can make for itself: all its hashers agree.
pub trait BuildHasherDefaultMarker: BuildHasher + Default {
    /// All the hashers that it makes agree.
    proof fn lawful_hasher()
        ensures
            builds_valid_hashers::<Self>(),
    ;
}

/// A type that can be the key of an ordered map: its order is total.
pub trait OrdMarker: Ord + Sized {
    /// The order is total.
    proof fn lawful_order()
        ensures
            obeys_cmp::<Self>(),
    ;
}

impl BuildHasherDefaultMarker for RandomState {
    proof fn lawful_hasher() {
    }
}

impl HashEqMarker for i8 {
    proof fn lawful_key() {
    }
}

impl OrdMarker for i8 {
    proof fn lawful_order() {
    }
}

impl HashEqMarker for i16 {
    proof fn lawful_key() {
    }
}

impl OrdMarker for i16 {
    proof fn lawful_order() {
    }
}

impl HashEqMarker for i32 {
    proof fn lawful_key() {
    }
}

impl OrdMarker for i32 {
    proof fn lawful_order() {
    }
}

impl HashEqMarker for i64 {
    proof fn lawful_key() {
    }
}

impl OrdMarker for i64 {
    proof fn lawful_order() {
    }
}

impl HashEqMarker for i128 {
    proof fn lawful_key() {
    }
}

impl OrdMarker for i128 {
    proof fn lawful_order() {
    }
}

impl HashEqMarker for isize {
    proof fn lawful_key() {
    }
}

impl OrdMarker for isize {
    proof fn lawful_order() {
    }
}

impl HashEqMarker for u8 {
    proof fn lawful_key() {
    }
}

impl OrdMarker for u8 {
    proof fn lawful_order() {
    }
}

impl HashEqMarker for u16 {
    proof fn lawful_key() {
    }
}

impl OrdMarker for u16 {
    proof fn lawful_order() {
    }
}

impl HashEqMarker for u32 {
    proof fn lawful_key() {
    }
}

impl OrdMarker for u32 {
    proof fn lawful_order() {
    }
}

impl HashEqMarker for u64 {
    proof fn lawful_key() {
    }
}

impl OrdMarker for u64 {
    proof fn lawful_order() {
    }
}

impl HashEqMarker for u128 {
    proof fn lawful_key() {
    }
}

impl OrdMarker for u128 {
    proof fn lawful_order() {
    }
}

impl HashEqMarker for usize {
    proof fn lawful_key() {
    }
}

impl OrdMarker for usize {
    proof fn lawful_order() {
    }
}

impl HashEqMarker for bool {
    proof fn lawful_key() {
    }
}

impl<A: OrdMarker> OrdMarker for (A,) {
    proof fn lawful_order() {
        A::lawful_order();
    }
}

impl<A: OrdMarker, B: OrdMarker> OrdMarker for (A, B) {
    proof fn lawful_order() {
        A::lawful_order();
        B::lawful_order();
    }
}

impl<A: OrdMarker, B: OrdMarker, C: OrdMarker> OrdMarker for (A, B, C) {
    proof fn lawful_order() {
        A::lawful_order();
        B::lawful_order();
        C::lawful_order();
    }
}

impl<A: OrdMarker, B: OrdMarker, C: OrdMarker, D: OrdMarker> OrdMarker for (A, B, C, D) {
    proof fn lawful_order() {
        A::lawful_order();
        B::lawful_order();
        C::lawful_order();
        D::lawful_order();
    }
}

impl<
    A: OrdMarker,
    B: OrdMarker,
    C: OrdMarker,
    D: OrdMarker,
    E: OrdMarker,
> OrdMarker for (A, B, C, D, E) {
    proof fn lawful_order() {
        A::lawful_order();
        B::lawful_order();
        C::lawful_order();
        D::lawful_order();
        E::lawful_order();
    }
}

impl<
    A: OrdMarker,
    B: OrdMarker,
    C: OrdMarker,
    D: OrdMarker,
    E: OrdMarker,
    F: OrdMarker,
> OrdMarker for (A, B, C, D, E, F) {
    proof fn lawful_order() {
        A::lawful_order();
        B::lawful_order();
        C::lawful_order();
        D::lawful_order();
        E::lawful_order();
        F::lawful_order();
    }
}

impl<
    A: OrdMarker,
    B: OrdMarker,
    C: OrdMarker,
    D: OrdMarker,
    E: OrdMarker,
    F: OrdMarker,
    G: OrdMarker,
> OrdMarker for (A, B, C, D, E, F, G) {
    proof fn lawful_order() {
        A::lawful_order();
        B::lawful_order();
        C::lawful_order();
        D::lawful_order();
        E::lawful_order();
        F::lawful_order();
        G::lawful_order();
    }
}

impl<
    A: OrdMarker,
    B: OrdMarker,
    C: OrdMarker,
    D: OrdMarker,
    E: OrdMarker,
    F: OrdMarker,
    G: OrdMarker,
    H: OrdMarker,
> OrdMarker for (A, B, C, D, E, F, G, H) {
    proof fn lawful_order() {
        A::lawful_order();
        B::lawful_order();
        C::lawful_order();
        D::lawful_order();
        E::lawful_order();
        F::lawful_order();
        G::lawful_order();
        H::lawful_order();
    }
}

impl<
    A: OrdMarker,
    B: OrdMarker,
    C: OrdMarker,
    D: OrdMarker,
    E: OrdMarker,
    F: OrdMarker,
    G: OrdMarker,
    H: OrdMarker,
    I: OrdMarker,
> OrdMarker for (A, B, C, D, E, F, G, H, I) {
    proof fn lawful_order() {
        A::lawful_order();
        B::lawful_order();
        C::lawful_order();
        D::lawful_order();
        E::lawful_order();
        F::lawful_order();
        G::lawful_order();
        H::lawful_order();
        I::lawful_order();
    }
}

impl<
    A: OrdMarker,
    B: OrdMarker,
    C: OrdMarker,
    D: OrdMarker,
    E: OrdMarker,
    F: OrdMarker,
    G: OrdMarker,
    H: OrdMarker,
    I: OrdMarker,
    J: OrdMarker,
> OrdMarker for (A, B, C, D, E, F, G, H, I, J) {
    proof fn lawful_order() {
        A::lawful_order();
        B::lawful_order();
        C::lawful_order();
        D::lawful_order();
        E::lawful_order();
        F::lawful_order();
        G::lawful_order();
        H::lawful_order();
        I::lawful_order();
        J::lawful_order();
    }
}

impl<
    A: OrdMarker,
    B: OrdMarker,
    C: OrdMarker,
    D: OrdMarker,
    E: OrdMarker,
    F: OrdMarker,
    G: OrdMarker,
    H: OrdMarker,
    I: OrdMarker,
    J: OrdMarker,
    K: OrdMarker,
> OrdMarker for (A, B, C, D, E, F, G, H, I, J, K) {
    proof fn lawful_order() {
        A::lawful_order();
        B::lawful_order();
        C::lawful_order();
        D::lawful_order();
        E::lawful_order();
        F::lawful_order();
        G::lawful_order();
        H::lawful_order();
        I::lawful_order();
        J::lawful_order();
        K::lawful_order();
    }
}

impl<
    A: OrdMarker,
    B: OrdMarker,
    C: OrdMarker,
    D: OrdMarker,
    E: OrdMarker,
    F: OrdMarker,
    G: OrdMarker,
    H: OrdMarker,
    I: OrdMarker,
    J: OrdMarker,
    K: OrdMarker,
    L: OrdMarker,
> OrdMarker for (A, B, C, D, E, F, G, H, I, J, K, L) {
    proof fn lawful_order() {
        A::lawful_order();
        B::lawful_order();
        C::lawful_order();
        D::lawful_order();
        E::lawful_order();
        F::lawful_order();
        G::lawful_order();
        H::lawful_order();
        I::lawful_order();
        J::lawful_order();
        K::lawful_order();
        L::lawful_order();
    }
}

} // verus!
