//! Seals `IntoCallArgs`.

use vstd::prelude::*;

use crate::into_val::{IntoVal, IntoValMut};
use crate::rest::Rest;

verus! {

/// A type of this library that can become the arguments of a call.
pub trait Sealed {

}

impl<'a, T> Sealed for &'a [T] where &'a T: IntoVal {

}

impl<'a, T: IntoValMut> Sealed for &'a mut [T] {

}

impl<T, const N: usize> Sealed for [T; N] where for <'b>&'b T: IntoVal {

}

impl<'a, T, const N: usize> Sealed for &'a [T; N] where &'a T: IntoVal {

}

impl<'a, T: IntoValMut, const N: usize> Sealed for &'a mut [T; N] {

}

impl<'a, T: IntoVal> Sealed for Rest<'a, T> {

}

impl<'r, 'a, T> Sealed for &'r Rest<'a, T> where &'r T: IntoVal {

}

impl<'r, 'a, T: IntoValMut> Sealed for &'r mut Rest<'a, T> {

}

impl Sealed for () {

}

impl<'a> Sealed for &'a () {

}

impl<'a> Sealed for &'a mut () {

}

impl<A: IntoVal> Sealed for (A,) {

}

impl<'a, A> Sealed for &'a (A,) where
    &'a A: IntoVal,
 {

}

impl<'a, A: IntoValMut> Sealed for &'a mut (A,) {

}

impl<A: IntoVal, B: IntoVal> Sealed for (A, B) {

}

impl<'a, A, B> Sealed for &'a (A, B) where
    &'a A: IntoVal,
    &'a B: IntoVal,
 {

}

impl<'a, A: IntoValMut, B: IntoValMut> Sealed for &'a mut (A, B) {

}

impl<A: IntoVal, B: IntoVal, C: IntoVal> Sealed for (A, B, C) {

}

impl<'a, A, B, C> Sealed for &'a (A, B, C) where
    &'a A: IntoVal,
    &'a B: IntoVal,
    &'a C: IntoVal,
 {

}

impl<'a, A: IntoValMut, B: IntoValMut, C: IntoValMut> Sealed for &'a mut (A, B, C) {

}

impl<A: IntoVal, B: IntoVal, C: IntoVal, D: IntoVal> Sealed for (A, B, C, D) {

}

impl<'a, A, B, C, D> Sealed for &'a (A, B, C, D) where
    &'a A: IntoVal,
    &'a B: IntoVal,
    &'a C: IntoVal,
    &'a D: IntoVal,
 {

}

impl<
    'a,
    A: IntoValMut,
    B: IntoValMut,
    C: IntoValMut,
    D: IntoValMut,
> Sealed for &'a mut (A, B, C, D) {

}

impl<A: IntoVal, B: IntoVal, C: IntoVal, D: IntoVal, E: IntoVal> Sealed for (A, B, C, D, E) {

}

impl<'a, A, B, C, D, E> Sealed for &'a (A, B, C, D, E) where
    &'a A: IntoVal,
    &'a B: IntoVal,
    &'a C: IntoVal,
    &'a D: IntoVal,
    &'a E: IntoVal,
 {

}

impl<
    'a,
    A: IntoValMut,
    B: IntoValMut,
    C: IntoValMut,
    D: IntoValMut,
    E: IntoValMut,
> Sealed for &'a mut (A, B, C, D, E) {

}

impl<
    A: IntoVal,
    B: IntoVal,
    C: IntoVal,
    D: IntoVal,
    E: IntoVal,
    F: IntoVal,
> Sealed for (A, B, C, D, E, F) {

}

impl<'a, A, B, C, D, E, F> Sealed for &'a (A, B, C, D, E, F) where
    &'a A: IntoVal,
    &'a B: IntoVal,
    &'a C: IntoVal,
    &'a D: IntoVal,
    &'a E: IntoVal,
    &'a F: IntoVal,
 {

}

impl<
    'a,
    A: IntoValMut,
    B: IntoValMut,
    C: IntoValMut,
    D: IntoValMut,
    E: IntoValMut,
    F: IntoValMut,
> Sealed for &'a mut (A, B, C, D, E, F) {

}

impl<
    A: IntoVal,
    B: IntoVal,
    C: IntoVal,
    D: IntoVal,
    E: IntoVal,
    F: IntoVal,
    G: IntoVal,
> Sealed for (A, B, C, D, E, F, G) {

}

impl<'a, A, B, C, D, E, F, G> Sealed for &'a (A, B, C, D, E, F, G) where
    &'a A: IntoVal,
    &'a B: IntoVal,
    &'a C: IntoVal,
    &'a D: IntoVal,
    &'a E: IntoVal,
    &'a F: IntoVal,
    &'a G: IntoVal,
 {

}

impl<
    'a,
    A: IntoValMut,
    B: IntoValMut,
    C: IntoValMut,
    D: IntoValMut,
    E: IntoValMut,
    F: IntoValMut,
    G: IntoValMut,
> Sealed for &'a mut (A, B, C, D, E, F, G) {

}

impl<
    A: IntoVal,
    B: IntoVal,
    C: IntoVal,
    D: IntoVal,
    E: IntoVal,
    F: IntoVal,
    G: IntoVal,
    H: IntoVal,
> Sealed for (A, B, C, D, E, F, G, H) {

}

impl<'a, A, B, C, D, E, F, G, H> Sealed for &'a (A, B, C, D, E, F, G, H) where
    &'a A: IntoVal,
    &'a B: IntoVal,
    &'a C: IntoVal,
    &'a D: IntoVal,
    &'a E: IntoVal,
    &'a F: IntoVal,
    &'a G: IntoVal,
    &'a H: IntoVal,
 {

}

impl<
    'a,
    A: IntoValMut,
    B: IntoValMut,
    C: IntoValMut,
    D: IntoValMut,
    E: IntoValMut,
    F: IntoValMut,
    G: IntoValMut,
    H: IntoValMut,
> Sealed for &'a mut (A, B, C, D, E, F, G, H) {

}

impl<
    A: IntoVal,
    B: IntoVal,
    C: IntoVal,
    D: IntoVal,
    E: IntoVal,
    F: IntoVal,
    G: IntoVal,
    H: IntoVal,
    I: IntoVal,
> Sealed for (A, B, C, D, E, F, G, H, I) {

}

impl<'a, A, B, C, D, E, F, G, H, I> Sealed for &'a (A, B, C, D, E, F, G, H, I) where
    &'a A: IntoVal,
    &'a B: IntoVal,
    &'a C: IntoVal,
    &'a D: IntoVal,
    &'a E: IntoVal,
    &'a F: IntoVal,
    &'a G: IntoVal,
    &'a H: IntoVal,
    &'a I: IntoVal,
 {

}

impl<
    'a,
    A: IntoValMut,
    B: IntoValMut,
    C: IntoValMut,
    D: IntoValMut,
    E: IntoValMut,
    F: IntoValMut,
    G: IntoValMut,
    H: IntoValMut,
    I: IntoValMut,
> Sealed for &'a mut (A, B, C, D, E, F, G, H, I) {

}

impl<
    A: IntoVal,
    B: IntoVal,
    C: IntoVal,
    D: IntoVal,
    E: IntoVal,
    F: IntoVal,
    G: IntoVal,
    H: IntoVal,
    I: IntoVal,
    J: IntoVal,
> Sealed for (A, B, C, D, E, F, G, H, I, J) {

}

impl<'a, A, B, C, D, E, F, G, H, I, J> Sealed for &'a (A, B, C, D, E, F, G, H, I, J) where
    &'a A: IntoVal,
    &'a B: IntoVal,
    &'a C: IntoVal,
    &'a D: IntoVal,
    &'a E: IntoVal,
    &'a F: IntoVal,
    &'a G: IntoVal,
    &'a H: IntoVal,
    &'a I: IntoVal,
    &'a J: IntoVal,
 {

}

impl<
    'a,
    A: IntoValMut,
    B: IntoValMut,
    C: IntoValMut,
    D: IntoValMut,
    E: IntoValMut,
    F: IntoValMut,
    G: IntoValMut,
    H: IntoValMut,
    I: IntoValMut,
    J: IntoValMut,
> Sealed for &'a mut (A, B, C, D, E, F, G, H, I, J) {

}

impl<
    A: IntoVal,
    B: IntoVal,
    C: IntoVal,
    D: IntoVal,
    E: IntoVal,
    F: IntoVal,
    G: IntoVal,
    H: IntoVal,
    I: IntoVal,
    J: IntoVal,
    K: IntoVal,
> Sealed for (A, B, C, D, E, F, G, H, I, J, K) {

}

impl<'a, A, B, C, D, E, F, G, H, I, J, K> Sealed for &'a (A, B, C, D, E, F, G, H, I, J, K) where
    &'a A: IntoVal,
    &'a B: IntoVal,
    &'a C: IntoVal,
    &'a D: IntoVal,
    &'a E: IntoVal,
    &'a F: IntoVal,
    &'a G: IntoVal,
    &'a H: IntoVal,
    &'a I: IntoVal,
    &'a J: IntoVal,
    &'a K: IntoVal,
 {

}

impl<
    'a,
    A: IntoValMut,
    B: IntoValMut,
    C: IntoValMut,
    D: IntoValMut,
    E: IntoValMut,
    F: IntoValMut,
    G: IntoValMut,
    H: IntoValMut,
    I: IntoValMut,
    J: IntoValMut,
    K: IntoValMut,
> Sealed for &'a mut (A, B, C, D, E, F, G, H, I, J, K) {

}

impl<
    A: IntoVal,
    B: IntoVal,
    C: IntoVal,
    D: IntoVal,
    E: IntoVal,
    F: IntoVal,
    G: IntoVal,
    H: IntoVal,
    I: IntoVal,
    J: IntoVal,
    K: IntoVal,
    L: IntoVal,
> Sealed for (A, B, C, D, E, F, G, H, I, J, K, L) {

}

impl<
    'a,
    A,
    B,
    C,
    D,
    E,
    F,
    G,
    H,
    I,
    J,
    K,
    L,
> Sealed for &'a (A, B, C, D, E, F, G, H, I, J, K, L) where
    &'a A: IntoVal,
    &'a B: IntoVal,
    &'a C: IntoVal,
    &'a D: IntoVal,
    &'a E: IntoVal,
    &'a F: IntoVal,
    &'a G: IntoVal,
    &'a H: IntoVal,
    &'a I: IntoVal,
    &'a J: IntoVal,
    &'a K: IntoVal,
    &'a L: IntoVal,
 {

}

impl<
    'a,
    A: IntoValMut,
    B: IntoValMut,
    C: IntoValMut,
    D: IntoValMut,
    E: IntoValMut,
    F: IntoValMut,
    G: IntoValMut,
    H: IntoValMut,
    I: IntoValMut,
    J: IntoValMut,
    K: IntoValMut,
    L: IntoValMut,
> Sealed for &'a mut (A, B, C, D, E, F, G, H, I, J, K, L) {

}

} // verus!
