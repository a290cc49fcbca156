//! Seals `CallableOps`.

use vstd::prelude::*;

use crate::callable::Callable;
use crate::value::{Class, GFn, RFn, Raw, Root};

verus! {

/// A type of this library that can be called.
pub trait Sealed {

}

impl Sealed for Callable {

}

impl Sealed for Root<RFn> {

}

impl Sealed for Raw<RFn> {

}

impl Sealed for Root<Class> {

}

impl Sealed for Raw<Class> {

}

impl Sealed for Root<GFn> {

}

impl Sealed for Raw<GFn> {

}

} // verus!
