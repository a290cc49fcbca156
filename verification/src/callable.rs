//! `Callable` and `CallableOps`: what the engine can call, and what it knows of it.

use vstd::prelude::*;

use crate::callable_ops_private::Sealed;
use crate::error::GResult;
use crate::store::{FnInfo, Heap, Store};
use crate::value::{Class, GFn, Obj, RFn, Raw, Root, Slot, Sym, Val};

verus! {

/// A type-erased callable.
///
/// It implements `CallableOps`, so that it can be called without access to the type behind it.
#[derive(Clone, Copy, Debug, PartialEq, Eq, Structural)]
pub enum Callable {
    RFn(Root<RFn>),
    GFn(Root<GFn>),
    Class(Root<Class>),
}

/// A call that the engine is to perform, with the topmost `arg_count` arguments.
#[derive(Clone, Copy, Debug, PartialEq, Eq, Structural)]
pub struct Call {
    pub callee: Callable,
    pub arg_count: usize,
}

/// What the engine brings back from a call: a slot from a host function, a value from a scripted
/// one, and a new object from a class.
#[derive(Clone, Copy, Debug)]
pub enum Reply {
    RFn(GResult<Slot>),
    GFn(GResult<Val>),
    Class(GResult<Root<Obj>>),
}

impl Callable {
    /// This is what such a callable brings back.
    pub open spec fn answered_by(self, reply: Reply) -> bool {
        match self {
            Callable::RFn(_) => reply is RFn,
            Callable::GFn(_) => reply is GFn,
            Callable::Class(_) => reply is Class,
        }
    }

    /// What the heap knows of it.
    pub open spec fn known(self, h: Store) -> Option<FnInfo> {
        match self {
            Callable::RFn(root) => if root.id < h.rfns.len() {
                Some(h.rfns[root.id as int])
            } else {
                None
            },
            Callable::GFn(root) => if root.id < h.gfns.len() {
                Some(h.gfns[root.id as int])
            } else {
                None
            },
            Callable::Class(root) => if root.id < h.classes.len() {
                Some(h.classes[root.id as int])
            } else {
                None
            },
        }
    }

    /// Looks up what the heap knows of it.
    pub fn look_up(&self, heap: &Heap) -> (r: Option<FnInfo>)
        ensures
            r == self.known(heap@),
    {
        match *self {
            Callable::RFn(root) => heap.rfn(root.id),
            Callable::GFn(root) => heap.gfn(root.id),
            Callable::Class(root) => heap.class(root.id),
        }
    }
}

/// The value that a call ends in.
pub open spec fn result_of(reply: Reply) -> GResult<Val> {
    match reply {
        Reply::RFn(Ok(slot)) => Ok(slot.val()),
        Reply::RFn(Err(e)) => Err(e),
        Reply::GFn(r) => r,
        Reply::Class(Ok(root)) => Ok(Val::Obj(root)),
        Reply::Class(Err(e)) => Err(e),
    }
}

/// The callable abstract type.
///
/// This trait is sealed. It is not possible to implement this trait for your own types.
///
/// A call is performed by the engine: `receive_call` says which, and `finish_call` makes the
/// result of what the engine brings back.
pub trait CallableOps: Sealed {
    /// What is called.
    spec fn callee(&self) -> Callable;

    /// Tells what is called.
    fn to_callable(&self) -> (c: Callable)
        ensures
            c == self.callee(),
    ;

    /// Says which call the engine is to perform.
    fn receive_call(&self, arg_count: usize) -> (call: Call)
        ensures
            call.callee == self.callee(),
            call.arg_count == arg_count,
    {
        Call { callee: self.to_callable(), arg_count }
    }

    /// Makes the result of the call, of what the engine has brought back.
    fn finish_call(&self, reply: Reply) -> (r: GResult<Val>)
        requires
            self.callee().answered_by(reply),
        ensures
            r == result_of(reply),
    {
        match reply {
            Reply::RFn(Ok(slot)) => Ok(slot.root()),
            Reply::RFn(Err(e)) => Err(e),
            Reply::GFn(r) => r,
            Reply::Class(Ok(root)) => Ok(Val::Obj(root)),
            Reply::Class(Err(e)) => Err(e),
        }
    }

    /// Tells whether the heap knows this callable.
    fn is_known(&self, heap: &Heap) -> (b: bool)
        ensures
            b == self.callee().known(heap@) is Some,
    {
        self.to_callable().look_up(heap).is_some()
    }

    /// Returns this function's registered name, if any.
    fn name(&self, heap: &Heap) -> (name: Option<Sym>)
        requires
            self.callee().known(heap@) is Some,
        ensures
            name == self.callee().known(heap@)->Some_0.name,
    {
        self.to_callable().look_up(heap).unwrap().name
    }

    /// Returns this function's minimum and maximum argument count.
    fn arg_limits(&self, heap: &Heap) -> (limits: (usize, Option<usize>))
        requires
            self.callee().known(heap@) is Some,
        ensures
            limits.0 == self.callee().known(heap@)->Some_0.min_args,
            limits.1 == self.callee().known(heap@)->Some_0.max_args,
    {
        let info = self.to_callable().look_up(heap).unwrap();
        (info.min_args, info.max_args)
    }

    /// Returns this function's minimum argument count.
    fn min_args(&self, heap: &Heap) -> (n: usize)
        requires
            self.callee().known(heap@) is Some,
        ensures
            n == self.callee().known(heap@)->Some_0.min_args,
    {
        self.arg_limits(heap).0
    }

    /// Returns this function's maximum argument count, if any.
    fn max_args(&self, heap: &Heap) -> (n: Option<usize>)
        requires
            self.callee().known(heap@) is Some,
        ensures
            n == self.callee().known(heap@)->Some_0.max_args,
    {
        self.arg_limits(heap).1
    }
}

impl CallableOps for Callable {
    open spec fn callee(&self) -> Callable {
        *self
    }

    fn to_callable(&self) -> (c: Callable) {
        *self
    }
}

impl CallableOps for Root<RFn> {
    open spec fn callee(&self) -> Callable {
        Callable::RFn(*self)
    }

    fn to_callable(&self) -> (c: Callable) {
        Callable::RFn(*self)
    }
}

impl CallableOps for Raw<RFn> {
    open spec fn callee(&self) -> Callable {
        Callable::RFn(self.rooted())
    }

    fn to_callable(&self) -> (c: Callable) {
        Callable::RFn(self.root())
    }
}

impl CallableOps for Root<GFn> {
    open spec fn callee(&self) -> Callable {
        Callable::GFn(*self)
    }

    fn to_callable(&self) -> (c: Callable) {
        Callable::GFn(*self)
    }
}

impl CallableOps for Raw<GFn> {
    open spec fn callee(&self) -> Callable {
        Callable::GFn(self.rooted())
    }

    fn to_callable(&self) -> (c: Callable) {
        Callable::GFn(self.root())
    }
}

impl CallableOps for Root<Class> {
    open spec fn callee(&self) -> Callable {
        Callable::Class(*self)
    }

    fn to_callable(&self) -> (c: Callable) {
        Callable::Class(*self)
    }
}

impl CallableOps for Raw<Class> {
    open spec fn callee(&self) -> Callable {
        Callable::Class(self.rooted())
    }

    fn to_callable(&self) -> (c: Callable) {
        Callable::Class(self.root())
    }
}

} // verus!
