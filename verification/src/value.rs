//! The values of the scripting language, and the handles by which they refer to the heap.

use std::marker::PhantomData;

use vstd::prelude::*;

verus! {

/// An interned symbol.
#[derive(Clone, Copy, Debug, PartialEq, Eq, Structural)]
pub struct Sym {
    pub id: u32,
}

/// The symbol `<`.
pub const LT_SYM: u32 = 0;

/// The symbol `==`.
pub const NUM_EQ_SYM: u32 = 1;

/// The symbol `>`.
pub const GT_SYM: u32 = 2;

/// The symbol `fresh`.
pub const FRESH_SYM: u32 = 3;

/// The symbol `copied`.
pub const COPIED_SYM: u32 = 4;

/// The symbol `infinite`.
pub const INFINITE_SYM: u32 = 5;

/// The symbol `unknown`.
pub const UNKNOWN_SYM: u32 = 6;

/// A single-precision floating-point number, as its IEEE 754 bit pattern.
#[derive(Clone, Copy, Debug, PartialEq, Eq, Structural)]
pub struct Flo {
    pub bits: u32,
}

/// A double-ended array of slots.
#[derive(Clone, Copy, Debug, PartialEq, Eq, Structural)]
pub struct Arr;

/// A mutable text string.
#[derive(Clone, Copy, Debug, PartialEq, Eq, Structural)]
pub struct Str;

/// A table from keys to values.
#[derive(Clone, Copy, Debug, PartialEq, Eq, Structural)]
pub struct Tab;

/// An iterator.
#[derive(Clone, Copy, Debug, PartialEq, Eq, Structural)]
pub struct GIter;

/// An object, the instance of a class.
#[derive(Clone, Copy, Debug, PartialEq, Eq, Structural)]
pub struct Obj;

/// A class.
#[derive(Clone, Copy, Debug, PartialEq, Eq, Structural)]
pub struct Class;

/// A function written in the scripting language.
#[derive(Clone, Copy, Debug, PartialEq, Eq, Structural)]
pub struct GFn;

/// A coroutine.
#[derive(Clone, Copy, Debug, PartialEq, Eq, Structural)]
pub struct Coro;

/// A host value that lives on the heap.
#[derive(Clone, Copy, Debug, PartialEq, Eq, Structural)]
pub struct RData;

/// A host function.
#[derive(Clone, Copy, Debug, PartialEq, Eq, Structural)]
pub struct RFn;

/// A counted handle to an object of kind `T` on the heap.
#[derive(Debug, PartialEq, Eq, Structural)]
pub struct Root<T> {
    pub id: usize,
    pub kind: T,
}

impl<T: Copy> Clone for Root<T> {
    fn clone(&self) -> (r: Self)
        ensures
            r == *self,
    {
        *self
    }
}

impl<T: Copy> Copy for Root<T> {

}

/// An uncounted handle to an object of kind `T` on the heap: what heap objects themselves hold.
#[derive(Debug, PartialEq, Eq, Structural)]
pub struct Raw<T> {
    pub id: usize,
    pub kind: T,
}

impl<T: Copy> Clone for Raw<T> {
    fn clone(&self) -> (r: Self)
        ensures
            r == *self,
    {
        *self
    }
}

impl<T: Copy> Copy for Raw<T> {

}

impl<T: Copy> Root<T> {
    /// The uncounted handle to the same object.
    pub open spec fn raw(self) -> Raw<T> {
        Raw { id: self.id, kind: self.kind }
    }

    /// Trades it for the uncounted handle to the same object.
    pub fn into_raw(self) -> (r: Raw<T>)
        ensures
            r == self.raw(),
    {
        Raw { id: self.id, kind: self.kind }
    }

    /// Makes the uncounted handle to the same object.
    pub fn to_raw(&self) -> (r: Raw<T>)
        ensures
            r == self.raw(),
    {
        Raw { id: self.id, kind: self.kind }
    }
}

impl<T: Copy> Raw<T> {
    /// The counted handle to the same object.
    pub open spec fn rooted(self) -> Root<T> {
        Root { id: self.id, kind: self.kind }
    }

    /// Trades it for the counted handle to the same object.
    pub fn into_root(self) -> (r: Root<T>)
        ensures
            r == self.rooted(),
    {
        Root { id: self.id, kind: self.kind }
    }

    /// Makes the counted handle to the same object.
    pub fn root(&self) -> (r: Root<T>)
        ensures
            r == self.rooted(),
    {
        Root { id: self.id, kind: self.kind }
    }
}

/// A value, as host code holds it.
#[derive(Clone, Copy, Debug, PartialEq, Eq, Structural)]
pub enum Val {
    Nil,
    Int(i32),
    Char(char),
    Flo(Flo),
    Bool(bool),
    Sym(Sym),
    RFn(Root<RFn>),
    Arr(Root<Arr>),
    Str(Root<Str>),
    Tab(Root<Tab>),
    GIter(Root<GIter>),
    Obj(Root<Obj>),
    Class(Root<Class>),
    GFn(Root<GFn>),
    Coro(Root<Coro>),
    RData(Root<RData>),
}

/// A value, as the heap and the argument registers hold it.
#[derive(Clone, Copy, Debug, PartialEq, Eq, Structural)]
pub enum Slot {
    Nil,
    Int(i32),
    Char(char),
    Flo(Flo),
    Bool(bool),
    Sym(Sym),
    RFn(Raw<RFn>),
    Arr(Raw<Arr>),
    Str(Raw<Str>),
    Tab(Raw<Tab>),
    GIter(Raw<GIter>),
    Obj(Raw<Obj>),
    Class(Raw<Class>),
    GFn(Raw<GFn>),
    Coro(Raw<Coro>),
    RData(Raw<RData>),
}

/// The types that a value can have.
#[derive(Clone, Copy, Debug, PartialEq, Eq, Structural)]
pub enum ValType {
    Nil,
    Int,
    Char,
    Flo,
    Bool,
    Sym,
    RFn,
    Arr,
    Str,
    Tab,
    GIter,
    Obj,
    Class,
    GFn,
    Coro,
    RData,
}

impl Val {
    /// The slot that holds this value.
    pub open spec fn slot(self) -> Slot {
        match self {
            Val::Nil => Slot::Nil,
            Val::Int(i) => Slot::Int(i),
            Val::Char(c) => Slot::Char(c),
            Val::Flo(f) => Slot::Flo(f),
            Val::Bool(b) => Slot::Bool(b),
            Val::Sym(s) => Slot::Sym(s),
            Val::RFn(r) => Slot::RFn(r.raw()),
            Val::Arr(r) => Slot::Arr(r.raw()),
            Val::Str(r) => Slot::Str(r.raw()),
            Val::Tab(r) => Slot::Tab(r.raw()),
            Val::GIter(r) => Slot::GIter(r.raw()),
            Val::Obj(r) => Slot::Obj(r.raw()),
            Val::Class(r) => Slot::Class(r.raw()),
            Val::GFn(r) => Slot::GFn(r.raw()),
            Val::Coro(r) => Slot::Coro(r.raw()),
            Val::RData(r) => Slot::RData(r.raw()),
        }
    }

    /// The type of this value.
    pub open spec fn type_of(self) -> ValType {
        match self {
            Val::Nil => ValType::Nil,
            Val::Int(_) => ValType::Int,
            Val::Char(_) => ValType::Char,
            Val::Flo(_) => ValType::Flo,
            Val::Bool(_) => ValType::Bool,
            Val::Sym(_) => ValType::Sym,
            Val::RFn(_) => ValType::RFn,
            Val::Arr(_) => ValType::Arr,
            Val::Str(_) => ValType::Str,
            Val::Tab(_) => ValType::Tab,
            Val::GIter(_) => ValType::GIter,
            Val::Obj(_) => ValType::Obj,
            Val::Class(_) => ValType::Class,
            Val::GFn(_) => ValType::GFn,
            Val::Coro(_) => ValType::Coro,
            Val::RData(_) => ValType::RData,
        }
    }

    /// Tells the type of this value.
    pub fn val_type(&self) -> (t: ValType)
        ensures
            t == self.type_of(),
    {
        match *self {
            Val::Nil => ValType::Nil,
            Val::Int(_) => ValType::Int,
            Val::Char(_) => ValType::Char,
            Val::Flo(_) => ValType::Flo,
            Val::Bool(_) => ValType::Bool,
            Val::Sym(_) => ValType::Sym,
            Val::RFn(_) => ValType::RFn,
            Val::Arr(_) => ValType::Arr,
            Val::Str(_) => ValType::Str,
            Val::Tab(_) => ValType::Tab,
            Val::GIter(_) => ValType::GIter,
            Val::Obj(_) => ValType::Obj,
            Val::Class(_) => ValType::Class,
            Val::GFn(_) => ValType::GFn,
            Val::Coro(_) => ValType::Coro,
            Val::RData(_) => ValType::RData,
        }
    }
}

impl Slot {
    /// The value that this slot holds.
    pub open spec fn val(self) -> Val {
        match self {
            Slot::Nil => Val::Nil,
            Slot::Int(i) => Val::Int(i),
            Slot::Char(c) => Val::Char(c),
            Slot::Flo(f) => Val::Flo(f),
            Slot::Bool(b) => Val::Bool(b),
            Slot::Sym(s) => Val::Sym(s),
            Slot::RFn(r) => Val::RFn(r.rooted()),
            Slot::Arr(r) => Val::Arr(r.rooted()),
            Slot::Str(r) => Val::Str(r.rooted()),
            Slot::Tab(r) => Val::Tab(r.rooted()),
            Slot::GIter(r) => Val::GIter(r.rooted()),
            Slot::Obj(r) => Val::Obj(r.rooted()),
            Slot::Class(r) => Val::Class(r.rooted()),
            Slot::GFn(r) => Val::GFn(r.rooted()),
            Slot::Coro(r) => Val::Coro(r.rooted()),
            Slot::RData(r) => Val::RData(r.rooted()),
        }
    }

    /// The type of this value.
    pub open spec fn type_of(self) -> ValType {
        match self {
            Slot::Nil => ValType::Nil,
            Slot::Int(_) => ValType::Int,
            Slot::Char(_) => ValType::Char,
            Slot::Flo(_) => ValType::Flo,
            Slot::Bool(_) => ValType::Bool,
            Slot::Sym(_) => ValType::Sym,
            Slot::RFn(_) => ValType::RFn,
            Slot::Arr(_) => ValType::Arr,
            Slot::Str(_) => ValType::Str,
            Slot::Tab(_) => ValType::Tab,
            Slot::GIter(_) => ValType::GIter,
            Slot::Obj(_) => ValType::Obj,
            Slot::Class(_) => ValType::Class,
            Slot::GFn(_) => ValType::GFn,
            Slot::Coro(_) => ValType::Coro,
            Slot::RData(_) => ValType::RData,
        }
    }

    /// Tells the type of this value.
    pub fn val_type(&self) -> (t: ValType)
        ensures
            t == self.type_of(),
    {
        match *self {
            Slot::Nil => ValType::Nil,
            Slot::Int(_) => ValType::Int,
            Slot::Char(_) => ValType::Char,
            Slot::Flo(_) => ValType::Flo,
            Slot::Bool(_) => ValType::Bool,
            Slot::Sym(_) => ValType::Sym,
            Slot::RFn(_) => ValType::RFn,
            Slot::Arr(_) => ValType::Arr,
            Slot::Str(_) => ValType::Str,
            Slot::Tab(_) => ValType::Tab,
            Slot::GIter(_) => ValType::GIter,
            Slot::Obj(_) => ValType::Obj,
            Slot::Class(_) => ValType::Class,
            Slot::GFn(_) => ValType::GFn,
            Slot::Coro(_) => ValType::Coro,
            Slot::RData(_) => ValType::RData,
        }
    }

    /// Makes the slot that holds `val`.
    pub fn from_val(val: &Val) -> (s: Slot)
        ensures
            s == val.slot(),
    {
        match *val {
            Val::Nil => Slot::Nil,
            Val::Int(i) => Slot::Int(i),
            Val::Char(c) => Slot::Char(c),
            Val::Flo(f) => Slot::Flo(f),
            Val::Bool(b) => Slot::Bool(b),
            Val::Sym(s) => Slot::Sym(s),
            Val::RFn(r) => Slot::RFn(r.to_raw()),
            Val::Arr(r) => Slot::Arr(r.to_raw()),
            Val::Str(r) => Slot::Str(r.to_raw()),
            Val::Tab(r) => Slot::Tab(r.to_raw()),
            Val::GIter(r) => Slot::GIter(r.to_raw()),
            Val::Obj(r) => Slot::Obj(r.to_raw()),
            Val::Class(r) => Slot::Class(r.to_raw()),
            Val::GFn(r) => Slot::GFn(r.to_raw()),
            Val::Coro(r) => Slot::Coro(r.to_raw()),
            Val::RData(r) => Slot::RData(r.to_raw()),
        }
    }

    /// Makes the value that this slot holds.
    pub fn root(&self) -> (v: Val)
        ensures
            v == self.val(),
    {
        match *self {
            Slot::Nil => Val::Nil,
            Slot::Int(i) => Val::Int(i),
            Slot::Char(c) => Val::Char(c),
            Slot::Flo(f) => Val::Flo(f),
            Slot::Bool(b) => Val::Bool(b),
            Slot::Sym(s) => Val::Sym(s),
            Slot::RFn(r) => Val::RFn(r.root()),
            Slot::Arr(r) => Val::Arr(r.root()),
            Slot::Str(r) => Val::Str(r.root()),
            Slot::Tab(r) => Val::Tab(r.root()),
            Slot::GIter(r) => Val::GIter(r.root()),
            Slot::Obj(r) => Val::Obj(r.root()),
            Slot::Class(r) => Val::Class(r.root()),
            Slot::GFn(r) => Val::GFn(r.root()),
            Slot::Coro(r) => Val::Coro(r.root()),
            Slot::RData(r) => Val::RData(r.root()),
        }
    }
}

/// A kind of heap object, with the variants of `Val` and `Slot` that refer to one.
pub trait Pointee: Copy + 'static {
    /// The type that a handle of this kind has as a value.
    spec fn type_here() -> ValType;

    /// The value that is this handle.
    spec fn val_of(root: Root<Self>) -> Val;

    /// The handle that a value is, if it is one of this kind.
    spec fn root_in(v: Val) -> Option<Root<Self>>;

    /// Makes the value that is this handle.
    fn to_val(root: Root<Self>) -> (v: Val)
        ensures
            v == Self::val_of(root),
    ;

    /// Makes the slot that holds this handle.
    fn to_slot(raw: Raw<Self>) -> (s: Slot)
        ensures
            s == Self::val_of(raw.rooted()).slot(),
    ;

    /// Finds the handle that a value is, if it is one of this kind.
    fn find(val: &Val) -> (r: Option<Root<Self>>)
        ensures
            r == Self::root_in(*val),
    ;

    /// Finds the handle that a slot holds, if it is one of this kind.
    fn find_raw(slot: &Slot) -> (r: Option<Raw<Self>>)
        ensures
            r == (match Self::root_in(slot.val()) {
                Some(root) => Some(root.raw()),
                None => None,
            }),
    ;

    /// Tells the type that a handle of this kind has as a value.
    fn here() -> (t: ValType)
        ensures
            t == Self::type_here(),
    ;

    /// A value is the handle `root` exactly where `root` is the handle that it is.
    proof fn val_of_root_in(root: Root<Self>, v: Val)
        ensures
            Self::root_in(v) == Some(root) <==> v == Self::val_of(root),
            Self::root_in(v) is Some <==> v.type_of() == Self::type_here(),
    ;
}

impl Pointee for Arr {
    open spec fn type_here() -> ValType {
        ValType::Arr
    }

    open spec fn val_of(root: Root<Arr>) -> Val {
        Val::Arr(root)
    }

    open spec fn root_in(v: Val) -> Option<Root<Arr>> {
        match v {
            Val::Arr(root) => Some(root),
            _ => None,
        }
    }

    fn to_val(root: Root<Arr>) -> (v: Val) {
        Val::Arr(root)
    }

    fn to_slot(raw: Raw<Arr>) -> (s: Slot) {
        Slot::Arr(raw)
    }

    fn find(val: &Val) -> (r: Option<Root<Arr>>) {
        match *val {
            Val::Arr(root) => Some(root),
            _ => None,
        }
    }

    fn find_raw(slot: &Slot) -> (r: Option<Raw<Arr>>) {
        match *slot {
            Slot::Arr(raw) => Some(raw),
            _ => None,
        }
    }

    fn here() -> (t: ValType) {
        ValType::Arr
    }

    proof fn val_of_root_in(root: Root<Arr>, v: Val) {
    }
}

impl Pointee for Str {
    open spec fn type_here() -> ValType {
        ValType::Str
    }

    open spec fn val_of(root: Root<Str>) -> Val {
        Val::Str(root)
    }

    open spec fn root_in(v: Val) -> Option<Root<Str>> {
        match v {
            Val::Str(root) => Some(root),
            _ => None,
        }
    }

    fn to_val(root: Root<Str>) -> (v: Val) {
        Val::Str(root)
    }

    fn to_slot(raw: Raw<Str>) -> (s: Slot) {
        Slot::Str(raw)
    }

    fn find(val: &Val) -> (r: Option<Root<Str>>) {
        match *val {
            Val::Str(root) => Some(root),
            _ => None,
        }
    }

    fn find_raw(slot: &Slot) -> (r: Option<Raw<Str>>) {
        match *slot {
            Slot::Str(raw) => Some(raw),
            _ => None,
        }
    }

    fn here() -> (t: ValType) {
        ValType::Str
    }

    proof fn val_of_root_in(root: Root<Str>, v: Val) {
    }
}

impl Pointee for Tab {
    open spec fn type_here() -> ValType {
        ValType::Tab
    }

    open spec fn val_of(root: Root<Tab>) -> Val {
        Val::Tab(root)
    }

    open spec fn root_in(v: Val) -> Option<Root<Tab>> {
        match v {
            Val::Tab(root) => Some(root),
            _ => None,
        }
    }

    fn to_val(root: Root<Tab>) -> (v: Val) {
        Val::Tab(root)
    }

    fn to_slot(raw: Raw<Tab>) -> (s: Slot) {
        Slot::Tab(raw)
    }

    fn find(val: &Val) -> (r: Option<Root<Tab>>) {
        match *val {
            Val::Tab(root) => Some(root),
            _ => None,
        }
    }

    fn find_raw(slot: &Slot) -> (r: Option<Raw<Tab>>) {
        match *slot {
            Slot::Tab(raw) => Some(raw),
            _ => None,
        }
    }

    fn here() -> (t: ValType) {
        ValType::Tab
    }

    proof fn val_of_root_in(root: Root<Tab>, v: Val) {
    }
}

impl Pointee for GIter {
    open spec fn type_here() -> ValType {
        ValType::GIter
    }

    open spec fn val_of(root: Root<GIter>) -> Val {
        Val::GIter(root)
    }

    open spec fn root_in(v: Val) -> Option<Root<GIter>> {
        match v {
            Val::GIter(root) => Some(root),
            _ => None,
        }
    }

    fn to_val(root: Root<GIter>) -> (v: Val) {
        Val::GIter(root)
    }

    fn to_slot(raw: Raw<GIter>) -> (s: Slot) {
        Slot::GIter(raw)
    }

    fn find(val: &Val) -> (r: Option<Root<GIter>>) {
        match *val {
            Val::GIter(root) => Some(root),
            _ => None,
        }
    }

    fn find_raw(slot: &Slot) -> (r: Option<Raw<GIter>>) {
        match *slot {
            Slot::GIter(raw) => Some(raw),
            _ => None,
        }
    }

    fn here() -> (t: ValType) {
        ValType::GIter
    }

    proof fn val_of_root_in(root: Root<GIter>, v: Val) {
    }
}

impl Pointee for Obj {
    open spec fn type_here() -> ValType {
        ValType::Obj
    }

    open spec fn val_of(root: Root<Obj>) -> Val {
        Val::Obj(root)
    }

    open spec fn root_in(v: Val) -> Option<Root<Obj>> {
        match v {
            Val::Obj(root) => Some(root),
            _ => None,
        }
    }

    fn to_val(root: Root<Obj>) -> (v: Val) {
        Val::Obj(root)
    }

    fn to_slot(raw: Raw<Obj>) -> (s: Slot) {
        Slot::Obj(raw)
    }

    fn find(val: &Val) -> (r: Option<Root<Obj>>) {
        match *val {
            Val::Obj(root) => Some(root),
            _ => None,
        }
    }

    fn find_raw(slot: &Slot) -> (r: Option<Raw<Obj>>) {
        match *slot {
            Slot::Obj(raw) => Some(raw),
            _ => None,
        }
    }

    fn here() -> (t: ValType) {
        ValType::Obj
    }

    proof fn val_of_root_in(root: Root<Obj>, v: Val) {
    }
}

impl Pointee for Class {
    open spec fn type_here() -> ValType {
        ValType::Class
    }

    open spec fn val_of(root: Root<Class>) -> Val {
        Val::Class(root)
    }

    open spec fn root_in(v: Val) -> Option<Root<Class>> {
        match v {
            Val::Class(root) => Some(root),
            _ => None,
        }
    }

    fn to_val(root: Root<Class>) -> (v: Val) {
        Val::Class(root)
    }

    fn to_slot(raw: Raw<Class>) -> (s: Slot) {
        Slot::Class(raw)
    }

    fn find(val: &Val) -> (r: Option<Root<Class>>) {
        match *val {
            Val::Class(root) => Some(root),
            _ => None,
        }
    }

    fn find_raw(slot: &Slot) -> (r: Option<Raw<Class>>) {
        match *slot {
            Slot::Class(raw) => Some(raw),
            _ => None,
        }
    }

    fn here() -> (t: ValType) {
        ValType::Class
    }

    proof fn val_of_root_in(root: Root<Class>, v: Val) {
    }
}

impl Pointee for GFn {
    open spec fn type_here() -> ValType {
        ValType::GFn
    }

    open spec fn val_of(root: Root<GFn>) -> Val {
        Val::GFn(root)
    }

    open spec fn root_in(v: Val) -> Option<Root<GFn>> {
        match v {
            Val::GFn(root) => Some(root),
            _ => None,
        }
    }

    fn to_val(root: Root<GFn>) -> (v: Val) {
        Val::GFn(root)
    }

    fn to_slot(raw: Raw<GFn>) -> (s: Slot) {
        Slot::GFn(raw)
    }

    fn find(val: &Val) -> (r: Option<Root<GFn>>) {
        match *val {
            Val::GFn(root) => Some(root),
            _ => None,
        }
    }

    fn find_raw(slot: &Slot) -> (r: Option<Raw<GFn>>) {
        match *slot {
            Slot::GFn(raw) => Some(raw),
            _ => None,
        }
    }

    fn here() -> (t: ValType) {
        ValType::GFn
    }

    proof fn val_of_root_in(root: Root<GFn>, v: Val) {
    }
}

impl Pointee for Coro {
    open spec fn type_here() -> ValType {
        ValType::Coro
    }

    open spec fn val_of(root: Root<Coro>) -> Val {
        Val::Coro(root)
    }

    open spec fn root_in(v: Val) -> Option<Root<Coro>> {
        match v {
            Val::Coro(root) => Some(root),
            _ => None,
        }
    }

    fn to_val(root: Root<Coro>) -> (v: Val) {
        Val::Coro(root)
    }

    fn to_slot(raw: Raw<Coro>) -> (s: Slot) {
        Slot::Coro(raw)
    }

    fn find(val: &Val) -> (r: Option<Root<Coro>>) {
        match *val {
            Val::Coro(root) => Some(root),
            _ => None,
        }
    }

    fn find_raw(slot: &Slot) -> (r: Option<Raw<Coro>>) {
        match *slot {
            Slot::Coro(raw) => Some(raw),
            _ => None,
        }
    }

    fn here() -> (t: ValType) {
        ValType::Coro
    }

    proof fn val_of_root_in(root: Root<Coro>, v: Val) {
    }
}

impl Pointee for RData {
    open spec fn type_here() -> ValType {
        ValType::RData
    }

    open spec fn val_of(root: Root<RData>) -> Val {
        Val::RData(root)
    }

    open spec fn root_in(v: Val) -> Option<Root<RData>> {
        match v {
            Val::RData(root) => Some(root),
            _ => None,
        }
    }

    fn to_val(root: Root<RData>) -> (v: Val) {
        Val::RData(root)
    }

    fn to_slot(raw: Raw<RData>) -> (s: Slot) {
        Slot::RData(raw)
    }

    fn find(val: &Val) -> (r: Option<Root<RData>>) {
        match *val {
            Val::RData(root) => Some(root),
            _ => None,
        }
    }

    fn find_raw(slot: &Slot) -> (r: Option<Raw<RData>>) {
        match *slot {
            Slot::RData(raw) => Some(raw),
            _ => None,
        }
    }

    fn here() -> (t: ValType) {
        ValType::RData
    }

    proof fn val_of_root_in(root: Root<RData>, v: Val) {
    }
}

impl Pointee for RFn {
    open spec fn type_here() -> ValType {
        ValType::RFn
    }

    open spec fn val_of(root: Root<RFn>) -> Val {
        Val::RFn(root)
    }

    open spec fn root_in(v: Val) -> Option<Root<RFn>> {
        match v {
            Val::RFn(root) => Some(root),
            _ => None,
        }
    }

    fn to_val(root: Root<RFn>) -> (v: Val) {
        Val::RFn(root)
    }

    fn to_slot(raw: Raw<RFn>) -> (s: Slot) {
        Slot::RFn(raw)
    }

    fn find(val: &Val) -> (r: Option<Root<RFn>>) {
        match *val {
            Val::RFn(root) => Some(root),
            _ => None,
        }
    }

    fn find_raw(slot: &Slot) -> (r: Option<Raw<RFn>>) {
        match *slot {
            Slot::RFn(raw) => Some(raw),
            _ => None,
        }
    }

    fn here() -> (t: ValType) {
        ValType::RFn
    }

    proof fn val_of_root_in(root: Root<RFn>, v: Val) {
    }
}

/// An integer or a floating-point number.
#[derive(Clone, Copy, Debug, PartialEq, Eq, Structural)]
pub enum Num {
    Int(i32),
    Flo(Flo),
}

/// A type-erased sequence: an array or a string.
#[derive(Clone, Copy, Debug, PartialEq, Eq, Structural)]
pub enum Deque {
    Arr(Root<Arr>),
    Str(Root<Str>),
}

/// A type-erased macro expander.
#[derive(Clone, Copy, Debug, PartialEq, Eq, Structural)]
pub enum Expander {
    GFn(Root<GFn>),
    RFn(Root<RFn>),
}

/// A type-erased source of items.
#[derive(Clone, Copy, Debug, PartialEq, Eq, Structural)]
pub enum Iterable {
    Arr(Root<Arr>),
    Str(Root<Str>),
    Tab(Root<Tab>),
    GIter(Root<GIter>),
    Coro(Root<Coro>),
}

/// How many items an iterator has left.
#[derive(Clone, Copy, Debug, PartialEq, Eq, Structural)]
pub enum GIterLen {
    Exact(usize),
    Infinite,
    Unknown,
}

/// How a macro-expansion environment starts out.
#[derive(Clone, Copy, Debug, PartialEq, Eq, Structural)]
pub enum EnvMode {
    Fresh,
    Copied,
}

/// How two things compare.
#[derive(Clone, Copy, Debug, PartialEq, Eq, Structural)]
pub enum Order {
    Less,
    Equal,
    Greater,
}

/// A counted handle to a host value on the heap, meant to be of type `T`.
#[derive(Debug)]
#[verifier::reject_recursive_types(T)]
pub struct RRoot<T> {
    root: Root<RData>,
    of: PhantomData<T>,
}

impl<T> RRoot<T> {
    /// The same handle, without the type.
    pub closed spec fn untyped(self) -> Root<RData> {
        self.root
    }

    /// Makes a typed handle of one without a type.
    pub fn new(root: Root<RData>) -> (r: RRoot<T>)
        ensures
            r.untyped() == root,
    {
        RRoot { root, of: PhantomData }
    }

    /// Trades it for the same handle, without the type.
    pub fn into_root(self) -> (r: Root<RData>)
        ensures
            r == self.untyped(),
    {
        self.root
    }

    /// Makes the same handle, without the type.
    pub fn to_root(&self) -> (r: Root<RData>)
        ensures
            r == self.untyped(),
    {
        self.root
    }

    /// Trades it for the uncounted handle, without the type.
    pub fn into_raw(self) -> (r: Raw<RData>)
        ensures
            r == self.untyped().raw(),
    {
        self.root.into_raw()
    }

    /// Makes the uncounted handle, without the type.
    pub fn to_raw(&self) -> (r: Raw<RData>)
        ensures
            r == self.untyped().raw(),
    {
        self.root.to_raw()
    }
}

/// A host value of type `T`, by the token under which the host keeps it.
#[derive(Debug)]
#[verifier::reject_recursive_types(T)]
pub struct HostValue<T> {
    payload: u64,
    of: PhantomData<T>,
}

impl<T> HostValue<T> {
    /// The token under which the host keeps the value.
    pub closed spec fn token(self) -> u64 {
        self.payload
    }

    /// Stands for the value that the host keeps under `payload`.
    pub fn new(payload: u64) -> (v: HostValue<T>)
        ensures
            v.token() == payload,
    {
        HostValue { payload, of: PhantomData }
    }

    /// The token under which the host keeps the value.
    pub fn payload(&self) -> (payload: u64)
        ensures
            payload == self.token(),
    {
        self.payload
    }
}

/// A slot holds exactly one value, and a value has exactly one slot: making the one from the
/// other loses nothing, in either direction.
pub proof fn law_slot_and_val(v: Val, s: Slot)
    ensures
        v.slot().val() == v,
        s.val().slot() == s,
        v.slot().type_of() == v.type_of(),
        s.val().type_of() == s.type_of(),
{
}

} // verus!
