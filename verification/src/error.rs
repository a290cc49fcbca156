//! The errors that a conversion or a call can end in.

use vstd::prelude::*;

use crate::value::{Sym, ValType};

verus! {

/// The identity of a host type, as the heap knows it.
#[derive(Clone, Copy, Debug, PartialEq, Eq, Structural)]
pub struct TypeKey {
    pub id: usize,
}

/// An error of some host type, type-erased: which type, and a token by which the host finds it.
#[derive(Clone, Copy, Debug, PartialEq, Eq, Structural)]
pub struct ForeignError {
    pub type_key: TypeKey,
    pub source: u64,
}

/// What a conversion asked for.
#[derive(Clone, Copy, Debug, PartialEq, Eq, Structural)]
pub enum Expected {
    I8,
    I16,
    I32,
    I64,
    I128,
    Isize,
    U8,
    U16,
    U32,
    U64,
    U128,
    Usize,
    F32,
    F64,
    Char,
    Bool,
    Sym,
    Root(ValType),
    Raw(ValType),
    RRoot(TypeKey),
    Num,
    Deque,
    Callable,
    Expander,
    Iterable,
    EnvMode,
    Order,
    Vec,
    VecDeque,
    SmallVec,
    Array(usize),
    Tuple,
    Str,
    CString,
    Path,
    OsString,
    HashMap,
    BTreeMap,
    StrRef,
    Ref(TypeKey),
    RefMut(TypeKey),
}

/// An integer of any host type.
#[derive(Clone, Copy, Debug, PartialEq, Eq, Structural)]
pub enum WideInt {
    Signed(i128),
    Unsigned(u128),
}

/// Which text type held bytes that are no text.
#[derive(Clone, Copy, Debug, PartialEq, Eq, Structural)]
pub enum TextType {
    CStr,
    OsStr,
}

/// Which map type was given one key twice.
#[derive(Clone, Copy, Debug, PartialEq, Eq, Structural)]
pub enum MapType {
    HashMap,
    BTreeMap,
}

/// Why a conversion or a call failed.
#[allow(inconsistent_fields)]
#[derive(Clone, Copy, Debug, PartialEq, Eq, Structural)]
pub enum GError {
    /// A macro declined to expand its form. No fault: callers pass it on untouched.
    MacroNoOp,
    /// The value is of another type.
    WrongType { expected: Expected, received: ValType },
    /// The argument refers to another kind of heap object.
    WrongPointee { expected: ValType, received: ValType },
    /// The value is an integer, and too large or too small for the host type.
    IntOutOfRange { expected: Expected, received: i32 },
    /// The host integer is too large or too small to be a value.
    NotAnI32 { value: WideInt },
    /// The symbol names no environment mode.
    UnknownEnvMode { received: Sym },
    /// The array is not as long as the host array.
    ArrayLength { expected: usize, received: usize },
    /// The array is not as long as the host tuple.
    TupleLength { expected: usize, received: usize },
    /// The text holds a nul character, which a C string cannot.
    InnerNul,
    /// The host text is not UTF-8.
    NotUtf8 { received: TextType },
    /// Two keys of the table are one key of the host map.
    DuplicateKey { expected: MapType },
    /// The call has too few arguments.
    TooFewArgs { received: usize, at_least: usize },
    /// The call has too many arguments.
    TooManyArgs { received: usize, at_most: usize },
    /// A host function returned an error of its own.
    Encountered { error: ForeignError },
    /// There is no global of this host type.
    NoSuchGlobal { type_key: TypeKey },
    /// The global of this host type is borrowed, in a way that rules out one more borrow.
    GlobalInUse { type_key: TypeKey },
    /// The host value on the heap is of another host type.
    WrongData { expected: TypeKey, received: TypeKey },
    /// The host value on the heap is borrowed, in a way that rules out one more borrow.
    DataInUse { type_key: TypeKey },
    /// The handle refers to no object of this heap.
    StaleHandle { received: ValType },
    /// An error that host code raised, with a token by which the host finds its text.
    Raised { token: u64 },
}

/// The result of a conversion or a call.
pub type GResult<T> = Result<T, GError>;

} // verus!
