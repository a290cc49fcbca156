//! What the errors of this library say.

use vstd::prelude::*;
use vstd::string::StringExecFns;

use crate::error::{Expected, GError, MapType, TextType, WideInt};
use crate::limits::ParamError;
use crate::store::{Heap, Store};
use crate::value::ValType;

verus! {

/// The decimal digit for `d`.
pub open spec fn digit(d: nat) -> char {
    (('0' as nat) + d) as char
}

/// `n` in decimal.
pub open spec fn decimal(n: nat) -> Seq<char>
    decreases n,
{
    if n < 10 {
        seq![digit(n)]
    } else {
        decimal(n / 10).push(digit(n % 10))
    }
}

/// `n` in decimal, with a sign where it is negative.
pub open spec fn signed_decimal(n: int) -> Seq<char> {
    if n < 0 {
        "-"@ + decimal((-n) as nat)
    } else {
        decimal(n as nat)
    }
}

/// Adds `n` in decimal.
fn add_decimal(out: &mut String, n: u128)
    ensures
        final(out)@ == old(out)@ + decimal(n as nat),
    decreases n,
{
    if n >= 10 {
        add_decimal(out, n / 10);
    }
    let d: u8 = (n % 10) as u8;
    let c: char = (0x30 + d) as char;
    out.push(c);
    assert(c == digit((n % 10) as nat));
    assert(out@ =~= old(out)@ + decimal(n as nat));
}

/// Adds `n` in decimal, with a sign where it is negative.
fn add_signed(out: &mut String, n: i128)
    ensures
        final(out)@ == old(out)@ + signed_decimal(n as int),
{
    if n < 0 {
        out.append("-");
        let size: u128 = ((-(n + 1)) as u128) + 1;
        add_decimal(out, size);
        assert(out@ =~= old(out)@ + signed_decimal(n as int));
    } else {
        add_decimal(out, n as u128);
    }
}

/// The name of a type.
pub open spec fn type_word_text(t: ValType) -> Seq<char> {
    match t {
        ValType::Nil => "nil"@,
        ValType::Int => "int"@,
        ValType::Char => "char"@,
        ValType::Flo => "flo"@,
        ValType::Bool => "bool"@,
        ValType::Sym => "sym"@,
        ValType::RFn => "rfn"@,
        ValType::Arr => "arr"@,
        ValType::Str => "str"@,
        ValType::Tab => "tab"@,
        ValType::GIter => "giter"@,
        ValType::Obj => "obj"@,
        ValType::Class => "class"@,
        ValType::GFn => "gfn"@,
        ValType::Coro => "coro"@,
        ValType::RData => "rdata"@,
    }
}

/// The name of a type.
pub fn type_word(t: ValType) -> (name: &'static str)
    ensures
        name@ == type_word_text(t),
{
    match t {
        ValType::Nil => "nil",
        ValType::Int => "int",
        ValType::Char => "char",
        ValType::Flo => "flo",
        ValType::Bool => "bool",
        ValType::Sym => "sym",
        ValType::RFn => "rfn",
        ValType::Arr => "arr",
        ValType::Str => "str",
        ValType::Tab => "tab",
        ValType::GIter => "giter",
        ValType::Obj => "obj",
        ValType::Class => "class",
        ValType::GFn => "gfn",
        ValType::Coro => "coro",
        ValType::RData => "rdata",
    }
}

/// The name of a type, with its article.
pub open spec fn a_type_word_text(t: ValType) -> Seq<char> {
    match t {
        ValType::Nil => "nil"@,
        ValType::Int => "an int"@,
        ValType::Char => "a char"@,
        ValType::Flo => "a flo"@,
        ValType::Bool => "a bool"@,
        ValType::Sym => "a sym"@,
        ValType::RFn => "an rfn"@,
        ValType::Arr => "an arr"@,
        ValType::Str => "a str"@,
        ValType::Tab => "a tab"@,
        ValType::GIter => "a giter"@,
        ValType::Obj => "an obj"@,
        ValType::Class => "a class"@,
        ValType::GFn => "a gfn"@,
        ValType::Coro => "a coro"@,
        ValType::RData => "an rdata"@,
    }
}

/// The name of a type, with its article.
pub fn a_type_word(t: ValType) -> (name: &'static str)
    ensures
        name@ == a_type_word_text(t),
{
    match t {
        ValType::Nil => "nil",
        ValType::Int => "an int",
        ValType::Char => "a char",
        ValType::Flo => "a flo",
        ValType::Bool => "a bool",
        ValType::Sym => "a sym",
        ValType::RFn => "an rfn",
        ValType::Arr => "an arr",
        ValType::Str => "a str",
        ValType::Tab => "a tab",
        ValType::GIter => "a giter",
        ValType::Obj => "an obj",
        ValType::Class => "a class",
        ValType::GFn => "a gfn",
        ValType::Coro => "a coro",
        ValType::RData => "an rdata",
    }
}

/// The name of the host type behind a handle.
pub open spec fn pointee_word_text(t: ValType) -> Seq<char> {
    match t {
        ValType::Nil => "Nil"@,
        ValType::Int => "Int"@,
        ValType::Char => "Char"@,
        ValType::Flo => "Flo"@,
        ValType::Bool => "Bool"@,
        ValType::Sym => "Sym"@,
        ValType::RFn => "RFn"@,
        ValType::Arr => "Arr"@,
        ValType::Str => "Str"@,
        ValType::Tab => "Tab"@,
        ValType::GIter => "GIter"@,
        ValType::Obj => "Obj"@,
        ValType::Class => "Class"@,
        ValType::GFn => "GFn"@,
        ValType::Coro => "Coro"@,
        ValType::RData => "RData"@,
    }
}

/// The name of the host type behind a handle.
pub fn pointee_word(t: ValType) -> (name: &'static str)
    ensures
        name@ == pointee_word_text(t),
{
    match t {
        ValType::Nil => "Nil",
        ValType::Int => "Int",
        ValType::Char => "Char",
        ValType::Flo => "Flo",
        ValType::Bool => "Bool",
        ValType::Sym => "Sym",
        ValType::RFn => "RFn",
        ValType::Arr => "Arr",
        ValType::Str => "Str",
        ValType::Tab => "Tab",
        ValType::GIter => "GIter",
        ValType::Obj => "Obj",
        ValType::Class => "Class",
        ValType::GFn => "GFn",
        ValType::Coro => "Coro",
        ValType::RData => "RData",
    }
}

/// The name of a map type.
pub open spec fn map_word_text(t: MapType) -> Seq<char> {
    match t {
        MapType::HashMap => "HashMap"@,
        MapType::BTreeMap => "BTreeMap"@,
    }
}

/// The name of a map type.
pub fn map_word(t: MapType) -> (name: &'static str)
    ensures
        name@ == map_word_text(t),
{
    match t {
        MapType::HashMap => "HashMap",
        MapType::BTreeMap => "BTreeMap",
    }
}

/// The name of a text type.
pub open spec fn text_word_text(t: TextType) -> Seq<char> {
    match t {
        TextType::CStr => "CStr"@,
        TextType::OsStr => "OsStr"@,
    }
}

/// The name of a text type.
pub fn text_word(t: TextType) -> (name: &'static str)
    ensures
        name@ == text_word_text(t),
{
    match t {
        TextType::CStr => "CStr",
        TextType::OsStr => "OsStr",
    }
}

/// What a conversion asked for, in words.
pub open spec fn wanted(expected: Expected, h: Store) -> Seq<char> {
    match expected {
        Expected::I8 => "i8"@,
        Expected::I16 => "i16"@,
        Expected::I32 => "i32"@,
        Expected::I64 => "i64"@,
        Expected::I128 => "i128"@,
        Expected::Isize => "isize"@,
        Expected::U8 => "u8"@,
        Expected::U16 => "u16"@,
        Expected::U32 => "u32"@,
        Expected::U64 => "u64"@,
        Expected::U128 => "u128"@,
        Expected::Usize => "usize"@,
        Expected::F32 => "f32"@,
        Expected::F64 => "f64"@,
        Expected::Char => "char"@,
        Expected::Bool => "bool"@,
        Expected::Sym => "Sym"@,
        Expected::Root(t) => "Root<"@ + pointee_word_text(t) + ">"@,
        Expected::Raw(t) => "Raw<"@ + pointee_word_text(t) + ">"@,
        Expected::RRoot(key) => "RRoot<"@ + h.name_of_type(key) + ">"@,
        Expected::Num => "Num"@,
        Expected::Deque => "Deque"@,
        Expected::Callable => "Callable"@,
        Expected::Expander => "Expander"@,
        Expected::Iterable => "Iterable"@,
        Expected::EnvMode => "an EnvMode"@,
        Expected::Order => "Ordering"@,
        Expected::Vec => "a Vec"@,
        Expected::VecDeque => "a VecDeque"@,
        Expected::SmallVec => "a SmallVec"@,
        Expected::Array(n) => "a [T; "@ + decimal(n as nat) + "]"@,
        Expected::Tuple => "a tuple"@,
        Expected::Str => "a str"@,
        Expected::CString => "a C string"@,
        Expected::Path => "a path"@,
        Expected::OsString => "an OS string"@,
        Expected::HashMap => "a HashMap"@,
        Expected::BTreeMap => "a BTreeMap"@,
        Expected::StrRef => "a &str"@,
        Expected::Ref(key) => "&"@ + h.name_of_type(key),
        Expected::RefMut(key) => "&mut "@ + h.name_of_type(key),
    }
}

/// Adds what a conversion asked for, in words.
fn add_wanted(out: &mut String, expected: Expected, heap: &Heap)
    ensures
        final(out)@ == old(out)@ + wanted(expected, heap@),
{
    match expected {
        Expected::I8 => {
            out.append("i8");
        },
        Expected::I16 => {
            out.append("i16");
        },
        Expected::I32 => {
            out.append("i32");
        },
        Expected::I64 => {
            out.append("i64");
        },
        Expected::I128 => {
            out.append("i128");
        },
        Expected::Isize => {
            out.append("isize");
        },
        Expected::U8 => {
            out.append("u8");
        },
        Expected::U16 => {
            out.append("u16");
        },
        Expected::U32 => {
            out.append("u32");
        },
        Expected::U64 => {
            out.append("u64");
        },
        Expected::U128 => {
            out.append("u128");
        },
        Expected::Usize => {
            out.append("usize");
        },
        Expected::F32 => {
            out.append("f32");
        },
        Expected::F64 => {
            out.append("f64");
        },
        Expected::Char => {
            out.append("char");
        },
        Expected::Bool => {
            out.append("bool");
        },
        Expected::Sym => {
            out.append("Sym");
        },
        Expected::Root(t) => {
            out.append("Root<");
            out.append(pointee_word(t));
            out.append(">");
        },
        Expected::Raw(t) => {
            out.append("Raw<");
            out.append(pointee_word(t));
            out.append(">");
        },
        Expected::RRoot(key) => {
            out.append("RRoot<");
            out.append(heap.name_of_type(key));
            out.append(">");
        },
        Expected::Num => {
            out.append("Num");
        },
        Expected::Deque => {
            out.append("Deque");
        },
        Expected::Callable => {
            out.append("Callable");
        },
        Expected::Expander => {
            out.append("Expander");
        },
        Expected::Iterable => {
            out.append("Iterable");
        },
        Expected::EnvMode => {
            out.append("an EnvMode");
        },
        Expected::Order => {
            out.append("Ordering");
        },
        Expected::Vec => {
            out.append("a Vec");
        },
        Expected::VecDeque => {
            out.append("a VecDeque");
        },
        Expected::SmallVec => {
            out.append("a SmallVec");
        },
        Expected::Array(n) => {
            out.append("a [T; ");
            add_decimal(out, n as u128);
            out.append("]");
        },
        Expected::Tuple => {
            out.append("a tuple");
        },
        Expected::Str => {
            out.append("a str");
        },
        Expected::CString => {
            out.append("a C string");
        },
        Expected::Path => {
            out.append("a path");
        },
        Expected::OsString => {
            out.append("an OS string");
        },
        Expected::HashMap => {
            out.append("a HashMap");
        },
        Expected::BTreeMap => {
            out.append("a BTreeMap");
        },
        Expected::StrRef => {
            out.append("a &str");
        },
        Expected::Ref(key) => {
            out.append("&");
            out.append(heap.name_of_type(key));
        },
        Expected::RefMut(key) => {
            out.append("&mut ");
            out.append(heap.name_of_type(key));
        },
    }
    assert(out@ =~= old(out)@ + wanted(expected, heap@));
}

/// An integer of any host type, in decimal.
pub open spec fn wide_text(value: WideInt) -> Seq<char> {
    match value {
        WideInt::Signed(n) => signed_decimal(n as int),
        WideInt::Unsigned(n) => decimal(n as nat),
    }
}

/// Adds an integer of any host type, in decimal.
fn add_wide(out: &mut String, value: WideInt)
    ensures
        final(out)@ == old(out)@ + wide_text(value),
{
    match value {
        WideInt::Signed(n) => add_signed(out, n),
        WideInt::Unsigned(n) => add_decimal(out, n),
    }
}

impl GError {
    /// What the error says. The errors that do not come from a conversion or from the limits of a
    /// function have their texts elsewhere, or none.
    pub open spec fn text(self, h: Store) -> Option<Seq<char>> {
        match self {
            GError::WrongType { expected, received } => Some(
                "expected "@ + wanted(expected, h) + ", received "@ + a_type_word_text(received),
            ),
            GError::WrongPointee { expected, received } => Some(
                "expected &"@ + pointee_word_text(expected) + ", received "@ + type_word_text(received),
            ),
            GError::IntOutOfRange { expected, received } => Some(
                "expected "@ + wanted(
                    expected,
                    h,
                ) + ", received an int with value "@ + signed_decimal(received as int),
            ),
            GError::NotAnI32 { value } => Some(
                "the result was "@ + wide_text(value) + ", which is outside the range of an i32"@,
            ),
            GError::UnknownEnvMode { received } => Some(
                "expected an EnvMode, received the symbol "@ + h.sym_name(received),
            ),
            GError::ArrayLength { expected, received } => Some(
                "expected a [T; "@ + decimal(
                    expected as nat,
                ) + "], received an array of length "@ + decimal(received as nat),
            ),
            GError::TupleLength { expected, received } => Some(
                "expected a "@ + decimal(
                    expected as nat,
                ) + "-element tuple, received an arr of length "@ + decimal(received as nat),
            ),
            GError::InnerNul => Some("expected a C string, received a str with an inner nul"@),
            GError::NotUtf8 { received } => Some(
                text_word_text(received) + " contained non-UTF-8 data"@,
            ),
            GError::DuplicateKey { expected } => Some(
                "duplicate key in "@ + map_word_text(expected) + " argument"@,
            ),
            GError::TooFewArgs { received, at_least } => Some(
                "too few arguments: received "@ + decimal(
                    received as nat,
                ) + ", expected at least "@ + decimal(at_least as nat),
            ),
            GError::TooManyArgs { received, at_most } => Some(
                "too many arguments: received "@ + decimal(
                    received as nat,
                ) + ", expected no more than "@ + decimal(at_most as nat),
            ),
            GError::Encountered { error } => Some(
                "IntoVal encountered "@ + h.name_of_type(error.type_key),
            ),
            _ => None,
        }
    }

    /// What the error says.
    pub fn message(&self, heap: &Heap) -> (r: Option<String>)
        ensures
            match r {
                Some(message) => self.text(heap@) == Some(message@),
                None => self.text(heap@) is None,
            },
    {
        let mut message = String::new();
        if self.add_text(&mut message, heap) {
            Some(message)
        } else {
            None
        }
    }

    /// Adds what the error says, if it is one with a text.
    fn add_text(&self, out: &mut String, heap: &Heap) -> (said: bool)
        requires
            old(out)@ == Seq::<char>::empty(),
        ensures
            match self.text(heap@) {
                Some(text) => said && final(out)@ == text,
                None => !said,
            },
    {
        match *self {
            GError::WrongType { expected, received } => {
                out.append("expected ");
                add_wanted(out, expected, heap);
                out.append(", received ");
                out.append(a_type_word(received));
                assert(out@ =~= self.text(heap@)->Some_0);
                true
            },
            GError::WrongPointee { expected, received } => {
                out.append("expected &");
                out.append(pointee_word(expected));
                out.append(", received ");
                out.append(type_word(received));
                assert(out@ =~= self.text(heap@)->Some_0);
                true
            },
            GError::IntOutOfRange { expected, received } => {
                out.append("expected ");
                add_wanted(out, expected, heap);
                out.append(", received an int with value ");
                add_signed(out, received as i128);
                assert(out@ =~= self.text(heap@)->Some_0);
                true
            },
            GError::NotAnI32 { value } => {
                out.append("the result was ");
                add_wide(out, value);
                out.append(", which is outside the range of an i32");
                assert(out@ =~= self.text(heap@)->Some_0);
                true
            },
            GError::UnknownEnvMode { received } => {
                out.append("expected an EnvMode, received the symbol ");
                out.append(heap.sym_name(received));
                assert(out@ =~= self.text(heap@)->Some_0);
                true
            },
            GError::ArrayLength { expected, received } => {
                out.append("expected a [T; ");
                add_decimal(out, expected as u128);
                out.append("], received an array of length ");
                add_decimal(out, received as u128);
                assert(out@ =~= self.text(heap@)->Some_0);
                true
            },
            GError::TupleLength { expected, received } => {
                out.append("expected a ");
                add_decimal(out, expected as u128);
                out.append("-element tuple, received an arr of length ");
                add_decimal(out, received as u128);
                assert(out@ =~= self.text(heap@)->Some_0);
                true
            },
            GError::InnerNul => {
                out.append("expected a C string, received a str with an inner nul");
                assert(out@ =~= self.text(heap@)->Some_0);
                true
            },
            GError::NotUtf8 { received } => {
                out.append(text_word(received));
                out.append(" contained non-UTF-8 data");
                assert(out@ =~= self.text(heap@)->Some_0);
                true
            },
            GError::DuplicateKey { expected } => {
                out.append("duplicate key in ");
                out.append(map_word(expected));
                out.append(" argument");
                assert(out@ =~= self.text(heap@)->Some_0);
                true
            },
            GError::TooFewArgs { received, at_least } => {
                out.append("too few arguments: received ");
                add_decimal(out, received as u128);
                out.append(", expected at least ");
                add_decimal(out, at_least as u128);
                assert(out@ =~= self.text(heap@)->Some_0);
                true
            },
            GError::TooManyArgs { received, at_most } => {
                out.append("too many arguments: received ");
                add_decimal(out, received as u128);
                out.append(", expected no more than ");
                add_decimal(out, at_most as u128);
                assert(out@ =~= self.text(heap@)->Some_0);
                true
            },
            GError::Encountered { error } => {
                out.append("IntoVal encountered ");
                out.append(heap.name_of_type(error.type_key));
                assert(out@ =~= self.text(heap@)->Some_0);
                true
            },
            _ => false,
        }
    }
}

impl ParamError {
    /// What is wrong with the parameters, in words.
    pub open spec fn text(self) -> Seq<char> {
        match self {
            ParamError::NormalAfterRest => "Rest<T> followed by a normal argument"@,
            ParamError::OptionAfterRest => "Rest<T> followed by an Option<T> argument"@,
        }
    }

    /// What is wrong with the parameters, in words.
    pub fn message(&self) -> (message: &'static str)
        ensures
            message@ == self.text(),
    {
        match *self {
            ParamError::NormalAfterRest => "Rest<T> followed by a normal argument",
            ParamError::OptionAfterRest => "Rest<T> followed by an Option<T> argument",
        }
    }
}

} // verus!
