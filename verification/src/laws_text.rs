//! What holds of the texts of errors.

use vstd::prelude::*;

use crate::error::{Expected, ForeignError, GError, MapType, TextType, TypeKey, WideInt};
use crate::limits::ParamError;
use crate::message::{
    a_type_word_text, decimal, map_word_text, pointee_word_text, signed_decimal, text_word_text,
    type_word_text, wanted, wide_text,
};
use crate::store::Store;
use crate::value::{Sym, ValType};

verus! {

/// The number that a text of decimal digits stands for.
pub open spec fn number_in(text: Seq<char>) -> int
    decreases text.len(),
{
    if text.len() == 0 {
        0
    } else {
        number_in(text.drop_last()) * 10 + (text.last() as int - '0' as int)
    }
}

/// A number is told in decimal digits, from the highest to the lowest, without a zero in front;
/// read back, they stand for the same number.
pub proof fn law_decimal(n: nat)
    ensures
        number_in(decimal(n)) == n,
        decimal(n).last() as int == '0' as int + (n % 10) as int,
        n < 10 ==> decimal(n).len() == 1,
        n >= 10 ==> decimal(n).drop_last() == decimal(n / 10),
        decimal(n).len() > 0,
        n > 0 ==> decimal(n)[0] != '0',
        forall|i: int| 0 <= i < decimal(n).len() ==> '0' <= #[trigger] decimal(n)[i] <= '9',
    decreases n,
{
    let last = crate::message::digit(n % 10);
    assert(last as int == '0' as int + (n % 10) as int);
    if n < 10 {
        assert(n % 10 == n);
        assert(decimal(n) =~= seq![last]);
        assert(seq![last].drop_last() =~= Seq::<char>::empty());
        assert(number_in(seq![last]) == number_in(Seq::<char>::empty()) * 10 + (last as int
            - '0' as int));
    } else {
        law_decimal(n / 10);
        let higher = decimal(n / 10);
        assert(decimal(n) =~= higher.push(last));
        assert(decimal(n).drop_last() =~= higher);
        assert(decimal(n)[0] == higher[0]);
    }
}

/// A negative number is told as its size after a sign, and any other as itself.
pub proof fn law_signed_decimal(n: int)
    ensures
        n >= 0 ==> signed_decimal(n) == decimal(n as nat),
        n < 0 ==> signed_decimal(n) == seq!['-'] + decimal((-n) as nat),
{
    reveal_strlit("-");
    assert("-"@ =~= seq!['-']);
}

/// An integer of any width is told as the number that it is.
pub proof fn law_wide_decimal(signed: i128, unsigned: u128)
    ensures
        wide_text(WideInt::Signed(signed)) == signed_decimal(signed as int),
        wide_text(WideInt::Unsigned(unsigned)) == signed_decimal(unsigned as int),
{
}

/// Every type has a name of its own.
pub proof fn law_type_words()
    ensures
        type_word_text(ValType::Nil) == "nil"@,
        type_word_text(ValType::Int) == "int"@,
        type_word_text(ValType::Char) == "char"@,
        type_word_text(ValType::Flo) == "flo"@,
        type_word_text(ValType::Bool) == "bool"@,
        type_word_text(ValType::Sym) == "sym"@,
        type_word_text(ValType::RFn) == "rfn"@,
        type_word_text(ValType::Arr) == "arr"@,
        type_word_text(ValType::Str) == "str"@,
        type_word_text(ValType::Tab) == "tab"@,
        type_word_text(ValType::GIter) == "giter"@,
        type_word_text(ValType::Obj) == "obj"@,
        type_word_text(ValType::Class) == "class"@,
        type_word_text(ValType::GFn) == "gfn"@,
        type_word_text(ValType::Coro) == "coro"@,
        type_word_text(ValType::RData) == "rdata"@,
{
}

/// With an article, a type is told by the same name, but for `nil`, which has none.
pub proof fn law_type_words_with_article(t: ValType)
    ensures
        t is Nil ==> a_type_word_text(t) == type_word_text(t),
        t is Int || t is RFn || t is Arr || t is Obj || t is RData ==> a_type_word_text(t) == "an "@
            + type_word_text(t),
        !(t is Nil) && !(t is Int) && !(t is RFn) && !(t is Arr) && !(t is Obj) && !(t is RData)
            ==> a_type_word_text(t) == "a "@ + type_word_text(t),
{
    reveal_strlit("a ");
    reveal_strlit("an ");
    reveal_strlit("nil");
    reveal_strlit("int");
    reveal_strlit("an int");
    assert("an int"@ =~= "an "@ + "int"@);
    reveal_strlit("char");
    reveal_strlit("a char");
    assert("a char"@ =~= "a "@ + "char"@);
    reveal_strlit("flo");
    reveal_strlit("a flo");
    assert("a flo"@ =~= "a "@ + "flo"@);
    reveal_strlit("bool");
    reveal_strlit("a bool");
    assert("a bool"@ =~= "a "@ + "bool"@);
    reveal_strlit("sym");
    reveal_strlit("a sym");
    assert("a sym"@ =~= "a "@ + "sym"@);
    reveal_strlit("rfn");
    reveal_strlit("an rfn");
    assert("an rfn"@ =~= "an "@ + "rfn"@);
    reveal_strlit("arr");
    reveal_strlit("an arr");
    assert("an arr"@ =~= "an "@ + "arr"@);
    reveal_strlit("str");
    reveal_strlit("a str");
    assert("a str"@ =~= "a "@ + "str"@);
    reveal_strlit("tab");
    reveal_strlit("a tab");
    assert("a tab"@ =~= "a "@ + "tab"@);
    reveal_strlit("giter");
    reveal_strlit("a giter");
    assert("a giter"@ =~= "a "@ + "giter"@);
    reveal_strlit("obj");
    reveal_strlit("an obj");
    assert("an obj"@ =~= "an "@ + "obj"@);
    reveal_strlit("class");
    reveal_strlit("a class");
    assert("a class"@ =~= "a "@ + "class"@);
    reveal_strlit("gfn");
    reveal_strlit("a gfn");
    assert("a gfn"@ =~= "a "@ + "gfn"@);
    reveal_strlit("coro");
    reveal_strlit("a coro");
    assert("a coro"@ =~= "a "@ + "coro"@);
    reveal_strlit("rdata");
    reveal_strlit("an rdata");
    assert("an rdata"@ =~= "an "@ + "rdata"@);
}

/// The host types behind handles have names of their own.
pub proof fn law_pointee_words()
    ensures
        pointee_word_text(ValType::Nil) == "Nil"@,
        pointee_word_text(ValType::Int) == "Int"@,
        pointee_word_text(ValType::Char) == "Char"@,
        pointee_word_text(ValType::Flo) == "Flo"@,
        pointee_word_text(ValType::Bool) == "Bool"@,
        pointee_word_text(ValType::Sym) == "Sym"@,
        pointee_word_text(ValType::RFn) == "RFn"@,
        pointee_word_text(ValType::Arr) == "Arr"@,
        pointee_word_text(ValType::Str) == "Str"@,
        pointee_word_text(ValType::Tab) == "Tab"@,
        pointee_word_text(ValType::GIter) == "GIter"@,
        pointee_word_text(ValType::Obj) == "Obj"@,
        pointee_word_text(ValType::Class) == "Class"@,
        pointee_word_text(ValType::GFn) == "GFn"@,
        pointee_word_text(ValType::Coro) == "Coro"@,
        pointee_word_text(ValType::RData) == "RData"@,
{
}

/// The map types and the text types have names of their own.
pub proof fn law_other_words()
    ensures
        map_word_text(MapType::HashMap) == "HashMap"@,
        map_word_text(MapType::BTreeMap) == "BTreeMap"@,
        text_word_text(TextType::CStr) == "CStr"@,
        text_word_text(TextType::OsStr) == "OsStr"@,
{
}

/// What a conversion asked for is told by the name of the host type, with an article where it is
/// one of many of its sort.
pub proof fn law_wanted_words(h: Store, t: ValType, key: TypeKey, n: usize)
    ensures
        wanted(Expected::I8, h) == "i8"@,
        wanted(Expected::I16, h) == "i16"@,
        wanted(Expected::I32, h) == "i32"@,
        wanted(Expected::I64, h) == "i64"@,
        wanted(Expected::I128, h) == "i128"@,
        wanted(Expected::Isize, h) == "isize"@,
        wanted(Expected::U8, h) == "u8"@,
        wanted(Expected::U16, h) == "u16"@,
        wanted(Expected::U32, h) == "u32"@,
        wanted(Expected::U64, h) == "u64"@,
        wanted(Expected::U128, h) == "u128"@,
        wanted(Expected::Usize, h) == "usize"@,
        wanted(Expected::F32, h) == "f32"@,
        wanted(Expected::F64, h) == "f64"@,
        wanted(Expected::Char, h) == "char"@,
        wanted(Expected::Bool, h) == "bool"@,
        wanted(Expected::Sym, h) == "Sym"@,
        wanted(Expected::Num, h) == "Num"@,
        wanted(Expected::Deque, h) == "Deque"@,
        wanted(Expected::Callable, h) == "Callable"@,
        wanted(Expected::Expander, h) == "Expander"@,
        wanted(Expected::Iterable, h) == "Iterable"@,
        wanted(Expected::EnvMode, h) == "an EnvMode"@,
        wanted(Expected::Order, h) == "Ordering"@,
        wanted(Expected::Vec, h) == "a Vec"@,
        wanted(Expected::VecDeque, h) == "a VecDeque"@,
        wanted(Expected::SmallVec, h) == "a SmallVec"@,
        wanted(Expected::Tuple, h) == "a tuple"@,
        wanted(Expected::Str, h) == "a str"@,
        wanted(Expected::CString, h) == "a C string"@,
        wanted(Expected::Path, h) == "a path"@,
        wanted(Expected::OsString, h) == "an OS string"@,
        wanted(Expected::HashMap, h) == "a HashMap"@,
        wanted(Expected::BTreeMap, h) == "a BTreeMap"@,
        wanted(Expected::StrRef, h) == "a &str"@,
        wanted(Expected::Root(t), h) == "Root<"@ + pointee_word_text(t) + ">"@,
        wanted(Expected::Raw(t), h) == "Raw<"@ + pointee_word_text(t) + ">"@,
        wanted(Expected::RRoot(key), h) == "RRoot<"@ + h.name_of_type(key) + ">"@,
        wanted(Expected::Array(n), h) == "a [T; "@ + decimal(n as nat) + "]"@,
        wanted(Expected::Ref(key), h) == "&"@ + h.name_of_type(key),
        wanted(Expected::RefMut(key), h) == "&mut "@ + h.name_of_type(key),
{
}

/// A value of the wrong type is answered with what was expected, and then what was received.
pub proof fn law_wrong_type_text(h: Store, expected: Expected, received: ValType, t: ValType)
    ensures
        (GError::WrongType { expected, received }).text(h) == Some(
            "expected "@ + wanted(expected, h) + ", received "@ + a_type_word_text(received),
        ),
        (GError::WrongPointee { expected: t, received }).text(h) == Some(
            "expected &"@ + pointee_word_text(t) + ", received "@ + type_word_text(received),
        ),
{
}

/// An integer out of range is answered with the range that was expected or left, and the number.
pub proof fn law_out_of_range_text(h: Store, expected: Expected, received: i32, value: WideInt)
    ensures
        (GError::IntOutOfRange { expected, received }).text(h) == Some(
            "expected "@ + wanted(expected, h) + ", received an int with value "@ + signed_decimal(
                received as int,
            ),
        ),
        (GError::NotAnI32 { value }).text(h) == Some(
            "the result was "@ + wide_text(value) + ", which is outside the range of an i32"@,
        ),
{
}

/// An array of the wrong length is answered with the length that was expected, and then its own.
pub proof fn law_length_texts(h: Store, expected: usize, received: usize)
    ensures
        (GError::ArrayLength { expected, received }).text(h) == Some(
            "expected a [T; "@ + decimal(expected as nat) + "], received an array of length "@
                + decimal(received as nat),
        ),
        (GError::TupleLength { expected, received }).text(h) == Some(
            "expected a "@ + decimal(expected as nat)
                + "-element tuple, received an arr of length "@ + decimal(received as nat),
        ),
{
}

/// A call with the wrong number of arguments is answered with how many there were, and then how
/// many there could have been.
pub proof fn law_argument_count_texts(h: Store, received: usize, limit: usize)
    ensures
        (GError::TooFewArgs { received, at_least: limit }).text(h) == Some(
            "too few arguments: received "@ + decimal(received as nat) + ", expected at least "@
                + decimal(limit as nat),
        ),
        (GError::TooManyArgs { received, at_most: limit }).text(h) == Some(
            "too many arguments: received "@ + decimal(received as nat)
                + ", expected no more than "@ + decimal(limit as nat),
        ),
{
}

/// The other errors of conversions say what was wrong with the value. The errors that come from
/// elsewhere have no text here.
pub proof fn law_other_texts(
    h: Store,
    sym: Sym,
    text: TextType,
    map: MapType,
    error: ForeignError,
    key: TypeKey,
    other: TypeKey,
    t: ValType,
    token: u64,
)
    ensures
        (GError::UnknownEnvMode { received: sym }).text(h) == Some(
            "expected an EnvMode, received the symbol "@ + h.sym_name(sym),
        ),
        GError::InnerNul.text(h) == Some(
            "expected a C string, received a str with an inner nul"@,
        ),
        (GError::NotUtf8 { received: text }).text(h) == Some(
            text_word_text(text) + " contained non-UTF-8 data"@,
        ),
        (GError::DuplicateKey { expected: map }).text(h) == Some(
            "duplicate key in "@ + map_word_text(map) + " argument"@,
        ),
        (GError::Encountered { error }).text(h) == Some(
            "IntoVal encountered "@ + h.name_of_type(error.type_key),
        ),
        GError::MacroNoOp.text(h) is None,
        (GError::NoSuchGlobal { type_key: key }).text(h) is None,
        (GError::GlobalInUse { type_key: key }).text(h) is None,
        (GError::WrongData { expected: key, received: other }).text(h) is None,
        (GError::DataInUse { type_key: key }).text(h) is None,
        (GError::StaleHandle { received: t }).text(h) is None,
        (GError::Raised { token }).text(h) is None,
{
}

/// What is wrong with a list of parameters is told by what follows the `Rest`.
pub proof fn law_parameter_texts()
    ensures
        ParamError::NormalAfterRest.text() == "Rest<T> followed by a normal argument"@,
        ParamError::OptionAfterRest.text() == "Rest<T> followed by an Option<T> argument"@,
{
}

} // verus!
