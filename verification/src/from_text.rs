//! `FromVal` for text: each is filled from the characters of a string.

use vstd::prelude::*;
use vstd::utf8::encode_utf8;

use crate::error::{Expected, GError, GResult};
use crate::from_val::{FromVal, Modelled};
use crate::store::{Heap, Store};
use crate::text::{bytes_of, has_nul, text_of, CText, OsText, PathText};
use crate::value::Val;

verus! {

/// The characters of the string that a value is.
pub open spec fn text_in(h: Store, v: Val, expected: Expected) -> GResult<Seq<char>> {
    match v {
        Val::Str(root) => h.str(root),
        _ => Err(GError::WrongType { expected, received: v.type_of() }),
    }
}

/// Copies the string that a value is.
fn read_text(heap: &Heap, val: &Val, expected: Expected) -> (r: GResult<String>)
    ensures
        match r {
            Ok(text) => text_in(heap@, *val, expected) == Ok::<Seq<char>, GError>(text@),
            Err(e) => text_in(heap@, *val, expected) == Err::<Seq<char>, GError>(e),
        },
{
    match *val {
        Val::Str(root) => match heap.str(root) {
            Ok(chars) => Ok(text_of(chars)),
            Err(e) => Err(e),
        },
        _ => Err(GError::WrongType { expected, received: val.val_type() }),
    }
}

impl Modelled for String {
    type Model = Seq<char>;

    open spec fn model(self) -> Seq<char> {
        self@
    }
}

impl FromVal for String {
    open spec fn of_val(h: Store, v: Val) -> GResult<Seq<char>> {
        match text_in(h, v, Expected::Str) {
            Err(e) => Err(e),
            Ok(chars) => Ok(chars),
        }
    }

    fn from_val(heap: &Heap, val: &Val) -> (r: GResult<String>) {
        match read_text(heap, val, Expected::Str) {
            Err(e) => Err(e),
            Ok(text) => Ok(text),
        }
    }
}

impl Modelled for CText {
    type Model = Seq<u8>;

    open spec fn model(self) -> Seq<u8> {
        self@
    }
}

impl FromVal for CText {
    open spec fn of_val(h: Store, v: Val) -> GResult<Seq<u8>> {
        match text_in(h, v, Expected::CString) {
            Err(e) => Err(e),
            Ok(chars) => if has_nul(encode_utf8(chars)) {
                Err(GError::InnerNul)
            } else {
                Ok(encode_utf8(chars))
            },
        }
    }

    fn from_val(heap: &Heap, val: &Val) -> (r: GResult<CText>) {
        match read_text(heap, val, Expected::CString) {
            Err(e) => Err(e),
            Ok(text) => CText::new(bytes_of(text.as_str())),
        }
    }
}

impl Modelled for OsText {
    type Model = Option<Seq<char>>;

    open spec fn model(self) -> Option<Seq<char>> {
        self@
    }
}

impl FromVal for OsText {
    open spec fn of_val(h: Store, v: Val) -> GResult<Option<Seq<char>>> {
        match text_in(h, v, Expected::OsString) {
            Err(e) => Err(e),
            Ok(chars) => Ok(Some(chars)),
        }
    }

    fn from_val(heap: &Heap, val: &Val) -> (r: GResult<OsText>) {
        match read_text(heap, val, Expected::OsString) {
            Err(e) => Err(e),
            Ok(text) => Ok(OsText::new(Some(text))),
        }
    }
}

impl Modelled for PathText {
    type Model = Option<Seq<char>>;

    open spec fn model(self) -> Option<Seq<char>> {
        self@
    }
}

impl FromVal for PathText {
    open spec fn of_val(h: Store, v: Val) -> GResult<Option<Seq<char>>> {
        match text_in(h, v, Expected::Path) {
            Err(e) => Err(e),
            Ok(chars) => Ok(Some(chars)),
        }
    }

    fn from_val(heap: &Heap, val: &Val) -> (r: GResult<PathText>) {
        match read_text(heap, val, Expected::Path) {
            Err(e) => Err(e),
            Ok(text) => Ok(PathText::new(OsText::new(Some(text)))),
        }
    }
}

} // verus!
