//! `IntoVal` for text: it becomes a new string of its characters.

use vstd::prelude::*;
use vstd::utf8::{decode_utf8, encode_utf8_decode_utf8, valid_utf8};

use crate::error::{GError, GResult, TextType};
use crate::into_val::{IntoVal, IntoValMut};
use crate::store::{Heap, Store};
use crate::text::{chars_of, CText, OsText, PathText};
use crate::value::Val;

verus! {

/// What converting a text leaves on the heap, and what it returns.
pub open spec fn texted(h: Store, chars: Seq<char>) -> (Store, GResult<Val>) {
    (h.with_str(chars), Ok(Val::Str(h.next_str())))
}

/// The same of bytes that may encode a text.
pub open spec fn c_texted(h: Store, bytes: Seq<u8>) -> (Store, GResult<Val>) {
    if valid_utf8(bytes) {
        texted(h, decode_utf8(bytes))
    } else {
        (h, Err(GError::NotUtf8 { received: TextType::CStr }))
    }
}

/// The same of an operating-system string that may be a text.
pub open spec fn os_texted(h: Store, text: Option<Seq<char>>) -> (Store, GResult<Val>) {
    match text {
        Some(chars) => texted(h, chars),
        None => (h, Err(GError::NotUtf8 { received: TextType::OsStr })),
    }
}

/// Puts a text on the heap.
fn put_text(text: &str, heap: &mut Heap) -> (r: GResult<Val>)
    ensures
        (final(heap)@, r) == texted(old(heap)@, text@),
{
    Ok(Val::Str(heap.alloc_str(chars_of(text))))
}

impl IntoVal for String {
    open spec fn to_val(self, h: Store) -> (Store, GResult<Val>) {
        texted(h, self@)
    }

    fn into_val(self, heap: &mut Heap) -> (r: GResult<Val>) {
        put_text(self.as_str(), heap)
    }
}

impl<'a> IntoVal for &'a String {
    open spec fn to_val(self, h: Store) -> (Store, GResult<Val>) {
        texted(h, self@)
    }

    fn into_val(self, heap: &mut Heap) -> (r: GResult<Val>) {
        put_text(self.as_str(), heap)
    }
}

impl IntoValMut for String {
    open spec fn mut_to_val(self, h: Store) -> (Store, GResult<Val>) {
        self.to_val(h)
    }

    open spec fn leaves(self, h: Store, after: Self) -> bool {
        after == self
    }

    fn into_val_mut(&mut self, heap: &mut Heap) -> (r: GResult<Val>) {
        (&*self).into_val(heap)
    }
}

impl<'a> IntoVal for &'a str {
    open spec fn to_val(self, h: Store) -> (Store, GResult<Val>) {
        texted(h, self@)
    }

    fn into_val(self, heap: &mut Heap) -> (r: GResult<Val>) {
        put_text(self, heap)
    }
}

impl<'a> IntoVal for &'a mut str {
    open spec fn to_val(self, h: Store) -> (Store, GResult<Val>) {
        texted(h, (*self)@)
    }

    fn into_val(self, heap: &mut Heap) -> (r: GResult<Val>)
        ensures
            final(self)@ == old(self)@,
    {
        put_text(&*self, heap)
    }
}

impl<'a> IntoVal for &'a CText {
    open spec fn to_val(self, h: Store) -> (Store, GResult<Val>) {
        c_texted(h, self@)
    }

    fn into_val(self, heap: &mut Heap) -> (r: GResult<Val>) {
        match self.to_str() {
            Ok(text) => {
                proof {
                    encode_utf8_decode_utf8(text@);
                }
                text.into_val(heap)
            },
            Err(e) => Err(e),
        }
    }
}

impl IntoVal for CText {
    open spec fn to_val(self, h: Store) -> (Store, GResult<Val>) {
        c_texted(h, self@)
    }

    fn into_val(self, heap: &mut Heap) -> (r: GResult<Val>) {
        (&self).into_val(heap)
    }
}

impl IntoValMut for CText {
    open spec fn mut_to_val(self, h: Store) -> (Store, GResult<Val>) {
        self.to_val(h)
    }

    open spec fn leaves(self, h: Store, after: Self) -> bool {
        after == self
    }

    fn into_val_mut(&mut self, heap: &mut Heap) -> (r: GResult<Val>) {
        (&*self).into_val(heap)
    }
}

impl<'a> IntoVal for &'a OsText {
    open spec fn to_val(self, h: Store) -> (Store, GResult<Val>) {
        os_texted(h, self@)
    }

    fn into_val(self, heap: &mut Heap) -> (r: GResult<Val>) {
        match self.to_str() {
            Ok(text) => text.into_val(heap),
            Err(e) => Err(e),
        }
    }
}

impl IntoVal for OsText {
    open spec fn to_val(self, h: Store) -> (Store, GResult<Val>) {
        os_texted(h, self@)
    }

    fn into_val(self, heap: &mut Heap) -> (r: GResult<Val>) {
        (&self).into_val(heap)
    }
}

impl IntoValMut for OsText {
    open spec fn mut_to_val(self, h: Store) -> (Store, GResult<Val>) {
        self.to_val(h)
    }

    open spec fn leaves(self, h: Store, after: Self) -> bool {
        after == self
    }

    fn into_val_mut(&mut self, heap: &mut Heap) -> (r: GResult<Val>) {
        (&*self).into_val(heap)
    }
}

impl<'a> IntoVal for &'a PathText {
    open spec fn to_val(self, h: Store) -> (Store, GResult<Val>) {
        os_texted(h, self@)
    }

    fn into_val(self, heap: &mut Heap) -> (r: GResult<Val>) {
        self.as_os_text().into_val(heap)
    }
}

impl IntoVal for PathText {
    open spec fn to_val(self, h: Store) -> (Store, GResult<Val>) {
        os_texted(h, self@)
    }

    fn into_val(self, heap: &mut Heap) -> (r: GResult<Val>) {
        (&self).into_val(heap)
    }
}

impl IntoValMut for PathText {
    open spec fn mut_to_val(self, h: Store) -> (Store, GResult<Val>) {
        self.to_val(h)
    }

    open spec fn leaves(self, h: Store, after: Self) -> bool {
        after == self
    }

    fn into_val_mut(&mut self, heap: &mut Heap) -> (r: GResult<Val>) {
        (&*self).into_val(heap)
    }
}

} // verus!
