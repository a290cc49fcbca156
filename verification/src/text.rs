//! Text: the host's several string types, and the characters that a string on the heap holds.

use vstd::prelude::*;
use vstd::string::{StrSliceExecFns, StringSliceAdditionalSpecFns};
use vstd::utf8::valid_utf8;

use crate::error::{GError, GResult, TextType};

verus! {

/// `String::push`: the character joins the others, after the last.
pub assume_specification[ String::push ](text: &mut String, c: char)
    ensures
        final(text)@ == old(text)@.push(c),
;

/// Calls `std::str::from_utf8`: the text whose encoding the bytes are, if they are UTF-8.
#[verifier::external_body]
pub(crate) fn decode(bytes: &[u8]) -> (r: Option<&str>)
    ensures
        r is Some <==> valid_utf8(bytes@),
        r matches Some(text) ==> text.spec_bytes() == bytes@,
{
    std::str::from_utf8(bytes).ok()
}

/// Takes a text apart into its characters.
pub fn chars_of(text: &str) -> (chars: Vec<char>)
    ensures
        chars@ == text@,
{
    let mut chars: Vec<char> = Vec::new();
    for c in it: text.chars()
        invariant
            it.seq() == text@,
            chars@ =~= text@.take(it.index() as int),
    {
        chars.push(c);
    }
    assert(chars@ =~= text@);
    chars
}

/// Puts a text together from its characters.
pub fn text_of(chars: &Vec<char>) -> (text: String)
    ensures
        text@ == chars@,
{
    let mut text = String::new();
    let mut i: usize = 0;
    while i < chars.len()
        invariant
            i <= chars.len(),
            text@ =~= chars@.take(i as int),
        decreases chars.len() - i,
    {
        text.push(chars[i]);
        i = i + 1;
    }
    assert(text@ =~= chars@);
    text
}

/// There is a nul among the bytes.
pub open spec fn has_nul(bytes: Seq<u8>) -> bool {
    exists|i: int| #![trigger bytes[i]] 0 <= i < bytes.len() && bytes[i] == 0
}

/// Finds out whether there is a nul among the bytes.
fn find_nul(bytes: &Vec<u8>) -> (b: bool)
    ensures
        b == has_nul(bytes@),
{
    let mut i: usize = 0;
    while i < bytes.len()
        invariant
            i <= bytes.len(),
            forall|j: int| 0 <= j < i ==> bytes[j] != 0,
        decreases bytes.len() - i,
    {
        if bytes[i] == 0 {
            assert(bytes@[i as int] == 0);
            return true;
        }
        i = i + 1;
    }
    false
}

/// The contents of a C string: bytes of any encoding, none of them a nul.
#[derive(Debug)]
pub struct CText {
    bytes: Vec<u8>,
}

impl View for CText {
    type V = Seq<u8>;

    closed spec fn view(&self) -> Seq<u8> {
        self.bytes@
    }
}

impl CText {
    /// A C string cannot hold a nul.
    #[verifier::type_invariant]
    spec fn nul_free(self) -> bool {
        !has_nul(self.bytes@)
    }

    /// Makes a C string of `bytes`, which fails exactly where one of them is a nul.
    pub fn new(bytes: Vec<u8>) -> (r: GResult<CText>)
        ensures
            match r {
                Ok(text) => !has_nul(bytes@) && text@ == bytes@,
                Err(e) => has_nul(bytes@) && e == GError::InnerNul,
            },
    {
        if find_nul(&bytes) {
            Err(GError::InnerNul)
        } else {
            Ok(CText { bytes })
        }
    }

    /// The bytes, without the nul that ends them.
    pub fn as_bytes(&self) -> (bytes: &[u8])
        ensures
            bytes@ == self@,
            !has_nul(bytes@),
    {
        proof {
            use_type_invariant(self);
        }
        self.bytes.as_slice()
    }

    /// The text that the bytes encode, which fails exactly where they are not UTF-8.
    pub fn to_str(&self) -> (r: GResult<&str>)
        ensures
            match r {
                Ok(text) => valid_utf8(self@) && text.spec_bytes() == self@,
                Err(e) => !valid_utf8(self@) && e == (GError::NotUtf8 { received: TextType::CStr }),
            },
    {
        match decode(self.bytes.as_slice()) {
            Some(text) => Ok(text),
            None => Err(GError::NotUtf8 { received: TextType::CStr }),
        }
    }
}

/// The contents of an operating-system string, as far as they are text.
#[derive(Debug)]
pub struct OsText {
    text: Option<String>,
}

impl View for OsText {
    type V = Option<Seq<char>>;

    closed spec fn view(&self) -> Option<Seq<char>> {
        match self.text {
            Some(text) => Some(text@),
            None => None,
        }
    }
}

impl OsText {
    /// Makes an operating-system string that is `text`, or one that is none.
    pub fn new(text: Option<String>) -> (os: OsText)
        ensures
            os@ == (match text {
                Some(text) => Some(text@),
                None => None,
            }),
    {
        OsText { text }
    }

    /// The text, which fails exactly where there is none.
    pub fn to_str(&self) -> (r: GResult<&str>)
        ensures
            match r {
                Ok(text) => self@ == Some(text@),
                Err(e) => self@ is None && e == (GError::NotUtf8 { received: TextType::OsStr }),
            },
    {
        match &self.text {
            Some(text) => Ok(text.as_str()),
            None => Err(GError::NotUtf8 { received: TextType::OsStr }),
        }
    }
}

/// A path, as the operating-system string that it is.
#[derive(Debug)]
pub struct PathText {
    os: OsText,
}

impl View for PathText {
    type V = Option<Seq<char>>;

    closed spec fn view(&self) -> Option<Seq<char>> {
        self.os@
    }
}

impl PathText {
    /// Makes a path of an operating-system string.
    pub fn new(os: OsText) -> (path: PathText)
        ensures
            path@ == os@,
    {
        PathText { os }
    }

    /// The operating-system string that the path is.
    pub fn as_os_text(&self) -> (os: &OsText)
        ensures
            os@ == self@,
    {
        &self.os
    }
}

/// Takes a text apart into the bytes of its encoding.
pub(crate) fn bytes_of(text: &str) -> (bytes: Vec<u8>)
    ensures
        bytes@ == text.spec_bytes(),
{
    text.as_bytes_vec()
}

} // verus!
