//! Strings as the C wrapper receives them: the text and its byte length
//! narrowed to the C `unsigned int`.

use vstd::prelude::*;
use vstd::utf8::encode_utf8;

verus! {

/// The length field that the wrapper receives for a text: its UTF-8 byte
/// length, converted to a 32-bit `unsigned int` the way an `as` cast does.
pub open spec fn qt_len(text: Seq<char>) -> u32 {
    (encode_utf8(text).len() as usize) as u32
}

/// A text shorter than 4 GiB in UTF-8 reaches the wrapper with its true
/// byte length; only longer texts have their length cut to 32 bits.
pub proof fn lemma_short_text_keeps_its_length(text: Seq<char>)
    requires
        encode_utf8(text).len() <= u32::MAX,
    ensures
        qt_len(text) == encode_utf8(text).len(),
{
}

/// A string argument of a wrapper call. Its length field always belongs to
/// its text.
#[derive(Debug, PartialEq, Eq)]
pub struct QtStr {
    text: String,
    len: u32,
}

impl QtStr {
    /// The text whose bytes are handed over.
    pub closed spec fn text(&self) -> Seq<char> {
        self.text@
    }

    /// The length field handed over with them.
    pub closed spec fn length(&self) -> u32 {
        self.len
    }

    /// True when this argument hands over exactly `text`, with the length
    /// field that belongs to it.
    pub open spec fn carries(self, text: Seq<char>) -> bool {
        &&& self.text() == text
        &&& self.length() == qt_len(text)
    }

    /// Builds the argument for `s`: its bytes and `s.len() as c_uint`.
    pub fn new(s: &str) -> (r: QtStr)
        ensures
            r.carries(s@),
            r.length() == s.len() as u32,
    {
        let n: usize = s.len();
        QtStr { text: s.to_owned(), len: n as u32 }
    }

    /// Builds the argument for an owned text.
    pub fn from_string(s: String) -> (r: QtStr)
        ensures
            r.carries(s@),
    {
        let n: usize = s.as_str().len();
        QtStr { text: s, len: n as u32 }
    }

    /// The text whose bytes are handed over.
    pub fn as_str(&self) -> (t: &str)
        ensures
            t@ == self.text(),
    {
        self.text.as_str()
    }

    /// The length field handed over with the text.
    pub fn len(&self) -> (n: u32)
        ensures
            n == self.length(),
    {
        self.len
    }
}

} // verus!
