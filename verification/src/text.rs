//! Byte strings: names, descriptions, hashes and links.

use vstd::prelude::*;

verus! {

/// A byte string. Its view is the sequence of its bytes.
#[derive(Debug)]
pub struct Text {
    bytes: Vec<u8>,
}

impl View for Text {
    type V = Seq<u8>;

    closed spec fn view(&self) -> Seq<u8> {
        self.bytes@
    }
}

impl Clone for Text {
    fn clone(&self) -> (r: Text)
        ensures
            r@ == self@,
    {
        Text::from_slice(self.bytes.as_slice())
    }
}

impl Text {
    /// The text that holds the given bytes.
    pub fn new(bytes: Vec<u8>) -> (r: Text)
        ensures
            r@ == bytes@,
    {
        Text { bytes }
    }

    /// The text that holds a copy of the given bytes.
    pub fn from_slice(bytes: &[u8]) -> (r: Text)
        ensures
            r@ == bytes@,
    {
        let mut copy: Vec<u8> = Vec::new();
        let mut i: usize = 0;
        while i < bytes.len()
            invariant
                i <= bytes@.len(),
                copy@ == bytes@.take(i as int),
            decreases bytes@.len() - i,
        {
            copy.push(bytes[i]);
            i = i + 1;
        }
        Text { bytes: copy }
    }

    /// The bytes of the text.
    pub fn as_slice(&self) -> (r: &[u8])
        ensures
            r@ == self@,
    {
        self.bytes.as_slice()
    }

    /// The number of bytes.
    pub fn len(&self) -> (r: usize)
        ensures
            r == self@.len(),
    {
        self.bytes.len()
    }

    /// Whether the text has no bytes.
    pub fn is_empty(&self) -> (r: bool)
        ensures
            r == (self@.len() == 0),
    {
        self.bytes.len() == 0
    }

    /// Whether two texts hold the same bytes.
    pub fn equals(&self, other: &Text) -> (r: bool)
        ensures
            r == (self@ == other@),
    {
        if self.bytes.len() != other.bytes.len() {
            return false;
        }
        let mut i: usize = 0;
        while i < self.bytes.len()
            invariant
                i <= self@.len(),
                self@.len() == other@.len(),
                forall|j: int| 0 <= j < i ==> self@[j] == other@[j],
            decreases self@.len() - i,
        {
            if self.bytes[i] != other.bytes[i] {
                return false;
            }
            i = i + 1;
        }
        assert(self@ =~= other@);
        true
    }
}

/// What an optional text holds.
pub open spec fn text_option(t: Option<Text>) -> Option<Seq<u8>> {
    match t {
        Some(x) => Some(x@),
        None => None,
    }
}

/// A copy of an optional text.
pub fn clone_text_option(t: &Option<Text>) -> (r: Option<Text>)
    ensures
        text_option(r) == text_option(*t),
{
    match t {
        Some(x) => Some(x.clone()),
        None => None,
    }
}

} // verus!
