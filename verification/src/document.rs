//! Structured documents in their wire format.
//!
//! The protocol never looks inside a document. It only tells byte strings
//! that have the frame of a document from those that do not, and leaves that
//! test to the `bson` crate.

use crate::binary::copy_bytes;
use crate::binary::Binary;
use vstd::prelude::*;

verus! {

/// The shortest byte string that can be a document: a length prefix of four
/// bytes and the terminating zero.
pub const MIN_DOCUMENT_LEN: usize = 5;

/// The longest byte string that can be a document: the length prefix is a
/// signed 32-bit number.
pub const MAX_DOCUMENT_LEN: usize = 0x7fff_ffff;

/// The number that the first four bytes encode, least significant byte first.
pub open spec fn declared_len(bytes: Seq<u8>) -> int
    recommends
        bytes.len() >= 4,
{
    bytes[0] as int + 0x100 * (bytes[1] as int) + 0x1_0000 * (bytes[2] as int) + 0x100_0000 * (
    bytes[3] as int)
}

/// True when `bytes` has the frame of a document: it is at least five bytes
/// and at most `MAX_DOCUMENT_LEN` bytes long, its first four bytes state its
/// own length, and its last byte is zero.
pub open spec fn framed(bytes: Seq<u8>) -> bool {
    &&& MIN_DOCUMENT_LEN <= bytes.len() <= MAX_DOCUMENT_LEN
    &&& declared_len(bytes) == bytes.len()
    &&& bytes[bytes.len() - 1] == 0
}

/// Calls `bson::RawDocument::from_bytes` and tells whether it accepted the
/// bytes. This is trusted, not proved. That function accepts a byte string
/// exactly when it is at least five bytes long, its length, cast to a signed
/// 32-bit number, equals the number in its first four bytes, and its last
/// byte is zero; it looks at nothing else. For a length that fits in such a
/// number, which is all that is admitted here, that is `framed`.
#[verifier::external_body]
fn has_frame(bytes: &[u8]) -> (ok: bool)
    requires
        bytes@.len() <= MAX_DOCUMENT_LEN,
    ensures
        ok == framed(bytes@),
{
    bson::RawDocument::from_bytes(bytes).is_ok()
}

/// A byte string that was found to have the frame of a document. What it
/// holds inside the frame is for the engine to judge.
#[derive(Debug)]
pub struct Document {
    bytes: Vec<u8>,
}

impl View for Document {
    type V = Seq<u8>;

    closed spec fn view(&self) -> Seq<u8> {
        self.bytes@
    }
}

impl Document {
    /// Every document has the frame of one.
    #[verifier::type_invariant]
    spec fn has_frame_always(&self) -> bool {
        framed(self.bytes@)
    }

    /// Copies `bytes` into a document when they have the frame of one, and
    /// returns `None` for every other byte string, the empty one included.
    pub fn parse(bytes: &[u8]) -> (doc: Option<Document>)
        ensures
            doc is Some <==> framed(bytes@),
            doc is Some ==> doc->0@ == bytes@,
    {
        if bytes.len() <= MAX_DOCUMENT_LEN && has_frame(bytes) {
            Some(Document { bytes: copy_bytes(bytes) })
        } else {
            None
        }
    }

    /// The bytes of the document. They have the frame of one.
    pub fn as_slice(&self) -> (s: &[u8])
        ensures
            s@ == self@,
            framed(s@),
    {
        proof {
            use_type_invariant(self);
        }
        self.bytes.as_slice()
    }

    /// The length of the document in bytes.
    pub fn len(&self) -> (n: usize)
        ensures
            n == self@.len(),
    {
        self.bytes.len()
    }

    /// A fresh document with the same bytes.
    pub fn duplicate(&self) -> (doc: Document)
        ensures
            doc@ == self@,
    {
        proof {
            use_type_invariant(self);
        }
        Document { bytes: copy_bytes(self.bytes.as_slice()) }
    }

    /// The bytes of the document as an owned buffer.
    pub fn into_binary(self) -> (b: Binary)
        ensures
            b@ == self@,
    {
        Binary::from_vec(self.bytes)
    }
}

} // verus!
