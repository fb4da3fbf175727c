//! Byte buffers exchanged across the boundary of the protocol.
//!
//! Two kinds are kept apart by type: [`Binary`] owns its storage, and
//! [`BinaryRef`] borrows storage that the caller keeps alive.

use vstd::prelude::*;

verus! {

/// A byte buffer that owns its storage.
pub struct Binary {
    bytes: Vec<u8>,
}

impl View for Binary {
    type V = Seq<u8>;

    closed spec fn view(&self) -> Seq<u8> {
        self.bytes@
    }
}

impl Binary {
    /// An empty buffer.
    pub fn new() -> (b: Binary)
        ensures
            b@ == Seq::<u8>::empty(),
    {
        Binary { bytes: Vec::new() }
    }

    /// Takes ownership of `bytes` without copying.
    pub fn from_vec(bytes: Vec<u8>) -> (b: Binary)
        ensures
            b@ == bytes@,
    {
        Binary { bytes }
    }

    /// The bytes held, or `None` when the buffer holds no data.
    pub fn data(&self) -> (d: Option<&[u8]>)
        ensures
            d is Some <==> self@.len() > 0,
            d is Some ==> d->0@ == self@,
    {
        if self.bytes.len() == 0 {
            None
        } else {
            Some(self.bytes.as_slice())
        }
    }

    /// The bytes held, as a slice that is empty when there is no data.
    pub fn as_slice(&self) -> (s: &[u8])
        ensures
            s@ == self@,
    {
        self.bytes.as_slice()
    }

    /// The number of bytes held.
    pub fn len(&self) -> (n: usize)
        ensures
            n == self@.len(),
    {
        self.bytes.len()
    }

    /// A borrowed view of the same bytes.
    pub fn borrow(&self) -> (r: BinaryRef<'_>)
        ensures
            r@ == self@,
    {
        BinaryRef { bytes: self.bytes.as_slice() }
    }

    /// A fresh buffer with the same bytes.
    pub fn duplicate(&self) -> (b: Binary)
        ensures
            b@ == self@,
    {
        Binary { bytes: copy_bytes(self.bytes.as_slice()) }
    }

    /// Gives up the buffer and yields its storage.
    pub fn into_vec(self) -> (bytes: Vec<u8>)
        ensures
            bytes@ == self@,
    {
        self.bytes
    }

    /// Releases the buffer and its storage. The buffer is consumed, so it
    /// cannot be released a second time.
    pub fn destroy(self) {
    }
}

/// A byte buffer over storage that the caller owns. The lifetime ties the
/// view to that storage, which therefore outlives every use of the view.
#[derive(Clone, Copy)]
pub struct BinaryRef<'a> {
    bytes: &'a [u8],
}

impl<'a> View for BinaryRef<'a> {
    type V = Seq<u8>;

    closed spec fn view(&self) -> Seq<u8> {
        self.bytes@
    }
}

impl<'a> BinaryRef<'a> {
    /// A view over `data`. Nothing is copied.
    pub fn new_from(data: &'a [u8]) -> (r: BinaryRef<'a>)
        ensures
            r@ == data@,
    {
        BinaryRef { bytes: data }
    }

    /// The bytes viewed, or `None` when the view is empty.
    pub fn data(&self) -> (d: Option<&'a [u8]>)
        ensures
            d is Some <==> self@.len() > 0,
            d is Some ==> d->0@ == self@,
    {
        if self.bytes.len() == 0 {
            None
        } else {
            Some(self.bytes)
        }
    }

    /// The bytes viewed, as a slice that is empty when there is no data.
    pub fn as_slice(&self) -> (s: &'a [u8])
        ensures
            s@ == self@,
    {
        self.bytes
    }

    /// The number of bytes viewed.
    pub fn len(&self) -> (n: usize)
        ensures
            n == self@.len(),
    {
        self.bytes.len()
    }

    /// An owning buffer with a copy of the bytes viewed.
    pub fn to_binary(&self) -> (b: Binary)
        ensures
            b@ == self@,
    {
        Binary::from_vec(copy_bytes(self.bytes))
    }

    /// Releases the view. The storage behind it stays with its owner.
    pub fn destroy(self) {
    }
}

/// Appends a copy of `data` to `v`.
pub fn append_bytes(v: &mut Vec<u8>, data: &[u8])
    ensures
        final(v)@ == old(v)@ + data@,
{
    let mut i: usize = 0;
    while i < data.len()
        invariant
            i <= data.len(),
            v@ == old(v)@ + data@.subrange(0, i as int),
        decreases data.len() - i,
    {
        v.push(data[i]);
        i = i + 1;
        assert(v@ =~= old(v)@ + data@.subrange(0, i as int));
    }
    assert(data@.subrange(0, data.len() as int) =~= data@);
}

/// Copies a slice into a new vector.
pub fn copy_bytes(data: &[u8]) -> (v: Vec<u8>)
    ensures
        v@ == data@,
{
    let mut v: Vec<u8> = Vec::new();
    append_bytes(&mut v, data);
    assert(v@ =~= data@);
    v
}

} // verus!
