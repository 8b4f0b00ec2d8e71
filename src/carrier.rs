use vstd::prelude::*;

use crate::store::zeroed;

verus! {

/// An owned array of bytes handed across a library boundary.
///
/// Its length always fits in an `i64`, the width the other side reads it at.
/// The bytes are released by `destroy`, or taken back by `destroy_into_vec`.
pub struct ByteBuffer {
    data: Vec<u8>,
}

impl View for ByteBuffer {
    type V = Seq<u8>;

    closed spec fn view(&self) -> Seq<u8> {
        self.data@
    }
}

impl ByteBuffer {
    /// The length bound that every carrier holds.
    pub closed spec fn wf(&self) -> bool {
        self.data@.len() <= i64::MAX
    }

    /// A carrier of `size` zero bytes.
    pub fn new_with_size(size: usize) -> (r: Self)
        requires
            size < i64::MAX,
        ensures
            r@ == Seq::new(size as nat, |i: int| 0u8),
            r.wf(),
    {
        ByteBuffer::from_vec(zeroed(size))
    }

    /// A carrier of `bytes`, which are moved in, not copied.
    pub fn from_vec(bytes: Vec<u8>) -> (r: Self)
        requires
            bytes@.len() <= i64::MAX,
        ensures
            r@ == bytes@,
            r.wf(),
    {
        ByteBuffer { data: bytes }
    }

    /// The bytes, to be read.
    pub fn as_slice(&self) -> (r: &[u8])
        ensures
            r@ == self@,
    {
        self.data.as_slice()
    }

    /// The number of bytes.
    pub fn len(&self) -> (r: usize)
        ensures
            r == self@.len(),
    {
        self.data.len()
    }

    /// The bytes, to be read or written in place.
    pub fn as_mut_slice(&mut self) -> (r: &mut [u8])
        ensures
            r@ == old(self)@,
            final(r)@ == final(self)@,
    {
        self.data.as_mut_slice()
    }

    /// The bytes, taken back as a `Vec` (the older name of `destroy_into_vec`).
    pub fn into_vec(self) -> (r: Vec<u8>)
        ensures
            r@ == self@,
    {
        self.destroy_into_vec()
    }

    /// The bytes, taken back as a `Vec`.
    pub fn destroy_into_vec(self) -> (r: Vec<u8>)
        ensures
            r@ == self@,
    {
        self.data
    }

    /// Releases the bytes.
    pub fn destroy(self) {
        let _bytes = self.destroy_into_vec();
    }
}

impl Default for ByteBuffer {
    /// An empty carrier.
    fn default() -> (r: Self)
        ensures
            r@ == Seq::<u8>::empty(),
            r.wf(),
    {
        ByteBuffer { data: Vec::new() }
    }
}

impl From<Vec<u8>> for ByteBuffer {
    /// A carrier of `bytes`, which are moved in, not copied.
    fn from(bytes: Vec<u8>) -> (r: Self)
        ensures
            r@ == bytes@,
    {
        ByteBuffer { data: bytes }
    }
}

impl vstd::std_specs::convert::FromSpecImpl<Vec<u8>> for ByteBuffer {
    open spec fn obeys_from_spec() -> bool {
        true
    }

    closed spec fn from_spec(bytes: Vec<u8>) -> ByteBuffer {
        ByteBuffer { data: bytes }
    }
}

} // verus!
