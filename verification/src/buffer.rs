//! The byte workspace that in-place authenticated encryption drives.

use vstd::prelude::*;

verus! {

/// A growable byte workspace for in-place authenticated encryption.
///
/// The encrypt operation overwrites the contents with ciphertext and appends
/// the authentication tag at the end; decryption strips the tag off again by
/// truncating. No cryptographic logic lives here.
pub struct AesVecBuffer {
    pub(crate) data: Vec<u8>,
}

impl View for AesVecBuffer {
    type V = Seq<u8>;

    closed spec fn view(&self) -> Seq<u8> {
        self.data@
    }
}

impl AesVecBuffer {
    /// An empty buffer.
    pub fn new() -> (r: Self)
        ensures
            r@ == Seq::<u8>::empty(),
    {
        AesVecBuffer { data: Vec::new() }
    }

    /// A buffer holding the given bytes.
    pub fn from_vec(data: Vec<u8>) -> (r: Self)
        ensures
            r@ == data@,
    {
        AesVecBuffer { data }
    }

    /// Appends raw bytes at the end.
    pub fn extend_from_slice(&mut self, other: &[u8])
        ensures
            final(self)@ == old(self)@ + other@,
    {
        self.data.extend_from_slice(other);
        proof {
            assert(self.data@ =~= old(self).data@ + other@);
        }
    }

    /// Shrinks the contents to the first `len` bytes; a longer `len` leaves
    /// the contents unchanged.
    pub fn truncate(&mut self, len: usize)
        ensures
            len <= old(self)@.len() ==> final(self)@ == old(self)@.subrange(0, len as int),
            len > old(self)@.len() ==> final(self)@ == old(self)@,
    {
        self.data.truncate(len);
    }

    /// The current contents.
    pub fn inner(&self) -> (r: &Vec<u8>)
        ensures
            r@ == self@,
    {
        &self.data
    }

    /// The current length in bytes.
    pub fn len(&self) -> (r: usize)
        ensures
            r == self@.len(),
    {
        self.data.len()
    }

    /// Moves the contents out, leaving the buffer empty.
    pub fn take(&mut self) -> (r: Vec<u8>)
        ensures
            r@ == old(self)@,
            final(self)@ == Seq::<u8>::empty(),
    {
        let mut out: Vec<u8> = Vec::new();
        core::mem::swap(&mut out, &mut self.data);
        out
    }
}

} // verus!
