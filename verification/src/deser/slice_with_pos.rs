//! Deserialization from a byte slice in memory.

use vstd::prelude::*;
use crate::deser::{Error, Result, ReadNoStd, ReadWithPos};

use crate::pad_align_to;
use crate::traits::MaxSizeOf;

verus! {

/// The address of the first byte of `data`, from `<[u8]>::as_ptr`; it depends on
/// where the bytes are in memory and is not stated.
#[verifier::external_body]
fn address_of(data: &[u8]) -> usize {
    data.as_ptr() as usize
}

/// Whether memory at `address` is aligned to `align`: the test [`SliceWithPos`]
/// makes, after skipping the padding, on the address of the bytes still to be read.
pub fn is_aligned_address(address: usize, align: usize) -> (r: bool)
    requires
        align > 0,
    ensures
        r == (address % align == 0),
        align == 1 ==> r,
{
    address % align == 0
}

/// [`std::io::Cursor`]-like type for deserialization that does not depend on [`std`].
#[derive(Debug)]
pub struct SliceWithPos<'a> {
    /// The bytes still to be read.
    pub data: &'a [u8],
    /// The number of bytes read so far.
    pub pos: usize,
}

impl<'a> SliceWithPos<'a> {
    /// Start reading `backend` from its beginning.
    pub fn new(backend: &'a [u8]) -> (r: Self)
        ensures
            r.data@ == backend@,
            r.pos == 0,
    {
        Self { data: backend, pos: 0 }
    }

    /// Skip `bytes` bytes.
    pub fn skip(&mut self, bytes: usize)
        requires
            bytes <= old(self).data@.len(),
            old(self).pos + bytes <= usize::MAX,
        ensures
            final(self).data@ == old(self).data@.skip(bytes as int),
            final(self).pos == old(self).pos + bytes,
    {
        self.data = vstd::slice::slice_subrange(self.data, bytes, self.data.len());
        self.pos = self.pos + bytes;
    }
}

impl<'a> ReadNoStd for SliceWithPos<'a> {
    open spec fn spec_data(&self) -> Seq<u8> {
        self.data@
    }

    open spec fn spec_pos(&self) -> nat {
        self.pos as nat
    }

    open spec fn spec_exact(&self) -> bool {
        true
    }

    open spec fn spec_checks_addresses() -> bool {
        true
    }

    /// Copy the next bytes; when too few bytes remain, nothing changes.
    fn read_exact(&mut self, buf: &mut [u8]) -> (r: Result<()>)
        ensures
            r is Err ==> *final(self) == *old(self) && final(buf)@ == old(buf)@,
    {
        let len = buf.len();
        if len > self.data.len() || len > usize::MAX - self.pos {
            return Err(Error::ReadError);
        }
        let mut i: usize = 0;
        while i < len
            invariant
                i <= len,
                len == buf@.len(),
                len <= self.data@.len(),
                self.data@ == old(self).data@,
                buf@.len() == old(buf)@.len(),
                forall|j: int| 0 <= j < i ==> buf@[j] == self.data@[j],
            decreases len - i,
        {
            buf[i] = self.data[i];
            i = i + 1;
        }
        assert(buf@ =~= old(self).data@.take(len as int));
        self.skip(len);
        Ok(())
    }
}

impl<'a> ReadWithPos for SliceWithPos<'a> {
    fn pos(&self) -> (r: usize) {
        self.pos
    }

    /// Skip the padding to the correct alignment.
    ///
    /// Note that this method also checks that the absolute memory position is properly
    /// aligned.
    fn align<T: MaxSizeOf>(&mut self) -> (r: Result<()>)
        ensures
            r matches Err(e) && e is ReadError ==> *final(self) == *old(self),
    {
        let align = T::max_size_of();
        let padding = pad_align_to(self.pos, align);
        if padding > self.data.len() || padding > usize::MAX - self.pos {
            return Err(Error::ReadError);
        }
        self.skip(padding);
        if !is_aligned_address(address_of(self.data), align) {
            Err(Error::AlignmentError)
        } else {
            Ok(())
        }
    }
}

} // verus!
