//! No-std support for reading while keeping track of the current position.

use vstd::prelude::*;
use crate::deser::Result;
use crate::spec_padding;
use crate::traits::MaxSizeOf;

verus! {

/// Whether `n` more bytes can be taken from `data` when the stream is at `pos`:
/// there are enough of them and the position stays representable.
pub open spec fn spec_fits(data: Seq<u8>, pos: nat, n: nat) -> bool {
    n <= data.len() && pos + n <= usize::MAX
}

/// [`std::io::Read`]-like trait for deserialization that does not depend on [`std`].
///
/// Its spec functions describe a reader abstractly: the bytes it will still deliver,
/// the position reached, and whether it fails exactly when bytes run out.
pub trait ReadNoStd {
    /// The bytes this reader will still deliver.
    spec fn spec_data(&self) -> Seq<u8>;

    /// The number of bytes read so far (the position).
    spec fn spec_pos(&self) -> nat;

    /// Whether reads succeed whenever the bytes are there and the position fits.
    spec fn spec_exact(&self) -> bool;

    /// Whether aligning also checks the alignment of the memory read from.
    spec fn spec_checks_addresses() -> bool;

    /// Read exactly `buf.len()` bytes.
    fn read_exact(&mut self, buf: &mut [u8]) -> (r: Result<()>)
        ensures
            final(buf)@.len() == old(buf)@.len(),
            r is Ok ==> {
                &&& (*final(self)).spec_exact() == (*old(self)).spec_exact()
                &&& spec_fits((*old(self)).spec_data(), (*old(self)).spec_pos(), old(buf)@.len())
                &&& final(buf)@ == (*old(self)).spec_data().take(old(buf)@.len() as int)
                &&& (*final(self)).spec_data() == (*old(self)).spec_data().skip(old(buf)@.len() as int)
                &&& (*final(self)).spec_pos() == (*old(self)).spec_pos() + old(buf)@.len()
            },
            (*old(self)).spec_exact() && spec_fits((*old(self)).spec_data(), (*old(self)).spec_pos(), old(buf)@.len())
                ==> r is Ok,
            r is Err ==> r->Err_0 is ReadError,
    ;
}

/// A mutable reference to a reader reads from the reader.
impl<R: ReadNoStd + ?Sized> ReadNoStd for &mut R {
    open spec fn spec_data(&self) -> Seq<u8> {
        (**self).spec_data()
    }

    open spec fn spec_pos(&self) -> nat {
        (**self).spec_pos()
    }

    open spec fn spec_exact(&self) -> bool {
        (**self).spec_exact()
    }

    open spec fn spec_checks_addresses() -> bool {
        R::spec_checks_addresses()
    }

    fn read_exact(&mut self, buf: &mut [u8]) -> (r: Result<()>) {
        (**self).read_exact(buf)
    }
}

/// What aligning a reader to `align` guarantees: on success the padding up to the
/// next multiple of `align` was skipped; it succeeds when the reader is exact and the
/// padding is there, unless the memory read from is misaligned; the errors are a read
/// error or, for readers checking addresses and an alignment above one byte, an
/// alignment error, which comes after the padding was skipped.
pub open spec fn spec_aligned<R: ReadNoStd>(old: R, new: R, align: usize, r: Result<()>) -> bool {
    let n = spec_padding(old.spec_pos(), align);
    &&& r is Ok ==> {
        &&& new.spec_exact() == old.spec_exact()
        &&& spec_fits(old.spec_data(), old.spec_pos(), n)
        &&& new.spec_data() == old.spec_data().skip(n as int)
        &&& new.spec_pos() == old.spec_pos() + n
    }
    &&& old.spec_exact() && spec_fits(old.spec_data(), old.spec_pos(), n) ==> r is Ok || (
    R::spec_checks_addresses() && r->Err_0 is AlignmentError)
    &&& r is Err ==> r->Err_0 is ReadError || (R::spec_checks_addresses() && r->Err_0 is AlignmentError)
    &&& r is Err && r->Err_0 is AlignmentError ==> {
        &&& align > 1
        &&& spec_fits(old.spec_data(), old.spec_pos(), n)
        &&& new.spec_data() == old.spec_data().skip(n as int)
        &&& new.spec_pos() == old.spec_pos() + n
    }
}

/// A trait for [`ReadNoStd`] that also keeps track of the current position.
pub trait ReadWithPos: ReadNoStd + Sized {
    /// Return the current position.
    fn pos(&self) -> (r: usize)
        ensures
            r == self.spec_pos(),
    ;

    /// Skip the padding up to the next multiple of [`MaxSizeOf::max_size_of`] of `T`.
    fn align<T: MaxSizeOf>(&mut self) -> (r: Result<()>)
        requires
            T::spec_max_size_of() > 0,
        ensures
            spec_aligned(*old(self), *final(self), T::spec_max_size_of(), r),
    ;
}

} // verus!
