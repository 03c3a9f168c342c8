//! Keeping track of the position while reading from a generic reader.

use vstd::prelude::*;
use crate::deser::{Error, Result, ReadNoStd, ReadWithPos};

use crate::pad_align_to;
use crate::traits::MaxSizeOf;

verus! {

/// A wrapper for a [`ReadNoStd`] that implements [`ReadWithPos`]
/// by keeping track of the current position.
pub struct ReaderWithPos<F: ReadNoStd> {
    /// What we actually read from.
    backend: F,
    /// How many bytes we have read from the start.
    pos: usize,
}

impl<F: ReadNoStd> ReaderWithPos<F> {
    /// The backend.
    pub closed spec fn spec_backend(&self) -> F {
        self.backend
    }

    /// Create a new [`ReadWithPos`] on top of a generic [`ReadNoStd`].
    pub fn new(backend: F) -> (r: Self)
        ensures
            r.spec_backend() == backend,
            r.spec_data() == backend.spec_data(),
            r.spec_pos() == 0,
            r.spec_exact() == (backend.spec_exact() && backend.spec_pos() == 0),
    {
        Self { backend, pos: 0 }
    }
}

impl<F: ReadNoStd> ReadNoStd for ReaderWithPos<F> {
    closed spec fn spec_data(&self) -> Seq<u8> {
        self.backend.spec_data()
    }

    closed spec fn spec_pos(&self) -> nat {
        self.pos as nat
    }

    closed spec fn spec_exact(&self) -> bool {
        self.backend.spec_exact() && self.backend.spec_pos() <= self.pos
    }

    open spec fn spec_checks_addresses() -> bool {
        false
    }

    /// One read from the backend; on error the position is unchanged.
    fn read_exact(&mut self, buf: &mut [u8]) -> (r: Result<()>)
        ensures
            r is Err ==> (*final(self)).spec_pos() == (*old(self)).spec_pos(),
    {
        if buf.len() > usize::MAX - self.pos {
            return Err(Error::ReadError);
        }
        let ghost was_exact = self.backend.spec_exact() && self.backend.spec_pos() <= self.pos;
        let res = self.backend.read_exact(buf);
        match res {
            Ok(()) => {
                self.pos = self.pos + buf.len();
                Ok(())
            },
            Err(e) => {
                proof {
                    if was_exact {
                        assert(old(self).backend.spec_pos() + old(buf)@.len() <= usize::MAX);
                    }
                }
                Err(e)
            },
        }
    }
}

impl<F: ReadNoStd> ReadWithPos for ReaderWithPos<F> {
    fn pos(&self) -> (r: usize) {
        self.pos
    }

    fn align<T: MaxSizeOf>(&mut self) -> (r: Result<()>) {
        let padding = pad_align_to(self.pos, T::max_size_of());
        let mut buf: Vec<u8> = vec![0u8; padding];
        self.read_exact(buf.as_mut_slice())
    }
}

} // verus!
