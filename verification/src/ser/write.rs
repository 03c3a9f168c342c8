//! No-std support for writing while keeping track of the current position.

use vstd::prelude::*;
use crate::ser::{Error, Result};
use crate::ser::write_with_names::SchemaRow;

verus! {

/// [`std::io::Write`]-like trait for serialization that does not depend on [`std`].
///
/// Its spec functions describe a writer abstractly: the bytes written through it,
/// how many more bytes it accepts, and (for writers recording a schema) the rows
/// recorded and the path of names of the value being written.
pub trait WriteNoStd {
    /// Whether the writer is in a consistent state; writing requires it.
    spec fn wf(&self) -> bool;

    /// The bytes written through this writer.
    spec fn spec_written(&self) -> Seq<u8>;

    /// How many more bytes a write is guaranteed to accept.
    spec fn spec_room(&self) -> nat;

    /// Whether flushing is guaranteed to succeed.
    spec fn spec_reliable(&self) -> bool;

    /// The schema rows recorded so far (none for writers that do not record them).
    spec fn spec_schema(&self) -> Seq<SchemaRow>;

    /// The names of the fields enclosing the data being written.
    spec fn spec_path(&self) -> Seq<Seq<char>>;

    /// Write some bytes.
    fn write_all(&mut self, buf: &[u8]) -> (r: Result<()>)
        requires
            (*old(self)).wf(),
        ensures
            r is Ok ==> {
                &&& (*final(self)).wf()
                &&& (*final(self)).spec_written() == (*old(self)).spec_written() + buf@
                &&& (*final(self)).spec_room() + buf@.len() == (*old(self)).spec_room()
                &&& (*final(self)).spec_reliable() == (*old(self)).spec_reliable()
                &&& (*final(self)).spec_schema() == (*old(self)).spec_schema()
                &&& (*final(self)).spec_path() == (*old(self)).spec_path()
            },
            buf@.len() <= (*old(self)).spec_room() ==> r is Ok,
            r is Err ==> r->Err_0 is WriteError,
    ;

    /// Flush all changes to the underlying storage if applicable.
    fn flush(&mut self) -> (r: Result<()>)
        requires
            (*old(self)).wf(),
        ensures
            r is Ok ==> {
                &&& (*final(self)).wf()
                &&& (*final(self)).spec_written() == (*old(self)).spec_written()
                &&& (*final(self)).spec_room() == (*old(self)).spec_room()
                &&& (*final(self)).spec_reliable() == (*old(self)).spec_reliable()
                &&& (*final(self)).spec_schema() == (*old(self)).spec_schema()
                &&& (*final(self)).spec_path() == (*old(self)).spec_path()
            },
            (*old(self)).spec_reliable() ==> r is Ok,
            r is Err ==> r->Err_0 is WriteError,
    ;
}

/// An in-memory writer: the bytes are appended to the vector.
impl WriteNoStd for Vec<u8> {
    open spec fn wf(&self) -> bool {
        true
    }

    open spec fn spec_written(&self) -> Seq<u8> {
        self@
    }

    open spec fn spec_room(&self) -> nat {
        (usize::MAX - self@.len()) as nat
    }

    open spec fn spec_reliable(&self) -> bool {
        true
    }

    open spec fn spec_schema(&self) -> Seq<SchemaRow> {
        Seq::empty()
    }

    open spec fn spec_path(&self) -> Seq<Seq<char>> {
        Seq::empty()
    }

    fn write_all(&mut self, buf: &[u8]) -> (r: Result<()>) {
        if buf.len() > usize::MAX - self.len() {
            return Err(Error::WriteError);
        }
        let mut i: usize = 0;
        while i < buf.len()
            invariant
                i <= buf@.len(),
                old(self)@.len() + buf@.len() <= usize::MAX,
                self@ == old(self)@ + buf@.take(i as int),
            decreases buf@.len() - i,
        {
            self.push(buf[i]);
            i = i + 1;
            assert(buf@.take(i as int) == buf@.take((i - 1) as int).push(buf@[i - 1]));
        }
        assert(buf@.take(i as int) == buf@);
        Ok(())
    }

    fn flush(&mut self) -> (r: Result<()>) {
        Ok(())
    }
}

/// A mutable reference to a writer writes on the writer, so that a wrapper such as
/// [`WriterWithPos`] can be put on a borrowed writer.
impl<W: WriteNoStd + ?Sized> WriteNoStd for &mut W {
    open spec fn wf(&self) -> bool {
        (**self).wf()
    }

    open spec fn spec_written(&self) -> Seq<u8> {
        (**self).spec_written()
    }

    open spec fn spec_room(&self) -> nat {
        (**self).spec_room()
    }

    open spec fn spec_reliable(&self) -> bool {
        (**self).spec_reliable()
    }

    open spec fn spec_schema(&self) -> Seq<SchemaRow> {
        (**self).spec_schema()
    }

    open spec fn spec_path(&self) -> Seq<Seq<char>> {
        (**self).spec_path()
    }

    fn write_all(&mut self, buf: &[u8]) -> (r: Result<()>) {
        (**self).write_all(buf)
    }

    fn flush(&mut self) -> (r: Result<()>) {
        (**self).flush()
    }
}

/// A trait for [`WriteNoStd`] that also keeps track of the current position.
pub trait WriteWithPos: WriteNoStd {
    /// The current position: the number of bytes written so far.
    fn pos(&self) -> (r: usize)
        requires
            self.wf(),
        ensures
            r == self.spec_written().len(),
    ;
}

/// An in-memory writer knows its position: the number of bytes it holds.
impl WriteWithPos for Vec<u8> {
    fn pos(&self) -> (r: usize) {
        self.len()
    }
}

/// A wrapper for a [`WriteNoStd`] that implements [`WriteWithPos`]
/// by keeping track of the current position.
pub struct WriterWithPos<F: WriteNoStd> {
    /// What we actually write on.
    backend: F,
    /// How many bytes we have written from the start.
    pos: usize,
    /// How many bytes the backend held when the wrapper was created.
    base: Ghost<nat>,
}

impl<F: WriteNoStd> WriterWithPos<F> {
    /// The backend.
    pub closed spec fn spec_backend(&self) -> F {
        self.backend
    }

    /// How many bytes the backend held when the wrapper was created.
    pub closed spec fn spec_base(&self) -> nat {
        self.base@
    }

    /// Create a new [`WriterWithPos`] on top of a generic [`WriteNoStd`] `F`.
    pub fn new(backend: F) -> (r: Self)
        requires
            backend.wf(),
        ensures
            r.wf(),
            r.spec_written() == Seq::<u8>::empty(),
            r.spec_backend() == backend,
            r.spec_base() == backend.spec_written().len(),
            r.spec_room() == (if backend.spec_room() < usize::MAX { backend.spec_room() } else {
                usize::MAX as nat
            }),
            r.spec_reliable() == backend.spec_reliable(),
    {
        let ghost base = backend.spec_written().len();
        WriterWithPos { backend, pos: 0, base: Ghost(base) }
    }

    /// Give back the backend, which holds what it held before followed by what was
    /// written through the wrapper.
    pub fn into_inner(self) -> (r: F)
        requires
            self.wf(),
        ensures
            r == self.spec_backend(),
            r.wf(),
            r.spec_written() == r.spec_written().take(self.spec_base() as int) + self.spec_written(),
            r.spec_written().len() == self.spec_base() + self.spec_written().len(),
    {
        proof {
            let b = self.backend.spec_written();
            assert(b == b.take(self.base@ as int) + b.skip(self.base@ as int));
        }
        self.backend
    }
}

impl<F: WriteNoStd> WriteNoStd for WriterWithPos<F> {
    closed spec fn wf(&self) -> bool {
        &&& self.backend.wf()
        &&& self.backend.spec_written().len() == self.base@ + self.pos
    }

    closed spec fn spec_written(&self) -> Seq<u8> {
        self.backend.spec_written().skip(self.base@ as int)
    }

    closed spec fn spec_room(&self) -> nat {
        let by_pos = (usize::MAX - self.pos) as nat;
        if self.backend.spec_room() < by_pos { self.backend.spec_room() } else { by_pos }
    }

    closed spec fn spec_reliable(&self) -> bool {
        self.backend.spec_reliable()
    }

    open spec fn spec_schema(&self) -> Seq<SchemaRow> {
        Seq::empty()
    }

    open spec fn spec_path(&self) -> Seq<Seq<char>> {
        Seq::empty()
    }

    fn write_all(&mut self, buf: &[u8]) -> (r: Result<()>) {
        if buf.len() > usize::MAX - self.pos {
            return Err(Error::WriteError);
        }
        let res = self.backend.write_all(buf);
        match res {
            Ok(()) => {
                self.pos = self.pos + buf.len();
                assert(self.backend.spec_written().skip(self.base@ as int) =~= old(self).backend.spec_written().skip(
                    self.base@ as int) + buf@);
                Ok(())
            },
            Err(e) => Err(e),
        }
    }

    fn flush(&mut self) -> (r: Result<()>) {
        self.backend.flush()
    }
}

/// A mutable reference to a writer that knows its position knows it too.
impl<W: WriteWithPos + ?Sized> WriteWithPos for &mut W {
    fn pos(&self) -> (r: usize) {
        (**self).pos()
    }
}

impl<F: WriteNoStd> WriteWithPos for WriterWithPos<F> {
    fn pos(&self) -> (r: usize) {
        self.pos
    }
}

} // verus!
