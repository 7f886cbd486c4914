//! The byte source that a reader consumes: the bytes of one media file and
//! a cursor into them.

use vstd::prelude::*;
use crate::errors::Error;

verus! {

/// The bytes of a media source, held in memory, with a read cursor.
///
/// The cursor never passes the end of the bytes.
pub struct ByteSource {
    data: Vec<u8>,
    pos: usize,
}

impl ByteSource {
    /// The cursor is within the bytes. This holds of every source.
    #[verifier::type_invariant]
    pub closed spec fn wf(&self) -> bool {
        self.pos <= self.data@.len()
    }

    /// All bytes of the source, whatever the cursor.
    pub closed spec fn bytes(&self) -> Seq<u8> {
        self.data@
    }

    /// The cursor: the number of bytes before the next one to be read.
    pub closed spec fn position(&self) -> nat {
        self.pos as nat
    }

    /// The bytes from the cursor to the end.
    pub open spec fn rest(&self) -> Seq<u8> {
        self.bytes().subrange(self.position() as int, self.bytes().len() as int)
    }

    /// In a well-formed source the cursor stays within the bytes.
    pub proof fn lemma_cursor_in_bounds(&self)
        requires
            self.wf(),
        ensures
            self.position() <= self.bytes().len(),
    {
    }

    /// A source over the given bytes, with the cursor at the start.
    pub fn new(data: Vec<u8>) -> (r: ByteSource)
        ensures
            r.wf(),
            r.bytes() == data@,
            r.position() == 0,
    {
        ByteSource { data, pos: 0 }
    }

    /// The number of bytes in the source.
    pub fn len(&self) -> (r: usize)
        ensures
            r == self.bytes().len(),
    {
        self.data.len()
    }

    /// The cursor.
    pub fn pos(&self) -> (r: usize)
        ensures
            r == self.position(),
            r <= self.bytes().len(),
    {
        proof {
            use_type_invariant(self);
        }
        self.pos
    }

    /// All bytes of the source.
    pub fn as_slice(&self) -> (r: &[u8])
        ensures
            r@ == self.bytes(),
    {
        self.data.as_slice()
    }

    /// Moves the cursor to `pos`, which may be the end of the source but not
    /// beyond it. A position beyond the end is a failure of the source, and
    /// leaves the cursor where it was.
    pub fn seek(&mut self, pos: usize) -> (r: Result<(), Error>)
        ensures
            final(self).wf(),
            final(self).bytes() == old(self).bytes(),
            match r {
                Ok(_) => pos <= old(self).bytes().len() && final(self).position() == pos,
                Err(e) => e == Error::Io && pos > old(self).bytes().len() && final(self).position()
                    == old(self).position(),
            },
    {
        proof {
            use_type_invariant(&*self);
        }
        if pos <= self.data.len() {
            self.pos = pos;
            Ok(())
        } else {
            Err(Error::Io)
        }
    }

    /// Hands out the bytes from the cursor to the end and moves the cursor
    /// to the end.
    pub fn take_rest(&mut self) -> (r: &[u8])
        ensures
            r@ == old(self).rest(),
            final(self).wf(),
            final(self).bytes() == old(self).bytes(),
            final(self).position() == old(self).bytes().len(),
    {
        proof {
            use_type_invariant(&*self);
        }
        let start: usize = self.pos;
        let end: usize = self.data.len();
        self.pos = end;
        vstd::slice::slice_subrange(self.data.as_slice(), start, end)
    }
}

} // verus!
