//! The byte-source primitive: a buffer with a monotonically advancing read
//! cursor, from which nested decodes take exactly the bytes of one value.

use vstd::prelude::*;

use crate::codec_err::DecodeError;
use crate::handler::DecodeErrorHandler;

verus! {

/// An owned input buffer plus a read cursor. `remaining()` is the part of
/// the buffer not yet consumed; every read advances the cursor and never
/// moves it back.
pub struct ByteSource {
    data: Vec<u8>,
    pos: usize,
}

impl ByteSource {
    /// The whole underlying buffer.
    pub closed spec fn data_spec(&self) -> Seq<u8> {
        self.data@
    }

    /// The cursor: how many bytes have been consumed.
    pub closed spec fn pos_spec(&self) -> int {
        self.pos as int
    }

    /// The cursor never passes the end of the buffer.
    pub open spec fn wf(&self) -> bool {
        0 <= self.pos_spec() <= self.data_spec().len()
    }

    /// The bytes not yet consumed.
    pub open spec fn remaining(&self) -> Seq<u8> {
        self.data_spec().subrange(self.pos_spec(), self.data_spec().len() as int)
    }

    pub fn new(data: Vec<u8>) -> (r: Self)
        ensures
            r.wf(),
            r.data_spec() == data@,
            r.pos_spec() == 0,
            r.remaining() == data@,
    {
        let r = ByteSource { data, pos: 0 };
        proof {
            assert(r.remaining() =~= r.data_spec());
        }
        r
    }

    pub fn new_from_slice(data: &[u8]) -> (r: Self)
        ensures
            r.wf(),
            r.data_spec() == data@,
            r.pos_spec() == 0,
            r.remaining() == data@,
    {
        Self::new(vstd::slice::slice_to_vec(data))
    }

    /// How many bytes are left to read.
    pub fn remaining_len(&self) -> (r: usize)
        requires
            self.wf(),
        ensures
            r == self.remaining().len(),
    {
        self.data.len() - self.pos
    }

    /// Read exactly `n` bytes, advancing the cursor by `n`; if fewer remain,
    /// the handler is invoked once with `InputTooShort` and the cursor does
    /// not move.
    pub fn try_read_exact<H: DecodeErrorHandler>(&mut self, n: usize, h: &mut H) -> (r: Result<
        Vec<u8>,
        H::HandledErr,
    >)
        requires
            old(self).wf(),
        ensures
            final(self).wf(),
            final(self).data_spec() == old(self).data_spec(),
            n <= old(self).remaining().len() ==> (r matches Ok(bytes) && bytes@ == old(
                self,
            ).remaining().subrange(0, n as int) && final(self).pos_spec() == old(self).pos_spec()
                + n && *final(h) == *old(h)),
            n > old(self).remaining().len() ==> (r matches Err(he) && he == old(h).handled(
                DecodeError::InputTooShort,
            ) && *final(h) == old(h).state_after(DecodeError::InputTooShort) && *final(self) == *old(
                self,
            )),
    {
        if n > self.data.len() - self.pos {
            return Err(h.handle_error(DecodeError::InputTooShort));
        }
        let mut out: Vec<u8> = Vec::new();
        let mut i: usize = 0;
        while i < n
            invariant
                self == old(self),
                self.wf(),
                i <= n,
                n <= self.remaining().len(),
                self.pos + n <= self.data.len(),
                out@ == self.remaining().subrange(0, i as int),
            decreases n - i,
        {
            out.push(self.data[self.pos + i]);
            i = i + 1;
            proof {
                assert(out@ =~= self.remaining().subrange(0, i as int));
            }
        }
        self.pos = self.pos + n;
        Ok(out)
    }
}

} // verus!
