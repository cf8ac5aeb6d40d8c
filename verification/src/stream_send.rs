//! The send side of a QUIC stream: outgoing bytes the peer did not take yet wait here,
//! ahead of anything newer.
use vstd::prelude::*;
use crate::simple_buf::{room_ok, vacant_after_room, SimpleBuf, SimpleBufError};

verus! {

/// Why the unsent tail of outgoing data could not be kept.
#[derive(Debug, PartialEq, Eq, Structural)]
pub enum StashError {
    /// Even with the waiting bytes moved to the front, the buffer cannot take `incoming` bytes.
    NoRoom { max_len: usize, incoming: usize },
    /// The vacant area is shorter than the unsent tail.
    Push(SimpleBufError),
}

/// Bytes handed to the stream but not yet accepted by it, oldest first.
pub struct StreamSendBuffer {
    buf: SimpleBuf,
}

impl StreamSendBuffer {
    /// The underlying buffer.
    pub closed spec fn buffer(&self) -> SimpleBuf {
        self.buf
    }

    /// Well-formedness of the underlying buffer.
    pub open spec fn wf(&self) -> bool {
        self.buffer().wf()
    }

    /// The bytes waiting to be sent, oldest first.
    pub open spec fn pending(&self) -> Seq<u8> {
        self.buffer().content()
    }

    /// The fixed number of bytes the buffer can hold.
    pub open spec fn capacity(&self) -> nat {
        self.buffer().capacity()
    }

    /// Whether the room check before taking `incoming` bytes passes: either the waiting
    /// bytes are at least as many, or the buffer could hold `incoming` more once they
    /// are moved to the front.
    pub open spec fn has_room(&self, incoming: nat) -> bool {
        room_ok(self.buffer(), incoming)
    }

    /// Whether `keep_unsent` keeps the last `len - sent` bytes of `len` outgoing bytes.
    pub open spec fn keeps(&self, len: nat, sent: nat) -> bool {
        &&& self.has_room(len)
        &&& len - sent <= self.capacity() - vacant_after_room(self.buffer(), len)
    }

    /// An empty buffer of `capacity` bytes.
    pub fn new(capacity: usize) -> (s: Self)
        ensures
            s.wf(),
            s.capacity() == capacity,
            s.pending() == Seq::<u8>::empty(),
            s.buffer().vacant_idx() == 0,
    {
        let s = StreamSendBuffer { buf: SimpleBuf::new(capacity) };
        assert(s.pending() =~= Seq::<u8>::empty());
        s
    }

    /// True when nothing waits to be sent.
    pub fn is_empty(&self) -> (r: bool)
        requires
            self.wf(),
        ensures
            r == (self.pending().len() == 0),
    {
        self.buf.is_empty()
    }

    /// The waiting bytes, to hand to the stream before anything newer.
    pub fn pending_slice(&self) -> (s: &[u8])
        requires
            self.wf(),
        ensures
            s@ == self.pending(),
    {
        self.buf.occupied_slice()
    }

    /// The stream took the first `sent` waiting bytes: they are released, or nothing changes
    /// when fewer than `sent` bytes were waiting.
    pub fn on_sent(&mut self, sent: usize) -> (r: Result<(), SimpleBufError>)
        requires
            old(self).wf(),
            old(self).buffer().occupied_idx() + sent <= usize::MAX,
        ensures
            final(self).wf(),
            final(self).capacity() == old(self).capacity(),
            (sent <= old(self).pending().len()) <==> r is Ok,
            r is Ok ==> final(self).pending() == old(self).pending().subrange(
                sent as int,
                old(self).pending().len() as int,
            ),
            r is Err ==> *final(self) == *old(self),
    {
        proof {
            self.buf.lemma_wf();
        }
        self.buf.free(sent)
    }

    /// Before new outgoing data of `incoming` bytes is sent: moves the waiting bytes to the
    /// front when the vacant area is exhausted, then makes the room check. `false` means the
    /// data is dropped rather than sent in part.
    pub fn accept_room(&mut self, incoming: usize) -> (ok: bool)
        requires
            old(self).wf(),
        ensures
            final(self).wf(),
            final(self).capacity() == old(self).capacity(),
            final(self).pending() == old(self).pending(),
            ok == old(self).has_room(incoming as nat),
    {
        self.buf.reuse_if();
        self.buf.make_room(incoming)
    }

    /// Of `data`, the stream took the first `sent` bytes: the rest is kept behind the waiting
    /// bytes, after the room check for the whole of `data`.
    pub fn keep_unsent(&mut self, data: &[u8], sent: usize) -> (r: Result<(), StashError>)
        requires
            old(self).wf(),
            sent <= data@.len(),
        ensures
            final(self).wf(),
            final(self).capacity() == old(self).capacity(),
            r is Ok <==> old(self).keeps(data@.len(), sent as nat),
            r is Ok ==> final(self).pending() == old(self).pending() + data@.subrange(
                sent as int,
                data@.len() as int,
            ),
            r is Err ==> final(self).pending() == old(self).pending(),
            r matches Err(StashError::NoRoom { max_len, incoming }) ==> {
                &&& !old(self).has_room(data@.len())
                &&& max_len == old(self).capacity() - old(self).pending().len()
                &&& incoming == data@.len()
            },
            r matches Err(StashError::Push(e)) ==> {
                &&& old(self).has_room(data@.len())
                &&& e == SimpleBufError::VacantTooSmall {
                    usable: (old(self).capacity() - vacant_after_room(
                        old(self).buffer(),
                        data@.len(),
                    )) as usize,
                    need: (data@.len() - sent) as usize,
                }
            },
    {
        proof {
            self.buf.lemma_wf();
        }
        if !self.buf.make_room(data.len()) {
            return Err(StashError::NoRoom { max_len: self.buf.max_len(), incoming: data.len() });
        }
        let rest = vstd::slice::slice_subrange(data, sent, data.len());
        match self.buf.push_slice(rest) {
            Ok(()) => Ok(()),
            Err(e) => Err(StashError::Push(e)),
        }
    }
}

/// With nothing waiting, outgoing data that fits the capacity passes the room check and its
/// unsent tail, whatever its length, is kept.
pub proof fn law_empty_buffer_keeps(s: StreamSendBuffer, len: nat, sent: nat)
    requires
        s.wf(),
        s.pending().len() == 0,
        sent <= len <= s.capacity(),
    ensures
        s.has_room(len),
        s.keeps(len, sent),
{
    s.buffer().lemma_wf();
}

} // verus!
