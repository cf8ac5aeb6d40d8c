//! Cutting a byte stream into packets.
use vstd::prelude::*;
use crate::codec::{
    law_encode_decode, law_header_needs_packet, spec_decode_header, spec_decode_packet,
    spec_encode, well_formed, DecodeError,
};
use crate::packets::{
    Packet, PacketHeader, PacketView, FIELD24_LIMIT, MIN_PACKET_HEADER_SIZE, REQUEST_HEADER_SIZE,
};
use crate::simple_buf::{
    concat_chunks, occupied_after_room, room_ok, vacant_after_room, SimpleBuf, SimpleBufError,
};

verus! {

/// Views of a sequence of packets.
pub open spec fn views(ps: Seq<Packet>) -> Seq<PacketView> {
    ps.map_values(|p: Packet| p@)
}

/// The bytes of a sequence of packets, one after the other.
pub open spec fn encode_all(ps: Seq<PacketView>) -> Seq<u8>
    decreases ps.len(),
{
    if ps.len() == 0 {
        seq![]
    } else {
        spec_encode(ps[0]) + encode_all(ps.subrange(1, ps.len() as int))
    }
}

/// Adds `c` to the consumed count of a framing outcome.
pub open spec fn shift_outcome(r: Result<(nat, nat), DecodeError>, c: nat) -> Result<
    (nat, nat),
    DecodeError,
> {
    match r {
        Ok((consumed, need)) => Ok((consumed + c, need)),
        Err(e) => Err(e),
    }
}

/// Reads packets from the front of `s` until a header is incomplete, the next packet is
/// incomplete, or a header is malformed. Gives the packets read and either the number of
/// bytes they took together with the size to wait for before reading again, or the error.
pub open spec fn spec_frame(s: Seq<u8>) -> (Seq<PacketView>, Result<(nat, nat), DecodeError>)
    decreases s.len(),
{
    match spec_decode_header(s) {
        Err(DecodeError::Incomplete) => (seq![], Ok((0, MIN_PACKET_HEADER_SIZE as nat))),
        Err(e) => (seq![], Err(e)),
        Ok(h) => if s.len() < h.spec_need_bytes() {
            (seq![], Ok((0, h.spec_need_bytes())))
        } else {
            let n = h.spec_need_bytes();
            let p = h.with_body(s.subrange(h.header_size() as int, n as int));
            let (ps, r) = spec_frame(s.subrange(n as int, s.len() as int));
            (seq![p] + ps, shift_outcome(r, n))
        },
    }
}

proof fn lemma_frame_step(s: Seq<u8>)
    requires
        spec_decode_packet(s) is Ok,
    ensures
        ({
            let (p, n) = spec_decode_packet(s)->Ok_0;
            let (ps, r) = spec_frame(s.subrange(n as int, s.len() as int));
            &&& n >= MIN_PACKET_HEADER_SIZE
            &&& n <= s.len()
            &&& n == p.total_bytes()
            &&& spec_frame(s) == (seq![p] + ps, shift_outcome(r, n))
        }),
{
    law_header_needs_packet(s);
}

/// What the framing reads is exactly the front of the input, packet after packet;
/// the rest holds no complete packet, or starts with the header that could not be read.
pub proof fn law_frame(s: Seq<u8>)
    ensures
        ({
            let (ps, r) = spec_frame(s);
            &&& forall|i: int| 0 <= i < ps.len() ==> well_formed(#[trigger] ps[i])
            &&& encode_all(ps).len() <= s.len()
            &&& s.subrange(0, encode_all(ps).len() as int) == encode_all(ps)
            &&& match r {
                Ok((c, need)) => {
                    &&& c == encode_all(ps).len()
                    &&& need >= MIN_PACKET_HEADER_SIZE
                    &&& need <= FIELD24_LIMIT + REQUEST_HEADER_SIZE
                    &&& spec_decode_packet(s.subrange(c as int, s.len() as int)) == Err::<
                        (PacketView, nat),
                        DecodeError,
                    >(DecodeError::Incomplete)
                },
                Err(e) => {
                    &&& e != DecodeError::Incomplete
                    &&& spec_decode_header(
                        s.subrange(encode_all(ps).len() as int, s.len() as int),
                    ) == Err::<PacketHeader, DecodeError>(e)
                },
            }
        }),
    decreases s.len(),
{
    law_header_needs_packet(s);
    match spec_decode_header(s) {
        Err(e) => {
            assert(encode_all(seq![]) == Seq::<u8>::empty());
            assert(s.subrange(0, 0) =~= Seq::<u8>::empty());
            assert(s.subrange(0, s.len() as int) =~= s);
        },
        Ok(h) => {
            if s.len() < h.spec_need_bytes() {
                assert(encode_all(seq![]) == Seq::<u8>::empty());
                assert(s.subrange(0, 0) =~= Seq::<u8>::empty());
                assert(s.subrange(0, s.len() as int) =~= s);
            } else {
                let (p, n) = spec_decode_packet(s)->Ok_0;
                lemma_frame_step(s);
                law_encode_decode(s);
                let t = s.subrange(n as int, s.len() as int);
                law_frame(t);
                let (qs, r) = spec_frame(t);
                let ps = seq![p] + qs;
                assert(ps[0] == p);
                assert(ps.subrange(1, ps.len() as int) =~= qs);
                assert(encode_all(ps) == spec_encode(p) + encode_all(qs));
                assert forall|i: int| 0 <= i < ps.len() implies well_formed(#[trigger] ps[i]) by {
                    if i > 0 {
                        assert(ps[i] == qs[i - 1]);
                    }
                }
                let k = encode_all(qs).len();
                assert(s.subrange(0, (n + k) as int) =~= s.subrange(0, n as int) + t.subrange(
                    0,
                    k as int,
                ));
                match r {
                    Ok((c, need)) => {
                        assert(s.subrange((c + n) as int, s.len() as int) =~= t.subrange(
                            c as int,
                            t.len() as int,
                        ));
                    },
                    Err(e) => {
                        assert(s.subrange((n + k) as int, s.len() as int) =~= t.subrange(
                            k as int,
                            t.len() as int,
                        ));
                    },
                }
            }
        },
    }
}

/// Reads every complete packet at the front of `packet_buffer`.
///
/// Gives the packets read, in order, and either `(consumed, need_size)`, the bytes those
/// packets took and how many bytes to wait for before reading again, or the error met.
pub fn parse_packet_buf(packet_buffer: &[u8]) -> (r: (Vec<Packet>, Result<(usize, usize), DecodeError>))
    ensures
        views(r.0@) == spec_frame(packet_buffer@).0,
        match spec_frame(packet_buffer@).1 {
            Ok((c, n)) => r.1 == Ok::<(usize, usize), DecodeError>((c as usize, n as usize)),
            Err(e) => r.1 == Err::<(usize, usize), DecodeError>(e),
        },
{
    let ghost input = packet_buffer@;
    let mut packets: Vec<Packet> = Vec::new();
    let mut consumed: usize = 0;
    let mut occupied_bytes: usize = packet_buffer.len();
    let mut need_size: usize = MIN_PACKET_HEADER_SIZE;
    let mut buf = packet_buffer;
    loop
        invariant
            input == packet_buffer@,
            input.len() <= usize::MAX,
            consumed + occupied_bytes == input.len(),
            buf@ == input.subrange(consumed as int, input.len() as int),
            occupied_bytes == buf@.len(),
            need_size == MIN_PACKET_HEADER_SIZE,
            spec_frame(input).0 == views(packets@) + spec_frame(buf@).0,
            spec_frame(input).1 == shift_outcome(spec_frame(buf@).1, consumed as nat),
        decreases occupied_bytes,
    {
        proof {
            law_header_needs_packet(buf@);
        }
        match PacketHeader::from_bytes(buf) {
            Ok((_, header)) => {
                need_size = header.need_bytes();
                if occupied_bytes < need_size {
                    assert(spec_frame(buf@) == (Seq::<PacketView>::empty(), Ok::<(nat, nat), DecodeError>((0, need_size as nat))));
                    assert(views(packets@) + seq![] =~= views(packets@));
                    return (packets, Ok((consumed, need_size)));
                }
            },
            Err(DecodeError::Incomplete) => {
                assert(spec_frame(buf@) == (Seq::<PacketView>::empty(), Ok::<(nat, nat), DecodeError>((0, MIN_PACKET_HEADER_SIZE as nat))));
                assert(views(packets@) + seq![] =~= views(packets@));
                return (packets, Ok((consumed, need_size)));
            },
            Err(e) => {
                assert(spec_frame(buf@) == (Seq::<PacketView>::empty(), Err::<(nat, nat), DecodeError>(e)));
                assert(views(packets@) + seq![] =~= views(packets@));
                return (packets, Err(e));
            },
        }
        match Packet::from_bytes(buf) {
            Ok((rest, packet)) => {
                proof {
                    lemma_frame_step(buf@);
                }
                let packet_size = packet.total_bytes();
                let ghost old_packets = packets@;
                let ghost pv = packet@;
                occupied_bytes = occupied_bytes - packet_size;
                consumed = consumed + packet_size;
                buf = rest;
                need_size = MIN_PACKET_HEADER_SIZE;
                packets.push(packet);
                proof {
                    assert(views(packets@) =~= views(old_packets).push(pv));
                    assert(buf@ =~= input.subrange(consumed as int, input.len() as int));
                    let qs = spec_frame(buf@).0;
                    let r = spec_frame(buf@).1;
                    assert(views(old_packets) + (seq![pv] + qs) =~= views(packets@) + qs);
                    match r {
                        Ok((c, n)) => {},
                        Err(e) => {},
                    }
                    assert(shift_outcome(shift_outcome(r, packet_size as nat), (consumed
                        - packet_size) as nat) == shift_outcome(r, consumed as nat));
                }
            },
            Err(DecodeError::Incomplete) => {
                assert(false);
                return (packets, Ok((consumed, MIN_PACKET_HEADER_SIZE)));
            },
            Err(e) => {
                assert(false);
                return (packets, Err(e));
            },
        }
    }
}

} // verus!

verus! {

/// Why the reading side of a link stopped.
#[derive(Debug, PartialEq, Eq, Structural)]
pub enum LinkReadError {
    /// The buffer cannot hold the incoming bytes even with its window at the front.
    BufferTooSmall { max_len: usize, incoming: usize },
    /// Appending the incoming bytes failed.
    Push(SimpleBufError),
    /// Releasing the bytes of parsed packets failed.
    Free(SimpleBufError),
    /// The stream holds a malformed packet header.
    Parse(DecodeError),
}

/// The reading side of a link: stream bytes are gathered in a buffer and cut into packets.
pub struct LinkReader {
    packet_buffer: SimpleBuf,
    need_size: usize,
}

impl LinkReader {
    /// The buffer of bytes not yet read as packets.
    pub closed spec fn buffer(&self) -> SimpleBuf {
        self.packet_buffer
    }

    /// How many buffered bytes to wait for before reading packets again.
    pub closed spec fn need(&self) -> nat {
        self.need_size as nat
    }

    /// Well-formedness of the reader.
    pub closed spec fn wf(&self) -> bool {
        &&& self.packet_buffer.wf()
        &&& self.need_size >= MIN_PACKET_HEADER_SIZE
    }

    /// A reader with an empty buffer of `stream_read_buffer_size` bytes, waiting for a header.
    pub fn new(stream_read_buffer_size: usize) -> (r: Self)
        ensures
            r.wf(),
            r.buffer().capacity() == stream_read_buffer_size,
            r.buffer().occupied_idx() == 0,
            r.buffer().vacant_idx() == 0,
            r.need() == MIN_PACKET_HEADER_SIZE,
    {
        LinkReader {
            packet_buffer: SimpleBuf::new(stream_read_buffer_size),
            need_size: MIN_PACKET_HEADER_SIZE,
        }
    }

    /// Takes the next bytes received on the stream.
    ///
    /// Makes room for them (moving the window to the front when it is shorter than `b`),
    /// appends them, and when at least `need` bytes are buffered reads every complete packet,
    /// releases their bytes and remembers the size to wait for; finally moves the window to
    /// the front when the buffer's end is reached. Gives the packets read, in order, and
    /// whether reading may go on.
    #[verifier::rlimit(50)]
    pub fn on_stream_data(&mut self, b: &[u8]) -> (r: (Vec<Packet>, Result<(), LinkReadError>))
        requires
            old(self).wf(),
        ensures
            final(self).wf(),
            final(self).buffer().capacity() == old(self).buffer().capacity(),
            r.1 is Ok ==> encode_all(views(r.0@)) + final(self).buffer().content() == old(
                self,
            ).buffer().content() + b@,
            ({
                let buf = old(self).buffer();
                let len = buf.content().len();
                let cap = buf.capacity();
                let occ1 = occupied_after_room(buf, b@.len());
                let vac1 = vacant_after_room(buf, b@.len());
                let content2 = buf.content() + b@;
                let vac2 = vac1 + b@.len();
                if !room_ok(buf, b@.len()) {
                    &&& r.0@.len() == 0
                    &&& r.1 == Err::<(), LinkReadError>(
                        LinkReadError::BufferTooSmall {
                            max_len: (cap - len) as usize,
                            incoming: b@.len() as usize,
                        },
                    )
                    &&& *final(self) == *old(self)
                } else if cap - vac1 < b@.len() {
                    &&& r.0@.len() == 0
                    &&& r.1 == Err::<(), LinkReadError>(
                        LinkReadError::Push(
                            SimpleBufError::VacantTooSmall {
                                usable: (cap - vac1) as usize,
                                need: b@.len() as usize,
                            },
                        ),
                    )
                    &&& final(self).buffer().content() == buf.content()
                    &&& final(self).buffer().occupied_idx() == occ1
                    &&& final(self).buffer().vacant_idx() == vac1
                    &&& final(self).need() == old(self).need()
                } else if content2.len() < old(self).need() {
                    &&& r.0@.len() == 0
                    &&& r.1 == Ok::<(), LinkReadError>(())
                    &&& final(self).buffer().content() == content2
                    &&& final(self).need() == old(self).need()
                    &&& if vac2 == cap {
                        final(self).buffer().occupied_idx() == 0 && final(self).buffer().vacant_idx()
                            == vac2 - occ1
                    } else {
                        final(self).buffer().occupied_idx() == occ1
                            && final(self).buffer().vacant_idx() == vac2
                    }
                } else {
                    let (ps, outcome) = spec_frame(content2);
                    &&& views(r.0@) == ps
                    &&& match outcome {
                        Err(e) => {
                            &&& r.1 == Err::<(), LinkReadError>(LinkReadError::Parse(e))
                            &&& final(self).buffer().content() == content2
                            &&& final(self).buffer().occupied_idx() == occ1
                            &&& final(self).buffer().vacant_idx() == vac2
                            &&& final(self).need() == old(self).need()
                        },
                        Ok((c, n)) => {
                            &&& r.1 == Ok::<(), LinkReadError>(())
                            &&& final(self).buffer().content() == content2.subrange(
                                c as int,
                                content2.len() as int,
                            )
                            &&& final(self).need() == n
                            &&& if vac2 == cap {
                                final(self).buffer().occupied_idx() == 0
                                    && final(self).buffer().vacant_idx() == vac2 - (occ1 + c)
                            } else {
                                final(self).buffer().occupied_idx() == occ1 + c
                                    && final(self).buffer().vacant_idx() == vac2
                            }
                        },
                    }
                }
            }),
    {
        proof {
            self.packet_buffer.lemma_wf();
        }
        if !self.packet_buffer.make_room(b.len()) {
            let max_len = self.packet_buffer.max_len();
            return (Vec::new(), Err(LinkReadError::BufferTooSmall { max_len, incoming: b.len() }));
        }
        if let Err(e) = self.packet_buffer.push_slice(b) {
            return (Vec::new(), Err(LinkReadError::Push(e)));
        }
        let mut packets: Vec<Packet> = Vec::new();
        if self.packet_buffer.len() >= self.need_size {
            let (parsed, outcome) = parse_packet_buf(self.packet_buffer.occupied_slice());
            packets = parsed;
            proof {
                law_frame(self.packet_buffer.content());
                let fr = spec_frame(self.packet_buffer.content());
                assert(fr.1 matches Ok((c, n)) ==> n >= MIN_PACKET_HEADER_SIZE && n <= FIELD24_LIMIT + REQUEST_HEADER_SIZE && c <= self.packet_buffer.content().len());
                self.packet_buffer.lemma_wf();
            }
            match outcome {
                Ok((consumed, need)) => {
                    if let Err(e) = self.packet_buffer.free(consumed) {
                        return (packets, Err(LinkReadError::Free(e)));
                    }
                    assert(need >= MIN_PACKET_HEADER_SIZE);
                    self.need_size = need;
                },
                Err(e) => {
                    return (packets, Err(LinkReadError::Parse(e)));
                },
            }
        }
        self.packet_buffer.reuse_if();
        (packets, Ok(()))
    }
}

/// The bytes of several batches of packets, batch after batch.
pub open spec fn encode_batches(batches: Seq<Seq<PacketView>>) -> Seq<u8>
    decreases batches.len(),
{
    if batches.len() == 0 {
        seq![]
    } else {
        encode_batches(batches.drop_last()) + encode_all(batches.last())
    }
}

/// Over a run of calls of `on_stream_data` that all succeed, taking `chunks[i]` with
/// `buffered[i]` held and leaving `buffered[i + 1]` after delivering `batches[i]`: the
/// packets delivered, batch after batch, followed by what is still held are the bytes held
/// at the start followed by every chunk, in order. No byte is lost, repeated or reordered.
pub proof fn law_reader_run(
    buffered: Seq<Seq<u8>>,
    batches: Seq<Seq<PacketView>>,
    chunks: Seq<Seq<u8>>,
)
    requires
        buffered.len() == chunks.len() + 1,
        batches.len() == chunks.len(),
        forall|i: int|
            0 <= i < chunks.len() ==> encode_all(#[trigger] batches[i]) + buffered[i + 1]
                == buffered[i] + chunks[i],
    ensures
        encode_batches(batches) + buffered.last() == buffered[0] + concat_chunks(chunks),
    decreases chunks.len(),
{
    if chunks.len() == 0 {
        assert(encode_batches(batches) + buffered.last() =~= buffered[0] + concat_chunks(chunks));
    } else {
        let k = chunks.len() - 1;
        let bf = buffered.take(k + 1);
        let bt = batches.take(k);
        let ch = chunks.take(k);
        assert forall|i: int| 0 <= i < ch.len() implies encode_all(#[trigger] bt[i]) + bf[i + 1]
            == bf[i] + ch[i] by {
            assert(bt[i] == batches[i]);
            assert(bf[i + 1] == buffered[i + 1]);
            assert(bf[i] == buffered[i]);
            assert(ch[i] == chunks[i]);
        }
        law_reader_run(bf, bt, ch);
        assert(batches.drop_last() =~= bt);
        assert(chunks.drop_last() =~= ch);
        assert(bf.last() == buffered[k]);
        assert(encode_all(batches[k]) + buffered[k + 1] == buffered[k] + chunks[k]);
        let left = encode_batches(bt);
        assert(encode_batches(batches) == left + encode_all(batches[k]));
        assert(concat_chunks(chunks) == concat_chunks(ch) + chunks[k]);
        assert(left + buffered[k] == buffered[0] + concat_chunks(ch));
        assert(encode_batches(batches) + buffered.last() =~= left + (encode_all(batches[k])
            + buffered[k + 1]));
        assert(left + (buffered[k] + chunks[k]) =~= (left + buffered[k]) + chunks[k]);
        assert(buffered[0] + concat_chunks(chunks) =~= (buffered[0] + concat_chunks(ch))
            + chunks[k]);
    }
}

} // verus!

verus! {

/// Reads packets from the front of `s` while more than a minimal header's worth of bytes
/// remains, stopping at an incomplete header or packet. Gives the packets read, the bytes
/// they took, and the malformed-header error that stopped reading, if any.
pub open spec fn spec_drain(s: Seq<u8>) -> (Seq<PacketView>, nat, Option<DecodeError>)
    decreases s.len(),
{
    if s.len() <= MIN_PACKET_HEADER_SIZE {
        (seq![], 0, None)
    } else {
        match spec_decode_header(s) {
            Err(DecodeError::Incomplete) => (seq![], 0, None),
            Err(e) => (seq![], 0, Some(e)),
            Ok(h) => if s.len() < h.spec_need_bytes() {
                (seq![], 0, None)
            } else {
                let n = h.spec_need_bytes();
                let p = h.with_body(s.subrange(h.header_size() as int, n as int));
                let (ps, c, e) = spec_drain(s.subrange(n as int, s.len() as int));
                (seq![p] + ps, c + n, e)
            },
        }
    }
}

/// Draining reads exactly the front of the buffer, packet after packet, in stream order: the
/// packets read, encoded one after the other, are the first `c` bytes, `c` being the number
/// of bytes consumed; each of them is well formed.
pub proof fn law_drain(s: Seq<u8>)
    ensures
        ({
            let (ps, c, e) = spec_drain(s);
            &&& c <= s.len()
            &&& forall|i: int| 0 <= i < ps.len() ==> well_formed(#[trigger] ps[i])
            &&& encode_all(ps) == s.subrange(0, c as int)
        }),
    decreases s.len(),
{
    assert(encode_all(seq![]) == Seq::<u8>::empty());
    assert(s.subrange(0, 0) =~= Seq::<u8>::empty());
    if s.len() > MIN_PACKET_HEADER_SIZE {
        if let Ok(h) = spec_decode_header(s) {
            if s.len() >= h.spec_need_bytes() {
                law_header_needs_packet(s);
                law_encode_decode(s);
                let (p, n) = spec_decode_packet(s)->Ok_0;
                let t = s.subrange(n as int, s.len() as int);
                law_drain(t);
                let (qs, k, e) = spec_drain(t);
                let ps = seq![p] + qs;
                assert(spec_drain(s) == (ps, k + n, e));
                assert(ps[0] == p);
                assert(ps.subrange(1, ps.len() as int) =~= qs);
                assert(encode_all(ps) == spec_encode(p) + encode_all(qs));
                assert forall|i: int| 0 <= i < ps.len() implies well_formed(#[trigger] ps[i]) by {
                    if i > 0 {
                        assert(ps[i] == qs[i - 1]);
                    }
                }
                assert(s.subrange(0, (n + k) as int) =~= s.subrange(0, n as int) + t.subrange(
                    0,
                    k as int,
                ));
            }
        }
    }
}

proof fn lemma_drain_prefix(buf: Seq<u8>, size: nat)
    requires
        size <= buf.len(),
    ensures
        encode_all(spec_drain(buf.subrange(0, size as int)).0) == buf.subrange(
            0,
            spec_drain(buf.subrange(0, size as int)).1 as int,
        ),
{
    let s = buf.subrange(0, size as int);
    law_drain(s);
    let c = spec_drain(s).1;
    assert(s.subrange(0, c as int) =~= buf.subrange(0, c as int));
}

proof fn lemma_drain_bound(s: Seq<u8>)
    ensures
        spec_drain(s).1 <= s.len(),
    decreases s.len(),
{
    if s.len() > MIN_PACKET_HEADER_SIZE {
        if let Ok(h) = spec_decode_header(s) {
            if s.len() >= h.spec_need_bytes() {
                law_header_needs_packet(s);
                lemma_drain_bound(s.subrange(h.spec_need_bytes() as int, s.len() as int));
            }
        }
    }
}

/// Reads the packets held in `packet_buf[..packet_size]` while more than a minimal header
/// remains, and moves the unread rest to the front of `packet_buf`.
///
/// `packet_size` always loses the bytes of the packets read. On a malformed header the
/// error is returned, the packets read before it are dropped and `packet_buf` is left as it
/// was.
pub fn parse_and_compact_packet_buf(packet_size: &mut usize, packet_buf: &mut [u8]) -> (r: Result<
    Vec<Packet>,
    DecodeError,
>)
    requires
        *old(packet_size) <= old(packet_buf)@.len(),
    ensures
        ({
            let s = old(packet_buf)@.subrange(0, *old(packet_size) as int);
            let (ps, c, err) = spec_drain(s);
            &&& *final(packet_size) == *old(packet_size) - c
            &&& match err {
                Some(e) => {
                    &&& r == Err::<Vec<Packet>, DecodeError>(e)
                    &&& final(packet_buf)@ == old(packet_buf)@
                },
                None => {
                    &&& r matches Ok(v) && views(v@) == ps
                    &&& encode_all(ps) == old(packet_buf)@.subrange(0, c as int)
                    &&& final(packet_buf)@ == old(packet_buf)@.subrange(
                        c as int,
                        *old(packet_size) as int,
                    ) + old(packet_buf)@.subrange(
                        *final(packet_size) as int,
                        old(packet_buf)@.len() as int,
                    )
                },
            }
        }),
{
    let ghost input = packet_buf@.subrange(0, *packet_size as int);
    if *packet_size <= MIN_PACKET_HEADER_SIZE {
        proof {
            lemma_drain_prefix(packet_buf@, *packet_size as nat);
        }
        assert(packet_buf@.subrange(0, *packet_size as int) + packet_buf@.subrange(
            *packet_size as int,
            packet_buf@.len() as int,
        ) =~= packet_buf@);
        return Ok(Vec::new());
    }
    let ghost original = packet_buf@;
    let ghost old_size = *packet_size;
    let mut parsed_packets: Vec<Packet> = Vec::new();
    let mut total_consumed_bytes: usize = 0;
    let mut wait_parse_packet_buf = vstd::slice::slice_subrange(&*packet_buf, 0, *packet_size);
    proof {
        lemma_drain_bound(input);
    }
    while *packet_size > MIN_PACKET_HEADER_SIZE
        invariant
            original == old(packet_buf)@,
            old_size == *old(packet_size),
            old_size <= original.len(),
            input == original.subrange(0, old_size as int),
            total_consumed_bytes + *packet_size == old_size,
            wait_parse_packet_buf@ == input.subrange(total_consumed_bytes as int, old_size as int),
            ({
                let (ps, c, e) = spec_drain(input);
                let (qs, d, f) = spec_drain(wait_parse_packet_buf@);
                &&& ps == views(parsed_packets@) + qs
                &&& c == total_consumed_bytes + d
                &&& e == f
            }),
        ensures
            spec_drain(wait_parse_packet_buf@).0.len() == 0,
            spec_drain(wait_parse_packet_buf@).1 == 0,
            spec_drain(wait_parse_packet_buf@).2 is None,
        decreases *packet_size,
    {
        proof {
            law_header_needs_packet(wait_parse_packet_buf@);
        }
        match PacketHeader::from_bytes(wait_parse_packet_buf) {
            Ok((_, header)) => {
                let need_size = header.need_bytes();
                if *packet_size < need_size {
                    break;
                }
            },
            Err(DecodeError::Incomplete) => {
                break;
            },
            Err(e) => {
                return Err(e);
            },
        }
        match Packet::from_bytes(wait_parse_packet_buf) {
            Ok((rest, packet)) => {
                proof {
                    lemma_frame_step(wait_parse_packet_buf@);
                }
                let consumed_bytes = packet.total_bytes();
                let ghost pv = packet@;
                let ghost before = parsed_packets@;
                parsed_packets.push(packet);
                *packet_size = *packet_size - consumed_bytes;
                total_consumed_bytes = total_consumed_bytes + consumed_bytes;
                wait_parse_packet_buf = rest;
                proof {
                    assert(views(parsed_packets@) =~= views(before).push(pv));
                    assert(wait_parse_packet_buf@ =~= input.subrange(
                        total_consumed_bytes as int,
                        old_size as int,
                    ));
                    let qs = spec_drain(wait_parse_packet_buf@).0;
                    assert(views(before) + (seq![pv] + qs) =~= views(parsed_packets@) + qs);
                }
            },
            Err(DecodeError::Incomplete) => {
                break;
            },
            Err(e) => {
                return Err(e);
            },
        }
    }
    if total_consumed_bytes != 0 {
        let mut idx: usize = 0;
        while idx < *packet_size
            invariant
                total_consumed_bytes + *packet_size == old_size,
                old_size <= original.len(),
                packet_buf@.len() == original.len(),
                0 <= idx <= *packet_size,
                forall|k: int|
                    0 <= k < original.len() ==> #[trigger] packet_buf@[k] == if k < idx {
                        original[k + total_consumed_bytes]
                    } else {
                        original[k]
                    },
            decreases *packet_size - idx,
        {
            let x = packet_buf[idx + total_consumed_bytes];
            packet_buf[idx] = x;
            idx = idx + 1;
        }
    }
    assert(packet_buf@ =~= original.subrange(total_consumed_bytes as int, old_size as int)
        + original.subrange(*packet_size as int, original.len() as int));
    proof {
        lemma_drain_prefix(original, old_size as nat);
    }
    Ok(parsed_packets)
}

} // verus!
