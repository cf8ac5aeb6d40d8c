//! The wire format of link packets.
//!
//! Every packet starts with one byte holding, from the most significant bit,
//! the packet type (2 bits: request 0, response 1, push 2), the reserved field
//! (2 bits) and the command code (4 bits). Then come, big-endian:
//! request: id (24 bits), timeout (8 bits), body length (24 bits), body;
//! response: id (24 bits), status (8 bits), body length (24 bits), body;
//! push: message type (8 bits), body length (24 bits), body.
//! Fields are read in that order; reading stops at the first field that is
//! missing (incomplete input) or holds an unknown code.
use vstd::prelude::*;
use crate::packets::{
    law_codes_roundtrip, Command, MsgType, Packet, PacketHeader, PacketView, Push, PushHeader,
    Request, RequestHeader, Response, ResponseHeader, ResponseStatus, FIELD24_LIMIT,
    REQUEST_HEADER_SIZE,
};

verus! {

/// Why bytes could not be read as a packet.
#[derive(Clone, Copy, Debug, PartialEq, Eq, Structural)]
pub enum DecodeError {
    /// The input ends before the packet does.
    Incomplete,
    /// The 2-bit packet type is 3.
    UnknownPacketType(u8),
    /// The 4-bit command code names no command.
    UnknownCommand(u8),
    /// The message type byte names no message type.
    UnknownMsgType(u8),
    /// The status byte names no status.
    UnknownStatus(u8),
}

/// Why a packet could not be written: a field does not fit its bit width.
#[derive(Clone, Copy, Debug, PartialEq, Eq, Structural)]
pub enum EncodeError {
    /// `reserved` is 4 or more (2-bit field).
    ReservedTooWide,
    /// The command code is 16 or more (4-bit field).
    CommandTooWide,
    /// `id` is 2^24 or more (24-bit field).
    IdTooWide,
    /// `body_len` is 2^24 or more (24-bit field).
    BodyLenTooWide,
}

/// Big-endian bytes of the low 24 bits of `v`.
pub open spec fn be24(v: u32) -> Seq<u8> {
    seq![(v / 0x10000) as u8, ((v / 0x100) % 0x100) as u8, (v % 0x100) as u8]
}

/// The value of three big-endian bytes.
pub open spec fn be24_value(a: u8, b: u8, c: u8) -> u32 {
    (a * 0x10000 + b * 0x100 + c) as u32
}

/// The first byte of a packet: type, reserved field and command code.
pub open spec fn lead_byte(packet_type: u8, reserved: u8, command: Command) -> u8 {
    (packet_type * 64 + reserved * 16 + command.spec_code()) as u8
}

/// The first field that does not fit its width, in wire order, if any.
pub open spec fn spec_encode_error(p: PacketView) -> Option<EncodeError> {
    match p {
        PacketView::Request(r) => if r.reserved >= 4 {
            Some(EncodeError::ReservedTooWide)
        } else if r.command.spec_code() >= 16 {
            Some(EncodeError::CommandTooWide)
        } else if r.id >= FIELD24_LIMIT {
            Some(EncodeError::IdTooWide)
        } else if r.body_len >= FIELD24_LIMIT {
            Some(EncodeError::BodyLenTooWide)
        } else {
            None
        },
        PacketView::Response(r) => if r.reserved >= 4 {
            Some(EncodeError::ReservedTooWide)
        } else if r.command.spec_code() >= 16 {
            Some(EncodeError::CommandTooWide)
        } else if r.id >= FIELD24_LIMIT {
            Some(EncodeError::IdTooWide)
        } else if r.body_len >= FIELD24_LIMIT {
            Some(EncodeError::BodyLenTooWide)
        } else {
            None
        },
        PacketView::Push(p) => if p.reserved >= 4 {
            Some(EncodeError::ReservedTooWide)
        } else if p.command.spec_code() >= 16 {
            Some(EncodeError::CommandTooWide)
        } else if p.body_len >= FIELD24_LIMIT {
            Some(EncodeError::BodyLenTooWide)
        } else {
            None
        },
    }
}

/// The header bytes of a packet.
pub open spec fn spec_encode_header(h: PacketHeader) -> Seq<u8> {
    match h {
        PacketHeader::Request(r) => seq![lead_byte(0, r.reserved, r.command)] + be24(r.id) + seq![
            r.timeout,
        ] + be24(r.body_len),
        PacketHeader::Response(r) => seq![lead_byte(1, r.reserved, r.command)] + be24(r.id)
            + seq![r.status.spec_code()] + be24(r.body_len),
        PacketHeader::Push(p) => seq![lead_byte(2, p.reserved, p.command), p.msg_type.spec_code()]
            + be24(p.body_len),
    }
}

/// The bytes of a packet: its header followed by its whole body.
pub open spec fn spec_encode(p: PacketView) -> Seq<u8> {
    spec_encode_header(p.header()) + p.body()
}

/// A packet whose fields all fit and whose body length field tells the truth.
pub open spec fn well_formed(p: PacketView) -> bool {
    &&& spec_encode_error(p) is None
    &&& p.body_len() == p.body().len()
}

/// Reads a header from the front of `s`, field by field.
pub open spec fn spec_decode_header(s: Seq<u8>) -> Result<PacketHeader, DecodeError> {
    if s.len() < 1 {
        Err(DecodeError::Incomplete)
    } else {
        let b0 = s[0];
        let packet_type = b0 / 64;
        let reserved = (b0 / 16) % 4;
        let code = b0 % 16;
        if packet_type == 3 {
            Err(DecodeError::UnknownPacketType(packet_type))
        } else {
            match Command::spec_from_code(code) {
                None => Err(DecodeError::UnknownCommand(code)),
                Some(command) => if packet_type == 0 {
                    if s.len() < 8 {
                        Err(DecodeError::Incomplete)
                    } else {
                        Ok(
                            PacketHeader::Request(
                                RequestHeader {
                                    reserved,
                                    command,
                                    id: be24_value(s[1], s[2], s[3]),
                                    timeout: s[4],
                                    body_len: be24_value(s[5], s[6], s[7]),
                                },
                            ),
                        )
                    }
                } else if packet_type == 1 {
                    if s.len() < 5 {
                        Err(DecodeError::Incomplete)
                    } else {
                        match ResponseStatus::spec_from_code(s[4]) {
                            None => Err(DecodeError::UnknownStatus(s[4])),
                            Some(status) => if s.len() < 8 {
                                Err(DecodeError::Incomplete)
                            } else {
                                Ok(
                                    PacketHeader::Response(
                                        ResponseHeader {
                                            reserved,
                                            command,
                                            id: be24_value(s[1], s[2], s[3]),
                                            status,
                                            body_len: be24_value(s[5], s[6], s[7]),
                                        },
                                    ),
                                )
                            },
                        }
                    }
                } else {
                    if s.len() < 2 {
                        Err(DecodeError::Incomplete)
                    } else {
                        match MsgType::spec_from_code(s[1]) {
                            None => Err(DecodeError::UnknownMsgType(s[1])),
                            Some(msg_type) => if s.len() < 5 {
                                Err(DecodeError::Incomplete)
                            } else {
                                Ok(
                                    PacketHeader::Push(
                                        PushHeader {
                                            reserved,
                                            command,
                                            msg_type,
                                            body_len: be24_value(s[2], s[3], s[4]),
                                        },
                                    ),
                                )
                            },
                        }
                    }
                },
            }
        }
    }
}

/// Reads a whole packet from the front of `s`: the packet and the number of bytes it took.
pub open spec fn spec_decode_packet(s: Seq<u8>) -> Result<(PacketView, nat), DecodeError> {
    match spec_decode_header(s) {
        Err(e) => Err(e),
        Ok(h) => if s.len() < h.spec_need_bytes() {
            Err(DecodeError::Incomplete)
        } else {
            Ok(
                (
                    h.with_body(s.subrange(h.header_size() as int, h.spec_need_bytes() as int)),
                    h.spec_need_bytes(),
                ),
            )
        },
    }
}

proof fn lemma_be24_roundtrip(v: u32)
    requires
        v < FIELD24_LIMIT,
    ensures
        be24(v).len() == 3,
        be24_value(be24(v)[0], be24(v)[1], be24(v)[2]) == v,
{
    let a = v / 0x10000;
    let b = (v / 0x100) % 0x100;
    let c = v % 0x100;
    assert(a < 0x100);
    assert(a * 0x10000 + b * 0x100 + c == v) by (nonlinear_arith)
        requires
            a == v / 0x10000,
            b == (v / 0x100) % 0x100,
            c == v % 0x100,
    ;
}

proof fn lemma_be24_value_roundtrip(a: u8, b: u8, c: u8)
    ensures
        be24_value(a, b, c) < FIELD24_LIMIT,
        be24(be24_value(a, b, c)) == seq![a, b, c],
{
    let v: int = a * 0x10000 + b * 0x100 + c;
    assert(v < 0x100_0000);
    assert(v / 0x10000 == a && (v / 0x100) % 0x100 == b && v % 0x100 == c) by (nonlinear_arith)
        requires
            v == a * 0x10000 + b * 0x100 + c,
            0 <= a < 256,
            0 <= b < 256,
            0 <= c < 256,
    ;
    assert(be24(be24_value(a, b, c)) =~= seq![a, b, c]);
}

proof fn lemma_lead_byte(packet_type: u8, reserved: u8, command: Command)
    requires
        packet_type < 3,
        reserved < 4,
        command.spec_code() < 16,
    ensures
        lead_byte(packet_type, reserved, command) / 64 == packet_type,
        (lead_byte(packet_type, reserved, command) / 16) % 4 == reserved,
        lead_byte(packet_type, reserved, command) % 16 == command.spec_code(),
{
    let c = command.spec_code();
    let v: int = packet_type * 64 + reserved * 16 + c;
    assert(v / 64 == packet_type && (v / 16) % 4 == reserved && v % 16 == c) by (nonlinear_arith)
        requires
            v == packet_type * 64 + reserved * 16 + c,
            0 <= packet_type < 3,
            0 <= reserved < 4,
            0 <= c < 16,
    ;
}

proof fn lemma_lead_byte_split(b0: u8)
    requires
        b0 / 64 < 3,
    ensures
        b0 == (b0 / 64) * 64 + ((b0 / 16) % 4) * 16 + b0 % 16,
{
    assert(b0 == (b0 / 64) * 64 + ((b0 / 16) % 4) * 16 + b0 % 16) by (nonlinear_arith)
        requires
            0 <= b0 < 256,
    ;
}

/// Reading back what was written gives the packet back, whatever bytes follow it.
pub proof fn law_decode_encode(p: PacketView, rest: Seq<u8>)
    requires
        well_formed(p),
    ensures
        spec_decode_packet(spec_encode(p) + rest) == Ok::<(PacketView, nat), DecodeError>(
            (p, spec_encode(p).len()),
        ),
        spec_encode(p).len() == p.total_bytes(),
{
    law_codes_roundtrip();
    let s = spec_encode(p) + rest;
    match p {
        PacketView::Request(r) => {
            lemma_lead_byte(0, r.reserved, r.command);
            lemma_be24_roundtrip(r.id);
            lemma_be24_roundtrip(r.body_len);
            let hs = spec_encode_header(p.header());
            assert(hs.len() == 8);
            assert(s[0] == hs[0]);
            assert(s[1] == be24(r.id)[0] && s[2] == be24(r.id)[1] && s[3] == be24(r.id)[2]);
            assert(s[4] == r.timeout);
            assert(s[5] == be24(r.body_len)[0] && s[6] == be24(r.body_len)[1] && s[7] == be24(
                r.body_len,
            )[2]);
            let h = spec_decode_header(s)->Ok_0;
            assert(h == p.header());
            assert(s.subrange(8, 8 + r.body_len) =~= r.body);
            assert(h.with_body(r.body) == p);
        },
        PacketView::Response(r) => {
            lemma_lead_byte(1, r.reserved, r.command);
            lemma_be24_roundtrip(r.id);
            lemma_be24_roundtrip(r.body_len);
            let hs = spec_encode_header(p.header());
            assert(hs.len() == 8);
            assert(s[0] == hs[0]);
            assert(s[1] == be24(r.id)[0] && s[2] == be24(r.id)[1] && s[3] == be24(r.id)[2]);
            assert(s[4] == r.status.spec_code());
            assert(s[5] == be24(r.body_len)[0] && s[6] == be24(r.body_len)[1] && s[7] == be24(
                r.body_len,
            )[2]);
            let h = spec_decode_header(s)->Ok_0;
            assert(h == p.header());
            assert(s.subrange(8, 8 + r.body_len) =~= r.body);
            assert(h.with_body(r.body) == p);
        },
        PacketView::Push(q) => {
            lemma_lead_byte(2, q.reserved, q.command);
            lemma_be24_roundtrip(q.body_len);
            let hs = spec_encode_header(p.header());
            assert(hs.len() == 5);
            assert(s[0] == hs[0]);
            assert(s[1] == q.msg_type.spec_code());
            assert(s[2] == be24(q.body_len)[0] && s[3] == be24(q.body_len)[1] && s[4] == be24(
                q.body_len,
            )[2]);
            let h = spec_decode_header(s)->Ok_0;
            assert(h == p.header());
            assert(s.subrange(5, 5 + q.body_len) =~= q.body);
            assert(h.with_body(q.body) == p);
        },
    }
}

/// The byte layout of a written packet. The first byte holds the packet type in its top two
/// bits (request 0, response 1, push 2), then the reserved field, then the command code in
/// the low four bits. A request continues with the id (3 bytes, big-endian), the timeout and
/// the body length (3 bytes, big-endian); a response with the id, the status code and the
/// body length; a push with the message type code and the body length. The body follows.
pub proof fn law_wire_layout(p: PacketView)
    requires
        well_formed(p),
    ensures
        ({
            let b = spec_encode(p);
            match p {
                PacketView::Request(r) => {
                    &&& b.len() == 8 + r.body.len()
                    &&& b[0] == r.reserved * 16 + r.command.spec_code()
                    &&& b[1] == r.id / 0x10000 && b[2] == (r.id / 0x100) % 0x100 && b[3] == r.id
                        % 0x100
                    &&& b[4] == r.timeout
                    &&& b[5] == r.body_len / 0x10000 && b[6] == (r.body_len / 0x100) % 0x100
                        && b[7] == r.body_len % 0x100
                    &&& b.subrange(8, b.len() as int) == r.body
                },
                PacketView::Response(r) => {
                    &&& b.len() == 8 + r.body.len()
                    &&& b[0] == 64 + r.reserved * 16 + r.command.spec_code()
                    &&& b[1] == r.id / 0x10000 && b[2] == (r.id / 0x100) % 0x100 && b[3] == r.id
                        % 0x100
                    &&& b[4] == r.status.spec_code()
                    &&& b[5] == r.body_len / 0x10000 && b[6] == (r.body_len / 0x100) % 0x100
                        && b[7] == r.body_len % 0x100
                    &&& b.subrange(8, b.len() as int) == r.body
                },
                PacketView::Push(q) => {
                    &&& b.len() == 5 + q.body.len()
                    &&& b[0] == 128 + q.reserved * 16 + q.command.spec_code()
                    &&& b[1] == q.msg_type.spec_code()
                    &&& b[2] == q.body_len / 0x10000 && b[3] == (q.body_len / 0x100) % 0x100
                        && b[4] == q.body_len % 0x100
                    &&& b.subrange(5, b.len() as int) == q.body
                },
            }
        }),
{
    let b = spec_encode(p);
    match p {
        PacketView::Request(r) => {
            assert(b.subrange(8, b.len() as int) =~= r.body);
        },
        PacketView::Response(r) => {
            assert(b.subrange(8, b.len() as int) =~= r.body);
        },
        PacketView::Push(q) => {
            assert(b.subrange(5, b.len() as int) =~= q.body);
        },
    }
}

/// Whatever is read is well formed and writes back to exactly the bytes it was read from.
pub proof fn law_encode_decode(s: Seq<u8>)
    ensures
        spec_decode_packet(s) matches Ok((p, n)) ==> {
            &&& well_formed(p)
            &&& n == p.total_bytes()
            &&& n <= s.len()
            &&& spec_encode(p) == s.subrange(0, n as int)
        },
{
    law_codes_roundtrip();
    if let Ok((p, n)) = spec_decode_packet(s) {
        let b0 = s[0];
        lemma_lead_byte_split(b0);
        let h = spec_decode_header(s)->Ok_0;
        match h {
            PacketHeader::Request(r) => {
                lemma_be24_value_roundtrip(s[1], s[2], s[3]);
                lemma_be24_value_roundtrip(s[5], s[6], s[7]);
            },
            PacketHeader::Response(r) => {
                lemma_be24_value_roundtrip(s[1], s[2], s[3]);
                lemma_be24_value_roundtrip(s[5], s[6], s[7]);
            },
            PacketHeader::Push(q) => {
                lemma_be24_value_roundtrip(s[2], s[3], s[4]);
            },
        }
        assert(p.header() == h);
        assert(spec_encode(p) =~= s.subrange(0, n as int));
    }
}

/// The header read from bytes says exactly how many bytes the whole packet takes.
pub proof fn law_header_needs_packet(s: Seq<u8>)
    ensures
        spec_decode_header(s) matches Ok(h) ==> {
            &&& h.spec_need_bytes() <= FIELD24_LIMIT + REQUEST_HEADER_SIZE
            &&& (spec_decode_packet(s) is Ok <==> s.len() >= h.spec_need_bytes())
            &&& (spec_decode_packet(s) matches Ok((p, n)) ==> n == h.spec_need_bytes() && p.header()
                == h)
        },
{
    if let Ok(h) = spec_decode_header(s) {
        match h {
            PacketHeader::Request(r) => lemma_be24_value_roundtrip(s[5], s[6], s[7]),
            PacketHeader::Response(r) => lemma_be24_value_roundtrip(s[5], s[6], s[7]),
            PacketHeader::Push(q) => lemma_be24_value_roundtrip(s[2], s[3], s[4]),
        }
    }
}

fn push_be24(out: &mut Vec<u8>, v: u32)
    requires
        v < FIELD24_LIMIT,
    ensures
        final(out)@ == old(out)@ + be24(v),
{
    out.push((v / 0x10000) as u8);
    out.push(((v / 0x100) % 0x100) as u8);
    out.push((v % 0x100) as u8);
    assert(out@ =~= old(out)@ + be24(v));
}

fn read_be24(input: &[u8], at: usize) -> (v: u32)
    requires
        at + 3 <= input@.len(),
    ensures
        v == be24_value(input@[at as int], input@[at + 1], input@[at + 2]),
        v < FIELD24_LIMIT,
{
    let a = input[at] as u32;
    let b = input[at + 1] as u32;
    let c = input[at + 2] as u32;
    a * 0x10000 + b * 0x100 + c
}

fn lead(packet_type: u8, reserved: u8, command: Command) -> (b: u8)
    requires
        packet_type < 3,
        reserved < 4,
        command.spec_code() < 16,
    ensures
        b == lead_byte(packet_type, reserved, command),
{
    packet_type * 64 + reserved * 16 + command.code()
}

fn push_body(out: &mut Vec<u8>, body: &Vec<u8>)
    ensures
        final(out)@ == old(out)@ + body@,
{
    let mut i: usize = 0;
    while i < body.len()
        invariant
            0 <= i <= body@.len(),
            out@ == old(out)@ + body@.subrange(0, i as int),
        decreases body@.len() - i,
    {
        out.push(body[i]);
        i = i + 1;
        assert(out@ =~= old(out)@ + body@.subrange(0, i as int));
    }
    assert(body@.subrange(0, body@.len() as int) =~= body@);
}

impl Packet {
    /// Writes the packet: its header fields, then its whole body.
    /// Fails on the first field, in wire order, that does not fit its width.
    pub fn to_bytes(&self) -> (r: Result<Vec<u8>, EncodeError>)
        ensures
            match spec_encode_error(self@) {
                Some(e) => r == Err::<Vec<u8>, EncodeError>(e),
                None => r matches Ok(b) && b@ == spec_encode(self@),
            },
    {
        let mut out: Vec<u8> = Vec::new();
        match self {
            Packet::Request(r) => {
                if r.reserved >= 4 {
                    return Err(EncodeError::ReservedTooWide);
                }
                if r.command.code() >= 16 {
                    return Err(EncodeError::CommandTooWide);
                }
                if r.id >= FIELD24_LIMIT {
                    return Err(EncodeError::IdTooWide);
                }
                if r.body_len >= FIELD24_LIMIT {
                    return Err(EncodeError::BodyLenTooWide);
                }
                out.push(lead(0, r.reserved, r.command));
                push_be24(&mut out, r.id);
                out.push(r.timeout);
                push_be24(&mut out, r.body_len);
                push_body(&mut out, &r.body);
            },
            Packet::Response(r) => {
                if r.reserved >= 4 {
                    return Err(EncodeError::ReservedTooWide);
                }
                if r.command.code() >= 16 {
                    return Err(EncodeError::CommandTooWide);
                }
                if r.id >= FIELD24_LIMIT {
                    return Err(EncodeError::IdTooWide);
                }
                if r.body_len >= FIELD24_LIMIT {
                    return Err(EncodeError::BodyLenTooWide);
                }
                out.push(lead(1, r.reserved, r.command));
                push_be24(&mut out, r.id);
                out.push(r.status.code());
                push_be24(&mut out, r.body_len);
                push_body(&mut out, &r.body);
            },
            Packet::Push(p) => {
                if p.reserved >= 4 {
                    return Err(EncodeError::ReservedTooWide);
                }
                if p.command.code() >= 16 {
                    return Err(EncodeError::CommandTooWide);
                }
                if p.body_len >= FIELD24_LIMIT {
                    return Err(EncodeError::BodyLenTooWide);
                }
                out.push(lead(2, p.reserved, p.command));
                out.push(p.msg_type.code());
                push_be24(&mut out, p.body_len);
                push_body(&mut out, &p.body);
            },
        }
        assert(out@ =~= spec_encode(self@));
        Ok(out)
    }

    /// Reads one packet from the front of `input`; gives the bytes after it and the packet.
    pub fn from_bytes(input: &[u8]) -> (r: Result<(&[u8], Packet), DecodeError>)
        ensures
            match spec_decode_packet(input@) {
                Ok((p, n)) => r matches Ok((rest, q)) && q@ == p && rest@ == input@.subrange(
                    n as int,
                    input@.len() as int,
                ),
                Err(e) => r == Err::<(&[u8], Packet), DecodeError>(e),
            },
    {
        let (_, header) = PacketHeader::from_bytes(input)?;
        proof {
            law_header_needs_packet(input@);
        }
        let need = header.need_bytes();
        if input.len() < need {
            return Err(DecodeError::Incomplete);
        }
        let body = vstd::slice::slice_to_vec(
            vstd::slice::slice_subrange(input, need - (header.body_len_field() as usize), need),
        );
        let rest = vstd::slice::slice_subrange(input, need, input.len());
        let packet = match header {
            PacketHeader::Request(h) => Packet::Request(
                Request {
                    reserved: h.reserved,
                    command: h.command,
                    id: h.id,
                    timeout: h.timeout,
                    body_len: h.body_len,
                    body,
                },
            ),
            PacketHeader::Response(h) => Packet::Response(
                Response {
                    reserved: h.reserved,
                    command: h.command,
                    id: h.id,
                    status: h.status,
                    body_len: h.body_len,
                    body,
                },
            ),
            PacketHeader::Push(h) => Packet::Push(
                Push {
                    reserved: h.reserved,
                    command: h.command,
                    msg_type: h.msg_type,
                    body_len: h.body_len,
                    body,
                },
            ),
        };
        Ok((rest, packet))
    }
}

impl PacketHeader {
    /// The body length field.
    pub fn body_len_field(&self) -> (n: u32)
        ensures
            n == self.body_len(),
    {
        match self {
            PacketHeader::Request(h) => h.body_len,
            PacketHeader::Response(h) => h.body_len,
            PacketHeader::Push(h) => h.body_len,
        }
    }

    /// Reads a packet header from the front of `input`; gives the bytes after it and the header.
    pub fn from_bytes(input: &[u8]) -> (r: Result<(&[u8], PacketHeader), DecodeError>)
        ensures
            match spec_decode_header(input@) {
                Ok(h) => r matches Ok((rest, g)) && g == h && rest@ == input@.subrange(
                    h.header_size() as int,
                    input@.len() as int,
                ),
                Err(e) => r == Err::<(&[u8], PacketHeader), DecodeError>(e),
            },
    {
        if input.len() < 1 {
            return Err(DecodeError::Incomplete);
        }
        let b0 = input[0];
        let packet_type = b0 / 64;
        let reserved = (b0 / 16) % 4;
        let code = b0 % 16;
        if packet_type == 3 {
            return Err(DecodeError::UnknownPacketType(packet_type));
        }
        let command = match Command::from_code(code) {
            None => {
                return Err(DecodeError::UnknownCommand(code));
            },
            Some(c) => c,
        };
        if packet_type == 0 {
            if input.len() < 8 {
                return Err(DecodeError::Incomplete);
            }
            let id = read_be24(input, 1);
            let timeout = input[4];
            let body_len = read_be24(input, 5);
            let rest = vstd::slice::slice_subrange(input, 8, input.len());
            Ok((rest, PacketHeader::Request(RequestHeader { reserved, command, id, timeout, body_len })))
        } else if packet_type == 1 {
            if input.len() < 5 {
                return Err(DecodeError::Incomplete);
            }
            let status = match ResponseStatus::from_code(input[4]) {
                None => {
                    return Err(DecodeError::UnknownStatus(input[4]));
                },
                Some(s) => s,
            };
            if input.len() < 8 {
                return Err(DecodeError::Incomplete);
            }
            let id = read_be24(input, 1);
            let body_len = read_be24(input, 5);
            let rest = vstd::slice::slice_subrange(input, 8, input.len());
            Ok((rest, PacketHeader::Response(ResponseHeader { reserved, command, id, status, body_len })))
        } else {
            if input.len() < 2 {
                return Err(DecodeError::Incomplete);
            }
            let msg_type = match MsgType::from_code(input[1]) {
                None => {
                    return Err(DecodeError::UnknownMsgType(input[1]));
                },
                Some(m) => m,
            };
            if input.len() < 5 {
                return Err(DecodeError::Incomplete);
            }
            let body_len = read_be24(input, 2);
            let rest = vstd::slice::slice_subrange(input, 5, input.len());
            Ok((rest, PacketHeader::Push(PushHeader { reserved, command, msg_type, body_len })))
        }
    }
}

} // verus!
