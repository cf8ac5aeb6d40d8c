use quote_link::codec::{DecodeError, EncodeError};
use quote_link::packets::{
    request_id_from_counter, Command, MsgType, Packet, PacketHeader, Push, PushHeader, Request,
    Response, ResponseHeader, ResponseStatus,
};

fn response(command: Command, status: ResponseStatus, body: Vec<u8>) -> Packet {
    Packet::Response(Response {
        reserved: 0,
        command,
        id: 0x01_02_03,
        status,
        body_len: body.len() as u32,
        body,
    })
}

#[test]
fn response_bytes_and_back() {
    let p = response(Command::Auth, ResponseStatus::PermissionDenied, vec![9, 8]);
    let bytes = p.to_bytes().unwrap();
    assert_eq!(bytes, vec![0b0100_0000, 0x01, 0x02, 0x03, 6, 0, 0, 2, 9, 8]);
    let (rest, q) = Packet::from_bytes(&bytes).unwrap();
    assert!(rest.is_empty());
    assert_eq!(q, p);
    assert_eq!(p.total_bytes(), bytes.len());
}

#[test]
fn push_bytes_and_back() {
    let p = Packet::new_push(Command::CmdSubTrades, MsgType::Trade, vec![1, 2, 3, 4]);
    let bytes = p.to_bytes().unwrap();
    assert_eq!(bytes, vec![0b1000_1000, 2, 0, 0, 4, 1, 2, 3, 4]);
    let (rest, q) = Packet::from_bytes(&bytes).unwrap();
    assert!(rest.is_empty());
    assert_eq!(q, p);
    assert_eq!(p.total_bytes(), 9);
}

#[test]
fn reserved_bits_round_trip() {
    let p = Packet::Push(Push {
        reserved: 3,
        command: Command::CmdUnSubBrokers,
        msg_type: MsgType::Kline,
        body_len: 0,
        body: vec![],
    });
    let bytes = p.to_bytes().unwrap();
    assert_eq!(bytes, vec![0b1011_1101, 7, 0, 0, 0]);
    assert_eq!(Packet::from_bytes(&bytes).unwrap().1, p);
}

#[test]
fn encode_errors_in_field_order() {
    let mut r = Request {
        reserved: 4,
        command: Command::StatusNotify,
        id: 1 << 24,
        timeout: 0,
        body_len: 1 << 24,
        body: vec![],
    };
    assert_eq!(Packet::Request(r.clone()).to_bytes(), Err(EncodeError::ReservedTooWide));
    r.reserved = 0;
    assert_eq!(Packet::Request(r.clone()).to_bytes(), Err(EncodeError::CommandTooWide));
    r.command = Command::Close;
    assert_eq!(Packet::Request(r.clone()).to_bytes(), Err(EncodeError::IdTooWide));
    r.id = 7;
    assert_eq!(Packet::Request(r.clone()).to_bytes(), Err(EncodeError::BodyLenTooWide));
    r.body_len = 0;
    assert!(Packet::Request(r).to_bytes().is_ok());
}

#[test]
fn status_notify_cannot_be_written() {
    let p = response(Command::StatusNotify, ResponseStatus::Success, vec![]);
    assert_eq!(p.to_bytes(), Err(EncodeError::CommandTooWide));
}

#[test]
fn body_len_field_is_written_as_is() {
    let p = Packet::Request(Request {
        reserved: 0,
        command: Command::Heartbeat,
        id: 1,
        timeout: 5,
        body_len: 1,
        body: vec![7, 7],
    });
    assert_eq!(p.to_bytes().unwrap(), vec![1, 0, 0, 1, 5, 0, 0, 1, 7, 7]);
}

#[test]
fn decode_errors() {
    assert_eq!(Packet::from_bytes(&[]), Err(DecodeError::Incomplete));
    assert_eq!(Packet::from_bytes(&[0b1100_0000]), Err(DecodeError::UnknownPacketType(3)));
    assert_eq!(Packet::from_bytes(&[0b0000_1110]), Err(DecodeError::UnknownCommand(14)));
    assert_eq!(Packet::from_bytes(&[0b0100_0000, 0, 0, 1, 9]), Err(DecodeError::UnknownStatus(9)));
    assert_eq!(Packet::from_bytes(&[0b1000_0000, 8]), Err(DecodeError::UnknownMsgType(8)));
    assert_eq!(Packet::from_bytes(&[0b0100_0000, 0, 0, 1]), Err(DecodeError::Incomplete));
    assert_eq!(Packet::from_bytes(&[0b1000_0000]), Err(DecodeError::Incomplete));
    assert_eq!(Packet::from_bytes(&[0, 0, 0, 1, 5, 0, 0, 2, 1]), Err(DecodeError::Incomplete));
}

#[test]
fn header_needs_whole_packet() {
    let bytes = [0b0100_0001, 0, 0, 9, 0, 0, 1, 0];
    let (rest, h) = PacketHeader::from_bytes(&bytes).unwrap();
    assert!(rest.is_empty());
    assert_eq!(
        h,
        PacketHeader::Response(ResponseHeader {
            reserved: 0,
            command: Command::Heartbeat,
            id: 9,
            status: ResponseStatus::Success,
            body_len: 256,
        })
    );
    assert_eq!(h.need_bytes(), 264);
    let (_, p) = PacketHeader::from_bytes(&[0b1000_0010, 1, 0, 0, 3, 0xAA]).unwrap();
    assert_eq!(
        p,
        PacketHeader::Push(PushHeader {
            reserved: 0,
            command: Command::Close,
            msg_type: MsgType::Snapshot,
            body_len: 3,
        })
    );
    assert_eq!(p.need_bytes(), 8);
}

#[test]
fn codes() {
    assert_eq!(Command::StatusNotify.code(), 101);
    assert_eq!(Command::from_code(101), Some(Command::StatusNotify));
    assert_eq!(Command::from_code(14), None);
    assert_eq!(MsgType::OrderBookV2.code(), 6);
    assert_eq!(MsgType::from_code(8), None);
    assert_eq!(ResponseStatus::ClientInternalError.code(), 8);
    assert_eq!(ResponseStatus::from_code(2), Some(ResponseStatus::ClientTimeout));
}

#[test]
fn constructors() {
    let p = Packet::new_request(Command::CmdSubDepth, 42, vec![1, 2, 3]);
    assert_eq!(
        p,
        Packet::Request(Request {
            reserved: 0,
            command: Command::CmdSubDepth,
            id: 42,
            timeout: 5,
            body_len: 3,
            body: vec![1, 2, 3],
        })
    );
    assert_eq!(p.get_request_id(), 42);
    match Packet::new_auth(3, vec![1]) {
        Packet::Request(r) => assert_eq!(r.command, Command::Auth),
        _ => unreachable!(),
    }
    match Packet::new_heartbeat(4, vec![]) {
        Packet::Request(r) => {
            assert_eq!(r.command, Command::Heartbeat);
            let answer = Packet::new_heartbeat_response(Request { body: vec![5, 6], body_len: 2, ..r });
            assert_eq!(
                answer,
                Packet::Response(Response {
                    reserved: 0,
                    command: Command::Heartbeat,
                    id: 4,
                    status: ResponseStatus::Success,
                    body_len: 2,
                    body: vec![5, 6],
                })
            );
        }
        _ => unreachable!(),
    }
    assert_eq!(Packet::new_subscribe(Command::CmdSubBrokers, 5, vec![]).get_request_id(), 5);
    assert_eq!(Packet::new_push(Command::Auth, MsgType::Depths, vec![]).get_request_id(), 0);
}

#[test]
fn request_ids_keep_low_24_bits() {
    assert_eq!(request_id_from_counter(0x0100_0001), 1);
    assert_eq!(request_id_from_counter(0x00ff_ffff), 0x00ff_ffff);
    assert_eq!(request_id_from_counter(u32::MAX), 0x00ff_ffff);
}

#[test]
fn constructors_keep_ids_within_24_bits() {
    let p = Packet::new_request(Command::CmdSubDepth, 0x0100_0005, vec![1]);
    assert_eq!(p.get_request_id(), 5);
    assert!(p.to_bytes().is_ok());
    assert_eq!(Packet::new_auth(u32::MAX, vec![]).get_request_id(), 0x00ff_ffff);
    assert_eq!(Packet::new_subscribe(Command::CmdSubTrades, 0x0200_0000, vec![]).get_request_id(), 0);
    assert_eq!(Packet::new_heartbeat(0x0123_4567, vec![]).get_request_id(), 0x0023_4567);
}
