use quote_link::codec::DecodeError;
use quote_link::framing::{parse_and_compact_packet_buf, parse_packet_buf, LinkReadError, LinkReader};
use quote_link::packets::{Command, MsgType, Packet};
use quote_link::simple_buf::SimpleBufError;

fn stream_of(packets: &[Packet]) -> Vec<u8> {
    let mut out = Vec::new();
    for p in packets {
        out.extend(p.to_bytes().unwrap());
    }
    out
}

#[test]
fn parse_whole_packets_and_wait_for_the_rest() {
    let a = Packet::new_push(Command::CmdSubTrades, MsgType::Trade, vec![1, 2, 3]);
    let b = Packet::new_request(Command::Heartbeat, 7, vec![9; 10]);
    let mut bytes = stream_of(&[a.clone(), b.clone()]);
    let whole = bytes.len();
    // a third packet whose header is complete but whose body is not
    bytes.extend(vec![0b1000_1000, 2, 0, 0, 4, 1]);
    let (packets, outcome) = parse_packet_buf(&bytes);
    assert_eq!(packets, vec![a, b]);
    assert_eq!(outcome, Ok((whole, 9)));
}

#[test]
fn parse_stops_at_short_header_with_minimum_need() {
    let a = Packet::new_push(Command::CmdSubDepth, MsgType::Depths, vec![]);
    let mut bytes = stream_of(&[a.clone()]);
    bytes.extend(vec![0, 0, 0]);
    let (packets, outcome) = parse_packet_buf(&bytes);
    assert_eq!(packets, vec![a]);
    assert_eq!(outcome, Ok((5, 5)));
    assert_eq!(parse_packet_buf(&[]), (vec![], Ok((0, 5))));
}

#[test]
fn parse_keeps_packets_read_before_an_error() {
    let a = Packet::new_push(Command::CmdSubDepth, MsgType::Depths, vec![4]);
    let mut bytes = stream_of(&[a.clone()]);
    bytes.push(0b1100_0000);
    let (packets, outcome) = parse_packet_buf(&bytes);
    assert_eq!(packets, vec![a]);
    assert_eq!(outcome, Err(DecodeError::UnknownPacketType(3)));
}

#[test]
fn reader_across_chunks() {
    let a = Packet::new_push(Command::CmdSubTrades, MsgType::Trade, vec![1, 2, 3, 4, 5, 6]);
    let b = Packet::new_request(Command::Heartbeat, 3, vec![]);
    let bytes = stream_of(&[a.clone(), b.clone()]);
    let mut reader = LinkReader::new(64);
    let (p1, r1) = reader.on_stream_data(&bytes[..4]);
    assert!(p1.is_empty());
    assert_eq!(r1, Ok(()));
    let (p2, r2) = reader.on_stream_data(&bytes[4..13]);
    assert_eq!(p2, vec![a]);
    assert_eq!(r2, Ok(()));
    let (p3, r3) = reader.on_stream_data(&bytes[13..]);
    assert_eq!(p3, vec![b]);
    assert_eq!(r3, Ok(()));
}

#[test]
fn reader_reports_too_small_buffer() {
    let mut reader = LinkReader::new(4);
    let (p, r) = reader.on_stream_data(&[0; 5]);
    assert!(p.is_empty());
    assert_eq!(r, Err(LinkReadError::BufferTooSmall { max_len: 4, incoming: 5 }));
}

#[test]
fn reader_reports_full_vacant_area() {
    let mut reader = LinkReader::new(10);
    // a header that needs 8 + 256 bytes: nothing is consumed
    let (_, r) = reader.on_stream_data(&[0, 0, 0, 1, 5, 0, 1, 0]);
    assert_eq!(r, Ok(()));
    // 8 bytes buffered, 2 vacant, and the window is not shorter than the chunk
    let (_, r) = reader.on_stream_data(&[0, 0, 0]);
    assert_eq!(r, Err(LinkReadError::Push(SimpleBufError::VacantTooSmall { usable: 2, need: 3 })));
}

#[test]
fn reader_reports_malformed_header() {
    let mut reader = LinkReader::new(32);
    let (p, r) = reader.on_stream_data(&[0b0000_1111, 0, 0, 0, 0, 0]);
    assert!(p.is_empty());
    assert_eq!(r, Err(LinkReadError::Parse(DecodeError::UnknownCommand(15))));
}

#[test]
fn compact_moves_rest_to_front() {
    let a = Packet::new_push(Command::CmdSubTrades, MsgType::Trade, vec![1, 2]);
    let mut buf = a.to_bytes().unwrap();
    buf.extend(vec![0b1000_1000, 2, 0, 0, 9, 0xEE, 0xFF]);
    let mut size = buf.len();
    buf.push(0x42); // beyond the occupied size
    let packets = parse_and_compact_packet_buf(&mut size, &mut buf).unwrap();
    assert_eq!(packets, vec![a]);
    assert_eq!(size, 7);
    assert_eq!(&buf[..7], &[0b1000_1000, 2, 0, 0, 9, 0xEE, 0xFF]);
    assert_eq!(buf[buf.len() - 1], 0x42);
}

#[test]
fn compact_leaves_minimal_header_unread() {
    // a complete empty push is exactly 5 bytes: not read while only 5 bytes are held
    let mut buf = Packet::new_push(Command::Auth, MsgType::Trade, vec![]).to_bytes().unwrap();
    let mut size = buf.len();
    assert_eq!(parse_and_compact_packet_buf(&mut size, &mut buf), Ok(vec![]));
    assert_eq!(size, 5);
}

#[test]
fn compact_error_keeps_buffer() {
    let a = Packet::new_push(Command::CmdSubTrades, MsgType::Trade, vec![1]);
    let mut buf = a.to_bytes().unwrap();
    buf.extend(vec![0b1100_0000, 0, 0, 0, 0, 0]);
    let before = buf.clone();
    let mut size = buf.len();
    assert_eq!(
        parse_and_compact_packet_buf(&mut size, &mut buf),
        Err(DecodeError::UnknownPacketType(3))
    );
    assert_eq!(size, 6);
    assert_eq!(buf, before);
}

#[test]
fn reader_delivers_the_stream_whatever_the_chunks() {
    let sent = vec![
        Packet::new_push(Command::CmdSubTrades, MsgType::Trade, vec![1, 2, 3]),
        Packet::new_request(Command::Heartbeat, 5, vec![7; 9]),
        Packet::new_push(Command::CmdSubTrades, MsgType::Depths, vec![]),
        Packet::new_request(Command::Auth, 6, vec![8, 9]),
    ];
    let bytes = stream_of(&sent);
    for chunk in 1..=bytes.len() {
        let mut reader = LinkReader::new(64);
        let mut got = Vec::new();
        for part in bytes.chunks(chunk) {
            let (ps, r) = reader.on_stream_data(part);
            assert_eq!(r, Ok(()));
            got.extend(ps);
        }
        assert_eq!(got, sent, "chunk size {chunk}");
    }
}
