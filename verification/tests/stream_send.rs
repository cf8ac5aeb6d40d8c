use quote_link::simple_buf::SimpleBufError;
use quote_link::stream_send::{StashError, StreamSendBuffer};

#[test]
fn unsent_tail_waits_and_is_released_in_order() {
    let mut s = StreamSendBuffer::new(8);
    assert!(s.is_empty());
    assert!(s.accept_room(5));
    // the stream took 2 of 5 bytes: the other 3 wait
    assert_eq!(s.keep_unsent(&[1, 2, 3, 4, 5], 2), Ok(()));
    assert_eq!(s.pending_slice(), &[3, 4, 5]);
    assert_eq!(s.on_sent(2), Ok(()));
    assert_eq!(s.pending_slice(), &[5]);
    assert_eq!(
        s.on_sent(2),
        Err(SimpleBufError::FreeBeyondVacant { occupied: 2, requested: 4, vacant: 3 })
    );
    assert_eq!(s.pending_slice(), &[5]);
}

#[test]
fn data_larger_than_the_room_is_dropped() {
    let mut s = StreamSendBuffer::new(4);
    assert_eq!(s.keep_unsent(&[1, 2, 3], 1), Ok(()));
    // 2 waiting, 2 more would fit, 3 would not
    assert!(s.accept_room(2));
    assert!(!s.accept_room(3));
    assert_eq!(
        s.keep_unsent(&[7, 7, 7], 0),
        Err(StashError::NoRoom { max_len: 2, incoming: 3 })
    );
    assert_eq!(s.pending_slice(), &[2, 3]);
}

#[test]
fn room_check_passes_but_vacant_area_is_short() {
    let mut s = StreamSendBuffer::new(10);
    assert_eq!(s.keep_unsent(&[0; 8], 0), Ok(()));
    assert_eq!(s.on_sent(5), Ok(()));
    // 3 bytes wait at [5, 8): a chunk of 3 passes the room check without moving them,
    // and the 2 vacant bytes cannot take it
    assert_eq!(
        s.keep_unsent(&[9, 9, 9], 0),
        Err(StashError::Push(SimpleBufError::VacantTooSmall { usable: 2, need: 3 }))
    );
    assert_eq!(s.pending_slice(), &[0, 0, 0]);
    // a chunk of 4 moves them to the front first
    assert_eq!(s.keep_unsent(&[1, 2, 3, 4], 0), Ok(()));
    assert_eq!(s.pending_slice(), &[0, 0, 0, 1, 2, 3, 4]);
}

#[test]
fn empty_buffer_keeps_anything_up_to_capacity() {
    let mut s = StreamSendBuffer::new(6);
    assert!(s.accept_room(6));
    assert_eq!(s.keep_unsent(&[1, 2, 3, 4, 5, 6], 0), Ok(()));
    assert_eq!(s.pending_slice(), &[1, 2, 3, 4, 5, 6]);
}
