use quote_link::simple_buf::{SimpleBuf, SimpleBufError};

#[test]
fn push_read_free() {
    let mut buf = SimpleBuf::new(8);
    assert!(buf.is_empty());
    assert_eq!(buf.max_len(), 8);
    buf.push_slice(&[1, 2, 3]).unwrap();
    assert_eq!(buf.len(), 3);
    assert_eq!(buf.max_len(), 5);
    assert_eq!(buf.occupied_slice(), &[1, 2, 3]);
    assert_eq!(buf.vacant_slice().len(), 5);
    buf.free(2).unwrap();
    assert_eq!(buf.occupied_slice(), &[3]);
    assert_eq!(buf.max_len(), 7);
    assert_eq!(buf.vacant_slice().len(), 5);
}

#[test]
fn push_refuses_beyond_vacant_area() {
    let mut buf = SimpleBuf::new(4);
    buf.push_slice(&[1, 2, 3]).unwrap();
    assert_eq!(buf.push_slice(&[4, 5]), Err(SimpleBufError::VacantTooSmall { usable: 1, need: 2 }));
    assert_eq!(buf.occupied_slice(), &[1, 2, 3]);
}

#[test]
fn free_refuses_beyond_window() {
    let mut buf = SimpleBuf::new(4);
    buf.push_slice(&[1, 2]).unwrap();
    buf.free(1).unwrap();
    assert_eq!(
        buf.free(2),
        Err(SimpleBufError::FreeBeyondVacant { occupied: 1, requested: 3, vacant: 2 })
    );
    assert_eq!(buf.occupied_slice(), &[2]);
}

#[test]
fn reuse_moves_window_to_front() {
    let mut buf = SimpleBuf::new(6);
    buf.push_slice(&[1, 2, 3, 4, 5]).unwrap();
    buf.free(3).unwrap();
    assert_eq!(buf.vacant_slice().len(), 1);
    buf.reuse();
    assert_eq!(buf.occupied_slice(), &[4, 5]);
    assert_eq!(buf.vacant_slice(), &[3, 4, 5, 0]);
    buf.push_slice(&[6, 7, 8, 9]).unwrap();
    assert_eq!(buf.occupied_slice(), &[4, 5, 6, 7, 8, 9]);
}

#[test]
fn reuse_if_only_at_the_end() {
    let mut buf = SimpleBuf::new(3);
    buf.push_slice(&[1, 2]).unwrap();
    buf.free(1).unwrap();
    assert!(!buf.reuse_if());
    buf.push_slice(&[3]).unwrap();
    assert!(buf.reuse_if());
    assert_eq!(buf.occupied_slice(), &[2, 3]);
    assert_eq!(buf.vacant_slice().len(), 1);
}

#[test]
fn make_room_decisions() {
    let mut buf = SimpleBuf::new(6);
    buf.push_slice(&[1, 2, 3, 4, 5]).unwrap();
    buf.free(4).unwrap();
    // window of 1 is shorter than 4 and 5 free bytes would remain: moved to the front
    assert!(buf.make_room(4));
    assert_eq!(buf.vacant_slice().len(), 5);
    assert_eq!(buf.occupied_slice(), &[5]);
    // 6 more bytes cannot fit even at the front
    assert!(!buf.make_room(6));
    // a chunk no longer than the window: nothing moves
    assert!(buf.make_room(1));
    assert_eq!(buf.occupied_slice(), &[5]);
}

#[test]
fn text_form() {
    let mut buf = SimpleBuf::new(1024);
    assert_eq!(buf.to_string(), "SimpleBuf([0..0..0..1024] = 0)");
    buf.push_slice(&[0; 37]).unwrap();
    buf.free(12).unwrap();
    assert_eq!(buf.to_string(), "SimpleBuf([0..12..37..1024] = 25)");
}

#[test]
fn bytes_come_out_first_in_first_out() {
    let mut buf = SimpleBuf::new(6);
    let mut pushed: Vec<u8> = Vec::new();
    let mut freed: usize = 0;
    let mut next: u8 = 0;
    for round in 0..40usize {
        let n: u8 = (round % 3) as u8 + 1;
        let chunk: Vec<u8> = (0..n).map(|k| next.wrapping_add(k)).collect();
        if !buf.make_room(chunk.len()) || buf.push_slice(&chunk).is_err() {
            buf.reuse();
            continue;
        }
        next = next.wrapping_add(n);
        pushed.extend(&chunk);
        let release = round % 2 + 1;
        if buf.free(release).is_ok() {
            freed += release;
        }
        buf.reuse_if();
        assert_eq!(buf.occupied_slice(), &pushed[freed..]);
    }
    assert!(freed > 0);
}
