use quote_link::tokens::{mint_token, validate_token};

#[test]
fn token_round_trip() {
    let addr = [127, 0, 0, 1];
    let token = mint_token(&addr, &[9, 8, 7]);
    assert_eq!(&token[..6], b"quiche");
    assert_eq!(token, [&b"quiche"[..], &addr[..], &[9, 8, 7][..]].concat());
    assert_eq!(token.len(), 13);
    assert_eq!(validate_token(&addr, &token), Some(&[9u8, 8, 7][..]));
}

#[test]
fn token_rejections() {
    let addr = [10, 0, 0, 2];
    let token = mint_token(&addr, &[1]);
    assert_eq!(validate_token(&[10, 0, 0, 3], &token), None);
    assert_eq!(validate_token(&addr, b"quic"), None);
    assert_eq!(validate_token(&addr, b"link-rs-0123"), None);
    assert_eq!(validate_token(&addr, &token[..8]), None);
    assert_eq!(validate_token(&addr, &token[..10]), Some(&[][..]));
}
