use libts::ClMessage;

#[test]
fn test_convert() {
    let msg1 = ClMessage::from("test");
    let da: [u8; 4] = [b't', b'e', b's', b't'];
    assert_eq!(msg1.cap(), 62);
    assert_eq!(msg1.len(), 4);
    assert_eq!(*msg1.data(), da[..]);
    let msg2 = ClMessage::new(&da[..]);
    assert!(msg1 == msg2);
    let msg1 = ClMessage::from("tes");
    let msg1 = msg1 + b't';
    assert!(msg1 == msg2);
    let mut msg1 = ClMessage::from("te");
    msg1 += &da[2..];
    assert!(msg1 == msg2);
    let msg1 = ClMessage::from("te");
    let msg1 = msg1 + &da[2..];
    assert!(msg1 == msg2);
    assert_eq!(msg1.free_space(), 58);
}

#[test]
fn record_truncates_long_input() {
    let src: Vec<u8> = (0..100u8).collect();
    let msg = ClMessage::new(&src);
    assert_eq!(msg.len(), 62);
    assert_eq!(msg.data(), &src[..62]);
    assert_eq!(msg.free_space(), 0);
}

#[test]
fn record_full_ignores_more_bytes() {
    let src = [7u8; 62];
    let mut msg = ClMessage::new(&src);
    msg += 1u8;
    assert_eq!(msg.len(), 62);
    msg += &[1u8, 2][..];
    assert_eq!(msg.data(), &src[..]);
}

#[test]
fn record_equality_ignores_unused_bytes() {
    let mut a = ClMessage::from("abc");
    a.push(b'd');
    let b = ClMessage::new(b"abcd");
    assert!(a == b);
    assert!(a != ClMessage::new(b"abce"));
    assert!(ClMessage::empty() == ClMessage::new(b""));
}
