use libts::codec::{Deserializer, Serializer};
use libts::{from_bytes, from_msg, to_bytes, to_msg, ClMessage, Error};

#[derive(PartialEq, Debug)]
struct Test {
    b: bool,
    int: u32,
    seq: Vec<String>,
    bb: Vec<u8>,
}

#[test]
fn test_struct() {
    let j = [1u8, b'a'];
    let msg = ClMessage::new(&j[..]);
    let expected = "a".to_owned();
    assert_eq!(expected, from_msg::<String>(&msg).unwrap());
    let j = [
        0, 1u8, 0, 0, 0, 2u8, 1, b'a', 1, b'b', 4, b't', b'e', b's', b't',
    ];
    let expected = Test {
        b: false,
        int: 1,
        seq: vec!["a".to_owned(), "b".to_owned()],
        bb: b"test".to_vec(),
    };
    let (b, int, seq, bb): (bool, u32, Vec<String>, Vec<u8>) = from_bytes(&j[..]).unwrap();
    assert_eq!(expected, Test { b, int, seq, bb });
    let msg = ClMessage::new(&j[..]);
    let (b, int, seq, bb): (bool, u32, Vec<String>, Vec<u8>) = from_msg(&msg).unwrap();
    assert_eq!(expected, Test { b, int, seq, bb });
    let expected = (
        false,
        1u32,
        vec!["a".to_owned(), "b".to_owned()],
        b"test".to_vec(),
    );
    let got: (bool, u32, Vec<String>, Vec<u8>) = from_bytes(&j[..]).unwrap();
    assert_eq!(expected, got);
}

#[test]
fn codec_integers_are_little_endian() {
    assert_eq!(from_bytes::<u16>(&[0x34, 0x12]), Ok(0x1234));
    assert_eq!(from_bytes::<u32>(&[0x78, 0x56, 0x34, 0x12]), Ok(0x1234_5678));
    assert_eq!(from_bytes::<i32>(&[0xff, 0xff, 0xff, 0xff]), Ok(-1));
    assert_eq!(from_bytes::<i8>(&[0x80]), Ok(-128));
    assert_eq!(
        from_bytes::<u64>(&[1, 0, 0, 0, 0, 0, 0, 0x80]),
        Ok(0x8000_0000_0000_0001)
    );
    assert_eq!(to_bytes(&0x1234u16).unwrap(), vec![0x34, 0x12]);
    assert_eq!(to_bytes(&-2i64).unwrap(), vec![0xfe, 0xff, 0xff, 0xff, 0xff, 0xff, 0xff, 0xff]);
    let mut big = vec![0u8; 16];
    big[15] = 1;
    assert_eq!(from_bytes::<u128>(&big), Ok(1u128 << 120));
}

#[test]
fn codec_bool_is_any_nonzero() {
    assert_eq!(from_bytes::<bool>(&[0]), Ok(false));
    assert_eq!(from_bytes::<bool>(&[1]), Ok(true));
    assert_eq!(from_bytes::<bool>(&[0x7f]), Ok(true));
    assert_eq!(to_bytes(&true).unwrap(), vec![1]);
}

#[test]
fn codec_errors() {
    assert_eq!(from_bytes::<u32>(&[1, 2, 3]), Err(Error::Eof));
    assert_eq!(from_bytes::<u16>(&[1, 2, 3]), Err(Error::TrailingCharacters));
    assert_eq!(from_bytes::<String>(&[2, 0xff, 0xfe]), Err(Error::ExpectedString));
    assert_eq!(from_bytes::<String>(&[3, b'a']), Err(Error::Eof));
    assert_eq!(from_bytes::<Vec<u8>>(&[]), Err(Error::Eof));
    assert_eq!(from_bytes::<Vec<u16>>(&[2, 1, 0, 2]), Err(Error::Eof));
}

#[test]
fn codec_round_trip() {
    let v: (u8, i16, Vec<String>, u64) = (9, -300, vec!["xy".to_owned(), String::new()], 77);
    let b = to_bytes(&v).unwrap();
    assert_eq!(b, vec![9, 0xd4, 0xfe, 2, 2, b'x', b'y', 0, 77, 0, 0, 0, 0, 0, 0, 0]);
    let back: (u8, i16, Vec<String>, u64) = from_bytes(&b).unwrap();
    assert_eq!(back, v);
    let long = "x".repeat(256);
    assert!(to_bytes(&long).is_err());
}

#[test]
fn codec_to_msg_checks_room() {
    let short = to_msg(&(1u32, 2u32)).unwrap();
    assert_eq!(short.data(), &[1, 0, 0, 0, 2, 0, 0, 0]);
    let long: Vec<u8> = vec![5; 70];
    assert_eq!(to_msg(&long).err(), Some(Error::NoBufs));
}

#[test]
fn codec_cursor_primitives() {
    let input = [3u8, b'a', b'b', b'c', 9, 8];
    let mut de = Deserializer::from_bytes(&input);
    assert_eq!(de.peek_byte(), Ok(3));
    assert_eq!(de.parse_string(), Ok("abc"));
    assert_eq!(de.parse_nbytes::<2>(), Ok(&[9u8, 8][..]));
    assert_eq!(de.remaining(), 0);
    assert_eq!(de.next_byte(), Err(Error::Eof));
    let mut ser = Serializer::new();
    ser.put_u32(0x0102_0304);
    ser.put_slice(&[7, 7]);
    assert_eq!(ser.into_bytes(), vec![4, 3, 2, 1, 7, 7]);
}

#[test]
fn codec_i128_round_trip() {
    let v: i128 = -(1i128 << 100) - 7;
    let b = to_bytes(&v).unwrap();
    assert_eq!(b.len(), 16);
    assert_eq!(from_bytes::<i128>(&b), Ok(v));
}
