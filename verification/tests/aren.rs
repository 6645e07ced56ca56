use std::time;

use bytes::{Buf, Bytes, BytesMut};
use kvlr::dynint::DynInt;
use kvlr::traits::{Deserialize, Serialize};

fn test_num(number: u64) {
    let number = DynInt(number);

    let mut buf = BytesMut::with_capacity(9);
    number.serialize(&mut buf);
    assert_eq!(DynInt::deserialize(&mut buf.freeze()), Ok(number));
}

#[test]
fn dynint_it_works() {
    test_num(1);
    test_num(10);
    test_num(100);
    test_num(200);
    test_num(250);
    test_num(251);
    test_num(252);
    test_num(253);
    test_num(254);
    test_num(255);
    test_num(256);
    test_num(257);
    test_num(1000);
    test_num(65000);
    test_num(65534);
    test_num(65535);
    test_num(65536);
    test_num(65537);
    test_num(4294967294);
    test_num(4294967295);
    test_num(4294967296);
    test_num(4294967297);
    test_num(18446744073709551614);
    test_num(18446744073709551615);
}

fn test_bytes(bytes: &[u8]) {
    let mut buf = BytesMut::with_capacity(bytes.len() + 9);

    bytes.serialize(&mut buf);
    assert_eq!(Bytes::deserialize(&mut buf.freeze()).unwrap(), bytes);
}

#[test]
fn bytes_it_works() {
    test_bytes(&[]);
    test_bytes(&[0]);
    test_bytes(&[0, 1]);
    test_bytes(&[0; 10]);
    test_bytes(&[0; 10240]);
}

fn test_string(string: &str) {
    let mut buf = BytesMut::with_capacity(string.len() + 9);

    string.serialize(&mut buf);
    assert_eq!(String::deserialize(&mut buf.freeze()).unwrap(), string);
}

#[test]
fn string_it_works() {
    test_string("");
    test_string("a");
    test_string("aa");
    test_string("aaa");
    test_string("qwertyuiopasdfghjklzxcvbnm");
}

#[test]
fn mixed_tests_it_works() {
    let mut buf = BytesMut::new();

    let now = time::Instant::now();
    DynInt(1351361).serialize(&mut buf);
    [0; 10240].serialize(&mut buf);
    "Hello world!".serialize(&mut buf);
    42_i8.serialize(&mut buf);
    42424_u16.serialize(&mut buf);
    42424242_i32.serialize(&mut buf);

    println!("{:?}", now.elapsed());

    let mut read = buf.freeze();
    assert_eq!(DynInt::deserialize(&mut read), Ok(DynInt(1351361)));
    assert_eq!(Vec::<u8>::deserialize(&mut read), Ok(vec![0; 10240]));
    assert_eq!(String::deserialize(&mut read), Ok("Hello world!".to_string()));
    assert_eq!(i8::deserialize(&mut read), Ok(42));
    assert_eq!(u16::deserialize(&mut read), Ok(42424));
    assert_eq!(i32::deserialize(&mut read), Ok(42424242));
    assert_eq!(read.remaining(), 0);
}

fn encode<T: Serialize + ?Sized>(value: &T) -> Vec<u8> {
    let mut buf = BytesMut::new();
    value.serialize(&mut buf);
    buf.to_vec()
}

#[test]
fn dynint_encodings_are_exact() {
    assert_eq!(encode(&DynInt(0)), vec![0]);
    assert_eq!(encode(&DynInt(250)), vec![250]);
    assert_eq!(encode(&DynInt(251)), vec![251, 251, 0]);
    assert_eq!(encode(&DynInt(65535)), vec![251, 0xff, 0xff]);
    assert_eq!(encode(&DynInt(65536)), vec![252, 0, 0, 1, 0]);
    assert_eq!(encode(&DynInt(4294967296)), vec![253, 0, 0, 0, 0, 1, 0, 0, 0]);
    assert_eq!(encode(&DynInt(u64::MAX)), vec![253, 0xff, 0xff, 0xff, 0xff, 0xff, 0xff, 0xff, 0xff]);
}

#[test]
fn dynint_rejects_short_input() {
    let mut empty = Bytes::new();
    assert_eq!(DynInt::deserialize(&mut empty), Err(()));

    // The head byte announces a u16, but only one byte follows: the head is consumed.
    let mut short = Bytes::from(vec![251u8, 7]);
    assert_eq!(DynInt::deserialize(&mut short), Err(()));
    assert_eq!(short.remaining(), 1);

    let mut short32 = Bytes::from(vec![252u8, 1, 2, 3]);
    assert_eq!(DynInt::deserialize(&mut short32), Err(()));
    let mut short64 = Bytes::from(vec![253u8, 1, 2, 3, 4, 5, 6, 7]);
    assert_eq!(DynInt::deserialize(&mut short64), Err(()));
}

#[test]
fn dynint_leaves_what_follows() {
    let mut buf = Bytes::from(vec![251u8, 0x34, 0x12, 9, 8]);
    assert_eq!(DynInt::deserialize(&mut buf), Ok(DynInt(0x1234)));
    assert_eq!(buf.to_vec(), vec![9, 8]);
}

#[test]
fn fixed_ints_are_little_endian() {
    assert_eq!(encode(&42424_u16), vec![0xb8, 0xa5]);
    assert_eq!(encode(&-1_i8), vec![0xff]);
    assert_eq!(encode(&-2_i16), vec![0xfe, 0xff]);
    assert_eq!(encode(&0x01020304_u32), vec![4, 3, 2, 1]);
    assert_eq!(encode(&-1_i32), vec![0xff; 4]);
    assert_eq!(encode(&0x0102030405060708_u64), vec![8, 7, 6, 5, 4, 3, 2, 1]);
    assert_eq!(encode(&i64::MIN), vec![0, 0, 0, 0, 0, 0, 0, 0x80]);
    assert_eq!(encode(&200_u8), vec![200]);
}

#[test]
fn fixed_ints_roundtrip() {
    let mut buf = BytesMut::new();
    u8::MAX.serialize(&mut buf);
    i8::MIN.serialize(&mut buf);
    u16::MAX.serialize(&mut buf);
    i16::MIN.serialize(&mut buf);
    u32::MAX.serialize(&mut buf);
    i32::MIN.serialize(&mut buf);
    u64::MAX.serialize(&mut buf);
    i64::MIN.serialize(&mut buf);
    let mut read = buf.freeze();
    assert_eq!(u8::deserialize(&mut read), Ok(u8::MAX));
    assert_eq!(i8::deserialize(&mut read), Ok(i8::MIN));
    assert_eq!(u16::deserialize(&mut read), Ok(u16::MAX));
    assert_eq!(i16::deserialize(&mut read), Ok(i16::MIN));
    assert_eq!(u32::deserialize(&mut read), Ok(u32::MAX));
    assert_eq!(i32::deserialize(&mut read), Ok(i32::MIN));
    assert_eq!(u64::deserialize(&mut read), Ok(u64::MAX));
    assert_eq!(i64::deserialize(&mut read), Ok(i64::MIN));
    assert_eq!(read.remaining(), 0);
}

#[test]
fn fixed_ints_reject_short_input_without_consuming() {
    let mut buf = Bytes::from(vec![1u8, 2, 3]);
    assert_eq!(u32::deserialize(&mut buf), Err(()));
    assert_eq!(buf.remaining(), 3);
    assert_eq!(i64::deserialize(&mut buf), Err(()));
    assert_eq!(u16::deserialize(&mut buf), Ok(0x0201));
    assert_eq!(i8::deserialize(&mut buf), Ok(3));
    assert_eq!(u8::deserialize(&mut buf), Err(()));
}

#[test]
fn bool_and_unit() {
    assert_eq!(encode(&true), vec![1]);
    assert_eq!(encode(&false), vec![0]);
    assert_eq!(encode(&()), Vec::<u8>::new());
    let mut buf = Bytes::from(vec![0u8, 1, 7]);
    assert_eq!(bool::deserialize(&mut buf), Ok(false));
    assert_eq!(bool::deserialize(&mut buf), Ok(true));
    assert_eq!(<()>::deserialize(&mut buf), Ok(()));
    assert_eq!(bool::deserialize(&mut buf), Ok(true));
    assert_eq!(bool::deserialize(&mut buf), Err(()));
}

#[test]
fn byte_strings() {
    assert_eq!(encode(&[7u8, 8, 9][..]), vec![3, 7, 8, 9]);
    assert_eq!(encode(&vec![1u8; 300]).len(), 3 + 300);
    assert_eq!(encode(&vec![1u8; 300])[..3], [251, 44, 1]);

    // Reading a `Bytes` handle consumes the payload.
    let mut buf = Bytes::from(vec![2u8, 5, 6, 42]);
    let handle = Bytes::deserialize(&mut buf).unwrap();
    assert_eq!(&handle[..], &[5, 6]);
    assert_eq!(buf.to_vec(), vec![42]);

    // Values packed next to each other read back one after the other.
    let mut out = BytesMut::new();
    [1u8, 2][..].serialize(&mut out);
    [3u8][..].serialize(&mut out);
    let mut read = out.freeze();
    assert_eq!(&Bytes::deserialize(&mut read).unwrap()[..], &[1, 2]);
    assert_eq!(&Bytes::deserialize(&mut read).unwrap()[..], &[3]);
    assert_eq!(read.remaining(), 0);

    // Reading a `Vec` consumes the payload.
    let mut buf = Bytes::from(vec![2u8, 5, 6, 42]);
    assert_eq!(Vec::<u8>::deserialize(&mut buf), Ok(vec![5, 6]));
    assert_eq!(buf.to_vec(), vec![42]);

    // A length longer than what is left is an error.
    let mut buf = Bytes::from(vec![5u8, 1, 2]);
    assert!(Bytes::deserialize(&mut buf).is_err());
    let mut buf = Bytes::from(vec![5u8, 1, 2]);
    assert!(Vec::<u8>::deserialize(&mut buf).is_err());
    assert_eq!(buf.to_vec(), vec![1, 2]);
}

#[test]
fn strings_must_be_utf8() {
    assert_eq!(encode("héllo"), vec![6, b'h', 0xc3, 0xa9, b'l', b'l', b'o']);
    let mut buf = Bytes::from(vec![2u8, 0xc3, 0x28, 1]);
    assert_eq!(String::deserialize(&mut buf), Err(()));
    assert_eq!(buf.to_vec(), vec![1]);
    let mut buf = Bytes::from(vec![2u8, 0xc3, 0xa9]);
    assert_eq!(String::deserialize(&mut buf), Ok("é".to_string()));
}

#[test]
fn readers_say_when_they_can_run() {
    assert!(DynInt::can_deserialize(&Bytes::new()));
    assert!(DynInt::can_deserialize(&Bytes::from(vec![253u8])));
    assert!(!DynInt::can_deserialize(&Bytes::from(vec![254u8])));
    assert!(!Vec::<u8>::can_deserialize(&Bytes::from(vec![255u8, 1])));
    assert!(String::can_deserialize(&Bytes::from(vec![3u8])));
    assert!(u32::can_deserialize(&Bytes::from(vec![255u8])));
    assert!(bool::can_deserialize(&Bytes::new()));
}

#[test]
fn buffer_lengths() {
    let mut buf = kvlr::buf::new_write_buffer();
    assert_eq!(kvlr::buf::written_len(&buf), 0);
    DynInt(300).serialize(&mut buf);
    assert_eq!(kvlr::buf::written_len(&buf), 3);
    let read = buf.freeze();
    assert_eq!(kvlr::buf::readable_len(&read), 3);
}
