use nom_wasm::error::{Error, ErrorCause, LengthMismatch};
use nom_wasm::values::{fixed_le, name, take16, vector_length};

#[test]
fn name_ascii() {
    let input: &[u8] = &[0x05, b'h', b'e', b'l', b'l', b'o', 0xFF];
    let (rest, s) = name::<Error>(input).unwrap();
    assert_eq!(s, "hello");
    assert_eq!(rest, &[0xFF]);
}

#[test]
fn name_empty() {
    let (rest, s) = name::<Error>(&[0x00, 0x01]).unwrap();
    assert_eq!(s, "");
    assert_eq!(rest, &[0x01]);
}

#[test]
fn name_multibyte_utf8() {
    let input: &[u8] = &[0x03, 0xE2, 0x82, 0xAC];
    let (rest, s) = name::<Error>(input).unwrap();
    assert_eq!(s, "\u{20AC}");
    assert!(rest.is_empty());
}

#[test]
fn name_invalid_utf8() {
    let input: &[u8] = &[0x02, 0xC3, 0x28];
    let e = name::<Error>(input).unwrap_err();
    assert!(matches!(e.cause, ErrorCause::NameEncoding(_)));
    // The error points just after the length.
    assert_eq!(e.input, &input[1..]);
}

#[test]
fn name_too_short() {
    let input: &[u8] = &[0x04, b'a', b'b'];
    let e = name::<Error>(input).unwrap_err();
    assert_eq!(e.cause, ErrorCause::NameContents(LengthMismatch { expected: 4, actual: 2 }));
    assert_eq!(e.input, &input[1..]);
}

#[test]
fn name_missing_length() {
    let e = name::<Error>(&[]).unwrap_err();
    assert!(matches!(e.cause, ErrorCause::Leb128 { .. }));
}

#[test]
fn vector_length_reads_leb128() {
    let (rest, n) = vector_length::<Error>(&[0x80, 0x01, 0x09]).unwrap();
    assert_eq!(n, 128);
    assert_eq!(rest, &[0x09]);
}

#[test]
fn fixed_le_reads_little_endian() {
    let input: &[u8] = &[0x01, 0x02, 0x03, 0x04, 0x05];
    let (rest, v) = fixed_le(input, 4).unwrap();
    assert_eq!(v, 0x04030201);
    assert_eq!(rest, &[0x05]);
    let (rest, v) = fixed_le(input, 0).unwrap();
    assert_eq!(v, 0);
    assert_eq!(rest, input);
    let all: &[u8] = &[0xFF; 8];
    assert_eq!(fixed_le(all, 8).unwrap().1, u64::MAX);
    assert!(fixed_le(input, 8).is_none());
}

#[test]
fn take16_copies_bytes() {
    let input: Vec<u8> = (0u8..20).collect();
    let (rest, a) = take16(&input).unwrap();
    assert_eq!(&a[..], &input[..16]);
    assert_eq!(rest, &input[16..]);
    assert!(take16(&input[..15]).is_none());
}
