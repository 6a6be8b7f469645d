use nom_wasm::error::{Error, ErrorCause};
use nom_wasm::leb128::{leb128_s32, leb128_s64, leb128_u32, leb128_u64, Destination, InvalidEncoding};

fn leb_error(destination: Destination, reason: InvalidEncoding) -> ErrorCause {
    ErrorCause::Leb128 { destination, reason }
}

#[test]
fn u32_single_byte() {
    let input: &[u8] = &[0x00, 0xAA];
    let (rest, v) = leb128_u32::<Error>(input).unwrap();
    assert_eq!(v, 0);
    assert_eq!(rest, &[0xAA]);

    let (rest, v) = leb128_u32::<Error>(&[0x7F]).unwrap();
    assert_eq!(v, 127);
    assert!(rest.is_empty());
}

#[test]
fn u32_multiple_bytes() {
    let (rest, v) = leb128_u32::<Error>(&[0xE5, 0x8E, 0x26, 0x01]).unwrap();
    assert_eq!(v, 624485);
    assert_eq!(rest, &[0x01]);

    let (rest, v) = leb128_u32::<Error>(&[0x80, 0x01]).unwrap();
    assert_eq!(v, 128);
    assert!(rest.is_empty());
}

#[test]
fn u32_maximum() {
    let (rest, v) = leb128_u32::<Error>(&[0xFF, 0xFF, 0xFF, 0xFF, 0x0F]).unwrap();
    assert_eq!(v, u32::MAX);
    assert!(rest.is_empty());
}

#[test]
fn u32_redundant_zero_bytes() {
    let (rest, v) = leb128_u32::<Error>(&[0x85, 0x80, 0x80, 0x80, 0x00]).unwrap();
    assert_eq!(v, 5);
    assert!(rest.is_empty());
}

#[test]
fn u32_overflow() {
    let input: &[u8] = &[0xFF, 0xFF, 0xFF, 0xFF, 0x1F];
    let e = leb128_u32::<Error>(input).unwrap_err();
    assert_eq!(e.cause, leb_error(Destination::U32, InvalidEncoding::Overflow));
    assert_eq!(e.input, input);
}

#[test]
fn u32_too_wide() {
    let input: &[u8] = &[0x80, 0x80, 0x80, 0x80, 0x80, 0x00];
    let e = leb128_u32::<Error>(input).unwrap_err();
    assert_eq!(e.cause, leb_error(Destination::U32, InvalidEncoding::Overflow));
}

#[test]
fn u32_missing_continuation() {
    let input: &[u8] = &[0x80, 0x80];
    let e = leb128_u32::<Error>(input).unwrap_err();
    assert_eq!(e.cause, leb_error(Destination::U32, InvalidEncoding::NoContinuation));
    assert_eq!(e.input, input);

    let e = leb128_u32::<Error>(&[]).unwrap_err();
    assert_eq!(e.cause, leb_error(Destination::U32, InvalidEncoding::NoContinuation));
}

#[test]
fn u64_values() {
    let (_, v) = leb128_u64::<Error>(&[0xE5, 0x8E, 0x26]).unwrap();
    assert_eq!(v, 624485);
    let max: &[u8] = &[0xFF, 0xFF, 0xFF, 0xFF, 0xFF, 0xFF, 0xFF, 0xFF, 0xFF, 0x01];
    let (rest, v) = leb128_u64::<Error>(max).unwrap();
    assert_eq!(v, u64::MAX);
    assert!(rest.is_empty());
    let over: &[u8] = &[0xFF, 0xFF, 0xFF, 0xFF, 0xFF, 0xFF, 0xFF, 0xFF, 0xFF, 0x02];
    let e = leb128_u64::<Error>(over).unwrap_err();
    assert_eq!(e.cause, leb_error(Destination::U64, InvalidEncoding::Overflow));
}

#[test]
fn s32_values() {
    assert_eq!(leb128_s32::<Error>(&[0x00]).unwrap().1, 0);
    assert_eq!(leb128_s32::<Error>(&[0x7F]).unwrap().1, -1);
    assert_eq!(leb128_s32::<Error>(&[0x3F]).unwrap().1, 63);
    assert_eq!(leb128_s32::<Error>(&[0x40]).unwrap().1, -64);
    assert_eq!(leb128_s32::<Error>(&[0x80, 0x7F]).unwrap().1, -128);
    assert_eq!(leb128_s32::<Error>(&[0xC0, 0xBB, 0x78]).unwrap().1, -123456);
    assert_eq!(leb128_s32::<Error>(&[0x80, 0x80, 0x80, 0x80, 0x78]).unwrap().1, i32::MIN);
    assert_eq!(leb128_s32::<Error>(&[0xFF, 0xFF, 0xFF, 0xFF, 0x07]).unwrap().1, i32::MAX);
}

#[test]
fn s32_overflow() {
    let e = leb128_s32::<Error>(&[0x80, 0x80, 0x80, 0x80, 0x70]).unwrap_err();
    assert_eq!(e.cause, leb_error(Destination::S32, InvalidEncoding::Overflow));
    let e = leb128_s32::<Error>(&[0xFF, 0xFF, 0xFF, 0xFF, 0x0F]).unwrap_err();
    assert_eq!(e.cause, leb_error(Destination::S32, InvalidEncoding::Overflow));
    let e = leb128_s32::<Error>(&[0x80, 0x80, 0x80, 0x80, 0x80, 0x00]).unwrap_err();
    assert_eq!(e.cause, leb_error(Destination::S32, InvalidEncoding::Overflow));
}

#[test]
fn s64_values() {
    assert_eq!(leb128_s64::<Error>(&[0x7F]).unwrap().1, -1);
    let min: &[u8] = &[0x80, 0x80, 0x80, 0x80, 0x80, 0x80, 0x80, 0x80, 0x80, 0x7F];
    assert_eq!(leb128_s64::<Error>(min).unwrap().1, i64::MIN);
    let max: &[u8] = &[0xFF, 0xFF, 0xFF, 0xFF, 0xFF, 0xFF, 0xFF, 0xFF, 0xFF, 0x00];
    assert_eq!(leb128_s64::<Error>(max).unwrap().1, i64::MAX);
    let e = leb128_s64::<Error>(&[0x80]).unwrap_err();
    assert_eq!(e.cause, leb_error(Destination::S64, InvalidEncoding::NoContinuation));
}
