use nom_wasm::error::{Error, ErrorCause, LengthMismatch};
use nom_wasm::input::AsInput;
use nom_wasm::section::{Section, SectionSequence, Sequence};

#[test]
fn section_parse() {
    let input: &[u8] = &[0x01, 0x03, 0xAA, 0xBB, 0xCC, 0x02];
    let (rest, s) = Section::parse::<Error>(input).unwrap();
    assert_eq!(s, Section::new(1, &[0xAA, 0xBB, 0xCC]));
    assert_eq!(s.id, 1);
    assert_eq!(s.contents, &[0xAA, 0xBB, 0xCC]);
    assert_eq!(rest, &[0x02]);
}

#[test]
fn section_empty_contents() {
    let (rest, s) = Section::parse::<Error>(&[0x00, 0x00]).unwrap();
    assert_eq!(s.id, 0);
    assert!(s.contents.is_empty());
    assert!(rest.is_empty());
}

#[test]
fn section_missing_id() {
    let e = Section::parse::<Error>(&[]).unwrap_err();
    assert_eq!(e.cause, ErrorCause::SectionId);
}

#[test]
fn section_missing_length() {
    let input: &[u8] = &[0x01];
    let e = Section::parse::<Error>(input).unwrap_err();
    assert!(matches!(e.cause, ErrorCause::Leb128 { .. }));
    assert_eq!(e.input, &input[1..]);
}

#[test]
fn section_contents_too_short() {
    let input: &[u8] = &[0x01, 0x05, 0xAA, 0xBB];
    let e = Section::parse::<Error>(input).unwrap_err();
    assert_eq!(e.cause, ErrorCause::SectionContents(LengthMismatch { expected: 5, actual: 2 }));
    assert_eq!(e.input, &input[2..]);
}

#[test]
fn sequence_yields_sections_with_their_start() {
    let input: &[u8] = &[0x00, 0x01, 0x61, 0x05, 0x00];
    let mut seq = Sequence::new(input);
    let (start, first) = seq.next::<Error>().unwrap().unwrap();
    assert_eq!(start, input);
    assert_eq!(first, Section::new(0, &[0x61]));
    assert_eq!(seq.as_input(), &input[3..]);
    let (start, second) = seq.next::<Error>().unwrap().unwrap();
    assert_eq!(start, &input[3..]);
    assert_eq!(second, Section::new(5, &[]));
    assert!(seq.next::<Error>().is_none());
    assert!(seq.as_input().is_empty());
}

#[test]
fn sequence_stops_after_error() {
    let input: &[u8] = &[0x00, 0x01, 0x61, 0x05, 0x09];
    let mut seq = Sequence::new(input);
    assert!(seq.next::<Error>().unwrap().is_ok());
    let e = seq.next::<Error>().unwrap().unwrap_err();
    assert_eq!(e.cause, ErrorCause::SectionContents(LengthMismatch { expected: 9, actual: 0 }));
    assert!(seq.next::<Error>().is_none());
}

#[test]
fn sequence_finish() {
    assert!(Sequence::new(&[0x00, 0x00, 0x01, 0x01, 0x00]).finish::<Error>().is_ok());
    assert!(Sequence::new(&[]).finish::<Error>().is_ok());
    let e = Sequence::new(&[0x00, 0x00, 0x01]).finish::<Error>().unwrap_err();
    assert!(matches!(e.cause, ErrorCause::Leb128 { .. }));
}

#[test]
fn section_sequence_yields_sections() {
    let input: &[u8] = &[0x03, 0x02, 0x10, 0x20, 0x04, 0x00];
    let mut seq = SectionSequence::from(input);
    assert_eq!(seq.as_input(), input);
    assert_eq!(seq.next::<Error>().unwrap().unwrap(), Section::new(3, &[0x10, 0x20]));
    assert_eq!(seq.next::<Error>().unwrap().unwrap(), Section::new(4, &[]));
    assert!(seq.next::<Error>().is_none());
}

#[test]
fn section_sequence_error() {
    let mut seq = SectionSequence::from(&[0x03][..]);
    assert!(seq.next::<Error>().unwrap().is_err());
    assert!(seq.next::<Error>().is_none());
}

#[test]
fn slices_are_input() {
    let input: &[u8] = &[1, 2, 3];
    assert_eq!(input.as_input(), input);
}

#[test]
fn size_hints() {
    let input: &[u8] = &[0x00, 0x00, 0x01, 0x00, 0x02];
    let mut seq = SectionSequence::from(input);
    assert_eq!(seq.size_hint(), (1, Some(3)));
    let mut count = 0;
    while let Some(Ok(_)) = seq.next::<Error>() {
        count += 1;
    }
    assert!(count <= 3);
    assert_eq!(SectionSequence::from(&[][..]).size_hint(), (0, Some(0)));
    assert_eq!(Sequence::new(input).size_hint(), (1, None));
    assert_eq!(Sequence::new(&[]).size_hint(), (0, None));
}
