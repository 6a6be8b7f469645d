use nom_wasm::error::{
    Error, ErrorCause, ErrorKind, ErrorSource, ImportComponent, InvalidTag, MemArgComponent, VerboseError,
};
use nom_wasm::isa::{InvalidInstr, Instr, MemArg, Opcode};
use nom_wasm::module::Import;
use nom_wasm::section::Section;
use nom_wasm::index::{FuncIdx, Index, IndexParser, TypeIdx};
use nom_wasm::module::ModuleSectionOrder;
use nom_wasm::ordering::{OrderTracker, OrderingError};
use nom_wasm::storage::{DefaultHeap, Heap, Vector};

#[test]
fn order_tracker_accepts_ascending_items() {
    let mut o: OrderTracker<ModuleSectionOrder> = OrderTracker::new();
    assert!(o.previous().is_none());
    assert_eq!(o.check(ModuleSectionOrder::Type), Ok(()));
    assert_eq!(o.check(ModuleSectionOrder::Import), Ok(()));
    assert_eq!(o.check(ModuleSectionOrder::Code), Ok(()));
    assert_eq!(o.previous(), Some(&ModuleSectionOrder::Code));
}

#[test]
fn order_tracker_rejects_duplicates_and_earlier_items() {
    let mut o: OrderTracker<ModuleSectionOrder> = OrderTracker::default();
    assert_eq!(o.check(ModuleSectionOrder::Global), Ok(()));
    assert_eq!(o.check(ModuleSectionOrder::Global), Err(OrderingError::Duplicate(ModuleSectionOrder::Global)));
    assert_eq!(
        o.check(ModuleSectionOrder::Import),
        Err(OrderingError::OutOfOrder { next: ModuleSectionOrder::Import, previous: ModuleSectionOrder::Global })
    );
    // A refused item leaves the last accepted item in place.
    assert_eq!(o.previous(), Some(&ModuleSectionOrder::Global));
    assert_eq!(o.check(ModuleSectionOrder::Data), Ok(()));
}

#[test]
fn error_kinds() {
    assert_eq!(ErrorCause::SectionId.to_error_kind(), ErrorKind::Eof);
    assert_eq!(ErrorCause::InvalidTag(InvalidTag::FuncType(None)).to_error_kind(), ErrorKind::Tag);
    assert_eq!(ErrorCause::Nom(ErrorKind::Alt).to_error_kind(), ErrorKind::Alt);
    assert_eq!(ErrorCause::from_kind(ErrorKind::Verify), ErrorCause::Nom(ErrorKind::Verify));
}

#[test]
fn default_error_keeps_first_cause() {
    let input: &[u8] = &[1, 2, 3];
    let first = Error::from_error_cause(&input[1..], ErrorCause::SectionId);
    let combined = Error::append_with_cause(input, ErrorCause::SectionLength, first);
    assert_eq!(combined, first);
}

#[test]
fn verbose_error_accumulates_causes() {
    let input: &[u8] = &[1, 2, 3];
    let first = VerboseError::from_error_cause(&input[2..], ErrorCause::SectionId);
    let second = VerboseError::append_with_cause(&input[1..], ErrorCause::SectionLength, first);
    let third = VerboseError::append_with_cause(input, ErrorCause::TagType, second);
    assert_eq!(third.base().cause, ErrorCause::SectionId);
    assert_eq!(third.base().input, &input[2..]);
    let additional = third.additional();
    assert_eq!(additional.len(), 2);
    assert_eq!(additional[0].cause, ErrorCause::SectionLength);
    assert_eq!(additional[1].cause, ErrorCause::TagType);
    assert_eq!(additional[1].input, input);
}

#[test]
fn index_parser_reads_any_index() {
    let mut p = IndexParser::default();
    let (rest, f): (&[u8], FuncIdx) = p.parse::<_, Error>(&[0x81, 0x01, 0x00]).unwrap();
    assert_eq!(f, FuncIdx(129));
    assert_eq!(f.to_u32(), 129);
    assert_eq!(rest, &[0x00]);
    let (_, t): (&[u8], TypeIdx) = p.parse::<_, Error>(&[0x02]).unwrap();
    assert_eq!(t, TypeIdx::from_u32(2));
    assert_eq!(TypeIdx::name(), "type");
    let r: Result<(&[u8], TypeIdx), Error> = p.parse::<_, Error>(&[0x80]);
    assert!(r.is_err());
    assert_eq!(TypeIdx::parse::<Error>(&[0x02]).unwrap().1, t);
    let (_, g): (&[u8], FuncIdx) = <FuncIdx as Index>::parse::<Error>(&[0x03]).unwrap();
    assert_eq!(g, FuncIdx(3));
}

#[test]
fn vector_trait_on_vec() {
    let mut v: Vec<u32> = DefaultHeap.vector();
    assert!(v.is_empty());
    Vector::push(&mut v, 1);
    Vector::push(&mut v, 2);
    assert_eq!(v, vec![1, 2]);
    assert_eq!(Vector::pop(&mut v), Some(2));
    Vector::reserve(&mut v, 10);
    assert_eq!(v, vec![1]);
    Vector::clear(&mut v);
    assert_eq!(Vector::pop(&mut v), None);
    let w: Vec<u8> = DefaultHeap.vector_with_capacity(8);
    assert!(w.is_empty());
    assert!(w.capacity() >= 8);
}

#[test]
fn verbose_errors_record_enclosing_causes() {
    // A missing module name: the base error is the length of the name.
    let input: &[u8] = &[];
    let e = Import::parse::<VerboseError>(input).unwrap_err();
    assert!(matches!(e.base().cause, ErrorCause::Leb128 { .. }));
    assert_eq!(e.additional().len(), 1);
    assert_eq!(e.additional()[0].cause, ErrorCause::Import(ImportComponent::Module));

    // The default error keeps only where parsing first failed.
    let e = Import::parse::<Error>(input).unwrap_err();
    assert!(matches!(e.cause, ErrorCause::Leb128 { .. }));

    let e = MemArg::parse::<VerboseError>(&[0x02]).unwrap_err();
    assert_eq!(e.additional()[0].cause, ErrorCause::MemArg(MemArgComponent::Offset));

    let e = Section::parse::<VerboseError>(&[0x01]).unwrap_err();
    assert_eq!(e.additional()[0].cause, ErrorCause::SectionLength);

    // An argument of `memory.copy` that is missing is its destination, then the whole argument.
    let e = Instr::parse::<VerboseError>(&[0xFC, 0x0A]).unwrap_err();
    assert_eq!(
        e.additional()[0].cause,
        ErrorCause::Instr { opcode: Opcode::MemoryCopy, reason: InvalidInstr::Destination }
    );
    let e = Instr::parse::<VerboseError>(&[0x20]).unwrap_err();
    assert_eq!(e.additional()[0].cause, ErrorCause::Instr { opcode: Opcode::LocalGet, reason: InvalidInstr::Argument });
}

#[test]
fn order_tracker_of_integers_rejects_out_of_order() {
    let mut o: OrderTracker<u32> = OrderTracker::new();
    assert_eq!(o.check(1), Ok(()));
    assert_eq!(o.check(3), Ok(()));
    assert_eq!(o.check(2), Err(OrderingError::OutOfOrder { next: 2, previous: 3 }));
    assert_eq!(o.previous(), Some(&3));
}

#[test]
fn order_tracker_of_integers_rejects_duplicate() {
    let mut o: OrderTracker<u32> = OrderTracker::new();
    assert_eq!(o.check(5), Ok(()));
    assert_eq!(o.check(5), Err(OrderingError::Duplicate(5)));
    assert_eq!(o.previous(), Some(&5));
}

#[test]
fn order_tracker_of_signed_integers() {
    let mut o: OrderTracker<i64> = OrderTracker::default();
    assert_eq!(o.check(-7), Ok(()));
    assert_eq!(o.check(0), Ok(()));
    assert_eq!(o.check(-1), Err(OrderingError::OutOfOrder { next: -1, previous: 0 }));
}
