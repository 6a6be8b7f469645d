use nom_wasm::error::{Error, ErrorCause, ImportComponent, InvalidTag};
use nom_wasm::index::TypeIdx;
use nom_wasm::input::AsInput;
use nom_wasm::module::custom::{CustomSection, CUSTOM_SECTION_ID};
use nom_wasm::module::import_sec::ImportParser;
use nom_wasm::module::module_section_sequence::ModuleSectionSequence;
use nom_wasm::module::preamble;
use nom_wasm::module::{
    parse_binary_sections, Import, ImportDesc, ImportSec, Module, ModuleSection, ModuleSectionId,
    ModuleSectionOrder, TypeSec,
};
use nom_wasm::ordering::OrderingError;
use nom_wasm::section::Section;
use nom_wasm::types::{FuncType, GlobalType, Mutability, ValType};

const PREAMBLE: [u8; 8] = [0x00, 0x61, 0x73, 0x6D, 0x01, 0x00, 0x00, 0x00];
const TYPE_SECTION: [u8; 8] = [0x01, 0x06, 0x01, 0x60, 0x01, 0x7F, 0x01, 0x7F];
const IMPORT_SECTION: [u8; 11] = [0x02, 0x09, 0x01, 0x03, b'e', b'n', b'v', 0x01, b'f', 0x00, 0x00];
const CUSTOM_SECTION: [u8; 6] = [0x00, 0x04, 0x03, b'a', b'b', b'c'];

fn module_bytes(sections: &[&[u8]]) -> Vec<u8> {
    let mut bytes = PREAMBLE.to_vec();
    for s in sections {
        bytes.extend_from_slice(s);
    }
    bytes
}

#[test]
fn preamble_magic() {
    let (rest, ()) = preamble::magic::<Error>(&PREAMBLE).unwrap();
    assert_eq!(rest, &PREAMBLE[4..]);
    let bad: &[u8] = b"\0asX";
    let e = preamble::magic::<Error>(bad).unwrap_err();
    match e.cause {
        ErrorCause::PreambleMagic(m) => assert_eq!(m.value(), bad),
        other => panic!("unexpected cause {other:?}"),
    }
    let e = preamble::magic::<Error>(&[0x00, 0x61]).unwrap_err();
    match e.cause {
        ErrorCause::PreambleMagic(m) => assert_eq!(m.value(), &[0x00, 0x61]),
        other => panic!("unexpected cause {other:?}"),
    }
}

#[test]
fn preamble_version() {
    let (rest, ()) = preamble::parse::<Error>(&PREAMBLE).unwrap();
    assert!(rest.is_empty());
    let v2: &[u8] = &[0x00, 0x61, 0x73, 0x6D, 0x02, 0x00, 0x00, 0x00];
    let e = preamble::parse::<Error>(v2).unwrap_err();
    assert_eq!(e.cause, ErrorCause::PreambleVersion(Some(2)));
    assert_eq!(e.input, &v2[4..]);
    let e = preamble::parse::<Error>(&PREAMBLE[..6]).unwrap_err();
    assert_eq!(e.cause, ErrorCause::PreambleVersion(None));
    let (rest, version) = preamble::parse_any::<Error>(v2).unwrap();
    assert_eq!(version, [0x02, 0x00, 0x00, 0x00]);
    assert!(rest.is_empty());
    let e = preamble::parse_any::<Error>(&PREAMBLE[..7]).unwrap_err();
    assert_eq!(e.cause, ErrorCause::PreambleVersion(None));
}

#[test]
fn custom_section() {
    let contents: &[u8] = &[0x03, b'a', b'b', b'c', 0x01, 0x02];
    let c = CustomSection::parse::<Error>(contents).unwrap();
    assert_eq!(c.name, "abc");
    assert_eq!(c.contents, &[0x01, 0x02]);
    let section = Section::new(CUSTOM_SECTION_ID, contents);
    assert_eq!(CustomSection::interpret_section::<Error>(&section).unwrap().unwrap(), c);
    let other = Section::new(1, contents);
    assert!(CustomSection::interpret_section::<Error>(&other).is_err());
}

#[test]
fn type_section() {
    let sec = TypeSec::parse::<Error>(&TYPE_SECTION[2..]).unwrap();
    assert_eq!(sec.count(), 1);
    assert_eq!(sec.as_input(), &TYPE_SECTION[3..]);
    let types = sec.parse_all_contents::<Error>().unwrap();
    assert_eq!(types, vec![FuncType { parameters: vec![ValType::I32], results: vec![ValType::I32] }]);
}

#[test]
fn type_section_trailing_bytes() {
    let sec = TypeSec::parse::<Error>(&[0x00, 0x60]).unwrap();
    let e = sec.parse_all_contents::<Error>().unwrap_err();
    assert!(matches!(e.cause, ErrorCause::Nom(_)));
}

#[test]
fn type_section_missing_type() {
    let sec = TypeSec::parse::<Error>(&[0x02, 0x60, 0x00, 0x00]).unwrap();
    let e = sec.parse_all_contents::<Error>().unwrap_err();
    assert_eq!(e.cause, ErrorCause::InvalidTag(InvalidTag::FuncType(None)));
}

#[test]
fn import_section() {
    let sec = ImportSec::parse::<Error>(&IMPORT_SECTION[2..]).unwrap();
    assert_eq!(sec.count(), 1);
    let imports = sec.parse_all_contents::<Error>().unwrap();
    assert_eq!(imports.len(), 1);
    assert_eq!(imports[0].module, "env");
    assert_eq!(imports[0].name, "f");
    assert_eq!(imports[0].desc, ImportDesc::Function(TypeIdx(0)));
}

#[test]
fn import_parser_and_descriptions() {
    let input: &[u8] = &[0x01, b'm', 0x01, b'g', 0x03, 0x7E, 0x01];
    let (rest, i) = ImportParser::default().parse::<Error>(input).unwrap();
    assert!(rest.is_empty());
    assert_eq!(i, Import::parse::<Error>(input).unwrap().1);
    assert_eq!(i.desc, ImportDesc::Global(GlobalType { value_type: ValType::I64, mutability: Mutability::Variable }));
    let bad: &[u8] = &[0x01, b'm', 0x01, b'g', 0x07];
    let e = Import::parse::<Error>(bad).unwrap_err();
    assert_eq!(e.cause, ErrorCause::InvalidTag(InvalidTag::ImportDesc(Some(7))));
    assert_eq!(e.input, &bad[4..]);
    let e = ImportDesc::parse::<Error>(&[]).unwrap_err();
    assert_eq!(e.cause, ErrorCause::InvalidTag(InvalidTag::ImportDesc(None)));
    let _ = ImportComponent::Module;
}

#[test]
fn module_section_ids() {
    assert_eq!(ModuleSectionId::new(0), Some(ModuleSectionId::Custom));
    assert_eq!(ModuleSectionId::new(1), Some(ModuleSectionId::Type));
    assert_eq!(ModuleSectionId::new(2), Some(ModuleSectionId::Import));
    assert_eq!(ModuleSectionId::new(3), None);
    for id in [ModuleSectionId::Custom, ModuleSectionId::Type, ModuleSectionId::Import] {
        assert_eq!(ModuleSectionId::new(id.to_byte()), Some(id));
        assert_eq!(ModuleSectionId::try_from_byte(id.to_byte()), Ok(id));
    }
    assert_eq!(ModuleSectionId::try_from_byte(9), Err(InvalidTag::ModuleSectionId(9)));
}

#[test]
fn module_section_interpretation() {
    let section = Section::new(1, &TYPE_SECTION[2..]);
    match ModuleSection::interpret_section::<Error>(&section).unwrap().unwrap() {
        ModuleSection::Type(t) => assert_eq!(t.count(), 1),
        other => panic!("unexpected section {other:?}"),
    }
    let unknown = Section::new(7, &[]);
    assert!(ModuleSection::interpret_section::<Error>(&unknown).is_err());
}

#[test]
fn module_parse() {
    let bytes = module_bytes(&[&CUSTOM_SECTION, &TYPE_SECTION, &CUSTOM_SECTION, &IMPORT_SECTION]);
    let m = Module::parse::<Error>(&bytes).unwrap();
    assert_eq!(m.type_sec.count(), 1);
    assert_eq!(m.import_sec.count(), 1);
    assert_eq!(m.import_sec.parse_all_contents::<Error>().unwrap()[0].module, "env");
}

#[test]
fn module_without_sections() {
    let m = Module::parse::<Error>(&PREAMBLE).unwrap();
    assert_eq!(m.type_sec.count(), 0);
    assert_eq!(m.import_sec.count(), 0);
}

#[test]
fn module_sections_out_of_order() {
    let bytes = module_bytes(&[&IMPORT_SECTION, &TYPE_SECTION]);
    let e = Module::parse::<Error>(&bytes).unwrap_err();
    assert_eq!(
        e.cause,
        ErrorCause::ModuleSectionOrder(OrderingError::OutOfOrder {
            next: ModuleSectionOrder::Type,
            previous: ModuleSectionOrder::Import,
        })
    );
    assert_eq!(e.input, &bytes[8 + IMPORT_SECTION.len()..]);
}

#[test]
fn module_duplicate_section() {
    let bytes = module_bytes(&[&TYPE_SECTION, &TYPE_SECTION]);
    let e = Module::parse::<Error>(&bytes).unwrap_err();
    assert_eq!(e.cause, ErrorCause::ModuleSectionOrder(OrderingError::Duplicate(ModuleSectionOrder::Type)));
}

#[test]
fn module_unknown_section() {
    let bytes = module_bytes(&[&[0x03, 0x01, 0x00]]);
    let e = Module::parse::<Error>(&bytes).unwrap_err();
    assert_eq!(e.cause, ErrorCause::InvalidTag(InvalidTag::ModuleSectionId(3)));
    assert_eq!(e.input, &bytes[8..]);
}

#[test]
fn module_bad_section_contents() {
    let bytes = module_bytes(&[&[0x01, 0x01, 0x80]]);
    let e = Module::parse::<Error>(&bytes).unwrap_err();
    assert!(matches!(e.cause, ErrorCause::Leb128 { .. }));
    assert_eq!(e.input, &bytes[10..]);
}

#[test]
fn module_bad_preamble() {
    let e = Module::parse::<Error>(b"\0asm\x02\0\0\0").unwrap_err();
    assert_eq!(e.cause, ErrorCause::PreambleVersion(Some(2)));
}

#[test]
fn module_section_sequence_tracks_order() {
    let bytes = module_bytes(&[&TYPE_SECTION, &CUSTOM_SECTION, &IMPORT_SECTION]);
    let mut seq = parse_binary_sections::<Error>(&bytes).unwrap();
    assert!(seq.ordering().previous().is_none());
    let first = seq.next::<Error>().unwrap().unwrap();
    assert_eq!(first.section().id, 1);
    assert_eq!(first.remaining_input(), &bytes[8..]);
    assert!(first.ordering().previous().is_none());
    assert!(matches!(first.to_module_section(), Some(ModuleSection::Type(_))));
    assert_eq!(seq.ordering().previous(), Some(&ModuleSectionOrder::Type));
    let second = seq.next::<Error>().unwrap().unwrap();
    assert!(matches!(second.to_module_section(), Some(ModuleSection::Custom(_))));
    assert_eq!(seq.ordering().previous(), Some(&ModuleSectionOrder::Type));
    let third = seq.next::<Error>().unwrap().unwrap();
    assert!(matches!(third.to_module_section(), Some(ModuleSection::Import(_))));
    assert_eq!(seq.ordering().previous(), Some(&ModuleSectionOrder::Import));
    assert!(seq.next::<Error>().is_none());
}

#[test]
fn module_from_sections() {
    let bytes = [TYPE_SECTION.as_slice(), IMPORT_SECTION.as_slice()].concat();
    let m = Module::from_sections::<Error>(ModuleSectionSequence::new(&bytes)).unwrap();
    assert_eq!(m.type_sec.count(), 1);
    assert_eq!(m.import_sec.count(), 1);
}

#[test]
fn module_section_order_from_id() {
    assert_eq!(ModuleSectionOrder::from_section_id(ModuleSectionId::Custom), None);
    assert_eq!(ModuleSectionOrder::from_section_id(ModuleSectionId::Type), Some(ModuleSectionOrder::Type));
    assert_eq!(ModuleSectionOrder::from_section_id(ModuleSectionId::Import), Some(ModuleSectionOrder::Import));
}

#[test]
fn module_from_sections_with_unknown_sees_every_section() {
    let unknown: &[u8] = &[0x03, 0x01, 0x00];
    let bytes = [TYPE_SECTION.as_slice(), unknown, CUSTOM_SECTION.as_slice()].concat();
    let mut ids = Vec::new();
    let m = Module::from_sections_with_unknown::<_, Error>(ModuleSectionSequence::new(&bytes), |u| {
        ids.push(u.section().id);
        Ok(())
    })
    .unwrap();
    assert_eq!(ids, vec![1, 3, 0]);
    assert_eq!(m.type_sec.count(), 1);
}

#[test]
fn module_from_sections_with_handler_error() {
    let bytes = [TYPE_SECTION.as_slice(), IMPORT_SECTION.as_slice()].concat();
    let e = Module::from_sections_with::<_, Error>(ModuleSectionSequence::new(&bytes), |m| match m {
        ModuleSection::Import(i) => Err(nom_wasm::error::ErrorSource::from_error_cause(i.as_input(), ErrorCause::TagType)),
        _ => Ok(()),
    })
    .unwrap_err();
    assert_eq!(e.cause, ErrorCause::TagType);
}

#[test]
fn module_from_sections_with_refuses_unknown() {
    let bytes: &[u8] = &[0x03, 0x01, 0x00];
    let e = Module::from_sections_with::<_, Error>(ModuleSectionSequence::new(bytes), |_| Ok(())).unwrap_err();
    assert_eq!(e.cause, ErrorCause::InvalidTag(InvalidTag::ModuleSectionId(3)));
}

#[test]
fn module_from_sections_with_custom_sees_custom_sections() {
    let bytes = [CUSTOM_SECTION.as_slice(), TYPE_SECTION.as_slice(), CUSTOM_SECTION.as_slice()].concat();
    let mut names = Vec::new();
    let m = Module::from_sections_with_custom::<_, Error>(ModuleSectionSequence::new(&bytes), |c| {
        names.push(c.name);
        Ok(())
    })
    .unwrap();
    assert_eq!(names, vec!["abc", "abc"]);
    assert_eq!(m.type_sec.count(), 1);
}

#[test]
fn module_section_sequence_functions() {
    let unknown: &[u8] = &[0x03, 0x01, 0x00];
    let bytes = [TYPE_SECTION.as_slice(), unknown, IMPORT_SECTION.as_slice()].concat();
    let mut known = Vec::new();
    let mut other = Vec::new();
    nom_wasm::module::module_section_sequence_with_unknown::<_, _, Error>(
        &bytes,
        |m, previous| {
            known.push((m.id(), previous));
            Ok(())
        },
        |_, section, previous| {
            other.push((section.id, previous));
            Ok(())
        },
    )
    .unwrap();
    assert_eq!(
        known,
        vec![
            (ModuleSectionId::Type, Some(ModuleSectionOrder::Type)),
            (ModuleSectionId::Import, Some(ModuleSectionOrder::Import)),
        ]
    );
    assert_eq!(other, vec![(3, Some(ModuleSectionOrder::Type))]);
    let e = nom_wasm::module::module_section_sequence::<_, Error>(&bytes, |_, _| Ok(())).unwrap_err();
    assert_eq!(e.cause, ErrorCause::InvalidTag(InvalidTag::ModuleSectionId(3)));
    assert!(nom_wasm::module::module_section_sequence::<_, Error>(&TYPE_SECTION, |_, _| Ok(())).is_ok());
}

#[test]
fn type_section_appends_to_destination() {
    let sec = TypeSec::parse::<Error>(&[0x02, 0x60, 0x00, 0x00, 0x60, 0x01, 0x7E, 0x00]).unwrap();
    let existing = FuncType { parameters: vec![], results: vec![ValType::F64] };
    let mut destination = vec![existing.clone()];
    sec.parse_all_contents_with::<_, Error>(&mut destination).unwrap();
    assert_eq!(
        destination,
        vec![
            existing,
            FuncType { parameters: vec![], results: vec![] },
            FuncType { parameters: vec![ValType::I64], results: vec![] },
        ]
    );
    let bad = TypeSec::parse::<Error>(&[0x02, 0x60, 0x00, 0x00, 0x61]).unwrap();
    let mut partial: Vec<FuncType> = Vec::new();
    let e = bad.parse_all_contents_with::<_, Error>(&mut partial).unwrap_err();
    assert_eq!(e.cause, ErrorCause::InvalidTag(InvalidTag::FuncType(Some(0x61))));
    assert_eq!(partial.len(), 1);
}

#[test]
fn module_section_sequence_error_is_last() {
    let bytes = [IMPORT_SECTION.as_slice(), TYPE_SECTION.as_slice(), CUSTOM_SECTION.as_slice()].concat();
    let mut seq = ModuleSectionSequence::new(&bytes);
    assert!(seq.next::<Error>().unwrap().is_ok());
    let e = seq.next::<Error>().unwrap().unwrap_err();
    assert!(matches!(e.cause, ErrorCause::ModuleSectionOrder(_)));
    assert!(seq.next::<Error>().is_none());
}

#[test]
fn module_section_sequence_of_nothing_calls_no_closure() {
    let empty: &[u8] = &[];
    let mut calls = 0;
    let r = nom_wasm::module::module_section_sequence_with_unknown::<_, _, Error>(
        empty,
        |_, _| {
            calls += 1;
            Err(nom_wasm::error::ErrorSource::from_error_cause(empty, ErrorCause::TagType))
        },
        |input, _, _| Err(nom_wasm::error::ErrorSource::from_error_cause(input, ErrorCause::TagType)),
    );
    assert!(r.is_ok());
    assert_eq!(calls, 0);
    let r = nom_wasm::module::module_section_sequence::<_, Error>(empty, |_, _| {
        Err(nom_wasm::error::ErrorSource::from_error_cause(empty, ErrorCause::TagType))
    });
    assert!(r.is_ok());
}
