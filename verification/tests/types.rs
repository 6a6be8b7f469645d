use nom_wasm::error::{Error, ErrorCause, InvalidFlags, InvalidFlagsValue, InvalidTag};
use nom_wasm::index::TypeIdx;
use nom_wasm::leb128::Destination;
use nom_wasm::types::{
    val_types, BlockType, FuncType, GlobalType, IdxType, LimitBounds, Limits, MemType, Mutability, RefType,
    Sharing, TableType, TagType, ValType,
};

#[test]
fn val_type_bytes() {
    let cases: [(u8, ValType); 7] = [
        (0x7F, ValType::I32),
        (0x7E, ValType::I64),
        (0x7D, ValType::F32),
        (0x7C, ValType::F64),
        (0x7B, ValType::V128),
        (0x70, ValType::FuncRef),
        (0x6F, ValType::ExternRef),
    ];
    for (b, t) in cases {
        assert_eq!(ValType::from_byte(b), Some(t));
        let input = [b, 0x00];
        let (rest, parsed) = ValType::parse::<Error>(&input).unwrap();
        assert_eq!(parsed, t);
        assert_eq!(rest, &[0x00]);
    }
    assert_eq!(ValType::from_byte(0x60), None);
}

#[test]
fn val_type_rejects_block_types() {
    let e = ValType::parse::<Error>(&[0x40]).unwrap_err();
    assert_eq!(e.cause, ErrorCause::ValType(None));
    let e = ValType::parse::<Error>(&[0x05]).unwrap_err();
    assert_eq!(e.cause, ErrorCause::ValType(Some(TypeIdx(5))));
}

#[test]
fn block_types() {
    assert_eq!(BlockType::parse::<Error>(&[0x40]).unwrap().1, BlockType::Empty);
    assert_eq!(BlockType::parse::<Error>(&[0x7F]).unwrap().1, BlockType::Inline(ValType::I32));
    assert_eq!(BlockType::parse::<Error>(&[0x05]).unwrap().1, BlockType::Index(TypeIdx(5)));
    assert_eq!(BlockType::parse::<Error>(&[0x80, 0x01]).unwrap().1, BlockType::Index(TypeIdx(128)));
    let max: &[u8] = &[0xFF, 0xFF, 0xFF, 0xFF, 0x0F];
    assert_eq!(BlockType::parse::<Error>(max).unwrap().1, BlockType::Index(TypeIdx(u32::MAX)));
}

#[test]
fn block_type_errors() {
    let e = BlockType::parse::<Error>(&[]).unwrap_err();
    assert_eq!(e.cause, ErrorCause::BlockType(None));
    // A negative value that is not a value type.
    let e = BlockType::parse::<Error>(&[0x50]).unwrap_err();
    assert_eq!(e.cause, ErrorCause::BlockType(Some(-48)));
    let e = BlockType::parse::<Error>(&[0x80]).unwrap_err();
    assert!(matches!(e.cause, ErrorCause::Leb128 { destination: Destination::S64, .. }));
}

#[test]
fn ref_types() {
    assert_eq!(RefType::parse::<Error>(&[0x70]).unwrap().1, RefType::Func);
    assert_eq!(RefType::parse::<Error>(&[0x6F]).unwrap().1, RefType::Extern);
    let e = RefType::parse::<Error>(&[0x7F]).unwrap_err();
    assert_eq!(e.cause, ErrorCause::RefType(ValType::I32));
}

#[test]
fn limits_minimum_only() {
    let (rest, l) = Limits::parse::<Error>(&[0x00, 0x10, 0xAA]).unwrap();
    assert_eq!(
        l,
        Limits {
            index_type: IdxType::I32,
            bounds: LimitBounds { minimum: 16, maximum: None },
            share: Sharing::Unshared,
        }
    );
    assert_eq!(rest, &[0xAA]);
}

#[test]
fn limits_with_maximum_shared_64() {
    let (_, l) = Limits::parse::<Error>(&[0x07, 0x01, 0x80, 0x02]).unwrap();
    assert_eq!(
        l,
        Limits {
            index_type: IdxType::I64,
            bounds: LimitBounds { minimum: 1, maximum: Some(256) },
            share: Sharing::Shared,
        }
    );
}

#[test]
fn limits_errors() {
    let e = Limits::parse::<Error>(&[]).unwrap_err();
    assert_eq!(e.cause, ErrorCause::InvalidFlags(InvalidFlags::Limits(InvalidFlagsValue::Missing)));
    let e = Limits::parse::<Error>(&[0x09, 0x00]).unwrap_err();
    assert_eq!(
        e.cause,
        ErrorCause::InvalidFlags(InvalidFlags::Limits(InvalidFlagsValue::Invalid { value: 9, invalid: 8 }))
    );
    let e = Limits::parse::<Error>(&[0x01, 0x00]).unwrap_err();
    assert!(matches!(e.cause, ErrorCause::Leb128 { .. }));
}

#[test]
fn table_and_memory_types() {
    let (_, t) = TableType::parse::<Error>(&[0x70, 0x00, 0x01]).unwrap();
    assert_eq!(t.element_type, RefType::Func);
    assert_eq!(t.limits.bounds.minimum, 1);
    let (_, m) = MemType::parse::<Error>(&[0x01, 0x01, 0x02]).unwrap();
    assert_eq!(m, MemType {
        limits: Limits {
            index_type: IdxType::I32,
            bounds: LimitBounds { minimum: 1, maximum: Some(2) },
            share: Sharing::Unshared,
        },
    });
}

#[test]
fn global_types() {
    let (rest, g) = GlobalType::parse::<Error>(&[0x7F, 0x00]).unwrap();
    assert_eq!(g, GlobalType { value_type: ValType::I32, mutability: Mutability::Constant });
    assert!(rest.is_empty());
    let (_, g) = GlobalType::parse::<Error>(&[0x7C, 0x01]).unwrap();
    assert_eq!(g.mutability, Mutability::Variable);
    let input: &[u8] = &[0x7F, 0x03];
    let e = GlobalType::parse::<Error>(input).unwrap_err();
    assert_eq!(
        e.cause,
        ErrorCause::InvalidFlags(InvalidFlags::GlobalType(InvalidFlagsValue::Invalid { value: 3, invalid: 2 }))
    );
    assert_eq!(e.input, &input[1..]);
    let e = GlobalType::parse::<Error>(&[0x7F]).unwrap_err();
    assert_eq!(e.cause, ErrorCause::InvalidFlags(InvalidFlags::GlobalType(InvalidFlagsValue::Missing)));
}

#[test]
fn tag_types() {
    let (_, t) = TagType::parse::<Error>(&[0x00, 0x03]).unwrap();
    assert_eq!(t, TagType { index: TypeIdx(3) });
    let e = TagType::parse::<Error>(&[0x01, 0x03]).unwrap_err();
    assert_eq!(e.cause, ErrorCause::TagType);
}

#[test]
fn func_types() {
    let input: &[u8] = &[0x60, 0x02, 0x7F, 0x7E, 0x01, 0x7D, 0xEE];
    let (rest, f) = FuncType::parse::<Error>(input).unwrap();
    assert_eq!(f.parameters, vec![ValType::I32, ValType::I64]);
    assert_eq!(f.results, vec![ValType::F32]);
    assert_eq!(rest, &[0xEE]);
    let e = FuncType::parse::<Error>(&[0x61]).unwrap_err();
    assert_eq!(e.cause, ErrorCause::InvalidTag(InvalidTag::FuncType(Some(0x61))));
    let e = FuncType::parse::<Error>(&[]).unwrap_err();
    assert_eq!(e.cause, ErrorCause::InvalidTag(InvalidTag::FuncType(None)));
}

#[test]
fn val_types_vector() {
    let (rest, ts) = val_types::<Error>(&[0x03, 0x7F, 0x7F, 0x6F]).unwrap();
    assert_eq!(ts, vec![ValType::I32, ValType::I32, ValType::ExternRef]);
    assert!(rest.is_empty());
    let input: &[u8] = &[0x02, 0x7F, 0x40];
    let e = val_types::<Error>(input).unwrap_err();
    assert_eq!(e.cause, ErrorCause::ValType(None));
    assert_eq!(e.input, &input[2..]);
}
