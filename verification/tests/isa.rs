use nom_wasm::error::{Error, ErrorCause, MemArgComponent};
use nom_wasm::index::{FuncIdx, LabelIdx, LocalIdx, MemIdx};
use nom_wasm::isa::expr::{expr, parse_expr, ParseExpr, UnrecognizedInstr};
use nom_wasm::isa::instr::{Immediates, Instr};
use nom_wasm::isa::instr_kind::InstrKind;
use nom_wasm::isa::parse_instr::{ExprParser, InstrParser};
use nom_wasm::isa::opcode::{byte_opcode, prefixed_opcode};
use nom_wasm::isa::{
    Align, Encoding, ImmKind, InvalidExpr, InvalidInstr, InvalidOpcode, MemArg, Opcode, ParseInstr, ParseInstrError,
};
use nom_wasm::types::{BlockType, ValType};
use nom_wasm::values::{F32, V128};

#[test]
fn opcode_single_byte() {
    let input: &[u8] = &[0x41, 0x00];
    let (rest, op) = Opcode::parse::<Error>(input).unwrap();
    assert_eq!(op, Opcode::I32Const);
    assert_eq!(rest, &[0x00]);
    assert_eq!(op.name(), "i32.const");
    assert_eq!(op.encoding(), Encoding::Byte(0x41));
    assert_eq!(op.immediate_kind(), ImmKind::I32);
    assert_eq!(byte_opcode(0x41), Some(Opcode::I32Const));
}

#[test]
fn opcode_prefixed() {
    assert_eq!(Opcode::parse::<Error>(&[0xFC, 0x0A]).unwrap().1, Opcode::MemoryCopy);
    assert_eq!(Opcode::parse::<Error>(&[0xFD, 0x0C]).unwrap().1, Opcode::V128Const);
    assert_eq!(Opcode::parse::<Error>(&[0xFE, 0x00]).unwrap().1, Opcode::MemoryAtomicNotify);
    // A code may take more than one byte.
    assert_eq!(Opcode::parse::<Error>(&[0xFC, 0x8A, 0x00]).unwrap().1, Opcode::MemoryCopy);
    assert_eq!(Opcode::MemoryCopy.encoding(), Encoding::Prefixed { prefix: 0xFC, code: 10 });
    assert_eq!(Opcode::MemoryCopy.name(), "memory.copy");
    assert_eq!(prefixed_opcode(0xFC, 0), Some(Opcode::I32TruncSatF32S));
    assert_eq!(prefixed_opcode(0xFC, 127), None);
}

#[test]
fn opcode_errors() {
    let e = Opcode::parse::<Error>(&[]).unwrap_err();
    assert_eq!(e.cause, ErrorCause::Opcode(InvalidOpcode::Missing));
    let input: &[u8] = &[0x27];
    let e = Opcode::parse::<Error>(input).unwrap_err();
    assert_eq!(e.cause, ErrorCause::Opcode(InvalidOpcode::Byte(0x27)));
    assert_eq!(e.input, input);
    let e = Opcode::parse::<Error>(&[0xFC, 0x7F]).unwrap_err();
    assert_eq!(e.cause, ErrorCause::Opcode(InvalidOpcode::Prefixed { prefix: 0xFC, secondary: 127 }));
    let e = Opcode::parse::<Error>(&[0xFC]).unwrap_err();
    assert!(matches!(e.cause, ErrorCause::Leb128 { .. }));
}

#[test]
fn encoding_round_trip() {
    for op in [Opcode::Unreachable, Opcode::End, Opcode::I32Load, Opcode::MemoryCopy, Opcode::V128Const,
        Opcode::I8x16ExtractLaneS, Opcode::MemoryAtomicNotify, Opcode::Delegate]
    {
        let decoded = match op.encoding() {
            Encoding::Byte(b) => byte_opcode(b),
            Encoding::Prefixed { prefix, code } => prefixed_opcode(prefix, code),
        };
        assert_eq!(decoded, Some(op));
    }
}

#[test]
fn instr_kinds() {
    assert_eq!(InstrKind::parse::<Error>(&[0x01]).unwrap().1, InstrKind::Byte(Opcode::Nop));
    assert_eq!(InstrKind::parse::<Error>(&[0xFC, 0x0A]).unwrap().1, InstrKind::FCPrefixed(Opcode::MemoryCopy));
    let k = InstrKind::parse::<Error>(&[0xFD, 0x0C]).unwrap().1;
    assert_eq!(k, InstrKind::V128(Opcode::V128Const));
    assert_eq!(k.name(), "v128.const");
    assert_eq!(k.opcode(), Opcode::V128Const);
    assert_eq!(InstrKind::of(Opcode::MemoryAtomicNotify), InstrKind::FEPrefixed(Opcode::MemoryAtomicNotify));
    assert!(InstrKind::parse::<Error>(&[0x27]).is_err());
}

#[test]
fn alignments() {
    let expected: [(u8, Align, u8); 5] =
        [(0, Align::Any, 1), (1, Align::Two, 2), (2, Align::Four, 4), (3, Align::Eight, 8), (4, Align::Sixteen, 16)];
    for (power, align, bytes) in expected {
        assert_eq!(Align::new(power), Some(align));
        assert_eq!(align.to_power(), power);
        assert_eq!(align.in_bytes(), bytes);
    }
    assert_eq!(Align::new(5), None);
}

#[test]
fn natural_alignment() {
    assert_eq!(Opcode::I32Load.natural_align(), Some(Align::Four));
    assert_eq!(Opcode::I32Load.immediate_kind(), ImmKind::Mem);
    assert_eq!(Opcode::I32Add.natural_align(), None);
    assert_eq!(Opcode::V128Load8Lane.natural_align(), Some(Align::Any));
    assert_eq!(Opcode::V128Load8Lane.immediate_kind(), ImmKind::MemLane);
}

fn assert_mem_arg(m: &MemArg, offset: u64, align: Align, memory: MemIdx) {
    assert_eq!(m.offset, offset);
    assert_eq!(m.align, align);
    assert_eq!(m.memory, memory);
}

#[test]
fn mem_args() {
    let (rest, m) = MemArg::parse::<Error>(&[0x02, 0x10, 0xAA]).unwrap();
    assert_mem_arg(&m, 16, Align::Four, MemIdx(0));
    assert_eq!(rest, &[0xAA]);
    let (_, m) = MemArg::parse::<Error>(&[0x42, 0x08, 0x01]).unwrap();
    assert_mem_arg(&m, 8, Align::Four, MemIdx(1));
    let input: &[u8] = &[0x05, 0x00];
    let e = MemArg::parse::<Error>(input).unwrap_err();
    assert_eq!(e.cause, ErrorCause::MemArg(MemArgComponent::Alignment(Some(5))));
    assert!(e.input.is_empty());
    let e = MemArg::parse::<Error>(&[0x02]).unwrap_err();
    assert!(matches!(e.cause, ErrorCause::Leb128 { .. }));
}

#[test]
fn instrs_with_immediates() {
    let (rest, i) = Instr::parse::<Error>(&[0x41, 0x7F, 0x0B]).unwrap();
    assert_eq!(i, Instr { opcode: Opcode::I32Const, args: Immediates::I32(-1) });
    assert_eq!(rest, &[0x0B]);
    let (_, i) = Instr::parse::<Error>(&[0x43, 0x00, 0x00, 0x80, 0x3F]).unwrap();
    assert_eq!(i.args, Immediates::F32(F32 { bits: 0x3F80_0000 }));
    assert_eq!(f32::from_bits(0x3F80_0000), 1.0f32);
    let (_, i) = Instr::parse::<Error>(&[0x20, 0x03]).unwrap();
    assert_eq!(i, Instr { opcode: Opcode::LocalGet, args: Immediates::Local(LocalIdx(3)) });
    let (_, i) = Instr::parse::<Error>(&[0x10, 0x07]).unwrap();
    assert_eq!(i.args, Immediates::Func(FuncIdx(7)));
    let (_, i) = Instr::parse::<Error>(&[0x02, 0x7F]).unwrap();
    assert_eq!(i.args, Immediates::Block(BlockType::Inline(ValType::I32)));
    let (_, i) = Instr::parse::<Error>(&[0x28, 0x02, 0x04]).unwrap();
    match &i.args {
        Immediates::Mem(m) => assert_mem_arg(m, 4, Align::Four, MemIdx(0)),
        other => panic!("unexpected arguments {other:?}"),
    }
    let (_, i) = Instr::parse::<Error>(&[0xFC, 0x0A, 0x00, 0x01]).unwrap();
    assert_eq!(i.args, Immediates::MemoryCopy { destination: MemIdx(0), source: MemIdx(1) });
    let (_, i) = Instr::parse::<Error>(&[0xFD, 0x15, 0x03]).unwrap();
    assert_eq!(i, Instr { opcode: Opcode::I8x16ExtractLaneS, args: Immediates::Lane(3) });
}

#[test]
fn v128_const() {
    let mut input = vec![0xFD, 0x0C];
    input.extend(0u8..16);
    let (rest, i) = Instr::parse::<Error>(&input).unwrap();
    let mut bytes = [0u8; 16];
    for (k, b) in bytes.iter_mut().enumerate() {
        *b = k as u8;
    }
    assert_eq!(i.args, Immediates::V128(V128 { bytes }));
    assert!(rest.is_empty());
    let e = Instr::parse::<Error>(&input[..10]).unwrap_err();
    assert_eq!(e.cause, ErrorCause::Instr { opcode: Opcode::V128Const, reason: InvalidInstr::Argument });
}

#[test]
fn br_table() {
    let (_, i) = Instr::parse::<Error>(&[0x0E, 0x02, 0x00, 0x01, 0x02]).unwrap();
    assert_eq!(
        i.args,
        Immediates::BrTable { targets: vec![LabelIdx(0), LabelIdx(1)], default_target: LabelIdx(2) }
    );
    let (_, i) = Instr::parse::<Error>(&[0x0E, 0x00, 0x05]).unwrap();
    assert_eq!(i.args, Immediates::BrTable { targets: vec![], default_target: LabelIdx(5) });
    let e = Instr::parse::<Error>(&[0x0E, 0x02, 0x00, 0x01]).unwrap_err();
    assert!(matches!(e.cause, ErrorCause::Leb128 { .. }));
}

#[test]
fn select_typed() {
    let (_, i) = Instr::parse::<Error>(&[0x1C, 0x01, 0x7F]).unwrap();
    assert_eq!(i.args, Immediates::SelectTyped(ValType::I32));
    let e = Instr::parse::<Error>(&[0x1C, 0x02, 0x7F, 0x7F]).unwrap_err();
    assert_eq!(e.cause, ErrorCause::Instr { opcode: Opcode::SelectTyped, reason: InvalidInstr::SelectTypedArity(2) });
    let e = Instr::parse::<Error>(&[0x1C, 0x00]).unwrap_err();
    assert_eq!(e.cause, ErrorCause::Instr { opcode: Opcode::SelectTyped, reason: InvalidInstr::SelectTypedArity(0) });
}

#[test]
fn lane_missing() {
    let e = Instr::parse::<Error>(&[0xFD, 0x15]).unwrap_err();
    assert_eq!(e.cause, ErrorCause::Instr { opcode: Opcode::I8x16ExtractLaneS, reason: InvalidInstr::VectorLane });
}

#[test]
fn simple_expr() {
    let (rest, instrs) = expr::<Error>(&[0x41, 0x01, 0x0B, 0xAA]).unwrap();
    assert_eq!(
        instrs,
        vec![
            Instr { opcode: Opcode::I32Const, args: Immediates::I32(1) },
            Instr { opcode: Opcode::End, args: Immediates::NoArgs },
        ]
    );
    assert_eq!(rest, &[0xAA]);
}

#[test]
fn nested_expr() {
    let (rest, instrs) = expr::<Error>(&[0x02, 0x40, 0x01, 0x0B, 0x0B]).unwrap();
    let ops: Vec<Opcode> = instrs.iter().map(|i| i.opcode).collect();
    assert_eq!(ops, vec![Opcode::Block, Opcode::Nop, Opcode::End, Opcode::End]);
    assert!(rest.is_empty());
    assert_eq!(instrs.last().unwrap().opcode, Opcode::End);
}

#[test]
fn expr_missing_end() {
    let input: &[u8] = &[0x02, 0x40, 0x0B];
    let e = expr::<Error>(input).unwrap_err();
    assert_eq!(e.cause, ErrorCause::Opcode(InvalidOpcode::Missing));
    assert!(e.input.is_empty());
}

#[test]
fn expr_delegate_at_outermost_block() {
    let input: &[u8] = &[0x01, 0x18, 0x00, 0x0B];
    let e = expr::<Error>(input).unwrap_err();
    assert_eq!(e.cause, ErrorCause::Expr(InvalidExpr::ExpectedEnds(1)));
    assert_eq!(e.input, &input[1..]);
}

#[test]
fn expr_delegate_closes_try() {
    let (rest, instrs) = expr::<Error>(&[0x06, 0x40, 0x18, 0x00, 0x0B]).unwrap();
    assert_eq!(instrs.len(), 3);
    assert!(rest.is_empty());
}

struct RefuseNop {
    seen: Vec<Opcode>,
}

impl ParseExpr for RefuseNop {
    fn parse(&mut self, instr: Instr) -> Result<(), UnrecognizedInstr> {
        if instr.opcode == Opcode::Nop {
            Err(UnrecognizedInstr)
        } else {
            self.seen.push(instr.opcode);
            Ok(())
        }
    }
}

#[test]
fn parse_expr_with_vec() {
    let mut v: Vec<Instr> = Vec::new();
    let rest = parse_expr::<_, Error>(&[0x01, 0x0B, 0x05], &mut v).unwrap();
    assert_eq!(rest, &[0x05]);
    assert_eq!(v.len(), 2);
    assert_eq!(v[0].opcode, Opcode::Nop);
}

#[test]
fn parse_expr_refused_instruction() {
    let input: &[u8] = &[0x41, 0x00, 0x01, 0x0B];
    let mut p = RefuseNop { seen: Vec::new() };
    let e = parse_expr::<_, Error>(input, &mut p).unwrap_err();
    assert_eq!(e.cause, ErrorCause::Instr { opcode: Opcode::Nop, reason: InvalidInstr::Unrecognized });
    assert_eq!(e.input, &input[2..]);
    assert_eq!(p.seen, vec![Opcode::I32Const]);
    let mut p = RefuseNop { seen: Vec::new() };
    assert!(parse_expr::<_, Error>(&[0x41, 0x00, 0x0B], &mut p).is_ok());
    assert_eq!(p.seen, vec![Opcode::I32Const, Opcode::End]);
}

#[test]
fn instr_names() {
    let (_, i) = Instr::parse::<Error>(&[0x6A]).unwrap();
    assert_eq!(i.name(), "i32.add");
    assert_eq!(i.opcode, Opcode::I32Add);
    let (_, i) = Instr::parse::<Error>(&[0xFC, 0x0A, 0x00, 0x00]).unwrap();
    assert_eq!(i.name(), "memory.copy");
}

#[derive(Debug)]
struct LocalCounter {
    locals: Vec<u32>,
}

impl<'a> ParseInstr<'a, Error<'a>> for LocalCounter {
    fn unrecognized(&mut self, _instr: &Instr) -> Result<(), ParseInstrError<Error<'a>>> {
        Err(ParseInstrError::Unrecognized)
    }

    fn local_get(&mut self, local: LocalIdx) -> Result<(), ParseInstrError<Error<'a>>> {
        self.locals.push(local.0);
        Ok(())
    }

    fn nop(&mut self) -> Result<(), ParseInstrError<Error<'a>>> {
        Err(ParseInstrError::Cause(ErrorCause::TagType))
    }
}

#[test]
fn parse_instr_dispatches_to_methods() {
    let (rest, counter) = parse_instr_with(&[0x20, 0x05, 0x0B], LocalCounter { locals: Vec::new() }).unwrap();
    assert_eq!(counter.locals, vec![5]);
    assert_eq!(rest, &[0x0B]);
    // Instructions without a method of their own are not recognized.
    let input: &[u8] = &[0x6A];
    let e = parse_instr_with(input, LocalCounter { locals: Vec::new() }).unwrap_err();
    assert_eq!(e.cause, ErrorCause::Instr { opcode: Opcode::I32Add, reason: InvalidInstr::Unrecognized });
    assert_eq!(e.input, input);
    // A cause given by the parser is reported at the start of the instruction.
    let e = parse_instr_with(&[0x01], LocalCounter { locals: Vec::new() }).unwrap_err();
    assert_eq!(e.cause, ErrorCause::TagType);
    // An instruction that cannot be read is never handed to the parser.
    let e = parse_instr_with(&[0x20], LocalCounter { locals: Vec::new() }).unwrap_err();
    assert!(matches!(e.cause, ErrorCause::Leb128 { .. }));
}

#[test]
fn unit_parser_accepts_every_instruction() {
    let input: &[u8] = &[0x41, 0x7F, 0xFC, 0x0A, 0x00, 0x00, 0x0E, 0x01, 0x00, 0x00, 0x1C, 0x01, 0x7F];
    let mut rest = input;
    let mut count = 0;
    while !rest.is_empty() {
        let (next, ()) = parse_instr_with(rest, ()).unwrap();
        rest = next;
        count += 1;
    }
    assert_eq!(count, 4);
}

fn parse_instr_with<'a, P: ParseInstr<'a, Error<'a>>>(input: &'a [u8], parser: P) -> Result<(&'a [u8], P), Error<'a>> {
    nom_wasm::isa::instr::<P, Error<'a>>(input, parser)
}

#[test]
fn instr_parser_and_expr_parser() {
    let mut p = InstrParser::new(LocalCounter { locals: Vec::new() });
    let input: &[u8] = &[0x20, 0x01, 0x20, 0x02];
    let (rest, ()) = p.parse::<Error>(input).unwrap();
    let (rest, ()) = p.parse::<Error>(rest).unwrap();
    assert!(rest.is_empty());
    assert_eq!(p.into_parse_instr().locals, vec![1, 2]);

    let mut e = ExprParser::new(());
    let (rest, ()) = e.parse::<Error>(&[0x02, 0x40, 0x20, 0x00, 0x0B, 0x0B, 0xAA]).unwrap();
    assert_eq!(rest, &[0xAA]);
    let err = e.parse::<Error>(&[0x02, 0x40, 0x0B]).unwrap_err();
    assert_eq!(err.cause, ErrorCause::Opcode(InvalidOpcode::Missing));

    let mut counting = ExprParser::new(LocalCounter { locals: Vec::new() });
    let input: &[u8] = &[0x20, 0x07, 0x0B];
    let err = counting.parse::<Error>(input).unwrap_err();
    // `end` has no method of its own in this parser, so it is not recognized.
    assert_eq!(err.cause, ErrorCause::Instr { opcode: Opcode::End, reason: InvalidInstr::Unrecognized });
    assert_eq!(err.input, &input[2..]);
    assert_eq!(counting.into_parse_instr().locals, vec![7]);
}

#[derive(Debug, Default)]
struct Recorder {
    calls: Vec<String>,
}

impl<'a> ParseInstr<'a, Error<'a>> for Recorder {
    fn unrecognized(&mut self, _instr: &Instr) -> Result<(), ParseInstrError<Error<'a>>> {
        Err(ParseInstrError::Unrecognized)
    }

    fn i32_const(&mut self, n: i32) -> Result<(), ParseInstrError<Error<'a>>> {
        self.calls.push(format!("i32_const({n})"));
        Ok(())
    }

    fn i64_const(&mut self, n: i64) -> Result<(), ParseInstrError<Error<'a>>> {
        self.calls.push(format!("i64_const({n})"));
        Ok(())
    }

    fn i32_add(&mut self) -> Result<(), ParseInstrError<Error<'a>>> {
        self.calls.push("i32_add()".to_string());
        Ok(())
    }

    fn memory_copy(&mut self, destination: MemIdx, source: MemIdx) -> Result<(), ParseInstrError<Error<'a>>> {
        self.calls.push(format!("memory_copy({}, {})", destination.0, source.0));
        Ok(())
    }

    fn end(&mut self) -> Result<(), ParseInstrError<Error<'a>>> {
        self.calls.push("end()".to_string());
        Ok(())
    }
}

#[test]
fn instr_hands_i32_const_minus_one() {
    let input: &[u8] = &[0x41, 0x7F];
    let (rest, p) = parse_instr_with(input, Recorder::default()).unwrap();
    assert!(rest.is_empty());
    assert_eq!(p.calls, vec!["i32_const(-1)".to_string()]);
}

#[test]
fn instr_hands_i64_const_and_stops_before_end() {
    let input: &[u8] = &[0x42, 0x80, 0x01, 0x0B];
    let (rest, p) = parse_instr_with(input, Recorder::default()).unwrap();
    assert_eq!(rest, &[0x0B]);
    assert_eq!(p.calls, vec!["i64_const(128)".to_string()]);
}

#[test]
fn instr_hands_i32_add_only_once() {
    let input: &[u8] = &[0x6A, 0x0B];
    let (rest, p) = parse_instr_with(input, Recorder::default()).unwrap();
    assert_eq!(rest, &[0x0B]);
    assert_eq!(p.calls, vec!["i32_add()".to_string()]);
}

#[test]
fn instr_hands_memory_copy_destination_first() {
    let input: &[u8] = &[0xFC, 0x0A, 0x00, 0x01];
    let (rest, p) = parse_instr_with(input, Recorder::default()).unwrap();
    assert!(rest.is_empty());
    assert_eq!(p.calls, vec!["memory_copy(0, 1)".to_string()]);
}

#[test]
fn instr_default_method_refuses_nop_at_its_start() {
    let input: &[u8] = &[0x01, 0x0B];
    let e = parse_instr_with(input, Recorder::default()).unwrap_err();
    assert_eq!(e.input, input);
    assert_eq!(e.cause, ErrorCause::Instr { opcode: Opcode::Nop, reason: InvalidInstr::Unrecognized });
}

#[test]
fn instr_parser_hands_large_negative_i32_const() {
    let mut p = InstrParser::new(Recorder::default());
    let input: &[u8] = &[0x41, 0xC0, 0xBB, 0x78, 0x0B];
    let (rest, ()) = p.parse::<Error>(input).unwrap();
    assert_eq!(rest, &[0x0B]);
    assert_eq!(p.into_parse_instr().calls, vec!["i32_const(-123456)".to_string()]);
}

#[test]
fn instr_and_instr_parser_agree() {
    let inputs: [&[u8]; 4] = [&[0x41, 0x7F], &[0x6A, 0x0B], &[0x01], &[0xFC]];
    for input in inputs {
        let a = parse_instr_with(input, Recorder::default());
        let mut q = InstrParser::new(Recorder::default());
        let b = q.parse::<Error>(input);
        match (a, b) {
            (Ok((ra, pa)), Ok((rb, ()))) => {
                assert_eq!(ra, rb);
                assert_eq!(pa.calls, q.into_parse_instr().calls);
            },
            (Err(ea), Err(eb)) => assert_eq!(ea, eb),
            _ => panic!("the two instruction parsers disagree"),
        }
    }
}

#[test]
fn expr_parser_hands_every_instruction_in_order() {
    let mut e = ExprParser::new(Recorder::default());
    let (rest, ()) = e.parse::<Error>(&[0x41, 0x01, 0x41, 0x02, 0x6A, 0x0B, 0xAA]).unwrap();
    assert_eq!(rest, &[0xAA]);
    assert_eq!(
        e.into_parse_instr().calls,
        vec!["i32_const(1)".to_string(), "i32_const(2)".to_string(), "i32_add()".to_string(), "end()".to_string()]
    );
}

#[test]
fn expr_parser_stops_at_first_refused_instruction() {
    let mut e = ExprParser::new(Recorder::default());
    let input: &[u8] = &[0x41, 0x01, 0x01, 0x0B];
    let err = e.parse::<Error>(input).unwrap_err();
    assert_eq!(err.input, &input[2..]);
    assert_eq!(err.cause, ErrorCause::Instr { opcode: Opcode::Nop, reason: InvalidInstr::Unrecognized });
    assert_eq!(e.into_parse_instr().calls, vec!["i32_const(1)".to_string()]);
}

#[test]
fn f64x2_lane_instruction_names() {
    assert_eq!(Opcode::F64x2ExtractLane.name(), "f64x2.extract_lane");
    assert_eq!(Opcode::F64x2ReplaceLane.name(), "f64x2.replace_lane");
}
