//! The opcodes of the WebAssembly binary format as its specification lists them: for each
//! encoding, the instruction's name in the text format, the kind of its immediate arguments and,
//! for an access to memory, its natural alignment. The laws here hold the decoder to that list.

use vstd::prelude::*;

use crate::isa::mem_arg::Align;
use crate::isa::opcode::{
    spec_byte_opcode, spec_fc_opcode, spec_fd_opcode, spec_fe_opcode, spec_immediate_kind, spec_name, spec_natural_align,
    spec_encoding, spec_prefixed_opcode, Encoding, ImmKind, Opcode,
};

verus! {

/// The instruction the specification lists for the single byte `b`, if any: the opcode, its name in
/// the text format, the kind of its immediate arguments, and its natural alignment if it accesses
/// memory.
pub open spec fn listed_byte(b: u8) -> Option<(Opcode, Seq<char>, ImmKind, Option<Align>)> {
    if b == 0x00u8 {
        Some((Opcode::Unreachable, "unreachable"@, ImmKind::NoArgs, None))
    } else if b == 0x01u8 {
        Some((Opcode::Nop, "nop"@, ImmKind::NoArgs, None))
    } else if b == 0x02u8 {
        Some((Opcode::Block, "block"@, ImmKind::Block, None))
    } else if b == 0x03u8 {
        Some((Opcode::Loop, "loop"@, ImmKind::Block, None))
    } else if b == 0x04u8 {
        Some((Opcode::If, "if"@, ImmKind::Block, None))
    } else if b == 0x05u8 {
        Some((Opcode::Else, "else"@, ImmKind::NoArgs, None))
    } else if b == 0x0Bu8 {
        Some((Opcode::End, "end"@, ImmKind::NoArgs, None))
    } else if b == 0x0Cu8 {
        Some((Opcode::Br, "br"@, ImmKind::Label, None))
    } else if b == 0x0Du8 {
        Some((Opcode::BrIf, "br_if"@, ImmKind::Label, None))
    } else if b == 0x0Eu8 {
        Some((Opcode::BrTable, "br_table"@, ImmKind::BrTable, None))
    } else if b == 0x0Fu8 {
        Some((Opcode::Return, "return"@, ImmKind::NoArgs, None))
    } else if b == 0x10u8 {
        Some((Opcode::Call, "call"@, ImmKind::Func, None))
    } else if b == 0x11u8 {
        Some((Opcode::CallIndirect, "call_indirect"@, ImmKind::CallIndirect, None))
    } else if b == 0x1Au8 {
        Some((Opcode::Drop, "drop"@, ImmKind::NoArgs, None))
    } else if b == 0x1Bu8 {
        Some((Opcode::Select, "select"@, ImmKind::NoArgs, None))
    } else if b == 0x1Cu8 {
        Some((Opcode::SelectTyped, "select"@, ImmKind::SelectTyped, None))
    } else if b == 0x20u8 {
        Some((Opcode::LocalGet, "local.get"@, ImmKind::Local, None))
    } else if b == 0x21u8 {
        Some((Opcode::LocalSet, "local.set"@, ImmKind::Local, None))
    } else if b == 0x22u8 {
        Some((Opcode::LocalTee, "local.tee"@, ImmKind::Local, None))
    } else if b == 0x23u8 {
        Some((Opcode::GlobalGet, "global.get"@, ImmKind::Global, None))
    } else if b == 0x24u8 {
        Some((Opcode::GlobalSet, "global.set"@, ImmKind::Global, None))
    } else if b == 0x28u8 {
        Some((Opcode::I32Load, "i32.load"@, ImmKind::Mem, Some(Align::Four)))
    } else if b == 0x29u8 {
        Some((Opcode::I64Load, "i64.load"@, ImmKind::Mem, Some(Align::Eight)))
    } else if b == 0x2Au8 {
        Some((Opcode::F32Load, "f32.load"@, ImmKind::Mem, Some(Align::Four)))
    } else if b == 0x2Bu8 {
        Some((Opcode::F64Load, "f64.load"@, ImmKind::Mem, Some(Align::Eight)))
    } else if b == 0x2Cu8 {
        Some((Opcode::I32Load8S, "i32.load8_s"@, ImmKind::Mem, Some(Align::Any)))
    } else if b == 0x2Du8 {
        Some((Opcode::I32Load8U, "i32.load8_u"@, ImmKind::Mem, Some(Align::Any)))
    } else if b == 0x2Eu8 {
        Some((Opcode::I32Load16S, "i32.load16_s"@, ImmKind::Mem, Some(Align::Two)))
    } else if b == 0x2Fu8 {
        Some((Opcode::I32Load16U, "i32.load16_u"@, ImmKind::Mem, Some(Align::Two)))
    } else if b == 0x30u8 {
        Some((Opcode::I64Load8S, "i64.load8_s"@, ImmKind::Mem, Some(Align::Any)))
    } else if b == 0x31u8 {
        Some((Opcode::I64Load8U, "i64.load8_u"@, ImmKind::Mem, Some(Align::Any)))
    } else if b == 0x32u8 {
        Some((Opcode::I64Load16S, "i64.load16_s"@, ImmKind::Mem, Some(Align::Two)))
    } else if b == 0x33u8 {
        Some((Opcode::I64Load16U, "i64.load16_u"@, ImmKind::Mem, Some(Align::Two)))
    } else if b == 0x34u8 {
        Some((Opcode::I64Load32S, "i64.load32_s"@, ImmKind::Mem, Some(Align::Four)))
    } else if b == 0x35u8 {
        Some((Opcode::I64Load32U, "i64.load32_u"@, ImmKind::Mem, Some(Align::Four)))
    } else if b == 0x36u8 {
        Some((Opcode::I32Store, "i32.store"@, ImmKind::Mem, Some(Align::Four)))
    } else if b == 0x37u8 {
        Some((Opcode::I64Store, "i64.store"@, ImmKind::Mem, Some(Align::Eight)))
    } else if b == 0x38u8 {
        Some((Opcode::F32Store, "f32.store"@, ImmKind::Mem, Some(Align::Four)))
    } else if b == 0x39u8 {
        Some((Opcode::F64Store, "f64.store"@, ImmKind::Mem, Some(Align::Eight)))
    } else if b == 0x3Au8 {
        Some((Opcode::I32Store8, "i32.store8"@, ImmKind::Mem, Some(Align::Any)))
    } else if b == 0x3Bu8 {
        Some((Opcode::I32Store16, "i32.store16"@, ImmKind::Mem, Some(Align::Two)))
    } else if b == 0x3Cu8 {
        Some((Opcode::I64Store8, "i64.store8"@, ImmKind::Mem, Some(Align::Any)))
    } else if b == 0x3Du8 {
        Some((Opcode::I64Store16, "i64.store16"@, ImmKind::Mem, Some(Align::Two)))
    } else if b == 0x3Eu8 {
        Some((Opcode::I64Store32, "i64.store32"@, ImmKind::Mem, Some(Align::Four)))
    } else if b == 0x3Fu8 {
        Some((Opcode::MemorySize, "memory.size"@, ImmKind::Memory, None))
    } else if b == 0x40u8 {
        Some((Opcode::MemoryGrow, "memory.grow"@, ImmKind::Memory, None))
    } else if b == 0x41u8 {
        Some((Opcode::I32Const, "i32.const"@, ImmKind::I32, None))
    } else if b == 0x42u8 {
        Some((Opcode::I64Const, "i64.const"@, ImmKind::I64, None))
    } else if b == 0x43u8 {
        Some((Opcode::F32Const, "f32.const"@, ImmKind::F32, None))
    } else if b == 0x44u8 {
        Some((Opcode::F64Const, "f64.const"@, ImmKind::F64, None))
    } else if b == 0x45u8 {
        Some((Opcode::I32Eqz, "i32.eqz"@, ImmKind::NoArgs, None))
    } else if b == 0x46u8 {
        Some((Opcode::I32Eq, "i32.eq"@, ImmKind::NoArgs, None))
    } else if b == 0x47u8 {
        Some((Opcode::I32Ne, "i32.ne"@, ImmKind::NoArgs, None))
    } else if b == 0x48u8 {
        Some((Opcode::I32LtS, "i32.lt_s"@, ImmKind::NoArgs, None))
    } else if b == 0x49u8 {
        Some((Opcode::I32LtU, "i32.lt_u"@, ImmKind::NoArgs, None))
    } else if b == 0x4Au8 {
        Some((Opcode::I32GtS, "i32.gt_s"@, ImmKind::NoArgs, None))
    } else if b == 0x4Bu8 {
        Some((Opcode::I32GtU, "i32.gt_u"@, ImmKind::NoArgs, None))
    } else if b == 0x4Cu8 {
        Some((Opcode::I32LeS, "i32.le_s"@, ImmKind::NoArgs, None))
    } else if b == 0x4Du8 {
        Some((Opcode::I32LeU, "i32.le_u"@, ImmKind::NoArgs, None))
    } else if b == 0x4Eu8 {
        Some((Opcode::I32GeS, "i32.ge_s"@, ImmKind::NoArgs, None))
    } else if b == 0x4Fu8 {
        Some((Opcode::I32GeU, "i32.ge_u"@, ImmKind::NoArgs, None))
    } else if b == 0x50u8 {
        Some((Opcode::I64Eqz, "i64.eqz"@, ImmKind::NoArgs, None))
    } else if b == 0x51u8 {
        Some((Opcode::I64Eq, "i64.eq"@, ImmKind::NoArgs, None))
    } else if b == 0x52u8 {
        Some((Opcode::I64Ne, "i64.ne"@, ImmKind::NoArgs, None))
    } else if b == 0x53u8 {
        Some((Opcode::I64LtS, "i64.lt_s"@, ImmKind::NoArgs, None))
    } else if b == 0x54u8 {
        Some((Opcode::I64LtU, "i64.lt_u"@, ImmKind::NoArgs, None))
    } else if b == 0x55u8 {
        Some((Opcode::I64GtS, "i64.gt_s"@, ImmKind::NoArgs, None))
    } else if b == 0x56u8 {
        Some((Opcode::I64GtU, "i64.gt_u"@, ImmKind::NoArgs, None))
    } else if b == 0x57u8 {
        Some((Opcode::I64LeS, "i64.le_s"@, ImmKind::NoArgs, None))
    } else if b == 0x58u8 {
        Some((Opcode::I64LeU, "i64.le_u"@, ImmKind::NoArgs, None))
    } else if b == 0x59u8 {
        Some((Opcode::I64GeS, "i64.ge_s"@, ImmKind::NoArgs, None))
    } else if b == 0x5Au8 {
        Some((Opcode::I64GeU, "i64.ge_u"@, ImmKind::NoArgs, None))
    } else if b == 0x5Bu8 {
        Some((Opcode::F32Eq, "f32.eq"@, ImmKind::NoArgs, None))
    } else if b == 0x5Cu8 {
        Some((Opcode::F32Ne, "f32.ne"@, ImmKind::NoArgs, None))
    } else if b == 0x5Du8 {
        Some((Opcode::F32Lt, "f32.lt"@, ImmKind::NoArgs, None))
    } else if b == 0x5Eu8 {
        Some((Opcode::F32Gt, "f32.gt"@, ImmKind::NoArgs, None))
    } else if b == 0x5Fu8 {
        Some((Opcode::F32Le, "f32.le"@, ImmKind::NoArgs, None))
    } else if b == 0x60u8 {
        Some((Opcode::F32Ge, "f32.ge"@, ImmKind::NoArgs, None))
    } else if b == 0x61u8 {
        Some((Opcode::F64Eq, "f64.eq"@, ImmKind::NoArgs, None))
    } else if b == 0x62u8 {
        Some((Opcode::F64Ne, "f64.ne"@, ImmKind::NoArgs, None))
    } else if b == 0x63u8 {
        Some((Opcode::F64Lt, "f64.lt"@, ImmKind::NoArgs, None))
    } else if b == 0x64u8 {
        Some((Opcode::F64Gt, "f64.gt"@, ImmKind::NoArgs, None))
    } else if b == 0x65u8 {
        Some((Opcode::F64Le, "f64.le"@, ImmKind::NoArgs, None))
    } else if b == 0x66u8 {
        Some((Opcode::F64Ge, "f64.ge"@, ImmKind::NoArgs, None))
    } else if b == 0x67u8 {
        Some((Opcode::I32Clz, "i32.clz"@, ImmKind::NoArgs, None))
    } else if b == 0x68u8 {
        Some((Opcode::I32Ctz, "i32.ctz"@, ImmKind::NoArgs, None))
    } else if b == 0x69u8 {
        Some((Opcode::I32Popcnt, "i32.popcnt"@, ImmKind::NoArgs, None))
    } else if b == 0x6Au8 {
        Some((Opcode::I32Add, "i32.add"@, ImmKind::NoArgs, None))
    } else if b == 0x6Bu8 {
        Some((Opcode::I32Sub, "i32.sub"@, ImmKind::NoArgs, None))
    } else if b == 0x6Cu8 {
        Some((Opcode::I32Mul, "i32.mul"@, ImmKind::NoArgs, None))
    } else if b == 0x6Du8 {
        Some((Opcode::I32DivS, "i32.div_s"@, ImmKind::NoArgs, None))
    } else if b == 0x6Eu8 {
        Some((Opcode::I32DivU, "i32.div_u"@, ImmKind::NoArgs, None))
    } else if b == 0x6Fu8 {
        Some((Opcode::I32RemS, "i32.rem_s"@, ImmKind::NoArgs, None))
    } else if b == 0x70u8 {
        Some((Opcode::I32RemU, "i32.rem_u"@, ImmKind::NoArgs, None))
    } else if b == 0x71u8 {
        Some((Opcode::I32And, "i32.and"@, ImmKind::NoArgs, None))
    } else if b == 0x72u8 {
        Some((Opcode::I32Or, "i32.or"@, ImmKind::NoArgs, None))
    } else if b == 0x73u8 {
        Some((Opcode::I32Xor, "i32.xor"@, ImmKind::NoArgs, None))
    } else if b == 0x74u8 {
        Some((Opcode::I32Shl, "i32.shl"@, ImmKind::NoArgs, None))
    } else if b == 0x75u8 {
        Some((Opcode::I32ShrS, "i32.shr_s"@, ImmKind::NoArgs, None))
    } else if b == 0x76u8 {
        Some((Opcode::I32ShrU, "i32.shr_u"@, ImmKind::NoArgs, None))
    } else if b == 0x77u8 {
        Some((Opcode::I32Rotl, "i32.rotl"@, ImmKind::NoArgs, None))
    } else if b == 0x78u8 {
        Some((Opcode::I32Rotr, "i32.rotr"@, ImmKind::NoArgs, None))
    } else if b == 0x79u8 {
        Some((Opcode::I64Clz, "i64.clz"@, ImmKind::NoArgs, None))
    } else if b == 0x7Au8 {
        Some((Opcode::I64Ctz, "i64.ctz"@, ImmKind::NoArgs, None))
    } else if b == 0x7Bu8 {
        Some((Opcode::I64Popcnt, "i64.popcnt"@, ImmKind::NoArgs, None))
    } else if b == 0x7Cu8 {
        Some((Opcode::I64Add, "i64.add"@, ImmKind::NoArgs, None))
    } else if b == 0x7Du8 {
        Some((Opcode::I64Sub, "i64.sub"@, ImmKind::NoArgs, None))
    } else if b == 0x7Eu8 {
        Some((Opcode::I64Mul, "i64.mul"@, ImmKind::NoArgs, None))
    } else if b == 0x7Fu8 {
        Some((Opcode::I64DivS, "i64.div_s"@, ImmKind::NoArgs, None))
    } else if b == 0x80u8 {
        Some((Opcode::I64DivU, "i64.div_u"@, ImmKind::NoArgs, None))
    } else if b == 0x81u8 {
        Some((Opcode::I64RemS, "i64.rem_s"@, ImmKind::NoArgs, None))
    } else if b == 0x82u8 {
        Some((Opcode::I64RemU, "i64.rem_u"@, ImmKind::NoArgs, None))
    } else if b == 0x83u8 {
        Some((Opcode::I64And, "i64.and"@, ImmKind::NoArgs, None))
    } else if b == 0x84u8 {
        Some((Opcode::I64Or, "i64.or"@, ImmKind::NoArgs, None))
    } else if b == 0x85u8 {
        Some((Opcode::I64Xor, "i64.xor"@, ImmKind::NoArgs, None))
    } else if b == 0x86u8 {
        Some((Opcode::I64Shl, "i64.shl"@, ImmKind::NoArgs, None))
    } else if b == 0x87u8 {
        Some((Opcode::I64ShrS, "i64.shr_s"@, ImmKind::NoArgs, None))
    } else if b == 0x88u8 {
        Some((Opcode::I64ShrU, "i64.shr_u"@, ImmKind::NoArgs, None))
    } else if b == 0x89u8 {
        Some((Opcode::I64Rotl, "i64.rotl"@, ImmKind::NoArgs, None))
    } else if b == 0x8Au8 {
        Some((Opcode::I64Rotr, "i64.rotr"@, ImmKind::NoArgs, None))
    } else if b == 0x8Bu8 {
        Some((Opcode::F32Abs, "f32.abs"@, ImmKind::NoArgs, None))
    } else if b == 0x8Cu8 {
        Some((Opcode::F32Neg, "f32.neg"@, ImmKind::NoArgs, None))
    } else if b == 0x8Du8 {
        Some((Opcode::F32Ceil, "f32.ceil"@, ImmKind::NoArgs, None))
    } else if b == 0x8Eu8 {
        Some((Opcode::F32Floor, "f32.floor"@, ImmKind::NoArgs, None))
    } else if b == 0x8Fu8 {
        Some((Opcode::F32Trunc, "f32.trunc"@, ImmKind::NoArgs, None))
    } else if b == 0x90u8 {
        Some((Opcode::F32Nearest, "f32.nearest"@, ImmKind::NoArgs, None))
    } else if b == 0x91u8 {
        Some((Opcode::F32Sqrt, "f32.sqrt"@, ImmKind::NoArgs, None))
    } else if b == 0x92u8 {
        Some((Opcode::F32Add, "f32.add"@, ImmKind::NoArgs, None))
    } else if b == 0x93u8 {
        Some((Opcode::F32Sub, "f32.sub"@, ImmKind::NoArgs, None))
    } else if b == 0x94u8 {
        Some((Opcode::F32Mul, "f32.mul"@, ImmKind::NoArgs, None))
    } else if b == 0x95u8 {
        Some((Opcode::F32Div, "f32.div"@, ImmKind::NoArgs, None))
    } else if b == 0x96u8 {
        Some((Opcode::F32Min, "f32.min"@, ImmKind::NoArgs, None))
    } else if b == 0x97u8 {
        Some((Opcode::F32Max, "f32.max"@, ImmKind::NoArgs, None))
    } else if b == 0x98u8 {
        Some((Opcode::F32Copysign, "f32.copysign"@, ImmKind::NoArgs, None))
    } else if b == 0x99u8 {
        Some((Opcode::F64Abs, "f64.abs"@, ImmKind::NoArgs, None))
    } else if b == 0x9Au8 {
        Some((Opcode::F64Neg, "f64.neg"@, ImmKind::NoArgs, None))
    } else if b == 0x9Bu8 {
        Some((Opcode::F64Ceil, "f64.ceil"@, ImmKind::NoArgs, None))
    } else if b == 0x9Cu8 {
        Some((Opcode::F64Floor, "f64.floor"@, ImmKind::NoArgs, None))
    } else if b == 0x9Du8 {
        Some((Opcode::F64Trunc, "f64.trunc"@, ImmKind::NoArgs, None))
    } else if b == 0x9Eu8 {
        Some((Opcode::F64Nearest, "f64.nearest"@, ImmKind::NoArgs, None))
    } else if b == 0x9Fu8 {
        Some((Opcode::F64Sqrt, "f64.sqrt"@, ImmKind::NoArgs, None))
    } else if b == 0xA0u8 {
        Some((Opcode::F64Add, "f64.add"@, ImmKind::NoArgs, None))
    } else if b == 0xA1u8 {
        Some((Opcode::F64Sub, "f64.sub"@, ImmKind::NoArgs, None))
    } else if b == 0xA2u8 {
        Some((Opcode::F64Mul, "f64.mul"@, ImmKind::NoArgs, None))
    } else if b == 0xA3u8 {
        Some((Opcode::F64Div, "f64.div"@, ImmKind::NoArgs, None))
    } else if b == 0xA4u8 {
        Some((Opcode::F64Min, "f64.min"@, ImmKind::NoArgs, None))
    } else if b == 0xA5u8 {
        Some((Opcode::F64Max, "f64.max"@, ImmKind::NoArgs, None))
    } else if b == 0xA6u8 {
        Some((Opcode::F64Copysign, "f64.copysign"@, ImmKind::NoArgs, None))
    } else if b == 0xA7u8 {
        Some((Opcode::I32WrapI64, "i32.wrap_i64"@, ImmKind::NoArgs, None))
    } else if b == 0xA8u8 {
        Some((Opcode::I32TruncF32S, "i32.trunc_f32_s"@, ImmKind::NoArgs, None))
    } else if b == 0xA9u8 {
        Some((Opcode::I32TruncF32U, "i32.trunc_f32_u"@, ImmKind::NoArgs, None))
    } else if b == 0xAAu8 {
        Some((Opcode::I32TruncF64S, "i32.trunc_f64_s"@, ImmKind::NoArgs, None))
    } else if b == 0xABu8 {
        Some((Opcode::I32TruncF64U, "i32.trunc_f64_u"@, ImmKind::NoArgs, None))
    } else if b == 0xACu8 {
        Some((Opcode::I64ExtendI32S, "i64.extend_i32_s"@, ImmKind::NoArgs, None))
    } else if b == 0xADu8 {
        Some((Opcode::I64ExtendI32U, "i64.extend_i32_u"@, ImmKind::NoArgs, None))
    } else if b == 0xAEu8 {
        Some((Opcode::I64TruncF32S, "i64.trunc_f32_s"@, ImmKind::NoArgs, None))
    } else if b == 0xAFu8 {
        Some((Opcode::I64TruncF32U, "i64.trunc_f32_u"@, ImmKind::NoArgs, None))
    } else if b == 0xB0u8 {
        Some((Opcode::I64TruncF64S, "i64.trunc_f64_s"@, ImmKind::NoArgs, None))
    } else if b == 0xB1u8 {
        Some((Opcode::I64TruncF64U, "i64.trunc_f64_u"@, ImmKind::NoArgs, None))
    } else if b == 0xB2u8 {
        Some((Opcode::F32ConvertI32S, "f32.convert_i32_s"@, ImmKind::NoArgs, None))
    } else if b == 0xB3u8 {
        Some((Opcode::F32ConvertI32U, "f32.convert_i32_u"@, ImmKind::NoArgs, None))
    } else if b == 0xB4u8 {
        Some((Opcode::F32ConvertI64S, "f32.convert_i64_s"@, ImmKind::NoArgs, None))
    } else if b == 0xB5u8 {
        Some((Opcode::F32ConvertI64U, "f32.convert_i64_u"@, ImmKind::NoArgs, None))
    } else if b == 0xB6u8 {
        Some((Opcode::F32DemoteF64, "f32.demote_f64"@, ImmKind::NoArgs, None))
    } else if b == 0xB7u8 {
        Some((Opcode::F64ConvertI32S, "f64.convert_i32_s"@, ImmKind::NoArgs, None))
    } else if b == 0xB8u8 {
        Some((Opcode::F64ConvertI32U, "f64.convert_i32_u"@, ImmKind::NoArgs, None))
    } else if b == 0xB9u8 {
        Some((Opcode::F64ConvertI64S, "f64.convert_i64_s"@, ImmKind::NoArgs, None))
    } else if b == 0xBAu8 {
        Some((Opcode::F64ConvertI64U, "f64.convert_i64_u"@, ImmKind::NoArgs, None))
    } else if b == 0xBBu8 {
        Some((Opcode::F64PromoteF32, "f64.promote_f32"@, ImmKind::NoArgs, None))
    } else if b == 0xBCu8 {
        Some((Opcode::I32ReinterpretF32, "i32.reinterpret_f32"@, ImmKind::NoArgs, None))
    } else if b == 0xBDu8 {
        Some((Opcode::I64ReinterpretF64, "i64.reinterpret_f64"@, ImmKind::NoArgs, None))
    } else if b == 0xBEu8 {
        Some((Opcode::F32ReinterpretI32, "f32.reinterpret_i32"@, ImmKind::NoArgs, None))
    } else if b == 0xBFu8 {
        Some((Opcode::F64ReinterpretI64, "f64.reinterpret_i64"@, ImmKind::NoArgs, None))
    } else if b == 0xC0u8 {
        Some((Opcode::I32Extend8S, "i32.extend8_s"@, ImmKind::NoArgs, None))
    } else if b == 0xC1u8 {
        Some((Opcode::I32Extend16S, "i32.extend16_s"@, ImmKind::NoArgs, None))
    } else if b == 0xC2u8 {
        Some((Opcode::I64Extend8S, "i64.extend8_s"@, ImmKind::NoArgs, None))
    } else if b == 0xC3u8 {
        Some((Opcode::I64Extend16S, "i64.extend16_s"@, ImmKind::NoArgs, None))
    } else if b == 0xC4u8 {
        Some((Opcode::I64Extend32S, "i64.extend32_s"@, ImmKind::NoArgs, None))
    } else if b == 0xD0u8 {
        Some((Opcode::RefNull, "ref.null"@, ImmKind::RefType, None))
    } else if b == 0xD1u8 {
        Some((Opcode::RefIsNull, "ref.is_null"@, ImmKind::NoArgs, None))
    } else if b == 0xD2u8 {
        Some((Opcode::RefFunc, "ref.func"@, ImmKind::Func, None))
    } else if b == 0x25u8 {
        Some((Opcode::TableGet, "table.get"@, ImmKind::Table, None))
    } else if b == 0x26u8 {
        Some((Opcode::TableSet, "table.set"@, ImmKind::Table, None))
    } else if b == 0x12u8 {
        Some((Opcode::ReturnCall, "return_call"@, ImmKind::Func, None))
    } else if b == 0x13u8 {
        Some((Opcode::ReturnCallIndirect, "return_call_indirect"@, ImmKind::CallIndirect, None))
    } else if b == 0x06u8 {
        Some((Opcode::Try, "try"@, ImmKind::Block, None))
    } else if b == 0x07u8 {
        Some((Opcode::Catch, "catch"@, ImmKind::Tag, None))
    } else if b == 0x08u8 {
        Some((Opcode::Throw, "throw"@, ImmKind::Tag, None))
    } else if b == 0x09u8 {
        Some((Opcode::Rethrow, "rethrow"@, ImmKind::Label, None))
    } else if b == 0x18u8 {
        Some((Opcode::Delegate, "delegate"@, ImmKind::Label, None))
    } else if b == 0x19u8 {
        Some((Opcode::CatchAll, "catch_all"@, ImmKind::NoArgs, None))
    } else {
        None
    }
}

/// The instruction the specification lists for the prefix byte `0xFC` followed by `code`, if any: the opcode, its name in
/// the text format, the kind of its immediate arguments, and its natural alignment if it accesses
/// memory.
pub open spec fn listed_fc(code: u32) -> Option<(Opcode, Seq<char>, ImmKind, Option<Align>)> {
    if code == 0u32 {
        Some((Opcode::I32TruncSatF32S, "i32.trunc_sat_f32_s"@, ImmKind::NoArgs, None))
    } else if code == 1u32 {
        Some((Opcode::I32TruncSatF32U, "i32.trunc_sat_f32_u"@, ImmKind::NoArgs, None))
    } else if code == 2u32 {
        Some((Opcode::I32TruncSatF64S, "i32.trunc_sat_f64_s"@, ImmKind::NoArgs, None))
    } else if code == 3u32 {
        Some((Opcode::I32TruncSatF64U, "i32.trunc_sat_f64_u"@, ImmKind::NoArgs, None))
    } else if code == 4u32 {
        Some((Opcode::I64TruncSatF32S, "i64.trunc_sat_f32_s"@, ImmKind::NoArgs, None))
    } else if code == 5u32 {
        Some((Opcode::I64TruncSatF32U, "i64.trunc_sat_f32_u"@, ImmKind::NoArgs, None))
    } else if code == 6u32 {
        Some((Opcode::I64TruncSatF64S, "i64.trunc_sat_f64_s"@, ImmKind::NoArgs, None))
    } else if code == 7u32 {
        Some((Opcode::I64TruncSatF64U, "i64.trunc_sat_f64_u"@, ImmKind::NoArgs, None))
    } else if code == 10u32 {
        Some((Opcode::MemoryCopy, "memory.copy"@, ImmKind::MemoryCopy, None))
    } else if code == 11u32 {
        Some((Opcode::MemoryFill, "memory.fill"@, ImmKind::Memory, None))
    } else if code == 8u32 {
        Some((Opcode::MemoryInit, "memory.init"@, ImmKind::MemoryInit, None))
    } else if code == 9u32 {
        Some((Opcode::DataDrop, "data.drop"@, ImmKind::Data, None))
    } else if code == 14u32 {
        Some((Opcode::TableCopy, "table.copy"@, ImmKind::TableCopy, None))
    } else if code == 12u32 {
        Some((Opcode::TableInit, "table.init"@, ImmKind::TableInit, None))
    } else if code == 13u32 {
        Some((Opcode::ElemDrop, "elem.drop"@, ImmKind::Elem, None))
    } else if code == 16u32 {
        Some((Opcode::TableSize, "table.size"@, ImmKind::Table, None))
    } else if code == 15u32 {
        Some((Opcode::TableGrow, "table.grow"@, ImmKind::Table, None))
    } else if code == 17u32 {
        Some((Opcode::TableFill, "table.fill"@, ImmKind::Table, None))
    } else {
        None
    }
}

/// The instruction the specification lists for the prefix byte `0xFD` followed by `code`, if any: the opcode, its name in
/// the text format, the kind of its immediate arguments, and its natural alignment if it accesses
/// memory.
pub open spec fn listed_fd(code: u32) -> Option<(Opcode, Seq<char>, ImmKind, Option<Align>)> {
    if code == 0u32 {
        Some((Opcode::V128Load, "v128.load"@, ImmKind::Mem, Some(Align::Sixteen)))
    } else if code == 1u32 {
        Some((Opcode::V128Load8x8S, "v128.load8x8_s"@, ImmKind::Mem, Some(Align::Eight)))
    } else if code == 2u32 {
        Some((Opcode::V128Load8x8U, "v128.load8x8_u"@, ImmKind::Mem, Some(Align::Eight)))
    } else if code == 3u32 {
        Some((Opcode::V128Load16x4S, "v128.load16x4_s"@, ImmKind::Mem, Some(Align::Eight)))
    } else if code == 4u32 {
        Some((Opcode::V128Load16x4U, "v128.load16x4_u"@, ImmKind::Mem, Some(Align::Eight)))
    } else if code == 5u32 {
        Some((Opcode::V128Load32x2S, "v128.load32x2_s"@, ImmKind::Mem, Some(Align::Eight)))
    } else if code == 6u32 {
        Some((Opcode::V128Load32x2U, "v128.load32x2_u"@, ImmKind::Mem, Some(Align::Eight)))
    } else if code == 7u32 {
        Some((Opcode::V128Load8Splat, "v128.load8_splat"@, ImmKind::Mem, Some(Align::Any)))
    } else if code == 8u32 {
        Some((Opcode::V128Load16Splat, "v128.load16_splat"@, ImmKind::Mem, Some(Align::Two)))
    } else if code == 9u32 {
        Some((Opcode::V128Load32Splat, "v128.load32_splat"@, ImmKind::Mem, Some(Align::Four)))
    } else if code == 10u32 {
        Some((Opcode::V128Load64Splat, "v128.load64_splat"@, ImmKind::Mem, Some(Align::Eight)))
    } else if code == 92u32 {
        Some((Opcode::V128Load32Zero, "v128.load32_zero"@, ImmKind::Mem, Some(Align::Four)))
    } else if code == 93u32 {
        Some((Opcode::V128Load64Zero, "v128.load64_zero"@, ImmKind::Mem, Some(Align::Eight)))
    } else if code == 11u32 {
        Some((Opcode::V128Store, "v128.store"@, ImmKind::Mem, Some(Align::Sixteen)))
    } else if code == 84u32 {
        Some((Opcode::V128Load8Lane, "v128.load8_lane"@, ImmKind::MemLane, Some(Align::Any)))
    } else if code == 85u32 {
        Some((Opcode::V128Load16Lane, "v128.load16_lane"@, ImmKind::MemLane, Some(Align::Two)))
    } else if code == 86u32 {
        Some((Opcode::V128Load32Lane, "v128.load32_lane"@, ImmKind::MemLane, Some(Align::Four)))
    } else if code == 87u32 {
        Some((Opcode::V128Load64Lane, "v128.load64_lane"@, ImmKind::MemLane, Some(Align::Eight)))
    } else if code == 88u32 {
        Some((Opcode::V128Store8Lane, "v128.store8_lane"@, ImmKind::MemLane, Some(Align::Any)))
    } else if code == 89u32 {
        Some((Opcode::V128Store16Lane, "v128.store16_lane"@, ImmKind::MemLane, Some(Align::Two)))
    } else if code == 90u32 {
        Some((Opcode::V128Store32Lane, "v128.store32_lane"@, ImmKind::MemLane, Some(Align::Four)))
    } else if code == 91u32 {
        Some((Opcode::V128Store64Lane, "v128.store64_lane"@, ImmKind::MemLane, Some(Align::Eight)))
    } else if code == 12u32 {
        Some((Opcode::V128Const, "v128.const"@, ImmKind::V128, None))
    } else if code == 13u32 {
        Some((Opcode::I8x16Shuffle, "i8x16.shuffle"@, ImmKind::Shuffle, None))
    } else if code == 14u32 {
        Some((Opcode::I8x16Swizzle, "i8x16.swizzle"@, ImmKind::NoArgs, None))
    } else if code == 15u32 {
        Some((Opcode::I8x16Splat, "i8x16.splat"@, ImmKind::NoArgs, None))
    } else if code == 16u32 {
        Some((Opcode::I16x8Splat, "i16x8.splat"@, ImmKind::NoArgs, None))
    } else if code == 17u32 {
        Some((Opcode::I32x4Splat, "i32x4.splat"@, ImmKind::NoArgs, None))
    } else if code == 18u32 {
        Some((Opcode::I64x2Splat, "i64x2.splat"@, ImmKind::NoArgs, None))
    } else if code == 19u32 {
        Some((Opcode::F32x4Splat, "f32x4.splat"@, ImmKind::NoArgs, None))
    } else if code == 20u32 {
        Some((Opcode::F64x2Splat, "f64x2.splat"@, ImmKind::NoArgs, None))
    } else if code == 21u32 {
        Some((Opcode::I8x16ExtractLaneS, "i8x16.extract_lane_s"@, ImmKind::Lane, None))
    } else if code == 22u32 {
        Some((Opcode::I8x16ExtractLaneU, "i8x16.extract_lane_u"@, ImmKind::Lane, None))
    } else if code == 23u32 {
        Some((Opcode::I8x16ReplaceLane, "i8x16.replace_lane"@, ImmKind::Lane, None))
    } else if code == 24u32 {
        Some((Opcode::I16x8ExtractLaneS, "i16x8.extract_lane_s"@, ImmKind::Lane, None))
    } else if code == 25u32 {
        Some((Opcode::I16x8ExtractLaneU, "i16x8.extract_lane_u"@, ImmKind::Lane, None))
    } else if code == 26u32 {
        Some((Opcode::I16x8ReplaceLane, "i16x8.replace_lane"@, ImmKind::Lane, None))
    } else if code == 27u32 {
        Some((Opcode::I32x4ExtractLane, "i32x4.extract_lane"@, ImmKind::Lane, None))
    } else if code == 28u32 {
        Some((Opcode::I32x4ReplaceLane, "i32x4.replace_lane"@, ImmKind::Lane, None))
    } else if code == 29u32 {
        Some((Opcode::I64x2ExtractLane, "i64x2.extract_lane"@, ImmKind::Lane, None))
    } else if code == 30u32 {
        Some((Opcode::I64x2ReplaceLane, "i64x2.replace_lane"@, ImmKind::Lane, None))
    } else if code == 31u32 {
        Some((Opcode::F32x4ExtractLane, "f32x4.extract_lane"@, ImmKind::Lane, None))
    } else if code == 32u32 {
        Some((Opcode::F32x4ReplaceLane, "f32x4.replace_lane"@, ImmKind::Lane, None))
    } else if code == 33u32 {
        Some((Opcode::F64x2ExtractLane, "f64x2.extract_lane"@, ImmKind::Lane, None))
    } else if code == 34u32 {
        Some((Opcode::F64x2ReplaceLane, "f64x2.replace_lane"@, ImmKind::Lane, None))
    } else if code == 35u32 {
        Some((Opcode::I8x16Eq, "i8x16.eq"@, ImmKind::NoArgs, None))
    } else if code == 36u32 {
        Some((Opcode::I8x16Ne, "i8x16.ne"@, ImmKind::NoArgs, None))
    } else if code == 37u32 {
        Some((Opcode::I8x16LtS, "i8x16.lt_s"@, ImmKind::NoArgs, None))
    } else if code == 38u32 {
        Some((Opcode::I8x16LtU, "i8x16.lt_u"@, ImmKind::NoArgs, None))
    } else if code == 39u32 {
        Some((Opcode::I8x16GtS, "i8x16.gt_s"@, ImmKind::NoArgs, None))
    } else if code == 40u32 {
        Some((Opcode::I8x16GtU, "i8x16.gt_u"@, ImmKind::NoArgs, None))
    } else if code == 41u32 {
        Some((Opcode::I8x16LeS, "i8x16.le_s"@, ImmKind::NoArgs, None))
    } else if code == 42u32 {
        Some((Opcode::I8x16LeU, "i8x16.le_u"@, ImmKind::NoArgs, None))
    } else if code == 43u32 {
        Some((Opcode::I8x16GeS, "i8x16.ge_s"@, ImmKind::NoArgs, None))
    } else if code == 44u32 {
        Some((Opcode::I8x16GeU, "i8x16.ge_u"@, ImmKind::NoArgs, None))
    } else if code == 45u32 {
        Some((Opcode::I16x8Eq, "i16x8.eq"@, ImmKind::NoArgs, None))
    } else if code == 46u32 {
        Some((Opcode::I16x8Ne, "i16x8.ne"@, ImmKind::NoArgs, None))
    } else if code == 47u32 {
        Some((Opcode::I16x8LtS, "i16x8.lt_s"@, ImmKind::NoArgs, None))
    } else if code == 48u32 {
        Some((Opcode::I16x8LtU, "i16x8.lt_u"@, ImmKind::NoArgs, None))
    } else if code == 49u32 {
        Some((Opcode::I16x8GtS, "i16x8.gt_s"@, ImmKind::NoArgs, None))
    } else if code == 50u32 {
        Some((Opcode::I16x8GtU, "i16x8.gt_u"@, ImmKind::NoArgs, None))
    } else if code == 51u32 {
        Some((Opcode::I16x8LeS, "i16x8.le_s"@, ImmKind::NoArgs, None))
    } else if code == 52u32 {
        Some((Opcode::I16x8LeU, "i16x8.le_u"@, ImmKind::NoArgs, None))
    } else if code == 53u32 {
        Some((Opcode::I16x8GeS, "i16x8.ge_s"@, ImmKind::NoArgs, None))
    } else if code == 54u32 {
        Some((Opcode::I16x8GeU, "i16x8.ge_u"@, ImmKind::NoArgs, None))
    } else if code == 55u32 {
        Some((Opcode::I32x4Eq, "i32x4.eq"@, ImmKind::NoArgs, None))
    } else if code == 56u32 {
        Some((Opcode::I32x4Ne, "i32x4.ne"@, ImmKind::NoArgs, None))
    } else if code == 57u32 {
        Some((Opcode::I32x4LtS, "i32x4.lt_s"@, ImmKind::NoArgs, None))
    } else if code == 58u32 {
        Some((Opcode::I32x4LtU, "i32x4.lt_u"@, ImmKind::NoArgs, None))
    } else if code == 59u32 {
        Some((Opcode::I32x4GtS, "i32x4.gt_s"@, ImmKind::NoArgs, None))
    } else if code == 60u32 {
        Some((Opcode::I32x4GtU, "i32x4.gt_u"@, ImmKind::NoArgs, None))
    } else if code == 61u32 {
        Some((Opcode::I32x4LeS, "i32x4.le_s"@, ImmKind::NoArgs, None))
    } else if code == 62u32 {
        Some((Opcode::I32x4LeU, "i32x4.le_u"@, ImmKind::NoArgs, None))
    } else if code == 63u32 {
        Some((Opcode::I32x4GeS, "i32x4.ge_s"@, ImmKind::NoArgs, None))
    } else if code == 64u32 {
        Some((Opcode::I32x4GeU, "i32x4.ge_u"@, ImmKind::NoArgs, None))
    } else if code == 65u32 {
        Some((Opcode::F32x4Eq, "f32x4.eq"@, ImmKind::NoArgs, None))
    } else if code == 66u32 {
        Some((Opcode::F32x4Ne, "f32x4.ne"@, ImmKind::NoArgs, None))
    } else if code == 67u32 {
        Some((Opcode::F32x4Lt, "f32x4.lt"@, ImmKind::NoArgs, None))
    } else if code == 68u32 {
        Some((Opcode::F32x4Gt, "f32x4.gt"@, ImmKind::NoArgs, None))
    } else if code == 69u32 {
        Some((Opcode::F32x4Le, "f32x4.le"@, ImmKind::NoArgs, None))
    } else if code == 70u32 {
        Some((Opcode::F32x4Ge, "f32x4.ge"@, ImmKind::NoArgs, None))
    } else if code == 71u32 {
        Some((Opcode::F64x2Eq, "f64x2.eq"@, ImmKind::NoArgs, None))
    } else if code == 72u32 {
        Some((Opcode::F64x2Ne, "f64x2.ne"@, ImmKind::NoArgs, None))
    } else if code == 73u32 {
        Some((Opcode::F64x2Lt, "f64x2.lt"@, ImmKind::NoArgs, None))
    } else if code == 74u32 {
        Some((Opcode::F64x2Gt, "f64x2.gt"@, ImmKind::NoArgs, None))
    } else if code == 75u32 {
        Some((Opcode::F64x2Le, "f64x2.le"@, ImmKind::NoArgs, None))
    } else if code == 76u32 {
        Some((Opcode::F64x2Ge, "f64x2.ge"@, ImmKind::NoArgs, None))
    } else if code == 77u32 {
        Some((Opcode::V128Not, "v128.not"@, ImmKind::NoArgs, None))
    } else if code == 78u32 {
        Some((Opcode::V128And, "v128.and"@, ImmKind::NoArgs, None))
    } else if code == 79u32 {
        Some((Opcode::V128AndNot, "v128.andnot"@, ImmKind::NoArgs, None))
    } else if code == 80u32 {
        Some((Opcode::V128Or, "v128.or"@, ImmKind::NoArgs, None))
    } else if code == 81u32 {
        Some((Opcode::V128Xor, "v128.xor"@, ImmKind::NoArgs, None))
    } else if code == 82u32 {
        Some((Opcode::V128Bitselect, "v128.bitselect"@, ImmKind::NoArgs, None))
    } else if code == 83u32 {
        Some((Opcode::V128AnyTrue, "v128.any_true"@, ImmKind::NoArgs, None))
    } else if code == 94u32 {
        Some((Opcode::F32x4DemoteF64x2Zero, "f32x4.demote_f64x2_zero"@, ImmKind::NoArgs, None))
    } else if code == 95u32 {
        Some((Opcode::F64x2PromoteLowF32x4, "f64x2.promote_low_f32x4"@, ImmKind::NoArgs, None))
    } else if code == 96u32 {
        Some((Opcode::I8x16Abs, "i8x16.abs"@, ImmKind::NoArgs, None))
    } else if code == 97u32 {
        Some((Opcode::I8x16Neg, "i8x16.neg"@, ImmKind::NoArgs, None))
    } else if code == 98u32 {
        Some((Opcode::I8x16Popcnt, "i8x16.popcnt"@, ImmKind::NoArgs, None))
    } else if code == 99u32 {
        Some((Opcode::I8x16AllTrue, "i8x16.all_true"@, ImmKind::NoArgs, None))
    } else if code == 100u32 {
        Some((Opcode::I8x16Bitmask, "i8x16.bitmask"@, ImmKind::NoArgs, None))
    } else if code == 101u32 {
        Some((Opcode::I8x16NarrowI16x8S, "i8x16.narrow_i16x8_s"@, ImmKind::NoArgs, None))
    } else if code == 102u32 {
        Some((Opcode::I8x16NarrowI16x8U, "i8x16.narrow_i16x8_u"@, ImmKind::NoArgs, None))
    } else if code == 103u32 {
        Some((Opcode::F32x4Ceil, "f32x4.ceil"@, ImmKind::NoArgs, None))
    } else if code == 104u32 {
        Some((Opcode::F32x4Floor, "f32x4.floor"@, ImmKind::NoArgs, None))
    } else if code == 105u32 {
        Some((Opcode::F32x4Trunc, "f32x4.trunc"@, ImmKind::NoArgs, None))
    } else if code == 106u32 {
        Some((Opcode::F32x4Nearest, "f32x4.nearest"@, ImmKind::NoArgs, None))
    } else if code == 107u32 {
        Some((Opcode::I8x16Shl, "i8x16.shl"@, ImmKind::NoArgs, None))
    } else if code == 108u32 {
        Some((Opcode::I8x16ShrS, "i8x16.shr_s"@, ImmKind::NoArgs, None))
    } else if code == 109u32 {
        Some((Opcode::I8x16ShrU, "i8x16.shr_u"@, ImmKind::NoArgs, None))
    } else if code == 110u32 {
        Some((Opcode::I8x16Add, "i8x16.add"@, ImmKind::NoArgs, None))
    } else if code == 111u32 {
        Some((Opcode::I8x16AddSatS, "i8x16.add_sat_s"@, ImmKind::NoArgs, None))
    } else if code == 112u32 {
        Some((Opcode::I8x16AddSatU, "i8x16.add_sat_u"@, ImmKind::NoArgs, None))
    } else if code == 113u32 {
        Some((Opcode::I8x16Sub, "i8x16.sub"@, ImmKind::NoArgs, None))
    } else if code == 114u32 {
        Some((Opcode::I8x16SubSatS, "i8x16.sub_sat_s"@, ImmKind::NoArgs, None))
    } else if code == 115u32 {
        Some((Opcode::I8x16SubSatU, "i8x16.sub_sat_u"@, ImmKind::NoArgs, None))
    } else if code == 116u32 {
        Some((Opcode::F64x2Ceil, "f64x2.ceil"@, ImmKind::NoArgs, None))
    } else if code == 117u32 {
        Some((Opcode::F64x2Floor, "f64x2.floor"@, ImmKind::NoArgs, None))
    } else if code == 118u32 {
        Some((Opcode::I8x16MinS, "i8x16.min_s"@, ImmKind::NoArgs, None))
    } else if code == 119u32 {
        Some((Opcode::I8x16MinU, "i8x16.min_u"@, ImmKind::NoArgs, None))
    } else if code == 120u32 {
        Some((Opcode::I8x16MaxS, "i8x16.max_s"@, ImmKind::NoArgs, None))
    } else if code == 121u32 {
        Some((Opcode::I8x16MaxU, "i8x16.max_u"@, ImmKind::NoArgs, None))
    } else if code == 122u32 {
        Some((Opcode::F64x2Trunc, "f64x2.trunc"@, ImmKind::NoArgs, None))
    } else if code == 123u32 {
        Some((Opcode::I8x16AvgrU, "i8x16.avgr_u"@, ImmKind::NoArgs, None))
    } else if code == 124u32 {
        Some((Opcode::I16x8ExtaddPairwiseI8x16S, "i16x8.extadd_pairwise_i8x16_s"@, ImmKind::NoArgs, None))
    } else if code == 125u32 {
        Some((Opcode::I16x8ExtaddPairwiseI8x16U, "i16x8.extadd_pairwise_i8x16_u"@, ImmKind::NoArgs, None))
    } else if code == 126u32 {
        Some((Opcode::I32x4ExtaddPairwiseI16x8S, "i32x4.extadd_pairwise_i16x8_s"@, ImmKind::NoArgs, None))
    } else if code == 127u32 {
        Some((Opcode::I32x4ExtaddPairwiseI16x8U, "i32x4.extadd_pairwise_i16x8_u"@, ImmKind::NoArgs, None))
    } else if code == 128u32 {
        Some((Opcode::I16x8Abs, "i16x8.abs"@, ImmKind::NoArgs, None))
    } else if code == 129u32 {
        Some((Opcode::I16x8Neg, "i16x8.neg"@, ImmKind::NoArgs, None))
    } else if code == 130u32 {
        Some((Opcode::I16x8Q15mulrSatS, "i16x8.q15mulr_sat_s"@, ImmKind::NoArgs, None))
    } else if code == 131u32 {
        Some((Opcode::I16x8AllTrue, "i16x8.all_true"@, ImmKind::NoArgs, None))
    } else if code == 132u32 {
        Some((Opcode::I16x8Bitmask, "i16x8.bitmask"@, ImmKind::NoArgs, None))
    } else if code == 133u32 {
        Some((Opcode::I16x8NarrowI32x4S, "i16x8.narrow_i32x4_s"@, ImmKind::NoArgs, None))
    } else if code == 134u32 {
        Some((Opcode::I16x8NarrowI32x4U, "i16x8.narrow_i32x4_u"@, ImmKind::NoArgs, None))
    } else if code == 135u32 {
        Some((Opcode::I16x8ExtendLowI8x16S, "i16x8.extend_low_i8x16_s"@, ImmKind::NoArgs, None))
    } else if code == 136u32 {
        Some((Opcode::I16x8ExtendHighI8x16S, "i16x8.extend_high_i8x16_s"@, ImmKind::NoArgs, None))
    } else if code == 137u32 {
        Some((Opcode::I16x8ExtendLowI8x16U, "i16x8.extend_low_i8x16_u"@, ImmKind::NoArgs, None))
    } else if code == 138u32 {
        Some((Opcode::I16x8ExtendHighI8x16U, "i16x8.extend_high_i8x16_u"@, ImmKind::NoArgs, None))
    } else if code == 139u32 {
        Some((Opcode::I16x8Shl, "i16x8.shl"@, ImmKind::NoArgs, None))
    } else if code == 140u32 {
        Some((Opcode::I16x8ShrS, "i16x8.shr_s"@, ImmKind::NoArgs, None))
    } else if code == 141u32 {
        Some((Opcode::I16x8ShrU, "i16x8.shr_u"@, ImmKind::NoArgs, None))
    } else if code == 142u32 {
        Some((Opcode::I16x8Add, "i16x8.add"@, ImmKind::NoArgs, None))
    } else if code == 143u32 {
        Some((Opcode::I16x8AddSatS, "i16x8.add_sat_s"@, ImmKind::NoArgs, None))
    } else if code == 144u32 {
        Some((Opcode::I16x8AddSatU, "i16x8.add_sat_u"@, ImmKind::NoArgs, None))
    } else if code == 145u32 {
        Some((Opcode::I16x8Sub, "i16x8.sub"@, ImmKind::NoArgs, None))
    } else if code == 146u32 {
        Some((Opcode::I16x8SubSatS, "i16x8.sub_sat_s"@, ImmKind::NoArgs, None))
    } else if code == 147u32 {
        Some((Opcode::I16x8SubSatU, "i16x8.sub_sat_u"@, ImmKind::NoArgs, None))
    } else if code == 148u32 {
        Some((Opcode::F64x2Nearest, "f64x2.nearest"@, ImmKind::NoArgs, None))
    } else if code == 149u32 {
        Some((Opcode::I16x8Mul, "i16x8.mul"@, ImmKind::NoArgs, None))
    } else if code == 150u32 {
        Some((Opcode::I16x8MinS, "i16x8.min_s"@, ImmKind::NoArgs, None))
    } else if code == 151u32 {
        Some((Opcode::I16x8MinU, "i16x8.min_u"@, ImmKind::NoArgs, None))
    } else if code == 152u32 {
        Some((Opcode::I16x8MaxS, "i16x8.max_s"@, ImmKind::NoArgs, None))
    } else if code == 153u32 {
        Some((Opcode::I16x8MaxU, "i16x8.max_u"@, ImmKind::NoArgs, None))
    } else if code == 155u32 {
        Some((Opcode::I16x8AvgrU, "i16x8.avgr_u"@, ImmKind::NoArgs, None))
    } else if code == 156u32 {
        Some((Opcode::I16x8ExtmulLowI8x16S, "i16x8.extmul_low_i8x16_s"@, ImmKind::NoArgs, None))
    } else if code == 157u32 {
        Some((Opcode::I16x8ExtmulHighI8x16S, "i16x8.extmul_high_i8x16_s"@, ImmKind::NoArgs, None))
    } else if code == 158u32 {
        Some((Opcode::I16x8ExtmulLowI8x16U, "i16x8.extmul_low_i8x16_u"@, ImmKind::NoArgs, None))
    } else if code == 159u32 {
        Some((Opcode::I16x8ExtmulHighI8x16U, "i16x8.extmul_high_i8x16_u"@, ImmKind::NoArgs, None))
    } else if code == 160u32 {
        Some((Opcode::I32x4Abs, "i32x4.abs"@, ImmKind::NoArgs, None))
    } else if code == 161u32 {
        Some((Opcode::I32x4Neg, "i32x4.neg"@, ImmKind::NoArgs, None))
    } else if code == 163u32 {
        Some((Opcode::I32x4AllTrue, "i32x4.all_true"@, ImmKind::NoArgs, None))
    } else if code == 164u32 {
        Some((Opcode::I32x4Bitmask, "i32x4.bitmask"@, ImmKind::NoArgs, None))
    } else if code == 167u32 {
        Some((Opcode::I32x4ExtendLowI16x8S, "i32x4.extend_low_i16x8_s"@, ImmKind::NoArgs, None))
    } else if code == 168u32 {
        Some((Opcode::I32x4ExtendHighI16x8S, "i32x4.extend_high_i16x8_s"@, ImmKind::NoArgs, None))
    } else if code == 169u32 {
        Some((Opcode::I32x4ExtendLowI16x8U, "i32x4.extend_low_i16x8_u"@, ImmKind::NoArgs, None))
    } else if code == 170u32 {
        Some((Opcode::I32x4ExtendHighI16x8U, "i32x4.extend_high_i16x8_u"@, ImmKind::NoArgs, None))
    } else if code == 171u32 {
        Some((Opcode::I32x4Shl, "i32x4.shl"@, ImmKind::NoArgs, None))
    } else if code == 172u32 {
        Some((Opcode::I32x4ShrS, "i32x4.shr_s"@, ImmKind::NoArgs, None))
    } else if code == 173u32 {
        Some((Opcode::I32x4ShrU, "i32x4.shr_u"@, ImmKind::NoArgs, None))
    } else if code == 174u32 {
        Some((Opcode::I32x4Add, "i32x4.add"@, ImmKind::NoArgs, None))
    } else if code == 177u32 {
        Some((Opcode::I32x4Sub, "i32x4.sub"@, ImmKind::NoArgs, None))
    } else if code == 181u32 {
        Some((Opcode::I32x4Mul, "i32x4.mul"@, ImmKind::NoArgs, None))
    } else if code == 182u32 {
        Some((Opcode::I32x4MinS, "i32x4.min_s"@, ImmKind::NoArgs, None))
    } else if code == 183u32 {
        Some((Opcode::I32x4MinU, "i32x4.min_u"@, ImmKind::NoArgs, None))
    } else if code == 184u32 {
        Some((Opcode::I32x4MaxS, "i32x4.max_s"@, ImmKind::NoArgs, None))
    } else if code == 185u32 {
        Some((Opcode::I32x4MaxU, "i32x4.max_u"@, ImmKind::NoArgs, None))
    } else if code == 186u32 {
        Some((Opcode::I32x4DotI16x8S, "i32x4.dot_i16x8_s"@, ImmKind::NoArgs, None))
    } else if code == 188u32 {
        Some((Opcode::I32x4ExtmulLowI16x8S, "i32x4.extmul_low_i16x8_s"@, ImmKind::NoArgs, None))
    } else if code == 189u32 {
        Some((Opcode::I32x4ExtmulHighI16x8S, "i32x4.extmul_high_i16x8_s"@, ImmKind::NoArgs, None))
    } else if code == 190u32 {
        Some((Opcode::I32x4ExtmulLowI16x8U, "i32x4.extmul_low_i16x8_u"@, ImmKind::NoArgs, None))
    } else if code == 191u32 {
        Some((Opcode::I32x4ExtmulHighI16x8U, "i32x4.extmul_high_i16x8_u"@, ImmKind::NoArgs, None))
    } else if code == 192u32 {
        Some((Opcode::I64x2Abs, "i64x2.abs"@, ImmKind::NoArgs, None))
    } else if code == 193u32 {
        Some((Opcode::I64x2Neg, "i64x2.neg"@, ImmKind::NoArgs, None))
    } else if code == 195u32 {
        Some((Opcode::I64x2AllTrue, "i64x2.all_true"@, ImmKind::NoArgs, None))
    } else if code == 196u32 {
        Some((Opcode::I64x2Bitmask, "i64x2.bitmask"@, ImmKind::NoArgs, None))
    } else if code == 199u32 {
        Some((Opcode::I64x2ExtendLowI32x4S, "i64x2.extend_low_i32x4_s"@, ImmKind::NoArgs, None))
    } else if code == 200u32 {
        Some((Opcode::I64x2ExtendHighI32x4S, "i64x2.extend_high_i32x4_s"@, ImmKind::NoArgs, None))
    } else if code == 201u32 {
        Some((Opcode::I64x2ExtendLowI32x4U, "i64x2.extend_low_i32x4_u"@, ImmKind::NoArgs, None))
    } else if code == 202u32 {
        Some((Opcode::I64x2ExtendHighI32x4U, "i64x2.extend_high_i32x4_u"@, ImmKind::NoArgs, None))
    } else if code == 203u32 {
        Some((Opcode::I64x2Shl, "i64x2.shl"@, ImmKind::NoArgs, None))
    } else if code == 204u32 {
        Some((Opcode::I64x2ShrS, "i64x2.shr_s"@, ImmKind::NoArgs, None))
    } else if code == 205u32 {
        Some((Opcode::I64x2ShrU, "i64x2.shr_u"@, ImmKind::NoArgs, None))
    } else if code == 206u32 {
        Some((Opcode::I64x2Add, "i64x2.add"@, ImmKind::NoArgs, None))
    } else if code == 209u32 {
        Some((Opcode::I64x2Sub, "i64x2.sub"@, ImmKind::NoArgs, None))
    } else if code == 213u32 {
        Some((Opcode::I64x2Mul, "i64x2.mul"@, ImmKind::NoArgs, None))
    } else if code == 214u32 {
        Some((Opcode::I64x2Eq, "i64x2.eq"@, ImmKind::NoArgs, None))
    } else if code == 215u32 {
        Some((Opcode::I64x2Ne, "i64x2.ne"@, ImmKind::NoArgs, None))
    } else if code == 216u32 {
        Some((Opcode::I64x2LtS, "i64x2.lt_s"@, ImmKind::NoArgs, None))
    } else if code == 217u32 {
        Some((Opcode::I64x2GtS, "i64x2.gt_s"@, ImmKind::NoArgs, None))
    } else if code == 218u32 {
        Some((Opcode::I64x2LeS, "i64x2.le_s"@, ImmKind::NoArgs, None))
    } else if code == 219u32 {
        Some((Opcode::I64x2GeS, "i64x2.ge_s"@, ImmKind::NoArgs, None))
    } else if code == 220u32 {
        Some((Opcode::I64x2ExtmulLowI32x4S, "i64x2.extmul_low_i32x4_s"@, ImmKind::NoArgs, None))
    } else if code == 221u32 {
        Some((Opcode::I64x2ExtmulHighI32x4S, "i64x2.extmul_high_i32x4_s"@, ImmKind::NoArgs, None))
    } else if code == 222u32 {
        Some((Opcode::I64x2ExtmulLowI32x4U, "i64x2.extmul_low_i32x4_u"@, ImmKind::NoArgs, None))
    } else if code == 223u32 {
        Some((Opcode::I64x2ExtmulHighI32x4U, "i64x2.extmul_high_i32x4_u"@, ImmKind::NoArgs, None))
    } else if code == 224u32 {
        Some((Opcode::F32x4Abs, "f32x4.abs"@, ImmKind::NoArgs, None))
    } else if code == 225u32 {
        Some((Opcode::F32x4Neg, "f32x4.neg"@, ImmKind::NoArgs, None))
    } else if code == 227u32 {
        Some((Opcode::F32x4Sqrt, "f32x4.sqrt"@, ImmKind::NoArgs, None))
    } else if code == 228u32 {
        Some((Opcode::F32x4Add, "f32x4.add"@, ImmKind::NoArgs, None))
    } else if code == 229u32 {
        Some((Opcode::F32x4Sub, "f32x4.sub"@, ImmKind::NoArgs, None))
    } else if code == 230u32 {
        Some((Opcode::F32x4Mul, "f32x4.mul"@, ImmKind::NoArgs, None))
    } else if code == 231u32 {
        Some((Opcode::F32x4Div, "f32x4.div"@, ImmKind::NoArgs, None))
    } else if code == 232u32 {
        Some((Opcode::F32x4Min, "f32x4.min"@, ImmKind::NoArgs, None))
    } else if code == 233u32 {
        Some((Opcode::F32x4Max, "f32x4.max"@, ImmKind::NoArgs, None))
    } else if code == 234u32 {
        Some((Opcode::F32x4Pmin, "f32x4.pmin"@, ImmKind::NoArgs, None))
    } else if code == 235u32 {
        Some((Opcode::F32x4Pmax, "f32x4.pmax"@, ImmKind::NoArgs, None))
    } else if code == 236u32 {
        Some((Opcode::F64x2Abs, "f64x2.abs"@, ImmKind::NoArgs, None))
    } else if code == 237u32 {
        Some((Opcode::F64x2Neg, "f64x2.neg"@, ImmKind::NoArgs, None))
    } else if code == 239u32 {
        Some((Opcode::F64x2Sqrt, "f64x2.sqrt"@, ImmKind::NoArgs, None))
    } else if code == 240u32 {
        Some((Opcode::F64x2Add, "f64x2.add"@, ImmKind::NoArgs, None))
    } else if code == 241u32 {
        Some((Opcode::F64x2Sub, "f64x2.sub"@, ImmKind::NoArgs, None))
    } else if code == 242u32 {
        Some((Opcode::F64x2Mul, "f64x2.mul"@, ImmKind::NoArgs, None))
    } else if code == 243u32 {
        Some((Opcode::F64x2Div, "f64x2.div"@, ImmKind::NoArgs, None))
    } else if code == 244u32 {
        Some((Opcode::F64x2Min, "f64x2.min"@, ImmKind::NoArgs, None))
    } else if code == 245u32 {
        Some((Opcode::F64x2Max, "f64x2.max"@, ImmKind::NoArgs, None))
    } else if code == 246u32 {
        Some((Opcode::F64x2Pmin, "f64x2.pmin"@, ImmKind::NoArgs, None))
    } else if code == 247u32 {
        Some((Opcode::F64x2Pmax, "f64x2.pmax"@, ImmKind::NoArgs, None))
    } else if code == 248u32 {
        Some((Opcode::I32x4TruncSatF32x4S, "i32x4.trunc_sat_f32x4_s"@, ImmKind::NoArgs, None))
    } else if code == 249u32 {
        Some((Opcode::I32x4TruncSatF32x4U, "i32x4.trunc_sat_f32x4_u"@, ImmKind::NoArgs, None))
    } else if code == 250u32 {
        Some((Opcode::F32x4ConvertI32x4S, "f32x4.convert_i32x4_s"@, ImmKind::NoArgs, None))
    } else if code == 251u32 {
        Some((Opcode::F32x4ConvertI32x4U, "f32x4.convert_i32x4_u"@, ImmKind::NoArgs, None))
    } else if code == 252u32 {
        Some((Opcode::I32x4TruncSatF64x2SZero, "i32x4.trunc_sat_f64x2_s_zero"@, ImmKind::NoArgs, None))
    } else if code == 253u32 {
        Some((Opcode::I32x4TruncSatF64x2UZero, "i32x4.trunc_sat_f64x2_u_zero"@, ImmKind::NoArgs, None))
    } else if code == 254u32 {
        Some((Opcode::F64x2ConvertLowI32x4S, "f64x2.convert_low_i32x4_s"@, ImmKind::NoArgs, None))
    } else if code == 255u32 {
        Some((Opcode::F64x2ConvertLowI32x4U, "f64x2.convert_low_i32x4_u"@, ImmKind::NoArgs, None))
    } else if code == 256u32 {
        Some((Opcode::I8x16RelaxedSwizzle, "i8x16.relaxed_swizzle"@, ImmKind::NoArgs, None))
    } else if code == 257u32 {
        Some((Opcode::I32x4RelaxedTruncF32x4S, "i32x4.relaxed_trunc_f32x4_s"@, ImmKind::NoArgs, None))
    } else if code == 258u32 {
        Some((Opcode::I32x4RelaxedTruncF32x4U, "i32x4.relaxed_trunc_f32x4_u"@, ImmKind::NoArgs, None))
    } else if code == 259u32 {
        Some((Opcode::I32x4RelaxedTruncF64x2SZero, "i32x4.relaxed_trunc_f64x2_s_zero"@, ImmKind::NoArgs, None))
    } else if code == 260u32 {
        Some((Opcode::I32x4RelaxedTruncF64x2UZero, "i32x4.relaxed_trunc_f64x2_u_zero"@, ImmKind::NoArgs, None))
    } else if code == 261u32 {
        Some((Opcode::F32x4RelaxedMadd, "f32x4.relaxed_madd"@, ImmKind::NoArgs, None))
    } else if code == 262u32 {
        Some((Opcode::F32x4RelaxedNmadd, "f32x4.relaxed_nmadd"@, ImmKind::NoArgs, None))
    } else if code == 263u32 {
        Some((Opcode::F64x2RelaxedMadd, "f64x2.relaxed_madd"@, ImmKind::NoArgs, None))
    } else if code == 264u32 {
        Some((Opcode::F64x2RelaxedNmadd, "f64x2.relaxed_nmadd"@, ImmKind::NoArgs, None))
    } else if code == 265u32 {
        Some((Opcode::I8x16RelaxedLaneselect, "i8x16.relaxed_laneselect"@, ImmKind::NoArgs, None))
    } else if code == 266u32 {
        Some((Opcode::I16x8RelaxedLaneselect, "i16x8.relaxed_laneselect"@, ImmKind::NoArgs, None))
    } else if code == 267u32 {
        Some((Opcode::I32x4RelaxedLaneselect, "i32x4.relaxed_laneselect"@, ImmKind::NoArgs, None))
    } else if code == 268u32 {
        Some((Opcode::I64x2RelaxedLaneselect, "i64x2.relaxed_laneselect"@, ImmKind::NoArgs, None))
    } else if code == 269u32 {
        Some((Opcode::F32x4RelaxedMin, "f32x4.relaxed_min"@, ImmKind::NoArgs, None))
    } else if code == 270u32 {
        Some((Opcode::F32x4RelaxedMax, "f32x4.relaxed_max"@, ImmKind::NoArgs, None))
    } else if code == 271u32 {
        Some((Opcode::F64x2RelaxedMin, "f64x2.relaxed_min"@, ImmKind::NoArgs, None))
    } else if code == 272u32 {
        Some((Opcode::F64x2RelaxedMax, "f64x2.relaxed_max"@, ImmKind::NoArgs, None))
    } else if code == 273u32 {
        Some((Opcode::I16x8RelaxedQ15mulrS, "i16x8.relaxed_q15mulr_s"@, ImmKind::NoArgs, None))
    } else if code == 274u32 {
        Some((Opcode::I16x8RelaxedDotI8x16I7x16S, "i16x8.relaxed_dot_i8x16_i7x16_s"@, ImmKind::NoArgs, None))
    } else if code == 275u32 {
        Some((Opcode::I32x4RelaxedDotI8x16I7x16AddS, "i32x4.relaxed_dot_i8x16_i7x16_add_s"@, ImmKind::NoArgs, None))
    } else {
        None
    }
}

/// The instruction the specification lists for the prefix byte `0xFE` followed by `code`, if any: the opcode, its name in
/// the text format, the kind of its immediate arguments, and its natural alignment if it accesses
/// memory.
pub open spec fn listed_fe(code: u32) -> Option<(Opcode, Seq<char>, ImmKind, Option<Align>)> {
    if code == 0u32 {
        Some((Opcode::MemoryAtomicNotify, "memory.atomic.notify"@, ImmKind::Mem, Some(Align::Four)))
    } else if code == 1u32 {
        Some((Opcode::MemoryAtomicWait32, "memory.atomic.wait32"@, ImmKind::Mem, Some(Align::Four)))
    } else if code == 2u32 {
        Some((Opcode::MemoryAtomicWait64, "memory.atomic.wait64"@, ImmKind::Mem, Some(Align::Eight)))
    } else if code == 16u32 {
        Some((Opcode::I32AtomicLoad, "i32.atomic.load"@, ImmKind::Mem, Some(Align::Four)))
    } else if code == 17u32 {
        Some((Opcode::I64AtomicLoad, "i64.atomic.load"@, ImmKind::Mem, Some(Align::Eight)))
    } else if code == 18u32 {
        Some((Opcode::I32AtomicLoad8U, "i32.atomic.load8_u"@, ImmKind::Mem, Some(Align::Any)))
    } else if code == 19u32 {
        Some((Opcode::I32AtomicLoad16U, "i32.atomic.load16_u"@, ImmKind::Mem, Some(Align::Two)))
    } else if code == 20u32 {
        Some((Opcode::I64AtomicLoad8U, "i64.atomic.load8_u"@, ImmKind::Mem, Some(Align::Any)))
    } else if code == 21u32 {
        Some((Opcode::I64AtomicLoad16U, "i64.atomic.load16_u"@, ImmKind::Mem, Some(Align::Two)))
    } else if code == 22u32 {
        Some((Opcode::I64AtomicLoad32U, "i64.atomic.load32_u"@, ImmKind::Mem, Some(Align::Four)))
    } else if code == 23u32 {
        Some((Opcode::I32AtomicStore, "i32.atomic.store"@, ImmKind::Mem, Some(Align::Four)))
    } else if code == 24u32 {
        Some((Opcode::I64AtomicStore, "i64.atomic.store"@, ImmKind::Mem, Some(Align::Eight)))
    } else if code == 25u32 {
        Some((Opcode::I32AtomicStore8U, "i32.atomic.store8_u"@, ImmKind::Mem, Some(Align::Any)))
    } else if code == 26u32 {
        Some((Opcode::I32AtomicStore16U, "i32.atomic.store16_u"@, ImmKind::Mem, Some(Align::Two)))
    } else if code == 27u32 {
        Some((Opcode::I64AtomicStore8U, "i64.atomic.store8_u"@, ImmKind::Mem, Some(Align::Any)))
    } else if code == 28u32 {
        Some((Opcode::I64AtomicStore16U, "i64.atomic.store16_u"@, ImmKind::Mem, Some(Align::Two)))
    } else if code == 29u32 {
        Some((Opcode::I64AtomicStore32U, "i64.atomic.store32_u"@, ImmKind::Mem, Some(Align::Four)))
    } else if code == 30u32 {
        Some((Opcode::I32AtomicRmwAdd, "i32.atomic.rmw.add"@, ImmKind::Mem, Some(Align::Four)))
    } else if code == 31u32 {
        Some((Opcode::I64AtomicRmwAdd, "i64.atomic.rmw.add"@, ImmKind::Mem, Some(Align::Eight)))
    } else if code == 32u32 {
        Some((Opcode::I32AtomicRmw8AddU, "i32.atomic.rmw8.add_u"@, ImmKind::Mem, Some(Align::Any)))
    } else if code == 33u32 {
        Some((Opcode::I32AtomicRmw16AddU, "i32.atomic.rmw16.add_u"@, ImmKind::Mem, Some(Align::Two)))
    } else if code == 34u32 {
        Some((Opcode::I64AtomicRmw8AddU, "i64.atomic.rmw8.add_u"@, ImmKind::Mem, Some(Align::Any)))
    } else if code == 35u32 {
        Some((Opcode::I64AtomicRmw16AddU, "i64.atomic.rmw16.add_u"@, ImmKind::Mem, Some(Align::Two)))
    } else if code == 36u32 {
        Some((Opcode::I64AtomicRmw32AddU, "i64.atomic.rmw32.add_u"@, ImmKind::Mem, Some(Align::Four)))
    } else if code == 37u32 {
        Some((Opcode::I32AtomicRmwSub, "i32.atomic.rmw.sub"@, ImmKind::Mem, Some(Align::Four)))
    } else if code == 38u32 {
        Some((Opcode::I64AtomicRmwSub, "i64.atomic.rmw.sub"@, ImmKind::Mem, Some(Align::Eight)))
    } else if code == 39u32 {
        Some((Opcode::I32AtomicRmw8SubU, "i32.atomic.rmw8.sub_u"@, ImmKind::Mem, Some(Align::Any)))
    } else if code == 40u32 {
        Some((Opcode::I32AtomicRmw16SubU, "i32.atomic.rmw16.sub_u"@, ImmKind::Mem, Some(Align::Two)))
    } else if code == 41u32 {
        Some((Opcode::I64AtomicRmw8SubU, "i64.atomic.rmw8.sub_u"@, ImmKind::Mem, Some(Align::Any)))
    } else if code == 42u32 {
        Some((Opcode::I64AtomicRmw16SubU, "i64.atomic.rmw16.sub_u"@, ImmKind::Mem, Some(Align::Two)))
    } else if code == 43u32 {
        Some((Opcode::I64AtomicRmw32SubU, "i64.atomic.rmw32.sub_u"@, ImmKind::Mem, Some(Align::Four)))
    } else if code == 44u32 {
        Some((Opcode::I32AtomicRmwAnd, "i32.atomic.rmw.and"@, ImmKind::Mem, Some(Align::Four)))
    } else if code == 45u32 {
        Some((Opcode::I64AtomicRmwAnd, "i64.atomic.rmw.and"@, ImmKind::Mem, Some(Align::Eight)))
    } else if code == 46u32 {
        Some((Opcode::I32AtomicRmw8AndU, "i32.atomic.rmw8.and_u"@, ImmKind::Mem, Some(Align::Any)))
    } else if code == 47u32 {
        Some((Opcode::I32AtomicRmw16AndU, "i32.atomic.rmw16.and_u"@, ImmKind::Mem, Some(Align::Two)))
    } else if code == 48u32 {
        Some((Opcode::I64AtomicRmw8AndU, "i64.atomic.rmw8.and_u"@, ImmKind::Mem, Some(Align::Any)))
    } else if code == 49u32 {
        Some((Opcode::I64AtomicRmw16AndU, "i64.atomic.rmw16.and_u"@, ImmKind::Mem, Some(Align::Two)))
    } else if code == 50u32 {
        Some((Opcode::I64AtomicRmw32AndU, "i64.atomic.rmw32.and_u"@, ImmKind::Mem, Some(Align::Four)))
    } else if code == 51u32 {
        Some((Opcode::I32AtomicRmwOr, "i32.atomic.rmw.or"@, ImmKind::Mem, Some(Align::Four)))
    } else if code == 52u32 {
        Some((Opcode::I64AtomicRmwOr, "i64.atomic.rmw.or"@, ImmKind::Mem, Some(Align::Eight)))
    } else if code == 53u32 {
        Some((Opcode::I32AtomicRmw8OrU, "i32.atomic.rmw8.or_u"@, ImmKind::Mem, Some(Align::Any)))
    } else if code == 54u32 {
        Some((Opcode::I32AtomicRmw16OrU, "i32.atomic.rmw16.or_u"@, ImmKind::Mem, Some(Align::Two)))
    } else if code == 55u32 {
        Some((Opcode::I64AtomicRmw8OrU, "i64.atomic.rmw8.or_u"@, ImmKind::Mem, Some(Align::Any)))
    } else if code == 56u32 {
        Some((Opcode::I64AtomicRmw16OrU, "i64.atomic.rmw16.or_u"@, ImmKind::Mem, Some(Align::Two)))
    } else if code == 57u32 {
        Some((Opcode::I64AtomicRmw32OrU, "i64.atomic.rmw32.or_u"@, ImmKind::Mem, Some(Align::Four)))
    } else if code == 58u32 {
        Some((Opcode::I32AtomicRmwXor, "i32.atomic.rmw.xor"@, ImmKind::Mem, Some(Align::Four)))
    } else if code == 59u32 {
        Some((Opcode::I64AtomicRmwXor, "i64.atomic.rmw.xor"@, ImmKind::Mem, Some(Align::Eight)))
    } else if code == 60u32 {
        Some((Opcode::I32AtomicRmw8XorU, "i32.atomic.rmw8.xor_u"@, ImmKind::Mem, Some(Align::Any)))
    } else if code == 61u32 {
        Some((Opcode::I32AtomicRmw16XorU, "i32.atomic.rmw16.xor_u"@, ImmKind::Mem, Some(Align::Two)))
    } else if code == 62u32 {
        Some((Opcode::I64AtomicRmw8XorU, "i64.atomic.rmw8.xor_u"@, ImmKind::Mem, Some(Align::Any)))
    } else if code == 63u32 {
        Some((Opcode::I64AtomicRmw16XorU, "i64.atomic.rmw16.xor_u"@, ImmKind::Mem, Some(Align::Two)))
    } else if code == 64u32 {
        Some((Opcode::I64AtomicRmw32XorU, "i64.atomic.rmw32.xor_u"@, ImmKind::Mem, Some(Align::Four)))
    } else if code == 65u32 {
        Some((Opcode::I32AtomicRmwXchg, "i32.atomic.rmw.xchg"@, ImmKind::Mem, Some(Align::Four)))
    } else if code == 66u32 {
        Some((Opcode::I64AtomicRmwXchg, "i64.atomic.rmw.xchg"@, ImmKind::Mem, Some(Align::Eight)))
    } else if code == 67u32 {
        Some((Opcode::I32AtomicRmw8XchgU, "i32.atomic.rmw8.xchg_u"@, ImmKind::Mem, Some(Align::Any)))
    } else if code == 68u32 {
        Some((Opcode::I32AtomicRmw16XchgU, "i32.atomic.rmw16.xchg_u"@, ImmKind::Mem, Some(Align::Two)))
    } else if code == 69u32 {
        Some((Opcode::I64AtomicRmw8XchgU, "i64.atomic.rmw8.xchg_u"@, ImmKind::Mem, Some(Align::Any)))
    } else if code == 70u32 {
        Some((Opcode::I64AtomicRmw16XchgU, "i64.atomic.rmw16.xchg_u"@, ImmKind::Mem, Some(Align::Two)))
    } else if code == 71u32 {
        Some((Opcode::I64AtomicRmw32XchgU, "i64.atomic.rmw32.xchg_u"@, ImmKind::Mem, Some(Align::Four)))
    } else if code == 72u32 {
        Some((Opcode::I32AtomicRmwCmpxchg, "i32.atomic.rmw.cmpxchg"@, ImmKind::Mem, Some(Align::Four)))
    } else if code == 73u32 {
        Some((Opcode::I64AtomicRmwCmpxchg, "i64.atomic.rmw.cmpxchg"@, ImmKind::Mem, Some(Align::Eight)))
    } else if code == 74u32 {
        Some((Opcode::I32AtomicRmw8CmpxchgU, "i32.atomic.rmw8.cmpxchg_u"@, ImmKind::Mem, Some(Align::Any)))
    } else if code == 75u32 {
        Some((Opcode::I32AtomicRmw16CmpxchgU, "i32.atomic.rmw16.cmpxchg_u"@, ImmKind::Mem, Some(Align::Two)))
    } else if code == 76u32 {
        Some((Opcode::I64AtomicRmw8CmpxchgU, "i64.atomic.rmw8.cmpxchg_u"@, ImmKind::Mem, Some(Align::Any)))
    } else if code == 77u32 {
        Some((Opcode::I64AtomicRmw16CmpxchgU, "i64.atomic.rmw16.cmpxchg_u"@, ImmKind::Mem, Some(Align::Two)))
    } else if code == 78u32 {
        Some((Opcode::I64AtomicRmw32CmpxchgU, "i64.atomic.rmw32.cmpxchg_u"@, ImmKind::Mem, Some(Align::Four)))
    } else {
        None
    }
}

/// The opcodes decoded from the single byte `b` are exactly those the specification lists there,
/// each with the listed name, kind of immediate arguments and natural alignment.
#[verifier::spinoff_prover]
#[verifier::rlimit(100)]
pub proof fn lemma_byte_opcodes_listed(b: u8)
    ensures
        match spec_byte_opcode(b) {
            Some(op) => listed_byte(b) == Some((op, spec_name(op), spec_immediate_kind(op), spec_natural_align(op))),
            None => listed_byte(b) is None,
        },
{
}

/// The opcodes decoded from the prefix byte `0xFC` followed by `code` are exactly those the specification lists there,
/// each with the listed name, kind of immediate arguments and natural alignment.
#[verifier::spinoff_prover]
#[verifier::rlimit(100)]
pub proof fn lemma_fc_opcodes_listed(code: u32)
    ensures
        match spec_fc_opcode(code) {
            Some(op) => listed_fc(code) == Some((op, spec_name(op), spec_immediate_kind(op), spec_natural_align(op))),
            None => listed_fc(code) is None,
        },
{
}

/// The opcodes decoded from the prefix byte `0xFD` followed by `code` are exactly those the specification lists there,
/// each with the listed name, kind of immediate arguments and natural alignment.
#[verifier::spinoff_prover]
#[verifier::rlimit(100)]
pub proof fn lemma_fd_opcodes_listed(code: u32)
    ensures
        match spec_fd_opcode(code) {
            Some(op) => listed_fd(code) == Some((op, spec_name(op), spec_immediate_kind(op), spec_natural_align(op))),
            None => listed_fd(code) is None,
        },
{
}

/// The opcodes decoded from the prefix byte `0xFE` followed by `code` are exactly those the specification lists there,
/// each with the listed name, kind of immediate arguments and natural alignment.
#[verifier::spinoff_prover]
#[verifier::rlimit(100)]
pub proof fn lemma_fe_opcodes_listed(code: u32)
    ensures
        match spec_fe_opcode(code) {
            Some(op) => listed_fe(code) == Some((op, spec_name(op), spec_immediate_kind(op), spec_natural_align(op))),
            None => listed_fe(code) is None,
        },
{
}

/// Every opcode is encoded as the specification lists it: its encoding is the byte, or the
/// prefix and code, under which the list names it.
#[verifier::spinoff_prover]
#[verifier::rlimit(100)]
pub proof fn lemma_encodings_listed(op: Opcode)
    ensures
        match spec_encoding(op) {
            Encoding::Byte(b) => listed_byte(b) matches Some((o, _, _, _)) && o == op,
            Encoding::Prefixed { prefix, code } => prefix == 0xFC && (listed_fc(code) matches Some((o, _, _, _)) && o == op)
                || prefix == 0xFD && (listed_fd(code) matches Some((o, _, _, _)) && o == op)
                || prefix == 0xFE && (listed_fe(code) matches Some((o, _, _, _)) && o == op),
        },
{
    match op {
        Opcode::Unreachable => {},
        Opcode::Nop => {},
        Opcode::Block => {},
        Opcode::Loop => {},
        Opcode::If => {},
        Opcode::Else => {},
        Opcode::End => {},
        Opcode::Br => {},
        Opcode::BrIf => {},
        Opcode::BrTable => {},
        Opcode::Return => {},
        Opcode::Call => {},
        Opcode::CallIndirect => {},
        Opcode::Drop => {},
        Opcode::Select => {},
        Opcode::SelectTyped => {},
        Opcode::LocalGet => {},
        Opcode::LocalSet => {},
        Opcode::LocalTee => {},
        Opcode::GlobalGet => {},
        Opcode::GlobalSet => {},
        Opcode::I32Load => {},
        Opcode::I64Load => {},
        Opcode::F32Load => {},
        Opcode::F64Load => {},
        Opcode::I32Load8S => {},
        Opcode::I32Load8U => {},
        Opcode::I32Load16S => {},
        Opcode::I32Load16U => {},
        Opcode::I64Load8S => {},
        Opcode::I64Load8U => {},
        Opcode::I64Load16S => {},
        Opcode::I64Load16U => {},
        Opcode::I64Load32S => {},
        Opcode::I64Load32U => {},
        Opcode::I32Store => {},
        Opcode::I64Store => {},
        Opcode::F32Store => {},
        Opcode::F64Store => {},
        Opcode::I32Store8 => {},
        Opcode::I32Store16 => {},
        Opcode::I64Store8 => {},
        Opcode::I64Store16 => {},
        Opcode::I64Store32 => {},
        Opcode::MemorySize => {},
        Opcode::MemoryGrow => {},
        Opcode::I32Const => {},
        Opcode::I64Const => {},
        Opcode::F32Const => {},
        Opcode::F64Const => {},
        Opcode::I32Eqz => {},
        Opcode::I32Eq => {},
        Opcode::I32Ne => {},
        Opcode::I32LtS => {},
        Opcode::I32LtU => {},
        Opcode::I32GtS => {},
        Opcode::I32GtU => {},
        Opcode::I32LeS => {},
        Opcode::I32LeU => {},
        Opcode::I32GeS => {},
        Opcode::I32GeU => {},
        Opcode::I64Eqz => {},
        Opcode::I64Eq => {},
        Opcode::I64Ne => {},
        Opcode::I64LtS => {},
        Opcode::I64LtU => {},
        Opcode::I64GtS => {},
        Opcode::I64GtU => {},
        Opcode::I64LeS => {},
        Opcode::I64LeU => {},
        Opcode::I64GeS => {},
        Opcode::I64GeU => {},
        Opcode::F32Eq => {},
        Opcode::F32Ne => {},
        Opcode::F32Lt => {},
        Opcode::F32Gt => {},
        Opcode::F32Le => {},
        Opcode::F32Ge => {},
        Opcode::F64Eq => {},
        Opcode::F64Ne => {},
        Opcode::F64Lt => {},
        Opcode::F64Gt => {},
        Opcode::F64Le => {},
        Opcode::F64Ge => {},
        Opcode::I32Clz => {},
        Opcode::I32Ctz => {},
        Opcode::I32Popcnt => {},
        Opcode::I32Add => {},
        Opcode::I32Sub => {},
        Opcode::I32Mul => {},
        Opcode::I32DivS => {},
        Opcode::I32DivU => {},
        Opcode::I32RemS => {},
        Opcode::I32RemU => {},
        Opcode::I32And => {},
        Opcode::I32Or => {},
        Opcode::I32Xor => {},
        Opcode::I32Shl => {},
        Opcode::I32ShrS => {},
        Opcode::I32ShrU => {},
        Opcode::I32Rotl => {},
        Opcode::I32Rotr => {},
        Opcode::I64Clz => {},
        Opcode::I64Ctz => {},
        Opcode::I64Popcnt => {},
        Opcode::I64Add => {},
        Opcode::I64Sub => {},
        Opcode::I64Mul => {},
        Opcode::I64DivS => {},
        Opcode::I64DivU => {},
        Opcode::I64RemS => {},
        Opcode::I64RemU => {},
        Opcode::I64And => {},
        Opcode::I64Or => {},
        Opcode::I64Xor => {},
        Opcode::I64Shl => {},
        Opcode::I64ShrS => {},
        Opcode::I64ShrU => {},
        Opcode::I64Rotl => {},
        Opcode::I64Rotr => {},
        Opcode::F32Abs => {},
        Opcode::F32Neg => {},
        Opcode::F32Ceil => {},
        Opcode::F32Floor => {},
        Opcode::F32Trunc => {},
        Opcode::F32Nearest => {},
        Opcode::F32Sqrt => {},
        Opcode::F32Add => {},
        Opcode::F32Sub => {},
        Opcode::F32Mul => {},
        Opcode::F32Div => {},
        Opcode::F32Min => {},
        Opcode::F32Max => {},
        Opcode::F32Copysign => {},
        Opcode::F64Abs => {},
        Opcode::F64Neg => {},
        Opcode::F64Ceil => {},
        Opcode::F64Floor => {},
        Opcode::F64Trunc => {},
        Opcode::F64Nearest => {},
        Opcode::F64Sqrt => {},
        Opcode::F64Add => {},
        Opcode::F64Sub => {},
        Opcode::F64Mul => {},
        Opcode::F64Div => {},
        Opcode::F64Min => {},
        Opcode::F64Max => {},
        Opcode::F64Copysign => {},
        Opcode::I32WrapI64 => {},
        Opcode::I32TruncF32S => {},
        Opcode::I32TruncF32U => {},
        Opcode::I32TruncF64S => {},
        Opcode::I32TruncF64U => {},
        Opcode::I64ExtendI32S => {},
        Opcode::I64ExtendI32U => {},
        Opcode::I64TruncF32S => {},
        Opcode::I64TruncF32U => {},
        Opcode::I64TruncF64S => {},
        Opcode::I64TruncF64U => {},
        Opcode::F32ConvertI32S => {},
        Opcode::F32ConvertI32U => {},
        Opcode::F32ConvertI64S => {},
        Opcode::F32ConvertI64U => {},
        Opcode::F32DemoteF64 => {},
        Opcode::F64ConvertI32S => {},
        Opcode::F64ConvertI32U => {},
        Opcode::F64ConvertI64S => {},
        Opcode::F64ConvertI64U => {},
        Opcode::F64PromoteF32 => {},
        Opcode::I32ReinterpretF32 => {},
        Opcode::I64ReinterpretF64 => {},
        Opcode::F32ReinterpretI32 => {},
        Opcode::F64ReinterpretI64 => {},
        Opcode::I32TruncSatF32S => {},
        Opcode::I32TruncSatF32U => {},
        Opcode::I32TruncSatF64S => {},
        Opcode::I32TruncSatF64U => {},
        Opcode::I64TruncSatF32S => {},
        Opcode::I64TruncSatF32U => {},
        Opcode::I64TruncSatF64S => {},
        Opcode::I64TruncSatF64U => {},
        Opcode::I32Extend8S => {},
        Opcode::I32Extend16S => {},
        Opcode::I64Extend8S => {},
        Opcode::I64Extend16S => {},
        Opcode::I64Extend32S => {},
        Opcode::MemoryCopy => {},
        Opcode::MemoryFill => {},
        Opcode::MemoryInit => {},
        Opcode::DataDrop => {},
        Opcode::TableCopy => {},
        Opcode::TableInit => {},
        Opcode::ElemDrop => {},
        Opcode::RefNull => {},
        Opcode::RefIsNull => {},
        Opcode::RefFunc => {},
        Opcode::TableGet => {},
        Opcode::TableSet => {},
        Opcode::TableSize => {},
        Opcode::TableGrow => {},
        Opcode::TableFill => {},
        Opcode::V128Load => {},
        Opcode::V128Load8x8S => {},
        Opcode::V128Load8x8U => {},
        Opcode::V128Load16x4S => {},
        Opcode::V128Load16x4U => {},
        Opcode::V128Load32x2S => {},
        Opcode::V128Load32x2U => {},
        Opcode::V128Load8Splat => {},
        Opcode::V128Load16Splat => {},
        Opcode::V128Load32Splat => {},
        Opcode::V128Load64Splat => {},
        Opcode::V128Load32Zero => {},
        Opcode::V128Load64Zero => {},
        Opcode::V128Store => {},
        Opcode::V128Load8Lane => {},
        Opcode::V128Load16Lane => {},
        Opcode::V128Load32Lane => {},
        Opcode::V128Load64Lane => {},
        Opcode::V128Store8Lane => {},
        Opcode::V128Store16Lane => {},
        Opcode::V128Store32Lane => {},
        Opcode::V128Store64Lane => {},
        Opcode::V128Const => {},
        Opcode::I8x16Shuffle => {},
        Opcode::I8x16Swizzle => {},
        Opcode::I8x16Splat => {},
        Opcode::I16x8Splat => {},
        Opcode::I32x4Splat => {},
        Opcode::I64x2Splat => {},
        Opcode::F32x4Splat => {},
        Opcode::F64x2Splat => {},
        Opcode::I8x16ExtractLaneS => {},
        Opcode::I8x16ExtractLaneU => {},
        Opcode::I8x16ReplaceLane => {},
        Opcode::I16x8ExtractLaneS => {},
        Opcode::I16x8ExtractLaneU => {},
        Opcode::I16x8ReplaceLane => {},
        Opcode::I32x4ExtractLane => {},
        Opcode::I32x4ReplaceLane => {},
        Opcode::I64x2ExtractLane => {},
        Opcode::I64x2ReplaceLane => {},
        Opcode::F32x4ExtractLane => {},
        Opcode::F32x4ReplaceLane => {},
        Opcode::F64x2ExtractLane => {},
        Opcode::F64x2ReplaceLane => {},
        Opcode::I8x16Eq => {},
        Opcode::I8x16Ne => {},
        Opcode::I8x16LtS => {},
        Opcode::I8x16LtU => {},
        Opcode::I8x16GtS => {},
        Opcode::I8x16GtU => {},
        Opcode::I8x16LeS => {},
        Opcode::I8x16LeU => {},
        Opcode::I8x16GeS => {},
        Opcode::I8x16GeU => {},
        Opcode::I16x8Eq => {},
        Opcode::I16x8Ne => {},
        Opcode::I16x8LtS => {},
        Opcode::I16x8LtU => {},
        Opcode::I16x8GtS => {},
        Opcode::I16x8GtU => {},
        Opcode::I16x8LeS => {},
        Opcode::I16x8LeU => {},
        Opcode::I16x8GeS => {},
        Opcode::I16x8GeU => {},
        Opcode::I32x4Eq => {},
        Opcode::I32x4Ne => {},
        Opcode::I32x4LtS => {},
        Opcode::I32x4LtU => {},
        Opcode::I32x4GtS => {},
        Opcode::I32x4GtU => {},
        Opcode::I32x4LeS => {},
        Opcode::I32x4LeU => {},
        Opcode::I32x4GeS => {},
        Opcode::I32x4GeU => {},
        Opcode::F32x4Eq => {},
        Opcode::F32x4Ne => {},
        Opcode::F32x4Lt => {},
        Opcode::F32x4Gt => {},
        Opcode::F32x4Le => {},
        Opcode::F32x4Ge => {},
        Opcode::F64x2Eq => {},
        Opcode::F64x2Ne => {},
        Opcode::F64x2Lt => {},
        Opcode::F64x2Gt => {},
        Opcode::F64x2Le => {},
        Opcode::F64x2Ge => {},
        Opcode::V128Not => {},
        Opcode::V128And => {},
        Opcode::V128AndNot => {},
        Opcode::V128Or => {},
        Opcode::V128Xor => {},
        Opcode::V128Bitselect => {},
        Opcode::V128AnyTrue => {},
        Opcode::F32x4DemoteF64x2Zero => {},
        Opcode::F64x2PromoteLowF32x4 => {},
        Opcode::I8x16Abs => {},
        Opcode::I8x16Neg => {},
        Opcode::I8x16Popcnt => {},
        Opcode::I8x16AllTrue => {},
        Opcode::I8x16Bitmask => {},
        Opcode::I8x16NarrowI16x8S => {},
        Opcode::I8x16NarrowI16x8U => {},
        Opcode::F32x4Ceil => {},
        Opcode::F32x4Floor => {},
        Opcode::F32x4Trunc => {},
        Opcode::F32x4Nearest => {},
        Opcode::I8x16Shl => {},
        Opcode::I8x16ShrS => {},
        Opcode::I8x16ShrU => {},
        Opcode::I8x16Add => {},
        Opcode::I8x16AddSatS => {},
        Opcode::I8x16AddSatU => {},
        Opcode::I8x16Sub => {},
        Opcode::I8x16SubSatS => {},
        Opcode::I8x16SubSatU => {},
        Opcode::F64x2Ceil => {},
        Opcode::F64x2Floor => {},
        Opcode::I8x16MinS => {},
        Opcode::I8x16MinU => {},
        Opcode::I8x16MaxS => {},
        Opcode::I8x16MaxU => {},
        Opcode::F64x2Trunc => {},
        Opcode::I8x16AvgrU => {},
        Opcode::I16x8ExtaddPairwiseI8x16S => {},
        Opcode::I16x8ExtaddPairwiseI8x16U => {},
        Opcode::I32x4ExtaddPairwiseI16x8S => {},
        Opcode::I32x4ExtaddPairwiseI16x8U => {},
        Opcode::I16x8Abs => {},
        Opcode::I16x8Neg => {},
        Opcode::I16x8Q15mulrSatS => {},
        Opcode::I16x8AllTrue => {},
        Opcode::I16x8Bitmask => {},
        Opcode::I16x8NarrowI32x4S => {},
        Opcode::I16x8NarrowI32x4U => {},
        Opcode::I16x8ExtendLowI8x16S => {},
        Opcode::I16x8ExtendHighI8x16S => {},
        Opcode::I16x8ExtendLowI8x16U => {},
        Opcode::I16x8ExtendHighI8x16U => {},
        Opcode::I16x8Shl => {},
        Opcode::I16x8ShrS => {},
        Opcode::I16x8ShrU => {},
        Opcode::I16x8Add => {},
        Opcode::I16x8AddSatS => {},
        Opcode::I16x8AddSatU => {},
        Opcode::I16x8Sub => {},
        Opcode::I16x8SubSatS => {},
        Opcode::I16x8SubSatU => {},
        Opcode::F64x2Nearest => {},
        Opcode::I16x8Mul => {},
        Opcode::I16x8MinS => {},
        Opcode::I16x8MinU => {},
        Opcode::I16x8MaxS => {},
        Opcode::I16x8MaxU => {},
        Opcode::I16x8AvgrU => {},
        Opcode::I16x8ExtmulLowI8x16S => {},
        Opcode::I16x8ExtmulHighI8x16S => {},
        Opcode::I16x8ExtmulLowI8x16U => {},
        Opcode::I16x8ExtmulHighI8x16U => {},
        Opcode::I32x4Abs => {},
        Opcode::I32x4Neg => {},
        Opcode::I32x4AllTrue => {},
        Opcode::I32x4Bitmask => {},
        Opcode::I32x4ExtendLowI16x8S => {},
        Opcode::I32x4ExtendHighI16x8S => {},
        Opcode::I32x4ExtendLowI16x8U => {},
        Opcode::I32x4ExtendHighI16x8U => {},
        Opcode::I32x4Shl => {},
        Opcode::I32x4ShrS => {},
        Opcode::I32x4ShrU => {},
        Opcode::I32x4Add => {},
        Opcode::I32x4Sub => {},
        Opcode::I32x4Mul => {},
        Opcode::I32x4MinS => {},
        Opcode::I32x4MinU => {},
        Opcode::I32x4MaxS => {},
        Opcode::I32x4MaxU => {},
        Opcode::I32x4DotI16x8S => {},
        Opcode::I32x4ExtmulLowI16x8S => {},
        Opcode::I32x4ExtmulHighI16x8S => {},
        Opcode::I32x4ExtmulLowI16x8U => {},
        Opcode::I32x4ExtmulHighI16x8U => {},
        Opcode::I64x2Abs => {},
        Opcode::I64x2Neg => {},
        Opcode::I64x2AllTrue => {},
        Opcode::I64x2Bitmask => {},
        Opcode::I64x2ExtendLowI32x4S => {},
        Opcode::I64x2ExtendHighI32x4S => {},
        Opcode::I64x2ExtendLowI32x4U => {},
        Opcode::I64x2ExtendHighI32x4U => {},
        Opcode::I64x2Shl => {},
        Opcode::I64x2ShrS => {},
        Opcode::I64x2ShrU => {},
        Opcode::I64x2Add => {},
        Opcode::I64x2Sub => {},
        Opcode::I64x2Mul => {},
        Opcode::I64x2Eq => {},
        Opcode::I64x2Ne => {},
        Opcode::I64x2LtS => {},
        Opcode::I64x2GtS => {},
        Opcode::I64x2LeS => {},
        Opcode::I64x2GeS => {},
        Opcode::I64x2ExtmulLowI32x4S => {},
        Opcode::I64x2ExtmulHighI32x4S => {},
        Opcode::I64x2ExtmulLowI32x4U => {},
        Opcode::I64x2ExtmulHighI32x4U => {},
        Opcode::F32x4Abs => {},
        Opcode::F32x4Neg => {},
        Opcode::F32x4Sqrt => {},
        Opcode::F32x4Add => {},
        Opcode::F32x4Sub => {},
        Opcode::F32x4Mul => {},
        Opcode::F32x4Div => {},
        Opcode::F32x4Min => {},
        Opcode::F32x4Max => {},
        Opcode::F32x4Pmin => {},
        Opcode::F32x4Pmax => {},
        Opcode::F64x2Abs => {},
        Opcode::F64x2Neg => {},
        Opcode::F64x2Sqrt => {},
        Opcode::F64x2Add => {},
        Opcode::F64x2Sub => {},
        Opcode::F64x2Mul => {},
        Opcode::F64x2Div => {},
        Opcode::F64x2Min => {},
        Opcode::F64x2Max => {},
        Opcode::F64x2Pmin => {},
        Opcode::F64x2Pmax => {},
        Opcode::I32x4TruncSatF32x4S => {},
        Opcode::I32x4TruncSatF32x4U => {},
        Opcode::F32x4ConvertI32x4S => {},
        Opcode::F32x4ConvertI32x4U => {},
        Opcode::I32x4TruncSatF64x2SZero => {},
        Opcode::I32x4TruncSatF64x2UZero => {},
        Opcode::F64x2ConvertLowI32x4S => {},
        Opcode::F64x2ConvertLowI32x4U => {},
        Opcode::ReturnCall => {},
        Opcode::ReturnCallIndirect => {},
        Opcode::MemoryAtomicNotify => {},
        Opcode::MemoryAtomicWait32 => {},
        Opcode::MemoryAtomicWait64 => {},
        Opcode::I32AtomicLoad => {},
        Opcode::I64AtomicLoad => {},
        Opcode::I32AtomicLoad8U => {},
        Opcode::I32AtomicLoad16U => {},
        Opcode::I64AtomicLoad8U => {},
        Opcode::I64AtomicLoad16U => {},
        Opcode::I64AtomicLoad32U => {},
        Opcode::I32AtomicStore => {},
        Opcode::I64AtomicStore => {},
        Opcode::I32AtomicStore8U => {},
        Opcode::I32AtomicStore16U => {},
        Opcode::I64AtomicStore8U => {},
        Opcode::I64AtomicStore16U => {},
        Opcode::I64AtomicStore32U => {},
        Opcode::I32AtomicRmwAdd => {},
        Opcode::I64AtomicRmwAdd => {},
        Opcode::I32AtomicRmw8AddU => {},
        Opcode::I32AtomicRmw16AddU => {},
        Opcode::I64AtomicRmw8AddU => {},
        Opcode::I64AtomicRmw16AddU => {},
        Opcode::I64AtomicRmw32AddU => {},
        Opcode::I32AtomicRmwSub => {},
        Opcode::I64AtomicRmwSub => {},
        Opcode::I32AtomicRmw8SubU => {},
        Opcode::I32AtomicRmw16SubU => {},
        Opcode::I64AtomicRmw8SubU => {},
        Opcode::I64AtomicRmw16SubU => {},
        Opcode::I64AtomicRmw32SubU => {},
        Opcode::I32AtomicRmwAnd => {},
        Opcode::I64AtomicRmwAnd => {},
        Opcode::I32AtomicRmw8AndU => {},
        Opcode::I32AtomicRmw16AndU => {},
        Opcode::I64AtomicRmw8AndU => {},
        Opcode::I64AtomicRmw16AndU => {},
        Opcode::I64AtomicRmw32AndU => {},
        Opcode::I32AtomicRmwOr => {},
        Opcode::I64AtomicRmwOr => {},
        Opcode::I32AtomicRmw8OrU => {},
        Opcode::I32AtomicRmw16OrU => {},
        Opcode::I64AtomicRmw8OrU => {},
        Opcode::I64AtomicRmw16OrU => {},
        Opcode::I64AtomicRmw32OrU => {},
        Opcode::I32AtomicRmwXor => {},
        Opcode::I64AtomicRmwXor => {},
        Opcode::I32AtomicRmw8XorU => {},
        Opcode::I32AtomicRmw16XorU => {},
        Opcode::I64AtomicRmw8XorU => {},
        Opcode::I64AtomicRmw16XorU => {},
        Opcode::I64AtomicRmw32XorU => {},
        Opcode::I32AtomicRmwXchg => {},
        Opcode::I64AtomicRmwXchg => {},
        Opcode::I32AtomicRmw8XchgU => {},
        Opcode::I32AtomicRmw16XchgU => {},
        Opcode::I64AtomicRmw8XchgU => {},
        Opcode::I64AtomicRmw16XchgU => {},
        Opcode::I64AtomicRmw32XchgU => {},
        Opcode::I32AtomicRmwCmpxchg => {},
        Opcode::I64AtomicRmwCmpxchg => {},
        Opcode::I32AtomicRmw8CmpxchgU => {},
        Opcode::I32AtomicRmw16CmpxchgU => {},
        Opcode::I64AtomicRmw8CmpxchgU => {},
        Opcode::I64AtomicRmw16CmpxchgU => {},
        Opcode::I64AtomicRmw32CmpxchgU => {},
        Opcode::Try => {},
        Opcode::Catch => {},
        Opcode::Throw => {},
        Opcode::Rethrow => {},
        Opcode::Delegate => {},
        Opcode::CatchAll => {},
        Opcode::I8x16RelaxedSwizzle => {},
        Opcode::I32x4RelaxedTruncF32x4S => {},
        Opcode::I32x4RelaxedTruncF32x4U => {},
        Opcode::I32x4RelaxedTruncF64x2SZero => {},
        Opcode::I32x4RelaxedTruncF64x2UZero => {},
        Opcode::F32x4RelaxedMadd => {},
        Opcode::F32x4RelaxedNmadd => {},
        Opcode::F64x2RelaxedMadd => {},
        Opcode::F64x2RelaxedNmadd => {},
        Opcode::I8x16RelaxedLaneselect => {},
        Opcode::I16x8RelaxedLaneselect => {},
        Opcode::I32x4RelaxedLaneselect => {},
        Opcode::I64x2RelaxedLaneselect => {},
        Opcode::F32x4RelaxedMin => {},
        Opcode::F32x4RelaxedMax => {},
        Opcode::F64x2RelaxedMin => {},
        Opcode::F64x2RelaxedMax => {},
        Opcode::I16x8RelaxedQ15mulrS => {},
        Opcode::I16x8RelaxedDotI8x16I7x16S => {},
        Opcode::I32x4RelaxedDotI8x16I7x16AddS => {},
    }
}

/// A prefixed opcode is looked up in the list of its prefix: `0xFC`, `0xFD` or `0xFE`.
pub proof fn lemma_prefixed_opcodes_listed(prefix: u8, code: u32)
    ensures
        prefix == 0xFC ==> spec_prefixed_opcode(prefix, code) == spec_fc_opcode(code),
        prefix == 0xFD ==> spec_prefixed_opcode(prefix, code) == spec_fd_opcode(code),
        prefix == 0xFE ==> spec_prefixed_opcode(prefix, code) == spec_fe_opcode(code),
{
}

} // verus!
