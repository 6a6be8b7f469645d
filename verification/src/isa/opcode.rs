//! The table of instruction opcodes: how each is encoded, its name in the text format, which
//! immediate arguments follow it, and the natural alignment of memory accesses.
//!
//! Some instructions in WebAssembly are encoded with a byte prefix (`0xFC`, `0xFD` or `0xFE`),
//! followed by the actual opcode, encoded as a *LEB128* unsigned 32-bit integer.

use vstd::prelude::*;

use crate::isa::mem_arg::Align;

verus! {

/// Represents the full opcode of an instruction.
#[derive(Clone, Copy, Debug, PartialEq, Eq, Hash)]
#[non_exhaustive]
pub enum Opcode {
    Unreachable,
    Nop,
    Block,
    Loop,
    If,
    Else,
    End,
    Br,
    BrIf,
    BrTable,
    Return,
    Call,
    CallIndirect,
    Drop,
    Select,
    SelectTyped,
    LocalGet,
    LocalSet,
    LocalTee,
    GlobalGet,
    GlobalSet,
    I32Load,
    I64Load,
    F32Load,
    F64Load,
    I32Load8S,
    I32Load8U,
    I32Load16S,
    I32Load16U,
    I64Load8S,
    I64Load8U,
    I64Load16S,
    I64Load16U,
    I64Load32S,
    I64Load32U,
    I32Store,
    I64Store,
    F32Store,
    F64Store,
    I32Store8,
    I32Store16,
    I64Store8,
    I64Store16,
    I64Store32,
    MemorySize,
    MemoryGrow,
    I32Const,
    I64Const,
    F32Const,
    F64Const,
    I32Eqz,
    I32Eq,
    I32Ne,
    I32LtS,
    I32LtU,
    I32GtS,
    I32GtU,
    I32LeS,
    I32LeU,
    I32GeS,
    I32GeU,
    I64Eqz,
    I64Eq,
    I64Ne,
    I64LtS,
    I64LtU,
    I64GtS,
    I64GtU,
    I64LeS,
    I64LeU,
    I64GeS,
    I64GeU,
    F32Eq,
    F32Ne,
    F32Lt,
    F32Gt,
    F32Le,
    F32Ge,
    F64Eq,
    F64Ne,
    F64Lt,
    F64Gt,
    F64Le,
    F64Ge,
    I32Clz,
    I32Ctz,
    I32Popcnt,
    I32Add,
    I32Sub,
    I32Mul,
    I32DivS,
    I32DivU,
    I32RemS,
    I32RemU,
    I32And,
    I32Or,
    I32Xor,
    I32Shl,
    I32ShrS,
    I32ShrU,
    I32Rotl,
    I32Rotr,
    I64Clz,
    I64Ctz,
    I64Popcnt,
    I64Add,
    I64Sub,
    I64Mul,
    I64DivS,
    I64DivU,
    I64RemS,
    I64RemU,
    I64And,
    I64Or,
    I64Xor,
    I64Shl,
    I64ShrS,
    I64ShrU,
    I64Rotl,
    I64Rotr,
    F32Abs,
    F32Neg,
    F32Ceil,
    F32Floor,
    F32Trunc,
    F32Nearest,
    F32Sqrt,
    F32Add,
    F32Sub,
    F32Mul,
    F32Div,
    F32Min,
    F32Max,
    F32Copysign,
    F64Abs,
    F64Neg,
    F64Ceil,
    F64Floor,
    F64Trunc,
    F64Nearest,
    F64Sqrt,
    F64Add,
    F64Sub,
    F64Mul,
    F64Div,
    F64Min,
    F64Max,
    F64Copysign,
    I32WrapI64,
    I32TruncF32S,
    I32TruncF32U,
    I32TruncF64S,
    I32TruncF64U,
    I64ExtendI32S,
    I64ExtendI32U,
    I64TruncF32S,
    I64TruncF32U,
    I64TruncF64S,
    I64TruncF64U,
    F32ConvertI32S,
    F32ConvertI32U,
    F32ConvertI64S,
    F32ConvertI64U,
    F32DemoteF64,
    F64ConvertI32S,
    F64ConvertI32U,
    F64ConvertI64S,
    F64ConvertI64U,
    F64PromoteF32,
    I32ReinterpretF32,
    I64ReinterpretF64,
    F32ReinterpretI32,
    F64ReinterpretI64,
    I32TruncSatF32S,
    I32TruncSatF32U,
    I32TruncSatF64S,
    I32TruncSatF64U,
    I64TruncSatF32S,
    I64TruncSatF32U,
    I64TruncSatF64S,
    I64TruncSatF64U,
    I32Extend8S,
    I32Extend16S,
    I64Extend8S,
    I64Extend16S,
    I64Extend32S,
    MemoryCopy,
    MemoryFill,
    MemoryInit,
    DataDrop,
    TableCopy,
    TableInit,
    ElemDrop,
    RefNull,
    RefIsNull,
    RefFunc,
    TableGet,
    TableSet,
    TableSize,
    TableGrow,
    TableFill,
    V128Load,
    V128Load8x8S,
    V128Load8x8U,
    V128Load16x4S,
    V128Load16x4U,
    V128Load32x2S,
    V128Load32x2U,
    V128Load8Splat,
    V128Load16Splat,
    V128Load32Splat,
    V128Load64Splat,
    V128Load32Zero,
    V128Load64Zero,
    V128Store,
    V128Load8Lane,
    V128Load16Lane,
    V128Load32Lane,
    V128Load64Lane,
    V128Store8Lane,
    V128Store16Lane,
    V128Store32Lane,
    V128Store64Lane,
    V128Const,
    I8x16Shuffle,
    I8x16Swizzle,
    I8x16Splat,
    I16x8Splat,
    I32x4Splat,
    I64x2Splat,
    F32x4Splat,
    F64x2Splat,
    I8x16ExtractLaneS,
    I8x16ExtractLaneU,
    I8x16ReplaceLane,
    I16x8ExtractLaneS,
    I16x8ExtractLaneU,
    I16x8ReplaceLane,
    I32x4ExtractLane,
    I32x4ReplaceLane,
    I64x2ExtractLane,
    I64x2ReplaceLane,
    F32x4ExtractLane,
    F32x4ReplaceLane,
    F64x2ExtractLane,
    F64x2ReplaceLane,
    I8x16Eq,
    I8x16Ne,
    I8x16LtS,
    I8x16LtU,
    I8x16GtS,
    I8x16GtU,
    I8x16LeS,
    I8x16LeU,
    I8x16GeS,
    I8x16GeU,
    I16x8Eq,
    I16x8Ne,
    I16x8LtS,
    I16x8LtU,
    I16x8GtS,
    I16x8GtU,
    I16x8LeS,
    I16x8LeU,
    I16x8GeS,
    I16x8GeU,
    I32x4Eq,
    I32x4Ne,
    I32x4LtS,
    I32x4LtU,
    I32x4GtS,
    I32x4GtU,
    I32x4LeS,
    I32x4LeU,
    I32x4GeS,
    I32x4GeU,
    F32x4Eq,
    F32x4Ne,
    F32x4Lt,
    F32x4Gt,
    F32x4Le,
    F32x4Ge,
    F64x2Eq,
    F64x2Ne,
    F64x2Lt,
    F64x2Gt,
    F64x2Le,
    F64x2Ge,
    V128Not,
    V128And,
    V128AndNot,
    V128Or,
    V128Xor,
    V128Bitselect,
    V128AnyTrue,
    F32x4DemoteF64x2Zero,
    F64x2PromoteLowF32x4,
    I8x16Abs,
    I8x16Neg,
    I8x16Popcnt,
    I8x16AllTrue,
    I8x16Bitmask,
    I8x16NarrowI16x8S,
    I8x16NarrowI16x8U,
    F32x4Ceil,
    F32x4Floor,
    F32x4Trunc,
    F32x4Nearest,
    I8x16Shl,
    I8x16ShrS,
    I8x16ShrU,
    I8x16Add,
    I8x16AddSatS,
    I8x16AddSatU,
    I8x16Sub,
    I8x16SubSatS,
    I8x16SubSatU,
    F64x2Ceil,
    F64x2Floor,
    I8x16MinS,
    I8x16MinU,
    I8x16MaxS,
    I8x16MaxU,
    F64x2Trunc,
    I8x16AvgrU,
    I16x8ExtaddPairwiseI8x16S,
    I16x8ExtaddPairwiseI8x16U,
    I32x4ExtaddPairwiseI16x8S,
    I32x4ExtaddPairwiseI16x8U,
    I16x8Abs,
    I16x8Neg,
    I16x8Q15mulrSatS,
    I16x8AllTrue,
    I16x8Bitmask,
    I16x8NarrowI32x4S,
    I16x8NarrowI32x4U,
    I16x8ExtendLowI8x16S,
    I16x8ExtendHighI8x16S,
    I16x8ExtendLowI8x16U,
    I16x8ExtendHighI8x16U,
    I16x8Shl,
    I16x8ShrS,
    I16x8ShrU,
    I16x8Add,
    I16x8AddSatS,
    I16x8AddSatU,
    I16x8Sub,
    I16x8SubSatS,
    I16x8SubSatU,
    F64x2Nearest,
    I16x8Mul,
    I16x8MinS,
    I16x8MinU,
    I16x8MaxS,
    I16x8MaxU,
    I16x8AvgrU,
    I16x8ExtmulLowI8x16S,
    I16x8ExtmulHighI8x16S,
    I16x8ExtmulLowI8x16U,
    I16x8ExtmulHighI8x16U,
    I32x4Abs,
    I32x4Neg,
    I32x4AllTrue,
    I32x4Bitmask,
    I32x4ExtendLowI16x8S,
    I32x4ExtendHighI16x8S,
    I32x4ExtendLowI16x8U,
    I32x4ExtendHighI16x8U,
    I32x4Shl,
    I32x4ShrS,
    I32x4ShrU,
    I32x4Add,
    I32x4Sub,
    I32x4Mul,
    I32x4MinS,
    I32x4MinU,
    I32x4MaxS,
    I32x4MaxU,
    I32x4DotI16x8S,
    I32x4ExtmulLowI16x8S,
    I32x4ExtmulHighI16x8S,
    I32x4ExtmulLowI16x8U,
    I32x4ExtmulHighI16x8U,
    I64x2Abs,
    I64x2Neg,
    I64x2AllTrue,
    I64x2Bitmask,
    I64x2ExtendLowI32x4S,
    I64x2ExtendHighI32x4S,
    I64x2ExtendLowI32x4U,
    I64x2ExtendHighI32x4U,
    I64x2Shl,
    I64x2ShrS,
    I64x2ShrU,
    I64x2Add,
    I64x2Sub,
    I64x2Mul,
    I64x2Eq,
    I64x2Ne,
    I64x2LtS,
    I64x2GtS,
    I64x2LeS,
    I64x2GeS,
    I64x2ExtmulLowI32x4S,
    I64x2ExtmulHighI32x4S,
    I64x2ExtmulLowI32x4U,
    I64x2ExtmulHighI32x4U,
    F32x4Abs,
    F32x4Neg,
    F32x4Sqrt,
    F32x4Add,
    F32x4Sub,
    F32x4Mul,
    F32x4Div,
    F32x4Min,
    F32x4Max,
    F32x4Pmin,
    F32x4Pmax,
    F64x2Abs,
    F64x2Neg,
    F64x2Sqrt,
    F64x2Add,
    F64x2Sub,
    F64x2Mul,
    F64x2Div,
    F64x2Min,
    F64x2Max,
    F64x2Pmin,
    F64x2Pmax,
    I32x4TruncSatF32x4S,
    I32x4TruncSatF32x4U,
    F32x4ConvertI32x4S,
    F32x4ConvertI32x4U,
    I32x4TruncSatF64x2SZero,
    I32x4TruncSatF64x2UZero,
    F64x2ConvertLowI32x4S,
    F64x2ConvertLowI32x4U,
    ReturnCall,
    ReturnCallIndirect,
    MemoryAtomicNotify,
    MemoryAtomicWait32,
    MemoryAtomicWait64,
    I32AtomicLoad,
    I64AtomicLoad,
    I32AtomicLoad8U,
    I32AtomicLoad16U,
    I64AtomicLoad8U,
    I64AtomicLoad16U,
    I64AtomicLoad32U,
    I32AtomicStore,
    I64AtomicStore,
    I32AtomicStore8U,
    I32AtomicStore16U,
    I64AtomicStore8U,
    I64AtomicStore16U,
    I64AtomicStore32U,
    I32AtomicRmwAdd,
    I64AtomicRmwAdd,
    I32AtomicRmw8AddU,
    I32AtomicRmw16AddU,
    I64AtomicRmw8AddU,
    I64AtomicRmw16AddU,
    I64AtomicRmw32AddU,
    I32AtomicRmwSub,
    I64AtomicRmwSub,
    I32AtomicRmw8SubU,
    I32AtomicRmw16SubU,
    I64AtomicRmw8SubU,
    I64AtomicRmw16SubU,
    I64AtomicRmw32SubU,
    I32AtomicRmwAnd,
    I64AtomicRmwAnd,
    I32AtomicRmw8AndU,
    I32AtomicRmw16AndU,
    I64AtomicRmw8AndU,
    I64AtomicRmw16AndU,
    I64AtomicRmw32AndU,
    I32AtomicRmwOr,
    I64AtomicRmwOr,
    I32AtomicRmw8OrU,
    I32AtomicRmw16OrU,
    I64AtomicRmw8OrU,
    I64AtomicRmw16OrU,
    I64AtomicRmw32OrU,
    I32AtomicRmwXor,
    I64AtomicRmwXor,
    I32AtomicRmw8XorU,
    I32AtomicRmw16XorU,
    I64AtomicRmw8XorU,
    I64AtomicRmw16XorU,
    I64AtomicRmw32XorU,
    I32AtomicRmwXchg,
    I64AtomicRmwXchg,
    I32AtomicRmw8XchgU,
    I32AtomicRmw16XchgU,
    I64AtomicRmw8XchgU,
    I64AtomicRmw16XchgU,
    I64AtomicRmw32XchgU,
    I32AtomicRmwCmpxchg,
    I64AtomicRmwCmpxchg,
    I32AtomicRmw8CmpxchgU,
    I32AtomicRmw16CmpxchgU,
    I64AtomicRmw8CmpxchgU,
    I64AtomicRmw16CmpxchgU,
    I64AtomicRmw32CmpxchgU,
    Try,
    Catch,
    Throw,
    Rethrow,
    Delegate,
    CatchAll,
    I8x16RelaxedSwizzle,
    I32x4RelaxedTruncF32x4S,
    I32x4RelaxedTruncF32x4U,
    I32x4RelaxedTruncF64x2SZero,
    I32x4RelaxedTruncF64x2UZero,
    F32x4RelaxedMadd,
    F32x4RelaxedNmadd,
    F64x2RelaxedMadd,
    F64x2RelaxedNmadd,
    I8x16RelaxedLaneselect,
    I16x8RelaxedLaneselect,
    I32x4RelaxedLaneselect,
    I64x2RelaxedLaneselect,
    F32x4RelaxedMin,
    F32x4RelaxedMax,
    F64x2RelaxedMin,
    F64x2RelaxedMax,
    I16x8RelaxedQ15mulrS,
    I16x8RelaxedDotI8x16I7x16S,
    I32x4RelaxedDotI8x16I7x16AddS,
}

impl View for Opcode {
    type V = Opcode;

    open spec fn view(&self) -> Opcode {
        *self
    }
}

/// How an [`Opcode`] is encoded in the binary format.
#[derive(Clone, Copy, Debug, PartialEq, Eq, Hash)]
pub enum Encoding {
    /// A single byte.
    Byte(u8),
    /// A prefix byte followed by a *LEB128* encoded unsigned 32-bit code.
    Prefixed { prefix: u8, code: u32 },
}

/// The kinds of immediate arguments that follow an opcode.
#[derive(Clone, Copy, Debug, PartialEq, Eq, Hash)]
pub enum ImmKind {
    /// No immediate argument.
    NoArgs,
    /// A block type.
    Block,
    /// A label index.
    Label,
    /// A function index.
    Func,
    /// A type index followed by a table index.
    CallIndirect,
    /// A local index.
    Local,
    /// A global index.
    Global,
    /// A memory argument.
    Mem,
    /// A memory index.
    Memory,
    /// A signed 32-bit integer.
    I32,
    /// A signed 64-bit integer.
    I64,
    /// The bits of a 32-bit float.
    F32,
    /// The bits of a 64-bit float.
    F64,
    /// Destination and source memory indices.
    MemoryCopy,
    /// A data segment index followed by a memory index.
    MemoryInit,
    /// A data segment index.
    Data,
    /// Destination and source table indices.
    TableCopy,
    /// An element segment index followed by a table index.
    TableInit,
    /// An element segment index.
    Elem,
    /// A reference type.
    RefType,
    /// A table index.
    Table,
    /// A memory argument followed by a lane index.
    MemLane,
    /// A 128-bit constant.
    V128,
    /// Sixteen lane indices.
    Shuffle,
    /// A lane index.
    Lane,
    /// A tag index.
    Tag,
    /// A vector of label indices followed by a default label index.
    BrTable,
    /// A vector of value types.
    SelectTyped,
}

/// How each opcode is encoded.
pub open spec fn spec_encoding(op: Opcode) -> Encoding {
    match op {
        Opcode::Unreachable => Encoding::Byte(0x00),
        Opcode::Nop => Encoding::Byte(0x01),
        Opcode::Block => Encoding::Byte(0x02),
        Opcode::Loop => Encoding::Byte(0x03),
        Opcode::If => Encoding::Byte(0x04),
        Opcode::Else => Encoding::Byte(0x05),
        Opcode::End => Encoding::Byte(0x0B),
        Opcode::Br => Encoding::Byte(0x0C),
        Opcode::BrIf => Encoding::Byte(0x0D),
        Opcode::BrTable => Encoding::Byte(0x0E),
        Opcode::Return => Encoding::Byte(0x0F),
        Opcode::Call => Encoding::Byte(0x10),
        Opcode::CallIndirect => Encoding::Byte(0x11),
        Opcode::Drop => Encoding::Byte(0x1A),
        Opcode::Select => Encoding::Byte(0x1B),
        Opcode::SelectTyped => Encoding::Byte(0x1C),
        Opcode::LocalGet => Encoding::Byte(0x20),
        Opcode::LocalSet => Encoding::Byte(0x21),
        Opcode::LocalTee => Encoding::Byte(0x22),
        Opcode::GlobalGet => Encoding::Byte(0x23),
        Opcode::GlobalSet => Encoding::Byte(0x24),
        Opcode::I32Load => Encoding::Byte(0x28),
        Opcode::I64Load => Encoding::Byte(0x29),
        Opcode::F32Load => Encoding::Byte(0x2A),
        Opcode::F64Load => Encoding::Byte(0x2B),
        Opcode::I32Load8S => Encoding::Byte(0x2C),
        Opcode::I32Load8U => Encoding::Byte(0x2D),
        Opcode::I32Load16S => Encoding::Byte(0x2E),
        Opcode::I32Load16U => Encoding::Byte(0x2F),
        Opcode::I64Load8S => Encoding::Byte(0x30),
        Opcode::I64Load8U => Encoding::Byte(0x31),
        Opcode::I64Load16S => Encoding::Byte(0x32),
        Opcode::I64Load16U => Encoding::Byte(0x33),
        Opcode::I64Load32S => Encoding::Byte(0x34),
        Opcode::I64Load32U => Encoding::Byte(0x35),
        Opcode::I32Store => Encoding::Byte(0x36),
        Opcode::I64Store => Encoding::Byte(0x37),
        Opcode::F32Store => Encoding::Byte(0x38),
        Opcode::F64Store => Encoding::Byte(0x39),
        Opcode::I32Store8 => Encoding::Byte(0x3A),
        Opcode::I32Store16 => Encoding::Byte(0x3B),
        Opcode::I64Store8 => Encoding::Byte(0x3C),
        Opcode::I64Store16 => Encoding::Byte(0x3D),
        Opcode::I64Store32 => Encoding::Byte(0x3E),
        Opcode::MemorySize => Encoding::Byte(0x3F),
        Opcode::MemoryGrow => Encoding::Byte(0x40),
        Opcode::I32Const => Encoding::Byte(0x41),
        Opcode::I64Const => Encoding::Byte(0x42),
        Opcode::F32Const => Encoding::Byte(0x43),
        Opcode::F64Const => Encoding::Byte(0x44),
        Opcode::I32Eqz => Encoding::Byte(0x45),
        Opcode::I32Eq => Encoding::Byte(0x46),
        Opcode::I32Ne => Encoding::Byte(0x47),
        Opcode::I32LtS => Encoding::Byte(0x48),
        Opcode::I32LtU => Encoding::Byte(0x49),
        Opcode::I32GtS => Encoding::Byte(0x4A),
        Opcode::I32GtU => Encoding::Byte(0x4B),
        Opcode::I32LeS => Encoding::Byte(0x4C),
        Opcode::I32LeU => Encoding::Byte(0x4D),
        Opcode::I32GeS => Encoding::Byte(0x4E),
        Opcode::I32GeU => Encoding::Byte(0x4F),
        Opcode::I64Eqz => Encoding::Byte(0x50),
        Opcode::I64Eq => Encoding::Byte(0x51),
        Opcode::I64Ne => Encoding::Byte(0x52),
        Opcode::I64LtS => Encoding::Byte(0x53),
        Opcode::I64LtU => Encoding::Byte(0x54),
        Opcode::I64GtS => Encoding::Byte(0x55),
        Opcode::I64GtU => Encoding::Byte(0x56),
        Opcode::I64LeS => Encoding::Byte(0x57),
        Opcode::I64LeU => Encoding::Byte(0x58),
        Opcode::I64GeS => Encoding::Byte(0x59),
        Opcode::I64GeU => Encoding::Byte(0x5A),
        Opcode::F32Eq => Encoding::Byte(0x5B),
        Opcode::F32Ne => Encoding::Byte(0x5C),
        Opcode::F32Lt => Encoding::Byte(0x5D),
        Opcode::F32Gt => Encoding::Byte(0x5E),
        Opcode::F32Le => Encoding::Byte(0x5F),
        Opcode::F32Ge => Encoding::Byte(0x60),
        Opcode::F64Eq => Encoding::Byte(0x61),
        Opcode::F64Ne => Encoding::Byte(0x62),
        Opcode::F64Lt => Encoding::Byte(0x63),
        Opcode::F64Gt => Encoding::Byte(0x64),
        Opcode::F64Le => Encoding::Byte(0x65),
        Opcode::F64Ge => Encoding::Byte(0x66),
        Opcode::I32Clz => Encoding::Byte(0x67),
        Opcode::I32Ctz => Encoding::Byte(0x68),
        Opcode::I32Popcnt => Encoding::Byte(0x69),
        Opcode::I32Add => Encoding::Byte(0x6A),
        Opcode::I32Sub => Encoding::Byte(0x6B),
        Opcode::I32Mul => Encoding::Byte(0x6C),
        Opcode::I32DivS => Encoding::Byte(0x6D),
        Opcode::I32DivU => Encoding::Byte(0x6E),
        Opcode::I32RemS => Encoding::Byte(0x6F),
        Opcode::I32RemU => Encoding::Byte(0x70),
        Opcode::I32And => Encoding::Byte(0x71),
        Opcode::I32Or => Encoding::Byte(0x72),
        Opcode::I32Xor => Encoding::Byte(0x73),
        Opcode::I32Shl => Encoding::Byte(0x74),
        Opcode::I32ShrS => Encoding::Byte(0x75),
        Opcode::I32ShrU => Encoding::Byte(0x76),
        Opcode::I32Rotl => Encoding::Byte(0x77),
        Opcode::I32Rotr => Encoding::Byte(0x78),
        Opcode::I64Clz => Encoding::Byte(0x79),
        Opcode::I64Ctz => Encoding::Byte(0x7A),
        Opcode::I64Popcnt => Encoding::Byte(0x7B),
        Opcode::I64Add => Encoding::Byte(0x7C),
        Opcode::I64Sub => Encoding::Byte(0x7D),
        Opcode::I64Mul => Encoding::Byte(0x7E),
        Opcode::I64DivS => Encoding::Byte(0x7F),
        Opcode::I64DivU => Encoding::Byte(0x80),
        Opcode::I64RemS => Encoding::Byte(0x81),
        Opcode::I64RemU => Encoding::Byte(0x82),
        Opcode::I64And => Encoding::Byte(0x83),
        Opcode::I64Or => Encoding::Byte(0x84),
        Opcode::I64Xor => Encoding::Byte(0x85),
        Opcode::I64Shl => Encoding::Byte(0x86),
        Opcode::I64ShrS => Encoding::Byte(0x87),
        Opcode::I64ShrU => Encoding::Byte(0x88),
        Opcode::I64Rotl => Encoding::Byte(0x89),
        Opcode::I64Rotr => Encoding::Byte(0x8A),
        Opcode::F32Abs => Encoding::Byte(0x8B),
        Opcode::F32Neg => Encoding::Byte(0x8C),
        Opcode::F32Ceil => Encoding::Byte(0x8D),
        Opcode::F32Floor => Encoding::Byte(0x8E),
        Opcode::F32Trunc => Encoding::Byte(0x8F),
        Opcode::F32Nearest => Encoding::Byte(0x90),
        Opcode::F32Sqrt => Encoding::Byte(0x91),
        Opcode::F32Add => Encoding::Byte(0x92),
        Opcode::F32Sub => Encoding::Byte(0x93),
        Opcode::F32Mul => Encoding::Byte(0x94),
        Opcode::F32Div => Encoding::Byte(0x95),
        Opcode::F32Min => Encoding::Byte(0x96),
        Opcode::F32Max => Encoding::Byte(0x97),
        Opcode::F32Copysign => Encoding::Byte(0x98),
        Opcode::F64Abs => Encoding::Byte(0x99),
        Opcode::F64Neg => Encoding::Byte(0x9A),
        Opcode::F64Ceil => Encoding::Byte(0x9B),
        Opcode::F64Floor => Encoding::Byte(0x9C),
        Opcode::F64Trunc => Encoding::Byte(0x9D),
        Opcode::F64Nearest => Encoding::Byte(0x9E),
        Opcode::F64Sqrt => Encoding::Byte(0x9F),
        Opcode::F64Add => Encoding::Byte(0xA0),
        Opcode::F64Sub => Encoding::Byte(0xA1),
        Opcode::F64Mul => Encoding::Byte(0xA2),
        Opcode::F64Div => Encoding::Byte(0xA3),
        Opcode::F64Min => Encoding::Byte(0xA4),
        Opcode::F64Max => Encoding::Byte(0xA5),
        Opcode::F64Copysign => Encoding::Byte(0xA6),
        Opcode::I32WrapI64 => Encoding::Byte(0xA7),
        Opcode::I32TruncF32S => Encoding::Byte(0xA8),
        Opcode::I32TruncF32U => Encoding::Byte(0xA9),
        Opcode::I32TruncF64S => Encoding::Byte(0xAA),
        Opcode::I32TruncF64U => Encoding::Byte(0xAB),
        Opcode::I64ExtendI32S => Encoding::Byte(0xAC),
        Opcode::I64ExtendI32U => Encoding::Byte(0xAD),
        Opcode::I64TruncF32S => Encoding::Byte(0xAE),
        Opcode::I64TruncF32U => Encoding::Byte(0xAF),
        Opcode::I64TruncF64S => Encoding::Byte(0xB0),
        Opcode::I64TruncF64U => Encoding::Byte(0xB1),
        Opcode::F32ConvertI32S => Encoding::Byte(0xB2),
        Opcode::F32ConvertI32U => Encoding::Byte(0xB3),
        Opcode::F32ConvertI64S => Encoding::Byte(0xB4),
        Opcode::F32ConvertI64U => Encoding::Byte(0xB5),
        Opcode::F32DemoteF64 => Encoding::Byte(0xB6),
        Opcode::F64ConvertI32S => Encoding::Byte(0xB7),
        Opcode::F64ConvertI32U => Encoding::Byte(0xB8),
        Opcode::F64ConvertI64S => Encoding::Byte(0xB9),
        Opcode::F64ConvertI64U => Encoding::Byte(0xBA),
        Opcode::F64PromoteF32 => Encoding::Byte(0xBB),
        Opcode::I32ReinterpretF32 => Encoding::Byte(0xBC),
        Opcode::I64ReinterpretF64 => Encoding::Byte(0xBD),
        Opcode::F32ReinterpretI32 => Encoding::Byte(0xBE),
        Opcode::F64ReinterpretI64 => Encoding::Byte(0xBF),
        Opcode::I32TruncSatF32S => Encoding::Prefixed { prefix: 0xFC, code: 0 },
        Opcode::I32TruncSatF32U => Encoding::Prefixed { prefix: 0xFC, code: 1 },
        Opcode::I32TruncSatF64S => Encoding::Prefixed { prefix: 0xFC, code: 2 },
        Opcode::I32TruncSatF64U => Encoding::Prefixed { prefix: 0xFC, code: 3 },
        Opcode::I64TruncSatF32S => Encoding::Prefixed { prefix: 0xFC, code: 4 },
        Opcode::I64TruncSatF32U => Encoding::Prefixed { prefix: 0xFC, code: 5 },
        Opcode::I64TruncSatF64S => Encoding::Prefixed { prefix: 0xFC, code: 6 },
        Opcode::I64TruncSatF64U => Encoding::Prefixed { prefix: 0xFC, code: 7 },
        Opcode::I32Extend8S => Encoding::Byte(0xC0),
        Opcode::I32Extend16S => Encoding::Byte(0xC1),
        Opcode::I64Extend8S => Encoding::Byte(0xC2),
        Opcode::I64Extend16S => Encoding::Byte(0xC3),
        Opcode::I64Extend32S => Encoding::Byte(0xC4),
        Opcode::MemoryCopy => Encoding::Prefixed { prefix: 0xFC, code: 10 },
        Opcode::MemoryFill => Encoding::Prefixed { prefix: 0xFC, code: 11 },
        Opcode::MemoryInit => Encoding::Prefixed { prefix: 0xFC, code: 8 },
        Opcode::DataDrop => Encoding::Prefixed { prefix: 0xFC, code: 9 },
        Opcode::TableCopy => Encoding::Prefixed { prefix: 0xFC, code: 14 },
        Opcode::TableInit => Encoding::Prefixed { prefix: 0xFC, code: 12 },
        Opcode::ElemDrop => Encoding::Prefixed { prefix: 0xFC, code: 13 },
        Opcode::RefNull => Encoding::Byte(0xD0),
        Opcode::RefIsNull => Encoding::Byte(0xD1),
        Opcode::RefFunc => Encoding::Byte(0xD2),
        Opcode::TableGet => Encoding::Byte(0x25),
        Opcode::TableSet => Encoding::Byte(0x26),
        Opcode::TableSize => Encoding::Prefixed { prefix: 0xFC, code: 16 },
        Opcode::TableGrow => Encoding::Prefixed { prefix: 0xFC, code: 15 },
        Opcode::TableFill => Encoding::Prefixed { prefix: 0xFC, code: 17 },
        Opcode::V128Load => Encoding::Prefixed { prefix: 0xFD, code: 0 },
        Opcode::V128Load8x8S => Encoding::Prefixed { prefix: 0xFD, code: 1 },
        Opcode::V128Load8x8U => Encoding::Prefixed { prefix: 0xFD, code: 2 },
        Opcode::V128Load16x4S => Encoding::Prefixed { prefix: 0xFD, code: 3 },
        Opcode::V128Load16x4U => Encoding::Prefixed { prefix: 0xFD, code: 4 },
        Opcode::V128Load32x2S => Encoding::Prefixed { prefix: 0xFD, code: 5 },
        Opcode::V128Load32x2U => Encoding::Prefixed { prefix: 0xFD, code: 6 },
        Opcode::V128Load8Splat => Encoding::Prefixed { prefix: 0xFD, code: 7 },
        Opcode::V128Load16Splat => Encoding::Prefixed { prefix: 0xFD, code: 8 },
        Opcode::V128Load32Splat => Encoding::Prefixed { prefix: 0xFD, code: 9 },
        Opcode::V128Load64Splat => Encoding::Prefixed { prefix: 0xFD, code: 10 },
        Opcode::V128Load32Zero => Encoding::Prefixed { prefix: 0xFD, code: 92 },
        Opcode::V128Load64Zero => Encoding::Prefixed { prefix: 0xFD, code: 93 },
        Opcode::V128Store => Encoding::Prefixed { prefix: 0xFD, code: 11 },
        Opcode::V128Load8Lane => Encoding::Prefixed { prefix: 0xFD, code: 84 },
        Opcode::V128Load16Lane => Encoding::Prefixed { prefix: 0xFD, code: 85 },
        Opcode::V128Load32Lane => Encoding::Prefixed { prefix: 0xFD, code: 86 },
        Opcode::V128Load64Lane => Encoding::Prefixed { prefix: 0xFD, code: 87 },
        Opcode::V128Store8Lane => Encoding::Prefixed { prefix: 0xFD, code: 88 },
        Opcode::V128Store16Lane => Encoding::Prefixed { prefix: 0xFD, code: 89 },
        Opcode::V128Store32Lane => Encoding::Prefixed { prefix: 0xFD, code: 90 },
        Opcode::V128Store64Lane => Encoding::Prefixed { prefix: 0xFD, code: 91 },
        Opcode::V128Const => Encoding::Prefixed { prefix: 0xFD, code: 12 },
        Opcode::I8x16Shuffle => Encoding::Prefixed { prefix: 0xFD, code: 13 },
        Opcode::I8x16Swizzle => Encoding::Prefixed { prefix: 0xFD, code: 14 },
        Opcode::I8x16Splat => Encoding::Prefixed { prefix: 0xFD, code: 15 },
        Opcode::I16x8Splat => Encoding::Prefixed { prefix: 0xFD, code: 16 },
        Opcode::I32x4Splat => Encoding::Prefixed { prefix: 0xFD, code: 17 },
        Opcode::I64x2Splat => Encoding::Prefixed { prefix: 0xFD, code: 18 },
        Opcode::F32x4Splat => Encoding::Prefixed { prefix: 0xFD, code: 19 },
        Opcode::F64x2Splat => Encoding::Prefixed { prefix: 0xFD, code: 20 },
        Opcode::I8x16ExtractLaneS => Encoding::Prefixed { prefix: 0xFD, code: 21 },
        Opcode::I8x16ExtractLaneU => Encoding::Prefixed { prefix: 0xFD, code: 22 },
        Opcode::I8x16ReplaceLane => Encoding::Prefixed { prefix: 0xFD, code: 23 },
        Opcode::I16x8ExtractLaneS => Encoding::Prefixed { prefix: 0xFD, code: 24 },
        Opcode::I16x8ExtractLaneU => Encoding::Prefixed { prefix: 0xFD, code: 25 },
        Opcode::I16x8ReplaceLane => Encoding::Prefixed { prefix: 0xFD, code: 26 },
        Opcode::I32x4ExtractLane => Encoding::Prefixed { prefix: 0xFD, code: 27 },
        Opcode::I32x4ReplaceLane => Encoding::Prefixed { prefix: 0xFD, code: 28 },
        Opcode::I64x2ExtractLane => Encoding::Prefixed { prefix: 0xFD, code: 29 },
        Opcode::I64x2ReplaceLane => Encoding::Prefixed { prefix: 0xFD, code: 30 },
        Opcode::F32x4ExtractLane => Encoding::Prefixed { prefix: 0xFD, code: 31 },
        Opcode::F32x4ReplaceLane => Encoding::Prefixed { prefix: 0xFD, code: 32 },
        Opcode::F64x2ExtractLane => Encoding::Prefixed { prefix: 0xFD, code: 33 },
        Opcode::F64x2ReplaceLane => Encoding::Prefixed { prefix: 0xFD, code: 34 },
        Opcode::I8x16Eq => Encoding::Prefixed { prefix: 0xFD, code: 35 },
        Opcode::I8x16Ne => Encoding::Prefixed { prefix: 0xFD, code: 36 },
        Opcode::I8x16LtS => Encoding::Prefixed { prefix: 0xFD, code: 37 },
        Opcode::I8x16LtU => Encoding::Prefixed { prefix: 0xFD, code: 38 },
        Opcode::I8x16GtS => Encoding::Prefixed { prefix: 0xFD, code: 39 },
        Opcode::I8x16GtU => Encoding::Prefixed { prefix: 0xFD, code: 40 },
        Opcode::I8x16LeS => Encoding::Prefixed { prefix: 0xFD, code: 41 },
        Opcode::I8x16LeU => Encoding::Prefixed { prefix: 0xFD, code: 42 },
        Opcode::I8x16GeS => Encoding::Prefixed { prefix: 0xFD, code: 43 },
        Opcode::I8x16GeU => Encoding::Prefixed { prefix: 0xFD, code: 44 },
        Opcode::I16x8Eq => Encoding::Prefixed { prefix: 0xFD, code: 45 },
        Opcode::I16x8Ne => Encoding::Prefixed { prefix: 0xFD, code: 46 },
        Opcode::I16x8LtS => Encoding::Prefixed { prefix: 0xFD, code: 47 },
        Opcode::I16x8LtU => Encoding::Prefixed { prefix: 0xFD, code: 48 },
        Opcode::I16x8GtS => Encoding::Prefixed { prefix: 0xFD, code: 49 },
        Opcode::I16x8GtU => Encoding::Prefixed { prefix: 0xFD, code: 50 },
        Opcode::I16x8LeS => Encoding::Prefixed { prefix: 0xFD, code: 51 },
        Opcode::I16x8LeU => Encoding::Prefixed { prefix: 0xFD, code: 52 },
        Opcode::I16x8GeS => Encoding::Prefixed { prefix: 0xFD, code: 53 },
        Opcode::I16x8GeU => Encoding::Prefixed { prefix: 0xFD, code: 54 },
        Opcode::I32x4Eq => Encoding::Prefixed { prefix: 0xFD, code: 55 },
        Opcode::I32x4Ne => Encoding::Prefixed { prefix: 0xFD, code: 56 },
        Opcode::I32x4LtS => Encoding::Prefixed { prefix: 0xFD, code: 57 },
        Opcode::I32x4LtU => Encoding::Prefixed { prefix: 0xFD, code: 58 },
        Opcode::I32x4GtS => Encoding::Prefixed { prefix: 0xFD, code: 59 },
        Opcode::I32x4GtU => Encoding::Prefixed { prefix: 0xFD, code: 60 },
        Opcode::I32x4LeS => Encoding::Prefixed { prefix: 0xFD, code: 61 },
        Opcode::I32x4LeU => Encoding::Prefixed { prefix: 0xFD, code: 62 },
        Opcode::I32x4GeS => Encoding::Prefixed { prefix: 0xFD, code: 63 },
        Opcode::I32x4GeU => Encoding::Prefixed { prefix: 0xFD, code: 64 },
        Opcode::F32x4Eq => Encoding::Prefixed { prefix: 0xFD, code: 65 },
        Opcode::F32x4Ne => Encoding::Prefixed { prefix: 0xFD, code: 66 },
        Opcode::F32x4Lt => Encoding::Prefixed { prefix: 0xFD, code: 67 },
        Opcode::F32x4Gt => Encoding::Prefixed { prefix: 0xFD, code: 68 },
        Opcode::F32x4Le => Encoding::Prefixed { prefix: 0xFD, code: 69 },
        Opcode::F32x4Ge => Encoding::Prefixed { prefix: 0xFD, code: 70 },
        Opcode::F64x2Eq => Encoding::Prefixed { prefix: 0xFD, code: 71 },
        Opcode::F64x2Ne => Encoding::Prefixed { prefix: 0xFD, code: 72 },
        Opcode::F64x2Lt => Encoding::Prefixed { prefix: 0xFD, code: 73 },
        Opcode::F64x2Gt => Encoding::Prefixed { prefix: 0xFD, code: 74 },
        Opcode::F64x2Le => Encoding::Prefixed { prefix: 0xFD, code: 75 },
        Opcode::F64x2Ge => Encoding::Prefixed { prefix: 0xFD, code: 76 },
        Opcode::V128Not => Encoding::Prefixed { prefix: 0xFD, code: 77 },
        Opcode::V128And => Encoding::Prefixed { prefix: 0xFD, code: 78 },
        Opcode::V128AndNot => Encoding::Prefixed { prefix: 0xFD, code: 79 },
        Opcode::V128Or => Encoding::Prefixed { prefix: 0xFD, code: 80 },
        Opcode::V128Xor => Encoding::Prefixed { prefix: 0xFD, code: 81 },
        Opcode::V128Bitselect => Encoding::Prefixed { prefix: 0xFD, code: 82 },
        Opcode::V128AnyTrue => Encoding::Prefixed { prefix: 0xFD, code: 83 },
        Opcode::F32x4DemoteF64x2Zero => Encoding::Prefixed { prefix: 0xFD, code: 94 },
        Opcode::F64x2PromoteLowF32x4 => Encoding::Prefixed { prefix: 0xFD, code: 95 },
        Opcode::I8x16Abs => Encoding::Prefixed { prefix: 0xFD, code: 96 },
        Opcode::I8x16Neg => Encoding::Prefixed { prefix: 0xFD, code: 97 },
        Opcode::I8x16Popcnt => Encoding::Prefixed { prefix: 0xFD, code: 98 },
        Opcode::I8x16AllTrue => Encoding::Prefixed { prefix: 0xFD, code: 99 },
        Opcode::I8x16Bitmask => Encoding::Prefixed { prefix: 0xFD, code: 100 },
        Opcode::I8x16NarrowI16x8S => Encoding::Prefixed { prefix: 0xFD, code: 101 },
        Opcode::I8x16NarrowI16x8U => Encoding::Prefixed { prefix: 0xFD, code: 102 },
        Opcode::F32x4Ceil => Encoding::Prefixed { prefix: 0xFD, code: 103 },
        Opcode::F32x4Floor => Encoding::Prefixed { prefix: 0xFD, code: 104 },
        Opcode::F32x4Trunc => Encoding::Prefixed { prefix: 0xFD, code: 105 },
        Opcode::F32x4Nearest => Encoding::Prefixed { prefix: 0xFD, code: 106 },
        Opcode::I8x16Shl => Encoding::Prefixed { prefix: 0xFD, code: 107 },
        Opcode::I8x16ShrS => Encoding::Prefixed { prefix: 0xFD, code: 108 },
        Opcode::I8x16ShrU => Encoding::Prefixed { prefix: 0xFD, code: 109 },
        Opcode::I8x16Add => Encoding::Prefixed { prefix: 0xFD, code: 110 },
        Opcode::I8x16AddSatS => Encoding::Prefixed { prefix: 0xFD, code: 111 },
        Opcode::I8x16AddSatU => Encoding::Prefixed { prefix: 0xFD, code: 112 },
        Opcode::I8x16Sub => Encoding::Prefixed { prefix: 0xFD, code: 113 },
        Opcode::I8x16SubSatS => Encoding::Prefixed { prefix: 0xFD, code: 114 },
        Opcode::I8x16SubSatU => Encoding::Prefixed { prefix: 0xFD, code: 115 },
        Opcode::F64x2Ceil => Encoding::Prefixed { prefix: 0xFD, code: 116 },
        Opcode::F64x2Floor => Encoding::Prefixed { prefix: 0xFD, code: 117 },
        Opcode::I8x16MinS => Encoding::Prefixed { prefix: 0xFD, code: 118 },
        Opcode::I8x16MinU => Encoding::Prefixed { prefix: 0xFD, code: 119 },
        Opcode::I8x16MaxS => Encoding::Prefixed { prefix: 0xFD, code: 120 },
        Opcode::I8x16MaxU => Encoding::Prefixed { prefix: 0xFD, code: 121 },
        Opcode::F64x2Trunc => Encoding::Prefixed { prefix: 0xFD, code: 122 },
        Opcode::I8x16AvgrU => Encoding::Prefixed { prefix: 0xFD, code: 123 },
        Opcode::I16x8ExtaddPairwiseI8x16S => Encoding::Prefixed { prefix: 0xFD, code: 124 },
        Opcode::I16x8ExtaddPairwiseI8x16U => Encoding::Prefixed { prefix: 0xFD, code: 125 },
        Opcode::I32x4ExtaddPairwiseI16x8S => Encoding::Prefixed { prefix: 0xFD, code: 126 },
        Opcode::I32x4ExtaddPairwiseI16x8U => Encoding::Prefixed { prefix: 0xFD, code: 127 },
        Opcode::I16x8Abs => Encoding::Prefixed { prefix: 0xFD, code: 128 },
        Opcode::I16x8Neg => Encoding::Prefixed { prefix: 0xFD, code: 129 },
        Opcode::I16x8Q15mulrSatS => Encoding::Prefixed { prefix: 0xFD, code: 130 },
        Opcode::I16x8AllTrue => Encoding::Prefixed { prefix: 0xFD, code: 131 },
        Opcode::I16x8Bitmask => Encoding::Prefixed { prefix: 0xFD, code: 132 },
        Opcode::I16x8NarrowI32x4S => Encoding::Prefixed { prefix: 0xFD, code: 133 },
        Opcode::I16x8NarrowI32x4U => Encoding::Prefixed { prefix: 0xFD, code: 134 },
        Opcode::I16x8ExtendLowI8x16S => Encoding::Prefixed { prefix: 0xFD, code: 135 },
        Opcode::I16x8ExtendHighI8x16S => Encoding::Prefixed { prefix: 0xFD, code: 136 },
        Opcode::I16x8ExtendLowI8x16U => Encoding::Prefixed { prefix: 0xFD, code: 137 },
        Opcode::I16x8ExtendHighI8x16U => Encoding::Prefixed { prefix: 0xFD, code: 138 },
        Opcode::I16x8Shl => Encoding::Prefixed { prefix: 0xFD, code: 139 },
        Opcode::I16x8ShrS => Encoding::Prefixed { prefix: 0xFD, code: 140 },
        Opcode::I16x8ShrU => Encoding::Prefixed { prefix: 0xFD, code: 141 },
        Opcode::I16x8Add => Encoding::Prefixed { prefix: 0xFD, code: 142 },
        Opcode::I16x8AddSatS => Encoding::Prefixed { prefix: 0xFD, code: 143 },
        Opcode::I16x8AddSatU => Encoding::Prefixed { prefix: 0xFD, code: 144 },
        Opcode::I16x8Sub => Encoding::Prefixed { prefix: 0xFD, code: 145 },
        Opcode::I16x8SubSatS => Encoding::Prefixed { prefix: 0xFD, code: 146 },
        Opcode::I16x8SubSatU => Encoding::Prefixed { prefix: 0xFD, code: 147 },
        Opcode::F64x2Nearest => Encoding::Prefixed { prefix: 0xFD, code: 148 },
        Opcode::I16x8Mul => Encoding::Prefixed { prefix: 0xFD, code: 149 },
        Opcode::I16x8MinS => Encoding::Prefixed { prefix: 0xFD, code: 150 },
        Opcode::I16x8MinU => Encoding::Prefixed { prefix: 0xFD, code: 151 },
        Opcode::I16x8MaxS => Encoding::Prefixed { prefix: 0xFD, code: 152 },
        Opcode::I16x8MaxU => Encoding::Prefixed { prefix: 0xFD, code: 153 },
        Opcode::I16x8AvgrU => Encoding::Prefixed { prefix: 0xFD, code: 155 },
        Opcode::I16x8ExtmulLowI8x16S => Encoding::Prefixed { prefix: 0xFD, code: 156 },
        Opcode::I16x8ExtmulHighI8x16S => Encoding::Prefixed { prefix: 0xFD, code: 157 },
        Opcode::I16x8ExtmulLowI8x16U => Encoding::Prefixed { prefix: 0xFD, code: 158 },
        Opcode::I16x8ExtmulHighI8x16U => Encoding::Prefixed { prefix: 0xFD, code: 159 },
        Opcode::I32x4Abs => Encoding::Prefixed { prefix: 0xFD, code: 160 },
        Opcode::I32x4Neg => Encoding::Prefixed { prefix: 0xFD, code: 161 },
        Opcode::I32x4AllTrue => Encoding::Prefixed { prefix: 0xFD, code: 163 },
        Opcode::I32x4Bitmask => Encoding::Prefixed { prefix: 0xFD, code: 164 },
        Opcode::I32x4ExtendLowI16x8S => Encoding::Prefixed { prefix: 0xFD, code: 167 },
        Opcode::I32x4ExtendHighI16x8S => Encoding::Prefixed { prefix: 0xFD, code: 168 },
        Opcode::I32x4ExtendLowI16x8U => Encoding::Prefixed { prefix: 0xFD, code: 169 },
        Opcode::I32x4ExtendHighI16x8U => Encoding::Prefixed { prefix: 0xFD, code: 170 },
        Opcode::I32x4Shl => Encoding::Prefixed { prefix: 0xFD, code: 171 },
        Opcode::I32x4ShrS => Encoding::Prefixed { prefix: 0xFD, code: 172 },
        Opcode::I32x4ShrU => Encoding::Prefixed { prefix: 0xFD, code: 173 },
        Opcode::I32x4Add => Encoding::Prefixed { prefix: 0xFD, code: 174 },
        Opcode::I32x4Sub => Encoding::Prefixed { prefix: 0xFD, code: 177 },
        Opcode::I32x4Mul => Encoding::Prefixed { prefix: 0xFD, code: 181 },
        Opcode::I32x4MinS => Encoding::Prefixed { prefix: 0xFD, code: 182 },
        Opcode::I32x4MinU => Encoding::Prefixed { prefix: 0xFD, code: 183 },
        Opcode::I32x4MaxS => Encoding::Prefixed { prefix: 0xFD, code: 184 },
        Opcode::I32x4MaxU => Encoding::Prefixed { prefix: 0xFD, code: 185 },
        Opcode::I32x4DotI16x8S => Encoding::Prefixed { prefix: 0xFD, code: 186 },
        Opcode::I32x4ExtmulLowI16x8S => Encoding::Prefixed { prefix: 0xFD, code: 188 },
        Opcode::I32x4ExtmulHighI16x8S => Encoding::Prefixed { prefix: 0xFD, code: 189 },
        Opcode::I32x4ExtmulLowI16x8U => Encoding::Prefixed { prefix: 0xFD, code: 190 },
        Opcode::I32x4ExtmulHighI16x8U => Encoding::Prefixed { prefix: 0xFD, code: 191 },
        Opcode::I64x2Abs => Encoding::Prefixed { prefix: 0xFD, code: 192 },
        Opcode::I64x2Neg => Encoding::Prefixed { prefix: 0xFD, code: 193 },
        Opcode::I64x2AllTrue => Encoding::Prefixed { prefix: 0xFD, code: 195 },
        Opcode::I64x2Bitmask => Encoding::Prefixed { prefix: 0xFD, code: 196 },
        Opcode::I64x2ExtendLowI32x4S => Encoding::Prefixed { prefix: 0xFD, code: 199 },
        Opcode::I64x2ExtendHighI32x4S => Encoding::Prefixed { prefix: 0xFD, code: 200 },
        Opcode::I64x2ExtendLowI32x4U => Encoding::Prefixed { prefix: 0xFD, code: 201 },
        Opcode::I64x2ExtendHighI32x4U => Encoding::Prefixed { prefix: 0xFD, code: 202 },
        Opcode::I64x2Shl => Encoding::Prefixed { prefix: 0xFD, code: 203 },
        Opcode::I64x2ShrS => Encoding::Prefixed { prefix: 0xFD, code: 204 },
        Opcode::I64x2ShrU => Encoding::Prefixed { prefix: 0xFD, code: 205 },
        Opcode::I64x2Add => Encoding::Prefixed { prefix: 0xFD, code: 206 },
        Opcode::I64x2Sub => Encoding::Prefixed { prefix: 0xFD, code: 209 },
        Opcode::I64x2Mul => Encoding::Prefixed { prefix: 0xFD, code: 213 },
        Opcode::I64x2Eq => Encoding::Prefixed { prefix: 0xFD, code: 214 },
        Opcode::I64x2Ne => Encoding::Prefixed { prefix: 0xFD, code: 215 },
        Opcode::I64x2LtS => Encoding::Prefixed { prefix: 0xFD, code: 216 },
        Opcode::I64x2GtS => Encoding::Prefixed { prefix: 0xFD, code: 217 },
        Opcode::I64x2LeS => Encoding::Prefixed { prefix: 0xFD, code: 218 },
        Opcode::I64x2GeS => Encoding::Prefixed { prefix: 0xFD, code: 219 },
        Opcode::I64x2ExtmulLowI32x4S => Encoding::Prefixed { prefix: 0xFD, code: 220 },
        Opcode::I64x2ExtmulHighI32x4S => Encoding::Prefixed { prefix: 0xFD, code: 221 },
        Opcode::I64x2ExtmulLowI32x4U => Encoding::Prefixed { prefix: 0xFD, code: 222 },
        Opcode::I64x2ExtmulHighI32x4U => Encoding::Prefixed { prefix: 0xFD, code: 223 },
        Opcode::F32x4Abs => Encoding::Prefixed { prefix: 0xFD, code: 224 },
        Opcode::F32x4Neg => Encoding::Prefixed { prefix: 0xFD, code: 225 },
        Opcode::F32x4Sqrt => Encoding::Prefixed { prefix: 0xFD, code: 227 },
        Opcode::F32x4Add => Encoding::Prefixed { prefix: 0xFD, code: 228 },
        Opcode::F32x4Sub => Encoding::Prefixed { prefix: 0xFD, code: 229 },
        Opcode::F32x4Mul => Encoding::Prefixed { prefix: 0xFD, code: 230 },
        Opcode::F32x4Div => Encoding::Prefixed { prefix: 0xFD, code: 231 },
        Opcode::F32x4Min => Encoding::Prefixed { prefix: 0xFD, code: 232 },
        Opcode::F32x4Max => Encoding::Prefixed { prefix: 0xFD, code: 233 },
        Opcode::F32x4Pmin => Encoding::Prefixed { prefix: 0xFD, code: 234 },
        Opcode::F32x4Pmax => Encoding::Prefixed { prefix: 0xFD, code: 235 },
        Opcode::F64x2Abs => Encoding::Prefixed { prefix: 0xFD, code: 236 },
        Opcode::F64x2Neg => Encoding::Prefixed { prefix: 0xFD, code: 237 },
        Opcode::F64x2Sqrt => Encoding::Prefixed { prefix: 0xFD, code: 239 },
        Opcode::F64x2Add => Encoding::Prefixed { prefix: 0xFD, code: 240 },
        Opcode::F64x2Sub => Encoding::Prefixed { prefix: 0xFD, code: 241 },
        Opcode::F64x2Mul => Encoding::Prefixed { prefix: 0xFD, code: 242 },
        Opcode::F64x2Div => Encoding::Prefixed { prefix: 0xFD, code: 243 },
        Opcode::F64x2Min => Encoding::Prefixed { prefix: 0xFD, code: 244 },
        Opcode::F64x2Max => Encoding::Prefixed { prefix: 0xFD, code: 245 },
        Opcode::F64x2Pmin => Encoding::Prefixed { prefix: 0xFD, code: 246 },
        Opcode::F64x2Pmax => Encoding::Prefixed { prefix: 0xFD, code: 247 },
        Opcode::I32x4TruncSatF32x4S => Encoding::Prefixed { prefix: 0xFD, code: 248 },
        Opcode::I32x4TruncSatF32x4U => Encoding::Prefixed { prefix: 0xFD, code: 249 },
        Opcode::F32x4ConvertI32x4S => Encoding::Prefixed { prefix: 0xFD, code: 250 },
        Opcode::F32x4ConvertI32x4U => Encoding::Prefixed { prefix: 0xFD, code: 251 },
        Opcode::I32x4TruncSatF64x2SZero => Encoding::Prefixed { prefix: 0xFD, code: 252 },
        Opcode::I32x4TruncSatF64x2UZero => Encoding::Prefixed { prefix: 0xFD, code: 253 },
        Opcode::F64x2ConvertLowI32x4S => Encoding::Prefixed { prefix: 0xFD, code: 254 },
        Opcode::F64x2ConvertLowI32x4U => Encoding::Prefixed { prefix: 0xFD, code: 255 },
        Opcode::ReturnCall => Encoding::Byte(0x12),
        Opcode::ReturnCallIndirect => Encoding::Byte(0x13),
        Opcode::MemoryAtomicNotify => Encoding::Prefixed { prefix: 0xFE, code: 0 },
        Opcode::MemoryAtomicWait32 => Encoding::Prefixed { prefix: 0xFE, code: 1 },
        Opcode::MemoryAtomicWait64 => Encoding::Prefixed { prefix: 0xFE, code: 2 },
        Opcode::I32AtomicLoad => Encoding::Prefixed { prefix: 0xFE, code: 16 },
        Opcode::I64AtomicLoad => Encoding::Prefixed { prefix: 0xFE, code: 17 },
        Opcode::I32AtomicLoad8U => Encoding::Prefixed { prefix: 0xFE, code: 18 },
        Opcode::I32AtomicLoad16U => Encoding::Prefixed { prefix: 0xFE, code: 19 },
        Opcode::I64AtomicLoad8U => Encoding::Prefixed { prefix: 0xFE, code: 20 },
        Opcode::I64AtomicLoad16U => Encoding::Prefixed { prefix: 0xFE, code: 21 },
        Opcode::I64AtomicLoad32U => Encoding::Prefixed { prefix: 0xFE, code: 22 },
        Opcode::I32AtomicStore => Encoding::Prefixed { prefix: 0xFE, code: 23 },
        Opcode::I64AtomicStore => Encoding::Prefixed { prefix: 0xFE, code: 24 },
        Opcode::I32AtomicStore8U => Encoding::Prefixed { prefix: 0xFE, code: 25 },
        Opcode::I32AtomicStore16U => Encoding::Prefixed { prefix: 0xFE, code: 26 },
        Opcode::I64AtomicStore8U => Encoding::Prefixed { prefix: 0xFE, code: 27 },
        Opcode::I64AtomicStore16U => Encoding::Prefixed { prefix: 0xFE, code: 28 },
        Opcode::I64AtomicStore32U => Encoding::Prefixed { prefix: 0xFE, code: 29 },
        Opcode::I32AtomicRmwAdd => Encoding::Prefixed { prefix: 0xFE, code: 30 },
        Opcode::I64AtomicRmwAdd => Encoding::Prefixed { prefix: 0xFE, code: 31 },
        Opcode::I32AtomicRmw8AddU => Encoding::Prefixed { prefix: 0xFE, code: 32 },
        Opcode::I32AtomicRmw16AddU => Encoding::Prefixed { prefix: 0xFE, code: 33 },
        Opcode::I64AtomicRmw8AddU => Encoding::Prefixed { prefix: 0xFE, code: 34 },
        Opcode::I64AtomicRmw16AddU => Encoding::Prefixed { prefix: 0xFE, code: 35 },
        Opcode::I64AtomicRmw32AddU => Encoding::Prefixed { prefix: 0xFE, code: 36 },
        Opcode::I32AtomicRmwSub => Encoding::Prefixed { prefix: 0xFE, code: 37 },
        Opcode::I64AtomicRmwSub => Encoding::Prefixed { prefix: 0xFE, code: 38 },
        Opcode::I32AtomicRmw8SubU => Encoding::Prefixed { prefix: 0xFE, code: 39 },
        Opcode::I32AtomicRmw16SubU => Encoding::Prefixed { prefix: 0xFE, code: 40 },
        Opcode::I64AtomicRmw8SubU => Encoding::Prefixed { prefix: 0xFE, code: 41 },
        Opcode::I64AtomicRmw16SubU => Encoding::Prefixed { prefix: 0xFE, code: 42 },
        Opcode::I64AtomicRmw32SubU => Encoding::Prefixed { prefix: 0xFE, code: 43 },
        Opcode::I32AtomicRmwAnd => Encoding::Prefixed { prefix: 0xFE, code: 44 },
        Opcode::I64AtomicRmwAnd => Encoding::Prefixed { prefix: 0xFE, code: 45 },
        Opcode::I32AtomicRmw8AndU => Encoding::Prefixed { prefix: 0xFE, code: 46 },
        Opcode::I32AtomicRmw16AndU => Encoding::Prefixed { prefix: 0xFE, code: 47 },
        Opcode::I64AtomicRmw8AndU => Encoding::Prefixed { prefix: 0xFE, code: 48 },
        Opcode::I64AtomicRmw16AndU => Encoding::Prefixed { prefix: 0xFE, code: 49 },
        Opcode::I64AtomicRmw32AndU => Encoding::Prefixed { prefix: 0xFE, code: 50 },
        Opcode::I32AtomicRmwOr => Encoding::Prefixed { prefix: 0xFE, code: 51 },
        Opcode::I64AtomicRmwOr => Encoding::Prefixed { prefix: 0xFE, code: 52 },
        Opcode::I32AtomicRmw8OrU => Encoding::Prefixed { prefix: 0xFE, code: 53 },
        Opcode::I32AtomicRmw16OrU => Encoding::Prefixed { prefix: 0xFE, code: 54 },
        Opcode::I64AtomicRmw8OrU => Encoding::Prefixed { prefix: 0xFE, code: 55 },
        Opcode::I64AtomicRmw16OrU => Encoding::Prefixed { prefix: 0xFE, code: 56 },
        Opcode::I64AtomicRmw32OrU => Encoding::Prefixed { prefix: 0xFE, code: 57 },
        Opcode::I32AtomicRmwXor => Encoding::Prefixed { prefix: 0xFE, code: 58 },
        Opcode::I64AtomicRmwXor => Encoding::Prefixed { prefix: 0xFE, code: 59 },
        Opcode::I32AtomicRmw8XorU => Encoding::Prefixed { prefix: 0xFE, code: 60 },
        Opcode::I32AtomicRmw16XorU => Encoding::Prefixed { prefix: 0xFE, code: 61 },
        Opcode::I64AtomicRmw8XorU => Encoding::Prefixed { prefix: 0xFE, code: 62 },
        Opcode::I64AtomicRmw16XorU => Encoding::Prefixed { prefix: 0xFE, code: 63 },
        Opcode::I64AtomicRmw32XorU => Encoding::Prefixed { prefix: 0xFE, code: 64 },
        Opcode::I32AtomicRmwXchg => Encoding::Prefixed { prefix: 0xFE, code: 65 },
        Opcode::I64AtomicRmwXchg => Encoding::Prefixed { prefix: 0xFE, code: 66 },
        Opcode::I32AtomicRmw8XchgU => Encoding::Prefixed { prefix: 0xFE, code: 67 },
        Opcode::I32AtomicRmw16XchgU => Encoding::Prefixed { prefix: 0xFE, code: 68 },
        Opcode::I64AtomicRmw8XchgU => Encoding::Prefixed { prefix: 0xFE, code: 69 },
        Opcode::I64AtomicRmw16XchgU => Encoding::Prefixed { prefix: 0xFE, code: 70 },
        Opcode::I64AtomicRmw32XchgU => Encoding::Prefixed { prefix: 0xFE, code: 71 },
        Opcode::I32AtomicRmwCmpxchg => Encoding::Prefixed { prefix: 0xFE, code: 72 },
        Opcode::I64AtomicRmwCmpxchg => Encoding::Prefixed { prefix: 0xFE, code: 73 },
        Opcode::I32AtomicRmw8CmpxchgU => Encoding::Prefixed { prefix: 0xFE, code: 74 },
        Opcode::I32AtomicRmw16CmpxchgU => Encoding::Prefixed { prefix: 0xFE, code: 75 },
        Opcode::I64AtomicRmw8CmpxchgU => Encoding::Prefixed { prefix: 0xFE, code: 76 },
        Opcode::I64AtomicRmw16CmpxchgU => Encoding::Prefixed { prefix: 0xFE, code: 77 },
        Opcode::I64AtomicRmw32CmpxchgU => Encoding::Prefixed { prefix: 0xFE, code: 78 },
        Opcode::Try => Encoding::Byte(0x06),
        Opcode::Catch => Encoding::Byte(0x07),
        Opcode::Throw => Encoding::Byte(0x08),
        Opcode::Rethrow => Encoding::Byte(0x09),
        Opcode::Delegate => Encoding::Byte(0x18),
        Opcode::CatchAll => Encoding::Byte(0x19),
        Opcode::I8x16RelaxedSwizzle => Encoding::Prefixed { prefix: 0xFD, code: 256 },
        Opcode::I32x4RelaxedTruncF32x4S => Encoding::Prefixed { prefix: 0xFD, code: 257 },
        Opcode::I32x4RelaxedTruncF32x4U => Encoding::Prefixed { prefix: 0xFD, code: 258 },
        Opcode::I32x4RelaxedTruncF64x2SZero => Encoding::Prefixed { prefix: 0xFD, code: 259 },
        Opcode::I32x4RelaxedTruncF64x2UZero => Encoding::Prefixed { prefix: 0xFD, code: 260 },
        Opcode::F32x4RelaxedMadd => Encoding::Prefixed { prefix: 0xFD, code: 261 },
        Opcode::F32x4RelaxedNmadd => Encoding::Prefixed { prefix: 0xFD, code: 262 },
        Opcode::F64x2RelaxedMadd => Encoding::Prefixed { prefix: 0xFD, code: 263 },
        Opcode::F64x2RelaxedNmadd => Encoding::Prefixed { prefix: 0xFD, code: 264 },
        Opcode::I8x16RelaxedLaneselect => Encoding::Prefixed { prefix: 0xFD, code: 265 },
        Opcode::I16x8RelaxedLaneselect => Encoding::Prefixed { prefix: 0xFD, code: 266 },
        Opcode::I32x4RelaxedLaneselect => Encoding::Prefixed { prefix: 0xFD, code: 267 },
        Opcode::I64x2RelaxedLaneselect => Encoding::Prefixed { prefix: 0xFD, code: 268 },
        Opcode::F32x4RelaxedMin => Encoding::Prefixed { prefix: 0xFD, code: 269 },
        Opcode::F32x4RelaxedMax => Encoding::Prefixed { prefix: 0xFD, code: 270 },
        Opcode::F64x2RelaxedMin => Encoding::Prefixed { prefix: 0xFD, code: 271 },
        Opcode::F64x2RelaxedMax => Encoding::Prefixed { prefix: 0xFD, code: 272 },
        Opcode::I16x8RelaxedQ15mulrS => Encoding::Prefixed { prefix: 0xFD, code: 273 },
        Opcode::I16x8RelaxedDotI8x16I7x16S => Encoding::Prefixed { prefix: 0xFD, code: 274 },
        Opcode::I32x4RelaxedDotI8x16I7x16AddS => Encoding::Prefixed { prefix: 0xFD, code: 275 },
    }
}

/// The opcode encoded by a single byte, if any.
pub open spec fn spec_byte_opcode(b: u8) -> Option<Opcode> {
    match b {
        0x00u8 => Some(Opcode::Unreachable),
        0x01u8 => Some(Opcode::Nop),
        0x02u8 => Some(Opcode::Block),
        0x03u8 => Some(Opcode::Loop),
        0x04u8 => Some(Opcode::If),
        0x05u8 => Some(Opcode::Else),
        0x06u8 => Some(Opcode::Try),
        0x07u8 => Some(Opcode::Catch),
        0x08u8 => Some(Opcode::Throw),
        0x09u8 => Some(Opcode::Rethrow),
        0x0Bu8 => Some(Opcode::End),
        0x0Cu8 => Some(Opcode::Br),
        0x0Du8 => Some(Opcode::BrIf),
        0x0Eu8 => Some(Opcode::BrTable),
        0x0Fu8 => Some(Opcode::Return),
        0x10u8 => Some(Opcode::Call),
        0x11u8 => Some(Opcode::CallIndirect),
        0x12u8 => Some(Opcode::ReturnCall),
        0x13u8 => Some(Opcode::ReturnCallIndirect),
        0x18u8 => Some(Opcode::Delegate),
        0x19u8 => Some(Opcode::CatchAll),
        0x1Au8 => Some(Opcode::Drop),
        0x1Bu8 => Some(Opcode::Select),
        0x1Cu8 => Some(Opcode::SelectTyped),
        0x20u8 => Some(Opcode::LocalGet),
        0x21u8 => Some(Opcode::LocalSet),
        0x22u8 => Some(Opcode::LocalTee),
        0x23u8 => Some(Opcode::GlobalGet),
        0x24u8 => Some(Opcode::GlobalSet),
        0x25u8 => Some(Opcode::TableGet),
        0x26u8 => Some(Opcode::TableSet),
        0x28u8 => Some(Opcode::I32Load),
        0x29u8 => Some(Opcode::I64Load),
        0x2Au8 => Some(Opcode::F32Load),
        0x2Bu8 => Some(Opcode::F64Load),
        0x2Cu8 => Some(Opcode::I32Load8S),
        0x2Du8 => Some(Opcode::I32Load8U),
        0x2Eu8 => Some(Opcode::I32Load16S),
        0x2Fu8 => Some(Opcode::I32Load16U),
        0x30u8 => Some(Opcode::I64Load8S),
        0x31u8 => Some(Opcode::I64Load8U),
        0x32u8 => Some(Opcode::I64Load16S),
        0x33u8 => Some(Opcode::I64Load16U),
        0x34u8 => Some(Opcode::I64Load32S),
        0x35u8 => Some(Opcode::I64Load32U),
        0x36u8 => Some(Opcode::I32Store),
        0x37u8 => Some(Opcode::I64Store),
        0x38u8 => Some(Opcode::F32Store),
        0x39u8 => Some(Opcode::F64Store),
        0x3Au8 => Some(Opcode::I32Store8),
        0x3Bu8 => Some(Opcode::I32Store16),
        0x3Cu8 => Some(Opcode::I64Store8),
        0x3Du8 => Some(Opcode::I64Store16),
        0x3Eu8 => Some(Opcode::I64Store32),
        0x3Fu8 => Some(Opcode::MemorySize),
        0x40u8 => Some(Opcode::MemoryGrow),
        0x41u8 => Some(Opcode::I32Const),
        0x42u8 => Some(Opcode::I64Const),
        0x43u8 => Some(Opcode::F32Const),
        0x44u8 => Some(Opcode::F64Const),
        0x45u8 => Some(Opcode::I32Eqz),
        0x46u8 => Some(Opcode::I32Eq),
        0x47u8 => Some(Opcode::I32Ne),
        0x48u8 => Some(Opcode::I32LtS),
        0x49u8 => Some(Opcode::I32LtU),
        0x4Au8 => Some(Opcode::I32GtS),
        0x4Bu8 => Some(Opcode::I32GtU),
        0x4Cu8 => Some(Opcode::I32LeS),
        0x4Du8 => Some(Opcode::I32LeU),
        0x4Eu8 => Some(Opcode::I32GeS),
        0x4Fu8 => Some(Opcode::I32GeU),
        0x50u8 => Some(Opcode::I64Eqz),
        0x51u8 => Some(Opcode::I64Eq),
        0x52u8 => Some(Opcode::I64Ne),
        0x53u8 => Some(Opcode::I64LtS),
        0x54u8 => Some(Opcode::I64LtU),
        0x55u8 => Some(Opcode::I64GtS),
        0x56u8 => Some(Opcode::I64GtU),
        0x57u8 => Some(Opcode::I64LeS),
        0x58u8 => Some(Opcode::I64LeU),
        0x59u8 => Some(Opcode::I64GeS),
        0x5Au8 => Some(Opcode::I64GeU),
        0x5Bu8 => Some(Opcode::F32Eq),
        0x5Cu8 => Some(Opcode::F32Ne),
        0x5Du8 => Some(Opcode::F32Lt),
        0x5Eu8 => Some(Opcode::F32Gt),
        0x5Fu8 => Some(Opcode::F32Le),
        0x60u8 => Some(Opcode::F32Ge),
        0x61u8 => Some(Opcode::F64Eq),
        0x62u8 => Some(Opcode::F64Ne),
        0x63u8 => Some(Opcode::F64Lt),
        0x64u8 => Some(Opcode::F64Gt),
        0x65u8 => Some(Opcode::F64Le),
        0x66u8 => Some(Opcode::F64Ge),
        0x67u8 => Some(Opcode::I32Clz),
        0x68u8 => Some(Opcode::I32Ctz),
        0x69u8 => Some(Opcode::I32Popcnt),
        0x6Au8 => Some(Opcode::I32Add),
        0x6Bu8 => Some(Opcode::I32Sub),
        0x6Cu8 => Some(Opcode::I32Mul),
        0x6Du8 => Some(Opcode::I32DivS),
        0x6Eu8 => Some(Opcode::I32DivU),
        0x6Fu8 => Some(Opcode::I32RemS),
        0x70u8 => Some(Opcode::I32RemU),
        0x71u8 => Some(Opcode::I32And),
        0x72u8 => Some(Opcode::I32Or),
        0x73u8 => Some(Opcode::I32Xor),
        0x74u8 => Some(Opcode::I32Shl),
        0x75u8 => Some(Opcode::I32ShrS),
        0x76u8 => Some(Opcode::I32ShrU),
        0x77u8 => Some(Opcode::I32Rotl),
        0x78u8 => Some(Opcode::I32Rotr),
        0x79u8 => Some(Opcode::I64Clz),
        0x7Au8 => Some(Opcode::I64Ctz),
        0x7Bu8 => Some(Opcode::I64Popcnt),
        0x7Cu8 => Some(Opcode::I64Add),
        0x7Du8 => Some(Opcode::I64Sub),
        0x7Eu8 => Some(Opcode::I64Mul),
        0x7Fu8 => Some(Opcode::I64DivS),
        0x80u8 => Some(Opcode::I64DivU),
        0x81u8 => Some(Opcode::I64RemS),
        0x82u8 => Some(Opcode::I64RemU),
        0x83u8 => Some(Opcode::I64And),
        0x84u8 => Some(Opcode::I64Or),
        0x85u8 => Some(Opcode::I64Xor),
        0x86u8 => Some(Opcode::I64Shl),
        0x87u8 => Some(Opcode::I64ShrS),
        0x88u8 => Some(Opcode::I64ShrU),
        0x89u8 => Some(Opcode::I64Rotl),
        0x8Au8 => Some(Opcode::I64Rotr),
        0x8Bu8 => Some(Opcode::F32Abs),
        0x8Cu8 => Some(Opcode::F32Neg),
        0x8Du8 => Some(Opcode::F32Ceil),
        0x8Eu8 => Some(Opcode::F32Floor),
        0x8Fu8 => Some(Opcode::F32Trunc),
        0x90u8 => Some(Opcode::F32Nearest),
        0x91u8 => Some(Opcode::F32Sqrt),
        0x92u8 => Some(Opcode::F32Add),
        0x93u8 => Some(Opcode::F32Sub),
        0x94u8 => Some(Opcode::F32Mul),
        0x95u8 => Some(Opcode::F32Div),
        0x96u8 => Some(Opcode::F32Min),
        0x97u8 => Some(Opcode::F32Max),
        0x98u8 => Some(Opcode::F32Copysign),
        0x99u8 => Some(Opcode::F64Abs),
        0x9Au8 => Some(Opcode::F64Neg),
        0x9Bu8 => Some(Opcode::F64Ceil),
        0x9Cu8 => Some(Opcode::F64Floor),
        0x9Du8 => Some(Opcode::F64Trunc),
        0x9Eu8 => Some(Opcode::F64Nearest),
        0x9Fu8 => Some(Opcode::F64Sqrt),
        0xA0u8 => Some(Opcode::F64Add),
        0xA1u8 => Some(Opcode::F64Sub),
        0xA2u8 => Some(Opcode::F64Mul),
        0xA3u8 => Some(Opcode::F64Div),
        0xA4u8 => Some(Opcode::F64Min),
        0xA5u8 => Some(Opcode::F64Max),
        0xA6u8 => Some(Opcode::F64Copysign),
        0xA7u8 => Some(Opcode::I32WrapI64),
        0xA8u8 => Some(Opcode::I32TruncF32S),
        0xA9u8 => Some(Opcode::I32TruncF32U),
        0xAAu8 => Some(Opcode::I32TruncF64S),
        0xABu8 => Some(Opcode::I32TruncF64U),
        0xACu8 => Some(Opcode::I64ExtendI32S),
        0xADu8 => Some(Opcode::I64ExtendI32U),
        0xAEu8 => Some(Opcode::I64TruncF32S),
        0xAFu8 => Some(Opcode::I64TruncF32U),
        0xB0u8 => Some(Opcode::I64TruncF64S),
        0xB1u8 => Some(Opcode::I64TruncF64U),
        0xB2u8 => Some(Opcode::F32ConvertI32S),
        0xB3u8 => Some(Opcode::F32ConvertI32U),
        0xB4u8 => Some(Opcode::F32ConvertI64S),
        0xB5u8 => Some(Opcode::F32ConvertI64U),
        0xB6u8 => Some(Opcode::F32DemoteF64),
        0xB7u8 => Some(Opcode::F64ConvertI32S),
        0xB8u8 => Some(Opcode::F64ConvertI32U),
        0xB9u8 => Some(Opcode::F64ConvertI64S),
        0xBAu8 => Some(Opcode::F64ConvertI64U),
        0xBBu8 => Some(Opcode::F64PromoteF32),
        0xBCu8 => Some(Opcode::I32ReinterpretF32),
        0xBDu8 => Some(Opcode::I64ReinterpretF64),
        0xBEu8 => Some(Opcode::F32ReinterpretI32),
        0xBFu8 => Some(Opcode::F64ReinterpretI64),
        0xC0u8 => Some(Opcode::I32Extend8S),
        0xC1u8 => Some(Opcode::I32Extend16S),
        0xC2u8 => Some(Opcode::I64Extend8S),
        0xC3u8 => Some(Opcode::I64Extend16S),
        0xC4u8 => Some(Opcode::I64Extend32S),
        0xD0u8 => Some(Opcode::RefNull),
        0xD1u8 => Some(Opcode::RefIsNull),
        0xD2u8 => Some(Opcode::RefFunc),
        _ => None,
    }
}

/// The opcode encoded by the prefix byte `0xFC` and `code`, if any.
pub open spec fn spec_fc_opcode(code: u32) -> Option<Opcode> {
    match code {
        0u32 => Some(Opcode::I32TruncSatF32S),
        1u32 => Some(Opcode::I32TruncSatF32U),
        2u32 => Some(Opcode::I32TruncSatF64S),
        3u32 => Some(Opcode::I32TruncSatF64U),
        4u32 => Some(Opcode::I64TruncSatF32S),
        5u32 => Some(Opcode::I64TruncSatF32U),
        6u32 => Some(Opcode::I64TruncSatF64S),
        7u32 => Some(Opcode::I64TruncSatF64U),
        8u32 => Some(Opcode::MemoryInit),
        9u32 => Some(Opcode::DataDrop),
        10u32 => Some(Opcode::MemoryCopy),
        11u32 => Some(Opcode::MemoryFill),
        12u32 => Some(Opcode::TableInit),
        13u32 => Some(Opcode::ElemDrop),
        14u32 => Some(Opcode::TableCopy),
        15u32 => Some(Opcode::TableGrow),
        16u32 => Some(Opcode::TableSize),
        17u32 => Some(Opcode::TableFill),
        _ => None,
    }
}

/// The opcode encoded by the prefix byte `0xFD` and `code`, if any.
pub open spec fn spec_fd_opcode(code: u32) -> Option<Opcode> {
    match code {
        0u32 => Some(Opcode::V128Load),
        1u32 => Some(Opcode::V128Load8x8S),
        2u32 => Some(Opcode::V128Load8x8U),
        3u32 => Some(Opcode::V128Load16x4S),
        4u32 => Some(Opcode::V128Load16x4U),
        5u32 => Some(Opcode::V128Load32x2S),
        6u32 => Some(Opcode::V128Load32x2U),
        7u32 => Some(Opcode::V128Load8Splat),
        8u32 => Some(Opcode::V128Load16Splat),
        9u32 => Some(Opcode::V128Load32Splat),
        10u32 => Some(Opcode::V128Load64Splat),
        11u32 => Some(Opcode::V128Store),
        12u32 => Some(Opcode::V128Const),
        13u32 => Some(Opcode::I8x16Shuffle),
        14u32 => Some(Opcode::I8x16Swizzle),
        15u32 => Some(Opcode::I8x16Splat),
        16u32 => Some(Opcode::I16x8Splat),
        17u32 => Some(Opcode::I32x4Splat),
        18u32 => Some(Opcode::I64x2Splat),
        19u32 => Some(Opcode::F32x4Splat),
        20u32 => Some(Opcode::F64x2Splat),
        21u32 => Some(Opcode::I8x16ExtractLaneS),
        22u32 => Some(Opcode::I8x16ExtractLaneU),
        23u32 => Some(Opcode::I8x16ReplaceLane),
        24u32 => Some(Opcode::I16x8ExtractLaneS),
        25u32 => Some(Opcode::I16x8ExtractLaneU),
        26u32 => Some(Opcode::I16x8ReplaceLane),
        27u32 => Some(Opcode::I32x4ExtractLane),
        28u32 => Some(Opcode::I32x4ReplaceLane),
        29u32 => Some(Opcode::I64x2ExtractLane),
        30u32 => Some(Opcode::I64x2ReplaceLane),
        31u32 => Some(Opcode::F32x4ExtractLane),
        32u32 => Some(Opcode::F32x4ReplaceLane),
        33u32 => Some(Opcode::F64x2ExtractLane),
        34u32 => Some(Opcode::F64x2ReplaceLane),
        35u32 => Some(Opcode::I8x16Eq),
        36u32 => Some(Opcode::I8x16Ne),
        37u32 => Some(Opcode::I8x16LtS),
        38u32 => Some(Opcode::I8x16LtU),
        39u32 => Some(Opcode::I8x16GtS),
        40u32 => Some(Opcode::I8x16GtU),
        41u32 => Some(Opcode::I8x16LeS),
        42u32 => Some(Opcode::I8x16LeU),
        43u32 => Some(Opcode::I8x16GeS),
        44u32 => Some(Opcode::I8x16GeU),
        45u32 => Some(Opcode::I16x8Eq),
        46u32 => Some(Opcode::I16x8Ne),
        47u32 => Some(Opcode::I16x8LtS),
        48u32 => Some(Opcode::I16x8LtU),
        49u32 => Some(Opcode::I16x8GtS),
        50u32 => Some(Opcode::I16x8GtU),
        51u32 => Some(Opcode::I16x8LeS),
        52u32 => Some(Opcode::I16x8LeU),
        53u32 => Some(Opcode::I16x8GeS),
        54u32 => Some(Opcode::I16x8GeU),
        55u32 => Some(Opcode::I32x4Eq),
        56u32 => Some(Opcode::I32x4Ne),
        57u32 => Some(Opcode::I32x4LtS),
        58u32 => Some(Opcode::I32x4LtU),
        59u32 => Some(Opcode::I32x4GtS),
        60u32 => Some(Opcode::I32x4GtU),
        61u32 => Some(Opcode::I32x4LeS),
        62u32 => Some(Opcode::I32x4LeU),
        63u32 => Some(Opcode::I32x4GeS),
        64u32 => Some(Opcode::I32x4GeU),
        65u32 => Some(Opcode::F32x4Eq),
        66u32 => Some(Opcode::F32x4Ne),
        67u32 => Some(Opcode::F32x4Lt),
        68u32 => Some(Opcode::F32x4Gt),
        69u32 => Some(Opcode::F32x4Le),
        70u32 => Some(Opcode::F32x4Ge),
        71u32 => Some(Opcode::F64x2Eq),
        72u32 => Some(Opcode::F64x2Ne),
        73u32 => Some(Opcode::F64x2Lt),
        74u32 => Some(Opcode::F64x2Gt),
        75u32 => Some(Opcode::F64x2Le),
        76u32 => Some(Opcode::F64x2Ge),
        77u32 => Some(Opcode::V128Not),
        78u32 => Some(Opcode::V128And),
        79u32 => Some(Opcode::V128AndNot),
        80u32 => Some(Opcode::V128Or),
        81u32 => Some(Opcode::V128Xor),
        82u32 => Some(Opcode::V128Bitselect),
        83u32 => Some(Opcode::V128AnyTrue),
        84u32 => Some(Opcode::V128Load8Lane),
        85u32 => Some(Opcode::V128Load16Lane),
        86u32 => Some(Opcode::V128Load32Lane),
        87u32 => Some(Opcode::V128Load64Lane),
        88u32 => Some(Opcode::V128Store8Lane),
        89u32 => Some(Opcode::V128Store16Lane),
        90u32 => Some(Opcode::V128Store32Lane),
        91u32 => Some(Opcode::V128Store64Lane),
        92u32 => Some(Opcode::V128Load32Zero),
        93u32 => Some(Opcode::V128Load64Zero),
        94u32 => Some(Opcode::F32x4DemoteF64x2Zero),
        95u32 => Some(Opcode::F64x2PromoteLowF32x4),
        96u32 => Some(Opcode::I8x16Abs),
        97u32 => Some(Opcode::I8x16Neg),
        98u32 => Some(Opcode::I8x16Popcnt),
        99u32 => Some(Opcode::I8x16AllTrue),
        100u32 => Some(Opcode::I8x16Bitmask),
        101u32 => Some(Opcode::I8x16NarrowI16x8S),
        102u32 => Some(Opcode::I8x16NarrowI16x8U),
        103u32 => Some(Opcode::F32x4Ceil),
        104u32 => Some(Opcode::F32x4Floor),
        105u32 => Some(Opcode::F32x4Trunc),
        106u32 => Some(Opcode::F32x4Nearest),
        107u32 => Some(Opcode::I8x16Shl),
        108u32 => Some(Opcode::I8x16ShrS),
        109u32 => Some(Opcode::I8x16ShrU),
        110u32 => Some(Opcode::I8x16Add),
        111u32 => Some(Opcode::I8x16AddSatS),
        112u32 => Some(Opcode::I8x16AddSatU),
        113u32 => Some(Opcode::I8x16Sub),
        114u32 => Some(Opcode::I8x16SubSatS),
        115u32 => Some(Opcode::I8x16SubSatU),
        116u32 => Some(Opcode::F64x2Ceil),
        117u32 => Some(Opcode::F64x2Floor),
        118u32 => Some(Opcode::I8x16MinS),
        119u32 => Some(Opcode::I8x16MinU),
        120u32 => Some(Opcode::I8x16MaxS),
        121u32 => Some(Opcode::I8x16MaxU),
        122u32 => Some(Opcode::F64x2Trunc),
        123u32 => Some(Opcode::I8x16AvgrU),
        124u32 => Some(Opcode::I16x8ExtaddPairwiseI8x16S),
        125u32 => Some(Opcode::I16x8ExtaddPairwiseI8x16U),
        126u32 => Some(Opcode::I32x4ExtaddPairwiseI16x8S),
        127u32 => Some(Opcode::I32x4ExtaddPairwiseI16x8U),
        128u32 => Some(Opcode::I16x8Abs),
        129u32 => Some(Opcode::I16x8Neg),
        130u32 => Some(Opcode::I16x8Q15mulrSatS),
        131u32 => Some(Opcode::I16x8AllTrue),
        132u32 => Some(Opcode::I16x8Bitmask),
        133u32 => Some(Opcode::I16x8NarrowI32x4S),
        134u32 => Some(Opcode::I16x8NarrowI32x4U),
        135u32 => Some(Opcode::I16x8ExtendLowI8x16S),
        136u32 => Some(Opcode::I16x8ExtendHighI8x16S),
        137u32 => Some(Opcode::I16x8ExtendLowI8x16U),
        138u32 => Some(Opcode::I16x8ExtendHighI8x16U),
        139u32 => Some(Opcode::I16x8Shl),
        140u32 => Some(Opcode::I16x8ShrS),
        141u32 => Some(Opcode::I16x8ShrU),
        142u32 => Some(Opcode::I16x8Add),
        143u32 => Some(Opcode::I16x8AddSatS),
        144u32 => Some(Opcode::I16x8AddSatU),
        145u32 => Some(Opcode::I16x8Sub),
        146u32 => Some(Opcode::I16x8SubSatS),
        147u32 => Some(Opcode::I16x8SubSatU),
        148u32 => Some(Opcode::F64x2Nearest),
        149u32 => Some(Opcode::I16x8Mul),
        150u32 => Some(Opcode::I16x8MinS),
        151u32 => Some(Opcode::I16x8MinU),
        152u32 => Some(Opcode::I16x8MaxS),
        153u32 => Some(Opcode::I16x8MaxU),
        155u32 => Some(Opcode::I16x8AvgrU),
        156u32 => Some(Opcode::I16x8ExtmulLowI8x16S),
        157u32 => Some(Opcode::I16x8ExtmulHighI8x16S),
        158u32 => Some(Opcode::I16x8ExtmulLowI8x16U),
        159u32 => Some(Opcode::I16x8ExtmulHighI8x16U),
        160u32 => Some(Opcode::I32x4Abs),
        161u32 => Some(Opcode::I32x4Neg),
        163u32 => Some(Opcode::I32x4AllTrue),
        164u32 => Some(Opcode::I32x4Bitmask),
        167u32 => Some(Opcode::I32x4ExtendLowI16x8S),
        168u32 => Some(Opcode::I32x4ExtendHighI16x8S),
        169u32 => Some(Opcode::I32x4ExtendLowI16x8U),
        170u32 => Some(Opcode::I32x4ExtendHighI16x8U),
        171u32 => Some(Opcode::I32x4Shl),
        172u32 => Some(Opcode::I32x4ShrS),
        173u32 => Some(Opcode::I32x4ShrU),
        174u32 => Some(Opcode::I32x4Add),
        177u32 => Some(Opcode::I32x4Sub),
        181u32 => Some(Opcode::I32x4Mul),
        182u32 => Some(Opcode::I32x4MinS),
        183u32 => Some(Opcode::I32x4MinU),
        184u32 => Some(Opcode::I32x4MaxS),
        185u32 => Some(Opcode::I32x4MaxU),
        186u32 => Some(Opcode::I32x4DotI16x8S),
        188u32 => Some(Opcode::I32x4ExtmulLowI16x8S),
        189u32 => Some(Opcode::I32x4ExtmulHighI16x8S),
        190u32 => Some(Opcode::I32x4ExtmulLowI16x8U),
        191u32 => Some(Opcode::I32x4ExtmulHighI16x8U),
        192u32 => Some(Opcode::I64x2Abs),
        193u32 => Some(Opcode::I64x2Neg),
        195u32 => Some(Opcode::I64x2AllTrue),
        196u32 => Some(Opcode::I64x2Bitmask),
        199u32 => Some(Opcode::I64x2ExtendLowI32x4S),
        200u32 => Some(Opcode::I64x2ExtendHighI32x4S),
        201u32 => Some(Opcode::I64x2ExtendLowI32x4U),
        202u32 => Some(Opcode::I64x2ExtendHighI32x4U),
        203u32 => Some(Opcode::I64x2Shl),
        204u32 => Some(Opcode::I64x2ShrS),
        205u32 => Some(Opcode::I64x2ShrU),
        206u32 => Some(Opcode::I64x2Add),
        209u32 => Some(Opcode::I64x2Sub),
        213u32 => Some(Opcode::I64x2Mul),
        214u32 => Some(Opcode::I64x2Eq),
        215u32 => Some(Opcode::I64x2Ne),
        216u32 => Some(Opcode::I64x2LtS),
        217u32 => Some(Opcode::I64x2GtS),
        218u32 => Some(Opcode::I64x2LeS),
        219u32 => Some(Opcode::I64x2GeS),
        220u32 => Some(Opcode::I64x2ExtmulLowI32x4S),
        221u32 => Some(Opcode::I64x2ExtmulHighI32x4S),
        222u32 => Some(Opcode::I64x2ExtmulLowI32x4U),
        223u32 => Some(Opcode::I64x2ExtmulHighI32x4U),
        224u32 => Some(Opcode::F32x4Abs),
        225u32 => Some(Opcode::F32x4Neg),
        227u32 => Some(Opcode::F32x4Sqrt),
        228u32 => Some(Opcode::F32x4Add),
        229u32 => Some(Opcode::F32x4Sub),
        230u32 => Some(Opcode::F32x4Mul),
        231u32 => Some(Opcode::F32x4Div),
        232u32 => Some(Opcode::F32x4Min),
        233u32 => Some(Opcode::F32x4Max),
        234u32 => Some(Opcode::F32x4Pmin),
        235u32 => Some(Opcode::F32x4Pmax),
        236u32 => Some(Opcode::F64x2Abs),
        237u32 => Some(Opcode::F64x2Neg),
        239u32 => Some(Opcode::F64x2Sqrt),
        240u32 => Some(Opcode::F64x2Add),
        241u32 => Some(Opcode::F64x2Sub),
        242u32 => Some(Opcode::F64x2Mul),
        243u32 => Some(Opcode::F64x2Div),
        244u32 => Some(Opcode::F64x2Min),
        245u32 => Some(Opcode::F64x2Max),
        246u32 => Some(Opcode::F64x2Pmin),
        247u32 => Some(Opcode::F64x2Pmax),
        248u32 => Some(Opcode::I32x4TruncSatF32x4S),
        249u32 => Some(Opcode::I32x4TruncSatF32x4U),
        250u32 => Some(Opcode::F32x4ConvertI32x4S),
        251u32 => Some(Opcode::F32x4ConvertI32x4U),
        252u32 => Some(Opcode::I32x4TruncSatF64x2SZero),
        253u32 => Some(Opcode::I32x4TruncSatF64x2UZero),
        254u32 => Some(Opcode::F64x2ConvertLowI32x4S),
        255u32 => Some(Opcode::F64x2ConvertLowI32x4U),
        256u32 => Some(Opcode::I8x16RelaxedSwizzle),
        257u32 => Some(Opcode::I32x4RelaxedTruncF32x4S),
        258u32 => Some(Opcode::I32x4RelaxedTruncF32x4U),
        259u32 => Some(Opcode::I32x4RelaxedTruncF64x2SZero),
        260u32 => Some(Opcode::I32x4RelaxedTruncF64x2UZero),
        261u32 => Some(Opcode::F32x4RelaxedMadd),
        262u32 => Some(Opcode::F32x4RelaxedNmadd),
        263u32 => Some(Opcode::F64x2RelaxedMadd),
        264u32 => Some(Opcode::F64x2RelaxedNmadd),
        265u32 => Some(Opcode::I8x16RelaxedLaneselect),
        266u32 => Some(Opcode::I16x8RelaxedLaneselect),
        267u32 => Some(Opcode::I32x4RelaxedLaneselect),
        268u32 => Some(Opcode::I64x2RelaxedLaneselect),
        269u32 => Some(Opcode::F32x4RelaxedMin),
        270u32 => Some(Opcode::F32x4RelaxedMax),
        271u32 => Some(Opcode::F64x2RelaxedMin),
        272u32 => Some(Opcode::F64x2RelaxedMax),
        273u32 => Some(Opcode::I16x8RelaxedQ15mulrS),
        274u32 => Some(Opcode::I16x8RelaxedDotI8x16I7x16S),
        275u32 => Some(Opcode::I32x4RelaxedDotI8x16I7x16AddS),
        _ => None,
    }
}

/// The opcode encoded by the prefix byte `0xFE` and `code`, if any.
pub open spec fn spec_fe_opcode(code: u32) -> Option<Opcode> {
    match code {
        0u32 => Some(Opcode::MemoryAtomicNotify),
        1u32 => Some(Opcode::MemoryAtomicWait32),
        2u32 => Some(Opcode::MemoryAtomicWait64),
        16u32 => Some(Opcode::I32AtomicLoad),
        17u32 => Some(Opcode::I64AtomicLoad),
        18u32 => Some(Opcode::I32AtomicLoad8U),
        19u32 => Some(Opcode::I32AtomicLoad16U),
        20u32 => Some(Opcode::I64AtomicLoad8U),
        21u32 => Some(Opcode::I64AtomicLoad16U),
        22u32 => Some(Opcode::I64AtomicLoad32U),
        23u32 => Some(Opcode::I32AtomicStore),
        24u32 => Some(Opcode::I64AtomicStore),
        25u32 => Some(Opcode::I32AtomicStore8U),
        26u32 => Some(Opcode::I32AtomicStore16U),
        27u32 => Some(Opcode::I64AtomicStore8U),
        28u32 => Some(Opcode::I64AtomicStore16U),
        29u32 => Some(Opcode::I64AtomicStore32U),
        30u32 => Some(Opcode::I32AtomicRmwAdd),
        31u32 => Some(Opcode::I64AtomicRmwAdd),
        32u32 => Some(Opcode::I32AtomicRmw8AddU),
        33u32 => Some(Opcode::I32AtomicRmw16AddU),
        34u32 => Some(Opcode::I64AtomicRmw8AddU),
        35u32 => Some(Opcode::I64AtomicRmw16AddU),
        36u32 => Some(Opcode::I64AtomicRmw32AddU),
        37u32 => Some(Opcode::I32AtomicRmwSub),
        38u32 => Some(Opcode::I64AtomicRmwSub),
        39u32 => Some(Opcode::I32AtomicRmw8SubU),
        40u32 => Some(Opcode::I32AtomicRmw16SubU),
        41u32 => Some(Opcode::I64AtomicRmw8SubU),
        42u32 => Some(Opcode::I64AtomicRmw16SubU),
        43u32 => Some(Opcode::I64AtomicRmw32SubU),
        44u32 => Some(Opcode::I32AtomicRmwAnd),
        45u32 => Some(Opcode::I64AtomicRmwAnd),
        46u32 => Some(Opcode::I32AtomicRmw8AndU),
        47u32 => Some(Opcode::I32AtomicRmw16AndU),
        48u32 => Some(Opcode::I64AtomicRmw8AndU),
        49u32 => Some(Opcode::I64AtomicRmw16AndU),
        50u32 => Some(Opcode::I64AtomicRmw32AndU),
        51u32 => Some(Opcode::I32AtomicRmwOr),
        52u32 => Some(Opcode::I64AtomicRmwOr),
        53u32 => Some(Opcode::I32AtomicRmw8OrU),
        54u32 => Some(Opcode::I32AtomicRmw16OrU),
        55u32 => Some(Opcode::I64AtomicRmw8OrU),
        56u32 => Some(Opcode::I64AtomicRmw16OrU),
        57u32 => Some(Opcode::I64AtomicRmw32OrU),
        58u32 => Some(Opcode::I32AtomicRmwXor),
        59u32 => Some(Opcode::I64AtomicRmwXor),
        60u32 => Some(Opcode::I32AtomicRmw8XorU),
        61u32 => Some(Opcode::I32AtomicRmw16XorU),
        62u32 => Some(Opcode::I64AtomicRmw8XorU),
        63u32 => Some(Opcode::I64AtomicRmw16XorU),
        64u32 => Some(Opcode::I64AtomicRmw32XorU),
        65u32 => Some(Opcode::I32AtomicRmwXchg),
        66u32 => Some(Opcode::I64AtomicRmwXchg),
        67u32 => Some(Opcode::I32AtomicRmw8XchgU),
        68u32 => Some(Opcode::I32AtomicRmw16XchgU),
        69u32 => Some(Opcode::I64AtomicRmw8XchgU),
        70u32 => Some(Opcode::I64AtomicRmw16XchgU),
        71u32 => Some(Opcode::I64AtomicRmw32XchgU),
        72u32 => Some(Opcode::I32AtomicRmwCmpxchg),
        73u32 => Some(Opcode::I64AtomicRmwCmpxchg),
        74u32 => Some(Opcode::I32AtomicRmw8CmpxchgU),
        75u32 => Some(Opcode::I32AtomicRmw16CmpxchgU),
        76u32 => Some(Opcode::I64AtomicRmw8CmpxchgU),
        77u32 => Some(Opcode::I64AtomicRmw16CmpxchgU),
        78u32 => Some(Opcode::I64AtomicRmw32CmpxchgU),
        _ => None,
    }
}

/// The opcode encoded by `prefix` and `code`, if any.
pub open spec fn spec_prefixed_opcode(prefix: u8, code: u32) -> Option<Opcode> {
    if prefix == 0xFC {
        spec_fc_opcode(code)
    } else if prefix == 0xFD {
        spec_fd_opcode(code)
    } else if prefix == 0xFE {
        spec_fe_opcode(code)
    } else {
        None
    }
}

/// `b` is one of the prefix bytes after which an opcode is encoded as a *LEB128* integer.
pub open spec fn is_prefix(b: u8) -> bool {
    b == 0xFC || b == 0xFD || b == 0xFE
}

/// The name of each instruction in the WebAssembly text format.
pub open spec fn spec_name(op: Opcode) -> Seq<char> {
    match op {
        Opcode::Unreachable => "unreachable"@,
        Opcode::Nop => "nop"@,
        Opcode::Block => "block"@,
        Opcode::Loop => "loop"@,
        Opcode::If => "if"@,
        Opcode::Else => "else"@,
        Opcode::End => "end"@,
        Opcode::Br => "br"@,
        Opcode::BrIf => "br_if"@,
        Opcode::BrTable => "br_table"@,
        Opcode::Return => "return"@,
        Opcode::Call => "call"@,
        Opcode::CallIndirect => "call_indirect"@,
        Opcode::Drop => "drop"@,
        Opcode::Select => "select"@,
        Opcode::SelectTyped => "select"@,
        Opcode::LocalGet => "local.get"@,
        Opcode::LocalSet => "local.set"@,
        Opcode::LocalTee => "local.tee"@,
        Opcode::GlobalGet => "global.get"@,
        Opcode::GlobalSet => "global.set"@,
        Opcode::I32Load => "i32.load"@,
        Opcode::I64Load => "i64.load"@,
        Opcode::F32Load => "f32.load"@,
        Opcode::F64Load => "f64.load"@,
        Opcode::I32Load8S => "i32.load8_s"@,
        Opcode::I32Load8U => "i32.load8_u"@,
        Opcode::I32Load16S => "i32.load16_s"@,
        Opcode::I32Load16U => "i32.load16_u"@,
        Opcode::I64Load8S => "i64.load8_s"@,
        Opcode::I64Load8U => "i64.load8_u"@,
        Opcode::I64Load16S => "i64.load16_s"@,
        Opcode::I64Load16U => "i64.load16_u"@,
        Opcode::I64Load32S => "i64.load32_s"@,
        Opcode::I64Load32U => "i64.load32_u"@,
        Opcode::I32Store => "i32.store"@,
        Opcode::I64Store => "i64.store"@,
        Opcode::F32Store => "f32.store"@,
        Opcode::F64Store => "f64.store"@,
        Opcode::I32Store8 => "i32.store8"@,
        Opcode::I32Store16 => "i32.store16"@,
        Opcode::I64Store8 => "i64.store8"@,
        Opcode::I64Store16 => "i64.store16"@,
        Opcode::I64Store32 => "i64.store32"@,
        Opcode::MemorySize => "memory.size"@,
        Opcode::MemoryGrow => "memory.grow"@,
        Opcode::I32Const => "i32.const"@,
        Opcode::I64Const => "i64.const"@,
        Opcode::F32Const => "f32.const"@,
        Opcode::F64Const => "f64.const"@,
        Opcode::I32Eqz => "i32.eqz"@,
        Opcode::I32Eq => "i32.eq"@,
        Opcode::I32Ne => "i32.ne"@,
        Opcode::I32LtS => "i32.lt_s"@,
        Opcode::I32LtU => "i32.lt_u"@,
        Opcode::I32GtS => "i32.gt_s"@,
        Opcode::I32GtU => "i32.gt_u"@,
        Opcode::I32LeS => "i32.le_s"@,
        Opcode::I32LeU => "i32.le_u"@,
        Opcode::I32GeS => "i32.ge_s"@,
        Opcode::I32GeU => "i32.ge_u"@,
        Opcode::I64Eqz => "i64.eqz"@,
        Opcode::I64Eq => "i64.eq"@,
        Opcode::I64Ne => "i64.ne"@,
        Opcode::I64LtS => "i64.lt_s"@,
        Opcode::I64LtU => "i64.lt_u"@,
        Opcode::I64GtS => "i64.gt_s"@,
        Opcode::I64GtU => "i64.gt_u"@,
        Opcode::I64LeS => "i64.le_s"@,
        Opcode::I64LeU => "i64.le_u"@,
        Opcode::I64GeS => "i64.ge_s"@,
        Opcode::I64GeU => "i64.ge_u"@,
        Opcode::F32Eq => "f32.eq"@,
        Opcode::F32Ne => "f32.ne"@,
        Opcode::F32Lt => "f32.lt"@,
        Opcode::F32Gt => "f32.gt"@,
        Opcode::F32Le => "f32.le"@,
        Opcode::F32Ge => "f32.ge"@,
        Opcode::F64Eq => "f64.eq"@,
        Opcode::F64Ne => "f64.ne"@,
        Opcode::F64Lt => "f64.lt"@,
        Opcode::F64Gt => "f64.gt"@,
        Opcode::F64Le => "f64.le"@,
        Opcode::F64Ge => "f64.ge"@,
        Opcode::I32Clz => "i32.clz"@,
        Opcode::I32Ctz => "i32.ctz"@,
        Opcode::I32Popcnt => "i32.popcnt"@,
        Opcode::I32Add => "i32.add"@,
        Opcode::I32Sub => "i32.sub"@,
        Opcode::I32Mul => "i32.mul"@,
        Opcode::I32DivS => "i32.div_s"@,
        Opcode::I32DivU => "i32.div_u"@,
        Opcode::I32RemS => "i32.rem_s"@,
        Opcode::I32RemU => "i32.rem_u"@,
        Opcode::I32And => "i32.and"@,
        Opcode::I32Or => "i32.or"@,
        Opcode::I32Xor => "i32.xor"@,
        Opcode::I32Shl => "i32.shl"@,
        Opcode::I32ShrS => "i32.shr_s"@,
        Opcode::I32ShrU => "i32.shr_u"@,
        Opcode::I32Rotl => "i32.rotl"@,
        Opcode::I32Rotr => "i32.rotr"@,
        Opcode::I64Clz => "i64.clz"@,
        Opcode::I64Ctz => "i64.ctz"@,
        Opcode::I64Popcnt => "i64.popcnt"@,
        Opcode::I64Add => "i64.add"@,
        Opcode::I64Sub => "i64.sub"@,
        Opcode::I64Mul => "i64.mul"@,
        Opcode::I64DivS => "i64.div_s"@,
        Opcode::I64DivU => "i64.div_u"@,
        Opcode::I64RemS => "i64.rem_s"@,
        Opcode::I64RemU => "i64.rem_u"@,
        Opcode::I64And => "i64.and"@,
        Opcode::I64Or => "i64.or"@,
        Opcode::I64Xor => "i64.xor"@,
        Opcode::I64Shl => "i64.shl"@,
        Opcode::I64ShrS => "i64.shr_s"@,
        Opcode::I64ShrU => "i64.shr_u"@,
        Opcode::I64Rotl => "i64.rotl"@,
        Opcode::I64Rotr => "i64.rotr"@,
        Opcode::F32Abs => "f32.abs"@,
        Opcode::F32Neg => "f32.neg"@,
        Opcode::F32Ceil => "f32.ceil"@,
        Opcode::F32Floor => "f32.floor"@,
        Opcode::F32Trunc => "f32.trunc"@,
        Opcode::F32Nearest => "f32.nearest"@,
        Opcode::F32Sqrt => "f32.sqrt"@,
        Opcode::F32Add => "f32.add"@,
        Opcode::F32Sub => "f32.sub"@,
        Opcode::F32Mul => "f32.mul"@,
        Opcode::F32Div => "f32.div"@,
        Opcode::F32Min => "f32.min"@,
        Opcode::F32Max => "f32.max"@,
        Opcode::F32Copysign => "f32.copysign"@,
        Opcode::F64Abs => "f64.abs"@,
        Opcode::F64Neg => "f64.neg"@,
        Opcode::F64Ceil => "f64.ceil"@,
        Opcode::F64Floor => "f64.floor"@,
        Opcode::F64Trunc => "f64.trunc"@,
        Opcode::F64Nearest => "f64.nearest"@,
        Opcode::F64Sqrt => "f64.sqrt"@,
        Opcode::F64Add => "f64.add"@,
        Opcode::F64Sub => "f64.sub"@,
        Opcode::F64Mul => "f64.mul"@,
        Opcode::F64Div => "f64.div"@,
        Opcode::F64Min => "f64.min"@,
        Opcode::F64Max => "f64.max"@,
        Opcode::F64Copysign => "f64.copysign"@,
        Opcode::I32WrapI64 => "i32.wrap_i64"@,
        Opcode::I32TruncF32S => "i32.trunc_f32_s"@,
        Opcode::I32TruncF32U => "i32.trunc_f32_u"@,
        Opcode::I32TruncF64S => "i32.trunc_f64_s"@,
        Opcode::I32TruncF64U => "i32.trunc_f64_u"@,
        Opcode::I64ExtendI32S => "i64.extend_i32_s"@,
        Opcode::I64ExtendI32U => "i64.extend_i32_u"@,
        Opcode::I64TruncF32S => "i64.trunc_f32_s"@,
        Opcode::I64TruncF32U => "i64.trunc_f32_u"@,
        Opcode::I64TruncF64S => "i64.trunc_f64_s"@,
        Opcode::I64TruncF64U => "i64.trunc_f64_u"@,
        Opcode::F32ConvertI32S => "f32.convert_i32_s"@,
        Opcode::F32ConvertI32U => "f32.convert_i32_u"@,
        Opcode::F32ConvertI64S => "f32.convert_i64_s"@,
        Opcode::F32ConvertI64U => "f32.convert_i64_u"@,
        Opcode::F32DemoteF64 => "f32.demote_f64"@,
        Opcode::F64ConvertI32S => "f64.convert_i32_s"@,
        Opcode::F64ConvertI32U => "f64.convert_i32_u"@,
        Opcode::F64ConvertI64S => "f64.convert_i64_s"@,
        Opcode::F64ConvertI64U => "f64.convert_i64_u"@,
        Opcode::F64PromoteF32 => "f64.promote_f32"@,
        Opcode::I32ReinterpretF32 => "i32.reinterpret_f32"@,
        Opcode::I64ReinterpretF64 => "i64.reinterpret_f64"@,
        Opcode::F32ReinterpretI32 => "f32.reinterpret_i32"@,
        Opcode::F64ReinterpretI64 => "f64.reinterpret_i64"@,
        Opcode::I32TruncSatF32S => "i32.trunc_sat_f32_s"@,
        Opcode::I32TruncSatF32U => "i32.trunc_sat_f32_u"@,
        Opcode::I32TruncSatF64S => "i32.trunc_sat_f64_s"@,
        Opcode::I32TruncSatF64U => "i32.trunc_sat_f64_u"@,
        Opcode::I64TruncSatF32S => "i64.trunc_sat_f32_s"@,
        Opcode::I64TruncSatF32U => "i64.trunc_sat_f32_u"@,
        Opcode::I64TruncSatF64S => "i64.trunc_sat_f64_s"@,
        Opcode::I64TruncSatF64U => "i64.trunc_sat_f64_u"@,
        Opcode::I32Extend8S => "i32.extend8_s"@,
        Opcode::I32Extend16S => "i32.extend16_s"@,
        Opcode::I64Extend8S => "i64.extend8_s"@,
        Opcode::I64Extend16S => "i64.extend16_s"@,
        Opcode::I64Extend32S => "i64.extend32_s"@,
        Opcode::MemoryCopy => "memory.copy"@,
        Opcode::MemoryFill => "memory.fill"@,
        Opcode::MemoryInit => "memory.init"@,
        Opcode::DataDrop => "data.drop"@,
        Opcode::TableCopy => "table.copy"@,
        Opcode::TableInit => "table.init"@,
        Opcode::ElemDrop => "elem.drop"@,
        Opcode::RefNull => "ref.null"@,
        Opcode::RefIsNull => "ref.is_null"@,
        Opcode::RefFunc => "ref.func"@,
        Opcode::TableGet => "table.get"@,
        Opcode::TableSet => "table.set"@,
        Opcode::TableSize => "table.size"@,
        Opcode::TableGrow => "table.grow"@,
        Opcode::TableFill => "table.fill"@,
        Opcode::V128Load => "v128.load"@,
        Opcode::V128Load8x8S => "v128.load8x8_s"@,
        Opcode::V128Load8x8U => "v128.load8x8_u"@,
        Opcode::V128Load16x4S => "v128.load16x4_s"@,
        Opcode::V128Load16x4U => "v128.load16x4_u"@,
        Opcode::V128Load32x2S => "v128.load32x2_s"@,
        Opcode::V128Load32x2U => "v128.load32x2_u"@,
        Opcode::V128Load8Splat => "v128.load8_splat"@,
        Opcode::V128Load16Splat => "v128.load16_splat"@,
        Opcode::V128Load32Splat => "v128.load32_splat"@,
        Opcode::V128Load64Splat => "v128.load64_splat"@,
        Opcode::V128Load32Zero => "v128.load32_zero"@,
        Opcode::V128Load64Zero => "v128.load64_zero"@,
        Opcode::V128Store => "v128.store"@,
        Opcode::V128Load8Lane => "v128.load8_lane"@,
        Opcode::V128Load16Lane => "v128.load16_lane"@,
        Opcode::V128Load32Lane => "v128.load32_lane"@,
        Opcode::V128Load64Lane => "v128.load64_lane"@,
        Opcode::V128Store8Lane => "v128.store8_lane"@,
        Opcode::V128Store16Lane => "v128.store16_lane"@,
        Opcode::V128Store32Lane => "v128.store32_lane"@,
        Opcode::V128Store64Lane => "v128.store64_lane"@,
        Opcode::V128Const => "v128.const"@,
        Opcode::I8x16Shuffle => "i8x16.shuffle"@,
        Opcode::I8x16Swizzle => "i8x16.swizzle"@,
        Opcode::I8x16Splat => "i8x16.splat"@,
        Opcode::I16x8Splat => "i16x8.splat"@,
        Opcode::I32x4Splat => "i32x4.splat"@,
        Opcode::I64x2Splat => "i64x2.splat"@,
        Opcode::F32x4Splat => "f32x4.splat"@,
        Opcode::F64x2Splat => "f64x2.splat"@,
        Opcode::I8x16ExtractLaneS => "i8x16.extract_lane_s"@,
        Opcode::I8x16ExtractLaneU => "i8x16.extract_lane_u"@,
        Opcode::I8x16ReplaceLane => "i8x16.replace_lane"@,
        Opcode::I16x8ExtractLaneS => "i16x8.extract_lane_s"@,
        Opcode::I16x8ExtractLaneU => "i16x8.extract_lane_u"@,
        Opcode::I16x8ReplaceLane => "i16x8.replace_lane"@,
        Opcode::I32x4ExtractLane => "i32x4.extract_lane"@,
        Opcode::I32x4ReplaceLane => "i32x4.replace_lane"@,
        Opcode::I64x2ExtractLane => "i64x2.extract_lane"@,
        Opcode::I64x2ReplaceLane => "i64x2.replace_lane"@,
        Opcode::F32x4ExtractLane => "f32x4.extract_lane"@,
        Opcode::F32x4ReplaceLane => "f32x4.replace_lane"@,
        Opcode::F64x2ExtractLane => "f64x2.extract_lane"@,
        Opcode::F64x2ReplaceLane => "f64x2.replace_lane"@,
        Opcode::I8x16Eq => "i8x16.eq"@,
        Opcode::I8x16Ne => "i8x16.ne"@,
        Opcode::I8x16LtS => "i8x16.lt_s"@,
        Opcode::I8x16LtU => "i8x16.lt_u"@,
        Opcode::I8x16GtS => "i8x16.gt_s"@,
        Opcode::I8x16GtU => "i8x16.gt_u"@,
        Opcode::I8x16LeS => "i8x16.le_s"@,
        Opcode::I8x16LeU => "i8x16.le_u"@,
        Opcode::I8x16GeS => "i8x16.ge_s"@,
        Opcode::I8x16GeU => "i8x16.ge_u"@,
        Opcode::I16x8Eq => "i16x8.eq"@,
        Opcode::I16x8Ne => "i16x8.ne"@,
        Opcode::I16x8LtS => "i16x8.lt_s"@,
        Opcode::I16x8LtU => "i16x8.lt_u"@,
        Opcode::I16x8GtS => "i16x8.gt_s"@,
        Opcode::I16x8GtU => "i16x8.gt_u"@,
        Opcode::I16x8LeS => "i16x8.le_s"@,
        Opcode::I16x8LeU => "i16x8.le_u"@,
        Opcode::I16x8GeS => "i16x8.ge_s"@,
        Opcode::I16x8GeU => "i16x8.ge_u"@,
        Opcode::I32x4Eq => "i32x4.eq"@,
        Opcode::I32x4Ne => "i32x4.ne"@,
        Opcode::I32x4LtS => "i32x4.lt_s"@,
        Opcode::I32x4LtU => "i32x4.lt_u"@,
        Opcode::I32x4GtS => "i32x4.gt_s"@,
        Opcode::I32x4GtU => "i32x4.gt_u"@,
        Opcode::I32x4LeS => "i32x4.le_s"@,
        Opcode::I32x4LeU => "i32x4.le_u"@,
        Opcode::I32x4GeS => "i32x4.ge_s"@,
        Opcode::I32x4GeU => "i32x4.ge_u"@,
        Opcode::F32x4Eq => "f32x4.eq"@,
        Opcode::F32x4Ne => "f32x4.ne"@,
        Opcode::F32x4Lt => "f32x4.lt"@,
        Opcode::F32x4Gt => "f32x4.gt"@,
        Opcode::F32x4Le => "f32x4.le"@,
        Opcode::F32x4Ge => "f32x4.ge"@,
        Opcode::F64x2Eq => "f64x2.eq"@,
        Opcode::F64x2Ne => "f64x2.ne"@,
        Opcode::F64x2Lt => "f64x2.lt"@,
        Opcode::F64x2Gt => "f64x2.gt"@,
        Opcode::F64x2Le => "f64x2.le"@,
        Opcode::F64x2Ge => "f64x2.ge"@,
        Opcode::V128Not => "v128.not"@,
        Opcode::V128And => "v128.and"@,
        Opcode::V128AndNot => "v128.andnot"@,
        Opcode::V128Or => "v128.or"@,
        Opcode::V128Xor => "v128.xor"@,
        Opcode::V128Bitselect => "v128.bitselect"@,
        Opcode::V128AnyTrue => "v128.any_true"@,
        Opcode::F32x4DemoteF64x2Zero => "f32x4.demote_f64x2_zero"@,
        Opcode::F64x2PromoteLowF32x4 => "f64x2.promote_low_f32x4"@,
        Opcode::I8x16Abs => "i8x16.abs"@,
        Opcode::I8x16Neg => "i8x16.neg"@,
        Opcode::I8x16Popcnt => "i8x16.popcnt"@,
        Opcode::I8x16AllTrue => "i8x16.all_true"@,
        Opcode::I8x16Bitmask => "i8x16.bitmask"@,
        Opcode::I8x16NarrowI16x8S => "i8x16.narrow_i16x8_s"@,
        Opcode::I8x16NarrowI16x8U => "i8x16.narrow_i16x8_u"@,
        Opcode::F32x4Ceil => "f32x4.ceil"@,
        Opcode::F32x4Floor => "f32x4.floor"@,
        Opcode::F32x4Trunc => "f32x4.trunc"@,
        Opcode::F32x4Nearest => "f32x4.nearest"@,
        Opcode::I8x16Shl => "i8x16.shl"@,
        Opcode::I8x16ShrS => "i8x16.shr_s"@,
        Opcode::I8x16ShrU => "i8x16.shr_u"@,
        Opcode::I8x16Add => "i8x16.add"@,
        Opcode::I8x16AddSatS => "i8x16.add_sat_s"@,
        Opcode::I8x16AddSatU => "i8x16.add_sat_u"@,
        Opcode::I8x16Sub => "i8x16.sub"@,
        Opcode::I8x16SubSatS => "i8x16.sub_sat_s"@,
        Opcode::I8x16SubSatU => "i8x16.sub_sat_u"@,
        Opcode::F64x2Ceil => "f64x2.ceil"@,
        Opcode::F64x2Floor => "f64x2.floor"@,
        Opcode::I8x16MinS => "i8x16.min_s"@,
        Opcode::I8x16MinU => "i8x16.min_u"@,
        Opcode::I8x16MaxS => "i8x16.max_s"@,
        Opcode::I8x16MaxU => "i8x16.max_u"@,
        Opcode::F64x2Trunc => "f64x2.trunc"@,
        Opcode::I8x16AvgrU => "i8x16.avgr_u"@,
        Opcode::I16x8ExtaddPairwiseI8x16S => "i16x8.extadd_pairwise_i8x16_s"@,
        Opcode::I16x8ExtaddPairwiseI8x16U => "i16x8.extadd_pairwise_i8x16_u"@,
        Opcode::I32x4ExtaddPairwiseI16x8S => "i32x4.extadd_pairwise_i16x8_s"@,
        Opcode::I32x4ExtaddPairwiseI16x8U => "i32x4.extadd_pairwise_i16x8_u"@,
        Opcode::I16x8Abs => "i16x8.abs"@,
        Opcode::I16x8Neg => "i16x8.neg"@,
        Opcode::I16x8Q15mulrSatS => "i16x8.q15mulr_sat_s"@,
        Opcode::I16x8AllTrue => "i16x8.all_true"@,
        Opcode::I16x8Bitmask => "i16x8.bitmask"@,
        Opcode::I16x8NarrowI32x4S => "i16x8.narrow_i32x4_s"@,
        Opcode::I16x8NarrowI32x4U => "i16x8.narrow_i32x4_u"@,
        Opcode::I16x8ExtendLowI8x16S => "i16x8.extend_low_i8x16_s"@,
        Opcode::I16x8ExtendHighI8x16S => "i16x8.extend_high_i8x16_s"@,
        Opcode::I16x8ExtendLowI8x16U => "i16x8.extend_low_i8x16_u"@,
        Opcode::I16x8ExtendHighI8x16U => "i16x8.extend_high_i8x16_u"@,
        Opcode::I16x8Shl => "i16x8.shl"@,
        Opcode::I16x8ShrS => "i16x8.shr_s"@,
        Opcode::I16x8ShrU => "i16x8.shr_u"@,
        Opcode::I16x8Add => "i16x8.add"@,
        Opcode::I16x8AddSatS => "i16x8.add_sat_s"@,
        Opcode::I16x8AddSatU => "i16x8.add_sat_u"@,
        Opcode::I16x8Sub => "i16x8.sub"@,
        Opcode::I16x8SubSatS => "i16x8.sub_sat_s"@,
        Opcode::I16x8SubSatU => "i16x8.sub_sat_u"@,
        Opcode::F64x2Nearest => "f64x2.nearest"@,
        Opcode::I16x8Mul => "i16x8.mul"@,
        Opcode::I16x8MinS => "i16x8.min_s"@,
        Opcode::I16x8MinU => "i16x8.min_u"@,
        Opcode::I16x8MaxS => "i16x8.max_s"@,
        Opcode::I16x8MaxU => "i16x8.max_u"@,
        Opcode::I16x8AvgrU => "i16x8.avgr_u"@,
        Opcode::I16x8ExtmulLowI8x16S => "i16x8.extmul_low_i8x16_s"@,
        Opcode::I16x8ExtmulHighI8x16S => "i16x8.extmul_high_i8x16_s"@,
        Opcode::I16x8ExtmulLowI8x16U => "i16x8.extmul_low_i8x16_u"@,
        Opcode::I16x8ExtmulHighI8x16U => "i16x8.extmul_high_i8x16_u"@,
        Opcode::I32x4Abs => "i32x4.abs"@,
        Opcode::I32x4Neg => "i32x4.neg"@,
        Opcode::I32x4AllTrue => "i32x4.all_true"@,
        Opcode::I32x4Bitmask => "i32x4.bitmask"@,
        Opcode::I32x4ExtendLowI16x8S => "i32x4.extend_low_i16x8_s"@,
        Opcode::I32x4ExtendHighI16x8S => "i32x4.extend_high_i16x8_s"@,
        Opcode::I32x4ExtendLowI16x8U => "i32x4.extend_low_i16x8_u"@,
        Opcode::I32x4ExtendHighI16x8U => "i32x4.extend_high_i16x8_u"@,
        Opcode::I32x4Shl => "i32x4.shl"@,
        Opcode::I32x4ShrS => "i32x4.shr_s"@,
        Opcode::I32x4ShrU => "i32x4.shr_u"@,
        Opcode::I32x4Add => "i32x4.add"@,
        Opcode::I32x4Sub => "i32x4.sub"@,
        Opcode::I32x4Mul => "i32x4.mul"@,
        Opcode::I32x4MinS => "i32x4.min_s"@,
        Opcode::I32x4MinU => "i32x4.min_u"@,
        Opcode::I32x4MaxS => "i32x4.max_s"@,
        Opcode::I32x4MaxU => "i32x4.max_u"@,
        Opcode::I32x4DotI16x8S => "i32x4.dot_i16x8_s"@,
        Opcode::I32x4ExtmulLowI16x8S => "i32x4.extmul_low_i16x8_s"@,
        Opcode::I32x4ExtmulHighI16x8S => "i32x4.extmul_high_i16x8_s"@,
        Opcode::I32x4ExtmulLowI16x8U => "i32x4.extmul_low_i16x8_u"@,
        Opcode::I32x4ExtmulHighI16x8U => "i32x4.extmul_high_i16x8_u"@,
        Opcode::I64x2Abs => "i64x2.abs"@,
        Opcode::I64x2Neg => "i64x2.neg"@,
        Opcode::I64x2AllTrue => "i64x2.all_true"@,
        Opcode::I64x2Bitmask => "i64x2.bitmask"@,
        Opcode::I64x2ExtendLowI32x4S => "i64x2.extend_low_i32x4_s"@,
        Opcode::I64x2ExtendHighI32x4S => "i64x2.extend_high_i32x4_s"@,
        Opcode::I64x2ExtendLowI32x4U => "i64x2.extend_low_i32x4_u"@,
        Opcode::I64x2ExtendHighI32x4U => "i64x2.extend_high_i32x4_u"@,
        Opcode::I64x2Shl => "i64x2.shl"@,
        Opcode::I64x2ShrS => "i64x2.shr_s"@,
        Opcode::I64x2ShrU => "i64x2.shr_u"@,
        Opcode::I64x2Add => "i64x2.add"@,
        Opcode::I64x2Sub => "i64x2.sub"@,
        Opcode::I64x2Mul => "i64x2.mul"@,
        Opcode::I64x2Eq => "i64x2.eq"@,
        Opcode::I64x2Ne => "i64x2.ne"@,
        Opcode::I64x2LtS => "i64x2.lt_s"@,
        Opcode::I64x2GtS => "i64x2.gt_s"@,
        Opcode::I64x2LeS => "i64x2.le_s"@,
        Opcode::I64x2GeS => "i64x2.ge_s"@,
        Opcode::I64x2ExtmulLowI32x4S => "i64x2.extmul_low_i32x4_s"@,
        Opcode::I64x2ExtmulHighI32x4S => "i64x2.extmul_high_i32x4_s"@,
        Opcode::I64x2ExtmulLowI32x4U => "i64x2.extmul_low_i32x4_u"@,
        Opcode::I64x2ExtmulHighI32x4U => "i64x2.extmul_high_i32x4_u"@,
        Opcode::F32x4Abs => "f32x4.abs"@,
        Opcode::F32x4Neg => "f32x4.neg"@,
        Opcode::F32x4Sqrt => "f32x4.sqrt"@,
        Opcode::F32x4Add => "f32x4.add"@,
        Opcode::F32x4Sub => "f32x4.sub"@,
        Opcode::F32x4Mul => "f32x4.mul"@,
        Opcode::F32x4Div => "f32x4.div"@,
        Opcode::F32x4Min => "f32x4.min"@,
        Opcode::F32x4Max => "f32x4.max"@,
        Opcode::F32x4Pmin => "f32x4.pmin"@,
        Opcode::F32x4Pmax => "f32x4.pmax"@,
        Opcode::F64x2Abs => "f64x2.abs"@,
        Opcode::F64x2Neg => "f64x2.neg"@,
        Opcode::F64x2Sqrt => "f64x2.sqrt"@,
        Opcode::F64x2Add => "f64x2.add"@,
        Opcode::F64x2Sub => "f64x2.sub"@,
        Opcode::F64x2Mul => "f64x2.mul"@,
        Opcode::F64x2Div => "f64x2.div"@,
        Opcode::F64x2Min => "f64x2.min"@,
        Opcode::F64x2Max => "f64x2.max"@,
        Opcode::F64x2Pmin => "f64x2.pmin"@,
        Opcode::F64x2Pmax => "f64x2.pmax"@,
        Opcode::I32x4TruncSatF32x4S => "i32x4.trunc_sat_f32x4_s"@,
        Opcode::I32x4TruncSatF32x4U => "i32x4.trunc_sat_f32x4_u"@,
        Opcode::F32x4ConvertI32x4S => "f32x4.convert_i32x4_s"@,
        Opcode::F32x4ConvertI32x4U => "f32x4.convert_i32x4_u"@,
        Opcode::I32x4TruncSatF64x2SZero => "i32x4.trunc_sat_f64x2_s_zero"@,
        Opcode::I32x4TruncSatF64x2UZero => "i32x4.trunc_sat_f64x2_u_zero"@,
        Opcode::F64x2ConvertLowI32x4S => "f64x2.convert_low_i32x4_s"@,
        Opcode::F64x2ConvertLowI32x4U => "f64x2.convert_low_i32x4_u"@,
        Opcode::ReturnCall => "return_call"@,
        Opcode::ReturnCallIndirect => "return_call_indirect"@,
        Opcode::MemoryAtomicNotify => "memory.atomic.notify"@,
        Opcode::MemoryAtomicWait32 => "memory.atomic.wait32"@,
        Opcode::MemoryAtomicWait64 => "memory.atomic.wait64"@,
        Opcode::I32AtomicLoad => "i32.atomic.load"@,
        Opcode::I64AtomicLoad => "i64.atomic.load"@,
        Opcode::I32AtomicLoad8U => "i32.atomic.load8_u"@,
        Opcode::I32AtomicLoad16U => "i32.atomic.load16_u"@,
        Opcode::I64AtomicLoad8U => "i64.atomic.load8_u"@,
        Opcode::I64AtomicLoad16U => "i64.atomic.load16_u"@,
        Opcode::I64AtomicLoad32U => "i64.atomic.load32_u"@,
        Opcode::I32AtomicStore => "i32.atomic.store"@,
        Opcode::I64AtomicStore => "i64.atomic.store"@,
        Opcode::I32AtomicStore8U => "i32.atomic.store8_u"@,
        Opcode::I32AtomicStore16U => "i32.atomic.store16_u"@,
        Opcode::I64AtomicStore8U => "i64.atomic.store8_u"@,
        Opcode::I64AtomicStore16U => "i64.atomic.store16_u"@,
        Opcode::I64AtomicStore32U => "i64.atomic.store32_u"@,
        Opcode::I32AtomicRmwAdd => "i32.atomic.rmw.add"@,
        Opcode::I64AtomicRmwAdd => "i64.atomic.rmw.add"@,
        Opcode::I32AtomicRmw8AddU => "i32.atomic.rmw8.add_u"@,
        Opcode::I32AtomicRmw16AddU => "i32.atomic.rmw16.add_u"@,
        Opcode::I64AtomicRmw8AddU => "i64.atomic.rmw8.add_u"@,
        Opcode::I64AtomicRmw16AddU => "i64.atomic.rmw16.add_u"@,
        Opcode::I64AtomicRmw32AddU => "i64.atomic.rmw32.add_u"@,
        Opcode::I32AtomicRmwSub => "i32.atomic.rmw.sub"@,
        Opcode::I64AtomicRmwSub => "i64.atomic.rmw.sub"@,
        Opcode::I32AtomicRmw8SubU => "i32.atomic.rmw8.sub_u"@,
        Opcode::I32AtomicRmw16SubU => "i32.atomic.rmw16.sub_u"@,
        Opcode::I64AtomicRmw8SubU => "i64.atomic.rmw8.sub_u"@,
        Opcode::I64AtomicRmw16SubU => "i64.atomic.rmw16.sub_u"@,
        Opcode::I64AtomicRmw32SubU => "i64.atomic.rmw32.sub_u"@,
        Opcode::I32AtomicRmwAnd => "i32.atomic.rmw.and"@,
        Opcode::I64AtomicRmwAnd => "i64.atomic.rmw.and"@,
        Opcode::I32AtomicRmw8AndU => "i32.atomic.rmw8.and_u"@,
        Opcode::I32AtomicRmw16AndU => "i32.atomic.rmw16.and_u"@,
        Opcode::I64AtomicRmw8AndU => "i64.atomic.rmw8.and_u"@,
        Opcode::I64AtomicRmw16AndU => "i64.atomic.rmw16.and_u"@,
        Opcode::I64AtomicRmw32AndU => "i64.atomic.rmw32.and_u"@,
        Opcode::I32AtomicRmwOr => "i32.atomic.rmw.or"@,
        Opcode::I64AtomicRmwOr => "i64.atomic.rmw.or"@,
        Opcode::I32AtomicRmw8OrU => "i32.atomic.rmw8.or_u"@,
        Opcode::I32AtomicRmw16OrU => "i32.atomic.rmw16.or_u"@,
        Opcode::I64AtomicRmw8OrU => "i64.atomic.rmw8.or_u"@,
        Opcode::I64AtomicRmw16OrU => "i64.atomic.rmw16.or_u"@,
        Opcode::I64AtomicRmw32OrU => "i64.atomic.rmw32.or_u"@,
        Opcode::I32AtomicRmwXor => "i32.atomic.rmw.xor"@,
        Opcode::I64AtomicRmwXor => "i64.atomic.rmw.xor"@,
        Opcode::I32AtomicRmw8XorU => "i32.atomic.rmw8.xor_u"@,
        Opcode::I32AtomicRmw16XorU => "i32.atomic.rmw16.xor_u"@,
        Opcode::I64AtomicRmw8XorU => "i64.atomic.rmw8.xor_u"@,
        Opcode::I64AtomicRmw16XorU => "i64.atomic.rmw16.xor_u"@,
        Opcode::I64AtomicRmw32XorU => "i64.atomic.rmw32.xor_u"@,
        Opcode::I32AtomicRmwXchg => "i32.atomic.rmw.xchg"@,
        Opcode::I64AtomicRmwXchg => "i64.atomic.rmw.xchg"@,
        Opcode::I32AtomicRmw8XchgU => "i32.atomic.rmw8.xchg_u"@,
        Opcode::I32AtomicRmw16XchgU => "i32.atomic.rmw16.xchg_u"@,
        Opcode::I64AtomicRmw8XchgU => "i64.atomic.rmw8.xchg_u"@,
        Opcode::I64AtomicRmw16XchgU => "i64.atomic.rmw16.xchg_u"@,
        Opcode::I64AtomicRmw32XchgU => "i64.atomic.rmw32.xchg_u"@,
        Opcode::I32AtomicRmwCmpxchg => "i32.atomic.rmw.cmpxchg"@,
        Opcode::I64AtomicRmwCmpxchg => "i64.atomic.rmw.cmpxchg"@,
        Opcode::I32AtomicRmw8CmpxchgU => "i32.atomic.rmw8.cmpxchg_u"@,
        Opcode::I32AtomicRmw16CmpxchgU => "i32.atomic.rmw16.cmpxchg_u"@,
        Opcode::I64AtomicRmw8CmpxchgU => "i64.atomic.rmw8.cmpxchg_u"@,
        Opcode::I64AtomicRmw16CmpxchgU => "i64.atomic.rmw16.cmpxchg_u"@,
        Opcode::I64AtomicRmw32CmpxchgU => "i64.atomic.rmw32.cmpxchg_u"@,
        Opcode::Try => "try"@,
        Opcode::Catch => "catch"@,
        Opcode::Throw => "throw"@,
        Opcode::Rethrow => "rethrow"@,
        Opcode::Delegate => "delegate"@,
        Opcode::CatchAll => "catch_all"@,
        Opcode::I8x16RelaxedSwizzle => "i8x16.relaxed_swizzle"@,
        Opcode::I32x4RelaxedTruncF32x4S => "i32x4.relaxed_trunc_f32x4_s"@,
        Opcode::I32x4RelaxedTruncF32x4U => "i32x4.relaxed_trunc_f32x4_u"@,
        Opcode::I32x4RelaxedTruncF64x2SZero => "i32x4.relaxed_trunc_f64x2_s_zero"@,
        Opcode::I32x4RelaxedTruncF64x2UZero => "i32x4.relaxed_trunc_f64x2_u_zero"@,
        Opcode::F32x4RelaxedMadd => "f32x4.relaxed_madd"@,
        Opcode::F32x4RelaxedNmadd => "f32x4.relaxed_nmadd"@,
        Opcode::F64x2RelaxedMadd => "f64x2.relaxed_madd"@,
        Opcode::F64x2RelaxedNmadd => "f64x2.relaxed_nmadd"@,
        Opcode::I8x16RelaxedLaneselect => "i8x16.relaxed_laneselect"@,
        Opcode::I16x8RelaxedLaneselect => "i16x8.relaxed_laneselect"@,
        Opcode::I32x4RelaxedLaneselect => "i32x4.relaxed_laneselect"@,
        Opcode::I64x2RelaxedLaneselect => "i64x2.relaxed_laneselect"@,
        Opcode::F32x4RelaxedMin => "f32x4.relaxed_min"@,
        Opcode::F32x4RelaxedMax => "f32x4.relaxed_max"@,
        Opcode::F64x2RelaxedMin => "f64x2.relaxed_min"@,
        Opcode::F64x2RelaxedMax => "f64x2.relaxed_max"@,
        Opcode::I16x8RelaxedQ15mulrS => "i16x8.relaxed_q15mulr_s"@,
        Opcode::I16x8RelaxedDotI8x16I7x16S => "i16x8.relaxed_dot_i8x16_i7x16_s"@,
        Opcode::I32x4RelaxedDotI8x16I7x16AddS => "i32x4.relaxed_dot_i8x16_i7x16_add_s"@,
    }
}

/// The immediate arguments that follow each opcode.
pub open spec fn spec_immediate_kind(op: Opcode) -> ImmKind {
    match op {
        Opcode::Unreachable => ImmKind::NoArgs,
        Opcode::Nop => ImmKind::NoArgs,
        Opcode::Block => ImmKind::Block,
        Opcode::Loop => ImmKind::Block,
        Opcode::If => ImmKind::Block,
        Opcode::Else => ImmKind::NoArgs,
        Opcode::End => ImmKind::NoArgs,
        Opcode::Br => ImmKind::Label,
        Opcode::BrIf => ImmKind::Label,
        Opcode::BrTable => ImmKind::BrTable,
        Opcode::Return => ImmKind::NoArgs,
        Opcode::Call => ImmKind::Func,
        Opcode::CallIndirect => ImmKind::CallIndirect,
        Opcode::Drop => ImmKind::NoArgs,
        Opcode::Select => ImmKind::NoArgs,
        Opcode::SelectTyped => ImmKind::SelectTyped,
        Opcode::LocalGet => ImmKind::Local,
        Opcode::LocalSet => ImmKind::Local,
        Opcode::LocalTee => ImmKind::Local,
        Opcode::GlobalGet => ImmKind::Global,
        Opcode::GlobalSet => ImmKind::Global,
        Opcode::I32Load => ImmKind::Mem,
        Opcode::I64Load => ImmKind::Mem,
        Opcode::F32Load => ImmKind::Mem,
        Opcode::F64Load => ImmKind::Mem,
        Opcode::I32Load8S => ImmKind::Mem,
        Opcode::I32Load8U => ImmKind::Mem,
        Opcode::I32Load16S => ImmKind::Mem,
        Opcode::I32Load16U => ImmKind::Mem,
        Opcode::I64Load8S => ImmKind::Mem,
        Opcode::I64Load8U => ImmKind::Mem,
        Opcode::I64Load16S => ImmKind::Mem,
        Opcode::I64Load16U => ImmKind::Mem,
        Opcode::I64Load32S => ImmKind::Mem,
        Opcode::I64Load32U => ImmKind::Mem,
        Opcode::I32Store => ImmKind::Mem,
        Opcode::I64Store => ImmKind::Mem,
        Opcode::F32Store => ImmKind::Mem,
        Opcode::F64Store => ImmKind::Mem,
        Opcode::I32Store8 => ImmKind::Mem,
        Opcode::I32Store16 => ImmKind::Mem,
        Opcode::I64Store8 => ImmKind::Mem,
        Opcode::I64Store16 => ImmKind::Mem,
        Opcode::I64Store32 => ImmKind::Mem,
        Opcode::MemorySize => ImmKind::Memory,
        Opcode::MemoryGrow => ImmKind::Memory,
        Opcode::I32Const => ImmKind::I32,
        Opcode::I64Const => ImmKind::I64,
        Opcode::F32Const => ImmKind::F32,
        Opcode::F64Const => ImmKind::F64,
        Opcode::I32Eqz => ImmKind::NoArgs,
        Opcode::I32Eq => ImmKind::NoArgs,
        Opcode::I32Ne => ImmKind::NoArgs,
        Opcode::I32LtS => ImmKind::NoArgs,
        Opcode::I32LtU => ImmKind::NoArgs,
        Opcode::I32GtS => ImmKind::NoArgs,
        Opcode::I32GtU => ImmKind::NoArgs,
        Opcode::I32LeS => ImmKind::NoArgs,
        Opcode::I32LeU => ImmKind::NoArgs,
        Opcode::I32GeS => ImmKind::NoArgs,
        Opcode::I32GeU => ImmKind::NoArgs,
        Opcode::I64Eqz => ImmKind::NoArgs,
        Opcode::I64Eq => ImmKind::NoArgs,
        Opcode::I64Ne => ImmKind::NoArgs,
        Opcode::I64LtS => ImmKind::NoArgs,
        Opcode::I64LtU => ImmKind::NoArgs,
        Opcode::I64GtS => ImmKind::NoArgs,
        Opcode::I64GtU => ImmKind::NoArgs,
        Opcode::I64LeS => ImmKind::NoArgs,
        Opcode::I64LeU => ImmKind::NoArgs,
        Opcode::I64GeS => ImmKind::NoArgs,
        Opcode::I64GeU => ImmKind::NoArgs,
        Opcode::F32Eq => ImmKind::NoArgs,
        Opcode::F32Ne => ImmKind::NoArgs,
        Opcode::F32Lt => ImmKind::NoArgs,
        Opcode::F32Gt => ImmKind::NoArgs,
        Opcode::F32Le => ImmKind::NoArgs,
        Opcode::F32Ge => ImmKind::NoArgs,
        Opcode::F64Eq => ImmKind::NoArgs,
        Opcode::F64Ne => ImmKind::NoArgs,
        Opcode::F64Lt => ImmKind::NoArgs,
        Opcode::F64Gt => ImmKind::NoArgs,
        Opcode::F64Le => ImmKind::NoArgs,
        Opcode::F64Ge => ImmKind::NoArgs,
        Opcode::I32Clz => ImmKind::NoArgs,
        Opcode::I32Ctz => ImmKind::NoArgs,
        Opcode::I32Popcnt => ImmKind::NoArgs,
        Opcode::I32Add => ImmKind::NoArgs,
        Opcode::I32Sub => ImmKind::NoArgs,
        Opcode::I32Mul => ImmKind::NoArgs,
        Opcode::I32DivS => ImmKind::NoArgs,
        Opcode::I32DivU => ImmKind::NoArgs,
        Opcode::I32RemS => ImmKind::NoArgs,
        Opcode::I32RemU => ImmKind::NoArgs,
        Opcode::I32And => ImmKind::NoArgs,
        Opcode::I32Or => ImmKind::NoArgs,
        Opcode::I32Xor => ImmKind::NoArgs,
        Opcode::I32Shl => ImmKind::NoArgs,
        Opcode::I32ShrS => ImmKind::NoArgs,
        Opcode::I32ShrU => ImmKind::NoArgs,
        Opcode::I32Rotl => ImmKind::NoArgs,
        Opcode::I32Rotr => ImmKind::NoArgs,
        Opcode::I64Clz => ImmKind::NoArgs,
        Opcode::I64Ctz => ImmKind::NoArgs,
        Opcode::I64Popcnt => ImmKind::NoArgs,
        Opcode::I64Add => ImmKind::NoArgs,
        Opcode::I64Sub => ImmKind::NoArgs,
        Opcode::I64Mul => ImmKind::NoArgs,
        Opcode::I64DivS => ImmKind::NoArgs,
        Opcode::I64DivU => ImmKind::NoArgs,
        Opcode::I64RemS => ImmKind::NoArgs,
        Opcode::I64RemU => ImmKind::NoArgs,
        Opcode::I64And => ImmKind::NoArgs,
        Opcode::I64Or => ImmKind::NoArgs,
        Opcode::I64Xor => ImmKind::NoArgs,
        Opcode::I64Shl => ImmKind::NoArgs,
        Opcode::I64ShrS => ImmKind::NoArgs,
        Opcode::I64ShrU => ImmKind::NoArgs,
        Opcode::I64Rotl => ImmKind::NoArgs,
        Opcode::I64Rotr => ImmKind::NoArgs,
        Opcode::F32Abs => ImmKind::NoArgs,
        Opcode::F32Neg => ImmKind::NoArgs,
        Opcode::F32Ceil => ImmKind::NoArgs,
        Opcode::F32Floor => ImmKind::NoArgs,
        Opcode::F32Trunc => ImmKind::NoArgs,
        Opcode::F32Nearest => ImmKind::NoArgs,
        Opcode::F32Sqrt => ImmKind::NoArgs,
        Opcode::F32Add => ImmKind::NoArgs,
        Opcode::F32Sub => ImmKind::NoArgs,
        Opcode::F32Mul => ImmKind::NoArgs,
        Opcode::F32Div => ImmKind::NoArgs,
        Opcode::F32Min => ImmKind::NoArgs,
        Opcode::F32Max => ImmKind::NoArgs,
        Opcode::F32Copysign => ImmKind::NoArgs,
        Opcode::F64Abs => ImmKind::NoArgs,
        Opcode::F64Neg => ImmKind::NoArgs,
        Opcode::F64Ceil => ImmKind::NoArgs,
        Opcode::F64Floor => ImmKind::NoArgs,
        Opcode::F64Trunc => ImmKind::NoArgs,
        Opcode::F64Nearest => ImmKind::NoArgs,
        Opcode::F64Sqrt => ImmKind::NoArgs,
        Opcode::F64Add => ImmKind::NoArgs,
        Opcode::F64Sub => ImmKind::NoArgs,
        Opcode::F64Mul => ImmKind::NoArgs,
        Opcode::F64Div => ImmKind::NoArgs,
        Opcode::F64Min => ImmKind::NoArgs,
        Opcode::F64Max => ImmKind::NoArgs,
        Opcode::F64Copysign => ImmKind::NoArgs,
        Opcode::I32WrapI64 => ImmKind::NoArgs,
        Opcode::I32TruncF32S => ImmKind::NoArgs,
        Opcode::I32TruncF32U => ImmKind::NoArgs,
        Opcode::I32TruncF64S => ImmKind::NoArgs,
        Opcode::I32TruncF64U => ImmKind::NoArgs,
        Opcode::I64ExtendI32S => ImmKind::NoArgs,
        Opcode::I64ExtendI32U => ImmKind::NoArgs,
        Opcode::I64TruncF32S => ImmKind::NoArgs,
        Opcode::I64TruncF32U => ImmKind::NoArgs,
        Opcode::I64TruncF64S => ImmKind::NoArgs,
        Opcode::I64TruncF64U => ImmKind::NoArgs,
        Opcode::F32ConvertI32S => ImmKind::NoArgs,
        Opcode::F32ConvertI32U => ImmKind::NoArgs,
        Opcode::F32ConvertI64S => ImmKind::NoArgs,
        Opcode::F32ConvertI64U => ImmKind::NoArgs,
        Opcode::F32DemoteF64 => ImmKind::NoArgs,
        Opcode::F64ConvertI32S => ImmKind::NoArgs,
        Opcode::F64ConvertI32U => ImmKind::NoArgs,
        Opcode::F64ConvertI64S => ImmKind::NoArgs,
        Opcode::F64ConvertI64U => ImmKind::NoArgs,
        Opcode::F64PromoteF32 => ImmKind::NoArgs,
        Opcode::I32ReinterpretF32 => ImmKind::NoArgs,
        Opcode::I64ReinterpretF64 => ImmKind::NoArgs,
        Opcode::F32ReinterpretI32 => ImmKind::NoArgs,
        Opcode::F64ReinterpretI64 => ImmKind::NoArgs,
        Opcode::I32TruncSatF32S => ImmKind::NoArgs,
        Opcode::I32TruncSatF32U => ImmKind::NoArgs,
        Opcode::I32TruncSatF64S => ImmKind::NoArgs,
        Opcode::I32TruncSatF64U => ImmKind::NoArgs,
        Opcode::I64TruncSatF32S => ImmKind::NoArgs,
        Opcode::I64TruncSatF32U => ImmKind::NoArgs,
        Opcode::I64TruncSatF64S => ImmKind::NoArgs,
        Opcode::I64TruncSatF64U => ImmKind::NoArgs,
        Opcode::I32Extend8S => ImmKind::NoArgs,
        Opcode::I32Extend16S => ImmKind::NoArgs,
        Opcode::I64Extend8S => ImmKind::NoArgs,
        Opcode::I64Extend16S => ImmKind::NoArgs,
        Opcode::I64Extend32S => ImmKind::NoArgs,
        Opcode::MemoryCopy => ImmKind::MemoryCopy,
        Opcode::MemoryFill => ImmKind::Memory,
        Opcode::MemoryInit => ImmKind::MemoryInit,
        Opcode::DataDrop => ImmKind::Data,
        Opcode::TableCopy => ImmKind::TableCopy,
        Opcode::TableInit => ImmKind::TableInit,
        Opcode::ElemDrop => ImmKind::Elem,
        Opcode::RefNull => ImmKind::RefType,
        Opcode::RefIsNull => ImmKind::NoArgs,
        Opcode::RefFunc => ImmKind::Func,
        Opcode::TableGet => ImmKind::Table,
        Opcode::TableSet => ImmKind::Table,
        Opcode::TableSize => ImmKind::Table,
        Opcode::TableGrow => ImmKind::Table,
        Opcode::TableFill => ImmKind::Table,
        Opcode::V128Load => ImmKind::Mem,
        Opcode::V128Load8x8S => ImmKind::Mem,
        Opcode::V128Load8x8U => ImmKind::Mem,
        Opcode::V128Load16x4S => ImmKind::Mem,
        Opcode::V128Load16x4U => ImmKind::Mem,
        Opcode::V128Load32x2S => ImmKind::Mem,
        Opcode::V128Load32x2U => ImmKind::Mem,
        Opcode::V128Load8Splat => ImmKind::Mem,
        Opcode::V128Load16Splat => ImmKind::Mem,
        Opcode::V128Load32Splat => ImmKind::Mem,
        Opcode::V128Load64Splat => ImmKind::Mem,
        Opcode::V128Load32Zero => ImmKind::Mem,
        Opcode::V128Load64Zero => ImmKind::Mem,
        Opcode::V128Store => ImmKind::Mem,
        Opcode::V128Load8Lane => ImmKind::MemLane,
        Opcode::V128Load16Lane => ImmKind::MemLane,
        Opcode::V128Load32Lane => ImmKind::MemLane,
        Opcode::V128Load64Lane => ImmKind::MemLane,
        Opcode::V128Store8Lane => ImmKind::MemLane,
        Opcode::V128Store16Lane => ImmKind::MemLane,
        Opcode::V128Store32Lane => ImmKind::MemLane,
        Opcode::V128Store64Lane => ImmKind::MemLane,
        Opcode::V128Const => ImmKind::V128,
        Opcode::I8x16Shuffle => ImmKind::Shuffle,
        Opcode::I8x16Swizzle => ImmKind::NoArgs,
        Opcode::I8x16Splat => ImmKind::NoArgs,
        Opcode::I16x8Splat => ImmKind::NoArgs,
        Opcode::I32x4Splat => ImmKind::NoArgs,
        Opcode::I64x2Splat => ImmKind::NoArgs,
        Opcode::F32x4Splat => ImmKind::NoArgs,
        Opcode::F64x2Splat => ImmKind::NoArgs,
        Opcode::I8x16ExtractLaneS => ImmKind::Lane,
        Opcode::I8x16ExtractLaneU => ImmKind::Lane,
        Opcode::I8x16ReplaceLane => ImmKind::Lane,
        Opcode::I16x8ExtractLaneS => ImmKind::Lane,
        Opcode::I16x8ExtractLaneU => ImmKind::Lane,
        Opcode::I16x8ReplaceLane => ImmKind::Lane,
        Opcode::I32x4ExtractLane => ImmKind::Lane,
        Opcode::I32x4ReplaceLane => ImmKind::Lane,
        Opcode::I64x2ExtractLane => ImmKind::Lane,
        Opcode::I64x2ReplaceLane => ImmKind::Lane,
        Opcode::F32x4ExtractLane => ImmKind::Lane,
        Opcode::F32x4ReplaceLane => ImmKind::Lane,
        Opcode::F64x2ExtractLane => ImmKind::Lane,
        Opcode::F64x2ReplaceLane => ImmKind::Lane,
        Opcode::I8x16Eq => ImmKind::NoArgs,
        Opcode::I8x16Ne => ImmKind::NoArgs,
        Opcode::I8x16LtS => ImmKind::NoArgs,
        Opcode::I8x16LtU => ImmKind::NoArgs,
        Opcode::I8x16GtS => ImmKind::NoArgs,
        Opcode::I8x16GtU => ImmKind::NoArgs,
        Opcode::I8x16LeS => ImmKind::NoArgs,
        Opcode::I8x16LeU => ImmKind::NoArgs,
        Opcode::I8x16GeS => ImmKind::NoArgs,
        Opcode::I8x16GeU => ImmKind::NoArgs,
        Opcode::I16x8Eq => ImmKind::NoArgs,
        Opcode::I16x8Ne => ImmKind::NoArgs,
        Opcode::I16x8LtS => ImmKind::NoArgs,
        Opcode::I16x8LtU => ImmKind::NoArgs,
        Opcode::I16x8GtS => ImmKind::NoArgs,
        Opcode::I16x8GtU => ImmKind::NoArgs,
        Opcode::I16x8LeS => ImmKind::NoArgs,
        Opcode::I16x8LeU => ImmKind::NoArgs,
        Opcode::I16x8GeS => ImmKind::NoArgs,
        Opcode::I16x8GeU => ImmKind::NoArgs,
        Opcode::I32x4Eq => ImmKind::NoArgs,
        Opcode::I32x4Ne => ImmKind::NoArgs,
        Opcode::I32x4LtS => ImmKind::NoArgs,
        Opcode::I32x4LtU => ImmKind::NoArgs,
        Opcode::I32x4GtS => ImmKind::NoArgs,
        Opcode::I32x4GtU => ImmKind::NoArgs,
        Opcode::I32x4LeS => ImmKind::NoArgs,
        Opcode::I32x4LeU => ImmKind::NoArgs,
        Opcode::I32x4GeS => ImmKind::NoArgs,
        Opcode::I32x4GeU => ImmKind::NoArgs,
        Opcode::F32x4Eq => ImmKind::NoArgs,
        Opcode::F32x4Ne => ImmKind::NoArgs,
        Opcode::F32x4Lt => ImmKind::NoArgs,
        Opcode::F32x4Gt => ImmKind::NoArgs,
        Opcode::F32x4Le => ImmKind::NoArgs,
        Opcode::F32x4Ge => ImmKind::NoArgs,
        Opcode::F64x2Eq => ImmKind::NoArgs,
        Opcode::F64x2Ne => ImmKind::NoArgs,
        Opcode::F64x2Lt => ImmKind::NoArgs,
        Opcode::F64x2Gt => ImmKind::NoArgs,
        Opcode::F64x2Le => ImmKind::NoArgs,
        Opcode::F64x2Ge => ImmKind::NoArgs,
        Opcode::V128Not => ImmKind::NoArgs,
        Opcode::V128And => ImmKind::NoArgs,
        Opcode::V128AndNot => ImmKind::NoArgs,
        Opcode::V128Or => ImmKind::NoArgs,
        Opcode::V128Xor => ImmKind::NoArgs,
        Opcode::V128Bitselect => ImmKind::NoArgs,
        Opcode::V128AnyTrue => ImmKind::NoArgs,
        Opcode::F32x4DemoteF64x2Zero => ImmKind::NoArgs,
        Opcode::F64x2PromoteLowF32x4 => ImmKind::NoArgs,
        Opcode::I8x16Abs => ImmKind::NoArgs,
        Opcode::I8x16Neg => ImmKind::NoArgs,
        Opcode::I8x16Popcnt => ImmKind::NoArgs,
        Opcode::I8x16AllTrue => ImmKind::NoArgs,
        Opcode::I8x16Bitmask => ImmKind::NoArgs,
        Opcode::I8x16NarrowI16x8S => ImmKind::NoArgs,
        Opcode::I8x16NarrowI16x8U => ImmKind::NoArgs,
        Opcode::F32x4Ceil => ImmKind::NoArgs,
        Opcode::F32x4Floor => ImmKind::NoArgs,
        Opcode::F32x4Trunc => ImmKind::NoArgs,
        Opcode::F32x4Nearest => ImmKind::NoArgs,
        Opcode::I8x16Shl => ImmKind::NoArgs,
        Opcode::I8x16ShrS => ImmKind::NoArgs,
        Opcode::I8x16ShrU => ImmKind::NoArgs,
        Opcode::I8x16Add => ImmKind::NoArgs,
        Opcode::I8x16AddSatS => ImmKind::NoArgs,
        Opcode::I8x16AddSatU => ImmKind::NoArgs,
        Opcode::I8x16Sub => ImmKind::NoArgs,
        Opcode::I8x16SubSatS => ImmKind::NoArgs,
        Opcode::I8x16SubSatU => ImmKind::NoArgs,
        Opcode::F64x2Ceil => ImmKind::NoArgs,
        Opcode::F64x2Floor => ImmKind::NoArgs,
        Opcode::I8x16MinS => ImmKind::NoArgs,
        Opcode::I8x16MinU => ImmKind::NoArgs,
        Opcode::I8x16MaxS => ImmKind::NoArgs,
        Opcode::I8x16MaxU => ImmKind::NoArgs,
        Opcode::F64x2Trunc => ImmKind::NoArgs,
        Opcode::I8x16AvgrU => ImmKind::NoArgs,
        Opcode::I16x8ExtaddPairwiseI8x16S => ImmKind::NoArgs,
        Opcode::I16x8ExtaddPairwiseI8x16U => ImmKind::NoArgs,
        Opcode::I32x4ExtaddPairwiseI16x8S => ImmKind::NoArgs,
        Opcode::I32x4ExtaddPairwiseI16x8U => ImmKind::NoArgs,
        Opcode::I16x8Abs => ImmKind::NoArgs,
        Opcode::I16x8Neg => ImmKind::NoArgs,
        Opcode::I16x8Q15mulrSatS => ImmKind::NoArgs,
        Opcode::I16x8AllTrue => ImmKind::NoArgs,
        Opcode::I16x8Bitmask => ImmKind::NoArgs,
        Opcode::I16x8NarrowI32x4S => ImmKind::NoArgs,
        Opcode::I16x8NarrowI32x4U => ImmKind::NoArgs,
        Opcode::I16x8ExtendLowI8x16S => ImmKind::NoArgs,
        Opcode::I16x8ExtendHighI8x16S => ImmKind::NoArgs,
        Opcode::I16x8ExtendLowI8x16U => ImmKind::NoArgs,
        Opcode::I16x8ExtendHighI8x16U => ImmKind::NoArgs,
        Opcode::I16x8Shl => ImmKind::NoArgs,
        Opcode::I16x8ShrS => ImmKind::NoArgs,
        Opcode::I16x8ShrU => ImmKind::NoArgs,
        Opcode::I16x8Add => ImmKind::NoArgs,
        Opcode::I16x8AddSatS => ImmKind::NoArgs,
        Opcode::I16x8AddSatU => ImmKind::NoArgs,
        Opcode::I16x8Sub => ImmKind::NoArgs,
        Opcode::I16x8SubSatS => ImmKind::NoArgs,
        Opcode::I16x8SubSatU => ImmKind::NoArgs,
        Opcode::F64x2Nearest => ImmKind::NoArgs,
        Opcode::I16x8Mul => ImmKind::NoArgs,
        Opcode::I16x8MinS => ImmKind::NoArgs,
        Opcode::I16x8MinU => ImmKind::NoArgs,
        Opcode::I16x8MaxS => ImmKind::NoArgs,
        Opcode::I16x8MaxU => ImmKind::NoArgs,
        Opcode::I16x8AvgrU => ImmKind::NoArgs,
        Opcode::I16x8ExtmulLowI8x16S => ImmKind::NoArgs,
        Opcode::I16x8ExtmulHighI8x16S => ImmKind::NoArgs,
        Opcode::I16x8ExtmulLowI8x16U => ImmKind::NoArgs,
        Opcode::I16x8ExtmulHighI8x16U => ImmKind::NoArgs,
        Opcode::I32x4Abs => ImmKind::NoArgs,
        Opcode::I32x4Neg => ImmKind::NoArgs,
        Opcode::I32x4AllTrue => ImmKind::NoArgs,
        Opcode::I32x4Bitmask => ImmKind::NoArgs,
        Opcode::I32x4ExtendLowI16x8S => ImmKind::NoArgs,
        Opcode::I32x4ExtendHighI16x8S => ImmKind::NoArgs,
        Opcode::I32x4ExtendLowI16x8U => ImmKind::NoArgs,
        Opcode::I32x4ExtendHighI16x8U => ImmKind::NoArgs,
        Opcode::I32x4Shl => ImmKind::NoArgs,
        Opcode::I32x4ShrS => ImmKind::NoArgs,
        Opcode::I32x4ShrU => ImmKind::NoArgs,
        Opcode::I32x4Add => ImmKind::NoArgs,
        Opcode::I32x4Sub => ImmKind::NoArgs,
        Opcode::I32x4Mul => ImmKind::NoArgs,
        Opcode::I32x4MinS => ImmKind::NoArgs,
        Opcode::I32x4MinU => ImmKind::NoArgs,
        Opcode::I32x4MaxS => ImmKind::NoArgs,
        Opcode::I32x4MaxU => ImmKind::NoArgs,
        Opcode::I32x4DotI16x8S => ImmKind::NoArgs,
        Opcode::I32x4ExtmulLowI16x8S => ImmKind::NoArgs,
        Opcode::I32x4ExtmulHighI16x8S => ImmKind::NoArgs,
        Opcode::I32x4ExtmulLowI16x8U => ImmKind::NoArgs,
        Opcode::I32x4ExtmulHighI16x8U => ImmKind::NoArgs,
        Opcode::I64x2Abs => ImmKind::NoArgs,
        Opcode::I64x2Neg => ImmKind::NoArgs,
        Opcode::I64x2AllTrue => ImmKind::NoArgs,
        Opcode::I64x2Bitmask => ImmKind::NoArgs,
        Opcode::I64x2ExtendLowI32x4S => ImmKind::NoArgs,
        Opcode::I64x2ExtendHighI32x4S => ImmKind::NoArgs,
        Opcode::I64x2ExtendLowI32x4U => ImmKind::NoArgs,
        Opcode::I64x2ExtendHighI32x4U => ImmKind::NoArgs,
        Opcode::I64x2Shl => ImmKind::NoArgs,
        Opcode::I64x2ShrS => ImmKind::NoArgs,
        Opcode::I64x2ShrU => ImmKind::NoArgs,
        Opcode::I64x2Add => ImmKind::NoArgs,
        Opcode::I64x2Sub => ImmKind::NoArgs,
        Opcode::I64x2Mul => ImmKind::NoArgs,
        Opcode::I64x2Eq => ImmKind::NoArgs,
        Opcode::I64x2Ne => ImmKind::NoArgs,
        Opcode::I64x2LtS => ImmKind::NoArgs,
        Opcode::I64x2GtS => ImmKind::NoArgs,
        Opcode::I64x2LeS => ImmKind::NoArgs,
        Opcode::I64x2GeS => ImmKind::NoArgs,
        Opcode::I64x2ExtmulLowI32x4S => ImmKind::NoArgs,
        Opcode::I64x2ExtmulHighI32x4S => ImmKind::NoArgs,
        Opcode::I64x2ExtmulLowI32x4U => ImmKind::NoArgs,
        Opcode::I64x2ExtmulHighI32x4U => ImmKind::NoArgs,
        Opcode::F32x4Abs => ImmKind::NoArgs,
        Opcode::F32x4Neg => ImmKind::NoArgs,
        Opcode::F32x4Sqrt => ImmKind::NoArgs,
        Opcode::F32x4Add => ImmKind::NoArgs,
        Opcode::F32x4Sub => ImmKind::NoArgs,
        Opcode::F32x4Mul => ImmKind::NoArgs,
        Opcode::F32x4Div => ImmKind::NoArgs,
        Opcode::F32x4Min => ImmKind::NoArgs,
        Opcode::F32x4Max => ImmKind::NoArgs,
        Opcode::F32x4Pmin => ImmKind::NoArgs,
        Opcode::F32x4Pmax => ImmKind::NoArgs,
        Opcode::F64x2Abs => ImmKind::NoArgs,
        Opcode::F64x2Neg => ImmKind::NoArgs,
        Opcode::F64x2Sqrt => ImmKind::NoArgs,
        Opcode::F64x2Add => ImmKind::NoArgs,
        Opcode::F64x2Sub => ImmKind::NoArgs,
        Opcode::F64x2Mul => ImmKind::NoArgs,
        Opcode::F64x2Div => ImmKind::NoArgs,
        Opcode::F64x2Min => ImmKind::NoArgs,
        Opcode::F64x2Max => ImmKind::NoArgs,
        Opcode::F64x2Pmin => ImmKind::NoArgs,
        Opcode::F64x2Pmax => ImmKind::NoArgs,
        Opcode::I32x4TruncSatF32x4S => ImmKind::NoArgs,
        Opcode::I32x4TruncSatF32x4U => ImmKind::NoArgs,
        Opcode::F32x4ConvertI32x4S => ImmKind::NoArgs,
        Opcode::F32x4ConvertI32x4U => ImmKind::NoArgs,
        Opcode::I32x4TruncSatF64x2SZero => ImmKind::NoArgs,
        Opcode::I32x4TruncSatF64x2UZero => ImmKind::NoArgs,
        Opcode::F64x2ConvertLowI32x4S => ImmKind::NoArgs,
        Opcode::F64x2ConvertLowI32x4U => ImmKind::NoArgs,
        Opcode::ReturnCall => ImmKind::Func,
        Opcode::ReturnCallIndirect => ImmKind::CallIndirect,
        Opcode::MemoryAtomicNotify => ImmKind::Mem,
        Opcode::MemoryAtomicWait32 => ImmKind::Mem,
        Opcode::MemoryAtomicWait64 => ImmKind::Mem,
        Opcode::I32AtomicLoad => ImmKind::Mem,
        Opcode::I64AtomicLoad => ImmKind::Mem,
        Opcode::I32AtomicLoad8U => ImmKind::Mem,
        Opcode::I32AtomicLoad16U => ImmKind::Mem,
        Opcode::I64AtomicLoad8U => ImmKind::Mem,
        Opcode::I64AtomicLoad16U => ImmKind::Mem,
        Opcode::I64AtomicLoad32U => ImmKind::Mem,
        Opcode::I32AtomicStore => ImmKind::Mem,
        Opcode::I64AtomicStore => ImmKind::Mem,
        Opcode::I32AtomicStore8U => ImmKind::Mem,
        Opcode::I32AtomicStore16U => ImmKind::Mem,
        Opcode::I64AtomicStore8U => ImmKind::Mem,
        Opcode::I64AtomicStore16U => ImmKind::Mem,
        Opcode::I64AtomicStore32U => ImmKind::Mem,
        Opcode::I32AtomicRmwAdd => ImmKind::Mem,
        Opcode::I64AtomicRmwAdd => ImmKind::Mem,
        Opcode::I32AtomicRmw8AddU => ImmKind::Mem,
        Opcode::I32AtomicRmw16AddU => ImmKind::Mem,
        Opcode::I64AtomicRmw8AddU => ImmKind::Mem,
        Opcode::I64AtomicRmw16AddU => ImmKind::Mem,
        Opcode::I64AtomicRmw32AddU => ImmKind::Mem,
        Opcode::I32AtomicRmwSub => ImmKind::Mem,
        Opcode::I64AtomicRmwSub => ImmKind::Mem,
        Opcode::I32AtomicRmw8SubU => ImmKind::Mem,
        Opcode::I32AtomicRmw16SubU => ImmKind::Mem,
        Opcode::I64AtomicRmw8SubU => ImmKind::Mem,
        Opcode::I64AtomicRmw16SubU => ImmKind::Mem,
        Opcode::I64AtomicRmw32SubU => ImmKind::Mem,
        Opcode::I32AtomicRmwAnd => ImmKind::Mem,
        Opcode::I64AtomicRmwAnd => ImmKind::Mem,
        Opcode::I32AtomicRmw8AndU => ImmKind::Mem,
        Opcode::I32AtomicRmw16AndU => ImmKind::Mem,
        Opcode::I64AtomicRmw8AndU => ImmKind::Mem,
        Opcode::I64AtomicRmw16AndU => ImmKind::Mem,
        Opcode::I64AtomicRmw32AndU => ImmKind::Mem,
        Opcode::I32AtomicRmwOr => ImmKind::Mem,
        Opcode::I64AtomicRmwOr => ImmKind::Mem,
        Opcode::I32AtomicRmw8OrU => ImmKind::Mem,
        Opcode::I32AtomicRmw16OrU => ImmKind::Mem,
        Opcode::I64AtomicRmw8OrU => ImmKind::Mem,
        Opcode::I64AtomicRmw16OrU => ImmKind::Mem,
        Opcode::I64AtomicRmw32OrU => ImmKind::Mem,
        Opcode::I32AtomicRmwXor => ImmKind::Mem,
        Opcode::I64AtomicRmwXor => ImmKind::Mem,
        Opcode::I32AtomicRmw8XorU => ImmKind::Mem,
        Opcode::I32AtomicRmw16XorU => ImmKind::Mem,
        Opcode::I64AtomicRmw8XorU => ImmKind::Mem,
        Opcode::I64AtomicRmw16XorU => ImmKind::Mem,
        Opcode::I64AtomicRmw32XorU => ImmKind::Mem,
        Opcode::I32AtomicRmwXchg => ImmKind::Mem,
        Opcode::I64AtomicRmwXchg => ImmKind::Mem,
        Opcode::I32AtomicRmw8XchgU => ImmKind::Mem,
        Opcode::I32AtomicRmw16XchgU => ImmKind::Mem,
        Opcode::I64AtomicRmw8XchgU => ImmKind::Mem,
        Opcode::I64AtomicRmw16XchgU => ImmKind::Mem,
        Opcode::I64AtomicRmw32XchgU => ImmKind::Mem,
        Opcode::I32AtomicRmwCmpxchg => ImmKind::Mem,
        Opcode::I64AtomicRmwCmpxchg => ImmKind::Mem,
        Opcode::I32AtomicRmw8CmpxchgU => ImmKind::Mem,
        Opcode::I32AtomicRmw16CmpxchgU => ImmKind::Mem,
        Opcode::I64AtomicRmw8CmpxchgU => ImmKind::Mem,
        Opcode::I64AtomicRmw16CmpxchgU => ImmKind::Mem,
        Opcode::I64AtomicRmw32CmpxchgU => ImmKind::Mem,
        Opcode::Try => ImmKind::Block,
        Opcode::Catch => ImmKind::Tag,
        Opcode::Throw => ImmKind::Tag,
        Opcode::Rethrow => ImmKind::Label,
        Opcode::Delegate => ImmKind::Label,
        Opcode::CatchAll => ImmKind::NoArgs,
        Opcode::I8x16RelaxedSwizzle => ImmKind::NoArgs,
        Opcode::I32x4RelaxedTruncF32x4S => ImmKind::NoArgs,
        Opcode::I32x4RelaxedTruncF32x4U => ImmKind::NoArgs,
        Opcode::I32x4RelaxedTruncF64x2SZero => ImmKind::NoArgs,
        Opcode::I32x4RelaxedTruncF64x2UZero => ImmKind::NoArgs,
        Opcode::F32x4RelaxedMadd => ImmKind::NoArgs,
        Opcode::F32x4RelaxedNmadd => ImmKind::NoArgs,
        Opcode::F64x2RelaxedMadd => ImmKind::NoArgs,
        Opcode::F64x2RelaxedNmadd => ImmKind::NoArgs,
        Opcode::I8x16RelaxedLaneselect => ImmKind::NoArgs,
        Opcode::I16x8RelaxedLaneselect => ImmKind::NoArgs,
        Opcode::I32x4RelaxedLaneselect => ImmKind::NoArgs,
        Opcode::I64x2RelaxedLaneselect => ImmKind::NoArgs,
        Opcode::F32x4RelaxedMin => ImmKind::NoArgs,
        Opcode::F32x4RelaxedMax => ImmKind::NoArgs,
        Opcode::F64x2RelaxedMin => ImmKind::NoArgs,
        Opcode::F64x2RelaxedMax => ImmKind::NoArgs,
        Opcode::I16x8RelaxedQ15mulrS => ImmKind::NoArgs,
        Opcode::I16x8RelaxedDotI8x16I7x16S => ImmKind::NoArgs,
        Opcode::I32x4RelaxedDotI8x16I7x16AddS => ImmKind::NoArgs,
    }
}

/// The natural alignment of the memory access made by each instruction that takes a memory
/// argument.
pub open spec fn spec_natural_align(op: Opcode) -> Option<Align> {
    match op {
        Opcode::I32Load => Some(Align::Four),
        Opcode::I64Load => Some(Align::Eight),
        Opcode::F32Load => Some(Align::Four),
        Opcode::F64Load => Some(Align::Eight),
        Opcode::I32Load8S => Some(Align::Any),
        Opcode::I32Load8U => Some(Align::Any),
        Opcode::I32Load16S => Some(Align::Two),
        Opcode::I32Load16U => Some(Align::Two),
        Opcode::I64Load8S => Some(Align::Any),
        Opcode::I64Load8U => Some(Align::Any),
        Opcode::I64Load16S => Some(Align::Two),
        Opcode::I64Load16U => Some(Align::Two),
        Opcode::I64Load32S => Some(Align::Four),
        Opcode::I64Load32U => Some(Align::Four),
        Opcode::I32Store => Some(Align::Four),
        Opcode::I64Store => Some(Align::Eight),
        Opcode::F32Store => Some(Align::Four),
        Opcode::F64Store => Some(Align::Eight),
        Opcode::I32Store8 => Some(Align::Any),
        Opcode::I32Store16 => Some(Align::Two),
        Opcode::I64Store8 => Some(Align::Any),
        Opcode::I64Store16 => Some(Align::Two),
        Opcode::I64Store32 => Some(Align::Four),
        Opcode::V128Load => Some(Align::Sixteen),
        Opcode::V128Load8x8S => Some(Align::Eight),
        Opcode::V128Load8x8U => Some(Align::Eight),
        Opcode::V128Load16x4S => Some(Align::Eight),
        Opcode::V128Load16x4U => Some(Align::Eight),
        Opcode::V128Load32x2S => Some(Align::Eight),
        Opcode::V128Load32x2U => Some(Align::Eight),
        Opcode::V128Load8Splat => Some(Align::Any),
        Opcode::V128Load16Splat => Some(Align::Two),
        Opcode::V128Load32Splat => Some(Align::Four),
        Opcode::V128Load64Splat => Some(Align::Eight),
        Opcode::V128Load32Zero => Some(Align::Four),
        Opcode::V128Load64Zero => Some(Align::Eight),
        Opcode::V128Store => Some(Align::Sixteen),
        Opcode::V128Load8Lane => Some(Align::Any),
        Opcode::V128Load16Lane => Some(Align::Two),
        Opcode::V128Load32Lane => Some(Align::Four),
        Opcode::V128Load64Lane => Some(Align::Eight),
        Opcode::V128Store8Lane => Some(Align::Any),
        Opcode::V128Store16Lane => Some(Align::Two),
        Opcode::V128Store32Lane => Some(Align::Four),
        Opcode::V128Store64Lane => Some(Align::Eight),
        Opcode::MemoryAtomicNotify => Some(Align::Four),
        Opcode::MemoryAtomicWait32 => Some(Align::Four),
        Opcode::MemoryAtomicWait64 => Some(Align::Eight),
        Opcode::I32AtomicLoad => Some(Align::Four),
        Opcode::I64AtomicLoad => Some(Align::Eight),
        Opcode::I32AtomicLoad8U => Some(Align::Any),
        Opcode::I32AtomicLoad16U => Some(Align::Two),
        Opcode::I64AtomicLoad8U => Some(Align::Any),
        Opcode::I64AtomicLoad16U => Some(Align::Two),
        Opcode::I64AtomicLoad32U => Some(Align::Four),
        Opcode::I32AtomicStore => Some(Align::Four),
        Opcode::I64AtomicStore => Some(Align::Eight),
        Opcode::I32AtomicStore8U => Some(Align::Any),
        Opcode::I32AtomicStore16U => Some(Align::Two),
        Opcode::I64AtomicStore8U => Some(Align::Any),
        Opcode::I64AtomicStore16U => Some(Align::Two),
        Opcode::I64AtomicStore32U => Some(Align::Four),
        Opcode::I32AtomicRmwAdd => Some(Align::Four),
        Opcode::I64AtomicRmwAdd => Some(Align::Eight),
        Opcode::I32AtomicRmw8AddU => Some(Align::Any),
        Opcode::I32AtomicRmw16AddU => Some(Align::Two),
        Opcode::I64AtomicRmw8AddU => Some(Align::Any),
        Opcode::I64AtomicRmw16AddU => Some(Align::Two),
        Opcode::I64AtomicRmw32AddU => Some(Align::Four),
        Opcode::I32AtomicRmwSub => Some(Align::Four),
        Opcode::I64AtomicRmwSub => Some(Align::Eight),
        Opcode::I32AtomicRmw8SubU => Some(Align::Any),
        Opcode::I32AtomicRmw16SubU => Some(Align::Two),
        Opcode::I64AtomicRmw8SubU => Some(Align::Any),
        Opcode::I64AtomicRmw16SubU => Some(Align::Two),
        Opcode::I64AtomicRmw32SubU => Some(Align::Four),
        Opcode::I32AtomicRmwAnd => Some(Align::Four),
        Opcode::I64AtomicRmwAnd => Some(Align::Eight),
        Opcode::I32AtomicRmw8AndU => Some(Align::Any),
        Opcode::I32AtomicRmw16AndU => Some(Align::Two),
        Opcode::I64AtomicRmw8AndU => Some(Align::Any),
        Opcode::I64AtomicRmw16AndU => Some(Align::Two),
        Opcode::I64AtomicRmw32AndU => Some(Align::Four),
        Opcode::I32AtomicRmwOr => Some(Align::Four),
        Opcode::I64AtomicRmwOr => Some(Align::Eight),
        Opcode::I32AtomicRmw8OrU => Some(Align::Any),
        Opcode::I32AtomicRmw16OrU => Some(Align::Two),
        Opcode::I64AtomicRmw8OrU => Some(Align::Any),
        Opcode::I64AtomicRmw16OrU => Some(Align::Two),
        Opcode::I64AtomicRmw32OrU => Some(Align::Four),
        Opcode::I32AtomicRmwXor => Some(Align::Four),
        Opcode::I64AtomicRmwXor => Some(Align::Eight),
        Opcode::I32AtomicRmw8XorU => Some(Align::Any),
        Opcode::I32AtomicRmw16XorU => Some(Align::Two),
        Opcode::I64AtomicRmw8XorU => Some(Align::Any),
        Opcode::I64AtomicRmw16XorU => Some(Align::Two),
        Opcode::I64AtomicRmw32XorU => Some(Align::Four),
        Opcode::I32AtomicRmwXchg => Some(Align::Four),
        Opcode::I64AtomicRmwXchg => Some(Align::Eight),
        Opcode::I32AtomicRmw8XchgU => Some(Align::Any),
        Opcode::I32AtomicRmw16XchgU => Some(Align::Two),
        Opcode::I64AtomicRmw8XchgU => Some(Align::Any),
        Opcode::I64AtomicRmw16XchgU => Some(Align::Two),
        Opcode::I64AtomicRmw32XchgU => Some(Align::Four),
        Opcode::I32AtomicRmwCmpxchg => Some(Align::Four),
        Opcode::I64AtomicRmwCmpxchg => Some(Align::Eight),
        Opcode::I32AtomicRmw8CmpxchgU => Some(Align::Any),
        Opcode::I32AtomicRmw16CmpxchgU => Some(Align::Two),
        Opcode::I64AtomicRmw8CmpxchgU => Some(Align::Any),
        Opcode::I64AtomicRmw16CmpxchgU => Some(Align::Two),
        Opcode::I64AtomicRmw32CmpxchgU => Some(Align::Four),
        _ => None,
    }
}

impl Opcode {
    /// Gets how this opcode is encoded in the binary format.
    pub fn encoding(self) -> (r: Encoding)
        ensures
            r == spec_encoding(self),
    {
        match self {
            Opcode::Unreachable => Encoding::Byte(0x00),
            Opcode::Nop => Encoding::Byte(0x01),
            Opcode::Block => Encoding::Byte(0x02),
            Opcode::Loop => Encoding::Byte(0x03),
            Opcode::If => Encoding::Byte(0x04),
            Opcode::Else => Encoding::Byte(0x05),
            Opcode::End => Encoding::Byte(0x0B),
            Opcode::Br => Encoding::Byte(0x0C),
            Opcode::BrIf => Encoding::Byte(0x0D),
            Opcode::BrTable => Encoding::Byte(0x0E),
            Opcode::Return => Encoding::Byte(0x0F),
            Opcode::Call => Encoding::Byte(0x10),
            Opcode::CallIndirect => Encoding::Byte(0x11),
            Opcode::Drop => Encoding::Byte(0x1A),
            Opcode::Select => Encoding::Byte(0x1B),
            Opcode::SelectTyped => Encoding::Byte(0x1C),
            Opcode::LocalGet => Encoding::Byte(0x20),
            Opcode::LocalSet => Encoding::Byte(0x21),
            Opcode::LocalTee => Encoding::Byte(0x22),
            Opcode::GlobalGet => Encoding::Byte(0x23),
            Opcode::GlobalSet => Encoding::Byte(0x24),
            Opcode::I32Load => Encoding::Byte(0x28),
            Opcode::I64Load => Encoding::Byte(0x29),
            Opcode::F32Load => Encoding::Byte(0x2A),
            Opcode::F64Load => Encoding::Byte(0x2B),
            Opcode::I32Load8S => Encoding::Byte(0x2C),
            Opcode::I32Load8U => Encoding::Byte(0x2D),
            Opcode::I32Load16S => Encoding::Byte(0x2E),
            Opcode::I32Load16U => Encoding::Byte(0x2F),
            Opcode::I64Load8S => Encoding::Byte(0x30),
            Opcode::I64Load8U => Encoding::Byte(0x31),
            Opcode::I64Load16S => Encoding::Byte(0x32),
            Opcode::I64Load16U => Encoding::Byte(0x33),
            Opcode::I64Load32S => Encoding::Byte(0x34),
            Opcode::I64Load32U => Encoding::Byte(0x35),
            Opcode::I32Store => Encoding::Byte(0x36),
            Opcode::I64Store => Encoding::Byte(0x37),
            Opcode::F32Store => Encoding::Byte(0x38),
            Opcode::F64Store => Encoding::Byte(0x39),
            Opcode::I32Store8 => Encoding::Byte(0x3A),
            Opcode::I32Store16 => Encoding::Byte(0x3B),
            Opcode::I64Store8 => Encoding::Byte(0x3C),
            Opcode::I64Store16 => Encoding::Byte(0x3D),
            Opcode::I64Store32 => Encoding::Byte(0x3E),
            Opcode::MemorySize => Encoding::Byte(0x3F),
            Opcode::MemoryGrow => Encoding::Byte(0x40),
            Opcode::I32Const => Encoding::Byte(0x41),
            Opcode::I64Const => Encoding::Byte(0x42),
            Opcode::F32Const => Encoding::Byte(0x43),
            Opcode::F64Const => Encoding::Byte(0x44),
            Opcode::I32Eqz => Encoding::Byte(0x45),
            Opcode::I32Eq => Encoding::Byte(0x46),
            Opcode::I32Ne => Encoding::Byte(0x47),
            Opcode::I32LtS => Encoding::Byte(0x48),
            Opcode::I32LtU => Encoding::Byte(0x49),
            Opcode::I32GtS => Encoding::Byte(0x4A),
            Opcode::I32GtU => Encoding::Byte(0x4B),
            Opcode::I32LeS => Encoding::Byte(0x4C),
            Opcode::I32LeU => Encoding::Byte(0x4D),
            Opcode::I32GeS => Encoding::Byte(0x4E),
            Opcode::I32GeU => Encoding::Byte(0x4F),
            Opcode::I64Eqz => Encoding::Byte(0x50),
            Opcode::I64Eq => Encoding::Byte(0x51),
            Opcode::I64Ne => Encoding::Byte(0x52),
            Opcode::I64LtS => Encoding::Byte(0x53),
            Opcode::I64LtU => Encoding::Byte(0x54),
            Opcode::I64GtS => Encoding::Byte(0x55),
            Opcode::I64GtU => Encoding::Byte(0x56),
            Opcode::I64LeS => Encoding::Byte(0x57),
            Opcode::I64LeU => Encoding::Byte(0x58),
            Opcode::I64GeS => Encoding::Byte(0x59),
            Opcode::I64GeU => Encoding::Byte(0x5A),
            Opcode::F32Eq => Encoding::Byte(0x5B),
            Opcode::F32Ne => Encoding::Byte(0x5C),
            Opcode::F32Lt => Encoding::Byte(0x5D),
            Opcode::F32Gt => Encoding::Byte(0x5E),
            Opcode::F32Le => Encoding::Byte(0x5F),
            Opcode::F32Ge => Encoding::Byte(0x60),
            Opcode::F64Eq => Encoding::Byte(0x61),
            Opcode::F64Ne => Encoding::Byte(0x62),
            Opcode::F64Lt => Encoding::Byte(0x63),
            Opcode::F64Gt => Encoding::Byte(0x64),
            Opcode::F64Le => Encoding::Byte(0x65),
            Opcode::F64Ge => Encoding::Byte(0x66),
            Opcode::I32Clz => Encoding::Byte(0x67),
            Opcode::I32Ctz => Encoding::Byte(0x68),
            Opcode::I32Popcnt => Encoding::Byte(0x69),
            Opcode::I32Add => Encoding::Byte(0x6A),
            Opcode::I32Sub => Encoding::Byte(0x6B),
            Opcode::I32Mul => Encoding::Byte(0x6C),
            Opcode::I32DivS => Encoding::Byte(0x6D),
            Opcode::I32DivU => Encoding::Byte(0x6E),
            Opcode::I32RemS => Encoding::Byte(0x6F),
            Opcode::I32RemU => Encoding::Byte(0x70),
            Opcode::I32And => Encoding::Byte(0x71),
            Opcode::I32Or => Encoding::Byte(0x72),
            Opcode::I32Xor => Encoding::Byte(0x73),
            Opcode::I32Shl => Encoding::Byte(0x74),
            Opcode::I32ShrS => Encoding::Byte(0x75),
            Opcode::I32ShrU => Encoding::Byte(0x76),
            Opcode::I32Rotl => Encoding::Byte(0x77),
            Opcode::I32Rotr => Encoding::Byte(0x78),
            Opcode::I64Clz => Encoding::Byte(0x79),
            Opcode::I64Ctz => Encoding::Byte(0x7A),
            Opcode::I64Popcnt => Encoding::Byte(0x7B),
            Opcode::I64Add => Encoding::Byte(0x7C),
            Opcode::I64Sub => Encoding::Byte(0x7D),
            Opcode::I64Mul => Encoding::Byte(0x7E),
            Opcode::I64DivS => Encoding::Byte(0x7F),
            Opcode::I64DivU => Encoding::Byte(0x80),
            Opcode::I64RemS => Encoding::Byte(0x81),
            Opcode::I64RemU => Encoding::Byte(0x82),
            Opcode::I64And => Encoding::Byte(0x83),
            Opcode::I64Or => Encoding::Byte(0x84),
            Opcode::I64Xor => Encoding::Byte(0x85),
            Opcode::I64Shl => Encoding::Byte(0x86),
            Opcode::I64ShrS => Encoding::Byte(0x87),
            Opcode::I64ShrU => Encoding::Byte(0x88),
            Opcode::I64Rotl => Encoding::Byte(0x89),
            Opcode::I64Rotr => Encoding::Byte(0x8A),
            Opcode::F32Abs => Encoding::Byte(0x8B),
            Opcode::F32Neg => Encoding::Byte(0x8C),
            Opcode::F32Ceil => Encoding::Byte(0x8D),
            Opcode::F32Floor => Encoding::Byte(0x8E),
            Opcode::F32Trunc => Encoding::Byte(0x8F),
            Opcode::F32Nearest => Encoding::Byte(0x90),
            Opcode::F32Sqrt => Encoding::Byte(0x91),
            Opcode::F32Add => Encoding::Byte(0x92),
            Opcode::F32Sub => Encoding::Byte(0x93),
            Opcode::F32Mul => Encoding::Byte(0x94),
            Opcode::F32Div => Encoding::Byte(0x95),
            Opcode::F32Min => Encoding::Byte(0x96),
            Opcode::F32Max => Encoding::Byte(0x97),
            Opcode::F32Copysign => Encoding::Byte(0x98),
            Opcode::F64Abs => Encoding::Byte(0x99),
            Opcode::F64Neg => Encoding::Byte(0x9A),
            Opcode::F64Ceil => Encoding::Byte(0x9B),
            Opcode::F64Floor => Encoding::Byte(0x9C),
            Opcode::F64Trunc => Encoding::Byte(0x9D),
            Opcode::F64Nearest => Encoding::Byte(0x9E),
            Opcode::F64Sqrt => Encoding::Byte(0x9F),
            Opcode::F64Add => Encoding::Byte(0xA0),
            Opcode::F64Sub => Encoding::Byte(0xA1),
            Opcode::F64Mul => Encoding::Byte(0xA2),
            Opcode::F64Div => Encoding::Byte(0xA3),
            Opcode::F64Min => Encoding::Byte(0xA4),
            Opcode::F64Max => Encoding::Byte(0xA5),
            Opcode::F64Copysign => Encoding::Byte(0xA6),
            Opcode::I32WrapI64 => Encoding::Byte(0xA7),
            Opcode::I32TruncF32S => Encoding::Byte(0xA8),
            Opcode::I32TruncF32U => Encoding::Byte(0xA9),
            Opcode::I32TruncF64S => Encoding::Byte(0xAA),
            Opcode::I32TruncF64U => Encoding::Byte(0xAB),
            Opcode::I64ExtendI32S => Encoding::Byte(0xAC),
            Opcode::I64ExtendI32U => Encoding::Byte(0xAD),
            Opcode::I64TruncF32S => Encoding::Byte(0xAE),
            Opcode::I64TruncF32U => Encoding::Byte(0xAF),
            Opcode::I64TruncF64S => Encoding::Byte(0xB0),
            Opcode::I64TruncF64U => Encoding::Byte(0xB1),
            Opcode::F32ConvertI32S => Encoding::Byte(0xB2),
            Opcode::F32ConvertI32U => Encoding::Byte(0xB3),
            Opcode::F32ConvertI64S => Encoding::Byte(0xB4),
            Opcode::F32ConvertI64U => Encoding::Byte(0xB5),
            Opcode::F32DemoteF64 => Encoding::Byte(0xB6),
            Opcode::F64ConvertI32S => Encoding::Byte(0xB7),
            Opcode::F64ConvertI32U => Encoding::Byte(0xB8),
            Opcode::F64ConvertI64S => Encoding::Byte(0xB9),
            Opcode::F64ConvertI64U => Encoding::Byte(0xBA),
            Opcode::F64PromoteF32 => Encoding::Byte(0xBB),
            Opcode::I32ReinterpretF32 => Encoding::Byte(0xBC),
            Opcode::I64ReinterpretF64 => Encoding::Byte(0xBD),
            Opcode::F32ReinterpretI32 => Encoding::Byte(0xBE),
            Opcode::F64ReinterpretI64 => Encoding::Byte(0xBF),
            Opcode::I32TruncSatF32S => Encoding::Prefixed { prefix: 0xFC, code: 0 },
            Opcode::I32TruncSatF32U => Encoding::Prefixed { prefix: 0xFC, code: 1 },
            Opcode::I32TruncSatF64S => Encoding::Prefixed { prefix: 0xFC, code: 2 },
            Opcode::I32TruncSatF64U => Encoding::Prefixed { prefix: 0xFC, code: 3 },
            Opcode::I64TruncSatF32S => Encoding::Prefixed { prefix: 0xFC, code: 4 },
            Opcode::I64TruncSatF32U => Encoding::Prefixed { prefix: 0xFC, code: 5 },
            Opcode::I64TruncSatF64S => Encoding::Prefixed { prefix: 0xFC, code: 6 },
            Opcode::I64TruncSatF64U => Encoding::Prefixed { prefix: 0xFC, code: 7 },
            Opcode::I32Extend8S => Encoding::Byte(0xC0),
            Opcode::I32Extend16S => Encoding::Byte(0xC1),
            Opcode::I64Extend8S => Encoding::Byte(0xC2),
            Opcode::I64Extend16S => Encoding::Byte(0xC3),
            Opcode::I64Extend32S => Encoding::Byte(0xC4),
            Opcode::MemoryCopy => Encoding::Prefixed { prefix: 0xFC, code: 10 },
            Opcode::MemoryFill => Encoding::Prefixed { prefix: 0xFC, code: 11 },
            Opcode::MemoryInit => Encoding::Prefixed { prefix: 0xFC, code: 8 },
            Opcode::DataDrop => Encoding::Prefixed { prefix: 0xFC, code: 9 },
            Opcode::TableCopy => Encoding::Prefixed { prefix: 0xFC, code: 14 },
            Opcode::TableInit => Encoding::Prefixed { prefix: 0xFC, code: 12 },
            Opcode::ElemDrop => Encoding::Prefixed { prefix: 0xFC, code: 13 },
            Opcode::RefNull => Encoding::Byte(0xD0),
            Opcode::RefIsNull => Encoding::Byte(0xD1),
            Opcode::RefFunc => Encoding::Byte(0xD2),
            Opcode::TableGet => Encoding::Byte(0x25),
            Opcode::TableSet => Encoding::Byte(0x26),
            Opcode::TableSize => Encoding::Prefixed { prefix: 0xFC, code: 16 },
            Opcode::TableGrow => Encoding::Prefixed { prefix: 0xFC, code: 15 },
            Opcode::TableFill => Encoding::Prefixed { prefix: 0xFC, code: 17 },
            Opcode::V128Load => Encoding::Prefixed { prefix: 0xFD, code: 0 },
            Opcode::V128Load8x8S => Encoding::Prefixed { prefix: 0xFD, code: 1 },
            Opcode::V128Load8x8U => Encoding::Prefixed { prefix: 0xFD, code: 2 },
            Opcode::V128Load16x4S => Encoding::Prefixed { prefix: 0xFD, code: 3 },
            Opcode::V128Load16x4U => Encoding::Prefixed { prefix: 0xFD, code: 4 },
            Opcode::V128Load32x2S => Encoding::Prefixed { prefix: 0xFD, code: 5 },
            Opcode::V128Load32x2U => Encoding::Prefixed { prefix: 0xFD, code: 6 },
            Opcode::V128Load8Splat => Encoding::Prefixed { prefix: 0xFD, code: 7 },
            Opcode::V128Load16Splat => Encoding::Prefixed { prefix: 0xFD, code: 8 },
            Opcode::V128Load32Splat => Encoding::Prefixed { prefix: 0xFD, code: 9 },
            Opcode::V128Load64Splat => Encoding::Prefixed { prefix: 0xFD, code: 10 },
            Opcode::V128Load32Zero => Encoding::Prefixed { prefix: 0xFD, code: 92 },
            Opcode::V128Load64Zero => Encoding::Prefixed { prefix: 0xFD, code: 93 },
            Opcode::V128Store => Encoding::Prefixed { prefix: 0xFD, code: 11 },
            Opcode::V128Load8Lane => Encoding::Prefixed { prefix: 0xFD, code: 84 },
            Opcode::V128Load16Lane => Encoding::Prefixed { prefix: 0xFD, code: 85 },
            Opcode::V128Load32Lane => Encoding::Prefixed { prefix: 0xFD, code: 86 },
            Opcode::V128Load64Lane => Encoding::Prefixed { prefix: 0xFD, code: 87 },
            Opcode::V128Store8Lane => Encoding::Prefixed { prefix: 0xFD, code: 88 },
            Opcode::V128Store16Lane => Encoding::Prefixed { prefix: 0xFD, code: 89 },
            Opcode::V128Store32Lane => Encoding::Prefixed { prefix: 0xFD, code: 90 },
            Opcode::V128Store64Lane => Encoding::Prefixed { prefix: 0xFD, code: 91 },
            Opcode::V128Const => Encoding::Prefixed { prefix: 0xFD, code: 12 },
            Opcode::I8x16Shuffle => Encoding::Prefixed { prefix: 0xFD, code: 13 },
            Opcode::I8x16Swizzle => Encoding::Prefixed { prefix: 0xFD, code: 14 },
            Opcode::I8x16Splat => Encoding::Prefixed { prefix: 0xFD, code: 15 },
            Opcode::I16x8Splat => Encoding::Prefixed { prefix: 0xFD, code: 16 },
            Opcode::I32x4Splat => Encoding::Prefixed { prefix: 0xFD, code: 17 },
            Opcode::I64x2Splat => Encoding::Prefixed { prefix: 0xFD, code: 18 },
            Opcode::F32x4Splat => Encoding::Prefixed { prefix: 0xFD, code: 19 },
            Opcode::F64x2Splat => Encoding::Prefixed { prefix: 0xFD, code: 20 },
            Opcode::I8x16ExtractLaneS => Encoding::Prefixed { prefix: 0xFD, code: 21 },
            Opcode::I8x16ExtractLaneU => Encoding::Prefixed { prefix: 0xFD, code: 22 },
            Opcode::I8x16ReplaceLane => Encoding::Prefixed { prefix: 0xFD, code: 23 },
            Opcode::I16x8ExtractLaneS => Encoding::Prefixed { prefix: 0xFD, code: 24 },
            Opcode::I16x8ExtractLaneU => Encoding::Prefixed { prefix: 0xFD, code: 25 },
            Opcode::I16x8ReplaceLane => Encoding::Prefixed { prefix: 0xFD, code: 26 },
            Opcode::I32x4ExtractLane => Encoding::Prefixed { prefix: 0xFD, code: 27 },
            Opcode::I32x4ReplaceLane => Encoding::Prefixed { prefix: 0xFD, code: 28 },
            Opcode::I64x2ExtractLane => Encoding::Prefixed { prefix: 0xFD, code: 29 },
            Opcode::I64x2ReplaceLane => Encoding::Prefixed { prefix: 0xFD, code: 30 },
            Opcode::F32x4ExtractLane => Encoding::Prefixed { prefix: 0xFD, code: 31 },
            Opcode::F32x4ReplaceLane => Encoding::Prefixed { prefix: 0xFD, code: 32 },
            Opcode::F64x2ExtractLane => Encoding::Prefixed { prefix: 0xFD, code: 33 },
            Opcode::F64x2ReplaceLane => Encoding::Prefixed { prefix: 0xFD, code: 34 },
            Opcode::I8x16Eq => Encoding::Prefixed { prefix: 0xFD, code: 35 },
            Opcode::I8x16Ne => Encoding::Prefixed { prefix: 0xFD, code: 36 },
            Opcode::I8x16LtS => Encoding::Prefixed { prefix: 0xFD, code: 37 },
            Opcode::I8x16LtU => Encoding::Prefixed { prefix: 0xFD, code: 38 },
            Opcode::I8x16GtS => Encoding::Prefixed { prefix: 0xFD, code: 39 },
            Opcode::I8x16GtU => Encoding::Prefixed { prefix: 0xFD, code: 40 },
            Opcode::I8x16LeS => Encoding::Prefixed { prefix: 0xFD, code: 41 },
            Opcode::I8x16LeU => Encoding::Prefixed { prefix: 0xFD, code: 42 },
            Opcode::I8x16GeS => Encoding::Prefixed { prefix: 0xFD, code: 43 },
            Opcode::I8x16GeU => Encoding::Prefixed { prefix: 0xFD, code: 44 },
            Opcode::I16x8Eq => Encoding::Prefixed { prefix: 0xFD, code: 45 },
            Opcode::I16x8Ne => Encoding::Prefixed { prefix: 0xFD, code: 46 },
            Opcode::I16x8LtS => Encoding::Prefixed { prefix: 0xFD, code: 47 },
            Opcode::I16x8LtU => Encoding::Prefixed { prefix: 0xFD, code: 48 },
            Opcode::I16x8GtS => Encoding::Prefixed { prefix: 0xFD, code: 49 },
            Opcode::I16x8GtU => Encoding::Prefixed { prefix: 0xFD, code: 50 },
            Opcode::I16x8LeS => Encoding::Prefixed { prefix: 0xFD, code: 51 },
            Opcode::I16x8LeU => Encoding::Prefixed { prefix: 0xFD, code: 52 },
            Opcode::I16x8GeS => Encoding::Prefixed { prefix: 0xFD, code: 53 },
            Opcode::I16x8GeU => Encoding::Prefixed { prefix: 0xFD, code: 54 },
            Opcode::I32x4Eq => Encoding::Prefixed { prefix: 0xFD, code: 55 },
            Opcode::I32x4Ne => Encoding::Prefixed { prefix: 0xFD, code: 56 },
            Opcode::I32x4LtS => Encoding::Prefixed { prefix: 0xFD, code: 57 },
            Opcode::I32x4LtU => Encoding::Prefixed { prefix: 0xFD, code: 58 },
            Opcode::I32x4GtS => Encoding::Prefixed { prefix: 0xFD, code: 59 },
            Opcode::I32x4GtU => Encoding::Prefixed { prefix: 0xFD, code: 60 },
            Opcode::I32x4LeS => Encoding::Prefixed { prefix: 0xFD, code: 61 },
            Opcode::I32x4LeU => Encoding::Prefixed { prefix: 0xFD, code: 62 },
            Opcode::I32x4GeS => Encoding::Prefixed { prefix: 0xFD, code: 63 },
            Opcode::I32x4GeU => Encoding::Prefixed { prefix: 0xFD, code: 64 },
            Opcode::F32x4Eq => Encoding::Prefixed { prefix: 0xFD, code: 65 },
            Opcode::F32x4Ne => Encoding::Prefixed { prefix: 0xFD, code: 66 },
            Opcode::F32x4Lt => Encoding::Prefixed { prefix: 0xFD, code: 67 },
            Opcode::F32x4Gt => Encoding::Prefixed { prefix: 0xFD, code: 68 },
            Opcode::F32x4Le => Encoding::Prefixed { prefix: 0xFD, code: 69 },
            Opcode::F32x4Ge => Encoding::Prefixed { prefix: 0xFD, code: 70 },
            Opcode::F64x2Eq => Encoding::Prefixed { prefix: 0xFD, code: 71 },
            Opcode::F64x2Ne => Encoding::Prefixed { prefix: 0xFD, code: 72 },
            Opcode::F64x2Lt => Encoding::Prefixed { prefix: 0xFD, code: 73 },
            Opcode::F64x2Gt => Encoding::Prefixed { prefix: 0xFD, code: 74 },
            Opcode::F64x2Le => Encoding::Prefixed { prefix: 0xFD, code: 75 },
            Opcode::F64x2Ge => Encoding::Prefixed { prefix: 0xFD, code: 76 },
            Opcode::V128Not => Encoding::Prefixed { prefix: 0xFD, code: 77 },
            Opcode::V128And => Encoding::Prefixed { prefix: 0xFD, code: 78 },
            Opcode::V128AndNot => Encoding::Prefixed { prefix: 0xFD, code: 79 },
            Opcode::V128Or => Encoding::Prefixed { prefix: 0xFD, code: 80 },
            Opcode::V128Xor => Encoding::Prefixed { prefix: 0xFD, code: 81 },
            Opcode::V128Bitselect => Encoding::Prefixed { prefix: 0xFD, code: 82 },
            Opcode::V128AnyTrue => Encoding::Prefixed { prefix: 0xFD, code: 83 },
            Opcode::F32x4DemoteF64x2Zero => Encoding::Prefixed { prefix: 0xFD, code: 94 },
            Opcode::F64x2PromoteLowF32x4 => Encoding::Prefixed { prefix: 0xFD, code: 95 },
            Opcode::I8x16Abs => Encoding::Prefixed { prefix: 0xFD, code: 96 },
            Opcode::I8x16Neg => Encoding::Prefixed { prefix: 0xFD, code: 97 },
            Opcode::I8x16Popcnt => Encoding::Prefixed { prefix: 0xFD, code: 98 },
            Opcode::I8x16AllTrue => Encoding::Prefixed { prefix: 0xFD, code: 99 },
            Opcode::I8x16Bitmask => Encoding::Prefixed { prefix: 0xFD, code: 100 },
            Opcode::I8x16NarrowI16x8S => Encoding::Prefixed { prefix: 0xFD, code: 101 },
            Opcode::I8x16NarrowI16x8U => Encoding::Prefixed { prefix: 0xFD, code: 102 },
            Opcode::F32x4Ceil => Encoding::Prefixed { prefix: 0xFD, code: 103 },
            Opcode::F32x4Floor => Encoding::Prefixed { prefix: 0xFD, code: 104 },
            Opcode::F32x4Trunc => Encoding::Prefixed { prefix: 0xFD, code: 105 },
            Opcode::F32x4Nearest => Encoding::Prefixed { prefix: 0xFD, code: 106 },
            Opcode::I8x16Shl => Encoding::Prefixed { prefix: 0xFD, code: 107 },
            Opcode::I8x16ShrS => Encoding::Prefixed { prefix: 0xFD, code: 108 },
            Opcode::I8x16ShrU => Encoding::Prefixed { prefix: 0xFD, code: 109 },
            Opcode::I8x16Add => Encoding::Prefixed { prefix: 0xFD, code: 110 },
            Opcode::I8x16AddSatS => Encoding::Prefixed { prefix: 0xFD, code: 111 },
            Opcode::I8x16AddSatU => Encoding::Prefixed { prefix: 0xFD, code: 112 },
            Opcode::I8x16Sub => Encoding::Prefixed { prefix: 0xFD, code: 113 },
            Opcode::I8x16SubSatS => Encoding::Prefixed { prefix: 0xFD, code: 114 },
            Opcode::I8x16SubSatU => Encoding::Prefixed { prefix: 0xFD, code: 115 },
            Opcode::F64x2Ceil => Encoding::Prefixed { prefix: 0xFD, code: 116 },
            Opcode::F64x2Floor => Encoding::Prefixed { prefix: 0xFD, code: 117 },
            Opcode::I8x16MinS => Encoding::Prefixed { prefix: 0xFD, code: 118 },
            Opcode::I8x16MinU => Encoding::Prefixed { prefix: 0xFD, code: 119 },
            Opcode::I8x16MaxS => Encoding::Prefixed { prefix: 0xFD, code: 120 },
            Opcode::I8x16MaxU => Encoding::Prefixed { prefix: 0xFD, code: 121 },
            Opcode::F64x2Trunc => Encoding::Prefixed { prefix: 0xFD, code: 122 },
            Opcode::I8x16AvgrU => Encoding::Prefixed { prefix: 0xFD, code: 123 },
            Opcode::I16x8ExtaddPairwiseI8x16S => Encoding::Prefixed { prefix: 0xFD, code: 124 },
            Opcode::I16x8ExtaddPairwiseI8x16U => Encoding::Prefixed { prefix: 0xFD, code: 125 },
            Opcode::I32x4ExtaddPairwiseI16x8S => Encoding::Prefixed { prefix: 0xFD, code: 126 },
            Opcode::I32x4ExtaddPairwiseI16x8U => Encoding::Prefixed { prefix: 0xFD, code: 127 },
            Opcode::I16x8Abs => Encoding::Prefixed { prefix: 0xFD, code: 128 },
            Opcode::I16x8Neg => Encoding::Prefixed { prefix: 0xFD, code: 129 },
            Opcode::I16x8Q15mulrSatS => Encoding::Prefixed { prefix: 0xFD, code: 130 },
            Opcode::I16x8AllTrue => Encoding::Prefixed { prefix: 0xFD, code: 131 },
            Opcode::I16x8Bitmask => Encoding::Prefixed { prefix: 0xFD, code: 132 },
            Opcode::I16x8NarrowI32x4S => Encoding::Prefixed { prefix: 0xFD, code: 133 },
            Opcode::I16x8NarrowI32x4U => Encoding::Prefixed { prefix: 0xFD, code: 134 },
            Opcode::I16x8ExtendLowI8x16S => Encoding::Prefixed { prefix: 0xFD, code: 135 },
            Opcode::I16x8ExtendHighI8x16S => Encoding::Prefixed { prefix: 0xFD, code: 136 },
            Opcode::I16x8ExtendLowI8x16U => Encoding::Prefixed { prefix: 0xFD, code: 137 },
            Opcode::I16x8ExtendHighI8x16U => Encoding::Prefixed { prefix: 0xFD, code: 138 },
            Opcode::I16x8Shl => Encoding::Prefixed { prefix: 0xFD, code: 139 },
            Opcode::I16x8ShrS => Encoding::Prefixed { prefix: 0xFD, code: 140 },
            Opcode::I16x8ShrU => Encoding::Prefixed { prefix: 0xFD, code: 141 },
            Opcode::I16x8Add => Encoding::Prefixed { prefix: 0xFD, code: 142 },
            Opcode::I16x8AddSatS => Encoding::Prefixed { prefix: 0xFD, code: 143 },
            Opcode::I16x8AddSatU => Encoding::Prefixed { prefix: 0xFD, code: 144 },
            Opcode::I16x8Sub => Encoding::Prefixed { prefix: 0xFD, code: 145 },
            Opcode::I16x8SubSatS => Encoding::Prefixed { prefix: 0xFD, code: 146 },
            Opcode::I16x8SubSatU => Encoding::Prefixed { prefix: 0xFD, code: 147 },
            Opcode::F64x2Nearest => Encoding::Prefixed { prefix: 0xFD, code: 148 },
            Opcode::I16x8Mul => Encoding::Prefixed { prefix: 0xFD, code: 149 },
            Opcode::I16x8MinS => Encoding::Prefixed { prefix: 0xFD, code: 150 },
            Opcode::I16x8MinU => Encoding::Prefixed { prefix: 0xFD, code: 151 },
            Opcode::I16x8MaxS => Encoding::Prefixed { prefix: 0xFD, code: 152 },
            Opcode::I16x8MaxU => Encoding::Prefixed { prefix: 0xFD, code: 153 },
            Opcode::I16x8AvgrU => Encoding::Prefixed { prefix: 0xFD, code: 155 },
            Opcode::I16x8ExtmulLowI8x16S => Encoding::Prefixed { prefix: 0xFD, code: 156 },
            Opcode::I16x8ExtmulHighI8x16S => Encoding::Prefixed { prefix: 0xFD, code: 157 },
            Opcode::I16x8ExtmulLowI8x16U => Encoding::Prefixed { prefix: 0xFD, code: 158 },
            Opcode::I16x8ExtmulHighI8x16U => Encoding::Prefixed { prefix: 0xFD, code: 159 },
            Opcode::I32x4Abs => Encoding::Prefixed { prefix: 0xFD, code: 160 },
            Opcode::I32x4Neg => Encoding::Prefixed { prefix: 0xFD, code: 161 },
            Opcode::I32x4AllTrue => Encoding::Prefixed { prefix: 0xFD, code: 163 },
            Opcode::I32x4Bitmask => Encoding::Prefixed { prefix: 0xFD, code: 164 },
            Opcode::I32x4ExtendLowI16x8S => Encoding::Prefixed { prefix: 0xFD, code: 167 },
            Opcode::I32x4ExtendHighI16x8S => Encoding::Prefixed { prefix: 0xFD, code: 168 },
            Opcode::I32x4ExtendLowI16x8U => Encoding::Prefixed { prefix: 0xFD, code: 169 },
            Opcode::I32x4ExtendHighI16x8U => Encoding::Prefixed { prefix: 0xFD, code: 170 },
            Opcode::I32x4Shl => Encoding::Prefixed { prefix: 0xFD, code: 171 },
            Opcode::I32x4ShrS => Encoding::Prefixed { prefix: 0xFD, code: 172 },
            Opcode::I32x4ShrU => Encoding::Prefixed { prefix: 0xFD, code: 173 },
            Opcode::I32x4Add => Encoding::Prefixed { prefix: 0xFD, code: 174 },
            Opcode::I32x4Sub => Encoding::Prefixed { prefix: 0xFD, code: 177 },
            Opcode::I32x4Mul => Encoding::Prefixed { prefix: 0xFD, code: 181 },
            Opcode::I32x4MinS => Encoding::Prefixed { prefix: 0xFD, code: 182 },
            Opcode::I32x4MinU => Encoding::Prefixed { prefix: 0xFD, code: 183 },
            Opcode::I32x4MaxS => Encoding::Prefixed { prefix: 0xFD, code: 184 },
            Opcode::I32x4MaxU => Encoding::Prefixed { prefix: 0xFD, code: 185 },
            Opcode::I32x4DotI16x8S => Encoding::Prefixed { prefix: 0xFD, code: 186 },
            Opcode::I32x4ExtmulLowI16x8S => Encoding::Prefixed { prefix: 0xFD, code: 188 },
            Opcode::I32x4ExtmulHighI16x8S => Encoding::Prefixed { prefix: 0xFD, code: 189 },
            Opcode::I32x4ExtmulLowI16x8U => Encoding::Prefixed { prefix: 0xFD, code: 190 },
            Opcode::I32x4ExtmulHighI16x8U => Encoding::Prefixed { prefix: 0xFD, code: 191 },
            Opcode::I64x2Abs => Encoding::Prefixed { prefix: 0xFD, code: 192 },
            Opcode::I64x2Neg => Encoding::Prefixed { prefix: 0xFD, code: 193 },
            Opcode::I64x2AllTrue => Encoding::Prefixed { prefix: 0xFD, code: 195 },
            Opcode::I64x2Bitmask => Encoding::Prefixed { prefix: 0xFD, code: 196 },
            Opcode::I64x2ExtendLowI32x4S => Encoding::Prefixed { prefix: 0xFD, code: 199 },
            Opcode::I64x2ExtendHighI32x4S => Encoding::Prefixed { prefix: 0xFD, code: 200 },
            Opcode::I64x2ExtendLowI32x4U => Encoding::Prefixed { prefix: 0xFD, code: 201 },
            Opcode::I64x2ExtendHighI32x4U => Encoding::Prefixed { prefix: 0xFD, code: 202 },
            Opcode::I64x2Shl => Encoding::Prefixed { prefix: 0xFD, code: 203 },
            Opcode::I64x2ShrS => Encoding::Prefixed { prefix: 0xFD, code: 204 },
            Opcode::I64x2ShrU => Encoding::Prefixed { prefix: 0xFD, code: 205 },
            Opcode::I64x2Add => Encoding::Prefixed { prefix: 0xFD, code: 206 },
            Opcode::I64x2Sub => Encoding::Prefixed { prefix: 0xFD, code: 209 },
            Opcode::I64x2Mul => Encoding::Prefixed { prefix: 0xFD, code: 213 },
            Opcode::I64x2Eq => Encoding::Prefixed { prefix: 0xFD, code: 214 },
            Opcode::I64x2Ne => Encoding::Prefixed { prefix: 0xFD, code: 215 },
            Opcode::I64x2LtS => Encoding::Prefixed { prefix: 0xFD, code: 216 },
            Opcode::I64x2GtS => Encoding::Prefixed { prefix: 0xFD, code: 217 },
            Opcode::I64x2LeS => Encoding::Prefixed { prefix: 0xFD, code: 218 },
            Opcode::I64x2GeS => Encoding::Prefixed { prefix: 0xFD, code: 219 },
            Opcode::I64x2ExtmulLowI32x4S => Encoding::Prefixed { prefix: 0xFD, code: 220 },
            Opcode::I64x2ExtmulHighI32x4S => Encoding::Prefixed { prefix: 0xFD, code: 221 },
            Opcode::I64x2ExtmulLowI32x4U => Encoding::Prefixed { prefix: 0xFD, code: 222 },
            Opcode::I64x2ExtmulHighI32x4U => Encoding::Prefixed { prefix: 0xFD, code: 223 },
            Opcode::F32x4Abs => Encoding::Prefixed { prefix: 0xFD, code: 224 },
            Opcode::F32x4Neg => Encoding::Prefixed { prefix: 0xFD, code: 225 },
            Opcode::F32x4Sqrt => Encoding::Prefixed { prefix: 0xFD, code: 227 },
            Opcode::F32x4Add => Encoding::Prefixed { prefix: 0xFD, code: 228 },
            Opcode::F32x4Sub => Encoding::Prefixed { prefix: 0xFD, code: 229 },
            Opcode::F32x4Mul => Encoding::Prefixed { prefix: 0xFD, code: 230 },
            Opcode::F32x4Div => Encoding::Prefixed { prefix: 0xFD, code: 231 },
            Opcode::F32x4Min => Encoding::Prefixed { prefix: 0xFD, code: 232 },
            Opcode::F32x4Max => Encoding::Prefixed { prefix: 0xFD, code: 233 },
            Opcode::F32x4Pmin => Encoding::Prefixed { prefix: 0xFD, code: 234 },
            Opcode::F32x4Pmax => Encoding::Prefixed { prefix: 0xFD, code: 235 },
            Opcode::F64x2Abs => Encoding::Prefixed { prefix: 0xFD, code: 236 },
            Opcode::F64x2Neg => Encoding::Prefixed { prefix: 0xFD, code: 237 },
            Opcode::F64x2Sqrt => Encoding::Prefixed { prefix: 0xFD, code: 239 },
            Opcode::F64x2Add => Encoding::Prefixed { prefix: 0xFD, code: 240 },
            Opcode::F64x2Sub => Encoding::Prefixed { prefix: 0xFD, code: 241 },
            Opcode::F64x2Mul => Encoding::Prefixed { prefix: 0xFD, code: 242 },
            Opcode::F64x2Div => Encoding::Prefixed { prefix: 0xFD, code: 243 },
            Opcode::F64x2Min => Encoding::Prefixed { prefix: 0xFD, code: 244 },
            Opcode::F64x2Max => Encoding::Prefixed { prefix: 0xFD, code: 245 },
            Opcode::F64x2Pmin => Encoding::Prefixed { prefix: 0xFD, code: 246 },
            Opcode::F64x2Pmax => Encoding::Prefixed { prefix: 0xFD, code: 247 },
            Opcode::I32x4TruncSatF32x4S => Encoding::Prefixed { prefix: 0xFD, code: 248 },
            Opcode::I32x4TruncSatF32x4U => Encoding::Prefixed { prefix: 0xFD, code: 249 },
            Opcode::F32x4ConvertI32x4S => Encoding::Prefixed { prefix: 0xFD, code: 250 },
            Opcode::F32x4ConvertI32x4U => Encoding::Prefixed { prefix: 0xFD, code: 251 },
            Opcode::I32x4TruncSatF64x2SZero => Encoding::Prefixed { prefix: 0xFD, code: 252 },
            Opcode::I32x4TruncSatF64x2UZero => Encoding::Prefixed { prefix: 0xFD, code: 253 },
            Opcode::F64x2ConvertLowI32x4S => Encoding::Prefixed { prefix: 0xFD, code: 254 },
            Opcode::F64x2ConvertLowI32x4U => Encoding::Prefixed { prefix: 0xFD, code: 255 },
            Opcode::ReturnCall => Encoding::Byte(0x12),
            Opcode::ReturnCallIndirect => Encoding::Byte(0x13),
            Opcode::MemoryAtomicNotify => Encoding::Prefixed { prefix: 0xFE, code: 0 },
            Opcode::MemoryAtomicWait32 => Encoding::Prefixed { prefix: 0xFE, code: 1 },
            Opcode::MemoryAtomicWait64 => Encoding::Prefixed { prefix: 0xFE, code: 2 },
            Opcode::I32AtomicLoad => Encoding::Prefixed { prefix: 0xFE, code: 16 },
            Opcode::I64AtomicLoad => Encoding::Prefixed { prefix: 0xFE, code: 17 },
            Opcode::I32AtomicLoad8U => Encoding::Prefixed { prefix: 0xFE, code: 18 },
            Opcode::I32AtomicLoad16U => Encoding::Prefixed { prefix: 0xFE, code: 19 },
            Opcode::I64AtomicLoad8U => Encoding::Prefixed { prefix: 0xFE, code: 20 },
            Opcode::I64AtomicLoad16U => Encoding::Prefixed { prefix: 0xFE, code: 21 },
            Opcode::I64AtomicLoad32U => Encoding::Prefixed { prefix: 0xFE, code: 22 },
            Opcode::I32AtomicStore => Encoding::Prefixed { prefix: 0xFE, code: 23 },
            Opcode::I64AtomicStore => Encoding::Prefixed { prefix: 0xFE, code: 24 },
            Opcode::I32AtomicStore8U => Encoding::Prefixed { prefix: 0xFE, code: 25 },
            Opcode::I32AtomicStore16U => Encoding::Prefixed { prefix: 0xFE, code: 26 },
            Opcode::I64AtomicStore8U => Encoding::Prefixed { prefix: 0xFE, code: 27 },
            Opcode::I64AtomicStore16U => Encoding::Prefixed { prefix: 0xFE, code: 28 },
            Opcode::I64AtomicStore32U => Encoding::Prefixed { prefix: 0xFE, code: 29 },
            Opcode::I32AtomicRmwAdd => Encoding::Prefixed { prefix: 0xFE, code: 30 },
            Opcode::I64AtomicRmwAdd => Encoding::Prefixed { prefix: 0xFE, code: 31 },
            Opcode::I32AtomicRmw8AddU => Encoding::Prefixed { prefix: 0xFE, code: 32 },
            Opcode::I32AtomicRmw16AddU => Encoding::Prefixed { prefix: 0xFE, code: 33 },
            Opcode::I64AtomicRmw8AddU => Encoding::Prefixed { prefix: 0xFE, code: 34 },
            Opcode::I64AtomicRmw16AddU => Encoding::Prefixed { prefix: 0xFE, code: 35 },
            Opcode::I64AtomicRmw32AddU => Encoding::Prefixed { prefix: 0xFE, code: 36 },
            Opcode::I32AtomicRmwSub => Encoding::Prefixed { prefix: 0xFE, code: 37 },
            Opcode::I64AtomicRmwSub => Encoding::Prefixed { prefix: 0xFE, code: 38 },
            Opcode::I32AtomicRmw8SubU => Encoding::Prefixed { prefix: 0xFE, code: 39 },
            Opcode::I32AtomicRmw16SubU => Encoding::Prefixed { prefix: 0xFE, code: 40 },
            Opcode::I64AtomicRmw8SubU => Encoding::Prefixed { prefix: 0xFE, code: 41 },
            Opcode::I64AtomicRmw16SubU => Encoding::Prefixed { prefix: 0xFE, code: 42 },
            Opcode::I64AtomicRmw32SubU => Encoding::Prefixed { prefix: 0xFE, code: 43 },
            Opcode::I32AtomicRmwAnd => Encoding::Prefixed { prefix: 0xFE, code: 44 },
            Opcode::I64AtomicRmwAnd => Encoding::Prefixed { prefix: 0xFE, code: 45 },
            Opcode::I32AtomicRmw8AndU => Encoding::Prefixed { prefix: 0xFE, code: 46 },
            Opcode::I32AtomicRmw16AndU => Encoding::Prefixed { prefix: 0xFE, code: 47 },
            Opcode::I64AtomicRmw8AndU => Encoding::Prefixed { prefix: 0xFE, code: 48 },
            Opcode::I64AtomicRmw16AndU => Encoding::Prefixed { prefix: 0xFE, code: 49 },
            Opcode::I64AtomicRmw32AndU => Encoding::Prefixed { prefix: 0xFE, code: 50 },
            Opcode::I32AtomicRmwOr => Encoding::Prefixed { prefix: 0xFE, code: 51 },
            Opcode::I64AtomicRmwOr => Encoding::Prefixed { prefix: 0xFE, code: 52 },
            Opcode::I32AtomicRmw8OrU => Encoding::Prefixed { prefix: 0xFE, code: 53 },
            Opcode::I32AtomicRmw16OrU => Encoding::Prefixed { prefix: 0xFE, code: 54 },
            Opcode::I64AtomicRmw8OrU => Encoding::Prefixed { prefix: 0xFE, code: 55 },
            Opcode::I64AtomicRmw16OrU => Encoding::Prefixed { prefix: 0xFE, code: 56 },
            Opcode::I64AtomicRmw32OrU => Encoding::Prefixed { prefix: 0xFE, code: 57 },
            Opcode::I32AtomicRmwXor => Encoding::Prefixed { prefix: 0xFE, code: 58 },
            Opcode::I64AtomicRmwXor => Encoding::Prefixed { prefix: 0xFE, code: 59 },
            Opcode::I32AtomicRmw8XorU => Encoding::Prefixed { prefix: 0xFE, code: 60 },
            Opcode::I32AtomicRmw16XorU => Encoding::Prefixed { prefix: 0xFE, code: 61 },
            Opcode::I64AtomicRmw8XorU => Encoding::Prefixed { prefix: 0xFE, code: 62 },
            Opcode::I64AtomicRmw16XorU => Encoding::Prefixed { prefix: 0xFE, code: 63 },
            Opcode::I64AtomicRmw32XorU => Encoding::Prefixed { prefix: 0xFE, code: 64 },
            Opcode::I32AtomicRmwXchg => Encoding::Prefixed { prefix: 0xFE, code: 65 },
            Opcode::I64AtomicRmwXchg => Encoding::Prefixed { prefix: 0xFE, code: 66 },
            Opcode::I32AtomicRmw8XchgU => Encoding::Prefixed { prefix: 0xFE, code: 67 },
            Opcode::I32AtomicRmw16XchgU => Encoding::Prefixed { prefix: 0xFE, code: 68 },
            Opcode::I64AtomicRmw8XchgU => Encoding::Prefixed { prefix: 0xFE, code: 69 },
            Opcode::I64AtomicRmw16XchgU => Encoding::Prefixed { prefix: 0xFE, code: 70 },
            Opcode::I64AtomicRmw32XchgU => Encoding::Prefixed { prefix: 0xFE, code: 71 },
            Opcode::I32AtomicRmwCmpxchg => Encoding::Prefixed { prefix: 0xFE, code: 72 },
            Opcode::I64AtomicRmwCmpxchg => Encoding::Prefixed { prefix: 0xFE, code: 73 },
            Opcode::I32AtomicRmw8CmpxchgU => Encoding::Prefixed { prefix: 0xFE, code: 74 },
            Opcode::I32AtomicRmw16CmpxchgU => Encoding::Prefixed { prefix: 0xFE, code: 75 },
            Opcode::I64AtomicRmw8CmpxchgU => Encoding::Prefixed { prefix: 0xFE, code: 76 },
            Opcode::I64AtomicRmw16CmpxchgU => Encoding::Prefixed { prefix: 0xFE, code: 77 },
            Opcode::I64AtomicRmw32CmpxchgU => Encoding::Prefixed { prefix: 0xFE, code: 78 },
            Opcode::Try => Encoding::Byte(0x06),
            Opcode::Catch => Encoding::Byte(0x07),
            Opcode::Throw => Encoding::Byte(0x08),
            Opcode::Rethrow => Encoding::Byte(0x09),
            Opcode::Delegate => Encoding::Byte(0x18),
            Opcode::CatchAll => Encoding::Byte(0x19),
            Opcode::I8x16RelaxedSwizzle => Encoding::Prefixed { prefix: 0xFD, code: 256 },
            Opcode::I32x4RelaxedTruncF32x4S => Encoding::Prefixed { prefix: 0xFD, code: 257 },
            Opcode::I32x4RelaxedTruncF32x4U => Encoding::Prefixed { prefix: 0xFD, code: 258 },
            Opcode::I32x4RelaxedTruncF64x2SZero => Encoding::Prefixed { prefix: 0xFD, code: 259 },
            Opcode::I32x4RelaxedTruncF64x2UZero => Encoding::Prefixed { prefix: 0xFD, code: 260 },
            Opcode::F32x4RelaxedMadd => Encoding::Prefixed { prefix: 0xFD, code: 261 },
            Opcode::F32x4RelaxedNmadd => Encoding::Prefixed { prefix: 0xFD, code: 262 },
            Opcode::F64x2RelaxedMadd => Encoding::Prefixed { prefix: 0xFD, code: 263 },
            Opcode::F64x2RelaxedNmadd => Encoding::Prefixed { prefix: 0xFD, code: 264 },
            Opcode::I8x16RelaxedLaneselect => Encoding::Prefixed { prefix: 0xFD, code: 265 },
            Opcode::I16x8RelaxedLaneselect => Encoding::Prefixed { prefix: 0xFD, code: 266 },
            Opcode::I32x4RelaxedLaneselect => Encoding::Prefixed { prefix: 0xFD, code: 267 },
            Opcode::I64x2RelaxedLaneselect => Encoding::Prefixed { prefix: 0xFD, code: 268 },
            Opcode::F32x4RelaxedMin => Encoding::Prefixed { prefix: 0xFD, code: 269 },
            Opcode::F32x4RelaxedMax => Encoding::Prefixed { prefix: 0xFD, code: 270 },
            Opcode::F64x2RelaxedMin => Encoding::Prefixed { prefix: 0xFD, code: 271 },
            Opcode::F64x2RelaxedMax => Encoding::Prefixed { prefix: 0xFD, code: 272 },
            Opcode::I16x8RelaxedQ15mulrS => Encoding::Prefixed { prefix: 0xFD, code: 273 },
            Opcode::I16x8RelaxedDotI8x16I7x16S => Encoding::Prefixed { prefix: 0xFD, code: 274 },
            Opcode::I32x4RelaxedDotI8x16I7x16AddS => Encoding::Prefixed { prefix: 0xFD, code: 275 },
        }
    }

    /// Gets the name of the WebAssembly instruction that this opcode corresponds to, in
    /// the [WebAssembly text format].
    ///
    /// [WebAssembly text format]: https://webassembly.github.io/spec/core/text/instructions.html
    pub fn name(self) -> (r: &'static str)
        ensures
            r@ == spec_name(self),
    {
        match self {
            Opcode::Unreachable => "unreachable",
            Opcode::Nop => "nop",
            Opcode::Block => "block",
            Opcode::Loop => "loop",
            Opcode::If => "if",
            Opcode::Else => "else",
            Opcode::End => "end",
            Opcode::Br => "br",
            Opcode::BrIf => "br_if",
            Opcode::BrTable => "br_table",
            Opcode::Return => "return",
            Opcode::Call => "call",
            Opcode::CallIndirect => "call_indirect",
            Opcode::Drop => "drop",
            Opcode::Select => "select",
            Opcode::SelectTyped => "select",
            Opcode::LocalGet => "local.get",
            Opcode::LocalSet => "local.set",
            Opcode::LocalTee => "local.tee",
            Opcode::GlobalGet => "global.get",
            Opcode::GlobalSet => "global.set",
            Opcode::I32Load => "i32.load",
            Opcode::I64Load => "i64.load",
            Opcode::F32Load => "f32.load",
            Opcode::F64Load => "f64.load",
            Opcode::I32Load8S => "i32.load8_s",
            Opcode::I32Load8U => "i32.load8_u",
            Opcode::I32Load16S => "i32.load16_s",
            Opcode::I32Load16U => "i32.load16_u",
            Opcode::I64Load8S => "i64.load8_s",
            Opcode::I64Load8U => "i64.load8_u",
            Opcode::I64Load16S => "i64.load16_s",
            Opcode::I64Load16U => "i64.load16_u",
            Opcode::I64Load32S => "i64.load32_s",
            Opcode::I64Load32U => "i64.load32_u",
            Opcode::I32Store => "i32.store",
            Opcode::I64Store => "i64.store",
            Opcode::F32Store => "f32.store",
            Opcode::F64Store => "f64.store",
            Opcode::I32Store8 => "i32.store8",
            Opcode::I32Store16 => "i32.store16",
            Opcode::I64Store8 => "i64.store8",
            Opcode::I64Store16 => "i64.store16",
            Opcode::I64Store32 => "i64.store32",
            Opcode::MemorySize => "memory.size",
            Opcode::MemoryGrow => "memory.grow",
            Opcode::I32Const => "i32.const",
            Opcode::I64Const => "i64.const",
            Opcode::F32Const => "f32.const",
            Opcode::F64Const => "f64.const",
            Opcode::I32Eqz => "i32.eqz",
            Opcode::I32Eq => "i32.eq",
            Opcode::I32Ne => "i32.ne",
            Opcode::I32LtS => "i32.lt_s",
            Opcode::I32LtU => "i32.lt_u",
            Opcode::I32GtS => "i32.gt_s",
            Opcode::I32GtU => "i32.gt_u",
            Opcode::I32LeS => "i32.le_s",
            Opcode::I32LeU => "i32.le_u",
            Opcode::I32GeS => "i32.ge_s",
            Opcode::I32GeU => "i32.ge_u",
            Opcode::I64Eqz => "i64.eqz",
            Opcode::I64Eq => "i64.eq",
            Opcode::I64Ne => "i64.ne",
            Opcode::I64LtS => "i64.lt_s",
            Opcode::I64LtU => "i64.lt_u",
            Opcode::I64GtS => "i64.gt_s",
            Opcode::I64GtU => "i64.gt_u",
            Opcode::I64LeS => "i64.le_s",
            Opcode::I64LeU => "i64.le_u",
            Opcode::I64GeS => "i64.ge_s",
            Opcode::I64GeU => "i64.ge_u",
            Opcode::F32Eq => "f32.eq",
            Opcode::F32Ne => "f32.ne",
            Opcode::F32Lt => "f32.lt",
            Opcode::F32Gt => "f32.gt",
            Opcode::F32Le => "f32.le",
            Opcode::F32Ge => "f32.ge",
            Opcode::F64Eq => "f64.eq",
            Opcode::F64Ne => "f64.ne",
            Opcode::F64Lt => "f64.lt",
            Opcode::F64Gt => "f64.gt",
            Opcode::F64Le => "f64.le",
            Opcode::F64Ge => "f64.ge",
            Opcode::I32Clz => "i32.clz",
            Opcode::I32Ctz => "i32.ctz",
            Opcode::I32Popcnt => "i32.popcnt",
            Opcode::I32Add => "i32.add",
            Opcode::I32Sub => "i32.sub",
            Opcode::I32Mul => "i32.mul",
            Opcode::I32DivS => "i32.div_s",
            Opcode::I32DivU => "i32.div_u",
            Opcode::I32RemS => "i32.rem_s",
            Opcode::I32RemU => "i32.rem_u",
            Opcode::I32And => "i32.and",
            Opcode::I32Or => "i32.or",
            Opcode::I32Xor => "i32.xor",
            Opcode::I32Shl => "i32.shl",
            Opcode::I32ShrS => "i32.shr_s",
            Opcode::I32ShrU => "i32.shr_u",
            Opcode::I32Rotl => "i32.rotl",
            Opcode::I32Rotr => "i32.rotr",
            Opcode::I64Clz => "i64.clz",
            Opcode::I64Ctz => "i64.ctz",
            Opcode::I64Popcnt => "i64.popcnt",
            Opcode::I64Add => "i64.add",
            Opcode::I64Sub => "i64.sub",
            Opcode::I64Mul => "i64.mul",
            Opcode::I64DivS => "i64.div_s",
            Opcode::I64DivU => "i64.div_u",
            Opcode::I64RemS => "i64.rem_s",
            Opcode::I64RemU => "i64.rem_u",
            Opcode::I64And => "i64.and",
            Opcode::I64Or => "i64.or",
            Opcode::I64Xor => "i64.xor",
            Opcode::I64Shl => "i64.shl",
            Opcode::I64ShrS => "i64.shr_s",
            Opcode::I64ShrU => "i64.shr_u",
            Opcode::I64Rotl => "i64.rotl",
            Opcode::I64Rotr => "i64.rotr",
            Opcode::F32Abs => "f32.abs",
            Opcode::F32Neg => "f32.neg",
            Opcode::F32Ceil => "f32.ceil",
            Opcode::F32Floor => "f32.floor",
            Opcode::F32Trunc => "f32.trunc",
            Opcode::F32Nearest => "f32.nearest",
            Opcode::F32Sqrt => "f32.sqrt",
            Opcode::F32Add => "f32.add",
            Opcode::F32Sub => "f32.sub",
            Opcode::F32Mul => "f32.mul",
            Opcode::F32Div => "f32.div",
            Opcode::F32Min => "f32.min",
            Opcode::F32Max => "f32.max",
            Opcode::F32Copysign => "f32.copysign",
            Opcode::F64Abs => "f64.abs",
            Opcode::F64Neg => "f64.neg",
            Opcode::F64Ceil => "f64.ceil",
            Opcode::F64Floor => "f64.floor",
            Opcode::F64Trunc => "f64.trunc",
            Opcode::F64Nearest => "f64.nearest",
            Opcode::F64Sqrt => "f64.sqrt",
            Opcode::F64Add => "f64.add",
            Opcode::F64Sub => "f64.sub",
            Opcode::F64Mul => "f64.mul",
            Opcode::F64Div => "f64.div",
            Opcode::F64Min => "f64.min",
            Opcode::F64Max => "f64.max",
            Opcode::F64Copysign => "f64.copysign",
            Opcode::I32WrapI64 => "i32.wrap_i64",
            Opcode::I32TruncF32S => "i32.trunc_f32_s",
            Opcode::I32TruncF32U => "i32.trunc_f32_u",
            Opcode::I32TruncF64S => "i32.trunc_f64_s",
            Opcode::I32TruncF64U => "i32.trunc_f64_u",
            Opcode::I64ExtendI32S => "i64.extend_i32_s",
            Opcode::I64ExtendI32U => "i64.extend_i32_u",
            Opcode::I64TruncF32S => "i64.trunc_f32_s",
            Opcode::I64TruncF32U => "i64.trunc_f32_u",
            Opcode::I64TruncF64S => "i64.trunc_f64_s",
            Opcode::I64TruncF64U => "i64.trunc_f64_u",
            Opcode::F32ConvertI32S => "f32.convert_i32_s",
            Opcode::F32ConvertI32U => "f32.convert_i32_u",
            Opcode::F32ConvertI64S => "f32.convert_i64_s",
            Opcode::F32ConvertI64U => "f32.convert_i64_u",
            Opcode::F32DemoteF64 => "f32.demote_f64",
            Opcode::F64ConvertI32S => "f64.convert_i32_s",
            Opcode::F64ConvertI32U => "f64.convert_i32_u",
            Opcode::F64ConvertI64S => "f64.convert_i64_s",
            Opcode::F64ConvertI64U => "f64.convert_i64_u",
            Opcode::F64PromoteF32 => "f64.promote_f32",
            Opcode::I32ReinterpretF32 => "i32.reinterpret_f32",
            Opcode::I64ReinterpretF64 => "i64.reinterpret_f64",
            Opcode::F32ReinterpretI32 => "f32.reinterpret_i32",
            Opcode::F64ReinterpretI64 => "f64.reinterpret_i64",
            Opcode::I32TruncSatF32S => "i32.trunc_sat_f32_s",
            Opcode::I32TruncSatF32U => "i32.trunc_sat_f32_u",
            Opcode::I32TruncSatF64S => "i32.trunc_sat_f64_s",
            Opcode::I32TruncSatF64U => "i32.trunc_sat_f64_u",
            Opcode::I64TruncSatF32S => "i64.trunc_sat_f32_s",
            Opcode::I64TruncSatF32U => "i64.trunc_sat_f32_u",
            Opcode::I64TruncSatF64S => "i64.trunc_sat_f64_s",
            Opcode::I64TruncSatF64U => "i64.trunc_sat_f64_u",
            Opcode::I32Extend8S => "i32.extend8_s",
            Opcode::I32Extend16S => "i32.extend16_s",
            Opcode::I64Extend8S => "i64.extend8_s",
            Opcode::I64Extend16S => "i64.extend16_s",
            Opcode::I64Extend32S => "i64.extend32_s",
            Opcode::MemoryCopy => "memory.copy",
            Opcode::MemoryFill => "memory.fill",
            Opcode::MemoryInit => "memory.init",
            Opcode::DataDrop => "data.drop",
            Opcode::TableCopy => "table.copy",
            Opcode::TableInit => "table.init",
            Opcode::ElemDrop => "elem.drop",
            Opcode::RefNull => "ref.null",
            Opcode::RefIsNull => "ref.is_null",
            Opcode::RefFunc => "ref.func",
            Opcode::TableGet => "table.get",
            Opcode::TableSet => "table.set",
            Opcode::TableSize => "table.size",
            Opcode::TableGrow => "table.grow",
            Opcode::TableFill => "table.fill",
            Opcode::V128Load => "v128.load",
            Opcode::V128Load8x8S => "v128.load8x8_s",
            Opcode::V128Load8x8U => "v128.load8x8_u",
            Opcode::V128Load16x4S => "v128.load16x4_s",
            Opcode::V128Load16x4U => "v128.load16x4_u",
            Opcode::V128Load32x2S => "v128.load32x2_s",
            Opcode::V128Load32x2U => "v128.load32x2_u",
            Opcode::V128Load8Splat => "v128.load8_splat",
            Opcode::V128Load16Splat => "v128.load16_splat",
            Opcode::V128Load32Splat => "v128.load32_splat",
            Opcode::V128Load64Splat => "v128.load64_splat",
            Opcode::V128Load32Zero => "v128.load32_zero",
            Opcode::V128Load64Zero => "v128.load64_zero",
            Opcode::V128Store => "v128.store",
            Opcode::V128Load8Lane => "v128.load8_lane",
            Opcode::V128Load16Lane => "v128.load16_lane",
            Opcode::V128Load32Lane => "v128.load32_lane",
            Opcode::V128Load64Lane => "v128.load64_lane",
            Opcode::V128Store8Lane => "v128.store8_lane",
            Opcode::V128Store16Lane => "v128.store16_lane",
            Opcode::V128Store32Lane => "v128.store32_lane",
            Opcode::V128Store64Lane => "v128.store64_lane",
            Opcode::V128Const => "v128.const",
            Opcode::I8x16Shuffle => "i8x16.shuffle",
            Opcode::I8x16Swizzle => "i8x16.swizzle",
            Opcode::I8x16Splat => "i8x16.splat",
            Opcode::I16x8Splat => "i16x8.splat",
            Opcode::I32x4Splat => "i32x4.splat",
            Opcode::I64x2Splat => "i64x2.splat",
            Opcode::F32x4Splat => "f32x4.splat",
            Opcode::F64x2Splat => "f64x2.splat",
            Opcode::I8x16ExtractLaneS => "i8x16.extract_lane_s",
            Opcode::I8x16ExtractLaneU => "i8x16.extract_lane_u",
            Opcode::I8x16ReplaceLane => "i8x16.replace_lane",
            Opcode::I16x8ExtractLaneS => "i16x8.extract_lane_s",
            Opcode::I16x8ExtractLaneU => "i16x8.extract_lane_u",
            Opcode::I16x8ReplaceLane => "i16x8.replace_lane",
            Opcode::I32x4ExtractLane => "i32x4.extract_lane",
            Opcode::I32x4ReplaceLane => "i32x4.replace_lane",
            Opcode::I64x2ExtractLane => "i64x2.extract_lane",
            Opcode::I64x2ReplaceLane => "i64x2.replace_lane",
            Opcode::F32x4ExtractLane => "f32x4.extract_lane",
            Opcode::F32x4ReplaceLane => "f32x4.replace_lane",
            Opcode::F64x2ExtractLane => "f64x2.extract_lane",
            Opcode::F64x2ReplaceLane => "f64x2.replace_lane",
            Opcode::I8x16Eq => "i8x16.eq",
            Opcode::I8x16Ne => "i8x16.ne",
            Opcode::I8x16LtS => "i8x16.lt_s",
            Opcode::I8x16LtU => "i8x16.lt_u",
            Opcode::I8x16GtS => "i8x16.gt_s",
            Opcode::I8x16GtU => "i8x16.gt_u",
            Opcode::I8x16LeS => "i8x16.le_s",
            Opcode::I8x16LeU => "i8x16.le_u",
            Opcode::I8x16GeS => "i8x16.ge_s",
            Opcode::I8x16GeU => "i8x16.ge_u",
            Opcode::I16x8Eq => "i16x8.eq",
            Opcode::I16x8Ne => "i16x8.ne",
            Opcode::I16x8LtS => "i16x8.lt_s",
            Opcode::I16x8LtU => "i16x8.lt_u",
            Opcode::I16x8GtS => "i16x8.gt_s",
            Opcode::I16x8GtU => "i16x8.gt_u",
            Opcode::I16x8LeS => "i16x8.le_s",
            Opcode::I16x8LeU => "i16x8.le_u",
            Opcode::I16x8GeS => "i16x8.ge_s",
            Opcode::I16x8GeU => "i16x8.ge_u",
            Opcode::I32x4Eq => "i32x4.eq",
            Opcode::I32x4Ne => "i32x4.ne",
            Opcode::I32x4LtS => "i32x4.lt_s",
            Opcode::I32x4LtU => "i32x4.lt_u",
            Opcode::I32x4GtS => "i32x4.gt_s",
            Opcode::I32x4GtU => "i32x4.gt_u",
            Opcode::I32x4LeS => "i32x4.le_s",
            Opcode::I32x4LeU => "i32x4.le_u",
            Opcode::I32x4GeS => "i32x4.ge_s",
            Opcode::I32x4GeU => "i32x4.ge_u",
            Opcode::F32x4Eq => "f32x4.eq",
            Opcode::F32x4Ne => "f32x4.ne",
            Opcode::F32x4Lt => "f32x4.lt",
            Opcode::F32x4Gt => "f32x4.gt",
            Opcode::F32x4Le => "f32x4.le",
            Opcode::F32x4Ge => "f32x4.ge",
            Opcode::F64x2Eq => "f64x2.eq",
            Opcode::F64x2Ne => "f64x2.ne",
            Opcode::F64x2Lt => "f64x2.lt",
            Opcode::F64x2Gt => "f64x2.gt",
            Opcode::F64x2Le => "f64x2.le",
            Opcode::F64x2Ge => "f64x2.ge",
            Opcode::V128Not => "v128.not",
            Opcode::V128And => "v128.and",
            Opcode::V128AndNot => "v128.andnot",
            Opcode::V128Or => "v128.or",
            Opcode::V128Xor => "v128.xor",
            Opcode::V128Bitselect => "v128.bitselect",
            Opcode::V128AnyTrue => "v128.any_true",
            Opcode::F32x4DemoteF64x2Zero => "f32x4.demote_f64x2_zero",
            Opcode::F64x2PromoteLowF32x4 => "f64x2.promote_low_f32x4",
            Opcode::I8x16Abs => "i8x16.abs",
            Opcode::I8x16Neg => "i8x16.neg",
            Opcode::I8x16Popcnt => "i8x16.popcnt",
            Opcode::I8x16AllTrue => "i8x16.all_true",
            Opcode::I8x16Bitmask => "i8x16.bitmask",
            Opcode::I8x16NarrowI16x8S => "i8x16.narrow_i16x8_s",
            Opcode::I8x16NarrowI16x8U => "i8x16.narrow_i16x8_u",
            Opcode::F32x4Ceil => "f32x4.ceil",
            Opcode::F32x4Floor => "f32x4.floor",
            Opcode::F32x4Trunc => "f32x4.trunc",
            Opcode::F32x4Nearest => "f32x4.nearest",
            Opcode::I8x16Shl => "i8x16.shl",
            Opcode::I8x16ShrS => "i8x16.shr_s",
            Opcode::I8x16ShrU => "i8x16.shr_u",
            Opcode::I8x16Add => "i8x16.add",
            Opcode::I8x16AddSatS => "i8x16.add_sat_s",
            Opcode::I8x16AddSatU => "i8x16.add_sat_u",
            Opcode::I8x16Sub => "i8x16.sub",
            Opcode::I8x16SubSatS => "i8x16.sub_sat_s",
            Opcode::I8x16SubSatU => "i8x16.sub_sat_u",
            Opcode::F64x2Ceil => "f64x2.ceil",
            Opcode::F64x2Floor => "f64x2.floor",
            Opcode::I8x16MinS => "i8x16.min_s",
            Opcode::I8x16MinU => "i8x16.min_u",
            Opcode::I8x16MaxS => "i8x16.max_s",
            Opcode::I8x16MaxU => "i8x16.max_u",
            Opcode::F64x2Trunc => "f64x2.trunc",
            Opcode::I8x16AvgrU => "i8x16.avgr_u",
            Opcode::I16x8ExtaddPairwiseI8x16S => "i16x8.extadd_pairwise_i8x16_s",
            Opcode::I16x8ExtaddPairwiseI8x16U => "i16x8.extadd_pairwise_i8x16_u",
            Opcode::I32x4ExtaddPairwiseI16x8S => "i32x4.extadd_pairwise_i16x8_s",
            Opcode::I32x4ExtaddPairwiseI16x8U => "i32x4.extadd_pairwise_i16x8_u",
            Opcode::I16x8Abs => "i16x8.abs",
            Opcode::I16x8Neg => "i16x8.neg",
            Opcode::I16x8Q15mulrSatS => "i16x8.q15mulr_sat_s",
            Opcode::I16x8AllTrue => "i16x8.all_true",
            Opcode::I16x8Bitmask => "i16x8.bitmask",
            Opcode::I16x8NarrowI32x4S => "i16x8.narrow_i32x4_s",
            Opcode::I16x8NarrowI32x4U => "i16x8.narrow_i32x4_u",
            Opcode::I16x8ExtendLowI8x16S => "i16x8.extend_low_i8x16_s",
            Opcode::I16x8ExtendHighI8x16S => "i16x8.extend_high_i8x16_s",
            Opcode::I16x8ExtendLowI8x16U => "i16x8.extend_low_i8x16_u",
            Opcode::I16x8ExtendHighI8x16U => "i16x8.extend_high_i8x16_u",
            Opcode::I16x8Shl => "i16x8.shl",
            Opcode::I16x8ShrS => "i16x8.shr_s",
            Opcode::I16x8ShrU => "i16x8.shr_u",
            Opcode::I16x8Add => "i16x8.add",
            Opcode::I16x8AddSatS => "i16x8.add_sat_s",
            Opcode::I16x8AddSatU => "i16x8.add_sat_u",
            Opcode::I16x8Sub => "i16x8.sub",
            Opcode::I16x8SubSatS => "i16x8.sub_sat_s",
            Opcode::I16x8SubSatU => "i16x8.sub_sat_u",
            Opcode::F64x2Nearest => "f64x2.nearest",
            Opcode::I16x8Mul => "i16x8.mul",
            Opcode::I16x8MinS => "i16x8.min_s",
            Opcode::I16x8MinU => "i16x8.min_u",
            Opcode::I16x8MaxS => "i16x8.max_s",
            Opcode::I16x8MaxU => "i16x8.max_u",
            Opcode::I16x8AvgrU => "i16x8.avgr_u",
            Opcode::I16x8ExtmulLowI8x16S => "i16x8.extmul_low_i8x16_s",
            Opcode::I16x8ExtmulHighI8x16S => "i16x8.extmul_high_i8x16_s",
            Opcode::I16x8ExtmulLowI8x16U => "i16x8.extmul_low_i8x16_u",
            Opcode::I16x8ExtmulHighI8x16U => "i16x8.extmul_high_i8x16_u",
            Opcode::I32x4Abs => "i32x4.abs",
            Opcode::I32x4Neg => "i32x4.neg",
            Opcode::I32x4AllTrue => "i32x4.all_true",
            Opcode::I32x4Bitmask => "i32x4.bitmask",
            Opcode::I32x4ExtendLowI16x8S => "i32x4.extend_low_i16x8_s",
            Opcode::I32x4ExtendHighI16x8S => "i32x4.extend_high_i16x8_s",
            Opcode::I32x4ExtendLowI16x8U => "i32x4.extend_low_i16x8_u",
            Opcode::I32x4ExtendHighI16x8U => "i32x4.extend_high_i16x8_u",
            Opcode::I32x4Shl => "i32x4.shl",
            Opcode::I32x4ShrS => "i32x4.shr_s",
            Opcode::I32x4ShrU => "i32x4.shr_u",
            Opcode::I32x4Add => "i32x4.add",
            Opcode::I32x4Sub => "i32x4.sub",
            Opcode::I32x4Mul => "i32x4.mul",
            Opcode::I32x4MinS => "i32x4.min_s",
            Opcode::I32x4MinU => "i32x4.min_u",
            Opcode::I32x4MaxS => "i32x4.max_s",
            Opcode::I32x4MaxU => "i32x4.max_u",
            Opcode::I32x4DotI16x8S => "i32x4.dot_i16x8_s",
            Opcode::I32x4ExtmulLowI16x8S => "i32x4.extmul_low_i16x8_s",
            Opcode::I32x4ExtmulHighI16x8S => "i32x4.extmul_high_i16x8_s",
            Opcode::I32x4ExtmulLowI16x8U => "i32x4.extmul_low_i16x8_u",
            Opcode::I32x4ExtmulHighI16x8U => "i32x4.extmul_high_i16x8_u",
            Opcode::I64x2Abs => "i64x2.abs",
            Opcode::I64x2Neg => "i64x2.neg",
            Opcode::I64x2AllTrue => "i64x2.all_true",
            Opcode::I64x2Bitmask => "i64x2.bitmask",
            Opcode::I64x2ExtendLowI32x4S => "i64x2.extend_low_i32x4_s",
            Opcode::I64x2ExtendHighI32x4S => "i64x2.extend_high_i32x4_s",
            Opcode::I64x2ExtendLowI32x4U => "i64x2.extend_low_i32x4_u",
            Opcode::I64x2ExtendHighI32x4U => "i64x2.extend_high_i32x4_u",
            Opcode::I64x2Shl => "i64x2.shl",
            Opcode::I64x2ShrS => "i64x2.shr_s",
            Opcode::I64x2ShrU => "i64x2.shr_u",
            Opcode::I64x2Add => "i64x2.add",
            Opcode::I64x2Sub => "i64x2.sub",
            Opcode::I64x2Mul => "i64x2.mul",
            Opcode::I64x2Eq => "i64x2.eq",
            Opcode::I64x2Ne => "i64x2.ne",
            Opcode::I64x2LtS => "i64x2.lt_s",
            Opcode::I64x2GtS => "i64x2.gt_s",
            Opcode::I64x2LeS => "i64x2.le_s",
            Opcode::I64x2GeS => "i64x2.ge_s",
            Opcode::I64x2ExtmulLowI32x4S => "i64x2.extmul_low_i32x4_s",
            Opcode::I64x2ExtmulHighI32x4S => "i64x2.extmul_high_i32x4_s",
            Opcode::I64x2ExtmulLowI32x4U => "i64x2.extmul_low_i32x4_u",
            Opcode::I64x2ExtmulHighI32x4U => "i64x2.extmul_high_i32x4_u",
            Opcode::F32x4Abs => "f32x4.abs",
            Opcode::F32x4Neg => "f32x4.neg",
            Opcode::F32x4Sqrt => "f32x4.sqrt",
            Opcode::F32x4Add => "f32x4.add",
            Opcode::F32x4Sub => "f32x4.sub",
            Opcode::F32x4Mul => "f32x4.mul",
            Opcode::F32x4Div => "f32x4.div",
            Opcode::F32x4Min => "f32x4.min",
            Opcode::F32x4Max => "f32x4.max",
            Opcode::F32x4Pmin => "f32x4.pmin",
            Opcode::F32x4Pmax => "f32x4.pmax",
            Opcode::F64x2Abs => "f64x2.abs",
            Opcode::F64x2Neg => "f64x2.neg",
            Opcode::F64x2Sqrt => "f64x2.sqrt",
            Opcode::F64x2Add => "f64x2.add",
            Opcode::F64x2Sub => "f64x2.sub",
            Opcode::F64x2Mul => "f64x2.mul",
            Opcode::F64x2Div => "f64x2.div",
            Opcode::F64x2Min => "f64x2.min",
            Opcode::F64x2Max => "f64x2.max",
            Opcode::F64x2Pmin => "f64x2.pmin",
            Opcode::F64x2Pmax => "f64x2.pmax",
            Opcode::I32x4TruncSatF32x4S => "i32x4.trunc_sat_f32x4_s",
            Opcode::I32x4TruncSatF32x4U => "i32x4.trunc_sat_f32x4_u",
            Opcode::F32x4ConvertI32x4S => "f32x4.convert_i32x4_s",
            Opcode::F32x4ConvertI32x4U => "f32x4.convert_i32x4_u",
            Opcode::I32x4TruncSatF64x2SZero => "i32x4.trunc_sat_f64x2_s_zero",
            Opcode::I32x4TruncSatF64x2UZero => "i32x4.trunc_sat_f64x2_u_zero",
            Opcode::F64x2ConvertLowI32x4S => "f64x2.convert_low_i32x4_s",
            Opcode::F64x2ConvertLowI32x4U => "f64x2.convert_low_i32x4_u",
            Opcode::ReturnCall => "return_call",
            Opcode::ReturnCallIndirect => "return_call_indirect",
            Opcode::MemoryAtomicNotify => "memory.atomic.notify",
            Opcode::MemoryAtomicWait32 => "memory.atomic.wait32",
            Opcode::MemoryAtomicWait64 => "memory.atomic.wait64",
            Opcode::I32AtomicLoad => "i32.atomic.load",
            Opcode::I64AtomicLoad => "i64.atomic.load",
            Opcode::I32AtomicLoad8U => "i32.atomic.load8_u",
            Opcode::I32AtomicLoad16U => "i32.atomic.load16_u",
            Opcode::I64AtomicLoad8U => "i64.atomic.load8_u",
            Opcode::I64AtomicLoad16U => "i64.atomic.load16_u",
            Opcode::I64AtomicLoad32U => "i64.atomic.load32_u",
            Opcode::I32AtomicStore => "i32.atomic.store",
            Opcode::I64AtomicStore => "i64.atomic.store",
            Opcode::I32AtomicStore8U => "i32.atomic.store8_u",
            Opcode::I32AtomicStore16U => "i32.atomic.store16_u",
            Opcode::I64AtomicStore8U => "i64.atomic.store8_u",
            Opcode::I64AtomicStore16U => "i64.atomic.store16_u",
            Opcode::I64AtomicStore32U => "i64.atomic.store32_u",
            Opcode::I32AtomicRmwAdd => "i32.atomic.rmw.add",
            Opcode::I64AtomicRmwAdd => "i64.atomic.rmw.add",
            Opcode::I32AtomicRmw8AddU => "i32.atomic.rmw8.add_u",
            Opcode::I32AtomicRmw16AddU => "i32.atomic.rmw16.add_u",
            Opcode::I64AtomicRmw8AddU => "i64.atomic.rmw8.add_u",
            Opcode::I64AtomicRmw16AddU => "i64.atomic.rmw16.add_u",
            Opcode::I64AtomicRmw32AddU => "i64.atomic.rmw32.add_u",
            Opcode::I32AtomicRmwSub => "i32.atomic.rmw.sub",
            Opcode::I64AtomicRmwSub => "i64.atomic.rmw.sub",
            Opcode::I32AtomicRmw8SubU => "i32.atomic.rmw8.sub_u",
            Opcode::I32AtomicRmw16SubU => "i32.atomic.rmw16.sub_u",
            Opcode::I64AtomicRmw8SubU => "i64.atomic.rmw8.sub_u",
            Opcode::I64AtomicRmw16SubU => "i64.atomic.rmw16.sub_u",
            Opcode::I64AtomicRmw32SubU => "i64.atomic.rmw32.sub_u",
            Opcode::I32AtomicRmwAnd => "i32.atomic.rmw.and",
            Opcode::I64AtomicRmwAnd => "i64.atomic.rmw.and",
            Opcode::I32AtomicRmw8AndU => "i32.atomic.rmw8.and_u",
            Opcode::I32AtomicRmw16AndU => "i32.atomic.rmw16.and_u",
            Opcode::I64AtomicRmw8AndU => "i64.atomic.rmw8.and_u",
            Opcode::I64AtomicRmw16AndU => "i64.atomic.rmw16.and_u",
            Opcode::I64AtomicRmw32AndU => "i64.atomic.rmw32.and_u",
            Opcode::I32AtomicRmwOr => "i32.atomic.rmw.or",
            Opcode::I64AtomicRmwOr => "i64.atomic.rmw.or",
            Opcode::I32AtomicRmw8OrU => "i32.atomic.rmw8.or_u",
            Opcode::I32AtomicRmw16OrU => "i32.atomic.rmw16.or_u",
            Opcode::I64AtomicRmw8OrU => "i64.atomic.rmw8.or_u",
            Opcode::I64AtomicRmw16OrU => "i64.atomic.rmw16.or_u",
            Opcode::I64AtomicRmw32OrU => "i64.atomic.rmw32.or_u",
            Opcode::I32AtomicRmwXor => "i32.atomic.rmw.xor",
            Opcode::I64AtomicRmwXor => "i64.atomic.rmw.xor",
            Opcode::I32AtomicRmw8XorU => "i32.atomic.rmw8.xor_u",
            Opcode::I32AtomicRmw16XorU => "i32.atomic.rmw16.xor_u",
            Opcode::I64AtomicRmw8XorU => "i64.atomic.rmw8.xor_u",
            Opcode::I64AtomicRmw16XorU => "i64.atomic.rmw16.xor_u",
            Opcode::I64AtomicRmw32XorU => "i64.atomic.rmw32.xor_u",
            Opcode::I32AtomicRmwXchg => "i32.atomic.rmw.xchg",
            Opcode::I64AtomicRmwXchg => "i64.atomic.rmw.xchg",
            Opcode::I32AtomicRmw8XchgU => "i32.atomic.rmw8.xchg_u",
            Opcode::I32AtomicRmw16XchgU => "i32.atomic.rmw16.xchg_u",
            Opcode::I64AtomicRmw8XchgU => "i64.atomic.rmw8.xchg_u",
            Opcode::I64AtomicRmw16XchgU => "i64.atomic.rmw16.xchg_u",
            Opcode::I64AtomicRmw32XchgU => "i64.atomic.rmw32.xchg_u",
            Opcode::I32AtomicRmwCmpxchg => "i32.atomic.rmw.cmpxchg",
            Opcode::I64AtomicRmwCmpxchg => "i64.atomic.rmw.cmpxchg",
            Opcode::I32AtomicRmw8CmpxchgU => "i32.atomic.rmw8.cmpxchg_u",
            Opcode::I32AtomicRmw16CmpxchgU => "i32.atomic.rmw16.cmpxchg_u",
            Opcode::I64AtomicRmw8CmpxchgU => "i64.atomic.rmw8.cmpxchg_u",
            Opcode::I64AtomicRmw16CmpxchgU => "i64.atomic.rmw16.cmpxchg_u",
            Opcode::I64AtomicRmw32CmpxchgU => "i64.atomic.rmw32.cmpxchg_u",
            Opcode::Try => "try",
            Opcode::Catch => "catch",
            Opcode::Throw => "throw",
            Opcode::Rethrow => "rethrow",
            Opcode::Delegate => "delegate",
            Opcode::CatchAll => "catch_all",
            Opcode::I8x16RelaxedSwizzle => "i8x16.relaxed_swizzle",
            Opcode::I32x4RelaxedTruncF32x4S => "i32x4.relaxed_trunc_f32x4_s",
            Opcode::I32x4RelaxedTruncF32x4U => "i32x4.relaxed_trunc_f32x4_u",
            Opcode::I32x4RelaxedTruncF64x2SZero => "i32x4.relaxed_trunc_f64x2_s_zero",
            Opcode::I32x4RelaxedTruncF64x2UZero => "i32x4.relaxed_trunc_f64x2_u_zero",
            Opcode::F32x4RelaxedMadd => "f32x4.relaxed_madd",
            Opcode::F32x4RelaxedNmadd => "f32x4.relaxed_nmadd",
            Opcode::F64x2RelaxedMadd => "f64x2.relaxed_madd",
            Opcode::F64x2RelaxedNmadd => "f64x2.relaxed_nmadd",
            Opcode::I8x16RelaxedLaneselect => "i8x16.relaxed_laneselect",
            Opcode::I16x8RelaxedLaneselect => "i16x8.relaxed_laneselect",
            Opcode::I32x4RelaxedLaneselect => "i32x4.relaxed_laneselect",
            Opcode::I64x2RelaxedLaneselect => "i64x2.relaxed_laneselect",
            Opcode::F32x4RelaxedMin => "f32x4.relaxed_min",
            Opcode::F32x4RelaxedMax => "f32x4.relaxed_max",
            Opcode::F64x2RelaxedMin => "f64x2.relaxed_min",
            Opcode::F64x2RelaxedMax => "f64x2.relaxed_max",
            Opcode::I16x8RelaxedQ15mulrS => "i16x8.relaxed_q15mulr_s",
            Opcode::I16x8RelaxedDotI8x16I7x16S => "i16x8.relaxed_dot_i8x16_i7x16_s",
            Opcode::I32x4RelaxedDotI8x16I7x16AddS => "i32x4.relaxed_dot_i8x16_i7x16_add_s",
        }
    }

    /// Gets the kind of immediate arguments that follow this opcode.
    pub fn immediate_kind(self) -> (r: ImmKind)
        ensures
            r == spec_immediate_kind(self),
    {
        match self {
            Opcode::Unreachable => ImmKind::NoArgs,
            Opcode::Nop => ImmKind::NoArgs,
            Opcode::Block => ImmKind::Block,
            Opcode::Loop => ImmKind::Block,
            Opcode::If => ImmKind::Block,
            Opcode::Else => ImmKind::NoArgs,
            Opcode::End => ImmKind::NoArgs,
            Opcode::Br => ImmKind::Label,
            Opcode::BrIf => ImmKind::Label,
            Opcode::BrTable => ImmKind::BrTable,
            Opcode::Return => ImmKind::NoArgs,
            Opcode::Call => ImmKind::Func,
            Opcode::CallIndirect => ImmKind::CallIndirect,
            Opcode::Drop => ImmKind::NoArgs,
            Opcode::Select => ImmKind::NoArgs,
            Opcode::SelectTyped => ImmKind::SelectTyped,
            Opcode::LocalGet => ImmKind::Local,
            Opcode::LocalSet => ImmKind::Local,
            Opcode::LocalTee => ImmKind::Local,
            Opcode::GlobalGet => ImmKind::Global,
            Opcode::GlobalSet => ImmKind::Global,
            Opcode::I32Load => ImmKind::Mem,
            Opcode::I64Load => ImmKind::Mem,
            Opcode::F32Load => ImmKind::Mem,
            Opcode::F64Load => ImmKind::Mem,
            Opcode::I32Load8S => ImmKind::Mem,
            Opcode::I32Load8U => ImmKind::Mem,
            Opcode::I32Load16S => ImmKind::Mem,
            Opcode::I32Load16U => ImmKind::Mem,
            Opcode::I64Load8S => ImmKind::Mem,
            Opcode::I64Load8U => ImmKind::Mem,
            Opcode::I64Load16S => ImmKind::Mem,
            Opcode::I64Load16U => ImmKind::Mem,
            Opcode::I64Load32S => ImmKind::Mem,
            Opcode::I64Load32U => ImmKind::Mem,
            Opcode::I32Store => ImmKind::Mem,
            Opcode::I64Store => ImmKind::Mem,
            Opcode::F32Store => ImmKind::Mem,
            Opcode::F64Store => ImmKind::Mem,
            Opcode::I32Store8 => ImmKind::Mem,
            Opcode::I32Store16 => ImmKind::Mem,
            Opcode::I64Store8 => ImmKind::Mem,
            Opcode::I64Store16 => ImmKind::Mem,
            Opcode::I64Store32 => ImmKind::Mem,
            Opcode::MemorySize => ImmKind::Memory,
            Opcode::MemoryGrow => ImmKind::Memory,
            Opcode::I32Const => ImmKind::I32,
            Opcode::I64Const => ImmKind::I64,
            Opcode::F32Const => ImmKind::F32,
            Opcode::F64Const => ImmKind::F64,
            Opcode::I32Eqz => ImmKind::NoArgs,
            Opcode::I32Eq => ImmKind::NoArgs,
            Opcode::I32Ne => ImmKind::NoArgs,
            Opcode::I32LtS => ImmKind::NoArgs,
            Opcode::I32LtU => ImmKind::NoArgs,
            Opcode::I32GtS => ImmKind::NoArgs,
            Opcode::I32GtU => ImmKind::NoArgs,
            Opcode::I32LeS => ImmKind::NoArgs,
            Opcode::I32LeU => ImmKind::NoArgs,
            Opcode::I32GeS => ImmKind::NoArgs,
            Opcode::I32GeU => ImmKind::NoArgs,
            Opcode::I64Eqz => ImmKind::NoArgs,
            Opcode::I64Eq => ImmKind::NoArgs,
            Opcode::I64Ne => ImmKind::NoArgs,
            Opcode::I64LtS => ImmKind::NoArgs,
            Opcode::I64LtU => ImmKind::NoArgs,
            Opcode::I64GtS => ImmKind::NoArgs,
            Opcode::I64GtU => ImmKind::NoArgs,
            Opcode::I64LeS => ImmKind::NoArgs,
            Opcode::I64LeU => ImmKind::NoArgs,
            Opcode::I64GeS => ImmKind::NoArgs,
            Opcode::I64GeU => ImmKind::NoArgs,
            Opcode::F32Eq => ImmKind::NoArgs,
            Opcode::F32Ne => ImmKind::NoArgs,
            Opcode::F32Lt => ImmKind::NoArgs,
            Opcode::F32Gt => ImmKind::NoArgs,
            Opcode::F32Le => ImmKind::NoArgs,
            Opcode::F32Ge => ImmKind::NoArgs,
            Opcode::F64Eq => ImmKind::NoArgs,
            Opcode::F64Ne => ImmKind::NoArgs,
            Opcode::F64Lt => ImmKind::NoArgs,
            Opcode::F64Gt => ImmKind::NoArgs,
            Opcode::F64Le => ImmKind::NoArgs,
            Opcode::F64Ge => ImmKind::NoArgs,
            Opcode::I32Clz => ImmKind::NoArgs,
            Opcode::I32Ctz => ImmKind::NoArgs,
            Opcode::I32Popcnt => ImmKind::NoArgs,
            Opcode::I32Add => ImmKind::NoArgs,
            Opcode::I32Sub => ImmKind::NoArgs,
            Opcode::I32Mul => ImmKind::NoArgs,
            Opcode::I32DivS => ImmKind::NoArgs,
            Opcode::I32DivU => ImmKind::NoArgs,
            Opcode::I32RemS => ImmKind::NoArgs,
            Opcode::I32RemU => ImmKind::NoArgs,
            Opcode::I32And => ImmKind::NoArgs,
            Opcode::I32Or => ImmKind::NoArgs,
            Opcode::I32Xor => ImmKind::NoArgs,
            Opcode::I32Shl => ImmKind::NoArgs,
            Opcode::I32ShrS => ImmKind::NoArgs,
            Opcode::I32ShrU => ImmKind::NoArgs,
            Opcode::I32Rotl => ImmKind::NoArgs,
            Opcode::I32Rotr => ImmKind::NoArgs,
            Opcode::I64Clz => ImmKind::NoArgs,
            Opcode::I64Ctz => ImmKind::NoArgs,
            Opcode::I64Popcnt => ImmKind::NoArgs,
            Opcode::I64Add => ImmKind::NoArgs,
            Opcode::I64Sub => ImmKind::NoArgs,
            Opcode::I64Mul => ImmKind::NoArgs,
            Opcode::I64DivS => ImmKind::NoArgs,
            Opcode::I64DivU => ImmKind::NoArgs,
            Opcode::I64RemS => ImmKind::NoArgs,
            Opcode::I64RemU => ImmKind::NoArgs,
            Opcode::I64And => ImmKind::NoArgs,
            Opcode::I64Or => ImmKind::NoArgs,
            Opcode::I64Xor => ImmKind::NoArgs,
            Opcode::I64Shl => ImmKind::NoArgs,
            Opcode::I64ShrS => ImmKind::NoArgs,
            Opcode::I64ShrU => ImmKind::NoArgs,
            Opcode::I64Rotl => ImmKind::NoArgs,
            Opcode::I64Rotr => ImmKind::NoArgs,
            Opcode::F32Abs => ImmKind::NoArgs,
            Opcode::F32Neg => ImmKind::NoArgs,
            Opcode::F32Ceil => ImmKind::NoArgs,
            Opcode::F32Floor => ImmKind::NoArgs,
            Opcode::F32Trunc => ImmKind::NoArgs,
            Opcode::F32Nearest => ImmKind::NoArgs,
            Opcode::F32Sqrt => ImmKind::NoArgs,
            Opcode::F32Add => ImmKind::NoArgs,
            Opcode::F32Sub => ImmKind::NoArgs,
            Opcode::F32Mul => ImmKind::NoArgs,
            Opcode::F32Div => ImmKind::NoArgs,
            Opcode::F32Min => ImmKind::NoArgs,
            Opcode::F32Max => ImmKind::NoArgs,
            Opcode::F32Copysign => ImmKind::NoArgs,
            Opcode::F64Abs => ImmKind::NoArgs,
            Opcode::F64Neg => ImmKind::NoArgs,
            Opcode::F64Ceil => ImmKind::NoArgs,
            Opcode::F64Floor => ImmKind::NoArgs,
            Opcode::F64Trunc => ImmKind::NoArgs,
            Opcode::F64Nearest => ImmKind::NoArgs,
            Opcode::F64Sqrt => ImmKind::NoArgs,
            Opcode::F64Add => ImmKind::NoArgs,
            Opcode::F64Sub => ImmKind::NoArgs,
            Opcode::F64Mul => ImmKind::NoArgs,
            Opcode::F64Div => ImmKind::NoArgs,
            Opcode::F64Min => ImmKind::NoArgs,
            Opcode::F64Max => ImmKind::NoArgs,
            Opcode::F64Copysign => ImmKind::NoArgs,
            Opcode::I32WrapI64 => ImmKind::NoArgs,
            Opcode::I32TruncF32S => ImmKind::NoArgs,
            Opcode::I32TruncF32U => ImmKind::NoArgs,
            Opcode::I32TruncF64S => ImmKind::NoArgs,
            Opcode::I32TruncF64U => ImmKind::NoArgs,
            Opcode::I64ExtendI32S => ImmKind::NoArgs,
            Opcode::I64ExtendI32U => ImmKind::NoArgs,
            Opcode::I64TruncF32S => ImmKind::NoArgs,
            Opcode::I64TruncF32U => ImmKind::NoArgs,
            Opcode::I64TruncF64S => ImmKind::NoArgs,
            Opcode::I64TruncF64U => ImmKind::NoArgs,
            Opcode::F32ConvertI32S => ImmKind::NoArgs,
            Opcode::F32ConvertI32U => ImmKind::NoArgs,
            Opcode::F32ConvertI64S => ImmKind::NoArgs,
            Opcode::F32ConvertI64U => ImmKind::NoArgs,
            Opcode::F32DemoteF64 => ImmKind::NoArgs,
            Opcode::F64ConvertI32S => ImmKind::NoArgs,
            Opcode::F64ConvertI32U => ImmKind::NoArgs,
            Opcode::F64ConvertI64S => ImmKind::NoArgs,
            Opcode::F64ConvertI64U => ImmKind::NoArgs,
            Opcode::F64PromoteF32 => ImmKind::NoArgs,
            Opcode::I32ReinterpretF32 => ImmKind::NoArgs,
            Opcode::I64ReinterpretF64 => ImmKind::NoArgs,
            Opcode::F32ReinterpretI32 => ImmKind::NoArgs,
            Opcode::F64ReinterpretI64 => ImmKind::NoArgs,
            Opcode::I32TruncSatF32S => ImmKind::NoArgs,
            Opcode::I32TruncSatF32U => ImmKind::NoArgs,
            Opcode::I32TruncSatF64S => ImmKind::NoArgs,
            Opcode::I32TruncSatF64U => ImmKind::NoArgs,
            Opcode::I64TruncSatF32S => ImmKind::NoArgs,
            Opcode::I64TruncSatF32U => ImmKind::NoArgs,
            Opcode::I64TruncSatF64S => ImmKind::NoArgs,
            Opcode::I64TruncSatF64U => ImmKind::NoArgs,
            Opcode::I32Extend8S => ImmKind::NoArgs,
            Opcode::I32Extend16S => ImmKind::NoArgs,
            Opcode::I64Extend8S => ImmKind::NoArgs,
            Opcode::I64Extend16S => ImmKind::NoArgs,
            Opcode::I64Extend32S => ImmKind::NoArgs,
            Opcode::MemoryCopy => ImmKind::MemoryCopy,
            Opcode::MemoryFill => ImmKind::Memory,
            Opcode::MemoryInit => ImmKind::MemoryInit,
            Opcode::DataDrop => ImmKind::Data,
            Opcode::TableCopy => ImmKind::TableCopy,
            Opcode::TableInit => ImmKind::TableInit,
            Opcode::ElemDrop => ImmKind::Elem,
            Opcode::RefNull => ImmKind::RefType,
            Opcode::RefIsNull => ImmKind::NoArgs,
            Opcode::RefFunc => ImmKind::Func,
            Opcode::TableGet => ImmKind::Table,
            Opcode::TableSet => ImmKind::Table,
            Opcode::TableSize => ImmKind::Table,
            Opcode::TableGrow => ImmKind::Table,
            Opcode::TableFill => ImmKind::Table,
            Opcode::V128Load => ImmKind::Mem,
            Opcode::V128Load8x8S => ImmKind::Mem,
            Opcode::V128Load8x8U => ImmKind::Mem,
            Opcode::V128Load16x4S => ImmKind::Mem,
            Opcode::V128Load16x4U => ImmKind::Mem,
            Opcode::V128Load32x2S => ImmKind::Mem,
            Opcode::V128Load32x2U => ImmKind::Mem,
            Opcode::V128Load8Splat => ImmKind::Mem,
            Opcode::V128Load16Splat => ImmKind::Mem,
            Opcode::V128Load32Splat => ImmKind::Mem,
            Opcode::V128Load64Splat => ImmKind::Mem,
            Opcode::V128Load32Zero => ImmKind::Mem,
            Opcode::V128Load64Zero => ImmKind::Mem,
            Opcode::V128Store => ImmKind::Mem,
            Opcode::V128Load8Lane => ImmKind::MemLane,
            Opcode::V128Load16Lane => ImmKind::MemLane,
            Opcode::V128Load32Lane => ImmKind::MemLane,
            Opcode::V128Load64Lane => ImmKind::MemLane,
            Opcode::V128Store8Lane => ImmKind::MemLane,
            Opcode::V128Store16Lane => ImmKind::MemLane,
            Opcode::V128Store32Lane => ImmKind::MemLane,
            Opcode::V128Store64Lane => ImmKind::MemLane,
            Opcode::V128Const => ImmKind::V128,
            Opcode::I8x16Shuffle => ImmKind::Shuffle,
            Opcode::I8x16Swizzle => ImmKind::NoArgs,
            Opcode::I8x16Splat => ImmKind::NoArgs,
            Opcode::I16x8Splat => ImmKind::NoArgs,
            Opcode::I32x4Splat => ImmKind::NoArgs,
            Opcode::I64x2Splat => ImmKind::NoArgs,
            Opcode::F32x4Splat => ImmKind::NoArgs,
            Opcode::F64x2Splat => ImmKind::NoArgs,
            Opcode::I8x16ExtractLaneS => ImmKind::Lane,
            Opcode::I8x16ExtractLaneU => ImmKind::Lane,
            Opcode::I8x16ReplaceLane => ImmKind::Lane,
            Opcode::I16x8ExtractLaneS => ImmKind::Lane,
            Opcode::I16x8ExtractLaneU => ImmKind::Lane,
            Opcode::I16x8ReplaceLane => ImmKind::Lane,
            Opcode::I32x4ExtractLane => ImmKind::Lane,
            Opcode::I32x4ReplaceLane => ImmKind::Lane,
            Opcode::I64x2ExtractLane => ImmKind::Lane,
            Opcode::I64x2ReplaceLane => ImmKind::Lane,
            Opcode::F32x4ExtractLane => ImmKind::Lane,
            Opcode::F32x4ReplaceLane => ImmKind::Lane,
            Opcode::F64x2ExtractLane => ImmKind::Lane,
            Opcode::F64x2ReplaceLane => ImmKind::Lane,
            Opcode::I8x16Eq => ImmKind::NoArgs,
            Opcode::I8x16Ne => ImmKind::NoArgs,
            Opcode::I8x16LtS => ImmKind::NoArgs,
            Opcode::I8x16LtU => ImmKind::NoArgs,
            Opcode::I8x16GtS => ImmKind::NoArgs,
            Opcode::I8x16GtU => ImmKind::NoArgs,
            Opcode::I8x16LeS => ImmKind::NoArgs,
            Opcode::I8x16LeU => ImmKind::NoArgs,
            Opcode::I8x16GeS => ImmKind::NoArgs,
            Opcode::I8x16GeU => ImmKind::NoArgs,
            Opcode::I16x8Eq => ImmKind::NoArgs,
            Opcode::I16x8Ne => ImmKind::NoArgs,
            Opcode::I16x8LtS => ImmKind::NoArgs,
            Opcode::I16x8LtU => ImmKind::NoArgs,
            Opcode::I16x8GtS => ImmKind::NoArgs,
            Opcode::I16x8GtU => ImmKind::NoArgs,
            Opcode::I16x8LeS => ImmKind::NoArgs,
            Opcode::I16x8LeU => ImmKind::NoArgs,
            Opcode::I16x8GeS => ImmKind::NoArgs,
            Opcode::I16x8GeU => ImmKind::NoArgs,
            Opcode::I32x4Eq => ImmKind::NoArgs,
            Opcode::I32x4Ne => ImmKind::NoArgs,
            Opcode::I32x4LtS => ImmKind::NoArgs,
            Opcode::I32x4LtU => ImmKind::NoArgs,
            Opcode::I32x4GtS => ImmKind::NoArgs,
            Opcode::I32x4GtU => ImmKind::NoArgs,
            Opcode::I32x4LeS => ImmKind::NoArgs,
            Opcode::I32x4LeU => ImmKind::NoArgs,
            Opcode::I32x4GeS => ImmKind::NoArgs,
            Opcode::I32x4GeU => ImmKind::NoArgs,
            Opcode::F32x4Eq => ImmKind::NoArgs,
            Opcode::F32x4Ne => ImmKind::NoArgs,
            Opcode::F32x4Lt => ImmKind::NoArgs,
            Opcode::F32x4Gt => ImmKind::NoArgs,
            Opcode::F32x4Le => ImmKind::NoArgs,
            Opcode::F32x4Ge => ImmKind::NoArgs,
            Opcode::F64x2Eq => ImmKind::NoArgs,
            Opcode::F64x2Ne => ImmKind::NoArgs,
            Opcode::F64x2Lt => ImmKind::NoArgs,
            Opcode::F64x2Gt => ImmKind::NoArgs,
            Opcode::F64x2Le => ImmKind::NoArgs,
            Opcode::F64x2Ge => ImmKind::NoArgs,
            Opcode::V128Not => ImmKind::NoArgs,
            Opcode::V128And => ImmKind::NoArgs,
            Opcode::V128AndNot => ImmKind::NoArgs,
            Opcode::V128Or => ImmKind::NoArgs,
            Opcode::V128Xor => ImmKind::NoArgs,
            Opcode::V128Bitselect => ImmKind::NoArgs,
            Opcode::V128AnyTrue => ImmKind::NoArgs,
            Opcode::F32x4DemoteF64x2Zero => ImmKind::NoArgs,
            Opcode::F64x2PromoteLowF32x4 => ImmKind::NoArgs,
            Opcode::I8x16Abs => ImmKind::NoArgs,
            Opcode::I8x16Neg => ImmKind::NoArgs,
            Opcode::I8x16Popcnt => ImmKind::NoArgs,
            Opcode::I8x16AllTrue => ImmKind::NoArgs,
            Opcode::I8x16Bitmask => ImmKind::NoArgs,
            Opcode::I8x16NarrowI16x8S => ImmKind::NoArgs,
            Opcode::I8x16NarrowI16x8U => ImmKind::NoArgs,
            Opcode::F32x4Ceil => ImmKind::NoArgs,
            Opcode::F32x4Floor => ImmKind::NoArgs,
            Opcode::F32x4Trunc => ImmKind::NoArgs,
            Opcode::F32x4Nearest => ImmKind::NoArgs,
            Opcode::I8x16Shl => ImmKind::NoArgs,
            Opcode::I8x16ShrS => ImmKind::NoArgs,
            Opcode::I8x16ShrU => ImmKind::NoArgs,
            Opcode::I8x16Add => ImmKind::NoArgs,
            Opcode::I8x16AddSatS => ImmKind::NoArgs,
            Opcode::I8x16AddSatU => ImmKind::NoArgs,
            Opcode::I8x16Sub => ImmKind::NoArgs,
            Opcode::I8x16SubSatS => ImmKind::NoArgs,
            Opcode::I8x16SubSatU => ImmKind::NoArgs,
            Opcode::F64x2Ceil => ImmKind::NoArgs,
            Opcode::F64x2Floor => ImmKind::NoArgs,
            Opcode::I8x16MinS => ImmKind::NoArgs,
            Opcode::I8x16MinU => ImmKind::NoArgs,
            Opcode::I8x16MaxS => ImmKind::NoArgs,
            Opcode::I8x16MaxU => ImmKind::NoArgs,
            Opcode::F64x2Trunc => ImmKind::NoArgs,
            Opcode::I8x16AvgrU => ImmKind::NoArgs,
            Opcode::I16x8ExtaddPairwiseI8x16S => ImmKind::NoArgs,
            Opcode::I16x8ExtaddPairwiseI8x16U => ImmKind::NoArgs,
            Opcode::I32x4ExtaddPairwiseI16x8S => ImmKind::NoArgs,
            Opcode::I32x4ExtaddPairwiseI16x8U => ImmKind::NoArgs,
            Opcode::I16x8Abs => ImmKind::NoArgs,
            Opcode::I16x8Neg => ImmKind::NoArgs,
            Opcode::I16x8Q15mulrSatS => ImmKind::NoArgs,
            Opcode::I16x8AllTrue => ImmKind::NoArgs,
            Opcode::I16x8Bitmask => ImmKind::NoArgs,
            Opcode::I16x8NarrowI32x4S => ImmKind::NoArgs,
            Opcode::I16x8NarrowI32x4U => ImmKind::NoArgs,
            Opcode::I16x8ExtendLowI8x16S => ImmKind::NoArgs,
            Opcode::I16x8ExtendHighI8x16S => ImmKind::NoArgs,
            Opcode::I16x8ExtendLowI8x16U => ImmKind::NoArgs,
            Opcode::I16x8ExtendHighI8x16U => ImmKind::NoArgs,
            Opcode::I16x8Shl => ImmKind::NoArgs,
            Opcode::I16x8ShrS => ImmKind::NoArgs,
            Opcode::I16x8ShrU => ImmKind::NoArgs,
            Opcode::I16x8Add => ImmKind::NoArgs,
            Opcode::I16x8AddSatS => ImmKind::NoArgs,
            Opcode::I16x8AddSatU => ImmKind::NoArgs,
            Opcode::I16x8Sub => ImmKind::NoArgs,
            Opcode::I16x8SubSatS => ImmKind::NoArgs,
            Opcode::I16x8SubSatU => ImmKind::NoArgs,
            Opcode::F64x2Nearest => ImmKind::NoArgs,
            Opcode::I16x8Mul => ImmKind::NoArgs,
            Opcode::I16x8MinS => ImmKind::NoArgs,
            Opcode::I16x8MinU => ImmKind::NoArgs,
            Opcode::I16x8MaxS => ImmKind::NoArgs,
            Opcode::I16x8MaxU => ImmKind::NoArgs,
            Opcode::I16x8AvgrU => ImmKind::NoArgs,
            Opcode::I16x8ExtmulLowI8x16S => ImmKind::NoArgs,
            Opcode::I16x8ExtmulHighI8x16S => ImmKind::NoArgs,
            Opcode::I16x8ExtmulLowI8x16U => ImmKind::NoArgs,
            Opcode::I16x8ExtmulHighI8x16U => ImmKind::NoArgs,
            Opcode::I32x4Abs => ImmKind::NoArgs,
            Opcode::I32x4Neg => ImmKind::NoArgs,
            Opcode::I32x4AllTrue => ImmKind::NoArgs,
            Opcode::I32x4Bitmask => ImmKind::NoArgs,
            Opcode::I32x4ExtendLowI16x8S => ImmKind::NoArgs,
            Opcode::I32x4ExtendHighI16x8S => ImmKind::NoArgs,
            Opcode::I32x4ExtendLowI16x8U => ImmKind::NoArgs,
            Opcode::I32x4ExtendHighI16x8U => ImmKind::NoArgs,
            Opcode::I32x4Shl => ImmKind::NoArgs,
            Opcode::I32x4ShrS => ImmKind::NoArgs,
            Opcode::I32x4ShrU => ImmKind::NoArgs,
            Opcode::I32x4Add => ImmKind::NoArgs,
            Opcode::I32x4Sub => ImmKind::NoArgs,
            Opcode::I32x4Mul => ImmKind::NoArgs,
            Opcode::I32x4MinS => ImmKind::NoArgs,
            Opcode::I32x4MinU => ImmKind::NoArgs,
            Opcode::I32x4MaxS => ImmKind::NoArgs,
            Opcode::I32x4MaxU => ImmKind::NoArgs,
            Opcode::I32x4DotI16x8S => ImmKind::NoArgs,
            Opcode::I32x4ExtmulLowI16x8S => ImmKind::NoArgs,
            Opcode::I32x4ExtmulHighI16x8S => ImmKind::NoArgs,
            Opcode::I32x4ExtmulLowI16x8U => ImmKind::NoArgs,
            Opcode::I32x4ExtmulHighI16x8U => ImmKind::NoArgs,
            Opcode::I64x2Abs => ImmKind::NoArgs,
            Opcode::I64x2Neg => ImmKind::NoArgs,
            Opcode::I64x2AllTrue => ImmKind::NoArgs,
            Opcode::I64x2Bitmask => ImmKind::NoArgs,
            Opcode::I64x2ExtendLowI32x4S => ImmKind::NoArgs,
            Opcode::I64x2ExtendHighI32x4S => ImmKind::NoArgs,
            Opcode::I64x2ExtendLowI32x4U => ImmKind::NoArgs,
            Opcode::I64x2ExtendHighI32x4U => ImmKind::NoArgs,
            Opcode::I64x2Shl => ImmKind::NoArgs,
            Opcode::I64x2ShrS => ImmKind::NoArgs,
            Opcode::I64x2ShrU => ImmKind::NoArgs,
            Opcode::I64x2Add => ImmKind::NoArgs,
            Opcode::I64x2Sub => ImmKind::NoArgs,
            Opcode::I64x2Mul => ImmKind::NoArgs,
            Opcode::I64x2Eq => ImmKind::NoArgs,
            Opcode::I64x2Ne => ImmKind::NoArgs,
            Opcode::I64x2LtS => ImmKind::NoArgs,
            Opcode::I64x2GtS => ImmKind::NoArgs,
            Opcode::I64x2LeS => ImmKind::NoArgs,
            Opcode::I64x2GeS => ImmKind::NoArgs,
            Opcode::I64x2ExtmulLowI32x4S => ImmKind::NoArgs,
            Opcode::I64x2ExtmulHighI32x4S => ImmKind::NoArgs,
            Opcode::I64x2ExtmulLowI32x4U => ImmKind::NoArgs,
            Opcode::I64x2ExtmulHighI32x4U => ImmKind::NoArgs,
            Opcode::F32x4Abs => ImmKind::NoArgs,
            Opcode::F32x4Neg => ImmKind::NoArgs,
            Opcode::F32x4Sqrt => ImmKind::NoArgs,
            Opcode::F32x4Add => ImmKind::NoArgs,
            Opcode::F32x4Sub => ImmKind::NoArgs,
            Opcode::F32x4Mul => ImmKind::NoArgs,
            Opcode::F32x4Div => ImmKind::NoArgs,
            Opcode::F32x4Min => ImmKind::NoArgs,
            Opcode::F32x4Max => ImmKind::NoArgs,
            Opcode::F32x4Pmin => ImmKind::NoArgs,
            Opcode::F32x4Pmax => ImmKind::NoArgs,
            Opcode::F64x2Abs => ImmKind::NoArgs,
            Opcode::F64x2Neg => ImmKind::NoArgs,
            Opcode::F64x2Sqrt => ImmKind::NoArgs,
            Opcode::F64x2Add => ImmKind::NoArgs,
            Opcode::F64x2Sub => ImmKind::NoArgs,
            Opcode::F64x2Mul => ImmKind::NoArgs,
            Opcode::F64x2Div => ImmKind::NoArgs,
            Opcode::F64x2Min => ImmKind::NoArgs,
            Opcode::F64x2Max => ImmKind::NoArgs,
            Opcode::F64x2Pmin => ImmKind::NoArgs,
            Opcode::F64x2Pmax => ImmKind::NoArgs,
            Opcode::I32x4TruncSatF32x4S => ImmKind::NoArgs,
            Opcode::I32x4TruncSatF32x4U => ImmKind::NoArgs,
            Opcode::F32x4ConvertI32x4S => ImmKind::NoArgs,
            Opcode::F32x4ConvertI32x4U => ImmKind::NoArgs,
            Opcode::I32x4TruncSatF64x2SZero => ImmKind::NoArgs,
            Opcode::I32x4TruncSatF64x2UZero => ImmKind::NoArgs,
            Opcode::F64x2ConvertLowI32x4S => ImmKind::NoArgs,
            Opcode::F64x2ConvertLowI32x4U => ImmKind::NoArgs,
            Opcode::ReturnCall => ImmKind::Func,
            Opcode::ReturnCallIndirect => ImmKind::CallIndirect,
            Opcode::MemoryAtomicNotify => ImmKind::Mem,
            Opcode::MemoryAtomicWait32 => ImmKind::Mem,
            Opcode::MemoryAtomicWait64 => ImmKind::Mem,
            Opcode::I32AtomicLoad => ImmKind::Mem,
            Opcode::I64AtomicLoad => ImmKind::Mem,
            Opcode::I32AtomicLoad8U => ImmKind::Mem,
            Opcode::I32AtomicLoad16U => ImmKind::Mem,
            Opcode::I64AtomicLoad8U => ImmKind::Mem,
            Opcode::I64AtomicLoad16U => ImmKind::Mem,
            Opcode::I64AtomicLoad32U => ImmKind::Mem,
            Opcode::I32AtomicStore => ImmKind::Mem,
            Opcode::I64AtomicStore => ImmKind::Mem,
            Opcode::I32AtomicStore8U => ImmKind::Mem,
            Opcode::I32AtomicStore16U => ImmKind::Mem,
            Opcode::I64AtomicStore8U => ImmKind::Mem,
            Opcode::I64AtomicStore16U => ImmKind::Mem,
            Opcode::I64AtomicStore32U => ImmKind::Mem,
            Opcode::I32AtomicRmwAdd => ImmKind::Mem,
            Opcode::I64AtomicRmwAdd => ImmKind::Mem,
            Opcode::I32AtomicRmw8AddU => ImmKind::Mem,
            Opcode::I32AtomicRmw16AddU => ImmKind::Mem,
            Opcode::I64AtomicRmw8AddU => ImmKind::Mem,
            Opcode::I64AtomicRmw16AddU => ImmKind::Mem,
            Opcode::I64AtomicRmw32AddU => ImmKind::Mem,
            Opcode::I32AtomicRmwSub => ImmKind::Mem,
            Opcode::I64AtomicRmwSub => ImmKind::Mem,
            Opcode::I32AtomicRmw8SubU => ImmKind::Mem,
            Opcode::I32AtomicRmw16SubU => ImmKind::Mem,
            Opcode::I64AtomicRmw8SubU => ImmKind::Mem,
            Opcode::I64AtomicRmw16SubU => ImmKind::Mem,
            Opcode::I64AtomicRmw32SubU => ImmKind::Mem,
            Opcode::I32AtomicRmwAnd => ImmKind::Mem,
            Opcode::I64AtomicRmwAnd => ImmKind::Mem,
            Opcode::I32AtomicRmw8AndU => ImmKind::Mem,
            Opcode::I32AtomicRmw16AndU => ImmKind::Mem,
            Opcode::I64AtomicRmw8AndU => ImmKind::Mem,
            Opcode::I64AtomicRmw16AndU => ImmKind::Mem,
            Opcode::I64AtomicRmw32AndU => ImmKind::Mem,
            Opcode::I32AtomicRmwOr => ImmKind::Mem,
            Opcode::I64AtomicRmwOr => ImmKind::Mem,
            Opcode::I32AtomicRmw8OrU => ImmKind::Mem,
            Opcode::I32AtomicRmw16OrU => ImmKind::Mem,
            Opcode::I64AtomicRmw8OrU => ImmKind::Mem,
            Opcode::I64AtomicRmw16OrU => ImmKind::Mem,
            Opcode::I64AtomicRmw32OrU => ImmKind::Mem,
            Opcode::I32AtomicRmwXor => ImmKind::Mem,
            Opcode::I64AtomicRmwXor => ImmKind::Mem,
            Opcode::I32AtomicRmw8XorU => ImmKind::Mem,
            Opcode::I32AtomicRmw16XorU => ImmKind::Mem,
            Opcode::I64AtomicRmw8XorU => ImmKind::Mem,
            Opcode::I64AtomicRmw16XorU => ImmKind::Mem,
            Opcode::I64AtomicRmw32XorU => ImmKind::Mem,
            Opcode::I32AtomicRmwXchg => ImmKind::Mem,
            Opcode::I64AtomicRmwXchg => ImmKind::Mem,
            Opcode::I32AtomicRmw8XchgU => ImmKind::Mem,
            Opcode::I32AtomicRmw16XchgU => ImmKind::Mem,
            Opcode::I64AtomicRmw8XchgU => ImmKind::Mem,
            Opcode::I64AtomicRmw16XchgU => ImmKind::Mem,
            Opcode::I64AtomicRmw32XchgU => ImmKind::Mem,
            Opcode::I32AtomicRmwCmpxchg => ImmKind::Mem,
            Opcode::I64AtomicRmwCmpxchg => ImmKind::Mem,
            Opcode::I32AtomicRmw8CmpxchgU => ImmKind::Mem,
            Opcode::I32AtomicRmw16CmpxchgU => ImmKind::Mem,
            Opcode::I64AtomicRmw8CmpxchgU => ImmKind::Mem,
            Opcode::I64AtomicRmw16CmpxchgU => ImmKind::Mem,
            Opcode::I64AtomicRmw32CmpxchgU => ImmKind::Mem,
            Opcode::Try => ImmKind::Block,
            Opcode::Catch => ImmKind::Tag,
            Opcode::Throw => ImmKind::Tag,
            Opcode::Rethrow => ImmKind::Label,
            Opcode::Delegate => ImmKind::Label,
            Opcode::CatchAll => ImmKind::NoArgs,
            Opcode::I8x16RelaxedSwizzle => ImmKind::NoArgs,
            Opcode::I32x4RelaxedTruncF32x4S => ImmKind::NoArgs,
            Opcode::I32x4RelaxedTruncF32x4U => ImmKind::NoArgs,
            Opcode::I32x4RelaxedTruncF64x2SZero => ImmKind::NoArgs,
            Opcode::I32x4RelaxedTruncF64x2UZero => ImmKind::NoArgs,
            Opcode::F32x4RelaxedMadd => ImmKind::NoArgs,
            Opcode::F32x4RelaxedNmadd => ImmKind::NoArgs,
            Opcode::F64x2RelaxedMadd => ImmKind::NoArgs,
            Opcode::F64x2RelaxedNmadd => ImmKind::NoArgs,
            Opcode::I8x16RelaxedLaneselect => ImmKind::NoArgs,
            Opcode::I16x8RelaxedLaneselect => ImmKind::NoArgs,
            Opcode::I32x4RelaxedLaneselect => ImmKind::NoArgs,
            Opcode::I64x2RelaxedLaneselect => ImmKind::NoArgs,
            Opcode::F32x4RelaxedMin => ImmKind::NoArgs,
            Opcode::F32x4RelaxedMax => ImmKind::NoArgs,
            Opcode::F64x2RelaxedMin => ImmKind::NoArgs,
            Opcode::F64x2RelaxedMax => ImmKind::NoArgs,
            Opcode::I16x8RelaxedQ15mulrS => ImmKind::NoArgs,
            Opcode::I16x8RelaxedDotI8x16I7x16S => ImmKind::NoArgs,
            Opcode::I32x4RelaxedDotI8x16I7x16AddS => ImmKind::NoArgs,
        }
    }

    /// Gets the natural alignment of the memory access made by this instruction, or `None` if it
    /// takes no memory argument.
    pub fn natural_align(self) -> (r: Option<Align>)
        ensures
            r == spec_natural_align(self),
    {
        match self {
            Opcode::I32Load => Some(Align::Four),
            Opcode::I64Load => Some(Align::Eight),
            Opcode::F32Load => Some(Align::Four),
            Opcode::F64Load => Some(Align::Eight),
            Opcode::I32Load8S => Some(Align::Any),
            Opcode::I32Load8U => Some(Align::Any),
            Opcode::I32Load16S => Some(Align::Two),
            Opcode::I32Load16U => Some(Align::Two),
            Opcode::I64Load8S => Some(Align::Any),
            Opcode::I64Load8U => Some(Align::Any),
            Opcode::I64Load16S => Some(Align::Two),
            Opcode::I64Load16U => Some(Align::Two),
            Opcode::I64Load32S => Some(Align::Four),
            Opcode::I64Load32U => Some(Align::Four),
            Opcode::I32Store => Some(Align::Four),
            Opcode::I64Store => Some(Align::Eight),
            Opcode::F32Store => Some(Align::Four),
            Opcode::F64Store => Some(Align::Eight),
            Opcode::I32Store8 => Some(Align::Any),
            Opcode::I32Store16 => Some(Align::Two),
            Opcode::I64Store8 => Some(Align::Any),
            Opcode::I64Store16 => Some(Align::Two),
            Opcode::I64Store32 => Some(Align::Four),
            Opcode::V128Load => Some(Align::Sixteen),
            Opcode::V128Load8x8S => Some(Align::Eight),
            Opcode::V128Load8x8U => Some(Align::Eight),
            Opcode::V128Load16x4S => Some(Align::Eight),
            Opcode::V128Load16x4U => Some(Align::Eight),
            Opcode::V128Load32x2S => Some(Align::Eight),
            Opcode::V128Load32x2U => Some(Align::Eight),
            Opcode::V128Load8Splat => Some(Align::Any),
            Opcode::V128Load16Splat => Some(Align::Two),
            Opcode::V128Load32Splat => Some(Align::Four),
            Opcode::V128Load64Splat => Some(Align::Eight),
            Opcode::V128Load32Zero => Some(Align::Four),
            Opcode::V128Load64Zero => Some(Align::Eight),
            Opcode::V128Store => Some(Align::Sixteen),
            Opcode::V128Load8Lane => Some(Align::Any),
            Opcode::V128Load16Lane => Some(Align::Two),
            Opcode::V128Load32Lane => Some(Align::Four),
            Opcode::V128Load64Lane => Some(Align::Eight),
            Opcode::V128Store8Lane => Some(Align::Any),
            Opcode::V128Store16Lane => Some(Align::Two),
            Opcode::V128Store32Lane => Some(Align::Four),
            Opcode::V128Store64Lane => Some(Align::Eight),
            Opcode::MemoryAtomicNotify => Some(Align::Four),
            Opcode::MemoryAtomicWait32 => Some(Align::Four),
            Opcode::MemoryAtomicWait64 => Some(Align::Eight),
            Opcode::I32AtomicLoad => Some(Align::Four),
            Opcode::I64AtomicLoad => Some(Align::Eight),
            Opcode::I32AtomicLoad8U => Some(Align::Any),
            Opcode::I32AtomicLoad16U => Some(Align::Two),
            Opcode::I64AtomicLoad8U => Some(Align::Any),
            Opcode::I64AtomicLoad16U => Some(Align::Two),
            Opcode::I64AtomicLoad32U => Some(Align::Four),
            Opcode::I32AtomicStore => Some(Align::Four),
            Opcode::I64AtomicStore => Some(Align::Eight),
            Opcode::I32AtomicStore8U => Some(Align::Any),
            Opcode::I32AtomicStore16U => Some(Align::Two),
            Opcode::I64AtomicStore8U => Some(Align::Any),
            Opcode::I64AtomicStore16U => Some(Align::Two),
            Opcode::I64AtomicStore32U => Some(Align::Four),
            Opcode::I32AtomicRmwAdd => Some(Align::Four),
            Opcode::I64AtomicRmwAdd => Some(Align::Eight),
            Opcode::I32AtomicRmw8AddU => Some(Align::Any),
            Opcode::I32AtomicRmw16AddU => Some(Align::Two),
            Opcode::I64AtomicRmw8AddU => Some(Align::Any),
            Opcode::I64AtomicRmw16AddU => Some(Align::Two),
            Opcode::I64AtomicRmw32AddU => Some(Align::Four),
            Opcode::I32AtomicRmwSub => Some(Align::Four),
            Opcode::I64AtomicRmwSub => Some(Align::Eight),
            Opcode::I32AtomicRmw8SubU => Some(Align::Any),
            Opcode::I32AtomicRmw16SubU => Some(Align::Two),
            Opcode::I64AtomicRmw8SubU => Some(Align::Any),
            Opcode::I64AtomicRmw16SubU => Some(Align::Two),
            Opcode::I64AtomicRmw32SubU => Some(Align::Four),
            Opcode::I32AtomicRmwAnd => Some(Align::Four),
            Opcode::I64AtomicRmwAnd => Some(Align::Eight),
            Opcode::I32AtomicRmw8AndU => Some(Align::Any),
            Opcode::I32AtomicRmw16AndU => Some(Align::Two),
            Opcode::I64AtomicRmw8AndU => Some(Align::Any),
            Opcode::I64AtomicRmw16AndU => Some(Align::Two),
            Opcode::I64AtomicRmw32AndU => Some(Align::Four),
            Opcode::I32AtomicRmwOr => Some(Align::Four),
            Opcode::I64AtomicRmwOr => Some(Align::Eight),
            Opcode::I32AtomicRmw8OrU => Some(Align::Any),
            Opcode::I32AtomicRmw16OrU => Some(Align::Two),
            Opcode::I64AtomicRmw8OrU => Some(Align::Any),
            Opcode::I64AtomicRmw16OrU => Some(Align::Two),
            Opcode::I64AtomicRmw32OrU => Some(Align::Four),
            Opcode::I32AtomicRmwXor => Some(Align::Four),
            Opcode::I64AtomicRmwXor => Some(Align::Eight),
            Opcode::I32AtomicRmw8XorU => Some(Align::Any),
            Opcode::I32AtomicRmw16XorU => Some(Align::Two),
            Opcode::I64AtomicRmw8XorU => Some(Align::Any),
            Opcode::I64AtomicRmw16XorU => Some(Align::Two),
            Opcode::I64AtomicRmw32XorU => Some(Align::Four),
            Opcode::I32AtomicRmwXchg => Some(Align::Four),
            Opcode::I64AtomicRmwXchg => Some(Align::Eight),
            Opcode::I32AtomicRmw8XchgU => Some(Align::Any),
            Opcode::I32AtomicRmw16XchgU => Some(Align::Two),
            Opcode::I64AtomicRmw8XchgU => Some(Align::Any),
            Opcode::I64AtomicRmw16XchgU => Some(Align::Two),
            Opcode::I64AtomicRmw32XchgU => Some(Align::Four),
            Opcode::I32AtomicRmwCmpxchg => Some(Align::Four),
            Opcode::I64AtomicRmwCmpxchg => Some(Align::Eight),
            Opcode::I32AtomicRmw8CmpxchgU => Some(Align::Any),
            Opcode::I32AtomicRmw16CmpxchgU => Some(Align::Two),
            Opcode::I64AtomicRmw8CmpxchgU => Some(Align::Any),
            Opcode::I64AtomicRmw16CmpxchgU => Some(Align::Two),
            Opcode::I64AtomicRmw32CmpxchgU => Some(Align::Four),
            _ => None,
        }
    }
}

/// Gets the opcode encoded by a single byte, if any.
pub fn byte_opcode(b: u8) -> (r: Option<Opcode>)
    ensures
        r == spec_byte_opcode(b),
{
    match b {
        0x00u8 => Some(Opcode::Unreachable),
        0x01u8 => Some(Opcode::Nop),
        0x02u8 => Some(Opcode::Block),
        0x03u8 => Some(Opcode::Loop),
        0x04u8 => Some(Opcode::If),
        0x05u8 => Some(Opcode::Else),
        0x06u8 => Some(Opcode::Try),
        0x07u8 => Some(Opcode::Catch),
        0x08u8 => Some(Opcode::Throw),
        0x09u8 => Some(Opcode::Rethrow),
        0x0Bu8 => Some(Opcode::End),
        0x0Cu8 => Some(Opcode::Br),
        0x0Du8 => Some(Opcode::BrIf),
        0x0Eu8 => Some(Opcode::BrTable),
        0x0Fu8 => Some(Opcode::Return),
        0x10u8 => Some(Opcode::Call),
        0x11u8 => Some(Opcode::CallIndirect),
        0x12u8 => Some(Opcode::ReturnCall),
        0x13u8 => Some(Opcode::ReturnCallIndirect),
        0x18u8 => Some(Opcode::Delegate),
        0x19u8 => Some(Opcode::CatchAll),
        0x1Au8 => Some(Opcode::Drop),
        0x1Bu8 => Some(Opcode::Select),
        0x1Cu8 => Some(Opcode::SelectTyped),
        0x20u8 => Some(Opcode::LocalGet),
        0x21u8 => Some(Opcode::LocalSet),
        0x22u8 => Some(Opcode::LocalTee),
        0x23u8 => Some(Opcode::GlobalGet),
        0x24u8 => Some(Opcode::GlobalSet),
        0x25u8 => Some(Opcode::TableGet),
        0x26u8 => Some(Opcode::TableSet),
        0x28u8 => Some(Opcode::I32Load),
        0x29u8 => Some(Opcode::I64Load),
        0x2Au8 => Some(Opcode::F32Load),
        0x2Bu8 => Some(Opcode::F64Load),
        0x2Cu8 => Some(Opcode::I32Load8S),
        0x2Du8 => Some(Opcode::I32Load8U),
        0x2Eu8 => Some(Opcode::I32Load16S),
        0x2Fu8 => Some(Opcode::I32Load16U),
        0x30u8 => Some(Opcode::I64Load8S),
        0x31u8 => Some(Opcode::I64Load8U),
        0x32u8 => Some(Opcode::I64Load16S),
        0x33u8 => Some(Opcode::I64Load16U),
        0x34u8 => Some(Opcode::I64Load32S),
        0x35u8 => Some(Opcode::I64Load32U),
        0x36u8 => Some(Opcode::I32Store),
        0x37u8 => Some(Opcode::I64Store),
        0x38u8 => Some(Opcode::F32Store),
        0x39u8 => Some(Opcode::F64Store),
        0x3Au8 => Some(Opcode::I32Store8),
        0x3Bu8 => Some(Opcode::I32Store16),
        0x3Cu8 => Some(Opcode::I64Store8),
        0x3Du8 => Some(Opcode::I64Store16),
        0x3Eu8 => Some(Opcode::I64Store32),
        0x3Fu8 => Some(Opcode::MemorySize),
        0x40u8 => Some(Opcode::MemoryGrow),
        0x41u8 => Some(Opcode::I32Const),
        0x42u8 => Some(Opcode::I64Const),
        0x43u8 => Some(Opcode::F32Const),
        0x44u8 => Some(Opcode::F64Const),
        0x45u8 => Some(Opcode::I32Eqz),
        0x46u8 => Some(Opcode::I32Eq),
        0x47u8 => Some(Opcode::I32Ne),
        0x48u8 => Some(Opcode::I32LtS),
        0x49u8 => Some(Opcode::I32LtU),
        0x4Au8 => Some(Opcode::I32GtS),
        0x4Bu8 => Some(Opcode::I32GtU),
        0x4Cu8 => Some(Opcode::I32LeS),
        0x4Du8 => Some(Opcode::I32LeU),
        0x4Eu8 => Some(Opcode::I32GeS),
        0x4Fu8 => Some(Opcode::I32GeU),
        0x50u8 => Some(Opcode::I64Eqz),
        0x51u8 => Some(Opcode::I64Eq),
        0x52u8 => Some(Opcode::I64Ne),
        0x53u8 => Some(Opcode::I64LtS),
        0x54u8 => Some(Opcode::I64LtU),
        0x55u8 => Some(Opcode::I64GtS),
        0x56u8 => Some(Opcode::I64GtU),
        0x57u8 => Some(Opcode::I64LeS),
        0x58u8 => Some(Opcode::I64LeU),
        0x59u8 => Some(Opcode::I64GeS),
        0x5Au8 => Some(Opcode::I64GeU),
        0x5Bu8 => Some(Opcode::F32Eq),
        0x5Cu8 => Some(Opcode::F32Ne),
        0x5Du8 => Some(Opcode::F32Lt),
        0x5Eu8 => Some(Opcode::F32Gt),
        0x5Fu8 => Some(Opcode::F32Le),
        0x60u8 => Some(Opcode::F32Ge),
        0x61u8 => Some(Opcode::F64Eq),
        0x62u8 => Some(Opcode::F64Ne),
        0x63u8 => Some(Opcode::F64Lt),
        0x64u8 => Some(Opcode::F64Gt),
        0x65u8 => Some(Opcode::F64Le),
        0x66u8 => Some(Opcode::F64Ge),
        0x67u8 => Some(Opcode::I32Clz),
        0x68u8 => Some(Opcode::I32Ctz),
        0x69u8 => Some(Opcode::I32Popcnt),
        0x6Au8 => Some(Opcode::I32Add),
        0x6Bu8 => Some(Opcode::I32Sub),
        0x6Cu8 => Some(Opcode::I32Mul),
        0x6Du8 => Some(Opcode::I32DivS),
        0x6Eu8 => Some(Opcode::I32DivU),
        0x6Fu8 => Some(Opcode::I32RemS),
        0x70u8 => Some(Opcode::I32RemU),
        0x71u8 => Some(Opcode::I32And),
        0x72u8 => Some(Opcode::I32Or),
        0x73u8 => Some(Opcode::I32Xor),
        0x74u8 => Some(Opcode::I32Shl),
        0x75u8 => Some(Opcode::I32ShrS),
        0x76u8 => Some(Opcode::I32ShrU),
        0x77u8 => Some(Opcode::I32Rotl),
        0x78u8 => Some(Opcode::I32Rotr),
        0x79u8 => Some(Opcode::I64Clz),
        0x7Au8 => Some(Opcode::I64Ctz),
        0x7Bu8 => Some(Opcode::I64Popcnt),
        0x7Cu8 => Some(Opcode::I64Add),
        0x7Du8 => Some(Opcode::I64Sub),
        0x7Eu8 => Some(Opcode::I64Mul),
        0x7Fu8 => Some(Opcode::I64DivS),
        0x80u8 => Some(Opcode::I64DivU),
        0x81u8 => Some(Opcode::I64RemS),
        0x82u8 => Some(Opcode::I64RemU),
        0x83u8 => Some(Opcode::I64And),
        0x84u8 => Some(Opcode::I64Or),
        0x85u8 => Some(Opcode::I64Xor),
        0x86u8 => Some(Opcode::I64Shl),
        0x87u8 => Some(Opcode::I64ShrS),
        0x88u8 => Some(Opcode::I64ShrU),
        0x89u8 => Some(Opcode::I64Rotl),
        0x8Au8 => Some(Opcode::I64Rotr),
        0x8Bu8 => Some(Opcode::F32Abs),
        0x8Cu8 => Some(Opcode::F32Neg),
        0x8Du8 => Some(Opcode::F32Ceil),
        0x8Eu8 => Some(Opcode::F32Floor),
        0x8Fu8 => Some(Opcode::F32Trunc),
        0x90u8 => Some(Opcode::F32Nearest),
        0x91u8 => Some(Opcode::F32Sqrt),
        0x92u8 => Some(Opcode::F32Add),
        0x93u8 => Some(Opcode::F32Sub),
        0x94u8 => Some(Opcode::F32Mul),
        0x95u8 => Some(Opcode::F32Div),
        0x96u8 => Some(Opcode::F32Min),
        0x97u8 => Some(Opcode::F32Max),
        0x98u8 => Some(Opcode::F32Copysign),
        0x99u8 => Some(Opcode::F64Abs),
        0x9Au8 => Some(Opcode::F64Neg),
        0x9Bu8 => Some(Opcode::F64Ceil),
        0x9Cu8 => Some(Opcode::F64Floor),
        0x9Du8 => Some(Opcode::F64Trunc),
        0x9Eu8 => Some(Opcode::F64Nearest),
        0x9Fu8 => Some(Opcode::F64Sqrt),
        0xA0u8 => Some(Opcode::F64Add),
        0xA1u8 => Some(Opcode::F64Sub),
        0xA2u8 => Some(Opcode::F64Mul),
        0xA3u8 => Some(Opcode::F64Div),
        0xA4u8 => Some(Opcode::F64Min),
        0xA5u8 => Some(Opcode::F64Max),
        0xA6u8 => Some(Opcode::F64Copysign),
        0xA7u8 => Some(Opcode::I32WrapI64),
        0xA8u8 => Some(Opcode::I32TruncF32S),
        0xA9u8 => Some(Opcode::I32TruncF32U),
        0xAAu8 => Some(Opcode::I32TruncF64S),
        0xABu8 => Some(Opcode::I32TruncF64U),
        0xACu8 => Some(Opcode::I64ExtendI32S),
        0xADu8 => Some(Opcode::I64ExtendI32U),
        0xAEu8 => Some(Opcode::I64TruncF32S),
        0xAFu8 => Some(Opcode::I64TruncF32U),
        0xB0u8 => Some(Opcode::I64TruncF64S),
        0xB1u8 => Some(Opcode::I64TruncF64U),
        0xB2u8 => Some(Opcode::F32ConvertI32S),
        0xB3u8 => Some(Opcode::F32ConvertI32U),
        0xB4u8 => Some(Opcode::F32ConvertI64S),
        0xB5u8 => Some(Opcode::F32ConvertI64U),
        0xB6u8 => Some(Opcode::F32DemoteF64),
        0xB7u8 => Some(Opcode::F64ConvertI32S),
        0xB8u8 => Some(Opcode::F64ConvertI32U),
        0xB9u8 => Some(Opcode::F64ConvertI64S),
        0xBAu8 => Some(Opcode::F64ConvertI64U),
        0xBBu8 => Some(Opcode::F64PromoteF32),
        0xBCu8 => Some(Opcode::I32ReinterpretF32),
        0xBDu8 => Some(Opcode::I64ReinterpretF64),
        0xBEu8 => Some(Opcode::F32ReinterpretI32),
        0xBFu8 => Some(Opcode::F64ReinterpretI64),
        0xC0u8 => Some(Opcode::I32Extend8S),
        0xC1u8 => Some(Opcode::I32Extend16S),
        0xC2u8 => Some(Opcode::I64Extend8S),
        0xC3u8 => Some(Opcode::I64Extend16S),
        0xC4u8 => Some(Opcode::I64Extend32S),
        0xD0u8 => Some(Opcode::RefNull),
        0xD1u8 => Some(Opcode::RefIsNull),
        0xD2u8 => Some(Opcode::RefFunc),
        _ => None,
    }
}

/// Gets the opcode encoded by the prefix byte `0xFC` and `code`, if any.
fn fc_opcode(code: u32) -> (r: Option<Opcode>)
    ensures
        r == spec_fc_opcode(code),
{
    match code {
        0u32 => Some(Opcode::I32TruncSatF32S),
        1u32 => Some(Opcode::I32TruncSatF32U),
        2u32 => Some(Opcode::I32TruncSatF64S),
        3u32 => Some(Opcode::I32TruncSatF64U),
        4u32 => Some(Opcode::I64TruncSatF32S),
        5u32 => Some(Opcode::I64TruncSatF32U),
        6u32 => Some(Opcode::I64TruncSatF64S),
        7u32 => Some(Opcode::I64TruncSatF64U),
        8u32 => Some(Opcode::MemoryInit),
        9u32 => Some(Opcode::DataDrop),
        10u32 => Some(Opcode::MemoryCopy),
        11u32 => Some(Opcode::MemoryFill),
        12u32 => Some(Opcode::TableInit),
        13u32 => Some(Opcode::ElemDrop),
        14u32 => Some(Opcode::TableCopy),
        15u32 => Some(Opcode::TableGrow),
        16u32 => Some(Opcode::TableSize),
        17u32 => Some(Opcode::TableFill),
        _ => None,
    }
}

/// Gets the opcode encoded by the prefix byte `0xFD` and `code`, if any.
fn fd_opcode(code: u32) -> (r: Option<Opcode>)
    ensures
        r == spec_fd_opcode(code),
{
    match code {
        0u32 => Some(Opcode::V128Load),
        1u32 => Some(Opcode::V128Load8x8S),
        2u32 => Some(Opcode::V128Load8x8U),
        3u32 => Some(Opcode::V128Load16x4S),
        4u32 => Some(Opcode::V128Load16x4U),
        5u32 => Some(Opcode::V128Load32x2S),
        6u32 => Some(Opcode::V128Load32x2U),
        7u32 => Some(Opcode::V128Load8Splat),
        8u32 => Some(Opcode::V128Load16Splat),
        9u32 => Some(Opcode::V128Load32Splat),
        10u32 => Some(Opcode::V128Load64Splat),
        11u32 => Some(Opcode::V128Store),
        12u32 => Some(Opcode::V128Const),
        13u32 => Some(Opcode::I8x16Shuffle),
        14u32 => Some(Opcode::I8x16Swizzle),
        15u32 => Some(Opcode::I8x16Splat),
        16u32 => Some(Opcode::I16x8Splat),
        17u32 => Some(Opcode::I32x4Splat),
        18u32 => Some(Opcode::I64x2Splat),
        19u32 => Some(Opcode::F32x4Splat),
        20u32 => Some(Opcode::F64x2Splat),
        21u32 => Some(Opcode::I8x16ExtractLaneS),
        22u32 => Some(Opcode::I8x16ExtractLaneU),
        23u32 => Some(Opcode::I8x16ReplaceLane),
        24u32 => Some(Opcode::I16x8ExtractLaneS),
        25u32 => Some(Opcode::I16x8ExtractLaneU),
        26u32 => Some(Opcode::I16x8ReplaceLane),
        27u32 => Some(Opcode::I32x4ExtractLane),
        28u32 => Some(Opcode::I32x4ReplaceLane),
        29u32 => Some(Opcode::I64x2ExtractLane),
        30u32 => Some(Opcode::I64x2ReplaceLane),
        31u32 => Some(Opcode::F32x4ExtractLane),
        32u32 => Some(Opcode::F32x4ReplaceLane),
        33u32 => Some(Opcode::F64x2ExtractLane),
        34u32 => Some(Opcode::F64x2ReplaceLane),
        35u32 => Some(Opcode::I8x16Eq),
        36u32 => Some(Opcode::I8x16Ne),
        37u32 => Some(Opcode::I8x16LtS),
        38u32 => Some(Opcode::I8x16LtU),
        39u32 => Some(Opcode::I8x16GtS),
        40u32 => Some(Opcode::I8x16GtU),
        41u32 => Some(Opcode::I8x16LeS),
        42u32 => Some(Opcode::I8x16LeU),
        43u32 => Some(Opcode::I8x16GeS),
        44u32 => Some(Opcode::I8x16GeU),
        45u32 => Some(Opcode::I16x8Eq),
        46u32 => Some(Opcode::I16x8Ne),
        47u32 => Some(Opcode::I16x8LtS),
        48u32 => Some(Opcode::I16x8LtU),
        49u32 => Some(Opcode::I16x8GtS),
        50u32 => Some(Opcode::I16x8GtU),
        51u32 => Some(Opcode::I16x8LeS),
        52u32 => Some(Opcode::I16x8LeU),
        53u32 => Some(Opcode::I16x8GeS),
        54u32 => Some(Opcode::I16x8GeU),
        55u32 => Some(Opcode::I32x4Eq),
        56u32 => Some(Opcode::I32x4Ne),
        57u32 => Some(Opcode::I32x4LtS),
        58u32 => Some(Opcode::I32x4LtU),
        59u32 => Some(Opcode::I32x4GtS),
        60u32 => Some(Opcode::I32x4GtU),
        61u32 => Some(Opcode::I32x4LeS),
        62u32 => Some(Opcode::I32x4LeU),
        63u32 => Some(Opcode::I32x4GeS),
        64u32 => Some(Opcode::I32x4GeU),
        65u32 => Some(Opcode::F32x4Eq),
        66u32 => Some(Opcode::F32x4Ne),
        67u32 => Some(Opcode::F32x4Lt),
        68u32 => Some(Opcode::F32x4Gt),
        69u32 => Some(Opcode::F32x4Le),
        70u32 => Some(Opcode::F32x4Ge),
        71u32 => Some(Opcode::F64x2Eq),
        72u32 => Some(Opcode::F64x2Ne),
        73u32 => Some(Opcode::F64x2Lt),
        74u32 => Some(Opcode::F64x2Gt),
        75u32 => Some(Opcode::F64x2Le),
        76u32 => Some(Opcode::F64x2Ge),
        77u32 => Some(Opcode::V128Not),
        78u32 => Some(Opcode::V128And),
        79u32 => Some(Opcode::V128AndNot),
        80u32 => Some(Opcode::V128Or),
        81u32 => Some(Opcode::V128Xor),
        82u32 => Some(Opcode::V128Bitselect),
        83u32 => Some(Opcode::V128AnyTrue),
        84u32 => Some(Opcode::V128Load8Lane),
        85u32 => Some(Opcode::V128Load16Lane),
        86u32 => Some(Opcode::V128Load32Lane),
        87u32 => Some(Opcode::V128Load64Lane),
        88u32 => Some(Opcode::V128Store8Lane),
        89u32 => Some(Opcode::V128Store16Lane),
        90u32 => Some(Opcode::V128Store32Lane),
        91u32 => Some(Opcode::V128Store64Lane),
        92u32 => Some(Opcode::V128Load32Zero),
        93u32 => Some(Opcode::V128Load64Zero),
        94u32 => Some(Opcode::F32x4DemoteF64x2Zero),
        95u32 => Some(Opcode::F64x2PromoteLowF32x4),
        96u32 => Some(Opcode::I8x16Abs),
        97u32 => Some(Opcode::I8x16Neg),
        98u32 => Some(Opcode::I8x16Popcnt),
        99u32 => Some(Opcode::I8x16AllTrue),
        100u32 => Some(Opcode::I8x16Bitmask),
        101u32 => Some(Opcode::I8x16NarrowI16x8S),
        102u32 => Some(Opcode::I8x16NarrowI16x8U),
        103u32 => Some(Opcode::F32x4Ceil),
        104u32 => Some(Opcode::F32x4Floor),
        105u32 => Some(Opcode::F32x4Trunc),
        106u32 => Some(Opcode::F32x4Nearest),
        107u32 => Some(Opcode::I8x16Shl),
        108u32 => Some(Opcode::I8x16ShrS),
        109u32 => Some(Opcode::I8x16ShrU),
        110u32 => Some(Opcode::I8x16Add),
        111u32 => Some(Opcode::I8x16AddSatS),
        112u32 => Some(Opcode::I8x16AddSatU),
        113u32 => Some(Opcode::I8x16Sub),
        114u32 => Some(Opcode::I8x16SubSatS),
        115u32 => Some(Opcode::I8x16SubSatU),
        116u32 => Some(Opcode::F64x2Ceil),
        117u32 => Some(Opcode::F64x2Floor),
        118u32 => Some(Opcode::I8x16MinS),
        119u32 => Some(Opcode::I8x16MinU),
        120u32 => Some(Opcode::I8x16MaxS),
        121u32 => Some(Opcode::I8x16MaxU),
        122u32 => Some(Opcode::F64x2Trunc),
        123u32 => Some(Opcode::I8x16AvgrU),
        124u32 => Some(Opcode::I16x8ExtaddPairwiseI8x16S),
        125u32 => Some(Opcode::I16x8ExtaddPairwiseI8x16U),
        126u32 => Some(Opcode::I32x4ExtaddPairwiseI16x8S),
        127u32 => Some(Opcode::I32x4ExtaddPairwiseI16x8U),
        128u32 => Some(Opcode::I16x8Abs),
        129u32 => Some(Opcode::I16x8Neg),
        130u32 => Some(Opcode::I16x8Q15mulrSatS),
        131u32 => Some(Opcode::I16x8AllTrue),
        132u32 => Some(Opcode::I16x8Bitmask),
        133u32 => Some(Opcode::I16x8NarrowI32x4S),
        134u32 => Some(Opcode::I16x8NarrowI32x4U),
        135u32 => Some(Opcode::I16x8ExtendLowI8x16S),
        136u32 => Some(Opcode::I16x8ExtendHighI8x16S),
        137u32 => Some(Opcode::I16x8ExtendLowI8x16U),
        138u32 => Some(Opcode::I16x8ExtendHighI8x16U),
        139u32 => Some(Opcode::I16x8Shl),
        140u32 => Some(Opcode::I16x8ShrS),
        141u32 => Some(Opcode::I16x8ShrU),
        142u32 => Some(Opcode::I16x8Add),
        143u32 => Some(Opcode::I16x8AddSatS),
        144u32 => Some(Opcode::I16x8AddSatU),
        145u32 => Some(Opcode::I16x8Sub),
        146u32 => Some(Opcode::I16x8SubSatS),
        147u32 => Some(Opcode::I16x8SubSatU),
        148u32 => Some(Opcode::F64x2Nearest),
        149u32 => Some(Opcode::I16x8Mul),
        150u32 => Some(Opcode::I16x8MinS),
        151u32 => Some(Opcode::I16x8MinU),
        152u32 => Some(Opcode::I16x8MaxS),
        153u32 => Some(Opcode::I16x8MaxU),
        155u32 => Some(Opcode::I16x8AvgrU),
        156u32 => Some(Opcode::I16x8ExtmulLowI8x16S),
        157u32 => Some(Opcode::I16x8ExtmulHighI8x16S),
        158u32 => Some(Opcode::I16x8ExtmulLowI8x16U),
        159u32 => Some(Opcode::I16x8ExtmulHighI8x16U),
        160u32 => Some(Opcode::I32x4Abs),
        161u32 => Some(Opcode::I32x4Neg),
        163u32 => Some(Opcode::I32x4AllTrue),
        164u32 => Some(Opcode::I32x4Bitmask),
        167u32 => Some(Opcode::I32x4ExtendLowI16x8S),
        168u32 => Some(Opcode::I32x4ExtendHighI16x8S),
        169u32 => Some(Opcode::I32x4ExtendLowI16x8U),
        170u32 => Some(Opcode::I32x4ExtendHighI16x8U),
        171u32 => Some(Opcode::I32x4Shl),
        172u32 => Some(Opcode::I32x4ShrS),
        173u32 => Some(Opcode::I32x4ShrU),
        174u32 => Some(Opcode::I32x4Add),
        177u32 => Some(Opcode::I32x4Sub),
        181u32 => Some(Opcode::I32x4Mul),
        182u32 => Some(Opcode::I32x4MinS),
        183u32 => Some(Opcode::I32x4MinU),
        184u32 => Some(Opcode::I32x4MaxS),
        185u32 => Some(Opcode::I32x4MaxU),
        186u32 => Some(Opcode::I32x4DotI16x8S),
        188u32 => Some(Opcode::I32x4ExtmulLowI16x8S),
        189u32 => Some(Opcode::I32x4ExtmulHighI16x8S),
        190u32 => Some(Opcode::I32x4ExtmulLowI16x8U),
        191u32 => Some(Opcode::I32x4ExtmulHighI16x8U),
        192u32 => Some(Opcode::I64x2Abs),
        193u32 => Some(Opcode::I64x2Neg),
        195u32 => Some(Opcode::I64x2AllTrue),
        196u32 => Some(Opcode::I64x2Bitmask),
        199u32 => Some(Opcode::I64x2ExtendLowI32x4S),
        200u32 => Some(Opcode::I64x2ExtendHighI32x4S),
        201u32 => Some(Opcode::I64x2ExtendLowI32x4U),
        202u32 => Some(Opcode::I64x2ExtendHighI32x4U),
        203u32 => Some(Opcode::I64x2Shl),
        204u32 => Some(Opcode::I64x2ShrS),
        205u32 => Some(Opcode::I64x2ShrU),
        206u32 => Some(Opcode::I64x2Add),
        209u32 => Some(Opcode::I64x2Sub),
        213u32 => Some(Opcode::I64x2Mul),
        214u32 => Some(Opcode::I64x2Eq),
        215u32 => Some(Opcode::I64x2Ne),
        216u32 => Some(Opcode::I64x2LtS),
        217u32 => Some(Opcode::I64x2GtS),
        218u32 => Some(Opcode::I64x2LeS),
        219u32 => Some(Opcode::I64x2GeS),
        220u32 => Some(Opcode::I64x2ExtmulLowI32x4S),
        221u32 => Some(Opcode::I64x2ExtmulHighI32x4S),
        222u32 => Some(Opcode::I64x2ExtmulLowI32x4U),
        223u32 => Some(Opcode::I64x2ExtmulHighI32x4U),
        224u32 => Some(Opcode::F32x4Abs),
        225u32 => Some(Opcode::F32x4Neg),
        227u32 => Some(Opcode::F32x4Sqrt),
        228u32 => Some(Opcode::F32x4Add),
        229u32 => Some(Opcode::F32x4Sub),
        230u32 => Some(Opcode::F32x4Mul),
        231u32 => Some(Opcode::F32x4Div),
        232u32 => Some(Opcode::F32x4Min),
        233u32 => Some(Opcode::F32x4Max),
        234u32 => Some(Opcode::F32x4Pmin),
        235u32 => Some(Opcode::F32x4Pmax),
        236u32 => Some(Opcode::F64x2Abs),
        237u32 => Some(Opcode::F64x2Neg),
        239u32 => Some(Opcode::F64x2Sqrt),
        240u32 => Some(Opcode::F64x2Add),
        241u32 => Some(Opcode::F64x2Sub),
        242u32 => Some(Opcode::F64x2Mul),
        243u32 => Some(Opcode::F64x2Div),
        244u32 => Some(Opcode::F64x2Min),
        245u32 => Some(Opcode::F64x2Max),
        246u32 => Some(Opcode::F64x2Pmin),
        247u32 => Some(Opcode::F64x2Pmax),
        248u32 => Some(Opcode::I32x4TruncSatF32x4S),
        249u32 => Some(Opcode::I32x4TruncSatF32x4U),
        250u32 => Some(Opcode::F32x4ConvertI32x4S),
        251u32 => Some(Opcode::F32x4ConvertI32x4U),
        252u32 => Some(Opcode::I32x4TruncSatF64x2SZero),
        253u32 => Some(Opcode::I32x4TruncSatF64x2UZero),
        254u32 => Some(Opcode::F64x2ConvertLowI32x4S),
        255u32 => Some(Opcode::F64x2ConvertLowI32x4U),
        256u32 => Some(Opcode::I8x16RelaxedSwizzle),
        257u32 => Some(Opcode::I32x4RelaxedTruncF32x4S),
        258u32 => Some(Opcode::I32x4RelaxedTruncF32x4U),
        259u32 => Some(Opcode::I32x4RelaxedTruncF64x2SZero),
        260u32 => Some(Opcode::I32x4RelaxedTruncF64x2UZero),
        261u32 => Some(Opcode::F32x4RelaxedMadd),
        262u32 => Some(Opcode::F32x4RelaxedNmadd),
        263u32 => Some(Opcode::F64x2RelaxedMadd),
        264u32 => Some(Opcode::F64x2RelaxedNmadd),
        265u32 => Some(Opcode::I8x16RelaxedLaneselect),
        266u32 => Some(Opcode::I16x8RelaxedLaneselect),
        267u32 => Some(Opcode::I32x4RelaxedLaneselect),
        268u32 => Some(Opcode::I64x2RelaxedLaneselect),
        269u32 => Some(Opcode::F32x4RelaxedMin),
        270u32 => Some(Opcode::F32x4RelaxedMax),
        271u32 => Some(Opcode::F64x2RelaxedMin),
        272u32 => Some(Opcode::F64x2RelaxedMax),
        273u32 => Some(Opcode::I16x8RelaxedQ15mulrS),
        274u32 => Some(Opcode::I16x8RelaxedDotI8x16I7x16S),
        275u32 => Some(Opcode::I32x4RelaxedDotI8x16I7x16AddS),
        _ => None,
    }
}

/// Gets the opcode encoded by the prefix byte `0xFE` and `code`, if any.
fn fe_opcode(code: u32) -> (r: Option<Opcode>)
    ensures
        r == spec_fe_opcode(code),
{
    match code {
        0u32 => Some(Opcode::MemoryAtomicNotify),
        1u32 => Some(Opcode::MemoryAtomicWait32),
        2u32 => Some(Opcode::MemoryAtomicWait64),
        16u32 => Some(Opcode::I32AtomicLoad),
        17u32 => Some(Opcode::I64AtomicLoad),
        18u32 => Some(Opcode::I32AtomicLoad8U),
        19u32 => Some(Opcode::I32AtomicLoad16U),
        20u32 => Some(Opcode::I64AtomicLoad8U),
        21u32 => Some(Opcode::I64AtomicLoad16U),
        22u32 => Some(Opcode::I64AtomicLoad32U),
        23u32 => Some(Opcode::I32AtomicStore),
        24u32 => Some(Opcode::I64AtomicStore),
        25u32 => Some(Opcode::I32AtomicStore8U),
        26u32 => Some(Opcode::I32AtomicStore16U),
        27u32 => Some(Opcode::I64AtomicStore8U),
        28u32 => Some(Opcode::I64AtomicStore16U),
        29u32 => Some(Opcode::I64AtomicStore32U),
        30u32 => Some(Opcode::I32AtomicRmwAdd),
        31u32 => Some(Opcode::I64AtomicRmwAdd),
        32u32 => Some(Opcode::I32AtomicRmw8AddU),
        33u32 => Some(Opcode::I32AtomicRmw16AddU),
        34u32 => Some(Opcode::I64AtomicRmw8AddU),
        35u32 => Some(Opcode::I64AtomicRmw16AddU),
        36u32 => Some(Opcode::I64AtomicRmw32AddU),
        37u32 => Some(Opcode::I32AtomicRmwSub),
        38u32 => Some(Opcode::I64AtomicRmwSub),
        39u32 => Some(Opcode::I32AtomicRmw8SubU),
        40u32 => Some(Opcode::I32AtomicRmw16SubU),
        41u32 => Some(Opcode::I64AtomicRmw8SubU),
        42u32 => Some(Opcode::I64AtomicRmw16SubU),
        43u32 => Some(Opcode::I64AtomicRmw32SubU),
        44u32 => Some(Opcode::I32AtomicRmwAnd),
        45u32 => Some(Opcode::I64AtomicRmwAnd),
        46u32 => Some(Opcode::I32AtomicRmw8AndU),
        47u32 => Some(Opcode::I32AtomicRmw16AndU),
        48u32 => Some(Opcode::I64AtomicRmw8AndU),
        49u32 => Some(Opcode::I64AtomicRmw16AndU),
        50u32 => Some(Opcode::I64AtomicRmw32AndU),
        51u32 => Some(Opcode::I32AtomicRmwOr),
        52u32 => Some(Opcode::I64AtomicRmwOr),
        53u32 => Some(Opcode::I32AtomicRmw8OrU),
        54u32 => Some(Opcode::I32AtomicRmw16OrU),
        55u32 => Some(Opcode::I64AtomicRmw8OrU),
        56u32 => Some(Opcode::I64AtomicRmw16OrU),
        57u32 => Some(Opcode::I64AtomicRmw32OrU),
        58u32 => Some(Opcode::I32AtomicRmwXor),
        59u32 => Some(Opcode::I64AtomicRmwXor),
        60u32 => Some(Opcode::I32AtomicRmw8XorU),
        61u32 => Some(Opcode::I32AtomicRmw16XorU),
        62u32 => Some(Opcode::I64AtomicRmw8XorU),
        63u32 => Some(Opcode::I64AtomicRmw16XorU),
        64u32 => Some(Opcode::I64AtomicRmw32XorU),
        65u32 => Some(Opcode::I32AtomicRmwXchg),
        66u32 => Some(Opcode::I64AtomicRmwXchg),
        67u32 => Some(Opcode::I32AtomicRmw8XchgU),
        68u32 => Some(Opcode::I32AtomicRmw16XchgU),
        69u32 => Some(Opcode::I64AtomicRmw8XchgU),
        70u32 => Some(Opcode::I64AtomicRmw16XchgU),
        71u32 => Some(Opcode::I64AtomicRmw32XchgU),
        72u32 => Some(Opcode::I32AtomicRmwCmpxchg),
        73u32 => Some(Opcode::I64AtomicRmwCmpxchg),
        74u32 => Some(Opcode::I32AtomicRmw8CmpxchgU),
        75u32 => Some(Opcode::I32AtomicRmw16CmpxchgU),
        76u32 => Some(Opcode::I64AtomicRmw8CmpxchgU),
        77u32 => Some(Opcode::I64AtomicRmw16CmpxchgU),
        78u32 => Some(Opcode::I64AtomicRmw32CmpxchgU),
        _ => None,
    }
}

/// Gets the opcode encoded by `prefix` and `code`, if any.
pub fn prefixed_opcode(prefix: u8, code: u32) -> (r: Option<Opcode>)
    ensures
        r == spec_prefixed_opcode(prefix, code),
{
    if prefix == 0xFC {
        fc_opcode(code)
    } else if prefix == 0xFD {
        fd_opcode(code)
    } else if prefix == 0xFE {
        fe_opcode(code)
    } else {
        None
    }
}

/// Decoding the encoding of an opcode gives back that opcode.
pub proof fn lemma_decode_encoding(op: Opcode)
    ensures
        match spec_encoding(op) {
            Encoding::Byte(b) => !is_prefix(b) && spec_byte_opcode(b) == Some(op),
            Encoding::Prefixed { prefix, code } => is_prefix(prefix) && spec_prefixed_opcode(prefix, code) == Some(op),
        },
{
    match op {
        Opcode::Unreachable => {},
        Opcode::Nop => {},
        Opcode::Block => {},
        Opcode::Loop => {},
        Opcode::If => {},
        Opcode::Else => {},
        Opcode::End => {},
        Opcode::Br => {},
        Opcode::BrIf => {},
        Opcode::BrTable => {},
        Opcode::Return => {},
        Opcode::Call => {},
        Opcode::CallIndirect => {},
        Opcode::Drop => {},
        Opcode::Select => {},
        Opcode::SelectTyped => {},
        Opcode::LocalGet => {},
        Opcode::LocalSet => {},
        Opcode::LocalTee => {},
        Opcode::GlobalGet => {},
        Opcode::GlobalSet => {},
        Opcode::I32Load => {},
        Opcode::I64Load => {},
        Opcode::F32Load => {},
        Opcode::F64Load => {},
        Opcode::I32Load8S => {},
        Opcode::I32Load8U => {},
        Opcode::I32Load16S => {},
        Opcode::I32Load16U => {},
        Opcode::I64Load8S => {},
        Opcode::I64Load8U => {},
        Opcode::I64Load16S => {},
        Opcode::I64Load16U => {},
        Opcode::I64Load32S => {},
        Opcode::I64Load32U => {},
        Opcode::I32Store => {},
        Opcode::I64Store => {},
        Opcode::F32Store => {},
        Opcode::F64Store => {},
        Opcode::I32Store8 => {},
        Opcode::I32Store16 => {},
        Opcode::I64Store8 => {},
        Opcode::I64Store16 => {},
        Opcode::I64Store32 => {},
        Opcode::MemorySize => {},
        Opcode::MemoryGrow => {},
        Opcode::I32Const => {},
        Opcode::I64Const => {},
        Opcode::F32Const => {},
        Opcode::F64Const => {},
        Opcode::I32Eqz => {},
        Opcode::I32Eq => {},
        Opcode::I32Ne => {},
        Opcode::I32LtS => {},
        Opcode::I32LtU => {},
        Opcode::I32GtS => {},
        Opcode::I32GtU => {},
        Opcode::I32LeS => {},
        Opcode::I32LeU => {},
        Opcode::I32GeS => {},
        Opcode::I32GeU => {},
        Opcode::I64Eqz => {},
        Opcode::I64Eq => {},
        Opcode::I64Ne => {},
        Opcode::I64LtS => {},
        Opcode::I64LtU => {},
        Opcode::I64GtS => {},
        Opcode::I64GtU => {},
        Opcode::I64LeS => {},
        Opcode::I64LeU => {},
        Opcode::I64GeS => {},
        Opcode::I64GeU => {},
        Opcode::F32Eq => {},
        Opcode::F32Ne => {},
        Opcode::F32Lt => {},
        Opcode::F32Gt => {},
        Opcode::F32Le => {},
        Opcode::F32Ge => {},
        Opcode::F64Eq => {},
        Opcode::F64Ne => {},
        Opcode::F64Lt => {},
        Opcode::F64Gt => {},
        Opcode::F64Le => {},
        Opcode::F64Ge => {},
        Opcode::I32Clz => {},
        Opcode::I32Ctz => {},
        Opcode::I32Popcnt => {},
        Opcode::I32Add => {},
        Opcode::I32Sub => {},
        Opcode::I32Mul => {},
        Opcode::I32DivS => {},
        Opcode::I32DivU => {},
        Opcode::I32RemS => {},
        Opcode::I32RemU => {},
        Opcode::I32And => {},
        Opcode::I32Or => {},
        Opcode::I32Xor => {},
        Opcode::I32Shl => {},
        Opcode::I32ShrS => {},
        Opcode::I32ShrU => {},
        Opcode::I32Rotl => {},
        Opcode::I32Rotr => {},
        Opcode::I64Clz => {},
        Opcode::I64Ctz => {},
        Opcode::I64Popcnt => {},
        Opcode::I64Add => {},
        Opcode::I64Sub => {},
        Opcode::I64Mul => {},
        Opcode::I64DivS => {},
        Opcode::I64DivU => {},
        Opcode::I64RemS => {},
        Opcode::I64RemU => {},
        Opcode::I64And => {},
        Opcode::I64Or => {},
        Opcode::I64Xor => {},
        Opcode::I64Shl => {},
        Opcode::I64ShrS => {},
        Opcode::I64ShrU => {},
        Opcode::I64Rotl => {},
        Opcode::I64Rotr => {},
        Opcode::F32Abs => {},
        Opcode::F32Neg => {},
        Opcode::F32Ceil => {},
        Opcode::F32Floor => {},
        Opcode::F32Trunc => {},
        Opcode::F32Nearest => {},
        Opcode::F32Sqrt => {},
        Opcode::F32Add => {},
        Opcode::F32Sub => {},
        Opcode::F32Mul => {},
        Opcode::F32Div => {},
        Opcode::F32Min => {},
        Opcode::F32Max => {},
        Opcode::F32Copysign => {},
        Opcode::F64Abs => {},
        Opcode::F64Neg => {},
        Opcode::F64Ceil => {},
        Opcode::F64Floor => {},
        Opcode::F64Trunc => {},
        Opcode::F64Nearest => {},
        Opcode::F64Sqrt => {},
        Opcode::F64Add => {},
        Opcode::F64Sub => {},
        Opcode::F64Mul => {},
        Opcode::F64Div => {},
        Opcode::F64Min => {},
        Opcode::F64Max => {},
        Opcode::F64Copysign => {},
        Opcode::I32WrapI64 => {},
        Opcode::I32TruncF32S => {},
        Opcode::I32TruncF32U => {},
        Opcode::I32TruncF64S => {},
        Opcode::I32TruncF64U => {},
        Opcode::I64ExtendI32S => {},
        Opcode::I64ExtendI32U => {},
        Opcode::I64TruncF32S => {},
        Opcode::I64TruncF32U => {},
        Opcode::I64TruncF64S => {},
        Opcode::I64TruncF64U => {},
        Opcode::F32ConvertI32S => {},
        Opcode::F32ConvertI32U => {},
        Opcode::F32ConvertI64S => {},
        Opcode::F32ConvertI64U => {},
        Opcode::F32DemoteF64 => {},
        Opcode::F64ConvertI32S => {},
        Opcode::F64ConvertI32U => {},
        Opcode::F64ConvertI64S => {},
        Opcode::F64ConvertI64U => {},
        Opcode::F64PromoteF32 => {},
        Opcode::I32ReinterpretF32 => {},
        Opcode::I64ReinterpretF64 => {},
        Opcode::F32ReinterpretI32 => {},
        Opcode::F64ReinterpretI64 => {},
        Opcode::I32TruncSatF32S => {},
        Opcode::I32TruncSatF32U => {},
        Opcode::I32TruncSatF64S => {},
        Opcode::I32TruncSatF64U => {},
        Opcode::I64TruncSatF32S => {},
        Opcode::I64TruncSatF32U => {},
        Opcode::I64TruncSatF64S => {},
        Opcode::I64TruncSatF64U => {},
        Opcode::I32Extend8S => {},
        Opcode::I32Extend16S => {},
        Opcode::I64Extend8S => {},
        Opcode::I64Extend16S => {},
        Opcode::I64Extend32S => {},
        Opcode::MemoryCopy => {},
        Opcode::MemoryFill => {},
        Opcode::MemoryInit => {},
        Opcode::DataDrop => {},
        Opcode::TableCopy => {},
        Opcode::TableInit => {},
        Opcode::ElemDrop => {},
        Opcode::RefNull => {},
        Opcode::RefIsNull => {},
        Opcode::RefFunc => {},
        Opcode::TableGet => {},
        Opcode::TableSet => {},
        Opcode::TableSize => {},
        Opcode::TableGrow => {},
        Opcode::TableFill => {},
        Opcode::V128Load => {},
        Opcode::V128Load8x8S => {},
        Opcode::V128Load8x8U => {},
        Opcode::V128Load16x4S => {},
        Opcode::V128Load16x4U => {},
        Opcode::V128Load32x2S => {},
        Opcode::V128Load32x2U => {},
        Opcode::V128Load8Splat => {},
        Opcode::V128Load16Splat => {},
        Opcode::V128Load32Splat => {},
        Opcode::V128Load64Splat => {},
        Opcode::V128Load32Zero => {},
        Opcode::V128Load64Zero => {},
        Opcode::V128Store => {},
        Opcode::V128Load8Lane => {},
        Opcode::V128Load16Lane => {},
        Opcode::V128Load32Lane => {},
        Opcode::V128Load64Lane => {},
        Opcode::V128Store8Lane => {},
        Opcode::V128Store16Lane => {},
        Opcode::V128Store32Lane => {},
        Opcode::V128Store64Lane => {},
        Opcode::V128Const => {},
        Opcode::I8x16Shuffle => {},
        Opcode::I8x16Swizzle => {},
        Opcode::I8x16Splat => {},
        Opcode::I16x8Splat => {},
        Opcode::I32x4Splat => {},
        Opcode::I64x2Splat => {},
        Opcode::F32x4Splat => {},
        Opcode::F64x2Splat => {},
        Opcode::I8x16ExtractLaneS => {},
        Opcode::I8x16ExtractLaneU => {},
        Opcode::I8x16ReplaceLane => {},
        Opcode::I16x8ExtractLaneS => {},
        Opcode::I16x8ExtractLaneU => {},
        Opcode::I16x8ReplaceLane => {},
        Opcode::I32x4ExtractLane => {},
        Opcode::I32x4ReplaceLane => {},
        Opcode::I64x2ExtractLane => {},
        Opcode::I64x2ReplaceLane => {},
        Opcode::F32x4ExtractLane => {},
        Opcode::F32x4ReplaceLane => {},
        Opcode::F64x2ExtractLane => {},
        Opcode::F64x2ReplaceLane => {},
        Opcode::I8x16Eq => {},
        Opcode::I8x16Ne => {},
        Opcode::I8x16LtS => {},
        Opcode::I8x16LtU => {},
        Opcode::I8x16GtS => {},
        Opcode::I8x16GtU => {},
        Opcode::I8x16LeS => {},
        Opcode::I8x16LeU => {},
        Opcode::I8x16GeS => {},
        Opcode::I8x16GeU => {},
        Opcode::I16x8Eq => {},
        Opcode::I16x8Ne => {},
        Opcode::I16x8LtS => {},
        Opcode::I16x8LtU => {},
        Opcode::I16x8GtS => {},
        Opcode::I16x8GtU => {},
        Opcode::I16x8LeS => {},
        Opcode::I16x8LeU => {},
        Opcode::I16x8GeS => {},
        Opcode::I16x8GeU => {},
        Opcode::I32x4Eq => {},
        Opcode::I32x4Ne => {},
        Opcode::I32x4LtS => {},
        Opcode::I32x4LtU => {},
        Opcode::I32x4GtS => {},
        Opcode::I32x4GtU => {},
        Opcode::I32x4LeS => {},
        Opcode::I32x4LeU => {},
        Opcode::I32x4GeS => {},
        Opcode::I32x4GeU => {},
        Opcode::F32x4Eq => {},
        Opcode::F32x4Ne => {},
        Opcode::F32x4Lt => {},
        Opcode::F32x4Gt => {},
        Opcode::F32x4Le => {},
        Opcode::F32x4Ge => {},
        Opcode::F64x2Eq => {},
        Opcode::F64x2Ne => {},
        Opcode::F64x2Lt => {},
        Opcode::F64x2Gt => {},
        Opcode::F64x2Le => {},
        Opcode::F64x2Ge => {},
        Opcode::V128Not => {},
        Opcode::V128And => {},
        Opcode::V128AndNot => {},
        Opcode::V128Or => {},
        Opcode::V128Xor => {},
        Opcode::V128Bitselect => {},
        Opcode::V128AnyTrue => {},
        Opcode::F32x4DemoteF64x2Zero => {},
        Opcode::F64x2PromoteLowF32x4 => {},
        Opcode::I8x16Abs => {},
        Opcode::I8x16Neg => {},
        Opcode::I8x16Popcnt => {},
        Opcode::I8x16AllTrue => {},
        Opcode::I8x16Bitmask => {},
        Opcode::I8x16NarrowI16x8S => {},
        Opcode::I8x16NarrowI16x8U => {},
        Opcode::F32x4Ceil => {},
        Opcode::F32x4Floor => {},
        Opcode::F32x4Trunc => {},
        Opcode::F32x4Nearest => {},
        Opcode::I8x16Shl => {},
        Opcode::I8x16ShrS => {},
        Opcode::I8x16ShrU => {},
        Opcode::I8x16Add => {},
        Opcode::I8x16AddSatS => {},
        Opcode::I8x16AddSatU => {},
        Opcode::I8x16Sub => {},
        Opcode::I8x16SubSatS => {},
        Opcode::I8x16SubSatU => {},
        Opcode::F64x2Ceil => {},
        Opcode::F64x2Floor => {},
        Opcode::I8x16MinS => {},
        Opcode::I8x16MinU => {},
        Opcode::I8x16MaxS => {},
        Opcode::I8x16MaxU => {},
        Opcode::F64x2Trunc => {},
        Opcode::I8x16AvgrU => {},
        Opcode::I16x8ExtaddPairwiseI8x16S => {},
        Opcode::I16x8ExtaddPairwiseI8x16U => {},
        Opcode::I32x4ExtaddPairwiseI16x8S => {},
        Opcode::I32x4ExtaddPairwiseI16x8U => {},
        Opcode::I16x8Abs => {},
        Opcode::I16x8Neg => {},
        Opcode::I16x8Q15mulrSatS => {},
        Opcode::I16x8AllTrue => {},
        Opcode::I16x8Bitmask => {},
        Opcode::I16x8NarrowI32x4S => {},
        Opcode::I16x8NarrowI32x4U => {},
        Opcode::I16x8ExtendLowI8x16S => {},
        Opcode::I16x8ExtendHighI8x16S => {},
        Opcode::I16x8ExtendLowI8x16U => {},
        Opcode::I16x8ExtendHighI8x16U => {},
        Opcode::I16x8Shl => {},
        Opcode::I16x8ShrS => {},
        Opcode::I16x8ShrU => {},
        Opcode::I16x8Add => {},
        Opcode::I16x8AddSatS => {},
        Opcode::I16x8AddSatU => {},
        Opcode::I16x8Sub => {},
        Opcode::I16x8SubSatS => {},
        Opcode::I16x8SubSatU => {},
        Opcode::F64x2Nearest => {},
        Opcode::I16x8Mul => {},
        Opcode::I16x8MinS => {},
        Opcode::I16x8MinU => {},
        Opcode::I16x8MaxS => {},
        Opcode::I16x8MaxU => {},
        Opcode::I16x8AvgrU => {},
        Opcode::I16x8ExtmulLowI8x16S => {},
        Opcode::I16x8ExtmulHighI8x16S => {},
        Opcode::I16x8ExtmulLowI8x16U => {},
        Opcode::I16x8ExtmulHighI8x16U => {},
        Opcode::I32x4Abs => {},
        Opcode::I32x4Neg => {},
        Opcode::I32x4AllTrue => {},
        Opcode::I32x4Bitmask => {},
        Opcode::I32x4ExtendLowI16x8S => {},
        Opcode::I32x4ExtendHighI16x8S => {},
        Opcode::I32x4ExtendLowI16x8U => {},
        Opcode::I32x4ExtendHighI16x8U => {},
        Opcode::I32x4Shl => {},
        Opcode::I32x4ShrS => {},
        Opcode::I32x4ShrU => {},
        Opcode::I32x4Add => {},
        Opcode::I32x4Sub => {},
        Opcode::I32x4Mul => {},
        Opcode::I32x4MinS => {},
        Opcode::I32x4MinU => {},
        Opcode::I32x4MaxS => {},
        Opcode::I32x4MaxU => {},
        Opcode::I32x4DotI16x8S => {},
        Opcode::I32x4ExtmulLowI16x8S => {},
        Opcode::I32x4ExtmulHighI16x8S => {},
        Opcode::I32x4ExtmulLowI16x8U => {},
        Opcode::I32x4ExtmulHighI16x8U => {},
        Opcode::I64x2Abs => {},
        Opcode::I64x2Neg => {},
        Opcode::I64x2AllTrue => {},
        Opcode::I64x2Bitmask => {},
        Opcode::I64x2ExtendLowI32x4S => {},
        Opcode::I64x2ExtendHighI32x4S => {},
        Opcode::I64x2ExtendLowI32x4U => {},
        Opcode::I64x2ExtendHighI32x4U => {},
        Opcode::I64x2Shl => {},
        Opcode::I64x2ShrS => {},
        Opcode::I64x2ShrU => {},
        Opcode::I64x2Add => {},
        Opcode::I64x2Sub => {},
        Opcode::I64x2Mul => {},
        Opcode::I64x2Eq => {},
        Opcode::I64x2Ne => {},
        Opcode::I64x2LtS => {},
        Opcode::I64x2GtS => {},
        Opcode::I64x2LeS => {},
        Opcode::I64x2GeS => {},
        Opcode::I64x2ExtmulLowI32x4S => {},
        Opcode::I64x2ExtmulHighI32x4S => {},
        Opcode::I64x2ExtmulLowI32x4U => {},
        Opcode::I64x2ExtmulHighI32x4U => {},
        Opcode::F32x4Abs => {},
        Opcode::F32x4Neg => {},
        Opcode::F32x4Sqrt => {},
        Opcode::F32x4Add => {},
        Opcode::F32x4Sub => {},
        Opcode::F32x4Mul => {},
        Opcode::F32x4Div => {},
        Opcode::F32x4Min => {},
        Opcode::F32x4Max => {},
        Opcode::F32x4Pmin => {},
        Opcode::F32x4Pmax => {},
        Opcode::F64x2Abs => {},
        Opcode::F64x2Neg => {},
        Opcode::F64x2Sqrt => {},
        Opcode::F64x2Add => {},
        Opcode::F64x2Sub => {},
        Opcode::F64x2Mul => {},
        Opcode::F64x2Div => {},
        Opcode::F64x2Min => {},
        Opcode::F64x2Max => {},
        Opcode::F64x2Pmin => {},
        Opcode::F64x2Pmax => {},
        Opcode::I32x4TruncSatF32x4S => {},
        Opcode::I32x4TruncSatF32x4U => {},
        Opcode::F32x4ConvertI32x4S => {},
        Opcode::F32x4ConvertI32x4U => {},
        Opcode::I32x4TruncSatF64x2SZero => {},
        Opcode::I32x4TruncSatF64x2UZero => {},
        Opcode::F64x2ConvertLowI32x4S => {},
        Opcode::F64x2ConvertLowI32x4U => {},
        Opcode::ReturnCall => {},
        Opcode::ReturnCallIndirect => {},
        Opcode::MemoryAtomicNotify => {},
        Opcode::MemoryAtomicWait32 => {},
        Opcode::MemoryAtomicWait64 => {},
        Opcode::I32AtomicLoad => {},
        Opcode::I64AtomicLoad => {},
        Opcode::I32AtomicLoad8U => {},
        Opcode::I32AtomicLoad16U => {},
        Opcode::I64AtomicLoad8U => {},
        Opcode::I64AtomicLoad16U => {},
        Opcode::I64AtomicLoad32U => {},
        Opcode::I32AtomicStore => {},
        Opcode::I64AtomicStore => {},
        Opcode::I32AtomicStore8U => {},
        Opcode::I32AtomicStore16U => {},
        Opcode::I64AtomicStore8U => {},
        Opcode::I64AtomicStore16U => {},
        Opcode::I64AtomicStore32U => {},
        Opcode::I32AtomicRmwAdd => {},
        Opcode::I64AtomicRmwAdd => {},
        Opcode::I32AtomicRmw8AddU => {},
        Opcode::I32AtomicRmw16AddU => {},
        Opcode::I64AtomicRmw8AddU => {},
        Opcode::I64AtomicRmw16AddU => {},
        Opcode::I64AtomicRmw32AddU => {},
        Opcode::I32AtomicRmwSub => {},
        Opcode::I64AtomicRmwSub => {},
        Opcode::I32AtomicRmw8SubU => {},
        Opcode::I32AtomicRmw16SubU => {},
        Opcode::I64AtomicRmw8SubU => {},
        Opcode::I64AtomicRmw16SubU => {},
        Opcode::I64AtomicRmw32SubU => {},
        Opcode::I32AtomicRmwAnd => {},
        Opcode::I64AtomicRmwAnd => {},
        Opcode::I32AtomicRmw8AndU => {},
        Opcode::I32AtomicRmw16AndU => {},
        Opcode::I64AtomicRmw8AndU => {},
        Opcode::I64AtomicRmw16AndU => {},
        Opcode::I64AtomicRmw32AndU => {},
        Opcode::I32AtomicRmwOr => {},
        Opcode::I64AtomicRmwOr => {},
        Opcode::I32AtomicRmw8OrU => {},
        Opcode::I32AtomicRmw16OrU => {},
        Opcode::I64AtomicRmw8OrU => {},
        Opcode::I64AtomicRmw16OrU => {},
        Opcode::I64AtomicRmw32OrU => {},
        Opcode::I32AtomicRmwXor => {},
        Opcode::I64AtomicRmwXor => {},
        Opcode::I32AtomicRmw8XorU => {},
        Opcode::I32AtomicRmw16XorU => {},
        Opcode::I64AtomicRmw8XorU => {},
        Opcode::I64AtomicRmw16XorU => {},
        Opcode::I64AtomicRmw32XorU => {},
        Opcode::I32AtomicRmwXchg => {},
        Opcode::I64AtomicRmwXchg => {},
        Opcode::I32AtomicRmw8XchgU => {},
        Opcode::I32AtomicRmw16XchgU => {},
        Opcode::I64AtomicRmw8XchgU => {},
        Opcode::I64AtomicRmw16XchgU => {},
        Opcode::I64AtomicRmw32XchgU => {},
        Opcode::I32AtomicRmwCmpxchg => {},
        Opcode::I64AtomicRmwCmpxchg => {},
        Opcode::I32AtomicRmw8CmpxchgU => {},
        Opcode::I32AtomicRmw16CmpxchgU => {},
        Opcode::I64AtomicRmw8CmpxchgU => {},
        Opcode::I64AtomicRmw16CmpxchgU => {},
        Opcode::I64AtomicRmw32CmpxchgU => {},
        Opcode::Try => {},
        Opcode::Catch => {},
        Opcode::Throw => {},
        Opcode::Rethrow => {},
        Opcode::Delegate => {},
        Opcode::CatchAll => {},
        Opcode::I8x16RelaxedSwizzle => {},
        Opcode::I32x4RelaxedTruncF32x4S => {},
        Opcode::I32x4RelaxedTruncF32x4U => {},
        Opcode::I32x4RelaxedTruncF64x2SZero => {},
        Opcode::I32x4RelaxedTruncF64x2UZero => {},
        Opcode::F32x4RelaxedMadd => {},
        Opcode::F32x4RelaxedNmadd => {},
        Opcode::F64x2RelaxedMadd => {},
        Opcode::F64x2RelaxedNmadd => {},
        Opcode::I8x16RelaxedLaneselect => {},
        Opcode::I16x8RelaxedLaneselect => {},
        Opcode::I32x4RelaxedLaneselect => {},
        Opcode::I64x2RelaxedLaneselect => {},
        Opcode::F32x4RelaxedMin => {},
        Opcode::F32x4RelaxedMax => {},
        Opcode::F64x2RelaxedMin => {},
        Opcode::F64x2RelaxedMax => {},
        Opcode::I16x8RelaxedQ15mulrS => {},
        Opcode::I16x8RelaxedDotI8x16I7x16S => {},
        Opcode::I32x4RelaxedDotI8x16I7x16AddS => {},
    }
}

/// A byte that decodes to an opcode is that opcode's encoding.
pub proof fn lemma_byte_encoding(b: u8)
    ensures
        spec_byte_opcode(b) matches Some(op) ==> spec_encoding(op) == Encoding::Byte(b),
{
}

#[verifier::rlimit(50)]
proof fn lemma_fc_encoding(code: u32)
    ensures
        spec_fc_opcode(code) matches Some(op) ==> spec_encoding(op) == (Encoding::Prefixed { prefix: 0xFC, code }),
{
}

#[verifier::rlimit(100)]
proof fn lemma_fd_encoding(code: u32)
    ensures
        spec_fd_opcode(code) matches Some(op) ==> spec_encoding(op) == (Encoding::Prefixed { prefix: 0xFD, code }),
{
}

#[verifier::rlimit(50)]
proof fn lemma_fe_encoding(code: u32)
    ensures
        spec_fe_opcode(code) matches Some(op) ==> spec_encoding(op) == (Encoding::Prefixed { prefix: 0xFE, code }),
{
}

/// A prefix and code that decode to an opcode are that opcode's encoding.
pub proof fn lemma_prefixed_encoding(prefix: u8, code: u32)
    ensures
        spec_prefixed_opcode(prefix, code) matches Some(op) ==> spec_encoding(op) == (Encoding::Prefixed { prefix, code }),
{
    lemma_fc_encoding(code);
    lemma_fd_encoding(code);
    lemma_fe_encoding(code);
}

/// Exactly the instructions that take a memory argument have a natural alignment.
pub proof fn lemma_natural_align_memory(op: Opcode)
    ensures
        spec_natural_align(op) is Some <==> (spec_immediate_kind(op) == ImmKind::Mem || spec_immediate_kind(op) == ImmKind::MemLane),
{
    match op {
        Opcode::Unreachable => {},
        Opcode::Nop => {},
        Opcode::Block => {},
        Opcode::Loop => {},
        Opcode::If => {},
        Opcode::Else => {},
        Opcode::End => {},
        Opcode::Br => {},
        Opcode::BrIf => {},
        Opcode::BrTable => {},
        Opcode::Return => {},
        Opcode::Call => {},
        Opcode::CallIndirect => {},
        Opcode::Drop => {},
        Opcode::Select => {},
        Opcode::SelectTyped => {},
        Opcode::LocalGet => {},
        Opcode::LocalSet => {},
        Opcode::LocalTee => {},
        Opcode::GlobalGet => {},
        Opcode::GlobalSet => {},
        Opcode::I32Load => {},
        Opcode::I64Load => {},
        Opcode::F32Load => {},
        Opcode::F64Load => {},
        Opcode::I32Load8S => {},
        Opcode::I32Load8U => {},
        Opcode::I32Load16S => {},
        Opcode::I32Load16U => {},
        Opcode::I64Load8S => {},
        Opcode::I64Load8U => {},
        Opcode::I64Load16S => {},
        Opcode::I64Load16U => {},
        Opcode::I64Load32S => {},
        Opcode::I64Load32U => {},
        Opcode::I32Store => {},
        Opcode::I64Store => {},
        Opcode::F32Store => {},
        Opcode::F64Store => {},
        Opcode::I32Store8 => {},
        Opcode::I32Store16 => {},
        Opcode::I64Store8 => {},
        Opcode::I64Store16 => {},
        Opcode::I64Store32 => {},
        Opcode::MemorySize => {},
        Opcode::MemoryGrow => {},
        Opcode::I32Const => {},
        Opcode::I64Const => {},
        Opcode::F32Const => {},
        Opcode::F64Const => {},
        Opcode::I32Eqz => {},
        Opcode::I32Eq => {},
        Opcode::I32Ne => {},
        Opcode::I32LtS => {},
        Opcode::I32LtU => {},
        Opcode::I32GtS => {},
        Opcode::I32GtU => {},
        Opcode::I32LeS => {},
        Opcode::I32LeU => {},
        Opcode::I32GeS => {},
        Opcode::I32GeU => {},
        Opcode::I64Eqz => {},
        Opcode::I64Eq => {},
        Opcode::I64Ne => {},
        Opcode::I64LtS => {},
        Opcode::I64LtU => {},
        Opcode::I64GtS => {},
        Opcode::I64GtU => {},
        Opcode::I64LeS => {},
        Opcode::I64LeU => {},
        Opcode::I64GeS => {},
        Opcode::I64GeU => {},
        Opcode::F32Eq => {},
        Opcode::F32Ne => {},
        Opcode::F32Lt => {},
        Opcode::F32Gt => {},
        Opcode::F32Le => {},
        Opcode::F32Ge => {},
        Opcode::F64Eq => {},
        Opcode::F64Ne => {},
        Opcode::F64Lt => {},
        Opcode::F64Gt => {},
        Opcode::F64Le => {},
        Opcode::F64Ge => {},
        Opcode::I32Clz => {},
        Opcode::I32Ctz => {},
        Opcode::I32Popcnt => {},
        Opcode::I32Add => {},
        Opcode::I32Sub => {},
        Opcode::I32Mul => {},
        Opcode::I32DivS => {},
        Opcode::I32DivU => {},
        Opcode::I32RemS => {},
        Opcode::I32RemU => {},
        Opcode::I32And => {},
        Opcode::I32Or => {},
        Opcode::I32Xor => {},
        Opcode::I32Shl => {},
        Opcode::I32ShrS => {},
        Opcode::I32ShrU => {},
        Opcode::I32Rotl => {},
        Opcode::I32Rotr => {},
        Opcode::I64Clz => {},
        Opcode::I64Ctz => {},
        Opcode::I64Popcnt => {},
        Opcode::I64Add => {},
        Opcode::I64Sub => {},
        Opcode::I64Mul => {},
        Opcode::I64DivS => {},
        Opcode::I64DivU => {},
        Opcode::I64RemS => {},
        Opcode::I64RemU => {},
        Opcode::I64And => {},
        Opcode::I64Or => {},
        Opcode::I64Xor => {},
        Opcode::I64Shl => {},
        Opcode::I64ShrS => {},
        Opcode::I64ShrU => {},
        Opcode::I64Rotl => {},
        Opcode::I64Rotr => {},
        Opcode::F32Abs => {},
        Opcode::F32Neg => {},
        Opcode::F32Ceil => {},
        Opcode::F32Floor => {},
        Opcode::F32Trunc => {},
        Opcode::F32Nearest => {},
        Opcode::F32Sqrt => {},
        Opcode::F32Add => {},
        Opcode::F32Sub => {},
        Opcode::F32Mul => {},
        Opcode::F32Div => {},
        Opcode::F32Min => {},
        Opcode::F32Max => {},
        Opcode::F32Copysign => {},
        Opcode::F64Abs => {},
        Opcode::F64Neg => {},
        Opcode::F64Ceil => {},
        Opcode::F64Floor => {},
        Opcode::F64Trunc => {},
        Opcode::F64Nearest => {},
        Opcode::F64Sqrt => {},
        Opcode::F64Add => {},
        Opcode::F64Sub => {},
        Opcode::F64Mul => {},
        Opcode::F64Div => {},
        Opcode::F64Min => {},
        Opcode::F64Max => {},
        Opcode::F64Copysign => {},
        Opcode::I32WrapI64 => {},
        Opcode::I32TruncF32S => {},
        Opcode::I32TruncF32U => {},
        Opcode::I32TruncF64S => {},
        Opcode::I32TruncF64U => {},
        Opcode::I64ExtendI32S => {},
        Opcode::I64ExtendI32U => {},
        Opcode::I64TruncF32S => {},
        Opcode::I64TruncF32U => {},
        Opcode::I64TruncF64S => {},
        Opcode::I64TruncF64U => {},
        Opcode::F32ConvertI32S => {},
        Opcode::F32ConvertI32U => {},
        Opcode::F32ConvertI64S => {},
        Opcode::F32ConvertI64U => {},
        Opcode::F32DemoteF64 => {},
        Opcode::F64ConvertI32S => {},
        Opcode::F64ConvertI32U => {},
        Opcode::F64ConvertI64S => {},
        Opcode::F64ConvertI64U => {},
        Opcode::F64PromoteF32 => {},
        Opcode::I32ReinterpretF32 => {},
        Opcode::I64ReinterpretF64 => {},
        Opcode::F32ReinterpretI32 => {},
        Opcode::F64ReinterpretI64 => {},
        Opcode::I32TruncSatF32S => {},
        Opcode::I32TruncSatF32U => {},
        Opcode::I32TruncSatF64S => {},
        Opcode::I32TruncSatF64U => {},
        Opcode::I64TruncSatF32S => {},
        Opcode::I64TruncSatF32U => {},
        Opcode::I64TruncSatF64S => {},
        Opcode::I64TruncSatF64U => {},
        Opcode::I32Extend8S => {},
        Opcode::I32Extend16S => {},
        Opcode::I64Extend8S => {},
        Opcode::I64Extend16S => {},
        Opcode::I64Extend32S => {},
        Opcode::MemoryCopy => {},
        Opcode::MemoryFill => {},
        Opcode::MemoryInit => {},
        Opcode::DataDrop => {},
        Opcode::TableCopy => {},
        Opcode::TableInit => {},
        Opcode::ElemDrop => {},
        Opcode::RefNull => {},
        Opcode::RefIsNull => {},
        Opcode::RefFunc => {},
        Opcode::TableGet => {},
        Opcode::TableSet => {},
        Opcode::TableSize => {},
        Opcode::TableGrow => {},
        Opcode::TableFill => {},
        Opcode::V128Load => {},
        Opcode::V128Load8x8S => {},
        Opcode::V128Load8x8U => {},
        Opcode::V128Load16x4S => {},
        Opcode::V128Load16x4U => {},
        Opcode::V128Load32x2S => {},
        Opcode::V128Load32x2U => {},
        Opcode::V128Load8Splat => {},
        Opcode::V128Load16Splat => {},
        Opcode::V128Load32Splat => {},
        Opcode::V128Load64Splat => {},
        Opcode::V128Load32Zero => {},
        Opcode::V128Load64Zero => {},
        Opcode::V128Store => {},
        Opcode::V128Load8Lane => {},
        Opcode::V128Load16Lane => {},
        Opcode::V128Load32Lane => {},
        Opcode::V128Load64Lane => {},
        Opcode::V128Store8Lane => {},
        Opcode::V128Store16Lane => {},
        Opcode::V128Store32Lane => {},
        Opcode::V128Store64Lane => {},
        Opcode::V128Const => {},
        Opcode::I8x16Shuffle => {},
        Opcode::I8x16Swizzle => {},
        Opcode::I8x16Splat => {},
        Opcode::I16x8Splat => {},
        Opcode::I32x4Splat => {},
        Opcode::I64x2Splat => {},
        Opcode::F32x4Splat => {},
        Opcode::F64x2Splat => {},
        Opcode::I8x16ExtractLaneS => {},
        Opcode::I8x16ExtractLaneU => {},
        Opcode::I8x16ReplaceLane => {},
        Opcode::I16x8ExtractLaneS => {},
        Opcode::I16x8ExtractLaneU => {},
        Opcode::I16x8ReplaceLane => {},
        Opcode::I32x4ExtractLane => {},
        Opcode::I32x4ReplaceLane => {},
        Opcode::I64x2ExtractLane => {},
        Opcode::I64x2ReplaceLane => {},
        Opcode::F32x4ExtractLane => {},
        Opcode::F32x4ReplaceLane => {},
        Opcode::F64x2ExtractLane => {},
        Opcode::F64x2ReplaceLane => {},
        Opcode::I8x16Eq => {},
        Opcode::I8x16Ne => {},
        Opcode::I8x16LtS => {},
        Opcode::I8x16LtU => {},
        Opcode::I8x16GtS => {},
        Opcode::I8x16GtU => {},
        Opcode::I8x16LeS => {},
        Opcode::I8x16LeU => {},
        Opcode::I8x16GeS => {},
        Opcode::I8x16GeU => {},
        Opcode::I16x8Eq => {},
        Opcode::I16x8Ne => {},
        Opcode::I16x8LtS => {},
        Opcode::I16x8LtU => {},
        Opcode::I16x8GtS => {},
        Opcode::I16x8GtU => {},
        Opcode::I16x8LeS => {},
        Opcode::I16x8LeU => {},
        Opcode::I16x8GeS => {},
        Opcode::I16x8GeU => {},
        Opcode::I32x4Eq => {},
        Opcode::I32x4Ne => {},
        Opcode::I32x4LtS => {},
        Opcode::I32x4LtU => {},
        Opcode::I32x4GtS => {},
        Opcode::I32x4GtU => {},
        Opcode::I32x4LeS => {},
        Opcode::I32x4LeU => {},
        Opcode::I32x4GeS => {},
        Opcode::I32x4GeU => {},
        Opcode::F32x4Eq => {},
        Opcode::F32x4Ne => {},
        Opcode::F32x4Lt => {},
        Opcode::F32x4Gt => {},
        Opcode::F32x4Le => {},
        Opcode::F32x4Ge => {},
        Opcode::F64x2Eq => {},
        Opcode::F64x2Ne => {},
        Opcode::F64x2Lt => {},
        Opcode::F64x2Gt => {},
        Opcode::F64x2Le => {},
        Opcode::F64x2Ge => {},
        Opcode::V128Not => {},
        Opcode::V128And => {},
        Opcode::V128AndNot => {},
        Opcode::V128Or => {},
        Opcode::V128Xor => {},
        Opcode::V128Bitselect => {},
        Opcode::V128AnyTrue => {},
        Opcode::F32x4DemoteF64x2Zero => {},
        Opcode::F64x2PromoteLowF32x4 => {},
        Opcode::I8x16Abs => {},
        Opcode::I8x16Neg => {},
        Opcode::I8x16Popcnt => {},
        Opcode::I8x16AllTrue => {},
        Opcode::I8x16Bitmask => {},
        Opcode::I8x16NarrowI16x8S => {},
        Opcode::I8x16NarrowI16x8U => {},
        Opcode::F32x4Ceil => {},
        Opcode::F32x4Floor => {},
        Opcode::F32x4Trunc => {},
        Opcode::F32x4Nearest => {},
        Opcode::I8x16Shl => {},
        Opcode::I8x16ShrS => {},
        Opcode::I8x16ShrU => {},
        Opcode::I8x16Add => {},
        Opcode::I8x16AddSatS => {},
        Opcode::I8x16AddSatU => {},
        Opcode::I8x16Sub => {},
        Opcode::I8x16SubSatS => {},
        Opcode::I8x16SubSatU => {},
        Opcode::F64x2Ceil => {},
        Opcode::F64x2Floor => {},
        Opcode::I8x16MinS => {},
        Opcode::I8x16MinU => {},
        Opcode::I8x16MaxS => {},
        Opcode::I8x16MaxU => {},
        Opcode::F64x2Trunc => {},
        Opcode::I8x16AvgrU => {},
        Opcode::I16x8ExtaddPairwiseI8x16S => {},
        Opcode::I16x8ExtaddPairwiseI8x16U => {},
        Opcode::I32x4ExtaddPairwiseI16x8S => {},
        Opcode::I32x4ExtaddPairwiseI16x8U => {},
        Opcode::I16x8Abs => {},
        Opcode::I16x8Neg => {},
        Opcode::I16x8Q15mulrSatS => {},
        Opcode::I16x8AllTrue => {},
        Opcode::I16x8Bitmask => {},
        Opcode::I16x8NarrowI32x4S => {},
        Opcode::I16x8NarrowI32x4U => {},
        Opcode::I16x8ExtendLowI8x16S => {},
        Opcode::I16x8ExtendHighI8x16S => {},
        Opcode::I16x8ExtendLowI8x16U => {},
        Opcode::I16x8ExtendHighI8x16U => {},
        Opcode::I16x8Shl => {},
        Opcode::I16x8ShrS => {},
        Opcode::I16x8ShrU => {},
        Opcode::I16x8Add => {},
        Opcode::I16x8AddSatS => {},
        Opcode::I16x8AddSatU => {},
        Opcode::I16x8Sub => {},
        Opcode::I16x8SubSatS => {},
        Opcode::I16x8SubSatU => {},
        Opcode::F64x2Nearest => {},
        Opcode::I16x8Mul => {},
        Opcode::I16x8MinS => {},
        Opcode::I16x8MinU => {},
        Opcode::I16x8MaxS => {},
        Opcode::I16x8MaxU => {},
        Opcode::I16x8AvgrU => {},
        Opcode::I16x8ExtmulLowI8x16S => {},
        Opcode::I16x8ExtmulHighI8x16S => {},
        Opcode::I16x8ExtmulLowI8x16U => {},
        Opcode::I16x8ExtmulHighI8x16U => {},
        Opcode::I32x4Abs => {},
        Opcode::I32x4Neg => {},
        Opcode::I32x4AllTrue => {},
        Opcode::I32x4Bitmask => {},
        Opcode::I32x4ExtendLowI16x8S => {},
        Opcode::I32x4ExtendHighI16x8S => {},
        Opcode::I32x4ExtendLowI16x8U => {},
        Opcode::I32x4ExtendHighI16x8U => {},
        Opcode::I32x4Shl => {},
        Opcode::I32x4ShrS => {},
        Opcode::I32x4ShrU => {},
        Opcode::I32x4Add => {},
        Opcode::I32x4Sub => {},
        Opcode::I32x4Mul => {},
        Opcode::I32x4MinS => {},
        Opcode::I32x4MinU => {},
        Opcode::I32x4MaxS => {},
        Opcode::I32x4MaxU => {},
        Opcode::I32x4DotI16x8S => {},
        Opcode::I32x4ExtmulLowI16x8S => {},
        Opcode::I32x4ExtmulHighI16x8S => {},
        Opcode::I32x4ExtmulLowI16x8U => {},
        Opcode::I32x4ExtmulHighI16x8U => {},
        Opcode::I64x2Abs => {},
        Opcode::I64x2Neg => {},
        Opcode::I64x2AllTrue => {},
        Opcode::I64x2Bitmask => {},
        Opcode::I64x2ExtendLowI32x4S => {},
        Opcode::I64x2ExtendHighI32x4S => {},
        Opcode::I64x2ExtendLowI32x4U => {},
        Opcode::I64x2ExtendHighI32x4U => {},
        Opcode::I64x2Shl => {},
        Opcode::I64x2ShrS => {},
        Opcode::I64x2ShrU => {},
        Opcode::I64x2Add => {},
        Opcode::I64x2Sub => {},
        Opcode::I64x2Mul => {},
        Opcode::I64x2Eq => {},
        Opcode::I64x2Ne => {},
        Opcode::I64x2LtS => {},
        Opcode::I64x2GtS => {},
        Opcode::I64x2LeS => {},
        Opcode::I64x2GeS => {},
        Opcode::I64x2ExtmulLowI32x4S => {},
        Opcode::I64x2ExtmulHighI32x4S => {},
        Opcode::I64x2ExtmulLowI32x4U => {},
        Opcode::I64x2ExtmulHighI32x4U => {},
        Opcode::F32x4Abs => {},
        Opcode::F32x4Neg => {},
        Opcode::F32x4Sqrt => {},
        Opcode::F32x4Add => {},
        Opcode::F32x4Sub => {},
        Opcode::F32x4Mul => {},
        Opcode::F32x4Div => {},
        Opcode::F32x4Min => {},
        Opcode::F32x4Max => {},
        Opcode::F32x4Pmin => {},
        Opcode::F32x4Pmax => {},
        Opcode::F64x2Abs => {},
        Opcode::F64x2Neg => {},
        Opcode::F64x2Sqrt => {},
        Opcode::F64x2Add => {},
        Opcode::F64x2Sub => {},
        Opcode::F64x2Mul => {},
        Opcode::F64x2Div => {},
        Opcode::F64x2Min => {},
        Opcode::F64x2Max => {},
        Opcode::F64x2Pmin => {},
        Opcode::F64x2Pmax => {},
        Opcode::I32x4TruncSatF32x4S => {},
        Opcode::I32x4TruncSatF32x4U => {},
        Opcode::F32x4ConvertI32x4S => {},
        Opcode::F32x4ConvertI32x4U => {},
        Opcode::I32x4TruncSatF64x2SZero => {},
        Opcode::I32x4TruncSatF64x2UZero => {},
        Opcode::F64x2ConvertLowI32x4S => {},
        Opcode::F64x2ConvertLowI32x4U => {},
        Opcode::ReturnCall => {},
        Opcode::ReturnCallIndirect => {},
        Opcode::MemoryAtomicNotify => {},
        Opcode::MemoryAtomicWait32 => {},
        Opcode::MemoryAtomicWait64 => {},
        Opcode::I32AtomicLoad => {},
        Opcode::I64AtomicLoad => {},
        Opcode::I32AtomicLoad8U => {},
        Opcode::I32AtomicLoad16U => {},
        Opcode::I64AtomicLoad8U => {},
        Opcode::I64AtomicLoad16U => {},
        Opcode::I64AtomicLoad32U => {},
        Opcode::I32AtomicStore => {},
        Opcode::I64AtomicStore => {},
        Opcode::I32AtomicStore8U => {},
        Opcode::I32AtomicStore16U => {},
        Opcode::I64AtomicStore8U => {},
        Opcode::I64AtomicStore16U => {},
        Opcode::I64AtomicStore32U => {},
        Opcode::I32AtomicRmwAdd => {},
        Opcode::I64AtomicRmwAdd => {},
        Opcode::I32AtomicRmw8AddU => {},
        Opcode::I32AtomicRmw16AddU => {},
        Opcode::I64AtomicRmw8AddU => {},
        Opcode::I64AtomicRmw16AddU => {},
        Opcode::I64AtomicRmw32AddU => {},
        Opcode::I32AtomicRmwSub => {},
        Opcode::I64AtomicRmwSub => {},
        Opcode::I32AtomicRmw8SubU => {},
        Opcode::I32AtomicRmw16SubU => {},
        Opcode::I64AtomicRmw8SubU => {},
        Opcode::I64AtomicRmw16SubU => {},
        Opcode::I64AtomicRmw32SubU => {},
        Opcode::I32AtomicRmwAnd => {},
        Opcode::I64AtomicRmwAnd => {},
        Opcode::I32AtomicRmw8AndU => {},
        Opcode::I32AtomicRmw16AndU => {},
        Opcode::I64AtomicRmw8AndU => {},
        Opcode::I64AtomicRmw16AndU => {},
        Opcode::I64AtomicRmw32AndU => {},
        Opcode::I32AtomicRmwOr => {},
        Opcode::I64AtomicRmwOr => {},
        Opcode::I32AtomicRmw8OrU => {},
        Opcode::I32AtomicRmw16OrU => {},
        Opcode::I64AtomicRmw8OrU => {},
        Opcode::I64AtomicRmw16OrU => {},
        Opcode::I64AtomicRmw32OrU => {},
        Opcode::I32AtomicRmwXor => {},
        Opcode::I64AtomicRmwXor => {},
        Opcode::I32AtomicRmw8XorU => {},
        Opcode::I32AtomicRmw16XorU => {},
        Opcode::I64AtomicRmw8XorU => {},
        Opcode::I64AtomicRmw16XorU => {},
        Opcode::I64AtomicRmw32XorU => {},
        Opcode::I32AtomicRmwXchg => {},
        Opcode::I64AtomicRmwXchg => {},
        Opcode::I32AtomicRmw8XchgU => {},
        Opcode::I32AtomicRmw16XchgU => {},
        Opcode::I64AtomicRmw8XchgU => {},
        Opcode::I64AtomicRmw16XchgU => {},
        Opcode::I64AtomicRmw32XchgU => {},
        Opcode::I32AtomicRmwCmpxchg => {},
        Opcode::I64AtomicRmwCmpxchg => {},
        Opcode::I32AtomicRmw8CmpxchgU => {},
        Opcode::I32AtomicRmw16CmpxchgU => {},
        Opcode::I64AtomicRmw8CmpxchgU => {},
        Opcode::I64AtomicRmw16CmpxchgU => {},
        Opcode::I64AtomicRmw32CmpxchgU => {},
        Opcode::Try => {},
        Opcode::Catch => {},
        Opcode::Throw => {},
        Opcode::Rethrow => {},
        Opcode::Delegate => {},
        Opcode::CatchAll => {},
        Opcode::I8x16RelaxedSwizzle => {},
        Opcode::I32x4RelaxedTruncF32x4S => {},
        Opcode::I32x4RelaxedTruncF32x4U => {},
        Opcode::I32x4RelaxedTruncF64x2SZero => {},
        Opcode::I32x4RelaxedTruncF64x2UZero => {},
        Opcode::F32x4RelaxedMadd => {},
        Opcode::F32x4RelaxedNmadd => {},
        Opcode::F64x2RelaxedMadd => {},
        Opcode::F64x2RelaxedNmadd => {},
        Opcode::I8x16RelaxedLaneselect => {},
        Opcode::I16x8RelaxedLaneselect => {},
        Opcode::I32x4RelaxedLaneselect => {},
        Opcode::I64x2RelaxedLaneselect => {},
        Opcode::F32x4RelaxedMin => {},
        Opcode::F32x4RelaxedMax => {},
        Opcode::F64x2RelaxedMin => {},
        Opcode::F64x2RelaxedMax => {},
        Opcode::I16x8RelaxedQ15mulrS => {},
        Opcode::I16x8RelaxedDotI8x16I7x16S => {},
        Opcode::I32x4RelaxedDotI8x16I7x16AddS => {},
    }
}

} // verus!
