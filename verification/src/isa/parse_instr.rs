//! The [`ParseInstr`] trait, whose methods receive each kind of instruction with its immediate
//! arguments, and the [`instr`] parser that hands an instruction to it.

use vstd::prelude::*;

use crate::error::{error_at, ErrorCause, ErrorSource, Outcome, Parsed};
use crate::index::{DataIdx, ElemIdx, FuncIdx, GlobalIdx, LabelIdx, LocalIdx, MemIdx, TableIdx, TagIdx, TypeIdx};
use crate::isa::expr::{lemma_expr_step, nesting, prepend, spec_expr, spec_expr_from, spec_nesting};
use crate::isa::instr::{lemma_instr_progress, spec_instr, Immediates, ImmediatesView, Instr, LaneIdx};
use crate::isa::invalid::InvalidInstr;
use crate::isa::mem_arg::MemArg;
use crate::isa::opcode::Opcode;
use crate::types::{BlockType, RefType, ValType};
use crate::values::{V128ShuffleLanes, F32, F64, V128};

verus! {

/// Error type used by the [`ParseInstr`] trait's methods.
pub enum ParseInstrError<E> {
    /// An immediate argument for the parsed instruction could not be parsed.
    ParseFailed(E),
    /// The instruction is refused for the given reason.
    Cause(ErrorCause),
    /// The [`ParseInstr`] implementation does not recognize the instruction that was parsed.
    Unrecognized,
}

/// Trait for parsing [WebAssembly instructions]: each method receives one kind of instruction
/// with its immediate arguments. By default, each method hands its instruction to
/// [`ParseInstr::unrecognized`].
///
/// An instruction is read and handed to an implementation with the [`instr`] parser.
///
/// [WebAssembly instructions]: https://webassembly.github.io/spec/core/binary/instructions.html
pub trait ParseInstr<'a, E: ErrorSource<'a>>: Sized {
    /// What an implementation does with an instruction: `before` and `after` are the
    /// implementation before and after it receives the instruction `ins` (its opcode and
    /// immediate arguments), and `r` is its answer. Each method does what this says for its
    /// instruction. Unless an implementation says otherwise, it refuses every instruction as
    /// unrecognized and stays as it was.
    open spec fn spec_receives(before: Self, after: Self, ins: (Opcode, ImmediatesView), r: Result<(), ParseInstrError<E>>) -> bool {
        r matches Err(ParseInstrError::Unrecognized) && after == before
    }

    /// Receives an instruction that no other method of the implementation takes: every provided
    /// method hands its instruction on to this one. An implementation that recognizes no other
    /// instruction answers [`ParseInstrError::Unrecognized`].
    fn unrecognized(&mut self, instr: &Instr) -> (r: Result<(), ParseInstrError<E>>)
        ensures
            Self::spec_receives(*old(self), *final(self), instr@, r),
    ;

    /// Receives a `unreachable` instruction.
    fn unreachable(&mut self) -> (r: Result<(), ParseInstrError<E>>)
        ensures
            Self::spec_receives(*old(self), *final(self), (Opcode::Unreachable, ImmediatesView::NoArgs), r),
    {
        self.unrecognized(&Instr { opcode: Opcode::Unreachable, args: Immediates::NoArgs })
    }

    /// Receives a `nop` instruction.
    fn nop(&mut self) -> (r: Result<(), ParseInstrError<E>>)
        ensures
            Self::spec_receives(*old(self), *final(self), (Opcode::Nop, ImmediatesView::NoArgs), r),
    {
        self.unrecognized(&Instr { opcode: Opcode::Nop, args: Immediates::NoArgs })
    }

    /// Receives a `block` instruction.
    fn block(&mut self, block_type: BlockType) -> (r: Result<(), ParseInstrError<E>>)
        ensures
            Self::spec_receives(*old(self), *final(self), (Opcode::Block, ImmediatesView::Block(block_type)), r),
    {
        self.unrecognized(&Instr { opcode: Opcode::Block, args: Immediates::Block(block_type) })
    }

    /// Receives a `loop` instruction.
    fn loop_(&mut self, block_type: BlockType) -> (r: Result<(), ParseInstrError<E>>)
        ensures
            Self::spec_receives(*old(self), *final(self), (Opcode::Loop, ImmediatesView::Block(block_type)), r),
    {
        self.unrecognized(&Instr { opcode: Opcode::Loop, args: Immediates::Block(block_type) })
    }

    /// Receives a `if` instruction.
    fn if_(&mut self, block_type: BlockType) -> (r: Result<(), ParseInstrError<E>>)
        ensures
            Self::spec_receives(*old(self), *final(self), (Opcode::If, ImmediatesView::Block(block_type)), r),
    {
        self.unrecognized(&Instr { opcode: Opcode::If, args: Immediates::Block(block_type) })
    }

    /// Receives a `else` instruction.
    fn else_(&mut self) -> (r: Result<(), ParseInstrError<E>>)
        ensures
            Self::spec_receives(*old(self), *final(self), (Opcode::Else, ImmediatesView::NoArgs), r),
    {
        self.unrecognized(&Instr { opcode: Opcode::Else, args: Immediates::NoArgs })
    }

    /// Receives a `end` instruction.
    fn end(&mut self) -> (r: Result<(), ParseInstrError<E>>)
        ensures
            Self::spec_receives(*old(self), *final(self), (Opcode::End, ImmediatesView::NoArgs), r),
    {
        self.unrecognized(&Instr { opcode: Opcode::End, args: Immediates::NoArgs })
    }

    /// Receives a `br` instruction.
    fn br(&mut self, target: LabelIdx) -> (r: Result<(), ParseInstrError<E>>)
        ensures
            Self::spec_receives(*old(self), *final(self), (Opcode::Br, ImmediatesView::Label(target)), r),
    {
        self.unrecognized(&Instr { opcode: Opcode::Br, args: Immediates::Label(target) })
    }

    /// Receives a `br_if` instruction.
    fn br_if(&mut self, target: LabelIdx) -> (r: Result<(), ParseInstrError<E>>)
        ensures
            Self::spec_receives(*old(self), *final(self), (Opcode::BrIf, ImmediatesView::Label(target)), r),
    {
        self.unrecognized(&Instr { opcode: Opcode::BrIf, args: Immediates::Label(target) })
    }

    /// Receives a `br_table` instruction.
    fn br_table(&mut self, targets: &[LabelIdx], default_target: LabelIdx) -> (r: Result<(), ParseInstrError<E>>)
        ensures
            Self::spec_receives(*old(self), *final(self), (Opcode::BrTable, ImmediatesView::BrTable { targets: targets@, default_target }), r),
    {
        self.unrecognized(&Instr { opcode: Opcode::BrTable, args: Immediates::BrTable { targets: vstd::slice::slice_to_vec(targets), default_target } })
    }

    /// Receives a `return` instruction.
    fn return_(&mut self) -> (r: Result<(), ParseInstrError<E>>)
        ensures
            Self::spec_receives(*old(self), *final(self), (Opcode::Return, ImmediatesView::NoArgs), r),
    {
        self.unrecognized(&Instr { opcode: Opcode::Return, args: Immediates::NoArgs })
    }

    /// Receives a `call` instruction.
    fn call(&mut self, callee: FuncIdx) -> (r: Result<(), ParseInstrError<E>>)
        ensures
            Self::spec_receives(*old(self), *final(self), (Opcode::Call, ImmediatesView::Func(callee)), r),
    {
        self.unrecognized(&Instr { opcode: Opcode::Call, args: Immediates::Func(callee) })
    }

    /// Receives a `call_indirect` instruction.
    fn call_indirect(&mut self, signature: TypeIdx, table: TableIdx) -> (r: Result<(), ParseInstrError<E>>)
        ensures
            Self::spec_receives(*old(self), *final(self), (Opcode::CallIndirect, ImmediatesView::CallIndirect { signature: signature, table: table }), r),
    {
        self.unrecognized(&Instr { opcode: Opcode::CallIndirect, args: Immediates::CallIndirect { signature: signature, table: table } })
    }

    /// Receives a `drop` instruction.
    fn drop(&mut self) -> (r: Result<(), ParseInstrError<E>>)
        ensures
            Self::spec_receives(*old(self), *final(self), (Opcode::Drop, ImmediatesView::NoArgs), r),
    {
        self.unrecognized(&Instr { opcode: Opcode::Drop, args: Immediates::NoArgs })
    }

    /// Receives a `select` instruction.
    fn select(&mut self) -> (r: Result<(), ParseInstrError<E>>)
        ensures
            Self::spec_receives(*old(self), *final(self), (Opcode::Select, ImmediatesView::NoArgs), r),
    {
        self.unrecognized(&Instr { opcode: Opcode::Select, args: Immediates::NoArgs })
    }

    /// Receives a `select` instruction.
    fn select_typed(&mut self, value_type: ValType) -> (r: Result<(), ParseInstrError<E>>)
        ensures
            Self::spec_receives(*old(self), *final(self), (Opcode::SelectTyped, ImmediatesView::SelectTyped(value_type)), r),
    {
        self.unrecognized(&Instr { opcode: Opcode::SelectTyped, args: Immediates::SelectTyped(value_type) })
    }

    /// Receives a `local.get` instruction.
    fn local_get(&mut self, local: LocalIdx) -> (r: Result<(), ParseInstrError<E>>)
        ensures
            Self::spec_receives(*old(self), *final(self), (Opcode::LocalGet, ImmediatesView::Local(local)), r),
    {
        self.unrecognized(&Instr { opcode: Opcode::LocalGet, args: Immediates::Local(local) })
    }

    /// Receives a `local.set` instruction.
    fn local_set(&mut self, local: LocalIdx) -> (r: Result<(), ParseInstrError<E>>)
        ensures
            Self::spec_receives(*old(self), *final(self), (Opcode::LocalSet, ImmediatesView::Local(local)), r),
    {
        self.unrecognized(&Instr { opcode: Opcode::LocalSet, args: Immediates::Local(local) })
    }

    /// Receives a `local.tee` instruction.
    fn local_tee(&mut self, local: LocalIdx) -> (r: Result<(), ParseInstrError<E>>)
        ensures
            Self::spec_receives(*old(self), *final(self), (Opcode::LocalTee, ImmediatesView::Local(local)), r),
    {
        self.unrecognized(&Instr { opcode: Opcode::LocalTee, args: Immediates::Local(local) })
    }

    /// Receives a `global.get` instruction.
    fn global_get(&mut self, global_: GlobalIdx) -> (r: Result<(), ParseInstrError<E>>)
        ensures
            Self::spec_receives(*old(self), *final(self), (Opcode::GlobalGet, ImmediatesView::Global(global_)), r),
    {
        self.unrecognized(&Instr { opcode: Opcode::GlobalGet, args: Immediates::Global(global_) })
    }

    /// Receives a `global.set` instruction.
    fn global_set(&mut self, global_: GlobalIdx) -> (r: Result<(), ParseInstrError<E>>)
        ensures
            Self::spec_receives(*old(self), *final(self), (Opcode::GlobalSet, ImmediatesView::Global(global_)), r),
    {
        self.unrecognized(&Instr { opcode: Opcode::GlobalSet, args: Immediates::Global(global_) })
    }

    /// Receives a `i32.load` instruction.
    fn i32_load(&mut self, arg: MemArg) -> (r: Result<(), ParseInstrError<E>>)
        ensures
            Self::spec_receives(*old(self), *final(self), (Opcode::I32Load, ImmediatesView::Mem(arg)), r),
    {
        self.unrecognized(&Instr { opcode: Opcode::I32Load, args: Immediates::Mem(arg) })
    }

    /// Receives a `i64.load` instruction.
    fn i64_load(&mut self, arg: MemArg) -> (r: Result<(), ParseInstrError<E>>)
        ensures
            Self::spec_receives(*old(self), *final(self), (Opcode::I64Load, ImmediatesView::Mem(arg)), r),
    {
        self.unrecognized(&Instr { opcode: Opcode::I64Load, args: Immediates::Mem(arg) })
    }

    /// Receives a `f32.load` instruction.
    fn f32_load(&mut self, arg: MemArg) -> (r: Result<(), ParseInstrError<E>>)
        ensures
            Self::spec_receives(*old(self), *final(self), (Opcode::F32Load, ImmediatesView::Mem(arg)), r),
    {
        self.unrecognized(&Instr { opcode: Opcode::F32Load, args: Immediates::Mem(arg) })
    }

    /// Receives a `f64.load` instruction.
    fn f64_load(&mut self, arg: MemArg) -> (r: Result<(), ParseInstrError<E>>)
        ensures
            Self::spec_receives(*old(self), *final(self), (Opcode::F64Load, ImmediatesView::Mem(arg)), r),
    {
        self.unrecognized(&Instr { opcode: Opcode::F64Load, args: Immediates::Mem(arg) })
    }

    /// Receives a `i32.load8_s` instruction.
    fn i32_load8_s(&mut self, arg: MemArg) -> (r: Result<(), ParseInstrError<E>>)
        ensures
            Self::spec_receives(*old(self), *final(self), (Opcode::I32Load8S, ImmediatesView::Mem(arg)), r),
    {
        self.unrecognized(&Instr { opcode: Opcode::I32Load8S, args: Immediates::Mem(arg) })
    }

    /// Receives a `i32.load8_u` instruction.
    fn i32_load8_u(&mut self, arg: MemArg) -> (r: Result<(), ParseInstrError<E>>)
        ensures
            Self::spec_receives(*old(self), *final(self), (Opcode::I32Load8U, ImmediatesView::Mem(arg)), r),
    {
        self.unrecognized(&Instr { opcode: Opcode::I32Load8U, args: Immediates::Mem(arg) })
    }

    /// Receives a `i32.load16_s` instruction.
    fn i32_load16_s(&mut self, arg: MemArg) -> (r: Result<(), ParseInstrError<E>>)
        ensures
            Self::spec_receives(*old(self), *final(self), (Opcode::I32Load16S, ImmediatesView::Mem(arg)), r),
    {
        self.unrecognized(&Instr { opcode: Opcode::I32Load16S, args: Immediates::Mem(arg) })
    }

    /// Receives a `i32.load16_u` instruction.
    fn i32_load16_u(&mut self, arg: MemArg) -> (r: Result<(), ParseInstrError<E>>)
        ensures
            Self::spec_receives(*old(self), *final(self), (Opcode::I32Load16U, ImmediatesView::Mem(arg)), r),
    {
        self.unrecognized(&Instr { opcode: Opcode::I32Load16U, args: Immediates::Mem(arg) })
    }

    /// Receives a `i64.load8_s` instruction.
    fn i64_load8_s(&mut self, arg: MemArg) -> (r: Result<(), ParseInstrError<E>>)
        ensures
            Self::spec_receives(*old(self), *final(self), (Opcode::I64Load8S, ImmediatesView::Mem(arg)), r),
    {
        self.unrecognized(&Instr { opcode: Opcode::I64Load8S, args: Immediates::Mem(arg) })
    }

    /// Receives a `i64.load8_u` instruction.
    fn i64_load8_u(&mut self, arg: MemArg) -> (r: Result<(), ParseInstrError<E>>)
        ensures
            Self::spec_receives(*old(self), *final(self), (Opcode::I64Load8U, ImmediatesView::Mem(arg)), r),
    {
        self.unrecognized(&Instr { opcode: Opcode::I64Load8U, args: Immediates::Mem(arg) })
    }

    /// Receives a `i64.load16_s` instruction.
    fn i64_load16_s(&mut self, arg: MemArg) -> (r: Result<(), ParseInstrError<E>>)
        ensures
            Self::spec_receives(*old(self), *final(self), (Opcode::I64Load16S, ImmediatesView::Mem(arg)), r),
    {
        self.unrecognized(&Instr { opcode: Opcode::I64Load16S, args: Immediates::Mem(arg) })
    }

    /// Receives a `i64.load16_u` instruction.
    fn i64_load16_u(&mut self, arg: MemArg) -> (r: Result<(), ParseInstrError<E>>)
        ensures
            Self::spec_receives(*old(self), *final(self), (Opcode::I64Load16U, ImmediatesView::Mem(arg)), r),
    {
        self.unrecognized(&Instr { opcode: Opcode::I64Load16U, args: Immediates::Mem(arg) })
    }

    /// Receives a `i64.load32_s` instruction.
    fn i64_load32_s(&mut self, arg: MemArg) -> (r: Result<(), ParseInstrError<E>>)
        ensures
            Self::spec_receives(*old(self), *final(self), (Opcode::I64Load32S, ImmediatesView::Mem(arg)), r),
    {
        self.unrecognized(&Instr { opcode: Opcode::I64Load32S, args: Immediates::Mem(arg) })
    }

    /// Receives a `i64.load32_u` instruction.
    fn i64_load32_u(&mut self, arg: MemArg) -> (r: Result<(), ParseInstrError<E>>)
        ensures
            Self::spec_receives(*old(self), *final(self), (Opcode::I64Load32U, ImmediatesView::Mem(arg)), r),
    {
        self.unrecognized(&Instr { opcode: Opcode::I64Load32U, args: Immediates::Mem(arg) })
    }

    /// Receives a `i32.store` instruction.
    fn i32_store(&mut self, arg: MemArg) -> (r: Result<(), ParseInstrError<E>>)
        ensures
            Self::spec_receives(*old(self), *final(self), (Opcode::I32Store, ImmediatesView::Mem(arg)), r),
    {
        self.unrecognized(&Instr { opcode: Opcode::I32Store, args: Immediates::Mem(arg) })
    }

    /// Receives a `i64.store` instruction.
    fn i64_store(&mut self, arg: MemArg) -> (r: Result<(), ParseInstrError<E>>)
        ensures
            Self::spec_receives(*old(self), *final(self), (Opcode::I64Store, ImmediatesView::Mem(arg)), r),
    {
        self.unrecognized(&Instr { opcode: Opcode::I64Store, args: Immediates::Mem(arg) })
    }

    /// Receives a `f32.store` instruction.
    fn f32_store(&mut self, arg: MemArg) -> (r: Result<(), ParseInstrError<E>>)
        ensures
            Self::spec_receives(*old(self), *final(self), (Opcode::F32Store, ImmediatesView::Mem(arg)), r),
    {
        self.unrecognized(&Instr { opcode: Opcode::F32Store, args: Immediates::Mem(arg) })
    }

    /// Receives a `f64.store` instruction.
    fn f64_store(&mut self, arg: MemArg) -> (r: Result<(), ParseInstrError<E>>)
        ensures
            Self::spec_receives(*old(self), *final(self), (Opcode::F64Store, ImmediatesView::Mem(arg)), r),
    {
        self.unrecognized(&Instr { opcode: Opcode::F64Store, args: Immediates::Mem(arg) })
    }

    /// Receives a `i32.store8` instruction.
    fn i32_store8(&mut self, arg: MemArg) -> (r: Result<(), ParseInstrError<E>>)
        ensures
            Self::spec_receives(*old(self), *final(self), (Opcode::I32Store8, ImmediatesView::Mem(arg)), r),
    {
        self.unrecognized(&Instr { opcode: Opcode::I32Store8, args: Immediates::Mem(arg) })
    }

    /// Receives a `i32.store16` instruction.
    fn i32_store16(&mut self, arg: MemArg) -> (r: Result<(), ParseInstrError<E>>)
        ensures
            Self::spec_receives(*old(self), *final(self), (Opcode::I32Store16, ImmediatesView::Mem(arg)), r),
    {
        self.unrecognized(&Instr { opcode: Opcode::I32Store16, args: Immediates::Mem(arg) })
    }

    /// Receives a `i64.store8` instruction.
    fn i64_store8(&mut self, arg: MemArg) -> (r: Result<(), ParseInstrError<E>>)
        ensures
            Self::spec_receives(*old(self), *final(self), (Opcode::I64Store8, ImmediatesView::Mem(arg)), r),
    {
        self.unrecognized(&Instr { opcode: Opcode::I64Store8, args: Immediates::Mem(arg) })
    }

    /// Receives a `i64.store16` instruction.
    fn i64_store16(&mut self, arg: MemArg) -> (r: Result<(), ParseInstrError<E>>)
        ensures
            Self::spec_receives(*old(self), *final(self), (Opcode::I64Store16, ImmediatesView::Mem(arg)), r),
    {
        self.unrecognized(&Instr { opcode: Opcode::I64Store16, args: Immediates::Mem(arg) })
    }

    /// Receives a `i64.store32` instruction.
    fn i64_store32(&mut self, arg: MemArg) -> (r: Result<(), ParseInstrError<E>>)
        ensures
            Self::spec_receives(*old(self), *final(self), (Opcode::I64Store32, ImmediatesView::Mem(arg)), r),
    {
        self.unrecognized(&Instr { opcode: Opcode::I64Store32, args: Immediates::Mem(arg) })
    }

    /// Receives a `memory.size` instruction.
    fn memory_size(&mut self, memory: MemIdx) -> (r: Result<(), ParseInstrError<E>>)
        ensures
            Self::spec_receives(*old(self), *final(self), (Opcode::MemorySize, ImmediatesView::Memory(memory)), r),
    {
        self.unrecognized(&Instr { opcode: Opcode::MemorySize, args: Immediates::Memory(memory) })
    }

    /// Receives a `memory.grow` instruction.
    fn memory_grow(&mut self, memory: MemIdx) -> (r: Result<(), ParseInstrError<E>>)
        ensures
            Self::spec_receives(*old(self), *final(self), (Opcode::MemoryGrow, ImmediatesView::Memory(memory)), r),
    {
        self.unrecognized(&Instr { opcode: Opcode::MemoryGrow, args: Immediates::Memory(memory) })
    }

    /// Receives a `i32.const` instruction.
    fn i32_const(&mut self, n: i32) -> (r: Result<(), ParseInstrError<E>>)
        ensures
            Self::spec_receives(*old(self), *final(self), (Opcode::I32Const, ImmediatesView::I32(n)), r),
    {
        self.unrecognized(&Instr { opcode: Opcode::I32Const, args: Immediates::I32(n) })
    }

    /// Receives a `i64.const` instruction.
    fn i64_const(&mut self, n: i64) -> (r: Result<(), ParseInstrError<E>>)
        ensures
            Self::spec_receives(*old(self), *final(self), (Opcode::I64Const, ImmediatesView::I64(n)), r),
    {
        self.unrecognized(&Instr { opcode: Opcode::I64Const, args: Immediates::I64(n) })
    }

    /// Receives a `f32.const` instruction.
    fn f32_const(&mut self, z: F32) -> (r: Result<(), ParseInstrError<E>>)
        ensures
            Self::spec_receives(*old(self), *final(self), (Opcode::F32Const, ImmediatesView::F32(z.bits)), r),
    {
        self.unrecognized(&Instr { opcode: Opcode::F32Const, args: Immediates::F32(z) })
    }

    /// Receives a `f64.const` instruction.
    fn f64_const(&mut self, z: F64) -> (r: Result<(), ParseInstrError<E>>)
        ensures
            Self::spec_receives(*old(self), *final(self), (Opcode::F64Const, ImmediatesView::F64(z.bits)), r),
    {
        self.unrecognized(&Instr { opcode: Opcode::F64Const, args: Immediates::F64(z) })
    }

    /// Receives a `i32.eqz` instruction.
    fn i32_eqz(&mut self) -> (r: Result<(), ParseInstrError<E>>)
        ensures
            Self::spec_receives(*old(self), *final(self), (Opcode::I32Eqz, ImmediatesView::NoArgs), r),
    {
        self.unrecognized(&Instr { opcode: Opcode::I32Eqz, args: Immediates::NoArgs })
    }

    /// Receives a `i32.eq` instruction.
    fn i32_eq(&mut self) -> (r: Result<(), ParseInstrError<E>>)
        ensures
            Self::spec_receives(*old(self), *final(self), (Opcode::I32Eq, ImmediatesView::NoArgs), r),
    {
        self.unrecognized(&Instr { opcode: Opcode::I32Eq, args: Immediates::NoArgs })
    }

    /// Receives a `i32.ne` instruction.
    fn i32_ne(&mut self) -> (r: Result<(), ParseInstrError<E>>)
        ensures
            Self::spec_receives(*old(self), *final(self), (Opcode::I32Ne, ImmediatesView::NoArgs), r),
    {
        self.unrecognized(&Instr { opcode: Opcode::I32Ne, args: Immediates::NoArgs })
    }

    /// Receives a `i32.lt_s` instruction.
    fn i32_lt_s(&mut self) -> (r: Result<(), ParseInstrError<E>>)
        ensures
            Self::spec_receives(*old(self), *final(self), (Opcode::I32LtS, ImmediatesView::NoArgs), r),
    {
        self.unrecognized(&Instr { opcode: Opcode::I32LtS, args: Immediates::NoArgs })
    }

    /// Receives a `i32.lt_u` instruction.
    fn i32_lt_u(&mut self) -> (r: Result<(), ParseInstrError<E>>)
        ensures
            Self::spec_receives(*old(self), *final(self), (Opcode::I32LtU, ImmediatesView::NoArgs), r),
    {
        self.unrecognized(&Instr { opcode: Opcode::I32LtU, args: Immediates::NoArgs })
    }

    /// Receives a `i32.gt_s` instruction.
    fn i32_gt_s(&mut self) -> (r: Result<(), ParseInstrError<E>>)
        ensures
            Self::spec_receives(*old(self), *final(self), (Opcode::I32GtS, ImmediatesView::NoArgs), r),
    {
        self.unrecognized(&Instr { opcode: Opcode::I32GtS, args: Immediates::NoArgs })
    }

    /// Receives a `i32.gt_u` instruction.
    fn i32_gt_u(&mut self) -> (r: Result<(), ParseInstrError<E>>)
        ensures
            Self::spec_receives(*old(self), *final(self), (Opcode::I32GtU, ImmediatesView::NoArgs), r),
    {
        self.unrecognized(&Instr { opcode: Opcode::I32GtU, args: Immediates::NoArgs })
    }

    /// Receives a `i32.le_s` instruction.
    fn i32_le_s(&mut self) -> (r: Result<(), ParseInstrError<E>>)
        ensures
            Self::spec_receives(*old(self), *final(self), (Opcode::I32LeS, ImmediatesView::NoArgs), r),
    {
        self.unrecognized(&Instr { opcode: Opcode::I32LeS, args: Immediates::NoArgs })
    }

    /// Receives a `i32.le_u` instruction.
    fn i32_le_u(&mut self) -> (r: Result<(), ParseInstrError<E>>)
        ensures
            Self::spec_receives(*old(self), *final(self), (Opcode::I32LeU, ImmediatesView::NoArgs), r),
    {
        self.unrecognized(&Instr { opcode: Opcode::I32LeU, args: Immediates::NoArgs })
    }

    /// Receives a `i32.ge_s` instruction.
    fn i32_lg_s(&mut self) -> (r: Result<(), ParseInstrError<E>>)
        ensures
            Self::spec_receives(*old(self), *final(self), (Opcode::I32GeS, ImmediatesView::NoArgs), r),
    {
        self.unrecognized(&Instr { opcode: Opcode::I32GeS, args: Immediates::NoArgs })
    }

    /// Receives a `i32.ge_u` instruction.
    fn i32_ge_u(&mut self) -> (r: Result<(), ParseInstrError<E>>)
        ensures
            Self::spec_receives(*old(self), *final(self), (Opcode::I32GeU, ImmediatesView::NoArgs), r),
    {
        self.unrecognized(&Instr { opcode: Opcode::I32GeU, args: Immediates::NoArgs })
    }

    /// Receives a `i64.eqz` instruction.
    fn i64_eqz(&mut self) -> (r: Result<(), ParseInstrError<E>>)
        ensures
            Self::spec_receives(*old(self), *final(self), (Opcode::I64Eqz, ImmediatesView::NoArgs), r),
    {
        self.unrecognized(&Instr { opcode: Opcode::I64Eqz, args: Immediates::NoArgs })
    }

    /// Receives a `i64.eq` instruction.
    fn i64_eq(&mut self) -> (r: Result<(), ParseInstrError<E>>)
        ensures
            Self::spec_receives(*old(self), *final(self), (Opcode::I64Eq, ImmediatesView::NoArgs), r),
    {
        self.unrecognized(&Instr { opcode: Opcode::I64Eq, args: Immediates::NoArgs })
    }

    /// Receives a `i64.ne` instruction.
    fn i64_ne(&mut self) -> (r: Result<(), ParseInstrError<E>>)
        ensures
            Self::spec_receives(*old(self), *final(self), (Opcode::I64Ne, ImmediatesView::NoArgs), r),
    {
        self.unrecognized(&Instr { opcode: Opcode::I64Ne, args: Immediates::NoArgs })
    }

    /// Receives a `i64.lt_s` instruction.
    fn i64_lt_s(&mut self) -> (r: Result<(), ParseInstrError<E>>)
        ensures
            Self::spec_receives(*old(self), *final(self), (Opcode::I64LtS, ImmediatesView::NoArgs), r),
    {
        self.unrecognized(&Instr { opcode: Opcode::I64LtS, args: Immediates::NoArgs })
    }

    /// Receives a `i64.lt_u` instruction.
    fn i64_lt_u(&mut self) -> (r: Result<(), ParseInstrError<E>>)
        ensures
            Self::spec_receives(*old(self), *final(self), (Opcode::I64LtU, ImmediatesView::NoArgs), r),
    {
        self.unrecognized(&Instr { opcode: Opcode::I64LtU, args: Immediates::NoArgs })
    }

    /// Receives a `i64.gt_s` instruction.
    fn i64_gt_s(&mut self) -> (r: Result<(), ParseInstrError<E>>)
        ensures
            Self::spec_receives(*old(self), *final(self), (Opcode::I64GtS, ImmediatesView::NoArgs), r),
    {
        self.unrecognized(&Instr { opcode: Opcode::I64GtS, args: Immediates::NoArgs })
    }

    /// Receives a `i64.gt_u` instruction.
    fn i64_gt_u(&mut self) -> (r: Result<(), ParseInstrError<E>>)
        ensures
            Self::spec_receives(*old(self), *final(self), (Opcode::I64GtU, ImmediatesView::NoArgs), r),
    {
        self.unrecognized(&Instr { opcode: Opcode::I64GtU, args: Immediates::NoArgs })
    }

    /// Receives a `i64.le_s` instruction.
    fn i64_le_s(&mut self) -> (r: Result<(), ParseInstrError<E>>)
        ensures
            Self::spec_receives(*old(self), *final(self), (Opcode::I64LeS, ImmediatesView::NoArgs), r),
    {
        self.unrecognized(&Instr { opcode: Opcode::I64LeS, args: Immediates::NoArgs })
    }

    /// Receives a `i64.le_u` instruction.
    fn i64_le_u(&mut self) -> (r: Result<(), ParseInstrError<E>>)
        ensures
            Self::spec_receives(*old(self), *final(self), (Opcode::I64LeU, ImmediatesView::NoArgs), r),
    {
        self.unrecognized(&Instr { opcode: Opcode::I64LeU, args: Immediates::NoArgs })
    }

    /// Receives a `i64.ge_s` instruction.
    fn i64_ge_s(&mut self) -> (r: Result<(), ParseInstrError<E>>)
        ensures
            Self::spec_receives(*old(self), *final(self), (Opcode::I64GeS, ImmediatesView::NoArgs), r),
    {
        self.unrecognized(&Instr { opcode: Opcode::I64GeS, args: Immediates::NoArgs })
    }

    /// Receives a `i64.ge_u` instruction.
    fn i64_ge_u(&mut self) -> (r: Result<(), ParseInstrError<E>>)
        ensures
            Self::spec_receives(*old(self), *final(self), (Opcode::I64GeU, ImmediatesView::NoArgs), r),
    {
        self.unrecognized(&Instr { opcode: Opcode::I64GeU, args: Immediates::NoArgs })
    }

    /// Receives a `f32.eq` instruction.
    fn f32_eq(&mut self) -> (r: Result<(), ParseInstrError<E>>)
        ensures
            Self::spec_receives(*old(self), *final(self), (Opcode::F32Eq, ImmediatesView::NoArgs), r),
    {
        self.unrecognized(&Instr { opcode: Opcode::F32Eq, args: Immediates::NoArgs })
    }

    /// Receives a `f32.ne` instruction.
    fn f32_ne(&mut self) -> (r: Result<(), ParseInstrError<E>>)
        ensures
            Self::spec_receives(*old(self), *final(self), (Opcode::F32Ne, ImmediatesView::NoArgs), r),
    {
        self.unrecognized(&Instr { opcode: Opcode::F32Ne, args: Immediates::NoArgs })
    }

    /// Receives a `f32.lt` instruction.
    fn f32_lt(&mut self) -> (r: Result<(), ParseInstrError<E>>)
        ensures
            Self::spec_receives(*old(self), *final(self), (Opcode::F32Lt, ImmediatesView::NoArgs), r),
    {
        self.unrecognized(&Instr { opcode: Opcode::F32Lt, args: Immediates::NoArgs })
    }

    /// Receives a `f32.gt` instruction.
    fn f32_gt(&mut self) -> (r: Result<(), ParseInstrError<E>>)
        ensures
            Self::spec_receives(*old(self), *final(self), (Opcode::F32Gt, ImmediatesView::NoArgs), r),
    {
        self.unrecognized(&Instr { opcode: Opcode::F32Gt, args: Immediates::NoArgs })
    }

    /// Receives a `f32.le` instruction.
    fn f32_le(&mut self) -> (r: Result<(), ParseInstrError<E>>)
        ensures
            Self::spec_receives(*old(self), *final(self), (Opcode::F32Le, ImmediatesView::NoArgs), r),
    {
        self.unrecognized(&Instr { opcode: Opcode::F32Le, args: Immediates::NoArgs })
    }

    /// Receives a `f32.ge` instruction.
    fn f32_ge(&mut self) -> (r: Result<(), ParseInstrError<E>>)
        ensures
            Self::spec_receives(*old(self), *final(self), (Opcode::F32Ge, ImmediatesView::NoArgs), r),
    {
        self.unrecognized(&Instr { opcode: Opcode::F32Ge, args: Immediates::NoArgs })
    }

    /// Receives a `f64.eq` instruction.
    fn f64_eq(&mut self) -> (r: Result<(), ParseInstrError<E>>)
        ensures
            Self::spec_receives(*old(self), *final(self), (Opcode::F64Eq, ImmediatesView::NoArgs), r),
    {
        self.unrecognized(&Instr { opcode: Opcode::F64Eq, args: Immediates::NoArgs })
    }

    /// Receives a `f64.ne` instruction.
    fn f64_ne(&mut self) -> (r: Result<(), ParseInstrError<E>>)
        ensures
            Self::spec_receives(*old(self), *final(self), (Opcode::F64Ne, ImmediatesView::NoArgs), r),
    {
        self.unrecognized(&Instr { opcode: Opcode::F64Ne, args: Immediates::NoArgs })
    }

    /// Receives a `f64.lt` instruction.
    fn f64_lt(&mut self) -> (r: Result<(), ParseInstrError<E>>)
        ensures
            Self::spec_receives(*old(self), *final(self), (Opcode::F64Lt, ImmediatesView::NoArgs), r),
    {
        self.unrecognized(&Instr { opcode: Opcode::F64Lt, args: Immediates::NoArgs })
    }

    /// Receives a `f64.gt` instruction.
    fn f64_gt(&mut self) -> (r: Result<(), ParseInstrError<E>>)
        ensures
            Self::spec_receives(*old(self), *final(self), (Opcode::F64Gt, ImmediatesView::NoArgs), r),
    {
        self.unrecognized(&Instr { opcode: Opcode::F64Gt, args: Immediates::NoArgs })
    }

    /// Receives a `f64.le` instruction.
    fn f64_le(&mut self) -> (r: Result<(), ParseInstrError<E>>)
        ensures
            Self::spec_receives(*old(self), *final(self), (Opcode::F64Le, ImmediatesView::NoArgs), r),
    {
        self.unrecognized(&Instr { opcode: Opcode::F64Le, args: Immediates::NoArgs })
    }

    /// Receives a `f64.ge` instruction.
    fn f64_ge(&mut self) -> (r: Result<(), ParseInstrError<E>>)
        ensures
            Self::spec_receives(*old(self), *final(self), (Opcode::F64Ge, ImmediatesView::NoArgs), r),
    {
        self.unrecognized(&Instr { opcode: Opcode::F64Ge, args: Immediates::NoArgs })
    }

    /// Receives a `i32.clz` instruction.
    fn i32_clz(&mut self) -> (r: Result<(), ParseInstrError<E>>)
        ensures
            Self::spec_receives(*old(self), *final(self), (Opcode::I32Clz, ImmediatesView::NoArgs), r),
    {
        self.unrecognized(&Instr { opcode: Opcode::I32Clz, args: Immediates::NoArgs })
    }

    /// Receives a `i32.ctz` instruction.
    fn i32_ctz(&mut self) -> (r: Result<(), ParseInstrError<E>>)
        ensures
            Self::spec_receives(*old(self), *final(self), (Opcode::I32Ctz, ImmediatesView::NoArgs), r),
    {
        self.unrecognized(&Instr { opcode: Opcode::I32Ctz, args: Immediates::NoArgs })
    }

    /// Receives a `i32.popcnt` instruction.
    fn i32_popcnt(&mut self) -> (r: Result<(), ParseInstrError<E>>)
        ensures
            Self::spec_receives(*old(self), *final(self), (Opcode::I32Popcnt, ImmediatesView::NoArgs), r),
    {
        self.unrecognized(&Instr { opcode: Opcode::I32Popcnt, args: Immediates::NoArgs })
    }

    /// Receives a `i32.add` instruction.
    fn i32_add(&mut self) -> (r: Result<(), ParseInstrError<E>>)
        ensures
            Self::spec_receives(*old(self), *final(self), (Opcode::I32Add, ImmediatesView::NoArgs), r),
    {
        self.unrecognized(&Instr { opcode: Opcode::I32Add, args: Immediates::NoArgs })
    }

    /// Receives a `i32.sub` instruction.
    fn i32_sub(&mut self) -> (r: Result<(), ParseInstrError<E>>)
        ensures
            Self::spec_receives(*old(self), *final(self), (Opcode::I32Sub, ImmediatesView::NoArgs), r),
    {
        self.unrecognized(&Instr { opcode: Opcode::I32Sub, args: Immediates::NoArgs })
    }

    /// Receives a `i32.mul` instruction.
    fn i32_mul(&mut self) -> (r: Result<(), ParseInstrError<E>>)
        ensures
            Self::spec_receives(*old(self), *final(self), (Opcode::I32Mul, ImmediatesView::NoArgs), r),
    {
        self.unrecognized(&Instr { opcode: Opcode::I32Mul, args: Immediates::NoArgs })
    }

    /// Receives a `i32.div_s` instruction.
    fn i32_div_s(&mut self) -> (r: Result<(), ParseInstrError<E>>)
        ensures
            Self::spec_receives(*old(self), *final(self), (Opcode::I32DivS, ImmediatesView::NoArgs), r),
    {
        self.unrecognized(&Instr { opcode: Opcode::I32DivS, args: Immediates::NoArgs })
    }

    /// Receives a `i32.div_u` instruction.
    fn i32_div_u(&mut self) -> (r: Result<(), ParseInstrError<E>>)
        ensures
            Self::spec_receives(*old(self), *final(self), (Opcode::I32DivU, ImmediatesView::NoArgs), r),
    {
        self.unrecognized(&Instr { opcode: Opcode::I32DivU, args: Immediates::NoArgs })
    }

    /// Receives a `i32.rem_s` instruction.
    fn i32_rem_s(&mut self) -> (r: Result<(), ParseInstrError<E>>)
        ensures
            Self::spec_receives(*old(self), *final(self), (Opcode::I32RemS, ImmediatesView::NoArgs), r),
    {
        self.unrecognized(&Instr { opcode: Opcode::I32RemS, args: Immediates::NoArgs })
    }

    /// Receives a `i32.rem_u` instruction.
    fn i32_rem_u(&mut self) -> (r: Result<(), ParseInstrError<E>>)
        ensures
            Self::spec_receives(*old(self), *final(self), (Opcode::I32RemU, ImmediatesView::NoArgs), r),
    {
        self.unrecognized(&Instr { opcode: Opcode::I32RemU, args: Immediates::NoArgs })
    }

    /// Receives a `i32.and` instruction.
    fn i32_and(&mut self) -> (r: Result<(), ParseInstrError<E>>)
        ensures
            Self::spec_receives(*old(self), *final(self), (Opcode::I32And, ImmediatesView::NoArgs), r),
    {
        self.unrecognized(&Instr { opcode: Opcode::I32And, args: Immediates::NoArgs })
    }

    /// Receives a `i32.or` instruction.
    fn i32_or(&mut self) -> (r: Result<(), ParseInstrError<E>>)
        ensures
            Self::spec_receives(*old(self), *final(self), (Opcode::I32Or, ImmediatesView::NoArgs), r),
    {
        self.unrecognized(&Instr { opcode: Opcode::I32Or, args: Immediates::NoArgs })
    }

    /// Receives a `i32.xor` instruction.
    fn i32_xor(&mut self) -> (r: Result<(), ParseInstrError<E>>)
        ensures
            Self::spec_receives(*old(self), *final(self), (Opcode::I32Xor, ImmediatesView::NoArgs), r),
    {
        self.unrecognized(&Instr { opcode: Opcode::I32Xor, args: Immediates::NoArgs })
    }

    /// Receives a `i32.shl` instruction.
    fn i32_shl(&mut self) -> (r: Result<(), ParseInstrError<E>>)
        ensures
            Self::spec_receives(*old(self), *final(self), (Opcode::I32Shl, ImmediatesView::NoArgs), r),
    {
        self.unrecognized(&Instr { opcode: Opcode::I32Shl, args: Immediates::NoArgs })
    }

    /// Receives a `i32.shr_s` instruction.
    fn i32_shr_s(&mut self) -> (r: Result<(), ParseInstrError<E>>)
        ensures
            Self::spec_receives(*old(self), *final(self), (Opcode::I32ShrS, ImmediatesView::NoArgs), r),
    {
        self.unrecognized(&Instr { opcode: Opcode::I32ShrS, args: Immediates::NoArgs })
    }

    /// Receives a `i32.shr_u` instruction.
    fn i32_shr_u(&mut self) -> (r: Result<(), ParseInstrError<E>>)
        ensures
            Self::spec_receives(*old(self), *final(self), (Opcode::I32ShrU, ImmediatesView::NoArgs), r),
    {
        self.unrecognized(&Instr { opcode: Opcode::I32ShrU, args: Immediates::NoArgs })
    }

    /// Receives a `i32.rotl` instruction.
    fn i32_rotl(&mut self) -> (r: Result<(), ParseInstrError<E>>)
        ensures
            Self::spec_receives(*old(self), *final(self), (Opcode::I32Rotl, ImmediatesView::NoArgs), r),
    {
        self.unrecognized(&Instr { opcode: Opcode::I32Rotl, args: Immediates::NoArgs })
    }

    /// Receives a `i32.rotr` instruction.
    fn i32_rotr(&mut self) -> (r: Result<(), ParseInstrError<E>>)
        ensures
            Self::spec_receives(*old(self), *final(self), (Opcode::I32Rotr, ImmediatesView::NoArgs), r),
    {
        self.unrecognized(&Instr { opcode: Opcode::I32Rotr, args: Immediates::NoArgs })
    }

    /// Receives a `i64.clz` instruction.
    fn i64_clz(&mut self) -> (r: Result<(), ParseInstrError<E>>)
        ensures
            Self::spec_receives(*old(self), *final(self), (Opcode::I64Clz, ImmediatesView::NoArgs), r),
    {
        self.unrecognized(&Instr { opcode: Opcode::I64Clz, args: Immediates::NoArgs })
    }

    /// Receives a `i64.ctz` instruction.
    fn i64_ctz(&mut self) -> (r: Result<(), ParseInstrError<E>>)
        ensures
            Self::spec_receives(*old(self), *final(self), (Opcode::I64Ctz, ImmediatesView::NoArgs), r),
    {
        self.unrecognized(&Instr { opcode: Opcode::I64Ctz, args: Immediates::NoArgs })
    }

    /// Receives a `i64.popcnt` instruction.
    fn i64_popcnt(&mut self) -> (r: Result<(), ParseInstrError<E>>)
        ensures
            Self::spec_receives(*old(self), *final(self), (Opcode::I64Popcnt, ImmediatesView::NoArgs), r),
    {
        self.unrecognized(&Instr { opcode: Opcode::I64Popcnt, args: Immediates::NoArgs })
    }

    /// Receives a `i64.add` instruction.
    fn i64_add(&mut self) -> (r: Result<(), ParseInstrError<E>>)
        ensures
            Self::spec_receives(*old(self), *final(self), (Opcode::I64Add, ImmediatesView::NoArgs), r),
    {
        self.unrecognized(&Instr { opcode: Opcode::I64Add, args: Immediates::NoArgs })
    }

    /// Receives a `i64.sub` instruction.
    fn i64_sub(&mut self) -> (r: Result<(), ParseInstrError<E>>)
        ensures
            Self::spec_receives(*old(self), *final(self), (Opcode::I64Sub, ImmediatesView::NoArgs), r),
    {
        self.unrecognized(&Instr { opcode: Opcode::I64Sub, args: Immediates::NoArgs })
    }

    /// Receives a `i64.mul` instruction.
    fn i64_mul(&mut self) -> (r: Result<(), ParseInstrError<E>>)
        ensures
            Self::spec_receives(*old(self), *final(self), (Opcode::I64Mul, ImmediatesView::NoArgs), r),
    {
        self.unrecognized(&Instr { opcode: Opcode::I64Mul, args: Immediates::NoArgs })
    }

    /// Receives a `i64.div_s` instruction.
    fn i64_div_s(&mut self) -> (r: Result<(), ParseInstrError<E>>)
        ensures
            Self::spec_receives(*old(self), *final(self), (Opcode::I64DivS, ImmediatesView::NoArgs), r),
    {
        self.unrecognized(&Instr { opcode: Opcode::I64DivS, args: Immediates::NoArgs })
    }

    /// Receives a `i64.div_u` instruction.
    fn i64_div_u(&mut self) -> (r: Result<(), ParseInstrError<E>>)
        ensures
            Self::spec_receives(*old(self), *final(self), (Opcode::I64DivU, ImmediatesView::NoArgs), r),
    {
        self.unrecognized(&Instr { opcode: Opcode::I64DivU, args: Immediates::NoArgs })
    }

    /// Receives a `i64.rem_s` instruction.
    fn i64_rem_s(&mut self) -> (r: Result<(), ParseInstrError<E>>)
        ensures
            Self::spec_receives(*old(self), *final(self), (Opcode::I64RemS, ImmediatesView::NoArgs), r),
    {
        self.unrecognized(&Instr { opcode: Opcode::I64RemS, args: Immediates::NoArgs })
    }

    /// Receives a `i64.rem_u` instruction.
    fn i64_rem_u(&mut self) -> (r: Result<(), ParseInstrError<E>>)
        ensures
            Self::spec_receives(*old(self), *final(self), (Opcode::I64RemU, ImmediatesView::NoArgs), r),
    {
        self.unrecognized(&Instr { opcode: Opcode::I64RemU, args: Immediates::NoArgs })
    }

    /// Receives a `i64.and` instruction.
    fn i64_and(&mut self) -> (r: Result<(), ParseInstrError<E>>)
        ensures
            Self::spec_receives(*old(self), *final(self), (Opcode::I64And, ImmediatesView::NoArgs), r),
    {
        self.unrecognized(&Instr { opcode: Opcode::I64And, args: Immediates::NoArgs })
    }

    /// Receives a `i64.or` instruction.
    fn i64_or(&mut self) -> (r: Result<(), ParseInstrError<E>>)
        ensures
            Self::spec_receives(*old(self), *final(self), (Opcode::I64Or, ImmediatesView::NoArgs), r),
    {
        self.unrecognized(&Instr { opcode: Opcode::I64Or, args: Immediates::NoArgs })
    }

    /// Receives a `i64.xor` instruction.
    fn i64_xor(&mut self) -> (r: Result<(), ParseInstrError<E>>)
        ensures
            Self::spec_receives(*old(self), *final(self), (Opcode::I64Xor, ImmediatesView::NoArgs), r),
    {
        self.unrecognized(&Instr { opcode: Opcode::I64Xor, args: Immediates::NoArgs })
    }

    /// Receives a `i64.shl` instruction.
    fn i64_shl(&mut self) -> (r: Result<(), ParseInstrError<E>>)
        ensures
            Self::spec_receives(*old(self), *final(self), (Opcode::I64Shl, ImmediatesView::NoArgs), r),
    {
        self.unrecognized(&Instr { opcode: Opcode::I64Shl, args: Immediates::NoArgs })
    }

    /// Receives a `i64.shr_s` instruction.
    fn i64_shr_s(&mut self) -> (r: Result<(), ParseInstrError<E>>)
        ensures
            Self::spec_receives(*old(self), *final(self), (Opcode::I64ShrS, ImmediatesView::NoArgs), r),
    {
        self.unrecognized(&Instr { opcode: Opcode::I64ShrS, args: Immediates::NoArgs })
    }

    /// Receives a `i64.shr_u` instruction.
    fn i64_shr_u(&mut self) -> (r: Result<(), ParseInstrError<E>>)
        ensures
            Self::spec_receives(*old(self), *final(self), (Opcode::I64ShrU, ImmediatesView::NoArgs), r),
    {
        self.unrecognized(&Instr { opcode: Opcode::I64ShrU, args: Immediates::NoArgs })
    }

    /// Receives a `i64.rotl` instruction.
    fn i64_rotl(&mut self) -> (r: Result<(), ParseInstrError<E>>)
        ensures
            Self::spec_receives(*old(self), *final(self), (Opcode::I64Rotl, ImmediatesView::NoArgs), r),
    {
        self.unrecognized(&Instr { opcode: Opcode::I64Rotl, args: Immediates::NoArgs })
    }

    /// Receives a `i64.rotr` instruction.
    fn i64_rotr(&mut self) -> (r: Result<(), ParseInstrError<E>>)
        ensures
            Self::spec_receives(*old(self), *final(self), (Opcode::I64Rotr, ImmediatesView::NoArgs), r),
    {
        self.unrecognized(&Instr { opcode: Opcode::I64Rotr, args: Immediates::NoArgs })
    }

    /// Receives a `f32.abs` instruction.
    fn f32_abs(&mut self) -> (r: Result<(), ParseInstrError<E>>)
        ensures
            Self::spec_receives(*old(self), *final(self), (Opcode::F32Abs, ImmediatesView::NoArgs), r),
    {
        self.unrecognized(&Instr { opcode: Opcode::F32Abs, args: Immediates::NoArgs })
    }

    /// Receives a `f32.neg` instruction.
    fn f32_neg(&mut self) -> (r: Result<(), ParseInstrError<E>>)
        ensures
            Self::spec_receives(*old(self), *final(self), (Opcode::F32Neg, ImmediatesView::NoArgs), r),
    {
        self.unrecognized(&Instr { opcode: Opcode::F32Neg, args: Immediates::NoArgs })
    }

    /// Receives a `f32.ceil` instruction.
    fn f32_ceil(&mut self) -> (r: Result<(), ParseInstrError<E>>)
        ensures
            Self::spec_receives(*old(self), *final(self), (Opcode::F32Ceil, ImmediatesView::NoArgs), r),
    {
        self.unrecognized(&Instr { opcode: Opcode::F32Ceil, args: Immediates::NoArgs })
    }

    /// Receives a `f32.floor` instruction.
    fn f32_floor(&mut self) -> (r: Result<(), ParseInstrError<E>>)
        ensures
            Self::spec_receives(*old(self), *final(self), (Opcode::F32Floor, ImmediatesView::NoArgs), r),
    {
        self.unrecognized(&Instr { opcode: Opcode::F32Floor, args: Immediates::NoArgs })
    }

    /// Receives a `f32.trunc` instruction.
    fn f32_trunc(&mut self) -> (r: Result<(), ParseInstrError<E>>)
        ensures
            Self::spec_receives(*old(self), *final(self), (Opcode::F32Trunc, ImmediatesView::NoArgs), r),
    {
        self.unrecognized(&Instr { opcode: Opcode::F32Trunc, args: Immediates::NoArgs })
    }

    /// Receives a `f32.nearest` instruction.
    fn f32_nearest(&mut self) -> (r: Result<(), ParseInstrError<E>>)
        ensures
            Self::spec_receives(*old(self), *final(self), (Opcode::F32Nearest, ImmediatesView::NoArgs), r),
    {
        self.unrecognized(&Instr { opcode: Opcode::F32Nearest, args: Immediates::NoArgs })
    }

    /// Receives a `f32.sqrt` instruction.
    fn f32_sqrt(&mut self) -> (r: Result<(), ParseInstrError<E>>)
        ensures
            Self::spec_receives(*old(self), *final(self), (Opcode::F32Sqrt, ImmediatesView::NoArgs), r),
    {
        self.unrecognized(&Instr { opcode: Opcode::F32Sqrt, args: Immediates::NoArgs })
    }

    /// Receives a `f32.add` instruction.
    fn f32_add(&mut self) -> (r: Result<(), ParseInstrError<E>>)
        ensures
            Self::spec_receives(*old(self), *final(self), (Opcode::F32Add, ImmediatesView::NoArgs), r),
    {
        self.unrecognized(&Instr { opcode: Opcode::F32Add, args: Immediates::NoArgs })
    }

    /// Receives a `f32.sub` instruction.
    fn f32_sub(&mut self) -> (r: Result<(), ParseInstrError<E>>)
        ensures
            Self::spec_receives(*old(self), *final(self), (Opcode::F32Sub, ImmediatesView::NoArgs), r),
    {
        self.unrecognized(&Instr { opcode: Opcode::F32Sub, args: Immediates::NoArgs })
    }

    /// Receives a `f32.mul` instruction.
    fn f32_mul(&mut self) -> (r: Result<(), ParseInstrError<E>>)
        ensures
            Self::spec_receives(*old(self), *final(self), (Opcode::F32Mul, ImmediatesView::NoArgs), r),
    {
        self.unrecognized(&Instr { opcode: Opcode::F32Mul, args: Immediates::NoArgs })
    }

    /// Receives a `f32.div` instruction.
    fn f32_div(&mut self) -> (r: Result<(), ParseInstrError<E>>)
        ensures
            Self::spec_receives(*old(self), *final(self), (Opcode::F32Div, ImmediatesView::NoArgs), r),
    {
        self.unrecognized(&Instr { opcode: Opcode::F32Div, args: Immediates::NoArgs })
    }

    /// Receives a `f32.min` instruction.
    fn f32_min(&mut self) -> (r: Result<(), ParseInstrError<E>>)
        ensures
            Self::spec_receives(*old(self), *final(self), (Opcode::F32Min, ImmediatesView::NoArgs), r),
    {
        self.unrecognized(&Instr { opcode: Opcode::F32Min, args: Immediates::NoArgs })
    }

    /// Receives a `f32.max` instruction.
    fn f32_max(&mut self) -> (r: Result<(), ParseInstrError<E>>)
        ensures
            Self::spec_receives(*old(self), *final(self), (Opcode::F32Max, ImmediatesView::NoArgs), r),
    {
        self.unrecognized(&Instr { opcode: Opcode::F32Max, args: Immediates::NoArgs })
    }

    /// Receives a `f32.copysign` instruction.
    fn f32_copysign(&mut self) -> (r: Result<(), ParseInstrError<E>>)
        ensures
            Self::spec_receives(*old(self), *final(self), (Opcode::F32Copysign, ImmediatesView::NoArgs), r),
    {
        self.unrecognized(&Instr { opcode: Opcode::F32Copysign, args: Immediates::NoArgs })
    }

    /// Receives a `f64.abs` instruction.
    fn f64_abs(&mut self) -> (r: Result<(), ParseInstrError<E>>)
        ensures
            Self::spec_receives(*old(self), *final(self), (Opcode::F64Abs, ImmediatesView::NoArgs), r),
    {
        self.unrecognized(&Instr { opcode: Opcode::F64Abs, args: Immediates::NoArgs })
    }

    /// Receives a `f64.neg` instruction.
    fn f64_neg(&mut self) -> (r: Result<(), ParseInstrError<E>>)
        ensures
            Self::spec_receives(*old(self), *final(self), (Opcode::F64Neg, ImmediatesView::NoArgs), r),
    {
        self.unrecognized(&Instr { opcode: Opcode::F64Neg, args: Immediates::NoArgs })
    }

    /// Receives a `f64.ceil` instruction.
    fn f64_ceil(&mut self) -> (r: Result<(), ParseInstrError<E>>)
        ensures
            Self::spec_receives(*old(self), *final(self), (Opcode::F64Ceil, ImmediatesView::NoArgs), r),
    {
        self.unrecognized(&Instr { opcode: Opcode::F64Ceil, args: Immediates::NoArgs })
    }

    /// Receives a `f64.floor` instruction.
    fn f64_floor(&mut self) -> (r: Result<(), ParseInstrError<E>>)
        ensures
            Self::spec_receives(*old(self), *final(self), (Opcode::F64Floor, ImmediatesView::NoArgs), r),
    {
        self.unrecognized(&Instr { opcode: Opcode::F64Floor, args: Immediates::NoArgs })
    }

    /// Receives a `f64.trunc` instruction.
    fn f64_trunc(&mut self) -> (r: Result<(), ParseInstrError<E>>)
        ensures
            Self::spec_receives(*old(self), *final(self), (Opcode::F64Trunc, ImmediatesView::NoArgs), r),
    {
        self.unrecognized(&Instr { opcode: Opcode::F64Trunc, args: Immediates::NoArgs })
    }

    /// Receives a `f64.nearest` instruction.
    fn f64_nearest(&mut self) -> (r: Result<(), ParseInstrError<E>>)
        ensures
            Self::spec_receives(*old(self), *final(self), (Opcode::F64Nearest, ImmediatesView::NoArgs), r),
    {
        self.unrecognized(&Instr { opcode: Opcode::F64Nearest, args: Immediates::NoArgs })
    }

    /// Receives a `f64.sqrt` instruction.
    fn f64_sqrt(&mut self) -> (r: Result<(), ParseInstrError<E>>)
        ensures
            Self::spec_receives(*old(self), *final(self), (Opcode::F64Sqrt, ImmediatesView::NoArgs), r),
    {
        self.unrecognized(&Instr { opcode: Opcode::F64Sqrt, args: Immediates::NoArgs })
    }

    /// Receives a `f64.add` instruction.
    fn f64_add(&mut self) -> (r: Result<(), ParseInstrError<E>>)
        ensures
            Self::spec_receives(*old(self), *final(self), (Opcode::F64Add, ImmediatesView::NoArgs), r),
    {
        self.unrecognized(&Instr { opcode: Opcode::F64Add, args: Immediates::NoArgs })
    }

    /// Receives a `f64.sub` instruction.
    fn f64_sub(&mut self) -> (r: Result<(), ParseInstrError<E>>)
        ensures
            Self::spec_receives(*old(self), *final(self), (Opcode::F64Sub, ImmediatesView::NoArgs), r),
    {
        self.unrecognized(&Instr { opcode: Opcode::F64Sub, args: Immediates::NoArgs })
    }

    /// Receives a `f64.mul` instruction.
    fn f64_mul(&mut self) -> (r: Result<(), ParseInstrError<E>>)
        ensures
            Self::spec_receives(*old(self), *final(self), (Opcode::F64Mul, ImmediatesView::NoArgs), r),
    {
        self.unrecognized(&Instr { opcode: Opcode::F64Mul, args: Immediates::NoArgs })
    }

    /// Receives a `f64.div` instruction.
    fn f64_div(&mut self) -> (r: Result<(), ParseInstrError<E>>)
        ensures
            Self::spec_receives(*old(self), *final(self), (Opcode::F64Div, ImmediatesView::NoArgs), r),
    {
        self.unrecognized(&Instr { opcode: Opcode::F64Div, args: Immediates::NoArgs })
    }

    /// Receives a `f64.min` instruction.
    fn f64_min(&mut self) -> (r: Result<(), ParseInstrError<E>>)
        ensures
            Self::spec_receives(*old(self), *final(self), (Opcode::F64Min, ImmediatesView::NoArgs), r),
    {
        self.unrecognized(&Instr { opcode: Opcode::F64Min, args: Immediates::NoArgs })
    }

    /// Receives a `f64.max` instruction.
    fn f64_max(&mut self) -> (r: Result<(), ParseInstrError<E>>)
        ensures
            Self::spec_receives(*old(self), *final(self), (Opcode::F64Max, ImmediatesView::NoArgs), r),
    {
        self.unrecognized(&Instr { opcode: Opcode::F64Max, args: Immediates::NoArgs })
    }

    /// Receives a `f64.copysign` instruction.
    fn f64_copysign(&mut self) -> (r: Result<(), ParseInstrError<E>>)
        ensures
            Self::spec_receives(*old(self), *final(self), (Opcode::F64Copysign, ImmediatesView::NoArgs), r),
    {
        self.unrecognized(&Instr { opcode: Opcode::F64Copysign, args: Immediates::NoArgs })
    }

    /// Receives a `i32.wrap_i64` instruction.
    fn i32_wrap_i64(&mut self) -> (r: Result<(), ParseInstrError<E>>)
        ensures
            Self::spec_receives(*old(self), *final(self), (Opcode::I32WrapI64, ImmediatesView::NoArgs), r),
    {
        self.unrecognized(&Instr { opcode: Opcode::I32WrapI64, args: Immediates::NoArgs })
    }

    /// Receives a `i32.trunc_f32_s` instruction.
    fn i32_trunc_f32_s(&mut self) -> (r: Result<(), ParseInstrError<E>>)
        ensures
            Self::spec_receives(*old(self), *final(self), (Opcode::I32TruncF32S, ImmediatesView::NoArgs), r),
    {
        self.unrecognized(&Instr { opcode: Opcode::I32TruncF32S, args: Immediates::NoArgs })
    }

    /// Receives a `i32.trunc_f32_u` instruction.
    fn i32_trunc_f32_u(&mut self) -> (r: Result<(), ParseInstrError<E>>)
        ensures
            Self::spec_receives(*old(self), *final(self), (Opcode::I32TruncF32U, ImmediatesView::NoArgs), r),
    {
        self.unrecognized(&Instr { opcode: Opcode::I32TruncF32U, args: Immediates::NoArgs })
    }

    /// Receives a `i32.trunc_f64_s` instruction.
    fn i32_trunc_f64_s(&mut self) -> (r: Result<(), ParseInstrError<E>>)
        ensures
            Self::spec_receives(*old(self), *final(self), (Opcode::I32TruncF64S, ImmediatesView::NoArgs), r),
    {
        self.unrecognized(&Instr { opcode: Opcode::I32TruncF64S, args: Immediates::NoArgs })
    }

    /// Receives a `i32.trunc_f64_u` instruction.
    fn i32_trunc_f64_u(&mut self) -> (r: Result<(), ParseInstrError<E>>)
        ensures
            Self::spec_receives(*old(self), *final(self), (Opcode::I32TruncF64U, ImmediatesView::NoArgs), r),
    {
        self.unrecognized(&Instr { opcode: Opcode::I32TruncF64U, args: Immediates::NoArgs })
    }

    /// Receives a `i64.extend_i32_s` instruction.
    fn i64_extend_i32_s(&mut self) -> (r: Result<(), ParseInstrError<E>>)
        ensures
            Self::spec_receives(*old(self), *final(self), (Opcode::I64ExtendI32S, ImmediatesView::NoArgs), r),
    {
        self.unrecognized(&Instr { opcode: Opcode::I64ExtendI32S, args: Immediates::NoArgs })
    }

    /// Receives a `i64.extend_i32_u` instruction.
    fn i64_extend_i32_u(&mut self) -> (r: Result<(), ParseInstrError<E>>)
        ensures
            Self::spec_receives(*old(self), *final(self), (Opcode::I64ExtendI32U, ImmediatesView::NoArgs), r),
    {
        self.unrecognized(&Instr { opcode: Opcode::I64ExtendI32U, args: Immediates::NoArgs })
    }

    /// Receives a `i64.trunc_f32_s` instruction.
    fn i64_trunc_f32_s(&mut self) -> (r: Result<(), ParseInstrError<E>>)
        ensures
            Self::spec_receives(*old(self), *final(self), (Opcode::I64TruncF32S, ImmediatesView::NoArgs), r),
    {
        self.unrecognized(&Instr { opcode: Opcode::I64TruncF32S, args: Immediates::NoArgs })
    }

    /// Receives a `i64.trunc_f32_u` instruction.
    fn i64_trunc_f32_u(&mut self) -> (r: Result<(), ParseInstrError<E>>)
        ensures
            Self::spec_receives(*old(self), *final(self), (Opcode::I64TruncF32U, ImmediatesView::NoArgs), r),
    {
        self.unrecognized(&Instr { opcode: Opcode::I64TruncF32U, args: Immediates::NoArgs })
    }

    /// Receives a `i64.trunc_f64_s` instruction.
    fn i64_trunc_f64_s(&mut self) -> (r: Result<(), ParseInstrError<E>>)
        ensures
            Self::spec_receives(*old(self), *final(self), (Opcode::I64TruncF64S, ImmediatesView::NoArgs), r),
    {
        self.unrecognized(&Instr { opcode: Opcode::I64TruncF64S, args: Immediates::NoArgs })
    }

    /// Receives a `i64.trunc_f64_u` instruction.
    fn i64_trunc_f64_u(&mut self) -> (r: Result<(), ParseInstrError<E>>)
        ensures
            Self::spec_receives(*old(self), *final(self), (Opcode::I64TruncF64U, ImmediatesView::NoArgs), r),
    {
        self.unrecognized(&Instr { opcode: Opcode::I64TruncF64U, args: Immediates::NoArgs })
    }

    /// Receives a `f32.convert_i32_s` instruction.
    fn f32_convert_i32_s(&mut self) -> (r: Result<(), ParseInstrError<E>>)
        ensures
            Self::spec_receives(*old(self), *final(self), (Opcode::F32ConvertI32S, ImmediatesView::NoArgs), r),
    {
        self.unrecognized(&Instr { opcode: Opcode::F32ConvertI32S, args: Immediates::NoArgs })
    }

    /// Receives a `f32.convert_i32_u` instruction.
    fn f32_convert_i32_u(&mut self) -> (r: Result<(), ParseInstrError<E>>)
        ensures
            Self::spec_receives(*old(self), *final(self), (Opcode::F32ConvertI32U, ImmediatesView::NoArgs), r),
    {
        self.unrecognized(&Instr { opcode: Opcode::F32ConvertI32U, args: Immediates::NoArgs })
    }

    /// Receives a `f32.convert_i64_s` instruction.
    fn f32_convert_i64_s(&mut self) -> (r: Result<(), ParseInstrError<E>>)
        ensures
            Self::spec_receives(*old(self), *final(self), (Opcode::F32ConvertI64S, ImmediatesView::NoArgs), r),
    {
        self.unrecognized(&Instr { opcode: Opcode::F32ConvertI64S, args: Immediates::NoArgs })
    }

    /// Receives a `f32.convert_i64_u` instruction.
    fn f32_convert_i64_u(&mut self) -> (r: Result<(), ParseInstrError<E>>)
        ensures
            Self::spec_receives(*old(self), *final(self), (Opcode::F32ConvertI64U, ImmediatesView::NoArgs), r),
    {
        self.unrecognized(&Instr { opcode: Opcode::F32ConvertI64U, args: Immediates::NoArgs })
    }

    /// Receives a `f32.demote_f64` instruction.
    fn f32_demote_f64(&mut self) -> (r: Result<(), ParseInstrError<E>>)
        ensures
            Self::spec_receives(*old(self), *final(self), (Opcode::F32DemoteF64, ImmediatesView::NoArgs), r),
    {
        self.unrecognized(&Instr { opcode: Opcode::F32DemoteF64, args: Immediates::NoArgs })
    }

    /// Receives a `f64.convert_i32_s` instruction.
    fn f64_convert_i32_s(&mut self) -> (r: Result<(), ParseInstrError<E>>)
        ensures
            Self::spec_receives(*old(self), *final(self), (Opcode::F64ConvertI32S, ImmediatesView::NoArgs), r),
    {
        self.unrecognized(&Instr { opcode: Opcode::F64ConvertI32S, args: Immediates::NoArgs })
    }

    /// Receives a `f64.convert_i32_u` instruction.
    fn f64_convert_i32_u(&mut self) -> (r: Result<(), ParseInstrError<E>>)
        ensures
            Self::spec_receives(*old(self), *final(self), (Opcode::F64ConvertI32U, ImmediatesView::NoArgs), r),
    {
        self.unrecognized(&Instr { opcode: Opcode::F64ConvertI32U, args: Immediates::NoArgs })
    }

    /// Receives a `f64.convert_i64_s` instruction.
    fn f64_convert_i64_s(&mut self) -> (r: Result<(), ParseInstrError<E>>)
        ensures
            Self::spec_receives(*old(self), *final(self), (Opcode::F64ConvertI64S, ImmediatesView::NoArgs), r),
    {
        self.unrecognized(&Instr { opcode: Opcode::F64ConvertI64S, args: Immediates::NoArgs })
    }

    /// Receives a `f64.convert_i64_u` instruction.
    fn f64_convert_i64_u(&mut self) -> (r: Result<(), ParseInstrError<E>>)
        ensures
            Self::spec_receives(*old(self), *final(self), (Opcode::F64ConvertI64U, ImmediatesView::NoArgs), r),
    {
        self.unrecognized(&Instr { opcode: Opcode::F64ConvertI64U, args: Immediates::NoArgs })
    }

    /// Receives a `f64.promote_f32` instruction.
    fn f64_promote_f32(&mut self) -> (r: Result<(), ParseInstrError<E>>)
        ensures
            Self::spec_receives(*old(self), *final(self), (Opcode::F64PromoteF32, ImmediatesView::NoArgs), r),
    {
        self.unrecognized(&Instr { opcode: Opcode::F64PromoteF32, args: Immediates::NoArgs })
    }

    /// Receives a `i32.reinterpret_f32` instruction.
    fn i32_reinterpret_f32(&mut self) -> (r: Result<(), ParseInstrError<E>>)
        ensures
            Self::spec_receives(*old(self), *final(self), (Opcode::I32ReinterpretF32, ImmediatesView::NoArgs), r),
    {
        self.unrecognized(&Instr { opcode: Opcode::I32ReinterpretF32, args: Immediates::NoArgs })
    }

    /// Receives a `i64.reinterpret_f64` instruction.
    fn i64_reinterpret_f64(&mut self) -> (r: Result<(), ParseInstrError<E>>)
        ensures
            Self::spec_receives(*old(self), *final(self), (Opcode::I64ReinterpretF64, ImmediatesView::NoArgs), r),
    {
        self.unrecognized(&Instr { opcode: Opcode::I64ReinterpretF64, args: Immediates::NoArgs })
    }

    /// Receives a `f32.reinterpret_i32` instruction.
    fn f32_reinterpret_i32(&mut self) -> (r: Result<(), ParseInstrError<E>>)
        ensures
            Self::spec_receives(*old(self), *final(self), (Opcode::F32ReinterpretI32, ImmediatesView::NoArgs), r),
    {
        self.unrecognized(&Instr { opcode: Opcode::F32ReinterpretI32, args: Immediates::NoArgs })
    }

    /// Receives a `f64.reinterpret_i64` instruction.
    fn f64_reinterpret_i64(&mut self) -> (r: Result<(), ParseInstrError<E>>)
        ensures
            Self::spec_receives(*old(self), *final(self), (Opcode::F64ReinterpretI64, ImmediatesView::NoArgs), r),
    {
        self.unrecognized(&Instr { opcode: Opcode::F64ReinterpretI64, args: Immediates::NoArgs })
    }

    /// Receives a `i32.trunc_sat_f32_s` instruction.
    fn i32_trunc_sat_f32_s(&mut self) -> (r: Result<(), ParseInstrError<E>>)
        ensures
            Self::spec_receives(*old(self), *final(self), (Opcode::I32TruncSatF32S, ImmediatesView::NoArgs), r),
    {
        self.unrecognized(&Instr { opcode: Opcode::I32TruncSatF32S, args: Immediates::NoArgs })
    }

    /// Receives a `i32.trunc_sat_f32_u` instruction.
    fn i32_trunc_sat_f32_u(&mut self) -> (r: Result<(), ParseInstrError<E>>)
        ensures
            Self::spec_receives(*old(self), *final(self), (Opcode::I32TruncSatF32U, ImmediatesView::NoArgs), r),
    {
        self.unrecognized(&Instr { opcode: Opcode::I32TruncSatF32U, args: Immediates::NoArgs })
    }

    /// Receives a `i32.trunc_sat_f64_s` instruction.
    fn i32_trunc_sat_f64_s(&mut self) -> (r: Result<(), ParseInstrError<E>>)
        ensures
            Self::spec_receives(*old(self), *final(self), (Opcode::I32TruncSatF64S, ImmediatesView::NoArgs), r),
    {
        self.unrecognized(&Instr { opcode: Opcode::I32TruncSatF64S, args: Immediates::NoArgs })
    }

    /// Receives a `i32.trunc_sat_f64_u` instruction.
    fn i32_trunc_sat_f64_u(&mut self) -> (r: Result<(), ParseInstrError<E>>)
        ensures
            Self::spec_receives(*old(self), *final(self), (Opcode::I32TruncSatF64U, ImmediatesView::NoArgs), r),
    {
        self.unrecognized(&Instr { opcode: Opcode::I32TruncSatF64U, args: Immediates::NoArgs })
    }

    /// Receives a `i64.trunc_sat_f32_s` instruction.
    fn i64_trunc_sat_f32_s(&mut self) -> (r: Result<(), ParseInstrError<E>>)
        ensures
            Self::spec_receives(*old(self), *final(self), (Opcode::I64TruncSatF32S, ImmediatesView::NoArgs), r),
    {
        self.unrecognized(&Instr { opcode: Opcode::I64TruncSatF32S, args: Immediates::NoArgs })
    }

    /// Receives a `i64.trunc_sat_f32_u` instruction.
    fn i64_trunc_sat_f32_u(&mut self) -> (r: Result<(), ParseInstrError<E>>)
        ensures
            Self::spec_receives(*old(self), *final(self), (Opcode::I64TruncSatF32U, ImmediatesView::NoArgs), r),
    {
        self.unrecognized(&Instr { opcode: Opcode::I64TruncSatF32U, args: Immediates::NoArgs })
    }

    /// Receives a `i64.trunc_sat_f64_s` instruction.
    fn i64_trunc_sat_f64_s(&mut self) -> (r: Result<(), ParseInstrError<E>>)
        ensures
            Self::spec_receives(*old(self), *final(self), (Opcode::I64TruncSatF64S, ImmediatesView::NoArgs), r),
    {
        self.unrecognized(&Instr { opcode: Opcode::I64TruncSatF64S, args: Immediates::NoArgs })
    }

    /// Receives a `i64.trunc_sat_f64_u` instruction.
    fn i64_trunc_sat_f64_u(&mut self) -> (r: Result<(), ParseInstrError<E>>)
        ensures
            Self::spec_receives(*old(self), *final(self), (Opcode::I64TruncSatF64U, ImmediatesView::NoArgs), r),
    {
        self.unrecognized(&Instr { opcode: Opcode::I64TruncSatF64U, args: Immediates::NoArgs })
    }

    /// Receives a `i32.extend8_s` instruction.
    fn i32_extend8_s(&mut self) -> (r: Result<(), ParseInstrError<E>>)
        ensures
            Self::spec_receives(*old(self), *final(self), (Opcode::I32Extend8S, ImmediatesView::NoArgs), r),
    {
        self.unrecognized(&Instr { opcode: Opcode::I32Extend8S, args: Immediates::NoArgs })
    }

    /// Receives a `i32.extend16_s` instruction.
    fn i32_extend16_s(&mut self) -> (r: Result<(), ParseInstrError<E>>)
        ensures
            Self::spec_receives(*old(self), *final(self), (Opcode::I32Extend16S, ImmediatesView::NoArgs), r),
    {
        self.unrecognized(&Instr { opcode: Opcode::I32Extend16S, args: Immediates::NoArgs })
    }

    /// Receives a `i64.extend8_s` instruction.
    fn i64_extend8_s(&mut self) -> (r: Result<(), ParseInstrError<E>>)
        ensures
            Self::spec_receives(*old(self), *final(self), (Opcode::I64Extend8S, ImmediatesView::NoArgs), r),
    {
        self.unrecognized(&Instr { opcode: Opcode::I64Extend8S, args: Immediates::NoArgs })
    }

    /// Receives a `i64.extend16_s` instruction.
    fn i64_extend16_s(&mut self) -> (r: Result<(), ParseInstrError<E>>)
        ensures
            Self::spec_receives(*old(self), *final(self), (Opcode::I64Extend16S, ImmediatesView::NoArgs), r),
    {
        self.unrecognized(&Instr { opcode: Opcode::I64Extend16S, args: Immediates::NoArgs })
    }

    /// Receives a `i64.extend32_s` instruction.
    fn i64_extend32_s(&mut self) -> (r: Result<(), ParseInstrError<E>>)
        ensures
            Self::spec_receives(*old(self), *final(self), (Opcode::I64Extend32S, ImmediatesView::NoArgs), r),
    {
        self.unrecognized(&Instr { opcode: Opcode::I64Extend32S, args: Immediates::NoArgs })
    }

    /// Receives a `memory.copy` instruction.
    fn memory_copy(&mut self, destination: MemIdx, source: MemIdx) -> (r: Result<(), ParseInstrError<E>>)
        ensures
            Self::spec_receives(*old(self), *final(self), (Opcode::MemoryCopy, ImmediatesView::MemoryCopy { destination: destination, source: source }), r),
    {
        self.unrecognized(&Instr { opcode: Opcode::MemoryCopy, args: Immediates::MemoryCopy { destination: destination, source: source } })
    }

    /// Receives a `memory.fill` instruction.
    fn memory_fill(&mut self, memory: MemIdx) -> (r: Result<(), ParseInstrError<E>>)
        ensures
            Self::spec_receives(*old(self), *final(self), (Opcode::MemoryFill, ImmediatesView::Memory(memory)), r),
    {
        self.unrecognized(&Instr { opcode: Opcode::MemoryFill, args: Immediates::Memory(memory) })
    }

    /// Receives a `memory.init` instruction.
    fn memory_init(&mut self, segment: DataIdx, memory: MemIdx) -> (r: Result<(), ParseInstrError<E>>)
        ensures
            Self::spec_receives(*old(self), *final(self), (Opcode::MemoryInit, ImmediatesView::MemoryInit { segment: segment, memory: memory }), r),
    {
        self.unrecognized(&Instr { opcode: Opcode::MemoryInit, args: Immediates::MemoryInit { segment: segment, memory: memory } })
    }

    /// Receives a `data.drop` instruction.
    fn data_drop(&mut self, segment: DataIdx) -> (r: Result<(), ParseInstrError<E>>)
        ensures
            Self::spec_receives(*old(self), *final(self), (Opcode::DataDrop, ImmediatesView::Data(segment)), r),
    {
        self.unrecognized(&Instr { opcode: Opcode::DataDrop, args: Immediates::Data(segment) })
    }

    /// Receives a `table.copy` instruction.
    fn table_copy(&mut self, destination: TableIdx, source: TableIdx) -> (r: Result<(), ParseInstrError<E>>)
        ensures
            Self::spec_receives(*old(self), *final(self), (Opcode::TableCopy, ImmediatesView::TableCopy { destination: destination, source: source }), r),
    {
        self.unrecognized(&Instr { opcode: Opcode::TableCopy, args: Immediates::TableCopy { destination: destination, source: source } })
    }

    /// Receives a `table.init` instruction.
    fn table_init(&mut self, segment: ElemIdx, table: TableIdx) -> (r: Result<(), ParseInstrError<E>>)
        ensures
            Self::spec_receives(*old(self), *final(self), (Opcode::TableInit, ImmediatesView::TableInit { segment: segment, table: table }), r),
    {
        self.unrecognized(&Instr { opcode: Opcode::TableInit, args: Immediates::TableInit { segment: segment, table: table } })
    }

    /// Receives a `elem.drop` instruction.
    fn elem_drop(&mut self, segment: ElemIdx) -> (r: Result<(), ParseInstrError<E>>)
        ensures
            Self::spec_receives(*old(self), *final(self), (Opcode::ElemDrop, ImmediatesView::Elem(segment)), r),
    {
        self.unrecognized(&Instr { opcode: Opcode::ElemDrop, args: Immediates::Elem(segment) })
    }

    /// Receives a `ref.null` instruction.
    fn ref_null(&mut self, reference_type: RefType) -> (r: Result<(), ParseInstrError<E>>)
        ensures
            Self::spec_receives(*old(self), *final(self), (Opcode::RefNull, ImmediatesView::RefType(reference_type)), r),
    {
        self.unrecognized(&Instr { opcode: Opcode::RefNull, args: Immediates::RefType(reference_type) })
    }

    /// Receives a `ref.is_null` instruction.
    fn ref_is_null(&mut self) -> (r: Result<(), ParseInstrError<E>>)
        ensures
            Self::spec_receives(*old(self), *final(self), (Opcode::RefIsNull, ImmediatesView::NoArgs), r),
    {
        self.unrecognized(&Instr { opcode: Opcode::RefIsNull, args: Immediates::NoArgs })
    }

    /// Receives a `ref.func` instruction.
    fn ref_func(&mut self, target: FuncIdx) -> (r: Result<(), ParseInstrError<E>>)
        ensures
            Self::spec_receives(*old(self), *final(self), (Opcode::RefFunc, ImmediatesView::Func(target)), r),
    {
        self.unrecognized(&Instr { opcode: Opcode::RefFunc, args: Immediates::Func(target) })
    }

    /// Receives a `table.get` instruction.
    fn table_get(&mut self, table: TableIdx) -> (r: Result<(), ParseInstrError<E>>)
        ensures
            Self::spec_receives(*old(self), *final(self), (Opcode::TableGet, ImmediatesView::Table(table)), r),
    {
        self.unrecognized(&Instr { opcode: Opcode::TableGet, args: Immediates::Table(table) })
    }

    /// Receives a `table.set` instruction.
    fn table_set(&mut self, table: TableIdx) -> (r: Result<(), ParseInstrError<E>>)
        ensures
            Self::spec_receives(*old(self), *final(self), (Opcode::TableSet, ImmediatesView::Table(table)), r),
    {
        self.unrecognized(&Instr { opcode: Opcode::TableSet, args: Immediates::Table(table) })
    }

    /// Receives a `table.size` instruction.
    fn table_size(&mut self, table: TableIdx) -> (r: Result<(), ParseInstrError<E>>)
        ensures
            Self::spec_receives(*old(self), *final(self), (Opcode::TableSize, ImmediatesView::Table(table)), r),
    {
        self.unrecognized(&Instr { opcode: Opcode::TableSize, args: Immediates::Table(table) })
    }

    /// Receives a `table.grow` instruction.
    fn table_grow(&mut self, table: TableIdx) -> (r: Result<(), ParseInstrError<E>>)
        ensures
            Self::spec_receives(*old(self), *final(self), (Opcode::TableGrow, ImmediatesView::Table(table)), r),
    {
        self.unrecognized(&Instr { opcode: Opcode::TableGrow, args: Immediates::Table(table) })
    }

    /// Receives a `table.fill` instruction.
    fn table_fill(&mut self, table: TableIdx) -> (r: Result<(), ParseInstrError<E>>)
        ensures
            Self::spec_receives(*old(self), *final(self), (Opcode::TableFill, ImmediatesView::Table(table)), r),
    {
        self.unrecognized(&Instr { opcode: Opcode::TableFill, args: Immediates::Table(table) })
    }

    /// Receives a `v128.load` instruction.
    fn v128_load(&mut self, arg: MemArg) -> (r: Result<(), ParseInstrError<E>>)
        ensures
            Self::spec_receives(*old(self), *final(self), (Opcode::V128Load, ImmediatesView::Mem(arg)), r),
    {
        self.unrecognized(&Instr { opcode: Opcode::V128Load, args: Immediates::Mem(arg) })
    }

    /// Receives a `v128.load8x8_s` instruction.
    fn v128_load8x8_s(&mut self, arg: MemArg) -> (r: Result<(), ParseInstrError<E>>)
        ensures
            Self::spec_receives(*old(self), *final(self), (Opcode::V128Load8x8S, ImmediatesView::Mem(arg)), r),
    {
        self.unrecognized(&Instr { opcode: Opcode::V128Load8x8S, args: Immediates::Mem(arg) })
    }

    /// Receives a `v128.load8x8_u` instruction.
    fn v128_load8x8_u(&mut self, arg: MemArg) -> (r: Result<(), ParseInstrError<E>>)
        ensures
            Self::spec_receives(*old(self), *final(self), (Opcode::V128Load8x8U, ImmediatesView::Mem(arg)), r),
    {
        self.unrecognized(&Instr { opcode: Opcode::V128Load8x8U, args: Immediates::Mem(arg) })
    }

    /// Receives a `v128.load16x4_s` instruction.
    fn v128_load16x4_s(&mut self, arg: MemArg) -> (r: Result<(), ParseInstrError<E>>)
        ensures
            Self::spec_receives(*old(self), *final(self), (Opcode::V128Load16x4S, ImmediatesView::Mem(arg)), r),
    {
        self.unrecognized(&Instr { opcode: Opcode::V128Load16x4S, args: Immediates::Mem(arg) })
    }

    /// Receives a `v128.load16x4_u` instruction.
    fn v128_load16x4_u(&mut self, arg: MemArg) -> (r: Result<(), ParseInstrError<E>>)
        ensures
            Self::spec_receives(*old(self), *final(self), (Opcode::V128Load16x4U, ImmediatesView::Mem(arg)), r),
    {
        self.unrecognized(&Instr { opcode: Opcode::V128Load16x4U, args: Immediates::Mem(arg) })
    }

    /// Receives a `v128.load32x2_s` instruction.
    fn v128_load32x2_s(&mut self, arg: MemArg) -> (r: Result<(), ParseInstrError<E>>)
        ensures
            Self::spec_receives(*old(self), *final(self), (Opcode::V128Load32x2S, ImmediatesView::Mem(arg)), r),
    {
        self.unrecognized(&Instr { opcode: Opcode::V128Load32x2S, args: Immediates::Mem(arg) })
    }

    /// Receives a `v128.load32x2_u` instruction.
    fn v128_load32x2_u(&mut self, arg: MemArg) -> (r: Result<(), ParseInstrError<E>>)
        ensures
            Self::spec_receives(*old(self), *final(self), (Opcode::V128Load32x2U, ImmediatesView::Mem(arg)), r),
    {
        self.unrecognized(&Instr { opcode: Opcode::V128Load32x2U, args: Immediates::Mem(arg) })
    }

    /// Receives a `v128.load8_splat` instruction.
    fn v128_load8_splat(&mut self, arg: MemArg) -> (r: Result<(), ParseInstrError<E>>)
        ensures
            Self::spec_receives(*old(self), *final(self), (Opcode::V128Load8Splat, ImmediatesView::Mem(arg)), r),
    {
        self.unrecognized(&Instr { opcode: Opcode::V128Load8Splat, args: Immediates::Mem(arg) })
    }

    /// Receives a `v128.load16_splat` instruction.
    fn v128_load16_splat(&mut self, arg: MemArg) -> (r: Result<(), ParseInstrError<E>>)
        ensures
            Self::spec_receives(*old(self), *final(self), (Opcode::V128Load16Splat, ImmediatesView::Mem(arg)), r),
    {
        self.unrecognized(&Instr { opcode: Opcode::V128Load16Splat, args: Immediates::Mem(arg) })
    }

    /// Receives a `v128.load32_splat` instruction.
    fn v128_load32_splat(&mut self, arg: MemArg) -> (r: Result<(), ParseInstrError<E>>)
        ensures
            Self::spec_receives(*old(self), *final(self), (Opcode::V128Load32Splat, ImmediatesView::Mem(arg)), r),
    {
        self.unrecognized(&Instr { opcode: Opcode::V128Load32Splat, args: Immediates::Mem(arg) })
    }

    /// Receives a `v128.load64_splat` instruction.
    fn v128_load64_splat(&mut self, arg: MemArg) -> (r: Result<(), ParseInstrError<E>>)
        ensures
            Self::spec_receives(*old(self), *final(self), (Opcode::V128Load64Splat, ImmediatesView::Mem(arg)), r),
    {
        self.unrecognized(&Instr { opcode: Opcode::V128Load64Splat, args: Immediates::Mem(arg) })
    }

    /// Receives a `v128.load32_zero` instruction.
    fn v128_load32_zero(&mut self, arg: MemArg) -> (r: Result<(), ParseInstrError<E>>)
        ensures
            Self::spec_receives(*old(self), *final(self), (Opcode::V128Load32Zero, ImmediatesView::Mem(arg)), r),
    {
        self.unrecognized(&Instr { opcode: Opcode::V128Load32Zero, args: Immediates::Mem(arg) })
    }

    /// Receives a `v128.load64_zero` instruction.
    fn v128_load64_zero(&mut self, arg: MemArg) -> (r: Result<(), ParseInstrError<E>>)
        ensures
            Self::spec_receives(*old(self), *final(self), (Opcode::V128Load64Zero, ImmediatesView::Mem(arg)), r),
    {
        self.unrecognized(&Instr { opcode: Opcode::V128Load64Zero, args: Immediates::Mem(arg) })
    }

    /// Receives a `v128.store` instruction.
    fn v128_store(&mut self, arg: MemArg) -> (r: Result<(), ParseInstrError<E>>)
        ensures
            Self::spec_receives(*old(self), *final(self), (Opcode::V128Store, ImmediatesView::Mem(arg)), r),
    {
        self.unrecognized(&Instr { opcode: Opcode::V128Store, args: Immediates::Mem(arg) })
    }

    /// Receives a `v128.load8_lane` instruction.
    fn v128_load8_lane(&mut self, arg: MemArg, lane: LaneIdx) -> (r: Result<(), ParseInstrError<E>>)
        ensures
            Self::spec_receives(*old(self), *final(self), (Opcode::V128Load8Lane, ImmediatesView::MemLane { arg: arg, lane: lane }), r),
    {
        self.unrecognized(&Instr { opcode: Opcode::V128Load8Lane, args: Immediates::MemLane { arg: arg, lane: lane } })
    }

    /// Receives a `v128.load16_lane` instruction.
    fn v128_load16_lane(&mut self, arg: MemArg, lane: LaneIdx) -> (r: Result<(), ParseInstrError<E>>)
        ensures
            Self::spec_receives(*old(self), *final(self), (Opcode::V128Load16Lane, ImmediatesView::MemLane { arg: arg, lane: lane }), r),
    {
        self.unrecognized(&Instr { opcode: Opcode::V128Load16Lane, args: Immediates::MemLane { arg: arg, lane: lane } })
    }

    /// Receives a `v128.load32_lane` instruction.
    fn v128_load32_lane(&mut self, arg: MemArg, lane: LaneIdx) -> (r: Result<(), ParseInstrError<E>>)
        ensures
            Self::spec_receives(*old(self), *final(self), (Opcode::V128Load32Lane, ImmediatesView::MemLane { arg: arg, lane: lane }), r),
    {
        self.unrecognized(&Instr { opcode: Opcode::V128Load32Lane, args: Immediates::MemLane { arg: arg, lane: lane } })
    }

    /// Receives a `v128.load64_lane` instruction.
    fn v128_load64_lane(&mut self, arg: MemArg, lane: LaneIdx) -> (r: Result<(), ParseInstrError<E>>)
        ensures
            Self::spec_receives(*old(self), *final(self), (Opcode::V128Load64Lane, ImmediatesView::MemLane { arg: arg, lane: lane }), r),
    {
        self.unrecognized(&Instr { opcode: Opcode::V128Load64Lane, args: Immediates::MemLane { arg: arg, lane: lane } })
    }

    /// Receives a `v128.store8_lane` instruction.
    fn v128_store8_lane(&mut self, arg: MemArg, lane: LaneIdx) -> (r: Result<(), ParseInstrError<E>>)
        ensures
            Self::spec_receives(*old(self), *final(self), (Opcode::V128Store8Lane, ImmediatesView::MemLane { arg: arg, lane: lane }), r),
    {
        self.unrecognized(&Instr { opcode: Opcode::V128Store8Lane, args: Immediates::MemLane { arg: arg, lane: lane } })
    }

    /// Receives a `v128.store16_lane` instruction.
    fn v128_store16_lane(&mut self, arg: MemArg, lane: LaneIdx) -> (r: Result<(), ParseInstrError<E>>)
        ensures
            Self::spec_receives(*old(self), *final(self), (Opcode::V128Store16Lane, ImmediatesView::MemLane { arg: arg, lane: lane }), r),
    {
        self.unrecognized(&Instr { opcode: Opcode::V128Store16Lane, args: Immediates::MemLane { arg: arg, lane: lane } })
    }

    /// Receives a `v128.store32_lane` instruction.
    fn v128_store32_lane(&mut self, arg: MemArg, lane: LaneIdx) -> (r: Result<(), ParseInstrError<E>>)
        ensures
            Self::spec_receives(*old(self), *final(self), (Opcode::V128Store32Lane, ImmediatesView::MemLane { arg: arg, lane: lane }), r),
    {
        self.unrecognized(&Instr { opcode: Opcode::V128Store32Lane, args: Immediates::MemLane { arg: arg, lane: lane } })
    }

    /// Receives a `v128.store64_lane` instruction.
    fn v128_store64_lane(&mut self, arg: MemArg, lane: LaneIdx) -> (r: Result<(), ParseInstrError<E>>)
        ensures
            Self::spec_receives(*old(self), *final(self), (Opcode::V128Store64Lane, ImmediatesView::MemLane { arg: arg, lane: lane }), r),
    {
        self.unrecognized(&Instr { opcode: Opcode::V128Store64Lane, args: Immediates::MemLane { arg: arg, lane: lane } })
    }

    /// Receives a `v128.const` instruction.
    fn v128_const(&mut self, v: V128) -> (r: Result<(), ParseInstrError<E>>)
        ensures
            Self::spec_receives(*old(self), *final(self), (Opcode::V128Const, ImmediatesView::V128(v.bytes@)), r),
    {
        self.unrecognized(&Instr { opcode: Opcode::V128Const, args: Immediates::V128(v) })
    }

    /// Receives a `i8x16.shuffle` instruction.
    fn i8x16_shuffle(&mut self, lanes: V128ShuffleLanes) -> (r: Result<(), ParseInstrError<E>>)
        ensures
            Self::spec_receives(*old(self), *final(self), (Opcode::I8x16Shuffle, ImmediatesView::Shuffle(lanes.lanes@)), r),
    {
        self.unrecognized(&Instr { opcode: Opcode::I8x16Shuffle, args: Immediates::Shuffle(lanes) })
    }

    /// Receives a `i8x16.swizzle` instruction.
    fn i8x16_swizzle(&mut self) -> (r: Result<(), ParseInstrError<E>>)
        ensures
            Self::spec_receives(*old(self), *final(self), (Opcode::I8x16Swizzle, ImmediatesView::NoArgs), r),
    {
        self.unrecognized(&Instr { opcode: Opcode::I8x16Swizzle, args: Immediates::NoArgs })
    }

    /// Receives a `i8x16.splat` instruction.
    fn i8x16_splat(&mut self) -> (r: Result<(), ParseInstrError<E>>)
        ensures
            Self::spec_receives(*old(self), *final(self), (Opcode::I8x16Splat, ImmediatesView::NoArgs), r),
    {
        self.unrecognized(&Instr { opcode: Opcode::I8x16Splat, args: Immediates::NoArgs })
    }

    /// Receives a `i16x8.splat` instruction.
    fn i16x8_splat(&mut self) -> (r: Result<(), ParseInstrError<E>>)
        ensures
            Self::spec_receives(*old(self), *final(self), (Opcode::I16x8Splat, ImmediatesView::NoArgs), r),
    {
        self.unrecognized(&Instr { opcode: Opcode::I16x8Splat, args: Immediates::NoArgs })
    }

    /// Receives a `i32x4.splat` instruction.
    fn i32x4_splat(&mut self) -> (r: Result<(), ParseInstrError<E>>)
        ensures
            Self::spec_receives(*old(self), *final(self), (Opcode::I32x4Splat, ImmediatesView::NoArgs), r),
    {
        self.unrecognized(&Instr { opcode: Opcode::I32x4Splat, args: Immediates::NoArgs })
    }

    /// Receives a `i64x2.splat` instruction.
    fn i64x2_splat(&mut self) -> (r: Result<(), ParseInstrError<E>>)
        ensures
            Self::spec_receives(*old(self), *final(self), (Opcode::I64x2Splat, ImmediatesView::NoArgs), r),
    {
        self.unrecognized(&Instr { opcode: Opcode::I64x2Splat, args: Immediates::NoArgs })
    }

    /// Receives a `f32x4.splat` instruction.
    fn f32x4_splat(&mut self) -> (r: Result<(), ParseInstrError<E>>)
        ensures
            Self::spec_receives(*old(self), *final(self), (Opcode::F32x4Splat, ImmediatesView::NoArgs), r),
    {
        self.unrecognized(&Instr { opcode: Opcode::F32x4Splat, args: Immediates::NoArgs })
    }

    /// Receives a `f64x2.splat` instruction.
    fn f64x2_splat(&mut self) -> (r: Result<(), ParseInstrError<E>>)
        ensures
            Self::spec_receives(*old(self), *final(self), (Opcode::F64x2Splat, ImmediatesView::NoArgs), r),
    {
        self.unrecognized(&Instr { opcode: Opcode::F64x2Splat, args: Immediates::NoArgs })
    }

    /// Receives a `i8x16.extract_lane_s` instruction.
    fn i8x16_extract_lane_s(&mut self, lane: LaneIdx) -> (r: Result<(), ParseInstrError<E>>)
        ensures
            Self::spec_receives(*old(self), *final(self), (Opcode::I8x16ExtractLaneS, ImmediatesView::Lane(lane)), r),
    {
        self.unrecognized(&Instr { opcode: Opcode::I8x16ExtractLaneS, args: Immediates::Lane(lane) })
    }

    /// Receives a `i8x16.extract_lane_u` instruction.
    fn i8x16_extract_lane_u(&mut self, lane: LaneIdx) -> (r: Result<(), ParseInstrError<E>>)
        ensures
            Self::spec_receives(*old(self), *final(self), (Opcode::I8x16ExtractLaneU, ImmediatesView::Lane(lane)), r),
    {
        self.unrecognized(&Instr { opcode: Opcode::I8x16ExtractLaneU, args: Immediates::Lane(lane) })
    }

    /// Receives a `i8x16.replace_lane` instruction.
    fn i8x16_replace_lane(&mut self, lane: LaneIdx) -> (r: Result<(), ParseInstrError<E>>)
        ensures
            Self::spec_receives(*old(self), *final(self), (Opcode::I8x16ReplaceLane, ImmediatesView::Lane(lane)), r),
    {
        self.unrecognized(&Instr { opcode: Opcode::I8x16ReplaceLane, args: Immediates::Lane(lane) })
    }

    /// Receives a `i16x8.extract_lane_s` instruction.
    fn i16x8_extract_lane_s(&mut self, lane: LaneIdx) -> (r: Result<(), ParseInstrError<E>>)
        ensures
            Self::spec_receives(*old(self), *final(self), (Opcode::I16x8ExtractLaneS, ImmediatesView::Lane(lane)), r),
    {
        self.unrecognized(&Instr { opcode: Opcode::I16x8ExtractLaneS, args: Immediates::Lane(lane) })
    }

    /// Receives a `i16x8.extract_lane_u` instruction.
    fn i16x8_extract_lane_u(&mut self, lane: LaneIdx) -> (r: Result<(), ParseInstrError<E>>)
        ensures
            Self::spec_receives(*old(self), *final(self), (Opcode::I16x8ExtractLaneU, ImmediatesView::Lane(lane)), r),
    {
        self.unrecognized(&Instr { opcode: Opcode::I16x8ExtractLaneU, args: Immediates::Lane(lane) })
    }

    /// Receives a `i16x8.replace_lane` instruction.
    fn i16x8_replace_lane(&mut self, lane: LaneIdx) -> (r: Result<(), ParseInstrError<E>>)
        ensures
            Self::spec_receives(*old(self), *final(self), (Opcode::I16x8ReplaceLane, ImmediatesView::Lane(lane)), r),
    {
        self.unrecognized(&Instr { opcode: Opcode::I16x8ReplaceLane, args: Immediates::Lane(lane) })
    }

    /// Receives a `i32x4.extract_lane` instruction.
    fn i32x4_extract_lane(&mut self, lane: LaneIdx) -> (r: Result<(), ParseInstrError<E>>)
        ensures
            Self::spec_receives(*old(self), *final(self), (Opcode::I32x4ExtractLane, ImmediatesView::Lane(lane)), r),
    {
        self.unrecognized(&Instr { opcode: Opcode::I32x4ExtractLane, args: Immediates::Lane(lane) })
    }

    /// Receives a `i32x4.replace_lane` instruction.
    fn i32x4_replace_lane(&mut self, lane: LaneIdx) -> (r: Result<(), ParseInstrError<E>>)
        ensures
            Self::spec_receives(*old(self), *final(self), (Opcode::I32x4ReplaceLane, ImmediatesView::Lane(lane)), r),
    {
        self.unrecognized(&Instr { opcode: Opcode::I32x4ReplaceLane, args: Immediates::Lane(lane) })
    }

    /// Receives a `i64x2.extract_lane` instruction.
    fn i64x2_extract_lane(&mut self, lane: LaneIdx) -> (r: Result<(), ParseInstrError<E>>)
        ensures
            Self::spec_receives(*old(self), *final(self), (Opcode::I64x2ExtractLane, ImmediatesView::Lane(lane)), r),
    {
        self.unrecognized(&Instr { opcode: Opcode::I64x2ExtractLane, args: Immediates::Lane(lane) })
    }

    /// Receives a `i64x2.replace_lane` instruction.
    fn i64x2_replace_lane(&mut self, lane: LaneIdx) -> (r: Result<(), ParseInstrError<E>>)
        ensures
            Self::spec_receives(*old(self), *final(self), (Opcode::I64x2ReplaceLane, ImmediatesView::Lane(lane)), r),
    {
        self.unrecognized(&Instr { opcode: Opcode::I64x2ReplaceLane, args: Immediates::Lane(lane) })
    }

    /// Receives a `f32x4.extract_lane` instruction.
    fn f32x4_extract_lane(&mut self, lane: LaneIdx) -> (r: Result<(), ParseInstrError<E>>)
        ensures
            Self::spec_receives(*old(self), *final(self), (Opcode::F32x4ExtractLane, ImmediatesView::Lane(lane)), r),
    {
        self.unrecognized(&Instr { opcode: Opcode::F32x4ExtractLane, args: Immediates::Lane(lane) })
    }

    /// Receives a `f32x4.replace_lane` instruction.
    fn f32x4_replace_lane(&mut self, lane: LaneIdx) -> (r: Result<(), ParseInstrError<E>>)
        ensures
            Self::spec_receives(*old(self), *final(self), (Opcode::F32x4ReplaceLane, ImmediatesView::Lane(lane)), r),
    {
        self.unrecognized(&Instr { opcode: Opcode::F32x4ReplaceLane, args: Immediates::Lane(lane) })
    }

    /// Receives a `f64x2.extract_lane` instruction.
    fn f64x4_extract_lane(&mut self, lane: LaneIdx) -> (r: Result<(), ParseInstrError<E>>)
        ensures
            Self::spec_receives(*old(self), *final(self), (Opcode::F64x2ExtractLane, ImmediatesView::Lane(lane)), r),
    {
        self.unrecognized(&Instr { opcode: Opcode::F64x2ExtractLane, args: Immediates::Lane(lane) })
    }

    /// Receives a `f64x2.replace_lane` instruction.
    fn f64x4_replace_lane(&mut self, lane: LaneIdx) -> (r: Result<(), ParseInstrError<E>>)
        ensures
            Self::spec_receives(*old(self), *final(self), (Opcode::F64x2ReplaceLane, ImmediatesView::Lane(lane)), r),
    {
        self.unrecognized(&Instr { opcode: Opcode::F64x2ReplaceLane, args: Immediates::Lane(lane) })
    }

    /// Receives a `i8x16.eq` instruction.
    fn i8x16_eq(&mut self) -> (r: Result<(), ParseInstrError<E>>)
        ensures
            Self::spec_receives(*old(self), *final(self), (Opcode::I8x16Eq, ImmediatesView::NoArgs), r),
    {
        self.unrecognized(&Instr { opcode: Opcode::I8x16Eq, args: Immediates::NoArgs })
    }

    /// Receives a `i8x16.ne` instruction.
    fn i8x16_ne(&mut self) -> (r: Result<(), ParseInstrError<E>>)
        ensures
            Self::spec_receives(*old(self), *final(self), (Opcode::I8x16Ne, ImmediatesView::NoArgs), r),
    {
        self.unrecognized(&Instr { opcode: Opcode::I8x16Ne, args: Immediates::NoArgs })
    }

    /// Receives a `i8x16.lt_s` instruction.
    fn i8x16_lt_s(&mut self) -> (r: Result<(), ParseInstrError<E>>)
        ensures
            Self::spec_receives(*old(self), *final(self), (Opcode::I8x16LtS, ImmediatesView::NoArgs), r),
    {
        self.unrecognized(&Instr { opcode: Opcode::I8x16LtS, args: Immediates::NoArgs })
    }

    /// Receives a `i8x16.lt_u` instruction.
    fn i8x16_lt_u(&mut self) -> (r: Result<(), ParseInstrError<E>>)
        ensures
            Self::spec_receives(*old(self), *final(self), (Opcode::I8x16LtU, ImmediatesView::NoArgs), r),
    {
        self.unrecognized(&Instr { opcode: Opcode::I8x16LtU, args: Immediates::NoArgs })
    }

    /// Receives a `i8x16.gt_s` instruction.
    fn i8x16_gt_s(&mut self) -> (r: Result<(), ParseInstrError<E>>)
        ensures
            Self::spec_receives(*old(self), *final(self), (Opcode::I8x16GtS, ImmediatesView::NoArgs), r),
    {
        self.unrecognized(&Instr { opcode: Opcode::I8x16GtS, args: Immediates::NoArgs })
    }

    /// Receives a `i8x16.gt_u` instruction.
    fn i8x16_gt_u(&mut self) -> (r: Result<(), ParseInstrError<E>>)
        ensures
            Self::spec_receives(*old(self), *final(self), (Opcode::I8x16GtU, ImmediatesView::NoArgs), r),
    {
        self.unrecognized(&Instr { opcode: Opcode::I8x16GtU, args: Immediates::NoArgs })
    }

    /// Receives a `i8x16.le_s` instruction.
    fn i8x16_le_s(&mut self) -> (r: Result<(), ParseInstrError<E>>)
        ensures
            Self::spec_receives(*old(self), *final(self), (Opcode::I8x16LeS, ImmediatesView::NoArgs), r),
    {
        self.unrecognized(&Instr { opcode: Opcode::I8x16LeS, args: Immediates::NoArgs })
    }

    /// Receives a `i8x16.le_u` instruction.
    fn i8x16_le_u(&mut self) -> (r: Result<(), ParseInstrError<E>>)
        ensures
            Self::spec_receives(*old(self), *final(self), (Opcode::I8x16LeU, ImmediatesView::NoArgs), r),
    {
        self.unrecognized(&Instr { opcode: Opcode::I8x16LeU, args: Immediates::NoArgs })
    }

    /// Receives a `i8x16.ge_s` instruction.
    fn i8x16_ge_s(&mut self) -> (r: Result<(), ParseInstrError<E>>)
        ensures
            Self::spec_receives(*old(self), *final(self), (Opcode::I8x16GeS, ImmediatesView::NoArgs), r),
    {
        self.unrecognized(&Instr { opcode: Opcode::I8x16GeS, args: Immediates::NoArgs })
    }

    /// Receives a `i8x16.ge_u` instruction.
    fn i8x16_ge_u(&mut self) -> (r: Result<(), ParseInstrError<E>>)
        ensures
            Self::spec_receives(*old(self), *final(self), (Opcode::I8x16GeU, ImmediatesView::NoArgs), r),
    {
        self.unrecognized(&Instr { opcode: Opcode::I8x16GeU, args: Immediates::NoArgs })
    }

    /// Receives a `i16x8.eq` instruction.
    fn i16x8_eq(&mut self) -> (r: Result<(), ParseInstrError<E>>)
        ensures
            Self::spec_receives(*old(self), *final(self), (Opcode::I16x8Eq, ImmediatesView::NoArgs), r),
    {
        self.unrecognized(&Instr { opcode: Opcode::I16x8Eq, args: Immediates::NoArgs })
    }

    /// Receives a `i16x8.ne` instruction.
    fn i16x8_ne(&mut self) -> (r: Result<(), ParseInstrError<E>>)
        ensures
            Self::spec_receives(*old(self), *final(self), (Opcode::I16x8Ne, ImmediatesView::NoArgs), r),
    {
        self.unrecognized(&Instr { opcode: Opcode::I16x8Ne, args: Immediates::NoArgs })
    }

    /// Receives a `i16x8.lt_s` instruction.
    fn i16x8_lt_s(&mut self) -> (r: Result<(), ParseInstrError<E>>)
        ensures
            Self::spec_receives(*old(self), *final(self), (Opcode::I16x8LtS, ImmediatesView::NoArgs), r),
    {
        self.unrecognized(&Instr { opcode: Opcode::I16x8LtS, args: Immediates::NoArgs })
    }

    /// Receives a `i16x8.lt_u` instruction.
    fn i16x8_lt_u(&mut self) -> (r: Result<(), ParseInstrError<E>>)
        ensures
            Self::spec_receives(*old(self), *final(self), (Opcode::I16x8LtU, ImmediatesView::NoArgs), r),
    {
        self.unrecognized(&Instr { opcode: Opcode::I16x8LtU, args: Immediates::NoArgs })
    }

    /// Receives a `i16x8.gt_s` instruction.
    fn i16x8_gt_s(&mut self) -> (r: Result<(), ParseInstrError<E>>)
        ensures
            Self::spec_receives(*old(self), *final(self), (Opcode::I16x8GtS, ImmediatesView::NoArgs), r),
    {
        self.unrecognized(&Instr { opcode: Opcode::I16x8GtS, args: Immediates::NoArgs })
    }

    /// Receives a `i16x8.gt_u` instruction.
    fn i16x8_gt_u(&mut self) -> (r: Result<(), ParseInstrError<E>>)
        ensures
            Self::spec_receives(*old(self), *final(self), (Opcode::I16x8GtU, ImmediatesView::NoArgs), r),
    {
        self.unrecognized(&Instr { opcode: Opcode::I16x8GtU, args: Immediates::NoArgs })
    }

    /// Receives a `i16x8.le_s` instruction.
    fn i16x8_le_s(&mut self) -> (r: Result<(), ParseInstrError<E>>)
        ensures
            Self::spec_receives(*old(self), *final(self), (Opcode::I16x8LeS, ImmediatesView::NoArgs), r),
    {
        self.unrecognized(&Instr { opcode: Opcode::I16x8LeS, args: Immediates::NoArgs })
    }

    /// Receives a `i16x8.le_u` instruction.
    fn i16x8_le_u(&mut self) -> (r: Result<(), ParseInstrError<E>>)
        ensures
            Self::spec_receives(*old(self), *final(self), (Opcode::I16x8LeU, ImmediatesView::NoArgs), r),
    {
        self.unrecognized(&Instr { opcode: Opcode::I16x8LeU, args: Immediates::NoArgs })
    }

    /// Receives a `i16x8.ge_s` instruction.
    fn i16x8_ge_s(&mut self) -> (r: Result<(), ParseInstrError<E>>)
        ensures
            Self::spec_receives(*old(self), *final(self), (Opcode::I16x8GeS, ImmediatesView::NoArgs), r),
    {
        self.unrecognized(&Instr { opcode: Opcode::I16x8GeS, args: Immediates::NoArgs })
    }

    /// Receives a `i16x8.ge_u` instruction.
    fn i16x8_ge_u(&mut self) -> (r: Result<(), ParseInstrError<E>>)
        ensures
            Self::spec_receives(*old(self), *final(self), (Opcode::I16x8GeU, ImmediatesView::NoArgs), r),
    {
        self.unrecognized(&Instr { opcode: Opcode::I16x8GeU, args: Immediates::NoArgs })
    }

    /// Receives a `i32x4.eq` instruction.
    fn i32x4_eq(&mut self) -> (r: Result<(), ParseInstrError<E>>)
        ensures
            Self::spec_receives(*old(self), *final(self), (Opcode::I32x4Eq, ImmediatesView::NoArgs), r),
    {
        self.unrecognized(&Instr { opcode: Opcode::I32x4Eq, args: Immediates::NoArgs })
    }

    /// Receives a `i32x4.ne` instruction.
    fn i32x4_ne(&mut self) -> (r: Result<(), ParseInstrError<E>>)
        ensures
            Self::spec_receives(*old(self), *final(self), (Opcode::I32x4Ne, ImmediatesView::NoArgs), r),
    {
        self.unrecognized(&Instr { opcode: Opcode::I32x4Ne, args: Immediates::NoArgs })
    }

    /// Receives a `i32x4.lt_s` instruction.
    fn i32x4_lt_s(&mut self) -> (r: Result<(), ParseInstrError<E>>)
        ensures
            Self::spec_receives(*old(self), *final(self), (Opcode::I32x4LtS, ImmediatesView::NoArgs), r),
    {
        self.unrecognized(&Instr { opcode: Opcode::I32x4LtS, args: Immediates::NoArgs })
    }

    /// Receives a `i32x4.lt_u` instruction.
    fn i32x4_lt_u(&mut self) -> (r: Result<(), ParseInstrError<E>>)
        ensures
            Self::spec_receives(*old(self), *final(self), (Opcode::I32x4LtU, ImmediatesView::NoArgs), r),
    {
        self.unrecognized(&Instr { opcode: Opcode::I32x4LtU, args: Immediates::NoArgs })
    }

    /// Receives a `i32x4.gt_s` instruction.
    fn i32x4_gt_s(&mut self) -> (r: Result<(), ParseInstrError<E>>)
        ensures
            Self::spec_receives(*old(self), *final(self), (Opcode::I32x4GtS, ImmediatesView::NoArgs), r),
    {
        self.unrecognized(&Instr { opcode: Opcode::I32x4GtS, args: Immediates::NoArgs })
    }

    /// Receives a `i32x4.gt_u` instruction.
    fn i32x4_gt_u(&mut self) -> (r: Result<(), ParseInstrError<E>>)
        ensures
            Self::spec_receives(*old(self), *final(self), (Opcode::I32x4GtU, ImmediatesView::NoArgs), r),
    {
        self.unrecognized(&Instr { opcode: Opcode::I32x4GtU, args: Immediates::NoArgs })
    }

    /// Receives a `i32x4.le_s` instruction.
    fn i32x4_le_s(&mut self) -> (r: Result<(), ParseInstrError<E>>)
        ensures
            Self::spec_receives(*old(self), *final(self), (Opcode::I32x4LeS, ImmediatesView::NoArgs), r),
    {
        self.unrecognized(&Instr { opcode: Opcode::I32x4LeS, args: Immediates::NoArgs })
    }

    /// Receives a `i32x4.le_u` instruction.
    fn i32x4_le_u(&mut self) -> (r: Result<(), ParseInstrError<E>>)
        ensures
            Self::spec_receives(*old(self), *final(self), (Opcode::I32x4LeU, ImmediatesView::NoArgs), r),
    {
        self.unrecognized(&Instr { opcode: Opcode::I32x4LeU, args: Immediates::NoArgs })
    }

    /// Receives a `i32x4.ge_s` instruction.
    fn i32x4_ge_s(&mut self) -> (r: Result<(), ParseInstrError<E>>)
        ensures
            Self::spec_receives(*old(self), *final(self), (Opcode::I32x4GeS, ImmediatesView::NoArgs), r),
    {
        self.unrecognized(&Instr { opcode: Opcode::I32x4GeS, args: Immediates::NoArgs })
    }

    /// Receives a `i32x4.ge_u` instruction.
    fn i32x4_ge_u(&mut self) -> (r: Result<(), ParseInstrError<E>>)
        ensures
            Self::spec_receives(*old(self), *final(self), (Opcode::I32x4GeU, ImmediatesView::NoArgs), r),
    {
        self.unrecognized(&Instr { opcode: Opcode::I32x4GeU, args: Immediates::NoArgs })
    }

    /// Receives a `f32x4.eq` instruction.
    fn f32x4_eq(&mut self) -> (r: Result<(), ParseInstrError<E>>)
        ensures
            Self::spec_receives(*old(self), *final(self), (Opcode::F32x4Eq, ImmediatesView::NoArgs), r),
    {
        self.unrecognized(&Instr { opcode: Opcode::F32x4Eq, args: Immediates::NoArgs })
    }

    /// Receives a `f32x4.ne` instruction.
    fn f32x4_ne(&mut self) -> (r: Result<(), ParseInstrError<E>>)
        ensures
            Self::spec_receives(*old(self), *final(self), (Opcode::F32x4Ne, ImmediatesView::NoArgs), r),
    {
        self.unrecognized(&Instr { opcode: Opcode::F32x4Ne, args: Immediates::NoArgs })
    }

    /// Receives a `f32x4.lt` instruction.
    fn f32x4_lt(&mut self) -> (r: Result<(), ParseInstrError<E>>)
        ensures
            Self::spec_receives(*old(self), *final(self), (Opcode::F32x4Lt, ImmediatesView::NoArgs), r),
    {
        self.unrecognized(&Instr { opcode: Opcode::F32x4Lt, args: Immediates::NoArgs })
    }

    /// Receives a `f32x4.gt` instruction.
    fn f32x4_gt(&mut self) -> (r: Result<(), ParseInstrError<E>>)
        ensures
            Self::spec_receives(*old(self), *final(self), (Opcode::F32x4Gt, ImmediatesView::NoArgs), r),
    {
        self.unrecognized(&Instr { opcode: Opcode::F32x4Gt, args: Immediates::NoArgs })
    }

    /// Receives a `f32x4.le` instruction.
    fn f32x4_le(&mut self) -> (r: Result<(), ParseInstrError<E>>)
        ensures
            Self::spec_receives(*old(self), *final(self), (Opcode::F32x4Le, ImmediatesView::NoArgs), r),
    {
        self.unrecognized(&Instr { opcode: Opcode::F32x4Le, args: Immediates::NoArgs })
    }

    /// Receives a `f32x4.ge` instruction.
    fn f32x4_ge(&mut self) -> (r: Result<(), ParseInstrError<E>>)
        ensures
            Self::spec_receives(*old(self), *final(self), (Opcode::F32x4Ge, ImmediatesView::NoArgs), r),
    {
        self.unrecognized(&Instr { opcode: Opcode::F32x4Ge, args: Immediates::NoArgs })
    }

    /// Receives a `f64x2.eq` instruction.
    fn f64x2_eq(&mut self) -> (r: Result<(), ParseInstrError<E>>)
        ensures
            Self::spec_receives(*old(self), *final(self), (Opcode::F64x2Eq, ImmediatesView::NoArgs), r),
    {
        self.unrecognized(&Instr { opcode: Opcode::F64x2Eq, args: Immediates::NoArgs })
    }

    /// Receives a `f64x2.ne` instruction.
    fn f64x2_ne(&mut self) -> (r: Result<(), ParseInstrError<E>>)
        ensures
            Self::spec_receives(*old(self), *final(self), (Opcode::F64x2Ne, ImmediatesView::NoArgs), r),
    {
        self.unrecognized(&Instr { opcode: Opcode::F64x2Ne, args: Immediates::NoArgs })
    }

    /// Receives a `f64x2.lt` instruction.
    fn f64x2_lt(&mut self) -> (r: Result<(), ParseInstrError<E>>)
        ensures
            Self::spec_receives(*old(self), *final(self), (Opcode::F64x2Lt, ImmediatesView::NoArgs), r),
    {
        self.unrecognized(&Instr { opcode: Opcode::F64x2Lt, args: Immediates::NoArgs })
    }

    /// Receives a `f64x2.gt` instruction.
    fn f64x2_gt(&mut self) -> (r: Result<(), ParseInstrError<E>>)
        ensures
            Self::spec_receives(*old(self), *final(self), (Opcode::F64x2Gt, ImmediatesView::NoArgs), r),
    {
        self.unrecognized(&Instr { opcode: Opcode::F64x2Gt, args: Immediates::NoArgs })
    }

    /// Receives a `f64x2.le` instruction.
    fn f64x2_le(&mut self) -> (r: Result<(), ParseInstrError<E>>)
        ensures
            Self::spec_receives(*old(self), *final(self), (Opcode::F64x2Le, ImmediatesView::NoArgs), r),
    {
        self.unrecognized(&Instr { opcode: Opcode::F64x2Le, args: Immediates::NoArgs })
    }

    /// Receives a `f64x2.ge` instruction.
    fn f64x2_ge(&mut self) -> (r: Result<(), ParseInstrError<E>>)
        ensures
            Self::spec_receives(*old(self), *final(self), (Opcode::F64x2Ge, ImmediatesView::NoArgs), r),
    {
        self.unrecognized(&Instr { opcode: Opcode::F64x2Ge, args: Immediates::NoArgs })
    }

    /// Receives a `v128.not` instruction.
    fn v128_not(&mut self) -> (r: Result<(), ParseInstrError<E>>)
        ensures
            Self::spec_receives(*old(self), *final(self), (Opcode::V128Not, ImmediatesView::NoArgs), r),
    {
        self.unrecognized(&Instr { opcode: Opcode::V128Not, args: Immediates::NoArgs })
    }

    /// Receives a `v128.and` instruction.
    fn v128_and(&mut self) -> (r: Result<(), ParseInstrError<E>>)
        ensures
            Self::spec_receives(*old(self), *final(self), (Opcode::V128And, ImmediatesView::NoArgs), r),
    {
        self.unrecognized(&Instr { opcode: Opcode::V128And, args: Immediates::NoArgs })
    }

    /// Receives a `v128.andnot` instruction.
    fn v128_andnot(&mut self) -> (r: Result<(), ParseInstrError<E>>)
        ensures
            Self::spec_receives(*old(self), *final(self), (Opcode::V128AndNot, ImmediatesView::NoArgs), r),
    {
        self.unrecognized(&Instr { opcode: Opcode::V128AndNot, args: Immediates::NoArgs })
    }

    /// Receives a `v128.or` instruction.
    fn v128_or(&mut self) -> (r: Result<(), ParseInstrError<E>>)
        ensures
            Self::spec_receives(*old(self), *final(self), (Opcode::V128Or, ImmediatesView::NoArgs), r),
    {
        self.unrecognized(&Instr { opcode: Opcode::V128Or, args: Immediates::NoArgs })
    }

    /// Receives a `v128.xor` instruction.
    fn v128_xor(&mut self) -> (r: Result<(), ParseInstrError<E>>)
        ensures
            Self::spec_receives(*old(self), *final(self), (Opcode::V128Xor, ImmediatesView::NoArgs), r),
    {
        self.unrecognized(&Instr { opcode: Opcode::V128Xor, args: Immediates::NoArgs })
    }

    /// Receives a `v128.bitselect` instruction.
    fn v128_bitselect(&mut self) -> (r: Result<(), ParseInstrError<E>>)
        ensures
            Self::spec_receives(*old(self), *final(self), (Opcode::V128Bitselect, ImmediatesView::NoArgs), r),
    {
        self.unrecognized(&Instr { opcode: Opcode::V128Bitselect, args: Immediates::NoArgs })
    }

    /// Receives a `v128.any_true` instruction.
    fn v128_any_true(&mut self) -> (r: Result<(), ParseInstrError<E>>)
        ensures
            Self::spec_receives(*old(self), *final(self), (Opcode::V128AnyTrue, ImmediatesView::NoArgs), r),
    {
        self.unrecognized(&Instr { opcode: Opcode::V128AnyTrue, args: Immediates::NoArgs })
    }

    /// Receives a `f32x4.demote_f64x2_zero` instruction.
    fn f32x4_demote_f64x2_zero(&mut self) -> (r: Result<(), ParseInstrError<E>>)
        ensures
            Self::spec_receives(*old(self), *final(self), (Opcode::F32x4DemoteF64x2Zero, ImmediatesView::NoArgs), r),
    {
        self.unrecognized(&Instr { opcode: Opcode::F32x4DemoteF64x2Zero, args: Immediates::NoArgs })
    }

    /// Receives a `f64x2.promote_low_f32x4` instruction.
    fn f64x2_promote_low_f32x4(&mut self) -> (r: Result<(), ParseInstrError<E>>)
        ensures
            Self::spec_receives(*old(self), *final(self), (Opcode::F64x2PromoteLowF32x4, ImmediatesView::NoArgs), r),
    {
        self.unrecognized(&Instr { opcode: Opcode::F64x2PromoteLowF32x4, args: Immediates::NoArgs })
    }

    /// Receives a `i8x16.abs` instruction.
    fn i8x16_abs(&mut self) -> (r: Result<(), ParseInstrError<E>>)
        ensures
            Self::spec_receives(*old(self), *final(self), (Opcode::I8x16Abs, ImmediatesView::NoArgs), r),
    {
        self.unrecognized(&Instr { opcode: Opcode::I8x16Abs, args: Immediates::NoArgs })
    }

    /// Receives a `i8x16.neg` instruction.
    fn i8x16_neg(&mut self) -> (r: Result<(), ParseInstrError<E>>)
        ensures
            Self::spec_receives(*old(self), *final(self), (Opcode::I8x16Neg, ImmediatesView::NoArgs), r),
    {
        self.unrecognized(&Instr { opcode: Opcode::I8x16Neg, args: Immediates::NoArgs })
    }

    /// Receives a `i8x16.popcnt` instruction.
    fn i8x16_popcnt(&mut self) -> (r: Result<(), ParseInstrError<E>>)
        ensures
            Self::spec_receives(*old(self), *final(self), (Opcode::I8x16Popcnt, ImmediatesView::NoArgs), r),
    {
        self.unrecognized(&Instr { opcode: Opcode::I8x16Popcnt, args: Immediates::NoArgs })
    }

    /// Receives a `i8x16.all_true` instruction.
    fn i8x16_all_true(&mut self) -> (r: Result<(), ParseInstrError<E>>)
        ensures
            Self::spec_receives(*old(self), *final(self), (Opcode::I8x16AllTrue, ImmediatesView::NoArgs), r),
    {
        self.unrecognized(&Instr { opcode: Opcode::I8x16AllTrue, args: Immediates::NoArgs })
    }

    /// Receives a `i8x16.bitmask` instruction.
    fn i8x16_bitmask(&mut self) -> (r: Result<(), ParseInstrError<E>>)
        ensures
            Self::spec_receives(*old(self), *final(self), (Opcode::I8x16Bitmask, ImmediatesView::NoArgs), r),
    {
        self.unrecognized(&Instr { opcode: Opcode::I8x16Bitmask, args: Immediates::NoArgs })
    }

    /// Receives a `i8x16.narrow_i16x8_s` instruction.
    fn i8x16_narrow_i16x8_s(&mut self) -> (r: Result<(), ParseInstrError<E>>)
        ensures
            Self::spec_receives(*old(self), *final(self), (Opcode::I8x16NarrowI16x8S, ImmediatesView::NoArgs), r),
    {
        self.unrecognized(&Instr { opcode: Opcode::I8x16NarrowI16x8S, args: Immediates::NoArgs })
    }

    /// Receives a `i8x16.narrow_i16x8_u` instruction.
    fn i8x16_narrow_i16x8_u(&mut self) -> (r: Result<(), ParseInstrError<E>>)
        ensures
            Self::spec_receives(*old(self), *final(self), (Opcode::I8x16NarrowI16x8U, ImmediatesView::NoArgs), r),
    {
        self.unrecognized(&Instr { opcode: Opcode::I8x16NarrowI16x8U, args: Immediates::NoArgs })
    }

    /// Receives a `f32x4.ceil` instruction.
    fn f32x4_ceil(&mut self) -> (r: Result<(), ParseInstrError<E>>)
        ensures
            Self::spec_receives(*old(self), *final(self), (Opcode::F32x4Ceil, ImmediatesView::NoArgs), r),
    {
        self.unrecognized(&Instr { opcode: Opcode::F32x4Ceil, args: Immediates::NoArgs })
    }

    /// Receives a `f32x4.floor` instruction.
    fn f32x4_floor(&mut self) -> (r: Result<(), ParseInstrError<E>>)
        ensures
            Self::spec_receives(*old(self), *final(self), (Opcode::F32x4Floor, ImmediatesView::NoArgs), r),
    {
        self.unrecognized(&Instr { opcode: Opcode::F32x4Floor, args: Immediates::NoArgs })
    }

    /// Receives a `f32x4.trunc` instruction.
    fn f32x4_trunc(&mut self) -> (r: Result<(), ParseInstrError<E>>)
        ensures
            Self::spec_receives(*old(self), *final(self), (Opcode::F32x4Trunc, ImmediatesView::NoArgs), r),
    {
        self.unrecognized(&Instr { opcode: Opcode::F32x4Trunc, args: Immediates::NoArgs })
    }

    /// Receives a `f32x4.nearest` instruction.
    fn f32x4_nearest(&mut self) -> (r: Result<(), ParseInstrError<E>>)
        ensures
            Self::spec_receives(*old(self), *final(self), (Opcode::F32x4Nearest, ImmediatesView::NoArgs), r),
    {
        self.unrecognized(&Instr { opcode: Opcode::F32x4Nearest, args: Immediates::NoArgs })
    }

    /// Receives a `i8x16.shl` instruction.
    fn i8x16_shl(&mut self) -> (r: Result<(), ParseInstrError<E>>)
        ensures
            Self::spec_receives(*old(self), *final(self), (Opcode::I8x16Shl, ImmediatesView::NoArgs), r),
    {
        self.unrecognized(&Instr { opcode: Opcode::I8x16Shl, args: Immediates::NoArgs })
    }

    /// Receives a `i8x16.shr_s` instruction.
    fn i8x16_shr_s(&mut self) -> (r: Result<(), ParseInstrError<E>>)
        ensures
            Self::spec_receives(*old(self), *final(self), (Opcode::I8x16ShrS, ImmediatesView::NoArgs), r),
    {
        self.unrecognized(&Instr { opcode: Opcode::I8x16ShrS, args: Immediates::NoArgs })
    }

    /// Receives a `i8x16.shr_u` instruction.
    fn i8x16_shr_u(&mut self) -> (r: Result<(), ParseInstrError<E>>)
        ensures
            Self::spec_receives(*old(self), *final(self), (Opcode::I8x16ShrU, ImmediatesView::NoArgs), r),
    {
        self.unrecognized(&Instr { opcode: Opcode::I8x16ShrU, args: Immediates::NoArgs })
    }

    /// Receives a `i8x16.add` instruction.
    fn i8x16_add(&mut self) -> (r: Result<(), ParseInstrError<E>>)
        ensures
            Self::spec_receives(*old(self), *final(self), (Opcode::I8x16Add, ImmediatesView::NoArgs), r),
    {
        self.unrecognized(&Instr { opcode: Opcode::I8x16Add, args: Immediates::NoArgs })
    }

    /// Receives a `i8x16.add_sat_s` instruction.
    fn i8x16_add_sat_s(&mut self) -> (r: Result<(), ParseInstrError<E>>)
        ensures
            Self::spec_receives(*old(self), *final(self), (Opcode::I8x16AddSatS, ImmediatesView::NoArgs), r),
    {
        self.unrecognized(&Instr { opcode: Opcode::I8x16AddSatS, args: Immediates::NoArgs })
    }

    /// Receives a `i8x16.add_sat_u` instruction.
    fn i8x16_add_sat_u(&mut self) -> (r: Result<(), ParseInstrError<E>>)
        ensures
            Self::spec_receives(*old(self), *final(self), (Opcode::I8x16AddSatU, ImmediatesView::NoArgs), r),
    {
        self.unrecognized(&Instr { opcode: Opcode::I8x16AddSatU, args: Immediates::NoArgs })
    }

    /// Receives a `i8x16.sub` instruction.
    fn i8x16_sub(&mut self) -> (r: Result<(), ParseInstrError<E>>)
        ensures
            Self::spec_receives(*old(self), *final(self), (Opcode::I8x16Sub, ImmediatesView::NoArgs), r),
    {
        self.unrecognized(&Instr { opcode: Opcode::I8x16Sub, args: Immediates::NoArgs })
    }

    /// Receives a `i8x16.sub_sat_s` instruction.
    fn i8x16_sub_sat_s(&mut self) -> (r: Result<(), ParseInstrError<E>>)
        ensures
            Self::spec_receives(*old(self), *final(self), (Opcode::I8x16SubSatS, ImmediatesView::NoArgs), r),
    {
        self.unrecognized(&Instr { opcode: Opcode::I8x16SubSatS, args: Immediates::NoArgs })
    }

    /// Receives a `i8x16.sub_sat_u` instruction.
    fn i8x16_sub_sat_u(&mut self) -> (r: Result<(), ParseInstrError<E>>)
        ensures
            Self::spec_receives(*old(self), *final(self), (Opcode::I8x16SubSatU, ImmediatesView::NoArgs), r),
    {
        self.unrecognized(&Instr { opcode: Opcode::I8x16SubSatU, args: Immediates::NoArgs })
    }

    /// Receives a `f64x2.ceil` instruction.
    fn f64x2_ceil(&mut self) -> (r: Result<(), ParseInstrError<E>>)
        ensures
            Self::spec_receives(*old(self), *final(self), (Opcode::F64x2Ceil, ImmediatesView::NoArgs), r),
    {
        self.unrecognized(&Instr { opcode: Opcode::F64x2Ceil, args: Immediates::NoArgs })
    }

    /// Receives a `f64x2.floor` instruction.
    fn f64x2_floor(&mut self) -> (r: Result<(), ParseInstrError<E>>)
        ensures
            Self::spec_receives(*old(self), *final(self), (Opcode::F64x2Floor, ImmediatesView::NoArgs), r),
    {
        self.unrecognized(&Instr { opcode: Opcode::F64x2Floor, args: Immediates::NoArgs })
    }

    /// Receives a `i8x16.min_s` instruction.
    fn i8x16_min_s(&mut self) -> (r: Result<(), ParseInstrError<E>>)
        ensures
            Self::spec_receives(*old(self), *final(self), (Opcode::I8x16MinS, ImmediatesView::NoArgs), r),
    {
        self.unrecognized(&Instr { opcode: Opcode::I8x16MinS, args: Immediates::NoArgs })
    }

    /// Receives a `i8x16.min_u` instruction.
    fn i8x16_min_u(&mut self) -> (r: Result<(), ParseInstrError<E>>)
        ensures
            Self::spec_receives(*old(self), *final(self), (Opcode::I8x16MinU, ImmediatesView::NoArgs), r),
    {
        self.unrecognized(&Instr { opcode: Opcode::I8x16MinU, args: Immediates::NoArgs })
    }

    /// Receives a `i8x16.max_s` instruction.
    fn i8x16_max_s(&mut self) -> (r: Result<(), ParseInstrError<E>>)
        ensures
            Self::spec_receives(*old(self), *final(self), (Opcode::I8x16MaxS, ImmediatesView::NoArgs), r),
    {
        self.unrecognized(&Instr { opcode: Opcode::I8x16MaxS, args: Immediates::NoArgs })
    }

    /// Receives a `i8x16.max_u` instruction.
    fn i8x16_max_u(&mut self) -> (r: Result<(), ParseInstrError<E>>)
        ensures
            Self::spec_receives(*old(self), *final(self), (Opcode::I8x16MaxU, ImmediatesView::NoArgs), r),
    {
        self.unrecognized(&Instr { opcode: Opcode::I8x16MaxU, args: Immediates::NoArgs })
    }

    /// Receives a `f64x2.trunc` instruction.
    fn f64x2_trunc(&mut self) -> (r: Result<(), ParseInstrError<E>>)
        ensures
            Self::spec_receives(*old(self), *final(self), (Opcode::F64x2Trunc, ImmediatesView::NoArgs), r),
    {
        self.unrecognized(&Instr { opcode: Opcode::F64x2Trunc, args: Immediates::NoArgs })
    }

    /// Receives a `i8x16.avgr_u` instruction.
    fn i8x16_avgr_u(&mut self) -> (r: Result<(), ParseInstrError<E>>)
        ensures
            Self::spec_receives(*old(self), *final(self), (Opcode::I8x16AvgrU, ImmediatesView::NoArgs), r),
    {
        self.unrecognized(&Instr { opcode: Opcode::I8x16AvgrU, args: Immediates::NoArgs })
    }

    /// Receives a `i16x8.extadd_pairwise_i8x16_s` instruction.
    fn i16x8_extadd_pairwise_i8x16_s(&mut self) -> (r: Result<(), ParseInstrError<E>>)
        ensures
            Self::spec_receives(*old(self), *final(self), (Opcode::I16x8ExtaddPairwiseI8x16S, ImmediatesView::NoArgs), r),
    {
        self.unrecognized(&Instr { opcode: Opcode::I16x8ExtaddPairwiseI8x16S, args: Immediates::NoArgs })
    }

    /// Receives a `i16x8.extadd_pairwise_i8x16_u` instruction.
    fn i16x8_extadd_pairwise_i8x16_u(&mut self) -> (r: Result<(), ParseInstrError<E>>)
        ensures
            Self::spec_receives(*old(self), *final(self), (Opcode::I16x8ExtaddPairwiseI8x16U, ImmediatesView::NoArgs), r),
    {
        self.unrecognized(&Instr { opcode: Opcode::I16x8ExtaddPairwiseI8x16U, args: Immediates::NoArgs })
    }

    /// Receives a `i32x4.extadd_pairwise_i16x8_s` instruction.
    fn i32x4_extadd_pairwise_i16x8_s(&mut self) -> (r: Result<(), ParseInstrError<E>>)
        ensures
            Self::spec_receives(*old(self), *final(self), (Opcode::I32x4ExtaddPairwiseI16x8S, ImmediatesView::NoArgs), r),
    {
        self.unrecognized(&Instr { opcode: Opcode::I32x4ExtaddPairwiseI16x8S, args: Immediates::NoArgs })
    }

    /// Receives a `i32x4.extadd_pairwise_i16x8_u` instruction.
    fn i32x4_extadd_pairwise_i16x8_u(&mut self) -> (r: Result<(), ParseInstrError<E>>)
        ensures
            Self::spec_receives(*old(self), *final(self), (Opcode::I32x4ExtaddPairwiseI16x8U, ImmediatesView::NoArgs), r),
    {
        self.unrecognized(&Instr { opcode: Opcode::I32x4ExtaddPairwiseI16x8U, args: Immediates::NoArgs })
    }

    /// Receives a `i16x8.abs` instruction.
    fn i16x8_abs(&mut self) -> (r: Result<(), ParseInstrError<E>>)
        ensures
            Self::spec_receives(*old(self), *final(self), (Opcode::I16x8Abs, ImmediatesView::NoArgs), r),
    {
        self.unrecognized(&Instr { opcode: Opcode::I16x8Abs, args: Immediates::NoArgs })
    }

    /// Receives a `i16x8.neg` instruction.
    fn i16x8_neg(&mut self) -> (r: Result<(), ParseInstrError<E>>)
        ensures
            Self::spec_receives(*old(self), *final(self), (Opcode::I16x8Neg, ImmediatesView::NoArgs), r),
    {
        self.unrecognized(&Instr { opcode: Opcode::I16x8Neg, args: Immediates::NoArgs })
    }

    /// Receives a `i16x8.q15mulr_sat_s` instruction.
    fn i16x8_q15mulr_sat_s(&mut self) -> (r: Result<(), ParseInstrError<E>>)
        ensures
            Self::spec_receives(*old(self), *final(self), (Opcode::I16x8Q15mulrSatS, ImmediatesView::NoArgs), r),
    {
        self.unrecognized(&Instr { opcode: Opcode::I16x8Q15mulrSatS, args: Immediates::NoArgs })
    }

    /// Receives a `i16x8.all_true` instruction.
    fn i16x8_all_true(&mut self) -> (r: Result<(), ParseInstrError<E>>)
        ensures
            Self::spec_receives(*old(self), *final(self), (Opcode::I16x8AllTrue, ImmediatesView::NoArgs), r),
    {
        self.unrecognized(&Instr { opcode: Opcode::I16x8AllTrue, args: Immediates::NoArgs })
    }

    /// Receives a `i16x8.bitmask` instruction.
    fn i16x8_bitmask(&mut self) -> (r: Result<(), ParseInstrError<E>>)
        ensures
            Self::spec_receives(*old(self), *final(self), (Opcode::I16x8Bitmask, ImmediatesView::NoArgs), r),
    {
        self.unrecognized(&Instr { opcode: Opcode::I16x8Bitmask, args: Immediates::NoArgs })
    }

    /// Receives a `i16x8.narrow_i32x4_s` instruction.
    fn i16x8_narrow_i32x4_s(&mut self) -> (r: Result<(), ParseInstrError<E>>)
        ensures
            Self::spec_receives(*old(self), *final(self), (Opcode::I16x8NarrowI32x4S, ImmediatesView::NoArgs), r),
    {
        self.unrecognized(&Instr { opcode: Opcode::I16x8NarrowI32x4S, args: Immediates::NoArgs })
    }

    /// Receives a `i16x8.narrow_i32x4_u` instruction.
    fn i16x8_narrow_i32x4_u(&mut self) -> (r: Result<(), ParseInstrError<E>>)
        ensures
            Self::spec_receives(*old(self), *final(self), (Opcode::I16x8NarrowI32x4U, ImmediatesView::NoArgs), r),
    {
        self.unrecognized(&Instr { opcode: Opcode::I16x8NarrowI32x4U, args: Immediates::NoArgs })
    }

    /// Receives a `i16x8.extend_low_i8x16_s` instruction.
    fn i16x8_extend_low_i8x16_s(&mut self) -> (r: Result<(), ParseInstrError<E>>)
        ensures
            Self::spec_receives(*old(self), *final(self), (Opcode::I16x8ExtendLowI8x16S, ImmediatesView::NoArgs), r),
    {
        self.unrecognized(&Instr { opcode: Opcode::I16x8ExtendLowI8x16S, args: Immediates::NoArgs })
    }

    /// Receives a `i16x8.extend_high_i8x16_s` instruction.
    fn i16x8_extend_high_i8x16_s(&mut self) -> (r: Result<(), ParseInstrError<E>>)
        ensures
            Self::spec_receives(*old(self), *final(self), (Opcode::I16x8ExtendHighI8x16S, ImmediatesView::NoArgs), r),
    {
        self.unrecognized(&Instr { opcode: Opcode::I16x8ExtendHighI8x16S, args: Immediates::NoArgs })
    }

    /// Receives a `i16x8.extend_low_i8x16_u` instruction.
    fn i16x8_extend_low_i8x16_u(&mut self) -> (r: Result<(), ParseInstrError<E>>)
        ensures
            Self::spec_receives(*old(self), *final(self), (Opcode::I16x8ExtendLowI8x16U, ImmediatesView::NoArgs), r),
    {
        self.unrecognized(&Instr { opcode: Opcode::I16x8ExtendLowI8x16U, args: Immediates::NoArgs })
    }

    /// Receives a `i16x8.extend_high_i8x16_u` instruction.
    fn i16x8_extend_high_i8x16_u(&mut self) -> (r: Result<(), ParseInstrError<E>>)
        ensures
            Self::spec_receives(*old(self), *final(self), (Opcode::I16x8ExtendHighI8x16U, ImmediatesView::NoArgs), r),
    {
        self.unrecognized(&Instr { opcode: Opcode::I16x8ExtendHighI8x16U, args: Immediates::NoArgs })
    }

    /// Receives a `i16x8.shl` instruction.
    fn i16x8_shl(&mut self) -> (r: Result<(), ParseInstrError<E>>)
        ensures
            Self::spec_receives(*old(self), *final(self), (Opcode::I16x8Shl, ImmediatesView::NoArgs), r),
    {
        self.unrecognized(&Instr { opcode: Opcode::I16x8Shl, args: Immediates::NoArgs })
    }

    /// Receives a `i16x8.shr_s` instruction.
    fn i16x8_shr_s(&mut self) -> (r: Result<(), ParseInstrError<E>>)
        ensures
            Self::spec_receives(*old(self), *final(self), (Opcode::I16x8ShrS, ImmediatesView::NoArgs), r),
    {
        self.unrecognized(&Instr { opcode: Opcode::I16x8ShrS, args: Immediates::NoArgs })
    }

    /// Receives a `i16x8.shr_u` instruction.
    fn i16x8_shr_u(&mut self) -> (r: Result<(), ParseInstrError<E>>)
        ensures
            Self::spec_receives(*old(self), *final(self), (Opcode::I16x8ShrU, ImmediatesView::NoArgs), r),
    {
        self.unrecognized(&Instr { opcode: Opcode::I16x8ShrU, args: Immediates::NoArgs })
    }

    /// Receives a `i16x8.add` instruction.
    fn i16x8_add(&mut self) -> (r: Result<(), ParseInstrError<E>>)
        ensures
            Self::spec_receives(*old(self), *final(self), (Opcode::I16x8Add, ImmediatesView::NoArgs), r),
    {
        self.unrecognized(&Instr { opcode: Opcode::I16x8Add, args: Immediates::NoArgs })
    }

    /// Receives a `i16x8.add_sat_s` instruction.
    fn i16x8_add_sat_s(&mut self) -> (r: Result<(), ParseInstrError<E>>)
        ensures
            Self::spec_receives(*old(self), *final(self), (Opcode::I16x8AddSatS, ImmediatesView::NoArgs), r),
    {
        self.unrecognized(&Instr { opcode: Opcode::I16x8AddSatS, args: Immediates::NoArgs })
    }

    /// Receives a `i16x8.add_sat_u` instruction.
    fn i16x8_add_sat_u(&mut self) -> (r: Result<(), ParseInstrError<E>>)
        ensures
            Self::spec_receives(*old(self), *final(self), (Opcode::I16x8AddSatU, ImmediatesView::NoArgs), r),
    {
        self.unrecognized(&Instr { opcode: Opcode::I16x8AddSatU, args: Immediates::NoArgs })
    }

    /// Receives a `i16x8.sub` instruction.
    fn i16x8_sub(&mut self) -> (r: Result<(), ParseInstrError<E>>)
        ensures
            Self::spec_receives(*old(self), *final(self), (Opcode::I16x8Sub, ImmediatesView::NoArgs), r),
    {
        self.unrecognized(&Instr { opcode: Opcode::I16x8Sub, args: Immediates::NoArgs })
    }

    /// Receives a `i16x8.sub_sat_s` instruction.
    fn i16x8_sub_sat_s(&mut self) -> (r: Result<(), ParseInstrError<E>>)
        ensures
            Self::spec_receives(*old(self), *final(self), (Opcode::I16x8SubSatS, ImmediatesView::NoArgs), r),
    {
        self.unrecognized(&Instr { opcode: Opcode::I16x8SubSatS, args: Immediates::NoArgs })
    }

    /// Receives a `i16x8.sub_sat_u` instruction.
    fn i16x8_sub_sat_u(&mut self) -> (r: Result<(), ParseInstrError<E>>)
        ensures
            Self::spec_receives(*old(self), *final(self), (Opcode::I16x8SubSatU, ImmediatesView::NoArgs), r),
    {
        self.unrecognized(&Instr { opcode: Opcode::I16x8SubSatU, args: Immediates::NoArgs })
    }

    /// Receives a `f64x2.nearest` instruction.
    fn f64x2_nearest(&mut self) -> (r: Result<(), ParseInstrError<E>>)
        ensures
            Self::spec_receives(*old(self), *final(self), (Opcode::F64x2Nearest, ImmediatesView::NoArgs), r),
    {
        self.unrecognized(&Instr { opcode: Opcode::F64x2Nearest, args: Immediates::NoArgs })
    }

    /// Receives a `i16x8.mul` instruction.
    fn i16x8_mul(&mut self) -> (r: Result<(), ParseInstrError<E>>)
        ensures
            Self::spec_receives(*old(self), *final(self), (Opcode::I16x8Mul, ImmediatesView::NoArgs), r),
    {
        self.unrecognized(&Instr { opcode: Opcode::I16x8Mul, args: Immediates::NoArgs })
    }

    /// Receives a `i16x8.min_s` instruction.
    fn i16x8_min_s(&mut self) -> (r: Result<(), ParseInstrError<E>>)
        ensures
            Self::spec_receives(*old(self), *final(self), (Opcode::I16x8MinS, ImmediatesView::NoArgs), r),
    {
        self.unrecognized(&Instr { opcode: Opcode::I16x8MinS, args: Immediates::NoArgs })
    }

    /// Receives a `i16x8.min_u` instruction.
    fn i16x8_min_u(&mut self) -> (r: Result<(), ParseInstrError<E>>)
        ensures
            Self::spec_receives(*old(self), *final(self), (Opcode::I16x8MinU, ImmediatesView::NoArgs), r),
    {
        self.unrecognized(&Instr { opcode: Opcode::I16x8MinU, args: Immediates::NoArgs })
    }

    /// Receives a `i16x8.max_s` instruction.
    fn i16x8_max_s(&mut self) -> (r: Result<(), ParseInstrError<E>>)
        ensures
            Self::spec_receives(*old(self), *final(self), (Opcode::I16x8MaxS, ImmediatesView::NoArgs), r),
    {
        self.unrecognized(&Instr { opcode: Opcode::I16x8MaxS, args: Immediates::NoArgs })
    }

    /// Receives a `i16x8.max_u` instruction.
    fn i16x8_max_u(&mut self) -> (r: Result<(), ParseInstrError<E>>)
        ensures
            Self::spec_receives(*old(self), *final(self), (Opcode::I16x8MaxU, ImmediatesView::NoArgs), r),
    {
        self.unrecognized(&Instr { opcode: Opcode::I16x8MaxU, args: Immediates::NoArgs })
    }

    /// Receives a `i16x8.avgr_u` instruction.
    fn i16x8_avgr_u(&mut self) -> (r: Result<(), ParseInstrError<E>>)
        ensures
            Self::spec_receives(*old(self), *final(self), (Opcode::I16x8AvgrU, ImmediatesView::NoArgs), r),
    {
        self.unrecognized(&Instr { opcode: Opcode::I16x8AvgrU, args: Immediates::NoArgs })
    }

    /// Receives a `i16x8.extmul_low_i8x16_s` instruction.
    fn i16x8_extmul_low_i8x16_s(&mut self) -> (r: Result<(), ParseInstrError<E>>)
        ensures
            Self::spec_receives(*old(self), *final(self), (Opcode::I16x8ExtmulLowI8x16S, ImmediatesView::NoArgs), r),
    {
        self.unrecognized(&Instr { opcode: Opcode::I16x8ExtmulLowI8x16S, args: Immediates::NoArgs })
    }

    /// Receives a `i16x8.extmul_high_i8x16_s` instruction.
    fn i16x8_extmul_high_i8x16_s(&mut self) -> (r: Result<(), ParseInstrError<E>>)
        ensures
            Self::spec_receives(*old(self), *final(self), (Opcode::I16x8ExtmulHighI8x16S, ImmediatesView::NoArgs), r),
    {
        self.unrecognized(&Instr { opcode: Opcode::I16x8ExtmulHighI8x16S, args: Immediates::NoArgs })
    }

    /// Receives a `i16x8.extmul_low_i8x16_u` instruction.
    fn i16x8_extmul_low_i8x16_u(&mut self) -> (r: Result<(), ParseInstrError<E>>)
        ensures
            Self::spec_receives(*old(self), *final(self), (Opcode::I16x8ExtmulLowI8x16U, ImmediatesView::NoArgs), r),
    {
        self.unrecognized(&Instr { opcode: Opcode::I16x8ExtmulLowI8x16U, args: Immediates::NoArgs })
    }

    /// Receives a `i16x8.extmul_high_i8x16_u` instruction.
    fn i16x8_extmul_high_i8x16_u(&mut self) -> (r: Result<(), ParseInstrError<E>>)
        ensures
            Self::spec_receives(*old(self), *final(self), (Opcode::I16x8ExtmulHighI8x16U, ImmediatesView::NoArgs), r),
    {
        self.unrecognized(&Instr { opcode: Opcode::I16x8ExtmulHighI8x16U, args: Immediates::NoArgs })
    }

    /// Receives a `i32x4.abs` instruction.
    fn i32x4_abs(&mut self) -> (r: Result<(), ParseInstrError<E>>)
        ensures
            Self::spec_receives(*old(self), *final(self), (Opcode::I32x4Abs, ImmediatesView::NoArgs), r),
    {
        self.unrecognized(&Instr { opcode: Opcode::I32x4Abs, args: Immediates::NoArgs })
    }

    /// Receives a `i32x4.neg` instruction.
    fn i32x4_neg(&mut self) -> (r: Result<(), ParseInstrError<E>>)
        ensures
            Self::spec_receives(*old(self), *final(self), (Opcode::I32x4Neg, ImmediatesView::NoArgs), r),
    {
        self.unrecognized(&Instr { opcode: Opcode::I32x4Neg, args: Immediates::NoArgs })
    }

    /// Receives a `i32x4.all_true` instruction.
    fn i32x4_all_true(&mut self) -> (r: Result<(), ParseInstrError<E>>)
        ensures
            Self::spec_receives(*old(self), *final(self), (Opcode::I32x4AllTrue, ImmediatesView::NoArgs), r),
    {
        self.unrecognized(&Instr { opcode: Opcode::I32x4AllTrue, args: Immediates::NoArgs })
    }

    /// Receives a `i32x4.bitmask` instruction.
    fn i32x4_bitmask(&mut self) -> (r: Result<(), ParseInstrError<E>>)
        ensures
            Self::spec_receives(*old(self), *final(self), (Opcode::I32x4Bitmask, ImmediatesView::NoArgs), r),
    {
        self.unrecognized(&Instr { opcode: Opcode::I32x4Bitmask, args: Immediates::NoArgs })
    }

    /// Receives a `i32x4.extend_low_i16x8_s` instruction.
    fn i32x4_extend_low_i16x8_s(&mut self) -> (r: Result<(), ParseInstrError<E>>)
        ensures
            Self::spec_receives(*old(self), *final(self), (Opcode::I32x4ExtendLowI16x8S, ImmediatesView::NoArgs), r),
    {
        self.unrecognized(&Instr { opcode: Opcode::I32x4ExtendLowI16x8S, args: Immediates::NoArgs })
    }

    /// Receives a `i32x4.extend_high_i16x8_s` instruction.
    fn i32x4_extend_high_i16x8_s(&mut self) -> (r: Result<(), ParseInstrError<E>>)
        ensures
            Self::spec_receives(*old(self), *final(self), (Opcode::I32x4ExtendHighI16x8S, ImmediatesView::NoArgs), r),
    {
        self.unrecognized(&Instr { opcode: Opcode::I32x4ExtendHighI16x8S, args: Immediates::NoArgs })
    }

    /// Receives a `i32x4.extend_low_i16x8_u` instruction.
    fn i32x4_extend_low_i16x8_u(&mut self) -> (r: Result<(), ParseInstrError<E>>)
        ensures
            Self::spec_receives(*old(self), *final(self), (Opcode::I32x4ExtendLowI16x8U, ImmediatesView::NoArgs), r),
    {
        self.unrecognized(&Instr { opcode: Opcode::I32x4ExtendLowI16x8U, args: Immediates::NoArgs })
    }

    /// Receives a `i32x4.extend_high_i16x8_u` instruction.
    fn i32x4_extend_high_i16x8_u(&mut self) -> (r: Result<(), ParseInstrError<E>>)
        ensures
            Self::spec_receives(*old(self), *final(self), (Opcode::I32x4ExtendHighI16x8U, ImmediatesView::NoArgs), r),
    {
        self.unrecognized(&Instr { opcode: Opcode::I32x4ExtendHighI16x8U, args: Immediates::NoArgs })
    }

    /// Receives a `i32x4.shl` instruction.
    fn i32x4_shl(&mut self) -> (r: Result<(), ParseInstrError<E>>)
        ensures
            Self::spec_receives(*old(self), *final(self), (Opcode::I32x4Shl, ImmediatesView::NoArgs), r),
    {
        self.unrecognized(&Instr { opcode: Opcode::I32x4Shl, args: Immediates::NoArgs })
    }

    /// Receives a `i32x4.shr_s` instruction.
    fn i32x4_shr_s(&mut self) -> (r: Result<(), ParseInstrError<E>>)
        ensures
            Self::spec_receives(*old(self), *final(self), (Opcode::I32x4ShrS, ImmediatesView::NoArgs), r),
    {
        self.unrecognized(&Instr { opcode: Opcode::I32x4ShrS, args: Immediates::NoArgs })
    }

    /// Receives a `i32x4.shr_u` instruction.
    fn i32x4_shr_u(&mut self) -> (r: Result<(), ParseInstrError<E>>)
        ensures
            Self::spec_receives(*old(self), *final(self), (Opcode::I32x4ShrU, ImmediatesView::NoArgs), r),
    {
        self.unrecognized(&Instr { opcode: Opcode::I32x4ShrU, args: Immediates::NoArgs })
    }

    /// Receives a `i32x4.add` instruction.
    fn i32x4_add(&mut self) -> (r: Result<(), ParseInstrError<E>>)
        ensures
            Self::spec_receives(*old(self), *final(self), (Opcode::I32x4Add, ImmediatesView::NoArgs), r),
    {
        self.unrecognized(&Instr { opcode: Opcode::I32x4Add, args: Immediates::NoArgs })
    }

    /// Receives a `i32x4.sub` instruction.
    fn i32x4_sub(&mut self) -> (r: Result<(), ParseInstrError<E>>)
        ensures
            Self::spec_receives(*old(self), *final(self), (Opcode::I32x4Sub, ImmediatesView::NoArgs), r),
    {
        self.unrecognized(&Instr { opcode: Opcode::I32x4Sub, args: Immediates::NoArgs })
    }

    /// Receives a `i32x4.mul` instruction.
    fn i32x4_mul(&mut self) -> (r: Result<(), ParseInstrError<E>>)
        ensures
            Self::spec_receives(*old(self), *final(self), (Opcode::I32x4Mul, ImmediatesView::NoArgs), r),
    {
        self.unrecognized(&Instr { opcode: Opcode::I32x4Mul, args: Immediates::NoArgs })
    }

    /// Receives a `i32x4.min_s` instruction.
    fn i32x4_min_s(&mut self) -> (r: Result<(), ParseInstrError<E>>)
        ensures
            Self::spec_receives(*old(self), *final(self), (Opcode::I32x4MinS, ImmediatesView::NoArgs), r),
    {
        self.unrecognized(&Instr { opcode: Opcode::I32x4MinS, args: Immediates::NoArgs })
    }

    /// Receives a `i32x4.min_u` instruction.
    fn i32x4_min_u(&mut self) -> (r: Result<(), ParseInstrError<E>>)
        ensures
            Self::spec_receives(*old(self), *final(self), (Opcode::I32x4MinU, ImmediatesView::NoArgs), r),
    {
        self.unrecognized(&Instr { opcode: Opcode::I32x4MinU, args: Immediates::NoArgs })
    }

    /// Receives a `i32x4.max_s` instruction.
    fn i32x4_max_s(&mut self) -> (r: Result<(), ParseInstrError<E>>)
        ensures
            Self::spec_receives(*old(self), *final(self), (Opcode::I32x4MaxS, ImmediatesView::NoArgs), r),
    {
        self.unrecognized(&Instr { opcode: Opcode::I32x4MaxS, args: Immediates::NoArgs })
    }

    /// Receives a `i32x4.max_u` instruction.
    fn i32x4_max_u(&mut self) -> (r: Result<(), ParseInstrError<E>>)
        ensures
            Self::spec_receives(*old(self), *final(self), (Opcode::I32x4MaxU, ImmediatesView::NoArgs), r),
    {
        self.unrecognized(&Instr { opcode: Opcode::I32x4MaxU, args: Immediates::NoArgs })
    }

    /// Receives a `i32x4.dot_i16x8_s` instruction.
    fn i32x4_dot_i16x8_s(&mut self) -> (r: Result<(), ParseInstrError<E>>)
        ensures
            Self::spec_receives(*old(self), *final(self), (Opcode::I32x4DotI16x8S, ImmediatesView::NoArgs), r),
    {
        self.unrecognized(&Instr { opcode: Opcode::I32x4DotI16x8S, args: Immediates::NoArgs })
    }

    /// Receives a `i32x4.extmul_low_i16x8_s` instruction.
    fn i32x4_extmul_low_i16x8_s(&mut self) -> (r: Result<(), ParseInstrError<E>>)
        ensures
            Self::spec_receives(*old(self), *final(self), (Opcode::I32x4ExtmulLowI16x8S, ImmediatesView::NoArgs), r),
    {
        self.unrecognized(&Instr { opcode: Opcode::I32x4ExtmulLowI16x8S, args: Immediates::NoArgs })
    }

    /// Receives a `i32x4.extmul_high_i16x8_s` instruction.
    fn i32x4_extmul_high_i16x8_s(&mut self) -> (r: Result<(), ParseInstrError<E>>)
        ensures
            Self::spec_receives(*old(self), *final(self), (Opcode::I32x4ExtmulHighI16x8S, ImmediatesView::NoArgs), r),
    {
        self.unrecognized(&Instr { opcode: Opcode::I32x4ExtmulHighI16x8S, args: Immediates::NoArgs })
    }

    /// Receives a `i32x4.extmul_low_i16x8_u` instruction.
    fn i32x4_extmul_low_i16x8_u(&mut self) -> (r: Result<(), ParseInstrError<E>>)
        ensures
            Self::spec_receives(*old(self), *final(self), (Opcode::I32x4ExtmulLowI16x8U, ImmediatesView::NoArgs), r),
    {
        self.unrecognized(&Instr { opcode: Opcode::I32x4ExtmulLowI16x8U, args: Immediates::NoArgs })
    }

    /// Receives a `i32x4.extmul_high_i16x8_u` instruction.
    fn i32x4_extmul_high_i16x8_u(&mut self) -> (r: Result<(), ParseInstrError<E>>)
        ensures
            Self::spec_receives(*old(self), *final(self), (Opcode::I32x4ExtmulHighI16x8U, ImmediatesView::NoArgs), r),
    {
        self.unrecognized(&Instr { opcode: Opcode::I32x4ExtmulHighI16x8U, args: Immediates::NoArgs })
    }

    /// Receives a `i64x2.abs` instruction.
    fn i64x2_abs(&mut self) -> (r: Result<(), ParseInstrError<E>>)
        ensures
            Self::spec_receives(*old(self), *final(self), (Opcode::I64x2Abs, ImmediatesView::NoArgs), r),
    {
        self.unrecognized(&Instr { opcode: Opcode::I64x2Abs, args: Immediates::NoArgs })
    }

    /// Receives a `i64x2.neg` instruction.
    fn i64x2_neg(&mut self) -> (r: Result<(), ParseInstrError<E>>)
        ensures
            Self::spec_receives(*old(self), *final(self), (Opcode::I64x2Neg, ImmediatesView::NoArgs), r),
    {
        self.unrecognized(&Instr { opcode: Opcode::I64x2Neg, args: Immediates::NoArgs })
    }

    /// Receives a `i64x2.all_true` instruction.
    fn i64x2_all_true(&mut self) -> (r: Result<(), ParseInstrError<E>>)
        ensures
            Self::spec_receives(*old(self), *final(self), (Opcode::I64x2AllTrue, ImmediatesView::NoArgs), r),
    {
        self.unrecognized(&Instr { opcode: Opcode::I64x2AllTrue, args: Immediates::NoArgs })
    }

    /// Receives a `i64x2.bitmask` instruction.
    fn i64x2_bitmask(&mut self) -> (r: Result<(), ParseInstrError<E>>)
        ensures
            Self::spec_receives(*old(self), *final(self), (Opcode::I64x2Bitmask, ImmediatesView::NoArgs), r),
    {
        self.unrecognized(&Instr { opcode: Opcode::I64x2Bitmask, args: Immediates::NoArgs })
    }

    /// Receives a `i64x2.extend_low_i32x4_s` instruction.
    fn i64x2_extend_low_i32x4_s(&mut self) -> (r: Result<(), ParseInstrError<E>>)
        ensures
            Self::spec_receives(*old(self), *final(self), (Opcode::I64x2ExtendLowI32x4S, ImmediatesView::NoArgs), r),
    {
        self.unrecognized(&Instr { opcode: Opcode::I64x2ExtendLowI32x4S, args: Immediates::NoArgs })
    }

    /// Receives a `i64x2.extend_high_i32x4_s` instruction.
    fn i64x2_extend_high_i32x4_s(&mut self) -> (r: Result<(), ParseInstrError<E>>)
        ensures
            Self::spec_receives(*old(self), *final(self), (Opcode::I64x2ExtendHighI32x4S, ImmediatesView::NoArgs), r),
    {
        self.unrecognized(&Instr { opcode: Opcode::I64x2ExtendHighI32x4S, args: Immediates::NoArgs })
    }

    /// Receives a `i64x2.extend_low_i32x4_u` instruction.
    fn i64x2_extend_low_i32x4_u(&mut self) -> (r: Result<(), ParseInstrError<E>>)
        ensures
            Self::spec_receives(*old(self), *final(self), (Opcode::I64x2ExtendLowI32x4U, ImmediatesView::NoArgs), r),
    {
        self.unrecognized(&Instr { opcode: Opcode::I64x2ExtendLowI32x4U, args: Immediates::NoArgs })
    }

    /// Receives a `i64x2.extend_high_i32x4_u` instruction.
    fn i64x2_extend_high_i32x4_u(&mut self) -> (r: Result<(), ParseInstrError<E>>)
        ensures
            Self::spec_receives(*old(self), *final(self), (Opcode::I64x2ExtendHighI32x4U, ImmediatesView::NoArgs), r),
    {
        self.unrecognized(&Instr { opcode: Opcode::I64x2ExtendHighI32x4U, args: Immediates::NoArgs })
    }

    /// Receives a `i64x2.shl` instruction.
    fn i64x2_shl(&mut self) -> (r: Result<(), ParseInstrError<E>>)
        ensures
            Self::spec_receives(*old(self), *final(self), (Opcode::I64x2Shl, ImmediatesView::NoArgs), r),
    {
        self.unrecognized(&Instr { opcode: Opcode::I64x2Shl, args: Immediates::NoArgs })
    }

    /// Receives a `i64x2.shr_s` instruction.
    fn i64x2_shr_s(&mut self) -> (r: Result<(), ParseInstrError<E>>)
        ensures
            Self::spec_receives(*old(self), *final(self), (Opcode::I64x2ShrS, ImmediatesView::NoArgs), r),
    {
        self.unrecognized(&Instr { opcode: Opcode::I64x2ShrS, args: Immediates::NoArgs })
    }

    /// Receives a `i64x2.shr_u` instruction.
    fn i64x2_shr_u(&mut self) -> (r: Result<(), ParseInstrError<E>>)
        ensures
            Self::spec_receives(*old(self), *final(self), (Opcode::I64x2ShrU, ImmediatesView::NoArgs), r),
    {
        self.unrecognized(&Instr { opcode: Opcode::I64x2ShrU, args: Immediates::NoArgs })
    }

    /// Receives a `i64x2.add` instruction.
    fn i64x2_add(&mut self) -> (r: Result<(), ParseInstrError<E>>)
        ensures
            Self::spec_receives(*old(self), *final(self), (Opcode::I64x2Add, ImmediatesView::NoArgs), r),
    {
        self.unrecognized(&Instr { opcode: Opcode::I64x2Add, args: Immediates::NoArgs })
    }

    /// Receives a `i64x2.sub` instruction.
    fn i64x2_sub(&mut self) -> (r: Result<(), ParseInstrError<E>>)
        ensures
            Self::spec_receives(*old(self), *final(self), (Opcode::I64x2Sub, ImmediatesView::NoArgs), r),
    {
        self.unrecognized(&Instr { opcode: Opcode::I64x2Sub, args: Immediates::NoArgs })
    }

    /// Receives a `i64x2.mul` instruction.
    fn i64x2_mul(&mut self) -> (r: Result<(), ParseInstrError<E>>)
        ensures
            Self::spec_receives(*old(self), *final(self), (Opcode::I64x2Mul, ImmediatesView::NoArgs), r),
    {
        self.unrecognized(&Instr { opcode: Opcode::I64x2Mul, args: Immediates::NoArgs })
    }

    /// Receives a `i64x2.eq` instruction.
    fn i64x2_eq(&mut self) -> (r: Result<(), ParseInstrError<E>>)
        ensures
            Self::spec_receives(*old(self), *final(self), (Opcode::I64x2Eq, ImmediatesView::NoArgs), r),
    {
        self.unrecognized(&Instr { opcode: Opcode::I64x2Eq, args: Immediates::NoArgs })
    }

    /// Receives a `i64x2.ne` instruction.
    fn i64x2_ne(&mut self) -> (r: Result<(), ParseInstrError<E>>)
        ensures
            Self::spec_receives(*old(self), *final(self), (Opcode::I64x2Ne, ImmediatesView::NoArgs), r),
    {
        self.unrecognized(&Instr { opcode: Opcode::I64x2Ne, args: Immediates::NoArgs })
    }

    /// Receives a `i64x2.lt_s` instruction.
    fn i64x2_lt_s(&mut self) -> (r: Result<(), ParseInstrError<E>>)
        ensures
            Self::spec_receives(*old(self), *final(self), (Opcode::I64x2LtS, ImmediatesView::NoArgs), r),
    {
        self.unrecognized(&Instr { opcode: Opcode::I64x2LtS, args: Immediates::NoArgs })
    }

    /// Receives a `i64x2.gt_s` instruction.
    fn i64x2_gt_s(&mut self) -> (r: Result<(), ParseInstrError<E>>)
        ensures
            Self::spec_receives(*old(self), *final(self), (Opcode::I64x2GtS, ImmediatesView::NoArgs), r),
    {
        self.unrecognized(&Instr { opcode: Opcode::I64x2GtS, args: Immediates::NoArgs })
    }

    /// Receives a `i64x2.le_s` instruction.
    fn i64x2_le_s(&mut self) -> (r: Result<(), ParseInstrError<E>>)
        ensures
            Self::spec_receives(*old(self), *final(self), (Opcode::I64x2LeS, ImmediatesView::NoArgs), r),
    {
        self.unrecognized(&Instr { opcode: Opcode::I64x2LeS, args: Immediates::NoArgs })
    }

    /// Receives a `i64x2.ge_s` instruction.
    fn i64x2_ge_s(&mut self) -> (r: Result<(), ParseInstrError<E>>)
        ensures
            Self::spec_receives(*old(self), *final(self), (Opcode::I64x2GeS, ImmediatesView::NoArgs), r),
    {
        self.unrecognized(&Instr { opcode: Opcode::I64x2GeS, args: Immediates::NoArgs })
    }

    /// Receives a `i64x2.extmul_low_i32x4_s` instruction.
    fn i64x2_extmul_low_i32x4_s(&mut self) -> (r: Result<(), ParseInstrError<E>>)
        ensures
            Self::spec_receives(*old(self), *final(self), (Opcode::I64x2ExtmulLowI32x4S, ImmediatesView::NoArgs), r),
    {
        self.unrecognized(&Instr { opcode: Opcode::I64x2ExtmulLowI32x4S, args: Immediates::NoArgs })
    }

    /// Receives a `i64x2.extmul_high_i32x4_s` instruction.
    fn i64x2_extmul_high_i32x4_s(&mut self) -> (r: Result<(), ParseInstrError<E>>)
        ensures
            Self::spec_receives(*old(self), *final(self), (Opcode::I64x2ExtmulHighI32x4S, ImmediatesView::NoArgs), r),
    {
        self.unrecognized(&Instr { opcode: Opcode::I64x2ExtmulHighI32x4S, args: Immediates::NoArgs })
    }

    /// Receives a `i64x2.extmul_low_i32x4_u` instruction.
    fn i64x2_extmul_low_i32x4_u(&mut self) -> (r: Result<(), ParseInstrError<E>>)
        ensures
            Self::spec_receives(*old(self), *final(self), (Opcode::I64x2ExtmulLowI32x4U, ImmediatesView::NoArgs), r),
    {
        self.unrecognized(&Instr { opcode: Opcode::I64x2ExtmulLowI32x4U, args: Immediates::NoArgs })
    }

    /// Receives a `i64x2.extmul_high_i32x4_u` instruction.
    fn i64x2_extmul_high_i32x4_u(&mut self) -> (r: Result<(), ParseInstrError<E>>)
        ensures
            Self::spec_receives(*old(self), *final(self), (Opcode::I64x2ExtmulHighI32x4U, ImmediatesView::NoArgs), r),
    {
        self.unrecognized(&Instr { opcode: Opcode::I64x2ExtmulHighI32x4U, args: Immediates::NoArgs })
    }

    /// Receives a `f32x4.abs` instruction.
    fn f32x4_abs(&mut self) -> (r: Result<(), ParseInstrError<E>>)
        ensures
            Self::spec_receives(*old(self), *final(self), (Opcode::F32x4Abs, ImmediatesView::NoArgs), r),
    {
        self.unrecognized(&Instr { opcode: Opcode::F32x4Abs, args: Immediates::NoArgs })
    }

    /// Receives a `f32x4.neg` instruction.
    fn f32x4_neg(&mut self) -> (r: Result<(), ParseInstrError<E>>)
        ensures
            Self::spec_receives(*old(self), *final(self), (Opcode::F32x4Neg, ImmediatesView::NoArgs), r),
    {
        self.unrecognized(&Instr { opcode: Opcode::F32x4Neg, args: Immediates::NoArgs })
    }

    /// Receives a `f32x4.sqrt` instruction.
    fn f32x4_sqrt(&mut self) -> (r: Result<(), ParseInstrError<E>>)
        ensures
            Self::spec_receives(*old(self), *final(self), (Opcode::F32x4Sqrt, ImmediatesView::NoArgs), r),
    {
        self.unrecognized(&Instr { opcode: Opcode::F32x4Sqrt, args: Immediates::NoArgs })
    }

    /// Receives a `f32x4.add` instruction.
    fn f32x4_add(&mut self) -> (r: Result<(), ParseInstrError<E>>)
        ensures
            Self::spec_receives(*old(self), *final(self), (Opcode::F32x4Add, ImmediatesView::NoArgs), r),
    {
        self.unrecognized(&Instr { opcode: Opcode::F32x4Add, args: Immediates::NoArgs })
    }

    /// Receives a `f32x4.sub` instruction.
    fn f32x4_sub(&mut self) -> (r: Result<(), ParseInstrError<E>>)
        ensures
            Self::spec_receives(*old(self), *final(self), (Opcode::F32x4Sub, ImmediatesView::NoArgs), r),
    {
        self.unrecognized(&Instr { opcode: Opcode::F32x4Sub, args: Immediates::NoArgs })
    }

    /// Receives a `f32x4.mul` instruction.
    fn f32x4_mul(&mut self) -> (r: Result<(), ParseInstrError<E>>)
        ensures
            Self::spec_receives(*old(self), *final(self), (Opcode::F32x4Mul, ImmediatesView::NoArgs), r),
    {
        self.unrecognized(&Instr { opcode: Opcode::F32x4Mul, args: Immediates::NoArgs })
    }

    /// Receives a `f32x4.div` instruction.
    fn f32x4_div(&mut self) -> (r: Result<(), ParseInstrError<E>>)
        ensures
            Self::spec_receives(*old(self), *final(self), (Opcode::F32x4Div, ImmediatesView::NoArgs), r),
    {
        self.unrecognized(&Instr { opcode: Opcode::F32x4Div, args: Immediates::NoArgs })
    }

    /// Receives a `f32x4.min` instruction.
    fn f32x4_min(&mut self) -> (r: Result<(), ParseInstrError<E>>)
        ensures
            Self::spec_receives(*old(self), *final(self), (Opcode::F32x4Min, ImmediatesView::NoArgs), r),
    {
        self.unrecognized(&Instr { opcode: Opcode::F32x4Min, args: Immediates::NoArgs })
    }

    /// Receives a `f32x4.max` instruction.
    fn f32x4_max(&mut self) -> (r: Result<(), ParseInstrError<E>>)
        ensures
            Self::spec_receives(*old(self), *final(self), (Opcode::F32x4Max, ImmediatesView::NoArgs), r),
    {
        self.unrecognized(&Instr { opcode: Opcode::F32x4Max, args: Immediates::NoArgs })
    }

    /// Receives a `f32x4.pmin` instruction.
    fn f32x4_pmin(&mut self) -> (r: Result<(), ParseInstrError<E>>)
        ensures
            Self::spec_receives(*old(self), *final(self), (Opcode::F32x4Pmin, ImmediatesView::NoArgs), r),
    {
        self.unrecognized(&Instr { opcode: Opcode::F32x4Pmin, args: Immediates::NoArgs })
    }

    /// Receives a `f32x4.pmax` instruction.
    fn f32x4_pmax(&mut self) -> (r: Result<(), ParseInstrError<E>>)
        ensures
            Self::spec_receives(*old(self), *final(self), (Opcode::F32x4Pmax, ImmediatesView::NoArgs), r),
    {
        self.unrecognized(&Instr { opcode: Opcode::F32x4Pmax, args: Immediates::NoArgs })
    }

    /// Receives a `f64x2.abs` instruction.
    fn f64x2_abs(&mut self) -> (r: Result<(), ParseInstrError<E>>)
        ensures
            Self::spec_receives(*old(self), *final(self), (Opcode::F64x2Abs, ImmediatesView::NoArgs), r),
    {
        self.unrecognized(&Instr { opcode: Opcode::F64x2Abs, args: Immediates::NoArgs })
    }

    /// Receives a `f64x2.neg` instruction.
    fn f64x2_neg(&mut self) -> (r: Result<(), ParseInstrError<E>>)
        ensures
            Self::spec_receives(*old(self), *final(self), (Opcode::F64x2Neg, ImmediatesView::NoArgs), r),
    {
        self.unrecognized(&Instr { opcode: Opcode::F64x2Neg, args: Immediates::NoArgs })
    }

    /// Receives a `f64x2.sqrt` instruction.
    fn f64x2_sqrt(&mut self) -> (r: Result<(), ParseInstrError<E>>)
        ensures
            Self::spec_receives(*old(self), *final(self), (Opcode::F64x2Sqrt, ImmediatesView::NoArgs), r),
    {
        self.unrecognized(&Instr { opcode: Opcode::F64x2Sqrt, args: Immediates::NoArgs })
    }

    /// Receives a `f64x2.add` instruction.
    fn f64x2_add(&mut self) -> (r: Result<(), ParseInstrError<E>>)
        ensures
            Self::spec_receives(*old(self), *final(self), (Opcode::F64x2Add, ImmediatesView::NoArgs), r),
    {
        self.unrecognized(&Instr { opcode: Opcode::F64x2Add, args: Immediates::NoArgs })
    }

    /// Receives a `f64x2.sub` instruction.
    fn f64x2_sub(&mut self) -> (r: Result<(), ParseInstrError<E>>)
        ensures
            Self::spec_receives(*old(self), *final(self), (Opcode::F64x2Sub, ImmediatesView::NoArgs), r),
    {
        self.unrecognized(&Instr { opcode: Opcode::F64x2Sub, args: Immediates::NoArgs })
    }

    /// Receives a `f64x2.mul` instruction.
    fn f64x2_mul(&mut self) -> (r: Result<(), ParseInstrError<E>>)
        ensures
            Self::spec_receives(*old(self), *final(self), (Opcode::F64x2Mul, ImmediatesView::NoArgs), r),
    {
        self.unrecognized(&Instr { opcode: Opcode::F64x2Mul, args: Immediates::NoArgs })
    }

    /// Receives a `f64x2.div` instruction.
    fn f64x2_div(&mut self) -> (r: Result<(), ParseInstrError<E>>)
        ensures
            Self::spec_receives(*old(self), *final(self), (Opcode::F64x2Div, ImmediatesView::NoArgs), r),
    {
        self.unrecognized(&Instr { opcode: Opcode::F64x2Div, args: Immediates::NoArgs })
    }

    /// Receives a `f64x2.min` instruction.
    fn f64x2_min(&mut self) -> (r: Result<(), ParseInstrError<E>>)
        ensures
            Self::spec_receives(*old(self), *final(self), (Opcode::F64x2Min, ImmediatesView::NoArgs), r),
    {
        self.unrecognized(&Instr { opcode: Opcode::F64x2Min, args: Immediates::NoArgs })
    }

    /// Receives a `f64x2.max` instruction.
    fn f64x2_max(&mut self) -> (r: Result<(), ParseInstrError<E>>)
        ensures
            Self::spec_receives(*old(self), *final(self), (Opcode::F64x2Max, ImmediatesView::NoArgs), r),
    {
        self.unrecognized(&Instr { opcode: Opcode::F64x2Max, args: Immediates::NoArgs })
    }

    /// Receives a `f64x2.pmin` instruction.
    fn f64x2_pmin(&mut self) -> (r: Result<(), ParseInstrError<E>>)
        ensures
            Self::spec_receives(*old(self), *final(self), (Opcode::F64x2Pmin, ImmediatesView::NoArgs), r),
    {
        self.unrecognized(&Instr { opcode: Opcode::F64x2Pmin, args: Immediates::NoArgs })
    }

    /// Receives a `f64x2.pmax` instruction.
    fn f64x2_pmax(&mut self) -> (r: Result<(), ParseInstrError<E>>)
        ensures
            Self::spec_receives(*old(self), *final(self), (Opcode::F64x2Pmax, ImmediatesView::NoArgs), r),
    {
        self.unrecognized(&Instr { opcode: Opcode::F64x2Pmax, args: Immediates::NoArgs })
    }

    /// Receives a `i32x4.trunc_sat_f32x4_s` instruction.
    fn i32x4_trunc_sat_f32x4_s(&mut self) -> (r: Result<(), ParseInstrError<E>>)
        ensures
            Self::spec_receives(*old(self), *final(self), (Opcode::I32x4TruncSatF32x4S, ImmediatesView::NoArgs), r),
    {
        self.unrecognized(&Instr { opcode: Opcode::I32x4TruncSatF32x4S, args: Immediates::NoArgs })
    }

    /// Receives a `i32x4.trunc_sat_f32x4_u` instruction.
    fn i32x4_trunc_sat_f32x4_u(&mut self) -> (r: Result<(), ParseInstrError<E>>)
        ensures
            Self::spec_receives(*old(self), *final(self), (Opcode::I32x4TruncSatF32x4U, ImmediatesView::NoArgs), r),
    {
        self.unrecognized(&Instr { opcode: Opcode::I32x4TruncSatF32x4U, args: Immediates::NoArgs })
    }

    /// Receives a `f32x4.convert_i32x4_s` instruction.
    fn f32x4_convert_i32x4_s(&mut self) -> (r: Result<(), ParseInstrError<E>>)
        ensures
            Self::spec_receives(*old(self), *final(self), (Opcode::F32x4ConvertI32x4S, ImmediatesView::NoArgs), r),
    {
        self.unrecognized(&Instr { opcode: Opcode::F32x4ConvertI32x4S, args: Immediates::NoArgs })
    }

    /// Receives a `f32x4.convert_i32x4_u` instruction.
    fn f32x4_convert_i32x4_u(&mut self) -> (r: Result<(), ParseInstrError<E>>)
        ensures
            Self::spec_receives(*old(self), *final(self), (Opcode::F32x4ConvertI32x4U, ImmediatesView::NoArgs), r),
    {
        self.unrecognized(&Instr { opcode: Opcode::F32x4ConvertI32x4U, args: Immediates::NoArgs })
    }

    /// Receives a `i32x4.trunc_sat_f64x2_s_zero` instruction.
    fn i32x4_trunc_sat_f64x2_s_zero(&mut self) -> (r: Result<(), ParseInstrError<E>>)
        ensures
            Self::spec_receives(*old(self), *final(self), (Opcode::I32x4TruncSatF64x2SZero, ImmediatesView::NoArgs), r),
    {
        self.unrecognized(&Instr { opcode: Opcode::I32x4TruncSatF64x2SZero, args: Immediates::NoArgs })
    }

    /// Receives a `i32x4.trunc_sat_f64x2_u_zero` instruction.
    fn i32x4_trunc_sat_f64x2_u_zero(&mut self) -> (r: Result<(), ParseInstrError<E>>)
        ensures
            Self::spec_receives(*old(self), *final(self), (Opcode::I32x4TruncSatF64x2UZero, ImmediatesView::NoArgs), r),
    {
        self.unrecognized(&Instr { opcode: Opcode::I32x4TruncSatF64x2UZero, args: Immediates::NoArgs })
    }

    /// Receives a `f64x2.convert_low_i32x4_s` instruction.
    fn f64x2_convert_low_i32x4_s(&mut self) -> (r: Result<(), ParseInstrError<E>>)
        ensures
            Self::spec_receives(*old(self), *final(self), (Opcode::F64x2ConvertLowI32x4S, ImmediatesView::NoArgs), r),
    {
        self.unrecognized(&Instr { opcode: Opcode::F64x2ConvertLowI32x4S, args: Immediates::NoArgs })
    }

    /// Receives a `f64x2.convert_low_i32x4_u` instruction.
    fn f64x2_convert_low_i32x4_u(&mut self) -> (r: Result<(), ParseInstrError<E>>)
        ensures
            Self::spec_receives(*old(self), *final(self), (Opcode::F64x2ConvertLowI32x4U, ImmediatesView::NoArgs), r),
    {
        self.unrecognized(&Instr { opcode: Opcode::F64x2ConvertLowI32x4U, args: Immediates::NoArgs })
    }

    /// Receives a `return_call` instruction.
    fn return_call(&mut self, callee: FuncIdx) -> (r: Result<(), ParseInstrError<E>>)
        ensures
            Self::spec_receives(*old(self), *final(self), (Opcode::ReturnCall, ImmediatesView::Func(callee)), r),
    {
        self.unrecognized(&Instr { opcode: Opcode::ReturnCall, args: Immediates::Func(callee) })
    }

    /// Receives a `return_call_indirect` instruction.
    fn return_call_indirect(&mut self, signature: TypeIdx, table: TableIdx) -> (r: Result<(), ParseInstrError<E>>)
        ensures
            Self::spec_receives(*old(self), *final(self), (Opcode::ReturnCallIndirect, ImmediatesView::CallIndirect { signature: signature, table: table }), r),
    {
        self.unrecognized(&Instr { opcode: Opcode::ReturnCallIndirect, args: Immediates::CallIndirect { signature: signature, table: table } })
    }

    /// Receives a `memory.atomic.notify` instruction.
    fn memory_atomic_notify(&mut self, arg: MemArg) -> (r: Result<(), ParseInstrError<E>>)
        ensures
            Self::spec_receives(*old(self), *final(self), (Opcode::MemoryAtomicNotify, ImmediatesView::Mem(arg)), r),
    {
        self.unrecognized(&Instr { opcode: Opcode::MemoryAtomicNotify, args: Immediates::Mem(arg) })
    }

    /// Receives a `memory.atomic.wait32` instruction.
    fn memory_atomic_wait32(&mut self, arg: MemArg) -> (r: Result<(), ParseInstrError<E>>)
        ensures
            Self::spec_receives(*old(self), *final(self), (Opcode::MemoryAtomicWait32, ImmediatesView::Mem(arg)), r),
    {
        self.unrecognized(&Instr { opcode: Opcode::MemoryAtomicWait32, args: Immediates::Mem(arg) })
    }

    /// Receives a `memory.atomic.wait64` instruction.
    fn memory_atomic_wait64(&mut self, arg: MemArg) -> (r: Result<(), ParseInstrError<E>>)
        ensures
            Self::spec_receives(*old(self), *final(self), (Opcode::MemoryAtomicWait64, ImmediatesView::Mem(arg)), r),
    {
        self.unrecognized(&Instr { opcode: Opcode::MemoryAtomicWait64, args: Immediates::Mem(arg) })
    }

    /// Receives a `i32.atomic.load` instruction.
    fn i32_atomic_load(&mut self, arg: MemArg) -> (r: Result<(), ParseInstrError<E>>)
        ensures
            Self::spec_receives(*old(self), *final(self), (Opcode::I32AtomicLoad, ImmediatesView::Mem(arg)), r),
    {
        self.unrecognized(&Instr { opcode: Opcode::I32AtomicLoad, args: Immediates::Mem(arg) })
    }

    /// Receives a `i64.atomic.load` instruction.
    fn i64_atomic_load(&mut self, arg: MemArg) -> (r: Result<(), ParseInstrError<E>>)
        ensures
            Self::spec_receives(*old(self), *final(self), (Opcode::I64AtomicLoad, ImmediatesView::Mem(arg)), r),
    {
        self.unrecognized(&Instr { opcode: Opcode::I64AtomicLoad, args: Immediates::Mem(arg) })
    }

    /// Receives a `i32.atomic.load8_u` instruction.
    fn i32_atomic_load8_u(&mut self, arg: MemArg) -> (r: Result<(), ParseInstrError<E>>)
        ensures
            Self::spec_receives(*old(self), *final(self), (Opcode::I32AtomicLoad8U, ImmediatesView::Mem(arg)), r),
    {
        self.unrecognized(&Instr { opcode: Opcode::I32AtomicLoad8U, args: Immediates::Mem(arg) })
    }

    /// Receives a `i32.atomic.load16_u` instruction.
    fn i32_atomic_load16_u(&mut self, arg: MemArg) -> (r: Result<(), ParseInstrError<E>>)
        ensures
            Self::spec_receives(*old(self), *final(self), (Opcode::I32AtomicLoad16U, ImmediatesView::Mem(arg)), r),
    {
        self.unrecognized(&Instr { opcode: Opcode::I32AtomicLoad16U, args: Immediates::Mem(arg) })
    }

    /// Receives a `i64.atomic.load8_u` instruction.
    fn i64_atomic_load8_u(&mut self, arg: MemArg) -> (r: Result<(), ParseInstrError<E>>)
        ensures
            Self::spec_receives(*old(self), *final(self), (Opcode::I64AtomicLoad8U, ImmediatesView::Mem(arg)), r),
    {
        self.unrecognized(&Instr { opcode: Opcode::I64AtomicLoad8U, args: Immediates::Mem(arg) })
    }

    /// Receives a `i64.atomic.load16_u` instruction.
    fn i64_atomic_load16_u(&mut self, arg: MemArg) -> (r: Result<(), ParseInstrError<E>>)
        ensures
            Self::spec_receives(*old(self), *final(self), (Opcode::I64AtomicLoad16U, ImmediatesView::Mem(arg)), r),
    {
        self.unrecognized(&Instr { opcode: Opcode::I64AtomicLoad16U, args: Immediates::Mem(arg) })
    }

    /// Receives a `i64.atomic.load32_u` instruction.
    fn i64_atomic_load32_u(&mut self, arg: MemArg) -> (r: Result<(), ParseInstrError<E>>)
        ensures
            Self::spec_receives(*old(self), *final(self), (Opcode::I64AtomicLoad32U, ImmediatesView::Mem(arg)), r),
    {
        self.unrecognized(&Instr { opcode: Opcode::I64AtomicLoad32U, args: Immediates::Mem(arg) })
    }

    /// Receives a `i32.atomic.store` instruction.
    fn i32_atomic_store(&mut self, arg: MemArg) -> (r: Result<(), ParseInstrError<E>>)
        ensures
            Self::spec_receives(*old(self), *final(self), (Opcode::I32AtomicStore, ImmediatesView::Mem(arg)), r),
    {
        self.unrecognized(&Instr { opcode: Opcode::I32AtomicStore, args: Immediates::Mem(arg) })
    }

    /// Receives a `i64.atomic.store` instruction.
    fn i64_atomic_store(&mut self, arg: MemArg) -> (r: Result<(), ParseInstrError<E>>)
        ensures
            Self::spec_receives(*old(self), *final(self), (Opcode::I64AtomicStore, ImmediatesView::Mem(arg)), r),
    {
        self.unrecognized(&Instr { opcode: Opcode::I64AtomicStore, args: Immediates::Mem(arg) })
    }

    /// Receives a `i32.atomic.store8_u` instruction.
    fn i32_atomic_store8_u(&mut self, arg: MemArg) -> (r: Result<(), ParseInstrError<E>>)
        ensures
            Self::spec_receives(*old(self), *final(self), (Opcode::I32AtomicStore8U, ImmediatesView::Mem(arg)), r),
    {
        self.unrecognized(&Instr { opcode: Opcode::I32AtomicStore8U, args: Immediates::Mem(arg) })
    }

    /// Receives a `i32.atomic.store16_u` instruction.
    fn i32_atomic_store16_u(&mut self, arg: MemArg) -> (r: Result<(), ParseInstrError<E>>)
        ensures
            Self::spec_receives(*old(self), *final(self), (Opcode::I32AtomicStore16U, ImmediatesView::Mem(arg)), r),
    {
        self.unrecognized(&Instr { opcode: Opcode::I32AtomicStore16U, args: Immediates::Mem(arg) })
    }

    /// Receives a `i64.atomic.store8_u` instruction.
    fn i64_atomic_store8_u(&mut self, arg: MemArg) -> (r: Result<(), ParseInstrError<E>>)
        ensures
            Self::spec_receives(*old(self), *final(self), (Opcode::I64AtomicStore8U, ImmediatesView::Mem(arg)), r),
    {
        self.unrecognized(&Instr { opcode: Opcode::I64AtomicStore8U, args: Immediates::Mem(arg) })
    }

    /// Receives a `i64.atomic.store16_u` instruction.
    fn i64_atomic_store16_u(&mut self, arg: MemArg) -> (r: Result<(), ParseInstrError<E>>)
        ensures
            Self::spec_receives(*old(self), *final(self), (Opcode::I64AtomicStore16U, ImmediatesView::Mem(arg)), r),
    {
        self.unrecognized(&Instr { opcode: Opcode::I64AtomicStore16U, args: Immediates::Mem(arg) })
    }

    /// Receives a `i64.atomic.store32_u` instruction.
    fn i64_atomic_store32_u(&mut self, arg: MemArg) -> (r: Result<(), ParseInstrError<E>>)
        ensures
            Self::spec_receives(*old(self), *final(self), (Opcode::I64AtomicStore32U, ImmediatesView::Mem(arg)), r),
    {
        self.unrecognized(&Instr { opcode: Opcode::I64AtomicStore32U, args: Immediates::Mem(arg) })
    }

    /// Receives a `i32.atomic.rmw.add` instruction.
    fn i32_atomic_rmw_add(&mut self, arg: MemArg) -> (r: Result<(), ParseInstrError<E>>)
        ensures
            Self::spec_receives(*old(self), *final(self), (Opcode::I32AtomicRmwAdd, ImmediatesView::Mem(arg)), r),
    {
        self.unrecognized(&Instr { opcode: Opcode::I32AtomicRmwAdd, args: Immediates::Mem(arg) })
    }

    /// Receives a `i64.atomic.rmw.add` instruction.
    fn i64_atomic_rmw_add(&mut self, arg: MemArg) -> (r: Result<(), ParseInstrError<E>>)
        ensures
            Self::spec_receives(*old(self), *final(self), (Opcode::I64AtomicRmwAdd, ImmediatesView::Mem(arg)), r),
    {
        self.unrecognized(&Instr { opcode: Opcode::I64AtomicRmwAdd, args: Immediates::Mem(arg) })
    }

    /// Receives a `i32.atomic.rmw8.add_u` instruction.
    fn i32_atomic_rmw8_add_u(&mut self, arg: MemArg) -> (r: Result<(), ParseInstrError<E>>)
        ensures
            Self::spec_receives(*old(self), *final(self), (Opcode::I32AtomicRmw8AddU, ImmediatesView::Mem(arg)), r),
    {
        self.unrecognized(&Instr { opcode: Opcode::I32AtomicRmw8AddU, args: Immediates::Mem(arg) })
    }

    /// Receives a `i32.atomic.rmw16.add_u` instruction.
    fn i32_atomic_rmw16_add_u(&mut self, arg: MemArg) -> (r: Result<(), ParseInstrError<E>>)
        ensures
            Self::spec_receives(*old(self), *final(self), (Opcode::I32AtomicRmw16AddU, ImmediatesView::Mem(arg)), r),
    {
        self.unrecognized(&Instr { opcode: Opcode::I32AtomicRmw16AddU, args: Immediates::Mem(arg) })
    }

    /// Receives a `i64.atomic.rmw8.add_u` instruction.
    fn i64_atomic_rmw8_add_u(&mut self, arg: MemArg) -> (r: Result<(), ParseInstrError<E>>)
        ensures
            Self::spec_receives(*old(self), *final(self), (Opcode::I64AtomicRmw8AddU, ImmediatesView::Mem(arg)), r),
    {
        self.unrecognized(&Instr { opcode: Opcode::I64AtomicRmw8AddU, args: Immediates::Mem(arg) })
    }

    /// Receives a `i64.atomic.rmw16.add_u` instruction.
    fn i64_atomic_rmw16_add_u(&mut self, arg: MemArg) -> (r: Result<(), ParseInstrError<E>>)
        ensures
            Self::spec_receives(*old(self), *final(self), (Opcode::I64AtomicRmw16AddU, ImmediatesView::Mem(arg)), r),
    {
        self.unrecognized(&Instr { opcode: Opcode::I64AtomicRmw16AddU, args: Immediates::Mem(arg) })
    }

    /// Receives a `i64.atomic.rmw32.add_u` instruction.
    fn i64_atomic_rmw32_add_u(&mut self, arg: MemArg) -> (r: Result<(), ParseInstrError<E>>)
        ensures
            Self::spec_receives(*old(self), *final(self), (Opcode::I64AtomicRmw32AddU, ImmediatesView::Mem(arg)), r),
    {
        self.unrecognized(&Instr { opcode: Opcode::I64AtomicRmw32AddU, args: Immediates::Mem(arg) })
    }

    /// Receives a `i32.atomic.rmw.sub` instruction.
    fn i32_atomic_rmw_sub(&mut self, arg: MemArg) -> (r: Result<(), ParseInstrError<E>>)
        ensures
            Self::spec_receives(*old(self), *final(self), (Opcode::I32AtomicRmwSub, ImmediatesView::Mem(arg)), r),
    {
        self.unrecognized(&Instr { opcode: Opcode::I32AtomicRmwSub, args: Immediates::Mem(arg) })
    }

    /// Receives a `i64.atomic.rmw.sub` instruction.
    fn i64_atomic_rmw_sub(&mut self, arg: MemArg) -> (r: Result<(), ParseInstrError<E>>)
        ensures
            Self::spec_receives(*old(self), *final(self), (Opcode::I64AtomicRmwSub, ImmediatesView::Mem(arg)), r),
    {
        self.unrecognized(&Instr { opcode: Opcode::I64AtomicRmwSub, args: Immediates::Mem(arg) })
    }

    /// Receives a `i32.atomic.rmw8.sub_u` instruction.
    fn i32_atomic_rmw8_sub_u(&mut self, arg: MemArg) -> (r: Result<(), ParseInstrError<E>>)
        ensures
            Self::spec_receives(*old(self), *final(self), (Opcode::I32AtomicRmw8SubU, ImmediatesView::Mem(arg)), r),
    {
        self.unrecognized(&Instr { opcode: Opcode::I32AtomicRmw8SubU, args: Immediates::Mem(arg) })
    }

    /// Receives a `i32.atomic.rmw16.sub_u` instruction.
    fn i32_atomic_rmw16_sub_u(&mut self, arg: MemArg) -> (r: Result<(), ParseInstrError<E>>)
        ensures
            Self::spec_receives(*old(self), *final(self), (Opcode::I32AtomicRmw16SubU, ImmediatesView::Mem(arg)), r),
    {
        self.unrecognized(&Instr { opcode: Opcode::I32AtomicRmw16SubU, args: Immediates::Mem(arg) })
    }

    /// Receives a `i64.atomic.rmw8.sub_u` instruction.
    fn i64_atomic_rmw8_sub_u(&mut self, arg: MemArg) -> (r: Result<(), ParseInstrError<E>>)
        ensures
            Self::spec_receives(*old(self), *final(self), (Opcode::I64AtomicRmw8SubU, ImmediatesView::Mem(arg)), r),
    {
        self.unrecognized(&Instr { opcode: Opcode::I64AtomicRmw8SubU, args: Immediates::Mem(arg) })
    }

    /// Receives a `i64.atomic.rmw16.sub_u` instruction.
    fn i64_atomic_rmw16_sub_u(&mut self, arg: MemArg) -> (r: Result<(), ParseInstrError<E>>)
        ensures
            Self::spec_receives(*old(self), *final(self), (Opcode::I64AtomicRmw16SubU, ImmediatesView::Mem(arg)), r),
    {
        self.unrecognized(&Instr { opcode: Opcode::I64AtomicRmw16SubU, args: Immediates::Mem(arg) })
    }

    /// Receives a `i64.atomic.rmw32.sub_u` instruction.
    fn i64_atomic_rmw32_sub_u(&mut self, arg: MemArg) -> (r: Result<(), ParseInstrError<E>>)
        ensures
            Self::spec_receives(*old(self), *final(self), (Opcode::I64AtomicRmw32SubU, ImmediatesView::Mem(arg)), r),
    {
        self.unrecognized(&Instr { opcode: Opcode::I64AtomicRmw32SubU, args: Immediates::Mem(arg) })
    }

    /// Receives a `i32.atomic.rmw.and` instruction.
    fn i32_atomic_rmw_and(&mut self, arg: MemArg) -> (r: Result<(), ParseInstrError<E>>)
        ensures
            Self::spec_receives(*old(self), *final(self), (Opcode::I32AtomicRmwAnd, ImmediatesView::Mem(arg)), r),
    {
        self.unrecognized(&Instr { opcode: Opcode::I32AtomicRmwAnd, args: Immediates::Mem(arg) })
    }

    /// Receives a `i64.atomic.rmw.and` instruction.
    fn i64_atomic_rmw_and(&mut self, arg: MemArg) -> (r: Result<(), ParseInstrError<E>>)
        ensures
            Self::spec_receives(*old(self), *final(self), (Opcode::I64AtomicRmwAnd, ImmediatesView::Mem(arg)), r),
    {
        self.unrecognized(&Instr { opcode: Opcode::I64AtomicRmwAnd, args: Immediates::Mem(arg) })
    }

    /// Receives a `i32.atomic.rmw8.and_u` instruction.
    fn i32_atomic_rmw8_and_u(&mut self, arg: MemArg) -> (r: Result<(), ParseInstrError<E>>)
        ensures
            Self::spec_receives(*old(self), *final(self), (Opcode::I32AtomicRmw8AndU, ImmediatesView::Mem(arg)), r),
    {
        self.unrecognized(&Instr { opcode: Opcode::I32AtomicRmw8AndU, args: Immediates::Mem(arg) })
    }

    /// Receives a `i32.atomic.rmw16.and_u` instruction.
    fn i32_atomic_rmw16_and_u(&mut self, arg: MemArg) -> (r: Result<(), ParseInstrError<E>>)
        ensures
            Self::spec_receives(*old(self), *final(self), (Opcode::I32AtomicRmw16AndU, ImmediatesView::Mem(arg)), r),
    {
        self.unrecognized(&Instr { opcode: Opcode::I32AtomicRmw16AndU, args: Immediates::Mem(arg) })
    }

    /// Receives a `i64.atomic.rmw8.and_u` instruction.
    fn i64_atomic_rmw8_and_u(&mut self, arg: MemArg) -> (r: Result<(), ParseInstrError<E>>)
        ensures
            Self::spec_receives(*old(self), *final(self), (Opcode::I64AtomicRmw8AndU, ImmediatesView::Mem(arg)), r),
    {
        self.unrecognized(&Instr { opcode: Opcode::I64AtomicRmw8AndU, args: Immediates::Mem(arg) })
    }

    /// Receives a `i64.atomic.rmw16.and_u` instruction.
    fn i64_atomic_rmw16_and_u(&mut self, arg: MemArg) -> (r: Result<(), ParseInstrError<E>>)
        ensures
            Self::spec_receives(*old(self), *final(self), (Opcode::I64AtomicRmw16AndU, ImmediatesView::Mem(arg)), r),
    {
        self.unrecognized(&Instr { opcode: Opcode::I64AtomicRmw16AndU, args: Immediates::Mem(arg) })
    }

    /// Receives a `i64.atomic.rmw32.and_u` instruction.
    fn i64_atomic_rmw32_and_u(&mut self, arg: MemArg) -> (r: Result<(), ParseInstrError<E>>)
        ensures
            Self::spec_receives(*old(self), *final(self), (Opcode::I64AtomicRmw32AndU, ImmediatesView::Mem(arg)), r),
    {
        self.unrecognized(&Instr { opcode: Opcode::I64AtomicRmw32AndU, args: Immediates::Mem(arg) })
    }

    /// Receives a `i32.atomic.rmw.or` instruction.
    fn i32_atomic_rmw_or(&mut self, arg: MemArg) -> (r: Result<(), ParseInstrError<E>>)
        ensures
            Self::spec_receives(*old(self), *final(self), (Opcode::I32AtomicRmwOr, ImmediatesView::Mem(arg)), r),
    {
        self.unrecognized(&Instr { opcode: Opcode::I32AtomicRmwOr, args: Immediates::Mem(arg) })
    }

    /// Receives a `i64.atomic.rmw.or` instruction.
    fn i64_atomic_rmw_or(&mut self, arg: MemArg) -> (r: Result<(), ParseInstrError<E>>)
        ensures
            Self::spec_receives(*old(self), *final(self), (Opcode::I64AtomicRmwOr, ImmediatesView::Mem(arg)), r),
    {
        self.unrecognized(&Instr { opcode: Opcode::I64AtomicRmwOr, args: Immediates::Mem(arg) })
    }

    /// Receives a `i32.atomic.rmw8.or_u` instruction.
    fn i32_atomic_rmw8_or_u(&mut self, arg: MemArg) -> (r: Result<(), ParseInstrError<E>>)
        ensures
            Self::spec_receives(*old(self), *final(self), (Opcode::I32AtomicRmw8OrU, ImmediatesView::Mem(arg)), r),
    {
        self.unrecognized(&Instr { opcode: Opcode::I32AtomicRmw8OrU, args: Immediates::Mem(arg) })
    }

    /// Receives a `i32.atomic.rmw16.or_u` instruction.
    fn i32_atomic_rmw16_or_u(&mut self, arg: MemArg) -> (r: Result<(), ParseInstrError<E>>)
        ensures
            Self::spec_receives(*old(self), *final(self), (Opcode::I32AtomicRmw16OrU, ImmediatesView::Mem(arg)), r),
    {
        self.unrecognized(&Instr { opcode: Opcode::I32AtomicRmw16OrU, args: Immediates::Mem(arg) })
    }

    /// Receives a `i64.atomic.rmw8.or_u` instruction.
    fn i64_atomic_rmw8_or_u(&mut self, arg: MemArg) -> (r: Result<(), ParseInstrError<E>>)
        ensures
            Self::spec_receives(*old(self), *final(self), (Opcode::I64AtomicRmw8OrU, ImmediatesView::Mem(arg)), r),
    {
        self.unrecognized(&Instr { opcode: Opcode::I64AtomicRmw8OrU, args: Immediates::Mem(arg) })
    }

    /// Receives a `i64.atomic.rmw16.or_u` instruction.
    fn i64_atomic_rmw16_or_u(&mut self, arg: MemArg) -> (r: Result<(), ParseInstrError<E>>)
        ensures
            Self::spec_receives(*old(self), *final(self), (Opcode::I64AtomicRmw16OrU, ImmediatesView::Mem(arg)), r),
    {
        self.unrecognized(&Instr { opcode: Opcode::I64AtomicRmw16OrU, args: Immediates::Mem(arg) })
    }

    /// Receives a `i64.atomic.rmw32.or_u` instruction.
    fn i64_atomic_rmw32_or_u(&mut self, arg: MemArg) -> (r: Result<(), ParseInstrError<E>>)
        ensures
            Self::spec_receives(*old(self), *final(self), (Opcode::I64AtomicRmw32OrU, ImmediatesView::Mem(arg)), r),
    {
        self.unrecognized(&Instr { opcode: Opcode::I64AtomicRmw32OrU, args: Immediates::Mem(arg) })
    }

    /// Receives a `i32.atomic.rmw.xor` instruction.
    fn i32_atomic_rmw_xor(&mut self, arg: MemArg) -> (r: Result<(), ParseInstrError<E>>)
        ensures
            Self::spec_receives(*old(self), *final(self), (Opcode::I32AtomicRmwXor, ImmediatesView::Mem(arg)), r),
    {
        self.unrecognized(&Instr { opcode: Opcode::I32AtomicRmwXor, args: Immediates::Mem(arg) })
    }

    /// Receives a `i64.atomic.rmw.xor` instruction.
    fn i64_atomic_rmw_xor(&mut self, arg: MemArg) -> (r: Result<(), ParseInstrError<E>>)
        ensures
            Self::spec_receives(*old(self), *final(self), (Opcode::I64AtomicRmwXor, ImmediatesView::Mem(arg)), r),
    {
        self.unrecognized(&Instr { opcode: Opcode::I64AtomicRmwXor, args: Immediates::Mem(arg) })
    }

    /// Receives a `i32.atomic.rmw8.xor_u` instruction.
    fn i32_atomic_rmw8_xor_u(&mut self, arg: MemArg) -> (r: Result<(), ParseInstrError<E>>)
        ensures
            Self::spec_receives(*old(self), *final(self), (Opcode::I32AtomicRmw8XorU, ImmediatesView::Mem(arg)), r),
    {
        self.unrecognized(&Instr { opcode: Opcode::I32AtomicRmw8XorU, args: Immediates::Mem(arg) })
    }

    /// Receives a `i32.atomic.rmw16.xor_u` instruction.
    fn i32_atomic_rmw16_xor_u(&mut self, arg: MemArg) -> (r: Result<(), ParseInstrError<E>>)
        ensures
            Self::spec_receives(*old(self), *final(self), (Opcode::I32AtomicRmw16XorU, ImmediatesView::Mem(arg)), r),
    {
        self.unrecognized(&Instr { opcode: Opcode::I32AtomicRmw16XorU, args: Immediates::Mem(arg) })
    }

    /// Receives a `i64.atomic.rmw8.xor_u` instruction.
    fn i64_atomic_rmw8_xor_u(&mut self, arg: MemArg) -> (r: Result<(), ParseInstrError<E>>)
        ensures
            Self::spec_receives(*old(self), *final(self), (Opcode::I64AtomicRmw8XorU, ImmediatesView::Mem(arg)), r),
    {
        self.unrecognized(&Instr { opcode: Opcode::I64AtomicRmw8XorU, args: Immediates::Mem(arg) })
    }

    /// Receives a `i64.atomic.rmw16.xor_u` instruction.
    fn i64_atomic_rmw16_xor_u(&mut self, arg: MemArg) -> (r: Result<(), ParseInstrError<E>>)
        ensures
            Self::spec_receives(*old(self), *final(self), (Opcode::I64AtomicRmw16XorU, ImmediatesView::Mem(arg)), r),
    {
        self.unrecognized(&Instr { opcode: Opcode::I64AtomicRmw16XorU, args: Immediates::Mem(arg) })
    }

    /// Receives a `i64.atomic.rmw32.xor_u` instruction.
    fn i64_atomic_rmw32_xor_u(&mut self, arg: MemArg) -> (r: Result<(), ParseInstrError<E>>)
        ensures
            Self::spec_receives(*old(self), *final(self), (Opcode::I64AtomicRmw32XorU, ImmediatesView::Mem(arg)), r),
    {
        self.unrecognized(&Instr { opcode: Opcode::I64AtomicRmw32XorU, args: Immediates::Mem(arg) })
    }

    /// Receives a `i32.atomic.rmw.xchg` instruction.
    fn i32_atomic_rmw_xchg(&mut self, arg: MemArg) -> (r: Result<(), ParseInstrError<E>>)
        ensures
            Self::spec_receives(*old(self), *final(self), (Opcode::I32AtomicRmwXchg, ImmediatesView::Mem(arg)), r),
    {
        self.unrecognized(&Instr { opcode: Opcode::I32AtomicRmwXchg, args: Immediates::Mem(arg) })
    }

    /// Receives a `i64.atomic.rmw.xchg` instruction.
    fn i64_atomic_rmw_xchg(&mut self, arg: MemArg) -> (r: Result<(), ParseInstrError<E>>)
        ensures
            Self::spec_receives(*old(self), *final(self), (Opcode::I64AtomicRmwXchg, ImmediatesView::Mem(arg)), r),
    {
        self.unrecognized(&Instr { opcode: Opcode::I64AtomicRmwXchg, args: Immediates::Mem(arg) })
    }

    /// Receives a `i32.atomic.rmw8.xchg_u` instruction.
    fn i32_atomic_rmw8_xchg_u(&mut self, arg: MemArg) -> (r: Result<(), ParseInstrError<E>>)
        ensures
            Self::spec_receives(*old(self), *final(self), (Opcode::I32AtomicRmw8XchgU, ImmediatesView::Mem(arg)), r),
    {
        self.unrecognized(&Instr { opcode: Opcode::I32AtomicRmw8XchgU, args: Immediates::Mem(arg) })
    }

    /// Receives a `i32.atomic.rmw16.xchg_u` instruction.
    fn i32_atomic_rmw16_xchg_u(&mut self, arg: MemArg) -> (r: Result<(), ParseInstrError<E>>)
        ensures
            Self::spec_receives(*old(self), *final(self), (Opcode::I32AtomicRmw16XchgU, ImmediatesView::Mem(arg)), r),
    {
        self.unrecognized(&Instr { opcode: Opcode::I32AtomicRmw16XchgU, args: Immediates::Mem(arg) })
    }

    /// Receives a `i64.atomic.rmw8.xchg_u` instruction.
    fn i64_atomic_rmw8_xchg_u(&mut self, arg: MemArg) -> (r: Result<(), ParseInstrError<E>>)
        ensures
            Self::spec_receives(*old(self), *final(self), (Opcode::I64AtomicRmw8XchgU, ImmediatesView::Mem(arg)), r),
    {
        self.unrecognized(&Instr { opcode: Opcode::I64AtomicRmw8XchgU, args: Immediates::Mem(arg) })
    }

    /// Receives a `i64.atomic.rmw16.xchg_u` instruction.
    fn i64_atomic_rmw16_xchg_u(&mut self, arg: MemArg) -> (r: Result<(), ParseInstrError<E>>)
        ensures
            Self::spec_receives(*old(self), *final(self), (Opcode::I64AtomicRmw16XchgU, ImmediatesView::Mem(arg)), r),
    {
        self.unrecognized(&Instr { opcode: Opcode::I64AtomicRmw16XchgU, args: Immediates::Mem(arg) })
    }

    /// Receives a `i64.atomic.rmw32.xchg_u` instruction.
    fn i64_atomic_rmw32_xchg_u(&mut self, arg: MemArg) -> (r: Result<(), ParseInstrError<E>>)
        ensures
            Self::spec_receives(*old(self), *final(self), (Opcode::I64AtomicRmw32XchgU, ImmediatesView::Mem(arg)), r),
    {
        self.unrecognized(&Instr { opcode: Opcode::I64AtomicRmw32XchgU, args: Immediates::Mem(arg) })
    }

    /// Receives a `i32.atomic.rmw.cmpxchg` instruction.
    fn i32_atomic_rmw_cmpxchg(&mut self, arg: MemArg) -> (r: Result<(), ParseInstrError<E>>)
        ensures
            Self::spec_receives(*old(self), *final(self), (Opcode::I32AtomicRmwCmpxchg, ImmediatesView::Mem(arg)), r),
    {
        self.unrecognized(&Instr { opcode: Opcode::I32AtomicRmwCmpxchg, args: Immediates::Mem(arg) })
    }

    /// Receives a `i64.atomic.rmw.cmpxchg` instruction.
    fn i64_atomic_rmw_cmpxchg(&mut self, arg: MemArg) -> (r: Result<(), ParseInstrError<E>>)
        ensures
            Self::spec_receives(*old(self), *final(self), (Opcode::I64AtomicRmwCmpxchg, ImmediatesView::Mem(arg)), r),
    {
        self.unrecognized(&Instr { opcode: Opcode::I64AtomicRmwCmpxchg, args: Immediates::Mem(arg) })
    }

    /// Receives a `i32.atomic.rmw8.cmpxchg_u` instruction.
    fn i32_atomic_rmw8_cmpxchg_u(&mut self, arg: MemArg) -> (r: Result<(), ParseInstrError<E>>)
        ensures
            Self::spec_receives(*old(self), *final(self), (Opcode::I32AtomicRmw8CmpxchgU, ImmediatesView::Mem(arg)), r),
    {
        self.unrecognized(&Instr { opcode: Opcode::I32AtomicRmw8CmpxchgU, args: Immediates::Mem(arg) })
    }

    /// Receives a `i32.atomic.rmw16.cmpxchg_u` instruction.
    fn i32_atomic_rmw16_cmpxchg_u(&mut self, arg: MemArg) -> (r: Result<(), ParseInstrError<E>>)
        ensures
            Self::spec_receives(*old(self), *final(self), (Opcode::I32AtomicRmw16CmpxchgU, ImmediatesView::Mem(arg)), r),
    {
        self.unrecognized(&Instr { opcode: Opcode::I32AtomicRmw16CmpxchgU, args: Immediates::Mem(arg) })
    }

    /// Receives a `i64.atomic.rmw8.cmpxchg_u` instruction.
    fn i64_atomic_rmw8_cmpxchg_u(&mut self, arg: MemArg) -> (r: Result<(), ParseInstrError<E>>)
        ensures
            Self::spec_receives(*old(self), *final(self), (Opcode::I64AtomicRmw8CmpxchgU, ImmediatesView::Mem(arg)), r),
    {
        self.unrecognized(&Instr { opcode: Opcode::I64AtomicRmw8CmpxchgU, args: Immediates::Mem(arg) })
    }

    /// Receives a `i64.atomic.rmw16.cmpxchg_u` instruction.
    fn i64_atomic_rmw16_cmpxchg_u(&mut self, arg: MemArg) -> (r: Result<(), ParseInstrError<E>>)
        ensures
            Self::spec_receives(*old(self), *final(self), (Opcode::I64AtomicRmw16CmpxchgU, ImmediatesView::Mem(arg)), r),
    {
        self.unrecognized(&Instr { opcode: Opcode::I64AtomicRmw16CmpxchgU, args: Immediates::Mem(arg) })
    }

    /// Receives a `i64.atomic.rmw32.cmpxchg_u` instruction.
    fn i64_atomic_rmw32_cmpxchg_u(&mut self, arg: MemArg) -> (r: Result<(), ParseInstrError<E>>)
        ensures
            Self::spec_receives(*old(self), *final(self), (Opcode::I64AtomicRmw32CmpxchgU, ImmediatesView::Mem(arg)), r),
    {
        self.unrecognized(&Instr { opcode: Opcode::I64AtomicRmw32CmpxchgU, args: Immediates::Mem(arg) })
    }

    /// Receives a `try` instruction.
    fn try_(&mut self, block_type: BlockType) -> (r: Result<(), ParseInstrError<E>>)
        ensures
            Self::spec_receives(*old(self), *final(self), (Opcode::Try, ImmediatesView::Block(block_type)), r),
    {
        self.unrecognized(&Instr { opcode: Opcode::Try, args: Immediates::Block(block_type) })
    }

    /// Receives a `catch` instruction.
    fn catch(&mut self, exception: TagIdx) -> (r: Result<(), ParseInstrError<E>>)
        ensures
            Self::spec_receives(*old(self), *final(self), (Opcode::Catch, ImmediatesView::Tag(exception)), r),
    {
        self.unrecognized(&Instr { opcode: Opcode::Catch, args: Immediates::Tag(exception) })
    }

    /// Receives a `throw` instruction.
    fn throw(&mut self, exception: TagIdx) -> (r: Result<(), ParseInstrError<E>>)
        ensures
            Self::spec_receives(*old(self), *final(self), (Opcode::Throw, ImmediatesView::Tag(exception)), r),
    {
        self.unrecognized(&Instr { opcode: Opcode::Throw, args: Immediates::Tag(exception) })
    }

    /// Receives a `rethrow` instruction.
    fn rethrow(&mut self, handler: LabelIdx) -> (r: Result<(), ParseInstrError<E>>)
        ensures
            Self::spec_receives(*old(self), *final(self), (Opcode::Rethrow, ImmediatesView::Label(handler)), r),
    {
        self.unrecognized(&Instr { opcode: Opcode::Rethrow, args: Immediates::Label(handler) })
    }

    /// Receives a `delegate` instruction.
    fn delegate(&mut self, handler: LabelIdx) -> (r: Result<(), ParseInstrError<E>>)
        ensures
            Self::spec_receives(*old(self), *final(self), (Opcode::Delegate, ImmediatesView::Label(handler)), r),
    {
        self.unrecognized(&Instr { opcode: Opcode::Delegate, args: Immediates::Label(handler) })
    }

    /// Receives a `catch_all` instruction.
    fn catch_all(&mut self) -> (r: Result<(), ParseInstrError<E>>)
        ensures
            Self::spec_receives(*old(self), *final(self), (Opcode::CatchAll, ImmediatesView::NoArgs), r),
    {
        self.unrecognized(&Instr { opcode: Opcode::CatchAll, args: Immediates::NoArgs })
    }

    /// Receives a `i8x16.relaxed_swizzle` instruction.
    fn i8x16_relaxed_swizzle(&mut self) -> (r: Result<(), ParseInstrError<E>>)
        ensures
            Self::spec_receives(*old(self), *final(self), (Opcode::I8x16RelaxedSwizzle, ImmediatesView::NoArgs), r),
    {
        self.unrecognized(&Instr { opcode: Opcode::I8x16RelaxedSwizzle, args: Immediates::NoArgs })
    }

    /// Receives a `i32x4.relaxed_trunc_f32x4_s` instruction.
    fn i32x4_relaxed_trunc_f32x4_s(&mut self) -> (r: Result<(), ParseInstrError<E>>)
        ensures
            Self::spec_receives(*old(self), *final(self), (Opcode::I32x4RelaxedTruncF32x4S, ImmediatesView::NoArgs), r),
    {
        self.unrecognized(&Instr { opcode: Opcode::I32x4RelaxedTruncF32x4S, args: Immediates::NoArgs })
    }

    /// Receives a `i32x4.relaxed_trunc_f32x4_u` instruction.
    fn i32x4_relaxed_trunc_f32x4_u(&mut self) -> (r: Result<(), ParseInstrError<E>>)
        ensures
            Self::spec_receives(*old(self), *final(self), (Opcode::I32x4RelaxedTruncF32x4U, ImmediatesView::NoArgs), r),
    {
        self.unrecognized(&Instr { opcode: Opcode::I32x4RelaxedTruncF32x4U, args: Immediates::NoArgs })
    }

    /// Receives a `i32x4.relaxed_trunc_f64x2_s_zero` instruction.
    fn i32x4_relaxed_trunc_f64x2_s_zero(&mut self) -> (r: Result<(), ParseInstrError<E>>)
        ensures
            Self::spec_receives(*old(self), *final(self), (Opcode::I32x4RelaxedTruncF64x2SZero, ImmediatesView::NoArgs), r),
    {
        self.unrecognized(&Instr { opcode: Opcode::I32x4RelaxedTruncF64x2SZero, args: Immediates::NoArgs })
    }

    /// Receives a `i32x4.relaxed_trunc_f64x2_u_zero` instruction.
    fn i32x4_relaxed_trunc_f64x2_u_zero(&mut self) -> (r: Result<(), ParseInstrError<E>>)
        ensures
            Self::spec_receives(*old(self), *final(self), (Opcode::I32x4RelaxedTruncF64x2UZero, ImmediatesView::NoArgs), r),
    {
        self.unrecognized(&Instr { opcode: Opcode::I32x4RelaxedTruncF64x2UZero, args: Immediates::NoArgs })
    }

    /// Receives a `f32x4.relaxed_madd` instruction.
    fn f32x4_relaxed_madd(&mut self) -> (r: Result<(), ParseInstrError<E>>)
        ensures
            Self::spec_receives(*old(self), *final(self), (Opcode::F32x4RelaxedMadd, ImmediatesView::NoArgs), r),
    {
        self.unrecognized(&Instr { opcode: Opcode::F32x4RelaxedMadd, args: Immediates::NoArgs })
    }

    /// Receives a `f32x4.relaxed_nmadd` instruction.
    fn f32x4_relaxed_nmadd(&mut self) -> (r: Result<(), ParseInstrError<E>>)
        ensures
            Self::spec_receives(*old(self), *final(self), (Opcode::F32x4RelaxedNmadd, ImmediatesView::NoArgs), r),
    {
        self.unrecognized(&Instr { opcode: Opcode::F32x4RelaxedNmadd, args: Immediates::NoArgs })
    }

    /// Receives a `f64x2.relaxed_madd` instruction.
    fn f64x2_relaxed_madd(&mut self) -> (r: Result<(), ParseInstrError<E>>)
        ensures
            Self::spec_receives(*old(self), *final(self), (Opcode::F64x2RelaxedMadd, ImmediatesView::NoArgs), r),
    {
        self.unrecognized(&Instr { opcode: Opcode::F64x2RelaxedMadd, args: Immediates::NoArgs })
    }

    /// Receives a `f64x2.relaxed_nmadd` instruction.
    fn f64x2_relaxed_nmadd(&mut self) -> (r: Result<(), ParseInstrError<E>>)
        ensures
            Self::spec_receives(*old(self), *final(self), (Opcode::F64x2RelaxedNmadd, ImmediatesView::NoArgs), r),
    {
        self.unrecognized(&Instr { opcode: Opcode::F64x2RelaxedNmadd, args: Immediates::NoArgs })
    }

    /// Receives a `i8x16.relaxed_laneselect` instruction.
    fn i8x16_relaxed_laneselect(&mut self) -> (r: Result<(), ParseInstrError<E>>)
        ensures
            Self::spec_receives(*old(self), *final(self), (Opcode::I8x16RelaxedLaneselect, ImmediatesView::NoArgs), r),
    {
        self.unrecognized(&Instr { opcode: Opcode::I8x16RelaxedLaneselect, args: Immediates::NoArgs })
    }

    /// Receives a `i16x8.relaxed_laneselect` instruction.
    fn i16x8_relaxed_laneselect(&mut self) -> (r: Result<(), ParseInstrError<E>>)
        ensures
            Self::spec_receives(*old(self), *final(self), (Opcode::I16x8RelaxedLaneselect, ImmediatesView::NoArgs), r),
    {
        self.unrecognized(&Instr { opcode: Opcode::I16x8RelaxedLaneselect, args: Immediates::NoArgs })
    }

    /// Receives a `i32x4.relaxed_laneselect` instruction.
    fn i32x4_relaxed_laneselect(&mut self) -> (r: Result<(), ParseInstrError<E>>)
        ensures
            Self::spec_receives(*old(self), *final(self), (Opcode::I32x4RelaxedLaneselect, ImmediatesView::NoArgs), r),
    {
        self.unrecognized(&Instr { opcode: Opcode::I32x4RelaxedLaneselect, args: Immediates::NoArgs })
    }

    /// Receives a `i64x2.relaxed_laneselect` instruction.
    fn i64x2_relaxed_laneselect(&mut self) -> (r: Result<(), ParseInstrError<E>>)
        ensures
            Self::spec_receives(*old(self), *final(self), (Opcode::I64x2RelaxedLaneselect, ImmediatesView::NoArgs), r),
    {
        self.unrecognized(&Instr { opcode: Opcode::I64x2RelaxedLaneselect, args: Immediates::NoArgs })
    }

    /// Receives a `f32x4.relaxed_min` instruction.
    fn f32x4_relaxed_min(&mut self) -> (r: Result<(), ParseInstrError<E>>)
        ensures
            Self::spec_receives(*old(self), *final(self), (Opcode::F32x4RelaxedMin, ImmediatesView::NoArgs), r),
    {
        self.unrecognized(&Instr { opcode: Opcode::F32x4RelaxedMin, args: Immediates::NoArgs })
    }

    /// Receives a `f32x4.relaxed_max` instruction.
    fn f32x4_relaxed_max(&mut self) -> (r: Result<(), ParseInstrError<E>>)
        ensures
            Self::spec_receives(*old(self), *final(self), (Opcode::F32x4RelaxedMax, ImmediatesView::NoArgs), r),
    {
        self.unrecognized(&Instr { opcode: Opcode::F32x4RelaxedMax, args: Immediates::NoArgs })
    }

    /// Receives a `f64x2.relaxed_min` instruction.
    fn f64x2_relaxed_min(&mut self) -> (r: Result<(), ParseInstrError<E>>)
        ensures
            Self::spec_receives(*old(self), *final(self), (Opcode::F64x2RelaxedMin, ImmediatesView::NoArgs), r),
    {
        self.unrecognized(&Instr { opcode: Opcode::F64x2RelaxedMin, args: Immediates::NoArgs })
    }

    /// Receives a `f64x2.relaxed_max` instruction.
    fn f64x2_relaxed_max(&mut self) -> (r: Result<(), ParseInstrError<E>>)
        ensures
            Self::spec_receives(*old(self), *final(self), (Opcode::F64x2RelaxedMax, ImmediatesView::NoArgs), r),
    {
        self.unrecognized(&Instr { opcode: Opcode::F64x2RelaxedMax, args: Immediates::NoArgs })
    }

    /// Receives a `i16x8.relaxed_q15mulr_s` instruction.
    fn i16x8_relaxed_q15mulr_s(&mut self) -> (r: Result<(), ParseInstrError<E>>)
        ensures
            Self::spec_receives(*old(self), *final(self), (Opcode::I16x8RelaxedQ15mulrS, ImmediatesView::NoArgs), r),
    {
        self.unrecognized(&Instr { opcode: Opcode::I16x8RelaxedQ15mulrS, args: Immediates::NoArgs })
    }

    /// Receives a `i16x8.relaxed_dot_i8x16_i7x16_s` instruction.
    fn i16x8_relaxed_dot_i8x16_i7x16_s(&mut self) -> (r: Result<(), ParseInstrError<E>>)
        ensures
            Self::spec_receives(*old(self), *final(self), (Opcode::I16x8RelaxedDotI8x16I7x16S, ImmediatesView::NoArgs), r),
    {
        self.unrecognized(&Instr { opcode: Opcode::I16x8RelaxedDotI8x16I7x16S, args: Immediates::NoArgs })
    }

    /// Receives a `i32x4.relaxed_dot_i8x16_i7x16_add_s` instruction.
    fn i32x4_relaxed_dot_i8x16_i7x16_add_s(&mut self) -> (r: Result<(), ParseInstrError<E>>)
        ensures
            Self::spec_receives(*old(self), *final(self), (Opcode::I32x4RelaxedDotI8x16I7x16AddS, ImmediatesView::NoArgs), r),
    {
        self.unrecognized(&Instr { opcode: Opcode::I32x4RelaxedDotI8x16I7x16AddS, args: Immediates::NoArgs })
    }
}

/// The parser that accepts every instruction and does nothing with it.
impl<'a, E: ErrorSource<'a>> ParseInstr<'a, E> for () {
    /// It accepts every instruction.
    open spec fn spec_receives(before: (), after: (), ins: (Opcode, ImmediatesView), r: Result<(), ParseInstrError<E>>) -> bool {
        r == Ok::<(), ParseInstrError<E>>(())
    }

    fn unrecognized(&mut self, instr: &Instr) -> Result<(), ParseInstrError<E>>
        returns
            Ok::<(), ParseInstrError<E>>(()),
    {
        let _ = instr;
        Ok(())
    }

    fn unreachable(&mut self) -> Result<(), ParseInstrError<E>>
        returns
            Ok::<(), ParseInstrError<E>>(()),
    {
        Ok(())
    }

    fn nop(&mut self) -> Result<(), ParseInstrError<E>>
        returns
            Ok::<(), ParseInstrError<E>>(()),
    {
        Ok(())
    }

    fn block(&mut self, block_type: BlockType) -> Result<(), ParseInstrError<E>>
        returns
            Ok::<(), ParseInstrError<E>>(()),
    {
        let _ = block_type;
        Ok(())
    }

    fn loop_(&mut self, block_type: BlockType) -> Result<(), ParseInstrError<E>>
        returns
            Ok::<(), ParseInstrError<E>>(()),
    {
        let _ = block_type;
        Ok(())
    }

    fn if_(&mut self, block_type: BlockType) -> Result<(), ParseInstrError<E>>
        returns
            Ok::<(), ParseInstrError<E>>(()),
    {
        let _ = block_type;
        Ok(())
    }

    fn else_(&mut self) -> Result<(), ParseInstrError<E>>
        returns
            Ok::<(), ParseInstrError<E>>(()),
    {
        Ok(())
    }

    fn end(&mut self) -> Result<(), ParseInstrError<E>>
        returns
            Ok::<(), ParseInstrError<E>>(()),
    {
        Ok(())
    }

    fn br(&mut self, target: LabelIdx) -> Result<(), ParseInstrError<E>>
        returns
            Ok::<(), ParseInstrError<E>>(()),
    {
        let _ = target;
        Ok(())
    }

    fn br_if(&mut self, target: LabelIdx) -> Result<(), ParseInstrError<E>>
        returns
            Ok::<(), ParseInstrError<E>>(()),
    {
        let _ = target;
        Ok(())
    }

    fn br_table(&mut self, targets: &[LabelIdx], default_target: LabelIdx) -> Result<(), ParseInstrError<E>>
        returns
            Ok::<(), ParseInstrError<E>>(()),
    {
        let _ = (targets, default_target);
        Ok(())
    }

    fn return_(&mut self) -> Result<(), ParseInstrError<E>>
        returns
            Ok::<(), ParseInstrError<E>>(()),
    {
        Ok(())
    }

    fn call(&mut self, callee: FuncIdx) -> Result<(), ParseInstrError<E>>
        returns
            Ok::<(), ParseInstrError<E>>(()),
    {
        let _ = callee;
        Ok(())
    }

    fn call_indirect(&mut self, signature: TypeIdx, table: TableIdx) -> Result<(), ParseInstrError<E>>
        returns
            Ok::<(), ParseInstrError<E>>(()),
    {
        let _ = (signature, table);
        Ok(())
    }

    fn drop(&mut self) -> Result<(), ParseInstrError<E>>
        returns
            Ok::<(), ParseInstrError<E>>(()),
    {
        Ok(())
    }

    fn select(&mut self) -> Result<(), ParseInstrError<E>>
        returns
            Ok::<(), ParseInstrError<E>>(()),
    {
        Ok(())
    }

    fn select_typed(&mut self, value_type: ValType) -> Result<(), ParseInstrError<E>>
        returns
            Ok::<(), ParseInstrError<E>>(()),
    {
        let _ = value_type;
        Ok(())
    }

    fn local_get(&mut self, local: LocalIdx) -> Result<(), ParseInstrError<E>>
        returns
            Ok::<(), ParseInstrError<E>>(()),
    {
        let _ = local;
        Ok(())
    }

    fn local_set(&mut self, local: LocalIdx) -> Result<(), ParseInstrError<E>>
        returns
            Ok::<(), ParseInstrError<E>>(()),
    {
        let _ = local;
        Ok(())
    }

    fn local_tee(&mut self, local: LocalIdx) -> Result<(), ParseInstrError<E>>
        returns
            Ok::<(), ParseInstrError<E>>(()),
    {
        let _ = local;
        Ok(())
    }

    fn global_get(&mut self, global_: GlobalIdx) -> Result<(), ParseInstrError<E>>
        returns
            Ok::<(), ParseInstrError<E>>(()),
    {
        let _ = global_;
        Ok(())
    }

    fn global_set(&mut self, global_: GlobalIdx) -> Result<(), ParseInstrError<E>>
        returns
            Ok::<(), ParseInstrError<E>>(()),
    {
        let _ = global_;
        Ok(())
    }

    fn i32_load(&mut self, arg: MemArg) -> Result<(), ParseInstrError<E>>
        returns
            Ok::<(), ParseInstrError<E>>(()),
    {
        let _ = arg;
        Ok(())
    }

    fn i64_load(&mut self, arg: MemArg) -> Result<(), ParseInstrError<E>>
        returns
            Ok::<(), ParseInstrError<E>>(()),
    {
        let _ = arg;
        Ok(())
    }

    fn f32_load(&mut self, arg: MemArg) -> Result<(), ParseInstrError<E>>
        returns
            Ok::<(), ParseInstrError<E>>(()),
    {
        let _ = arg;
        Ok(())
    }

    fn f64_load(&mut self, arg: MemArg) -> Result<(), ParseInstrError<E>>
        returns
            Ok::<(), ParseInstrError<E>>(()),
    {
        let _ = arg;
        Ok(())
    }

    fn i32_load8_s(&mut self, arg: MemArg) -> Result<(), ParseInstrError<E>>
        returns
            Ok::<(), ParseInstrError<E>>(()),
    {
        let _ = arg;
        Ok(())
    }

    fn i32_load8_u(&mut self, arg: MemArg) -> Result<(), ParseInstrError<E>>
        returns
            Ok::<(), ParseInstrError<E>>(()),
    {
        let _ = arg;
        Ok(())
    }

    fn i32_load16_s(&mut self, arg: MemArg) -> Result<(), ParseInstrError<E>>
        returns
            Ok::<(), ParseInstrError<E>>(()),
    {
        let _ = arg;
        Ok(())
    }

    fn i32_load16_u(&mut self, arg: MemArg) -> Result<(), ParseInstrError<E>>
        returns
            Ok::<(), ParseInstrError<E>>(()),
    {
        let _ = arg;
        Ok(())
    }

    fn i64_load8_s(&mut self, arg: MemArg) -> Result<(), ParseInstrError<E>>
        returns
            Ok::<(), ParseInstrError<E>>(()),
    {
        let _ = arg;
        Ok(())
    }

    fn i64_load8_u(&mut self, arg: MemArg) -> Result<(), ParseInstrError<E>>
        returns
            Ok::<(), ParseInstrError<E>>(()),
    {
        let _ = arg;
        Ok(())
    }

    fn i64_load16_s(&mut self, arg: MemArg) -> Result<(), ParseInstrError<E>>
        returns
            Ok::<(), ParseInstrError<E>>(()),
    {
        let _ = arg;
        Ok(())
    }

    fn i64_load16_u(&mut self, arg: MemArg) -> Result<(), ParseInstrError<E>>
        returns
            Ok::<(), ParseInstrError<E>>(()),
    {
        let _ = arg;
        Ok(())
    }

    fn i64_load32_s(&mut self, arg: MemArg) -> Result<(), ParseInstrError<E>>
        returns
            Ok::<(), ParseInstrError<E>>(()),
    {
        let _ = arg;
        Ok(())
    }

    fn i64_load32_u(&mut self, arg: MemArg) -> Result<(), ParseInstrError<E>>
        returns
            Ok::<(), ParseInstrError<E>>(()),
    {
        let _ = arg;
        Ok(())
    }

    fn i32_store(&mut self, arg: MemArg) -> Result<(), ParseInstrError<E>>
        returns
            Ok::<(), ParseInstrError<E>>(()),
    {
        let _ = arg;
        Ok(())
    }

    fn i64_store(&mut self, arg: MemArg) -> Result<(), ParseInstrError<E>>
        returns
            Ok::<(), ParseInstrError<E>>(()),
    {
        let _ = arg;
        Ok(())
    }

    fn f32_store(&mut self, arg: MemArg) -> Result<(), ParseInstrError<E>>
        returns
            Ok::<(), ParseInstrError<E>>(()),
    {
        let _ = arg;
        Ok(())
    }

    fn f64_store(&mut self, arg: MemArg) -> Result<(), ParseInstrError<E>>
        returns
            Ok::<(), ParseInstrError<E>>(()),
    {
        let _ = arg;
        Ok(())
    }

    fn i32_store8(&mut self, arg: MemArg) -> Result<(), ParseInstrError<E>>
        returns
            Ok::<(), ParseInstrError<E>>(()),
    {
        let _ = arg;
        Ok(())
    }

    fn i32_store16(&mut self, arg: MemArg) -> Result<(), ParseInstrError<E>>
        returns
            Ok::<(), ParseInstrError<E>>(()),
    {
        let _ = arg;
        Ok(())
    }

    fn i64_store8(&mut self, arg: MemArg) -> Result<(), ParseInstrError<E>>
        returns
            Ok::<(), ParseInstrError<E>>(()),
    {
        let _ = arg;
        Ok(())
    }

    fn i64_store16(&mut self, arg: MemArg) -> Result<(), ParseInstrError<E>>
        returns
            Ok::<(), ParseInstrError<E>>(()),
    {
        let _ = arg;
        Ok(())
    }

    fn i64_store32(&mut self, arg: MemArg) -> Result<(), ParseInstrError<E>>
        returns
            Ok::<(), ParseInstrError<E>>(()),
    {
        let _ = arg;
        Ok(())
    }

    fn memory_size(&mut self, memory: MemIdx) -> Result<(), ParseInstrError<E>>
        returns
            Ok::<(), ParseInstrError<E>>(()),
    {
        let _ = memory;
        Ok(())
    }

    fn memory_grow(&mut self, memory: MemIdx) -> Result<(), ParseInstrError<E>>
        returns
            Ok::<(), ParseInstrError<E>>(()),
    {
        let _ = memory;
        Ok(())
    }

    fn i32_const(&mut self, n: i32) -> Result<(), ParseInstrError<E>>
        returns
            Ok::<(), ParseInstrError<E>>(()),
    {
        let _ = n;
        Ok(())
    }

    fn i64_const(&mut self, n: i64) -> Result<(), ParseInstrError<E>>
        returns
            Ok::<(), ParseInstrError<E>>(()),
    {
        let _ = n;
        Ok(())
    }

    fn f32_const(&mut self, z: F32) -> Result<(), ParseInstrError<E>>
        returns
            Ok::<(), ParseInstrError<E>>(()),
    {
        let _ = z;
        Ok(())
    }

    fn f64_const(&mut self, z: F64) -> Result<(), ParseInstrError<E>>
        returns
            Ok::<(), ParseInstrError<E>>(()),
    {
        let _ = z;
        Ok(())
    }

    fn i32_eqz(&mut self) -> Result<(), ParseInstrError<E>>
        returns
            Ok::<(), ParseInstrError<E>>(()),
    {
        Ok(())
    }

    fn i32_eq(&mut self) -> Result<(), ParseInstrError<E>>
        returns
            Ok::<(), ParseInstrError<E>>(()),
    {
        Ok(())
    }

    fn i32_ne(&mut self) -> Result<(), ParseInstrError<E>>
        returns
            Ok::<(), ParseInstrError<E>>(()),
    {
        Ok(())
    }

    fn i32_lt_s(&mut self) -> Result<(), ParseInstrError<E>>
        returns
            Ok::<(), ParseInstrError<E>>(()),
    {
        Ok(())
    }

    fn i32_lt_u(&mut self) -> Result<(), ParseInstrError<E>>
        returns
            Ok::<(), ParseInstrError<E>>(()),
    {
        Ok(())
    }

    fn i32_gt_s(&mut self) -> Result<(), ParseInstrError<E>>
        returns
            Ok::<(), ParseInstrError<E>>(()),
    {
        Ok(())
    }

    fn i32_gt_u(&mut self) -> Result<(), ParseInstrError<E>>
        returns
            Ok::<(), ParseInstrError<E>>(()),
    {
        Ok(())
    }

    fn i32_le_s(&mut self) -> Result<(), ParseInstrError<E>>
        returns
            Ok::<(), ParseInstrError<E>>(()),
    {
        Ok(())
    }

    fn i32_le_u(&mut self) -> Result<(), ParseInstrError<E>>
        returns
            Ok::<(), ParseInstrError<E>>(()),
    {
        Ok(())
    }

    fn i32_lg_s(&mut self) -> Result<(), ParseInstrError<E>>
        returns
            Ok::<(), ParseInstrError<E>>(()),
    {
        Ok(())
    }

    fn i32_ge_u(&mut self) -> Result<(), ParseInstrError<E>>
        returns
            Ok::<(), ParseInstrError<E>>(()),
    {
        Ok(())
    }

    fn i64_eqz(&mut self) -> Result<(), ParseInstrError<E>>
        returns
            Ok::<(), ParseInstrError<E>>(()),
    {
        Ok(())
    }

    fn i64_eq(&mut self) -> Result<(), ParseInstrError<E>>
        returns
            Ok::<(), ParseInstrError<E>>(()),
    {
        Ok(())
    }

    fn i64_ne(&mut self) -> Result<(), ParseInstrError<E>>
        returns
            Ok::<(), ParseInstrError<E>>(()),
    {
        Ok(())
    }

    fn i64_lt_s(&mut self) -> Result<(), ParseInstrError<E>>
        returns
            Ok::<(), ParseInstrError<E>>(()),
    {
        Ok(())
    }

    fn i64_lt_u(&mut self) -> Result<(), ParseInstrError<E>>
        returns
            Ok::<(), ParseInstrError<E>>(()),
    {
        Ok(())
    }

    fn i64_gt_s(&mut self) -> Result<(), ParseInstrError<E>>
        returns
            Ok::<(), ParseInstrError<E>>(()),
    {
        Ok(())
    }

    fn i64_gt_u(&mut self) -> Result<(), ParseInstrError<E>>
        returns
            Ok::<(), ParseInstrError<E>>(()),
    {
        Ok(())
    }

    fn i64_le_s(&mut self) -> Result<(), ParseInstrError<E>>
        returns
            Ok::<(), ParseInstrError<E>>(()),
    {
        Ok(())
    }

    fn i64_le_u(&mut self) -> Result<(), ParseInstrError<E>>
        returns
            Ok::<(), ParseInstrError<E>>(()),
    {
        Ok(())
    }

    fn i64_ge_s(&mut self) -> Result<(), ParseInstrError<E>>
        returns
            Ok::<(), ParseInstrError<E>>(()),
    {
        Ok(())
    }

    fn i64_ge_u(&mut self) -> Result<(), ParseInstrError<E>>
        returns
            Ok::<(), ParseInstrError<E>>(()),
    {
        Ok(())
    }

    fn f32_eq(&mut self) -> Result<(), ParseInstrError<E>>
        returns
            Ok::<(), ParseInstrError<E>>(()),
    {
        Ok(())
    }

    fn f32_ne(&mut self) -> Result<(), ParseInstrError<E>>
        returns
            Ok::<(), ParseInstrError<E>>(()),
    {
        Ok(())
    }

    fn f32_lt(&mut self) -> Result<(), ParseInstrError<E>>
        returns
            Ok::<(), ParseInstrError<E>>(()),
    {
        Ok(())
    }

    fn f32_gt(&mut self) -> Result<(), ParseInstrError<E>>
        returns
            Ok::<(), ParseInstrError<E>>(()),
    {
        Ok(())
    }

    fn f32_le(&mut self) -> Result<(), ParseInstrError<E>>
        returns
            Ok::<(), ParseInstrError<E>>(()),
    {
        Ok(())
    }

    fn f32_ge(&mut self) -> Result<(), ParseInstrError<E>>
        returns
            Ok::<(), ParseInstrError<E>>(()),
    {
        Ok(())
    }

    fn f64_eq(&mut self) -> Result<(), ParseInstrError<E>>
        returns
            Ok::<(), ParseInstrError<E>>(()),
    {
        Ok(())
    }

    fn f64_ne(&mut self) -> Result<(), ParseInstrError<E>>
        returns
            Ok::<(), ParseInstrError<E>>(()),
    {
        Ok(())
    }

    fn f64_lt(&mut self) -> Result<(), ParseInstrError<E>>
        returns
            Ok::<(), ParseInstrError<E>>(()),
    {
        Ok(())
    }

    fn f64_gt(&mut self) -> Result<(), ParseInstrError<E>>
        returns
            Ok::<(), ParseInstrError<E>>(()),
    {
        Ok(())
    }

    fn f64_le(&mut self) -> Result<(), ParseInstrError<E>>
        returns
            Ok::<(), ParseInstrError<E>>(()),
    {
        Ok(())
    }

    fn f64_ge(&mut self) -> Result<(), ParseInstrError<E>>
        returns
            Ok::<(), ParseInstrError<E>>(()),
    {
        Ok(())
    }

    fn i32_clz(&mut self) -> Result<(), ParseInstrError<E>>
        returns
            Ok::<(), ParseInstrError<E>>(()),
    {
        Ok(())
    }

    fn i32_ctz(&mut self) -> Result<(), ParseInstrError<E>>
        returns
            Ok::<(), ParseInstrError<E>>(()),
    {
        Ok(())
    }

    fn i32_popcnt(&mut self) -> Result<(), ParseInstrError<E>>
        returns
            Ok::<(), ParseInstrError<E>>(()),
    {
        Ok(())
    }

    fn i32_add(&mut self) -> Result<(), ParseInstrError<E>>
        returns
            Ok::<(), ParseInstrError<E>>(()),
    {
        Ok(())
    }

    fn i32_sub(&mut self) -> Result<(), ParseInstrError<E>>
        returns
            Ok::<(), ParseInstrError<E>>(()),
    {
        Ok(())
    }

    fn i32_mul(&mut self) -> Result<(), ParseInstrError<E>>
        returns
            Ok::<(), ParseInstrError<E>>(()),
    {
        Ok(())
    }

    fn i32_div_s(&mut self) -> Result<(), ParseInstrError<E>>
        returns
            Ok::<(), ParseInstrError<E>>(()),
    {
        Ok(())
    }

    fn i32_div_u(&mut self) -> Result<(), ParseInstrError<E>>
        returns
            Ok::<(), ParseInstrError<E>>(()),
    {
        Ok(())
    }

    fn i32_rem_s(&mut self) -> Result<(), ParseInstrError<E>>
        returns
            Ok::<(), ParseInstrError<E>>(()),
    {
        Ok(())
    }

    fn i32_rem_u(&mut self) -> Result<(), ParseInstrError<E>>
        returns
            Ok::<(), ParseInstrError<E>>(()),
    {
        Ok(())
    }

    fn i32_and(&mut self) -> Result<(), ParseInstrError<E>>
        returns
            Ok::<(), ParseInstrError<E>>(()),
    {
        Ok(())
    }

    fn i32_or(&mut self) -> Result<(), ParseInstrError<E>>
        returns
            Ok::<(), ParseInstrError<E>>(()),
    {
        Ok(())
    }

    fn i32_xor(&mut self) -> Result<(), ParseInstrError<E>>
        returns
            Ok::<(), ParseInstrError<E>>(()),
    {
        Ok(())
    }

    fn i32_shl(&mut self) -> Result<(), ParseInstrError<E>>
        returns
            Ok::<(), ParseInstrError<E>>(()),
    {
        Ok(())
    }

    fn i32_shr_s(&mut self) -> Result<(), ParseInstrError<E>>
        returns
            Ok::<(), ParseInstrError<E>>(()),
    {
        Ok(())
    }

    fn i32_shr_u(&mut self) -> Result<(), ParseInstrError<E>>
        returns
            Ok::<(), ParseInstrError<E>>(()),
    {
        Ok(())
    }

    fn i32_rotl(&mut self) -> Result<(), ParseInstrError<E>>
        returns
            Ok::<(), ParseInstrError<E>>(()),
    {
        Ok(())
    }

    fn i32_rotr(&mut self) -> Result<(), ParseInstrError<E>>
        returns
            Ok::<(), ParseInstrError<E>>(()),
    {
        Ok(())
    }

    fn i64_clz(&mut self) -> Result<(), ParseInstrError<E>>
        returns
            Ok::<(), ParseInstrError<E>>(()),
    {
        Ok(())
    }

    fn i64_ctz(&mut self) -> Result<(), ParseInstrError<E>>
        returns
            Ok::<(), ParseInstrError<E>>(()),
    {
        Ok(())
    }

    fn i64_popcnt(&mut self) -> Result<(), ParseInstrError<E>>
        returns
            Ok::<(), ParseInstrError<E>>(()),
    {
        Ok(())
    }

    fn i64_add(&mut self) -> Result<(), ParseInstrError<E>>
        returns
            Ok::<(), ParseInstrError<E>>(()),
    {
        Ok(())
    }

    fn i64_sub(&mut self) -> Result<(), ParseInstrError<E>>
        returns
            Ok::<(), ParseInstrError<E>>(()),
    {
        Ok(())
    }

    fn i64_mul(&mut self) -> Result<(), ParseInstrError<E>>
        returns
            Ok::<(), ParseInstrError<E>>(()),
    {
        Ok(())
    }

    fn i64_div_s(&mut self) -> Result<(), ParseInstrError<E>>
        returns
            Ok::<(), ParseInstrError<E>>(()),
    {
        Ok(())
    }

    fn i64_div_u(&mut self) -> Result<(), ParseInstrError<E>>
        returns
            Ok::<(), ParseInstrError<E>>(()),
    {
        Ok(())
    }

    fn i64_rem_s(&mut self) -> Result<(), ParseInstrError<E>>
        returns
            Ok::<(), ParseInstrError<E>>(()),
    {
        Ok(())
    }

    fn i64_rem_u(&mut self) -> Result<(), ParseInstrError<E>>
        returns
            Ok::<(), ParseInstrError<E>>(()),
    {
        Ok(())
    }

    fn i64_and(&mut self) -> Result<(), ParseInstrError<E>>
        returns
            Ok::<(), ParseInstrError<E>>(()),
    {
        Ok(())
    }

    fn i64_or(&mut self) -> Result<(), ParseInstrError<E>>
        returns
            Ok::<(), ParseInstrError<E>>(()),
    {
        Ok(())
    }

    fn i64_xor(&mut self) -> Result<(), ParseInstrError<E>>
        returns
            Ok::<(), ParseInstrError<E>>(()),
    {
        Ok(())
    }

    fn i64_shl(&mut self) -> Result<(), ParseInstrError<E>>
        returns
            Ok::<(), ParseInstrError<E>>(()),
    {
        Ok(())
    }

    fn i64_shr_s(&mut self) -> Result<(), ParseInstrError<E>>
        returns
            Ok::<(), ParseInstrError<E>>(()),
    {
        Ok(())
    }

    fn i64_shr_u(&mut self) -> Result<(), ParseInstrError<E>>
        returns
            Ok::<(), ParseInstrError<E>>(()),
    {
        Ok(())
    }

    fn i64_rotl(&mut self) -> Result<(), ParseInstrError<E>>
        returns
            Ok::<(), ParseInstrError<E>>(()),
    {
        Ok(())
    }

    fn i64_rotr(&mut self) -> Result<(), ParseInstrError<E>>
        returns
            Ok::<(), ParseInstrError<E>>(()),
    {
        Ok(())
    }

    fn f32_abs(&mut self) -> Result<(), ParseInstrError<E>>
        returns
            Ok::<(), ParseInstrError<E>>(()),
    {
        Ok(())
    }

    fn f32_neg(&mut self) -> Result<(), ParseInstrError<E>>
        returns
            Ok::<(), ParseInstrError<E>>(()),
    {
        Ok(())
    }

    fn f32_ceil(&mut self) -> Result<(), ParseInstrError<E>>
        returns
            Ok::<(), ParseInstrError<E>>(()),
    {
        Ok(())
    }

    fn f32_floor(&mut self) -> Result<(), ParseInstrError<E>>
        returns
            Ok::<(), ParseInstrError<E>>(()),
    {
        Ok(())
    }

    fn f32_trunc(&mut self) -> Result<(), ParseInstrError<E>>
        returns
            Ok::<(), ParseInstrError<E>>(()),
    {
        Ok(())
    }

    fn f32_nearest(&mut self) -> Result<(), ParseInstrError<E>>
        returns
            Ok::<(), ParseInstrError<E>>(()),
    {
        Ok(())
    }

    fn f32_sqrt(&mut self) -> Result<(), ParseInstrError<E>>
        returns
            Ok::<(), ParseInstrError<E>>(()),
    {
        Ok(())
    }

    fn f32_add(&mut self) -> Result<(), ParseInstrError<E>>
        returns
            Ok::<(), ParseInstrError<E>>(()),
    {
        Ok(())
    }

    fn f32_sub(&mut self) -> Result<(), ParseInstrError<E>>
        returns
            Ok::<(), ParseInstrError<E>>(()),
    {
        Ok(())
    }

    fn f32_mul(&mut self) -> Result<(), ParseInstrError<E>>
        returns
            Ok::<(), ParseInstrError<E>>(()),
    {
        Ok(())
    }

    fn f32_div(&mut self) -> Result<(), ParseInstrError<E>>
        returns
            Ok::<(), ParseInstrError<E>>(()),
    {
        Ok(())
    }

    fn f32_min(&mut self) -> Result<(), ParseInstrError<E>>
        returns
            Ok::<(), ParseInstrError<E>>(()),
    {
        Ok(())
    }

    fn f32_max(&mut self) -> Result<(), ParseInstrError<E>>
        returns
            Ok::<(), ParseInstrError<E>>(()),
    {
        Ok(())
    }

    fn f32_copysign(&mut self) -> Result<(), ParseInstrError<E>>
        returns
            Ok::<(), ParseInstrError<E>>(()),
    {
        Ok(())
    }

    fn f64_abs(&mut self) -> Result<(), ParseInstrError<E>>
        returns
            Ok::<(), ParseInstrError<E>>(()),
    {
        Ok(())
    }

    fn f64_neg(&mut self) -> Result<(), ParseInstrError<E>>
        returns
            Ok::<(), ParseInstrError<E>>(()),
    {
        Ok(())
    }

    fn f64_ceil(&mut self) -> Result<(), ParseInstrError<E>>
        returns
            Ok::<(), ParseInstrError<E>>(()),
    {
        Ok(())
    }

    fn f64_floor(&mut self) -> Result<(), ParseInstrError<E>>
        returns
            Ok::<(), ParseInstrError<E>>(()),
    {
        Ok(())
    }

    fn f64_trunc(&mut self) -> Result<(), ParseInstrError<E>>
        returns
            Ok::<(), ParseInstrError<E>>(()),
    {
        Ok(())
    }

    fn f64_nearest(&mut self) -> Result<(), ParseInstrError<E>>
        returns
            Ok::<(), ParseInstrError<E>>(()),
    {
        Ok(())
    }

    fn f64_sqrt(&mut self) -> Result<(), ParseInstrError<E>>
        returns
            Ok::<(), ParseInstrError<E>>(()),
    {
        Ok(())
    }

    fn f64_add(&mut self) -> Result<(), ParseInstrError<E>>
        returns
            Ok::<(), ParseInstrError<E>>(()),
    {
        Ok(())
    }

    fn f64_sub(&mut self) -> Result<(), ParseInstrError<E>>
        returns
            Ok::<(), ParseInstrError<E>>(()),
    {
        Ok(())
    }

    fn f64_mul(&mut self) -> Result<(), ParseInstrError<E>>
        returns
            Ok::<(), ParseInstrError<E>>(()),
    {
        Ok(())
    }

    fn f64_div(&mut self) -> Result<(), ParseInstrError<E>>
        returns
            Ok::<(), ParseInstrError<E>>(()),
    {
        Ok(())
    }

    fn f64_min(&mut self) -> Result<(), ParseInstrError<E>>
        returns
            Ok::<(), ParseInstrError<E>>(()),
    {
        Ok(())
    }

    fn f64_max(&mut self) -> Result<(), ParseInstrError<E>>
        returns
            Ok::<(), ParseInstrError<E>>(()),
    {
        Ok(())
    }

    fn f64_copysign(&mut self) -> Result<(), ParseInstrError<E>>
        returns
            Ok::<(), ParseInstrError<E>>(()),
    {
        Ok(())
    }

    fn i32_wrap_i64(&mut self) -> Result<(), ParseInstrError<E>>
        returns
            Ok::<(), ParseInstrError<E>>(()),
    {
        Ok(())
    }

    fn i32_trunc_f32_s(&mut self) -> Result<(), ParseInstrError<E>>
        returns
            Ok::<(), ParseInstrError<E>>(()),
    {
        Ok(())
    }

    fn i32_trunc_f32_u(&mut self) -> Result<(), ParseInstrError<E>>
        returns
            Ok::<(), ParseInstrError<E>>(()),
    {
        Ok(())
    }

    fn i32_trunc_f64_s(&mut self) -> Result<(), ParseInstrError<E>>
        returns
            Ok::<(), ParseInstrError<E>>(()),
    {
        Ok(())
    }

    fn i32_trunc_f64_u(&mut self) -> Result<(), ParseInstrError<E>>
        returns
            Ok::<(), ParseInstrError<E>>(()),
    {
        Ok(())
    }

    fn i64_extend_i32_s(&mut self) -> Result<(), ParseInstrError<E>>
        returns
            Ok::<(), ParseInstrError<E>>(()),
    {
        Ok(())
    }

    fn i64_extend_i32_u(&mut self) -> Result<(), ParseInstrError<E>>
        returns
            Ok::<(), ParseInstrError<E>>(()),
    {
        Ok(())
    }

    fn i64_trunc_f32_s(&mut self) -> Result<(), ParseInstrError<E>>
        returns
            Ok::<(), ParseInstrError<E>>(()),
    {
        Ok(())
    }

    fn i64_trunc_f32_u(&mut self) -> Result<(), ParseInstrError<E>>
        returns
            Ok::<(), ParseInstrError<E>>(()),
    {
        Ok(())
    }

    fn i64_trunc_f64_s(&mut self) -> Result<(), ParseInstrError<E>>
        returns
            Ok::<(), ParseInstrError<E>>(()),
    {
        Ok(())
    }

    fn i64_trunc_f64_u(&mut self) -> Result<(), ParseInstrError<E>>
        returns
            Ok::<(), ParseInstrError<E>>(()),
    {
        Ok(())
    }

    fn f32_convert_i32_s(&mut self) -> Result<(), ParseInstrError<E>>
        returns
            Ok::<(), ParseInstrError<E>>(()),
    {
        Ok(())
    }

    fn f32_convert_i32_u(&mut self) -> Result<(), ParseInstrError<E>>
        returns
            Ok::<(), ParseInstrError<E>>(()),
    {
        Ok(())
    }

    fn f32_convert_i64_s(&mut self) -> Result<(), ParseInstrError<E>>
        returns
            Ok::<(), ParseInstrError<E>>(()),
    {
        Ok(())
    }

    fn f32_convert_i64_u(&mut self) -> Result<(), ParseInstrError<E>>
        returns
            Ok::<(), ParseInstrError<E>>(()),
    {
        Ok(())
    }

    fn f32_demote_f64(&mut self) -> Result<(), ParseInstrError<E>>
        returns
            Ok::<(), ParseInstrError<E>>(()),
    {
        Ok(())
    }

    fn f64_convert_i32_s(&mut self) -> Result<(), ParseInstrError<E>>
        returns
            Ok::<(), ParseInstrError<E>>(()),
    {
        Ok(())
    }

    fn f64_convert_i32_u(&mut self) -> Result<(), ParseInstrError<E>>
        returns
            Ok::<(), ParseInstrError<E>>(()),
    {
        Ok(())
    }

    fn f64_convert_i64_s(&mut self) -> Result<(), ParseInstrError<E>>
        returns
            Ok::<(), ParseInstrError<E>>(()),
    {
        Ok(())
    }

    fn f64_convert_i64_u(&mut self) -> Result<(), ParseInstrError<E>>
        returns
            Ok::<(), ParseInstrError<E>>(()),
    {
        Ok(())
    }

    fn f64_promote_f32(&mut self) -> Result<(), ParseInstrError<E>>
        returns
            Ok::<(), ParseInstrError<E>>(()),
    {
        Ok(())
    }

    fn i32_reinterpret_f32(&mut self) -> Result<(), ParseInstrError<E>>
        returns
            Ok::<(), ParseInstrError<E>>(()),
    {
        Ok(())
    }

    fn i64_reinterpret_f64(&mut self) -> Result<(), ParseInstrError<E>>
        returns
            Ok::<(), ParseInstrError<E>>(()),
    {
        Ok(())
    }

    fn f32_reinterpret_i32(&mut self) -> Result<(), ParseInstrError<E>>
        returns
            Ok::<(), ParseInstrError<E>>(()),
    {
        Ok(())
    }

    fn f64_reinterpret_i64(&mut self) -> Result<(), ParseInstrError<E>>
        returns
            Ok::<(), ParseInstrError<E>>(()),
    {
        Ok(())
    }

    fn i32_trunc_sat_f32_s(&mut self) -> Result<(), ParseInstrError<E>>
        returns
            Ok::<(), ParseInstrError<E>>(()),
    {
        Ok(())
    }

    fn i32_trunc_sat_f32_u(&mut self) -> Result<(), ParseInstrError<E>>
        returns
            Ok::<(), ParseInstrError<E>>(()),
    {
        Ok(())
    }

    fn i32_trunc_sat_f64_s(&mut self) -> Result<(), ParseInstrError<E>>
        returns
            Ok::<(), ParseInstrError<E>>(()),
    {
        Ok(())
    }

    fn i32_trunc_sat_f64_u(&mut self) -> Result<(), ParseInstrError<E>>
        returns
            Ok::<(), ParseInstrError<E>>(()),
    {
        Ok(())
    }

    fn i64_trunc_sat_f32_s(&mut self) -> Result<(), ParseInstrError<E>>
        returns
            Ok::<(), ParseInstrError<E>>(()),
    {
        Ok(())
    }

    fn i64_trunc_sat_f32_u(&mut self) -> Result<(), ParseInstrError<E>>
        returns
            Ok::<(), ParseInstrError<E>>(()),
    {
        Ok(())
    }

    fn i64_trunc_sat_f64_s(&mut self) -> Result<(), ParseInstrError<E>>
        returns
            Ok::<(), ParseInstrError<E>>(()),
    {
        Ok(())
    }

    fn i64_trunc_sat_f64_u(&mut self) -> Result<(), ParseInstrError<E>>
        returns
            Ok::<(), ParseInstrError<E>>(()),
    {
        Ok(())
    }

    fn i32_extend8_s(&mut self) -> Result<(), ParseInstrError<E>>
        returns
            Ok::<(), ParseInstrError<E>>(()),
    {
        Ok(())
    }

    fn i32_extend16_s(&mut self) -> Result<(), ParseInstrError<E>>
        returns
            Ok::<(), ParseInstrError<E>>(()),
    {
        Ok(())
    }

    fn i64_extend8_s(&mut self) -> Result<(), ParseInstrError<E>>
        returns
            Ok::<(), ParseInstrError<E>>(()),
    {
        Ok(())
    }

    fn i64_extend16_s(&mut self) -> Result<(), ParseInstrError<E>>
        returns
            Ok::<(), ParseInstrError<E>>(()),
    {
        Ok(())
    }

    fn i64_extend32_s(&mut self) -> Result<(), ParseInstrError<E>>
        returns
            Ok::<(), ParseInstrError<E>>(()),
    {
        Ok(())
    }

    fn memory_copy(&mut self, destination: MemIdx, source: MemIdx) -> Result<(), ParseInstrError<E>>
        returns
            Ok::<(), ParseInstrError<E>>(()),
    {
        let _ = (destination, source);
        Ok(())
    }

    fn memory_fill(&mut self, memory: MemIdx) -> Result<(), ParseInstrError<E>>
        returns
            Ok::<(), ParseInstrError<E>>(()),
    {
        let _ = memory;
        Ok(())
    }

    fn memory_init(&mut self, segment: DataIdx, memory: MemIdx) -> Result<(), ParseInstrError<E>>
        returns
            Ok::<(), ParseInstrError<E>>(()),
    {
        let _ = (segment, memory);
        Ok(())
    }

    fn data_drop(&mut self, segment: DataIdx) -> Result<(), ParseInstrError<E>>
        returns
            Ok::<(), ParseInstrError<E>>(()),
    {
        let _ = segment;
        Ok(())
    }

    fn table_copy(&mut self, destination: TableIdx, source: TableIdx) -> Result<(), ParseInstrError<E>>
        returns
            Ok::<(), ParseInstrError<E>>(()),
    {
        let _ = (destination, source);
        Ok(())
    }

    fn table_init(&mut self, segment: ElemIdx, table: TableIdx) -> Result<(), ParseInstrError<E>>
        returns
            Ok::<(), ParseInstrError<E>>(()),
    {
        let _ = (segment, table);
        Ok(())
    }

    fn elem_drop(&mut self, segment: ElemIdx) -> Result<(), ParseInstrError<E>>
        returns
            Ok::<(), ParseInstrError<E>>(()),
    {
        let _ = segment;
        Ok(())
    }

    fn ref_null(&mut self, reference_type: RefType) -> Result<(), ParseInstrError<E>>
        returns
            Ok::<(), ParseInstrError<E>>(()),
    {
        let _ = reference_type;
        Ok(())
    }

    fn ref_is_null(&mut self) -> Result<(), ParseInstrError<E>>
        returns
            Ok::<(), ParseInstrError<E>>(()),
    {
        Ok(())
    }

    fn ref_func(&mut self, target: FuncIdx) -> Result<(), ParseInstrError<E>>
        returns
            Ok::<(), ParseInstrError<E>>(()),
    {
        let _ = target;
        Ok(())
    }

    fn table_get(&mut self, table: TableIdx) -> Result<(), ParseInstrError<E>>
        returns
            Ok::<(), ParseInstrError<E>>(()),
    {
        let _ = table;
        Ok(())
    }

    fn table_set(&mut self, table: TableIdx) -> Result<(), ParseInstrError<E>>
        returns
            Ok::<(), ParseInstrError<E>>(()),
    {
        let _ = table;
        Ok(())
    }

    fn table_size(&mut self, table: TableIdx) -> Result<(), ParseInstrError<E>>
        returns
            Ok::<(), ParseInstrError<E>>(()),
    {
        let _ = table;
        Ok(())
    }

    fn table_grow(&mut self, table: TableIdx) -> Result<(), ParseInstrError<E>>
        returns
            Ok::<(), ParseInstrError<E>>(()),
    {
        let _ = table;
        Ok(())
    }

    fn table_fill(&mut self, table: TableIdx) -> Result<(), ParseInstrError<E>>
        returns
            Ok::<(), ParseInstrError<E>>(()),
    {
        let _ = table;
        Ok(())
    }

    fn v128_load(&mut self, arg: MemArg) -> Result<(), ParseInstrError<E>>
        returns
            Ok::<(), ParseInstrError<E>>(()),
    {
        let _ = arg;
        Ok(())
    }

    fn v128_load8x8_s(&mut self, arg: MemArg) -> Result<(), ParseInstrError<E>>
        returns
            Ok::<(), ParseInstrError<E>>(()),
    {
        let _ = arg;
        Ok(())
    }

    fn v128_load8x8_u(&mut self, arg: MemArg) -> Result<(), ParseInstrError<E>>
        returns
            Ok::<(), ParseInstrError<E>>(()),
    {
        let _ = arg;
        Ok(())
    }

    fn v128_load16x4_s(&mut self, arg: MemArg) -> Result<(), ParseInstrError<E>>
        returns
            Ok::<(), ParseInstrError<E>>(()),
    {
        let _ = arg;
        Ok(())
    }

    fn v128_load16x4_u(&mut self, arg: MemArg) -> Result<(), ParseInstrError<E>>
        returns
            Ok::<(), ParseInstrError<E>>(()),
    {
        let _ = arg;
        Ok(())
    }

    fn v128_load32x2_s(&mut self, arg: MemArg) -> Result<(), ParseInstrError<E>>
        returns
            Ok::<(), ParseInstrError<E>>(()),
    {
        let _ = arg;
        Ok(())
    }

    fn v128_load32x2_u(&mut self, arg: MemArg) -> Result<(), ParseInstrError<E>>
        returns
            Ok::<(), ParseInstrError<E>>(()),
    {
        let _ = arg;
        Ok(())
    }

    fn v128_load8_splat(&mut self, arg: MemArg) -> Result<(), ParseInstrError<E>>
        returns
            Ok::<(), ParseInstrError<E>>(()),
    {
        let _ = arg;
        Ok(())
    }

    fn v128_load16_splat(&mut self, arg: MemArg) -> Result<(), ParseInstrError<E>>
        returns
            Ok::<(), ParseInstrError<E>>(()),
    {
        let _ = arg;
        Ok(())
    }

    fn v128_load32_splat(&mut self, arg: MemArg) -> Result<(), ParseInstrError<E>>
        returns
            Ok::<(), ParseInstrError<E>>(()),
    {
        let _ = arg;
        Ok(())
    }

    fn v128_load64_splat(&mut self, arg: MemArg) -> Result<(), ParseInstrError<E>>
        returns
            Ok::<(), ParseInstrError<E>>(()),
    {
        let _ = arg;
        Ok(())
    }

    fn v128_load32_zero(&mut self, arg: MemArg) -> Result<(), ParseInstrError<E>>
        returns
            Ok::<(), ParseInstrError<E>>(()),
    {
        let _ = arg;
        Ok(())
    }

    fn v128_load64_zero(&mut self, arg: MemArg) -> Result<(), ParseInstrError<E>>
        returns
            Ok::<(), ParseInstrError<E>>(()),
    {
        let _ = arg;
        Ok(())
    }

    fn v128_store(&mut self, arg: MemArg) -> Result<(), ParseInstrError<E>>
        returns
            Ok::<(), ParseInstrError<E>>(()),
    {
        let _ = arg;
        Ok(())
    }

    fn v128_load8_lane(&mut self, arg: MemArg, lane: LaneIdx) -> Result<(), ParseInstrError<E>>
        returns
            Ok::<(), ParseInstrError<E>>(()),
    {
        let _ = (arg, lane);
        Ok(())
    }

    fn v128_load16_lane(&mut self, arg: MemArg, lane: LaneIdx) -> Result<(), ParseInstrError<E>>
        returns
            Ok::<(), ParseInstrError<E>>(()),
    {
        let _ = (arg, lane);
        Ok(())
    }

    fn v128_load32_lane(&mut self, arg: MemArg, lane: LaneIdx) -> Result<(), ParseInstrError<E>>
        returns
            Ok::<(), ParseInstrError<E>>(()),
    {
        let _ = (arg, lane);
        Ok(())
    }

    fn v128_load64_lane(&mut self, arg: MemArg, lane: LaneIdx) -> Result<(), ParseInstrError<E>>
        returns
            Ok::<(), ParseInstrError<E>>(()),
    {
        let _ = (arg, lane);
        Ok(())
    }

    fn v128_store8_lane(&mut self, arg: MemArg, lane: LaneIdx) -> Result<(), ParseInstrError<E>>
        returns
            Ok::<(), ParseInstrError<E>>(()),
    {
        let _ = (arg, lane);
        Ok(())
    }

    fn v128_store16_lane(&mut self, arg: MemArg, lane: LaneIdx) -> Result<(), ParseInstrError<E>>
        returns
            Ok::<(), ParseInstrError<E>>(()),
    {
        let _ = (arg, lane);
        Ok(())
    }

    fn v128_store32_lane(&mut self, arg: MemArg, lane: LaneIdx) -> Result<(), ParseInstrError<E>>
        returns
            Ok::<(), ParseInstrError<E>>(()),
    {
        let _ = (arg, lane);
        Ok(())
    }

    fn v128_store64_lane(&mut self, arg: MemArg, lane: LaneIdx) -> Result<(), ParseInstrError<E>>
        returns
            Ok::<(), ParseInstrError<E>>(()),
    {
        let _ = (arg, lane);
        Ok(())
    }

    fn v128_const(&mut self, v: V128) -> Result<(), ParseInstrError<E>>
        returns
            Ok::<(), ParseInstrError<E>>(()),
    {
        let _ = v;
        Ok(())
    }

    fn i8x16_shuffle(&mut self, lanes: V128ShuffleLanes) -> Result<(), ParseInstrError<E>>
        returns
            Ok::<(), ParseInstrError<E>>(()),
    {
        let _ = lanes;
        Ok(())
    }

    fn i8x16_swizzle(&mut self) -> Result<(), ParseInstrError<E>>
        returns
            Ok::<(), ParseInstrError<E>>(()),
    {
        Ok(())
    }

    fn i8x16_splat(&mut self) -> Result<(), ParseInstrError<E>>
        returns
            Ok::<(), ParseInstrError<E>>(()),
    {
        Ok(())
    }

    fn i16x8_splat(&mut self) -> Result<(), ParseInstrError<E>>
        returns
            Ok::<(), ParseInstrError<E>>(()),
    {
        Ok(())
    }

    fn i32x4_splat(&mut self) -> Result<(), ParseInstrError<E>>
        returns
            Ok::<(), ParseInstrError<E>>(()),
    {
        Ok(())
    }

    fn i64x2_splat(&mut self) -> Result<(), ParseInstrError<E>>
        returns
            Ok::<(), ParseInstrError<E>>(()),
    {
        Ok(())
    }

    fn f32x4_splat(&mut self) -> Result<(), ParseInstrError<E>>
        returns
            Ok::<(), ParseInstrError<E>>(()),
    {
        Ok(())
    }

    fn f64x2_splat(&mut self) -> Result<(), ParseInstrError<E>>
        returns
            Ok::<(), ParseInstrError<E>>(()),
    {
        Ok(())
    }

    fn i8x16_extract_lane_s(&mut self, lane: LaneIdx) -> Result<(), ParseInstrError<E>>
        returns
            Ok::<(), ParseInstrError<E>>(()),
    {
        let _ = lane;
        Ok(())
    }

    fn i8x16_extract_lane_u(&mut self, lane: LaneIdx) -> Result<(), ParseInstrError<E>>
        returns
            Ok::<(), ParseInstrError<E>>(()),
    {
        let _ = lane;
        Ok(())
    }

    fn i8x16_replace_lane(&mut self, lane: LaneIdx) -> Result<(), ParseInstrError<E>>
        returns
            Ok::<(), ParseInstrError<E>>(()),
    {
        let _ = lane;
        Ok(())
    }

    fn i16x8_extract_lane_s(&mut self, lane: LaneIdx) -> Result<(), ParseInstrError<E>>
        returns
            Ok::<(), ParseInstrError<E>>(()),
    {
        let _ = lane;
        Ok(())
    }

    fn i16x8_extract_lane_u(&mut self, lane: LaneIdx) -> Result<(), ParseInstrError<E>>
        returns
            Ok::<(), ParseInstrError<E>>(()),
    {
        let _ = lane;
        Ok(())
    }

    fn i16x8_replace_lane(&mut self, lane: LaneIdx) -> Result<(), ParseInstrError<E>>
        returns
            Ok::<(), ParseInstrError<E>>(()),
    {
        let _ = lane;
        Ok(())
    }

    fn i32x4_extract_lane(&mut self, lane: LaneIdx) -> Result<(), ParseInstrError<E>>
        returns
            Ok::<(), ParseInstrError<E>>(()),
    {
        let _ = lane;
        Ok(())
    }

    fn i32x4_replace_lane(&mut self, lane: LaneIdx) -> Result<(), ParseInstrError<E>>
        returns
            Ok::<(), ParseInstrError<E>>(()),
    {
        let _ = lane;
        Ok(())
    }

    fn i64x2_extract_lane(&mut self, lane: LaneIdx) -> Result<(), ParseInstrError<E>>
        returns
            Ok::<(), ParseInstrError<E>>(()),
    {
        let _ = lane;
        Ok(())
    }

    fn i64x2_replace_lane(&mut self, lane: LaneIdx) -> Result<(), ParseInstrError<E>>
        returns
            Ok::<(), ParseInstrError<E>>(()),
    {
        let _ = lane;
        Ok(())
    }

    fn f32x4_extract_lane(&mut self, lane: LaneIdx) -> Result<(), ParseInstrError<E>>
        returns
            Ok::<(), ParseInstrError<E>>(()),
    {
        let _ = lane;
        Ok(())
    }

    fn f32x4_replace_lane(&mut self, lane: LaneIdx) -> Result<(), ParseInstrError<E>>
        returns
            Ok::<(), ParseInstrError<E>>(()),
    {
        let _ = lane;
        Ok(())
    }

    fn f64x4_extract_lane(&mut self, lane: LaneIdx) -> Result<(), ParseInstrError<E>>
        returns
            Ok::<(), ParseInstrError<E>>(()),
    {
        let _ = lane;
        Ok(())
    }

    fn f64x4_replace_lane(&mut self, lane: LaneIdx) -> Result<(), ParseInstrError<E>>
        returns
            Ok::<(), ParseInstrError<E>>(()),
    {
        let _ = lane;
        Ok(())
    }

    fn i8x16_eq(&mut self) -> Result<(), ParseInstrError<E>>
        returns
            Ok::<(), ParseInstrError<E>>(()),
    {
        Ok(())
    }

    fn i8x16_ne(&mut self) -> Result<(), ParseInstrError<E>>
        returns
            Ok::<(), ParseInstrError<E>>(()),
    {
        Ok(())
    }

    fn i8x16_lt_s(&mut self) -> Result<(), ParseInstrError<E>>
        returns
            Ok::<(), ParseInstrError<E>>(()),
    {
        Ok(())
    }

    fn i8x16_lt_u(&mut self) -> Result<(), ParseInstrError<E>>
        returns
            Ok::<(), ParseInstrError<E>>(()),
    {
        Ok(())
    }

    fn i8x16_gt_s(&mut self) -> Result<(), ParseInstrError<E>>
        returns
            Ok::<(), ParseInstrError<E>>(()),
    {
        Ok(())
    }

    fn i8x16_gt_u(&mut self) -> Result<(), ParseInstrError<E>>
        returns
            Ok::<(), ParseInstrError<E>>(()),
    {
        Ok(())
    }

    fn i8x16_le_s(&mut self) -> Result<(), ParseInstrError<E>>
        returns
            Ok::<(), ParseInstrError<E>>(()),
    {
        Ok(())
    }

    fn i8x16_le_u(&mut self) -> Result<(), ParseInstrError<E>>
        returns
            Ok::<(), ParseInstrError<E>>(()),
    {
        Ok(())
    }

    fn i8x16_ge_s(&mut self) -> Result<(), ParseInstrError<E>>
        returns
            Ok::<(), ParseInstrError<E>>(()),
    {
        Ok(())
    }

    fn i8x16_ge_u(&mut self) -> Result<(), ParseInstrError<E>>
        returns
            Ok::<(), ParseInstrError<E>>(()),
    {
        Ok(())
    }

    fn i16x8_eq(&mut self) -> Result<(), ParseInstrError<E>>
        returns
            Ok::<(), ParseInstrError<E>>(()),
    {
        Ok(())
    }

    fn i16x8_ne(&mut self) -> Result<(), ParseInstrError<E>>
        returns
            Ok::<(), ParseInstrError<E>>(()),
    {
        Ok(())
    }

    fn i16x8_lt_s(&mut self) -> Result<(), ParseInstrError<E>>
        returns
            Ok::<(), ParseInstrError<E>>(()),
    {
        Ok(())
    }

    fn i16x8_lt_u(&mut self) -> Result<(), ParseInstrError<E>>
        returns
            Ok::<(), ParseInstrError<E>>(()),
    {
        Ok(())
    }

    fn i16x8_gt_s(&mut self) -> Result<(), ParseInstrError<E>>
        returns
            Ok::<(), ParseInstrError<E>>(()),
    {
        Ok(())
    }

    fn i16x8_gt_u(&mut self) -> Result<(), ParseInstrError<E>>
        returns
            Ok::<(), ParseInstrError<E>>(()),
    {
        Ok(())
    }

    fn i16x8_le_s(&mut self) -> Result<(), ParseInstrError<E>>
        returns
            Ok::<(), ParseInstrError<E>>(()),
    {
        Ok(())
    }

    fn i16x8_le_u(&mut self) -> Result<(), ParseInstrError<E>>
        returns
            Ok::<(), ParseInstrError<E>>(()),
    {
        Ok(())
    }

    fn i16x8_ge_s(&mut self) -> Result<(), ParseInstrError<E>>
        returns
            Ok::<(), ParseInstrError<E>>(()),
    {
        Ok(())
    }

    fn i16x8_ge_u(&mut self) -> Result<(), ParseInstrError<E>>
        returns
            Ok::<(), ParseInstrError<E>>(()),
    {
        Ok(())
    }

    fn i32x4_eq(&mut self) -> Result<(), ParseInstrError<E>>
        returns
            Ok::<(), ParseInstrError<E>>(()),
    {
        Ok(())
    }

    fn i32x4_ne(&mut self) -> Result<(), ParseInstrError<E>>
        returns
            Ok::<(), ParseInstrError<E>>(()),
    {
        Ok(())
    }

    fn i32x4_lt_s(&mut self) -> Result<(), ParseInstrError<E>>
        returns
            Ok::<(), ParseInstrError<E>>(()),
    {
        Ok(())
    }

    fn i32x4_lt_u(&mut self) -> Result<(), ParseInstrError<E>>
        returns
            Ok::<(), ParseInstrError<E>>(()),
    {
        Ok(())
    }

    fn i32x4_gt_s(&mut self) -> Result<(), ParseInstrError<E>>
        returns
            Ok::<(), ParseInstrError<E>>(()),
    {
        Ok(())
    }

    fn i32x4_gt_u(&mut self) -> Result<(), ParseInstrError<E>>
        returns
            Ok::<(), ParseInstrError<E>>(()),
    {
        Ok(())
    }

    fn i32x4_le_s(&mut self) -> Result<(), ParseInstrError<E>>
        returns
            Ok::<(), ParseInstrError<E>>(()),
    {
        Ok(())
    }

    fn i32x4_le_u(&mut self) -> Result<(), ParseInstrError<E>>
        returns
            Ok::<(), ParseInstrError<E>>(()),
    {
        Ok(())
    }

    fn i32x4_ge_s(&mut self) -> Result<(), ParseInstrError<E>>
        returns
            Ok::<(), ParseInstrError<E>>(()),
    {
        Ok(())
    }

    fn i32x4_ge_u(&mut self) -> Result<(), ParseInstrError<E>>
        returns
            Ok::<(), ParseInstrError<E>>(()),
    {
        Ok(())
    }

    fn f32x4_eq(&mut self) -> Result<(), ParseInstrError<E>>
        returns
            Ok::<(), ParseInstrError<E>>(()),
    {
        Ok(())
    }

    fn f32x4_ne(&mut self) -> Result<(), ParseInstrError<E>>
        returns
            Ok::<(), ParseInstrError<E>>(()),
    {
        Ok(())
    }

    fn f32x4_lt(&mut self) -> Result<(), ParseInstrError<E>>
        returns
            Ok::<(), ParseInstrError<E>>(()),
    {
        Ok(())
    }

    fn f32x4_gt(&mut self) -> Result<(), ParseInstrError<E>>
        returns
            Ok::<(), ParseInstrError<E>>(()),
    {
        Ok(())
    }

    fn f32x4_le(&mut self) -> Result<(), ParseInstrError<E>>
        returns
            Ok::<(), ParseInstrError<E>>(()),
    {
        Ok(())
    }

    fn f32x4_ge(&mut self) -> Result<(), ParseInstrError<E>>
        returns
            Ok::<(), ParseInstrError<E>>(()),
    {
        Ok(())
    }

    fn f64x2_eq(&mut self) -> Result<(), ParseInstrError<E>>
        returns
            Ok::<(), ParseInstrError<E>>(()),
    {
        Ok(())
    }

    fn f64x2_ne(&mut self) -> Result<(), ParseInstrError<E>>
        returns
            Ok::<(), ParseInstrError<E>>(()),
    {
        Ok(())
    }

    fn f64x2_lt(&mut self) -> Result<(), ParseInstrError<E>>
        returns
            Ok::<(), ParseInstrError<E>>(()),
    {
        Ok(())
    }

    fn f64x2_gt(&mut self) -> Result<(), ParseInstrError<E>>
        returns
            Ok::<(), ParseInstrError<E>>(()),
    {
        Ok(())
    }

    fn f64x2_le(&mut self) -> Result<(), ParseInstrError<E>>
        returns
            Ok::<(), ParseInstrError<E>>(()),
    {
        Ok(())
    }

    fn f64x2_ge(&mut self) -> Result<(), ParseInstrError<E>>
        returns
            Ok::<(), ParseInstrError<E>>(()),
    {
        Ok(())
    }

    fn v128_not(&mut self) -> Result<(), ParseInstrError<E>>
        returns
            Ok::<(), ParseInstrError<E>>(()),
    {
        Ok(())
    }

    fn v128_and(&mut self) -> Result<(), ParseInstrError<E>>
        returns
            Ok::<(), ParseInstrError<E>>(()),
    {
        Ok(())
    }

    fn v128_andnot(&mut self) -> Result<(), ParseInstrError<E>>
        returns
            Ok::<(), ParseInstrError<E>>(()),
    {
        Ok(())
    }

    fn v128_or(&mut self) -> Result<(), ParseInstrError<E>>
        returns
            Ok::<(), ParseInstrError<E>>(()),
    {
        Ok(())
    }

    fn v128_xor(&mut self) -> Result<(), ParseInstrError<E>>
        returns
            Ok::<(), ParseInstrError<E>>(()),
    {
        Ok(())
    }

    fn v128_bitselect(&mut self) -> Result<(), ParseInstrError<E>>
        returns
            Ok::<(), ParseInstrError<E>>(()),
    {
        Ok(())
    }

    fn v128_any_true(&mut self) -> Result<(), ParseInstrError<E>>
        returns
            Ok::<(), ParseInstrError<E>>(()),
    {
        Ok(())
    }

    fn f32x4_demote_f64x2_zero(&mut self) -> Result<(), ParseInstrError<E>>
        returns
            Ok::<(), ParseInstrError<E>>(()),
    {
        Ok(())
    }

    fn f64x2_promote_low_f32x4(&mut self) -> Result<(), ParseInstrError<E>>
        returns
            Ok::<(), ParseInstrError<E>>(()),
    {
        Ok(())
    }

    fn i8x16_abs(&mut self) -> Result<(), ParseInstrError<E>>
        returns
            Ok::<(), ParseInstrError<E>>(()),
    {
        Ok(())
    }

    fn i8x16_neg(&mut self) -> Result<(), ParseInstrError<E>>
        returns
            Ok::<(), ParseInstrError<E>>(()),
    {
        Ok(())
    }

    fn i8x16_popcnt(&mut self) -> Result<(), ParseInstrError<E>>
        returns
            Ok::<(), ParseInstrError<E>>(()),
    {
        Ok(())
    }

    fn i8x16_all_true(&mut self) -> Result<(), ParseInstrError<E>>
        returns
            Ok::<(), ParseInstrError<E>>(()),
    {
        Ok(())
    }

    fn i8x16_bitmask(&mut self) -> Result<(), ParseInstrError<E>>
        returns
            Ok::<(), ParseInstrError<E>>(()),
    {
        Ok(())
    }

    fn i8x16_narrow_i16x8_s(&mut self) -> Result<(), ParseInstrError<E>>
        returns
            Ok::<(), ParseInstrError<E>>(()),
    {
        Ok(())
    }

    fn i8x16_narrow_i16x8_u(&mut self) -> Result<(), ParseInstrError<E>>
        returns
            Ok::<(), ParseInstrError<E>>(()),
    {
        Ok(())
    }

    fn f32x4_ceil(&mut self) -> Result<(), ParseInstrError<E>>
        returns
            Ok::<(), ParseInstrError<E>>(()),
    {
        Ok(())
    }

    fn f32x4_floor(&mut self) -> Result<(), ParseInstrError<E>>
        returns
            Ok::<(), ParseInstrError<E>>(()),
    {
        Ok(())
    }

    fn f32x4_trunc(&mut self) -> Result<(), ParseInstrError<E>>
        returns
            Ok::<(), ParseInstrError<E>>(()),
    {
        Ok(())
    }

    fn f32x4_nearest(&mut self) -> Result<(), ParseInstrError<E>>
        returns
            Ok::<(), ParseInstrError<E>>(()),
    {
        Ok(())
    }

    fn i8x16_shl(&mut self) -> Result<(), ParseInstrError<E>>
        returns
            Ok::<(), ParseInstrError<E>>(()),
    {
        Ok(())
    }

    fn i8x16_shr_s(&mut self) -> Result<(), ParseInstrError<E>>
        returns
            Ok::<(), ParseInstrError<E>>(()),
    {
        Ok(())
    }

    fn i8x16_shr_u(&mut self) -> Result<(), ParseInstrError<E>>
        returns
            Ok::<(), ParseInstrError<E>>(()),
    {
        Ok(())
    }

    fn i8x16_add(&mut self) -> Result<(), ParseInstrError<E>>
        returns
            Ok::<(), ParseInstrError<E>>(()),
    {
        Ok(())
    }

    fn i8x16_add_sat_s(&mut self) -> Result<(), ParseInstrError<E>>
        returns
            Ok::<(), ParseInstrError<E>>(()),
    {
        Ok(())
    }

    fn i8x16_add_sat_u(&mut self) -> Result<(), ParseInstrError<E>>
        returns
            Ok::<(), ParseInstrError<E>>(()),
    {
        Ok(())
    }

    fn i8x16_sub(&mut self) -> Result<(), ParseInstrError<E>>
        returns
            Ok::<(), ParseInstrError<E>>(()),
    {
        Ok(())
    }

    fn i8x16_sub_sat_s(&mut self) -> Result<(), ParseInstrError<E>>
        returns
            Ok::<(), ParseInstrError<E>>(()),
    {
        Ok(())
    }

    fn i8x16_sub_sat_u(&mut self) -> Result<(), ParseInstrError<E>>
        returns
            Ok::<(), ParseInstrError<E>>(()),
    {
        Ok(())
    }

    fn f64x2_ceil(&mut self) -> Result<(), ParseInstrError<E>>
        returns
            Ok::<(), ParseInstrError<E>>(()),
    {
        Ok(())
    }

    fn f64x2_floor(&mut self) -> Result<(), ParseInstrError<E>>
        returns
            Ok::<(), ParseInstrError<E>>(()),
    {
        Ok(())
    }

    fn i8x16_min_s(&mut self) -> Result<(), ParseInstrError<E>>
        returns
            Ok::<(), ParseInstrError<E>>(()),
    {
        Ok(())
    }

    fn i8x16_min_u(&mut self) -> Result<(), ParseInstrError<E>>
        returns
            Ok::<(), ParseInstrError<E>>(()),
    {
        Ok(())
    }

    fn i8x16_max_s(&mut self) -> Result<(), ParseInstrError<E>>
        returns
            Ok::<(), ParseInstrError<E>>(()),
    {
        Ok(())
    }

    fn i8x16_max_u(&mut self) -> Result<(), ParseInstrError<E>>
        returns
            Ok::<(), ParseInstrError<E>>(()),
    {
        Ok(())
    }

    fn f64x2_trunc(&mut self) -> Result<(), ParseInstrError<E>>
        returns
            Ok::<(), ParseInstrError<E>>(()),
    {
        Ok(())
    }

    fn i8x16_avgr_u(&mut self) -> Result<(), ParseInstrError<E>>
        returns
            Ok::<(), ParseInstrError<E>>(()),
    {
        Ok(())
    }

    fn i16x8_extadd_pairwise_i8x16_s(&mut self) -> Result<(), ParseInstrError<E>>
        returns
            Ok::<(), ParseInstrError<E>>(()),
    {
        Ok(())
    }

    fn i16x8_extadd_pairwise_i8x16_u(&mut self) -> Result<(), ParseInstrError<E>>
        returns
            Ok::<(), ParseInstrError<E>>(()),
    {
        Ok(())
    }

    fn i32x4_extadd_pairwise_i16x8_s(&mut self) -> Result<(), ParseInstrError<E>>
        returns
            Ok::<(), ParseInstrError<E>>(()),
    {
        Ok(())
    }

    fn i32x4_extadd_pairwise_i16x8_u(&mut self) -> Result<(), ParseInstrError<E>>
        returns
            Ok::<(), ParseInstrError<E>>(()),
    {
        Ok(())
    }

    fn i16x8_abs(&mut self) -> Result<(), ParseInstrError<E>>
        returns
            Ok::<(), ParseInstrError<E>>(()),
    {
        Ok(())
    }

    fn i16x8_neg(&mut self) -> Result<(), ParseInstrError<E>>
        returns
            Ok::<(), ParseInstrError<E>>(()),
    {
        Ok(())
    }

    fn i16x8_q15mulr_sat_s(&mut self) -> Result<(), ParseInstrError<E>>
        returns
            Ok::<(), ParseInstrError<E>>(()),
    {
        Ok(())
    }

    fn i16x8_all_true(&mut self) -> Result<(), ParseInstrError<E>>
        returns
            Ok::<(), ParseInstrError<E>>(()),
    {
        Ok(())
    }

    fn i16x8_bitmask(&mut self) -> Result<(), ParseInstrError<E>>
        returns
            Ok::<(), ParseInstrError<E>>(()),
    {
        Ok(())
    }

    fn i16x8_narrow_i32x4_s(&mut self) -> Result<(), ParseInstrError<E>>
        returns
            Ok::<(), ParseInstrError<E>>(()),
    {
        Ok(())
    }

    fn i16x8_narrow_i32x4_u(&mut self) -> Result<(), ParseInstrError<E>>
        returns
            Ok::<(), ParseInstrError<E>>(()),
    {
        Ok(())
    }

    fn i16x8_extend_low_i8x16_s(&mut self) -> Result<(), ParseInstrError<E>>
        returns
            Ok::<(), ParseInstrError<E>>(()),
    {
        Ok(())
    }

    fn i16x8_extend_high_i8x16_s(&mut self) -> Result<(), ParseInstrError<E>>
        returns
            Ok::<(), ParseInstrError<E>>(()),
    {
        Ok(())
    }

    fn i16x8_extend_low_i8x16_u(&mut self) -> Result<(), ParseInstrError<E>>
        returns
            Ok::<(), ParseInstrError<E>>(()),
    {
        Ok(())
    }

    fn i16x8_extend_high_i8x16_u(&mut self) -> Result<(), ParseInstrError<E>>
        returns
            Ok::<(), ParseInstrError<E>>(()),
    {
        Ok(())
    }

    fn i16x8_shl(&mut self) -> Result<(), ParseInstrError<E>>
        returns
            Ok::<(), ParseInstrError<E>>(()),
    {
        Ok(())
    }

    fn i16x8_shr_s(&mut self) -> Result<(), ParseInstrError<E>>
        returns
            Ok::<(), ParseInstrError<E>>(()),
    {
        Ok(())
    }

    fn i16x8_shr_u(&mut self) -> Result<(), ParseInstrError<E>>
        returns
            Ok::<(), ParseInstrError<E>>(()),
    {
        Ok(())
    }

    fn i16x8_add(&mut self) -> Result<(), ParseInstrError<E>>
        returns
            Ok::<(), ParseInstrError<E>>(()),
    {
        Ok(())
    }

    fn i16x8_add_sat_s(&mut self) -> Result<(), ParseInstrError<E>>
        returns
            Ok::<(), ParseInstrError<E>>(()),
    {
        Ok(())
    }

    fn i16x8_add_sat_u(&mut self) -> Result<(), ParseInstrError<E>>
        returns
            Ok::<(), ParseInstrError<E>>(()),
    {
        Ok(())
    }

    fn i16x8_sub(&mut self) -> Result<(), ParseInstrError<E>>
        returns
            Ok::<(), ParseInstrError<E>>(()),
    {
        Ok(())
    }

    fn i16x8_sub_sat_s(&mut self) -> Result<(), ParseInstrError<E>>
        returns
            Ok::<(), ParseInstrError<E>>(()),
    {
        Ok(())
    }

    fn i16x8_sub_sat_u(&mut self) -> Result<(), ParseInstrError<E>>
        returns
            Ok::<(), ParseInstrError<E>>(()),
    {
        Ok(())
    }

    fn f64x2_nearest(&mut self) -> Result<(), ParseInstrError<E>>
        returns
            Ok::<(), ParseInstrError<E>>(()),
    {
        Ok(())
    }

    fn i16x8_mul(&mut self) -> Result<(), ParseInstrError<E>>
        returns
            Ok::<(), ParseInstrError<E>>(()),
    {
        Ok(())
    }

    fn i16x8_min_s(&mut self) -> Result<(), ParseInstrError<E>>
        returns
            Ok::<(), ParseInstrError<E>>(()),
    {
        Ok(())
    }

    fn i16x8_min_u(&mut self) -> Result<(), ParseInstrError<E>>
        returns
            Ok::<(), ParseInstrError<E>>(()),
    {
        Ok(())
    }

    fn i16x8_max_s(&mut self) -> Result<(), ParseInstrError<E>>
        returns
            Ok::<(), ParseInstrError<E>>(()),
    {
        Ok(())
    }

    fn i16x8_max_u(&mut self) -> Result<(), ParseInstrError<E>>
        returns
            Ok::<(), ParseInstrError<E>>(()),
    {
        Ok(())
    }

    fn i16x8_avgr_u(&mut self) -> Result<(), ParseInstrError<E>>
        returns
            Ok::<(), ParseInstrError<E>>(()),
    {
        Ok(())
    }

    fn i16x8_extmul_low_i8x16_s(&mut self) -> Result<(), ParseInstrError<E>>
        returns
            Ok::<(), ParseInstrError<E>>(()),
    {
        Ok(())
    }

    fn i16x8_extmul_high_i8x16_s(&mut self) -> Result<(), ParseInstrError<E>>
        returns
            Ok::<(), ParseInstrError<E>>(()),
    {
        Ok(())
    }

    fn i16x8_extmul_low_i8x16_u(&mut self) -> Result<(), ParseInstrError<E>>
        returns
            Ok::<(), ParseInstrError<E>>(()),
    {
        Ok(())
    }

    fn i16x8_extmul_high_i8x16_u(&mut self) -> Result<(), ParseInstrError<E>>
        returns
            Ok::<(), ParseInstrError<E>>(()),
    {
        Ok(())
    }

    fn i32x4_abs(&mut self) -> Result<(), ParseInstrError<E>>
        returns
            Ok::<(), ParseInstrError<E>>(()),
    {
        Ok(())
    }

    fn i32x4_neg(&mut self) -> Result<(), ParseInstrError<E>>
        returns
            Ok::<(), ParseInstrError<E>>(()),
    {
        Ok(())
    }

    fn i32x4_all_true(&mut self) -> Result<(), ParseInstrError<E>>
        returns
            Ok::<(), ParseInstrError<E>>(()),
    {
        Ok(())
    }

    fn i32x4_bitmask(&mut self) -> Result<(), ParseInstrError<E>>
        returns
            Ok::<(), ParseInstrError<E>>(()),
    {
        Ok(())
    }

    fn i32x4_extend_low_i16x8_s(&mut self) -> Result<(), ParseInstrError<E>>
        returns
            Ok::<(), ParseInstrError<E>>(()),
    {
        Ok(())
    }

    fn i32x4_extend_high_i16x8_s(&mut self) -> Result<(), ParseInstrError<E>>
        returns
            Ok::<(), ParseInstrError<E>>(()),
    {
        Ok(())
    }

    fn i32x4_extend_low_i16x8_u(&mut self) -> Result<(), ParseInstrError<E>>
        returns
            Ok::<(), ParseInstrError<E>>(()),
    {
        Ok(())
    }

    fn i32x4_extend_high_i16x8_u(&mut self) -> Result<(), ParseInstrError<E>>
        returns
            Ok::<(), ParseInstrError<E>>(()),
    {
        Ok(())
    }

    fn i32x4_shl(&mut self) -> Result<(), ParseInstrError<E>>
        returns
            Ok::<(), ParseInstrError<E>>(()),
    {
        Ok(())
    }

    fn i32x4_shr_s(&mut self) -> Result<(), ParseInstrError<E>>
        returns
            Ok::<(), ParseInstrError<E>>(()),
    {
        Ok(())
    }

    fn i32x4_shr_u(&mut self) -> Result<(), ParseInstrError<E>>
        returns
            Ok::<(), ParseInstrError<E>>(()),
    {
        Ok(())
    }

    fn i32x4_add(&mut self) -> Result<(), ParseInstrError<E>>
        returns
            Ok::<(), ParseInstrError<E>>(()),
    {
        Ok(())
    }

    fn i32x4_sub(&mut self) -> Result<(), ParseInstrError<E>>
        returns
            Ok::<(), ParseInstrError<E>>(()),
    {
        Ok(())
    }

    fn i32x4_mul(&mut self) -> Result<(), ParseInstrError<E>>
        returns
            Ok::<(), ParseInstrError<E>>(()),
    {
        Ok(())
    }

    fn i32x4_min_s(&mut self) -> Result<(), ParseInstrError<E>>
        returns
            Ok::<(), ParseInstrError<E>>(()),
    {
        Ok(())
    }

    fn i32x4_min_u(&mut self) -> Result<(), ParseInstrError<E>>
        returns
            Ok::<(), ParseInstrError<E>>(()),
    {
        Ok(())
    }

    fn i32x4_max_s(&mut self) -> Result<(), ParseInstrError<E>>
        returns
            Ok::<(), ParseInstrError<E>>(()),
    {
        Ok(())
    }

    fn i32x4_max_u(&mut self) -> Result<(), ParseInstrError<E>>
        returns
            Ok::<(), ParseInstrError<E>>(()),
    {
        Ok(())
    }

    fn i32x4_dot_i16x8_s(&mut self) -> Result<(), ParseInstrError<E>>
        returns
            Ok::<(), ParseInstrError<E>>(()),
    {
        Ok(())
    }

    fn i32x4_extmul_low_i16x8_s(&mut self) -> Result<(), ParseInstrError<E>>
        returns
            Ok::<(), ParseInstrError<E>>(()),
    {
        Ok(())
    }

    fn i32x4_extmul_high_i16x8_s(&mut self) -> Result<(), ParseInstrError<E>>
        returns
            Ok::<(), ParseInstrError<E>>(()),
    {
        Ok(())
    }

    fn i32x4_extmul_low_i16x8_u(&mut self) -> Result<(), ParseInstrError<E>>
        returns
            Ok::<(), ParseInstrError<E>>(()),
    {
        Ok(())
    }

    fn i32x4_extmul_high_i16x8_u(&mut self) -> Result<(), ParseInstrError<E>>
        returns
            Ok::<(), ParseInstrError<E>>(()),
    {
        Ok(())
    }

    fn i64x2_abs(&mut self) -> Result<(), ParseInstrError<E>>
        returns
            Ok::<(), ParseInstrError<E>>(()),
    {
        Ok(())
    }

    fn i64x2_neg(&mut self) -> Result<(), ParseInstrError<E>>
        returns
            Ok::<(), ParseInstrError<E>>(()),
    {
        Ok(())
    }

    fn i64x2_all_true(&mut self) -> Result<(), ParseInstrError<E>>
        returns
            Ok::<(), ParseInstrError<E>>(()),
    {
        Ok(())
    }

    fn i64x2_bitmask(&mut self) -> Result<(), ParseInstrError<E>>
        returns
            Ok::<(), ParseInstrError<E>>(()),
    {
        Ok(())
    }

    fn i64x2_extend_low_i32x4_s(&mut self) -> Result<(), ParseInstrError<E>>
        returns
            Ok::<(), ParseInstrError<E>>(()),
    {
        Ok(())
    }

    fn i64x2_extend_high_i32x4_s(&mut self) -> Result<(), ParseInstrError<E>>
        returns
            Ok::<(), ParseInstrError<E>>(()),
    {
        Ok(())
    }

    fn i64x2_extend_low_i32x4_u(&mut self) -> Result<(), ParseInstrError<E>>
        returns
            Ok::<(), ParseInstrError<E>>(()),
    {
        Ok(())
    }

    fn i64x2_extend_high_i32x4_u(&mut self) -> Result<(), ParseInstrError<E>>
        returns
            Ok::<(), ParseInstrError<E>>(()),
    {
        Ok(())
    }

    fn i64x2_shl(&mut self) -> Result<(), ParseInstrError<E>>
        returns
            Ok::<(), ParseInstrError<E>>(()),
    {
        Ok(())
    }

    fn i64x2_shr_s(&mut self) -> Result<(), ParseInstrError<E>>
        returns
            Ok::<(), ParseInstrError<E>>(()),
    {
        Ok(())
    }

    fn i64x2_shr_u(&mut self) -> Result<(), ParseInstrError<E>>
        returns
            Ok::<(), ParseInstrError<E>>(()),
    {
        Ok(())
    }

    fn i64x2_add(&mut self) -> Result<(), ParseInstrError<E>>
        returns
            Ok::<(), ParseInstrError<E>>(()),
    {
        Ok(())
    }

    fn i64x2_sub(&mut self) -> Result<(), ParseInstrError<E>>
        returns
            Ok::<(), ParseInstrError<E>>(()),
    {
        Ok(())
    }

    fn i64x2_mul(&mut self) -> Result<(), ParseInstrError<E>>
        returns
            Ok::<(), ParseInstrError<E>>(()),
    {
        Ok(())
    }

    fn i64x2_eq(&mut self) -> Result<(), ParseInstrError<E>>
        returns
            Ok::<(), ParseInstrError<E>>(()),
    {
        Ok(())
    }

    fn i64x2_ne(&mut self) -> Result<(), ParseInstrError<E>>
        returns
            Ok::<(), ParseInstrError<E>>(()),
    {
        Ok(())
    }

    fn i64x2_lt_s(&mut self) -> Result<(), ParseInstrError<E>>
        returns
            Ok::<(), ParseInstrError<E>>(()),
    {
        Ok(())
    }

    fn i64x2_gt_s(&mut self) -> Result<(), ParseInstrError<E>>
        returns
            Ok::<(), ParseInstrError<E>>(()),
    {
        Ok(())
    }

    fn i64x2_le_s(&mut self) -> Result<(), ParseInstrError<E>>
        returns
            Ok::<(), ParseInstrError<E>>(()),
    {
        Ok(())
    }

    fn i64x2_ge_s(&mut self) -> Result<(), ParseInstrError<E>>
        returns
            Ok::<(), ParseInstrError<E>>(()),
    {
        Ok(())
    }

    fn i64x2_extmul_low_i32x4_s(&mut self) -> Result<(), ParseInstrError<E>>
        returns
            Ok::<(), ParseInstrError<E>>(()),
    {
        Ok(())
    }

    fn i64x2_extmul_high_i32x4_s(&mut self) -> Result<(), ParseInstrError<E>>
        returns
            Ok::<(), ParseInstrError<E>>(()),
    {
        Ok(())
    }

    fn i64x2_extmul_low_i32x4_u(&mut self) -> Result<(), ParseInstrError<E>>
        returns
            Ok::<(), ParseInstrError<E>>(()),
    {
        Ok(())
    }

    fn i64x2_extmul_high_i32x4_u(&mut self) -> Result<(), ParseInstrError<E>>
        returns
            Ok::<(), ParseInstrError<E>>(()),
    {
        Ok(())
    }

    fn f32x4_abs(&mut self) -> Result<(), ParseInstrError<E>>
        returns
            Ok::<(), ParseInstrError<E>>(()),
    {
        Ok(())
    }

    fn f32x4_neg(&mut self) -> Result<(), ParseInstrError<E>>
        returns
            Ok::<(), ParseInstrError<E>>(()),
    {
        Ok(())
    }

    fn f32x4_sqrt(&mut self) -> Result<(), ParseInstrError<E>>
        returns
            Ok::<(), ParseInstrError<E>>(()),
    {
        Ok(())
    }

    fn f32x4_add(&mut self) -> Result<(), ParseInstrError<E>>
        returns
            Ok::<(), ParseInstrError<E>>(()),
    {
        Ok(())
    }

    fn f32x4_sub(&mut self) -> Result<(), ParseInstrError<E>>
        returns
            Ok::<(), ParseInstrError<E>>(()),
    {
        Ok(())
    }

    fn f32x4_mul(&mut self) -> Result<(), ParseInstrError<E>>
        returns
            Ok::<(), ParseInstrError<E>>(()),
    {
        Ok(())
    }

    fn f32x4_div(&mut self) -> Result<(), ParseInstrError<E>>
        returns
            Ok::<(), ParseInstrError<E>>(()),
    {
        Ok(())
    }

    fn f32x4_min(&mut self) -> Result<(), ParseInstrError<E>>
        returns
            Ok::<(), ParseInstrError<E>>(()),
    {
        Ok(())
    }

    fn f32x4_max(&mut self) -> Result<(), ParseInstrError<E>>
        returns
            Ok::<(), ParseInstrError<E>>(()),
    {
        Ok(())
    }

    fn f32x4_pmin(&mut self) -> Result<(), ParseInstrError<E>>
        returns
            Ok::<(), ParseInstrError<E>>(()),
    {
        Ok(())
    }

    fn f32x4_pmax(&mut self) -> Result<(), ParseInstrError<E>>
        returns
            Ok::<(), ParseInstrError<E>>(()),
    {
        Ok(())
    }

    fn f64x2_abs(&mut self) -> Result<(), ParseInstrError<E>>
        returns
            Ok::<(), ParseInstrError<E>>(()),
    {
        Ok(())
    }

    fn f64x2_neg(&mut self) -> Result<(), ParseInstrError<E>>
        returns
            Ok::<(), ParseInstrError<E>>(()),
    {
        Ok(())
    }

    fn f64x2_sqrt(&mut self) -> Result<(), ParseInstrError<E>>
        returns
            Ok::<(), ParseInstrError<E>>(()),
    {
        Ok(())
    }

    fn f64x2_add(&mut self) -> Result<(), ParseInstrError<E>>
        returns
            Ok::<(), ParseInstrError<E>>(()),
    {
        Ok(())
    }

    fn f64x2_sub(&mut self) -> Result<(), ParseInstrError<E>>
        returns
            Ok::<(), ParseInstrError<E>>(()),
    {
        Ok(())
    }

    fn f64x2_mul(&mut self) -> Result<(), ParseInstrError<E>>
        returns
            Ok::<(), ParseInstrError<E>>(()),
    {
        Ok(())
    }

    fn f64x2_div(&mut self) -> Result<(), ParseInstrError<E>>
        returns
            Ok::<(), ParseInstrError<E>>(()),
    {
        Ok(())
    }

    fn f64x2_min(&mut self) -> Result<(), ParseInstrError<E>>
        returns
            Ok::<(), ParseInstrError<E>>(()),
    {
        Ok(())
    }

    fn f64x2_max(&mut self) -> Result<(), ParseInstrError<E>>
        returns
            Ok::<(), ParseInstrError<E>>(()),
    {
        Ok(())
    }

    fn f64x2_pmin(&mut self) -> Result<(), ParseInstrError<E>>
        returns
            Ok::<(), ParseInstrError<E>>(()),
    {
        Ok(())
    }

    fn f64x2_pmax(&mut self) -> Result<(), ParseInstrError<E>>
        returns
            Ok::<(), ParseInstrError<E>>(()),
    {
        Ok(())
    }

    fn i32x4_trunc_sat_f32x4_s(&mut self) -> Result<(), ParseInstrError<E>>
        returns
            Ok::<(), ParseInstrError<E>>(()),
    {
        Ok(())
    }

    fn i32x4_trunc_sat_f32x4_u(&mut self) -> Result<(), ParseInstrError<E>>
        returns
            Ok::<(), ParseInstrError<E>>(()),
    {
        Ok(())
    }

    fn f32x4_convert_i32x4_s(&mut self) -> Result<(), ParseInstrError<E>>
        returns
            Ok::<(), ParseInstrError<E>>(()),
    {
        Ok(())
    }

    fn f32x4_convert_i32x4_u(&mut self) -> Result<(), ParseInstrError<E>>
        returns
            Ok::<(), ParseInstrError<E>>(()),
    {
        Ok(())
    }

    fn i32x4_trunc_sat_f64x2_s_zero(&mut self) -> Result<(), ParseInstrError<E>>
        returns
            Ok::<(), ParseInstrError<E>>(()),
    {
        Ok(())
    }

    fn i32x4_trunc_sat_f64x2_u_zero(&mut self) -> Result<(), ParseInstrError<E>>
        returns
            Ok::<(), ParseInstrError<E>>(()),
    {
        Ok(())
    }

    fn f64x2_convert_low_i32x4_s(&mut self) -> Result<(), ParseInstrError<E>>
        returns
            Ok::<(), ParseInstrError<E>>(()),
    {
        Ok(())
    }

    fn f64x2_convert_low_i32x4_u(&mut self) -> Result<(), ParseInstrError<E>>
        returns
            Ok::<(), ParseInstrError<E>>(()),
    {
        Ok(())
    }

    fn return_call(&mut self, callee: FuncIdx) -> Result<(), ParseInstrError<E>>
        returns
            Ok::<(), ParseInstrError<E>>(()),
    {
        let _ = callee;
        Ok(())
    }

    fn return_call_indirect(&mut self, signature: TypeIdx, table: TableIdx) -> Result<(), ParseInstrError<E>>
        returns
            Ok::<(), ParseInstrError<E>>(()),
    {
        let _ = (signature, table);
        Ok(())
    }

    fn memory_atomic_notify(&mut self, arg: MemArg) -> Result<(), ParseInstrError<E>>
        returns
            Ok::<(), ParseInstrError<E>>(()),
    {
        let _ = arg;
        Ok(())
    }

    fn memory_atomic_wait32(&mut self, arg: MemArg) -> Result<(), ParseInstrError<E>>
        returns
            Ok::<(), ParseInstrError<E>>(()),
    {
        let _ = arg;
        Ok(())
    }

    fn memory_atomic_wait64(&mut self, arg: MemArg) -> Result<(), ParseInstrError<E>>
        returns
            Ok::<(), ParseInstrError<E>>(()),
    {
        let _ = arg;
        Ok(())
    }

    fn i32_atomic_load(&mut self, arg: MemArg) -> Result<(), ParseInstrError<E>>
        returns
            Ok::<(), ParseInstrError<E>>(()),
    {
        let _ = arg;
        Ok(())
    }

    fn i64_atomic_load(&mut self, arg: MemArg) -> Result<(), ParseInstrError<E>>
        returns
            Ok::<(), ParseInstrError<E>>(()),
    {
        let _ = arg;
        Ok(())
    }

    fn i32_atomic_load8_u(&mut self, arg: MemArg) -> Result<(), ParseInstrError<E>>
        returns
            Ok::<(), ParseInstrError<E>>(()),
    {
        let _ = arg;
        Ok(())
    }

    fn i32_atomic_load16_u(&mut self, arg: MemArg) -> Result<(), ParseInstrError<E>>
        returns
            Ok::<(), ParseInstrError<E>>(()),
    {
        let _ = arg;
        Ok(())
    }

    fn i64_atomic_load8_u(&mut self, arg: MemArg) -> Result<(), ParseInstrError<E>>
        returns
            Ok::<(), ParseInstrError<E>>(()),
    {
        let _ = arg;
        Ok(())
    }

    fn i64_atomic_load16_u(&mut self, arg: MemArg) -> Result<(), ParseInstrError<E>>
        returns
            Ok::<(), ParseInstrError<E>>(()),
    {
        let _ = arg;
        Ok(())
    }

    fn i64_atomic_load32_u(&mut self, arg: MemArg) -> Result<(), ParseInstrError<E>>
        returns
            Ok::<(), ParseInstrError<E>>(()),
    {
        let _ = arg;
        Ok(())
    }

    fn i32_atomic_store(&mut self, arg: MemArg) -> Result<(), ParseInstrError<E>>
        returns
            Ok::<(), ParseInstrError<E>>(()),
    {
        let _ = arg;
        Ok(())
    }

    fn i64_atomic_store(&mut self, arg: MemArg) -> Result<(), ParseInstrError<E>>
        returns
            Ok::<(), ParseInstrError<E>>(()),
    {
        let _ = arg;
        Ok(())
    }

    fn i32_atomic_store8_u(&mut self, arg: MemArg) -> Result<(), ParseInstrError<E>>
        returns
            Ok::<(), ParseInstrError<E>>(()),
    {
        let _ = arg;
        Ok(())
    }

    fn i32_atomic_store16_u(&mut self, arg: MemArg) -> Result<(), ParseInstrError<E>>
        returns
            Ok::<(), ParseInstrError<E>>(()),
    {
        let _ = arg;
        Ok(())
    }

    fn i64_atomic_store8_u(&mut self, arg: MemArg) -> Result<(), ParseInstrError<E>>
        returns
            Ok::<(), ParseInstrError<E>>(()),
    {
        let _ = arg;
        Ok(())
    }

    fn i64_atomic_store16_u(&mut self, arg: MemArg) -> Result<(), ParseInstrError<E>>
        returns
            Ok::<(), ParseInstrError<E>>(()),
    {
        let _ = arg;
        Ok(())
    }

    fn i64_atomic_store32_u(&mut self, arg: MemArg) -> Result<(), ParseInstrError<E>>
        returns
            Ok::<(), ParseInstrError<E>>(()),
    {
        let _ = arg;
        Ok(())
    }

    fn i32_atomic_rmw_add(&mut self, arg: MemArg) -> Result<(), ParseInstrError<E>>
        returns
            Ok::<(), ParseInstrError<E>>(()),
    {
        let _ = arg;
        Ok(())
    }

    fn i64_atomic_rmw_add(&mut self, arg: MemArg) -> Result<(), ParseInstrError<E>>
        returns
            Ok::<(), ParseInstrError<E>>(()),
    {
        let _ = arg;
        Ok(())
    }

    fn i32_atomic_rmw8_add_u(&mut self, arg: MemArg) -> Result<(), ParseInstrError<E>>
        returns
            Ok::<(), ParseInstrError<E>>(()),
    {
        let _ = arg;
        Ok(())
    }

    fn i32_atomic_rmw16_add_u(&mut self, arg: MemArg) -> Result<(), ParseInstrError<E>>
        returns
            Ok::<(), ParseInstrError<E>>(()),
    {
        let _ = arg;
        Ok(())
    }

    fn i64_atomic_rmw8_add_u(&mut self, arg: MemArg) -> Result<(), ParseInstrError<E>>
        returns
            Ok::<(), ParseInstrError<E>>(()),
    {
        let _ = arg;
        Ok(())
    }

    fn i64_atomic_rmw16_add_u(&mut self, arg: MemArg) -> Result<(), ParseInstrError<E>>
        returns
            Ok::<(), ParseInstrError<E>>(()),
    {
        let _ = arg;
        Ok(())
    }

    fn i64_atomic_rmw32_add_u(&mut self, arg: MemArg) -> Result<(), ParseInstrError<E>>
        returns
            Ok::<(), ParseInstrError<E>>(()),
    {
        let _ = arg;
        Ok(())
    }

    fn i32_atomic_rmw_sub(&mut self, arg: MemArg) -> Result<(), ParseInstrError<E>>
        returns
            Ok::<(), ParseInstrError<E>>(()),
    {
        let _ = arg;
        Ok(())
    }

    fn i64_atomic_rmw_sub(&mut self, arg: MemArg) -> Result<(), ParseInstrError<E>>
        returns
            Ok::<(), ParseInstrError<E>>(()),
    {
        let _ = arg;
        Ok(())
    }

    fn i32_atomic_rmw8_sub_u(&mut self, arg: MemArg) -> Result<(), ParseInstrError<E>>
        returns
            Ok::<(), ParseInstrError<E>>(()),
    {
        let _ = arg;
        Ok(())
    }

    fn i32_atomic_rmw16_sub_u(&mut self, arg: MemArg) -> Result<(), ParseInstrError<E>>
        returns
            Ok::<(), ParseInstrError<E>>(()),
    {
        let _ = arg;
        Ok(())
    }

    fn i64_atomic_rmw8_sub_u(&mut self, arg: MemArg) -> Result<(), ParseInstrError<E>>
        returns
            Ok::<(), ParseInstrError<E>>(()),
    {
        let _ = arg;
        Ok(())
    }

    fn i64_atomic_rmw16_sub_u(&mut self, arg: MemArg) -> Result<(), ParseInstrError<E>>
        returns
            Ok::<(), ParseInstrError<E>>(()),
    {
        let _ = arg;
        Ok(())
    }

    fn i64_atomic_rmw32_sub_u(&mut self, arg: MemArg) -> Result<(), ParseInstrError<E>>
        returns
            Ok::<(), ParseInstrError<E>>(()),
    {
        let _ = arg;
        Ok(())
    }

    fn i32_atomic_rmw_and(&mut self, arg: MemArg) -> Result<(), ParseInstrError<E>>
        returns
            Ok::<(), ParseInstrError<E>>(()),
    {
        let _ = arg;
        Ok(())
    }

    fn i64_atomic_rmw_and(&mut self, arg: MemArg) -> Result<(), ParseInstrError<E>>
        returns
            Ok::<(), ParseInstrError<E>>(()),
    {
        let _ = arg;
        Ok(())
    }

    fn i32_atomic_rmw8_and_u(&mut self, arg: MemArg) -> Result<(), ParseInstrError<E>>
        returns
            Ok::<(), ParseInstrError<E>>(()),
    {
        let _ = arg;
        Ok(())
    }

    fn i32_atomic_rmw16_and_u(&mut self, arg: MemArg) -> Result<(), ParseInstrError<E>>
        returns
            Ok::<(), ParseInstrError<E>>(()),
    {
        let _ = arg;
        Ok(())
    }

    fn i64_atomic_rmw8_and_u(&mut self, arg: MemArg) -> Result<(), ParseInstrError<E>>
        returns
            Ok::<(), ParseInstrError<E>>(()),
    {
        let _ = arg;
        Ok(())
    }

    fn i64_atomic_rmw16_and_u(&mut self, arg: MemArg) -> Result<(), ParseInstrError<E>>
        returns
            Ok::<(), ParseInstrError<E>>(()),
    {
        let _ = arg;
        Ok(())
    }

    fn i64_atomic_rmw32_and_u(&mut self, arg: MemArg) -> Result<(), ParseInstrError<E>>
        returns
            Ok::<(), ParseInstrError<E>>(()),
    {
        let _ = arg;
        Ok(())
    }

    fn i32_atomic_rmw_or(&mut self, arg: MemArg) -> Result<(), ParseInstrError<E>>
        returns
            Ok::<(), ParseInstrError<E>>(()),
    {
        let _ = arg;
        Ok(())
    }

    fn i64_atomic_rmw_or(&mut self, arg: MemArg) -> Result<(), ParseInstrError<E>>
        returns
            Ok::<(), ParseInstrError<E>>(()),
    {
        let _ = arg;
        Ok(())
    }

    fn i32_atomic_rmw8_or_u(&mut self, arg: MemArg) -> Result<(), ParseInstrError<E>>
        returns
            Ok::<(), ParseInstrError<E>>(()),
    {
        let _ = arg;
        Ok(())
    }

    fn i32_atomic_rmw16_or_u(&mut self, arg: MemArg) -> Result<(), ParseInstrError<E>>
        returns
            Ok::<(), ParseInstrError<E>>(()),
    {
        let _ = arg;
        Ok(())
    }

    fn i64_atomic_rmw8_or_u(&mut self, arg: MemArg) -> Result<(), ParseInstrError<E>>
        returns
            Ok::<(), ParseInstrError<E>>(()),
    {
        let _ = arg;
        Ok(())
    }

    fn i64_atomic_rmw16_or_u(&mut self, arg: MemArg) -> Result<(), ParseInstrError<E>>
        returns
            Ok::<(), ParseInstrError<E>>(()),
    {
        let _ = arg;
        Ok(())
    }

    fn i64_atomic_rmw32_or_u(&mut self, arg: MemArg) -> Result<(), ParseInstrError<E>>
        returns
            Ok::<(), ParseInstrError<E>>(()),
    {
        let _ = arg;
        Ok(())
    }

    fn i32_atomic_rmw_xor(&mut self, arg: MemArg) -> Result<(), ParseInstrError<E>>
        returns
            Ok::<(), ParseInstrError<E>>(()),
    {
        let _ = arg;
        Ok(())
    }

    fn i64_atomic_rmw_xor(&mut self, arg: MemArg) -> Result<(), ParseInstrError<E>>
        returns
            Ok::<(), ParseInstrError<E>>(()),
    {
        let _ = arg;
        Ok(())
    }

    fn i32_atomic_rmw8_xor_u(&mut self, arg: MemArg) -> Result<(), ParseInstrError<E>>
        returns
            Ok::<(), ParseInstrError<E>>(()),
    {
        let _ = arg;
        Ok(())
    }

    fn i32_atomic_rmw16_xor_u(&mut self, arg: MemArg) -> Result<(), ParseInstrError<E>>
        returns
            Ok::<(), ParseInstrError<E>>(()),
    {
        let _ = arg;
        Ok(())
    }

    fn i64_atomic_rmw8_xor_u(&mut self, arg: MemArg) -> Result<(), ParseInstrError<E>>
        returns
            Ok::<(), ParseInstrError<E>>(()),
    {
        let _ = arg;
        Ok(())
    }

    fn i64_atomic_rmw16_xor_u(&mut self, arg: MemArg) -> Result<(), ParseInstrError<E>>
        returns
            Ok::<(), ParseInstrError<E>>(()),
    {
        let _ = arg;
        Ok(())
    }

    fn i64_atomic_rmw32_xor_u(&mut self, arg: MemArg) -> Result<(), ParseInstrError<E>>
        returns
            Ok::<(), ParseInstrError<E>>(()),
    {
        let _ = arg;
        Ok(())
    }

    fn i32_atomic_rmw_xchg(&mut self, arg: MemArg) -> Result<(), ParseInstrError<E>>
        returns
            Ok::<(), ParseInstrError<E>>(()),
    {
        let _ = arg;
        Ok(())
    }

    fn i64_atomic_rmw_xchg(&mut self, arg: MemArg) -> Result<(), ParseInstrError<E>>
        returns
            Ok::<(), ParseInstrError<E>>(()),
    {
        let _ = arg;
        Ok(())
    }

    fn i32_atomic_rmw8_xchg_u(&mut self, arg: MemArg) -> Result<(), ParseInstrError<E>>
        returns
            Ok::<(), ParseInstrError<E>>(()),
    {
        let _ = arg;
        Ok(())
    }

    fn i32_atomic_rmw16_xchg_u(&mut self, arg: MemArg) -> Result<(), ParseInstrError<E>>
        returns
            Ok::<(), ParseInstrError<E>>(()),
    {
        let _ = arg;
        Ok(())
    }

    fn i64_atomic_rmw8_xchg_u(&mut self, arg: MemArg) -> Result<(), ParseInstrError<E>>
        returns
            Ok::<(), ParseInstrError<E>>(()),
    {
        let _ = arg;
        Ok(())
    }

    fn i64_atomic_rmw16_xchg_u(&mut self, arg: MemArg) -> Result<(), ParseInstrError<E>>
        returns
            Ok::<(), ParseInstrError<E>>(()),
    {
        let _ = arg;
        Ok(())
    }

    fn i64_atomic_rmw32_xchg_u(&mut self, arg: MemArg) -> Result<(), ParseInstrError<E>>
        returns
            Ok::<(), ParseInstrError<E>>(()),
    {
        let _ = arg;
        Ok(())
    }

    fn i32_atomic_rmw_cmpxchg(&mut self, arg: MemArg) -> Result<(), ParseInstrError<E>>
        returns
            Ok::<(), ParseInstrError<E>>(()),
    {
        let _ = arg;
        Ok(())
    }

    fn i64_atomic_rmw_cmpxchg(&mut self, arg: MemArg) -> Result<(), ParseInstrError<E>>
        returns
            Ok::<(), ParseInstrError<E>>(()),
    {
        let _ = arg;
        Ok(())
    }

    fn i32_atomic_rmw8_cmpxchg_u(&mut self, arg: MemArg) -> Result<(), ParseInstrError<E>>
        returns
            Ok::<(), ParseInstrError<E>>(()),
    {
        let _ = arg;
        Ok(())
    }

    fn i32_atomic_rmw16_cmpxchg_u(&mut self, arg: MemArg) -> Result<(), ParseInstrError<E>>
        returns
            Ok::<(), ParseInstrError<E>>(()),
    {
        let _ = arg;
        Ok(())
    }

    fn i64_atomic_rmw8_cmpxchg_u(&mut self, arg: MemArg) -> Result<(), ParseInstrError<E>>
        returns
            Ok::<(), ParseInstrError<E>>(()),
    {
        let _ = arg;
        Ok(())
    }

    fn i64_atomic_rmw16_cmpxchg_u(&mut self, arg: MemArg) -> Result<(), ParseInstrError<E>>
        returns
            Ok::<(), ParseInstrError<E>>(()),
    {
        let _ = arg;
        Ok(())
    }

    fn i64_atomic_rmw32_cmpxchg_u(&mut self, arg: MemArg) -> Result<(), ParseInstrError<E>>
        returns
            Ok::<(), ParseInstrError<E>>(()),
    {
        let _ = arg;
        Ok(())
    }

    fn try_(&mut self, block_type: BlockType) -> Result<(), ParseInstrError<E>>
        returns
            Ok::<(), ParseInstrError<E>>(()),
    {
        let _ = block_type;
        Ok(())
    }

    fn catch(&mut self, exception: TagIdx) -> Result<(), ParseInstrError<E>>
        returns
            Ok::<(), ParseInstrError<E>>(()),
    {
        let _ = exception;
        Ok(())
    }

    fn throw(&mut self, exception: TagIdx) -> Result<(), ParseInstrError<E>>
        returns
            Ok::<(), ParseInstrError<E>>(()),
    {
        let _ = exception;
        Ok(())
    }

    fn rethrow(&mut self, handler: LabelIdx) -> Result<(), ParseInstrError<E>>
        returns
            Ok::<(), ParseInstrError<E>>(()),
    {
        let _ = handler;
        Ok(())
    }

    fn delegate(&mut self, handler: LabelIdx) -> Result<(), ParseInstrError<E>>
        returns
            Ok::<(), ParseInstrError<E>>(()),
    {
        let _ = handler;
        Ok(())
    }

    fn catch_all(&mut self) -> Result<(), ParseInstrError<E>>
        returns
            Ok::<(), ParseInstrError<E>>(()),
    {
        Ok(())
    }

    fn i8x16_relaxed_swizzle(&mut self) -> Result<(), ParseInstrError<E>>
        returns
            Ok::<(), ParseInstrError<E>>(()),
    {
        Ok(())
    }

    fn i32x4_relaxed_trunc_f32x4_s(&mut self) -> Result<(), ParseInstrError<E>>
        returns
            Ok::<(), ParseInstrError<E>>(()),
    {
        Ok(())
    }

    fn i32x4_relaxed_trunc_f32x4_u(&mut self) -> Result<(), ParseInstrError<E>>
        returns
            Ok::<(), ParseInstrError<E>>(()),
    {
        Ok(())
    }

    fn i32x4_relaxed_trunc_f64x2_s_zero(&mut self) -> Result<(), ParseInstrError<E>>
        returns
            Ok::<(), ParseInstrError<E>>(()),
    {
        Ok(())
    }

    fn i32x4_relaxed_trunc_f64x2_u_zero(&mut self) -> Result<(), ParseInstrError<E>>
        returns
            Ok::<(), ParseInstrError<E>>(()),
    {
        Ok(())
    }

    fn f32x4_relaxed_madd(&mut self) -> Result<(), ParseInstrError<E>>
        returns
            Ok::<(), ParseInstrError<E>>(()),
    {
        Ok(())
    }

    fn f32x4_relaxed_nmadd(&mut self) -> Result<(), ParseInstrError<E>>
        returns
            Ok::<(), ParseInstrError<E>>(()),
    {
        Ok(())
    }

    fn f64x2_relaxed_madd(&mut self) -> Result<(), ParseInstrError<E>>
        returns
            Ok::<(), ParseInstrError<E>>(()),
    {
        Ok(())
    }

    fn f64x2_relaxed_nmadd(&mut self) -> Result<(), ParseInstrError<E>>
        returns
            Ok::<(), ParseInstrError<E>>(()),
    {
        Ok(())
    }

    fn i8x16_relaxed_laneselect(&mut self) -> Result<(), ParseInstrError<E>>
        returns
            Ok::<(), ParseInstrError<E>>(()),
    {
        Ok(())
    }

    fn i16x8_relaxed_laneselect(&mut self) -> Result<(), ParseInstrError<E>>
        returns
            Ok::<(), ParseInstrError<E>>(()),
    {
        Ok(())
    }

    fn i32x4_relaxed_laneselect(&mut self) -> Result<(), ParseInstrError<E>>
        returns
            Ok::<(), ParseInstrError<E>>(()),
    {
        Ok(())
    }

    fn i64x2_relaxed_laneselect(&mut self) -> Result<(), ParseInstrError<E>>
        returns
            Ok::<(), ParseInstrError<E>>(()),
    {
        Ok(())
    }

    fn f32x4_relaxed_min(&mut self) -> Result<(), ParseInstrError<E>>
        returns
            Ok::<(), ParseInstrError<E>>(()),
    {
        Ok(())
    }

    fn f32x4_relaxed_max(&mut self) -> Result<(), ParseInstrError<E>>
        returns
            Ok::<(), ParseInstrError<E>>(()),
    {
        Ok(())
    }

    fn f64x2_relaxed_min(&mut self) -> Result<(), ParseInstrError<E>>
        returns
            Ok::<(), ParseInstrError<E>>(()),
    {
        Ok(())
    }

    fn f64x2_relaxed_max(&mut self) -> Result<(), ParseInstrError<E>>
        returns
            Ok::<(), ParseInstrError<E>>(()),
    {
        Ok(())
    }

    fn i16x8_relaxed_q15mulr_s(&mut self) -> Result<(), ParseInstrError<E>>
        returns
            Ok::<(), ParseInstrError<E>>(()),
    {
        Ok(())
    }

    fn i16x8_relaxed_dot_i8x16_i7x16_s(&mut self) -> Result<(), ParseInstrError<E>>
        returns
            Ok::<(), ParseInstrError<E>>(()),
    {
        Ok(())
    }

    fn i32x4_relaxed_dot_i8x16_i7x16_add_s(&mut self) -> Result<(), ParseInstrError<E>>
        returns
            Ok::<(), ParseInstrError<E>>(()),
    {
        Ok(())
    }
}

/// `res` is the result of parsing the instruction with the opcode `op`, read from the start of
/// `input`, when the implementation answered `r`: a refusal is reported at the start of the
/// instruction, and an error from an immediate argument is kept.
pub open spec fn spec_reported<'a, E: ErrorSource<'a>>(
    input: Seq<u8>,
    op: Opcode,
    r: Result<(), ParseInstrError<E>>,
    res: Result<(), E>,
) -> bool {
    match r {
        Ok(()) => res is Ok,
        Err(ParseInstrError::Unrecognized) => res matches Err(e) && e.spec_input() == input
            && e.spec_cause() == (ErrorCause::Instr { opcode: op, reason: InvalidInstr::Unrecognized }),
        Err(ParseInstrError::Cause(cause)) => res matches Err(e) && e.spec_input() == input
            && e.spec_cause() == cause,
        Err(ParseInstrError::ParseFailed(e)) => res == Err::<(), E>(e),
    }
}

/// How an implementation's answer becomes the result of parsing an instruction: acceptance is
/// success; a refusal as unrecognized is an error at the start of the instruction naming its
/// opcode; a refusal for a cause is that cause at the start of the instruction; and an error the
/// implementation met in an immediate argument is passed on unchanged.
pub proof fn lemma_answers_reported<'a, E: ErrorSource<'a>>(input: Seq<u8>, op: Opcode, cause: ErrorCause, e: E, res: Result<(), E>)
    ensures
        spec_reported(input, op, Ok::<(), ParseInstrError<E>>(()), res) <==> res is Ok,
        spec_reported(input, op, Err::<(), ParseInstrError<E>>(ParseInstrError::Unrecognized), Err::<(), E>(e))
            <==> (e.spec_input() == input && e.spec_cause() == (ErrorCause::Instr { opcode: op, reason: InvalidInstr::Unrecognized })),
        spec_reported(input, op, Err::<(), ParseInstrError<E>>(ParseInstrError::Cause(cause)), Err::<(), E>(e))
            <==> (e.spec_input() == input && e.spec_cause() == cause),
        spec_reported(input, op, Err::<(), ParseInstrError<E>>(ParseInstrError::ParseFailed(e)), res) <==> res == Err::<(), E>(e),
{
}

/// `res` is the result of handing the instruction `ins`, read from the start of `input`, to an
/// implementation that goes from `before` to `after`: the implementation received exactly `ins`,
/// and `res` reports its answer.
pub open spec fn spec_handed<'a, E: ErrorSource<'a>, P: ParseInstr<'a, E>>(
    input: Seq<u8>,
    ins: (Opcode, ImmediatesView),
    before: P,
    after: P,
    res: Result<(), E>,
) -> bool {
    exists|r: Result<(), ParseInstrError<E>>|
        #[trigger] P::spec_receives(before, after, ins, r) && spec_reported(input, ins.0, r, res)
}

/// `e` is an error that handing the instruction `ins`, read from the start of `input`, to an
/// implementation that was `before` can give, whatever the implementation became.
pub open spec fn spec_refused<'a, E: ErrorSource<'a>, P: ParseInstr<'a, E>>(
    input: Seq<u8>,
    ins: (Opcode, ImmediatesView),
    before: P,
    e: E,
) -> bool {
    exists|after: P| #[trigger] spec_handed(input, ins, before, after, Err(e))
}

/// Hands the instruction `i` to the method of `parser` for its kind.
#[verifier::rlimit(100)]
fn dispatch<'a, E: ErrorSource<'a>, P: ParseInstr<'a, E>>(parser: &mut P, i: Instr) -> (r: Result<(), ParseInstrError<E>>)
    ensures
        P::spec_receives(*old(parser), *final(parser), i@, r),
{
    match i.opcode {
        Opcode::Unreachable => match i.args {
            Immediates::NoArgs => parser.unreachable(),
            _ => parser.unrecognized(&i),
        },
        Opcode::Nop => match i.args {
            Immediates::NoArgs => parser.nop(),
            _ => parser.unrecognized(&i),
        },
        Opcode::Block => match i.args {
            Immediates::Block(a) => parser.block(a),
            _ => parser.unrecognized(&i),
        },
        Opcode::Loop => match i.args {
            Immediates::Block(a) => parser.loop_(a),
            _ => parser.unrecognized(&i),
        },
        Opcode::If => match i.args {
            Immediates::Block(a) => parser.if_(a),
            _ => parser.unrecognized(&i),
        },
        Opcode::Else => match i.args {
            Immediates::NoArgs => parser.else_(),
            _ => parser.unrecognized(&i),
        },
        Opcode::End => match i.args {
            Immediates::NoArgs => parser.end(),
            _ => parser.unrecognized(&i),
        },
        Opcode::Br => match i.args {
            Immediates::Label(a) => parser.br(a),
            _ => parser.unrecognized(&i),
        },
        Opcode::BrIf => match i.args {
            Immediates::Label(a) => parser.br_if(a),
            _ => parser.unrecognized(&i),
        },
        Opcode::BrTable => match i.args {
            Immediates::BrTable { targets: a, default_target: b } => parser.br_table(a.as_slice(), b),
            _ => parser.unrecognized(&i),
        },
        Opcode::Return => match i.args {
            Immediates::NoArgs => parser.return_(),
            _ => parser.unrecognized(&i),
        },
        Opcode::Call => match i.args {
            Immediates::Func(a) => parser.call(a),
            _ => parser.unrecognized(&i),
        },
        Opcode::CallIndirect => match i.args {
            Immediates::CallIndirect { signature: a, table: b } => parser.call_indirect(a, b),
            _ => parser.unrecognized(&i),
        },
        Opcode::Drop => match i.args {
            Immediates::NoArgs => parser.drop(),
            _ => parser.unrecognized(&i),
        },
        Opcode::Select => match i.args {
            Immediates::NoArgs => parser.select(),
            _ => parser.unrecognized(&i),
        },
        Opcode::SelectTyped => match i.args {
            Immediates::SelectTyped(a) => parser.select_typed(a),
            _ => parser.unrecognized(&i),
        },
        Opcode::LocalGet => match i.args {
            Immediates::Local(a) => parser.local_get(a),
            _ => parser.unrecognized(&i),
        },
        Opcode::LocalSet => match i.args {
            Immediates::Local(a) => parser.local_set(a),
            _ => parser.unrecognized(&i),
        },
        Opcode::LocalTee => match i.args {
            Immediates::Local(a) => parser.local_tee(a),
            _ => parser.unrecognized(&i),
        },
        Opcode::GlobalGet => match i.args {
            Immediates::Global(a) => parser.global_get(a),
            _ => parser.unrecognized(&i),
        },
        Opcode::GlobalSet => match i.args {
            Immediates::Global(a) => parser.global_set(a),
            _ => parser.unrecognized(&i),
        },
        Opcode::I32Load => match i.args {
            Immediates::Mem(a) => parser.i32_load(a),
            _ => parser.unrecognized(&i),
        },
        Opcode::I64Load => match i.args {
            Immediates::Mem(a) => parser.i64_load(a),
            _ => parser.unrecognized(&i),
        },
        Opcode::F32Load => match i.args {
            Immediates::Mem(a) => parser.f32_load(a),
            _ => parser.unrecognized(&i),
        },
        Opcode::F64Load => match i.args {
            Immediates::Mem(a) => parser.f64_load(a),
            _ => parser.unrecognized(&i),
        },
        Opcode::I32Load8S => match i.args {
            Immediates::Mem(a) => parser.i32_load8_s(a),
            _ => parser.unrecognized(&i),
        },
        Opcode::I32Load8U => match i.args {
            Immediates::Mem(a) => parser.i32_load8_u(a),
            _ => parser.unrecognized(&i),
        },
        Opcode::I32Load16S => match i.args {
            Immediates::Mem(a) => parser.i32_load16_s(a),
            _ => parser.unrecognized(&i),
        },
        Opcode::I32Load16U => match i.args {
            Immediates::Mem(a) => parser.i32_load16_u(a),
            _ => parser.unrecognized(&i),
        },
        Opcode::I64Load8S => match i.args {
            Immediates::Mem(a) => parser.i64_load8_s(a),
            _ => parser.unrecognized(&i),
        },
        Opcode::I64Load8U => match i.args {
            Immediates::Mem(a) => parser.i64_load8_u(a),
            _ => parser.unrecognized(&i),
        },
        Opcode::I64Load16S => match i.args {
            Immediates::Mem(a) => parser.i64_load16_s(a),
            _ => parser.unrecognized(&i),
        },
        Opcode::I64Load16U => match i.args {
            Immediates::Mem(a) => parser.i64_load16_u(a),
            _ => parser.unrecognized(&i),
        },
        Opcode::I64Load32S => match i.args {
            Immediates::Mem(a) => parser.i64_load32_s(a),
            _ => parser.unrecognized(&i),
        },
        Opcode::I64Load32U => match i.args {
            Immediates::Mem(a) => parser.i64_load32_u(a),
            _ => parser.unrecognized(&i),
        },
        Opcode::I32Store => match i.args {
            Immediates::Mem(a) => parser.i32_store(a),
            _ => parser.unrecognized(&i),
        },
        Opcode::I64Store => match i.args {
            Immediates::Mem(a) => parser.i64_store(a),
            _ => parser.unrecognized(&i),
        },
        Opcode::F32Store => match i.args {
            Immediates::Mem(a) => parser.f32_store(a),
            _ => parser.unrecognized(&i),
        },
        Opcode::F64Store => match i.args {
            Immediates::Mem(a) => parser.f64_store(a),
            _ => parser.unrecognized(&i),
        },
        Opcode::I32Store8 => match i.args {
            Immediates::Mem(a) => parser.i32_store8(a),
            _ => parser.unrecognized(&i),
        },
        Opcode::I32Store16 => match i.args {
            Immediates::Mem(a) => parser.i32_store16(a),
            _ => parser.unrecognized(&i),
        },
        Opcode::I64Store8 => match i.args {
            Immediates::Mem(a) => parser.i64_store8(a),
            _ => parser.unrecognized(&i),
        },
        Opcode::I64Store16 => match i.args {
            Immediates::Mem(a) => parser.i64_store16(a),
            _ => parser.unrecognized(&i),
        },
        Opcode::I64Store32 => match i.args {
            Immediates::Mem(a) => parser.i64_store32(a),
            _ => parser.unrecognized(&i),
        },
        Opcode::MemorySize => match i.args {
            Immediates::Memory(a) => parser.memory_size(a),
            _ => parser.unrecognized(&i),
        },
        Opcode::MemoryGrow => match i.args {
            Immediates::Memory(a) => parser.memory_grow(a),
            _ => parser.unrecognized(&i),
        },
        Opcode::I32Const => match i.args {
            Immediates::I32(a) => parser.i32_const(a),
            _ => parser.unrecognized(&i),
        },
        Opcode::I64Const => match i.args {
            Immediates::I64(a) => parser.i64_const(a),
            _ => parser.unrecognized(&i),
        },
        Opcode::F32Const => match i.args {
            Immediates::F32(a) => parser.f32_const(a),
            _ => parser.unrecognized(&i),
        },
        Opcode::F64Const => match i.args {
            Immediates::F64(a) => parser.f64_const(a),
            _ => parser.unrecognized(&i),
        },
        Opcode::I32Eqz => match i.args {
            Immediates::NoArgs => parser.i32_eqz(),
            _ => parser.unrecognized(&i),
        },
        Opcode::I32Eq => match i.args {
            Immediates::NoArgs => parser.i32_eq(),
            _ => parser.unrecognized(&i),
        },
        Opcode::I32Ne => match i.args {
            Immediates::NoArgs => parser.i32_ne(),
            _ => parser.unrecognized(&i),
        },
        Opcode::I32LtS => match i.args {
            Immediates::NoArgs => parser.i32_lt_s(),
            _ => parser.unrecognized(&i),
        },
        Opcode::I32LtU => match i.args {
            Immediates::NoArgs => parser.i32_lt_u(),
            _ => parser.unrecognized(&i),
        },
        Opcode::I32GtS => match i.args {
            Immediates::NoArgs => parser.i32_gt_s(),
            _ => parser.unrecognized(&i),
        },
        Opcode::I32GtU => match i.args {
            Immediates::NoArgs => parser.i32_gt_u(),
            _ => parser.unrecognized(&i),
        },
        Opcode::I32LeS => match i.args {
            Immediates::NoArgs => parser.i32_le_s(),
            _ => parser.unrecognized(&i),
        },
        Opcode::I32LeU => match i.args {
            Immediates::NoArgs => parser.i32_le_u(),
            _ => parser.unrecognized(&i),
        },
        Opcode::I32GeS => match i.args {
            Immediates::NoArgs => parser.i32_lg_s(),
            _ => parser.unrecognized(&i),
        },
        Opcode::I32GeU => match i.args {
            Immediates::NoArgs => parser.i32_ge_u(),
            _ => parser.unrecognized(&i),
        },
        Opcode::I64Eqz => match i.args {
            Immediates::NoArgs => parser.i64_eqz(),
            _ => parser.unrecognized(&i),
        },
        Opcode::I64Eq => match i.args {
            Immediates::NoArgs => parser.i64_eq(),
            _ => parser.unrecognized(&i),
        },
        Opcode::I64Ne => match i.args {
            Immediates::NoArgs => parser.i64_ne(),
            _ => parser.unrecognized(&i),
        },
        Opcode::I64LtS => match i.args {
            Immediates::NoArgs => parser.i64_lt_s(),
            _ => parser.unrecognized(&i),
        },
        Opcode::I64LtU => match i.args {
            Immediates::NoArgs => parser.i64_lt_u(),
            _ => parser.unrecognized(&i),
        },
        Opcode::I64GtS => match i.args {
            Immediates::NoArgs => parser.i64_gt_s(),
            _ => parser.unrecognized(&i),
        },
        Opcode::I64GtU => match i.args {
            Immediates::NoArgs => parser.i64_gt_u(),
            _ => parser.unrecognized(&i),
        },
        Opcode::I64LeS => match i.args {
            Immediates::NoArgs => parser.i64_le_s(),
            _ => parser.unrecognized(&i),
        },
        Opcode::I64LeU => match i.args {
            Immediates::NoArgs => parser.i64_le_u(),
            _ => parser.unrecognized(&i),
        },
        Opcode::I64GeS => match i.args {
            Immediates::NoArgs => parser.i64_ge_s(),
            _ => parser.unrecognized(&i),
        },
        Opcode::I64GeU => match i.args {
            Immediates::NoArgs => parser.i64_ge_u(),
            _ => parser.unrecognized(&i),
        },
        Opcode::F32Eq => match i.args {
            Immediates::NoArgs => parser.f32_eq(),
            _ => parser.unrecognized(&i),
        },
        Opcode::F32Ne => match i.args {
            Immediates::NoArgs => parser.f32_ne(),
            _ => parser.unrecognized(&i),
        },
        Opcode::F32Lt => match i.args {
            Immediates::NoArgs => parser.f32_lt(),
            _ => parser.unrecognized(&i),
        },
        Opcode::F32Gt => match i.args {
            Immediates::NoArgs => parser.f32_gt(),
            _ => parser.unrecognized(&i),
        },
        Opcode::F32Le => match i.args {
            Immediates::NoArgs => parser.f32_le(),
            _ => parser.unrecognized(&i),
        },
        Opcode::F32Ge => match i.args {
            Immediates::NoArgs => parser.f32_ge(),
            _ => parser.unrecognized(&i),
        },
        Opcode::F64Eq => match i.args {
            Immediates::NoArgs => parser.f64_eq(),
            _ => parser.unrecognized(&i),
        },
        Opcode::F64Ne => match i.args {
            Immediates::NoArgs => parser.f64_ne(),
            _ => parser.unrecognized(&i),
        },
        Opcode::F64Lt => match i.args {
            Immediates::NoArgs => parser.f64_lt(),
            _ => parser.unrecognized(&i),
        },
        Opcode::F64Gt => match i.args {
            Immediates::NoArgs => parser.f64_gt(),
            _ => parser.unrecognized(&i),
        },
        Opcode::F64Le => match i.args {
            Immediates::NoArgs => parser.f64_le(),
            _ => parser.unrecognized(&i),
        },
        Opcode::F64Ge => match i.args {
            Immediates::NoArgs => parser.f64_ge(),
            _ => parser.unrecognized(&i),
        },
        Opcode::I32Clz => match i.args {
            Immediates::NoArgs => parser.i32_clz(),
            _ => parser.unrecognized(&i),
        },
        Opcode::I32Ctz => match i.args {
            Immediates::NoArgs => parser.i32_ctz(),
            _ => parser.unrecognized(&i),
        },
        Opcode::I32Popcnt => match i.args {
            Immediates::NoArgs => parser.i32_popcnt(),
            _ => parser.unrecognized(&i),
        },
        Opcode::I32Add => match i.args {
            Immediates::NoArgs => parser.i32_add(),
            _ => parser.unrecognized(&i),
        },
        Opcode::I32Sub => match i.args {
            Immediates::NoArgs => parser.i32_sub(),
            _ => parser.unrecognized(&i),
        },
        Opcode::I32Mul => match i.args {
            Immediates::NoArgs => parser.i32_mul(),
            _ => parser.unrecognized(&i),
        },
        Opcode::I32DivS => match i.args {
            Immediates::NoArgs => parser.i32_div_s(),
            _ => parser.unrecognized(&i),
        },
        Opcode::I32DivU => match i.args {
            Immediates::NoArgs => parser.i32_div_u(),
            _ => parser.unrecognized(&i),
        },
        Opcode::I32RemS => match i.args {
            Immediates::NoArgs => parser.i32_rem_s(),
            _ => parser.unrecognized(&i),
        },
        Opcode::I32RemU => match i.args {
            Immediates::NoArgs => parser.i32_rem_u(),
            _ => parser.unrecognized(&i),
        },
        Opcode::I32And => match i.args {
            Immediates::NoArgs => parser.i32_and(),
            _ => parser.unrecognized(&i),
        },
        Opcode::I32Or => match i.args {
            Immediates::NoArgs => parser.i32_or(),
            _ => parser.unrecognized(&i),
        },
        Opcode::I32Xor => match i.args {
            Immediates::NoArgs => parser.i32_xor(),
            _ => parser.unrecognized(&i),
        },
        Opcode::I32Shl => match i.args {
            Immediates::NoArgs => parser.i32_shl(),
            _ => parser.unrecognized(&i),
        },
        Opcode::I32ShrS => match i.args {
            Immediates::NoArgs => parser.i32_shr_s(),
            _ => parser.unrecognized(&i),
        },
        Opcode::I32ShrU => match i.args {
            Immediates::NoArgs => parser.i32_shr_u(),
            _ => parser.unrecognized(&i),
        },
        Opcode::I32Rotl => match i.args {
            Immediates::NoArgs => parser.i32_rotl(),
            _ => parser.unrecognized(&i),
        },
        Opcode::I32Rotr => match i.args {
            Immediates::NoArgs => parser.i32_rotr(),
            _ => parser.unrecognized(&i),
        },
        Opcode::I64Clz => match i.args {
            Immediates::NoArgs => parser.i64_clz(),
            _ => parser.unrecognized(&i),
        },
        Opcode::I64Ctz => match i.args {
            Immediates::NoArgs => parser.i64_ctz(),
            _ => parser.unrecognized(&i),
        },
        Opcode::I64Popcnt => match i.args {
            Immediates::NoArgs => parser.i64_popcnt(),
            _ => parser.unrecognized(&i),
        },
        Opcode::I64Add => match i.args {
            Immediates::NoArgs => parser.i64_add(),
            _ => parser.unrecognized(&i),
        },
        Opcode::I64Sub => match i.args {
            Immediates::NoArgs => parser.i64_sub(),
            _ => parser.unrecognized(&i),
        },
        Opcode::I64Mul => match i.args {
            Immediates::NoArgs => parser.i64_mul(),
            _ => parser.unrecognized(&i),
        },
        Opcode::I64DivS => match i.args {
            Immediates::NoArgs => parser.i64_div_s(),
            _ => parser.unrecognized(&i),
        },
        Opcode::I64DivU => match i.args {
            Immediates::NoArgs => parser.i64_div_u(),
            _ => parser.unrecognized(&i),
        },
        Opcode::I64RemS => match i.args {
            Immediates::NoArgs => parser.i64_rem_s(),
            _ => parser.unrecognized(&i),
        },
        Opcode::I64RemU => match i.args {
            Immediates::NoArgs => parser.i64_rem_u(),
            _ => parser.unrecognized(&i),
        },
        Opcode::I64And => match i.args {
            Immediates::NoArgs => parser.i64_and(),
            _ => parser.unrecognized(&i),
        },
        Opcode::I64Or => match i.args {
            Immediates::NoArgs => parser.i64_or(),
            _ => parser.unrecognized(&i),
        },
        Opcode::I64Xor => match i.args {
            Immediates::NoArgs => parser.i64_xor(),
            _ => parser.unrecognized(&i),
        },
        Opcode::I64Shl => match i.args {
            Immediates::NoArgs => parser.i64_shl(),
            _ => parser.unrecognized(&i),
        },
        Opcode::I64ShrS => match i.args {
            Immediates::NoArgs => parser.i64_shr_s(),
            _ => parser.unrecognized(&i),
        },
        Opcode::I64ShrU => match i.args {
            Immediates::NoArgs => parser.i64_shr_u(),
            _ => parser.unrecognized(&i),
        },
        Opcode::I64Rotl => match i.args {
            Immediates::NoArgs => parser.i64_rotl(),
            _ => parser.unrecognized(&i),
        },
        Opcode::I64Rotr => match i.args {
            Immediates::NoArgs => parser.i64_rotr(),
            _ => parser.unrecognized(&i),
        },
        Opcode::F32Abs => match i.args {
            Immediates::NoArgs => parser.f32_abs(),
            _ => parser.unrecognized(&i),
        },
        Opcode::F32Neg => match i.args {
            Immediates::NoArgs => parser.f32_neg(),
            _ => parser.unrecognized(&i),
        },
        Opcode::F32Ceil => match i.args {
            Immediates::NoArgs => parser.f32_ceil(),
            _ => parser.unrecognized(&i),
        },
        Opcode::F32Floor => match i.args {
            Immediates::NoArgs => parser.f32_floor(),
            _ => parser.unrecognized(&i),
        },
        Opcode::F32Trunc => match i.args {
            Immediates::NoArgs => parser.f32_trunc(),
            _ => parser.unrecognized(&i),
        },
        Opcode::F32Nearest => match i.args {
            Immediates::NoArgs => parser.f32_nearest(),
            _ => parser.unrecognized(&i),
        },
        Opcode::F32Sqrt => match i.args {
            Immediates::NoArgs => parser.f32_sqrt(),
            _ => parser.unrecognized(&i),
        },
        Opcode::F32Add => match i.args {
            Immediates::NoArgs => parser.f32_add(),
            _ => parser.unrecognized(&i),
        },
        Opcode::F32Sub => match i.args {
            Immediates::NoArgs => parser.f32_sub(),
            _ => parser.unrecognized(&i),
        },
        Opcode::F32Mul => match i.args {
            Immediates::NoArgs => parser.f32_mul(),
            _ => parser.unrecognized(&i),
        },
        Opcode::F32Div => match i.args {
            Immediates::NoArgs => parser.f32_div(),
            _ => parser.unrecognized(&i),
        },
        Opcode::F32Min => match i.args {
            Immediates::NoArgs => parser.f32_min(),
            _ => parser.unrecognized(&i),
        },
        Opcode::F32Max => match i.args {
            Immediates::NoArgs => parser.f32_max(),
            _ => parser.unrecognized(&i),
        },
        Opcode::F32Copysign => match i.args {
            Immediates::NoArgs => parser.f32_copysign(),
            _ => parser.unrecognized(&i),
        },
        Opcode::F64Abs => match i.args {
            Immediates::NoArgs => parser.f64_abs(),
            _ => parser.unrecognized(&i),
        },
        Opcode::F64Neg => match i.args {
            Immediates::NoArgs => parser.f64_neg(),
            _ => parser.unrecognized(&i),
        },
        Opcode::F64Ceil => match i.args {
            Immediates::NoArgs => parser.f64_ceil(),
            _ => parser.unrecognized(&i),
        },
        Opcode::F64Floor => match i.args {
            Immediates::NoArgs => parser.f64_floor(),
            _ => parser.unrecognized(&i),
        },
        Opcode::F64Trunc => match i.args {
            Immediates::NoArgs => parser.f64_trunc(),
            _ => parser.unrecognized(&i),
        },
        Opcode::F64Nearest => match i.args {
            Immediates::NoArgs => parser.f64_nearest(),
            _ => parser.unrecognized(&i),
        },
        Opcode::F64Sqrt => match i.args {
            Immediates::NoArgs => parser.f64_sqrt(),
            _ => parser.unrecognized(&i),
        },
        Opcode::F64Add => match i.args {
            Immediates::NoArgs => parser.f64_add(),
            _ => parser.unrecognized(&i),
        },
        Opcode::F64Sub => match i.args {
            Immediates::NoArgs => parser.f64_sub(),
            _ => parser.unrecognized(&i),
        },
        Opcode::F64Mul => match i.args {
            Immediates::NoArgs => parser.f64_mul(),
            _ => parser.unrecognized(&i),
        },
        Opcode::F64Div => match i.args {
            Immediates::NoArgs => parser.f64_div(),
            _ => parser.unrecognized(&i),
        },
        Opcode::F64Min => match i.args {
            Immediates::NoArgs => parser.f64_min(),
            _ => parser.unrecognized(&i),
        },
        Opcode::F64Max => match i.args {
            Immediates::NoArgs => parser.f64_max(),
            _ => parser.unrecognized(&i),
        },
        Opcode::F64Copysign => match i.args {
            Immediates::NoArgs => parser.f64_copysign(),
            _ => parser.unrecognized(&i),
        },
        Opcode::I32WrapI64 => match i.args {
            Immediates::NoArgs => parser.i32_wrap_i64(),
            _ => parser.unrecognized(&i),
        },
        Opcode::I32TruncF32S => match i.args {
            Immediates::NoArgs => parser.i32_trunc_f32_s(),
            _ => parser.unrecognized(&i),
        },
        Opcode::I32TruncF32U => match i.args {
            Immediates::NoArgs => parser.i32_trunc_f32_u(),
            _ => parser.unrecognized(&i),
        },
        Opcode::I32TruncF64S => match i.args {
            Immediates::NoArgs => parser.i32_trunc_f64_s(),
            _ => parser.unrecognized(&i),
        },
        Opcode::I32TruncF64U => match i.args {
            Immediates::NoArgs => parser.i32_trunc_f64_u(),
            _ => parser.unrecognized(&i),
        },
        Opcode::I64ExtendI32S => match i.args {
            Immediates::NoArgs => parser.i64_extend_i32_s(),
            _ => parser.unrecognized(&i),
        },
        Opcode::I64ExtendI32U => match i.args {
            Immediates::NoArgs => parser.i64_extend_i32_u(),
            _ => parser.unrecognized(&i),
        },
        Opcode::I64TruncF32S => match i.args {
            Immediates::NoArgs => parser.i64_trunc_f32_s(),
            _ => parser.unrecognized(&i),
        },
        Opcode::I64TruncF32U => match i.args {
            Immediates::NoArgs => parser.i64_trunc_f32_u(),
            _ => parser.unrecognized(&i),
        },
        Opcode::I64TruncF64S => match i.args {
            Immediates::NoArgs => parser.i64_trunc_f64_s(),
            _ => parser.unrecognized(&i),
        },
        Opcode::I64TruncF64U => match i.args {
            Immediates::NoArgs => parser.i64_trunc_f64_u(),
            _ => parser.unrecognized(&i),
        },
        Opcode::F32ConvertI32S => match i.args {
            Immediates::NoArgs => parser.f32_convert_i32_s(),
            _ => parser.unrecognized(&i),
        },
        Opcode::F32ConvertI32U => match i.args {
            Immediates::NoArgs => parser.f32_convert_i32_u(),
            _ => parser.unrecognized(&i),
        },
        Opcode::F32ConvertI64S => match i.args {
            Immediates::NoArgs => parser.f32_convert_i64_s(),
            _ => parser.unrecognized(&i),
        },
        Opcode::F32ConvertI64U => match i.args {
            Immediates::NoArgs => parser.f32_convert_i64_u(),
            _ => parser.unrecognized(&i),
        },
        Opcode::F32DemoteF64 => match i.args {
            Immediates::NoArgs => parser.f32_demote_f64(),
            _ => parser.unrecognized(&i),
        },
        Opcode::F64ConvertI32S => match i.args {
            Immediates::NoArgs => parser.f64_convert_i32_s(),
            _ => parser.unrecognized(&i),
        },
        Opcode::F64ConvertI32U => match i.args {
            Immediates::NoArgs => parser.f64_convert_i32_u(),
            _ => parser.unrecognized(&i),
        },
        Opcode::F64ConvertI64S => match i.args {
            Immediates::NoArgs => parser.f64_convert_i64_s(),
            _ => parser.unrecognized(&i),
        },
        Opcode::F64ConvertI64U => match i.args {
            Immediates::NoArgs => parser.f64_convert_i64_u(),
            _ => parser.unrecognized(&i),
        },
        Opcode::F64PromoteF32 => match i.args {
            Immediates::NoArgs => parser.f64_promote_f32(),
            _ => parser.unrecognized(&i),
        },
        Opcode::I32ReinterpretF32 => match i.args {
            Immediates::NoArgs => parser.i32_reinterpret_f32(),
            _ => parser.unrecognized(&i),
        },
        Opcode::I64ReinterpretF64 => match i.args {
            Immediates::NoArgs => parser.i64_reinterpret_f64(),
            _ => parser.unrecognized(&i),
        },
        Opcode::F32ReinterpretI32 => match i.args {
            Immediates::NoArgs => parser.f32_reinterpret_i32(),
            _ => parser.unrecognized(&i),
        },
        Opcode::F64ReinterpretI64 => match i.args {
            Immediates::NoArgs => parser.f64_reinterpret_i64(),
            _ => parser.unrecognized(&i),
        },
        Opcode::I32TruncSatF32S => match i.args {
            Immediates::NoArgs => parser.i32_trunc_sat_f32_s(),
            _ => parser.unrecognized(&i),
        },
        Opcode::I32TruncSatF32U => match i.args {
            Immediates::NoArgs => parser.i32_trunc_sat_f32_u(),
            _ => parser.unrecognized(&i),
        },
        Opcode::I32TruncSatF64S => match i.args {
            Immediates::NoArgs => parser.i32_trunc_sat_f64_s(),
            _ => parser.unrecognized(&i),
        },
        Opcode::I32TruncSatF64U => match i.args {
            Immediates::NoArgs => parser.i32_trunc_sat_f64_u(),
            _ => parser.unrecognized(&i),
        },
        Opcode::I64TruncSatF32S => match i.args {
            Immediates::NoArgs => parser.i64_trunc_sat_f32_s(),
            _ => parser.unrecognized(&i),
        },
        Opcode::I64TruncSatF32U => match i.args {
            Immediates::NoArgs => parser.i64_trunc_sat_f32_u(),
            _ => parser.unrecognized(&i),
        },
        Opcode::I64TruncSatF64S => match i.args {
            Immediates::NoArgs => parser.i64_trunc_sat_f64_s(),
            _ => parser.unrecognized(&i),
        },
        Opcode::I64TruncSatF64U => match i.args {
            Immediates::NoArgs => parser.i64_trunc_sat_f64_u(),
            _ => parser.unrecognized(&i),
        },
        Opcode::I32Extend8S => match i.args {
            Immediates::NoArgs => parser.i32_extend8_s(),
            _ => parser.unrecognized(&i),
        },
        Opcode::I32Extend16S => match i.args {
            Immediates::NoArgs => parser.i32_extend16_s(),
            _ => parser.unrecognized(&i),
        },
        Opcode::I64Extend8S => match i.args {
            Immediates::NoArgs => parser.i64_extend8_s(),
            _ => parser.unrecognized(&i),
        },
        Opcode::I64Extend16S => match i.args {
            Immediates::NoArgs => parser.i64_extend16_s(),
            _ => parser.unrecognized(&i),
        },
        Opcode::I64Extend32S => match i.args {
            Immediates::NoArgs => parser.i64_extend32_s(),
            _ => parser.unrecognized(&i),
        },
        Opcode::MemoryCopy => match i.args {
            Immediates::MemoryCopy { destination: a, source: b } => parser.memory_copy(a, b),
            _ => parser.unrecognized(&i),
        },
        Opcode::MemoryFill => match i.args {
            Immediates::Memory(a) => parser.memory_fill(a),
            _ => parser.unrecognized(&i),
        },
        Opcode::MemoryInit => match i.args {
            Immediates::MemoryInit { segment: a, memory: b } => parser.memory_init(a, b),
            _ => parser.unrecognized(&i),
        },
        Opcode::DataDrop => match i.args {
            Immediates::Data(a) => parser.data_drop(a),
            _ => parser.unrecognized(&i),
        },
        Opcode::TableCopy => match i.args {
            Immediates::TableCopy { destination: a, source: b } => parser.table_copy(a, b),
            _ => parser.unrecognized(&i),
        },
        Opcode::TableInit => match i.args {
            Immediates::TableInit { segment: a, table: b } => parser.table_init(a, b),
            _ => parser.unrecognized(&i),
        },
        Opcode::ElemDrop => match i.args {
            Immediates::Elem(a) => parser.elem_drop(a),
            _ => parser.unrecognized(&i),
        },
        Opcode::RefNull => match i.args {
            Immediates::RefType(a) => parser.ref_null(a),
            _ => parser.unrecognized(&i),
        },
        Opcode::RefIsNull => match i.args {
            Immediates::NoArgs => parser.ref_is_null(),
            _ => parser.unrecognized(&i),
        },
        Opcode::RefFunc => match i.args {
            Immediates::Func(a) => parser.ref_func(a),
            _ => parser.unrecognized(&i),
        },
        Opcode::TableGet => match i.args {
            Immediates::Table(a) => parser.table_get(a),
            _ => parser.unrecognized(&i),
        },
        Opcode::TableSet => match i.args {
            Immediates::Table(a) => parser.table_set(a),
            _ => parser.unrecognized(&i),
        },
        Opcode::TableSize => match i.args {
            Immediates::Table(a) => parser.table_size(a),
            _ => parser.unrecognized(&i),
        },
        Opcode::TableGrow => match i.args {
            Immediates::Table(a) => parser.table_grow(a),
            _ => parser.unrecognized(&i),
        },
        Opcode::TableFill => match i.args {
            Immediates::Table(a) => parser.table_fill(a),
            _ => parser.unrecognized(&i),
        },
        Opcode::V128Load => match i.args {
            Immediates::Mem(a) => parser.v128_load(a),
            _ => parser.unrecognized(&i),
        },
        Opcode::V128Load8x8S => match i.args {
            Immediates::Mem(a) => parser.v128_load8x8_s(a),
            _ => parser.unrecognized(&i),
        },
        Opcode::V128Load8x8U => match i.args {
            Immediates::Mem(a) => parser.v128_load8x8_u(a),
            _ => parser.unrecognized(&i),
        },
        Opcode::V128Load16x4S => match i.args {
            Immediates::Mem(a) => parser.v128_load16x4_s(a),
            _ => parser.unrecognized(&i),
        },
        Opcode::V128Load16x4U => match i.args {
            Immediates::Mem(a) => parser.v128_load16x4_u(a),
            _ => parser.unrecognized(&i),
        },
        Opcode::V128Load32x2S => match i.args {
            Immediates::Mem(a) => parser.v128_load32x2_s(a),
            _ => parser.unrecognized(&i),
        },
        Opcode::V128Load32x2U => match i.args {
            Immediates::Mem(a) => parser.v128_load32x2_u(a),
            _ => parser.unrecognized(&i),
        },
        Opcode::V128Load8Splat => match i.args {
            Immediates::Mem(a) => parser.v128_load8_splat(a),
            _ => parser.unrecognized(&i),
        },
        Opcode::V128Load16Splat => match i.args {
            Immediates::Mem(a) => parser.v128_load16_splat(a),
            _ => parser.unrecognized(&i),
        },
        Opcode::V128Load32Splat => match i.args {
            Immediates::Mem(a) => parser.v128_load32_splat(a),
            _ => parser.unrecognized(&i),
        },
        Opcode::V128Load64Splat => match i.args {
            Immediates::Mem(a) => parser.v128_load64_splat(a),
            _ => parser.unrecognized(&i),
        },
        Opcode::V128Load32Zero => match i.args {
            Immediates::Mem(a) => parser.v128_load32_zero(a),
            _ => parser.unrecognized(&i),
        },
        Opcode::V128Load64Zero => match i.args {
            Immediates::Mem(a) => parser.v128_load64_zero(a),
            _ => parser.unrecognized(&i),
        },
        Opcode::V128Store => match i.args {
            Immediates::Mem(a) => parser.v128_store(a),
            _ => parser.unrecognized(&i),
        },
        Opcode::V128Load8Lane => match i.args {
            Immediates::MemLane { arg: a, lane: b } => parser.v128_load8_lane(a, b),
            _ => parser.unrecognized(&i),
        },
        Opcode::V128Load16Lane => match i.args {
            Immediates::MemLane { arg: a, lane: b } => parser.v128_load16_lane(a, b),
            _ => parser.unrecognized(&i),
        },
        Opcode::V128Load32Lane => match i.args {
            Immediates::MemLane { arg: a, lane: b } => parser.v128_load32_lane(a, b),
            _ => parser.unrecognized(&i),
        },
        Opcode::V128Load64Lane => match i.args {
            Immediates::MemLane { arg: a, lane: b } => parser.v128_load64_lane(a, b),
            _ => parser.unrecognized(&i),
        },
        Opcode::V128Store8Lane => match i.args {
            Immediates::MemLane { arg: a, lane: b } => parser.v128_store8_lane(a, b),
            _ => parser.unrecognized(&i),
        },
        Opcode::V128Store16Lane => match i.args {
            Immediates::MemLane { arg: a, lane: b } => parser.v128_store16_lane(a, b),
            _ => parser.unrecognized(&i),
        },
        Opcode::V128Store32Lane => match i.args {
            Immediates::MemLane { arg: a, lane: b } => parser.v128_store32_lane(a, b),
            _ => parser.unrecognized(&i),
        },
        Opcode::V128Store64Lane => match i.args {
            Immediates::MemLane { arg: a, lane: b } => parser.v128_store64_lane(a, b),
            _ => parser.unrecognized(&i),
        },
        Opcode::V128Const => match i.args {
            Immediates::V128(a) => parser.v128_const(a),
            _ => parser.unrecognized(&i),
        },
        Opcode::I8x16Shuffle => match i.args {
            Immediates::Shuffle(a) => parser.i8x16_shuffle(a),
            _ => parser.unrecognized(&i),
        },
        Opcode::I8x16Swizzle => match i.args {
            Immediates::NoArgs => parser.i8x16_swizzle(),
            _ => parser.unrecognized(&i),
        },
        Opcode::I8x16Splat => match i.args {
            Immediates::NoArgs => parser.i8x16_splat(),
            _ => parser.unrecognized(&i),
        },
        Opcode::I16x8Splat => match i.args {
            Immediates::NoArgs => parser.i16x8_splat(),
            _ => parser.unrecognized(&i),
        },
        Opcode::I32x4Splat => match i.args {
            Immediates::NoArgs => parser.i32x4_splat(),
            _ => parser.unrecognized(&i),
        },
        Opcode::I64x2Splat => match i.args {
            Immediates::NoArgs => parser.i64x2_splat(),
            _ => parser.unrecognized(&i),
        },
        Opcode::F32x4Splat => match i.args {
            Immediates::NoArgs => parser.f32x4_splat(),
            _ => parser.unrecognized(&i),
        },
        Opcode::F64x2Splat => match i.args {
            Immediates::NoArgs => parser.f64x2_splat(),
            _ => parser.unrecognized(&i),
        },
        Opcode::I8x16ExtractLaneS => match i.args {
            Immediates::Lane(a) => parser.i8x16_extract_lane_s(a),
            _ => parser.unrecognized(&i),
        },
        Opcode::I8x16ExtractLaneU => match i.args {
            Immediates::Lane(a) => parser.i8x16_extract_lane_u(a),
            _ => parser.unrecognized(&i),
        },
        Opcode::I8x16ReplaceLane => match i.args {
            Immediates::Lane(a) => parser.i8x16_replace_lane(a),
            _ => parser.unrecognized(&i),
        },
        Opcode::I16x8ExtractLaneS => match i.args {
            Immediates::Lane(a) => parser.i16x8_extract_lane_s(a),
            _ => parser.unrecognized(&i),
        },
        Opcode::I16x8ExtractLaneU => match i.args {
            Immediates::Lane(a) => parser.i16x8_extract_lane_u(a),
            _ => parser.unrecognized(&i),
        },
        Opcode::I16x8ReplaceLane => match i.args {
            Immediates::Lane(a) => parser.i16x8_replace_lane(a),
            _ => parser.unrecognized(&i),
        },
        Opcode::I32x4ExtractLane => match i.args {
            Immediates::Lane(a) => parser.i32x4_extract_lane(a),
            _ => parser.unrecognized(&i),
        },
        Opcode::I32x4ReplaceLane => match i.args {
            Immediates::Lane(a) => parser.i32x4_replace_lane(a),
            _ => parser.unrecognized(&i),
        },
        Opcode::I64x2ExtractLane => match i.args {
            Immediates::Lane(a) => parser.i64x2_extract_lane(a),
            _ => parser.unrecognized(&i),
        },
        Opcode::I64x2ReplaceLane => match i.args {
            Immediates::Lane(a) => parser.i64x2_replace_lane(a),
            _ => parser.unrecognized(&i),
        },
        Opcode::F32x4ExtractLane => match i.args {
            Immediates::Lane(a) => parser.f32x4_extract_lane(a),
            _ => parser.unrecognized(&i),
        },
        Opcode::F32x4ReplaceLane => match i.args {
            Immediates::Lane(a) => parser.f32x4_replace_lane(a),
            _ => parser.unrecognized(&i),
        },
        Opcode::F64x2ExtractLane => match i.args {
            Immediates::Lane(a) => parser.f64x4_extract_lane(a),
            _ => parser.unrecognized(&i),
        },
        Opcode::F64x2ReplaceLane => match i.args {
            Immediates::Lane(a) => parser.f64x4_replace_lane(a),
            _ => parser.unrecognized(&i),
        },
        Opcode::I8x16Eq => match i.args {
            Immediates::NoArgs => parser.i8x16_eq(),
            _ => parser.unrecognized(&i),
        },
        Opcode::I8x16Ne => match i.args {
            Immediates::NoArgs => parser.i8x16_ne(),
            _ => parser.unrecognized(&i),
        },
        Opcode::I8x16LtS => match i.args {
            Immediates::NoArgs => parser.i8x16_lt_s(),
            _ => parser.unrecognized(&i),
        },
        Opcode::I8x16LtU => match i.args {
            Immediates::NoArgs => parser.i8x16_lt_u(),
            _ => parser.unrecognized(&i),
        },
        Opcode::I8x16GtS => match i.args {
            Immediates::NoArgs => parser.i8x16_gt_s(),
            _ => parser.unrecognized(&i),
        },
        Opcode::I8x16GtU => match i.args {
            Immediates::NoArgs => parser.i8x16_gt_u(),
            _ => parser.unrecognized(&i),
        },
        Opcode::I8x16LeS => match i.args {
            Immediates::NoArgs => parser.i8x16_le_s(),
            _ => parser.unrecognized(&i),
        },
        Opcode::I8x16LeU => match i.args {
            Immediates::NoArgs => parser.i8x16_le_u(),
            _ => parser.unrecognized(&i),
        },
        Opcode::I8x16GeS => match i.args {
            Immediates::NoArgs => parser.i8x16_ge_s(),
            _ => parser.unrecognized(&i),
        },
        Opcode::I8x16GeU => match i.args {
            Immediates::NoArgs => parser.i8x16_ge_u(),
            _ => parser.unrecognized(&i),
        },
        Opcode::I16x8Eq => match i.args {
            Immediates::NoArgs => parser.i16x8_eq(),
            _ => parser.unrecognized(&i),
        },
        Opcode::I16x8Ne => match i.args {
            Immediates::NoArgs => parser.i16x8_ne(),
            _ => parser.unrecognized(&i),
        },
        Opcode::I16x8LtS => match i.args {
            Immediates::NoArgs => parser.i16x8_lt_s(),
            _ => parser.unrecognized(&i),
        },
        Opcode::I16x8LtU => match i.args {
            Immediates::NoArgs => parser.i16x8_lt_u(),
            _ => parser.unrecognized(&i),
        },
        Opcode::I16x8GtS => match i.args {
            Immediates::NoArgs => parser.i16x8_gt_s(),
            _ => parser.unrecognized(&i),
        },
        Opcode::I16x8GtU => match i.args {
            Immediates::NoArgs => parser.i16x8_gt_u(),
            _ => parser.unrecognized(&i),
        },
        Opcode::I16x8LeS => match i.args {
            Immediates::NoArgs => parser.i16x8_le_s(),
            _ => parser.unrecognized(&i),
        },
        Opcode::I16x8LeU => match i.args {
            Immediates::NoArgs => parser.i16x8_le_u(),
            _ => parser.unrecognized(&i),
        },
        Opcode::I16x8GeS => match i.args {
            Immediates::NoArgs => parser.i16x8_ge_s(),
            _ => parser.unrecognized(&i),
        },
        Opcode::I16x8GeU => match i.args {
            Immediates::NoArgs => parser.i16x8_ge_u(),
            _ => parser.unrecognized(&i),
        },
        Opcode::I32x4Eq => match i.args {
            Immediates::NoArgs => parser.i32x4_eq(),
            _ => parser.unrecognized(&i),
        },
        Opcode::I32x4Ne => match i.args {
            Immediates::NoArgs => parser.i32x4_ne(),
            _ => parser.unrecognized(&i),
        },
        Opcode::I32x4LtS => match i.args {
            Immediates::NoArgs => parser.i32x4_lt_s(),
            _ => parser.unrecognized(&i),
        },
        Opcode::I32x4LtU => match i.args {
            Immediates::NoArgs => parser.i32x4_lt_u(),
            _ => parser.unrecognized(&i),
        },
        Opcode::I32x4GtS => match i.args {
            Immediates::NoArgs => parser.i32x4_gt_s(),
            _ => parser.unrecognized(&i),
        },
        Opcode::I32x4GtU => match i.args {
            Immediates::NoArgs => parser.i32x4_gt_u(),
            _ => parser.unrecognized(&i),
        },
        Opcode::I32x4LeS => match i.args {
            Immediates::NoArgs => parser.i32x4_le_s(),
            _ => parser.unrecognized(&i),
        },
        Opcode::I32x4LeU => match i.args {
            Immediates::NoArgs => parser.i32x4_le_u(),
            _ => parser.unrecognized(&i),
        },
        Opcode::I32x4GeS => match i.args {
            Immediates::NoArgs => parser.i32x4_ge_s(),
            _ => parser.unrecognized(&i),
        },
        Opcode::I32x4GeU => match i.args {
            Immediates::NoArgs => parser.i32x4_ge_u(),
            _ => parser.unrecognized(&i),
        },
        Opcode::F32x4Eq => match i.args {
            Immediates::NoArgs => parser.f32x4_eq(),
            _ => parser.unrecognized(&i),
        },
        Opcode::F32x4Ne => match i.args {
            Immediates::NoArgs => parser.f32x4_ne(),
            _ => parser.unrecognized(&i),
        },
        Opcode::F32x4Lt => match i.args {
            Immediates::NoArgs => parser.f32x4_lt(),
            _ => parser.unrecognized(&i),
        },
        Opcode::F32x4Gt => match i.args {
            Immediates::NoArgs => parser.f32x4_gt(),
            _ => parser.unrecognized(&i),
        },
        Opcode::F32x4Le => match i.args {
            Immediates::NoArgs => parser.f32x4_le(),
            _ => parser.unrecognized(&i),
        },
        Opcode::F32x4Ge => match i.args {
            Immediates::NoArgs => parser.f32x4_ge(),
            _ => parser.unrecognized(&i),
        },
        Opcode::F64x2Eq => match i.args {
            Immediates::NoArgs => parser.f64x2_eq(),
            _ => parser.unrecognized(&i),
        },
        Opcode::F64x2Ne => match i.args {
            Immediates::NoArgs => parser.f64x2_ne(),
            _ => parser.unrecognized(&i),
        },
        Opcode::F64x2Lt => match i.args {
            Immediates::NoArgs => parser.f64x2_lt(),
            _ => parser.unrecognized(&i),
        },
        Opcode::F64x2Gt => match i.args {
            Immediates::NoArgs => parser.f64x2_gt(),
            _ => parser.unrecognized(&i),
        },
        Opcode::F64x2Le => match i.args {
            Immediates::NoArgs => parser.f64x2_le(),
            _ => parser.unrecognized(&i),
        },
        Opcode::F64x2Ge => match i.args {
            Immediates::NoArgs => parser.f64x2_ge(),
            _ => parser.unrecognized(&i),
        },
        Opcode::V128Not => match i.args {
            Immediates::NoArgs => parser.v128_not(),
            _ => parser.unrecognized(&i),
        },
        Opcode::V128And => match i.args {
            Immediates::NoArgs => parser.v128_and(),
            _ => parser.unrecognized(&i),
        },
        Opcode::V128AndNot => match i.args {
            Immediates::NoArgs => parser.v128_andnot(),
            _ => parser.unrecognized(&i),
        },
        Opcode::V128Or => match i.args {
            Immediates::NoArgs => parser.v128_or(),
            _ => parser.unrecognized(&i),
        },
        Opcode::V128Xor => match i.args {
            Immediates::NoArgs => parser.v128_xor(),
            _ => parser.unrecognized(&i),
        },
        Opcode::V128Bitselect => match i.args {
            Immediates::NoArgs => parser.v128_bitselect(),
            _ => parser.unrecognized(&i),
        },
        Opcode::V128AnyTrue => match i.args {
            Immediates::NoArgs => parser.v128_any_true(),
            _ => parser.unrecognized(&i),
        },
        Opcode::F32x4DemoteF64x2Zero => match i.args {
            Immediates::NoArgs => parser.f32x4_demote_f64x2_zero(),
            _ => parser.unrecognized(&i),
        },
        Opcode::F64x2PromoteLowF32x4 => match i.args {
            Immediates::NoArgs => parser.f64x2_promote_low_f32x4(),
            _ => parser.unrecognized(&i),
        },
        Opcode::I8x16Abs => match i.args {
            Immediates::NoArgs => parser.i8x16_abs(),
            _ => parser.unrecognized(&i),
        },
        Opcode::I8x16Neg => match i.args {
            Immediates::NoArgs => parser.i8x16_neg(),
            _ => parser.unrecognized(&i),
        },
        Opcode::I8x16Popcnt => match i.args {
            Immediates::NoArgs => parser.i8x16_popcnt(),
            _ => parser.unrecognized(&i),
        },
        Opcode::I8x16AllTrue => match i.args {
            Immediates::NoArgs => parser.i8x16_all_true(),
            _ => parser.unrecognized(&i),
        },
        Opcode::I8x16Bitmask => match i.args {
            Immediates::NoArgs => parser.i8x16_bitmask(),
            _ => parser.unrecognized(&i),
        },
        Opcode::I8x16NarrowI16x8S => match i.args {
            Immediates::NoArgs => parser.i8x16_narrow_i16x8_s(),
            _ => parser.unrecognized(&i),
        },
        Opcode::I8x16NarrowI16x8U => match i.args {
            Immediates::NoArgs => parser.i8x16_narrow_i16x8_u(),
            _ => parser.unrecognized(&i),
        },
        Opcode::F32x4Ceil => match i.args {
            Immediates::NoArgs => parser.f32x4_ceil(),
            _ => parser.unrecognized(&i),
        },
        Opcode::F32x4Floor => match i.args {
            Immediates::NoArgs => parser.f32x4_floor(),
            _ => parser.unrecognized(&i),
        },
        Opcode::F32x4Trunc => match i.args {
            Immediates::NoArgs => parser.f32x4_trunc(),
            _ => parser.unrecognized(&i),
        },
        Opcode::F32x4Nearest => match i.args {
            Immediates::NoArgs => parser.f32x4_nearest(),
            _ => parser.unrecognized(&i),
        },
        Opcode::I8x16Shl => match i.args {
            Immediates::NoArgs => parser.i8x16_shl(),
            _ => parser.unrecognized(&i),
        },
        Opcode::I8x16ShrS => match i.args {
            Immediates::NoArgs => parser.i8x16_shr_s(),
            _ => parser.unrecognized(&i),
        },
        Opcode::I8x16ShrU => match i.args {
            Immediates::NoArgs => parser.i8x16_shr_u(),
            _ => parser.unrecognized(&i),
        },
        Opcode::I8x16Add => match i.args {
            Immediates::NoArgs => parser.i8x16_add(),
            _ => parser.unrecognized(&i),
        },
        Opcode::I8x16AddSatS => match i.args {
            Immediates::NoArgs => parser.i8x16_add_sat_s(),
            _ => parser.unrecognized(&i),
        },
        Opcode::I8x16AddSatU => match i.args {
            Immediates::NoArgs => parser.i8x16_add_sat_u(),
            _ => parser.unrecognized(&i),
        },
        Opcode::I8x16Sub => match i.args {
            Immediates::NoArgs => parser.i8x16_sub(),
            _ => parser.unrecognized(&i),
        },
        Opcode::I8x16SubSatS => match i.args {
            Immediates::NoArgs => parser.i8x16_sub_sat_s(),
            _ => parser.unrecognized(&i),
        },
        Opcode::I8x16SubSatU => match i.args {
            Immediates::NoArgs => parser.i8x16_sub_sat_u(),
            _ => parser.unrecognized(&i),
        },
        Opcode::F64x2Ceil => match i.args {
            Immediates::NoArgs => parser.f64x2_ceil(),
            _ => parser.unrecognized(&i),
        },
        Opcode::F64x2Floor => match i.args {
            Immediates::NoArgs => parser.f64x2_floor(),
            _ => parser.unrecognized(&i),
        },
        Opcode::I8x16MinS => match i.args {
            Immediates::NoArgs => parser.i8x16_min_s(),
            _ => parser.unrecognized(&i),
        },
        Opcode::I8x16MinU => match i.args {
            Immediates::NoArgs => parser.i8x16_min_u(),
            _ => parser.unrecognized(&i),
        },
        Opcode::I8x16MaxS => match i.args {
            Immediates::NoArgs => parser.i8x16_max_s(),
            _ => parser.unrecognized(&i),
        },
        Opcode::I8x16MaxU => match i.args {
            Immediates::NoArgs => parser.i8x16_max_u(),
            _ => parser.unrecognized(&i),
        },
        Opcode::F64x2Trunc => match i.args {
            Immediates::NoArgs => parser.f64x2_trunc(),
            _ => parser.unrecognized(&i),
        },
        Opcode::I8x16AvgrU => match i.args {
            Immediates::NoArgs => parser.i8x16_avgr_u(),
            _ => parser.unrecognized(&i),
        },
        Opcode::I16x8ExtaddPairwiseI8x16S => match i.args {
            Immediates::NoArgs => parser.i16x8_extadd_pairwise_i8x16_s(),
            _ => parser.unrecognized(&i),
        },
        Opcode::I16x8ExtaddPairwiseI8x16U => match i.args {
            Immediates::NoArgs => parser.i16x8_extadd_pairwise_i8x16_u(),
            _ => parser.unrecognized(&i),
        },
        Opcode::I32x4ExtaddPairwiseI16x8S => match i.args {
            Immediates::NoArgs => parser.i32x4_extadd_pairwise_i16x8_s(),
            _ => parser.unrecognized(&i),
        },
        Opcode::I32x4ExtaddPairwiseI16x8U => match i.args {
            Immediates::NoArgs => parser.i32x4_extadd_pairwise_i16x8_u(),
            _ => parser.unrecognized(&i),
        },
        Opcode::I16x8Abs => match i.args {
            Immediates::NoArgs => parser.i16x8_abs(),
            _ => parser.unrecognized(&i),
        },
        Opcode::I16x8Neg => match i.args {
            Immediates::NoArgs => parser.i16x8_neg(),
            _ => parser.unrecognized(&i),
        },
        Opcode::I16x8Q15mulrSatS => match i.args {
            Immediates::NoArgs => parser.i16x8_q15mulr_sat_s(),
            _ => parser.unrecognized(&i),
        },
        Opcode::I16x8AllTrue => match i.args {
            Immediates::NoArgs => parser.i16x8_all_true(),
            _ => parser.unrecognized(&i),
        },
        Opcode::I16x8Bitmask => match i.args {
            Immediates::NoArgs => parser.i16x8_bitmask(),
            _ => parser.unrecognized(&i),
        },
        Opcode::I16x8NarrowI32x4S => match i.args {
            Immediates::NoArgs => parser.i16x8_narrow_i32x4_s(),
            _ => parser.unrecognized(&i),
        },
        Opcode::I16x8NarrowI32x4U => match i.args {
            Immediates::NoArgs => parser.i16x8_narrow_i32x4_u(),
            _ => parser.unrecognized(&i),
        },
        Opcode::I16x8ExtendLowI8x16S => match i.args {
            Immediates::NoArgs => parser.i16x8_extend_low_i8x16_s(),
            _ => parser.unrecognized(&i),
        },
        Opcode::I16x8ExtendHighI8x16S => match i.args {
            Immediates::NoArgs => parser.i16x8_extend_high_i8x16_s(),
            _ => parser.unrecognized(&i),
        },
        Opcode::I16x8ExtendLowI8x16U => match i.args {
            Immediates::NoArgs => parser.i16x8_extend_low_i8x16_u(),
            _ => parser.unrecognized(&i),
        },
        Opcode::I16x8ExtendHighI8x16U => match i.args {
            Immediates::NoArgs => parser.i16x8_extend_high_i8x16_u(),
            _ => parser.unrecognized(&i),
        },
        Opcode::I16x8Shl => match i.args {
            Immediates::NoArgs => parser.i16x8_shl(),
            _ => parser.unrecognized(&i),
        },
        Opcode::I16x8ShrS => match i.args {
            Immediates::NoArgs => parser.i16x8_shr_s(),
            _ => parser.unrecognized(&i),
        },
        Opcode::I16x8ShrU => match i.args {
            Immediates::NoArgs => parser.i16x8_shr_u(),
            _ => parser.unrecognized(&i),
        },
        Opcode::I16x8Add => match i.args {
            Immediates::NoArgs => parser.i16x8_add(),
            _ => parser.unrecognized(&i),
        },
        Opcode::I16x8AddSatS => match i.args {
            Immediates::NoArgs => parser.i16x8_add_sat_s(),
            _ => parser.unrecognized(&i),
        },
        Opcode::I16x8AddSatU => match i.args {
            Immediates::NoArgs => parser.i16x8_add_sat_u(),
            _ => parser.unrecognized(&i),
        },
        Opcode::I16x8Sub => match i.args {
            Immediates::NoArgs => parser.i16x8_sub(),
            _ => parser.unrecognized(&i),
        },
        Opcode::I16x8SubSatS => match i.args {
            Immediates::NoArgs => parser.i16x8_sub_sat_s(),
            _ => parser.unrecognized(&i),
        },
        Opcode::I16x8SubSatU => match i.args {
            Immediates::NoArgs => parser.i16x8_sub_sat_u(),
            _ => parser.unrecognized(&i),
        },
        Opcode::F64x2Nearest => match i.args {
            Immediates::NoArgs => parser.f64x2_nearest(),
            _ => parser.unrecognized(&i),
        },
        Opcode::I16x8Mul => match i.args {
            Immediates::NoArgs => parser.i16x8_mul(),
            _ => parser.unrecognized(&i),
        },
        Opcode::I16x8MinS => match i.args {
            Immediates::NoArgs => parser.i16x8_min_s(),
            _ => parser.unrecognized(&i),
        },
        Opcode::I16x8MinU => match i.args {
            Immediates::NoArgs => parser.i16x8_min_u(),
            _ => parser.unrecognized(&i),
        },
        Opcode::I16x8MaxS => match i.args {
            Immediates::NoArgs => parser.i16x8_max_s(),
            _ => parser.unrecognized(&i),
        },
        Opcode::I16x8MaxU => match i.args {
            Immediates::NoArgs => parser.i16x8_max_u(),
            _ => parser.unrecognized(&i),
        },
        Opcode::I16x8AvgrU => match i.args {
            Immediates::NoArgs => parser.i16x8_avgr_u(),
            _ => parser.unrecognized(&i),
        },
        Opcode::I16x8ExtmulLowI8x16S => match i.args {
            Immediates::NoArgs => parser.i16x8_extmul_low_i8x16_s(),
            _ => parser.unrecognized(&i),
        },
        Opcode::I16x8ExtmulHighI8x16S => match i.args {
            Immediates::NoArgs => parser.i16x8_extmul_high_i8x16_s(),
            _ => parser.unrecognized(&i),
        },
        Opcode::I16x8ExtmulLowI8x16U => match i.args {
            Immediates::NoArgs => parser.i16x8_extmul_low_i8x16_u(),
            _ => parser.unrecognized(&i),
        },
        Opcode::I16x8ExtmulHighI8x16U => match i.args {
            Immediates::NoArgs => parser.i16x8_extmul_high_i8x16_u(),
            _ => parser.unrecognized(&i),
        },
        Opcode::I32x4Abs => match i.args {
            Immediates::NoArgs => parser.i32x4_abs(),
            _ => parser.unrecognized(&i),
        },
        Opcode::I32x4Neg => match i.args {
            Immediates::NoArgs => parser.i32x4_neg(),
            _ => parser.unrecognized(&i),
        },
        Opcode::I32x4AllTrue => match i.args {
            Immediates::NoArgs => parser.i32x4_all_true(),
            _ => parser.unrecognized(&i),
        },
        Opcode::I32x4Bitmask => match i.args {
            Immediates::NoArgs => parser.i32x4_bitmask(),
            _ => parser.unrecognized(&i),
        },
        Opcode::I32x4ExtendLowI16x8S => match i.args {
            Immediates::NoArgs => parser.i32x4_extend_low_i16x8_s(),
            _ => parser.unrecognized(&i),
        },
        Opcode::I32x4ExtendHighI16x8S => match i.args {
            Immediates::NoArgs => parser.i32x4_extend_high_i16x8_s(),
            _ => parser.unrecognized(&i),
        },
        Opcode::I32x4ExtendLowI16x8U => match i.args {
            Immediates::NoArgs => parser.i32x4_extend_low_i16x8_u(),
            _ => parser.unrecognized(&i),
        },
        Opcode::I32x4ExtendHighI16x8U => match i.args {
            Immediates::NoArgs => parser.i32x4_extend_high_i16x8_u(),
            _ => parser.unrecognized(&i),
        },
        Opcode::I32x4Shl => match i.args {
            Immediates::NoArgs => parser.i32x4_shl(),
            _ => parser.unrecognized(&i),
        },
        Opcode::I32x4ShrS => match i.args {
            Immediates::NoArgs => parser.i32x4_shr_s(),
            _ => parser.unrecognized(&i),
        },
        Opcode::I32x4ShrU => match i.args {
            Immediates::NoArgs => parser.i32x4_shr_u(),
            _ => parser.unrecognized(&i),
        },
        Opcode::I32x4Add => match i.args {
            Immediates::NoArgs => parser.i32x4_add(),
            _ => parser.unrecognized(&i),
        },
        Opcode::I32x4Sub => match i.args {
            Immediates::NoArgs => parser.i32x4_sub(),
            _ => parser.unrecognized(&i),
        },
        Opcode::I32x4Mul => match i.args {
            Immediates::NoArgs => parser.i32x4_mul(),
            _ => parser.unrecognized(&i),
        },
        Opcode::I32x4MinS => match i.args {
            Immediates::NoArgs => parser.i32x4_min_s(),
            _ => parser.unrecognized(&i),
        },
        Opcode::I32x4MinU => match i.args {
            Immediates::NoArgs => parser.i32x4_min_u(),
            _ => parser.unrecognized(&i),
        },
        Opcode::I32x4MaxS => match i.args {
            Immediates::NoArgs => parser.i32x4_max_s(),
            _ => parser.unrecognized(&i),
        },
        Opcode::I32x4MaxU => match i.args {
            Immediates::NoArgs => parser.i32x4_max_u(),
            _ => parser.unrecognized(&i),
        },
        Opcode::I32x4DotI16x8S => match i.args {
            Immediates::NoArgs => parser.i32x4_dot_i16x8_s(),
            _ => parser.unrecognized(&i),
        },
        Opcode::I32x4ExtmulLowI16x8S => match i.args {
            Immediates::NoArgs => parser.i32x4_extmul_low_i16x8_s(),
            _ => parser.unrecognized(&i),
        },
        Opcode::I32x4ExtmulHighI16x8S => match i.args {
            Immediates::NoArgs => parser.i32x4_extmul_high_i16x8_s(),
            _ => parser.unrecognized(&i),
        },
        Opcode::I32x4ExtmulLowI16x8U => match i.args {
            Immediates::NoArgs => parser.i32x4_extmul_low_i16x8_u(),
            _ => parser.unrecognized(&i),
        },
        Opcode::I32x4ExtmulHighI16x8U => match i.args {
            Immediates::NoArgs => parser.i32x4_extmul_high_i16x8_u(),
            _ => parser.unrecognized(&i),
        },
        Opcode::I64x2Abs => match i.args {
            Immediates::NoArgs => parser.i64x2_abs(),
            _ => parser.unrecognized(&i),
        },
        Opcode::I64x2Neg => match i.args {
            Immediates::NoArgs => parser.i64x2_neg(),
            _ => parser.unrecognized(&i),
        },
        Opcode::I64x2AllTrue => match i.args {
            Immediates::NoArgs => parser.i64x2_all_true(),
            _ => parser.unrecognized(&i),
        },
        Opcode::I64x2Bitmask => match i.args {
            Immediates::NoArgs => parser.i64x2_bitmask(),
            _ => parser.unrecognized(&i),
        },
        Opcode::I64x2ExtendLowI32x4S => match i.args {
            Immediates::NoArgs => parser.i64x2_extend_low_i32x4_s(),
            _ => parser.unrecognized(&i),
        },
        Opcode::I64x2ExtendHighI32x4S => match i.args {
            Immediates::NoArgs => parser.i64x2_extend_high_i32x4_s(),
            _ => parser.unrecognized(&i),
        },
        Opcode::I64x2ExtendLowI32x4U => match i.args {
            Immediates::NoArgs => parser.i64x2_extend_low_i32x4_u(),
            _ => parser.unrecognized(&i),
        },
        Opcode::I64x2ExtendHighI32x4U => match i.args {
            Immediates::NoArgs => parser.i64x2_extend_high_i32x4_u(),
            _ => parser.unrecognized(&i),
        },
        Opcode::I64x2Shl => match i.args {
            Immediates::NoArgs => parser.i64x2_shl(),
            _ => parser.unrecognized(&i),
        },
        Opcode::I64x2ShrS => match i.args {
            Immediates::NoArgs => parser.i64x2_shr_s(),
            _ => parser.unrecognized(&i),
        },
        Opcode::I64x2ShrU => match i.args {
            Immediates::NoArgs => parser.i64x2_shr_u(),
            _ => parser.unrecognized(&i),
        },
        Opcode::I64x2Add => match i.args {
            Immediates::NoArgs => parser.i64x2_add(),
            _ => parser.unrecognized(&i),
        },
        Opcode::I64x2Sub => match i.args {
            Immediates::NoArgs => parser.i64x2_sub(),
            _ => parser.unrecognized(&i),
        },
        Opcode::I64x2Mul => match i.args {
            Immediates::NoArgs => parser.i64x2_mul(),
            _ => parser.unrecognized(&i),
        },
        Opcode::I64x2Eq => match i.args {
            Immediates::NoArgs => parser.i64x2_eq(),
            _ => parser.unrecognized(&i),
        },
        Opcode::I64x2Ne => match i.args {
            Immediates::NoArgs => parser.i64x2_ne(),
            _ => parser.unrecognized(&i),
        },
        Opcode::I64x2LtS => match i.args {
            Immediates::NoArgs => parser.i64x2_lt_s(),
            _ => parser.unrecognized(&i),
        },
        Opcode::I64x2GtS => match i.args {
            Immediates::NoArgs => parser.i64x2_gt_s(),
            _ => parser.unrecognized(&i),
        },
        Opcode::I64x2LeS => match i.args {
            Immediates::NoArgs => parser.i64x2_le_s(),
            _ => parser.unrecognized(&i),
        },
        Opcode::I64x2GeS => match i.args {
            Immediates::NoArgs => parser.i64x2_ge_s(),
            _ => parser.unrecognized(&i),
        },
        Opcode::I64x2ExtmulLowI32x4S => match i.args {
            Immediates::NoArgs => parser.i64x2_extmul_low_i32x4_s(),
            _ => parser.unrecognized(&i),
        },
        Opcode::I64x2ExtmulHighI32x4S => match i.args {
            Immediates::NoArgs => parser.i64x2_extmul_high_i32x4_s(),
            _ => parser.unrecognized(&i),
        },
        Opcode::I64x2ExtmulLowI32x4U => match i.args {
            Immediates::NoArgs => parser.i64x2_extmul_low_i32x4_u(),
            _ => parser.unrecognized(&i),
        },
        Opcode::I64x2ExtmulHighI32x4U => match i.args {
            Immediates::NoArgs => parser.i64x2_extmul_high_i32x4_u(),
            _ => parser.unrecognized(&i),
        },
        Opcode::F32x4Abs => match i.args {
            Immediates::NoArgs => parser.f32x4_abs(),
            _ => parser.unrecognized(&i),
        },
        Opcode::F32x4Neg => match i.args {
            Immediates::NoArgs => parser.f32x4_neg(),
            _ => parser.unrecognized(&i),
        },
        Opcode::F32x4Sqrt => match i.args {
            Immediates::NoArgs => parser.f32x4_sqrt(),
            _ => parser.unrecognized(&i),
        },
        Opcode::F32x4Add => match i.args {
            Immediates::NoArgs => parser.f32x4_add(),
            _ => parser.unrecognized(&i),
        },
        Opcode::F32x4Sub => match i.args {
            Immediates::NoArgs => parser.f32x4_sub(),
            _ => parser.unrecognized(&i),
        },
        Opcode::F32x4Mul => match i.args {
            Immediates::NoArgs => parser.f32x4_mul(),
            _ => parser.unrecognized(&i),
        },
        Opcode::F32x4Div => match i.args {
            Immediates::NoArgs => parser.f32x4_div(),
            _ => parser.unrecognized(&i),
        },
        Opcode::F32x4Min => match i.args {
            Immediates::NoArgs => parser.f32x4_min(),
            _ => parser.unrecognized(&i),
        },
        Opcode::F32x4Max => match i.args {
            Immediates::NoArgs => parser.f32x4_max(),
            _ => parser.unrecognized(&i),
        },
        Opcode::F32x4Pmin => match i.args {
            Immediates::NoArgs => parser.f32x4_pmin(),
            _ => parser.unrecognized(&i),
        },
        Opcode::F32x4Pmax => match i.args {
            Immediates::NoArgs => parser.f32x4_pmax(),
            _ => parser.unrecognized(&i),
        },
        Opcode::F64x2Abs => match i.args {
            Immediates::NoArgs => parser.f64x2_abs(),
            _ => parser.unrecognized(&i),
        },
        Opcode::F64x2Neg => match i.args {
            Immediates::NoArgs => parser.f64x2_neg(),
            _ => parser.unrecognized(&i),
        },
        Opcode::F64x2Sqrt => match i.args {
            Immediates::NoArgs => parser.f64x2_sqrt(),
            _ => parser.unrecognized(&i),
        },
        Opcode::F64x2Add => match i.args {
            Immediates::NoArgs => parser.f64x2_add(),
            _ => parser.unrecognized(&i),
        },
        Opcode::F64x2Sub => match i.args {
            Immediates::NoArgs => parser.f64x2_sub(),
            _ => parser.unrecognized(&i),
        },
        Opcode::F64x2Mul => match i.args {
            Immediates::NoArgs => parser.f64x2_mul(),
            _ => parser.unrecognized(&i),
        },
        Opcode::F64x2Div => match i.args {
            Immediates::NoArgs => parser.f64x2_div(),
            _ => parser.unrecognized(&i),
        },
        Opcode::F64x2Min => match i.args {
            Immediates::NoArgs => parser.f64x2_min(),
            _ => parser.unrecognized(&i),
        },
        Opcode::F64x2Max => match i.args {
            Immediates::NoArgs => parser.f64x2_max(),
            _ => parser.unrecognized(&i),
        },
        Opcode::F64x2Pmin => match i.args {
            Immediates::NoArgs => parser.f64x2_pmin(),
            _ => parser.unrecognized(&i),
        },
        Opcode::F64x2Pmax => match i.args {
            Immediates::NoArgs => parser.f64x2_pmax(),
            _ => parser.unrecognized(&i),
        },
        Opcode::I32x4TruncSatF32x4S => match i.args {
            Immediates::NoArgs => parser.i32x4_trunc_sat_f32x4_s(),
            _ => parser.unrecognized(&i),
        },
        Opcode::I32x4TruncSatF32x4U => match i.args {
            Immediates::NoArgs => parser.i32x4_trunc_sat_f32x4_u(),
            _ => parser.unrecognized(&i),
        },
        Opcode::F32x4ConvertI32x4S => match i.args {
            Immediates::NoArgs => parser.f32x4_convert_i32x4_s(),
            _ => parser.unrecognized(&i),
        },
        Opcode::F32x4ConvertI32x4U => match i.args {
            Immediates::NoArgs => parser.f32x4_convert_i32x4_u(),
            _ => parser.unrecognized(&i),
        },
        Opcode::I32x4TruncSatF64x2SZero => match i.args {
            Immediates::NoArgs => parser.i32x4_trunc_sat_f64x2_s_zero(),
            _ => parser.unrecognized(&i),
        },
        Opcode::I32x4TruncSatF64x2UZero => match i.args {
            Immediates::NoArgs => parser.i32x4_trunc_sat_f64x2_u_zero(),
            _ => parser.unrecognized(&i),
        },
        Opcode::F64x2ConvertLowI32x4S => match i.args {
            Immediates::NoArgs => parser.f64x2_convert_low_i32x4_s(),
            _ => parser.unrecognized(&i),
        },
        Opcode::F64x2ConvertLowI32x4U => match i.args {
            Immediates::NoArgs => parser.f64x2_convert_low_i32x4_u(),
            _ => parser.unrecognized(&i),
        },
        Opcode::ReturnCall => match i.args {
            Immediates::Func(a) => parser.return_call(a),
            _ => parser.unrecognized(&i),
        },
        Opcode::ReturnCallIndirect => match i.args {
            Immediates::CallIndirect { signature: a, table: b } => parser.return_call_indirect(a, b),
            _ => parser.unrecognized(&i),
        },
        Opcode::MemoryAtomicNotify => match i.args {
            Immediates::Mem(a) => parser.memory_atomic_notify(a),
            _ => parser.unrecognized(&i),
        },
        Opcode::MemoryAtomicWait32 => match i.args {
            Immediates::Mem(a) => parser.memory_atomic_wait32(a),
            _ => parser.unrecognized(&i),
        },
        Opcode::MemoryAtomicWait64 => match i.args {
            Immediates::Mem(a) => parser.memory_atomic_wait64(a),
            _ => parser.unrecognized(&i),
        },
        Opcode::I32AtomicLoad => match i.args {
            Immediates::Mem(a) => parser.i32_atomic_load(a),
            _ => parser.unrecognized(&i),
        },
        Opcode::I64AtomicLoad => match i.args {
            Immediates::Mem(a) => parser.i64_atomic_load(a),
            _ => parser.unrecognized(&i),
        },
        Opcode::I32AtomicLoad8U => match i.args {
            Immediates::Mem(a) => parser.i32_atomic_load8_u(a),
            _ => parser.unrecognized(&i),
        },
        Opcode::I32AtomicLoad16U => match i.args {
            Immediates::Mem(a) => parser.i32_atomic_load16_u(a),
            _ => parser.unrecognized(&i),
        },
        Opcode::I64AtomicLoad8U => match i.args {
            Immediates::Mem(a) => parser.i64_atomic_load8_u(a),
            _ => parser.unrecognized(&i),
        },
        Opcode::I64AtomicLoad16U => match i.args {
            Immediates::Mem(a) => parser.i64_atomic_load16_u(a),
            _ => parser.unrecognized(&i),
        },
        Opcode::I64AtomicLoad32U => match i.args {
            Immediates::Mem(a) => parser.i64_atomic_load32_u(a),
            _ => parser.unrecognized(&i),
        },
        Opcode::I32AtomicStore => match i.args {
            Immediates::Mem(a) => parser.i32_atomic_store(a),
            _ => parser.unrecognized(&i),
        },
        Opcode::I64AtomicStore => match i.args {
            Immediates::Mem(a) => parser.i64_atomic_store(a),
            _ => parser.unrecognized(&i),
        },
        Opcode::I32AtomicStore8U => match i.args {
            Immediates::Mem(a) => parser.i32_atomic_store8_u(a),
            _ => parser.unrecognized(&i),
        },
        Opcode::I32AtomicStore16U => match i.args {
            Immediates::Mem(a) => parser.i32_atomic_store16_u(a),
            _ => parser.unrecognized(&i),
        },
        Opcode::I64AtomicStore8U => match i.args {
            Immediates::Mem(a) => parser.i64_atomic_store8_u(a),
            _ => parser.unrecognized(&i),
        },
        Opcode::I64AtomicStore16U => match i.args {
            Immediates::Mem(a) => parser.i64_atomic_store16_u(a),
            _ => parser.unrecognized(&i),
        },
        Opcode::I64AtomicStore32U => match i.args {
            Immediates::Mem(a) => parser.i64_atomic_store32_u(a),
            _ => parser.unrecognized(&i),
        },
        Opcode::I32AtomicRmwAdd => match i.args {
            Immediates::Mem(a) => parser.i32_atomic_rmw_add(a),
            _ => parser.unrecognized(&i),
        },
        Opcode::I64AtomicRmwAdd => match i.args {
            Immediates::Mem(a) => parser.i64_atomic_rmw_add(a),
            _ => parser.unrecognized(&i),
        },
        Opcode::I32AtomicRmw8AddU => match i.args {
            Immediates::Mem(a) => parser.i32_atomic_rmw8_add_u(a),
            _ => parser.unrecognized(&i),
        },
        Opcode::I32AtomicRmw16AddU => match i.args {
            Immediates::Mem(a) => parser.i32_atomic_rmw16_add_u(a),
            _ => parser.unrecognized(&i),
        },
        Opcode::I64AtomicRmw8AddU => match i.args {
            Immediates::Mem(a) => parser.i64_atomic_rmw8_add_u(a),
            _ => parser.unrecognized(&i),
        },
        Opcode::I64AtomicRmw16AddU => match i.args {
            Immediates::Mem(a) => parser.i64_atomic_rmw16_add_u(a),
            _ => parser.unrecognized(&i),
        },
        Opcode::I64AtomicRmw32AddU => match i.args {
            Immediates::Mem(a) => parser.i64_atomic_rmw32_add_u(a),
            _ => parser.unrecognized(&i),
        },
        Opcode::I32AtomicRmwSub => match i.args {
            Immediates::Mem(a) => parser.i32_atomic_rmw_sub(a),
            _ => parser.unrecognized(&i),
        },
        Opcode::I64AtomicRmwSub => match i.args {
            Immediates::Mem(a) => parser.i64_atomic_rmw_sub(a),
            _ => parser.unrecognized(&i),
        },
        Opcode::I32AtomicRmw8SubU => match i.args {
            Immediates::Mem(a) => parser.i32_atomic_rmw8_sub_u(a),
            _ => parser.unrecognized(&i),
        },
        Opcode::I32AtomicRmw16SubU => match i.args {
            Immediates::Mem(a) => parser.i32_atomic_rmw16_sub_u(a),
            _ => parser.unrecognized(&i),
        },
        Opcode::I64AtomicRmw8SubU => match i.args {
            Immediates::Mem(a) => parser.i64_atomic_rmw8_sub_u(a),
            _ => parser.unrecognized(&i),
        },
        Opcode::I64AtomicRmw16SubU => match i.args {
            Immediates::Mem(a) => parser.i64_atomic_rmw16_sub_u(a),
            _ => parser.unrecognized(&i),
        },
        Opcode::I64AtomicRmw32SubU => match i.args {
            Immediates::Mem(a) => parser.i64_atomic_rmw32_sub_u(a),
            _ => parser.unrecognized(&i),
        },
        Opcode::I32AtomicRmwAnd => match i.args {
            Immediates::Mem(a) => parser.i32_atomic_rmw_and(a),
            _ => parser.unrecognized(&i),
        },
        Opcode::I64AtomicRmwAnd => match i.args {
            Immediates::Mem(a) => parser.i64_atomic_rmw_and(a),
            _ => parser.unrecognized(&i),
        },
        Opcode::I32AtomicRmw8AndU => match i.args {
            Immediates::Mem(a) => parser.i32_atomic_rmw8_and_u(a),
            _ => parser.unrecognized(&i),
        },
        Opcode::I32AtomicRmw16AndU => match i.args {
            Immediates::Mem(a) => parser.i32_atomic_rmw16_and_u(a),
            _ => parser.unrecognized(&i),
        },
        Opcode::I64AtomicRmw8AndU => match i.args {
            Immediates::Mem(a) => parser.i64_atomic_rmw8_and_u(a),
            _ => parser.unrecognized(&i),
        },
        Opcode::I64AtomicRmw16AndU => match i.args {
            Immediates::Mem(a) => parser.i64_atomic_rmw16_and_u(a),
            _ => parser.unrecognized(&i),
        },
        Opcode::I64AtomicRmw32AndU => match i.args {
            Immediates::Mem(a) => parser.i64_atomic_rmw32_and_u(a),
            _ => parser.unrecognized(&i),
        },
        Opcode::I32AtomicRmwOr => match i.args {
            Immediates::Mem(a) => parser.i32_atomic_rmw_or(a),
            _ => parser.unrecognized(&i),
        },
        Opcode::I64AtomicRmwOr => match i.args {
            Immediates::Mem(a) => parser.i64_atomic_rmw_or(a),
            _ => parser.unrecognized(&i),
        },
        Opcode::I32AtomicRmw8OrU => match i.args {
            Immediates::Mem(a) => parser.i32_atomic_rmw8_or_u(a),
            _ => parser.unrecognized(&i),
        },
        Opcode::I32AtomicRmw16OrU => match i.args {
            Immediates::Mem(a) => parser.i32_atomic_rmw16_or_u(a),
            _ => parser.unrecognized(&i),
        },
        Opcode::I64AtomicRmw8OrU => match i.args {
            Immediates::Mem(a) => parser.i64_atomic_rmw8_or_u(a),
            _ => parser.unrecognized(&i),
        },
        Opcode::I64AtomicRmw16OrU => match i.args {
            Immediates::Mem(a) => parser.i64_atomic_rmw16_or_u(a),
            _ => parser.unrecognized(&i),
        },
        Opcode::I64AtomicRmw32OrU => match i.args {
            Immediates::Mem(a) => parser.i64_atomic_rmw32_or_u(a),
            _ => parser.unrecognized(&i),
        },
        Opcode::I32AtomicRmwXor => match i.args {
            Immediates::Mem(a) => parser.i32_atomic_rmw_xor(a),
            _ => parser.unrecognized(&i),
        },
        Opcode::I64AtomicRmwXor => match i.args {
            Immediates::Mem(a) => parser.i64_atomic_rmw_xor(a),
            _ => parser.unrecognized(&i),
        },
        Opcode::I32AtomicRmw8XorU => match i.args {
            Immediates::Mem(a) => parser.i32_atomic_rmw8_xor_u(a),
            _ => parser.unrecognized(&i),
        },
        Opcode::I32AtomicRmw16XorU => match i.args {
            Immediates::Mem(a) => parser.i32_atomic_rmw16_xor_u(a),
            _ => parser.unrecognized(&i),
        },
        Opcode::I64AtomicRmw8XorU => match i.args {
            Immediates::Mem(a) => parser.i64_atomic_rmw8_xor_u(a),
            _ => parser.unrecognized(&i),
        },
        Opcode::I64AtomicRmw16XorU => match i.args {
            Immediates::Mem(a) => parser.i64_atomic_rmw16_xor_u(a),
            _ => parser.unrecognized(&i),
        },
        Opcode::I64AtomicRmw32XorU => match i.args {
            Immediates::Mem(a) => parser.i64_atomic_rmw32_xor_u(a),
            _ => parser.unrecognized(&i),
        },
        Opcode::I32AtomicRmwXchg => match i.args {
            Immediates::Mem(a) => parser.i32_atomic_rmw_xchg(a),
            _ => parser.unrecognized(&i),
        },
        Opcode::I64AtomicRmwXchg => match i.args {
            Immediates::Mem(a) => parser.i64_atomic_rmw_xchg(a),
            _ => parser.unrecognized(&i),
        },
        Opcode::I32AtomicRmw8XchgU => match i.args {
            Immediates::Mem(a) => parser.i32_atomic_rmw8_xchg_u(a),
            _ => parser.unrecognized(&i),
        },
        Opcode::I32AtomicRmw16XchgU => match i.args {
            Immediates::Mem(a) => parser.i32_atomic_rmw16_xchg_u(a),
            _ => parser.unrecognized(&i),
        },
        Opcode::I64AtomicRmw8XchgU => match i.args {
            Immediates::Mem(a) => parser.i64_atomic_rmw8_xchg_u(a),
            _ => parser.unrecognized(&i),
        },
        Opcode::I64AtomicRmw16XchgU => match i.args {
            Immediates::Mem(a) => parser.i64_atomic_rmw16_xchg_u(a),
            _ => parser.unrecognized(&i),
        },
        Opcode::I64AtomicRmw32XchgU => match i.args {
            Immediates::Mem(a) => parser.i64_atomic_rmw32_xchg_u(a),
            _ => parser.unrecognized(&i),
        },
        Opcode::I32AtomicRmwCmpxchg => match i.args {
            Immediates::Mem(a) => parser.i32_atomic_rmw_cmpxchg(a),
            _ => parser.unrecognized(&i),
        },
        Opcode::I64AtomicRmwCmpxchg => match i.args {
            Immediates::Mem(a) => parser.i64_atomic_rmw_cmpxchg(a),
            _ => parser.unrecognized(&i),
        },
        Opcode::I32AtomicRmw8CmpxchgU => match i.args {
            Immediates::Mem(a) => parser.i32_atomic_rmw8_cmpxchg_u(a),
            _ => parser.unrecognized(&i),
        },
        Opcode::I32AtomicRmw16CmpxchgU => match i.args {
            Immediates::Mem(a) => parser.i32_atomic_rmw16_cmpxchg_u(a),
            _ => parser.unrecognized(&i),
        },
        Opcode::I64AtomicRmw8CmpxchgU => match i.args {
            Immediates::Mem(a) => parser.i64_atomic_rmw8_cmpxchg_u(a),
            _ => parser.unrecognized(&i),
        },
        Opcode::I64AtomicRmw16CmpxchgU => match i.args {
            Immediates::Mem(a) => parser.i64_atomic_rmw16_cmpxchg_u(a),
            _ => parser.unrecognized(&i),
        },
        Opcode::I64AtomicRmw32CmpxchgU => match i.args {
            Immediates::Mem(a) => parser.i64_atomic_rmw32_cmpxchg_u(a),
            _ => parser.unrecognized(&i),
        },
        Opcode::Try => match i.args {
            Immediates::Block(a) => parser.try_(a),
            _ => parser.unrecognized(&i),
        },
        Opcode::Catch => match i.args {
            Immediates::Tag(a) => parser.catch(a),
            _ => parser.unrecognized(&i),
        },
        Opcode::Throw => match i.args {
            Immediates::Tag(a) => parser.throw(a),
            _ => parser.unrecognized(&i),
        },
        Opcode::Rethrow => match i.args {
            Immediates::Label(a) => parser.rethrow(a),
            _ => parser.unrecognized(&i),
        },
        Opcode::Delegate => match i.args {
            Immediates::Label(a) => parser.delegate(a),
            _ => parser.unrecognized(&i),
        },
        Opcode::CatchAll => match i.args {
            Immediates::NoArgs => parser.catch_all(),
            _ => parser.unrecognized(&i),
        },
        Opcode::I8x16RelaxedSwizzle => match i.args {
            Immediates::NoArgs => parser.i8x16_relaxed_swizzle(),
            _ => parser.unrecognized(&i),
        },
        Opcode::I32x4RelaxedTruncF32x4S => match i.args {
            Immediates::NoArgs => parser.i32x4_relaxed_trunc_f32x4_s(),
            _ => parser.unrecognized(&i),
        },
        Opcode::I32x4RelaxedTruncF32x4U => match i.args {
            Immediates::NoArgs => parser.i32x4_relaxed_trunc_f32x4_u(),
            _ => parser.unrecognized(&i),
        },
        Opcode::I32x4RelaxedTruncF64x2SZero => match i.args {
            Immediates::NoArgs => parser.i32x4_relaxed_trunc_f64x2_s_zero(),
            _ => parser.unrecognized(&i),
        },
        Opcode::I32x4RelaxedTruncF64x2UZero => match i.args {
            Immediates::NoArgs => parser.i32x4_relaxed_trunc_f64x2_u_zero(),
            _ => parser.unrecognized(&i),
        },
        Opcode::F32x4RelaxedMadd => match i.args {
            Immediates::NoArgs => parser.f32x4_relaxed_madd(),
            _ => parser.unrecognized(&i),
        },
        Opcode::F32x4RelaxedNmadd => match i.args {
            Immediates::NoArgs => parser.f32x4_relaxed_nmadd(),
            _ => parser.unrecognized(&i),
        },
        Opcode::F64x2RelaxedMadd => match i.args {
            Immediates::NoArgs => parser.f64x2_relaxed_madd(),
            _ => parser.unrecognized(&i),
        },
        Opcode::F64x2RelaxedNmadd => match i.args {
            Immediates::NoArgs => parser.f64x2_relaxed_nmadd(),
            _ => parser.unrecognized(&i),
        },
        Opcode::I8x16RelaxedLaneselect => match i.args {
            Immediates::NoArgs => parser.i8x16_relaxed_laneselect(),
            _ => parser.unrecognized(&i),
        },
        Opcode::I16x8RelaxedLaneselect => match i.args {
            Immediates::NoArgs => parser.i16x8_relaxed_laneselect(),
            _ => parser.unrecognized(&i),
        },
        Opcode::I32x4RelaxedLaneselect => match i.args {
            Immediates::NoArgs => parser.i32x4_relaxed_laneselect(),
            _ => parser.unrecognized(&i),
        },
        Opcode::I64x2RelaxedLaneselect => match i.args {
            Immediates::NoArgs => parser.i64x2_relaxed_laneselect(),
            _ => parser.unrecognized(&i),
        },
        Opcode::F32x4RelaxedMin => match i.args {
            Immediates::NoArgs => parser.f32x4_relaxed_min(),
            _ => parser.unrecognized(&i),
        },
        Opcode::F32x4RelaxedMax => match i.args {
            Immediates::NoArgs => parser.f32x4_relaxed_max(),
            _ => parser.unrecognized(&i),
        },
        Opcode::F64x2RelaxedMin => match i.args {
            Immediates::NoArgs => parser.f64x2_relaxed_min(),
            _ => parser.unrecognized(&i),
        },
        Opcode::F64x2RelaxedMax => match i.args {
            Immediates::NoArgs => parser.f64x2_relaxed_max(),
            _ => parser.unrecognized(&i),
        },
        Opcode::I16x8RelaxedQ15mulrS => match i.args {
            Immediates::NoArgs => parser.i16x8_relaxed_q15mulr_s(),
            _ => parser.unrecognized(&i),
        },
        Opcode::I16x8RelaxedDotI8x16I7x16S => match i.args {
            Immediates::NoArgs => parser.i16x8_relaxed_dot_i8x16_i7x16_s(),
            _ => parser.unrecognized(&i),
        },
        Opcode::I32x4RelaxedDotI8x16I7x16AddS => match i.args {
            Immediates::NoArgs => parser.i32x4_relaxed_dot_i8x16_i7x16_add_s(),
            _ => parser.unrecognized(&i),
        },
    }
}

/// Turns the answer `r` of a [`ParseInstr`] implementation to the instruction with the opcode
/// `opcode`, read from the start of `input`, into the result of parsing it: a refusal is reported
/// at the start of the instruction, and an error from an immediate argument is kept.
fn hand_over<'a, E: ErrorSource<'a>>(input: &'a [u8], opcode: Opcode, r: Result<(), ParseInstrError<E>>) -> (res: Result<(), E>)
    ensures
        spec_reported(input@, opcode, r, res),
{
    match r {
        Ok(()) => Ok(()),
        Err(ParseInstrError::Unrecognized) => Err(
            E::from_error_cause(input, ErrorCause::Instr { opcode, reason: InvalidInstr::Unrecognized }),
        ),
        Err(ParseInstrError::Cause(cause)) => Err(E::from_error_cause(input, cause)),
        Err(ParseInstrError::ParseFailed(e)) => Err(e),
    }
}


/// Parses a [WebAssembly **`instr`**uction] and hands it to the method of `parser` for its kind,
/// giving `parser` back.
///
/// Fails if the instruction could not be read, with the error of [`Instr::parse`]; otherwise,
/// fails exactly when `parser` refuses the instruction: an unrecognized instruction, or a cause
/// that `parser` gives, is reported at the start of the instruction.
///
/// [WebAssembly **`instr`**uction]: https://webassembly.github.io/spec/core/binary/instructions.html
#[verifier::spinoff_prover]
pub fn instr<'a, P: ParseInstr<'a, E>, E: ErrorSource<'a>>(input: &'a [u8], parser: P) -> (res: Parsed<'a, P, E>)
    ensures
        match spec_instr(input@) {
            Err((at, cause)) => res matches Err(e) && error_at(input@, e, at, cause),
            Ok((n, ins)) => match res {
                Ok((rest, after)) => n <= input@.len() && rest@ == input@.skip(n as int)
                    && spec_handed(input@, ins, parser, after, Ok(())),
                Err(e) => spec_refused(input@, ins, parser, e),
            },
        },
{
    let mut p = parser;
    match InstrParser::parse_with(input, &mut p) {
        Ok((rest, ())) => {
            proof {
                match spec_instr(input@) {
                    Ok((n, ins)) => {
                        assert(n <= input@.len() && rest@ == input@.skip(n as int));
                        assert(spec_handed(input@, ins, parser, p, Ok(())));
                    },
                    Err(_) => {},
                }
            }
            Ok((rest, p))
        },
        Err(e) => {
            proof {
                match spec_instr(input@) {
                    Ok((_, ins)) => {
                        assert(spec_handed(input@, ins, parser, p, Err(e)));
                    },
                    Err((at, cause)) => assert(error_at(input@, e, at, cause)),
                }
            }
            Err(e)
        },
    }
}

/// Parses [WebAssembly instructions] one at a time, handing each to a [`ParseInstr`]
/// implementation.
///
/// [WebAssembly instructions]: https://webassembly.github.io/spec/core/binary/instructions.html
pub struct InstrParser<P> {
    parser: P,
}

impl<P> InstrParser<P> {
    /// Creates a parser that hands instructions to `parser`.
    pub fn new(parser: P) -> (r: Self)
        ensures
            r.spec_parser() == parser,
    {
        InstrParser { parser }
    }

    /// The [`ParseInstr`] implementation that instructions are handed to.
    pub closed spec fn spec_parser(&self) -> P {
        self.parser
    }

    /// Gives back the [`ParseInstr`] implementation that instructions were handed to.
    pub fn into_parse_instr(self) -> (r: P)
        ensures
            r == self.spec_parser(),
    {
        self.parser
    }

    fn parse_with<'a, E: ErrorSource<'a>>(input: &'a [u8], parser: &mut P) -> (res: Parsed<'a, (), E>)
        where
            P: ParseInstr<'a, E>,
        ensures
            match spec_instr(input@) {
                Err((at, cause)) => res matches Err(e) && error_at(input@, e, at, cause)
                    && *final(parser) == *old(parser),
                Ok((n, ins)) => match res {
                    Ok((rest, _)) => n <= input@.len() && rest@ == input@.skip(n as int)
                        && spec_handed(input@, ins, *old(parser), *final(parser), Ok(())),
                    Err(e) => spec_handed(input@, ins, *old(parser), *final(parser), Err(e)),
                },
            },
    {
        let (rest, i) = match Instr::parse(input) {
            Ok(x) => x,
            Err(e) => return Err(e),
        };
        let opcode = i.opcode;
        match hand_over(input, opcode, dispatch(parser, i)) {
            Ok(()) => Ok((rest, ())),
            Err(e) => Err(e),
        }
    }

    /// Parses an instruction and hands it to the [`ParseInstr`] implementation; see [`instr`].
    pub fn parse<'a, E: ErrorSource<'a>>(&mut self, input: &'a [u8]) -> (res: Parsed<'a, (), E>)
        where
            P: ParseInstr<'a, E>,
        ensures
            match spec_instr(input@) {
                Err((at, cause)) => res matches Err(e) && error_at(input@, e, at, cause)
                    && final(self).spec_parser() == old(self).spec_parser(),
                Ok((n, ins)) => match res {
                    Ok((rest, _)) => n <= input@.len() && rest@ == input@.skip(n as int)
                        && spec_handed(input@, ins, old(self).spec_parser(), final(self).spec_parser(), Ok(())),
                    Err(e) => spec_handed(input@, ins, old(self).spec_parser(), final(self).spec_parser(), Err(e)),
                },
            },
    {
        Self::parse_with(input, &mut self.parser)
    }
}

/// Moves a count of bytes read from the input after its first `k` bytes to a count from the
/// start of the input; an error stays as it is.
pub open spec fn spec_offset<E>(k: int, r: Result<int, E>) -> Result<int, E> {
    match r {
        Ok(m) => Ok(m + k),
        Err(e) => Err(e),
    }
}

/// The number of bytes of `input` that a successful parse `res` read, or its error.
pub open spec fn spec_read_count<'a, E>(input: Seq<u8>, res: Parsed<'a, (), E>) -> Result<int, E> {
    match res {
        Ok((rest, _)) => Ok(input.len() - rest@.len()),
        Err(e) => Err(e),
    }
}

/// What handing the instructions of an expression in `s`, read until `depth` open blocks are
/// closed, to an implementation that goes from `before` to `after` gives: `Ok` with the number of
/// bytes read, or the error that stops it. That error is the one of reading an instruction or of
/// nesting blocks wrongly, at its place in `s`, or the report of the first instruction that the
/// implementation does not accept. Each instruction is handed over exactly as it was read, in
/// order, and only while the implementation accepts the ones before it.
#[verifier::opaque]
pub open spec fn spec_expr_handed<'a, E: ErrorSource<'a>, P: ParseInstr<'a, E>>(
    s: Seq<u8>,
    depth: u32,
    before: P,
    after: P,
    res: Result<int, E>,
) -> bool
    decreases s.len(),
{
    if depth == 0 {
        after == before && res == Ok::<int, E>(0)
    } else {
        match spec_instr(s) {
            Err((at, cause)) => after == before && (res matches Err(e) && error_at(s, e, at, cause)),
            Ok((n, ins)) => match spec_nesting(depth, ins.0) {
                Err(cause) => after == before && (res matches Err(e) && error_at(s, e, 0, cause)),
                Ok(d) => if 1 <= n <= s.len() {
                    ||| res matches Err(e) && spec_handed(s, ins, before, after, Err(e))
                    ||| exists|mid: P| #[trigger] spec_handed(s, ins, before, mid, Ok(()))
                            && spec_expr_handed(s.skip(n as int), d, mid, after, spec_offset(-n, res))
                } else {
                    false
                },
            },
        }
    }
}

/// Handing over one accepted instruction: what follows it is handed over from the state the
/// implementation is left in, and its length is added to the count.
#[verifier::spinoff_prover]
#[verifier::rlimit(50)]
proof fn lemma_expr_handed_step<'a, E: ErrorSource<'a>, P: ParseInstr<'a, E>>(
    s: Seq<u8>,
    depth: u32,
    n: nat,
    ins: (Opcode, ImmediatesView),
    d: u32,
    before: P,
    mid: P,
    after: P,
    r: Result<int, E>,
)
    requires
        depth >= 1,
        spec_instr(s) == Outcome::<(Opcode, ImmediatesView)>::Ok((n, ins)),
        spec_nesting(depth, ins.0) == Result::<u32, ErrorCause>::Ok(d),
        1 <= n <= s.len(),
        spec_handed(s, ins, before, mid, Ok(())),
        spec_expr_handed(s.skip(n as int), d, mid, after, r),
    ensures
        spec_expr_handed(s, depth, before, after, spec_offset(n as int, r)),
{
    reveal(spec_expr_handed);
    assert(spec_offset(-n, spec_offset(n as int, r)) == r);
}

/// A run over the whole expression in `input`, from the implementation `before`.
#[verifier::opaque]
spec fn spec_whole_run<'a, E: ErrorSource<'a>, P: ParseInstr<'a, E>>(input: Seq<u8>, before: P, after: P, r: Result<int, E>) -> bool {
    spec_expr_handed(input, 1, before, after, r)
}

/// What is known of the run from the start of an expression carries over an accepted
/// instruction: a run from after it, from the state the implementation is left in, is part of a
/// run from the start.
#[verifier::spinoff_prover]
#[verifier::rlimit(50)]
proof fn lemma_expr_handed_advance<'a, E: ErrorSource<'a>, P: ParseInstr<'a, E>>(
    input: Seq<u8>,
    p0: P,
    s: Seq<u8>,
    k: nat,
    depth: u32,
    n: nat,
    ins: (Opcode, ImmediatesView),
    d: u32,
    before: P,
    mid: P,
)
    requires
        depth >= 1,
        spec_instr(s) == Outcome::<(Opcode, ImmediatesView)>::Ok((n, ins)),
        spec_nesting(depth, ins.0) == Result::<u32, ErrorCause>::Ok(d),
        1 <= n <= s.len(),
        spec_handed(s, ins, before, mid, Ok(())),
        forall|a: P, r: Result<int, E>| #[trigger] spec_expr_handed(s, depth, before, a, r)
            ==> spec_whole_run(input, p0, a, spec_offset(k as int, r)),
    ensures
        forall|a: P, r: Result<int, E>| #[trigger] spec_expr_handed(s.skip(n as int), d, mid, a, r)
            ==> spec_whole_run(input, p0, a, spec_offset((k + n) as int, r)),
{
    assert forall|a: P, r: Result<int, E>| #[trigger] spec_expr_handed(s.skip(n as int), d, mid, a, r)
        implies spec_whole_run(input, p0, a, spec_offset((k + n) as int, r)) by {
        lemma_expr_handed_step(s, depth, n, ins, d, before, mid, a, r);
        assert(spec_offset(k as int, spec_offset(n as int, r)) == spec_offset((k + n) as int, r));
    }
}

/// One turn of reading an expression and handing its instructions over: the instruction read
/// from `s` moves to those already read, and what is known of the run from the start carries
/// over to the input after it.
#[verifier::spinoff_prover]
#[verifier::rlimit(50)]
proof fn lemma_expr_loop_step<'a, E: ErrorSource<'a>, P: ParseInstr<'a, E>>(
    input: Seq<u8>,
    p0: P,
    k: nat,
    done: Seq<(Opcode, ImmediatesView)>,
    s: Seq<u8>,
    depth: u32,
    next: Seq<u8>,
    d: u32,
    before: P,
    mid: P,
) -> (iv: (Opcode, ImmediatesView))
    requires
        depth >= 1,
        s.len() <= input.len(),
        k == input.len() - s.len(),
        s == input.skip(k as int),
        spec_expr(input) == prepend(k, done, spec_expr_from(s, depth)),
        forall|a: P, r: Result<int, E>| #[trigger] spec_expr_handed(s, depth, before, a, r)
            ==> spec_whole_run(input, p0, a, spec_offset(k as int, r)),
        spec_instr(s) matches Ok((n, ins)) && 1 <= n <= s.len() && next == s.skip(n as int)
            && spec_nesting(depth, ins.0) == Result::<u32, ErrorCause>::Ok(d)
            && spec_handed(s, ins, before, mid, Ok(())),
    ensures
        next.len() < s.len(),
        next == input.skip(input.len() - next.len()),
        spec_expr(input) == prepend((input.len() - next.len()) as nat, done.push(iv), spec_expr_from(next, d)),
        forall|a: P, r: Result<int, E>| #[trigger] spec_expr_handed(next, d, mid, a, r)
            ==> spec_whole_run(input, p0, a, spec_offset(input.len() - next.len(), r)),
{
    let (n, ins) = spec_instr(s)->Ok_0;
    lemma_expr_step(s, depth, k, done, n, ins, d);
    lemma_expr_handed_advance(input, p0, s, k, depth, n, ins, d, before, mid);
    assert(input.skip(k as int).skip(n as int) == input.skip((k + n) as int));
    ins
}

/// An instruction that could not be read stops the expression with its error.
proof fn lemma_expr_handed_unread<'a, E: ErrorSource<'a>, P: ParseInstr<'a, E>>(s: Seq<u8>, depth: u32, p: P, e: E)
    requires
        depth >= 1,
        spec_instr(s) matches Err((at, cause)) && error_at(s, e, at, cause),
    ensures
        spec_expr_handed(s, depth, p, p, Err::<int, E>(e)),
{
    reveal(spec_expr_handed);
}

/// An instruction that nests blocks wrongly stops the expression with an error at its start.
proof fn lemma_expr_handed_misnested<'a, E: ErrorSource<'a>, P: ParseInstr<'a, E>>(
    s: Seq<u8>,
    depth: u32,
    n: nat,
    ins: (Opcode, ImmediatesView),
    cause: ErrorCause,
    p: P,
    e: E,
)
    requires
        depth >= 1,
        spec_instr(s) == Outcome::<(Opcode, ImmediatesView)>::Ok((n, ins)),
        spec_nesting(depth, ins.0) == Result::<u32, ErrorCause>::Err(cause),
        error_at(s, e, 0, cause),
    ensures
        spec_expr_handed(s, depth, p, p, Err::<int, E>(e)),
{
    reveal(spec_expr_handed);
}

/// An instruction that the implementation does not accept stops the expression with the report
/// of its answer.
proof fn lemma_expr_handed_stopped<'a, E: ErrorSource<'a>, P: ParseInstr<'a, E>>(
    s: Seq<u8>,
    depth: u32,
    n: nat,
    ins: (Opcode, ImmediatesView),
    d: u32,
    before: P,
    after: P,
    e: E,
)
    requires
        depth >= 1,
        spec_instr(s) == Outcome::<(Opcode, ImmediatesView)>::Ok((n, ins)),
        spec_nesting(depth, ins.0) == Result::<u32, ErrorCause>::Ok(d),
        1 <= n <= s.len(),
        spec_handed(s, ins, before, after, Err(e)),
    ensures
        spec_expr_handed(s, depth, before, after, Err::<int, E>(e)),
{
    reveal(spec_expr_handed);
}

/// Once every block is closed, the expression is over: nothing more is read or handed over.
proof fn lemma_expr_handed_closed<'a, E: ErrorSource<'a>, P: ParseInstr<'a, E>>(s: Seq<u8>, p: P)
    ensures
        spec_expr_handed(s, 0, p, p, Ok::<int, E>(0)),
{
    reveal(spec_expr_handed);
}

/// Reads the instruction at the start of `input`, inside `depth` open blocks, and hands it to
/// `parser`: the input after it and the new depth, or the error that stops the expression there.
#[verifier::spinoff_prover]
fn hand_next<'a, E: ErrorSource<'a>, P: ParseInstr<'a, E>>(parser: &mut P, input: &'a [u8], depth: u32) -> (r: Result<(&'a [u8], u32), E>)
    requires
        depth >= 1,
    ensures
        match r {
            Ok((next, d)) => spec_instr(input@) matches Ok((n, ins)) && 1 <= n <= input@.len()
                && next@ == input@.skip(n as int) && spec_nesting(depth, ins.0) == Result::<u32, ErrorCause>::Ok(d)
                && spec_handed(input@, ins, *old(parser), *final(parser), Ok(())),
            Err(e) => spec_expr_handed(input@, depth, *old(parser), *final(parser), Err::<int, E>(e)),
        },
{
    let ghost cur = *parser;
    proof {
        lemma_instr_progress(input@);
    }
    let (next, i) = match Instr::parse(input) {
        Ok(x) => x,
        Err(e) => {
            proof {
                lemma_expr_handed_unread(input@, depth, cur, e);
            }
            return Err(e);
        },
    };
    let ghost n: nat = (input@.len() - next@.len()) as nat;
    let d = match nesting(depth, i.opcode) {
        Ok(d) => d,
        Err(cause) => {
            let e = E::from_error_cause(input, cause);
            proof {
                assert(input@.skip(0) == input@);
                lemma_expr_handed_misnested(input@, depth, n, i@, cause, cur, e);
            }
            return Err(e);
        },
    };
    let ghost iv = i@;
    let opcode = i.opcode;
    let answer = dispatch(parser, i);
    match hand_over(input, opcode, answer) {
        Ok(()) => {
            proof {
                assert(spec_handed(input@, iv, cur, *parser, Ok(())));
            }
            Ok((next, d))
        },
        Err(e) => {
            proof {
                assert(spec_handed(input@, iv, cur, *parser, Err(e)));
                lemma_expr_handed_stopped(input@, depth, n, iv, d, cur, *parser, e);
            }
            Err(e)
        },
    }
}

/// Parses [WebAssembly expressions], handing each of their instructions to a [`ParseInstr`]
/// implementation, and keeping track of nested blocks.
///
/// [WebAssembly expressions]: https://webassembly.github.io/spec/core/binary/instructions.html#expressions
pub struct ExprParser<P> {
    parser: P,
}

impl<P> ExprParser<P> {
    /// Creates a parser that hands the instructions of expressions to `parser`.
    pub fn new(parser: P) -> (r: Self)
        ensures
            r.spec_parser() == parser,
    {
        ExprParser { parser }
    }

    /// The [`ParseInstr`] implementation that instructions are handed to.
    pub closed spec fn spec_parser(&self) -> P {
        self.parser
    }

    /// Gives back the [`ParseInstr`] implementation that instructions were handed to.
    pub fn into_parse_instr(self) -> (r: P)
        ensures
            r == self.spec_parser(),
    {
        self.parser
    }

    /// Parses an expression: instructions up to and including the `end` that closes the
    /// implicit outermost block, each handed in turn to the [`ParseInstr`] implementation. Fails
    /// if an instruction could not be read or nests blocks wrongly, with the error that
    /// [`expr`](crate::isa::expr::expr) reports, or at the first instruction that the
    /// implementation does not accept, with the report of its answer.
    #[verifier::spinoff_prover]
    #[verifier::rlimit(100)]
    pub fn parse<'a, E: ErrorSource<'a>>(&mut self, input: &'a [u8]) -> (res: Parsed<'a, (), E>)
        where
            P: ParseInstr<'a, E>,
        ensures
            spec_expr_handed(input@, 1, old(self).spec_parser(), final(self).spec_parser(), spec_read_count(input@, res)),
            res matches Ok((rest, _)) ==> (spec_expr(input@) matches Ok((n, _)) && n <= input@.len()
                && rest@ == input@.skip(n as int)),
            spec_expr(input@) is Err ==> res is Err,
    {
        let ghost p0 = self.parser;
        let mut depth: u32 = 1;
        let mut rest: &'a [u8] = input;
        let ghost mut done: Seq<(Opcode, ImmediatesView)> = Seq::empty();
        assert(input@.skip(0) =~= input@);
        assert forall|a: P, r: Result<int, E>| #[trigger] spec_expr_handed(input@, 1, p0, a, r)
            implies spec_whole_run(input@, p0, a, spec_offset(0, r)) by {
            reveal(spec_whole_run);
            assert(spec_offset(0, r) == r);
        }
        while depth > 0
            invariant
                rest@.len() <= input@.len(),
                rest@ == input@.skip(input@.len() - rest@.len()),
                spec_expr(input@) == prepend((input@.len() - rest@.len()) as nat, done, spec_expr_from(rest@, depth)),
                p0 == old(self).spec_parser(),
                forall|a: P, r: Result<int, E>| #[trigger] spec_expr_handed(rest@, depth, self.parser, a, r)
                    ==> spec_whole_run(input@, p0, a, spec_offset(input@.len() - rest@.len(), r)),
            decreases rest@.len(),
        {
            let ghost k: nat = (input@.len() - rest@.len()) as nat;
            let ghost before = rest@;
            let ghost cur = self.parser;
            let ghost depth0 = depth;
            match hand_next(&mut self.parser, rest, depth) {
                Ok((next, d)) => {
                    proof {
                        let iv = lemma_expr_loop_step(input@, p0, k, done, before, depth0, next@, d, cur, self.parser);
                        done = done.push(iv);
                    }
                    depth = d;
                    rest = next;
                },
                Err(e) => {
                    proof {
                        assert(spec_expr_handed(before, depth0, cur, self.parser, Err::<int, E>(e)));
                        assert(spec_whole_run(input@, p0, self.parser, spec_offset(k as int, Err::<int, E>(e))));
                        assert(spec_offset(k as int, Err::<int, E>(e)) == Err::<int, E>(e));
                        reveal(spec_whole_run);
                    }
                    return Err(e);
                },
            }
        }
        proof {
            lemma_expr_handed_closed::<E, P>(rest@, self.parser);
            reveal(spec_whole_run);
        }
        Ok((rest, ()))
    }
}

} // verus!
