//! Parsing of [WebAssembly instructions]: an opcode followed by the immediate arguments that the
//! opcode calls for.
//!
//! [WebAssembly instructions]: https://webassembly.github.io/spec/core/binary/instructions.html

use vstd::prelude::*;

use crate::error::{agrees, group_skip, lemma_repeat_err, map_outcome, shift, spec_pair, spec_repeat, ErrorCause, ErrorSource, Outcome, Parsed};
use crate::index::{
    spec_data_idx, spec_elem_idx, spec_func_idx, spec_global_idx, spec_label_idx, spec_local_idx, spec_mem_idx,
    spec_table_idx, spec_tag_idx, spec_type_idx, DataIdx, ElemIdx, FuncIdx, GlobalIdx, LabelIdx, LocalIdx, MemIdx,
    TableIdx, TagIdx, TypeIdx,
};
use crate::isa::decode::{lemma_opcode_progress, spec_opcode};
use crate::isa::invalid::InvalidInstr;
use crate::isa::mem_arg::{spec_mem_arg, MemArg};
use crate::isa::opcode::{spec_immediate_kind, spec_name, ImmKind, Opcode};
use crate::leb128::{leb128_s32, leb128_s64, lemma_leb128_round_trips, spec_leb128_s32, spec_leb128_s64, unsigned_encoding};
use crate::types::{spec_block_type, spec_ref_type, spec_val_type, spec_val_type_byte, BlockType, RefType, ValType};
use crate::values::{
    fixed_le, le_value, lemma_le_value_concat, lemma_le_value_four, spec_vector_length, take16, vector_length, F32, F64, V128, V128ShuffleLanes,
};

verus! {

broadcast use group_skip;

/// A WebAssembly [**`laneidx`**] refers to a lane within a 128-bit vector.
///
/// [**`laneidx`**]: https://webassembly.github.io/spec/core/binary/instructions.html#vector-instructions
pub type LaneIdx = u8;

/// The immediate arguments of an instruction.
#[derive(Clone, Debug, PartialEq, Eq, Hash)]
pub enum Immediates {
    NoArgs,
    Block(BlockType),
    Label(LabelIdx),
    Func(FuncIdx),
    CallIndirect { signature: TypeIdx, table: TableIdx },
    Local(LocalIdx),
    Global(GlobalIdx),
    Mem(MemArg),
    Memory(MemIdx),
    I32(i32),
    I64(i64),
    F32(F32),
    F64(F64),
    MemoryCopy { destination: MemIdx, source: MemIdx },
    MemoryInit { segment: DataIdx, memory: MemIdx },
    Data(DataIdx),
    TableCopy { destination: TableIdx, source: TableIdx },
    TableInit { segment: ElemIdx, table: TableIdx },
    Elem(ElemIdx),
    RefType(RefType),
    Table(TableIdx),
    MemLane { arg: MemArg, lane: LaneIdx },
    V128(V128),
    Shuffle(V128ShuffleLanes),
    Lane(LaneIdx),
    Tag(TagIdx),
    BrTable { targets: Vec<LabelIdx>, default_target: LabelIdx },
    SelectTyped(ValType),
}

/// The meaning of [`Immediates`], with vectors and byte arrays seen as sequences.
pub enum ImmediatesView {
    NoArgs,
    Block(BlockType),
    Label(LabelIdx),
    Func(FuncIdx),
    CallIndirect { signature: TypeIdx, table: TableIdx },
    Local(LocalIdx),
    Global(GlobalIdx),
    Mem(MemArg),
    Memory(MemIdx),
    I32(i32),
    I64(i64),
    F32(u32),
    F64(u64),
    MemoryCopy { destination: MemIdx, source: MemIdx },
    MemoryInit { segment: DataIdx, memory: MemIdx },
    Data(DataIdx),
    TableCopy { destination: TableIdx, source: TableIdx },
    TableInit { segment: ElemIdx, table: TableIdx },
    Elem(ElemIdx),
    RefType(RefType),
    Table(TableIdx),
    MemLane { arg: MemArg, lane: LaneIdx },
    V128(Seq<u8>),
    Shuffle(Seq<u8>),
    Lane(LaneIdx),
    Tag(TagIdx),
    BrTable { targets: Seq<LabelIdx>, default_target: LabelIdx },
    SelectTyped(ValType),
}

impl View for Immediates {
    type V = ImmediatesView;

    open spec fn view(&self) -> ImmediatesView {
        match self {
            Immediates::NoArgs => ImmediatesView::NoArgs,
            Immediates::Block(v) => ImmediatesView::Block(*v),
            Immediates::Label(v) => ImmediatesView::Label(*v),
            Immediates::Func(v) => ImmediatesView::Func(*v),
            Immediates::CallIndirect { signature, table } => ImmediatesView::CallIndirect { signature: *signature, table: *table },
            Immediates::Local(v) => ImmediatesView::Local(*v),
            Immediates::Global(v) => ImmediatesView::Global(*v),
            Immediates::Mem(v) => ImmediatesView::Mem(*v),
            Immediates::Memory(v) => ImmediatesView::Memory(*v),
            Immediates::I32(v) => ImmediatesView::I32(*v),
            Immediates::I64(v) => ImmediatesView::I64(*v),
            Immediates::F32(v) => ImmediatesView::F32(v.bits),
            Immediates::F64(v) => ImmediatesView::F64(v.bits),
            Immediates::MemoryCopy { destination, source } => ImmediatesView::MemoryCopy { destination: *destination, source: *source },
            Immediates::MemoryInit { segment, memory } => ImmediatesView::MemoryInit { segment: *segment, memory: *memory },
            Immediates::Data(v) => ImmediatesView::Data(*v),
            Immediates::TableCopy { destination, source } => ImmediatesView::TableCopy { destination: *destination, source: *source },
            Immediates::TableInit { segment, table } => ImmediatesView::TableInit { segment: *segment, table: *table },
            Immediates::Elem(v) => ImmediatesView::Elem(*v),
            Immediates::RefType(v) => ImmediatesView::RefType(*v),
            Immediates::Table(v) => ImmediatesView::Table(*v),
            Immediates::MemLane { arg, lane } => ImmediatesView::MemLane { arg: *arg, lane: *lane },
            Immediates::V128(v) => ImmediatesView::V128(v.bytes@),
            Immediates::Shuffle(v) => ImmediatesView::Shuffle(v.lanes@),
            Immediates::Lane(v) => ImmediatesView::Lane(*v),
            Immediates::Tag(v) => ImmediatesView::Tag(*v),
            Immediates::BrTable { targets, default_target } => ImmediatesView::BrTable { targets: targets@, default_target: *default_target },
            Immediates::SelectTyped(v) => ImmediatesView::SelectTyped(*v),
        }
    }
}

/// A WebAssembly instruction: its opcode and its immediate arguments.
#[derive(Clone, Debug, PartialEq, Eq, Hash)]
pub struct Instr {
    pub opcode: Opcode,
    pub args: Immediates,
}

impl View for Instr {
    type V = (Opcode, ImmediatesView);

    open spec fn view(&self) -> (Opcode, ImmediatesView) {
        (self.opcode, self.args@)
    }
}

impl Instr {
    /// Gets the name of the instruction, in the WebAssembly text format.
    pub fn name(&self) -> (r: &'static str)
        ensures
            r@ == spec_name(self.opcode),
    {
        self.opcode.name()
    }
}

/// The meaning of a lane index: a single byte.
pub open spec fn spec_lane(s: Seq<u8>, op: Opcode) -> Outcome<LaneIdx> {
    if s.len() >= 1 {
        Ok((1, s[0]))
    } else {
        Err((0, ErrorCause::Instr { opcode: op, reason: InvalidInstr::VectorLane }))
    }
}

/// The meaning of a fixed-width constant of `n` bytes: the bytes, read as a little-endian number.
pub open spec fn spec_fixed(s: Seq<u8>, n: nat, op: Opcode) -> Outcome<nat> {
    if s.len() >= n {
        Ok((n, le_value(s.take(n as int))))
    } else {
        Err((0, ErrorCause::Instr { opcode: op, reason: InvalidInstr::Argument }))
    }
}

/// The meaning of a 16-byte constant.
pub open spec fn spec_bytes16(s: Seq<u8>, op: Opcode) -> Outcome<Seq<u8>> {
    if s.len() >= 16 {
        Ok((16, s.take(16)))
    } else {
        Err((0, ErrorCause::Instr { opcode: op, reason: InvalidInstr::Argument }))
    }
}

/// The meaning of the arguments of `br_table`: a vector of labels followed by the default label.
pub open spec fn spec_br_table(s: Seq<u8>) -> Outcome<(Seq<LabelIdx>, LabelIdx)> {
    match spec_vector_length(s) {
        Err(e) => Err(e),
        Ok((n, count)) => if count == u32::MAX {
            Err((0, ErrorCause::Instr { opcode: Opcode::BrTable, reason: InvalidInstr::BrTableLabelCount }))
        } else {
            match shift(n, spec_repeat(s.skip(n as int), (count + 1) as nat, |t: Seq<u8>| spec_label_idx(t))) {
                Err(e) => Err(e),
                Ok((m, labels)) => Ok((m, (labels.drop_last(), labels.last()))),
            }
        },
    }
}

/// `n` as a byte, saturating at `255`.
pub open spec fn saturate_u8(n: u32) -> u8 {
    if n <= 255 { n as u8 } else { 255 }
}

/// The meaning of the arguments of a typed `select`: a vector holding exactly one value type.
pub open spec fn spec_select_typed(s: Seq<u8>) -> Outcome<ValType> {
    match spec_vector_length(s) {
        Err(e) => Err(e),
        Ok((n, count)) => if count == 0 {
            Err((n, ErrorCause::Instr { opcode: Opcode::SelectTyped, reason: InvalidInstr::SelectTypedArity(0) }))
        } else {
            match shift(n, spec_val_type(s.skip(n as int))) {
                Err(e) => Err(e),
                Ok((m, t)) => if count == 1 {
                    Ok((m, t))
                } else {
                    Err((n, ErrorCause::Instr {
                        opcode: Opcode::SelectTyped,
                        reason: InvalidInstr::SelectTypedArity(saturate_u8(count)),
                    }))
                },
            }
        },
    }
}

/// The meaning of the immediate arguments of the kind `kind` that follow the opcode `op`.
pub open spec fn spec_immediates(kind: ImmKind, op: Opcode, s: Seq<u8>) -> Outcome<ImmediatesView> {
    match kind {
        ImmKind::NoArgs => Ok((0, ImmediatesView::NoArgs)),
        ImmKind::Block => map_outcome(spec_block_type(s), |v: BlockType| ImmediatesView::Block(v)),
        ImmKind::Label => map_outcome(spec_label_idx(s), |v: LabelIdx| ImmediatesView::Label(v)),
        ImmKind::Func => map_outcome(spec_func_idx(s), |v: FuncIdx| ImmediatesView::Func(v)),
        ImmKind::CallIndirect => map_outcome(
            spec_pair(s, |t: Seq<u8>| spec_type_idx(t), |t: Seq<u8>| spec_table_idx(t)),
            |p: (TypeIdx, TableIdx)| ImmediatesView::CallIndirect { signature: p.0, table: p.1 },
        ),
        ImmKind::Local => map_outcome(spec_local_idx(s), |v: LocalIdx| ImmediatesView::Local(v)),
        ImmKind::Global => map_outcome(spec_global_idx(s), |v: GlobalIdx| ImmediatesView::Global(v)),
        ImmKind::Mem => map_outcome(spec_mem_arg(s), |v: MemArg| ImmediatesView::Mem(v)),
        ImmKind::Memory => map_outcome(spec_mem_idx(s), |v: MemIdx| ImmediatesView::Memory(v)),
        ImmKind::I32 => map_outcome(spec_leb128_s32(s), |v: i32| ImmediatesView::I32(v)),
        ImmKind::I64 => map_outcome(spec_leb128_s64(s), |v: i64| ImmediatesView::I64(v)),
        ImmKind::F32 => map_outcome(spec_fixed(s, 4, op), |v: nat| ImmediatesView::F32(v as u32)),
        ImmKind::F64 => map_outcome(spec_fixed(s, 8, op), |v: nat| ImmediatesView::F64(v as u64)),
        ImmKind::MemoryCopy => map_outcome(
            spec_pair(s, |t: Seq<u8>| spec_mem_idx(t), |t: Seq<u8>| spec_mem_idx(t)),
            |p: (MemIdx, MemIdx)| ImmediatesView::MemoryCopy { destination: p.0, source: p.1 },
        ),
        ImmKind::MemoryInit => map_outcome(
            spec_pair(s, |t: Seq<u8>| spec_data_idx(t), |t: Seq<u8>| spec_mem_idx(t)),
            |p: (DataIdx, MemIdx)| ImmediatesView::MemoryInit { segment: p.0, memory: p.1 },
        ),
        ImmKind::Data => map_outcome(spec_data_idx(s), |v: DataIdx| ImmediatesView::Data(v)),
        ImmKind::TableCopy => map_outcome(
            spec_pair(s, |t: Seq<u8>| spec_table_idx(t), |t: Seq<u8>| spec_table_idx(t)),
            |p: (TableIdx, TableIdx)| ImmediatesView::TableCopy { destination: p.0, source: p.1 },
        ),
        ImmKind::TableInit => map_outcome(
            spec_pair(s, |t: Seq<u8>| spec_elem_idx(t), |t: Seq<u8>| spec_table_idx(t)),
            |p: (ElemIdx, TableIdx)| ImmediatesView::TableInit { segment: p.0, table: p.1 },
        ),
        ImmKind::Elem => map_outcome(spec_elem_idx(s), |v: ElemIdx| ImmediatesView::Elem(v)),
        ImmKind::RefType => map_outcome(spec_ref_type(s), |v: RefType| ImmediatesView::RefType(v)),
        ImmKind::Table => map_outcome(spec_table_idx(s), |v: TableIdx| ImmediatesView::Table(v)),
        ImmKind::MemLane => map_outcome(
            spec_pair(s, |t: Seq<u8>| spec_mem_arg(t), |t: Seq<u8>| spec_lane(t, op)),
            |p: (MemArg, LaneIdx)| ImmediatesView::MemLane { arg: p.0, lane: p.1 },
        ),
        ImmKind::V128 => map_outcome(spec_bytes16(s, op), |v: Seq<u8>| ImmediatesView::V128(v)),
        ImmKind::Shuffle => map_outcome(spec_bytes16(s, op), |v: Seq<u8>| ImmediatesView::Shuffle(v)),
        ImmKind::Lane => map_outcome(spec_lane(s, op), |v: LaneIdx| ImmediatesView::Lane(v)),
        ImmKind::Tag => map_outcome(spec_tag_idx(s), |v: TagIdx| ImmediatesView::Tag(v)),
        ImmKind::BrTable => map_outcome(
            spec_br_table(s),
            |p: (Seq<LabelIdx>, LabelIdx)| ImmediatesView::BrTable { targets: p.0, default_target: p.1 },
        ),
        ImmKind::SelectTyped => map_outcome(spec_select_typed(s), |v: ValType| ImmediatesView::SelectTyped(v)),
    }
}

/// The meaning of [`Instr::parse`]: an opcode followed by its immediate arguments.
pub open spec fn spec_instr(s: Seq<u8>) -> Outcome<(Opcode, ImmediatesView)> {
    match spec_opcode(s) {
        Err(e) => Err(e),
        Ok((n, op)) => match shift(n, spec_immediates(spec_immediate_kind(op), op, s.skip(n as int))) {
            Err(e) => Err(e),
            Ok((m, args)) => Ok((m, (op, args))),
        },
    }
}

fn parse_lane<'a, E: ErrorSource<'a>>(input: &'a [u8], op: Opcode) -> (res: Parsed<'a, LaneIdx, E>)
    ensures
        agrees(input@, res, spec_lane(input@, op)),
{
    if input.len() >= 1 {
        let lane: u8 = input[0];
        let (_, rest) = input.split_at(1);
        Ok((rest, lane))
    } else {
        Err(E::from_error_cause(input, ErrorCause::Instr { opcode: op, reason: InvalidInstr::VectorLane }))
    }
}

fn parse_fixed<'a, E: ErrorSource<'a>>(input: &'a [u8], n: usize, op: Opcode) -> (res: Result<(&'a [u8], u64), E>)
    requires
        n <= 8,
    ensures
        match spec_fixed(input@, n as nat, op) {
            Ok((k, v)) => res matches Ok((rest, w)) && k <= input@.len() && rest@ == input@.skip(k as int) && w == v,
            Err((at, cause)) => res matches Err(e) && crate::error::error_at(input@, e, at, cause),
        },
{
    match fixed_le(input, n) {
        Some((rest, v)) => {
            assert(input@.subrange(0, n as int) == input@.take(n as int));
            Ok((rest, v))
        },
        None => Err(E::from_error_cause(input, ErrorCause::Instr { opcode: op, reason: InvalidInstr::Argument })),
    }
}

fn parse_bytes16<'a, E: ErrorSource<'a>>(input: &'a [u8], op: Opcode) -> (res: Result<(&'a [u8], [u8; 16]), E>)
    ensures
        match spec_bytes16(input@, op) {
            Ok((k, v)) => res matches Ok((rest, w)) && k <= input@.len() && rest@ == input@.skip(k as int) && w@ == v,
            Err((at, cause)) => res matches Err(e) && crate::error::error_at(input@, e, at, cause),
        },
{
    match take16(input) {
        Some((rest, a)) => Ok((rest, a)),
        None => Err(E::from_error_cause(input, ErrorCause::Instr { opcode: op, reason: InvalidInstr::Argument })),
    }
}

#[verifier::spinoff_prover]
#[verifier::rlimit(40)]
fn parse_br_table<'a, E: ErrorSource<'a>>(input: &'a [u8]) -> (res: Result<(&'a [u8], Vec<LabelIdx>, LabelIdx), E>)
    ensures
        match spec_br_table(input@) {
            Ok((k, (targets, default_target))) => res matches Ok((rest, t, d)) && k <= input@.len() && rest@ == input@.skip(k as int)
                && t@ == targets && d == default_target,
            Err((at, cause)) => res matches Err(e) && crate::error::error_at(input@, e, at, cause),
        },
{
    let (start, count) = match vector_length(input) {
        Ok(x) => x,
        Err(e) => return Err(e),
    };
    if count == u32::MAX {
        return Err(E::from_error_cause(input, ErrorCause::Instr { opcode: Opcode::BrTable, reason: InvalidInstr::BrTableLabelCount }));
    }
    let total: u32 = count + 1;
    let ghost base: int = input@.len() - start@.len();
    let ghost s = start@;
    let ghost f = |t: Seq<u8>| spec_label_idx(t);
    let mut rest: &'a [u8] = start;
    let mut labels: Vec<LabelIdx> = Vec::new();
    let mut i: u32 = 0;
    while i < total
        invariant
            i <= total,
            total == count + 1,
            s == start@,
            0 <= base <= input@.len(),
            s == input@.skip(base),
            spec_vector_length(input@) == Outcome::<u32>::Ok((base as nat, count)),
            f == (|t: Seq<u8>| spec_label_idx(t)),
            rest@.len() <= s.len(),
            rest@ == s.skip(s.len() - rest@.len()),
            spec_repeat(s, i as nat, f) == Outcome::<Seq<LabelIdx>>::Ok(((s.len() - rest@.len()) as nat, labels@)),
        decreases total - i,
    {
        match LabelIdx::parse(rest) {
            Ok((next, label)) => {
                labels.push(label);
                rest = next;
            },
            Err(e) => {
                proof {
                    lemma_repeat_err(s, (i + 1) as nat, total as nat, f);
                }
                return Err(e);
            },
        }
        i = i + 1;
    }
    let ghost all = labels@;
    let default_target = match labels.pop() {
        Some(d) => d,
        None => {
            assert(false);
            LabelIdx(0)
        },
    };
    assert(labels@ == all.drop_last());
    Ok((rest, labels, default_target))
}

fn parse_select_typed<'a, E: ErrorSource<'a>>(input: &'a [u8]) -> (res: Parsed<'a, ValType, E>)
    ensures
        agrees(input@, res, spec_select_typed(input@)),
{
    let (start, count) = match vector_length(input) {
        Ok(x) => x,
        Err(e) => return Err(e),
    };
    let ghost n: int = input@.len() - start@.len();
    assert(start@ == input@.skip(n));
    if count == 0 {
        return Err(E::from_error_cause(start, ErrorCause::Instr { opcode: Opcode::SelectTyped, reason: InvalidInstr::SelectTypedArity(0) }));
    }
    let (rest, t) = match ValType::parse(start) {
        Ok(x) => x,
        Err(e) => return Err(e),
    };
    if count == 1 {
        Ok((rest, t))
    } else {
        let arity: u8 = if count <= 255 { count as u8 } else { 255 };
        Err(E::from_error_cause(start, ErrorCause::Instr { opcode: Opcode::SelectTyped, reason: InvalidInstr::SelectTypedArity(arity) }))
    }
}

/// Adds to an error in an immediate argument of the instruction `op` the part of the instruction
/// that could not be parsed; where and why parsing first failed stay the same.
fn argument<'a, E: ErrorSource<'a>>(input: &'a [u8], op: Opcode, reason: InvalidInstr, e: E) -> (r: E)
    ensures
        r.spec_input() == e.spec_input(),
        r.spec_cause() == e.spec_cause(),
        r.spec_appended(input, ErrorCause::Instr { opcode: op, reason }, e),
{
    E::append_with_cause(input, ErrorCause::Instr { opcode: op, reason }, e)
}

/// Parses the immediate arguments of the kind `kind` that follow the opcode `op`.
#[verifier::rlimit(50)]
pub fn parse_immediates<'a, E: ErrorSource<'a>>(kind: ImmKind, op: Opcode, input: &'a [u8]) -> (res: Parsed<'a, Immediates, E>)
    ensures
        agrees(input@, res, spec_immediates(kind, op, input@)),
{
    match kind {
        ImmKind::NoArgs => Ok((input, Immediates::NoArgs)),
        ImmKind::Block => match BlockType::parse(input) {
            Ok((rest, v)) => Ok((rest, Immediates::Block(v))),
            Err(e) => Err(argument(input, op, InvalidInstr::Argument, e)),
        },
        ImmKind::Label => match LabelIdx::parse(input) {
            Ok((rest, v)) => Ok((rest, Immediates::Label(v))),
            Err(e) => Err(argument(input, op, InvalidInstr::Argument, e)),
        },
        ImmKind::Func => match FuncIdx::parse(input) {
            Ok((rest, v)) => Ok((rest, Immediates::Func(v))),
            Err(e) => Err(argument(input, op, InvalidInstr::Argument, e)),
        },
        ImmKind::Local => match LocalIdx::parse(input) {
            Ok((rest, v)) => Ok((rest, Immediates::Local(v))),
            Err(e) => Err(argument(input, op, InvalidInstr::Argument, e)),
        },
        ImmKind::Global => match GlobalIdx::parse(input) {
            Ok((rest, v)) => Ok((rest, Immediates::Global(v))),
            Err(e) => Err(argument(input, op, InvalidInstr::Argument, e)),
        },
        ImmKind::Mem => match MemArg::parse(input) {
            Ok((rest, v)) => Ok((rest, Immediates::Mem(v))),
            Err(e) => Err(argument(input, op, InvalidInstr::Argument, e)),
        },
        ImmKind::Memory => match MemIdx::parse(input) {
            Ok((rest, v)) => Ok((rest, Immediates::Memory(v))),
            Err(e) => Err(argument(input, op, InvalidInstr::Argument, e)),
        },
        ImmKind::Data => match DataIdx::parse(input) {
            Ok((rest, v)) => Ok((rest, Immediates::Data(v))),
            Err(e) => Err(argument(input, op, InvalidInstr::Argument, e)),
        },
        ImmKind::Elem => match ElemIdx::parse(input) {
            Ok((rest, v)) => Ok((rest, Immediates::Elem(v))),
            Err(e) => Err(argument(input, op, InvalidInstr::Argument, e)),
        },
        ImmKind::RefType => match RefType::parse(input) {
            Ok((rest, v)) => Ok((rest, Immediates::RefType(v))),
            Err(e) => Err(argument(input, op, InvalidInstr::Argument, e)),
        },
        ImmKind::Table => match TableIdx::parse(input) {
            Ok((rest, v)) => Ok((rest, Immediates::Table(v))),
            Err(e) => Err(argument(input, op, InvalidInstr::Argument, e)),
        },
        ImmKind::Tag => match TagIdx::parse(input) {
            Ok((rest, v)) => Ok((rest, Immediates::Tag(v))),
            Err(e) => Err(argument(input, op, InvalidInstr::Argument, e)),
        },
        ImmKind::CallIndirect => {
            let (rest, a) = match TypeIdx::parse(input) {
                Ok(x) => x,
                Err(e) => return Err(argument(input, op, InvalidInstr::Argument, e)),
            };
            let ghost n: int = input@.len() - rest@.len();
            assert(rest@ == input@.skip(n));
            match TableIdx::parse(rest) {
                Ok((rest, b)) => Ok((rest, Immediates::CallIndirect { signature: a, table: b })),
                Err(e) => Err(argument(rest, op, InvalidInstr::Argument, e)),
            }
        },
        ImmKind::MemoryCopy => {
            let (rest, a) = match MemIdx::parse(input) {
                Ok(x) => x,
                Err(e) => return Err(argument(input, op, InvalidInstr::Destination, e)),
            };
            let ghost n: int = input@.len() - rest@.len();
            assert(rest@ == input@.skip(n));
            match MemIdx::parse(rest) {
                Ok((rest, b)) => Ok((rest, Immediates::MemoryCopy { destination: a, source: b })),
                Err(e) => Err(argument(rest, op, InvalidInstr::Source, e)),
            }
        },
        ImmKind::MemoryInit => {
            let (rest, a) = match DataIdx::parse(input) {
                Ok(x) => x,
                Err(e) => return Err(argument(input, op, InvalidInstr::Argument, e)),
            };
            let ghost n: int = input@.len() - rest@.len();
            assert(rest@ == input@.skip(n));
            match MemIdx::parse(rest) {
                Ok((rest, b)) => Ok((rest, Immediates::MemoryInit { segment: a, memory: b })),
                Err(e) => Err(argument(rest, op, InvalidInstr::Argument, e)),
            }
        },
        ImmKind::TableCopy => {
            let (rest, a) = match TableIdx::parse(input) {
                Ok(x) => x,
                Err(e) => return Err(argument(input, op, InvalidInstr::Destination, e)),
            };
            let ghost n: int = input@.len() - rest@.len();
            assert(rest@ == input@.skip(n));
            match TableIdx::parse(rest) {
                Ok((rest, b)) => Ok((rest, Immediates::TableCopy { destination: a, source: b })),
                Err(e) => Err(argument(rest, op, InvalidInstr::Source, e)),
            }
        },
        ImmKind::TableInit => {
            let (rest, a) = match ElemIdx::parse(input) {
                Ok(x) => x,
                Err(e) => return Err(argument(input, op, InvalidInstr::Argument, e)),
            };
            let ghost n: int = input@.len() - rest@.len();
            assert(rest@ == input@.skip(n));
            match TableIdx::parse(rest) {
                Ok((rest, b)) => Ok((rest, Immediates::TableInit { segment: a, table: b })),
                Err(e) => Err(argument(rest, op, InvalidInstr::Argument, e)),
            }
        },
        ImmKind::I32 => match leb128_s32(input) {
            Ok((rest, v)) => Ok((rest, Immediates::I32(v))),
            Err(e) => Err(argument(input, op, InvalidInstr::Argument, e)),
        },
        ImmKind::I64 => match leb128_s64(input) {
            Ok((rest, v)) => Ok((rest, Immediates::I64(v))),
            Err(e) => Err(argument(input, op, InvalidInstr::Argument, e)),
        },
        ImmKind::F32 => match parse_fixed(input, 4, op) {
            Ok((rest, v)) => {
                proof {
                    crate::values::lemma_le_value_bound(input@.take(4));
                    reveal_with_fuel(crate::values::byte_power, 5);
                }
                Ok((rest, Immediates::F32(F32 { bits: v as u32 })))
            },
            Err(e) => Err(e),
        },
        ImmKind::F64 => match parse_fixed(input, 8, op) {
            Ok((rest, v)) => Ok((rest, Immediates::F64(F64 { bits: v }))),
            Err(e) => Err(e),
        },
        ImmKind::MemLane => {
            let (rest, arg) = match MemArg::parse(input) {
                Ok(x) => x,
                Err(e) => return Err(argument(input, op, InvalidInstr::Argument, e)),
            };
            let ghost n: int = input@.len() - rest@.len();
            assert(rest@ == input@.skip(n));
            match parse_lane(rest, op) {
                Ok((rest, lane)) => Ok((rest, Immediates::MemLane { arg, lane })),
                Err(e) => Err(e),
            }
        },
        ImmKind::V128 => match parse_bytes16(input, op) {
            Ok((rest, bytes)) => Ok((rest, Immediates::V128(V128 { bytes }))),
            Err(e) => Err(e),
        },
        ImmKind::Shuffle => match parse_bytes16(input, op) {
            Ok((rest, lanes)) => Ok((rest, Immediates::Shuffle(V128ShuffleLanes { lanes }))),
            Err(e) => Err(e),
        },
        ImmKind::Lane => match parse_lane(input, op) {
            Ok((rest, v)) => Ok((rest, Immediates::Lane(v))),
            Err(e) => Err(e),
        },
        ImmKind::BrTable => match parse_br_table(input) {
            Ok((rest, targets, default_target)) => Ok((rest, Immediates::BrTable { targets, default_target })),
            Err(e) => Err(argument(input, op, InvalidInstr::Argument, e)),
        },
        ImmKind::SelectTyped => match parse_select_typed(input) {
            Ok((rest, v)) => Ok((rest, Immediates::SelectTyped(v))),
            Err(e) => Err(argument(input, op, InvalidInstr::Argument, e)),
        },
    }
}

impl Instr {
    /// Parses a [WebAssembly **`instr`**uction]: its opcode, then the immediate arguments the
    /// opcode calls for.
    ///
    /// [WebAssembly **`instr`**uction]: https://webassembly.github.io/spec/core/binary/instructions.html
    pub fn parse<'a, E: ErrorSource<'a>>(input: &'a [u8]) -> (res: Parsed<'a, Instr, E>)
        ensures
            agrees(input@, res, spec_instr(input@)),
    {
        let (rest, opcode) = match Opcode::parse(input) {
            Ok(x) => x,
            Err(e) => return Err(e),
        };
        let ghost n: int = input@.len() - rest@.len();
        assert(rest@ == input@.skip(n));
        match parse_immediates(opcode.immediate_kind(), opcode, rest) {
            Ok((rest, args)) => Ok((rest, Instr { opcode, args })),
            Err(e) => Err(e),
        }
    }
}

/// The outcome of reading two immediate arguments one after the other, `first` from `s` and then
/// `second` from the bytes after it, combined by `f` into their meaning.
pub open spec fn two_args<A, B>(
    s: Seq<u8>,
    first: spec_fn(Seq<u8>) -> Outcome<A>,
    second: spec_fn(Seq<u8>) -> Outcome<B>,
    f: spec_fn(A, B) -> ImmediatesView,
) -> Outcome<ImmediatesView> {
    match first(s) {
        Err(e) => Err(e),
        Ok((n, a)) => match second(s.skip(n as int)) {
            Err((at, cause)) => Err((n + at, cause)),
            Ok((m, b)) => Ok((n + m, f(a, b))),
        },
    }
}

/// Instructions with two immediate arguments read them in the order the binary format lays
/// down, the first from the bytes right after the opcode: `call_indirect` the type index of the
/// signature, then the table index; `memory.copy` and `table.copy` the destination, then the
/// source; `memory.init` the data segment, then the memory; `table.init` the element segment,
/// then the table; and a lane access the memory argument, then the lane.
pub proof fn lemma_two_immediates(op: Opcode, s: Seq<u8>)
    ensures
        spec_immediates(ImmKind::CallIndirect, op, s) == two_args(s, |t: Seq<u8>| spec_type_idx(t),
            |t: Seq<u8>| spec_table_idx(t), |x: TypeIdx, y: TableIdx| ImmediatesView::CallIndirect { signature: x, table: y }),
        spec_immediates(ImmKind::MemoryCopy, op, s) == two_args(s, |t: Seq<u8>| spec_mem_idx(t),
            |t: Seq<u8>| spec_mem_idx(t), |x: MemIdx, y: MemIdx| ImmediatesView::MemoryCopy { destination: x, source: y }),
        spec_immediates(ImmKind::MemoryInit, op, s) == two_args(s, |t: Seq<u8>| spec_data_idx(t),
            |t: Seq<u8>| spec_mem_idx(t), |x: DataIdx, y: MemIdx| ImmediatesView::MemoryInit { segment: x, memory: y }),
        spec_immediates(ImmKind::TableCopy, op, s) == two_args(s, |t: Seq<u8>| spec_table_idx(t),
            |t: Seq<u8>| spec_table_idx(t), |x: TableIdx, y: TableIdx| ImmediatesView::TableCopy { destination: x, source: y }),
        spec_immediates(ImmKind::TableInit, op, s) == two_args(s, |t: Seq<u8>| spec_elem_idx(t),
            |t: Seq<u8>| spec_table_idx(t), |x: ElemIdx, y: TableIdx| ImmediatesView::TableInit { segment: x, table: y }),
        spec_immediates(ImmKind::MemLane, op, s) == two_args(s, |t: Seq<u8>| spec_mem_arg(t),
            |t: Seq<u8>| spec_lane(t, op), |x: MemArg, y: LaneIdx| ImmediatesView::MemLane { arg: x, lane: y }),
{
}

/// `call_indirect` (the byte `0x11`) takes the type index of its signature first and the table
/// index second: when both can be read after the opcode, they are its arguments, in that order.
pub proof fn lemma_call_indirect(s: Seq<u8>)
    ensures
        spec_type_idx(s) matches Ok((n, x)) ==> (spec_table_idx(s.skip(n as int)) matches Ok((m, y))
            ==> spec_instr(seq![0x11u8] + s) == Outcome::<(Opcode, ImmediatesView)>::Ok(
                (1 + n + m, (Opcode::CallIndirect, ImmediatesView::CallIndirect { signature: x, table: y })))),
{
    let t = seq![0x11u8] + s;
    assert(t.skip(1) =~= s);
    assert(t[0] == 0x11u8);
    assert(spec_opcode(t) == Outcome::<Opcode>::Ok((1, Opcode::CallIndirect)));
    assert(spec_immediate_kind(Opcode::CallIndirect) == ImmKind::CallIndirect);
    lemma_two_immediates(Opcode::CallIndirect, s);
}

/// Floating-point constants are their bits as four (`f32.const`) or eight (`f64.const`) bytes,
/// least significant first, and a 128-bit vector constant, or the lanes of a shuffle, are the
/// sixteen bytes that follow in order.
pub proof fn lemma_fixed_immediates(op: Opcode, a: u8, b: u8, c: u8, d: u8, s: Seq<u8>)
    ensures
        spec_immediates(ImmKind::F32, op, seq![a, b, c, d] + s) == Outcome::<ImmediatesView>::Ok(
            (4, ImmediatesView::F32((a + 0x100 * b + 0x1_0000 * c + 0x100_0000 * d) as u32))),
        s.len() >= 16 ==> spec_immediates(ImmKind::V128, op, s) == Outcome::<ImmediatesView>::Ok((16, ImmediatesView::V128(s.take(16)))),
        s.len() >= 16 ==> spec_immediates(ImmKind::Shuffle, op, s) == Outcome::<ImmediatesView>::Ok((16, ImmediatesView::Shuffle(s.take(16)))),
        s.len() >= 8 ==> spec_immediates(ImmKind::F64, op, s) == Outcome::<ImmediatesView>::Ok(
            (8, ImmediatesView::F64((le_value(s.take(4)) + 0x1_0000_0000 * le_value(s.skip(4).take(4))) as u64))),
{
    let t = seq![a, b, c, d] + s;
    assert(t.take(4) =~= seq![a, b, c, d]);
    lemma_le_value_four(a, b, c, d);
    if s.len() >= 8 {
        let x = s.take(4);
        let y = s.skip(4).take(4);
        assert(s.take(8) =~= x + y);
        lemma_le_value_concat(x, y);
        reveal_with_fuel(crate::values::byte_power, 5);
    }
}

/// A typed `select` carries a vector of value types that must hold exactly one: its count as a
/// *LEB128* `u32`, then the types. One type is read back as that type; no type, or more than one,
/// is an error that names how many there were (at most `255`).
pub proof fn lemma_select_typed_layout(count: u32, b: u8, s: Seq<u8>)
    ensures
        spec_val_type_byte(b) matches Some(t) ==> (count == 1 ==> spec_select_typed(unsigned_encoding(count as nat) + seq![b] + s)
            == Outcome::<ValType>::Ok((unsigned_encoding(count as nat).len() + 1, t))),
        count == 0 ==> spec_select_typed(unsigned_encoding(count as nat) + seq![b] + s) == Outcome::<ValType>::Err(
            (unsigned_encoding(count as nat).len(), ErrorCause::Instr { opcode: Opcode::SelectTyped, reason: InvalidInstr::SelectTypedArity(0) })),
        spec_val_type_byte(b) is Some ==> (count >= 2 ==> spec_select_typed(unsigned_encoding(count as nat) + seq![b] + s)
            == Outcome::<ValType>::Err((unsigned_encoding(count as nat).len(), ErrorCause::Instr {
                opcode: Opcode::SelectTyped,
                reason: InvalidInstr::SelectTypedArity(saturate_u8(count)),
            }))),
{
    let e = unsigned_encoding(count as nat);
    let t = e + seq![b] + s;
    lemma_leb128_round_trips(seq![b] + s, count, 0, 0, 0);
    assert(t =~= e + (seq![b] + s));
    assert(t.skip(e.len() as int) =~= seq![b] + s);
    crate::types::lemma_val_type_bytes(s);
    assert((seq![b] + s)[0] == b);
}

/// Label indices written one after another, each as a *LEB128* `u32`.
pub open spec fn labels_encoding(labels: Seq<LabelIdx>) -> Seq<u8>
    decreases labels.len(),
{
    if labels.len() == 0 {
        Seq::empty()
    } else {
        labels_encoding(labels.drop_last()) + unsigned_encoding(labels.last().0 as nat)
    }
}

/// Label indices written one after another are read back one after another, in order.
pub proof fn lemma_labels_round_trip(labels: Seq<LabelIdx>, s: Seq<u8>)
    ensures
        spec_repeat(labels_encoding(labels) + s, labels.len(), |t: Seq<u8>| spec_label_idx(t))
            == Outcome::<Seq<LabelIdx>>::Ok((labels_encoding(labels).len(), labels)),
    decreases labels.len(),
{
    if labels.len() > 0 {
        let init = labels.drop_last();
        let last = labels.last();
        let e = unsigned_encoding(last.0 as nat);
        lemma_labels_round_trip(init, e + s);
        assert(labels_encoding(labels) + s =~= labels_encoding(init) + (e + s));
        let t = labels_encoding(labels) + s;
        assert(t.skip(labels_encoding(init).len() as int) =~= e + s);
        lemma_leb128_round_trips(s, last.0, 0, 0, 0);
        assert(init.push(last) =~= labels);
        assert(labels_encoding(labels) == labels_encoding(init) + e);
        assert(spec_repeat(t, (labels.len() - 1) as nat, |t: Seq<u8>| spec_label_idx(t))
            == Outcome::<Seq<LabelIdx>>::Ok((labels_encoding(init).len(), init)));
        assert(spec_label_idx(t.skip(labels_encoding(init).len() as int)) == Outcome::<LabelIdx>::Ok((e.len(), last)));
        assert(spec_repeat(t, labels.len(), |t: Seq<u8>| spec_label_idx(t))
            == Outcome::<Seq<LabelIdx>>::Ok((labels_encoding(labels).len(), labels)));
    } else {
        assert(labels_encoding(labels) + s =~= s);
        assert(labels =~= Seq::<LabelIdx>::empty());
    }
}

/// The immediates of `br_table` are the number of target labels as a *LEB128* `u32`, the target
/// labels in order, and then the default label: reading them written that way gives back the
/// targets in order and the default label.
pub proof fn lemma_br_table_layout(targets: Seq<LabelIdx>, default_target: LabelIdx, s: Seq<u8>)
    requires
        targets.len() < u32::MAX,
    ensures
        spec_br_table(unsigned_encoding(targets.len()) + labels_encoding(targets.push(default_target)) + s)
            == Outcome::<(Seq<LabelIdx>, LabelIdx)>::Ok((unsigned_encoding(targets.len()).len()
            + labels_encoding(targets.push(default_target)).len(), (targets, default_target))),
{
    let all = targets.push(default_target);
    let e = unsigned_encoding(targets.len());
    let l = labels_encoding(all);
    let t = e + l + s;
    lemma_leb128_round_trips(l + s, targets.len() as u32, 0, 0, 0);
    assert(t =~= e + (l + s));
    assert(t.skip(e.len() as int) =~= l + s);
    lemma_labels_round_trip(all, s);
    assert(all.drop_last() =~= targets);
}

/// A parsed instruction takes at least one byte.
pub proof fn lemma_instr_progress(s: Seq<u8>)
    ensures
        spec_instr(s) matches Ok((n, _)) ==> 1 <= n,
{
    lemma_opcode_progress(s);
}

} // verus!
