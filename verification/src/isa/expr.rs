//! Parsing of [WebAssembly expressions]: sequences of instructions terminated by the `end` that
//! closes the implicit outermost block.
//!
//! [WebAssembly expressions]: https://webassembly.github.io/spec/core/binary/instructions.html#expressions

use vstd::prelude::*;

use crate::error::{error_at, group_skip, shift, Error, ErrorCause, ErrorKind, ErrorSource, Outcome};
use crate::isa::instr::{lemma_instr_progress, spec_instr, ImmediatesView, Instr};
use crate::isa::invalid::{InvalidExpr, InvalidInstr};
use crate::isa::opcode::Opcode;
use crate::isa::parse_instr::spec_offset;

verus! {

broadcast use group_skip;

/// How an instruction changes the block nesting level of an expression: `block`, `loop`, `if`
/// and `try` open a block, `end` closes one, and `delegate` closes one that is not the outermost.
pub open spec fn spec_nesting(depth: u32, op: Opcode) -> Result<u32, ErrorCause> {
    if op == Opcode::Block || op == Opcode::Loop || op == Opcode::If || op == Opcode::Try {
        if depth < u32::MAX {
            Ok((depth + 1) as u32)
        } else {
            Err(ErrorCause::Expr(InvalidExpr::BlockNestingOverflow))
        }
    } else if op == Opcode::End {
        Ok((depth - 1) as u32)
    } else if op == Opcode::Delegate {
        if depth > 1 {
            Ok((depth - 1) as u32)
        } else {
            Err(ErrorCause::Expr(InvalidExpr::ExpectedEnds(1)))
        }
    } else {
        Ok(depth)
    }
}

/// How instructions nest in an expression: at any depth `depth >= 1`, `block`, `loop`, `if` and
/// `try` open a block, raising the depth by one (up to the limit of a `u32`); `end` closes one,
/// lowering it by one; `delegate` closes one unless only the outermost block is open; and every
/// other instruction leaves the depth as it is.
pub proof fn lemma_nesting(depth: u32, op: Opcode)
    requires
        depth >= 1,
    ensures
        (op == Opcode::Block || op == Opcode::Loop || op == Opcode::If || op == Opcode::Try) && depth < u32::MAX
            ==> spec_nesting(depth, op) == Ok::<u32, ErrorCause>((depth + 1) as u32),
        (op == Opcode::Block || op == Opcode::Loop || op == Opcode::If || op == Opcode::Try) && depth == u32::MAX
            ==> spec_nesting(depth, op) == Err::<u32, ErrorCause>(ErrorCause::Expr(InvalidExpr::BlockNestingOverflow)),
        op == Opcode::End ==> spec_nesting(depth, op) == Ok::<u32, ErrorCause>((depth - 1) as u32),
        op == Opcode::Delegate && depth > 1 ==> spec_nesting(depth, op) == Ok::<u32, ErrorCause>((depth - 1) as u32),
        op == Opcode::Delegate && depth == 1 ==> spec_nesting(depth, op) == Err::<u32, ErrorCause>(ErrorCause::Expr(InvalidExpr::ExpectedEnds(1))),
        !(op == Opcode::Block || op == Opcode::Loop || op == Opcode::If || op == Opcode::Try || op == Opcode::End
            || op == Opcode::Delegate) ==> spec_nesting(depth, op) == Ok::<u32, ErrorCause>(depth),
{
}

pub(crate) fn nesting(depth: u32, op: Opcode) -> (r: Result<u32, ErrorCause>)
    requires
        depth >= 1,
    ensures
        r == spec_nesting(depth, op),
{
    match op {
        Opcode::Block | Opcode::Loop | Opcode::If | Opcode::Try => {
            if depth < u32::MAX {
                Ok(depth + 1)
            } else {
                Err(ErrorCause::Expr(InvalidExpr::BlockNestingOverflow))
            }
        },
        Opcode::End => Ok(depth - 1),
        Opcode::Delegate => {
            if depth > 1 {
                Ok(depth - 1)
            } else {
                Err(ErrorCause::Expr(InvalidExpr::ExpectedEnds(1)))
            }
        },
        _ => Ok(depth),
    }
}

/// The meaning of parsing instructions until `depth` open blocks are closed: the instructions
/// read, or the first error. (The range check on the length of each instruction always holds:
/// a parsed instruction lies within the input.)
pub open spec fn spec_expr_from(s: Seq<u8>, depth: u32) -> Outcome<Seq<(Opcode, ImmediatesView)>>
    decreases s.len(),
{
    if depth == 0 {
        Ok((0, Seq::empty()))
    } else {
        match spec_instr(s) {
            Err(e) => Err(e),
            Ok((n, i)) => match spec_nesting(depth, i.0) {
                Err(cause) => Err((0, cause)),
                Ok(d) => if 1 <= n <= s.len() {
                    match shift(n, spec_expr_from(s.skip(n as int), d)) {
                        Err(e) => Err(e),
                        Ok((m, rest)) => Ok((m, seq![i] + rest)),
                    }
                } else {
                    Err((0, ErrorCause::Nom(ErrorKind::Verify)))
                },
            },
        }
    }
}

/// The meaning of [`expr`]: instructions up to the `end` that closes the implicit outermost block.
pub open spec fn spec_expr(s: Seq<u8>) -> Outcome<Seq<(Opcode, ImmediatesView)>> {
    spec_expr_from(s, 1)
}

/// Puts instructions already read, taking `k` bytes, in front of an outcome.
pub open spec fn prepend(k: nat, done: Seq<(Opcode, ImmediatesView)>, o: Outcome<Seq<(Opcode, ImmediatesView)>>) -> Outcome<Seq<(Opcode, ImmediatesView)>> {
    match o {
        Ok((m, rest)) => Ok((k + m, done + rest)),
        Err((at, cause)) => Err((k + at, cause)),
    }
}

/// The views of a list of instructions.
pub open spec fn views(instrs: Seq<Instr>) -> Seq<(Opcode, ImmediatesView)> {
    instrs.map_values(|i: Instr| i@)
}

/// Parses a [WebAssembly expression]: instructions up to and including the `end` that closes the
/// implicit outermost block, keeping track of nested blocks.
///
/// [WebAssembly expression]: https://webassembly.github.io/spec/core/binary/instructions.html#expressions
#[verifier::spinoff_prover]
#[verifier::rlimit(60)]
pub fn expr<'a, E: ErrorSource<'a>>(input: &'a [u8]) -> (res: Result<(&'a [u8], Vec<Instr>), E>)
    ensures
        match spec_expr(input@) {
            Ok((n, instrs)) => res matches Ok((rest, v)) && n <= input@.len() && rest@ == input@.skip(n as int)
                && views(v@) == instrs,
            Err((at, cause)) => res matches Err(e) && crate::error::error_at(input@, e, at, cause),
        },
{
    let mut depth: u32 = 1;
    let mut rest: &'a [u8] = input;
    let mut instrs: Vec<Instr> = Vec::new();
    assert(views(instrs@) =~= Seq::<(Opcode, ImmediatesView)>::empty());
    assert(input@.skip(0) =~= input@);
    while depth > 0
        invariant
            rest@.len() <= input@.len(),
            rest@ == input@.skip(input@.len() - rest@.len()),
            spec_expr(input@) == prepend((input@.len() - rest@.len()) as nat, views(instrs@), spec_expr_from(rest@, depth)),
        decreases rest@.len(),
    {
        let ghost k: nat = (input@.len() - rest@.len()) as nat;
        let ghost before = rest@;
        let ghost done = views(instrs@);
        proof {
            lemma_instr_progress(before);
        }
        let (next, i) = match Instr::parse(rest) {
            Ok(x) => x,
            Err(e) => {
                proof {
                    assert(input@.skip(k as int).skip(spec_instr(before)->Err_0.0 as int)
                        == input@.skip((k + spec_instr(before)->Err_0.0) as int));
                }
                return Err(e);
            },
        };
        let ghost n: nat = (before.len() - next@.len()) as nat;
        let ghost depth0 = depth;
        depth = match nesting(depth, i.opcode) {
            Ok(d) => d,
            Err(cause) => {
                proof {
                    assert(input@.skip(k as int).skip(0) == input@.skip(k as int));
                }
                return Err(E::from_error_cause(rest, cause));
            },
        };
        proof {
            lemma_expr_step(before, depth0, k, done, n, i@, depth);
        }
        instrs.push(i);
        proof {
            assert(views(instrs@) =~= done.push(i@));
            assert(input@.skip(k as int).skip(n as int) == input@.skip((k + n) as int));
        }
        rest = next;
    }
    Ok((rest, instrs))
}

/// Error type used in [`ParseExpr`] to indicate that an instruction is not recognized.
#[derive(Clone, Copy, Debug, Default, PartialEq, Eq, Hash)]
pub struct UnrecognizedInstr;

/// Trait for receiving the instructions of a WebAssembly expression, one at a time.
pub trait ParseExpr: Sized {
    /// What an implementation does with an instruction of an expression: `before` and `after`
    /// are the implementation before and after it takes the instruction `ins` (its opcode and
    /// immediate arguments), and `accepted` whether it accepts it. Unless an implementation says
    /// otherwise, it refuses every instruction and stays as it was.
    open spec fn spec_takes(before: Self, after: Self, ins: (Opcode, ImmediatesView), accepted: bool) -> bool {
        !accepted && after == before
    }

    /// Takes the next instruction of the expression, or refuses it as not recognized.
    fn parse(&mut self, instr: Instr) -> (r: Result<(), UnrecognizedInstr>)
        ensures
            Self::spec_takes(*old(self), *final(self), instr@, r is Ok),
    ;
}

impl ParseExpr for Vec<Instr> {
    /// It appends every instruction.
    open spec fn spec_takes(before: Self, after: Self, ins: (Opcode, ImmediatesView), accepted: bool) -> bool {
        &&& accepted
        &&& after@.len() == before@.len() + 1
        &&& after@.drop_last() == before@
        &&& after@.last()@ == ins
    }

    /// Appends the instruction; every instruction is recognized.
    fn parse(&mut self, instr: Instr) -> (r: Result<(), UnrecognizedInstr>)
        ensures
            final(self)@ == old(self)@.push(instr),
            r is Ok,
    {
        self.push(instr);
        proof {
            assert(self@.drop_last() =~= old(self)@);
        }
        Ok(())
    }
}

/// What handing the instructions of an expression in `s`, read until `depth` open blocks are
/// closed, to a [`ParseExpr`] implementation that goes from `before` to `after` gives: `Ok` with
/// the number of bytes read, or the error that stops it. That error is the one of reading an
/// instruction or of nesting blocks wrongly, at its place in `s`, or, at the start of the first
/// instruction that the implementation refuses, the error that it is not recognized. Each
/// instruction is handed over exactly as it was read, in order, and only while the
/// implementation takes the ones before it.
#[verifier::opaque]
pub open spec fn spec_expr_taken<'a, E: ErrorSource<'a>, P: ParseExpr>(
    s: Seq<u8>,
    depth: u32,
    before: P,
    after: P,
    res: Result<int, E>,
) -> bool
    decreases s.len(),
{
    if depth == 0 {
        after == before && res == Ok::<int, E>(0)
    } else {
        match spec_instr(s) {
            Err((at, cause)) => after == before && (res matches Err(e) && error_at(s, e, at, cause)),
            Ok((n, ins)) => match spec_nesting(depth, ins.0) {
                Err(cause) => after == before && (res matches Err(e) && error_at(s, e, 0, cause)),
                Ok(d) => if 1 <= n <= s.len() {
                    ||| res matches Err(e) && P::spec_takes(before, after, ins, false)
                        && error_at(s, e, 0, ErrorCause::Instr { opcode: ins.0, reason: InvalidInstr::Unrecognized })
                    ||| exists|mid: P| #[trigger] P::spec_takes(before, mid, ins, true)
                            && spec_expr_taken(s.skip(n as int), d, mid, after, spec_offset(-n, res))
                } else {
                    false
                },
            },
        }
    }
}

/// The number of bytes of `input` that a successful [`parse_expr`] result `res` read, or its error.
pub open spec fn spec_expr_count<'a, E>(input: Seq<u8>, res: Result<&'a [u8], E>) -> Result<int, E> {
    match res {
        Ok(rest) => Ok(input.len() - rest@.len()),
        Err(e) => Err(e),
    }
}

/// A run over the whole expression in `input`, from the implementation `before`.
#[verifier::opaque]
spec fn spec_whole_take<'a, E: ErrorSource<'a>, P: ParseExpr>(input: Seq<u8>, before: P, after: P, r: Result<int, E>) -> bool {
    spec_expr_taken(input, 1, before, after, r)
}

/// Handing over one accepted instruction: what follows it is handed over from the state the
/// implementation is left in, and its length is added to the count.
#[verifier::spinoff_prover]
#[verifier::rlimit(50)]
proof fn lemma_expr_taken_step<'a, E: ErrorSource<'a>, P: ParseExpr>(
    s: Seq<u8>,
    depth: u32,
    n: nat,
    ins: (Opcode, ImmediatesView),
    d: u32,
    before: P,
    mid: P,
    after: P,
    r: Result<int, E>,
)
    requires
        depth >= 1,
        spec_instr(s) == Outcome::<(Opcode, ImmediatesView)>::Ok((n, ins)),
        spec_nesting(depth, ins.0) == Result::<u32, ErrorCause>::Ok(d),
        1 <= n <= s.len(),
        P::spec_takes(before, mid, ins, true),
        spec_expr_taken(s.skip(n as int), d, mid, after, r),
    ensures
        spec_expr_taken(s, depth, before, after, spec_offset(n as int, r)),
{
    reveal(spec_expr_taken);
    assert(spec_offset(-n, spec_offset(n as int, r)) == r);
}

/// One turn of reading an expression and handing its instructions over: the instruction read
/// from `s` moves to those already read, and what is known of the run from the start carries
/// over to the input after it.
#[verifier::spinoff_prover]
#[verifier::rlimit(50)]
proof fn lemma_expr_take_loop_step<'a, E: ErrorSource<'a>, P: ParseExpr>(
    input: Seq<u8>,
    p0: P,
    k: nat,
    done: Seq<(Opcode, ImmediatesView)>,
    s: Seq<u8>,
    depth: u32,
    next: Seq<u8>,
    d: u32,
    before: P,
    mid: P,
) -> (iv: (Opcode, ImmediatesView))
    requires
        depth >= 1,
        s.len() <= input.len(),
        k == input.len() - s.len(),
        s == input.skip(k as int),
        spec_expr(input) == prepend(k, done, spec_expr_from(s, depth)),
        forall|a: P, r: Result<int, E>| #[trigger] spec_expr_taken(s, depth, before, a, r)
            ==> spec_whole_take(input, p0, a, spec_offset(k as int, r)),
        spec_instr(s) matches Ok((n, ins)) && 1 <= n <= s.len() && next == s.skip(n as int)
            && spec_nesting(depth, ins.0) == Result::<u32, ErrorCause>::Ok(d)
            && P::spec_takes(before, mid, ins, true),
    ensures
        next.len() < s.len(),
        next == input.skip(input.len() - next.len()),
        spec_expr(input) == prepend((input.len() - next.len()) as nat, done.push(iv), spec_expr_from(next, d)),
        forall|a: P, r: Result<int, E>| #[trigger] spec_expr_taken(next, d, mid, a, r)
            ==> spec_whole_take(input, p0, a, spec_offset(input.len() - next.len(), r)),
{
    let (n, ins) = spec_instr(s)->Ok_0;
    lemma_expr_step(s, depth, k, done, n, ins, d);
    lemma_expr_taken_advance::<E, P>(input, p0, s, k, depth, n, ins, d, before, mid);
    assert(input.skip(k as int).skip(n as int) == input.skip((k + n) as int));
    ins
}

/// What is known of the run from the start of an expression carries over an accepted
/// instruction: a run from after it, from the state the implementation is left in, is part of a
/// run from the start.
#[verifier::spinoff_prover]
#[verifier::rlimit(50)]
proof fn lemma_expr_taken_advance<'a, E: ErrorSource<'a>, P: ParseExpr>(
    input: Seq<u8>,
    p0: P,
    s: Seq<u8>,
    k: nat,
    depth: u32,
    n: nat,
    ins: (Opcode, ImmediatesView),
    d: u32,
    before: P,
    mid: P,
)
    requires
        depth >= 1,
        spec_instr(s) == Outcome::<(Opcode, ImmediatesView)>::Ok((n, ins)),
        spec_nesting(depth, ins.0) == Result::<u32, ErrorCause>::Ok(d),
        1 <= n <= s.len(),
        P::spec_takes(before, mid, ins, true),
        forall|a: P, r: Result<int, E>| #[trigger] spec_expr_taken(s, depth, before, a, r)
            ==> spec_whole_take(input, p0, a, spec_offset(k as int, r)),
    ensures
        forall|a: P, r: Result<int, E>| #[trigger] spec_expr_taken(s.skip(n as int), d, mid, a, r)
            ==> spec_whole_take(input, p0, a, spec_offset((k + n) as int, r)),
{
    assert forall|a: P, r: Result<int, E>| #[trigger] spec_expr_taken(s.skip(n as int), d, mid, a, r)
        implies spec_whole_take(input, p0, a, spec_offset((k + n) as int, r)) by {
        lemma_expr_taken_step(s, depth, n, ins, d, before, mid, a, r);
        assert(spec_offset(k as int, spec_offset(n as int, r)) == spec_offset((k + n) as int, r));
    }
}

/// An instruction that could not be read stops the expression with its error.
proof fn lemma_expr_taken_unread<'a, E: ErrorSource<'a>, P: ParseExpr>(s: Seq<u8>, depth: u32, p: P, e: E)
    requires
        depth >= 1,
        spec_instr(s) matches Err((at, cause)) && error_at(s, e, at, cause),
    ensures
        spec_expr_taken(s, depth, p, p, Err::<int, E>(e)),
{
    reveal(spec_expr_taken);
}

/// An instruction that nests blocks wrongly stops the expression with an error at its start.
proof fn lemma_expr_taken_misnested<'a, E: ErrorSource<'a>, P: ParseExpr>(
    s: Seq<u8>,
    depth: u32,
    n: nat,
    ins: (Opcode, ImmediatesView),
    cause: ErrorCause,
    p: P,
    e: E,
)
    requires
        depth >= 1,
        spec_instr(s) == Outcome::<(Opcode, ImmediatesView)>::Ok((n, ins)),
        spec_nesting(depth, ins.0) == Result::<u32, ErrorCause>::Err(cause),
        error_at(s, e, 0, cause),
    ensures
        spec_expr_taken(s, depth, p, p, Err::<int, E>(e)),
{
    reveal(spec_expr_taken);
}

/// An instruction that the implementation refuses stops the expression with an error at its
/// start.
proof fn lemma_expr_taken_refused<'a, E: ErrorSource<'a>, P: ParseExpr>(
    s: Seq<u8>,
    depth: u32,
    n: nat,
    ins: (Opcode, ImmediatesView),
    d: u32,
    before: P,
    after: P,
    e: E,
)
    requires
        depth >= 1,
        spec_instr(s) == Outcome::<(Opcode, ImmediatesView)>::Ok((n, ins)),
        spec_nesting(depth, ins.0) == Result::<u32, ErrorCause>::Ok(d),
        1 <= n <= s.len(),
        P::spec_takes(before, after, ins, false),
        error_at(s, e, 0, ErrorCause::Instr { opcode: ins.0, reason: InvalidInstr::Unrecognized }),
    ensures
        spec_expr_taken(s, depth, before, after, Err::<int, E>(e)),
{
    reveal(spec_expr_taken);
}

/// Reads the instruction at the start of `input`, inside `depth` open blocks, and hands it to
/// `parser`: the input after it and the new depth, or the error that stops the expression there.
#[verifier::spinoff_prover]
fn take_next<'a, P: ParseExpr, E: ErrorSource<'a>>(parser: &mut P, input: &'a [u8], depth: u32) -> (r: Result<(&'a [u8], u32), E>)
    requires
        depth >= 1,
    ensures
        match r {
            Ok((next, d)) => spec_instr(input@) matches Ok((n, ins)) && 1 <= n <= input@.len()
                && next@ == input@.skip(n as int) && spec_nesting(depth, ins.0) == Result::<u32, ErrorCause>::Ok(d)
                && P::spec_takes(*old(parser), *final(parser), ins, true),
            Err(e) => spec_expr_taken(input@, depth, *old(parser), *final(parser), Err::<int, E>(e)),
        },
{
    let ghost cur = *parser;
    proof {
        lemma_instr_progress(input@);
    }
    let (next, i) = match Instr::parse(input) {
        Ok(x) => x,
        Err(e) => {
            proof {
                lemma_expr_taken_unread(input@, depth, cur, e);
            }
            return Err(e);
        },
    };
    let ghost n: nat = (input@.len() - next@.len()) as nat;
    let d = match nesting(depth, i.opcode) {
        Ok(d) => d,
        Err(cause) => {
            let e = E::from_error_cause(input, cause);
            proof {
                assert(input@.skip(0) == input@);
                lemma_expr_taken_misnested(input@, depth, n, i@, cause, cur, e);
            }
            return Err(e);
        },
    };
    let ghost iv = i@;
    let opcode = i.opcode;
    let answer = parser.parse(i);
    match answer {
        Ok(()) => Ok((next, d)),
        Err(UnrecognizedInstr) => {
            let e = E::from_error_cause(input, ErrorCause::Instr { opcode, reason: InvalidInstr::Unrecognized });
            proof {
                assert(input@.skip(0) == input@);
                lemma_expr_taken_refused(input@, depth, n, iv, d, cur, *parser, e);
            }
            Err(e)
        },
    }
}

/// Parses a [WebAssembly expression], handing each instruction to `parser` in order, and keeping
/// track of nested blocks. Parsing stops with an error at the first instruction that `parser`
/// refuses.
///
/// [WebAssembly expression]: https://webassembly.github.io/spec/core/binary/instructions.html#expressions
#[verifier::spinoff_prover]
#[verifier::rlimit(60)]
pub fn parse_expr<'a, P: ParseExpr, E: ErrorSource<'a>>(input: &'a [u8], parser: &mut P) -> (res: Result<&'a [u8], E>)
    ensures
        spec_expr_taken(input@, 1, *old(parser), *final(parser), spec_expr_count(input@, res)),
        res matches Ok(rest) ==> (spec_expr(input@) matches Ok((n, _)) && n <= input@.len()
            && rest@ == input@.skip(n as int)),
        spec_expr(input@) is Err ==> res is Err,
{
    let ghost p0 = *parser;
    let mut depth: u32 = 1;
    let mut rest: &'a [u8] = input;
    let ghost mut done: Seq<(Opcode, ImmediatesView)> = Seq::empty();
    assert(input@.skip(0) =~= input@);
    assert forall|a: P, r: Result<int, E>| #[trigger] spec_expr_taken(input@, 1, p0, a, r)
        implies spec_whole_take(input@, p0, a, spec_offset(0, r)) by {
        reveal(spec_whole_take);
        assert(spec_offset(0, r) == r);
    }
    while depth > 0
        invariant
            rest@.len() <= input@.len(),
            rest@ == input@.skip(input@.len() - rest@.len()),
            spec_expr(input@) == prepend((input@.len() - rest@.len()) as nat, done, spec_expr_from(rest@, depth)),
            p0 == *old(parser),
            forall|a: P, r: Result<int, E>| #[trigger] spec_expr_taken(rest@, depth, *parser, a, r)
                ==> spec_whole_take(input@, p0, a, spec_offset(input@.len() - rest@.len(), r)),
        decreases rest@.len(),
    {
        let ghost k: nat = (input@.len() - rest@.len()) as nat;
        let ghost before = rest@;
        let ghost cur = *parser;
        let ghost depth0 = depth;
        match take_next(parser, rest, depth) {
            Ok((next, d)) => {
                proof {
                    let iv = lemma_expr_take_loop_step::<E, P>(input@, p0, k, done, before, depth0, next@, d, cur, *parser);
                    done = done.push(iv);
                }
                depth = d;
                rest = next;
            },
            Err(e) => {
                proof {
                    assert(spec_expr_taken(before, depth0, cur, *parser, Err::<int, E>(e)));
                    assert(spec_whole_take(input@, p0, *parser, spec_offset(k as int, Err::<int, E>(e))));
                    assert(spec_offset(k as int, Err::<int, E>(e)) == Err::<int, E>(e));
                    reveal(spec_whole_take);
                }
                return Err(e);
            },
        }
    }
    proof {
        reveal(spec_expr_taken);
        assert(spec_expr_taken(rest@, depth, *parser, *parser, Ok::<int, E>(0)));
        reveal(spec_whole_take);
    }
    Ok(rest)
}

/// An instruction that opens a block inside an expression does not end it: what follows is read
/// one block deeper, and the instruction comes first among those read.
pub proof fn lemma_expr_opens_block(s: Seq<u8>, depth: u32)
    requires
        1 <= depth < u32::MAX,
        spec_instr(s) matches Ok((n, ins)) && 1 <= n <= s.len()
            && (ins.0 == Opcode::Block || ins.0 == Opcode::Loop || ins.0 == Opcode::If || ins.0 == Opcode::Try),
    ensures
        spec_expr_from(s, depth) == prepend(spec_instr(s)->Ok_0.0, seq![spec_instr(s)->Ok_0.1],
            spec_expr_from(s.skip(spec_instr(s)->Ok_0.0 as int), (depth + 1) as u32)),
{
    let (n, ins) = spec_instr(s)->Ok_0;
    lemma_nesting(depth, ins.0);
    match spec_expr_from(s.skip(n as int), (depth + 1) as u32) {
        Ok((m, rest)) => {
            assert(seq![ins] + rest =~= Seq::<(Opcode, ImmediatesView)>::empty() + seq![ins] + rest);
        },
        Err(_) => {},
    }
}

/// An `end` closes the innermost open block: what follows is read one block shallower, and an
/// `end` at the outermost depth ends the expression right after it.
pub proof fn lemma_expr_end(s: Seq<u8>, depth: u32)
    requires
        depth >= 1,
        spec_instr(s) matches Ok((n, ins)) && 1 <= n <= s.len() && ins.0 == Opcode::End,
    ensures
        spec_expr_from(s, depth) == prepend(spec_instr(s)->Ok_0.0, seq![spec_instr(s)->Ok_0.1],
            spec_expr_from(s.skip(spec_instr(s)->Ok_0.0 as int), (depth - 1) as u32)),
        depth == 1 ==> spec_expr_from(s, depth) == Outcome::<Seq<(Opcode, ImmediatesView)>>::Ok(
            (spec_instr(s)->Ok_0.0, seq![spec_instr(s)->Ok_0.1])),
{
    let (n, ins) = spec_instr(s)->Ok_0;
    lemma_nesting(depth, ins.0);
    match spec_expr_from(s.skip(n as int), (depth - 1) as u32) {
        Ok((m, rest)) => {
            assert(seq![ins] + rest =~= Seq::<(Opcode, ImmediatesView)>::empty() + seq![ins] + rest);
        },
        Err(_) => {},
    }
    if depth == 1 {
        assert(spec_expr_from(s.skip(n as int), 0) == Outcome::<Seq<(Opcode, ImmediatesView)>>::Ok((0, Seq::empty())));
        assert(seq![ins] + Seq::<(Opcode, ImmediatesView)>::empty() =~= seq![ins]);
    }
}

/// One step of reading an expression: the instruction read moves from the input to the
/// instructions already read.
pub(crate) proof fn lemma_expr_step(
    s: Seq<u8>,
    depth: u32,
    k: nat,
    done: Seq<(Opcode, ImmediatesView)>,
    n: nat,
    i: (Opcode, ImmediatesView),
    d: u32,
)
    requires
        depth >= 1,
        spec_instr(s) == Outcome::<(Opcode, ImmediatesView)>::Ok((n, i)),
        1 <= n <= s.len(),
        spec_nesting(depth, i.0) == Result::<u32, ErrorCause>::Ok(d),
    ensures
        prepend(k, done, spec_expr_from(s, depth)) == prepend(k + n, done.push(i), spec_expr_from(s.skip(n as int), d)),
{
    match spec_expr_from(s.skip(n as int), d) {
        Ok((m, rest)) => {
            assert(done + (seq![i] + rest) =~= done.push(i) + rest);
        },
        Err(_) => {},
    }
}

/// An expression ends with the `end` instruction that closes its outermost block.
pub proof fn lemma_expr_ends_with_end(s: Seq<u8>, depth: u32)
    requires
        depth >= 1,
    ensures
        spec_expr_from(s, depth) matches Ok((_, instrs)) ==> instrs.len() >= 1 && instrs.last().0 == Opcode::End,
    decreases s.len(),
{
    if let Ok((n, i)) = spec_instr(s) {
        if let Ok(d) = spec_nesting(depth, i.0) {
            if 1 <= n <= s.len() {
                if d >= 1 {
                    lemma_expr_ends_with_end(s.skip(n as int), d);
                    if let Ok((_, rest)) = spec_expr_from(s.skip(n as int), d) {
                        assert((seq![i] + rest).last() == rest.last());
                    }
                } else {
                    assert(i.0 == Opcode::End);
                }
            }
        }
    }
}

} // verus!
