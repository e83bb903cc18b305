//! A specification-level evaluator for emitted straight-line code.
//!
//! The expansion postconditions say *which* instructions are emitted;
//! this module says what running them would do, so that the bounds-check
//! guarantees can be proved of the emitted sequences themselves rather
//! than of a hand-written paraphrase.  Values are unsigned integers in
//! an environment keyed by value number; global values resolve through a
//! separate oracle, since their runtime values are the embedder's
//! business.

use vstd::prelude::*;
use crate::entities::{IntCC, TrapCode, Type};
use crate::instructions::InstructionData;
use crate::rewrite::EmittedInst;

verus! {

/// The flag produced by an unsigned integer comparison.
pub open spec fn icmp_holds(cond: IntCC, x: int, y: int) -> bool {
    match cond {
        IntCC::UnsignedGreaterThan => x > y,
        IntCC::UnsignedGreaterThanOrEqual => x >= y,
    }
}

/// The carry flag produced by `IaddCout` on values of type `ty`: set
/// exactly when the unsigned sum does not fit the type.
pub open spec fn iadd_cout_carry(x: int, y: int, ty: Type) -> bool {
    x + y > ty.umax()
}

/// The wrapped sum produced by `IaddCout` on values of type `ty`.
pub open spec fn iadd_cout_sum(x: int, y: int, ty: Type) -> int {
    (x + y) % (ty.umax() + 1)
}

/// The outcome of running a prefix of emitted code: a trap with its
/// cause, or the environment after all instructions stepped through.
pub enum EvalResult {
    /// Execution halted at a trap.
    Trapped(TrapCode),
    /// Execution ran off the end; the final environment.
    Stepped(Map<int, int>),
}

/// Wrap an integer into the unsigned range of `ty`.
pub open spec fn wrap(ty: Type, n: int) -> int {
    n % (ty.umax() + 1)
}

/// Step one emitted instruction whose first result value is numbered
/// `v0`, in environment `env`, resolving global values through `gvals`.
pub open spec fn eval_em(
    em: EmittedInst,
    v0: int,
    env: Map<int, int>,
    gvals: Map<int, int>,
) -> EvalResult {
    match em.data {
        InstructionData::GlobalValueGet { gv } => EvalResult::Stepped(
            env.insert(v0, gvals[gv.0 as int]),
        ),
        InstructionData::Iconst { imm } => EvalResult::Stepped(
            env.insert(v0, wrap(em.tys[0], imm as int)),
        ),
        InstructionData::IaddImm { arg, imm } => EvalResult::Stepped(
            env.insert(v0, wrap(em.tys[0], env[arg.0 as int] + imm)),
        ),
        InstructionData::Iadd { x, y } => EvalResult::Stepped(
            env.insert(v0, wrap(em.tys[0], env[x.0 as int] + env[y.0 as int])),
        ),
        InstructionData::IaddCout { x, y } => EvalResult::Stepped(
            env.insert(v0, iadd_cout_sum(env[x.0 as int], env[y.0 as int], em.tys[0])).insert(
                v0 + 1,
                if iadd_cout_carry(env[x.0 as int], env[y.0 as int], em.tys[0]) {
                    1
                } else {
                    0
                },
            ),
        ),
        InstructionData::Icmp { cond, x, y } => EvalResult::Stepped(
            env.insert(v0, if icmp_holds(cond, env[x.0 as int], env[y.0 as int]) {
                1
            } else {
                0
            }),
        ),
        InstructionData::IcmpImm { cond, arg, imm } => EvalResult::Stepped(
            env.insert(v0, if icmp_holds(cond, env[arg.0 as int], imm as int) {
                1
            } else {
                0
            }),
        ),
        InstructionData::Uextend { arg } => EvalResult::Stepped(
            env.insert(v0, env[arg.0 as int]),
        ),
        InstructionData::Trap { code } => EvalResult::Trapped(code),
        InstructionData::Trapnz { arg, code } => if env[arg.0 as int] != 0 {
            EvalResult::Trapped(code)
        } else {
            EvalResult::Stepped(env)
        },
        // Neither of these appears in emitted check code; they change
        // nothing here.
        InstructionData::HeapAddr { .. } => EvalResult::Stepped(env),
        InstructionData::Jump { .. } => EvalResult::Stepped(env),
    }
}

/// Run a sequence of emitted instructions in order, allocating result
/// values upward from `v0`, stopping at the first trap.
pub open spec fn eval_ems(
    ems: Seq<EmittedInst>,
    v0: int,
    env: Map<int, int>,
    gvals: Map<int, int>,
) -> EvalResult
    decreases ems.len(),
{
    if ems.len() == 0 {
        EvalResult::Stepped(env)
    } else {
        match eval_em(ems[0], v0, env, gvals) {
            EvalResult::Trapped(code) => EvalResult::Trapped(code),
            EvalResult::Stepped(env2) => eval_ems(
                ems.subrange(1, ems.len() as int),
                v0 + ems[0].tys.len(),
                env2,
                gvals,
            ),
        }
    }
}

} // verus!
