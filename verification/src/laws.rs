//! The guarantees of the emitted bounds checks.
//!
//! The central statements run the emitted instruction sequences through
//! the evaluator of [`crate::eval`] and pin their behaviour to the
//! mathematical bound `offset + access_size > bound`; the remaining
//! lemmas cover the static check's elision and its immediate tie-break.

use vstd::prelude::*;
use crate::entities::{GlobalValue, IntCC, TrapCode, Type, Value};
use crate::eval::{eval_em, eval_ems, iadd_cout_sum, EvalResult};
use crate::func::Function;
use crate::heap::{dynamic_check_ems, static_check_elided, static_check_ems};
use crate::instructions::InstructionData;
use crate::rewrite::{block_rewrite_post, lemma_ems_len, EmittedInst};

verus! {

/// Static elision: when the offset type is 32-bit and
/// `limit = bound - access_size` is at least `0xffff_ffff`, no
/// comparison is emitted, and indeed every representable 32-bit offset
/// satisfies `offset + access_size <= bound`.
pub proof fn lemma_static_elision(
    offset_v: Value,
    bound: u64,
    access_size: u32,
    offset: u64,
    v0: int,
)
    requires
        access_size as u64 <= bound,
        bound - access_size >= 0xffff_ffff,
        offset <= 0xffff_ffff,
    ensures
        static_check_elided(Type::I32, (bound - access_size) as u64),
        static_check_ems(offset_v, (bound - access_size) as u64, Type::I32, v0)
            == Seq::<EmittedInst>::empty(),
        offset + access_size <= bound,
{
}

/// Tie-break: for an odd `limit` the emitted comparison is
/// `offset >= limit - 1` (an even immediate).  For every offset other
/// than `limit - 1` and `limit` itself, that test rejects an offset
/// exactly when `offset > limit` does.  On those two offsets the even
/// form is strictly more conservative: it traps although `offset >
/// limit` would not.
pub proof fn lemma_static_tiebreak(limit: u64, offset: u64)
    requires
        limit % 2 == 1,
        offset != limit - 1,
        offset != limit,
    ensures
        (offset >= limit - 1) <==> (offset > limit),
{
}

/// The shape of the emitted static check: an odd limit is tested with
/// `UnsignedGreaterThanOrEqual` against `limit - 1`, an even one with
/// `UnsignedGreaterThan` against `limit` itself, and either way the
/// comparison feeds a heap-out-of-bounds trap.
pub proof fn lemma_static_check_shape(offset_v: Value, limit: u64, ty: Type, v0: int)
    requires
        !static_check_elided(ty, limit),
    ensures
        ({
            let ems = static_check_ems(offset_v, limit, ty, v0);
            &&& ems.len() == 2
            &&& (limit % 2 == 1 ==> ems[0].data == (InstructionData::IcmpImm {
                cond: IntCC::UnsignedGreaterThanOrEqual,
                arg: offset_v,
                imm: ((limit - 1) as u64),
            }))
            &&& (limit % 2 == 0 ==> ems[0].data == (InstructionData::IcmpImm {
                cond: IntCC::UnsignedGreaterThan,
                arg: offset_v,
                imm: limit,
            }))
            &&& ems[1].data == (InstructionData::Trapnz {
                arg: (Value(v0 as usize)),
                code: TrapCode::HeapOutOfBounds,
            })
        }),
{
}

/// Running the emitted dynamic check traps exactly when the access
/// escapes the heap: for every runtime bound at least `min_size` and
/// every representable offset, evaluating the emitted sequence (with the
/// bound global value resolving to `bound` and the offset operand
/// holding `offset`) traps with the heap-out-of-bounds cause iff
/// `offset + access_size > bound`, and steps through cleanly otherwise.
pub proof fn theorem_dynamic_check_evaluation(
    offset_v: Value,
    bound_gv: GlobalValue,
    access_size: u32,
    min_size: u64,
    ty: Type,
    v0: int,
    env: Map<int, int>,
    gvals: Map<int, int>,
    offset: u64,
    bound: u64,
)
    requires
        0 <= v0,
        v0 + 5 <= usize::MAX,
        offset_v.0 < v0,
        env.contains_key(offset_v.0 as int),
        env[offset_v.0 as int] == offset,
        gvals.contains_key(bound_gv.0 as int),
        gvals[bound_gv.0 as int] == bound,
        min_size <= bound,
        bound <= ty.umax(),
        offset <= ty.umax(),
        access_size <= ty.umax(),
    ensures
        ({
            let r = eval_ems(dynamic_check_ems(offset_v, bound_gv, access_size, min_size, ty,
                v0), v0, env, gvals);
            &&& (r is Trapped) <==> offset + access_size > bound
            &&& (r is Trapped) ==> r->Trapped_0 == TrapCode::HeapOutOfBounds
        }),
{
    let ems = dynamic_check_ems(offset_v, bound_gv, access_size, min_size, ty, v0);
    let m = ty.umax() + 1;
    let env1 = env.insert(v0, bound as int);
    assert(eval_em(ems[0], v0, env, gvals) == EvalResult::Stepped(env1));
    if access_size == 1 {
        let flag: int = if offset >= bound { 1 } else { 0 };
        let env2 = env1.insert(v0 + 1, flag);
        assert(ems.subrange(1, 3)[0] == ems[1]);
        assert(eval_em(ems[1], v0 + 1, env1, gvals) == EvalResult::Stepped(env2));
        assert(ems.subrange(1, 3).subrange(1, 2)[0] == ems[2]);
        assert(eval_ems(ems, v0, env, gvals) == eval_ems(ems.subrange(1, 3), v0 + 1, env1,
            gvals));
        assert(eval_ems(ems.subrange(1, 3), v0 + 1, env1, gvals) == eval_ems(
            ems.subrange(1, 3).subrange(1, 2), v0 + 2, env2, gvals));
        if offset >= bound {
            assert(eval_ems(ems, v0, env, gvals) == EvalResult::Trapped(
                TrapCode::HeapOutOfBounds));
        } else {
            assert(eval_em(ems[2], v0 + 2, env2, gvals) == EvalResult::Stepped(env2));
            assert(ems.subrange(1, 3).subrange(1, 2).subrange(1, 1) =~= Seq::<
                EmittedInst>::empty());
            assert(eval_ems(ems.subrange(1, 3).subrange(1, 2), v0 + 2, env2, gvals)
                == eval_ems(Seq::<EmittedInst>::empty(), v0 + 2, env2, gvals));
            assert(eval_ems(ems, v0, env, gvals) == EvalResult::Stepped(env2));
        }
    } else if access_size <= min_size {
        let adjusted = bound - access_size;
        assert(adjusted % m == adjusted) by {
            vstd::arithmetic::div_mod::lemma_small_mod(adjusted as nat, m as nat);
        }
        let env2 = env1.insert(v0 + 1, adjusted as int);
        let flag: int = if offset > adjusted { 1 } else { 0 };
        let env3 = env2.insert(v0 + 2, flag);
        assert(ems.subrange(1, 4)[0] == ems[1]);
        assert(ems.subrange(1, 4).subrange(1, 3)[0] == ems[2]);
        assert(ems.subrange(1, 4).subrange(1, 3).subrange(1, 2)[0] == ems[3]);
        assert(eval_em(ems[1], v0 + 1, env1, gvals) == EvalResult::Stepped(env2));
        assert(eval_em(ems[2], v0 + 2, env2, gvals) == EvalResult::Stepped(env3));
        assert(eval_ems(ems, v0, env, gvals) == eval_ems(ems.subrange(1, 4), v0 + 1, env1,
            gvals));
        assert(eval_ems(ems.subrange(1, 4), v0 + 1, env1, gvals) == eval_ems(
            ems.subrange(1, 4).subrange(1, 3), v0 + 2, env2, gvals));
        assert(eval_ems(ems.subrange(1, 4).subrange(1, 3), v0 + 2, env2, gvals) == eval_ems(
            ems.subrange(1, 4).subrange(1, 3).subrange(1, 2), v0 + 3, env3, gvals));
        if offset > adjusted {
            assert(eval_ems(ems, v0, env, gvals) == EvalResult::Trapped(
                TrapCode::HeapOutOfBounds));
        } else {
            assert(eval_em(ems[3], v0 + 3, env3, gvals) == EvalResult::Stepped(env3));
            assert(ems.subrange(1, 4).subrange(1, 3).subrange(1, 2).subrange(1, 1) =~= Seq::<
                EmittedInst>::empty());
            assert(eval_ems(ems.subrange(1, 4).subrange(1, 3).subrange(1, 2), v0 + 3, env3,
                gvals) == eval_ems(Seq::<EmittedInst>::empty(), v0 + 3, env3, gvals));
            assert(eval_ems(ems, v0, env, gvals) == EvalResult::Stepped(env3));
        }
    } else {
        assert(access_size as int % m == access_size as int) by {
            vstd::arithmetic::div_mod::lemma_small_mod(access_size as nat, m as nat);
        }
        let env2 = env1.insert(v0 + 1, access_size as int);
        let sum = iadd_cout_sum(offset as int, access_size as int, ty);
        let carry: int = if offset + access_size > ty.umax() { 1 } else { 0 };
        let env3 = env2.insert(v0 + 2, sum).insert(v0 + 3, carry);
        let s1 = ems.subrange(1, 6);
        let s2 = s1.subrange(1, 5);
        let s3 = s2.subrange(1, 4);
        let s4 = s3.subrange(1, 3);
        let s5 = s4.subrange(1, 2);
        assert(s1[0] == ems[1]);
        assert(s2[0] == ems[2]);
        assert(s3[0] == ems[3]);
        assert(s4[0] == ems[4]);
        assert(s5[0] == ems[5]);
        assert(eval_em(ems[1], v0 + 1, env1, gvals) == EvalResult::Stepped(env2));
        assert(eval_em(ems[2], v0 + 2, env2, gvals) == EvalResult::Stepped(env3));
        assert(eval_ems(ems, v0, env, gvals) == eval_ems(s1, v0 + 1, env1, gvals));
        assert(eval_ems(s1, v0 + 1, env1, gvals) == eval_ems(s2, v0 + 2, env2, gvals));
        assert(eval_ems(s2, v0 + 2, env2, gvals) == eval_ems(s3, v0 + 4, env3, gvals));
        if offset + access_size > ty.umax() {
            // The overflow trap fires; the bound comparison is never
            // evaluated, and the access is indeed out of bounds.
            assert(eval_ems(s3, v0 + 4, env3, gvals) == EvalResult::Trapped(
                TrapCode::HeapOutOfBounds));
            assert(offset + access_size > bound);
        } else {
            assert(sum == offset + access_size) by {
                vstd::arithmetic::div_mod::lemma_small_mod((offset + access_size) as nat,
                    m as nat);
            }
            let flag: int = if sum > bound { 1 } else { 0 };
            let env4 = env3.insert(v0 + 4, flag);
            assert(eval_em(ems[3], v0 + 4, env3, gvals) == EvalResult::Stepped(env3));
            assert(eval_ems(s3, v0 + 4, env3, gvals) == eval_ems(s4, v0 + 4, env3, gvals));
            assert(eval_em(ems[4], v0 + 4, env3, gvals) == EvalResult::Stepped(env4));
            assert(eval_ems(s4, v0 + 4, env3, gvals) == eval_ems(s5, v0 + 5, env4, gvals));
            if sum > bound {
                assert(eval_ems(s5, v0 + 5, env4, gvals) == EvalResult::Trapped(
                    TrapCode::HeapOutOfBounds));
            } else {
                assert(eval_em(ems[5], v0 + 5, env4, gvals) == EvalResult::Stepped(env4));
                assert(s5.subrange(1, 1) =~= Seq::<EmittedInst>::empty());
                assert(eval_ems(s5, v0 + 5, env4, gvals) == eval_ems(
                    Seq::<EmittedInst>::empty(), v0 + 5, env4, gvals));
                assert(eval_ems(s5, v0 + 5, env4, gvals) == EvalResult::Stepped(env4));
            }
        }
    }
}

/// Running only the emitted instructions up to and including the
/// overflow trap already halts the program when the adjusted offset
/// overflows: the bound comparison behind it is never reached.
pub proof fn theorem_dynamic_overflow_stops_early(
    offset_v: Value,
    bound_gv: GlobalValue,
    access_size: u32,
    min_size: u64,
    ty: Type,
    v0: int,
    env: Map<int, int>,
    gvals: Map<int, int>,
    offset: u64,
    bound: u64,
)
    requires
        0 <= v0,
        v0 + 5 <= usize::MAX,
        offset_v.0 < v0,
        env.contains_key(offset_v.0 as int),
        env[offset_v.0 as int] == offset,
        gvals.contains_key(bound_gv.0 as int),
        gvals[bound_gv.0 as int] == bound,
        access_size as u64 > min_size,
        access_size != 1,
        access_size <= ty.umax(),
        offset <= ty.umax(),
        offset + access_size > ty.umax(),
    ensures
        eval_ems(
            dynamic_check_ems(offset_v, bound_gv, access_size, min_size, ty, v0).subrange(0, 4),
            v0,
            env,
            gvals,
        ) == EvalResult::Trapped(TrapCode::HeapOutOfBounds),
{
    let ems = dynamic_check_ems(offset_v, bound_gv, access_size, min_size, ty, v0);
    let m = ty.umax() + 1;
    let pre = ems.subrange(0, 4);
    let env1 = env.insert(v0, bound as int);
    assert(access_size as int % m == access_size as int) by {
        vstd::arithmetic::div_mod::lemma_small_mod(access_size as nat, m as nat);
    }
    let env2 = env1.insert(v0 + 1, access_size as int);
    let sum = iadd_cout_sum(offset as int, access_size as int, ty);
    let env3 = env2.insert(v0 + 2, sum).insert(v0 + 3, 1);
    let s1 = pre.subrange(1, 4);
    let s2 = s1.subrange(1, 3);
    let s3 = s2.subrange(1, 2);
    assert(pre[0] == ems[0]);
    assert(s1[0] == ems[1]);
    assert(s2[0] == ems[2]);
    assert(s3[0] == ems[3]);
    assert(eval_em(ems[0], v0, env, gvals) == EvalResult::Stepped(env1));
    assert(eval_em(ems[1], v0 + 1, env1, gvals) == EvalResult::Stepped(env2));
    assert(eval_em(ems[2], v0 + 2, env2, gvals) == EvalResult::Stepped(env3));
    assert(eval_ems(pre, v0, env, gvals) == eval_ems(s1, v0 + 1, env1, gvals));
    assert(eval_ems(s1, v0 + 1, env1, gvals) == eval_ems(s2, v0 + 2, env2, gvals));
    assert(eval_ems(s2, v0 + 2, env2, gvals) == eval_ems(s3, v0 + 4, env3, gvals));
    assert(eval_ems(s3, v0 + 4, env3, gvals) == EvalResult::Trapped(TrapCode::HeapOutOfBounds));
}

/// Running the emitted static check never lets an out-of-bounds access
/// through, and away from the tie-break's two conservative offsets it is
/// exact: it traps iff `offset + access_size > bound`.  When the check
/// is elided (32-bit offsets against a limit of at least `0xffff_ffff`),
/// no representable offset is out of bounds in the first place.
pub proof fn theorem_static_check_evaluation(
    offset_v: Value,
    access_size: u32,
    bound: u64,
    ty: Type,
    v0: int,
    env: Map<int, int>,
    gvals: Map<int, int>,
    offset: u64,
)
    requires
        0 <= v0,
        v0 + 1 <= usize::MAX,
        offset_v.0 < v0,
        env.contains_key(offset_v.0 as int),
        env[offset_v.0 as int] == offset,
        access_size as u64 <= bound,
        offset <= ty.umax(),
    ensures
        ({
            let limit = (bound - access_size) as u64;
            let r = eval_ems(static_check_ems(offset_v, limit, ty, v0), v0, env, gvals);
            // Safety: an access that would escape the heap always traps.
            &&& offset + access_size > bound ==> r == (EvalResult::Trapped(
                TrapCode::HeapOutOfBounds))
            // Exactness, except on the two offsets that the odd-limit
            // tie-break rejects conservatively.
            &&& (offset + access_size <= bound && !(limit % 2 == 1 && (offset == limit - 1
                || offset == limit))) ==> r is Stepped
        }),
{
    let limit = (bound - access_size) as u64;
    let ems = static_check_ems(offset_v, limit, ty, v0);
    if static_check_elided(ty, limit) {
        // `ty` is 32 bits wide, so every representable offset is at most
        // `0xffff_ffff <= limit`, and the empty check is still safe.
        assert(offset <= limit);
        assert(eval_ems(ems, v0, env, gvals) == EvalResult::Stepped(env));
    } else {
        let cutoff: u64 = if limit % 2 == 1 {
            (limit - 1) as u64
        } else {
            limit
        };
        let trips: bool = if limit % 2 == 1 {
            offset >= cutoff
        } else {
            offset > cutoff
        };
        let flag: int = if trips {
            1
        } else {
            0
        };
        let env1 = env.insert(v0, flag);
        let s1 = ems.subrange(1, 2);
        assert(s1[0] == ems[1]);
        assert(eval_em(ems[0], v0, env, gvals) == EvalResult::Stepped(env1));
        assert(eval_ems(ems, v0, env, gvals) == eval_ems(s1, v0 + 1, env1, gvals));
        if trips {
            assert(eval_ems(s1, v0 + 1, env1, gvals) == EvalResult::Trapped(
                TrapCode::HeapOutOfBounds));
        } else {
            assert(eval_em(ems[1], v0 + 1, env1, gvals) == EvalResult::Stepped(env1));
            assert(s1.subrange(1, 1) =~= Seq::<EmittedInst>::empty());
            assert(eval_ems(s1, v0 + 1, env1, gvals) == eval_ems(Seq::<EmittedInst>::empty(),
                v0 + 1, env1, gvals));
            assert(eval_ems(ems, v0, env, gvals) == EvalResult::Stepped(env1));
        }
    }
}

/// Address identity: a rewrite that replaces an instruction in place
/// neither renumbers it nor touches its result values, so every
/// pre-existing use of a result observes the new defining operation.
pub proof fn lemma_address_identity(
    f0: Function,
    f1: Function,
    b: crate::entities::Block,
    p: int,
    ems: Seq<EmittedInst>,
    inst: crate::entities::Inst,
    rep: InstructionData,
)
    requires
        block_rewrite_post(f0, f1, b, p, ems, Option::Some((inst, rep))),
        inst.0 < f0.n_insts(),
        f0.dfg.results@.len() == f0.dfg.insts@.len(),
    ensures
        f1.data_of(inst) == rep,
        f1.results_of(inst) == f0.results_of(inst),
{
    lemma_ems_len(ems, f0.n_values());
}

} // verus!
