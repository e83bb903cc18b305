//! Legalization of heaps.
//!
//! This module exports the `expand_heap_addr` function, which rewrites a
//! `heap_addr` instruction into code that depends on the kind of heap
//! referenced: a bounds check against a runtime bound for dynamic heaps, a
//! check against a compile-time limit (or no check at all) for static
//! heaps, and an unconditional trap plus a block split when a static
//! access can never be in bounds.
//!
//! The postcondition of each expansion names the emitted instruction
//! sequence exactly, so callers know precisely which comparisons and traps
//! guard the materialized address.

use vstd::prelude::*;
use crate::entities::{Block, GlobalValue, Heap, Inst, IntCC, TargetIsa, TrapCode, Type, Value};
use crate::flowgraph::{recomputed_edges, ControlFlowGraph};
use crate::func::{heap_refs_valid, Function, HeapStyle};
use crate::instructions::{InstructionData, ResultList};
use crate::rewrite::{
    block_rewrite_post, ems_types, lemma_block_rewrite_compose, lemma_ems_singleton, EmittedInst,
};

verus! {

/// An emitted instruction defining no value.
pub open spec fn em0(data: InstructionData) -> EmittedInst {
    EmittedInst { data, tys: Seq::empty() }
}

/// An emitted instruction defining one value of type `ty`.
pub open spec fn em1(data: InstructionData, ty: Type) -> EmittedInst {
    EmittedInst { data, tys: seq![ty] }
}

/// An emitted instruction defining two values of types `ty0` and `ty1`.
pub open spec fn em2(data: InstructionData, ty0: Type, ty1: Type) -> EmittedInst {
    EmittedInst { data, tys: seq![ty0, ty1] }
}

/// The instructions that materialize the final address: a zero-extension
/// of the offset when its type is narrower than the address type, then
/// the resolution of the heap's base global value.  `v0` is the number of
/// the first value they allocate.
pub open spec fn addr_ems(
    offset: Value,
    base_gv: GlobalValue,
    offset_ty: Type,
    addr_ty: Type,
    v0: int,
) -> Seq<EmittedInst> {
    if offset_ty == addr_ty {
        seq![em1(InstructionData::GlobalValueGet { gv: base_gv }, addr_ty)]
    } else {
        seq![
            em1(InstructionData::Uextend { arg: offset }, addr_ty),
            em1(InstructionData::GlobalValueGet { gv: base_gv }, addr_ty),
        ]
    }
}

/// The operation that replaces the original instruction: the integer
/// addition of the resolved base and the (possibly extended) offset.
pub open spec fn addr_replacement(
    offset: Value,
    offset_ty: Type,
    addr_ty: Type,
    v0: int,
) -> InstructionData {
    if offset_ty == addr_ty {
        InstructionData::Iadd { x: (Value(v0 as usize)), y: offset }
    } else {
        InstructionData::Iadd { x: (Value((v0 + 1) as usize)), y: (Value(v0 as usize)) }
    }
}

/// How many values the dynamic bounds check allocates before the address
/// materialization starts.
pub open spec fn dyn_check_nvals(access_size: u32, min_size: u64) -> int {
    if access_size == 1 {
        2
    } else if access_size <= min_size {
        3
    } else {
        5
    }
}

/// The dynamic bounds check, selected by `access_size` relative to the
/// heap's guaranteed minimum size.  `v0` is the number of the first value
/// it allocates.  All comparisons are unsigned, on the offset's type.
///
/// - `access_size == 1`: out of bounds iff `offset >= bound`.
/// - `1 < access_size <= min_size`: `bound - access_size` cannot
///   underflow (the heap is guaranteed at least `min_size` bytes), so out
///   of bounds iff `offset > bound - access_size`.
/// - `access_size > min_size`: `offset + access_size` is computed with an
///   explicit carry, and the overflow trap is emitted *before* the bound
///   comparison, so an overflowed adjusted offset is never compared.
pub open spec fn dynamic_check_ems(
    offset: Value,
    bound_gv: GlobalValue,
    access_size: u32,
    min_size: u64,
    offset_ty: Type,
    v0: int,
) -> Seq<EmittedInst> {
    let bound = Value(v0 as usize);
    if access_size == 1 {
        seq![
            em1(InstructionData::GlobalValueGet { gv: bound_gv }, offset_ty),
            em1(
                InstructionData::Icmp {
                    cond: IntCC::UnsignedGreaterThanOrEqual,
                    x: offset,
                    y: bound,
                },
                Type::B1,
            ),
            em0(
                InstructionData::Trapnz {
                    arg: (Value((v0 + 1) as usize)),
                    code: TrapCode::HeapOutOfBounds,
                },
            ),
        ]
    } else if access_size <= min_size {
        seq![
            em1(InstructionData::GlobalValueGet { gv: bound_gv }, offset_ty),
            em1(InstructionData::IaddImm { arg: bound, imm: ((-(access_size as int)) as i64) },
                offset_ty),
            em1(
                InstructionData::Icmp {
                    cond: IntCC::UnsignedGreaterThan,
                    x: offset,
                    y: (Value((v0 + 1) as usize)),
                },
                Type::B1,
            ),
            em0(
                InstructionData::Trapnz {
                    arg: (Value((v0 + 2) as usize)),
                    code: TrapCode::HeapOutOfBounds,
                },
            ),
        ]
    } else {
        seq![
            em1(InstructionData::GlobalValueGet { gv: bound_gv }, offset_ty),
            em1(InstructionData::Iconst { imm: access_size as i64 }, offset_ty),
            em2(
                InstructionData::IaddCout { x: offset, y: (Value((v0 + 1) as usize)) },
                offset_ty,
                Type::B1,
            ),
            em0(
                InstructionData::Trapnz {
                    arg: (Value((v0 + 3) as usize)),
                    code: TrapCode::HeapOutOfBounds,
                },
            ),
            em1(
                InstructionData::Icmp {
                    cond: IntCC::UnsignedGreaterThan,
                    x: (Value((v0 + 2) as usize)),
                    y: bound,
                },
                Type::B1,
            ),
            em0(
                InstructionData::Trapnz {
                    arg: (Value((v0 + 4) as usize)),
                    code: TrapCode::HeapOutOfBounds,
                },
            ),
        ]
    }
}

/// Whether the static check can be omitted entirely: every representable
/// 32-bit offset is provably within a limit of at least `0xffff_ffff`.
pub open spec fn static_check_elided(offset_ty: Type, limit: u64) -> bool {
    offset_ty == Type::I32 && limit >= 0xffff_ffff
}

/// The static bounds check against `limit = bound - access_size`, with a
/// tie-break for cheaper immediate encoding: an odd limit is tested as
/// `offset >= limit - 1` so that the immediate is even.
pub open spec fn static_check_ems(
    offset: Value,
    limit: u64,
    offset_ty: Type,
    v0: int,
) -> Seq<EmittedInst> {
    if static_check_elided(offset_ty, limit) {
        Seq::empty()
    } else if limit % 2 == 1 {
        seq![
            em1(
                InstructionData::IcmpImm {
                    cond: IntCC::UnsignedGreaterThanOrEqual,
                    arg: offset,
                    imm: ((limit - 1) as u64),
                },
                Type::B1,
            ),
            em0(
                InstructionData::Trapnz {
                    arg: (Value(v0 as usize)),
                    code: TrapCode::HeapOutOfBounds,
                },
            ),
        ]
    } else {
        seq![
            em1(
                InstructionData::IcmpImm {
                    cond: IntCC::UnsignedGreaterThan,
                    arg: offset,
                    imm: limit,
                },
                Type::B1,
            ),
            em0(
                InstructionData::Trapnz {
                    arg: (Value(v0 as usize)),
                    code: TrapCode::HeapOutOfBounds,
                },
            ),
        ]
    }
}

/// How many values the static check allocates.
pub open spec fn static_check_nvals(offset_ty: Type, limit: u64) -> int {
    if static_check_elided(offset_ty, limit) {
        0
    } else {
        1
    }
}

/// The full effect of the dynamic expansion on `f0`, rewriting `inst` at
/// position `p` of block `b`.
pub open spec fn dynamic_expansion_at(
    f0: Function,
    f1: Function,
    inst: Inst,
    b: Block,
    p: int,
) -> bool {
    let d = f0.data_of(inst);
    let heap = d->HeapAddr_heap;
    let offset = d->HeapAddr_arg;
    let access_size = d->HeapAddr_access_size;
    let hd = f0.heaps@[heap.0 as int];
    let bound_gv = hd.style->Dynamic_bound_gv;
    let offset_ty = f0.type_of(offset);
    let addr_ty = f0.type_of(f0.results_of(inst).values()[0]);
    let v0 = f0.n_values();
    let va = v0 + dyn_check_nvals(access_size, hd.min_size);
    let ems = dynamic_check_ems(offset, bound_gv, access_size, hd.min_size, offset_ty, v0)
        + addr_ems(offset, hd.base, offset_ty, addr_ty, va);
    block_rewrite_post(f0, f1, b, p, ems,
        Option::Some((inst, addr_replacement(offset, offset_ty, addr_ty, va))))
}

/// The full effect of the static expansion (check emitted or elided) on
/// `f0`, rewriting `inst` at position `p` of block `b`.
pub open spec fn static_expansion_at(
    f0: Function,
    f1: Function,
    inst: Inst,
    b: Block,
    p: int,
) -> bool {
    let d = f0.data_of(inst);
    let heap = d->HeapAddr_heap;
    let offset = d->HeapAddr_arg;
    let access_size = d->HeapAddr_access_size;
    let hd = f0.heaps@[heap.0 as int];
    let bound = hd.style->Static_bound;
    let limit = (bound - access_size) as u64;
    let offset_ty = f0.type_of(offset);
    let addr_ty = f0.type_of(f0.results_of(inst).values()[0]);
    let v0 = f0.n_values();
    let va = v0 + static_check_nvals(offset_ty, limit);
    let ems = static_check_ems(offset, limit, offset_ty, v0)
        + addr_ems(offset, hd.base, offset_ty, addr_ty, va);
    &&& access_size <= bound
    &&& block_rewrite_post(f0, f1, b, p, ems,
        Option::Some((inst, addr_replacement(offset, offset_ty, addr_ty, va))))
}

/// The full effect of the always-out-of-bounds static expansion: an
/// unconditional trap replaces the check, the original instruction
/// becomes a zero constant of its own type, and the block is split right
/// after the trap, the now-unreachable remainder moving into a fresh
/// block whose edges (and the original block's) are recomputed.
pub open spec fn static_trap_at(
    f0: Function,
    f1: Function,
    cfg0: ControlFlowGraph,
    cfg1: ControlFlowGraph,
    inst: Inst,
    b: Block,
    p: int,
) -> bool {
    let n0 = f0.n_insts();
    let nb = Block(f0.blocks@.len() as usize);
    let old_insts = f0.block_insts(b);
    &&& f1.dfg.insts@ == f0.dfg.insts@.update(inst.0 as int, InstructionData::Iconst { imm: 0 })
        .push(InstructionData::Trap { code: TrapCode::HeapOutOfBounds })
    &&& f1.dfg.results@ == f0.dfg.results@.push(ResultList::Zero)
    &&& f1.dfg.value_types@ == f0.dfg.value_types@
    &&& f1.blocks@.len() == f0.blocks@.len() + 1
    &&& f1.block_insts(b) == old_insts.subrange(0, p).push(Inst(n0 as usize))
    &&& f1.blocks@[b.0 as int].params@ == f0.blocks@[b.0 as int].params@
    &&& f1.block_insts(nb) == old_insts.subrange(p, old_insts.len() as int)
    &&& f1.blocks@[nb.0 as int].params@ == Seq::<Value>::empty()
    &&& (forall|j: int| 0 <= j < f0.blocks@.len() && j != b.0 ==> f1.blocks@[j] == f0.blocks@[j])
    &&& f1.heaps@ == f0.heaps@
    &&& f1.global_values@ == f0.global_values@
    &&& cfg1.edges@ == recomputed_edges(recomputed_edges(cfg0.edges@, f1, b), f1, nb)
}

/// Emit code for the base address computation of a `heap_addr`
/// instruction: zero-extend the offset if it is narrower than the address
/// type, resolve the heap's base global value, and replace the original
/// instruction in place with the addition of base and offset.  The
/// instruction keeps its result value, so every existing use of that
/// result observes the new address computation.
pub fn compute_addr(
    inst: Inst,
    heap: Heap,
    addr_ty: Type,
    offset: Value,
    offset_ty: Type,
    func: &mut Function,
    b: Block,
    p: usize,
)
    requires
        old(func).wf(),
        b.0 < old(func).blocks@.len(),
        p <= old(func).block_insts(b).len(),
        inst.0 < old(func).n_insts(),
        heap.0 < old(func).heaps@.len(),
        offset.0 < old(func).n_values(),
        offset_ty == old(func).type_of(offset),
        old(func).results_of(inst).len() == 1,
    ensures
        final(func).wf(),
        block_rewrite_post(*old(func), *final(func), b, p as int,
            addr_ems(offset, old(func).heaps@[heap.0 as int].base, offset_ty, addr_ty,
                old(func).n_values()),
            Option::Some((inst,
                addr_replacement(offset, offset_ty, addr_ty, old(func).n_values())))),
{
    let ghost f0 = *old(func);
    let ghost v0 = f0.n_values();
    let base_gv = func.heaps[heap.0].base;
    let ghost ems_all = addr_ems(offset, base_gv, offset_ty, addr_ty, v0);
    // Convert `offset` to `addr_ty`.
    let mut off = offset;
    let mut pos = p;
    if offset_ty != addr_ty {
        off = func.insert_inst1(b, pos, InstructionData::Uextend { arg: offset }, addr_ty);
        proof {
            vstd::std_specs::vec::axiom_spec_len(&func.blocks@[b.0 as int].insts);
        }
        pos = pos + 1;
    }
    let ghost f1 = *func;
    // Resolve the heap base address.
    let base = func.insert_inst1(
        b,
        pos,
        InstructionData::GlobalValueGet { gv: base_gv },
        addr_ty,
    );
    let ghost f2 = *func;
    func.replace_inst(inst, InstructionData::Iadd { x: base, y: off });
    proof {
        let rep = addr_replacement(offset, offset_ty, addr_ty, v0);
        let em_g = em1(InstructionData::GlobalValueGet { gv: base_gv }, addr_ty);
        // The in-place replacement is a rewrite step that inserts nothing.
        assert(ems_types(Seq::<EmittedInst>::empty()) =~= Seq::<Type>::empty());
        assert(func.dfg.insts@ =~= f2.dfg.insts@.update(inst.0 as int, rep)
            + crate::rewrite::ems_datas(Seq::<EmittedInst>::empty()));
        assert(func.dfg.results@ =~= f2.dfg.results@
            + crate::rewrite::ems_results(Seq::<EmittedInst>::empty(), f2.n_values()));
        assert(func.dfg.value_types@ =~= f2.dfg.value_types@
            + ems_types(Seq::<EmittedInst>::empty()));
        assert(func.block_insts(b) =~= f2.block_insts(b).subrange(0, pos + 1)
            + crate::rewrite::inst_range(f2.n_insts(), 0)
            + f2.block_insts(b).subrange(pos + 1, f2.block_insts(b).len() as int));
        assert(block_rewrite_post(f2, *func, b, pos as int + 1, Seq::empty(),
            Option::Some((inst, rep))));
        if offset_ty == addr_ty {
            assert(f1 == f0);
            assert(f1.block_insts(b) =~= f0.block_insts(b).subrange(0, p as int)
                + crate::rewrite::inst_range(f0.n_insts(), 0)
                + f0.block_insts(b).subrange(p as int, f0.block_insts(b).len() as int));
            assert(block_rewrite_post(f0, f1, b, p as int, Seq::empty(), Option::None));
            lemma_block_rewrite_compose(f0, f1, f2, b, p as int, Seq::empty(), seq![em_g],
                Option::None);
            lemma_block_rewrite_compose(f0, f2, *func, b, p as int,
                Seq::empty() + seq![em_g], Seq::empty(), Option::Some((inst, rep)));
            assert((Seq::empty() + seq![em_g]) + Seq::<EmittedInst>::empty() =~~= ems_all);
        } else {
            let em_u = em1(InstructionData::Uextend { arg: offset }, addr_ty);
            lemma_block_rewrite_compose(f0, f1, f2, b, p as int, seq![em_u], seq![em_g],
                Option::None);
            lemma_block_rewrite_compose(f0, f2, *func, b, p as int, seq![em_u] + seq![em_g],
                Seq::empty(), Option::Some((inst, rep)));
            assert((seq![em_u] + seq![em_g]) + Seq::<EmittedInst>::empty() =~~= ems_all);
        }
    }
}

/// Expand a `heap_addr` instruction for a dynamic heap: materialize the
/// runtime bound, emit the cheapest sound bounds check for the access
/// size, trap on out-of-bounds, then materialize the address.
#[verifier::rlimit(100)]
pub fn dynamic_addr(
    inst: Inst,
    heap: Heap,
    offset: Value,
    access_size: u32,
    bound_gv: GlobalValue,
    func: &mut Function,
    b: Block,
    p: usize,
)
    requires
        old(func).wf(),
        b.0 < old(func).blocks@.len(),
        (p as int) < old(func).block_insts(b).len(),
        old(func).block_insts(b)[p as int] == inst,
        inst.0 < old(func).n_insts(),
        heap.0 < old(func).heaps@.len(),
        offset.0 < old(func).n_values(),
        bound_gv.0 < old(func).global_values@.len(),
        old(func).results_of(inst).len() == 1,
    ensures
        final(func).wf(),
        ({
            let f0 = *old(func);
            let hd = f0.heaps@[heap.0 as int];
            let offset_ty = f0.type_of(offset);
            let addr_ty = f0.type_of(f0.results_of(inst).values()[0]);
            let v0 = f0.n_values();
            let va = v0 + dyn_check_nvals(access_size, hd.min_size);
            block_rewrite_post(f0, *final(func), b, p as int,
                dynamic_check_ems(offset, bound_gv, access_size, hd.min_size, offset_ty, v0)
                    + addr_ems(offset, hd.base, offset_ty, addr_ty, va),
                Option::Some((inst, addr_replacement(offset, offset_ty, addr_ty, va))))
        }),
{
    let ghost f0 = *old(func);
    let ghost v0 = f0.n_values();
    let offset_ty = func.value_type(offset);
    let addr_ty = func.value_type(func.first_result(inst));
    let min_size = func.heaps[heap.0].min_size;
    let ghost check = dynamic_check_ems(offset, bound_gv, access_size, min_size, offset_ty, v0);
    let mut pos = p;
    // Start with the bounds check.  Trap if `offset + access_size > bound`.
    let bound = func.insert_inst1(
        b,
        pos,
        InstructionData::GlobalValueGet { gv: bound_gv },
        offset_ty,
    );
    proof {
        vstd::std_specs::vec::axiom_spec_len(&func.blocks@[b.0 as int].insts);
    }
    pos = pos + 1;
    let ghost g1 = *func;
    let ghost e1 = em1(InstructionData::GlobalValueGet { gv: bound_gv }, offset_ty);
    let oob: Value;
    if access_size == 1 {
        // `offset > bound - 1` is the same as `offset >= bound`.
        oob = func.insert_inst1(
            b,
            pos,
            InstructionData::Icmp {
                cond: IntCC::UnsignedGreaterThanOrEqual,
                x: offset,
                y: bound,
            },
            Type::B1,
        );
        proof {
            vstd::std_specs::vec::axiom_spec_len(&func.blocks@[b.0 as int].insts);
            let e2 = em1(
                InstructionData::Icmp {
                    cond: IntCC::UnsignedGreaterThanOrEqual,
                    x: offset,
                    y: bound,
                },
                Type::B1,
            );
            lemma_block_rewrite_compose(f0, g1, *func, b, p as int, seq![e1], seq![e2],
                Option::None);
            assert(seq![e1] + seq![e2] =~~= check.drop_last());
        }
        pos = pos + 1;
    } else if (access_size as u64) <= min_size {
        // We know that `bound >= min_size`, so here we can compare
        // `offset > bound - access_size` without wrapping.
        let adj_bound = func.insert_inst1(
            b,
            pos,
            InstructionData::IaddImm { arg: bound, imm: -(access_size as i64) },
            offset_ty,
        );
        let ghost g2 = *func;
        proof {
            vstd::std_specs::vec::axiom_spec_len(&func.blocks@[b.0 as int].insts);
            let e2 = em1(
                InstructionData::IaddImm { arg: bound, imm: ((-(access_size as int)) as i64) },
                offset_ty,
            );
            lemma_block_rewrite_compose(f0, g1, g2, b, p as int, seq![e1], seq![e2],
                Option::None);
        }
        pos = pos + 1;
        oob = func.insert_inst1(
            b,
            pos,
            InstructionData::Icmp { cond: IntCC::UnsignedGreaterThan, x: offset, y: adj_bound },
            Type::B1,
        );
        proof {
            vstd::std_specs::vec::axiom_spec_len(&func.blocks@[b.0 as int].insts);
            let e2 = em1(
                InstructionData::IaddImm { arg: bound, imm: ((-(access_size as int)) as i64) },
                offset_ty,
            );
            let e3 = em1(
                InstructionData::Icmp {
                    cond: IntCC::UnsignedGreaterThan,
                    x: offset,
                    y: adj_bound,
                },
                Type::B1,
            );
            lemma_block_rewrite_compose(f0, g2, *func, b, p as int, seq![e1] + seq![e2],
                seq![e3], Option::None);
            assert((seq![e1] + seq![e2]) + seq![e3] =~~= check.drop_last());
        }
        pos = pos + 1;
    } else {
        // We need an overflow check for the adjusted offset.
        let access_size_val = func.insert_inst1(
            b,
            pos,
            InstructionData::Iconst { imm: access_size as i64 },
            offset_ty,
        );
        let ghost g2 = *func;
        proof {
            vstd::std_specs::vec::axiom_spec_len(&func.blocks@[b.0 as int].insts);
            let e2 = em1(InstructionData::Iconst { imm: access_size as i64 }, offset_ty);
            lemma_block_rewrite_compose(f0, g1, g2, b, p as int, seq![e1], seq![e2],
                Option::None);
        }
        pos = pos + 1;
        let adj = func.insert_inst2(
            b,
            pos,
            InstructionData::IaddCout { x: offset, y: access_size_val },
            offset_ty,
            Type::B1,
        );
        let (adj_offset, overflow) = adj;
        let ghost g3 = *func;
        proof {
            vstd::std_specs::vec::axiom_spec_len(&func.blocks@[b.0 as int].insts);
            let e2 = em1(InstructionData::Iconst { imm: access_size as i64 }, offset_ty);
            let e3 = em2(
                InstructionData::IaddCout { x: offset, y: access_size_val },
                offset_ty,
                Type::B1,
            );
            lemma_block_rewrite_compose(f0, g2, g3, b, p as int, seq![e1] + seq![e2],
                seq![e3], Option::None);
        }
        pos = pos + 1;
        // The overflow trap must execute before the bound comparison: an
        // overflowed adjusted offset cannot be meaningfully compared.
        func.insert_inst0(
            b,
            pos,
            InstructionData::Trapnz { arg: overflow, code: TrapCode::HeapOutOfBounds },
        );
        let ghost g4 = *func;
        proof {
            vstd::std_specs::vec::axiom_spec_len(&func.blocks@[b.0 as int].insts);
            let e2 = em1(InstructionData::Iconst { imm: access_size as i64 }, offset_ty);
            let e3 = em2(
                InstructionData::IaddCout { x: offset, y: access_size_val },
                offset_ty,
                Type::B1,
            );
            let e4 = em0(
                InstructionData::Trapnz { arg: overflow, code: TrapCode::HeapOutOfBounds },
            );
            lemma_block_rewrite_compose(f0, g3, g4, b, p as int,
                (seq![e1] + seq![e2]) + seq![e3], seq![e4], Option::None);
        }
        pos = pos + 1;
        oob = func.insert_inst1(
            b,
            pos,
            InstructionData::Icmp { cond: IntCC::UnsignedGreaterThan, x: adj_offset, y: bound },
            Type::B1,
        );
        proof {
            vstd::std_specs::vec::axiom_spec_len(&func.blocks@[b.0 as int].insts);
            let e2 = em1(InstructionData::Iconst { imm: access_size as i64 }, offset_ty);
            let e3 = em2(
                InstructionData::IaddCout { x: offset, y: access_size_val },
                offset_ty,
                Type::B1,
            );
            let e4 = em0(
                InstructionData::Trapnz { arg: overflow, code: TrapCode::HeapOutOfBounds },
            );
            let e5 = em1(
                InstructionData::Icmp {
                    cond: IntCC::UnsignedGreaterThan,
                    x: adj_offset,
                    y: bound,
                },
                Type::B1,
            );
            lemma_block_rewrite_compose(f0, g4, *func, b, p as int,
                ((seq![e1] + seq![e2]) + seq![e3]) + seq![e4], seq![e5], Option::None);
            assert((((seq![e1] + seq![e2]) + seq![e3]) + seq![e4]) + seq![e5]
                =~~= check.drop_last());
        }
        pos = pos + 1;
    }
    let ghost gc = *func;
    func.insert_inst0(
        b,
        pos,
        InstructionData::Trapnz { arg: oob, code: TrapCode::HeapOutOfBounds },
    );
    proof {
        vstd::std_specs::vec::axiom_spec_len(&func.blocks@[b.0 as int].insts);
        let et = em0(InstructionData::Trapnz { arg: oob, code: TrapCode::HeapOutOfBounds });
        lemma_block_rewrite_compose(f0, gc, *func, b, p as int, check.drop_last(), seq![et],
            Option::None);
        assert(check.drop_last() + seq![et] =~~= check);
    }
    pos = pos + 1;
    let ghost gt = *func;
    compute_addr(inst, heap, addr_ty, offset, offset_ty, func, b, pos);
    proof {
        let va = v0 + dyn_check_nvals(access_size, min_size);
        assert(gt.n_values() == va);
        assert(pos as int == p + check.len());
        lemma_block_rewrite_compose(f0, gt, *func, b, p as int, check,
            addr_ems(offset, f0.heaps@[heap.0 as int].base, offset_ty, addr_ty, va),
            Option::Some((inst, addr_replacement(offset, offset_ty, addr_ty, va))));
    }
}

/// Expand a `heap_addr` instruction for a static heap: either an
/// unconditional trap and a block split when no access of this size can
/// ever be in bounds, or a check against the compile-time limit (elided
/// when every representable 32-bit offset is provably fine), then the
/// address materialization.
#[verifier::rlimit(100)]
pub fn static_addr(
    inst: Inst,
    heap: Heap,
    offset: Value,
    access_size: u32,
    bound: u64,
    func: &mut Function,
    cfg: &mut ControlFlowGraph,
    b: Block,
    p: usize,
)
    requires
        old(func).wf(),
        b.0 < old(func).blocks@.len(),
        (p as int) < old(func).block_insts(b).len(),
        old(func).block_insts(b)[p as int] == inst,
        inst.0 < old(func).n_insts(),
        heap.0 < old(func).heaps@.len(),
        offset.0 < old(func).n_values(),
        old(func).results_of(inst).len() == 1,
    ensures
        final(func).wf(),
        (access_size as u64) > bound ==> static_trap_at(*old(func), *final(func), *old(cfg),
            *final(cfg), inst, b, p as int),
        (access_size as u64) <= bound ==> {
            let f0 = *old(func);
            let hd = f0.heaps@[heap.0 as int];
            let limit = (bound - access_size) as u64;
            let offset_ty = f0.type_of(offset);
            let addr_ty = f0.type_of(f0.results_of(inst).values()[0]);
            let v0 = f0.n_values();
            let va = v0 + static_check_nvals(offset_ty, limit);
            &&& final(cfg).edges@ == old(cfg).edges@
            &&& block_rewrite_post(f0, *final(func), b, p as int,
                static_check_ems(offset, limit, offset_ty, v0)
                    + addr_ems(offset, hd.base, offset_ty, addr_ty, va),
                Option::Some((inst, addr_replacement(offset, offset_ty, addr_ty, va))))
        },
{
    let ghost f0 = *old(func);
    let ghost v0 = f0.n_values();
    let offset_ty = func.value_type(offset);
    let addr_ty = func.value_type(func.first_result(inst));
    // Start with the bounds check.  Trap if `offset + access_size > bound`.
    if (access_size as u64) > bound {
        // This will simply always trap, since `offset >= 0`.
        func.insert_inst0(b, p, InstructionData::Trap { code: TrapCode::HeapOutOfBounds });
        let ghost g1 = *func;
        func.replace_inst(inst, InstructionData::Iconst { imm: 0 });
        let ghost g2 = *func;
        // Split the block: the trap is a terminator instruction, and the
        // rest of the block is now unreachable.
        proof {
            vstd::std_specs::vec::axiom_spec_len(&func.blocks@[b.0 as int].insts);
        }
        let new_block = func.split_block(b, p + 1);
        let ghost g3 = *func;
        cfg.recompute_block(func, b);
        cfg.recompute_block(func, new_block);
        proof {
            let em = em0(InstructionData::Trap { code: TrapCode::HeapOutOfBounds });
            lemma_ems_singleton(em, v0);
            assert(func.dfg.insts@ =~= f0.dfg.insts@.update(inst.0 as int,
                InstructionData::Iconst { imm: 0 }).push(
                InstructionData::Trap { code: TrapCode::HeapOutOfBounds }));
            assert(func.dfg.results@ =~= f0.dfg.results@.push(ResultList::Zero));
            assert(func.dfg.value_types@ =~= f0.dfg.value_types@);
            assert(g1.block_insts(b) =~= f0.block_insts(b).subrange(0, p as int)
                + seq![(Inst(f0.n_insts() as usize))]
                + f0.block_insts(b).subrange(p as int, f0.block_insts(b).len() as int));
            assert(func.block_insts(b) =~= f0.block_insts(b).subrange(0, p as int).push(
                Inst(f0.n_insts() as usize)));
            assert(func.block_insts(new_block) =~= f0.block_insts(b).subrange(p as int,
                f0.block_insts(b).len() as int));
            assert(static_trap_at(f0, *func, *old(cfg), *cfg, inst, b, p as int));
        }
        return ;
    }
    // Check `offset > limit`, which is now known non-negative.
    let limit: u64 = bound - (access_size as u64);
    let ghost check = static_check_ems(offset, limit, offset_ty, v0);
    let mut pos = p;
    // We can omit the check entirely for 32-bit offsets when the heap
    // bound is 4 GiB or more.
    if !(offset_ty == Type::I32 && limit >= 0xffff_ffff) {
        let oob: Value;
        if limit % 2 == 1 {
            // Prefer testing `offset >= limit - 1` when `limit` is odd,
            // because an even immediate is cheaper to encode on several
            // register architectures.
            oob = func.insert_inst1(
                b,
                pos,
                InstructionData::IcmpImm {
                    cond: IntCC::UnsignedGreaterThanOrEqual,
                    arg: offset,
                    imm: limit - 1,
                },
                Type::B1,
            );
        } else {
            oob = func.insert_inst1(
                b,
                pos,
                InstructionData::IcmpImm {
                    cond: IntCC::UnsignedGreaterThan,
                    arg: offset,
                    imm: limit,
                },
                Type::B1,
            );
        }
        let ghost g1 = *func;
        proof {
            vstd::std_specs::vec::axiom_spec_len(&func.blocks@[b.0 as int].insts);
            if limit % 2 == 1 {
                assert(check.drop_last() =~= seq![
                    em1(
                        InstructionData::IcmpImm {
                            cond: IntCC::UnsignedGreaterThanOrEqual,
                            arg: offset,
                            imm: ((limit - 1) as u64),
                        },
                        Type::B1,
                    ),
                ]);
            } else {
                assert(check.drop_last() =~= seq![
                    em1(
                        InstructionData::IcmpImm {
                            cond: IntCC::UnsignedGreaterThan,
                            arg: offset,
                            imm: limit,
                        },
                        Type::B1,
                    ),
                ]);
            }
            assert(block_rewrite_post(f0, g1, b, p as int, check.drop_last(), Option::None));
        }
        pos = pos + 1;
        func.insert_inst0(
            b,
            pos,
            InstructionData::Trapnz { arg: oob, code: TrapCode::HeapOutOfBounds },
        );
        proof {
            vstd::std_specs::vec::axiom_spec_len(&func.blocks@[b.0 as int].insts);
            let et = em0(InstructionData::Trapnz { arg: oob, code: TrapCode::HeapOutOfBounds });
            lemma_block_rewrite_compose(f0, g1, *func, b, p as int, check.drop_last(),
                seq![et], Option::None);
            assert(check.drop_last() + seq![et] =~~= check);
        }
        pos = pos + 1;
    } else {
        proof {
            assert(check =~~= Seq::<EmittedInst>::empty());
        }
    }
    let ghost gc = *func;
    proof {
        if !static_check_elided(offset_ty, limit) {
        } else {
            assert(gc.block_insts(b) =~= f0.block_insts(b).subrange(0, p as int)
                + crate::rewrite::inst_range(f0.n_insts(), 0)
                + f0.block_insts(b).subrange(p as int, f0.block_insts(b).len() as int));
            assert(block_rewrite_post(f0, gc, b, p as int, check, Option::None));
        }
    }
    compute_addr(inst, heap, addr_ty, offset, offset_ty, func, b, pos);
    proof {
        let va = v0 + static_check_nvals(offset_ty, limit);
        assert(gc.n_values() == va);
        assert(pos as int == p + check.len());
        lemma_block_rewrite_compose(f0, gc, *func, b, p as int, check,
            addr_ems(offset, f0.heaps@[heap.0 as int].base, offset_ty, addr_ty, va),
            Option::Some((inst, addr_replacement(offset, offset_ty, addr_ty, va))));
    }
}

/// Expand a `heap_addr` instruction according to the definition of the
/// heap it references.
///
/// The instruction must really be a `heap_addr` placed somewhere in the
/// function's layout; handing this pass any other instruction is a bug in
/// the pipeline, which the precondition rules out.  The postcondition
/// says, by heap style, exactly which rewrite happened: the dynamic or
/// static check-and-materialize sequence in place, or - when a static
/// access can never be in bounds - an unconditional trap, a zero constant
/// replacing the result, and a block split with recomputed edges.
pub fn expand_heap_addr(
    inst: Inst,
    func: &mut Function,
    cfg: &mut ControlFlowGraph,
    _isa: &TargetIsa,
)
    requires
        old(func).wf(),
        inst.0 < old(func).n_insts(),
        old(func).data_of(inst) is HeapAddr,
        (exists|bb: Block, pp: int|
            bb.0 < old(func).blocks@.len() && 0 <= pp < old(func).block_insts(bb).len()
                && #[trigger] old(func).block_insts(bb)[pp] == inst),
    ensures
        final(func).wf(),
        (exists|bb: Block, pp: int|
            #![trigger old(func).block_insts(bb)[pp]]
            {
                let f0 = *old(func);
                let heap = f0.data_of(inst)->HeapAddr_heap;
                let access_size = f0.data_of(inst)->HeapAddr_access_size;
                &&& bb.0 < f0.blocks@.len()
                &&& 0 <= pp < f0.block_insts(bb).len()
                &&& f0.block_insts(bb)[pp] == inst
                &&& match f0.heaps@[heap.0 as int].style {
                    HeapStyle::Dynamic { bound_gv: _ } => {
                        &&& dynamic_expansion_at(f0, *final(func), inst, bb, pp)
                        &&& final(cfg).edges@ == old(cfg).edges@
                    },
                    HeapStyle::Static { bound } => {
                        if access_size as u64 > bound {
                            static_trap_at(f0, *final(func), *old(cfg), *final(cfg), inst, bb,
                                pp)
                        } else {
                            &&& static_expansion_at(f0, *final(func), inst, bb, pp)
                            &&& final(cfg).edges@ == old(cfg).edges@
                        }
                    },
                }
            }),
{
    let ghost f0 = *old(func);
    // Unpack the instruction.
    let (heap, offset, access_size) = match func.dfg.insts[inst.0] {
        InstructionData::HeapAddr { heap, arg, access_size } => (heap, arg, access_size),
        _ => vstd::pervasive::unreached(),
    };
    proof {
        assert(f0.dfg.insts@[inst.0 as int].refs_valid(f0.n_values(), f0.n_blocks(),
            f0.heaps@.len() as int, f0.global_values@.len() as int));
        assert(f0.dfg.results@[inst.0 as int].len() == 1);
        assert(heap_refs_valid(f0.heaps@[heap.0 as int], f0.global_values@.len() as int));
    }
    let (b, p) = func.find_inst(inst);
    match func.heaps[heap.0].style {
        HeapStyle::Dynamic { bound_gv } => {
            dynamic_addr(inst, heap, offset, access_size, bound_gv, func, b, p);
            proof {
                assert(dynamic_expansion_at(f0, *func, inst, b, p as int));
            }
        },
        HeapStyle::Static { bound } => {
            static_addr(inst, heap, offset, access_size, bound, func, cfg, b, p);
            proof {
                if access_size as u64 <= bound {
                    assert(static_expansion_at(f0, *func, inst, b, p as int));
                }
            }
        },
    }
}

} // verus!
