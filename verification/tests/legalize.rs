//! End-to-end checks of the heap-address expansions on concrete
//! functions: which instructions are emitted, in which order, and how
//! the layout and the control-flow graph change.

use heap_legalizer::entities::{Block, GlobalValue, Inst, IntCC, TargetIsa, TrapCode, Type, Value};
use heap_legalizer::flowgraph::{BlockEdge, ControlFlowGraph};
use heap_legalizer::func::{Function, HeapData, HeapStyle};
use heap_legalizer::globalvalue::GlobalValueData;
use heap_legalizer::heap::expand_heap_addr;
use heap_legalizer::instructions::InstructionData;

struct Setup {
    func: Function,
    cfg: ControlFlowGraph,
    block: Block,
    inst: Inst,
    offset: Value,
}

/// One block holding a single `heap_addr` of the given heap style, with
/// a block parameter as the offset.
fn setup(style: HeapStyle, min_size: u64, access_size: u32, offset_ty: Type, addr_ty: Type)
    -> Setup {
    let mut func = Function::new();
    let block = func.make_block();
    let offset = func.append_block_param(block, offset_ty);
    let base = func.declare_global_value(GlobalValueData::VMContext);
    let heap = func.declare_heap(HeapData { base, min_size, style });
    let inst_value = func.insert_inst1(
        block,
        0,
        InstructionData::HeapAddr { heap, arg: offset, access_size },
        addr_ty,
    );
    // The heap_addr instruction is the first and only instruction.
    assert_eq!(inst_value, Value(1));
    Setup { func, cfg: ControlFlowGraph::new(), block, inst: Inst(0), offset }
}

fn isa64() -> TargetIsa {
    TargetIsa { pointer_ty: Type::I64 }
}

#[test]
fn static_even_limit_full_sequence() {
    // bound 65536, access size 4, 32-bit offset: limit 65532 is even, so
    // the direct `offset > 65532` comparison is used.
    let mut s = setup(HeapStyle::Static { bound: 65536 }, 0, 4, Type::I32, Type::I64);
    expand_heap_addr(s.inst, &mut s.func, &mut s.cfg, &isa64());
    // Values: 0 = offset param, 1 = heap_addr result, 2 = flag,
    // 3 = extended offset, 4 = base.
    assert_eq!(
        s.func.dfg.insts[1],
        InstructionData::IcmpImm {
            cond: IntCC::UnsignedGreaterThan,
            arg: s.offset,
            imm: 65532,
        }
    );
    assert_eq!(
        s.func.dfg.insts[2],
        InstructionData::Trapnz { arg: Value(2), code: TrapCode::HeapOutOfBounds }
    );
    assert_eq!(s.func.dfg.insts[3], InstructionData::Uextend { arg: s.offset });
    assert_eq!(s.func.dfg.insts[4], InstructionData::GlobalValueGet { gv: GlobalValue(0) });
    // The original instruction now computes base + extended offset.
    assert_eq!(s.func.dfg.insts[0], InstructionData::Iadd { x: Value(4), y: Value(3) });
    // Block order: check, trap, extend, base, then the rewritten
    // instruction, still under its original identity.
    assert_eq!(
        s.func.blocks[0].insts,
        vec![Inst(1), Inst(2), Inst(3), Inst(4), Inst(0)]
    );
    // No split happened and the graph was not touched.
    assert_eq!(s.func.blocks.len(), 1);
    assert_eq!(s.cfg.edges.len(), 0);
}

#[test]
fn static_check_not_elided_below_4g() {
    // bound 70000, access size 8: limit 69992 is far below 0xffff_ffff,
    // so the check is emitted, on the even branch.
    let mut s = setup(HeapStyle::Static { bound: 70000 }, 0, 8, Type::I32, Type::I64);
    expand_heap_addr(s.inst, &mut s.func, &mut s.cfg, &isa64());
    assert_eq!(
        s.func.dfg.insts[1],
        InstructionData::IcmpImm {
            cond: IntCC::UnsignedGreaterThan,
            arg: s.offset,
            imm: 69992,
        }
    );
    assert_eq!(
        s.func.dfg.insts[2],
        InstructionData::Trapnz { arg: Value(2), code: TrapCode::HeapOutOfBounds }
    );
}

#[test]
fn static_odd_limit_uses_even_immediate() {
    // bound 11, access size 4: limit 7 is odd, so the emitted test is
    // `offset >= 6`, whose immediate is even.
    let mut s = setup(HeapStyle::Static { bound: 11 }, 0, 4, Type::I32, Type::I64);
    expand_heap_addr(s.inst, &mut s.func, &mut s.cfg, &isa64());
    assert_eq!(
        s.func.dfg.insts[1],
        InstructionData::IcmpImm {
            cond: IntCC::UnsignedGreaterThanOrEqual,
            arg: s.offset,
            imm: 6,
        }
    );
}

#[test]
fn static_elision_no_check_emitted() {
    // A 32-bit offset against a limit of exactly 0xffff_ffff: every
    // representable offset is in bounds, so no comparison and no trap
    // appear; only the address materialization is emitted.
    let mut s = setup(
        HeapStyle::Static { bound: 0xffff_ffff + 4 },
        0,
        4,
        Type::I32,
        Type::I64,
    );
    expand_heap_addr(s.inst, &mut s.func, &mut s.cfg, &isa64());
    assert_eq!(s.func.dfg.insts.len(), 3);
    assert_eq!(s.func.dfg.insts[1], InstructionData::Uextend { arg: s.offset });
    assert_eq!(s.func.dfg.insts[2], InstructionData::GlobalValueGet { gv: GlobalValue(0) });
    // Values: 0 offset, 1 result, 2 extended offset, 3 base.
    assert_eq!(s.func.dfg.insts[0], InstructionData::Iadd { x: Value(3), y: Value(2) });
    assert_eq!(s.func.blocks[0].insts, vec![Inst(1), Inst(2), Inst(0)]);
}

#[test]
fn static_unconditional_trap_splits_block() {
    // bound 16, access size 32: no offset can be in bounds.  The check
    // degenerates to an unconditional trap, the result becomes a zero
    // constant in a fresh unreachable block, and both blocks get edges
    // recomputed.
    let mut s = setup(HeapStyle::Static { bound: 16 }, 0, 32, Type::I32, Type::I64);
    expand_heap_addr(s.inst, &mut s.func, &mut s.cfg, &isa64());
    // The trap ends the original block.
    assert_eq!(s.func.dfg.insts[1], InstructionData::Trap { code: TrapCode::HeapOutOfBounds });
    assert_eq!(s.func.blocks[0].insts, vec![Inst(1)]);
    // The rewritten instruction, now a zero constant of the address
    // type, lives in the new block.
    assert_eq!(s.func.blocks.len(), 2);
    assert_eq!(s.func.blocks[1].insts, vec![Inst(0)]);
    assert_eq!(s.func.dfg.insts[0], InstructionData::Iconst { imm: 0 });
    // Its result value and type are untouched.
    assert_eq!(s.func.dfg.value_types[1], Type::I64);
    // Neither block branches anywhere.
    assert_eq!(s.cfg.edges.len(), 0);
}

#[test]
fn static_trap_split_moves_branch_and_edges() {
    // A branch that followed the heap_addr moves into the unreachable
    // block, and the recomputed graph shows the edge leaving from there.
    let mut func = Function::new();
    let b0 = func.make_block();
    let b1 = func.make_block();
    let offset = func.append_block_param(b0, Type::I32);
    let base = func.declare_global_value(GlobalValueData::VMContext);
    let heap = func.declare_heap(HeapData {
        base,
        min_size: 0,
        style: HeapStyle::Static { bound: 16 },
    });
    func.insert_inst1(
        b0,
        0,
        InstructionData::HeapAddr { heap, arg: offset, access_size: 32 },
        Type::I64,
    );
    func.insert_inst0(b0, 1, InstructionData::Jump { destination: b1 });
    let mut cfg = ControlFlowGraph::new();
    cfg.recompute_block(&func, b0);
    assert_eq!(cfg.edges, vec![BlockEdge { from: b0, to: b1 }]);
    expand_heap_addr(Inst(0), &mut func, &mut cfg, &isa64());
    // Original block: just the trap.  New block: the zero constant and
    // the old branch.
    assert_eq!(func.blocks.len(), 3);
    assert_eq!(func.blocks[0].insts, vec![Inst(2)]);
    assert_eq!(func.blocks[2].insts, vec![Inst(0), Inst(1)]);
    // The edge to b1 now leaves from the new block.
    assert_eq!(cfg.edges, vec![BlockEdge { from: Block(2), to: b1 }]);
}

#[test]
fn dynamic_access_one_compares_ge_bound() {
    // access size 1: out of bounds iff `offset >= bound`; no adjustment
    // instruction is needed.
    let mut s = setup(
        HeapStyle::Dynamic { bound_gv: GlobalValue(0) },
        0x1_0000,
        1,
        Type::I32,
        Type::I64,
    );
    expand_heap_addr(s.inst, &mut s.func, &mut s.cfg, &isa64());
    // Values: 0 offset, 1 result, 2 bound, 3 flag, 4 extended, 5 base.
    assert_eq!(s.func.dfg.insts[1], InstructionData::GlobalValueGet { gv: GlobalValue(0) });
    assert_eq!(
        s.func.dfg.insts[2],
        InstructionData::Icmp {
            cond: IntCC::UnsignedGreaterThanOrEqual,
            x: s.offset,
            y: Value(2),
        }
    );
    assert_eq!(
        s.func.dfg.insts[3],
        InstructionData::Trapnz { arg: Value(3), code: TrapCode::HeapOutOfBounds }
    );
    assert_eq!(s.func.dfg.insts[0], InstructionData::Iadd { x: Value(5), y: Value(4) });
    assert_eq!(
        s.func.blocks[0].insts,
        vec![Inst(1), Inst(2), Inst(3), Inst(4), Inst(5), Inst(0)]
    );
}

#[test]
fn dynamic_small_access_adjusts_bound_without_overflow_check() {
    // access size equal to min_size: `bound - access_size` cannot
    // underflow, so the cheaper adjusted-bound comparison is used and no
    // overflow-detecting addition appears anywhere.
    let mut s = setup(
        HeapStyle::Dynamic { bound_gv: GlobalValue(0) },
        65536,
        65536,
        Type::I32,
        Type::I64,
    );
    expand_heap_addr(s.inst, &mut s.func, &mut s.cfg, &isa64());
    assert_eq!(s.func.dfg.insts[1], InstructionData::GlobalValueGet { gv: GlobalValue(0) });
    assert_eq!(
        s.func.dfg.insts[2],
        InstructionData::IaddImm { arg: Value(2), imm: -65536 }
    );
    assert_eq!(
        s.func.dfg.insts[3],
        InstructionData::Icmp { cond: IntCC::UnsignedGreaterThan, x: s.offset, y: Value(3) }
    );
    assert_eq!(
        s.func.dfg.insts[4],
        InstructionData::Trapnz { arg: Value(4), code: TrapCode::HeapOutOfBounds }
    );
    for data in s.func.dfg.insts.iter() {
        assert!(!matches!(data, InstructionData::IaddCout { .. }));
    }
}

#[test]
fn dynamic_large_access_traps_on_overflow_first() {
    // access size above min_size: the adjusted offset is computed with a
    // carry, and the trap on the carry comes before the bound
    // comparison in program order.
    let mut s = setup(
        HeapStyle::Dynamic { bound_gv: GlobalValue(0) },
        16,
        4096,
        Type::I32,
        Type::I64,
    );
    expand_heap_addr(s.inst, &mut s.func, &mut s.cfg, &isa64());
    // Values: 0 offset, 1 result, 2 bound, 3 access const, 4 adjusted
    // offset, 5 carry, 6 flag, 7 extended, 8 base.
    assert_eq!(s.func.dfg.insts[1], InstructionData::GlobalValueGet { gv: GlobalValue(0) });
    assert_eq!(s.func.dfg.insts[2], InstructionData::Iconst { imm: 4096 });
    assert_eq!(
        s.func.dfg.insts[3],
        InstructionData::IaddCout { x: s.offset, y: Value(3) }
    );
    assert_eq!(
        s.func.dfg.insts[4],
        InstructionData::Trapnz { arg: Value(5), code: TrapCode::HeapOutOfBounds }
    );
    assert_eq!(
        s.func.dfg.insts[5],
        InstructionData::Icmp { cond: IntCC::UnsignedGreaterThan, x: Value(4), y: Value(2) }
    );
    assert_eq!(
        s.func.dfg.insts[6],
        InstructionData::Trapnz { arg: Value(6), code: TrapCode::HeapOutOfBounds }
    );
    // Program order: the overflow trap (Inst 4) precedes the comparison
    // (Inst 5) and its trap (Inst 6).
    assert_eq!(
        s.func.blocks[0].insts,
        vec![Inst(1), Inst(2), Inst(3), Inst(4), Inst(5), Inst(6), Inst(7), Inst(8), Inst(0)]
    );
}

#[test]
fn expansion_finds_instruction_in_later_block() {
    // The heap_addr sits in the second block of the layout; the emitted
    // check lands there, and the first block is untouched.
    let mut func = Function::new();
    let b0 = func.make_block();
    let b1 = func.make_block();
    let offset = func.append_block_param(b1, Type::I32);
    func.insert_inst0(b0, 0, InstructionData::Jump { destination: b1 });
    let base = func.declare_global_value(GlobalValueData::VMContext);
    let heap = func.declare_heap(HeapData {
        base,
        min_size: 0,
        style: HeapStyle::Static { bound: 100 },
    });
    func.insert_inst1(
        b1,
        0,
        InstructionData::HeapAddr { heap, arg: offset, access_size: 4 },
        Type::I64,
    );
    let mut cfg = ControlFlowGraph::new();
    expand_heap_addr(Inst(1), &mut func, &mut cfg, &isa64());
    assert_eq!(func.blocks[0].insts, vec![Inst(0)]);
    // limit 96 is even: direct comparison, then trap, extend, base, add.
    assert_eq!(
        func.blocks[1].insts,
        vec![Inst(2), Inst(3), Inst(4), Inst(5), Inst(1)]
    );
    assert_eq!(
        func.dfg.insts[2],
        InstructionData::IcmpImm { cond: IntCC::UnsignedGreaterThan, arg: offset, imm: 96 }
    );
}

#[test]
fn address_identity_same_width_offset() {
    // When the offset already has the address type, no extension is
    // emitted: the result is defined as `base + offset` directly, under
    // the original result value.
    let mut s = setup(HeapStyle::Static { bound: 4096 }, 0, 1, Type::I64, Type::I64);
    expand_heap_addr(s.inst, &mut s.func, &mut s.cfg, &isa64());
    for data in s.func.dfg.insts.iter() {
        assert!(!matches!(data, InstructionData::Uextend { .. }));
    }
    // Values: 0 offset, 1 result, 2 flag, 3 base.
    assert_eq!(s.func.dfg.insts[0], InstructionData::Iadd { x: Value(3), y: s.offset });
    // The result value of the rewritten instruction is still value 1.
    assert_eq!(s.func.first_result(Inst(0)), Value(1));
}
