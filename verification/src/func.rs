//! The function under legalization: an arena of instructions and values,
//! a layout of basic blocks, and the heap and global-value tables.
//!
//! Instructions and values live in index-addressed tables owned by the
//! function.  Rewriting an instruction mutates the operation stored at a
//! fixed index, so every existing reference to the instruction or to its
//! result values stays valid and observes the new definition.

use vstd::prelude::*;
use crate::entities::{Block, GlobalValue, Heap, Inst, Type, Value};
use crate::globalvalue::GlobalValueData;
use crate::instructions::{InstructionData, ResultList};

verus! {

/// One basic block: its parameter values and the instructions it holds,
/// in program order.
pub struct BlockData {
    /// The values this block receives as parameters.
    pub params: Vec<Value>,
    /// The instructions of the block, in execution order.
    pub insts: Vec<Inst>,
}

/// The instruction arena and the value tables of a function.
pub struct DataFlowGraph {
    /// The operation stored at each instruction index.
    pub insts: Vec<InstructionData>,
    /// The result values defined by each instruction, parallel to `insts`.
    pub results: Vec<ResultList>,
    /// The type of each value, indexed by value number.
    pub value_types: Vec<Type>,
}

/// How the bound of a heap is known.
#[derive(Clone, Copy, PartialEq, Eq, Structural, Debug)]
pub enum HeapStyle {
    /// The bound is computed at the target program's runtime by resolving
    /// a global value.
    Dynamic {
        /// The global value holding the current bound, in bytes.
        bound_gv: GlobalValue,
    },
    /// The bound is a compile-time constant, in bytes.
    Static {
        /// The fixed bound.
        bound: u64,
    },
}

/// A heap declaration: where the heap starts, how its bound is known and
/// the minimum size it is guaranteed to have.
///
/// `min_size` must be a sound lower bound on the heap's actual size at
/// every point a dynamic bound may be observed; the dynamic expansion
/// relies on that invariant.
#[derive(Clone, Copy, PartialEq, Eq, Structural, Debug)]
pub struct HeapData {
    /// The global value computing the heap's base address.
    pub base: GlobalValue,
    /// A guaranteed lower bound on the heap's size, in bytes.
    pub min_size: u64,
    /// How the heap's bound is known.
    pub style: HeapStyle,
}

/// A function in mid-legalization: data flow graph, block layout, and the
/// externally populated heap and global-value tables.
pub struct Function {
    /// The instruction arena and value tables.
    pub dfg: DataFlowGraph,
    /// The basic blocks, indexed by block number.
    pub blocks: Vec<BlockData>,
    /// The declared heaps, indexed by heap number.
    pub heaps: Vec<HeapData>,
    /// The declared global values, indexed by global value number.
    pub global_values: Vec<GlobalValueData>,
}

/// Whether a heap declaration only references global values below `ngvs`.
pub open spec fn heap_refs_valid(h: HeapData, ngvs: int) -> bool {
    &&& h.base.0 < ngvs
    &&& match h.style {
        HeapStyle::Dynamic { bound_gv } => bound_gv.0 < ngvs,
        HeapStyle::Static { .. } => true,
    }
}

/// Whether a global value declaration only references global values
/// below `ngvs`.
pub open spec fn gv_refs_valid(g: GlobalValueData, ngvs: int) -> bool {
    match g {
        GlobalValueData::Load { base, .. } => base.0 < ngvs,
        GlobalValueData::IAddImm { base, .. } => base.0 < ngvs,
        _ => true,
    }
}

impl Function {
    /// The number of instructions in the arena (also the next instruction
    /// index).
    pub open spec fn n_insts(self) -> int {
        self.dfg.insts@.len() as int
    }

    /// The number of values (also the next value index).
    pub open spec fn n_values(self) -> int {
        self.dfg.value_types@.len() as int
    }

    /// The number of blocks.
    pub open spec fn n_blocks(self) -> int {
        self.blocks@.len() as int
    }

    /// The instruction sequence of block `b`.
    pub open spec fn block_insts(self, b: Block) -> Seq<Inst> {
        self.blocks@[b.0 as int].insts@
    }

    /// The operation currently stored at instruction `i`.
    pub open spec fn data_of(self, i: Inst) -> InstructionData {
        self.dfg.insts@[i.0 as int]
    }

    /// The result list of instruction `i`.
    pub open spec fn results_of(self, i: Inst) -> ResultList {
        self.dfg.results@[i.0 as int]
    }

    /// The type of value `v`.
    pub open spec fn type_of(self, v: Value) -> Type {
        self.dfg.value_types@[v.0 as int]
    }

    /// Structural well-formedness: tables are parallel where they must be,
    /// and every stored entity reference points inside its table.
    pub open spec fn wf(self) -> bool {
        &&& self.dfg.results@.len() == self.dfg.insts@.len()
        &&& (forall|i: int| 0 <= i < self.n_insts() ==> (#[trigger] self.dfg.results@[i]).len()
            == self.dfg.insts@[i].result_count())
        &&& (forall|i: int, k: int| 0 <= i < self.n_insts() && 0 <= k < self.dfg.results@[i].len()
            ==> (#[trigger] self.dfg.results@[i].values()[k]).0 < self.n_values())
        &&& (forall|i: int| 0 <= i < self.n_insts() ==> (#[trigger] self.dfg.insts@[i]).refs_valid(
            self.n_values(), self.n_blocks(), self.heaps@.len() as int,
            self.global_values@.len() as int))
        &&& (forall|b: int, j: int| 0 <= b < self.n_blocks()
            && 0 <= j < self.blocks@[b].insts@.len()
            ==> (#[trigger] self.blocks@[b].insts@[j]).0 < self.n_insts())
        &&& (forall|b: int, j: int| 0 <= b < self.n_blocks()
            && 0 <= j < self.blocks@[b].params@.len()
            ==> (#[trigger] self.blocks@[b].params@[j]).0 < self.n_values())
        &&& (forall|h: int| 0 <= h < self.heaps@.len() ==> heap_refs_valid(
            #[trigger] self.heaps@[h], self.global_values@.len() as int))
        &&& (forall|g: int| 0 <= g < self.global_values@.len() ==> gv_refs_valid(
            #[trigger] self.global_values@[g], self.global_values@.len() as int))
    }

    /// Create an empty function.
    pub fn new() -> (f: Function)
        ensures
            f.wf(),
            f.n_insts() == 0,
            f.n_values() == 0,
            f.n_blocks() == 0,
            f.heaps@.len() == 0,
            f.global_values@.len() == 0,
    {
        Function {
            dfg: DataFlowGraph { insts: Vec::new(), results: Vec::new(), value_types: Vec::new() },
            blocks: Vec::new(),
            heaps: Vec::new(),
            global_values: Vec::new(),
        }
    }

    /// Append a new, empty block to the layout.
    pub fn make_block(&mut self) -> (b: Block)
        requires
            old(self).wf(),
        ensures
            final(self).wf(),
            b == (Block(old(self).blocks@.len() as usize)),
            final(self).blocks@.len() == old(self).blocks@.len() + 1,
            final(self).blocks@[b.0 as int].insts@ == Seq::<Inst>::empty(),
            final(self).blocks@[b.0 as int].params@ == Seq::<Value>::empty(),
            forall|j: int| 0 <= j < old(self).blocks@.len()
                ==> final(self).blocks@[j] == old(self).blocks@[j],
            final(self).dfg == old(self).dfg,
            final(self).heaps@ == old(self).heaps@,
            final(self).global_values@ == old(self).global_values@,
    {
        let b = Block(self.blocks.len());
        self.blocks.push(BlockData { params: Vec::new(), insts: Vec::new() });
        b
    }

    /// Append a parameter value of type `ty` to block `b`.
    pub fn append_block_param(&mut self, b: Block, ty: Type) -> (v: Value)
        requires
            old(self).wf(),
            b.0 < old(self).blocks@.len(),
        ensures
            final(self).wf(),
            v == (Value(old(self).dfg.value_types@.len() as usize)),
            final(self).dfg.value_types@ == old(self).dfg.value_types@.push(ty),
            final(self).dfg.insts@ == old(self).dfg.insts@,
            final(self).dfg.results@ == old(self).dfg.results@,
            final(self).blocks@.len() == old(self).blocks@.len(),
            final(self).blocks@[b.0 as int].params@
                == old(self).blocks@[b.0 as int].params@.push(v),
            final(self).blocks@[b.0 as int].insts@ == old(self).blocks@[b.0 as int].insts@,
            forall|j: int| 0 <= j < old(self).blocks@.len() && j != b.0
                ==> final(self).blocks@[j] == old(self).blocks@[j],
            final(self).heaps@ == old(self).heaps@,
            final(self).global_values@ == old(self).global_values@,
    {
        let v = Value(self.dfg.value_types.len());
        self.dfg.value_types.push(ty);
        self.blocks[b.0].params.push(v);
        v
    }

    /// Declare a global value and return its reference.
    pub fn declare_global_value(&mut self, data: GlobalValueData) -> (gv: GlobalValue)
        requires
            old(self).wf(),
            gv_refs_valid(data, old(self).global_values@.len() as int),
        ensures
            final(self).wf(),
            gv == (GlobalValue(old(self).global_values@.len() as usize)),
            final(self).global_values@ == old(self).global_values@.push(data),
            final(self).dfg == old(self).dfg,
            final(self).blocks@ == old(self).blocks@,
            final(self).heaps@ == old(self).heaps@,
    {
        let gv = GlobalValue(self.global_values.len());
        self.global_values.push(data);
        gv
    }

    /// Declare a heap and return its reference.
    pub fn declare_heap(&mut self, data: HeapData) -> (h: Heap)
        requires
            old(self).wf(),
            heap_refs_valid(data, old(self).global_values@.len() as int),
        ensures
            final(self).wf(),
            h == (Heap(old(self).heaps@.len() as usize)),
            final(self).heaps@ == old(self).heaps@.push(data),
            final(self).dfg == old(self).dfg,
            final(self).blocks@ == old(self).blocks@,
            final(self).global_values@ == old(self).global_values@,
    {
        let h = Heap(self.heaps.len());
        self.heaps.push(data);
        h
    }

    /// Read the type of a value.
    pub fn value_type(&self, v: Value) -> (t: Type)
        requires
            v.0 < self.dfg.value_types@.len(),
        ensures
            t == self.type_of(v),
    {
        self.dfg.value_types[v.0]
    }

    /// The first result value of an instruction that defines at least one.
    pub fn first_result(&self, i: Inst) -> (v: Value)
        requires
            i.0 < self.dfg.results@.len(),
            self.results_of(i).len() >= 1,
        ensures
            v == self.results_of(i).values()[0],
    {
        match self.dfg.results[i.0] {
            ResultList::One(a) => a,
            ResultList::Two(a, _) => a,
            ResultList::Zero => vstd::pervasive::unreached(),
        }
    }

    /// Find a block and position holding instruction `i`.  The caller
    /// must know that the instruction is placed somewhere in the layout.
    pub fn find_inst(&self, i: Inst) -> (r: (Block, usize))
        requires
            exists|bb: Block, pp: int|
                bb.0 < self.blocks@.len() && 0 <= pp < self.block_insts(bb).len()
                    && self.block_insts(bb)[pp] == i,
        ensures
            r.0.0 < self.blocks@.len(),
            (r.1 as int) < self.block_insts(r.0).len(),
            self.block_insts(r.0)[r.1 as int] == i,
    {
        let nb = self.blocks.len();
        let mut bi: usize = 0;
        while bi < nb
            invariant
                bi <= nb,
                nb == self.blocks@.len(),
                exists|bb: Block, pp: int|
                    bb.0 < self.blocks@.len() && 0 <= pp < self.block_insts(bb).len()
                        && self.block_insts(bb)[pp] == i,
                forall|bj: int, pj: int|
                    0 <= bj < bi && 0 <= pj < self.blocks@[bj].insts@.len()
                        ==> self.blocks@[bj].insts@[pj] != i,
            decreases nb - bi,
        {
            let m = self.blocks[bi].insts.len();
            let mut pj: usize = 0;
            while pj < m
                invariant
                    bi < nb,
                    nb == self.blocks@.len(),
                    pj <= m,
                    m == self.blocks@[bi as int].insts@.len(),
                    forall|q: int| 0 <= q < pj ==> self.blocks@[bi as int].insts@[q] != i,
                decreases m - pj,
            {
                if self.blocks[bi].insts[pj] == i {
                    return (Block(bi), pj);
                }
                pj += 1;
            }
            bi += 1;
        }
        proof {
            let (bb, pp): (Block, int) = choose|bb: Block, pp: int|
                bb.0 < self.blocks@.len() && 0 <= pp < self.block_insts(bb).len()
                    && self.block_insts(bb)[pp] == i;
            assert(self.blocks@[bb.0 as int].insts@[pp] != i);
            assert(false);
        }
        vstd::pervasive::unreached()
    }
}

} // verus!
