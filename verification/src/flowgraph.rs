//! The control-flow graph: branch edges between blocks, rebuilt
//! explicitly per block after the layout is mutated.

use vstd::prelude::*;
use crate::entities::Block;
use crate::func::Function;
use crate::instructions::InstructionData;

verus! {

/// One directed edge of the control-flow graph.
#[derive(Clone, Copy, PartialEq, Eq, Structural, Debug)]
pub struct BlockEdge {
    /// The block the branch sits in.
    pub from: Block,
    /// The block the branch targets.
    pub to: Block,
}

/// The control-flow graph of a function: the list of branch edges.
///
/// An edge list is current for a block when it matches the branches that
/// block actually contains; [`ControlFlowGraph::recompute_block`] rebuilds
/// the edges of one block from scratch after a mutation.
pub struct ControlFlowGraph {
    /// All recorded edges.
    pub edges: Vec<BlockEdge>,
}

/// The branch targets named by the given instructions, in order.
pub open spec fn jump_targets_of(f: Function, insts: Seq<crate::entities::Inst>) -> Seq<Block>
    decreases insts.len(),
{
    if insts.len() == 0 {
        Seq::empty()
    } else {
        jump_targets_of(f, insts.drop_last()) + (match f.data_of(insts.last()) {
            InstructionData::Jump { destination } => seq![destination],
            _ => Seq::empty(),
        })
    }
}

/// The branch targets of block `b` in `f`, in order.
pub open spec fn jump_targets(f: Function, b: Block) -> Seq<Block> {
    jump_targets_of(f, f.block_insts(b))
}

/// The subsequence of `s` whose edges do not start at `b`.
pub open spec fn edges_not_from(s: Seq<BlockEdge>, b: Block) -> Seq<BlockEdge>
    decreases s.len(),
{
    if s.len() == 0 {
        Seq::empty()
    } else {
        edges_not_from(s.drop_last(), b) + (if s.last().from != b {
            seq![s.last()]
        } else {
            Seq::empty()
        })
    }
}

/// The edges from `b` to each target in `ts`, in order.
pub open spec fn edges_from_targets(b: Block, ts: Seq<Block>) -> Seq<BlockEdge> {
    ts.map_values(|t: Block| (BlockEdge { from: b, to: t }))
}

/// The edge list that a recompute of block `b` leaves behind: everything
/// not from `b`, followed by one edge per branch now in `b`.
pub open spec fn recomputed_edges(s: Seq<BlockEdge>, f: Function, b: Block) -> Seq<BlockEdge> {
    edges_not_from(s, b) + edges_from_targets(b, jump_targets(f, b))
}

impl ControlFlowGraph {
    /// Create an empty control-flow graph.
    pub fn new() -> (cfg: ControlFlowGraph)
        ensures
            cfg.edges@ == Seq::<BlockEdge>::empty(),
    {
        ControlFlowGraph { edges: Vec::new() }
    }

    /// Rebuild the edges of block `b` from the function's current layout:
    /// drop every recorded edge out of `b`, then record one edge per
    /// branch instruction the block now contains.
    pub fn recompute_block(&mut self, f: &Function, b: Block)
        requires
            f.wf(),
            b.0 < f.blocks@.len(),
        ensures
            final(self).edges@ == recomputed_edges(old(self).edges@, *f, b),
    {
        let n = self.edges.len();
        let mut kept: Vec<BlockEdge> = Vec::new();
        let mut i: usize = 0;
        while i < n
            invariant
                i <= n,
                n == self.edges@.len(),
                self.edges@ == old(self).edges@,
                kept@ == edges_not_from(old(self).edges@.subrange(0, i as int), b),
            decreases n - i,
        {
            let e = self.edges[i];
            if e.from != b {
                kept.push(e);
            }
            proof {
                let pre = old(self).edges@.subrange(0, i + 1);
                assert(pre.drop_last() =~= old(self).edges@.subrange(0, i as int));
                assert(pre.last() == old(self).edges@[i as int]);
                assert(kept@ =~= edges_not_from(pre, b));
            }
            i += 1;
        }
        proof {
            assert(old(self).edges@.subrange(0, n as int) =~= old(self).edges@);
        }
        self.edges = kept;
        let m = f.blocks[b.0].insts.len();
        let mut j: usize = 0;
        while j < m
            invariant
                j <= m,
                f.wf(),
                b.0 < f.blocks@.len(),
                m == f.block_insts(b).len(),
                self.edges@ == edges_not_from(old(self).edges@, b)
                    + edges_from_targets(b, jump_targets_of(*f, f.block_insts(b).subrange(
                        0, j as int))),
            decreases m - j,
        {
            let inst = f.blocks[b.0].insts[j];
            match f.dfg.insts[inst.0] {
                InstructionData::Jump { destination } => {
                    self.edges.push(BlockEdge { from: b, to: destination });
                },
                _ => {},
            }
            proof {
                let pre = f.block_insts(b).subrange(0, j + 1);
                assert(pre.drop_last() =~= f.block_insts(b).subrange(0, j as int));
                assert(pre.last() == f.block_insts(b)[j as int]);
                assert(self.edges@ =~= edges_not_from(old(self).edges@, b)
                    + edges_from_targets(b, jump_targets_of(*f, pre)));
            }
            j += 1;
        }
        proof {
            assert(f.block_insts(b).subrange(0, m as int) =~= f.block_insts(b));
        }
    }
}

} // verus!
