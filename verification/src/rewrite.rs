//! Primitive rewriting steps on a function, and the vocabulary used to
//! specify them.
//!
//! Every expansion in this crate is a sequence of instruction insertions
//! before a fixed instruction, followed by replacing that instruction in
//! place.  [`block_rewrite_post`] captures the effect of such a sequence
//! exactly: which data was appended to the arena, which result values were
//! allocated, and how the containing block's instruction sequence changed.

use vstd::prelude::*;
use crate::entities::{Block, Inst, Type, Value};
use crate::func::{BlockData, Function};
use crate::instructions::{InstructionData, ResultList};

verus! {

/// The description of one emitted instruction: its operation and the types
/// of the result values it allocates, in order.
pub struct EmittedInst {
    /// The operation.
    pub data: InstructionData,
    /// The types of the allocated result values.
    pub tys: Seq<Type>,
}

/// The operations of a sequence of emitted instructions.
pub open spec fn ems_datas(ems: Seq<EmittedInst>) -> Seq<InstructionData>
    decreases ems.len(),
{
    if ems.len() == 0 {
        Seq::empty()
    } else {
        ems_datas(ems.drop_last()).push(ems.last().data)
    }
}

/// The result types allocated by a sequence of emitted instructions,
/// concatenated in order.
pub open spec fn ems_types(ems: Seq<EmittedInst>) -> Seq<Type>
    decreases ems.len(),
{
    if ems.len() == 0 {
        Seq::empty()
    } else {
        ems_types(ems.drop_last()) + ems.last().tys
    }
}

/// The result list of an instruction whose `n` results are the values
/// numbered `v`, `v + 1`, ...
pub open spec fn result_list_at(v: int, n: int) -> ResultList {
    if n == 0 {
        ResultList::Zero
    } else if n == 1 {
        ResultList::One(Value(v as usize))
    } else {
        ResultList::Two(Value(v as usize), Value((v + 1) as usize))
    }
}

/// The result lists of a sequence of emitted instructions whose first
/// allocated value is numbered `v0`.
pub open spec fn ems_results(ems: Seq<EmittedInst>, v0: int) -> Seq<ResultList>
    decreases ems.len(),
{
    if ems.len() == 0 {
        Seq::empty()
    } else {
        ems_results(ems.drop_last(), v0).push(
            result_list_at(v0 + ems_types(ems.drop_last()).len(), ems.last().tys.len() as int),
        )
    }
}

/// The instruction references `Inst(n0)`, ..., `Inst(n0 + k - 1)`.
pub open spec fn inst_range(n0: int, k: int) -> Seq<Inst> {
    Seq::new(k as nat, |j: int| (Inst((n0 + j) as usize)))
}

/// Apply an optional in-place replacement to the instruction table.
pub open spec fn rep_apply(
    s: Seq<InstructionData>,
    rep: Option<(Inst, InstructionData)>,
) -> Seq<InstructionData> {
    match rep {
        Option::None => s,
        Option::Some((i, d)) => s.update(i.0 as int, d),
    }
}

/// The exact effect of inserting the instructions described by `ems` at
/// position `p` of block `b` (in order, so the `k`-th emitted instruction
/// ends up at position `p + k`), while optionally replacing the operation
/// of one existing instruction in place.
///
/// Everything else - other blocks, block parameters, previously allocated
/// results and value types, the heap and global-value tables - is
/// unchanged.
pub open spec fn block_rewrite_post(
    f0: Function,
    f1: Function,
    b: Block,
    p: int,
    ems: Seq<EmittedInst>,
    rep: Option<(Inst, InstructionData)>,
) -> bool {
    let n0 = f0.n_insts();
    let v0 = f0.n_values();
    let old_insts = f0.block_insts(b);
    &&& f1.dfg.insts@ == rep_apply(f0.dfg.insts@, rep) + ems_datas(ems)
    &&& f1.dfg.results@ == f0.dfg.results@ + ems_results(ems, v0)
    &&& f1.dfg.value_types@ == f0.dfg.value_types@ + ems_types(ems)
    &&& f1.blocks@.len() == f0.blocks@.len()
    &&& (forall|j: int| 0 <= j < f0.blocks@.len() && j != b.0 ==> f1.blocks@[j] == f0.blocks@[j])
    &&& f1.blocks@[b.0 as int].params@ == f0.blocks@[b.0 as int].params@
    &&& f1.block_insts(b) == old_insts.subrange(0, p) + inst_range(n0, ems.len() as int)
        + old_insts.subrange(p, old_insts.len() as int)
    &&& f1.heaps@ == f0.heaps@
    &&& f1.global_values@ == f0.global_values@
}

/// The emitted-sequence functions produce one entry per emitted
/// instruction.
pub proof fn lemma_ems_len(ems: Seq<EmittedInst>, v0: int)
    ensures
        ems_datas(ems).len() == ems.len(),
        ems_results(ems, v0).len() == ems.len(),
    decreases ems.len(),
{
    if ems.len() > 0 {
        lemma_ems_len(ems.drop_last(), v0);
    }
}

/// Unfold the emitted-sequence functions on a singleton sequence.
pub proof fn lemma_ems_singleton(em: EmittedInst, v0: int)
    ensures
        ems_datas(seq![em]) == seq![em.data],
        ems_types(seq![em]) == em.tys,
        ems_results(seq![em], v0) == seq![result_list_at(v0, em.tys.len() as int)],
{
    let s = seq![em];
    assert(s.drop_last() =~= Seq::<EmittedInst>::empty());
    assert(ems_datas(s.drop_last()) == Seq::<InstructionData>::empty());
    assert(ems_types(s.drop_last()) == Seq::<Type>::empty());
    assert(ems_results(s.drop_last(), v0) == Seq::<ResultList>::empty());
    assert(s.last() == em);
    assert(ems_datas(s) =~= seq![em.data]);
    assert(ems_types(s) =~= em.tys);
    assert(ems_results(s, v0) =~= seq![result_list_at(v0, em.tys.len() as int)]);
}

/// The emitted-sequence functions distribute over concatenation.
pub proof fn lemma_ems_concat(a: Seq<EmittedInst>, b: Seq<EmittedInst>, v0: int)
    ensures
        ems_datas(a + b) == ems_datas(a) + ems_datas(b),
        ems_types(a + b) == ems_types(a) + ems_types(b),
        ems_results(a + b, v0) == ems_results(a, v0)
            + ems_results(b, v0 + ems_types(a).len()),
    decreases b.len(),
{
    if b.len() == 0 {
        assert(a + b =~= a);
        assert(ems_datas(b) =~= Seq::<InstructionData>::empty());
        assert(ems_types(b) =~= Seq::<Type>::empty());
        assert(ems_results(b, v0 + ems_types(a).len()) =~= Seq::<ResultList>::empty());
        assert(ems_datas(a + b) =~= ems_datas(a) + ems_datas(b));
        assert(ems_types(a + b) =~= ems_types(a) + ems_types(b));
        assert(ems_results(a + b, v0) =~= ems_results(a, v0)
            + ems_results(b, v0 + ems_types(a).len()));
    } else {
        let bp = b.drop_last();
        lemma_ems_concat(a, bp, v0);
        assert((a + b).drop_last() =~= a + bp);
        assert((a + b).last() == b.last());
        assert(ems_datas(a + b) =~= ems_datas(a) + ems_datas(b));
        assert(ems_types(a + b) =~= ems_types(a) + ems_types(b));
        assert(ems_results(a + b, v0) =~= ems_results(a, v0)
            + ems_results(b, v0 + ems_types(a).len()));
    }
}

/// Two successive rewrites at the same block compose into one: the second
/// starts where the first stopped inserting.
pub proof fn lemma_block_rewrite_compose(
    f0: Function,
    f1: Function,
    f2: Function,
    b: Block,
    p: int,
    ems1: Seq<EmittedInst>,
    ems2: Seq<EmittedInst>,
    rep: Option<(Inst, InstructionData)>,
)
    requires
        block_rewrite_post(f0, f1, b, p, ems1, Option::None),
        block_rewrite_post(f1, f2, b, p + ems1.len(), ems2, rep),
        b.0 < f0.blocks@.len(),
        0 <= p <= f0.block_insts(b).len(),
        (rep matches Option::Some((i, _)) ==> i.0 < f0.n_insts()),
    ensures
        block_rewrite_post(f0, f2, b, p, ems1 + ems2, rep),
{
    let n0 = f0.n_insts();
    let v0 = f0.n_values();
    let k1 = ems1.len() as int;
    let k2 = ems2.len() as int;
    lemma_ems_concat(ems1, ems2, v0);
    lemma_ems_len(ems1, v0);
    lemma_ems_len(ems2, v0);
    assert(f1.n_insts() == n0 + k1);
    assert(f1.n_values() == v0 + ems_types(ems1).len());
    // Instruction data: replacing below `n0` commutes with appending.
    assert(f2.dfg.insts@ =~= rep_apply(f0.dfg.insts@, rep) + ems_datas(ems1 + ems2));
    // Result lists and value types concatenate.
    assert(f2.dfg.results@ =~= f0.dfg.results@ + ems_results(ems1 + ems2, v0));
    assert(f2.dfg.value_types@ =~= f0.dfg.value_types@ + ems_types(ems1 + ems2));
    // The block's instruction sequence: the second batch lands between the
    // first batch and the instructions that followed the insertion point.
    let old_insts = f0.block_insts(b);
    let mid_insts = f1.block_insts(b);
    assert(mid_insts.subrange(0, p + k1)
        =~= old_insts.subrange(0, p) + inst_range(n0, k1));
    assert(mid_insts.subrange(p + k1, mid_insts.len() as int)
        =~= old_insts.subrange(p, old_insts.len() as int));
    assert(inst_range(n0, k1) + inst_range(n0 + k1, k2) =~= inst_range(n0, k1 + k2));
    assert(f2.block_insts(b) =~= old_insts.subrange(0, p)
        + inst_range(n0, k1 + k2) + old_insts.subrange(p, old_insts.len() as int));
}

impl Function {
    /// Insert an instruction that defines no value at position `p` of
    /// block `b`.
    pub fn insert_inst0(&mut self, b: Block, p: usize, data: InstructionData) -> (i: Inst)
        requires
            old(self).wf(),
            b.0 < old(self).blocks@.len(),
            p <= old(self).block_insts(b).len(),
            data.result_count() == 0,
            data.refs_valid(old(self).n_values(), old(self).n_blocks(),
                old(self).heaps@.len() as int, old(self).global_values@.len() as int),
        ensures
            final(self).wf(),
            i == (Inst(old(self).dfg.insts@.len() as usize)),
            final(self).n_insts() == old(self).n_insts() + 1,
            final(self).n_values() == old(self).n_values(),
            final(self).block_insts(b).len() == old(self).block_insts(b).len() + 1,
            block_rewrite_post(*old(self), *final(self), b, p as int,
                seq![(EmittedInst { data, tys: Seq::empty() })], Option::None),
    {
        let i = Inst(self.dfg.insts.len());
        self.dfg.insts.push(data);
        self.dfg.results.push(ResultList::Zero);
        self.blocks[b.0].insts.insert(p, i);
        proof {
            lemma_ems_singleton(EmittedInst { data, tys: Seq::empty() }, old(self).n_values());
            let em = EmittedInst { data, tys: Seq::<Type>::empty() };
            assert(self.dfg.insts@ =~= old(self).dfg.insts@ + ems_datas(seq![em]));
            assert(self.dfg.results@ =~= old(self).dfg.results@
                + ems_results(seq![em], old(self).n_values()));
            assert(self.dfg.value_types@ =~= old(self).dfg.value_types@ + ems_types(seq![em]));
            assert(self.block_insts(b) =~= old(self).block_insts(b).subrange(0, p as int)
                + inst_range(old(self).n_insts(), 1)
                + old(self).block_insts(b).subrange(p as int,
                    old(self).block_insts(b).len() as int));
        }
        i
    }

    /// Insert an instruction that defines one value of type `ty` at
    /// position `p` of block `b`, and return that value.
    pub fn insert_inst1(&mut self, b: Block, p: usize, data: InstructionData, ty: Type)
        -> (v: Value)
        requires
            old(self).wf(),
            b.0 < old(self).blocks@.len(),
            p <= old(self).block_insts(b).len(),
            data.result_count() == 1,
            data.refs_valid(old(self).n_values(), old(self).n_blocks(),
                old(self).heaps@.len() as int, old(self).global_values@.len() as int),
        ensures
            final(self).wf(),
            v == (Value(old(self).dfg.value_types@.len() as usize)),
            final(self).n_insts() == old(self).n_insts() + 1,
            final(self).n_values() == old(self).n_values() + 1,
            final(self).block_insts(b).len() == old(self).block_insts(b).len() + 1,
            final(self).type_of(v) == ty,
            block_rewrite_post(*old(self), *final(self), b, p as int,
                seq![(EmittedInst { data, tys: seq![ty] })], Option::None),
    {
        let i = Inst(self.dfg.insts.len());
        let v = Value(self.dfg.value_types.len());
        self.dfg.insts.push(data);
        self.dfg.results.push(ResultList::One(v));
        self.dfg.value_types.push(ty);
        self.blocks[b.0].insts.insert(p, i);
        proof {
            lemma_ems_singleton(EmittedInst { data, tys: seq![ty] }, old(self).n_values());
            let em = EmittedInst { data, tys: seq![ty] };
            assert(self.dfg.insts@ =~= old(self).dfg.insts@ + ems_datas(seq![em]));
            assert(self.dfg.results@ =~= old(self).dfg.results@
                + ems_results(seq![em], old(self).n_values()));
            assert(self.dfg.value_types@ =~= old(self).dfg.value_types@ + ems_types(seq![em]));
            assert(self.block_insts(b) =~= old(self).block_insts(b).subrange(0, p as int)
                + inst_range(old(self).n_insts(), 1)
                + old(self).block_insts(b).subrange(p as int,
                    old(self).block_insts(b).len() as int));
        }
        v
    }

    /// Insert an instruction that defines two values of types `ty0` and
    /// `ty1` at position `p` of block `b`, and return both values.
    pub fn insert_inst2(&mut self, b: Block, p: usize, data: InstructionData, ty0: Type, ty1: Type)
        -> (vs: (Value, Value))
        requires
            old(self).wf(),
            b.0 < old(self).blocks@.len(),
            p <= old(self).block_insts(b).len(),
            data.result_count() == 2,
            data.refs_valid(old(self).n_values(), old(self).n_blocks(),
                old(self).heaps@.len() as int, old(self).global_values@.len() as int),
        ensures
            final(self).wf(),
            vs.0 == (Value(old(self).dfg.value_types@.len() as usize)),
            vs.1 == (Value((old(self).dfg.value_types@.len() + 1) as usize)),
            final(self).n_insts() == old(self).n_insts() + 1,
            final(self).n_values() == old(self).n_values() + 2,
            final(self).block_insts(b).len() == old(self).block_insts(b).len() + 1,
            final(self).type_of(vs.0) == ty0,
            final(self).type_of(vs.1) == ty1,
            block_rewrite_post(*old(self), *final(self), b, p as int,
                seq![(EmittedInst { data, tys: seq![ty0, ty1] })], Option::None),
    {
        let i = Inst(self.dfg.insts.len());
        let v0 = Value(self.dfg.value_types.len());
        self.dfg.value_types.push(ty0);
        let v1 = Value(self.dfg.value_types.len());
        self.dfg.value_types.push(ty1);
        self.dfg.insts.push(data);
        self.dfg.results.push(ResultList::Two(v0, v1));
        self.blocks[b.0].insts.insert(p, i);
        proof {
            lemma_ems_singleton(EmittedInst { data, tys: seq![ty0, ty1] }, old(self).n_values());
            let em = EmittedInst { data, tys: seq![ty0, ty1] };
            assert(self.dfg.insts@ =~= old(self).dfg.insts@ + ems_datas(seq![em]));
            assert(self.dfg.results@ =~= old(self).dfg.results@
                + ems_results(seq![em], old(self).n_values()));
            assert(self.dfg.value_types@ =~= old(self).dfg.value_types@ + ems_types(seq![em]));
            assert(self.block_insts(b) =~= old(self).block_insts(b).subrange(0, p as int)
                + inst_range(old(self).n_insts(), 1)
                + old(self).block_insts(b).subrange(p as int,
                    old(self).block_insts(b).len() as int));
        }
        (v0, v1)
    }

    /// Replace the operation of an existing instruction in place.  The
    /// instruction keeps its index and its result values, so every use of
    /// those results observes the new definition.
    pub fn replace_inst(&mut self, i: Inst, data: InstructionData)
        requires
            old(self).wf(),
            i.0 < old(self).n_insts(),
            data.result_count() == old(self).results_of(i).len(),
            data.refs_valid(old(self).n_values(), old(self).n_blocks(),
                old(self).heaps@.len() as int, old(self).global_values@.len() as int),
        ensures
            final(self).wf(),
            final(self).dfg.insts@ == old(self).dfg.insts@.update(i.0 as int, data),
            final(self).dfg.results@ == old(self).dfg.results@,
            final(self).dfg.value_types@ == old(self).dfg.value_types@,
            final(self).blocks@ == old(self).blocks@,
            final(self).heaps@ == old(self).heaps@,
            final(self).global_values@ == old(self).global_values@,
    {
        let ghost f0 = *self;
        self.dfg.insts[i.0] = data;
        proof {
            assert(self.dfg.insts@ =~= f0.dfg.insts@.update(i.0 as int, data));
        }
    }

    /// Split block `b` at position `p`: the instructions from `p` onward
    /// move, in order, into a fresh block appended to the layout.
    pub fn split_block(&mut self, b: Block, p: usize) -> (nb: Block)
        requires
            old(self).wf(),
            b.0 < old(self).blocks@.len(),
            p <= old(self).block_insts(b).len(),
        ensures
            final(self).wf(),
            nb == (Block(old(self).blocks@.len() as usize)),
            final(self).blocks@.len() == old(self).blocks@.len() + 1,
            final(self).block_insts(b) == old(self).block_insts(b).subrange(0, p as int),
            final(self).blocks@[b.0 as int].params@ == old(self).blocks@[b.0 as int].params@,
            final(self).block_insts(nb) == old(self).block_insts(b).subrange(
                p as int, old(self).block_insts(b).len() as int),
            final(self).blocks@[nb.0 as int].params@ == Seq::<Value>::empty(),
            forall|j: int| 0 <= j < old(self).blocks@.len() && j != b.0
                ==> final(self).blocks@[j] == old(self).blocks@[j],
            final(self).dfg == old(self).dfg,
            final(self).heaps@ == old(self).heaps@,
            final(self).global_values@ == old(self).global_values@,
    {
        let tail = self.blocks[b.0].insts.split_off(p);
        let nb = Block(self.blocks.len());
        self.blocks.push(BlockData { params: Vec::new(), insts: tail });
        nb
    }
}

} // verus!
