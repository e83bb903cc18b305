//! Instruction data: the operation stored at each instruction slot.

use vstd::prelude::*;
use crate::entities::{Block, GlobalValue, Heap, IntCC, TrapCode, Value};

verus! {

/// The operation performed by one instruction, together with its operands.
///
/// Only the operations that heap-address legalization consumes or emits are
/// modelled.  An instruction's result values are stored separately, in the
/// data flow graph's result table.
#[derive(Clone, Copy, PartialEq, Eq, Structural, Debug)]
pub enum InstructionData {
    /// The abstract bounds-checked heap address computation that this pass
    /// rewrites: base of `heap` plus `arg`, accessing `access_size` bytes.
    HeapAddr {
        /// The heap being addressed.
        heap: Heap,
        /// The offset into the heap, an integer value.
        arg: Value,
        /// The constant size in bytes of the access.
        access_size: u32,
    },
    /// Materialize the value of a global value.
    GlobalValueGet {
        /// The global value to resolve.
        gv: GlobalValue,
    },
    /// An integer constant.
    Iconst {
        /// The constant, sign-extended from the result type.
        imm: i64,
    },
    /// Integer addition of a value and a constant immediate.
    IaddImm {
        /// The summand value.
        arg: Value,
        /// The constant summand.
        imm: i64,
    },
    /// Integer addition of two values.
    Iadd {
        /// The first summand.
        x: Value,
        /// The second summand.
        y: Value,
    },
    /// Integer addition with carry out: produces the wrapped sum and a
    /// flag that is set exactly when the addition overflowed.
    IaddCout {
        /// The first summand.
        x: Value,
        /// The second summand.
        y: Value,
    },
    /// Integer comparison of two values, producing a flag.
    Icmp {
        /// The condition to test.
        cond: IntCC,
        /// The left operand.
        x: Value,
        /// The right operand.
        y: Value,
    },
    /// Integer comparison of a value against a constant immediate.
    IcmpImm {
        /// The condition to test.
        cond: IntCC,
        /// The left operand.
        arg: Value,
        /// The right operand, an unsigned constant.
        imm: u64,
    },
    /// Zero-extend an integer value to a wider result type.
    Uextend {
        /// The value to extend.
        arg: Value,
    },
    /// Halt the program unconditionally with the given cause.
    Trap {
        /// The cause reported to the execution environment.
        code: TrapCode,
    },
    /// Halt the program with the given cause if `arg` is non-zero.
    Trapnz {
        /// The condition flag.
        arg: Value,
        /// The cause reported to the execution environment.
        code: TrapCode,
    },
    /// Unconditional branch to another block.
    Jump {
        /// The block to branch to.
        destination: Block,
    },
}

impl InstructionData {
    /// How many result values an instruction with this data defines.
    pub open spec fn result_count(self) -> int {
        match self {
            InstructionData::HeapAddr { .. } => 1,
            InstructionData::GlobalValueGet { .. } => 1,
            InstructionData::Iconst { .. } => 1,
            InstructionData::IaddImm { .. } => 1,
            InstructionData::Iadd { .. } => 1,
            InstructionData::IaddCout { .. } => 2,
            InstructionData::Icmp { .. } => 1,
            InstructionData::IcmpImm { .. } => 1,
            InstructionData::Uextend { .. } => 1,
            InstructionData::Trap { .. } => 0,
            InstructionData::Trapnz { .. } => 0,
            InstructionData::Jump { .. } => 0,
        }
    }

    /// Whether every entity this data mentions lies inside the given table
    /// sizes: values below `nvalues`, blocks below `nblocks`, heaps below
    /// `nheaps` and global values below `ngvs`.
    pub open spec fn refs_valid(self, nvalues: int, nblocks: int, nheaps: int, ngvs: int) -> bool {
        match self {
            InstructionData::HeapAddr { heap, arg, .. } => heap.0 < nheaps && arg.0 < nvalues,
            InstructionData::GlobalValueGet { gv } => gv.0 < ngvs,
            InstructionData::Iconst { .. } => true,
            InstructionData::IaddImm { arg, .. } => arg.0 < nvalues,
            InstructionData::Iadd { x, y } => x.0 < nvalues && y.0 < nvalues,
            InstructionData::IaddCout { x, y } => x.0 < nvalues && y.0 < nvalues,
            InstructionData::Icmp { x, y, .. } => x.0 < nvalues && y.0 < nvalues,
            InstructionData::IcmpImm { arg, .. } => arg.0 < nvalues,
            InstructionData::Uextend { arg } => arg.0 < nvalues,
            InstructionData::Trap { .. } => true,
            InstructionData::Trapnz { arg, .. } => arg.0 < nvalues,
            InstructionData::Jump { destination } => destination.0 < nblocks,
        }
    }
}

/// The list of result values defined by one instruction.
#[derive(Clone, Copy, PartialEq, Eq, Structural, Debug)]
pub enum ResultList {
    /// The instruction defines no value.
    Zero,
    /// The instruction defines one value.
    One(Value),
    /// The instruction defines two values, in order.
    Two(Value, Value),
}

impl ResultList {
    /// The number of values in the list.
    pub open spec fn len(self) -> int {
        match self {
            ResultList::Zero => 0,
            ResultList::One(..) => 1,
            ResultList::Two(..) => 2,
        }
    }

    /// The values in the list, as a sequence.
    pub open spec fn values(self) -> Seq<Value> {
        match self {
            ResultList::Zero => Seq::empty(),
            ResultList::One(a) => seq![a],
            ResultList::Two(a, b) => seq![a, b],
        }
    }
}

} // verus!
