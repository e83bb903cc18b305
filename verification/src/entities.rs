//! Entity references and scalar IR types.
//!
//! Instructions, values, blocks, heaps and global values live in
//! index-addressed tables owned by a function; an entity reference is a
//! stable index into one of those tables.

use vstd::prelude::*;

verus! {

/// A reference to an instruction in the function's instruction table.
#[derive(Clone, Copy, PartialEq, Eq, Structural, Debug)]
pub struct Inst(pub usize);

/// A reference to an SSA value defined by an instruction or a block parameter.
#[derive(Clone, Copy, PartialEq, Eq, Structural, Debug)]
pub struct Value(pub usize);

/// A reference to a basic block in the function's layout.
#[derive(Clone, Copy, PartialEq, Eq, Structural, Debug)]
pub struct Block(pub usize);

/// A reference to a heap declared in the function.
#[derive(Clone, Copy, PartialEq, Eq, Structural, Debug)]
pub struct Heap(pub usize);

/// A reference to a global value declared in the function.
#[derive(Clone, Copy, PartialEq, Eq, Structural, Debug)]
pub struct GlobalValue(pub usize);

/// A scalar IR type: a boolean flag or an integer of a fixed width.
#[derive(Clone, Copy, PartialEq, Eq, Structural, Debug)]
pub enum Type {
    /// A single boolean flag, as produced by comparisons.
    B1,
    /// An 8-bit integer.
    I8,
    /// A 16-bit integer.
    I16,
    /// A 32-bit integer.
    I32,
    /// A 64-bit integer.
    I64,
}

impl Type {
    /// Whether this is an integer type (as opposed to a flag type).
    pub open spec fn is_int(self) -> bool {
        !(self is B1)
    }

    /// The number of bits in a value of this type.
    pub open spec fn bits(self) -> int {
        match self {
            Type::B1 => 1,
            Type::I8 => 8,
            Type::I16 => 16,
            Type::I32 => 32,
            Type::I64 => 64,
        }
    }

    /// The largest unsigned value representable in an integer of this width.
    pub open spec fn umax(self) -> int {
        match self {
            Type::B1 => 1,
            Type::I8 => 0xff,
            Type::I16 => 0xffff,
            Type::I32 => 0xffff_ffff,
            Type::I64 => 0xffff_ffff_ffff_ffff,
        }
    }

    /// The canonical name of this type, as rendered in textual IR.
    pub open spec fn spec_name(self) -> Seq<char> {
        match self {
            Type::B1 => "b1"@,
            Type::I8 => "i8"@,
            Type::I16 => "i16"@,
            Type::I32 => "i32"@,
            Type::I64 => "i64"@,
        }
    }

    /// The canonical name of this type.
    pub fn name(self) -> (r: &'static str)
        ensures
            r@ == self.spec_name(),
    {
        match self {
            Type::B1 => "b1",
            Type::I8 => "i8",
            Type::I16 => "i16",
            Type::I32 => "i32",
            Type::I64 => "i64",
        }
    }

}

/// An unsigned integer condition code for comparisons.
#[derive(Clone, Copy, PartialEq, Eq, Structural, Debug)]
pub enum IntCC {
    /// `x > y`, treating both operands as unsigned.
    UnsignedGreaterThan,
    /// `x >= y`, treating both operands as unsigned.
    UnsignedGreaterThanOrEqual,
}

/// The cause tag carried by a trap instruction, interpreted by the
/// generated program's execution environment.
#[derive(Clone, Copy, PartialEq, Eq, Structural, Debug)]
pub enum TrapCode {
    /// A memory access outside the bounds of a heap.
    HeapOutOfBounds,
    /// An integer arithmetic overflow.
    IntegerOverflow,
    /// Code that was statically known to be unreachable was executed.
    Unreachable,
}

/// The target machine description consulted during legalization.
///
/// Only the pointer width matters to this pass: it decides the type of
/// address-like global values.
#[derive(Clone, Copy, PartialEq, Eq, Structural, Debug)]
pub struct TargetIsa {
    /// The type of a machine pointer on this target.
    pub pointer_ty: Type,
}

impl TargetIsa {
    /// The type of a machine pointer on this target.
    pub fn pointer_type(&self) -> (t: Type)
        ensures
            t == self.pointer_ty,
    {
        self.pointer_ty
    }
}

} // verus!
