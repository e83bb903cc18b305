//! Heap-address legalization for a sandboxed linear-memory compiler backend.
//!
//! The library models the slice of an intermediate representation that the
//! legalizer touches - instructions, values, blocks, heap declarations and
//! global values - and rewrites an abstract `heap_addr` instruction into a
//! concrete sequence of comparisons, traps and address arithmetic.  Every
//! rewrite is specified exactly: the postconditions pin down which
//! instructions are emitted, in which order, and how the control-flow graph
//! changes.  On top of that, the proof functions in [`laws`] run the
//! emitted check sequences through a specification-level evaluator and
//! show that they trap exactly when an access would escape the heap.

pub mod entities;
pub mod eval;
pub mod flowgraph;
pub mod func;
pub mod globalvalue;
pub mod heap;
pub mod instructions;
pub mod laws;
pub mod rewrite;
