//! Global values: function-scoped symbolic computations of address-like
//! quantities, and their canonical one-line textual rendering.

use vstd::prelude::*;
use vstd::string::StringExecFns;
use crate::entities::{GlobalValue, TargetIsa, Type};

verus! {

/// The decimal digit character for `d` (zero through nine).
pub open spec fn dec_digit(d: int) -> char {
    if d == 0 {
        '0'
    } else if d == 1 {
        '1'
    } else if d == 2 {
        '2'
    } else if d == 3 {
        '3'
    } else if d == 4 {
        '4'
    } else if d == 5 {
        '5'
    } else if d == 6 {
        '6'
    } else if d == 7 {
        '7'
    } else if d == 8 {
        '8'
    } else {
        '9'
    }
}

/// The decimal rendering of a non-negative integer, without sign or
/// leading zeros (`0` renders as `"0"`).
pub open spec fn dec_seq(n: nat) -> Seq<char>
    decreases n,
{
    if n < 10 {
        seq![dec_digit(n as int)]
    } else {
        dec_seq(n / 10).push(dec_digit((n % 10) as int))
    }
}

/// The decimal rendering of a signed integer, with a leading `-` when
/// negative.
pub open spec fn sdec_seq(n: int) -> Seq<char> {
    if n < 0 {
        seq!['-'] + dec_seq((-n) as nat)
    } else {
        dec_seq(n as nat)
    }
}

/// The canonical rendering of a constant offset next to a base: elided
/// when zero, with a leading `+` when positive.
pub open spec fn offset_part_seq(o: int) -> Seq<char> {
    if o == 0 {
        Seq::empty()
    } else if o > 0 {
        seq!['+'] + dec_seq(o as nat)
    } else {
        seq!['-'] + dec_seq((-o) as nat)
    }
}

/// The canonical rendering of a global value reference.
pub open spec fn gv_name_seq(gv: GlobalValue) -> Seq<char> {
    seq!['g', 'v'] + dec_seq(gv.0 as nat)
}

/// Append the decimal rendering of `n` to `s`.
pub fn push_dec(s: &mut String, n: u64)
    ensures
        final(s)@ == old(s)@ + dec_seq(n as nat),
    decreases n,
{
    if n >= 10 {
        push_dec(s, n / 10);
    }
    let ghost mid = s@;
    let d = n % 10;
    if d == 0 {
        s.append("0");
        proof {
            reveal_strlit("0");
        }
    } else if d == 1 {
        s.append("1");
        proof {
            reveal_strlit("1");
        }
    } else if d == 2 {
        s.append("2");
        proof {
            reveal_strlit("2");
        }
    } else if d == 3 {
        s.append("3");
        proof {
            reveal_strlit("3");
        }
    } else if d == 4 {
        s.append("4");
        proof {
            reveal_strlit("4");
        }
    } else if d == 5 {
        s.append("5");
        proof {
            reveal_strlit("5");
        }
    } else if d == 6 {
        s.append("6");
        proof {
            reveal_strlit("6");
        }
    } else if d == 7 {
        s.append("7");
        proof {
            reveal_strlit("7");
        }
    } else if d == 8 {
        s.append("8");
        proof {
            reveal_strlit("8");
        }
    } else {
        s.append("9");
        proof {
            reveal_strlit("9");
        }
    }
    proof {
        assert(s@ =~= mid + seq![dec_digit(d as int)]);
        if n < 10 {
            assert(s@ =~= old(s)@ + dec_seq(n as nat));
        } else {
            assert(s@ =~= old(s)@ + dec_seq(n as nat));
        }
    }
}

/// Append the magnitude of a negative signed integer to `s`; the sign
/// itself is the caller's business.
fn push_neg_magnitude(s: &mut String, n: i64)
    requires
        n < 0,
    ensures
        final(s)@ == old(s)@ + dec_seq((-n) as nat),
{
    let wide: i128 = -(n as i128);
    let m: u64 = wide as u64;
    push_dec(s, m);
}

/// Append the signed decimal rendering of `n` to `s`.
pub fn push_sdec(s: &mut String, n: i64)
    ensures
        final(s)@ == old(s)@ + sdec_seq(n as int),
{
    if n < 0 {
        let ghost start = s@;
        s.append("-");
        proof {
            reveal_strlit("-");
            assert(s@ =~= start + seq!['-']);
        }
        push_neg_magnitude(s, n);
        proof {
            assert(s@ =~= old(s)@ + sdec_seq(n as int));
        }
    } else {
        push_dec(s, n as u64);
    }
}

/// Append the offset rendering (elided when zero, explicit sign
/// otherwise) of `o` to `s`.
pub fn push_offset(s: &mut String, o: i64)
    ensures
        final(s)@ == old(s)@ + offset_part_seq(o as int),
{
    if o > 0 {
        let ghost start = s@;
        s.append("+");
        proof {
            reveal_strlit("+");
            assert(s@ =~= start + seq!['+']);
        }
        push_dec(s, o as u64);
        proof {
            assert(s@ =~= old(s)@ + offset_part_seq(o as int));
        }
    } else if o < 0 {
        let ghost start = s@;
        s.append("-");
        proof {
            reveal_strlit("-");
            assert(s@ =~= start + seq!['-']);
        }
        push_neg_magnitude(s, o);
        proof {
            assert(s@ =~= old(s)@ + offset_part_seq(o as int));
        }
    } else {
        proof {
            assert(s@ =~= old(s)@ + offset_part_seq(o as int));
        }
    }
}

/// Append the canonical `gv<n>` name of a global value reference to `s`.
pub fn push_gv_name(s: &mut String, gv: GlobalValue)
    ensures
        final(s)@ == old(s)@ + gv_name_seq(gv),
{
    let ghost start = s@;
    s.append("gv");
    proof {
        reveal_strlit("gv");
        assert(s@ =~= start + seq!['g', 'v']);
    }
    push_dec(s, gv.0 as u64);
    proof {
        assert(s@ =~= old(s)@ + gv_name_seq(gv));
    }
}

/// Information about a global value declaration.
#[derive(Clone, PartialEq, Eq, Debug)]
pub enum GlobalValueData {
    /// Value is the address of the VM context struct provided by the embedder.
    VMContext,
    /// Value is pointed to by another global value.
    ///
    /// The `base` global value is assumed to contain a pointer.  This global
    /// value is computed by loading from memory at that pointer value, plus a
    /// constant offset.  The memory must be accessible and naturally aligned
    /// to hold a value of the type.
    Load {
        /// The base pointer global value.
        base: GlobalValue,
        /// Offset added to the base pointer before doing the load.
        offset: i32,
        /// Type of the loaded value.
        global_type: Type,
    },
    /// Value is a constant offset from another global value.
    IAddImm {
        /// The base global value.
        base: GlobalValue,
        /// Byte offset to be added to the value.
        offset: i64,
        /// Type of the addition.
        global_type: Type,
    },
    /// Value is symbolic: a name resolved to an actual value later, for
    /// example by linking, plus a constant offset.
    Symbol {
        /// The symbolic name.
        name: String,
        /// Offset from the symbol.
        offset: i64,
        /// Whether the symbol is guaranteed to be defined a fixed, near
        /// distance away after linking, permitting direct addressing
        /// instead of an indirection table.
        colocated: bool,
    },
}

impl GlobalValueData {
    /// Assume that `self` is a `GlobalValueData::Symbol` and return its name.
    ///
    /// Calling this on any other variant is a programming error in the
    /// pipeline, so the precondition rules those variants out.
    pub fn symbol_name(&self) -> (name: &String)
        requires
            self is Symbol,
        ensures
            name@ == self->Symbol_name@,
    {
        match self {
            GlobalValueData::Symbol { name, .. } => name,
            _ => vstd::pervasive::unreached(),
        }
    }

    /// The type of this global value, as a spec-level function.
    ///
    /// `VMContext` and `Symbol` values always have the target's pointer
    /// type; `Load` and `IAddImm` carry their type explicitly.
    pub open spec fn spec_global_type(self, isa: TargetIsa) -> Type {
        match self {
            GlobalValueData::VMContext => isa.pointer_ty,
            GlobalValueData::Symbol { .. } => isa.pointer_ty,
            GlobalValueData::Load { global_type, .. } => global_type,
            GlobalValueData::IAddImm { global_type, .. } => global_type,
        }
    }

    /// Return the type of this global value.
    pub fn global_type(&self, isa: &TargetIsa) -> (t: Type)
        ensures
            t == self.spec_global_type(*isa),
    {
        match self {
            GlobalValueData::VMContext | GlobalValueData::Symbol { .. } => isa.pointer_type(),
            GlobalValueData::IAddImm { global_type, .. }
            | GlobalValueData::Load { global_type, .. } => *global_type,
        }
    }

    /// The canonical one-line rendering of this declaration, used for IR
    /// dumps and diagnostics.
    pub open spec fn spec_render(self) -> Seq<char> {
        match self {
            GlobalValueData::VMContext => "vmctx"@,
            GlobalValueData::Load { base, offset, global_type } => "load."@
                + global_type.spec_name() + " notrap aligned "@ + gv_name_seq(base)
                + offset_part_seq(offset as int),
            GlobalValueData::IAddImm { base, offset, global_type } => "iadd_imm."@
                + global_type.spec_name() + " "@ + gv_name_seq(base) + ", "@
                + sdec_seq(offset as int),
            GlobalValueData::Symbol { name, offset, colocated } => (if colocated {
                "colocated "@
            } else {
                Seq::empty()
            }) + "symbol "@ + name@ + offset_part_seq(offset as int),
        }
    }

    /// Render this declaration in its canonical one-line form.
    pub fn render(&self) -> (s: String)
        ensures
            s@ == self.spec_render(),
    {
        let mut s = String::new();
        match self {
            GlobalValueData::VMContext => {
                s.append("vmctx");
            },
            GlobalValueData::Load { base, offset, global_type } => {
                s.append("load.");
                s.append(global_type.name());
                s.append(" notrap aligned ");
                push_gv_name(&mut s, *base);
                push_offset(&mut s, *offset as i64);
                proof {
                    assert(s@ =~= self.spec_render());
                }
            },
            GlobalValueData::IAddImm { base, offset, global_type } => {
                s.append("iadd_imm.");
                s.append(global_type.name());
                s.append(" ");
                push_gv_name(&mut s, *base);
                s.append(", ");
                push_sdec(&mut s, *offset);
                proof {
                    assert(s@ =~= self.spec_render());
                }
            },
            GlobalValueData::Symbol { name, offset, colocated } => {
                if *colocated {
                    s.append("colocated ");
                }
                s.append("symbol ");
                s.append(name.as_str());
                push_offset(&mut s, *offset);
                proof {
                    assert(s@ =~= self.spec_render());
                }
            },
        }
        s
    }
}

} // verus!
