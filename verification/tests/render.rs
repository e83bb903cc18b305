//! Checks of the global-value model: typing, the symbol-name accessor,
//! and the canonical one-line textual rendering.

use heap_legalizer::entities::{GlobalValue, TargetIsa, Type};
use heap_legalizer::globalvalue::GlobalValueData;

#[test]
fn vmctx_renders_bare() {
    let gv = GlobalValueData::VMContext;
    assert_eq!(gv.render().as_str(), "vmctx");
}

#[test]
fn load_renders_with_elided_zero_offset() {
    let gv = GlobalValueData::Load {
        base: GlobalValue(0),
        offset: 0,
        global_type: Type::I64,
    };
    assert_eq!(gv.render().as_str(), "load.i64 notrap aligned gv0");
}

#[test]
fn load_renders_positive_offset_with_plus() {
    let gv = GlobalValueData::Load {
        base: GlobalValue(3),
        offset: 8,
        global_type: Type::I32,
    };
    assert_eq!(gv.render().as_str(), "load.i32 notrap aligned gv3+8");
}

#[test]
fn load_renders_negative_offset() {
    let gv = GlobalValueData::Load {
        base: GlobalValue(12),
        offset: -4,
        global_type: Type::I64,
    };
    assert_eq!(gv.render().as_str(), "load.i64 notrap aligned gv12-4");
}

#[test]
fn iadd_imm_renders_signed_offset() {
    let gv = GlobalValueData::IAddImm {
        base: GlobalValue(1),
        offset: -32,
        global_type: Type::I32,
    };
    assert_eq!(gv.render().as_str(), "iadd_imm.i32 gv1, -32");
}

#[test]
fn iadd_imm_renders_most_negative_offset() {
    let gv = GlobalValueData::IAddImm {
        base: GlobalValue(0),
        offset: i64::MIN,
        global_type: Type::I64,
    };
    assert_eq!(
        gv.render().as_str(),
        "iadd_imm.i64 gv0, -9223372036854775808"
    );
}

#[test]
fn symbol_renders_without_zero_offset() {
    let gv = GlobalValueData::Symbol {
        name: String::from("env"),
        offset: 0,
        colocated: false,
    };
    assert_eq!(gv.render().as_str(), "symbol env");
}

#[test]
fn symbol_renders_colocated_and_positive_offset() {
    let gv = GlobalValueData::Symbol {
        name: String::from("table"),
        offset: 16,
        colocated: true,
    };
    assert_eq!(gv.render().as_str(), "colocated symbol table+16");
}

#[test]
fn symbol_renders_negative_offset_without_plus() {
    let gv = GlobalValueData::Symbol {
        name: String::from("m"),
        offset: -1,
        colocated: false,
    };
    assert_eq!(gv.render().as_str(), "symbol m-1");
}

#[test]
fn symbol_name_returns_the_name() {
    let gv = GlobalValueData::Symbol {
        name: String::from("memory_base"),
        offset: 0,
        colocated: false,
    };
    assert_eq!(gv.symbol_name().as_str(), "memory_base");
}

#[test]
fn global_type_is_pointer_for_vmctx_and_symbol() {
    let isa32 = TargetIsa { pointer_ty: Type::I32 };
    let isa64 = TargetIsa { pointer_ty: Type::I64 };
    let vmctx = GlobalValueData::VMContext;
    let sym = GlobalValueData::Symbol {
        name: String::from("env"),
        offset: 0,
        colocated: false,
    };
    assert_eq!(vmctx.global_type(&isa32), Type::I32);
    assert_eq!(vmctx.global_type(&isa64), Type::I64);
    assert_eq!(sym.global_type(&isa32), Type::I32);
    assert_eq!(sym.global_type(&isa64), Type::I64);
}

#[test]
fn global_type_is_stored_type_for_load_and_iadd_imm() {
    let isa64 = TargetIsa { pointer_ty: Type::I64 };
    let load = GlobalValueData::Load {
        base: GlobalValue(0),
        offset: 0,
        global_type: Type::I32,
    };
    let iadd = GlobalValueData::IAddImm {
        base: GlobalValue(0),
        offset: 8,
        global_type: Type::I16,
    };
    assert_eq!(load.global_type(&isa64), Type::I32);
    assert_eq!(iadd.global_type(&isa64), Type::I16);
}
