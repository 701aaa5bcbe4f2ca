use code_writer::CodeWriter;
use code_writer::WireType;

#[test]
fn commented_lines_carry_marker() {
    let mut w = CodeWriter::new();
    w.commented(|mut c| {
        c.write_line("x");
        c
    });
    assert_eq!(w.output(), "// x\n");
}

#[test]
fn commented_blank_line_is_bare_marker() {
    let mut w = CodeWriter::new();
    w.commented(|mut c| {
        c.write_line("");
        c
    });
    assert_eq!(w.output(), "//\n");
}

#[test]
fn commented_inside_indented_composes() {
    let mut w = CodeWriter::new();
    w.indented(|mut c| {
        c.commented(|mut d| {
            d.write_line("x");
            d
        });
        c
    });
    assert_eq!(w.output(), "//     x\n");
}

#[test]
fn indented_inside_commented_composes() {
    let mut w = CodeWriter::new();
    w.commented(|mut c| {
        c.indented(|mut d| {
            d.write_line("x");
            d
        });
        c
    });
    assert_eq!(w.output(), "//     x\n");
}

#[test]
fn nested_commented_blank_line() {
    let mut w = CodeWriter::new();
    w.commented(|mut c| {
        c.commented(|mut d| {
            d.write_line("");
            d
        });
        c
    });
    assert_eq!(w.output(), "// //\n");
}

#[test]
fn commented_scope_restores_parent() {
    let mut w = CodeWriter::new();
    w.commented(|mut c| {
        c.write_line("dead");
        c
    });
    w.write_line("live");
    assert_eq!(w.output(), "// dead\nlive\n");
}

#[test]
fn wire_type_names() {
    assert_eq!(WireType::WireTypeVarint.name(), "WireTypeVarint");
    assert_eq!(WireType::WireTypeFixed64.name(), "WireTypeFixed64");
    assert_eq!(
        WireType::WireTypeLengthDelimited.name(),
        "WireTypeLengthDelimited"
    );
    assert_eq!(WireType::WireTypeStartGroup.name(), "WireTypeStartGroup");
    assert_eq!(WireType::WireTypeEndGroup.name(), "WireTypeEndGroup");
    assert_eq!(WireType::WireTypeFixed32.name(), "WireTypeFixed32");
}

#[test]
fn assert_wire_type_guard_at_root() {
    let mut w = CodeWriter::new();
    w.assert_wire_type(WireType::WireTypeVarint);
    assert_eq!(
        w.output(),
        "if wire_type != ::protobuf::wire_format::WireTypeVarint {\n    return ::std::result::Result::Err(::protobuf::rt::unexpected_wire_type(wire_type));\n}\n"
    );
}

#[test]
fn lazy_static_lines() {
    let mut w = CodeWriter::new();
    w.lazy_static("X", "Registry");
    assert_eq!(
        w.output(),
        "static mut X: ::protobuf::lazy::Lazy<Registry> = ::protobuf::lazy::Lazy {\n    lock: ::protobuf::lazy::ONCE_INIT,\n    ptr: 0 as *const Registry,\n};\n"
    );
}

#[test]
fn lazy_static_decl_get_simple_output() {
    let mut w = CodeWriter::new();
    w.lazy_static_decl_get_simple("X", "Registry", "mk");
    assert_eq!(
        w.output(),
        "static mut X: ::protobuf::lazy::Lazy<Registry> = ::protobuf::lazy::Lazy {\n    lock: ::protobuf::lazy::ONCE_INIT,\n    ptr: 0 as *const Registry,\n};\nunsafe {\n    X.get(mk)\n}\n"
    );
}

#[test]
fn lazy_static_decl_get_output() {
    let mut w = CodeWriter::new();
    w.lazy_static_decl_get("X", "Registry", |mut c| {
        c.write_line("Registry::new()");
        c
    });
    assert_eq!(
        w.output(),
        "static mut X: ::protobuf::lazy::Lazy<Registry> = ::protobuf::lazy::Lazy {\n    lock: ::protobuf::lazy::ONCE_INIT,\n    ptr: 0 as *const Registry,\n};\nunsafe {\n    X.get(|| {\n        Registry::new()\n    })\n}\n"
    );
}

#[test]
fn write_generated_preamble_then_line() {
    let mut w = CodeWriter::new();
    w.write_generated();
    w.write_line("struct S;");
    let expected = "// This file is generated. Do not edit\n\
        // @generated\n\
        \n\
        // https://github.com/Manishearth/rust-clippy/issues/702\n\
        #![allow(unknown_lints)]\n\
        #![allow(clippy)]\n\
        \n\
        #![cfg_attr(rustfmt, rustfmt_skip)]\n\
        \n\
        #![allow(box_pointers)]\n\
        #![allow(dead_code)]\n\
        #![allow(missing_docs)]\n\
        #![allow(non_camel_case_types)]\n\
        #![allow(non_snake_case)]\n\
        #![allow(non_upper_case_globals)]\n\
        #![allow(trivial_casts)]\n\
        #![allow(unsafe_code)]\n\
        #![allow(unused_imports)]\n\
        #![allow(unused_results)]\n\
        struct S;\n";
    assert_eq!(w.output(), expected);
}
