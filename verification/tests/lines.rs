use code_writer::CodeWriter;

#[test]
fn root_line_has_no_prefix() {
    let mut w = CodeWriter::new();
    w.write_line("x");
    assert_eq!(w.output(), "x\n");
}

#[test]
fn blank_line_at_root_is_bare_newline() {
    let mut w = CodeWriter::new();
    w.write_line("");
    assert_eq!(w.output(), "\n");
}

#[test]
fn blank_line_never_indented() {
    let mut w = CodeWriter::new();
    w.indented(|mut c| {
        c.write_line("");
        c.indented(|mut d| {
            d.write_line("");
            d
        });
        c
    });
    assert_eq!(w.output(), "\n\n");
}

#[test]
fn indented_line_has_one_unit() {
    let mut w = CodeWriter::new();
    w.indented(|mut c| {
        c.write_line("x");
        c
    });
    assert_eq!(w.output(), "    x\n");
}

#[test]
fn depth_three_line_has_three_units() {
    let mut w = CodeWriter::new();
    w.indented(|mut a| {
        a.indented(|mut b| {
            b.indented(|mut c| {
                c.write_line("x");
                c
            });
            b
        });
        a
    });
    assert_eq!(w.output(), "            x\n");
}

#[test]
fn parent_indent_restored_after_scope() {
    let mut w = CodeWriter::new();
    w.write_line("a");
    w.indented(|mut c| {
        c.write_line("b");
        c
    });
    w.write_line("c");
    assert_eq!(w.output(), "a\n    b\nc\n");
}

#[test]
fn comment_empty_and_text() {
    let mut w = CodeWriter::new();
    w.comment("");
    w.comment("hello");
    assert_eq!(w.output(), "//\n// hello\n");
}

#[test]
fn todo_line() {
    let mut w = CodeWriter::new();
    w.todo("later");
    assert_eq!(w.output(), "panic!(\"TODO: later\");\n");
}

#[test]
fn unimplemented_line() {
    let mut w = CodeWriter::new();
    w.unimplemented();
    assert_eq!(w.output(), "unimplemented!();\n");
}

#[test]
fn pub_const_line() {
    let mut w = CodeWriter::new();
    w.pub_const("N", "u32", "7");
    assert_eq!(w.output(), "pub const N: u32 = 7;\n");
}

#[test]
fn unsafe_impl_line() {
    let mut w = CodeWriter::new();
    w.unsafe_impl("Send", "Registry");
    assert_eq!(w.output(), "unsafe impl Send for Registry {}\n");
}

#[test]
fn field_lines() {
    let mut w = CodeWriter::new();
    w.field_entry("lock", "LOCK_INIT");
    w.field_decl("count", "u32");
    w.pub_field_decl("name", "String");
    assert_eq!(w.output(), "lock: LOCK_INIT,\ncount: u32,\npub name: String,\n");
}

#[test]
fn fn_def_line() {
    let mut w = CodeWriter::new();
    w.fn_def("len(&self) -> usize");
    assert_eq!(w.output(), "fn len(&self) -> usize;\n");
}

#[test]
fn case_expr_line() {
    let mut w = CodeWriter::new();
    w.case_expr("0", "Zero");
    assert_eq!(w.output(), "0 => Zero,\n");
}

#[test]
fn derive_and_allow_lines() {
    let mut w = CodeWriter::new();
    w.derive(&["Clone", "PartialEq", "Debug"]);
    w.allow(&["dead_code"]);
    w.allow(&[]);
    assert_eq!(
        w.output(),
        "#[derive(Clone,PartialEq,Debug)]\n#[allow(dead_code)]\n#[allow()]\n"
    );
}

#[test]
fn error_unexpected_wire_type_line() {
    let mut w = CodeWriter::new();
    w.error_unexpected_wire_type("wire_type");
    assert_eq!(
        w.output(),
        "return ::std::result::Result::Err(::protobuf::rt::unexpected_wire_type(wire_type));\n"
    );
}

#[test]
fn repeated_call_appends_identical_text() {
    let mut w = CodeWriter::new();
    w.pub_const("N", "u32", "7");
    let first = w.output().to_string();
    w.pub_const("N", "u32", "7");
    let both = w.output().to_string();
    assert_eq!(both, format!("{}{}", first, first));
}

#[test]
fn into_output_returns_everything() {
    let mut w = CodeWriter::new();
    w.write_line("a");
    w.write_line("b");
    assert_eq!(w.into_output(), "a\nb\n");
}
