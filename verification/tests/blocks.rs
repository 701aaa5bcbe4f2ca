use code_writer::CodeWriter;

#[test]
fn block_basic() {
    let mut w = CodeWriter::new();
    w.block("fn f() {", "}", |mut c| {
        c.write_line("return;");
        c
    });
    assert_eq!(w.output(), "fn f() {\n    return;\n}\n");
}

#[test]
fn block_with_empty_callback_still_pairs_delimiters() {
    let mut w = CodeWriter::new();
    w.block("open {", "}", |c| c);
    assert_eq!(w.output(), "open {\n}\n");
}

#[test]
fn block_delimiters_share_indent() {
    let mut w = CodeWriter::new();
    w.indented(|mut c| {
        c.block("open {", "}", |mut d| {
            d.write_line("x");
            d
        });
        c
    });
    assert_eq!(w.output(), "    open {\n        x\n    }\n");
}

#[test]
fn expr_block_has_no_terminator() {
    let mut w = CodeWriter::new();
    w.expr_block("impl A", |c| c);
    assert_eq!(w.output(), "impl A {\n}\n");
}

#[test]
fn stmt_block_ends_with_terminator() {
    let mut w = CodeWriter::new();
    w.stmt_block("static X: Y = Y", |c| c);
    assert_eq!(w.output(), "static X: Y = Y {\n};\n");
}

#[test]
fn match_statement_vs_expression_terminators() {
    let mut w = CodeWriter::new();
    w.match_block("x", |mut c| {
        c.case_expr("_", "()");
        c
    });
    let statement = w.into_output();
    assert_eq!(statement, "match x {\n    _ => (),\n};\n");

    let mut w = CodeWriter::new();
    w.match_expr("x", |mut c| {
        c.case_expr("_", "()");
        c
    });
    let expression = w.into_output();
    assert_eq!(expression, "match x {\n    _ => (),\n}\n");
}

#[test]
fn unsafe_expr_block() {
    let mut w = CodeWriter::new();
    w.unsafe_expr(|mut c| {
        c.write_line("x();");
        c
    });
    assert_eq!(w.output(), "unsafe {\n    x();\n}\n");
}

#[test]
fn impl_blocks() {
    let mut w = CodeWriter::new();
    w.impl_self_block("Point", |c| c);
    w.impl_for_block("Clone", "Point", |c| c);
    assert_eq!(w.output(), "impl Point {\n}\nimpl Clone for Point {\n}\n");
}

#[test]
fn declaration_blocks() {
    let mut w = CodeWriter::new();
    w.pub_struct("A", |c| c);
    w.def_struct("B", |c| c);
    w.pub_enum("C", |c| c);
    w.pub_trait("D", |c| c);
    assert_eq!(
        w.output(),
        "pub struct A {\n}\nstruct B {\n}\npub enum C {\n}\npub trait D {\n}\n"
    );
}

#[test]
fn function_blocks() {
    let mut w = CodeWriter::new();
    w.pub_fn("f()", |c| c);
    w.def_fn("g()", |c| c);
    w.fn_block(true, "h()", |c| c);
    w.fn_block(false, "i()", |c| c);
    assert_eq!(
        w.output(),
        "pub fn f() {\n}\nfn g() {\n}\npub fn h() {\n}\nfn i() {\n}\n"
    );
}

#[test]
fn module_blocks() {
    let mut w = CodeWriter::new();
    w.def_mod("inner", |c| c);
    w.pub_mod("outer", |c| c);
    assert_eq!(w.output(), "mod inner {\n}\npub mod outer {\n}\n");
}

#[test]
fn loop_and_conditional_blocks() {
    let mut w = CodeWriter::new();
    w.while_block("x < 3", |mut c| {
        c.write_line("x += 1;");
        c
    });
    w.if_stmt("ready", |mut c| {
        c.write_line("go();");
        c
    });
    w.for_stmt("0..3", "i", |mut c| {
        c.write_line("use_it(i);");
        c
    });
    assert_eq!(
        w.output(),
        "while x < 3 {\n    x += 1;\n}\nif ready {\n    go();\n}\nfor i in 0..3 {\n    use_it(i);\n}\n"
    );
}

#[test]
fn if_else_fills_only_else_branch() {
    let mut w = CodeWriter::new();
    w.if_else_stmt("ok", |mut c| {
        c.write_line("recover();");
        c
    });
    assert_eq!(w.output(), "if ok {\n} else {\n    recover();\n}\n");
}

#[test]
fn if_let_variants() {
    let mut w = CodeWriter::new();
    w.if_let_stmt("Some(v)", "lookup()", |mut c| {
        c.write_line("use_it(v);");
        c
    });
    let plain = w.into_output();
    assert_eq!(plain, "if let Some(v) = lookup() {\n    use_it(v);\n}\n");

    let mut w = CodeWriter::new();
    w.if_let_else_stmt("Some(v)", "lookup()", |mut c| {
        c.write_line("fallback();");
        c
    });
    let with_else = w.into_output();
    assert_eq!(
        with_else,
        "if let Some(v) = lookup() {\n} else {\n    fallback();\n}\n"
    );
}

#[test]
fn case_block_arm() {
    let mut w = CodeWriter::new();
    w.case_block("Some(x)", |mut c| {
        c.write_line("use_it(x);");
        c
    });
    assert_eq!(w.output(), "Some(x) => {\n    use_it(x);\n},\n");
}
