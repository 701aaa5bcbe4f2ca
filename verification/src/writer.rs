//! The writer itself: an owned output buffer, the current indentation
//! prefix, and the line-emission primitive everything else is built on.
use vstd::prelude::*;
use vstd::string::StringExecFns;

use crate::model::WriterModel;
use crate::model::line_at;
use crate::model::indent_unit;
use crate::model::indented_model;
use crate::model::commented_model;
use crate::model::comment_line;
use crate::model::joined;
use crate::model::lemma_joined_push;
use crate::model::views_of;
use crate::model::generated_preamble;
use crate::model::generated_marker_lines;
use crate::model::generated_lint_lines;
use crate::model::lazy_static_lines;
use crate::wire::WireType;

verus! {

/// The callback of a nested scope accepts every writer that carries the
/// scope's two prefixes, whatever has been emitted before it runs.
pub open spec fn scope_accepts<F: FnOnce(CodeWriter) -> CodeWriter>(
    cb: F,
    indent: Seq<char>,
    blank_prefix: Seq<char>,
) -> bool {
    forall|w: CodeWriter|
        w@.indent == indent && w@.blank_prefix == blank_prefix ==> #[trigger] call_requires(
            cb,
            (w,),
        )
}

/// The output after a nested scope: some run of the callback, started on a
/// writer with model `m_in`, ended with the output `out_after`.
pub open spec fn scope_emits<F: FnOnce(CodeWriter) -> CodeWriter>(
    cb: F,
    m_in: WriterModel,
    out_after: Seq<char>,
) -> bool {
    exists|w_in: CodeWriter, w_out: CodeWriter|
        {
            &&& w_in@ == m_in
            &&& #[trigger] call_ensures(cb, (w_in,), w_out)
            &&& out_after == w_out@.out
        }
}

/// The output after a construct that surrounds one indented callback:
/// first `before` (text already emitted at the writer's own prefixes),
/// then some run of `cb` one unit deeper, then `after` closing it.
pub open spec fn scoped_emits<F: FnOnce(CodeWriter) -> CodeWriter>(
    cb: F,
    m: WriterModel,
    before: Seq<char>,
    after: Seq<char>,
    out_after: Seq<char>,
) -> bool {
    exists|w_in: CodeWriter, w_out: CodeWriter|
        {
            &&& w_in@.indent == m.indent + indent_unit()
            &&& w_in@.blank_prefix == m.blank_prefix
            &&& w_in@.out == m.out + before
            &&& #[trigger] call_ensures(cb, (w_in,), w_out)
            &&& out_after == w_out@.out + after
        }
}

/// The output after a block: the open line at the writer's own indent,
/// then some run of the callback one unit deeper, then the close line back
/// at the writer's own indent.
pub open spec fn block_emits<F: FnOnce(CodeWriter) -> CodeWriter>(
    cb: F,
    m: WriterModel,
    open_text: Seq<char>,
    close_text: Seq<char>,
    out_after: Seq<char>,
) -> bool {
    scoped_emits(cb, m, line_at(m, open_text), line_at(m, close_text), out_after)
}

/// The writer's two prefixes survive the call unchanged: helpers emit at
/// the indent they were called at and restore it on return.
pub open spec fn same_prefixes(pre: WriterModel, post: WriterModel) -> bool {
    &&& post.indent == pre.indent
    &&& post.blank_prefix == pre.blank_prefix
}

/// A stateful emitter of indented source text. All output goes through
/// `write_line`; nested scopes are expressed with `indented` and
/// `commented`, which hand a child writer to a callback.
pub struct CodeWriter {
    out: String,
    indent: String,
    blank_prefix: String,
}

impl View for CodeWriter {
    type V = WriterModel;

    closed spec fn view(&self) -> WriterModel {
        WriterModel {
            out: self.out@,
            indent: self.indent@,
            blank_prefix: self.blank_prefix@,
        }
    }
}

impl CodeWriter {
    /// A fresh writer: empty output, no indentation.
    pub fn new() -> (w: CodeWriter)
        ensures
            w@.out == Seq::<char>::empty(),
            w@.indent == Seq::<char>::empty(),
            w@.blank_prefix == Seq::<char>::empty(),
    {
        CodeWriter { out: String::new(), indent: String::new(), blank_prefix: String::new() }
    }

    /// Everything emitted so far.
    pub fn output(&self) -> (r: &str)
        ensures
            r@ == self@.out,
    {
        self.out.as_str()
    }

    /// Consume the writer and hand the emitted text over.
    pub fn into_output(self) -> (r: String)
        ensures
            r@ == self@.out,
    {
        let CodeWriter { out, indent: _, blank_prefix: _ } = self;
        out
    }

    /// Emit one line: the indent prefix, the text and a newline; a blank
    /// line carries only the blank prefix (empty outside comment scopes),
    /// never trailing indentation.
    pub fn write_line(&mut self, line: &str)
        ensures
            same_prefixes(old(self)@, final(self)@),
            final(self)@.out == old(self)@.out + line_at(old(self)@, line@),
    {
        if line.is_empty() {
            let prefix = self.blank_prefix.clone();
            self.out.append(prefix.as_str());
            self.out.append("\n");
        } else {
            let prefix = self.indent.clone();
            self.out.append(prefix.as_str());
            self.out.append(line);
            self.out.append("\n");
        }
        proof {
            assert(self@.out =~= old(self)@.out + line_at(old(self)@, line@));
        }
    }

    /// Run `cb` on a child writer one indent unit deeper; the child shares
    /// the output and the parent's own prefixes are untouched.
    pub fn indented<F: FnOnce(CodeWriter) -> CodeWriter>(&mut self, cb: F)
        requires
            scope_accepts(cb, old(self)@.indent + indent_unit(), old(self)@.blank_prefix),
        ensures
            same_prefixes(old(self)@, final(self)@),
            scope_emits(cb, indented_model(old(self)@), final(self)@.out),
    {
        let mut child_indent = self.indent.clone();
        child_indent.append("    ");
        let mut buf = String::new();
        core::mem::swap(&mut buf, &mut self.out);
        let child = CodeWriter {
            out: buf,
            indent: child_indent,
            blank_prefix: self.blank_prefix.clone(),
        };
        proof {
            assert(child@ =~= indented_model(old(self)@));
        }
        let done = cb(child);
        let CodeWriter { out, indent: _, blank_prefix: _ } = done;
        self.out = out;
    }

    /// Run `cb` on a child writer whose lines all carry the comment
    /// prefix; blank lines inside it carry the bare comment marker.
    pub fn commented<F: FnOnce(CodeWriter) -> CodeWriter>(&mut self, cb: F)
        requires
            scope_accepts(
                cb,
                commented_model(old(self)@).indent,
                commented_model(old(self)@).blank_prefix,
            ),
        ensures
            same_prefixes(old(self)@, final(self)@),
            scope_emits(cb, commented_model(old(self)@), final(self)@.out),
    {
        let mut child_indent = String::from_str("// ");
        child_indent.append(self.indent.as_str());
        let child_blank = if self.blank_prefix.as_str().is_empty() {
            String::from_str("//")
        } else {
            let mut b = String::from_str("// ");
            b.append(self.blank_prefix.as_str());
            b
        };
        let mut buf = String::new();
        core::mem::swap(&mut buf, &mut self.out);
        let child = CodeWriter { out: buf, indent: child_indent, blank_prefix: child_blank };
        proof {
            assert(child@ =~= commented_model(old(self)@));
        }
        let done = cb(child);
        let CodeWriter { out, indent: _, blank_prefix: _ } = done;
        self.out = out;
    }

    /// Emit a line comment: `// text`, or a bare `//` for an empty text.
    pub fn comment(&mut self, comment: &str)
        ensures
            same_prefixes(old(self)@, final(self)@),
            final(self)@.out == old(self)@.out + line_at(old(self)@, comment_line(comment@)),
    {
        if comment.is_empty() {
            self.write_line("//");
        } else {
            let mut line = String::from_str("// ");
            line.append(comment);
            self.write_line(line.as_str());
        }
    }

    /// Emit a panicking placeholder statement carrying `message`.
    pub fn todo(&mut self, message: &str)
        ensures
            same_prefixes(old(self)@, final(self)@),
            final(self)@.out == old(self)@.out + line_at(
                old(self)@,
                "panic!(\"TODO: "@ + message@ + "\");"@,
            ),
    {
        let mut line = String::from_str("panic!(\"TODO: ");
        line.append(message);
        line.append("\");");
        self.write_line(line.as_str());
    }

    /// Emit an unconditional unimplemented-target statement.
    pub fn unimplemented(&mut self)
        ensures
            same_prefixes(old(self)@, final(self)@),
            final(self)@.out == old(self)@.out + line_at(old(self)@, "unimplemented!();"@),
    {
        self.write_line("unimplemented!();");
    }

    /// Emit a public constant declaration.
    pub fn pub_const(&mut self, name: &str, field_type: &str, init: &str)
        ensures
            same_prefixes(old(self)@, final(self)@),
            final(self)@.out == old(self)@.out + line_at(
                old(self)@,
                "pub const "@ + name@ + ": "@ + field_type@ + " = "@ + init@ + ";"@,
            ),
    {
        let mut line = String::from_str("pub const ");
        line.append(name);
        line.append(": ");
        line.append(field_type);
        line.append(" = ");
        line.append(init);
        line.append(";");
        self.write_line(line.as_str());
    }

    /// Emit a one-line unsafe marker-trait implementation.
    pub fn unsafe_impl(&mut self, what: &str, for_what: &str)
        ensures
            same_prefixes(old(self)@, final(self)@),
            final(self)@.out == old(self)@.out + line_at(
                old(self)@,
                "unsafe impl "@ + what@ + " for "@ + for_what@ + " {}"@,
            ),
    {
        let mut line = String::from_str("unsafe impl ");
        line.append(what);
        line.append(" for ");
        line.append(for_what);
        line.append(" {}");
        self.write_line(line.as_str());
    }

    /// Emit a struct-literal field initializer: `name: value,`.
    pub fn field_entry(&mut self, name: &str, value: &str)
        ensures
            same_prefixes(old(self)@, final(self)@),
            final(self)@.out == old(self)@.out + line_at(
                old(self)@,
                name@ + ": "@ + value@ + ","@,
            ),
    {
        let mut line = String::from_str(name);
        line.append(": ");
        line.append(value);
        line.append(",");
        self.write_line(line.as_str());
    }

    /// Emit a private field declaration: `name: type,`.
    pub fn field_decl(&mut self, name: &str, field_type: &str)
        ensures
            same_prefixes(old(self)@, final(self)@),
            final(self)@.out == old(self)@.out + line_at(
                old(self)@,
                name@ + ": "@ + field_type@ + ","@,
            ),
    {
        let mut line = String::from_str(name);
        line.append(": ");
        line.append(field_type);
        line.append(",");
        self.write_line(line.as_str());
    }

    /// Emit a public field declaration: `pub name: type,`.
    pub fn pub_field_decl(&mut self, name: &str, field_type: &str)
        ensures
            same_prefixes(old(self)@, final(self)@),
            final(self)@.out == old(self)@.out + line_at(
                old(self)@,
                "pub "@ + name@ + ": "@ + field_type@ + ","@,
            ),
    {
        let mut line = String::from_str("pub ");
        line.append(name);
        line.append(": ");
        line.append(field_type);
        line.append(",");
        self.write_line(line.as_str());
    }

    /// Emit a bodiless function declaration: `fn sig;`.
    pub fn fn_def(&mut self, sig: &str)
        ensures
            same_prefixes(old(self)@, final(self)@),
            final(self)@.out == old(self)@.out + line_at(old(self)@, "fn "@ + sig@ + ";"@),
    {
        let mut line = String::from_str("fn ");
        line.append(sig);
        line.append(";");
        self.write_line(line.as_str());
    }

    /// Emit a single-expression match arm: `pattern => body,`.
    pub fn case_expr(&mut self, cond: &str, body: &str)
        ensures
            same_prefixes(old(self)@, final(self)@),
            final(self)@.out == old(self)@.out + line_at(
                old(self)@,
                cond@ + " => "@ + body@ + ","@,
            ),
    {
        let mut line = String::from_str(cond);
        line.append(" => ");
        line.append(body);
        line.append(",");
        self.write_line(line.as_str());
    }

    /// Emit the return-failure statement used when a decoded field carries
    /// an unexpected wire type; `wire_type` is the runtime expression whose
    /// value is reported.
    pub fn error_unexpected_wire_type(&mut self, wire_type: &str)
        ensures
            same_prefixes(old(self)@, final(self)@),
            final(self)@.out == old(self)@.out + line_at(
                old(self)@,
                "return ::std::result::Result::Err(::protobuf::rt::unexpected_wire_type("@
                    + wire_type@ + "));"@,
            ),
    {
        let mut line = String::from_str(
            "return ::std::result::Result::Err(::protobuf::rt::unexpected_wire_type(",
        );
        line.append(wire_type);
        line.append("));");
        self.write_line(line.as_str());
    }

    /// Emit a derive attribute naming every trait in `derive`, separated
    /// by commas.
    pub fn derive(&mut self, derive: &[&str])
        ensures
            same_prefixes(old(self)@, final(self)@),
            final(self)@.out == old(self)@.out + line_at(
                old(self)@,
                "#[derive("@ + joined(views_of(derive@), ","@) + ")]"@,
            ),
    {
        let mut line = String::from_str("#[derive(");
        line.append(self.joined_list(derive).as_str());
        line.append(")]");
        self.write_line(line.as_str());
    }

    /// Emit a lint-suppression attribute naming every lint in `what`,
    /// separated by commas.
    pub fn allow(&mut self, what: &[&str])
        ensures
            same_prefixes(old(self)@, final(self)@),
            final(self)@.out == old(self)@.out + line_at(
                old(self)@,
                "#[allow("@ + joined(views_of(what@), ","@) + ")]"@,
            ),
    {
        let mut line = String::from_str("#[allow(");
        line.append(self.joined_list(what).as_str());
        line.append(")]");
        self.write_line(line.as_str());
    }

    /// Glue the items together with commas; emits nothing.
    fn joined_list(&self, items: &[&str]) -> (r: String)
        ensures
            r@ == joined(views_of(items@), ","@),
    {
        let mut list = String::new();
        let mut i: usize = 0;
        while i < items.len()
            invariant
                i <= items@.len(),
                list@ == joined(views_of(items@).take(i as int), ","@),
            decreases items@.len() - i,
        {
            if i > 0 {
                list.append(",");
            }
            list.append(items[i]);
            proof {
                lemma_joined_push(views_of(items@).take(i as int), ","@, items@[i as int]@);
                assert(views_of(items@).take(i as int).push(items@[i as int]@) =~= views_of(
                    items@,
                ).take(i as int + 1));
                assert(list@ =~= joined(views_of(items@).take(i as int + 1), ","@));
            }
            i += 1;
        }
        proof {
            assert(views_of(items@).take(items@.len() as int) =~= views_of(items@));
        }
        list
    }

    /// Emit the fixed preamble of a generated file: the machine-generated
    /// marker lines and the lint-suppression block.
    pub fn write_generated(&mut self)
        ensures
            same_prefixes(old(self)@, final(self)@),
            final(self)@.out == old(self)@.out + generated_preamble(old(self)@),
    {
        self.generated_marker();
        self.generated_lints();
        proof {
            let a = generated_marker_lines(old(self)@);
            let b = generated_lint_lines(old(self)@);
            assert(old(self)@.out + a + b =~= old(self)@.out + (a + b));
        }
    }

    /// The marker half of the generated-file preamble.
    #[verifier::rlimit(30)]
    fn generated_marker(&mut self)
        ensures
            same_prefixes(old(self)@, final(self)@),
            final(self)@.out == old(self)@.out + generated_marker_lines(old(self)@),
    {
        self.write_line("// This file is generated. Do not edit");
        self.write_line("// @generated");
        self.write_line("");
        self.comment("https://github.com/Manishearth/rust-clippy/issues/702");
        self.write_line("#![allow(unknown_lints)]");
        self.write_line("#![allow(clippy)]");
        self.write_line("");
        self.write_line("#![cfg_attr(rustfmt, rustfmt_skip)]");
        self.write_line("");
        proof {
            reveal_strlit("// This file is generated. Do not edit");
            reveal_strlit("// @generated");
            reveal_strlit("");
            reveal_strlit("https://github.com/Manishearth/rust-clippy/issues/702");
            reveal_strlit("#![allow(unknown_lints)]");
            reveal_strlit("#![allow(clippy)]");
            reveal_strlit("#![cfg_attr(rustfmt, rustfmt_skip)]");
            assert(self@.out =~= old(self)@.out + generated_marker_lines(old(self)@));
        }
    }

    /// The lint-suppression half of the generated-file preamble.
    #[verifier::rlimit(30)]
    fn generated_lints(&mut self)
        ensures
            same_prefixes(old(self)@, final(self)@),
            final(self)@.out == old(self)@.out + generated_lint_lines(old(self)@),
    {
        self.write_line("#![allow(box_pointers)]");
        self.write_line("#![allow(dead_code)]");
        self.write_line("#![allow(missing_docs)]");
        self.write_line("#![allow(non_camel_case_types)]");
        self.write_line("#![allow(non_snake_case)]");
        self.write_line("#![allow(non_upper_case_globals)]");
        self.write_line("#![allow(trivial_casts)]");
        self.write_line("#![allow(unsafe_code)]");
        self.write_line("#![allow(unused_imports)]");
        self.write_line("#![allow(unused_results)]");
        proof {
            reveal_strlit("#![allow(box_pointers)]");
            reveal_strlit("#![allow(dead_code)]");
            reveal_strlit("#![allow(missing_docs)]");
            reveal_strlit("#![allow(non_camel_case_types)]");
            reveal_strlit("#![allow(non_snake_case)]");
            reveal_strlit("#![allow(non_upper_case_globals)]");
            reveal_strlit("#![allow(trivial_casts)]");
            reveal_strlit("#![allow(unsafe_code)]");
            reveal_strlit("#![allow(unused_imports)]");
            reveal_strlit("#![allow(unused_results)]");
            assert(self@.out =~= old(self)@.out + generated_lint_lines(old(self)@));
        }
    }

    /// Emit a lazily-initialized static declaration: the static's open
    /// line, its two field initializers one unit deeper, and the
    /// terminated close line.
    pub fn lazy_static(&mut self, name: &str, ty: &str)
        ensures
            same_prefixes(old(self)@, final(self)@),
            final(self)@.out == old(self)@.out + lazy_static_lines(old(self)@, name@, ty@),
    {
        let mut prefix = String::from_str("static mut ");
        prefix.append(name);
        prefix.append(": ::protobuf::lazy::Lazy<");
        prefix.append(ty);
        prefix.append("> = ::protobuf::lazy::Lazy");
        self.stmt_block(
            prefix.as_str(),
            (|child: CodeWriter| -> (r: CodeWriter)
                ensures
                    same_prefixes(child@, r@),
                    r@.out == child@.out + line_at(child@, "lock: ::protobuf::lazy::ONCE_INIT,"@)
                        + line_at(child@, "ptr: 0 as *const "@ + ty@ + ","@),
                {
                    let mut w = child;
                    w.write_line("lock: ::protobuf::lazy::ONCE_INIT,");
                    let mut ptr_line = String::from_str("ptr: 0 as *const ");
                    ptr_line.append(ty);
                    ptr_line.append(",");
                    w.write_line(ptr_line.as_str());
                    w
                }),
        );
        proof {
            assert(self@.out =~= old(self)@.out + lazy_static_lines(old(self)@, name@, ty@));
        }
    }

    /// Emit a lazily-initialized static declaration followed by an unsafe
    /// accessor block whose body `init` builds the initial value; `init`
    /// runs two units deeper than this writer.
    pub fn lazy_static_decl_get<F: FnOnce(CodeWriter) -> CodeWriter>(
        &mut self,
        name: &str,
        ty: &str,
        init: F,
    )
        requires
            scope_accepts(
                init,
                old(self)@.indent + indent_unit() + indent_unit(),
                old(self)@.blank_prefix,
            ),
        ensures
            same_prefixes(old(self)@, final(self)@),
            scoped_emits(
                init,
                indented_model(old(self)@),
                lazy_static_lines(old(self)@, name@, ty@) + line_at(old(self)@, "unsafe"@ + " {"@)
                    + line_at(indented_model(old(self)@), name@ + ".get(|| {"@),
                line_at(indented_model(old(self)@), "})"@) + line_at(old(self)@, "}"@),
                final(self)@.out,
            ),
    {
        self.lazy_static(name, ty);
        let ghost m1 = self@;
        let ghost ghost_get_open = name@ + ".get(|| {"@;
        let mut get_open = String::from_str(name);
        get_open.append(".get(|| {");
        let accessor = (move |child: CodeWriter| -> (r: CodeWriter)
            requires
                scope_accepts(init, child@.indent + indent_unit(), child@.blank_prefix),
            ensures
                same_prefixes(child@, r@),
                scoped_emits(
                    init,
                    child@,
                    line_at(child@, ghost_get_open),
                    line_at(child@, "})"@),
                    r@.out,
                ),
            {
                let mut w = child;
                w.write_line(get_open.as_str());
                w.indented(init);
                w.write_line("})");
                w
            });
        let ghost accessor_snapshot = accessor;
        self.unsafe_expr(accessor);
        proof {
            let m0 = old(self)@;
            let mi = indented_model(m0);
            let lazy = lazy_static_lines(m0, name@, ty@);
            let (wi, wo): (CodeWriter, CodeWriter) = choose|wi: CodeWriter, wo: CodeWriter|
                {
                    &&& wi@.indent == m1.indent + indent_unit()
                    &&& wi@.blank_prefix == m1.blank_prefix
                    &&& wi@.out == m1.out + line_at(m1, "unsafe"@ + " {"@)
                    &&& #[trigger] call_ensures(accessor_snapshot, (wi,), wo)
                    &&& self@.out == wo@.out + line_at(m1, "}"@)
                };
            let (vi, vo): (CodeWriter, CodeWriter) = choose|vi: CodeWriter, vo: CodeWriter|
                {
                    &&& vi@.indent == wi@.indent + indent_unit()
                    &&& vi@.blank_prefix == wi@.blank_prefix
                    &&& vi@.out == wi@.out + line_at(wi@, ghost_get_open)
                    &&& #[trigger] call_ensures(init, (vi,), vo)
                    &&& wo@.out == vo@.out + line_at(wi@, "})"@)
                };
            assert(vi@.out =~= mi.out + (lazy + line_at(m0, "unsafe"@ + " {"@) + line_at(
                mi,
                ghost_get_open,
            )));
            assert(self@.out =~= vo@.out + (line_at(mi, "})"@) + line_at(m0, "}"@)));
            assert(scoped_emits(
                init,
                mi,
                lazy + line_at(m0, "unsafe"@ + " {"@) + line_at(mi, name@ + ".get(|| {"@),
                line_at(mi, "})"@) + line_at(m0, "}"@),
                self@.out,
            ));
        }
    }

    /// Emit a lazily-initialized static declaration followed by an unsafe
    /// accessor block that hands `init` to the accessor as-is.
    pub fn lazy_static_decl_get_simple(&mut self, name: &str, ty: &str, init: &str)
        ensures
            same_prefixes(old(self)@, final(self)@),
            final(self)@.out == old(self)@.out + lazy_static_lines(old(self)@, name@, ty@)
                + line_at(old(self)@, "unsafe"@ + " {"@) + line_at(
                indented_model(old(self)@),
                name@ + ".get("@ + init@ + ")"@,
            ) + line_at(old(self)@, "}"@),
    {
        self.lazy_static(name, ty);
        let mut get_line = String::from_str(name);
        get_line.append(".get(");
        get_line.append(init);
        get_line.append(")");
        self.unsafe_expr(
            (move |child: CodeWriter| -> (r: CodeWriter)
                ensures
                    same_prefixes(child@, r@),
                    r@.out == child@.out + line_at(child@, get_line@),
                {
                    let mut w = child;
                    w.write_line(get_line.as_str());
                    w
                }),
        );
        proof {
            assert(self@.out =~= old(self)@.out + lazy_static_lines(old(self)@, name@, ty@)
                + line_at(old(self)@, "unsafe"@ + " {"@) + line_at(
                indented_model(old(self)@),
                name@ + ".get("@ + init@ + ")"@,
            ) + line_at(old(self)@, "}"@));
        }
    }

    /// Emit `first_line`, an indented region produced by `cb`, then
    /// `last_line` back at this writer's own indent.
    pub fn block<F: FnOnce(CodeWriter) -> CodeWriter>(
        &mut self,
        first_line: &str,
        last_line: &str,
        cb: F,
    )
        requires
            scope_accepts(cb, old(self)@.indent + indent_unit(), old(self)@.blank_prefix),
        ensures
            same_prefixes(old(self)@, final(self)@),
            block_emits(cb, old(self)@, first_line@, last_line@, final(self)@.out),
    {
        self.write_line(first_line);
        self.indented(cb);
        self.write_line(last_line);
    }

    /// Emit an expression-style block, `prefix { … }`, with no trailing
    /// terminator on the close line.
    pub fn expr_block<F: FnOnce(CodeWriter) -> CodeWriter>(&mut self, prefix: &str, cb: F)
        requires
            scope_accepts(cb, old(self)@.indent + indent_unit(), old(self)@.blank_prefix),
        ensures
            same_prefixes(old(self)@, final(self)@),
            block_emits(cb, old(self)@, prefix@ + " {"@, "}"@, final(self)@.out),
    {
        let mut open = String::from_str(prefix);
        open.append(" {");
        self.block(open.as_str(), "}", cb);
    }

    /// Emit a statement-style block, `prefix { … };`, whose close line
    /// carries the statement terminator.
    pub fn stmt_block<F: FnOnce(CodeWriter) -> CodeWriter>(&mut self, prefix: &str, cb: F)
        requires
            scope_accepts(cb, old(self)@.indent + indent_unit(), old(self)@.blank_prefix),
        ensures
            same_prefixes(old(self)@, final(self)@),
            block_emits(cb, old(self)@, prefix@ + " {"@, "};"@, final(self)@.out),
    {
        let mut open = String::from_str(prefix);
        open.append(" {");
        self.block(open.as_str(), "};", cb);
    }

    /// Emit an `unsafe { … }` block.
    pub fn unsafe_expr<F: FnOnce(CodeWriter) -> CodeWriter>(&mut self, cb: F)
        requires
            scope_accepts(cb, old(self)@.indent + indent_unit(), old(self)@.blank_prefix),
        ensures
            same_prefixes(old(self)@, final(self)@),
            block_emits(cb, old(self)@, "unsafe"@ + " {"@, "}"@, final(self)@.out),
    {
        self.expr_block("unsafe", cb);
    }

    /// Emit an inherent-impl block: `impl name { … }`.
    pub fn impl_self_block<F: FnOnce(CodeWriter) -> CodeWriter>(&mut self, name: &str, cb: F)
        requires
            scope_accepts(cb, old(self)@.indent + indent_unit(), old(self)@.blank_prefix),
        ensures
            same_prefixes(old(self)@, final(self)@),
            block_emits(cb, old(self)@, ("impl "@ + name@) + " {"@, "}"@, final(self)@.out),
    {
        let mut prefix = String::from_str("impl ");
        prefix.append(name);
        self.expr_block(prefix.as_str(), cb);
    }

    /// Emit a trait-impl block: `impl tr for ty { … }`.
    pub fn impl_for_block<F: FnOnce(CodeWriter) -> CodeWriter>(
        &mut self,
        tr: &str,
        ty: &str,
        cb: F,
    )
        requires
            scope_accepts(cb, old(self)@.indent + indent_unit(), old(self)@.blank_prefix),
        ensures
            same_prefixes(old(self)@, final(self)@),
            block_emits(
                cb,
                old(self)@,
                ("impl "@ + tr@ + " for "@ + ty@) + " {"@,
                "}"@,
                final(self)@.out,
            ),
    {
        let mut prefix = String::from_str("impl ");
        prefix.append(tr);
        prefix.append(" for ");
        prefix.append(ty);
        self.expr_block(prefix.as_str(), cb);
    }

    /// Emit a public struct declaration block.
    pub fn pub_struct<F: FnOnce(CodeWriter) -> CodeWriter>(&mut self, name: &str, cb: F)
        requires
            scope_accepts(cb, old(self)@.indent + indent_unit(), old(self)@.blank_prefix),
        ensures
            same_prefixes(old(self)@, final(self)@),
            block_emits(
                cb,
                old(self)@,
                ("pub struct "@ + name@) + " {"@,
                "}"@,
                final(self)@.out,
            ),
    {
        let mut prefix = String::from_str("pub struct ");
        prefix.append(name);
        self.expr_block(prefix.as_str(), cb);
    }

    /// Emit a private struct declaration block.
    pub fn def_struct<F: FnOnce(CodeWriter) -> CodeWriter>(&mut self, name: &str, cb: F)
        requires
            scope_accepts(cb, old(self)@.indent + indent_unit(), old(self)@.blank_prefix),
        ensures
            same_prefixes(old(self)@, final(self)@),
            block_emits(cb, old(self)@, ("struct "@ + name@) + " {"@, "}"@, final(self)@.out),
    {
        let mut prefix = String::from_str("struct ");
        prefix.append(name);
        self.expr_block(prefix.as_str(), cb);
    }

    /// Emit a public enum declaration block.
    pub fn pub_enum<F: FnOnce(CodeWriter) -> CodeWriter>(&mut self, name: &str, cb: F)
        requires
            scope_accepts(cb, old(self)@.indent + indent_unit(), old(self)@.blank_prefix),
        ensures
            same_prefixes(old(self)@, final(self)@),
            block_emits(cb, old(self)@, ("pub enum "@ + name@) + " {"@, "}"@, final(self)@.out),
    {
        let mut prefix = String::from_str("pub enum ");
        prefix.append(name);
        self.expr_block(prefix.as_str(), cb);
    }

    /// Emit a public trait declaration block.
    pub fn pub_trait<F: FnOnce(CodeWriter) -> CodeWriter>(&mut self, name: &str, cb: F)
        requires
            scope_accepts(cb, old(self)@.indent + indent_unit(), old(self)@.blank_prefix),
        ensures
            same_prefixes(old(self)@, final(self)@),
            block_emits(
                cb,
                old(self)@,
                ("pub trait "@ + name@) + " {"@,
                "}"@,
                final(self)@.out,
            ),
    {
        let mut prefix = String::from_str("pub trait ");
        prefix.append(name);
        self.expr_block(prefix.as_str(), cb);
    }

    /// Emit a function definition block, public or private as `public`
    /// says.
    pub fn fn_block<F: FnOnce(CodeWriter) -> CodeWriter>(
        &mut self,
        public: bool,
        sig: &str,
        cb: F,
    )
        requires
            scope_accepts(cb, old(self)@.indent + indent_unit(), old(self)@.blank_prefix),
        ensures
            same_prefixes(old(self)@, final(self)@),
            block_emits(
                cb,
                old(self)@,
                ((if public {
                    "pub fn "@
                } else {
                    "fn "@
                }) + sig@) + " {"@,
                "}"@,
                final(self)@.out,
            ),
    {
        if public {
            let mut prefix = String::from_str("pub fn ");
            prefix.append(sig);
            self.expr_block(prefix.as_str(), cb);
        } else {
            let mut prefix = String::from_str("fn ");
            prefix.append(sig);
            self.expr_block(prefix.as_str(), cb);
        }
    }

    /// Emit a public function definition block.
    pub fn pub_fn<F: FnOnce(CodeWriter) -> CodeWriter>(&mut self, sig: &str, cb: F)
        requires
            scope_accepts(cb, old(self)@.indent + indent_unit(), old(self)@.blank_prefix),
        ensures
            same_prefixes(old(self)@, final(self)@),
            block_emits(cb, old(self)@, ("pub fn "@ + sig@) + " {"@, "}"@, final(self)@.out),
    {
        self.fn_block(true, sig, cb);
    }

    /// Emit a private function definition block.
    pub fn def_fn<F: FnOnce(CodeWriter) -> CodeWriter>(&mut self, sig: &str, cb: F)
        requires
            scope_accepts(cb, old(self)@.indent + indent_unit(), old(self)@.blank_prefix),
        ensures
            same_prefixes(old(self)@, final(self)@),
            block_emits(cb, old(self)@, ("fn "@ + sig@) + " {"@, "}"@, final(self)@.out),
    {
        self.fn_block(false, sig, cb);
    }

    /// Emit a private module block.
    pub fn def_mod<F: FnOnce(CodeWriter) -> CodeWriter>(&mut self, name: &str, cb: F)
        requires
            scope_accepts(cb, old(self)@.indent + indent_unit(), old(self)@.blank_prefix),
        ensures
            same_prefixes(old(self)@, final(self)@),
            block_emits(cb, old(self)@, ("mod "@ + name@) + " {"@, "}"@, final(self)@.out),
    {
        let mut prefix = String::from_str("mod ");
        prefix.append(name);
        self.expr_block(prefix.as_str(), cb);
    }

    /// Emit a public module block.
    pub fn pub_mod<F: FnOnce(CodeWriter) -> CodeWriter>(&mut self, name: &str, cb: F)
        requires
            scope_accepts(cb, old(self)@.indent + indent_unit(), old(self)@.blank_prefix),
        ensures
            same_prefixes(old(self)@, final(self)@),
            block_emits(cb, old(self)@, ("pub mod "@ + name@) + " {"@, "}"@, final(self)@.out),
    {
        let mut prefix = String::from_str("pub mod ");
        prefix.append(name);
        self.expr_block(prefix.as_str(), cb);
    }

    /// Emit a `while cond { … }` loop.
    pub fn while_block<F: FnOnce(CodeWriter) -> CodeWriter>(&mut self, cond: &str, cb: F)
        requires
            scope_accepts(cb, old(self)@.indent + indent_unit(), old(self)@.blank_prefix),
        ensures
            same_prefixes(old(self)@, final(self)@),
            block_emits(cb, old(self)@, ("while "@ + cond@) + " {"@, "}"@, final(self)@.out),
    {
        let mut prefix = String::from_str("while ");
        prefix.append(cond);
        self.expr_block(prefix.as_str(), cb);
    }

    /// Emit an `if cond { … }` statement.
    pub fn if_stmt<F: FnOnce(CodeWriter) -> CodeWriter>(&mut self, cond: &str, cb: F)
        requires
            scope_accepts(cb, old(self)@.indent + indent_unit(), old(self)@.blank_prefix),
        ensures
            same_prefixes(old(self)@, final(self)@),
            block_emits(cb, old(self)@, ("if "@ + cond@) + " {"@, "}"@, final(self)@.out),
    {
        let mut prefix = String::from_str("if ");
        prefix.append(cond);
        self.expr_block(prefix.as_str(), cb);
    }

    /// Emit `if cond { } else { … }`: an empty success branch and a filled
    /// else branch; `cb` runs one unit deeper than the branch lines.
    pub fn if_else_stmt<F: FnOnce(CodeWriter) -> CodeWriter>(&mut self, cond: &str, cb: F)
        requires
            scope_accepts(cb, old(self)@.indent + indent_unit(), old(self)@.blank_prefix),
        ensures
            same_prefixes(old(self)@, final(self)@),
            scoped_emits(
                cb,
                old(self)@,
                line_at(old(self)@, ("if "@ + cond@) + " {"@) + line_at(old(self)@, "} else {"@),
                line_at(old(self)@, "}"@),
                final(self)@.out,
            ),
    {
        let mut open = String::from_str("if ");
        open.append(cond);
        open.append(" {");
        self.write_line(open.as_str());
        self.write_line("} else {");
        proof {
            let l1 = line_at(old(self)@, ("if "@ + cond@) + " {"@);
            let l2 = line_at(old(self)@, "} else {"@);
            assert(old(self)@.out + l1 + l2 =~= old(self)@.out + (l1 + l2));
        }
        self.indented(cb);
        self.write_line("}");
    }

    /// Emit `if let decl = expr { … }`.
    pub fn if_let_stmt<F: FnOnce(CodeWriter) -> CodeWriter>(
        &mut self,
        decl: &str,
        expr: &str,
        cb: F,
    )
        requires
            scope_accepts(cb, old(self)@.indent + indent_unit(), old(self)@.blank_prefix),
        ensures
            same_prefixes(old(self)@, final(self)@),
            block_emits(
                cb,
                old(self)@,
                ("if "@ + ("let "@ + decl@ + " = "@ + expr@)) + " {"@,
                "}"@,
                final(self)@.out,
            ),
    {
        let mut cond = String::from_str("let ");
        cond.append(decl);
        cond.append(" = ");
        cond.append(expr);
        self.if_stmt(cond.as_str(), cb);
    }

    /// Emit `if let decl = expr { } else { … }`.
    pub fn if_let_else_stmt<F: FnOnce(CodeWriter) -> CodeWriter>(
        &mut self,
        decl: &str,
        expr: &str,
        cb: F,
    )
        requires
            scope_accepts(cb, old(self)@.indent + indent_unit(), old(self)@.blank_prefix),
        ensures
            same_prefixes(old(self)@, final(self)@),
            scoped_emits(
                cb,
                old(self)@,
                line_at(
                    old(self)@,
                    ("if "@ + ("let "@ + decl@ + " = "@ + expr@)) + " {"@,
                ) + line_at(old(self)@, "} else {"@),
                line_at(old(self)@, "}"@),
                final(self)@.out,
            ),
    {
        let mut cond = String::from_str("let ");
        cond.append(decl);
        cond.append(" = ");
        cond.append(expr);
        self.if_else_stmt(cond.as_str(), cb);
    }

    /// Emit a `for varn in over { … }` loop: like every loop an
    /// expression-style block, so the close line carries no terminator.
    pub fn for_stmt<F: FnOnce(CodeWriter) -> CodeWriter>(
        &mut self,
        over: &str,
        varn: &str,
        cb: F,
    )
        requires
            scope_accepts(cb, old(self)@.indent + indent_unit(), old(self)@.blank_prefix),
        ensures
            same_prefixes(old(self)@, final(self)@),
            block_emits(
                cb,
                old(self)@,
                ("for "@ + varn@ + " in "@ + over@) + " {"@,
                "}"@,
                final(self)@.out,
            ),
    {
        let mut prefix = String::from_str("for ");
        prefix.append(varn);
        prefix.append(" in ");
        prefix.append(over);
        self.expr_block(prefix.as_str(), cb);
    }

    /// Emit a `match` used as a statement: the block ends with the
    /// terminator.
    pub fn match_block<F: FnOnce(CodeWriter) -> CodeWriter>(&mut self, value: &str, cb: F)
        requires
            scope_accepts(cb, old(self)@.indent + indent_unit(), old(self)@.blank_prefix),
        ensures
            same_prefixes(old(self)@, final(self)@),
            block_emits(
                cb,
                old(self)@,
                ("match "@ + value@) + " {"@,
                "};"@,
                final(self)@.out,
            ),
    {
        let mut prefix = String::from_str("match ");
        prefix.append(value);
        self.stmt_block(prefix.as_str(), cb);
    }

    /// Emit a `match` used as an expression: no terminator on the close
    /// line.
    pub fn match_expr<F: FnOnce(CodeWriter) -> CodeWriter>(&mut self, value: &str, cb: F)
        requires
            scope_accepts(cb, old(self)@.indent + indent_unit(), old(self)@.blank_prefix),
        ensures
            same_prefixes(old(self)@, final(self)@),
            block_emits(
                cb,
                old(self)@,
                ("match "@ + value@) + " {"@,
                "}"@,
                final(self)@.out,
            ),
    {
        let mut prefix = String::from_str("match ");
        prefix.append(value);
        self.expr_block(prefix.as_str(), cb);
    }

    /// Emit a guard comparing the runtime `wire_type` value against the
    /// expected tag: on mismatch the guard's body returns the
    /// unexpected-wire-type failure.
    pub fn assert_wire_type(&mut self, wire_type: WireType)
        ensures
            same_prefixes(old(self)@, final(self)@),
            final(self)@.out == old(self)@.out + line_at(
                old(self)@,
                ("if "@ + ("wire_type != ::protobuf::wire_format::"@ + wire_type.spec_name()))
                    + " {"@,
            ) + line_at(
                indented_model(old(self)@),
                "return ::std::result::Result::Err(::protobuf::rt::unexpected_wire_type("@
                    + "wire_type"@ + "));"@,
            ) + line_at(old(self)@, "}"@),
    {
        let mut cond = String::from_str("wire_type != ::protobuf::wire_format::");
        cond.append(wire_type.name());
        self.if_stmt(
            cond.as_str(),
            (|child: CodeWriter| -> (r: CodeWriter)
                ensures
                    same_prefixes(child@, r@),
                    r@.out == child@.out + line_at(
                        child@,
                        "return ::std::result::Result::Err(::protobuf::rt::unexpected_wire_type("@
                            + "wire_type"@ + "));"@,
                    ),
                {
                    let mut w = child;
                    w.error_unexpected_wire_type("wire_type");
                    w
                }),
        );
        proof {
            assert(self@.out =~= old(self)@.out + line_at(
                old(self)@,
                ("if "@ + ("wire_type != ::protobuf::wire_format::"@ + wire_type.spec_name()))
                    + " {"@,
            ) + line_at(
                indented_model(old(self)@),
                "return ::std::result::Result::Err(::protobuf::rt::unexpected_wire_type("@
                    + "wire_type"@ + "));"@,
            ) + line_at(old(self)@, "}"@));
        }
    }

    /// Emit a block-bodied match arm: `pattern => { … },`.
    pub fn case_block<F: FnOnce(CodeWriter) -> CodeWriter>(&mut self, cond: &str, cb: F)
        requires
            scope_accepts(cb, old(self)@.indent + indent_unit(), old(self)@.blank_prefix),
        ensures
            same_prefixes(old(self)@, final(self)@),
            block_emits(cb, old(self)@, cond@ + " => {"@, "},"@, final(self)@.out),
    {
        let mut open = String::from_str(cond);
        open.append(" => {");
        self.block(open.as_str(), "},", cb);
    }
}

} // verus!
