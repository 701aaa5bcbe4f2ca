//! The structural guarantees of the writer, stated and proved over the
//! model: indentation depth, blank lines, delimiter pairing, terminator
//! styles, repeatable emission, and the comment-prefix transform.
use vstd::prelude::*;

use crate::model::WriterModel;
use crate::model::line_at;
use crate::model::newline;
use crate::model::indent_unit;
use crate::model::indent_units;
use crate::model::nested;
use crate::model::indented_model;
use crate::model::commented_model;
use crate::model::comment_prefix;
use crate::model::comment_bare;
use crate::model::generated_preamble;
use crate::model::lazy_static_lines;
use crate::model::rstrip_spaces;
use crate::model::lemma_rstrip_concat;
use crate::model::lemma_rstrip_push_space;
use crate::writer::CodeWriter;
use crate::writer::block_emits;
use crate::writer::same_prefixes;

verus! {

/// After `k` nested indented scopes the writer's indent is the base indent
/// followed by exactly `k` indent units; the blank prefix and the output
/// are untouched by entering scopes.
pub proof fn lemma_nested_prefixes(m: WriterModel, k: nat)
    ensures
        nested(m, k).indent == m.indent + indent_units(k),
        nested(m, k).blank_prefix == m.blank_prefix,
        nested(m, k).out == m.out,
    decreases k,
{
    if k == 0 {
        assert(m.indent + indent_units(0) =~= m.indent);
    } else {
        lemma_nested_prefixes(m, (k - 1) as nat);
        assert(nested(m, k).indent =~= m.indent + indent_units(k));
    }
}

/// A non-empty line written at depth `k` is prefixed with the base indent
/// and exactly `k` indent units, then carries the text and a newline.
pub proof fn lemma_indentation_depth(m: WriterModel, k: nat, text: Seq<char>)
    requires
        text.len() > 0,
    ensures
        line_at(nested(m, k), text) == m.indent + indent_units(k) + text + newline(),
{
    lemma_nested_prefixes(m, k);
    assert(line_at(nested(m, k), text) =~= m.indent + indent_units(k) + text + newline());
}

/// A blank line never carries indentation: outside comment scopes it is a
/// bare newline at every depth.
pub proof fn lemma_blank_line_bare(m: WriterModel, k: nat)
    requires
        m.blank_prefix.len() == 0,
    ensures
        line_at(nested(m, k), Seq::<char>::empty()) == newline(),
{
    lemma_nested_prefixes(m, k);
    assert(line_at(nested(m, k), Seq::<char>::empty()) =~= newline());
}

/// Delimiter pairing: when the callback of a block appends `mid` — which
/// may be empty — the block's whole output is the open line, then `mid`,
/// then the close line, the two delimiter lines standing at the same
/// indent and each emitted exactly once.
pub proof fn lemma_block_output<F: FnOnce(CodeWriter) -> CodeWriter>(
    cb: F,
    m: WriterModel,
    open_text: Seq<char>,
    close_text: Seq<char>,
    mid: Seq<char>,
    out_after: Seq<char>,
)
    requires
        block_emits(cb, m, open_text, close_text, out_after),
        forall|w_in: CodeWriter, w_out: CodeWriter|
            w_in@.indent == m.indent + indent_unit() && w_in@.blank_prefix == m.blank_prefix
                && #[trigger] call_ensures(cb, (w_in,), w_out) ==> w_out@.out == w_in@.out + mid,
    ensures
        out_after == m.out + (line_at(m, open_text) + mid + line_at(m, close_text)),
{
    let (w_in, w_out): (CodeWriter, CodeWriter) = choose|w_in: CodeWriter, w_out: CodeWriter|
        {
            &&& w_in@.indent == m.indent + indent_unit()
            &&& w_in@.blank_prefix == m.blank_prefix
            &&& w_in@.out == m.out + line_at(m, open_text)
            &&& #[trigger] call_ensures(cb, (w_in,), w_out)
            &&& out_after == w_out@.out + line_at(m, close_text)
        };
    assert(out_after =~= m.out + (line_at(m, open_text) + mid + line_at(m, close_text)));
}

/// Statement-style close: the close line of a `};`-delimited block ends
/// with the terminator just before its newline.
pub proof fn lemma_statement_terminator(m: WriterModel)
    ensures
        line_at(m, "};"@).len() >= 3,
        line_at(m, "};"@).last() == '\n',
        line_at(m, "};"@)[line_at(m, "};"@).len() - 2] == ';',
{
    reveal_strlit("};");
    reveal_strlit("\n");
    assert(line_at(m, "};"@) =~= m.indent + "};"@ + newline());
}

/// Expression-style close: the close line of a `}`-delimited block carries
/// no terminator — the character before its newline is the brace itself.
pub proof fn lemma_expression_unterminated(m: WriterModel)
    ensures
        line_at(m, "}"@).len() >= 2,
        line_at(m, "}"@).last() == '\n',
        line_at(m, "}"@)[line_at(m, "}"@).len() - 2] == '}',
{
    reveal_strlit("}");
    reveal_strlit("\n");
    assert(line_at(m, "}"@) =~= m.indent + "}"@ + newline());
}

/// Repeatable emission: what a line write appends depends only on the
/// writer's prefixes and the text, never on what was already emitted, so
/// a helper invoked twice with identical arguments appends identical text
/// both times.
pub proof fn lemma_emission_repeatable(m1: WriterModel, m2: WriterModel, text: Seq<char>)
    requires
        same_prefixes(m1, m2),
    ensures
        line_at(m1, text) == line_at(m2, text),
        line_at(indented_model(m1), text) == line_at(indented_model(m2), text),
        line_at(commented_model(m1), text) == line_at(commented_model(m2), text),
{
}

/// Repeatable emission for the fixed multi-line helpers: the generated
/// preamble and a lazily-initialized static's lines likewise depend only
/// on the prefixes and the arguments.
pub proof fn lemma_fixed_emissions_repeatable(
    m1: WriterModel,
    m2: WriterModel,
    name: Seq<char>,
    ty: Seq<char>,
)
    requires
        same_prefixes(m1, m2),
    ensures
        generated_preamble(m1) == generated_preamble(m2),
        lazy_static_lines(m1, name, ty) == lazy_static_lines(m2, name, ty),
{
}

/// Inside a comment scope every line starts with the comment marker —
/// blank lines included, which carry the bare marker instead of being
/// truly empty.
pub proof fn lemma_commented_line_marked(m: WriterModel, text: Seq<char>)
    ensures
        line_at(commented_model(m), text).len() >= 2,
        line_at(commented_model(m), text)[0] == '/',
        line_at(commented_model(m), text)[1] == '/',
{
    reveal_strlit("// ");
    reveal_strlit("//");
    if text.len() == 0 {
        if m.blank_prefix.len() == 0 {
            assert(line_at(commented_model(m), text) =~= comment_bare() + newline());
        } else {
            assert(line_at(commented_model(m), text) =~= comment_prefix() + m.blank_prefix
                + newline());
        }
    } else {
        assert(line_at(commented_model(m), text) =~= comment_prefix() + m.indent + text
            + newline());
    }
}

/// In a comment scope entered from plain indentation, a blank line becomes
/// exactly the bare comment marker and a newline.
pub proof fn lemma_commented_blank_bare(m: WriterModel)
    requires
        m.blank_prefix.len() == 0,
    ensures
        line_at(commented_model(m), Seq::<char>::empty()) == comment_bare() + newline(),
{
}

/// The blank prefix is no state of its own: it is always the indent with
/// its trailing spaces dropped. A fresh writer satisfies the relation
/// (both prefixes empty), and both scope transforms preserve it.
pub proof fn lemma_blank_prefix_is_stripped_indent(m: WriterModel)
    requires
        m.blank_prefix == rstrip_spaces(m.indent),
    ensures
        indented_model(m).blank_prefix == rstrip_spaces(indented_model(m).indent),
        commented_model(m).blank_prefix == rstrip_spaces(commented_model(m).indent),
{
    reveal_strlit("    ");
    reveal_strlit("// ");
    reveal_strlit("//");
    lemma_rstrip_concat(m.indent, indent_unit());
    assert(rstrip_spaces(indent_unit()) =~= Seq::<char>::empty()) by {
        lemma_rstrip_push_space(Seq::<char>::empty());
        lemma_rstrip_push_space(Seq::<char>::empty().push(' '));
        lemma_rstrip_push_space(Seq::<char>::empty().push(' ').push(' '));
        lemma_rstrip_push_space(Seq::<char>::empty().push(' ').push(' ').push(' '));
        assert(indent_unit() =~= Seq::<char>::empty().push(' ').push(' ').push(' ').push(' '));
    }
    lemma_rstrip_concat(comment_prefix(), m.indent);
    assert(rstrip_spaces(comment_prefix()) =~= comment_bare()) by {
        assert(comment_prefix().last() == ' ');
        assert(comment_prefix().drop_last() =~= comment_bare());
        assert(comment_bare().last() == '/');
        assert(rstrip_spaces(comment_bare()) == comment_bare());
    }
    assert(commented_model(m).blank_prefix =~= rstrip_spaces(commented_model(m).indent));
}

/// The two scope transforms compose: indenting inside a comment scope and
/// commenting inside an indented scope hand the callback the same
/// prefixes — the comment marker first, then the indent, then the unit.
pub proof fn lemma_comment_indent_compose(m: WriterModel)
    ensures
        indented_model(commented_model(m)) == commented_model(indented_model(m)),
        indented_model(commented_model(m)).indent == comment_prefix() + m.indent + indent_unit(),
{
    assert(indented_model(commented_model(m)).indent =~= commented_model(
        indented_model(m),
    ).indent);
    assert(indented_model(commented_model(m)) =~= commented_model(indented_model(m)));
    assert(indented_model(commented_model(m)).indent =~= comment_prefix() + m.indent
        + indent_unit());
}

} // verus!
