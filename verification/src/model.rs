//! The mathematical model of the writer: the output emitted so far and
//! the two line prefixes (one for non-empty lines, one for blank lines),
//! together with the spec-level description of every emission.
use vstd::prelude::*;

verus! {

/// Ghost state of a writer: everything a contract needs to say about it.
#[verifier::ext_equal]
pub struct WriterModel {
    /// All characters emitted so far, in order.
    pub out: Seq<char>,
    /// Prefix applied to every non-empty line.
    pub indent: Seq<char>,
    /// Prefix applied to blank lines: the indent with trailing spaces
    /// dropped, so plain indentation never leaves trailing whitespace
    /// while a comment scope still marks its blank lines.
    pub blank_prefix: Seq<char>,
}

/// The line terminator.
pub open spec fn newline() -> Seq<char> {
    "\n"@
}

/// One unit of indentation: four spaces.
pub open spec fn indent_unit() -> Seq<char> {
    "    "@
}

/// The prefix a comment scope puts before each non-empty line.
pub open spec fn comment_prefix() -> Seq<char> {
    "// "@
}

/// The marker a comment scope puts on blank lines (no trailing space).
pub open spec fn comment_bare() -> Seq<char> {
    "//"@
}

/// What one `write_line(text)` call appends to the output: a bare
/// prefix-stripped line when `text` is empty, otherwise the indent,
/// the text and a newline.
pub open spec fn line_at(m: WriterModel, text: Seq<char>) -> Seq<char> {
    if text.len() == 0 {
        m.blank_prefix + newline()
    } else {
        m.indent + text + newline()
    }
}

/// The model handed to the callback of `indented`: same output, one
/// indent unit deeper, blank lines unchanged.
pub open spec fn indented_model(m: WriterModel) -> WriterModel {
    WriterModel { out: m.out, indent: m.indent + indent_unit(), blank_prefix: m.blank_prefix }
}

/// The model handed to the callback of `commented`: same output, the
/// comment prefix put before the indent, and blank lines carrying the
/// bare comment marker.
pub open spec fn commented_model(m: WriterModel) -> WriterModel {
    WriterModel {
        out: m.out,
        indent: comment_prefix() + m.indent,
        blank_prefix: if m.blank_prefix.len() == 0 {
            comment_bare()
        } else {
            comment_prefix() + m.blank_prefix
        },
    }
}

/// `s` with its trailing spaces dropped.
pub open spec fn rstrip_spaces(s: Seq<char>) -> Seq<char>
    decreases s.len(),
{
    if s.len() == 0 {
        s
    } else if s.last() == ' ' {
        rstrip_spaces(s.drop_last())
    } else {
        s
    }
}

/// Stripping trailing spaces ignores one appended space.
pub proof fn lemma_rstrip_push_space(s: Seq<char>)
    ensures
        rstrip_spaces(s.push(' ')) == rstrip_spaces(s),
{
    assert(s.push(' ').drop_last() =~= s);
}

/// Stripping trailing spaces from a concatenation: the right part decides
/// whether anything of the left part is touched.
pub proof fn lemma_rstrip_concat(a: Seq<char>, b: Seq<char>)
    ensures
        rstrip_spaces(a + b) == if rstrip_spaces(b).len() == 0 {
            rstrip_spaces(a)
        } else {
            a + rstrip_spaces(b)
        },
    decreases b.len(),
{
    if b.len() == 0 {
        assert(a + b =~= a);
    } else if b.last() == ' ' {
        assert((a + b).drop_last() =~= a + b.drop_last());
        lemma_rstrip_concat(a, b.drop_last());
    } else {
        assert((a + b).last() == b.last());
    }
}

/// The text of a comment line: the bare marker when there is nothing to
/// say, otherwise the marker, a space and the text.
pub open spec fn comment_line(text: Seq<char>) -> Seq<char> {
    if text.len() == 0 {
        comment_bare()
    } else {
        comment_prefix() + text
    }
}

/// `items` glued together with `sep` between neighbours and none at the
/// ends.
pub open spec fn joined(items: Seq<Seq<char>>, sep: Seq<char>) -> Seq<char>
    decreases items.len(),
{
    if items.len() == 0 {
        Seq::<char>::empty()
    } else if items.len() == 1 {
        items[0]
    } else {
        items[0] + sep + joined(items.skip(1), sep)
    }
}

/// Appending one more item extends a joined list by a separator and the
/// item (or is the item itself when the list was empty).
pub proof fn lemma_joined_push(items: Seq<Seq<char>>, sep: Seq<char>, last: Seq<char>)
    ensures
        joined(items.push(last), sep) == if items.len() == 0 {
            last
        } else {
            joined(items, sep) + sep + last
        },
    decreases items.len(),
{
    if items.len() == 0 {
        assert(items.push(last)[0] == last);
    } else {
        assert(items.push(last).skip(1) =~= items.skip(1).push(last));
        lemma_joined_push(items.skip(1), sep, last);
        assert(joined(items.push(last), sep) =~= joined(items, sep) + sep + last);
    }
}

/// The views of a list of borrowed strings.
pub open spec fn views_of(items: Seq<&str>) -> Seq<Seq<char>> {
    items.map_values(|s: &str| s@)
}

/// The opening lines of the generated-file preamble: the machine-generated
/// marker and the first lint lines.
pub open spec fn generated_marker_lines(m: WriterModel) -> Seq<char> {
    line_at(m, "// This file is generated. Do not edit"@) + line_at(m, "// @generated"@) + line_at(
        m,
        ""@,
    ) + line_at(m, comment_line("https://github.com/Manishearth/rust-clippy/issues/702"@))
        + line_at(m, "#![allow(unknown_lints)]"@) + line_at(m, "#![allow(clippy)]"@) + line_at(
        m,
        ""@,
    ) + line_at(m, "#![cfg_attr(rustfmt, rustfmt_skip)]"@) + line_at(m, ""@)
}

/// The closing lines of the generated-file preamble: the fixed
/// lint-suppression block.
pub open spec fn generated_lint_lines(m: WriterModel) -> Seq<char> {
    line_at(m, "#![allow(box_pointers)]"@) + line_at(m, "#![allow(dead_code)]"@) + line_at(
        m,
        "#![allow(missing_docs)]"@,
    ) + line_at(m, "#![allow(non_camel_case_types)]"@) + line_at(m, "#![allow(non_snake_case)]"@)
        + line_at(m, "#![allow(non_upper_case_globals)]"@) + line_at(
        m,
        "#![allow(trivial_casts)]"@,
    ) + line_at(m, "#![allow(unsafe_code)]"@) + line_at(m, "#![allow(unused_imports)]"@) + line_at(
        m,
        "#![allow(unused_results)]"@,
    )
}

/// The fixed generated-file preamble: the machine-generated marker and the
/// lint-suppression block, line by line at the writer's prefixes.
pub open spec fn generated_preamble(m: WriterModel) -> Seq<char> {
    generated_marker_lines(m) + generated_lint_lines(m)
}

/// The four lines of a lazily-initialized static declaration for `name`
/// of type `ty`: the open line, two field initializers one unit deeper,
/// and the terminated close line.
pub open spec fn lazy_static_lines(m: WriterModel, name: Seq<char>, ty: Seq<char>) -> Seq<char> {
    line_at(
        m,
        ("static mut "@ + name + ": ::protobuf::lazy::Lazy<"@ + ty + "> = ::protobuf::lazy::Lazy"@)
            + " {"@,
    ) + line_at(indented_model(m), "lock: ::protobuf::lazy::ONCE_INIT,"@) + line_at(
        indented_model(m),
        "ptr: 0 as *const "@ + ty + ","@,
    ) + line_at(m, "};"@)
}

/// A sequence made of `k` indent units.
pub open spec fn indent_units(k: nat) -> Seq<char>
    decreases k,
{
    if k == 0 {
        Seq::<char>::empty()
    } else {
        indent_units((k - 1) as nat) + indent_unit()
    }
}

/// The model after `k` nested `indented` scopes.
pub open spec fn nested(m: WriterModel, k: nat) -> WriterModel
    decreases k,
{
    if k == 0 {
        m
    } else {
        indented_model(nested(m, (k - 1) as nat))
    }
}

} // verus!
