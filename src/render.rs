//! Rendering one diagnostic into a styled block, and a sequence of them into
//! one text.

use vstd::prelude::*;
use crate::context::{lemma_lines_nonempty, lines_of, split_chars, views_of};
use crate::diagnostic::{color_of, label_of, style, Diagnostic, RenderError};
use crate::marker::{
    lemma_more_lines_wording, more_lines, bold, gutter_line, indent_of, marker_fits, marker_markup, marker_ok, nbsp, push_gutter_line,
    push_marker, GUTTER_WIDTH,
};
use crate::text::{chars_of, decimal, push_decimal, push_repeat, push_str, repeat, string_of};

verus! {

/// The text views of a list of strings.
pub open spec fn texts_of(v: Seq<String>) -> Seq<Seq<char>> {
    v.map_values(|s: String| s@)
}

/// Each note on a line of its own, after a label in a colour of its own.
pub open spec fn notes_markup(notes: Seq<Seq<char>>) -> Seq<char>
    decreases notes.len(),
{
    if notes.len() == 0 {
        Seq::empty()
    } else {
        notes_markup(notes.drop_last()) + "<br><b style='color: #4accd8;'> - Note: </b>"@
            + notes.last()
    }
}

/// Whether a diagnostic can be shown with source context: the document has
/// text and the span has a width.
pub open spec fn has_context(d: Diagnostic) -> bool {
    d.source@.len() > 0 && !d.span.spec_is_empty()
}

/// Whether a diagnostic is shown with source context (see `has_context`).
pub fn has_source_context(d: &Diagnostic) -> (r: bool)
    ensures
        r == has_context(*d),
{
    !(d.source.as_str().is_empty() || d.span.is_empty())
}

/// The block of a diagnostic without source context: label, path, message
/// and notes.
pub open spec fn fallback_block(d: Diagnostic) -> Seq<char> {
    bold(color_of(d.level), label_of(d.level)) + " in "@ + d.path@ + " <br> "@ + d.message@
        + notes_markup(texts_of(d.notes@))
}

/// Whether both lines of the span lie in the document.
pub open spec fn lines_in_range(d: Diagnostic) -> bool {
    let n = lines_of(d.source@).len();
    1 <= d.span.start.line <= n && 1 <= d.span.end.line <= n
}

/// The text of the line the span starts on.
pub open spec fn start_line(d: Diagnostic) -> Seq<char> {
    lines_of(d.source@)[d.span.start.line - 1]
}

/// The first line of a block with source context: label, path, line and
/// column.
pub open spec fn header(d: Diagnostic) -> Seq<char> {
    bold(color_of(d.level), label_of(d.level)) + " in document "@ + d.path@ + ":"@
        + decimal(d.span.start.line as nat) + ":"@ + decimal(d.span.start.column as nat)
        + "<br>"@
}

/// The line before the span's first line, if there is one.
pub open spec fn previous_part(d: Diagnostic) -> Seq<char> {
    let l = d.span.start.line;
    if l > 1 {
        "<br>"@ + gutter_line((l - 1) as nat, lines_of(d.source@)[l - 2])
    } else {
        Seq::empty()
    }
}

/// The span's first line and the marker beneath it.
pub open spec fn target_part(d: Diagnostic) -> Seq<char> {
    let l = d.span.start.line;
    "<br>"@ + gutter_line(l as nat, start_line(d)) + "<br>"@
        + repeat(nbsp(), indent_of(d.span.start.column as nat))
        + marker_markup(d.level, d.span.start, d.span.end, start_line(d))
}

/// The line after the span's first line, if there is one.
pub open spec fn next_part(d: Diagnostic) -> Seq<char> {
    let l = d.span.start.line;
    if l < lines_of(d.source@).len() {
        "<br>"@ + gutter_line((l + 1) as nat, lines_of(d.source@)[l as int])
    } else {
        Seq::empty()
    }
}

/// A blank line, the message in bold and the notes.
pub open spec fn message_part(d: Diagnostic) -> Seq<char> {
    "<br><br> "@ + bold(color_of(d.level), d.message@) + notes_markup(texts_of(d.notes@))
}

/// The block of a diagnostic with source context: a header, the line
/// before the span's first line, that line, the marker, the line after it,
/// a blank line, the message in bold and the notes.
pub open spec fn context_block(d: Diagnostic) -> Seq<char> {
    header(d) + previous_part(d) + target_part(d) + next_part(d) + message_part(d)
}

/// What rendering a diagnostic gives.
pub open spec fn rendered(d: Diagnostic) -> Result<Seq<char>, RenderError> {
    if !has_context(d) {
        Ok(fallback_block(d))
    } else if !lines_in_range(d) {
        Err(RenderError::LineOutOfRange)
    } else if !marker_ok(d.span.start, d.span.end, start_line(d).len()) {
        Err(RenderError::MalformedSpan)
    } else {
        Ok(context_block(d))
    }
}

fn push_notes(out: &mut Vec<char>, notes: &Vec<String>)
    ensures
        final(out)@ == old(out)@ + notes_markup(texts_of(notes@)),
{
    let mut i: usize = 0;
    while i < notes.len()
        invariant
            i <= notes.len(),
            out@ == old(out)@ + notes_markup(texts_of(notes@).take(i as int)),
        decreases notes.len() - i,
    {
        push_str(out, "<br><b style='color: #4accd8;'> - Note: </b>");
        push_str(out, notes[i].as_str());
        i = i + 1;
        assert(texts_of(notes@).take(i as int).drop_last() =~= texts_of(notes@).take(i - 1));
        assert(out@ =~= old(out)@ + notes_markup(texts_of(notes@).take(i as int)));
    }
    assert(texts_of(notes@).take(i as int) =~= texts_of(notes@));
}

fn push_bold(out: &mut Vec<char>, color: &str, s: &str)
    ensures
        final(out)@ == old(out)@ + bold(color@, s@),
{
    push_str(out, "<b style='color: ");
    push_str(out, color);
    push_str(out, ";'>");
    push_str(out, s);
    push_str(out, "</b>");
    assert(out@ =~= old(out)@ + bold(color@, s@));
}

/// Facts about the lines of a diagnostic's document that the context path
/// relies on.
pub open spec fn context_ready(d: Diagnostic, lines: Seq<Vec<char>>) -> bool {
    &&& views_of(lines) == lines_of(d.source@)
    &&& lines_in_range(d)
    &&& marker_ok(d.span.start, d.span.end, start_line(d).len())
}

fn push_fallback(out: &mut Vec<char>, d: &Diagnostic)
    ensures
        final(out)@ == old(out)@ + fallback_block(*d),
{
    let st = style(d.level);
    push_bold(out, st.color, st.label);
    push_str(out, " in ");
    push_str(out, d.path.as_str());
    push_str(out, " <br> ");
    push_str(out, d.message.as_str());
    push_notes(out, &d.notes);
    assert(out@ =~= old(out)@ + fallback_block(*d));
}

fn push_header(out: &mut Vec<char>, d: &Diagnostic)
    ensures
        final(out)@ == old(out)@ + header(*d),
{
    let st = style(d.level);
    push_bold(out, st.color, st.label);
    push_str(out, " in document ");
    push_str(out, d.path.as_str());
    push_str(out, ":");
    push_decimal(out, d.span.start.line);
    push_str(out, ":");
    push_decimal(out, d.span.start.column);
    push_str(out, "<br>");
    assert(out@ =~= old(out)@ + header(*d));
}

fn push_previous(out: &mut Vec<char>, d: &Diagnostic, lines: &Vec<Vec<char>>)
    requires
        context_ready(*d, lines@),
    ensures
        final(out)@ == old(out)@ + previous_part(*d),
{
    let l = d.span.start.line;
    if l > 1 {
        assert(views_of(lines@)[l - 2] == lines_of(d.source@)[l - 2]);
        push_str(out, "<br>");
        push_gutter_line(out, l - 1, &lines[l - 2]);
    }
    assert(out@ =~= old(out)@ + previous_part(*d));
}

fn push_target(out: &mut Vec<char>, d: &Diagnostic, lines: &Vec<Vec<char>>)
    requires
        context_ready(*d, lines@),
    ensures
        final(out)@ == old(out)@ + target_part(*d),
{
    let l = d.span.start.line;
    assert(views_of(lines@)[l - 1] == lines_of(d.source@)[l - 1]);
    push_str(out, "<br>");
    push_gutter_line(out, l, &lines[l - 1]);
    push_str(out, "<br>");
    push_repeat(out, "&nbsp;", d.span.start.column + GUTTER_WIDTH);
    push_marker(out, d.level, d.span.start, d.span.end, &lines[l - 1]);
    assert(out@ =~= old(out)@ + target_part(*d));
}

fn push_next(out: &mut Vec<char>, d: &Diagnostic, lines: &Vec<Vec<char>>)
    requires
        context_ready(*d, lines@),
    ensures
        final(out)@ == old(out)@ + next_part(*d),
{
    let l = d.span.start.line;
    if l < lines.len() {
        assert(views_of(lines@)[l as int] == lines_of(d.source@)[l as int]);
        push_str(out, "<br>");
        push_gutter_line(out, l + 1, &lines[l]);
    }
    assert(out@ =~= old(out)@ + next_part(*d));
}

fn push_message(out: &mut Vec<char>, d: &Diagnostic)
    ensures
        final(out)@ == old(out)@ + message_part(*d),
{
    let st = style(d.level);
    push_str(out, "<br><br> ");
    push_bold(out, st.color, d.message.as_str());
    push_notes(out, &d.notes);
    assert(out@ =~= old(out)@ + message_part(*d));
}

fn push_context(out: &mut Vec<char>, d: &Diagnostic, lines: &Vec<Vec<char>>)
    requires
        context_ready(*d, lines@),
    ensures
        final(out)@ == old(out)@ + context_block(*d),
{
    push_header(out, d);
    push_previous(out, d, lines);
    push_target(out, d, lines);
    push_next(out, d, lines);
    push_message(out, d);
    assert(out@ =~= old(out)@ + context_block(*d));
}

/// Renders one diagnostic. Without source text or with a span of no width
/// the block names label, path, message and notes only. Otherwise it shows
/// the span's first line between its neighbours, each with a line-number
/// gutter, and marks the span beneath it; a span on lines the document
/// lacks, or one that cannot be marked, is an error and nothing is drawn.
pub fn render_diagnostic(d: &Diagnostic) -> (r: Result<String, RenderError>)
    ensures
        r matches Ok(s) ==> rendered(*d) == Ok::<Seq<char>, RenderError>(s@),
        r matches Err(e) ==> rendered(*d) == Err::<Seq<char>, RenderError>(e),
{
    let mut out: Vec<char> = Vec::new();
    if !has_source_context(d) {
        push_fallback(&mut out, d);
        assert(out@ =~= fallback_block(*d));
        return Ok(string_of(&out));
    }
    let src = chars_of(d.source.as_str());
    let lines = split_chars(&src);
    proof {
        lemma_lines_nonempty(d.source@);
        assert(lines@.len() == lines_of(d.source@).len());
    }
    let start = d.span.start;
    let end = d.span.end;
    let l = start.line;
    if l < 1 || l > lines.len() || end.line < 1 || end.line > lines.len() {
        return Err(RenderError::LineOutOfRange);
    }
    assert(views_of(lines@)[l - 1] == start_line(*d));
    if !marker_fits(start, end, &lines[l - 1]) {
        return Err(RenderError::MalformedSpan);
    }
    push_context(&mut out, d, &lines);
    assert(out@ =~= context_block(*d));
    Ok(string_of(&out))
}

/// What separates two rendered diagnostics.
pub open spec fn separator() -> Seq<char> {
    "<br><br>"@
}

/// What rendering a sequence of diagnostics gives: their blocks in the
/// given order, separated by `separator()`, or the error of the first one
/// that cannot be rendered.
pub open spec fn rendered_all(ds: Seq<Diagnostic>) -> Result<Seq<char>, RenderError>
    decreases ds.len(),
{
    if ds.len() == 0 {
        Ok(Seq::empty())
    } else {
        match rendered_all(ds.drop_last()) {
            Err(e) => Err(e),
            Ok(p) => match rendered(ds.last()) {
                Err(e) => Err(e),
                Ok(b) => Ok(if ds.len() == 1 { b } else { p + separator() + b }),
            },
        }
    }
}

/// Once a prefix of a sequence fails to render, the whole sequence fails
/// with the same error.
proof fn lemma_error_kept(ds: Seq<Diagnostic>, k: int)
    requires
        0 <= k <= ds.len(),
        rendered_all(ds.take(k)) is Err,
    ensures
        rendered_all(ds) == rendered_all(ds.take(k)),
    decreases ds.len() - k,
{
    if k < ds.len() {
        assert(ds.take(k + 1).drop_last() =~= ds.take(k));
        lemma_error_kept(ds, k + 1);
    } else {
        assert(ds.take(k) =~= ds);
    }
}

/// Renders diagnostics one after another, in the order given, and joins
/// the blocks with a double line break. Nothing is sorted, filtered or
/// dropped; the first diagnostic that cannot be rendered makes the whole
/// call fail with its error.
pub fn print_diagnostics(errs: &[Diagnostic]) -> (r: Result<String, RenderError>)
    ensures
        r matches Ok(s) ==> rendered_all(errs@) == Ok::<Seq<char>, RenderError>(s@),
        r matches Err(e) ==> rendered_all(errs@) == Err::<Seq<char>, RenderError>(e),
{
    let mut out: Vec<char> = Vec::new();
    let mut i: usize = 0;
    assert(errs@.take(0) =~= Seq::<Diagnostic>::empty());
    while i < errs.len()
        invariant
            i <= errs.len(),
            rendered_all(errs@.take(i as int)) == Ok::<Seq<char>, RenderError>(out@),
        decreases errs.len() - i,
    {
        let ghost prev = out@;
        assert(errs@.take(i + 1).drop_last() =~= errs@.take(i as int));
        assert(errs@.take(i + 1).last() == errs@[i as int]);
        match render_diagnostic(&errs[i]) {
            Err(e) => {
                proof {
                    lemma_error_kept(errs@, i + 1);
                }
                return Err(e);
            },
            Ok(block) => {
                if i > 0 {
                    push_str(&mut out, "<br><br>");
                }
                push_str(&mut out, block.as_str());
                assert(out@ =~= if i == 0 { block@ } else { prev + separator() + block@ });
            },
        }
        i = i + 1;
    }
    assert(errs@.take(i as int) =~= errs@);
    Ok(string_of(&out))
}

/// Rendering a sequence keeps its order: three diagnostics that render on
/// their own give their blocks in the order given, with the separator
/// between them, whatever their severities.
pub proof fn lemma_order_kept(a: Diagnostic, b: Diagnostic, c: Diagnostic)
    requires
        rendered(a) is Ok,
        rendered(b) is Ok,
        rendered(c) is Ok,
    ensures
        rendered_all(seq![a, b, c]) == Ok::<Seq<char>, RenderError>(
            rendered(a)->Ok_0 + separator() + rendered(b)->Ok_0 + separator() + rendered(c)->Ok_0,
        ),
{
    let s = seq![a, b, c];
    assert(s.drop_last() =~= seq![a, b]);
    assert(seq![a, b].drop_last() =~= seq![a]);
    assert(seq![a].drop_last() =~= Seq::<Diagnostic>::empty());
    reveal_with_fuel(rendered_all, 4);
}

/// A blocks sequence grows by one block and one separator per diagnostic:
/// rendering `ds` followed by `d` gives the rendering of `ds`, the
/// separator and the block of `d`, when all of them render.
pub proof fn lemma_append_one(ds: Seq<Diagnostic>, d: Diagnostic)
    requires
        ds.len() > 0,
        rendered_all(ds) is Ok,
        rendered(d) is Ok,
    ensures
        rendered_all(ds.push(d)) == Ok::<Seq<char>, RenderError>(
            rendered_all(ds)->Ok_0 + separator() + rendered(d)->Ok_0,
        ),
{
    assert(ds.push(d).drop_last() =~= ds);
}

/// A rendered diagnostic whose span covers several lines holds, after the
/// marker's run and ellipsis, the summary of the lines it covers beyond the
/// first: "+ 1 more line" for one, "+ N more lines" otherwise.
pub proof fn lemma_multi_line_summary(d: Diagnostic)
    requires
        rendered(d) is Ok,
        has_context(d),
        d.span.start.line != d.span.end.line,
    ensures
        ({
            let n = (d.span.end.line - d.span.start.line) as nat;
            let out = rendered(d)->Ok_0;
            &&& exists|k: int| 0 <= k && k + more_lines(n).len() <= out.len()
                && #[trigger] out.subrange(k, k + more_lines(n).len()) == more_lines(n)
            &&& n == 1 ==> more_lines(n) == "<b style='color: #a0da71;'>+ 1 more line</b>"@
            &&& n != 1 ==> more_lines(n) == "<b style='color: #a0da71;'>+ "@ + decimal(n)
                + " more lines</b>"@
        }),
{
    let n = (d.span.end.line - d.span.start.line) as nat;
    let out = rendered(d)->Ok_0;
    let line = start_line(d);
    lemma_more_lines_wording(d.level, d.span.start, d.span.end, line);
    let ml = more_lines(n);
    let m = marker_markup(d.level, d.span.start, d.span.end, line);
    let a = header(d) + previous_part(d) + "<br>"@ + gutter_line(d.span.start.line as nat, line)
        + "<br>"@ + repeat(nbsp(), indent_of(d.span.start.column as nat));
    let rest = next_part(d) + message_part(d);
    assert(out =~= a + m + rest);
    reveal_strlit("</b>");
    assert(m.len() >= 4 + ml.len());
    let k = a.len() + m.len() - 4 - ml.len();
    assert(out.subrange(k, k + ml.len()) =~= m.subrange(m.len() - 4 - ml.len(), m.len() - 4));
}

/// A diagnostic without source text, or with a span of no width, is
/// rendered on the fallback path: label, path, message and notes, with no
/// source line and no marker.
pub proof fn lemma_fallback(d: Diagnostic)
    requires
        d.source@.len() == 0 || d.span.spec_is_empty(),
    ensures
        rendered(d) == Ok::<Seq<char>, RenderError>(fallback_block(d)),
{
}

} // verus!
