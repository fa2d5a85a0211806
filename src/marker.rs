//! The marker line drawn beneath a span, and the line-number gutter it is
//! aligned with.

use vstd::prelude::*;
use crate::diagnostic::{
    color_of, narrow_glyph, style, wide_glyph, DiagnosticLevel, Location, RenderError, Span,
};
use crate::text::{chars_of, decimal, escaped, push_chars, push_decimal, push_escaped, push_repeat, push_str, repeat, string_of};

verus! {

/// Visible width of the gutter printed before a source line: two spaces, a
/// line number right-aligned to three places, a space and a bar. One more
/// space separates it from the text, so column `c` (counted from 1) of the
/// text stands `GUTTER_WIDTH + c` places from the left margin.
pub const GUTTER_WIDTH: usize = 7;

/// Places a line number takes in the gutter.
pub const LINE_NUMBER_WIDTH: usize = 3;

pub open spec fn nbsp() -> Seq<char> {
    "&nbsp;"@
}

/// `s` with its text wrapped in bold markup of the given colour.
pub open spec fn bold(color: Seq<char>, s: Seq<char>) -> Seq<char> {
    "<b style='color: "@ + color + ";'>"@ + s + "</b>"@
}

/// A line number right-aligned to `LINE_NUMBER_WIDTH` places.
pub open spec fn padded_number(n: nat) -> Seq<char> {
    let d = decimal(n);
    if d.len() < LINE_NUMBER_WIDTH {
        repeat(nbsp(), (LINE_NUMBER_WIDTH - d.len()) as nat) + d
    } else {
        d
    }
}

/// Source line number `n` with its gutter; the text is escaped.
pub open spec fn gutter_line(n: nat, line: Seq<char>) -> Seq<char> {
    nbsp() + nbsp() + "<span style='color: #4f5666;'>"@ + padded_number(n)
        + "&nbsp;|</span>&nbsp;"@ + escaped(line)
}

pub(crate) fn push_gutter_line(out: &mut Vec<char>, n: usize, line: &Vec<char>)
    ensures
        final(out)@ == old(out)@ + gutter_line(n as nat, line@),
{
    push_repeat(out, "&nbsp;", 2);
    push_str(out, "<span style='color: #4f5666;'>");
    let mut d: Vec<char> = Vec::new();
    push_decimal(&mut d, n);
    assert(d@ =~= decimal(n as nat));
    if d.len() < LINE_NUMBER_WIDTH {
        push_repeat(out, "&nbsp;", LINE_NUMBER_WIDTH - d.len());
    }
    push_chars(out, &d);
    push_str(out, "&nbsp;|</span>&nbsp;");
    push_escaped(out, line);
    proof {
        reveal_with_fuel(repeat, 3);
    }
    assert(out@ =~= old(out)@ + gutter_line(n as nat, line@));
}

/// Whether a span can be marked under a start line of `line_len`
/// characters: its first column is at least 1 and the indentation fits a
/// `usize`. A span on one line must end after it starts. A span over several
/// lines must end on a later line, and its first column must lie on its
/// first line or just after it, since its run goes from there to the line's
/// end.
pub open spec fn marker_ok(start: Location, end: Location, line_len: nat) -> bool {
    &&& 1 <= start.column
    &&& start.column + GUTTER_WIDTH <= usize::MAX
    &&& if start.line == end.line {
        end.column > start.column
    } else {
        end.line > start.line && start.column <= line_len + 1
    }
}

/// Width of the indentation before a marker that starts at `column`.
pub open spec fn indent_of(column: nat) -> nat {
    (column + GUTTER_WIDTH) as nat
}

/// The summary beneath a span over several lines.
pub open spec fn more_lines(n: nat) -> Seq<char> {
    "<b style='color: #a0da71;'>+ "@ + decimal(n) + (if n == 1 {
        " more line"@
    } else {
        " more lines"@
    }) + "</b>"@
}

/// The marker markup that follows the indentation. A span of one column
/// gets the narrow glyph once; a wider span on one line the wide glyph once
/// per column; a span over several lines the wide glyph up to the end of
/// its first line, an ellipsis, and on the next output line, under the same
/// indentation, how many more lines it covers; all of it in the severity's
/// colour.
pub open spec fn marker_markup(level: DiagnosticLevel, start: Location, end: Location, line: Seq<char>) -> Seq<char> {
    let color = color_of(level);
    if start.line == end.line {
        if end.column == start.column + 1 {
            bold(color, seq![narrow_glyph(level)])
        } else {
            bold(color, repeat(seq![wide_glyph(level)], (end.column - start.column) as nat))
        }
    } else {
        bold(
            color,
            repeat(seq![wide_glyph(level)], (line.len() + 1 - start.column) as nat) + " ..."@
                + "<br>"@ + repeat(nbsp(), indent_of(start.column as nat))
                + more_lines((end.line - start.line) as nat),
        )
    }
}

fn push_summary(out: &mut Vec<char>, start: Location, end: Location)
    requires
        end.line > start.line,
        start.column + GUTTER_WIDTH <= usize::MAX,
    ensures
        final(out)@ == old(out)@ + "<br>"@ + repeat(nbsp(), indent_of(start.column as nat))
            + more_lines((end.line - start.line) as nat),
{
    push_str(out, "<br>");
    push_repeat(out, "&nbsp;", start.column + GUTTER_WIDTH);
    let lines = end.line - start.line;
    push_str(out, "<b style='color: #a0da71;'>+ ");
    push_decimal(out, lines);
    if lines == 1 {
        push_str(out, " more line");
    } else {
        push_str(out, " more lines");
    }
    push_str(out, "</b>");
    assert(out@ =~= old(out)@ + "<br>"@ + repeat(nbsp(), indent_of(start.column as nat))
        + more_lines((end.line - start.line) as nat));
}

pub(crate) fn push_marker(out: &mut Vec<char>, level: DiagnosticLevel, start: Location, end: Location, line: &Vec<char>)
    requires
        marker_ok(start, end, line@.len()),
    ensures
        final(out)@ == old(out)@ + marker_markup(level, start, end, line@),
{
    let st = style(level);
    push_str(out, "<b style='color: ");
    push_str(out, st.color);
    push_str(out, ";'>");
    let ghost mid = out@;
    if start.line == end.line {
        if end.column == start.column + 1 {
            out.push(st.narrow);
        } else {
            let mut g: Vec<char> = Vec::new();
            g.push(st.wide);
            let n = end.column - start.column;
            let mut i: usize = 0;
            while i < n
                invariant
                    i <= n,
                    g@ == seq![wide_glyph(level)],
                    out@ == mid + repeat(g@, i as nat),
                decreases n - i,
            {
                push_chars(out, &g);
                i = i + 1;
            }
        }
        push_str(out, "</b>");
        assert(out@ =~= old(out)@ + marker_markup(level, start, end, line@));
    } else {
        let mut g: Vec<char> = Vec::new();
        g.push(st.wide);
        let n = line.len() - (start.column - 1);
        let mut i: usize = 0;
        while i < n
            invariant
                i <= n,
                g@ == seq![wide_glyph(level)],
                out@ == mid + repeat(g@, i as nat),
            decreases n - i,
        {
            push_chars(out, &g);
            i = i + 1;
        }
        push_str(out, " ...");
        push_summary(out, start, end);
        push_str(out, "</b>");
        assert(out@ =~= mid + (repeat(seq![wide_glyph(level)], (line@.len() + 1 - start.column) as nat)
            + " ..."@ + "<br>"@ + repeat(nbsp(), indent_of(start.column as nat))
            + more_lines((end.line - start.line) as nat)) + "</b>"@);
        assert(out@ =~= old(out)@ + marker_markup(level, start, end, line@));
    }
}

/// A marker ready to be printed: the number of spaces before it, and its
/// markup.
#[derive(Clone, Debug)]
pub struct SpanMarker {
    pub indent: usize,
    pub markup: String,
}

/// Builds the marker for a span from `start` to `end` whose first line has
/// the text `line`. A span that `marker_ok` refuses is malformed: no marker
/// is drawn for it.
pub fn span_marker(level: DiagnosticLevel, start: Location, end: Location, line: &str) -> (r: Result<SpanMarker, RenderError>)
    ensures
        marker_ok(start, end, line@.len()) ==> (r matches Ok(m) && m.indent == indent_of(
            start.column as nat,
        ) && m.markup@ == marker_markup(level, start, end, line@)),
        !marker_ok(start, end, line@.len()) ==> r == Err::<SpanMarker, RenderError>(RenderError::MalformedSpan),
{
    let v = chars_of(line);
    if marker_fits(start, end, &v) {
        let mut out: Vec<char> = Vec::new();
        push_marker(&mut out, level, start, end, &v);
        assert(out@ =~= marker_markup(level, start, end, line@));
        Ok(SpanMarker { indent: start.column + GUTTER_WIDTH, markup: string_of(&out) })
    } else {
        Err(RenderError::MalformedSpan)
    }
}

/// Tests `marker_ok` for a start line held in `line`.
pub(crate) fn marker_fits(start: Location, end: Location, line: &Vec<char>) -> (r: bool)
    ensures
        r == marker_ok(start, end, line@.len()),
{
    if start.column < 1 || start.column > usize::MAX - GUTTER_WIDTH {
        false
    } else if start.line == end.line {
        end.column > start.column
    } else {
        end.line > start.line && start.column - 1 <= line.len()
    }
}

/// `n` copies of one character: `n` characters long, each of them `c`.
pub proof fn lemma_repeat_char(c: char, n: nat)
    ensures
        repeat(seq![c], n).len() == n,
        forall|i: int| 0 <= i < n ==> #[trigger] repeat(seq![c], n)[i] == c,
    decreases n,
{
    if n > 0 {
        lemma_repeat_char(c, (n - 1) as nat);
    }
}

/// A span of one column on one line is marked with the narrow glyph, once.
pub proof fn lemma_single_column_marker(level: DiagnosticLevel, start: Location, end: Location, line: Seq<char>)
    requires
        start.line == end.line,
        end.column - start.column == 1,
    ensures
        marker_markup(level, start, end, line) == bold(color_of(level), seq![narrow_glyph(level)]),
        seq![narrow_glyph(level)].len() == 1,
{
}

/// A span of `k > 1` columns on one line is marked with the wide glyph, `k`
/// times, indented so that it starts under the span's first column.
pub proof fn lemma_underline_marker(level: DiagnosticLevel, start: Location, end: Location, line: Seq<char>)
    requires
        start.line == end.line,
        end.column - start.column > 1,
    ensures
        ({
            let k = end.column - start.column;
            let run = repeat(seq![wide_glyph(level)], k as nat);
            &&& marker_markup(level, start, end, line) == bold(color_of(level), run)
            &&& run.len() == k
            &&& forall|i: int| 0 <= i < k ==> #[trigger] run[i] == wide_glyph(level)
            &&& indent_of(start.column as nat) == start.column + GUTTER_WIDTH
        }),
{
    lemma_repeat_char(wide_glyph(level), (end.column - start.column) as nat);
}

/// A span over several lines ends its marker with a summary of the lines it
/// covers beyond the first: "+ 1 more line" for one, "+ N more lines"
/// otherwise.
pub proof fn lemma_more_lines_wording(level: DiagnosticLevel, start: Location, end: Location, line: Seq<char>)
    requires
        start.line != end.line,
    ensures
        ({
            let n = (end.line - start.line) as nat;
            let m = marker_markup(level, start, end, line);
            &&& m.subrange(m.len() - 4 - more_lines(n).len(), m.len() - 4) == more_lines(n)
            &&& n == 1 ==> more_lines(n) == "<b style='color: #a0da71;'>+ 1 more line</b>"@
            &&& n != 1 ==> more_lines(n) == "<b style='color: #a0da71;'>+ "@ + decimal(n)
                + " more lines</b>"@
        }),
{
    let n = (end.line - start.line) as nat;
    let m = marker_markup(level, start, end, line);
    reveal_strlit("</b>");
    assert(m.subrange(m.len() - 4 - more_lines(n).len(), m.len() - 4) =~= more_lines(n));
    reveal_strlit("<b style='color: #a0da71;'>+ ");
    reveal_strlit(" more line");
    reveal_strlit(" more lines");
    reveal_strlit("</b>");
    reveal_strlit(" more lines</b>");
    reveal_strlit("<b style='color: #a0da71;'>+ 1 more line</b>");
    if n == 1 {
        assert(decimal(1) =~= seq!['1']);
        assert(more_lines(n) =~= "<b style='color: #a0da71;'>+ 1 more line</b>"@);
    } else {
        assert(more_lines(n) =~= "<b style='color: #a0da71;'>+ "@ + decimal(n) + " more lines</b>"@);
    }
}

} // verus!
