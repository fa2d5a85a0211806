//! Character-level building blocks: conversions between `str` and
//! character vectors, repetition, decimal rendering and the text escaper.

use vstd::prelude::*;
use vstd::std_specs::iter::IteratorSpec;

verus! {

/// The characters of `s`, in order.
pub(crate) fn chars_of(s: &str) -> (r: Vec<char>)
    ensures
        r@ == s@,
{
    broadcast use vstd::string::group_string_axioms;
    let mut it = s.chars();
    let mut out: Vec<char> = Vec::new();
    loop
        invariant
            it.obeys_prophetic_iter_laws(),
            out@ + it.remaining() == s@,
            it.decrease() is Some,
        ensures
            out@ == s@,
        decreases it.decrease()->0,
    {
        match it.next() {
            Some(c) => {
                out.push(c);
                assert(out@ + it.remaining() =~= s@);
            },
            None => {
                assert(out@ =~= s@);
                break;
            },
        }
    }
    out
}

/// Relies on `String: FromIterator<&char>`: it concatenates the characters
/// in order.
#[verifier::external_body]
pub(crate) fn string_of(v: &Vec<char>) -> (r: String)
    ensures
        r@ == v@,
{
    String::from_iter(v.iter())
}

/// Appends the characters of `s` to `out`.
pub(crate) fn push_str(out: &mut Vec<char>, s: &str)
    ensures
        final(out)@ == old(out)@ + s@,
{
    let mut cs = chars_of(s);
    out.append(&mut cs);
}

/// Appends the characters of `v` to `out`.
pub(crate) fn push_chars(out: &mut Vec<char>, v: &Vec<char>)
    ensures
        final(out)@ == old(out)@ + v@,
{
    let mut i: usize = 0;
    while i < v.len()
        invariant
            i <= v.len(),
            out@ == old(out)@ + v@.take(i as int),
        decreases v.len() - i,
    {
        out.push(v[i]);
        i = i + 1;
        assert(v@.take(i as int) =~= v@.take((i - 1) as int).push(v@[i - 1]));
    }
    assert(v@.take(i as int) =~= v@);
}

/// `s` written `n` times in a row.
pub open spec fn repeat(s: Seq<char>, n: nat) -> Seq<char>
    decreases n,
{
    if n == 0 {
        Seq::empty()
    } else {
        repeat(s, (n - 1) as nat) + s
    }
}

/// Appends `s` to `out`, `n` times.
pub(crate) fn push_repeat(out: &mut Vec<char>, s: &str, n: usize)
    ensures
        final(out)@ == old(out)@ + repeat(s@, n as nat),
{
    let unit = chars_of(s);
    let mut i: usize = 0;
    while i < n
        invariant
            i <= n,
            unit@ == s@,
            out@ == old(out)@ + repeat(s@, i as nat),
        decreases n - i,
    {
        push_chars(out, &unit);
        i = i + 1;
        assert(out@ =~= old(out)@ + repeat(s@, i as nat));
    }
}

/// The character of a decimal digit.
pub open spec fn digit_char(d: nat) -> char {
    if d == 0 { '0' }
    else if d == 1 { '1' }
    else if d == 2 { '2' }
    else if d == 3 { '3' }
    else if d == 4 { '4' }
    else if d == 5 { '5' }
    else if d == 6 { '6' }
    else if d == 7 { '7' }
    else if d == 8 { '8' }
    else { '9' }
}

/// The decimal notation of `n`, without leading zeros.
pub open spec fn decimal(n: nat) -> Seq<char>
    decreases n,
{
    if n < 10 {
        seq![digit_char(n)]
    } else {
        decimal(n / 10).push(digit_char(n % 10))
    }
}

/// Appends the decimal notation of `n` to `out`.
pub(crate) fn push_decimal(out: &mut Vec<char>, n: usize)
    ensures
        final(out)@ == old(out)@ + decimal(n as nat),
    decreases n,
{
    if n >= 10 {
        push_decimal(out, n / 10);
    }
    let d = n % 10;
    let c = if d == 0 { '0' }
        else if d == 1 { '1' }
        else if d == 2 { '2' }
        else if d == 3 { '3' }
        else if d == 4 { '4' }
        else if d == 5 { '5' }
        else if d == 6 { '6' }
        else if d == 7 { '7' }
        else if d == 8 { '8' }
        else { '9' };
    out.push(c);
    assert(out@ =~= old(out)@ + decimal(n as nat));
}

/// What the escaper writes for one character: markup-significant characters
/// become entities, line breaks a `<br>`, a tab four non-breaking spaces and
/// a space one non-breaking space. Every other character stands for itself.
pub open spec fn escape_char(c: char) -> Seq<char> {
    if c == '&' {
        "&amp;"@
    } else if c == '<' {
        "&lt;"@
    } else if c == '>' {
        "&gt;"@
    } else if c == '\n' {
        "<br>"@
    } else if c == '\t' {
        repeat("&nbsp;"@, 4)
    } else if c == ' ' {
        "&nbsp;"@
    } else {
        seq![c]
    }
}

/// The escaped form of a text: each character replaced by its escape, in
/// order, in one pass. What a replacement inserts is never escaped again.
pub open spec fn escaped(s: Seq<char>) -> Seq<char>
    decreases s.len(),
{
    if s.len() == 0 {
        Seq::empty()
    } else {
        escaped(s.drop_last()) + escape_char(s.last())
    }
}

/// Appends the escaped form of `v` to `out`.
pub(crate) fn push_escaped(out: &mut Vec<char>, v: &Vec<char>)
    ensures
        final(out)@ == old(out)@ + escaped(v@),
{
    let mut i: usize = 0;
    while i < v.len()
        invariant
            i <= v.len(),
            out@ == old(out)@ + escaped(v@.take(i as int)),
        decreases v.len() - i,
    {
        let c = v[i];
        if c == '&' {
            push_str(out, "&amp;");
        } else if c == '<' {
            push_str(out, "&lt;");
        } else if c == '>' {
            push_str(out, "&gt;");
        } else if c == '\n' {
            push_str(out, "<br>");
        } else if c == '\t' {
            push_repeat(out, "&nbsp;", 4);
        } else if c == ' ' {
            push_str(out, "&nbsp;");
        } else {
            out.push(c);
        }
        i = i + 1;
        assert(v@.take(i as int).drop_last() =~= v@.take((i - 1) as int));
        assert(out@ =~= old(out)@ + escaped(v@.take(i as int)));
    }
    assert(v@.take(i as int) =~= v@);
}

/// Whether one of the entities the escaper writes starts at `i` of `t`.
pub open spec fn entity_at(t: Seq<char>, i: int) -> bool {
    ||| (i + 5 <= t.len() && t.subrange(i, i + 5) == "&amp;"@)
    ||| (i + 4 <= t.len() && t.subrange(i, i + 4) == "&lt;"@)
    ||| (i + 4 <= t.len() && t.subrange(i, i + 4) == "&gt;"@)
    ||| (i + 6 <= t.len() && t.subrange(i, i + 6) == "&nbsp;"@)
}

proof fn lemma_entity_shift(p: Seq<char>, t: Seq<char>, i: int)
    requires
        0 <= i,
        entity_at(t, i),
    ensures
        entity_at(p + t, p.len() + i),
        entity_at(t + p, i),
{
    let k = p.len() as int;
    if i + 4 <= t.len() {
        assert((p + t).subrange(k + i, k + i + 4) =~= t.subrange(i, i + 4));
        assert((t + p).subrange(i, i + 4) =~= t.subrange(i, i + 4));
    }
    if i + 5 <= t.len() {
        assert((p + t).subrange(k + i, k + i + 5) =~= t.subrange(i, i + 5));
        assert((t + p).subrange(i, i + 5) =~= t.subrange(i, i + 5));
    }
    if i + 6 <= t.len() {
        assert((p + t).subrange(k + i, k + i + 6) =~= t.subrange(i, i + 6));
        assert((t + p).subrange(i, i + 6) =~= t.subrange(i, i + 6));
    }
}

proof fn lemma_escape_char_entities(c: char)
    ensures
        forall|j: int| 0 <= j < escape_char(c).len() && #[trigger] escape_char(c)[j] == '&'
            ==> entity_at(escape_char(c), j),
{
    reveal_strlit("&amp;");
    reveal_strlit("&lt;");
    reveal_strlit("&gt;");
    reveal_strlit("<br>");
    reveal_strlit("&nbsp;");
    let e = escape_char(c);
    if c == '&' {
        assert(e.subrange(0, 5) =~= "&amp;"@);
    } else if c == '<' {
        assert(e.subrange(0, 4) =~= "&lt;"@);
    } else if c == '>' {
        assert(e.subrange(0, 4) =~= "&gt;"@);
    } else if c == '\t' {
        let n = "&nbsp;"@;
        reveal_with_fuel(repeat, 5);
        assert(e =~= n + n + n + n);
        assert(e.subrange(0, 6) =~= n);
        assert(e.subrange(6, 12) =~= n);
        assert(e.subrange(12, 18) =~= n);
        assert(e.subrange(18, 24) =~= n);
        assert forall|j: int| 0 <= j < e.len() && #[trigger] e[j] == '&' implies entity_at(e, j) by {
            assert(j == 0 || j == 6 || j == 12 || j == 18);
        }
    } else if c == ' ' {
        assert(e.subrange(0, 6) =~= "&nbsp;"@);
    }
}

/// No bare ampersand survives escaping: every `&` of an escaped text begins
/// one of the entities `&amp;`, `&lt;`, `&gt;` or `&nbsp;`.
pub proof fn lemma_ampersands_begin_entities(s: Seq<char>)
    ensures
        forall|i: int| 0 <= i < escaped(s).len() && #[trigger] escaped(s)[i] == '&'
            ==> entity_at(escaped(s), i),
    decreases s.len(),
{
    if s.len() > 0 {
        let p = escaped(s.drop_last());
        let e = escape_char(s.last());
        lemma_ampersands_begin_entities(s.drop_last());
        lemma_escape_char_entities(s.last());
        assert forall|i: int| 0 <= i < escaped(s).len() && #[trigger] escaped(s)[i] == '&'
            implies entity_at(escaped(s), i) by {
            if i < p.len() {
                assert(p[i] == '&');
                lemma_entity_shift(e, p, i);
            } else {
                assert(e[i - p.len()] == '&');
                lemma_entity_shift(p, e, i - p.len());
            }
        }
    }
}

proof fn lemma_break_shift(p: Seq<char>, t: Seq<char>, i: int)
    requires
        0 <= i,
        i + 4 <= t.len(),
        t.subrange(i, i + 4) == "<br>"@,
    ensures
        (p + t).subrange(p.len() + i, p.len() + i + 4) == "<br>"@,
        (t + p).subrange(i, i + 4) == "<br>"@,
{
    assert((p + t).subrange(p.len() + i, p.len() + i + 4) =~= t.subrange(i, i + 4));
    assert((t + p).subrange(i, i + 4) =~= t.subrange(i, i + 4));
}

/// The only `<` in an escaped text is the one of a `<br>` written for a
/// line break; `<` and `>` of the text itself became entities.
pub proof fn lemma_brackets_only_in_breaks(s: Seq<char>)
    ensures
        forall|i: int| 0 <= i < escaped(s).len() && #[trigger] escaped(s)[i] == '<'
            ==> i + 4 <= escaped(s).len() && escaped(s).subrange(i, i + 4) == "<br>"@,
    decreases s.len(),
{
    if s.len() > 0 {
        let p = escaped(s.drop_last());
        let c = s.last();
        let e = escape_char(c);
        lemma_brackets_only_in_breaks(s.drop_last());
        reveal_strlit("&amp;");
        reveal_strlit("&lt;");
        reveal_strlit("&gt;");
        reveal_strlit("<br>");
        reveal_strlit("&nbsp;");
        if c == '\t' {
            reveal_with_fuel(repeat, 5);
            assert(e =~= "&nbsp;"@ + "&nbsp;"@ + "&nbsp;"@ + "&nbsp;"@);
        }
        assert forall|i: int| 0 <= i < escaped(s).len() && #[trigger] escaped(s)[i] == '<'
            implies i + 4 <= escaped(s).len() && escaped(s).subrange(i, i + 4) == "<br>"@ by {
            if i < p.len() {
                assert(p[i] == '<');
                lemma_break_shift(e, p, i);
            } else {
                assert(e[i - p.len()] == '<');
                assert(c == '\n' && i == p.len());
                assert(e.subrange(0, 4) =~= e);
                lemma_break_shift(p, e, 0);
            }
        }
    }
}

/// The characters the escaper replaces.
pub open spec fn is_special(c: char) -> bool {
    c == '&' || c == '<' || c == '>' || c == '\n' || c == '\t' || c == ' '
}

proof fn lemma_escape_char_shape(c: char)
    ensures
        escape_char(c).len() >= 1,
        is_special(c) ==> escape_char(c).len() >= 4 && (escape_char(c)[0] == '&' || escape_char(c)[0] == '<'),
        !is_special(c) ==> escape_char(c) == seq![c],
        forall|j: int| 0 <= j < escape_char(c).len() ==> {
            let x = #[trigger] escape_char(c)[j];
            &&& x != ' ' && x != '\t' && x != '\n'
            &&& x == '>' ==> j == 3 && escape_char(c) == "<br>"@
        },
{
    reveal_strlit("&amp;");
    reveal_strlit("&lt;");
    reveal_strlit("&gt;");
    reveal_strlit("<br>");
    reveal_strlit("&nbsp;");
    if c == '\t' {
        reveal_with_fuel(repeat, 5);
        assert(escape_char(c) =~= "&nbsp;"@ + "&nbsp;"@ + "&nbsp;"@ + "&nbsp;"@);
    }
}

/// Escaped text holds no raw space, tab or line break, and its only `>`
/// closes a `<br>` written for a line break.
pub proof fn lemma_no_raw_whitespace(s: Seq<char>)
    ensures
        forall|i: int| 0 <= i < escaped(s).len() ==> {
            let x = #[trigger] escaped(s)[i];
            &&& x != ' ' && x != '\t' && x != '\n'
            &&& x == '>' ==> 3 <= i && escaped(s).subrange(i - 3, i + 1) == "<br>"@
        },
    decreases s.len(),
{
    if s.len() > 0 {
        let p = escaped(s.drop_last());
        let e = escape_char(s.last());
        lemma_no_raw_whitespace(s.drop_last());
        lemma_escape_char_shape(s.last());
        assert forall|i: int| 0 <= i < escaped(s).len() implies {
            let x = #[trigger] escaped(s)[i];
            &&& x != ' ' && x != '\t' && x != '\n'
            &&& x == '>' ==> 3 <= i && escaped(s).subrange(i - 3, i + 1) == "<br>"@
        } by {
            if i < p.len() {
                assert(escaped(s)[i] == p[i]);
                if p[i] == '>' {
                    assert(escaped(s).subrange(i - 3, i + 1) =~= p.subrange(i - 3, i + 1));
                }
            } else {
                assert(escaped(s)[i] == e[i - p.len()]);
                if e[i - p.len()] == '>' {
                    reveal_strlit("<br>");
                    assert(i - p.len() == 3 && e.len() == 4);
                    assert(escaped(s).subrange(i - 3, i + 1) =~= e);
                }
            }
        }
    }
}

/// Text without any character the escaper replaces is left as it is.
pub proof fn lemma_plain_text_unchanged(s: Seq<char>)
    requires
        forall|i: int| 0 <= i < s.len() ==> !is_special(#[trigger] s[i]),
    ensures
        escaped(s) == s,
    decreases s.len(),
{
    if s.len() > 0 {
        assert(!is_special(s[s.len() - 1]));
        lemma_plain_text_unchanged(s.drop_last());
        lemma_escape_char_shape(s.last());
        assert(escaped(s) =~= s);
    }
}

proof fn lemma_escaped_grows(s: Seq<char>)
    ensures
        escaped(s).len() >= s.len(),
        (exists|i: int| 0 <= i < s.len() && is_special(#[trigger] s[i])) ==> (escaped(s).len() > s.len()
            && exists|j: int| 0 <= j < escaped(s).len() && is_special(#[trigger] escaped(s)[j])),
    decreases s.len(),
{
    if s.len() > 0 {
        let q = s.drop_last();
        let p = escaped(q);
        let e = escape_char(s.last());
        lemma_escaped_grows(q);
        lemma_escape_char_shape(s.last());
        if exists|i: int| 0 <= i < s.len() && is_special(#[trigger] s[i]) {
            if is_special(s.last()) {
                assert(escaped(s)[p.len() as int] == e[0]);
                assert(is_special(escaped(s)[p.len() as int]));
            } else {
                let i = choose|i: int| 0 <= i < s.len() && is_special(#[trigger] s[i]);
                assert(i < q.len());
                assert(is_special(q[i]));
                let j = choose|j: int| 0 <= j < p.len() && is_special(#[trigger] p[j]);
                assert(escaped(s)[j] == p[j]);
            }
        }
    }
}

/// Escaping is meant to run once: on text with a character it replaces,
/// a second run changes the result again.
pub proof fn lemma_escape_twice_differs(s: Seq<char>)
    requires
        exists|i: int| 0 <= i < s.len() && is_special(#[trigger] s[i]),
    ensures
        escaped(escaped(s)) != escaped(s),
{
    lemma_escaped_grows(s);
    lemma_escaped_grows(escaped(s));
}

/// Makes a text safe to embed in the markup: `&`, `<` and `>` become
/// entities, line breaks become `<br>`, a tab four non-breaking spaces and a
/// space one. Used for program output and for source lines alike.
pub fn escape(text: &str) -> (r: String)
    ensures
        r@ == escaped(text@),
{
    let v = chars_of(text);
    let mut out: Vec<char> = Vec::new();
    push_escaped(&mut out, &v);
    assert(out@ =~= escaped(text@));
    string_of(&out)
}

} // verus!
