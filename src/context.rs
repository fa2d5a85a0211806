//! Splitting a document into lines and picking the lines around a target.

use vstd::prelude::*;
use crate::text::{chars_of, string_of};

verus! {

/// The lines of a text, split at every `'\n'`. There is always at least one
/// line; a text that ends in `'\n'` ends in an empty line.
pub open spec fn lines_of(s: Seq<char>) -> Seq<Seq<char>>
    decreases s.len(),
{
    if s.len() == 0 {
        seq![Seq::empty()]
    } else {
        let p = lines_of(s.drop_last());
        if s.last() == '\n' {
            p.push(Seq::empty())
        } else {
            p.update(p.len() - 1, p.last().push(s.last()))
        }
    }
}

pub proof fn lemma_lines_nonempty(s: Seq<char>)
    ensures
        lines_of(s).len() >= 1,
    decreases s.len(),
{
    if s.len() > 0 {
        lemma_lines_nonempty(s.drop_last());
    }
}

pub open spec fn views_of(v: Seq<Vec<char>>) -> Seq<Seq<char>> {
    v.map_values(|l: Vec<char>| l@)
}

/// Splits `v` into its lines.
pub(crate) fn split_chars(v: &Vec<char>) -> (r: Vec<Vec<char>>)
    ensures
        views_of(r@) == lines_of(v@),
{
    let mut done: Vec<Vec<char>> = Vec::new();
    let mut cur: Vec<char> = Vec::new();
    let mut i: usize = 0;
    proof {
        assert(v@.take(0) =~= Seq::<char>::empty());
        assert(views_of(done@).push(cur@) =~= lines_of(v@.take(0)));
    }
    while i < v.len()
        invariant
            i <= v.len(),
            views_of(done@).push(cur@) == lines_of(v@.take(i as int)),
        decreases v.len() - i,
    {
        let c = v[i];
        proof {
            assert(v@.take(i + 1).drop_last() =~= v@.take(i as int));
            assert(v@.take(i + 1).last() == c);
        }
        if c == '\n' {
            let line = cur;
            cur = Vec::new();
            done.push(line);
            assert(views_of(done@).push(cur@) =~= lines_of(v@.take(i + 1)));
        } else {
            cur.push(c);
            assert(views_of(done@).push(cur@) =~= lines_of(v@.take(i + 1)));
        }
        i = i + 1;
    }
    done.push(cur);
    assert(v@.take(i as int) =~= v@);
    assert(views_of(done@) =~= lines_of(v@));
    done
}

/// The number of lines of a document.
pub fn line_count(text: &str) -> (r: usize)
    ensures
        r == lines_of(text@).len(),
{
    let v = chars_of(text);
    let lines = split_chars(&v);
    lines.len()
}

/// The lines around a target line: the one before it, if any, the target
/// itself and the one after it, if any. The slices are the raw text.
#[derive(Clone, Debug)]
pub struct SourceContext {
    pub previous: Option<String>,
    pub target: String,
    pub next: Option<String>,
}

/// The context of line `line` (counted from 1) of `text`.
pub fn source_context(text: &str, line: usize) -> (r: SourceContext)
    requires
        1 <= line <= lines_of(text@).len(),
    ensures
        r.target@ == lines_of(text@)[line - 1],
        r.previous is Some <==> line > 1,
        r.previous is Some ==> r.previous->0@ == lines_of(text@)[line - 2],
        r.next is Some <==> line < lines_of(text@).len(),
        r.next is Some ==> r.next->0@ == lines_of(text@)[line as int],
{
    let v = chars_of(text);
    let lines = split_chars(&v);
    assert(lines@.len() == lines_of(text@).len());
    let target = string_of(&lines[line - 1]);
    let previous = if line > 1 {
        Some(string_of(&lines[line - 2]))
    } else {
        None
    };
    let next = if line < lines.len() {
        Some(string_of(&lines[line]))
    } else {
        None
    };
    SourceContext { previous, target, next }
}

} // verus!
