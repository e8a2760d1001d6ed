//! Compilation of a pattern into the text of a regular expression.
//!
//! A path is a sequence of segments separated by `/`. In a pattern, `*`
//! stands for any run of characters inside one segment, `**` for any number
//! of whole segments (none included), a backslash makes the next character a
//! literal, and every other character stands for itself.

use vstd::prelude::*;
use vstd::string::*;
use crate::engine::{escape, escaped};
use crate::text::collect_chars;

verus! {

/// Any run of characters within one segment: what `*` compiles to.
pub open spec fn segment_run() -> Seq<char> {
    "[^/]*"@
}

/// Any number of whole segments, each followed by its separator: what a `**/`
/// compiles to.
pub open spec fn leading_segments() -> Seq<char> {
    "(?:[^/]*/)*"@
}

/// Any number of whole segments, each behind its separator: what a `/**` at
/// the end of a pattern compiles to.
pub open spec fn trailing_segments() -> Seq<char> {
    "(?:/[^/]*)*"@
}

/// Any path at all: what a `**` that is not followed by `/` compiles to.
pub open spec fn any_path() -> Seq<char> {
    "(?s:.*)"@
}

/// Whether a `/**` that ends the pattern starts at `i`.
pub open spec fn trailing_globstar_at(p: Seq<char>, i: int) -> bool {
    0 <= i && i + 3 == p.len() && p[i] == '/' && p[i + 1] == '*' && p[i + 2] == '*'
}

/// The regular expression for the part of the pattern from offset `i` on.
pub open spec fn regex_from(p: Seq<char>, i: int) -> Seq<char>
    decreases p.len() + 3 - i,
{
    if i < 0 || i >= p.len() {
        Seq::empty()
    } else if p[i] == '\\' {
        if i + 1 < p.len() {
            escaped(p[i + 1]) + regex_from(p, i + 2)
        } else {
            Seq::empty()
        }
    } else if p[i] == '*' {
        if i + 1 < p.len() && p[i + 1] == '*' {
            if i + 2 < p.len() && p[i + 2] == '/' {
                leading_segments() + regex_from(p, i + 3)
            } else {
                any_path() + regex_from(p, i + 2)
            }
        } else {
            segment_run() + regex_from(p, i + 1)
        }
    } else if trailing_globstar_at(p, i) {
        trailing_segments()
    } else {
        escaped(p[i]) + regex_from(p, i + 1)
    }
}

/// The regular expression that matches inside a path what the pattern
/// describes.
pub open spec fn glob_regex(p: Seq<char>) -> Seq<char> {
    regex_from(p, 0)
}

/// The regular expression that matches exactly the paths that the pattern
/// describes: `glob_regex` between the anchors `^` and `$`.
pub open spec fn anchored_regex(p: Seq<char>) -> Seq<char> {
    "^"@ + glob_regex(p) + "$"@
}

/// Compiles a pattern, without its leading `!`, into a regular expression.
pub fn glob_to_regex(pattern: &str) -> (regex: String)
    ensures
        regex@ == glob_regex(pattern@),
{
    let p = collect_chars(pattern);
    let n = p.len();
    let mut out = String::new();
    let mut i: usize = 0;
    while i < n
        invariant
            n == p@.len(),
            i <= n,
            out@ + regex_from(p@, i as int) == glob_regex(p@),
        decreases n - i,
    {
        let ghost before = out@;
        let ghost rest = regex_from(p@, i as int);
        let c = p[i];
        if c == '\\' {
            if i + 1 < n {
                let literal = escape(p[i + 1]);
                out.append(literal.as_str());
                assert(out@ + regex_from(p@, i + 2) == before + rest) by {
                    assert(out@ + regex_from(p@, i + 2) =~= before + (escaped(p@[i + 1])
                        + regex_from(p@, i + 2)));
                }
                i = i + 2;
            } else {
                assert(regex_from(p@, n as int) == rest);
                i = n;
            }
        } else if c == '*' {
            if i + 1 < n && p[i + 1] == '*' {
                if i + 2 < n && p[i + 2] == '/' {
                    out.append("(?:[^/]*/)*");
                    assert(out@ + regex_from(p@, i + 3) == before + rest) by {
                        assert(out@ + regex_from(p@, i + 3) =~= before + (leading_segments()
                            + regex_from(p@, i + 3)));
                    }
                    i = i + 3;
                } else {
                    out.append("(?s:.*)");
                    assert(out@ + regex_from(p@, i + 2) == before + rest) by {
                        assert(out@ + regex_from(p@, i + 2) =~= before + (any_path()
                            + regex_from(p@, i + 2)));
                    }
                    i = i + 2;
                }
            } else {
                out.append("[^/]*");
                assert(out@ + regex_from(p@, i + 1) == before + rest) by {
                    assert(out@ + regex_from(p@, i + 1) =~= before + (segment_run()
                        + regex_from(p@, i + 1)));
                }
                i = i + 1;
            }
        } else if c == '/' && n - i == 3 && p[i + 1] == '*' && p[i + 2] == '*' {
            out.append("(?:/[^/]*)*");
            assert(trailing_globstar_at(p@, i as int));
            assert(out@ + regex_from(p@, n as int) == before + rest) by {
                assert(out@ + regex_from(p@, n as int) =~= before + trailing_segments());
            }
            i = n;
        } else {
            let literal = escape(c);
            out.append(literal.as_str());
            assert(!trailing_globstar_at(p@, i as int));
            assert(out@ + regex_from(p@, i + 1) == before + rest) by {
                assert(out@ + regex_from(p@, i + 1) =~= before + (escaped(c) + regex_from(
                    p@,
                    i + 1,
                )));
            }
            i = i + 1;
        }
    }
    assert(out@ =~= out@ + regex_from(p@, n as int));
    out
}

/// Compiles a pattern into the anchored regular expression that is handed
/// to the engine.
pub fn glob_to_anchored_regex(pattern: &str) -> (regex: String)
    ensures
        regex@ == anchored_regex(pattern@),
{
    let mut out = String::from_str("^");
    let body = glob_to_regex(pattern);
    out.append(body.as_str());
    out.append("$");
    out
}

/// The characters of a text, each made a literal of a regular expression.
pub open spec fn escaped_text(s: Seq<char>) -> Seq<char>
    decreases s.len(),
{
    if s.len() == 0 {
        Seq::empty()
    } else {
        escaped(s[0]) + escaped_text(s.drop_first())
    }
}

/// Whether a character has a meaning of its own in a pattern: `*`, `\`
/// or `/`.
pub open spec fn is_pattern_mark(c: char) -> bool {
    c == '*' || c == '\\' || c == '/'
}

proof fn lemma_plain_tail_compiles_literally(p: Seq<char>, i: int)
    requires
        0 <= i <= p.len(),
        forall|k: int| 0 <= k < p.len() ==> !is_pattern_mark(#[trigger] p[k]),
    ensures
        regex_from(p, i) == escaped_text(p.skip(i)),
    decreases p.len() - i,
{
    if i < p.len() {
        assert(!is_pattern_mark(p[i]));
        assert(p.skip(i).drop_first() =~= p.skip(i + 1));
        lemma_plain_tail_compiles_literally(p, i + 1);
    }
}

/// A pattern without `*`, `\` and `/` compiles to the expression that
/// matches its characters one by one, and nothing else.
pub proof fn law_plain_pattern_compiles_literally(p: Seq<char>)
    requires
        forall|k: int| 0 <= k < p.len() ==> !is_pattern_mark(#[trigger] p[k]),
    ensures
        glob_regex(p) == escaped_text(p),
{
    lemma_plain_tail_compiles_literally(p, 0);
    assert(p.skip(0) =~= p);
}

/// A `*` between two plain texts compiles to a run within one segment,
/// between the literals of the two texts.
pub proof fn law_star_compiles_to_a_segment_run(before: Seq<char>, after: Seq<char>)
    requires
        forall|k: int| 0 <= k < before.len() ==> !is_pattern_mark(#[trigger] before[k]),
        forall|k: int| 0 <= k < after.len() ==> !is_pattern_mark(#[trigger] after[k]),
    ensures
        glob_regex(before + seq!['*'] + after) == escaped_text(before) + segment_run()
            + escaped_text(after),
{
    let p = before + seq!['*'] + after;
    lemma_star_tail(before, after, 0);
    assert(before.skip(0) =~= before);
}

proof fn lemma_star_tail(before: Seq<char>, after: Seq<char>, i: int)
    requires
        0 <= i <= before.len(),
        forall|k: int| 0 <= k < before.len() ==> !is_pattern_mark(#[trigger] before[k]),
        forall|k: int| 0 <= k < after.len() ==> !is_pattern_mark(#[trigger] after[k]),
    ensures
        regex_from(before + seq!['*'] + after, i) == escaped_text(before.skip(i)) + segment_run()
            + escaped_text(after),
    decreases before.len() - i,
{
    let p = before + seq!['*'] + after;
    if i < before.len() {
        assert(p[i] == before[i]);
        assert(!is_pattern_mark(before[i]));
        assert(before.skip(i).drop_first() =~= before.skip(i + 1));
        lemma_star_tail(before, after, i + 1);
        assert(regex_from(p, i) =~= escaped(p[i]) + regex_from(p, i + 1));
        assert(regex_from(p, i) =~= escaped_text(before.skip(i)) + segment_run() + escaped_text(
            after,
        ));
    } else {
        assert(p[i] == '*');
        if after.len() > 0 {
            assert(p[i + 1] == after[0]);
            assert(!is_pattern_mark(after[0]));
        }
        lemma_after_tail(before, after, 0);
        assert(after.skip(0) =~= after);
        assert(before.skip(i) =~= Seq::<char>::empty());
        assert(regex_from(p, i) =~= segment_run() + regex_from(p, i + 1));
        assert(regex_from(p, i) =~= escaped_text(before.skip(i)) + segment_run() + escaped_text(
            after,
        ));
    }
}

proof fn lemma_after_tail(before: Seq<char>, after: Seq<char>, j: int)
    requires
        0 <= j <= after.len(),
        forall|k: int| 0 <= k < after.len() ==> !is_pattern_mark(#[trigger] after[k]),
    ensures
        regex_from(before + seq!['*'] + after, before.len() + 1 + j) == escaped_text(
            after.skip(j),
        ),
    decreases after.len() - j,
{
    let p = before + seq!['*'] + after;
    let i = before.len() + 1 + j;
    if j < after.len() {
        assert(p[i] == after[j]);
        assert(!is_pattern_mark(after[j]));
        assert(after.skip(j).drop_first() =~= after.skip(j + 1));
        lemma_after_tail(before, after, j + 1);
    }
}

/// Whether a character is a wildcard or an escape in a pattern: `*` or `\`.
pub open spec fn is_wildcard_mark(c: char) -> bool {
    c == '*' || c == '\\'
}

/// The text `**/`.
pub open spec fn globstar_and_separator() -> Seq<char> {
    seq!['*', '*', '/']
}

/// The text `/**`.
pub open spec fn separator_and_globstar() -> Seq<char> {
    seq!['/', '*', '*']
}

/// What stands behind a part of a pattern compiles as it does by itself:
/// the compiler only ever looks ahead.
proof fn lemma_tail_compiles_alone(front: Seq<char>, rest: Seq<char>, j: int)
    requires
        0 <= j <= rest.len(),
    ensures
        regex_from(front + rest, front.len() + j) == regex_from(rest, j),
    decreases rest.len() - j,
{
    let p = front + rest;
    let i = front.len() + j;
    if j < rest.len() {
        assert(p[i] == rest[j]);
        if j + 1 < rest.len() {
            assert(p[i + 1] == rest[j + 1]);
        }
        if j + 2 < rest.len() {
            assert(p[i + 2] == rest[j + 2]);
        }
        assert(trailing_globstar_at(p, i) == trailing_globstar_at(rest, j));
        // a token is one, two or three characters long
        lemma_tail_compiles_alone(front, rest, j + 1);
        if j + 2 <= rest.len() {
            lemma_tail_compiles_alone(front, rest, j + 2);
        }
        if j + 3 <= rest.len() {
            lemma_tail_compiles_alone(front, rest, j + 3);
        }
    }
}

/// A text without wildcards and escapes, in front of a part of three
/// characters or more, compiles to its own characters, followed by what the
/// part compiles to: no separator of the text can open a `/**` that ends the
/// pattern.
proof fn lemma_literal_front(front: Seq<char>, rest: Seq<char>, i: int)
    requires
        0 <= i <= front.len(),
        forall|k: int| 0 <= k < front.len() ==> !is_wildcard_mark(#[trigger] front[k]),
        rest.len() >= 3,
    ensures
        regex_from(front + rest, i) == escaped_text(front.skip(i)) + regex_from(
            front + rest,
            front.len() as int,
        ),
    decreases front.len() - i,
{
    let p = front + rest;
    if i < front.len() {
        assert(p[i] == front[i]);
        assert(!is_wildcard_mark(front[i]));
        assert(!trailing_globstar_at(p, i));
        assert(front.skip(i).drop_first() =~= front.skip(i + 1));
        lemma_literal_front(front, rest, i + 1);
        assert(regex_from(p, i) =~= escaped(p[i]) + regex_from(p, i + 1));
        assert(regex_from(p, i) =~= escaped_text(front.skip(i)) + regex_from(
            p,
            front.len() as int,
        ));
    } else {
        assert(front.skip(i) =~= Seq::<char>::empty());
        assert(regex_from(p, i) =~= escaped_text(front.skip(i)) + regex_from(p, i));
    }
}

/// The pattern `**` compiles to the expression of any path at all.
pub proof fn law_globstar_alone_compiles_to_any_path()
    ensures
        glob_regex(seq!['*', '*']) == any_path(),
{
    let p = seq!['*', '*'];
    assert(regex_from(p, 2) =~= Seq::<char>::empty());
    assert(regex_from(p, 0) =~= any_path() + regex_from(p, 2));
}

/// A `**/` at the start of a pattern compiles to any number of whole
/// segments, none included, each with its separator, followed by what the
/// rest of the pattern compiles to.
pub proof fn law_leading_globstar_compiles_to_segments(rest: Seq<char>)
    ensures
        glob_regex(globstar_and_separator() + rest) == leading_segments() + glob_regex(rest),
{
    let p = globstar_and_separator() + rest;
    assert(p[0] == '*' && p[1] == '*' && p[2] == '/');
    lemma_tail_compiles_alone(globstar_and_separator(), rest, 0);
    assert(regex_from(p, 0) == leading_segments() + regex_from(p, 3));
}

/// A `/**/` behind a text without wildcards compiles to one separator and
/// then any number of whole segments, none included, each with its
/// separator: the text in front and what follows may stand in neighbouring
/// segments, or any number of segments apart.
pub proof fn law_inner_globstar_compiles_to_segments(front: Seq<char>, rest: Seq<char>)
    requires
        forall|k: int| 0 <= k < front.len() ==> !is_wildcard_mark(#[trigger] front[k]),
    ensures
        glob_regex(front + seq!['/'] + globstar_and_separator() + rest) == escaped_text(front)
            + seq!['/'] + leading_segments() + glob_regex(rest),
{
    let head = front + seq!['/'];
    let tail = globstar_and_separator() + rest;
    let p = head + tail;
    assert(p =~= front + seq!['/'] + globstar_and_separator() + rest);
    assert forall|k: int| 0 <= k < head.len() implies !is_wildcard_mark(#[trigger] head[k]) by {
        if k < front.len() {
            assert(head[k] == front[k]);
            assert(!is_wildcard_mark(front[k]));
        }
    }
    lemma_literal_front(head, tail, 0);
    assert(head.skip(0) =~= head);
    lemma_escaped_text_of_parts(front, seq!['/']);
    assert(escaped_text(seq!['/']) =~= seq!['/']) by {
        assert(seq!['/'].drop_first() =~= Seq::<char>::empty());
        assert(escaped_text(seq!['/']) =~= escaped('/') + escaped_text(Seq::<char>::empty()));
    }
    lemma_tail_compiles_alone(head, tail, 0);
    law_leading_globstar_compiles_to_segments(rest);
    assert(regex_from(p, 0) =~= escaped_text(front) + seq!['/'] + leading_segments() + glob_regex(
        rest,
    ));
}

/// A `/**` at the end of a pattern, behind a text without wildcards,
/// compiles to any number of whole segments, none included, each behind its
/// separator: the text in front matches by itself, and with anything below
/// it.
pub proof fn law_trailing_globstar_compiles_to_segments(front: Seq<char>)
    requires
        forall|k: int| 0 <= k < front.len() ==> !is_wildcard_mark(#[trigger] front[k]),
    ensures
        glob_regex(front + separator_and_globstar()) == escaped_text(front) + trailing_segments(),
{
    let p = front + separator_and_globstar();
    let n = front.len() as int;
    lemma_literal_front(front, separator_and_globstar(), 0);
    assert(front.skip(0) =~= front);
    assert(p[n] == '/' && p[n + 1] == '*' && p[n + 2] == '*');
    assert(trailing_globstar_at(p, n));
    assert(regex_from(p, n) == trailing_segments());
}

/// The literals of two texts, one after the other, are the literals of the
/// two texts put together.
proof fn lemma_escaped_text_of_parts(a: Seq<char>, b: Seq<char>)
    ensures
        escaped_text(a + b) == escaped_text(a) + escaped_text(b),
    decreases a.len(),
{
    if a.len() == 0 {
        assert(a + b =~= b);
        assert(escaped_text(a) + escaped_text(b) =~= escaped_text(b));
    } else {
        assert((a + b)[0] == a[0]);
        assert((a + b).drop_first() =~= a.drop_first() + b);
        lemma_escaped_text_of_parts(a.drop_first(), b);
        assert(escaped_text(a + b) =~= escaped(a[0]) + (escaped_text(a.drop_first())
            + escaped_text(b)));
    }
}

} // verus!
