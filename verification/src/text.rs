//! Texts as sequences of characters: lines, separators, blanks.

use vstd::prelude::*;
use vstd::string::*;

verus! {

/// Whether a character is white space: the answer of `char::is_whitespace`.
pub uninterp spec fn char_is_whitespace(c: char) -> bool;

/// `char::is_whitespace`: whether the character has the Unicode property
/// White_Space. The contract names the answer.
#[verifier::external_body]
pub(crate) fn is_whitespace(c: char) -> (b: bool)
    ensures
        b == char_is_whitespace(c),
{
    c.is_whitespace()
}

/// `String::from_iter`, on a slice of characters: the string that holds
/// those characters, in order.
#[verifier::external_body]
pub(crate) fn string_from_chars(chars: &[char]) -> (s: String)
    ensures
        s@ == chars@,
{
    String::from_iter(chars)
}

/// The characters of a string, in order.
pub fn collect_chars(s: &str) -> (v: Vec<char>)
    ensures
        v@ == s@,
{
    let mut v: Vec<char> = Vec::new();
    for c in it: s.chars()
        invariant
            v@ == it.seq().take(it.index() as int),
            it.seq() == s@,
    {
        v.push(c);
    }
    v
}

/// A line feed.
pub open spec fn lf() -> Seq<char> {
    seq!['\n']
}

/// A carriage return and a line feed.
pub open spec fn crlf() -> Seq<char> {
    seq!['\r', '\n']
}

/// Whether a text holds white space only. The empty text does.
pub open spec fn is_blank(s: Seq<char>) -> bool {
    forall|i: int| 0 <= i < s.len() ==> char_is_whitespace(#[trigger] s[i])
}

/// Whether a text holds white space only.
pub fn blank(s: &[char]) -> (b: bool)
    ensures
        b == is_blank(s@),
{
    let mut i: usize = 0;
    while i < s.len()
        invariant
            i <= s@.len(),
            forall|j: int| 0 <= j < i ==> char_is_whitespace(#[trigger] s@[j]),
        decreases s@.len() - i,
    {
        if !is_whitespace(s[i]) {
            return false;
        }
        i = i + 1;
    }
    true
}

/// The offset of the first character from `i` on that is not white space,
/// or the length of the text where there is none.
pub open spec fn first_non_blank(s: Seq<char>, i: int) -> int
    decreases s.len() - i,
{
    if i < 0 || i >= s.len() {
        s.len() as int
    } else if !char_is_whitespace(s[i]) {
        i
    } else {
        first_non_blank(s, i + 1)
    }
}

/// The offset behind the last character before `j` that is not white space,
/// or 0 where there is none.
pub open spec fn last_non_blank(s: Seq<char>, j: int) -> int
    decreases j,
{
    if j <= 0 || j > s.len() {
        0
    } else if !char_is_whitespace(s[j - 1]) {
        j
    } else {
        last_non_blank(s, j - 1)
    }
}

/// A text without the white space at its start and at its end.
pub open spec fn trimmed(s: Seq<char>) -> Seq<char> {
    let from = first_non_blank(s, 0);
    let to = last_non_blank(s, s.len() as int);
    if from < to {
        s.subrange(from, to)
    } else {
        Seq::empty()
    }
}

/// Removes the white space at the start and at the end of a text.
pub fn trim(s: &[char]) -> (out: Vec<char>)
    ensures
        out@ == trimmed(s@),
{
    let n = s.len();
    let mut from: usize = 0;
    while from < n && is_whitespace(s[from])
        invariant
            from <= n,
            n == s@.len(),
            first_non_blank(s@, 0) == first_non_blank(s@, from as int),
        decreases n - from,
    {
        from = from + 1;
    }
    let mut to: usize = n;
    while to > 0 && is_whitespace(s[to - 1])
        invariant
            to <= n,
            n == s@.len(),
            last_non_blank(s@, n as int) == last_non_blank(s@, to as int),
        decreases to,
    {
        to = to - 1;
    }
    if from < to {
        copy_range(s, from, to)
    } else {
        Vec::new()
    }
}

/// Whether two strings hold the same text.
pub fn same_str(a: &str, b: &str) -> (same: bool)
    ensures
        same == (a@ == b@),
{
    let x = collect_chars(a);
    let y = collect_chars(b);
    same_text(x.as_slice(), y.as_slice())
}

/// Whether `part` stands in `s` at offset `i`.
pub open spec fn occurs_at(s: Seq<char>, part: Seq<char>, i: int) -> bool {
    0 <= i && i + part.len() <= s.len() && s.subrange(i, i + part.len()) == part
}

/// Whether `part` stands somewhere in `s`.
pub open spec fn contains_text(s: Seq<char>, part: Seq<char>) -> bool {
    exists|i: int| occurs_at(s, part, i)
}

/// Whether `part` stands in `s` at offset `i`.
pub fn found_at(s: &[char], part: &[char], i: usize) -> (b: bool)
    ensures
        b == occurs_at(s@, part@, i as int),
{
    if part.len() > s.len() || i > s.len() - part.len() {
        return false;
    }
    let n = s.len();
    let mut j: usize = 0;
    while j < part.len()
        invariant
            j <= part@.len(),
            n == s@.len(),
            i + part@.len() <= s@.len(),
            forall|k: int| 0 <= k < j ==> s@[i + k] == part@[k],
        decreases part@.len() - j,
    {
        if s[i + j] != part[j] {
            assert(s@.subrange(i as int, i + part@.len())[j as int] != part@[j as int]);
            return false;
        }
        j = j + 1;
    }
    assert(s@.subrange(i as int, i + part@.len()) =~= part@);
    true
}

/// Whether `part` stands somewhere in `s`.
pub fn contains(s: &[char], part: &[char]) -> (b: bool)
    ensures
        b == contains_text(s@, part@),
{
    let n = s.len();
    let mut i: usize = 0;
    while i < n
        invariant
            i <= n,
            n == s@.len(),
            forall|k: int| 0 <= k < i ==> !occurs_at(s@, part@, k),
        decreases n - i,
    {
        if found_at(s, part, i) {
            return true;
        }
        i = i + 1;
    }
    if found_at(s, part, n) {
        return true;
    }
    assert forall|k: int| !occurs_at(s@, part@, k) by {
        if 0 <= k <= s@.len() {
            assert(!occurs_at(s@, part@, k));
        }
    }
    false
}

/// The pieces of `s` between the occurrences of the separator, found from
/// the left: `start` is where the piece at hand begins, and `i` is how far
/// the search has come.
pub open spec fn split_from(s: Seq<char>, sep: Seq<char>, start: int, i: int) -> Seq<Seq<char>>
    recommends
        sep.len() > 0,
        0 <= start <= i,
    decreases s.len() - i,
{
    if i < 0 || start < 0 || start > i || i > s.len() || sep.len() == 0 {
        Seq::empty()
    } else if i + sep.len() > s.len() {
        seq![s.subrange(start, s.len() as int)]
    } else if occurs_at(s, sep, i) {
        seq![s.subrange(start, i)] + split_from(s, sep, i + sep.len(), i + sep.len())
    } else {
        split_from(s, sep, start, i + 1)
    }
}

/// The pieces of `s` between the occurrences of the separator. There is
/// always at least one piece; with an empty separator, the text is its only
/// piece.
pub open spec fn split_text(s: Seq<char>, sep: Seq<char>) -> Seq<Seq<char>> {
    if sep.len() == 0 {
        seq![s]
    } else {
        split_from(s, sep, 0, 0)
    }
}

/// A copy of the characters of `s` from `from` up to `to`.
pub fn copy_range(s: &[char], from: usize, to: usize) -> (v: Vec<char>)
    requires
        from <= to <= s@.len(),
    ensures
        v@ == s@.subrange(from as int, to as int),
{
    let mut v: Vec<char> = Vec::new();
    let mut i: usize = from;
    while i < to
        invariant
            from <= i <= to <= s@.len(),
            v@ == s@.subrange(from as int, i as int),
        decreases to - i,
    {
        v.push(s[i]);
        assert(v@ =~= s@.subrange(from as int, i + 1));
        i = i + 1;
    }
    v
}

/// A copy of a text.
pub fn copy(s: &[char]) -> (v: Vec<char>)
    ensures
        v@ == s@,
{
    let v = copy_range(s, 0, s.len());
    assert(v@ =~= s@);
    v
}

/// Whether two texts hold the same characters.
pub fn same_text(a: &[char], b: &[char]) -> (same: bool)
    ensures
        same == (a@ == b@),
{
    if a.len() != b.len() {
        return false;
    }
    let mut i: usize = 0;
    while i < a.len()
        invariant
            i <= a@.len(),
            a@.len() == b@.len(),
            forall|j: int| 0 <= j < i ==> a@[j] == b@[j],
        decreases a@.len() - i,
    {
        if a[i] != b[i] {
            return false;
        }
        i = i + 1;
    }
    assert(a@ =~= b@);
    true
}

/// The views of a list of texts.
pub open spec fn texts(parts: Seq<Vec<char>>) -> Seq<Seq<char>> {
    parts.map_values(|p: Vec<char>| p@)
}

/// Splits `s` at every occurrence of the separator.
pub fn split(s: &[char], sep: &[char]) -> (parts: Vec<Vec<char>>)
    ensures
        texts(parts@) == split_text(s@, sep@),
{
    let mut parts: Vec<Vec<char>> = Vec::new();
    if sep.len() == 0 {
        let whole = copy(s);
        parts.push(whole);
        assert(texts(parts@) =~= seq![s@]);
        return parts;
    }
    let mut start: usize = 0;
    let mut i: usize = 0;
    while sep.len() <= s.len() && i <= s.len() - sep.len()
        invariant
            0 <= start <= i <= s@.len(),
            sep@.len() > 0,
            texts(parts@) + split_from(s@, sep@, start as int, i as int) == split_text(s@, sep@),
        decreases s@.len() - i,
    {
        let ghost before = texts(parts@);
        let ghost rest = split_from(s@, sep@, start as int, i as int);
        if found_at(s, sep, i) {
            let piece = copy_range(s, start, i);
            parts.push(piece);
            assert(texts(parts@) =~= before.push(piece@));
            i = i + sep.len();
            start = i;
            assert(texts(parts@) + split_from(s@, sep@, start as int, i as int) =~= before
                + rest);
        } else {
            i = i + 1;
        }
    }
    let ghost before = texts(parts@);
    let piece = copy_range(s, start, s.len());
    parts.push(piece);
    assert(texts(parts@) =~= before.push(piece@));
    assert(split_from(s@, sep@, start as int, i as int) =~= seq![piece@]);
    assert(texts(parts@) =~= before + seq![piece@]);
    parts
}

/// The texts of a list, with the separator between each two of them.
pub open spec fn join_text(parts: Seq<Seq<char>>, sep: Seq<char>) -> Seq<char>
    decreases parts.len(),
{
    if parts.len() == 0 {
        Seq::empty()
    } else if parts.len() == 1 {
        parts[0]
    } else {
        join_text(parts.drop_last(), sep) + sep + parts.last()
    }
}

/// Joins the texts of a list, with the separator between each two of them.
pub fn join(parts: &Vec<Vec<char>>, sep: &[char]) -> (joined: Vec<char>)
    ensures
        joined@ == join_text(texts(parts@), sep@),
{
    let mut joined: Vec<char> = Vec::new();
    let mut i: usize = 0;
    while i < parts.len()
        invariant
            i <= parts@.len(),
            joined@ == join_text(texts(parts@).take(i as int), sep@),
        decreases parts@.len() - i,
    {
        let ghost before = joined@;
        let ghost taken = texts(parts@).take(i + 1);
        assert(taken.drop_last() =~= texts(parts@).take(i as int));
        assert(taken.last() == parts@[i as int]@);
        if i > 0 {
            joined.extend_from_slice(sep);
        }
        joined.extend_from_slice(parts[i].as_slice());
        assert(joined@ =~= join_text(taken, sep@));
        i = i + 1;
    }
    assert(texts(parts@).take(parts@.len() as int) =~= texts(parts@));
    joined
}

/// One line of a text: what it holds, and how it ends.
pub struct TextLine {
    /// The characters of the line, without its ending.
    pub text: Seq<char>,
    /// The ending of the line: a line feed, a carriage return and a line
    /// feed, or nothing for a last line that is not closed.
    pub ending: Seq<char>,
}

/// The lines of `s`, found from the left: `start` is where the line at hand
/// begins, and `i` is how far the search for its end has come. A line ends
/// at a line feed; a carriage return just before the line feed belongs to
/// the ending. What follows the last line feed is a line only where it is
/// not empty.
pub open spec fn lines_from(s: Seq<char>, start: int, i: int) -> Seq<TextLine>
    recommends
        0 <= start <= i,
    decreases s.len() - i,
{
    if i < 0 || start < 0 || start > i || i > s.len() {
        Seq::empty()
    } else if i == s.len() {
        if start == i {
            Seq::empty()
        } else {
            seq![TextLine { text: s.subrange(start, i), ending: Seq::empty() }]
        }
    } else if s[i] == '\n' {
        if start < i && s[i - 1] == '\r' {
            seq![TextLine { text: s.subrange(start, i - 1), ending: crlf() }] + lines_from(
                s,
                i + 1,
                i + 1,
            )
        } else {
            seq![TextLine { text: s.subrange(start, i), ending: lf() }] + lines_from(
                s,
                i + 1,
                i + 1,
            )
        }
    } else {
        lines_from(s, start, i + 1)
    }
}

/// The lines of a text, each with its ending.
pub open spec fn text_lines(s: Seq<char>) -> Seq<TextLine> {
    lines_from(s, 0, 0)
}

/// How a line ends.
#[derive(Debug, Clone, Copy, PartialEq, Eq, Structural)]
pub enum LineEnding {
    /// A line feed.
    Lf,
    /// A carriage return and a line feed.
    CrLf,
    /// Nothing: the text ends with the line.
    Open,
}

impl LineEnding {
    /// The characters of the ending.
    pub open spec fn chars(self) -> Seq<char> {
        match self {
            LineEnding::Lf => lf(),
            LineEnding::CrLf => crlf(),
            LineEnding::Open => Seq::empty(),
        }
    }
}

/// One line of a text.
#[derive(Debug)]
pub struct Line {
    pub text: Vec<char>,
    pub ending: LineEnding,
}

impl View for Line {
    type V = TextLine;

    open spec fn view(&self) -> TextLine {
        TextLine { text: self.text@, ending: self.ending.chars() }
    }
}

/// The views of a list of lines.
pub open spec fn line_views(lines: Seq<Line>) -> Seq<TextLine> {
    lines.map_values(|l: Line| l@)
}

/// Splits a text into its lines, each with its ending.
pub fn lines(s: &[char]) -> (found: Vec<Line>)
    ensures
        line_views(found@) == text_lines(s@),
{
    let mut found: Vec<Line> = Vec::new();
    let mut start: usize = 0;
    let mut i: usize = 0;
    while i < s.len()
        invariant
            0 <= start <= i <= s@.len(),
            line_views(found@) + lines_from(s@, start as int, i as int) == text_lines(s@),
        decreases s@.len() - i,
    {
        let ghost before = line_views(found@);
        let ghost rest = lines_from(s@, start as int, i as int);
        if s[i] == '\n' {
            let line = if start < i && s[i - 1] == '\r' {
                Line { text: copy_range(s, start, i - 1), ending: LineEnding::CrLf }
            } else {
                Line { text: copy_range(s, start, i), ending: LineEnding::Lf }
            };
            found.push(line);
            assert(line_views(found@) =~= before.push(line@));
            start = i + 1;
            assert(line_views(found@) + lines_from(s@, i + 1, i + 1) =~= before + rest);
        }
        i = i + 1;
    }
    if start < i {
        let ghost before = line_views(found@);
        let line = Line { text: copy_range(s, start, i), ending: LineEnding::Open };
        found.push(line);
        assert(line_views(found@) =~= before.push(line@));
        assert(line_views(found@) =~= before + lines_from(s@, start as int, i as int));
    } else {
        assert(line_views(found@) + Seq::<TextLine>::empty() =~= line_views(found@));
    }
    found
}

} // verus!
