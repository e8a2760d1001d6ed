//! The rules of the formatter, each as a function from text to text.

use vstd::prelude::*;
use vstd::string::*;
use crate::engine::{compile, is_match, regex_built_plain, regex_compiles, regex_matches,
    regex_pattern, regex_replaced, replace_first};
use crate::text::{blank, collect_chars, contains, contains_text, copy, first_non_blank, crlf, is_blank, is_whitespace, join, join_text, lf, lines, line_views, split,
    split_text, string_from_chars, text_lines, texts, TextLine};

verus! {

/// The regular expression of a heading whose whole text is set in bold.
pub const HEADING_PATTERN: &'static str = "^(#+)\\s+\\*\\*(.*?)\\*\\*$";

/// What such a heading is replaced by: its marks, a space, and its text.
pub const HEADING_REPLACEMENT: &'static str = "$1 $2";

/// The regular expression of a horizontal rule on a line of its own.
pub const RULE_PATTERN: &'static str = "(?m)^\\s*---\\s*$";

/// The straight quote for a typographic one; any other character is left
/// as it is.
pub open spec fn straight_quote(c: char) -> char {
    if c == '\u{201c}' || c == '\u{201d}' {
        '"'
    } else if c == '\u{2018}' || c == '\u{2019}' {
        '\''
    } else {
        c
    }
}

/// A text with its typographic quotes made straight.
pub open spec fn smart_quotes_text(s: Seq<char>) -> Seq<char> {
    s.map_values(|c: char| straight_quote(c))
}

/// What one character becomes when punctuation is standardized: a hyphen for
/// an em dash or an en dash, three dots for an ellipsis.
pub open spec fn punctuation_char(c: char, dashes: bool, ellipsis: bool) -> Seq<char> {
    if dashes && (c == '\u{2014}' || c == '\u{2013}') {
        seq!['-']
    } else if ellipsis && c == '\u{2026}' {
        seq!['.', '.', '.']
    } else {
        seq![c]
    }
}

/// A text with its punctuation standardized.
pub open spec fn punctuation_text(s: Seq<char>, dashes: bool, ellipsis: bool) -> Seq<char>
    decreases s.len(),
{
    if s.len() == 0 {
        Seq::empty()
    } else {
        punctuation_text(s.drop_last(), dashes, ellipsis) + punctuation_char(
            s.last(),
            dashes,
            ellipsis,
        )
    }
}

/// Whether a line is a heading whose whole text is set in bold.
pub open spec fn is_bold_heading(line: Seq<char>) -> bool {
    regex_matches(HEADING_PATTERN@, line)
}

/// A line with the bold marks of its heading removed, where it is such a
/// heading.
pub open spec fn heading_line(line: Seq<char>) -> Seq<char> {
    if is_bold_heading(line) {
        regex_replaced(HEADING_PATTERN@, line, HEADING_REPLACEMENT@)
    } else {
        line
    }
}

/// A text with each of its lines cleaned as a heading, and the lines joined
/// by line feeds.
pub open spec fn headings_text(s: Seq<char>) -> Seq<char> {
    join_text(text_lines(s).map_values(|l: TextLine| heading_line(l.text)), lf())
}

/// Whether a line is a horizontal rule.
pub open spec fn is_rule_line(line: Seq<char>) -> bool {
    regex_matches(RULE_PATTERN@, line)
}

/// Whether three backticks stand in `s` at offset `i`.
pub open spec fn fence_at(s: Seq<char>, i: int) -> bool {
    0 <= i && i + 3 <= s.len() && s[i] == '`' && s[i + 1] == '`' && s[i + 2] == '`'
}

/// Whether a line opens or closes a code block: after any white space at its
/// start, it begins with three backticks.
pub open spec fn is_code_fence(line: Seq<char>) -> bool {
    fence_at(line, first_non_blank(line, 0))
}

/// Whether a line begins with `>`.
pub open spec fn is_quoted(line: Seq<char>) -> bool {
    line.len() > 0 && line[0] == '>'
}

/// Whether the removal of horizontal rules leaves a line untouched whatever
/// it holds: it begins with three backticks, with four spaces, with a tab,
/// or with `>`.
pub open spec fn is_protected(line: Seq<char>) -> bool {
    ||| fence_at(line, 0)
    ||| (line.len() >= 4 && line[0] == ' ' && line[1] == ' ' && line[2] == ' ' && line[3] == ' ')
    ||| (line.len() > 0 && line[0] == '\t')
    ||| is_quoted(line)
}

/// The separator of the lines of a text: a carriage return and a line feed
/// where the text holds that pair anywhere, else a line feed.
pub open spec fn line_separator(s: Seq<char>) -> Seq<char> {
    if contains_text(s, crlf()) {
        crlf()
    } else {
        lf()
    }
}

/// Whether every line of a list is blank.
pub open spec fn all_blank(lines: Seq<Seq<char>>) -> bool {
    forall|i: int| 0 <= i < lines.len() ==> is_blank(#[trigger] lines[i])
}

/// Whether a line can belong to front matter as one of its entries: it
/// holds a colon, as a key with its value does.
pub open spec fn is_entry(line: Seq<char>) -> bool {
    line.contains(':')
}

/// Whether front matter that opened on the first line is closed: from line
/// `i` on there is a horizontal rule, and before the first such rule stands
/// an entry (`has_entry` says whether one was seen already). Text between
/// two rules that holds no entry is no front matter.
pub open spec fn closes_front_matter(lines: Seq<Seq<char>>, i: int, has_entry: bool) -> bool
    decreases lines.len() - i,
{
    if i < 0 || i >= lines.len() {
        false
    } else if is_rule_line(lines[i]) {
        has_entry
    } else {
        closes_front_matter(lines, i + 1, has_entry || is_entry(lines[i]))
    }
}

/// The lines that the removal of horizontal rules keeps, from line `i` on.
/// `in_front_matter` says whether the lines at hand belong to front matter,
/// `after_empty` whether the line kept last was blank.
pub open spec fn kept_from(
    lines: Seq<Seq<char>>,
    i: int,
    in_front_matter: bool,
    after_empty: bool,
    retain: bool,
    in_code_block: bool,
) -> Seq<Seq<char>>
    decreases lines.len() - i,
{
    if i < 0 || i >= lines.len() {
        Seq::empty()
    } else if is_protected(lines[i]) {
        seq![lines[i]] + kept_from(lines, i + 1, in_front_matter, false, retain, in_code_block)
    } else if is_rule_line(lines[i]) {
        if in_front_matter {
            // the rule that closes the front matter
            if retain {
                seq![lines[i]] + kept_from(lines, i + 1, false, after_empty, retain, in_code_block)
            } else {
                kept_from(lines, i + 1, false, after_empty, retain, in_code_block)
            }
        } else if !in_code_block && !after_empty && i > 0 {
            // a rule gives way to one empty line
            seq![Seq::<char>::empty()] + kept_from(
                lines,
                i + 1,
                false,
                true,
                retain,
                in_code_block,
            )
        } else {
            kept_from(lines, i + 1, false, after_empty, retain, in_code_block)
        }
    } else if in_front_matter || !is_blank(lines[i]) {
        seq![lines[i]] + kept_from(lines, i + 1, in_front_matter, false, retain, in_code_block)
    } else if !after_empty {
        seq![lines[i]] + kept_from(lines, i + 1, in_front_matter, true, retain, in_code_block)
    } else {
        kept_from(lines, i + 1, in_front_matter, after_empty, retain, in_code_block)
    }
}

/// The lines that the removal of horizontal rules keeps of a whole text.
/// A rule on the first line opens front matter where front matter is
/// retained and closed; the rule then stays. Otherwise it gives way to an
/// empty line.
pub open spec fn kept_lines(lines: Seq<Seq<char>>, retain: bool, in_code_block: bool) -> Seq<
    Seq<char>,
> {
    if lines.len() > 0 && is_rule_line(lines[0]) {
        if retain && closes_front_matter(lines, 1, false) {
            seq![lines[0]] + kept_from(lines, 1, true, false, retain, in_code_block)
        } else {
            seq![Seq::<char>::empty()] + kept_from(lines, 0, false, true, retain, in_code_block)
        }
    } else {
        kept_from(lines, 0, false, false, retain, in_code_block)
    }
}

/// A text without its horizontal rules. A text of blank lines only is left
/// as it is.
pub open spec fn without_rules(s: Seq<char>, retain: bool, in_code_block: bool) -> Seq<char> {
    let lines = split_text(s, line_separator(s));
    if all_blank(lines) {
        s
    } else {
        join_text(kept_lines(lines, retain, in_code_block), line_separator(s))
    }
}

/// The compiled expressions of the rules that need one.
#[derive(Debug)]
pub struct RulePatterns {
    heading: regex::Regex,
    rule: regex::Regex,
}

/// Whether the engine accepts the expressions of the rules.
pub open spec fn patterns_compile() -> bool {
    regex_compiles(HEADING_PATTERN@) && regex_compiles(RULE_PATTERN@)
}

impl RulePatterns {
    #[verifier::type_invariant]
    spec fn well_formed(self) -> bool {
        &&& regex_pattern(self.heading) == HEADING_PATTERN@
        &&& regex_pattern(self.rule) == RULE_PATTERN@
        &&& regex_built_plain(self.heading)
        &&& regex_built_plain(self.rule)
    }

    /// Puts together what the engine made of the two expressions: the
    /// patterns where it accepted both, and else the text of the first one
    /// that it refused. Each expression must be the one that the engine
    /// compiles from the text of its rule with no options of its own.
    pub fn assemble(
        heading: Result<regex::Regex, regex::Error>,
        rule: Result<regex::Regex, regex::Error>,
    ) -> (r: Result<RulePatterns, String>)
        requires
            heading is Ok ==> regex_pattern(heading->Ok_0) == HEADING_PATTERN@
                && regex_built_plain(heading->Ok_0),
            rule is Ok ==> regex_pattern(rule->Ok_0) == RULE_PATTERN@ && regex_built_plain(
                rule->Ok_0,
            ),
        ensures
            r is Ok == (heading is Ok && rule is Ok),
            heading is Err ==> r is Err && r->Err_0@ == HEADING_PATTERN@,
            heading is Ok && rule is Err ==> r is Err && r->Err_0@ == RULE_PATTERN@,
    {
        match heading {
            Ok(heading) => match rule {
                Ok(rule) => Ok(RulePatterns { heading, rule }),
                Err(_) => Err(String::from_str(RULE_PATTERN)),
            },
            Err(_) => Err(String::from_str(HEADING_PATTERN)),
        }
    }

    /// Compiles the expressions of the rules. Where the engine refuses one,
    /// the result is the text of the first one that it refused.
    pub fn compile() -> (r: Result<RulePatterns, String>)
        ensures
            r is Ok == patterns_compile(),
            !regex_compiles(HEADING_PATTERN@) ==> r is Err && r->Err_0@ == HEADING_PATTERN@,
            regex_compiles(HEADING_PATTERN@) && !regex_compiles(RULE_PATTERN@) ==> r is Err
                && r->Err_0@ == RULE_PATTERN@,
    {
        RulePatterns::assemble(compile(HEADING_PATTERN), compile(RULE_PATTERN))
    }

    /// Whether a line is a heading whose whole text is set in bold.
    pub fn matches_heading(&self, line: &str) -> (b: bool)
        ensures
            b == is_bold_heading(line@),
    {
        proof {
            use_type_invariant(self);
        }
        is_match(&self.heading, line)
    }

    /// A line with the bold marks of its heading removed, where it is such
    /// a heading.
    pub fn clean_heading(&self, line: &[char]) -> (cleaned: Vec<char>)
        ensures
            cleaned@ == heading_line(line@),
    {
        proof {
            use_type_invariant(self);
        }
        let text = string_from_chars(line);
        if is_match(&self.heading, text.as_str()) {
            let replaced = replace_first(&self.heading, text.as_str(), HEADING_REPLACEMENT);
            collect_chars(replaced.as_str())
        } else {
            copy(line)
        }
    }

    /// Whether a line is a horizontal rule.
    pub fn matches_rule(&self, line: &[char]) -> (b: bool)
        ensures
            b == is_rule_line(line@),
    {
        proof {
            use_type_invariant(self);
        }
        let text = string_from_chars(line);
        is_match(&self.rule, text.as_str())
    }
}

/// Makes the typographic quotes of a text straight.
pub fn straighten_quotes(s: &[char]) -> (out: Vec<char>)
    ensures
        out@ == smart_quotes_text(s@),
{
    let mut out: Vec<char> = Vec::new();
    let mut i: usize = 0;
    while i < s.len()
        invariant
            i <= s@.len(),
            out@ == smart_quotes_text(s@).take(i as int),
        decreases s@.len() - i,
    {
        let c = s[i];
        let straight = if c == '\u{201c}' || c == '\u{201d}' {
            '"'
        } else if c == '\u{2018}' || c == '\u{2019}' {
            '\''
        } else {
            c
        };
        out.push(straight);
        assert(out@ =~= smart_quotes_text(s@).take(i + 1));
        i = i + 1;
    }
    assert(smart_quotes_text(s@).take(s@.len() as int) =~= smart_quotes_text(s@));
    out
}

/// Standardizes the punctuation of a text.
pub fn standardize_punctuation(s: &[char], dashes: bool, ellipsis: bool) -> (out: Vec<char>)
    ensures
        out@ == punctuation_text(s@, dashes, ellipsis),
{
    let mut out: Vec<char> = Vec::new();
    let mut i: usize = 0;
    while i < s.len()
        invariant
            i <= s@.len(),
            out@ == punctuation_text(s@.take(i as int), dashes, ellipsis),
        decreases s@.len() - i,
    {
        let ghost taken = s@.take(i + 1);
        assert(taken.drop_last() =~= s@.take(i as int) && taken.last() == s@[i as int]);
        let ghost before = out@;
        let c = s[i];
        if dashes && (c == '\u{2014}' || c == '\u{2013}') {
            out.push('-');
            assert(out@ =~= before + seq!['-']);
        } else if ellipsis && c == '\u{2026}' {
            out.push('.');
            out.push('.');
            out.push('.');
            assert(out@ =~= before + seq!['.', '.', '.']);
        } else {
            out.push(c);
            assert(out@ =~= before + seq![c]);
        }
        i = i + 1;
    }
    assert(s@.take(s@.len() as int) =~= s@);
    out
}

/// Cleans the headings of a text, line by line.
pub fn clean_headings(patterns: &RulePatterns, s: &[char]) -> (out: Vec<char>)
    ensures
        out@ == headings_text(s@),
{
    let found = lines(s);
    let ghost cleaned = text_lines(s@).map_values(|l: TextLine| heading_line(l.text));
    let mut parts: Vec<Vec<char>> = Vec::new();
    let mut i: usize = 0;
    while i < found.len()
        invariant
            i <= found@.len(),
            line_views(found@) == text_lines(s@),
            cleaned == text_lines(s@).map_values(|l: TextLine| heading_line(l.text)),
            texts(parts@) == cleaned.take(i as int),
        decreases found@.len() - i,
    {
        let ghost before = texts(parts@);
        let part = patterns.clean_heading(found[i].text.as_slice());
        assert(line_views(found@)[i as int] == found@[i as int]@);
        parts.push(part);
        assert(texts(parts@) =~= before.push(part@));
        assert(texts(parts@) =~= cleaned.take(i + 1));
        i = i + 1;
    }
    assert(line_views(found@).len() == found@.len());
    assert(cleaned.take(found@.len() as int) =~= cleaned);
    let separator: [char; 1] = ['\n'];
    assert(separator@ =~= lf());
    join(&parts, separator.as_slice())
}

/// Whether a line opens or closes a code block.
pub fn code_fence(line: &[char]) -> (b: bool)
    ensures
        b == is_code_fence(line@),
{
    let n = line.len();
    let mut i: usize = 0;
    while i < n && is_whitespace(line[i])
        invariant
            i <= n,
            n == line@.len(),
            first_non_blank(line@, 0) == first_non_blank(line@, i as int),
        decreases n - i,
    {
        i = i + 1;
    }
    n - i >= 3 && line[i] == '`' && line[i + 1] == '`' && line[i + 2] == '`'
}

/// Whether a line begins with `>`.
pub fn quoted(line: &[char]) -> (b: bool)
    ensures
        b == is_quoted(line@),
{
    line.len() > 0 && line[0] == '>'
}

/// Whether the removal of horizontal rules leaves a line untouched whatever
/// it holds.
pub fn protected(line: &[char]) -> (b: bool)
    ensures
        b == is_protected(line@),
{
    let n = line.len();
    (n >= 3 && line[0] == '`' && line[1] == '`' && line[2] == '`') || (n >= 4 && line[0] == ' '
        && line[1] == ' ' && line[2] == ' ' && line[3] == ' ') || (n > 0 && line[0] == '\t')
        || quoted(line)
}

/// Whether every line of a list is blank.
pub fn every_blank(lines: &Vec<Vec<char>>) -> (b: bool)
    ensures
        b == all_blank(texts(lines@)),
{
    let mut i: usize = 0;
    while i < lines.len()
        invariant
            i <= lines@.len(),
            forall|j: int| 0 <= j < i ==> is_blank(#[trigger] texts(lines@)[j]),
        decreases lines@.len() - i,
    {
        if !blank(lines[i].as_slice()) {
            assert(!is_blank(texts(lines@)[i as int]));
            return false;
        }
        i = i + 1;
    }
    true
}

/// Whether a line holds a colon.
pub fn entry(line: &[char]) -> (b: bool)
    ensures
        b == is_entry(line@),
{
    let mut i: usize = 0;
    while i < line.len()
        invariant
            i <= line@.len(),
            forall|k: int| 0 <= k < i ==> line@[k] != ':',
        decreases line@.len() - i,
    {
        if line[i] == ':' {
            return true;
        }
        i = i + 1;
    }
    false
}

/// Whether front matter that opened on the first line is closed further
/// down, with an entry between its two rules.
pub fn front_matter_closes(patterns: &RulePatterns, lines: &Vec<Vec<char>>) -> (b: bool)
    ensures
        b == closes_front_matter(texts(lines@), 1, false),
{
    let mut has_entry = false;
    let mut i: usize = 1;
    while i < lines.len()
        invariant
            1 <= i,
            closes_front_matter(texts(lines@), i as int, has_entry) == closes_front_matter(
                texts(lines@),
                1,
                false,
            ),
        decreases lines@.len() - i,
    {
        assert(texts(lines@)[i as int] == lines@[i as int]@);
        if patterns.matches_rule(lines[i].as_slice()) {
            return has_entry;
        }
        if entry(lines[i].as_slice()) {
            has_entry = true;
        }
        i = i + 1;
    }
    false
}

/// Removes the horizontal rules of a text.
pub fn remove_rules(patterns: &RulePatterns, s: &[char], retain: bool, in_code_block: bool) -> (out:
    Vec<char>)
    ensures
        out@ == without_rules(s@, retain, in_code_block),
{
    let pair: [char; 2] = ['\r', '\n'];
    let single: [char; 1] = ['\n'];
    assert(pair@ =~= crlf() && single@ =~= lf());
    let separator: &[char] = if contains(s, pair.as_slice()) {
        pair.as_slice()
    } else {
        single.as_slice()
    };
    assert(separator@ == line_separator(s@));
    let all = split(s, separator);
    if every_blank(&all) {
        return copy(s);
    }
    let ghost lines = texts(all@);
    let mut kept: Vec<Vec<char>> = Vec::new();
    let mut in_front_matter = false;
    let mut after_empty = false;
    let mut i: usize = 0;
    if all.len() > 0 {
        assert(lines[0] == all@[0]@);
        if patterns.matches_rule(all[0].as_slice()) {
            if retain && front_matter_closes(patterns, &all) {
                let first = copy(all[0].as_slice());
                kept.push(first);
                assert(texts(kept@) =~= seq![lines[0]]);
                in_front_matter = true;
                i = 1;
            } else {
                kept.push(Vec::new());
                assert(texts(kept@) =~= seq![Seq::<char>::empty()]);
                after_empty = true;
            }
        }
    }
    assert(texts(kept@) + kept_from(lines, i as int, in_front_matter, after_empty, retain, in_code_block)
        =~= kept_lines(lines, retain, in_code_block));
    while i < all.len()
        invariant
            i <= all@.len(),
            lines == texts(all@),
            texts(kept@) + kept_from(
                lines,
                i as int,
                in_front_matter,
                after_empty,
                retain,
                in_code_block,
            ) == kept_lines(lines, retain, in_code_block),
        decreases all@.len() - i,
    {
        let ghost before = texts(kept@);
        let ghost rest = kept_from(
            lines,
            i as int,
            in_front_matter,
            after_empty,
            retain,
            in_code_block,
        );
        let line = all[i].as_slice();
        assert(lines[i as int] == line@);
        if protected(line) {
            kept.push(copy(line));
            after_empty = false;
            assert(texts(kept@) =~= before + seq![line@]);
        } else if patterns.matches_rule(line) {
            if in_front_matter {
                if retain {
                    kept.push(copy(line));
                    assert(texts(kept@) =~= before + seq![line@]);
                }
                in_front_matter = false;
            } else if !in_code_block && !after_empty && i > 0 {
                kept.push(Vec::new());
                after_empty = true;
                assert(texts(kept@) =~= before + seq![Seq::<char>::empty()]);
            }
        } else if in_front_matter || !blank(line) {
            kept.push(copy(line));
            after_empty = false;
            assert(texts(kept@) =~= before + seq![line@]);
        } else if !after_empty {
            kept.push(copy(line));
            after_empty = true;
            assert(texts(kept@) =~= before + seq![line@]);
        }
        i = i + 1;
        assert(texts(kept@) + kept_from(
            lines,
            i as int,
            in_front_matter,
            after_empty,
            retain,
            in_code_block,
        ) =~= before + rest);
    }
    assert(texts(kept@) + Seq::<Seq<char>>::empty() =~= texts(kept@));
    join(&kept, separator)
}

} // verus!
