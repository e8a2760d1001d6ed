//! The `format` command: its settings, and the plain rules that it applies
//! to a text line by line.

use vstd::prelude::*;
use vstd::string::*;
use crate::engine::{compile, duplicate, regex_built_plain, regex_compiles, regex_pattern,
    regex_replaced_all, replace_all};
use crate::formatter::markdown::{FormatterError, FormatterErrorView};
use crate::text::{collect_chars, copy, join, join_text, lf, line_views, lines,
    string_from_chars, text_lines, texts, trim, trimmed, TextLine};

verus! {

/// The expression of the rule that makes quotes plain.
pub const SMART_QUOTES_PATTERN: &'static str = "[\"\"\"]|''";

/// The expression of the rule that cleans headings.
pub const CLEAN_HEADINGS_PATTERN: &'static str = "^(#+)\\s*[*_]{1,2}(.*?)[*_]{1,2}\\s*$";

/// The expression of the rule that makes dashes plain.
pub const DASHES_PATTERN: &'static str = "[\u{2013}\u{2014}]";

/// One rule of the command: an expression, and what its matches are
/// replaced by.
#[derive(Debug)]
pub struct FormatRule {
    pub id: String,
    pub pattern: regex::Regex,
    pub replacement: String,
    pub is_safe: bool,
    pub description: String,
}

/// A rule, with its expression as a text.
pub struct FormatRuleView {
    pub id: Seq<char>,
    pub pattern: Seq<char>,
    pub replacement: Seq<char>,
    pub is_safe: bool,
    pub description: Seq<char>,
}

impl View for FormatRule {
    type V = FormatRuleView;

    open spec fn view(&self) -> FormatRuleView {
        FormatRuleView {
            id: self.id@,
            pattern: regex_pattern(self.pattern),
            replacement: self.replacement@,
            is_safe: self.is_safe,
            description: self.description@,
        }
    }
}

impl Clone for FormatRule {
    fn clone(&self) -> (r: Self)
        ensures
            r@ == self@,
            r.well_built() == self.well_built(),
    {
        FormatRule {
            id: self.id.clone(),
            pattern: duplicate(&self.pattern),
            replacement: self.replacement.clone(),
            is_safe: self.is_safe,
            description: self.description.clone(),
        }
    }
}

/// The views of a list of rules.
pub open spec fn rule_views(rules: Seq<FormatRule>) -> Seq<FormatRuleView> {
    rules.map_values(|r: FormatRule| r@)
}

/// Whether the expression of every rule of a list is one that the engine
/// compiled from its text with no options of its own.
pub open spec fn rules_well_built(rules: Seq<FormatRule>) -> bool {
    forall|i: int| 0 <= i < rules.len() ==> (#[trigger] rules[i]).well_built()
}

/// The rules of the command, in the order in which they are applied.
pub open spec fn standard_rules() -> Seq<FormatRuleView> {
    seq![
        FormatRuleView {
            id: "smart-quotes"@,
            pattern: SMART_QUOTES_PATTERN@,
            replacement: "\""@,
            is_safe: true,
            description: "Replaces smart quotes with regular quotes"@,
        },
        FormatRuleView {
            id: "clean-headings"@,
            pattern: CLEAN_HEADINGS_PATTERN@,
            replacement: "$1 $2"@,
            is_safe: true,
            description: "Cleans headings by removing asterisks and underscores"@,
        },
        FormatRuleView {
            id: "standardize-dashes"@,
            pattern: DASHES_PATTERN@,
            replacement: "-"@,
            is_safe: true,
            description: "Replaces dashes with regular hyphens"@,
        },
    ]
}

/// Whether the engine accepts the expressions of all the rules.
pub open spec fn rules_compile() -> bool {
    regex_compiles(SMART_QUOTES_PATTERN@) && regex_compiles(CLEAN_HEADINGS_PATTERN@)
        && regex_compiles(DASHES_PATTERN@)
}

/// The expression of the first rule that the engine refuses.
pub open spec fn first_refused_rule() -> Seq<char> {
    if !regex_compiles(SMART_QUOTES_PATTERN@) {
        SMART_QUOTES_PATTERN@
    } else if !regex_compiles(CLEAN_HEADINGS_PATTERN@) {
        CLEAN_HEADINGS_PATTERN@
    } else {
        DASHES_PATTERN@
    }
}

/// A line with the safe rules from rule `i` on applied to it, one after the
/// other: each replaces all the matches of its expression.
pub open spec fn applied_from(rules: Seq<FormatRuleView>, i: int, line: Seq<char>) -> Seq<char>
    decreases rules.len() - i,
{
    if i < 0 || i >= rules.len() {
        line
    } else if rules[i].is_safe {
        applied_from(
            rules,
            i + 1,
            regex_replaced_all(rules[i].pattern, line, rules[i].replacement),
        )
    } else {
        applied_from(rules, i + 1, line)
    }
}

/// How the formatter lays a text out.
#[derive(Debug, Clone)]
pub struct FormatterConfiguration {
    pub indent_style: String,
    pub indent_width: usize,
    pub line_width: usize,
    pub use_tabs: bool,
    pub enabled_rules: Vec<String>,
}

/// What the command takes from version control.
#[derive(Debug, Clone, Copy, PartialEq, Eq, Structural)]
pub struct VcsConfiguration {
    pub ignore_untracked: bool,
    pub ignore_ignored: bool,
    pub only_staged: bool,
}

impl Default for FormatterConfiguration {
    fn default() -> (c: Self)
        ensures
            c.indent_style@.len() == 0,
            c.indent_width == 0,
            c.line_width == 0,
            !c.use_tabs,
            c.enabled_rules@.len() == 0,
    {
        FormatterConfiguration {
            indent_style: String::new(),
            indent_width: 0,
            line_width: 0,
            use_tabs: false,
            enabled_rules: Vec::new(),
        }
    }
}

impl Default for VcsConfiguration {
    fn default() -> (c: Self)
        ensures
            c == (VcsConfiguration {
                ignore_untracked: false,
                ignore_ignored: false,
                only_staged: false,
            }),
    {
        VcsConfiguration { ignore_untracked: false, ignore_ignored: false, only_staged: false }
    }
}

/// The text that a list item is indented by: a tab, or as many spaces as
/// the indentation is wide.
pub open spec fn indentation(use_tabs: bool, width: usize) -> Seq<char> {
    if use_tabs {
        seq!['\t']
    } else {
        Seq::new(width as nat, |i: int| ' ')
    }
}

/// Whether a text begins as a list item does: with `- ` or with `* `.
pub open spec fn is_list_item(s: Seq<char>) -> bool {
    s.len() >= 2 && (s[0] == '-' || s[0] == '*') && s[1] == ' '
}

/// A line, indented where it is a list item: the item without the white
/// space around it, behind the indentation. Any other line stays as it is.
pub open spec fn indented(use_tabs: bool, width: usize, line: Seq<char>) -> Seq<char> {
    if is_list_item(trimmed(line)) {
        indentation(use_tabs, width) + trimmed(line)
    } else {
        line
    }
}

/// A text with the safe rules of a list applied to each of its lines, and
/// the lines joined by line feeds.
pub open spec fn ruled_text(rules: Seq<FormatRuleView>, s: Seq<char>) -> Seq<char> {
    join_text(text_lines(s).map_values(|l: TextLine| applied_from(rules, 0, l.text)), lf())
}

/// A text with each of its list items indented, and the lines joined by line
/// feeds.
pub open spec fn indented_text(use_tabs: bool, width: usize, s: Seq<char>) -> Seq<char> {
    join_text(text_lines(s).map_values(|l: TextLine| indented(use_tabs, width, l.text)), lf())
}

/// What the command makes of a text: the rules first, the indentation of
/// list items after them.
pub open spec fn simply_formatted(use_tabs: bool, width: usize, s: Seq<char>) -> Seq<char> {
    indented_text(use_tabs, width, ruled_text(standard_rules(), s))
}

impl FormatRule {
    /// Whether the expression of the rule is one that the engine compiled
    /// from its text with no options of its own. Only of such an expression
    /// does the text say what it matches; the field is open, so a rule can
    /// be made that holds another.
    pub open spec fn well_built(&self) -> bool {
        regex_built_plain(self.pattern)
    }

    /// Builds a rule from its parts and from what the engine made of its
    /// expression: the rule, or the failure that names the expression. What
    /// the engine made must come from that expression, compiled with no
    /// options of its own.
    pub fn assemble(
        id: &str,
        expression: &str,
        compiled: Result<regex::Regex, regex::Error>,
        replacement: &str,
        description: &str,
    ) -> (r: Result<FormatRule, FormatterError>)
        requires
            compiled is Ok ==> regex_pattern(compiled->Ok_0) == expression@,
            compiled is Ok ==> regex_built_plain(compiled->Ok_0),
        ensures
            compiled is Ok ==> r is Ok && r->Ok_0.well_built() && r->Ok_0@ == (FormatRuleView {
                id: id@,
                pattern: expression@,
                replacement: replacement@,
                is_safe: true,
                description: description@,
            }),
            compiled is Err ==> r is Err && r->Err_0@ == FormatterErrorView::InvalidRule(
                expression@,
            ),
    {
        match compiled {
            Ok(pattern) => Ok(
                FormatRule {
                    id: String::from_str(id),
                    pattern,
                    replacement: String::from_str(replacement),
                    is_safe: true,
                    description: String::from_str(description),
                },
            ),
            Err(_) => Err(FormatterError::InvalidRule(String::from_str(expression))),
        }
    }

    /// Applies the rule to a line: replaces every match of its expression.
    pub fn apply(&self, line: &str) -> (out: String)
        requires
            self.well_built(),
        ensures
            out@ == regex_replaced_all(self@.pattern, line@, self@.replacement),
    {
        replace_all(&self.pattern, line, self.replacement.as_str())
    }
}

/// The settings of the `format` command.
#[derive(Debug, Clone)]
pub struct FormatCommand {
    pub paths: Vec<String>,
    pub write: bool,
    pub fix: bool,
    pub stdin_file_path: Option<String>,
    pub show_help: bool,
    pub formatter_config: FormatterConfiguration,
    pub vcs_config: VcsConfiguration,
    pub staged: bool,
    pub changed: bool,
    pub since: Option<String>,
    pub verbose: bool,
}

impl Default for FormatCommand {
    fn default() -> (c: Self)
        ensures
            c.paths@.len() == 0,
            !c.write && !c.fix && !c.show_help && !c.staged && !c.changed && !c.verbose,
            c.stdin_file_path is None,
            c.since is None,
            c.formatter_config.indent_style@.len() == 0,
            c.formatter_config.indent_width == 0,
            c.formatter_config.line_width == 0,
            !c.formatter_config.use_tabs,
            c.formatter_config.enabled_rules@.len() == 0,
            c.vcs_config == (VcsConfiguration {
                ignore_untracked: false,
                ignore_ignored: false,
                only_staged: false,
            }),
    {
        FormatCommand {
            paths: Vec::new(),
            write: false,
            fix: false,
            stdin_file_path: None,
            show_help: false,
            formatter_config: FormatterConfiguration::default(),
            vcs_config: VcsConfiguration::default(),
            staged: false,
            changed: false,
            since: None,
            verbose: false,
        }
    }
}

/// The lines of the help of the command.
pub open spec fn help_text() -> Seq<Seq<char>> {
    seq![
        "Run the formatter on a set of files."@,
        ""@,
        "Usage: simora-prompt format [--write] [PATH]..."@,
        ""@,
        "Formatting options:"@,
        "        --write               Write formatted files to disk"@,
        "        --fix                 Alias of --write, writes formatted files to disk"@,
        "        --stdin-file-path=PATH Use this option when you want to format code"@,
        "                              piped from stdin, and print the output to stdout"@,
        "        --verbose             Show detailed debug information"@,
        ""@,
        "Generic options:"@,
        "        --indent-style=<tab|space>  The indent style"@,
        "        --indent-width=NUMBER  The size of the indentation, 2 by default"@,
        "        --line-width=NUMBER    What's the max width of a line. Defaults to 80"@,
        ""@,
        "Available positional items:"@,
        "    PATH                      Single file, single path or list of paths"@,
        ""@,
        "Available options:"@,
        "    -h, --help               Prints help information"@,
    ]
}

/// The views of a list of strings.
pub open spec fn str_views(lines: Seq<&'static str>) -> Seq<Seq<char>> {
    lines.map_values(|l: &'static str| l@)
}

impl FormatCommand {
    /// A command with the given switches and paths, and with the layout that
    /// the tool starts from: two spaces of indentation, lines of 80.
    pub fn new(
        write: bool,
        fix: bool,
        paths: Vec<String>,
        stdin_file_path: Option<String>,
        verbose: bool,
    ) -> (c: Self)
        ensures
            c.write == write,
            c.fix == fix,
            c.paths == paths,
            c.stdin_file_path == stdin_file_path,
            c.verbose == verbose,
            !c.show_help && !c.staged && !c.changed,
            c.since is None,
            c.formatter_config.indent_style@ == "space"@,
            c.formatter_config.indent_width == 2,
            c.formatter_config.line_width == 80,
            !c.formatter_config.use_tabs,
            c.formatter_config.enabled_rules@.len() == 0,
            c.vcs_config == (VcsConfiguration {
                ignore_untracked: false,
                ignore_ignored: false,
                only_staged: false,
            }),
    {
        FormatCommand {
            write,
            fix,
            paths,
            stdin_file_path,
            show_help: false,
            formatter_config: FormatterConfiguration {
                indent_style: String::from_str("space"),
                indent_width: 2,
                line_width: 80,
                use_tabs: false,
                enabled_rules: Vec::new(),
            },
            vcs_config: VcsConfiguration::default(),
            staged: false,
            changed: false,
            since: None,
            verbose,
        }
    }

    /// The command that shows the help and does nothing else.
    pub fn with_help() -> (c: Self)
        ensures
            c.show_help,
            c.paths@.len() == 0,
            !c.write && !c.fix && !c.staged && !c.changed && !c.verbose,
            c.stdin_file_path is None,
            c.since is None,
    {
        let mut c = FormatCommand::default();
        c.show_help = true;
        c
    }

    /// The lines of the help of the command.
    pub fn help_lines() -> (lines: Vec<&'static str>)
        ensures
            str_views(lines@) == help_text(),
    {
        let lines = vec![
            "Run the formatter on a set of files.",
            "",
            "Usage: simora-prompt format [--write] [PATH]...",
            "",
            "Formatting options:",
            "        --write               Write formatted files to disk",
            "        --fix                 Alias of --write, writes formatted files to disk",
            "        --stdin-file-path=PATH Use this option when you want to format code",
            "                              piped from stdin, and print the output to stdout",
            "        --verbose             Show detailed debug information",
            "",
            "Generic options:",
            "        --indent-style=<tab|space>  The indent style",
            "        --indent-width=NUMBER  The size of the indentation, 2 by default",
            "        --line-width=NUMBER    What's the max width of a line. Defaults to 80",
            "",
            "Available positional items:",
            "    PATH                      Single file, single path or list of paths",
            "",
            "Available options:",
            "    -h, --help               Prints help information",
        ];
        assert(str_views(lines@) =~= help_text());
        lines
    }

    /// Whether the command works on what version control reports rather
    /// than on paths.
    pub open spec fn asks_version_control(&self) -> bool {
        self.changed || self.staged || self.since is Some
    }

    /// The paths that the command works on: none where it asks version
    /// control, the root of the workspace where no path was given, and else
    /// the paths that were given.
    pub fn file_paths(&self, workspace_root: &str) -> (paths: Vec<String>)
        ensures
            self.asks_version_control() ==> paths@.len() == 0,
            !self.asks_version_control() && self.paths@.len() == 0 ==> paths@.len() == 1
                && paths@[0]@ == workspace_root@,
            !self.asks_version_control() && self.paths@.len() > 0 ==> paths@ == self.paths@,
    {
        if self.changed || self.staged || self.since.is_some() {
            Vec::new()
        } else if self.paths.len() == 0 {
            let mut paths: Vec<String> = Vec::new();
            paths.push(String::from_str(workspace_root));
            paths
        } else {
            let mut paths: Vec<String> = Vec::new();
            let mut i: usize = 0;
            while i < self.paths.len()
                invariant
                    i <= self.paths@.len(),
                    paths@ == self.paths@.take(i as int),
                decreases self.paths@.len() - i,
            {
                paths.push(self.paths[i].clone());
                assert(paths@ =~= self.paths@.take(i + 1));
                i = i + 1;
            }
            assert(self.paths@.take(self.paths@.len() as int) =~= self.paths@);
            paths
        }
    }

    /// Whether the command writes its results to the files.
    pub fn writes(&self) -> (b: bool)
        ensures
            b == (self.write || self.fix),
    {
        self.write || self.fix
    }

    /// The rules of the command, compiled; or the failure that names the
    /// first expression that the engine refuses.
    pub fn get_format_rules() -> (r: Result<Vec<FormatRule>, FormatterError>)
        ensures
            r is Ok == rules_compile(),
            r is Ok ==> r->Ok_0@.len() == 3,
            r is Ok ==> rule_views(r->Ok_0@) == standard_rules(),
            r is Ok ==> rules_well_built(r->Ok_0@),
            r is Err ==> r->Err_0@ == FormatterErrorView::InvalidRule(first_refused_rule()),
    {
        let quotes = match FormatRule::assemble(
            "smart-quotes",
            SMART_QUOTES_PATTERN,
            compile(SMART_QUOTES_PATTERN),
            "\"",
            "Replaces smart quotes with regular quotes",
        ) {
            Ok(rule) => rule,
            Err(e) => {
                return Err(e);
            },
        };
        let headings = match FormatRule::assemble(
            "clean-headings",
            CLEAN_HEADINGS_PATTERN,
            compile(CLEAN_HEADINGS_PATTERN),
            "$1 $2",
            "Cleans headings by removing asterisks and underscores",
        ) {
            Ok(rule) => rule,
            Err(e) => {
                return Err(e);
            },
        };
        let dashes = match FormatRule::assemble(
            "standardize-dashes",
            DASHES_PATTERN,
            compile(DASHES_PATTERN),
            "-",
            "Replaces dashes with regular hyphens",
        ) {
            Ok(rule) => rule,
            Err(e) => {
                return Err(e);
            },
        };
        let mut rules: Vec<FormatRule> = Vec::new();
        rules.push(quotes);
        rules.push(headings);
        rules.push(dashes);
        assert(rule_views(rules@) =~= standard_rules());
        Ok(rules)
    }

    /// Formats a text: applies the rules to each line, then indents the list
    /// items. Fails where the engine refuses the expression of a rule.
    pub fn format_content(&self, content: &str) -> (r: Result<String, FormatterError>)
        ensures
            r is Ok == rules_compile(),
            r is Ok ==> r->Ok_0@ == simply_formatted(
                self.formatter_config.use_tabs,
                self.formatter_config.indent_width,
                content@,
            ),
            r is Err ==> r->Err_0@ == FormatterErrorView::InvalidRule(first_refused_rule()),
    {
        let rules = match FormatCommand::get_format_rules() {
            Ok(rules) => rules,
            Err(e) => {
                return Err(e);
            },
        };
        let chars = collect_chars(content);
        let ruled = apply_rules(&rules, chars.as_slice());
        let out = indent_items(
            self.formatter_config.use_tabs,
            self.formatter_config.indent_width,
            ruled.as_slice(),
        );
        Ok(string_from_chars(out.as_slice()))
    }
}

/// Applies the safe rules of a list to a line, one after the other.
pub fn apply_to_line(rules: &Vec<FormatRule>, line: &[char]) -> (out: Vec<char>)
    requires
        rules_well_built(rules@),
    ensures
        out@ == applied_from(rule_views(rules@), 0, line@),
{
    let mut current = string_from_chars(line);
    let mut i: usize = 0;
    while i < rules.len()
        invariant
            i <= rules@.len(),
            rules_well_built(rules@),
            applied_from(rule_views(rules@), i as int, current@) == applied_from(
                rule_views(rules@),
                0,
                line@,
            ),
        decreases rules@.len() - i,
    {
        assert(rule_views(rules@)[i as int] == rules@[i as int]@);
        if rules[i].is_safe {
            current = rules[i].apply(current.as_str());
        }
        i = i + 1;
    }
    collect_chars(current.as_str())
}

/// Applies the safe rules of a list to each line of a text.
pub fn apply_rules(rules: &Vec<FormatRule>, s: &[char]) -> (out: Vec<char>)
    requires
        rules_well_built(rules@),
    ensures
        out@ == ruled_text(rule_views(rules@), s@),
{
    let found = lines(s);
    let ghost ruled = text_lines(s@).map_values(
        |l: TextLine| applied_from(rule_views(rules@), 0, l.text),
    );
    let mut parts: Vec<Vec<char>> = Vec::new();
    let mut i: usize = 0;
    while i < found.len()
        invariant
            i <= found@.len(),
            rules_well_built(rules@),
            line_views(found@) == text_lines(s@),
            ruled == text_lines(s@).map_values(
                |l: TextLine| applied_from(rule_views(rules@), 0, l.text),
            ),
            texts(parts@) == ruled.take(i as int),
        decreases found@.len() - i,
    {
        let ghost before = texts(parts@);
        let part = apply_to_line(rules, found[i].text.as_slice());
        assert(line_views(found@)[i as int] == found@[i as int]@);
        parts.push(part);
        assert(texts(parts@) =~= before.push(part@));
        assert(texts(parts@) =~= ruled.take(i + 1));
        i = i + 1;
    }
    assert(line_views(found@).len() == found@.len());
    assert(ruled.take(found@.len() as int) =~= ruled);
    let separator: [char; 1] = ['\n'];
    assert(separator@ =~= lf());
    join(&parts, separator.as_slice())
}

/// The text that a list item is indented by.
pub fn make_indentation(use_tabs: bool, width: usize) -> (out: Vec<char>)
    ensures
        out@ == indentation(use_tabs, width),
{
    let mut out: Vec<char> = Vec::new();
    if use_tabs {
        out.push('\t');
        assert(out@ =~= indentation(use_tabs, width));
    } else {
        let mut i: usize = 0;
        while i < width
            invariant
                i <= width,
                out@ == Seq::new(i as nat, |k: int| ' '),
            decreases width - i,
        {
            out.push(' ');
            assert(out@ =~= Seq::new((i + 1) as nat, |k: int| ' '));
            i = i + 1;
        }
    }
    out
}

/// Indents a line where it is a list item.
pub fn indent_line(indent: &[char], line: &[char]) -> (out: Vec<char>)
    ensures
        out@ == if is_list_item(trimmed(line@)) {
            indent@ + trimmed(line@)
        } else {
            line@
        },
{
    let item = trim(line);
    if item.len() >= 2 && (item[0] == '-' || item[0] == '*') && item[1] == ' ' {
        let mut out = copy(indent);
        out.extend_from_slice(item.as_slice());
        out
    } else {
        copy(line)
    }
}

/// Indents the list items of a text.
pub fn indent_items(use_tabs: bool, width: usize, s: &[char]) -> (out: Vec<char>)
    ensures
        out@ == indented_text(use_tabs, width, s@),
{
    let indent = make_indentation(use_tabs, width);
    let found = lines(s);
    let ghost wanted = text_lines(s@).map_values(|l: TextLine| indented(use_tabs, width, l.text));
    let mut parts: Vec<Vec<char>> = Vec::new();
    let mut i: usize = 0;
    while i < found.len()
        invariant
            i <= found@.len(),
            line_views(found@) == text_lines(s@),
            indent@ == indentation(use_tabs, width),
            wanted == text_lines(s@).map_values(
                |l: TextLine| indented(use_tabs, width, l.text),
            ),
            texts(parts@) == wanted.take(i as int),
        decreases found@.len() - i,
    {
        let ghost before = texts(parts@);
        let part = indent_line(indent.as_slice(), found[i].text.as_slice());
        assert(line_views(found@)[i as int] == found@[i as int]@);
        parts.push(part);
        assert(texts(parts@) =~= before.push(part@));
        assert(texts(parts@) =~= wanted.take(i + 1));
        i = i + 1;
    }
    assert(line_views(found@).len() == found@.len());
    assert(wanted.take(found@.len() as int) =~= wanted);
    let separator: [char; 1] = ['\n'];
    assert(separator@ =~= lf());
    join(&parts, separator.as_slice())
}

/// Where two texts differ first, and in what.
pub struct Difference {
    /// The number of characters that the texts share at their start.
    pub position: usize,
    /// The character of the first text at that place.
    pub original: char,
    /// The character of the second text at that place.
    pub formatted: char,
}

/// Whether two texts agree in their first `n` characters.
pub open spec fn agree_up_to(a: Seq<char>, b: Seq<char>, n: int) -> bool {
    n <= a.len() && n <= b.len() && forall|k: int| 0 <= k < n ==> a[k] == b[k]
}

/// The first place at which two texts hold different characters. There is
/// none where one text is the start of the other.
pub fn first_difference(original: &str, formatted: &str) -> (d: Option<Difference>)
    ensures
        match d {
            Some(d) => {
                &&& agree_up_to(original@, formatted@, d.position as int)
                &&& d.position < original@.len()
                &&& d.position < formatted@.len()
                &&& d.original == original@[d.position as int]
                &&& d.formatted == formatted@[d.position as int]
                &&& d.original != d.formatted
            },
            None => agree_up_to(original@, formatted@, original@.len() as int) || agree_up_to(
                original@,
                formatted@,
                formatted@.len() as int,
            ),
        },
{
    let a = collect_chars(original);
    let b = collect_chars(formatted);
    let mut i: usize = 0;
    while i < a.len() && i < b.len()
        invariant
            a@ == original@,
            b@ == formatted@,
            agree_up_to(a@, b@, i as int),
        decreases a@.len() - i,
    {
        if a[i] != b[i] {
            return Some(Difference { position: i, original: a[i], formatted: b[i] });
        }
        i = i + 1;
    }
    None
}

} // verus!
