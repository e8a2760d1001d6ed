//! The formatter: which rules it applies to which lines, and how often.

use vstd::prelude::*;
use vstd::string::*;
use crate::config::{MarkdownFormatterConfig, PartialMarkdownFormatterConfiguration};
use crate::formatter::rules::{clean_headings, code_fence, headings_text, is_code_fence,
    is_quoted, punctuation_text, quoted, remove_rules, smart_quotes_text,
    standardize_punctuation, straighten_quotes, without_rules, RulePatterns, HEADING_PATTERN,
    RULE_PATTERN};
use crate::engine::regex_compiles;
use crate::text::{blank, collect_chars, copy, is_blank, line_views, lines, same_text,
    string_from_chars, text_lines, LineEnding, TextLine};

verus! {

/// The most rounds that the formatter makes before it gives up.
pub const MAX_ITERATIONS: usize = 100;

/// What the formatter reports where no configuration is set.
pub const NOT_CONFIGURED: &'static str = "Configuration is not set.";

/// What the formatter reports where the text keeps changing.
pub const NOT_STABLE: &'static str = "Output has not stabilized after maximum iterations";

/// Why formatting failed.
#[derive(Debug)]
pub enum FormatterError {
    /// A rule whose regular expression the engine refuses.
    InvalidRule(String),
    /// A configuration that cannot be used.
    ConfigurationError(String),
    /// A text that cannot be formatted.
    FormatError(String),
}

/// A failure of the formatter, with its message as a text.
pub enum FormatterErrorView {
    InvalidRule(Seq<char>),
    ConfigurationError(Seq<char>),
    FormatError(Seq<char>),
}

impl View for FormatterError {
    type V = FormatterErrorView;

    open spec fn view(&self) -> FormatterErrorView {
        match self {
            FormatterError::InvalidRule(m) => FormatterErrorView::InvalidRule(m@),
            FormatterError::ConfigurationError(m) => FormatterErrorView::ConfigurationError(m@),
            FormatterError::FormatError(m) => FormatterErrorView::FormatError(m@),
        }
    }
}

/// The line that a failure is shown as.
pub open spec fn error_message(e: FormatterErrorView) -> Seq<char> {
    match e {
        FormatterErrorView::InvalidRule(m) => "Invalid rule: "@ + m,
        FormatterErrorView::ConfigurationError(m) => "Configuration error: "@ + m,
        FormatterErrorView::FormatError(m) => "Format error: "@ + m,
    }
}

impl FormatterError {
    /// The line that the failure is shown as.
    pub fn to_string(&self) -> (s: String)
        ensures
            s@ == error_message(self@),
    {
        match self {
            FormatterError::InvalidRule(m) => String::from_str("Invalid rule: ").concat(
                m.as_str(),
            ),
            FormatterError::ConfigurationError(m) => String::from_str(
                "Configuration error: ",
            ).concat(m.as_str()),
            FormatterError::FormatError(m) => String::from_str("Format error: ").concat(
                m.as_str(),
            ),
        }
    }
}

/// A text with its typographic quotes made straight, where the
/// configuration asks for it.
pub open spec fn smart_quotes_of(config: Option<MarkdownFormatterConfig>, s: Seq<char>) -> Seq<
    char,
> {
    if config is Some && config->0.rules.smart_quotes.enabled {
        smart_quotes_text(s)
    } else {
        s
    }
}

/// A text with its punctuation standardized, as far as the configuration
/// asks for it.
pub open spec fn punctuation_of(config: Option<MarkdownFormatterConfig>, s: Seq<char>) -> Seq<
    char,
> {
    if config is Some && config->0.rules.punctuation.enabled {
        punctuation_text(
            s,
            config->0.rules.punctuation.standardize_dashes,
            config->0.rules.punctuation.standardize_ellipsis,
        )
    } else {
        s
    }
}

/// A text with its headings cleaned, where the configuration asks for it.
pub open spec fn headings_of(config: Option<MarkdownFormatterConfig>, s: Seq<char>) -> Seq<char> {
    if config is Some && config->0.rules.headings.enabled
        && config->0.rules.headings.remove_emphasis {
        headings_text(s)
    } else {
        s
    }
}

/// A text without its horizontal rules, where the configuration asks for
/// it.
pub open spec fn rules_removed(
    config: Option<MarkdownFormatterConfig>,
    s: Seq<char>,
    in_code_block: bool,
) -> Seq<char> {
    if config is Some && config->0.rules.remove_horizontal_rules.enabled {
        without_rules(
            s,
            config->0.rules.remove_horizontal_rules.retain_frontmatter_wrappers,
            in_code_block,
        )
    } else {
        s
    }
}

/// An ordinary line with the rules for single lines applied: punctuation,
/// then quotes, then headings.
pub open spec fn format_line(config: Option<MarkdownFormatterConfig>, line: Seq<char>) -> Seq<
    char,
> {
    headings_of(config, smart_quotes_of(config, punctuation_of(config, line)))
}

/// The lines from `i` on, formatted one by one and put together again with
/// their endings, and whether the text ends inside a code block. A code
/// fence is kept and turns the code block on or off; a line inside a code
/// block and a quoted line are kept; every other line is formatted.
pub open spec fn formatted_lines(
    config: Option<MarkdownFormatterConfig>,
    lines: Seq<TextLine>,
    i: int,
    in_code_block: bool,
) -> (Seq<char>, bool)
    decreases lines.len() - i,
{
    if i < 0 || i >= lines.len() {
        (Seq::empty(), in_code_block)
    } else if is_code_fence(lines[i].text) {
        let rest = formatted_lines(config, lines, i + 1, !in_code_block);
        (lines[i].text + lines[i].ending + rest.0, rest.1)
    } else if in_code_block || is_quoted(lines[i].text) {
        let rest = formatted_lines(config, lines, i + 1, in_code_block);
        (lines[i].text + lines[i].ending + rest.0, rest.1)
    } else {
        let rest = formatted_lines(config, lines, i + 1, in_code_block);
        (format_line(config, lines[i].text) + lines[i].ending + rest.0, rest.1)
    }
}

/// What one pass of an enabled formatter makes of a text that is not blank:
/// its lines formatted one by one, and then, unless the text ends inside a
/// code block, its horizontal rules removed.
pub open spec fn pass_text(config: Option<MarkdownFormatterConfig>, s: Seq<char>) -> Seq<char> {
    let (text, in_code_block) = formatted_lines(config, text_lines(s), 0, false);
    if in_code_block {
        text
    } else {
        rules_removed(config, text, false)
    }
}

/// What one pass of the formatter makes of a text. An empty text and a blank
/// one are left as they are whatever the configuration; without a
/// configuration every other text is an error; a disabled formatter leaves
/// the text as it is.
pub open spec fn formatted_once(config: Option<MarkdownFormatterConfig>, s: Seq<char>) -> Result<
    Seq<char>,
    FormatterErrorView,
> {
    if s.len() == 0 || is_blank(s) {
        Ok(s)
    } else if config is None {
        Err(FormatterErrorView::ConfigurationError(NOT_CONFIGURED@))
    } else if !config->0.enabled {
        Ok(s)
    } else {
        Ok(pass_text(config, s))
    }
}

/// What one pass of a configured formatter makes of a text.
pub open spec fn once_text(config: MarkdownFormatterConfig, s: Seq<char>) -> Seq<char> {
    if s.len() == 0 || is_blank(s) || !config.enabled {
        s
    } else {
        pass_text(Some(config), s)
    }
}

/// What one round of the formatter makes of a text: two passes, one after
/// the other.
pub open spec fn round_text(config: MarkdownFormatterConfig, s: Seq<char>) -> Seq<char> {
    once_text(config, once_text(config, s))
}

/// The text that the rounds of the formatter arrive at, after `rounds` of
/// them were made already: the first text that a round leaves unchanged.
/// The last round that is allowed fails even where it changes nothing.
pub open spec fn stabilized(config: MarkdownFormatterConfig, s: Seq<char>, rounds: nat) -> Result<
    Seq<char>,
    FormatterErrorView,
>
    decreases MAX_ITERATIONS - rounds,
{
    if rounds + 1 >= MAX_ITERATIONS {
        Err(FormatterErrorView::FormatError(NOT_STABLE@))
    } else if round_text(config, s) == s {
        Ok(s)
    } else {
        stabilized(config, round_text(config, s), rounds + 1)
    }
}

/// What formatting makes of a text. An empty text, a blank one, a missing
/// configuration and a disabled formatter leave the text as it is. Else the
/// rules must compile, and the text goes through rounds until one of them
/// leaves it unchanged.
pub open spec fn formatted(config: Option<MarkdownFormatterConfig>, s: Seq<char>) -> Result<
    Seq<char>,
    FormatterErrorView,
> {
    if s.len() == 0 || is_blank(s) || config is None || !config->0.enabled {
        Ok(s)
    } else if !regex_compiles(HEADING_PATTERN@) {
        Err(FormatterErrorView::InvalidRule(HEADING_PATTERN@))
    } else if !regex_compiles(RULE_PATTERN@) {
        Err(FormatterErrorView::InvalidRule(RULE_PATTERN@))
    } else {
        stabilized(config->0, s, 0)
    }
}

/// Something that formats text.
pub trait Formatter {
    /// Formats a text.
    fn format_content(&self, content: &str) -> Result<String, FormatterError>;

    /// Takes the formatter's part of a configuration.
    fn apply_configuration(&mut self, config: &PartialMarkdownFormatterConfiguration) -> Result<
        (),
        FormatterError,
    >;
}

/// The formatter of Markdown text.
#[derive(Debug)]
pub struct MarkdownFormatter {
    config: Option<MarkdownFormatterConfig>,
}

impl Default for MarkdownFormatter {
    /// A formatter without a configuration.
    fn default() -> (f: Self)
        ensures
            f.config() is None,
    {
        MarkdownFormatter { config: None }
    }
}

impl MarkdownFormatter {
    /// The configuration of the formatter.
    pub closed spec fn config(&self) -> Option<MarkdownFormatterConfig> {
        self.config
    }

    /// A formatter that applies every rule.
    pub fn new() -> (f: Self)
        ensures
            f.config() == Some(MarkdownFormatterConfig::all_on()),
    {
        MarkdownFormatter { config: Some(MarkdownFormatterConfig::everything()) }
    }

    /// A formatter with the formatter's part of the shared configuration,
    /// or one that applies every rule where there is no such part.
    pub fn with_shared(shared: Option<&MarkdownFormatterConfig>) -> (f: Self)
        ensures
            f.config() == match shared {
                Some(c) => Some(*c),
                None => Some(MarkdownFormatterConfig::all_on()),
            },
    {
        match shared {
            Some(c) => MarkdownFormatter { config: Some(*c) },
            None => MarkdownFormatter::new(),
        }
    }

    fn quotes_in(&self, s: &[char]) -> (out: Vec<char>)
        ensures
            out@ == smart_quotes_of(self.config(), s@),
    {
        match &self.config {
            Some(config) => if config.rules.smart_quotes.enabled {
                straighten_quotes(s)
            } else {
                copy(s)
            },
            None => copy(s),
        }
    }

    fn punctuation_in(&self, s: &[char]) -> (out: Vec<char>)
        ensures
            out@ == punctuation_of(self.config(), s@),
    {
        match &self.config {
            Some(config) => if config.rules.punctuation.enabled {
                standardize_punctuation(
                    s,
                    config.rules.punctuation.standardize_dashes,
                    config.rules.punctuation.standardize_ellipsis,
                )
            } else {
                copy(s)
            },
            None => copy(s),
        }
    }

    fn headings_in(&self, patterns: &RulePatterns, s: &[char]) -> (out: Vec<char>)
        ensures
            out@ == headings_of(self.config(), s@),
    {
        match &self.config {
            Some(config) => if config.rules.headings.enabled
                && config.rules.headings.remove_emphasis {
                clean_headings(patterns, s)
            } else {
                copy(s)
            },
            None => copy(s),
        }
    }

    fn rules_out_of(&self, patterns: &RulePatterns, s: &[char], in_code_block: bool) -> (out: Vec<
        char,
    >)
        ensures
            out@ == rules_removed(self.config(), s@, in_code_block),
    {
        match &self.config {
            Some(config) => if config.rules.remove_horizontal_rules.enabled {
                remove_rules(
                    patterns,
                    s,
                    config.rules.remove_horizontal_rules.retain_frontmatter_wrappers,
                    in_code_block,
                )
            } else {
                copy(s)
            },
            None => copy(s),
        }
    }

    /// Makes the typographic quotes of a text straight, where the
    /// configuration asks for it.
    pub fn format_smart_quotes(&self, content: &str) -> (out: String)
        ensures
            out@ == smart_quotes_of(self.config(), content@),
    {
        let chars = collect_chars(content);
        let out = self.quotes_in(chars.as_slice());
        string_from_chars(out.as_slice())
    }

    /// Removes the bold marks from headings, where the configuration asks
    /// for it.
    pub fn format_headings(&self, patterns: &RulePatterns, content: &str) -> (out: String)
        ensures
            out@ == headings_of(self.config(), content@),
    {
        let chars = collect_chars(content);
        let out = self.headings_in(patterns, chars.as_slice());
        string_from_chars(out.as_slice())
    }

    /// Removes horizontal rules, where the configuration asks for it.
    pub fn remove_horizontal_rules(
        &self,
        patterns: &RulePatterns,
        content: &str,
        in_code_block: bool,
    ) -> (out: String)
        ensures
            out@ == rules_removed(self.config(), content@, in_code_block),
    {
        let chars = collect_chars(content);
        let out = self.rules_out_of(patterns, chars.as_slice(), in_code_block);
        string_from_chars(out.as_slice())
    }

    /// Standardizes punctuation, as far as the configuration asks for it.
    pub fn format_punctuation(&self, content: &str) -> (out: String)
        ensures
            out@ == punctuation_of(self.config(), content@),
    {
        let chars = collect_chars(content);
        let out = self.punctuation_in(chars.as_slice());
        string_from_chars(out.as_slice())
    }

    /// Whether a line opens or closes a block that is left unformatted: a
    /// code fence.
    pub fn is_unformatted_block_start(line: &str) -> (b: bool)
        ensures
            b == is_code_fence(line@),
    {
        let chars = collect_chars(line);
        code_fence(chars.as_slice())
    }

    fn pass(&self, patterns: &RulePatterns, s: &[char]) -> (out: Vec<char>)
        ensures
            out@ == pass_text(self.config(), s@),
    {
        let found = lines(s);
        let ghost all = text_lines(s@);
        let ghost total = formatted_lines(self.config(), all, 0, false);
        let mut out: Vec<char> = Vec::new();
        let mut in_code_block = false;
        let mut i: usize = 0;
        while i < found.len()
            invariant
                i <= found@.len(),
                line_views(found@) == all,
                out@ + formatted_lines(self.config(), all, i as int, in_code_block).0 == total.0,
                formatted_lines(self.config(), all, i as int, in_code_block).1 == total.1,
            decreases found@.len() - i,
        {
            let ghost before = out@;
            let ghost rest = formatted_lines(self.config(), all, i as int, in_code_block);
            let line = &found[i];
            assert(all[i as int] == line@);
            let text = line.text.as_slice();
            if code_fence(text) {
                out.extend_from_slice(text);
                in_code_block = !in_code_block;
            } else if in_code_block || quoted(text) {
                out.extend_from_slice(text);
            } else {
                let a = self.punctuation_in(text);
                let b = self.quotes_in(a.as_slice());
                let c = self.headings_in(patterns, b.as_slice());
                out.extend_from_slice(c.as_slice());
            }
            match line.ending {
                LineEnding::Lf => {
                    out.push('\n');
                },
                LineEnding::CrLf => {
                    out.push('\r');
                    out.push('\n');
                },
                LineEnding::Open => {},
            }
            i = i + 1;
            assert(out@ + formatted_lines(self.config(), all, i as int, in_code_block).0
                =~= before + rest.0);
        }
        assert(line_views(found@).len() == found@.len());
        assert(out@ =~= total.0);
        if in_code_block {
            out
        } else {
            self.rules_out_of(patterns, out.as_slice(), false)
        }
    }

    /// Makes one pass over a text.
    pub fn format_content_once(&self, patterns: &RulePatterns, content: &str) -> (r: Result<
        String,
        FormatterError,
    >)
        ensures
            match r {
                Ok(out) => formatted_once(self.config(), content@) == Ok::<
                    Seq<char>,
                    FormatterErrorView,
                >(out@),
                Err(e) => formatted_once(self.config(), content@) == Err::<
                    Seq<char>,
                    FormatterErrorView,
                >(e@),
            },
    {
        let chars = collect_chars(content);
        if chars.len() == 0 || blank(chars.as_slice()) {
            return Ok(string_from_chars(chars.as_slice()));
        }
        match &self.config {
            None => Err(FormatterError::ConfigurationError(String::from_str(NOT_CONFIGURED))),
            Some(config) => if !config.enabled {
                Ok(string_from_chars(chars.as_slice()))
            } else {
                let out = self.pass(patterns, chars.as_slice());
                Ok(string_from_chars(out.as_slice()))
            },
        }
    }

    fn once(&self, patterns: &RulePatterns, s: &[char]) -> (out: Vec<char>)
        requires
            self.config() is Some,
        ensures
            out@ == once_text(self.config()->0, s@),
    {
        if s.len() == 0 || blank(s) {
            return copy(s);
        }
        match &self.config {
            None => copy(s),
            Some(config) => if !config.enabled {
                copy(s)
            } else {
                self.pass(patterns, s)
            },
        }
    }
}

impl Formatter for MarkdownFormatter {
    /// Formats a text: makes rounds of two passes until a round leaves the
    /// text unchanged.
    fn format_content(&self, content: &str) -> (r: Result<String, FormatterError>)
        ensures
            match r {
                Ok(out) => formatted(self.config(), content@) == Ok::<
                    Seq<char>,
                    FormatterErrorView,
                >(out@),
                Err(e) => formatted(self.config(), content@) == Err::<
                    Seq<char>,
                    FormatterErrorView,
                >(e@),
            },
    {
        let chars = collect_chars(content);
        if chars.len() == 0 || blank(chars.as_slice()) {
            return Ok(string_from_chars(chars.as_slice()));
        }
        let config = match &self.config {
            None => {
                return Ok(string_from_chars(chars.as_slice()));
            },
            Some(config) => config,
        };
        if !config.enabled {
            return Ok(string_from_chars(chars.as_slice()));
        }
        let patterns = match RulePatterns::compile() {
            Ok(patterns) => patterns,
            Err(refused) => {
                return Err(FormatterError::InvalidRule(refused));
            },
        };
        let mut current = chars;
        let mut iterations: usize = 0;
        loop
            invariant
                iterations < MAX_ITERATIONS,
                self.config() == Some(*config),
                stabilized(*config, current@, iterations as nat) == formatted(
                    self.config(),
                    content@,
                ),
            decreases MAX_ITERATIONS - iterations,
        {
            let intermediate = self.once(&patterns, current.as_slice());
            let next = self.once(&patterns, intermediate.as_slice());
            iterations = iterations + 1;
            if iterations >= MAX_ITERATIONS {
                return Err(FormatterError::FormatError(String::from_str(NOT_STABLE)));
            }
            if same_text(next.as_slice(), current.as_slice()) {
                return Ok(string_from_chars(next.as_slice()));
            }
            current = next;
        }
    }

    /// Takes the formatter's part of a configuration, or drops the
    /// configuration where that part is missing.
    fn apply_configuration(&mut self, config: &PartialMarkdownFormatterConfiguration) -> (r:
        Result<(), FormatterError>)
        ensures
            r is Ok,
            final(self).config() == config.markdown,
    {
        self.config = config.markdown;
        Ok(())
    }
}

/// Formatting is idempotent: a text that formatting arrives at is left
/// unchanged when it is formatted again.
pub proof fn law_formatted_is_stable(
    config: Option<MarkdownFormatterConfig>,
    s: Seq<char>,
    t: Seq<char>,
)
    requires
        formatted(config, s) == Ok::<Seq<char>, FormatterErrorView>(t),
    ensures
        formatted(config, t) == Ok::<Seq<char>, FormatterErrorView>(t),
{
    if !(s.len() == 0 || is_blank(s) || config is None || !config->0.enabled) {
        lemma_stabilized_is_fixed(config->0, s, 0, t);
    }
}

proof fn lemma_stabilized_is_fixed(
    config: MarkdownFormatterConfig,
    s: Seq<char>,
    rounds: nat,
    t: Seq<char>,
)
    requires
        stabilized(config, s, rounds) == Ok::<Seq<char>, FormatterErrorView>(t),
    ensures
        round_text(config, t) == t,
    decreases MAX_ITERATIONS - rounds,
{
    if rounds + 1 < MAX_ITERATIONS && round_text(config, s) != s {
        lemma_stabilized_is_fixed(config, round_text(config, s), rounds + 1, t);
    }
}

/// Without a configuration, and with a disabled formatter, formatting
/// changes nothing.
pub proof fn law_disabled_changes_nothing(config: Option<MarkdownFormatterConfig>, s: Seq<char>)
    requires
        config is None || !config->0.enabled,
    ensures
        formatted(config, s) == Ok::<Seq<char>, FormatterErrorView>(s),
{
}

} // verus!
