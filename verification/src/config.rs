//! The configuration of the formatter, and how a more specific
//! configuration is merged into a more general one.

use vstd::prelude::*;

verus! {

/// Something that another value of its kind can be merged into.
pub trait Merge: Sized {
    /// Merges `other` into `self`; what `other` sets wins.
    fn merge_with(&mut self, other: Self);
}

/// The rule that turns typographic quotes into straight ones.
#[derive(Debug, Clone, Copy, PartialEq, Eq, Structural)]
pub struct SmartQuotesConfig {
    pub enabled: bool,
}

/// The rule that cleans headings.
#[derive(Debug, Clone, Copy, PartialEq, Eq, Structural)]
pub struct HeadingsConfig {
    pub enabled: bool,
    pub remove_emphasis: bool,
}

/// The rule that removes horizontal rules.
#[derive(Debug, Clone, Copy, PartialEq, Eq, Structural)]
pub struct HorizontalRulesConfig {
    pub enabled: bool,
    pub retain_frontmatter_wrappers: bool,
}

/// The rule that standardizes punctuation.
#[derive(Debug, Clone, Copy, PartialEq, Eq, Structural)]
pub struct PunctuationConfig {
    pub enabled: bool,
    pub standardize_dashes: bool,
    pub standardize_ellipsis: bool,
}

/// All the rules.
#[derive(Debug, Clone, Copy, PartialEq, Eq, Structural)]
pub struct RulesConfig {
    pub smart_quotes: SmartQuotesConfig,
    pub headings: HeadingsConfig,
    pub remove_horizontal_rules: HorizontalRulesConfig,
    pub punctuation: PunctuationConfig,
}

/// The configuration of the Markdown formatter.
#[derive(Debug, Clone, Copy, PartialEq, Eq, Structural)]
pub struct MarkdownFormatterConfig {
    pub enabled: bool,
    pub rules: RulesConfig,
}

/// Which files the tool looks at.
#[derive(Debug, Clone)]
pub struct PartialFilesConfiguration {
    pub ignore: Option<Vec<String>>,
    pub included: Option<Vec<String>>,
}

/// How the tool works with version control.
#[derive(Debug, Clone)]
pub struct PartialVcsConfiguration {
    pub enabled: Option<bool>,
    pub client_kind: Option<String>,
    pub use_ignore_file: Option<bool>,
}

/// One configuration file: every part of it may be missing.
#[derive(Debug, Clone)]
pub struct PartialMarkdownFormatterConfiguration {
    pub markdown: Option<MarkdownFormatterConfig>,
    pub files: Option<PartialFilesConfiguration>,
    pub vcs: Option<PartialVcsConfiguration>,
    /// Whether the search for further configuration files stops at this one.
    pub root: bool,
}

/// The configuration that the whole process shares.
#[derive(Debug, Clone)]
pub struct GlobalConfig {
    pub markdown: Option<MarkdownFormatterConfig>,
    pub files: Option<PartialFilesConfiguration>,
    pub vcs: Option<PartialVcsConfiguration>,
}

impl Default for SmartQuotesConfig {
    fn default() -> (c: Self)
        ensures
            c == (SmartQuotesConfig { enabled: false }),
    {
        SmartQuotesConfig { enabled: false }
    }
}

impl Default for HeadingsConfig {
    fn default() -> (c: Self)
        ensures
            c == (HeadingsConfig { enabled: false, remove_emphasis: false }),
    {
        HeadingsConfig { enabled: false, remove_emphasis: false }
    }
}

impl Default for HorizontalRulesConfig {
    fn default() -> (c: Self)
        ensures
            c == (HorizontalRulesConfig { enabled: false, retain_frontmatter_wrappers: false }),
    {
        HorizontalRulesConfig { enabled: false, retain_frontmatter_wrappers: false }
    }
}

impl Default for PunctuationConfig {
    fn default() -> (c: Self)
        ensures
            c == (PunctuationConfig {
                enabled: false,
                standardize_dashes: false,
                standardize_ellipsis: false,
            }),
    {
        PunctuationConfig { enabled: false, standardize_dashes: false, standardize_ellipsis: false }
    }
}

impl RulesConfig {
    /// The rules with every switch off.
    pub open spec fn all_off() -> RulesConfig {
        RulesConfig {
            smart_quotes: SmartQuotesConfig { enabled: false },
            headings: HeadingsConfig { enabled: false, remove_emphasis: false },
            remove_horizontal_rules: HorizontalRulesConfig {
                enabled: false,
                retain_frontmatter_wrappers: false,
            },
            punctuation: PunctuationConfig {
                enabled: false,
                standardize_dashes: false,
                standardize_ellipsis: false,
            },
        }
    }

    /// The rules with every switch on.
    pub open spec fn all_on() -> RulesConfig {
        RulesConfig {
            smart_quotes: SmartQuotesConfig { enabled: true },
            headings: HeadingsConfig { enabled: true, remove_emphasis: true },
            remove_horizontal_rules: HorizontalRulesConfig {
                enabled: true,
                retain_frontmatter_wrappers: true,
            },
            punctuation: PunctuationConfig {
                enabled: true,
                standardize_dashes: true,
                standardize_ellipsis: true,
            },
        }
    }
}

impl Default for RulesConfig {
    fn default() -> (c: Self)
        ensures
            c == RulesConfig::all_off(),
    {
        RulesConfig {
            smart_quotes: SmartQuotesConfig { enabled: false },
            headings: HeadingsConfig { enabled: false, remove_emphasis: false },
            remove_horizontal_rules: HorizontalRulesConfig {
                enabled: false,
                retain_frontmatter_wrappers: false,
            },
            punctuation: PunctuationConfig {
                enabled: false,
                standardize_dashes: false,
                standardize_ellipsis: false,
            },
        }
    }
}

impl MarkdownFormatterConfig {
    /// The configuration of a formatter that applies every rule.
    pub open spec fn all_on() -> MarkdownFormatterConfig {
        MarkdownFormatterConfig { enabled: true, rules: RulesConfig::all_on() }
    }

    /// The configuration of a formatter that applies every rule.
    pub fn everything() -> (c: Self)
        ensures
            c == MarkdownFormatterConfig::all_on(),
    {
        MarkdownFormatterConfig {
            enabled: true,
            rules: RulesConfig {
                smart_quotes: SmartQuotesConfig { enabled: true },
                headings: HeadingsConfig { enabled: true, remove_emphasis: true },
                remove_horizontal_rules: HorizontalRulesConfig {
                    enabled: true,
                    retain_frontmatter_wrappers: true,
                },
                punctuation: PunctuationConfig {
                    enabled: true,
                    standardize_dashes: true,
                    standardize_ellipsis: true,
                },
            },
        }
    }
}

impl Default for MarkdownFormatterConfig {
    fn default() -> (c: Self)
        ensures
            c == (MarkdownFormatterConfig { enabled: false, rules: RulesConfig::all_off() }),
    {
        MarkdownFormatterConfig { enabled: false, rules: RulesConfig::default() }
    }
}

impl Default for PartialFilesConfiguration {
    fn default() -> (c: Self)
        ensures
            c.ignore is None,
            c.included is None,
    {
        PartialFilesConfiguration { ignore: None, included: None }
    }
}

impl Default for PartialVcsConfiguration {
    fn default() -> (c: Self)
        ensures
            c.enabled is None,
            c.client_kind is None,
            c.use_ignore_file is None,
    {
        PartialVcsConfiguration { enabled: None, client_kind: None, use_ignore_file: None }
    }
}

impl Default for PartialMarkdownFormatterConfiguration {
    fn default() -> (c: Self)
        ensures
            c.markdown is None,
            c.files is None,
            c.vcs is None,
            !c.root,
    {
        PartialMarkdownFormatterConfiguration { markdown: None, files: None, vcs: None, root: false }
    }
}

impl PartialMarkdownFormatterConfiguration {
    /// Whether the search for more general configurations ends with this
    /// one: it is marked as the root.
    pub fn ends_search(&self) -> (b: bool)
        ensures
            b == self.root,
    {
        self.root
    }
}

/// The rules of `current` with those rules of `other` that are enabled put
/// in their place.
pub open spec fn merged_rules(current: RulesConfig, other: RulesConfig) -> RulesConfig {
    RulesConfig {
        smart_quotes: if other.smart_quotes.enabled {
            other.smart_quotes
        } else {
            current.smart_quotes
        },
        headings: if other.headings.enabled {
            other.headings
        } else {
            current.headings
        },
        remove_horizontal_rules: if other.remove_horizontal_rules.enabled {
            other.remove_horizontal_rules
        } else {
            current.remove_horizontal_rules
        },
        punctuation: if other.punctuation.enabled {
            other.punctuation
        } else {
            current.punctuation
        },
    }
}

/// The formatter part of a merge: the formatter is enabled where either side
/// enables it, and a rule of `other` replaces the rule of `current` where it
/// is enabled.
pub open spec fn merged_markdown(
    current: Option<MarkdownFormatterConfig>,
    other: Option<MarkdownFormatterConfig>,
) -> Option<MarkdownFormatterConfig> {
    match (current, other) {
        (_, None) => current,
        (None, Some(m)) => Some(m),
        (Some(c), Some(m)) => Some(
            MarkdownFormatterConfig {
                enabled: c.enabled || m.enabled,
                rules: merged_rules(c.rules, m.rules),
            },
        ),
    }
}

/// One optional setting of a merge: what `other` sets wins.
pub open spec fn merged_setting<T>(current: Option<T>, other: Option<T>) -> Option<T> {
    if other is Some {
        other
    } else {
        current
    }
}

/// The files part of a merge.
pub open spec fn merged_files(
    current: Option<PartialFilesConfiguration>,
    other: Option<PartialFilesConfiguration>,
) -> Option<PartialFilesConfiguration> {
    match (current, other) {
        (_, None) => current,
        (None, Some(f)) => Some(f),
        (Some(c), Some(f)) => Some(
            PartialFilesConfiguration {
                ignore: merged_setting(c.ignore, f.ignore),
                included: merged_setting(c.included, f.included),
            },
        ),
    }
}

/// The version-control part of a merge.
pub open spec fn merged_vcs(
    current: Option<PartialVcsConfiguration>,
    other: Option<PartialVcsConfiguration>,
) -> Option<PartialVcsConfiguration> {
    match (current, other) {
        (_, None) => current,
        (None, Some(v)) => Some(v),
        (Some(c), Some(v)) => Some(
            PartialVcsConfiguration {
                enabled: merged_setting(c.enabled, v.enabled),
                client_kind: merged_setting(c.client_kind, v.client_kind),
                use_ignore_file: merged_setting(c.use_ignore_file, v.use_ignore_file),
            },
        ),
    }
}

/// The configuration that results from merging `other` into `current`. The
/// `root` mark of `current` stays.
pub open spec fn merged(
    current: PartialMarkdownFormatterConfiguration,
    other: PartialMarkdownFormatterConfiguration,
) -> PartialMarkdownFormatterConfiguration {
    PartialMarkdownFormatterConfiguration {
        markdown: merged_markdown(current.markdown, other.markdown),
        files: merged_files(current.files, other.files),
        vcs: merged_vcs(current.vcs, other.vcs),
        root: current.root,
    }
}

impl Merge for PartialMarkdownFormatterConfiguration {
    fn merge_with(&mut self, other: Self)
        ensures
            *final(self) == merged(*old(self), other),
    {
        if let Some(markdown) = other.markdown {
            self.markdown = Some(
                match self.markdown.take() {
                    Some(mut current) => {
                        current.enabled = current.enabled || markdown.enabled;
                        if markdown.rules.smart_quotes.enabled {
                            current.rules.smart_quotes = markdown.rules.smart_quotes;
                        }
                        if markdown.rules.headings.enabled {
                            current.rules.headings = markdown.rules.headings;
                        }
                        if markdown.rules.remove_horizontal_rules.enabled {
                            current.rules.remove_horizontal_rules =
                                markdown.rules.remove_horizontal_rules;
                        }
                        if markdown.rules.punctuation.enabled {
                            current.rules.punctuation = markdown.rules.punctuation;
                        }
                        current
                    },
                    None => markdown,
                },
            );
        }
        if let Some(files) = other.files {
            self.files = Some(
                match self.files.take() {
                    Some(mut current) => {
                        if let Some(ignore) = files.ignore {
                            current.ignore = Some(ignore);
                        }
                        if let Some(included) = files.included {
                            current.included = Some(included);
                        }
                        current
                    },
                    None => files,
                },
            );
        }
        if let Some(vcs) = other.vcs {
            self.vcs = Some(
                match self.vcs.take() {
                    Some(mut current) => {
                        if let Some(enabled) = vcs.enabled {
                            current.enabled = Some(enabled);
                        }
                        if let Some(client_kind) = vcs.client_kind {
                            current.client_kind = Some(client_kind);
                        }
                        if let Some(use_ignore_file) = vcs.use_ignore_file {
                            current.use_ignore_file = Some(use_ignore_file);
                        }
                        current
                    },
                    None => vcs,
                },
            );
        }
    }
}

/// The formatter part of the shared configuration, where there is one.
pub fn get_markdown_config(global: Option<&GlobalConfig>) -> (r: Option<&MarkdownFormatterConfig>)
    ensures
        match global {
            Some(g) => match g.markdown {
                Some(m) => r == Some(&m),
                None => r is None,
            },
            None => r is None,
        },
{
    match global {
        Some(config) => config.markdown.as_ref(),
        None => None,
    }
}

/// Where both sides configure the formatter, the merged formatter is enabled
/// exactly where one of the two enables it.
pub proof fn law_merge_enables(
    current: PartialMarkdownFormatterConfiguration,
    other: PartialMarkdownFormatterConfiguration,
)
    requires
        current.markdown is Some,
        other.markdown is Some,
    ensures
        merged(current, other).markdown->0.enabled == (current.markdown->0.enabled
            || other.markdown->0.enabled),
{
}

/// Merging a configuration that sets nothing changes nothing.
pub proof fn law_merge_nothing(
    current: PartialMarkdownFormatterConfiguration,
    other: PartialMarkdownFormatterConfiguration,
)
    requires
        other.markdown is None,
        other.files is None,
        other.vcs is None,
    ensures
        merged(current, other) == current,
{
}

} // verus!
