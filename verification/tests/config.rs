use simora::config::{
    get_markdown_config, GlobalConfig, HeadingsConfig, MarkdownFormatterConfig, Merge,
    PartialFilesConfiguration, PartialMarkdownFormatterConfiguration, PartialVcsConfiguration,
    RulesConfig, SmartQuotesConfig,
};

#[test]
fn test_default_configuration() {
    // Default configuration should have sensible defaults for formatting
    let config = PartialMarkdownFormatterConfiguration::default();

    // By default, no configuration is provided
    assert!(config.markdown.is_none());
    assert!(config.files.is_none());
    assert!(config.vcs.is_none());
    assert!(!config.root);
}

#[test]
fn test_partial_configuration_override() {
    // Create a partial configuration that only specifies smart quotes
    let partial_config = PartialMarkdownFormatterConfiguration {
        markdown: Some(MarkdownFormatterConfig {
            enabled: true,
            rules: RulesConfig {
                smart_quotes: SmartQuotesConfig { enabled: true },
                ..Default::default() // All other rules should remain default (false)
            },
        }),
        ..Default::default()
    };

    // Verify only smart quotes are enabled
    let rules = &partial_config.markdown.unwrap().rules;
    assert!(rules.smart_quotes.enabled);
    assert!(!rules.headings.enabled);
    assert!(!rules.headings.remove_emphasis);
    assert!(!rules.remove_horizontal_rules.enabled);
    assert!(!rules.punctuation.enabled);
    assert!(!rules.punctuation.standardize_dashes);
    assert!(!rules.punctuation.standardize_ellipsis);
}

#[test]
fn test_merge_preserves_defaults() {
    // Base config with all defaults
    let mut base = PartialMarkdownFormatterConfiguration::default();

    // Override with partial config that only sets smart quotes
    let override_config = PartialMarkdownFormatterConfiguration {
        markdown: Some(MarkdownFormatterConfig {
            enabled: true,
            rules: RulesConfig {
                smart_quotes: SmartQuotesConfig { enabled: true },
                ..Default::default()
            },
        }),
        ..Default::default()
    };

    base.merge_with(override_config);

    // Check that only smart quotes were enabled, everything else preserved defaults
    let markdown = base.markdown.unwrap();
    assert!(markdown.enabled);
    assert!(markdown.rules.smart_quotes.enabled);
    assert!(!markdown.rules.headings.enabled);
    assert!(!markdown.rules.headings.remove_emphasis);
    assert!(!markdown.rules.remove_horizontal_rules.enabled);
    assert!(!markdown.rules.punctuation.enabled);
}

#[test]
fn test_merge_multiple_configs() {
    // Root config with base settings
    let mut base = PartialMarkdownFormatterConfiguration {
        markdown: Some(MarkdownFormatterConfig {
            enabled: true,
            rules: RulesConfig {
                smart_quotes: SmartQuotesConfig { enabled: true },
                ..Default::default()
            },
        }),
        root: true,
        ..Default::default()
    };

    // Project config overriding some settings
    let project_config = PartialMarkdownFormatterConfiguration {
        markdown: Some(MarkdownFormatterConfig {
            enabled: true,
            rules: RulesConfig {
                headings: HeadingsConfig {
                    enabled: true,
                    remove_emphasis: true,
                },
                ..Default::default()
            },
        }),
        ..Default::default()
    };

    base.merge_with(project_config);

    let markdown = base.markdown.unwrap();
    assert!(markdown.enabled);
    // Smart quotes from root config preserved
    assert!(markdown.rules.smart_quotes.enabled);
    // Headings from project config applied
    assert!(markdown.rules.headings.enabled);
    assert!(markdown.rules.headings.remove_emphasis);
    // Other rules still default
    assert!(!markdown.rules.remove_horizontal_rules.enabled);
    assert!(!markdown.rules.punctuation.enabled);
}

#[test]
fn test_files_configuration_merge() {
    let mut base = PartialMarkdownFormatterConfiguration {
        files: Some(PartialFilesConfiguration {
            ignore: Some(vec!["**/node_modules/**".to_string()]),
            included: None,
        }),
        ..Default::default()
    };

    let override_config = PartialMarkdownFormatterConfiguration {
        files: Some(PartialFilesConfiguration {
            ignore: None,
            included: Some(vec!["**/*.md".to_string()]),
        }),
        ..Default::default()
    };

    base.merge_with(override_config);

    let files = base.files.unwrap();
    // Original ignore patterns preserved
    assert_eq!(files.ignore.unwrap(), vec!["**/node_modules/**"]);
    // New patterns added
    assert_eq!(files.included.unwrap(), vec!["**/*.md"]);
}

#[test]
fn test_vcs_configuration_merge() {
    let mut base = PartialMarkdownFormatterConfiguration {
        vcs: Some(PartialVcsConfiguration {
            enabled: Some(true),
            client_kind: Some("git".to_string()),
            use_ignore_file: None,
        }),
        ..Default::default()
    };

    let override_config = PartialMarkdownFormatterConfiguration {
        vcs: Some(PartialVcsConfiguration {
            enabled: None,
            client_kind: None,
            use_ignore_file: Some(true),
        }),
        ..Default::default()
    };

    base.merge_with(override_config);

    let vcs = base.vcs.unwrap();
    // Original settings preserved
    assert_eq!(vcs.enabled, Some(true));
    assert_eq!(vcs.client_kind, Some("git".to_string()));
    // New setting added
    assert_eq!(vcs.use_ignore_file, Some(true));
}

#[test]
fn merge_keeps_the_rules_that_the_other_side_leaves_off() {
    let mut base = PartialMarkdownFormatterConfiguration {
        markdown: Some(MarkdownFormatterConfig {
            enabled: false,
            rules: RulesConfig {
                headings: HeadingsConfig {
                    enabled: true,
                    remove_emphasis: true,
                },
                ..Default::default()
            },
        }),
        root: true,
        ..Default::default()
    };
    let other = PartialMarkdownFormatterConfiguration {
        markdown: Some(MarkdownFormatterConfig {
            enabled: false,
            rules: RulesConfig {
                headings: HeadingsConfig {
                    enabled: false,
                    remove_emphasis: false,
                },
                ..Default::default()
            },
        }),
        root: false,
        ..Default::default()
    };
    base.merge_with(other);
    let markdown = base.markdown.unwrap();
    assert!(!markdown.enabled);
    assert!(markdown.rules.headings.enabled);
    assert!(markdown.rules.headings.remove_emphasis);
    assert!(base.root);
}

#[test]
fn merge_replaces_a_setting_that_the_other_side_sets() {
    let mut base = PartialMarkdownFormatterConfiguration {
        vcs: Some(PartialVcsConfiguration {
            enabled: Some(true),
            client_kind: Some("git".to_string()),
            use_ignore_file: Some(false),
        }),
        ..Default::default()
    };
    let other = PartialMarkdownFormatterConfiguration {
        vcs: Some(PartialVcsConfiguration {
            enabled: Some(false),
            client_kind: Some("hg".to_string()),
            use_ignore_file: None,
        }),
        ..Default::default()
    };
    base.merge_with(other);
    let vcs = base.vcs.unwrap();
    assert_eq!(vcs.enabled, Some(false));
    assert_eq!(vcs.client_kind, Some("hg".to_string()));
    assert_eq!(vcs.use_ignore_file, Some(false));
}

#[test]
fn markdown_part_of_the_shared_configuration() {
    assert!(get_markdown_config(None).is_none());
    let without = GlobalConfig {
        markdown: None,
        files: None,
        vcs: None,
    };
    assert!(get_markdown_config(Some(&without)).is_none());
    let with = GlobalConfig {
        markdown: Some(MarkdownFormatterConfig {
            enabled: true,
            rules: RulesConfig::default(),
        }),
        files: None,
        vcs: None,
    };
    let found = get_markdown_config(Some(&with)).unwrap();
    assert!(found.enabled);
    assert!(!found.rules.smart_quotes.enabled);
}

#[test]
fn a_root_configuration_ends_the_search() {
    let mut config = PartialMarkdownFormatterConfiguration::default();
    assert!(!config.ends_search());
    config.root = true;
    assert!(config.ends_search());
}
