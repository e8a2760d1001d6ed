use simora::config::{
    HeadingsConfig, HorizontalRulesConfig, MarkdownFormatterConfig,
    PartialMarkdownFormatterConfiguration, PunctuationConfig, RulesConfig, SmartQuotesConfig,
};
use simora::formatter::markdown::{Formatter, MarkdownFormatter};

fn create_test_config() -> PartialMarkdownFormatterConfiguration {
    PartialMarkdownFormatterConfiguration {
        root: false,
        markdown: Some(MarkdownFormatterConfig {
            enabled: true,
            rules: RulesConfig {
                smart_quotes: SmartQuotesConfig { enabled: true },
                headings: HeadingsConfig {
                    enabled: true,
                    remove_emphasis: true,
                },
                remove_horizontal_rules: HorizontalRulesConfig {
                    enabled: true,
                    retain_frontmatter_wrappers: true,
                },
                punctuation: PunctuationConfig {
                    enabled: true,
                    standardize_dashes: true,
                    standardize_ellipsis: true,
                },
            },
        }),
        files: None,
        vcs: None,
    }
}

// Smart Quotes Tests
#[test]
fn test_smart_quotes_all_variants() {
    let mut formatter = MarkdownFormatter::new();
    formatter
        .apply_configuration(&create_test_config())
        .unwrap();

    let input = r#""double" "double" 'single' 'single'"#;
    let expected = r#""double" "double" 'single' 'single'"#;
    let result = formatter.format_content(input).unwrap();
    assert_eq!(result, expected);
}

#[test]
fn test_smart_quotes_nested() {
    let mut formatter = MarkdownFormatter::new();
    formatter
        .apply_configuration(&create_test_config())
        .unwrap();

    let input = r#""He said 'hello' to me""#;
    let expected = r#""He said 'hello' to me""#;
    let result = formatter.format_content(input).unwrap();
    assert_eq!(result, expected);
}

#[test]
fn test_smart_quotes_apostrophes() {
    let mut formatter = MarkdownFormatter::new();
    formatter
        .apply_configuration(&create_test_config())
        .unwrap();

    let input = r#"Don't can't won't it's"#;
    let expected = r#"Don't can't won't it's"#;
    let result = formatter.format_content(input).unwrap();
    assert_eq!(result, expected);
}

#[test]
fn test_smart_quotes_disabled() {
    let mut formatter = MarkdownFormatter::new();
    let mut config = create_test_config();
    if let Some(ref mut markdown) = config.markdown {
        markdown.rules.smart_quotes.enabled = false;
    }
    formatter.apply_configuration(&config).unwrap();

    let input = r#""smart" quotes 'unchanged'"#;
    let result = formatter.format_content(input).unwrap();
    assert_eq!(result, input);
}

// Heading Tests
#[test]
fn test_headings_all_levels() {
    let mut formatter = MarkdownFormatter::new();
    formatter
        .apply_configuration(&create_test_config())
        .unwrap();

    let input = "# **H1**\n## **H2**\n### **H3**\n#### **H4**\n##### **H5**\n###### **H6**";
    let expected = "# H1\n## H2\n### H3\n#### H4\n##### H5\n###### H6";
    let result = formatter.format_content(input).unwrap();
    assert_eq!(result, expected);
}

#[test]
fn test_headings_without_emphasis() {
    let mut formatter = MarkdownFormatter::new();
    formatter
        .apply_configuration(&create_test_config())
        .unwrap();

    let input = "# Plain H1\n## Plain H2";
    let result = formatter.format_content(input).unwrap();
    assert_eq!(result, input);
}

#[test]
fn test_headings_malformed() {
    let mut formatter = MarkdownFormatter::new();
    formatter
        .apply_configuration(&create_test_config())
        .unwrap();

    let input = "#Not a heading\n##**Bad Space**";
    let result = formatter.format_content(input).unwrap();
    assert_eq!(result, input);
}

#[test]
fn test_headings_disabled() {
    let mut formatter = MarkdownFormatter::new();
    let mut config = create_test_config();
    if let Some(ref mut markdown) = config.markdown {
        markdown.rules.headings.enabled = false;
    }
    formatter.apply_configuration(&config).unwrap();

    let input = "# **Title Still Bold**";
    let result = formatter.format_content(input).unwrap();
    assert_eq!(result, input);
}

// Horizontal Rules Tests
#[test]
fn test_horizontal_rules_variants() {
    let mut formatter = MarkdownFormatter::new();
    formatter
        .apply_configuration(&create_test_config())
        .unwrap();

    let inputs = [
        "Before\n---\nAfter",
        "Before\n  ---  \nAfter",
        "Before\n\n---\n\nAfter",
        "Before\n\n  ---  \n\nAfter",
    ];

    for input in inputs.iter() {
        let result = formatter.format_content(input).unwrap();
        assert_eq!(result, "Before\n\nAfter");
    }
}

#[test]
fn test_horizontal_rules_not_on_own_line() {
    let mut formatter = MarkdownFormatter::new();
    formatter
        .apply_configuration(&create_test_config())
        .unwrap();

    let inputs = [
        "Text --- more text",
        "Text---text",
        "Some---",
        "---text",
        "Text\nSome text --- more\nText",
    ];

    for input in inputs.iter() {
        let result = formatter.format_content(*input).unwrap();
        assert_eq!(result, *input);
    }
}

#[test]
fn test_horizontal_rules_consecutive() {
    let mut formatter = MarkdownFormatter::new();
    formatter
        .apply_configuration(&create_test_config())
        .unwrap();

    let input = "Text\n---\n---\n---\nMore text";
    let expected = "Text\n\nMore text";
    let result = formatter.format_content(input).unwrap();
    assert_eq!(result, expected);
}

#[test]
fn test_horizontal_rules_at_boundaries() {
    let mut formatter = MarkdownFormatter::new();
    formatter
        .apply_configuration(&create_test_config())
        .unwrap();

    let input = "---\nStart text\n---\nEnd text\n---";
    let expected = "\nStart text\n\nEnd text\n";
    let result = formatter.format_content(input).unwrap();
    assert_eq!(result, expected);
}

// Punctuation Tests
#[test]
fn test_punctuation_dashes_in_context() {
    let mut formatter = MarkdownFormatter::new();
    formatter
        .apply_configuration(&create_test_config())
        .unwrap();

    let input = "Word—word and word–word";
    let expected = "Word-word and word-word";
    let result = formatter.format_content(input).unwrap();
    assert_eq!(result, expected);
}

#[test]
fn test_punctuation_ellipsis_in_context() {
    let mut formatter = MarkdownFormatter::new();
    formatter
        .apply_configuration(&create_test_config())
        .unwrap();

    let input = "To be continued… and more…";
    let expected = "To be continued... and more...";
    let result = formatter.format_content(input).unwrap();
    assert_eq!(result, expected);
}

#[test]
fn test_punctuation_mixed() {
    let mut formatter = MarkdownFormatter::new();
    formatter
        .apply_configuration(&create_test_config())
        .unwrap();

    let input = "Start—middle…end–final";
    let expected = "Start-middle...end-final";
    let result = formatter.format_content(input).unwrap();
    assert_eq!(result, expected);
}

#[test]
fn test_punctuation_disabled() {
    let mut formatter = MarkdownFormatter::new();
    let mut config = create_test_config();
    if let Some(ref mut markdown) = config.markdown {
        markdown.rules.punctuation.enabled = false;
    }
    formatter.apply_configuration(&config).unwrap();

    let input = "Word—word…word";
    let result = formatter.format_content(input).unwrap();
    assert_eq!(result, input);
}

// Edge Cases and Error Handling
#[test]
fn test_empty_content() {
    let mut formatter = MarkdownFormatter::new();
    formatter
        .apply_configuration(&create_test_config())
        .unwrap();

    let result = formatter.format_content("").unwrap();
    assert_eq!(result, "");
}

#[test]
fn test_whitespace_only() {
    let mut formatter = MarkdownFormatter::new();
    formatter
        .apply_configuration(&create_test_config())
        .unwrap();

    let input = "   \n  \t  \n  ";
    let result = formatter.format_content(input).unwrap();
    assert_eq!(result, input);
}

#[test]
fn test_no_configuration() {
    let formatter = MarkdownFormatter::new();
    let result = formatter.format_content("test").unwrap(); // Change to unwrap to get the result
    assert_eq!(result, "test"); // Expect the original content to be returned
}

#[test]
fn test_all_rules_disabled() {
    let mut formatter = MarkdownFormatter::new();
    let mut config = create_test_config();
    if let Some(ref mut markdown) = config.markdown {
        markdown.rules.smart_quotes.enabled = false;
        markdown.rules.headings.enabled = false;
        markdown.rules.remove_horizontal_rules.enabled = false;
        markdown.rules.punctuation.enabled = false;
    }
    formatter.apply_configuration(&config).unwrap();

    let input = r#"# **Title**

"Quote" with 'marks'

---

Word—word…end"#;
    let result = formatter.format_content(input).unwrap();
    assert_eq!(result, input);
}

// Rule Interaction Tests
#[test]
fn test_heading_with_smart_quotes() {
    let mut formatter = MarkdownFormatter::new();
    formatter
        .apply_configuration(&create_test_config())
        .unwrap();

    let input = r#"# **Don't "Quote" Me**"#;
    let expected = r#"# Don't "Quote" Me"#;
    let result = formatter.format_content(input).unwrap();
    assert_eq!(result, expected);
}

#[test]
fn test_heading_with_dashes_and_quotes() {
    let mut formatter = MarkdownFormatter::new();
    formatter
        .apply_configuration(&create_test_config())
        .unwrap();

    let input = r#"# **The "Quick"—Brown—Fox**"#;
    let expected = r#"# The "Quick"-Brown-Fox"#;
    let result = formatter.format_content(input).unwrap();
    assert_eq!(result, expected);
}

#[test]
fn test_heading_with_bold_and_ellipsis() {
    let mut formatter = MarkdownFormatter::new();
    formatter
        .apply_configuration(&create_test_config())
        .unwrap();

    let input = "# **To Be Continued…**";
    let expected = "# To Be Continued...";
    let result = formatter.format_content(input).unwrap();
    assert_eq!(result, expected);
}

#[test]
fn test_complex_mixed_content() {
    let mut formatter = MarkdownFormatter::new();
    formatter
        .apply_configuration(&create_test_config())
        .unwrap();

    let input = r#"# **Don't "Quote" Me—I'm…**

Here's a line with "quotes" and a dash—plus an ellipsis…

---

## **Another "Heading"—With—Style…**"#;

    let expected = r#"# Don't "Quote" Me-I'm...

Here's a line with "quotes" and a dash-plus an ellipsis...

## Another "Heading"-With-Style..."#;

    let result = formatter.format_content(input).unwrap();
    assert_eq!(result, expected);
}

#[test]
fn test_rule_order_independence() {
    let mut formatter = MarkdownFormatter::new();
    formatter
        .apply_configuration(&create_test_config())
        .unwrap();

    // The result should be the same regardless of which characters appear first
    let inputs = [
        r#"# **"Quoted" Title—With—Dash…**"#,
        r#"# **…Dash—With—"Quoted" Title**"#,
        r#"# **—"Quoted"…Title—**"#,
    ];

    let expected = [
        r#"# "Quoted" Title-With-Dash..."#,
        r#"# ...Dash-With-"Quoted" Title"#,
        r#"# -"Quoted"...Title-"#,
    ];

    for (input, expected) in inputs.iter().zip(expected.iter()) {
        let result = formatter.format_content(input).unwrap();
        assert_eq!(&result, expected);
    }
}

#[test]
fn test_selective_rule_disabling_with_mixed_content() {
    let mut formatter = MarkdownFormatter::new();
    let mut config = create_test_config();
    if let Some(ref mut markdown) = config.markdown {
        // Only disable smart quotes, keep other rules enabled
        markdown.rules.smart_quotes.enabled = false;
    }
    formatter.apply_configuration(&config).unwrap();

    let input = r#"# **"Title" with—dash…**"#;
    let expected = r#"# "Title" with-dash..."#;
    let result = formatter.format_content(input).unwrap();
    assert_eq!(result, expected);
}

#[test]
fn test_horizontal_rules_in_blockquotes() {
    let mut formatter = MarkdownFormatter::new();
    formatter
        .apply_configuration(&create_test_config())
        .unwrap();

    let input = "Before\n> ---\nAfter";
    let expected = "Before\n> ---\nAfter";
    let result = formatter.format_content(input).unwrap();
    assert_eq!(result, expected);
}

#[test]
fn test_heading_with_horizontal_rules() {
    let mut formatter = MarkdownFormatter::new();
    formatter
        .apply_configuration(&create_test_config())
        .unwrap();

    let input = "# **Title**\n---\nContent";
    let expected = "# Title\n\nContent";
    let result = formatter.format_content(input).unwrap();
    assert_eq!(result, expected);

    let input = "Content\n---\n# **Title**";
    let expected = "Content\n\n# Title";
    let result = formatter.format_content(input).unwrap();
    assert_eq!(result, expected);
}

#[test]
fn test_unicode_whitespace() {
    let mut formatter = MarkdownFormatter::new();
    formatter
        .apply_configuration(&create_test_config())
        .unwrap();

    let input = "Before\n\u{2003}---\u{2003}\nAfter"; // Em space
    let expected = "Before\n\nAfter";
    let result = formatter.format_content(input).unwrap();
    assert_eq!(result, expected);

    let input = "Before\n\u{00A0}---\u{00A0}\nAfter"; // Non-breaking space
    let expected = "Before\n\nAfter";
    let result = formatter.format_content(input).unwrap();
    assert_eq!(result, expected);
}

#[test]
fn test_all_rules_interaction() {
    let mut formatter = MarkdownFormatter::new();
    formatter
        .apply_configuration(&create_test_config())
        .unwrap();

    let input = r#"# **"Title"**
## **Heading—With—Style…**
## **Final "Heading"**"
---
> Some "quoted" text with—dashes…
---
## **Final "Heading"—With—Style…**"#;

    let expected = r#"# "Title"
## Heading-With-Style...
## **Final "Heading"**"

> Some "quoted" text with—dashes…

## Final "Heading"-With-Style..."#;

    let result = formatter.format_content(input).unwrap();
    assert_eq!(result, expected, "Failed to format content correctly.\n\nActual input:\n{}\n\nActual output:\n{}\n\nActual expected:\n{}", input, result, expected);
}

#[test]
fn test_selective_rule_enabling() {
    let mut formatter = MarkdownFormatter::new();
    let mut config = create_test_config();
    if let Some(ref mut markdown) = config.markdown {
        markdown.rules.smart_quotes.enabled = false;
        markdown.rules.headings.enabled = true;
        markdown.rules.remove_horizontal_rules.enabled = false;
        markdown.rules.punctuation.enabled = false;
    }
    formatter.apply_configuration(&config).unwrap();

    let input = r#"# **"Title"**
---
## **"Heading"—With—Style…**"#;

    let expected = r#"# "Title"
---
## "Heading"—With—Style…"#;

    let result = formatter.format_content(input).unwrap();
    assert_eq!(result, expected);
}

#[test]
fn test_empty_document() {
    let mut formatter = MarkdownFormatter::new();
    formatter
        .apply_configuration(&create_test_config())
        .unwrap();

    let input = "";
    let expected = "";
    let result = formatter.format_content(input).unwrap();
    assert_eq!(result, expected);
}

#[test]
fn test_only_horizontal_rules() {
    let mut formatter = MarkdownFormatter::new();
    formatter
        .apply_configuration(&create_test_config())
        .unwrap();

    let input = "---\n---\n---";
    let expected = "";
    let result = formatter.format_content(input).unwrap();
    assert_eq!(result, expected);
}

#[test]
fn test_punctuation_multiple_on_line() {
    let mut formatter = MarkdownFormatter::new();
    formatter
        .apply_configuration(&create_test_config())
        .unwrap();

    let input = "Text—with—multiple—dashes";
    let expected = "Text-with-multiple-dashes";
    let result = formatter.format_content(input).unwrap();
    assert_eq!(result, expected);
}

#[test]
fn test_punctuation_multiple_ellipsis() {
    let mut formatter = MarkdownFormatter::new();
    formatter
        .apply_configuration(&create_test_config())
        .unwrap();

    let input = "First…second…third…";
    let expected = "First...second...third...";
    let result = formatter.format_content(input).unwrap();
    assert_eq!(result, expected);
}

#[test]
fn test_punctuation_mixed_multiple() {
    let mut formatter = MarkdownFormatter::new();
    formatter
        .apply_configuration(&create_test_config())
        .unwrap();

    let input = "Text—with…mixed—punctuation…marks";
    let expected = "Text-with...mixed-punctuation...marks";
    let result = formatter.format_content(input).unwrap();
    assert_eq!(result, expected);
}

#[test]
fn test_punctuation_consecutive() {
    let mut formatter = MarkdownFormatter::new();
    formatter
        .apply_configuration(&create_test_config())
        .unwrap();

    let input = "Text——with……consecutive—punctuation";
    let expected = "Text--with......consecutive-punctuation";
    let result = formatter.format_content(input).unwrap();
    assert_eq!(result, expected);
}

#[test]
fn test_blockquote_state_reset() {
    let mut formatter = MarkdownFormatter::new();
    formatter
        .apply_configuration(&create_test_config())
        .unwrap();

    let input = r#"> Some quoted text
## **Should remove bold**"#;

    let expected = r#"> Some quoted text
## Should remove bold"#;

    let result = formatter.format_content(input).unwrap();
    assert_eq!(
        result, expected,
        "Failed to reset blockquote state. Actual output:\n{}",
        result
    );
}

#[test]
fn test_heading_bold_removal() {
    let mut formatter = MarkdownFormatter::new();
    formatter
        .apply_configuration(&create_test_config())
        .unwrap();

    let input = "## **Heading with bold**";
    let expected = "## Heading with bold";
    let result = formatter.format_content(input).unwrap();
    assert_eq!(result, expected);
}

#[test]
fn test_heading_with_quotes() {
    let mut formatter = MarkdownFormatter::new();
    formatter
        .apply_configuration(&create_test_config())
        .unwrap();

    let input = r#"## **"Heading with quotes"**"#;
    let expected = r#"## "Heading with quotes""#;
    let result = formatter.format_content(input).unwrap();
    assert_eq!(result, expected);
}

#[test]
fn test_heading_with_dashes() {
    let mut formatter = MarkdownFormatter::new();
    formatter
        .apply_configuration(&create_test_config())
        .unwrap();

    let input = "## Heading—With—Dashes";
    let expected = "## Heading-With-Dashes";
    let result = formatter.format_content(input).unwrap();
    assert_eq!(result, expected);
}

#[test]
fn test_heading_with_ellipsis() {
    let mut formatter = MarkdownFormatter::new();
    formatter
        .apply_configuration(&create_test_config())
        .unwrap();

    let input = "## Heading with ellipsis…";
    let expected = "## Heading with ellipsis...";
    let result = formatter.format_content(input).unwrap();
    assert_eq!(result, expected);
}

#[test]
fn test_heading_with_trailing_quote() {
    let mut formatter = MarkdownFormatter::new();
    formatter
        .apply_configuration(&create_test_config())
        .unwrap();

    let input = r#"## **"Heading"**""#;
    let expected = r#"## **"Heading"**""#;
    let result = formatter.format_content(input).unwrap();
    assert_eq!(
        result, expected,
        "Failed to format heading with trailing quote.\nActual: {}\nExpected: {}",
        result, expected
    );
}

#[test]
fn test_heading_with_proper_bold() {
    let mut formatter = MarkdownFormatter::new();
    formatter
        .apply_configuration(&create_test_config())
        .unwrap();

    let input = r#"## **"Heading"**"#;
    let expected = r#"## "Heading""#;

    let result = formatter.format_content(input).unwrap();
    assert_eq!(
        result, expected,
        "Failed to format heading with proper bold markers.\nActual: {}\nExpected: {}",
        result, expected
    );
}

#[test]
fn test_blockquote_preservation() {
    let mut formatter = MarkdownFormatter::new();
    formatter
        .apply_configuration(&create_test_config())
        .unwrap();

    let input = "> Text with—dashes… and \"quotes\"";
    let expected = "> Text with—dashes… and \"quotes\"";
    let result = formatter.format_content(input).unwrap();
    assert_eq!(result, expected);
}

#[test]
fn test_horizontal_rule_removal() {
    let mut formatter = MarkdownFormatter::new();
    formatter
        .apply_configuration(&create_test_config())
        .unwrap();

    let input = "Text\n---\nMore text";
    let expected = "Text\n\nMore text";
    let result = formatter.format_content(input).unwrap();
    assert_eq!(result, expected);
}

#[test]
fn test_frontmatter_preservation() {
    let mut formatter = MarkdownFormatter::new();
    let mut config = create_test_config();
    if let Some(ref mut markdown) = config.markdown {
        markdown.rules.remove_horizontal_rules.retain_frontmatter_wrappers = true;
    }
    formatter.apply_configuration(&config).unwrap();

    let input = r#"---
title: "Test Post"
date: 2025-01-06
---

# Content

---

## More Content"#;

    let expected = r#"---
title: "Test Post"
date: 2025-01-06
---

# Content

## More Content"#;

    let result = formatter.format_content(input).unwrap();
    assert_eq!(result, expected);
}

#[test]
fn test_frontmatter_removal_when_disabled() {
    let mut formatter = MarkdownFormatter::new();
    let mut config = create_test_config();
    if let Some(ref mut markdown) = config.markdown {
        markdown.rules.remove_horizontal_rules.retain_frontmatter_wrappers = false;
        markdown.rules.remove_horizontal_rules.enabled = true;
    }
    formatter.apply_configuration(&config).unwrap();

    let input = r#"---
title: "Test Post"
date: 2025-01-06
---

# Content

---

## More Content"#;

    let expected = r#"
title: "Test Post"
date: 2025-01-06

# Content

## More Content"#;

    let result = formatter.format_content(input).unwrap();
    assert_eq!(result, expected);
}

#[test]
fn test_frontmatter_with_multiple_horizontal_rules() {
    let mut formatter = MarkdownFormatter::new();
    let mut config = create_test_config();
    if let Some(ref mut markdown) = config.markdown {
        markdown.rules.remove_horizontal_rules.retain_frontmatter_wrappers = true;
    }
    formatter.apply_configuration(&config).unwrap();

    let input = r#"---
title: "Test Post"
date: 2025-01-06
---

# First Section

---

## Second Section

---

### Third Section"#;

    let expected = r#"---
title: "Test Post"
date: 2025-01-06
---

# First Section

## Second Section

### Third Section"#;

    let result = formatter.format_content(input).unwrap();
    assert_eq!(result, expected);
}

#[test]
fn test_frontmatter_default_behavior() {
    let mut formatter = MarkdownFormatter::new();
    formatter
        .apply_configuration(&create_test_config())
        .unwrap();

    // By default, front matter wrappers should be preserved
    let input = r#"---
title: "Test Post"
date: 2025-01-06
---

# Content"#;

    let expected = r#"---
title: "Test Post"
date: 2025-01-06
---

# Content"#;

    let result = formatter.format_content(input).unwrap();
    assert_eq!(result, expected);
}

#[test]
fn test_no_frontmatter_horizontal_rules() {
    let mut formatter = MarkdownFormatter::new();
    let mut config = create_test_config();
    if let Some(ref mut markdown) = config.markdown {
        markdown.rules.remove_horizontal_rules.retain_frontmatter_wrappers = true;
    }
    formatter.apply_configuration(&config).unwrap();

    // When there's no actual front matter content between the markers,
    // they should be treated as regular horizontal rules
    let input = r#"---

---

# Content"#;

    let expected = r#"
# Content"#;

    let result = formatter.format_content(input).unwrap();
    assert_eq!(result, expected);
}

#[test]
fn test_frontmatter_with_empty_lines() {
    let mut formatter = MarkdownFormatter::new();
    let mut config = create_test_config();
    if let Some(ref mut markdown) = config.markdown {
        markdown.rules.remove_horizontal_rules.retain_frontmatter_wrappers = true;
    }
    formatter.apply_configuration(&config).unwrap();

    // Front matter with empty lines should still be preserved
    let input = r#"---
title: "Test Post"

date: 2025-01-06

categories: [Test]
---

# Content"#;

    let expected = r#"---
title: "Test Post"

date: 2025-01-06

categories: [Test]
---

# Content"#;

    let result = formatter.format_content(input).unwrap();
    assert_eq!(result, expected);
}

#[test]
fn test_frontmatter_without_closing_marker() {
    let mut formatter = MarkdownFormatter::new();
    let mut config = create_test_config();
    if let Some(ref mut markdown) = config.markdown {
        markdown.rules.remove_horizontal_rules.retain_frontmatter_wrappers = true;
    }
    formatter.apply_configuration(&config).unwrap();

    // If there's no closing marker, it should be treated as a regular horizontal rule
    let input = r#"---
title: "Test Post"
date: 2025-01-06

# Content"#;

    let expected = r#"
title: "Test Post"
date: 2025-01-06

# Content"#;

    let result = formatter.format_content(input).unwrap();
    assert_eq!(result, expected);
}

#[test]
fn test_frontmatter_irl() {
    let mut formatter = MarkdownFormatter::new();
    let mut config = create_test_config();
    if let Some(ref mut markdown) = config.markdown {
        markdown.rules.remove_horizontal_rules.retain_frontmatter_wrappers = true;
    }
    formatter.apply_configuration(&config).unwrap();

    // If there's no closing marker, it should be treated as a regular horizontal rule
    let input = r#"---
title: "10 Things Developers"
---

text blog with some text

---

second block of text

---

## 2. Title heading"#;

    let expected = r#"---
title: "10 Things Developers"
---

text blog with some text

second block of text

## 2. Title heading"#;

    let result = formatter.format_content(input).unwrap();
    assert_eq!(result, expected);
}

#[test]
fn test_frontmatter_with_indented_content() {
    let mut formatter = MarkdownFormatter::new();
    let mut config = create_test_config();
    if let Some(ref mut markdown) = config.markdown {
        markdown.rules.remove_horizontal_rules.retain_frontmatter_wrappers = true;
    }
    formatter.apply_configuration(&config).unwrap();

    // Front matter with indented content should be preserved
    let input = r#"---
title: "Test Post"
metadata:
    date: 2025-01-06
    categories:
        - Test
        - Example
---

# Content"#;

    let expected = r#"---
title: "Test Post"
metadata:
    date: 2025-01-06
    categories:
        - Test
        - Example
---

# Content"#;

    let result = formatter.format_content(input).unwrap();
    assert_eq!(result, expected);
}

#[test]
fn test_frontmatter_with_code_blocks() {
    let mut formatter = MarkdownFormatter::new();
    let mut config = create_test_config();
    if let Some(ref mut markdown) = config.markdown {
        markdown.rules.remove_horizontal_rules.retain_frontmatter_wrappers = true;
    }
    formatter.apply_configuration(&config).unwrap();

    // Front matter followed by code blocks should work correctly
    let input = r#"---
title: "Test Post"
date: 2025-01-06
---

```rust
fn main() {
    println!("Hello");
}
```

---

# Content"#;

    let expected = r#"---
title: "Test Post"
date: 2025-01-06
---

```rust
fn main() {
    println!("Hello");
}
```

# Content"#;

    let result = formatter.format_content(input).unwrap();
    assert_eq!(result, expected);
}
