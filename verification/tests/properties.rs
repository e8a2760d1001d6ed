use simora::glob::candidate::{decide, CandidatePath};
use simora::glob::compile::{glob_to_anchored_regex, glob_to_regex};
use simora::glob::error::{GlobError, GlobErrorKind};
use simora::glob::pattern::Glob;
use simora::glob::validate::validate_glob;
use simora::glob::walk::{GlobMatcher, WalkAction, WalkEntry};

fn glob(text: &str) -> Glob {
    Glob::parse(text).unwrap()
}

fn rejected(text: &str) -> GlobError {
    Glob::parse(text).unwrap_err()
}

#[test]
fn parse_gives_the_same_answer_again() {
    for text in ["", " ", "\t \n", "*.rs", "!a/**/b", "***", "\\", "h\u{e9}llo/*", "\u{1f600}", "?"] {
        let first = Glob::parse(text);
        let second = Glob::parse(text);
        match (first, second) {
            (Ok(a), Ok(b)) => {
                assert!(a == b);
                assert_eq!(a.is_negated(), b.is_negated());
            }
            (Err(a), Err(b)) => assert_eq!(a, b),
            _ => panic!("two answers for {:?}", text),
        }
    }
}

#[test]
fn parse_accepts_empty_blank_and_foreign_text() {
    assert!(Glob::parse("").is_ok());
    assert!(Glob::parse("   ").is_ok());
    assert!(Glob::parse("h\u{e9}llo/w\u{f6}rld").is_ok());
    assert!(glob("").is_match(""));
    assert!(!glob("").is_match("a"));
    assert!(glob("   ").is_match("   "));
    assert!(glob("h\u{e9}llo/*").is_match("h\u{e9}llo/w\u{f6}rld"));
}

#[test]
fn display_gives_the_text_back() {
    for text in ["", "!", "*.rs", "!*.rs", "**/*.md", "!node_modules/**", "a\\*b", "\\!a", "!\\!a", "/**/"] {
        assert_eq!(glob(text).to_string(), text);
    }
}

#[test]
fn negation_is_read_off_the_first_character_only() {
    assert!(glob("!a").is_negated());
    assert!(!glob("a!").is_negated());
    assert!(!glob("\\!a").is_negated());
    assert_eq!(glob("!a").pattern(), "a");
    assert_eq!(glob("!!a").pattern(), "!a");
    assert!(glob("!!a").is_negated());
}

#[test]
fn a_star_stays_inside_its_segment() {
    assert!(glob("*.rs").is_match("lib.rs"));
    assert!(!glob("*.rs").is_match("src/lib.rs"));
    assert!(glob("*").is_match(""));
    assert!(glob("*").is_match(".hidden"));
    assert!(!glob("*").is_match("a/b"));
    assert!(glob("a*c").is_match("ac"));
    assert!(glob("a*c").is_match("abbc"));
    assert!(!glob("a*c").is_match("a/c"));
    assert!(glob("src/*.rs").is_match("src/lib.rs"));
    assert!(!glob("src/*.rs").is_match("src/a/lib.rs"));
    assert!(glob("*/*").is_match("a/b"));
    assert!(!glob("*/*").is_match("a"));
    assert!(glob("*").is_match("line\nbreak"));
}

#[test]
fn a_globstar_spans_whole_segments_and_none() {
    assert!(glob("**/*.rs").is_match("src/lib.rs"));
    assert!(glob("**/*.rs").is_match("lib.rs"));
    assert!(glob("**/*.rs").is_match("a/b/c/lib.rs"));
    assert!(glob("a/**/b").is_match("a/b"));
    assert!(glob("a/**/b").is_match("a/x/b"));
    assert!(glob("a/**/b").is_match("a/x/y/b"));
    assert!(!glob("a/**/b").is_match("a/xb"));
    assert!(!glob("a/**/b").is_match("ab"));
    assert!(!glob("**/b").is_match("ab"));
    assert!(glob("**").is_match(""));
    assert!(glob("**").is_match("a"));
    assert!(glob("**").is_match("a/b/c"));
    assert!(glob("**").is_match("a\nb/c"));
    assert!(glob("a/**").is_match("a"));
    assert!(glob("a/**").is_match("a/"));
    assert!(glob("a/**").is_match("a/b/c"));
    assert!(!glob("a/**").is_match("ab"));
    assert!(!glob("a/**").is_match("b/a"));
    assert!(glob("**/").is_match("a/"));
    assert!(glob("/**/").is_match("/"));
    assert!(glob("/**/").is_match("/a/b/"));
    assert!(glob("**/.git").is_match("x/.git"));
}

#[test]
fn literals_match_themselves_only() {
    assert!(glob("a.b").is_match("a.b"));
    assert!(!glob("a.b").is_match("axb"));
    assert!(!glob("a").is_match("A"));
    assert!(glob("a+b(c)|d^e$f#g&h-i~j").is_match("a+b(c)|d^e$f#g&h-i~j"));
    assert!(glob("\\*").is_match("*"));
    assert!(!glob("\\*").is_match("a"));
    assert!(glob("\\?\\[\\]\\{\\}\\\\\\!").is_match("?[]{}\\!"));
    assert!(glob("a b").is_match("a b"));
    assert!(!glob("a").is_match("ba"));
    assert!(!glob("a").is_match("ab"));
}

#[test]
fn each_rejection_has_its_kind_and_offset() {
    let cases: [(&str, GlobErrorKind, usize); 15] = [
        ("*.{j,t}s", GlobErrorKind::UnsupportedAlternates, 2),
        ("a}", GlobErrorKind::UnsupportedAlternates, 1),
        ("?*.js", GlobErrorKind::UnsupportedAnyCharacter, 0),
        ("*.[jt]s", GlobErrorKind::UnsupportedCharacterClass, 2),
        ("a]", GlobErrorKind::UnsupportedCharacterClass, 1),
        ("\\", GlobErrorKind::DanglingEscape, 0),
        ("ab\\", GlobErrorKind::DanglingEscape, 2),
        ("\\n", GlobErrorKind::InvalidEscape, 0),
        ("a\\/", GlobErrorKind::InvalidEscape, 1),
        ("***", GlobErrorKind::InvalidGlobStar, 0),
        ("a**", GlobErrorKind::InvalidGlobStar, 1),
        ("**a", GlobErrorKind::InvalidGlobStar, 0),
        ("**/**", GlobErrorKind::InvalidGlobStar, 3),
        ("a/**b", GlobErrorKind::InvalidGlobStar, 2),
        ("\u{e9}?", GlobErrorKind::UnsupportedAnyCharacter, 2),
    ];
    for (text, kind, index) in cases {
        assert_eq!(rejected(text), GlobError { kind, index: Some(index) }, "{:?}", text);
    }
}

#[test]
fn the_offset_counts_from_behind_the_negation_mark() {
    assert_eq!(rejected("!a?").index, Some(1));
    assert_eq!(validate_glob("a?").unwrap_err().index, Some(1));
}

#[test]
fn the_validator_alone_accepts_the_grammar() {
    for text in ["", "a", "*", "**", "**/", "/**", "/**/", "a/**/b", "*/**/*", "\\*\\*", "a*b*c", "!", "**/a/**"] {
        assert_eq!(validate_glob(text), Ok(()), "{:?}", text);
    }
    assert_eq!(
        validate_glob("a/**/**"),
        Err(GlobError::new(GlobErrorKind::InvalidGlobStar, Some(5)))
    );
}

#[test]
fn the_first_error_from_the_left_is_reported() {
    assert_eq!(rejected("?[").kind, GlobErrorKind::UnsupportedAnyCharacter);
    assert_eq!(rejected("[?").kind, GlobErrorKind::UnsupportedCharacterClass);
    assert_eq!(rejected("\\?{").kind, GlobErrorKind::UnsupportedAlternates);
    assert_eq!(rejected("\\?{").index, Some(2));
}

#[test]
fn patterns_compile_to_the_expected_expressions() {
    assert_eq!(glob_to_regex("*.rs"), "[^/]*\\.rs");
    assert_eq!(glob_to_regex("**/*.md"), "(?:[^/]*/)*[^/]*\\.md");
    assert_eq!(glob_to_regex("a/**/b"), "a/(?:[^/]*/)*b");
    assert_eq!(glob_to_regex("node_modules/**"), "node_modules(?:/[^/]*)*");
    assert_eq!(glob_to_regex("**"), "(?s:.*)");
    assert_eq!(glob_to_regex("\\*a\\!"), "\\*a!");
    assert_eq!(glob_to_regex(""), "");
    assert_eq!(glob_to_regex("a-b"), "a\\-b");
    assert_eq!(glob_to_anchored_regex("*"), "^[^/]*$");
    assert_eq!(glob_to_anchored_regex(""), "^$");
}

#[test]
fn a_single_glob_decides_as_it_matches() {
    for (text, path) in [("*.rs", "lib.rs"), ("*.rs", "lib.md"), ("!*.rs", "lib.rs"), ("a", "a"), ("**", "x/y")] {
        let g = glob(text);
        let candidate = CandidatePath::new(path);
        assert_eq!(
            candidate.matches_with_exceptions(&[g.clone()]),
            g.is_match(path),
            "{:?} on {:?}",
            text,
            path
        );
    }
}

#[test]
fn a_negated_glob_that_does_not_describe_the_path_keeps_nothing_by_itself() {
    let g = glob("!b");
    assert!(g.is_match("a"));
    assert!(!CandidatePath::new("a").matches_with_exceptions(&[g]));
}

#[test]
fn candidate_matches_inverts_for_a_negated_glob() {
    let a = CandidatePath::new("a");
    assert!(a.matches(&glob("a")));
    assert!(!a.matches(&glob("!a")));
    assert!(!a.matches(&glob("b")));
    assert!(a.matches(&glob("!b")));
    assert!(a.raw_matches(&glob("!a")));
    assert!(!a.raw_matches(&glob("!b")));
    assert!(glob("!a").verdict(false));
    assert!(!glob("!a").verdict(true));
    assert!(glob("a").verdict(true));
    assert!(!glob("a").verdict(false));
}

#[test]
fn the_last_glob_that_applies_wins() {
    let x = CandidatePath::new("src/gen/a.rs");
    let plain = glob("**/*.rs");
    let negated = glob("!src/gen/**");
    assert!(!x.matches_with_exceptions(&[plain.clone(), negated.clone()]));
    assert!(!x.matches_directory_with_exceptions(&[plain.clone(), negated.clone()]));
    assert!(x.matches_with_exceptions(&[negated.clone(), plain.clone()]));
    assert!(x.matches_with_exceptions(&[plain.clone(), negated, glob("src/gen/a.*")]));
    assert!(x.matches_with_exceptions_or(false, &[plain, glob("!other")]));
}

#[test]
fn the_defaults_of_files_and_directories_differ() {
    let anything = CandidatePath::new("any/path");
    assert!(anything.matches_directory_with_exceptions(&[]));
    assert!(!anything.matches_with_exceptions(&[]));
    assert!(anything.matches_directory_with_exceptions(&[glob("other")]));
    assert!(!anything.matches_with_exceptions(&[glob("other")]));
    assert!(anything.matches_with_exceptions_or(true, &[glob("!other")]));
    assert!(!anything.matches_with_exceptions_or(false, &[glob("!other")]));
}

#[test]
fn deciding_from_the_answers_scans_from_the_back() {
    assert!(decide(&[], true));
    assert!(!decide(&[], false));
    assert!(decide(&[(true, false), (false, true)], false));
    assert!(!decide(&[(true, false), (true, true)], true));
    assert!(decide(&[(true, false), (true, true), (true, false)], false));
    assert!(!decide(&[(false, false), (false, false)], false));
    assert!(decide(&[(false, true), (false, true)], true));
}

#[test]
fn the_action_follows_the_verdict() {
    assert_eq!(WalkAction::of(true, true), WalkAction::Descend);
    assert_eq!(WalkAction::of(true, false), WalkAction::Prune);
    assert_eq!(WalkAction::of(false, true), WalkAction::Yield);
    assert_eq!(WalkAction::of(false, false), WalkAction::Skip);
}

fn entry(path: &str, depth: usize, is_directory: bool) -> WalkEntry {
    WalkEntry {
        path: path.to_string(),
        depth,
        is_directory,
        failed: false,
    }
}

fn docs_tree() -> Vec<WalkEntry> {
    vec![
        entry("", 0, true),
        entry("docs", 1, true),
        entry("docs/readme.md", 2, false),
        entry("node_modules", 1, true),
        entry("node_modules/pkg", 2, true),
        entry("node_modules/pkg/readme.md", 3, false),
        entry("src", 1, true),
        entry("src/lib.rs", 2, false),
    ]
}

#[test]
fn a_walk_yields_what_the_list_keeps_and_prunes_the_rest() {
    let mut matcher = GlobMatcher::new("**/*.md").unwrap();
    matcher.add_pattern("!node_modules/**").unwrap();
    let walker = matcher.walk(".");
    let tree = docs_tree();
    let kept = walker.select(&tree);
    assert_eq!(kept, vec![2]);
    assert_eq!(tree[kept[0]].path, "docs/readme.md");
    assert_eq!(walker.visit("node_modules", true), WalkAction::Prune);
    assert_eq!(walker.visit("docs", true), WalkAction::Descend);
    assert_eq!(walker.visit("docs/readme.md", false), WalkAction::Yield);
    assert_eq!(walker.visit("src/lib.rs", false), WalkAction::Skip);
    assert_eq!(walker.visit("node_modules/pkg/readme.md", false), WalkAction::Skip);
    assert_eq!(walker.root_path(), ".");
}

#[test]
fn nothing_below_a_pruned_directory_is_looked_at() {
    // the file below the pruned directory would be kept if it were reached
    let mut matcher = GlobMatcher::new("!vendor").unwrap();
    matcher.add_pattern("**/*.md").unwrap();
    let walker = matcher.walk("root");
    let tree = vec![
        entry("vendor", 1, true),
        entry("vendor/a.md", 2, false),
        entry("vendor/deep", 2, true),
        entry("vendor/deep/b.md", 3, false),
        entry("c.md", 1, false),
    ];
    assert_eq!(walker.visit("vendor/a.md", false), WalkAction::Yield);
    assert_eq!(walker.select(&tree), vec![4]);
}

#[test]
fn a_failed_entry_is_reported_and_the_walk_goes_on() {
    let walker = GlobMatcher::new("*.md").unwrap().walk(".");
    let unreadable = WalkEntry {
        path: "locked".to_string(),
        depth: 1,
        is_directory: true,
        failed: true,
    };
    assert_eq!(walker.visit_entry(&unreadable), WalkAction::Report);
    let tree = vec![entry("a.md", 1, false), unreadable, entry("b.md", 1, false), entry("c.rs", 1, false)];
    assert_eq!(walker.select(&tree), vec![0, 1, 2]);
}

#[test]
fn an_empty_tree_yields_nothing() {
    let walker = GlobMatcher::new("**").unwrap().walk(".");
    assert_eq!(walker.select(&[]), Vec::<usize>::new());
}

#[test]
fn a_matcher_keeps_its_globs_in_order() {
    let mut matcher = GlobMatcher::new("*").unwrap().with_root("project");
    assert!(matcher.add_pattern("!a*").is_ok());
    assert_eq!(
        matcher.add_pattern("a?"),
        Err(GlobError::new(GlobErrorKind::UnsupportedAnyCharacter, Some(1)))
    );
    assert!(matcher.add_pattern("ab").is_ok());
    let walker = matcher.walk("project");
    assert_eq!(walker.visit("b", false), WalkAction::Yield);
    assert_eq!(walker.visit("ac", false), WalkAction::Skip);
    assert_eq!(walker.visit("ab", false), WalkAction::Yield);
    assert_eq!(walker.root_path(), "project");
    assert_eq!(
        GlobMatcher::new("[").unwrap_err(),
        GlobError::new(GlobErrorKind::UnsupportedCharacterClass, Some(0))
    );
}

#[test]
fn messages_of_the_error_kinds() {
    assert_eq!(
        GlobErrorKind::DanglingEscape.to_string(),
        "Invalid glob pattern: Unterminated escape sequence."
    );
    assert_eq!(
        GlobErrorKind::InvalidEscape.to_string(),
        "Invalid glob pattern: Invalid escape sequence."
    );
    assert_eq!(
        GlobErrorKind::UnsupportedAlternates.to_string(),
        "Invalid glob pattern: Alternates `{}` are not supported. Use `\\{` and `\\}` to escape the characters."
    );
    assert_eq!(
        GlobError::new(GlobErrorKind::InvalidEscape, None).to_string(),
        "Invalid glob pattern: Invalid escape sequence."
    );
}

#[test]
fn equal_globs_are_equal() {
    assert!(glob("*.rs") == glob("*.rs"));
    assert!(glob("*.rs") != glob("!*.rs"));
    assert!(glob("*.rs") != glob("*.md"));
    let copy = glob("!a/**").clone();
    assert!(copy == glob("!a/**"));
    assert!(copy.is_match("b"));
    assert!(!copy.is_match("a/b"));
}
