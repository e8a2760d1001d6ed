//! The regular-expression engine that the library relies on.
//!
//! Everything in this file is trusted: the contracts say what the `regex`
//! crate does, and nothing here proves them. What the engine computes is not
//! written out; it is named, as a function of the texts handed to it. The
//! names speak of expressions that `regex::Regex::new` built: an expression
//! built with other options may hold the same pattern and match otherwise.

use vstd::prelude::*;

verus! {

/// A compiled regular expression of the `regex` crate.
#[verifier::external_type_specification]
#[verifier::external_body]
pub struct ExRegex(regex::Regex);

/// The error with which the `regex` crate refuses a pattern.
#[verifier::external_type_specification]
#[verifier::external_body]
pub struct ExRegexError(regex::Error);

/// Whether `regex::Regex::new` accepts the pattern.
pub uninterp spec fn regex_compiles(pattern: Seq<char>) -> bool;

/// The pattern that a compiled expression was compiled from, which is what
/// `regex::Regex::as_str` returns. It speaks of every expression, however it
/// was built: an expression built with options of its own still holds its
/// pattern as it was written, so the pattern alone does not say what the
/// expression matches.
pub uninterp spec fn regex_pattern(re: regex::Regex) -> Seq<char>;

/// Whether a compiled expression was built by `regex::Regex::new`, with no
/// options but those that its pattern sets, or is a copy of such an
/// expression. Of these expressions, and of no others, the pattern says
/// what they match.
pub uninterp spec fn regex_built_plain(re: regex::Regex) -> bool;

/// Whether the expression that `regex::Regex::new` compiles from `pattern`
/// matches somewhere in `haystack`: the result of `regex::Regex::is_match`
/// on that expression.
pub uninterp spec fn regex_matches(pattern: Seq<char>, haystack: Seq<char>) -> bool;

/// The text that `regex::Regex::replace` makes of `haystack` with the
/// expression that `regex::Regex::new` compiles from `pattern`: the haystack
/// with its first match replaced by the expansion of `replacement`.
pub uninterp spec fn regex_replaced(
    pattern: Seq<char>,
    haystack: Seq<char>,
    replacement: Seq<char>,
) -> Seq<char>;

/// The text that `regex::Regex::replace_all` makes of `haystack` with the
/// expression that `regex::Regex::new` compiles from `pattern`: the haystack
/// with each of its matches, found from the left and not overlapping,
/// replaced by the expansion of `replacement`.
pub uninterp spec fn regex_replaced_all(
    pattern: Seq<char>,
    haystack: Seq<char>,
    replacement: Seq<char>,
) -> Seq<char>;

/// The characters with a meaning of their own in a regular expression, as
/// `regex_syntax::is_meta_character` lists them.
pub open spec fn is_meta_character(c: char) -> bool {
    c == '\\' || c == '.' || c == '+' || c == '*' || c == '?' || c == '(' || c == ')' || c == '|'
        || c == '[' || c == ']' || c == '{' || c == '}' || c == '^' || c == '$' || c == '#'
        || c == '&' || c == '-' || c == '~'
}

/// The text that matches the single character `c` literally: `c` itself,
/// behind a backslash where `c` is a meta character.
pub open spec fn escaped(c: char) -> Seq<char> {
    if is_meta_character(c) {
        seq!['\\', c]
    } else {
        seq![c]
    }
}

/// `regex::Regex::new`: compiles a pattern. The contract names whether the
/// pattern is accepted, and says that the compiled expression remembers the
/// pattern it came from and was built with no options of its own.
#[verifier::external_body]
pub(crate) fn compile(pattern: &str) -> (r: Result<regex::Regex, regex::Error>)
    ensures
        r is Ok == regex_compiles(pattern@),
        r is Ok ==> regex_pattern(r->Ok_0) == pattern@,
        r is Ok ==> regex_built_plain(r->Ok_0),
{
    regex::Regex::new(pattern)
}

/// `regex::Regex::is_match`: whether the expression matches anywhere in the
/// haystack. For an expression that `regex::Regex::new` built, the contract
/// names the answer as a function of the expression's pattern and the
/// haystack.
#[verifier::external_body]
pub(crate) fn is_match(re: &regex::Regex, haystack: &str) -> (b: bool)
    requires
        regex_built_plain(*re),
    ensures
        b == regex_matches(regex_pattern(*re), haystack@),
{
    re.is_match(haystack)
}

/// `regex::Regex::replace`, with a text as the replacement: the haystack
/// with its first match replaced, the references to capture groups in the
/// replacement expanded. For an expression that `regex::Regex::new` built,
/// the contract names the result as a function of the expression's pattern,
/// the haystack and the replacement.
#[verifier::external_body]
pub(crate) fn replace_first(re: &regex::Regex, haystack: &str, replacement: &str) -> (s: String)
    requires
        regex_built_plain(*re),
    ensures
        s@ == regex_replaced(regex_pattern(*re), haystack@, replacement@),
{
    re.replace(haystack, replacement).into_owned()
}

/// `regex::Regex::replace_all`, with a text as the replacement: the haystack
/// with all its matches replaced. For an expression that `regex::Regex::new`
/// built, the contract names the result as a function of the expression's
/// pattern, the haystack and the replacement.
#[verifier::external_body]
pub(crate) fn replace_all(re: &regex::Regex, haystack: &str, replacement: &str) -> (s: String)
    requires
        regex_built_plain(*re),
    ensures
        s@ == regex_replaced_all(regex_pattern(*re), haystack@, replacement@),
{
    re.replace_all(haystack, replacement).into_owned()
}

/// `Clone::clone` of `regex::Regex`: the copy holds the same pattern and
/// the same matcher, so it is built as the expression it was copied from.
#[verifier::external_body]
pub(crate) fn duplicate(re: &regex::Regex) -> (r: regex::Regex)
    ensures
        regex_pattern(r) == regex_pattern(*re),
        regex_built_plain(r) == regex_built_plain(*re),
{
    re.clone()
}

/// `regex::escape`, on a single character: the character, with a backslash
/// in front of it where it is a meta character.
#[verifier::external_body]
pub(crate) fn escape(c: char) -> (s: String)
    ensures
        s@ == escaped(c),
{
    regex::escape(c.encode_utf8(&mut [0u8; 4]))
}

} // verus!
