//! A compiled glob: a validated pattern, its matcher, and its negation flag.

use vstd::prelude::*;
use vstd::string::*;
use vstd::utf8::encode_utf8;
use crate::engine::{compile, duplicate, is_match, regex_built_plain, regex_compiles,
    regex_matches, regex_pattern};
use crate::glob::compile::{anchored_regex, glob_to_anchored_regex};
use crate::glob::error::{GlobError, GlobErrorKind};
use crate::glob::validate::{validate_glob, validation_error};

verus! {

/// What a glob is, as far as matching and display go.
pub struct GlobView {
    /// Whether the text began with `!`.
    pub is_negated: bool,
    /// The pattern, without the leading `!`.
    pub pattern: Seq<char>,
}

/// A validated, compiled path pattern. It never changes once it is built.
#[derive(Debug)]
pub struct Glob {
    is_negated: bool,
    source: String,
    matcher: regex::Regex,
}

/// Whether a text asks for a negated glob: it begins with `!`.
pub open spec fn is_negation(text: Seq<char>) -> bool {
    text.len() > 0 && text[0] == '!'
}

/// The pattern that a text holds: the text without a leading `!`.
pub open spec fn pattern_of(text: Seq<char>) -> Seq<char> {
    if is_negation(text) {
        text.skip(1)
    } else {
        text
    }
}

/// What parsing a text yields: the first grammar error of its pattern; or,
/// where the grammar is met and the engine refuses the compiled expression
/// all the same, an `InvalidGlobStar` without an offset; or the glob.
pub open spec fn parse_outcome(text: Seq<char>) -> Result<GlobView, GlobError> {
    let pattern = pattern_of(text);
    match validation_error(encode_utf8(pattern)) {
        Some(e) => Err(e),
        None => if regex_compiles(anchored_regex(pattern)) {
            Ok(GlobView { is_negated: is_negation(text), pattern })
        } else {
            Err(GlobError { kind: GlobErrorKind::InvalidGlobStar, index: None })
        },
    }
}

/// The text that a glob is displayed as: its pattern, behind `!` where it is
/// negated.
pub open spec fn display(g: GlobView) -> Seq<char> {
    if g.is_negated {
        seq!['!'] + g.pattern
    } else {
        g.pattern
    }
}

/// Whether a pattern describes a path, negation left aside.
pub open spec fn raw_match(pattern: Seq<char>, path: Seq<char>) -> bool {
    regex_matches(anchored_regex(pattern), path)
}

/// Whether a glob accepts a path: a negated glob accepts what its pattern
/// does not describe.
pub open spec fn glob_matches(g: GlobView, path: Seq<char>) -> bool {
    raw_match(g.pattern, path) != g.is_negated
}

impl View for Glob {
    type V = GlobView;

    closed spec fn view(&self) -> GlobView {
        GlobView { is_negated: self.is_negated, pattern: self.source@ }
    }
}

impl Glob {
    #[verifier::type_invariant]
    spec fn well_formed(self) -> bool {
        &&& validation_error(encode_utf8(self.source@)) is None
        &&& regex_pattern(self.matcher) == anchored_regex(self.source@)
        &&& regex_built_plain(self.matcher)
    }

    /// Builds a glob from the pieces that parsing produces: the negation
    /// flag, the validated pattern, and what the engine made of the
    /// pattern's regular expression. The expression must be the one that
    /// the engine compiles from that text with no options of its own.
    pub fn assemble(
        is_negated: bool,
        source: String,
        compiled: Result<regex::Regex, regex::Error>,
    ) -> (r: Result<Glob, GlobError>)
        requires
            validation_error(encode_utf8(source@)) is None,
            compiled is Ok ==> regex_pattern(compiled->Ok_0) == anchored_regex(source@),
            compiled is Ok ==> regex_built_plain(compiled->Ok_0),
        ensures
            compiled is Ok ==> r is Ok && r->Ok_0@ == (GlobView { is_negated, pattern: source@ }),
            compiled is Err ==> r == Err::<Glob, GlobError>(
                GlobError { kind: GlobErrorKind::InvalidGlobStar, index: None },
            ),
    {
        match compiled {
            Ok(matcher) => Ok(Glob { is_negated, source, matcher }),
            Err(_) => Err(GlobError::new(GlobErrorKind::InvalidGlobStar, None)),
        }
    }

    /// Parses a glob: strips a leading `!`, checks the rest against the
    /// grammar, and compiles it.
    pub fn parse(text: &str) -> (r: Result<Glob, GlobError>)
        ensures
            match r {
                Ok(g) => parse_outcome(text@) == Ok::<GlobView, GlobError>(g@),
                Err(e) => parse_outcome(text@) == Err::<GlobView, GlobError>(e),
            },
    {
        let mut chars = text.chars();
        let is_negated = match chars.next() {
            Some(c) => c == '!',
            None => false,
        };
        let pattern: &str = if is_negated {
            text.substring_char(1, text.unicode_len())
        } else {
            text
        };
        assert(is_negated == is_negation(text@));
        assert(pattern@ == pattern_of(text@));
        match validate_glob(pattern) {
            Err(e) => Err(e),
            Ok(_) => {
                let regex = glob_to_anchored_regex(pattern);
                Glob::assemble(is_negated, String::from_str(pattern), compile(regex.as_str()))
            },
        }
    }

    /// Whether the glob was written with a leading `!`.
    pub fn is_negated(&self) -> (b: bool)
        ensures
            b == self@.is_negated,
    {
        self.is_negated
    }

    /// The pattern, without the leading `!`. It belongs to the grammar, as
    /// the pattern of every glob does.
    pub fn pattern(&self) -> (s: &str)
        ensures
            s@ == self@.pattern,
            validation_error(encode_utf8(s@)) is None,
    {
        proof {
            use_type_invariant(self);
        }
        self.source.as_str()
    }

    /// The text of the glob, as it was parsed.
    pub fn to_string(&self) -> (s: String)
        ensures
            s@ == display(self@),
    {
        if self.is_negated {
            proof {
                reveal_strlit("!");
                assert("!"@ =~= seq!['!']);
            }
            String::from_str("!").concat(self.source.as_str())
        } else {
            self.source.clone()
        }
    }

    /// Whether the pattern describes the path, negation left aside.
    pub fn is_raw_match(&self, path: &str) -> (b: bool)
        ensures
            b == raw_match(self@.pattern, path@),
    {
        proof {
            use_type_invariant(self);
        }
        is_match(&self.matcher, path)
    }

    /// The glob's answer for a path, given whether its pattern describes the
    /// path: negation inverts the answer.
    pub fn verdict(&self, raw: bool) -> (b: bool)
        ensures
            b == (raw != self@.is_negated),
    {
        raw != self.is_negated
    }

    /// Whether the glob accepts the path.
    pub fn is_match(&self, path: &str) -> (b: bool)
        ensures
            b == glob_matches(self@, path@),
    {
        let raw = self.is_raw_match(path);
        self.verdict(raw)
    }
}

impl Clone for Glob {
    fn clone(&self) -> (r: Self)
        ensures
            r@ == self@,
    {
        proof {
            use_type_invariant(self);
        }
        Glob {
            is_negated: self.is_negated,
            source: self.source.clone(),
            matcher: duplicate(&self.matcher),
        }
    }
}

impl PartialEq for Glob {
    fn eq(&self, other: &Self) -> (r: bool) {
        self.is_negated == other.is_negated && self.source == other.source
    }
}

impl vstd::std_specs::cmp::PartialEqSpecImpl for Glob {
    open spec fn obeys_eq_spec() -> bool {
        true
    }

    open spec fn eq_spec(&self, other: &Self) -> bool {
        self@.is_negated == other@.is_negated && self@.pattern == other@.pattern
    }
}

impl std::str::FromStr for Glob {
    type Err = GlobError;

    /// Parses a glob, as `Glob::parse` does: the result is the outcome of
    /// parsing the text.
    fn from_str(text: &str) -> (r: Result<Glob, GlobError>)
        ensures
            match r {
                Ok(g) => parse_outcome(text@) == Ok::<GlobView, GlobError>(g@),
                Err(e) => parse_outcome(text@) == Err::<GlobView, GlobError>(e),
            },
    {
        Glob::parse(text)
    }
}

/// A parsed glob is displayed as the text it was parsed from.
pub proof fn law_display_round_trip(text: Seq<char>)
    requires
        parse_outcome(text) is Ok,
    ensures
        display(parse_outcome(text)->Ok_0) == text,
{
    if is_negation(text) {
        assert(seq!['!'] + text.skip(1) =~= text);
    }
}

/// Every glob holds a pattern of the grammar.
pub proof fn law_parsed_pattern_is_valid(text: Seq<char>)
    requires
        parse_outcome(text) is Ok,
    ensures
        validation_error(encode_utf8(parse_outcome(text)->Ok_0.pattern)) is None,
        parse_outcome(text)->Ok_0.pattern == pattern_of(text),
        parse_outcome(text)->Ok_0.is_negated == is_negation(text),
{
}

} // verus!
