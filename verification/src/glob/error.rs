//! Syntax errors of glob patterns.

use vstd::prelude::*;
use vstd::string::*;

verus! {

/// Why a pattern was rejected.
#[derive(Debug, Clone, Copy, PartialEq, Eq, Structural)]
pub enum GlobErrorKind {
    /// A backslash at the very end of the pattern.
    DanglingEscape,
    /// A backslash followed by a character that cannot be escaped.
    InvalidEscape,
    /// `**` that is not a whole path segment, or that follows another `**/`.
    InvalidGlobStar,
    /// An unescaped `{` or `}`.
    UnsupportedAlternates,
    /// An unescaped `[` or `]`.
    UnsupportedCharacterClass,
    /// An unescaped `?`.
    UnsupportedAnyCharacter,
}

impl GlobErrorKind {
    /// The sentence that explains this kind of error.
    pub open spec fn description(self) -> Seq<char> {
        match self {
            GlobErrorKind::DanglingEscape => "Unterminated escape sequence."@,
            GlobErrorKind::InvalidEscape => "Invalid escape sequence."@,
            GlobErrorKind::InvalidGlobStar => "`**` must be enclosed by the path separator `/`, or the start/end of the glob and mustn't be followed by `/**`."@,
            GlobErrorKind::UnsupportedAlternates => "Alternates `{}` are not supported. Use `\\{` and `\\}` to escape the characters."@,
            GlobErrorKind::UnsupportedCharacterClass => "Character class `[]` are not supported. Use `\\[` and `\\]` to escape the characters."@,
            GlobErrorKind::UnsupportedAnyCharacter => "`?` matcher is not supported. Use `\\?` to escape the character."@,
        }
    }

    /// The full message: a fixed prefix followed by the description.
    pub open spec fn message(self) -> Seq<char> {
        "Invalid glob pattern: "@ + self.description()
    }

    /// Renders the message of this kind of error.
    pub fn to_string(&self) -> (s: String)
        ensures
            s@ == self.message(),
    {
        let description = match self {
            GlobErrorKind::DanglingEscape => "Unterminated escape sequence.",
            GlobErrorKind::InvalidEscape => "Invalid escape sequence.",
            GlobErrorKind::InvalidGlobStar => "`**` must be enclosed by the path separator `/`, or the start/end of the glob and mustn't be followed by `/**`.",
            GlobErrorKind::UnsupportedAlternates => "Alternates `{}` are not supported. Use `\\{` and `\\}` to escape the characters.",
            GlobErrorKind::UnsupportedCharacterClass => "Character class `[]` are not supported. Use `\\[` and `\\]` to escape the characters.",
            GlobErrorKind::UnsupportedAnyCharacter => "`?` matcher is not supported. Use `\\?` to escape the character.",
        };
        String::from_str("Invalid glob pattern: ").concat(description)
    }
}

/// A rejected pattern: the kind of error and, where one byte is to blame,
/// its offset in the pattern (after a leading `!` has been removed).
#[derive(Debug, Clone, Copy, PartialEq, Eq, Structural)]
pub struct GlobError {
    pub kind: GlobErrorKind,
    pub index: Option<usize>,
}

impl GlobError {
    /// An error of the given kind at the given offset.
    pub fn new(kind: GlobErrorKind, index: Option<usize>) -> (e: Self)
        ensures
            e == (GlobError { kind, index }),
    {
        GlobError { kind, index }
    }

    /// Renders the message of the error; the offset is not part of it.
    pub fn to_string(&self) -> (s: String)
        ensures
            s@ == self.kind.message(),
    {
        self.kind.to_string()
    }
}

} // verus!
