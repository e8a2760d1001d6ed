//! The grammar check that every pattern passes before it is compiled.
//!
//! The grammar knows literals, `*`, `**`, `/` and backslash escapes. The check
//! reads the pattern's bytes from left to right, one token at a time, and
//! stops at the first byte that breaks a rule.

use vstd::prelude::*;
use vstd::string::*;
use crate::glob::error::{GlobError, GlobErrorKind};

verus! {

/// The byte `!`.
pub const BANG: u8 = 33u8;

/// The byte `*`.
pub const STAR: u8 = 42u8;

/// The byte `/`.
pub const SLASH: u8 = 47u8;

/// The byte `?`.
pub const QUESTION: u8 = 63u8;

/// The byte `[`.
pub const OPEN_BRACKET: u8 = 91u8;

/// The byte `\`.
pub const BACKSLASH: u8 = 92u8;

/// The byte `]`.
pub const CLOSE_BRACKET: u8 = 93u8;

/// The byte `{`.
pub const OPEN_BRACE: u8 = 123u8;

/// The byte `}`.
pub const CLOSE_BRACE: u8 = 125u8;

/// The bytes that may follow a backslash: `! * ? { } [ ] \`.
pub open spec fn is_escapable(b: u8) -> bool {
    b == BANG || b == STAR || b == QUESTION || b == OPEN_BRACE || b == CLOSE_BRACE
        || b == OPEN_BRACKET || b == CLOSE_BRACKET || b == BACKSLASH
}

/// The kind of error that an unescaped byte raises by itself, if any:
/// `?`, `[`, `]`, `{` and `}` are never accepted.
pub open spec fn unsupported(b: u8) -> Option<GlobErrorKind> {
    if b == QUESTION {
        Some(GlobErrorKind::UnsupportedAnyCharacter)
    } else if b == OPEN_BRACKET || b == CLOSE_BRACKET {
        Some(GlobErrorKind::UnsupportedCharacterClass)
    } else if b == OPEN_BRACE || b == CLOSE_BRACE {
        Some(GlobErrorKind::UnsupportedAlternates)
    } else {
        None
    }
}

/// Whether a `**` starts at `i`.
pub open spec fn globstar_at(p: Seq<u8>, i: int) -> bool {
    0 <= i && i + 1 < p.len() && p[i] == STAR && p[i + 1] == STAR
}

/// Whether the `**` at `i` is followed by the end of the pattern or by `/`.
pub open spec fn globstar_closed(p: Seq<u8>, i: int) -> bool {
    i + 2 >= p.len() || p[i + 2] == SLASH
}

/// The first error met when scanning `p` from offset `i`, where
/// `allow_globstar` says whether a `**` may start at `i`: it may at the
/// start of the pattern and right after a `/` that did not itself close a
/// `**`.
pub open spec fn scan_from(p: Seq<u8>, i: int, allow_globstar: bool) -> Option<GlobError>
    recommends
        p.len() <= usize::MAX,
    decreases p.len() + 3 - i,
{
    if i < 0 || i >= p.len() {
        None
    } else if globstar_at(p, i) {
        if !allow_globstar || !globstar_closed(p, i) {
            Some(GlobError { kind: GlobErrorKind::InvalidGlobStar, index: Some(i as usize) })
        } else {
            // the `**` and the `/` that closes it are one token
            scan_from(p, i + 3, false)
        }
    } else if p[i] == BACKSLASH {
        if i + 1 >= p.len() {
            Some(GlobError { kind: GlobErrorKind::DanglingEscape, index: Some(i as usize) })
        } else if !is_escapable(p[i + 1]) {
            Some(GlobError { kind: GlobErrorKind::InvalidEscape, index: Some(i as usize) })
        } else {
            scan_from(p, i + 2, false)
        }
    } else if unsupported(p[i]) is Some {
        Some(GlobError { kind: unsupported(p[i])->0, index: Some(i as usize) })
    } else {
        scan_from(p, i + 1, p[i] == SLASH)
    }
}

/// The error of a pattern given by its bytes, or `None` where the pattern
/// belongs to the grammar.
pub open spec fn validation_error(p: Seq<u8>) -> Option<GlobError> {
    scan_from(p, 0, true)
}

/// What `validate_glob` returns for a pattern given by its bytes.
pub open spec fn validation_result(p: Seq<u8>) -> Result<(), GlobError> {
    match validation_error(p) {
        Some(e) => Err(e),
        None => Ok(()),
    }
}

/// Checks the bytes of a pattern, without its leading `!`, against the
/// grammar.
///
/// Returns the first error that a scan from the left meets, with the offset
/// of the offending byte, and `Ok` where there is none.
pub fn validate_bytes(bytes: &[u8]) -> (r: Result<(), GlobError>)
    ensures
        r == validation_result(bytes@),
{
    let n = bytes.len();
    let mut i: usize = 0;
    let mut allow_globstar = true;
    while i < n
        invariant
            n == bytes@.len(),
            i <= n,
            scan_from(bytes@, i as int, allow_globstar) == validation_error(bytes@),
        decreases n - i,
    {
        let c = bytes[i];
        if c == STAR && i + 1 < n && bytes[i + 1] == STAR {
            if !allow_globstar || !(i + 2 >= n || bytes[i + 2] == SLASH) {
                return Err(GlobError::new(GlobErrorKind::InvalidGlobStar, Some(i)));
            }
            // skip the `**` and the `/` that closes it; behind the end of
            // the pattern there is nothing left to scan
            assert(i + 2 >= n ==> scan_from(bytes@, i + 3, false) == scan_from(
                bytes@,
                n as int,
                false,
            ));
            i = if i + 2 >= n { n } else { i + 3 };
            allow_globstar = false;
        } else if c == BACKSLASH {
            if i + 1 >= n {
                return Err(GlobError::new(GlobErrorKind::DanglingEscape, Some(i)));
            }
            let e = bytes[i + 1];
            if !(e == BANG || e == STAR || e == QUESTION || e == OPEN_BRACE || e == CLOSE_BRACE
                || e == OPEN_BRACKET || e == CLOSE_BRACKET || e == BACKSLASH) {
                return Err(GlobError::new(GlobErrorKind::InvalidEscape, Some(i)));
            }
            i = i + 2;
            allow_globstar = false;
        } else if c == QUESTION {
            return Err(GlobError::new(GlobErrorKind::UnsupportedAnyCharacter, Some(i)));
        } else if c == OPEN_BRACKET || c == CLOSE_BRACKET {
            return Err(GlobError::new(GlobErrorKind::UnsupportedCharacterClass, Some(i)));
        } else if c == OPEN_BRACE || c == CLOSE_BRACE {
            return Err(GlobError::new(GlobErrorKind::UnsupportedAlternates, Some(i)));
        } else {
            i = i + 1;
            allow_globstar = c == SLASH;
        }
    }
    Ok(())
}

/// Checks a pattern, without its leading `!`, against the grammar: its
/// bytes are those of its encoding in UTF-8.
pub fn validate_glob(pattern: &str) -> (r: Result<(), GlobError>)
    ensures
        r == validation_result(pattern.spec_bytes()),
{
    validate_bytes(pattern.as_bytes())
}

/// What an error says of the byte that it points at.
pub open spec fn explains(p: Seq<u8>, e: GlobError) -> bool {
    &&& e.index is Some
    &&& e.index->0 < p.len()
    &&& match e.kind {
        GlobErrorKind::UnsupportedAnyCharacter => p[e.index->0 as int] == QUESTION,
        GlobErrorKind::UnsupportedCharacterClass => p[e.index->0 as int] == OPEN_BRACKET
            || p[e.index->0 as int] == CLOSE_BRACKET,
        GlobErrorKind::UnsupportedAlternates => p[e.index->0 as int] == OPEN_BRACE
            || p[e.index->0 as int] == CLOSE_BRACE,
        GlobErrorKind::DanglingEscape => p[e.index->0 as int] == BACKSLASH && e.index->0 + 1
            == p.len(),
        GlobErrorKind::InvalidEscape => p[e.index->0 as int] == BACKSLASH && e.index->0 + 1
            < p.len() && !is_escapable(p[e.index->0 + 1]),
        GlobErrorKind::InvalidGlobStar => globstar_at(p, e.index->0 as int),
    }
}

proof fn lemma_scan_explains(p: Seq<u8>, i: int, allow_globstar: bool)
    requires
        p.len() <= usize::MAX,
        0 <= i,
        scan_from(p, i, allow_globstar) is Some,
    ensures
        explains(p, scan_from(p, i, allow_globstar)->0),
        scan_from(p, i, allow_globstar)->0.index->0 >= i,
    decreases p.len() + 3 - i,
{
    if i < p.len() {
        if globstar_at(p, i) {
            if allow_globstar && globstar_closed(p, i) {
                lemma_scan_explains(p, i + 3, false);
            }
        } else if p[i] == BACKSLASH {
            if i + 1 < p.len() && is_escapable(p[i + 1]) {
                lemma_scan_explains(p, i + 2, false);
            }
        } else if unsupported(p[i]) is None {
            lemma_scan_explains(p, i + 1, p[i] == SLASH);
        }
    }
}

/// An error points at a byte of the pattern, and its kind says what is
/// wrong there: the byte is one of the characters that the grammar leaves
/// out, or a backslash with nothing or with the wrong character behind it,
/// or the first `*` of a `**`.
pub proof fn law_error_points_at_the_offender(p: Seq<u8>)
    requires
        p.len() <= usize::MAX,
        validation_error(p) is Some,
    ensures
        explains(p, validation_error(p)->0),
{
    lemma_scan_explains(p, 0, true);
}

/// Whether a byte is one that the grammar gives a meaning to or leaves out:
/// `*`, `\`, `?`, `[`, `]`, `{` or `}`.
pub open spec fn is_special(b: u8) -> bool {
    b == STAR || b == BACKSLASH || unsupported(b) is Some
}

proof fn lemma_plain_scan_passes(p: Seq<u8>, i: int, allow_globstar: bool)
    requires
        0 <= i,
        forall|k: int| 0 <= k < p.len() ==> !is_special(#[trigger] p[k]),
    ensures
        scan_from(p, i, allow_globstar) is None,
    decreases p.len() + 3 - i,
{
    if i < p.len() {
        assert(!is_special(p[i]));
        lemma_plain_scan_passes(p, i + 1, p[i] == SLASH);
    }
}

/// A pattern of plain characters and separators belongs to the grammar.
pub proof fn law_plain_text_is_valid(p: Seq<u8>)
    requires
        forall|k: int| 0 <= k < p.len() ==> !is_special(#[trigger] p[k]),
    ensures
        validation_error(p) is None,
{
    lemma_plain_scan_passes(p, 0, true);
}

} // verus!
