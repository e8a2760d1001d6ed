//! A path that is tested against globs, and the resolution of ordered lists
//! of globs in which a later entry overrides an earlier one.

use vstd::prelude::*;
use vstd::string::*;
use crate::glob::pattern::{glob_matches, raw_match, Glob, GlobView};

verus! {

/// The views of a list of globs, in order.
pub open spec fn views(globs: Seq<Glob>) -> Seq<GlobView> {
    globs.map_values(|g: Glob| g@)
}

/// The verdict of an ordered list on a path: the last glob whose pattern
/// describes the path decides, for the path where it is plain and against it
/// where it is negated; where no pattern describes the path, the default
/// stands.
pub open spec fn resolve(path: Seq<char>, globs: Seq<GlobView>, default: bool) -> bool
    decreases globs.len(),
{
    if globs.len() == 0 {
        default
    } else if raw_match(globs.last().pattern, path) {
        !globs.last().is_negated
    } else {
        resolve(path, globs.drop_last(), default)
    }
}

/// The verdict of a list, given the answers of its globs in order: for each
/// glob, whether its pattern describes the path, and whether the glob is
/// negated.
pub open spec fn resolve_answers(answers: Seq<(bool, bool)>, default: bool) -> bool
    decreases answers.len(),
{
    if answers.len() == 0 {
        default
    } else if answers.last().0 {
        !answers.last().1
    } else {
        resolve_answers(answers.drop_last(), default)
    }
}

/// Decides a list from the answers of its globs: scans from the last entry
/// backwards and lets the first pattern that describes the path decide.
pub fn decide(answers: &[(bool, bool)], default: bool) -> (b: bool)
    ensures
        b == resolve_answers(answers@, default),
{
    let mut i: usize = answers.len();
    assert(answers@.take(i as int) =~= answers@);
    while i > 0
        invariant
            i <= answers@.len(),
            resolve_answers(answers@, default) == resolve_answers(
                answers@.take(i as int),
                default,
            ),
        decreases i,
    {
        let ghost taken = answers@.take(i as int);
        assert(taken.last() == answers@[i - 1]);
        assert(taken.drop_last() =~= answers@.take(i - 1));
        i = i - 1;
        if answers[i].0 {
            return !answers[i].1;
        }
    }
    assert(answers@.take(0).len() == 0);
    default
}

/// One path, ready to be tested against any number of globs.
#[derive(Debug)]
pub struct CandidatePath<'a> {
    path: &'a str,
}

impl<'a> View for CandidatePath<'a> {
    type V = Seq<char>;

    closed spec fn view(&self) -> Seq<char> {
        self.path@
    }
}

impl<'a> CandidatePath<'a> {
    /// Wraps a path.
    pub fn new(path: &'a str) -> (c: Self)
        ensures
            c@ == path@,
    {
        CandidatePath { path }
    }

    /// Whether the glob's pattern describes this path, negation left aside.
    pub fn raw_matches(&self, glob: &Glob) -> (b: bool)
        ensures
            b == raw_match(glob@.pattern, self@),
    {
        glob.is_raw_match(self.path)
    }

    /// Whether the glob accepts this path.
    pub fn matches(&self, glob: &Glob) -> (b: bool)
        ensures
            b == glob_matches(glob@, self@),
    {
        glob.verdict(self.raw_matches(glob))
    }

    /// Resolves the list for this path as a file: a file is left out unless
    /// the list speaks for it.
    pub fn matches_with_exceptions(&self, globs: &[Glob]) -> (b: bool)
        ensures
            b == resolve(self@, views(globs@), false),
    {
        self.matches_with_exceptions_or(false, globs)
    }

    /// Resolves the list for this path as a directory: a directory is
    /// entered unless the list speaks against it.
    pub fn matches_directory_with_exceptions(&self, globs: &[Glob]) -> (b: bool)
        ensures
            b == resolve(self@, views(globs@), true),
    {
        self.matches_with_exceptions_or(true, globs)
    }

    /// Resolves the list for this path, with the verdict for a path that no
    /// pattern describes given by the caller. The globs are tried from the
    /// last one backwards, and none is tried once one has decided.
    pub fn matches_with_exceptions_or(&self, default: bool, globs: &[Glob]) -> (b: bool)
        ensures
            b == resolve(self@, views(globs@), default),
    {
        let mut i: usize = globs.len();
        assert(views(globs@).take(i as int) =~= views(globs@));
        while i > 0
            invariant
                i <= globs@.len(),
                resolve(self@, views(globs@), default) == resolve(
                    self@,
                    views(globs@).take(i as int),
                    default,
                ),
            decreases i,
        {
            let ghost prefix = views(globs@).take(i as int);
            assert(prefix.last() == globs@[i - 1]@);
            assert(prefix.drop_last() =~= views(globs@).take(i - 1));
            i = i - 1;
            let glob = &globs[i];
            if self.raw_matches(glob) {
                return !glob.is_negated();
            }
        }
        assert(views(globs@).take(0).len() == 0);
        default
    }
}

/// The answers of the globs of a list for one path.
pub open spec fn answers_of(path: Seq<char>, globs: Seq<GlobView>) -> Seq<(bool, bool)> {
    globs.map_values(|g: GlobView| (raw_match(g.pattern, path), g.is_negated))
}

/// Resolving a list is deciding from the answers of its globs.
pub proof fn law_resolve_by_answers(path: Seq<char>, globs: Seq<GlobView>, default: bool)
    ensures
        resolve(path, globs, default) == resolve_answers(answers_of(path, globs), default),
    decreases globs.len(),
{
    if globs.len() > 0 {
        assert(answers_of(path, globs).drop_last() =~= answers_of(path, globs.drop_last()));
        law_resolve_by_answers(path, globs.drop_last(), default);
    }
}

/// An empty list leaves the default standing.
pub proof fn law_empty_list_keeps_default(path: Seq<char>, default: bool)
    ensures
        resolve(path, Seq::<GlobView>::empty(), default) == default,
{
}

/// With no globs at all, a directory is entered.
pub proof fn law_directory_entered_by_default(path: Seq<char>)
    ensures
        resolve(path, Seq::<GlobView>::empty(), true),
{
}

/// A list that no pattern of which describes the path leaves the default
/// standing.
pub proof fn law_no_hit_keeps_default(path: Seq<char>, globs: Seq<GlobView>, default: bool)
    requires
        forall|j: int| 0 <= j < globs.len() ==> !raw_match(#[trigger] globs[j].pattern, path),
    ensures
        resolve(path, globs, default) == default,
    decreases globs.len(),
{
    if globs.len() > 0 {
        let rest = globs.drop_last();
        assert(!raw_match(globs[globs.len() - 1].pattern, path));
        assert forall|j: int| 0 <= j < rest.len() implies !raw_match(
            #[trigger] rest[j].pattern,
            path,
        ) by {
            assert(rest[j] == globs[j]);
        }
        law_no_hit_keeps_default(path, rest, default);
    }
}

/// The last glob whose pattern describes the path decides, whatever stands
/// before it in the list and whatever the default is.
pub proof fn law_last_hit_decides(
    path: Seq<char>,
    globs: Seq<GlobView>,
    default: bool,
    i: int,
)
    requires
        0 <= i < globs.len(),
        raw_match(globs[i].pattern, path),
        forall|j: int| i < j < globs.len() ==> !raw_match(#[trigger] globs[j].pattern, path),
    ensures
        resolve(path, globs, default) == !globs[i].is_negated,
    decreases globs.len(),
{
    if i < globs.len() - 1 {
        let rest = globs.drop_last();
        assert(!raw_match(globs[globs.len() - 1].pattern, path));
        assert(rest[i] == globs[i]);
        assert forall|j: int| i < j < rest.len() implies !raw_match(
            #[trigger] rest[j].pattern,
            path,
        ) by {
            assert(rest[j] == globs[j]);
        }
        law_last_hit_decides(path, rest, default, i);
    }
}

/// Where a plain glob is followed by a negated one and both patterns
/// describe the path, the negated one wins: the path is left out.
pub proof fn law_later_negation_overrides(
    path: Seq<char>,
    plain: GlobView,
    negated: GlobView,
    default: bool,
)
    requires
        !plain.is_negated,
        negated.is_negated,
        raw_match(plain.pattern, path),
        raw_match(negated.pattern, path),
    ensures
        !resolve(path, seq![plain, negated], default),
{
    law_last_hit_decides(path, seq![plain, negated], default, 1);
}

/// The verdict of a list of one glob on a file: the path is kept exactly
/// where the glob is plain and its pattern describes the path.
pub proof fn law_single_glob(path: Seq<char>, g: GlobView)
    ensures
        resolve(path, seq![g], false) == (raw_match(g.pattern, path) && !g.is_negated),
{
    let globs = seq![g];
    assert(globs.last() == g);
    assert(globs.drop_last() =~= Seq::<GlobView>::empty());
    assert(resolve(path, globs.drop_last(), false) == false);
}

/// A list of one glob keeps a file exactly where the glob accepts it,
/// provided the glob is plain or its pattern describes the path. (A negated
/// glob whose pattern does not describe the path accepts the path, while the
/// list of that glob alone leaves it out.)
pub proof fn law_single_glob_agrees_with_match(path: Seq<char>, g: GlobView)
    requires
        !g.is_negated || raw_match(g.pattern, path),
    ensures
        resolve(path, seq![g], false) == glob_matches(g, path),
{
    law_single_glob(path, g);
}

} // verus!
