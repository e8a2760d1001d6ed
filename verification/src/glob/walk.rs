//! The decisions of a directory walk that prunes what a list of globs
//! excludes.
//!
//! The walk itself reads the file system and belongs to the caller. For each
//! entry that the caller's traversal reaches, the walker says what to do with
//! it: enter a directory or prune it, yield a file or pass over it, report a
//! failure. A pruned directory is never entered, so nothing below it is ever
//! looked at.

use vstd::prelude::*;
use vstd::string::*;
use crate::glob::candidate::{law_last_hit_decides, law_no_hit_keeps_default, resolve, views,
    CandidatePath};
use crate::glob::error::GlobError;
use crate::glob::pattern::{parse_outcome, raw_match, Glob, GlobView};

verus! {

/// What the walk does with one entry.
#[derive(Debug, Clone, Copy, PartialEq, Eq, Structural)]
pub enum WalkAction {
    /// A directory that is entered. It is not itself yielded.
    Descend,
    /// A directory that is left out together with everything below it.
    Prune,
    /// A file that is yielded.
    Yield,
    /// A file that is passed over.
    Skip,
    /// An entry that could not be read: the failure is yielded, and the walk
    /// goes on.
    Report,
}

impl WalkAction {
    /// The action for an entry that was read, given the verdict of the list
    /// on it: the verdict as a directory for a directory, as a file for a
    /// file.
    pub open spec fn for_verdict(is_directory: bool, verdict: bool) -> WalkAction {
        if is_directory {
            if verdict {
                WalkAction::Descend
            } else {
                WalkAction::Prune
            }
        } else {
            if verdict {
                WalkAction::Yield
            } else {
                WalkAction::Skip
            }
        }
    }

    /// The action for an entry that was read, given the verdict of the list
    /// on it.
    pub fn of(is_directory: bool, verdict: bool) -> (a: WalkAction)
        ensures
            a == WalkAction::for_verdict(is_directory, verdict),
    {
        if is_directory {
            if verdict {
                WalkAction::Descend
            } else {
                WalkAction::Prune
            }
        } else {
            if verdict {
                WalkAction::Yield
            } else {
                WalkAction::Skip
            }
        }
    }

    /// Whether the action hands the entry to the consumer of the walk.
    pub open spec fn emits(self) -> bool {
        self == WalkAction::Yield || self == WalkAction::Report
    }
}

/// The action for an entry that was read: a directory is resolved with the
/// default of directories, a file with the default of files.
pub open spec fn walk_action(globs: Seq<GlobView>, path: Seq<char>, is_directory: bool)
    -> WalkAction {
    WalkAction::for_verdict(is_directory, resolve(path, globs, is_directory))
}

/// One entry of a tree, as a traversal in pre-order reaches it.
#[derive(Debug, Clone)]
pub struct WalkEntry {
    /// The path of the entry, relative to the root of the walk.
    pub path: String,
    /// How far below the root the entry lies.
    pub depth: usize,
    /// Whether the entry is a directory.
    pub is_directory: bool,
    /// Whether reading the entry failed.
    pub failed: bool,
}

/// The action for one entry of a tree.
pub open spec fn entry_action(globs: Seq<GlobView>, entry: WalkEntry) -> WalkAction {
    if entry.failed {
        WalkAction::Report
    } else {
        walk_action(globs, entry.path@, entry.is_directory)
    }
}

/// The indices of the entries that a walk emits, from index `i` on. `pruned`
/// holds the depth of the directory that was pruned last, as long as the
/// traversal has not left it: entries that lie deeper are not looked at.
pub open spec fn emitted_from(
    globs: Seq<GlobView>,
    entries: Seq<WalkEntry>,
    i: int,
    pruned: Option<usize>,
) -> Seq<int>
    decreases entries.len() - i,
{
    if i < 0 || i >= entries.len() {
        Seq::empty()
    } else if pruned is Some && entries[i].depth > pruned->0 {
        emitted_from(globs, entries, i + 1, pruned)
    } else {
        match entry_action(globs, entries[i]) {
            WalkAction::Prune => emitted_from(globs, entries, i + 1, Some(entries[i].depth)),
            WalkAction::Yield | WalkAction::Report => seq![i] + emitted_from(
                globs,
                entries,
                i + 1,
                None,
            ),
            _ => emitted_from(globs, entries, i + 1, None),
        }
    }
}

/// The indices of the entries that a walk over the whole tree emits.
pub open spec fn emitted(globs: Seq<GlobView>, entries: Seq<WalkEntry>) -> Seq<int> {
    emitted_from(globs, entries, 0, None)
}

/// An ordered list of globs and the root that they are matched below.
#[derive(Debug)]
pub struct GlobMatcher {
    globs: Vec<Glob>,
    root: String,
}

/// The decisions of one walk.
#[derive(Debug)]
pub struct GlobWalker {
    globs: Vec<Glob>,
    root: String,
}

fn clone_globs(globs: &Vec<Glob>) -> (copy: Vec<Glob>)
    ensures
        views(copy@) == views(globs@),
{
    let mut copy: Vec<Glob> = Vec::new();
    let mut i: usize = 0;
    while i < globs.len()
        invariant
            i <= globs@.len(),
            views(copy@) == views(globs@).take(i as int),
        decreases globs@.len() - i,
    {
        let g = globs[i].clone();
        let ghost before = copy@;
        copy.push(g);
        assert(views(copy@) =~= views(before).push(g@));
        assert(views(globs@).take(i + 1) =~= views(globs@).take(i as int).push(globs@[i as int]@));
        i = i + 1;
    }
    assert(views(globs@).take(globs@.len() as int) =~= views(globs@));
    copy
}

impl GlobMatcher {
    /// The globs of the matcher, in the order in which they were added.
    pub closed spec fn globs(&self) -> Seq<GlobView> {
        views(self.globs@)
    }

    /// The root of the matcher.
    pub closed spec fn root(&self) -> Seq<char> {
        self.root@
    }

    /// A matcher of one glob, rooted at the current directory, `.`.
    pub fn new(pattern: &str) -> (r: Result<GlobMatcher, GlobError>)
        ensures
            match r {
                Ok(m) => parse_outcome(pattern@) == Ok::<GlobView, GlobError>(m.globs()[0])
                    && m.globs().len() == 1 && m.root() == "."@,
                Err(e) => parse_outcome(pattern@) == Err::<GlobView, GlobError>(e),
            },
    {
        match Glob::parse(pattern) {
            Ok(glob) => {
                let mut globs: Vec<Glob> = Vec::new();
                globs.push(glob);
                Ok(GlobMatcher { globs, root: String::from_str(".") })
            },
            Err(e) => Err(e),
        }
    }

    /// The same matcher with another root.
    pub fn with_root(self, root: &str) -> (m: GlobMatcher)
        ensures
            m.globs() == self.globs(),
            m.root() == root@,
    {
        GlobMatcher { globs: self.globs, root: String::from_str(root) }
    }

    /// Adds a glob at the end of the list, where it overrides the globs
    /// before it. A pattern that does not parse leaves the matcher as it was.
    pub fn add_pattern(&mut self, pattern: &str) -> (r: Result<(), GlobError>)
        ensures
            final(self).root() == old(self).root(),
            match r {
                Ok(_) => parse_outcome(pattern@) is Ok
                    && final(self).globs() == old(self).globs().push(parse_outcome(pattern@)->Ok_0),
                Err(e) => parse_outcome(pattern@) == Err::<GlobView, GlobError>(e)
                    && final(self).globs() == old(self).globs(),
            },
    {
        match Glob::parse(pattern) {
            Ok(glob) => {
                let ghost before = self.globs@;
                self.globs.push(glob);
                assert(views(self.globs@) =~= views(before).push(glob@));
                Ok(())
            },
            Err(e) => Err(e),
        }
    }

    /// Starts a walk below `root` with the globs of this matcher.
    pub fn walk(&self, root: &str) -> (w: GlobWalker)
        ensures
            w.globs() == self.globs(),
            w.root() == root@,
    {
        GlobWalker { globs: clone_globs(&self.globs), root: String::from_str(root) }
    }
}

impl GlobWalker {
    /// The globs that the walk resolves.
    pub closed spec fn globs(&self) -> Seq<GlobView> {
        views(self.globs@)
    }

    /// The root of the walk.
    pub closed spec fn root(&self) -> Seq<char> {
        self.root@
    }

    /// The root of the walk.
    pub fn root_path(&self) -> (s: &str)
        ensures
            s@ == self.root(),
    {
        self.root.as_str()
    }

    /// What to do with an entry that was read, given its path relative to
    /// the root.
    pub fn visit(&self, path: &str, is_directory: bool) -> (a: WalkAction)
        ensures
            a == walk_action(self.globs(), path@, is_directory),
    {
        let candidate = CandidatePath::new(path);
        let verdict = if is_directory {
            candidate.matches_directory_with_exceptions(self.globs.as_slice())
        } else {
            candidate.matches_with_exceptions(self.globs.as_slice())
        };
        WalkAction::of(is_directory, verdict)
    }

    /// What to do with an entry of a tree.
    pub fn visit_entry(&self, entry: &WalkEntry) -> (a: WalkAction)
        ensures
            a == entry_action(self.globs(), *entry),
    {
        if entry.failed {
            WalkAction::Report
        } else {
            self.visit(entry.path.as_str(), entry.is_directory)
        }
    }

    /// Walks a tree that is given as the list of its entries in pre-order,
    /// and returns the indices of the entries that the walk emits: the files
    /// that the list keeps and the entries that failed, in order. Entries
    /// below a pruned directory are not looked at.
    pub fn select(&self, entries: &[WalkEntry]) -> (kept: Vec<usize>)
        ensures
            kept@.map_values(|x: usize| x as int) == emitted(self.globs(), entries@),
    {
        let mut kept: Vec<usize> = Vec::new();
        let mut pruned: Option<usize> = None;
        let mut i: usize = 0;
        while i < entries.len()
            invariant
                i <= entries@.len(),
                kept@.map_values(|x: usize| x as int) + emitted_from(
                    self.globs(),
                    entries@,
                    i as int,
                    pruned,
                ) == emitted(self.globs(), entries@),
            decreases entries@.len() - i,
        {
            let ghost before = kept@.map_values(|x: usize| x as int);
            let ghost rest = emitted_from(self.globs(), entries@, i as int, pruned);
            let entry = &entries[i];
            let below_pruned = match pruned {
                Some(depth) => entry.depth > depth,
                None => false,
            };
            if !below_pruned {
                match self.visit_entry(entry) {
                    WalkAction::Prune => {
                        pruned = Some(entry.depth);
                    },
                    WalkAction::Yield | WalkAction::Report => {
                        kept.push(i);
                        pruned = None;
                        assert(kept@.map_values(|x: usize| x as int) =~= before.push(i as int));
                        assert(kept@.map_values(|x: usize| x as int) + emitted_from(
                            self.globs(),
                            entries@,
                            i + 1,
                            pruned,
                        ) =~= before + rest);
                    },
                    _ => {
                        pruned = None;
                    },
                }
            }
            i = i + 1;
        }
        assert(kept@.map_values(|x: usize| x as int) + Seq::<int>::empty() =~= kept@.map_values(
            |x: usize| x as int,
        ));
        kept
    }
}

/// Whether entry `k` lies below entry `j` in a tree given in pre-order: every
/// entry after `j` up to `k` lies deeper than `j`.
pub open spec fn lies_below(entries: Seq<WalkEntry>, j: int, k: int) -> bool {
    &&& 0 <= j < k < entries.len()
    &&& forall|m: int| j < m <= k ==> (#[trigger] entries[m]).depth > entries[j].depth
}

/// The state in which a walk goes on behind entry `i`.
spec fn pruned_behind(
    globs: Seq<GlobView>,
    entries: Seq<WalkEntry>,
    i: int,
    pruned: Option<usize>,
) -> Option<usize> {
    if pruned is Some && entries[i].depth > pruned->0 {
        pruned
    } else if entry_action(globs, entries[i]) == WalkAction::Prune {
        Some(entries[i].depth)
    } else {
        None
    }
}

/// Whether a walk that reaches entry `i` in the given state emits it.
spec fn emits_at(
    globs: Seq<GlobView>,
    entries: Seq<WalkEntry>,
    i: int,
    pruned: Option<usize>,
) -> bool {
    !(pruned is Some && entries[i].depth > pruned->0) && entry_action(globs, entries[i]).emits()
}

proof fn lemma_emitted_from_step(
    globs: Seq<GlobView>,
    entries: Seq<WalkEntry>,
    i: int,
    pruned: Option<usize>,
)
    requires
        0 <= i < entries.len(),
    ensures
        emitted_from(globs, entries, i, pruned) == if emits_at(globs, entries, i, pruned) {
            seq![i] + emitted_from(globs, entries, i + 1, pruned_behind(globs, entries, i, pruned))
        } else {
            emitted_from(globs, entries, i + 1, pruned_behind(globs, entries, i, pruned))
        },
{
}

proof fn lemma_emitted_from_bounds(
    globs: Seq<GlobView>,
    entries: Seq<WalkEntry>,
    i: int,
    pruned: Option<usize>,
)
    requires
        0 <= i,
    ensures
        forall|x: int|
            0 <= x < emitted_from(globs, entries, i, pruned).len() ==> i <= (
            #[trigger] emitted_from(globs, entries, i, pruned)[x]) < entries.len(),
    decreases entries.len() - i,
{
    if i < entries.len() {
        let behind = pruned_behind(globs, entries, i, pruned);
        lemma_emitted_from_step(globs, entries, i, pruned);
        lemma_emitted_from_bounds(globs, entries, i + 1, behind);
        let all = emitted_from(globs, entries, i, pruned);
        let tail = emitted_from(globs, entries, i + 1, behind);
        assert forall|x: int| 0 <= x < all.len() implies i <= (#[trigger] all[x])
            < entries.len() by {
            if emits_at(globs, entries, i, pruned) {
                if x > 0 {
                    assert(all[x] == tail[x - 1]);
                }
            } else {
                assert(all[x] == tail[x]);
            }
        }
    }
}

proof fn lemma_pruned_entries_are_passed(
    globs: Seq<GlobView>,
    entries: Seq<WalkEntry>,
    i: int,
    k: int,
    depth: usize,
)
    requires
        0 <= i,
        k < entries.len(),
        forall|m: int| i <= m <= k ==> (#[trigger] entries[m]).depth > depth,
    ensures
        !emitted_from(globs, entries, i, Some(depth)).contains(k),
    decreases entries.len() - i,
{
    if i > k {
        lemma_emitted_from_bounds(globs, entries, i, Some(depth));
        let all = emitted_from(globs, entries, i, Some(depth));
        if all.contains(k) {
            let x = choose|x: int| 0 <= x < all.len() && all[x] == k;
            assert(i <= all[x]);
        }
    } else {
        assert(entries[i].depth > depth);
        lemma_pruned_entries_are_passed(globs, entries, i + 1, k, depth);
    }
}

proof fn lemma_nothing_below_pruned(
    globs: Seq<GlobView>,
    entries: Seq<WalkEntry>,
    i: int,
    pruned: Option<usize>,
    j: int,
    k: int,
)
    requires
        0 <= i <= j,
        lies_below(entries, j, k),
        entry_action(globs, entries[j]) == WalkAction::Prune,
    ensures
        !emitted_from(globs, entries, i, pruned).contains(k),
    decreases entries.len() - i,
{
    if i == j {
        if pruned is Some && entries[j].depth > pruned->0 {
            assert forall|m: int| j + 1 <= m <= k implies (#[trigger] entries[m]).depth
                > pruned->0 by {}
            lemma_pruned_entries_are_passed(globs, entries, j + 1, k, pruned->0);
        } else {
            lemma_pruned_entries_are_passed(globs, entries, j + 1, k, entries[j].depth);
        }
    } else {
        let behind = pruned_behind(globs, entries, i, pruned);
        lemma_emitted_from_step(globs, entries, i, pruned);
        lemma_nothing_below_pruned(globs, entries, i + 1, behind, j, k);
        let all = emitted_from(globs, entries, i, pruned);
        let tail = emitted_from(globs, entries, i + 1, behind);
        if emits_at(globs, entries, i, pruned) && all.contains(k) {
            let x = choose|x: int| 0 <= x < all.len() && all[x] == k;
            if x > 0 {
                assert(tail[x - 1] == k);
            }
        }
    }
}

/// A walk never descends into a directory that the list prunes: no entry
/// below such a directory is emitted, whatever the list says of the entry
/// itself.
pub proof fn law_pruned_subtree_is_never_emitted(
    globs: Seq<GlobView>,
    entries: Seq<WalkEntry>,
    j: int,
    k: int,
)
    requires
        lies_below(entries, j, k),
        entry_action(globs, entries[j]) == WalkAction::Prune,
    ensures
        !emitted(globs, entries).contains(k),
{
    lemma_nothing_below_pruned(globs, entries, 0, None, j, k);
}

/// Every index that a walk emits is the index of an entry, and the indices
/// come in increasing order.
pub proof fn law_emitted_in_order(globs: Seq<GlobView>, entries: Seq<WalkEntry>)
    ensures
        forall|x: int|
            0 <= x < emitted(globs, entries).len() ==> (#[trigger] emitted(globs, entries)[x])
                < entries.len(),
        forall|x: int, y: int|
            0 <= x < y < emitted(globs, entries).len() ==> emitted(globs, entries)[x] < emitted(
                globs,
                entries,
            )[y],
{
    lemma_emitted_from_bounds(globs, entries, 0, None);
    lemma_emitted_from_increasing(globs, entries, 0, None);
}

proof fn lemma_emitted_from_increasing(
    globs: Seq<GlobView>,
    entries: Seq<WalkEntry>,
    i: int,
    pruned: Option<usize>,
)
    requires
        0 <= i,
    ensures
        forall|x: int, y: int|
            0 <= x < y < emitted_from(globs, entries, i, pruned).len() ==> emitted_from(
                globs,
                entries,
                i,
                pruned,
            )[x] < emitted_from(globs, entries, i, pruned)[y],
    decreases entries.len() - i,
{
    if i < entries.len() {
        let behind = pruned_behind(globs, entries, i, pruned);
        lemma_emitted_from_step(globs, entries, i, pruned);
        lemma_emitted_from_increasing(globs, entries, i + 1, behind);
        lemma_emitted_from_bounds(globs, entries, i + 1, behind);
        let all = emitted_from(globs, entries, i, pruned);
        let tail = emitted_from(globs, entries, i + 1, behind);
        assert forall|x: int, y: int| 0 <= x < y < all.len() implies all[x] < all[y] by {
            if emits_at(globs, entries, i, pruned) {
                assert(all[y] == tail[y - 1]);
                if x > 0 {
                    assert(all[x] == tail[x - 1]);
                }
            } else {
                assert(all[x] == tail[x] && all[y] == tail[y]);
            }
        }
    }
}

/// Whether entry `k` lies below a directory that the list prunes.
pub open spec fn below_pruned(globs: Seq<GlobView>, entries: Seq<WalkEntry>, k: int) -> bool {
    exists|j: int|
        lies_below(entries, j, k) && entry_action(globs, #[trigger] entries[j])
            == WalkAction::Prune
}

/// Whether the state of a walk at entry `i` is one that a walk can be in:
/// where a depth is held, a pruned directory of that depth stands before
/// `i`, and everything between it and `i` lies deeper.
spec fn reachable_state(
    globs: Seq<GlobView>,
    entries: Seq<WalkEntry>,
    i: int,
    pruned: Option<usize>,
) -> bool {
    pruned is Some ==> exists|j: int|
        {
            &&& 0 <= j < i
            &&& entry_action(globs, #[trigger] entries[j]) == WalkAction::Prune
            &&& entries[j].depth == pruned->0
            &&& forall|m: int| j < m < i ==> (#[trigger] entries[m]).depth > pruned->0
        }
}

proof fn lemma_emitted_entries_emit(
    globs: Seq<GlobView>,
    entries: Seq<WalkEntry>,
    i: int,
    pruned: Option<usize>,
)
    requires
        0 <= i,
    ensures
        forall|x: int|
            0 <= x < emitted_from(globs, entries, i, pruned).len() ==> entry_action(
                globs,
                entries[#[trigger] emitted_from(globs, entries, i, pruned)[x]],
            ).emits(),
    decreases entries.len() - i,
{
    if i < entries.len() {
        let behind = pruned_behind(globs, entries, i, pruned);
        lemma_emitted_from_step(globs, entries, i, pruned);
        lemma_emitted_entries_emit(globs, entries, i + 1, behind);
        let all = emitted_from(globs, entries, i, pruned);
        let tail = emitted_from(globs, entries, i + 1, behind);
        assert forall|x: int| 0 <= x < all.len() implies entry_action(
            globs,
            entries[#[trigger] all[x]],
        ).emits() by {
            if emits_at(globs, entries, i, pruned) {
                if x > 0 {
                    assert(all[x] == tail[x - 1]);
                }
            } else {
                assert(all[x] == tail[x]);
            }
        }
    }
}

proof fn lemma_unpruned_entry_is_emitted(
    globs: Seq<GlobView>,
    entries: Seq<WalkEntry>,
    i: int,
    pruned: Option<usize>,
    k: int,
)
    requires
        0 <= i <= k < entries.len(),
        reachable_state(globs, entries, i, pruned),
        entry_action(globs, entries[k]).emits(),
        !below_pruned(globs, entries, k),
    ensures
        emitted_from(globs, entries, i, pruned).contains(k),
    decreases k - i,
{
    let all = emitted_from(globs, entries, i, pruned);
    let behind = pruned_behind(globs, entries, i, pruned);
    let tail = emitted_from(globs, entries, i + 1, behind);
    lemma_emitted_from_step(globs, entries, i, pruned);
    if i == k {
        if pruned is Some && entries[k].depth > pruned->0 {
            let j = choose|j: int|
                {
                    &&& 0 <= j < i
                    &&& entry_action(globs, #[trigger] entries[j]) == WalkAction::Prune
                    &&& entries[j].depth == pruned->0
                    &&& forall|m: int| j < m < i ==> (#[trigger] entries[m]).depth > pruned->0
                };
            assert(lies_below(entries, j, k));
            assert(below_pruned(globs, entries, k));
        }
        assert(all[0] == k);
    } else {
        if pruned is Some && entries[i].depth > pruned->0 {
            let j = choose|j: int|
                {
                    &&& 0 <= j < i
                    &&& entry_action(globs, #[trigger] entries[j]) == WalkAction::Prune
                    &&& entries[j].depth == pruned->0
                    &&& forall|m: int| j < m < i ==> (#[trigger] entries[m]).depth > pruned->0
                };
            assert(forall|m: int| j < m < i + 1 ==> (#[trigger] entries[m]).depth > pruned->0);
            assert(reachable_state(globs, entries, i + 1, behind));
        } else if entry_action(globs, entries[i]) == WalkAction::Prune {
            assert(entry_action(globs, entries[i]) == WalkAction::Prune && entries[i].depth
                == behind->0);
            assert(reachable_state(globs, entries, i + 1, behind));
        }
        lemma_unpruned_entry_is_emitted(globs, entries, i + 1, behind, k);
        let x = choose|x: int| 0 <= x < tail.len() && tail[x] == k;
        if emits_at(globs, entries, i, pruned) {
            assert(all[x + 1] == k);
        } else {
            assert(all[x] == k);
        }
    }
}

/// What a walk emits, said without the walk: an entry is emitted exactly
/// where it is a file that the list keeps, or an entry that failed, and it
/// does not lie below a directory that the list prunes.
pub proof fn law_walk_emits_the_unpruned(globs: Seq<GlobView>, entries: Seq<WalkEntry>, k: int)
    requires
        0 <= k < entries.len(),
    ensures
        emitted(globs, entries).contains(k) <==> entry_action(globs, entries[k]).emits()
            && !below_pruned(globs, entries, k),
{
    let all = emitted(globs, entries);
    if all.contains(k) {
        lemma_emitted_entries_emit(globs, entries, 0, None);
        let x = choose|x: int| 0 <= x < all.len() && all[x] == k;
        assert(entry_action(globs, entries[all[x]]).emits());
        if below_pruned(globs, entries, k) {
            let j = choose|j: int|
                lies_below(entries, j, k) && entry_action(globs, #[trigger] entries[j])
                    == WalkAction::Prune;
            law_pruned_subtree_is_never_emitted(globs, entries, j, k);
        }
    }
    if entry_action(globs, entries[k]).emits() && !below_pruned(globs, entries, k) {
        lemma_unpruned_entry_is_emitted(globs, entries, 0, None, k);
    }
}

/// Where the last glob whose pattern describes a path is negated, the walk
/// prunes the path as a directory and passes over it as a file.
pub proof fn law_excluded_path_is_pruned(globs: Seq<GlobView>, path: Seq<char>, i: int)
    requires
        0 <= i < globs.len(),
        raw_match(globs[i].pattern, path),
        globs[i].is_negated,
        forall|j: int| i < j < globs.len() ==> !raw_match(#[trigger] globs[j].pattern, path),
    ensures
        walk_action(globs, path, true) == WalkAction::Prune,
        walk_action(globs, path, false) == WalkAction::Skip,
{
    law_last_hit_decides(path, globs, true, i);
    law_last_hit_decides(path, globs, false, i);
}

/// Where the last glob whose pattern describes a path is plain, the walk
/// enters the path as a directory and yields it as a file.
pub proof fn law_kept_path_is_yielded(globs: Seq<GlobView>, path: Seq<char>, i: int)
    requires
        0 <= i < globs.len(),
        raw_match(globs[i].pattern, path),
        !globs[i].is_negated,
        forall|j: int| i < j < globs.len() ==> !raw_match(#[trigger] globs[j].pattern, path),
    ensures
        walk_action(globs, path, true) == WalkAction::Descend,
        walk_action(globs, path, false) == WalkAction::Yield,
{
    law_last_hit_decides(path, globs, true, i);
    law_last_hit_decides(path, globs, false, i);
}

/// Where no pattern of the list describes a path, the walk enters the path
/// as a directory and passes over it as a file.
pub proof fn law_undescribed_path_is_entered_not_yielded(globs: Seq<GlobView>, path: Seq<char>)
    requires
        forall|j: int| 0 <= j < globs.len() ==> !raw_match(#[trigger] globs[j].pattern, path),
    ensures
        walk_action(globs, path, true) == WalkAction::Descend,
        walk_action(globs, path, false) == WalkAction::Skip,
{
    law_no_hit_keeps_default(path, globs, true);
    law_no_hit_keeps_default(path, globs, false);
}

} // verus!
