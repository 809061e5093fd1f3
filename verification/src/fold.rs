//! Fold state: which JSON nodes are expanded and which are collapsed.
//!
//! A node is named by its path: the sequence of child positions walked from
//! the root (position in the array, or position of the member in the
//! object). The state is a base policy — fully expanded, or collapsed
//! beyond the root — plus per-path overrides recorded in toggle order,
//! where the last override for a path wins. Fold state persists across
//! re-evaluations within one generation and is reset whenever a fresh
//! result value replaces the displayed tree.

use vstd::prelude::*;

verus! {

/// Expanded/collapsed decisions for every node path.
pub struct FoldState {
    /// Base policy: true means every node starts expanded; false means
    /// every node below the root starts collapsed.
    pub expand_all: bool,
    /// Per-path overrides, in the order they were made; the entry is the
    /// collapsed flag, and the last entry for a path wins.
    pub overrides: Vec<(Vec<usize>, bool)>,
}

/// The last override recorded for `path`, if any.
pub open spec fn spec_lookup(overrides: Seq<(Vec<usize>, bool)>, path: Seq<usize>) -> Option<bool>
    decreases overrides.len(),
{
    if overrides.len() == 0 {
        None
    } else if overrides.last().0@ == path {
        Some(overrides.last().1)
    } else {
        spec_lookup(overrides.drop_last(), path)
    }
}

impl FoldState {
    /// Whether the node at `path` is collapsed: the last override for the
    /// path if one exists, else the base policy (the root itself is never
    /// collapsed by the base policy alone).
    pub open spec fn spec_collapsed(&self, path: Seq<usize>) -> bool {
        match spec_lookup(self.overrides@, path) {
            Some(c) => c,
            None => !self.expand_all && path.len() >= 1,
        }
    }

    /// A fresh fold state with no overrides: the configured base policy
    /// decides every node.
    pub fn new(expand_all: bool) -> (r: Self)
        ensures
            r.expand_all == expand_all,
            r.overrides@.len() == 0,
            forall|q: Seq<usize>| #[trigger] r.spec_collapsed(q) == (!expand_all && q.len() >= 1),
    {
        FoldState { expand_all, overrides: Vec::new() }
    }

    #[verifier::loop_isolation(false)]
    pub fn is_collapsed(&self, path: &Vec<usize>) -> (r: bool)
        ensures
            r == self.spec_collapsed(path@),
    {
        proof {
            assert(self.overrides@.take(self.overrides@.len() as int) =~= self.overrides@);
        }
        let mut i: usize = self.overrides.len();
        while i > 0
            invariant
                i <= self.overrides@.len(),
                spec_lookup(self.overrides@, path@) == spec_lookup(
                    self.overrides@.take(i as int),
                    path@,
                ),
            decreases i,
        {
            let entry = &self.overrides[i - 1];
            if paths_equal(&entry.0, path) {
                proof {
                    assert(self.overrides@.take(i as int).last() == self.overrides@[i - 1]);
                }
                return entry.1;
            }
            proof {
                assert(self.overrides@.take(i as int).drop_last() =~= self.overrides@.take(
                    i - 1,
                ));
            }
            i = i - 1;
        }
        proof {
            assert(self.overrides@.take(0) =~= Seq::<(Vec<usize>, bool)>::empty());
        }
        !self.expand_all && path.len() >= 1
    }

    /// Records a new override flipping the node at `path`: afterwards that
    /// node reads as the opposite of before, and every other node is
    /// unaffected.
    pub fn toggle(&mut self, path: Vec<usize>)
        ensures
            final(self).expand_all == old(self).expand_all,
            final(self).overrides@ == old(self).overrides@.push(
                (path, !old(self).spec_collapsed(path@)),
            ),
            final(self).spec_collapsed(path@) == !old(self).spec_collapsed(path@),
            forall|q: Seq<usize>|
                q != path@ ==> #[trigger] final(self).spec_collapsed(q) == old(
                    self,
                ).spec_collapsed(q),
    {
        let collapsed = !self.is_collapsed(&path);
        let ghost pre = *self;
        self.overrides.push((path, collapsed));
        proof {
            assert forall|q: Seq<usize>| q != path@ implies #[trigger] self.spec_collapsed(q)
                == pre.spec_collapsed(q) by {
                assert(self.overrides@.drop_last() =~= pre.overrides@);
            }
            assert(self.overrides@.drop_last() =~= pre.overrides@);
        }
    }

    /// Records an explicit override for the node at `path`.
    pub fn set_collapsed(&mut self, path: Vec<usize>, collapsed: bool)
        ensures
            final(self).expand_all == old(self).expand_all,
            final(self).overrides@ == old(self).overrides@.push((path, collapsed)),
            final(self).spec_collapsed(path@) == collapsed,
            forall|q: Seq<usize>|
                q != path@ ==> #[trigger] final(self).spec_collapsed(q) == old(
                    self,
                ).spec_collapsed(q),
    {
        let ghost pre = *self;
        self.overrides.push((path, collapsed));
        proof {
            assert forall|q: Seq<usize>| q != path@ implies #[trigger] self.spec_collapsed(q)
                == pre.spec_collapsed(q) by {
                assert(self.overrides@.drop_last() =~= pre.overrides@);
            }
            assert(self.overrides@.drop_last() =~= pre.overrides@);
        }
    }
}

/// Two node paths are equal exactly when they walk the same positions.
pub fn paths_equal(a: &Vec<usize>, b: &Vec<usize>) -> (r: bool)
    ensures
        r == (a@ == b@),
{
    if a.len() != b.len() {
        return false;
    }
    let mut i: usize = 0;
    while i < a.len()
        invariant
            i <= a@.len(),
            a@.len() == b@.len(),
            forall|j: int| 0 <= j < i ==> a@[j] == b@[j],
        decreases a@.len() - i,
    {
        if a[i] != b[i] {
            return false;
        }
        i = i + 1;
    }
    proof {
        assert(a@ =~= b@);
    }
    true
}

/// Collapsing a node that is already collapsed is idempotent: recording a
/// collapse override for a path that already reads as collapsed changes no
/// observation, at that path or any other.
pub proof fn lemma_collapse_idempotent(f1: FoldState, f2: FoldState, path: Vec<usize>, q: Seq<usize>)
    requires
        f2.expand_all == f1.expand_all,
        f1.spec_collapsed(path@),
        f2.overrides@ == f1.overrides@.push((path, true)),
    ensures
        f2.spec_collapsed(q) == f1.spec_collapsed(q),
{
    assert(f2.overrides@.drop_last() =~= f1.overrides@);
}

} // verus!
