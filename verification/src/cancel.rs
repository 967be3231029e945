//! Hierarchical cancellation: a tree of tokens in which cancelling a node
//! reaches every descendant and nothing else.
//!
//! Every background task of a delegation is scoped to its own child token,
//! so a parent can tear its delegations down wholesale while a finished
//! delegation tears down exactly its own tasks. The tree is an arena:
//! each node records its parent and its own cancelled flag, and a token is
//! observed cancelled when any node on its ancestor chain carries the
//! flag. Parents always precede children in the arena, which bounds every
//! ancestor walk.

use vstd::prelude::*;

verus! {

/// One token: its parent (none for a root) and its own flag.
#[derive(Clone, Copy, Debug, PartialEq, Eq)]
pub struct CancelNode {
    pub parent: Option<usize>,
    pub flag: bool,
}

/// An arena of cancellation tokens; a token is an index into it.
pub struct CancelTree {
    pub nodes: Vec<CancelNode>,
}

impl CancelTree {
    /// Parents precede their children, so ancestor chains terminate.
    pub open spec fn wf(self) -> bool {
        forall|i: int|
            0 <= i < self.nodes@.len() ==> ((#[trigger] self.nodes@[i]).parent matches Some(p)
                ==> (p as int) < i)
    }

    /// A token observes cancellation when it, or any ancestor, was
    /// cancelled.
    pub open spec fn spec_is_cancelled(self, i: int) -> bool
        decreases i,
    {
        if i < 0 || i >= self.nodes@.len() {
            false
        } else if self.nodes@[i].flag {
            true
        } else {
            match self.nodes@[i].parent {
                Some(p) => if (p as int) < i {
                    self.spec_is_cancelled(p as int)
                } else {
                    false
                },
                None => false,
            }
        }
    }

    /// `a` lies on `d`'s ancestor chain (or is `d` itself).
    pub open spec fn is_ancestor_or_self(self, a: int, d: int) -> bool
        decreases d,
    {
        if d < 0 || d >= self.nodes@.len() {
            false
        } else if a == d {
            true
        } else {
            match self.nodes@[d].parent {
                Some(p) => if (p as int) < d {
                    self.is_ancestor_or_self(a, p as int)
                } else {
                    false
                },
                None => false,
            }
        }
    }

    pub fn new() -> (t: Self)
        ensures
            t.wf(),
            t.nodes@.len() == 0,
    {
        CancelTree { nodes: Vec::new() }
    }

    /// Mint a fresh root token, unrelated to every existing one.
    pub fn new_root(&mut self) -> (id: usize)
        requires
            old(self).wf(),
        ensures
            final(self).wf(),
            id == old(self).nodes@.len(),
            final(self).nodes@ == old(self).nodes@.push(CancelNode { parent: None, flag: false }),
    {
        let id = self.nodes.len();
        self.nodes.push(CancelNode { parent: None, flag: false });
        id
    }

    /// Derive a child token: it observes every cancellation of `parent`
    /// and of `parent`'s ancestors, while cancelling it touches neither
    /// them nor its siblings.
    pub fn child_token(&mut self, parent: usize) -> (id: usize)
        requires
            old(self).wf(),
            parent < old(self).nodes@.len(),
        ensures
            final(self).wf(),
            id == old(self).nodes@.len(),
            final(self).nodes@ == old(self).nodes@.push(
                CancelNode { parent: Some(parent), flag: false },
            ),
    {
        let id = self.nodes.len();
        self.nodes.push(CancelNode { parent: Some(parent), flag: false });
        id
    }

    /// Cancel one token: set its own flag, touching no other node.
    pub fn cancel(&mut self, i: usize)
        requires
            old(self).wf(),
            i < old(self).nodes@.len(),
        ensures
            final(self).wf(),
            final(self).nodes@ == old(self).nodes@.update(
                i as int,
                CancelNode { parent: old(self).nodes@[i as int].parent, flag: true },
            ),
    {
        let n = self.nodes[i];
        self.nodes.set(i, CancelNode { parent: n.parent, flag: true });
    }

    /// Walk the ancestor chain looking for a set flag — what a task checks
    /// at each suspension point.
    pub fn is_cancelled(&self, i: usize) -> (b: bool)
        requires
            self.wf(),
            i < self.nodes@.len(),
        ensures
            b == self.spec_is_cancelled(i as int),
    {
        let mut j = i;
        loop
            invariant
                self.wf(),
                j < self.nodes@.len(),
                self.spec_is_cancelled(i as int) == self.spec_is_cancelled(j as int),
            decreases j,
        {
            if self.nodes[j].flag {
                return true;
            }
            match self.nodes[j].parent {
                Some(p) => {
                    assert((p as int) < j);
                    j = p;
                },
                None => {
                    return false;
                },
            }
        }
    }
}

/// Reachability law: cancelling a token reaches every token in its
/// subtree. `post` is `pre` with exactly token `a`'s flag set, as
/// `cancel` ensures; every descendant of `a` — and `a` itself — then
/// observes cancellation.
pub proof fn lemma_cancel_reaches_descendants(pre: CancelTree, post: CancelTree, a: int, d: int)
    requires
        pre.wf(),
        0 <= a < pre.nodes@.len(),
        post.nodes@ == pre.nodes@.update(
            a,
            CancelNode { parent: pre.nodes@[a].parent, flag: true },
        ),
        0 <= d < pre.nodes@.len(),
        pre.is_ancestor_or_self(a, d),
    ensures
        post.spec_is_cancelled(d),
    decreases d,
{
    if a == d {
        assert(post.nodes@[d].flag);
    } else {
        assert(pre.nodes@[d].parent matches Some(p) && (p as int) < d && pre.is_ancestor_or_self(
            a,
            p as int,
        ));
        let p = pre.nodes@[d].parent->0;
        lemma_cancel_reaches_descendants(pre, post, a, p as int);
        assert(post.nodes@[d].parent == pre.nodes@[d].parent);
    }
}

/// Containment law: cancelling a token is invisible outside its subtree —
/// siblings and ancestors observe exactly what they observed before.
pub proof fn lemma_cancel_spares_unrelated(pre: CancelTree, post: CancelTree, a: int, d: int)
    requires
        pre.wf(),
        0 <= a < pre.nodes@.len(),
        post.nodes@ == pre.nodes@.update(
            a,
            CancelNode { parent: pre.nodes@[a].parent, flag: true },
        ),
        0 <= d < pre.nodes@.len(),
        !pre.is_ancestor_or_self(a, d),
    ensures
        post.spec_is_cancelled(d) == pre.spec_is_cancelled(d),
    decreases d,
{
    assert(a != d);
    assert(post.nodes@[d] == pre.nodes@[d]);
    if pre.nodes@[d].flag {
    } else {
        match pre.nodes@[d].parent {
            Some(p) => {
                if (p as int) < d {
                    lemma_cancel_spares_unrelated(pre, post, a, p as int);
                }
            },
            None => {},
        }
    }
}

} // verus!
