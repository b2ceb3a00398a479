//! The walk over the children of a node, as a machine that is driven by the
//! directives of the visitor.
//!
//! The walk stands at a node; the visitor is asked about that node and
//! answers with a directive. On `Break` the walk stops for good. On
//! `Continue` it moves past the subtree of the node, to its next sibling. On
//! `Recurse` it moves to the next slot, which holds the first child of the
//! node if it has one and its next sibling otherwise. The walk is over when
//! it was stopped or has left the subtree that it started in.
//!
//! That this machine visits what the depth-first walk by its definition on
//! the tree visits is proved where that definition stands.

use vstd::prelude::*;
use crate::ast::Ast;
use crate::kinds::CursorVisitResult;

verus! {

/// The state of a walk: the slot it stands at, the nodes that the visitor
/// was asked about so far, in order, and whether the visitor stopped it.
pub struct Walk {
    pub pos: int,
    pub visited: Seq<int>,
    pub stopped: bool,
}

impl Ast {
    /// Whether a walk that ends before slot `stop` is over in state `w`.
    pub open spec fn walk_over(&self, stop: int, w: Walk) -> bool {
        w.stopped || w.pos >= stop
    }

    /// The state after the visitor answered `d` in state `w`. A walk that is
    /// over stays as it is.
    pub open spec fn step(&self, stop: int, w: Walk, d: CursorVisitResult) -> Walk {
        if self.walk_over(stop, w) {
            w
        } else {
            match d {
                CursorVisitResult::Break => Walk {
                    pos: w.pos,
                    visited: w.visited.push(w.pos),
                    stopped: true,
                },
                CursorVisitResult::Continue => Walk {
                    pos: self.end_of(w.pos),
                    visited: w.visited.push(w.pos),
                    stopped: false,
                },
                CursorVisitResult::Recurse => Walk {
                    pos: w.pos + 1,
                    visited: w.visited.push(w.pos),
                    stopped: false,
                },
            }
        }
    }

    /// The state of the walk that starts at slot `start`, ends before slot
    /// `stop`, and has received the directives `ds` in order.
    pub open spec fn run(&self, start: int, stop: int, ds: Seq<CursorVisitResult>) -> Walk
        decreases ds.len(),
    {
        if ds.len() == 0 {
            Walk { pos: start, visited: Seq::empty(), stopped: false }
        } else {
            self.step(stop, self.run(start, stop, ds.drop_last()), ds.last())
        }
    }

    /// The children of a node, from the child at slot `i` on, where the
    /// subtree of the node ends before slot `stop`: each child stands just
    /// behind the subtree of the one before it.
    pub open spec fn children_from(&self, i: int, stop: int) -> Seq<int>
        decreases stop - i,
    {
        if i < 0 || i >= stop || i >= self.len() || self.end_of(i) <= i {
            Seq::empty()
        } else if self.end_of(i) >= stop {
            seq![i]
        } else {
            seq![i] + self.children_from(self.end_of(i), stop)
        }
    }

    /// The children of node `p`, in declaration order.
    pub open spec fn children(&self, p: int) -> Seq<int> {
        self.children_from(p + 1, self.end_of(p))
    }

    /// One more directive moves the walk by one step.
    pub proof fn lemma_run_push(
        &self,
        start: int,
        stop: int,
        ds: Seq<CursorVisitResult>,
        d: CursorVisitResult,
    )
        ensures
            self.run(start, stop, ds.push(d)) == self.step(stop, self.run(start, stop, ds), d),
    {
        assert(ds.push(d).drop_last() =~= ds);
    }

    /// The walk never asks about more nodes than it has directives, keeps
    /// what it asked about when more directives come, and once over it asks
    /// no more.
    pub proof fn lemma_run_visited(&self, start: int, stop: int, ds: Seq<CursorVisitResult>)
        ensures
            self.run(start, stop, ds).visited.len() <= ds.len(),
            self.run(start, stop, ds).visited.len() == ds.len() ==> forall|k: int|
                0 <= k < ds.len() ==> !self.walk_over(
                    stop,
                    #[trigger] self.run(start, stop, ds.take(k)),
                ),
        decreases ds.len(),
    {
        if ds.len() > 0 {
            let front = ds.drop_last();
            self.lemma_run_visited(start, stop, front);
            let w = self.run(start, stop, front);
            if self.run(start, stop, ds).visited.len() == ds.len() {
                assert(!self.walk_over(stop, w));
                assert forall|k: int| 0 <= k < ds.len() implies !self.walk_over(
                    stop,
                    #[trigger] self.run(start, stop, ds.take(k)),
                ) by {
                    if k < front.len() {
                        assert(ds.take(k) =~= front.take(k));
                    } else {
                        assert(ds.take(k) =~= front);
                    }
                }
            }
        }
    }

    /// A visitor that answers `Break` the first time is asked about exactly
    /// one node, the first child, and the walk reports that it was stopped,
    /// whatever directives would have followed.
    pub proof fn lemma_break_first(&self, p: int, ds: Seq<CursorVisitResult>)
        requires
            0 <= p < self.len(),
            p + 1 < self.end_of(p),
            ds.len() >= 1,
            ds[0] == CursorVisitResult::Break,
        ensures
            self.run(p + 1, self.end_of(p), ds).visited == seq![p + 1],
            self.run(p + 1, self.end_of(p), ds).stopped,
        decreases ds.len(),
    {
        let stop = self.end_of(p);
        if ds.len() == 1 {
            assert(ds.drop_last() =~= Seq::<CursorVisitResult>::empty());
            assert(self.run(p + 1, stop, ds.drop_last()).visited =~= Seq::<int>::empty());
            assert(Seq::<int>::empty().push(p + 1) =~= seq![p + 1]);
        } else {
            assert(ds.drop_last()[0] == ds[0]);
            self.lemma_break_first(p, ds.drop_last());
        }
    }

    /// A visitor that always answers `Recurse` is asked about every node of
    /// the subtree below `p` exactly once, each right after the one in the
    /// slot before it, so a parent before its children and siblings in order;
    /// and the walk reports that it was not stopped.
    pub proof fn lemma_recurse_visits_all(&self, p: int, ds: Seq<CursorVisitResult>)
        requires
            self.layout_ok(),
            0 <= p < self.len(),
            forall|k: int| 0 <= k < ds.len() ==> ds[k] == CursorVisitResult::Recurse,
            self.run(p + 1, self.end_of(p), ds).visited.len() == ds.len(),
            self.walk_over(self.end_of(p), self.run(p + 1, self.end_of(p), ds)),
        ensures
            !self.run(p + 1, self.end_of(p), ds).stopped,
            ds.len() == self.end_of(p) - (p + 1),
            forall|k: int|
                0 <= k < ds.len() ==> #[trigger] self.run(p + 1, self.end_of(p), ds).visited[k]
                    == p + 1 + k,
            forall|j: int| #[trigger]
                self.encloses(p, j) ==> self.run(p + 1, self.end_of(p), ds).visited[j - (p + 1)]
                    == j,
    {
        self.lemma_recurse_prefix(p + 1, self.end_of(p), ds);
    }

    /// While a visitor answers `Recurse` and the walk is not over, the walk
    /// moves from slot to slot.
    proof fn lemma_recurse_prefix(&self, start: int, stop: int, ds: Seq<CursorVisitResult>)
        requires
            start <= stop,
            forall|k: int| 0 <= k < ds.len() ==> ds[k] == CursorVisitResult::Recurse,
            self.run(start, stop, ds).visited.len() == ds.len(),
        ensures
            !self.run(start, stop, ds).stopped,
            self.run(start, stop, ds).pos == start + ds.len(),
            start + ds.len() <= stop,
            forall|k: int|
                0 <= k < ds.len() ==> #[trigger] self.run(start, stop, ds).visited[k] == start + k,
        decreases ds.len(),
    {
        if ds.len() > 0 {
            let front = ds.drop_last();
            self.lemma_run_visited(start, stop, front);
            self.lemma_recurse_prefix(start, stop, front);
        }
    }

    /// A visitor that always answers `Continue` is asked about exactly the
    /// children of `p`, in their order, and the walk reports that it was not
    /// stopped.
    pub proof fn lemma_continue_visits_children(&self, p: int, ds: Seq<CursorVisitResult>)
        requires
            self.layout_ok(),
            0 <= p < self.len(),
            forall|k: int| 0 <= k < ds.len() ==> ds[k] == CursorVisitResult::Continue,
            self.run(p + 1, self.end_of(p), ds).visited.len() == ds.len(),
            self.walk_over(self.end_of(p), self.run(p + 1, self.end_of(p), ds)),
        ensures
            !self.run(p + 1, self.end_of(p), ds).stopped,
            self.run(p + 1, self.end_of(p), ds).visited == self.children(p),
    {
        let stop = self.end_of(p);
        self.lemma_continue_prefix(p + 1, stop, ds);
        let w = self.run(p + 1, stop, ds);
        assert(self.children_from(w.pos, stop) =~= Seq::<int>::empty());
        assert(w.visited + Seq::<int>::empty() =~= w.visited);
    }

    /// While a visitor answers `Continue` and the walk is not over, the
    /// nodes it was asked about and the children still ahead make up the
    /// children from the start on.
    proof fn lemma_continue_prefix(&self, start: int, stop: int, ds: Seq<CursorVisitResult>)
        requires
            self.layout_ok(),
            0 <= start,
            stop <= self.len(),
            forall|k: int| 0 <= k < ds.len() ==> ds[k] == CursorVisitResult::Continue,
            self.run(start, stop, ds).visited.len() == ds.len(),
        ensures
            !self.run(start, stop, ds).stopped,
            start <= self.run(start, stop, ds).pos,
            self.run(start, stop, ds).visited + self.children_from(
                self.run(start, stop, ds).pos,
                stop,
            ) == self.children_from(start, stop),
        decreases ds.len(),
    {
        if ds.len() == 0 {
            assert(Seq::<int>::empty() + self.children_from(start, stop) =~= self.children_from(
                start,
                stop,
            ));
        } else {
            let front = ds.drop_last();
            self.lemma_run_visited(start, stop, front);
            self.lemma_continue_prefix(start, stop, front);
            let w = self.run(start, stop, front);
            let rest = self.children_from(self.end_of(w.pos), stop);
            assert(self.children_from(w.pos, stop) =~= seq![w.pos] + rest);
            assert(w.visited.push(w.pos) + rest =~= w.visited + (seq![w.pos] + rest));
        }
    }

    /// The children of `p` from the child at slot `i` on are children of `p`,
    /// stand in rising slots from `i` on, and none from `i` on is missing.
    proof fn lemma_children_from(&self, p: int, i: int)
        requires
            self.layout_ok(),
            0 <= p < self.len(),
            self.is_child(p, i) || i >= self.end_of(p),
        ensures
            forall|k: int|
                0 <= k < self.children_from(i, self.end_of(p)).len() ==> self.is_child(
                    p,
                    #[trigger] self.children_from(i, self.end_of(p))[k],
                ) && i <= self.children_from(i, self.end_of(p))[k],
            forall|k: int, m: int|
                0 <= k < m < self.children_from(i, self.end_of(p)).len() ==> self.children_from(
                    i,
                    self.end_of(p),
                )[k] < self.children_from(i, self.end_of(p))[m],
            forall|j: int|
                self.is_child(p, j) && i <= j ==> self.children_from(i, self.end_of(p)).contains(
                    j,
                ),
        decreases self.end_of(p) - i,
    {
        let stop = self.end_of(p);
        let all = self.children_from(i, stop);
        if i < stop {
            self.lemma_next_child(p, i);
            let next = self.end_of(i);
            let rest = self.children_from(next, stop);
            if next < stop {
                self.lemma_children_from(p, next);
                assert(all =~= seq![i] + rest);
            } else {
                assert(all =~= seq![i]);
            }
            assert forall|j: int| self.is_child(p, j) && i <= j implies all.contains(j) by {
                self.lemma_next_child(p, j);
                if j == i {
                    assert(all[0] == j);
                } else {
                    if j < next {
                        assert(self.encloses(i, j));
                    }
                    assert(rest.contains(j));
                    let k = choose|k: int| 0 <= k < rest.len() && rest[k] == j;
                    assert(all[k + 1] == j);
                }
            }
        } else {
            assert forall|j: int| self.is_child(p, j) && i <= j implies all.contains(j) by {
                self.lemma_next_child(p, j);
            }
        }
    }

    /// The children of `p` are the nodes whose parent is `p`, each once, in
    /// rising slots.
    pub proof fn lemma_children(&self, p: int)
        requires
            self.layout_ok(),
            0 <= p < self.len(),
        ensures
            forall|j: int| self.children(p).contains(j) <==> self.is_child(p, j),
            forall|k: int, m: int|
                0 <= k < m < self.children(p).len() ==> self.children(p)[k] < self.children(p)[m],
    {
        self.lemma_next_child(p, 0);
        self.lemma_children_from(p, p + 1);
        assert forall|j: int| self.is_child(p, j) implies self.children(p).contains(j) by {
            self.lemma_next_child(p, j);
        }
    }
}

} // verus!
