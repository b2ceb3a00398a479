//! The walk by its definition on the tree, and the proof that the walk
//! machine computes it.
//!
//! By definition, a walk over the children of a node asks about the first
//! child; on `Break` it stops, on `Continue` it goes on with the next
//! sibling, and on `Recurse` it first walks over the children of the child
//! and then, unless that walk was stopped, goes on with the next sibling.

use vstd::prelude::*;
use crate::ast::Ast;
use crate::kinds::CursorVisitResult;
use crate::visit::Walk;

verus! {

/// What a walk did: the nodes that the visitor was asked about, in order, and
/// whether the visitor stopped it.
pub struct Outcome {
    pub visited: Seq<int>,
    pub stopped: bool,
}

impl Ast {
    /// What the walk over the children of a node does from the child at slot
    /// `i` on, where the subtree of the node ends before slot `stop` and the
    /// visitor answers with the directives `ds` in order. The walk ends early
    /// where the directives run out.
    pub open spec fn descend(&self, i: int, stop: int, ds: Seq<CursorVisitResult>) -> Outcome
        decreases stop - i,
    {
        if i < 0 || i >= stop || ds.len() == 0 || !(i < self.end_of(i) <= stop) {
            Outcome { visited: Seq::empty(), stopped: false }
        } else {
            let rest = ds.drop_first();
            match ds[0] {
                CursorVisitResult::Break => Outcome { visited: seq![i], stopped: true },
                CursorVisitResult::Continue => {
                    let next = self.descend(self.end_of(i), stop, rest);
                    Outcome { visited: seq![i] + next.visited, stopped: next.stopped }
                },
                CursorVisitResult::Recurse => {
                    let below = self.descend(i + 1, self.end_of(i), rest);
                    if below.stopped {
                        Outcome { visited: seq![i] + below.visited, stopped: true }
                    } else {
                        let next = self.descend(
                            self.end_of(i),
                            stop,
                            rest.skip(below.visited.len() as int),
                        );
                        Outcome {
                            visited: seq![i] + below.visited + next.visited,
                            stopped: next.stopped,
                        }
                    }
                },
            }
        }
    }

    /// The state of a walk that goes on from state `w` with the directives
    /// `ds`.
    pub open spec fn run_from(&self, w: Walk, stop: int, ds: Seq<CursorVisitResult>) -> Walk
        decreases ds.len(),
    {
        if ds.len() == 0 {
            w
        } else {
            self.step(stop, self.run_from(w, stop, ds.drop_last()), ds.last())
        }
    }

    /// The state in which a walk starts at slot `start`.
    pub open spec fn begin(start: int) -> Walk {
        Walk { pos: start, visited: Seq::empty(), stopped: false }
    }

    proof fn lemma_run_is_run_from(&self, start: int, stop: int, ds: Seq<CursorVisitResult>)
        ensures
            self.run(start, stop, ds) == self.run_from(Self::begin(start), stop, ds),
        decreases ds.len(),
    {
        if ds.len() > 0 {
            self.lemma_run_is_run_from(start, stop, ds.drop_last());
        }
    }

    proof fn lemma_run_from_concat(
        &self,
        w: Walk,
        stop: int,
        a: Seq<CursorVisitResult>,
        b: Seq<CursorVisitResult>,
    )
        ensures
            self.run_from(w, stop, a + b) == self.run_from(self.run_from(w, stop, a), stop, b),
        decreases b.len(),
    {
        if b.len() == 0 {
            assert(a + b =~= a);
        } else {
            assert((a + b).drop_last() =~= a + b.drop_last());
            assert((a + b).last() == b.last());
            self.lemma_run_from_concat(w, stop, a, b.drop_last());
        }
    }

    proof fn lemma_run_from_front(&self, w: Walk, stop: int, ds: Seq<CursorVisitResult>)
        requires
            ds.len() > 0,
        ensures
            self.run_from(w, stop, ds) == self.run_from(
                self.step(stop, w, ds[0]),
                stop,
                ds.drop_first(),
            ),
    {
        let first = seq![ds[0]];
        assert(first + ds.drop_first() =~= ds);
        self.lemma_run_from_concat(w, stop, first, ds.drop_first());
        assert(first.drop_last() =~= Seq::<CursorVisitResult>::empty());
        assert(self.run_from(w, stop, first.drop_last()) == w);
        assert(first.last() == ds[0]);
        assert(self.run_from(w, stop, first) == self.step(stop, w, ds[0]));
    }

    /// A walk that is over stays as it is.
    proof fn lemma_run_from_over(&self, w: Walk, stop: int, ds: Seq<CursorVisitResult>)
        requires
            self.walk_over(stop, w),
        ensures
            self.run_from(w, stop, ds) == w,
        decreases ds.len(),
    {
        if ds.len() > 0 {
            self.lemma_run_from_over(w, stop, ds.drop_last());
        }
    }

    /// What a walk was asked about before does not change how it goes on.
    proof fn lemma_run_from_shift(
        &self,
        pos: int,
        seen: Seq<int>,
        stop: int,
        ds: Seq<CursorVisitResult>,
    )
        ensures
            self.run_from(Walk { pos, visited: seen, stopped: false }, stop, ds).pos
                == self.run_from(Self::begin(pos), stop, ds).pos,
            self.run_from(Walk { pos, visited: seen, stopped: false }, stop, ds).stopped
                == self.run_from(Self::begin(pos), stop, ds).stopped,
            self.run_from(Walk { pos, visited: seen, stopped: false }, stop, ds).visited == seen
                + self.run_from(Self::begin(pos), stop, ds).visited,
        decreases ds.len(),
    {
        let w = Walk { pos, visited: seen, stopped: false };
        if ds.len() == 0 {
            assert(seen + Seq::<int>::empty() =~= seen);
        } else {
            self.lemma_run_from_shift(pos, seen, stop, ds.drop_last());
            let a = self.run_from(w, stop, ds.drop_last());
            let b = self.run_from(Self::begin(pos), stop, ds.drop_last());
            assert(a.visited.push(a.pos) =~= seen + b.visited.push(b.pos));
        }
    }

    /// Whether no walk inside the slots from `a` up to `m` can move past
    /// slot `m`.
    pub open spec fn bounded(&self, a: int, m: int) -> bool {
        0 <= a <= m <= self.len() && forall|j: int|
            a <= j < m ==> j < #[trigger] self.end_of(j) <= m
    }

    /// A walk from `a` that ends before `m` goes as the walk from `a` that
    /// ends before a later slot `stop`, up to the point where it is over; and
    /// unless it was stopped, the longer walk goes on from slot `m`.
    proof fn lemma_narrow(&self, a: int, m: int, stop: int, ds: Seq<CursorVisitResult>)
        requires
            self.bounded(a, m),
            m <= stop,
        ensures
            ({
                let w = self.run_from(Self::begin(a), m, ds);
                let k = w.visited.len() as int;
                &&& a <= w.pos <= m
                &&& k <= ds.len()
                &&& !self.walk_over(m, w) ==> k == ds.len()
                &&& self.run_from(Self::begin(a), stop, ds.take(k)) == w
                &&& w.stopped ==> self.run_from(Self::begin(a), stop, ds) == w
                &&& !w.stopped ==> self.run_from(Self::begin(a), stop, ds) == self.run_from(
                    w,
                    stop,
                    ds.skip(k),
                )
            }),
        decreases ds.len(),
    {
        let init = Self::begin(a);
        let w = self.run_from(init, m, ds);
        let k = w.visited.len() as int;
        if ds.len() == 0 {
            assert(ds.take(0) =~= ds);
            assert(ds.skip(0) =~= ds);
        } else {
            let front = ds.drop_last();
            let d = ds.last();
            self.lemma_narrow(a, m, stop, front);
            let w0 = self.run_from(init, m, front);
            let k0 = w0.visited.len() as int;
            let long0 = self.run_from(init, stop, front);
            if self.walk_over(m, w0) {
                assert(w == w0);
                assert(ds.take(k0) =~= front.take(k0));
                if w0.stopped {
                    assert(long0 == w0);
                } else {
                    assert(ds.skip(k0).drop_last() =~= front.skip(k0));
                    assert(ds.skip(k0).last() == d);
                }
            } else {
                assert(k0 == front.len());
                assert(front.take(k0) =~= front);
                assert(long0 == w0);
                assert(ds.take(k) =~= ds);
                assert(ds.skip(k) =~= Seq::<CursorVisitResult>::empty());
                assert(self.end_of(w0.pos) <= m);
                assert(w0.pos < self.len());
            }
        }
    }

    /// The walk machine computes the walk by its definition on the tree: the
    /// machine that starts at a child of a node and ends before the end of
    /// the subtree of that node was asked about the same nodes in the same
    /// order, and it was stopped exactly when the walk by definition was.
    pub proof fn lemma_run_is_descend(&self, p: int, ds: Seq<CursorVisitResult>)
        requires
            self.layout_ok(),
            0 <= p < self.len(),
        ensures
            self.run(p + 1, self.end_of(p), ds).visited == self.descend(
                p + 1,
                self.end_of(p),
                ds,
            ).visited,
            self.run(p + 1, self.end_of(p), ds).stopped == self.descend(
                p + 1,
                self.end_of(p),
                ds,
            ).stopped,
    {
        self.lemma_run_is_run_from(p + 1, self.end_of(p), ds);
        self.lemma_next_child(p, p + 1);
        self.lemma_siblings(p, p + 1, ds);
    }

    /// The machine and the definition agree from any child `i` of `p` on,
    /// and from the end of the subtree of `p`.
    proof fn lemma_siblings(&self, p: int, i: int, ds: Seq<CursorVisitResult>)
        requires
            self.layout_ok(),
            0 <= p < self.len(),
            self.is_child(p, i) || i == self.end_of(p),
        ensures
            self.run_from(Self::begin(i), self.end_of(p), ds).visited == self.descend(
                i,
                self.end_of(p),
                ds,
            ).visited,
            self.run_from(Self::begin(i), self.end_of(p), ds).stopped == self.descend(
                i,
                self.end_of(p),
                ds,
            ).stopped,
        decreases self.end_of(p) - i,
    {
        let stop = self.end_of(p);
        let init = Self::begin(i);
        if i >= stop {
            self.lemma_run_from_over(init, stop, ds);
        } else if ds.len() == 0 {
        } else {
            self.lemma_next_child(p, i);
            let next = self.end_of(i);
            let d = ds[0];
            let rest = ds.drop_first();
            self.lemma_run_from_front(init, stop, ds);
            let first = self.step(stop, init, d);
            assert(first.visited =~= seq![i]);
            match d {
                CursorVisitResult::Break => {
                    self.lemma_run_from_over(first, stop, rest);
                },
                CursorVisitResult::Continue => {
                    self.lemma_run_from_shift(next, seq![i], stop, rest);
                    self.lemma_siblings(p, next, rest);
                },
                CursorVisitResult::Recurse => {
                    self.lemma_run_from_shift(i + 1, seq![i], stop, rest);
                    // the walk below `i`, narrowed to the subtree of `i`
                    assert(self.bounded(i + 1, next)) by {
                        assert forall|j: int| i + 1 <= j < next implies j < #[trigger] self.end_of(
                            j,
                        ) <= next by {
                            assert(self.encloses(i, j));
                        }
                    }
                    self.lemma_narrow(i + 1, next, stop, rest);
                    self.lemma_next_child(i, i + 1);
                    self.lemma_siblings(i, i + 1, rest);
                    let below = self.run_from(Self::begin(i + 1), next, rest);
                    let k = below.visited.len() as int;
                    if !below.stopped {
                        let more = rest.skip(k);
                        if below.pos >= next {
                            self.lemma_run_from_shift(next, below.visited, stop, more);
                            self.lemma_siblings(p, next, more);
                        } else {
                            assert(more =~= Seq::<CursorVisitResult>::empty());
                            assert(self.descend(next, stop, more).visited =~= Seq::<int>::empty());
                        }
                        assert(seq![i] + (below.visited + self.descend(next, stop, more).visited)
                            =~= seq![i] + below.visited + self.descend(next, stop, more).visited);
                    }
                },
            }
        }
    }
}

} // verus!
