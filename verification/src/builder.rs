//! Building the trees of an image node by node, in the order of a walk.
//!
//! The builder is told when the walk enters a node and when it leaves one.
//! A node that is entered becomes the last child of the innermost node that
//! was entered and not left yet, or the root of a new tree where there is no
//! such node; a node that is left gets its end. When every node was left,
//! what was given is a run of trees, each laid out in walk order.

use vstd::prelude::*;
use crate::ast::{Ast, NodeRecord};
use crate::marshal::Nullable;

verus! {

/// The end that a node has while the walk is inside it.
pub const END_OPEN: usize = usize::MAX;

/// The end of node `j`.
pub open spec fn end_at(nodes: Seq<NodeRecord>, j: int) -> int {
    nodes[j].end as int
}

/// The parent of node `j`.
pub open spec fn parent_at(nodes: Seq<NodeRecord>, j: int) -> int {
    nodes[j].parent as int
}

/// Whether node `j` lies in the subtree below node `i`.
pub open spec fn inside(nodes: Seq<NodeRecord>, i: int, j: int) -> bool {
    0 <= i < j < nodes.len() && j < end_at(nodes, i)
}

/// Whether `nodes`, of which the nodes `open` are entered and not left, are
/// what a walk can have given so far: a node that the walk is inside has the
/// end `END_OPEN`, every other node ends where the next node began when the
/// walk left it, subtrees nest, and the parent of a node is the root of the
/// smallest subtree that holds it.
pub open spec fn growing(nodes: Seq<NodeRecord>, open: Seq<usize>) -> bool {
    &&& nodes.len() < usize::MAX
    &&& forall|k: int|
        0 <= k < open.len() ==> (#[trigger] open[k]) < nodes.len() && end_at(nodes, open[k] as int)
            == END_OPEN
    &&& forall|k: int, m: int| 0 <= k < m < open.len() ==> open[k] < open[m]
    &&& forall|j: int|
        0 <= j < nodes.len() ==> j < #[trigger] end_at(nodes, j) && (end_at(nodes, j)
            <= nodes.len() || (end_at(nodes, j) == END_OPEN && open.contains(j as usize)))
    &&& nodes.len() >= 1 ==> parent_at(nodes, 0) == 0
    &&& nodes.len() == 0 ==> open.len() == 0
    &&& forall|j: int|
        0 <= j < nodes.len() ==> 0 <= #[trigger] parent_at(nodes, j) <= j && (parent_at(nodes, j)
            < j ==> j < end_at(nodes, parent_at(nodes, j)))
    &&& forall|i: int, j: int| #[trigger]
        inside(nodes, i, j) ==> end_at(nodes, j) <= end_at(nodes, i) && i <= parent_at(nodes, j)
            < j
    &&& forall|j: int| 0 <= j < nodes.len() ==> (#[trigger] nodes[j]).is_plain(j as usize)
}

/// Entering a node keeps the builder well formed.
proof fn lemma_enter(before: Seq<NodeRecord>, path: Seq<usize>, record: NodeRecord)
    requires
        growing(before, path),
        before.len() + 1 < usize::MAX,
        record.end == END_OPEN,
        record.parent == (if path.len() == 0 {
            before.len() as usize
        } else {
            path.last()
        }),
        record.is_plain(before.len() as usize),
    ensures
        growing(before.push(record), path.push(before.len() as usize)),
{
    let slot = before.len() as int;
    let depth = path.len() as int;
    let after = before.push(record);
    let stack = path.push(slot as usize);
    assert forall|j: int| 0 <= j < after.len() implies j < #[trigger] end_at(after, j) && (end_at(
        after,
        j,
    ) <= after.len() || (end_at(after, j) == END_OPEN && stack.contains(j as usize))) by {
        if j < slot {
            assert(end_at(after, j) == end_at(before, j));
            if end_at(before, j) > before.len() {
                let k = choose|k: int| 0 <= k < path.len() && path[k] == j as usize;
                assert(stack[k] == j as usize);
            }
        } else {
            assert(stack[depth] == slot as usize);
        }
    }
    assert forall|i: int, j: int| #[trigger] inside(after, i, j) implies end_at(after, j)
        <= end_at(after, i) && i <= parent_at(after, j) < j by {
        assert(end_at(after, i) == end_at(before, i));
        if j < slot {
            assert(inside(before, i, j));
            assert(end_at(after, j) == end_at(before, j));
            assert(parent_at(after, j) == parent_at(before, j));
        } else {
            assert(end_at(before, i) > before.len());
            assert(path.contains(i as usize));
            let k = choose|k: int| 0 <= k < path.len() && path[k] == i as usize;
            if k < depth - 1 {
                assert(path[k] < path[depth - 1]);
            }
        }
    }
    assert forall|j: int| 0 <= j < after.len() implies 0 <= #[trigger] parent_at(after, j) <= j
        && (parent_at(after, j) < j ==> j < end_at(after, parent_at(after, j))) by {
        if j < slot {
            assert(parent_at(after, j) == parent_at(before, j));
            assert(end_at(after, parent_at(before, j)) == end_at(before, parent_at(before, j)));
        } else if depth > 0 {
            let top = path[depth - 1];
            assert(end_at(after, top as int) == end_at(before, top as int));
        }
    }
    assert forall|k: int| 0 <= k < stack.len() implies (#[trigger] stack[k]) < after.len()
        && end_at(after, stack[k] as int) == END_OPEN by {
        if k < depth {
            assert(stack[k] == path[k]);
            assert(end_at(after, path[k] as int) == end_at(before, path[k] as int));
        }
    }
    assert forall|k: int, m: int| 0 <= k < m < stack.len() implies stack[k] < stack[m] by {
        assert(stack[k] == path[k]);
        if m < depth {
            assert(stack[m] == path[m]);
        }
    }
    assert forall|j: int| 0 <= j < after.len() implies (#[trigger] after[j]).is_plain(
        j as usize,
    ) by {
        if j < slot {
            assert(after[j] == before[j]);
        }
    }
    if slot >= 1 {
        assert(parent_at(after, 0) == parent_at(before, 0));
    }
}

/// Leaving the innermost node keeps the builder well formed.
proof fn lemma_leave(before: Seq<NodeRecord>, path: Seq<usize>, closed: NodeRecord)
    requires
        growing(before, path),
        path.len() > 0,
        closed.end == before.len(),
        closed.parent == before[path.last() as int].parent,
        closed.is_plain(path.last()),
    ensures
        growing(before.update(path.last() as int, closed), path.drop_last()),
{
    let depth = path.len() as int;
    let node = path[depth - 1] as int;
    let after = before.update(node, closed);
    let stack = path.drop_last();
    assert(end_at(before, node) == END_OPEN);
    assert forall|j: int| 0 <= j < after.len() implies j < #[trigger] end_at(after, j) && (end_at(
        after,
        j,
    ) <= after.len() || (end_at(after, j) == END_OPEN && stack.contains(j as usize))) by {
        if j != node {
            assert(end_at(after, j) == end_at(before, j));
            if end_at(before, j) > before.len() {
                let k = choose|k: int| 0 <= k < path.len() && path[k] == j as usize;
                assert(k < depth - 1);
                assert(stack[k] == j as usize);
            }
        }
    }
    assert forall|i: int, j: int| #[trigger] inside(after, i, j) implies end_at(after, j)
        <= end_at(after, i) && i <= parent_at(after, j) < j by {
        assert(parent_at(after, j) == parent_at(before, j));
        if i == node {
            assert(inside(before, i, j));
            assert(end_at(after, j) == end_at(before, j));
            if end_at(before, j) > before.len() {
                let k = choose|k: int| 0 <= k < path.len() && path[k] == j as usize;
                if k < depth - 1 {
                    assert(path[k] < path[depth - 1]);
                }
            }
        } else if j == node {
            assert(end_at(after, i) == end_at(before, i));
            assert(inside(before, i, j));
        } else {
            assert(end_at(after, i) == end_at(before, i));
            assert(end_at(after, j) == end_at(before, j));
            assert(inside(before, i, j));
        }
    }
    assert forall|j: int| 0 <= j < after.len() implies 0 <= #[trigger] parent_at(after, j) <= j
        && (parent_at(after, j) < j ==> j < end_at(after, parent_at(after, j))) by {
        assert(parent_at(after, j) == parent_at(before, j));
        let p = parent_at(before, j);
        if p < j {
            assert(j < end_at(before, p));
            if p != node {
                assert(end_at(after, p) == end_at(before, p));
            }
        }
    }
    assert forall|k: int| 0 <= k < stack.len() implies (#[trigger] stack[k]) < after.len()
        && end_at(after, stack[k] as int) == END_OPEN by {
        assert(stack[k] == path[k]);
        assert(path[k] < path[depth - 1]);
        assert(end_at(after, path[k] as int) == end_at(before, path[k] as int));
    }
    assert forall|k: int, m: int| 0 <= k < m < stack.len() implies stack[k] < stack[m] by {
        assert(stack[k] == path[k] && stack[m] == path[m]);
    }
    assert forall|j: int| 0 <= j < after.len() implies (#[trigger] after[j]).is_plain(
        j as usize,
    ) by {
        if j != node {
            assert(after[j] == before[j]);
        }
    }
    assert(parent_at(after, 0) == parent_at(before, 0));
}

/// Builds the tree of an image from the events of a walk.
#[derive(Debug)]
pub struct TreeBuilder {
    nodes: Vec<NodeRecord>,
    open: Vec<usize>,
}

impl TreeBuilder {
    /// Whether the builder holds what a walk can have given so far. Every
    /// builder that `new` made and `enter` and `leave` changed does.
    pub closed spec fn wf(&self) -> bool {
        growing(self.nodes@, self.open@)
    }

    /// The nodes given so far. A node that the walk is inside has the end
    /// `END_OPEN`.
    pub closed spec fn nodes(&self) -> Seq<NodeRecord> {
        self.nodes@
    }

    /// The nodes that were entered and not left, the root first.
    pub closed spec fn path(&self) -> Seq<usize> {
        self.open@
    }

    /// Whether a node was entered and every node that was entered was left,
    /// so that what was given is a run of whole trees.
    pub open spec fn complete(&self) -> bool {
        self.nodes().len() >= 1 && self.path().len() == 0
    }

    /// Whether one more node can be entered: there is a slot left.
    pub open spec fn accepts(&self) -> bool {
        self.nodes().len() + 1 < usize::MAX
    }

    /// A builder that was given nothing yet.
    pub fn new() -> (r: TreeBuilder)
        ensures
            r.wf(),
            r.nodes().len() == 0,
            r.path().len() == 0,
    {
        TreeBuilder { nodes: Vec::new(), open: Vec::new() }
    }

    /// Returns whether what was given is a run of whole trees.
    pub fn is_complete(&self) -> (r: bool)
        ensures
            r == self.complete(),
    {
        self.nodes.len() >= 1 && self.open.len() == 0
    }

    /// Enters a node of the given kind and returns its slot. The node becomes
    /// a child of the innermost node that the walk is inside, or the root of
    /// a new tree where the walk is inside no node. Nothing happens, and
    /// nothing is returned, where no slot is left.
    pub fn enter(&mut self, kind: i32) -> (r: Option<usize>)
        requires
            old(self).wf(),
        ensures
            final(self).wf(),
            r is Some <==> old(self).accepts(),
            r is None ==> *final(self) == *old(self),
            r matches Some(slot) ==> {
                &&& slot == old(self).nodes().len()
                &&& final(self).nodes().len() == slot + 1
                &&& final(self).nodes().take(slot as int) == old(self).nodes()
                &&& final(self).nodes()[slot as int].kind == kind
                &&& final(self).nodes()[slot as int].end == END_OPEN
                &&& final(self).nodes()[slot as int].parent == (if old(self).path().len() == 0 {
                    slot
                } else {
                    old(self).path().last()
                })
                &&& final(self).nodes()[slot as int].is_plain(slot)
                &&& final(self).path() == old(self).path().push(slot)
            },
    {
        let slot: usize = self.nodes.len();
        let depth: usize = self.open.len();
        if slot >= usize::MAX - 1 {
            return None;
        }
        let parent: usize = if depth == 0 {
            slot
        } else {
            self.open[depth - 1]
        };
        let ghost before = self.nodes@;
        let ghost path = self.open@;
        let record = NodeRecord::new(slot, parent, END_OPEN, kind);
        proof {
            lemma_enter(before, path, record);
        }
        self.nodes.push(record);
        self.open.push(slot);
        assert(self.nodes@.take(slot as int) =~= before);
        Some(slot)
    }

    /// Leaves the innermost node that the walk is inside: its subtree ends
    /// with the last node that was entered. Nothing happens, and `false` is
    /// returned, where the walk is inside no node.
    pub fn leave(&mut self) -> (r: bool)
        requires
            old(self).wf(),
        ensures
            final(self).wf(),
            r == (old(self).path().len() > 0),
            !r ==> *final(self) == *old(self),
            r ==> {
                let node = old(self).path().last() as int;
                &&& final(self).path() == old(self).path().drop_last()
                &&& final(self).nodes().len() == old(self).nodes().len()
                &&& final(self).nodes()[node].end == old(self).nodes().len()
                &&& final(self).nodes()[node].parent == old(self).nodes()[node].parent
                &&& final(self).nodes()[node].kind == old(self).nodes()[node].kind
                &&& final(self).nodes()[node].is_plain(node as usize)
                &&& forall|j: int|
                    0 <= j < old(self).nodes().len() && j != node ==> final(self).nodes()[j]
                        == old(self).nodes()[j]
            },
    {
        let depth: usize = self.open.len();
        if depth == 0 {
            return false;
        }
        let node: usize = self.open[depth - 1];
        let len: usize = self.nodes.len();
        let ghost before = self.nodes@;
        let ghost path = self.open@;
        let record = &self.nodes[node];
        let closed = NodeRecord::new(node, record.parent, len, record.kind);
        proof {
            lemma_leave(before, path, closed);
        }
        self.nodes.set(node, closed);
        self.open.pop();
        assert(self.open@ =~= path.drop_last());
        true
    }

    /// Hands out the image of the trees: its nodes are the nodes that were
    /// given, it has no other record, and its trees are laid out in walk
    /// order. Nothing is handed out while the walk is inside a node, or
    /// before it entered one.
    pub fn finish(self) -> (r: Option<Ast>)
        requires
            self.wf(),
        ensures
            r is Some <==> self.complete(),
            r matches Some(ast) ==> {
                &&& ast.nodes@ == self.nodes()
                &&& ast.layout_ok()
                &&& ast.files@.len() == 0 && ast.modules@.len() == 0 && ast.locations@.len() == 0
                    && ast.diagnostics@.len() == 0 && ast.memory_usage@.len() == 0
                &&& ast.spelling.null()
            },
    {
        if !self.is_complete() {
            return None;
        }
        let mut ast = Ast::new();
        ast.nodes = self.nodes;
        proof {
            let nodes = ast.nodes@;
            assert forall|j: int| 0 <= j < ast.len() implies j < #[trigger] ast.end_of(j)
                <= ast.len() by {
                assert(j < end_at(nodes, j));
            }
            assert forall|j: int| 0 <= j < ast.len() implies 0 <= #[trigger] ast.parent_of(j)
                <= j && (ast.parent_of(j) < j ==> j < ast.end_of(ast.parent_of(j))) by {
                assert(0 <= parent_at(nodes, j) <= j);
            }
            assert(parent_at(nodes, 0) == 0);
            assert forall|i: int, j: int| #[trigger] ast.encloses(i, j) implies ast.end_of(j)
                <= ast.end_of(i) && i <= ast.parent_of(j) < j by {
                assert(inside(nodes, i, j));
            }
        }
        Some(ast)
    }
}

} // verus!
