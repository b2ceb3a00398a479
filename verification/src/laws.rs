//! What holds of cursors across several calls: identity, and what a walk
//! visits under the three directives.

use vstd::prelude::*;
use vstd::std_specs::cmp::PartialEqSpec;
use crate::cursor::Cursor;
use crate::kinds::CursorVisitResult;

verus! {

/// Two cursors of one translation unit are equal exactly when they reference
/// the same node, whatever their raw values are, and equal cursors have the
/// same hash value.
pub proof fn lemma_cursor_identity<'tu>(a: Cursor<'tu>, b: Cursor<'tu>)
    requires
        a.unit() == b.unit(),
    ensures
        a.eq_spec(&b) <==> a.node() == b.node(),
        a.eq_spec(&b) ==> a.hash_key() == b.hash_key(),
{
}

/// What `get_children` returns is what a visitor that always answers
/// `Continue` is asked about in a whole walk, node for node in the same
/// order, and such a walk is not stopped.
pub proof fn lemma_children_by_visit<'tu>(
    cursor: Cursor<'tu>,
    children: Seq<Cursor<'tu>>,
    ds: Seq<CursorVisitResult>,
)
    requires
        cursor.unit().ast().wf(),
        cursor.raw().valid(cursor.unit().ast().nodes@.len()),
        children.len() == cursor.unit().ast().children(cursor.node()).len(),
        forall|k: int|
            0 <= k < children.len() ==> #[trigger] children[k] == cursor.at(
                cursor.unit().ast().children(cursor.node())[k],
            ),
        forall|k: int| 0 <= k < ds.len() ==> ds[k] == CursorVisitResult::Continue,
        cursor.walk(ds).visited.len() == ds.len(),
        cursor.unit().ast().walk_over(cursor.record().end as int, cursor.walk(ds)),
    ensures
        !cursor.walk(ds).stopped,
        cursor.walk(ds).visited.len() == children.len(),
        forall|k: int|
            0 <= k < children.len() ==> #[trigger] children[k] == cursor.at(
                cursor.walk(ds).visited[k],
            ),
{
    cursor.unit().ast().lemma_continue_visits_children(cursor.node(), ds);
}

/// A visitor that answers `Break` the first time it is asked, about a cursor
/// that has a child, is asked about that first child alone, and the walk
/// reports that it was stopped.
pub proof fn lemma_break_at_first_visit<'tu>(cursor: Cursor<'tu>, ds: Seq<CursorVisitResult>)
    requires
        cursor.unit().ast().wf(),
        cursor.raw().valid(cursor.unit().ast().nodes@.len()),
        cursor.node() + 1 < cursor.record().end,
        ds.len() >= 1,
        ds[0] == CursorVisitResult::Break,
    ensures
        cursor.walk(ds).stopped,
        cursor.walk(ds).visited == seq![cursor.node() + 1],
        cursor.walk(ds).visited.len() == ds.len() ==> ds.len() == 1,
{
    cursor.unit().ast().lemma_break_first(cursor.node(), ds);
}

/// A visitor that always answers `Recurse` is asked about every descendant of
/// the cursor exactly once, a node before its children and siblings in
/// declaration order, and the walk reports that it was not stopped.
pub proof fn lemma_recurse_visits_descendants<'tu>(
    cursor: Cursor<'tu>,
    ds: Seq<CursorVisitResult>,
)
    requires
        cursor.unit().ast().wf(),
        cursor.raw().valid(cursor.unit().ast().nodes@.len()),
        forall|k: int| 0 <= k < ds.len() ==> ds[k] == CursorVisitResult::Recurse,
        cursor.walk(ds).visited.len() == ds.len(),
        cursor.unit().ast().walk_over(cursor.record().end as int, cursor.walk(ds)),
    ensures
        !cursor.walk(ds).stopped,
        cursor.walk(ds).visited.len() == cursor.record().end - (cursor.node() + 1),
        forall|k: int|
            0 <= k < ds.len() ==> #[trigger] cursor.walk(ds).visited[k] == cursor.node() + 1 + k,
        forall|j: int| #[trigger]
            cursor.unit().ast().encloses(cursor.node(), j) ==> cursor.walk(ds).visited[j - (
            cursor.node() + 1)] == j,
{
    cursor.unit().ast().lemma_recurse_visits_all(cursor.node(), ds);
}

/// The walk over the children of a cursor is the walk by its definition on
/// the tree: whatever the visitor answers, it is asked about the nodes that
/// the definition gives, in that order, and the walk is stopped exactly when
/// the definition says so.
pub proof fn lemma_walk_is_descent<'tu>(cursor: Cursor<'tu>, ds: Seq<CursorVisitResult>)
    requires
        cursor.unit().ast().wf(),
        cursor.raw().valid(cursor.unit().ast().nodes@.len()),
    ensures
        cursor.walk(ds).visited == cursor.unit().ast().descend(
            cursor.node() + 1,
            cursor.record().end as int,
            ds,
        ).visited,
        cursor.walk(ds).stopped == cursor.unit().ast().descend(
            cursor.node() + 1,
            cursor.record().end as int,
            ds,
        ).stopped,
{
    cursor.unit().ast().lemma_run_is_descend(cursor.node(), ds);
}

} // verus!
