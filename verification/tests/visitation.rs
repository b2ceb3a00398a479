use std::cell::RefCell;

use clang::ast::{Ast, FileRecord, LocationRecord, NodeRecord, RawFileId, KIND_TRANSLATION_UNIT};
use clang::engine::{Clang, EngineFlag};
use clang::index::Index;
use clang::kinds::CursorVisitResult;
use clang::marshal::{Handle, RawCursor};
use clang::unit::TranslationUnit;

/// The image of
///
/// ```text
/// 0 translation unit
///   1 struct
///     2 field
///     3 field
///   4 function
///     5 parameter
///     6 compound statement
///       7 return statement
///   8 variable
/// ```
fn sample() -> Ast {
    let mut ast = Ast::new();
    ast.files.push(FileRecord::new(RawFileId { first: 1, second: 2, third: 3 }, "/tmp/a.c"));
    ast.locations.push(LocationRecord::new(Handle { slot: 0 }, "/tmp/a.c", 1, 1, 0));
    let shape: [(usize, usize, i32); 9] = [
        (0, 9, KIND_TRANSLATION_UNIT),
        (0, 4, 2),
        (1, 3, 6),
        (1, 4, 6),
        (0, 8, 8),
        (4, 6, 10),
        (4, 8, 202),
        (6, 8, 214),
        (0, 9, 9),
    ];
    for (index, (parent, end, kind)) in shape.iter().enumerate() {
        ast.nodes.push(NodeRecord::new(index, *parent, *end, *kind));
    }
    ast
}

fn nodes_of(cursors: &[clang::cursor::Cursor]) -> Vec<usize> {
    cursors.iter().map(|c| c.get_raw().node).collect()
}

#[test]
fn visitation_sample_is_well_formed() {
    assert!(sample().is_well_formed());
}

#[test]
fn children_of_the_root_in_order() {
    let mut flag = EngineFlag::new();
    let clang = Clang::new(&mut flag).unwrap();
    let mut index = Index::new(&clang, false, false);
    let tu = TranslationUnit::from_source(&mut index, 0, sample()).unwrap();
    let root = tu.get_cursor();
    assert_eq!(nodes_of(&root.get_children()), vec![1, 4, 8]);
}

#[test]
fn continue_visits_exactly_the_children() {
    let mut flag = EngineFlag::new();
    let clang = Clang::new(&mut flag).unwrap();
    let mut index = Index::new(&clang, false, false);
    let tu = TranslationUnit::from_source(&mut index, 0, sample()).unwrap();
    let root = tu.get_cursor();
    let seen = RefCell::new(Vec::new());
    let stopped = root.visit_children(|c, p| {
        seen.borrow_mut().push((c.get_raw().node, p.get_raw().node));
        CursorVisitResult::Continue
    });
    assert!(!stopped);
    assert_eq!(seen.into_inner(), vec![(1, 0), (4, 0), (8, 0)]);
}

#[test]
fn break_at_first_visit_records_one_node() {
    let mut flag = EngineFlag::new();
    let clang = Clang::new(&mut flag).unwrap();
    let mut index = Index::new(&clang, false, false);
    let tu = TranslationUnit::from_source(&mut index, 0, sample()).unwrap();
    let root = tu.get_cursor();
    let seen = RefCell::new(Vec::new());
    let stopped = root.visit_children(|c, _| {
        seen.borrow_mut().push(c.get_raw().node);
        CursorVisitResult::Break
    });
    assert!(stopped);
    assert_eq!(seen.into_inner(), vec![1]);
}

#[test]
fn recurse_visits_every_descendant_once() {
    let mut flag = EngineFlag::new();
    let clang = Clang::new(&mut flag).unwrap();
    let mut index = Index::new(&clang, false, false);
    let tu = TranslationUnit::from_source(&mut index, 0, sample()).unwrap();
    let root = tu.get_cursor();
    let seen = RefCell::new(Vec::new());
    let stopped = root.visit_children(|c, p| {
        seen.borrow_mut().push((c.get_raw().node, p.get_raw().node));
        CursorVisitResult::Recurse
    });
    assert!(!stopped);
    assert_eq!(
        seen.into_inner(),
        vec![(1, 0), (2, 1), (3, 1), (4, 0), (5, 4), (6, 4), (7, 6), (8, 0)]
    );
}

#[test]
fn cursors_to_one_node_are_equal_whatever_the_hint() {
    let mut flag = EngineFlag::new();
    let clang = Clang::new(&mut flag).unwrap();
    let mut index = Index::new(&clang, false, false);
    let mut ast = sample();
    ast.nodes[5].semantic_parent = RawCursor { node: 4, hint: 7 };
    ast.nodes[4].hash = 99;
    let tu = TranslationUnit::from_source(&mut index, 0, ast).unwrap();
    let by_walk = tu.get_cursor().get_children()[1];
    let by_link = by_walk.get_children()[0].get_semantic_parent().unwrap();
    assert_ne!(by_walk.get_raw(), by_link.get_raw());
    assert!(by_walk == by_link);
    assert_eq!(by_walk.hash_value(), by_link.hash_value());
    assert_eq!(by_walk.hash_value(), 99);
}

/// The walk by its definition on the tree: ask about a child, descend into
/// its children on `Recurse`, go on with the next sibling unless stopped.
fn walk_by_definition(
    cursor: clang::cursor::Cursor,
    directive: &dyn Fn(usize) -> CursorVisitResult,
    seen: &mut Vec<(usize, usize)>,
) -> bool {
    for child in cursor.get_children() {
        seen.push((child.get_raw().node, cursor.get_raw().node));
        match directive(child.get_raw().node) {
            CursorVisitResult::Break => return true,
            CursorVisitResult::Continue => {}
            CursorVisitResult::Recurse => {
                if walk_by_definition(child, directive, seen) {
                    return true;
                }
            }
        }
    }
    false
}

#[test]
fn visit_agrees_with_the_definition_for_every_choice_of_directives() {
    let mut flag = EngineFlag::new();
    let clang = Clang::new(&mut flag).unwrap();
    let mut index = Index::new(&clang, false, false);
    let tu = TranslationUnit::from_source(&mut index, 0, sample()).unwrap();
    let all = [CursorVisitResult::Break, CursorVisitResult::Continue, CursorVisitResult::Recurse];
    let mut choice = [0usize; 9];
    let mut runs = 0;
    loop {
        let directive = |node: usize| all[choice[node]];
        for start in 0..9 {
            let cursor = clang::cursor::Cursor::from_raw(RawCursor { node: start, hint: 0 }, &tu);
            let seen = RefCell::new(Vec::new());
            let stopped = cursor.visit_children(|c, p| {
                seen.borrow_mut().push((c.get_raw().node, p.get_raw().node));
                directive(c.get_raw().node)
            });
            let mut expected = Vec::new();
            let expected_stop = walk_by_definition(cursor, &directive, &mut expected);
            assert_eq!(stopped, expected_stop);
            assert_eq!(seen.into_inner(), expected);
        }
        runs += 1;
        let mut node = 1;
        loop {
            if node == 9 {
                break;
            }
            if choice[node] < 2 {
                choice[node] += 1;
                break;
            }
            choice[node] = 0;
            node += 1;
        }
        if node == 9 {
            break;
        }
    }
    assert_eq!(runs, 6561);
}

#[test]
fn visitor_that_keeps_its_own_count() {
    let mut flag = EngineFlag::new();
    let clang = Clang::new(&mut flag).unwrap();
    let mut index = Index::new(&clang, false, false);
    let tu = TranslationUnit::from_source(&mut index, 0, sample()).unwrap();
    let mut nodes = Vec::new();
    let mut asked = 0;
    let stopped = tu.get_cursor().visit_children(|c, _| {
        asked += 1;
        nodes.push(c.get_raw().node);
        if asked == 5 {
            CursorVisitResult::Break
        } else {
            CursorVisitResult::Recurse
        }
    });
    assert!(stopped);
    assert_eq!(asked, 5);
    assert_eq!(nodes, vec![1, 2, 3, 4, 5]);
}
