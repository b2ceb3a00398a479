use clang::ast::Ast;
use clang::builder::{TreeBuilder, END_OPEN};

fn shape(ast: &Ast) -> Vec<(usize, usize, i32)> {
    ast.nodes.iter().map(|n| (n.parent, n.end, n.kind)).collect()
}

#[test]
fn nothing_is_handed_out_before_the_root_was_left() {
    assert!(TreeBuilder::new().finish().is_none());
    let mut builder = TreeBuilder::new();
    assert!(!builder.is_complete());
    assert_eq!(builder.enter(300), Some(0));
    assert!(!builder.is_complete());
    assert!(builder.finish().is_none());
}

#[test]
fn lone_root() {
    let mut builder = TreeBuilder::new();
    assert_eq!(builder.enter(300), Some(0));
    assert!(builder.leave());
    assert!(builder.is_complete());
    let ast = builder.finish().unwrap();
    assert_eq!(shape(&ast), vec![(0, 1, 300)]);
    assert!(ast.check_layout());
}

#[test]
fn leave_without_a_node_does_nothing() {
    let mut builder = TreeBuilder::new();
    assert!(!builder.leave());
    assert_eq!(builder.enter(300), Some(0));
    assert!(builder.leave());
    assert!(!builder.leave());
    assert_eq!(shape(&builder.finish().unwrap()), vec![(0, 1, 300)]);
}

#[test]
fn a_node_behind_a_whole_tree_is_the_root_of_a_new_tree() {
    let mut builder = TreeBuilder::new();
    assert_eq!(builder.enter(300), Some(0));
    assert_eq!(builder.enter(8), Some(1));
    assert!(builder.leave());
    assert!(builder.leave());
    assert!(builder.is_complete());
    assert_eq!(builder.enter(2), Some(2));
    assert!(!builder.is_complete());
    assert_eq!(builder.enter(6), Some(3));
    assert!(builder.leave());
    assert!(builder.leave());
    assert_eq!(builder.enter(9), Some(4));
    assert!(builder.leave());
    let ast = builder.finish().unwrap();
    assert_eq!(
        shape(&ast),
        vec![(0, 2, 300), (0, 2, 8), (2, 4, 2), (2, 4, 6), (4, 5, 9)]
    );
    assert!(ast.check_layout());
}

#[test]
fn tree_in_walk_order() {
    // 0 ( 1 ( 2 3 ) 4 ( 5 6 ( 7 ) ) 8 )
    let mut builder = TreeBuilder::new();
    assert_eq!(builder.enter(300), Some(0));
    assert_eq!(builder.enter(2), Some(1));
    assert_eq!(builder.enter(6), Some(2));
    assert!(builder.leave());
    assert_eq!(builder.enter(6), Some(3));
    assert!(builder.leave());
    assert!(builder.leave());
    assert_eq!(builder.enter(8), Some(4));
    assert_eq!(builder.enter(10), Some(5));
    assert!(builder.leave());
    assert_eq!(builder.enter(202), Some(6));
    assert_eq!(builder.enter(214), Some(7));
    assert!(builder.leave());
    assert!(builder.leave());
    assert!(builder.leave());
    assert_eq!(builder.enter(9), Some(8));
    assert!(builder.leave());
    assert!(builder.leave());
    let ast = builder.finish().unwrap();
    assert_eq!(
        shape(&ast),
        vec![
            (0, 9, 300),
            (0, 4, 2),
            (1, 3, 6),
            (1, 4, 6),
            (0, 8, 8),
            (4, 6, 10),
            (4, 8, 202),
            (6, 8, 214),
            (0, 9, 9),
        ]
    );
    assert!(ast.check_layout());
    assert!(ast.files.is_empty() && ast.locations.is_empty() && ast.diagnostics.is_empty());
}

#[test]
fn deep_chain() {
    let mut builder = TreeBuilder::new();
    assert_eq!(builder.enter(300), Some(0));
    for slot in 1..50 {
        assert_eq!(builder.enter(8), Some(slot));
    }
    for _ in 0..50 {
        assert!(builder.leave());
    }
    let ast = builder.finish().unwrap();
    assert_eq!(ast.nodes.len(), 50);
    for (slot, node) in ast.nodes.iter().enumerate() {
        assert_eq!(node.parent, slot.saturating_sub(1));
        assert_eq!(node.end, 50);
        assert_ne!(node.end, END_OPEN);
    }
    assert!(ast.check_layout());
}

#[test]
fn nodes_are_plain() {
    let mut builder = TreeBuilder::new();
    builder.enter(300);
    builder.enter(8);
    builder.leave();
    builder.leave();
    let ast = builder.finish().unwrap();
    let node = &ast.nodes[1];
    assert_eq!(node.canonical.node, 1);
    assert_eq!(node.num_arguments, -1);
    assert!(node.name.is_null());
    assert!(node.definition.is_null());
    assert!(node.arguments.is_empty());
}
