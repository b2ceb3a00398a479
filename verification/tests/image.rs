use clang::ast::{
    Ast, DiagnosticRecord, FileRecord, LocationRecord, ModuleRecord, NodeRecord, RawFileId,
    RawFixIt, RawUsage, KIND_TRANSLATION_UNIT,
};
use clang::marshal::{Handle, RawCursor, RawRange, RawString};

fn base() -> Ast {
    let mut ast = Ast::new();
    ast.files.push(FileRecord::new(RawFileId { first: 1, second: 2, third: 3 }, "/tmp/a.c"));
    ast.locations.push(LocationRecord::new(Handle { slot: 0 }, "/tmp/a.c", 1, 1, 0));
    ast.locations.push(LocationRecord::new(Handle { slot: 0 }, "/tmp/a.c", 1, 5, 4));
    ast
}

fn tree(shape: &[(usize, usize, i32)]) -> Ast {
    let mut ast = base();
    for (index, (parent, end, kind)) in shape.iter().enumerate() {
        ast.nodes.push(NodeRecord::new(index, *parent, *end, *kind));
    }
    ast
}

fn diagnostic() -> DiagnosticRecord {
    DiagnosticRecord {
        severity: 3,
        text: RawString::from_text("use of undeclared identifier 'x'"),
        location: Handle { slot: 0 },
        ranges: vec![],
        fix_its: vec![],
        formats: (0..64).map(|_| RawString::from_text("error")).collect(),
    }
}

#[test]
fn empty_image_is_refused() {
    assert!(!Ast::new().is_well_formed());
    assert!(!Ast::new().check_layout());
    assert!(!base().is_well_formed());
}

#[test]
fn lone_root_is_accepted() {
    let ast = tree(&[(0, 1, KIND_TRANSLATION_UNIT)]);
    assert!(ast.check_layout());
    assert!(ast.check_records());
    assert!(ast.is_well_formed());
}

#[test]
fn root_must_be_a_translation_unit() {
    let ast = tree(&[(0, 1, 8)]);
    assert!(ast.check_layout());
    assert!(!ast.is_well_formed());
}

#[test]
fn a_node_lies_in_the_subtree_of_its_parent() {
    assert!(!tree(&[(0, 1, 300), (0, 2, 8)]).check_layout());
    assert!(!tree(&[(0, 3, 300), (0, 2, 8)]).check_layout());
    assert!(tree(&[(0, 2, 300), (0, 2, 8)]).check_layout());
}

#[test]
fn trees_behind_the_first() {
    // a second tree of one node, and a third of two
    let ast = tree(&[(0, 2, 300), (0, 2, 8), (2, 3, 9), (3, 5, 2), (3, 5, 6)]);
    assert!(ast.check_layout());
    assert!(ast.is_well_formed());
    // the root of a later tree is its own parent
    assert!(!tree(&[(0, 2, 300), (0, 2, 8), (0, 3, 9)]).check_layout());
    assert!(!tree(&[(0, 2, 300), (0, 2, 8), (1, 3, 9)]).check_layout());
    // the first node is a root as well
    assert!(!tree(&[(1, 1, 300), (1, 2, 8)]).check_layout());
}

#[test]
fn subtree_must_start_at_its_root_and_end_inside() {
    assert!(!tree(&[(0, 3, 300), (0, 1, 8), (0, 3, 8)]).check_layout());
    assert!(!tree(&[(0, 3, 300), (0, 4, 8), (1, 3, 8)]).check_layout());
    assert!(tree(&[(0, 3, 300), (0, 3, 8), (1, 3, 8)]).check_layout());
}

#[test]
fn parent_must_be_the_smallest_subtree_that_holds_the_node() {
    // node 2 lies in the subtree of node 1 but names the root as parent
    assert!(!tree(&[(0, 3, 300), (0, 3, 8), (0, 3, 10)]).check_layout());
    // node 2 lies behind the subtree of node 1 but names node 1 as parent
    assert!(!tree(&[(0, 3, 300), (0, 2, 8), (1, 3, 10)]).check_layout());
    // a node cannot be its own parent or name a later node
    assert!(!tree(&[(0, 2, 300), (1, 2, 8)]).check_layout());
    assert!(!tree(&[(0, 3, 300), (2, 2, 8), (0, 3, 8)]).check_layout());
}

#[test]
fn subtrees_must_nest() {
    // node 1 spans [1, 3), node 2 spans [2, 4): they overlap
    assert!(!tree(&[(0, 4, 300), (0, 3, 8), (1, 4, 10), (0, 4, 9)]).check_layout());
    assert!(tree(&[(0, 4, 300), (0, 3, 8), (1, 3, 10), (0, 4, 9)]).check_layout());
}

#[test]
fn unknown_numbers_are_refused() {
    let good = tree(&[(0, 2, 300), (0, 2, 8)]);
    assert!(good.is_well_formed());
    let mut ast = tree(&[(0, 2, 300), (0, 2, 8)]);
    ast.nodes[1].kind = 51;
    assert!(!ast.is_well_formed());
    let mut ast = tree(&[(0, 2, 300), (0, 2, 8)]);
    ast.nodes[1].access = 4;
    assert!(!ast.is_well_formed());
    let mut ast = tree(&[(0, 2, 300), (0, 2, 8)]);
    ast.nodes[1].availability = 4;
    assert!(!ast.is_well_formed());
    let mut ast = tree(&[(0, 2, 300), (0, 2, 8)]);
    ast.nodes[1].language = 4;
    assert!(!ast.is_well_formed());
    let mut ast = tree(&[(0, 2, 300), (0, 2, 8)]);
    ast.nodes[1].access = 3;
    ast.nodes[1].availability = 3;
    ast.nodes[1].language = 3;
    assert!(ast.is_well_formed());
}

#[test]
fn dangling_handles_are_refused() {
    let mut ast = tree(&[(0, 2, 300), (0, 2, 8)]);
    ast.nodes[1].definition = RawCursor { node: 2, hint: 0 };
    assert!(!ast.is_well_formed());
    let mut ast = tree(&[(0, 2, 300), (0, 2, 8)]);
    ast.nodes[1].canonical = RawCursor::null_cursor();
    assert!(!ast.is_well_formed());
    let mut ast = tree(&[(0, 2, 300), (0, 2, 8)]);
    ast.nodes[1].location = Handle { slot: 2 };
    assert!(!ast.is_well_formed());
    let mut ast = tree(&[(0, 2, 300), (0, 2, 8)]);
    ast.nodes[1].extent = RawRange::null_range();
    assert!(!ast.is_well_formed());
    let mut ast = tree(&[(0, 2, 300), (0, 2, 8)]);
    ast.nodes[1].module = Handle { slot: 0 };
    assert!(!ast.is_well_formed());
    let mut ast = tree(&[(0, 2, 300), (0, 2, 8)]);
    ast.locations[0].spelling.file = Handle { slot: 1 };
    assert!(!ast.is_well_formed());
    let mut ast = tree(&[(0, 2, 300), (0, 2, 8)]);
    ast.files[0].module = Handle { slot: 0 };
    assert!(!ast.is_well_formed());
}

#[test]
fn argument_count_must_match() {
    let mut ast = tree(&[(0, 3, 300), (0, 3, 8), (1, 3, 10)]);
    ast.nodes[1].num_arguments = 1;
    assert!(!ast.is_well_formed());
    ast.nodes[1].arguments.push(RawCursor { node: 2, hint: 0 });
    assert!(ast.is_well_formed());
    ast.nodes[1].num_arguments = -1;
    assert!(ast.is_well_formed());
    ast.nodes[1].arguments.push(RawCursor { node: 3, hint: 0 });
    assert!(!ast.is_well_formed());
}

#[test]
fn strings_must_be_text() {
    let mut ast = tree(&[(0, 2, 300), (0, 2, 8)]);
    ast.nodes[1].name = RawString { data: Some(vec![0xff]) };
    assert!(!ast.is_well_formed());
    ast.nodes[1].name = RawString::from_text("f");
    assert!(ast.is_well_formed());
    ast.files[0].path = RawString::null_string();
    assert!(!ast.is_well_formed());
    ast.files[0].path = RawString::from_text("/tmp/a.c");
    ast.spelling = RawString { data: Some(vec![0xc3]) };
    assert!(!ast.is_well_formed());
}

#[test]
fn ranges_must_be_ordered() {
    let mut ast = tree(&[(0, 2, 300), (0, 2, 8)]);
    ast.nodes[1].extent = RawRange { begin: Handle { slot: 0 }, end: Handle { slot: 1 } };
    assert!(ast.is_well_formed());
    assert!(ast.check_ranges_ordered());
    ast.nodes[1].extent = RawRange { begin: Handle { slot: 1 }, end: Handle { slot: 0 } };
    assert!(ast.check_records());
    assert!(!ast.check_ranges_ordered());
    assert!(!ast.is_well_formed());
    ast.nodes[1].extent = RawRange { begin: Handle { slot: 1 }, end: Handle { slot: 1 } };
    assert!(ast.is_well_formed());
    ast.nodes[1].comment_range = RawRange { begin: Handle { slot: 1 }, end: Handle { slot: 0 } };
    assert!(!ast.is_well_formed());
    ast.nodes[1].comment_range = RawRange::null_range();
    ast.nodes[1].name_ranges = vec![
        RawRange::null_range(),
        RawRange { begin: Handle { slot: 1 }, end: Handle { slot: 0 } },
    ];
    assert!(!ast.is_well_formed());
}

#[test]
fn ranges_across_files_are_not_ordered() {
    let mut ast = tree(&[(0, 2, 300), (0, 2, 8)]);
    ast.files.push(FileRecord::new(RawFileId { first: 4, second: 5, third: 6 }, "/tmp/b.h"));
    ast.locations.push(LocationRecord::new(Handle { slot: 1 }, "/tmp/b.h", 9, 1, 100));
    ast.nodes[1].extent = RawRange { begin: Handle { slot: 0 }, end: Handle { slot: 2 } };
    assert!(!ast.is_well_formed());
}

#[test]
fn diagnostics_are_checked() {
    let mut ast = tree(&[(0, 1, 300)]);
    ast.diagnostics.push(diagnostic());
    assert!(ast.is_well_formed());
    ast.diagnostics[0].severity = 5;
    assert!(!ast.is_well_formed());
    ast.diagnostics[0].severity = 4;
    ast.diagnostics[0].formats.pop();
    assert!(!ast.is_well_formed());
    ast.diagnostics[0].formats.push(RawString::null_string());
    assert!(!ast.is_well_formed());
    ast.diagnostics[0].formats[63] = RawString::from_text("");
    assert!(ast.is_well_formed());
    ast.diagnostics[0].fix_its.push(RawFixIt {
        range: RawRange { begin: Handle { slot: 1 }, end: Handle { slot: 0 } },
        text: RawString::from_text(";"),
    });
    assert!(!ast.is_well_formed());
    ast.diagnostics[0].fix_its[0].range =
        RawRange { begin: Handle { slot: 0 }, end: Handle { slot: 1 } };
    assert!(ast.is_well_formed());
    ast.diagnostics[0].fix_its[0].text = RawString::null_string();
    assert!(!ast.is_well_formed());
}

#[test]
fn modules_and_usage_are_checked() {
    let mut ast = tree(&[(0, 1, 300)]);
    ast.modules.push(ModuleRecord::new(Handle { slot: 0 }, "std.vector", "vector"));
    assert!(ast.is_well_formed());
    ast.modules[0].parent = Handle { slot: 1 };
    assert!(!ast.is_well_formed());
    ast.modules[0].parent = Handle { slot: 0 };
    ast.modules[0].top_level_headers.push(Handle { slot: 1 });
    assert!(!ast.is_well_formed());
    ast.modules[0].top_level_headers[0] = Handle { slot: 0 };
    assert!(ast.is_well_formed());
    ast.modules[0].ast_file = Handle::null_handle();
    assert!(!ast.is_well_formed());
    ast.modules[0].ast_file = Handle { slot: 0 };
    ast.memory_usage.push(RawUsage { kind: 14, amount: 10 });
    assert!(ast.is_well_formed());
    ast.memory_usage.push(RawUsage { kind: 15, amount: 10 });
    assert!(!ast.is_well_formed());
}

/// The definition of a tree in walk order, pair by pair.
fn laid_out(shape: &[(usize, usize)]) -> bool {
    let n = shape.len();
    if n == 0 || shape[0].0 != 0 {
        return false;
    }
    for j in 0..n {
        let (parent, end) = shape[j];
        if !(j < end && end <= n) {
            return false;
        }
        if parent > j || (parent < j && !(j < shape[parent].1)) {
            return false;
        }
    }
    for i in 0..n {
        for j in i + 1..n {
            if j < shape[i].1
                && !(shape[j].1 <= shape[i].1 && i <= shape[j].0 && shape[j].0 < j)
            {
                return false;
            }
        }
    }
    true
}

fn next_shape(shape: &mut [(usize, usize)]) -> bool {
    let n = shape.len();
    for slot in shape.iter_mut() {
        if slot.1 < n + 1 {
            slot.1 += 1;
            return true;
        }
        slot.1 = 0;
        if slot.0 < n {
            slot.0 += 1;
            return true;
        }
        slot.0 = 0;
    }
    false
}

#[test]
fn layout_check_agrees_with_the_definition_on_every_small_shape() {
    let mut accepted = 0;
    for n in 1..=4usize {
        let mut shape = vec![(0usize, 0usize); n];
        loop {
            let mut ast = Ast::new();
            for (index, (parent, end)) in shape.iter().enumerate() {
                ast.nodes.push(NodeRecord::new(index, *parent, *end, 8));
            }
            let expected = laid_out(&shape);
            assert_eq!(ast.check_layout(), expected, "{:?}", shape);
            if expected {
                accepted += 1;
            }
            if !next_shape(&mut shape) {
                break;
            }
        }
    }
    // the runs of ordered trees with 1, 2, 3 and 4 nodes: 1 + 2 + 5 + 14
    assert_eq!(accepted, 22);
}
