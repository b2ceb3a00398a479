use clang::ast::{Ast, FileRecord, LocationRecord, ModuleRecord, NodeRecord, RawFileId, RawUsage};
use clang::engine::{Clang, EngineFlag};
use clang::error::{SaveError, SourceError};
use clang::file::File;
use clang::index::Index;
use clang::kinds::MemoryUsage;
use clang::marshal::{Handle, RawString};
use clang::module::Module;
use clang::unit::TranslationUnit;

fn sample(name: &str) -> Ast {
    let mut ast = Ast::new();
    ast.files.push(FileRecord::new(RawFileId { first: 1, second: 2, third: 3 }, "/src/a.c"));
    ast.files.push(FileRecord::new(RawFileId { first: 4, second: 5, third: 6 }, "/src/a.h"));
    ast.files.push(FileRecord::new(RawFileId { first: 7, second: 8, third: 9 }, "/src/a.h"));
    ast.files.push(FileRecord::new(RawFileId { first: 4, second: 5, third: 6 }, "/src/b.pcm"));
    ast.locations.push(LocationRecord::new(Handle { slot: 0 }, "/src/a.c", 1, 1, 0));
    ast.nodes.push(NodeRecord::new(0, 0, 2, 300));
    ast.nodes.push(NodeRecord::new(1, 0, 2, 9));
    ast.nodes[1].name = RawString::from_text(name);
    ast.modules.push(ModuleRecord::new(Handle { slot: 1 }, "std", "std"));
    ast.modules.push(ModuleRecord::new(Handle { slot: 1 }, "std.vector", "vector"));
    ast.modules.push(ModuleRecord::new(Handle { slot: 3 }, "std.vector", "vector"));
    ast.modules.push(ModuleRecord::new(Handle { slot: 0 }, "std.vector", "vector"));
    ast.modules[1].parent = Handle { slot: 0 };
    ast.modules[1].system = true;
    ast.modules[1].top_level_headers = vec![Handle { slot: 1 }, Handle { slot: 2 }];
    ast.files[1].module = Handle { slot: 1 };
    ast.memory_usage.push(RawUsage { kind: 1, amount: 4096 });
    ast.memory_usage.push(RawUsage { kind: 14, amount: 7 });
    ast.memory_usage.push(RawUsage { kind: 1, amount: 12 });
    ast.spelling = RawString::from_text("/src/a.c");
    ast
}

#[test]
fn parse_success_gives_the_unit() {
    let mut flag = EngineFlag::new();
    let clang = Clang::new(&mut flag).unwrap();
    let mut index = Index::new(&clang, false, false);
    let tu = TranslationUnit::from_source(&mut index, 0, sample("a")).unwrap();
    assert_eq!(tu.records().nodes.len(), 2);
    assert_eq!(tu.get_cursor().get_children()[0].get_name(), Some("a".to_string()));
}

#[test]
fn parse_failures_are_decoded() {
    let mut flag = EngineFlag::new();
    let clang = Clang::new(&mut flag).unwrap();
    let mut index = Index::new(&clang, false, false);
    for (code, error) in [
        (1, SourceError::Unknown),
        (2, SourceError::Crash),
        (3, SourceError::Unknown),
        (4, SourceError::AstDeserialization),
        (5, SourceError::Unknown),
        (-1, SourceError::Unknown),
    ] {
        let r = TranslationUnit::from_source(&mut index, code, Ast::new());
        assert_eq!(r.err(), Some(error));
    }
}

#[test]
fn load_from_ast_file() {
    let mut flag = EngineFlag::new();
    let clang = Clang::new(&mut flag).unwrap();
    let mut index = Index::new(&clang, false, false);
    assert_eq!(TranslationUnit::from_ast(&mut index, None).err(), Some(()));
    let tu = TranslationUnit::from_ast(&mut index, Some(sample("a"))).unwrap();
    assert_eq!(tu.records().files.len(), 4);
}

#[test]
fn reparse_replaces_the_content() {
    let mut flag = EngineFlag::new();
    let clang = Clang::new(&mut flag).unwrap();
    let mut index = Index::new(&clang, false, false);
    let tu = TranslationUnit::from_source(&mut index, 0, sample("before")).unwrap();
    let tu = tu.reparse(0, sample("after")).unwrap();
    assert_eq!(tu.get_cursor().get_children()[0].get_name(), Some("after".to_string()));
}

#[test]
fn reparse_failures_are_decoded() {
    let mut flag = EngineFlag::new();
    let clang = Clang::new(&mut flag).unwrap();
    let mut index = Index::new(&clang, false, false);
    for (code, error) in [
        (1, SourceError::Unknown),
        (2, SourceError::Crash),
        (4, SourceError::AstDeserialization),
        (9, SourceError::Unknown),
    ] {
        let tu = TranslationUnit::from_ast(&mut index, Some(sample("a"))).unwrap();
        assert_eq!(tu.reparse(code, Ast::new()).err(), Some(error));
    }
}

#[test]
fn save_is_decoded_and_changes_nothing() {
    let mut flag = EngineFlag::new();
    let clang = Clang::new(&mut flag).unwrap();
    let mut index = Index::new(&clang, false, false);
    let tu = TranslationUnit::from_source(&mut index, 0, sample("a")).unwrap();
    assert_eq!(tu.save(0), Ok(()));
    assert_eq!(tu.save(2), Err(SaveError::Errors));
    assert_eq!(tu.save(1), Err(SaveError::Unknown));
    assert_eq!(tu.save(3), Err(SaveError::Unknown));
    assert_eq!(tu.save(-4), Err(SaveError::Unknown));
    assert_eq!(tu.get_cursor().get_children().len(), 1);
}

#[test]
fn file_that_the_frontend_names() {
    let mut flag = EngineFlag::new();
    let clang = Clang::new(&mut flag).unwrap();
    let mut index = Index::new(&clang, false, false);
    let tu = TranslationUnit::from_source(&mut index, 0, sample("a")).unwrap();
    let file = tu.get_file(Handle { slot: 0 }).unwrap();
    assert_eq!(file.get_raw(), Handle { slot: 0 });
    assert_eq!(file.get_path(), "/src/a.c");
    // two files under one path are told apart by what the frontend names
    assert_eq!(tu.get_file(Handle { slot: 1 }).unwrap().get_id(), (4, 5, 6));
    assert_eq!(tu.get_file(Handle { slot: 2 }).unwrap().get_id(), (7, 8, 9));
    assert_eq!(tu.get_file(Handle { slot: 3 }).unwrap().get_path(), "/src/b.pcm");
}

#[test]
fn no_file_where_the_frontend_names_none() {
    let mut flag = EngineFlag::new();
    let clang = Clang::new(&mut flag).unwrap();
    let mut index = Index::new(&clang, false, false);
    let tu = TranslationUnit::from_source(&mut index, 0, sample("a")).unwrap();
    assert!(tu.get_file(Handle::null_handle()).is_none());
}

#[test]
fn memory_usage_in_report_order() {
    let mut flag = EngineFlag::new();
    let clang = Clang::new(&mut flag).unwrap();
    let mut index = Index::new(&clang, false, false);
    let tu = TranslationUnit::from_source(&mut index, 0, sample("a")).unwrap();
    assert_eq!(
        tu.get_memory_usage(),
        vec![
            (MemoryUsage::Ast, 4096),
            (MemoryUsage::PreprocessorHeaderSearch, 7),
            (MemoryUsage::Ast, 12),
        ]
    );
}

#[test]
fn module_properties() {
    let mut flag = EngineFlag::new();
    let clang = Clang::new(&mut flag).unwrap();
    let mut index = Index::new(&clang, false, false);
    let tu = TranslationUnit::from_source(&mut index, 0, sample("a")).unwrap();
    let module = Module::from_ptr(Handle { slot: 1 }, &tu);
    assert_eq!(module.get_raw(), Handle { slot: 1 });
    assert_eq!(module.get_name(), "vector");
    assert_eq!(module.get_full_name(), "std.vector");
    assert_eq!(module.get_file().get_raw(), Handle { slot: 1 });
    assert!(module.is_system());
    let parent = module.get_parent().unwrap();
    assert_eq!(parent.get_full_name(), "std");
    assert!(parent.get_parent().is_none());
    assert!(!parent.is_system());
    let headers = module.get_top_level_headers();
    assert_eq!(headers.len(), 2);
    assert_eq!(headers[0].get_raw(), Handle { slot: 1 });
    assert_eq!(headers[1].get_raw(), Handle { slot: 2 });
    assert!(parent.get_top_level_headers().is_empty());
}

#[test]
fn modules_are_equal_by_file_and_full_name() {
    let mut flag = EngineFlag::new();
    let clang = Clang::new(&mut flag).unwrap();
    let mut index = Index::new(&clang, false, false);
    let tu = TranslationUnit::from_source(&mut index, 0, sample("a")).unwrap();
    let module = |slot| Module::from_ptr(Handle { slot }, &tu);
    // files 1 and 3 have one identifier
    assert!(module(1) == module(2));
    assert!(module(1) != module(3));
    assert!(module(0) != module(1));
    assert!(module(0) == module(0));
}

#[test]
fn module_of_a_file() {
    let mut flag = EngineFlag::new();
    let clang = Clang::new(&mut flag).unwrap();
    let mut index = Index::new(&clang, false, false);
    let tu = TranslationUnit::from_source(&mut index, 0, sample("a")).unwrap();
    let header = File::from_ptr(Handle { slot: 1 }, &tu);
    assert_eq!(header.get_module().unwrap().get_raw(), Handle { slot: 1 });
    assert!(File::from_ptr(Handle { slot: 0 }, &tu).get_module().is_none());
}

#[test]
fn several_units_in_one_index_one_after_another() {
    let mut flag = EngineFlag::new();
    let clang = Clang::new(&mut flag).unwrap();
    let mut index = Index::new(&clang, true, true);
    {
        let tu = TranslationUnit::from_source(&mut index, 0, sample("first")).unwrap();
        assert_eq!(tu.get_cursor().get_children()[0].get_name(), Some("first".to_string()));
    }
    let tu = TranslationUnit::from_source(&mut index, 0, sample("second")).unwrap();
    assert_eq!(tu.get_cursor().get_children()[0].get_name(), Some("second".to_string()));
}
