use clang::ast::{Ast, FileRecord, LocationRecord, NodeRecord, RawFileId, RawPosition};
use clang::engine::{Clang, EngineFlag};
use clang::file::File;
use clang::index::Index;
use clang::marshal::{Handle, RawCursor, RawRange, RawString};
use clang::source::{words_of_position, SourceLocation, SourceRange};
use clang::unit::TranslationUnit;

/// Files 0 and 2 are one file under two handles (same identifier); file 1 is
/// another. Locations 0 and 1 are two raw values for one spelling position.
fn sample() -> Ast {
    let mut ast = Ast::new();
    ast.files.push(FileRecord::new(RawFileId { first: 1, second: 2, third: 3 }, "/src/a.c"));
    ast.files.push(FileRecord::new(RawFileId { first: 9, second: 9, third: 9 }, "/src/a.h"));
    ast.files.push(FileRecord::new(RawFileId { first: 1, second: 2, third: 3 }, "/src/./a.c"));
    ast.files[1].time = 1_456_000_000;
    ast.files[1].include_guarded = true;
    ast.locations.push(LocationRecord::new(Handle { slot: 0 }, "/src/a.c", 3, 7, 40));
    ast.locations.push(LocationRecord::new(Handle { slot: 0 }, "/src/a.c", 3, 7, 40));
    ast.locations.push(LocationRecord::new(Handle { slot: 0 }, "/src/a.c", 4, 1, 52));
    ast.locations.push(LocationRecord::new(Handle { slot: 1 }, "/src/a.h", 3, 7, 40));
    ast.locations.push(LocationRecord::new(Handle { slot: 2 }, "/src/./a.c", 3, 7, 40));
    ast.locations.push(LocationRecord::new(Handle::null_handle(), "", 0, 0, 0));
    let macro_use = &mut ast.locations[2];
    macro_use.expansion =
        RawPosition { file: Handle { slot: 0 }, line: 10, column: 2, offset: 200 };
    macro_use.file_location =
        RawPosition { file: Handle { slot: 1 }, line: 11, column: 3, offset: 210 };
    macro_use.presumed_file = RawString::from_text("generated.c");
    macro_use.presumed_line = 1000;
    macro_use.presumed_column = 1;
    macro_use.main_file = true;
    ast.locations[3].system_header = true;
    ast.locations[0].cursor = RawCursor { node: 1, hint: 3 };
    ast.nodes.push(NodeRecord::new(0, 0, 2, 300));
    ast.nodes.push(NodeRecord::new(1, 0, 2, 9));
    ast
}

fn with_unit<R>(ast: Ast, body: impl FnOnce(&TranslationUnit) -> R) -> R {
    let mut flag = EngineFlag::new();
    let clang = Clang::new(&mut flag).unwrap();
    let mut index = Index::new(&clang, false, false);
    let tu = TranslationUnit::from_source(&mut index, 0, ast).unwrap();
    body(&tu)
}

fn loc<'a>(tu: &'a TranslationUnit<'a>, slot: usize) -> SourceLocation<'a> {
    SourceLocation::from_raw(Handle { slot }, tu)
}

#[test]
fn source_sample_is_well_formed() {
    assert!(sample().is_well_formed());
}

#[test]
fn spelling_location() {
    with_unit(sample(), |tu| {
        let location = loc(tu, 2).get_spelling_location();
        assert_eq!(location.file.unwrap().get_path(), "/src/a.c");
        assert_eq!((location.line, location.column, location.offset), (4, 1, 52));
    });
}

#[test]
fn expansion_and_file_location() {
    with_unit(sample(), |tu| {
        let expansion = loc(tu, 2).get_expansion_location();
        assert_eq!(expansion.file.unwrap().get_path(), "/src/a.c");
        assert_eq!((expansion.line, expansion.column, expansion.offset), (10, 2, 200));
        let file = loc(tu, 2).get_file_location();
        assert_eq!(file.file.unwrap().get_path(), "/src/a.h");
        assert_eq!((file.line, file.column, file.offset), (11, 3, 210));
    });
}

#[test]
fn presumed_location() {
    with_unit(sample(), |tu| {
        assert_eq!(loc(tu, 2).get_presumed_location(), ("generated.c".to_string(), 1000, 1));
        assert_eq!(loc(tu, 0).get_presumed_location(), ("/src/a.c".to_string(), 3, 7));
    });
}

#[test]
fn location_in_no_file() {
    with_unit(sample(), |tu| {
        let location = loc(tu, 5).get_spelling_location();
        assert!(location.file.is_none());
        assert_eq!((location.line, location.column, location.offset), (0, 0, 0));
        assert_eq!(loc(tu, 5).hash_value(), (None, 0, 0, 0));
    });
}

#[test]
fn location_flags_and_cursor() {
    with_unit(sample(), |tu| {
        assert!(loc(tu, 2).is_in_main_file());
        assert!(!loc(tu, 0).is_in_main_file());
        assert!(loc(tu, 3).is_in_system_header());
        assert!(!loc(tu, 2).is_in_system_header());
        assert_eq!(loc(tu, 0).get_cursor().unwrap().get_raw(), RawCursor { node: 1, hint: 3 });
        assert!(loc(tu, 1).get_cursor().is_none());
    });
}

#[test]
fn locations_are_equal_by_what_they_denote() {
    with_unit(sample(), |tu| {
        // two raw values, one position
        assert_ne!(loc(tu, 0).get_raw(), loc(tu, 1).get_raw());
        assert!(loc(tu, 0) == loc(tu, 1));
        assert_eq!(loc(tu, 0).hash_value(), loc(tu, 1).hash_value());
        // the same file under another handle
        assert!(loc(tu, 0) == loc(tu, 4));
        assert_eq!(loc(tu, 0).hash_value(), loc(tu, 4).hash_value());
        assert_eq!(loc(tu, 0).hash_value(), (Some((1, 2, 3)), 3, 7, 40));
        // another position, another file
        assert!(loc(tu, 0) != loc(tu, 2));
        assert!(loc(tu, 0) != loc(tu, 3));
        assert!(loc(tu, 0) != loc(tu, 5));
        assert!(loc(tu, 5) == loc(tu, 5));
    });
}

#[test]
fn range_round_trips_through_its_end_points() {
    with_unit(sample(), |tu| {
        let range = SourceRange::new(loc(tu, 0), loc(tu, 2));
        assert_eq!(
            range.get_raw(),
            RawRange { begin: Handle { slot: 0 }, end: Handle { slot: 2 } }
        );
        assert_eq!(range.get_start().get_raw(), Handle { slot: 0 });
        assert_eq!(range.get_end().get_raw(), Handle { slot: 2 });
        let again = SourceRange::new(range.get_start(), range.get_end());
        assert_eq!(again.get_raw(), range.get_raw());
        assert!(again == range);
        assert_eq!(again.hash_value(), range.hash_value());
    });
}

#[test]
fn ranges_are_equal_by_their_end_points() {
    with_unit(sample(), |tu| {
        let a = SourceRange::new(loc(tu, 0), loc(tu, 2));
        let b = SourceRange::new(loc(tu, 1), loc(tu, 2));
        let c = SourceRange::new(loc(tu, 4), loc(tu, 2));
        assert!(a == b);
        assert!(a == c);
        assert_eq!(a.hash_value(), b.hash_value());
        assert_eq!(a.hash_value(), ((Some((1, 2, 3)), 3, 7, 40), (Some((1, 2, 3)), 4, 1, 52)));
        assert!(a != SourceRange::new(loc(tu, 0), loc(tu, 0)));
        assert!(a != SourceRange::new(loc(tu, 2), loc(tu, 2)));
    });
}

#[test]
fn order_and_emptiness_of_ranges() {
    with_unit(sample(), |tu| {
        assert!(SourceRange::new(loc(tu, 0), loc(tu, 2)).is_ordered());
        assert!(SourceRange::new(loc(tu, 0), loc(tu, 0)).is_ordered());
        assert!(SourceRange::new(loc(tu, 0), loc(tu, 1)).is_ordered());
        assert!(!SourceRange::new(loc(tu, 2), loc(tu, 0)).is_ordered());
        assert!(!SourceRange::new(loc(tu, 0), loc(tu, 3)).is_ordered());
        assert!(SourceRange::new(loc(tu, 0), loc(tu, 0)).is_empty());
        assert!(SourceRange::new(loc(tu, 0), loc(tu, 1)).is_empty());
        assert!(!SourceRange::new(loc(tu, 0), loc(tu, 2)).is_empty());
        assert!(!SourceRange::new(loc(tu, 0), loc(tu, 3)).is_empty());
    });
}

#[test]
fn files_are_equal_by_identifier() {
    with_unit(sample(), |tu| {
        let a = File::from_ptr(Handle { slot: 0 }, tu);
        let b = File::from_ptr(Handle { slot: 1 }, tu);
        let c = File::from_ptr(Handle { slot: 2 }, tu);
        assert!(a == c);
        assert!(a != b);
        assert_eq!(a.get_id(), (1, 2, 3));
        assert_eq!(b.get_id(), (9, 9, 9));
        assert_eq!(a.hash_value(), c.hash_value());
        assert_ne!(a.get_raw(), c.get_raw());
    });
}

#[test]
fn file_properties() {
    with_unit(sample(), |tu| {
        let header = File::from_ptr(Handle { slot: 1 }, tu);
        assert_eq!(header.get_path(), "/src/a.h");
        assert_eq!(header.get_time(), 1_456_000_000);
        assert!(header.is_include_guarded());
        assert!(header.get_module().is_none());
        let main = File::from_ptr(Handle { slot: 0 }, tu);
        assert_eq!(main.get_time(), 0);
        assert!(!main.is_include_guarded());
    });
}

#[test]
fn file_location_is_the_answer_of_the_frontend() {
    with_unit(sample(), |tu| {
        let main = File::from_ptr(Handle { slot: 0 }, tu);
        // a place of which the translation unit holds no record
        let mut answer = LocationRecord::new(Handle { slot: 0 }, "/src/a.c", 9, 2, 130);
        answer.main_file = true;
        let location = main.get_location(9, 2, &answer);
        assert!(location.get_raw().is_null());
        let spelling = location.get_spelling_location();
        assert_eq!(spelling.file.unwrap().get_path(), "/src/a.c");
        assert_eq!((spelling.line, spelling.column, spelling.offset), (9, 2, 130));
        assert_eq!(location.get_presumed_location(), ("/src/a.c".to_string(), 9, 2));
        assert!(location.is_in_main_file());
        assert!(!location.is_in_system_header());
        assert!(location.get_cursor().is_none());
        assert_eq!(location.hash_value(), (Some((1, 2, 3)), 9, 2, 130));
    });
}

#[test]
fn file_location_for_every_line_and_column() {
    with_unit(sample(), |tu| {
        let main = File::from_ptr(Handle { slot: 0 }, tu);
        for (line, column) in [(1, 1), (1, u32::MAX), (u32::MAX, 1), (4, 2), (1000, 1000)] {
            let answer = LocationRecord::new(Handle { slot: 0 }, "/src/a.c", line, column, 7);
            let location = main.get_location(line, column, &answer);
            let spelling = location.get_spelling_location();
            assert_eq!((spelling.line, spelling.column), (line, column));
        }
    });
}

#[test]
fn answered_location_equals_the_recorded_one_at_its_position() {
    with_unit(sample(), |tu| {
        let main = File::from_ptr(Handle { slot: 0 }, tu);
        let answer = LocationRecord::new(Handle { slot: 0 }, "/src/a.c", 3, 7, 40);
        let location = main.get_location(3, 7, &answer);
        assert_ne!(location.get_raw(), loc(tu, 0).get_raw());
        assert!(location == loc(tu, 0));
        assert!(location == loc(tu, 4));
        assert!(location != loc(tu, 2));
        assert_eq!(location.hash_value(), loc(tu, 0).hash_value());
        let mut set = std::collections::HashSet::new();
        assert!(set.insert(loc(tu, 0)));
        assert!(!set.insert(location));
    });
}

#[test]
fn file_location_by_offset_is_the_answer_of_the_frontend() {
    with_unit(sample(), |tu| {
        let header = File::from_ptr(Handle { slot: 1 }, tu);
        let answer = LocationRecord::new(Handle { slot: 1 }, "/src/a.h", 2, 3, 17);
        let location = header.get_offset_location(17, &answer);
        let spelling = location.get_spelling_location();
        assert_eq!(spelling.file.unwrap().get_path(), "/src/a.h");
        assert_eq!((spelling.line, spelling.column, spelling.offset), (2, 3, 17));
        // offset 0 is a place like any other
        let first = LocationRecord::new(Handle { slot: 1 }, "/src/a.h", 1, 1, 0);
        let location = header.get_offset_location(0, &first);
        assert_eq!(location.get_spelling_location().offset, 0);
    });
}

#[test]
fn ranges_over_answered_locations() {
    with_unit(sample(), |tu| {
        let main = File::from_ptr(Handle { slot: 0 }, tu);
        let early = LocationRecord::new(Handle { slot: 0 }, "/src/a.c", 1, 1, 0);
        let late = LocationRecord::new(Handle { slot: 0 }, "/src/a.c", 9, 2, 130);
        let start = main.get_location(1, 1, &early);
        let end = main.get_location(9, 2, &late);
        let range = SourceRange::new(start, end);
        assert!(range.is_ordered());
        assert!(!range.is_empty());
        assert!(range.get_start() == start);
        assert!(range.get_end() == end);
        assert!(range.get_raw().is_null());
        let again = SourceRange::new(range.get_start(), range.get_end());
        assert!(again == range);
        assert_eq!(again.hash_value(), range.hash_value());
        assert!(!SourceRange::new(end, start).is_ordered());
        // one end recorded, the other answered
        let mixed = SourceRange::new(loc(tu, 0), end);
        assert!(mixed.is_ordered());
        assert_eq!(mixed.get_raw().begin, Handle { slot: 0 });
        assert!(mixed.get_raw().end.is_null());
        assert!(SourceRange::new(start, start).is_empty());
    });
}

#[test]
fn locations_ranges_and_files_as_keys_of_a_hash_set() {
    with_unit(sample(), |tu| {
        let mut locations = std::collections::HashSet::new();
        assert!(locations.insert(loc(tu, 0)));
        assert!(!locations.insert(loc(tu, 1)));
        assert!(!locations.insert(loc(tu, 4)));
        assert!(locations.insert(loc(tu, 2)));
        assert!(locations.insert(loc(tu, 3)));
        assert!(locations.insert(loc(tu, 5)));
        assert_eq!(locations.len(), 4);
        let mut ranges = std::collections::HashSet::new();
        assert!(ranges.insert(SourceRange::new(loc(tu, 0), loc(tu, 2))));
        assert!(!ranges.insert(SourceRange::new(loc(tu, 1), loc(tu, 2))));
        assert!(ranges.insert(SourceRange::new(loc(tu, 2), loc(tu, 0))));
        assert_eq!(ranges.len(), 2);
        let mut files = std::collections::HashSet::new();
        assert!(files.insert(File::from_ptr(Handle { slot: 0 }, tu)));
        assert!(!files.insert(File::from_ptr(Handle { slot: 2 }, tu)));
        assert!(files.insert(File::from_ptr(Handle { slot: 1 }, tu)));
        let mut positions = std::collections::HashSet::new();
        assert!(positions.insert(loc(tu, 0).get_spelling_location()));
        assert!(!positions.insert(loc(tu, 4).get_spelling_location()));
        assert!(positions.insert(loc(tu, 5).get_spelling_location()));
    });
}

#[test]
fn words_of_a_position() {
    assert_eq!(words_of_position((Some((7, 8, 9)), 3, 4, 50)), vec![1, 7, 8, 9, 3, 4, 50]);
    assert_eq!(words_of_position((None, 3, 4, 50)), vec![0, 3, 4, 50]);
    assert_eq!(words_of_position((None, 0, 0, 0)), vec![0, 0, 0, 0]);
    assert_eq!(
        words_of_position((Some((u64::MAX, 0, 1)), u32::MAX, 0, 1)),
        vec![1, u64::MAX, 0, 1, 4_294_967_295, 0, 1]
    );
    // a position in no file on line 1 and a position in a file are told apart
    assert_ne!(words_of_position((None, 1, 2, 3)), words_of_position((Some((1, 2, 3)), 0, 0, 0)));
}

#[test]
fn equal_locations_are_told_by_equal_words() {
    with_unit(sample(), |tu| {
        assert_eq!(
            words_of_position(loc(tu, 0).hash_value()),
            words_of_position(loc(tu, 4).hash_value())
        );
        assert_eq!(words_of_position(loc(tu, 0).hash_value()), vec![1, 1, 2, 3, 3, 7, 40]);
        assert_ne!(
            words_of_position(loc(tu, 0).hash_value()),
            words_of_position(loc(tu, 3).hash_value())
        );
        assert_eq!(words_of_position(loc(tu, 5).hash_value()), vec![0, 0, 0, 0]);
    });
}
