use clang::cursor_kind::CursorKind;
use clang::kinds::{
    AccessSpecifier, Availability, CursorVisitResult, Language, MemoryUsage, Severity,
};

#[test]
fn access_specifier_codes() {
    assert_eq!(AccessSpecifier::Public.to_code(), 1);
    assert_eq!(AccessSpecifier::Protected.to_code(), 2);
    assert_eq!(AccessSpecifier::Private.to_code(), 3);
    assert_eq!(AccessSpecifier::from_code(3), Some(AccessSpecifier::Private));
    assert_eq!(AccessSpecifier::from_code(0), None);
    assert_eq!(AccessSpecifier::from_code(4), None);
}

#[test]
fn availability_codes() {
    assert_eq!(Availability::from_code(0), Some(Availability::Available));
    assert_eq!(Availability::from_code(1), Some(Availability::Deprecated));
    assert_eq!(Availability::from_code(2), Some(Availability::Unavailable));
    assert_eq!(Availability::from_code(3), Some(Availability::Inaccessible));
    assert_eq!(Availability::from_code(4), None);
    assert_eq!(Availability::from_code(-1), None);
}

#[test]
fn visit_result_codes() {
    assert_eq!(CursorVisitResult::Break.to_code(), 0);
    assert_eq!(CursorVisitResult::Continue.to_code(), 1);
    assert_eq!(CursorVisitResult::Recurse.to_code(), 2);
    assert_eq!(CursorVisitResult::from_code(2), Some(CursorVisitResult::Recurse));
    assert_eq!(CursorVisitResult::from_code(3), None);
}

#[test]
fn language_codes() {
    assert_eq!(Language::C.to_code(), 1);
    assert_eq!(Language::ObjectiveC.to_code(), 2);
    assert_eq!(Language::Cpp.to_code(), 3);
    assert_eq!(Language::from_code(0), None);
    assert_eq!(Language::from_code(3), Some(Language::Cpp));
}

#[test]
fn memory_usage_codes_round_trip() {
    for code in 1..=14 {
        let kind = MemoryUsage::from_code(code).unwrap();
        assert_eq!(kind.to_code(), code);
    }
    assert_eq!(MemoryUsage::from_code(0), None);
    assert_eq!(MemoryUsage::from_code(15), None);
    assert_eq!(MemoryUsage::from_code(6), Some(MemoryUsage::AstSideTables));
    assert_eq!(MemoryUsage::from_code(13), Some(MemoryUsage::SourceManagerDataStructures));
}

#[test]
fn severity_codes() {
    assert_eq!(Severity::from_code(0), Some(Severity::Ignored));
    assert_eq!(Severity::from_code(1), Some(Severity::Note));
    assert_eq!(Severity::from_code(2), Some(Severity::Warning));
    assert_eq!(Severity::from_code(3), Some(Severity::Error));
    assert_eq!(Severity::from_code(4), Some(Severity::Fatal));
    assert_eq!(Severity::from_code(5), None);
}

#[test]
fn cursor_kind_codes_round_trip() {
    let mut known = 0;
    for code in -10..800 {
        if let Some(kind) = CursorKind::from_code(code) {
            assert_eq!(kind.to_code(), code);
            known += 1;
        }
    }
    assert_eq!(known, 50 + 47 + 57 + 1 + 17 + 4 + 1 + 1);
}

#[test]
fn cursor_kind_named_codes() {
    assert_eq!(CursorKind::UnexposedDecl.to_code(), 1);
    assert_eq!(CursorKind::FunctionDecl.to_code(), 8);
    assert_eq!(CursorKind::SehLeaveStmt.to_code(), 247);
    assert_eq!(CursorKind::MsAsmStmt.to_code(), 229);
    assert_eq!(CursorKind::TranslationUnit.to_code(), 300);
    assert_eq!(CursorKind::from_code(600), Some(CursorKind::ModuleImportDecl));
    assert_eq!(CursorKind::from_code(700), Some(CursorKind::OverloadCandidate));
    assert_eq!(CursorKind::from_code(0), None);
    assert_eq!(CursorKind::from_code(51), None);
    assert_eq!(CursorKind::from_code(147), None);
    assert_eq!(CursorKind::from_code(257), None);
    assert_eq!(CursorKind::from_code(301), None);
    assert_eq!(CursorKind::from_code(417), None);
    assert_eq!(CursorKind::from_code(504), None);
}

#[test]
fn cursor_kind_categories() {
    assert!(CursorKind::StructDecl.is_declaration());
    assert!(CursorKind::AccessSpecifier.is_declaration());
    assert!(CursorKind::ModuleImportDecl.is_declaration());
    assert!(!CursorKind::TypeRef.is_declaration());
    assert!(CursorKind::TypeRef.is_reference());
    assert!(CursorKind::VariableRef.is_reference());
    assert!(!CursorKind::UnexposedExpr.is_reference());
    assert!(CursorKind::CallExpr.is_expression());
    assert!(CursorKind::ObjCSelfExpr.is_expression());
    assert!(!CursorKind::CallExpr.is_statement());
    assert!(CursorKind::ReturnStmt.is_statement());
    assert!(CursorKind::OmpCancelDirective.is_statement());
    assert!(CursorKind::FinalAttr.is_attribute());
    assert!(CursorKind::CudaSharedAttr.is_attribute());
    assert!(CursorKind::MacroDefinition.is_preprocessing());
    assert!(CursorKind::InclusionDirective.is_preprocessing());
    assert!(!CursorKind::TranslationUnit.is_declaration());
    assert!(!CursorKind::TranslationUnit.is_statement());
    assert!(!CursorKind::OverloadCandidate.is_declaration());
}

#[test]
fn cursor_kind_unexposed() {
    assert!(CursorKind::UnexposedDecl.is_unexposed());
    assert!(CursorKind::UnexposedExpr.is_unexposed());
    assert!(CursorKind::UnexposedStmt.is_unexposed());
    assert!(CursorKind::UnexposedAttr.is_unexposed());
    assert!(!CursorKind::StructDecl.is_unexposed());
    assert!(!CursorKind::PreprocessingDirective.is_unexposed());
}

#[test]
fn every_kind_is_in_at_most_one_category() {
    for code in 0..800 {
        if let Some(kind) = CursorKind::from_code(code) {
            let count = [
                kind.is_attribute(),
                kind.is_declaration(),
                kind.is_expression(),
                kind.is_preprocessing(),
                kind.is_reference(),
                kind.is_statement(),
            ]
            .iter()
            .filter(|b| **b)
            .count();
            let expected = if code == 300 || code == 700 { 0 } else { 1 };
            assert_eq!(count, expected);
        }
    }
}
