use clang::error::{
    AlignofError, OffsetofError, SaveError, SizeofError, SourceError, PARSE_AST_READ_ERROR,
    PARSE_CRASHED, PARSE_FAILURE, PARSE_INVALID_ARGUMENTS, PARSE_SUCCESS, SAVE_INVALID_TU,
    SAVE_NONE, SAVE_TRANSLATION_ERRORS, SAVE_UNKNOWN,
};

#[test]
fn alignof_sentinels() {
    assert_eq!(AlignofError::from_error(-3), Err(AlignofError::Dependent));
    assert_eq!(AlignofError::from_error(-2), Err(AlignofError::Incomplete));
}

#[test]
fn alignof_other_values_are_magnitudes() {
    for code in [-5i64, -4, -1, 0, 1, 8, i64::MAX, i64::MIN] {
        assert_eq!(AlignofError::from_error(code), Ok(()));
    }
}

#[test]
fn offsetof_sentinels() {
    assert_eq!(OffsetofError::from_error(-3), Err(OffsetofError::Dependent));
    assert_eq!(OffsetofError::from_error(-2), Err(OffsetofError::Incomplete));
    assert_eq!(OffsetofError::from_error(-5), Err(OffsetofError::Name));
    assert_eq!(OffsetofError::from_error(-1), Err(OffsetofError::Parent));
}

#[test]
fn offsetof_other_values_are_magnitudes() {
    for code in [-6i64, -4, 0, 1, 64, i64::MAX] {
        assert_eq!(OffsetofError::from_error(code), Ok(()));
    }
}

#[test]
fn sizeof_sentinels() {
    assert_eq!(SizeofError::from_error(-3), Err(SizeofError::Dependent));
    assert_eq!(SizeofError::from_error(-2), Err(SizeofError::Incomplete));
    assert_eq!(SizeofError::from_error(-4), Err(SizeofError::VariableSize));
}

#[test]
fn sizeof_other_values_are_magnitudes() {
    for code in [-5i64, -1, 0, 4, 4096] {
        assert_eq!(SizeofError::from_error(code), Ok(()));
    }
}

#[test]
fn one_code_means_different_things_per_family() {
    assert_eq!(SizeofError::from_error(-4), Err(SizeofError::VariableSize));
    assert_eq!(AlignofError::from_error(-4), Ok(()));
    assert_eq!(OffsetofError::from_error(-4), Ok(()));
    assert_eq!(OffsetofError::from_error(-1), Err(OffsetofError::Parent));
    assert_eq!(SizeofError::from_error(-1), Ok(()));
}

#[test]
fn save_statuses() {
    assert_eq!(SaveError::from_error(SAVE_NONE), Ok(()));
    assert_eq!(SaveError::from_error(SAVE_TRANSLATION_ERRORS), Err(SaveError::Errors));
    assert_eq!(SaveError::from_error(SAVE_UNKNOWN), Err(SaveError::Unknown));
}

#[test]
fn save_statuses_outside_the_table_are_unknown() {
    assert_eq!(SaveError::from_error(SAVE_INVALID_TU), Err(SaveError::Unknown));
    assert_eq!(SaveError::from_error(4), Err(SaveError::Unknown));
    assert_eq!(SaveError::from_error(-1), Err(SaveError::Unknown));
    assert_eq!(SaveError::from_error(i32::MAX), Err(SaveError::Unknown));
}

#[test]
fn parse_statuses() {
    assert_eq!(SourceError::from_error(PARSE_SUCCESS), Ok(()));
    assert_eq!(
        SourceError::from_error(PARSE_AST_READ_ERROR),
        Err(SourceError::AstDeserialization)
    );
    assert_eq!(SourceError::from_error(PARSE_CRASHED), Err(SourceError::Crash));
    assert_eq!(SourceError::from_error(PARSE_FAILURE), Err(SourceError::Unknown));
}

#[test]
fn parse_statuses_outside_the_table_are_unknown() {
    assert_eq!(SourceError::from_error(PARSE_INVALID_ARGUMENTS), Err(SourceError::Unknown));
    assert_eq!(SourceError::from_error(5), Err(SourceError::Unknown));
    assert_eq!(SourceError::from_error(-7), Err(SourceError::Unknown));
}

#[test]
fn descriptions() {
    assert_eq!(AlignofError::Dependent.description(), "the type is a dependent type");
    assert_eq!(AlignofError::Incomplete.description(), "the type is an incomplete type");
    assert_eq!(OffsetofError::Dependent.description(), "the record type is a dependent type");
    assert_eq!(OffsetofError::Incomplete.description(), "the record type is an incomplete type");
    assert_eq!(
        OffsetofError::Name.description(),
        "the record type does not contain a field with the supplied name"
    );
    assert_eq!(
        OffsetofError::Parent.description(),
        "the record type has an invalid parent declaration"
    );
    assert_eq!(
        SaveError::Errors.description(),
        "errors in the translation unit prevented saving"
    );
    assert_eq!(SaveError::Unknown.description(), "an unknown error occurred");
    assert_eq!(SizeofError::Dependent.description(), "the type is a dependent type");
    assert_eq!(SizeofError::Incomplete.description(), "the type is an incomplete type");
    assert_eq!(SizeofError::VariableSize.description(), "the type is a variable size type");
    assert_eq!(SourceError::AstDeserialization.description(), "AST deserialization failed");
    assert_eq!(SourceError::Crash.description(), "`libclang` crashed");
    assert_eq!(SourceError::Unknown.description(), "an unknown error occurred");
}
