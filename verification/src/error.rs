//! Decoding of the frontend's numeric status codes into typed errors.
//!
//! Each operation family has its own table, because the frontend reuses
//! overlapping numeric ranges with family-specific meanings.

use vstd::prelude::*;
use vstd::string::StringExecFns;

verus! {

/// Status of a save: the translation unit was written.
pub const SAVE_NONE: i32 = 0;

/// Status of a save: an unspecified failure.
pub const SAVE_UNKNOWN: i32 = 1;

/// Status of a save: translation errors prevented the attempt.
pub const SAVE_TRANSLATION_ERRORS: i32 = 2;

/// Status of a save: the translation unit itself is invalid.
pub const SAVE_INVALID_TU: i32 = 3;

/// Status of a parse or reparse: success.
pub const PARSE_SUCCESS: i32 = 0;

/// Status of a parse or reparse: an unspecified failure.
pub const PARSE_FAILURE: i32 = 1;

/// Status of a parse or reparse: the frontend crashed.
pub const PARSE_CRASHED: i32 = 2;

/// Status of a parse or reparse: the arguments were rejected.
pub const PARSE_INVALID_ARGUMENTS: i32 = 3;

/// Status of a parse or reparse: an AST file could not be deserialized.
pub const PARSE_AST_READ_ERROR: i32 = 4;

/// Indicates the error that prevented determining the alignment of a type.
#[derive(Copy, Clone, Debug, PartialEq, Eq, Hash, Structural)]
pub enum AlignofError {
    /// The type is a dependent type.
    Dependent,
    /// The type is an incomplete type.
    Incomplete,
}

/// Indicates the error that prevented determining the offset of a field in a record type.
#[derive(Copy, Clone, Debug, PartialEq, Eq, Hash, Structural)]
pub enum OffsetofError {
    /// The record type is a dependent type.
    Dependent,
    /// The record type is an incomplete type.
    Incomplete,
    /// The record type does not contain a field with the supplied name.
    Name,
    /// The record type has an invalid parent declaration.
    Parent,
}

/// Indicates the type of error that prevented the saving of a translation unit to an AST file.
#[derive(Copy, Clone, Debug, PartialEq, Eq, Hash, Structural)]
pub enum SaveError {
    /// Errors in the translation unit prevented saving.
    Errors,
    /// An unknown error occurred.
    Unknown,
}

/// Indicates the error that prevented determining the size of a type.
#[derive(Copy, Clone, Debug, PartialEq, Eq, Hash, Structural)]
pub enum SizeofError {
    /// The type is a dependent type.
    Dependent,
    /// The type is an incomplete type.
    Incomplete,
    /// The type is a variable size type.
    VariableSize,
}

/// Indicates the type of error that prevented the loading of a translation unit from a source
/// file.
#[derive(Copy, Clone, Debug, PartialEq, Eq, Hash, Structural)]
pub enum SourceError {
    /// An error occurred while deserializing an AST file.
    AstDeserialization,
    /// `libclang` crashed.
    Crash,
    /// An unknown error occurred.
    Unknown,
}

impl AlignofError {
    /// The outcome an alignment query's raw result stands for: the two
    /// sentinels are errors, every other value is the computed alignment.
    pub open spec fn decode(code: i64) -> Result<(), AlignofError> {
        if code == -3 {
            Err(AlignofError::Dependent)
        } else if code == -2 {
            Err(AlignofError::Incomplete)
        } else {
            Ok(())
        }
    }

    /// Decodes the raw result of an alignment query.
    pub fn from_error(code: i64) -> (r: Result<(), AlignofError>)
        ensures
            r == Self::decode(code),
    {
        if code == -3 {
            Err(AlignofError::Dependent)
        } else if code == -2 {
            Err(AlignofError::Incomplete)
        } else {
            Ok(())
        }
    }

    /// The message that describes this error.
    pub open spec fn message(self) -> Seq<char> {
        match self {
            AlignofError::Dependent => "the type is a dependent type"@,
            AlignofError::Incomplete => "the type is an incomplete type"@,
        }
    }

    /// Returns the message that describes this error.
    pub fn description(&self) -> (s: String)
        ensures
            s@ == self.message(),
    {
        match self {
            AlignofError::Dependent => String::from_str("the type is a dependent type"),
            AlignofError::Incomplete => String::from_str("the type is an incomplete type"),
        }
    }
}

impl OffsetofError {
    /// The outcome an offset query's raw result stands for: the four
    /// sentinels are errors, every other value is the computed offset.
    pub open spec fn decode(code: i64) -> Result<(), OffsetofError> {
        if code == -3 {
            Err(OffsetofError::Dependent)
        } else if code == -2 {
            Err(OffsetofError::Incomplete)
        } else if code == -5 {
            Err(OffsetofError::Name)
        } else if code == -1 {
            Err(OffsetofError::Parent)
        } else {
            Ok(())
        }
    }

    /// Decodes the raw result of an offset query.
    pub fn from_error(code: i64) -> (r: Result<(), OffsetofError>)
        ensures
            r == Self::decode(code),
    {
        if code == -3 {
            Err(OffsetofError::Dependent)
        } else if code == -2 {
            Err(OffsetofError::Incomplete)
        } else if code == -5 {
            Err(OffsetofError::Name)
        } else if code == -1 {
            Err(OffsetofError::Parent)
        } else {
            Ok(())
        }
    }

    /// The message that describes this error.
    pub open spec fn message(self) -> Seq<char> {
        match self {
            OffsetofError::Dependent => "the record type is a dependent type"@,
            OffsetofError::Incomplete => "the record type is an incomplete type"@,
            OffsetofError::Name => (
                "the record type does not contain a field with the supplied name"@
            ),
            OffsetofError::Parent => "the record type has an invalid parent declaration"@,
        }
    }

    /// Returns the message that describes this error.
    pub fn description(&self) -> (s: String)
        ensures
            s@ == self.message(),
    {
        match self {
            OffsetofError::Dependent => String::from_str("the record type is a dependent type"),
            OffsetofError::Incomplete => String::from_str("the record type is an incomplete type"),
            OffsetofError::Name => String::from_str(
                "the record type does not contain a field with the supplied name",
            ),
            OffsetofError::Parent => String::from_str(
                "the record type has an invalid parent declaration",
            ),
        }
    }
}

impl SizeofError {
    /// The outcome a size query's raw result stands for: the three
    /// sentinels are errors, every other value is the computed size.
    pub open spec fn decode(code: i64) -> Result<(), SizeofError> {
        if code == -3 {
            Err(SizeofError::Dependent)
        } else if code == -2 {
            Err(SizeofError::Incomplete)
        } else if code == -4 {
            Err(SizeofError::VariableSize)
        } else {
            Ok(())
        }
    }

    /// Decodes the raw result of a size query.
    pub fn from_error(code: i64) -> (r: Result<(), SizeofError>)
        ensures
            r == Self::decode(code),
    {
        if code == -3 {
            Err(SizeofError::Dependent)
        } else if code == -2 {
            Err(SizeofError::Incomplete)
        } else if code == -4 {
            Err(SizeofError::VariableSize)
        } else {
            Ok(())
        }
    }

    /// The message that describes this error.
    pub open spec fn message(self) -> Seq<char> {
        match self {
            SizeofError::Dependent => "the type is a dependent type"@,
            SizeofError::Incomplete => "the type is an incomplete type"@,
            SizeofError::VariableSize => "the type is a variable size type"@,
        }
    }

    /// Returns the message that describes this error.
    pub fn description(&self) -> (s: String)
        ensures
            s@ == self.message(),
    {
        match self {
            SizeofError::Dependent => String::from_str("the type is a dependent type"),
            SizeofError::Incomplete => String::from_str("the type is an incomplete type"),
            SizeofError::VariableSize => String::from_str("the type is a variable size type"),
        }
    }
}

impl SaveError {
    /// The outcome a save status stands for: the success sentinel is success,
    /// errors in the translation unit that prevented the attempt are
    /// `Errors`, and every other status, that of an invalid translation unit
    /// among them, is `Unknown`.
    pub open spec fn decode(code: i32) -> Result<(), SaveError> {
        if code == SAVE_NONE {
            Ok(())
        } else if code == SAVE_TRANSLATION_ERRORS {
            Err(SaveError::Errors)
        } else {
            Err(SaveError::Unknown)
        }
    }

    /// Decodes the status of a save.
    pub fn from_error(code: i32) -> (r: Result<(), SaveError>)
        ensures
            r == Self::decode(code),
    {
        if code == SAVE_NONE {
            Ok(())
        } else if code == SAVE_TRANSLATION_ERRORS {
            Err(SaveError::Errors)
        } else {
            Err(SaveError::Unknown)
        }
    }

    /// The message that describes this error.
    pub open spec fn message(self) -> Seq<char> {
        match self {
            SaveError::Errors => "errors in the translation unit prevented saving"@,
            SaveError::Unknown => "an unknown error occurred"@,
        }
    }

    /// Returns the message that describes this error.
    pub fn description(&self) -> (s: String)
        ensures
            s@ == self.message(),
    {
        match self {
            SaveError::Errors => String::from_str(
                "errors in the translation unit prevented saving",
            ),
            SaveError::Unknown => String::from_str("an unknown error occurred"),
        }
    }
}

impl SourceError {
    /// The outcome a parse or reparse status stands for: the success sentinel
    /// is success, a failed AST read and a crash have their own variants, and
    /// every other status is `Unknown`.
    pub open spec fn decode(code: i32) -> Result<(), SourceError> {
        if code == PARSE_SUCCESS {
            Ok(())
        } else if code == PARSE_AST_READ_ERROR {
            Err(SourceError::AstDeserialization)
        } else if code == PARSE_CRASHED {
            Err(SourceError::Crash)
        } else {
            Err(SourceError::Unknown)
        }
    }

    /// Decodes the status of a parse or reparse.
    pub fn from_error(code: i32) -> (r: Result<(), SourceError>)
        ensures
            r == Self::decode(code),
    {
        if code == PARSE_SUCCESS {
            Ok(())
        } else if code == PARSE_AST_READ_ERROR {
            Err(SourceError::AstDeserialization)
        } else if code == PARSE_CRASHED {
            Err(SourceError::Crash)
        } else {
            Err(SourceError::Unknown)
        }
    }

    /// The message that describes this error.
    pub open spec fn message(self) -> Seq<char> {
        match self {
            SourceError::AstDeserialization => "AST deserialization failed"@,
            SourceError::Crash => "`libclang` crashed"@,
            SourceError::Unknown => "an unknown error occurred"@,
        }
    }

    /// Returns the message that describes this error.
    pub fn description(&self) -> (s: String)
        ensures
            s@ == self.message(),
    {
        match self {
            SourceError::AstDeserialization => String::from_str("AST deserialization failed"),
            SourceError::Crash => String::from_str("`libclang` crashed"),
            SourceError::Unknown => String::from_str("an unknown error occurred"),
        }
    }
}

/// A status of a parse or a save decodes to success exactly when it is the
/// success sentinel, and a size, alignment or offset result decodes to an
/// error exactly on that family's sentinels.
pub proof fn lemma_decode_success(code: i32, magnitude: i64)
    ensures
        SourceError::decode(code).is_ok() <==> code == PARSE_SUCCESS,
        SaveError::decode(code).is_ok() <==> code == SAVE_NONE,
        SaveError::decode(code) == Err::<(), SaveError>(SaveError::Errors) <==> code
            == SAVE_TRANSLATION_ERRORS,
        SizeofError::decode(magnitude).is_err() <==> (-4 <= magnitude <= -2),
        AlignofError::decode(magnitude).is_err() <==> (-3 <= magnitude <= -2),
        OffsetofError::decode(magnitude).is_err() <==> (-3 <= magnitude <= -1 || magnitude == -5),
        magnitude >= 0 ==> SizeofError::decode(magnitude).is_ok() && AlignofError::decode(
            magnitude,
        ).is_ok() && OffsetofError::decode(magnitude).is_ok(),
{
}

} // verus!
