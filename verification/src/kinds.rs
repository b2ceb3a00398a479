//! The small enumerations that the frontend reports as numbers, each with
//! the conversion between its values and those numbers.

use vstd::prelude::*;

verus! {

/// Indicates the accessibility of a C++ AST element.
#[derive(Copy, Clone, Debug, PartialEq, Eq, Hash, Structural)]
pub enum AccessSpecifier {
    /// The element is private.
    Private,
    /// The element is protected.
    Protected,
    /// The element is public.
    Public,
}

impl AccessSpecifier {
    /// The number by which the frontend denotes this value.
    pub open spec fn code(self) -> i32 {
        match self {
            AccessSpecifier::Private => 3i32,
            AccessSpecifier::Protected => 2i32,
            AccessSpecifier::Public => 1i32,
        }
    }

    /// Returns the number by which the frontend denotes this value.
    pub fn to_code(&self) -> (code: i32)
        ensures
            code == self.code(),
    {
        match self {
            AccessSpecifier::Private => 3i32,
            AccessSpecifier::Protected => 2i32,
            AccessSpecifier::Public => 1i32,
        }
    }

    /// Whether `code` is the number of an access specifier.
    pub open spec fn known(code: i32) -> bool {
        1 <= code <= 3
    }

    /// Decodes the number by which the frontend denotes an access specifier: the
    /// value with that number, or nothing where no value has it.
    pub fn from_code(code: i32) -> (r: Option<AccessSpecifier>)
        ensures
            r.is_some() <==> Self::known(code),
            r.is_some() ==> r.unwrap().code() == code,
    {
        match code {
            1i32 => Some(AccessSpecifier::Public),
            2i32 => Some(AccessSpecifier::Protected),
            3i32 => Some(AccessSpecifier::Private),
            _ => None,
        }
    }

    /// Every value has a known number.
    pub proof fn lemma_code_known(k: AccessSpecifier)
        ensures
            Self::known(k.code()),
    {
    }

    /// Two values with one number are equal.
    pub proof fn lemma_code_injective(a: AccessSpecifier, b: AccessSpecifier)
        requires
            a.code() == b.code(),
        ensures
            a == b,
    {
    }
}

/// Indicates the availability of an AST element.
#[derive(Copy, Clone, Debug, PartialEq, Eq, Hash, Structural)]
pub enum Availability {
    /// The element is available.
    Available,
    /// The element is available, but has been deprecated.
    Deprecated,
    /// The element is not available and any usage of it will be an error.
    Unavailable,
    /// The element is available but is not accessible and usage of it will be an error.
    Inaccessible,
}

impl Availability {
    /// The number by which the frontend denotes this value.
    pub open spec fn code(self) -> i32 {
        match self {
            Availability::Available => 0i32,
            Availability::Deprecated => 1i32,
            Availability::Unavailable => 2i32,
            Availability::Inaccessible => 3i32,
        }
    }

    /// Returns the number by which the frontend denotes this value.
    pub fn to_code(&self) -> (code: i32)
        ensures
            code == self.code(),
    {
        match self {
            Availability::Available => 0i32,
            Availability::Deprecated => 1i32,
            Availability::Unavailable => 2i32,
            Availability::Inaccessible => 3i32,
        }
    }

    /// Whether `code` is the number of an availability.
    pub open spec fn known(code: i32) -> bool {
        0 <= code <= 3
    }

    /// Decodes the number by which the frontend denotes an availability: the
    /// value with that number, or nothing where no value has it.
    pub fn from_code(code: i32) -> (r: Option<Availability>)
        ensures
            r.is_some() <==> Self::known(code),
            r.is_some() ==> r.unwrap().code() == code,
    {
        match code {
            0i32 => Some(Availability::Available),
            1i32 => Some(Availability::Deprecated),
            2i32 => Some(Availability::Unavailable),
            3i32 => Some(Availability::Inaccessible),
            _ => None,
        }
    }

    /// Every value has a known number.
    pub proof fn lemma_code_known(k: Availability)
        ensures
            Self::known(k.code()),
    {
    }

    /// Two values with one number are equal.
    pub proof fn lemma_code_injective(a: Availability, b: Availability)
        requires
            a.code() == b.code(),
        ensures
            a == b,
    {
    }
}

/// Indicates how a cursor visitation should proceed.
#[derive(Copy, Clone, Debug, PartialEq, Eq, Hash, Structural)]
pub enum CursorVisitResult {
    /// Do not continue visiting cursors.
    Break,
    /// Continue visiting sibling cursors but no child cursors.
    Continue,
    /// Continue visiting sibling and child cursors.
    Recurse,
}

impl CursorVisitResult {
    /// The number by which the frontend denotes this value.
    pub open spec fn code(self) -> i32 {
        match self {
            CursorVisitResult::Break => 0i32,
            CursorVisitResult::Continue => 1i32,
            CursorVisitResult::Recurse => 2i32,
        }
    }

    /// Returns the number by which the frontend denotes this value.
    pub fn to_code(&self) -> (code: i32)
        ensures
            code == self.code(),
    {
        match self {
            CursorVisitResult::Break => 0i32,
            CursorVisitResult::Continue => 1i32,
            CursorVisitResult::Recurse => 2i32,
        }
    }

    /// Whether `code` is the number of a visitation directive.
    pub open spec fn known(code: i32) -> bool {
        0 <= code <= 2
    }

    /// Decodes the number by which the frontend denotes a visitation directive: the
    /// value with that number, or nothing where no value has it.
    pub fn from_code(code: i32) -> (r: Option<CursorVisitResult>)
        ensures
            r.is_some() <==> Self::known(code),
            r.is_some() ==> r.unwrap().code() == code,
    {
        match code {
            0i32 => Some(CursorVisitResult::Break),
            1i32 => Some(CursorVisitResult::Continue),
            2i32 => Some(CursorVisitResult::Recurse),
            _ => None,
        }
    }

    /// Every value has a known number.
    pub proof fn lemma_code_known(k: CursorVisitResult)
        ensures
            Self::known(k.code()),
    {
    }

    /// Two values with one number are equal.
    pub proof fn lemma_code_injective(a: CursorVisitResult, b: CursorVisitResult)
        requires
            a.code() == b.code(),
        ensures
            a == b,
    {
    }
}

/// Indicates the language used by an AST element.
#[derive(Copy, Clone, Debug, PartialEq, Eq, Hash, Structural)]
pub enum Language {
    /// The element uses the C programming language.
    C,
    /// The element uses the C++ programming language.
    Cpp,
    /// The element uses the Objective-C programming language.
    ObjectiveC,
}

impl Language {
    /// The number by which the frontend denotes this value.
    pub open spec fn code(self) -> i32 {
        match self {
            Language::C => 1i32,
            Language::Cpp => 3i32,
            Language::ObjectiveC => 2i32,
        }
    }

    /// Returns the number by which the frontend denotes this value.
    pub fn to_code(&self) -> (code: i32)
        ensures
            code == self.code(),
    {
        match self {
            Language::C => 1i32,
            Language::Cpp => 3i32,
            Language::ObjectiveC => 2i32,
        }
    }

    /// Whether `code` is the number of a language.
    pub open spec fn known(code: i32) -> bool {
        1 <= code <= 3
    }

    /// Decodes the number by which the frontend denotes a language: the
    /// value with that number, or nothing where no value has it.
    pub fn from_code(code: i32) -> (r: Option<Language>)
        ensures
            r.is_some() <==> Self::known(code),
            r.is_some() ==> r.unwrap().code() == code,
    {
        match code {
            1i32 => Some(Language::C),
            2i32 => Some(Language::ObjectiveC),
            3i32 => Some(Language::Cpp),
            _ => None,
        }
    }

    /// Every value has a known number.
    pub proof fn lemma_code_known(k: Language)
        ensures
            Self::known(k.code()),
    {
    }

    /// Two values with one number are equal.
    pub proof fn lemma_code_injective(a: Language, b: Language)
        requires
            a.code() == b.code(),
        ensures
            a == b,
    {
    }
}

/// Indicates the usage category of a quantity of memory.
#[derive(Copy, Clone, Debug, PartialEq, Eq, Hash, Structural)]
pub enum MemoryUsage {
    /// Expressions, declarations and types.
    Ast,
    /// Various tables used by the AST.
    AstSideTables,
    /// Memory allocated with `malloc` for external AST sources.
    ExternalAstSourceMalloc,
    /// Memory allocated with `mmap` for external AST sources.
    ExternalAstSourceMMap,
    /// Cached global code completion results.
    GlobalCodeCompletionResults,
    /// Identifiers.
    Identifiers,
    /// The preprocessing record.
    PreprocessingRecord,
    /// Memory allocated with `malloc` for the preprocessor.
    Preprocessor,
    /// Header search tables.
    PreprocessorHeaderSearch,
    /// Selectors.
    Selectors,
    /// The content cache used by the source manager.
    SourceManagerContentCache,
    /// Data structures used by the source manager.
    SourceManagerDataStructures,
    /// Memory allocated with `malloc` for the source manager.
    SourceManagerMalloc,
    /// Memory allocated with `mmap` for the source manager.
    SourceManagerMMap,
}

impl MemoryUsage {
    /// The number by which the frontend denotes this value.
    pub open spec fn code(self) -> i32 {
        match self {
            MemoryUsage::Ast => 1i32,
            MemoryUsage::AstSideTables => 6i32,
            MemoryUsage::ExternalAstSourceMalloc => 9i32,
            MemoryUsage::ExternalAstSourceMMap => 10i32,
            MemoryUsage::GlobalCodeCompletionResults => 4i32,
            MemoryUsage::Identifiers => 2i32,
            MemoryUsage::PreprocessingRecord => 12i32,
            MemoryUsage::Preprocessor => 11i32,
            MemoryUsage::PreprocessorHeaderSearch => 14i32,
            MemoryUsage::Selectors => 3i32,
            MemoryUsage::SourceManagerContentCache => 5i32,
            MemoryUsage::SourceManagerDataStructures => 13i32,
            MemoryUsage::SourceManagerMalloc => 7i32,
            MemoryUsage::SourceManagerMMap => 8i32,
        }
    }

    /// Returns the number by which the frontend denotes this value.
    pub fn to_code(&self) -> (code: i32)
        ensures
            code == self.code(),
    {
        match self {
            MemoryUsage::Ast => 1i32,
            MemoryUsage::AstSideTables => 6i32,
            MemoryUsage::ExternalAstSourceMalloc => 9i32,
            MemoryUsage::ExternalAstSourceMMap => 10i32,
            MemoryUsage::GlobalCodeCompletionResults => 4i32,
            MemoryUsage::Identifiers => 2i32,
            MemoryUsage::PreprocessingRecord => 12i32,
            MemoryUsage::Preprocessor => 11i32,
            MemoryUsage::PreprocessorHeaderSearch => 14i32,
            MemoryUsage::Selectors => 3i32,
            MemoryUsage::SourceManagerContentCache => 5i32,
            MemoryUsage::SourceManagerDataStructures => 13i32,
            MemoryUsage::SourceManagerMalloc => 7i32,
            MemoryUsage::SourceManagerMMap => 8i32,
        }
    }

    /// Whether `code` is the number of a memory usage category.
    pub open spec fn known(code: i32) -> bool {
        1 <= code <= 14
    }

    /// Decodes the number by which the frontend denotes a memory usage category: the
    /// value with that number, or nothing where no value has it.
    pub fn from_code(code: i32) -> (r: Option<MemoryUsage>)
        ensures
            r.is_some() <==> Self::known(code),
            r.is_some() ==> r.unwrap().code() == code,
    {
        match code {
            1i32 => Some(MemoryUsage::Ast),
            2i32 => Some(MemoryUsage::Identifiers),
            3i32 => Some(MemoryUsage::Selectors),
            4i32 => Some(MemoryUsage::GlobalCodeCompletionResults),
            5i32 => Some(MemoryUsage::SourceManagerContentCache),
            6i32 => Some(MemoryUsage::AstSideTables),
            7i32 => Some(MemoryUsage::SourceManagerMalloc),
            8i32 => Some(MemoryUsage::SourceManagerMMap),
            9i32 => Some(MemoryUsage::ExternalAstSourceMalloc),
            10i32 => Some(MemoryUsage::ExternalAstSourceMMap),
            11i32 => Some(MemoryUsage::Preprocessor),
            12i32 => Some(MemoryUsage::PreprocessingRecord),
            13i32 => Some(MemoryUsage::SourceManagerDataStructures),
            14i32 => Some(MemoryUsage::PreprocessorHeaderSearch),
            _ => None,
        }
    }

    /// Every value has a known number.
    pub proof fn lemma_code_known(k: MemoryUsage)
        ensures
            Self::known(k.code()),
    {
    }

    /// Two values with one number are equal.
    pub proof fn lemma_code_injective(a: MemoryUsage, b: MemoryUsage)
        requires
            a.code() == b.code(),
        ensures
            a == b,
    {
    }
}

/// Indicates the severity of a diagnostic.
#[derive(Copy, Clone, Debug, PartialEq, Eq, Hash, Structural)]
pub enum Severity {
    /// The diagnostic has been suppressed (e.g., by a command-line option).
    Ignored,
    /// The diagnostic is attached to the previous non-note diagnostic.
    Note,
    /// The diagnostic targets suspicious code that may or may not be wrong.
    Warning,
    /// The diagnostic targets ill-formed code.
    Error,
    /// The diagnostic targets code that is ill-formed in such a way that parser recovery is
    /// unlikely to produce any useful results.
    Fatal,
}

impl Severity {
    /// The number by which the frontend denotes this value.
    pub open spec fn code(self) -> i32 {
        match self {
            Severity::Ignored => 0i32,
            Severity::Note => 1i32,
            Severity::Warning => 2i32,
            Severity::Error => 3i32,
            Severity::Fatal => 4i32,
        }
    }

    /// Returns the number by which the frontend denotes this value.
    pub fn to_code(&self) -> (code: i32)
        ensures
            code == self.code(),
    {
        match self {
            Severity::Ignored => 0i32,
            Severity::Note => 1i32,
            Severity::Warning => 2i32,
            Severity::Error => 3i32,
            Severity::Fatal => 4i32,
        }
    }

    /// Whether `code` is the number of a severity.
    pub open spec fn known(code: i32) -> bool {
        0 <= code <= 4
    }

    /// Decodes the number by which the frontend denotes a severity: the
    /// value with that number, or nothing where no value has it.
    pub fn from_code(code: i32) -> (r: Option<Severity>)
        ensures
            r.is_some() <==> Self::known(code),
            r.is_some() ==> r.unwrap().code() == code,
    {
        match code {
            0i32 => Some(Severity::Ignored),
            1i32 => Some(Severity::Note),
            2i32 => Some(Severity::Warning),
            3i32 => Some(Severity::Error),
            4i32 => Some(Severity::Fatal),
            _ => None,
        }
    }

    /// Every value has a known number.
    pub proof fn lemma_code_known(k: Severity)
        ensures
            Self::known(k.code()),
    {
    }

    /// Two values with one number are equal.
    pub proof fn lemma_code_injective(a: Severity, b: Severity)
        requires
            a.code() == b.code(),
        ensures
            a == b,
    {
    }
}

} // verus!
