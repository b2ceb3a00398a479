//! A memory-safe layer over a handle-based compiler frontend.
//!
//! The frontend parses source files into abstract syntax trees and reports
//! everything through raw handles, numeric status codes and a tree walk that
//! is steered by a callback. This library holds what the frontend reported of
//! a translation unit as plain data, checks that data once, and offers typed,
//! lifetime-checked access to it: an engine token, an index, translation
//! units, and the cursors, files, modules, diagnostics, locations and ranges
//! that borrow from a translation unit.

pub mod ast;
pub mod builder;
pub mod cursor;
pub mod cursor_kind;
pub mod descent;
pub mod diagnostic;
pub mod engine;
pub mod error;
pub mod file;
pub mod index;
pub mod kinds;
pub mod laws;
pub mod marshal;
pub mod module;
pub mod options;
pub mod source;
pub mod unit;
pub mod unsaved;
pub mod visit;

pub use ast::Ast;
pub use cursor::Cursor;
pub use cursor_kind::CursorKind;
pub use diagnostic::{Diagnostic, FixIt};
pub use engine::{Clang, EngineFlag};
pub use error::{AlignofError, OffsetofError, SaveError, SizeofError, SourceError};
pub use file::File;
pub use index::Index;
pub use kinds::{AccessSpecifier, Availability, CursorVisitResult, Language, MemoryUsage, Severity};
pub use marshal::Nullable;
pub use module::Module;
pub use options::{BackgroundPriority, FormatOptions, ParseOptions};
pub use source::{Location, SourceLocation, SourceRange};
pub use unit::TranslationUnit;
pub use unsaved::Unsaved;
