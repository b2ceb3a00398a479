//! Option sets and their encoding as the frontend's bit flags.

use vstd::prelude::*;

verus! {

/// Flag: prefix the diagnostic text by the file and line of its location.
pub const DISPLAY_SOURCE_LOCATION: u32 = 1;

/// Flag: include the column in the location prefix.
pub const DISPLAY_COLUMN: u32 = 2;

/// Flag: include the source ranges in the location prefix.
pub const DISPLAY_SOURCE_RANGES: u32 = 4;

/// Flag: append the option associated with the diagnostic.
pub const DISPLAY_OPTION: u32 = 8;

/// Flag: append the category number associated with the diagnostic.
pub const DISPLAY_CATEGORY_ID: u32 = 16;

/// Flag: append the category name associated with the diagnostic.
pub const DISPLAY_CATEGORY_NAME: u32 = 32;

/// Flag: construct a detailed preprocessing record.
pub const DETAILED_PREPROCESSING_RECORD: u32 = 1;

/// Flag: consider the translation unit incomplete.
pub const INCOMPLETE: u32 = 2;

/// Flag: cache code completion results on reparse.
pub const CACHE_COMPLETION_RESULTS: u32 = 8;

/// Flag: skip function and method bodies.
pub const SKIP_FUNCTION_BODIES: u32 = 64;

/// Flag: include brief documentation comments in code completion results.
pub const INCLUDE_BRIEF_COMMENTS_IN_CODE_COMPLETION: u32 = 128;

/// Flag: threads that index have background priority.
pub const BACKGROUND_PRIORITY_FOR_INDEXING: u32 = 1;

/// Flag: threads that edit have background priority.
pub const BACKGROUND_PRIORITY_FOR_EDITING: u32 = 2;

/// The flags that the frontend formats a diagnostic with by default: the
/// location prefix with its column, and the associated option.
pub const DEFAULT_DISPLAY: u32 = 11;

/// The flag `bit` where `on` holds, and no flag otherwise.
pub open spec fn flag_if(on: bool, bit: u32) -> u32 {
    if on {
        bit
    } else {
        0
    }
}

/// Whether `flags` holds the flag `bit`.
pub open spec fn has_flag(flags: u32, bit: u32) -> bool {
    flags & bit != 0
}

fn pick(on: bool, bit: u32) -> (r: u32)
    ensures
        r == flag_if(on, bit),
{
    if on {
        bit
    } else {
        0
    }
}

fn holds(flags: u32, bit: u32) -> (r: bool)
    ensures
        r == has_flag(flags, bit),
{
    flags & bit != 0
}

/// A set of options that determines how a diagnostic is formatted.
#[derive(Copy, Clone, Debug, PartialEq, Eq, Hash, Structural)]
pub struct FormatOptions {
    /// Indicates whether the diagnostic text will be prefixed by the file and line of the
    /// source location the diagnostic indicates. This prefix may also contain column and/or
    /// source range information.
    pub display_source_location: bool,
    /// Indicates whether the column will be included in the source location prefix.
    pub display_column: bool,
    /// Indicates whether the source ranges will be included to the source location prefix.
    pub display_source_ranges: bool,
    /// Indicates whether the option associated with the diagnostic (e.g., `-Wconversion`) will
    /// be placed in brackets after the diagnostic text if there is such an option.
    pub display_option: bool,
    /// Indicates whether the category number associated with the diagnostic will be placed in
    /// brackets after the diagnostic text if there is such a category number.
    pub display_category_id: bool,
    /// Indicates whether the category name associated with the diagnostic will be placed in
    /// brackets after the diagnostic text if there is such a category name.
    pub display_category_name: bool,
}

impl FormatOptions {
    /// The flags that encode these options: one bit for each option that is set.
    pub open spec fn flags(self) -> u32 {
        flag_if(self.display_source_location, DISPLAY_SOURCE_LOCATION) | flag_if(
            self.display_column,
            DISPLAY_COLUMN,
        ) | flag_if(self.display_source_ranges, DISPLAY_SOURCE_RANGES) | flag_if(
            self.display_option,
            DISPLAY_OPTION,
        ) | flag_if(self.display_category_id, DISPLAY_CATEGORY_ID) | flag_if(
            self.display_category_name,
            DISPLAY_CATEGORY_NAME,
        )
    }

    /// The options that `flags` encodes: an option is set where its bit is.
    pub open spec fn of_flags(flags: u32) -> FormatOptions {
        FormatOptions {
            display_source_location: has_flag(flags, DISPLAY_SOURCE_LOCATION),
            display_column: has_flag(flags, DISPLAY_COLUMN),
            display_source_ranges: has_flag(flags, DISPLAY_SOURCE_RANGES),
            display_option: has_flag(flags, DISPLAY_OPTION),
            display_category_id: has_flag(flags, DISPLAY_CATEGORY_ID),
            display_category_name: has_flag(flags, DISPLAY_CATEGORY_NAME),
        }
    }

    /// Decodes a set of display flags; bits that are no display flag are ignored.
    pub fn from_flags(flags: u32) -> (r: FormatOptions)
        ensures
            r == Self::of_flags(flags),
    {
        FormatOptions {
            display_source_location: holds(flags, DISPLAY_SOURCE_LOCATION),
            display_column: holds(flags, DISPLAY_COLUMN),
            display_source_ranges: holds(flags, DISPLAY_SOURCE_RANGES),
            display_option: holds(flags, DISPLAY_OPTION),
            display_category_id: holds(flags, DISPLAY_CATEGORY_ID),
            display_category_name: holds(flags, DISPLAY_CATEGORY_NAME),
        }
    }

    /// Encodes these options as display flags.
    pub fn into_flags(self) -> (r: u32)
        ensures
            r == self.flags(),
            r < 64,
    {
        let a: u32 = pick(self.display_source_location, DISPLAY_SOURCE_LOCATION);
        let b: u32 = pick(self.display_column, DISPLAY_COLUMN);
        let c: u32 = pick(self.display_source_ranges, DISPLAY_SOURCE_RANGES);
        let d: u32 = pick(self.display_option, DISPLAY_OPTION);
        let e: u32 = pick(self.display_category_id, DISPLAY_CATEGORY_ID);
        let f: u32 = pick(self.display_category_name, DISPLAY_CATEGORY_NAME);
        proof {
            lemma_six_flags(a, b, c, d, e, f);
        }
        a | b | c | d | e | f
    }

    /// The flags of the default options are the default display flags.
    pub proof fn lemma_default_flags()
        ensures
            Self::of_flags(DEFAULT_DISPLAY).flags() == DEFAULT_DISPLAY,
    {
        assert(11u32 & 1 != 0 && 11u32 & 2 != 0 && 11u32 & 4 == 0 && 11u32 & 8 != 0 && 11u32 & 16
            == 0 && 11u32 & 32 == 0 && (1u32 | 2 | 0 | 8 | 0 | 0) == 11) by (bit_vector);
    }

    /// Decoding the flags of a set of options gives the same options back,
    /// and the flags of a set of options are below 64.
    pub proof fn lemma_round_trip(self)
        ensures
            Self::of_flags(self.flags()) == self,
            self.flags() < 64,
    {
        lemma_six_flags(
            flag_if(self.display_source_location, DISPLAY_SOURCE_LOCATION),
            flag_if(self.display_column, DISPLAY_COLUMN),
            flag_if(self.display_source_ranges, DISPLAY_SOURCE_RANGES),
            flag_if(self.display_option, DISPLAY_OPTION),
            flag_if(self.display_category_id, DISPLAY_CATEGORY_ID),
            flag_if(self.display_category_name, DISPLAY_CATEGORY_NAME),
        );
    }
}

impl Default for FormatOptions {
    /// The options that the frontend formats a diagnostic with by default.
    fn default() -> (r: FormatOptions)
        ensures
            r == FormatOptions::of_flags(DEFAULT_DISPLAY),
            r.display_source_location && r.display_column && r.display_option,
            !r.display_source_ranges && !r.display_category_id && !r.display_category_name,
    {
        assert(11u32 & 1 != 0 && 11u32 & 2 != 0 && 11u32 & 4 == 0 && 11u32 & 8 != 0 && 11u32 & 16
            == 0 && 11u32 & 32 == 0) by (bit_vector);
        FormatOptions::from_flags(DEFAULT_DISPLAY)
    }
}

proof fn lemma_six_flags(a: u32, b: u32, c: u32, d: u32, e: u32, f: u32)
    requires
        a == 0 || a == 1,
        b == 0 || b == 2,
        c == 0 || c == 4,
        d == 0 || d == 8,
        e == 0 || e == 16,
        f == 0 || f == 32,
    ensures
        ((a | b | c | d | e | f) & 1 != 0) == (a != 0),
        ((a | b | c | d | e | f) & 2 != 0) == (b != 0),
        ((a | b | c | d | e | f) & 4 != 0) == (c != 0),
        ((a | b | c | d | e | f) & 8 != 0) == (d != 0),
        ((a | b | c | d | e | f) & 16 != 0) == (e != 0),
        ((a | b | c | d | e | f) & 32 != 0) == (f != 0),
        (a | b | c | d | e | f) < 64,
{
    assert(((a | b | c | d | e | f) & 1 != 0) == (a != 0) && ((a | b | c | d | e | f) & 2 != 0)
        == (b != 0) && ((a | b | c | d | e | f) & 4 != 0) == (c != 0) && ((a | b | c | d | e | f)
        & 8 != 0) == (d != 0) && ((a | b | c | d | e | f) & 16 != 0) == (e != 0) && ((a | b | c
        | d | e | f) & 32 != 0) == (f != 0) && (a | b | c | d | e | f) < 64) by (bit_vector)
        requires
            a == 0 || a == 1,
            b == 0 || b == 2,
            c == 0 || c == 4,
            d == 0 || d == 8,
            e == 0 || e == 16,
            f == 0 || f == 32,
    ;
}

/// A set of options that determines how a source file is parsed into a translation unit.
#[derive(Copy, Clone, Debug, PartialEq, Eq, Hash, Structural)]
pub struct ParseOptions {
    /// Indicates whether certain code completion results will be cached when the translation
    /// unit is reparsed.
    ///
    /// This option increases the time it takes to reparse the translation unit but improves
    /// code completion performance.
    pub cache_completion_results: bool,
    /// Indicates whether a detailed preprocessing record will be constructed which includes all
    /// macro definitions and instantiations.
    pub detailed_preprocessing_record: bool,
    /// Indicates whether brief documentation comments will be included in code completion
    /// results.
    pub include_brief_comments_in_code_completion: bool,
    /// Indicates whether the translation unit will be considered incomplete.
    ///
    /// This option suppresses certain semantic analyses and is typically used when parsing
    /// headers with the intent of creating a precompiled header.
    pub incomplete: bool,
    /// Indicates whether function and method bodies will be skipped.
    pub skip_function_bodies: bool,
}

impl ParseOptions {
    /// The flags that encode these options: one bit for each option that is set.
    pub open spec fn flags(self) -> u32 {
        flag_if(self.cache_completion_results, CACHE_COMPLETION_RESULTS) | flag_if(
            self.detailed_preprocessing_record,
            DETAILED_PREPROCESSING_RECORD,
        ) | flag_if(
            self.include_brief_comments_in_code_completion,
            INCLUDE_BRIEF_COMMENTS_IN_CODE_COMPLETION,
        ) | flag_if(self.incomplete, INCOMPLETE) | flag_if(
            self.skip_function_bodies,
            SKIP_FUNCTION_BODIES,
        )
    }

    /// The options that `flags` encodes: an option is set where its bit is.
    pub open spec fn of_flags(flags: u32) -> ParseOptions {
        ParseOptions {
            cache_completion_results: has_flag(flags, CACHE_COMPLETION_RESULTS),
            detailed_preprocessing_record: has_flag(flags, DETAILED_PREPROCESSING_RECORD),
            include_brief_comments_in_code_completion: has_flag(
                flags,
                INCLUDE_BRIEF_COMMENTS_IN_CODE_COMPLETION,
            ),
            incomplete: has_flag(flags, INCOMPLETE),
            skip_function_bodies: has_flag(flags, SKIP_FUNCTION_BODIES),
        }
    }

    /// Decodes a set of parse flags; bits that are none of the five flags are ignored.
    pub fn from_flags(flags: u32) -> (r: ParseOptions)
        ensures
            r == Self::of_flags(flags),
    {
        ParseOptions {
            cache_completion_results: holds(flags, CACHE_COMPLETION_RESULTS),
            detailed_preprocessing_record: holds(flags, DETAILED_PREPROCESSING_RECORD),
            include_brief_comments_in_code_completion: holds(
                flags,
                INCLUDE_BRIEF_COMMENTS_IN_CODE_COMPLETION,
            ),
            incomplete: holds(flags, INCOMPLETE),
            skip_function_bodies: holds(flags, SKIP_FUNCTION_BODIES),
        }
    }

    /// Encodes these options as parse flags.
    pub fn into_flags(self) -> (r: u32)
        ensures
            r == self.flags(),
    {
        let a: u32 = pick(self.cache_completion_results, CACHE_COMPLETION_RESULTS);
        let b: u32 = pick(self.detailed_preprocessing_record, DETAILED_PREPROCESSING_RECORD);
        let c: u32 = pick(
            self.include_brief_comments_in_code_completion,
            INCLUDE_BRIEF_COMMENTS_IN_CODE_COMPLETION,
        );
        let d: u32 = pick(self.incomplete, INCOMPLETE);
        let e: u32 = pick(self.skip_function_bodies, SKIP_FUNCTION_BODIES);
        a | b | c | d | e
    }

    /// Decoding the flags of a set of options gives the same options back.
    pub proof fn lemma_round_trip(self)
        ensures
            Self::of_flags(self.flags()) == self,
    {
        let a = flag_if(self.cache_completion_results, CACHE_COMPLETION_RESULTS);
        let b = flag_if(self.detailed_preprocessing_record, DETAILED_PREPROCESSING_RECORD);
        let c = flag_if(
            self.include_brief_comments_in_code_completion,
            INCLUDE_BRIEF_COMMENTS_IN_CODE_COMPLETION,
        );
        let d = flag_if(self.incomplete, INCOMPLETE);
        let e = flag_if(self.skip_function_bodies, SKIP_FUNCTION_BODIES);
        assert(((a | b | c | d | e) & 8 != 0) == (a != 0) && ((a | b | c | d | e) & 1 != 0) == (b
            != 0) && ((a | b | c | d | e) & 128 != 0) == (c != 0) && ((a | b | c | d | e) & 2
            != 0) == (d != 0) && ((a | b | c | d | e) & 64 != 0) == (e != 0)) by (bit_vector)
            requires
                a == 0 || a == 8,
                b == 0 || b == 1,
                c == 0 || c == 128,
                d == 0 || d == 2,
                e == 0 || e == 64,
        ;
    }
}

impl Default for ParseOptions {
    /// No option set.
    fn default() -> (r: ParseOptions)
        ensures
            r == (ParseOptions {
                cache_completion_results: false,
                detailed_preprocessing_record: false,
                include_brief_comments_in_code_completion: false,
                incomplete: false,
                skip_function_bodies: false,
            }),
    {
        ParseOptions {
            cache_completion_results: false,
            detailed_preprocessing_record: false,
            include_brief_comments_in_code_completion: false,
            incomplete: false,
            skip_function_bodies: false,
        }
    }
}

/// Indicates which types of threads have background priority.
#[derive(Copy, Clone, Debug, PartialEq, Eq, Hash, Structural)]
pub struct BackgroundPriority {
    pub editing: bool,
    pub indexing: bool,
}

impl BackgroundPriority {
    /// The global option flags that encode this priority.
    pub open spec fn flags(self) -> u32 {
        flag_if(self.editing, BACKGROUND_PRIORITY_FOR_EDITING) | flag_if(
            self.indexing,
            BACKGROUND_PRIORITY_FOR_INDEXING,
        )
    }

    /// The priority that the global option flags `flags` encode.
    pub open spec fn of_flags(flags: u32) -> BackgroundPriority {
        BackgroundPriority {
            editing: has_flag(flags, BACKGROUND_PRIORITY_FOR_EDITING),
            indexing: has_flag(flags, BACKGROUND_PRIORITY_FOR_INDEXING),
        }
    }

    /// Decodes a set of global option flags.
    pub fn from_flags(flags: u32) -> (r: BackgroundPriority)
        ensures
            r == Self::of_flags(flags),
    {
        BackgroundPriority {
            editing: holds(flags, BACKGROUND_PRIORITY_FOR_EDITING),
            indexing: holds(flags, BACKGROUND_PRIORITY_FOR_INDEXING),
        }
    }

    /// Encodes this priority as global option flags.
    pub fn into_flags(self) -> (r: u32)
        ensures
            r == self.flags(),
    {
        let a: u32 = pick(self.editing, BACKGROUND_PRIORITY_FOR_EDITING);
        let b: u32 = pick(self.indexing, BACKGROUND_PRIORITY_FOR_INDEXING);
        a | b
    }

    /// Decoding the flags of a priority gives the same priority back.
    pub proof fn lemma_round_trip(self)
        ensures
            Self::of_flags(self.flags()) == self,
    {
        let a = flag_if(self.editing, BACKGROUND_PRIORITY_FOR_EDITING);
        let b = flag_if(self.indexing, BACKGROUND_PRIORITY_FOR_INDEXING);
        assert(((a | b) & 2 != 0) == (a != 0) && ((a | b) & 1 != 0) == (b != 0)) by (bit_vector)
            requires
                a == 0 || a == 2,
                b == 0 || b == 1,
        ;
    }
}

} // verus!
