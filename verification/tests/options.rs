use clang::options::{BackgroundPriority, FormatOptions, ParseOptions};

#[test]
fn format_default_is_location_column_option() {
    let options = FormatOptions::default();
    assert_eq!(
        options,
        FormatOptions {
            display_source_location: true,
            display_column: true,
            display_source_ranges: false,
            display_option: true,
            display_category_id: false,
            display_category_name: false,
        }
    );
    assert_eq!(options.into_flags(), 11);
}

#[test]
fn format_flags_of_each_option() {
    let none = FormatOptions {
        display_source_location: false,
        display_column: false,
        display_source_ranges: false,
        display_option: false,
        display_category_id: false,
        display_category_name: false,
    };
    assert_eq!(none.into_flags(), 0);
    assert_eq!(FormatOptions { display_source_location: true, ..none }.into_flags(), 1);
    assert_eq!(FormatOptions { display_column: true, ..none }.into_flags(), 2);
    assert_eq!(FormatOptions { display_source_ranges: true, ..none }.into_flags(), 4);
    assert_eq!(FormatOptions { display_option: true, ..none }.into_flags(), 8);
    assert_eq!(FormatOptions { display_category_id: true, ..none }.into_flags(), 16);
    assert_eq!(FormatOptions { display_category_name: true, ..none }.into_flags(), 32);
}

#[test]
fn format_flags_round_trip() {
    for flags in 0u32..64 {
        assert_eq!(FormatOptions::from_flags(flags).into_flags(), flags);
    }
}

#[test]
fn format_ignores_other_bits() {
    assert_eq!(FormatOptions::from_flags(64 | 5), FormatOptions::from_flags(5));
    assert_eq!(FormatOptions::from_flags(0xffff_ff00).into_flags(), 0);
}

#[test]
fn parse_default_sets_nothing() {
    assert_eq!(ParseOptions::default().into_flags(), 0);
}

#[test]
fn parse_flags_of_each_option() {
    let none = ParseOptions::default();
    assert_eq!(ParseOptions { detailed_preprocessing_record: true, ..none }.into_flags(), 1);
    assert_eq!(ParseOptions { incomplete: true, ..none }.into_flags(), 2);
    assert_eq!(ParseOptions { cache_completion_results: true, ..none }.into_flags(), 8);
    assert_eq!(ParseOptions { skip_function_bodies: true, ..none }.into_flags(), 64);
    assert_eq!(
        ParseOptions { include_brief_comments_in_code_completion: true, ..none }.into_flags(),
        128
    );
}

#[test]
fn parse_flags_round_trip() {
    let all = ParseOptions {
        cache_completion_results: true,
        detailed_preprocessing_record: true,
        include_brief_comments_in_code_completion: true,
        incomplete: true,
        skip_function_bodies: true,
    };
    assert_eq!(all.into_flags(), 1 | 2 | 8 | 64 | 128);
    assert_eq!(ParseOptions::from_flags(all.into_flags()), all);
    assert_eq!(ParseOptions::from_flags(4 | 16 | 32), ParseOptions::default());
}

#[test]
fn background_priority_flags() {
    let none = BackgroundPriority { editing: false, indexing: false };
    assert_eq!(none.into_flags(), 0);
    assert_eq!(BackgroundPriority { editing: false, indexing: true }.into_flags(), 1);
    assert_eq!(BackgroundPriority { editing: true, indexing: false }.into_flags(), 2);
    assert_eq!(BackgroundPriority { editing: true, indexing: true }.into_flags(), 3);
    assert_eq!(
        BackgroundPriority::from_flags(3),
        BackgroundPriority { editing: true, indexing: true }
    );
    assert_eq!(BackgroundPriority::from_flags(4), none);
}
