use jira_cli::page_helpers::get_column_string;

#[test]
fn exact_width_is_kept() {
    assert_eq!(get_column_string("abc", 3), "abc");
    assert_eq!(get_column_string("", 0), "");
}

#[test]
fn short_text_is_padded() {
    assert_eq!(get_column_string("abc", 6), "abc   ");
    assert_eq!(get_column_string("", 2), "  ");
}

#[test]
fn narrow_columns_are_dots() {
    assert_eq!(get_column_string("abcdef", 0), "");
    assert_eq!(get_column_string("abcdef", 1), ".");
    assert_eq!(get_column_string("abcdef", 2), "..");
    assert_eq!(get_column_string("abcdef", 3), "...");
}

#[test]
fn long_text_is_ellipsed() {
    assert_eq!(get_column_string("Hello, World!", 8), "Hello...");
    assert_eq!(get_column_string("abcdefgh", 5), "ab...");
}
