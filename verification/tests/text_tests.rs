use covax::text::{
    contains_char, contains_sub, dash_join_strings, dash_join_u64, find_sub, index_of_char,
    rindex_of_char, str_eq, u64_to_string, vec_contains_u64,
};

#[test]
fn renders_zero() {
    assert_eq!(u64_to_string(0), "0");
}

#[test]
fn renders_a_long_number() {
    assert_eq!(u64_to_string(1234567890), "1234567890");
    assert_eq!(u64_to_string(u64::MAX), "18446744073709551615");
}

#[test]
fn joins_identifiers_with_dashes() {
    assert_eq!(dash_join_u64(&vec![1, 22, 333]), "1-22-333");
    assert_eq!(dash_join_u64(&vec![7]), "7");
    assert_eq!(dash_join_u64(&vec![]), "");
}

#[test]
fn joins_strings_with_dashes() {
    assert_eq!(dash_join_strings(&vec!["5".to_string(), "8".to_string()]), "5-8");
    assert_eq!(dash_join_strings(&vec![]), "");
}

#[test]
fn finds_characters_and_substrings() {
    assert!(contains_char("agenda", 'g'));
    assert!(!contains_char("agenda", 'z'));
    assert!(contains_sub("vaccination pfizer", "pfizer"));
    assert!(!contains_sub("vaccination", "pfizer"));
    assert!(contains_sub("anything", ""));
}

#[test]
fn index_helpers_agree_with_positions() {
    assert_eq!(index_of_char("a/b/c", '/', 0, 5), Some(1));
    assert_eq!(index_of_char("a/b/c", '/', 2, 5), Some(3));
    assert_eq!(index_of_char("a/b/c", '?', 0, 5), None);
    assert_eq!(rindex_of_char("a/b/c", '/', 0, 5), Some(3));
    assert_eq!(find_sub("https://x/y", "://"), Some(5));
    assert_eq!(find_sub("no scheme", "://"), None);
}

#[test]
fn string_equality_is_by_characters() {
    assert!(str_eq("pid", "pid"));
    assert!(!str_eq("pid", "pidd"));
    assert!(!str_eq("pid", "pig"));
}

#[test]
fn vec_membership() {
    assert!(vec_contains_u64(&vec![4, 5, 6], 5));
    assert!(!vec_contains_u64(&vec![4, 5, 6], 7));
}
