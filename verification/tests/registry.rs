use build_worker::checker::{repository_name, tag_present, QueryOutcome};
use build_worker::text::find_from;

#[test]
fn repository_name_is_the_text_after_the_separator() {
    assert_eq!(
        repository_name("123456789.dkr.ecr.us-east-1.amazonaws.com/api"),
        Some("api".to_string())
    );
    assert_eq!(
        repository_name("123456789.dkr.ecr.us-east-1.amazonaws.com/team/worker"),
        Some("team/worker".to_string())
    );
}

#[test]
fn repository_name_without_separator_is_refused() {
    assert_eq!(repository_name("localhost:5000/api"), None);
    assert_eq!(repository_name(""), None);
}

#[test]
fn repository_name_stops_at_a_second_separator() {
    assert_eq!(repository_name("host.com/repo.com/rest"), Some("repo".to_string()));
}

#[test]
fn tag_present_only_for_a_successful_query_with_images() {
    assert!(tag_present(&QueryOutcome::Described { has_images: true }));
    assert!(!tag_present(&QueryOutcome::Described { has_images: false }));
    assert!(!tag_present(&QueryOutcome::Failed));
}

#[test]
fn find_from_returns_the_first_occurrence_at_or_after_start() {
    assert_eq!(find_from("abcabc", "bc", 0), Some(1));
    assert_eq!(find_from("abcabc", "bc", 2), Some(4));
    assert_eq!(find_from("abcabc", "bc", 5), None);
    assert_eq!(find_from("abcabc", "zz", 0), None);
    assert_eq!(find_from("", "a", 0), None);
}
