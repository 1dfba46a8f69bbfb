use home_mixer::text::{contains_text, same_text, to_lowercase};
use home_mixer::util::{placeholder, short_type_name};

#[test]
fn short_names_are_the_last_path_component() {
    assert_eq!(short_type_name("home_mixer::scorers::WeightedScorer"), "WeightedScorer");
    assert_eq!(short_type_name("Plain"), "Plain");
    assert_eq!(short_type_name("trailing::"), "");
    assert_eq!(short_type_name("a:b::c:d"), "c:d");
    assert_eq!(short_type_name(""), "");
    placeholder();
}

#[test]
fn text_helpers() {
    assert_eq!(to_lowercase("MiXeD ÄB"), "mixed äb");
    assert!(contains_text("hello world", "o w"));
    assert!(!contains_text("hello", "hello!"));
    assert!(contains_text("abc", ""));
    assert!(same_text("abc", "abc"));
    assert!(!same_text("abc", "abd"));
}
