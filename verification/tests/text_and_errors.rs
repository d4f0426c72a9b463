use icn_node::error::NodeError;
use icn_node::text::{
    chars_of, contains, count_marked_lines, decimal, ends_with, join_path, matches_at, same_text,
    starts_with, text_le,
};

fn cs(s: &str) -> Vec<char> {
    s.chars().collect()
}

#[test]
fn characters_of_a_string() {
    assert_eq!(chars_of("a_b"), vec!['a', '_', 'b']);
    assert_eq!(chars_of("héllo").len(), 5);
    assert!(chars_of("").is_empty());
}

#[test]
fn prefixes_suffixes_and_substrings() {
    assert!(starts_with(&cs("proposal_1"), &cs("proposal_")));
    assert!(!starts_with(&cs("proposal"), &cs("proposal_")));
    assert!(starts_with(&cs("abc"), &cs("")));
    assert!(ends_with(&cs("a.dsl"), &cs(".dsl")));
    assert!(!ends_with(&cs("dsl"), &cs(".dsl")));
    assert!(ends_with(&cs(""), &cs("")));
    assert!(matches_at(&cs("abcd"), &cs("bc"), 1));
    assert!(!matches_at(&cs("abcd"), &cs("bc"), 2));
    assert!(!matches_at(&cs("abcd"), &cs("d"), 4));
    assert!(matches_at(&cs("abcd"), &cs(""), 4));
    assert!(!matches_at(&cs("abcd"), &cs(""), 5));
    assert!(contains(&cs("hello world"), &cs("o w")));
    assert!(contains(&cs("hello"), &cs("hello")));
    assert!(contains(&cs("hello"), &cs("")));
    assert!(contains(&cs(""), &cs("")));
    assert!(!contains(&cs("hello"), &cs("hello!")));
    assert!(!contains(&cs("aab"), &cs("abb")));
    assert!(contains(&cs("aaab"), &cs("aab")));
}

#[test]
fn dictionary_order() {
    assert!(text_le(&cs(""), &cs("")));
    assert!(text_le(&cs(""), &cs("a")));
    assert!(!text_le(&cs("a"), &cs("")));
    assert!(text_le(&cs("1"), &cs("10")));
    assert!(text_le(&cs("10"), &cs("2")));
    assert!(!text_le(&cs("2"), &cs("10")));
    assert!(text_le(&cs("abc"), &cs("abc")));
    assert!(text_le(&cs("abc"), &cs("abd")));
    assert!(!text_le(&cs("abd"), &cs("abc")));
    for (a, b) in [("a", "b"), ("Z", "a"), ("é", "z"), ("x", "x1")] {
        assert_eq!(text_le(&cs(a), &cs(b)), a <= b);
        assert_eq!(text_le(&cs(b), &cs(a)), b <= a);
    }
}

#[test]
fn texts_are_compared_by_content() {
    assert!(same_text("abc", "abc"));
    assert!(!same_text("abc", "abd"));
    assert!(!same_text("abc", "ab"));
    assert!(same_text("", ""));
}

#[test]
fn joining_paths() {
    assert_eq!(join_path("/a", "b"), "/a/b");
    assert_eq!(join_path("/a/", "b"), "/a/b");
    assert_eq!(join_path("", "b"), "b");
    assert_eq!(join_path("/a", "/b"), "/b");
    assert_eq!(join_path("/a", ""), "/a/");
    assert_eq!(join_path("/", "b"), "/b");
    for (base, name) in [("/a", "b"), ("/a/", "b"), ("", "b"), ("/a", "/b"), ("/a", ""), ("x", "y/z")]
    {
        let expected = std::path::Path::new(base).join(name);
        assert_eq!(join_path(base, name), expected.to_str().unwrap());
    }
}

#[test]
fn lines_that_hold_a_marker() {
    assert_eq!(count_marked_lines(&cs("ab\nxab\nb"), &cs("ab")), 2);
    assert_eq!(count_marked_lines(&cs("a\nb"), &cs("a\nb")), 0);
    assert_eq!(count_marked_lines(&cs("abab"), &cs("ab")), 1);
    assert_eq!(count_marked_lines(&cs(""), &cs("")), 0);
    assert_eq!(count_marked_lines(&cs("\n\n"), &cs("")), 2);
    assert_eq!(count_marked_lines(&cs("x"), &cs("")), 1);
}

#[test]
fn numbers_in_decimal() {
    for n in [0, 1, 9, 10, 11, 99, 100, 12345, -1, -10, -12345, i32::MAX, i32::MIN] {
        assert_eq!(decimal(n), n.to_string());
    }
}

#[test]
fn every_error_has_its_line() {
    let m = || "m".to_string();
    assert_eq!(NodeError::Io(m()).message(), "IO error: m");
    assert_eq!(NodeError::Json(m()).message(), "JSON error: m");
    assert_eq!(NodeError::Http(m()).message(), "HTTP error: m");
    assert_eq!(NodeError::State(m()).message(), "State error: m");
    assert_eq!(NodeError::Queue(m()).message(), "Queue error: m");
    assert_eq!(NodeError::Execution(m()).message(), "Execution error: m");
    assert_eq!(NodeError::Dag(m()).message(), "DAG error: m");
    assert_eq!(NodeError::Federation(m()).message(), "Federation error: m");
    assert_eq!(NodeError::Validation(m()).message(), "Validation error: m");
    assert_eq!(NodeError::Config(m()).message(), "Configuration error: m");
    assert_eq!(
        NodeError::ShellCommand { message: m(), code: -1 }.message(),
        "Shell command error: m, code: -1"
    );
    assert_eq!(
        NodeError::ShellCommand { message: String::new(), code: 127 }.message(),
        "Shell command error: , code: 127"
    );
}
