use threadbound::probe::{check_directory_exists, default_messages_answer, join_path, messages_db_path};

/// A regular file present on Linux and macOS alike.
const REGULAR_FILE: &str = "/etc/hosts";

#[test]
fn messages_answer_absent_without_home() {
    assert_eq!(default_messages_answer(None, true), None);
    assert_eq!(default_messages_answer(None, false), None);
}

#[test]
fn messages_answer_absent_without_file() {
    assert_eq!(default_messages_answer(Some("/Users/ada".to_string()), false), None);
}

#[test]
fn messages_answer_exact_path_with_file() {
    assert_eq!(
        default_messages_answer(Some("/Users/ada".to_string()), true),
        Some("/Users/ada/Library/Messages/chat.db".to_string())
    );
}

#[test]
fn messages_path_below_home() {
    assert_eq!(messages_db_path("/home/ada"), "/home/ada/Library/Messages/chat.db");
    assert_eq!(messages_db_path("/home/ada/"), "/home/ada/Library/Messages/chat.db");
    assert_eq!(messages_db_path("/"), "/Library/Messages/chat.db");
}

#[test]
fn join_adds_one_separator() {
    assert_eq!(join_path("a", "b"), "a/b");
    assert_eq!(join_path("a/", "b"), "a/b");
    assert_eq!(join_path("", "b"), "b");
}

#[test]
fn directory_probe_distinguishes_files() {
    assert!(check_directory_exists("/".to_string()));
    assert!(std::path::Path::new(REGULAR_FILE).is_file());
    assert!(!check_directory_exists(REGULAR_FILE.to_string()));
    assert!(!check_directory_exists("/definitely/missing/xyz".to_string()));
    assert!(!check_directory_exists("".to_string()));
}
