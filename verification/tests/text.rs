use s3_manager::greet;
use s3_manager::utils::text::{chars_of, contains, decimal, join};

#[test]
fn decimal_writes_numerals() {
    assert_eq!(decimal(0), "0");
    assert_eq!(decimal(7), "7");
    assert_eq!(decimal(10), "10");
    assert_eq!(decimal(1024), "1024");
    assert_eq!(decimal(9_000_001), "9000001");
    assert_eq!(decimal(u64::MAX), "18446744073709551615");
}

#[test]
fn chars_of_keeps_every_character() {
    assert_eq!(chars_of(""), Vec::<char>::new());
    assert_eq!(chars_of("a.b"), vec!['a', '.', 'b']);
    assert_eq!(chars_of("上传✓"), vec!['上', '传', '✓']);
}

#[test]
fn contains_finds_runs_of_characters() {
    assert!(contains("no credentials here", "credentials"));
    assert!(contains("credentials", "credentials"));
    assert!(contains("xxregion", "region"));
    assert!(contains("anything", ""));
    assert!(contains("", ""));
    assert!(!contains("", "a"));
    assert!(!contains("Credentials", "credentials"));
    assert!(!contains("regio", "region"));
    assert!(!contains("r e g i o n", "region"));
    assert!(contains("aab", "ab"));
    assert!(contains("失败: host", "host"));
}

#[test]
fn join_puts_the_separator_between_neighbours() {
    let none: Vec<String> = vec![];
    assert_eq!(join(&none, ", "), "");
    assert_eq!(join(&vec!["a".to_string()], ", "), "a");
    assert_eq!(
        join(&vec!["a".to_string(), "b".to_string(), "c".to_string()], ", "),
        "a, b, c"
    );
    assert_eq!(join(&vec!["".to_string(), "".to_string()], "-"), "-");
}

#[test]
fn greet_formats_the_greeting() {
    assert_eq!(greet("Ada"), "Hello, Ada! You've been greeted from Rust!");
    assert_eq!(greet(""), "Hello, ! You've been greeted from Rust!");
}
