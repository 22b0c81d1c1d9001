use aigcw::text::{concat3, same_text, starts_with, tail_from};

#[test]
fn same_text_compares_every_character() {
    assert!(same_text("", ""));
    assert!(same_text("commit", "commit"));
    assert!(!same_text("commit", "commis"));
    assert!(!same_text("commit", "commi"));
    assert!(!same_text("", "x"));
    assert!(same_text("✨ 修复", "✨ 修复"));
    assert!(!same_text("✨ 修复", "✨ 修正"));
}

#[test]
fn starts_with_finds_prefixes_only() {
    assert!(starts_with("-mfoo", "-m"));
    assert!(starts_with("-m", "-m"));
    assert!(starts_with("anything", ""));
    assert!(!starts_with("-", "-m"));
    assert!(!starts_with("x-m", "-m"));
    assert!(starts_with("--message=", "--message="));
    assert!(!starts_with("--message", "--message="));
    assert!(starts_with("修复bug", "修复"));
}

#[test]
fn tail_from_counts_characters() {
    assert_eq!(tail_from("-mfoo", 2), "foo");
    assert_eq!(tail_from("-m", 2), "");
    assert_eq!(tail_from("abc", 0), "abc");
    assert_eq!(tail_from("修复bug", 1), "复bug");
    assert_eq!(tail_from("-m✨x", 3), "x");
}

#[test]
fn concat3_joins_in_order() {
    assert_eq!(concat3("a", "b", "c"), "abc");
    assert_eq!(concat3("feat", ": ", "✨"), "feat: ✨");
    assert_eq!(concat3("", "", ""), "");
    assert_eq!(concat3("x", "", "y"), "xy");
}
