use juli::text::{push_decimal, push_digits, remove_occurrences, same_text, strip_code_fences};

#[test]
fn strips_tagged_and_plain_fences() {
    let raw = "```json\n{\"reminders\": [], \"reasoning\": \"none\"}\n```";
    assert_eq!(strip_code_fences(raw), "\n{\"reminders\": [], \"reasoning\": \"none\"}\n");
}

#[test]
fn strip_leaves_unfenced_text_alone() {
    let raw = "{\"reminders\": [], \"reasoning\": \"ok\"}";
    assert_eq!(strip_code_fences(raw), raw);
}

#[test]
fn strip_removes_fences_anywhere() {
    assert_eq!(strip_code_fences("a```b```json c``"), "ab c``");
    assert_eq!(strip_code_fences("``````"), "");
    assert_eq!(strip_code_fences(""), "");
}

#[test]
fn removal_skips_over_each_match() {
    assert_eq!(remove_occurrences("aaaa", "aa"), "");
    assert_eq!(remove_occurrences("aaa", "aa"), "a");
    assert_eq!(remove_occurrences("xaayaaz", "aa"), "xyz");
    assert_eq!(remove_occurrences("héllo wörld", "ö"), "héllo wrld");
    assert_eq!(remove_occurrences("abc", ""), "abc");
}

#[test]
fn decimal_writing() {
    let mut s = String::from("id ");
    push_decimal(&mut s, 0);
    assert_eq!(s, "id 0");
    let mut s = String::new();
    push_decimal(&mut s, -42);
    assert_eq!(s, "-42");
    let mut s = String::new();
    push_decimal(&mut s, i64::MIN);
    assert_eq!(s, "-9223372036854775808");
    let mut s = String::new();
    push_decimal(&mut s, i64::MAX);
    assert_eq!(s, "9223372036854775807");
    let mut s = String::new();
    push_digits(&mut s, 1070);
    assert_eq!(s, "1070");
}

#[test]
fn text_comparison() {
    assert!(same_text("CREATE", "CREATE"));
    assert!(!same_text("CREATE", "create"));
    assert!(!same_text("CREATE", "CREATED"));
    assert!(same_text("", ""));
}
