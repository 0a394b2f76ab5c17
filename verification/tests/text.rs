use hyper_sync::text::{contains, first_existing, join_path, owned, push_decimal, push_str, str_eq};

#[test]
fn joining_paths() {
    assert_eq!(join_path("/a", "b"), "/a/b");
    assert_eq!(join_path("/a/", "b"), "/a/b");
    assert_eq!(join_path("", "b"), "b");
    assert_eq!(join_path("/a", "/abs"), "/abs");
    assert_eq!(join_path("/a", ""), "/a/");
    for (base, rel) in [("/a", "b"), ("/a/", "b"), ("", "b"), ("/a", "/abs"), ("x", "y/z")] {
        assert_eq!(join_path(base, rel), std::path::Path::new(base).join(rel).to_str().unwrap());
    }
}

#[test]
fn string_helpers() {
    assert!(str_eq("abc", "abc"));
    assert!(!str_eq("abc", "abd"));
    assert!(contains("portal open cancelled", "cancelled"));
    assert!(!contains("cancel", "cancelled"));
    assert!(contains("x", ""));
    let mut s = owned("n=");
    push_decimal(&mut s, 0);
    push_str(&mut s, ",");
    push_decimal(&mut s, 4294967295);
    assert_eq!(s, "n=0,4294967295");
}

#[test]
fn first_existing_candidate() {
    let c = vec!["a".to_string(), "b".to_string()];
    assert_eq!(first_existing(&c, &vec![false, true], "z"), "b");
    assert_eq!(first_existing(&c, &vec![true, true], "z"), "a");
    assert_eq!(first_existing(&c, &vec![false, false], "z"), "z");
}
