use crawl::cache::{cache_key, is_in_scope};

#[test]
fn key_strips_base() {
    assert_eq!(
        cache_key("http://x/a/b.html", "http://x/"),
        Some(String::from("a/b.html"))
    );
}

#[test]
fn key_of_base_itself_is_empty() {
    assert_eq!(cache_key("http://x/", "http://x/"), Some(String::new()));
}

#[test]
fn key_outside_base_is_none() {
    assert_eq!(cache_key("http://y/a/b.html", "http://x/"), None);
    assert_eq!(cache_key("http://x", "http://x/"), None);
    assert_eq!(cache_key("", "http://x/"), None);
}

#[test]
fn key_keeps_non_ascii_text() {
    assert_eq!(
        cache_key("http://x/dé/ü.html", "http://x/"),
        Some(String::from("dé/ü.html"))
    );
    assert_eq!(
        cache_key("http://é/page", "http://é/"),
        Some(String::from("page"))
    );
}

#[test]
fn scope_is_a_prefix_test() {
    assert!(is_in_scope("https://doc.rust-lang.org/book/ch01.html", "https://doc.rust-lang.org/book/"));
    assert!(is_in_scope("abc", ""));
    assert!(!is_in_scope("https://doc.rust-lang.org/std/", "https://doc.rust-lang.org/book/"));
    assert!(!is_in_scope("http://x/é", "http://x/e"));
}
