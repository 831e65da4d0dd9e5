use plato_opds::path::{join, strip_root};
use plato_opds::text::{chars_of, contains, decimal, same, signed_decimal, starts_with, strip_prefix};

#[test]
fn decimal_numerals() {
    assert_eq!(decimal(0), "0");
    assert_eq!(decimal(7), "7");
    assert_eq!(decimal(10), "10");
    assert_eq!(decimal(1905), "1905");
    assert_eq!(decimal(u64::MAX), "18446744073709551615");
}

#[test]
fn signed_numerals() {
    assert_eq!(signed_decimal(1965), "1965");
    assert_eq!(signed_decimal(0), "0");
    assert_eq!(signed_decimal(-44), "-44");
    assert_eq!(signed_decimal(i64::MIN), "-9223372036854775808");
}

#[test]
fn comparison_and_prefixes() {
    assert!(same("next", "next"));
    assert!(!same("next", "nexT"));
    assert!(!same("next", "nex"));
    assert!(same("", ""));
    assert!(starts_with("urn:uuid:abc", "urn:uuid:"));
    assert!(!starts_with("urn:isbn:abc", "urn:uuid:"));
    assert!(starts_with("anything", ""));
    assert_eq!(strip_prefix("urn:uuid:abc", "urn:uuid:"), Some("abc"));
    assert_eq!(strip_prefix("urn:uuid:", "urn:uuid:"), Some(""));
    assert_eq!(strip_prefix("urn:uui", "urn:uuid:"), None);
    assert_eq!(strip_prefix("ürn:ä", "ürn:"), Some("ä"));
}

#[test]
fn substring_search() {
    assert!(contains("http://host/readbooks/opds", "/readbooks"));
    assert!(contains("/readbooks", "/readbooks"));
    assert!(!contains("http://host/read/books", "/readbooks"));
    assert!(!contains("/readbook", "/readbooks"));
    assert!(contains("abc", ""));
    assert_eq!(chars_of("añ"), vec!['a', 'ñ']);
}

#[test]
fn joining_paths() {
    assert_eq!(join("/mnt/onboard", "Books"), "/mnt/onboard/Books");
    assert_eq!(join("/mnt/onboard/", "Books"), "/mnt/onboard/Books");
    assert_eq!(join("", "Books"), "Books");
    assert_eq!(join("/mnt/onboard", "/elsewhere"), "/elsewhere");
    assert_eq!(join("save", ""), "save/");
}

#[test]
fn path_below_a_root() {
    assert_eq!(
        strip_root("/mnt/onboard/opds/Books/a.epub", "/mnt/onboard"),
        Some("opds/Books/a.epub".to_string())
    );
    assert_eq!(
        strip_root("/mnt/onboard/opds/a.epub", "/mnt/onboard/"),
        Some("opds/a.epub".to_string())
    );
    assert_eq!(strip_root("/mnt/onboard", "/mnt/onboard"), Some(String::new()));
    assert_eq!(strip_root("/mnt/onboard2/a.epub", "/mnt/onboard"), None);
    assert_eq!(strip_root("/mnt/a.epub", "/media"), None);
    assert_eq!(strip_root("/mnt", "/mnt/onboard"), None);
    assert_eq!(strip_root("lib//a.epub", "lib"), Some("a.epub".to_string()));
    assert_eq!(strip_root("a/b", ""), Some("a/b".to_string()));
    assert_eq!(strip_root("/a/b", ""), None);
}
