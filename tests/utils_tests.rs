use fossil::utils;

#[test]
fn test_hash_content() {
    let content = b"test content";
    let hash = utils::hash_content(content);

    assert!(!hash.is_empty());
    assert_eq!(hash.len(), 16);
}

#[test]
fn test_hash_path() {
    let hash = utils::hash_path("test.txt");

    assert!(!hash.is_empty());
}

#[test]
fn hashes_are_deterministic_and_distinct() {
    assert_eq!(utils::hash_content(b"abc"), utils::hash_content(b"abc"));
    assert_ne!(utils::hash_content(b"abc"), utils::hash_content(b"abd"));
    assert_eq!(utils::hash_path("/tmp/a.txt"), utils::hash_path("/tmp/a.txt"));
    assert_ne!(utils::hash_path("/tmp/a.txt"), utils::hash_path("/tmp/b.txt"));
    let h = utils::hash_content(b"");
    assert!(h.chars().all(|c| c.is_ascii_hexdigit() && !c.is_ascii_uppercase()));
}

#[test]
fn hex_string_formats_lowercase_without_leading_zeros() {
    assert_eq!(utils::hex_string(0), "0");
    assert_eq!(utils::hex_string(255), "ff");
    assert_eq!(utils::hex_string(4096), "1000");
    assert_eq!(utils::hex_string(u64::MAX), "ffffffffffffffff");
}

#[test]
fn push_decimal_appends_digits() {
    let mut s = String::from("v");
    utils::push_decimal(&mut s, 0);
    utils::push_decimal(&mut s, 1234);
    assert_eq!(s, "v01234");
}

#[test]
fn glob_patterns_are_recognised() {
    assert!(utils::is_glob_pattern("*.txt"));
    assert!(utils::is_glob_pattern("file?.rs"));
    assert!(!utils::is_glob_pattern("plain.txt"));
    assert!(!utils::is_glob_pattern(""));
}

#[test]
fn paths_to_hashes_hashes_each_path_in_order() {
    let paths = vec!["/a".to_string(), "/b".to_string()];
    let hashes = utils::paths_to_hashes(&paths);
    assert_eq!(hashes.len(), 2);
    assert_eq!(hashes[0], utils::hash_path("/a"));
    assert_eq!(hashes[1], utils::hash_path("/b"));
}

#[test]
fn decimal_parsing_reads_digits_and_detects_overflow() {
    assert!(utils::all_digits("0123"));
    assert!(!utils::all_digits("12a"));
    assert_eq!(utils::parse_decimal("0"), Some(0));
    assert_eq!(utils::parse_decimal("42"), Some(42));
    assert_eq!(utils::parse_decimal("18446744073709551615"), Some(usize::MAX));
    assert_eq!(utils::parse_decimal("18446744073709551616"), None);
}

#[test]
fn bytes_equal_compares_contents() {
    assert!(utils::bytes_equal(b"abc", b"abc"));
    assert!(!utils::bytes_equal(b"abc", b"abd"));
    assert!(!utils::bytes_equal(b"abc", b"ab"));
    assert!(utils::bytes_equal(b"", b""));
}
