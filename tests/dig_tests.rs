use fossil::config::Fossil;
use fossil::fossil::{bury_files, dig_files};

fn history(base: &str, later: &[(&str, Option<&str>)]) -> Vec<Fossil> {
    let mut fossils = vec![Fossil::new("/work/test.txt".to_string(), base.as_bytes().to_vec())];
    for (content, tag) in later {
        let results = bury_files(
            &mut fossils,
            &vec![content.as_bytes().to_vec()],
            tag.map(|t| t.to_string()),
        );
        assert_eq!(results[0], Ok(true));
    }
    fossils
}

#[test]
fn test_dig_by_version() {
    let mut fossils = history("v0", &[("v1", None), ("v2", None)]);
    let result = dig_files(&mut fossils, None, Some(1));
    assert!(result[0].is_ok());
    assert_eq!(result[0].as_ref().unwrap(), &b"v1".to_vec());
    assert_eq!(fossils[0].cur_version, 1);
}

#[test]
fn test_dig_by_tag() {
    let mut fossils = history("v0", &[("v1", Some("stable")), ("v2", None)]);
    let result = dig_files(&mut fossils, Some("stable".to_string()), None);
    assert!(result[0].is_ok());
    assert_eq!(result[0].as_ref().unwrap(), &b"v1".to_vec());
}

#[test]
fn test_dig_invalid_version() {
    let mut fossils = history("v0", &[]);
    let result = dig_files(&mut fossils, None, Some(5));
    assert!(result[0].is_err());
    assert!(result[0].as_ref().unwrap_err().message().contains("Version 5 does not exist"));
}

#[test]
fn test_dig_invalid_tag() {
    let mut fossils = history("v0", &[]);
    let result = dig_files(&mut fossils, Some("nonexistent".to_string()), None);
    assert!(result[0].is_err());
    assert!(result[0].as_ref().unwrap_err().message().contains("Tag 'nonexistent' not found"));
}

#[test]
fn test_dig_both_tag_and_version() {
    let mut fossils = history("v0", &[]);
    let result = dig_files(&mut fossils, Some("tag".to_string()), Some(0));
    assert!(result[0].is_err());
    assert!(result[0]
        .as_ref()
        .unwrap_err()
        .message()
        .contains("Cannot specify both tag and version"));
}

#[test]
fn test_dig_neither_tag_nor_version() {
    let mut fossils = history("v0", &[]);
    let result = dig_files(&mut fossils, None, None);
    assert!(result[0].is_err());
    assert!(result[0]
        .as_ref()
        .unwrap_err()
        .message()
        .contains("Must specify either tag or version"));
}

#[test]
fn test_dig_untracked_file() {
    let mut fossils: Vec<Fossil> = Vec::new();
    let result = dig_files(&mut fossils, None, Some(1));
    assert!(result.is_empty());
}

#[test]
fn test_dig_to_base_version() {
    let mut fossils = history("base", &[("modified", None)]);
    let result = dig_files(&mut fossils, None, Some(0));
    assert!(result[0].is_ok());
    assert_eq!(String::from_utf8(result[0].clone().unwrap()).unwrap(), "base");
}
