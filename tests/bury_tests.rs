use fossil::config::Fossil;
use fossil::fossil::bury_files;

#[test]
fn test_bury_success() {
    let mut fossils = vec![Fossil::new("/work/test.txt".to_string(), b"initial content".to_vec())];
    let result = bury_files(&mut fossils, &vec![b"modified content".to_vec()], None);
    assert!(result[0].is_ok());
    assert_eq!(fossils[0].get_version_content(1), Ok(b"modified content".to_vec()));
}

#[test]
fn test_bury_with_tag() {
    let mut fossils = vec![Fossil::new("/work/test.txt".to_string(), b"initial content".to_vec())];
    let result = bury_files(
        &mut fossils,
        &vec![b"modified content".to_vec()],
        Some("v1.0".to_string()),
    );
    assert!(result[0].is_ok());
    assert_eq!(fossils[0].versions[0].tag, Some("v1.0".to_string()));
}

#[test]
fn test_bury_untracked_file() {
    let mut fossils: Vec<Fossil> = Vec::new();
    let result = bury_files(&mut fossils, &Vec::new(), None);
    assert!(result.is_empty());
}

#[test]
fn test_bury_multiple_files() {
    let mut fossils = vec![
        Fossil::new("/work/test1.txt".to_string(), b"content1".to_vec()),
        Fossil::new("/work/test2.txt".to_string(), b"content2".to_vec()),
    ];
    let contents = vec![b"modified1".to_vec(), b"modified2".to_vec()];
    let result = bury_files(&mut fossils, &contents, None);
    assert!(result.iter().all(|r| r.is_ok()));
    assert_eq!(fossils[0].get_version_content(1), Ok(b"modified1".to_vec()));
    assert_eq!(fossils[1].get_version_content(1), Ok(b"modified2".to_vec()));
}
