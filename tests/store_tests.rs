use fossil::config::Fossil;
use fossil::fossil::{track_fossil, untrack_fossil};
use fossil::store::FossilDb;

fn temporary_db() -> FossilDb {
    let db = sled::Config::new().temporary(true).open().unwrap();
    FossilDb::from_db(db)
}

#[test]
fn fresh_store_is_empty() {
    let db = temporary_db();
    assert!(db.get_all_fossils().unwrap().is_empty());
    assert_eq!(db.get_fossil_by_path("/work/a.txt").unwrap(), None);
}

#[test]
fn records_are_stored_under_their_key() {
    let mut db = temporary_db();
    let f = Fossil::new("/work/a.txt".to_string(), b"hello".to_vec());
    let key = f.hash().unwrap();
    assert_eq!(db.get_fossil(&key).unwrap(), None);
    db.create_fossil(&f, b"record one".to_vec()).unwrap();
    assert_eq!(db.get_fossil(&key).unwrap(), Some(b"record one".to_vec()));
    db.update_fossil(&f, b"record two".to_vec()).unwrap();
    assert_eq!(db.get_fossil(&key).unwrap(), Some(b"record two".to_vec()));
    assert_eq!(db.get_all_fossils().unwrap(), vec![b"record two".to_vec()]);
    db.delete_fossil(&key).unwrap();
    assert_eq!(db.get_fossil(&key).unwrap(), None);
    db.delete_fossil(&key).unwrap();
    assert!(db.get_all_fossils().unwrap().is_empty());
}

#[test]
fn lookup_by_path_uses_the_path_prefix() {
    let mut db = temporary_db();
    let a = Fossil::new("/work/a.txt".to_string(), b"a".to_vec());
    let b = Fossil::new("/work/b.txt".to_string(), b"b".to_vec());
    db.create_fossil(&a, b"A".to_vec()).unwrap();
    db.create_fossil(&b, b"B".to_vec()).unwrap();
    assert_eq!(db.get_fossil_by_path("/work/a.txt").unwrap(), Some(b"A".to_vec()));
    assert_eq!(db.get_fossil_by_path("/work/b.txt").unwrap(), Some(b"B".to_vec()));
    assert_eq!(db.get_fossil_by_path("/work/c.txt").unwrap(), None);
    let mut all = db.get_all_fossils().unwrap();
    all.sort();
    assert_eq!(all, vec![b"A".to_vec(), b"B".to_vec()]);
}

#[test]
fn tracking_twice_keeps_one_record_and_its_base() {
    let mut db = temporary_db();
    let first = Fossil::new("/work/a.txt".to_string(), b"hello".to_vec());
    assert_eq!(track_fossil(&mut db, &first, b"first".to_vec()), Ok(true));
    let second = Fossil::new("/work/a.txt".to_string(), b"changed".to_vec());
    assert_eq!(track_fossil(&mut db, &second, b"second".to_vec()), Ok(false));
    assert_eq!(db.get_all_fossils().unwrap(), vec![b"first".to_vec()]);
    assert_eq!(db.get_fossil_by_path("/work/a.txt").unwrap(), Some(b"first".to_vec()));
}

#[test]
fn untracking_removes_the_record() {
    let mut db = temporary_db();
    let f = Fossil::new("/work/a.txt".to_string(), b"hello".to_vec());
    track_fossil(&mut db, &f, b"rec".to_vec()).unwrap();
    untrack_fossil(&mut db, &f).unwrap();
    assert_eq!(db.get_fossil_by_path("/work/a.txt").unwrap(), None);
    untrack_fossil(&mut db, &f).unwrap();
}

#[test]
fn test_fossil_version_lifecycle() {
    let mut db = temporary_db();
    let mut fossil = Fossil::new("/work/test_file.txt".to_string(), b"initial content".to_vec());
    db.create_fossil(&fossil, b"stored".to_vec()).unwrap();

    fossil.update(None, b"modified content v1").unwrap();
    db.update_fossil(&fossil, b"stored v1".to_vec()).unwrap();

    fossil.update(None, b"modified content v2").unwrap();
    db.update_fossil(&fossil, b"stored v2".to_vec()).unwrap();

    let key = fossil.hash().unwrap();
    assert_eq!(db.get_fossil(&key).unwrap(), Some(b"stored v2".to_vec()));

    assert_eq!(fossil.get_version_content(0).unwrap(), b"initial content");
    assert_eq!(fossil.get_version_content(1).unwrap(), b"modified content v1");
    assert_eq!(fossil.get_version_content(2).unwrap(), b"modified content v2");
    assert_eq!(fossil.versions.len(), 2);
}
