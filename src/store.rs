use crate::config::Fossil;
use crate::error::FossilError;
use crate::utils::{hash_path, path_hash_text, push_str};
use vstd::prelude::*;
use vstd::utf8::encode_utf8;

verus! {

#[verifier::external_type_specification]
#[verifier::external_body]
pub struct ExDb(sled::Db);

#[verifier::external_type_specification]
#[verifier::external_body]
pub struct ExSledError(sled::Error);

/// The key-value pairs that an embedded store holds.
pub uninterp spec fn db_entries(db: sled::Db) -> Map<Seq<u8>, Seq<u8>>;

/// Relies on `sled::open`: opens, or creates, the store kept under `path`;
/// what it holds is whatever earlier runs left there.
#[verifier::external_body]
fn open_db(path: &str) -> (r: Result<sled::Db, sled::Error>) {
    sled::open(path)
}

/// Relies on `sled::Tree::insert`: on success the key maps to the value and
/// every other key keeps its value.
#[verifier::external_body]
fn db_insert(db: &mut sled::Db, key: &[u8], value: Vec<u8>) -> (r: Result<(), sled::Error>)
    ensures
        r is Ok ==> db_entries(*final(db)) == db_entries(*old(db)).insert(key@, value@),
{
    db.insert(key, value).map(|_| ())
}

/// Relies on `sled::Tree::remove`: on success the key is gone, whether or not
/// it was there, and every other key keeps its value.
#[verifier::external_body]
fn db_remove(db: &mut sled::Db, key: &[u8]) -> (r: Result<(), sled::Error>)
    ensures
        r is Ok ==> db_entries(*final(db)) == db_entries(*old(db)).remove(key@),
{
    db.remove(key).map(|_| ())
}

/// Relies on `sled::Tree::flush`: writes what is buffered to disk; the pairs
/// held do not change.
#[verifier::external_body]
fn db_flush(db: &sled::Db) -> (r: Result<(), sled::Error>) {
    db.flush().map(|_| ())
}

/// Relies on `sled::Tree::get`: the value stored under the key, if any.
#[verifier::external_body]
fn db_get(db: &sled::Db, key: &[u8]) -> (r: Result<Option<Vec<u8>>, sled::Error>)
    ensures
        r is Ok ==> match r->Ok_0 {
            Some(v) => db_entries(*db).contains_key(key@) && db_entries(*db)[key@] == v@,
            None => !db_entries(*db).contains_key(key@),
        },
{
    db.get(key).map(|o| o.map(|v| v.to_vec()))
}

/// Relies on `sled::Tree::scan_prefix`: the first stored pair whose key starts
/// with `prefix`, or nothing when no key does.
#[verifier::external_body]
fn db_first_with_prefix(db: &sled::Db, prefix: &[u8]) -> (r: Result<
    Option<(Vec<u8>, Vec<u8>)>,
    sled::Error,
>)
    ensures
        r is Ok ==> match r->Ok_0 {
            Some(kv) => {
                &&& db_entries(*db).contains_key(kv.0@)
                &&& db_entries(*db)[kv.0@] == kv.1@
                &&& prefix@.is_prefix_of(kv.0@)
            },
            None => forall|k: Seq<u8>| #[trigger]
                db_entries(*db).contains_key(k) ==> !prefix@.is_prefix_of(k),
        },
{
    match db.scan_prefix(prefix).next() {
        None => Ok(None),
        Some(Ok((k, v))) => Ok(Some((k.to_vec(), v.to_vec()))),
        Some(Err(e)) => Err(e),
    }
}

/// Relies on `sled::Tree::iter`: every stored pair, each key once.
#[verifier::external_body]
fn db_all(db: &sled::Db) -> (r: Result<Vec<(Vec<u8>, Vec<u8>)>, sled::Error>)
    ensures
        r is Ok ==> lists_entries(pairs_view(r->Ok_0@), db_entries(*db)),
{
    db.iter().map(|item| item.map(|(k, v)| (k.to_vec(), v.to_vec()))).collect()
}

/// Pairs of byte buffers, seen through their views.
pub open spec fn pairs_view(pairs: Seq<(Vec<u8>, Vec<u8>)>) -> Seq<(Seq<u8>, Seq<u8>)> {
    pairs.map_values(|p: (Vec<u8>, Vec<u8>)| (p.0@, p.1@))
}

/// `pairs` lists the pairs of `m`, each key once.
pub open spec fn lists_entries(pairs: Seq<(Seq<u8>, Seq<u8>)>, m: Map<Seq<u8>, Seq<u8>>) -> bool {
    &&& forall|i: int|
        0 <= i < pairs.len() ==> m.contains_key(#[trigger] pairs[i].0) && m[pairs[i].0] == pairs[i].1
    &&& forall|i: int, j: int| 0 <= i < j < pairs.len() ==> #[trigger] pairs[i].0 != #[trigger] pairs[j].0
    &&& forall|k: Seq<u8>| #[trigger] m.contains_key(k) ==> exists|i: int| 0 <= i < pairs.len() && pairs[i].0 == k
}

/// The key prefix that every record of a path shares.
pub open spec fn path_prefix(path: Seq<char>) -> Seq<u8> {
    encode_utf8(path_hash_text(path) + seq![':'])
}

/// The storage key of a record, as bytes.
pub open spec fn record_key(f: Fossil) -> Seq<u8> {
    encode_utf8(f.key_text())
}

/// Whether `m` holds a record of the path.
pub open spec fn holds_path(m: Map<Seq<u8>, Seq<u8>>, path: Seq<char>) -> bool {
    exists|k: Seq<u8>| #[trigger] m.contains_key(k) && path_prefix(path).is_prefix_of(k)
}

/// Encoding a concatenation concatenates the encodings.
pub proof fn lemma_encode_utf8_concat(a: Seq<char>, b: Seq<char>)
    ensures
        encode_utf8(a + b) == encode_utf8(a) + encode_utf8(b),
    decreases a.len(),
{
    if a.len() > 0 {
        assert((a + b).drop_first() =~= a.drop_first() + b);
        lemma_encode_utf8_concat(a.drop_first(), b);
        assert(encode_utf8(a + b) =~= encode_utf8(a) + encode_utf8(b));
    } else {
        assert(a + b =~= b);
        assert(encode_utf8(a) =~= Seq::<u8>::empty());
        assert(encode_utf8(a + b) =~= encode_utf8(a) + encode_utf8(b));
    }
}

/// A record's key starts with its path's prefix.
pub proof fn lemma_record_key_has_path_prefix(f: Fossil)
    ensures
        path_prefix(f.path@).is_prefix_of(record_key(f)),
{
    let head = path_hash_text(f.path@) + seq![':'];
    let tail = crate::utils::content_hash_text(f.base_content@);
    assert(f.key_text() == head + tail);
    lemma_encode_utf8_concat(head, tail);
    assert(record_key(f).take(path_prefix(f.path@).len() as int) =~= path_prefix(f.path@));
}

/// The persistent store: one encoded record per tracked file, under the
/// record's key.
pub struct FossilDb {
    db: sled::Db,
}

fn store_error(e: sled::Error) -> (r: FossilError)
    ensures
        r is StoreError,
{
    FossilError::StoreError(e.to_string())
}

impl FossilDb {
    /// The key-value pairs held.
    pub closed spec fn entries(&self) -> Map<Seq<u8>, Seq<u8>> {
        db_entries(self.db)
    }

    /// Opens the store kept under `path`.
    pub fn new(path: &str) -> (r: Result<FossilDb, FossilError>)
        ensures
            r is Err ==> r->Err_0 is StoreError,
    {
        match open_db(path) {
            Ok(db) => Ok(FossilDb { db }),
            Err(e) => Err(store_error(e)),
        }
    }

    /// Wraps an open store.
    pub fn from_db(db: sled::Db) -> (r: FossilDb)
        ensures
            r.entries() == db_entries(db),
    {
        FossilDb { db }
    }

    /// Stores `encoded` under the key of `fossil`, replacing what was there,
    /// and makes it durable.
    pub fn create_fossil(&mut self, fossil: &Fossil, encoded: Vec<u8>) -> (r: Result<(), FossilError>)
        ensures
            r is Ok ==> final(self).entries() == old(self).entries().insert(record_key(*fossil), encoded@),
            r is Err ==> r->Err_0 is StoreError,
    {
        let key = match fossil.hash() {
            Ok(k) => k,
            Err(e) => {
                return Err(e);
            },
        };
        match db_insert(&mut self.db, key.as_str().as_bytes(), encoded) {
            Ok(()) => {},
            Err(e) => {
                return Err(store_error(e));
            },
        }
        match db_flush(&self.db) {
            Ok(()) => Ok(()),
            Err(e) => Err(store_error(e)),
        }
    }

    /// The same as `create_fossil`: stores the record under its key.
    pub fn update_fossil(&mut self, fossil: &Fossil, encoded: Vec<u8>) -> (r: Result<(), FossilError>)
        ensures
            r is Ok ==> final(self).entries() == old(self).entries().insert(record_key(*fossil), encoded@),
            r is Err ==> r->Err_0 is StoreError,
    {
        self.create_fossil(fossil, encoded)
    }

    /// The encoded record stored under `key`, if any.
    pub fn get_fossil(&self, key: &str) -> (r: Result<Option<Vec<u8>>, FossilError>)
        ensures
            r is Ok ==> match r->Ok_0 {
                Some(v) => self.entries().contains_key(encode_utf8(key@))
                    && self.entries()[encode_utf8(key@)] == v@,
                None => !self.entries().contains_key(encode_utf8(key@)),
            },
            r is Err ==> r->Err_0 is StoreError,
    {
        match db_get(&self.db, key.as_bytes()) {
            Ok(o) => Ok(o),
            Err(e) => Err(store_error(e)),
        }
    }

    /// The encoded record of the file at `path` (its canonical text), if any.
    pub fn get_fossil_by_path(&self, path: &str) -> (r: Result<Option<Vec<u8>>, FossilError>)
        ensures
            r is Ok ==> match r->Ok_0 {
                Some(v) => exists|k: Seq<u8>| #[trigger]
                    self.entries().contains_key(k) && path_prefix(path@).is_prefix_of(k)
                        && self.entries()[k] == v@,
                None => !holds_path(self.entries(), path@),
            },
            r is Err ==> r->Err_0 is StoreError,
    {
        let mut prefix = hash_path(path);
        push_str(&mut prefix, ":");
        proof {
            reveal_strlit(":");
        }
        assert(prefix@ =~= path_hash_text(path@) + seq![':']);
        match db_first_with_prefix(&self.db, prefix.as_str().as_bytes()) {
            Ok(Some(kv)) => {
                assert(self.entries().contains_key(kv.0@));
                Ok(Some(kv.1))
            },
            Ok(None) => Ok(None),
            Err(e) => Err(store_error(e)),
        }
    }

    /// Removes the record stored under `key`; nothing happens when there is
    /// none.
    pub fn delete_fossil(&mut self, key: &str) -> (r: Result<(), FossilError>)
        ensures
            r is Ok ==> final(self).entries() == old(self).entries().remove(encode_utf8(key@)),
            r is Err ==> r->Err_0 is StoreError,
    {
        match db_remove(&mut self.db, key.as_bytes()) {
            Ok(()) => {},
            Err(e) => {
                return Err(store_error(e));
            },
        }
        match db_flush(&self.db) {
            Ok(()) => Ok(()),
            Err(e) => Err(store_error(e)),
        }
    }

    /// Every encoded record, one per key.
    pub fn get_all_fossils(&self) -> (r: Result<Vec<Vec<u8>>, FossilError>)
        ensures
            r is Ok ==> exists|keys: Seq<Seq<u8>>| #[trigger] keys.len() == r->Ok_0@.len()
                && lists_entries(
                keys.zip_with(r->Ok_0@.map_values(|v: Vec<u8>| v@)),
                self.entries(),
            ),
            r is Err ==> r->Err_0 is StoreError,
    {
        let pairs = match db_all(&self.db) {
            Ok(p) => p,
            Err(e) => {
                return Err(store_error(e));
            },
        };
        let mut values: Vec<Vec<u8>> = Vec::new();
        let mut i: usize = 0;
        while i < pairs.len()
            invariant
                i <= pairs@.len(),
                values@.len() == i,
                forall|j: int| 0 <= j < i ==> #[trigger] values@[j]@ == pairs@[j].1@,
            decreases pairs@.len() - i,
        {
            let (_, v) = &pairs[i];
            values.push(v.clone());
            i = i + 1;
        }
        let ghost keys = pairs@.map_values(|p: (Vec<u8>, Vec<u8>)| p.0@);
        assert(keys.zip_with(values@.map_values(|v: Vec<u8>| v@)) =~= pairs_view(pairs@));
        Ok(values)
    }
}

} // verus!
