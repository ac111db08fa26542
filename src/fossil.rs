use crate::config::{bytes_result, Fossil, FossilVersion};
use crate::tui::app::FossilDisplay;
use crate::utils::{lossy_string, lossy_text, push_char};
use crate::error::FossilError;
use crate::store::{holds_path, lemma_record_key_has_path_prefix, path_prefix, record_key, FossilDb};
use vstd::prelude::*;

verus! {

/// What tracking `fossil` does to the pairs `prev` of a store: nothing when a
/// record of its path is already there; otherwise its encoding is stored
/// under its key. The result says whether a record was added.
pub open spec fn track_post(
    prev: Map<Seq<u8>, Seq<u8>>,
    fossil: Fossil,
    encoded: Seq<u8>,
    next: Map<Seq<u8>, Seq<u8>>,
    r: Result<bool, FossilError>,
) -> bool {
    &&& r is Ok ==> if holds_path(prev, fossil.path@) {
        r->Ok_0 == false && next == prev
    } else {
        r->Ok_0 == true && next == prev.insert(record_key(fossil), encoded)
    }
    &&& r is Err ==> r->Err_0 is StoreError
}

/// Starts tracking the file of `fossil`, a fresh record whose encoding is
/// `encoded`, unless the store already holds a record of that path.
pub fn track_fossil(db: &mut FossilDb, fossil: &Fossil, encoded: Vec<u8>) -> (r: Result<
    bool,
    FossilError,
>)
    ensures
        track_post(old(db).entries(), *fossil, encoded@, final(db).entries(), r),
{
    match db.get_fossil_by_path(fossil.path.as_str()) {
        Ok(Some(_)) => Ok(false),
        Ok(None) => match db.create_fossil(fossil, encoded) {
            Ok(()) => Ok(true),
            Err(e) => Err(e),
        },
        Err(e) => Err(e),
    }
}

/// Tracking is idempotent: tracking a path a second time changes nothing,
/// and a path that had no record before ends up with exactly one, which
/// holds what the first call stored.
pub proof fn lemma_track_idempotent(
    m0: Map<Seq<u8>, Seq<u8>>,
    f1: Fossil,
    e1: Seq<u8>,
    m1: Map<Seq<u8>, Seq<u8>>,
    r1: Result<bool, FossilError>,
    f2: Fossil,
    e2: Seq<u8>,
    m2: Map<Seq<u8>, Seq<u8>>,
    r2: Result<bool, FossilError>,
)
    requires
        track_post(m0, f1, e1, m1, r1),
        track_post(m1, f2, e2, m2, r2),
        r1 is Ok,
        r2 is Ok,
        f2.path@ == f1.path@,
    ensures
        m2 == m1,
        r2 == Ok::<bool, FossilError>(false),
        !holds_path(m0, f1.path@) ==> {
            &&& m2.contains_key(record_key(f1))
            &&& m2[record_key(f1)] == e1
            &&& forall|k: Seq<u8>| #[trigger]
                m2.contains_key(k) && path_prefix(f1.path@).is_prefix_of(k) ==> k == record_key(f1)
        },
{
    lemma_record_key_has_path_prefix(f1);
    if !holds_path(m0, f1.path@) {
        assert(m1.contains_key(record_key(f1)));
        assert(holds_path(m1, f1.path@));
        assert forall|k: Seq<u8>| #[trigger]
            m2.contains_key(k) && path_prefix(f1.path@).is_prefix_of(k) implies k == record_key(f1) by {
            if k != record_key(f1) {
                assert(m0.contains_key(k));
            }
        }
    } else {
        let k0 = choose|k: Seq<u8>| #[trigger] m0.contains_key(k) && path_prefix(f1.path@).is_prefix_of(k);
        assert(m1.contains_key(k0));
    }
}

/// Forgets the history of `fossil`: its record is removed from the store.
/// The newest content, which the file keeps, is `get_version_content` at the
/// number of versions.
pub fn untrack_fossil(db: &mut FossilDb, fossil: &Fossil) -> (r: Result<(), FossilError>)
    ensures
        r is Ok ==> final(db).entries() == old(db).entries().remove(record_key(*fossil)),
        r is Err ==> r->Err_0 is StoreError,
{
    let key = match fossil.hash() {
        Ok(k) => k,
        Err(e) => {
            return Err(e);
        },
    };
    db.delete_fossil(key.as_str())
}

/// Clones an optional tag.
fn clone_tag(tag: &Option<String>) -> (r: Option<String>)
    ensures
        r == *tag,
{
    match tag {
        Some(t) => Some(t.clone()),
        None => None,
    }
}

/// Buries each record with the file content read for it, under one tag.
/// Every record is handled on its own: one that fails is left as it was and
/// the others go on.
pub fn bury_files(
    fossils: &mut Vec<Fossil>,
    current_contents: &Vec<Vec<u8>>,
    tag: Option<String>,
) -> (r: Vec<Result<bool, FossilError>>)
    requires
        current_contents@.len() == old(fossils)@.len(),
    ensures
        final(fossils)@.len() == old(fossils)@.len(),
        r@.len() == old(fossils)@.len(),
        forall|i: int|
            0 <= i < r@.len() ==> Fossil::bury_post(
                #[trigger] old(fossils)@[i],
                tag,
                current_contents@[i]@,
                final(fossils)@[i],
                r@[i],
            ),
{
    let mut results: Vec<Result<bool, FossilError>> = Vec::new();
    let mut i: usize = 0;
    while i < fossils.len()
        invariant
            fossils@.len() == old(fossils)@.len(),
            current_contents@.len() == old(fossils)@.len(),
            i <= fossils@.len(),
            results@.len() == i,
            forall|j: int|
                0 <= j < i ==> Fossil::bury_post(
                    #[trigger] old(fossils)@[j],
                    tag,
                    current_contents@[j]@,
                    fossils@[j],
                    results@[j],
                ),
            forall|j: int| i <= j < fossils@.len() ==> fossils@[j] == old(fossils)@[j],
        decreases fossils@.len() - i,
    {
        let t = clone_tag(&tag);
        let outcome = fossils[i].bury(t, current_contents[i].as_slice());
        results.push(outcome);
        i = i + 1;
    }
    results
}

/// Digs each record to the version named by `tag` or `version`, handing back
/// for each the content to write, or its own failure.
pub fn dig_files(fossils: &mut Vec<Fossil>, tag: Option<String>, version: Option<usize>) -> (r: Vec<
    Result<Vec<u8>, FossilError>,
>)
    ensures
        final(fossils)@.len() == old(fossils)@.len(),
        r@.len() == old(fossils)@.len(),
        forall|i: int|
            0 <= i < r@.len() ==> Fossil::dig_post(
                #[trigger] old(fossils)@[i],
                tag,
                version,
                final(fossils)@[i],
                r@[i],
            ),
{
    let mut results: Vec<Result<Vec<u8>, FossilError>> = Vec::new();
    let mut i: usize = 0;
    while i < fossils.len()
        invariant
            fossils@.len() == old(fossils)@.len(),
            i <= fossils@.len(),
            results@.len() == i,
            forall|j: int|
                0 <= j < i ==> Fossil::dig_post(
                    #[trigger] old(fossils)@[j],
                    tag,
                    version,
                    fossils@[j],
                    results@[j],
                ),
            forall|j: int| i <= j < fossils@.len() ==> fossils@[j] == old(fossils)@[j],
        decreases fossils@.len() - i,
    {
        let t = clone_tag(&tag);
        let outcome = fossils[i].dig(t, version);
        results.push(outcome);
        i = i + 1;
    }
    results
}

/// Brings each record to its newest version, handing back for each the
/// content to write, or its own failure.
pub fn surface(fossils: &mut Vec<Fossil>) -> (r: Vec<Result<Vec<u8>, FossilError>>)
    ensures
        final(fossils)@.len() == old(fossils)@.len(),
        r@.len() == old(fossils)@.len(),
        forall|i: int|
            0 <= i < r@.len() ==> {
                let f = #[trigger] old(fossils)@[i];
                &&& bytes_result(r@[i]) == f.content_at(f.versions@.len())
                &&& r@[i] is Ok ==> final(fossils)@[i] == (Fossil {
                    cur_version: f.versions@.len() as usize,
                    ..f
                })
                &&& r@[i] is Err ==> final(fossils)@[i] == f
            },
{
    let mut results: Vec<Result<Vec<u8>, FossilError>> = Vec::new();
    let mut i: usize = 0;
    while i < fossils.len()
        invariant
            fossils@.len() == old(fossils)@.len(),
            i <= fossils@.len(),
            results@.len() == i,
            forall|j: int|
                0 <= j < i ==> {
                    let f = #[trigger] old(fossils)@[j];
                    &&& bytes_result(results@[j]) == f.content_at(f.versions@.len())
                    &&& results@[j] is Ok ==> fossils@[j] == (Fossil {
                        cur_version: f.versions@.len() as usize,
                        ..f
                    })
                    &&& results@[j] is Err ==> fossils@[j] == f
                },
            forall|j: int| i <= j < fossils@.len() ==> fossils@[j] == old(fossils)@[j],
        decreases fossils@.len() - i,
    {
        let outcome = fossils[i].surface();
        results.push(outcome);
        i = i + 1;
    }
    results
}

/// How many characters of content a listing shows.
pub const PREVIEW_CHARS: usize = 50;

/// The text with each line break turned into a space.
pub open spec fn flatten_newlines(t: Seq<char>) -> Seq<char> {
    t.map_values(|c: char| if c == '\n' { ' ' } else { c })
}

/// A one-line preview: at most `PREVIEW_CHARS` characters, followed by an
/// ellipsis when the text was cut.
pub open spec fn preview_of(t: Seq<char>) -> Seq<char> {
    if t.len() > PREVIEW_CHARS {
        flatten_newlines(t.take(PREVIEW_CHARS as int)) + seq!['.', '.', '.']
    } else {
        flatten_newlines(t)
    }
}

/// The number of versions among the first `n` that carry a non-empty tag.
pub open spec fn labelled_upto(versions: Seq<FossilVersion>, n: nat) -> nat
    decreases n,
{
    if n == 0 {
        0
    } else {
        labelled_upto(versions, (n - 1) as nat) + if versions[n - 1].tag is Some
            && versions[n - 1].tag->Some_0@.len() > 0 {
            1nat
        } else {
            0nat
        }
    }
}

/// Builds the preview of a content.
fn preview(content: &[u8]) -> (r: String)
    ensures
        r@ == preview_of(lossy_text(content@)),
{
    preview_text(lossy_string(content).as_str())
}

/// Builds the one-line preview of a text.
pub fn preview_text(text: &str) -> (r: String)
    ensures
        r@ == preview_of(text@),
{
    let n = text.unicode_len();
    let shown = if n > PREVIEW_CHARS {
        PREVIEW_CHARS
    } else {
        n
    };
    let mut out = String::new();
    let mut i: usize = 0;
    while i < shown
        invariant
            n == text@.len(),
            shown <= n,
            i <= shown,
            out@ == flatten_newlines(text@.take(i as int)),
        decreases shown - i,
    {
        let c = text.get_char(i);
        push_char(&mut out, if c == '\n' { ' ' } else { c });
        i = i + 1;
        assert(out@ =~= flatten_newlines(text@.take(i as int)));
    }
    if n > PREVIEW_CHARS {
        push_char(&mut out, '.');
        push_char(&mut out, '.');
        push_char(&mut out, '.');
        assert(out@ =~= preview_of(text@));
    } else {
        assert(text@.take(n as int) =~= text@);
    }
    out
}

/// What a listing shows of one record: its path, current and newest version
/// numbers, how many versions carry a tag, and a preview of the content at
/// the current version.
pub fn list_entry(fossil: &Fossil) -> (r: Result<FossilDisplay, FossilError>)
    ensures
        match fossil.content_at(fossil.cur_version as nat) {
            Err(e) => r == Err::<FossilDisplay, FossilError>(e),
            Ok(c) => {
                &&& r is Ok
                &&& r->Ok_0.path@ == fossil.path@
                &&& r->Ok_0.current_version == fossil.cur_version
                &&& r->Ok_0.total_versions == fossil.versions@.len()
                &&& r->Ok_0.tag_count == labelled_upto(fossil.versions@, fossil.versions@.len())
                &&& r->Ok_0.preview@ == preview_of(lossy_text(c))
            },
        },
{
    let content = match fossil.get_version_content(fossil.cur_version) {
        Ok(c) => c,
        Err(e) => {
            return Err(e);
        },
    };
    let mut count: usize = 0;
    let mut j: usize = 0;
    while j < fossil.versions.len()
        invariant
            j <= fossil.versions@.len(),
            count == labelled_upto(fossil.versions@, j as nat),
            count <= j,
        decreases fossil.versions@.len() - j,
    {
        let labelled = match &fossil.versions[j].tag {
            Some(t) => !t.as_str().is_empty(),
            None => false,
        };
        if labelled {
            count = count + 1;
        }
        j = j + 1;
    }
    Ok(
        FossilDisplay {
            path: fossil.path.clone(),
            current_version: fossil.cur_version,
            total_versions: fossil.versions.len(),
            tag_count: count,
            preview: preview(content.as_slice()),
        },
    )
}

/// What a listing shows of each record, or that record's own failure.
pub fn list(fossils: &Vec<Fossil>) -> (r: Vec<Result<FossilDisplay, FossilError>>)
    ensures
        r@.len() == fossils@.len(),
        forall|i: int|
            0 <= i < r@.len() ==> match (#[trigger] fossils@[i]).content_at(
                fossils@[i].cur_version as nat,
            ) {
                Err(e) => r@[i] == Err::<FossilDisplay, FossilError>(e),
                Ok(c) => {
                    &&& r@[i] is Ok
                    &&& r@[i]->Ok_0.path@ == fossils@[i].path@
                    &&& r@[i]->Ok_0.current_version == fossils@[i].cur_version
                    &&& r@[i]->Ok_0.total_versions == fossils@[i].versions@.len()
                    &&& r@[i]->Ok_0.tag_count == labelled_upto(
                        fossils@[i].versions@,
                        fossils@[i].versions@.len(),
                    )
                    &&& r@[i]->Ok_0.preview@ == preview_of(lossy_text(c))
                },
            },
{
    let mut rows: Vec<Result<FossilDisplay, FossilError>> = Vec::new();
    let mut i: usize = 0;
    while i < fossils.len()
        invariant
            i <= fossils@.len(),
            rows@.len() == i,
            forall|j: int|
                0 <= j < i ==> match (#[trigger] fossils@[j]).content_at(
                    fossils@[j].cur_version as nat,
                ) {
                    Err(e) => rows@[j] == Err::<FossilDisplay, FossilError>(e),
                    Ok(c) => {
                        &&& rows@[j] is Ok
                        &&& rows@[j]->Ok_0.path@ == fossils@[j].path@
                        &&& rows@[j]->Ok_0.current_version == fossils@[j].cur_version
                        &&& rows@[j]->Ok_0.total_versions == fossils@[j].versions@.len()
                        &&& rows@[j]->Ok_0.tag_count == labelled_upto(
                            fossils@[j].versions@,
                            fossils@[j].versions@.len(),
                        )
                        &&& rows@[j]->Ok_0.preview@ == preview_of(lossy_text(c))
                    },
                },
        decreases fossils@.len() - i,
    {
        rows.push(list_entry(&fossils[i]));
        i = i + 1;
    }
    rows
}

} // verus!
