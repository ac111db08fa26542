use crate::error::FossilError;
use crate::patch::{apply_outcome, apply_patch, check_hunk_numbers, diff_of, hunk_numbers_fit, make_patch};
use crate::utils::{bytes_equal, content_hash_text, hash_content, hash_path, path_hash_text, push_str};
use vstd::prelude::*;

verus! {

/// One step in a file's history: the patch from the previous version's
/// content to this one's, with an optional label.
pub struct FossilVersion {
    pub version_no: u32,
    pub patch_bytes: Vec<u8>,
    pub tag: Option<String>,
}

/// The history of one tracked file: the content captured when tracking began,
/// the chain of patches after it, and the version currently on disk.
pub struct Fossil {
    pub path: String,
    pub versions: Vec<FossilVersion>,
    pub base_content: Vec<u8>,
    pub cur_version: usize,
}

/// Whether a version carries exactly the tag `t`.
pub open spec fn has_tag(v: FossilVersion, t: Seq<char>) -> bool {
    v.tag is Some && v.tag->Some_0@ == t
}

/// The content after applying the first `n` patches of `versions` to `base`,
/// or `None` when one of them fails.
pub open spec fn content_after(base: Seq<u8>, versions: Seq<FossilVersion>, n: nat) -> Option<
    Seq<u8>,
>
    decreases n,
{
    if n == 0 {
        Some(base)
    } else {
        match content_after(base, versions, (n - 1) as nat) {
            Some(c) => apply_outcome(c, versions[n - 1].patch_bytes@),
            None => None,
        }
    }
}

/// The tag of an optional label, seen through its view.
pub open spec fn tag_view(tag: Option<String>) -> Option<Seq<char>> {
    match tag {
        Some(t) => Some(t@),
        None => None,
    }
}

/// The number of the newest version in `versions` that carries the tag `t`.
pub open spec fn newest_tagged(versions: Seq<FossilVersion>, t: Seq<char>) -> Option<nat>
    decreases versions.len(),
{
    if versions.len() == 0 {
        None
    } else if has_tag(versions.last(), t) {
        Some(versions.len())
    } else {
        newest_tagged(versions.drop_last(), t)
    }
}

/// The tag search finds a version that carries the tag, and none after it
/// does; it finds nothing only when no version carries the tag.
pub proof fn lemma_newest_tagged(versions: Seq<FossilVersion>, t: Seq<char>)
    ensures
        match newest_tagged(versions, t) {
            Some(k) => {
                &&& 1 <= k <= versions.len()
                &&& has_tag(versions[k - 1], t)
                &&& forall|j: int| k <= j < versions.len() ==> !has_tag(#[trigger] versions[j], t)
            },
            None => forall|j: int| 0 <= j < versions.len() ==> !has_tag(#[trigger] versions[j], t),
        },
    decreases versions.len(),
{
    if versions.len() > 0 && !has_tag(versions.last(), t) {
        let rest = versions.drop_last();
        lemma_newest_tagged(rest, t);
        assert forall|j: int| 0 <= j < rest.len() implies versions[j] == #[trigger] rest[j] by {}
        match newest_tagged(rest, t) {
            Some(k) => {
                assert(versions[k - 1] == rest[k - 1]);
                assert forall|j: int| k <= j < versions.len() implies !has_tag(#[trigger] versions[j], t) by {
                    if j < rest.len() {
                        assert(versions[j] == rest[j]);
                    }
                }
            },
            None => {
                assert forall|j: int| 0 <= j < versions.len() implies !has_tag(#[trigger] versions[j], t) by {
                    if j < rest.len() {
                        assert(versions[j] == rest[j]);
                    }
                }
            },
        }
    }
}

/// A result carrying bytes, seen through the bytes' view.
pub open spec fn bytes_result(r: Result<Vec<u8>, FossilError>) -> Result<Seq<u8>, FossilError> {
    match r {
        Ok(v) => Ok(v@),
        Err(e) => Err(e),
    }
}

/// Rebuilding the first `n` versions reads only the first `n` patches.
pub proof fn lemma_content_after_prefix(
    base: Seq<u8>,
    a: Seq<FossilVersion>,
    b: Seq<FossilVersion>,
    n: nat,
)
    requires
        n <= a.len(),
        n <= b.len(),
        forall|k: int| 0 <= k < n ==> a[k] == b[k],
    ensures
        content_after(base, a, n) == content_after(base, b, n),
    decreases n,
{
    if n > 0 {
        lemma_content_after_prefix(base, a, b, (n - 1) as nat);
        assert(a[n - 1] == b[n - 1]);
    }
}

/// Once a patch of the chain fails, every longer prefix fails too.
pub proof fn lemma_failure_persists(base: Seq<u8>, versions: Seq<FossilVersion>, k: nat, m: nat)
    requires
        k <= m,
        content_after(base, versions, k) is None,
    ensures
        content_after(base, versions, m) is None,
    decreases m - k,
{
    if k < m {
        lemma_failure_persists(base, versions, k, (m - 1) as nat);
    }
}

impl Fossil {
    /// The content of version `n`: the base content with the first `n`
    /// patches applied in order.
    pub open spec fn content_at(self, n: nat) -> Result<Seq<u8>, FossilError> {
        if n > self.versions@.len() {
            Err(FossilError::VersionOutOfRange { requested: n as usize, max: self.versions@.len() as usize })
        } else {
            match content_after(self.base_content@, self.versions@, n) {
                Some(c) => Ok(c),
                None => Err(FossilError::PatchApplyError),
            }
        }
    }

    /// The version number that a tag or a number names, if any.
    pub open spec fn resolved(self, tag: Option<Seq<char>>, version: Option<usize>) -> Option<usize> {
        match (tag, version) {
            (Some(_), Some(_)) => None,
            (None, None) => None,
            (None, Some(v)) => if v <= self.versions@.len() {
                Some(v)
            } else {
                None
            },
            (Some(t), None) => match newest_tagged(self.versions@, t) {
                Some(k) => Some(k as usize),
                None => None,
            },
        }
    }

    /// The error that resolving a version reports for the given request.
    pub open spec fn resolve_error(self, tag: Option<String>, version: Option<usize>, e: FossilError) -> bool {
        match (tag, version) {
            (Some(_), Some(_)) => e == FossilError::AmbiguousVersionSpec,
            (None, None) => e == FossilError::MissingVersionSpec,
            (None, Some(v)) => e == FossilError::VersionOutOfRange {
                requested: v,
                max: self.versions@.len() as usize,
            },
            (Some(t), None) => e is TagNotFound && e->TagNotFound_0@ == t@,
        }
    }

    /// What resolving a version reports: the number named when there is one,
    /// and otherwise the error that fits the request.
    pub open spec fn resolve_post(
        self,
        tag: Option<String>,
        version: Option<usize>,
        r: Result<usize, FossilError>,
    ) -> bool {
        &&& r is Ok <==> self.resolved(tag_view(tag), version) is Some
        &&& r is Ok ==> r->Ok_0 == self.resolved(tag_view(tag), version)->Some_0
        &&& r is Err ==> self.resolve_error(tag, version, r->Err_0)
    }

    /// `self` is `prev` with one version appended, numbered after the others
    /// and carrying `patch` and `tag`; path and base content are kept.
    pub open spec fn appended(self, prev: Fossil, tag: Option<String>, patch: Seq<u8>) -> bool {
        let n = prev.versions@.len();
        &&& self.path == prev.path
        &&& self.base_content == prev.base_content
        &&& self.versions@.len() == n + 1
        &&& self.versions@.take(n as int) == prev.versions@
        &&& self.versions@[n as int].version_no == n + 1
        &&& self.versions@[n as int].patch_bytes@ == patch
        &&& self.versions@[n as int].tag == tag
    }

    /// What recording `current` as a new version does to `prev`: nothing when
    /// it equals the newest content; otherwise one version is appended whose
    /// patch leads from the newest content to `current`.
    pub open spec fn update_post(
        prev: Fossil,
        tag: Option<String>,
        current: Seq<u8>,
        next: Fossil,
        r: Result<(), FossilError>,
    ) -> bool {
        match prev.content_at(prev.versions@.len()) {
            Err(e) => r == Err::<(), FossilError>(e) && next == prev,
            Ok(last) => if last == current {
                r is Ok && next == prev
            } else if prev.versions@.len() >= u32::MAX {
                r == Err::<(), FossilError>(FossilError::TooManyVersions) && next == prev
            } else if !hunk_numbers_fit(diff_of(last, current)) {
                r == Err::<(), FossilError>(FossilError::PatchApplyError) && next == prev
            } else {
                &&& r is Ok
                &&& next.appended(prev, tag, diff_of(last, current))
                &&& next.cur_version == prev.cur_version
                &&& next.content_at(next.versions@.len()) == Ok::<Seq<u8>, FossilError>(current)
            },
        }
    }

    /// What burying `current` does to `prev`: it is refused unless the record
    /// is at its newest version; then the content is recorded as by
    /// `update_post` and the record points at its newest version. The result
    /// says whether a version was appended.
    pub open spec fn bury_post(
        prev: Fossil,
        tag: Option<String>,
        current: Seq<u8>,
        next: Fossil,
        r: Result<bool, FossilError>,
    ) -> bool {
        if prev.cur_version != prev.versions@.len() {
            &&& r is Err
            &&& r->Err_0 is NotAtLatestVersion
            &&& r->Err_0->NotAtLatestVersion_0@ == prev.path@
            &&& next == prev
        } else {
            match prev.content_at(prev.versions@.len()) {
                Err(e) => r == Err::<bool, FossilError>(e) && next == prev,
                Ok(last) => if last == current {
                    r == Ok::<bool, FossilError>(false) && next == prev
                } else if prev.versions@.len() >= u32::MAX {
                    r == Err::<bool, FossilError>(FossilError::TooManyVersions) && next == prev
                } else if !hunk_numbers_fit(diff_of(last, current)) {
                    r == Err::<bool, FossilError>(FossilError::PatchApplyError) && next == prev
                } else {
                    &&& r == Ok::<bool, FossilError>(true)
                    &&& next.appended(prev, tag, diff_of(last, current))
                    &&& next.cur_version == next.versions@.len()
                    &&& next.content_at(next.versions@.len()) == Ok::<Seq<u8>, FossilError>(
                        current,
                    )
                },
            }
        }
    }

    /// What digging to the version named by `tag` or `version` does to
    /// `prev`: the content handed back is that version's, and the record then
    /// points at it; on any failure the record is left as it was.
    pub open spec fn dig_post(
        prev: Fossil,
        tag: Option<String>,
        version: Option<usize>,
        next: Fossil,
        r: Result<Vec<u8>, FossilError>,
    ) -> bool {
        match prev.resolved(tag_view(tag), version) {
            None => r is Err && prev.resolve_error(tag, version, r->Err_0) && next == prev,
            Some(n) => {
                &&& bytes_result(r) == prev.content_at(n as nat)
                &&& r is Ok ==> next == Fossil { cur_version: n, ..prev }
                &&& r is Err ==> next == prev
            },
        }
    }

    /// The record's storage key: the path's identifier and the base content's
    /// identifier, joined by a colon.
    pub open spec fn key_text(self) -> Seq<char> {
        path_hash_text(self.path@) + seq![':'] + content_hash_text(self.base_content@)
    }

    /// Versions are numbered densely from one and the current version is one
    /// of them, or the base.
    pub open spec fn wf(self) -> bool {
        &&& self.cur_version <= self.versions@.len()
        &&& forall|i: int|
            0 <= i < self.versions@.len() ==> #[trigger] self.versions@[i].version_no == i + 1
    }

    /// A record that starts tracking `base_content` at `path`.
    pub fn new(path: String, base_content: Vec<u8>) -> (r: Fossil)
        ensures
            r.path == path,
            r.base_content == base_content,
            r.versions@.len() == 0,
            r.cur_version == 0,
            r.wf(),
    {
        Fossil { path, versions: Vec::new(), base_content, cur_version: 0 }
    }

    /// Computes the record's storage key.
    pub fn hash(&self) -> (r: Result<String, FossilError>)
        ensures
            r is Ok,
            r->Ok_0@ == self.key_text(),
    {
        let mut key = hash_path(self.path.as_str());
        push_str(&mut key, ":");
        let content_hash = hash_content(self.base_content.as_slice());
        push_str(&mut key, content_hash.as_str());
        proof {
            reveal_strlit(":");
        }
        assert(key@ =~= self.key_text());
        Ok(key)
    }

    /// Rebuilds the content of version `version_no` by replaying the chain.
    pub fn get_version_content(&self, version_no: usize) -> (r: Result<Vec<u8>, FossilError>)
        ensures
            bytes_result(r) == self.content_at(version_no as nat),
    {
        if version_no > self.versions.len() {
            return Err(FossilError::VersionOutOfRange { requested: version_no, max: self.versions.len() });
        }
        let mut content = self.base_content.clone();
        assert(content@ =~= self.base_content@);
        let mut i: usize = 0;
        while i < version_no
            invariant
                i <= version_no <= self.versions@.len(),
                content_after(self.base_content@, self.versions@, i as nat) == Some(content@),
            decreases version_no - i,
        {
            if !check_hunk_numbers(self.versions[i].patch_bytes.as_slice()) {
                proof {
                    lemma_failure_persists(
                        self.base_content@,
                        self.versions@,
                        (i + 1) as nat,
                        version_no as nat,
                    );
                }
                return Err(FossilError::PatchApplyError);
            }
            match apply_patch(content.as_slice(), self.versions[i].patch_bytes.as_slice()) {
                Some(next) => {
                    content = next;
                },
                None => {
                    proof {
                        lemma_failure_persists(
                            self.base_content@,
                            self.versions@,
                            (i + 1) as nat,
                            version_no as nat,
                        );
                    }
                    return Err(FossilError::PatchApplyError);
                },
            }
            i = i + 1;
        }
        Ok(content)
    }

    /// Records `current_content` as a new version when it differs from the
    /// newest recorded content.
    pub fn update(&mut self, tag: Option<String>, current_content: &[u8]) -> (r: Result<
        (),
        FossilError,
    >)
        ensures
            Fossil::update_post(*old(self), tag, current_content@, *final(self), r),
            old(self).wf() ==> final(self).wf(),
    {
        let last_version_no = self.versions.len();
        let last_content = match self.get_version_content(last_version_no) {
            Ok(c) => c,
            Err(e) => {
                return Err(e);
            },
        };
        if bytes_equal(last_content.as_slice(), current_content) {
            return Ok(());
        }
        if last_version_no >= u32::MAX as usize {
            return Err(FossilError::TooManyVersions);
        }
        let patch = make_patch(last_content.as_slice(), current_content);
        if !check_hunk_numbers(patch.as_slice()) {
            return Err(FossilError::PatchApplyError);
        }
        self.versions.push(
            FossilVersion { version_no: (last_version_no + 1) as u32, patch_bytes: patch, tag },
        );
        assert(self.versions@.take(last_version_no as int) =~= old(self).versions@);
        proof {
            lemma_content_after_prefix(
                self.base_content@,
                old(self).versions@,
                self.versions@,
                last_version_no as nat,
            );
        }
        Ok(())
    }

    /// Creates a new version from the file's current content; refused while
    /// the record points into its past.
    pub fn bury(&mut self, tag: Option<String>, current_content: &[u8]) -> (r: Result<
        bool,
        FossilError,
    >)
        ensures
            Fossil::bury_post(*old(self), tag, current_content@, *final(self), r),
            old(self).wf() ==> final(self).wf(),
    {
        if self.cur_version != self.versions.len() {
            return Err(FossilError::NotAtLatestVersion(self.path.clone()));
        }
        let before = self.versions.len();
        match self.update(tag, current_content) {
            Ok(()) => {
                if self.versions.len() == before {
                    Ok(false)
                } else {
                    self.cur_version = self.versions.len();
                    Ok(true)
                }
            },
            Err(e) => Err(e),
        }
    }

    /// Moves the record to the version named by `tag` or `version` and hands
    /// back that version's content, to be written to the file.
    pub fn dig(&mut self, tag: Option<String>, version: Option<usize>) -> (r: Result<
        Vec<u8>,
        FossilError,
    >)
        ensures
            Fossil::dig_post(*old(self), tag, version, *final(self), r),
            old(self).wf() ==> final(self).wf(),
    {
        let target = match self.resolve_version(tag, version) {
            Ok(n) => n,
            Err(e) => {
                return Err(e);
            },
        };
        let content = match self.get_version_content(target) {
            Ok(c) => c,
            Err(e) => {
                return Err(e);
            },
        };
        self.cur_version = target;
        Ok(content)
    }

    /// Moves the record to its newest version and hands back that content.
    pub fn surface(&mut self) -> (r: Result<Vec<u8>, FossilError>)
        ensures
            bytes_result(r) == old(self).content_at(old(self).versions@.len()),
            r is Ok ==> *final(self) == (Fossil { cur_version: old(self).versions@.len() as usize, ..*old(self) }),
            r is Err ==> *final(self) == *old(self),
            old(self).wf() ==> final(self).wf(),
    {
        let latest = self.versions.len();
        let content = match self.get_version_content(latest) {
            Ok(c) => c,
            Err(e) => {
                return Err(e);
            },
        };
        self.cur_version = latest;
        Ok(content)
    }

    /// Picks the version that a tag or a number names: exactly one of the two
    /// must be given; a number names itself when it exists; a tag names the
    /// newest version that carries it.
    pub fn resolve_version(&self, tag: Option<String>, version: Option<usize>) -> (r: Result<
        usize,
        FossilError,
    >)
        ensures
            self.resolve_post(tag, version, r),
    {
        match (tag, version) {
            (Some(_), Some(_)) => Err(FossilError::AmbiguousVersionSpec),
            (None, None) => Err(FossilError::MissingVersionSpec),
            (None, Some(v)) => {
                if v > self.versions.len() {
                    Err(FossilError::VersionOutOfRange { requested: v, max: self.versions.len() })
                } else {
                    Ok(v)
                }
            },
            (Some(t), None) => {
                let mut i: usize = self.versions.len();
                assert(self.versions@.take(i as int) =~= self.versions@);
                while i > 0
                    invariant
                        tag == Some(t),
                        version is None,
                        i <= self.versions@.len(),
                        newest_tagged(self.versions@, t@) == newest_tagged(
                            self.versions@.take(i as int),
                            t@,
                        ),
                    decreases i,
                {
                    let matches = match &self.versions[i - 1].tag {
                        Some(vt) => vt.eq(&t),
                        None => false,
                    };
                    assert(self.versions@.take(i as int).drop_last() =~= self.versions@.take(
                        i - 1,
                    ));
                    if matches {
                        return Ok(i);
                    }
                    i = i - 1;
                }
                assert(self.versions@.take(0) =~= Seq::<FossilVersion>::empty());
                Err(FossilError::TagNotFound(t))
            },
        }
    }
}

/// Version zero is the base content: it takes no patch to rebuild.
pub proof fn lemma_version_zero_is_base(f: Fossil)
    ensures
        f.content_at(0) == Ok::<Seq<u8>, FossilError>(f.base_content@),
{
}

/// Digging to version `n` hands back exactly the content rebuilt for `n`,
/// and a successful dig leaves the record pointing at `n`.
pub proof fn lemma_dig_matches_rebuild(
    f: Fossil,
    n: usize,
    g: Fossil,
    r: Result<Vec<u8>, FossilError>,
)
    requires
        n <= f.versions@.len(),
        Fossil::dig_post(f, None, Some(n), g, r),
    ensures
        bytes_result(r) == f.content_at(n as nat),
        r is Ok ==> g.cur_version == n && g.versions == f.versions,
{
}

/// Burying a file whose content equals the newest recorded content leaves the
/// record as it is, so no number of such burials appends a version.
pub proof fn lemma_bury_unchanged_is_noop(
    f: Fossil,
    tag: Option<String>,
    current: Seq<u8>,
    g: Fossil,
    r: Result<bool, FossilError>,
)
    requires
        f.content_at(f.versions@.len()) == Ok::<Seq<u8>, FossilError>(current),
        Fossil::bury_post(f, tag, current, g, r),
    ensures
        g == f,
        r is Ok ==> r == Ok::<bool, FossilError>(false),
{
}

/// After a successful burial of `current`, burying the same content again
/// leaves the record as it is: repeated burials of an unchanged file append
/// at most the one version.
pub proof fn lemma_bury_again_is_noop(
    f: Fossil,
    tag1: Option<String>,
    current: Seq<u8>,
    g: Fossil,
    r1: Result<bool, FossilError>,
    tag2: Option<String>,
    h: Fossil,
    r2: Result<bool, FossilError>,
)
    requires
        Fossil::bury_post(f, tag1, current, g, r1),
        r1 is Ok,
        Fossil::bury_post(g, tag2, current, h, r2),
    ensures
        h == g,
        r2 == Ok::<bool, FossilError>(false),
        g.versions@.len() <= f.versions@.len() + 1,
{
}

/// A request naming both a tag and a number, or neither, always fails, with
/// the error that says which.
pub proof fn lemma_resolve_needs_exactly_one(
    f: Fossil,
    tag: Option<String>,
    version: Option<usize>,
    r: Result<usize, FossilError>,
)
    requires
        (tag is Some) == (version is Some),
        f.resolve_post(tag, version, r),
    ensures
        r is Err,
        tag is Some ==> r->Err_0 == FossilError::AmbiguousVersionSpec,
        tag is None ==> r->Err_0 == FossilError::MissingVersionSpec,
{
}

/// A tag names the version with the highest number among those that carry
/// it.
pub proof fn lemma_tag_names_highest_version(f: Fossil, t: String, r: Result<usize, FossilError>)
    requires
        f.wf(),
        f.resolve_post(Some(t), None, r),
        r is Ok,
    ensures
        has_tag(f.versions@[r->Ok_0 - 1], t@),
        f.versions@[r->Ok_0 - 1].version_no == r->Ok_0,
        forall|j: int|
            0 <= j < f.versions@.len() && has_tag(#[trigger] f.versions@[j], t@)
                ==> f.versions@[j].version_no <= r->Ok_0,
{
    lemma_newest_tagged(f.versions@, t@);
    assert(f.versions.len() == f.versions@.len());
    let k = newest_tagged(f.versions@, t@)->Some_0;
    assert(r->Ok_0 == k);
}

} // verus!
