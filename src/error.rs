use crate::utils::{decimal_text, push_decimal, push_str};
use vstd::prelude::*;

verus! {

/// What can go wrong in the versioning engine.
#[derive(Debug, Clone, PartialEq, Eq)]
pub enum FossilError {
    /// The repository root already exists.
    RepositoryAlreadyExists,
    /// No repository root was found.
    RepositoryNotFound,
    /// The path has no record.
    NotTracked(String),
    /// A new version was asked for while the record points into its past.
    NotAtLatestVersion(String),
    /// Both a tag and a version number were given.
    AmbiguousVersionSpec,
    /// Neither a tag nor a version number was given.
    MissingVersionSpec,
    /// A version number past the newest version.
    VersionOutOfRange { requested: usize, max: usize },
    /// No version carries the tag.
    TagNotFound(String),
    /// The record's version numbers would no longer fit their field.
    TooManyVersions,
    /// A file could not be read or written.
    IOError(String),
    /// A stored record could not be decoded.
    SerializationError(String),
    /// A patch of the chain does not parse or does not fit.
    PatchApplyError,
    /// The embedded store failed.
    StoreError(String),
}

impl FossilError {
    /// The sentence that tells a user what went wrong.
    pub open spec fn message_text(self) -> Seq<char> {
        match self {
            FossilError::RepositoryAlreadyExists => "Repository already initialized"@,
            FossilError::RepositoryNotFound => "No .fossil directory found"@,
            FossilError::NotTracked(p) => "File "@ + p@ + " is not tracked"@,
            FossilError::NotAtLatestVersion(p) => "Cannot bury file "@ + p@
                + " - not at latest version"@,
            FossilError::AmbiguousVersionSpec => "Cannot specify both tag and version"@,
            FossilError::MissingVersionSpec => "Must specify either tag or version"@,
            FossilError::VersionOutOfRange { requested, max } => "Version "@ + decimal_text(
                requested as nat,
            ) + " does not exist (max: "@ + decimal_text(max as nat) + ")"@,
            FossilError::TagNotFound(t) => "Tag '"@ + t@ + "' not found"@,
            FossilError::TooManyVersions => "Too many versions to number"@,
            FossilError::IOError(m) => "I/O error: "@ + m@,
            FossilError::SerializationError(m) => "Cannot decode record: "@ + m@,
            FossilError::PatchApplyError => "A patch of the history does not apply"@,
            FossilError::StoreError(m) => "Store error: "@ + m@,
        }
    }

    /// Tells a user what went wrong.
    pub fn message(&self) -> (r: String)
        ensures
            r@ == self.message_text(),
    {
        let mut m = String::new();
        match self {
            FossilError::RepositoryAlreadyExists => push_str(&mut m, "Repository already initialized"),
            FossilError::RepositoryNotFound => push_str(&mut m, "No .fossil directory found"),
            FossilError::NotTracked(p) => {
                push_str(&mut m, "File ");
                push_str(&mut m, p.as_str());
                push_str(&mut m, " is not tracked");
            },
            FossilError::NotAtLatestVersion(p) => {
                push_str(&mut m, "Cannot bury file ");
                push_str(&mut m, p.as_str());
                push_str(&mut m, " - not at latest version");
            },
            FossilError::AmbiguousVersionSpec => push_str(&mut m, "Cannot specify both tag and version"),
            FossilError::MissingVersionSpec => push_str(&mut m, "Must specify either tag or version"),
            FossilError::VersionOutOfRange { requested, max } => {
                push_str(&mut m, "Version ");
                push_decimal(&mut m, *requested);
                push_str(&mut m, " does not exist (max: ");
                push_decimal(&mut m, *max);
                push_str(&mut m, ")");
            },
            FossilError::TagNotFound(t) => {
                push_str(&mut m, "Tag '");
                push_str(&mut m, t.as_str());
                push_str(&mut m, "' not found");
            },
            FossilError::TooManyVersions => push_str(&mut m, "Too many versions to number"),
            FossilError::IOError(e) => {
                push_str(&mut m, "I/O error: ");
                push_str(&mut m, e.as_str());
            },
            FossilError::SerializationError(e) => {
                push_str(&mut m, "Cannot decode record: ");
                push_str(&mut m, e.as_str());
            },
            FossilError::PatchApplyError => push_str(&mut m, "A patch of the history does not apply"),
            FossilError::StoreError(e) => {
                push_str(&mut m, "Store error: ");
                push_str(&mut m, e.as_str());
            },
        }
        assert(m@ =~= self.message_text());
        m
    }
}

} // verus!
