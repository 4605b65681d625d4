//! What can go wrong in the store, and how to tell the failures apart.

use vstd::prelude::*;
use vstd::string::*;
use crate::shared_path::SharedPath;

verus! {

/// The kinds of failure.
#[derive(Clone, Copy, Debug, PartialEq, Eq, Structural)]
#[non_exhaustive]
pub enum RepoErrorKind {
    CouldNotOpenLockFile,
    CouldNotLock,
    InvalidSharedPath,
    CouldNotComputeHash,
    CouldNotDeleteDirectory,
    CouldNotDeleteFile,
    InvalidLinkFile,
    InvalidMetaId,
    InvalidLinkId,
    Other,
}

/// What a [`RepoError`] says, as plain text.
pub enum ErrorView {
    /// The lock file at this path could not be opened.
    CouldNotOpenLockFile(Seq<char>),
    /// The lock file at this path could not be locked.
    CouldNotLock(Seq<char>),
    /// This shared path leaves the shared directory.
    InvalidSharedPath(Seq<char>),
    /// No link identifier can be derived from this path.
    CouldNotComputeHash(Seq<char>),
    /// The directory at this path could not be deleted.
    CouldNotDeleteDirectory(Seq<char>),
    /// The file at this path could not be deleted.
    CouldNotDeleteFile(Seq<char>),
    /// The link file names another project directory than the one expected.
    InvalidLinkFile { link_path: Seq<char>, found: Seq<char>, expected: Seq<char> },
    /// This text is no metadirectory identifier.
    InvalidMetaId(Seq<char>),
    /// This text is no link identifier.
    InvalidLinkId(Seq<char>),
    /// A failure of reading, writing or decoding, with its message and
    /// whether the cause was a missing file.
    Other { message: Seq<char>, not_found: bool },
}

/// The kind of failure that `v` describes.
pub open spec fn kind_of(v: ErrorView) -> RepoErrorKind {
    match v {
        ErrorView::CouldNotOpenLockFile(_) => RepoErrorKind::CouldNotOpenLockFile,
        ErrorView::CouldNotLock(_) => RepoErrorKind::CouldNotLock,
        ErrorView::InvalidSharedPath(_) => RepoErrorKind::InvalidSharedPath,
        ErrorView::CouldNotComputeHash(_) => RepoErrorKind::CouldNotComputeHash,
        ErrorView::CouldNotDeleteDirectory(_) => RepoErrorKind::CouldNotDeleteDirectory,
        ErrorView::CouldNotDeleteFile(_) => RepoErrorKind::CouldNotDeleteFile,
        ErrorView::InvalidLinkFile { .. } => RepoErrorKind::InvalidLinkFile,
        ErrorView::InvalidMetaId(_) => RepoErrorKind::InvalidMetaId,
        ErrorView::InvalidLinkId(_) => RepoErrorKind::InvalidLinkId,
        ErrorView::Other { .. } => RepoErrorKind::Other,
    }
}

/// The message that goes with `v`.
pub open spec fn message_of(v: ErrorView) -> Seq<char> {
    match v {
        ErrorView::CouldNotOpenLockFile(p) => "Could not open lock file "@ + p,
        ErrorView::CouldNotLock(p) => "Could not lock lock file "@ + p,
        ErrorView::InvalidSharedPath(p) => "Invalid shared path "@ + p,
        ErrorView::CouldNotComputeHash(p) => "Could not compute MD5 hash for path "@ + p,
        ErrorView::CouldNotDeleteDirectory(p) => "Could not delete directory "@ + p,
        ErrorView::CouldNotDeleteFile(p) => "Could not delete file "@ + p,
        ErrorView::InvalidLinkFile { link_path, found, expected } => "Project directory "@ + found
            + " specified in link file "@ + link_path + " does not match expected directory "@
            + expected,
        ErrorView::InvalidMetaId(s) => "Invalid meta ID "@ + s,
        ErrorView::InvalidLinkId(s) => "Invalid link ID "@ + s,
        ErrorView::Other { message, .. } => message,
    }
}

#[derive(Debug)]
enum RepoErrorImpl {
    CouldNotOpenLockFile(String),
    CouldNotLock(String),
    InvalidSharedPath(SharedPath),
    CouldNotComputeHash(String),
    CouldNotDeleteDirectory(String),
    CouldNotDeleteFile(String),
    InvalidLinkFile(String, String, String),
    InvalidMetaId(String),
    InvalidLinkId(String),
    Other(String, bool),
}

/// A failure of the store.
#[derive(Debug)]
pub struct RepoError(RepoErrorImpl);

impl View for RepoError {
    type V = ErrorView;

    closed spec fn view(&self) -> ErrorView {
        match self.0 {
            RepoErrorImpl::CouldNotOpenLockFile(p) => ErrorView::CouldNotOpenLockFile(p@),
            RepoErrorImpl::CouldNotLock(p) => ErrorView::CouldNotLock(p@),
            RepoErrorImpl::InvalidSharedPath(p) => ErrorView::InvalidSharedPath(p@),
            RepoErrorImpl::CouldNotComputeHash(p) => ErrorView::CouldNotComputeHash(p@),
            RepoErrorImpl::CouldNotDeleteDirectory(p) => ErrorView::CouldNotDeleteDirectory(p@),
            RepoErrorImpl::CouldNotDeleteFile(p) => ErrorView::CouldNotDeleteFile(p@),
            RepoErrorImpl::InvalidLinkFile(l, f, e) => ErrorView::InvalidLinkFile {
                link_path: l@,
                found: f@,
                expected: e@,
            },
            RepoErrorImpl::InvalidMetaId(s) => ErrorView::InvalidMetaId(s@),
            RepoErrorImpl::InvalidLinkId(s) => ErrorView::InvalidLinkId(s@),
            RepoErrorImpl::Other(m, n) => ErrorView::Other { message: m@, not_found: n },
        }
    }
}

impl RepoError {
    /// The kind of this failure.
    #[must_use]
    pub fn kind(&self) -> (k: RepoErrorKind)
        ensures
            k == kind_of(self@),
    {
        match self.0 {
            RepoErrorImpl::CouldNotOpenLockFile(_) => RepoErrorKind::CouldNotOpenLockFile,
            RepoErrorImpl::CouldNotLock(_) => RepoErrorKind::CouldNotLock,
            RepoErrorImpl::InvalidSharedPath(_) => RepoErrorKind::InvalidSharedPath,
            RepoErrorImpl::CouldNotComputeHash(_) => RepoErrorKind::CouldNotComputeHash,
            RepoErrorImpl::CouldNotDeleteDirectory(_) => RepoErrorKind::CouldNotDeleteDirectory,
            RepoErrorImpl::CouldNotDeleteFile(_) => RepoErrorKind::CouldNotDeleteFile,
            RepoErrorImpl::InvalidLinkFile(_, _, _) => RepoErrorKind::InvalidLinkFile,
            RepoErrorImpl::InvalidMetaId(_) => RepoErrorKind::InvalidMetaId,
            RepoErrorImpl::InvalidLinkId(_) => RepoErrorKind::InvalidLinkId,
            RepoErrorImpl::Other(_, _) => RepoErrorKind::Other,
        }
    }

    #[must_use]
    pub fn is_could_not_open_lock_file(&self) -> (b: bool)
        ensures
            b == (self@ is CouldNotOpenLockFile),
    {
        self.kind() == RepoErrorKind::CouldNotOpenLockFile
    }

    #[must_use]
    pub fn is_could_not_lock(&self) -> (b: bool)
        ensures
            b == (self@ is CouldNotLock),
    {
        self.kind() == RepoErrorKind::CouldNotLock
    }

    #[must_use]
    pub fn is_invalid_shared_path(&self) -> (b: bool)
        ensures
            b == (self@ is InvalidSharedPath),
    {
        self.kind() == RepoErrorKind::InvalidSharedPath
    }

    #[must_use]
    pub fn is_could_not_compute_hash(&self) -> (b: bool)
        ensures
            b == (self@ is CouldNotComputeHash),
    {
        self.kind() == RepoErrorKind::CouldNotComputeHash
    }

    #[must_use]
    pub fn is_could_not_delete_directory(&self) -> (b: bool)
        ensures
            b == (self@ is CouldNotDeleteDirectory),
    {
        self.kind() == RepoErrorKind::CouldNotDeleteDirectory
    }

    #[must_use]
    pub fn is_could_not_delete_file(&self) -> (b: bool)
        ensures
            b == (self@ is CouldNotDeleteFile),
    {
        self.kind() == RepoErrorKind::CouldNotDeleteFile
    }

    #[must_use]
    pub fn is_invalid_link_file(&self) -> (b: bool)
        ensures
            b == (self@ is InvalidLinkFile),
    {
        self.kind() == RepoErrorKind::InvalidLinkFile
    }

    #[must_use]
    pub fn is_invalid_meta_id(&self) -> (b: bool)
        ensures
            b == (self@ is InvalidMetaId),
    {
        self.kind() == RepoErrorKind::InvalidMetaId
    }

    #[must_use]
    pub fn is_invalid_link_id(&self) -> (b: bool)
        ensures
            b == (self@ is InvalidLinkId),
    {
        self.kind() == RepoErrorKind::InvalidLinkId
    }

    #[must_use]
    pub fn is_other(&self) -> (b: bool)
        ensures
            b == (self@ is Other),
    {
        self.kind() == RepoErrorKind::Other
    }

    /// Whether this failure wraps a cause that was a missing file.
    #[must_use]
    pub fn is_not_found(&self) -> (b: bool)
        ensures
            b == (self@ matches ErrorView::Other { not_found, .. } && not_found),
    {
        match &self.0 {
            RepoErrorImpl::Other(_, n) => *n,
            _ => false,
        }
    }

    pub fn could_not_open_lock_file(path: &str) -> (e: Self)
        ensures
            e@ == ErrorView::CouldNotOpenLockFile(path@),
    {
        RepoError(RepoErrorImpl::CouldNotOpenLockFile(path.to_owned()))
    }

    pub fn could_not_lock(path: &str) -> (e: Self)
        ensures
            e@ == ErrorView::CouldNotLock(path@),
    {
        RepoError(RepoErrorImpl::CouldNotLock(path.to_owned()))
    }

    pub fn invalid_shared_path(shared_path: &SharedPath) -> (e: Self)
        ensures
            e@ == ErrorView::InvalidSharedPath(shared_path@),
    {
        RepoError(RepoErrorImpl::InvalidSharedPath(shared_path.clone()))
    }

    pub fn could_not_compute_hash(project_dir: &str) -> (e: Self)
        ensures
            e@ == ErrorView::CouldNotComputeHash(project_dir@),
    {
        RepoError(RepoErrorImpl::CouldNotComputeHash(project_dir.to_owned()))
    }

    pub fn could_not_delete_directory(path: &str) -> (e: Self)
        ensures
            e@ == ErrorView::CouldNotDeleteDirectory(path@),
    {
        RepoError(RepoErrorImpl::CouldNotDeleteDirectory(path.to_owned()))
    }

    pub fn could_not_delete_file(path: &str) -> (e: Self)
        ensures
            e@ == ErrorView::CouldNotDeleteFile(path@),
    {
        RepoError(RepoErrorImpl::CouldNotDeleteFile(path.to_owned()))
    }

    pub fn invalid_link_file(link_path: &str, project_dir: &str, expected_project_dir: &str) -> (e:
        Self)
        ensures
            e@ == (ErrorView::InvalidLinkFile {
                link_path: link_path@,
                found: project_dir@,
                expected: expected_project_dir@,
            }),
    {
        RepoError(
            RepoErrorImpl::InvalidLinkFile(
                link_path.to_owned(),
                project_dir.to_owned(),
                expected_project_dir.to_owned(),
            ),
        )
    }

    pub fn invalid_meta_id(s: &str) -> (e: Self)
        ensures
            e@ == ErrorView::InvalidMetaId(s@),
    {
        RepoError(RepoErrorImpl::InvalidMetaId(s.to_owned()))
    }

    pub fn invalid_link_id(s: &str) -> (e: Self)
        ensures
            e@ == ErrorView::InvalidLinkId(s@),
    {
        RepoError(RepoErrorImpl::InvalidLinkId(s.to_owned()))
    }

    /// An underlying failure with its message; `not_found` marks a cause
    /// that was a missing file.
    pub fn other(message: &str, not_found: bool) -> (e: Self)
        ensures
            e@ == (ErrorView::Other { message: message@, not_found }),
    {
        RepoError(RepoErrorImpl::Other(message.to_owned(), not_found))
    }

    /// The message of this failure.
    pub fn message(&self) -> (s: String)
        ensures
            s@ == message_of(self@),
    {
        match &self.0 {
            RepoErrorImpl::CouldNotOpenLockFile(p) => "Could not open lock file ".to_owned().concat(
                p.as_str(),
            ),
            RepoErrorImpl::CouldNotLock(p) => "Could not lock lock file ".to_owned().concat(
                p.as_str(),
            ),
            RepoErrorImpl::InvalidSharedPath(p) => "Invalid shared path ".to_owned().concat(
                p.as_str(),
            ),
            RepoErrorImpl::CouldNotComputeHash(p) => "Could not compute MD5 hash for path "
                .to_owned().concat(p.as_str()),
            RepoErrorImpl::CouldNotDeleteDirectory(p) => "Could not delete directory ".to_owned()
                .concat(p.as_str()),
            RepoErrorImpl::CouldNotDeleteFile(p) => "Could not delete file ".to_owned().concat(
                p.as_str(),
            ),
            RepoErrorImpl::InvalidLinkFile(l, f, e) => "Project directory ".to_owned().concat(
                f.as_str(),
            ).concat(" specified in link file ").concat(l.as_str()).concat(
                " does not match expected directory ",
            ).concat(e.as_str()),
            RepoErrorImpl::InvalidMetaId(s) => "Invalid meta ID ".to_owned().concat(s.as_str()),
            RepoErrorImpl::InvalidLinkId(s) => "Invalid link ID ".to_owned().concat(s.as_str()),
            RepoErrorImpl::Other(m, _) => m.clone(),
        }
    }
}

} // verus!
