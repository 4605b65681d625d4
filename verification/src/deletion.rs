//! What the caller is asked to delete, and the failure to report when it
//! cannot.

use vstd::prelude::*;
use vstd::string::*;
use crate::error::{ErrorView, RepoError};

verus! {

/// What a [`Deletion`] asks for.
pub enum DeletionView {
    File(Seq<char>),
    Directory(Seq<char>),
}

/// One thing to delete.
#[derive(Debug)]
pub enum Deletion {
    /// The file at this path.
    File(String),
    /// The directory at this path, with all that is in it.
    Directory(String),
}

impl View for Deletion {
    type V = DeletionView;

    open spec fn view(&self) -> DeletionView {
        match self {
            Deletion::File(p) => DeletionView::File(p@),
            Deletion::Directory(p) => DeletionView::Directory(p@),
        }
    }
}

/// The failure that stands for a deletion that did not succeed.
pub open spec fn failure_of(d: DeletionView) -> ErrorView {
    match d {
        DeletionView::File(p) => ErrorView::CouldNotDeleteFile(p),
        DeletionView::Directory(p) => ErrorView::CouldNotDeleteDirectory(p),
    }
}

impl Deletion {
    /// The path of what is to be deleted.
    pub fn path(&self) -> (p: &str)
        ensures
            match self@ {
                DeletionView::File(q) => p@ == q,
                DeletionView::Directory(q) => p@ == q,
            },
    {
        match self {
            Deletion::File(p) => p.as_str(),
            Deletion::Directory(p) => p.as_str(),
        }
    }

    /// The failure to report when this deletion did not succeed.
    pub fn failure(&self) -> (e: RepoError)
        ensures
            e@ == failure_of(self@),
    {
        match self {
            Deletion::File(p) => RepoError::could_not_delete_file(p.as_str()),
            Deletion::Directory(p) => RepoError::could_not_delete_directory(p.as_str()),
        }
    }
}

} // verus!
