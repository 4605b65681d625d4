//! What the caller saw when it went to the file system. The store decides;
//! the caller reads, writes, locks and deletes, and reports here.

use vstd::prelude::*;
use vstd::string::*;
use crate::error::{ErrorView, RepoError};

verus! {

/// What a [`FileRead`] says.
pub enum FileReadView<V> {
    Found(V),
    Missing(Seq<char>),
    Failed(Seq<char>),
}

/// The outcome of reading and decoding one file.
#[derive(Debug)]
pub enum FileRead<T> {
    /// The file was read and held this.
    Found(T),
    /// There was no such file; the message says what was looked for.
    Missing(String),
    /// The file could not be read or decoded; the message says why.
    Failed(String),
}

impl<T: View> View for FileRead<T> {
    type V = FileReadView<T::V>;

    open spec fn view(&self) -> FileReadView<T::V> {
        match self {
            FileRead::Found(t) => FileReadView::Found(t@),
            FileRead::Missing(m) => FileReadView::Missing(m@),
            FileRead::Failed(m) => FileReadView::Failed(m@),
        }
    }
}

/// The failure that a read stands for, where it did not find the file's
/// content.
pub open spec fn read_failure<V>(file: FileReadView<V>) -> ErrorView
    recommends
        !(file is Found),
{
    match file {
        FileReadView::Missing(m) => ErrorView::Other { message: m, not_found: true },
        FileReadView::Failed(m) => ErrorView::Other { message: m, not_found: false },
        FileReadView::Found(_) => arbitrary(),
    }
}

impl<T: View> FileRead<T> {
    /// What was read, or the failure that the read stands for.
    pub fn found(self) -> (r: Result<T, RepoError>)
        ensures
            match r {
                Ok(t) => self@ == FileReadView::Found(t@),
                Err(e) => !(self@ is Found) && e@ == read_failure(self@),
            },
    {
        match self {
            FileRead::Found(t) => Ok(t),
            FileRead::Missing(m) => Err(RepoError::other(m.as_str(), true)),
            FileRead::Failed(m) => Err(RepoError::other(m.as_str(), false)),
        }
    }
}

/// What a [`FileWrite`] says.
pub enum FileWriteView {
    Done,
    Failed(Seq<char>),
}

/// The outcome of writing one file.
#[derive(Debug)]
pub enum FileWrite {
    /// The file is in place.
    Done,
    /// The file could not be written; the message says why.
    Failed(String),
}

impl View for FileWrite {
    type V = FileWriteView;

    open spec fn view(&self) -> FileWriteView {
        match self {
            FileWrite::Done => FileWriteView::Done,
            FileWrite::Failed(m) => FileWriteView::Failed(m@),
        }
    }
}

impl FileWrite {
    /// Nothing, or the failure that the write stands for.
    pub fn done(self) -> (r: Result<(), RepoError>)
        ensures
            match r {
                Ok(_) => self@ is Done,
                Err(e) => self@ matches FileWriteView::Failed(m) && e@ == (ErrorView::Other {
                    message: m,
                    not_found: false,
                }),
            },
    {
        match self {
            FileWrite::Done => Ok(()),
            FileWrite::Failed(m) => Err(RepoError::other(m.as_str(), false)),
        }
    }
}

/// What a [`LockOutcome`] says.
pub enum LockOutcomeView {
    NotCreated(Seq<char>),
    NotOpened,
    NotLocked,
    Busy,
    Held,
}

/// The outcome of taking the repository's lock: the lock file is made sure
/// to exist, then opened, then locked without waiting.
#[derive(Debug)]
pub enum LockOutcome {
    /// The lock file did not exist and could not be made; the message says
    /// why.
    NotCreated(String),
    /// The lock file could not be opened.
    NotOpened,
    /// Locking failed.
    NotLocked,
    /// Another process holds the lock.
    Busy,
    /// This process holds the lock now.
    Held,
}

impl View for LockOutcome {
    type V = LockOutcomeView;

    open spec fn view(&self) -> LockOutcomeView {
        match self {
            LockOutcome::NotCreated(m) => LockOutcomeView::NotCreated(m@),
            LockOutcome::NotOpened => LockOutcomeView::NotOpened,
            LockOutcome::NotLocked => LockOutcomeView::NotLocked,
            LockOutcome::Busy => LockOutcomeView::Busy,
            LockOutcome::Held => LockOutcomeView::Held,
        }
    }
}

} // verus!
