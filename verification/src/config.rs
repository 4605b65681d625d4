//! The paths that one repository uses.

use vstd::prelude::*;
use vstd::string::*;
use crate::error::{ErrorView, RepoError};
use crate::observed::{
    read_failure, FileRead, FileReadView, FileWrite, FileWriteView, LockOutcome, LockOutcomeView,
};
use crate::outcome::{optional_view, result_view};
use crate::path::{join, joined};
use crate::repo::{opened, Repo};

verus! {

/// What a [`RepoConfig`] holds.
pub struct RepoConfigView {
    pub lock_path: Seq<char>,
    pub config_path: Seq<char>,
    pub links_dir: Seq<char>,
    pub container_dir: Seq<char>,
    pub shared_dir: Seq<char>,
}

/// The five paths of a repository: its lock file, its configuration file,
/// and the directories of its links, its metadirectories and its shared
/// files.
#[derive(Debug)]
pub struct RepoConfig {
    pub lock_path: String,
    pub config_path: String,
    pub links_dir: String,
    pub container_dir: String,
    pub shared_dir: String,
}

impl View for RepoConfig {
    type V = RepoConfigView;

    open spec fn view(&self) -> RepoConfigView {
        RepoConfigView {
            lock_path: self.lock_path@,
            config_path: self.config_path@,
            links_dir: self.links_dir@,
            container_dir: self.container_dir@,
            shared_dir: self.shared_dir@,
        }
    }
}

impl Clone for RepoConfig {
    fn clone(&self) -> (r: Self)
        ensures
            r@ == self@,
    {
        RepoConfig {
            lock_path: self.lock_path.clone(),
            config_path: self.config_path.clone(),
            links_dir: self.links_dir.clone(),
            container_dir: self.container_dir.clone(),
            shared_dir: self.shared_dir.clone(),
        }
    }
}

/// What goes in front of each name: the prefix and a hyphen, or nothing.
pub open spec fn full_prefix(prefix: Option<Seq<char>>) -> Seq<char> {
    match prefix {
        Some(p) => p + "-"@,
        None => Seq::empty(),
    }
}

/// The paths of the repository in `base_dir` whose names begin with
/// `prefix`.
pub open spec fn default_config(base_dir: Seq<char>, prefix: Option<Seq<char>>) -> RepoConfigView {
    let full = full_prefix(prefix);
    RepoConfigView {
        lock_path: joined(base_dir, "."@ + full + "lock"@),
        config_path: joined(base_dir, full + "config.yaml"@),
        links_dir: joined(base_dir, full + "links"@),
        container_dir: joined(base_dir, full + "data"@),
        shared_dir: joined(base_dir, full + "shared"@),
    }
}

/// The text of `prefix`, if there is one.
pub open spec fn prefix_text(prefix: Option<&str>) -> Option<Seq<char>> {
    match prefix {
        Some(p) => Some(p@),
        None => None,
    }
}

/// What a [`StoredConfig`] says.
pub enum StoredConfigView {
    Present(FileReadView<RepoConfigView>),
    Absent(FileWriteView),
}

/// What the caller found where the configuration is kept, and did about
/// it.
#[derive(Debug)]
pub enum StoredConfig {
    /// A configuration file was there; this is the outcome of reading it.
    Present(FileRead<RepoConfig>),
    /// No configuration file was there; this is the outcome of writing
    /// the configuration at hand to it.
    Absent(FileWrite),
}

impl View for StoredConfig {
    type V = StoredConfigView;

    open spec fn view(&self) -> StoredConfigView {
        match self {
            StoredConfig::Present(file) => StoredConfigView::Present(file@),
            StoredConfig::Absent(written) => StoredConfigView::Absent(written@),
        }
    }
}

/// The configuration that holds from now on: the stored one where there is
/// one, and else `fresh`, once it is written.
pub open spec fn effective_config(fresh: RepoConfigView, stored: StoredConfigView) -> Result<
    RepoConfigView,
    ErrorView,
> {
    match stored {
        StoredConfigView::Present(FileReadView::Found(c)) => Ok(c),
        StoredConfigView::Present(file) => Err(read_failure(file)),
        StoredConfigView::Absent(FileWriteView::Done) => Ok(fresh),
        StoredConfigView::Absent(FileWriteView::Failed(m)) => Err(
            ErrorView::Other { message: m, not_found: false },
        ),
    }
}

/// The outcome of opening the repository of `fresh` where `stored` was
/// found and taking the lock ended in `lock`.
pub open spec fn bootstrapped(
    fresh: RepoConfigView,
    stored: StoredConfigView,
    lock: LockOutcomeView,
) -> Result<Option<RepoConfigView>, ErrorView> {
    match effective_config(fresh, stored) {
        Ok(c) => opened(c, lock),
        Err(e) => Err(e),
    }
}

impl RepoConfig {
    /// The paths of the repository in `base_dir`. With a prefix, each name
    /// begins with the prefix and a hyphen.
    #[must_use]
    pub fn default(base_dir: &str, prefix: Option<&str>) -> (c: Self)
        ensures
            c@ == default_config(base_dir@, prefix_text(prefix)),
    {
        let full = match prefix {
            Some(p) => p.to_owned().concat("-"),
            None => String::new(),
        };
        assert(full@ == full_prefix(prefix_text(prefix)));
        let lock_name = ".".to_owned().concat(full.as_str()).concat("lock");
        let config_name = full.clone().concat("config.yaml");
        let links_name = full.clone().concat("links");
        let data_name = full.clone().concat("data");
        let shared_name = full.concat("shared");
        RepoConfig {
            lock_path: join(base_dir, lock_name.as_str()),
            config_path: join(base_dir, config_name.as_str()),
            links_dir: join(base_dir, links_name.as_str()),
            container_dir: join(base_dir, data_name.as_str()),
            shared_dir: join(base_dir, shared_name.as_str()),
        }
    }

    /// The configuration that holds from now on. A configuration that is
    /// already stored comes before this one, so that a repository keeps the
    /// paths it was made with; where none is stored, this one holds once it
    /// is written.
    pub fn effective(self, stored: StoredConfig) -> (r: Result<RepoConfig, RepoError>)
        ensures
            result_view(r) == effective_config(self@, stored@),
    {
        match stored {
            StoredConfig::Present(file) => file.found(),
            StoredConfig::Absent(written) => match written.done() {
                Ok(_) => Ok(self),
                Err(e) => Err(e),
            },
        }
    }

    /// Opens the repository: settles which configuration holds, then hands
    /// out the repository if its lock was taken. `lock` is the outcome of
    /// taking the lock at the lock path of the configuration that holds.
    pub fn repo(self, stored: StoredConfig, lock: LockOutcome) -> (r: Result<
        Option<Repo>,
        RepoError,
    >)
        ensures
            optional_view(r) == bootstrapped(self@, stored@, lock@),
    {
        match self.effective(stored) {
            Ok(config) => Repo::new(config, lock),
            Err(e) => Err(e),
        }
    }
}

} // verus!
