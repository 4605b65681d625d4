//! The repository: what each operation decides, given what the caller saw.
//!
//! An operation that needs the file system comes in steps. The caller asks
//! the repository where to look, looks, and hands in what it saw; the
//! repository answers with what is to be returned and what is to be
//! written or deleted.

use vstd::prelude::*;
use vstd::string::*;
use crate::config::{RepoConfig, RepoConfigView};
use crate::deletion::{failure_of, Deletion, DeletionView};
use crate::dir_info::{DirInfo, DirInfoView};
use crate::error::{ErrorView, RepoError};
use crate::hex::hex_of_u128;
use crate::link::{Link, LinkRecord, LinkRecordView, LinkView};
use crate::link_id::{link_id_of, LinkId};
use crate::manifest::{Manifest, ManifestRecord, ManifestRecordView, ManifestView};
use crate::meta_id::MetaId;
use crate::observed::{
    read_failure, FileRead, FileReadView, FileWrite, FileWriteView, LockOutcome, LockOutcomeView,
};
use crate::outcome::{optional_view, plain_view, result_view};
use crate::path::{absolute, is_within, join, joined, within};
use crate::record_write::{link_write, manifest_write, write_views, RecordWrite, RecordWriteView};
use crate::shared_path::SharedPath;
use crate::timestamp::{now, Timestamp};
use crate::trash::deletion_views;

verus! {

/// The outcome of opening the repository of `config` where taking the lock
/// ended in `lock`: the repository, nothing where it is in use, or the
/// failure.
pub open spec fn opened(config: RepoConfigView, lock: LockOutcomeView) -> Result<
    Option<RepoConfigView>,
    ErrorView,
> {
    match lock {
        LockOutcomeView::NotCreated(m) => Err(ErrorView::Other { message: m, not_found: false }),
        LockOutcomeView::NotOpened => Err(ErrorView::CouldNotOpenLockFile(config.lock_path)),
        LockOutcomeView::NotLocked => Err(ErrorView::CouldNotLock(config.lock_path)),
        LockOutcomeView::Busy => Ok(None),
        LockOutcomeView::Held => Ok(Some(config)),
    }
}

/// The path of the link file for the identifier `id`.
pub open spec fn link_path_for(c: RepoConfigView, id: Seq<char>) -> Seq<char> {
    joined(c.links_dir, id + ".yaml"@)
}

/// The path of the link file of the project directory `dir`.
pub open spec fn link_path_of(c: RepoConfigView, dir: Seq<char>) -> Seq<char> {
    link_path_for(c, link_id_of(dir))
}

/// The data directory of the metadirectory `meta_id`.
pub open spec fn data_dir_of(c: RepoConfigView, meta_id: u128) -> Seq<char> {
    joined(c.container_dir, hex_of_u128(meta_id))
}

/// The path of the manifest file in the data directory `data_dir`.
pub open spec fn manifest_path_in(data_dir: Seq<char>) -> Seq<char> {
    joined(data_dir, "manifest.yaml"@)
}

/// The manifest whose record `record` is kept in `data_dir`.
pub open spec fn manifest_at(data_dir: Seq<char>, record: ManifestRecordView) -> ManifestView {
    ManifestView { data_dir, manifest_path: manifest_path_in(data_dir), record }
}

/// Where the link file of `dir` lies, if `dir` can have one.
pub open spec fn located(c: RepoConfigView, dir: Seq<char>) -> Result<Seq<char>, ErrorView> {
    if absolute(dir) {
        Ok(link_path_of(c, dir))
    } else {
        Err(ErrorView::CouldNotComputeHash(dir))
    }
}

/// The link that `init` and `link` make for `dir`.
pub open spec fn new_link(c: RepoConfigView, dir: Seq<char>, meta_id: u128, created_at: Timestamp)
    -> LinkView {
    LinkView {
        link_path: link_path_of(c, dir),
        record: LinkRecordView {
            created_at,
            link_id: link_id_of(dir),
            project_dir: dir,
            meta_id,
        },
    }
}

/// The outcome of `init`: nothing where `dir` has a link already, and else
/// a new metadirectory `meta_id` with a link from `dir`.
pub open spec fn initialized(
    c: RepoConfigView,
    dir: Seq<char>,
    link_exists: bool,
    meta_id: u128,
    manifest_created_at: Timestamp,
    link_created_at: Timestamp,
) -> Result<Option<DirInfoView>, ErrorView> {
    if !absolute(dir) {
        Err(ErrorView::CouldNotComputeHash(dir))
    } else if link_exists {
        Ok(None)
    } else {
        Ok(
            Some(
                DirInfoView {
                    manifest: manifest_at(
                        data_dir_of(c, meta_id),
                        ManifestRecordView {
                            created_at: manifest_created_at,
                            original_project_dir: dir,
                            meta_id,
                        },
                    ),
                    link: new_link(c, dir, meta_id, link_created_at),
                },
            ),
        )
    }
}

/// The outcome of reading the manifest of the data directory `data_dir`.
pub open spec fn manifest_read(data_dir: Seq<char>, file: FileReadView<ManifestRecordView>)
    -> Result<ManifestView, ErrorView> {
    match file {
        FileReadView::Found(record) => Ok(manifest_at(data_dir, record)),
        _ => Err(read_failure(file)),
    }
}

/// The outcome of reading the link file at `link_path`: a file that is not
/// there is no link, and no failure.
pub open spec fn link_read(link_path: Seq<char>, file: FileReadView<LinkRecordView>) -> Result<
    Option<LinkView>,
    ErrorView,
> {
    match file {
        FileReadView::Found(record) => Ok(Some(LinkView { link_path, record })),
        FileReadView::Missing(_) => Ok(None),
        FileReadView::Failed(m) => Err(ErrorView::Other { message: m, not_found: false }),
    }
}

/// The first half of `get`: the link of `dir`, where `link_file` is `None`
/// if no link file is there and else what reading it gave. A link file
/// that names another project directory is a failure.
pub open spec fn got_link(
    c: RepoConfigView,
    dir: Seq<char>,
    link_file: Option<FileReadView<LinkRecordView>>,
) -> Result<Option<LinkView>, ErrorView> {
    if !absolute(dir) {
        Err(ErrorView::CouldNotComputeHash(dir))
    } else {
        match link_file {
            None => Ok(None),
            Some(FileReadView::Found(record)) => if record.project_dir == dir {
                Ok(Some(LinkView { link_path: link_path_of(c, dir), record }))
            } else {
                Err(
                    ErrorView::InvalidLinkFile {
                        link_path: link_path_of(c, dir),
                        found: record.project_dir,
                        expected: dir,
                    },
                )
            },
            Some(file) => Err(read_failure(file)),
        }
    }
}

/// The outcome of `get`: the link of `dir` as in [`got_link`], with the
/// manifest that it points to, read from `manifest_file`.
pub open spec fn got(
    c: RepoConfigView,
    dir: Seq<char>,
    link_file: Option<FileReadView<LinkRecordView>>,
    manifest_file: FileReadView<ManifestRecordView>,
) -> Result<Option<DirInfoView>, ErrorView> {
    match got_link(c, dir, link_file) {
        Err(e) => Err(e),
        Ok(None) => Ok(None),
        Ok(Some(link)) => match manifest_read(data_dir_of(c, link.record.meta_id), manifest_file) {
            Ok(manifest) => Ok(Some(DirInfoView { manifest, link })),
            Err(e) => Err(e),
        },
    }
}

/// The outcome of `link`: the manifest of `meta_id` must be readable; then
/// nothing where `dir` has a link already, and else a new link from `dir`.
pub open spec fn linked(
    c: RepoConfigView,
    meta_id: u128,
    dir: Seq<char>,
    manifest_file: FileReadView<ManifestRecordView>,
    link_exists: bool,
    created_at: Timestamp,
) -> Result<Option<DirInfoView>, ErrorView> {
    match manifest_read(data_dir_of(c, meta_id), manifest_file) {
        Err(e) => Err(e),
        Ok(manifest) => if !absolute(dir) {
            Err(ErrorView::CouldNotComputeHash(dir))
        } else if link_exists {
            Ok(None)
        } else {
            Ok(Some(DirInfoView { manifest, link: new_link(c, dir, meta_id, created_at) }))
        },
    }
}

/// The one deletion that `remove` asks for: the link file of what was
/// found.
pub open spec fn removal(found: Option<DirInfoView>) -> Option<DeletionView> {
    match found {
        Some(info) => Some(DeletionView::File(info.link.link_path)),
        None => None,
    }
}

/// The outcome of `remove`: whether a link was removed. A link file that
/// could not be deleted is the failure.
pub open spec fn removed(found: Option<DirInfoView>, deleted: bool) -> Result<bool, ErrorView> {
    match found {
        None => Ok(false),
        Some(info) => if deleted {
            Ok(true)
        } else {
            Err(ErrorView::CouldNotDeleteFile(info.link.link_path))
        },
    }
}

/// The writes that carry out `init`: the manifest first, the link second,
/// so that no link is on disk before its manifest.
pub open spec fn init_writes(made: DirInfoView) -> Seq<RecordWriteView> {
    seq![manifest_write(made.manifest), link_write(made.link)]
}

/// The one write that carries out `link`: the new link.
pub open spec fn link_writes(made: DirInfoView) -> Seq<RecordWriteView> {
    seq![link_write(made.link)]
}

/// The links that a scan of the links directory gives: the files that
/// were read, in order. A file that is gone by the time it is read is
/// passed over; any other failure ends the scan.
pub open spec fn listed_links(entries: Seq<(Seq<char>, FileReadView<LinkRecordView>)>) -> Result<
    Seq<LinkView>,
    ErrorView,
>
    decreases entries.len(),
{
    if entries.len() == 0 {
        Ok(Seq::empty())
    } else {
        match listed_links(entries.drop_last()) {
            Err(e) => Err(e),
            Ok(links) => match link_read(entries.last().0, entries.last().1) {
                Ok(Some(link)) => Ok(links.push(link)),
                Ok(None) => Ok(links),
                Err(e) => Err(e),
            },
        }
    }
}

/// The manifests that a scan of the container directory gives: one for
/// each data directory, in order. A data directory whose manifest cannot
/// be read ends the scan.
pub open spec fn listed_manifests(
    entries: Seq<(Seq<char>, FileReadView<ManifestRecordView>)>,
) -> Result<Seq<ManifestView>, ErrorView>
    decreases entries.len(),
{
    if entries.len() == 0 {
        Ok(Seq::empty())
    } else {
        match listed_manifests(entries.drop_last()) {
            Err(e) => Err(e),
            Ok(manifests) => match manifest_read(entries.last().0, entries.last().1) {
                Ok(manifest) => Ok(manifests.push(manifest)),
                Err(e) => Err(e),
            },
        }
    }
}

/// What the entries of a scan of the links directory hold.
pub open spec fn link_entries(entries: Seq<(String, FileRead<LinkRecord>)>) -> Seq<
    (Seq<char>, FileReadView<LinkRecordView>),
> {
    entries.map_values(|e: (String, FileRead<LinkRecord>)| (e.0@, e.1@))
}

/// What the entries of a scan of the container directory hold.
pub open spec fn manifest_entries(entries: Seq<(String, FileRead<ManifestRecord>)>) -> Seq<
    (Seq<char>, FileReadView<ManifestRecordView>),
> {
    entries.map_values(|e: (String, FileRead<ManifestRecord>)| (e.0@, e.1@))
}

/// What a list of links holds.
pub open spec fn links_view(r: Result<Vec<Link>, RepoError>) -> Result<Seq<LinkView>, ErrorView> {
    match r {
        Ok(links) => Ok(links@.map_values(|l: Link| l@)),
        Err(e) => Err(e@),
    }
}

/// What a list of manifests holds.
pub open spec fn manifests_view(r: Result<Vec<Manifest>, RepoError>) -> Result<
    Seq<ManifestView>,
    ErrorView,
> {
    match r {
        Ok(manifests) => Ok(manifests@.map_values(|m: Manifest| m@)),
        Err(e) => Err(e@),
    }
}

/// The deletions that purge the repository: what the callers stored first,
/// what the repository runs on last.
pub open spec fn purge_plan(c: RepoConfigView) -> Seq<DeletionView> {
    seq![
        DeletionView::Directory(c.shared_dir),
        DeletionView::Directory(c.container_dir),
        DeletionView::Directory(c.links_dir),
        DeletionView::File(c.config_path),
        DeletionView::File(c.lock_path),
    ]
}

/// The outcome of `purge`, where `failed_at` is the place in the plan of
/// the deletion that failed, if one did.
pub open spec fn purged(c: RepoConfigView, failed_at: Option<usize>) -> Result<(), ErrorView> {
    match failed_at {
        Some(k) => if k < purge_plan(c).len() {
            Err(failure_of(purge_plan(c)[k as int]))
        } else {
            Ok(())
        },
        None => Ok(()),
    }
}

/// Where the shared path `path` leads, read from the shared directory and
/// freed of `.` and `..`; `None` where that is no text.
pub uninterp spec fn absolutized(path: Seq<char>, base: Seq<char>) -> Option<Seq<char>>;

/// Calls `path_absolutize::Absolutize::absolutize_from` on `path` with
/// `base` as the directory to start from. Trusted: the result is a function
/// of the two texts.
#[verifier::external_body]
fn absolutize_from(path: &str, base: &str) -> (r: Option<String>)
    ensures
        match r {
            Some(p) => absolutized(path@, base@) == Some(p@),
            None => absolutized(path@, base@) is None,
        },
{
    let from = std::path::Path::new(base);
    let to = path_absolutize::Absolutize::absolutize_from(std::path::Path::new(path), from);
    to.to_str().map(|p| p.to_owned())
}

/// The outcome of resolving the shared path `path`. `target` is where
/// the path leads as text; `seen_root` and `seen_target` are the shared
/// directory and the target as the file system has them, every symbolic
/// link followed. The path resolves to its target when the target lies
/// within the shared directory both as text and as seen; every other path
/// is refused.
pub open spec fn resolved(
    c: RepoConfigView,
    path: Seq<char>,
    target: Option<Seq<char>>,
    seen_root: Seq<char>,
    seen_target: Option<Seq<char>>,
) -> Result<Seq<char>, ErrorView> {
    if target is Some && seen_target is Some && within(target->Some_0, c.shared_dir) && within(
        seen_target->Some_0,
        seen_root,
    ) {
        Ok(target->Some_0)
    } else {
        Err(ErrorView::InvalidSharedPath(path))
    }
}

/// Where the shared path `path` leads as text, if that lies within the
/// shared directory: the resolution on a file system without symbolic
/// links.
pub open spec fn shared_target(c: RepoConfigView, path: Seq<char>, target: Option<Seq<char>>)
    -> Result<Seq<char>, ErrorView> {
    resolved(c, path, target, c.shared_dir, target)
}

/// The outcome of reading a shared file: a file that is not there reads
/// as nothing.
pub open spec fn shared_read(
    resolution: Result<Seq<char>, ErrorView>,
    file: FileReadView<Seq<char>>,
) -> Result<Option<Seq<char>>, ErrorView> {
    match resolution {
        Err(e) => Err(e),
        Ok(_) => match file {
            FileReadView::Found(text) => Ok(Some(text)),
            FileReadView::Missing(_) => Ok(None),
            FileReadView::Failed(m) => Err(ErrorView::Other { message: m, not_found: false }),
        },
    }
}

/// The outcome of writing a shared file.
pub open spec fn shared_written(resolution: Result<Seq<char>, ErrorView>, written: FileWriteView)
    -> Result<(), ErrorView> {
    match resolution {
        Err(e) => Err(e),
        Ok(_) => match written {
            FileWriteView::Done => Ok(()),
            FileWriteView::Failed(m) => Err(ErrorView::Other { message: m, not_found: false }),
        },
    }
}

/// The text of a path that may be missing.
pub open spec fn seen_text(text: Option<&str>) -> Option<Seq<char>> {
    match text {
        Some(t) => Some(t@),
        None => None,
    }
}

/// What was seen where a link file may lie.
pub open spec fn seen_link(link_file: Option<FileRead<LinkRecord>>) -> Option<
    FileReadView<LinkRecordView>,
> {
    match link_file {
        Some(file) => Some(file@),
        None => None,
    }
}

/// What a [`DirInfo`] that may be missing holds.
pub open spec fn seen_info(found: Option<DirInfo>) -> Option<DirInfoView> {
    match found {
        Some(info) => Some(info@),
        None => None,
    }
}

/// A repository whose lock this process holds.
#[derive(Debug)]
pub struct Repo {
    config: RepoConfig,
}

impl View for Repo {
    type V = RepoConfigView;

    closed spec fn view(&self) -> RepoConfigView {
        self.config@
    }
}

impl Repo {
    /// The repository of `config`, if its lock was taken. Where another
    /// process holds the lock there is no repository to hand out, and that
    /// is no failure.
    pub fn new(config: RepoConfig, lock: LockOutcome) -> (r: Result<Option<Repo>, RepoError>)
        ensures
            optional_view(r) == opened(config@, lock@),
    {
        match lock {
            LockOutcome::NotCreated(m) => Err(RepoError::other(m.as_str(), false)),
            LockOutcome::NotOpened => Err(
                RepoError::could_not_open_lock_file(config.lock_path.as_str()),
            ),
            LockOutcome::NotLocked => Err(RepoError::could_not_lock(config.lock_path.as_str())),
            LockOutcome::Busy => Ok(None),
            LockOutcome::Held => Ok(Some(Repo { config })),
        }
    }

    /// The paths that this repository uses.
    #[must_use]
    pub fn config(&self) -> (c: &RepoConfig)
        ensures
            c@ == self@,
    {
        &self.config
    }

    #[must_use]
    pub fn lock_path(&self) -> (p: &str)
        ensures
            p@ == self@.lock_path,
    {
        self.config.lock_path.as_str()
    }

    #[must_use]
    pub fn config_path(&self) -> (p: &str)
        ensures
            p@ == self@.config_path,
    {
        self.config.config_path.as_str()
    }

    #[must_use]
    pub fn links_dir(&self) -> (p: &str)
        ensures
            p@ == self@.links_dir,
    {
        self.config.links_dir.as_str()
    }

    #[must_use]
    pub fn container_dir(&self) -> (p: &str)
        ensures
            p@ == self@.container_dir,
    {
        self.config.container_dir.as_str()
    }

    #[must_use]
    pub fn shared_dir(&self) -> (p: &str)
        ensures
            p@ == self@.shared_dir,
    {
        self.config.shared_dir.as_str()
    }

    /// The path of the link file for `link_id`.
    pub fn make_link_path(&self, link_id: &LinkId) -> (p: String)
        ensures
            p@ == link_path_for(self@, link_id@),
    {
        let name = link_id.to_string().concat(".yaml");
        join(self.config.links_dir.as_str(), name.as_str())
    }

    /// The data directory of the metadirectory `meta_id`.
    pub fn make_data_dir(&self, meta_id: &MetaId) -> (p: String)
        ensures
            p@ == data_dir_of(self@, meta_id@),
    {
        let name = meta_id.to_string();
        join(self.config.container_dir.as_str(), name.as_str())
    }

    /// The path of the manifest file of the metadirectory `meta_id`.
    pub fn manifest_path(&self, meta_id: &MetaId) -> (p: String)
        ensures
            p@ == manifest_path_in(data_dir_of(self@, meta_id@)),
    {
        let data_dir = self.make_data_dir(meta_id);
        join(data_dir.as_str(), "manifest.yaml")
    }

    /// The path of the link file of `project_dir`, which must be absolute.
    pub fn link_path(&self, project_dir: &str) -> (r: Result<String, RepoError>)
        ensures
            result_view(r) == located(self@, project_dir@),
    {
        match LinkId::from_path(project_dir) {
            Ok(link_id) => Ok(self.make_link_path(&link_id)),
            Err(e) => Err(e),
        }
    }

    /// The links that a scan of the links directory gives. `entries` holds,
    /// for each file in that directory and in the order of the scan, the
    /// file's path and what reading it gave.
    pub fn list_links(&self, entries: &Vec<(String, FileRead<LinkRecord>)>) -> (r: Result<
        Vec<Link>,
        RepoError,
    >)
        ensures
            links_view(r) == listed_links(link_entries(entries@)),
    {
        let ghost all = link_entries(entries@);
        let mut links: Vec<Link> = Vec::new();
        let mut i: usize = 0;
        assert(all.take(0).len() == 0);
        assert(links@.map_values(|l: Link| l@) =~= Seq::<LinkView>::empty());
        while i < entries.len()
            invariant
                i <= entries.len(),
                all == link_entries(entries@),
                listed_links(all.take(i as int)) == Ok::<Seq<LinkView>, ErrorView>(
                    links@.map_values(|l: Link| l@),
                ),
            decreases entries.len() - i,
        {
            let ghost before = links@.map_values(|l: Link| l@);
            assert(all.take(i + 1).drop_last() =~= all.take(i as int));
            assert(all.take(i + 1).last() == (entries@[i as int].0@, entries@[i as int].1@));
            match self.read_link_from_link_path(entries[i].0.as_str(), &entries[i].1) {
                Ok(Some(link)) => {
                    links.push(link);
                    assert(links@.map_values(|l: Link| l@) =~= before.push(link@));
                },
                Ok(None) => {},
                Err(e) => {
                    proof {
                        lemma_listed_links_fails(all, i + 1);
                    }
                    return Err(e);
                },
            }
            i += 1;
        }
        assert(all.take(entries.len() as int) =~= all);
        Ok(links)
    }

    /// The manifests that a scan of the container directory gives.
    /// `entries` holds, for each directory in the container directory and
    /// in the order of the scan, the directory's path and what reading its
    /// manifest gave.
    pub fn list_manifests(&self, entries: &Vec<(String, FileRead<ManifestRecord>)>) -> (r: Result<
        Vec<Manifest>,
        RepoError,
    >)
        ensures
            manifests_view(r) == listed_manifests(manifest_entries(entries@)),
    {
        let ghost all = manifest_entries(entries@);
        let mut manifests: Vec<Manifest> = Vec::new();
        let mut i: usize = 0;
        assert(all.take(0).len() == 0);
        assert(manifests@.map_values(|m: Manifest| m@) =~= Seq::<ManifestView>::empty());
        while i < entries.len()
            invariant
                i <= entries.len(),
                all == manifest_entries(entries@),
                listed_manifests(all.take(i as int)) == Ok::<Seq<ManifestView>, ErrorView>(
                    manifests@.map_values(|m: Manifest| m@),
                ),
            decreases entries.len() - i,
        {
            let ghost before = manifests@.map_values(|m: Manifest| m@);
            assert(all.take(i + 1).drop_last() =~= all.take(i as int));
            assert(all.take(i + 1).last() == (entries@[i as int].0@, entries@[i as int].1@));
            match self.read_manifest_from_datadir(entries[i].0.as_str(), &entries[i].1) {
                Ok(manifest) => {
                    manifests.push(manifest);
                    assert(manifests@.map_values(|m: Manifest| m@) =~= before.push(manifest@));
                },
                Err(e) => {
                    proof {
                        lemma_listed_manifests_fails(all, i + 1);
                    }
                    return Err(e);
                },
            }
            i += 1;
        }
        assert(all.take(entries.len() as int) =~= all);
        Ok(manifests)
    }

    /// Decides `init` with everything given: the identifier of the new
    /// metadirectory and the times at which its manifest and its link are
    /// made.
    pub fn init_with(
        &self,
        project_dir: &str,
        link_exists: bool,
        meta_id: MetaId,
        manifest_created_at: Timestamp,
        link_created_at: Timestamp,
    ) -> (r: Result<Option<DirInfo>, RepoError>)
        ensures
            optional_view(r) == initialized(
                self@,
                project_dir@,
                link_exists,
                meta_id@,
                manifest_created_at,
                link_created_at,
            ),
    {
        let link_id = match LinkId::from_path(project_dir) {
            Ok(link_id) => link_id,
            Err(e) => {
                return Err(e);
            },
        };
        if link_exists {
            return Ok(None);
        }
        let link_path = self.make_link_path(&link_id);
        let data_dir = self.make_data_dir(&meta_id);
        let manifest_path = join(data_dir.as_str(), "manifest.yaml");
        let manifest_record = ManifestRecord::new(manifest_created_at, project_dir, meta_id);
        let link_record = LinkRecord::new(link_created_at, link_id, project_dir, meta_id);
        Ok(
            Some(
                DirInfo::new(
                    Manifest::new(data_dir, manifest_path, manifest_record),
                    Link::new(link_path, link_record),
                ),
            ),
        )
    }

    /// Sets up a metadirectory for `project_dir`, unless it has a link
    /// already: then there is nothing to do, and nothing is returned.
    /// `link_exists` says whether a file lies at [`Repo::link_path`]. The
    /// identifier and the times are drawn only where a metadirectory is
    /// made. The caller makes the writes of [`Repo::init_writes`] for what
    /// is returned.
    pub fn init(&self, project_dir: &str, link_exists: bool) -> (r: Result<
        Option<DirInfo>,
        RepoError,
    >)
        ensures
            exists|meta_id: u128, manifest_created_at: Timestamp, link_created_at: Timestamp|
                optional_view(r) == #[trigger] initialized(
                    self@,
                    project_dir@,
                    link_exists,
                    meta_id,
                    manifest_created_at,
                    link_created_at,
                ),
    {
        let ghost never = Timestamp { secs: 0, nanos: 0 };
        if let Err(e) = LinkId::from_path(project_dir) {
            assert(optional_view::<DirInfo>(Err(e)) == initialized(
                self@,
                project_dir@,
                link_exists,
                0,
                never,
                never,
            ));
            return Err(e);
        }
        if link_exists {
            assert(optional_view::<DirInfo>(Ok(None)) == initialized(
                self@,
                project_dir@,
                link_exists,
                0,
                never,
                never,
            ));
            return Ok(None);
        }
        let meta_id = MetaId::random();
        let manifest_created_at = now();
        let link_created_at = now();
        let r = self.init_with(
            project_dir,
            link_exists,
            meta_id,
            manifest_created_at,
            link_created_at,
        );
        assert(optional_view(r) == initialized(
            self@,
            project_dir@,
            link_exists,
            meta_id@,
            manifest_created_at,
            link_created_at,
        ));
        r
    }

    /// The writes that carry out `init` for what it returned, in the order
    /// in which they are to be made: the manifest first, the link second.
    pub fn init_writes(&self, made: &DirInfo) -> (plan: Vec<RecordWrite>)
        ensures
            write_views(plan@) == init_writes(made@),
    {
        let mut plan: Vec<RecordWrite> = Vec::new();
        plan.push(RecordWrite::of_manifest(made.manifest()));
        plan.push(RecordWrite::of_link(made.link()));
        assert(write_views(plan@) =~= init_writes(made@));
        plan
    }

    /// The one write that carries out `link` for what it returned.
    pub fn link_writes(&self, made: &DirInfo) -> (plan: Vec<RecordWrite>)
        ensures
            write_views(plan@) == link_writes(made@),
    {
        let mut plan: Vec<RecordWrite> = Vec::new();
        plan.push(RecordWrite::of_link(made.link()));
        assert(write_views(plan@) =~= link_writes(made@));
        plan
    }

    /// The one deletion that carries out `remove`: the link file of what
    /// `get` found for the project directory, and nothing where it found
    /// nothing. Manifests are never deleted here: that is for the trash.
    pub fn removal(&self, found: &Option<DirInfo>) -> (d: Option<Deletion>)
        ensures
            match d {
                Some(x) => removal(seen_info(*found)) == Some(x@),
                None => removal(seen_info(*found)) is None,
            },
    {
        match found {
            Some(info) => Some(Deletion::File(info.link_path().to_owned())),
            None => None,
        }
    }

    /// Tells whether a link was removed. `found` is what `get` gave for the
    /// project directory, and `deleted` whether the deletion of
    /// [`Repo::removal`] was made.
    pub fn remove(&self, found: &Option<DirInfo>, deleted: bool) -> (r: Result<bool, RepoError>)
        ensures
            plain_view(r) == removed(seen_info(*found), deleted),
    {
        match found {
            None => Ok(false),
            Some(info) => if deleted {
                Ok(true)
            } else {
                Err(RepoError::could_not_delete_file(info.link_path()))
            },
        }
    }

    /// The link of `project_dir`, checked against the directory it was
    /// looked up for. `link_file` is `None` where no file lies at
    /// [`Repo::link_path`], and else what reading that file gave.
    pub fn get_link(&self, project_dir: &str, link_file: &Option<FileRead<LinkRecord>>) -> (r:
        Result<Option<Link>, RepoError>)
        ensures
            optional_view(r) == got_link(self@, project_dir@, seen_link(*link_file)),
    {
        let link_id = match LinkId::from_path(project_dir) {
            Ok(link_id) => link_id,
            Err(e) => {
                return Err(e);
            },
        };
        let link_path = self.make_link_path(&link_id);
        match link_file {
            None => Ok(None),
            Some(FileRead::Found(record)) => {
                if record.project_dir().to_owned() != project_dir.to_owned() {
                    Err(
                        RepoError::invalid_link_file(
                            link_path.as_str(),
                            record.project_dir(),
                            project_dir,
                        ),
                    )
                } else {
                    Ok(Some(Link::new(link_path, record.clone())))
                }
            },
            Some(FileRead::Missing(m)) => Err(RepoError::other(m.as_str(), true)),
            Some(FileRead::Failed(m)) => Err(RepoError::other(m.as_str(), false)),
        }
    }

    /// What the store knows of `project_dir`: its link and the manifest
    /// that the link points to, or nothing where it has no link.
    /// `link_file` is as in [`Repo::get_link`]; `manifest_file` is what
    /// reading the manifest of the link's metadirectory gave, and is not
    /// looked at where there is no link.
    pub fn get(
        &self,
        project_dir: &str,
        link_file: &Option<FileRead<LinkRecord>>,
        manifest_file: &FileRead<ManifestRecord>,
    ) -> (r: Result<Option<DirInfo>, RepoError>)
        ensures
            optional_view(r) == got(self@, project_dir@, seen_link(*link_file), manifest_file@),
    {
        let link = match self.get_link(project_dir, link_file) {
            Ok(Some(link)) => link,
            Ok(None) => {
                return Ok(None);
            },
            Err(e) => {
                return Err(e);
            },
        };
        match self.read_manifest(link.meta_id(), manifest_file) {
            Ok(manifest) => Ok(Some(DirInfo::new(manifest, link))),
            Err(e) => Err(e),
        }
    }

    /// The manifest of the metadirectory `meta_id`, where `file` is what
    /// reading the file at [`Repo::manifest_path`] gave.
    pub fn read_manifest(&self, meta_id: &MetaId, file: &FileRead<ManifestRecord>) -> (r: Result<
        Manifest,
        RepoError,
    >)
        ensures
            result_view(r) == manifest_read(data_dir_of(self@, meta_id@), file@),
    {
        let data_dir = self.make_data_dir(meta_id);
        self.read_manifest_from_datadir(data_dir.as_str(), file)
    }

    /// The manifest of the data directory `data_dir`, where `file` is what
    /// reading its manifest file gave.
    pub fn read_manifest_from_datadir(&self, data_dir: &str, file: &FileRead<ManifestRecord>) -> (r:
        Result<Manifest, RepoError>)
        ensures
            result_view(r) == manifest_read(data_dir@, file@),
    {
        match file {
            FileRead::Found(record) => Ok(
                Manifest::new(data_dir.to_owned(), join(data_dir, "manifest.yaml"), record.clone()),
            ),
            FileRead::Missing(m) => Err(RepoError::other(m.as_str(), true)),
            FileRead::Failed(m) => Err(RepoError::other(m.as_str(), false)),
        }
    }

    /// The link of `project_dir` as it is stored, unchecked, where `file`
    /// is what reading the file at [`Repo::link_path`] gave.
    pub fn read_link(&self, project_dir: &str, file: &FileRead<LinkRecord>) -> (r: Result<
        Option<Link>,
        RepoError,
    >)
        ensures
            optional_view(r) == match located(self@, project_dir@) {
                Ok(link_path) => link_read(link_path, file@),
                Err(e) => Err(e),
            },
    {
        match self.link_path(project_dir) {
            Ok(link_path) => self.read_link_from_link_path(link_path.as_str(), file),
            Err(e) => Err(e),
        }
    }

    /// The link kept at `link_path`, where `file` is what reading that file
    /// gave.
    pub fn read_link_from_link_path(&self, link_path: &str, file: &FileRead<LinkRecord>) -> (r:
        Result<Option<Link>, RepoError>)
        ensures
            optional_view(r) == link_read(link_path@, file@),
    {
        match file {
            FileRead::Found(record) => Ok(Some(Link::new(link_path.to_owned(), record.clone()))),
            FileRead::Missing(_) => Ok(None),
            FileRead::Failed(m) => Err(RepoError::other(m.as_str(), false)),
        }
    }

    /// Decides `link` with the time given at which the link is made.
    pub fn link_with(
        &self,
        meta_id: &MetaId,
        project_dir: &str,
        manifest_file: &FileRead<ManifestRecord>,
        link_exists: bool,
        created_at: Timestamp,
    ) -> (r: Result<Option<DirInfo>, RepoError>)
        ensures
            optional_view(r) == linked(
                self@,
                meta_id@,
                project_dir@,
                manifest_file@,
                link_exists,
                created_at,
            ),
    {
        let manifest = match self.read_manifest(meta_id, manifest_file) {
            Ok(manifest) => manifest,
            Err(e) => {
                return Err(e);
            },
        };
        let link_id = match LinkId::from_path(project_dir) {
            Ok(link_id) => link_id,
            Err(e) => {
                return Err(e);
            },
        };
        if link_exists {
            return Ok(None);
        }
        let link_path = self.make_link_path(&link_id);
        let link_record = LinkRecord::new(created_at, link_id, project_dir, *meta_id);
        Ok(Some(DirInfo::new(manifest, Link::new(link_path, link_record))))
    }

    /// Attaches `project_dir` to the metadirectory `meta_id`, which must be
    /// there: `manifest_file` is what reading its manifest gave. A project
    /// directory that has a link already keeps it, and nothing is returned.
    /// The time is drawn only where a link is made. The caller makes the
    /// write of [`Repo::link_writes`] for what is returned.
    pub fn link(
        &self,
        meta_id: &MetaId,
        project_dir: &str,
        manifest_file: &FileRead<ManifestRecord>,
        link_exists: bool,
    ) -> (r: Result<Option<DirInfo>, RepoError>)
        ensures
            exists|created_at: Timestamp|
                optional_view(r) == #[trigger] linked(
                    self@,
                    meta_id@,
                    project_dir@,
                    manifest_file@,
                    link_exists,
                    created_at,
                ),
    {
        let ghost never = Timestamp { secs: 0, nanos: 0 };
        let settled: Option<Result<Option<DirInfo>, RepoError>> = match self.read_manifest(
            meta_id,
            manifest_file,
        ) {
            Err(e) => Some(Err(e)),
            Ok(_) => match LinkId::from_path(project_dir) {
                Err(e) => Some(Err(e)),
                Ok(_) => if link_exists {
                    Some(Ok(None))
                } else {
                    None
                },
            },
        };
        if let Some(r) = settled {
            assert(optional_view(r) == linked(
                self@,
                meta_id@,
                project_dir@,
                manifest_file@,
                link_exists,
                never,
            ));
            return r;
        }
        let created_at = now();
        let r = self.link_with(meta_id, project_dir, manifest_file, link_exists, created_at);
        assert(optional_view(r) == linked(
            self@,
            meta_id@,
            project_dir@,
            manifest_file@,
            link_exists,
            created_at,
        ));
        r
    }

    /// The deletions that purge the repository, in the order in which they
    /// are to be made. What is not there needs no deleting.
    pub fn purge_plan(&self) -> (plan: Vec<Deletion>)
        ensures
            deletion_views(plan@) == purge_plan(self@),
    {
        let mut plan: Vec<Deletion> = Vec::new();
        plan.push(Deletion::Directory(self.config.shared_dir.clone()));
        plan.push(Deletion::Directory(self.config.container_dir.clone()));
        plan.push(Deletion::Directory(self.config.links_dir.clone()));
        plan.push(Deletion::File(self.config.config_path.clone()));
        plan.push(Deletion::File(self.config.lock_path.clone()));
        assert(deletion_views(plan@) =~= purge_plan(self@));
        plan
    }

    /// The outcome of purging the repository. The caller makes the
    /// deletions of [`Repo::purge_plan`] in order and stops at the first
    /// that fails; `failed_at` is the place of that one, or `None` when all
    /// were made.
    pub fn purge(&self, failed_at: Option<usize>) -> (r: Result<(), RepoError>)
        ensures
            plain_view(r) == purged(self@, failed_at),
    {
        match failed_at {
            Some(0) => Err(RepoError::could_not_delete_directory(self.config.shared_dir.as_str())),
            Some(1) => Err(
                RepoError::could_not_delete_directory(self.config.container_dir.as_str()),
            ),
            Some(2) => Err(RepoError::could_not_delete_directory(self.config.links_dir.as_str())),
            Some(3) => Err(RepoError::could_not_delete_file(self.config.config_path.as_str())),
            Some(4) => Err(RepoError::could_not_delete_file(self.config.lock_path.as_str())),
            _ => Ok(()),
        }
    }

    /// Decides where `path` leads, given what it leads to: `target` is the
    /// path read from the shared directory and freed of `.` and `..`;
    /// `seen_root` and `seen_target` are the shared directory and the target
    /// in canonical form, as the file system has them.
    pub fn resolve_target(
        &self,
        path: &SharedPath,
        target: Option<String>,
        seen_root: &str,
        seen_target: Option<&str>,
    ) -> (r: Result<String, RepoError>)
        ensures
            result_view(r) == resolved(
                self@,
                path@,
                match target {
                    Some(p) => Some(p@),
                    None => None,
                },
                seen_root@,
                seen_text(seen_target),
            ),
    {
        match (target, seen_target) {
            (Some(p), Some(q)) => if is_within(p.as_str(), self.config.shared_dir.as_str())
                && is_within(q, seen_root) {
                Ok(p)
            } else {
                Err(RepoError::invalid_shared_path(path))
            },
            _ => Err(RepoError::invalid_shared_path(path)),
        }
    }

    /// Where the shared file `path` lies as text: the place that the caller
    /// is to bring into canonical form before the path is resolved. A path
    /// whose text leaves the shared directory is refused here already.
    pub fn shared_target(&self, path: &SharedPath) -> (r: Result<String, RepoError>)
        ensures
            result_view(r) == shared_target(
                self@,
                path@,
                absolutized(path@, self@.shared_dir),
            ),
            r matches Ok(p) ==> within(p@, self@.shared_dir),
    {
        let target = absolutize_from(path.as_str(), self.config.shared_dir.as_str());
        match target {
            Some(p) => if is_within(p.as_str(), self.config.shared_dir.as_str()) {
                Ok(p)
            } else {
                Err(RepoError::invalid_shared_path(path))
            },
            None => Err(RepoError::invalid_shared_path(path)),
        }
    }

    /// Where the shared file `path` lies. `seen_root` is the canonical form
    /// of the shared directory and `seen_target` that of the place that
    /// [`Repo::shared_target`] names, `None` where it has none; for what is
    /// not there yet, the canonical form of the nearest directory above it
    /// that is, with the rest appended. A path that leaves the shared
    /// directory, as text or through a symbolic link, is refused.
    pub fn resolve_shared_path(
        &self,
        path: &SharedPath,
        seen_root: &str,
        seen_target: Option<&str>,
    ) -> (r: Result<String, RepoError>)
        ensures
            result_view(r) == resolved(
                self@,
                path@,
                absolutized(path@, self@.shared_dir),
                seen_root@,
                seen_text(seen_target),
            ),
            r matches Ok(p) ==> within(p@, self@.shared_dir) && seen_target is Some && within(
                seen_target->Some_0@,
                seen_root@,
            ),
    {
        let target = absolutize_from(path.as_str(), self.config.shared_dir.as_str());
        self.resolve_target(path, target, seen_root, seen_target)
    }

    /// What the shared file `path` holds, where `seen_root` and
    /// `seen_target` are as in [`Repo::resolve_shared_path`] and `file` is
    /// what reading the file there gave.
    pub fn read_shared_file(
        &self,
        path: &SharedPath,
        seen_root: &str,
        seen_target: Option<&str>,
        file: FileRead<String>,
    ) -> (r: Result<Option<String>, RepoError>)
        ensures
            optional_view(r) == shared_read(
                resolved(
                    self@,
                    path@,
                    absolutized(path@, self@.shared_dir),
                    seen_root@,
                    seen_text(seen_target),
                ),
                file@,
            ),
    {
        match self.resolve_shared_path(path, seen_root, seen_target) {
            Err(e) => Err(e),
            Ok(_) => match file {
                FileRead::Found(text) => Ok(Some(text)),
                FileRead::Missing(_) => Ok(None),
                FileRead::Failed(m) => Err(RepoError::other(m.as_str(), false)),
            },
        }
    }

    /// The outcome of writing the shared file `path`, where `seen_root` and
    /// `seen_target` are as in [`Repo::resolve_shared_path`] and `written`
    /// is what writing the file there gave.
    pub fn write_shared_file(
        &self,
        path: &SharedPath,
        seen_root: &str,
        seen_target: Option<&str>,
        written: FileWrite,
    ) -> (r: Result<(), RepoError>)
        ensures
            plain_view(r) == shared_written(
                resolved(
                    self@,
                    path@,
                    absolutized(path@, self@.shared_dir),
                    seen_root@,
                    seen_text(seen_target),
                ),
                written@,
            ),
    {
        match self.resolve_shared_path(path, seen_root, seen_target) {
            Err(e) => Err(e),
            Ok(_) => written.done(),
        }
    }
}

/// A shared path resolves to its target exactly when the target lies
/// within the shared directory as text and as the file system has it; every
/// other path is refused as invalid. So a path that a symbolic link leads
/// out of the shared directory is refused though its text stays inside.
pub proof fn law_resolution_stays_within(
    c: RepoConfigView,
    path: Seq<char>,
    target: Option<Seq<char>>,
    seen_root: Seq<char>,
    seen_target: Option<Seq<char>>,
)
    ensures
        match resolved(c, path, target, seen_root, seen_target) {
            Ok(p) => {
                &&& target == Some(p)
                &&& within(p, c.shared_dir)
                &&& seen_target is Some
                &&& within(seen_target->Some_0, seen_root)
            },
            Err(e) => {
                &&& e == ErrorView::InvalidSharedPath(path)
                &&& target is None || seen_target is None || !within(target->Some_0, c.shared_dir)
                    || !within(seen_target->Some_0, seen_root)
            },
        },
{
}

/// A scan that has failed stays failed however many entries follow.
proof fn lemma_listed_links_fails(
    entries: Seq<(Seq<char>, FileReadView<LinkRecordView>)>,
    n: int,
)
    requires
        0 <= n <= entries.len(),
        listed_links(entries.take(n)) is Err,
    ensures
        listed_links(entries) == listed_links(entries.take(n)),
    decreases entries.len() - n,
{
    if n < entries.len() {
        assert(entries.take(n + 1).drop_last() =~= entries.take(n));
        lemma_listed_links_fails(entries, n + 1);
    } else {
        assert(entries.take(n) =~= entries);
    }
}

/// A scan that has failed stays failed however many entries follow.
proof fn lemma_listed_manifests_fails(
    entries: Seq<(Seq<char>, FileReadView<ManifestRecordView>)>,
    n: int,
)
    requires
        0 <= n <= entries.len(),
        listed_manifests(entries.take(n)) is Err,
    ensures
        listed_manifests(entries) == listed_manifests(entries.take(n)),
    decreases entries.len() - n,
{
    if n < entries.len() {
        assert(entries.take(n + 1).drop_last() =~= entries.take(n));
        lemma_listed_manifests_fails(entries, n + 1);
    } else {
        assert(entries.take(n) =~= entries);
    }
}

} // verus!
