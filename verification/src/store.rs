//! The files of a repository as a mathematical object, and what the
//! operations do to it when the caller plays its part: looks where the
//! repository says, and writes what the repository returns.

use vstd::prelude::*;
use crate::config::RepoConfigView;
use crate::dir_info::DirInfoView;
use crate::error::ErrorView;
use crate::link::LinkRecordView;
use crate::manifest::ManifestRecordView;
use crate::observed::FileReadView;
use crate::path::absolute;
use crate::record_write::RecordWriteView;
use crate::repo::{
    data_dir_of, got, init_writes, initialized, link_path_of, link_writes, linked,
    manifest_path_in,
};
use crate::timestamp::Timestamp;

verus! {

/// The records on disk: the link files and the manifest files, each by its
/// path.
pub struct Store {
    pub links: Map<Seq<char>, LinkRecordView>,
    pub manifests: Map<Seq<char>, ManifestRecordView>,
}

impl Store {
    /// What the caller sees where a link file may lie: nothing, or the
    /// record that is read.
    pub open spec fn link_file(self, path: Seq<char>) -> Option<FileReadView<LinkRecordView>> {
        if self.links.contains_key(path) {
            Some(FileReadView::Found(self.links[path]))
        } else {
            None
        }
    }

    /// What reading the manifest file at `path` gives.
    pub open spec fn manifest_file(self, path: Seq<char>) -> FileReadView<ManifestRecordView> {
        if self.manifests.contains_key(path) {
            FileReadView::Found(self.manifests[path])
        } else {
            FileReadView::Missing(path)
        }
    }

    /// The store once `write` is made.
    pub open spec fn written(self, write: RecordWriteView) -> Store {
        match write {
            RecordWriteView::Manifest { path, record } => Store {
                links: self.links,
                manifests: self.manifests.insert(path, record),
            },
            RecordWriteView::Link { path, record } => Store {
                links: self.links.insert(path, record),
                manifests: self.manifests,
            },
        }
    }

    /// The store once the writes of `plan` are made, in order.
    pub open spec fn after_writes(self, plan: Seq<RecordWriteView>) -> Store
        decreases plan.len(),
    {
        if plan.len() == 0 {
            self
        } else {
            self.after_writes(plan.drop_last()).written(plan.last())
        }
    }

    /// The store once the caller has made the writes for what `init`
    /// returned.
    pub open spec fn after_init(self, outcome: Result<Option<DirInfoView>, ErrorView>) -> Store {
        match outcome {
            Ok(Some(info)) => self.after_writes(init_writes(info)),
            _ => self,
        }
    }

    /// The store once the caller has made the write for what `link`
    /// returned.
    pub open spec fn after_link(self, outcome: Result<Option<DirInfoView>, ErrorView>) -> Store {
        match outcome {
            Ok(Some(info)) => self.after_writes(link_writes(info)),
            _ => self,
        }
    }

    /// The outcome of `init` for `dir` on this store.
    pub open spec fn init(
        self,
        c: RepoConfigView,
        dir: Seq<char>,
        meta_id: u128,
        manifest_created_at: Timestamp,
        link_created_at: Timestamp,
    ) -> Result<Option<DirInfoView>, ErrorView> {
        initialized(
            c,
            dir,
            self.links.contains_key(link_path_of(c, dir)),
            meta_id,
            manifest_created_at,
            link_created_at,
        )
    }

    /// The outcome of `link` for `dir` and the metadirectory `meta_id` on
    /// this store.
    pub open spec fn link(
        self,
        c: RepoConfigView,
        meta_id: u128,
        dir: Seq<char>,
        created_at: Timestamp,
    ) -> Result<Option<DirInfoView>, ErrorView> {
        linked(
            c,
            meta_id,
            dir,
            self.manifest_file(manifest_path_in(data_dir_of(c, meta_id))),
            self.links.contains_key(link_path_of(c, dir)),
            created_at,
        )
    }

    /// The outcome of `get` for `dir` on this store.
    pub open spec fn get(self, c: RepoConfigView, dir: Seq<char>) -> Result<
        Option<DirInfoView>,
        ErrorView,
    > {
        let link_file = self.link_file(link_path_of(c, dir));
        let manifest_path = match link_file {
            Some(FileReadView::Found(record)) => manifest_path_in(data_dir_of(c, record.meta_id)),
            _ => Seq::empty(),
        };
        got(c, dir, link_file, self.manifest_file(manifest_path))
    }
}

/// What the writes of `init` leave on disk: the manifest and the link of
/// what was made, each at its path.
pub proof fn lemma_after_init_writes(store: Store, info: DirInfoView)
    ensures
        store.after_writes(init_writes(info)) == (Store {
            links: store.links.insert(info.link.link_path, info.link.record),
            manifests: store.manifests.insert(info.manifest.manifest_path, info.manifest.record),
        }),
{
    let plan = init_writes(info);
    assert(plan.drop_last().len() == 1);
    assert(plan.drop_last().drop_last().len() == 0);
    assert(store.after_writes(plan.drop_last().drop_last()) == store);
    assert(plan.drop_last().last() == plan[0]);
    assert(store.after_writes(plan.drop_last()) == store.written(plan[0]));
    assert(plan.last() == plan[1]);
}

/// What the write of `link` leaves on disk: the link of what was made, at
/// its path.
pub proof fn lemma_after_link_writes(store: Store, info: DirInfoView)
    ensures
        store.after_writes(link_writes(info)) == (Store {
            links: store.links.insert(info.link.link_path, info.link.record),
            manifests: store.manifests,
        }),
{
    let plan = link_writes(info);
    assert(plan.drop_last().len() == 0);
    assert(store.after_writes(plan.drop_last()) == store);
    assert(plan.last() == plan[0]);
}

/// `init` gives a metadirectory to a project directory that has no link,
/// and does nothing for one that has: so of two calls for one directory
/// the second returns nothing and leaves the store as the first left it.
pub proof fn law_init_is_idempotent(
    store: Store,
    c: RepoConfigView,
    dir: Seq<char>,
    first_id: u128,
    first_times: (Timestamp, Timestamp),
    second_id: u128,
    second_times: (Timestamp, Timestamp),
)
    requires
        absolute(dir),
    ensures
        ({
            let first = store.init(c, dir, first_id, first_times.0, first_times.1);
            let between = store.after_init(first);
            let second = between.init(c, dir, second_id, second_times.0, second_times.1);
            &&& first is Ok
            &&& first->Ok_0 is Some <==> !store.links.contains_key(link_path_of(c, dir))
            &&& first->Ok_0 is None ==> between == store
            &&& second == Ok::<Option<DirInfoView>, ErrorView>(None)
            &&& between.after_init(second) == between
        }),
{
    let first = store.init(c, dir, first_id, first_times.0, first_times.1);
    if first->Ok_0 is Some {
        lemma_after_init_writes(store, first->Ok_0->Some_0);
    }
}

/// At no point of the writes of `init` is the new link on disk without its
/// manifest: however far the caller has come, a store that holds the link
/// holds the manifest that the link points to.
pub proof fn law_no_link_before_its_manifest(
    store: Store,
    c: RepoConfigView,
    dir: Seq<char>,
    meta_id: u128,
    times: (Timestamp, Timestamp),
    made_so_far: int,
)
    requires
        absolute(dir),
        !store.links.contains_key(link_path_of(c, dir)),
        0 <= made_so_far <= 2,
    ensures
        ({
            let made = store.init(c, dir, meta_id, times.0, times.1);
            let plan = init_writes(made->Ok_0->Some_0);
            let now = store.after_writes(plan.take(made_so_far));
            &&& made is Ok && made->Ok_0 is Some
            &&& plan.len() == 2
            &&& now.links.contains_key(link_path_of(c, dir)) ==> now.manifests.contains_key(
                manifest_path_in(data_dir_of(c, meta_id)),
            )
        }),
{
    let made = store.init(c, dir, meta_id, times.0, times.1);
    let info = made->Ok_0->Some_0;
    let plan = init_writes(info);
    if made_so_far == 0 {
        assert(plan.take(0).len() == 0);
    } else if made_so_far == 1 {
        let one = plan.take(1);
        assert(one.drop_last().len() == 0);
        assert(store.after_writes(one.drop_last()) == store);
        assert(one.last() == plan[0]);
    } else {
        assert(plan.take(2) =~= plan);
        lemma_after_init_writes(store, info);
    }
}

/// What `init` returns is what `get` finds afterwards: the same project
/// directory, the same metadirectory.
pub proof fn law_get_finds_what_init_made(
    store: Store,
    c: RepoConfigView,
    dir: Seq<char>,
    meta_id: u128,
    times: (Timestamp, Timestamp),
)
    requires
        absolute(dir),
        !store.links.contains_key(link_path_of(c, dir)),
    ensures
        ({
            let made = store.init(c, dir, meta_id, times.0, times.1);
            let found = store.after_init(made).get(c, dir);
            &&& made is Ok
            &&& made->Ok_0 is Some
            &&& found == made
            &&& made->Ok_0->Some_0.link.record.project_dir == dir
            &&& made->Ok_0->Some_0.link.record.meta_id == meta_id
            &&& made->Ok_0->Some_0.manifest.record.meta_id == meta_id
        }),
{
    let made = store.init(c, dir, meta_id, times.0, times.1);
    lemma_after_init_writes(store, made->Ok_0->Some_0);
}

/// A project directory that is linked to the metadirectory of another is
/// found with that metadirectory: the manifest that `init` made for the
/// first directory is the one that `get` returns for the second.
pub proof fn law_link_shares_the_metadirectory(
    store: Store,
    c: RepoConfigView,
    first_dir: Seq<char>,
    second_dir: Seq<char>,
    meta_id: u128,
    times: (Timestamp, Timestamp),
    linked_at: Timestamp,
)
    requires
        absolute(first_dir),
        absolute(second_dir),
        !store.links.contains_key(link_path_of(c, first_dir)),
        !store.links.contains_key(link_path_of(c, second_dir)),
        link_path_of(c, first_dir) != link_path_of(c, second_dir),
    ensures
        ({
            let made = store.init(c, first_dir, meta_id, times.0, times.1);
            let between = store.after_init(made);
            let attached = between.link(c, meta_id, second_dir, linked_at);
            let found = between.after_link(attached).get(c, second_dir);
            &&& made is Ok && made->Ok_0 is Some
            &&& attached is Ok && attached->Ok_0 is Some
            &&& found == attached
            &&& found->Ok_0->Some_0.manifest == made->Ok_0->Some_0.manifest
            &&& found->Ok_0->Some_0.link.record.project_dir == second_dir
            &&& between.after_link(attached).get(c, first_dir) == made
        }),
{
    let made = store.init(c, first_dir, meta_id, times.0, times.1);
    lemma_after_init_writes(store, made->Ok_0->Some_0);
    let between = store.after_init(made);
    let attached = between.link(c, meta_id, second_dir, linked_at);
    lemma_after_link_writes(between, attached->Ok_0->Some_0);
}

} // verus!
