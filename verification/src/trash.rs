//! Reconciliation: which links point nowhere, and which metadirectories
//! nothing points to any more.
//!
//! Manifests are the objects, links are the roots, and a link reaches its
//! manifest in one step. A link is valid when its project directory exists
//! and its manifest is there; a manifest is referenced when a valid link
//! points to it. The rest is trash.

use std::collections::HashSet;
use vstd::prelude::*;
use vstd::std_specs::hash::*;
use crate::deletion::{failure_of, Deletion, DeletionView};
use crate::error::{ErrorView, RepoError};
use crate::link::{Link, LinkView};
use crate::manifest::{Manifest, ManifestView};

verus! {

broadcast use vstd::std_specs::hash::group_hash_axioms;

/// What manifests hold, one for one.
pub open spec fn manifest_views(s: Seq<Manifest>) -> Seq<ManifestView> {
    s.map_values(|m: Manifest| m@)
}

/// What links hold, one for one.
pub open spec fn link_views(s: Seq<Link>) -> Seq<LinkView> {
    s.map_values(|l: Link| l@)
}

/// What links hold, each with whether its project directory exists.
pub open spec fn found_views(s: Seq<(Link, bool)>) -> Seq<(LinkView, bool)> {
    s.map_values(|f: (Link, bool)| (f.0@, f.1))
}

/// Some manifest in `manifests` has the identifier `id`.
pub open spec fn has_manifest(manifests: Seq<ManifestView>, id: u128) -> bool {
    exists|j: int| 0 <= j < manifests.len() && (#[trigger] manifests[j]).record.meta_id == id
}

/// The link's project directory exists and its manifest is among
/// `manifests`.
pub open spec fn is_valid(manifests: Seq<ManifestView>, found: (LinkView, bool)) -> bool {
    found.1 && has_manifest(manifests, found.0.record.meta_id)
}

/// Some link in `links` whose project directory exists points to `m`.
pub open spec fn is_referenced(links: Seq<(LinkView, bool)>, m: ManifestView) -> bool {
    exists|i: int|
        0 <= i < links.len() && (#[trigger] links[i]).1 && links[i].0.record.meta_id
            == m.record.meta_id
}

/// The test that picks the invalid links.
pub open spec fn not_valid(manifests: Seq<ManifestView>) -> spec_fn((LinkView, bool)) -> bool {
    |found: (LinkView, bool)| !is_valid(manifests, found)
}

/// The test that picks the unreferenced manifests.
pub open spec fn not_referenced(links: Seq<(LinkView, bool)>) -> spec_fn(ManifestView) -> bool {
    |m: ManifestView| !is_referenced(links, m)
}

/// The links of `links` that are not valid, in the order given.
pub open spec fn invalid_links(
    manifests: Seq<ManifestView>,
    links: Seq<(LinkView, bool)>,
) -> Seq<LinkView> {
    links.filter(not_valid(manifests)).map_values(|found: (LinkView, bool)| found.0)
}

/// The manifests of `manifests` that are not referenced, in the order given.
pub open spec fn unreferenced_manifests(
    manifests: Seq<ManifestView>,
    links: Seq<(LinkView, bool)>,
) -> Seq<ManifestView> {
    manifests.filter(not_referenced(links))
}

/// What a [`Trash`] holds.
pub struct TrashView {
    pub unreferenced_manifests: Seq<ManifestView>,
    pub invalid_links: Seq<LinkView>,
}

/// What deletions ask for, one for one.
pub open spec fn deletion_views(plan: Seq<Deletion>) -> Seq<DeletionView> {
    plan.map_values(|d: Deletion| d@)
}

/// The deletions of the files of `links`.
pub open spec fn file_deletions(links: Seq<LinkView>) -> Seq<DeletionView> {
    links.map_values(|l: LinkView| DeletionView::File(l.link_path))
}

/// The deletions of the data directories of `manifests`.
pub open spec fn directory_deletions(manifests: Seq<ManifestView>) -> Seq<DeletionView> {
    manifests.map_values(|m: ManifestView| DeletionView::Directory(m.data_dir))
}

/// The deletions that empty `t`: the invalid links' files first, then the
/// unreferenced manifests' data directories.
pub open spec fn deletions_of(t: TrashView) -> Seq<DeletionView> {
    file_deletions(t.invalid_links) + directory_deletions(t.unreferenced_manifests)
}

/// What is left of `t` when the first `done` of its deletions are made.
pub open spec fn after_deleting(t: TrashView, done: int) -> TrashView
    recommends
        0 <= done <= deletions_of(t).len(),
{
    let links_done = if done <= t.invalid_links.len() {
        done
    } else {
        t.invalid_links.len() as int
    };
    TrashView {
        unreferenced_manifests: t.unreferenced_manifests.skip(done - links_done),
        invalid_links: t.invalid_links.skip(links_done),
    }
}

/// How many deletions were made, where `failed_at` is the place of the
/// first that failed, or `None` when none did.
pub open spec fn deleted(t: TrashView, failed_at: Option<usize>) -> int {
    match failed_at {
        Some(k) => if k < deletions_of(t).len() {
            k as int
        } else {
            deletions_of(t).len() as int
        },
        None => deletions_of(t).len() as int,
    }
}

/// The failure to report for the deletion of `t` at `failed_at`, if there
/// is such a deletion.
pub open spec fn failure(t: TrashView, failed_at: Option<usize>) -> Option<ErrorView> {
    match failed_at {
        Some(k) => if k < deletions_of(t).len() {
            Some(failure_of(deletions_of(t)[k as int]))
        } else {
            None
        },
        None => None,
    }
}

/// The invalid links and the unreferenced manifests of a repository.
#[derive(Debug)]
pub struct Trash {
    pub unreferenced_manifests: Vec<Manifest>,
    pub invalid_links: Vec<Link>,
}

impl View for Trash {
    type V = TrashView;

    open spec fn view(&self) -> TrashView {
        TrashView {
            unreferenced_manifests: manifest_views(self.unreferenced_manifests@),
            invalid_links: link_views(self.invalid_links@),
        }
    }
}

impl Trash {
    /// Sorts the links and manifests of a repository into what is in use
    /// and what is trash. `links` holds each link with whether its project
    /// directory exists.
    pub fn compute(manifests: &Vec<Manifest>, links: &Vec<(Link, bool)>) -> (t: Trash)
        ensures
            t@.invalid_links == invalid_links(manifest_views(manifests@), found_views(links@)),
            t@.unreferenced_manifests == unreferenced_manifests(
                manifest_views(manifests@),
                found_views(links@),
            ),
    {
        let ghost mv = manifest_views(manifests@);
        let ghost lv = found_views(links@);

        let mut known: HashSet<u128> = HashSet::new();
        let mut j: usize = 0;
        while j < manifests.len()
            invariant
                j <= manifests.len(),
                mv == manifest_views(manifests@),
                forall|id: u128| known@.contains(id) <==> has_manifest(mv.take(j as int), id),
            decreases manifests.len() - j,
        {
            let id = manifests[j].meta_id().as_u128();
            known.insert(id);
            proof {
                let before = mv.take(j as int);
                let after = mv.take(j + 1);
                assert(after[j as int].record.meta_id == id);
                assert forall|x: u128| known@.contains(x) <==> has_manifest(after, x) by {
                    if has_manifest(after, x) {
                        let k = choose|k: int|
                            0 <= k < after.len() && (#[trigger] after[k]).record.meta_id == x;
                        if k < j {
                            assert(before[k].record.meta_id == x);
                        }
                    }
                    if has_manifest(before, x) {
                        let k = choose|k: int|
                            0 <= k < before.len() && (#[trigger] before[k]).record.meta_id == x;
                        assert(after[k].record.meta_id == x);
                    }
                }
            }
            j += 1;
        }
        assert(mv.take(manifests.len() as int) =~= mv);

        let mut referenced: HashSet<u128> = HashSet::new();
        let mut invalid: Vec<Link> = Vec::new();
        let mut i: usize = 0;
        while i < links.len()
            invariant
                i <= links.len(),
                lv == found_views(links@),
                forall|id: u128| known@.contains(id) <==> has_manifest(mv, id),
                forall|id: u128|
                    referenced@.contains(id) <==> exists|k: int|
                        0 <= k < i && is_valid(mv, #[trigger] lv[k]) && lv[k].0.record.meta_id
                            == id,
                link_views(invalid@) == invalid_links(mv, lv.take(i as int)),
            decreases links.len() - i,
        {
            let id = links[i].0.meta_id().as_u128();
            let ghost marked = referenced@;
            assert(lv[i as int] == (links@[i as int].0@, links@[i as int].1));
            proof {
                assert(lv.take(i + 1) =~= lv.take(i as int).push(lv[i as int]));
                lv.take(i as int).lemma_filter_push(lv[i as int], not_valid(mv));
            }
            if links[i].1 && known.contains(&id) {
                referenced.insert(id);
                assert(is_valid(mv, lv[i as int]));
            } else {
                let ghost kept = invalid@;
                invalid.push(links[i].0.clone());
                assert(!is_valid(mv, lv[i as int]));
                assert(link_views(invalid@) =~= link_views(kept).push(lv[i as int].0));
                assert(lv.take(i as int).filter(not_valid(mv)).push(lv[i as int]).map_values(
                    |found: (LinkView, bool)| found.0,
                ) =~= lv.take(i as int).filter(not_valid(mv)).map_values(
                    |found: (LinkView, bool)| found.0,
                ).push(lv[i as int].0));
            }
            proof {
                assert forall|x: u128|
                    referenced@.contains(x) <==> exists|k: int|
                        0 <= k < i + 1 && is_valid(mv, #[trigger] lv[k]) && lv[k].0.record.meta_id
                            == x by {
                    if marked.contains(x) {
                        let k = choose|k: int|
                            0 <= k < i && is_valid(mv, #[trigger] lv[k]) && lv[k].0.record.meta_id
                                == x;
                        assert(0 <= k < i + 1 && is_valid(mv, lv[k]) && lv[k].0.record.meta_id
                            == x);
                    }
                    if exists|k: int|
                        0 <= k < i + 1 && is_valid(mv, #[trigger] lv[k]) && lv[k].0.record.meta_id
                            == x {
                        let k = choose|k: int|
                            0 <= k < i + 1 && is_valid(mv, #[trigger] lv[k])
                                && lv[k].0.record.meta_id == x;
                        if k < i {
                            assert(marked.contains(x));
                        }
                    }
                }
            }
            i += 1;
        }
        assert(lv.take(links.len() as int) =~= lv);

        let mut unreferenced: Vec<Manifest> = Vec::new();
        let mut j: usize = 0;
        while j < manifests.len()
            invariant
                j <= manifests.len(),
                mv == manifest_views(manifests@),
                forall|id: u128|
                    referenced@.contains(id) <==> exists|k: int|
                        0 <= k < lv.len() && is_valid(mv, #[trigger] lv[k])
                            && lv[k].0.record.meta_id == id,
                manifest_views(unreferenced@) == unreferenced_manifests(mv.take(j as int), lv),
            decreases manifests.len() - j,
        {
            let id = manifests[j].meta_id().as_u128();
            let ghost m = mv[j as int];
            assert(m == manifests@[j as int]@);
            proof {
                assert(mv.take(j + 1) =~= mv.take(j as int).push(m));
                mv.take(j as int).lemma_filter_push(m, not_referenced(lv));
                if referenced@.contains(id) {
                    let k = choose|k: int|
                        0 <= k < lv.len() && is_valid(mv, #[trigger] lv[k])
                            && lv[k].0.record.meta_id == id;
                    assert(lv[k].1);
                    assert(is_referenced(lv, m));
                }
                if is_referenced(lv, m) {
                    let k = choose|k: int|
                        0 <= k < lv.len() && (#[trigger] lv[k]).1 && lv[k].0.record.meta_id
                            == m.record.meta_id;
                    assert(mv[j as int].record.meta_id == id);
                    assert(has_manifest(mv, id));
                    assert(is_valid(mv, lv[k]));
                }
            }
            if !referenced.contains(&id) {
                let ghost kept = unreferenced@;
                unreferenced.push(manifests[j].clone());
                assert(manifest_views(unreferenced@) =~= manifest_views(kept).push(m));
            }
            j += 1;
        }
        assert(mv.take(manifests.len() as int) =~= mv);

        Trash { unreferenced_manifests: unreferenced, invalid_links: invalid }
    }

    /// Whether there is nothing to delete.
    #[must_use]
    pub fn is_empty(&self) -> (b: bool)
        ensures
            b == (self@.invalid_links.len() == 0 && self@.unreferenced_manifests.len() == 0),
    {
        self.invalid_links.len() == 0 && self.unreferenced_manifests.len() == 0
    }

    /// The deletions that empty the trash, in the order in which they are
    /// to be made.
    pub fn deletions(&self) -> (plan: Vec<Deletion>)
        ensures
            deletion_views(plan@) == deletions_of(self@),
    {
        let ghost links = self@.invalid_links;
        let ghost manifests = self@.unreferenced_manifests;
        let mut plan: Vec<Deletion> = Vec::new();
        let mut i: usize = 0;
        while i < self.invalid_links.len()
            invariant
                i <= self.invalid_links.len(),
                links == self@.invalid_links,
                deletion_views(plan@) =~= file_deletions(links.take(i as int)),
            decreases self.invalid_links.len() - i,
        {
            let ghost before = plan@;
            plan.push(Deletion::File(self.invalid_links[i].link_path().to_owned()));
            assert(links[i as int] == self.invalid_links@[i as int]@);
            assert(deletion_views(plan@) =~= deletion_views(before).push(
                DeletionView::File(links[i as int].link_path),
            ));
            assert(links.take(i + 1) =~= links.take(i as int).push(links[i as int]));
            i += 1;
        }
        assert(links.take(self.invalid_links.len() as int) =~= links);
        let mut j: usize = 0;
        while j < self.unreferenced_manifests.len()
            invariant
                j <= self.unreferenced_manifests.len(),
                manifests == self@.unreferenced_manifests,
                deletion_views(plan@) =~= file_deletions(links) + directory_deletions(
                    manifests.take(j as int),
                ),
            decreases self.unreferenced_manifests.len() - j,
        {
            let ghost before = plan@;
            plan.push(Deletion::Directory(self.unreferenced_manifests[j].data_dir().to_owned()));
            assert(manifests[j as int] == self.unreferenced_manifests@[j as int]@);
            assert(deletion_views(plan@) =~= deletion_views(before).push(
                DeletionView::Directory(manifests[j as int].data_dir),
            ));
            assert(manifests.take(j + 1) =~= manifests.take(j as int).push(manifests[j as int]));
            j += 1;
        }
        assert(manifests.take(self.unreferenced_manifests.len() as int) =~= manifests);
        plan
    }

    /// Takes out of the trash what was deleted. The caller makes the
    /// deletions of [`Trash::deletions`] in order and stops at the first
    /// that fails; `failed_at` is the place of that one, or `None` when all
    /// were made. What was not deleted stays in the trash, the one that
    /// failed included, and the failure is returned.
    pub fn empty(&mut self, failed_at: Option<usize>) -> (r: Result<(), RepoError>)
        ensures
            final(self)@ == after_deleting(old(self)@, deleted(old(self)@, failed_at)),
            failed_at is None ==> final(self)@.invalid_links.len() == 0
                && final(self)@.unreferenced_manifests.len() == 0,
            match r {
                Ok(_) => failure(old(self)@, failed_at) is None,
                Err(e) => failure(old(self)@, failed_at) == Some(e@),
            },
    {
        let n = self.invalid_links.len();
        let m = self.unreferenced_manifests.len();
        let ghost before = self@;
        assert(deletions_of(before).len() == n + m);
        let (links_done, directories_done, r) = match failed_at {
            Some(k) if k < n => {
                assert(deletions_of(before)[k as int] == DeletionView::File(
                    before.invalid_links[k as int].link_path,
                ));
                (k, 0, Err(RepoError::could_not_delete_file(self.invalid_links[k].link_path())))
            },
            Some(k) if k - n < m => {
                assert(deletions_of(before)[k as int] == DeletionView::Directory(
                    before.unreferenced_manifests[k - n].data_dir,
                ));
                (
                    n,
                    k - n,
                    Err(
                        RepoError::could_not_delete_directory(
                            self.unreferenced_manifests[k - n].data_dir(),
                        ),
                    ),
                )
            },
            _ => (n, m, Ok(())),
        };
        let links_left = self.invalid_links.split_off(links_done);
        let manifests_left = self.unreferenced_manifests.split_off(directories_done);
        self.invalid_links = links_left;
        self.unreferenced_manifests = manifests_left;
        assert(self@.invalid_links =~= before.invalid_links.skip(links_done as int));
        assert(self@.unreferenced_manifests =~= before.unreferenced_manifests.skip(
            directories_done as int,
        ));
        r
    }
}

/// The test that picks the valid links.
pub open spec fn valid(manifests: Seq<ManifestView>) -> spec_fn((LinkView, bool)) -> bool {
    |found: (LinkView, bool)| is_valid(manifests, found)
}

/// The test that picks the referenced manifests.
pub open spec fn referenced(links: Seq<(LinkView, bool)>) -> spec_fn(ManifestView) -> bool {
    |m: ManifestView| is_referenced(links, m)
}

/// The links that are left when the trash of `manifests` and `links` is
/// emptied.
pub open spec fn surviving_links(
    manifests: Seq<ManifestView>,
    links: Seq<(LinkView, bool)>,
) -> Seq<(LinkView, bool)> {
    links.filter(valid(manifests))
}

/// The manifests that are left when the trash of `manifests` and `links`
/// is emptied.
pub open spec fn surviving_manifests(
    manifests: Seq<ManifestView>,
    links: Seq<(LinkView, bool)>,
) -> Seq<ManifestView> {
    manifests.filter(referenced(links))
}

/// A manifest of the repository is referenced exactly when a valid link
/// points to it.
pub proof fn law_referenced_by_valid_link(
    manifests: Seq<ManifestView>,
    links: Seq<(LinkView, bool)>,
    j: int,
)
    requires
        0 <= j < manifests.len(),
    ensures
        is_referenced(links, manifests[j]) <==> exists|i: int|
            0 <= i < links.len() && is_valid(manifests, #[trigger] links[i])
                && links[i].0.record.meta_id == manifests[j].record.meta_id,
{
    let m = manifests[j];
    if is_referenced(links, m) {
        let i = choose|i: int|
            0 <= i < links.len() && (#[trigger] links[i]).1 && links[i].0.record.meta_id
                == m.record.meta_id;
        assert(has_manifest(manifests, links[i].0.record.meta_id));
        assert(is_valid(manifests, links[i]));
    }
}

/// Once the trash is emptied, there is no trash: among the links and
/// manifests that were not trash, every link is valid and every manifest is
/// referenced.
pub proof fn law_emptied_trash_stays_empty(
    manifests: Seq<ManifestView>,
    links: Seq<(LinkView, bool)>,
)
    ensures
        invalid_links(
            surviving_manifests(manifests, links),
            surviving_links(manifests, links),
        ).len() == 0,
        unreferenced_manifests(
            surviving_manifests(manifests, links),
            surviving_links(manifests, links),
        ).len() == 0,
{
    broadcast use {
        Seq::lemma_filter_pred,
        Seq::lemma_filter_contains,
        Seq::lemma_filter_contains_rev,
    };

    let kept_links = surviving_links(manifests, links);
    let kept_manifests = surviving_manifests(manifests, links);

    assert forall|i: int| 0 <= i < kept_links.len() implies is_valid(
        kept_manifests,
        #[trigger] kept_links[i],
    ) by {
        let found = kept_links[i];
        assert(valid(manifests)(found));
        assert(kept_links.contains(found));
        assert(links.contains(found));
        let at = choose|at: int| 0 <= at < links.len() && links[at] == found;
        let j = choose|j: int|
            0 <= j < manifests.len() && (#[trigger] manifests[j]).record.meta_id
                == found.0.record.meta_id;
        assert(links[at].1);
        assert(is_referenced(links, manifests[j]));
        assert(referenced(links)(manifests[j]));
        assert(kept_manifests.contains(manifests[j]));
        let k = choose|k: int| 0 <= k < kept_manifests.len() && kept_manifests[k] == manifests[j];
        assert(kept_manifests[k].record.meta_id == found.0.record.meta_id);
    }
    assert(kept_links.all(|found: (LinkView, bool)| !not_valid(kept_manifests)(found)));
    kept_links.lemma_all_neg_filter_empty(not_valid(kept_manifests));

    assert forall|j: int| 0 <= j < kept_manifests.len() implies is_referenced(
        kept_links,
        #[trigger] kept_manifests[j],
    ) by {
        let m = kept_manifests[j];
        assert(referenced(links)(m));
        assert(kept_manifests.contains(m));
        assert(manifests.contains(m));
        let at = choose|at: int| 0 <= at < manifests.len() && manifests[at] == m;
        let i = choose|i: int|
            0 <= i < links.len() && (#[trigger] links[i]).1 && links[i].0.record.meta_id
                == m.record.meta_id;
        assert(manifests[at].record.meta_id == links[i].0.record.meta_id);
        assert(is_valid(manifests, links[i]));
        assert(valid(manifests)(links[i]));
        assert(kept_links.contains(links[i]));
        let k = choose|k: int| 0 <= k < kept_links.len() && kept_links[k] == links[i];
        assert(kept_links[k].1 && kept_links[k].0.record.meta_id == m.record.meta_id);
    }
    assert(kept_manifests.all(|m: ManifestView| !not_referenced(kept_links)(m)));
    kept_manifests.lemma_all_neg_filter_empty(not_referenced(kept_links));
}

} // verus!
