//! What the store knows of one project directory.

use vstd::prelude::*;
use vstd::string::*;
use crate::link::{Link, LinkView};
use crate::link_id::LinkId;
use crate::manifest::{Manifest, ManifestView};
use crate::meta_id::MetaId;
use crate::timestamp::Timestamp;

verus! {

/// What a [`DirInfo`] holds.
pub struct DirInfoView {
    pub manifest: ManifestView,
    pub link: LinkView,
}

/// A project directory's link together with the manifest that the link
/// points to.
#[derive(Debug)]
pub struct DirInfo {
    pub(crate) manifest: Manifest,
    pub(crate) link: Link,
}

impl View for DirInfo {
    type V = DirInfoView;

    closed spec fn view(&self) -> DirInfoView {
        DirInfoView { manifest: self.manifest@, link: self.link@ }
    }
}

impl DirInfo {
    /// The pair of `manifest` and `link`.
    pub fn new(manifest: Manifest, link: Link) -> (r: Self)
        ensures
            r@ == (DirInfoView { manifest: manifest@, link: link@ }),
    {
        DirInfo { manifest, link }
    }

    #[must_use]
    pub fn manifest(&self) -> (m: &Manifest)
        ensures
            m@ == self@.manifest,
    {
        &self.manifest
    }

    #[must_use]
    pub fn link(&self) -> (l: &Link)
        ensures
            l@ == self@.link,
    {
        &self.link
    }

    #[must_use]
    pub fn data_dir(&self) -> (p: &str)
        ensures
            p@ == self@.manifest.data_dir,
    {
        self.manifest.data_dir()
    }

    #[must_use]
    pub fn manifest_path(&self) -> (p: &str)
        ensures
            p@ == self@.manifest.manifest_path,
    {
        self.manifest.manifest_path()
    }

    #[must_use]
    pub fn created_at(&self) -> (t: &Timestamp)
        ensures
            *t == self@.manifest.record.created_at,
    {
        self.manifest.created_at()
    }

    #[must_use]
    pub fn original_project_dir(&self) -> (dir: &str)
        ensures
            dir@ == self@.manifest.record.original_project_dir,
    {
        self.manifest.original_project_dir()
    }

    #[must_use]
    pub fn meta_id(&self) -> (id: &MetaId)
        ensures
            id@ == self@.manifest.record.meta_id,
    {
        self.manifest.meta_id()
    }

    #[must_use]
    pub fn link_path(&self) -> (p: &str)
        ensures
            p@ == self@.link.link_path,
    {
        self.link.link_path()
    }

    #[must_use]
    pub fn link_created_at(&self) -> (t: &Timestamp)
        ensures
            *t == self@.link.record.created_at,
    {
        self.link.created_at()
    }

    #[must_use]
    pub fn link_id(&self) -> (id: &LinkId)
        ensures
            id@ == self@.link.record.link_id,
    {
        self.link.link_id()
    }

    #[must_use]
    pub fn project_dir(&self) -> (dir: &str)
        ensures
            dir@ == self@.link.record.project_dir,
    {
        self.link.project_dir()
    }
}

} // verus!
