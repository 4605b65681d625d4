//! Links: the records that point from a project directory to a
//! metadirectory.

use vstd::prelude::*;
use vstd::string::*;
use crate::link_id::LinkId;
use crate::meta_id::MetaId;
use crate::timestamp::Timestamp;

verus! {

/// What a link record holds.
pub struct LinkRecordView {
    pub created_at: Timestamp,
    pub link_id: Seq<char>,
    pub project_dir: Seq<char>,
    pub meta_id: u128,
}

/// What a link holds: its record and the file the record is kept in.
pub struct LinkView {
    pub link_path: Seq<char>,
    pub record: LinkRecordView,
}

/// The stored form of a link.
#[derive(Debug)]
pub struct LinkRecord {
    pub(crate) created_at: Timestamp,
    pub(crate) link_id: LinkId,
    pub(crate) project_dir: String,
    pub(crate) meta_id: MetaId,
}

impl View for LinkRecord {
    type V = LinkRecordView;

    closed spec fn view(&self) -> LinkRecordView {
        LinkRecordView {
            created_at: self.created_at,
            link_id: self.link_id@,
            project_dir: self.project_dir@,
            meta_id: self.meta_id@,
        }
    }
}

impl Clone for LinkRecord {
    fn clone(&self) -> (r: Self)
        ensures
            r@ == self@,
    {
        LinkRecord {
            created_at: self.created_at,
            link_id: self.link_id.clone(),
            project_dir: self.project_dir.clone(),
            meta_id: self.meta_id,
        }
    }
}

impl LinkRecord {
    /// A record of the link `link_id` from `project_dir` to `meta_id`.
    pub fn new(created_at: Timestamp, link_id: LinkId, project_dir: &str, meta_id: MetaId) -> (r:
        Self)
        ensures
            r@ == (LinkRecordView {
                created_at,
                link_id: link_id@,
                project_dir: project_dir@,
                meta_id: meta_id@,
            }),
    {
        LinkRecord { created_at, link_id, project_dir: project_dir.to_owned(), meta_id }
    }

    #[must_use]
    pub fn created_at(&self) -> (t: &Timestamp)
        ensures
            *t == self@.created_at,
    {
        &self.created_at
    }

    #[must_use]
    pub fn link_id(&self) -> (id: &LinkId)
        ensures
            id@ == self@.link_id,
    {
        &self.link_id
    }

    #[must_use]
    pub fn project_dir(&self) -> (dir: &str)
        ensures
            dir@ == self@.project_dir,
    {
        self.project_dir.as_str()
    }

    #[must_use]
    pub fn meta_id(&self) -> (id: &MetaId)
        ensures
            id@ == self@.meta_id,
    {
        &self.meta_id
    }
}

/// A link record together with the path of its file.
#[derive(Debug)]
pub struct Link {
    link_path: String,
    record: LinkRecord,
}

impl View for Link {
    type V = LinkView;

    closed spec fn view(&self) -> LinkView {
        LinkView { link_path: self.link_path@, record: self.record@ }
    }
}

impl Clone for Link {
    fn clone(&self) -> (r: Self)
        ensures
            r@ == self@,
    {
        Link { link_path: self.link_path.clone(), record: self.record.clone() }
    }
}

impl Link {
    /// The link whose record `record` is kept at `link_path`.
    pub fn new(link_path: String, record: LinkRecord) -> (r: Self)
        ensures
            r@ == (LinkView { link_path: link_path@, record: record@ }),
    {
        Link { link_path, record }
    }

    #[must_use]
    pub fn link_path(&self) -> (p: &str)
        ensures
            p@ == self@.link_path,
    {
        self.link_path.as_str()
    }

    #[must_use]
    pub fn record(&self) -> (r: &LinkRecord)
        ensures
            r@ == self@.record,
    {
        &self.record
    }

    #[must_use]
    pub fn created_at(&self) -> (t: &Timestamp)
        ensures
            *t == self@.record.created_at,
    {
        &self.record.created_at
    }

    #[must_use]
    pub fn link_id(&self) -> (id: &LinkId)
        ensures
            id@ == self@.record.link_id,
    {
        &self.record.link_id
    }

    #[must_use]
    pub fn project_dir(&self) -> (dir: &str)
        ensures
            dir@ == self@.record.project_dir,
    {
        self.record.project_dir.as_str()
    }

    #[must_use]
    pub fn meta_id(&self) -> (id: &MetaId)
        ensures
            id@ == self@.record.meta_id,
    {
        &self.record.meta_id
    }
}

} // verus!
