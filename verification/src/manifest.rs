//! Manifests: the records that metadirectories keep of themselves.

use vstd::prelude::*;
use vstd::string::*;
use crate::meta_id::MetaId;
use crate::timestamp::Timestamp;

verus! {

/// What a manifest record holds.
pub struct ManifestRecordView {
    pub created_at: Timestamp,
    pub original_project_dir: Seq<char>,
    pub meta_id: u128,
}

/// What a manifest holds: its record, the file the record is kept in, and
/// the data directory that the file lies in.
pub struct ManifestView {
    pub data_dir: Seq<char>,
    pub manifest_path: Seq<char>,
    pub record: ManifestRecordView,
}

/// The stored form of a manifest.
#[derive(Debug)]
pub struct ManifestRecord {
    pub(crate) created_at: Timestamp,
    pub(crate) original_project_dir: String,
    pub(crate) meta_id: MetaId,
}

impl View for ManifestRecord {
    type V = ManifestRecordView;

    closed spec fn view(&self) -> ManifestRecordView {
        ManifestRecordView {
            created_at: self.created_at,
            original_project_dir: self.original_project_dir@,
            meta_id: self.meta_id@,
        }
    }
}

impl Clone for ManifestRecord {
    fn clone(&self) -> (r: Self)
        ensures
            r@ == self@,
    {
        ManifestRecord {
            created_at: self.created_at,
            original_project_dir: self.original_project_dir.clone(),
            meta_id: self.meta_id,
        }
    }
}

impl ManifestRecord {
    /// A record of the metadirectory `meta_id`, first made for
    /// `original_project_dir`.
    pub fn new(created_at: Timestamp, original_project_dir: &str, meta_id: MetaId) -> (r: Self)
        ensures
            r@ == (ManifestRecordView {
                created_at,
                original_project_dir: original_project_dir@,
                meta_id: meta_id@,
            }),
    {
        ManifestRecord {
            created_at,
            original_project_dir: original_project_dir.to_owned(),
            meta_id,
        }
    }

    #[must_use]
    pub fn created_at(&self) -> (t: &Timestamp)
        ensures
            *t == self@.created_at,
    {
        &self.created_at
    }

    #[must_use]
    pub fn original_project_dir(&self) -> (dir: &str)
        ensures
            dir@ == self@.original_project_dir,
    {
        self.original_project_dir.as_str()
    }

    #[must_use]
    pub fn meta_id(&self) -> (id: &MetaId)
        ensures
            id@ == self@.meta_id,
    {
        &self.meta_id
    }
}

/// A manifest record together with where it is kept.
#[derive(Debug)]
pub struct Manifest {
    data_dir: String,
    manifest_path: String,
    record: ManifestRecord,
}

impl View for Manifest {
    type V = ManifestView;

    closed spec fn view(&self) -> ManifestView {
        ManifestView {
            data_dir: self.data_dir@,
            manifest_path: self.manifest_path@,
            record: self.record@,
        }
    }
}

impl Clone for Manifest {
    fn clone(&self) -> (r: Self)
        ensures
            r@ == self@,
    {
        Manifest {
            data_dir: self.data_dir.clone(),
            manifest_path: self.manifest_path.clone(),
            record: self.record.clone(),
        }
    }
}

impl Manifest {
    /// The manifest whose record `record` is kept at `manifest_path`, in
    /// the data directory `data_dir`.
    pub fn new(data_dir: String, manifest_path: String, record: ManifestRecord) -> (r: Self)
        ensures
            r@ == (ManifestView {
                data_dir: data_dir@,
                manifest_path: manifest_path@,
                record: record@,
            }),
    {
        Manifest { data_dir, manifest_path, record }
    }

    #[must_use]
    pub fn data_dir(&self) -> (p: &str)
        ensures
            p@ == self@.data_dir,
    {
        self.data_dir.as_str()
    }

    #[must_use]
    pub fn manifest_path(&self) -> (p: &str)
        ensures
            p@ == self@.manifest_path,
    {
        self.manifest_path.as_str()
    }

    #[must_use]
    pub fn record(&self) -> (r: &ManifestRecord)
        ensures
            r@ == self@.record,
    {
        &self.record
    }

    #[must_use]
    pub fn created_at(&self) -> (t: &Timestamp)
        ensures
            *t == self@.record.created_at,
    {
        &self.record.created_at
    }

    #[must_use]
    pub fn original_project_dir(&self) -> (dir: &str)
        ensures
            dir@ == self@.record.original_project_dir,
    {
        self.record.original_project_dir.as_str()
    }

    #[must_use]
    pub fn meta_id(&self) -> (id: &MetaId)
        ensures
            id@ == self@.record.meta_id,
    {
        &self.record.meta_id
    }
}

} // verus!
