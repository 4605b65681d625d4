//! What the caller is asked to write.

use vstd::prelude::*;
use vstd::string::*;
use crate::link::{Link, LinkRecord, LinkRecordView, LinkView};
use crate::manifest::{Manifest, ManifestRecord, ManifestRecordView, ManifestView};

verus! {

/// What a [`RecordWrite`] asks for.
pub enum RecordWriteView {
    Manifest { path: Seq<char>, record: ManifestRecordView },
    Link { path: Seq<char>, record: LinkRecordView },
}

/// One record to write, with the path of its file.
#[derive(Debug)]
pub enum RecordWrite {
    /// This manifest record, at this path.
    Manifest { path: String, record: ManifestRecord },
    /// This link record, at this path.
    Link { path: String, record: LinkRecord },
}

impl View for RecordWrite {
    type V = RecordWriteView;

    open spec fn view(&self) -> RecordWriteView {
        match self {
            RecordWrite::Manifest { path, record } => RecordWriteView::Manifest {
                path: path@,
                record: record@,
            },
            RecordWrite::Link { path, record } => RecordWriteView::Link {
                path: path@,
                record: record@,
            },
        }
    }
}

/// What writes ask for, one for one.
pub open spec fn write_views(plan: Seq<RecordWrite>) -> Seq<RecordWriteView> {
    plan.map_values(|w: RecordWrite| w@)
}

/// The write that puts the record of `manifest` into its file.
pub open spec fn manifest_write(manifest: ManifestView) -> RecordWriteView {
    RecordWriteView::Manifest { path: manifest.manifest_path, record: manifest.record }
}

/// The write that puts the record of `link` into its file.
pub open spec fn link_write(link: LinkView) -> RecordWriteView {
    RecordWriteView::Link { path: link.link_path, record: link.record }
}

impl RecordWrite {
    /// The write that puts the record of `manifest` into its file.
    pub fn of_manifest(manifest: &Manifest) -> (w: RecordWrite)
        ensures
            w@ == manifest_write(manifest@),
    {
        RecordWrite::Manifest {
            path: manifest.manifest_path().to_owned(),
            record: manifest.record().clone(),
        }
    }

    /// The write that puts the record of `link` into its file.
    pub fn of_link(link: &Link) -> (w: RecordWrite)
        ensures
            w@ == link_write(link@),
    {
        RecordWrite::Link { path: link.link_path().to_owned(), record: link.record().clone() }
    }

    /// The path of the file to write.
    pub fn path(&self) -> (p: &str)
        ensures
            match self@ {
                RecordWriteView::Manifest { path, .. } => p@ == path,
                RecordWriteView::Link { path, .. } => p@ == path,
            },
    {
        match self {
            RecordWrite::Manifest { path, .. } => path.as_str(),
            RecordWrite::Link { path, .. } => path.as_str(),
        }
    }
}

} // verus!
