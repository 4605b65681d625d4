//! A store that ties project directories to metadirectories: private,
//! durable places for the state that belongs to a working directory.
//!
//! A metadirectory is named by a random [`MetaId`] and keeps a
//! [`Manifest`] of itself. A project directory reaches it through a
//! [`Link`], a record named after the [`LinkId`] that is the digest of the
//! directory's path; many directories may share one metadirectory. A link
//! whose directory or manifest is gone, and a manifest that no valid link
//! points to, are [`Trash`].
//!
//! This crate decides and does not touch the file system. Its caller
//! reads, writes, locks and deletes, and hands in what it saw
//! ([`FileRead`], [`FileWrite`], [`LockOutcome`]); each operation of
//! [`Repo`] states, for everything the caller may have seen, what is
//! returned and what is to be written or deleted. What the operations do
//! to the files when the caller plays its part is stated over
//! [`store::Store`].

pub mod config;
pub mod deletion;
pub mod dir_info;
pub mod error;
pub mod hex;
pub mod hex_digest;
pub mod link;
pub mod link_id;
pub mod manifest;
pub mod meta_id;
pub mod observed;
pub mod outcome;
pub mod path;
pub mod record_write;
pub mod repo;
pub mod shared_path;
pub mod store;
pub mod text;
pub mod timestamp;
pub mod trash;

pub use self::config::{RepoConfig, StoredConfig};
pub use self::deletion::Deletion;
pub use self::dir_info::DirInfo;
pub use self::error::{RepoError, RepoErrorKind};
pub use self::hex_digest::HexDigest;
pub use self::link::{Link, LinkRecord};
pub use self::link_id::LinkId;
pub use self::manifest::{Manifest, ManifestRecord};
pub use self::meta_id::MetaId;
pub use self::observed::{FileRead, FileWrite, LockOutcome};
pub use self::record_write::RecordWrite;
pub use self::repo::Repo;
pub use self::shared_path::SharedPath;
pub use self::timestamp::Timestamp;
pub use self::trash::Trash;
