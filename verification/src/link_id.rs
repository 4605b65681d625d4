//! The identifier of a link: the digest of a project directory's path.

use vstd::prelude::*;
use vstd::string::*;
use crate::error::{ErrorView, RepoError};
use crate::hex::{
    hex_encode, hex_of_bytes, is_hex_text, is_lower_hex_text, lemma_hex_of_bytes_is_lower,
    lower_hex, lowered,
};
use crate::path::{absolute, is_absolute};

verus! {

/// The MD5 digest of a text, as its sixteen bytes.
pub uninterp spec fn md5_digest(text: Seq<char>) -> Seq<u8>;

/// The text of the link identifier that belongs to the path `path`.
pub open spec fn link_id_of(path: Seq<char>) -> Seq<char> {
    hex_of_bytes(md5_digest(path))
}

/// Calls `md5::compute` on the bytes of `text` and hands out the digest.
/// Trusted: the result is the digest of the text, and it has sixteen bytes.
#[verifier::external_body]
pub(crate) fn md5_of(text: &str) -> (digest: Vec<u8>)
    ensures
        digest@ == md5_digest(text@),
        digest@.len() == 16,
{
    md5::compute(text).0.to_vec()
}

/// Identifies the link of one project directory. Its text is what the link
/// file is named after.
#[derive(Debug, Eq, Hash, Ord, PartialEq, PartialOrd)]
pub struct LinkId(String);

impl View for LinkId {
    type V = Seq<char>;

    closed spec fn view(&self) -> Seq<char> {
        self.0@
    }
}

impl Clone for LinkId {
    fn clone(&self) -> (r: Self)
        ensures
            r@ == self@,
    {
        LinkId(self.0.clone())
    }
}

impl LinkId {
    /// Reads an identifier from hexadecimal text of either case. Text that
    /// is empty or holds anything but hexadecimal digits is refused.
    pub fn parse(s: &str) -> (r: Result<LinkId, RepoError>)
        ensures
            match r {
                Ok(id) => is_hex_text(s@) && id@ == lowered(s@),
                Err(e) => !is_hex_text(s@) && e@ == ErrorView::InvalidLinkId(s@),
            },
    {
        match lower_hex(s) {
            Some(text) => Ok(LinkId(text)),
            None => Err(RepoError::invalid_link_id(s)),
        }
    }

    /// The identifier of the project directory at `path`, which must be
    /// absolute: the digest of the path's text as thirty-two lower-case
    /// hexadecimal digits.
    pub fn from_path(path: &str) -> (r: Result<LinkId, RepoError>)
        ensures
            match r {
                Ok(id) => absolute(path@) && id@ == link_id_of(path@) && id@.len() == 32
                    && is_lower_hex_text(id@),
                Err(e) => !absolute(path@) && e@ == ErrorView::CouldNotComputeHash(path@),
            },
    {
        if !is_absolute(path) {
            return Err(RepoError::could_not_compute_hash(path));
        }
        let digest = md5_of(path);
        let text = hex_encode(&digest);
        proof {
            lemma_hex_of_bytes_is_lower(digest@);
        }
        LinkId::parse(text.as_str())
    }

    /// The identifier that a stored record holds, taken as it stands.
    pub fn from_record(text: &str) -> (r: LinkId)
        ensures
            r@ == text@,
    {
        LinkId(text.to_owned())
    }

    /// The identifier's text.
    pub fn as_str(&self) -> (s: &str)
        ensures
            s@ == self@,
    {
        self.0.as_str()
    }

    /// The identifier's text, owned.
    pub fn to_string(&self) -> (s: String)
        ensures
            s@ == self@,
    {
        self.0.clone()
    }

    /// Whether two identifiers have the same text.
    pub fn same_as(&self, other: &LinkId) -> (b: bool)
        ensures
            b == (self@ == other@),
    {
        self.0 == other.0
    }
}

impl std::str::FromStr for LinkId {
    type Err = RepoError;

    fn from_str(s: &str) -> (r: Result<Self, Self::Err>)
        ensures
            match r {
                Ok(id) => is_hex_text(s@) && id@ == lowered(s@),
                Err(e) => !is_hex_text(s@) && e@ == ErrorView::InvalidLinkId(s@),
            },
    {
        LinkId::parse(s)
    }
}

} // verus!
