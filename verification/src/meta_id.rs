//! The identifier of a metadirectory: 128 bits drawn at random.

use vstd::prelude::*;
use vstd::string::*;
use crate::error::{ErrorView, RepoError};
use crate::hex::{hex_encode_u128, hex_of_u128};

verus! {

/// The number that a text spells as a UUID, in any of the spellings that
/// UUIDs have; `None` where the text is none of them.
pub uninterp spec fn uuid_value(text: Seq<char>) -> Option<u128>;

/// Calls `uuid::Uuid::parse_str` and hands out the UUID as a number, the
/// first byte at the top. Trusted: the result is a function of the text,
/// and thirty-two lower-case hexadecimal digits spell the number that they
/// are the digits of.
#[verifier::external_body]
fn parse_uuid(text: &str) -> (r: Option<u128>)
    ensures
        r == uuid_value(text@),
        forall|x: u128| text@ == hex_of_u128(x) ==> r == Some(x),
{
    uuid::Uuid::parse_str(text).ok().map(|u| u.as_u128())
}

/// Identifies one metadirectory for as long as it lives.
#[derive(Clone, Copy, Debug, PartialEq, Eq, PartialOrd, Ord, Hash, Structural)]
pub struct MetaId(u128);

impl View for MetaId {
    type V = u128;

    closed spec fn view(&self) -> u128 {
        self.0
    }
}

impl MetaId {
    /// A fresh identifier from `uuid::Uuid::new_v4`. Trusted, and nothing is
    /// promised of it: two identifiers are distinct by chance alone.
    #[verifier::external_body]
    #[must_use]
    pub fn random() -> (r: MetaId) {
        MetaId(uuid::Uuid::new_v4().as_u128())
    }

    /// The identifier for what parsing `text` as a UUID gave.
    pub fn from_parsed(text: &str, parsed: Option<u128>) -> (r: Result<MetaId, RepoError>)
        ensures
            match r {
                Ok(id) => parsed == Some(id@),
                Err(e) => parsed is None && e@ == ErrorView::InvalidMetaId(text@),
            },
    {
        match parsed {
            Some(x) => Ok(MetaId(x)),
            None => Err(RepoError::invalid_meta_id(text)),
        }
    }

    /// Reads an identifier from text that spells a UUID. The text that
    /// [`MetaId::to_string`] gives reads back as the same identifier.
    pub fn parse(s: &str) -> (r: Result<MetaId, RepoError>)
        ensures
            match r {
                Ok(id) => uuid_value(s@) == Some(id@),
                Err(e) => uuid_value(s@) is None && e@ == ErrorView::InvalidMetaId(s@),
            },
            forall|x: u128| s@ == hex_of_u128(x) ==> r is Ok && r.unwrap()@ == x,
    {
        MetaId::from_parsed(s, parse_uuid(s))
    }

    /// The identifier with the value `value`.
    pub fn from_u128(value: u128) -> (r: MetaId)
        ensures
            r@ == value,
    {
        MetaId(value)
    }

    /// The identifier's value.
    pub fn as_u128(&self) -> (value: u128)
        ensures
            value == self@,
    {
        self.0
    }

    /// The identifier's text: thirty-two lower-case hexadecimal digits.
    pub fn to_string(&self) -> (s: String)
        ensures
            s@ == hex_of_u128(self@),
    {
        hex_encode_u128(self.0)
    }
}

impl std::str::FromStr for MetaId {
    type Err = RepoError;

    fn from_str(s: &str) -> (r: Result<Self, Self::Err>)
        ensures
            match r {
                Ok(id) => uuid_value(s@) == Some(id@),
                Err(e) => uuid_value(s@) is None && e@ == ErrorView::InvalidMetaId(s@),
            },
            forall|x: u128| s@ == hex_of_u128(x) ==> r is Ok && r.unwrap()@ == x,
    {
        MetaId::parse(s)
    }
}

} // verus!
