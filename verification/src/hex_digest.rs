//! The digest of a path as text, without the checks of a link identifier.

use vstd::prelude::*;
use vstd::string::*;
use crate::hex::{hex_encode, is_lower_hex_text, lemma_hex_of_bytes_is_lower};
use crate::link_id::{link_id_of, md5_of};

verus! {

/// A digest in hexadecimal. Any text may be wrapped; the digest of a path
/// is what [`HexDigest::from_path`] gives.
#[derive(Debug)]
pub struct HexDigest(String);

impl View for HexDigest {
    type V = Seq<char>;

    closed spec fn view(&self) -> Seq<char> {
        self.0@
    }
}

impl Clone for HexDigest {
    fn clone(&self) -> (r: Self)
        ensures
            r@ == self@,
    {
        HexDigest(self.0.clone())
    }
}

impl HexDigest {
    /// Wraps the text `value`.
    pub fn new(value: &str) -> (r: Self)
        ensures
            r@ == value@,
    {
        HexDigest(value.to_owned())
    }

    /// The digest of the text of `path`, absolute or not, as thirty-two
    /// lower-case hexadecimal digits.
    pub fn from_path(path: &str) -> (r: Self)
        ensures
            r@ == link_id_of(path@),
            r@.len() == 32,
            is_lower_hex_text(r@),
    {
        let digest = md5_of(path);
        proof {
            lemma_hex_of_bytes_is_lower(digest@);
        }
        HexDigest(hex_encode(&digest))
    }

    /// The digest's text.
    pub fn as_str(&self) -> (s: &str)
        ensures
            s@ == self@,
    {
        self.0.as_str()
    }
}

} // verus!
