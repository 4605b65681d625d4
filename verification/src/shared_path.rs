//! The name of a file in the shared directory, as the caller wrote it.

use vstd::prelude::*;
use vstd::string::*;

verus! {

/// A caller-supplied path into the shared directory. It is kept as given:
/// whether it stays inside the directory is decided when it is resolved.
#[derive(Debug, Eq, Hash, Ord, PartialEq, PartialOrd)]
pub struct SharedPath(String);

impl View for SharedPath {
    type V = Seq<char>;

    closed spec fn view(&self) -> Seq<char> {
        self.0@
    }
}

impl Clone for SharedPath {
    fn clone(&self) -> (r: Self)
        ensures
            r@ == self@,
    {
        SharedPath(self.0.clone())
    }
}

impl SharedPath {
    /// Wraps the text `s`.
    pub fn new(s: &str) -> (r: Self)
        ensures
            r@ == s@,
    {
        SharedPath(s.to_owned())
    }

    /// The text that was wrapped.
    pub fn as_str(&self) -> (s: &str)
        ensures
            s@ == self@,
    {
        self.0.as_str()
    }
}

} // verus!
