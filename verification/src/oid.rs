//! Commit identifiers: a version tag or a bare commit reference.
//!
//! An identifier marks a release boundary and doubles as a display
//! anchor: a tag shows its name, a bare reference shows its hash.

use vstd::prelude::*;

verus! {

/// A version tag pointing at a commit.
#[derive(Debug)]
pub struct Tag {
    /// The tag name as displayed, e.g. `1.0.0`.
    pub name: String,
    /// The hash of the commit the tag points at.
    pub oid: String,
}

impl Tag {
    pub fn new(name: String, oid: String) -> (r: Self)
        ensures
            r == (Tag { name, oid }),
    {
        Tag { name, oid }
    }
}

impl Clone for Tag {
    fn clone(&self) -> (r: Self)
        ensures
            r == *self,
    {
        Tag { name: self.name.clone(), oid: self.oid.clone() }
    }
}

/// A tagged or untagged commit reference.
#[derive(Debug)]
pub enum OidOf {
    /// A commit carrying a version tag.
    Tag(Tag),
    /// An untagged commit, identified by its hash alone.
    FirstCommit(String),
}

impl OidOf {
    /// Whether this identifier closes a release.
    pub open spec fn is_tagged(&self) -> bool {
        self is Tag
    }

    /// What `display` returns: the tag name, or the bare hash.
    pub open spec fn spec_display(&self) -> Seq<char> {
        match self {
            OidOf::Tag(t) => t.name@,
            OidOf::FirstCommit(h) => h@,
        }
    }

    /// The display form used in headings and links.
    pub fn display(&self) -> (r: String)
        ensures
            r@ == self.spec_display(),
    {
        match self {
            OidOf::Tag(t) => t.name.clone(),
            OidOf::FirstCommit(h) => h.clone(),
        }
    }
}

impl Clone for OidOf {
    fn clone(&self) -> (r: Self)
        ensures
            r == *self,
    {
        match self {
            OidOf::Tag(t) => OidOf::Tag(t.clone()),
            OidOf::FirstCommit(h) => OidOf::FirstCommit(h.clone()),
        }
    }
}

} // verus!
