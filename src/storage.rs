//! Where attachments are kept on the local filesystem.
use vstd::prelude::*;

use std::path::PathBuf;

verus! {

#[verifier::external_type_specification]
#[verifier::external_body]
pub struct ExPathBuf(PathBuf);

/// Attachment storage rooted at a directory.
pub struct LocalStorage {
    root: PathBuf,
}

impl LocalStorage {
    pub closed spec fn spec_root(&self) -> PathBuf {
        self.root
    }

    pub fn new(root: PathBuf) -> (r: Self)
        ensures
            r.spec_root() == root,
    {
        LocalStorage { root }
    }

    /// The directory files are stored under.
    pub fn root(&self) -> (r: &PathBuf)
        ensures
            *r == self.spec_root(),
    {
        &self.root
    }
}

} // verus!
