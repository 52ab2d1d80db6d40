//! Build identity of the plugin, answered to the UI runtime on request.
//!
//! The values are produced by the build environment; the unverified glue
//! constructs the record once, at startup, and the getters hand the fields
//! back unchanged.

use vstd::prelude::*;

verus! {

/// What any plugin build must answer about itself.
pub trait MadoVersionService {
    fn get_version(&self) -> String;

    fn get_tag(&self) -> String;

    fn get_commit(&self) -> String;

    fn get_branch(&self) -> String;
}

/// The identity of this build: version, release tag, commit and branch.
pub struct MadoVersion {
    pub version: String,
    pub tag: String,
    pub commit: String,
    pub branch: String,
}

impl MadoVersion {
    /// Record the build identity the build environment reported.
    pub fn new(version: String, tag: String, commit: String, branch: String) -> (v: MadoVersion)
        ensures
            v.version == version,
            v.tag == tag,
            v.commit == commit,
            v.branch == branch,
    {
        MadoVersion { version, tag, commit, branch }
    }
}

impl MadoVersionService for MadoVersion {
    fn get_version(&self) -> (r: String)
        ensures
            r == self.version,
    {
        self.version.clone()
    }

    fn get_tag(&self) -> (r: String)
        ensures
            r == self.tag,
    {
        self.tag.clone()
    }

    fn get_commit(&self) -> (r: String)
        ensures
            r == self.commit,
    {
        self.commit.clone()
    }

    fn get_branch(&self) -> (r: String)
        ensures
            r == self.branch,
    {
        self.branch.clone()
    }
}

} // verus!
