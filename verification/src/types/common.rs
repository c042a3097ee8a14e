//! Types shared by every part of the API.

use vstd::prelude::*;

verus! {

/// The version of the server.
#[derive(Debug, Clone)]
pub struct VersionInfo {
    pub version: String,
    pub release: Option<String>,
    pub repoid: Option<String>,
    pub console: Option<String>,
}

} // verus!
