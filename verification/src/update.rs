//! Data carried by the application's self-update flow. The checking,
//! downloading and installing are I/O and live outside the engine; these
//! types describe what they report.

use vstd::prelude::*;

verus! {

/// What an update check found.
#[derive(Debug, Clone)]
pub struct UpdateMetadata {
    pub version: String,
    pub current_version: String,
    pub body: Option<String>,
    pub date: Option<String>,
}

/// Progress of an update download.
#[derive(Debug, Clone)]
pub struct DownloadProgress {
    pub downloaded: u64,
    pub total: Option<u64>,
}

} // verus!
