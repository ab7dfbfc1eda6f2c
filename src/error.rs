//! What can go wrong while provisioning the tool.
use vstd::prelude::*;
use crate::platform::UnsupportedPlatform;

verus! {

/// How a download failed.
#[derive(Debug, Clone, PartialEq, Eq)]
pub enum DownloadFailure {
    /// The request could not be sent or answered.
    Request,
    /// The server answered with a status outside the success range.
    Status(u16),
    /// Creating, writing or marking the local file failed.
    Io,
}

/// The failures of a provisioning attempt.
#[derive(Debug, Clone, PartialEq, Eq)]
pub enum ProvisionError {
    /// No asset is published for the running platform.
    UnsupportedPlatform(UnsupportedPlatform),
    /// The release index could not be queried; the message says why.
    ReleaseQueryFailed(String),
    /// The latest release has no asset of the given name.
    NoMatchingAsset(String),
    /// The asset could not be brought into the cache.
    DownloadFailed(DownloadFailure),
}

/// Whether an HTTP status code denotes success.
pub open spec fn status_is_success(status: u16) -> bool {
    200 <= status && status < 300
}

/// Whether an HTTP status code denotes success.
pub fn is_success(status: u16) -> (r: bool)
    ensures
        r == status_is_success(status),
{
    200 <= status && status < 300
}

} // verus!
