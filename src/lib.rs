//! Provisioning and caching of the marksman language-server binary.
//!
//! The library decides; the host performs. Every step that touches the
//! network or the file system is described here as a value handed to the
//! host, and every answer of the host comes back as a value, so that the
//! whole provisioning flow can be stated and proved without I/O.
mod adapter;
mod binary;
mod error;
mod fetch;
mod label;
mod platform;
mod release;

pub use adapter::{MarkdownLspAdapter, RELEASE_REPOSITORY, get_cached_server_binary};
pub use binary::{
    LanguageServerBinary, cache_entry_name, cache_entry_path, server_binary,
    server_binary_arguments,
};
pub use error::{DownloadFailure, ProvisionError, is_success};
pub use fetch::{FetchAction, FetchEvent, FetchJob, FetchPhase, stale_names};
pub use label::{COMPLETION_KIND_REFERENCE, CodeLabel, CompletionItem, format_completion_label};
pub use platform::{UnsupportedPlatform, asset_suffix};
pub use release::{GitHubLspBinaryVersion, GitHubRelease, ReleaseAsset, find_asset};
