//! The adapter through which the host provisions the markdown language server.
use vstd::prelude::*;
use crate::binary::{
    LanguageServerBinary, cache_entry_path, entry_name, entry_path, is_bare_binary,
    is_server_binary, server_binary,
};
use crate::error::ProvisionError;
use crate::fetch::{FetchJob, FetchPhase};
use crate::label::{CodeLabel, CompletionItem, format_completion_label, label_text};
use crate::platform::{asset_suffix, names_fault, platform_supported, suffix_of};
use crate::release::{GitHubLspBinaryVersion, GitHubRelease, find_asset, has_asset, is_first_match};

verus! {

/// The repository whose releases carry the server's binaries.
pub const RELEASE_REPOSITORY: &'static str = "artempyanykh/marksman";

/// The name of the asset built for a supported platform.
pub open spec fn asset_name_of(tool: Seq<char>, os: Seq<char>, arch: Seq<char>) -> Seq<char> {
    tool + "-"@ + suffix_of(os, arch)
}

/// Provisions the marksman binary: probe, resolve, fetch and read the cache.
#[derive(Debug, Clone)]
pub struct MarkdownLspAdapter {
    server_name: String,
}

impl MarkdownLspAdapter {
    /// The tool's name: the key of its cache entries and of the path lookup.
    pub closed spec fn tool(&self) -> Seq<char> {
        self.server_name@
    }

    pub fn new() -> (r: Self)
        ensures
            r.tool() == "marksman"@,
    {
        MarkdownLspAdapter { server_name: String::from_str("marksman") }
    }

    pub fn name(&self) -> (r: String)
        ensures
            r@ == self.tool(),
    {
        self.server_name.clone()
    }

    /// The name of the asset that the distributor builds for the platform.
    pub fn build_asset_name(&self, os: &str, arch: &str) -> (r: Result<String, ProvisionError>)
        ensures
            r is Ok <==> platform_supported(os@, arch@),
            r matches Ok(name) ==> name@ == asset_name_of(self.tool(), os@, arch@),
            r matches Err(e) ==> (e matches ProvisionError::UnsupportedPlatform(fault)
                && names_fault(fault, os@, arch@)),
    {
        match asset_suffix(os, arch) {
            Ok(suffix) => {
                let mut name = self.server_name.clone();
                name.append("-");
                name.append(suffix.as_str());
                Ok(name)
            },
            Err(fault) => Err(ProvisionError::UnsupportedPlatform(fault)),
        }
    }

    /// The binary found on the executable search path under the tool's
    /// name, if the lookup found one.
    pub fn check_if_user_installed(&self, found: Option<String>) -> (r: Option<
        LanguageServerBinary,
    >)
        ensures
            r is Some <==> found is Some,
            r matches Some(b) ==> is_server_binary(b, found->Some_0@),
    {
        match found {
            Some(path) => Some(server_binary(path)),
            None => None,
        }
    }

    /// The version to fetch, out of the answer of the release index for
    /// [`RELEASE_REPOSITORY`] (pre-releases included, drafts excluded).
    pub fn fetch_latest_server_version(
        &self,
        release: Result<GitHubRelease, String>,
        os: &str,
        arch: &str,
    ) -> (r: Result<GitHubLspBinaryVersion, ProvisionError>)
        ensures
            release matches Err(msg) ==> (r matches Err(ProvisionError::ReleaseQueryFailed(m))
                && m@ == msg@),
            release is Ok && !platform_supported(os@, arch@) ==> (r matches Err(
                ProvisionError::UnsupportedPlatform(fault),
            ) && names_fault(fault, os@, arch@)),
            release matches Ok(rel) ==> platform_supported(os@, arch@) ==> {
                let wanted = asset_name_of(self.tool(), os@, arch@);
                &&& r is Ok <==> has_asset(rel.assets@, wanted)
                &&& r matches Ok(v) ==> v.name@ == rel.tag_name@ && exists|i: int|
                    is_first_match(rel.assets@, wanted, i) && v.url@
                        == rel.assets@[i].browser_download_url@
                &&& r matches Err(e) ==> (e matches ProvisionError::NoMatchingAsset(n) && n@
                    == wanted)
            },
    {
        let release = match release {
            Ok(rel) => rel,
            Err(msg) => {
                return Err(ProvisionError::ReleaseQueryFailed(msg));
            },
        };
        let asset_name = match self.build_asset_name(os, arch) {
            Ok(name) => name,
            Err(e) => {
                return Err(e);
            },
        };
        match find_asset(&release.assets, &asset_name) {
            Some(i) => Ok(
                GitHubLspBinaryVersion {
                    name: release.tag_name,
                    url: release.assets[i].browser_download_url.clone(),
                },
            ),
            None => Err(ProvisionError::NoMatchingAsset(asset_name)),
        }
    }

    /// The job that brings `version` into `container_dir`.
    pub fn fetch_server_binary(
        &self,
        version: &GitHubLspBinaryVersion,
        container_dir: &str,
        needs_exec_bits: bool,
    ) -> (r: FetchJob)
        ensures
            r.entry@ == entry_name(self.tool(), version.name@),
            r.binary_path@ == entry_path(container_dir@, r.entry@),
            r.url@ == version.url@,
            r.needs_exec_bits == needs_exec_bits,
            r.phase == FetchPhase::Start,
    {
        FetchJob::new(self.server_name.as_str(), version, container_dir, needs_exec_bits)
    }

    /// The cached binary, out of the listing of `container_dir`.
    pub fn cached_server_binary(&self, container_dir: &str, listing: Option<Vec<String>>) -> (r:
        Option<LanguageServerBinary>)
        ensures
            r is Some <==> (listing matches Some(names) && names@.len() > 0),
            r matches Some(b) ==> is_bare_binary(
                b,
                entry_path(container_dir@, listing->Some_0@.last()@),
            ),
    {
        get_cached_server_binary(container_dir, listing)
    }

    /// The display label of a completion item, where one replaces the
    /// default rendering.
    pub fn label_for_completion(&self, completion: &CompletionItem) -> (r: Option<CodeLabel>)
        ensures
            r is Some <==> label_text(*completion) is Some,
            r matches Some(l) ==> l.text@ == label_text(*completion)->Some_0,
    {
        format_completion_label(completion)
    }
}

/// The last entry of a listing of the container directory, in listing
/// order: no version comparison is made. `None` where the listing failed
/// or is empty.
pub fn get_cached_server_binary(container_dir: &str, listing: Option<Vec<String>>) -> (r: Option<
    LanguageServerBinary,
>)
    ensures
        r is Some <==> (listing matches Some(names) && names@.len() > 0),
        r matches Some(b) ==> is_bare_binary(
            b,
            entry_path(container_dir@, listing->Some_0@.last()@),
        ),
{
    match listing {
        Some(names) => {
            let n = names.len();
            if n == 0 {
                None
            } else {
                let path = cache_entry_path(container_dir, names[n - 1].as_str());
                Some(LanguageServerBinary { path, env: None, arguments: Vec::new() })
            }
        },
        None => None,
    }
}

} // verus!
