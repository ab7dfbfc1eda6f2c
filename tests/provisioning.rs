use markdown_lsp::{
    asset_suffix, get_cached_server_binary, is_success, stale_names, CodeLabel, CompletionItem,
    DownloadFailure, FetchAction, FetchEvent, FetchJob, FetchPhase, GitHubLspBinaryVersion,
    GitHubRelease, LanguageServerBinary, MarkdownLspAdapter, ProvisionError, ReleaseAsset,
    UnsupportedPlatform, COMPLETION_KIND_REFERENCE,
};

/// A container directory and a download server, in memory.
struct Host {
    dir: Vec<String>,
    status: u16,
    downloads: u32,
}

fn run(job: &mut FetchJob, host: &mut Host) -> Result<LanguageServerBinary, ProvisionError> {
    let mut event = FetchEvent::Started;
    loop {
        event = match job.step(event) {
            FetchAction::CheckExists => FetchEvent::Probed(host.dir.contains(&job.entry)),
            FetchAction::Download => {
                host.downloads += 1;
                FetchEvent::Responded(host.status)
            }
            FetchAction::CreateFile => {
                if !host.dir.contains(&job.entry) {
                    host.dir.push(job.entry.clone());
                }
                FetchEvent::Created
            }
            FetchAction::WriteBody => FetchEvent::Written,
            FetchAction::MarkExecutable => FetchEvent::Marked,
            FetchAction::ListContainer => FetchEvent::Listed(host.dir.clone()),
            FetchAction::Remove(stale) => {
                host.dir.retain(|n| !stale.contains(n));
                FetchEvent::Pruned
            }
            FetchAction::Finish(r) => return r,
            FetchAction::Ignore => panic!("event out of order"),
        };
    }
}

fn version(name: &str) -> GitHubLspBinaryVersion {
    GitHubLspBinaryVersion {
        name: name.to_string(),
        url: format!("https://example.com/marksman-{name}"),
    }
}

fn asset(name: &str) -> ReleaseAsset {
    ReleaseAsset {
        name: name.to_string(),
        browser_download_url: format!("https://example.com/{name}"),
    }
}

fn s(v: &[&str]) -> Vec<String> {
    v.iter().map(|x| x.to_string()).collect()
}

#[test]
fn supported_platforms_have_suffixes() {
    let cases = [
        ("macos", "aarch64", "macos"),
        ("macos", "x86_64", "macos"),
        ("linux", "x86_64", "linux-x64"),
        ("linux", "aarch64", "linux-arm64"),
        ("linux", "arm64", "linux-arm64"),
        ("windows", "x86_64", ".exe"),
    ];
    for (os, arch, suffix) in cases {
        let got = asset_suffix(os, arch).unwrap();
        assert_eq!(got, suffix);
        assert!(!got.is_empty());
    }
}

#[test]
fn unsupported_os_is_named() {
    assert_eq!(
        asset_suffix("freebsd", "x86_64"),
        Err(UnsupportedPlatform::Os("freebsd".to_string()))
    );
}

#[test]
fn unsupported_linux_architecture_is_named() {
    assert_eq!(
        asset_suffix("linux", "riscv64"),
        Err(UnsupportedPlatform::Architecture("riscv64".to_string()))
    );
}

#[test]
fn asset_name_carries_tool_and_suffix() {
    let adapter = MarkdownLspAdapter::new();
    assert_eq!(adapter.name(), "marksman");
    assert_eq!(
        adapter.build_asset_name("linux", "x86_64").unwrap(),
        "marksman-linux-x64"
    );
    assert_eq!(adapter.build_asset_name("windows", "x86_64").unwrap(), "marksman-.exe");
    assert_eq!(
        adapter.build_asset_name("haiku", "x86_64"),
        Err(ProvisionError::UnsupportedPlatform(UnsupportedPlatform::Os(
            "haiku".to_string()
        )))
    );
}

#[test]
fn installed_binary_runs_in_server_mode() {
    let adapter = MarkdownLspAdapter::new();
    let b = adapter
        .check_if_user_installed(Some("/usr/bin/marksman".to_string()))
        .unwrap();
    assert_eq!(b.path, "/usr/bin/marksman");
    assert!(b.env.is_none());
    assert_eq!(b.arguments, s(&["server"]));
    assert!(adapter.check_if_user_installed(None).is_none());
}

#[test]
fn release_asset_for_platform_is_selected() {
    let adapter = MarkdownLspAdapter::new();
    let release = GitHubRelease {
        tag_name: "2024-01-01".to_string(),
        assets: vec![asset("marksman-macos"), asset("marksman-linux-x64"), asset("marksman-linux-x64")],
    };
    let v = adapter
        .fetch_latest_server_version(Ok(release), "linux", "x86_64")
        .unwrap();
    assert_eq!(v.name, "2024-01-01");
    assert_eq!(v.url, "https://example.com/marksman-linux-x64");
}

#[test]
fn missing_asset_gives_no_matching_asset_and_no_download() {
    let adapter = MarkdownLspAdapter::new();
    let release = GitHubRelease {
        tag_name: "2024-01-01".to_string(),
        assets: vec![asset("marksman-macos")],
    };
    let r = adapter.fetch_latest_server_version(Ok(release), "linux", "aarch64");
    assert_eq!(
        r.unwrap_err(),
        ProvisionError::NoMatchingAsset("marksman-linux-arm64".to_string())
    );
}

#[test]
fn failed_release_query_is_reported() {
    let adapter = MarkdownLspAdapter::new();
    let r = adapter.fetch_latest_server_version(Err("rate limited".to_string()), "linux", "x86_64");
    assert_eq!(r.unwrap_err(), ProvisionError::ReleaseQueryFailed("rate limited".to_string()));
}

#[test]
fn release_query_failure_comes_before_platform_check() {
    let adapter = MarkdownLspAdapter::new();
    let r = adapter.fetch_latest_server_version(Err("offline".to_string()), "plan9", "x86_64");
    assert_eq!(r.unwrap_err(), ProvisionError::ReleaseQueryFailed("offline".to_string()));
}

#[test]
fn job_names_entry_and_path() {
    let adapter = MarkdownLspAdapter::new();
    let job = adapter.fetch_server_binary(&version("0.3.0"), "/cache/marksman", true);
    assert_eq!(job.entry, "marksman-0.3.0");
    assert_eq!(job.binary_path, "/cache/marksman/marksman-0.3.0");
    assert_eq!(job.url, "https://example.com/marksman-0.3.0");
    assert_eq!(job.phase, FetchPhase::Start);
}

#[test]
fn materialize_twice_downloads_once() {
    let adapter = MarkdownLspAdapter::new();
    let mut host = Host { dir: Vec::new(), status: 200, downloads: 0 };
    let mut first = adapter.fetch_server_binary(&version("1.0.0"), "/c", true);
    let a = run(&mut first, &mut host).unwrap();
    let mut second = adapter.fetch_server_binary(&version("1.0.0"), "/c", true);
    let b = run(&mut second, &mut host).unwrap();
    assert_eq!(host.downloads, 1);
    assert_eq!(a.path, b.path);
    assert_eq!(b.path, "/c/marksman-1.0.0");
    assert_eq!(b.arguments, s(&["server"]));
}

#[test]
fn materialize_prunes_other_versions() {
    let adapter = MarkdownLspAdapter::new();
    let mut host = Host {
        dir: s(&["marksman-0.1.0", "notes.txt", "marksman-0.2.0"]),
        status: 200,
        downloads: 0,
    };
    let mut job = adapter.fetch_server_binary(&version("0.3.0"), "/c", false);
    let b = run(&mut job, &mut host).unwrap();
    assert_eq!(host.dir, s(&["marksman-0.3.0"]));
    assert_eq!(b.path, "/c/marksman-0.3.0");
}

#[test]
fn failed_download_keeps_empty_file() {
    let adapter = MarkdownLspAdapter::new();
    let mut host = Host { dir: s(&["marksman-0.1.0"]), status: 404, downloads: 0 };
    let mut job = adapter.fetch_server_binary(&version("0.2.0"), "/c", true);
    let r = run(&mut job, &mut host);
    assert_eq!(
        r.unwrap_err(),
        ProvisionError::DownloadFailed(DownloadFailure::Status(404))
    );
    assert_eq!(host.dir, s(&["marksman-0.1.0", "marksman-0.2.0"]));
    assert_eq!(job.phase, FetchPhase::Done);
}

#[test]
fn request_and_io_failures_end_the_job() {
    let adapter = MarkdownLspAdapter::new();
    let mut job = adapter.fetch_server_binary(&version("1.0.0"), "/c", true);
    assert!(matches!(job.step(FetchEvent::Started), FetchAction::CheckExists));
    assert!(matches!(job.step(FetchEvent::Probed(false)), FetchAction::Download));
    match job.step(FetchEvent::RequestFailed) {
        FetchAction::Finish(Err(e)) => {
            assert_eq!(e, ProvisionError::DownloadFailed(DownloadFailure::Request))
        }
        other => panic!("unexpected {other:?}"),
    }

    let mut job = adapter.fetch_server_binary(&version("1.0.0"), "/c", true);
    job.step(FetchEvent::Started);
    job.step(FetchEvent::Probed(false));
    assert!(matches!(job.step(FetchEvent::Responded(200)), FetchAction::CreateFile));
    assert!(matches!(job.step(FetchEvent::Created), FetchAction::WriteBody));
    match job.step(FetchEvent::WriteFailed) {
        FetchAction::Finish(Err(e)) => {
            assert_eq!(e, ProvisionError::DownloadFailed(DownloadFailure::Io))
        }
        other => panic!("unexpected {other:?}"),
    }
}

#[test]
fn execute_bits_only_where_needed() {
    let adapter = MarkdownLspAdapter::new();
    for (needs, marks) in [(true, true), (false, false)] {
        let mut job = adapter.fetch_server_binary(&version("1.0.0"), "/c", needs);
        job.step(FetchEvent::Started);
        job.step(FetchEvent::Probed(false));
        job.step(FetchEvent::Responded(200));
        job.step(FetchEvent::Created);
        let a = job.step(FetchEvent::Written);
        assert_eq!(matches!(a, FetchAction::MarkExecutable), marks);
        assert_eq!(matches!(a, FetchAction::ListContainer), !marks);
    }
}

#[test]
fn failed_listing_still_succeeds() {
    let adapter = MarkdownLspAdapter::new();
    let mut job = adapter.fetch_server_binary(&version("1.0.0"), "/c", false);
    job.step(FetchEvent::Started);
    job.step(FetchEvent::Probed(false));
    job.step(FetchEvent::Responded(200));
    job.step(FetchEvent::Created);
    job.step(FetchEvent::Written);
    match job.step(FetchEvent::ListFailed) {
        FetchAction::Finish(Ok(b)) => assert_eq!(b.path, "/c/marksman-1.0.0"),
        other => panic!("unexpected {other:?}"),
    }
}

#[test]
fn out_of_order_event_is_ignored() {
    let adapter = MarkdownLspAdapter::new();
    let mut job = adapter.fetch_server_binary(&version("1.0.0"), "/c", false);
    assert!(matches!(job.step(FetchEvent::Pruned), FetchAction::Ignore));
    assert_eq!(job.phase, FetchPhase::Start);
}

#[test]
fn stale_names_keep_listing_order() {
    let listing = s(&["b", "marksman-1", "a", "marksman-1"]);
    assert_eq!(stale_names(&listing, &"marksman-1".to_string()), s(&["b", "a"]));
    assert!(stale_names(&Vec::new(), &"x".to_string()).is_empty());
}

#[test]
fn cache_reader_takes_last_listed_entry() {
    let adapter = MarkdownLspAdapter::new();
    let listing = s(&["marksman-0.1.0", "marksman-2.0.0"]);
    let b = adapter.cached_server_binary("/c", Some(listing)).unwrap();
    assert_eq!(b.path, "/c/marksman-2.0.0");
    assert!(b.arguments.is_empty());
    assert!(b.env.is_none());
    let listing = s(&["marksman-2.0.0", "marksman-0.1.0"]);
    let b = get_cached_server_binary("/c", Some(listing)).unwrap();
    assert_eq!(b.path, "/c/marksman-0.1.0");
}

#[test]
fn cache_reader_misses_on_empty_or_failed_listing() {
    assert!(get_cached_server_binary("/c", Some(Vec::new())).is_none());
    assert!(get_cached_server_binary("/c", None).is_none());
}

fn item(kind: Option<u32>, detail: Option<&str>, label: &str) -> CompletionItem {
    CompletionItem {
        label: label.to_string(),
        kind,
        detail: detail.map(|d| d.to_string()),
    }
}

#[test]
fn reference_with_detail_gets_label() {
    let adapter = MarkdownLspAdapter::new();
    let l: CodeLabel = adapter
        .label_for_completion(&item(Some(COMPLETION_KIND_REFERENCE), Some("Heading"), "intro"))
        .unwrap();
    assert_eq!(l.text, "Heading - intro");
}

#[test]
fn other_items_get_no_label() {
    let adapter = MarkdownLspAdapter::new();
    assert!(adapter
        .label_for_completion(&item(Some(COMPLETION_KIND_REFERENCE), None, "intro"))
        .is_none());
    assert!(adapter
        .label_for_completion(&item(Some(1), Some("Heading"), "intro"))
        .is_none());
    assert!(adapter.label_for_completion(&item(None, Some("Heading"), "intro")).is_none());
}

#[test]
fn success_statuses() {
    assert!(is_success(200));
    assert!(is_success(299));
    assert!(!is_success(199));
    assert!(!is_success(300));
    assert!(!is_success(404));
}
