//! The mapping from the running operating system and CPU architecture to the
//! suffix that the release distributor puts on each asset name.
use vstd::prelude::*;

verus! {

/// Why no asset name exists for a platform. The unknown operating system,
/// or the unknown architecture under a known one, is carried along.
#[derive(Debug, Clone, PartialEq, Eq)]
pub enum UnsupportedPlatform {
    Os(String),
    Architecture(String),
}

/// The operating systems for which the distributor publishes a binary.
pub open spec fn known_os(os: Seq<char>) -> bool {
    os == "macos"@ || os == "linux"@ || os == "windows"@
}

/// The Linux architectures for which the distributor publishes a binary.
pub open spec fn known_linux_arch(arch: Seq<char>) -> bool {
    arch == "x86_64"@ || arch == "aarch64"@ || arch == "arm64"@
}

/// Whether an asset exists for the platform.
pub open spec fn platform_supported(os: Seq<char>, arch: Seq<char>) -> bool {
    known_os(os) && (os == "linux"@ ==> known_linux_arch(arch))
}

/// The suffix of the asset built for a supported platform.
pub open spec fn suffix_of(os: Seq<char>, arch: Seq<char>) -> Seq<char> {
    if os == "macos"@ {
        "macos"@
    } else if os == "linux"@ {
        if arch == "x86_64"@ {
            "linux-x64"@
        } else {
            "linux-arm64"@
        }
    } else {
        ".exe"@
    }
}

/// `fault` names what makes the platform unsupported: the operating system
/// where it is unknown, else the architecture unknown under Linux.
pub open spec fn names_fault(fault: UnsupportedPlatform, os: Seq<char>, arch: Seq<char>) -> bool {
    match fault {
        UnsupportedPlatform::Os(o) => o@ == os && !known_os(os),
        UnsupportedPlatform::Architecture(a) => a@ == arch && os == "linux"@ && !known_linux_arch(
            arch,
        ),
    }
}

/// Every supported platform has a non-empty asset suffix.
pub proof fn lemma_supported_platform_has_suffix(os: Seq<char>, arch: Seq<char>)
    requires
        platform_supported(os, arch),
    ensures
        suffix_of(os, arch).len() > 0,
{
    reveal_strlit("macos");
    reveal_strlit("linux");
    reveal_strlit("linux-x64");
    reveal_strlit("linux-arm64");
    reveal_strlit(".exe");
}

/// Exact comparison of two string slices.
fn same_text(a: &str, b: &str) -> (r: bool)
    ensures
        r == (a@ == b@),
{
    let a_owned = a.to_owned();
    let b_owned = b.to_owned();
    a_owned == b_owned
}

/// The asset suffix for the given operating system and architecture, as
/// `std::env::consts::OS` and `std::env::consts::ARCH` spell them.
pub fn asset_suffix(os: &str, arch: &str) -> (r: Result<String, UnsupportedPlatform>)
    ensures
        r is Ok <==> platform_supported(os@, arch@),
        r matches Ok(s) ==> s@ == suffix_of(os@, arch@),
        r matches Err(fault) ==> names_fault(fault, os@, arch@),
        r matches Err(UnsupportedPlatform::Os(o)) ==> o@ == os@,
        r matches Err(UnsupportedPlatform::Architecture(a)) ==> a@ == arch@,
        (r matches Err(UnsupportedPlatform::Os(_))) <==> !known_os(os@),
        (r matches Err(UnsupportedPlatform::Architecture(_))) <==> (os@ == "linux"@
            && !known_linux_arch(arch@)),
{
    proof {
        reveal_strlit("macos");
        reveal_strlit("linux");
        reveal_strlit("windows");
        reveal_strlit("x86_64");
        reveal_strlit("aarch64");
        reveal_strlit("arm64");
        assert("macos"@[0] != "linux"@[0]);
    }
    if same_text(os, "macos") {
        Ok(String::from_str("macos"))
    } else if same_text(os, "linux") {
        if same_text(arch, "x86_64") {
            Ok(String::from_str("linux-x64"))
        } else if same_text(arch, "aarch64") || same_text(arch, "arm64") {
            Ok(String::from_str("linux-arm64"))
        } else {
            Err(UnsupportedPlatform::Architecture(arch.to_owned()))
        }
    } else if same_text(os, "windows") {
        Ok(String::from_str(".exe"))
    } else {
        Err(UnsupportedPlatform::Os(os.to_owned()))
    }
}

} // verus!
