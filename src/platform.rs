use vstd::prelude::*;

use crate::error::{ErrorView, ResolveError};

verus! {

/// The host operating system.
#[derive(Clone, Copy, Debug, PartialEq, Eq, Structural)]
pub enum Os {
    Mac,
    Linux,
    Windows,
}

/// The host CPU architecture.
#[derive(Clone, Copy, Debug, PartialEq, Eq, Structural)]
pub enum Architecture {
    Aarch64,
    X86,
    X8664,
}

/// How a release archive is packed.
#[derive(Clone, Copy, Debug, PartialEq, Eq, Structural)]
pub enum ArchiveKind {
    Zip,
    GzipTar,
}

/// The platform token that release archives use for an operating system.
pub open spec fn os_token_spec(os: Os) -> Seq<char> {
    match os {
        Os::Mac => "darwin"@,
        Os::Linux => "linux"@,
        Os::Windows => "windows"@,
    }
}

/// The architecture token that release archives use, if the upstream
/// distribution ships one for this architecture. Only `arm64` and `amd64`
/// artifacts are published; a host that reports `x86_64` has none.
pub open spec fn arch_token_spec(arch: Architecture) -> Option<Seq<char>> {
    match arch {
        Architecture::Aarch64 => Some("arm64"@),
        Architecture::X86 => Some("amd64"@),
        Architecture::X8664 => None,
    }
}

/// The file name of the release archive for a version on a platform:
/// `kclvm-<version>-<os>.zip` on Windows, `kclvm-<version>-<os>-<arch>.tar.gz`
/// elsewhere; `None` where the architecture is unsupported.
pub open spec fn expected_asset_name(version: Seq<char>, os: Os, arch: Architecture) -> Option<
    Seq<char>,
> {
    match arch_token_spec(arch) {
        None => None,
        Some(a) => Some(
            if os == Os::Windows {
                "kclvm-"@ + version + "-"@ + os_token_spec(os) + ".zip"@
            } else {
                "kclvm-"@ + version + "-"@ + os_token_spec(os) + "-"@ + a + ".tar.gz"@
            },
        ),
    }
}

/// The archive format that goes with the host operating system.
pub open spec fn archive_kind_spec(os: Os) -> ArchiveKind {
    if os == Os::Windows {
        ArchiveKind::Zip
    } else {
        ArchiveKind::GzipTar
    }
}

pub fn os_token(os: Os) -> (r: &'static str)
    ensures
        r@ == os_token_spec(os),
{
    match os {
        Os::Mac => "darwin",
        Os::Linux => "linux",
        Os::Windows => "windows",
    }
}

pub fn arch_token(arch: Architecture) -> (r: Option<&'static str>)
    ensures
        r is Some <==> arch_token_spec(arch) is Some,
        r is Some ==> r->0@ == arch_token_spec(arch)->0,
{
    match arch {
        Architecture::Aarch64 => Some("arm64"),
        Architecture::X86 => Some("amd64"),
        Architecture::X8664 => None,
    }
}

pub fn archive_kind(os: Os) -> (r: ArchiveKind)
    ensures
        r == archive_kind_spec(os),
{
    match os {
        Os::Windows => ArchiveKind::Zip,
        _ => ArchiveKind::GzipTar,
    }
}

/// Computes the release archive name for `version` on the given platform.
/// An architecture without a published artifact is refused.
pub fn asset_name(version: &str, os: Os, arch: Architecture) -> (r: Result<String, ResolveError>)
    ensures
        r is Ok <==> expected_asset_name(version@, os, arch) is Some,
        r is Ok ==> r->Ok_0@ == expected_asset_name(version@, os, arch)->0,
        r is Err ==> r->Err_0@ == ErrorView::UnsupportedArchitecture(arch),
{
    let os_name = os_token(os);
    let arch_name = match arch_token(arch) {
        Some(a) => a,
        None => return Err(ResolveError::UnsupportedArchitecture(arch)),
    };
    let mut name = String::from_str("kclvm-");
    name.append(version);
    name.append("-");
    name.append(os_name);
    if os == Os::Windows {
        name.append(".zip");
    } else {
        name.append("-");
        name.append(arch_name);
        name.append(".tar.gz");
    }
    Ok(name)
}

} // verus!
