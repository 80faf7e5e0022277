//! Maps an (operating system, architecture) pair and a version to the
//! download descriptor for the matching ONNX Runtime release. Pure: resolving
//! performs no network or filesystem work, so an unsupported pair or version
//! fails before any I/O is attempted.
use vstd::prelude::*;

use crate::error::ProvisionError;
use crate::text::str_eq;

verus! {

/// The dynamic-library flavour a platform expects.
#[derive(Clone, Copy, PartialEq, Eq, Structural, Debug)]
pub enum DylibName {
    /// `libonnxruntime.so`, for Linux.
    So,
    /// `libonnxruntime.dylib`, for macOS.
    Dylib,
    /// `onnxruntime.dll`, for Windows.
    Dll,
}

/// The container format of a downloaded archive.
#[derive(Clone, Copy, PartialEq, Eq, Structural, Debug)]
pub enum FileType {
    /// A gzip-compressed tarball.
    Tgz,
    /// A zip archive.
    Zip,
}

/// Everything needed to fetch and unpack one release: where to download it,
/// the top-level directory inside the archive, the archive format, and the
/// library file expected inside `<package_name>/lib`.
#[derive(Debug)]
pub struct DownloadSpec {
    pub url: String,
    pub package_name: String,
    pub archive_ext: String,
    pub dylib_name: DylibName,
    pub file_type: FileType,
}

/// The operating systems with a download mapping.
pub open spec fn supported_os(os: Seq<char>) -> bool {
    os == "linux"@ || os == "macos"@ || os == "windows"@
}

/// The (operating system, architecture) pairs with a download mapping.
pub open spec fn supported_pair(os: Seq<char>, arch: Seq<char>) -> bool {
    supported_os(os) && (arch == "x86_64"@ || arch == "aarch64"@)
}

/// The platform tag embedded in release file names.
pub open spec fn platform_tag(os: Seq<char>, arch: Seq<char>) -> Seq<char>
    recommends
        supported_pair(os, arch),
{
    if os == "linux"@ {
        if arch == "x86_64"@ {
            "linux-x64"@
        } else {
            "linux-aarch64"@
        }
    } else if os == "macos"@ {
        if arch == "x86_64"@ {
            "osx-x86_64"@
        } else {
            "osx-arm64"@
        }
    } else {
        if arch == "x86_64"@ {
            "win-x64"@
        } else {
            "win-arm64"@
        }
    }
}

/// Linux and macOS releases ship as tarballs, Windows releases as zip files.
pub open spec fn archive_ext_spec(os: Seq<char>) -> Seq<char> {
    if os == "windows"@ {
        "zip"@
    } else {
        "tgz"@
    }
}

/// The archive kind matching `archive_ext_spec`.
pub open spec fn file_type_spec(os: Seq<char>) -> FileType {
    if os == "windows"@ {
        FileType::Zip
    } else {
        FileType::Tgz
    }
}

/// The library flavour each operating system loads.
pub open spec fn dylib_name_for_os(os: Seq<char>) -> DylibName {
    if os == "linux"@ {
        DylibName::So
    } else if os == "macos"@ {
        DylibName::Dylib
    } else {
        DylibName::Dll
    }
}

/// The top-level directory name inside a release archive.
pub open spec fn package_name_spec(os: Seq<char>, arch: Seq<char>, v: Seq<char>) -> Seq<char> {
    "onnxruntime-"@ + platform_tag(os, arch) + "-"@ + v
}

/// The full download URL of a release.
pub open spec fn url_spec(os: Seq<char>, arch: Seq<char>, v: Seq<char>) -> Seq<char> {
    "https://github.com/microsoft/onnxruntime/releases/download/v"@ + v + "/onnxruntime-"@
        + platform_tag(os, arch) + "-"@ + v + "."@ + archive_ext_spec(os)
}

/// What `resolve` promises of a returned descriptor.
pub open spec fn download_spec_wf(
    d: DownloadSpec,
    os: Seq<char>,
    arch: Seq<char>,
    v: Seq<char>,
) -> bool {
    &&& d.url@ == url_spec(os, arch, v)
    &&& d.package_name@ == package_name_spec(os, arch, v)
    &&& d.archive_ext@ == archive_ext_spec(os)
    &&& d.dylib_name == dylib_name_for_os(os)
    &&& d.file_type == file_type_spec(os)
}

fn build_spec(
    tag: &str,
    ext: &str,
    dylib_name: DylibName,
    file_type: FileType,
    version: &str,
) -> (r: DownloadSpec)
    ensures
        r.url@ == "https://github.com/microsoft/onnxruntime/releases/download/v"@ + version@
            + "/onnxruntime-"@ + tag@ + "-"@ + version@ + "."@ + ext@,
        r.package_name@ == "onnxruntime-"@ + tag@ + "-"@ + version@,
        r.archive_ext@ == ext@,
        r.dylib_name == dylib_name,
        r.file_type == file_type,
{
    let mut url = String::from_str("https://github.com/microsoft/onnxruntime/releases/download/v");
    url.append(version);
    url.append("/onnxruntime-");
    url.append(tag);
    url.append("-");
    url.append(version);
    url.append(".");
    url.append(ext);
    let mut package_name = String::from_str("onnxruntime-");
    package_name.append(tag);
    package_name.append("-");
    package_name.append(version);
    DownloadSpec { url, package_name, archive_ext: String::from_str(ext), dylib_name, file_type }
}

/// Resolves the download for one platform. Total over the supported set of
/// (operating system, architecture) pairs; every other pair is rejected with
/// `UnsupportedPlatform` naming the pair, never mapped to a default.
pub fn resolve(os: &str, arch: &str, version: &str) -> (r: Result<DownloadSpec, ProvisionError>)
    ensures
        r is Ok <==> supported_pair(os@, arch@),
        r matches Ok(d) ==> download_spec_wf(d, os@, arch@, version@),
        r matches Err(e) ==> e matches ProvisionError::UnsupportedPlatform { os: eo, arch: ea }
            && eo@ == os@ && ea@ == arch@,
{
    proof {
        reveal_strlit("linux");
        reveal_strlit("macos");
        reveal_strlit("windows");
        assert("linux"@.len() == 5);
        assert("windows"@.len() == 7);
        assert("linux"@ != "windows"@);
        assert("macos"@ != "windows"@);
    }
    if str_eq(os, "linux") {
        if str_eq(arch, "x86_64") {
            Ok(build_spec("linux-x64", "tgz", DylibName::So, FileType::Tgz, version))
        } else if str_eq(arch, "aarch64") {
            Ok(build_spec("linux-aarch64", "tgz", DylibName::So, FileType::Tgz, version))
        } else {
            Err(unsupported_platform(os, arch))
        }
    } else if str_eq(os, "macos") {
        if str_eq(arch, "x86_64") {
            Ok(build_spec("osx-x86_64", "tgz", DylibName::Dylib, FileType::Tgz, version))
        } else if str_eq(arch, "aarch64") {
            Ok(build_spec("osx-arm64", "tgz", DylibName::Dylib, FileType::Tgz, version))
        } else {
            Err(unsupported_platform(os, arch))
        }
    } else if str_eq(os, "windows") {
        if str_eq(arch, "x86_64") {
            Ok(build_spec("win-x64", "zip", DylibName::Dll, FileType::Zip, version))
        } else if str_eq(arch, "aarch64") {
            Ok(build_spec("win-arm64", "zip", DylibName::Dll, FileType::Zip, version))
        } else {
            Err(unsupported_platform(os, arch))
        }
    } else {
        Err(unsupported_platform(os, arch))
    }
}

fn unsupported_platform(os: &str, arch: &str) -> (r: ProvisionError)
    ensures
        r matches ProvisionError::UnsupportedPlatform { os: eo, arch: ea } && eo@ == os@ && ea@
            == arch@,
{
    ProvisionError::UnsupportedPlatform {
        os: String::from_str(os),
        arch: String::from_str(arch),
    }
}

/// The fixed allow-list of versions this pipeline provisions.
pub open spec fn version_supported(v: Seq<char>) -> bool {
    v == "1.20.0"@
}

/// Gate on the version allow-list. Pure, so an unsupported version fails
/// before any network or filesystem activity.
pub fn check_version(version: &str) -> (r: Result<(), ProvisionError>)
    ensures
        r is Ok <==> version_supported(version@),
        r matches Err(e) ==> e matches ProvisionError::UnsupportedVersion { version: ev } && ev@
            == version@,
{
    if str_eq(version, "1.20.0") {
        Ok(())
    } else {
        Err(ProvisionError::UnsupportedVersion { version: String::from_str(version) })
    }
}

/// The file name of the dynamic library for each flavour.
pub open spec fn dylib_file_name_spec(d: DylibName) -> Seq<char> {
    match d {
        DylibName::So => "libonnxruntime.so"@,
        DylibName::Dylib => "libonnxruntime.dylib"@,
        DylibName::Dll => "onnxruntime.dll"@,
    }
}

/// The file name under which each library flavour is shipped and loaded.
pub fn dylib_file_name(d: DylibName) -> (r: &'static str)
    ensures
        r@ == dylib_file_name_spec(d),
{
    match d {
        DylibName::So => "libonnxruntime.so",
        DylibName::Dylib => "libonnxruntime.dylib",
        DylibName::Dll => "onnxruntime.dll",
    }
}

impl DylibName {
    /// The byte tag under which each flavour is denoted in raw bytes.
    pub open spec fn code_spec(self) -> u8 {
        match self {
            DylibName::So => 1,
            DylibName::Dylib => 2,
            DylibName::Dll => 3,
        }
    }
}

impl From<DylibName> for u8 {
    fn from(value: DylibName) -> u8 {
        match value {
            DylibName::So => 1,
            DylibName::Dylib => 2,
            DylibName::Dll => 3,
        }
    }
}

impl vstd::std_specs::convert::FromSpecImpl<DylibName> for u8 {
    open spec fn obeys_from_spec() -> bool {
        true
    }

    open spec fn from_spec(t: DylibName) -> u8 {
        t.code_spec()
    }
}

impl TryFrom<u8> for DylibName {
    type Error = ProvisionError;

    fn try_from(value: u8) -> Result<DylibName, ProvisionError> {
        match value {
            1 => Ok(DylibName::So),
            2 => Ok(DylibName::Dylib),
            3 => Ok(DylibName::Dll),
            _ => Err(ProvisionError::UnknownLibraryTag { tag: value }),
        }
    }
}

impl vstd::std_specs::convert::TryFromSpecImpl<u8> for DylibName {
    open spec fn obeys_try_from_spec() -> bool {
        true
    }

    open spec fn try_from_spec(v: u8) -> Result<DylibName, ProvisionError> {
        match v {
            1u8 => Ok(DylibName::So),
            2u8 => Ok(DylibName::Dylib),
            3u8 => Ok(DylibName::Dll),
            _ => Err(ProvisionError::UnknownLibraryTag { tag: v }),
        }
    }
}

/// For every supported pair the resolved URL is non-empty and contains the
/// requested version string.
pub proof fn lemma_url_contains_version(os: Seq<char>, arch: Seq<char>, v: Seq<char>)
    requires
        supported_pair(os, arch),
    ensures
        url_spec(os, arch, v).len() > 0,
        exists|i: int|
            0 <= i && i + v.len() <= url_spec(os, arch, v).len() && #[trigger] url_spec(
                os,
                arch,
                v,
            ).subrange(i, i + v.len() as int) == v,
{
    reveal_strlit("https://github.com/microsoft/onnxruntime/releases/download/v");
    let base = "https://github.com/microsoft/onnxruntime/releases/download/v"@;
    let u = url_spec(os, arch, v);
    let i0 = base.len() as int;
    assert(u.subrange(i0, i0 + v.len() as int) =~= v);
}

} // verus!
