//! The installation flow: for each build selection, where the package comes
//! from, which archive it is saved as, and the steps taken in order. The
//! fixed tables of auxiliary files live here too.
use vstd::prelude::*;
use crate::selection::{Architecture, BuildSelection, Stream};

verus! {

/// The working directory, created fresh in the current directory.
pub const INSTALL_DIR: &'static str = "remix";

/// The guide printed at the end of an installation.
pub const GUIDE_URL: &'static str =
    "https://github.com/NVIDIAGameWorks/rtx-remix/wiki/runtime-user-guide";

/// The legacy Direct3D 8 binaries bundle, served by a redirect service.
pub const DX8_BUNDLE_URL: &'static str =
    "https://nightly.link/elishacloud/dxwrapper/workflows/ci/master/dx8%20game%20binaries.zip";

/// The archive name the legacy bundle is saved under.
pub const DX8_BUNDLE_ARCHIVE: &'static str = "dx8_binaries.zip";

/// The library of the legacy bundle that is disabled by renaming it.
pub const DX8_DISABLED_DLL: &'static str = "d3d8.dll";

/// The name the disabled library is given.
pub const DX8_DISABLED_DLL_RENAMED: &'static str = "d3d8_off.dll";

/// The Direct3D 8 to 9 compatibility shim, removed where present.
pub const LEGACY_SHIM_DLL: &'static str = "d3d8to9.dll";

/// The license that comes with the compatibility shim.
pub const LEGACY_SHIM_LICENSE: &'static str = "ThirdPartyLicenses-d3d8to9.txt";

/// Where the package is resolved from.
#[derive(Clone, Copy, Debug, PartialEq, Eq, Structural)]
pub enum PackageSource {
    /// An asset of the latest tagged release.
    LatestRelease,
    /// The unified 32-bit artifact of the latest successful CI run.
    UnifiedX86Artifact,
    /// The 64-bit artifact of the latest successful CI run.
    X64Artifact,
}

/// One step of the installation.
#[derive(Clone, Copy, Debug, PartialEq, Eq, Structural)]
pub enum InstallStep {
    /// Resolve the package's name and download URL from its source.
    ResolvePackage,
    /// Download the package archive into the working directory.
    DownloadPackage,
    /// Extract the package archive into the working directory and delete it.
    ExtractPackage,
    /// Delete debug-symbol and CI metadata files throughout the tree.
    CleanupDebugFiles,
    /// Delete the compatibility shim and its license, where present.
    RemoveLegacyShim,
    /// Download and extract the legacy Direct3D 8 bundle, disable its
    /// `d3d8.dll`, remove the shim, and fetch the bundle's license.
    InstallDx8Bundle,
    /// Download the configuration files.
    FetchConfigFiles,
    /// Download the licenses of a 32-bit installation.
    FetchLicenses,
    /// Download the licenses of a 64-bit installation.
    FetchX64Licenses,
    /// Move the nested runtime folder's files to the root and drop 32-bit
    /// components.
    ReorganizeX64,
    /// Write the manifest of build names.
    WriteManifest,
}

pub open spec fn source_of(sel: BuildSelection) -> PackageSource {
    match (sel.stream, sel.architecture) {
        (Stream::Stable, _) => PackageSource::LatestRelease,
        (Stream::Development, Architecture::X86) => PackageSource::UnifiedX86Artifact,
        (Stream::Development, Architecture::X64) => PackageSource::X64Artifact,
    }
}

/// Stable builds come from the latest release, development builds from the
/// CI artifact for the architecture.
pub fn package_source(sel: &BuildSelection) -> (r: PackageSource)
    ensures
        r == source_of(*sel),
{
    match (sel.stream, sel.architecture) {
        (Stream::Stable, _) => PackageSource::LatestRelease,
        (Stream::Development, Architecture::X86) => PackageSource::UnifiedX86Artifact,
        (Stream::Development, Architecture::X64) => PackageSource::X64Artifact,
    }
}

pub open spec fn archive_name_of(source: PackageSource) -> Seq<char> {
    match source {
        PackageSource::LatestRelease => "stable-release.zip"@,
        PackageSource::UnifiedX86Artifact => "rtx-remix-x86.zip"@,
        PackageSource::X64Artifact => "rtx-remix-x64.zip"@,
    }
}

/// The name the package archive is saved under in the working directory.
pub fn package_archive_name(source: PackageSource) -> (r: &'static str)
    ensures
        r@ == archive_name_of(source),
{
    match source {
        PackageSource::LatestRelease => "stable-release.zip",
        PackageSource::UnifiedX86Artifact => "rtx-remix-x86.zip",
        PackageSource::X64Artifact => "rtx-remix-x64.zip",
    }
}

/// Resolving, downloading, extracting and cleaning the package: the steps
/// that every installation begins with.
pub open spec fn package_steps() -> Seq<InstallStep> {
    seq![
        InstallStep::ResolvePackage,
        InstallStep::DownloadPackage,
        InstallStep::ExtractPackage,
        InstallStep::CleanupDebugFiles,
    ]
}

/// The steps of an installation, in order. A stable build writes the
/// manifest right after cleaning up; a 32-bit stable build then drops the
/// shim and adds the legacy bundle, the configuration files and licenses; a
/// 64-bit stable build is reorganized and gets its licenses. A development
/// build adds the same files for its architecture and writes the manifest
/// last.
pub open spec fn install_plan(sel: BuildSelection) -> Seq<InstallStep> {
    match (sel.stream, sel.architecture) {
        (Stream::Stable, Architecture::X86) => package_steps() + seq![
            InstallStep::WriteManifest,
            InstallStep::RemoveLegacyShim,
            InstallStep::InstallDx8Bundle,
            InstallStep::FetchConfigFiles,
            InstallStep::FetchLicenses,
        ],
        (Stream::Stable, Architecture::X64) => package_steps() + seq![
            InstallStep::WriteManifest,
            InstallStep::ReorganizeX64,
            InstallStep::FetchX64Licenses,
        ],
        (Stream::Development, Architecture::X86) => package_steps() + seq![
            InstallStep::InstallDx8Bundle,
            InstallStep::FetchConfigFiles,
            InstallStep::FetchLicenses,
            InstallStep::WriteManifest,
        ],
        (Stream::Development, Architecture::X64) => package_steps() + seq![
            InstallStep::FetchX64Licenses,
            InstallStep::WriteManifest,
        ],
    }
}

/// The steps that install the selected build, in order.
pub fn install_steps(sel: &BuildSelection) -> (r: Vec<InstallStep>)
    ensures
        r@ == install_plan(*sel),
{
    let mut steps: Vec<InstallStep> = Vec::new();
    steps.push(InstallStep::ResolvePackage);
    steps.push(InstallStep::DownloadPackage);
    steps.push(InstallStep::ExtractPackage);
    steps.push(InstallStep::CleanupDebugFiles);
    match (sel.stream, sel.architecture) {
        (Stream::Stable, Architecture::X86) => {
            steps.push(InstallStep::WriteManifest);
            steps.push(InstallStep::RemoveLegacyShim);
            steps.push(InstallStep::InstallDx8Bundle);
            steps.push(InstallStep::FetchConfigFiles);
            steps.push(InstallStep::FetchLicenses);
        },
        (Stream::Stable, Architecture::X64) => {
            steps.push(InstallStep::WriteManifest);
            steps.push(InstallStep::ReorganizeX64);
            steps.push(InstallStep::FetchX64Licenses);
        },
        (Stream::Development, Architecture::X86) => {
            steps.push(InstallStep::InstallDx8Bundle);
            steps.push(InstallStep::FetchConfigFiles);
            steps.push(InstallStep::FetchLicenses);
            steps.push(InstallStep::WriteManifest);
        },
        (Stream::Development, Architecture::X64) => {
            steps.push(InstallStep::FetchX64Licenses);
            steps.push(InstallStep::WriteManifest);
        },
    }
    assert(steps@ =~= install_plan(*sel));
    steps
}

/// A file fetched beside the package: its name, where it is downloaded from,
/// and the subfolder of the working directory it goes to (empty for the
/// root).
#[derive(Clone, Copy, Debug)]
pub struct AuxiliaryFile {
    pub file_name: &'static str,
    pub url: &'static str,
    pub subfolder: &'static str,
}

pub open spec fn aux_view(f: AuxiliaryFile) -> (Seq<char>, Seq<char>, Seq<char>) {
    (f.file_name@, f.url@, f.subfolder@)
}

pub open spec fn config_table() -> Seq<(Seq<char>, Seq<char>, Seq<char>)> {
    seq![
        (
            "dxvk.conf"@,
            "https://raw.githubusercontent.com/NVIDIAGameWorks/dxvk-remix/main/dxvk.conf"@,
            ""@,
        ),
        (
            "bridge.conf"@,
            "https://raw.githubusercontent.com/NVIDIAGameWorks/bridge-remix/refs/heads/main/bridge.conf"@,
            NESTED_CONFIG_DIR@,
        ),
    ]
}

/// The subfolder that holds the bridge's configuration.
pub const NESTED_CONFIG_DIR: &'static str = ".trex";

/// The configuration files of a 32-bit installation.
pub fn config_files() -> (r: Vec<AuxiliaryFile>)
    ensures
        r@.map_values(|f: AuxiliaryFile| aux_view(f)) == config_table(),
{
    let mut r: Vec<AuxiliaryFile> = Vec::new();
    r.push(
        AuxiliaryFile {
            file_name: "dxvk.conf",
            url: "https://raw.githubusercontent.com/NVIDIAGameWorks/dxvk-remix/main/dxvk.conf",
            subfolder: "",
        },
    );
    r.push(
        AuxiliaryFile {
            file_name: "bridge.conf",
            url: "https://raw.githubusercontent.com/NVIDIAGameWorks/bridge-remix/refs/heads/main/bridge.conf",
            subfolder: NESTED_CONFIG_DIR,
        },
    );
    assert(r@.map_values(|f: AuxiliaryFile| aux_view(f)) =~= config_table());
    r
}

pub open spec fn license_table(arch: Architecture) -> Seq<(Seq<char>, Seq<char>, Seq<char>)> {
    match arch {
        Architecture::X86 => seq![
            (
                "LICENSE.txt"@,
                "https://raw.githubusercontent.com/NVIDIAGameWorks/rtx-remix/refs/heads/main/LICENSE.txt"@,
                ""@,
            ),
            (
                "ThirdPartyLicenses-dxvk.txt"@,
                "https://raw.githubusercontent.com/NVIDIAGameWorks/dxvk-remix/refs/heads/main/ThirdPartyLicenses.txt"@,
                ""@,
            ),
            (
                "ThirdPartyLicenses-bridge.txt"@,
                "https://raw.githubusercontent.com/NVIDIAGameWorks/bridge-remix/refs/heads/main/ThirdPartyLicenses.txt"@,
                ""@,
            ),
        ],
        Architecture::X64 => seq![
            (
                "LICENSE.txt"@,
                "https://raw.githubusercontent.com/NVIDIAGameWorks/rtx-remix/refs/heads/main/LICENSE.txt"@,
                ""@,
            ),
            (
                "ThirdPartyLicenses.txt"@,
                "https://raw.githubusercontent.com/NVIDIAGameWorks/dxvk-remix/refs/heads/main/ThirdPartyLicenses.txt"@,
                ""@,
            ),
        ],
    }
}

/// The license files of an installation: for 32-bit games those of the
/// runtime, the renderer and the bridge; for 64-bit games, which have no
/// bridge, those of the runtime and the renderer.
pub fn license_files(arch: Architecture) -> (r: Vec<AuxiliaryFile>)
    ensures
        r@.map_values(|f: AuxiliaryFile| aux_view(f)) == license_table(arch),
{
    let mut r: Vec<AuxiliaryFile> = Vec::new();
    r.push(
        AuxiliaryFile {
            file_name: "LICENSE.txt",
            url: "https://raw.githubusercontent.com/NVIDIAGameWorks/rtx-remix/refs/heads/main/LICENSE.txt",
            subfolder: "",
        },
    );
    match arch {
        Architecture::X86 => {
            r.push(
                AuxiliaryFile {
                    file_name: "ThirdPartyLicenses-dxvk.txt",
                    url: "https://raw.githubusercontent.com/NVIDIAGameWorks/dxvk-remix/refs/heads/main/ThirdPartyLicenses.txt",
                    subfolder: "",
                },
            );
            r.push(
                AuxiliaryFile {
                    file_name: "ThirdPartyLicenses-bridge.txt",
                    url: "https://raw.githubusercontent.com/NVIDIAGameWorks/bridge-remix/refs/heads/main/ThirdPartyLicenses.txt",
                    subfolder: "",
                },
            );
        },
        Architecture::X64 => {
            r.push(
                AuxiliaryFile {
                    file_name: "ThirdPartyLicenses.txt",
                    url: "https://raw.githubusercontent.com/NVIDIAGameWorks/dxvk-remix/refs/heads/main/ThirdPartyLicenses.txt",
                    subfolder: "",
                },
            );
        },
    }
    assert(r@.map_values(|f: AuxiliaryFile| aux_view(f)) =~= license_table(arch));
    r
}

/// The license of the legacy Direct3D 8 bundle, fetched with it.
pub fn dx8_bundle_license() -> (r: AuxiliaryFile)
    ensures
        aux_view(r) == (
            "ThirdPartyLicenses-dxwrapper.txt"@,
            "https://raw.githubusercontent.com/elishacloud/dxwrapper/refs/heads/master/License.txt"@,
            ""@,
        ),
{
    AuxiliaryFile {
        file_name: "ThirdPartyLicenses-dxwrapper.txt",
        url: "https://raw.githubusercontent.com/elishacloud/dxwrapper/refs/heads/master/License.txt",
        subfolder: "",
    }
}

} // verus!
