use remix_fetch::install::{
    config_files, dx8_bundle_license, install_steps, license_files, package_archive_name,
    package_source, InstallStep, PackageSource,
};
use remix_fetch::install::InstallStep::{
    CleanupDebugFiles, DownloadPackage, ExtractPackage, FetchConfigFiles, FetchLicenses,
    FetchX64Licenses, InstallDx8Bundle, RemoveLegacyShim, ReorganizeX64, ResolvePackage,
    WriteManifest,
};
use remix_fetch::selection::{Architecture, BuildSelection, BuildType, Stream};

fn sel(stream: Stream, architecture: Architecture) -> BuildSelection {
    BuildSelection { stream, architecture, build_type: BuildType::Release }
}

#[test]
fn sources_and_archives() {
    let s86 = sel(Stream::Stable, Architecture::X86);
    let d86 = sel(Stream::Development, Architecture::X86);
    let d64 = sel(Stream::Development, Architecture::X64);
    assert_eq!(package_source(&s86), PackageSource::LatestRelease);
    assert_eq!(package_source(&sel(Stream::Stable, Architecture::X64)), PackageSource::LatestRelease);
    assert_eq!(package_source(&d86), PackageSource::UnifiedX86Artifact);
    assert_eq!(package_source(&d64), PackageSource::X64Artifact);
    assert_eq!(package_archive_name(PackageSource::LatestRelease), "stable-release.zip");
    assert_eq!(package_archive_name(PackageSource::UnifiedX86Artifact), "rtx-remix-x86.zip");
    assert_eq!(package_archive_name(PackageSource::X64Artifact), "rtx-remix-x64.zip");
}

#[test]
fn stable_steps() {
    assert_eq!(
        install_steps(&sel(Stream::Stable, Architecture::X86)),
        vec![
            ResolvePackage, DownloadPackage, ExtractPackage, CleanupDebugFiles, WriteManifest,
            RemoveLegacyShim, InstallDx8Bundle, FetchConfigFiles, FetchLicenses,
        ]
    );
    assert_eq!(
        install_steps(&sel(Stream::Stable, Architecture::X64)),
        vec![
            ResolvePackage, DownloadPackage, ExtractPackage, CleanupDebugFiles, WriteManifest,
            ReorganizeX64, FetchX64Licenses,
        ]
    );
}

#[test]
fn development_steps() {
    assert_eq!(
        install_steps(&sel(Stream::Development, Architecture::X86)),
        vec![
            ResolvePackage, DownloadPackage, ExtractPackage, CleanupDebugFiles, InstallDx8Bundle,
            FetchConfigFiles, FetchLicenses, WriteManifest,
        ]
    );
    assert_eq!(
        install_steps(&sel(Stream::Development, Architecture::X64)),
        vec![
            ResolvePackage, DownloadPackage, ExtractPackage, CleanupDebugFiles, FetchX64Licenses,
            WriteManifest,
        ]
    );
}

#[test]
fn auxiliary_file_tables() {
    let cfg = config_files();
    assert_eq!(cfg.len(), 2);
    assert_eq!(cfg[0].file_name, "dxvk.conf");
    assert_eq!(cfg[0].subfolder, "");
    assert_eq!(cfg[1].file_name, "bridge.conf");
    assert_eq!(cfg[1].subfolder, ".trex");
    let l86: Vec<&str> = license_files(Architecture::X86).iter().map(|f| f.file_name).collect();
    assert_eq!(
        l86,
        vec!["LICENSE.txt", "ThirdPartyLicenses-dxvk.txt", "ThirdPartyLicenses-bridge.txt"]
    );
    let l64: Vec<&str> = license_files(Architecture::X64).iter().map(|f| f.file_name).collect();
    assert_eq!(l64, vec!["LICENSE.txt", "ThirdPartyLicenses.txt"]);
    assert_eq!(dx8_bundle_license().file_name, "ThirdPartyLicenses-dxwrapper.txt");
}
