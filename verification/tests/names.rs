use dafny_provision::error::Error;
use dafny_provision::names::{
    aux_bin_dir, binary_file_name, binary_path, expected_asset_name, normalize_version,
    should_prune, version_dir_name,
};
use dafny_provision::platform::{to_asset_fragment, Arch, Os, PlatformDescriptor};

fn descriptor(os: Os, arch: Arch) -> PlatformDescriptor {
    PlatformDescriptor { os, arch }
}

#[test]
fn fragment_is_defined_for_every_supported_platform() {
    let oses = [Os::Mac, Os::Linux, Os::Windows];
    let arches = [Arch::Aarch64, Arch::X8664];
    for os in oses {
        for arch in arches {
            let (arch_token, os_token) = to_asset_fragment(descriptor(os, arch)).unwrap();
            let expected_arch = match arch {
                Arch::Aarch64 => "arm64",
                Arch::X8664 => "x64",
                Arch::X86 => unreachable!(),
            };
            let expected_os = match os {
                Os::Mac => "macos-11",
                Os::Linux => "ubuntu-20.04",
                Os::Windows => "windows-2019",
            };
            assert_eq!(arch_token.as_str(), expected_arch);
            assert_eq!(os_token.as_str(), expected_os);
        }
    }
}

#[test]
fn fragment_rejects_x86_on_every_os() {
    for os in [Os::Mac, Os::Linux, Os::Windows] {
        let r = to_asset_fragment(descriptor(os, Arch::X86));
        assert_eq!(r, Err(Error::UnsupportedPlatform));
    }
}

#[test]
fn normalization_strips_one_leading_v() {
    assert_eq!(normalize_version("v4.1.0").as_str(), "4.1.0");
    assert_eq!(normalize_version("4.1.0").as_str(), "4.1.0");
    assert_eq!(normalize_version("").as_str(), "");
    assert_eq!(normalize_version("v").as_str(), "");
    assert_eq!(normalize_version("vv1").as_str(), "v1");
}

#[test]
fn expected_asset_name_uses_normalized_version_and_tokens() {
    let d = descriptor(Os::Linux, Arch::X8664);
    let name = expected_asset_name("v4.1.0", d).unwrap();
    assert_eq!(name.as_str(), "dafny-4.1.0-x64-ubuntu-20.04.zip");

    let d = descriptor(Os::Mac, Arch::Aarch64);
    let name = expected_asset_name("3.9.1", d).unwrap();
    assert_eq!(name.as_str(), "dafny-3.9.1-arm64-macos-11.zip");

    let d = descriptor(Os::Windows, Arch::X8664);
    let name = expected_asset_name("v4.0.0", d).unwrap();
    assert_eq!(name.as_str(), "dafny-4.0.0-x64-windows-2019.zip");
}

#[test]
fn expected_asset_name_rejects_x86() {
    let d = descriptor(Os::Linux, Arch::X86);
    assert_eq!(expected_asset_name("v4.1.0", d), Err(Error::UnsupportedPlatform));
}

#[test]
fn version_dir_keeps_the_raw_tag() {
    assert_eq!(version_dir_name("v4.1.0").as_str(), "dafny-v4.1.0");
    assert_eq!(version_dir_name("4.1.0").as_str(), "dafny-4.1.0");
}

#[test]
fn binary_filename_depends_on_the_os_alone() {
    assert_eq!(binary_file_name(Os::Mac).as_str(), "dafny");
    assert_eq!(binary_file_name(Os::Linux).as_str(), "dafny");
    assert_eq!(binary_file_name(Os::Windows).as_str(), "Dafny.exe");
}

#[test]
fn binary_path_is_version_dir_then_tool_then_filename() {
    assert_eq!(binary_path("v4.1.0", Os::Linux).as_str(), "dafny-v4.1.0/dafny/dafny");
    assert_eq!(binary_path("v4.1.0", Os::Windows).as_str(), "dafny-v4.1.0/dafny/Dafny.exe");
}

#[test]
fn aux_bin_dir_sits_inside_the_extracted_tree() {
    assert_eq!(aux_bin_dir("dafny-v4.1.0").as_str(), "dafny-v4.1.0/dafny/z3/bin");
}

#[test]
fn pruning_spares_exactly_the_kept_directory() {
    let keep = String::from("dafny-v4.1.0");
    assert!(should_prune(&String::from("dafny-3.9.0"), &keep));
    assert!(should_prune(&String::from("dafny-4.1.0"), &keep));
    assert!(!should_prune(&String::from("dafny-v4.1.0"), &keep));
}

#[test]
fn error_messages_carry_their_causes() {
    assert_eq!(Error::UnsupportedPlatform.message().as_str(), "unsupported architecture");
    assert_eq!(
        Error::AssetNotFound(String::from("dafny-4.1.0-x64-ubuntu-20.04.zip")).message().as_str(),
        "no asset found matching \"dafny-4.1.0-x64-ubuntu-20.04.zip\""
    );
    assert_eq!(
        Error::DirectoryCreateFailed(String::from("denied")).message().as_str(),
        "failed to create directory: denied"
    );
    assert_eq!(
        Error::DownloadFailed(String::from("timeout")).message().as_str(),
        "failed to download file: timeout"
    );
    assert_eq!(
        Error::ExtractFailed(String::from("bad zip")).message().as_str(),
        "failed to extract archive: bad zip"
    );
    assert_eq!(Error::PermissionGrantFailed(String::from("denied")).message().as_str(), "denied");
    assert_eq!(Error::IndexUnavailable(String::from("offline")).message().as_str(), "offline");
    assert_eq!(Error::NoQualifyingRelease.message().as_str(), "no qualifying release found");
}
