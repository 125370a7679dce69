use dafny_provision::error::Error;
use dafny_provision::platform::{Arch, Os, PlatformDescriptor};
use dafny_provision::release::{Asset, Release};
use dafny_provision::selector::select_asset;

fn asset(name: &str, url: &str) -> Asset {
    Asset { name: String::from(name), download_url: String::from(url) }
}

fn linux_x64() -> PlatformDescriptor {
    PlatformDescriptor { os: Os::Linux, arch: Arch::X8664 }
}

#[test]
fn selects_the_exactly_named_asset_and_ignores_the_rest() {
    let release = Release {
        version: String::from("v4.1.0"),
        assets: vec![
            asset("dafny-4.1.0-x64-windows-2019.zip", "https://example.invalid/win"),
            asset("dafny-4.1.0-x64-ubuntu-20.04.zip", "https://example.invalid/linux"),
            asset("dafny-4.1.0-arm64-macos-11.zip", "https://example.invalid/mac"),
        ],
    };
    let chosen = select_asset(&release, linux_x64()).unwrap();
    assert_eq!(chosen.name.as_str(), "dafny-4.1.0-x64-ubuntu-20.04.zip");
    assert_eq!(chosen.download_url.as_str(), "https://example.invalid/linux");
}

#[test]
fn selects_the_first_of_equally_named_assets() {
    let release = Release {
        version: String::from("v4.1.0"),
        assets: vec![
            asset("dafny-4.1.0-x64-ubuntu-20.04.zip", "https://example.invalid/first"),
            asset("dafny-4.1.0-x64-ubuntu-20.04.zip", "https://example.invalid/second"),
        ],
    };
    let chosen = select_asset(&release, linux_x64()).unwrap();
    assert_eq!(chosen.download_url.as_str(), "https://example.invalid/first");
}

#[test]
fn near_matches_do_not_count() {
    let release = Release {
        version: String::from("v4.1.0"),
        assets: vec![
            asset("dafny-4.1.0-x64-ubuntu-20.04.tar.gz", "https://example.invalid/tar"),
            asset("dafny-4.1.0-x64-ubuntu-18.04.zip", "https://example.invalid/old"),
            asset("Dafny-4.1.0-x64-ubuntu-20.04.zip", "https://example.invalid/case"),
        ],
    };
    let r = select_asset(&release, linux_x64());
    assert_eq!(
        r,
        Err(Error::AssetNotFound(String::from("dafny-4.1.0-x64-ubuntu-20.04.zip")))
    );
}

#[test]
fn no_assets_at_all_fails_with_the_expected_name() {
    let release = Release { version: String::from("4.2.0"), assets: vec![] };
    let r = select_asset(&release, linux_x64());
    assert_eq!(
        r,
        Err(Error::AssetNotFound(String::from("dafny-4.2.0-x64-ubuntu-20.04.zip")))
    );
}

#[test]
fn selection_rejects_x86_before_looking_at_assets() {
    let release = Release {
        version: String::from("v4.1.0"),
        assets: vec![asset("dafny-4.1.0-x64-ubuntu-20.04.zip", "https://example.invalid/linux")],
    };
    let d = PlatformDescriptor { os: Os::Linux, arch: Arch::X86 };
    assert_eq!(select_asset(&release, d), Err(Error::UnsupportedPlatform));
}
