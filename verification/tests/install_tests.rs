use readstat_fetch::install::{
    get_installation_dir, get_readstat_path, install_path, package_binary_path,
    record_installation, InstalledBinary, EXECUTABLE_MODE,
};
use readstat_fetch::archive::ArchiveKind;
use readstat_fetch::release::{find_asset_url, plan_download, Asset};
use readstat_fetch::text::{extension_of, file_name_of, rfind_char, str_eq};
use readstat_fetch::InstallError;

#[test]
fn installation_dir_hangs_off_the_home_directory() {
    assert_eq!(
        get_installation_dir(Some("/home/someone")),
        Ok("/home/someone/.mary_elizabeth_utils".to_string())
    );
}

#[test]
fn installation_dir_requires_a_home_directory() {
    assert_eq!(
        get_installation_dir(None),
        Err(InstallError::MissingHomeDirectory)
    );
}

#[test]
fn install_path_joins_directory_and_binary_name() {
    assert_eq!(
        install_path("/home/someone/.mary_elizabeth_utils", "readstat"),
        "/home/someone/.mary_elizabeth_utils/readstat"
    );
}

#[test]
fn package_binary_path_is_package_relative() {
    assert_eq!(
        package_binary_path("readstat.exe"),
        "rust-bin/readstat_binary/readstat.exe"
    );
}

#[test]
fn executable_mode_is_rwx_for_owner() {
    assert_eq!(EXECUTABLE_MODE, 0o755);
}

#[test]
fn accessor_returns_the_installed_path() {
    let record = record_installation("/home/someone/.mary_elizabeth_utils/readstat".to_string(), false);
    assert!(record.executable);
    let path = get_readstat_path(&Some(record)).unwrap();
    assert_eq!(path, "/home/someone/.mary_elizabeth_utils/readstat");
}

#[test]
fn windows_installation_is_not_marked_executable() {
    let record = record_installation("C:/Users/someone/readstat.exe".to_string(), true);
    assert!(!record.executable);
    assert_eq!(
        get_readstat_path(&Some(record)).unwrap(),
        "C:/Users/someone/readstat.exe"
    );
}

#[test]
fn accessor_fails_before_any_installation() {
    assert_eq!(get_readstat_path(&None), Err(InstallError::NotInstalled));
}

#[test]
fn accessor_accepts_a_prebuilt_record() {
    let record = InstalledBinary { path: "/opt/readstat".to_string(), executable: true };
    assert_eq!(get_readstat_path(&Some(record)).unwrap(), "/opt/readstat");
}

#[test]
fn asset_lookup_returns_the_first_matching_url() {
    let assets = vec![
        Asset { name: "readstat-v0.12.2-x86_64-apple-darwin.tar.gz".to_string(), url: "https://example.invalid/mac".to_string() },
        Asset { name: "readstat-v0.12.2-x86_64-unknown-linux-gnu.tar.gz".to_string(), url: "https://example.invalid/linux".to_string() },
        Asset { name: "readstat-v0.12.2-x86_64-unknown-linux-gnu.tar.gz".to_string(), url: "https://example.invalid/duplicate".to_string() },
    ];
    assert_eq!(
        find_asset_url(&assets, "readstat-v0.12.2-x86_64-unknown-linux-gnu.tar.gz"),
        Ok("https://example.invalid/linux".to_string())
    );
}

#[test]
fn asset_lookup_fails_when_nothing_matches() {
    let assets = vec![Asset { name: "other.tar.gz".to_string(), url: "https://example.invalid/x".to_string() }];
    assert_eq!(
        find_asset_url(&assets, "readstat-v0.12.2-x86_64-unknown-linux-gnu.tar.gz"),
        Err(InstallError::AssetNotFound)
    );
    let empty: Vec<Asset> = Vec::new();
    assert_eq!(
        find_asset_url(&empty, "anything"),
        Err(InstallError::AssetNotFound)
    );
}

#[test]
fn a_download_is_planned_from_target_and_listing() {
    let assets = vec![
        Asset {
            name: "readstat-v0.12.2-x86_64-unknown-linux-gnu.tar.gz".to_string(),
            url: "https://example.invalid/linux".to_string(),
        },
        Asset {
            name: "readstat-v0.12.2-x86_64-pc-windows-msvc.zip".to_string(),
            url: "https://example.invalid/windows".to_string(),
        },
    ];
    let plan = plan_download(&assets, "x86_64-unknown-linux-gnu").unwrap();
    assert_eq!(plan.url, "https://example.invalid/linux");
    assert_eq!(plan.kind, ArchiveKind::TarGz);
    let plan = plan_download(&assets, "x86_64-pc-windows-msvc").unwrap();
    assert_eq!(plan.url, "https://example.invalid/windows");
    assert_eq!(plan.kind, ArchiveKind::Zip);
}

#[test]
fn planning_fails_before_any_fetch_could_start() {
    let assets = vec![Asset {
        name: "readstat-v0.12.2-x86_64-unknown-linux-gnu.tar.gz".to_string(),
        url: "https://example.invalid/linux".to_string(),
    }];
    assert_eq!(
        plan_download(&assets, "powerpc-unknown-linux-gnu"),
        Err(InstallError::UnsupportedPlatform)
    );
    assert_eq!(
        plan_download(&assets, "aarch64-apple-darwin"),
        Err(InstallError::AssetNotFound)
    );
    let empty: Vec<Asset> = Vec::new();
    assert_eq!(
        plan_download(&empty, "x86_64-unknown-linux-gnu"),
        Err(InstallError::AssetNotFound)
    );
}

#[test]
fn text_helpers_behave_like_their_specs() {
    assert!(str_eq("readstat", "readstat"));
    assert!(!str_eq("readstat", "readstat.exe"));
    assert!(!str_eq("a", "b"));
    assert_eq!(rfind_char("a/b/c", '/'), Some(3));
    assert_eq!(rfind_char("abc", '/'), None);
    assert_eq!(file_name_of("bin/readstat"), "readstat");
    assert_eq!(file_name_of("readstat"), "readstat");
    assert_eq!(file_name_of("dir/"), "");
    assert_eq!(extension_of("a.tar.gz"), Some("gz"));
    assert_eq!(extension_of("archive.zip"), Some("zip"));
    assert_eq!(extension_of("none"), None);
}
