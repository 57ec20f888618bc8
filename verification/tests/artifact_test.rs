use adoptium_jdk::adoptium_api::{
    page_url, release_asset_url, release_versions_url, Asset, AssetBinary, AssetPackage,
};
use adoptium_jdk::platform::{HostArch, HostEnvironment, HostLibc, HostOs};
use adoptium_jdk::proto::{select_artifact, ChecksumAlgorithm, ResolveError};
use adoptium_jdk::version::{semver_to_release, SemVersion};

fn linux_x64() -> HostEnvironment {
    HostEnvironment { os: HostOs::Linux, arch: HostArch::X64, libc: HostLibc::Gnu }
}

#[test]
fn no_binaries_is_a_terminal_error() {
    let asset = Asset { binaries: vec![] };
    let result = select_artifact("jdk-21+35", &asset);
    assert!(matches!(result, Err(ResolveError::NoBinariesAvailable)));
    assert_eq!(
        ResolveError::NoBinariesAvailable.message(),
        "API returned no binaries."
    );
}

#[test]
fn first_binary_becomes_the_artifact() {
    let asset = Asset {
        binaries: vec![
            AssetBinary {
                package: AssetPackage {
                    name: String::from("OpenJDK21U-jdk_x64_linux_hotspot_21_35.tar.gz"),
                    checksum: String::from("deadbeef"),
                    link: String::from("https://example.invalid/first.tar.gz"),
                },
            },
            AssetBinary {
                package: AssetPackage {
                    name: String::from("second"),
                    checksum: String::from("cafe"),
                    link: String::from("https://example.invalid/second.tar.gz"),
                },
            },
        ],
    };
    let info = select_artifact("jdk-21+35", &asset).unwrap();
    assert_eq!(info.archive_prefix, "jdk-21+35");
    assert_eq!(info.checksum_algo, ChecksumAlgorithm::Sha256);
    assert_eq!(info.checksum_hash, "deadbeef");
    assert_eq!(info.download_url, "https://example.invalid/first.tar.gz");
}

#[test]
fn end_to_end_linux_x64_query() {
    let env = linux_x64();
    let release = semver_to_release(&SemVersion { major: 25, minor: 0, patch: 1, build: 8 });
    assert_eq!(release, "jdk-25.0.1+8");
    let url = release_asset_url(&env, &release);
    assert_eq!(
        url,
        "https://api.adoptium.net/v3/assets/release_name/eclipse/jdk-25.0.1+8\
         ?architecture=x64&os=linux&heap_size=normal&image_type=jdk&jvm_impl=hotspot&project=jdk"
    );
}

#[test]
fn version_listing_urls() {
    let url = release_versions_url(&linux_x64());
    assert_eq!(
        url,
        "https://api.adoptium.net/v3/info/release_versions?architecture=x64&os=linux\
         &heap_size=normal&image_type=jdk&jvm_impl=hotspot&page_size=20&project=jdk\
         &release_type=ga&vendor=eclipse"
    );
    let second = page_url(&url, 1);
    assert_eq!(second, format!("{url}&page=1"));
    let twelfth = page_url(&url, 12);
    assert_eq!(twelfth, format!("{url}&page=12"));
}

#[test]
fn error_messages() {
    assert_eq!(ResolveError::UnsupportedPlatform.message(), "Unsupported platform.");
    assert_eq!(
        ResolveError::UpstreamUnreachable.message(),
        "Upstream API is unreachable."
    );
    assert_eq!(
        ResolveError::MalformedResponse.message(),
        "Upstream API returned a malformed response."
    );
}
